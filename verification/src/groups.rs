//! The advisory check that the server's user belongs to the OS `input`
//! group. The surrounding program gathers the user's group names and only
//! warns when this check fails.

use vstd::prelude::*;

verus! {

/// The name of the OS group that grants access to input devices: the ASCII
/// bytes of `input`.
pub open spec fn input_group_name() -> Seq<u8> {
    seq![105u8, 110u8, 112u8, 117u8, 116u8]
}

/// Whether one group name is exactly `input`.
pub fn is_input_group(name: &Vec<u8>) -> (r: bool)
    ensures
        r == (name@ == input_group_name()),
{
    if name.len() != 5 {
        return false;
    }
    if name[0] == 105 && name[1] == 110 && name[2] == 112 && name[3] == 117 && name[4] == 116 {
        proof {
            assert(name@ =~= input_group_name());
        }
        true
    } else {
        false
    }
}

/// Whether some group in the list is named `input`.
pub fn contains_input_group(names: &Vec<Vec<u8>>) -> (r: bool)
    ensures
        r == exists|k: int| 0 <= k < names@.len() && names@[k]@ == input_group_name(),
{
    let mut i: usize = 0;
    while i < names.len()
        invariant
            i <= names@.len(),
            forall|k: int| 0 <= k < i ==> names@[k]@ != input_group_name(),
        decreases names@.len() - i,
    {
        if is_input_group(&names[i]) {
            proof {
                assert(names@[i as int]@ == input_group_name());
            }
            return true;
        }
        i = i + 1;
    }
    false
}

} // verus!

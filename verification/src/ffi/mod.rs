use vstd::prelude::*;

verus! {

/// Boolean as the C side passes it: any non-zero byte is true.
pub type VpBool = u8;

pub fn ffi_bool(value: VpBool) -> (b: bool)
    ensures
        b == (value != 0),
{
    value != 0
}

pub fn to_ffi_bool(value: bool) -> (v: VpBool)
    ensures
        v == (if value {
            1u8
        } else {
            0u8
        }),
{
    if value {
        1
    } else {
        0
    }
}

/// Converting a flag to the C form and back gives the flag.
pub proof fn lemma_ffi_bool_roundtrip(value: bool)
    ensures
        ((if value {
            1u8
        } else {
            0u8
        }) != 0) == value,
{
}

} // verus!

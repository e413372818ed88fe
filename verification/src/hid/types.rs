use vstd::prelude::*;

verus! {

/// One boot-protocol mouse report.
#[derive(Clone, Copy, Debug, PartialEq, Eq, Structural)]
pub struct MouseReport {
    pub buttons: MouseButtons,
    pub dx: i8,
    pub dy: i8,
    pub wheel: i8,
}

impl Default for MouseReport {
    fn default() -> (r: Self)
        ensures
            r == (MouseReport {
                buttons: MouseButtons { left: false, right: false, middle: false },
                dx: 0,
                dy: 0,
                wheel: 0,
            }),
    {
        MouseReport {
            buttons: MouseButtons { left: false, right: false, middle: false },
            dx: 0,
            dy: 0,
            wheel: 0,
        }
    }
}

pub const CUSTOM_REPORT_PAYLOAD_CAPACITY: usize = 64;

/// A vendor-defined report: `len` meaningful bytes at the start of `data`.
#[derive(Clone, Copy, Debug, PartialEq, Eq)]
pub struct CustomReport {
    pub len: u16,
    pub data: [u8; 64],
}

impl Default for CustomReport {
    fn default() -> (r: Self)
        ensures
            r.len == 0,
            forall|i: int| 0 <= i < 64 ==> r.data@[i] == 0,
    {
        Self { len: 0, data: [0u8; 64] }
    }
}

#[derive(Clone, Copy, Debug, PartialEq, Eq, Structural)]
pub struct MouseButtons {
    pub left: bool,
    pub right: bool,
    pub middle: bool,
}

impl Default for MouseButtons {
    fn default() -> (b: Self)
        ensures
            b == (MouseButtons { left: false, right: false, middle: false }),
    {
        MouseButtons { left: false, right: false, middle: false }
    }
}

/// Button byte of a report: bit 0 left, bit 1 right, bit 2 middle.
pub open spec fn spec_pack(b: MouseButtons) -> u8 {
    ((if b.left {
        1int
    } else {
        0int
    }) + (if b.right {
        2int
    } else {
        0int
    }) + (if b.middle {
        4int
    } else {
        0int
    })) as u8
}

impl MouseButtons {
    pub fn pack(&self) -> (bits: u8)
        ensures
            bits == spec_pack(*self),
    {
        let mut b = 0u8;
        if self.left {
            b = b | 1u8;
        }
        proof {
            assert(0u8 | 1u8 == 1u8) by (bit_vector);
        }
        if self.right {
            assert(b < 2 ==> b | 2u8 == b + 2) by (bit_vector);
            b = b | 2u8;
        }
        if self.middle {
            assert(b < 4 ==> b | 4u8 == b + 4) by (bit_vector);
            b = b | 4u8;
        }
        b
    }
}

/// Two different button sets never pack to the same byte.
pub proof fn lemma_pack_injective(a: MouseButtons, b: MouseButtons)
    requires
        spec_pack(a) == spec_pack(b),
    ensures
        a == b,
{
}

#[derive(Clone, Copy, Debug, PartialEq, Eq, Structural)]
pub enum HidSendStatus {
    Sent,
    RetryLater,
    NotConnected,
    Fatal,
}

} // verus!

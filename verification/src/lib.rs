//! Hardware abstraction layer for the CC2538 system-on-chip.
//!
//! The crate holds the logic of the drivers: register values, memory
//! layouts, the order of the hardware accesses and the meaning of what the
//! hardware reports. It touches no hardware itself. A driver function works
//! on plain values: it changes an image of the device or lists the register
//! accesses to perform, and a later call takes what the device answered.
//! The embedding firmware carries the values between the chip and these
//! functions.

use vstd::prelude::*;

pub mod adc;
pub mod crypto;
pub mod delay;
pub mod dma;
pub mod gpio;
pub mod i2c;
pub mod ioc;
pub mod radio;
pub mod rng;
pub mod serial;
pub mod smwd;
pub mod spi;
pub mod sys_ctrl;
pub mod time;
pub mod timers;

verus! {

/// The first three bytes of an address that Texas Instruments has given
/// out.
pub const TI_ADDR: [u8; 3] = [0x00, 0x12, 0x4b];

/// Whether the bytes of the information page hold an address of Texas
/// Instruments, whose first three bytes lie in the bytes 3, 2 and 1.
pub open spec fn spec_is_ti_address(info: Seq<u8>) -> bool {
    info[3] == 0x00 && info[2] == 0x12 && info[1] == 0x4b
}

/// The IEEE address that the eight bytes `info` of the information page
/// hold. The page holds the address with its last byte first. An address
/// of Texas Instruments lies there with its two halves exchanged.
pub open spec fn spec_ieee_address(info: Seq<u8>) -> Seq<u8> {
    if spec_is_ti_address(info) {
        seq![info[3], info[2], info[1], info[0], info[7], info[6], info[5], info[4]]
    } else {
        seq![info[7], info[6], info[5], info[4], info[3], info[2], info[1], info[0]]
    }
}

/// Get the IEEE address from the eight bytes `info` that the information
/// page holds for it.
pub fn get_ieee_address(info: &[u8; 8], addr: &mut [u8])
    requires
        old(addr)@.len() == 8,
    ensures
        final(addr)@ == spec_ieee_address(info@),
{
    if info[3] == 0x00 && info[2] == 0x12 && info[1] == 0x4b {
        let mut i: usize = 0;
        while i < 8
            invariant
                i <= 8,
                addr@.len() == 8,
                spec_is_ti_address(info@),
                forall|k: int| 8 - i <= k < 8 ==> addr@[k] == spec_ieee_address(info@)[k],
            decreases 8 - i,
        {
            addr[8 - i - 1] = info[if i < 4 {
                i + 4
            } else {
                i - 4
            }];
            i = i + 1;
        }
        assert(addr@ =~= spec_ieee_address(info@));
    } else {
        let mut i: usize = 0;
        while i < 8
            invariant
                i <= 8,
                addr@.len() == 8,
                forall|j: int| 0 <= j < i ==> addr@[j] == info@[7 - j],
            decreases 8 - i,
        {
            addr[i] = info[8 - 1 - i];
            i = i + 1;
        }
        assert(addr@ =~= spec_ieee_address(info@));
    }
}

} // verus!

//! Register map of the HD Audio controller: byte offsets into the mapped
//! register window, the flag masks the driver uses, and the pure
//! read-modify-write arithmetic behind flag updates.

use vstd::prelude::*;

verus! {

/// Global capabilities; bit 0 advertises 64-bit addressing.
pub const GCAP: u32 = 0x00;
/// GCAP bit: 64-bit addressing supported.
pub const CAP_64OK: u32 = 0x01;

/// Global control register.
pub const GCTL: u32 = 0x08;
/// GCTL bit: controller reset.
pub const CRST: u32 = 0x01;
/// GCTL bit: unsolicited-response enable.
pub const GCTL_UNSOL: u32 = 0x100;

/// Wake-enable bitmap.
pub const WAKEEN: u32 = 0x0C;

/// Codec-presence status bitmap: bit i set means codec slot i is present.
pub const STATESTS: u32 = 0x0E;

/// Interrupt control register.
pub const INTCTL: u32 = 0x20;
/// INTCTL bit: global interrupt enable.
pub const GIE: u32 = 0x8000_0000;
/// INTCTL bit: controller interrupt enable.
pub const CIE: u32 = 0x4000_0000;

/// Interrupt status register; nonzero means an interrupt is pending.
pub const INTSTS: u32 = 0x24;

/// CORB base address, lower 32 bits.
pub const CORBLBASE: u32 = 0x40;
/// CORB base address, upper 32 bits.
pub const CORBUBASE: u32 = 0x44;

/// CORB write pointer.
pub const CORBWP: u32 = 0x48;
/// CORB read pointer; bit 15 is the read-pointer reset.
pub const CORBRP: u32 = 0x4A;
/// CORBRP bit: read-pointer reset.
pub const CORB_RPRST: u16 = 0x8000;

/// CORB control register.
pub const CORBCTL: u32 = 0x4C;
/// CORBCTL bit: DMA run.
pub const CORB_RUN: u8 = 0x02;

/// CORB size capability/selection register.
pub const CORBSIZE: u32 = 0x4E;
/// CORBSIZE capability bit: 256 entries supported.
pub const SIZE_256CAP: u8 = 64;
/// Size-selection encoding for 256 entries.
pub const SIZE_256SEL: u8 = 2;

/// RIRB base address, lower 32 bits.
pub const RIRBLBASE: u32 = 0x50;
/// RIRB base address, upper 32 bits.
pub const RIRBUBASE: u32 = 0x54;

/// RIRB write pointer; bit 15 is the write-pointer reset.
pub const RIRBWP: u32 = 0x58;
/// RIRBWP bit: write-pointer reset.
pub const RIRB_WPRST: u16 = 0x8000;

/// Response-interrupt threshold.
pub const RINTCNT: u32 = 0x5A;

/// RIRB control register.
pub const RIRBCTL: u32 = 0x5C;
/// RIRBCTL bit: DMA enable.
pub const RIRB_DMAEN: u32 = 0x02;
/// RIRBCTL bit: interrupt on response.
pub const RINTCTL: u32 = 0x01;

/// RIRB status register; bit 0 is response-available (write 1 to clear).
pub const RIRBSTS: u32 = 0x5D;
/// RIRBSTS bit: response available.
pub const RINTFL: u32 = 0x01;
/// RIRB size capability/selection register.
pub const RIRBSIZE: u32 = 0x5E;

/// Every register access must stay inside the mapped window; an offset
/// beyond this bound is a programming error, never a runtime condition.
pub open spec fn reg_in_window(off: u32) -> bool {
    off < 0x180
}

/// A `width`-byte access at `off` lies wholly inside the mapped window.
pub open spec fn access_in_window(off: u32, width: u32) -> bool {
    off + width <= 0x180
}

/// The value a read-modify-write flag update stores: OR the mask in when
/// enabling, AND its complement out when disabling.
pub open spec fn flag_value(current: u32, mask: u32, on: bool) -> u32 {
    if on {
        current | mask
    } else {
        current & !mask
    }
}

/// Compute the word a flag toggle writes back to a 32-bit register.
pub fn flag(current: u32, mask: u32, on: bool) -> (r: u32)
    ensures
        r == flag_value(current, mask, on),
        on ==> r & mask == mask,
        !on ==> r & mask == 0,
{
    proof {
        assert(on ==> (current | mask) & mask == mask) by (bit_vector);
        assert(!on ==> (current & !mask) & mask == 0) by (bit_vector);
    }
    if on {
        current | mask
    } else {
        current & !mask
    }
}

} // verus!

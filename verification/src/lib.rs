//! Verified core of an HD Audio controller driver.
//!
//! The controller is brought up by a scripted state machine
//! ([`device::HDAudio::init`]) that emits one register operation at a time
//! and consumes the value read back, so the reset handshake, the CORB/RIRB
//! bring-up order and every fatal capability check are proved rather than
//! assumed. On top of it sit the wrap-safe ring-buffer engine
//! ([`device::HDAudio::send_verb`], [`device::HDAudio::read_response`]) and
//! the per-codec logic ([`codec::Codec`]): verb encoding, the
//! solicited/address routing rule, subordinate-node parsing, and discovery
//! over the presence bitmap.
//!
//! The single execution context that owns the mapped register window and the
//! DMA rings performs the emitted operations; codec workers hold only
//! channel endpoints and never touch hardware.

pub mod codec;
pub mod device;
pub mod regs;

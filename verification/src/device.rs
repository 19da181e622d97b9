//! Controller core: the initialization state machine (reset handshake,
//! CORB/RIRB bring-up) and the ring-buffer engine (verb send, response
//! drain, wrap-safe pointer arithmetic).
//!
//! The machine owns no hardware. Each call of [`HDAudio::init`] consumes the
//! observation produced by the previously returned [`Action`] and hands back
//! the next register operation to perform; the single execution context that
//! owns the mapped register window performs it and feeds the result back.

use vstd::arithmetic::div_mod::{lemma_add_mod_noop, lemma_mod_multiples_vanish, lemma_small_mod};
use vstd::prelude::*;

use crate::regs::{
    CAP_64OK, CORBCTL, CORBLBASE, CORBRP, CORBSIZE, CORBUBASE, CORBWP, CORB_RPRST, CORB_RUN, CRST,
    GCAP, GCTL, GCTL_UNSOL, GIE, INTCTL, CIE, RINTCNT, RINTCTL, RIRBCTL, RIRBLBASE, RIRBSIZE,
    RIRBUBASE, RIRBWP, RIRB_DMAEN, RIRB_WPRST, SIZE_256CAP, SIZE_256SEL, access_in_window,
};

verus! {

/// A configuration the hardware cannot satisfy; initialization stops here,
/// since retrying cannot change hardware capability.
#[derive(Clone, Copy, PartialEq, Eq, Debug)]
pub enum InitError {
    /// The CORB size capability lacks the required 256-entry bit.
    CorbSizeTooSmall,
    /// The CORB physical base is not a multiple of 128 bytes.
    CorbMisaligned,
    /// The CORB sits above 4 GiB but the controller lacks 64-bit addressing.
    CorbAbove32Bits,
    /// The RIRB size capability lacks the required 256-entry bit.
    RirbSizeTooSmall,
    /// The RIRB sits above 4 GiB but the controller lacks 64-bit addressing.
    RirbAbove32Bits,
    /// The RIRB physical base is not a multiple of 128 bytes.
    RirbMisaligned,
}

/// One register operation for the owning execution context to perform.
/// Read results come back, widened to 32 bits, as the `obs` argument of the
/// next [`HDAudio::init`] call; every other action feeds back 0.
#[derive(Clone, Copy, PartialEq, Eq, Debug)]
pub enum Action {
    /// Volatile 8-bit read at the offset.
    Read8(u32),
    /// Volatile 16-bit read at the offset.
    Read16(u32),
    /// Volatile 32-bit read at the offset.
    Read32(u32),
    /// Volatile 8-bit write of the value at the offset.
    Write8(u32, u8),
    /// Volatile 16-bit write of the value at the offset.
    Write16(u32, u16),
    /// Volatile 32-bit write of the value at the offset.
    Write32(u32, u32),
    /// Read-modify-write of a 32-bit register: OR the mask in, or AND it out.
    Flag(u32, u32, bool),
    /// Wait a short settle interval.
    Sleep,
    /// Initialization is complete; the controller is running.
    Done,
    /// Initialization failed fatally; no further register is touched.
    Fatal(InitError),
}

/// Where the initialization script stands: which operation has just been
/// performed, or which poll is still waiting for its bit.
#[derive(Clone, Copy, PartialEq, Eq, Debug)]
pub enum InitState {
    /// Nothing done yet.
    Start,
    /// Reset phase one written; read back the control register.
    ClearReset,
    /// Polling until the reset bit shows the phase-one polarity.
    AwaitResetLow,
    /// Settle interval elapsed; write reset phase two.
    Settle,
    /// Reset phase two written; read back the control register.
    SetReset,
    /// Polling until the reset bit shows the release polarity.
    AwaitResetHigh,
    /// Capability register read; the observation carries it.
    CapsRequested,
    /// Post-reset settle elapsed; enable unsolicited responses.
    CapsSettle,
    /// Unsolicited responses enabled; enable global interrupts.
    UnsolEnabled,
    /// Global interrupt enable set; enable controller interrupts.
    GieEnabled,
    /// Controller interrupt enable set; stop the CORB DMA engine.
    CieEnabled,
    /// CORB DMA stopped; read the CORB size capability.
    CorbStopped,
    /// CORB size capability observed; verify it.
    CheckCorbSize,
    /// 256-entry CORB size selected; verify alignment and program the base.
    CorbSizeSet,
    /// CORB low base written on the 32-bit path; reset the read pointer.
    CorbLbaseShort,
    /// CORB low base written on the 64-bit path; write the high base.
    CorbLbaseLong,
    /// CORB high base written; reset the read pointer.
    CorbUbaseSet,
    /// Read-pointer reset asserted; read it back.
    CorbRpRstSet,
    /// Polling until the hardware echoes the read-pointer reset set.
    AwaitCorbRpSet,
    /// Read-pointer reset deasserted; read it back.
    CorbRpRstCleared,
    /// Polling until the hardware echoes the read-pointer reset clear.
    AwaitCorbRpClear,
    /// CORB write pointer zeroed; set the run bit.
    CorbWpZeroed,
    /// Run bit written; read it back.
    CorbRunSet,
    /// Polling until the controller confirms the CORB is running.
    AwaitCorbRun,
    /// RIRB DMA stopped; read the RIRB size capability.
    RirbStopped,
    /// RIRB size capability observed; verify it.
    CheckRirbSize,
    /// Low size-selection bit cleared; set the 256-entry bit.
    RirbSizeLowCleared,
    /// 256-entry RIRB size selected; verify alignment and program the base.
    RirbSizeSet,
    /// RIRB low base written on the 32-bit path; reset the write pointer.
    RirbLbaseShort,
    /// RIRB low base written on the 64-bit path; write the high base.
    RirbLbaseLong,
    /// RIRB high base written; reset the write pointer.
    RirbUbaseSet,
    /// Write-pointer reset asserted; program the interrupt threshold.
    RirbWpReset,
    /// Response-interrupt threshold set to 1; enable the response interrupt.
    RintCntSet,
    /// Response interrupt enabled; enable the RIRB DMA engine.
    RirbIntEnabled,
    /// Initialization complete; verbs and responses flow.
    Running,
    /// A fatal configuration error stopped initialization for good.
    Failed(InitError),
}

/// The controller and its two rings. `corb` mirrors, slot for slot, what the
/// driver has stored into the DMA-resident command ring; the response ring
/// is filled by hardware, so only its read pointer lives here.
pub struct HDAudio {
    /// Where the initialization script stands.
    pub state: InitState,
    /// The reset-bit value that means "released" on this hardware revision.
    pub crst_release_high: bool,
    /// Whether the controller advertises 64-bit addressing; learned from GCAP.
    pub long_address: bool,
    /// Physical base address of the CORB.
    pub corb_base: u64,
    /// Physical base address of the RIRB.
    pub rirb_base: u64,
    /// The 256 command slots, as the driver has written them.
    pub corb: Vec<u32>,
    /// CORB write pointer, wrapping modulo 256.
    pub corb_wp: u8,
    /// RIRB read pointer.
    pub rirb_rp: u8,
}

/// Lower 32 bits of a DMA base address, as programmed into an LBASE register.
pub open spec fn base_lo(addr: u64) -> u32 {
    (addr & 0xFFFF_FFFF) as u32
}

/// Upper 32 bits of a DMA base address, as programmed into a UBASE register.
pub open spec fn base_hi(addr: u64) -> u32 {
    (addr >> 32) as u32
}

/// A DMA ring base must sit on a 128-byte boundary.
pub open spec fn aligned_128(addr: u64) -> bool {
    addr % 128 == 0
}

/// A ring pointer advanced by one slot, wrapping modulo the 256-slot capacity.
pub open spec fn wrap_inc_spec(p: u8) -> u8 {
    if p == 255 {
        0
    } else {
        (p + 1) as u8
    }
}

/// A ring pointer advanced by `n` slots, wrapping modulo 256.
pub open spec fn wrap_n(p: u8, n: nat) -> u8
    decreases n,
{
    if n == 0 {
        p
    } else {
        wrap_inc_spec(wrap_n(p, (n - 1) as nat))
    }
}

/// Every register operation the machine emits stays inside the mapped
/// window, its full access width included.
pub open spec fn action_in_window(a: Action) -> bool {
    match a {
        Action::Read8(off) => access_in_window(off, 1),
        Action::Read16(off) => access_in_window(off, 2),
        Action::Read32(off) => access_in_window(off, 4),
        Action::Write8(off, _) => access_in_window(off, 1),
        Action::Write16(off, _) => access_in_window(off, 2),
        Action::Write32(off, _) => access_in_window(off, 4),
        Action::Flag(off, _, _) => access_in_window(off, 4),
        Action::Sleep => true,
        Action::Done => true,
        Action::Fatal(_) => true,
    }
}

/// The whole initialization script, one transition per line: from the state
/// `pre` and the observation `obs` of the action emitted last, the machine
/// moves to `post` and emits `a`. Ring state and configuration never change
/// during initialization; only the script position and, at the capability
/// read, the addressing width do.
pub open spec fn init_rel(pre: HDAudio, post: HDAudio, obs: u32, a: Action) -> bool {
    &&& post.crst_release_high == pre.crst_release_high
    &&& post.corb_base == pre.corb_base
    &&& post.rirb_base == pre.rirb_base
    &&& post.corb == pre.corb
    &&& post.corb_wp == pre.corb_wp
    &&& post.rirb_rp == pre.rirb_rp
    &&& post.long_address == (if pre.state is CapsRequested {
        obs & CAP_64OK == CAP_64OK
    } else {
        pre.long_address
    })
    &&& match pre.state {
        InitState::Start => post.state is ClearReset && a == Action::Flag(
            GCTL,
            CRST,
            !pre.crst_release_high,
        ),
        InitState::ClearReset => post.state is AwaitResetLow && a == Action::Read32(GCTL),
        InitState::AwaitResetLow => if (obs & CRST != 0) == !pre.crst_release_high {
            post.state is Settle && a == Action::Sleep
        } else {
            post.state is AwaitResetLow && a == Action::Read32(GCTL)
        },
        InitState::Settle => post.state is SetReset && a == Action::Flag(
            GCTL,
            CRST,
            pre.crst_release_high,
        ),
        InitState::SetReset => post.state is AwaitResetHigh && a == Action::Read32(GCTL),
        InitState::AwaitResetHigh => if (obs & CRST != 0) == pre.crst_release_high {
            post.state is CapsRequested && a == Action::Read32(GCAP)
        } else {
            post.state is AwaitResetHigh && a == Action::Read32(GCTL)
        },
        InitState::CapsRequested => post.state is CapsSettle && a == Action::Sleep,
        InitState::CapsSettle => post.state is UnsolEnabled && a == Action::Flag(
            GCTL,
            GCTL_UNSOL,
            true,
        ),
        InitState::UnsolEnabled => post.state is GieEnabled && a == Action::Flag(
            INTCTL,
            GIE,
            true,
        ),
        InitState::GieEnabled => post.state is CieEnabled && a == Action::Flag(INTCTL, CIE, true),
        InitState::CieEnabled => post.state is CorbStopped && a == Action::Write8(CORBCTL, 0),
        InitState::CorbStopped => post.state is CheckCorbSize && a == Action::Read8(CORBSIZE),
        InitState::CheckCorbSize => if obs & (SIZE_256CAP as u32) == (SIZE_256CAP as u32) {
            post.state is CorbSizeSet && a == Action::Write8(CORBSIZE, SIZE_256SEL)
        } else {
            post.state == InitState::Failed(InitError::CorbSizeTooSmall) && a == Action::Fatal(
                InitError::CorbSizeTooSmall,
            )
        },
        InitState::CorbSizeSet => if !aligned_128(pre.corb_base) {
            post.state == InitState::Failed(InitError::CorbMisaligned) && a == Action::Fatal(
                InitError::CorbMisaligned,
            )
        } else if pre.long_address {
            post.state is CorbLbaseLong && a == Action::Write32(CORBLBASE, base_lo(pre.corb_base))
        } else if pre.corb_base > 0xFFFF_FFFF {
            post.state == InitState::Failed(InitError::CorbAbove32Bits) && a == Action::Fatal(
                InitError::CorbAbove32Bits,
            )
        } else {
            post.state is CorbLbaseShort && a == Action::Write32(CORBLBASE, base_lo(pre.corb_base))
        },
        InitState::CorbLbaseLong => post.state is CorbUbaseSet && a == Action::Write32(
            CORBUBASE,
            base_hi(pre.corb_base),
        ),
        InitState::CorbUbaseSet => post.state is CorbRpRstSet && a == Action::Flag(
            CORBRP,
            CORB_RPRST as u32,
            true,
        ),
        InitState::CorbLbaseShort => post.state is CorbRpRstSet && a == Action::Flag(
            CORBRP,
            CORB_RPRST as u32,
            true,
        ),
        InitState::CorbRpRstSet => post.state is AwaitCorbRpSet && a == Action::Read16(CORBRP),
        InitState::AwaitCorbRpSet => if obs & (CORB_RPRST as u32) == (CORB_RPRST as u32) {
            post.state is CorbRpRstCleared && a == Action::Flag(CORBRP, CORB_RPRST as u32, false)
        } else {
            post.state is AwaitCorbRpSet && a == Action::Read16(CORBRP)
        },
        InitState::CorbRpRstCleared => post.state is AwaitCorbRpClear && a == Action::Read16(
            CORBRP,
        ),
        InitState::AwaitCorbRpClear => if obs & (CORB_RPRST as u32) == 0 {
            post.state is CorbWpZeroed && a == Action::Write16(CORBWP, 0)
        } else {
            post.state is AwaitCorbRpClear && a == Action::Read16(CORBRP)
        },
        InitState::CorbWpZeroed => post.state is CorbRunSet && a == Action::Write8(
            CORBCTL,
            CORB_RUN,
        ),
        InitState::CorbRunSet => post.state is AwaitCorbRun && a == Action::Read8(CORBCTL),
        InitState::AwaitCorbRun => if obs & (CORB_RUN as u32) != 0 {
            post.state is RirbStopped && a == Action::Flag(RIRBCTL, RIRB_DMAEN, false)
        } else {
            post.state is AwaitCorbRun && a == Action::Read8(CORBCTL)
        },
        InitState::RirbStopped => post.state is CheckRirbSize && a == Action::Read8(RIRBSIZE),
        InitState::CheckRirbSize => if obs & (SIZE_256CAP as u32) == (SIZE_256CAP as u32) {
            post.state is RirbSizeLowCleared && a == Action::Flag(RIRBSIZE, 0x1, false)
        } else {
            post.state == InitState::Failed(InitError::RirbSizeTooSmall) && a == Action::Fatal(
                InitError::RirbSizeTooSmall,
            )
        },
        InitState::RirbSizeLowCleared => post.state is RirbSizeSet && a == Action::Flag(
            RIRBSIZE,
            0x2,
            true,
        ),
        InitState::RirbSizeSet => if !aligned_128(pre.rirb_base) {
            post.state == InitState::Failed(InitError::RirbMisaligned) && a == Action::Fatal(
                InitError::RirbMisaligned,
            )
        } else if pre.long_address {
            post.state is RirbLbaseLong && a == Action::Write32(RIRBLBASE, base_lo(pre.rirb_base))
        } else if pre.rirb_base > 0xFFFF_FFFF {
            post.state == InitState::Failed(InitError::RirbAbove32Bits) && a == Action::Fatal(
                InitError::RirbAbove32Bits,
            )
        } else {
            post.state is RirbLbaseShort && a == Action::Write32(RIRBLBASE, base_lo(pre.rirb_base))
        },
        InitState::RirbLbaseLong => post.state is RirbUbaseSet && a == Action::Write32(
            RIRBUBASE,
            base_hi(pre.rirb_base),
        ),
        InitState::RirbUbaseSet => post.state is RirbWpReset && a == Action::Flag(
            RIRBWP,
            RIRB_WPRST as u32,
            true,
        ),
        InitState::RirbLbaseShort => post.state is RirbWpReset && a == Action::Flag(
            RIRBWP,
            RIRB_WPRST as u32,
            true,
        ),
        InitState::RirbWpReset => post.state is RintCntSet && a == Action::Write8(RINTCNT, 1),
        InitState::RintCntSet => post.state is RirbIntEnabled && a == Action::Flag(
            RIRBCTL,
            RINTCTL,
            true,
        ),
        InitState::RirbIntEnabled => post.state is Running && a == Action::Flag(
            RIRBCTL,
            RIRB_DMAEN,
            true,
        ),
        InitState::Running => post.state is Running && a == Action::Done,
        InitState::Failed(e) => post.state == InitState::Failed(e) && a == Action::Fatal(e),
    }
}

impl HDAudio {
    /// The command ring always holds exactly its 256 slots.
    pub open spec fn wf(&self) -> bool {
        self.corb@.len() == 256
    }

    /// A controller bound to its two ring base addresses, before any register
    /// has been touched. `crst_release_high` picks which reset-bit polarity
    /// this hardware revision treats as "released".
    pub fn new(corb_base: u64, rirb_base: u64, crst_release_high: bool) -> (d: HDAudio)
        ensures
            d.wf(),
            d.state is Start,
            d.crst_release_high == crst_release_high,
            !d.long_address,
            d.corb_base == corb_base,
            d.rirb_base == rirb_base,
            d.corb_wp == 0,
            d.rirb_rp == 0,
            forall|i: int| 0 <= i < 256 ==> d.corb@[i] == 0,
    {
        let corb: Vec<u32> = vec![0u32; 256];
        HDAudio {
            state: InitState::Start,
            crst_release_high,
            long_address: false,
            corb_base,
            rirb_base,
            corb,
            corb_wp: 0,
            rirb_rp: 0,
        }
    }

    /// Whether the controller asserts at least one pending interrupt source,
    /// given the interrupt status register's value: any nonzero bit pattern.
    pub fn irq(&self, intsts: u32) -> (r: bool)
        ensures
            r == (intsts != 0),
    {
        intsts != 0
    }

    /// Drive initialization one step: consume the observation of the last
    /// emitted action and emit the next one, per the script `init_rel`.
    /// Every emitted register operation stays inside the mapped window, and
    /// the terminal states only ever report themselves.
    pub fn init(&mut self, obs: u32) -> (a: Action)
        ensures
            init_rel(*old(self), *final(self), obs, a),
            action_in_window(a),
    {
        proof {
            let b = self.corb_base;
            let r = self.rirb_base;
            assert((b & 0xFFFF_FFFF) <= 0xFFFF_FFFF && (b >> 32) <= 0xFFFF_FFFF) by (bit_vector);
            assert((r & 0xFFFF_FFFF) <= 0xFFFF_FFFF && (r >> 32) <= 0xFFFF_FFFF) by (bit_vector);
        }
        match self.state {
            InitState::Start => {
                self.state = InitState::ClearReset;
                Action::Flag(GCTL, CRST, !self.crst_release_high)
            },
            InitState::ClearReset => {
                self.state = InitState::AwaitResetLow;
                Action::Read32(GCTL)
            },
            InitState::AwaitResetLow => {
                if (obs & CRST != 0) == !self.crst_release_high {
                    self.state = InitState::Settle;
                    Action::Sleep
                } else {
                    Action::Read32(GCTL)
                }
            },
            InitState::Settle => {
                self.state = InitState::SetReset;
                Action::Flag(GCTL, CRST, self.crst_release_high)
            },
            InitState::SetReset => {
                self.state = InitState::AwaitResetHigh;
                Action::Read32(GCTL)
            },
            InitState::AwaitResetHigh => {
                if (obs & CRST != 0) == self.crst_release_high {
                    self.state = InitState::CapsRequested;
                    Action::Read32(GCAP)
                } else {
                    Action::Read32(GCTL)
                }
            },
            InitState::CapsRequested => {
                self.long_address = obs & CAP_64OK == CAP_64OK;
                self.state = InitState::CapsSettle;
                Action::Sleep
            },
            InitState::CapsSettle => {
                self.state = InitState::UnsolEnabled;
                Action::Flag(GCTL, GCTL_UNSOL, true)
            },
            InitState::UnsolEnabled => {
                self.state = InitState::GieEnabled;
                Action::Flag(INTCTL, GIE, true)
            },
            InitState::GieEnabled => {
                self.state = InitState::CieEnabled;
                Action::Flag(INTCTL, CIE, true)
            },
            InitState::CieEnabled => {
                self.state = InitState::CorbStopped;
                Action::Write8(CORBCTL, 0)
            },
            InitState::CorbStopped => {
                self.state = InitState::CheckCorbSize;
                Action::Read8(CORBSIZE)
            },
            InitState::CheckCorbSize => {
                if obs & (SIZE_256CAP as u32) == (SIZE_256CAP as u32) {
                    self.state = InitState::CorbSizeSet;
                    Action::Write8(CORBSIZE, SIZE_256SEL)
                } else {
                    self.state = InitState::Failed(InitError::CorbSizeTooSmall);
                    Action::Fatal(InitError::CorbSizeTooSmall)
                }
            },
            InitState::CorbSizeSet => {
                if self.corb_base % 128 != 0 {
                    self.state = InitState::Failed(InitError::CorbMisaligned);
                    Action::Fatal(InitError::CorbMisaligned)
                } else if self.long_address {
                    self.state = InitState::CorbLbaseLong;
                    Action::Write32(CORBLBASE, (self.corb_base & 0xFFFF_FFFF) as u32)
                } else if self.corb_base > 0xFFFF_FFFF {
                    self.state = InitState::Failed(InitError::CorbAbove32Bits);
                    Action::Fatal(InitError::CorbAbove32Bits)
                } else {
                    self.state = InitState::CorbLbaseShort;
                    Action::Write32(CORBLBASE, (self.corb_base & 0xFFFF_FFFF) as u32)
                }
            },
            InitState::CorbLbaseLong => {
                self.state = InitState::CorbUbaseSet;
                Action::Write32(CORBUBASE, (self.corb_base >> 32) as u32)
            },
            InitState::CorbUbaseSet => {
                self.state = InitState::CorbRpRstSet;
                Action::Flag(CORBRP, CORB_RPRST as u32, true)
            },
            InitState::CorbLbaseShort => {
                self.state = InitState::CorbRpRstSet;
                Action::Flag(CORBRP, CORB_RPRST as u32, true)
            },
            InitState::CorbRpRstSet => {
                self.state = InitState::AwaitCorbRpSet;
                Action::Read16(CORBRP)
            },
            InitState::AwaitCorbRpSet => {
                if obs & (CORB_RPRST as u32) == (CORB_RPRST as u32) {
                    self.state = InitState::CorbRpRstCleared;
                    Action::Flag(CORBRP, CORB_RPRST as u32, false)
                } else {
                    Action::Read16(CORBRP)
                }
            },
            InitState::CorbRpRstCleared => {
                self.state = InitState::AwaitCorbRpClear;
                Action::Read16(CORBRP)
            },
            InitState::AwaitCorbRpClear => {
                if obs & (CORB_RPRST as u32) == 0 {
                    self.state = InitState::CorbWpZeroed;
                    Action::Write16(CORBWP, 0)
                } else {
                    Action::Read16(CORBRP)
                }
            },
            InitState::CorbWpZeroed => {
                self.state = InitState::CorbRunSet;
                Action::Write8(CORBCTL, CORB_RUN)
            },
            InitState::CorbRunSet => {
                self.state = InitState::AwaitCorbRun;
                Action::Read8(CORBCTL)
            },
            InitState::AwaitCorbRun => {
                if obs & (CORB_RUN as u32) != 0 {
                    self.state = InitState::RirbStopped;
                    Action::Flag(RIRBCTL, RIRB_DMAEN, false)
                } else {
                    Action::Read8(CORBCTL)
                }
            },
            InitState::RirbStopped => {
                self.state = InitState::CheckRirbSize;
                Action::Read8(RIRBSIZE)
            },
            InitState::CheckRirbSize => {
                if obs & (SIZE_256CAP as u32) == (SIZE_256CAP as u32) {
                    self.state = InitState::RirbSizeLowCleared;
                    Action::Flag(RIRBSIZE, 0x1, false)
                } else {
                    self.state = InitState::Failed(InitError::RirbSizeTooSmall);
                    Action::Fatal(InitError::RirbSizeTooSmall)
                }
            },
            InitState::RirbSizeLowCleared => {
                self.state = InitState::RirbSizeSet;
                Action::Flag(RIRBSIZE, 0x2, true)
            },
            InitState::RirbSizeSet => {
                if self.rirb_base % 128 != 0 {
                    self.state = InitState::Failed(InitError::RirbMisaligned);
                    Action::Fatal(InitError::RirbMisaligned)
                } else if self.long_address {
                    self.state = InitState::RirbLbaseLong;
                    Action::Write32(RIRBLBASE, (self.rirb_base & 0xFFFF_FFFF) as u32)
                } else if self.rirb_base > 0xFFFF_FFFF {
                    self.state = InitState::Failed(InitError::RirbAbove32Bits);
                    Action::Fatal(InitError::RirbAbove32Bits)
                } else {
                    self.state = InitState::RirbLbaseShort;
                    Action::Write32(RIRBLBASE, (self.rirb_base & 0xFFFF_FFFF) as u32)
                }
            },
            InitState::RirbLbaseLong => {
                self.state = InitState::RirbUbaseSet;
                Action::Write32(RIRBUBASE, (self.rirb_base >> 32) as u32)
            },
            InitState::RirbUbaseSet => {
                self.state = InitState::RirbWpReset;
                Action::Flag(RIRBWP, RIRB_WPRST as u32, true)
            },
            InitState::RirbLbaseShort => {
                self.state = InitState::RirbWpReset;
                Action::Flag(RIRBWP, RIRB_WPRST as u32, true)
            },
            InitState::RirbWpReset => {
                self.state = InitState::RintCntSet;
                Action::Write8(RINTCNT, 1)
            },
            InitState::RintCntSet => {
                self.state = InitState::RirbIntEnabled;
                Action::Flag(RIRBCTL, RINTCTL, true)
            },
            InitState::RirbIntEnabled => {
                self.state = InitState::Running;
                Action::Flag(RIRBCTL, RIRB_DMAEN, true)
            },
            InitState::Running => Action::Done,
            InitState::Failed(e) => Action::Fatal(e),
        }
    }

    /// Whether the command ring, at the just-observed hardware read pointer,
    /// still has room for one more verb: the slot after the local write
    /// pointer is free exactly when the read pointer is not sitting on it.
    pub fn corb_has_space(&self, observed_rp: u8) -> (r: bool)
        ensures
            r == (observed_rp != wrap_inc_spec(self.corb_wp)),
    {
        observed_rp != wrap_inc(self.corb_wp)
    }

    /// Store one verb in the command ring. The caller has already observed
    /// the hardware read pointer off the next slot (the ring has a free
    /// slot), so the send completes: the write pointer advances one slot,
    /// wrapping modulo 256, the slot at the new write pointer holds exactly
    /// the verb, and every other slot is untouched. The returned pointer is
    /// what the caller programs into the write-pointer register.
    pub fn send_verb(&mut self, verb: u32, observed_rp: u8) -> (wp: u8)
        requires
            old(self).wf(),
            observed_rp != wrap_inc_spec(old(self).corb_wp),
        ensures
            final(self).wf(),
            wp == wrap_inc_spec(old(self).corb_wp),
            wp as nat == (old(self).corb_wp + 1) % 256,
            final(self).corb_wp == wp,
            final(self).corb@ == old(self).corb@.update(wp as int, verb),
            final(self).corb@[wp as int] == verb,
            forall|i: int| 0 <= i < 256 && i != wp ==> final(self).corb@[i] == old(self).corb@[i],
            final(self).state == old(self).state,
            final(self).crst_release_high == old(self).crst_release_high,
            final(self).long_address == old(self).long_address,
            final(self).corb_base == old(self).corb_base,
            final(self).rirb_base == old(self).rirb_base,
            final(self).rirb_rp == old(self).rirb_rp,
    {
        let wp = wrap_inc(self.corb_wp);
        self.corb_wp = wp;
        let slot = &mut self.corb[wp as usize];
        *slot = verb;
        wp
    }

    /// The ring index the next response drain would read, if the hardware
    /// write pointer has advanced off the local read pointer; nothing
    /// otherwise. The index wraps modulo the 256-slot capacity.
    pub fn response_index(&self, observed_wp: u8) -> (r: Option<u8>)
        ensures
            observed_wp != self.rirb_rp ==> r == Some(wrap_inc_spec(self.rirb_rp)),
            observed_wp == self.rirb_rp ==> r is None,
    {
        if observed_wp != self.rirb_rp {
            Some(wrap_inc(self.rirb_rp))
        } else {
            None
        }
    }

    /// Drain one response, never blocking. `slot` is the contents of the
    /// response ring at the index `response_index` named. When the observed
    /// hardware write pointer has advanced off the local read pointer, the
    /// read pointer moves up one slot, wrapping modulo 256, and the slot
    /// contents come back; when the two pointers are equal nothing comes
    /// back and nothing changes, on this call and on every repeated call.
    pub fn read_response(&mut self, observed_wp: u8, slot: u64) -> (r: Option<u64>)
        ensures
            observed_wp != old(self).rirb_rp ==> r == Some(slot) && final(self).rirb_rp
                == wrap_inc_spec(old(self).rirb_rp),
            observed_wp == old(self).rirb_rp ==> r is None && *final(self) == *old(self),
            final(self).state == old(self).state,
            final(self).crst_release_high == old(self).crst_release_high,
            final(self).long_address == old(self).long_address,
            final(self).corb_base == old(self).corb_base,
            final(self).rirb_base == old(self).rirb_base,
            final(self).corb == old(self).corb,
            final(self).corb_wp == old(self).corb_wp,
    {
        if observed_wp != self.rirb_rp {
            self.rirb_rp = wrap_inc(self.rirb_rp);
            Some(slot)
        } else {
            None
        }
    }
}

/// Advance a ring pointer one slot, wrapping modulo the 256-slot capacity.
pub fn wrap_inc(p: u8) -> (r: u8)
    ensures
        r == wrap_inc_spec(p),
        r as nat == (p + 1) % 256,
{
    if p == 255 {
        0
    } else {
        p + 1
    }
}

/// Each wrapped advance lands where plain addition modulo 256 lands.
pub proof fn lemma_wrap_n_mod(p: u8, n: nat)
    ensures
        wrap_n(p, n) as nat == (p + n) % 256,
    decreases n,
{
    if n == 0 {
        lemma_small_mod(p as nat, 256);
    } else {
        lemma_wrap_n_mod(p, (n - 1) as nat);
        let w = wrap_n(p, (n - 1) as nat);
        lemma_add_mod_noop(p as int + n - 1, 1int, 256int);
        lemma_small_mod(1nat, 256);
        if w == 255 {
            assert((255int + 1) % 256 == 0);
        } else {
            lemma_small_mod((w + 1) as nat, 256);
        }
    }
}

/// Law: ring pointers wrap modulo 256. Advancing a write pointer 257 times,
/// one slot per verb sent, lands it exactly one slot past where it began.
pub proof fn lemma_wrap_257(p: u8)
    ensures
        wrap_n(p, 257) == wrap_n(p, 1),
        wrap_n(p, 1) == wrap_inc_spec(p),
{
    lemma_wrap_n_mod(p, 257);
    lemma_wrap_n_mod(p, 1);
    lemma_mod_multiples_vanish(1int, p as int + 1, 256int);
}

/// Law: splitting a DMA base address for register programming loses nothing.
/// The low and high words written to the base-address registers reassemble
/// to exactly the address the ring was allocated at.
pub proof fn lemma_base_split_roundtrip(addr: u64)
    ensures
        (base_lo(addr) as u64) | ((base_hi(addr) as u64) << 32) == addr,
{
    assert(((addr & 0xFFFF_FFFF) as u32 as u64) | (((addr >> 32) as u32 as u64) << 32)
        == addr) by (bit_vector);
}

/// Law: a CORB size capability lacking the 256-entry bit aborts
/// initialization at the capability check: the machine reports the fatal
/// error and enters the terminal failed state.
pub proof fn lemma_corb_size_fatal(pre: HDAudio, post: HDAudio, obs: u32, a: Action)
    requires
        init_rel(pre, post, obs, a),
        pre.state is CheckCorbSize,
        obs & (SIZE_256CAP as u32) != (SIZE_256CAP as u32),
    ensures
        a == Action::Fatal(InitError::CorbSizeTooSmall),
        post.state == InitState::Failed(InitError::CorbSizeTooSmall),
{
}

/// Law: a failed machine stays failed. Once a fatal error is reported, every
/// further step leaves the machine unchanged and emits only the same report:
/// no register is ever touched again.
pub proof fn lemma_failed_absorbing(pre: HDAudio, post: HDAudio, obs: u32, a: Action, e: InitError)
    requires
        init_rel(pre, post, obs, a),
        pre.state == InitState::Failed(e),
    ensures
        post.state == InitState::Failed(e),
        a == Action::Fatal(e),
{
}

/// Position of a state in the initialization script: polls share the place
/// of the operation they wait on, the two base-programming paths share one
/// place, and the terminal states sit past the end.
pub open spec fn script_rank(s: InitState) -> int {
    match s {
        InitState::Start => 0,
        InitState::ClearReset => 1,
        InitState::AwaitResetLow => 2,
        InitState::Settle => 3,
        InitState::SetReset => 4,
        InitState::AwaitResetHigh => 5,
        InitState::CapsRequested => 6,
        InitState::CapsSettle => 7,
        InitState::UnsolEnabled => 8,
        InitState::GieEnabled => 9,
        InitState::CieEnabled => 10,
        InitState::CorbStopped => 11,
        InitState::CheckCorbSize => 12,
        InitState::CorbSizeSet => 13,
        InitState::CorbLbaseShort => 14,
        InitState::CorbLbaseLong => 14,
        InitState::CorbUbaseSet => 15,
        InitState::CorbRpRstSet => 16,
        InitState::AwaitCorbRpSet => 17,
        InitState::CorbRpRstCleared => 18,
        InitState::AwaitCorbRpClear => 19,
        InitState::CorbWpZeroed => 20,
        InitState::CorbRunSet => 21,
        InitState::AwaitCorbRun => 22,
        InitState::RirbStopped => 23,
        InitState::CheckRirbSize => 24,
        InitState::RirbSizeLowCleared => 25,
        InitState::RirbSizeSet => 26,
        InitState::RirbLbaseShort => 27,
        InitState::RirbLbaseLong => 27,
        InitState::RirbUbaseSet => 28,
        InitState::RirbWpReset => 29,
        InitState::RintCntSet => 30,
        InitState::RirbIntEnabled => 31,
        InitState::Running => 32,
        InitState::Failed(_) => 33,
    }
}

/// Law: the initialization script only moves forward. A step either stays in
/// place, which happens exactly at a poll still waiting for its bit and
/// changes nothing, or advances; no earlier operation is ever revisited, so
/// no register of the bring-up sequence is programmed twice.
pub proof fn lemma_script_monotone(pre: HDAudio, post: HDAudio, obs: u32, a: Action)
    requires
        init_rel(pre, post, obs, a),
    ensures
        script_rank(post.state) >= script_rank(pre.state),
        script_rank(post.state) == script_rank(pre.state) && !(pre.state is Running) && !(pre.state
            is Failed) ==> post == pre,
{
}

/// The initialization states that lie at or before the CORB size check,
/// together with the failed states: the region of the script where the CORB
/// has not been enabled.
pub open spec fn at_or_before_corb_size_check(s: InitState) -> bool {
    match s {
        InitState::Start => true,
        InitState::ClearReset => true,
        InitState::AwaitResetLow => true,
        InitState::Settle => true,
        InitState::SetReset => true,
        InitState::AwaitResetHigh => true,
        InitState::CapsRequested => true,
        InitState::CapsSettle => true,
        InitState::UnsolEnabled => true,
        InitState::GieEnabled => true,
        InitState::CieEnabled => true,
        InitState::CorbStopped => true,
        InitState::CheckCorbSize => true,
        InitState::Failed(_) => true,
        _ => false,
    }
}

/// Law: a CORB size capability lacking the 256-entry bit aborts
/// initialization before any register enabling that buffer is touched.
/// Up to and including the size check no step emits the run-bit write or a
/// flag that sets it, and when the check fails the machine never leaves that
/// region again, so the enabling write is never emitted at all.
pub proof fn lemma_no_corb_enable_before_size_check(
    pre: HDAudio,
    post: HDAudio,
    obs: u32,
    a: Action,
)
    requires
        init_rel(pre, post, obs, a),
        at_or_before_corb_size_check(pre.state),
        pre.state is CheckCorbSize ==> obs & (SIZE_256CAP as u32) != (SIZE_256CAP as u32),
    ensures
        a != Action::Write8(CORBCTL, CORB_RUN),
        !(a matches Action::Flag(off, _, on) && off == CORBCTL && on),
        at_or_before_corb_size_check(post.state),
{
}

} // verus!

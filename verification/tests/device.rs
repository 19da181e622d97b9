use hdaudio::device::{Action, HDAudio, InitError, InitState};
use hdaudio::regs::{
    flag, CORBCTL, CORBLBASE, CORBSIZE, CORBUBASE, CORBWP, CORB_RUN, CRST, GCAP, GCTL, RINTCNT,
    RIRBLBASE, RIRBSIZE, RIRBUBASE, SIZE_256SEL,
};

// A register file standing in for the controller: reads echo back whatever
// was last written or flagged, so every poll completes at once, and the two
// size-capability registers report whatever a test planted there.
fn fresh_regs(gcap: u32, corbsize: u32, rirbsize: u32) -> [u32; 0x200] {
    let mut regs = [0u32; 0x200];
    regs[GCAP as usize] = gcap;
    regs[CORBSIZE as usize] = corbsize;
    regs[RIRBSIZE as usize] = rirbsize;
    regs
}

fn run_init(dev: &mut HDAudio, regs: &mut [u32; 0x200], log: &mut Vec<Action>) -> Action {
    let mut obs: u32 = 0;
    for _ in 0..200 {
        let a = dev.init(obs);
        log.push(a);
        obs = match a {
            Action::Read8(o) => regs[o as usize] & 0xFF,
            Action::Read16(o) => regs[o as usize] & 0xFFFF,
            Action::Read32(o) => regs[o as usize],
            Action::Write8(o, v) => {
                regs[o as usize] = v as u32;
                0
            }
            Action::Write16(o, v) => {
                regs[o as usize] = v as u32;
                0
            }
            Action::Write32(o, v) => {
                regs[o as usize] = v;
                0
            }
            Action::Flag(o, m, on) => {
                regs[o as usize] = flag(regs[o as usize], m, on);
                0
            }
            Action::Sleep => 0,
            Action::Done | Action::Fatal(_) => return a,
        };
    }
    panic!("initialization did not settle in 200 steps");
}

#[test]
fn init_reaches_running_on_32_bit_controller() {
    let mut dev = HDAudio::new(0x1000, 0x2000, true);
    let mut regs = fresh_regs(0, 0x40, 0x40);
    let mut log = Vec::new();
    let end = run_init(&mut dev, &mut regs, &mut log);
    assert_eq!(end, Action::Done);
    assert!(matches!(dev.state, InitState::Running));
    assert!(!dev.long_address);
    assert!(log.contains(&Action::Write8(CORBSIZE, SIZE_256SEL)));
    assert!(log.contains(&Action::Write32(CORBLBASE, 0x1000)));
    assert!(!log.contains(&Action::Write32(CORBUBASE, 0)));
    assert!(log.contains(&Action::Write16(CORBWP, 0)));
    assert!(log.contains(&Action::Write8(CORBCTL, CORB_RUN)));
    assert!(log.contains(&Action::Write8(RINTCNT, 1)));
    assert!(log.contains(&Action::Write32(RIRBLBASE, 0x2000)));
    // Without 64-bit addressing neither ring's upper base word is touched.
    assert!(!log.iter().any(|a| matches!(a, Action::Write32(o, _) if *o == RIRBUBASE)));
    // The buffer is sized and based before its DMA engine is enabled.
    let size_at = log.iter().position(|a| *a == Action::Write8(CORBSIZE, SIZE_256SEL)).unwrap();
    let base_at = log.iter().position(|a| *a == Action::Write32(CORBLBASE, 0x1000)).unwrap();
    let run_at = log.iter().position(|a| *a == Action::Write8(CORBCTL, CORB_RUN)).unwrap();
    assert!(size_at < base_at && base_at < run_at);
}

#[test]
fn init_programs_both_base_words_on_64_bit_controller() {
    let base: u64 = 0x1_2345_6780;
    let mut dev = HDAudio::new(base, 0x2_0000_0080, true);
    let mut regs = fresh_regs(1, 0x40, 0x40);
    let mut log = Vec::new();
    let end = run_init(&mut dev, &mut regs, &mut log);
    assert_eq!(end, Action::Done);
    assert!(dev.long_address);
    assert!(log.contains(&Action::Write32(CORBLBASE, 0x2345_6780)));
    assert!(log.contains(&Action::Write32(CORBUBASE, 0x1)));
    assert!(log.contains(&Action::Write32(RIRBLBASE, 0x0000_0080)));
    assert!(log.contains(&Action::Write32(RIRBUBASE, 0x2)));
    // Round trip: the two programmed words reassemble to the address.
    let lo = regs[CORBLBASE as usize] as u64;
    let hi = regs[CORBUBASE as usize] as u64;
    assert_eq!(lo | (hi << 32), base);
}

#[test]
fn corbsize_without_256_cap_aborts_before_enable() {
    let mut dev = HDAudio::new(0x1000, 0x2000, true);
    let mut regs = fresh_regs(0, 0x3, 0x40);
    let mut log = Vec::new();
    let end = run_init(&mut dev, &mut regs, &mut log);
    assert_eq!(end, Action::Fatal(InitError::CorbSizeTooSmall));
    assert!(matches!(dev.state, InitState::Failed(InitError::CorbSizeTooSmall)));
    // No register enabling the CORB was ever touched.
    assert!(!log.contains(&Action::Write8(CORBCTL, CORB_RUN)));
    assert!(!log.iter().any(|a| matches!(a, Action::Flag(o, _, on) if *o == CORBCTL && *on)));
    // The failure is terminal: further steps only repeat the report.
    assert_eq!(dev.init(0), Action::Fatal(InitError::CorbSizeTooSmall));
    assert_eq!(dev.init(0x40), Action::Fatal(InitError::CorbSizeTooSmall));
}

#[test]
fn rirbsize_without_256_cap_aborts() {
    let mut dev = HDAudio::new(0x1000, 0x2000, true);
    let mut regs = fresh_regs(0, 0x40, 0x1);
    let mut log = Vec::new();
    let end = run_init(&mut dev, &mut regs, &mut log);
    assert_eq!(end, Action::Fatal(InitError::RirbSizeTooSmall));
}

#[test]
fn misaligned_corb_base_is_fatal() {
    let mut dev = HDAudio::new(0x1004, 0x2000, true);
    let mut regs = fresh_regs(0, 0x40, 0x40);
    let mut log = Vec::new();
    let end = run_init(&mut dev, &mut regs, &mut log);
    assert_eq!(end, Action::Fatal(InitError::CorbMisaligned));
    assert!(!log.contains(&Action::Write32(CORBLBASE, 0x1004)));
}

#[test]
fn misaligned_rirb_base_is_fatal() {
    let mut dev = HDAudio::new(0x1000, 0x2004, true);
    let mut regs = fresh_regs(0, 0x40, 0x40);
    let mut log = Vec::new();
    let end = run_init(&mut dev, &mut regs, &mut log);
    assert_eq!(end, Action::Fatal(InitError::RirbMisaligned));
}

#[test]
fn high_base_without_64_bit_support_is_fatal() {
    let mut dev = HDAudio::new(0x1_0000_0000, 0x2000, true);
    let mut regs = fresh_regs(0, 0x40, 0x40);
    let mut log = Vec::new();
    let end = run_init(&mut dev, &mut regs, &mut log);
    assert_eq!(end, Action::Fatal(InitError::CorbAbove32Bits));
    assert!(!log.iter().any(|a| matches!(a, Action::Write32(o, _) if *o == CORBLBASE)));
}

#[test]
fn high_rirb_base_without_64_bit_support_is_fatal() {
    let mut dev = HDAudio::new(0x1000, 0x1_0000_0000, true);
    let mut regs = fresh_regs(0, 0x40, 0x40);
    let mut log = Vec::new();
    let end = run_init(&mut dev, &mut regs, &mut log);
    assert_eq!(end, Action::Fatal(InitError::RirbAbove32Bits));
}

#[test]
fn high_base_with_64_bit_support_succeeds() {
    let mut dev = HDAudio::new(0x1_0000_0000, 0x2000, true);
    let mut regs = fresh_regs(1, 0x40, 0x40);
    let mut log = Vec::new();
    let end = run_init(&mut dev, &mut regs, &mut log);
    assert_eq!(end, Action::Done);
    assert!(log.contains(&Action::Write32(CORBLBASE, 0)));
    assert!(log.contains(&Action::Write32(CORBUBASE, 1)));
}

#[test]
fn reset_polarity_is_configurable() {
    // On a revision whose reset bit releases low, the two handshake phases
    // write the opposite polarities, in the same order.
    let mut dev = HDAudio::new(0x1000, 0x2000, false);
    let mut regs = fresh_regs(0, 0x40, 0x40);
    let mut log = Vec::new();
    let end = run_init(&mut dev, &mut regs, &mut log);
    assert_eq!(end, Action::Done);
    assert_eq!(log[0], Action::Flag(GCTL, CRST, true));
    assert!(log.contains(&Action::Flag(GCTL, CRST, false)));
}

#[test]
fn send_verb_stores_slot_and_advances_pointer() {
    let mut dev = HDAudio::new(0x1000, 0x2000, true);
    assert_eq!(dev.corb_wp, 0);
    let wp = dev.send_verb(0x300F_0004, 5);
    assert_eq!(wp, 1);
    assert_eq!(dev.corb_wp, 1);
    assert_eq!(dev.corb[1], 0x300F_0004);
    assert_eq!(dev.corb[0], 0);
    assert_eq!(dev.corb[2], 0);
}

#[test]
fn write_pointer_wraps_after_257_sends() {
    let mut dev = HDAudio::new(0x1000, 0x2000, true);
    let initial = dev.corb_wp;
    for n in 0..257u32 {
        // The observed read pointer trails at the current write pointer, so
        // the ring always has one free slot.
        let rp = dev.corb_wp;
        let wp = dev.send_verb(n, rp);
        assert_eq!(dev.corb[wp as usize], n);
    }
    assert_eq!(dev.corb_wp, initial.wrapping_add(1));
    assert_eq!(dev.corb_wp, 1);
}

#[test]
fn corb_has_space_compares_against_next_slot() {
    let dev = HDAudio::new(0x1000, 0x2000, true);
    assert!(!dev.corb_has_space(1));
    assert!(dev.corb_has_space(0));
    assert!(dev.corb_has_space(2));
}

#[test]
fn drain_without_new_response_returns_nothing_every_time() {
    let mut dev = HDAudio::new(0x1000, 0x2000, true);
    assert_eq!(dev.read_response(0, 0xDEAD), None);
    assert_eq!(dev.rirb_rp, 0);
    assert_eq!(dev.read_response(0, 0xDEAD), None);
    assert_eq!(dev.rirb_rp, 0);
    assert_eq!(dev.response_index(0), None);
}

#[test]
fn drain_advances_once_per_new_response() {
    let mut dev = HDAudio::new(0x1000, 0x2000, true);
    assert_eq!(dev.response_index(1), Some(1));
    assert_eq!(dev.read_response(1, 0x77), Some(0x77));
    assert_eq!(dev.rirb_rp, 1);
    // Same write pointer again: nothing new to drain.
    assert_eq!(dev.read_response(1, 0x77), None);
    assert_eq!(dev.rirb_rp, 1);
    assert_eq!(dev.response_index(3), Some(2));
}

#[test]
fn drain_wraps_read_pointer_modulo_256() {
    let mut dev = HDAudio::new(0x1000, 0x2000, true);
    // Walk the read pointer all the way to 255, one drained response each.
    for n in 1..=255u16 {
        let wp = n as u8;
        assert_eq!(dev.read_response(wp, n as u64), Some(n as u64));
        assert_eq!(dev.rirb_rp, wp);
    }
    // The hardware write pointer has wrapped to 0: the drain still sees the
    // new response and the read pointer wraps back to the start.
    assert_eq!(dev.response_index(0), Some(0));
    assert_eq!(dev.read_response(0, 0x99), Some(0x99));
    assert_eq!(dev.rirb_rp, 0);
    // Caught up again: nothing more to drain.
    assert_eq!(dev.read_response(0, 0x99), None);
    assert_eq!(dev.rirb_rp, 0);
}

#[test]
fn irq_reports_any_pending_source() {
    let dev = HDAudio::new(0x1000, 0x2000, true);
    assert!(!dev.irq(0));
    assert!(dev.irq(1));
    assert!(dev.irq(0x4000_0000));
}

#[test]
fn new_device_has_empty_rings() {
    let dev = HDAudio::new(0x1000, 0x2000, true);
    assert_eq!(dev.corb.len(), 256);
    assert!(dev.corb.iter().all(|v| *v == 0));
    assert_eq!(dev.corb_wp, 0);
    assert_eq!(dev.rirb_rp, 0);
    assert!(matches!(dev.state, InitState::Start));
}

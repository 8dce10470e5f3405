use run_down::{
    acquire_refusal, from_parts, is_fully_run_down, next_word, release_completes_rundown,
    to_flags, RundownError, RundownFlags, WordStep, REF_COUNT_MASK, RUNDOWN_IN_PROGRESS,
};

#[test]
fn test_rundown_flags_refcount() {
    // Initialize an empty bit flags.
    let mut flags = RundownFlags::empty();
    assert_eq!(0, flags.get_ref());
    assert_eq!(true, flags.is_ref_zero());
    assert_eq!(false, flags.is_ref_active());

    // Validate that add ref works.
    flags = to_flags(flags.add_ref());
    assert_eq!(1, flags.get_ref());
    assert_eq!(false, flags.is_ref_zero());
    assert_eq!(true, flags.is_ref_active());

    // Validate that dec ref works.
    flags = to_flags(flags.dec_ref());
    assert_eq!(0, flags.get_ref());
    assert_eq!(true, flags.is_ref_zero());
    assert_eq!(false, flags.is_ref_active());

    // Rundown bit should not be present.
    assert_eq!(false, flags.is_rundown_in_progress());
    assert_eq!(true, flags.is_pre_rundown());
}

#[test]
fn test_rundown_flags_set_in_progress() {
    // Initialize an empty bit flags.
    let mut flags = RundownFlags::empty();
    assert_eq!(0, flags.get_ref());

    // Turn on rundown in progress flags
    flags = to_flags(flags.set_rundown_in_progress());

    // Reference count should still be zero.
    assert_eq!(0, flags.get_ref());
    assert_eq!(true, flags.is_rundown_in_progress());
    assert_eq!(false, flags.is_pre_rundown());

    // Incrementing the reference count should work, and preserve flags.
    flags = to_flags(flags.add_ref());
    assert_eq!(1, flags.get_ref());
    assert_eq!(true, flags.is_rundown_in_progress());
    assert_eq!(false, flags.is_pre_rundown());
}

#[test]
fn test_to_flags() {
    let flags = to_flags(0xF000_0000_0000_0001);
    assert_eq!(1, flags.get_ref());
    assert_eq!(true, flags.is_rundown_in_progress());
}

#[test]
fn flags_exact_bits() {
    let flags = to_flags(0x0000_0000_0000_0007);
    assert_eq!(flags.bits(), 7);
    assert_eq!(flags.add_ref(), 8);
    assert_eq!(flags.dec_ref(), 6);
    assert_eq!(flags.set_rundown_in_progress(), 0xF000_0000_0000_0007);
    assert_eq!(to_flags(0xF000_0000_0000_0007).dec_ref(), 0xF000_0000_0000_0006);
}

#[test]
fn flags_partial_flag_bits_are_not_draining() {
    let flags = to_flags(0x1000_0000_0000_0002);
    assert_eq!(false, flags.is_rundown_in_progress());
    assert_eq!(2, flags.get_ref());
}

#[test]
fn flags_largest_count() {
    let flags = to_flags(REF_COUNT_MASK - 1);
    let top = to_flags(flags.add_ref());
    assert_eq!(REF_COUNT_MASK, top.get_ref());
    assert_eq!(false, top.is_rundown_in_progress());
    let draining = to_flags(top.set_rundown_in_progress());
    assert_eq!(u64::MAX, draining.bits());
    assert_eq!(REF_COUNT_MASK, draining.get_ref());
}

#[test]
fn encode_round_trip() {
    let word = from_parts(5, true);
    assert_eq!(word.bits(), 0xF000_0000_0000_0005);
    assert_eq!(5, word.get_ref());
    assert!(word.is_rundown_in_progress());
    let word = from_parts(REF_COUNT_MASK, false);
    assert_eq!(word.bits(), REF_COUNT_MASK);
    assert!(word.is_pre_rundown());
    assert_eq!(from_parts(0, true).bits(), RUNDOWN_IN_PROGRESS);
}

#[test]
fn step_acquire() {
    assert_eq!(next_word(WordStep::Acquire, 0), Some(1));
    assert_eq!(next_word(WordStep::Acquire, 41), Some(42));
    assert_eq!(next_word(WordStep::Acquire, RUNDOWN_IN_PROGRESS), None);
    assert_eq!(next_word(WordStep::Acquire, RUNDOWN_IN_PROGRESS | 3), None);
    assert_eq!(next_word(WordStep::Acquire, REF_COUNT_MASK), None);
}

#[test]
fn step_release() {
    assert_eq!(next_word(WordStep::Release, 1), Some(0));
    assert_eq!(next_word(WordStep::Release, RUNDOWN_IN_PROGRESS | 2), Some(RUNDOWN_IN_PROGRESS | 1));
    assert_eq!(next_word(WordStep::Release, 0), None);
    assert_eq!(next_word(WordStep::Release, RUNDOWN_IN_PROGRESS), None);
}

#[test]
fn step_rundown() {
    let without = WordStep::Rundown { signal_ready: false };
    let with = WordStep::Rundown { signal_ready: true };
    assert_eq!(next_word(without, 0), Some(RUNDOWN_IN_PROGRESS));
    assert_eq!(next_word(without, 3), None);
    assert_eq!(next_word(with, 3), Some(RUNDOWN_IN_PROGRESS | 3));
    // Already run down: nothing changes.
    assert_eq!(next_word(without, RUNDOWN_IN_PROGRESS), Some(RUNDOWN_IN_PROGRESS));
    assert_eq!(next_word(with, RUNDOWN_IN_PROGRESS), Some(RUNDOWN_IN_PROGRESS));
}

#[test]
fn sticky_after_rundown() {
    let drained = next_word(WordStep::Rundown { signal_ready: false }, 0).unwrap();
    assert_eq!(next_word(WordStep::Acquire, drained), None);
    let busy = next_word(WordStep::Rundown { signal_ready: true }, 2).unwrap();
    let after = next_word(WordStep::Release, busy).unwrap();
    assert!(to_flags(after).is_rundown_in_progress());
    assert_eq!(next_word(WordStep::Acquire, after), None);
}

#[test]
fn acquisitions_add_up() {
    let mut word: u64 = 0;
    for _ in 0..100 {
        word = next_word(WordStep::Acquire, word).unwrap();
    }
    assert_eq!(100, to_flags(word).get_ref());
    assert!(to_flags(word).is_pre_rundown());
}

#[test]
fn release_undoes_acquire() {
    for start in [0u64, 9, RUNDOWN_IN_PROGRESS | 0, REF_COUNT_MASK - 1] {
        if let Some(taken) = next_word(WordStep::Acquire, start) {
            assert_eq!(next_word(WordStep::Release, taken), Some(start));
        }
    }
    assert_eq!(next_word(WordStep::Release, REF_COUNT_MASK), Some(REF_COUNT_MASK - 1));
}

#[test]
fn refusal_reasons() {
    assert_eq!(acquire_refusal(RUNDOWN_IN_PROGRESS), RundownError::RundownInProgress);
    assert_eq!(acquire_refusal(RUNDOWN_IN_PROGRESS | 7), RundownError::RundownInProgress);
    assert_eq!(acquire_refusal(REF_COUNT_MASK), RundownError::RefCountOverflow);
}

#[test]
fn last_release_while_draining() {
    assert!(release_completes_rundown(RUNDOWN_IN_PROGRESS | 1));
    assert!(!release_completes_rundown(RUNDOWN_IN_PROGRESS | 2));
    assert!(!release_completes_rundown(1));
}

#[test]
fn re_init_only_when_run_down() {
    assert!(is_fully_run_down(RUNDOWN_IN_PROGRESS));
    assert!(!is_fully_run_down(RUNDOWN_IN_PROGRESS | 1));
    assert!(!is_fully_run_down(0));
    assert!(!is_fully_run_down(4));
}

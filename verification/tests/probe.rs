use stackprobe::args::ArgError;
use stackprobe::args::parse_stack_size;
use stackprobe::flags::clone_flags;
use stackprobe::launch::ProbeConfig;
use stackprobe::stack::FillDirection;
use stackprobe::stack::STACK_HEADROOM;
use stackprobe::stack::THREAD_STACK_FOR_US;
use stackprobe::stack::THREAD_STACK_SIZE;
use stackprobe::stack::fill_index;
use stackprobe::stack::fill_pattern;
use stackprobe::stack::make_zeroed;
use stackprobe::stack::pattern_byte;
use stackprobe::stack::thread_stack_routine;
use stackprobe::stack::verify_pattern;

fn bytes(s: &str) -> Vec<u8> {
    s.as_bytes().to_vec()
}

#[test]
fn parse_sixteen_mib() {
    assert_eq!(parse_stack_size(&bytes("16777216")), Ok(16777216));
}

#[test]
fn parse_small_page() {
    assert_eq!(parse_stack_size(&bytes("4096")), Ok(4096));
}

#[test]
fn parse_rejects_letters() {
    assert_eq!(parse_stack_size(&bytes("abc")), Err(ArgError::NotNumeric));
}

#[test]
fn parse_rejects_mixed() {
    assert_eq!(parse_stack_size(&bytes("12a3")), Err(ArgError::NotNumeric));
}

#[test]
fn parse_rejects_empty() {
    assert_eq!(parse_stack_size(&bytes("")), Err(ArgError::NotNumeric));
}

#[test]
fn parse_rejects_zero() {
    assert_eq!(parse_stack_size(&bytes("0")), Err(ArgError::ZeroSize));
}

#[test]
fn parse_rejects_zero_with_leading_zeros() {
    assert_eq!(parse_stack_size(&bytes("000")), Err(ArgError::ZeroSize));
}

#[test]
fn parse_accepts_leading_zeros() {
    assert_eq!(parse_stack_size(&bytes("0016")), Ok(16));
}

#[test]
fn parse_accepts_largest_value() {
    assert_eq!(parse_stack_size(&bytes("18446744073709551615")), Ok(usize::MAX));
}

#[test]
fn parse_rejects_overflow() {
    assert_eq!(parse_stack_size(&bytes("18446744073709551616")), Err(ArgError::TooLarge));
    assert_eq!(
        parse_stack_size(&bytes("999999999999999999999999999999")),
        Err(ArgError::TooLarge)
    );
}

#[test]
fn flag_word_value() {
    assert_eq!(clone_flags(), 0x7E020011);
}

#[test]
fn flag_word_has_every_namespace_bit() {
    let w = clone_flags();
    // CLONE_NEWNS, CLONE_NEWCGROUP, CLONE_NEWUTS, CLONE_NEWIPC,
    // CLONE_NEWUSER, CLONE_NEWPID, CLONE_NEWNET
    for bit in [
        0x20000u64, 0x2000000, 0x4000000, 0x8000000, 0x10000000, 0x20000000, 0x40000000,
    ] {
        assert_eq!(w & bit, bit);
    }
}

#[test]
fn flag_word_signal_byte_is_sigchld() {
    assert_eq!(clone_flags() & 0xff, 17);
}

#[test]
fn stack_constants() {
    assert_eq!(THREAD_STACK_SIZE, 2 * 1024 * 1024);
    assert_eq!(STACK_HEADROOM, 8 * 1024);
    assert_eq!(THREAD_STACK_FOR_US, 2 * 1024 * 1024 - 8 * 1024);
    assert_eq!(THREAD_STACK_FOR_US + STACK_HEADROOM, THREAD_STACK_SIZE);
}

#[test]
fn pattern_byte_wraps_modulo_256() {
    assert_eq!(pattern_byte(0), 0);
    assert_eq!(pattern_byte(1), 1);
    assert_eq!(pattern_byte(255), 255);
    assert_eq!(pattern_byte(256), 0);
    assert_eq!(pattern_byte(300), 44);
}

#[test]
fn fill_index_forward_and_reverse() {
    assert_eq!(fill_index(FillDirection::Forward, 5, 0), 0);
    assert_eq!(fill_index(FillDirection::Forward, 5, 4), 4);
    assert_eq!(fill_index(FillDirection::Reverse, 5, 0), 4);
    assert_eq!(fill_index(FillDirection::Reverse, 5, 4), 0);
}

#[test]
fn zeroed_buffer() {
    let buf = make_zeroed(5);
    assert_eq!(buf, vec![0, 0, 0, 0, 0]);
    assert_eq!(make_zeroed(0), Vec::<u8>::new());
}

#[test]
fn fill_forward_writes_step_pattern() {
    let mut buf = vec![9u8; 5];
    fill_pattern(&mut buf, FillDirection::Forward);
    assert_eq!(buf, vec![0, 1, 2, 3, 4]);
}

#[test]
fn fill_reverse_writes_step_pattern() {
    let mut buf = vec![9u8; 5];
    fill_pattern(&mut buf, FillDirection::Reverse);
    assert_eq!(buf, vec![4, 3, 2, 1, 0]);
}

#[test]
fn fill_forward_wraps_past_one_block() {
    let mut buf = vec![0u8; 300];
    fill_pattern(&mut buf, FillDirection::Forward);
    assert_eq!(buf[255], 255);
    assert_eq!(buf[256], 0);
    assert_eq!(buf[299], 43);
}

#[test]
fn verify_accepts_filled_buffer() {
    for dir in [FillDirection::Forward, FillDirection::Reverse] {
        let mut buf = vec![0u8; 1000];
        fill_pattern(&mut buf, dir);
        assert!(verify_pattern(&buf, dir));
    }
}

#[test]
fn verify_detects_one_corrupted_byte() {
    for dir in [FillDirection::Forward, FillDirection::Reverse] {
        let mut buf = vec![0u8; 1000];
        fill_pattern(&mut buf, dir);
        buf[517] = buf[517].wrapping_add(1);
        assert!(!verify_pattern(&buf, dir));
    }
}

#[test]
fn verify_rejects_wrong_direction() {
    let mut buf = vec![0u8; 300];
    fill_pattern(&mut buf, FillDirection::Forward);
    assert!(!verify_pattern(&buf, FillDirection::Reverse));
}

#[test]
fn fill_is_idempotent() {
    let mut once = vec![7u8; 513];
    fill_pattern(&mut once, FillDirection::Reverse);
    let mut twice = once.clone();
    fill_pattern(&mut twice, FillDirection::Reverse);
    assert_eq!(once, twice);
}

#[test]
fn routine_outcome_ignores_prior_contents() {
    // The fill result is a function of the buffer length alone, so two
    // routines over separate buffers cannot influence each other.
    let mut a = vec![0u8; 600];
    let mut b = vec![255u8; 600];
    fill_pattern(&mut a, FillDirection::Forward);
    fill_pattern(&mut b, FillDirection::Forward);
    assert_eq!(a, b);
}

#[test]
fn thread_routine_passes_in_both_directions() {
    assert!(thread_stack_routine(1000, FillDirection::Forward));
    assert!(thread_stack_routine(1000, FillDirection::Reverse));
    assert!(thread_stack_routine(0, FillDirection::Forward));
}

#[test]
fn thread_routine_passes_at_full_stack_budget() {
    assert!(thread_stack_routine(THREAD_STACK_FOR_US, FillDirection::Forward));
    assert!(thread_stack_routine(THREAD_STACK_FOR_US, FillDirection::Reverse));
}

#[test]
fn config_from_valid_argument() {
    let config = ProbeConfig::from_arg(&bytes("16777216")).unwrap();
    assert_eq!(config.stack_size, 16777216);
    assert_eq!(config.flags, clone_flags());
}

#[test]
fn config_rejects_bad_arguments() {
    assert_eq!(ProbeConfig::from_arg(&bytes("abc")).unwrap_err(), ArgError::NotNumeric);
    assert_eq!(ProbeConfig::from_arg(&bytes("0")).unwrap_err(), ArgError::ZeroSize);
}

#[test]
fn config_allocates_zeroed_child_stack() {
    let config = ProbeConfig::from_arg(&bytes("4096")).unwrap();
    let stack = config.child_stack();
    assert_eq!(stack.len(), 4096);
    assert!(stack.iter().all(|&b| b == 0));
}

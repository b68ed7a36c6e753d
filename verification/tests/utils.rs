use rintty::utils::{calculate_tick_rate, last_n_chars};
use std::time::Duration;

#[test]
fn last_n_chars_of_a_short_text_is_the_text() {
    assert_eq!(last_n_chars("abc", 3), "abc");
    assert_eq!(last_n_chars("abc", 10), "abc");
    assert_eq!(last_n_chars("", 0), "");
    assert_eq!(last_n_chars("", 5), "");
    assert_eq!(last_n_chars("abc", usize::MAX), "abc");
}

#[test]
fn last_n_chars_of_a_long_text_is_its_end() {
    assert_eq!(last_n_chars("abcdef", 2), "ef");
    assert_eq!(last_n_chars("abcdef", 5), "bcdef");
    assert_eq!(last_n_chars("abcdef", 0), "");
}

#[test]
fn last_n_chars_counts_bytes() {
    assert_eq!(last_n_chars("añb", 1), "b");
    assert_eq!(last_n_chars("añb", 3), "ñb");
    assert_eq!(last_n_chars("añb", 4), "añb");
}

#[test]
fn tick_rate_defaults_to_sixty_frames_a_second() {
    assert_eq!(calculate_tick_rate(None), Duration::from_millis(16));
}

#[test]
fn tick_rate_is_a_second_divided_by_the_frame_rate() {
    assert_eq!(calculate_tick_rate(Some(1)), Duration::from_millis(1000));
    assert_eq!(calculate_tick_rate(Some(30)), Duration::from_millis(33));
    assert_eq!(calculate_tick_rate(Some(60)), Duration::from_millis(16));
    assert_eq!(calculate_tick_rate(Some(144)), Duration::from_millis(6));
    assert_eq!(calculate_tick_rate(Some(1000)), Duration::from_millis(1));
    assert_eq!(calculate_tick_rate(Some(1001)), Duration::from_millis(0));
    assert_eq!(calculate_tick_rate(Some(u64::MAX)), Duration::ZERO);
}

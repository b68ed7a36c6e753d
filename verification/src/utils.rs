//! Small helpers of the login form.

use std::time::Duration;
use vstd::prelude::*;
use vstd::string::StringSliceAdditionalSpecFns;
use vstd::utf8::is_char_boundary;

verus! {

/// The duration that `Duration::from_millis` makes of a number of milliseconds.
pub uninterp spec fn duration_of_millis(millis: u64) -> Duration;

/// `Duration::from_millis`: the result is a function of the number of
/// milliseconds alone, and the call returns for every number.
pub assume_specification[ Duration::from_millis ](millis: u64) -> (duration: Duration)
    ensures
        duration == duration_of_millis(millis),
;

/// The milliseconds between two ticks at the given frame rate, 60 frames a
/// second where none is given.
pub open spec fn tick_millis(max_framerate: Option<u64>) -> int {
    match max_framerate {
        Some(rate) => 1000int / (rate as int),
        None => 16,
    }
}

/// The length that `str::len` gives for a text with these bytes.
pub open spec fn byte_len(bytes: Seq<u8>) -> usize {
    bytes.len() as usize
}

/// Whether the last `n` bytes of an encoded text are a text themselves: the
/// text is no longer than that, or the cut falls between two characters.
pub open spec fn can_cut(bytes: Seq<u8>, n: usize) -> bool {
    byte_len(bytes) <= n || is_char_boundary(bytes, byte_len(bytes) - n)
}

/// The last `n` bytes of an encoded text, or all of it where it is no longer.
pub open spec fn tail_bytes(bytes: Seq<u8>, n: usize) -> Seq<u8> {
    if byte_len(bytes) <= n {
        bytes
    } else {
        bytes.subrange(byte_len(bytes) - n, bytes.len() as int)
    }
}

/// The end of `s`: all of it where it has at most `n` bytes, its last `n`
/// bytes otherwise.
pub fn last_n_chars(s: &str, n: usize) -> (tail: &str)
    requires
        can_cut(s.spec_bytes(), n),
    ensures
        tail.spec_bytes() == tail_bytes(s.spec_bytes(), n),
{
    let len = s.len();
    if len <= n {
        s
    } else {
        s.split_at(len - n).1
    }
}

/// The time between two ticks at the given frame rate.
pub fn calculate_tick_rate(max_framerate: Option<u64>) -> (tick: Duration)
    requires
        max_framerate != Some(0u64),
    ensures
        tick == duration_of_millis(tick_millis(max_framerate) as u64),
{
    if let Some(max_framerate) = max_framerate {
        Duration::from_millis(1000 / max_framerate)
    } else {
        Duration::from_millis(1000 / 60)
    }
}

} // verus!

//! The decisions inside the Windows platform: how idle time is derived
//! from what Windows reports, how process names are read from image paths,
//! and when cached readings are still fresh.
use vstd::prelude::*;
use crate::text::{ascii_lower_chars, ascii_lower_seq, chars_of, string_from_chars};

pub mod notify;
pub mod util;

verus! {

broadcast use vstd::string::group_string_axioms;

/// Whole seconds between two millisecond tick counts of the 32-bit system
/// tick counter, which wraps around after about 49.7 days.
pub open spec fn idle_from_ticks_spec(now_tick: u32, last_input_tick: u32) -> u64 {
    let diff = if now_tick >= last_input_tick {
        now_tick - last_input_tick
    } else {
        now_tick + 0x1_0000_0000 - last_input_tick
    };
    (diff / 1000) as u64
}

/// Seconds since the last input from the current tick count and the tick
/// count of the last input (`GetTickCount` / `GetLastInputInfo`).
pub fn idle_from_ticks(now_tick: u32, last_input_tick: u32) -> (r: u64)
    ensures
        r == idle_from_ticks_spec(now_tick, last_input_tick),
{
    let diff = now_tick.wrapping_sub(last_input_tick);
    assert(diff == (if now_tick >= last_input_tick {
        now_tick - last_input_tick
    } else {
        now_tick + 0x1_0000_0000 - last_input_tick
    }));
    (diff / 1000) as u64
}

/// Input detection by polling: the last cursor position seen and when the
/// last input was seen (milliseconds on a monotonic clock).
#[derive(Debug, Clone, Copy, PartialEq, Eq)]
pub struct LegacyInputState {
    pub last_cursor: (i32, i32),
    pub last_input_ms: u64,
}

impl LegacyInputState {
    /// Polling starts with the current cursor position and counts the
    /// start as input.
    pub fn new(cursor: (i32, i32), now_ms: u64) -> (r: Self)
        ensures
            r == (LegacyInputState { last_cursor: cursor, last_input_ms: now_ms }),
    {
        LegacyInputState { last_cursor: cursor, last_input_ms: now_ms }
    }

    /// One poll at `now_ms`: a moved cursor or a pressed key is input and
    /// gives zero idle seconds; otherwise the idle time is the whole seconds
    /// since the last input.
    pub fn poll(&mut self, cursor: (i32, i32), key_pressed: bool, now_ms: u64) -> (r: u64)
        ensures
            (cursor != old(self).last_cursor || key_pressed) ==> r == 0 && *final(self) == (
            LegacyInputState { last_cursor: cursor, last_input_ms: now_ms }),
            !(cursor != old(self).last_cursor || key_pressed) ==> *final(self) == *old(self) && r
                == (if now_ms >= old(self).last_input_ms {
                (now_ms - old(self).last_input_ms) / 1000
            } else {
                0
            }),
    {
        if cursor.0 != self.last_cursor.0 || cursor.1 != self.last_cursor.1 || key_pressed {
            self.last_cursor = cursor;
            self.last_input_ms = now_ms;
            0
        } else if now_ms >= self.last_input_ms {
            (now_ms - self.last_input_ms) / 1000
        } else {
            0
        }
    }
}

/// The last component of a `\`-separated path.
pub open spec fn last_component(p: Seq<char>) -> Seq<char>
    decreases p.len(),
{
    if p.len() == 0 {
        p
    } else if p.last() == '\\' {
        Seq::<char>::empty()
    } else {
        last_component(p.drop_last()).push(p.last())
    }
}

/// The process name of an image path: its file name, ASCII lower case.
pub open spec fn process_name_spec(path: Seq<char>) -> Seq<char> {
    ascii_lower_seq(last_component(path))
}

/// The process name of an image path such as
/// `\Device\HarddiskVolume3\Windows\Explorer.EXE`: its file name, ASCII
/// lower case (`explorer.exe`).
pub fn process_name_from_image_path(path: &str) -> (r: String)
    ensures
        r@ == process_name_spec(path@),
{
    let chars = chars_of(path);
    let n = chars.len();
    let mut name: Vec<char> = Vec::new();
    let mut i: usize = 0;
    while i < n
        invariant
            n == chars@.len(),
            i <= n,
            name@ == last_component(chars@.take(i as int)),
        decreases n - i,
    {
        proof {
            assert(chars@.take(i + 1).drop_last() =~= chars@.take(i as int));
            assert(chars@.take(i + 1).last() == chars@[i as int]);
        }
        if chars[i] == '\\' {
            name = Vec::new();
            assert(name@ =~= Seq::<char>::empty());
        } else {
            name.push(chars[i]);
        }
        i = i + 1;
    }
    assert(chars@.take(n as int) =~= chars@);
    let lower = ascii_lower_chars(&name);
    string_from_chars(&lower)
}

/// A cached reading taken at `taken_ms` is still fresh at `now_ms` when
/// less than `max_age_ms` has passed.
pub open spec fn is_fresh_spec(taken_ms: Option<u64>, now_ms: u64, max_age_ms: u64) -> bool {
    match taken_ms {
        Some(t) => now_ms >= t && now_ms - t < max_age_ms,
        None => false,
    }
}

/// Whether a cached reading taken at `taken_ms` may be reused at `now_ms`.
pub fn is_fresh(taken_ms: Option<u64>, now_ms: u64, max_age_ms: u64) -> (r: bool)
    ensures
        r == is_fresh_spec(taken_ms, now_ms, max_age_ms),
{
    match taken_ms {
        Some(t) => now_ms >= t && now_ms - t < max_age_ms,
        None => false,
    }
}

/// The process name never contains the path separator.
pub proof fn law_process_name_has_no_separator(path: Seq<char>)
    ensures
        !process_name_spec(path).contains('\\'),
    decreases path.len(),
{
    lemma_last_component_no_sep(path);
    if process_name_spec(path).contains('\\') {
        let k = choose|k: int| 0 <= k < process_name_spec(path).len() && process_name_spec(path)[k] == '\\';
        assert(last_component(path)[k] == '\\');
    }
}

proof fn lemma_last_component_no_sep(p: Seq<char>)
    ensures
        forall|k: int| 0 <= k < last_component(p).len() ==> #[trigger] last_component(p)[k] != '\\',
    decreases p.len(),
{
    if p.len() > 0 && p.last() != '\\' {
        lemma_last_component_no_sep(p.drop_last());
        let prev = last_component(p.drop_last());
        assert forall|k: int| 0 <= k < last_component(p).len() implies #[trigger] last_component(p)[k] != '\\' by {
            if k < prev.len() {
                assert(last_component(p)[k] == prev[k]);
            }
        }
    }
}

} // verus!

//! The filesystem watchers: decide which created files matter.
//!
//! A screenshots watcher forwards `.png` and `.jpg` files; a save
//! watcher forwards the emulator save formats (`.srm`, `.state`,
//! `.state<digits>`, `.state.auto`, `.sav`, `.rtc`, `.ldci`).  The raw
//! file-creation notifications come from the driver; this module holds
//! the filters and the mapping to orchestrator events.

use crate::orchestrator;
use crate::paths;
use vstd::prelude::*;

verus! {

/// Events accepted by a watcher task.
pub enum Event {
    StartShutdown,
}

/// What a watcher watches for.
#[derive(PartialEq, Eq, Structural)]
pub enum WatchTarget {
    Screenshots,
    SaveFiles,
}

/// A decimal digit.
pub open spec fn spec_is_digit(c: char) -> bool {
    '0' <= c && c <= '9'
}

/// A screenshot file: one ending in `.png` or `.jpg`.
pub open spec fn spec_is_screenshot_path(s: Seq<char>) -> bool {
    paths::spec_ends_with(s, ".png"@) || paths::spec_ends_with(s, ".jpg"@)
}

/// `s` is `.state` followed by a run of exactly `d` digits at its end.
pub open spec fn spec_state_digit_suffix(s: Seq<char>, d: int) -> bool {
    &&& 0 <= d <= s.len()
    &&& paths::spec_ends_with(s.take(s.len() - d), ".state"@)
    &&& forall|i: int| s.len() - d <= i < s.len() ==> spec_is_digit(s[i])
}

/// A save file: one ending in `.srm`, `.sav`, `.rtc`, `.ldci`,
/// `.state.auto`, or `.state` followed by any run of digits.
pub open spec fn spec_is_save_path(s: Seq<char>) -> bool {
    ||| paths::spec_ends_with(s, ".srm"@)
    ||| paths::spec_ends_with(s, ".sav"@)
    ||| paths::spec_ends_with(s, ".rtc"@)
    ||| paths::spec_ends_with(s, ".ldci"@)
    ||| paths::spec_ends_with(s, ".state.auto"@)
    ||| exists|d: int| #[trigger] spec_state_digit_suffix(s, d)
}

/// Whether `path` is a screenshot file.
pub fn is_screenshot_path(path: &str) -> (r: bool)
    ensures
        r == spec_is_screenshot_path(path@),
{
    paths::ends_with_str(path, ".png") || paths::ends_with_str(path, ".jpg")
}

/// Whether the character of `path` at `i` is a decimal digit.
fn digit_at(path: &str, i: usize) -> (r: bool)
    requires
        i < path@.len(),
    ensures
        r == spec_is_digit(path@[i as int]),
{
    let c = path.get_char(i);
    '0' <= c && c <= '9'
}

/// Whether `path` is a save file.
pub fn is_save_path(path: &str) -> (r: bool)
    ensures
        r == spec_is_save_path(path@),
{
    let ghost s = path@;
    if paths::ends_with_str(path, ".srm") || paths::ends_with_str(path, ".sav")
        || paths::ends_with_str(path, ".rtc") || paths::ends_with_str(path, ".ldci")
        || paths::ends_with_str(path, ".state.auto") {
        return true;
    }
    // Count the run of digits at the end; the pattern matches exactly
    // when what precedes that run ends in `.state`.
    let n: usize = path.unicode_len();
    let mut t: usize = 0;
    while t < n && digit_at(path, n - t - 1)
        invariant
            0 <= t <= n,
            n == s.len(),
            s == path@,
            forall|i: int| s.len() - t <= i < s.len() ==> spec_is_digit(s[i]),
        decreases n - t,
    {
        t = t + 1;
    }
    let prefix = path.substring_char(0, n - t);
    let hit = paths::ends_with_str(prefix, ".state");
    proof {
        assert(prefix@ =~= s.take(s.len() - t));
        if hit {
            assert(spec_state_digit_suffix(s, t as int));
            assert(spec_is_save_path(s));
        } else {
            assert forall|d: int| !spec_state_digit_suffix(s, d) by {
                reveal_strlit(".state");
                if spec_state_digit_suffix(s, d) {
                    let p = s.take(s.len() - d);
                assert(p.skip(p.len() - 6) == ".state"@);
                    if d == t {
                        assert(paths::spec_ends_with(prefix@, ".state"@));
                    } else if d < t {
                        // the character closing `.state` would have to
                        // be a digit from the trailing run
                        assert(p[p.len() - 1] == p.skip(p.len() - 6)[5]);
                        assert(p.skip(p.len() - 6)[5] == ".state"@[5]);
                        assert(s[s.len() - d - 1] == p[p.len() - 1]);
                        assert(s.len() - t <= s.len() - d - 1 < s.len());
                        assert(spec_is_digit(s[s.len() - d - 1]));
                        assert(s[s.len() - d - 1] == 'e');
                    } else {
                        // the digit run would have to extend past a
                        // non-digit character
                        assert(t < n);
                        assert(!spec_is_digit(s[s.len() - t - 1]));
                        assert(s.len() - d <= s.len() - t - 1 < s.len());
                    }
                }
            }
            assert(!spec_is_save_path(s));
        }
    }
    hit
}

/// The orchestrator event for a newly created file, if its name matches
/// the watcher's filter.
pub fn maybe_emit_event(target: &WatchTarget, path: String) -> (r: Option<orchestrator::Event>)
    ensures
        match target {
            WatchTarget::Screenshots => {
                if spec_is_screenshot_path(path@) {
                    r == Some(orchestrator::Event::ScreenshotCreated(path))
                } else {
                    r is None
                }
            },
            WatchTarget::SaveFiles => {
                if spec_is_save_path(path@) {
                    r == Some(orchestrator::Event::SaveFileCreated(path))
                } else {
                    r is None
                }
            },
        },
{
    match target {
        WatchTarget::Screenshots => {
            if is_screenshot_path(path.as_str()) {
                Some(orchestrator::Event::ScreenshotCreated(path))
            } else {
                None
            }
        },
        WatchTarget::SaveFiles => {
            if is_save_path(path.as_str()) {
                Some(orchestrator::Event::SaveFileCreated(path))
            } else {
                None
            }
        },
    }
}

} // verus!

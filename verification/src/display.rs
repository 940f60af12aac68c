//! Text the renderer shows: durations, progress, toggles and the rotating
//! status line.

use vstd::prelude::*;
use vstd::string::StringExecFns;
use vstd::string::StrSliceExecFns;

use crate::queue::{display_title, QueueEntry};
use crate::status::PlaybackSnapshot;

verus! {

/// The decimal digit character for `d`.
pub open spec fn digit_char(d: int) -> char {
    if d == 0 {
        '0'
    } else if d == 1 {
        '1'
    } else if d == 2 {
        '2'
    } else if d == 3 {
        '3'
    } else if d == 4 {
        '4'
    } else if d == 5 {
        '5'
    } else if d == 6 {
        '6'
    } else if d == 7 {
        '7'
    } else if d == 8 {
        '8'
    } else {
        '9'
    }
}

/// Decimal digits of `n`, most significant first, with no sign and no
/// leading zeros (a single `0` for zero).
pub open spec fn dec_str(n: nat) -> Seq<char>
    decreases n,
{
    if n < 10 {
        seq![digit_char(n as int)]
    } else {
        dec_str(n / 10) + seq![digit_char((n % 10) as int)]
    }
}

/// Decimal digits of `v`, with a leading `-` when it is negative.
pub open spec fn int_str(v: int) -> Seq<char> {
    if v < 0 {
        seq!['-'] + dec_str((-v) as nat)
    } else {
        dec_str(v as nat)
    }
}

/// `on` or `off`.
pub open spec fn onoff(b: bool) -> Seq<char> {
    if b {
        "on"@
    } else {
        "off"@
    }
}

fn digit_lit(d: u64) -> (r: &'static str)
    requires
        d < 10,
    ensures
        r@ == seq![digit_char(d as int)],
{
    proof {
        reveal_strlit("0");
        reveal_strlit("1");
        reveal_strlit("2");
        reveal_strlit("3");
        reveal_strlit("4");
        reveal_strlit("5");
        reveal_strlit("6");
        reveal_strlit("7");
        reveal_strlit("8");
        reveal_strlit("9");
    }
    if d == 0 {
        "0"
    } else if d == 1 {
        "1"
    } else if d == 2 {
        "2"
    } else if d == 3 {
        "3"
    } else if d == 4 {
        "4"
    } else if d == 5 {
        "5"
    } else if d == 6 {
        "6"
    } else if d == 7 {
        "7"
    } else if d == 8 {
        "8"
    } else {
        "9"
    }
}

fn push_dec(out: &mut String, n: u64)
    ensures
        final(out)@ == old(out)@ + dec_str(n as nat),
    decreases n,
{
    if n < 10 {
        out.append(digit_lit(n));
    } else {
        push_dec(out, n / 10);
        out.append(digit_lit(n % 10));
        proof {
            assert(final(out)@ =~= old(out)@ + dec_str(n as nat));
        }
    }
}

fn push_int(out: &mut String, v: i64)
    ensures
        final(out)@ == old(out)@ + int_str(v as int),
{
    if v >= 0 {
        push_dec(out, v as u64);
    } else {
        out.append("-");
        let mag: u64 = (-(v as i128)) as u64;
        push_dec(out, mag);
        proof {
            reveal_strlit("-");
            assert("-"@ =~= seq!['-']);
            assert(final(out)@ =~= old(out)@ + int_str(v as int));
        }
    }
}

/// Render a toggle flag as text.
pub fn state_string(s: bool) -> (r: &'static str)
    ensures
        r@ == onoff(s),
{
    if s {
        "on"
    } else {
        "off"
    }
}

/// The full duration text for `s` seconds: days, hours, minutes and seconds,
/// each part present only when its count is positive (seconds always),
/// joined with `, `, singular for a count of one.
pub open spec fn spec_time_string(s: int) -> Seq<char> {
    let mins = s / 60;
    let hrs = mins / 60;
    let days = hrs / 24;
    let dpart = if days > 0 {
        dec_str(days as nat) + (if days == 1 {
            " day, "@
        } else {
            " days, "@
        })
    } else {
        Seq::<char>::empty()
    };
    let hpart = if hrs > 0 {
        dec_str((hrs % 24) as nat) + (if hrs == 1 {
            " hour, "@
        } else {
            " hours, "@
        })
    } else {
        Seq::<char>::empty()
    };
    let mpart = if mins > 0 {
        dec_str((mins % 60) as nat) + (if mins == 1 {
            " minute, "@
        } else {
            " minutes, "@
        })
    } else {
        Seq::<char>::empty()
    };
    let spart = dec_str((s % 60) as nat) + (if s % 60 == 1 {
        " second"@
    } else {
        " seconds"@
    });
    dpart + hpart + mpart + spart
}

/// Render a duration in seconds as text.
pub fn time_string(s: i64) -> (r: String)
    requires
        0 <= s,
    ensures
        r@ == spec_time_string(s as int),
{
    let t = s as u64;
    let mins = t / 60;
    let hrs = mins / 60;
    let days = hrs / 24;
    let mut r = String::new();
    if days > 0 {
        push_dec(&mut r, days);
        if days == 1 {
            r.append(" day, ");
        } else {
            r.append(" days, ");
        }
    }
    if hrs > 0 {
        push_dec(&mut r, hrs % 24);
        if hrs == 1 {
            r.append(" hour, ");
        } else {
            r.append(" hours, ");
        }
    }
    if mins > 0 {
        push_dec(&mut r, mins % 60);
        if mins == 1 {
            r.append(" minute, ");
        } else {
            r.append(" minutes, ");
        }
    }
    push_dec(&mut r, t % 60);
    if t % 60 == 1 {
        r.append(" second");
    } else {
        r.append(" seconds");
    }
    proof {
        assert(r@ =~= spec_time_string(s as int));
    }
    r
}

/// `n` leading zero characters (none when `n` is not positive).
pub open spec fn zeros(n: int) -> Seq<char>
    decreases n,
{
    if n <= 0 {
        Seq::<char>::empty()
    } else {
        zeros(n - 1) + seq!['0']
    }
}

/// A minute or second count padded to two digits.
pub open spec fn two_dig(n: nat) -> Seq<char> {
    if n < 10 {
        seq!['0'] + dec_str(n)
    } else {
        dec_str(n)
    }
}

fn push_two_dig(out: &mut String, n: u64)
    requires
        n < 60,
    ensures
        final(out)@ == old(out)@ + two_dig(n as nat),
{
    if n < 10 {
        out.append("0");
        proof {
            reveal_strlit("0");
        }
    }
    push_dec(out, n);
    proof {
        assert(final(out)@ =~= old(out)@ + two_dig(n as nat));
    }
}

/// The progress text for `e` of `d` milliseconds: empty when the duration is
/// zero, else `[ mm:ss - mm:ss ]` with the elapsed minutes zero-padded to the
/// width of the duration minutes and both second counts two digits wide.
pub open spec fn spec_progress_string(e: int, d: int) -> Seq<char> {
    if d == 0 {
        Seq::<char>::empty()
    } else {
        let em = e / 60000;
        let es = (e / 1000) % 60;
        let dm = d / 60000;
        let ds = (d / 1000) % 60;
        "[ "@ + zeros(dec_str(dm as nat).len() - dec_str(em as nat).len()) + dec_str(em as nat)
            + ":"@ + two_dig(es as nat) + " - "@ + dec_str(dm as nat) + ":"@ + two_dig(ds as nat)
            + " ]"@
    }
}

/// Render the elapsed/total progress line.
pub fn progress_string(e: i64, d: i64) -> (r: String)
    requires
        0 <= e,
        0 <= d,
    ensures
        r@ == spec_progress_string(e as int, d as int),
{
    if d == 0 {
        return String::new();
    }
    let eu = e as u64;
    let du = d as u64;
    let em = eu / 60000;
    let es = (eu / 1000) % 60;
    let dm = du / 60000;
    let ds = (du / 1000) % 60;
    let mut em_s = String::new();
    push_dec(&mut em_s, em);
    let mut dm_s = String::new();
    push_dec(&mut dm_s, dm);
    let el = em_s.as_str().unicode_len();
    let dl = dm_s.as_str().unicode_len();
    let mut r = String::from_str("[ ");
    let mut c = el;
    while c < dl
        invariant
            el <= c,
            c <= dl || c == el,
            r@ == "[ "@ + zeros(c as int - el as int),
        decreases dl - c,
    {
        r.append("0");
        c = c + 1;
        proof {
            reveal_strlit("0");
            assert(r@ =~= "[ "@ + zeros(c as int - el as int));
        }
    }
    proof {
        assert(zeros(c as int - el as int) =~= zeros(
            dec_str(dm as nat).len() - dec_str(em as nat).len(),
        ));
    }
    r.append(em_s.as_str());
    r.append(":");
    push_two_dig(&mut r, es);
    r.append(" - ");
    r.append(dm_s.as_str());
    r.append(":");
    push_two_dig(&mut r, ds);
    r.append(" ]");
    proof {
        assert(r@ =~= spec_progress_string(e as int, d as int));
    }
    r
}

/// The rotating status line for a phase: a now-playing glyph and the current
/// title (phases 0 and 1), the next-up glyph and the upcoming title (phase
/// 2), or the volume-and-toggles summary (phase 3).
pub open spec fn spec_switcher(cycle: int, s: PlaybackSnapshot, q: Seq<QueueEntry>) -> Seq<char> {
    if cycle == 0 {
        "\u{f945}  "@ + display_title(q[s.song->0 as int])
    } else if cycle == 1 {
        "\u{f001}  "@ + display_title(q[s.song->0 as int])
    } else if cycle == 2 {
        "\u{f9ab}  "@ + display_title(q[s.nextsong->0 as int])
    } else {
        "\u{fa7d} "@ + int_str(s.volume as int) + "  \u{f955} "@ + onoff(s.repeat) + "  \u{f99e} "@
            + onoff(s.random) + "  \u{f957} "@ + onoff(s.single) + "  \u{f912} "@ + onoff(s.consume)
    }
}

/// Build the rotating status line for a phase.
pub fn gen_switcher(cycle: u8, s: &PlaybackSnapshot, queue: &Vec<QueueEntry>) -> (r: String)
    requires
        cycle <= 3,
        cycle == 0 || cycle == 1 ==> s.song is Some && s.song->0 < queue@.len(),
        cycle == 2 ==> s.nextsong is Some && s.nextsong->0 < queue@.len(),
    ensures
        r@ == spec_switcher(cycle as int, *s, queue@),
{
    if cycle == 0 || cycle == 1 {
        let pos = match s.song {
            Some(p) => p,
            None => 0,
        };
        let mut r = if cycle == 0 {
            String::from_str("\u{f945}  ")
        } else {
            String::from_str("\u{f001}  ")
        };
        let t = crate::queue::gen_title(&queue[pos]);
        r.append(t.as_str());
        r
    } else if cycle == 2 {
        let pos = match s.nextsong {
            Some(p) => p,
            None => 0,
        };
        let mut r = String::from_str("\u{f9ab}  ");
        let t = crate::queue::gen_title(&queue[pos]);
        r.append(t.as_str());
        r
    } else {
        let mut r = String::from_str("\u{fa7d} ");
        push_int(&mut r, s.volume as i64);
        r.append("  \u{f955} ");
        r.append(state_string(s.repeat));
        r.append("  \u{f99e} ");
        r.append(state_string(s.random));
        r.append("  \u{f957} ");
        r.append(state_string(s.single));
        r.append("  \u{f912} ");
        r.append(state_string(s.consume));
        proof {
            assert(r@ =~= spec_switcher(cycle as int, *s, queue@));
        }
        r
    }
}

} // verus!

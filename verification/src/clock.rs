//! Wall-clock tracking for the top-panel clock: keeps the last displayed
//! hour and minute, reports whether a fresh reading changed them, and
//! renders them as `HH:MM`.

use chrono::Timelike;
use vstd::prelude::*;
use vstd::string::StringExecFns;

verus! {

/// Relies on chrono's `Local::now` and `Timelike::hour` / `minute`: the
/// hour of a local time is 0 to 23 and the minute 0 to 59. The reading
/// itself depends on the wall clock, so nothing more is promised of it.
#[verifier::external_body]
fn local_time_hh_mm() -> (r: (u32, u32))
    ensures
        r.0 < 24,
        r.1 < 60,
{
    let time = chrono::Local::now().time();
    (time.hour(), time.minute())
}

/// The displayed time of day.
#[derive(Clone, Copy, Debug, PartialEq, Eq, Structural)]
pub struct ClockTracker {
    pub hh: u32,
    pub mm: u32,
}

/// The character for one decimal digit.
pub open spec fn digit_char(d: int) -> char {
    if d == 0 {
        '0'
    } else if d == 1 {
        '1'
    } else if d == 2 {
        '2'
    } else if d == 3 {
        '3'
    } else if d == 4 {
        '4'
    } else if d == 5 {
        '5'
    } else if d == 6 {
        '6'
    } else if d == 7 {
        '7'
    } else if d == 8 {
        '8'
    } else {
        '9'
    }
}

/// The five characters of a zero-padded `HH:MM` rendering.
pub open spec fn spec_time_str(hh: int, mm: int) -> Seq<char> {
    seq![
        digit_char(hh / 10),
        digit_char(hh % 10),
        ':',
        digit_char(mm / 10),
        digit_char(mm % 10),
    ]
}

/// The one-character string for a decimal digit.
fn digit_str(d: u32) -> (r: &'static str)
    requires
        d < 10,
    ensures
        r@ =~= seq![digit_char(d as int)],
{
    proof {
        reveal_strlit("0");
        reveal_strlit("1");
        reveal_strlit("2");
        reveal_strlit("3");
        reveal_strlit("4");
        reveal_strlit("5");
        reveal_strlit("6");
        reveal_strlit("7");
        reveal_strlit("8");
        reveal_strlit("9");
    }
    if d == 0 {
        "0"
    } else if d == 1 {
        "1"
    } else if d == 2 {
        "2"
    } else if d == 3 {
        "3"
    } else if d == 4 {
        "4"
    } else if d == 5 {
        "5"
    } else if d == 6 {
        "6"
    } else if d == 7 {
        "7"
    } else if d == 8 {
        "8"
    } else {
        "9"
    }
}

impl ClockTracker {
    /// The stored time of day is a real one.
    pub open spec fn wf(self) -> bool {
        self.hh < 24 && self.mm < 60
    }

    /// A tracker already holding the current wall-clock time.
    pub fn new() -> (r: ClockTracker)
        ensures
            r.wf(),
    {
        let mut tracker = ClockTracker { hh: 0, mm: 0 };
        tracker.update();
        tracker
    }

    /// Takes a fresh reading of hour and minute and reports whether the
    /// displayed time changed: true exactly when the stored pair moved.
    pub fn apply_time(&mut self, hh: u32, mm: u32) -> (r: bool)
        requires
            hh < 24,
            mm < 60,
        ensures
            final(self).hh == hh,
            final(self).mm == mm,
            r == (old(self).hh != hh || old(self).mm != mm),
            final(self).wf(),
    {
        if self.hh != hh || self.mm != mm {
            self.hh = hh;
            self.mm = mm;
            return true;
        }
        false
    }

    /// Reads the wall clock and reports whether the displayed time
    /// changed. Whatever the clock returned, the stored time ends up a
    /// real time of day, and false is reported exactly when it is the one
    /// already stored.
    pub fn update(&mut self) -> (r: bool)
        ensures
            final(self).wf(),
            r == (old(self).hh != final(self).hh || old(self).mm != final(self).mm),
    {
        let (hh, mm) = local_time_hh_mm();
        self.apply_time(hh, mm)
    }

    /// The zero-padded `HH:MM` rendering of the stored time.
    pub fn time_str(&self) -> (r: String)
        requires
            self.wf(),
        ensures
            r@ =~= spec_time_str(self.hh as int, self.mm as int),
    {
        proof {
            reveal_strlit(":");
        }
        let mut s = String::new();
        s.append(digit_str(self.hh / 10));
        s.append(digit_str(self.hh % 10));
        s.append(":");
        s.append(digit_str(self.mm / 10));
        s.append(digit_str(self.mm % 10));
        s
    }
}

} // verus!

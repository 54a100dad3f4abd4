use vstd::prelude::*;

verus! {

/// A moment in UTC: whole seconds since the Unix epoch and the nanoseconds
/// after them. `nanos` may reach past one second only on a leap second.
#[derive(Clone, Copy, Debug, PartialEq, Eq, Structural)]
pub struct Instant {
    pub secs: i64,
    pub nanos: u32,
}

/// `a` comes strictly before `b`: seconds first, then nanoseconds.
pub open spec fn precedes(a: Instant, b: Instant) -> bool {
    a.secs < b.secs || (a.secs == b.secs && a.nanos < b.nanos)
}

impl Instant {
    /// Strict order of moments.
    pub fn is_before(&self, other: &Instant) -> (r: bool)
        ensures
            r == precedes(*self, *other),
    {
        self.secs < other.secs || (self.secs == other.secs && self.nanos < other.nanos)
    }

    /// The same moment moved by `delta` seconds, if it still fits.
    pub fn shifted(&self, delta: i64) -> (r: Option<Instant>)
        ensures
            r == shift_spec(*self, delta as int),
    {
        match self.secs.checked_add(delta) {
            Some(s) => Some(Instant { secs: s, nanos: self.nanos }),
            None => None,
        }
    }
}

/// Moves `t` by `delta` seconds; `None` when the seconds leave `i64`.
pub open spec fn shift_spec(t: Instant, delta: int) -> Option<Instant> {
    let s = t.secs + delta;
    if i64::MIN <= s <= i64::MAX {
        Some(Instant { secs: s as i64, nanos: t.nanos })
    } else {
        None
    }
}

/// The light window of a day: from sunrise (included) to sunset (excluded).
#[derive(Clone, Copy, Debug, PartialEq, Eq, Structural)]
pub struct Window {
    pub sunrise: Instant,
    pub sunset: Instant,
}

/// `now` lies in the half-open interval `[sunrise, sunset)`.
pub open spec fn in_window(w: Window, now: Instant) -> bool {
    !precedes(now, w.sunrise) && precedes(now, w.sunset)
}

/// The window opened by `margin` seconds on both sides: sunrise earlier,
/// sunset later. `None` when a bound leaves the representable range.
pub open spec fn widen_spec(w: Window, margin: int) -> Option<Window> {
    match (shift_spec(w.sunrise, -margin), shift_spec(w.sunset, margin)) {
        (Some(a), Some(b)) => Some(Window { sunrise: a, sunset: b }),
        _ => None,
    }
}

impl Window {
    /// Whether `now` is in daylight: sunrise inclusive, sunset exclusive.
    pub fn contains(&self, now: &Instant) -> (r: bool)
        ensures
            r == in_window(*self, *now),
    {
        !now.is_before(&self.sunrise) && now.is_before(&self.sunset)
    }

    /// Opens the window by `margin` seconds on each side.
    pub fn widened(&self, margin: i64) -> (r: Option<Window>)
        requires
            margin > i64::MIN,
        ensures
            r == widen_spec(*self, margin as int),
    {
        let early = self.sunrise.shifted(-margin);
        let late = self.sunset.shifted(margin);
        match (early, late) {
            (Some(a), Some(b)) => Some(Window { sunrise: a, sunset: b }),
            _ => None,
        }
    }
}

/// At sunrise itself it is light; at sunset itself it is dark.
pub proof fn lemma_window_bounds(w: Window)
    requires
        precedes(w.sunrise, w.sunset),
    ensures
        in_window(w, w.sunrise),
        !in_window(w, w.sunset),
{
}

} // verus!

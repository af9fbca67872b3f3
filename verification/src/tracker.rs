//! Watching a value against a quota and warning whoever listens.
//!
//! The tracker compares the value to its maximum at three thresholds —
//! three quarters, nine tenths, and the quota itself — and sends at most
//! one message per update through a caller-supplied [`Messenger`]. The
//! thresholds are ratios: the tracker compares `value / max` against 3/4,
//! 9/10 and 1, exactly, by cross-multiplying. When value and maximum are
//! both zero the ratio is undefined and nothing is sent.

use vstd::prelude::*;

verus! {

/// Whoever wants to hear about a quota running out implements this.
pub trait Messenger {
    /// Delivers one message to the listener.
    fn send(&self, msg: &str);
}

/// The warning a given value deserves against a given maximum: the text of
/// the message [`LimitTracker::set_value`] sends, or `None` when the value
/// is comfortably under three quarters of the quota (or the ratio is
/// undefined).
pub open spec fn quota_message(value: int, max: int) -> Option<Seq<char>> {
    if value >= max && (value > 0 || max > 0) {
        Some("Error: You are over your quota!"@)
    } else if value < max && 10 * value >= 9 * max {
        Some("Urgent warning: You've used up over 90% of your quota!"@)
    } else if value < max && 4 * value >= 3 * max {
        Some("Warning: You've used up over 75% of your quota!"@)
    } else {
        None
    }
}

/// Picks the message a value deserves against a maximum.
pub fn quota_notice(value: usize, max: usize) -> (r: Option<&'static str>)
    ensures
        r.deep_view() == quota_message(value as int, max as int),
{
    if value >= max && (value > 0 || max > 0) {
        Some("Error: You are over your quota!")
    } else if max > 0 && (value as u128) * 10 >= (max as u128) * 9 {
        Some("Urgent warning: You've used up over 90% of your quota!")
    } else if max > 0 && (value as u128) * 4 >= (max as u128) * 3 {
        Some("Warning: You've used up over 75% of your quota!")
    } else {
        None
    }
}

/// Tracks how close a value is to a fixed maximum and tells its messenger
/// when a threshold is crossed.
pub struct LimitTracker<'a, T: Messenger> {
    messenger: &'a T,
    value: usize,
    max: usize,
}

impl<'a, T: Messenger> LimitTracker<'a, T> {
    /// The value most recently set.
    pub closed spec fn spec_value(self) -> usize {
        self.value
    }

    /// The quota being watched.
    pub closed spec fn spec_max(self) -> usize {
        self.max
    }

    /// A tracker starting at zero against the given quota.
    pub fn new(messenger: &'a T, max: usize) -> (t: LimitTracker<'a, T>)
        ensures
            t.spec_value() == 0,
            t.spec_max() == max,
    {
        LimitTracker { messenger, value: 0, max }
    }

    /// Records the new value and, when it crosses a threshold, sends the
    /// messenger the message [`quota_message`] names for it — at most one
    /// per call.
    pub fn set_value(&mut self, value: usize)
        ensures
            final(self).spec_value() == value,
            final(self).spec_max() == old(self).spec_max(),
    {
        self.value = value;
        let notice = quota_notice(value, self.max);
        match notice {
            Some(msg) => self.messenger.send(msg),
            None => {},
        }
    }
}

} // verus!

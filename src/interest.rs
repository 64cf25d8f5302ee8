//! What a caller registers with a selector: a token, an interest set and
//! polling options.
use vstd::prelude::*;

verus! {

/// An opaque value chosen by the caller and handed back with each readiness event.
#[derive(Clone, Copy, Debug, PartialEq, Eq, Structural)]
pub struct Token(pub usize);

/// The kinds of readiness a registration asks to hear about.
#[derive(Clone, Copy, Debug, PartialEq, Eq, Structural)]
pub struct EventSet {
    pub readable: bool,
    pub writable: bool,
    pub error: bool,
    pub hup: bool,
}

/// How readiness is reported: on each change (edge) or while it lasts
/// (level), and whether the registration disarms after one event.
#[derive(Clone, Copy, Debug, PartialEq, Eq, Structural)]
pub struct PollOpt {
    pub edge: bool,
    pub oneshot: bool,
}

impl EventSet {
    /// The empty set.
    pub fn none() -> (e: EventSet)
        ensures
            !e.readable && !e.writable && !e.error && !e.hup,
    {
        EventSet { readable: false, writable: false, error: false, hup: false }
    }

    /// Readability alone.
    pub fn readable() -> (e: EventSet)
        ensures
            e.readable && !e.writable && !e.error && !e.hup,
    {
        EventSet { readable: true, writable: false, error: false, hup: false }
    }

    /// Writability alone.
    pub fn writable() -> (e: EventSet)
        ensures
            !e.readable && e.writable && !e.error && !e.hup,
    {
        EventSet { readable: false, writable: true, error: false, hup: false }
    }

    /// Every kind of readiness.
    pub fn all() -> (e: EventSet)
        ensures
            e.readable && e.writable && e.error && e.hup,
    {
        EventSet { readable: true, writable: true, error: true, hup: true }
    }

    /// The kinds in either set.
    pub fn union(self, other: EventSet) -> (e: EventSet)
        ensures
            e.readable == (self.readable || other.readable),
            e.writable == (self.writable || other.writable),
            e.error == (self.error || other.error),
            e.hup == (self.hup || other.hup),
    {
        EventSet {
            readable: self.readable || other.readable,
            writable: self.writable || other.writable,
            error: self.error || other.error,
            hup: self.hup || other.hup,
        }
    }

    /// Whether every kind in `other` is in this set.
    pub fn contains(&self, other: EventSet) -> (r: bool)
        ensures
            r == ((other.readable ==> self.readable) && (other.writable ==> self.writable) && (
            other.error ==> self.error) && (other.hup ==> self.hup)),
    {
        (!other.readable || self.readable) && (!other.writable || self.writable) && (!other.error
            || self.error) && (!other.hup || self.hup)
    }
}

impl PollOpt {
    /// Level-triggered, kept armed.
    pub fn level() -> (o: PollOpt)
        ensures
            !o.edge && !o.oneshot,
    {
        PollOpt { edge: false, oneshot: false }
    }

    /// Edge-triggered, kept armed.
    pub fn edge() -> (o: PollOpt)
        ensures
            o.edge && !o.oneshot,
    {
        PollOpt { edge: true, oneshot: false }
    }

    /// The same triggering, disarmed after one event.
    pub fn oneshot(self) -> (o: PollOpt)
        ensures
            o.edge == self.edge && o.oneshot,
    {
        PollOpt { edge: self.edge, oneshot: true }
    }
}

} // verus!

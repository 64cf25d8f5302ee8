//! Socket options, and the order in which a composite option is written.
use vstd::prelude::*;

use crate::error::{error_of, ErrnoTable, Operation, SocketError};

verus! {

/// A socket option that this handle reads or writes.
#[derive(Clone, Copy, Debug, PartialEq, Eq, Structural)]
pub enum SockOpt {
    /// `SO_REUSEADDR`
    ReuseAddr,
    /// `SO_REUSEPORT`
    ReusePort,
    /// `TCP_NODELAY`
    NoDelay,
    /// `SO_KEEPALIVE`, the boolean switch
    KeepAlive,
    /// The idle time in seconds before keepalive probes start
    KeepIdle,
    /// `SO_ERROR`, the pending asynchronous error
    PendingError,
}

/// One write of one socket option.
#[derive(Clone, Copy, Debug, PartialEq, Eq, Structural)]
pub enum OptionWrite {
    ReuseAddr(bool),
    ReusePort(bool),
    NoDelay(bool),
    KeepAlive(bool),
    KeepIdle(u32),
}

/// The option values of a socket, as far as this handle writes them.
#[derive(Clone, Copy, Debug, PartialEq, Eq, Structural)]
pub struct OptionState {
    pub reuse_addr: bool,
    pub reuse_port: bool,
    pub no_delay: bool,
    pub keepalive: bool,
    /// The idle time before probes, once one has been set.
    pub keep_idle: Option<u32>,
}

impl OptionWrite {
    /// The option that this write changes.
    pub open spec fn spec_option(&self) -> SockOpt {
        match self {
            OptionWrite::ReuseAddr(_) => SockOpt::ReuseAddr,
            OptionWrite::ReusePort(_) => SockOpt::ReusePort,
            OptionWrite::NoDelay(_) => SockOpt::NoDelay,
            OptionWrite::KeepAlive(_) => SockOpt::KeepAlive,
            OptionWrite::KeepIdle(_) => SockOpt::KeepIdle,
        }
    }

    /// The option that this write changes.
    #[verifier::when_used_as_spec(spec_option)]
    pub fn option(&self) -> (o: SockOpt)
        ensures
            o == self.spec_option(),
    {
        match self {
            OptionWrite::ReuseAddr(_) => SockOpt::ReuseAddr,
            OptionWrite::ReusePort(_) => SockOpt::ReusePort,
            OptionWrite::NoDelay(_) => SockOpt::NoDelay,
            OptionWrite::KeepAlive(_) => SockOpt::KeepAlive,
            OptionWrite::KeepIdle(_) => SockOpt::KeepIdle,
        }
    }
}

/// The option values after a successful write.
pub open spec fn apply(s: OptionState, w: OptionWrite) -> OptionState {
    match w {
        OptionWrite::ReuseAddr(b) => OptionState { reuse_addr: b, ..s },
        OptionWrite::ReusePort(b) => OptionState { reuse_port: b, ..s },
        OptionWrite::NoDelay(b) => OptionState { no_delay: b, ..s },
        OptionWrite::KeepAlive(b) => OptionState { keepalive: b, ..s },
        OptionWrite::KeepIdle(n) => OptionState { keep_idle: Some(n), ..s },
    }
}

/// The option values after a run of successful writes, in order.
pub open spec fn apply_all(s: OptionState, ws: Seq<OptionWrite>) -> OptionState
    decreases ws.len(),
{
    if ws.len() == 0 {
        s
    } else {
        apply(apply_all(s, ws.drop_last()), ws.last())
    }
}

/// The writes that set keepalive: with an idle time, the switch goes on
/// first and the idle time follows; without one, the switch goes off alone.
pub open spec fn keepalive_plan(seconds: Option<u32>) -> Seq<OptionWrite> {
    match seconds {
        Some(n) => seq![OptionWrite::KeepAlive(true), OptionWrite::KeepIdle(n)],
        None => seq![OptionWrite::KeepAlive(false)],
    }
}

/// The writes of `keepalive_plan(seconds)`.
pub fn keepalive_writes(seconds: Option<u32>) -> (ws: Vec<OptionWrite>)
    ensures
        ws@ == keepalive_plan(seconds),
{
    match seconds {
        Some(n) => vec![OptionWrite::KeepAlive(true), OptionWrite::KeepIdle(n)],
        None => vec![OptionWrite::KeepAlive(false)],
    }
}

/// A run of option writes performed one at a time by the caller, which
/// stops at the first failure.
pub struct OptionSequence {
    writes: Vec<OptionWrite>,
    done: usize,
    failed: bool,
}

impl OptionSequence {
    /// The writes of the sequence, in order.
    pub closed spec fn writes(self) -> Seq<OptionWrite> {
        self.writes@
    }

    /// How many writes have succeeded.
    pub closed spec fn done(self) -> nat {
        self.done as nat
    }

    /// Whether a write has failed.
    pub closed spec fn failed(self) -> bool {
        self.failed
    }

    /// No more writes have succeeded than the sequence holds.
    pub closed spec fn wf(self) -> bool {
        self.done <= self.writes@.len()
    }

    /// Whether no write is left to perform.
    pub open spec fn finished(self) -> bool {
        self.failed() || self.done() == self.writes().len()
    }

    /// The sequence that sets keepalive as `keepalive_plan(seconds)` says.
    pub fn keepalive(seconds: Option<u32>) -> (q: OptionSequence)
        ensures
            q.wf(),
            q.writes() == keepalive_plan(seconds),
            q.done() == 0,
            !q.failed(),
    {
        OptionSequence { writes: keepalive_writes(seconds), done: 0, failed: false }
    }

    /// The sequence of one write.
    pub fn single(w: OptionWrite) -> (q: OptionSequence)
        ensures
            q.wf(),
            q.writes() == seq![w],
            q.done() == 0,
            !q.failed(),
    {
        OptionSequence { writes: vec![w], done: 0, failed: false }
    }

    /// The write to perform now, or `None` once the sequence is finished.
    pub fn next(&self) -> (w: Option<OptionWrite>)
        requires
            self.wf(),
        ensures
            self.finished() ==> w is None,
            !self.finished() ==> w == Some(self.writes()[self.done() as int]),
    {
        if self.failed || self.done == self.writes.len() {
            None
        } else {
            Some(self.writes[self.done])
        }
    }

    /// Records the raw result of the write that `next` handed out. A failure
    /// ends the sequence and is returned classified as an option error.
    pub fn record(&mut self, t: &ErrnoTable, r: Result<(), i32>) -> (s: Result<(), SocketError>)
        requires
            old(self).wf(),
            !old(self).finished(),
        ensures
            final(self).wf(),
            final(self).writes() == old(self).writes(),
            match r {
                Ok(()) => {
                    &&& s is Ok
                    &&& final(self).done() == old(self).done() + 1
                    &&& !final(self).failed()
                },
                Err(c) => {
                    &&& s == Err::<(), SocketError>(error_of(
                        *t,
                        Operation::SetOption(old(self).writes()[old(self).done() as int].option()),
                        c,
                    ))
                    &&& final(self).done() == old(self).done()
                    &&& final(self).failed()
                },
            },
    {
        let n = self.writes.len();
        assert(self.done < n);
        match r {
            Ok(()) => {
                self.done = self.done + 1;
                Ok(())
            },
            Err(c) => {
                let o = self.writes[self.done].option();
                self.failed = true;
                Err(t.classify(Operation::SetOption(o), c))
            },
        }
    }
}

/// After keepalive is set with an idle time, the switch is on and the idle
/// time is the one asked for: never on with a stale idle time.
pub proof fn keepalive_enable_sets_both(s: OptionState, n: u32)
    ensures
        apply_all(s, keepalive_plan(Some(n))) == (OptionState { keepalive: true, keep_idle: Some(n), ..s }),
{
    let p = keepalive_plan(Some(n));
    assert(p.drop_last().drop_last() =~= Seq::<OptionWrite>::empty());
    assert(apply_all(s, p.drop_last().drop_last()) == s);
    assert(apply_all(s, p.drop_last()) == apply(s, OptionWrite::KeepAlive(true)));
}

/// Clearing keepalive turns the switch off and touches nothing else.
pub proof fn keepalive_disable_clears_switch(s: OptionState)
    ensures
        apply_all(s, keepalive_plan(None)) == (OptionState { keepalive: false, ..s }),
{
    assert(keepalive_plan(None).drop_last() =~= Seq::<OptionWrite>::empty());
    assert(apply_all(s, keepalive_plan(None).drop_last()) == s);
}

/// Enabling keepalive and then clearing it leaves the switch off.
pub proof fn keepalive_enable_then_disable(s: OptionState, n: u32)
    ensures
        !apply_all(apply_all(s, keepalive_plan(Some(n))), keepalive_plan(None)).keepalive,
{
    keepalive_enable_sets_both(s, n);
    keepalive_disable_clears_switch(apply_all(s, keepalive_plan(Some(n))));
}

/// When enabling keepalive fails at the idle time, after the switch went on,
/// the switch stays on with the earlier idle time: no rollback is attempted.
pub proof fn keepalive_enable_failing_late(s: OptionState, n: u32)
    ensures
        apply_all(s, keepalive_plan(Some(n)).take(1)) == (OptionState { keepalive: true, ..s }),
{
    let p = keepalive_plan(Some(n)).take(1);
    assert(p.drop_last() =~= Seq::<OptionWrite>::empty());
    assert(apply_all(s, p.drop_last()) == s);
    assert(p.last() == OptionWrite::KeepAlive(true));
}

} // verus!

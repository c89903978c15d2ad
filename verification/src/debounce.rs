//! The debounce/timeout loop's state machine. The caller's thread runs the
//! loop: each tick it sleeps for the step interval, gathers the inputs that
//! only it can observe (an interrupt, the stop condition, the clock), and
//! hands them to `tick`, which decides the outcome and applies its effect to
//! the aggregator. The sleep and the observations stay outside this crate;
//! every decision is made here.

use vstd::prelude::*;

use crate::aggregator::ChangeAggregator;
use crate::changes::batch_of;
use crate::changes::ChangeKind;
use crate::changes::ChangeRecord;

verus! {

/// A deadline `delta` milliseconds after `now`, saturating at the end of the
/// clock's range, which a finite wait never reaches.
pub open spec fn spec_deadline(now: u64, delta: u64) -> u64 {
    if now + delta <= u64::MAX {
        (now + delta) as u64
    } else {
        u64::MAX
    }
}

fn deadline_after(now: u64, delta: u64) -> (d: u64)
    ensures
        d == spec_deadline(now, delta),
{
    if now <= u64::MAX - delta {
        now + delta
    } else {
        u64::MAX
    }
}

/// What one poll tick produced.
#[derive(Debug)]
pub enum TickOutcome {
    /// Nothing decided yet: poll again after the next step interval.
    Continue,
    /// An interrupt was delivered to the calling process; the batch was
    /// discarded.
    Signal,
    /// The error slot was set; the batch was discarded and the message is
    /// surfaced to the caller.
    Failed(String),
    /// The caller's stop condition was asserted; the batch was discarded.
    Stop,
    /// Nothing was ever recorded and the configured timeout elapsed.
    Timeout,
    /// The batch settled, or hit the debounce ceiling, and is handed over;
    /// it is never empty.
    Batch(Vec<ChangeRecord>),
}

/// The decision a tick takes, separated from the data its outcome carries.
#[derive(Clone, Copy, PartialEq, Eq, Structural, Debug)]
pub enum TickDisposition {
    KeepWaiting,
    Interrupted,
    SurfaceError,
    Stopped,
    TimedOut,
    DeliverBatch,
}

impl TickOutcome {
    /// The sentinel token that a batchless returning outcome shows at the
    /// library boundary; outcomes that carry data, or decide nothing, have
    /// none.
    pub fn sentinel_token(&self) -> (t: Option<&'static str>)
        ensures
            match *self {
                TickOutcome::Signal => t matches Some(s) && s@ == "signal"@,
                TickOutcome::Stop => t matches Some(s) && s@ == "stop"@,
                TickOutcome::Timeout => t matches Some(s) && s@ == "timeout"@,
                _ => t is None,
            },
    {
        match self {
            TickOutcome::Signal => Some("signal"),
            TickOutcome::Stop => Some("stop"),
            TickOutcome::Timeout => Some("timeout"),
            _ => None,
        }
    }
}

/// The disposition that an outcome embodies.
pub open spec fn disposition_of(out: TickOutcome) -> TickDisposition {
    match out {
        TickOutcome::Continue => TickDisposition::KeepWaiting,
        TickOutcome::Signal => TickDisposition::Interrupted,
        TickOutcome::Failed(_) => TickDisposition::SurfaceError,
        TickOutcome::Stop => TickDisposition::Stopped,
        TickOutcome::Timeout => TickDisposition::TimedOut,
        TickOutcome::Batch(_) => TickDisposition::DeliverBatch,
    }
}

/// The decision rule of the loop, checked in this order: an interrupt wins
/// over everything; a recorded error supersedes every later check; then the
/// stop condition; then a non-empty batch is delivered once it stopped
/// growing for one full tick or once the debounce ceiling elapsed; an empty
/// batch times out only when a timeout is configured and its deadline has
/// passed; otherwise the loop keeps waiting.
pub open spec fn tick_disposition(
    signal: bool,
    has_error: bool,
    stopped: bool,
    size: nat,
    last_size: nat,
    debounce_deadline: Option<u64>,
    timeout_deadline: Option<u64>,
    now: u64,
) -> TickDisposition {
    if signal {
        TickDisposition::Interrupted
    } else if has_error {
        TickDisposition::SurfaceError
    } else if stopped {
        TickDisposition::Stopped
    } else if size > 0 {
        if size == last_size {
            TickDisposition::DeliverBatch
        } else {
            match debounce_deadline {
                Some(d) => if now > d {
                    TickDisposition::DeliverBatch
                } else {
                    TickDisposition::KeepWaiting
                },
                None => TickDisposition::KeepWaiting,
            }
        }
    } else {
        match timeout_deadline {
            Some(t) => if now > t {
                TickDisposition::TimedOut
            } else {
                TickDisposition::KeepWaiting
            },
            None => TickDisposition::KeepWaiting,
        }
    }
}

/// Law (debounce growth): a tick delivers the batch exactly when, with no
/// interrupt, error or stop pending, the batch is non-empty and either did
/// not grow since the previous tick or the armed debounce ceiling has
/// elapsed — whichever of the two comes first.
pub proof fn lemma_batch_delivery(
    signal: bool,
    has_error: bool,
    stopped: bool,
    size: nat,
    last_size: nat,
    debounce_deadline: Option<u64>,
    timeout_deadline: Option<u64>,
    now: u64,
)
    ensures
        (tick_disposition(
            signal,
            has_error,
            stopped,
            size,
            last_size,
            debounce_deadline,
            timeout_deadline,
            now,
        ) == TickDisposition::DeliverBatch) <==> {
            &&& !signal
            &&& !has_error
            &&& !stopped
            &&& size > 0
            &&& (size == last_size || (match debounce_deadline {
                Some(d) => now > d,
                None => false,
            }))
        },
{
}

/// Law (idle timeout): with nothing ever recorded, a tick times out exactly
/// when no interrupt, error or stop precedes it, a timeout is configured, and
/// its deadline has passed — never earlier.
pub proof fn lemma_idle_timeout(
    signal: bool,
    has_error: bool,
    stopped: bool,
    last_size: nat,
    debounce_deadline: Option<u64>,
    timeout_deadline: Option<u64>,
    now: u64,
)
    ensures
        (tick_disposition(
            signal,
            has_error,
            stopped,
            0,
            last_size,
            debounce_deadline,
            timeout_deadline,
            now,
        ) == TickDisposition::TimedOut) <==> {
            &&& !signal
            &&& !has_error
            &&& !stopped
            &&& match timeout_deadline {
                Some(t) => now > t,
                None => false,
            }
        },
{
}

/// Law (cancellation): with no interrupt and no pending error, an asserted
/// stop condition ends the tick with the stop outcome, whatever the batch
/// holds; `tick` then leaves the aggregator's batch empty.
pub proof fn lemma_stop_responds(
    size: nat,
    last_size: nat,
    debounce_deadline: Option<u64>,
    timeout_deadline: Option<u64>,
    now: u64,
)
    ensures
        tick_disposition(
            false,
            false,
            true,
            size,
            last_size,
            debounce_deadline,
            timeout_deadline,
            now,
        ) == TickDisposition::Stopped,
{
}

/// Law (error precedence): when a recorded error and an asserted stop
/// condition are present in the same tick, the error outcome wins. An
/// interrupt delivered in that tick would win over both, so none is assumed.
pub proof fn lemma_error_precedes_stop(
    stopped: bool,
    size: nat,
    last_size: nat,
    debounce_deadline: Option<u64>,
    timeout_deadline: Option<u64>,
    now: u64,
)
    ensures
        tick_disposition(
            false,
            true,
            stopped,
            size,
            last_size,
            debounce_deadline,
            timeout_deadline,
            now,
        ) == TickDisposition::SurfaceError,
{
}

/// The loop-local state of one watch invocation.
pub struct DebounceState {
    /// Hard cap on further waiting, armed when the first record of the batch
    /// arrives; unset until then.
    pub debounce_deadline: Option<u64>,
    /// How many records the previous tick saw.
    pub last_size: usize,
    /// When an always-empty watch gives up; `None` disables the timeout.
    pub timeout_deadline: Option<u64>,
    /// The debounce ceiling duration, in milliseconds.
    pub debounce_ms: u64,
}

impl DebounceState {
    /// State at loop entry: no growth seen yet, the debounce ceiling not yet
    /// armed, and the timeout deadline computed once from `now_ms` — or
    /// disabled when `timeout_ms` is zero.
    pub fn new(debounce_ms: u64, timeout_ms: u64, now_ms: u64) -> (s: DebounceState)
        ensures
            s.debounce_deadline is None,
            s.last_size == 0,
            s.debounce_ms == debounce_ms,
            s.timeout_deadline == (if timeout_ms == 0 {
                Option::<u64>::None
            } else {
                Some(spec_deadline(now_ms, timeout_ms))
            }),
    {
        let timeout_deadline = if timeout_ms == 0 {
            None
        } else {
            Some(deadline_after(now_ms, timeout_ms))
        };
        DebounceState { debounce_deadline: None, last_size: 0, timeout_deadline, debounce_ms }
    }

    /// One tick of the loop: decide the outcome from this tick's inputs and
    /// apply its effect to the aggregator.
    ///
    /// `signal` reports an interrupt delivered to the calling process,
    /// `stopped` the caller's stop condition, `now_ms` the clock. Exactly one
    /// disposition results, as `tick_disposition` states. A surfaced error
    /// empties the error slot, so the watcher stays usable afterwards; every
    /// returning outcome leaves the batch empty for the next invocation; a
    /// delivered batch is the accumulated set of changes and is never empty.
    pub fn tick(&mut self, agg: &mut ChangeAggregator, signal: bool, stopped: bool, now_ms: u64) -> (out:
        TickOutcome)
        requires
            old(agg).wf(),
        ensures
            final(agg).wf(),
            disposition_of(out) == tick_disposition(
                signal,
                old(agg).error_view() is Some,
                stopped,
                old(agg).batch_size(),
                old(self).last_size as nat,
                old(self).debounce_deadline,
                old(self).timeout_deadline,
                now_ms,
            ),
            out is Signal || out is Stop || out is Timeout ==> {
                &&& final(agg).batch() == Set::<(ChangeKind, Seq<char>)>::empty()
                &&& final(agg).batch_size() == 0
                &&& final(agg).error_view() == old(agg).error_view()
            },
            out matches TickOutcome::Failed(m) ==> {
                &&& old(agg).error_view() == Some(m@)
                &&& final(agg).batch() == Set::<(ChangeKind, Seq<char>)>::empty()
                &&& final(agg).error_view() is None
            },
            out matches TickOutcome::Batch(v) ==> {
                &&& batch_of(v@) == old(agg).batch()
                &&& v@.len() == old(agg).batch_size()
                &&& v@.len() > 0
                &&& final(agg).batch() == Set::<(ChangeKind, Seq<char>)>::empty()
                &&& final(agg).batch_size() == 0
                &&& final(agg).error_view() == old(agg).error_view()
            },
            out is Continue ==> {
                &&& final(agg).batch() == old(agg).batch()
                &&& final(agg).batch_size() == old(agg).batch_size()
                &&& final(agg).error_view() == old(agg).error_view()
            },
            out is Continue ==> final(self).debounce_ms == old(self).debounce_ms && final(
                self).timeout_deadline == old(self).timeout_deadline,
            out is Continue && old(agg).batch_size() == 0 ==> *final(self) == *old(self),
            out is Continue && old(agg).batch_size() > 0 ==> {
                &&& final(self).last_size as nat == old(agg).batch_size()
                &&& final(self).debounce_deadline == (if old(self).debounce_deadline is Some {
                    old(self).debounce_deadline
                } else {
                    Some(spec_deadline(now_ms, old(self).debounce_ms))
                })
            },
    {
        if signal {
            agg.clear();
            return TickOutcome::Signal;
        }
        match agg.take_error() {
            Some(message) => {
                agg.clear();
                return TickOutcome::Failed(message);
            },
            None => {},
        }
        if stopped {
            agg.clear();
            return TickOutcome::Stop;
        }
        let size = agg.len();
        if size > 0 {
            if size == self.last_size {
                let batch = agg.snapshot_and_clear();
                return TickOutcome::Batch(batch);
            }
            self.last_size = size;
            match self.debounce_deadline {
                Some(deadline) => {
                    if now_ms > deadline {
                        let batch = agg.snapshot_and_clear();
                        return TickOutcome::Batch(batch);
                    }
                },
                None => {
                    self.debounce_deadline = Some(deadline_after(now_ms, self.debounce_ms));
                },
            }
            TickOutcome::Continue
        } else {
            match self.timeout_deadline {
                Some(deadline) => {
                    if now_ms > deadline {
                        agg.clear();
                        return TickOutcome::Timeout;
                    }
                },
                None => {},
            }
            TickOutcome::Continue
        }
    }
}

} // verus!

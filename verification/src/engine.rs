//! The engine: process-wide configuration, the producer-side `log`
//! operation, and the flush pipeline as an explicit state machine.
//!
//! The engine is pure state. Everything it decides — which line to echo,
//! which record fires the trigger, which file a line lands in, when to
//! rotate, what a drain may still flush and what it must drop — is stated
//! in contracts and verified. The process around it performs the console,
//! file and clock work and feeds outcomes back in as plain values.

use vstd::prelude::*;
use crate::record::{Record, views_of, line_of};
use crate::record::format_record;
use crate::rotation::{RotationPolicy, FileState, FileStateView, FileSize, WriteCmd, spec_plan};
use crate::rotation::{WriteCmdView, byte_len, spec_append, lemma_plan_keeps_lines};
use crate::text::{lower_seq, to_lower};
use vstd::string::StringSliceAdditionalSpecFns;

verus! {

/// How many records the queue holds before producers are pushed back.
/// The queue is bounded on purpose: an unbounded one would grow without
/// limit under producer bursts.
pub const QUEUE_CAPACITY: usize = 4096;

/// The engine's lifecycle. Configuration may happen before the pipeline
/// runs; a drain ends it; after `Stopped` nothing is accepted any more.
#[derive(PartialEq, Eq, Structural, Clone, Copy, Debug)]
pub enum EngineState {
    Uninitialized,
    Configured,
    Running,
    Draining,
    Stopped,
}

/// The error taxonomy of the engine.
#[derive(PartialEq, Eq, Structural, Clone, Copy, Debug)]
pub enum LogError {
    /// The backing directory or file could not be prepared at
    /// configuration time.
    Config,
    /// A write or rotation failed at runtime; raised by the process
    /// around the engine, whose batch then counts as dropped.
    Io,
    /// The bounded queue is saturated.
    QueueFull,
    /// An operation arrived after teardown.
    EngineStopped,
    /// A registered trigger hook failed; the failure is isolated and never
    /// fails the `log` call that fired it.
    TriggerHook,
}

/// What one accepted `log` call asks the calling thread to do, before the
/// call returns: echo the formatted line to the console, if echo is on,
/// and invoke the trigger hook with the record, if its severity matches.
pub struct LogOutcome {
    pub echo: Option<String>,
    pub trigger: Option<Record>,
}

/// What a final drain reports: how many records it persisted within its
/// allowance, and how many the engine dropped — the one explicit, bounded
/// data-loss policy of the system.
pub struct DrainReport {
    pub flushed: u64,
    pub dropped: u64,
}

/// The process-wide logging engine.
pub struct Engine {
    pub state: EngineState,
    pub console_echo: bool,
    pub policy: Option<RotationPolicy>,
    pub file: FileState,
    pub trigger_level: Option<String>,
    pub queue: Vec<Record>,
    pub flush_interval_ms: u64,
    pub batch_threshold: usize,
    pub dropped: u64,
    pub trigger_failures: u64,
}

/// The formatted lines of a sequence of records, in order.
pub open spec fn lines_of(recs: Seq<Record>) -> Seq<Seq<char>> {
    Seq::new(recs.len(), |i: int| line_of(recs[i]@))
}

/// The mathematical images of a sequence of write commands, in order.
pub open spec fn cmd_views(cmds: Seq<WriteCmd>) -> Seq<WriteCmdView> {
    Seq::new(cmds.len(), |i: int| cmds[i]@)
}

/// Law: no loss, no duplication. However many producers interleaved while
/// filling the queue, draining it plans exactly one line per queued
/// record, in enqueue order — so after `n` producers have logged `m`
/// records each, the files receive exactly `n * m` lines.
pub proof fn lemma_drain_no_loss(s: FileStateView, max: int, recs: Seq<Record>)
    ensures
        spec_plan(s, max, lines_of(recs)).0.len() == recs.len(),
        forall|i: int| 0 <= i < recs.len() ==> #[trigger] spec_plan(s, max, lines_of(recs)).0[
            i
        ].line == line_of(recs[i]@),
{
    lemma_plan_keeps_lines(s, max, lines_of(recs));
}

/// The trigger decision: a record at severity `level` fires exactly when a
/// trigger severity is configured and equals the case-normal form of
/// `level`. The configured severity is itself stored case-normalised.
pub open spec fn trigger_fires(configured: Option<Seq<char>>, level: Seq<char>) -> bool {
    configured matches Some(t) && t == lower_seq(level)
}

/// Law: trigger fidelity. After configuring severity `c`, a record logged
/// at severity `l` fires the hook exactly when the case-normal forms of
/// `l` and `c` agree — whatever the case either was written in — and with
/// no trigger configured nothing ever fires.
pub proof fn lemma_trigger_fidelity(c: Seq<char>, l: Seq<char>)
    ensures
        trigger_fires(Some(lower_seq(c)), l) <==> lower_seq(l) == lower_seq(c),
        !trigger_fires(None, l),
{
}

impl Engine {
    /// The engine's invariant: a configured policy has a positive limit,
    /// the trigger severity is stored case-normal, the queue respects its
    /// bound and holds only well-formed records.
    pub open spec fn wf(self) -> bool {
        &&& (self.policy matches Some(p) ==> p.wf())
        &&& (self.trigger_level matches Some(t) ==> t@ == lower_seq(t@))
        &&& self.queue@.len() <= QUEUE_CAPACITY
        &&& (forall|i: int| 0 <= i < self.queue@.len() ==> (#[trigger] self.queue@[i]@).wf())
    }

    /// The configuration fields that plain state transitions leave alone.
    pub open spec fn same_config(self, other: Engine) -> bool {
        &&& self.console_echo == other.console_echo
        &&& self.policy == other.policy
        &&& self.trigger_level == other.trigger_level
        &&& self.flush_interval_ms == other.flush_interval_ms
        &&& self.batch_threshold == other.batch_threshold
    }

    /// The counters that most transitions leave alone.
    pub open spec fn same_counters(self, other: Engine) -> bool {
        &&& self.dropped == other.dropped
        &&& self.trigger_failures == other.trigger_failures
    }

    /// A fresh engine: nothing configured, nothing queued, nothing lost.
    pub fn new() -> (e: Engine)
        ensures
            e.wf(),
            e.state == EngineState::Uninitialized,
            !e.console_echo,
            e.policy is None,
            e.trigger_level is None,
            e.queue@.len() == 0,
            e.flush_interval_ms == 0,
            e.batch_threshold == 0,
            e.dropped == 0,
            e.trigger_failures == 0,
    {
        Engine {
            state: EngineState::Uninitialized,
            console_echo: false,
            policy: None,
            file: FileState { bytes_written: 0, sequence_index: 0 },
            trigger_level: None,
            queue: Vec::new(),
            flush_interval_ms: 0,
            batch_threshold: 0,
            dropped: 0,
            trigger_failures: 0,
        }
    }

    /// Switch the immediate console echo on or off. Idempotent; affects
    /// only records logged afterwards.
    pub fn set_console_echo(&mut self, enabled: bool)
        ensures
            final(self).console_echo == enabled,
            final(self).state == old(self).state,
            final(self).policy == old(self).policy,
            final(self).file == old(self).file,
            final(self).trigger_level == old(self).trigger_level,
            final(self).queue == old(self).queue,
            final(self).flush_interval_ms == old(self).flush_interval_ms,
            final(self).batch_threshold == old(self).batch_threshold,
            old(self).same_counters(*final(self)),
            old(self).wf() ==> final(self).wf(),
    {
        self.console_echo = enabled;
    }

    /// Set or clear the severity that synchronously invokes the trigger
    /// hook. The severity is stored case-normalised.
    pub fn set_trigger_level(&mut self, level: Option<String>)
        ensures
            level is None ==> final(self).trigger_level is None,
            level matches Some(l) ==> final(self).trigger_level matches Some(t) && t@
                == lower_seq(l@),
            final(self).state == old(self).state,
            final(self).console_echo == old(self).console_echo,
            final(self).policy == old(self).policy,
            final(self).file == old(self).file,
            final(self).queue == old(self).queue,
            final(self).flush_interval_ms == old(self).flush_interval_ms,
            final(self).batch_threshold == old(self).batch_threshold,
            old(self).same_counters(*final(self)),
            old(self).wf() ==> final(self).wf(),
    {
        match level {
            None => {
                self.trigger_level = None;
            },
            Some(l) => {
                let lowered = to_lower(l.as_str());
                proof {
                    crate::text::lemma_lower_idempotent(l@);
                }
                self.trigger_level = Some(lowered);
            },
        }
    }

    /// Install (or replace) the rotating-file policy. The process around
    /// the engine prepares the backing directory and the active file first
    /// and reports the outcome in `directory_ready` and, for a reopened
    /// file, its current size in `existing_bytes`. A failed preparation is
    /// a configuration error and changes nothing, so the engine cannot
    /// reach `Running` on a bad directory; after teardown nothing can be
    /// configured any more. Replacing an earlier policy starts a fresh
    /// file state; the process closes the prior handle (flush before
    /// close) when it swaps the files.
    pub fn configure_rotating_file(
        &mut self,
        base_name: String,
        max_size: FileSize,
        directory_ready: bool,
        existing_bytes: u64,
    ) -> (r: Result<(), LogError>)
        requires
            old(self).wf(),
            0 < max_size.spec_bytes() <= u64::MAX,
        ensures
            final(self).wf(),
            old(self).state == EngineState::Stopped ==> (r matches Err(e) && e
                == LogError::EngineStopped && *final(self) == *old(self)),
            old(self).state != EngineState::Stopped && !directory_ready ==> (r matches Err(e) && e
                == LogError::Config && *final(self) == *old(self)),
            old(self).state != EngineState::Stopped && directory_ready ==> {
                &&& r is Ok
                &&& final(self).policy matches Some(p) && p.base_name@ == base_name@
                    && p.max_bytes == max_size.spec_bytes()
                &&& final(self).file@ == (FileStateView {
                    bytes_written: existing_bytes as int,
                    sequence_index: 0,
                })
                &&& final(self).state == (if old(self).state == EngineState::Uninitialized {
                    EngineState::Configured
                } else {
                    old(self).state
                })
                &&& final(self).console_echo == old(self).console_echo
                &&& final(self).trigger_level == old(self).trigger_level
                &&& final(self).queue == old(self).queue
                &&& final(self).flush_interval_ms == old(self).flush_interval_ms
                &&& final(self).batch_threshold == old(self).batch_threshold
                &&& old(self).same_counters(*final(self))
            },
    {
        if self.state == EngineState::Stopped {
            return Err(LogError::EngineStopped);
        }
        if !directory_ready {
            return Err(LogError::Config);
        }
        let max_bytes = max_size.to_bytes();
        self.policy = Some(RotationPolicy { base_name, max_bytes });
        self.file = FileState { bytes_written: existing_bytes, sequence_index: 0 };
        if self.state == EngineState::Uninitialized {
            self.state = EngineState::Configured;
        }
        Ok(())
    }

    /// Start the background pipeline: fix the consumer's wake policy and
    /// enter `Running`. Records buffered before the start stay queued and
    /// are drained like any others. Starting a draining or stopped engine
    /// is an operation after teardown and is refused.
    pub fn start(&mut self, flush_interval_ms: u64, batch_threshold: usize) -> (r: Result<
        (),
        LogError,
    >)
        requires
            old(self).wf(),
        ensures
            final(self).wf(),
            old(self).state == EngineState::Draining || old(self).state == EngineState::Stopped
                ==> (r matches Err(e) && e == LogError::EngineStopped && *final(self) == *old(
                self,
            )),
            old(self).state != EngineState::Draining && old(self).state != EngineState::Stopped
                ==> {
                &&& r is Ok
                &&& final(self).state == EngineState::Running
                &&& final(self).flush_interval_ms == flush_interval_ms
                &&& final(self).batch_threshold == batch_threshold
                &&& final(self).console_echo == old(self).console_echo
                &&& final(self).policy == old(self).policy
                &&& final(self).file == old(self).file
                &&& final(self).trigger_level == old(self).trigger_level
                &&& final(self).queue == old(self).queue
                &&& old(self).same_counters(*final(self))
            },
    {
        if self.state == EngineState::Draining || self.state == EngineState::Stopped {
            return Err(LogError::EngineStopped);
        }
        self.flush_interval_ms = flush_interval_ms;
        self.batch_threshold = batch_threshold;
        self.state = EngineState::Running;
        Ok(())
    }

    /// Accept one record from a producer. The record is built with the
    /// level case-normalised and appended to the queue — records buffered
    /// before `start` stay in memory until the pipeline runs. The outcome
    /// tells the calling thread what to do synchronously, before its `log`
    /// call is over: echo the formatted line if echo is on, and invoke the
    /// trigger hook exactly when the severity matches the configured one.
    /// A stopped engine refuses the record; so does a saturated queue, and
    /// then nothing is echoed and nothing fires.
    pub fn log(
        &mut self,
        tags: Vec<String>,
        message: String,
        level: String,
        timestamp: u64,
    ) -> (r: Result<LogOutcome, LogError>)
        requires
            old(self).wf(),
            tags@.len() > 0,
        ensures
            final(self).wf(),
            old(self).state == EngineState::Stopped ==> (r matches Err(e) && e
                == LogError::EngineStopped && *final(self) == *old(self)),
            old(self).state != EngineState::Stopped && old(self).queue@.len() >= QUEUE_CAPACITY
                ==> (r matches Err(e) && e == LogError::QueueFull && *final(self) == *old(self)),
            old(self).state != EngineState::Stopped && old(self).queue@.len() < QUEUE_CAPACITY
                ==> (r matches Ok(out) && {
                let rec = final(self).queue@.last()@;
                &&& final(self).queue@.len() == old(self).queue@.len() + 1
                &&& final(self).queue@.take(old(self).queue@.len() as int) == old(self).queue@
                &&& rec.tags == views_of(tags@)
                &&& rec.level == lower_seq(level@)
                &&& rec.message == message@
                &&& rec.timestamp == timestamp as int
                &&& (out.echo is Some <==> old(self).console_echo)
                &&& (out.echo matches Some(l) ==> l@ == line_of(rec))
                &&& (out.trigger is Some <==> trigger_fires(
                    match old(self).trigger_level {
                        Some(t) => Some(t@),
                        None => None,
                    },
                    level@,
                ))
                &&& (out.trigger matches Some(t) ==> t@ == rec)
                &&& final(self).state == old(self).state
                &&& old(self).same_config(*final(self))
                &&& final(self).file == old(self).file
                &&& old(self).same_counters(*final(self))
            }),
    {
        if self.state == EngineState::Stopped {
            return Err(LogError::EngineStopped);
        }
        if self.queue.len() >= QUEUE_CAPACITY {
            return Err(LogError::QueueFull);
        }
        let lowered = to_lower(level.as_str());
        proof {
            crate::text::lemma_lower_idempotent(level@);
        }
        let rec = Record { tags, level: lowered, message, timestamp };
        let echo = if self.console_echo {
            Some(format_record(&rec))
        } else {
            None
        };
        let fires = match &self.trigger_level {
            Some(t) => *t == rec.level,
            None => false,
        };
        let trigger = if fires {
            Some(rec.duplicate())
        } else {
            None
        };
        self.queue.push(rec);
        Ok(LogOutcome { echo, trigger })
    }

    /// The consumer's wake policy: wake when the flush interval has
    /// elapsed or the queue has reached the batch threshold, whichever
    /// comes first.
    pub fn should_wake(&self, elapsed_ms: u64) -> (r: bool)
        ensures
            r == (elapsed_ms >= self.flush_interval_ms || self.queue@.len()
                >= self.batch_threshold),
    {
        elapsed_ms >= self.flush_interval_ms || self.queue.len() >= self.batch_threshold
    }

    /// One consumer wake-up: dequeue up to `max` records in arrival order,
    /// format each, and thread the file state through the per-line
    /// rotation decision. The returned commands are what the consumer
    /// thread performs against the file system, in order. The sequence
    /// bound keeps the rotation counter inside the machine word.
    pub fn drain_step(&mut self, max: usize) -> (cmds: Vec<WriteCmd>)
        requires
            old(self).wf(),
            old(self).state == EngineState::Running || old(self).state == EngineState::Draining,
            old(self).policy is Some,
            old(self).file@.sequence_index + old(self).queue@.len() <= u64::MAX,
        ensures
            final(self).wf(),
            ({
                let k = if max as int <= old(self).queue@.len() as int {
                    max as int
                } else {
                    old(self).queue@.len() as int
                };
                let plan = spec_plan(
                    old(self).file@,
                    old(self).policy->0.max_bytes as int,
                    lines_of(old(self).queue@.take(k)),
                );
                &&& cmd_views(cmds@) == plan.0
                &&& final(self).file@ == plan.1
                &&& final(self).queue@ == old(self).queue@.skip(k)
                &&& final(self).state == old(self).state
                &&& old(self).same_config(*final(self))
                &&& old(self).same_counters(*final(self))
            }),
    {
        let k = if max <= self.queue.len() {
            max
        } else {
            self.queue.len()
        };
        let max_bytes = match &self.policy {
            Some(p) => p.max_bytes,
            None => 0,
        };
        let ghost q0 = self.queue@;
        let ghost f0 = self.file@;
        let mut cmds: Vec<WriteCmd> = Vec::new();
        let mut i: usize = 0;
        while i < k
            invariant
                i <= k,
                k <= q0.len(),
                k <= max,
                self.queue@ == q0,
                self.state == old(self).state,
                self.policy == old(self).policy,
                self.console_echo == old(self).console_echo,
                self.trigger_level == old(self).trigger_level,
                self.flush_interval_ms == old(self).flush_interval_ms,
                self.batch_threshold == old(self).batch_threshold,
                self.dropped == old(self).dropped,
                self.trigger_failures == old(self).trigger_failures,
                max_bytes == old(self).policy->0.max_bytes,
                f0.sequence_index + q0.len() <= u64::MAX,
                self.file@.sequence_index <= f0.sequence_index + i,
                self.file@.bytes_written >= 0,
                cmd_views(cmds@) == spec_plan(
                    f0,
                    max_bytes as int,
                    lines_of(q0.take(i as int)),
                ).0,
                self.file@ == spec_plan(f0, max_bytes as int, lines_of(q0.take(i as int))).1,
            decreases k - i,
        {
            let line = format_record(&self.queue[i]);
            let sref = line.as_str();
            let l: u64 = sref.len() as u64;
            proof {
                assert(sref@ == line@);
                assert(l == byte_len(line@));
            }
            let ghost st = self.file@;
            let rotate = l > max_bytes || self.file.bytes_written > max_bytes - l;
            if rotate {
                self.file.sequence_index = self.file.sequence_index + 1;
                self.file.bytes_written = l;
            } else {
                self.file.bytes_written = self.file.bytes_written + l;
            }
            cmds.push(WriteCmd { rotate, sequence: self.file.sequence_index, line });
            proof {
                assert(rotate == (st.bytes_written + byte_len(line@) > max_bytes as int));
                assert((rotate, self.file@) == spec_append(st, max_bytes as int, byte_len(line@)));
                assert(q0.take(i + 1).drop_last() =~= q0.take(i as int));
                assert(lines_of(q0.take(i + 1)).drop_last() =~= lines_of(q0.take(i as int)));
                assert(lines_of(q0.take(i + 1)).last() == line_of(q0[i as int]@));
                assert(cmd_views(cmds@) =~= spec_plan(
                    f0,
                    max_bytes as int,
                    lines_of(q0.take(i + 1)),
                ).0);
            }
            i = i + 1;
        }
        let rest = self.queue.split_off(k);
        self.queue = rest;
        proof {
            assert(self.queue@ =~= q0.skip(k as int));
        }
        cmds
    }

    /// The final drain (`flush` with a timeout): persist up to `allowance`
    /// of the queued records, drop the rest, and stop the engine. The
    /// report says how many records this call persisted and how many the
    /// engine has dropped in total, counting batches the process reported
    /// as failed. Dropping on an exhausted allowance is the one explicit,
    /// bounded data-loss policy of the engine: dropped records are lost,
    /// not re-queued. Without a rotating-file policy there is nowhere to
    /// persist to, and every queued record is dropped.
    pub fn flush(&mut self, allowance: usize) -> (r: (Vec<WriteCmd>, DrainReport))
        requires
            old(self).wf(),
            old(self).policy is Some ==> old(self).file@.sequence_index + old(self).queue@.len()
                <= u64::MAX,
        ensures
            final(self).wf(),
            final(self).state == EngineState::Stopped,
            final(self).queue@.len() == 0,
            old(self).same_config(*final(self)),
            final(self).trigger_failures == old(self).trigger_failures,
            ({
                let k = if old(self).policy is Some {
                    if allowance as int <= old(self).queue@.len() as int {
                        allowance as int
                    } else {
                        old(self).queue@.len() as int
                    }
                } else {
                    0
                };
                let plan = spec_plan(
                    old(self).file@,
                    old(self).policy->0.max_bytes as int,
                    lines_of(old(self).queue@.take(k)),
                );
                let lost = old(self).queue@.len() - k;
                &&& (old(self).policy is Some ==> cmd_views(r.0@) == plan.0 && final(self).file@
                    == plan.1)
                &&& (old(self).policy is None ==> r.0@.len() == 0 && final(self).file == old(
                    self,
                ).file)
                &&& r.1.flushed == k
                &&& r.1.dropped as int == (if old(self).dropped + lost <= u64::MAX {
                    old(self).dropped + lost
                } else {
                    u64::MAX as int
                })
                &&& final(self).dropped == r.1.dropped
            }),
            allowance == 0 && old(self).queue@.len() > 0 ==> r.1.dropped > 0,
    {
        self.state = EngineState::Draining;
        let k = if self.policy.is_some() {
            if allowance <= self.queue.len() {
                allowance
            } else {
                self.queue.len()
            }
        } else {
            0
        };
        let cmds = if self.policy.is_some() {
            self.drain_step(allowance)
        } else {
            Vec::new()
        };
        let remaining = self.queue.len();
        self.queue.truncate(0);
        let rem64: u64 = remaining as u64;
        if rem64 > u64::MAX - self.dropped {
            self.dropped = u64::MAX;
        } else {
            self.dropped = self.dropped + rem64;
        }
        self.state = EngineState::Stopped;
        (cmds, DrainReport { flushed: k as u64, dropped: self.dropped })
    }

    /// Record that a whole batch of records could not be persisted — a
    /// write or rotation failed even after the retry — so the loss shows
    /// up in the next drain report instead of vanishing.
    pub fn note_batch_dropped(&mut self, n: u64)
        ensures
            final(self).dropped as int == (if old(self).dropped + n <= u64::MAX {
                old(self).dropped + n
            } else {
                u64::MAX as int
            }),
            final(self).state == old(self).state,
            final(self).file == old(self).file,
            final(self).queue == old(self).queue,
            final(self).trigger_failures == old(self).trigger_failures,
            old(self).same_config(*final(self)),
            old(self).wf() ==> final(self).wf(),
    {
        if n > u64::MAX - self.dropped {
            self.dropped = u64::MAX;
        } else {
            self.dropped = self.dropped + n;
        }
    }

    /// Record that a trigger hook invocation failed. The failure is
    /// isolated: it is counted here and nowhere else, so one broken alert
    /// channel cannot corrupt the pipeline.
    pub fn note_trigger_failure(&mut self)
        ensures
            final(self).trigger_failures as int == (if old(self).trigger_failures + 1 <= u64::MAX {
                old(self).trigger_failures + 1
            } else {
                u64::MAX as int
            }),
            final(self).state == old(self).state,
            final(self).file == old(self).file,
            final(self).queue == old(self).queue,
            final(self).dropped == old(self).dropped,
            old(self).same_config(*final(self)),
            old(self).wf() ==> final(self).wf(),
    {
        if self.trigger_failures < u64::MAX {
            self.trigger_failures = self.trigger_failures + 1;
        }
    }

    /// Where the engine stands in its lifecycle.
    pub fn engine_state(&self) -> (r: EngineState)
        ensures
            r == self.state,
    {
        self.state
    }

    /// How many records wait in the queue.
    pub fn queue_len(&self) -> (r: usize)
        ensures
            r == self.queue@.len(),
    {
        self.queue.len()
    }

    /// How many records the engine has dropped so far.
    pub fn dropped_count(&self) -> (r: u64)
        ensures
            r == self.dropped,
    {
        self.dropped
    }

    /// How many trigger hook invocations have failed so far.
    pub fn trigger_failure_count(&self) -> (r: u64)
        ensures
            r == self.trigger_failures,
    {
        self.trigger_failures
    }
}

} // verus!

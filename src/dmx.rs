//! The DMX512 transmission cycle as a state machine.
//!
//! Each cycle waits for the previous frame's idle deadline, asserts the
//! break, holds it for the break time, releases it, holds the mark for the
//! mark-after-break time, then writes the frame: a zero start code followed
//! by the channel values. The idle deadline is measured from the end of the
//! write. The caller reads the clock, performs each action on the adapter
//! and reports its outcome back.
use vstd::prelude::*;
use crate::frame::FrameBuffer;
use crate::ftd2xx::FTError;
use crate::timer::{sat_add, SleepStep, Timer};

verus! {

/// Where the cycle stands.
#[derive(Debug, Clone, Copy, PartialEq, Eq, Structural)]
pub enum Phase {
    /// Waiting for the idle deadline of the previous frame.
    Waiting,
    /// The break was requested; its outcome is awaited.
    BreakPending,
    /// The break is asserted until the given time.
    Break(u64),
    /// The break release was requested; its outcome is awaited.
    MarkPending,
    /// The mark after break lasts until the given time.
    Mark(u64),
    /// The frame write was requested; its outcome is awaited.
    Writing,
}

/// What the caller does next, before it steps the cycle again.
#[derive(Debug, Clone, Copy, PartialEq, Eq, Structural)]
pub enum Action {
    /// Sleep for the shortest time the system offers.
    Yield,
    /// Read the clock again at once.
    Spin,
    /// Assert the break condition on the line.
    SetBreakOn,
    /// Release the break condition.
    SetBreakOff,
    /// Write the whole frame in one call.
    WriteFrame,
    /// The frame went out: load the current channel values into the frame.
    LoadFrame,
}

/// The action that goes with a step of a wait that has not ended.
pub open spec fn wait_action(s: SleepStep) -> Action {
    if s == SleepStep::Yield {
        Action::Yield
    } else {
        Action::Spin
    }
}

/// The action of a wait until `till` at reading `now` that, once the
/// deadline is reached, requests `then`.
pub open spec fn wait_then(tolerance: u64, till: u64, now: u64, then: Action) -> Action {
    if now >= till {
        then
    } else {
        wait_action(crate::timer::sleep_step(tolerance, till, now))
    }
}

/// What a step of the cycle returns in phase `phase`, at reading `now`,
/// after `outcome`; `next` is the idle deadline and `tolerance`,
/// `break_time` and `mab_time` the timing of the transmitter.
pub open spec fn cycle_result(
    phase: Phase,
    next: u64,
    tolerance: u64,
    break_time: u64,
    mab_time: u64,
    now: u64,
    outcome: Result<(), FTError>,
) -> Result<Action, FTError> {
    match phase {
        Phase::Waiting => Ok(wait_then(tolerance, next, now, Action::SetBreakOn)),
        Phase::BreakPending => match outcome {
            Ok(_) => Ok(
                wait_then(
                    tolerance,
                    sat_add(now as int, break_time as int) as u64,
                    now,
                    Action::SetBreakOff,
                ),
            ),
            Err(e) => Err(e),
        },
        Phase::Break(until) => Ok(wait_then(tolerance, until, now, Action::SetBreakOff)),
        Phase::MarkPending => match outcome {
            Ok(_) => Ok(
                wait_then(
                    tolerance,
                    sat_add(now as int, mab_time as int) as u64,
                    now,
                    Action::WriteFrame,
                ),
            ),
            Err(e) => Err(e),
        },
        Phase::Mark(until) => Ok(wait_then(tolerance, until, now, Action::WriteFrame)),
        Phase::Writing => match outcome {
            Ok(_) => Ok(Action::LoadFrame),
            Err(e) => Err(e),
        },
    }
}

/// The phase after a wait until `till` at reading `now` that moves on to
/// `then` once the deadline is reached, staying in `waiting` before.
pub open spec fn phase_after_wait(till: u64, now: u64, then: Phase, waiting: Phase) -> Phase {
    if now >= till {
        then
    } else {
        waiting
    }
}

/// The phase that a step of the cycle leaves, with the arguments of
/// `cycle_result`.
pub open spec fn cycle_phase(
    phase: Phase,
    next: u64,
    break_time: u64,
    mab_time: u64,
    now: u64,
    outcome: Result<(), FTError>,
) -> Phase {
    match phase {
        Phase::Waiting => phase_after_wait(next, now, Phase::BreakPending, Phase::Waiting),
        Phase::BreakPending => if outcome is Ok {
            let until = sat_add(now as int, break_time as int) as u64;
            phase_after_wait(until, now, Phase::MarkPending, Phase::Break(until))
        } else {
            Phase::Waiting
        },
        Phase::Break(until) => phase_after_wait(until, now, Phase::MarkPending, phase),
        Phase::MarkPending => if outcome is Ok {
            let until = sat_add(now as int, mab_time as int) as u64;
            phase_after_wait(until, now, Phase::Writing, Phase::Mark(until))
        } else {
            Phase::Waiting
        },
        Phase::Mark(until) => phase_after_wait(until, now, Phase::Writing, phase),
        Phase::Writing => Phase::Waiting,
    }
}

/// Whether a step in `phase` after `outcome` ends the cycle: a frame write
/// or a line operation was reported, and either the write is done or the
/// operation failed.
pub open spec fn ends_cycle(phase: Phase, outcome: Result<(), FTError>) -> bool {
    phase == Phase::Writing || ((phase == Phase::BreakPending || phase == Phase::MarkPending)
        && outcome is Err)
}

/// `bound` lies at least `gap` after the start of the last frame write, if
/// there was one.
pub open spec fn after_write(last_write: Option<int>, bound: int, gap: int) -> bool {
    match last_write {
        Some(t) => bound >= sat_add(t, gap),
        None => true,
    }
}

/// A DMX512 transmitter: its timing, its frame and where its cycle stands.
pub struct DMX {
    timer: Timer,
    break_time: u64,
    mab_time: u64,
    idle_time: u64,
    next: u64,
    clock: u64,
    phase: Phase,
    data: Vec<u8>,
    last_write: Ghost<Option<int>>,
}

impl DMX {
    /// The frame: the start code and the channel values.
    pub closed spec fn frame(&self) -> Seq<u8> {
        self.data@
    }

    pub closed spec fn spec_phase(&self) -> Phase {
        self.phase
    }

    /// The latest clock reading the cycle was stepped with.
    pub closed spec fn spec_clock(&self) -> u64 {
        self.clock
    }

    /// When the current cycle may assert its break.
    pub closed spec fn spec_next(&self) -> u64 {
        self.next
    }

    /// The tolerance of the transmitter's timer.
    pub closed spec fn spec_tolerance(&self) -> u64 {
        self.timer.spec_tolerance()
    }

    pub closed spec fn spec_break_time(&self) -> u64 {
        self.break_time
    }

    pub closed spec fn spec_mab_time(&self) -> u64 {
        self.mab_time
    }

    pub closed spec fn spec_idle_time(&self) -> u64 {
        self.idle_time
    }

    /// The clock reading at which the last frame write was requested.
    pub closed spec fn last_write(&self) -> Option<int> {
        self.last_write@
    }

    /// The length of one whole cycle without its write: break, mark after
    /// break and idle time.
    pub open spec fn cycle_gap(&self) -> int {
        self.spec_break_time() + self.spec_mab_time() + self.spec_idle_time()
    }

    /// The frame holds the start code, and each deadline is at least as far
    /// from the last write as the part of the cycle before it.
    pub closed spec fn wf(&self) -> bool {
        let lw = self.last_write@;
        let i = self.idle_time as int;
        let b = self.break_time as int;
        let m = self.mab_time as int;
        &&& self.data@.len() >= 2
        &&& self.data@[0] == 0
        &&& match lw {
            Some(t) => 0 <= t <= self.clock,
            None => true,
        }
        &&& match self.phase {
            Phase::Waiting => after_write(lw, self.next as int, i),
            Phase::BreakPending => after_write(lw, self.clock as int, i),
            Phase::Break(until) => after_write(lw, until as int, i + b),
            Phase::MarkPending => after_write(lw, self.clock as int, i + b),
            Phase::Mark(until) => after_write(lw, until as int, i + b + m),
            Phase::Writing => lw == Some(self.clock as int),
        }
    }

    /// Every frame a well-formed transmitter holds, and so every frame it
    /// writes, begins with the zero start code ahead of its channels.
    pub proof fn lemma_frame_starts_with_zero(&self)
        requires
            self.wf(),
        ensures
            self.frame().len() >= 2,
            self.frame()[0] == 0,
    {
    }

    /// A transmitter of `size` channels, all at zero, whose first cycle may
    /// start at `now`.
    pub fn new(timer: Timer, size: usize, break_time: u64, mab_time: u64, idle_time: u64, now: u64) -> (r: DMX)
        requires
            1 <= size <= 512,
        ensures
            r.wf(),
            r.frame() == Seq::new((size + 1) as nat, |i: int| 0u8),
            r.spec_phase() == Phase::Waiting,
            r.spec_next() == now,
            r.spec_clock() == now,
            r.spec_break_time() == break_time,
            r.spec_mab_time() == mab_time,
            r.spec_idle_time() == idle_time,
            r.last_write() is None,
    {
        let mut data: Vec<u8> = Vec::new();
        let mut i: usize = 0;
        while i < size + 1
            invariant
                size <= 512,
                i <= size + 1,
                data@ == Seq::new(i as nat, |j: int| 0u8),
            decreases size + 1 - i,
        {
            data.push(0);
            i = i + 1;
            assert(data@ =~= Seq::new(i as nat, |j: int| 0u8));
        }
        DMX {
            timer,
            break_time,
            mab_time,
            idle_time,
            next: now,
            clock: now,
            phase: Phase::Waiting,
            data,
            last_write: Ghost(None),
        }
    }

    /// The frame as it will be written.
    pub fn frame_bytes(&self) -> (r: &[u8])
        ensures
            r@ == self.frame(),
    {
        self.data.as_slice()
    }

    /// Where the cycle stands.
    pub fn phase(&self) -> (r: Phase)
        ensures
            r == self.spec_phase(),
    {
        self.phase
    }

    /// Copies the channel values of `buffer` into the frame, after its start
    /// code.
    pub fn load(&mut self, buffer: &FrameBuffer)
        requires
            old(self).wf(),
            buffer@.len() + 1 == old(self).frame().len(),
        ensures
            final(self).wf(),
            final(self).frame() == seq![0u8] + buffer@,
            final(self).spec_phase() == old(self).spec_phase(),
            final(self).spec_clock() == old(self).spec_clock(),
            final(self).spec_next() == old(self).spec_next(),
            final(self).last_write() == old(self).last_write(),
            final(self).spec_break_time() == old(self).spec_break_time(),
            final(self).spec_mab_time() == old(self).spec_mab_time(),
            final(self).spec_idle_time() == old(self).spec_idle_time(),
    {
        let n = buffer.len();
        let mut i: usize = 0;
        while i < n
            invariant
                n == buffer@.len(),
                i <= n,
                self.data@.len() == n + 1,
                self.data@[0] == 0,
                forall|j: int| 1 <= j <= i ==> self.data@[j] == buffer@[j - 1],
                self.phase == old(self).phase,
                self.clock == old(self).clock,
                self.next == old(self).next,
                self.last_write == old(self).last_write,
                self.timer == old(self).timer,
                self.break_time == old(self).break_time,
                self.mab_time == old(self).mab_time,
                self.idle_time == old(self).idle_time,
                old(self).wf(),
            decreases n - i,
        {
            let v = buffer.get(i);
            self.data.set(i + 1, v);
            i = i + 1;
        }
        assert(self.data@ =~= seq![0u8] + buffer@);
    }

    /// Ends the cycle whose write, or whose failed line operation, was
    /// reported at `now`: the next break waits for the idle time from then.
    fn finish_cycle(&mut self, now: u64)
        requires
            old(self).wf(),
            now >= old(self).spec_clock(),
            old(self).spec_phase() != Phase::Waiting,
        ensures
            final(self).wf(),
            final(self).spec_phase() == Phase::Waiting,
            final(self).spec_clock() == now,
            final(self).spec_next() == sat_add(now as int, old(self).spec_idle_time() as int),
            final(self).last_write() == old(self).last_write(),
            final(self).frame() == old(self).frame(),
            final(self).spec_break_time() == old(self).spec_break_time(),
            final(self).spec_mab_time() == old(self).spec_mab_time(),
            final(self).spec_idle_time() == old(self).spec_idle_time(),
            final(self).spec_tolerance() == old(self).spec_tolerance(),
    {
        self.next = now.saturating_add(self.idle_time);
        self.clock = now;
        self.phase = Phase::Waiting;
    }

    /// Steps the cycle at clock reading `now`; `outcome` is how the last
    /// line operation requested went, and matters only while one is
    /// pending. A failed operation ends the cycle and is returned: the
    /// transmitter does not retry. A frame write is requested only once the
    /// break, the mark after break and the idle time since the previous
    /// write have all elapsed.
    pub fn step(&mut self, now: u64, outcome: Result<(), FTError>) -> (r: Result<Action, FTError>)
        requires
            old(self).wf(),
            now >= old(self).spec_clock(),
        ensures
            final(self).wf(),
            final(self).spec_clock() == now,
            final(self).frame() == old(self).frame(),
            final(self).spec_break_time() == old(self).spec_break_time(),
            final(self).spec_mab_time() == old(self).spec_mab_time(),
            final(self).spec_idle_time() == old(self).spec_idle_time(),
            final(self).spec_tolerance() == old(self).spec_tolerance(),
            r == cycle_result(
                old(self).spec_phase(),
                old(self).spec_next(),
                old(self).spec_tolerance(),
                old(self).spec_break_time(),
                old(self).spec_mab_time(),
                now,
                outcome,
            ),
            final(self).spec_phase() == cycle_phase(
                old(self).spec_phase(),
                old(self).spec_next(),
                old(self).spec_break_time(),
                old(self).spec_mab_time(),
                now,
                outcome,
            ),
            final(self).spec_next() == (if ends_cycle(old(self).spec_phase(), outcome) {
                sat_add(now as int, old(self).spec_idle_time() as int) as u64
            } else {
                old(self).spec_next()
            }),
            r is Err ==> {
                &&& (old(self).spec_phase() == Phase::BreakPending || old(self).spec_phase()
                    == Phase::MarkPending || old(self).spec_phase() == Phase::Writing)
                &&& outcome is Err
                &&& r == Err::<Action, FTError>(outcome->Err_0)
                &&& final(self).spec_phase() == Phase::Waiting
                &&& final(self).spec_next() == sat_add(now as int, old(self).spec_idle_time() as int)
            },
            r == Ok::<Action, FTError>(Action::WriteFrame) ==> {
                &&& final(self).spec_phase() == Phase::Writing
                &&& final(self).last_write() == Some(now as int)
                &&& after_write(old(self).last_write(), now as int, old(self).cycle_gap())
            },
            r == Ok::<Action, FTError>(Action::SetBreakOn) ==> {
                &&& old(self).spec_phase() == Phase::Waiting
                &&& now >= old(self).spec_next()
                &&& final(self).spec_phase() == Phase::BreakPending
            },
            r == Ok::<Action, FTError>(Action::SetBreakOff) ==> final(self).spec_phase()
                == Phase::MarkPending,
            r == Ok::<Action, FTError>(Action::LoadFrame) ==> {
                &&& old(self).spec_phase() == Phase::Writing
                &&& outcome is Ok
                &&& final(self).spec_phase() == Phase::Waiting
                &&& final(self).spec_next() == sat_add(now as int, old(self).spec_idle_time() as int)
            },
            old(self).spec_phase() == Phase::Waiting && now < old(self).spec_next() ==> {
                &&& r == Ok::<Action, FTError>(
                    wait_action(
                        crate::timer::sleep_step(
                            old(self).spec_tolerance(),
                            old(self).spec_next(),
                            now,
                        ),
                    ),
                )
                &&& final(self).spec_phase() == Phase::Waiting
            },
    {
        match self.phase {
            Phase::Waiting => {
                self.clock = now;
                self.wait_or(self.next, now, Phase::BreakPending, Action::SetBreakOn)
            },
            Phase::BreakPending => {
                if let Err(e) = outcome {
                    self.finish_cycle(now);
                    return Err(e);
                }
                self.clock = now;
                let until = now.saturating_add(self.break_time);
                self.phase = Phase::Break(until);
                self.wait_or(until, now, Phase::MarkPending, Action::SetBreakOff)
            },
            Phase::Break(until) => {
                self.clock = now;
                self.wait_or(until, now, Phase::MarkPending, Action::SetBreakOff)
            },
            Phase::MarkPending => {
                if let Err(e) = outcome {
                    self.finish_cycle(now);
                    return Err(e);
                }
                self.clock = now;
                let until = now.saturating_add(self.mab_time);
                self.phase = Phase::Mark(until);
                self.wait_or(until, now, Phase::Writing, Action::WriteFrame)
            },
            Phase::Mark(until) => {
                self.clock = now;
                self.wait_or(until, now, Phase::Writing, Action::WriteFrame)
            },
            Phase::Writing => {
                self.finish_cycle(now);
                match outcome {
                    Ok(()) => Ok(Action::LoadFrame),
                    Err(e) => Err(e),
                }
            },
        }
    }

    /// Waits for `till`: once the reading `now` reaches it, moves on to
    /// `then` and requests `action`.
    fn wait_or(&mut self, till: u64, now: u64, then: Phase, action: Action) -> (r: Result<Action, FTError>)
        ensures
            final(self).timer == old(self).timer,
            final(self).break_time == old(self).break_time,
            final(self).mab_time == old(self).mab_time,
            final(self).idle_time == old(self).idle_time,
            final(self).next == old(self).next,
            final(self).clock == old(self).clock,
            final(self).data == old(self).data,
            now >= till ==> {
                &&& r == Ok::<Action, FTError>(action)
                &&& final(self).phase == then
                &&& then == Phase::Writing ==> final(self).last_write@ == Some(old(self).clock as int)
                &&& then != Phase::Writing ==> final(self).last_write@ == old(self).last_write@
            },
            now < till ==> {
                &&& r == Ok::<Action, FTError>(
                    wait_action(crate::timer::sleep_step(old(self).timer.spec_tolerance(), till, now)),
                )
                &&& final(self).phase == old(self).phase
                &&& final(self).last_write@ == old(self).last_write@
            },
    {
        match self.timer.sleep(till, now) {
            SleepStep::Done => {
                self.phase = then;
                if then == Phase::Writing {
                    self.last_write = Ghost(Some(self.clock as int));
                }
                Ok(action)
            },
            SleepStep::Yield => Ok(Action::Yield),
            SleepStep::Spin => Ok(Action::Spin),
        }
    }
}

} // verus!

//! Juggling a user between two voice channels: the decisions of the
//! move-and-wait cycle, as a state machine. Whoever drives it performs each
//! action (a move, a one-tick wait) and hands back what happened; from the
//! first move of the cycle on, it also races the cycle against the job's
//! duration and reports the duration's end as an event.
use vstd::prelude::*;

verus! {

/// Why a juggle ended without reaching its duration.
#[derive(Debug, Clone, Copy, PartialEq, Eq, Structural)]
pub enum JuggleError {
    /// The guild of the request could not be resolved.
    GuildNotFound,
    /// The target has no voice presence in the guild.
    TargetNotInVoice,
    /// The platform refused to move the target.
    MoveFailed,
}

/// Where the job stands.
#[derive(Debug, Clone, Copy, PartialEq, Eq, Structural)]
pub enum Phase {
    /// The target sat in channel A and is being moved to B first.
    Aligning,
    /// Waiting one tick before the cycle starts.
    FirstWait,
    /// Moving the target to channel A.
    MovingToA,
    /// Waiting one tick after the move to A.
    WaitAfterA,
    /// Moving the target to channel B.
    MovingToB,
    /// Waiting one tick after the move to B.
    WaitAfterB,
    /// The duration ran out: the job succeeded.
    Done,
    /// A move failed: the job ended in failure.
    Failed,
}

/// What the driver is to do next.
#[derive(Debug, Clone, Copy, PartialEq, Eq, Structural)]
pub enum Action {
    /// Move the target to this channel.
    MoveTo(u64),
    /// Wait one tick.
    Wait,
    /// Report that the duration has elapsed; the job is over.
    ReportElapsed,
    /// Report this failure; the job is over.
    Fail(JuggleError),
}

/// What happened to the last action, or that the duration ran out.
#[derive(Debug, Clone, Copy, PartialEq, Eq, Structural)]
pub enum Event {
    /// The move went through.
    Moved,
    /// The platform refused the move.
    MoveRefused,
    /// The tick went by.
    Ticked,
    /// The job's duration ran out.
    Elapsed,
}

/// Whether the cycle is being raced against the duration in `phase`.
pub open spec fn racing(phase: Phase) -> bool {
    match phase {
        Phase::MovingToA | Phase::WaitAfterA | Phase::MovingToB | Phase::WaitAfterB => true,
        _ => false,
    }
}

/// Whether the job is over in `phase`.
pub open spec fn finished(phase: Phase) -> bool {
    phase == Phase::Done || phase == Phase::Failed
}

/// The phase after `event` in `phase`. A refused move ends the job; the end
/// of the duration ends it only while the cycle is raced against it; an
/// event that does not answer the pending action changes nothing.
pub open spec fn next_phase(phase: Phase, event: Event) -> Phase {
    if finished(phase) {
        phase
    } else if event == Event::MoveRefused {
        match phase {
            Phase::Aligning | Phase::MovingToA | Phase::MovingToB => Phase::Failed,
            _ => phase,
        }
    } else if event == Event::Elapsed {
        if racing(phase) {
            Phase::Done
        } else {
            phase
        }
    } else {
        match (phase, event) {
            (Phase::Aligning, Event::Moved) => Phase::FirstWait,
            (Phase::FirstWait, Event::Ticked) => Phase::MovingToA,
            (Phase::MovingToA, Event::Moved) => Phase::WaitAfterA,
            (Phase::WaitAfterA, Event::Ticked) => Phase::MovingToB,
            (Phase::MovingToB, Event::Moved) => Phase::WaitAfterB,
            (Phase::WaitAfterB, Event::Ticked) => Phase::MovingToA,
            _ => phase,
        }
    }
}

/// The action that `phase` asks for, with channels `a` and `b`.
pub open spec fn pending(phase: Phase, a: u64, b: u64) -> Action {
    match phase {
        Phase::Aligning => Action::MoveTo(b),
        Phase::FirstWait => Action::Wait,
        Phase::MovingToA => Action::MoveTo(a),
        Phase::WaitAfterA => Action::Wait,
        Phase::MovingToB => Action::MoveTo(b),
        Phase::WaitAfterB => Action::Wait,
        Phase::Done => Action::ReportElapsed,
        Phase::Failed => Action::Fail(JuggleError::MoveFailed),
    }
}

/// The phase a job starts in when the target sits in `current`.
pub open spec fn start_phase(current: u64, a: u64) -> Phase {
    if current == a {
        Phase::Aligning
    } else {
        Phase::FirstWait
    }
}

/// A job whose duration is over as soon as the race starts: after the
/// alignment move, when one is needed, and the one-tick wait, the cycle has
/// made its first move toward A pending, and the end of the duration then
/// ends the job with a report of success, with no further move.
pub proof fn lemma_zero_duration(current: u64, a: u64)
    ensures
        ({
            let p0 = start_phase(current, a);
            let p1 = if p0 == Phase::Aligning {
                next_phase(p0, Event::Moved)
            } else {
                p0
            };
            let p2 = next_phase(p1, Event::Ticked);
            &&& p1 == Phase::FirstWait
            &&& p2 == Phase::MovingToA
            &&& racing(p2)
            &&& next_phase(p2, Event::Elapsed) == Phase::Done
        }),
{
}

/// One juggle job: a target moved back and forth between two channels.
pub struct Juggler {
    pub channel_a: u64,
    pub channel_b: u64,
    pub phase: Phase,
}

impl Juggler {
    /// The action this job waits on.
    pub open spec fn pending_action(&self) -> Action {
        pending(self.phase, self.channel_a, self.channel_b)
    }

    /// Starts a job from what the guild shows of the target: fails with
    /// `GuildNotFound` when the guild is unknown, then with
    /// `TargetNotInVoice` when the target sits in no voice channel; nothing
    /// is moved then. A target in channel A is first moved to B; any other
    /// target starts with the one-tick wait.
    pub fn start(guild_found: bool, current: Option<u64>, channel_a: u64, channel_b: u64) -> (r:
        Result<(Juggler, Action), JuggleError>)
        ensures
            !guild_found ==> r == Err::<(Juggler, Action), JuggleError>(JuggleError::GuildNotFound),
            guild_found && current is None ==> r == Err::<(Juggler, Action), JuggleError>(
                JuggleError::TargetNotInVoice,
            ),
            r is Ok <==> guild_found && current is Some,
            r matches Ok((j, act)) ==> {
                &&& j.channel_a == channel_a
                &&& j.channel_b == channel_b
                &&& current matches Some(c) && j.phase == start_phase(c, channel_a)
                &&& act == j.pending_action()
            },
    {
        if !guild_found {
            return Err(JuggleError::GuildNotFound);
        }
        match current {
            None => Err(JuggleError::TargetNotInVoice),
            Some(c) => {
                let phase = if c == channel_a {
                    Phase::Aligning
                } else {
                    Phase::FirstWait
                };
                let j = Juggler { channel_a, channel_b, phase };
                let act = j.action();
                Ok((j, act))
            },
        }
    }

    /// The action this job waits on.
    pub fn action(&self) -> (r: Action)
        ensures
            r == self.pending_action(),
    {
        match self.phase {
            Phase::Aligning => Action::MoveTo(self.channel_b),
            Phase::FirstWait => Action::Wait,
            Phase::MovingToA => Action::MoveTo(self.channel_a),
            Phase::WaitAfterA => Action::Wait,
            Phase::MovingToB => Action::MoveTo(self.channel_b),
            Phase::WaitAfterB => Action::Wait,
            Phase::Done => Action::ReportElapsed,
            Phase::Failed => Action::Fail(JuggleError::MoveFailed),
        }
    }

    /// Whether the driver is to race the pending action against the end of
    /// the duration.
    pub fn is_racing(&self) -> (r: bool)
        ensures
            r == racing(self.phase),
    {
        match self.phase {
            Phase::MovingToA | Phase::WaitAfterA | Phase::MovingToB | Phase::WaitAfterB => true,
            _ => false,
        }
    }

    /// Whether the job is over.
    pub fn is_finished(&self) -> (r: bool)
        ensures
            r == finished(self.phase),
    {
        match self.phase {
            Phase::Done | Phase::Failed => true,
            _ => false,
        }
    }

    /// Takes in `event` and returns the next action.
    pub fn step(&mut self, event: Event) -> (r: Action)
        ensures
            final(self).channel_a == old(self).channel_a,
            final(self).channel_b == old(self).channel_b,
            final(self).phase == next_phase(old(self).phase, event),
            r == final(self).pending_action(),
    {
        let phase = self.phase;
        let next = match phase {
            Phase::Done | Phase::Failed => phase,
            _ => match event {
                Event::MoveRefused => match phase {
                    Phase::Aligning | Phase::MovingToA | Phase::MovingToB => Phase::Failed,
                    _ => phase,
                },
                Event::Elapsed => if self.is_racing() {
                    Phase::Done
                } else {
                    phase
                },
                Event::Moved => match phase {
                    Phase::Aligning => Phase::FirstWait,
                    Phase::MovingToA => Phase::WaitAfterA,
                    Phase::MovingToB => Phase::WaitAfterB,
                    _ => phase,
                },
                Event::Ticked => match phase {
                    Phase::FirstWait => Phase::MovingToA,
                    Phase::WaitAfterA => Phase::MovingToB,
                    Phase::WaitAfterB => Phase::MovingToA,
                    _ => phase,
                },
            },
        };
        self.phase = next;
        self.action()
    }
}

} // verus!

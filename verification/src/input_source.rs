//! The input source as a state machine: it waits for a key no longer than
//! until the next tick is due, passes every key on, and sends a tick for
//! every interval that has passed. Times are readings of one clock that
//! never runs backwards, in nanoseconds.

use vstd::prelude::*;
use crate::keys::Event;

verus! {

/// The tick interval that the program runs with: 200 milliseconds.
pub const DEFAULT_TICK_RATE: u64 = 200_000_000;

/// What the source is occupied with.
#[derive(Clone, Copy, Debug, PartialEq, Eq, Structural)]
pub enum SourcePhase {
    /// It waits for a key.
    Waiting,
    /// It passes a key on.
    SendingInput,
    /// It sends a tick.
    SendingTick,
    /// It has ended. Nothing leads out of this phase.
    Stopped,
}

/// What the program has to do for the source next.
#[derive(Clone, Copy, Debug, PartialEq, Eq)]
pub enum SourceAction<I> {
    /// Wait for a key, for this long at most, and report what came.
    Wait(u64),
    /// Send this event to the event loop, and report whether it got there.
    Send(Event<I>),
    /// Stop: nobody listens any more.
    Stop,
}

/// The input source: the interval between two ticks, the reading of the
/// clock at the last one, and what the source is occupied with.
#[derive(Clone, Copy, Debug, PartialEq, Eq)]
pub struct InputSource {
    /// The interval between two ticks.
    pub tick_rate: u64,
    /// When the last tick was sent, or when the source started.
    pub last_tick: u64,
    /// What the source is occupied with.
    pub phase: SourcePhase,
}

impl InputSource {
    /// The time that has passed since the last tick.
    pub open spec fn elapsed(self, now: u64) -> nat {
        if now >= self.last_tick {
            (now - self.last_tick) as nat
        } else {
            0
        }
    }

    /// The time that is left until the next tick is due; none, once it is.
    pub open spec fn remaining(self, now: u64) -> nat {
        if self.elapsed(now) < self.tick_rate {
            (self.tick_rate - self.elapsed(now)) as nat
        } else {
            0
        }
    }

    /// A tick is due: a whole interval has passed since the last one.
    pub open spec fn due(self, now: u64) -> bool {
        self.elapsed(now) >= self.tick_rate
    }

    /// The source that has ended.
    pub open spec fn stopped<I>(self) -> (InputSource, SourceAction<I>) {
        (InputSource { phase: SourcePhase::Stopped, ..self }, SourceAction::Stop)
    }

    /// What the source does when it has nothing to pass on: it sends a tick
    /// if one is due, and else waits for a key until one is.
    pub open spec fn on_idle<I>(self, now: u64) -> (InputSource, SourceAction<I>) {
        if self.due(now) {
            (
                InputSource { phase: SourcePhase::SendingTick, ..self },
                SourceAction::Send(Event::Tick),
            )
        } else {
            (
                InputSource { phase: SourcePhase::Waiting, ..self },
                SourceAction::Wait(self.remaining(now) as u64),
            )
        }
    }

    /// A source that starts at `now` and ticks every `tick_rate`: it begins
    /// by waiting for a key for a whole interval.
    pub open spec fn on_start<I>(tick_rate: u64, now: u64) -> (InputSource, SourceAction<I>) {
        (
            InputSource { tick_rate, last_tick: now, phase: SourcePhase::Waiting },
            SourceAction::Wait(tick_rate),
        )
    }

    /// The transition for the end of a wait at `now`. A key that came is
    /// passed on at once, and the deadline for the tick stays where it
    /// was. Without a key the source looks at the clock. A source that was
    /// not waiting has been misused and ends.
    pub open spec fn on_polled<I>(self, key: Option<I>, now: u64) -> (
        InputSource,
        SourceAction<I>,
    ) {
        match self.phase {
            SourcePhase::Waiting => match key {
                Some(key) => (
                    InputSource { phase: SourcePhase::SendingInput, ..self },
                    SourceAction::Send(Event::Input(key)),
                ),
                None => self.on_idle(now),
            },
            _ => self.stopped(),
        }
    }

    /// The transition for the end of a send at `now`. An event that did not
    /// get there ends the source. After a key the source looks at the
    /// clock. After a tick the next one is due one interval later, and the
    /// source waits for a key that long. A source that was not sending has
    /// been misused and ends.
    pub open spec fn on_sent<I>(self, delivered: bool, now: u64) -> (InputSource, SourceAction<I>) {
        match self.phase {
            SourcePhase::SendingInput => if delivered {
                self.on_idle(now)
            } else {
                self.stopped()
            },
            SourcePhase::SendingTick => if delivered {
                (
                    InputSource { last_tick: now, phase: SourcePhase::Waiting, ..self },
                    SourceAction::Wait(self.tick_rate),
                )
            } else {
                self.stopped()
            },
            _ => self.stopped(),
        }
    }

    /// Starts a source at `now` that ticks every `tick_rate`.
    pub fn start<I>(tick_rate: u64, now: u64) -> (started: (InputSource, SourceAction<I>))
        ensures
            started == InputSource::on_start::<I>(tick_rate, now),
    {
        (
            InputSource { tick_rate, last_tick: now, phase: SourcePhase::Waiting },
            SourceAction::Wait(tick_rate),
        )
    }

    /// How long the source may wait for a key before a tick is due.
    pub fn timeout(&self, now: u64) -> (wait: u64)
        ensures
            wait == self.remaining(now),
    {
        let elapsed: u64 = if now >= self.last_tick {
            now - self.last_tick
        } else {
            0
        };
        if elapsed < self.tick_rate {
            self.tick_rate - elapsed
        } else {
            0
        }
    }

    /// Whether the source owes the event loop a tick.
    pub fn tick_due(&self, now: u64) -> (due: bool)
        ensures
            due == self.due(now),
    {
        let elapsed: u64 = if now >= self.last_tick {
            now - self.last_tick
        } else {
            0
        };
        elapsed >= self.tick_rate
    }

    /// Ends the source.
    fn stop<I>(&mut self) -> (action: SourceAction<I>)
        ensures
            (*final(self), action) == old(self).stopped::<I>(),
    {
        self.phase = SourcePhase::Stopped;
        SourceAction::Stop
    }

    /// Looks at the clock when there is nothing to pass on.
    fn idle<I>(&mut self, now: u64) -> (action: SourceAction<I>)
        ensures
            (*final(self), action) == old(self).on_idle::<I>(now),
    {
        if self.tick_due(now) {
            self.phase = SourcePhase::SendingTick;
            SourceAction::Send(Event::Tick)
        } else {
            self.phase = SourcePhase::Waiting;
            SourceAction::Wait(self.timeout(now))
        }
    }

    /// Takes what a wait brought: the key that came, if one did, and the
    /// reading of the clock at the end of the wait.
    pub fn polled<I>(&mut self, key: Option<I>, now: u64) -> (action: SourceAction<I>)
        ensures
            (*final(self), action) == old(self).on_polled(key, now),
    {
        match self.phase {
            SourcePhase::Waiting => match key {
                Some(key) => {
                    self.phase = SourcePhase::SendingInput;
                    SourceAction::Send(Event::Input(key))
                },
                None => self.idle(now),
            },
            _ => self.stop(),
        }
    }

    /// Takes the result of a send: whether the event got to the event loop,
    /// and the reading of the clock after the send.
    pub fn sent<I>(&mut self, delivered: bool, now: u64) -> (action: SourceAction<I>)
        ensures
            (*final(self), action) == old(self).on_sent::<I>(delivered, now),
    {
        match self.phase {
            SourcePhase::SendingInput => {
                if delivered {
                    self.idle(now)
                } else {
                    self.stop()
                }
            },
            SourcePhase::SendingTick => {
                if delivered {
                    self.last_tick = now;
                    self.phase = SourcePhase::Waiting;
                    SourceAction::Wait(self.tick_rate)
                } else {
                    self.stop()
                }
            },
            _ => self.stop(),
        }
    }
}

/// No key is dropped, and a key does not move the deadline: a key that
/// comes while the source waits is the next thing it sends, and once it was
/// delivered the source goes on as if it had looked at the clock without a
/// key.
pub proof fn lemma_key_is_passed_on<I>(source: InputSource, key: I, now: u64, after: u64)
    requires
        source.phase is Waiting,
    ensures
        ({
            let (sending, action) = source.on_polled(Some(key), now);
            &&& action == SourceAction::Send(Event::Input(key))
            &&& sending.tick_rate == source.tick_rate
            &&& sending.last_tick == source.last_tick
            &&& sending.on_sent::<I>(true, after) == source.on_polled::<I>(None, after)
        }),
{
}

/// A wait that runs its full time without a key ends with a tick: the
/// source sends one as soon as the wait is over, so with no key coming in
/// the event loop still gets a tick for every interval that passes.
pub proof fn lemma_full_wait_ends_in_tick<I>(source: InputSource, now: u64, later: u64)
    requires
        source.phase is Waiting,
        source.last_tick <= now,
        later >= now + source.remaining(now),
    ensures
        source.due(later),
        source.on_polled::<I>(None, later).1 == SourceAction::<I>::Send(Event::Tick),
{
}

/// The source never waits longer than one interval, and it waits only
/// while no tick is due.
pub proof fn lemma_wait_is_bounded(source: InputSource, now: u64)
    ensures
        source.remaining(now) <= source.tick_rate,
        source.due(now) <==> source.remaining(now) == 0,
{
}

/// A tick that was delivered at `now` moves the deadline one interval past
/// `now`: the source waits for a whole interval, and the next tick is due
/// exactly from then on.
pub proof fn lemma_tick_moves_deadline<I>(source: InputSource, now: u64, later: u64)
    requires
        source.phase is SendingTick,
        later >= now,
    ensures
        ({
            let (waiting, action) = source.on_sent::<I>(true, now);
            &&& action == SourceAction::<I>::Wait(source.tick_rate)
            &&& waiting.phase is Waiting
            &&& waiting.remaining(now) == source.tick_rate
            &&& waiting.due(later) <==> later - now >= source.tick_rate
        }),
{
}

/// An event that did not get to the event loop ends the source, whichever
/// event it was.
pub proof fn lemma_failed_send_stops<I>(source: InputSource, now: u64)
    ensures
        source.on_sent::<I>(false, now) == source.stopped::<I>(),
{
}

/// A source that has ended stays as it is and asks for nothing more.
pub proof fn lemma_stopped_is_final<I>(
    source: InputSource,
    key: Option<I>,
    delivered: bool,
    now: u64,
)
    requires
        source.phase is Stopped,
    ensures
        source.on_polled(key, now) == (source, SourceAction::<I>::Stop),
        source.on_sent::<I>(delivered, now) == (source, SourceAction::<I>::Stop),
{
}

} // verus!

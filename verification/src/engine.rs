//! The trigger engine: one state machine per channel.
//!
//! A channel is armed until it fires and stays fired for as long as the clock
//! shows its configured time. The first tick on which the clock shows another
//! time arms it again, so that it fires once for each occurrence of its time.

use crate::clock::{local_time, local_time_at};
use crate::schedule::{lemma_channel_positions, Channel, Schedule};
use crate::store::{read_slot, slot_bytes, stored_schedule};
use crate::time::TimeOfDay;
use vstd::prelude::*;

verus! {

/// Milliseconds for which the output of a channel that fires is held active.
pub const PULSE_MILLIS: u32 = 1000;

/// Whether a channel has fired for the minute that the clock shows.
#[derive(Clone, Copy, Debug, PartialEq, Eq, Structural)]
pub enum ChannelState {
    Armed,
    Fired,
}

/// The level at which the output line of a channel is found.
#[derive(Clone, Copy, Debug, PartialEq, Eq, Structural)]
pub enum Line {
    /// Low: the output is at rest.
    Idle,
    /// High: the output is being driven.
    Active,
    /// The channel has no output line.
    Absent,
}

/// The reading that a tick works with: a clock that could not be read, or
/// that shows what is no time of day, gives none.
pub open spec fn reading(now: Option<TimeOfDay>) -> Option<TimeOfDay> {
    match now {
        Some(time) => if time.valid() {
            Some(time)
        } else {
            None
        },
        None => None,
    }
}

/// Whether a channel fires in a tick: it is armed, the clock shows its
/// configured time, and its output is at rest.
pub open spec fn fires(
    state: ChannelState,
    configured: TimeOfDay,
    now: Option<TimeOfDay>,
    line: Line,
) -> bool {
    state == ChannelState::Armed && reading(now) == Some(configured) && line == Line::Idle
}

/// The state of a channel after a tick.
pub open spec fn next_state(
    state: ChannelState,
    configured: TimeOfDay,
    now: Option<TimeOfDay>,
    line: Line,
) -> ChannelState {
    match reading(now) {
        None => state,
        Some(time) => if time != configured {
            ChannelState::Armed
        } else if fires(state, configured, now, line) {
            ChannelState::Fired
        } else {
            state
        },
    }
}

/// The outputs to pulse after a tick.
#[derive(Clone, Copy, Debug, PartialEq, Eq)]
pub struct Pulses {
    pub channels: [bool; 4],
}

impl Pulses {
    /// Whether the output of `channel` is to be pulsed.
    pub open spec fn has(self, channel: Channel) -> bool {
        self.channels[channel.position()]
    }

    pub fn includes(&self, channel: Channel) -> (b: bool)
        ensures
            b == self.has(channel),
    {
        self.channels[channel.index()]
    }

    /// Whether no output is to be pulsed.
    pub fn is_empty(&self) -> (b: bool)
        ensures
            b == forall|channel: Channel| !self.has(channel),
    {
        let none: bool = !self.channels[0] && !self.channels[1] && !self.channels[2]
            && !self.channels[3];
        proof {
            if none {
                assert forall|channel: Channel| !self.has(channel) by {
                    lemma_channel_positions(channel);
                }
            } else {
                assert(self.has(Channel::One) || self.has(Channel::Two) || self.has(
                    Channel::Three,
                ) || self.has(Channel::Four));
            }
        }
        none
    }
}

/// The levels of the four output lines.
#[derive(Clone, Copy, Debug, PartialEq, Eq)]
pub struct Lines {
    pub levels: [Line; 4],
}

impl Lines {
    /// The level of the line of `channel`.
    pub open spec fn of(self, channel: Channel) -> Line {
        self.levels[channel.position()]
    }

    pub fn level(&self, channel: Channel) -> (line: Line)
        ensures
            line == self.of(channel),
    {
        self.levels[channel.index()]
    }
}

/// The state of the four channels.
#[derive(Clone, Copy, Debug, PartialEq, Eq)]
pub struct TriggerEngine {
    pub states: [ChannelState; 4],
    /// Whether the last tick had a reading of the clock; `false` before the first tick.
    pub clock_valid: bool,
}

impl TriggerEngine {
    /// The state of `channel`.
    pub open spec fn state_of(self, channel: Channel) -> ChannelState {
        self.states[channel.position()]
    }

    /// An engine with every channel armed.
    pub fn new() -> (engine: TriggerEngine)
        ensures
            forall|channel: Channel| engine.state_of(channel) == ChannelState::Armed,
            !engine.clock_valid,
    {
        TriggerEngine {
            states: [
                ChannelState::Armed,
                ChannelState::Armed,
                ChannelState::Armed,
                ChannelState::Armed,
            ],
            clock_valid: false,
        }
    }

    pub fn state(&self, channel: Channel) -> (state: ChannelState)
        ensures
            state == self.state_of(channel),
    {
        self.states[channel.index()]
    }

    /// Whether `after` and `pulses` are what a tick makes of `self`: the clock
    /// was read or was not, and every channel went through its state machine.
    pub open spec fn ticked(
        self,
        after: TriggerEngine,
        pulses: Pulses,
        schedule: Schedule,
        now: Option<TimeOfDay>,
        lines: Lines,
    ) -> bool {
        &&& after.clock_valid == (reading(now) is Some)
        &&& forall|channel: Channel|
            #![trigger after.state_of(channel)]
            #![trigger pulses.has(channel)]
            {
                &&& after.state_of(channel) == next_state(
                    self.state_of(channel),
                    schedule.time_of(channel),
                    now,
                    lines.of(channel),
                )
                &&& pulses.has(channel) == fires(
                    self.state_of(channel),
                    schedule.time_of(channel),
                    now,
                    lines.of(channel),
                )
            }
    }

    /// One evaluation: takes every channel through its state machine and says
    /// which outputs to pulse.
    ///
    /// Without a reading of the clock no channel changes and none fires.
    pub fn tick(&mut self, schedule: &Schedule, now: Option<TimeOfDay>, lines: &Lines) -> (pulses:
        Pulses)
        ensures
            old(self).ticked(*final(self), pulses, *schedule, now, *lines),
    {
        let mut pulses = Pulses { channels: [false, false, false, false] };
        let time: TimeOfDay = match now {
            Some(time) => time,
            None => TimeOfDay::midnight(),
        };
        self.clock_valid = now.is_some() && time.is_valid();
        if !self.clock_valid {
            proof {
                assert forall|channel: Channel|
                    #![trigger self.state_of(channel)]
                    #![trigger pulses.has(channel)]
                    self.state_of(channel) == old(self).state_of(channel) && !pulses.has(
                        channel,
                    ) by {
                    lemma_channel_positions(channel);
                }
            }
            return pulses;
        }
        let mut i: usize = 0;
        while i < 4
            invariant
                i <= 4,
                reading(now) == Some(time),
                self.clock_valid,
                forall|at: int|
                    #![trigger self.states[at]]
                    #![trigger pulses.channels[at]]
                    0 <= at < 4 ==> if at < i {
                        &&& self.states[at] == next_state(
                            old(self).states[at],
                            schedule.times[at],
                            now,
                            lines.levels[at],
                        )
                        &&& pulses.channels[at] == fires(
                            old(self).states[at],
                            schedule.times[at],
                            now,
                            lines.levels[at],
                        )
                    } else {
                        self.states[at] == old(self).states[at] && !pulses.channels[at]
                    },
            decreases 4 - i,
        {
            if time != schedule.times[i] {
                self.states[i] = ChannelState::Armed;
            } else if self.states[i] == ChannelState::Armed && lines.levels[i] == Line::Idle {
                self.states[i] = ChannelState::Fired;
                pulses.channels[i] = true;
            }
            i += 1;
        }
        proof {
            assert forall|channel: Channel|
                #![trigger self.state_of(channel)]
                #![trigger pulses.has(channel)]
                {
                    &&& self.state_of(channel) == next_state(
                        old(self).state_of(channel),
                        schedule.time_of(channel),
                        now,
                        lines.of(channel),
                    )
                    &&& pulses.has(channel) == fires(
                        old(self).state_of(channel),
                        schedule.time_of(channel),
                        now,
                        lines.of(channel),
                    )
                } by {
                lemma_channel_positions(channel);
                let at = channel.position();
                assert(self.states[at] == self.state_of(channel));
                assert(pulses.channels[at] == pulses.has(channel));
            }
        }
        pulses
    }

    /// One round of the trigger loop on what was read from the slot, from
    /// the clock and from the lines: reads the schedule, finds the local
    /// time of day, and ticks.
    ///
    /// `slot` is `None` for a slot that is missing, `unix_seconds` for a
    /// clock that could not be read or is not set.
    pub fn check_timer(
        &mut self,
        slot: Option<&[u8]>,
        unix_seconds: Option<i64>,
        lines: &Lines,
    ) -> (pulses: Pulses)
        ensures
            old(self).ticked(
                *final(self),
                pulses,
                stored_schedule(slot_bytes(slot)),
                local_time_at(unix_seconds),
                *lines,
            ),
    {
        let schedule: Schedule = read_slot(slot);
        let now: Option<TimeOfDay> = local_time(unix_seconds);
        self.tick(&schedule, now, lines)
    }
}

} // verus!

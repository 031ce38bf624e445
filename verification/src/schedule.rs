//! The four channels and the time of day configured for each.

use crate::time::TimeOfDay;
use vstd::prelude::*;
use vstd::string::StringSliceAdditionalSpecFns;

verus! {

/// Number of channels.
pub const CHANNELS: usize = 4;

/// One of the four cables.
#[derive(Clone, Copy, Debug, PartialEq, Eq, Structural)]
pub enum Channel {
    One,
    Two,
    Three,
    Four,
}

impl Channel {
    /// Position of the channel in a schedule, from 0.
    pub open spec fn position(self) -> int {
        match self {
            Channel::One => 0,
            Channel::Two => 1,
            Channel::Three => 2,
            Channel::Four => 3,
        }
    }

    /// The channel at a position.
    pub open spec fn at(position: int) -> Channel {
        if position == 0 {
            Channel::One
        } else if position == 1 {
            Channel::Two
        } else if position == 2 {
            Channel::Three
        } else {
            Channel::Four
        }
    }

    /// The name under which a document carries the channel's time.
    pub open spec fn key(self) -> Seq<u8> {
        match self {
            Channel::One => "cable1".spec_bytes(),
            Channel::Two => "cable2".spec_bytes(),
            Channel::Three => "cable3".spec_bytes(),
            Channel::Four => "cable4".spec_bytes(),
        }
    }

    pub fn index(self) -> (i: usize)
        ensures
            i == self.position(),
            i < CHANNELS,
    {
        match self {
            Channel::One => 0,
            Channel::Two => 1,
            Channel::Three => 2,
            Channel::Four => 3,
        }
    }

    /// The channel at `index`, for an index below four.
    pub fn from_index(index: usize) -> (r: Option<Channel>)
        ensures
            r == (if index < CHANNELS {
                Some(Channel::at(index as int))
            } else {
                None
            }),
    {
        if index == 0 {
            Some(Channel::One)
        } else if index == 1 {
            Some(Channel::Two)
        } else if index == 2 {
            Some(Channel::Three)
        } else if index == 3 {
            Some(Channel::Four)
        } else {
            None
        }
    }

    /// The channel's number, from 1.
    pub fn number(self) -> (n: u8)
        ensures
            n == self.position() + 1,
    {
        match self {
            Channel::One => 1,
            Channel::Two => 2,
            Channel::Three => 3,
            Channel::Four => 4,
        }
    }

    pub fn name(self) -> (k: &'static str)
        ensures
            k.spec_bytes() == self.key(),
    {
        match self {
            Channel::One => "cable1",
            Channel::Two => "cable2",
            Channel::Three => "cable3",
            Channel::Four => "cable4",
        }
    }
}

/// Positions and channels correspond one to one.
pub proof fn lemma_channel_positions(channel: Channel)
    ensures
        0 <= channel.position() < CHANNELS,
        Channel::at(channel.position()) == channel,
{
}

/// Every channel's name is `cable` and the channel's number, in ASCII.
pub proof fn lemma_key_bytes(channel: Channel)
    ensures
        channel.key() == seq![0x63u8, 0x61u8, 0x62u8, 0x6cu8, 0x65u8, (0x31 + channel.position()) as u8],
        channel.key().len() == 6,
{
    reveal_strlit("cable1");
    reveal_strlit("cable2");
    reveal_strlit("cable3");
    reveal_strlit("cable4");
    let name: &str = match channel {
        Channel::One => "cable1",
        Channel::Two => "cable2",
        Channel::Three => "cable3",
        Channel::Four => "cable4",
    };
    assert(vstd::string::is_ascii(name));
    vstd::string::is_ascii_spec_bytes(name);
    assert(channel.key() =~= seq![
        0x63u8,
        0x61u8,
        0x62u8,
        0x6cu8,
        0x65u8,
        (0x31 + channel.position()) as u8,
    ]);
}

/// The time of day of every channel, in channel order.
#[derive(Clone, Copy, Debug, PartialEq, Eq)]
pub struct Schedule {
    pub times: [TimeOfDay; 4],
}

impl Schedule {
    /// Every channel has a valid time.
    pub open spec fn valid(self) -> bool {
        &&& self.times[0].valid()
        &&& self.times[1].valid()
        &&& self.times[2].valid()
        &&& self.times[3].valid()
    }

    /// The time configured for a channel.
    pub open spec fn time_of(self, channel: Channel) -> TimeOfDay {
        self.times[channel.position()]
    }

    /// The schedule with the four given times.
    pub open spec fn of(one: TimeOfDay, two: TimeOfDay, three: TimeOfDay, four: TimeOfDay) -> Schedule {
        Schedule { times: [one, two, three, four] }
    }

    /// The schedule of a device that was never configured: midnight on every channel.
    pub open spec fn unset() -> Schedule {
        Self::of(TimeOfDay::midnight(), TimeOfDay::midnight(), TimeOfDay::midnight(), TimeOfDay::midnight())
    }

    pub fn new(one: TimeOfDay, two: TimeOfDay, three: TimeOfDay, four: TimeOfDay) -> (s: Schedule)
        ensures
            s == Self::of(one, two, three, four),
            s.time_of(Channel::One) == one,
            s.time_of(Channel::Two) == two,
            s.time_of(Channel::Three) == three,
            s.time_of(Channel::Four) == four,
    {
        Schedule { times: [one, two, three, four] }
    }

    pub fn time(&self, channel: Channel) -> (t: TimeOfDay)
        ensures
            t == self.time_of(channel),
    {
        self.times[channel.index()]
    }

    /// Sets the time of one channel and leaves the others.
    pub fn set_time(&mut self, channel: Channel, time: TimeOfDay)
        ensures
            final(self).time_of(channel) == time,
            forall|other: Channel| other != channel ==> final(self).time_of(other) == old(self).time_of(other),
    {
        let i: usize = channel.index();
        self.times[i] = time;
        assert forall|other: Channel| other != channel implies self.time_of(other) == old(self).time_of(other) by {
            assert(other.position() != channel.position());
        }
    }

    pub fn is_valid(&self) -> (b: bool)
        ensures
            b == self.valid(),
    {
        self.times[0].is_valid() && self.times[1].is_valid() && self.times[2].is_valid()
            && self.times[3].is_valid()
    }
}

impl Default for Schedule {
    fn default() -> (s: Schedule)
        ensures
            s == Schedule::unset(),
    {
        let midnight = TimeOfDay::midnight();
        Schedule { times: [midnight, midnight, midnight, midnight] }
    }
}

/// Two schedules that agree on every channel are the same schedule.
pub proof fn lemma_schedule_by_channel(a: Schedule, b: Schedule)
    requires
        forall|channel: Channel| a.time_of(channel) == b.time_of(channel),
    ensures
        a == b,
{
    assert(a.time_of(Channel::One) == b.time_of(Channel::One));
    assert(a.time_of(Channel::Two) == b.time_of(Channel::Two));
    assert(a.time_of(Channel::Three) == b.time_of(Channel::Three));
    assert(a.time_of(Channel::Four) == b.time_of(Channel::Four));
    assert(a.times =~= b.times);
}

} // verus!

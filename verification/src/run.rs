//! A channel over a sequence of ticks: when it fires, and that it fires once
//! for each occurrence of its configured time.

use crate::engine::{fires, next_state, reading, ChannelState, Line};
use crate::time::TimeOfDay;
use vstd::prelude::*;

verus! {

/// What one tick shows a channel: the clock and the level of the channel's line.
pub struct Sample {
    pub now: Option<TimeOfDay>,
    pub line: Line,
}

/// The state of a channel that was armed and went through the ticks of `samples`.
pub open spec fn state_after(configured: TimeOfDay, samples: Seq<Sample>) -> ChannelState
    decreases samples.len(),
{
    if samples.len() == 0 {
        ChannelState::Armed
    } else {
        next_state(
            state_after(configured, samples.drop_last()),
            configured,
            samples.last().now,
            samples.last().line,
        )
    }
}

/// Whether the channel fires in tick `k` of `samples`.
pub open spec fn fires_at(configured: TimeOfDay, samples: Seq<Sample>, k: int) -> bool {
    fires(state_after(configured, samples.take(k)), configured, samples[k].now, samples[k].line)
}

/// Every tick reads the clock and finds the line at rest.
pub open spec fn regular(samples: Seq<Sample>) -> bool {
    forall|k: int|
        0 <= k < samples.len() ==> reading(#[trigger] samples[k].now) is Some && samples[k].line
            == Line::Idle
}

/// The state before tick `k + 1` is the state that tick `k` leaves.
pub proof fn lemma_state_step(configured: TimeOfDay, samples: Seq<Sample>, k: int)
    requires
        0 <= k < samples.len(),
    ensures
        state_after(configured, samples.take(k + 1)) == next_state(
            state_after(configured, samples.take(k)),
            configured,
            samples[k].now,
            samples[k].line,
        ),
{
    assert(samples.take(k + 1).drop_last() =~= samples.take(k));
}

/// With the clock read and the line at rest on every tick, a channel fires
/// on a tick exactly if the clock shows its time and did not show it on the
/// tick before.
pub proof fn lemma_fires_on_first_tick_of_its_minute(
    configured: TimeOfDay,
    samples: Seq<Sample>,
    k: int,
)
    requires
        regular(samples),
        0 <= k < samples.len(),
    ensures
        fires_at(configured, samples, k) <==> samples[k].now == Some(configured) && (k == 0
            || samples[k - 1].now != Some(configured)),
{
    if k > 0 {
        lemma_state_step(configured, samples, k - 1);
        assert(reading(samples[k - 1].now) is Some);
    } else {
        assert(samples.take(0).len() == 0);
    }
    assert(reading(samples[k].now) is Some);
}

/// After a tick on which the channel fired it stays fired for as long as
/// every tick shows its time or does not read the clock.
pub proof fn lemma_stays_fired(configured: TimeOfDay, samples: Seq<Sample>, fired: int, k: int)
    requires
        0 <= fired < k <= samples.len(),
        fires_at(configured, samples, fired),
        forall|between: int|
            fired < between < k ==> reading(#[trigger] samples[between].now) is None || reading(
                samples[between].now,
            ) == Some(configured),
    ensures
        state_after(configured, samples.take(k)) == ChannelState::Fired,
    decreases k,
{
    lemma_state_step(configured, samples, k - 1);
    if k - 1 > fired {
        lemma_stays_fired(configured, samples, fired, k - 1);
        assert(reading(samples[k - 1].now) is None || reading(samples[k - 1].now) == Some(
            configured,
        ));
    }
}

/// A channel fires once at most for each occurrence of its time: between
/// two ticks on which it fires there is a tick on which the clock shows
/// another time.
pub proof fn lemma_rearmed_between_fires(
    configured: TimeOfDay,
    samples: Seq<Sample>,
    first: int,
    second: int,
)
    requires
        0 <= first < second < samples.len(),
        fires_at(configured, samples, first),
        fires_at(configured, samples, second),
    ensures
        exists|between: int|
            first < between < second && reading(#[trigger] samples[between].now) is Some
                && reading(samples[between].now) != Some(configured),
{
    if !exists|between: int|
        first < between < second && reading(#[trigger] samples[between].now) is Some && reading(
            samples[between].now,
        ) != Some(configured) {
        lemma_stays_fired(configured, samples, first, second);
    }
}

/// The time that a clock shows which counts minutes from a midnight.
pub open spec fn clock(minute: int) -> TimeOfDay {
    TimeOfDay { hour: ((minute / 60) % 24) as u8, minute: (minute % 60) as u8 }
}

/// A clock that counts minutes shows a valid time, and shows a given valid
/// time on the minutes that leave its minute of the day when divided by 1440.
pub proof fn lemma_clock(minute: int, time: TimeOfDay)
    requires
        time.valid(),
    ensures
        clock(minute).valid(),
        clock(minute).minute_of_day() == minute % 1440,
        clock(minute) == time <==> minute % 1440 == time.minute_of_day(),
{
}

/// Ticks one minute apart from the minute `start`, every one with the clock
/// read and the line at rest.
pub open spec fn minute_by_minute(samples: Seq<Sample>, start: int) -> bool {
    forall|k: int|
        0 <= k < samples.len() ==> (#[trigger] samples[k]).now == Some(clock(start + k))
            && samples[k].line == Line::Idle
}

/// With ticks one minute apart a channel fires on the ticks on which the
/// clock shows its time, and on no other.
pub proof fn lemma_fires_at_its_minute(
    configured: TimeOfDay,
    samples: Seq<Sample>,
    start: int,
    k: int,
)
    requires
        configured.valid(),
        minute_by_minute(samples, start),
        0 <= k < samples.len(),
    ensures
        fires_at(configured, samples, k) <==> clock(start + k) == configured,
{
    assert forall|j: int| 0 <= j < samples.len() implies reading(#[trigger] samples[j].now) is Some
        && samples[j].line == Line::Idle by {
        lemma_clock(start + j, configured);
        assert(samples[j].now == Some(clock(start + j)));
    }
    lemma_fires_on_first_tick_of_its_minute(configured, samples, k);
    lemma_clock(start + k, configured);
    assert(samples[k].now == Some(clock(start + k)));
    if k > 0 {
        lemma_clock(start + k - 1, configured);
        assert(samples[k - 1].now == Some(clock(start + k - 1)));
    }
}

/// The tick of day `day` on which a clock that starts at minute `start` and
/// goes on by one minute a tick shows `time`.
pub open spec fn tick_of_day(time: TimeOfDay, start: int, day: int) -> int {
    day * 1440 + (time.minute_of_day() - start) % 1440
}

/// In each day of 1440 minutes one minute leaves a given remainder.
proof fn lemma_one_minute_a_day(minute_of_day: int, start: int, day: int, k: int)
    requires
        0 <= minute_of_day < 1440,
        day * 1440 <= k < (day + 1) * 1440,
    ensures
        0 <= (minute_of_day - start) % 1440 < 1440,
        (start + k) % 1440 == minute_of_day <==> k == day * 1440 + (minute_of_day - start) % 1440,
{
    let offset = (minute_of_day - start) % 1440;
    let turns = (minute_of_day - start) / 1440;
    assert(minute_of_day - start == turns * 1440 + offset);
    let j = k - day * 1440;
    assert(start + k == (day - turns) * 1440 + (minute_of_day + j - offset));
    if j == offset {
        assert((start + k) % 1440 == minute_of_day) by {
            vstd::arithmetic::div_mod::lemma_mod_multiples_vanish(
                day - turns,
                minute_of_day,
                1440,
            );
        }
    } else if j > offset {
        assert((start + k) % 1440 != minute_of_day) by {
            if minute_of_day + j - offset < 1440 {
                vstd::arithmetic::div_mod::lemma_mod_multiples_vanish(
                    day - turns,
                    minute_of_day + j - offset,
                    1440,
                );
            } else {
                vstd::arithmetic::div_mod::lemma_mod_multiples_vanish(
                    day - turns + 1,
                    minute_of_day + j - offset - 1440,
                    1440,
                );
            }
        }
    } else {
        assert((start + k) % 1440 != minute_of_day) by {
            if minute_of_day + j - offset >= 0 {
                vstd::arithmetic::div_mod::lemma_mod_multiples_vanish(
                    day - turns,
                    minute_of_day + j - offset,
                    1440,
                );
            } else {
                vstd::arithmetic::div_mod::lemma_mod_multiples_vanish(
                    day - turns - 1,
                    minute_of_day + j - offset + 1440,
                    1440,
                );
            }
        }
    }
}

/// With ticks one minute apart a channel fires exactly once in each day of
/// 1440 ticks, on the tick on which the clock shows its time.
pub proof fn lemma_fires_once_a_day(
    configured: TimeOfDay,
    samples: Seq<Sample>,
    start: int,
    day: int,
    k: int,
)
    requires
        configured.valid(),
        minute_by_minute(samples, start),
        0 <= day,
        day * 1440 <= k < (day + 1) * 1440,
        k < samples.len(),
    ensures
        day * 1440 <= tick_of_day(configured, start, day) < (day + 1) * 1440,
        clock(start + tick_of_day(configured, start, day)) == configured,
        fires_at(configured, samples, k) <==> k == tick_of_day(configured, start, day),
{
    let at = tick_of_day(configured, start, day);
    lemma_fires_at_its_minute(configured, samples, start, k);
    lemma_clock(start + k, configured);
    lemma_clock(start + at, configured);
    lemma_one_minute_a_day(configured.minute_of_day(), start, day, k);
    lemma_one_minute_a_day(configured.minute_of_day(), start, day, at);
}

/// Ticks at the given seconds of a clock that counts seconds from a
/// midnight: no tick more than 60 seconds after the one before, every one
/// with the clock read and the line at rest.
pub open spec fn paced(samples: Seq<Sample>, seconds: Seq<int>) -> bool {
    &&& samples.len() == seconds.len()
    &&& forall|k: int|
        0 <= k < samples.len() ==> (#[trigger] samples[k]).now == Some(clock(seconds[k] / 60))
            && samples[k].line == Line::Idle
    &&& forall|k: int| 0 < k < seconds.len() ==> 0 <= #[trigger] seconds[k] - seconds[k - 1] <= 60
}

/// The minutes of the ticks never go back.
proof fn lemma_minutes_go_on(seconds: Seq<int>, i: int, j: int)
    requires
        forall|k: int| 0 < k < seconds.len() ==> 0 <= #[trigger] seconds[k] - seconds[k - 1] <= 60,
        0 <= i <= j < seconds.len(),
    ensures
        seconds[i] / 60 <= seconds[j] / 60,
    decreases j - i,
{
    if i < j {
        lemma_minutes_go_on(seconds, i, j - 1);
        assert(0 <= seconds[j] - seconds[j - 1] <= 60);
    }
}

/// The first tick in a minute that lies between the minutes of two ticks.
proof fn first_tick_of_minute(seconds: Seq<int>, minute: int, upto: int) -> (k: int)
    requires
        forall|k: int| 0 < k < seconds.len() ==> 0 <= #[trigger] seconds[k] - seconds[k - 1] <= 60,
        0 <= upto < seconds.len(),
        seconds[0] / 60 <= minute <= seconds[upto] / 60,
    ensures
        0 <= k <= upto,
        seconds[k] / 60 == minute,
        k == 0 || seconds[k - 1] / 60 < minute,
    decreases upto,
{
    if upto == 0 {
        0
    } else if seconds[upto - 1] / 60 < minute {
        assert(0 <= seconds[upto] - seconds[upto - 1] <= 60);
        upto
    } else {
        first_tick_of_minute(seconds, minute, upto - 1)
    }
}

/// With no tick more than 60 seconds after the one before, no minute of the
/// channel's time goes by without the channel firing: it fires on the first
/// tick of the minute and on no other tick of that minute.
pub proof fn lemma_no_missed_fire(
    configured: TimeOfDay,
    samples: Seq<Sample>,
    seconds: Seq<int>,
    minute: int,
) -> (k: int)
    requires
        configured.valid(),
        paced(samples, seconds),
        seconds.len() > 0,
        seconds[0] / 60 <= minute <= seconds.last() / 60,
        clock(minute) == configured,
    ensures
        0 <= k < samples.len(),
        seconds[k] / 60 == minute,
        fires_at(configured, samples, k),
        forall|other: int|
            0 <= other < samples.len() && #[trigger] seconds[other] / 60 == minute && other != k
                ==> !fires_at(configured, samples, other),
{
    let k = first_tick_of_minute(seconds, minute, seconds.len() - 1);
    assert forall|j: int| 0 <= j < samples.len() implies reading(#[trigger] samples[j].now) is Some
        && samples[j].line == Line::Idle by {
        lemma_clock(seconds[j] / 60, configured);
        assert(samples[j].now == Some(clock(seconds[j] / 60)));
    }
    assert forall|j: int| 0 <= j < samples.len() implies (fires_at(configured, samples, j) <==> (
    clock(seconds[j] / 60) == configured && (j == 0 || seconds[j - 1] / 60 < seconds[j] / 60))) by {
        lemma_fires_on_first_tick_of_its_minute(configured, samples, j);
        assert(samples[j].now == Some(clock(seconds[j] / 60)));
        if j > 0 {
            assert(samples[j - 1].now == Some(clock(seconds[j - 1] / 60)));
            assert(0 <= seconds[j] - seconds[j - 1] <= 60);
            lemma_clock(seconds[j] / 60, configured);
            lemma_clock(seconds[j - 1] / 60, configured);
        }
    }
    assert forall|other: int|
        0 <= other < samples.len() && #[trigger] seconds[other] / 60 == minute && other
            != k implies !fires_at(configured, samples, other) by {
        if other < k {
            lemma_minutes_go_on(seconds, other, k - 1);
        } else {
            lemma_minutes_go_on(seconds, k, other - 1);
            assert(0 <= seconds[other] - seconds[other - 1] <= 60);
        }
    }
    k
}

} // verus!

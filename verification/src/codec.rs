//! The textual form of a schedule.
//!
//! A schedule is written as one JSON object with a member per channel, each an
//! `HH:MM` string, in channel order and without white space.

use crate::bytes::{push_bytes, same_bytes};
use crate::document::{json_document, Document, DocumentView, Member, MemberView};
use crate::schedule::{
    lemma_channel_positions, lemma_key_bytes, lemma_schedule_by_channel, Channel, Schedule,
};
use crate::time::{
    lemma_parsed_is_text, lemma_text_is_injective, lemma_text_is_parsed, parsed_time, TimeOfDay,
    COLON,
};
use vstd::prelude::*;
use vstd::slice::slice_subrange;

verus! {

/// ASCII code of `"`.
pub const QUOTE: u8 = 0x22;

/// ASCII code of `,`.
pub const COMMA: u8 = 0x2c;

/// ASCII code of `{`.
pub const OPEN_BRACE: u8 = 0x7b;

/// ASCII code of `}`.
pub const CLOSE_BRACE: u8 = 0x7d;

/// One member of the object: the channel's name and its time, both quoted.
pub open spec fn entry(channel: Channel, time: TimeOfDay) -> Seq<u8> {
    seq![QUOTE] + channel.key() + seq![QUOTE, COLON, QUOTE] + time.text() + seq![QUOTE]
}

/// The text of a schedule.
pub open spec fn encoded(schedule: Schedule) -> Seq<u8> {
    seq![OPEN_BRACE] + entry(Channel::One, schedule.times[0]) + seq![COMMA] + entry(
        Channel::Two,
        schedule.times[1],
    ) + seq![COMMA] + entry(Channel::Three, schedule.times[2]) + seq![COMMA] + entry(
        Channel::Four,
        schedule.times[3],
    ) + seq![CLOSE_BRACE]
}

/// Length of a channel's member in the text of a schedule.
pub open spec fn entry_len(channel: Channel) -> nat {
    channel.key().len() + 10
}

/// Where a channel's member starts in the text of a schedule.
pub open spec fn entry_offset(channel: Channel) -> nat {
    match channel {
        Channel::One => 1,
        Channel::Two => 2 + entry_len(Channel::One),
        Channel::Three => 3 + entry_len(Channel::One) + entry_len(Channel::Two),
        Channel::Four => 4 + entry_len(Channel::One) + entry_len(Channel::Two) + entry_len(
            Channel::Three,
        ),
    }
}

/// Where the time of a channel starts in the text of a schedule.
pub open spec fn time_offset(channel: Channel) -> nat {
    entry_offset(channel) + channel.key().len() + 4
}

/// Length of the text of a schedule.
pub open spec fn encoded_len() -> nat {
    entry_offset(Channel::Four) + entry_len(Channel::Four) + 1
}

fn push_entry(out: &mut Vec<u8>, channel: Channel, time: TimeOfDay)
    ensures
        final(out)@ == old(out)@ + entry(channel, time),
{
    out.push(QUOTE);
    push_bytes(out, channel.name().as_bytes());
    out.push(QUOTE);
    out.push(COLON);
    out.push(QUOTE);
    let text: [u8; 5] = time.format();
    push_bytes(out, text.as_slice());
    out.push(QUOTE);
    assert(out@ =~= old(out)@ + entry(channel, time));
}

/// Writes a schedule as text.
pub fn encode(schedule: &Schedule) -> (out: Vec<u8>)
    ensures
        out@ == encoded(*schedule),
{
    let mut out: Vec<u8> = Vec::new();
    out.push(OPEN_BRACE);
    push_entry(&mut out, Channel::One, schedule.times[0]);
    out.push(COMMA);
    push_entry(&mut out, Channel::Two, schedule.times[1]);
    out.push(COMMA);
    push_entry(&mut out, Channel::Three, schedule.times[2]);
    out.push(COMMA);
    push_entry(&mut out, Channel::Four, schedule.times[3]);
    out.push(CLOSE_BRACE);
    assert(out@ =~= encoded(*schedule));
    out
}

/// The five bytes at the place of a channel's time.
pub open spec fn time_field(raw: Seq<u8>, channel: Channel) -> Seq<u8> {
    raw.subrange(time_offset(channel) as int, time_offset(channel) as int + 5)
}

/// In the text of a schedule each time stands at its channel's offset.
pub proof fn lemma_encoded_layout(schedule: Schedule)
    ensures
        encoded(schedule).len() == encoded_len(),
        forall|channel: Channel|
            #![trigger time_offset(channel)]
            time_offset(channel) + 5 <= encoded_len() && time_field(encoded(schedule), channel)
                == schedule.time_of(channel).text(),
{
    let text = encoded(schedule);
    assert forall|channel: Channel|
        #![trigger time_offset(channel)]
        time_offset(channel) + 5 <= encoded_len() && time_field(text, channel)
            == schedule.time_of(channel).text() by {
        assert(time_field(text, channel) =~= schedule.time_of(channel).text());
    }
}

/// Valid schedules with the same text are the same schedule.
pub proof fn lemma_encoded_is_injective(a: Schedule, b: Schedule)
    requires
        a.valid(),
        b.valid(),
        encoded(a) == encoded(b),
    ensures
        a == b,
{
    lemma_encoded_layout(a);
    lemma_encoded_layout(b);
    assert forall|channel: Channel| a.time_of(channel) == b.time_of(channel) by {
        assert(time_field(encoded(a), channel) == a.time_of(channel).text()) by {
            let _ = time_offset(channel);
        }
        assert(time_field(encoded(b), channel) == b.time_of(channel).text()) by {
            let _ = time_offset(channel);
        }
        lemma_text_is_injective(a.time_of(channel), b.time_of(channel));
    }
    lemma_schedule_by_channel(a, b);
}

/// The schedule that a text in canonical form denotes: `Some(s)` where the
/// text is that of a valid schedule `s`, `None` for every other text.
pub open spec fn canonical(raw: Seq<u8>) -> Option<Schedule> {
    if exists|s: Schedule| s.valid() && encoded(s) == raw {
        Some(choose|s: Schedule| s.valid() && encoded(s) == raw)
    } else {
        None
    }
}

/// The text of a valid schedule denotes that schedule.
pub proof fn lemma_canonical_of_encoded(schedule: Schedule)
    requires
        schedule.valid(),
    ensures
        canonical(encoded(schedule)) == Some(schedule),
{
    let found = choose|s: Schedule| s.valid() && encoded(s) == encoded(schedule);
    lemma_encoded_is_injective(found, schedule);
}

/// Length of the text of a schedule.
pub const ENCODED_LEN: usize = 69;

/// Offset of the first channel's time in the text of a schedule.
pub const FIRST_TIME_OFFSET: usize = 11;

/// Distance between the times of two neighbouring channels in the text of a schedule.
pub const TIME_STRIDE: usize = 17;

/// The constants above are the offsets of the text of a schedule.
pub proof fn lemma_offsets(channel: Channel)
    ensures
        encoded_len() == ENCODED_LEN,
        time_offset(channel) == FIRST_TIME_OFFSET + TIME_STRIDE * channel.position(),
{
    lemma_key_bytes(Channel::One);
    lemma_key_bytes(Channel::Two);
    lemma_key_bytes(Channel::Three);
    lemma_key_bytes(Channel::Four);
}

fn time_at(raw: &[u8], channel: Channel) -> (r: Option<TimeOfDay>)
    requires
        raw@.len() == encoded_len(),
    ensures
        r == parsed_time(time_field(raw@, channel)),
{
    proof {
        lemma_offsets(channel);
    }
    let start: usize = FIRST_TIME_OFFSET + TIME_STRIDE * channel.index();
    TimeOfDay::parse(slice_subrange(raw, start, start + 5))
}

/// What a text that is the text of a valid schedule holds at each channel's place.
proof fn lemma_canonical_fields(raw: Seq<u8>, channel: Channel)
    requires
        canonical(raw) is Some,
    ensures
        raw.len() == encoded_len(),
        parsed_time(time_field(raw, channel)) == Some(canonical(raw)->Some_0.time_of(channel)),
{
    let schedule = canonical(raw)->Some_0;
    lemma_encoded_layout(schedule);
    let _ = time_offset(channel);
    lemma_text_is_parsed(schedule.time_of(channel));
}

/// A text is in canonical form exactly if writing the times that stand at
/// the four places gives the text back.
proof fn lemma_canonical_by_fields(raw: Seq<u8>, schedule: Schedule)
    requires
        forall|channel: Channel|
            parsed_time(time_field(raw, channel)) == Some(#[trigger] schedule.time_of(channel)),
    ensures
        schedule.valid(),
        canonical(raw) == (if encoded(schedule) == raw {
            Some(schedule)
        } else {
            None
        }),
{
    assert forall|channel: Channel| (#[trigger] schedule.time_of(channel)).valid() by {
        lemma_parsed_is_text(time_field(raw, channel));
    }
    assert(schedule.time_of(Channel::One).valid());
    assert(schedule.time_of(Channel::Two).valid());
    assert(schedule.time_of(Channel::Three).valid());
    assert(schedule.time_of(Channel::Four).valid());
    if canonical(raw) is Some {
        let found = canonical(raw)->Some_0;
        assert forall|channel: Channel| found.time_of(channel) == schedule.time_of(channel) by {
            lemma_canonical_fields(raw, channel);
        }
        lemma_schedule_by_channel(found, schedule);
    }
    if encoded(schedule) == raw {
        lemma_canonical_of_encoded(schedule);
    }
}

/// Reads a text in canonical form: the text that [`encode`] writes for a
/// valid schedule, byte for byte.
pub fn decode_canonical(raw: &[u8]) -> (r: Option<Schedule>)
    ensures
        r == canonical(raw@),
{
    proof {
        lemma_offsets(Channel::One);
        if canonical(raw@) is Some {
            lemma_canonical_fields(raw@, Channel::One);
            lemma_canonical_fields(raw@, Channel::Two);
            lemma_canonical_fields(raw@, Channel::Three);
            lemma_canonical_fields(raw@, Channel::Four);
        }
    }
    if raw.len() != ENCODED_LEN {
        return None;
    }
    let one: Option<TimeOfDay> = time_at(raw, Channel::One);
    let two: Option<TimeOfDay> = time_at(raw, Channel::Two);
    let three: Option<TimeOfDay> = time_at(raw, Channel::Three);
    let four: Option<TimeOfDay> = time_at(raw, Channel::Four);
    match (one, two, three, four) {
        (Some(one), Some(two), Some(three), Some(four)) => {
            let schedule = Schedule::new(one, two, three, four);
            let text: Vec<u8> = encode(&schedule);
            proof {
                assert forall|channel: Channel|
                    parsed_time(time_field(raw@, channel)) == Some(
                        #[trigger] schedule.time_of(channel),
                    ) by {
                    lemma_channel_positions(channel);
                }
                lemma_canonical_by_fields(raw@, schedule);
            }
            if same_bytes(text.as_slice(), raw) {
                Some(schedule)
            } else {
                None
            }
        },
        _ => None,
    }
}

/// Why a text is not read as a schedule.
#[derive(Clone, Copy, Debug, PartialEq, Eq, Structural)]
pub enum DecodeError {
    /// The text is not well-formed JSON.
    Malformed,
    /// The document lacks the member of a channel.
    MissingChannel,
    /// The value of a channel's member is not a time written as `HH:MM`.
    InvalidTime,
}

impl DecodeError {
    /// A few words that tell the reason.
    pub open spec fn wording(self) -> Seq<char> {
        match self {
            DecodeError::Malformed => "malformed document"@,
            DecodeError::MissingChannel => "missing channel"@,
            DecodeError::InvalidTime => "invalid time"@,
        }
    }

    pub fn reason(&self) -> (text: &'static str)
        ensures
            text@ == self.wording(),
    {
        match self {
            DecodeError::Malformed => "malformed document",
            DecodeError::MissingChannel => "missing channel",
            DecodeError::InvalidTime => "invalid time",
        }
    }
}

/// The time that a member's value denotes, if it is a string and the string a time.
pub open spec fn member_time(member: MemberView) -> Option<TimeOfDay> {
    match member.text {
        Some(text) => parsed_time(text),
        None => None,
    }
}

/// Whether a document has a member for a channel.
pub open spec fn has_channel(document: DocumentView, channel: Channel) -> bool {
    document.member(channel.key()) is Some
}

/// The time that a document gives a channel.
pub open spec fn channel_time(document: DocumentView, channel: Channel) -> Option<TimeOfDay> {
    match document.member(channel.key()) {
        Some(member) => member_time(member),
        None => None,
    }
}

/// The schedule that a document denotes.
///
/// A document that lacks the member of any channel is refused for that, also
/// where another channel's time is not valid; members under other names are
/// passed over.
pub open spec fn schedule_of(document: DocumentView) -> Result<Schedule, DecodeError> {
    if exists|channel: Channel| !has_channel(document, channel) {
        Err(DecodeError::MissingChannel)
    } else if exists|channel: Channel| channel_time(document, channel) is None {
        Err(DecodeError::InvalidTime)
    } else {
        Ok(
            Schedule::of(
                channel_time(document, Channel::One)->Some_0,
                channel_time(document, Channel::Two)->Some_0,
                channel_time(document, Channel::Three)->Some_0,
                channel_time(document, Channel::Four)->Some_0,
            ),
        )
    }
}

/// The schedule that a text denotes.
///
/// A text in canonical form denotes the schedule that it is the text of.
/// Any other text is read as JSON.
pub open spec fn decoded(raw: Seq<u8>) -> Result<Schedule, DecodeError> {
    match canonical(raw) {
        Some(schedule) => Ok(schedule),
        None => match json_document(raw) {
            Some(document) => schedule_of(document),
            None => Err(DecodeError::Malformed),
        },
    }
}

fn time_of_member(member: &Member) -> (r: Option<TimeOfDay>)
    ensures
        r == member_time(member@),
{
    match &member.text {
        Some(text) => TimeOfDay::parse(text.as_slice()),
        None => None,
    }
}

/// Reads the schedule out of a parsed document.
pub fn decode_document(document: &Document) -> (r: Result<Schedule, DecodeError>)
    ensures
        r == schedule_of(document@),
        r matches Ok(schedule) ==> schedule.valid(),
{
    let one: Option<&Member> = document.member(Channel::One.name().as_bytes());
    let two: Option<&Member> = document.member(Channel::Two.name().as_bytes());
    let three: Option<&Member> = document.member(Channel::Three.name().as_bytes());
    let four: Option<&Member> = document.member(Channel::Four.name().as_bytes());
    match (one, two, three, four) {
        (Some(one), Some(two), Some(three), Some(four)) => {
            proof {
                assert forall|channel: Channel| has_channel(document@, channel) by {
                    lemma_channel_positions(channel);
                }
            }
            let one: Option<TimeOfDay> = time_of_member(one);
            let two: Option<TimeOfDay> = time_of_member(two);
            let three: Option<TimeOfDay> = time_of_member(three);
            let four: Option<TimeOfDay> = time_of_member(four);
            match (one, two, three, four) {
                (Some(one), Some(two), Some(three), Some(four)) => {
                    proof {
                        assert forall|channel: Channel|
                            channel_time(document@, channel) is Some by {
                            lemma_channel_positions(channel);
                        }
                        lemma_schedule_of_is_valid(document@);
                    }
                    Ok(Schedule::new(one, two, three, four))
                },
                _ => {
                    proof {
                        assert(channel_time(document@, Channel::One) is None || channel_time(
                            document@,
                            Channel::Two,
                        ) is None || channel_time(document@, Channel::Three) is None
                            || channel_time(document@, Channel::Four) is None);
                    }
                    Err(DecodeError::InvalidTime)
                },
            }
        },
        _ => {
            proof {
                assert(!has_channel(document@, Channel::One) || !has_channel(
                    document@,
                    Channel::Two,
                ) || !has_channel(document@, Channel::Three) || !has_channel(
                    document@,
                    Channel::Four,
                ));
            }
            Err(DecodeError::MissingChannel)
        },
    }
}

/// Reads a schedule from its text.
///
/// A text in canonical form is read directly. Any other text is parsed as
/// JSON and the schedule read out of the document.
pub fn decode(raw: &[u8]) -> (r: Result<Schedule, DecodeError>)
    ensures
        r == decoded(raw@),
        r matches Ok(schedule) ==> schedule.valid(),
{
    match decode_canonical(raw) {
        Some(schedule) => Ok(schedule),
        None => match Document::parse(raw) {
            Some(document) => decode_document(&document),
            None => Err(DecodeError::Malformed),
        },
    }
}

/// Writing a valid schedule and reading the text gives the schedule back.
pub proof fn lemma_round_trip(schedule: Schedule)
    requires
        schedule.valid(),
    ensures
        decoded(encoded(schedule)) == Ok::<Schedule, DecodeError>(schedule),
{
    lemma_canonical_of_encoded(schedule);
}

/// A schedule that is read from a text is valid.
pub proof fn lemma_decoded_is_valid(raw: Seq<u8>)
    ensures
        decoded(raw) matches Ok(schedule) ==> schedule.valid(),
{
    if canonical(raw) is None && json_document(raw) is Some {
        lemma_schedule_of_is_valid(json_document(raw)->Some_0);
    }
}

/// A schedule that is read out of a document is valid, and holds for each
/// channel the time of the channel's member.
pub proof fn lemma_schedule_of_is_valid(document: DocumentView)
    ensures
        schedule_of(document) matches Ok(schedule) ==> schedule.valid() && forall|
            channel: Channel,
        |
            channel_time(document, channel) == Some(#[trigger] schedule.time_of(channel)),
{
    if schedule_of(document) is Ok {
        let schedule = schedule_of(document)->Ok_0;
        assert forall|channel: Channel|
            channel_time(document, channel) == Some(#[trigger] schedule.time_of(channel)) by {
            lemma_channel_positions(channel);
            assert(channel_time(document, channel) is Some);
        }
        assert forall|channel: Channel| (#[trigger] schedule.time_of(channel)).valid() by {
            let member = document.member(channel.key())->Some_0;
            lemma_parsed_is_text(member.text->Some_0);
        }
        assert(schedule.time_of(Channel::One).valid());
        assert(schedule.time_of(Channel::Two).valid());
        assert(schedule.time_of(Channel::Three).valid());
        assert(schedule.time_of(Channel::Four).valid());
    }
}

/// A document that lacks the member of any channel is refused for the
/// missing channel.
pub proof fn lemma_missing_channel_is_refused(document: DocumentView, channel: Channel)
    requires
        !has_channel(document, channel),
    ensures
        schedule_of(document) == Err::<Schedule, DecodeError>(DecodeError::MissingChannel),
{
}

/// A document that has a member for every channel, one of them with a value
/// that is no time written as `HH:MM`, is refused for the time.
pub proof fn lemma_invalid_time_is_refused(document: DocumentView, channel: Channel)
    requires
        forall|each: Channel| has_channel(document, each),
        channel_time(document, channel) is None,
    ensures
        schedule_of(document) == Err::<Schedule, DecodeError>(DecodeError::InvalidTime),
{
}

} // verus!

//! Times of day at minute resolution and their `HH:MM` text.

use vstd::prelude::*;

verus! {

/// Minutes in a day.
pub const MINUTES_PER_DAY: u16 = 1440;

/// ASCII code of `0`.
pub const DIGIT_ZERO: u8 = 0x30;

/// ASCII code of `9`.
pub const DIGIT_NINE: u8 = 0x39;

/// ASCII code of `:`.
pub const COLON: u8 = 0x3a;

/// Length of the text of a time.
pub const TIME_TEXT_LEN: usize = 5;

/// A wall-clock time, hour and minute.
#[derive(Clone, Copy, Debug, PartialEq, Eq, Structural)]
pub struct TimeOfDay {
    pub hour: u8,
    pub minute: u8,
}

/// Whether `b` is an ASCII decimal digit.
pub open spec fn is_digit(b: u8) -> bool {
    DIGIT_ZERO <= b <= DIGIT_NINE
}

/// The ASCII digit for `n`.
pub open spec fn digit(n: int) -> u8 {
    (DIGIT_ZERO + n) as u8
}

impl TimeOfDay {
    /// Hour below 24 and minute below 60.
    pub open spec fn valid(self) -> bool {
        self.hour < 24 && self.minute < 60
    }

    /// Minutes since midnight.
    pub open spec fn minute_of_day(self) -> int {
        self.hour * 60 + self.minute
    }

    /// The text of a time: two digits of the hour, a colon, two digits of the minute.
    pub open spec fn text(self) -> Seq<u8> {
        seq![
            digit(self.hour as int / 10),
            digit(self.hour as int % 10),
            COLON,
            digit(self.minute as int / 10),
            digit(self.minute as int % 10),
        ]
    }

    /// Midnight, the time of a channel that was never set.
    pub open spec fn spec_midnight() -> TimeOfDay {
        TimeOfDay { hour: 0, minute: 0 }
    }

    #[verifier::when_used_as_spec(spec_midnight)]
    pub fn midnight() -> (t: TimeOfDay)
        ensures
            t == Self::spec_midnight(),
    {
        TimeOfDay { hour: 0, minute: 0 }
    }

    /// The time with the given hour and minute, if there is one.
    pub fn new(hour: u8, minute: u8) -> (r: Option<TimeOfDay>)
        ensures
            r == (if hour < 24 && minute < 60 {
                Some(TimeOfDay { hour, minute })
            } else {
                None
            }),
    {
        if hour < 24 && minute < 60 {
            Some(TimeOfDay { hour, minute })
        } else {
            None
        }
    }

    pub fn is_valid(&self) -> (b: bool)
        ensures
            b == self.valid(),
    {
        self.hour < 24 && self.minute < 60
    }

    /// Minutes since midnight.
    pub fn minutes(&self) -> (m: u16)
        ensures
            m == self.minute_of_day(),
            self.valid() ==> m < MINUTES_PER_DAY,
    {
        let hour: u16 = self.hour as u16;
        let minute: u16 = self.minute as u16;
        hour * 60 + minute
    }

    /// Writes the time as `HH:MM`.
    pub fn format(&self) -> (out: [u8; 5])
        ensures
            out@ == self.text(),
    {
        let out: [u8; 5] = [
            DIGIT_ZERO + self.hour / 10,
            DIGIT_ZERO + self.hour % 10,
            COLON,
            DIGIT_ZERO + self.minute / 10,
            DIGIT_ZERO + self.minute % 10,
        ];
        assert(out@ =~= self.text());
        out
    }

    /// Reads a time written as `HH:MM`: exactly two digits, a colon, two
    /// digits, with the hour below 24 and the minute below 60.
    pub fn parse(text: &[u8]) -> (r: Option<TimeOfDay>)
        ensures
            r == parsed_time(text@),
    {
        if text.len() != TIME_TEXT_LEN {
            proof {
                lemma_text_shape_is_needed(text@);
            }
            return None;
        }
        let h1: Option<u8> = digit_value(text[0]);
        let h0: Option<u8> = digit_value(text[1]);
        let m1: Option<u8> = digit_value(text[3]);
        let m0: Option<u8> = digit_value(text[4]);
        match (h1, h0, m1, m0) {
            (Some(h1), Some(h0), Some(m1), Some(m0)) => {
                let hour: u8 = h1 * 10 + h0;
                let minute: u8 = m1 * 10 + m0;
                if text[2] == COLON && hour < 24 && minute < 60 {
                    let t = TimeOfDay { hour, minute };
                    proof {
                        assert(t.text() =~= text@);
                        lemma_text_is_parsed(t);
                    }
                    Some(t)
                } else {
                    proof {
                        lemma_text_shape_is_needed(text@);
                    }
                    None
                }
            },
            _ => {
                proof {
                    lemma_text_shape_is_needed(text@);
                }
                None
            },
        }
    }
}

/// The time that a text denotes: `Some(t)` where the text is that of a valid
/// time `t`, `None` for every other text.
pub open spec fn parsed_time(text: Seq<u8>) -> Option<TimeOfDay> {
    if exists|t: TimeOfDay| t.valid() && t.text() == text {
        Some(choose|t: TimeOfDay| t.valid() && t.text() == text)
    } else {
        None
    }
}

/// The value of a digit.
pub fn digit_value(b: u8) -> (v: Option<u8>)
    ensures
        v == (if is_digit(b) {
            Some((b - DIGIT_ZERO) as u8)
        } else {
            None
        }),
{
    if DIGIT_ZERO <= b && b <= DIGIT_NINE {
        Some(b - DIGIT_ZERO)
    } else {
        None
    }
}

/// Two valid times with the same text are the same time.
pub proof fn lemma_text_is_injective(a: TimeOfDay, b: TimeOfDay)
    requires
        a.valid(),
        b.valid(),
        a.text() == b.text(),
    ensures
        a == b,
{
    let ta = a.text();
    let tb = b.text();
    assert(ta[0] == tb[0] && ta[1] == tb[1] && ta[3] == tb[3] && ta[4] == tb[4]);
}

/// Reading the text of a valid time gives the time back.
pub proof fn lemma_text_is_parsed(t: TimeOfDay)
    requires
        t.valid(),
    ensures
        parsed_time(t.text()) == Some(t),
{
    let found = choose|u: TimeOfDay| u.valid() && u.text() == t.text();
    lemma_text_is_injective(found, t);
}

/// A text that is read as a time is the text of that time, and the time is valid.
pub proof fn lemma_parsed_is_text(text: Seq<u8>)
    ensures
        parsed_time(text) matches Some(t) ==> t.valid() && t.text() == text,
{
}

/// The text of a valid time is two digits, a colon, two digits, and the
/// numbers they spell are below 24 and below 60.
pub proof fn lemma_text_shape_is_needed(text: Seq<u8>)
    ensures
        parsed_time(text) is Some ==> {
            &&& text.len() == 5
            &&& is_digit(text[0])
            &&& is_digit(text[1])
            &&& text[2] == COLON
            &&& is_digit(text[3])
            &&& is_digit(text[4])
            &&& (text[0] - DIGIT_ZERO) * 10 + (text[1] - DIGIT_ZERO) < 24
            &&& (text[3] - DIGIT_ZERO) * 10 + (text[4] - DIGIT_ZERO) < 60
        },
{
    if parsed_time(text) is Some {
        let t = parsed_time(text)->Some_0;
        assert(t.valid() && t.text() == text);
        assert(text[0] == digit(t.hour as int / 10));
        assert(text[1] == digit(t.hour as int % 10));
        assert(text[3] == digit(t.minute as int / 10));
        assert(text[4] == digit(t.minute as int % 10));
    }
}

/// A text that spells an hour of 24 or more, or a minute of 60 or more, is
/// not read as a time.
pub proof fn lemma_out_of_range_is_refused(text: Seq<u8>)
    requires
        text.len() == 5,
        (text[0] - DIGIT_ZERO) * 10 + (text[1] - DIGIT_ZERO) >= 24 || (text[3] - DIGIT_ZERO) * 10
            + (text[4] - DIGIT_ZERO) >= 60,
    ensures
        parsed_time(text) is None,
{
    lemma_text_shape_is_needed(text);
}

} // verus!

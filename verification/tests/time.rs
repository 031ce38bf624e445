use cable_timer::time::{digit_value, TimeOfDay, MINUTES_PER_DAY};

#[test]
fn parse_reads_hour_and_minute() {
    assert_eq!(TimeOfDay::parse(b"07:30"), Some(TimeOfDay { hour: 7, minute: 30 }));
    assert_eq!(TimeOfDay::parse(b"00:00"), Some(TimeOfDay { hour: 0, minute: 0 }));
    assert_eq!(TimeOfDay::parse(b"23:59"), Some(TimeOfDay { hour: 23, minute: 59 }));
    assert_eq!(TimeOfDay::parse(b"19:05"), Some(TimeOfDay { hour: 19, minute: 5 }));
}

#[test]
fn parse_refuses_hour_of_24_or_more() {
    assert_eq!(TimeOfDay::parse(b"24:00"), None);
    assert_eq!(TimeOfDay::parse(b"25:10"), None);
    assert_eq!(TimeOfDay::parse(b"99:59"), None);
}

#[test]
fn parse_refuses_minute_of_60_or_more() {
    assert_eq!(TimeOfDay::parse(b"12:60"), None);
    assert_eq!(TimeOfDay::parse(b"00:99"), None);
}

#[test]
fn parse_wants_two_digits_a_colon_two_digits() {
    assert_eq!(TimeOfDay::parse(b""), None);
    assert_eq!(TimeOfDay::parse(b"7:30"), None);
    assert_eq!(TimeOfDay::parse(b"07:3"), None);
    assert_eq!(TimeOfDay::parse(b"07:300"), None);
    assert_eq!(TimeOfDay::parse(b"07-30"), None);
    assert_eq!(TimeOfDay::parse(b"0730 "), None);
    assert_eq!(TimeOfDay::parse(b" 7:30"), None);
    assert_eq!(TimeOfDay::parse(b"0a:00"), None);
    assert_eq!(TimeOfDay::parse(b"07:3x"), None);
    assert_eq!(TimeOfDay::parse(b"07:30\n"), None);
    assert_eq!(TimeOfDay::parse(b"+7:30"), None);
    assert_eq!(TimeOfDay::parse("０７:30".as_bytes()), None);
}

#[test]
fn format_writes_two_digits_each() {
    assert_eq!(&TimeOfDay { hour: 7, minute: 5 }.format(), b"07:05");
    assert_eq!(&TimeOfDay { hour: 0, minute: 0 }.format(), b"00:00");
    assert_eq!(&TimeOfDay { hour: 23, minute: 59 }.format(), b"23:59");
    assert_eq!(&TimeOfDay { hour: 10, minute: 40 }.format(), b"10:40");
}

#[test]
fn every_time_of_the_day_is_read_back_from_its_text() {
    let mut count: u32 = 0;
    for hour in 0u8..24 {
        for minute in 0u8..60 {
            let time = TimeOfDay { hour, minute };
            assert_eq!(TimeOfDay::parse(&time.format()), Some(time));
            count += 1;
        }
    }
    assert_eq!(count, u32::from(MINUTES_PER_DAY));
}

#[test]
fn every_text_that_is_read_is_the_text_of_the_time() {
    for a in 0x2fu8..0x3b {
        for b in 0x2fu8..0x3b {
            for c in 0x2fu8..0x3b {
                for d in 0x2fu8..0x3b {
                    let text = [a, b, b':', c, d];
                    if let Some(time) = TimeOfDay::parse(&text) {
                        assert!(time.is_valid());
                        assert_eq!(time.format(), text);
                    }
                }
            }
        }
    }
}

#[test]
fn new_takes_valid_times_only() {
    assert_eq!(TimeOfDay::new(7, 30), Some(TimeOfDay { hour: 7, minute: 30 }));
    assert_eq!(TimeOfDay::new(23, 59), Some(TimeOfDay { hour: 23, minute: 59 }));
    assert_eq!(TimeOfDay::new(24, 0), None);
    assert_eq!(TimeOfDay::new(0, 60), None);
    assert_eq!(TimeOfDay::new(255, 255), None);
}

#[test]
fn midnight_is_the_start_of_the_day() {
    assert_eq!(TimeOfDay::midnight(), TimeOfDay { hour: 0, minute: 0 });
    assert_eq!(TimeOfDay::midnight().minutes(), 0);
}

#[test]
fn minutes_counts_from_midnight() {
    assert_eq!(TimeOfDay { hour: 7, minute: 30 }.minutes(), 450);
    assert_eq!(TimeOfDay { hour: 23, minute: 59 }.minutes(), 1439);
    assert_eq!(TimeOfDay { hour: 1, minute: 0 }.minutes(), 60);
}

#[test]
fn is_valid_tells_times_of_day() {
    assert!(TimeOfDay { hour: 23, minute: 59 }.is_valid());
    assert!(!TimeOfDay { hour: 24, minute: 0 }.is_valid());
    assert!(!TimeOfDay { hour: 0, minute: 60 }.is_valid());
}

#[test]
fn digit_value_reads_ascii_digits() {
    assert_eq!(digit_value(b'0'), Some(0));
    assert_eq!(digit_value(b'9'), Some(9));
    assert_eq!(digit_value(b'/'), None);
    assert_eq!(digit_value(b':'), None);
    assert_eq!(digit_value(b'a'), None);
}

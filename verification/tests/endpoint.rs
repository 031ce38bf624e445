use cable_timer::codec::DecodeError;
use cable_timer::endpoint::{
    accept_update, index_html, UpdateOutcome, PAGE_AFTER_ONE, PAGE_AFTER_THREE, PAGE_AFTER_TWO,
    PAGE_HEAD, PAGE_TAIL,
};
use cable_timer::schedule::Schedule;
use cable_timer::store::{read_slot, write_result, StoreError};
use cable_timer::time::TimeOfDay;

fn at(hour: u8, minute: u8) -> TimeOfDay {
    TimeOfDay { hour, minute }
}

/// The values of the four time inputs of a page, in the order of the page.
fn values(page: &[u8]) -> Vec<String> {
    let page = String::from_utf8(page.to_vec()).unwrap();
    let mut found = Vec::new();
    for (at, _) in page.match_indices("<input type=\"time\"") {
        let input = &page[at..];
        let input = &input[..input.find('>').unwrap()];
        let value = &input[input.find("value=\"").unwrap() + 7..];
        found.push(value[..value.find('"').unwrap()].to_string());
    }
    found
}

/// A slot as the endpoint and the store use it together.
fn post(slot: &mut Option<Vec<u8>>, body: &[u8]) -> UpdateOutcome {
    match accept_update(body) {
        Ok(bytes) => {
            *slot = Some(bytes);
            UpdateOutcome::of_write(write_result(true))
        }
        Err(reason) => UpdateOutcome::Rejected(reason),
    }
}

fn get(slot: &Option<Vec<u8>>) -> Vec<u8> {
    index_html(&read_slot(slot.as_deref()))
}

#[test]
fn the_page_shows_the_four_times() {
    let schedule = Schedule::new(at(7, 30), at(0, 0), at(12, 5), at(23, 59));
    assert_eq!(values(&index_html(&schedule)), vec!["07:30", "00:00", "12:05", "23:59"]);
}

#[test]
fn the_page_is_the_markup_with_the_times_in_quotes() {
    let schedule = Schedule::new(at(1, 2), at(3, 4), at(5, 6), at(7, 8));
    let expected = format!(
        "{}\"01:02\"{}\"03:04\"{}\"05:06\"{}\"07:08\"{}",
        PAGE_HEAD, PAGE_AFTER_ONE, PAGE_AFTER_TWO, PAGE_AFTER_THREE, PAGE_TAIL
    );
    assert_eq!(index_html(&schedule), expected.into_bytes());
}

#[test]
fn the_page_has_an_input_for_each_channel() {
    let page = String::from_utf8(index_html(&Schedule::default())).unwrap();
    for (name, time) in [("cable1", "00:00"), ("cable2", "00:00"), ("cable3", "00:00"), ("cable4", "00:00")] {
        let input = format!(
            "<input type=\"time\" class=\"form-control\" id=\"{}\" name=\"{}\" value=\"{}\" required>",
            name, name, time
        );
        assert_eq!(page.matches(&input).count(), 1);
    }
    assert!(page.trim_start().starts_with("<!DOCTYPE html>"));
    assert!(page.trim_end().ends_with("</html>"));
    assert!(page.contains("fetch('/data'"));
}

#[test]
fn a_posted_schedule_is_shown_by_the_next_get() {
    let mut slot: Option<Vec<u8>> = None;
    assert_eq!(values(&get(&slot)), vec!["00:00", "00:00", "00:00", "00:00"]);
    let body = br#"{"cable1":"08:00","cable2":"09:00","cable3":"10:00","cable4":"11:00"}"#;
    assert_eq!(post(&mut slot, body), UpdateOutcome::Accepted);
    assert_eq!(values(&get(&slot)), vec!["08:00", "09:00", "10:00", "11:00"]);
    assert_eq!(read_slot(slot.as_deref()), Schedule::new(at(8, 0), at(9, 0), at(10, 0), at(11, 0)));
}

#[test]
fn a_post_without_cable4_leaves_the_schedule() {
    let mut slot: Option<Vec<u8>> = None;
    let body = br#"{"cable1":"08:00","cable2":"09:00","cable3":"10:00","cable4":"11:00"}"#;
    assert_eq!(post(&mut slot, body), UpdateOutcome::Accepted);
    let before = slot.clone();

    let body = br#"{"cable1":"01:00","cable2":"02:00","cable3":"03:00"}"#;
    assert_eq!(post(&mut slot, body), UpdateOutcome::Rejected(DecodeError::MissingChannel));
    assert_eq!(slot, before);
    assert_eq!(values(&get(&slot)), vec!["08:00", "09:00", "10:00", "11:00"]);
}

#[test]
fn a_post_that_is_refused_says_why() {
    let mut slot: Option<Vec<u8>> = None;
    assert_eq!(post(&mut slot, b"cable1=08:00"), UpdateOutcome::Rejected(DecodeError::Malformed));
    assert_eq!(
        post(&mut slot, br#"{"cable1":"08:00","cable2":"09:00","cable3":"10:00"}"#),
        UpdateOutcome::Rejected(DecodeError::MissingChannel)
    );
    assert_eq!(
        post(&mut slot, br#"{"cable1":"08:00","cable2":"09:00","cable3":"10:00","cable4":"11:60"}"#),
        UpdateOutcome::Rejected(DecodeError::InvalidTime)
    );
    assert_eq!(slot, None);
    assert_eq!(values(&get(&slot)), vec!["00:00", "00:00", "00:00", "00:00"]);
}

#[test]
fn an_update_is_stored_in_canonical_form() {
    let body = b"{\n \"cable4\": \"11:00\",\n \"cable2\": \"09:00\",\n \"cable1\": \"08:00\",\n \"cable3\": \"10:00\",\n \"extra\": 1\n}";
    assert_eq!(
        accept_update(body),
        Ok(br#"{"cable1":"08:00","cable2":"09:00","cable3":"10:00","cable4":"11:00"}"#.to_vec())
    );
    let body = br#"{"cable1":"08:00","cable2":"09:00","cable3":"10:00","cable4":"11:00"}"#;
    assert_eq!(accept_update(body), Ok(body.to_vec()));
}

#[test]
fn an_update_that_is_refused_gives_nothing_to_store() {
    assert_eq!(accept_update(b""), Err(DecodeError::Malformed));
    assert_eq!(accept_update(b"{}"), Err(DecodeError::MissingChannel));
    assert_eq!(
        accept_update(br#"{"cable1":"25:00","cable2":"09:00","cable3":"10:00","cable4":"11:00"}"#),
        Err(DecodeError::InvalidTime)
    );
}

#[test]
fn outcomes_are_told_apart_by_their_status() {
    assert_eq!(UpdateOutcome::Accepted.status(), 200);
    assert_eq!(UpdateOutcome::Rejected(DecodeError::Malformed).status(), 400);
    assert_eq!(UpdateOutcome::Rejected(DecodeError::MissingChannel).status(), 400);
    assert_eq!(UpdateOutcome::Rejected(DecodeError::InvalidTime).status(), 400);
    assert_eq!(UpdateOutcome::Failed(StoreError::IoFailure).status(), 500);
}

#[test]
fn the_outcome_of_a_write_follows_its_result() {
    assert_eq!(UpdateOutcome::of_write(Ok(())), UpdateOutcome::Accepted);
    assert_eq!(
        UpdateOutcome::of_write(Err(StoreError::IoFailure)),
        UpdateOutcome::Failed(StoreError::IoFailure)
    );
    assert_eq!(
        UpdateOutcome::of_write(write_result(false)),
        UpdateOutcome::Failed(StoreError::IoFailure)
    );
}

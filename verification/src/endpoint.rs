//! The configuration page and the updates that it sends.

use crate::codec::{decode, decoded, encode, encoded, DecodeError, QUOTE};
use crate::schedule::{Channel, Schedule};
use crate::store::{stored_schedule, StoreError};
use crate::time::TimeOfDay;
use vstd::prelude::*;
use vstd::string::StringSliceAdditionalSpecFns;

verus! {

/// The page up to the value of the first channel.
pub const PAGE_HEAD: &'static str = r#"
    <!DOCTYPE html>
<html lang="en">
<head>
    <meta charset="UTF-8">
    <meta name="viewport" content="width=device-width, initial-scale=1.0">
    <title>Settings Page</title>
    <!-- Bootstrap CSS -->
    <link href="https://cdn.jsdelivr.net/npm/bootstrap@5.3.0-alpha1/dist/css/bootstrap.min.css" rel="stylesheet">
    <style>
        body {
            background-color: #f8f9fa;
        }
        .settings-card {
            margin-top: 50px;
        }
        .time-label {
            font-weight: bold;
    }
    </style>
</head>
<body>
    <div class="container">
        <div class="row justify-content-center">
            <div class="col-md-6">
                <div class="card settings-card shadow-sm">
                    <div class="card-header bg-primary text-white text-center">
                        <h4>Time Settings</h4>
                    </div>
                    <div class="card-body">
                        <form id="settingsForm">
                            <!-- Time Input Fields -->
                            <div class="mb-3">
                                <label for="cable1" class="form-label time-label">Cable 1</label>
                                <input type="time" class="form-control" id="cable1" name="cable1" value="#;

/// The page between the values of the first and the second channel.
pub const PAGE_AFTER_ONE: &'static str = r#" required>
                            </div>
                            <div class="mb-3">
                                <label for="cable2" class="form-label time-label">Cable 2</label>
                                <input type="time" class="form-control" id="cable2" name="cable2" value="#;

/// The page between the values of the second and the third channel.
pub const PAGE_AFTER_TWO: &'static str = r#" required>
                            </div>
                            <div class="mb-3">
                                <label for="cable3" class="form-label time-label">Cable 3</label>
                                <input type="time" class="form-control" id="cable3" name="cable3" value="#;

/// The page between the values of the third and the fourth channel.
pub const PAGE_AFTER_THREE: &'static str = r#" required>
                            </div>
                            <div class="mb-3">
                                <label for="cable4" class="form-label time-label">Cable 4</label>
                                <input type="time" class="form-control" id="cable4" name="cable4" value="#;

/// The page after the value of the fourth channel.
pub const PAGE_TAIL: &'static str = r#" required>
                            </div>
                            <!-- Save Button -->
                            <div class="d-grid mt-4">
                                <button type="submit" class="btn btn-primary">Save Changes</button>
                            </div>
                        </form>
                    </div>
                </div>
            </div>
        </div>
    </div>

    <!-- Bootstrap Bundle with Popper -->
    <script src="https://cdn.jsdelivr.net/npm/bootstrap@5.3.0-alpha1/dist/js/bootstrap.bundle.min.js"></script>
    <script>
        document.getElementById('settingsForm').addEventListener('submit', async function (event) {
            event.preventDefault();

            // Collect form data
            const formData = new FormData(this);
            const data = Object.fromEntries(formData.entries());

            try {
                // Send POST request
                const response = await fetch('/data', {
                    method: 'POST',
                    headers: { 'Content-Type': 'application/json' },
                    body: JSON.stringify(data)
    });

                if (response.ok) {
                    alert('Settings saved successfully!');
    } else {
                    alert('Failed to save settings. Please try again.');
    }
    } catch (error) {
                console.error('Error:', error);
                alert('An error occurred. Please check your network connection.');
    }
    });
    </script>
</body>
</html>
    "#;

/// A time as the value of an input of the page: the text of the time in quotes.
pub open spec fn quoted(time: TimeOfDay) -> Seq<u8> {
    seq![QUOTE] + time.text() + seq![QUOTE]
}

/// The page for a schedule: the markup with the time of each channel as the
/// value of the channel's input.
pub open spec fn page_of(schedule: Schedule) -> Seq<u8> {
    PAGE_HEAD.spec_bytes() + quoted(schedule.times[0]) + PAGE_AFTER_ONE.spec_bytes() + quoted(
        schedule.times[1],
    ) + PAGE_AFTER_TWO.spec_bytes() + quoted(schedule.times[2]) + PAGE_AFTER_THREE.spec_bytes()
        + quoted(schedule.times[3]) + PAGE_TAIL.spec_bytes()
}

/// Where the time of a channel starts in the page.
pub open spec fn value_offset(channel: Channel) -> nat {
    match channel {
        Channel::One => PAGE_HEAD.spec_bytes().len() + 1,
        Channel::Two => PAGE_HEAD.spec_bytes().len() + PAGE_AFTER_ONE.spec_bytes().len() + 8,
        Channel::Three => PAGE_HEAD.spec_bytes().len() + PAGE_AFTER_ONE.spec_bytes().len()
            + PAGE_AFTER_TWO.spec_bytes().len() + 15,
        Channel::Four => PAGE_HEAD.spec_bytes().len() + PAGE_AFTER_ONE.spec_bytes().len()
            + PAGE_AFTER_TWO.spec_bytes().len() + PAGE_AFTER_THREE.spec_bytes().len() + 22,
    }
}

/// The five bytes of a page at the place of a channel's time.
pub open spec fn shown_time(page: Seq<u8>, channel: Channel) -> Seq<u8> {
    page.subrange(value_offset(channel) as int, value_offset(channel) as int + 5)
}

fn push_quoted(page: &mut Vec<u8>, time: TimeOfDay)
    ensures
        final(page)@ == old(page)@ + quoted(time),
{
    page.push(QUOTE);
    let text: [u8; 5] = time.format();
    crate::bytes::push_bytes(page, text.as_slice());
    page.push(QUOTE);
    assert(page@ =~= old(page)@ + quoted(time));
}

/// Renders the configuration page for a schedule.
pub fn index_html(schedule: &Schedule) -> (page: Vec<u8>)
    ensures
        page@ == page_of(*schedule),
{
    let mut page: Vec<u8> = Vec::new();
    crate::bytes::push_bytes(&mut page, PAGE_HEAD.as_bytes());
    push_quoted(&mut page, schedule.times[0]);
    crate::bytes::push_bytes(&mut page, PAGE_AFTER_ONE.as_bytes());
    push_quoted(&mut page, schedule.times[1]);
    crate::bytes::push_bytes(&mut page, PAGE_AFTER_TWO.as_bytes());
    push_quoted(&mut page, schedule.times[2]);
    crate::bytes::push_bytes(&mut page, PAGE_AFTER_THREE.as_bytes());
    push_quoted(&mut page, schedule.times[3]);
    crate::bytes::push_bytes(&mut page, PAGE_TAIL.as_bytes());
    assert(page@ =~= page_of(*schedule));
    page
}

/// The page shows for each channel the text of the channel's time.
pub proof fn lemma_page_shows_schedule(schedule: Schedule, channel: Channel)
    ensures
        value_offset(channel) + 5 <= page_of(schedule).len(),
        shown_time(page_of(schedule), channel) == schedule.time_of(channel).text(),
{
    assert(shown_time(page_of(schedule), channel) =~= schedule.time_of(channel).text());
}

/// Once the text that an update gives to store is in the slot, the schedule
/// that is read is the one that the body of the update denotes, and the page
/// shows for each channel the time that the body gives it.
pub proof fn lemma_accepted_update_is_shown(body: Seq<u8>, channel: Channel)
    requires
        decoded(body) is Ok,
    ensures
        stored_schedule(Some(encoded(decoded(body)->Ok_0))) == decoded(body)->Ok_0,
        shown_time(page_of(stored_schedule(Some(encoded(decoded(body)->Ok_0)))), channel)
            == decoded(body)->Ok_0.time_of(channel).text(),
{
    let schedule = decoded(body)->Ok_0;
    crate::codec::lemma_decoded_is_valid(body);
    crate::store::lemma_written_is_read(schedule);
    lemma_page_shows_schedule(schedule, channel);
}

/// What to put into the slot for the body of an update: the text of the
/// schedule that the body denotes. A body that denotes none is refused with
/// the reason, and nothing is to be written.
pub fn accept_update(body: &[u8]) -> (r: Result<Vec<u8>, DecodeError>)
    ensures
        match r {
            Ok(bytes) => decoded(body@) matches Ok(schedule) && bytes@ == encoded(schedule),
            Err(reason) => decoded(body@) == Err::<Schedule, DecodeError>(reason),
        },
{
    match decode(body) {
        Ok(schedule) => Ok(encode(&schedule)),
        Err(reason) => Err(reason),
    }
}

/// How an update ended.
#[derive(Clone, Copy, Debug, PartialEq, Eq, Structural)]
pub enum UpdateOutcome {
    /// The schedule was written.
    Accepted,
    /// The body denotes no schedule; the slot was left as it was.
    Rejected(DecodeError),
    /// The schedule was not written.
    Failed(StoreError),
}

impl UpdateOutcome {
    /// The outcome of an update whose body was accepted, from the result of the write.
    pub fn of_write(written: Result<(), StoreError>) -> (outcome: UpdateOutcome)
        ensures
            outcome == (match written {
                Ok(_) => UpdateOutcome::Accepted,
                Err(error) => UpdateOutcome::Failed(error),
            }),
    {
        match written {
            Ok(_) => UpdateOutcome::Accepted,
            Err(error) => UpdateOutcome::Failed(error),
        }
    }

    /// The HTTP status that tells the outcome: 200 for an update that was
    /// accepted, 400 for a body that was refused, 500 for a write that failed.
    pub fn status(&self) -> (code: u16)
        ensures
            code == (match self {
                UpdateOutcome::Accepted => 200u16,
                UpdateOutcome::Rejected(_) => 400u16,
                UpdateOutcome::Failed(_) => 500u16,
            }),
    {
        match self {
            UpdateOutcome::Accepted => 200,
            UpdateOutcome::Rejected(_) => 400,
            UpdateOutcome::Failed(_) => 500,
        }
    }
}

} // verus!

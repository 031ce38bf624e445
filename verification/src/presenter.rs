//! What the status display shows, and the button that turns its pages.
//!
//! The display has three views. A press of the button goes on to the next
//! view, once for each press however long the button is held.

use crate::schedule::{Channel, Schedule};
use vstd::prelude::*;
use vstd::string::StringSliceAdditionalSpecFns;

verus! {

/// One of the views of the display.
#[derive(Clone, Copy, Debug, PartialEq, Eq, Structural)]
pub enum ViewMode {
    /// Whether the network and the server are up.
    Summary,
    /// The address of the device in the network.
    Address,
    /// The time configured for each channel.
    Channels,
}

impl ViewMode {
    /// The view that a press of the button goes on to.
    pub open spec fn following(self) -> ViewMode {
        match self {
            ViewMode::Summary => ViewMode::Address,
            ViewMode::Address => ViewMode::Channels,
            ViewMode::Channels => ViewMode::Summary,
        }
    }

    pub fn next(self) -> (mode: ViewMode)
        ensures
            mode == self.following(),
    {
        match self {
            ViewMode::Summary => ViewMode::Address,
            ViewMode::Address => ViewMode::Channels,
            ViewMode::Channels => ViewMode::Summary,
        }
    }
}

/// The view that is shown, and whether the button was down when it was last sampled.
#[derive(Clone, Copy, Debug, PartialEq, Eq, Structural)]
pub struct Presenter {
    pub mode: ViewMode,
    pub held: bool,
}

impl Presenter {
    /// The presenter after a sample of the button.
    pub open spec fn sampled(self, pressed: bool) -> Presenter {
        Presenter {
            mode: if pressed && !self.held {
                self.mode.following()
            } else {
                self.mode
            },
            held: pressed,
        }
    }

    /// A presenter that shows the summary, with the button up.
    pub open spec fn started() -> Presenter {
        Presenter { mode: ViewMode::Summary, held: false }
    }

    pub fn new() -> (presenter: Presenter)
        ensures
            presenter == Self::started(),
    {
        Presenter { mode: ViewMode::Summary, held: false }
    }

    /// Takes a sample of the button: goes on to the next view where the
    /// button is down and was up at the sample before. Says whether the view
    /// changed.
    pub fn sample(&mut self, pressed: bool) -> (changed: bool)
        ensures
            *final(self) == old(self).sampled(pressed),
            changed == (pressed && !old(self).held),
    {
        let changed: bool = pressed && !self.held;
        if changed {
            self.mode = self.mode.next();
        }
        self.held = pressed;
        changed
    }
}

/// The presenter after the samples of `samples`, from the start.
pub open spec fn presenter_after(samples: Seq<bool>) -> Presenter
    decreases samples.len(),
{
    if samples.len() == 0 {
        Presenter::started()
    } else {
        presenter_after(samples.drop_last()).sampled(samples.last())
    }
}

/// The view changes with sample `k` exactly if the button is down at `k`
/// and was up at the sample before.
pub proof fn lemma_view_changes_on_press(samples: Seq<bool>, k: int)
    requires
        0 <= k < samples.len(),
    ensures
        presenter_after(samples.take(k + 1)).mode == (if samples[k] && (k == 0 || !samples[k
            - 1]) {
            presenter_after(samples.take(k)).mode.following()
        } else {
            presenter_after(samples.take(k)).mode
        }),
{
    assert(samples.take(k + 1).drop_last() =~= samples.take(k));
    if k > 0 {
        assert(samples.take(k).drop_last() =~= samples.take(k - 1));
    } else {
        assert(samples.take(0).len() == 0);
    }
}

/// While the button is held down the view stays the same.
pub proof fn lemma_one_view_per_press(samples: Seq<bool>, from: int, to: int)
    requires
        0 <= from <= to < samples.len(),
        forall|k: int| from <= k <= to ==> samples[k],
    ensures
        presenter_after(samples.take(to + 1)).mode == presenter_after(samples.take(from + 1)).mode,
    decreases to - from,
{
    if from < to {
        lemma_one_view_per_press(samples, from, to - 1);
        lemma_view_changes_on_press(samples, to);
    }
}

/// The font of a text on the display.
#[derive(Clone, Copy, Debug, PartialEq, Eq, Structural)]
pub enum Font {
    /// 10 by 20 pixels.
    Large,
    /// 7 by 13 pixels.
    Small,
}

/// One text on the display.
#[derive(Clone, Copy, Debug, PartialEq, Eq, Structural)]
pub enum Item {
    Title,
    NetworkCaption,
    NetworkUp,
    ServerCaption,
    ServerUp,
    AddressCaption,
    Address,
    ChannelCaption(Channel),
    ChannelTime(Channel),
}

/// The texts of a view, in the order in which they are drawn.
pub open spec fn shown(mode: ViewMode, network_up: bool, server_up: bool) -> Seq<Item> {
    match mode {
        ViewMode::Summary => seq![Item::Title, Item::NetworkCaption, Item::ServerCaption] + (
        if network_up {
            seq![Item::NetworkUp]
        } else {
            seq![]
        }) + (if server_up {
            seq![Item::ServerUp]
        } else {
            seq![]
        }),
        ViewMode::Address => seq![Item::AddressCaption] + (if network_up {
            seq![Item::Address]
        } else {
            seq![]
        }),
        ViewMode::Channels => seq![
            Item::ChannelCaption(Channel::One),
            Item::ChannelCaption(Channel::Two),
            Item::ChannelCaption(Channel::Three),
            Item::ChannelCaption(Channel::Four),
            Item::ChannelTime(Channel::One),
            Item::ChannelTime(Channel::Two),
            Item::ChannelTime(Channel::Three),
            Item::ChannelTime(Channel::Four),
        ],
    }
}

/// The texts to draw for a view.
pub fn items(mode: ViewMode, network_up: bool, server_up: bool) -> (list: Vec<Item>)
    ensures
        list@ == shown(mode, network_up, server_up),
{
    let mut list: Vec<Item> = Vec::new();
    match mode {
        ViewMode::Summary => {
            list.push(Item::Title);
            list.push(Item::NetworkCaption);
            list.push(Item::ServerCaption);
            if network_up {
                list.push(Item::NetworkUp);
            }
            if server_up {
                list.push(Item::ServerUp);
            }
        },
        ViewMode::Address => {
            list.push(Item::AddressCaption);
            if network_up {
                list.push(Item::Address);
            }
        },
        ViewMode::Channels => {
            list.push(Item::ChannelCaption(Channel::One));
            list.push(Item::ChannelCaption(Channel::Two));
            list.push(Item::ChannelCaption(Channel::Three));
            list.push(Item::ChannelCaption(Channel::Four));
            list.push(Item::ChannelTime(Channel::One));
            list.push(Item::ChannelTime(Channel::Two));
            list.push(Item::ChannelTime(Channel::Three));
            list.push(Item::ChannelTime(Channel::Four));
        },
    }
    assert(list@ =~= shown(mode, network_up, server_up));
    list
}

/// Column of the left half of the channel view.
pub const LEFT_COLUMN: i32 = 0;

/// Column of the right half of the channel view.
pub const RIGHT_COLUMN: i32 = 70;

/// Distance of a channel's time from its caption.
pub const TIME_INDENT: i32 = 20;

/// Upper row of the channel view.
pub const UPPER_ROW: i32 = 13;

/// Lower row of the channel view.
pub const LOWER_ROW: i32 = 39;

impl Item {
    /// Where the text stands: the column and the row of its upper left corner.
    pub open spec fn place(self) -> (i32, i32) {
        match self {
            Item::Title => (0, 0),
            Item::NetworkCaption => (0, 20),
            Item::NetworkUp => (55, 20),
            Item::ServerCaption => (0, 40),
            Item::ServerUp => (70, 40),
            Item::AddressCaption => (0, 20),
            Item::Address => (0, 40),
            Item::ChannelCaption(channel) => (
                if channel.position() % 2 == 0 {
                    LEFT_COLUMN
                } else {
                    RIGHT_COLUMN
                },
                if channel.position() < 2 {
                    UPPER_ROW
                } else {
                    LOWER_ROW
                },
            ),
            Item::ChannelTime(channel) => (
                if channel.position() % 2 == 0 {
                    (LEFT_COLUMN + TIME_INDENT) as i32
                } else {
                    (RIGHT_COLUMN + TIME_INDENT) as i32
                },
                if channel.position() < 2 {
                    UPPER_ROW
                } else {
                    LOWER_ROW
                },
            ),
        }
    }

    pub fn position(self) -> (at: (i32, i32))
        ensures
            at == self.place(),
    {
        match self {
            Item::Title => (0, 0),
            Item::NetworkCaption => (0, 20),
            Item::NetworkUp => (55, 20),
            Item::ServerCaption => (0, 40),
            Item::ServerUp => (70, 40),
            Item::AddressCaption => (0, 20),
            Item::Address => (0, 40),
            Item::ChannelCaption(channel) => {
                let i: usize = channel.index();
                (
                    if i % 2 == 0 {
                        LEFT_COLUMN
                    } else {
                        RIGHT_COLUMN
                    },
                    if i < 2 {
                        UPPER_ROW
                    } else {
                        LOWER_ROW
                    },
                )
            },
            Item::ChannelTime(channel) => {
                let i: usize = channel.index();
                (
                    if i % 2 == 0 {
                        LEFT_COLUMN + TIME_INDENT
                    } else {
                        RIGHT_COLUMN + TIME_INDENT
                    },
                    if i < 2 {
                        UPPER_ROW
                    } else {
                        LOWER_ROW
                    },
                )
            },
        }
    }

    /// The font of the text: small in the channel view, large elsewhere.
    pub open spec fn face(self) -> Font {
        match self {
            Item::ChannelCaption(_) => Font::Small,
            Item::ChannelTime(_) => Font::Small,
            _ => Font::Large,
        }
    }

    pub fn font(self) -> (font: Font)
        ensures
            font == self.face(),
    {
        match self {
            Item::ChannelCaption(_) => Font::Small,
            Item::ChannelTime(_) => Font::Small,
            _ => Font::Large,
        }
    }

    /// The text: a caption, the address as it was handed in, or the time of
    /// a channel in the schedule.
    pub open spec fn wording(self, schedule: Schedule, address: Seq<u8>) -> Seq<u8> {
        match self {
            Item::Title => "Device Info".spec_bytes(),
            Item::NetworkCaption => "WIFI: ".spec_bytes(),
            Item::NetworkUp => "OK".spec_bytes(),
            Item::ServerCaption => "SERVER: ".spec_bytes(),
            Item::ServerUp => "OK".spec_bytes(),
            Item::AddressCaption => "SERVER IP".spec_bytes(),
            Item::Address => address,
            Item::ChannelCaption(channel) => match channel {
                Channel::One => "C1:".spec_bytes(),
                Channel::Two => "C2:".spec_bytes(),
                Channel::Three => "C3:".spec_bytes(),
                Channel::Four => "C4:".spec_bytes(),
            },
            Item::ChannelTime(channel) => schedule.time_of(channel).text(),
        }
    }

    pub fn text(self, schedule: &Schedule, address: &[u8]) -> (text: Vec<u8>)
        ensures
            text@ == self.wording(*schedule, address@),
    {
        let mut text: Vec<u8> = Vec::new();
        match self {
            Item::Title => crate::bytes::push_bytes(&mut text, "Device Info".as_bytes()),
            Item::NetworkCaption => crate::bytes::push_bytes(&mut text, "WIFI: ".as_bytes()),
            Item::NetworkUp => crate::bytes::push_bytes(&mut text, "OK".as_bytes()),
            Item::ServerCaption => crate::bytes::push_bytes(&mut text, "SERVER: ".as_bytes()),
            Item::ServerUp => crate::bytes::push_bytes(&mut text, "OK".as_bytes()),
            Item::AddressCaption => crate::bytes::push_bytes(&mut text, "SERVER IP".as_bytes()),
            Item::Address => crate::bytes::push_bytes(&mut text, address),
            Item::ChannelCaption(channel) => {
                let caption: &str = match channel {
                    Channel::One => "C1:",
                    Channel::Two => "C2:",
                    Channel::Three => "C3:",
                    Channel::Four => "C4:",
                };
                crate::bytes::push_bytes(&mut text, caption.as_bytes())
            },
            Item::ChannelTime(channel) => {
                let time: [u8; 5] = schedule.time(channel).format();
                crate::bytes::push_bytes(&mut text, time.as_slice())
            },
        }
        assert(text@ =~= self.wording(*schedule, address@));
        text
    }
}

} // verus!

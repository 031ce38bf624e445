use cable_timer::presenter::{items, Font, Item, Presenter, ViewMode};
use cable_timer::schedule::{Channel, Schedule};
use cable_timer::time::TimeOfDay;

fn at(hour: u8, minute: u8) -> TimeOfDay {
    TimeOfDay { hour, minute }
}

#[test]
fn the_views_follow_each_other_in_a_circle() {
    assert_eq!(ViewMode::Summary.next(), ViewMode::Address);
    assert_eq!(ViewMode::Address.next(), ViewMode::Channels);
    assert_eq!(ViewMode::Channels.next(), ViewMode::Summary);
}

#[test]
fn a_new_presenter_shows_the_summary() {
    assert_eq!(Presenter::new(), Presenter { mode: ViewMode::Summary, held: false });
}

#[test]
fn a_press_goes_on_by_one_view_however_long_it_lasts() {
    let mut presenter = Presenter::new();
    assert!(!presenter.sample(false));
    assert_eq!(presenter.mode, ViewMode::Summary);
    assert!(presenter.sample(true));
    assert_eq!(presenter.mode, ViewMode::Address);
    for _ in 0..1000 {
        assert!(!presenter.sample(true));
        assert_eq!(presenter.mode, ViewMode::Address);
    }
    assert!(!presenter.sample(false));
    assert_eq!(presenter.mode, ViewMode::Address);
    assert!(presenter.sample(true));
    assert_eq!(presenter.mode, ViewMode::Channels);
    assert!(!presenter.sample(false));
    assert!(presenter.sample(true));
    assert_eq!(presenter.mode, ViewMode::Summary);
    assert!(presenter.held);
}

#[test]
fn the_views_change_as_often_as_the_button_goes_down() {
    let samples = [false, true, true, false, false, true, false, true, true, true, false, true];
    let mut presenter = Presenter::new();
    let mut changes = 0;
    for (k, pressed) in samples.iter().enumerate() {
        let changed = presenter.sample(*pressed);
        assert_eq!(changed, *pressed && (k == 0 || !samples[k - 1]));
        if changed {
            changes += 1;
        }
    }
    assert_eq!(changes, 4);
    assert_eq!(presenter.mode, ViewMode::Address);
}

#[test]
fn a_button_that_is_down_at_the_start_counts_as_a_press() {
    let mut presenter = Presenter::new();
    assert!(presenter.sample(true));
    assert_eq!(presenter, Presenter { mode: ViewMode::Address, held: true });
}

#[test]
fn the_summary_shows_what_is_up() {
    assert_eq!(
        items(ViewMode::Summary, false, false),
        vec![Item::Title, Item::NetworkCaption, Item::ServerCaption]
    );
    assert_eq!(
        items(ViewMode::Summary, true, false),
        vec![Item::Title, Item::NetworkCaption, Item::ServerCaption, Item::NetworkUp]
    );
    assert_eq!(
        items(ViewMode::Summary, false, true),
        vec![Item::Title, Item::NetworkCaption, Item::ServerCaption, Item::ServerUp]
    );
    assert_eq!(
        items(ViewMode::Summary, true, true),
        vec![Item::Title, Item::NetworkCaption, Item::ServerCaption, Item::NetworkUp, Item::ServerUp]
    );
}

#[test]
fn the_address_is_shown_with_the_network_up() {
    assert_eq!(items(ViewMode::Address, false, true), vec![Item::AddressCaption]);
    assert_eq!(items(ViewMode::Address, true, false), vec![Item::AddressCaption, Item::Address]);
}

#[test]
fn the_channel_view_shows_captions_and_times() {
    for (network_up, server_up) in [(false, false), (true, true)] {
        assert_eq!(
            items(ViewMode::Channels, network_up, server_up),
            vec![
                Item::ChannelCaption(Channel::One),
                Item::ChannelCaption(Channel::Two),
                Item::ChannelCaption(Channel::Three),
                Item::ChannelCaption(Channel::Four),
                Item::ChannelTime(Channel::One),
                Item::ChannelTime(Channel::Two),
                Item::ChannelTime(Channel::Three),
                Item::ChannelTime(Channel::Four),
            ]
        );
    }
}

#[test]
fn every_text_has_its_place() {
    assert_eq!(Item::Title.position(), (0, 0));
    assert_eq!(Item::NetworkCaption.position(), (0, 20));
    assert_eq!(Item::NetworkUp.position(), (55, 20));
    assert_eq!(Item::ServerCaption.position(), (0, 40));
    assert_eq!(Item::ServerUp.position(), (70, 40));
    assert_eq!(Item::AddressCaption.position(), (0, 20));
    assert_eq!(Item::Address.position(), (0, 40));
    assert_eq!(Item::ChannelCaption(Channel::One).position(), (0, 13));
    assert_eq!(Item::ChannelCaption(Channel::Two).position(), (70, 13));
    assert_eq!(Item::ChannelCaption(Channel::Three).position(), (0, 39));
    assert_eq!(Item::ChannelCaption(Channel::Four).position(), (70, 39));
    assert_eq!(Item::ChannelTime(Channel::One).position(), (20, 13));
    assert_eq!(Item::ChannelTime(Channel::Two).position(), (90, 13));
    assert_eq!(Item::ChannelTime(Channel::Three).position(), (20, 39));
    assert_eq!(Item::ChannelTime(Channel::Four).position(), (90, 39));
}

#[test]
fn the_channel_view_is_set_in_the_small_font() {
    for channel in [Channel::One, Channel::Two, Channel::Three, Channel::Four] {
        assert_eq!(Item::ChannelCaption(channel).font(), Font::Small);
        assert_eq!(Item::ChannelTime(channel).font(), Font::Small);
    }
    for item in [
        Item::Title,
        Item::NetworkCaption,
        Item::NetworkUp,
        Item::ServerCaption,
        Item::ServerUp,
        Item::AddressCaption,
        Item::Address,
    ] {
        assert_eq!(item.font(), Font::Large);
    }
}

#[test]
fn every_text_has_its_wording() {
    let schedule = Schedule::new(at(7, 30), at(0, 0), at(12, 5), at(23, 59));
    let address = b"192.168.0.17";
    let text = |item: Item| String::from_utf8(item.text(&schedule, address)).unwrap();
    assert_eq!(text(Item::Title), "Device Info");
    assert_eq!(text(Item::NetworkCaption), "WIFI: ");
    assert_eq!(text(Item::NetworkUp), "OK");
    assert_eq!(text(Item::ServerCaption), "SERVER: ");
    assert_eq!(text(Item::ServerUp), "OK");
    assert_eq!(text(Item::AddressCaption), "SERVER IP");
    assert_eq!(text(Item::Address), "192.168.0.17");
    assert_eq!(text(Item::ChannelCaption(Channel::One)), "C1:");
    assert_eq!(text(Item::ChannelCaption(Channel::Two)), "C2:");
    assert_eq!(text(Item::ChannelCaption(Channel::Three)), "C3:");
    assert_eq!(text(Item::ChannelCaption(Channel::Four)), "C4:");
    assert_eq!(text(Item::ChannelTime(Channel::One)), "07:30");
    assert_eq!(text(Item::ChannelTime(Channel::Two)), "00:00");
    assert_eq!(text(Item::ChannelTime(Channel::Three)), "12:05");
    assert_eq!(text(Item::ChannelTime(Channel::Four)), "23:59");
}

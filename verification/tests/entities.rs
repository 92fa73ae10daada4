use fedistar::entities::timeline::{ColumnWidth, Kind};
use fedistar::entities::instruction::TourStart;
use fedistar::entities::{Account, Instruction, Server, Timeline};

#[test]
fn kind_names_round_trip() {
    let all = [
        (Kind::Home, "home"),
        (Kind::Notifications, "notifications"),
        (Kind::Local, "local"),
        (Kind::Public, "public"),
        (Kind::Favourites, "favourites"),
        (Kind::List, "list"),
        (Kind::Bookmarks, "bookmarks"),
        (Kind::Direct, "direct"),
        (Kind::Tag, "tag"),
    ];
    for (kind, name) in all {
        assert_eq!(kind.to_string(), name);
        assert_eq!(Kind::from_str(name), Ok(kind));
    }
}

#[test]
fn unknown_kind_is_an_error() {
    assert_eq!(Kind::from_str("Home"), Err(String::from("Unknown timeline kind")));
    assert_eq!(Kind::from_str(""), Err(String::from("Unknown timeline kind")));
    assert_eq!(Kind::from_str("lists"), Err(String::from("Unknown timeline kind")));
}

#[test]
fn column_width_names_round_trip() {
    let all = [
        (ColumnWidth::XS, "xs"),
        (ColumnWidth::SM, "sm"),
        (ColumnWidth::MD, "md"),
        (ColumnWidth::LG, "lg"),
    ];
    for (width, name) in all {
        assert_eq!(width.to_string(), name);
        assert_eq!(ColumnWidth::from_str(name), Ok(width));
    }
}

#[test]
fn unknown_column_width_is_an_error() {
    assert_eq!(
        ColumnWidth::from_str("xl"),
        Err(String::from("Unknown timeline column width"))
    );
    assert_eq!(
        ColumnWidth::from_str("XS"),
        Err(String::from("Unknown timeline column width"))
    );
}

#[test]
fn a_new_timeline_shows_boosts_and_replies() {
    let timeline = Timeline::new(
        3,
        7,
        Kind::List,
        String::from("friends"),
        5,
        Some(String::from("42")),
        ColumnWidth::MD,
    );
    assert_eq!(timeline.id, 3);
    assert_eq!(timeline.server_id, 7);
    assert_eq!(timeline.kind, Kind::List);
    assert_eq!(timeline.name, "friends");
    assert_eq!(timeline.sort, 5);
    assert_eq!(timeline.list_id, Some(String::from("42")));
    assert_eq!(timeline.column_width, ColumnWidth::MD);
    assert!(timeline.show_boosts);
    assert!(timeline.show_replies);
}

#[test]
fn a_list_timeline_needs_its_list() {
    let with = Timeline::new(1, 1, Kind::List, String::from("a"), 1, Some(String::from("9")), ColumnWidth::SM);
    let without = Timeline::new(1, 1, Kind::List, String::from("a"), 1, None, ColumnWidth::SM);
    let tag = Timeline::new(1, 1, Kind::Tag, String::from("a"), 1, None, ColumnWidth::SM);
    assert!(with.is_valid());
    assert!(!without.is_valid());
    assert!(tag.is_valid());
}

#[test]
fn timeline_copies_change_one_field() {
    let timeline = Timeline::new(3, 7, Kind::Tag, String::from("rust"), 5, None, ColumnWidth::MD);
    let moved = timeline.with_sort(-100);
    assert_eq!(moved.sort, -100);
    assert_eq!(moved.id, 3);
    assert_eq!(moved.name, "rust");
    let wide = timeline.with_column_width(ColumnWidth::LG);
    assert_eq!(wide.column_width, ColumnWidth::LG);
    assert_eq!(wide.sort, 5);
    let quiet = timeline.with_show_boosts(false).with_show_replies(false);
    assert!(!quiet.show_boosts);
    assert!(!quiet.show_replies);
    let copy = timeline.clone();
    assert_eq!(copy.id, 3);
    assert_eq!(copy.kind, Kind::Tag);
    assert!(copy.show_boosts);
}

#[test]
fn a_new_server_has_no_account() {
    let server = Server::new(
        1,
        String::from("example.social"),
        String::from("https://example.social"),
        Some(String::from("https://example.social/favicon.ico")),
    );
    assert_eq!(server.id, 1);
    assert_eq!(server.domain, "example.social");
    assert_eq!(server.base_url, "https://example.social");
    assert_eq!(server.favicon, Some(String::from("https://example.social/favicon.ico")));
    assert_eq!(server.account_id, None);
    let copy = server.clone();
    assert_eq!(copy.domain, "example.social");
}

#[test]
fn a_new_account_is_not_the_default() {
    let account = Account::new(
        0,
        String::from("alice"),
        String::from("109"),
        Some(String::from("https://example.social/a.png")),
        None,
        String::from("secret"),
        String::from("token"),
        Some(String::from("refresh")),
    );
    assert_eq!(account.id, 0);
    assert_eq!(account.username, "alice");
    assert_eq!(account.account_id, "109");
    assert_eq!(account.avatar, Some(String::from("https://example.social/a.png")));
    assert_eq!(account.client_id, None);
    assert_eq!(account.client_secret, "secret");
    assert_eq!(account.access_token, "token");
    assert_eq!(account.refresh_token, Some(String::from("refresh")));
    assert!(!account.is_default);
    assert!(account.with_default(true).is_default);
    assert_eq!(account.with_default(true).username, "alice");
}

#[test]
fn the_tour_starts_at_zero_and_never_goes_back() {
    assert_eq!(Instruction::init(None), TourStart::Store { instruction: 0 });
    let stored = Instruction { id: 4, instruction: 2 };
    assert_eq!(Instruction::init(Some(stored)), TourStart::Stored(stored));
    assert_eq!(stored.advance(3), Instruction { id: 4, instruction: 3 });
    assert_eq!(stored.advance(2), stored);
    assert_eq!(stored.advance(1), stored);
    assert_eq!(stored.advance(0), stored);
}

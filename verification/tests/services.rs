use xous::MessageSender;
use xous_core::book::{direction_word, getpage, page_text, rawkeys, Direction, KeyDecision};
use xous_core::ifram::{bank_may_serve, bank_of, pages_for, release, try_alloc};
use xous_core::mtxchat::{
    gen_txn_id, key_is_protected, split_user_id, MtxChat, PermissionDenied, Readiness, FILTER_KEY, PASSWORD_KEY,
    ROOM_DOMAIN_KEY, ROOM_ID_KEY, ROOM_NAME_KEY, SINCE_KEY, TOKEN_KEY, USER_DOMAIN_KEY,
    USER_ID_KEY, USER_NAME_KEY,
};
use xous_core::tls::{verify_server_cert, CertificateCheck, Help, Verdict};

fn owner(n: usize) -> MessageSender {
    MessageSender::from_usize(n)
}

fn table(pattern: &str) -> Vec<Option<MessageSender>> {
    pattern.chars().map(|c| if c == '.' { None } else { Some(owner(c as usize)) }).collect()
}

#[test]
fn pages_are_rounded_up() {
    assert_eq!(pages_for(0), 0);
    assert_eq!(pages_for(1), 1);
    assert_eq!(pages_for(4096), 1);
    assert_eq!(pages_for(4097), 2);
    assert_eq!(pages_for(3 * 4096), 3);
}

#[test]
fn first_long_enough_run_is_taken() {
    let mut allocs = table("x..x...x");
    assert_eq!(try_alloc(&mut allocs, 3 * 4096, owner(7)), Some(4 * 4096));
    let mut expected = table("x..x...x");
    for page in expected[4..7].iter_mut() {
        *page = Some(owner(7));
    }
    assert_eq!(allocs, expected);
    assert_eq!(try_alloc(&mut allocs, 4096 + 1, owner(8)), Some(4096));
    assert_eq!(try_alloc(&mut allocs, 1, owner(9)), None);
}

#[test]
fn single_pages_are_found_anywhere() {
    let mut allocs = table("x.x..");
    assert_eq!(try_alloc(&mut allocs, 100, owner(1)), Some(4096));
    assert_eq!(try_alloc(&mut allocs, 100, owner(1)), Some(3 * 4096));
    assert_eq!(try_alloc(&mut allocs, 100, owner(1)), Some(4 * 4096));
    assert_eq!(try_alloc(&mut allocs, 100, owner(1)), None);
}

#[test]
fn runs_that_are_too_short_are_left_alone() {
    let mut allocs = table("..x..x.");
    let before = allocs.clone();
    assert_eq!(try_alloc(&mut allocs, 3 * 4096, owner(1)), None);
    assert_eq!(allocs, before);
    assert_eq!(try_alloc(&mut allocs, 0, owner(1)), None);
    assert_eq!(allocs, before);
    let mut empty: Vec<Option<MessageSender>> = Vec::new();
    assert_eq!(try_alloc(&mut empty, 1, owner(1)), None);
}

#[test]
fn whole_bank_can_be_taken() {
    let mut allocs = table("....");
    assert_eq!(try_alloc(&mut allocs, 4 * 4096, owner(3)), Some(0));
    assert!(allocs.iter().all(|page| *page == Some(owner(3))));
    release(&mut allocs, 1, 2);
    assert_eq!(allocs, vec![Some(owner(3)), None, None, Some(owner(3))]);
    release(&mut allocs, 0, 0);
    assert_eq!(allocs, vec![Some(owner(3)), None, None, Some(owner(3))]);
}

#[test]
fn banks_are_told_apart_by_address() {
    assert_eq!(bank_of(0x5000_0000, 0x5000_0000, 0x5002_0000, 0x2_0000), Some((0, 0)));
    assert_eq!(bank_of(0x5001_ffff, 0x5000_0000, 0x5002_0000, 0x2_0000), Some((0, 0x1_ffff)));
    assert_eq!(bank_of(0x5002_0000, 0x5000_0000, 0x5002_0000, 0x2_0000), Some((1, 0)));
    assert_eq!(bank_of(0x5003_1000, 0x5000_0000, 0x5002_0000, 0x2_0000), Some((1, 0x1_1000)));
    assert_eq!(bank_of(0x5004_0000, 0x5000_0000, 0x5002_0000, 0x2_0000), None);
    assert_eq!(bank_of(0x4fff_ffff, 0x5000_0000, 0x5002_0000, 0x2_0000), None);
    assert!(bank_may_serve(0, 0));
    assert!(!bank_may_serve(1, 0));
    assert!(bank_may_serve(1, 1));
    assert!(bank_may_serve(0, 2));
    assert!(bank_may_serve(1, 77));
}

#[test]
fn only_the_unknown_issuer_is_overridden() {
    assert_eq!(
        verify_server_cert(CertificateCheck::Verified),
        Verdict { accept: true, notify_invalid: false, help: None }
    );
    assert_eq!(
        verify_server_cert(CertificateCheck::UnknownIssuer),
        Verdict { accept: true, notify_invalid: true, help: Some(Help::UnknownIssuer) }
    );
    assert_eq!(
        verify_server_cert(CertificateCheck::NotValidYet),
        Verdict { accept: false, notify_invalid: true, help: Some(Help::NotValidYet) }
    );
    assert_eq!(
        verify_server_cert(CertificateCheck::OtherInvalid),
        Verdict { accept: false, notify_invalid: true, help: None }
    );
    assert_eq!(
        verify_server_cert(CertificateCheck::Failed),
        Verdict { accept: false, notify_invalid: false, help: None }
    );
}

#[test]
fn protected_keys_are_refused() {
    assert!(key_is_protected("__secret"));
    assert!(key_is_protected("__"));
    assert!(!key_is_protected("_token"));
    assert!(!key_is_protected("_"));
    assert!(!key_is_protected(""));
    let mut session = MtxChat::new();
    assert_eq!(session.set("__x", "1"), Err(PermissionDenied));
    assert_eq!(session.unset("__x"), Err(PermissionDenied));
    assert!(!session.set_debug("__x", "1"));
    assert!(!session.unset_debug("__x"));
    assert_eq!(session.set("anything", "1"), Ok(()));
    assert_eq!(session.unset("anything"), Ok(()));
}

#[test]
fn new_session_knows_only_the_default_server() {
    let session = MtxChat::new();
    assert_eq!(session.user_domain.as_deref(), Some("matrix.org"));
    assert_eq!(session.user_id, None);
    assert_eq!(session.token, None);
    assert_eq!(session.room_alias(), None);
    assert!(!session.logged_in);
    assert!(!session.listening);
}

#[test]
fn set_and_unset_update_the_cache() {
    let mut session = MtxChat::new();
    assert!(session.set_debug(FILTER_KEY, "f"));
    assert!(session.set_debug(PASSWORD_KEY, "p"));
    assert!(session.set_debug(ROOM_ID_KEY, "!r"));
    assert!(session.set_debug(ROOM_NAME_KEY, "room"));
    assert!(session.set_debug(ROOM_DOMAIN_KEY, "example.org"));
    assert!(session.set_debug(SINCE_KEY, "s1"));
    assert!(session.set_debug(TOKEN_KEY, "t"));
    assert!(session.set_debug(USER_NAME_KEY, "alice"));
    assert!(session.set_debug(USER_DOMAIN_KEY, "example.com"));
    assert!(session.set_debug(USER_ID_KEY, "@alice:example.com"));
    assert_eq!(session.filter.as_deref(), Some("f"));
    assert_eq!(session.room_id.as_deref(), Some("!r"));
    assert_eq!(session.room_name.as_deref(), Some("room"));
    assert_eq!(session.room_domain.as_deref(), Some("example.org"));
    assert_eq!(session.since.as_deref(), Some("s1"));
    assert_eq!(session.token.as_deref(), Some("t"));
    assert_eq!(session.user_name.as_deref(), Some("alice"));
    assert_eq!(session.user_domain.as_deref(), Some("example.com"));
    assert_eq!(session.user_id.as_deref(), Some("@alice:example.com"));
    assert_eq!(session.room_alias(), Some(String::from("#room:example.org")));
    for key in [
        FILTER_KEY, PASSWORD_KEY, ROOM_ID_KEY, ROOM_NAME_KEY, ROOM_DOMAIN_KEY, SINCE_KEY,
        TOKEN_KEY, USER_NAME_KEY, USER_DOMAIN_KEY, USER_ID_KEY,
    ] {
        assert!(session.unset_debug(key));
    }
    assert_eq!(session.filter, None);
    assert_eq!(session.room_id, None);
    assert_eq!(session.room_domain, None);
    assert_eq!(session.since, None);
    assert_eq!(session.user_name, None);
    assert_eq!(session.user_domain, None);
    assert_eq!(session.user_id, None);
    // The room name and the token stay cached.
    assert_eq!(session.room_name.as_deref(), Some("room"));
    assert_eq!(session.token.as_deref(), Some("t"));
    session.logout();
    assert_eq!(session.token.as_deref(), Some("t"));
    assert_eq!(session.room_alias(), None);
}

#[test]
fn readiness_names_what_is_missing_first() {
    let mut session = MtxChat::new();
    assert_eq!(session.post(), Readiness::NotLoggedIn);
    assert_eq!(session.get_filter(), Readiness::NotLoggedIn);
    assert_eq!(session.get_room_id(), Readiness::NotLoggedIn);
    assert_eq!(session.listen(), Readiness::NotLoggedIn);
    session.logged_in = true;
    assert_eq!(session.post(), Readiness::NoToken);
    assert_eq!(session.get_filter(), Readiness::NoToken);
    session.set(TOKEN_KEY, "t").unwrap();
    assert_eq!(session.post(), Readiness::NoRoomId);
    assert_eq!(session.get_filter(), Readiness::NoUserId);
    assert_eq!(session.get_room_id(), Readiness::NoRoomAlias);
    assert_eq!(session.listen(), Readiness::NoRoomId);
    session.set(USER_ID_KEY, "@a:b").unwrap();
    session.unset(USER_DOMAIN_KEY).unwrap();
    assert_eq!(session.post(), Readiness::NoUserDomain);
    assert_eq!(session.get_filter(), Readiness::NoUserDomain);
    assert_eq!(session.get_room_id(), Readiness::NoUserDomain);
    session.set(USER_DOMAIN_KEY, "b").unwrap();
    assert_eq!(session.get_filter(), Readiness::NoRoomId);
    session.set(ROOM_ID_KEY, "!r").unwrap();
    assert_eq!(session.post(), Readiness::Ready);
    assert_eq!(session.get_filter(), Readiness::Ready);
    assert_eq!(session.listen(), Readiness::NoFilter);
    session.set(FILTER_KEY, "f").unwrap();
    assert_eq!(session.get_filter(), Readiness::AlreadyDone);
    assert_eq!(session.listen(), Readiness::NoRoomAlias);
    assert!(!session.listening);
    session.set(ROOM_NAME_KEY, "room").unwrap();
    session.set(ROOM_DOMAIN_KEY, "b").unwrap();
    assert_eq!(session.get_room_id(), Readiness::Ready);
    assert_eq!(session.listen(), Readiness::Ready);
    assert!(session.listening);
    assert_eq!(session.listen(), Readiness::AlreadyDone);
    assert!(session.listening);
}

#[test]
fn listening_ends_with_a_position() {
    let mut session = MtxChat::new();
    session.listening = true;
    session.logged_in = true;
    assert!(session.listen_over("s42"));
    assert!(!session.listening);
    assert_eq!(session.since.as_deref(), Some("s42"));
    session.listening = true;
    assert!(!session.listen_over(""));
    assert!(!session.listening);
    assert_eq!(session.since.as_deref(), Some("s42"));
    session.logged_in = false;
    assert!(!session.listen_over("s43"));
    assert_eq!(session.since.as_deref(), Some("s43"));
}

#[test]
fn transaction_ids_wrap_round() {
    assert_eq!(gen_txn_id(1, 2), 3);
    assert_eq!(gen_txn_id(0xffff_ffff, 1), 0);
    assert_eq!(gen_txn_id(0xffff_fff0, 999_999_999), 999_999_983);
}

#[test]
fn keys_are_read_in_order_of_rank() {
    let none = '\u{0}';
    assert_eq!(
        rawkeys(&['\u{8}', '-', '1', '!'], 100),
        KeyDecision { direction: Direction::Prev, book: None, backlight: 100 }
    );
    assert_eq!(
        rawkeys(&['1', '-', '+', '!'], 100),
        KeyDecision { direction: Direction::Less, book: None, backlight: 100 }
    );
    assert_eq!(rawkeys(&[none, none, 'g', none], 100).direction, Direction::Less);
    assert_eq!(
        rawkeys(&['1', '+', none, '!'], 100),
        KeyDecision { direction: Direction::More, book: None, backlight: 100 }
    );
    assert_eq!(rawkeys(&['h', none, none, none], 100).direction, Direction::More);
    assert_eq!(
        rawkeys(&['7', '3', '!', '9'], 100),
        KeyDecision { direction: Direction::List, book: Some(3), backlight: 100 }
    );
    assert_eq!(rawkeys(&['0', none, none, none], 100).book, Some(0));
    assert_eq!(rawkeys(&[none, none, none, '9'], 100).book, Some(9));
    assert_eq!(
        rawkeys(&['a', none, none, none], 100),
        KeyDecision { direction: Direction::Next, book: None, backlight: 100 }
    );
    assert_eq!(
        rawkeys(&[none, none, none, none], 20),
        KeyDecision { direction: Direction::Next, book: None, backlight: 20 }
    );
}

#[test]
fn exclamation_mark_toggles_the_backlight() {
    let none = '\u{0}';
    assert_eq!(
        rawkeys(&['!', none, none, none], 100),
        KeyDecision { direction: Direction::Next, book: None, backlight: 20 }
    );
    assert_eq!(rawkeys(&['!', none, none, none], 20).backlight, 255);
    assert_eq!(rawkeys(&['!', none, none, none], 255).backlight, 20);
}

#[test]
fn page_address_names_direction_and_book() {
    assert_eq!(getpage(Direction::Next, "0"), "book/next?bookindex=0");
    assert_eq!(getpage(Direction::Prev, "12"), "book/prev?bookindex=12");
    assert_eq!(getpage(Direction::List, ""), "book/list?bookindex=");
    assert_eq!(direction_word(Direction::Less), "less");
    assert_eq!(direction_word(Direction::More), "more");
}

#[test]
fn page_text_is_what_follows_the_headers() {
    let message = "HTTP/1.1 200 OK\r\nContent-Type: text/plain\r\n\r\nIt was a dark\r\nand stormy night.\n";
    assert_eq!(page_text(message), "It was a darkand stormy night.");
    assert_eq!(page_text("a\n\nb\n\nc"), "bc");
    assert_eq!(page_text("no blank line\nat all"), "");
    assert_eq!(page_text(""), "");
    assert_eq!(page_text("\n"), "");
    assert_eq!(page_text("\nx"), "x");
    assert_eq!(page_text("\nx\r"), "x\r");
    assert_eq!(page_text("\r\nx\r\n"), "x");
    assert_eq!(page_text("\n\r\r\ny"), "\ry");
}

#[test]
fn page_text_agrees_with_line_splitting() {
    for message in ["a\r\n\r\nb\r\nc", "\n\n\n", "x\n\ny\r", "h: 1\n\n\u{e4}\u{f6}\n\u{fc}", "\r\n\r\n"] {
        let mut expected = String::new();
        let mut found_blank = false;
        for line in message.lines() {
            if found_blank {
                expected.push_str(line);
            }
            if line.is_empty() {
                found_blank = true;
            }
        }
        assert_eq!(page_text(message), expected);
    }
}

#[test]
fn user_ids_are_split_at_the_colon() {
    assert_eq!(
        split_user_id("@alice:example.org"),
        Some((String::from("alice"), String::from("example.org")))
    );
    assert_eq!(split_user_id("bob:example.org"), Some((String::from("bob"), String::from("example.org"))));
    assert_eq!(split_user_id("@carol:"), Some((String::from("carol"), String::from(""))));
    assert_eq!(split_user_id("@:x:y"), Some((String::from(""), String::from("x:y"))));
    assert_eq!(split_user_id("@dave"), None);
    assert_eq!(split_user_id(""), None);
    assert_eq!(split_user_id("erin:home@work"), None);
    assert_eq!(split_user_id("x@frank:example.org"), Some((String::from("frank"), String::from("example.org"))));
}

//! Messages, keyboards and callbacks.

use rsstg::cache::{collect_feeds, FeedList};
use rsstg::sql::{Conn, Db, Feed};
use rsstg::tg_bot::{get_kb, Callback, Keyboard, MyMessage, ParseMode, Tg};
use std::collections::{BTreeMap, BTreeSet};

fn feeds(n: i32) -> FeedList {
    collect_feeds(
        (0..n).rev().map(|i| Feed { source_id: i * 10, channel: format!("@c{i}") }).collect(),
    )
}

#[test]
fn callbacks_are_written() {
    let callback = Callback::list("xxx", 0);
    assert_eq!(callback.version(), 0);
    assert_eq!(callback.to_string(), "List = [0, \"xxx\", 0]\n");
    assert_eq!(Callback::list("", 255).to_string(), "List = [0, \"\", 255]\n");
    assert_eq!(Callback::List(3, "a".to_string(), 1).to_string(), "List = [3, \"a\", 1]\n");
    for name in ["a\"b", "a'b\"c", "line\nbreak", "\u{1}", "ü", "back\\slash", ""] {
        let text = Callback::list(name, 7).to_string();
        let read: BTreeMap<String, (u8, String, u8)> = toml::from_str(&text).unwrap();
        assert_eq!(read.len(), 1);
        assert_eq!(read["List"], (0, name.to_string(), 7));
    }
}

/// All texts of a length over an alphabet.
fn texts(alphabet: &[char], length: usize) -> Vec<String> {
    let mut all = vec![String::new()];
    for _ in 0..length {
        all = all.iter().flat_map(|t| alphabet.iter().map(move |c| format!("{t}{c}"))).collect();
    }
    all
}

fn is_read_back(version: u8, name: &str, page: u8) {
    let text = Callback::List(version, name.to_string(), page).to_string();
    match Callback::read(&text) {
        Ok(Callback::List(v, n, p)) => {
            assert_eq!((v, n.as_str(), p), (version, name, page), "{text}");
        }
        Err(e) => panic!("{name:?}: {e}"),
    }
}

#[test]
fn callbacks_are_read_back() {
    is_read_back(0, "xxx", 0);
    is_read_back(255, "", 255);
    let odd = ['a', ' ', '\'', '"', '\\', '\n', '\r', '\t', '\0', '\u{1b}', '\u{7f}', 'ü', '\u{feff}'];
    for length in 0..4 {
        for name in texts(&odd, length) {
            is_read_back(0, &name, 7);
        }
    }
    for name in texts(&['\'', '"', '\\', '\n'], 7) {
        is_read_back(1, &name, 2);
    }
}

#[test]
fn callbacks_that_differ_have_texts_that_differ() {
    let mut seen: BTreeSet<String> = BTreeSet::new();
    for version in [0, 1, 10, 100] {
        for page in [0, 1, 10, 255] {
            for name in ["", "x", "xx", "\"", "'", "\\", "0", "x\n", "x\\n"] {
                assert!(seen.insert(Callback::List(version, name.to_string(), page).to_string()));
            }
        }
    }
}

#[test]
fn texts_of_no_callback_are_refused() {
    assert!(Callback::read("nonsense").is_err());
    assert!(Callback::read("List = 5").is_err());
    assert!(Callback::read("List = [0, \"x\", 256]\n").is_err());
    let refusal = |text: &str| Callback::read(text).unwrap_err();
    assert_eq!(refusal(""), "No callback: ");
    assert_eq!(refusal("Else = [0, \"x\", 1]\n"), "No callback: Else = [0, \"x\", 1]\n");
    assert_eq!(refusal("List = [0, \"x\", 1, 2]\n"), "No callback: List = [0, \"x\", 1, 2]\n");
    let two = "Else = [0, \"x\", 1]\nList = [0, \"x\", 1]\n";
    assert_eq!(refusal(two), format!("No callback: {two}"));
    let entry = |key: &str| (key.to_string(), 0, "x".to_string(), 1);
    let text = "List = [0, \"x\", 1]\n";
    assert!(Callback::from_entries(text, vec![entry("List")]).is_ok());
    assert!(Callback::from_entries("", vec![entry("List")]).is_err());
    assert!(Callback::from_entries(text, vec![entry("Else")]).is_err());
    assert!(Callback::from_entries(text, vec![]).is_err());
}

#[test]
fn buttons_send_back_what_can_be_read() {
    for page in [0, 1, 200] {
        for row in get_kb(&Callback::list("", page), &feeds(12)).unwrap() {
            for button in row {
                assert_eq!(Callback::read(&button.data).unwrap().to_string(), button.data);
            }
        }
    }
}

#[test]
fn other_versions_are_refused() {
    let old = Callback::List(1, "".to_string(), 0);
    assert_eq!(get_kb(&old, &feeds(1)).unwrap_err(), "Wrong callback version.");
}

#[test]
fn short_lists_show_every_feed() {
    let kb = get_kb(&Callback::list("", 0), &feeds(6)).unwrap();
    assert_eq!(kb.len(), 7);
    for i in 0..6 {
        assert_eq!(kb[i].len(), 1);
        assert_eq!(kb[i][0].text, format!("{}. @c{i}", i * 10));
        assert_eq!(kb[i][0].data, "List = [0, \"xxx\", 0]\n");
    }
    assert_eq!(kb[6][0].text, "1");
    assert_eq!(kb[6][0].data, "List = [0, \"xxx\", 0]\n");
    let kb = get_kb(&Callback::list("name", 200), &feeds(0)).unwrap();
    assert_eq!(kb.len(), 1);
}

#[test]
fn long_lists_have_pages() {
    let kb = get_kb(&Callback::list("", 0), &feeds(7)).unwrap();
    assert_eq!(kb.len(), 8);
    assert_eq!(kb[5][0].text, "50. @c5");
    assert_eq!(kb[7][0].text, "<<");
    assert_eq!(kb[7][0].data, "List = [0, \"\", 0]\n");
    assert_eq!(kb[7][1].text, ">>");
    assert_eq!(kb[7][1].data, "List = [0, \"\", 1]\n");
    let kb = get_kb(&Callback::list("", 2), &feeds(30)).unwrap();
    assert_eq!(labels(&kb), (10..16).map(|i| format!("{}. @c{i}", i * 10)).collect::<Vec<_>>());
    assert_eq!(kb[0][0].data, "List = [0, \"xxx\", 2]\n");
    assert_eq!(kb[7][0].data, "List = [0, \"\", 1]\n");
    assert_eq!(kb[7][1].data, "List = [0, \"\", 3]\n");
    let kb = get_kb(&Callback::list("", 1), &feeds(7)).unwrap();
    assert_eq!(labels(&kb), vec!["50. @c5", "60. @c6"]);
}

/// What the rows of feeds say on a page of a long list.
fn labels(kb: &Keyboard) -> Vec<String> {
    kb[..kb.len() - 2].iter().map(|row| row[0].text.clone()).collect()
}

#[test]
fn pages_together_list_all_feeds() {
    for n in [7, 10, 11, 12, 250] {
        let all = feeds(n);
        let mut seen: BTreeSet<String> = BTreeSet::new();
        for page in (0..=255u8).take_while(|p| (*p as i32) * 5 < n) {
            seen.extend(labels(&get_kb(&Callback::list("", page), &all).unwrap()));
        }
        for i in 0..n {
            assert!(seen.contains(&format!("{}. @c{i}", i * 10)), "{n} {i}");
        }
    }
}

#[test]
fn unknown_pages_bring_the_last() {
    for page in [2, 50, 51, 200, 255] {
        let kb = get_kb(&Callback::list("", page), &feeds(7)).unwrap();
        assert_eq!(labels(&kb), vec!["50. @c5", "60. @c6"]);
        assert_eq!(kb[0][0].data, "List = [0, \"xxx\", 1]\n");
        assert_eq!(kb[3][0].data, "List = [0, \"\", 0]\n");
        assert_eq!(kb[3][1].data, "List = [0, \"\", 2]\n");
    }
    let kb = get_kb(&Callback::list("", 255), &feeds(2000)).unwrap();
    assert_eq!(kb[0][0].text, "12750. @c1275");
    assert_eq!(kb[7][1].data, "List = [0, \"\", 255]\n");
}

#[test]
fn messages_go_to_the_owner_or_a_chat() {
    let tg = Tg::new(99, 42);
    let html = tg.send(MyMessage::html("a".to_string()));
    assert_eq!((html.to, html.text.as_str(), html.mode), (42, "a", ParseMode::Html));
    let html_to = tg.send(MyMessage::html_to("a".to_string(), 5));
    assert_eq!((html_to.to, html_to.mode), (5, ParseMode::Html));
    assert!(html_to.markup.is_none());
    let kb = get_kb(&Callback::list("", 0), &feeds(1)).unwrap();
    let with_kb = tg.send(MyMessage::html_to_kb("a".to_string(), 5, kb));
    assert_eq!((with_kb.to, with_kb.mode), (5, ParseMode::Html));
    assert_eq!(with_kb.markup.unwrap().len(), 2);
    let text = tg.send(MyMessage::text("a".to_string()));
    assert_eq!((text.to, text.mode), (42, ParseMode::MarkdownV2));
    let text_to = tg.send(MyMessage::text_to("a".to_string(), 5));
    assert_eq!((text_to.to, text_to.mode), (5, ParseMode::MarkdownV2));
}

#[test]
fn owners_are_replaced() {
    let tg = Tg::new(99, 42).with_owner(7);
    assert_eq!(tg, Tg { me: 99, owner: 7 });
    assert_eq!(tg.send(MyMessage::html("a".to_string())).to, 7);
}

#[test]
fn statements_hold_their_parameters() {
    assert_eq!(Conn::get_queue().binds.len(), 0);
    assert!(Conn::get_queue().sql.contains("interval '1 minute'"));
    assert_eq!(Conn::post_exists("u", 3).binds.len(), 2);
    assert_eq!(Conn::add_post(3, (1, 2), "u").binds.len(), 3);
    let db = Db::new("postgres://x");
    assert_eq!(db.uri, "postgres://x");
}

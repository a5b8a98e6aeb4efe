//! Checks from their start to their end.

use rsstg::check::{begin, Check, Response};
use rsstg::moment::Stamp;
use rsstg::sql::Source;
use rsstg::tg_bot::{ParseMode, Tg};
use rsstg::token::{Running, Token};
use std::collections::BTreeSet;

fn rss(items: &[(&str, &str)]) -> Vec<u8> {
    let mut s = String::from("<rss version=\"2.0\"><channel><title>t</title><link>l</link><description>d</description>");
    for (link, date) in items {
        s.push_str(&format!("<item><link>{link}</link><pubDate>{date}</pubDate></item>"));
    }
    s.push_str("</channel></rss>");
    s.into_bytes()
}

const OLD: &str = "Tue, 14 Nov 2023 22:13:20 +0000";
const NEW: &str = "Tue, 14 Nov 2023 22:13:21 +0000";
const NEWEST: &str = "Tue, 14 Nov 2023 22:13:22 +0000";

fn source(iv_hash: Option<&str>, url_re: Option<&str>) -> Source {
    Source {
        channel_id: -100,
        url: "https://example.com/feed".to_string(),
        iv_hash: iv_hash.map(|s| s.to_string()),
        owner: 42,
        url_re: url_re.map(|s| s.to_string()),
    }
}

struct World {
    running: Running,
    seen: BTreeSet<String>,
    sent: Vec<(i64, String)>,
    row: fn() -> Result<Source, String>,
    content: Vec<u8>,
    undeliverable: Option<&'static str>,
    unrecordable: Option<&'static str>,
}

fn world(row: fn() -> Result<Source, String>, content: Vec<u8>) -> World {
    World {
        running: Running::new(),
        seen: BTreeSet::new(),
        sent: vec![],
        row,
        content,
        undeliverable: None,
        unrecordable: None,
    }
}

fn run(w: &mut World, start: Check) -> Result<String, String> {
    let mut check = start;
    loop {
        check = match check {
            Check::Connect(s) => s.resume(Ok(()), &mut w.running),
            Check::ReadSource(s) => {
                assert!(w.running.contains(&7));
                assert_eq!(s.query().binds.len(), 2);
                s.resume((w.row)(), &mut w.running)
            }
            Check::MarkScrape(s) => {
                assert_eq!(
                    s.query().sql,
                    "update rsstg_source set last_scrape = now() where source_id = $1;"
                );
                s.resume(Ok(()), &mut w.running)
            }
            Check::Fetch(s) => {
                assert_eq!(s.request().url, "https://example.com/feed");
                let response = Response { status: 200, content: w.content.clone() };
                s.resume(Ok(response), &mut w.running)
            }
            Check::Probe(s) => {
                let seen = w.seen.contains(&s.url);
                s.resume(Ok(Some(seen)), &mut w.running)
            }
            Check::Send(s) => {
                let request = s.request(&Tg::new(99, 1));
                assert_eq!(request.mode, ParseMode::Html);
                assert!(request.markup.is_none());
                if w.undeliverable == Some(s.url.as_str()) {
                    s.resume(Err("no delivery".to_string()), &mut w.running)
                } else {
                    w.sent.push((request.to, request.text));
                    s.resume(Ok(()), &mut w.running)
                }
            }
            Check::Record(s) => {
                assert_eq!(
                    s.query().sql,
                    "insert into rsstg_post (source_id, posted, url) values ($1, $2, $3);"
                );
                if w.unrecordable == Some(s.url.as_str()) {
                    s.resume(Err("no record".to_string()), &mut w.running)
                } else {
                    w.seen.insert(s.url.clone());
                    s.resume(Ok(()), &mut w.running)
                }
            }
            Check::Done(result) => return result,
        }
    }
}

#[test]
fn new_posts_are_sent_oldest_first() {
    let mut w = world(|| Ok(source(None, None)), rss(&[("c", NEWEST), ("a", OLD), ("b", NEW)]));
    w.seen.insert("b".to_string());
    assert_eq!(run(&mut w, begin(7, 1, true, None)), Ok("Posted: 2".to_string()));
    assert_eq!(w.sent, vec![(-100, "a".to_string()), (-100, "c".to_string())]);
    assert_eq!(w.seen.len(), 3);
    assert!(w.running.is_empty());
}

#[test]
fn a_second_check_sends_nothing() {
    let mut w = world(|| Ok(source(None, None)), rss(&[("a", OLD), ("b", NEW)]));
    assert_eq!(run(&mut w, begin(7, 1, true, None)), Ok("Posted: 2".to_string()));
    w.sent.clear();
    assert_eq!(run(&mut w, begin(7, 1, false, None)), Ok("Posted: 0".to_string()));
    assert!(w.sent.is_empty());
}

#[test]
fn a_check_after_cleaning_sends_everything() {
    let mut w = world(|| Ok(source(None, None)), rss(&[("a", OLD), ("b", NEW)]));
    assert_eq!(run(&mut w, begin(7, 1, true, None)), Ok("Posted: 2".to_string()));
    w.seen.clear();
    w.sent.clear();
    assert_eq!(run(&mut w, begin(7, 1, true, None)), Ok("Posted: 2".to_string()));
    assert_eq!(w.sent, vec![(-100, "a".to_string()), (-100, "b".to_string())]);
}

#[test]
fn every_post_of_a_moment_is_sent() {
    let mut w = world(|| Ok(source(None, None)), rss(&[("a", NEW), ("b", OLD), ("c", NEW)]));
    assert_eq!(run(&mut w, begin(7, 1, true, None)), Ok("Posted: 3".to_string()));
    let sent: Vec<&str> = w.sent.iter().map(|s| s.1.as_str()).collect();
    assert_eq!(sent, vec!["b", "a", "c"]);
    assert_eq!(w.seen.len(), 3);
}

#[test]
fn posts_of_one_date_are_not_lost() {
    let date = "Mon, 01 Jan 2024 00:00:00 +0000";
    let mut w =
        world(|| Ok(source(None, None)), rss(&[("http://h/1", date), ("http://h/2", date)]));
    assert_eq!(run(&mut w, begin(7, 5, true, None)), Ok("Posted: 2".to_string()));
    assert_eq!(
        w.sent,
        vec![(-100, "http://h/1".to_string()), (-100, "http://h/2".to_string())]
    );
    assert!(w.seen.contains("http://h/1") && w.seen.contains("http://h/2"));
}

#[test]
fn recorded_posts_stay_recorded() {
    let mut w = world(|| Ok(source(None, None)), rss(&[("a", OLD)]));
    assert_eq!(run(&mut w, begin(7, 1, true, None)), Ok("Posted: 1".to_string()));
    w.sent.clear();
    w.content = rss(&[("a", NEWEST), ("b", OLD)]);
    assert_eq!(run(&mut w, begin(7, 1, true, None)), Ok("Posted: 1".to_string()));
    assert_eq!(w.sent, vec![(-100, "b".to_string())]);
}

#[test]
fn trials_go_to_the_owner() {
    let mut w = world(|| Ok(source(None, None)), rss(&[("a", OLD)]));
    assert_eq!(run(&mut w, begin(7, 1, false, None)), Ok("Posted: 1".to_string()));
    assert_eq!(w.sent, vec![(42, "a".to_string())]);
}

#[test]
fn links_are_shown_in_instant_view() {
    let mut w = world(|| Ok(source(Some("0123456789abcd"), None)), rss(&[("http://a", OLD)]));
    assert_eq!(run(&mut w, begin(7, 1, true, None)), Ok("Posted: 1".to_string()));
    assert_eq!(
        w.sent[0].1,
        "<a href=\"https://t.me/iv?url=http://a&rhash=0123456789abcd\"> </a>http://a"
    );
}

#[test]
fn links_are_substituted_before_they_are_compared() {
    let mut w = world(|| Ok(source(None, Some("s/[0-9]+/N/"))), rss(&[("a1", OLD), ("a22", NEW)]));
    assert_eq!(run(&mut w, begin(7, 1, true, None)), Ok("Posted: 1".to_string()));
    assert_eq!(w.sent, vec![(-100, "aN".to_string())]);
    assert!(w.seen.contains("aN"));
}

#[test]
fn a_bad_substitution_ends_a_check() {
    let mut w = world(|| Ok(source(None, Some("nonsense"))), rss(&[("a1", OLD)]));
    assert!(run(&mut w, begin(7, 1, true, None)).is_err());
    assert!(w.sent.is_empty());
    assert!(w.running.is_empty());
}

#[test]
fn a_failed_delivery_ends_a_check() {
    let mut w = world(|| Ok(source(None, None)), rss(&[("a", OLD), ("b", NEW), ("c", NEWEST)]));
    w.undeliverable = Some("b");
    assert_eq!(run(&mut w, begin(7, 1, true, None)), Err("no delivery".to_string()));
    assert_eq!(w.sent, vec![(-100, "a".to_string())]);
    assert_eq!(w.seen.len(), 1);
    assert!(w.running.is_empty());
}

#[test]
fn a_failed_record_ends_a_check() {
    let mut w = world(|| Ok(source(None, None)), rss(&[("a", OLD), ("b", NEW), ("c", NEWEST)]));
    w.unrecordable = Some("b");
    assert_eq!(run(&mut w, begin(7, 1, true, None)), Err("no record".to_string()));
    assert_eq!(w.sent.len(), 2);
    assert_eq!(w.seen.len(), 1);
}

#[test]
fn a_recorded_post_stays_recorded_when_a_later_one_fails() {
    let mut w = world(|| Ok(source(None, None)), rss(&[("a", OLD), ("b", NEW)]));
    w.undeliverable = Some("b");
    assert_eq!(run(&mut w, begin(7, 1, true, None)), Err("no delivery".to_string()));
    assert_eq!(w.sent, vec![(-100, "a".to_string())]);
    assert!(w.seen.contains("a") && !w.seen.contains("b"));
}

#[test]
fn a_missing_source_ends_a_check() {
    let mut w = world(|| Err("no rows".to_string()), vec![]);
    assert_eq!(run(&mut w, begin(7, 1, true, None)), Err("no rows".to_string()));
    assert!(w.running.is_empty());
}

#[test]
fn failures_before_the_first_post_end_a_check() {
    let mut running = Running::new();
    let Check::Connect(s) = begin(7, 1, true, None) else { unreachable!() };
    match s.resume(Err("no pool".to_string()), &mut running) {
        Check::Done(r) => assert_eq!(r, Err("no pool".to_string())),
        _ => unreachable!(),
    }
    assert!(running.is_empty());
    let Check::Connect(s) = begin(7, 1, true, None) else { unreachable!() };
    let Check::ReadSource(s) = s.resume(Ok(()), &mut running) else { unreachable!() };
    let Check::MarkScrape(s) = s.resume(Ok(source(None, None)), &mut running) else {
        unreachable!()
    };
    assert!(running.contains(&7));
    match s.resume(Err("no mark".to_string()), &mut running) {
        Check::Done(r) => assert_eq!(r, Err("no mark".to_string())),
        _ => unreachable!(),
    }
    assert!(running.is_empty());
    let Check::Connect(s) = begin(7, 1, true, None) else { unreachable!() };
    let Check::ReadSource(s) = s.resume(Ok(()), &mut running) else { unreachable!() };
    let Check::MarkScrape(s) = s.resume(Ok(source(None, None)), &mut running) else {
        unreachable!()
    };
    let Check::Fetch(s) = s.resume(Ok(()), &mut running) else { unreachable!() };
    match s.resume(Err("no answer".to_string()), &mut running) {
        Check::Done(r) => assert_eq!(r, Err("no answer".to_string())),
        _ => unreachable!(),
    }
    assert!(running.is_empty());
}

#[test]
fn posts_of_unknown_standing_are_not_sent() {
    let mut running = Running::new();
    let Check::Connect(s) = begin(7, 1, true, None) else { unreachable!() };
    let Check::ReadSource(s) = s.resume(Ok(()), &mut running) else { unreachable!() };
    let Check::MarkScrape(s) = s.resume(Ok(source(None, None)), &mut running) else {
        unreachable!()
    };
    let Check::Fetch(s) = s.resume(Ok(()), &mut running) else { unreachable!() };
    let response = Response { status: 200, content: rss(&[("a", OLD), ("b", NEW)]) };
    let Check::Probe(s) = s.resume(Ok(response), &mut running) else { unreachable!() };
    assert_eq!(s.url, "a");
    let Check::Probe(s) = s.resume(Ok(None), &mut running) else { unreachable!() };
    assert_eq!(s.url, "b");
    match s.resume(Err("no lookup".to_string()), &mut running) {
        Check::Done(r) => assert_eq!(r, Err("no lookup".to_string())),
        _ => unreachable!(),
    }
    assert!(running.is_empty());
}

#[test]
fn the_newest_new_post_is_remembered() {
    let mut running = Running::new();
    let Check::Connect(s) = begin(7, 1, true, None) else { unreachable!() };
    let Check::ReadSource(s) = s.resume(Ok(()), &mut running) else { unreachable!() };
    let Check::MarkScrape(s) = s.resume(Ok(source(None, None)), &mut running) else {
        unreachable!()
    };
    let Check::Fetch(s) = s.resume(Ok(()), &mut running) else { unreachable!() };
    let response = Response { status: 200, content: rss(&[("a", OLD), ("b", NEW)]) };
    let Check::Probe(s) = s.resume(Ok(response), &mut running) else { unreachable!() };
    assert_eq!(s.tour.this_fetch, None);
    let Check::Send(s) = s.resume(Ok(Some(false)), &mut running) else { unreachable!() };
    assert_eq!(s.tour.this_fetch, Some((1_700_000_000, 0)));
    let Check::Record(s) = s.resume(Ok(()), &mut running) else { unreachable!() };
    let Check::Probe(s) = s.resume(Ok(()), &mut running) else { unreachable!() };
    let Check::Send(s) = s.resume(Ok(Some(false)), &mut running) else { unreachable!() };
    assert_eq!(s.tour.this_fetch, Some((1_700_000_001, 0)));
}

#[test]
fn servers_are_told_of_the_last_look() {
    let mut running = Running::new();
    let stamp = Stamp { at: (1_700_000_000, 999), offset: 3600 };
    let Check::Connect(s) = begin(7, 1, true, Some(stamp)) else { unreachable!() };
    let Check::ReadSource(s) = s.resume(Ok(()), &mut running) else { unreachable!() };
    let Check::MarkScrape(s) = s.resume(Ok(source(None, None)), &mut running) else {
        unreachable!()
    };
    let Check::Fetch(s) = s.resume(Ok(()), &mut running) else { unreachable!() };
    let request = s.request();
    assert_eq!(
        request.header,
        Some(("If-Modified-Since", "Tue, 14 Nov 2023 23:13:20 +0100".to_string()))
    );
}

#[test]
fn a_source_is_checked_once_at_a_time() {
    let mut w = world(|| Ok(source(None, None)), rss(&[("a", OLD)]));
    let token = Token::new(&mut w.running, 7).unwrap();
    assert_eq!(run(&mut w, begin(7, 1, true, None)), Err("Token already taken".to_string()));
    assert!(w.sent.is_empty());
    assert!(w.running.contains(&7));
    token.release(&mut w.running);
    assert_eq!(run(&mut w, begin(7, 1, true, None)), Ok("Posted: 1".to_string()));
}

#[test]
fn tokens_are_exclusive() {
    let mut running = Running::new();
    let token = Token::new(&mut running, 1).unwrap();
    assert_eq!(token.id(), 1);
    assert_eq!(Token::new(&mut running, 1).unwrap_err(), "Token already taken");
    let other = Token::new(&mut running, 2).unwrap();
    token.release(&mut running);
    assert!(Token::new(&mut running, 2).is_err());
    let again = Token::new(&mut running, 1).unwrap();
    again.release(&mut running);
    other.release(&mut running);
    assert!(running.is_empty());
}

//! Reading posts out of feeds.

use rsstg::feed::{
    find_atom, find_rss, gather, list_links, posts_in, posts_of, read_date, rss_date, AtomEntry,
    DateText, Person, RssFailure, RssItem,
};
use rsstg::text::join;

const RSS: &str = r#"<?xml version="1.0" encoding="UTF-8"?>
<rss version="2.0" xmlns:content="http://purl.org/rss/1.0/modules/content/">
<channel>
<title>News</title>
<link>https://example.com/</link>
<description>All of it</description>
<item>
<title>Second</title>
<link>https://example.com/2</link>
<author>ann@example.com</author>
<pubDate>Tue, 14 Nov 2023 22:13:21 +0000</pubDate>
<content:encoded>Body two</content:encoded>
</item>
<item>
<title>No link here</title>
</item>
<item>
<title>First</title>
<link>https://example.com/1</link>
<pubDate>Tue, 14 Nov 2023 23:13:20 +0100</pubDate>
</item>
</channel>
</rss>"#;

const ATOM: &str = r#"<?xml version="1.0" encoding="utf-8"?>
<feed xmlns="http://www.w3.org/2005/Atom">
<title>News</title>
<id>urn:feed</id>
<updated>2023-11-14T22:13:20Z</updated>
<entry>
<title>Entry</title>
<id>urn:entry</id>
<updated>2023-11-14T22:13:20Z</updated>
<published>2023-11-14T22:13:20Z</published>
<link href="https://example.com/a"/>
<link href="https://example.com/b"/>
<author><name>Ann</name><email>ann@example.com</email></author>
<author><name>Bob</name></author>
<summary>Short</summary>
</entry>
</feed>"#;

fn item(link: Option<&str>, pub_date: Option<&str>, core_dates: Option<Vec<&str>>) -> RssItem {
    RssItem {
        link: link.map(|s| s.to_string()),
        pub_date: pub_date.map(|s| s.to_string()),
        core_dates: core_dates.map(|v| v.iter().map(|s| s.to_string()).collect()),
        title: None,
        author: None,
        content: None,
    }
}

fn entry(at: i64, link: &str) -> AtomEntry {
    AtomEntry {
        published: Some((at, 0)),
        links: vec![link.to_string()],
        authors: vec![],
        title: "t".to_string(),
        summary: None,
    }
}

#[test]
fn rss_posts_are_read() {
    let posts = posts_in("https://example.com/feed", 200, RSS.as_bytes()).unwrap();
    assert_eq!(posts.len(), 2);
    assert_eq!(posts[0].0, (1_700_000_001, 0));
    let second = &posts[0].1;
    assert_eq!(second.uri, "https://example.com/2");
    assert_eq!(second.title, "Second");
    assert_eq!(second.authors, "ann@example.com");
    assert_eq!(second.summary, "Body two");
    assert_eq!(posts[1].0, (1_700_000_000, 0));
    let first = &posts[1].1;
    assert_eq!(first.uri, "https://example.com/1");
    assert_eq!(first.authors, "");
    assert_eq!(first.summary, "");
    let links = list_links(&posts);
    assert_eq!(
        links,
        vec![
            ((1_700_000_000, 0), "https://example.com/1".to_string()),
            ((1_700_000_001, 0), "https://example.com/2".to_string()),
        ]
    );
}

#[test]
fn atom_posts_are_read() {
    let posts = posts_in("https://example.com/feed", 200, ATOM.as_bytes()).unwrap();
    assert_eq!(posts.len(), 1);
    assert_eq!(posts[0].0, (1_700_000_000, 0));
    let post = &posts[0].1;
    assert_eq!(post.uri, "https://example.com/a");
    assert_eq!(post.title, "Entry");
    assert_eq!(post.authors, "Ann <Some(\"ann@example.com\")>, Bob <None>");
    assert_eq!(post.summary, "Short");
}

#[test]
fn empty_content_has_no_posts() {
    let posts = posts_in("https://example.com/feed", 304, b"").unwrap();
    assert!(posts.is_empty());
}

#[test]
fn other_documents_are_mangled() {
    let e = posts_in("https://example.com/\"feed\"", 404, b"<html></html>").unwrap_err();
    assert!(e.starts_with("Unsupported or mangled content:\n\"https://example.com/\\\"feed\\\"\"\n"));
    assert!(e.ends_with("\n404\n"));
}

#[test]
fn failures_to_read_are_told_apart() {
    let other = posts_of("u", 500, Err(RssFailure::Other("broken".to_string())), Ok(vec![]));
    assert_eq!(other.unwrap_err(), "Unsupported or mangled content:\n\"u\"\nbroken\n500\n");
    let both = posts_of("u", 200, Err(RssFailure::InvalidStartTag), Err("no feed".to_string()));
    assert_eq!(both.unwrap_err(), "Unsupported or mangled content:\n\"u\"\nno feed\n200\n");
    let nothing = posts_of("u", 200, Err(RssFailure::Eof), Err("ignored".to_string()));
    assert!(nothing.unwrap().is_empty());
    let atom = posts_of("u", 200, Err(RssFailure::InvalidStartTag), Ok(vec![entry(5, "x")]));
    let atom = atom.unwrap();
    assert_eq!((atom[0].0, atom[0].1.uri.as_str()), ((5, 0), "x"));
}

#[test]
fn dates_of_items_are_found() {
    match rss_date(&item(None, Some("Tue, 14 Nov 2023 22:13:20 +0000"), Some(vec!["x"]))) {
        Ok(DateText::Rfc2822(t)) => assert_eq!(t, "Tue, 14 Nov 2023 22:13:20 +0000"),
        _ => unreachable!(),
    }
    match rss_date(&item(None, None, Some(vec!["2023-11-14T22:13:20Z", "y"]))) {
        Ok(DateText::Rfc3339(t)) => assert_eq!(t, "2023-11-14T22:13:20Z"),
        _ => unreachable!(),
    }
    assert_eq!(
        rss_date(&item(None, None, Some(vec![]))).unwrap_err(),
        "Feed item has Dublin Core extension but no dates."
    );
    assert_eq!(rss_date(&item(None, None, None)).unwrap_err(), "Feed item misses posting date.");
}

#[test]
fn dates_are_read_in_both_formats() {
    let a = DateText::Rfc2822("Tue, 14 Nov 2023 22:13:20 +0000".to_string());
    assert_eq!(read_date(&a), Ok((1_700_000_000, 0)));
    let b = DateText::Rfc3339("2023-11-14T22:13:20.5+00:00".to_string());
    assert_eq!(read_date(&b), Ok((1_700_000_000, 500_000_000)));
    assert!(read_date(&DateText::Rfc2822("yesterday".to_string())).is_err());
    assert!(read_date(&DateText::Rfc3339("yesterday".to_string())).is_err());
}

#[test]
fn items_without_links_need_no_date() {
    let found = find_rss(&vec![item(None, None, None)]);
    assert!(found.is_empty());
    let found = find_rss(&vec![item(Some("l"), None, None)]);
    assert_eq!(found.len(), 1);
    assert_eq!(found[0].as_ref().unwrap_err(), "Feed item misses posting date.");
}

#[test]
fn entries_need_a_date_and_a_link() {
    let mut undated = entry(1, "a");
    undated.published = None;
    let mut unlinked = entry(1, "a");
    unlinked.links = vec![];
    unlinked.authors = vec![Person { name: "n".to_string(), email: None }];
    let found = find_atom(&vec![undated, unlinked]);
    assert_eq!(found[0].as_ref().unwrap_err(), "Feed item missing publishing date.");
    assert_eq!(found[1].as_ref().unwrap_err(), "Feed item missing post links.");
}

#[test]
fn posts_of_one_moment_are_kept() {
    let entries = vec![entry(7, "a"), entry(3, "b"), entry(7, "c"), entry(5, "d"), entry(3, "e")];
    let posts = gather(find_atom(&entries)).unwrap();
    let found: Vec<(i64, &str)> = posts.iter().map(|p| (p.0 .0, p.1.uri.as_str())).collect();
    assert_eq!(found, vec![(7, "a"), (3, "b"), (7, "c"), (5, "d"), (3, "e")]);
    let links = list_links(&posts);
    let listed: Vec<(i64, &str)> = links.iter().map(|l| (l.0 .0, l.1.as_str())).collect();
    assert_eq!(listed, vec![(3, "b"), (3, "e"), (5, "d"), (7, "a"), (7, "c")]);
}

#[test]
fn the_first_bad_post_spoils_a_feed() {
    let mut undated = entry(1, "a");
    undated.published = None;
    let mut unlinked = entry(1, "a");
    unlinked.links = vec![];
    let e = gather(find_atom(&vec![entry(7, "a"), unlinked, undated])).unwrap_err();
    assert_eq!(e, "Feed item missing post links.");
}

#[test]
fn lines_are_joined() {
    assert_eq!(join(&vec![], ", "), "");
    assert_eq!(join(&vec!["a".to_string()], ", "), "a");
    assert_eq!(join(&vec!["a".to_string(), "".to_string(), "b".to_string()], ", "), "a, , b");
}

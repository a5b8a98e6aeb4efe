//! The bot: its settings, its queue, its cache and its answers.

use rsstg::bot::{
    expand_feeds, found_feeds, shrink_feeds, Core, Due, Feeds, Handler, Settings, API_GATEWAY,
    ROUND_NANOS,
};
use rsstg::cache::{collect_feeds, feed_entries, FeedList};
use rsstg::check::Check;
use rsstg::moment::Stamp;
use rsstg::sql::{Bind, Feed, List, Query, Queue};
use rsstg::tg_bot::{Callback, ParseMode, Tg};

fn settings() -> Settings {
    Settings {
        api_key: Ok("key".to_string()),
        owner: Ok(42),
        api_gateway: Ok(API_GATEWAY.to_string()),
        pg: Ok("postgres://db".to_string()),
    }
}

fn new_bot() -> Core {
    match Core::new(settings(), Ok(99)) {
        Ok(core) => core,
        Err(e) => panic!("{e}"),
    }
}

fn refusal(settings: Settings, me: Result<i64, String>) -> String {
    match Core::new(settings, me) {
        Ok(_) => unreachable!(),
        Err(e) => e,
    }
}

fn err<T>(e: &str) -> Result<T, String> {
    Err(e.to_string())
}

fn owner_of(query: &Query) -> i64 {
    assert_eq!(query.sql, "select source_id, channel from rsstg_source where owner = $1");
    match query.binds[0] {
        Bind::Big(owner) => owner,
        _ => unreachable!(),
    }
}

fn feed(source_id: i32, channel: &str) -> Feed {
    Feed { source_id, channel: channel.to_string() }
}

#[test]
fn the_bot_is_made_from_settings() {
    let core = new_bot();
    assert_eq!(core.tg, Tg { me: 99, owner: 42 });
    assert_eq!(core.db.uri, "postgres://db");
    assert_eq!(core.db.max_connections, 5);
    assert_eq!(core.db.acquire_timeout_secs, 300);
    assert_eq!(core.db.idle_timeout_secs, 60);
    assert!(core.running.is_empty());
    assert!(matches!(core.get_feeds(1), Feeds::Load(_)));
    let access = settings().access().unwrap();
    assert_eq!(access.api_key, "key");
    assert_eq!(access.owner, 42);
    assert_eq!(access.api_gateway, "https://api.telegram.org");
}

#[test]
fn the_first_missing_setting_is_reported() {
    let mut s = settings();
    s.pg = err("no pg");
    assert_eq!(refusal(s, Ok(1)), "no pg");
    let mut s = settings();
    s.pg = err("no pg");
    assert_eq!(refusal(s, err("no me")), "no me");
    let mut s = settings();
    s.api_gateway = err("no gateway");
    assert_eq!(refusal(s, err("no me")), "no gateway");
    let mut s = settings();
    s.api_gateway = err("no gateway");
    s.owner = err("no owner");
    assert_eq!(refusal(s, Ok(1)), "no owner");
    let mut s = settings();
    s.api_key = err("no key");
    s.owner = err("no owner");
    assert_eq!(s.access().unwrap_err(), "no key");
}

fn row(source_id: Option<i32>, next_fetch: Option<(i64, u32)>, owner: Option<i64>) -> Queue {
    Queue { source_id, next_fetch, owner, last_scrape: Stamp { at: (5, 0), offset: 0 } }
}

#[test]
fn due_sources_are_fetched_in_order() {
    let queue = vec![
        row(Some(1), Some((99, 999_999_999)), Some(10)),
        row(Some(2), Some((100, 0)), Some(10)),
        row(None, Some((1, 0)), Some(10)),
        row(Some(4), Some((1, 0)), None),
        row(Some(5), None, Some(10)),
        row(Some(6), Some((50, 0)), Some(11)),
    ];
    let (due, delay) = new_bot().autofetch((100, 0), &queue);
    assert_eq!(due.len(), 2);
    assert_eq!((due[0].source_id, due[0].tg), (1, Tg { me: 99, owner: 10 }));
    assert_eq!((due[1].source_id, due[1].tg), (6, Tg { me: 99, owner: 11 }));
    assert_eq!(due[1].last_scrape.at, (5, 0));
    assert_eq!(delay, 0);
}

#[test]
fn the_wait_ends_with_the_next_fetch() {
    let core = new_bot();
    assert_eq!(core.autofetch((100, 0), &vec![]).1, 60_000_000_000);
    let queue = vec![
        row(Some(1), Some((160, 0)), Some(10)),
        row(None, Some((130, 5)), None),
        row(Some(1), Some((140, 0)), Some(10)),
        row(Some(1), Some((90, 0)), Some(10)),
    ];
    let (due, delay) = core.autofetch((100, 10), &queue);
    assert_eq!(delay, 29_999_999_995);
    assert_eq!(due.len(), 1);
    let later = vec![row(Some(1), Some((1000, 0)), Some(10))];
    assert_eq!(core.autofetch((100, 10), &later).1, ROUND_NANOS);
}

#[test]
fn fetches_are_for_the_channel_of_the_source() {
    let due = Due {
        tg: Tg { me: 99, owner: 10 },
        source_id: 3,
        last_scrape: Stamp { at: (1_700_000_000, 0), offset: 0 },
    };
    match due.check() {
        Check::Connect(s) => {
            assert_eq!((s.id, s.owner, s.live), (3, 10, true));
            assert_eq!(s.since, Some("Tue, 14 Nov 2023 22:13:20 +0000".to_string()));
        }
        _ => unreachable!(),
    }
    let query = due.query();
    assert!(query.sql.ends_with("where owner = $1 and source_id = $2"));
    assert!(matches!(query.binds[..], [Bind::Big(10), Bind::Int(3)]));
    assert!(due.report("x", Ok("Posted: 0".to_string())).is_none());
    let report = due.report("#3", Err("bad".to_string())).unwrap();
    assert_eq!(report.to, 10);
    assert_eq!(report.text, "🛑 #3\n<pre>bad</pre>");
    assert_eq!(report.mode, ParseMode::Html);
}

#[test]
fn checks_are_on_behalf_of_the_owner() {
    match new_bot().check(3, false, None) {
        Check::Connect(s) => {
            assert_eq!((s.id, s.owner, s.live), (3, 42, false));
            assert_eq!(s.since, None);
        }
        _ => unreachable!(),
    }
}

fn list_row(iv_hash: Option<&str>, url_re: Option<&str>, enabled: bool) -> List {
    List {
        source_id: 12,
        channel: "@news".to_string(),
        enabled,
        url: "https://e.com".to_string(),
        iv_hash: iv_hash.map(|s| s.to_string()),
        url_re: url_re.map(|s| s.to_string()),
    }
}

#[test]
fn sources_are_labelled() {
    assert_eq!(
        Due::label(Ok(Some(list_row(None, None, true)))),
        "#12 \\*️⃣ `@news` 🔄 enabled\n🔗 `https://e.com`"
    );
    assert_eq!(Due::label(Ok(None)), "Source not found in database?");
    assert_eq!(Due::label(err("why")), "Failed to fetch source data:\nwhy");
}

#[test]
fn failed_looks_are_reported() {
    let core = new_bot();
    let (delay, message) = core.pause(Ok(7));
    assert_eq!(delay, 7);
    assert!(message.is_none());
    let (delay, message) = core.pause(err("why"));
    assert_eq!(delay, 60_000_000_000);
    let message = message.unwrap();
    assert_eq!((message.to, message.text.as_str()), (42, "🛑 why"));
    assert_eq!(message.mode, ParseMode::Html);
}

#[test]
fn sources_are_listed() {
    assert_eq!(Core::list(&vec![]), "Channels:");
    let rows = vec![
        list_row(Some("0123456789abcd"), Some("s/a/b/"), false),
        list_row(None, None, true),
    ];
    assert_eq!(
        Core::list(&rows),
        "Channels:\n\n#12 \\*️⃣ `@news` ⛔ disabled\n🔗 `https://e.com`\nIV: `0123456789abcd`\nRE: `s/a/b/`\n\n#12 \\*️⃣ `@news` 🔄 enabled\n🔗 `https://e.com`"
    );
}

fn names(core: &Core, owner: i64) -> Vec<(i32, String)> {
    match core.get_feeds(owner) {
        Feeds::Cached(feeds) => feed_entries(&feeds),
        Feeds::Load(_) => panic!("not cached"),
    }
}

#[test]
fn feeds_are_cached() {
    let mut core = new_bot();
    match core.get_feeds(10) {
        Feeds::Load(query) => assert_eq!(owner_of(&query), 10),
        Feeds::Cached(_) => unreachable!(),
    }
    let loaded = core.load_feeds(10, Ok(vec![feed(2, "@b"), feed(1, "@a"), feed(2, "@c")]));
    let wanted = vec![(1, "@a".to_string()), (2, "@c".to_string())];
    assert_eq!(feed_entries(&loaded.unwrap()), wanted);
    assert_eq!(names(&core, 10), wanted);
    assert!(matches!(core.get_feeds(11), Feeds::Load(_)));
    assert_eq!(core.load_feeds(11, err("down")).unwrap_err(), "down");
    assert!(matches!(core.get_feeds(11), Feeds::Load(_)));
}

#[test]
fn cached_feeds_follow_the_database() {
    let mut core = new_bot();
    assert_eq!(owner_of(&core.add_feed(10, 5, "@n".to_string()).unwrap()), 10);
    assert_eq!(owner_of(&core.rm_feed(10, 5).unwrap()), 10);
    assert!(matches!(core.get_feeds(10), Feeds::Load(_)));
    core.load_feeds(10, Ok(vec![feed(1, "@a")])).unwrap();
    core.load_feeds(11, Ok(vec![feed(1, "@z")])).unwrap();
    assert!(core.add_feed(10, 5, "@n".to_string()).is_none());
    assert_eq!(names(&core, 10), vec![(1, "@a".to_string()), (5, "@n".to_string())]);
    assert!(core.rm_feed(10, 1).is_none());
    assert!(core.rm_feed(10, 77).is_none());
    assert_eq!(names(&core, 10), vec![(5, "@n".to_string())]);
    assert_eq!(names(&core, 11), vec![(1, "@z".to_string())]);
}

#[test]
fn the_oldest_feeds_leave_the_cache() {
    let mut core = new_bot();
    for owner in 0..10_000 {
        core.load_feeds(owner, Ok(vec![])).unwrap();
    }
    assert!(names(&core, 0).is_empty());
    core.load_feeds(0, Ok(vec![feed(1, "@a")])).unwrap();
    core.load_feeds(10_000, Ok(vec![])).unwrap();
    assert!(matches!(core.get_feeds(1), Feeds::Load(_)));
    assert_eq!(names(&core, 0).len(), 1);
    assert!(names(&core, 2).is_empty());
    assert!(names(&core, 10_000).is_empty());
}

#[test]
fn what_is_found_is_used() {
    let mut feeds: FeedList = collect_feeds(vec![feed(1, "@a")]);
    assert!(matches!(found_feeds(Some(&feeds), 9), Feeds::Cached(f) if f.len() == 1));
    match found_feeds(None, 9) {
        Feeds::Load(query) => assert_eq!(owner_of(&query), 9),
        Feeds::Cached(_) => unreachable!(),
    }
    assert!(expand_feeds(Some(&mut feeds), 9, 2, "@b".to_string()).is_none());
    assert_eq!(feeds.len(), 2);
    assert!(shrink_feeds(Some(&mut feeds), 9, 1).is_none());
    assert_eq!(feed_entries(&feeds), vec![(2, "@b".to_string())]);
    assert_eq!(owner_of(&expand_feeds(None, 9, 2, "@b".to_string()).unwrap()), 9);
    assert_eq!(owner_of(&shrink_feeds(None, 9, 2).unwrap()), 9);
}

#[test]
fn commands_are_routed() {
    for name in ["/check", "/clean", "/enable", "/delete", "/disable"] {
        assert_eq!(Core::handle(name), Ok(Handler::Command));
    }
    assert_eq!(Core::handle("/start"), Ok(Handler::Start));
    assert_eq!(Core::handle("/list"), Ok(Handler::List));
    assert_eq!(Core::handle("/test"), Ok(Handler::Test));
    assert_eq!(Core::handle("/add"), Ok(Handler::Update));
    assert_eq!(Core::handle("/update"), Ok(Handler::Update));
    assert_eq!(Core::handle("/Add"), err("Unknown command: /Add"));
    assert_eq!(Core::handle(""), err("Unknown command: "));
}

#[test]
fn failed_commands_are_reported() {
    let core = new_bot();
    assert!(core.report(Ok(()), 5).is_none());
    let report = core.report(Err("why".to_string()), 5).unwrap();
    assert_eq!((report.to, report.text.as_str()), (5, "#error<pre>why</pre>"));
    assert_eq!(report.mode, ParseMode::Html);
}

#[test]
fn callbacks_that_cannot_be_read_are_refused() {
    let read: Result<Callback, String> = err("bad toml");
    assert_eq!(Core::cb(read), err("bad toml"));
}

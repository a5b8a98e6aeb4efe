//! The commands of users.

use rsstg::bot::{Core, Feeds, Settings};
use rsstg::cache::{collect_feeds, feed_entries};
use rsstg::check::Check;
use rsstg::command::{
    command, list, list_reply, order, start, test as try_list, test_reply, Deed, Errand, Order,
};
use rsstg::sql::{Bind, Feed, List, Query, Written};
use rsstg::tg_bot::ParseMode;
use rsstg::update::{update, want, Member, Update, Wanted, Write};

fn new_bot() -> Core {
    let settings = Settings {
        api_key: Ok("key".to_string()),
        owner: Ok(42),
        api_gateway: Ok("gateway".to_string()),
        pg: Ok("postgres://db".to_string()),
    };
    match Core::new(settings, Ok(99)) {
        Ok(core) => core,
        Err(e) => panic!("{e}"),
    }
}

fn words(list: &[&str]) -> Vec<String> {
    list.iter().map(|s| s.to_string()).collect()
}

fn err<T>(e: &str) -> Result<T, String> {
    Err(e.to_string())
}

fn id_and_owner(query: &Query) -> (i32, i64) {
    match query.binds[..] {
        [Bind::Int(id), Bind::Big(owner)] => (id, owner),
        _ => unreachable!(),
    }
}

#[test]
fn start_links_to_the_help() {
    let request = start(&new_bot(), 5);
    assert_eq!(request.to, 5);
    assert_eq!(request.mode, ParseMode::MarkdownV2);
    assert_eq!(
        request.text,
        "We are open\\. Probably\\. Visit [channel](https://t.me/rsstg_bot_help/3) for details\\."
    );
}

#[test]
fn list_is_for_users() {
    assert_eq!(list(None).unwrap_err(), "Ignoring unreal users.");
    let query = list(Some(8)).unwrap();
    assert!(query.sql.ends_with("from rsstg_source where owner = $1 order by source_id"));
    assert!(matches!(query.binds[..], [Bind::Big(8)]));
    let rows: Vec<List> = vec![];
    let request = list_reply(&new_bot(), Ok(rows), 5).unwrap();
    assert_eq!((request.to, request.text.as_str()), (5, "Channels:"));
    assert_eq!(request.mode, ParseMode::MarkdownV2);
    assert_eq!(list_reply(&new_bot(), err("down"), 5).unwrap_err(), "down");
}

#[test]
fn test_shows_a_keyboard() {
    let core = new_bot();
    assert!(matches!(try_list(&core, None), Err(e) if e == "Ignoring unreal users."));
    assert!(matches!(try_list(&core, Some(8)), Ok((8, Feeds::Load(_)))));
    let feeds = collect_feeds(vec![Feed { source_id: 3, channel: "@a".to_string() }]);
    let request = test_reply(&core, &feeds, Some("ann".to_string()), 5).unwrap();
    assert_eq!(request.text, "List of feeds owned by Some(UserUsername(\"ann\")):");
    assert_eq!(request.to, 5);
    let markup = request.markup.unwrap();
    assert_eq!(markup.len(), 2);
    assert_eq!(markup[0][0].text, "3. @a");
    let request = test_reply(&core, &feeds, None, 5).unwrap();
    assert_eq!(request.text, "List of feeds owned by None:");
}

fn reply_of(stage: Order) -> String {
    match stage {
        Order::Answer(answer) => answer.reply,
        other => panic!("{other:?}"),
    }
}

fn end_of(stage: Order) -> Result<(), String> {
    match stage {
        Order::Done(result) => result,
        other => panic!("{other:?}"),
    }
}

#[test]
fn commands_need_one_number() {
    let reply = |list: &[&str]| reply_of(command("/clean", Ok(()), Some(8), &words(list)));
    assert_eq!(reply(&[]), "This command needs exactly one number.");
    assert_eq!(reply(&["1", "2"]), "This command needs exactly one number.");
    assert!(reply(&["x"]).starts_with("I need a number.\n"));
    assert!(reply(&["2147483648"]).starts_with("I need a number.\n"));
    assert!(reply(&[""]).starts_with("I need a number.\n"));
}

#[test]
fn commands_need_a_connection_and_a_user() {
    let refused = command("/clean", err("down"), None, &words(&["1"]));
    assert_eq!(end_of(refused), err("down"));
    let refused = command("/clean", Ok(()), None, &words(&[]));
    assert_eq!(end_of(refused), err("Ignoring unreal users."));
    let refused = command("/what", Ok(()), Some(8), &words(&["1"]));
    assert_eq!(end_of(refused), err("Command /what [\"1\"] not handled."));
}

#[test]
fn numbers_are_handed_on() {
    match order("/clean", Some(8), &words(&["x"]), Ok(4)) {
        Order::Run(errand) => {
            assert_eq!((errand.deed, errand.id, errand.owner), (Deed::Clean, 4, 8));
        }
        _ => unreachable!(),
    }
    let refused = order("/clean", Some(8), &words(&["x"]), err("why"));
    assert_eq!(reply_of(refused), "I need a number.\nwhy");
}

fn errand(name: &str) -> Errand {
    match command(name, Ok(()), Some(8), &words(&["-7"])) {
        Order::Run(errand) => errand,
        other => panic!("{other:?}"),
    }
}

#[test]
fn checks_are_tried_out() {
    let Order::Check(trial) = command("/check", Ok(()), Some(8), &words(&["+3"])) else {
        unreachable!()
    };
    match trial.check() {
        Check::Connect(s) => assert_eq!((s.id, s.owner, s.live), (3, 8, false)),
        _ => unreachable!(),
    }
    assert_eq!(reply_of(trial.resume(Ok("Posted: 1".to_string()))), "Posted: 1");
    let Order::Check(trial) = command("/check", Ok(()), Some(8), &words(&["3"])) else {
        unreachable!()
    };
    assert_eq!(end_of(trial.resume(err("why"))), err("Channel check failed.\nwhy"));
}

#[test]
fn errands_are_run_for_the_sender() {
    let mut core = new_bot();
    assert_eq!(id_and_owner(&errand("/clean").query()), (-7, 8));
    assert_eq!(reply_of(errand("/clean").resume(Ok(0), &mut core)), "No data found found.");
    assert_eq!(reply_of(errand("/clean").resume(Ok(12), &mut core)), "12 posts purged.");
    assert_eq!(end_of(errand("/clean").resume(err("down"), &mut core)), err("down"));

    assert_eq!(id_and_owner(&errand("/enable").query()), (-7, 8));
    assert!(errand("/enable").query().sql.contains("enabled = true"));
    assert_eq!(reply_of(errand("/enable").resume(Ok(1), &mut core)), "Source enabled.");
    assert_eq!(reply_of(errand("/enable").resume(Ok(0), &mut core)), "Source not found.");
    assert_eq!(end_of(errand("/enable").resume(Ok(2), &mut core)), err("Database error."));

    assert_eq!(id_and_owner(&errand("/disable").query()), (-7, 8));
    assert!(errand("/disable").query().sql.contains("enabled = false"));
    assert_eq!(reply_of(errand("/disable").resume(Ok(1), &mut core)), "Source disabled.");
    assert_eq!(end_of(errand("/disable").resume(Ok(2), &mut core)), err("Database error."));
}

#[test]
fn removed_sources_leave_the_cache() {
    let mut core = new_bot();
    assert_eq!(id_and_owner(&errand("/delete").query()), (-7, 8));
    let Order::Load(load) = errand("/delete").resume(Ok(0), &mut core) else { unreachable!() };
    assert_eq!(load.reply, "No data found found.");
    assert!(matches!(load.query().binds[..], [Bind::Big(8)]));
    assert_eq!(end_of(load.resume(err("down"), &mut core)), err("down"));
    let Order::Load(load) = errand("/delete").resume(Ok(1), &mut core) else { unreachable!() };
    let rows = vec![Feed { source_id: -7, channel: "@a".to_string() }];
    assert_eq!(reply_of(load.resume(Ok(rows), &mut core)), "1 sources removed.");
    assert_eq!(reply_of(errand("/delete").resume(Ok(1), &mut core)), "1 sources removed.");
    match core.get_feeds(8) {
        Feeds::Cached(feeds) => assert!(feed_entries(&feeds).is_empty()),
        Feeds::Load(_) => unreachable!(),
    }
}

#[test]
fn answers_go_to_the_chat() {
    let core = new_bot();
    let Order::Answer(answer) = command("/clean", Ok(()), Some(8), &words(&[])) else {
        unreachable!()
    };
    let request = answer.request(&core, 5);
    assert_eq!(request.to, 5);
    assert_eq!(request.text, "This command needs exactly one number.");
    assert_eq!(request.mode, ParseMode::Html);
    assert_eq!(end_of(answer.resume(err("lost"))), err("lost"));
}

fn accepted(name: &str, list: &[&str]) -> Wanted {
    match update(name, Some(8), &words(list)) {
        Update::Locate(locate) => locate.wanted,
        other => panic!("{other:?}"),
    }
}

fn ended(stage: Update) -> Result<(), String> {
    match stage {
        Update::Done(result) => result,
        other => panic!("{other:?}"),
    }
}

fn refused(name: &str, list: &[&str]) -> String {
    ended(update(name, Some(8), &words(list))).unwrap_err()
}

#[test]
fn sources_are_added() {
    let wanted = accepted("/add", &["@news", "https://e.com/feed"]);
    assert_eq!(wanted.owner, 8);
    assert_eq!(wanted.source_id, None);
    assert_eq!(wanted.channel, "@news");
    assert_eq!(wanted.url, "https://e.com/feed");
    assert_eq!(wanted.iv_hash, None);
    assert_eq!(wanted.url_re, None);
}

#[test]
fn sources_are_changed() {
    let all = ["12", "@news", "HTTP://e.com", "0123456789abcd", "s/a/b/", "more"];
    let wanted = accepted("/update", &all);
    assert_eq!(wanted.source_id, Some(12));
    assert_eq!(wanted.url, "HTTP://e.com");
    assert_eq!(wanted.iv_hash, Some("0123456789abcd".to_string()));
    assert_eq!(wanted.url_re, Some("s/a/b/".to_string()));
    let wanted = accepted("/update", &["1", "@ab", "http://e", "-", "-"]);
    assert_eq!(wanted.iv_hash, None);
    assert_eq!(wanted.url_re, None);
}

#[test]
fn bad_requests_are_refused() {
    assert_eq!(ended(update("/add", None, &words(&[]))), err("Ignoring unreal users."));
    assert_eq!(refused("/update", &[]), "Requires at least 3 parameters.");
    assert_eq!(refused("/update", &["1", "@ab"]), "Requires at least 3 parameters.");
    assert_eq!(refused("/add", &["@ab"]), "Requires at least 3 parameters.");
    assert!(refused("/update", &["x", "@ab", "http://e"])
        .starts_with("I need a number, but got x.\n"));
    assert_eq!(refused("/drop", &["@ab", "http://e"]), "Passing /drop is not possible here.");
    assert_eq!(
        refused("/add", &["news", "nonsense"]),
        "Usernames should be something like \"@\\[a\\-zA\\-Z]\\[a\\-zA\\-Z0\\-9\\_]+\", aren't they?\nNot \"news\""
    );
    assert!(refused("/add", &["@ab", "nonsense"])
        .starts_with("Expecting a valid link to ATOM/RSS feed.\n"));
    assert_eq!(refused("/add", &["@ab", "ftp://e.com"]), "Unsupported URL scheme: ftp");
    assert_eq!(
        refused("/add", &["@ab", "http://e", "xyz", "nonsense"]),
        "IV hash should be 14 hex digits.\nNot \"xyz\""
    );
    assert!(refused("/add", &["@ab", "http://e", "-", "nonsense"])
        .starts_with("Regexp parsing error:\n"));
}

#[test]
fn readings_are_handed_on() {
    let list = words(&["x", "@ab", "?", "-", "?"]);
    let wanted =
        want("/update", Some(8), &list, Ok(3), Ok("https".to_string()), None).unwrap();
    assert_eq!(wanted.source_id, Some(3));
    assert_eq!(wanted.url_re, Some("?".to_string()));
    let e = want("/update", Some(8), &list, err("why"), Ok("http".to_string()), None).unwrap_err();
    assert_eq!(e, "I need a number, but got x.\nwhy");
    let e = want("/update", Some(8), &list, Ok(3), err("why"), None).unwrap_err();
    assert_eq!(e, "Expecting a valid link to ATOM/RSS feed.\nwhy");
    let e = want("/update", Some(8), &list, Ok(3), Ok("http".to_string()), Some("why".to_string()))
        .unwrap_err();
    assert_eq!(e, "Regexp parsing error:\nwhy");
    let dashed = words(&["x", "@ab", "?", "-", "-"]);
    assert!(want("/update", Some(8), &dashed, Ok(3), Ok("http".to_string()), Some("why".to_string()))
        .is_ok());
}

fn located(name: &str) -> Update {
    let list: &[&str] = match name {
        "/add" => &["@ab", "http://e", "-", "s/a/b/"],
        _ => &["12", "@ab", "http://e", "-", "s/a/b/"],
    };
    match update(name, Some(8), &words(list)) {
        Update::Locate(locate) => locate.resume(Ok(-100)),
        other => panic!("{other:?}"),
    }
}

fn vetted(name: &str, members: Result<Vec<Member>, String>) -> Update {
    match located(name) {
        Update::Vet(vet) => vet.resume(99, members),
        other => panic!("{other:?}"),
    }
}

fn let_in(name: &str) -> Write {
    let members = vec![Member::Administrator(8), Member::Other, Member::Creator(99)];
    let Update::Connect(connect) = vetted(name, Ok(members)) else { unreachable!() };
    match connect.resume(Ok(())) {
        Update::Write(write) => write,
        other => panic!("{other:?}"),
    }
}

#[test]
fn channels_must_be_found() {
    let Update::Locate(locate) = update("/add", Some(8), &words(&["@ab", "http://e"])) else {
        unreachable!()
    };
    assert_eq!(ended(locate.resume(err("why"))), err("getting GetChat\nwhy"));
    match located("/add") {
        Update::Vet(vet) => assert_eq!((vet.channel_id, vet.wanted.owner), (-100, 8)),
        _ => unreachable!(),
    }
}

#[test]
fn both_must_be_administrators() {
    let refusal = |members| ended(vetted("/add", members)).unwrap_err();
    assert_eq!(refusal(err("why")), "Sorry, I have no access to that chat.\nwhy");
    assert_eq!(refusal(Ok(vec![])), "I need to be admin on that channel.");
    assert_eq!(
        refusal(Ok(vec![Member::Creator(8), Member::Other])),
        "I need to be admin on that channel."
    );
    assert_eq!(
        refusal(Ok(vec![Member::Administrator(99), Member::Creator(9)])),
        "You should be admin on that channel."
    );
    let members = vec![Member::Creator(8), Member::Administrator(99)];
    let Update::Connect(connect) = vetted("/add", Ok(members)) else { unreachable!() };
    assert_eq!(connect.channel_id, -100);
    assert_eq!(ended(connect.resume(err("down"))), err("down"));
}

#[test]
fn what_is_asked_for_is_written() {
    let query = let_in("/add").query();
    assert_eq!(
        query.sql,
        "insert into rsstg_source (channel_id, url, iv_hash, owner, channel, url_re) values ($1, $2, $3, $4, $5, $6)"
    );
    match &query.binds[..] {
        [Bind::Big(-100), Bind::Text(url), Bind::OptText(None), Bind::Big(8), Bind::Text(channel), Bind::OptText(Some(re))] =>
        {
            assert_eq!((url.as_str(), channel.as_str(), re.as_str()), ("http://e", "@ab", "s/a/b/"));
        }
        _ => unreachable!(),
    }
    let changed = let_in("/update").query();
    assert_eq!(
        changed.sql,
        "update rsstg_source set channel_id = $2, url = $3, iv_hash = $4, owner = $5, channel = $6, url_re = $7 where source_id = $1"
    );
    assert!(matches!(changed.binds[0], Bind::Int(12)));
    assert_eq!(changed.binds.len(), 7);
}

#[test]
fn writing_is_answered() {
    let reply = |name: &str, written: Written| match let_in(name).resume(written) {
        Update::Answer(answer) => answer.reply,
        other => panic!("{other:?}"),
    };
    assert_eq!(reply("/add", Written::Done), "Channel added.");
    assert_eq!(reply("/update", Written::Done), "Channel updated.");
    let routine = |s: &str| Written::Refused(Some(s.to_string()));
    assert_eq!(reply("/add", routine("_bt_check_unique")), "Duplicate key.");
    assert_eq!(reply("/add", routine("other")), "Database error.");
    assert_eq!(reply("/add", Written::Refused(None)), "No database error extracted.");
    let failed = let_in("/add").resume(Written::Failed("why".to_string()));
    assert_eq!(ended(failed), err("Sorry, unknown error:\nwhy\n"));
    let Update::Answer(answer) = let_in("/update").resume(Written::Done) else { unreachable!() };
    let request = answer.request(&new_bot(), 5);
    assert_eq!((request.to, request.text.as_str()), (5, "Channel updated."));
    assert_eq!(request.mode, ParseMode::Html);
    assert_eq!(ended(answer.resume(Ok(()))), Ok(()));
}

#[test]
fn added_sources_are_read_back() {
    let mut core = new_bot();
    let read_back = || {
        let Update::Answer(answer) = let_in("/add").resume(Written::Done) else { unreachable!() };
        match answer.resume(Ok(())) {
            Update::ReadBack(read_back) => read_back,
            other => panic!("{other:?}"),
        }
    };
    let feed = || Feed { source_id: 3, channel: "@ab".to_string() };
    let query = read_back().query();
    assert_eq!(
        query.sql,
        "select source_id, channel from rsstg_source where owner = $1 and channel = $2"
    );
    match &query.binds[..] {
        [Bind::Big(8), Bind::Text(channel)] => assert_eq!(channel, "@ab"),
        _ => unreachable!(),
    }
    assert_eq!(
        ended(read_back().resume(Ok(None), &mut core)),
        err("Failed to read data on freshly inserted source.")
    );
    assert_eq!(ended(read_back().resume(err("down"), &mut core)), err("down"));
    let Update::Load(load) = read_back().resume(Ok(Some(feed())), &mut core) else {
        unreachable!()
    };
    assert!(matches!(load.query().binds[..], [Bind::Big(8)]));
    assert_eq!(ended(load.resume(Ok(vec![]), &mut core)), Ok(()));
    assert_eq!(ended(read_back().resume(Ok(Some(feed())), &mut core)), Ok(()));
    match core.get_feeds(8) {
        Feeds::Cached(feeds) => assert_eq!(feed_entries(&feeds), vec![(3, "@ab".to_string())]),
        Feeds::Load(_) => unreachable!(),
    }
    let Update::Answer(answer) = let_in("/add").resume(Written::Done) else { unreachable!() };
    assert_eq!(ended(answer.resume(err("lost"))), err("lost"));
}

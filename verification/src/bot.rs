//! The bot: what it is made of, which sources it fetches and when, and the feeds that it remembers.

use crate::cache::{self, FeedList, UserCache};
use crate::check::{self, Check};
use crate::moment::{self, Moment, Stamp};
use crate::sql::{self, Conn, Db, Feed, List, Query, Queue};
use crate::text;
use crate::tg_bot::{self, Callback, MyMessage, SendRequest, Tg};
use crate::token::Running;
use std::collections::HashSet;
use vstd::prelude::*;

verus! {

/// The gateway that is used where the settings name none.
pub const API_GATEWAY: &'static str = "https://api.telegram.org";

/// How long the bot waits before it looks at its queue again, where nothing is due earlier: one
/// minute in nanoseconds.
pub const ROUND_NANOS: u64 = 60_000_000_000;

/// The settings of the bot: each of them, or why it could not be read.
#[derive(Debug)]
pub struct Settings {
    pub api_key: Result<String, String>,
    pub owner: Result<i64, String>,
    pub api_gateway: Result<String, String>,
    pub pg: Result<String, String>,
}

/// What is needed to reach Telegram.
#[derive(Debug)]
pub struct Access {
    pub api_key: String,
    pub owner: i64,
    pub api_gateway: String,
}

/// An [`Access`] as characters.
pub ghost struct AccessView {
    pub api_key: Seq<char>,
    pub owner: i64,
    pub api_gateway: Seq<char>,
}

impl View for Access {
    type V = AccessView;

    open spec fn view(&self) -> AccessView {
        AccessView {
            api_key: self.api_key@,
            owner: self.owner,
            api_gateway: self.api_gateway@,
        }
    }
}

/// The outcome of reading what is needed to reach Telegram as characters.
pub open spec fn access_outcome(r: Result<Access, String>) -> Result<AccessView, Seq<char>> {
    match r {
        Ok(access) => Ok(access@),
        Err(e) => Err(e@),
    }
}

impl Settings {
    /// What is needed to reach Telegram, or why the first of the settings for it could not be read.
    pub open spec fn access_of(self) -> Result<AccessView, Seq<char>> {
        match (self.api_key, self.owner, self.api_gateway) {
            (Err(e), _, _) => Err(e@),
            (_, Err(e), _) => Err(e@),
            (_, _, Err(e)) => Err(e@),
            (Ok(api_key), Ok(owner), Ok(api_gateway)) => Ok(
                AccessView { api_key: api_key@, owner, api_gateway: api_gateway@ },
            ),
        }
    }

    /// See [`Settings::access_of`].
    pub fn access(&self) -> (r: Result<Access, String>)
        ensures
            access_outcome(r) == self.access_of(),
    {
        let api_key = match &self.api_key {
            Ok(key) => key.clone(),
            Err(e) => return Err(e.clone()),
        };
        let owner = match &self.owner {
            Ok(owner) => *owner,
            Err(e) => return Err(e.clone()),
        };
        match &self.api_gateway {
            Ok(gateway) => Ok(Access { api_key, owner, api_gateway: gateway.clone() }),
            Err(e) => Err(e.clone()),
        }
    }
}

/// The bot.
pub struct Core {
    pub tg: Tg,
    pub db: Db,
    /// The feeds of users that were asked for lately.
    pub feeds: UserCache,
    /// The sources that are being checked.
    pub running: Running,
}

/// What the bot is made of, or why it could not be made: the bot and its owner, and the connection
/// string of the database.
pub open spec fn parts(settings: Settings, me: Result<i64, Seq<char>>) -> Result<
    (Tg, Seq<char>),
    Seq<char>,
> {
    match (settings.access_of(), me, settings.pg) {
        (Err(e), _, _) => Err(e),
        (_, Err(e), _) => Err(e),
        (_, _, Err(e)) => Err(e@),
        (Ok(access), Ok(me), Ok(pg)) => Ok((Tg { me, owner: access.owner }, pg@)),
    }
}

/// A source whose time to be fetched has come.
#[derive(Clone, Copy, Debug)]
pub struct Due {
    /// The bot as it answers to the owner of the source.
    pub tg: Tg,
    pub source_id: i32,
    pub last_scrape: Stamp,
}

/// Whether a row of the queue names a source whose time has come.
pub open spec fn is_due(row: Queue, now: Moment) -> bool {
    &&& row.next_fetch matches Some(at)
    &&& moment::before(at, now)
    &&& row.owner is Some
    &&& row.source_id is Some
}

/// The fetch that a row of the queue asks for.
pub open spec fn due_of(tg: Tg, row: Queue) -> Due {
    Due {
        tg: Tg { owner: row.owner->0, ..tg },
        source_id: row.source_id->0,
        last_scrape: row.last_scrape,
    }
}

/// The fetches whose time has come, in the order of the queue.
pub open spec fn due_in(tg: Tg, queue: Seq<Queue>, now: Moment) -> Seq<Due>
    decreases queue.len(),
{
    if queue.len() == 0 {
        Seq::empty()
    } else {
        let front = due_in(tg, queue.drop_last(), now);
        if is_due(queue.last(), now) {
            front.push(due_of(tg, queue.last()))
        } else {
            front
        }
    }
}

/// Whether a row of the queue names a time that has not passed.
pub open spec fn is_ahead(row: Queue, now: Moment) -> bool {
    &&& row.next_fetch matches Some(at)
    &&& !moment::before(at, now)
}

/// Whether a wait is the shortest one of a round and of the times in the queue that have not passed.
pub open spec fn is_delay(delay: int, queue: Seq<Queue>, now: Moment) -> bool {
    &&& delay <= ROUND_NANOS
    &&& forall|i: int|
        0 <= i < queue.len() && is_ahead(#[trigger] queue[i], now) ==> delay <= moment::nanos_until(
            now,
            queue[i].next_fetch->0,
        )
    &&& delay == ROUND_NANOS || exists|i: int|
        0 <= i < queue.len() && is_ahead(#[trigger] queue[i], now) && delay == moment::nanos_until(
            now,
            queue[i].next_fetch->0,
        )
}

/// What the cache has for a user, or the statement that loads the feeds.
pub enum Feeds {
    Cached(FeedList),
    Load(Query),
}

/// What is found in the cache for a user, or else the statement that loads the feeds.
pub fn found_feeds(found: Option<&FeedList>, owner: i64) -> (r: Feeds)
    ensures
        match (found, r) {
            (Some(feeds), Feeds::Cached(copy)) => copy@ == feeds@,
            (None, Feeds::Load(query)) => query@ == sql::get_feeds_query(owner),
            _ => false,
        },
{
    match found {
        Some(feeds) => Feeds::Cached(feeds.clone()),
        None => Feeds::Load(Conn::get_feeds(owner)),
    }
}

/// Adds a feed to what was found in the cache for a user. Where nothing was, the statement is
/// returned that loads all feeds of the user.
pub fn expand_feeds(
    found: Option<&mut FeedList>,
    owner: i64,
    source_id: i32,
    channel: String,
) -> (r: Option<Query>)
    ensures
        match found {
            Some(feeds) => {
                &&& r is None
                &&& cache::feed_map(final(feeds)@) == cache::feed_map(feeds@).insert(
                    source_id,
                    channel@,
                )
            },
            None => {
                &&& r matches Some(query)
                &&& query@ == sql::get_feeds_query(owner)
            },
        },
{
    match found {
        Some(feeds) => {
            let ghost before = feeds@;
            let ghost name = channel@;
            feeds.insert(source_id, channel);
            assert(cache::feed_map(feeds@) =~= cache::feed_map(before).insert(source_id, name));
            None
        },
        None => Some(Conn::get_feeds(owner)),
    }
}

/// Removes a feed from what was found in the cache for a user. Where nothing was, the statement is
/// returned that loads all feeds of the user.
pub fn shrink_feeds(found: Option<&mut FeedList>, owner: i64, source_id: i32) -> (r: Option<Query>)
    ensures
        match found {
            Some(feeds) => {
                &&& r is None
                &&& cache::feed_map(final(feeds)@) == cache::feed_map(feeds@).remove(source_id)
            },
            None => {
                &&& r matches Some(query)
                &&& query@ == sql::get_feeds_query(owner)
            },
        },
{
    match found {
        Some(feeds) => {
            let ghost before = feeds@;
            feeds.remove(&source_id);
            assert(cache::feed_map(feeds@) =~= cache::feed_map(before).remove(source_id));
            None
        },
        None => Some(Conn::get_feeds(owner)),
    }
}

impl Core {
    /// Makes the bot from its settings and the user number that Telegram gave for it: see [`parts`].
    /// No source is being checked and no feeds are cached then.
    pub fn new(settings: Settings, me: Result<i64, String>) -> (r: Result<Core, String>)
        ensures
            match r {
                Ok(core) => {
                    &&& parts(settings, text::outcome(me)) == Ok::<(Tg, Seq<char>), Seq<char>>(
                        (core.tg, core.db.uri@),
                    )
                    &&& core.db.max_connections == 5
                    &&& core.db.acquire_timeout_secs == 300
                    &&& core.db.idle_timeout_secs == 60
                    &&& cache::cached(core.feeds).len() == 0
                    &&& cache::cache_wf(core.feeds)
                    &&& core.running@ == Set::<i32>::empty()
                },
                Err(e) => parts(settings, text::outcome(me)) == Err::<(Tg, Seq<char>), Seq<char>>(
                    e@,
                ),
            },
    {
        let access = match settings.access() {
            Ok(access) => access,
            Err(e) => return Err(e),
        };
        let me = match me {
            Ok(me) => me,
            Err(e) => return Err(e),
        };
        match settings.pg {
            Ok(pg) => Ok(
                Core {
                    tg: Tg::new(me, access.owner),
                    db: Db::new(pg.as_str()),
                    feeds: cache::cache_new(cache::CACHE_LIMIT),
                    running: HashSet::new(),
                },
            ),
            Err(e) => Err(e),
        }
    }

    /// Starts a check of a source on behalf of the owner of the bot.
    pub fn check(&self, id: i32, live: bool, last_scrape: Option<Stamp>) -> (r: Check)
        requires
            last_scrape is Some ==> last_scrape->0.printable(),
        ensures
            r@.wf(),
            r@ == (check::CheckView::Connect {
                id,
                owner: self.tg.owner,
                live,
                since: check::since_text(last_scrape),
            }),
    {
        check::begin(id, self.tg.owner, live, last_scrape)
    }

    /// The fetches of the queue whose time has come, and how many nanoseconds to wait before the
    /// queue is looked at again. A clock shows no leap seconds, nor does the database.
    pub fn autofetch(&self, now: Moment, queue: &Vec<Queue>) -> (r: (Vec<Due>, u64))
        requires
            moment::on_clock(now),
            forall|i: int|
                0 <= i < queue@.len() && (#[trigger] queue@[i]).next_fetch is Some
                    ==> moment::on_clock(queue@[i].next_fetch->0),
        ensures
            r.0@ == due_in(self.tg, queue@, now),
            is_delay(r.1 as int, queue@, now),
    {
        let mut due: Vec<Due> = Vec::new();
        let mut delay: i128 = ROUND_NANOS as i128;
        let mut i: usize = 0;
        while i < queue.len()
            invariant
                i <= queue@.len(),
                0 <= delay <= ROUND_NANOS,
                moment::on_clock(now),
                forall|k: int|
                    0 <= k < queue@.len() && (#[trigger] queue@[k]).next_fetch is Some
                        ==> moment::on_clock(queue@[k].next_fetch->0),
                due@ == due_in(self.tg, queue@.take(i as int), now),
                is_delay(delay as int, queue@.take(i as int), now),
            decreases queue@.len() - i,
        {
            let row = queue[i];
            let ghost seen = queue@.take(i as int);
            let ghost next = queue@.take(i + 1);
            let ghost shorter = delay as int;
            assert(next.drop_last() =~= seen);
            assert(next.last() == row);
            if let Some(at) = row.next_fetch {
                if moment::is_before(at, now) {
                    if let (Some(owner), Some(source_id)) = (row.owner, row.source_id) {
                        due.push(
                            Due {
                                tg: self.tg.with_owner(owner),
                                source_id,
                                last_scrape: row.last_scrape,
                            },
                        );
                    }
                } else {
                    let wait = moment::nanos_from(now, at);
                    if wait < delay {
                        delay = wait;
                    }
                }
            }
            proof {
                assert forall|k: int| 0 <= k < next.len() && is_ahead(#[trigger] next[k], now) implies
                    delay <= moment::nanos_until(now, next[k].next_fetch->0) by {
                    if k < seen.len() {
                        assert(next[k] == seen[k]);
                    }
                }
                if delay != ROUND_NANOS {
                    if delay == shorter {
                        let k = choose|k: int|
                            0 <= k < seen.len() && is_ahead(#[trigger] seen[k], now) && delay
                                == moment::nanos_until(now, seen[k].next_fetch->0);
                        assert(next[k] == seen[k]);
                    } else {
                        assert(is_ahead(next[i as int], now));
                    }
                }
            }
            i = i + 1;
        }
        assert(queue@.take(queue@.len() as int) =~= queue@);
        (due, delay as u64)
    }

    /// What follows a look at the queue: how many nanoseconds to wait, and where the look failed a
    /// message to the owner.
    pub fn pause(&self, looked: Result<u64, String>) -> (r: (u64, Option<SendRequest>))
        ensures
            match looked {
                Ok(delay) => r == (delay, None::<SendRequest>),
                Err(e) => {
                    &&& r.0 == ROUND_NANOS
                    &&& r.1 matches Some(request)
                    &&& request@ == tg_bot::plain_request(
                        self.tg.owner,
                        "🛑 "@ + e@,
                        tg_bot::ParseMode::Html,
                    )
                },
            },
    {
        match looked {
            Ok(delay) => (delay, None),
            Err(e) => (
                ROUND_NANOS,
                Some(self.tg.send(MyMessage::html(text::cat("🛑 ", e.as_str())))),
            ),
        }
    }

    /// The list of the sources of a user.
    pub fn list(rows: &Vec<List>) -> (r: String)
        ensures
            r@ == list_text(list_views(rows@)),
    {
        let mut reply: Vec<String> = Vec::new();
        reply.push("Channels:".to_owned());
        let mut i: usize = 0;
        while i < rows.len()
            invariant
                i <= rows@.len(),
                text::texts(reply@) =~= seq!["Channels:"@] + list_views(rows@).take(
                    i as int,
                ).map_values(|l: sql::ListView| l.to_text()),
            decreases rows@.len() - i,
        {
            let ghost before = reply@;
            let line = rows[i].to_string();
            reply.push(line);
            assert(text::texts(reply@) =~= text::texts(before).push(line@));
            assert(list_views(rows@)[i as int] == rows@[i as int]@);
            i = i + 1;
        }
        assert(list_views(rows@).take(rows@.len() as int) =~= list_views(rows@));
        text::join(&reply, "\n\n")
    }

    /// What the cache has for a user, or else the statement that loads the feeds: see
    /// [`Core::load_feeds`].
    pub fn get_feeds(&self, owner: i64) -> (r: Feeds)
        ensures
            match r {
                Feeds::Cached(feeds) => cache::cached(self.feeds).contains(
                    (owner, cache::feed_map(feeds@)),
                ),
                Feeds::Load(query) => query@ == sql::get_feeds_query(owner),
            },
            exists|found: Option<&FeedList>| #[trigger]
                cache::finds(self.feeds, owner, found) && call_ensures(
                    found_feeds,
                    (found, owner),
                    r,
                ),
    {
        found_feeds(cache::look_up(&self.feeds, owner), owner)
    }

    /// Stores the feeds of a user that were loaded, and returns them. Where they could not be loaded
    /// the cache stays as it was.
    pub fn load_feeds(&mut self, owner: i64, rows: Result<Vec<Feed>, String>) -> (r: Result<
        FeedList,
        String,
    >)
        ensures
            final(self).tg == old(self).tg,
            final(self).db == old(self).db,
            final(self).running == old(self).running,
            cache::cache_limit(final(self).feeds) == cache::cache_limit(old(self).feeds),
            cache::cache_wf(old(self).feeds) ==> cache::cache_wf(final(self).feeds),
            match rows {
                Ok(rows) => {
                    let loaded = cache::feeds_in(cache::row_views(rows@));
                    &&& r matches Ok(feeds)
                    &&& cache::feed_map(feeds@) == loaded
                    &&& cache::cached(final(self).feeds) == cache::stored(
                        cache::cached(old(self).feeds),
                        cache::cache_limit(old(self).feeds),
                        owner,
                        loaded,
                    )
                },
                Err(e) => {
                    &&& r == Err::<FeedList, String>(e)
                    &&& cache::cached(final(self).feeds) == cache::cached(old(self).feeds)
                },
            },
    {
        match rows {
            Ok(rows) => {
                let feeds = cache::collect_feeds(rows);
                proof {
                    if cache::cache_wf(self.feeds) {
                        cache::storing_keeps_order(
                            cache::cached(self.feeds),
                            cache::cache_limit(self.feeds),
                            owner,
                            cache::feed_map(feeds@),
                        );
                    }
                }
                cache::cache_insert(&mut self.feeds, owner, feeds.clone(), cache::CACHE_SECONDS);
                Ok(feeds)
            },
            Err(e) => Err(e),
        }
    }

    /// Adds a feed to what is cached for a user. Where nothing is, the statement is returned that
    /// loads all feeds of the user.
    pub fn add_feed(&mut self, owner: i64, source_id: i32, channel: String) -> (r: Option<Query>)
        ensures
            final(self).tg == old(self).tg,
            final(self).db == old(self).db,
            final(self).running == old(self).running,
            cache::cache_limit(final(self).feeds) == cache::cache_limit(old(self).feeds),
            cache::cache_wf(old(self).feeds) ==> cache::cache_wf(final(self).feeds),
            match r {
                None => cache::feed_added(
                    cache::cached(old(self).feeds),
                    cache::cached(final(self).feeds),
                    owner,
                    source_id,
                    channel@,
                ),
                Some(query) => {
                    &&& query@ == sql::get_feeds_query(owner)
                    &&& cache::cached(final(self).feeds) == cache::cached(old(self).feeds)
                },
            },
    {
        let ghost before = cache::cached(self.feeds);
        let ghost name = channel@;
        let found = cache::cache_get_mut(&mut self.feeds, owner);
        let ghost from = cache::feed_map(found->0@);
        let r = expand_feeds(found, owner, source_id, channel);
        proof {
            let after = cache::cached(self.feeds);
            if r is None {
                assert(cache::entry_changed(
                    before,
                    after,
                    owner,
                    from,
                    from.insert(source_id, name),
                ));
                cache::changing_keeps_order(
                    before,
                    after,
                    owner,
                    from,
                    from.insert(source_id, name),
                );
            }
        }
        r
    }

    /// Removes a feed from what is cached for a user. Where nothing is, the statement is returned
    /// that loads all feeds of the user.
    pub fn rm_feed(&mut self, owner: i64, source_id: i32) -> (r: Option<Query>)
        ensures
            final(self).tg == old(self).tg,
            final(self).db == old(self).db,
            final(self).running == old(self).running,
            cache::cache_limit(final(self).feeds) == cache::cache_limit(old(self).feeds),
            cache::cache_wf(old(self).feeds) ==> cache::cache_wf(final(self).feeds),
            match r {
                None => cache::feed_removed(
                    cache::cached(old(self).feeds),
                    cache::cached(final(self).feeds),
                    owner,
                    source_id,
                ),
                Some(query) => {
                    &&& query@ == sql::get_feeds_query(owner)
                    &&& cache::cached(final(self).feeds) == cache::cached(old(self).feeds)
                },
            },
    {
        let ghost before = cache::cached(self.feeds);
        let found = cache::cache_get_mut(&mut self.feeds, owner);
        let ghost from = cache::feed_map(found->0@);
        let r = shrink_feeds(found, owner, source_id);
        proof {
            let after = cache::cached(self.feeds);
            if r is None {
                assert(cache::entry_changed(before, after, owner, from, from.remove(source_id)));
                cache::changing_keeps_order(before, after, owner, from, from.remove(source_id));
            }
        }
        r
    }
}

/// Sources as characters.
pub open spec fn list_views(rows: Seq<List>) -> Seq<sql::ListView> {
    rows.map_values(|l: List| l@)
}

/// The list of sources: a heading and the description of each of them, with an empty line between.
pub open spec fn list_text(rows: Seq<sql::ListView>) -> Seq<char> {
    text::joined(
        seq!["Channels:"@] + rows.map_values(|l: sql::ListView| l.to_text()),
        "\n\n"@,
    )
}

/// How a source is named in a report: by its description, where the database has it.
pub open spec fn source_label(found: Result<Option<sql::ListView>, Seq<char>>) -> Seq<char> {
    match found {
        Ok(Some(source)) => source.to_text(),
        Ok(None) => "Source not found in database?"@,
        Err(e) => "Failed to fetch source data:\n"@ + e,
    }
}

/// A source, where there is one, or an error text as characters.
pub open spec fn label_outcome(found: Result<Option<List>, String>) -> Result<
    Option<sql::ListView>,
    Seq<char>,
> {
    match found {
        Ok(Some(source)) => Ok(Some(source@)),
        Ok(None) => Ok(None),
        Err(e) => Err(e@),
    }
}

impl Due {
    /// The statement that reads the description of the source.
    pub fn query(&self) -> (r: Query)
        ensures
            r@ == sql::get_one_query(self.tg.owner, self.source_id),
    {
        Conn::get_one(self.tg.owner, self.source_id)
    }

    /// See [`source_label`].
    pub fn label(found: Result<Option<List>, String>) -> (r: String)
        ensures
            r@ == source_label(label_outcome(found)),
    {
        match found {
            Ok(Some(source)) => source.to_string(),
            Ok(None) => "Source not found in database?".to_owned(),
            Err(e) => text::cat("Failed to fetch source data:\n", e.as_str()),
        }
    }

    /// Starts the check that this fetch asks for: on behalf of the owner of the source, with posts
    /// for its channel.
    pub fn check(&self) -> (r: Check)
        requires
            self.last_scrape.printable(),
        ensures
            r@.wf(),
            r@ == (check::CheckView::Connect {
                id: self.source_id,
                owner: self.tg.owner,
                live: true,
                since: check::since_text(Some(self.last_scrape)),
            }),
    {
        check::begin(self.source_id, self.tg.owner, true, Some(self.last_scrape))
    }

    /// What follows the end of the check: a message to the owner of the source where it failed.
    pub fn report(&self, label: &str, checked: Result<String, String>) -> (r: Option<SendRequest>)
        ensures
            match checked {
                Ok(_) => r is None,
                Err(e) => {
                    &&& r matches Some(request)
                    &&& request@ == tg_bot::plain_request(
                        self.tg.owner,
                        "🛑 "@ + label@ + "\n<pre>"@ + e@ + "</pre>"@,
                        tg_bot::ParseMode::Html,
                    )
                },
            },
    {
        match checked {
            Ok(_) => None,
            Err(e) => {
                let mut s = text::cat3("🛑 ", label, "\n<pre>");
                s.append(e.as_str());
                s.append("</pre>");
                Some(self.tg.send(MyMessage::html(s)))
            },
        }
    }
}

/// The handlers of commands.
#[derive(Clone, Copy, Debug, PartialEq, Eq, Structural)]
pub enum Handler {
    /// The commands about one source.
    Command,
    Start,
    List,
    Test,
    /// The commands that add or change a source.
    Update,
}

/// The handler of the command with a name.
pub open spec fn handler_of(name: Seq<char>) -> Option<Handler> {
    if name == "/check"@ || name == "/clean"@ || name == "/enable"@ || name == "/delete"@ || name
        == "/disable"@ {
        Some(Handler::Command)
    } else if name == "/start"@ {
        Some(Handler::Start)
    } else if name == "/list"@ {
        Some(Handler::List)
    } else if name == "/test"@ {
        Some(Handler::Test)
    } else if name == "/add"@ || name == "/update"@ {
        Some(Handler::Update)
    } else {
        None
    }
}

/// The message to a chat that a command which failed came from.
pub open spec fn failure_report(error: Seq<char>, chat: i64) -> tg_bot::SendRequestView {
    tg_bot::plain_request(chat, "#error<pre>"@ + error + "</pre>"@, tg_bot::ParseMode::Html)
}

/// What is said of a command that is not known.
pub open spec fn unknown_command(name: Seq<char>) -> Seq<char> {
    "Unknown command: "@ + name
}

impl Core {
    /// The handler of the command with a name, or the refusal of an unknown command.
    pub fn handle(name: &str) -> (r: Result<Handler, String>)
        ensures
            match r {
                Ok(handler) => handler_of(name@) == Some(handler),
                Err(e) => handler_of(name@) is None && e@ == unknown_command(name@),
            },
    {
        if text::same(name, "/check") || text::same(name, "/clean") || text::same(name, "/enable")
            || text::same(name, "/delete") || text::same(name, "/disable") {
            Ok(Handler::Command)
        } else if text::same(name, "/start") {
            Ok(Handler::Start)
        } else if text::same(name, "/list") {
            Ok(Handler::List)
        } else if text::same(name, "/test") {
            Ok(Handler::Test)
        } else if text::same(name, "/add") || text::same(name, "/update") {
            Ok(Handler::Update)
        } else {
            Err(text::cat("Unknown command: ", name))
        }
    }

    /// What follows a command: a message to the chat that it came from where it failed.
    pub fn report(&self, handled: Result<(), String>, chat: i64) -> (r: Option<SendRequest>)
        ensures
            match handled {
                Ok(_) => r is None,
                Err(e) => {
                    &&& r matches Some(request)
                    &&& request@ == failure_report(e@, chat)
                },
            },
    {
        match handled {
            Ok(_) => None,
            Err(e) => Some(
                self.tg.send(
                    MyMessage::html_to(text::cat3("#error<pre>", e.as_str(), "</pre>"), chat),
                ),
            ),
        }
    }

    /// What follows a callback that could not be read. There is nothing yet that a callback which
    /// can be read would lead to.
    pub fn cb(read: Result<Callback, String>) -> (r: Result<(), String>)
        requires
            read is Err,
        ensures
            r == Err::<(), String>(read->Err_0),
    {
        match read {
            Ok(_) => Ok(()),
            Err(e) => Err(e),
        }
    }
}

/// A command has a handler or is refused, and who gives one that is refused is told so in the chat
/// that it came from.
pub proof fn unknown_commands_are_reported(name: Seq<char>, chat: i64)
    ensures
        handler_of(name) is None <==> (name != "/start"@ && name != "/list"@ && name != "/test"@ && name
            != "/add"@ && name != "/update"@ && name != "/check"@ && name != "/clean"@ && name
            != "/enable"@ && name != "/delete"@ && name != "/disable"@),
        failure_report(unknown_command(name), chat) == tg_bot::plain_request(
            chat,
            "#error<pre>"@ + ("Unknown command: "@ + name) + "</pre>"@,
            tg_bot::ParseMode::Html,
        ),
{
}

/// Whether a row of the queue asks for a fetch.
pub open spec fn asked_for(due: Due, tg: Tg, queue: Seq<Queue>, now: Moment) -> bool {
    exists|i: int|
        #![trigger queue[i]]
        0 <= i < queue.len() && is_due(queue[i], now) && due == due_of(tg, queue[i])
}

/// A source is fetched if and only if a row of the queue names it, its owner and a time that has
/// passed.
pub proof fn fetches_what_is_due(tg: Tg, queue: Seq<Queue>, now: Moment)
    ensures
        forall|i: int|
            #![trigger queue[i]]
            0 <= i < queue.len() && is_due(queue[i], now) ==> due_in(tg, queue, now).contains(
                due_of(tg, queue[i]),
            ),
        forall|k: int|
            0 <= k < due_in(tg, queue, now).len() ==> asked_for(
                #[trigger] due_in(tg, queue, now)[k],
                tg,
                queue,
                now,
            ),
    decreases queue.len(),
{
    if queue.len() > 0 {
        let rest = queue.drop_last();
        let all = due_in(tg, queue, now);
        let front = due_in(tg, rest, now);
        fetches_what_is_due(tg, rest, now);
        assert forall|i: int|
            #![trigger queue[i]]
            0 <= i < queue.len() && is_due(queue[i], now) implies all.contains(
            due_of(tg, queue[i]),
        ) by {
            if i < rest.len() {
                assert(rest[i] == queue[i]);
                let k = choose|k: int| 0 <= k < front.len() && front[k] == due_of(tg, rest[i]);
                assert(all[k] == front[k]);
            } else {
                assert(all[front.len() as int] == due_of(tg, queue[i]));
            }
        }
        assert forall|k: int| 0 <= k < all.len() implies asked_for(
            #[trigger] all[k],
            tg,
            queue,
            now,
        ) by {
            if k < front.len() {
                assert(all[k] == front[k]);
                let i = choose|i: int|
                    #![trigger rest[i]]
                    0 <= i < rest.len() && is_due(rest[i], now) && front[k] == due_of(tg, rest[i]);
                assert(queue[i] == rest[i]);
            } else {
                assert(due_of(tg, queue[queue.len() - 1]) == all[k]);
            }
        }
    }
}

/// The bot waits a minute at most, and never past a time in the queue that is still ahead.
pub proof fn waits_no_longer_than_needed(delay: int, queue: Seq<Queue>, now: Moment, i: int)
    requires
        is_delay(delay, queue, now),
        moment::on_clock(now),
        forall|k: int|
            0 <= k < queue.len() && (#[trigger] queue[k]).next_fetch is Some ==> moment::on_clock(
                queue[k].next_fetch->0,
            ),
    ensures
        0 <= delay <= ROUND_NANOS,
        0 <= i < queue.len() && is_ahead(queue[i], now) ==> delay <= moment::nanos_until(
            now,
            queue[i].next_fetch->0,
        ),
{
}

} // verus!

//! What holds of the bot: what it fetches and when, what it says, and what it remembers.

use crate::bot::{self, Access, Core, Due, Feeds, Handler, Settings};
use crate::cache::{self, FeedList};
use crate::check::{self, Check};
use crate::moment::{self, Moment, Stamp};
use crate::sql::{Feed, List, Query, Queue};
use crate::sql_laws::{big_at, int_at, reveal_query};
use crate::text;
use crate::tg_bot::{Callback, ParseMode, SendRequest};
use vstd::prelude::*;

verus! {

/// How many rows of a queue name a source, an owner and a time that has passed.
pub open spec fn ripe(queue: Seq<Queue>, now: Moment) -> nat
    decreases queue.len(),
{
    if queue.len() == 0 {
        0
    } else {
        let row = queue.last();
        let t = row.next_fetch->0;
        let is_ripe = row.source_id is Some && row.owner is Some && row.next_fetch is Some && (t.0
            < now.0 || (t.0 == now.0 && t.1 < now.1));
        ripe(queue.drop_last(), now) + if is_ripe {
            1nat
        } else {
            0nat
        }
    }
}

proof fn ripe_rows_are_due(tg: crate::tg_bot::Tg, queue: Seq<Queue>, now: Moment)
    ensures
        bot::due_in(tg, queue, now).len() == ripe(queue, now),
        forall|i: int|
            #![trigger queue[i]]
            0 <= i < queue.len() ==> {
                let row = queue[i];
                let t = row.next_fetch->0;
                let k = ripe(queue.take(i), now) as int;
                row.source_id is Some && row.owner is Some && row.next_fetch is Some && (t.0 < now.0
                    || (t.0 == now.0 && t.1 < now.1)) ==> {
                    &&& k < ripe(queue, now)
                    &&& bot::due_in(tg, queue, now)[k].source_id == row.source_id->0
                    &&& bot::due_in(tg, queue, now)[k].tg.owner == row.owner->0
                    &&& bot::due_in(tg, queue, now)[k].tg.me == tg.me
                    &&& bot::due_in(tg, queue, now)[k].last_scrape == row.last_scrape
                }
            },
    decreases queue.len(),
{
    if queue.len() > 0 {
        let rest = queue.drop_last();
        ripe_rows_are_due(tg, rest, now);
        assert forall|i: int| #![trigger queue[i]] 0 <= i < queue.len() implies {
            let row = queue[i];
            let t = row.next_fetch->0;
            let k = ripe(queue.take(i), now) as int;
            row.source_id is Some && row.owner is Some && row.next_fetch is Some && (t.0 < now.0 || (
            t.0 == now.0 && t.1 < now.1)) ==> {
                &&& k < ripe(queue, now)
                &&& bot::due_in(tg, queue, now)[k].source_id == row.source_id->0
                &&& bot::due_in(tg, queue, now)[k].tg.owner == row.owner->0
                &&& bot::due_in(tg, queue, now)[k].tg.me == tg.me
                &&& bot::due_in(tg, queue, now)[k].last_scrape == row.last_scrape
            }
        } by {
            if i < rest.len() {
                assert(rest[i] == queue[i]);
                assert(rest.take(i) =~= queue.take(i));
            } else {
                assert(queue.take(i) =~= rest);
            }
        }
    }
}

/// A row of the queue that names a source, its owner and a time before now leads to a fetch of that
/// source for that owner, however long ago the time is; the fetches stand in the order of their
/// rows, and there are no others.
pub proof fn fetches_however_late(
    bot: &Core,
    now: Moment,
    queue: &Vec<Queue>,
    fetches: Vec<Due>,
    wait: u64,
    i: int,
)
    requires
        call_ensures(Core::autofetch, (bot, now, queue), (fetches, wait)),
    ensures
        fetches@.len() == ripe(queue@, now),
        0 <= i < queue@.len() && queue@[i].source_id is Some && queue@[i].owner is Some
            && queue@[i].next_fetch is Some && ((queue@[i].next_fetch->0).0 < now.0 || ((
        queue@[i].next_fetch->0).0 == now.0 && (queue@[i].next_fetch->0).1 < now.1)) ==> {
            let k = ripe(queue@.take(i), now) as int;
            &&& 0 <= k < fetches@.len()
            &&& fetches@[k].source_id == queue@[i].source_id->0
            &&& fetches@[k].tg.owner == queue@[i].owner->0
            &&& fetches@[k].tg.me == bot.tg.me
            &&& fetches@[k].last_scrape == queue@[i].last_scrape
        },
{
    ripe_rows_are_due(bot.tg, queue@, now);
}

/// A fetch is made only where a row of the queue names the source, the owner and a time before now.
pub proof fn fetches_only_what_is_late(
    bot: &Core,
    now: Moment,
    queue: &Vec<Queue>,
    fetches: Vec<Due>,
    wait: u64,
    k: int,
)
    requires
        call_ensures(Core::autofetch, (bot, now, queue), (fetches, wait)),
        0 <= k < fetches@.len(),
    ensures
        exists|i: int|
            {
                &&& 0 <= i < queue@.len()
                &&& (#[trigger] queue@[i]).source_id == Some(fetches@[k].source_id)
                &&& queue@[i].owner == Some(fetches@[k].tg.owner)
                &&& queue@[i].last_scrape == fetches@[k].last_scrape
                &&& queue@[i].next_fetch is Some
                &&& (queue@[i].next_fetch->0).0 < now.0 || ((queue@[i].next_fetch->0).0 == now.0
                    && (queue@[i].next_fetch->0).1 < now.1)
            },
{
    bot::fetches_what_is_due(bot.tg, queue@, now);
    assert(bot::asked_for(fetches@[k], bot.tg, queue@, now));
}

/// The bot looks at its queue again after a minute, or when the first time is reached that is still
/// ahead where that is earlier.
pub proof fn waits_for_the_next_time(
    bot: &Core,
    now: Moment,
    queue: &Vec<Queue>,
    fetches: Vec<Due>,
    wait: u64,
)
    requires
        call_ensures(Core::autofetch, (bot, now, queue), (fetches, wait)),
    ensures
        wait <= 60_000_000_000,
        forall|i: int|
            0 <= i < queue@.len() && (#[trigger] queue@[i]).next_fetch is Some ==> {
                let t = queue@[i].next_fetch->0;
                t.0 > now.0 || (t.0 == now.0 && t.1 >= now.1) ==> wait <= (t.0 - now.0)
                    * 1_000_000_000 + (t.1 - now.1)
            },
        wait == 60_000_000_000 || exists|i: int|
            {
                &&& 0 <= i < queue@.len()
                &&& (#[trigger] queue@[i]).next_fetch is Some
                &&& (queue@[i].next_fetch->0).0 > now.0 || ((queue@[i].next_fetch->0).0 == now.0
                    && (queue@[i].next_fetch->0).1 >= now.1)
                &&& wait == ((queue@[i].next_fetch->0).0 - now.0) * 1_000_000_000 + (
                (queue@[i].next_fetch->0).1 - now.1)
            },
{
    if wait != 60_000_000_000 {
        let i = choose|i: int|
            0 <= i < queue@.len() && bot::is_ahead(#[trigger] queue@[i], now) && wait
                == moment::nanos_until(now, queue@[i].next_fetch->0);
        assert(queue@[i].next_fetch is Some);
    }
    assert forall|i: int| 0 <= i < queue@.len() && (#[trigger] queue@[i]).next_fetch is Some implies {
        let t = queue@[i].next_fetch->0;
        t.0 > now.0 || (t.0 == now.0 && t.1 >= now.1) ==> wait <= (t.0 - now.0) * 1_000_000_000 + (
        t.1 - now.1)
    } by {
        let t = queue@[i].next_fetch->0;
        if t.0 > now.0 || (t.0 == now.0 && t.1 >= now.1) {
            assert(bot::is_ahead(queue@[i], now));
        }
    }
}

/// Whether a message goes to a chat with a text, without buttons.
pub open spec fn says(request: SendRequest, to: i64, text: Seq<char>, mode: ParseMode) -> bool {
    &&& request.to == to
    &&& request.text@ == text
    &&& request.mode == mode
    &&& request.markup is None
}

/// What a look at the queue gave is waited for; a look that failed is told to the owner of the bot
/// and repeated after a minute.
pub proof fn failed_looks_are_told(
    bot: &Core,
    looked: Result<u64, String>,
    wait: u64,
    told: Option<SendRequest>,
)
    requires
        call_ensures(Core::pause, (bot, looked), (wait, told)),
    ensures
        looked matches Ok(delay) ==> wait == delay && told is None,
        looked matches Err(e) ==> {
            &&& wait == 60_000_000_000
            &&& told is Some
            &&& says(told->0, bot.tg.owner, "🛑 "@ + e@, ParseMode::Html)
        },
{
}

/// What is needed to reach Telegram is what the settings say, and the first setting that cannot be
/// read is the reason why the bot is not made.
pub proof fn settings_are_used(settings: &Settings, r: Result<Access, String>)
    requires
        call_ensures(Settings::access, (settings,), r),
    ensures
        settings.api_key matches Err(e) ==> (r matches Err(f) && f@ == e@),
        settings.api_key is Ok && settings.owner is Err ==> (r matches Err(f) && f@
            == settings.owner->Err_0@),
        settings.api_key is Ok && settings.owner is Ok && settings.api_gateway is Err ==> (
        r matches Err(f) && f@ == settings.api_gateway->Err_0@),
        settings.api_key is Ok && settings.owner is Ok && settings.api_gateway is Ok ==> {
            &&& r is Ok
            &&& r->Ok_0.api_key@ == settings.api_key->Ok_0@
            &&& r->Ok_0.owner == settings.owner->Ok_0
            &&& r->Ok_0.api_gateway@ == settings.api_gateway->Ok_0@
        },
{
}

/// Where the settings name no gateway, that of Telegram is used, and feeds are remembered for three
/// hours, for ten thousand users at most.
pub proof fn defaults_are_those_of_telegram()
    ensures
        bot::API_GATEWAY@ == "https://api.telegram.org"@,
        cache::CACHE_SECONDS == 3 * 60 * 60,
        cache::CACHE_LIMIT == 10000,
{
}

/// The bot answers to the owner that the settings name, under its own user number and over the
/// database that they name, and is idle when it is made.
pub proof fn bots_start_idle(settings: Settings, me: Result<i64, String>, r: Result<Core, String>)
    requires
        call_ensures(Core::new, (settings, me), r),
    ensures
        r is Ok <==> {
            &&& settings.api_key is Ok
            &&& settings.owner is Ok
            &&& settings.api_gateway is Ok
            &&& settings.pg is Ok
            &&& me is Ok
        },
        r matches Ok(bot) ==> {
            &&& bot.tg.me == me->Ok_0
            &&& bot.tg.owner == settings.owner->Ok_0
            &&& bot.db.uri@ == settings.pg->Ok_0@
            &&& bot.db.max_connections == 5
            &&& bot.db.acquire_timeout_secs == 300
            &&& bot.db.idle_timeout_secs == 60
            &&& forall|id: i32| !(#[trigger] bot.running@.contains(id))
            &&& cache::cached(bot.feeds).len() == 0
            &&& cache::cache_limit(bot.feeds) == 10000
        },
        r matches Err(e) ==> {
            ||| settings.api_key is Err && e@ == settings.api_key->Err_0@
            ||| settings.api_key is Ok && settings.owner is Err && e@ == settings.owner->Err_0@
            ||| {
                &&& settings.api_key is Ok
                &&& settings.owner is Ok
                &&& settings.api_gateway is Err
                &&& e@ == settings.api_gateway->Err_0@
            }
            ||| {
                &&& settings.api_key is Ok
                &&& settings.owner is Ok
                &&& settings.api_gateway is Ok
                &&& me is Err
                &&& e@ == me->Err_0@
            }
            ||| {
                &&& settings.api_key is Ok
                &&& settings.owner is Ok
                &&& settings.api_gateway is Ok
                &&& me is Ok
                &&& settings.pg is Err
                &&& e@ == settings.pg->Err_0@
            }
        },
{
}

/// Whether a check starts for a source on behalf of an owner.
pub open spec fn starts(c: Check, id: i32, owner: i64, live: bool) -> bool {
    c matches Check::Connect(s) && s.id == id && s.owner == owner && s.live == live
}

/// Whether a check starts that asks for what has changed since a moment.
pub open spec fn starts_since(c: Check, stamp: Option<Stamp>) -> bool {
    c matches Check::Connect(s) && match (s.since, stamp) {
        (Some(since), Some(stamp)) => since@ == moment::rfc2822_text(stamp.at.0, stamp.offset),
        (None, None) => true,
        _ => false,
    }
}

/// A check starts with the source, the owner, the purpose and the date that it is asked for with.
pub proof fn checks_start_as_asked(
    id: i32,
    owner: i64,
    live: bool,
    last_scrape: Option<Stamp>,
    c: Check,
)
    requires
        call_ensures(check::begin, (id, owner, live, last_scrape), c),
    ensures
        starts(c, id, owner, live),
        starts_since(c, last_scrape),
{
}

/// The bot starts checks on behalf of its owner.
pub proof fn bot_checks_for_its_owner(
    bot: &Core,
    id: i32,
    live: bool,
    last_scrape: Option<Stamp>,
    c: Check,
)
    requires
        call_ensures(Core::check, (bot, id, live, last_scrape), c),
    ensures
        starts(c, id, bot.tg.owner, live),
        starts_since(c, last_scrape),
{
}

/// A fetch checks its source on behalf of its owner, with posts for the channel, since the moment
/// when it was last looked at; it asks for the description of that source, and a failure is told to
/// that owner.
pub proof fn fetches_are_for_the_owner(
    due: &Due,
    c: Check,
    q: Query,
    label: &str,
    checked: Result<String, String>,
    told: Option<SendRequest>,
)
    requires
        call_ensures(Due::check, (due,), c),
        call_ensures(Due::query, (due,), q),
        call_ensures(Due::report, (due, label, checked), told),
    ensures
        starts(c, due.source_id, due.tg.owner, true),
        starts_since(c, Some(due.last_scrape)),
        q.sql@
            == "select source_id, channel, enabled, url, iv_hash, url_re from rsstg_source where owner = $1 and source_id = $2"@,
        q.binds@.len() == 2,
        big_at(q, 1, due.tg.owner),
        int_at(q, 2, due.source_id),
        checked is Ok ==> told is None,
        checked matches Err(e) ==> told is Some && says(
            told->0,
            due.tg.owner,
            "🛑 "@ + label@ + "\n<pre>"@ + e@ + "</pre>"@,
            ParseMode::Html,
        ),
{
    reveal_query(q);
}

/// A source is named in a report by its description, or by why there is none.
pub proof fn sources_are_named(found: Result<Option<List>, String>, r: String, line: String)
    requires
        call_ensures(Due::label, (found,), r),
        found matches Ok(Some(source)) ==> call_ensures(List::to_string, (&source,), line),
    ensures
        found matches Ok(Some(_)) ==> r@ == line@,
        found matches Ok(None) ==> r@ == "Source not found in database?"@,
        found matches Err(e) ==> r@ == "Failed to fetch source data:\n"@ + e@,
{
}

/// The list of sources has a heading and then the description of every source in the order in which
/// they are given, with an empty line between.
pub proof fn every_source_is_listed(rows: &Vec<List>, lines: Seq<String>, r: String)
    requires
        call_ensures(Core::list, (rows,), r),
        lines.len() == rows@.len(),
        forall|i: int|
            #![trigger lines[i]]
            0 <= i < lines.len() ==> call_ensures(List::to_string, (&rows@[i],), lines[i]),
    ensures
        r@ == text::joined(
            Seq::new(
                lines.len() + 1,
                |i: int|
                    if i == 0 {
                        "Channels:"@
                    } else {
                        lines[i - 1]@
                    },
            ),
            "\n\n"@,
        ),
{
    let listed = seq!["Channels:"@] + bot::list_views(rows@).map_values(
        |l: crate::sql::ListView| l.to_text(),
    );
    assert forall|i: int| 0 < i < listed.len() implies #[trigger] listed[i] == lines[i - 1]@ by {
        assert(call_ensures(List::to_string, (&rows@[i - 1],), lines[i - 1]));
    }
    assert(listed =~= Seq::new(
        lines.len() + 1,
        |i: int|
            if i == 0 {
                "Channels:"@
            } else {
                lines[i - 1]@
            },
    ));
}

proof fn names_are_different()
    ensures
        "/start"@ != "/check"@ && "/start"@ != "/clean"@ && "/start"@ != "/enable"@ && "/start"@
            != "/delete"@ && "/start"@ != "/disable"@,
        "/list"@ != "/check"@ && "/list"@ != "/clean"@ && "/list"@ != "/enable"@ && "/list"@
            != "/delete"@ && "/list"@ != "/disable"@ && "/list"@ != "/start"@,
        "/test"@ != "/check"@ && "/test"@ != "/clean"@ && "/test"@ != "/enable"@ && "/test"@
            != "/delete"@ && "/test"@ != "/disable"@ && "/test"@ != "/start"@ && "/test"@ != "/list"@,
        "/add"@ != "/check"@ && "/add"@ != "/clean"@ && "/add"@ != "/enable"@ && "/add"@
            != "/delete"@ && "/add"@ != "/disable"@ && "/add"@ != "/start"@ && "/add"@ != "/list"@
            && "/add"@ != "/test"@,
        "/update"@ != "/check"@ && "/update"@ != "/clean"@ && "/update"@ != "/enable"@ && "/update"@
            != "/delete"@ && "/update"@ != "/disable"@ && "/update"@ != "/start"@ && "/update"@
            != "/list"@ && "/update"@ != "/test"@,
{
    reveal_strlit("/check");
    reveal_strlit("/clean");
    reveal_strlit("/enable");
    reveal_strlit("/delete");
    reveal_strlit("/disable");
    reveal_strlit("/start");
    reveal_strlit("/list");
    reveal_strlit("/test");
    reveal_strlit("/add");
    reveal_strlit("/update");
    assert("/add"@.len() == 4);
    assert("/list"@.len() == 5 && "/test"@.len() == 5);
    assert("/check"@.len() == 6 && "/clean"@.len() == 6 && "/start"@.len() == 6);
    assert("/enable"@.len() == 7 && "/delete"@.len() == 7 && "/update"@.len() == 7);
    assert("/disable"@.len() == 8);
    assert("/start"@[1] != "/check"@[1]);
    assert("/start"@[1] != "/clean"@[1]);
    assert("/list"@[1] != "/test"@[1]);
    assert("/update"@[1] != "/enable"@[1]);
    assert("/update"@[1] != "/delete"@[1]);
}

/// Every command has a handler of its own kind, and what is no command has none.
pub proof fn commands_have_handlers(name: &str, r: Result<Handler, String>)
    requires
        call_ensures(Core::handle, (name,), r),
    ensures
        name@ == "/check"@ || name@ == "/clean"@ || name@ == "/enable"@ || name@ == "/delete"@
            || name@ == "/disable"@ <==> r == Ok::<Handler, String>(Handler::Command),
        name@ == "/start"@ <==> r == Ok::<Handler, String>(Handler::Start),
        name@ == "/list"@ <==> r == Ok::<Handler, String>(Handler::List),
        name@ == "/test"@ <==> r == Ok::<Handler, String>(Handler::Test),
        name@ == "/add"@ || name@ == "/update"@ <==> r == Ok::<Handler, String>(Handler::Update),
        r matches Err(e) ==> e@ == "Unknown command: "@ + name@,
{
    names_are_different();
}

/// A command that failed is told of in the chat that it came from, and one that did not is not.
pub proof fn failures_are_told(
    bot: &Core,
    handled: Result<(), String>,
    chat: i64,
    told: Option<SendRequest>,
)
    requires
        call_ensures(Core::report, (bot, handled, chat), told),
    ensures
        handled is Ok ==> told is None,
        handled matches Err(e) ==> told is Some && says(
            told->0,
            chat,
            "#error<pre>"@ + e@ + "</pre>"@,
            ParseMode::Html,
        ),
{
}

/// A callback that could not be read fails with the reason why.
pub proof fn unread_callbacks_fail(read: Result<Callback, String>, r: Result<(), String>)
    requires
        read is Err,
        call_ensures(Core::cb, (read,), r),
    ensures
        r matches Err(e) && e@ == read->Err_0@,
{
}

/// What is found in the cache is handed out as it is, and nothing is loaded then; what is not found
/// is loaded for the same user.
pub proof fn feeds_are_found_or_loaded(found: Option<&FeedList>, owner: i64, r: Feeds)
    requires
        call_ensures(bot::found_feeds, (found, owner), r),
    ensures
        found matches Some(feeds) ==> (r matches Feeds::Cached(copy) && copy@ == feeds@),
        found is None ==> {
            &&& r is Load
            &&& r->Load_0.sql@ == "select source_id, channel from rsstg_source where owner = $1"@
            &&& r->Load_0.binds@.len() == 1
            &&& big_at(r->Load_0, 1, owner)
        },
{
    if let Feeds::Load(q) = r {
        reveal_query(q);
    }
}

/// The feeds that a user is given are those that are cached for that very user where the cache has
/// them, and are loaded for that user where it does not.
pub proof fn users_get_their_own_feeds(bot: &Core, owner: i64, r: Feeds)
    requires
        call_ensures(Core::get_feeds, (bot, owner), r),
    ensures
        r matches Feeds::Cached(feeds) ==> exists|i: int|
            {
                &&& 0 <= i < cache::cached(bot.feeds).len()
                &&& (#[trigger] cache::cached(bot.feeds)[i]).0 == owner
                &&& cache::cached(bot.feeds)[i].1.dom() =~= feeds@.dom()
                &&& forall|id: i32| #[trigger]
                    feeds@.contains_key(id) ==> cache::cached(bot.feeds)[i].1[id] == feeds@[id]@
            },
        r matches Feeds::Load(q) ==> {
            &&& q.sql@ == "select source_id, channel from rsstg_source where owner = $1"@
            &&& q.binds@.len() == 1
            &&& big_at(q, 1, owner)
        },
        exists|found: Option<&FeedList>| #[trigger]
            cache::finds(bot.feeds, owner, found) && (found is Some <==> r is Cached),
{
    let found = choose|found: Option<&FeedList>| #[trigger]
        cache::finds(bot.feeds, owner, found) && call_ensures(bot::found_feeds, (found, owner), r);
    assert(cache::finds(bot.feeds, owner, found));
    match r {
        Feeds::Load(q) => {
            reveal_query(q);
        },
        Feeds::Cached(feeds) => {
            let entry = (owner, cache::feed_map(feeds@));
            let i = choose|i: int|
                0 <= i < cache::cached(bot.feeds).len() && cache::cached(bot.feeds)[i] == entry;
            assert(cache::cached(bot.feeds)[i].0 == owner);
        },
    }
}

/// Rows of the database become feeds: a number has a feed if and only if a row has that number, under
/// the channel of the last such row.
pub proof fn rows_become_feeds(rows: Vec<Feed>, r: FeedList, i: int)
    requires
        call_ensures(cache::collect_feeds, (rows,), r),
    ensures
        0 <= i < rows@.len() ==> r@.contains_key(rows@[i].source_id),
        0 <= i < rows@.len() && (forall|j: int|
            i < j < rows@.len() ==> (#[trigger] rows@[j]).source_id != rows@[i].source_id)
            ==> r@[rows@[i].source_id]@ == rows@[i].channel@,
        forall|id: i32| #[trigger]
            r@.contains_key(id) ==> exists|j: int|
                0 <= j < rows@.len() && (#[trigger] rows@[j]).source_id == id,
{
    rows_are_kept(rows@, i);
    assert forall|id: i32| #[trigger] r@.contains_key(id) implies exists|j: int|
        0 <= j < rows@.len() && (#[trigger] rows@[j]).source_id == id by {
        assert(cache::feed_map(r@).contains_key(id));
    }
    if 0 <= i < rows@.len() {
        assert(cache::feed_map(r@).contains_key(rows@[i].source_id));
    }
}

proof fn rows_are_kept(rows: Seq<Feed>, i: int)
    ensures
        0 <= i < rows.len() ==> cache::feeds_in(cache::row_views(rows)).contains_key(
            rows[i].source_id,
        ),
        0 <= i < rows.len() && (forall|j: int|
            i < j < rows.len() ==> (#[trigger] rows[j]).source_id != rows[i].source_id)
            ==> cache::feeds_in(cache::row_views(rows))[rows[i].source_id] == rows[i].channel@,
        forall|id: i32| #[trigger]
            cache::feeds_in(cache::row_views(rows)).contains_key(id) ==> exists|j: int|
                0 <= j < rows.len() && (#[trigger] rows[j]).source_id == id,
    decreases rows.len(),
{
    if rows.len() > 0 {
        let front = rows.drop_last();
        rows_are_kept(front, i);
        assert(cache::row_views(rows).drop_last() =~= cache::row_views(front));
        assert(cache::row_views(rows).last() == rows.last()@);
        assert forall|id: i32| #[trigger]
            cache::feeds_in(cache::row_views(rows)).contains_key(id) implies exists|j: int|
            0 <= j < rows.len() && (#[trigger] rows[j]).source_id == id by {
            if id == rows.last().source_id {
                assert(rows[rows.len() - 1].source_id == id);
            } else {
                assert(cache::feeds_in(cache::row_views(front)).contains_key(id));
                let j = choose|j: int| 0 <= j < front.len() && (#[trigger] front[j]).source_id == id;
                assert(rows[j].source_id == id);
            }
        }
        if 0 <= i < front.len() {
            assert(front[i] == rows[i]);
            if forall|j: int|
                i < j < rows.len() ==> (#[trigger] rows[j]).source_id != rows[i].source_id {
                assert forall|j: int| i < j < front.len() implies (#[trigger] front[j]).source_id
                    != front[i].source_id by {
                    assert(rows[j] == front[j]);
                }
                assert(rows[rows.len() - 1].source_id != rows[i].source_id);
            }
        }
    }
}

/// Feeds that were loaded are handed out and cached for their owner as the youngest entry, and where
/// they could not be loaded the reason is handed out and the cache stays as it was.
pub proof fn loaded_feeds_are_cached(
    bot: &mut Core,
    owner: i64,
    rows: Result<Vec<Feed>, String>,
    collected: FeedList,
    r: Result<FeedList, String>,
)
    requires
        call_ensures(Core::load_feeds, (bot, owner, rows), r),
        rows matches Ok(rows) ==> call_ensures(cache::collect_feeds, (rows,), collected),
        cache::cache_wf(old(bot).feeds),
    ensures
        rows matches Err(e) ==> {
            &&& r matches Err(f) && f@ == e@
            &&& cache::cached(final(bot).feeds) == cache::cached(old(bot).feeds)
        },
        rows is Ok ==> {
            &&& r is Ok
            &&& cache::feed_map(r->Ok_0@) == cache::feed_map(collected@)
            &&& cache::cached(final(bot).feeds).len() > 0
            &&& cache::cached(final(bot).feeds).last() == (owner, cache::feed_map(collected@))
            &&& forall|i: int|
                {
                    &&& (#[trigger] cache::cached(old(bot).feeds)[i]).0 != owner
                    &&& 0 <= i < cache::cached(old(bot).feeds).len()
                    &&& i > 0 || cache::cached(old(bot).feeds).len() < 10000
                } ==> cache::cached(final(bot).feeds).contains(cache::cached(old(bot).feeds)[i])
        },
        final(bot).tg == old(bot).tg,
        final(bot).running == old(bot).running,
        final(bot).db == old(bot).db,
{
    if let Ok(rows) = rows {
        cache::storing_keeps_order(
            cache::cached(old(bot).feeds),
            cache::cache_limit(old(bot).feeds),
            owner,
            cache::feed_map(collected@),
        );
        cache::storing_keeps_the_others(
            cache::cached(old(bot).feeds),
            cache::cache_limit(old(bot).feeds),
            owner,
            cache::feed_map(collected@),
        );
    }
}

/// A feed that is added joins what is cached for its owner, under its number and channel, and nothing
/// else changes; where nothing is cached for the owner the feeds of that owner are to be loaded.
pub proof fn added_feeds_join_their_owner(
    bot: &mut Core,
    owner: i64,
    source_id: i32,
    channel: String,
    r: Option<Query>,
)
    requires
        call_ensures(Core::add_feed, (bot, owner, source_id, channel), r),
    ensures
        r is None ==> exists|i: int|
            {
                &&& 0 <= i < cache::cached(old(bot).feeds).len()
                &&& (#[trigger] cache::cached(old(bot).feeds)[i]).0 == owner
                &&& cache::cached(final(bot).feeds) == cache::cached(old(bot).feeds).update(
                    i,
                    (owner, cache::cached(old(bot).feeds)[i].1.insert(source_id, channel@)),
                )
            },
        r matches Some(q) ==> {
            &&& q.sql@ == "select source_id, channel from rsstg_source where owner = $1"@
            &&& q.binds@.len() == 1
            &&& big_at(q, 1, owner)
            &&& cache::cached(final(bot).feeds) == cache::cached(old(bot).feeds)
        },
        final(bot).tg == old(bot).tg,
        final(bot).running == old(bot).running,
        final(bot).db == old(bot).db,
{
    if let Some(q) = r {
        reveal_query(q);
    }
}

/// A feed that is removed leaves what is cached for its owner, and nothing else changes; where
/// nothing is cached for the owner the feeds of that owner are to be loaded.
pub proof fn removed_feeds_leave_their_owner(
    bot: &mut Core,
    owner: i64,
    source_id: i32,
    r: Option<Query>,
)
    requires
        call_ensures(Core::rm_feed, (bot, owner, source_id), r),
    ensures
        r is None ==> exists|i: int|
            {
                &&& 0 <= i < cache::cached(old(bot).feeds).len()
                &&& (#[trigger] cache::cached(old(bot).feeds)[i]).0 == owner
                &&& cache::cached(final(bot).feeds) == cache::cached(old(bot).feeds).update(
                    i,
                    (owner, cache::cached(old(bot).feeds)[i].1.remove(source_id)),
                )
            },
        r matches Some(q) ==> {
            &&& q.sql@ == "select source_id, channel from rsstg_source where owner = $1"@
            &&& q.binds@.len() == 1
            &&& big_at(q, 1, owner)
            &&& cache::cached(final(bot).feeds) == cache::cached(old(bot).feeds)
        },
        final(bot).tg == old(bot).tg,
        final(bot).running == old(bot).running,
        final(bot).db == old(bot).db,
{
    if let Some(q) = r {
        reveal_query(q);
    }
}

/// A feed that is added to feeds is among them under its number and channel, and the others stay as
/// they were; where there are no feeds, those of the user are to be loaded.
pub proof fn feeds_grow_by_one(
    found: Option<&mut FeedList>,
    owner: i64,
    source_id: i32,
    channel: String,
    r: Option<Query>,
)
    requires
        call_ensures(bot::expand_feeds, (found, owner, source_id, channel), r),
    ensures
        found matches Some(feeds) ==> {
            &&& r is None
            &&& final(feeds)@.contains_key(source_id)
            &&& final(feeds)@[source_id]@ == channel@
            &&& forall|id: i32|
                id != source_id ==> {
                    &&& #[trigger] final(feeds)@.contains_key(id) <==> feeds@.contains_key(id)
                    &&& feeds@.contains_key(id) ==> final(feeds)@[id]@ == feeds@[id]@
                }
        },
        found is None ==> {
            &&& r is Some
            &&& (r->0).sql@ == "select source_id, channel from rsstg_source where owner = $1"@
            &&& (r->0).binds@.len() == 1
            &&& big_at(r->0, 1, owner)
        },
{
    if let Some(q) = r {
        reveal_query(q);
    }
    if let Some(feeds) = found {
        let before = cache::feed_map(feeds@);
        let after = cache::feed_map(final(feeds)@);
        assert(after == before.insert(source_id, channel@));
        assert(after.contains_key(source_id) && after[source_id] == channel@);
        assert(after[source_id] == final(feeds)@[source_id]@);
        assert forall|id: i32| id != source_id implies {
            &&& #[trigger] final(feeds)@.contains_key(id) <==> feeds@.contains_key(id)
            &&& feeds@.contains_key(id) ==> final(feeds)@[id]@ == feeds@[id]@
        } by {
            assert(after.contains_key(id) <==> before.contains_key(id));
            assert(before.contains_key(id) ==> after[id] == before[id]);
        }
    }
}

/// A feed that is removed from feeds is not among them, and the others stay as they were; where there
/// are no feeds, those of the user are to be loaded.
pub proof fn feeds_shrink_by_one(
    found: Option<&mut FeedList>,
    owner: i64,
    source_id: i32,
    r: Option<Query>,
)
    requires
        call_ensures(bot::shrink_feeds, (found, owner, source_id), r),
    ensures
        found matches Some(feeds) ==> {
            &&& r is None
            &&& !final(feeds)@.contains_key(source_id)
            &&& forall|id: i32|
                id != source_id ==> {
                    &&& #[trigger] final(feeds)@.contains_key(id) <==> feeds@.contains_key(id)
                    &&& feeds@.contains_key(id) ==> final(feeds)@[id]@ == feeds@[id]@
                }
        },
        found is None ==> {
            &&& r is Some
            &&& (r->0).sql@ == "select source_id, channel from rsstg_source where owner = $1"@
            &&& (r->0).binds@.len() == 1
            &&& big_at(r->0, 1, owner)
        },
{
    if let Some(q) = r {
        reveal_query(q);
    }
    if let Some(feeds) = found {
        let before = cache::feed_map(feeds@);
        let after = cache::feed_map(final(feeds)@);
        assert(after == before.remove(source_id));
        assert(!after.contains_key(source_id));
        assert(!final(feeds)@.contains_key(source_id));
        assert forall|id: i32| id != source_id implies {
            &&& #[trigger] final(feeds)@.contains_key(id) <==> feeds@.contains_key(id)
            &&& feeds@.contains_key(id) ==> final(feeds)@[id]@ == feeds@[id]@
        } by {
            assert(after.contains_key(id) <==> before.contains_key(id));
            assert(before.contains_key(id) ==> after[id] == before[id]);
        }
    }
}

/// The feeds of a user are listed each of them once, in ascending order of their numbers, under their
/// channels.
pub proof fn feeds_are_listed_by_number(feeds: &FeedList, r: Vec<(i32, String)>)
    requires
        call_ensures(cache::feed_entries, (feeds,), r),
    ensures
        r@.len() == feeds@.len(),
        forall|i: int, j: int|
            0 <= i < j < r@.len() ==> (#[trigger] r@[i]).0 < (#[trigger] r@[j]).0,
        forall|i: int|
            0 <= i < r@.len() ==> feeds@.contains_key((#[trigger] r@[i]).0) && feeds@[r@[i].0]@
                == r@[i].1@,
        forall|id: i32| #[trigger]
            feeds@.contains_key(id) ==> exists|i: int| 0 <= i < r@.len() && (#[trigger] r@[i]).0 == id,
{
    let rows = cache::feed_rows(r@);
    let map = cache::feed_map(feeds@);
    assert(rows.len() == r@.len());
    assert forall|i: int, j: int| 0 <= i < j < r@.len() implies (#[trigger] r@[i]).0 < (
    #[trigger] r@[j]).0 by {
        assert(cache::by_number()(rows[i].0, rows[j].0));
    }
    assert forall|i: int| 0 <= i < r@.len() implies feeds@.contains_key((#[trigger] r@[i]).0)
        && feeds@[r@[i].0]@ == r@[i].1@ by {
        assert(rows[i] == (r@[i].0, r@[i].1@));
        assert(map.contains_key(rows[i].0));
    }
    assert forall|id: i32| #[trigger] feeds@.contains_key(id) implies exists|i: int|
        0 <= i < r@.len() && (#[trigger] r@[i]).0 == id by {
        assert(map.contains_key(id));
        let i = choose|i: int| 0 <= i < rows.len() && (#[trigger] rows[i]).0 == id;
        assert(r@[i].0 == id);
    }
}

} // verus!

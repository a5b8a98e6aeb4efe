//! What holds of the commands about sources: what each of them runs, and what is answered.

use crate::bot::{Core, Feeds};
use crate::bot_laws::{says, starts, starts_since};
use crate::cache::{self, FeedList};
use crate::check::Check;
use crate::command::{self, Answer, Errand, Order, Reload, Trial};
use crate::sql::{Feed, List, Query};
use crate::sql_laws::{big_at, int_at, reveal_query};
use crate::text;
use crate::tg_bot::{self, Callback, Keyboard, ParseMode, SendRequest};
use vstd::prelude::*;

verus! {

proof fn names_are_different()
    ensures
        "/check"@ != "/clean"@ && "/check"@ != "/enable"@ && "/check"@ != "/delete"@ && "/check"@
            != "/disable"@,
        "/clean"@ != "/enable"@ && "/clean"@ != "/delete"@ && "/clean"@ != "/disable"@,
        "/enable"@ != "/delete"@ && "/enable"@ != "/disable"@ && "/delete"@ != "/disable"@,
{
    reveal_strlit("/check");
    reveal_strlit("/clean");
    reveal_strlit("/enable");
    reveal_strlit("/delete");
    reveal_strlit("/disable");
    assert("/check"@.len() == 6 && "/clean"@.len() == 6);
    assert("/enable"@.len() == 7 && "/delete"@.len() == 7);
    assert("/disable"@.len() == 8);
    assert("/check"@[2] != "/clean"@[2]);
    assert("/enable"@[1] != "/delete"@[1]);
}

/// Whether a stage of a command is the statement that something is done to a source.
pub open spec fn does(o: Order, id: i32, owner: i64) -> bool {
    o matches Order::Run(e) && e.id == id && e.owner == owner
}

/// Whether a command has ended with a reason.
pub open spec fn fails(o: Order, reason: Seq<char>) -> bool {
    o matches Order::Done(Err(e)) && e@ == reason
}

/// Whether a command answers with a text.
pub open spec fn answers(o: Order, reply: Seq<char>) -> bool {
    o matches Order::Answer(a) && a.reply@ == reply
}

/// A command about one source does something for its sender and with the number that it was given,
/// and needs a user and exactly one number.
pub proof fn orders_follow_their_names(
    name: &str,
    sender: Option<i64>,
    words: &Vec<String>,
    number: Result<i32, String>,
    o: Order,
)
    requires
        call_ensures(command::order, (name, sender, words, number), o),
    ensures
        sender is None ==> fails(o, "Ignoring unreal users."@),
        sender is Some && words@.len() != 1 ==> answers(
            o,
            "This command needs exactly one number."@,
        ),
        sender is Some && words@.len() == 1 && number is Err ==> answers(
            o,
            "I need a number.\n"@ + number->Err_0@,
        ),
        sender is Some && words@.len() == 1 && number is Ok ==> {
            &&& name@ == "/check"@ <==> o is Check
            &&& o matches Order::Check(t) ==> t.id == number->Ok_0 && t.owner == sender->0
            &&& o is Run <==> {
                ||| name@ == "/clean"@
                ||| name@ == "/enable"@
                ||| name@ == "/delete"@
                ||| name@ == "/disable"@
            }
            &&& o is Run ==> does(o, number->Ok_0, sender->0)
            &&& o is Check || o is Run || fails(
                o,
                "Command "@ + name@ + " ["@ + text::quoted(words@[0]@) + "] not handled."@,
            )
        },
{
    names_are_different();
    assert(text::texts(words@).len() == words@.len());
}

/// The statement that a command runs is fixed by its name: `/clean` deletes posts, `/delete` deletes
/// the source, `/enable` and `/disable` switch the source on and off; each of them for the number
/// that was given and the sender who gave it, and no other command runs any.
pub proof fn statements_follow_names(
    name: &str,
    sender: Option<i64>,
    words: &Vec<String>,
    number: Result<i32, String>,
    o: Order,
    e: Errand,
    q: Query,
)
    requires
        call_ensures(command::order, (name, sender, words, number), o),
        o == Order::Run(e),
        call_ensures(Errand::query, (&e,), q),
    ensures
        name@ == "/clean"@ <==> q.sql@
            == "delete from rsstg_post p using rsstg_source s where p.source_id = $1 and owner = $2 and p.source_id = s.source_id;"@,
        name@ == "/delete"@ <==> q.sql@
            == "delete from rsstg_source where source_id = $1 and owner = $2;"@,
        name@ == "/enable"@ <==> q.sql@
            == "update rsstg_source set enabled = true where source_id = $1 and owner = $2"@,
        name@ == "/disable"@ <==> q.sql@
            == "update rsstg_source set enabled = false where source_id = $1 and owner = $2"@,
        q.binds@.len() == 2,
        number is Ok && int_at(q, 1, number->Ok_0),
        sender is Some && big_at(q, 2, sender->0),
{
    names_are_different();
    statements_are_different();
    reveal_query(q);
}

proof fn statements_are_different()
    ensures
        "delete from rsstg_post p using rsstg_source s where p.source_id = $1 and owner = $2 and p.source_id = s.source_id;"@
            != "delete from rsstg_source where source_id = $1 and owner = $2;"@,
        "delete from rsstg_post p using rsstg_source s where p.source_id = $1 and owner = $2 and p.source_id = s.source_id;"@
            != "update rsstg_source set enabled = true where source_id = $1 and owner = $2"@,
        "delete from rsstg_post p using rsstg_source s where p.source_id = $1 and owner = $2 and p.source_id = s.source_id;"@
            != "update rsstg_source set enabled = false where source_id = $1 and owner = $2"@,
        "delete from rsstg_source where source_id = $1 and owner = $2;"@
            != "update rsstg_source set enabled = true where source_id = $1 and owner = $2"@,
        "delete from rsstg_source where source_id = $1 and owner = $2;"@
            != "update rsstg_source set enabled = false where source_id = $1 and owner = $2"@,
        "update rsstg_source set enabled = true where source_id = $1 and owner = $2"@
            != "update rsstg_source set enabled = false where source_id = $1 and owner = $2"@,
{
    reveal_strlit(
        "delete from rsstg_post p using rsstg_source s where p.source_id = $1 and owner = $2 and p.source_id = s.source_id;",
    );
    reveal_strlit("delete from rsstg_source where source_id = $1 and owner = $2;");
    reveal_strlit("update rsstg_source set enabled = true where source_id = $1 and owner = $2");
    reveal_strlit("update rsstg_source set enabled = false where source_id = $1 and owner = $2");
    let clean =
        "delete from rsstg_post p using rsstg_source s where p.source_id = $1 and owner = $2 and p.source_id = s.source_id;"@;
    let delete = "delete from rsstg_source where source_id = $1 and owner = $2;"@;
    let on = "update rsstg_source set enabled = true where source_id = $1 and owner = $2"@;
    let off = "update rsstg_source set enabled = false where source_id = $1 and owner = $2"@;
    assert(clean[18] == 'p' && delete[18] == 's');
    assert(clean[0] == 'd' && delete[0] == 'd' && on[0] == 'u' && off[0] == 'u');
    assert(on[34] == 't' && off[34] == 'f');
}

/// What is done to a source is named by a deed: each deed has its own statement, for the number and
/// the owner of the errand.
pub proof fn deeds_have_their_statements(e: &Errand, q: Query)
    requires
        call_ensures(Errand::query, (e,), q),
    ensures
        e.deed is Clean ==> q.sql@
            == "delete from rsstg_post p using rsstg_source s where p.source_id = $1 and owner = $2 and p.source_id = s.source_id;"@,
        e.deed is Delete ==> q.sql@
            == "delete from rsstg_source where source_id = $1 and owner = $2;"@,
        e.deed is Enable ==> q.sql@
            == "update rsstg_source set enabled = true where source_id = $1 and owner = $2"@,
        e.deed is Disable ==> q.sql@
            == "update rsstg_source set enabled = false where source_id = $1 and owner = $2"@,
        q.binds@.len() == 2,
        int_at(q, 1, e.id),
        big_at(q, 2, e.owner),
{
    reveal_query(q);
}

/// A command is read with the number that its only word stands for, where there is a connection, and
/// fails with the reason where there is none.
pub proof fn commands_read_their_number(
    name: &str,
    connected: Result<(), String>,
    sender: Option<i64>,
    words: &Vec<String>,
    o: Order,
    number: Result<i32, String>,
    o1: Order,
)
    requires
        call_ensures(command::command, (name, connected, sender, words), o),
        call_ensures(command::order, (name, sender, words, number), o1),
        words@.len() == 1 ==> match text::i32_value(words@[0]@) {
            Some(n) => number == Ok::<i32, String>(n),
            None => number matches Err(e) && e@ == text::i32_refusal(words@[0]@),
        },
    ensures
        connected matches Err(e) ==> fails(o, e@),
        connected is Ok ==> o@ == o1@,
{
    assert(text::texts(words@).len() == words@.len());
    if words@.len() == 1 {
        assert(text::texts(words@)[0] == words@[0]@);
    }
}

/// A trial checks its source on behalf of the user who asks for it, with posts for that user and
/// whatever the feed holds; what it says is answered, and its failure is the failure of the command.
pub proof fn trials_check_for_who_asks(
    t: &Trial,
    c: Check,
    t1: Trial,
    checked: Result<String, String>,
    o: Order,
)
    requires
        call_ensures(Trial::check, (t,), c),
        call_ensures(Trial::resume, (t1, checked), o),
    ensures
        starts(c, t.id, t.owner, false),
        starts_since(c, None),
        checked matches Ok(reply) ==> answers(o, reply@),
        checked matches Err(e) ==> fails(o, "Channel check failed."@ + "\n"@ + e@),
{
}

/// What the user is told of an errand follows from how many rows it has changed; a source that was
/// removed leaves the feeds that are cached for its owner, or these are loaded first; no other errand
/// touches the cache.
pub proof fn errands_are_answered(
    e: Errand,
    rows: Result<u64, String>,
    bot: &mut Core,
    o: Order,
)
    requires
        call_ensures(Errand::resume, (e, rows, bot), o),
    ensures
        rows matches Err(f) ==> fails(o, f@) && cache::cached(final(bot).feeds) == cache::cached(
            old(bot).feeds,
        ),
        rows is Ok && e.deed is Clean ==> {
            &&& rows->Ok_0 == 0 ==> answers(o, "No data found found."@)
            &&& rows->Ok_0 > 0 ==> answers(o, text::digits(rows->Ok_0 as nat) + " posts purged."@)
        },
        rows is Ok && e.deed is Enable ==> {
            &&& rows->Ok_0 == 0 ==> answers(o, "Source not found."@)
            &&& rows->Ok_0 == 1 ==> answers(o, "Source enabled."@)
            &&& rows->Ok_0 > 1 ==> fails(o, "Database error."@)
        },
        rows is Ok && e.deed is Disable ==> {
            &&& rows->Ok_0 == 0 ==> answers(o, "Source not found."@)
            &&& rows->Ok_0 == 1 ==> answers(o, "Source disabled."@)
            &&& rows->Ok_0 > 1 ==> fails(o, "Database error."@)
        },
        e.deed !is Delete ==> cache::cached(final(bot).feeds) == cache::cached(old(bot).feeds),
        rows is Ok && e.deed is Delete ==> {
            let reply = if rows->Ok_0 == 0 {
                "No data found found."@
            } else {
                text::digits(rows->Ok_0 as nat) + " sources removed."@
            };
            ||| {
                &&& answers(o, reply)
                &&& exists|i: int|
                    {
                        &&& 0 <= i < cache::cached(old(bot).feeds).len()
                        &&& (#[trigger] cache::cached(old(bot).feeds)[i]).0 == e.owner
                        &&& cache::cached(final(bot).feeds) == cache::cached(old(bot).feeds).update(
                            i,
                            (e.owner, cache::cached(old(bot).feeds)[i].1.remove(e.id)),
                        )
                    }
            }
            ||| {
                &&& o is Load
                &&& o->Load_0.owner == e.owner
                &&& o->Load_0.reply@ == reply
                &&& cache::cached(final(bot).feeds) == cache::cached(old(bot).feeds)
            }
        },
        final(bot).tg == old(bot).tg,
        final(bot).running == old(bot).running,
        final(bot).db == old(bot).db,
{
}

/// Feeds are loaded for the owner of the source that was removed and cached for that owner, and then
/// the user is answered what was to be answered before.
pub proof fn reloads_are_for_the_owner(
    s: &Reload,
    q: Query,
    s1: Reload,
    rows: Result<Vec<Feed>, String>,
    collected: FeedList,
    bot: &mut Core,
    o: Order,
)
    requires
        call_ensures(Reload::query, (s,), q),
        call_ensures(Reload::resume, (s1, rows, bot), o),
        rows matches Ok(rows) ==> call_ensures(cache::collect_feeds, (rows,), collected),
        cache::cache_wf(old(bot).feeds),
    ensures
        q.sql@ == "select source_id, channel from rsstg_source where owner = $1"@,
        q.binds@.len() == 1,
        big_at(q, 1, s.owner),
        rows matches Err(e) ==> fails(o, e@) && cache::cached(final(bot).feeds) == cache::cached(
            old(bot).feeds,
        ),
        rows is Ok ==> {
            &&& answers(o, s1.reply@)
            &&& cache::cached(final(bot).feeds).len() > 0
            &&& cache::cached(final(bot).feeds).last() == (s1.owner, cache::feed_map(collected@))
        },
        final(bot).tg == old(bot).tg,
        final(bot).running == old(bot).running,
        final(bot).db == old(bot).db,
{
    reveal_query(q);
    if rows is Ok {
        cache::storing_keeps_order(
            cache::cached(old(bot).feeds),
            cache::cache_limit(old(bot).feeds),
            s1.owner,
            cache::feed_map(collected@),
        );
    }
}

/// An answer goes to the chat that the command came from, and the command ends as the sending of it
/// does.
pub proof fn answers_go_to_the_chat(
    a: &Answer,
    bot: &Core,
    chat: i64,
    request: SendRequest,
    a1: Answer,
    sent: Result<(), String>,
    o: Order,
)
    requires
        call_ensures(Answer::request, (a, bot, chat), request),
        call_ensures(Answer::resume, (a1, sent), o),
    ensures
        says(request, chat, a.reply@, ParseMode::Html),
        sent is Ok ==> o == Order::Done(Ok(())),
        sent matches Err(e) ==> fails(o, e@),
{
}

/// `/start` is answered with a welcome in the chat that it came from.
pub proof fn starting_is_welcomed(bot: &Core, chat: i64, request: SendRequest)
    requires
        call_ensures(command::start, (bot, chat), request),
    ensures
        says(
            request,
            chat,
            "We are open\\. Probably\\. Visit [channel](https://t.me/rsstg_bot_help/3) for details\\."@,
            ParseMode::MarkdownV2,
        ),
{
}

/// `/list` reads the sources of its sender and is answered with the list of them in the chat that it
/// came from.
pub proof fn listing_is_for_the_sender(
    sender: Option<i64>,
    r: Result<Query, String>,
    bot: &Core,
    rows: Result<Vec<List>, String>,
    listed: String,
    chat: i64,
    reply: Result<SendRequest, String>,
)
    requires
        call_ensures(command::list, (sender,), r),
        call_ensures(command::list_reply, (bot, rows, chat), reply),
        rows matches Ok(rows) ==> call_ensures(Core::list, (&rows,), listed),
    ensures
        sender is None ==> (r matches Err(e) && e@ == "Ignoring unreal users."@),
        sender is Some ==> {
            &&& r is Ok
            &&& r->Ok_0.sql@
                == "select source_id, channel, enabled, url, iv_hash, url_re from rsstg_source where owner = $1 order by source_id"@
            &&& r->Ok_0.binds@.len() == 1
            &&& big_at(r->Ok_0, 1, sender->0)
        },
        rows matches Err(e) ==> (reply matches Err(f) && f@ == e@),
        rows is Ok ==> reply is Ok && says(reply->Ok_0, chat, listed@, ParseMode::MarkdownV2),
{
    if let Ok(q) = r {
        reveal_query(q);
    }
}

/// `/test` is about the feeds of its sender: those that are cached for that user, or those that are
/// loaded for that user.
pub proof fn testing_is_for_the_sender(
    bot: &Core,
    sender: Option<i64>,
    r: Result<(i64, Feeds), String>,
)
    requires
        call_ensures(command::test, (bot, sender), r),
    ensures
        sender is None ==> (r matches Err(e) && e@ == "Ignoring unreal users."@),
        sender is Some ==> {
            &&& r is Ok
            &&& (r->Ok_0).0 == sender->0
            &&& (r->Ok_0).1 matches Feeds::Cached(feeds) ==> cache::cached(bot.feeds).contains(
                (sender->0, cache::feed_map(feeds@)),
            )
            &&& (r->Ok_0).1 matches Feeds::Load(q) ==> {
                &&& q.sql@ == "select source_id, channel from rsstg_source where owner = $1"@
                &&& q.binds@.len() == 1
                &&& big_at(q, 1, sender->0)
            }
            &&& call_ensures(Core::get_feeds, (bot, sender->0), (r->Ok_0).1)
        },
{
    if sender is Some {
        if let Feeds::Load(q) = (r->Ok_0).1 {
            reveal_query(q);
        }
    }
}

/// `/test` is answered in the chat that it came from with the name of the sender and the first page
/// of the feeds.
pub proof fn tests_show_the_first_page(
    bot: &Core,
    feeds: &FeedList,
    username: Option<String>,
    chat: i64,
    reply: Result<SendRequest, String>,
    name: &str,
    cb: Callback,
    kb: Result<Keyboard, String>,
)
    requires
        call_ensures(command::test_reply, (bot, feeds, username, chat), reply),
        call_ensures(Callback::list, (name, 0), cb),
        call_ensures(tg_bot::get_kb, (&cb, feeds), kb),
    ensures
        reply is Ok,
        (reply->Ok_0).to == chat,
        (reply->Ok_0).mode == ParseMode::Html,
        username is None ==> (reply->Ok_0).text@ == "List of feeds owned by "@ + "None"@ + ":"@,
        username matches Some(user) ==> (reply->Ok_0).text@ == "List of feeds owned by "@ + (
        "Some(UserUsername("@ + text::quoted(user@) + "))"@) + ":"@,
        (reply->Ok_0).markup is Some && kb is Ok,
        tg_bot::keyboard_view(((reply->Ok_0).markup->0)@) == tg_bot::keyboard_view((kb->Ok_0)@),
{
}

} // verus!

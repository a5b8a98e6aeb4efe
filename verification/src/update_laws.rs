//! What holds of `/add` and `/update`: which words are accepted, who may write, and what is written.

use crate::bot::Core;
use crate::bot_laws::says;
use crate::cache::{self, FeedList};
use crate::rules;
use crate::sql::{self, Feed, Query, Written};
use crate::sql_laws::{big_at, int_at, optional_at, reveal_query, text_at};
use crate::text;
use crate::text_laws::chars;
use crate::tg_bot::{ParseMode, SendRequest};
use crate::update::{
    self, Answer, Connect, Locate, Member, ReadBack, Reload, Update, Vet, Wanted, Write,
};
use vstd::prelude::*;

verus! {

/// Whether a command has ended with a reason.
pub open spec fn fails(u: Update, reason: Seq<char>) -> bool {
    u matches Update::Done(Err(e)) && e@ == reason
}

/// Whether an optional value is the word at a place: there is none where there is no such word or
/// where it is a dash.
pub open spec fn is_word(value: Option<Seq<char>>, words: Seq<String>, i: int) -> bool {
    if i < words.len() && words[i]@ != "-"@ {
        value == Some(words[i]@)
    } else {
        value is None
    }
}

/// Whether what a user asks for is what the words say from a place on: the channel, the link, the
/// Instant View hash and the substitution, in this order.
pub open spec fn is_typed(w: Wanted, words: Seq<String>, at: int) -> bool {
    &&& words.len() >= at + 2
    &&& w.channel@ == words[at]@
    &&& w.url@ == words[at + 1]@
    &&& is_word(chars(w.iv_hash), words, at + 2)
    &&& is_word(chars(w.url_re), words, at + 3)
}

/// Whether the words from a place on can be accepted: a channel name, a link to a page, a hash or
/// none, and a substitution or none.
pub open spec fn is_acceptable(words: Seq<String>, at: int) -> bool {
    &&& words.len() >= at + 2
    &&& rules::is_username(words[at]@)
    &&& rules::url_scheme(words[at + 1]@) == Ok::<Seq<char>, Seq<char>>("http"@)
        || rules::url_scheme(words[at + 1]@) == Ok::<Seq<char>, Seq<char>>("https"@)
    &&& words.len() > at + 2 && words[at + 2]@ != "-"@ ==> rules::is_iv_hash(words[at + 2]@)
    &&& words.len() > at + 3 && words[at + 3]@ != "-"@ ==> rules::substitution_refusal(
        words[at + 3]@,
    ) is None
}

proof fn names_are_different()
    ensures
        "/add"@ != "/update"@,
{
    reveal_strlit("/add");
    reveal_strlit("/update");
    assert("/add"@.len() != "/update"@.len());
}

proof fn words_are_texts(words: Seq<String>)
    ensures
        text::texts(words).len() == words.len(),
        forall|i: int| 0 <= i < words.len() ==> text::texts(words)[i] == (#[trigger] words[i])@,
{
}

/// `/add` is accepted if and only if a user gives it with a channel name, a link, and a hash and a
/// substitution that are in order where they are given; what is asked for is then what was typed, for
/// that user and for a new source.
pub proof fn additions_are_what_was_typed(
    name: &str,
    sender: Option<i64>,
    words: &Vec<String>,
    u: Update,
)
    requires
        call_ensures(update::update, (name, sender, words), u),
        name@ == "/add"@,
    ensures
        u is Locate <==> sender is Some && is_acceptable(words@, 0),
        u matches Update::Locate(l) ==> {
            &&& Some(l.wanted.owner) == sender
            &&& l.wanted.source_id is None
            &&& is_typed(l.wanted, words@, 0)
        },
        u is Locate || (u is Done && u->Done_0 is Err),
{
    names_are_different();
    words_are_texts(words@);
}

/// `/update` is accepted if and only if a user gives it with a number, a channel name, a link, and a
/// hash and a substitution that are in order where they are given; what is asked for is then what was
/// typed, for that user and for the source with that number.
pub proof fn changes_are_what_was_typed(
    name: &str,
    sender: Option<i64>,
    words: &Vec<String>,
    u: Update,
)
    requires
        call_ensures(update::update, (name, sender, words), u),
        name@ == "/update"@,
    ensures
        u is Locate <==> {
            &&& sender is Some
            &&& words@.len() > 0
            &&& text::i32_value(words@[0]@) is Some
            &&& is_acceptable(words@, 1)
        },
        u matches Update::Locate(l) ==> {
            &&& Some(l.wanted.owner) == sender
            &&& l.wanted.source_id == text::i32_value(words@[0]@)
            &&& is_typed(l.wanted, words@, 1)
        },
        u is Locate || (u is Done && u->Done_0 is Err),
{
    names_are_different();
    words_are_texts(words@);
}

/// A command is refused for the first thing that is wrong with it, and the refusal says what that is:
/// the sender, the name of the command, a missing word, the number, the channel, the link, the hash
/// or the substitution.
pub proof fn refusals_name_what_is_wrong(
    name: &str,
    sender: Option<i64>,
    words: &Vec<String>,
    u: Update,
)
    requires
        call_ensures(update::update, (name, sender, words), u),
    ensures
        sender is None ==> fails(u, "Ignoring unreal users."@),
        sender is Some && name@ != "/add"@ && name@ != "/update"@ ==> fails(
            u,
            "Passing "@ + name@ + " is not possible here."@,
        ),
        sender is Some && name@ == "/update"@ && words@.len() == 0 ==> fails(
            u,
            "Requires at least 3 parameters."@,
        ),
        sender is Some && name@ == "/update"@ && words@.len() > 0 && text::i32_value(
            words@[0]@,
        ) is None ==> fails(
            u,
            "I need a number, but got "@ + words@[0]@ + "."@ + "\n"@ + text::i32_refusal(words@[0]@),
        ),
        sender is Some && (name@ == "/add"@ || (name@ == "/update"@ && words@.len() > 0
            && text::i32_value(words@[0]@) is Some)) ==> {
            let at: int = if name@ == "/update"@ {
                1
            } else {
                0
            };
            let scheme = rules::url_scheme(words@[at + 1]@);
            let bad_hash = words@.len() > at + 2 && words@[at + 2]@ != "-"@ && !rules::is_iv_hash(
                words@[at + 2]@,
            );
            if words@.len() < at + 2 {
                fails(u, "Requires at least 3 parameters."@)
            } else if !rules::is_username(words@[at]@) {
                fails(
                    u,
                    "Usernames should be something like \"@\\[a\\-zA\\-Z]\\[a\\-zA\\-Z0\\-9\\_]+\", aren't they?\nNot "@
                        + text::quoted(words@[at]@),
                )
            } else if scheme is Err {
                fails(
                    u,
                    "Expecting a valid link to ATOM/RSS feed."@ + "\n"@ + scheme->Err_0,
                )
            } else if scheme->Ok_0 != "http"@ && scheme->Ok_0 != "https"@ {
                fails(u, "Unsupported URL scheme: "@ + scheme->Ok_0)
            } else if bad_hash {
                fails(
                    u,
                    "IV hash should be 14 hex digits.\nNot "@ + text::quoted(words@[at + 2]@),
                )
            } else {
                words@.len() > at + 3 && words@[at + 3]@ != "-"@ ==> match rules::substitution_refusal(
                    words@[at + 3]@,
                ) {
                    Some(e) => fails(u, "Regexp parsing error:"@ + "\n"@ + e),
                    None => u is Locate,
                }
            }
        },
{
    names_are_different();
    words_are_texts(words@);
}

/// What was read of the words decides as the words themselves do: where the number, the scheme and
/// the refusal are those of the words, what is asked for is what the command starts with.
pub proof fn readings_decide_what_is_wanted(
    name: &str,
    sender: Option<i64>,
    words: &Vec<String>,
    number: Result<i32, String>,
    scheme: Result<String, String>,
    refusal: Option<String>,
    r: Result<Wanted, String>,
)
    requires
        call_ensures(update::want, (name, sender, words, number, scheme, refusal), r),
    ensures
        ({
            let at: int = if name@ == "/update"@ {
                1
            } else {
                0
            };
            &&& r is Ok <==> {
                &&& sender is Some
                &&& name@ == "/add"@ || (name@ == "/update"@ && words@.len() > 0 && number is Ok)
                &&& words@.len() >= at + 2
                &&& rules::is_username(words@[at]@)
                &&& scheme is Ok
                &&& scheme->Ok_0@ == "http"@ || scheme->Ok_0@ == "https"@
                &&& words@.len() > at + 2 && words@[at + 2]@ != "-"@ ==> rules::is_iv_hash(
                    words@[at + 2]@,
                )
                &&& words@.len() > at + 3 && words@[at + 3]@ != "-"@ ==> refusal is None
            }
            &&& r matches Ok(w) ==> {
                &&& Some(w.owner) == sender
                &&& name@ == "/add"@ ==> w.source_id is None
                &&& name@ == "/update"@ ==> w.source_id == Some(number->Ok_0)
                &&& is_typed(w, words@, at)
            }
        }),
{
    names_are_different();
    words_are_texts(words@);
}

/// Whether what a user asks for is the same at two stages.
pub open spec fn same_wanted(a: Wanted, b: Wanted) -> bool {
    &&& a.owner == b.owner
    &&& a.source_id == b.source_id
    &&& a.channel@ == b.channel@
    &&& a.url@ == b.url@
    &&& chars(a.iv_hash) == chars(b.iv_hash)
    &&& chars(a.url_re) == chars(b.url_re)
}

/// A channel that was found goes on under its number, with what the user asks for unchanged.
pub proof fn channels_are_located(l: Locate, chat: Result<i64, String>, u: Update)
    requires
        call_ensures(Locate::resume, (l, chat), u),
    ensures
        chat matches Ok(id) ==> {
            &&& u is Vet
            &&& u->Vet_0.channel_id == id
            &&& same_wanted(u->Vet_0.wanted, l.wanted)
        },
        chat matches Err(e) ==> fails(u, "getting GetChat"@ + "\n"@ + e@),
{
}

/// Whether a user created a channel or is one of its administrators.
pub open spec fn runs(members: Seq<Member>, user: i64) -> bool {
    exists|i: int|
        #![trigger members[i]]
        0 <= i < members.len() && (members[i] == Member::Creator(user) || members[i]
            == Member::Administrator(user))
}

/// A command goes on if and only if both the bot and the user who gives it run the channel, with the
/// number of that channel and with what the user asks for unchanged; the refusal says which of them
/// does not.
pub proof fn both_run_the_channel(
    v: Vet,
    me: i64,
    members: Result<Vec<Member>, String>,
    u: Update,
)
    requires
        call_ensures(Vet::resume, (v, me, members), u),
    ensures
        members matches Err(e) ==> fails(
            u,
            "Sorry, I have no access to that chat."@ + "\n"@ + e@,
        ),
        members is Ok && !runs(members->Ok_0@, me) ==> fails(
            u,
            "I need to be admin on that channel."@,
        ),
        members is Ok && runs(members->Ok_0@, me) && !runs(members->Ok_0@, v.wanted.owner)
            ==> fails(u, "You should be admin on that channel."@),
        members is Ok && runs(members->Ok_0@, me) && runs(members->Ok_0@, v.wanted.owner) ==> {
            &&& u is Connect
            &&& u->Connect_0.channel_id == v.channel_id
            &&& same_wanted(u->Connect_0.wanted, v.wanted)
        },
{
    if let Ok(members) = members {
        running_is_membership(members@, me);
        running_is_membership(members@, v.wanted.owner);
    }
}

proof fn running_is_membership(members: Seq<Member>, user: i64)
    ensures
        runs(members, user) <==> update::runs_channel(members, user),
{
    if runs(members, user) {
        let i = choose|i: int|
            #![trigger members[i]]
            0 <= i < members.len() && (members[i] == Member::Creator(user) || members[i]
                == Member::Administrator(user));
        assert(members.contains(members[i]));
    }
    if members.contains(Member::Creator(user)) {
        let i = choose|i: int| 0 <= i < members.len() && members[i] == Member::Creator(user);
        assert(runs(members, user));
    }
    if members.contains(Member::Administrator(user)) {
        let i = choose|i: int| 0 <= i < members.len() && members[i] == Member::Administrator(user);
        assert(runs(members, user));
    }
}

/// What is written is written over a connection, unchanged; without one the command ends.
pub proof fn connections_change_nothing(c: Connect, connected: Result<(), String>, u: Update)
    requires
        call_ensures(Connect::resume, (c, connected), u),
    ensures
        connected is Ok ==> {
            &&& u is Write
            &&& u->Write_0.channel_id == c.channel_id
            &&& same_wanted(u->Write_0.wanted, c.wanted)
        },
        connected matches Err(e) ==> fails(u, e@),
{
}

/// Each column of a source is written with the value that the user asked for, under the number of the
/// channel that was found and the number of the user; a source with a number is changed, one without
/// is added with the same values.
pub proof fn columns_get_their_values(w: &Write, q: Query)
    requires
        call_ensures(Write::query, (w,), q),
    ensures
        w.wanted.source_id matches Some(id) ==> {
            &&& q.sql@
                == "update rsstg_source set channel_id = $2, url = $3, iv_hash = $4, owner = $5, channel = $6, url_re = $7 where source_id = $1"@
            &&& q.binds@.len() == 7
            &&& int_at(q, 1, id)
            &&& big_at(q, 2, w.channel_id)
            &&& text_at(q, 3, w.wanted.url@)
            &&& optional_at(q, 4, chars(w.wanted.iv_hash))
            &&& big_at(q, 5, w.wanted.owner)
            &&& text_at(q, 6, w.wanted.channel@)
            &&& optional_at(q, 7, chars(w.wanted.url_re))
        },
        w.wanted.source_id is None ==> {
            &&& q.sql@
                == "insert into rsstg_source (channel_id, url, iv_hash, owner, channel, url_re) values ($1, $2, $3, $4, $5, $6)"@
            &&& q.binds@.len() == 6
            &&& big_at(q, 1, w.channel_id)
            &&& text_at(q, 2, w.wanted.url@)
            &&& optional_at(q, 3, chars(w.wanted.iv_hash))
            &&& big_at(q, 4, w.wanted.owner)
            &&& text_at(q, 5, w.wanted.channel@)
            &&& optional_at(q, 6, chars(w.wanted.url_re))
        },
{
    reveal_query(q);
}

/// The word at a place as it is written: nothing where there is no such word or where it is a dash.
pub open spec fn written_word(words: Seq<String>, i: int) -> Option<Seq<char>> {
    if i < words.len() && words[i]@ != "-"@ {
        Some(words[i]@)
    } else {
        None
    }
}

/// From the words of `/update` to the statement: the source with the number that was typed gets the
/// number of the channel that was found, the link, the hash, the sender, the channel and the
/// substitution that were typed, each in its own column.
pub proof fn typed_changes_are_written(
    name: &str,
    sender: Option<i64>,
    words: &Vec<String>,
    l: Locate,
    channel_id: i64,
    v: Vet,
    me: i64,
    members: Vec<Member>,
    c: Connect,
    w: Write,
    q: Query,
)
    requires
        name@ == "/update"@,
        call_ensures(update::update, (name, sender, words), Update::Locate(l)),
        call_ensures(Locate::resume, (l, Ok(channel_id)), Update::Vet(v)),
        call_ensures(Vet::resume, (v, me, Ok(members)), Update::Connect(c)),
        call_ensures(Connect::resume, (c, Ok(())), Update::Write(w)),
        call_ensures(Write::query, (&w,), q),
    ensures
        q.sql@
            == "update rsstg_source set channel_id = $2, url = $3, iv_hash = $4, owner = $5, channel = $6, url_re = $7 where source_id = $1"@,
        q.binds@.len() == 7,
        int_at(q, 1, text::i32_value(words@[0]@)->0),
        big_at(q, 2, channel_id),
        text_at(q, 3, words@[2]@),
        optional_at(q, 4, written_word(words@, 3)),
        big_at(q, 5, sender->0),
        text_at(q, 6, words@[1]@),
        optional_at(q, 7, written_word(words@, 4)),
{
    changes_are_what_was_typed(name, sender, words, Update::Locate(l));
    channels_are_located(l, Ok(channel_id), Update::Vet(v));
    both_run_the_channel(v, me, Ok(members), Update::Connect(c));
    connections_change_nothing(c, Ok(()), Update::Write(w));
    columns_get_their_values(&w, q);
}

/// From the words of `/add` to the statement: a new source has the number of the channel that was
/// found, the link, the hash, the sender, the channel and the substitution that were typed, each in
/// its own column.
pub proof fn typed_additions_are_written(
    name: &str,
    sender: Option<i64>,
    words: &Vec<String>,
    l: Locate,
    channel_id: i64,
    v: Vet,
    me: i64,
    members: Vec<Member>,
    c: Connect,
    w: Write,
    q: Query,
)
    requires
        name@ == "/add"@,
        call_ensures(update::update, (name, sender, words), Update::Locate(l)),
        call_ensures(Locate::resume, (l, Ok(channel_id)), Update::Vet(v)),
        call_ensures(Vet::resume, (v, me, Ok(members)), Update::Connect(c)),
        call_ensures(Connect::resume, (c, Ok(())), Update::Write(w)),
        call_ensures(Write::query, (&w,), q),
    ensures
        q.sql@
            == "insert into rsstg_source (channel_id, url, iv_hash, owner, channel, url_re) values ($1, $2, $3, $4, $5, $6)"@,
        q.binds@.len() == 6,
        big_at(q, 1, channel_id),
        text_at(q, 2, words@[1]@),
        optional_at(q, 3, written_word(words@, 2)),
        big_at(q, 4, sender->0),
        text_at(q, 5, words@[0]@),
        optional_at(q, 6, written_word(words@, 3)),
{
    additions_are_what_was_typed(name, sender, words, Update::Locate(l));
    channels_are_located(l, Ok(channel_id), Update::Vet(v));
    both_run_the_channel(v, me, Ok(members), Update::Connect(c));
    connections_change_nothing(c, Ok(()), Update::Write(w));
    columns_get_their_values(&w, q);
}

/// `/update` with a number in front writes that number and then exactly what `/add` writes for the
/// same other words, given by the same user for the same channel.
pub proof fn changing_is_adding_under_a_number(
    change: &Write,
    add: &Write,
    changed: Query,
    added: Query,
    id: i32,
)
    requires
        call_ensures(Write::query, (change,), changed),
        call_ensures(Write::query, (add,), added),
        change.wanted.source_id == Some(id),
        add.wanted.source_id is None,
        change.channel_id == add.channel_id,
        same_wanted(
            change.wanted,
            (Wanted { source_id: Some(id), ..add.wanted }),
        ),
    ensures
        changed@.binds =~= seq![sql::BindView::Int(id)] + added@.binds,
        added@.binds.len() == 6,
{
}

/// The user is told what became of the statement, and the command ends only where it failed.
pub proof fn writing_is_answered(w: Write, written: Written, told: Result<String, String>, u: Update)
    requires
        call_ensures(Write::resume, (w, written), u),
        call_ensures(sql::update_reply, (w.wanted.source_id, written), told),
    ensures
        told matches Ok(reply) ==> {
            &&& u is Answer
            &&& u->Answer_0.reply@ == reply@
            &&& same_wanted(u->Answer_0.wanted, w.wanted)
        },
        told matches Err(e) ==> fails(u, e@),
{
}

/// The answer goes to the chat that the command came from. Behind it a source that was added is read
/// back, and one that was changed is not.
pub proof fn additions_are_read_back(
    a: &Answer,
    bot: &Core,
    chat: i64,
    request: SendRequest,
    a1: Answer,
    sent: Result<(), String>,
    u: Update,
)
    requires
        call_ensures(Answer::request, (a, bot, chat), request),
        call_ensures(Answer::resume, (a1, sent), u),
    ensures
        says(request, chat, a.reply@, ParseMode::Html),
        sent matches Err(e) ==> fails(u, e@),
        sent is Ok && a1.wanted.source_id is Some ==> u == Update::Done(Ok(())),
        sent is Ok && a1.wanted.source_id is None ==> {
            &&& u is ReadBack
            &&& u->ReadBack_0.owner == a1.wanted.owner
            &&& u->ReadBack_0.channel@ == a1.wanted.channel@
        },
{
}

/// A source is read back by its owner and its channel, and joins the feeds that are cached for that
/// owner under the number and channel that were read; where none are cached they are loaded.
pub proof fn new_sources_join_the_cache(
    s: &ReadBack,
    q: Query,
    s1: ReadBack,
    row: Result<Option<Feed>, String>,
    bot: &mut Core,
    u: Update,
)
    requires
        call_ensures(ReadBack::query, (s,), q),
        call_ensures(ReadBack::resume, (s1, row, bot), u),
    ensures
        q.sql@ == "select source_id, channel from rsstg_source where owner = $1 and channel = $2"@,
        q.binds@.len() == 2,
        big_at(q, 1, s.owner),
        text_at(q, 2, s.channel@),
        row matches Err(e) ==> fails(u, e@) && cache::cached(final(bot).feeds) == cache::cached(
            old(bot).feeds,
        ),
        row matches Ok(None) ==> fails(u, "Failed to read data on freshly inserted source."@)
            && cache::cached(final(bot).feeds) == cache::cached(old(bot).feeds),
        row matches Ok(Some(feed)) ==> {
            ||| {
                &&& u == Update::Done(Ok(()))
                &&& exists|i: int|
                    {
                        &&& 0 <= i < cache::cached(old(bot).feeds).len()
                        &&& (#[trigger] cache::cached(old(bot).feeds)[i]).0 == s1.owner
                        &&& cache::cached(final(bot).feeds) == cache::cached(old(bot).feeds).update(
                            i,
                            (
                                s1.owner,
                                cache::cached(old(bot).feeds)[i].1.insert(
                                    feed.source_id,
                                    feed.channel@,
                                ),
                            ),
                        )
                    }
            }
            ||| {
                &&& u is Load
                &&& u->Load_0.owner == s1.owner
                &&& cache::cached(final(bot).feeds) == cache::cached(old(bot).feeds)
            }
        },
        final(bot).tg == old(bot).tg,
        final(bot).running == old(bot).running,
        final(bot).db == old(bot).db,
{
    reveal_query(q);
}

/// Feeds are loaded for the owner of the source that was added, and cached for that owner.
pub proof fn reloads_are_for_the_owner(
    s: &Reload,
    q: Query,
    s1: Reload,
    rows: Result<Vec<Feed>, String>,
    collected: FeedList,
    bot: &mut Core,
    u: Update,
)
    requires
        call_ensures(Reload::query, (s,), q),
        call_ensures(Reload::resume, (s1, rows, bot), u),
        rows matches Ok(rows) ==> call_ensures(cache::collect_feeds, (rows,), collected),
        cache::cache_wf(old(bot).feeds),
    ensures
        q.sql@ == "select source_id, channel from rsstg_source where owner = $1"@,
        q.binds@.len() == 1,
        big_at(q, 1, s.owner),
        rows matches Err(e) ==> fails(u, e@) && cache::cached(final(bot).feeds) == cache::cached(
            old(bot).feeds,
        ),
        rows is Ok ==> {
            &&& u == Update::Done(Ok(()))
            &&& cache::cached(final(bot).feeds).len() > 0
            &&& cache::cached(final(bot).feeds).last() == (s1.owner, cache::feed_map(collected@))
        },
        final(bot).tg == old(bot).tg,
        final(bot).running == old(bot).running,
        final(bot).db == old(bot).db,
{
    reveal_query(q);
    if rows is Ok {
        cache::storing_keeps_order(
            cache::cached(old(bot).feeds),
            cache::cache_limit(old(bot).feeds),
            s1.owner,
            cache::feed_map(collected@),
        );
    }
}

} // verus!

//! What the statements of the database ask for and change, and what their outcomes mean.

use crate::moment::Moment;
use crate::sql::{self, Bind, Conn, Db, List, Query, Written};
use crate::text;
use crate::text_laws::chars;
use vstd::prelude::*;

verus! {

/// Whether parameter number `n` of a statement, counted from one, is a number of 32 bits.
pub open spec fn int_at(q: Query, n: int, value: i32) -> bool {
    q.binds@[n - 1] == Bind::Int(value)
}

/// Whether parameter number `n` of a statement, counted from one, is a number of 64 bits.
pub open spec fn big_at(q: Query, n: int, value: i64) -> bool {
    q.binds@[n - 1] == Bind::Big(value)
}

/// Whether parameter number `n` of a statement, counted from one, is a text.
pub open spec fn text_at(q: Query, n: int, value: Seq<char>) -> bool {
    q.binds@[n - 1] matches Bind::Text(t) && t@ == value
}

/// Whether parameter number `n` of a statement, counted from one, is an optional text.
pub open spec fn optional_at(q: Query, n: int, value: Option<Seq<char>>) -> bool {
    q.binds@[n - 1] matches Bind::OptText(t) && match (t, value) {
        (Some(t), Some(v)) => t@ == v,
        (None, None) => true,
        _ => false,
    }
}

/// The rows of the table of posts: a source and the link of a post that was sent for it.
pub type PostRows = Set<(int, Seq<char>)>;

/// What the question for a post is answered over a table: whether there is a row whose link is its
/// first parameter and whose source is its second.
pub open spec fn found_in(ask: Query, rows: PostRows) -> bool {
    rows.contains((ask.binds@[1]->Big_0 as int, ask.binds@[0]->Text_0@))
}

/// A table after a post was recorded: a row whose source is the first parameter and whose link is
/// the third.
pub open spec fn recorded_in(record: Query, rows: PostRows) -> PostRows {
    rows.insert((record.binds@[0]->Int_0 as int, record.binds@[2]->Text_0@))
}

/// The question for a post names its link and its source, and is answered by whether that very post
/// of that very source is there.
pub proof fn asks_for_the_post_of_the_source(url: &str, id: i64, ask: Query, rows: PostRows)
    requires
        call_ensures(Conn::post_exists, (url, id), ask),
    ensures
        ask.sql@
            == "select exists(select true from rsstg_post where url = $1 and source_id = $2) as exists;"@,
        ask.binds@.len() == 2,
        text_at(ask, 1, url@),
        big_at(ask, 2, id),
        found_in(ask, rows) <==> rows.contains((id as int, url@)),
{
    reveal_query(ask);
}

/// A post is found from when it was recorded on, for its own source and under its own link only:
/// recording a post changes the answer for that post of that source and for nothing else.
pub proof fn recording_a_post_makes_it_found(
    source_id: i32,
    date: Moment,
    url: &str,
    record: Query,
    asked_url: &str,
    asked_id: i64,
    ask: Query,
    rows: PostRows,
)
    requires
        call_ensures(Conn::add_post, (source_id, date, url), record),
        call_ensures(Conn::post_exists, (asked_url, asked_id), ask),
    ensures
        record.sql@ == "insert into rsstg_post (source_id, posted, url) values ($1, $2, $3);"@,
        record.binds@.len() == 3,
        int_at(record, 1, source_id),
        record.binds@[1] == Bind::At(date),
        text_at(record, 3, url@),
        found_in(ask, recorded_in(record, rows)) <==> {
            ||| asked_id == source_id && asked_url@ == url@
            ||| found_in(ask, rows)
        },
{
    reveal_query(record);
    reveal_query(ask);
}

/// What is seen of the parameters of a statement is what they are.
pub proof fn reveal_query(q: Query)
    ensures
        q@.binds.len() == q.binds@.len(),
        forall|i: int| 0 <= i < q.binds@.len() ==> q@.binds[i] == (#[trigger] q.binds@[i])@,
{
}

/// Forgetting posts touches the table of posts alone, removing a source the table of sources alone;
/// each of them for the source with this number of this owner.
pub proof fn cleaning_is_not_removing(source_id: i32, owner: i64, clean: Query, delete: Query)
    requires
        call_ensures(Conn::clean, (source_id, owner), clean),
        call_ensures(Conn::delete, (source_id, owner), delete),
    ensures
        clean.sql@
            == "delete from rsstg_post p using rsstg_source s where p.source_id = $1 and owner = $2 and p.source_id = s.source_id;"@,
        delete.sql@ == "delete from rsstg_source where source_id = $1 and owner = $2;"@,
        clean.binds@.len() == 2,
        int_at(clean, 1, source_id),
        big_at(clean, 2, owner),
        delete.binds@.len() == 2,
        int_at(delete, 1, source_id),
        big_at(delete, 2, owner),
{
    reveal_query(clean);
    reveal_query(delete);
}

/// Switching a source on and off differ in the value that is set, for the source with this number of
/// this owner.
pub proof fn switches_are_opposite(source_id: i32, owner: i64, on: Query, off: Query)
    requires
        call_ensures(Conn::enable, (source_id, owner), on),
        call_ensures(Conn::disable, (source_id, owner), off),
    ensures
        on.sql@ == "update rsstg_source set enabled = true where source_id = $1 and owner = $2"@,
        off.sql@ == "update rsstg_source set enabled = false where source_id = $1 and owner = $2"@,
        on.binds@.len() == 2,
        int_at(on, 1, source_id),
        big_at(on, 2, owner),
        off.binds@.len() == 2,
        int_at(off, 1, source_id),
        big_at(off, 2, owner),
{
    reveal_query(on);
    reveal_query(off);
}

/// What is asked of the queue and of the sources of an owner: each question names the owner, and the
/// source or channel where it is about one.
pub proof fn questions_name_their_subject(
    owner: i64,
    id: i32,
    name: &str,
    queue: Query,
    all: Query,
    one: Query,
    named: Query,
    feeds: Query,
    source: Query,
)
    requires
        call_ensures(Conn::get_queue, (), queue),
        call_ensures(Conn::get_list, (owner,), all),
        call_ensures(Conn::get_one, (owner, id), one),
        call_ensures(Conn::get_one_name, (owner, name), named),
        call_ensures(Conn::get_feeds, (owner,), feeds),
        call_ensures(Conn::get_source, (id, owner), source),
    ensures
        queue.sql@
            == "select source_id, next_fetch, owner, last_scrape from rsstg_order natural left join rsstg_source where next_fetch < now() + interval '1 minute';"@,
        queue.binds@.len() == 0,
        all.sql@
            == "select source_id, channel, enabled, url, iv_hash, url_re from rsstg_source where owner = $1 order by source_id"@,
        all.binds@.len() == 1,
        big_at(all, 1, owner),
        one.sql@
            == "select source_id, channel, enabled, url, iv_hash, url_re from rsstg_source where owner = $1 and source_id = $2"@,
        one.binds@.len() == 2,
        big_at(one, 1, owner),
        int_at(one, 2, id),
        named.sql@ == "select source_id, channel from rsstg_source where owner = $1 and channel = $2"@,
        named.binds@.len() == 2,
        big_at(named, 1, owner),
        text_at(named, 2, name@),
        feeds.sql@ == "select source_id, channel from rsstg_source where owner = $1"@,
        feeds.binds@.len() == 1,
        big_at(feeds, 1, owner),
        source.sql@
            == "select channel_id, url, iv_hash, owner, url_re from rsstg_source where source_id = $1 and owner = $2"@,
        source.binds@.len() == 2,
        int_at(source, 1, id),
        big_at(source, 2, owner),
{
    reveal_query(queue);
    reveal_query(all);
    reveal_query(one);
    reveal_query(named);
    reveal_query(feeds);
    reveal_query(source);
}

/// A source is marked as looked at by its own number.
pub proof fn marks_the_source(id: i64, mark: Query)
    requires
        call_ensures(Conn::set_scrape, (id,), mark),
    ensures
        mark.sql@ == "update rsstg_source set last_scrape = now() where source_id = $1;"@,
        mark.binds@.len() == 1,
        big_at(mark, 1, id),
{
    reveal_query(mark);
}

/// Each column of a source is written with its own value, and changing a source writes after its
/// number exactly what adding the same source writes.
pub proof fn changing_writes_what_adding_writes(
    id: i32,
    channel: &str,
    channel_id: i64,
    url: &str,
    iv_hash: Option<String>,
    url_re: Option<String>,
    owner: i64,
    change: Query,
    add: Query,
)
    requires
        call_ensures(
            Conn::update,
            (Some(id), channel, channel_id, url, iv_hash, url_re, owner),
            change,
        ),
        call_ensures(Conn::update, (None, channel, channel_id, url, iv_hash, url_re, owner), add),
    ensures
        change.sql@
            == "update rsstg_source set channel_id = $2, url = $3, iv_hash = $4, owner = $5, channel = $6, url_re = $7 where source_id = $1"@,
        add.sql@
            == "insert into rsstg_source (channel_id, url, iv_hash, owner, channel, url_re) values ($1, $2, $3, $4, $5, $6)"@,
        change.binds@.len() == 7,
        int_at(change, 1, id),
        big_at(change, 2, channel_id),
        text_at(change, 3, url@),
        optional_at(change, 4, chars(iv_hash)),
        big_at(change, 5, owner),
        text_at(change, 6, channel@),
        optional_at(change, 7, chars(url_re)),
        add.binds@.len() == 6,
        big_at(add, 1, channel_id),
        text_at(add, 2, url@),
        optional_at(add, 3, chars(iv_hash)),
        big_at(add, 4, owner),
        text_at(add, 5, channel@),
        optional_at(add, 6, chars(url_re)),
        change@.binds =~= seq![sql::BindView::Int(id)] + add@.binds,
{
    reveal_query(change);
    reveal_query(add);
}

/// The user is told how many posts were forgotten and how many sources were removed, and that there
/// were none where there were none.
pub proof fn removals_are_counted(rows: u64, cleaned: String, deleted: String)
    requires
        call_ensures(sql::clean_reply, (rows,), cleaned),
        call_ensures(sql::delete_reply, (rows,), deleted),
    ensures
        rows == 0 ==> cleaned@ == "No data found found."@ && deleted@ == "No data found found."@,
        rows > 0 ==> {
            &&& cleaned@ == text::digits(rows as nat) + " posts purged."@
            &&& deleted@ == text::digits(rows as nat) + " sources removed."@
        },
{
}

/// The user is told that a source was switched on or off where one row was changed, that there is no
/// such source where none was, and the command fails where more were.
pub proof fn switches_are_reported(rows: u64, on: Result<String, String>, off: Result<String, String>)
    requires
        call_ensures(sql::enable_reply, (rows,), on),
        call_ensures(sql::disable_reply, (rows,), off),
    ensures
        rows == 1 ==> {
            &&& on matches Ok(t) && t@ == "Source enabled."@
            &&& off matches Ok(u) && u@ == "Source disabled."@
        },
        rows == 0 ==> {
            &&& on matches Ok(t) && t@ == "Source not found."@
            &&& off matches Ok(u) && u@ == "Source not found."@
        },
        rows > 1 ==> {
            &&& on matches Err(t) && t@ == "Database error."@
            &&& off matches Err(u) && u@ == "Database error."@
        },
{
}

/// The user is told what became of a source that was written: changed or added where it was, a
/// duplicate where the database found one, another refusal otherwise; the command fails only where
/// the database did not refuse but fail.
pub proof fn writes_are_reported(update: Option<i32>, written: Written, r: Result<String, String>)
    requires
        call_ensures(sql::update_reply, (update, written), r),
    ensures
        written is Done && update is Some ==> (r matches Ok(t) && t@ == "Channel updated."@),
        written is Done && update is None ==> (r matches Ok(t) && t@ == "Channel added."@),
        written matches Written::Refused(Some(routine)) && routine@ == "_bt_check_unique"@ ==> (
        r matches Ok(t) && t@ == "Duplicate key."@),
        written matches Written::Refused(Some(routine)) && routine@ != "_bt_check_unique"@ ==> (
        r matches Ok(t) && t@ == "Database error."@),
        written == Written::Refused(None) ==> (r matches Ok(t) && t@
            == "No database error extracted."@),
        written matches Written::Failed(e) ==> (r matches Err(t) && t@
            == "Sorry, unknown error:\n"@ + e@ + "\n"@),
{
}

/// A pool is for the database that it is asked for, with five connections at most, five minutes to
/// wait for one and a minute until an idle one is closed.
pub proof fn pools_are_for_their_database(uri: &str, db: Db)
    requires
        call_ensures(Db::new, (uri,), db),
    ensures
        db.uri@ == uri@,
        db.max_connections == 5,
        db.acquire_timeout_secs == 300,
        db.idle_timeout_secs == 60,
{
}

/// A source is described by its number, its channel, whether it is fetched, its link, and its hash
/// and substitution where it has them.
pub proof fn sources_are_described(list: &List, r: String)
    requires
        call_ensures(List::to_string, (list,), r),
    ensures
        ({
            let state = if list.enabled {
                "🔄 enabled"@
            } else {
                "⛔ disabled"@
            };
            let head = "#"@ + text::decimal(list.source_id as int) + " \\*️⃣ `"@ + list.channel@
                + "` "@ + state + "\n🔗 `"@ + list.url@ + "`"@;
            let hash = match list.iv_hash {
                Some(hash) => "\nIV: `"@ + hash@ + "`"@,
                None => Seq::empty(),
            };
            let re = match list.url_re {
                Some(re) => "\nRE: `"@ + re@ + "`"@,
                None => Seq::empty(),
            };
            r@ == head + hash + re
        }),
{
}

} // verus!

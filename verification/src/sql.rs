//! The database: the rows that are read from it, the statements that run on it, and what their
//! outcomes mean to the user.

use crate::moment::{Moment, Stamp};
use crate::text;
use vstd::prelude::*;

verus! {

/// A source as its owner sees it.
#[derive(Debug)]
pub struct List {
    pub source_id: i32,
    pub channel: String,
    pub enabled: bool,
    pub url: String,
    pub iv_hash: Option<String>,
    pub url_re: Option<String>,
}

/// A [`List`] as characters.
pub ghost struct ListView {
    pub source_id: i32,
    pub channel: Seq<char>,
    pub enabled: bool,
    pub url: Seq<char>,
    pub iv_hash: Option<Seq<char>>,
    pub url_re: Option<Seq<char>>,
}

impl View for List {
    type V = ListView;

    open spec fn view(&self) -> ListView {
        ListView {
            source_id: self.source_id,
            channel: self.channel@,
            enabled: self.enabled,
            url: self.url@,
            iv_hash: text::opt_text(self.iv_hash),
            url_re: text::opt_text(self.url_re),
        }
    }
}

/// A line with a caption and a value, or nothing where there is no value.
pub open spec fn captioned(caption: Seq<char>, value: Option<Seq<char>>) -> Seq<char> {
    match value {
        Some(v) => caption + v + "`"@,
        None => Seq::empty(),
    }
}

impl ListView {
    /// The description of a source: its number, channel, state and link, and where it has them its
    /// Instant View hash and its substitution.
    pub open spec fn to_text(self) -> Seq<char> {
        let state = if self.enabled {
            "🔄 enabled"@
        } else {
            "⛔ disabled"@
        };
        "#"@ + text::decimal(self.source_id as int) + " \\*️⃣ `"@ + self.channel + "` "@ + state
            + "\n🔗 `"@ + self.url + "`"@ + captioned("\nIV: `"@, self.iv_hash) + captioned(
            "\nRE: `"@,
            self.url_re,
        )
    }
}

impl List {
    /// See [`ListView::to_text`].
    pub fn to_string(&self) -> (r: String)
        ensures
            r@ == self@.to_text(),
    {
        let mut s = "#".to_owned();
        s.append(text::decimal_text(self.source_id).as_str());
        s.append(" \\*️⃣ `");
        s.append(self.channel.as_str());
        s.append("` ");
        s.append(
            if self.enabled {
                "🔄 enabled"
            } else {
                "⛔ disabled"
            },
        );
        s.append("\n🔗 `");
        s.append(self.url.as_str());
        s.append("`");
        match &self.iv_hash {
            Some(hash) => {
                s.append("\nIV: `");
                s.append(hash.as_str());
                s.append("`");
            },
            None => {},
        }
        match &self.url_re {
            Some(re) => {
                s.append("\nRE: `");
                s.append(re.as_str());
                s.append("`");
            },
            None => {},
        }
        assert(s@ =~= self@.to_text());
        s
    }
}

/// What is read of a source to check it.
#[derive(Debug)]
pub struct Source {
    pub channel_id: i64,
    pub url: String,
    pub iv_hash: Option<String>,
    pub owner: i64,
    pub url_re: Option<String>,
}

/// A [`Source`] as characters.
pub ghost struct SourceView {
    pub channel_id: i64,
    pub url: Seq<char>,
    pub iv_hash: Option<Seq<char>>,
    pub owner: i64,
    pub url_re: Option<Seq<char>>,
}

impl View for Source {
    type V = SourceView;

    open spec fn view(&self) -> SourceView {
        SourceView {
            channel_id: self.channel_id,
            url: self.url@,
            iv_hash: text::opt_text(self.iv_hash),
            owner: self.owner,
            url_re: text::opt_text(self.url_re),
        }
    }
}

/// One row of the queue of fetches.
#[derive(Clone, Copy, Debug)]
pub struct Queue {
    pub source_id: Option<i32>,
    pub next_fetch: Option<Moment>,
    pub owner: Option<i64>,
    pub last_scrape: Stamp,
}

/// A source as the cache of feeds knows it.
#[derive(Debug)]
pub struct Feed {
    pub source_id: i32,
    pub channel: String,
}

/// A [`Feed`] as characters.
pub ghost struct FeedView {
    pub source_id: i32,
    pub channel: Seq<char>,
}

impl View for Feed {
    type V = FeedView;

    open spec fn view(&self) -> FeedView {
        FeedView { source_id: self.source_id, channel: self.channel@ }
    }
}

/// One parameter of a statement.
#[derive(Debug)]
pub enum Bind {
    Int(i32),
    Big(i64),
    At(Moment),
    Text(String),
    OptText(Option<String>),
}

/// A [`Bind`] as characters.
pub ghost enum BindView {
    Int(i32),
    Big(i64),
    At(Moment),
    Text(Seq<char>),
    OptText(Option<Seq<char>>),
}

impl View for Bind {
    type V = BindView;

    open spec fn view(&self) -> BindView {
        match self {
            Bind::Int(n) => BindView::Int(*n),
            Bind::Big(n) => BindView::Big(*n),
            Bind::At(m) => BindView::At(*m),
            Bind::Text(t) => BindView::Text(t@),
            Bind::OptText(t) => BindView::OptText(text::opt_text(*t)),
        }
    }
}

/// A statement with its parameters in the order of their numbers.
#[derive(Debug)]
pub struct Query {
    pub sql: &'static str,
    pub binds: Vec<Bind>,
}

/// A [`Query`] as characters.
pub ghost struct QueryView {
    pub sql: Seq<char>,
    pub binds: Seq<BindView>,
}

impl View for Query {
    type V = QueryView;

    open spec fn view(&self) -> QueryView {
        QueryView { sql: self.sql@, binds: self.binds@.map_values(|b: Bind| b@) }
    }
}

fn query(sql: &'static str, binds: Vec<Bind>) -> (r: Query)
    ensures
        r@ == (QueryView { sql: sql@, binds: binds@.map_values(|b: Bind| b@) }),
{
    Query { sql, binds }
}

/// The pool of connections to a database.
#[derive(Debug)]
pub struct Db {
    pub uri: String,
    pub max_connections: u32,
    pub acquire_timeout_secs: u64,
    pub idle_timeout_secs: u64,
}

impl Db {
    /// A pool for the database behind a connection string: at most five connections, five minutes to
    /// wait for one of them, and one minute until an idle one is closed.
    pub fn new(pguri: &str) -> (r: Db)
        ensures
            r.uri@ == pguri@,
            r.max_connections == 5,
            r.acquire_timeout_secs == 300,
            r.idle_timeout_secs == 60,
    {
        Db {
            uri: pguri.to_owned(),
            max_connections: 5,
            acquire_timeout_secs: 300,
            idle_timeout_secs: 60,
        }
    }
}

/// Records a post.
pub const ADD_POST: &'static str = "insert into rsstg_post (source_id, posted, url) values ($1, $2, $3);";

/// Forgets the posts of a source.
pub const CLEAN: &'static str = "delete from rsstg_post p using rsstg_source s where p.source_id = $1 and owner = $2 and p.source_id = s.source_id;";

/// Removes a source.
pub const DELETE: &'static str = "delete from rsstg_source where source_id = $1 and owner = $2;";

/// Stops the fetching of a source.
pub const DISABLE: &'static str = "update rsstg_source set enabled = false where source_id = $1 and owner = $2";

/// Starts the fetching of a source.
pub const ENABLE: &'static str = "update rsstg_source set enabled = true where source_id = $1 and owner = $2";

/// Asks for a post.
pub const POST_EXISTS: &'static str = "select exists(select true from rsstg_post where url = $1 and source_id = $2) as exists;";

/// Asks for the fetches that are due within a minute.
pub const GET_QUEUE: &'static str = "select source_id, next_fetch, owner, last_scrape from rsstg_order natural left join rsstg_source where next_fetch < now() + interval '1 minute';";

/// Asks for the sources of an owner.
pub const GET_LIST: &'static str = "select source_id, channel, enabled, url, iv_hash, url_re from rsstg_source where owner = $1 order by source_id";

/// Asks for the source of an owner that posts to a channel.
pub const GET_ONE_NAME: &'static str = "select source_id, channel from rsstg_source where owner = $1 and channel = $2";

/// Asks for one source of an owner.
pub const GET_ONE: &'static str = "select source_id, channel, enabled, url, iv_hash, url_re from rsstg_source where owner = $1 and source_id = $2";

/// Asks for the numbers and channels of the sources of an owner.
pub const GET_FEEDS: &'static str = "select source_id, channel from rsstg_source where owner = $1";

/// Asks for what is needed to check a source.
pub const GET_SOURCE: &'static str = "select channel_id, url, iv_hash, owner, url_re from rsstg_source where source_id = $1 and owner = $2";

/// Records that a source was looked at.
pub const SET_SCRAPE: &'static str = "update rsstg_source set last_scrape = now() where source_id = $1;";

/// Changes a source.
pub const CHANGE_SOURCE: &'static str = "update rsstg_source set channel_id = $2, url = $3, iv_hash = $4, owner = $5, channel = $6, url_re = $7 where source_id = $1";

/// Adds a source.
pub const ADD_SOURCE: &'static str = "insert into rsstg_source (channel_id, url, iv_hash, owner, channel, url_re) values ($1, $2, $3, $4, $5, $6)";

/// The statements that run on a connection.
pub struct Conn;

/// See [`Conn::post_exists`].
pub open spec fn post_exists_query(post_url: Seq<char>, id: i64) -> QueryView {
    QueryView { sql: POST_EXISTS@, binds: seq![BindView::Text(post_url), BindView::Big(id)] }
}

/// See [`Conn::add_post`].
pub open spec fn add_post_query(source_id: i32, date: Moment, post_url: Seq<char>) -> QueryView {
    QueryView {
        sql: ADD_POST@,
        binds: seq![BindView::Int(source_id), BindView::At(date), BindView::Text(post_url)],
    }
}

/// See [`Conn::clean`].
pub open spec fn clean_query(source_id: i32, owner: i64) -> QueryView {
    QueryView { sql: CLEAN@, binds: seq![BindView::Int(source_id), BindView::Big(owner)] }
}

/// See [`Conn::delete`].
pub open spec fn delete_query(source_id: i32, owner: i64) -> QueryView {
    QueryView { sql: DELETE@, binds: seq![BindView::Int(source_id), BindView::Big(owner)] }
}

/// See [`Conn::disable`].
pub open spec fn disable_query(source_id: i32, owner: i64) -> QueryView {
    QueryView { sql: DISABLE@, binds: seq![BindView::Int(source_id), BindView::Big(owner)] }
}

/// See [`Conn::enable`].
pub open spec fn enable_query(source_id: i32, owner: i64) -> QueryView {
    QueryView { sql: ENABLE@, binds: seq![BindView::Int(source_id), BindView::Big(owner)] }
}

/// See [`Conn::get_queue`].
pub open spec fn get_queue_query() -> QueryView {
    QueryView { sql: GET_QUEUE@, binds: Seq::empty() }
}

/// See [`Conn::get_list`].
pub open spec fn get_list_query(owner: i64) -> QueryView {
    QueryView { sql: GET_LIST@, binds: seq![BindView::Big(owner)] }
}

/// See [`Conn::get_one`].
pub open spec fn get_one_query(owner: i64, id: i32) -> QueryView {
    QueryView { sql: GET_ONE@, binds: seq![BindView::Big(owner), BindView::Int(id)] }
}

/// See [`Conn::get_one_name`].
pub open spec fn get_one_name_query(owner: i64, name: Seq<char>) -> QueryView {
    QueryView { sql: GET_ONE_NAME@, binds: seq![BindView::Big(owner), BindView::Text(name)] }
}

/// See [`Conn::get_feeds`].
pub open spec fn get_feeds_query(owner: i64) -> QueryView {
    QueryView { sql: GET_FEEDS@, binds: seq![BindView::Big(owner)] }
}

/// See [`Conn::get_source`].
pub open spec fn get_source_query(id: i32, owner: i64) -> QueryView {
    QueryView { sql: GET_SOURCE@, binds: seq![BindView::Int(id), BindView::Big(owner)] }
}

/// See [`Conn::set_scrape`].
pub open spec fn set_scrape_query(id: i64) -> QueryView {
    QueryView { sql: SET_SCRAPE@, binds: seq![BindView::Big(id)] }
}

/// See [`Conn::update`].
pub open spec fn update_query(
    update: Option<i32>,
    channel: Seq<char>,
    channel_id: i64,
    url: Seq<char>,
    iv_hash: Option<Seq<char>>,
    url_re: Option<Seq<char>>,
    owner: i64,
) -> QueryView {
    let values = seq![
        BindView::Big(channel_id),
        BindView::Text(url),
        BindView::OptText(iv_hash),
        BindView::Big(owner),
        BindView::Text(channel),
        BindView::OptText(url_re),
    ];
    match update {
        Some(id) => QueryView { sql: CHANGE_SOURCE@, binds: seq![BindView::Int(id)] + values },
        None => QueryView { sql: ADD_SOURCE@, binds: values },
    }
}

impl Conn {
    /// Records that a post of a source was sent.
    pub fn add_post(source_id: i32, date: Moment, post_url: &str) -> (r: Query)
        ensures
            r@ == add_post_query(source_id, date, post_url@),
    {
        let q = query(
            ADD_POST,
            vec![Bind::Int(source_id), Bind::At(date), Bind::Text(post_url.to_owned())],
        );
        assert(q@.binds =~= add_post_query(source_id, date, post_url@).binds);
        q
    }

    /// Forgets the posts of a source of this owner.
    pub fn clean(source_id: i32, owner: i64) -> (r: Query)
        ensures
            r@ == clean_query(source_id, owner),
    {
        let q = query(CLEAN, vec![Bind::Int(source_id), Bind::Big(owner)]);
        assert(q@.binds =~= clean_query(source_id, owner).binds);
        q
    }

    /// Removes a source of this owner.
    pub fn delete(source_id: i32, owner: i64) -> (r: Query)
        ensures
            r@ == delete_query(source_id, owner),
    {
        let q = query(DELETE, vec![Bind::Int(source_id), Bind::Big(owner)]);
        assert(q@.binds =~= delete_query(source_id, owner).binds);
        q
    }

    /// Stops the fetching of a source of this owner.
    pub fn disable(source_id: i32, owner: i64) -> (r: Query)
        ensures
            r@ == disable_query(source_id, owner),
    {
        let q = query(DISABLE, vec![Bind::Int(source_id), Bind::Big(owner)]);
        assert(q@.binds =~= disable_query(source_id, owner).binds);
        q
    }

    /// Starts the fetching of a source of this owner.
    pub fn enable(source_id: i32, owner: i64) -> (r: Query)
        ensures
            r@ == enable_query(source_id, owner),
    {
        let q = query(ENABLE, vec![Bind::Int(source_id), Bind::Big(owner)]);
        assert(q@.binds =~= enable_query(source_id, owner).binds);
        q
    }

    /// Asks whether a post of a source was sent before.
    pub fn post_exists(post_url: &str, id: i64) -> (r: Query)
        ensures
            r@ == post_exists_query(post_url@, id),
    {
        let q = query(POST_EXISTS, vec![Bind::Text(post_url.to_owned()), Bind::Big(id)]);
        assert(q@.binds =~= post_exists_query(post_url@, id).binds);
        q
    }

    /// Asks for the fetches that are due within a minute.
    pub fn get_queue() -> (r: Query)
        ensures
            r@ == get_queue_query(),
    {
        let q = query(GET_QUEUE, vec![]);
        assert(q@.binds =~= get_queue_query().binds);
        q
    }

    /// Asks for the sources of an owner in the order of their numbers.
    pub fn get_list(owner: i64) -> (r: Query)
        ensures
            r@ == get_list_query(owner),
    {
        let q = query(GET_LIST, vec![Bind::Big(owner)]);
        assert(q@.binds =~= get_list_query(owner).binds);
        q
    }

    /// Asks for one source of an owner.
    pub fn get_one(owner: i64, id: i32) -> (r: Query)
        ensures
            r@ == get_one_query(owner, id),
    {
        let q = query(GET_ONE, vec![Bind::Big(owner), Bind::Int(id)]);
        assert(q@.binds =~= get_one_query(owner, id).binds);
        q
    }

    /// Asks for the source of an owner that posts to a channel.
    pub fn get_one_name(owner: i64, name: &str) -> (r: Query)
        ensures
            r@ == get_one_name_query(owner, name@),
    {
        let q = query(GET_ONE_NAME, vec![Bind::Big(owner), Bind::Text(name.to_owned())]);
        assert(q@.binds =~= get_one_name_query(owner, name@).binds);
        q
    }

    /// Asks for the numbers and channels of the sources of an owner.
    pub fn get_feeds(owner: i64) -> (r: Query)
        ensures
            r@ == get_feeds_query(owner),
    {
        let q = query(GET_FEEDS, vec![Bind::Big(owner)]);
        assert(q@.binds =~= get_feeds_query(owner).binds);
        q
    }

    /// Asks for what is needed to check one source of an owner.
    pub fn get_source(id: i32, owner: i64) -> (r: Query)
        ensures
            r@ == get_source_query(id, owner),
    {
        let q = query(GET_SOURCE, vec![Bind::Int(id), Bind::Big(owner)]);
        assert(q@.binds =~= get_source_query(id, owner).binds);
        q
    }

    /// Records that a source was looked at just now.
    pub fn set_scrape(id: i64) -> (r: Query)
        ensures
            r@ == set_scrape_query(id),
    {
        let q = query(SET_SCRAPE, vec![Bind::Big(id)]);
        assert(q@.binds =~= set_scrape_query(id).binds);
        q
    }

    /// Changes the source with a number, or adds a source where there is none.
    pub fn update(
        update: Option<i32>,
        channel: &str,
        channel_id: i64,
        url: &str,
        iv_hash: Option<String>,
        url_re: Option<String>,
        owner: i64,
    ) -> (r: Query)
        ensures
            r@ == update_query(
                update,
                channel@,
                channel_id,
                url@,
                text::opt_text(iv_hash),
                text::opt_text(url_re),
                owner,
            ),
    {
        let ghost wanted = update_query(
            update,
            channel@,
            channel_id,
            url@,
            text::opt_text(iv_hash),
            text::opt_text(url_re),
            owner,
        );
        let mut binds: Vec<Bind> = Vec::new();
        let sql = match update {
            Some(id) => {
                binds.push(Bind::Int(id));
                CHANGE_SOURCE
            },
            None => ADD_SOURCE,
        };
        binds.push(Bind::Big(channel_id));
        binds.push(Bind::Text(url.to_owned()));
        binds.push(Bind::OptText(iv_hash));
        binds.push(Bind::Big(owner));
        binds.push(Bind::Text(channel.to_owned()));
        binds.push(Bind::OptText(url_re));
        let q = query(sql, binds);
        assert(q@.binds =~= wanted.binds);
        q
    }
}

/// What the user is told of so many posts that were forgotten.
pub open spec fn clean_text(rows: u64) -> Seq<char> {
    if rows == 0 {
        "No data found found."@
    } else {
        text::digits(rows as nat) + " posts purged."@
    }
}

/// What the user is told of so many sources that were removed.
pub open spec fn delete_text(rows: u64) -> Seq<char> {
    if rows == 0 {
        "No data found found."@
    } else {
        text::digits(rows as nat) + " sources removed."@
    }
}

/// What the user is told of so many sources that were switched on or off.
pub open spec fn switch_text(rows: u64, done: Seq<char>) -> Result<Seq<char>, Seq<char>> {
    if rows == 1 {
        Ok(done)
    } else if rows == 0 {
        Ok("Source not found."@)
    } else {
        Err("Database error."@)
    }
}

/// What became of a statement that writes a source.
#[derive(Debug)]
pub enum Written {
    Done,
    /// The database refused it; the routine that did, where it is known.
    Refused(Option<String>),
    /// It failed for another reason, in words.
    Failed(String),
}

/// A [`Written`] as characters.
pub ghost enum WrittenView {
    Done,
    Refused(Option<Seq<char>>),
    Failed(Seq<char>),
}

impl View for Written {
    type V = WrittenView;

    open spec fn view(&self) -> WrittenView {
        match self {
            Written::Done => WrittenView::Done,
            Written::Refused(routine) => WrittenView::Refused(text::opt_text(*routine)),
            Written::Failed(e) => WrittenView::Failed(e@),
        }
    }
}

/// What the user is told of a source that was to be changed or added.
pub open spec fn update_text(update: Option<i32>, written: WrittenView) -> Result<
    Seq<char>,
    Seq<char>,
> {
    match written {
        WrittenView::Done => Ok(
            if update is Some {
                "Channel updated."@
            } else {
                "Channel added."@
            },
        ),
        WrittenView::Refused(Some(routine)) => Ok(
            if routine == "_bt_check_unique"@ {
                "Duplicate key."@
            } else {
                "Database error."@
            },
        ),
        WrittenView::Refused(None) => Ok("No database error extracted."@),
        WrittenView::Failed(e) => Err("Sorry, unknown error:\n"@ + e + "\n"@),
    }
}

/// See [`clean_text`].
pub fn clean_reply(rows: u64) -> (r: String)
    ensures
        r@ == clean_text(rows),
{
    if rows == 0 {
        "No data found found.".to_owned()
    } else {
        text::cat(text::digits_text(rows).as_str(), " posts purged.")
    }
}

/// See [`delete_text`].
pub fn delete_reply(rows: u64) -> (r: String)
    ensures
        r@ == delete_text(rows),
{
    if rows == 0 {
        "No data found found.".to_owned()
    } else {
        text::cat(text::digits_text(rows).as_str(), " sources removed.")
    }
}

fn switch_reply(rows: u64, done: &str) -> (r: Result<String, String>)
    ensures
        text::text_outcome(r) == switch_text(rows, done@),
{
    if rows == 1 {
        Ok(done.to_owned())
    } else if rows == 0 {
        Ok("Source not found.".to_owned())
    } else {
        Err("Database error.".to_owned())
    }
}

/// See [`switch_text`].
pub fn disable_reply(rows: u64) -> (r: Result<String, String>)
    ensures
        text::text_outcome(r) == switch_text(rows, "Source disabled."@),
{
    switch_reply(rows, "Source disabled.")
}

/// See [`switch_text`].
pub fn enable_reply(rows: u64) -> (r: Result<String, String>)
    ensures
        text::text_outcome(r) == switch_text(rows, "Source enabled."@),
{
    switch_reply(rows, "Source enabled.")
}

/// See [`update_text`].
pub fn update_reply(update: Option<i32>, written: Written) -> (r: Result<String, String>)
    ensures
        text::text_outcome(r) == update_text(update, written@),
{
    match written {
        Written::Done => Ok(
            match update {
                Some(_) => "Channel updated.",
                None => "Channel added.",
            }.to_owned(),
        ),
        Written::Refused(Some(routine)) => if text::same(routine.as_str(), "_bt_check_unique") {
            Ok("Duplicate key.".to_owned())
        } else {
            Ok("Database error.".to_owned())
        },
        Written::Refused(None) => Ok("No database error extracted.".to_owned()),
        Written::Failed(e) => Err(text::cat3("Sorry, unknown error:\n", e.as_str(), "\n")),
    }
}

} // verus!

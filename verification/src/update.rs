//! The commands `/add` and `/update`: what the user asks for, who may ask for it, and what is written.

use crate::bot::Core;
use crate::cache;
use crate::command::{self, AT_LEAST, NO_USERNAME, UNREAL};
use crate::rules;
use crate::sql::{self, Conn, Feed, Query, Written};
use crate::text;
use crate::tg_bot::{self, MyMessage, SendRequest};
use vstd::prelude::*;

verus! {

/// What a user asks for with `/add` or `/update`.
#[derive(Debug)]
pub struct Wanted {
    pub owner: i64,
    /// The source that is to be changed, or none where one is to be added.
    pub source_id: Option<i32>,
    pub channel: String,
    pub url: String,
    pub iv_hash: Option<String>,
    pub url_re: Option<String>,
}

/// A [`Wanted`] as characters.
pub ghost struct WantedView {
    pub owner: i64,
    pub source_id: Option<i32>,
    pub channel: Seq<char>,
    pub url: Seq<char>,
    pub iv_hash: Option<Seq<char>>,
    pub url_re: Option<Seq<char>>,
}

impl View for Wanted {
    type V = WantedView;

    open spec fn view(&self) -> WantedView {
        WantedView {
            owner: self.owner,
            source_id: self.source_id,
            channel: self.channel@,
            url: self.url@,
            iv_hash: text::opt_text(self.iv_hash),
            url_re: text::opt_text(self.url_re),
        }
    }
}

/// What a user asks for, or an error text, as characters.
pub open spec fn wanted_outcome(r: Result<Wanted, String>) -> Result<WantedView, Seq<char>> {
    match r {
        Ok(wanted) => Ok(wanted@),
        Err(e) => Err(e@),
    }
}

/// The word at a place, where there are so many words.
pub open spec fn word_at(words: Seq<Seq<char>>, i: int) -> Option<Seq<char>> {
    if i < words.len() {
        Some(words[i])
    } else {
        None
    }
}

/// A word, unless it is the dash that stands for nothing.
pub open spec fn undashed(word: Option<Seq<char>>) -> Option<Seq<char>> {
    match word {
        Some(w) => if w == "-"@ {
            None
        } else {
            Some(w)
        },
        None => None,
    }
}

/// Where the channel stands among the words of a command: behind the number of `/update`.
pub open spec fn channel_at(command: Seq<char>) -> int {
    if command == "/update"@ {
        1
    } else {
        0
    }
}

/// What stands for the number of the source in a command, when the first word was read as a number
/// or could not be.
pub open spec fn source_wanted(
    command: Seq<char>,
    words: Seq<Seq<char>>,
    number: Result<i32, Seq<char>>,
) -> Result<Option<i32>, Seq<char>> {
    if command == "/update"@ {
        if words.len() == 0 {
            Err(AT_LEAST@)
        } else {
            match number {
                Ok(id) => Ok(Some(id)),
                Err(e) => Err(
                    text::because("I need a number, but got "@ + words[0] + "."@, e),
                ),
            }
        }
    } else if command == "/add"@ {
        Ok(None)
    } else {
        Err("Passing "@ + command + " is not possible here."@)
    }
}

/// Why a link with a scheme is refused, or a text that is no link, or nothing where it is accepted.
pub open spec fn link_refusal(scheme: Result<Seq<char>, Seq<char>>) -> Option<Seq<char>> {
    match scheme {
        Err(e) => Some(text::because("Expecting a valid link to ATOM/RSS feed."@, e)),
        Ok(s) => if s == "http"@ || s == "https"@ {
            None
        } else {
            Some("Unsupported URL scheme: "@ + s)
        },
    }
}

/// Why the words of a command are refused, or nothing where they are accepted: the words from the
/// channel on, the scheme of the link, and the refusal of the substitution.
pub open spec fn words_refusal(
    words: Seq<Seq<char>>,
    at: int,
    scheme: Result<Seq<char>, Seq<char>>,
    refusal: Option<Seq<char>>,
) -> Option<Seq<char>> {
    if words.len() < at + 2 {
        Some(AT_LEAST@)
    } else if !rules::is_username(words[at]) {
        Some(NO_USERNAME@ + text::quoted(words[at]))
    } else if link_refusal(scheme) is Some {
        link_refusal(scheme)
    } else {
        match undashed(word_at(words, at + 2)) {
            Some(hash) if !rules::is_iv_hash(hash) => Some(
                "IV hash should be 14 hex digits.\nNot "@ + text::quoted(hash),
            ),
            _ => match (undashed(word_at(words, at + 3)), refusal) {
                (Some(_), Some(e)) => Some(text::because("Regexp parsing error:"@, e)),
                _ => None,
            },
        }
    }
}

/// What a user asks for with a command, when its words were read as a number, a link and a
/// substitution, or why the command is refused.
pub open spec fn wanted_of(
    command: Seq<char>,
    sender: Option<i64>,
    words: Seq<Seq<char>>,
    number: Result<i32, Seq<char>>,
    scheme: Result<Seq<char>, Seq<char>>,
    refusal: Option<Seq<char>>,
) -> Result<WantedView, Seq<char>> {
    let at = channel_at(command);
    match (sender, source_wanted(command, words, number)) {
        (None, _) => Err(UNREAL@),
        (_, Err(e)) => Err(e),
        (Some(owner), Ok(source_id)) => match words_refusal(words, at, scheme, refusal) {
            Some(e) => Err(e),
            None => Ok(
                WantedView {
                    owner,
                    source_id,
                    channel: words[at],
                    url: words[at + 1],
                    iv_hash: undashed(word_at(words, at + 2)),
                    url_re: undashed(word_at(words, at + 3)),
                },
            ),
        },
    }
}

/// The optional word at a place, unless it is a dash.
fn optional(words: &Vec<String>, i: usize) -> (r: Option<String>)
    ensures
        text::opt_text(r) == undashed(word_at(text::texts(words@), i as int)),
{
    if i < words.len() && !text::same(words[i].as_str(), "-") {
        Some(words[i].clone())
    } else {
        None
    }
}

fn read_source(command: &str, words: &Vec<String>, number: Result<i32, String>) -> (r: Result<
    Option<i32>,
    String,
>)
    ensures
        text::outcome(r) == source_wanted(command@, text::texts(words@), text::outcome(number)),
{
    if text::same(command, "/update") {
        if words.len() == 0 {
            return Err(AT_LEAST.to_owned());
        }
        match number {
            Ok(id) => Ok(Some(id)),
            Err(e) => {
                let message = text::cat3("I need a number, but got ", words[0].as_str(), ".");
                Err(text::with_cause(message.as_str(), e.as_str()))
            },
        }
    } else if text::same(command, "/add") {
        Ok(None)
    } else {
        Err(text::cat3("Passing ", command, " is not possible here."))
    }
}

/// See [`wanted_of`].
pub fn want(
    command: &str,
    sender: Option<i64>,
    words: &Vec<String>,
    number: Result<i32, String>,
    scheme: Result<String, String>,
    refusal: Option<String>,
) -> (r: Result<Wanted, String>)
    ensures
        wanted_outcome(r) == wanted_of(
            command@,
            sender,
            text::texts(words@),
            text::outcome(number),
            text::text_outcome(scheme),
            text::opt_text(refusal),
        ),
{
    let owner = match sender {
        Some(owner) => owner,
        None => return Err(UNREAL.to_owned()),
    };
    let source_id = match read_source(command, words, number) {
        Ok(source_id) => source_id,
        Err(e) => return Err(e),
    };
    let at: usize = if text::same(command, "/update") {
        1
    } else {
        0
    };
    if words.len() < at + 2 {
        return Err(AT_LEAST.to_owned());
    }
    let channel = words[at].as_str();
    if !rules::username_matches(channel) {
        return Err(text::cat(NO_USERNAME, text::quote(channel).as_str()));
    }
    match scheme {
        Err(e) => return Err(
            text::with_cause("Expecting a valid link to ATOM/RSS feed.", e.as_str()),
        ),
        Ok(s) => {
            if !text::same(s.as_str(), "http") && !text::same(s.as_str(), "https") {
                return Err(text::cat("Unsupported URL scheme: ", s.as_str()));
            }
        },
    }
    let iv_hash = optional(words, at + 2);
    if let Some(hash) = &iv_hash {
        if !rules::iv_hash_matches(hash.as_str()) {
            return Err(
                text::cat(
                    "IV hash should be 14 hex digits.\nNot ",
                    text::quote(hash.as_str()).as_str(),
                ),
            );
        }
    }
    let url_re = optional(words, at + 3);
    if url_re.is_some() {
        if let Some(e) = refusal {
            return Err(text::with_cause("Regexp parsing error:", e.as_str()));
        }
    }
    Ok(
        Wanted {
            owner,
            source_id,
            channel: words[at].clone(),
            url: words[at + 1].clone(),
            iv_hash,
            url_re,
        },
    )
}

/// What a user asks for with a command, or why the command is refused.
pub open spec fn update_wanted(
    command: Seq<char>,
    sender: Option<i64>,
    words: Seq<Seq<char>>,
) -> Result<WantedView, Seq<char>> {
    let at = channel_at(command);
    wanted_of(
        command,
        sender,
        words,
        command::number_of(words[0]),
        rules::url_scheme(words[at + 1]),
        rules::substitution_refusal(words[at + 3]),
    )
}

/// What someone is in a channel, by the user number where it matters.
#[derive(Clone, Copy, Debug, PartialEq, Eq, Structural)]
pub enum Member {
    Creator(i64),
    Administrator(i64),
    Other,
}

/// Whether a user runs a channel: created it or is one of its administrators.
pub open spec fn runs_channel(members: Seq<Member>, user: i64) -> bool {
    members.contains(Member::Creator(user)) || members.contains(Member::Administrator(user))
}

/// The number of the channel is needed.
#[derive(Debug)]
pub struct Locate {
    pub wanted: Wanted,
}

/// The administrators of the channel are needed.
#[derive(Debug)]
pub struct Vet {
    pub wanted: Wanted,
    pub channel_id: i64,
}

/// A connection to the database is needed.
#[derive(Debug)]
pub struct Connect {
    pub wanted: Wanted,
    pub channel_id: i64,
}

/// What the user asks for must be written.
#[derive(Debug)]
pub struct Write {
    pub wanted: Wanted,
    pub channel_id: i64,
}

/// The user must be answered.
#[derive(Debug)]
pub struct Answer {
    pub wanted: Wanted,
    pub reply: String,
}

/// A source that was added must be read back.
#[derive(Debug)]
pub struct ReadBack {
    pub owner: i64,
    pub channel: String,
}

/// The feeds of the user must be loaded.
#[derive(Debug)]
pub struct Reload {
    pub owner: i64,
}

/// `/add` or `/update` by its stage.
#[derive(Debug)]
pub enum Update {
    Locate(Locate),
    Vet(Vet),
    Connect(Connect),
    Write(Write),
    Answer(Answer),
    ReadBack(ReadBack),
    Load(Reload),
    /// The command has ended.
    Done(Result<(), String>),
}

/// An [`Update`] as characters.
pub ghost enum UpdateView {
    Locate(WantedView),
    Vet(WantedView, i64),
    Connect(WantedView, i64),
    Write(WantedView, i64),
    Answer(WantedView, Seq<char>),
    ReadBack { owner: i64, channel: Seq<char> },
    Load { owner: i64 },
    Done(Result<(), Seq<char>>),
}

impl View for Update {
    type V = UpdateView;

    open spec fn view(&self) -> UpdateView {
        match self {
            Update::Locate(s) => UpdateView::Locate(s.wanted@),
            Update::Vet(s) => UpdateView::Vet(s.wanted@, s.channel_id),
            Update::Connect(s) => UpdateView::Connect(s.wanted@, s.channel_id),
            Update::Write(s) => UpdateView::Write(s.wanted@, s.channel_id),
            Update::Answer(s) => UpdateView::Answer(s.wanted@, s.reply@),
            Update::ReadBack(s) => UpdateView::ReadBack { owner: s.owner, channel: s.channel@ },
            Update::Load(s) => UpdateView::Load { owner: s.owner },
            Update::Done(r) => UpdateView::Done(text::outcome(*r)),
        }
    }
}

/// Why the administrators of a channel do not let a user post to it, or nothing where they do.
pub open spec fn admission_refusal(
    me: i64,
    user: i64,
    members: Result<Seq<Member>, Seq<char>>,
) -> Option<Seq<char>> {
    match members {
        Err(e) => Some(text::because("Sorry, I have no access to that chat."@, e)),
        Ok(members) => if !runs_channel(members, me) {
            Some("I need to be admin on that channel."@)
        } else if !runs_channel(members, user) {
            Some("You should be admin on that channel."@)
        } else {
            None
        },
    }
}

/// The members of a channel or an error text as characters.
pub open spec fn members_outcome(r: Result<Vec<Member>, String>) -> Result<Seq<Member>, Seq<char>> {
    match r {
        Ok(members) => Ok(members@),
        Err(e) => Err(e@),
    }
}

/// The statement that writes what a user asks for.
pub open spec fn wanted_query(wanted: WantedView, channel_id: i64) -> sql::QueryView {
    sql::update_query(
        wanted.source_id,
        wanted.channel,
        channel_id,
        wanted.url,
        wanted.iv_hash,
        wanted.url_re,
        wanted.owner,
    )
}

impl WantedView {
    /// The stage after the channel was asked for.
    pub open spec fn located(self, chat: Result<i64, Seq<char>>) -> UpdateView {
        match chat {
            Ok(channel_id) => UpdateView::Vet(self, channel_id),
            Err(e) => UpdateView::Done(Err(text::because("getting GetChat"@, e))),
        }
    }

    /// The stage after the administrators of the channel were asked for.
    pub open spec fn vetted(
        self,
        channel_id: i64,
        me: i64,
        members: Result<Seq<Member>, Seq<char>>,
    ) -> UpdateView {
        match admission_refusal(me, self.owner, members) {
            None => UpdateView::Connect(self, channel_id),
            Some(e) => UpdateView::Done(Err(e)),
        }
    }

    /// The stage after a connection was asked for.
    pub open spec fn connected(
        self,
        channel_id: i64,
        connected: Result<(), Seq<char>>,
    ) -> UpdateView {
        match connected {
            Ok(_) => UpdateView::Write(self, channel_id),
            Err(e) => UpdateView::Done(Err(e)),
        }
    }

    /// The stage after the statement was to run.
    pub open spec fn written(self, written: sql::WrittenView) -> UpdateView {
        match sql::update_text(self.source_id, written) {
            Ok(reply) => UpdateView::Answer(self, reply),
            Err(e) => UpdateView::Done(Err(e)),
        }
    }

    /// The stage after the user was to be answered: a source that was added is read back.
    pub open spec fn answered(self, sent: Result<(), Seq<char>>) -> UpdateView {
        match sent {
            Err(e) => UpdateView::Done(Err(e)),
            Ok(_) => if self.source_id is Some {
                UpdateView::Done(Ok(()))
            } else {
                UpdateView::ReadBack { owner: self.owner, channel: self.channel }
            },
        }
    }
}

/// Starts `/add` or `/update`: see [`update_wanted`].
pub fn update(command: &str, sender: Option<i64>, words: &Vec<String>) -> (r: Update)
    ensures
        r@ == match update_wanted(command@, sender, text::texts(words@)) {
            Ok(wanted) => UpdateView::Locate(wanted),
            Err(e) => UpdateView::Done(Err(e)),
        },
{
    let (at, number): (usize, Result<i32, String>) = if text::same(command, "/update") {
        if words.len() > 0 {
            (1, text::parse_i32(words[0].as_str()))
        } else {
            (1, Ok(0))
        }
    } else {
        (0, Ok(0))
    };
    let scheme = if words.len() > at + 1 {
        rules::parse_scheme(words[at + 1].as_str())
    } else {
        Ok(String::new())
    };
    let refusal = if words.len() > at + 3 {
        rules::check_substitution(words[at + 3].as_str())
    } else {
        None
    };
    match want(command, sender, words, number, scheme, refusal) {
        Ok(wanted) => Update::Locate(Locate { wanted }),
        Err(e) => Update::Done(Err(e)),
    }
}

impl Locate {
    /// Goes on with the number of the channel, or with the reason why it was not found.
    pub fn resume(self, chat: Result<i64, String>) -> (r: Update)
        ensures
            r@ == self.wanted@.located(text::outcome(chat)),
    {
        match chat {
            Ok(channel_id) => Update::Vet(Vet { wanted: self.wanted, channel_id }),
            Err(e) => Update::Done(Err(text::with_cause("getting GetChat", e.as_str()))),
        }
    }
}

fn is_admin(members: &Vec<Member>, user: i64) -> (r: bool)
    ensures
        r == runs_channel(members@, user),
{
    let mut i: usize = 0;
    while i < members.len()
        invariant
            i <= members@.len(),
            forall|k: int|
                0 <= k < i ==> (#[trigger] members@[k]) != Member::Creator(user) && members@[k]
                    != Member::Administrator(user),
        decreases members@.len() - i,
    {
        let found = match members[i] {
            Member::Creator(id) => id == user,
            Member::Administrator(id) => id == user,
            Member::Other => false,
        };
        if found {
            assert(members@.contains(members@[i as int]));
            return true;
        }
        i = i + 1;
    }
    false
}

impl Vet {
    /// Goes on with the administrators of the channel, or with the reason why they are not known:
    /// the bot and the user must be among them.
    pub fn resume(self, me: i64, members: Result<Vec<Member>, String>) -> (r: Update)
        ensures
            r@ == self.wanted@.vetted(self.channel_id, me, members_outcome(members)),
    {
        let members = match members {
            Ok(members) => members,
            Err(e) => return Update::Done(
                Err(text::with_cause("Sorry, I have no access to that chat.", e.as_str())),
            ),
        };
        if !is_admin(&members, me) {
            return Update::Done(Err("I need to be admin on that channel.".to_owned()));
        }
        if !is_admin(&members, self.wanted.owner) {
            return Update::Done(Err("You should be admin on that channel.".to_owned()));
        }
        Update::Connect(Connect { wanted: self.wanted, channel_id: self.channel_id })
    }
}

impl Connect {
    /// Goes on with a connection, or with the reason why there is none.
    pub fn resume(self, connected: Result<(), String>) -> (r: Update)
        ensures
            r@ == self.wanted@.connected(self.channel_id, text::outcome(connected)),
    {
        match connected {
            Ok(_) => Update::Write(Write { wanted: self.wanted, channel_id: self.channel_id }),
            Err(e) => Update::Done(Err(e)),
        }
    }
}

fn copied(t: &Option<String>) -> (r: Option<String>)
    ensures
        text::opt_text(r) == text::opt_text(*t),
{
    match t {
        Some(s) => Some(s.clone()),
        None => None,
    }
}

impl Write {
    /// The statement that writes what the user asks for.
    pub fn query(&self) -> (r: Query)
        ensures
            r@ == wanted_query(self.wanted@, self.channel_id),
    {
        Conn::update(
            self.wanted.source_id,
            self.wanted.channel.as_str(),
            self.channel_id,
            self.wanted.url.as_str(),
            copied(&self.wanted.iv_hash),
            copied(&self.wanted.url_re),
            self.wanted.owner,
        )
    }

    /// Goes on with what became of the statement.
    pub fn resume(self, written: Written) -> (r: Update)
        ensures
            r@ == self.wanted@.written(written@),
    {
        match sql::update_reply(self.wanted.source_id, written) {
            Ok(reply) => Update::Answer(Answer { wanted: self.wanted, reply }),
            Err(e) => Update::Done(Err(e)),
        }
    }
}

impl Answer {
    /// The message to the chat that the command came from.
    pub fn request(&self, core: &Core, chat: i64) -> (r: SendRequest)
        ensures
            r@ == tg_bot::plain_request(chat, self.reply@, tg_bot::ParseMode::Html),
    {
        core.tg.send(MyMessage::html_to(self.reply.clone(), chat))
    }

    /// Goes on when the message was sent, or with the reason why it was not.
    pub fn resume(self, sent: Result<(), String>) -> (r: Update)
        ensures
            r@ == self.wanted@.answered(text::outcome(sent)),
    {
        match sent {
            Err(e) => Update::Done(Err(e)),
            Ok(_) => match self.wanted.source_id {
                Some(_) => Update::Done(Ok(())),
                None => Update::ReadBack(
                    ReadBack { owner: self.wanted.owner, channel: self.wanted.channel },
                ),
            },
        }
    }
}

/// What is read of a source that was just added.
pub open spec fn fresh(row: Result<Option<Feed>, String>) -> Result<sql::FeedView, Seq<char>> {
    match row {
        Ok(Some(feed)) => Ok(feed@),
        Ok(None) => Err("Failed to read data on freshly inserted source."@),
        Err(e) => Err(e@),
    }
}

impl ReadBack {
    /// The statement that reads back the source that was added.
    pub fn query(&self) -> (r: Query)
        ensures
            r@ == sql::get_one_name_query(self.owner, self.channel@),
    {
        Conn::get_one_name(self.owner, self.channel.as_str())
    }

    /// Goes on with the source that was read back, or with the reason why it was not. It joins the
    /// feeds that are cached for the user; where there are none, they are loaded.
    pub fn resume(self, row: Result<Option<Feed>, String>, core: &mut Core) -> (r: Update)
        ensures
            final(core).tg == old(core).tg,
            final(core).db == old(core).db,
            final(core).running == old(core).running,
            cache::cache_wf(old(core).feeds) ==> cache::cache_wf(final(core).feeds),
            match fresh(row) {
                Err(e) => {
                    &&& r@ == UpdateView::Done(Err(e))
                    &&& cache::cached(final(core).feeds) == cache::cached(old(core).feeds)
                },
                Ok(feed) => {
                    ||| {
                        &&& r@ == UpdateView::Done(Ok(()))
                        &&& cache::feed_added(
                            cache::cached(old(core).feeds),
                            cache::cached(final(core).feeds),
                            self.owner,
                            feed.source_id,
                            feed.channel,
                        )
                    }
                    ||| {
                        &&& r@ == (UpdateView::Load { owner: self.owner })
                        &&& cache::cached(final(core).feeds) == cache::cached(old(core).feeds)
                    }
                },
            },
    {
        match row {
            Err(e) => Update::Done(Err(e)),
            Ok(None) => Update::Done(
                Err("Failed to read data on freshly inserted source.".to_owned()),
            ),
            Ok(Some(feed)) => match core.add_feed(self.owner, feed.source_id, feed.channel) {
                None => Update::Done(Ok(())),
                Some(_) => Update::Load(Reload { owner: self.owner }),
            },
        }
    }
}

impl Reload {
    /// The statement that loads the feeds.
    pub fn query(&self) -> (r: Query)
        ensures
            r@ == sql::get_feeds_query(self.owner),
    {
        Conn::get_feeds(self.owner)
    }

    /// Goes on with the feeds, which are cached, or with the reason why they were not loaded.
    pub fn resume(self, rows: Result<Vec<Feed>, String>, core: &mut Core) -> (r: Update)
        ensures
            final(core).tg == old(core).tg,
            final(core).db == old(core).db,
            final(core).running == old(core).running,
            cache::cache_wf(old(core).feeds) ==> cache::cache_wf(final(core).feeds),
            match rows {
                Ok(rows) => {
                    &&& r@ == UpdateView::Done(Ok(()))
                    &&& cache::cached(final(core).feeds) == cache::stored(
                        cache::cached(old(core).feeds),
                        cache::cache_limit(old(core).feeds),
                        self.owner,
                        cache::feeds_in(cache::row_views(rows@)),
                    )
                },
                Err(e) => {
                    &&& r@ == UpdateView::Done(Err(e@))
                    &&& cache::cached(final(core).feeds) == cache::cached(old(core).feeds)
                },
            },
    {
        match core.load_feeds(self.owner, rows) {
            Ok(_) => Update::Done(Ok(())),
            Err(e) => Update::Done(Err(e)),
        }
    }
}

/// Whether the words of a command from the channel on are in order: a channel name, a link with a
/// scheme that feeds have, an Instant View hash or none, and a substitution or none.
pub open spec fn words_in_order(
    words: Seq<Seq<char>>,
    at: int,
    scheme: Result<Seq<char>, Seq<char>>,
    refusal: Option<Seq<char>>,
) -> bool {
    &&& words.len() >= at + 2
    &&& rules::is_username(words[at])
    &&& scheme == Ok::<Seq<char>, Seq<char>>("http"@) || scheme == Ok::<Seq<char>, Seq<char>>(
        "https"@,
    )
    &&& words.len() > at + 2 ==> words[at + 2] == "-"@ || rules::is_iv_hash(words[at + 2])
    &&& words.len() > at + 3 ==> words[at + 3] == "-"@ || refusal is None
}

proof fn names_differ()
    ensures
        "/add"@ != "/update"@,
{
    reveal_strlit("/add");
    reveal_strlit("/update");
    assert("/add"@.len() != "/update"@.len());
}

/// A command is accepted if and only if it comes from a user, is `/add`, or `/update` with a number
/// in front, and its other words are in order.
pub proof fn accepts_what_is_in_order(
    command: Seq<char>,
    sender: Option<i64>,
    words: Seq<Seq<char>>,
    number: Result<i32, Seq<char>>,
    scheme: Result<Seq<char>, Seq<char>>,
    refusal: Option<Seq<char>>,
)
    ensures
        wanted_of(command, sender, words, number, scheme, refusal) is Ok <==> {
            &&& sender is Some
            &&& command == "/add"@ || (command == "/update"@ && words.len() > 0 && number is Ok)
            &&& words_in_order(words, channel_at(command), scheme, refusal)
        },
{
    names_differ();
}

/// What is written is what the user asked for, under the number of the user; a source is changed
/// with `/update` and added with `/add`.
pub proof fn writes_for_the_sender(
    command: Seq<char>,
    sender: Option<i64>,
    words: Seq<Seq<char>>,
    number: Result<i32, Seq<char>>,
    scheme: Result<Seq<char>, Seq<char>>,
    refusal: Option<Seq<char>>,
)
    ensures
        wanted_of(command, sender, words, number, scheme, refusal) matches Ok(wanted) ==> {
            &&& sender == Some(wanted.owner)
            &&& command == "/add"@ <==> wanted.source_id is None
            &&& wanted.source_id matches Some(id) ==> command == "/update"@ && number == Ok::<
                i32,
                Seq<char>,
            >(id)
            &&& wanted.iv_hash matches Some(hash) ==> rules::is_iv_hash(hash)
            &&& rules::is_username(wanted.channel)
        },
{
    names_differ();
}

/// What a command meets on its way to the database.
pub ghost struct Path {
    /// The user number of the bot.
    pub me: i64,
    pub chat: Result<i64, Seq<char>>,
    pub members: Result<Seq<Member>, Seq<char>>,
    pub connected: Result<(), Seq<char>>,
}

/// The stage at which a command from its first stage on meets the database or ends.
pub open spec fn arrives(u: UpdateView, p: Path) -> UpdateView
    decreases
            (match u {
                UpdateView::Locate(_) => 3int,
                UpdateView::Vet(_, _) => 2,
                UpdateView::Connect(_, _) => 1,
                _ => 0,
            }),
{
    match u {
        UpdateView::Locate(wanted) => arrives(wanted.located(p.chat), p),
        UpdateView::Vet(wanted, channel_id) => arrives(
            wanted.vetted(channel_id, p.me, p.members),
            p,
        ),
        UpdateView::Connect(wanted, channel_id) => wanted.connected(channel_id, p.connected),
        _ => u,
    }
}

/// Nothing is written unless the channel was found and both the bot and the user run it; then what
/// is written is what the user asked for, with the number of that channel.
pub proof fn only_administrators_write(wanted: WantedView, p: Path)
    ensures
        arrives(UpdateView::Locate(wanted), p) is Write <==> {
            &&& p.chat is Ok
            &&& p.members is Ok
            &&& runs_channel(p.members->Ok_0, p.me)
            &&& runs_channel(p.members->Ok_0, wanted.owner)
            &&& p.connected is Ok
        },
        arrives(UpdateView::Locate(wanted), p) is Write ==> arrives(UpdateView::Locate(wanted), p)
            == UpdateView::Write(wanted, p.chat->Ok_0),
        arrives(UpdateView::Locate(wanted), p) is Write || arrives(
            UpdateView::Locate(wanted),
            p,
        ) is Done,
{
    reveal_with_fuel(arrives, 4);
}

} // verus!

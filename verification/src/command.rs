//! The commands that users give to the bot.

use crate::bot::{self, Core, Feeds};
use crate::cache::{self, FeedList};
use crate::check::{self, Check};
use crate::sql::{self, Conn, Feed, List, Query};
use crate::text;
use crate::tg_bot::{self, Callback, MyMessage, SendRequest};
use vstd::prelude::*;

verus! {

/// What is said to senders who are no users.
pub const UNREAL: &'static str = "Ignoring unreal users.";

/// What is said where words are missing.
pub const AT_LEAST: &'static str = "Requires at least 3 parameters.";

/// The answer to `/start`.
pub const WELCOME: &'static str = "We are open\\. Probably\\. Visit [channel](https://t.me/rsstg_bot_help/3) for details\\.";

/// What is said of a channel name that is none, up to the name.
pub const NO_USERNAME: &'static str = "Usernames should be something like \"@\\[a\\-zA\\-Z]\\[a\\-zA\\-Z0\\-9\\_]+\", aren't they?\nNot ";

/// Answers `/start` with a link to the help.
pub fn start(core: &Core, chat: i64) -> (r: SendRequest)
    ensures
        r@ == tg_bot::plain_request(chat, WELCOME@, tg_bot::ParseMode::MarkdownV2),
{
    core.tg.send(MyMessage::text_to(WELCOME.to_owned(), chat))
}

/// Starts `/list`: the statement that reads the sources of the sender.
pub fn list(sender: Option<i64>) -> (r: Result<Query, String>)
    ensures
        match (sender, r) {
            (Some(owner), Ok(query)) => query@ == sql::get_list_query(owner),
            (None, Err(e)) => e@ == UNREAL@,
            _ => false,
        },
{
    match sender {
        Some(owner) => Ok(Conn::get_list(owner)),
        None => Err(UNREAL.to_owned()),
    }
}

/// Answers `/list` with the sources of the sender, where they could be read.
pub fn list_reply(core: &Core, rows: Result<Vec<List>, String>, chat: i64) -> (r: Result<
    SendRequest,
    String,
>)
    ensures
        match (rows, r) {
            (Ok(rows), Ok(request)) => request@ == tg_bot::plain_request(
                chat,
                bot::list_text(bot::list_views(rows@)),
                tg_bot::ParseMode::MarkdownV2,
            ),
            (Err(e), Err(f)) => e == f,
            _ => false,
        },
{
    match rows {
        Ok(rows) => Ok(core.tg.send(MyMessage::text_to(Core::list(&rows), chat))),
        Err(e) => Err(e),
    }
}

/// Starts `/test`: the sender, and the feeds of the sender as far as they are at hand.
pub fn test(core: &Core, sender: Option<i64>) -> (r: Result<(i64, Feeds), String>)
    ensures
        match (sender, r) {
            (Some(owner), Ok((user, Feeds::Cached(feeds)))) => {
                &&& user == owner
                &&& cache::cached(core.feeds).contains((owner, cache::feed_map(feeds@)))
            },
            (Some(owner), Ok((user, Feeds::Load(query)))) => {
                &&& user == owner
                &&& query@ == sql::get_feeds_query(owner)
            },
            (None, Err(e)) => e@ == UNREAL@,
            _ => false,
        },
        r matches Ok((user, feeds)) ==> call_ensures(Core::get_feeds, (core, user), feeds),
{
    match sender {
        Some(owner) => Ok((owner, core.get_feeds(owner))),
        None => Err(UNREAL.to_owned()),
    }
}

/// How a sender is named, by a user name where there is one.
pub open spec fn sender_text(username: Option<Seq<char>>) -> Seq<char> {
    match username {
        Some(name) => "Some(UserUsername("@ + text::quoted(name) + "))"@,
        None => "None"@,
    }
}

/// Answers `/test` with the first page of the feeds of the sender.
pub fn test_reply(core: &Core, feeds: &FeedList, username: Option<String>, chat: i64) -> (r: Result<
    SendRequest,
    String,
>)
    ensures
        r matches Ok(request) && request@ == (tg_bot::SendRequestView {
            to: chat,
            text: "List of feeds owned by "@ + sender_text(text::opt_text(username)) + ":"@,
            mode: tg_bot::ParseMode::Html,
            markup: Some(
                tg_bot::list_keyboard(cache::feed_listing(cache::feed_map(feeds@)), 0),
            ),
        }),
{
    match tg_bot::get_kb(&Callback::list("", 0), feeds) {
        Ok(kb) => {
            let name = match &username {
                Some(name) => text::cat3(
                    "Some(UserUsername(",
                    text::quote(name.as_str()).as_str(),
                    "))",
                ),
                None => "None".to_owned(),
            };
            let heading = text::cat3("List of feeds owned by ", name.as_str(), ":");
            Ok(core.tg.send(MyMessage::html_to_kb(heading, chat, kb)))
        },
        Err(e) => Err(e),
    }
}

/// What is done to one source by a statement.
#[derive(Clone, Copy, Debug, PartialEq, Eq, Structural)]
pub enum Deed {
    Clean,
    Enable,
    Delete,
    Disable,
}

/// A check of a source must run, with posts for its owner, who asks for it.
#[derive(Debug)]
pub struct Trial {
    pub id: i32,
    pub owner: i64,
}

/// A statement about a source must run.
#[derive(Debug)]
pub struct Errand {
    pub deed: Deed,
    pub id: i32,
    pub owner: i64,
}

/// The feeds of a user must be loaded before the user is answered.
#[derive(Debug)]
pub struct Reload {
    pub owner: i64,
    pub reply: String,
}

/// The user must be answered.
#[derive(Debug)]
pub struct Answer {
    pub reply: String,
}

/// A command about one source by its stage.
#[derive(Debug)]
pub enum Order {
    Check(Trial),
    Run(Errand),
    Load(Reload),
    Answer(Answer),
    /// The command has ended.
    Done(Result<(), String>),
}

/// An [`Order`] as characters.
pub ghost enum OrderView {
    Check { id: i32, owner: i64 },
    Run { deed: Deed, id: i32, owner: i64 },
    Load { owner: i64, reply: Seq<char> },
    Answer { reply: Seq<char> },
    Done(Result<(), Seq<char>>),
}

impl View for Order {
    type V = OrderView;

    open spec fn view(&self) -> OrderView {
        match self {
            Order::Check(s) => OrderView::Check { id: s.id, owner: s.owner },
            Order::Run(s) => OrderView::Run { deed: s.deed, id: s.id, owner: s.owner },
            Order::Load(s) => OrderView::Load { owner: s.owner, reply: s.reply@ },
            Order::Answer(s) => OrderView::Answer { reply: s.reply@ },
            Order::Done(r) => OrderView::Done(text::outcome(*r)),
        }
    }
}

/// The first stage of a command about the source with a number.
pub open spec fn order_named(command: Seq<char>, word: Seq<char>, id: i32, owner: i64) -> OrderView {
    if command == "/check"@ {
        OrderView::Check { id, owner }
    } else if command == "/clean"@ {
        OrderView::Run { deed: Deed::Clean, id, owner }
    } else if command == "/enable"@ {
        OrderView::Run { deed: Deed::Enable, id, owner }
    } else if command == "/delete"@ {
        OrderView::Run { deed: Deed::Delete, id, owner }
    } else if command == "/disable"@ {
        OrderView::Run { deed: Deed::Disable, id, owner }
    } else {
        OrderView::Done(
            Err("Command "@ + command + " ["@ + text::quoted(word) + "] not handled."@),
        )
    }
}

/// The first stage of a command about one source, when its only word was read as a number or could
/// not be.
pub open spec fn order_of(
    command: Seq<char>,
    sender: Option<i64>,
    words: Seq<Seq<char>>,
    number: Result<i32, Seq<char>>,
) -> OrderView {
    match sender {
        None => OrderView::Done(Err(UNREAL@)),
        Some(owner) => if words.len() != 1 {
            OrderView::Answer { reply: "This command needs exactly one number."@ }
        } else {
            match number {
                Err(e) => OrderView::Answer { reply: "I need a number.\n"@ + e },
                Ok(id) => order_named(command, words[0], id, owner),
            }
        },
    }
}

/// The number that a word stands for, or why it stands for none.
pub open spec fn number_of(word: Seq<char>) -> Result<i32, Seq<char>> {
    match text::i32_value(word) {
        Some(n) => Ok(n),
        None => Err(text::i32_refusal(word)),
    }
}

/// See [`order_of`].
pub fn order(
    command: &str,
    sender: Option<i64>,
    words: &Vec<String>,
    number: Result<i32, String>,
) -> (r: Order)
    ensures
        r@ == order_of(command@, sender, text::texts(words@), text::outcome(number)),
{
    let owner = match sender {
        Some(owner) => owner,
        None => return Order::Done(Err(UNREAL.to_owned())),
    };
    if words.len() != 1 {
        let reply = "This command needs exactly one number.".to_owned();
        return Order::Answer(Answer { reply });
    }
    let id = match number {
        Ok(id) => id,
        Err(e) => {
            let reply = text::cat("I need a number.\n", e.as_str());
            return Order::Answer(Answer { reply });
        },
    };
    if text::same(command, "/check") {
        Order::Check(Trial { id, owner })
    } else if text::same(command, "/clean") {
        Order::Run(Errand { deed: Deed::Clean, id, owner })
    } else if text::same(command, "/enable") {
        Order::Run(Errand { deed: Deed::Enable, id, owner })
    } else if text::same(command, "/delete") {
        Order::Run(Errand { deed: Deed::Delete, id, owner })
    } else if text::same(command, "/disable") {
        Order::Run(Errand { deed: Deed::Disable, id, owner })
    } else {
        let mut s = text::cat3("Command ", command, " [");
        s.append(text::quote(words[0].as_str()).as_str());
        s.append("] not handled.");
        Order::Done(Err(s))
    }
}

/// Starts a command about one source, with a connection to the database or with the reason why there
/// is none.
pub fn command(
    name: &str,
    connected: Result<(), String>,
    sender: Option<i64>,
    words: &Vec<String>,
) -> (r: Order)
    ensures
        r@ == match connected {
            Err(e) => OrderView::Done(Err(e@)),
            Ok(_) => order_of(
                name@,
                sender,
                text::texts(words@),
                number_of(text::texts(words@)[0]),
            ),
        },
{
    match connected {
        Err(e) => Order::Done(Err(e)),
        Ok(_) => {
            let number = if words.len() == 1 {
                text::parse_i32(words[0].as_str())
            } else {
                Ok(0)
            };
            order(name, sender, words, number)
        },
    }
}

impl Trial {
    /// The check that must run: on behalf of the user who asks for it.
    pub fn check(&self) -> (r: Check)
        ensures
            r@.wf(),
            r@ == (check::CheckView::Connect {
                id: self.id,
                owner: self.owner,
                live: false,
                since: None,
            }),
    {
        check::begin(self.id, self.owner, false, None)
    }

    /// Goes on when the check has ended.
    pub fn resume(self, checked: Result<String, String>) -> (r: Order)
        ensures
            r@ == match checked {
                Ok(reply) => OrderView::Answer { reply: reply@ },
                Err(e) => OrderView::Done(Err(text::because("Channel check failed."@, e@))),
            },
    {
        match checked {
            Ok(reply) => Order::Answer(Answer { reply }),
            Err(e) => Order::Done(Err(text::with_cause("Channel check failed.", e.as_str()))),
        }
    }
}

/// The statement for what is done to a source.
pub open spec fn deed_query(deed: Deed, id: i32, owner: i64) -> sql::QueryView {
    match deed {
        Deed::Clean => sql::clean_query(id, owner),
        Deed::Enable => sql::enable_query(id, owner),
        Deed::Delete => sql::delete_query(id, owner),
        Deed::Disable => sql::disable_query(id, owner),
    }
}

/// What the user is told when a statement has changed so many rows.
pub open spec fn deed_reply(deed: Deed, rows: u64) -> Result<Seq<char>, Seq<char>> {
    match deed {
        Deed::Clean => Ok(sql::clean_text(rows)),
        Deed::Enable => sql::switch_text(rows, "Source enabled."@),
        Deed::Delete => Ok(sql::delete_text(rows)),
        Deed::Disable => sql::switch_text(rows, "Source disabled."@),
    }
}

impl Errand {
    /// The statement that must run.
    pub fn query(&self) -> (r: Query)
        ensures
            r@ == deed_query(self.deed, self.id, self.owner),
    {
        match self.deed {
            Deed::Clean => Conn::clean(self.id, self.owner),
            Deed::Enable => Conn::enable(self.id, self.owner),
            Deed::Delete => Conn::delete(self.id, self.owner),
            Deed::Disable => Conn::disable(self.id, self.owner),
        }
    }

    fn reply(&self, rows: Result<u64, String>) -> (r: Result<String, String>)
        ensures
            text::text_outcome(r) == match rows {
                Ok(rows) => deed_reply(self.deed, rows),
                Err(e) => Err(e@),
            },
    {
        match rows {
            Ok(rows) => match self.deed {
                Deed::Clean => Ok(sql::clean_reply(rows)),
                Deed::Enable => sql::enable_reply(rows),
                Deed::Delete => Ok(sql::delete_reply(rows)),
                Deed::Disable => sql::disable_reply(rows),
            },
            Err(e) => Err(e),
        }
    }

    /// Goes on when the statement has changed so many rows, or with the reason why it did not run. A
    /// source that was removed leaves the cache too; where the cache does not have the feeds of its
    /// owner, they are loaded.
    pub fn resume(self, rows: Result<u64, String>, core: &mut Core) -> (r: Order)
        ensures
            final(core).tg == old(core).tg,
            final(core).db == old(core).db,
            final(core).running == old(core).running,
            cache::cache_wf(old(core).feeds) ==> cache::cache_wf(final(core).feeds),
            match (match rows {
                Ok(rows) => deed_reply(self.deed, rows),
                Err(e) => Err(e@),
            }) {
                Err(e) => {
                    &&& r@ == OrderView::Done(Err(e))
                    &&& cache::cached(final(core).feeds) == cache::cached(old(core).feeds)
                },
                Ok(reply) => if self.deed != Deed::Delete {
                    &&& r@ == (OrderView::Answer { reply })
                    &&& cache::cached(final(core).feeds) == cache::cached(old(core).feeds)
                } else {
                    ||| {
                        &&& r@ == (OrderView::Answer { reply })
                        &&& cache::feed_removed(
                            cache::cached(old(core).feeds),
                            cache::cached(final(core).feeds),
                            self.owner,
                            self.id,
                        )
                    }
                    ||| {
                        &&& r@ == (OrderView::Load { owner: self.owner, reply })
                        &&& cache::cached(final(core).feeds) == cache::cached(old(core).feeds)
                    }
                },
            },
    {
        match self.reply(rows) {
            Err(e) => Order::Done(Err(e)),
            Ok(reply) => match self.deed {
                Deed::Delete => match core.rm_feed(self.owner, self.id) {
                    None => Order::Answer(Answer { reply }),
                    Some(_) => Order::Load(Reload { owner: self.owner, reply }),
                },
                _ => Order::Answer(Answer { reply }),
            },
        }
    }
}

impl Reload {
    /// The statement that loads the feeds.
    pub fn query(&self) -> (r: Query)
        ensures
            r@ == sql::get_feeds_query(self.owner),
    {
        Conn::get_feeds(self.owner)
    }

    /// Goes on with the feeds, which are cached, or with the reason why they were not loaded.
    pub fn resume(self, rows: Result<Vec<Feed>, String>, core: &mut Core) -> (r: Order)
        ensures
            final(core).tg == old(core).tg,
            final(core).db == old(core).db,
            final(core).running == old(core).running,
            cache::cache_wf(old(core).feeds) ==> cache::cache_wf(final(core).feeds),
            match rows {
                Ok(rows) => {
                    &&& r@ == (OrderView::Answer { reply: self.reply@ })
                    &&& cache::cached(final(core).feeds) == cache::stored(
                        cache::cached(old(core).feeds),
                        cache::cache_limit(old(core).feeds),
                        self.owner,
                        cache::feeds_in(cache::row_views(rows@)),
                    )
                },
                Err(e) => {
                    &&& r@ == OrderView::Done(Err(e@))
                    &&& cache::cached(final(core).feeds) == cache::cached(old(core).feeds)
                },
            },
    {
        match core.load_feeds(self.owner, rows) {
            Ok(_) => Order::Answer(Answer { reply: self.reply }),
            Err(e) => Order::Done(Err(e)),
        }
    }
}

impl Answer {
    /// The message to the chat that the command came from.
    pub fn request(&self, core: &Core, chat: i64) -> (r: SendRequest)
        ensures
            r@ == tg_bot::plain_request(chat, self.reply@, tg_bot::ParseMode::Html),
    {
        core.tg.send(MyMessage::html_to(self.reply.clone(), chat))
    }

    /// Goes on when the message was sent, or with the reason why it was not.
    pub fn resume(self, sent: Result<(), String>) -> (r: Order)
        ensures
            r@ == OrderView::Done(text::outcome(sent)),
    {
        Order::Done(sent)
    }
}

/// The statement by which a command about one source reaches that source: the one that it runs, or
/// the one by which its check reads the source.
pub open spec fn reaching_query(order: OrderView) -> Option<sql::QueryView> {
    match order {
        OrderView::Check { id, owner } => Some(sql::get_source_query(id, owner)),
        OrderView::Run { deed, id, owner } => Some(deed_query(deed, id, owner)),
        _ => None,
    }
}

/// A command about one source reaches a source of its sender only, whether it checks the source or
/// runs a statement on it.
pub proof fn errands_stay_with_the_sender(
    command: Seq<char>,
    sender: Option<i64>,
    words: Seq<Seq<char>>,
    number: Result<i32, Seq<char>>,
)
    ensures
        order_of(command, sender, words, number) matches OrderView::Check { id, owner } ==> {
            &&& sender == Some(owner)
            &&& number == Ok::<i32, Seq<char>>(id)
        },
        order_of(command, sender, words, number) matches OrderView::Run { deed, id, owner } ==> {
            &&& sender == Some(owner)
            &&& number == Ok::<i32, Seq<char>>(id)
        },
        reaching_query(order_of(command, sender, words, number)) matches Some(query) ==> {
            &&& sender matches Some(owner)
            &&& number matches Ok(id)
            &&& query.binds == seq![sql::BindView::Int(id), sql::BindView::Big(owner)]
        },
{
}

} // verus!

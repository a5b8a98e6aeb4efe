//! Checking a source: reading its feed, sending the posts that are new and recording them.
//!
//! A check goes through stages. Each stage knows what it waits for, and the answer leads to the next
//! stage, until the check is done.

use crate::feed::{self, Posts};
use crate::moment::{self, Moment, Stamp};
use crate::rules;
use crate::sql::{self, Conn, Query, Source};
use crate::text;
use crate::tg_bot::{self, MyMessage, SendRequest, Tg};
use crate::token::{self, Running, Token};
use vstd::prelude::*;

verus! {

/// The header that asks a server for a feed only if it has changed.
pub const MODIFIED_SINCE: &'static str = "If-Modified-Since";

/// What the server answered.
#[derive(Debug)]
pub struct Response {
    pub status: u16,
    pub content: Vec<u8>,
}

/// A request for a feed.
#[derive(Debug)]
pub struct FetchRequest {
    pub url: String,
    /// A header by its name and value.
    pub header: Option<(&'static str, String)>,
}

/// What is asked of the server for a feed as characters: the link, and the header by its name and
/// value.
pub ghost struct FetchRequestView {
    pub url: Seq<char>,
    pub header: Option<(Seq<char>, Seq<char>)>,
}

impl View for FetchRequest {
    type V = FetchRequestView;

    open spec fn view(&self) -> FetchRequestView {
        FetchRequestView {
            url: self.url@,
            header: match self.header {
                Some((name, value)) => Some((name@, value@)),
                None => None,
            },
        }
    }
}

/// The way through the posts of a feed.
#[derive(Debug)]
pub struct Tour {
    pub token: Token,
    /// The chat that posts are sent to.
    pub destination: i64,
    pub iv_hash: Option<String>,
    pub url_re: Option<String>,
    /// The posts by their moments and links.
    pub links: Vec<(Moment, String)>,
    /// The post whose turn it is.
    pub at: usize,
    /// How many posts were sent and recorded.
    pub posted: usize,
    /// The moment of the newest post that was new.
    pub this_fetch: Option<Moment>,
}

/// A [`Tour`] as characters.
pub ghost struct TourView {
    pub id: i32,
    pub destination: i64,
    pub iv_hash: Option<Seq<char>>,
    pub url_re: Option<Seq<char>>,
    pub links: Seq<(Moment, Seq<char>)>,
    pub at: nat,
    pub posted: nat,
    pub this_fetch: Option<Moment>,
}

impl View for Tour {
    type V = TourView;

    open spec fn view(&self) -> TourView {
        TourView {
            id: self.token.of(),
            destination: self.destination,
            iv_hash: text::opt_text(self.iv_hash),
            url_re: text::opt_text(self.url_re),
            links: feed::link_rows(self.links@),
            at: self.at as nat,
            posted: self.posted as nat,
            this_fetch: self.this_fetch,
        }
    }
}

impl TourView {
    /// Not more posts were sent than were looked at.
    pub open spec fn wf(self) -> bool {
        self.posted <= self.at <= self.links.len()
    }

    /// Whether it is some post's turn.
    pub open spec fn has_post(self) -> bool {
        self.at < self.links.len()
    }

    /// The moment of the post whose turn it is.
    pub open spec fn date(self) -> Moment {
        self.links[self.at as int].0
    }

    /// The link of the post whose turn it is, after the substitution of the source.
    pub open spec fn link(self) -> Result<Seq<char>, Seq<char>> {
        rules::rewritten(self.url_re, self.links[self.at as int].1)
    }

    /// The turn passes to the next post.
    pub open spec fn passed(self) -> TourView {
        TourView { at: self.at + 1, ..self }
    }

    /// One more post was sent and recorded.
    pub open spec fn counted(self) -> TourView {
        TourView { at: self.at + 1, posted: self.posted + 1, ..self }
    }

    /// The post whose turn it is was found to be new.
    pub open spec fn news(self) -> TourView {
        let newest = match self.this_fetch {
            None => true,
            Some(m) => moment::before(m, self.date()),
        };
        if newest {
            TourView { this_fetch: Some(self.date()), ..self }
        } else {
            self
        }
    }

    /// What is sent for a post with this link: the link, under its Instant View where the source has
    /// one.
    pub open spec fn message(self, url: Seq<char>) -> Seq<char> {
        match self.iv_hash {
            Some(hash) => "<a href=\"https://t.me/iv?url="@ + url + "&rhash="@ + hash + "\"> </a>"@
                + url,
            None => url,
        }
    }

    /// The stage of a tour when the link of the post whose turn it is was worked out, or could not
    /// be.
    pub open spec fn offered(self, url: Result<Seq<char>, Seq<char>>) -> CheckView {
        match url {
            Ok(url) => CheckView::Probe(self, url),
            Err(e) => CheckView::Done(Err(e)),
        }
    }

    /// The stage of a tour at the turn of its next post, or at its end.
    pub open spec fn next(self) -> CheckView {
        if self.has_post() {
            self.offered(self.link())
        } else {
            CheckView::Done(Ok("Posted: "@ + text::digits(self.posted)))
        }
    }

    /// The stage after the database was asked whether a post was sent before.
    pub open spec fn probed(self, url: Seq<char>, seen: Result<Option<bool>, Seq<char>>) -> CheckView {
        match seen {
            Err(e) => CheckView::Done(Err(e)),
            Ok(Some(false)) => CheckView::Send(self.news(), url),
            Ok(_) => self.passed().next(),
        }
    }

    /// The stage after a post was to be sent.
    pub open spec fn sent(self, url: Seq<char>, sent: Result<(), Seq<char>>) -> CheckView {
        match sent {
            Err(e) => CheckView::Done(Err(e)),
            Ok(_) => CheckView::Record(self, url),
        }
    }

    /// The stage after a post was to be recorded.
    pub open spec fn recorded(self, recorded: Result<(), Seq<char>>) -> CheckView {
        match recorded {
            Err(e) => CheckView::Done(Err(e)),
            Ok(_) => self.counted().next(),
        }
    }
}

/// A connection to the database is needed.
#[derive(Debug)]
pub struct Connect {
    pub id: i32,
    pub owner: i64,
    pub live: bool,
    /// When the feed was last looked at, as text.
    pub since: Option<String>,
}

/// The row of the source is needed.
#[derive(Debug)]
pub struct ReadSource {
    pub token: Token,
    pub owner: i64,
    pub live: bool,
    pub since: Option<String>,
}

/// It must be recorded that the source is looked at.
#[derive(Debug)]
pub struct MarkScrape {
    pub token: Token,
    pub live: bool,
    pub since: Option<String>,
    pub source: Source,
}

/// The feed must be fetched.
#[derive(Debug)]
pub struct Fetch {
    pub token: Token,
    pub destination: i64,
    pub since: Option<String>,
    pub source: Source,
}

/// The database must be asked whether a post was sent before.
#[derive(Debug)]
pub struct Probe {
    pub tour: Tour,
    pub url: String,
}

/// A post must be sent.
#[derive(Debug)]
pub struct Sending {
    pub tour: Tour,
    pub url: String,
}

/// It must be recorded that a post was sent.
#[derive(Debug)]
pub struct Record {
    pub tour: Tour,
    pub url: String,
}

/// A check by its stage.
#[derive(Debug)]
pub enum Check {
    Connect(Connect),
    ReadSource(ReadSource),
    MarkScrape(MarkScrape),
    Fetch(Fetch),
    Probe(Probe),
    Send(Sending),
    Record(Record),
    /// What the user is told in the end.
    Done(Result<String, String>),
}

/// A [`Check`] as characters.
pub ghost enum CheckView {
    Connect { id: i32, owner: i64, live: bool, since: Option<Seq<char>> },
    ReadSource { id: i32, owner: i64, live: bool, since: Option<Seq<char>> },
    MarkScrape { id: i32, live: bool, since: Option<Seq<char>>, source: sql::SourceView },
    Fetch { id: i32, destination: i64, since: Option<Seq<char>>, source: sql::SourceView },
    Probe(TourView, Seq<char>),
    Send(TourView, Seq<char>),
    Record(TourView, Seq<char>),
    Done(Result<Seq<char>, Seq<char>>),
}

impl View for Check {
    type V = CheckView;

    open spec fn view(&self) -> CheckView {
        match self {
            Check::Connect(s) => CheckView::Connect {
                id: s.id,
                owner: s.owner,
                live: s.live,
                since: text::opt_text(s.since),
            },
            Check::ReadSource(s) => CheckView::ReadSource {
                id: s.token.of(),
                owner: s.owner,
                live: s.live,
                since: text::opt_text(s.since),
            },
            Check::MarkScrape(s) => CheckView::MarkScrape {
                id: s.token.of(),
                live: s.live,
                since: text::opt_text(s.since),
                source: s.source@,
            },
            Check::Fetch(s) => CheckView::Fetch {
                id: s.token.of(),
                destination: s.destination,
                since: text::opt_text(s.since),
                source: s.source@,
            },
            Check::Probe(s) => CheckView::Probe(s.tour@, s.url@),
            Check::Send(s) => CheckView::Send(s.tour@, s.url@),
            Check::Record(s) => CheckView::Record(s.tour@, s.url@),
            Check::Done(r) => CheckView::Done(text::text_outcome(*r)),
        }
    }
}

impl CheckView {
    /// In the stages of a tour it is some post's turn, and not more posts were sent than were looked
    /// at.
    pub open spec fn wf(self) -> bool {
        match self {
            CheckView::Probe(t, _) => t.wf() && t.has_post(),
            CheckView::Send(t, _) => t.wf() && t.has_post(),
            CheckView::Record(t, _) => t.wf() && t.has_post(),
            _ => true,
        }
    }

    /// The stage after a connection was asked for, and the sources that are being checked then.
    pub open spec fn after_connect(
        self,
        connected: Result<(), Seq<char>>,
        running: Set<i32>,
    ) -> (CheckView, Set<i32>) {
        match (self, connected) {
            (_, Err(e)) => (CheckView::Done(Err(e)), running),
            (CheckView::Connect { id, owner, live, since }, Ok(_)) => match token::taken(
                running,
                id,
            ) {
                (Err(e), left) => (CheckView::Done(Err(e)), left),
                (Ok(_), left) => (CheckView::ReadSource { id, owner, live, since }, left),
            },
            _ => (self, running),
        }
    }

    /// The stage after the row of the source was asked for.
    pub open spec fn after_row(self, row: Result<sql::SourceView, Seq<char>>) -> CheckView {
        match (self, row) {
            (_, Err(e)) => CheckView::Done(Err(e)),
            (CheckView::ReadSource { id, owner, live, since }, Ok(source)) => CheckView::MarkScrape {
                id,
                live,
                since,
                source,
            },
            _ => self,
        }
    }

    /// The stage after it was to be recorded that the source is looked at.
    pub open spec fn after_mark(self, marked: Result<(), Seq<char>>) -> CheckView {
        match (self, marked) {
            (_, Err(e)) => CheckView::Done(Err(e)),
            (CheckView::MarkScrape { id, live, since, source }, Ok(_)) => CheckView::Fetch {
                id,
                destination: destination_of(source, live),
                since,
                source,
            },
            _ => self,
        }
    }

    /// The stage after the feed was asked for.
    pub open spec fn after_response(self, response: Result<(u16, Seq<u8>), Seq<char>>) -> CheckView {
        match (self, response) {
            (_, Err(e)) => CheckView::Done(Err(e)),
            (CheckView::Fetch { id, destination, since, source }, Ok((status, content))) => digested(
                id,
                destination,
                source,
                feed::content_posts(source.url, status, content),
            ),
            _ => self,
        }
    }
}

/// The sources that are being checked, after a check of one of them has gone on to a stage: the
/// token is kept until the check is done.
pub open spec fn settled(running: Set<i32>, id: i32, check: CheckView) -> Set<i32> {
    if check is Done {
        token::given_back(running, id)
    } else {
        running
    }
}

/// A source or an error text as characters.
pub open spec fn row_outcome(r: Result<Source, String>) -> Result<sql::SourceView, Seq<char>> {
    match r {
        Ok(source) => Ok(source@),
        Err(e) => Err(e@),
    }
}

/// A status and content, or an error text, as characters.
pub open spec fn response_outcome(r: Result<Response, String>) -> Result<
    (u16, Seq<u8>),
    Seq<char>,
> {
    match r {
        Ok(response) => Ok((response.status, response.content@)),
        Err(e) => Err(e@),
    }
}

/// Where the posts of a source are sent: to its channel, or to its owner when it is only tried out.
pub open spec fn destination_of(source: sql::SourceView, live: bool) -> i64 {
    if live {
        source.channel_id
    } else {
        source.owner
    }
}

/// The tour of the posts of a source before its first post.
pub open spec fn tour_of(
    id: i32,
    destination: i64,
    source: sql::SourceView,
    links: Seq<(Moment, Seq<char>)>,
) -> TourView {
    TourView {
        id,
        destination,
        iv_hash: source.iv_hash,
        url_re: source.url_re,
        links,
        at: 0,
        posted: 0,
        this_fetch: None,
    }
}

/// The stage after the posts of a feed were read, or could not be.
pub open spec fn digested(
    id: i32,
    destination: i64,
    source: sql::SourceView,
    posts: Result<Seq<(Moment, feed::PostView)>, Seq<char>>,
) -> CheckView {
    match posts {
        Err(e) => CheckView::Done(Err(e)),
        Ok(posts) => tour_of(id, destination, source, feed::post_links(posts)).next(),
    }
}

fn finish(token: Token, running: &mut Running, outcome: Result<String, String>) -> (r: Check)
    ensures
        r@ == CheckView::Done(text::text_outcome(outcome)),
        final(running)@ == token::given_back(old(running)@, token.of()),
{
    token.release(running);
    Check::Done(outcome)
}

impl Connect {
    /// Goes on with a connection, or with the reason why there is none. The token of the source is
    /// taken here.
    pub fn resume(self, connected: Result<(), String>, running: &mut Running) -> (r: Check)
        ensures
            r@.wf(),
            (r@, final(running)@) == Check::Connect(self)@.after_connect(
                text::outcome(connected),
                old(running)@,
            ),
    {
        match connected {
            Err(e) => Check::Done(Err(e)),
            Ok(_) => match Token::new(running, self.id) {
                Err(e) => Check::Done(Err(e)),
                Ok(token) => Check::ReadSource(
                    ReadSource { token, owner: self.owner, live: self.live, since: self.since },
                ),
            },
        }
    }
}

impl ReadSource {
    /// The statement that reads the source.
    pub fn query(&self) -> (r: Query)
        ensures
            r@ == sql::get_source_query(self.token.of(), self.owner),
    {
        Conn::get_source(self.token.id(), self.owner)
    }

    /// Goes on with the source, or with the reason why it could not be read.
    pub fn resume(self, row: Result<Source, String>, running: &mut Running) -> (r: Check)
        ensures
            r@.wf(),
            r@ == Check::ReadSource(self)@.after_row(row_outcome(row)),
            final(running)@ == settled(old(running)@, self.token.of(), r@),
    {
        match row {
            Err(e) => finish(self.token, running, Err(e)),
            Ok(source) => Check::MarkScrape(
                MarkScrape { token: self.token, live: self.live, since: self.since, source },
            ),
        }
    }
}

impl MarkScrape {
    /// The statement that records that the source is looked at.
    pub fn query(&self) -> (r: Query)
        ensures
            r@ == sql::set_scrape_query(self.token.of() as i64),
    {
        Conn::set_scrape(self.token.id() as i64)
    }

    /// Goes on when that was recorded, or with the reason why it was not.
    pub fn resume(self, marked: Result<(), String>, running: &mut Running) -> (r: Check)
        ensures
            r@.wf(),
            r@ == Check::MarkScrape(self)@.after_mark(text::outcome(marked)),
            final(running)@ == settled(old(running)@, self.token.of(), r@),
    {
        match marked {
            Err(e) => finish(self.token, running, Err(e)),
            Ok(_) => {
                let destination = if self.live {
                    self.source.channel_id
                } else {
                    self.source.owner
                };
                Check::Fetch(
                    Fetch { token: self.token, destination, since: self.since, source: self.source },
                )
            },
        }
    }
}

impl Fetch {
    /// What to ask the server of the feed for: the feed, if it has changed since it was last looked
    /// at.
    pub fn request(&self) -> (r: FetchRequest)
        ensures
            r@ == (FetchRequestView {
                url: self.source.url@,
                header: match self.since {
                    Some(since) => Some((MODIFIED_SINCE@, since@)),
                    None => None,
                },
            }),
    {
        FetchRequest {
            url: self.source.url.clone(),
            header: match &self.since {
                Some(since) => Some((MODIFIED_SINCE, since.clone())),
                None => None,
            },
        }
    }

    /// Goes on with the posts of the feed, or with the reason why they could not be read.
    pub fn digest(self, posts: Result<Posts, String>, running: &mut Running) -> (r: Check)
        ensures
            r@.wf(),
            r@ == digested(
                self.token.of(),
                self.destination,
                self.source@,
                feed::posts_outcome(posts),
            ),
            final(running)@ == settled(old(running)@, self.token.of(), r@),
    {
        match posts {
            Err(e) => finish(self.token, running, Err(e)),
            Ok(posts) => {
                let tour = Tour {
                    token: self.token,
                    destination: self.destination,
                    iv_hash: self.source.iv_hash,
                    url_re: self.source.url_re,
                    links: feed::list_links(&posts),
                    at: 0,
                    posted: 0,
                    this_fetch: None,
                };
                tour.next(running)
            },
        }
    }

    /// Goes on with what the server answered, or with the reason why it did not.
    pub fn resume(self, response: Result<Response, String>, running: &mut Running) -> (r: Check)
        ensures
            r@.wf(),
            r@ == Check::Fetch(self)@.after_response(response_outcome(response)),
            final(running)@ == settled(old(running)@, self.token.of(), r@),
    {
        match response {
            Err(e) => finish(self.token, running, Err(e)),
            Ok(response) => {
                let posts = feed::posts_in(
                    self.source.url.as_str(),
                    response.status,
                    response.content.as_slice(),
                );
                self.digest(posts, running)
            },
        }
    }
}

impl Tour {
    /// Goes on with the link of the post whose turn it is, or with the reason why it could not be
    /// worked out.
    pub fn offer(self, url: Result<String, String>, running: &mut Running) -> (r: Check)
        requires
            self@.wf(),
            self@.has_post(),
        ensures
            r@.wf(),
            r@ == self@.offered(text::text_outcome(url)),
            final(running)@ == settled(old(running)@, self.token.of(), r@),
    {
        match url {
            Ok(url) => Check::Probe(Probe { tour: self, url }),
            Err(e) => finish(self.token, running, Err(e)),
        }
    }

    /// Goes on to the post whose turn it is, or to the end of the check.
    pub fn next(self, running: &mut Running) -> (r: Check)
        requires
            self@.wf(),
        ensures
            r@.wf(),
            r@ == self@.next(),
            final(running)@ == settled(old(running)@, self.token.of(), r@),
    {
        if self.at < self.links.len() {
            let url = rules::rewrite(&self.url_re, self.links[self.at].1.as_str());
            self.offer(url, running)
        } else {
            let count = text::digits_text(self.posted as u64);
            finish(self.token, running, Ok(text::cat("Posted: ", count.as_str())))
        }
    }
}

impl Probe {
    /// The statement that asks whether the post was sent before.
    pub fn query(&self) -> (r: Query)
        ensures
            r@ == sql::post_exists_query(self.url@, self.tour.token.of() as i64),
    {
        Conn::post_exists(self.url.as_str(), self.tour.token.id() as i64)
    }

    /// Goes on with the answer, or with the reason why there is none. Only a post that is known to
    /// be new is sent.
    pub fn resume(self, seen: Result<Option<bool>, String>, running: &mut Running) -> (r: Check)
        requires
            self.tour@.wf(),
            self.tour@.has_post(),
        ensures
            r@.wf(),
            r@ == self.tour@.probed(self.url@, text::outcome(seen)),
            final(running)@ == settled(old(running)@, self.tour.token.of(), r@),
    {
        let mut tour = self.tour;
        match seen {
            Err(e) => finish(tour.token, running, Err(e)),
            Ok(Some(false)) => {
                let date = tour.links[tour.at].0;
                let newest = match tour.this_fetch {
                    None => true,
                    Some(m) => moment::is_before(m, date),
                };
                if newest {
                    tour.this_fetch = Some(date);
                }
                Check::Send(Sending { tour, url: self.url })
            },
            Ok(_) => {
                assert(tour.at < tour.links.len());
                tour.at = tour.at + 1;
                tour.next(running)
            },
        }
    }
}

impl Sending {
    /// What the bot is to send.
    pub fn request(&self, tg: &Tg) -> (r: SendRequest)
        ensures
            r@ == tg_bot::plain_request(
                self.tour.destination,
                self.tour@.message(self.url@),
                tg_bot::ParseMode::Html,
            ),
    {
        let message = match &self.tour.iv_hash {
            Some(hash) => {
                let mut s = "<a href=\"https://t.me/iv?url=".to_owned();
                s.append(self.url.as_str());
                s.append("&rhash=");
                s.append(hash.as_str());
                s.append("\"> </a>");
                s.append(self.url.as_str());
                s
            },
            None => self.url.clone(),
        };
        tg.send(MyMessage::html_to(message, self.tour.destination))
    }

    /// Goes on when the post was sent, or with the reason why it was not.
    pub fn resume(self, sent: Result<(), String>, running: &mut Running) -> (r: Check)
        requires
            self.tour@.wf(),
            self.tour@.has_post(),
        ensures
            r@.wf(),
            r@ == self.tour@.sent(self.url@, text::outcome(sent)),
            final(running)@ == settled(old(running)@, self.tour.token.of(), r@),
    {
        match sent {
            Err(e) => finish(self.tour.token, running, Err(e)),
            Ok(_) => Check::Record(Record { tour: self.tour, url: self.url }),
        }
    }
}

impl Record {
    /// The statement that records that the post was sent.
    pub fn query(&self) -> (r: Query)
        requires
            self.tour@.has_post(),
        ensures
            r@ == sql::add_post_query(self.tour.token.of(), self.tour@.date(), self.url@),
    {
        Conn::add_post(
            self.tour.token.id(),
            self.tour.links[self.tour.at].0,
            self.url.as_str(),
        )
    }

    /// Goes on when that was recorded, or with the reason why it was not.
    pub fn resume(self, recorded: Result<(), String>, running: &mut Running) -> (r: Check)
        requires
            self.tour@.wf(),
            self.tour@.has_post(),
        ensures
            r@.wf(),
            r@ == self.tour@.recorded(text::outcome(recorded)),
            final(running)@ == settled(old(running)@, self.tour.token.of(), r@),
    {
        let mut tour = self.tour;
        match recorded {
            Err(e) => finish(tour.token, running, Err(e)),
            Ok(_) => {
                assert(tour.at < tour.links.len());
                tour.at = tour.at + 1;
                tour.posted = tour.posted + 1;
                tour.next(running)
            },
        }
    }
}

/// When a source was last looked at, as a server is told of it.
pub open spec fn since_text(last_scrape: Option<Stamp>) -> Option<Seq<char>> {
    match last_scrape {
        Some(stamp) => Some(moment::rfc2822_text(stamp.at.0, stamp.offset)),
        None => None,
    }
}

/// Starts the check of a source.
pub fn begin(id: i32, owner: i64, live: bool, last_scrape: Option<Stamp>) -> (r: Check)
    requires
        last_scrape is Some ==> last_scrape->0.printable(),
    ensures
        r@.wf(),
        r@ == (CheckView::Connect { id, owner, live, since: since_text(last_scrape) }),
{
    let since = match last_scrape {
        Some(stamp) => Some(moment::to_rfc2822(stamp.at.0, stamp.offset)),
        None => None,
    };
    Check::Connect(Connect { id, owner, live, since })
}

} // verus!

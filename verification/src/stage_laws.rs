//! What holds of the stages of a check: what each of them asks for, and where its answer leads.

use crate::check::{
    Check, Connect, Fetch, FetchRequest, MarkScrape, Probe, ReadSource, Record, Response, Sending, Tour,
};
use crate::feed::{self, Posts};
use crate::moment::Moment;
use crate::rules;
use crate::sql::{Bind, Query, Source};
use crate::sql_laws::{self, big_at, int_at, reveal_query, text_at};
use crate::text;
use crate::text_laws::chars;
use crate::tg_bot::{ParseMode, SendRequest, Tg};
use crate::token::{Running, Token};
use vstd::prelude::*;

verus! {

/// Whether a check has ended with a reason.
pub open spec fn fails(c: Check, reason: Seq<char>) -> bool {
    c matches Check::Done(Err(e)) && e@ == reason
}

/// Whether a check has ended well with a number of posts.
pub open spec fn posted(c: Check, count: nat) -> bool {
    c matches Check::Done(Ok(t)) && t@ == "Posted: "@ + text::digits(count)
}

/// The token of a source is taken if and only if nobody has it, and only that token changes hands.
pub proof fn tokens_are_taken_once(m: &mut Running, id: i32, r: Result<Token, String>)
    requires
        call_ensures(Token::new, (m, id), r),
    ensures
        r is Ok <==> !old(m)@.contains(id),
        r matches Ok(token) ==> token.of() == id,
        r matches Err(e) ==> e@ == "Token already taken"@,
        final(m)@.contains(id),
        forall|other: i32|
            other != id ==> (#[trigger] final(m)@.contains(other) <==> old(m)@.contains(other)),
{
}

/// A token that is given back can be taken again, and only that token changes hands.
pub proof fn tokens_are_given_back(token: Token, m: &mut Running)
    requires
        call_ensures(Token::release, (token, m), ()),
    ensures
        !final(m)@.contains(token.of()),
        forall|other: i32|
            other != token.of() ==> (#[trigger] final(m)@.contains(other) <==> old(m)@.contains(
                other,
            )),
{
}

/// A token knows its source.
pub proof fn tokens_know_their_source(token: &Token, id: i32)
    requires
        call_ensures(Token::id, (token,), id),
    ensures
        id == token.of(),
{
}

/// Whether the token of a source, and no other, is given back.
pub open spec fn freed(before: Set<i32>, after: Set<i32>, id: i32) -> bool {
    &&& !after.contains(id)
    &&& forall|other: i32| other != id ==> (#[trigger] after.contains(other) <==> before.contains(other))
}

/// A check goes on with a connection once it has the token of its source, and knows the source, the
/// owner, the purpose and the date that it was started with; it ends where there is no connection or
/// where the source is being checked.
pub proof fn connected_checks_hold_the_token(
    c: Connect,
    connected: Result<(), String>,
    m: &mut Running,
    r: Check,
)
    requires
        call_ensures(Connect::resume, (c, connected, m), r),
    ensures
        connected matches Err(e) ==> fails(r, e@) && final(m)@ == old(m)@,
        connected is Ok && old(m)@.contains(c.id) ==> {
            &&& fails(r, "Token already taken"@)
            &&& final(m)@ == old(m)@
        },
        connected is Ok && !old(m)@.contains(c.id) ==> {
            &&& r is ReadSource
            &&& r->ReadSource_0.token.of() == c.id
            &&& r->ReadSource_0.owner == c.owner
            &&& r->ReadSource_0.live == c.live
            &&& chars(r->ReadSource_0.since) == chars(c.since)
            &&& final(m)@ =~= old(m)@.insert(c.id)
        },
{
}

/// A check reads the source whose token it holds, as one of the owner that it was started for, and
/// goes on with the row as it is; where there is none it ends and gives the token back.
pub proof fn checks_read_their_source(
    s: &ReadSource,
    q: Query,
    s1: ReadSource,
    row: Result<Source, String>,
    m: &mut Running,
    r: Check,
)
    requires
        call_ensures(ReadSource::query, (s,), q),
        call_ensures(ReadSource::resume, (s1, row, m), r),
    ensures
        q.sql@
            == "select channel_id, url, iv_hash, owner, url_re from rsstg_source where source_id = $1 and owner = $2"@,
        q.binds@.len() == 2,
        int_at(q, 1, s.token.of()),
        big_at(q, 2, s.owner),
        row matches Err(e) ==> fails(r, e@) && freed(old(m)@, final(m)@, s1.token.of()),
        row matches Ok(source) ==> {
            &&& r is MarkScrape
            &&& r->MarkScrape_0.token.of() == s1.token.of()
            &&& r->MarkScrape_0.live == s1.live
            &&& chars(r->MarkScrape_0.since) == chars(s1.since)
            &&& r->MarkScrape_0.source.channel_id == source.channel_id
            &&& r->MarkScrape_0.source.owner == source.owner
            &&& r->MarkScrape_0.source.url@ == source.url@
            &&& chars(r->MarkScrape_0.source.iv_hash) == chars(source.iv_hash)
            &&& chars(r->MarkScrape_0.source.url_re) == chars(source.url_re)
            &&& final(m)@ == old(m)@
        },
{
    reveal_query(q);
}

/// A check marks the source whose token it holds, and goes on to fetch it with posts for the channel
/// of the source where it is a real one, and for the owner of the source where it is a trial.
pub proof fn checks_mark_their_source(
    s: &MarkScrape,
    q: Query,
    s1: MarkScrape,
    marked: Result<(), String>,
    m: &mut Running,
    r: Check,
)
    requires
        call_ensures(MarkScrape::query, (s,), q),
        call_ensures(MarkScrape::resume, (s1, marked, m), r),
    ensures
        q.sql@ == "update rsstg_source set last_scrape = now() where source_id = $1;"@,
        q.binds@.len() == 1,
        q.binds@[0] is Big,
        q.binds@[0]->Big_0 == s.token.of(),
        marked matches Err(e) ==> fails(r, e@) && freed(old(m)@, final(m)@, s1.token.of()),
        marked is Ok ==> {
            &&& r is Fetch
            &&& r->Fetch_0.token.of() == s1.token.of()
            &&& s1.live ==> r->Fetch_0.destination == s1.source.channel_id
            &&& !s1.live ==> r->Fetch_0.destination == s1.source.owner
            &&& chars(r->Fetch_0.since) == chars(s1.since)
            &&& r->Fetch_0.source.url@ == s1.source.url@
            &&& chars(r->Fetch_0.source.iv_hash) == chars(s1.source.iv_hash)
            &&& chars(r->Fetch_0.source.url_re) == chars(s1.source.url_re)
            &&& final(m)@ == old(m)@
        },
{
    reveal_query(q);
}

/// A server is asked for the link of the source, and for what has changed since the date that the
/// check was started with, where there is one.
pub proof fn servers_are_asked_for_the_link(s: &Fetch, r: FetchRequest)
    requires
        call_ensures(Fetch::request, (s,), r),
    ensures
        r.url@ == s.source.url@,
        s.since is None <==> r.header is None,
        s.since is Some ==> {
            &&& (r.header->0).0@ == "If-Modified-Since"@
            &&& (r.header->0).1@ == s.since->0@
        },
{
}

/// Whether a tour stands at a post, with the link that the substitution of the source makes of the
/// link of that post; or ends there because the substitution is refused.
pub open spec fn turns_to(c: Check, t: Tour, at: int) -> bool {
    let link = t.links@[at].1@;
    match chars(t.url_re) {
        None => c matches Check::Probe(p) && p.url@ == link && same_tour(p.tour, t, at),
        Some(re) => match rules::substitution_refusal(re) {
            None => c matches Check::Probe(p) && p.url@ == rules::substituted(re, link) && same_tour(
                p.tour,
                t,
                at,
            ),
            Some(e) => fails(c, e),
        },
    }
}

/// Whether one tour is another one that has come to a post.
pub open spec fn same_tour(a: Tour, b: Tour, at: int) -> bool {
    &&& a.at == at
    &&& a.token.of() == b.token.of()
    &&& a.destination == b.destination
    &&& chars(a.iv_hash) == chars(b.iv_hash)
    &&& chars(a.url_re) == chars(b.url_re)
    &&& same_links(a.links@, b.links@)
}

/// Whether posts are the same in the same order.
pub open spec fn same_links(a: Seq<(Moment, String)>, b: Seq<(Moment, String)>) -> bool {
    &&& a.len() == b.len()
    &&& forall|i: int| 0 <= i < a.len() ==> (#[trigger] a[i]).0 == b[i].0 && a[i].1@ == b[i].1@
}

proof fn rows_are_the_same(a: Seq<(Moment, String)>, b: Seq<(Moment, String)>)
    requires
        feed::link_rows(a) == feed::link_rows(b),
    ensures
        same_links(a, b),
{
    assert(feed::link_rows(a).len() == a.len());
    assert(feed::link_rows(b).len() == b.len());
    assert forall|i: int| 0 <= i < a.len() implies (#[trigger] a[i]).0 == b[i].0 && a[i].1@
        == b[i].1@ by {
        assert(feed::link_rows(a)[i] == (a[i].0, a[i].1@));
        assert(feed::link_rows(b)[i] == (b[i].0, b[i].1@));
    }
}

proof fn links_are_rows(t: Tour)
    ensures
        t@.links.len() == t.links@.len(),
        forall|i: int|
            0 <= i < t.links@.len() ==> t@.links[i] == ((#[trigger] t.links@[i]).0, t.links@[i].1@),
{
}

/// A tour goes on to the post whose turn it is, whichever of its posts that is, and ends after its
/// last one with the number of posts that were sent; the token is held until the end.
pub proof fn tours_take_every_turn(t: Tour, m: &mut Running, r: Check)
    requires
        call_ensures(Tour::next, (t, m), r),
    ensures
        t.at < t.links@.len() ==> {
            &&& turns_to(r, t, t.at as int)
            &&& r is Probe ==> r->Probe_0.tour.posted == t.posted && final(m)@ == old(m)@
            &&& r is Done ==> freed(old(m)@, final(m)@, t.token.of())
        },
        t.at >= t.links@.len() ==> posted(r, t.posted as nat) && freed(
            old(m)@,
            final(m)@,
            t.token.of(),
        ),
{
    links_are_rows(t);
    if let Check::Probe(p) = r {
        rows_are_the_same(p.tour.links@, t.links@);
    }
}

/// A link that was worked out is asked for next, with the same tour at the same post; where there is
/// none the check ends with the reason.
pub proof fn offered_links_are_asked_for(
    t: Tour,
    url: Result<String, String>,
    m: &mut Running,
    r: Check,
)
    requires
        call_ensures(Tour::offer, (t, url, m), r),
    ensures
        url matches Ok(u) ==> {
            &&& r is Probe
            &&& r->Probe_0.url@ == u@
            &&& same_tour(r->Probe_0.tour, t, t.at as int)
            &&& r->Probe_0.tour.posted == t.posted
            &&& final(m)@ == old(m)@
        },
        url matches Err(e) ==> fails(r, e@) && freed(old(m)@, final(m)@, t.token.of()),
{
    if let Check::Probe(p) = r {
        rows_are_the_same(p.tour.links@, t.links@);
    }
}

/// A check goes on from the posts of a feed to the oldest of them, with all of them on its tour, or
/// ends with the reason why they could not be read.
pub proof fn posts_are_toured(
    s: Fetch,
    posts: Result<Posts, String>,
    links: Vec<(Moment, String)>,
    m: &mut Running,
    r: Check,
)
    requires
        call_ensures(Fetch::digest, (s, posts, m), r),
        posts matches Ok(posts) ==> call_ensures(feed::list_links, (&posts,), links),
    ensures
        posts matches Err(e) ==> fails(r, e@) && freed(old(m)@, final(m)@, s.token.of()),
        posts is Ok && links@.len() == 0 ==> posted(r, 0) && freed(old(m)@, final(m)@, s.token.of()),
        posts is Ok && links@.len() > 0 && r is Probe ==> {
            &&& r->Probe_0.tour.at == 0
            &&& r->Probe_0.tour.posted == 0
            &&& r->Probe_0.tour.this_fetch is None
            &&& r->Probe_0.tour.token.of() == s.token.of()
            &&& r->Probe_0.tour.destination == s.destination
            &&& chars(r->Probe_0.tour.iv_hash) == chars(s.source.iv_hash)
            &&& chars(r->Probe_0.tour.url_re) == chars(s.source.url_re)
            &&& same_links(r->Probe_0.tour.links@, links@)
            &&& turns_to(r, r->Probe_0.tour, 0)
            &&& final(m)@ == old(m)@
        },
        posts is Ok && links@.len() > 0 && r !is Probe ==> {
            &&& s.source.url_re is Some
            &&& rules::substitution_refusal(s.source.url_re->0@) is Some
            &&& fails(r, rules::substitution_refusal(s.source.url_re->0@)->0)
            &&& freed(old(m)@, final(m)@, s.token.of())
        },
{
    assert(feed::link_rows(links@).len() == links@.len());
    if posts is Ok {
        if let Check::Probe(p) = r {
            rows_are_the_same(p.tour.links@, links@);
            links_are_rows(p.tour);
        }
    }
}

/// What a server answers is read as a feed of the source, and leads where the posts that are read
/// lead; a server that does not answer ends the check.
pub proof fn answers_are_read(
    s: Fetch,
    response: Result<Response, String>,
    m: &mut Running,
    r: Check,
    url: &str,
    content: &[u8],
    posts: Result<Posts, String>,
    m1: &mut Running,
    r1: Check,
)
    requires
        call_ensures(Fetch::resume, (s, response, m), r),
        response matches Ok(response) ==> {
            &&& url@ == s.source.url@
            &&& content@ == response.content@
            &&& call_ensures(feed::posts_in, (url, response.status, content), posts)
        },
        call_ensures(Fetch::digest, (s, posts, m1), r1),
        old(m)@ == old(m1)@,
    ensures
        response matches Err(e) ==> fails(r, e@) && freed(old(m)@, final(m)@, s.token.of()),
        response is Ok ==> r@ == r1@ && final(m)@ == final(m1)@,
{
}

/// The database is asked for the link of the post whose turn it is, of the source whose token the
/// check holds.
pub proof fn posts_are_asked_for(p: &Probe, q: Query, rows: sql_laws::PostRows)
    requires
        call_ensures(Probe::query, (p,), q),
    ensures
        q.sql@
            == "select exists(select true from rsstg_post where url = $1 and source_id = $2) as exists;"@,
        q.binds@.len() == 2,
        text_at(q, 1, p.url@),
        q.binds@[1] is Big,
        q.binds@[1]->Big_0 == p.tour.token.of(),
        sql_laws::found_in(q, rows) <==> rows.contains((p.tour.token.of() as int, p.url@)),
{
    reveal_query(q);
}

/// A post is recorded for the source whose token the check holds, with its own moment, under the link
/// that the database was asked for: from then on the question for that post of that source is
/// answered by yes, and no other answer has changed.
pub proof fn sent_posts_are_recorded(
    s: &Record,
    record: Query,
    p: &Probe,
    ask: Query,
    rows: sql_laws::PostRows,
)
    requires
        call_ensures(Record::query, (s,), record),
        call_ensures(Probe::query, (p,), ask),
        s.tour.at < s.tour.links@.len(),
    ensures
        record.sql@ == "insert into rsstg_post (source_id, posted, url) values ($1, $2, $3);"@,
        record.binds@.len() == 3,
        int_at(record, 1, s.tour.token.of()),
        record.binds@[1] == Bind::At(s.tour.links@[s.tour.at as int].0),
        text_at(record, 3, s.url@),
        sql_laws::found_in(ask, sql_laws::recorded_in(record, rows)) <==> {
            ||| p.tour.token.of() == s.tour.token.of() && p.url@ == s.url@
            ||| rows.contains((p.tour.token.of() as int, p.url@))
        },
{
    reveal_query(record);
    reveal_query(ask);
    links_are_rows(s.tour);
}

/// A post that the database does not know is sent, and only such a post: one that it knows, or does
/// not answer for, is passed over for the next one without being counted; a question that fails ends
/// the check.
pub proof fn only_news_is_sent(
    p: Probe,
    seen: Result<Option<bool>, String>,
    m: &mut Running,
    r: Check,
)
    requires
        call_ensures(Probe::resume, (p, seen, m), r),
        p.tour.at < p.tour.links@.len(),
    ensures
        seen matches Err(e) ==> fails(r, e@) && freed(old(m)@, final(m)@, p.tour.token.of()),
        seen matches Ok(Some(false)) ==> {
            &&& r is Send
            &&& r->Send_0.url@ == p.url@
            &&& same_tour(r->Send_0.tour, p.tour, p.tour.at as int)
            &&& r->Send_0.tour.posted == p.tour.posted
            &&& final(m)@ == old(m)@
            &&& {
                let date = p.tour.links@[p.tour.at as int].0;
                match p.tour.this_fetch {
                    None => r->Send_0.tour.this_fetch == Some(date),
                    Some(newest) => if newest.0 < date.0 || (newest.0 == date.0 && newest.1
                        < date.1) {
                        r->Send_0.tour.this_fetch == Some(date)
                    } else {
                        r->Send_0.tour.this_fetch == Some(newest)
                    },
                }
            }
        },
        seen is Ok && seen->Ok_0 != Some(false) ==> {
            &&& p.tour.at + 1 < p.tour.links@.len() ==> turns_to(r, p.tour, p.tour.at as int + 1)
            &&& p.tour.at + 1 >= p.tour.links@.len() ==> posted(r, p.tour.posted as nat)
            &&& r is Probe ==> r->Probe_0.tour.posted == p.tour.posted && final(m)@ == old(m)@
            &&& r is Done ==> freed(old(m)@, final(m)@, p.tour.token.of())
            &&& r is Probe || r is Done
        },
{
    links_are_rows(p.tour);
    match r {
        Check::Send(s) => {
            rows_are_the_same(s.tour.links@, p.tour.links@);
        },
        Check::Probe(s) => {
            rows_are_the_same(s.tour.links@, p.tour.links@);
        },
        _ => {},
    }
}

/// What is sent for a post goes to the destination of the check and to nobody else: the link, or the
/// link under its Instant View where the source has a hash for it.
pub proof fn links_are_sent(s: &Sending, tg: &Tg, r: SendRequest)
    requires
        call_ensures(Sending::request, (s, tg), r),
    ensures
        r.to == s.tour.destination,
        r.mode == ParseMode::Html,
        r.markup is None,
        s.tour.iv_hash is None ==> r.text@ == s.url@,
        s.tour.iv_hash matches Some(hash) ==> r.text@ == "<a href=\"https://t.me/iv?url="@ + s.url@
            + "&rhash="@ + hash@ + "\"> </a>"@ + s.url@,
{
}

/// A post that was sent is recorded next, under its own link; one that could not be sent ends the
/// check.
pub proof fn sending_leads_to_recording(s: Sending, sent: Result<(), String>, m: &mut Running, r: Check)
    requires
        call_ensures(Sending::resume, (s, sent, m), r),
    ensures
        sent matches Err(e) ==> fails(r, e@) && freed(old(m)@, final(m)@, s.tour.token.of()),
        sent is Ok ==> {
            &&& r is Record
            &&& r->Record_0.url@ == s.url@
            &&& same_tour(r->Record_0.tour, s.tour, s.tour.at as int)
            &&& r->Record_0.tour.posted == s.tour.posted
            &&& final(m)@ == old(m)@
        },
{
    if let Check::Record(t) = r {
        rows_are_the_same(t.tour.links@, s.tour.links@);
    }
}

/// A post that was recorded is counted, and the next one has its turn, whichever it is; one that
/// could not be recorded ends the check.
pub proof fn recording_leads_to_the_next(
    s: Record,
    recorded: Result<(), String>,
    m: &mut Running,
    r: Check,
)
    requires
        call_ensures(Record::resume, (s, recorded, m), r),
        s.tour.at < s.tour.links@.len(),
    ensures
        recorded matches Err(e) ==> fails(r, e@) && freed(old(m)@, final(m)@, s.tour.token.of()),
        recorded is Ok ==> {
            &&& s.tour.at + 1 < s.tour.links@.len() ==> turns_to(r, s.tour, s.tour.at as int + 1)
            &&& s.tour.at + 1 >= s.tour.links@.len() ==> posted(r, s.tour.posted as nat + 1)
            &&& r is Probe ==> r->Probe_0.tour.posted == s.tour.posted + 1 && final(m)@ == old(m)@
            &&& r is Done ==> freed(old(m)@, final(m)@, s.tour.token.of())
            &&& r is Probe || r is Done
        },
{
    links_are_rows(s.tour);
    if let Check::Probe(p) = r {
        rows_are_the_same(p.tour.links@, s.tour.links@);
    }
}

} // verus!

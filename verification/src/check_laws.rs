//! What holds of a check from its start to its end.

use crate::check::{self, CheckView, Probe, Record, TourView};
use crate::feed;
use crate::feed_laws;
use crate::moment::{self, Moment};
use crate::rules;
use crate::sql;
use crate::sql_laws;
use crate::text;
use crate::tg_bot;
use vstd::prelude::*;

verus! {

/// What a check meets on its way: how each thing that it asks for turns out.
pub ghost struct World {
    /// The sources that are being checked.
    pub running: Set<i32>,
    pub connected: Result<(), Seq<char>>,
    pub row: Result<sql::SourceView, Seq<char>>,
    pub marked: Result<(), Seq<char>>,
    pub response: Result<(u16, Seq<u8>), Seq<char>>,
    /// The links that are recorded as sent for the source.
    pub seen: Set<Seq<char>>,
    /// Whether the database can be asked for a link.
    pub ask: spec_fn(Seq<char>) -> Result<(), Seq<char>>,
    /// Whether a link can be sent.
    pub deliver: spec_fn(Seq<char>) -> Result<(), Seq<char>>,
    /// Whether it can be recorded that a link was sent.
    pub store: spec_fn(Seq<char>) -> Result<(), Seq<char>>,
}

/// What a check leaves behind.
pub ghost struct Run {
    /// The posts that were sent, by their moments and links, in the order in which they were sent.
    pub sent: Seq<(Moment, Seq<char>)>,
    /// The messages that were sent for them.
    pub messages: Seq<tg_bot::SendRequestView>,
    pub seen: Set<Seq<char>>,
    pub running: Set<i32>,
    pub result: Result<Seq<char>, Seq<char>>,
}

/// How many of the stages before the first post are still ahead.
pub open spec fn stages_left(c: CheckView) -> nat {
    match c {
        CheckView::Connect { .. } => 4,
        CheckView::ReadSource { .. } => 3,
        CheckView::MarkScrape { .. } => 2,
        CheckView::Fetch { .. } => 1,
        _ => 0,
    }
}

/// How many posts are still ahead.
pub open spec fn posts_left(c: CheckView) -> nat {
    match c {
        CheckView::Probe(t, _) | CheckView::Send(t, _) | CheckView::Record(t, _) => if t.has_post() {
            (t.links.len() - t.at) as nat
        } else {
            0
        },
        _ => 0,
    }
}

/// How many steps the post whose turn it is still needs.
pub open spec fn steps_left(c: CheckView) -> nat {
    match c {
        CheckView::Probe(_, _) => 3,
        CheckView::Send(_, _) => 2,
        CheckView::Record(_, _) => 1,
        _ => 0,
    }
}

impl World {
    /// The world when the check of a source has gone on to a stage.
    pub open spec fn settled(self, id: i32, c: CheckView) -> World {
        World { running: check::settled(self.running, id, c), ..self }
    }

    /// What the database says of a link.
    pub open spec fn answer(self, url: Seq<char>) -> Result<Option<bool>, Seq<char>> {
        match (self.ask)(url) {
            Ok(_) => Ok(Some(self.seen.contains(url))),
            Err(e) => Err(e),
        }
    }

    /// The world when a link was to be recorded.
    pub open spec fn recorded(self, url: Seq<char>) -> World {
        match (self.store)(url) {
            Ok(_) => World { seen: self.seen.insert(url), ..self },
            Err(_) => self,
        }
    }
}

/// What a check leaves behind when it goes on from a stage to its end.
pub open spec fn run(c: CheckView, w: World) -> Run
    decreases stages_left(c), posts_left(c), steps_left(c),
{
    match c {
        CheckView::Connect { .. } => {
            let (next, running) = c.after_connect(w.connected, w.running);
            run(next, World { running, ..w })
        },
        CheckView::ReadSource { id, .. } => {
            let next = c.after_row(w.row);
            run(next, w.settled(id, next))
        },
        CheckView::MarkScrape { id, .. } => {
            let next = c.after_mark(w.marked);
            run(next, w.settled(id, next))
        },
        CheckView::Fetch { id, .. } => {
            let next = c.after_response(w.response);
            run(next, w.settled(id, next))
        },
        CheckView::Probe(t, url) => {
            let next = t.probed(url, w.answer(url));
            run(next, w.settled(t.id, next))
        },
        CheckView::Send(t, url) => {
            let next = t.sent(url, (w.deliver)(url));
            let rest = run(next, w.settled(t.id, next));
            match (w.deliver)(url) {
                Ok(_) => Run {
                    sent: seq![(t.date(), url)] + rest.sent,
                    messages: seq![message_of(t, url)] + rest.messages,
                    ..rest
                },
                Err(_) => rest,
            }
        },
        CheckView::Record(t, url) => {
            let next = t.recorded((w.store)(url));
            run(next, w.recorded(url).settled(t.id, next))
        },
        CheckView::Done(result) => Run {
            sent: Seq::empty(),
            messages: Seq::empty(),
            seen: w.seen,
            running: w.running,
            result,
        },
    }
}

/// The message for a post on a tour.
pub open spec fn message_of(t: TourView, url: Seq<char>) -> tg_bot::SendRequestView {
    tg_bot::plain_request(t.destination, t.message(url), tg_bot::ParseMode::Html)
}

/// The links of posts.
pub open spec fn urls(sent: Seq<(Moment, Seq<char>)>) -> Seq<Seq<char>> {
    sent.map_values(|s: (Moment, Seq<char>)| s.1)
}

/// The tour that a stage is on.
pub open spec fn tour(c: CheckView) -> TourView {
    match c {
        CheckView::Probe(t, _) => t,
        CheckView::Send(t, _) => t,
        CheckView::Record(t, _) => t,
        _ => arbitrary(),
    }
}

/// Whether a stage is one on a tour.
pub open spec fn on_tour(c: CheckView) -> bool {
    c is Probe || c is Send || c is Record
}

/// The stage and the world after the step that a stage on a tour waits for.
pub open spec fn step(c: CheckView, w: World) -> (CheckView, World) {
    match c {
        CheckView::Probe(t, url) => {
            let next = t.probed(url, w.answer(url));
            (next, w.settled(t.id, next))
        },
        CheckView::Send(t, url) => {
            let next = t.sent(url, (w.deliver)(url));
            (next, w.settled(t.id, next))
        },
        CheckView::Record(t, url) => {
            let next = t.recorded((w.store)(url));
            (next, w.recorded(url).settled(t.id, next))
        },
        _ => (c, w),
    }
}

/// Whether a stage on a tour is in order: it is some post's turn, and the link is that of the post.
pub open spec fn sound(c: CheckView, w: World) -> bool {
    &&& on_tour(c)
    &&& c.wf()
    &&& match c {
        CheckView::Probe(t, url) => t.link() == Ok::<Seq<char>, Seq<char>>(url),
        CheckView::Send(t, url) => t.link() == Ok::<Seq<char>, Seq<char>>(url)
            && !w.seen.contains(url),
        CheckView::Record(t, url) => t.link() == Ok::<Seq<char>, Seq<char>>(url)
            && !w.seen.contains(url),
        _ => true,
    }
}

/// A step of a tour leads to a stage in order or to the end, and changes nothing of the tour but how
/// far it got.
proof fn step_is_sound(c: CheckView, w: World)
    requires
        sound(c, w),
    ensures
        ({
            let (n, v) = step(c, w);
            &&& n is Done || sound(n, v)
            &&& v.ask == w.ask && v.deliver == w.deliver && v.store == w.store
            &&& v.running == check::settled(w.running, tour(c).id, n)
            &&& on_tour(n) ==> {
                &&& tour(n).id == tour(c).id
                &&& tour(n).destination == tour(c).destination
                &&& tour(n).iv_hash == tour(c).iv_hash
                &&& tour(n).url_re == tour(c).url_re
                &&& tour(n).links == tour(c).links
                &&& tour(n).at == (if n is Probe {
                    tour(c).at + 1
                } else {
                    tour(c).at
                })
            }
        }),
{
}

/// A tour gives its token back at its end.
proof fn tour_returns_token(c: CheckView, w: World)
    requires
        sound(c, w),
    ensures
        run(c, w).running == w.running.remove(tour(c).id),
    decreases posts_left(c), steps_left(c),
{
    step_is_sound(c, w);
    let (n, v) = step(c, w);
    if on_tour(n) {
        tour_returns_token(n, v);
    }
}

/// Every post that a tour sends goes to its destination under the link that it is recorded by.
proof fn tour_sends_messages(c: CheckView, w: World)
    requires
        sound(c, w),
    ensures
        run(c, w).messages =~= run(c, w).sent.map_values(
            |s: (Moment, Seq<char>)| message_of(tour(c), s.1),
        ),
    decreases posts_left(c), steps_left(c),
{
    step_is_sound(c, w);
    let (n, v) = step(c, w);
    if on_tour(n) {
        tour_sends_messages(n, v);
        assert(run(n, v).messages =~= run(n, v).sent.map_values(
            |s: (Moment, Seq<char>)| message_of(tour(c), s.1),
        ));
    }
}

/// A tour sends no link that was recorded before, and none twice.
proof fn tour_sends_news(c: CheckView, w: World)
    requires
        sound(c, w),
    ensures
        forall|i: int|
            0 <= i < run(c, w).sent.len() ==> !w.seen.contains((#[trigger] run(c, w).sent[i]).1),
        forall|i: int, j: int|
            0 <= i < j < run(c, w).sent.len() ==> (#[trigger] run(c, w).sent[i]).1 != (
            #[trigger] run(c, w).sent[j]).1,
        c matches CheckView::Record(_, url) ==> forall|i: int|
            0 <= i < run(c, w).sent.len() ==> (#[trigger] run(c, w).sent[i]).1 != url,
    decreases posts_left(c), steps_left(c),
{
    step_is_sound(c, w);
    let (n, v) = step(c, w);
    let r = run(c, w);
    let rest = run(n, v);
    if on_tour(n) {
        tour_sends_news(n, v);
    }
    match c {
        CheckView::Send(t, url) => {
            match (w.deliver)(url) {
                Ok(_) => {
                    assert(r.sent =~= seq![(t.date(), url)] + rest.sent);
                    assert forall|i: int| 0 <= i < r.sent.len() implies !w.seen.contains(
                        (#[trigger] r.sent[i]).1,
                    ) by {
                        if i > 0 {
                            assert(r.sent[i] == rest.sent[i - 1]);
                        }
                    }
                    assert forall|i: int, j: int| 0 <= i < j < r.sent.len() implies (
                    #[trigger] r.sent[i]).1 != (#[trigger] r.sent[j]).1 by {
                        assert(r.sent[j] == rest.sent[j - 1]);
                        if i > 0 {
                            assert(r.sent[i] == rest.sent[i - 1]);
                        }
                    }
                },
                Err(_) => {},
            }
        },
        _ => {
            assert(r.sent == rest.sent);
        },
    }
}

/// Whether what was sent is a post of a list from some place on, under the link that a substitution
/// makes of its own.
pub open spec fn stems_from(
    sent: (Moment, Seq<char>),
    links: Seq<(Moment, Seq<char>)>,
    url_re: Option<Seq<char>>,
    from: int,
) -> bool {
    exists|k: int|
        {
            &&& from <= k < links.len()
            &&& sent.0 == (#[trigger] links[k]).0
            &&& rules::rewritten(url_re, links[k].1) == Ok::<Seq<char>, Seq<char>>(sent.1)
        }
}

/// The first post that a stage on a tour can still send.
pub open spec fn first_ahead(c: CheckView) -> int {
    if c is Record {
        tour(c).at as int + 1
    } else {
        tour(c).at as int
    }
}

/// A tour sends posts of its own, the oldest first.
proof fn tour_sends_in_order(c: CheckView, w: World)
    requires
        sound(c, w),
        feed::in_order(tour(c).links),
    ensures
        feed::in_order(run(c, w).sent),
        forall|i: int|
            0 <= i < run(c, w).sent.len() ==> stems_from(
                #[trigger] run(c, w).sent[i],
                tour(c).links,
                tour(c).url_re,
                first_ahead(c),
            ),
    decreases posts_left(c), steps_left(c),
{
    step_is_sound(c, w);
    let (n, v) = step(c, w);
    let r = run(c, w);
    let rest = run(n, v);
    let t = tour(c);
    if on_tour(n) {
        tour_sends_in_order(n, v);
        assert forall|i: int| 0 <= i < rest.sent.len() implies stems_from(
            #[trigger] rest.sent[i],
            t.links,
            t.url_re,
            first_ahead(c),
        ) by {
            let k = choose|k: int|
                {
                    &&& first_ahead(n) <= k < t.links.len()
                    &&& rest.sent[i].0 == (#[trigger] t.links[k]).0
                    &&& rules::rewritten(t.url_re, t.links[k].1) == Ok::<Seq<char>, Seq<char>>(
                        rest.sent[i].1,
                    )
                };
            assert(rest.sent[i].0 == t.links[k].0);
        }
    }
    if c is Send && (w.deliver)(c->Send_1) is Ok {
        let first = (t.date(), c->Send_1);
        assert(r.sent =~= seq![first] + rest.sent);
        assert(first.0 == t.links[t.at as int].0);
        assert(stems_from(first, t.links, t.url_re, first_ahead(c)));
        assert forall|i: int| 0 <= i < r.sent.len() implies stems_from(
            #[trigger] r.sent[i],
            t.links,
            t.url_re,
            first_ahead(c),
        ) by {
            if i > 0 {
                assert(r.sent[i] == rest.sent[i - 1]);
            }
        }
        assert forall|i: int, j: int| 0 <= i < j < r.sent.len() implies !moment::before(
            (#[trigger] r.sent[j]).0,
            (#[trigger] r.sent[i]).0,
        ) by {
            assert(r.sent[j] == rest.sent[j - 1]);
            if i > 0 {
                assert(r.sent[i] == rest.sent[i - 1]);
            } else {
                assert(stems_from(rest.sent[j - 1], t.links, t.url_re, first_ahead(n)));
                let k = choose|k: int|
                    {
                        &&& first_ahead(n) <= k < t.links.len()
                        &&& rest.sent[j - 1].0 == (#[trigger] t.links[k]).0
                        &&& rules::rewritten(t.url_re, t.links[k].1) == Ok::<Seq<char>, Seq<char>>(
                            rest.sent[j - 1].1,
                        )
                    };
                assert(!moment::before(t.links[k].0, t.links[t.at as int].0));
            }
        }
    } else {
        assert(r.sent == rest.sent);
    }
}

/// The links that a stage has sent but not recorded.
pub open spec fn pending(c: CheckView) -> Set<Seq<char>> {
    match c {
        CheckView::Record(_, url) => set![url],
        _ => Set::empty(),
    }
}

/// A tour that ends well has recorded exactly what it sent, has left no link unrecorded, and tells
/// how many posts it sent.
proof fn tour_is_complete(c: CheckView, w: World)
    requires
        sound(c, w),
        run(c, w).result is Ok,
    ensures
        run(c, w).result == Ok::<Seq<char>, Seq<char>>(
            "Posted: "@ + text::digits(
                tour(c).posted + run(c, w).sent.len() + (if c is Record {
                    1nat
                } else {
                    0nat
                }),
            ),
        ),
        run(c, w).seen =~= w.seen.union(urls(run(c, w).sent).to_set()).union(pending(c)),
        forall|k: int|
            tour(c).at <= k < tour(c).links.len() ==> {
                &&& rules::rewritten(tour(c).url_re, (#[trigger] tour(c).links[k]).1) matches Ok(url)
                &&& run(c, w).seen.contains(url)
            },
    decreases posts_left(c), steps_left(c),
{
    step_is_sound(c, w);
    let (n, v) = step(c, w);
    let r = run(c, w);
    let rest = run(n, v);
    let t = tour(c);
    if on_tour(n) {
        tour_is_complete(n, v);
    }
    assert(urls(Seq::<(Moment, Seq<char>)>::empty()).to_set() =~= Set::empty());
    if c is Send {
        let url = c->Send_1;
        assert(r.sent =~= seq![(t.date(), url)] + rest.sent);
        assert(urls(r.sent) =~= seq![url] + urls(rest.sent));
        assert(urls(r.sent).to_set() =~= urls(rest.sent).to_set().insert(url)) by {
            assert forall|u: Seq<char>| urls(rest.sent).to_set().insert(url).contains(u) implies urls(
                r.sent,
            ).to_set().contains(u) by {
                if u == url {
                    assert(urls(r.sent)[0] == url);
                } else {
                    let k = choose|k: int|
                        0 <= k < urls(rest.sent).len() && urls(rest.sent)[k] == u;
                    assert(urls(r.sent)[k + 1] == u);
                }
            }
        }
    }
}

/// A tour whose links are all recorded sends nothing.
proof fn tour_of_known_links_is_silent(c: CheckView, w: World)
    requires
        sound(c, w),
        c is Probe,
        forall|url: Seq<char>| (#[trigger] (w.ask)(url)) is Ok,
        forall|k: int|
            tour(c).at <= k < tour(c).links.len() ==> {
                &&& rules::rewritten(tour(c).url_re, (#[trigger] tour(c).links[k]).1) matches Ok(url)
                &&& w.seen.contains(url)
            },
    ensures
        run(c, w).sent =~= Seq::<(Moment, Seq<char>)>::empty(),
        run(c, w).seen == w.seen,
        run(c, w).result == Ok::<Seq<char>, Seq<char>>(
            "Posted: "@ + text::digits(tour(c).posted),
        ),
    decreases posts_left(c),
{
    step_is_sound(c, w);
    let (n, v) = step(c, w);
    let t = tour(c);
    assert(rules::rewritten(t.url_re, t.links[t.at as int].1) is Ok);
    if t.at + 1 < t.links.len() {
        assert(rules::rewritten(t.url_re, t.links[t.at as int + 1].1) is Ok);
    }
    if on_tour(n) {
        tour_of_known_links_is_silent(n, v);
    }
}

/// Only what a tour sent is recorded, and nothing is forgotten.
proof fn tour_records_what_it_sends(c: CheckView, w: World)
    requires
        sound(c, w),
    ensures
        w.seen.subset_of(run(c, w).seen),
        run(c, w).seen.subset_of(w.seen.union(urls(run(c, w).sent).to_set()).union(pending(c))),
        forall|i: int|
            0 <= i < run(c, w).sent.len() - 1 ==> run(c, w).seen.contains(
                (#[trigger] run(c, w).sent[i]).1,
            ),
        c is Record && run(c, w).sent.len() > 0 ==> run(c, w).seen.contains(c->Record_1),
        forall|i: int|
            0 <= i < run(c, w).sent.len() && (w.store)((#[trigger] run(c, w).sent[i]).1) is Ok
                ==> run(c, w).seen.contains(run(c, w).sent[i].1),
        c is Record && (w.store)(c->Record_1) is Ok ==> run(c, w).seen.contains(c->Record_1),
    decreases posts_left(c), steps_left(c),
{
    step_is_sound(c, w);
    let (n, v) = step(c, w);
    let r = run(c, w);
    let rest = run(n, v);
    if on_tour(n) {
        tour_records_what_it_sends(n, v);
    }
    if c is Send && (w.deliver)(c->Send_1) is Ok {
        let url = c->Send_1;
        assert(r.sent =~= seq![(tour(c).date(), url)] + rest.sent);
        assert forall|u: Seq<char>| r.seen.contains(u) implies w.seen.union(
            urls(r.sent).to_set(),
        ).union(pending(c)).contains(u) by {
            if !w.seen.contains(u) {
                if u == url {
                    assert(urls(r.sent)[0] == u);
                } else {
                    assert(urls(rest.sent).to_set().contains(u));
                    let k = choose|k: int|
                        0 <= k < urls(rest.sent).len() && urls(rest.sent)[k] == u;
                    assert(urls(r.sent)[k + 1] == u);
                }
            }
        }
        assert forall|i: int| 0 <= i < r.sent.len() - 1 implies r.seen.contains(
            (#[trigger] r.sent[i]).1,
        ) by {
            if i > 0 {
                assert(r.sent[i] == rest.sent[i - 1]);
            }
        }
        assert forall|i: int|
            0 <= i < r.sent.len() && (w.store)((#[trigger] r.sent[i]).1) is Ok implies r.seen.contains(
            r.sent[i].1,
        ) by {
            if i > 0 {
                assert(r.sent[i] == rest.sent[i - 1]);
            }
        }
    } else {
        assert(r.sent == rest.sent);
    }
}

/// The stage at the first post, or the end where the check does not get there, and the world then.
pub open spec fn opened(c: CheckView, w: World) -> (CheckView, World) {
    let id = c->Connect_id;
    let (c1, running) = c.after_connect(w.connected, w.running);
    let w1 = World { running, ..w };
    let c2 = c1.after_row(w.row);
    let c3 = c2.after_mark(w.marked);
    let c4 = c3.after_response(w.response);
    if c1 is Done {
        (c1, w1)
    } else if c2 is Done {
        (c2, w1.settled(id, c2))
    } else if c3 is Done {
        (c3, w1.settled(id, c3))
    } else {
        (c4, w1.settled(id, c4))
    }
}

/// The posts that a check meets.
pub open spec fn met_posts(w: World) -> Result<Seq<(Moment, feed::PostView)>, Seq<char>> {
    match (w.row, w.response) {
        (Ok(source), Ok((status, content))) => feed::content_posts(source.url, status, content),
        (Err(e), _) => Err(e),
        (_, Err(e)) => Err(e),
    }
}

/// The links of the posts that a check meets, the oldest post first.
pub open spec fn met_links(w: World) -> Seq<(Moment, Seq<char>)> {
    match met_posts(w) {
        Ok(posts) => feed::post_links(posts),
        Err(_) => Seq::empty(),
    }
}

/// The link under which a post is sent and recorded, where the substitution of the source accepts
/// the link of the post.
pub open spec fn sent_link(w: World, link: Seq<char>) -> Result<Seq<char>, Seq<char>> {
    match w.row {
        Ok(source) => rules::rewritten(source.url_re, link),
        Err(e) => Err(e),
    }
}

proof fn opening(c: CheckView, w: World)
    requires
        c is Connect,
    ensures
        ({
            let (n, v) = opened(c, w);
            &&& run(c, w) == run(n, v)
            &&& n is Done || (n is Probe && sound(n, v))
            &&& n is Done ==> v.running =~= w.running && v.seen == w.seen
            &&& n is Probe ==> {
                &&& !w.running.contains(c->Connect_id)
                &&& v == (World { running: w.running.insert(c->Connect_id), ..w })
                &&& w.connected is Ok && w.row is Ok && w.marked is Ok && w.response is Ok
                &&& tour(n) == check::tour_of(
                    c->Connect_id,
                    check::destination_of(w.row->Ok_0, c->Connect_live),
                    w.row->Ok_0,
                    met_links(w),
                )
                &&& feed::in_order(met_links(w))
            }
            &&& n is Done && n->Done_0 is Ok ==> {
                &&& n->Done_0 == Ok::<Seq<char>, Seq<char>>("Posted: "@ + text::digits(0))
                &&& met_links(w).len() == 0
            }
        }),
{
    reveal_with_fuel(run, 6);
    let (n, v) = opened(c, w);
    if n is Probe {
        feed::ordering_keeps_every_link(feed::links_of(met_posts(w)->Ok_0));
    }
}

/// A check sends only posts that were not recorded before, none of them twice, the oldest first.
pub proof fn check_sends_news_in_order(c: CheckView, w: World)
    requires
        c is Connect,
    ensures
        forall|i: int|
            0 <= i < run(c, w).sent.len() ==> !w.seen.contains((#[trigger] run(c, w).sent[i]).1),
        forall|i: int, j: int|
            0 <= i < j < run(c, w).sent.len() ==> (#[trigger] run(c, w).sent[i]).1 != (
            #[trigger] run(c, w).sent[j]).1,
        feed::in_order(run(c, w).sent),
        forall|i: int, j: int|
            0 <= i < j < run(c, w).sent.len() ==> {
                ||| (#[trigger] run(c, w).sent[i]).0.0 < (#[trigger] run(c, w).sent[j]).0.0
                ||| run(c, w).sent[i].0.0 == run(c, w).sent[j].0.0 && run(c, w).sent[i].0.1 <= run(
                    c,
                    w,
                ).sent[j].0.1
            },
{
    opening(c, w);
    let (n, v) = opened(c, w);
    if n is Probe {
        tour_sends_news(n, v);
        tour_sends_in_order(n, v);
    }
    assert forall|i: int, j: int| 0 <= i < j < run(c, w).sent.len() implies {
        ||| (#[trigger] run(c, w).sent[i]).0.0 < (#[trigger] run(c, w).sent[j]).0.0
        ||| run(c, w).sent[i].0.0 == run(c, w).sent[j].0.0 && run(c, w).sent[i].0.1 <= run(
            c,
            w,
        ).sent[j].0.1
    } by {
        assert(!moment::before(run(c, w).sent[j].0, run(c, w).sent[i].0));
    }
}

/// Everything that a check sends goes to the channel of the source, or to its owner when the source
/// is only tried out, and is the link of the post, under its Instant View where the source has one.
pub proof fn check_sends_to_one_chat(c: CheckView, w: World)
    requires
        c is Connect,
    ensures
        run(c, w).messages.len() == run(c, w).sent.len(),
        forall|i: int|
            0 <= i < run(c, w).sent.len() ==> {
                let message = #[trigger] run(c, w).messages[i];
                let url = run(c, w).sent[i].1;
                &&& w.row matches Ok(source)
                &&& message.to == if c->Connect_live {
                    source.channel_id
                } else {
                    source.owner
                }
                &&& message.mode == tg_bot::ParseMode::Html
                &&& message.markup is None
                &&& message.text == match source.iv_hash {
                    Some(hash) => "<a href=\"https://t.me/iv?url="@ + url + "&rhash="@ + hash
                        + "\"> </a>"@ + url,
                    None => url,
                }
            },
{
    opening(c, w);
    let (n, v) = opened(c, w);
    if n is Probe {
        tour_sends_messages(n, v);
    }
}

/// A source that is only tried out is posted to the chat of the user who asks for it, where the row
/// that is read is one of that user.
pub proof fn trials_go_to_who_asks(c: CheckView, w: World)
    requires
        c is Connect,
        !c->Connect_live,
        w.row matches Ok(source) ==> source.owner == c->Connect_owner,
    ensures
        forall|i: int|
            0 <= i < run(c, w).messages.len() ==> (#[trigger] run(c, w).messages[i]).to
                == c->Connect_owner,
{
    check_sends_to_one_chat(c, w);
}

/// A check gives back the token that it took, however it ends.
pub proof fn check_returns_its_token(c: CheckView, w: World)
    requires
        c is Connect,
    ensures
        run(c, w).running =~= w.running,
{
    opening(c, w);
    let (n, v) = opened(c, w);
    if n is Probe {
        tour_returns_token(n, v);
    }
}

/// A source that is being checked is not checked a second time: nothing is sent or recorded.
pub proof fn check_waits_its_turn(c: CheckView, w: World)
    requires
        c is Connect,
        w.connected is Ok,
        w.running.contains(c->Connect_id),
    ensures
        run(c, w) == (Run {
            sent: Seq::empty(),
            messages: Seq::empty(),
            seen: w.seen,
            running: w.running,
            result: Err("Token already taken"@),
        }),
{
    reveal_with_fuel(run, 2);
}

/// However a check ends, nothing is forgotten, only what was sent is recorded, and everything that
/// was sent is recorded but for the last post, and that one only where recording it failed.
pub proof fn check_records_what_it_sends(c: CheckView, w: World)
    requires
        c is Connect,
    ensures
        w.seen.subset_of(run(c, w).seen),
        run(c, w).seen.subset_of(w.seen.union(urls(run(c, w).sent).to_set())),
        forall|i: int|
            0 <= i < run(c, w).sent.len() - 1 ==> run(c, w).seen.contains(
                (#[trigger] run(c, w).sent[i]).1,
            ),
        forall|i: int|
            0 <= i < run(c, w).sent.len() && (w.store)((#[trigger] run(c, w).sent[i]).1) is Ok
                ==> run(c, w).seen.contains(run(c, w).sent[i].1),
{
    opening(c, w);
    let (n, v) = opened(c, w);
    if n is Probe {
        tour_records_what_it_sends(n, v);
    }
}

/// A check that ends well tells how many posts it sent, has recorded each of them, and leaves no
/// post of the feed unrecorded.
pub proof fn check_is_complete(c: CheckView, w: World)
    requires
        c is Connect,
        run(c, w).result is Ok,
    ensures
        run(c, w).result == Ok::<Seq<char>, Seq<char>>(
            "Posted: "@ + text::digits(run(c, w).sent.len()),
        ),
        run(c, w).seen =~= w.seen.union(urls(run(c, w).sent).to_set()),
        forall|k: int|
            0 <= k < met_links(w).len() ==> {
                &&& sent_link(w, (#[trigger] met_links(w)[k]).1) matches Ok(url)
                &&& run(c, w).seen.contains(url)
            },
{
    opening(c, w);
    let (n, v) = opened(c, w);
    if n is Probe {
        tour_is_complete(n, v);
    } else {
        assert(urls(Seq::<(Moment, Seq<char>)>::empty()).to_set() =~= Set::empty());
    }
}

/// When the posts of a source were forgotten, the next check that ends well sends everything that the
/// feed holds: every item of an RSS channel that has a link, and every entry of an Atom feed.
pub proof fn check_after_cleaning_sends_all(c: CheckView, w: World, i: int)
    requires
        c is Connect,
        w.seen == Set::<Seq<char>>::empty(),
        run(c, w).result is Ok,
    ensures
        w.row is Ok && w.response is Ok,
        feed::rss_channel((w.response->Ok_0).1) matches Ok(items) ==> (0 <= i < items.len()
            && items[i].link is Some ==> holds(
            urls(run(c, w).sent).to_set(),
            (w.row->Ok_0).url_re,
            items[i].link->0,
        )),
        feed::rss_channel((w.response->Ok_0).1) == Err::<
            Seq<feed::RssItemView>,
            feed::RssFailureView,
        >(feed::RssFailureView::InvalidStartTag) ==> {
            &&& feed::atom_feed((w.response->Ok_0).1) matches Ok(entries)
            &&& 0 <= i < entries.len() ==> entries[i].links.len() > 0 && holds(
                urls(run(c, w).sent).to_set(),
                (w.row->Ok_0).url_re,
                entries[i].links[0],
            )
        },
{
    check_is_complete(c, w);
    check_covers_the_feed(c, w, i);
    assert(run(c, w).seen =~= urls(run(c, w).sent).to_set());
}

/// When the posts of a source were forgotten, the next check that ends well sends every post that is
/// found in the feed.
pub proof fn check_after_cleaning_sends_what_is_found(
    c: CheckView,
    w: World,
    found: Seq<feed::FoundView>,
    i: int,
)
    requires
        c is Connect,
        w.seen == Set::<Seq<char>>::empty(),
        run(c, w).result is Ok,
        feed::gathered(found) == met_posts(w),
        0 <= i < found.len(),
    ensures
        found[i] matches Ok((_, post)) && sent_link(w, post.uri) matches Ok(url) && urls(
            run(c, w).sent,
        ).contains(url),
{
    check_is_complete(c, w);
    check_covers_what_is_found(c, w, found, i);
}

/// A feed that was checked well and has not changed since brings nothing new: the next check of the
/// source sends nothing and says so, whoever asks for it.
pub proof fn second_check_is_silent(c: CheckView, w: World, again: CheckView, later: World)
    requires
        c is Connect,
        again is Connect,
        run(c, w).result is Ok,
        later.seen == run(c, w).seen,
        later.row == w.row,
        later.response == w.response,
        later.connected is Ok,
        later.marked is Ok,
        forall|url: Seq<char>| (#[trigger] (later.ask)(url)) is Ok,
        !later.running.contains(again->Connect_id),
    ensures
        run(again, later).sent =~= Seq::<(Moment, Seq<char>)>::empty(),
        run(again, later).seen == later.seen,
        run(again, later).result == Ok::<Seq<char>, Seq<char>>("Posted: "@ + text::digits(0)),
{
    opening(c, w);
    check_is_complete(c, w);
    opening(again, later);
    let (n, v) = opened(again, later);
    assert(met_links(later) == met_links(w));
    if met_links(w).len() > 0 {
        assert(sent_link(w, met_links(w)[0].1) is Ok);
    }
    if n is Probe {
        assert forall|k: int| tour(n).at <= k < tour(n).links.len() implies {
            &&& rules::rewritten(tour(n).url_re, (#[trigger] tour(n).links[k]).1) matches Ok(url)
            &&& v.seen.contains(url)
        } by {
            assert(sent_link(w, met_links(w)[k].1) is Ok);
        }
        tour_of_known_links_is_silent(n, v);
    }
}

/// Whatever a check sends is a post of the feed, under the link that the substitution of the source
/// makes of the link of the post.
pub proof fn check_sends_posts_of_the_feed(c: CheckView, w: World)
    requires
        c is Connect,
    ensures
        forall|i: int|
            0 <= i < run(c, w).sent.len() ==> {
                &&& w.row matches Ok(source)
                &&& stems_from(#[trigger] run(c, w).sent[i], met_links(w), source.url_re, 0)
            },
{
    opening(c, w);
    let (n, v) = opened(c, w);
    if n is Probe {
        tour_sends_in_order(n, v);
    }
}

/// A post that is recorded is never sent again: not by a later check of the source, whatever its
/// feed holds by then.
pub proof fn recorded_posts_are_not_sent_again(
    c: CheckView,
    w: World,
    again: CheckView,
    later: World,
)
    requires
        c is Connect,
        again is Connect,
        run(c, w).seen.subset_of(later.seen),
    ensures
        forall|url: Seq<char>| #[trigger]
            run(c, w).seen.contains(url) ==> !urls(run(again, later).sent).contains(url),
{
    check_sends_news_in_order(again, later);
    let sent = run(again, later).sent;
    assert forall|url: Seq<char>| #[trigger] run(c, w).seen.contains(url) implies !urls(
        sent,
    ).contains(url) by {
        if urls(sent).contains(url) {
            let i = choose|i: int| 0 <= i < urls(sent).len() && urls(sent)[i] == url;
            assert(sent[i].1 == url);
        }
    }
}

/// A check that ends well leaves no post unrecorded of those that were found in the feed.
pub proof fn check_covers_what_is_found(
    c: CheckView,
    w: World,
    found: Seq<feed::FoundView>,
    i: int,
)
    requires
        c is Connect,
        run(c, w).result is Ok,
        feed::gathered(found) == met_posts(w),
        0 <= i < found.len(),
    ensures
        found[i] matches Ok((_, post)) && sent_link(w, post.uri) matches Ok(url) && run(
            c,
            w,
        ).seen.contains(url),
{
    opening(c, w);
    check_is_complete(c, w);
    let posts = met_posts(w)->Ok_0;
    let links = feed::links_of(posts);
    feed::gathers_every_post(found, posts);
    feed::ordering_keeps_every_link(links);
    assert(found[i] == Ok::<(Moment, feed::PostView), Seq<char>>(posts[i]));
    assert(met_links(w).contains(links[i]));
    let k = choose|k: int| 0 <= k < met_links(w).len() && met_links(w)[k] == links[i];
    assert(met_links(w)[k].1 == posts[i].1.uri);
}

/// Whether links hold a link as a substitution makes it, or as it is where there is no substitution.
pub open spec fn holds(links: Set<Seq<char>>, url_re: Option<Seq<char>>, link: Seq<char>) -> bool {
    match url_re {
        None => links.contains(link),
        Some(re) => rules::substitution_refusal(re) is None && links.contains(
            rules::substituted(re, link),
        ),
    }
}

/// A check that ends well leaves nothing of the feed unrecorded: every item of an RSS channel that
/// has a link could be dated and is recorded under that link, and every entry of an Atom feed was
/// published and is recorded under the first of its links, as the substitution of the source makes
/// them.
pub proof fn check_covers_the_feed(c: CheckView, w: World, i: int)
    requires
        c is Connect,
        run(c, w).result is Ok,
    ensures
        w.row is Ok && w.response is Ok,
        feed::rss_channel((w.response->Ok_0).1) matches Ok(items) ==> (0 <= i < items.len()
            && items[i].link is Some ==> {
            &&& feed_laws::moment_owed(items[i]) is Ok
            &&& holds(run(c, w).seen, (w.row->Ok_0).url_re, items[i].link->0)
        }),
        feed::rss_channel((w.response->Ok_0).1) == Err::<
            Seq<feed::RssItemView>,
            feed::RssFailureView,
        >(feed::RssFailureView::InvalidStartTag) ==> {
            &&& feed::atom_feed((w.response->Ok_0).1) matches Ok(entries)
            &&& 0 <= i < entries.len() ==> {
                &&& entries[i].published is Some
                &&& entries[i].links.len() > 0
                &&& holds(run(c, w).seen, (w.row->Ok_0).url_re, entries[i].links[0])
            }
        },
        !(feed::rss_channel((w.response->Ok_0).1) matches Err(feed::RssFailureView::Other(_))),
{
    opening(c, w);
    let (status, content) = w.response->Ok_0;
    let source = w.row->Ok_0;
    feed_laws::content_is_rss_or_atom_or_refused(source.url, status, content);
    match feed::rss_channel(content) {
        Ok(items) => {
            feed_laws::every_item_with_a_link_is_found(items);
            if 0 <= i < items.len() && items[i].link is Some {
                let k = feed_laws::linked(items.take(i)) as int;
                check_covers_what_is_found(c, w, feed::rss_found(items), k);
            }
        },
        Err(feed::RssFailureView::InvalidStartTag) => {
            if let Ok(entries) = feed::atom_feed(content) {
                if 0 <= i < entries.len() {
                    feed_laws::every_entry_is_found(entries, i);
                    check_covers_what_is_found(c, w, feed::atom_found(entries), i);
                }
            }
        },
        _ => {},
    }
}

/// Whatever a check sends out of an RSS channel is an item of it that has a link, with the moment of
/// that item, under the link that the substitution of the source makes of it.
pub proof fn check_sends_items_of_the_channel(
    c: CheckView,
    w: World,
    items: Seq<feed::RssItemView>,
    k: int,
)
    requires
        c is Connect,
        w.response is Ok,
        feed::rss_channel((w.response->Ok_0).1) == Ok::<
            Seq<feed::RssItemView>,
            feed::RssFailureView,
        >(items),
        0 <= k < run(c, w).sent.len(),
    ensures
        w.row is Ok,
        exists|i: int|
            {
                &&& 0 <= i < items.len()
                &&& (#[trigger] items[i]).link is Some
                &&& feed_laws::moment_owed(items[i]) == Ok::<Moment, Seq<char>>(
                    run(c, w).sent[k].0,
                )
                &&& holds(set![run(c, w).sent[k].1], (w.row->Ok_0).url_re, items[i].link->0)
            },
{
    check_sends_posts_of_the_feed(c, w);
    let source = w.row->Ok_0;
    let (status, content) = w.response->Ok_0;
    let sent = run(c, w).sent[k];
    assert(stems_from(sent, met_links(w), source.url_re, 0));
    let j = choose|j: int|
        {
            &&& 0 <= j < met_links(w).len()
            &&& sent.0 == (#[trigger] met_links(w)[j]).0
            &&& rules::rewritten(source.url_re, met_links(w)[j].1) == Ok::<Seq<char>, Seq<char>>(
                sent.1,
            )
        };
    feed_laws::content_is_rss_or_atom_or_refused(source.url, status, content);
    let found = feed::rss_found(items);
    let posts = met_posts(w)->Ok_0;
    let links = feed::links_of(posts);
    feed::ordering_keeps_every_link(links);
    assert(links.contains(met_links(w)[j]));
    let p = choose|p: int| 0 <= p < links.len() && links[p] == met_links(w)[j];
    feed::gathers_every_post(found, posts);
    assert(found[p] == Ok::<(Moment, feed::PostView), Seq<char>>(posts[p]));
    feed_laws::every_item_with_a_link_is_found(items);
    assert(feed_laws::stands_for_an_item(items, p));
    let i = choose|i: int|
        {
            &&& 0 <= i < items.len()
            &&& (#[trigger] items[i]).link is Some
            &&& p == feed_laws::linked(items.take(i))
        };
    assert(feed_laws::is_post_of(found[p], items[i]));
}

/// The links that a table of posts has for a source.
pub open spec fn links_in(rows: sql_laws::PostRows, id: int) -> Set<Seq<char>> {
    Set::new(|url: Seq<char>| rows.contains((id, url)))
}

/// What a check knows of the links that were sent is what the statements that it runs read and write:
/// asking for a post is answered by whether its link is among those of the source, and recording it
/// adds its link to those of that source and to those of no other.
pub proof fn statements_keep_the_links(
    p: &Probe,
    ask: sql::Query,
    s: &Record,
    record: sql::Query,
    rows: sql_laws::PostRows,
    other: int,
    w: World,
)
    requires
        call_ensures(Probe::query, (p,), ask),
        call_ensures(Record::query, (s,), record),
        p.tour.token.of() == s.tour.token.of(),
        w.seen == links_in(rows, p.tour.token.of() as int),
        other != p.tour.token.of(),
    ensures
        (w.ask)(p.url@) is Ok ==> w.answer(p.url@) == Ok::<Option<bool>, Seq<char>>(
            Some(sql_laws::found_in(ask, rows)),
        ),
        (w.store)(s.url@) is Ok ==> w.recorded(s.url@).seen =~= links_in(
            sql_laws::recorded_in(record, rows),
            s.tour.token.of() as int,
        ),
        links_in(sql_laws::recorded_in(record, rows), other) =~= links_in(rows, other),
{
    sql_laws::reveal_query(ask);
    sql_laws::reveal_query(record);
}

/// A tour on which nothing fails ends well.
proof fn tour_ends_well(c: CheckView, w: World)
    requires
        sound(c, w),
        forall|url: Seq<char>| (#[trigger] (w.ask)(url)) is Ok,
        forall|url: Seq<char>| (#[trigger] (w.deliver)(url)) is Ok,
        forall|url: Seq<char>| (#[trigger] (w.store)(url)) is Ok,
        forall|k: int|
            tour(c).at <= k < tour(c).links.len() ==> rules::rewritten(
                tour(c).url_re,
                (#[trigger] tour(c).links[k]).1,
            ) is Ok,
    ensures
        run(c, w).result is Ok,
    decreases posts_left(c), steps_left(c),
{
    step_is_sound(c, w);
    let (n, v) = step(c, w);
    let t = tour(c);
    if t.at + 1 < t.links.len() {
        assert(rules::rewritten(t.url_re, t.links[t.at as int + 1].1) is Ok);
    }
    if on_tour(n) {
        tour_ends_well(n, v);
    }
}

/// A check on which nothing fails ends well: the source is not being checked already, there are a
/// connection, a row and an answer of the server, the posts can be read, the substitution of the
/// source accepts every link, and each link can be asked for, sent and recorded.
pub proof fn check_ends_well(c: CheckView, w: World)
    requires
        c is Connect,
        !w.running.contains(c->Connect_id),
        w.connected is Ok,
        w.row is Ok,
        w.marked is Ok,
        w.response is Ok,
        met_posts(w) is Ok,
        forall|k: int|
            0 <= k < met_links(w).len() ==> sent_link(w, (#[trigger] met_links(w)[k]).1) is Ok,
        forall|url: Seq<char>| (#[trigger] (w.ask)(url)) is Ok,
        forall|url: Seq<char>| (#[trigger] (w.deliver)(url)) is Ok,
        forall|url: Seq<char>| (#[trigger] (w.store)(url)) is Ok,
    ensures
        run(c, w).result is Ok,
{
    opening(c, w);
    let (n, v) = opened(c, w);
    if met_links(w).len() > 0 {
        assert(sent_link(w, met_links(w)[0].1) is Ok);
    }
    if n is Probe {
        assert forall|k: int| tour(n).at <= k < tour(n).links.len() implies rules::rewritten(
            tour(n).url_re,
            (#[trigger] tour(n).links[k]).1,
        ) is Ok by {
            assert(sent_link(w, met_links(w)[k].1) is Ok);
        }
        tour_ends_well(n, v);
    }
}

} // verus!

//! What holds of the posts that are read out of feeds.

use crate::feed::{
    self, AtomEntry, AtomEntryView, DateText, Found, FoundView, Person, Post, Posts, RssFailure,
    RssFailureView, RssItem, RssItemView,
};
use crate::moment::{self, Moment};
use crate::text;
use crate::text_laws::chars;
use vstd::prelude::*;

verus! {

/// What is read of an item is what the item holds, each part in its place.
pub proof fn items_are_seen_whole(item: RssItem)
    ensures
        item@.link == chars(item.link),
        item@.pub_date == chars(item.pub_date),
        item@.title == chars(item.title),
        item@.author == chars(item.author),
        item@.content == chars(item.content),
        item.core_dates is None <==> item@.core_dates is None,
        item.core_dates matches Some(dates) ==> {
            &&& item@.core_dates->0.len() == dates@.len()
            &&& forall|i: int|
                0 <= i < dates@.len() ==> item@.core_dates->0[i] == (#[trigger] dates@[i])@
        },
{
}

/// What is read of an entry is what the entry holds, each part in its place.
pub proof fn entries_are_seen_whole(entry: AtomEntry)
    ensures
        entry@.published == entry.published,
        entry@.title == entry.title@,
        entry@.summary == chars(entry.summary),
        entry@.links.len() == entry.links@.len(),
        forall|i: int|
            0 <= i < entry.links@.len() ==> entry@.links[i] == (#[trigger] entry.links@[i])@,
        entry@.authors.len() == entry.authors@.len(),
        forall|i: int|
            0 <= i < entry.authors@.len() ==> {
                &&& entry@.authors[i].name == (#[trigger] entry.authors@[i]).name@
                &&& entry@.authors[i].email == chars(entry.authors@[i].email)
            },
{
}

/// What is read of a person is the name and the address of that person.
pub proof fn people_are_seen_whole(person: Person)
    ensures
        person@.name == person.name@,
        person@.email == chars(person.email),
{
}

/// What is read of a post is what the post holds, each part in its place.
pub proof fn posts_are_seen_whole(post: Post)
    ensures
        post@.uri == post.uri@,
        post@.title == post.title@,
        post@.authors == post.authors@,
        post@.summary == post.summary@,
{
}

/// The moment of an item: the one that its publishing date stands for, or else the one that the
/// first date of its Dublin Core extension stands for; or why it has none.
pub open spec fn moment_owed(item: RssItemView) -> Result<Moment, Seq<char>> {
    if item.pub_date is Some {
        moment::rfc2822_moment(item.pub_date->0)
    } else if item.core_dates is None {
        Err("Feed item misses posting date."@)
    } else if item.core_dates->0.len() == 0 {
        Err("Feed item has Dublin Core extension but no dates."@)
    } else {
        moment::rfc3339_moment(item.core_dates->0[0])
    }
}

/// Whether a post is the one of an item that has a link.
pub open spec fn is_post_of(found: FoundView, item: RssItemView) -> bool {
    match (moment_owed(item), found) {
        (Ok(owed), Ok((date, post))) => {
            &&& date == owed
            &&& Some(post.uri) == item.link
            &&& item.title is Some ==> Some(post.title) == item.title
            &&& item.title is None ==> post.title.len() == 0
            &&& item.author is Some ==> Some(post.authors) == item.author
            &&& item.author is None ==> post.authors.len() == 0
            &&& item.content is Some ==> Some(post.summary) == item.content
            &&& item.content is None ==> post.summary.len() == 0
        },
        (Err(owed), Err(e)) => e == owed,
        _ => false,
    }
}

/// How many items have a link.
pub open spec fn linked(items: Seq<RssItemView>) -> nat
    decreases items.len(),
{
    if items.len() == 0 {
        0
    } else {
        linked(items.drop_last()) + if items.last().link is Some {
            1nat
        } else {
            0nat
        }
    }
}

/// Whether a place is that of the post of an item with a link.
pub open spec fn stands_for_an_item(items: Seq<RssItemView>, k: int) -> bool {
    exists|i: int|
        {
            &&& 0 <= i < items.len()
            &&& (#[trigger] items[i]).link is Some
            &&& k == linked(items.take(i))
        }
}

/// Every item that has a link has a post, at the place that the number of such items before it
/// gives; there are no other posts.
pub proof fn every_item_with_a_link_is_found(items: Seq<RssItemView>)
    ensures
        feed::rss_found(items).len() == linked(items),
        linked(items) <= items.len(),
        forall|i: int|
            0 <= i < items.len() && (#[trigger] items[i]).link is Some ==> {
                &&& linked(items.take(i)) < linked(items)
                &&& is_post_of(feed::rss_found(items)[linked(items.take(i)) as int], items[i])
            },
        forall|k: int| 0 <= k < linked(items) ==> #[trigger] stands_for_an_item(items, k),
    decreases items.len(),
{
    if items.len() > 0 {
        let front = items.drop_last();
        every_item_with_a_link_is_found(front);
        assert forall|k: int| 0 <= k < linked(items) implies #[trigger] stands_for_an_item(
            items,
            k,
        ) by {
            if k < linked(front) {
                assert(stands_for_an_item(front, k));
                let i = choose|i: int|
                    {
                        &&& 0 <= i < front.len()
                        &&& (#[trigger] front[i]).link is Some
                        &&& k == linked(front.take(i))
                    };
                assert(front.take(i) =~= items.take(i));
                assert(items[i].link is Some);
            } else {
                assert(items.take(items.len() - 1) =~= front);
                assert(items[items.len() - 1].link is Some);
            }
        }
        assert forall|i: int| 0 <= i < items.len() && (#[trigger] items[i]).link is Some implies {
            &&& linked(items.take(i)) < linked(items)
            &&& is_post_of(feed::rss_found(items)[linked(items.take(i)) as int], items[i])
        } by {
            if i < front.len() {
                assert(front[i] == items[i]);
                assert(front.take(i) =~= items.take(i));
            } else {
                assert(items.take(i) =~= front);
            }
        }
    }
}

/// Whether a post has the link and the texts of an item, and nothing where the item has no such text.
pub open spec fn has_texts_of(post: Post, item: RssItem) -> bool {
    &&& Some(post.uri@) == chars(item.link)
    &&& Some(post.title@) == chars(item.title) || (item.title is None && post.title@.len() == 0)
    &&& Some(post.authors@) == chars(item.author) || (item.author is None && post.authors@.len()
        == 0)
    &&& Some(post.summary@) == chars(item.content) || (item.content is None && post.summary@.len()
        == 0)
}

/// The post of an item has the link that is given for it, the texts of the item and the moment that
/// was read, or is the reason why none was read.
pub proof fn items_become_posts(
    item: &RssItem,
    link: &str,
    date: Result<Moment, String>,
    r: Found,
)
    requires
        call_ensures(feed::rss_post, (item, link, date), r),
    ensures
        date matches Ok(d) ==> {
            &&& r is Ok
            &&& (r->Ok_0).0 == d
            &&& (r->Ok_0).1.uri@ == link@
            &&& Some(link@) == chars(item.link) ==> has_texts_of((r->Ok_0).1, *item)
            &&& item.title matches Some(t) ==> (r->Ok_0).1.title@ == t@
            &&& item.author matches Some(t) ==> (r->Ok_0).1.authors@ == t@
            &&& item.content matches Some(t) ==> (r->Ok_0).1.summary@ == t@
        },
        date matches Err(e) ==> (r matches Err(f) && f@ == e@),
{
}

/// The posts that are found in an RSS channel are one for each item that has a link, with that link,
/// the moment of that item and its texts, in the order of the items.
pub proof fn rss_channels_are_read_whole(items: &Vec<RssItem>, found: Vec<Found>, i: int)
    requires
        call_ensures(feed::find_rss, (items,), found),
    ensures
        found@.len() == linked(feed::rss_items(items@)),
        feed::rss_items(items@).len() == items@.len(),
        0 <= i < items@.len() ==> feed::rss_items(items@)[i] == items@[i]@,
        0 <= i < items@.len() && items@[i].link is Some ==> {
            let k = linked(feed::rss_items(items@).take(i)) as int;
            &&& 0 <= k < found@.len()
            &&& match (moment_owed(items@[i]@), found@[k]) {
                (Ok(owed), Ok((date, post))) => date == owed && has_texts_of(post, items@[i]),
                (Err(owed), Err(e)) => e@ == owed,
                _ => false,
            }
        },
{
    let views = feed::rss_items(items@);
    every_item_with_a_link_is_found(views);
    assert(feed::found_views(found@).len() == found@.len());
    if 0 <= i < items@.len() && items@[i].link is Some {
        assert(views[i] == items@[i]@);
        let k = linked(views.take(i)) as int;
        assert(feed::found_views(found@)[k] == feed::found_view(found@[k]));
    }
}

/// How a person is shown: the name, and the address or that there is none.
pub open spec fn shown(person: feed::PersonView) -> Seq<char> {
    match person.email {
        Some(email) => person.name + " <"@ + ("Some("@ + text::quoted(email) + ")"@) + ">"@,
        None => person.name + " <"@ + "None"@ + ">"@,
    }
}

/// Whether a post is the one of an entry.
pub open spec fn is_post_of_entry(found: FoundView, entry: AtomEntryView) -> bool {
    match found {
        Ok((date, post)) => {
            &&& entry.published == Some(date)
            &&& entry.links.len() > 0
            &&& post.uri == entry.links[0]
            &&& post.title == entry.title
            &&& entry.summary is Some ==> Some(post.summary) == entry.summary
            &&& entry.summary is None ==> post.summary.len() == 0
            &&& post.authors == text::joined(
                Seq::new(entry.authors.len(), |k: int| shown(entry.authors[k])),
                ", "@,
            )
        },
        Err(e) => {
            ||| entry.published is None && e == "Feed item missing publishing date."@
            ||| {
                &&& entry.published is Some
                &&& entry.links.len() == 0
                &&& e == "Feed item missing post links."@
            }
        },
    }
}

/// Every entry of an Atom feed has a post at its own place: at the moment when it was published, with
/// the first of its links, or the reason why there is none.
pub proof fn every_entry_is_found(entries: Seq<AtomEntryView>, i: int)
    requires
        0 <= i < entries.len(),
    ensures
        feed::atom_found(entries).len() == entries.len(),
        is_post_of_entry(feed::atom_found(entries)[i], entries[i]),
{
    let entry = entries[i];
    assert(feed::atom_found(entries)[i] == entry.found());
    assert(entry.authors.map_values(|p: feed::PersonView| p.to_text()) =~= Seq::new(
        entry.authors.len(),
        |k: int| shown(entry.authors[k]),
    ));
}

/// Whether a post is the one of an entry: at the moment when the entry was published, with its first
/// link, its title, its summary and the people who wrote it.
pub open spec fn is_raw_post_of(found: Found, entry: AtomEntry) -> bool {
    match found {
        Ok((date, post)) => {
            &&& entry.published == Some(date)
            &&& entry.links@.len() > 0
            &&& post.uri@ == entry.links@[0]@
            &&& post.title@ == entry.title@
            &&& Some(post.summary@) == chars(entry.summary) || (entry.summary is None
                && post.summary@.len() == 0)
            &&& post.authors@ == text::joined(
                Seq::new(entry.authors@.len(), |k: int| shown(entry.authors@[k]@)),
                ", "@,
            )
        },
        Err(e) => {
            ||| entry.published is None && e@ == "Feed item missing publishing date."@
            ||| {
                &&& entry.published is Some
                &&& entry.links@.len() == 0
                &&& e@ == "Feed item missing post links."@
            }
        },
    }
}

/// The post of an entry is read out of it whole, or is the reason why it is none.
pub proof fn entries_become_posts(entry: &AtomEntry, r: Found)
    requires
        call_ensures(feed::atom_post, (entry,), r),
    ensures
        is_raw_post_of(r, *entry),
        r is Ok <==> entry.published is Some && entry.links@.len() > 0,
{
    let view = entry@;
    assert(view.links.len() == entry.links@.len());
    assert(view.authors.map_values(|p: feed::PersonView| p.to_text()) =~= Seq::new(
        entry.authors@.len(),
        |k: int| shown(entry.authors@[k]@),
    ));
}

/// The posts that are found in an Atom feed are one for each entry, in the order of the entries.
pub proof fn atom_feeds_are_read_whole(entries: &Vec<AtomEntry>, found: Vec<Found>, i: int)
    requires
        call_ensures(feed::find_atom, (entries,), found),
    ensures
        found@.len() == entries@.len(),
        0 <= i < entries@.len() ==> {
            &&& is_post_of_entry(feed::found_view(found@[i]), entries@[i]@)
            &&& is_raw_post_of(found@[i], entries@[i])
        },
{
    let views = feed::atom_entries(entries@);
    assert(views.len() == entries@.len());
    assert(feed::found_views(found@).len() == found@.len());
    assert(feed::atom_found(views).len() == views.len());
    if 0 <= i < entries@.len() {
        assert(views[i] == entries@[i]@);
        every_entry_is_found(views, i);
        assert(feed::found_views(found@)[i] == feed::found_view(found@[i]));
        let entry = entries@[i];
        assert(entry@.links.len() == entry.links@.len());
        assert(Seq::new(entry@.authors.len(), |k: int| shown(entry@.authors[k])) =~= Seq::new(
            entry.authors@.len(),
            |k: int| shown(entry.authors@[k]@),
        ));
    }
}

/// Posts that were found are gathered all of them, each at its place, where each could be read; and
/// where one could not be, the reason is that of the first of these.
pub proof fn gathering_keeps_every_post_or_the_first_reason(found: Seq<FoundView>)
    ensures
        (forall|i: int| 0 <= i < found.len() ==> (#[trigger] found[i]) is Ok) <==> feed::gathered(
            found,
        ) is Ok,
        feed::gathered(found) matches Ok(posts) ==> {
            &&& posts.len() == found.len()
            &&& forall|i: int|
                0 <= i < found.len() ==> (#[trigger] found[i]) is Ok && found[i]->Ok_0 == posts[i]
        },
        feed::gathered(found) matches Err(e) ==> exists|i: int|
            {
                &&& 0 <= i < found.len()
                &&& #[trigger] found[i] is Err
                &&& found[i]->Err_0 == e
                &&& forall|j: int| 0 <= j < i ==> (#[trigger] found[j]) is Ok
            },
    decreases found.len(),
{
    if found.len() > 0 {
        let front = found.drop_last();
        gathering_keeps_every_post_or_the_first_reason(front);
        assert(forall|i: int| 0 <= i < front.len() ==> #[trigger] front[i] == found[i]);
        match feed::gathered(front) {
            Err(e) => {
                let i = choose|i: int|
                    {
                        &&& 0 <= i < front.len()
                        &&& #[trigger] front[i] is Err
                        &&& front[i]->Err_0 == e
                        &&& forall|j: int| 0 <= j < i ==> (#[trigger] front[j]) is Ok
                    };
                assert(found[i] == front[i]);
                assert forall|j: int| 0 <= j < i implies (#[trigger] found[j]) is Ok by {
                    assert(front[j] == found[j]);
                }
            },
            Ok(posts) => {
                assert forall|i: int| 0 <= i < front.len() implies (#[trigger] found[i]) is Ok
                    && found[i]->Ok_0 == posts[i] by {
                    assert(front[i] == found[i]);
                }
                assert(found[found.len() - 1] == found.last());
            },
        }
    }
}

/// Whether two posts have the same texts.
pub open spec fn same_post(a: Post, b: Post) -> bool {
    &&& a.uri@ == b.uri@
    &&& a.title@ == b.title@
    &&& a.authors@ == b.authors@
    &&& a.summary@ == b.summary@
}

/// What gathering does to the posts themselves: none is lost, and none is changed.
pub proof fn gathering_loses_nothing(found: Vec<Found>, r: Result<Posts, String>)
    requires
        call_ensures(feed::gather, (found,), r),
    ensures
        r matches Ok(posts) ==> {
            &&& posts@.len() == found@.len()
            &&& forall|i: int|
                #![trigger found@[i]]
                0 <= i < found@.len() ==> {
                    &&& found@[i] matches Ok((date, post))
                    &&& posts@[i].0 == date
                    &&& same_post(posts@[i].1, post)
                }
        },
        r matches Err(e) ==> exists|i: int|
            #![trigger found@[i]]
            {
                &&& 0 <= i < found@.len()
                &&& found@[i] is Err
                &&& found@[i]->Err_0@ == e@
                &&& forall|j: int| #![trigger found@[j]] 0 <= j < i ==> found@[j] is Ok
            },
{
    let views = feed::found_views(found@);
    gathering_keeps_every_post_or_the_first_reason(views);
    assert(forall|i: int|
        0 <= i < found@.len() ==> #[trigger] views[i] == feed::found_view(found@[i]));
    match r {
        Ok(posts) => {
            assert(feed::post_views(posts@).len() == posts@.len());
            assert forall|i: int|
                #![trigger found@[i]]
                0 <= i < found@.len() implies {
                &&& found@[i] matches Ok((date, post))
                &&& posts@[i].0 == date
                &&& same_post(posts@[i].1, post)
            } by {
                assert(views[i] == feed::found_view(found@[i]));
                assert(feed::post_views(posts@)[i] == (posts@[i].0, posts@[i].1@));
            }
        },
        Err(e) => {
            let i = choose|i: int|
                {
                    &&& 0 <= i < views.len()
                    &&& #[trigger] views[i] is Err
                    &&& views[i]->Err_0 == e@
                    &&& forall|j: int| 0 <= j < i ==> (#[trigger] views[j]) is Ok
                };
            assert(views[i] == feed::found_view(found@[i]));
            assert forall|j: int| #![trigger found@[j]] 0 <= j < i implies found@[j] is Ok by {
                assert(views[j] == feed::found_view(found@[j]));
            }
        },
    }
}

/// What is said of content that is no feed: the link, the reason and the status.
pub open spec fn no_feed(url: Seq<char>, reason: Seq<char>, status: u16) -> Seq<char> {
    "Unsupported or mangled content:\n"@ + text::quoted(url) + "\n"@ + reason + "\n"@
        + text::digits(status as nat) + "\n"@
}

/// Content is read as RSS; as Atom if and only if it starts like another format; content that ends
/// before it says anything has no posts; and everything else is refused with link, reason and
/// status.
pub proof fn content_is_rss_or_atom_or_refused(url: Seq<char>, status: u16, content: Seq<u8>)
    ensures
        feed::rss_channel(content) matches Ok(items) ==> feed::content_posts(url, status, content)
            == feed::gathered(feed::rss_found(items)),
        feed::rss_channel(content) == Err::<Seq<RssItemView>, RssFailureView>(
            RssFailureView::InvalidStartTag,
        ) ==> {
            &&& feed::atom_feed(content) matches Ok(entries) ==> feed::content_posts(
                url,
                status,
                content,
            ) == feed::gathered(feed::atom_found(entries))
            &&& feed::atom_feed(content) matches Err(e) ==> (feed::content_posts(
                url,
                status,
                content,
            ) matches Err(f) && f == no_feed(url, e, status))
        },
        feed::rss_channel(content) == Err::<Seq<RssItemView>, RssFailureView>(RssFailureView::Eof)
            ==> (feed::content_posts(url, status, content) matches Ok(posts) && posts.len() == 0),
        feed::rss_channel(content) matches Err(RssFailureView::Other(e)) ==> (feed::content_posts(
            url,
            status,
            content,
        ) matches Err(f) && f == no_feed(url, e, status)),
{
}

/// What the bytes of an answer hold decides what is read out of them.
pub proof fn content_is_read(url: &str, status: u16, content: &[u8], r: Result<Posts, String>)
    requires
        call_ensures(feed::posts_in, (url, status, content), r),
    ensures
        match (feed::content_posts(url@, status, content@), r) {
            (Ok(owed), Ok(posts)) => {
                &&& posts@.len() == owed.len()
                &&& forall|i: int|
                    #![trigger posts@[i]]
                    0 <= i < owed.len() ==> {
                        &&& posts@[i].0 == owed[i].0
                        &&& posts@[i].1.uri@ == owed[i].1.uri
                        &&& posts@[i].1.title@ == owed[i].1.title
                        &&& posts@[i].1.authors@ == owed[i].1.authors
                        &&& posts@[i].1.summary@ == owed[i].1.summary
                    }
            },
            (Err(owed), Err(e)) => e@ == owed,
            _ => false,
        },
{
    match r {
        Ok(posts) => {
            assert(feed::post_views(posts@).len() == posts@.len());
            assert forall|i: int| #![trigger posts@[i]] 0 <= i < posts@.len() implies {
                feed::post_views(posts@)[i] == (posts@[i].0, posts@[i].1@)
            } by {}
        },
        Err(_) => {},
    }
}

/// What was read of the two formats decides the posts: those of the items with links, those of the
/// entries, none, or a refusal.
pub proof fn readings_decide_the_posts(
    url: &str,
    status: u16,
    rss: Result<Vec<RssItem>, RssFailure>,
    atom: Result<Vec<AtomEntry>, String>,
    r: Result<Posts, String>,
)
    requires
        call_ensures(feed::posts_of, (url, status, rss, atom), r),
    ensures
        rss is Ok && r is Ok ==> r->Ok_0@.len() == linked(feed::rss_items(rss->Ok_0@)),
        rss matches Err(RssFailure::InvalidStartTag) && atom is Ok && r is Ok ==> r->Ok_0@.len()
            == atom->Ok_0@.len(),
        rss matches Err(RssFailure::InvalidStartTag) && atom is Err ==> (r matches Err(e) && e@
            == no_feed(url@, atom->Err_0@, status)),
        rss matches Err(RssFailure::Eof) ==> r is Ok && r->Ok_0@.len() == 0,
        rss matches Err(RssFailure::Other(f)) ==> (r matches Err(e) && e@ == no_feed(
            url@,
            f@,
            status,
        )),
{
    if let Ok(posts) = r {
        assert(feed::post_views(posts@).len() == posts@.len());
    }
    match rss {
        Ok(items) => {
            let views = feed::rss_items(items@);
            every_item_with_a_link_is_found(views);
            gathering_keeps_every_post_or_the_first_reason(feed::rss_found(views));
        },
        Err(RssFailure::InvalidStartTag) => {
            if let Ok(entries) = atom {
                let views = feed::atom_entries(entries@);
                assert(views.len() == entries@.len());
                gathering_keeps_every_post_or_the_first_reason(feed::atom_found(views));
            }
        },
        _ => {},
    }
}

/// Whether two readings of a feed have the same posts in the same order, or fail alike.
pub open spec fn same_outcome(a: Result<Posts, String>, b: Result<Posts, String>) -> bool {
    match (a, b) {
        (Ok(a), Ok(b)) => {
            &&& a@.len() == b@.len()
            &&& forall|i: int|
                #![trigger a@[i]]
                0 <= i < a@.len() ==> a@[i].0 == b@[i].0 && same_post(a@[i].1, b@[i].1)
        },
        (Err(a), Err(b)) => a@ == b@,
        _ => false,
    }
}

proof fn same_views_are_the_same(a: Result<Posts, String>, b: Result<Posts, String>)
    requires
        feed::posts_outcome(a) == feed::posts_outcome(b),
    ensures
        same_outcome(a, b),
{
    if a is Ok && b is Ok {
        let (x, y) = ((a->Ok_0)@, (b->Ok_0)@);
        assert(feed::post_views(x).len() == x.len());
        assert(feed::post_views(y).len() == y.len());
        assert forall|i: int| #![trigger x[i]] 0 <= i < x.len() implies x[i].0 == y[i].0
            && same_post(x[i].1, y[i].1) by {
            assert(feed::post_views(x)[i] == (x[i].0, x[i].1@));
            assert(feed::post_views(y)[i] == (y[i].0, y[i].1@));
        }
    }
}

/// What is read as RSS is gathered out of its items, and what is read as Atom because it starts like
/// another format is gathered out of its entries.
pub proof fn readings_are_gathered(
    url: &str,
    status: u16,
    rss: Result<Vec<RssItem>, RssFailure>,
    atom: Result<Vec<AtomEntry>, String>,
    r: Result<Posts, String>,
    found: Vec<Found>,
    g: Result<Posts, String>,
)
    requires
        call_ensures(feed::posts_of, (url, status, rss, atom), r),
        call_ensures(feed::gather, (found,), g),
    ensures
        rss is Ok && call_ensures(feed::find_rss, (&(rss->Ok_0),), found) ==> same_outcome(r, g),
        rss == Err::<Vec<RssItem>, RssFailure>(RssFailure::InvalidStartTag) && atom is Ok
            && call_ensures(feed::find_atom, (&(atom->Ok_0),), found) ==> same_outcome(r, g),
{
    if rss is Ok && call_ensures(feed::find_rss, (&(rss->Ok_0),), found) {
        same_views_are_the_same(r, g);
    }
    if rss == Err::<Vec<RssItem>, RssFailure>(RssFailure::InvalidStartTag) && atom is Ok
        && call_ensures(feed::find_atom, (&(atom->Ok_0),), found) {
        same_views_are_the_same(r, g);
    }
}

/// The links of posts are listed without loss: as many as there are posts, each post among them with
/// its own moment and link, the oldest first, and those of one moment in the order of the posts.
pub proof fn posts_are_listed_by_age(posts: &Posts, r: Vec<(Moment, String)>)
    requires
        call_ensures(feed::list_links, (posts,), r),
    ensures
        r@.len() == posts@.len(),
        forall|i: int, j: int|
            0 <= i < j < r@.len() ==> {
                ||| (#[trigger] r@[i]).0.0 < (#[trigger] r@[j]).0.0
                ||| r@[i].0.0 == r@[j].0.0 && r@[i].0.1 <= r@[j].0.1
            },
        forall|i: int|
            0 <= i < posts@.len() ==> exists|k: int|
                0 <= k < r@.len() && (#[trigger] r@[k]).0 == (#[trigger] posts@[i]).0 && r@[k].1@
                    == posts@[i].1.uri@,
        forall|k: int|
            0 <= k < r@.len() ==> exists|i: int|
                0 <= i < posts@.len() && (#[trigger] r@[k]).0 == (#[trigger] posts@[i]).0 && r@[k].1@
                    == posts@[i].1.uri@,
        forall|date: Moment| #[trigger]
            feed::of_moment(feed::link_rows(r@), date) == feed::of_moment(
                Seq::new(posts@.len(), |i: int| (posts@[i].0, posts@[i].1.uri@)),
                date,
            ),
{
    let links = feed::links_of(feed::post_views(posts@));
    let rows = feed::link_rows(r@);
    feed::ordering_keeps_every_link(links);
    assert(rows.len() == r@.len());
    assert(links =~= Seq::new(posts@.len(), |i: int| (posts@[i].0, posts@[i].1.uri@)));
    assert forall|i: int, j: int| 0 <= i < j < r@.len() implies {
        ||| (#[trigger] r@[i]).0.0 < (#[trigger] r@[j]).0.0
        ||| r@[i].0.0 == r@[j].0.0 && r@[i].0.1 <= r@[j].0.1
    } by {
        assert(rows[i] == (r@[i].0, r@[i].1@) && rows[j] == (r@[j].0, r@[j].1@));
        assert(!moment::before(rows[j].0, rows[i].0));
    }
    assert forall|i: int| 0 <= i < posts@.len() implies exists|k: int|
        0 <= k < r@.len() && (#[trigger] r@[k]).0 == (#[trigger] posts@[i]).0 && r@[k].1@
            == posts@[i].1.uri@ by {
        assert(links[i] == (posts@[i].0, posts@[i].1.uri@));
        assert(rows.contains(links[i]));
        let k = choose|k: int| 0 <= k < rows.len() && rows[k] == links[i];
        assert(rows[k] == (r@[k].0, r@[k].1@));
    }
    assert forall|k: int| 0 <= k < r@.len() implies exists|i: int|
        0 <= i < posts@.len() && (#[trigger] r@[k]).0 == (#[trigger] posts@[i]).0 && r@[k].1@
            == posts@[i].1.uri@ by {
        assert(rows[k] == (r@[k].0, r@[k].1@));
        assert(links.contains(rows[k]));
        let i = choose|i: int| 0 <= i < links.len() && links[i] == rows[k];
        assert(links[i] == (posts@[i].0, posts@[i].1.uri@));
    }
}

/// Picking out the links of one moment keeps exactly those, in their order.
pub proof fn moments_are_picked_out(links: Seq<(Moment, Seq<char>)>, link: (Moment, Seq<char>), date: Moment)
    ensures
        feed::of_moment(Seq::empty(), date) =~= Seq::<(Moment, Seq<char>)>::empty(),
        feed::of_moment(links.push(link), date) == if link.0 == date {
            feed::of_moment(links, date).push(link)
        } else {
            feed::of_moment(links, date)
        },
{
    assert(links.push(link).drop_last() =~= links);
}

/// The date of an item is its publishing date, or else the first of its extension, and is read in
/// the format of the place where it stands.
pub proof fn dates_are_read_in_their_format(
    item: &RssItem,
    date: Result<DateText, String>,
    text: DateText,
    r: Result<Moment, String>,
)
    requires
        call_ensures(feed::rss_date, (item,), date),
        call_ensures(feed::read_date, (&text,), r),
    ensures
        item.pub_date matches Some(d) ==> (date matches Ok(DateText::Rfc2822(t)) && t@ == d@),
        item.pub_date is None && item.core_dates is Some && item.core_dates->0@.len() > 0 ==> (
        date matches Ok(DateText::Rfc3339(t)) && t@ == item.core_dates->0@[0]@),
        item.pub_date is None && item.core_dates is Some && item.core_dates->0@.len() == 0 ==> (
        date matches Err(e) && e@ == "Feed item has Dublin Core extension but no dates."@),
        item.pub_date is None && item.core_dates is None ==> (date matches Err(e) && e@
            == "Feed item misses posting date."@),
        text matches DateText::Rfc2822(t) ==> match (moment::rfc2822_moment(t@), r) {
            (Ok(owed), Ok(m)) => m == owed,
            (Err(owed), Err(e)) => e@ == owed,
            _ => false,
        },
        text matches DateText::Rfc3339(t) ==> match (moment::rfc3339_moment(t@), r) {
            (Ok(owed), Ok(m)) => m == owed,
            (Err(owed), Err(e)) => e@ == owed,
            _ => false,
        },
{
}

} // verus!

//! Posts: reading them out of RSS and Atom feeds.

use crate::moment::{self, Moment};
use crate::text;
use vstd::prelude::*;

verus! {

/// One post of a feed.
#[derive(Debug)]
pub struct Post {
    pub uri: String,
    pub title: String,
    pub authors: String,
    pub summary: String,
}

/// A [`Post`] as characters.
pub ghost struct PostView {
    pub uri: Seq<char>,
    pub title: Seq<char>,
    pub authors: Seq<char>,
    pub summary: Seq<char>,
}

impl View for Post {
    type V = PostView;

    open spec fn view(&self) -> PostView {
        PostView {
            uri: self.uri@,
            title: self.title@,
            authors: self.authors@,
            summary: self.summary@,
        }
    }
}

/// What is read of one item of an RSS channel.
#[derive(Debug)]
pub struct RssItem {
    pub link: Option<String>,
    pub pub_date: Option<String>,
    /// The dates of the Dublin Core extension, where the item has that extension.
    pub core_dates: Option<Vec<String>>,
    pub title: Option<String>,
    pub author: Option<String>,
    pub content: Option<String>,
}

/// An [`RssItem`] as characters.
pub ghost struct RssItemView {
    pub link: Option<Seq<char>>,
    pub pub_date: Option<Seq<char>>,
    pub core_dates: Option<Seq<Seq<char>>>,
    pub title: Option<Seq<char>>,
    pub author: Option<Seq<char>>,
    pub content: Option<Seq<char>>,
}

impl View for RssItem {
    type V = RssItemView;

    open spec fn view(&self) -> RssItemView {
        RssItemView {
            link: text::opt_text(self.link),
            pub_date: text::opt_text(self.pub_date),
            core_dates: match self.core_dates {
                Some(dates) => Some(text::texts(dates@)),
                None => None,
            },
            title: text::opt_text(self.title),
            author: text::opt_text(self.author),
            content: text::opt_text(self.content),
        }
    }
}

/// A person in an Atom feed.
#[derive(Debug)]
pub struct Person {
    pub name: String,
    pub email: Option<String>,
}

/// A [`Person`] as characters.
pub ghost struct PersonView {
    pub name: Seq<char>,
    pub email: Option<Seq<char>>,
}

impl View for Person {
    type V = PersonView;

    open spec fn view(&self) -> PersonView {
        PersonView { name: self.name@, email: text::opt_text(self.email) }
    }
}

/// What is read of one entry of an Atom feed.
#[derive(Debug)]
pub struct AtomEntry {
    pub published: Option<Moment>,
    pub links: Vec<String>,
    pub authors: Vec<Person>,
    pub title: String,
    pub summary: Option<String>,
}

/// An [`AtomEntry`] as characters.
pub ghost struct AtomEntryView {
    pub published: Option<Moment>,
    pub links: Seq<Seq<char>>,
    pub authors: Seq<PersonView>,
    pub title: Seq<char>,
    pub summary: Option<Seq<char>>,
}

impl View for AtomEntry {
    type V = AtomEntryView;

    open spec fn view(&self) -> AtomEntryView {
        AtomEntryView {
            published: self.published,
            links: text::texts(self.links@),
            authors: self.authors@.map_values(|p: Person| p@),
            title: self.title@,
            summary: text::opt_text(self.summary),
        }
    }
}

/// Why some content is no RSS channel.
#[derive(Debug)]
pub enum RssFailure {
    /// The content starts with a tag of another format.
    InvalidStartTag,
    /// The content ends before a channel does.
    Eof,
    /// Anything else, in words.
    Other(String),
}

/// An [`RssFailure`] as characters.
pub ghost enum RssFailureView {
    InvalidStartTag,
    Eof,
    Other(Seq<char>),
}

impl View for RssFailure {
    type V = RssFailureView;

    open spec fn view(&self) -> RssFailureView {
        match self {
            RssFailure::InvalidStartTag => RssFailureView::InvalidStartTag,
            RssFailure::Eof => RssFailureView::Eof,
            RssFailure::Other(e) => RssFailureView::Other(e@),
        }
    }
}

/// The items of an RSS channel as characters.
pub open spec fn rss_items(items: Seq<RssItem>) -> Seq<RssItemView> {
    items.map_values(|i: RssItem| i@)
}

/// The entries of an Atom feed as characters.
pub open spec fn atom_entries(entries: Seq<AtomEntry>) -> Seq<AtomEntryView> {
    entries.map_values(|e: AtomEntry| e@)
}

/// The outcome of reading an RSS channel as characters.
pub open spec fn rss_outcome(r: Result<Vec<RssItem>, RssFailure>) -> Result<
    Seq<RssItemView>,
    RssFailureView,
> {
    match r {
        Ok(items) => Ok(rss_items(items@)),
        Err(e) => Err(e@),
    }
}

/// The outcome of reading an Atom feed as characters.
pub open spec fn atom_outcome(r: Result<Vec<AtomEntry>, String>) -> Result<
    Seq<AtomEntryView>,
    Seq<char>,
> {
    match r {
        Ok(entries) => Ok(atom_entries(entries@)),
        Err(e) => Err(e@),
    }
}

/// The items of the RSS channel that some bytes hold, or why they hold none.
pub uninterp spec fn rss_channel(content: Seq<u8>) -> Result<Seq<RssItemView>, RssFailureView>;

/// The entries of the Atom feed that some bytes hold, or the words that say why they hold none.
pub uninterp spec fn atom_feed(content: Seq<u8>) -> Result<Seq<AtomEntryView>, Seq<char>>;

/// `rss::Channel::read_from`. The contract claims only that the items, or the error, depend on the
/// bytes alone.
#[verifier::external_body]
fn read_rss(content: &[u8]) -> (r: Result<Vec<RssItem>, RssFailure>)
    ensures
        rss_outcome(r) == rss_channel(content@),
{
    match rss::Channel::read_from(content) {
        Ok(channel) => Ok(channel.items.into_iter().map(|i| RssItem {
            link: i.link,
            pub_date: i.pub_date,
            core_dates: i.dublin_core_ext.map(|core| core.dates),
            title: i.title,
            author: i.author,
            content: i.content,
        }).collect()),
        Err(rss::Error::InvalidStartTag) => Err(RssFailure::InvalidStartTag),
        Err(rss::Error::Eof) => Err(RssFailure::Eof),
        Err(e) => Err(RssFailure::Other(e.to_string())),
    }
}

/// `atom_syndication::Feed::read_from`. The contract claims only that the entries, or the wording of
/// the error, depend on the bytes alone.
#[verifier::external_body]
fn read_atom(content: &[u8]) -> (r: Result<Vec<AtomEntry>, String>)
    ensures
        atom_outcome(r) == atom_feed(content@),
{
    match atom_syndication::Feed::read_from(content) {
        Ok(feed) => Ok(feed.entries.into_iter().map(|e| AtomEntry {
            published: e.published.map(|d| (d.timestamp(), d.timestamp_subsec_nanos())),
            links: e.links.into_iter().map(|l| l.href).collect(),
            authors: e.authors.into_iter().map(|p| Person { name: p.name, email: p.email }).collect(),
            title: e.title.value,
            summary: e.summary.map(|s| s.value),
        }).collect()),
        Err(e) => Err(e.to_string()),
    }
}

/// Where the date of an RSS item is written, by its format.
#[derive(Debug)]
pub enum DateText {
    Rfc2822(String),
    Rfc3339(String),
}

/// A [`DateText`] as characters.
pub ghost enum DateTextView {
    Rfc2822(Seq<char>),
    Rfc3339(Seq<char>),
}

impl View for DateText {
    type V = DateTextView;

    open spec fn view(&self) -> DateTextView {
        match self {
            DateText::Rfc2822(t) => DateTextView::Rfc2822(t@),
            DateText::Rfc3339(t) => DateTextView::Rfc3339(t@),
        }
    }
}

impl DateTextView {
    /// The moment that a date stands for, or why it stands for none.
    pub open spec fn moment(self) -> Result<Moment, Seq<char>> {
        match self {
            DateTextView::Rfc2822(t) => moment::rfc2822_moment(t),
            DateTextView::Rfc3339(t) => moment::rfc3339_moment(t),
        }
    }
}

impl RssItemView {
    /// The date of an item: its publishing date, or else the first date of its Dublin Core
    /// extension.
    pub open spec fn date_text(self) -> Result<DateTextView, Seq<char>> {
        match self.pub_date {
            Some(date) => Ok(DateTextView::Rfc2822(date)),
            None => match self.core_dates {
                Some(dates) => if dates.len() == 0 {
                    Err("Feed item has Dublin Core extension but no dates."@)
                } else {
                    Ok(DateTextView::Rfc3339(dates[0]))
                },
                None => Err("Feed item misses posting date."@),
            },
        }
    }

    /// The moment of an item, or why there is none.
    pub open spec fn moment(self) -> Result<Moment, Seq<char>> {
        match self.date_text() {
            Ok(date) => date.moment(),
            Err(e) => Err(e),
        }
    }

    /// The post of an item whose link is known.
    pub open spec fn post(self, link: Seq<char>) -> PostView {
        PostView {
            uri: link,
            title: or_empty(self.title),
            authors: or_empty(self.author),
            summary: or_empty(self.content),
        }
    }
}

/// A text, or the empty text where there is none.
pub open spec fn or_empty(t: Option<Seq<char>>) -> Seq<char> {
    match t {
        Some(s) => s,
        None => Seq::empty(),
    }
}

/// A post with its moment, or why there is none, as characters.
pub type FoundView = Result<(Moment, PostView), Seq<char>>;

/// A post with its moment, or why there is none.
pub type Found = Result<(Moment, Post), String>;

/// See [`FoundView`].
pub open spec fn found_view(f: Found) -> FoundView {
    match f {
        Ok((date, post)) => Ok((date, post@)),
        Err(e) => Err(e@),
    }
}

/// Posts with their moments as characters.
pub open spec fn found_views(found: Seq<Found>) -> Seq<FoundView> {
    found.map_values(|f: Found| found_view(f))
}

/// A post of which the moment is known, or why it is not.
pub open spec fn dated(post: PostView, date: Result<Moment, Seq<char>>) -> FoundView {
    match date {
        Ok(d) => Ok((d, post)),
        Err(e) => Err(e),
    }
}

/// The posts of an RSS channel, one for each item that has a link.
pub open spec fn rss_found(items: Seq<RssItemView>) -> Seq<FoundView>
    decreases items.len(),
{
    if items.len() == 0 {
        Seq::empty()
    } else {
        let item = items.last();
        let front = rss_found(items.drop_last());
        match item.link {
            Some(link) => front.push(dated(item.post(link), item.moment())),
            None => front,
        }
    }
}

impl PersonView {
    /// A person as a name and an address.
    pub open spec fn to_text(self) -> Seq<char> {
        self.name + " <"@ + (match self.email {
            Some(email) => "Some("@ + text::quoted(email) + ")"@,
            None => "None"@,
        }) + ">"@
    }
}

impl AtomEntryView {
    /// The post of an entry, which needs a publishing date and a link.
    pub open spec fn found(self) -> FoundView {
        match self.published {
            None => Err("Feed item missing publishing date."@),
            Some(date) => if self.links.len() == 0 {
                Err("Feed item missing post links."@)
            } else {
                Ok(
                    (
                        date,
                        PostView {
                            uri: self.links[0],
                            title: self.title,
                            authors: text::joined(
                                self.authors.map_values(|p: PersonView| p.to_text()),
                                ", "@,
                            ),
                            summary: or_empty(self.summary),
                        },
                    ),
                )
            },
        }
    }
}

/// The posts of an Atom feed, one for each entry.
pub open spec fn atom_found(entries: Seq<AtomEntryView>) -> Seq<FoundView> {
    entries.map_values(|e: AtomEntryView| e.found())
}

/// The posts of a feed with their moments, in the order of the feed. The first post that could not
/// be read spoils the feed.
pub open spec fn gathered(found: Seq<FoundView>) -> Result<Seq<(Moment, PostView)>, Seq<char>>
    decreases found.len(),
{
    if found.len() == 0 {
        Ok(Seq::empty())
    } else {
        match gathered(found.drop_last()) {
            Err(e) => Err(e),
            Ok(posts) => match found.last() {
                Err(e) => Err(e),
                Ok(post) => Ok(posts.push(post)),
            },
        }
    }
}

/// The posts that were gathered are those that were found, each of them at its place.
pub proof fn gathers_every_post(found: Seq<FoundView>, posts: Seq<(Moment, PostView)>)
    requires
        gathered(found) == Ok::<Seq<(Moment, PostView)>, Seq<char>>(posts),
    ensures
        posts.len() == found.len(),
        forall|i: int|
            0 <= i < found.len() ==> #[trigger] found[i] == Ok::<(Moment, PostView), Seq<char>>(
                posts[i],
            ),
    decreases found.len(),
{
    if found.len() > 0 {
        let rest = found.drop_last();
        let fewer = gathered(rest)->Ok_0;
        gathers_every_post(rest, fewer);
        assert forall|i: int| 0 <= i < found.len() implies #[trigger] found[i] == Ok::<
            (Moment, PostView),
            Seq<char>,
        >(posts[i]) by {
            if i < rest.len() {
                assert(rest[i] == found[i]);
            }
        }
    }
}

/// Posts with their moments, in the order of the feed.
pub type Posts = Vec<(Moment, Post)>;

/// [`Posts`] as characters.
pub open spec fn post_views(posts: Seq<(Moment, Post)>) -> Seq<(Moment, PostView)> {
    posts.map_values(|p: (Moment, Post)| (p.0, p.1@))
}

/// Posts or an error text as characters.
pub open spec fn posts_outcome(r: Result<Posts, String>) -> Result<
    Seq<(Moment, PostView)>,
    Seq<char>,
> {
    match r {
        Ok(posts) => Ok(post_views(posts@)),
        Err(e) => Err(e@),
    }
}

/// What is said of content that could not be read.
pub open spec fn mangled(url: Seq<char>, error: Seq<char>, status: u16) -> Seq<char> {
    "Unsupported or mangled content:\n"@ + text::quoted(url) + "\n"@ + error + "\n"@
        + text::digits(status as nat) + "\n"@
}

/// The posts of a feed that was read as RSS and, where it starts like another format, as Atom. A
/// feed that ends before it says anything has no posts.
pub open spec fn feed_posts(
    url: Seq<char>,
    status: u16,
    rss: Result<Seq<RssItemView>, RssFailureView>,
    atom: Result<Seq<AtomEntryView>, Seq<char>>,
) -> Result<Seq<(Moment, PostView)>, Seq<char>> {
    match rss {
        Ok(items) => gathered(rss_found(items)),
        Err(RssFailureView::InvalidStartTag) => match atom {
            Ok(entries) => gathered(atom_found(entries)),
            Err(e) => Err(mangled(url, e, status)),
        },
        Err(RssFailureView::Eof) => Ok(Seq::empty()),
        Err(RssFailureView::Other(e)) => Err(mangled(url, e, status)),
    }
}

/// See [`RssItemView::date_text`].
pub fn rss_date(item: &RssItem) -> (r: Result<DateText, String>)
    ensures
        match r {
            Ok(date) => item@.date_text() == Ok::<DateTextView, Seq<char>>(date@),
            Err(e) => item@.date_text() == Err::<DateTextView, Seq<char>>(e@),
        },
{
    match &item.pub_date {
        Some(date) => Ok(DateText::Rfc2822(date.clone())),
        None => match &item.core_dates {
            Some(dates) => if dates.len() == 0 {
                Err("Feed item has Dublin Core extension but no dates.".to_owned())
            } else {
                Ok(DateText::Rfc3339(dates[0].clone()))
            },
            None => Err("Feed item misses posting date.".to_owned()),
        },
    }
}

/// See [`DateTextView::moment`].
pub fn read_date(date: &DateText) -> (r: Result<Moment, String>)
    ensures
        text::outcome(r) == date@.moment(),
{
    match date {
        DateText::Rfc2822(t) => moment::parse_rfc2822(t.as_str()),
        DateText::Rfc3339(t) => moment::parse_rfc3339(t.as_str()),
    }
}

fn text_or_empty(t: &Option<String>) -> (r: String)
    ensures
        r@ == or_empty(text::opt_text(*t)),
{
    match t {
        Some(s) => s.clone(),
        None => String::new(),
    }
}

/// The post of an item with its link, once its date was read: see [`dated`].
pub fn rss_post(item: &RssItem, link: &str, date: Result<Moment, String>) -> (r: Found)
    ensures
        found_view(r) == dated(item@.post(link@), text::outcome(date)),
{
    match date {
        Ok(d) => Ok(
            (
                d,
                Post {
                    uri: link.to_owned(),
                    title: text_or_empty(&item.title),
                    authors: text_or_empty(&item.author),
                    summary: text_or_empty(&item.content),
                },
            ),
        ),
        Err(e) => Err(e),
    }
}

/// See [`rss_found`].
pub fn find_rss(items: &Vec<RssItem>) -> (r: Vec<Found>)
    ensures
        found_views(r@) == rss_found(rss_items(items@)),
{
    let mut found: Vec<Found> = Vec::new();
    let mut i: usize = 0;
    assert(found_views(found@) =~= rss_found(rss_items(items@).take(0)));
    while i < items.len()
        invariant
            i <= items@.len(),
            found_views(found@) == rss_found(rss_items(items@).take(i as int)),
        decreases items@.len() - i,
    {
        let item = &items[i];
        let ghost before = found@;
        match &item.link {
            Some(link) => {
                let date = match rss_date(item) {
                    Ok(date) => read_date(&date),
                    Err(e) => Err(e),
                };
                let post = rss_post(item, link.as_str(), date);
                found.push(post);
                assert(found_views(found@) =~= found_views(before).push(found_view(post)));
            },
            None => {},
        }
        proof {
            let next = rss_items(items@).take(i + 1);
            assert(next.drop_last() =~= rss_items(items@).take(i as int));
            assert(next.last() == item@);
        }
        i = i + 1;
    }
    assert(rss_items(items@).take(items@.len() as int) =~= rss_items(items@));
    found
}

fn person_text(p: &Person) -> (r: String)
    ensures
        r@ == p@.to_text(),
{
    let mut s = text::cat(p.name.as_str(), " <");
    match &p.email {
        Some(email) => {
            s.append("Some(");
            s.append(text::quote(email.as_str()).as_str());
            s.append(")");
        },
        None => s.append("None"),
    }
    s.append(">");
    assert(s@ =~= p@.to_text());
    s
}

/// See [`AtomEntryView::found`].
pub fn atom_post(entry: &AtomEntry) -> (r: Found)
    ensures
        found_view(r) == entry@.found(),
{
    let date = match entry.published {
        Some(date) => date,
        None => return Err("Feed item missing publishing date.".to_owned()),
    };
    if entry.links.len() == 0 {
        return Err("Feed item missing post links.".to_owned());
    }
    let mut people: Vec<String> = Vec::new();
    let mut i: usize = 0;
    while i < entry.authors.len()
        invariant
            i <= entry.authors@.len(),
            text::texts(people@) =~= entry@.authors.take(i as int).map_values(
                |p: PersonView| p.to_text(),
            ),
        decreases entry.authors@.len() - i,
    {
        let ghost before = people@;
        let person = person_text(&entry.authors[i]);
        people.push(person);
        assert(text::texts(people@) =~= text::texts(before).push(person@));
        assert(entry@.authors[i as int] == entry.authors@[i as int]@);
        i = i + 1;
    }
    assert(entry@.authors.take(entry.authors@.len() as int) =~= entry@.authors);
    Ok(
        (
            date,
            Post {
                uri: entry.links[0].clone(),
                title: entry.title.clone(),
                authors: text::join(&people, ", "),
                summary: text_or_empty(&entry.summary),
            },
        ),
    )
}

/// See [`atom_found`].
pub fn find_atom(entries: &Vec<AtomEntry>) -> (r: Vec<Found>)
    ensures
        found_views(r@) == atom_found(atom_entries(entries@)),
{
    let mut found: Vec<Found> = Vec::new();
    let mut i: usize = 0;
    while i < entries.len()
        invariant
            i <= entries@.len(),
            found_views(found@) =~= atom_found(atom_entries(entries@).take(i as int)),
        decreases entries@.len() - i,
    {
        let ghost before = found@;
        let post = atom_post(&entries[i]);
        found.push(post);
        assert(found_views(found@) =~= found_views(before).push(found_view(post)));
        assert(atom_entries(entries@)[i as int] == entries@[i as int]@);
        i = i + 1;
    }
    assert(atom_entries(entries@).take(entries@.len() as int) =~= atom_entries(entries@));
    found
}

proof fn spoiled_stays_spoiled(found: Seq<FoundView>, n: int)
    requires
        0 <= n <= found.len(),
        gathered(found.take(n)) is Err,
    ensures
        gathered(found) == gathered(found.take(n)),
    decreases found.len() - n,
{
    if n == found.len() {
        assert(found.take(n) =~= found);
    } else {
        assert(found.take(n + 1).drop_last() =~= found.take(n));
        spoiled_stays_spoiled(found, n + 1);
    }
}

/// See [`gathered`].
pub fn gather(found: Vec<Found>) -> (r: Result<Posts, String>)
    ensures
        posts_outcome(r) == gathered(found_views(found@)),
{
    let mut posts: Posts = Vec::new();
    let ghost all = found_views(found@);
    let ghost given = found@;
    assert(all.take(0) =~= Seq::<FoundView>::empty());
    assert(post_views(posts@) =~= Seq::<(Moment, PostView)>::empty());
    for f in it: found
        invariant
            it.seq() == given,
            all == found_views(given),
            gathered(all.take(it.index())) == Ok::<Seq<(Moment, PostView)>, Seq<char>>(
                post_views(posts@),
            ),
    {
        proof {
            let next = all.take(it.index() + 1);
            assert(next.drop_last() =~= all.take(it.index()));
            assert(next.last() == found_view(f));
        }
        match f {
            Ok((date, post)) => {
                let ghost before = posts@;
                posts.push((date, post));
                assert(post_views(posts@) =~= post_views(before).push((date, post@)));
            },
            Err(e) => {
                proof {
                    spoiled_stays_spoiled(all, it.index() + 1);
                }
                return Err(e);
            },
        }
    }
    assert(all.take(all.len() as int) =~= all);
    Ok(posts)
}

/// The posts of a feed that was read as RSS and, where it starts like another format, as Atom: see
/// [`feed_posts`].
pub fn posts_of(
    url: &str,
    status: u16,
    rss: Result<Vec<RssItem>, RssFailure>,
    atom: Result<Vec<AtomEntry>, String>,
) -> (r: Result<Posts, String>)
    ensures
        posts_outcome(r) == feed_posts(url@, status, rss_outcome(rss), atom_outcome(atom)),
{
    match rss {
        Ok(items) => gather(find_rss(&items)),
        Err(RssFailure::InvalidStartTag) => match atom {
            Ok(entries) => gather(find_atom(&entries)),
            Err(e) => Err(mangled_text(url, e.as_str(), status)),
        },
        Err(RssFailure::Eof) => {
            let posts: Posts = Vec::new();
            assert(post_views(posts@) =~= Seq::<(Moment, PostView)>::empty());
            Ok(posts)
        },
        Err(RssFailure::Other(e)) => Err(mangled_text(url, e.as_str(), status)),
    }
}

fn mangled_text(url: &str, error: &str, status: u16) -> (r: String)
    ensures
        r@ == mangled(url@, error@, status),
{
    let mut s = "Unsupported or mangled content:\n".to_owned();
    s.append(text::quote(url).as_str());
    s.append("\n");
    s.append(error);
    s.append("\n");
    s.append(text::digits_text(status as u64).as_str());
    s.append("\n");
    assert(s@ =~= mangled(url@, error@, status));
    s
}

/// The posts in the content that a feed's link led to.
pub open spec fn content_posts(url: Seq<char>, status: u16, content: Seq<u8>) -> Result<
    Seq<(Moment, PostView)>,
    Seq<char>,
> {
    feed_posts(url, status, rss_channel(content), atom_feed(content))
}

/// Reads the posts in the content that a feed's link led to: see [`content_posts`].
pub fn posts_in(url: &str, status: u16, content: &[u8]) -> (r: Result<Posts, String>)
    ensures
        posts_outcome(r) == content_posts(url@, status, content@),
{
    let rss = read_rss(content);
    let atom = match rss {
        Err(RssFailure::InvalidStartTag) => read_atom(content),
        _ => Ok(Vec::new()),
    };
    posts_of(url, status, rss, atom)
}

/// Links with a further one at its place by age: behind those that are not younger.
pub open spec fn placed(
    links: Seq<(Moment, Seq<char>)>,
    link: (Moment, Seq<char>),
) -> Seq<(Moment, Seq<char>)>
    decreases links.len(),
{
    if links.len() > 0 && moment::before(link.0, links.last().0) {
        placed(links.drop_last(), link).push(links.last())
    } else {
        links.push(link)
    }
}

/// Links with their moments, the oldest first. Those of one moment stay in their order.
pub open spec fn by_age(links: Seq<(Moment, Seq<char>)>) -> Seq<(Moment, Seq<char>)>
    decreases links.len(),
{
    if links.len() == 0 {
        links
    } else {
        placed(by_age(links.drop_last()), links.last())
    }
}

/// Whether no link is younger than one behind it.
pub open spec fn in_order(links: Seq<(Moment, Seq<char>)>) -> bool {
    forall|i: int, j: int|
        0 <= i < j < links.len() ==> !moment::before(
            (#[trigger] links[j]).0,
            (#[trigger] links[i]).0,
        )
}

/// The links of one moment in their order.
pub open spec fn of_moment(
    links: Seq<(Moment, Seq<char>)>,
    date: Moment,
) -> Seq<(Moment, Seq<char>)>
    decreases links.len(),
{
    if links.len() == 0 {
        links
    } else if links.last().0 == date {
        of_moment(links.drop_last(), date).push(links.last())
    } else {
        of_moment(links.drop_last(), date)
    }
}

proof fn placing_adds(links: Seq<(Moment, Seq<char>)>, link: (Moment, Seq<char>))
    ensures
        placed(links, link).len() == links.len() + 1,
        placed(links, link).contains(link),
        forall|i: int| 0 <= i < links.len() ==> placed(links, link).contains(#[trigger] links[i]),
        forall|k: int|
            0 <= k < placed(links, link).len() ==> {
                ||| #[trigger] placed(links, link)[k] == link
                ||| links.contains(placed(links, link)[k])
            },
        in_order(links) ==> in_order(placed(links, link)),
    decreases links.len(),
{
    let all = placed(links, link);
    if links.len() > 0 && moment::before(link.0, links.last().0) {
        let front = links.drop_last();
        let more = placed(front, link);
        placing_adds(front, link);
        let at = choose|k: int| 0 <= k < more.len() && more[k] == link;
        assert(all[at] == link);
        assert forall|i: int| 0 <= i < links.len() implies all.contains(#[trigger] links[i]) by {
            if i < front.len() {
                assert(front[i] == links[i]);
                let k = choose|k: int| 0 <= k < more.len() && more[k] == front[i];
                assert(all[k] == links[i]);
            } else {
                assert(all[more.len() as int] == links[i]);
            }
        }
        assert forall|k: int| 0 <= k < all.len() implies {
            ||| #[trigger] all[k] == link
            ||| links.contains(all[k])
        } by {
            if k < more.len() {
                assert(all[k] == more[k]);
                if more[k] != link {
                    let i = choose|i: int| 0 <= i < front.len() && front[i] == more[k];
                    assert(links[i] == all[k]);
                }
            } else {
                assert(links[links.len() - 1] == all[k]);
            }
        }
        if in_order(links) {
            assert(in_order(front)) by {
                assert forall|i: int, j: int| 0 <= i < j < front.len() implies !moment::before(
                    (#[trigger] front[j]).0,
                    (#[trigger] front[i]).0,
                ) by {
                    assert(front[i] == links[i] && front[j] == links[j]);
                }
            }
            assert forall|i: int, j: int| 0 <= i < j < all.len() implies !moment::before(
                (#[trigger] all[j]).0,
                (#[trigger] all[i]).0,
            ) by {
                assert(all[i] == more[i]);
                if j < more.len() {
                    assert(all[j] == more[j]);
                } else if more[i] != link {
                    let k = choose|k: int| 0 <= k < front.len() && front[k] == more[i];
                    assert(links[k] == more[i]);
                    assert(!moment::before(links[links.len() - 1].0, links[k].0));
                }
            }
        }
    } else {
        assert(all[links.len() as int] == link);
        assert forall|i: int| 0 <= i < links.len() implies all.contains(#[trigger] links[i]) by {
            assert(all[i] == links[i]);
        }
        assert forall|k: int| 0 <= k < all.len() implies {
            ||| #[trigger] all[k] == link
            ||| links.contains(all[k])
        } by {
            if k < links.len() {
                assert(links[k] == all[k]);
            }
        }
        if in_order(links) {
            assert forall|i: int, j: int| 0 <= i < j < all.len() implies !moment::before(
                (#[trigger] all[j]).0,
                (#[trigger] all[i]).0,
            ) by {
                assert(all[i] == links[i]);
                if j < links.len() {
                    assert(all[j] == links[j]);
                } else if i < links.len() - 1 {
                    assert(!moment::before(links[links.len() - 1].0, links[i].0));
                }
            }
        }
    }
}

proof fn placing_keeps_turns(
    links: Seq<(Moment, Seq<char>)>,
    link: (Moment, Seq<char>),
    date: Moment,
)
    ensures
        of_moment(placed(links, link), date) == of_moment(links.push(link), date),
    decreases links.len(),
{
    reveal_with_fuel(of_moment, 2);
    assert(links.push(link).drop_last() =~= links);
    if links.len() > 0 && moment::before(link.0, links.last().0) {
        let front = links.drop_last();
        placing_keeps_turns(front, link, date);
        assert(front.push(link).drop_last() =~= front);
        assert(placed(links, link).drop_last() =~= placed(front, link));
    }
}

/// Ordering links by age loses none and adds none: each link of a list is in the list by age, the
/// oldest is first, and those of one moment are there in their order.
pub proof fn ordering_keeps_every_link(links: Seq<(Moment, Seq<char>)>)
    ensures
        by_age(links).len() == links.len(),
        in_order(by_age(links)),
        forall|i: int| 0 <= i < links.len() ==> by_age(links).contains(#[trigger] links[i]),
        forall|k: int| 0 <= k < links.len() ==> links.contains(#[trigger] by_age(links)[k]),
        forall|date: Moment| #[trigger] of_moment(by_age(links), date) == of_moment(links, date),
    decreases links.len(),
{
    if links.len() > 0 {
        let front = links.drop_last();
        ordering_keeps_every_link(front);
        placing_adds(by_age(front), links.last());
        assert forall|k: int| 0 <= k < links.len() implies links.contains(
            #[trigger] by_age(links)[k],
        ) by {
            let link = by_age(links)[k];
            if link == links.last() {
                assert(links[links.len() - 1] == link);
            } else {
                let j = choose|j: int| 0 <= j < by_age(front).len() && by_age(front)[j] == link;
                assert(front.contains(by_age(front)[j]));
                let i = choose|i: int| 0 <= i < front.len() && front[i] == link;
                assert(links[i] == link);
            }
        }
        assert forall|i: int| 0 <= i < links.len() implies by_age(links).contains(
            #[trigger] links[i],
        ) by {
            if i < front.len() {
                assert(front[i] == links[i]);
                let k = choose|k: int|
                    0 <= k < by_age(front).len() && by_age(front)[k] == links[i];
                assert(by_age(front)[k] == links[i]);
            }
        }
        assert forall|date: Moment| #[trigger] of_moment(by_age(links), date) == of_moment(
            links,
            date,
        ) by {
            let sorted = by_age(front);
            placing_keeps_turns(sorted, links.last(), date);
            assert(sorted.push(links.last()).drop_last() =~= sorted);
            assert(of_moment(sorted, date) == of_moment(front, date));
        }
    }
}

/// The moments and links of posts.
pub open spec fn links_of(posts: Seq<(Moment, PostView)>) -> Seq<(Moment, Seq<char>)> {
    posts.map_values(|p: (Moment, PostView)| (p.0, p.1.uri))
}

/// The moments and links of posts, the oldest post first, and posts of one moment in the order of
/// the feed.
pub open spec fn post_links(posts: Seq<(Moment, PostView)>) -> Seq<(Moment, Seq<char>)> {
    by_age(links_of(posts))
}

/// Moments and links as characters.
pub open spec fn link_rows(rows: Seq<(Moment, String)>) -> Seq<(Moment, Seq<char>)> {
    rows.map_values(|r: (Moment, String)| (r.0, r.1@))
}

/// Puts a link at its place by age: see [`placed`].
fn place(out: &mut Vec<(Moment, String)>, date: Moment, link: String)
    ensures
        link_rows(final(out)@) == placed(link_rows(old(out)@), (date, link@)),
{
    let ghost given = out@;
    let ghost rows = link_rows(given);
    let ghost row = (date, link@);
    let mut at: usize = out.len();
    assert(rows.take(rows.len() as int) =~= rows);
    assert(rows.skip(rows.len() as int) =~= Seq::<(Moment, Seq<char>)>::empty());
    assert(placed(rows, row) =~= placed(rows, row) + Seq::<(Moment, Seq<char>)>::empty());
    while at > 0 && moment::is_before(date, out[at - 1].0)
        invariant
            at <= out@.len(),
            out@ == given,
            rows == link_rows(given),
            row.0 == date,
            placed(rows, row) == placed(rows.take(at as int), row) + rows.skip(at as int),
        decreases at,
    {
        proof {
            let front = rows.take(at as int);
            assert(front.drop_last() =~= rows.take(at - 1));
            assert(front.last() == rows[at - 1]);
            assert(placed(rows.take(at - 1), row).push(rows[at - 1]) + rows.skip(at as int) =~= placed(
                rows.take(at - 1),
                row,
            ) + rows.skip(at - 1));
        }
        at = at - 1;
    }
    proof {
        let front = rows.take(at as int);
        if at > 0 {
            assert(front.last() == rows[at - 1]);
        }
        assert(placed(front, row) == front.push(row));
    }
    out.insert(at, (date, link));
    assert(link_rows(out@) =~= rows.take(at as int).push(row) + rows.skip(at as int));
}

/// See [`post_links`].
pub fn list_links(posts: &Posts) -> (r: Vec<(Moment, String)>)
    ensures
        link_rows(r@) == post_links(post_views(posts@)),
{
    let mut out: Vec<(Moment, String)> = Vec::new();
    let ghost all = links_of(post_views(posts@));
    let mut i: usize = 0;
    assert(all.take(0) =~= Seq::<(Moment, Seq<char>)>::empty());
    assert(link_rows(out@) =~= Seq::<(Moment, Seq<char>)>::empty());
    while i < posts.len()
        invariant
            i <= posts@.len(),
            all == links_of(post_views(posts@)),
            link_rows(out@) == by_age(all.take(i as int)),
        decreases posts@.len() - i,
    {
        proof {
            let next = all.take(i + 1);
            assert(next.drop_last() =~= all.take(i as int));
            assert(next.last() == (posts@[i as int].0, posts@[i as int].1.uri@));
        }
        place(&mut out, posts[i].0, posts[i].1.uri.clone());
        i = i + 1;
    }
    assert(all.take(all.len() as int) =~= all);
    out
}

} // verus!

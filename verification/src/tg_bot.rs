//! What is sent to Telegram: messages, keyboards and the callbacks behind their buttons.

use crate::cache::{feed_entries, FeedList};
use crate::text;
use vstd::prelude::*;

verus! {

/// The version of callbacks that this bot writes and understands.
pub const CB_VERSION: u8 = 0;

/// What a button asks for when it is pressed.
#[derive(Debug)]
pub enum Callback {
    /// List all feeds (version, name to show, page number).
    List(u8, String, u8),
}

/// A [`Callback`] as characters.
pub ghost enum CallbackView {
    List(u8, Seq<char>, u8),
}

impl View for Callback {
    type V = CallbackView;

    open spec fn view(&self) -> CallbackView {
        match self {
            Callback::List(version, name, page) => CallbackView::List(*version, name@, *page),
        }
    }
}

/// A TOML document of one key whose value is an array of a number, a text and a number.
pub uninterp spec fn toml_entry(key: Seq<char>, a: u8, b: Seq<char>, c: u8) -> Seq<char>;

/// Whether a text is made of ASCII letters only.
pub open spec fn plain_word(s: Seq<char>) -> bool {
    forall|i: int| 0 <= i < s.len() ==> crate::rules::letter(#[trigger] s[i])
}

/// The entries of a TOML document whose values are arrays of a number, a text and a number, in the
/// order of their keys, or the words that say why a text is no such document.
pub uninterp spec fn toml_entries(text: Seq<char>) -> Result<
    Seq<(Seq<char>, u8, Seq<char>, u8)>,
    Seq<char>,
>;

/// One entry of a TOML document: the key, and the number, the text and the number of its value.
pub type Entry = (String, u8, String, u8);

/// Entries as characters.
pub open spec fn entry_views(entries: Seq<Entry>) -> Seq<(Seq<char>, u8, Seq<char>, u8)> {
    entries.map_values(|e: Entry| (e.0@, e.1, e.2@, e.3))
}

/// Entries or an error text as characters.
pub open spec fn entries_outcome(r: Result<Vec<Entry>, String>) -> Result<
    Seq<(Seq<char>, u8, Seq<char>, u8)>,
    Seq<char>,
> {
    match r {
        Ok(entries) => Ok(entry_views(entries@)),
        Err(e) => Err(e@),
    }
}

/// Whether a document has this entry and no other.
pub open spec fn has_entry(text: Seq<char>, key: Seq<char>, a: u8, b: Seq<char>, c: u8) -> bool {
    toml_entries(text) matches Ok(entries) && entries == seq![(key, a, b, c)]
}

/// `toml::to_string` on a map of one key, whose value is a tuple of a number, a text and a number.
/// Such a map can always be written. The contract claims that the document depends on the key and
/// the tuple alone and spells it out where neither the key nor the text needs quotes or escapes. It
/// claims too that the document of a key of letters is read back as that one entry, whatever the
/// text holds.
#[verifier::external_body]
fn write_toml(key: &str, a: u8, b: &str, c: u8) -> (r: String)
    ensures
        r@ == toml_entry(key@, a, b@, c),
        key@.len() > 0 && plain_word(key@) && plain_word(b@) ==> r@ == key@ + " = ["@
            + text::digits(a as nat) + ", \""@ + b@ + "\", "@ + text::digits(c as nat) + "]\n"@,
        key@.len() > 0 && plain_word(key@) ==> has_entry(r@, key@, a, b@, c),
{
    toml::to_string(&std::collections::BTreeMap::from([(key, (a, b, c))])).unwrap()
}

/// `toml::from_str` into a map whose values are tuples of a number, a text and a number. The
/// contract claims only that the entries, or the wording of the error, depend on the text alone.
#[verifier::external_body]
fn read_toml(text: &str) -> (r: Result<Vec<Entry>, String>)
    ensures
        entries_outcome(r) == toml_entries(text@),
{
    match toml::from_str::<std::collections::BTreeMap<String, (u8, String, u8)>>(text) {
        Ok(map) => Ok(map.into_iter().map(|(key, (a, b, c))| (key, a, b, c)).collect()),
        Err(e) => Err(e.to_string()),
    }
}

impl CallbackView {
    /// The text that stands for a callback behind a button.
    pub open spec fn to_text(self) -> Seq<char> {
        match self {
            CallbackView::List(version, name, page) => toml_entry("List"@, version, name, page),
        }
    }

    /// Whether the text of a callback is read back as that callback.
    pub open spec fn reads_back(self) -> bool {
        callback_read(self.to_text()) == Ok::<CallbackView, Seq<char>>(self)
    }
}

/// The callback whose text has these entries, or the refusal of a text that stands for none.
pub open spec fn callback_in(
    text: Seq<char>,
    entries: Seq<(Seq<char>, u8, Seq<char>, u8)>,
) -> Result<CallbackView, Seq<char>> {
    let cb = CallbackView::List(entries[0].1, entries[0].2, entries[0].3);
    if entries.len() == 1 && entries[0].0 == "List"@ && cb.to_text() == text {
        Ok(cb)
    } else {
        Err("No callback: "@ + text)
    }
}

/// The callback that a text stands for, or why it stands for none.
pub open spec fn callback_read(text: Seq<char>) -> Result<CallbackView, Seq<char>> {
    match toml_entries(text) {
        Ok(entries) => callback_in(text, entries),
        Err(e) => Err(e),
    }
}

/// A callback or an error text as characters.
pub open spec fn callback_outcome(r: Result<Callback, String>) -> Result<CallbackView, Seq<char>> {
    match r {
        Ok(cb) => Ok(cb@),
        Err(e) => Err(e@),
    }
}

/// Callbacks that differ have texts that differ. Each of them reads back, as [`Callback::to_string`]
/// promises of every callback that it writes.
pub proof fn distinct_callbacks_have_distinct_texts(a: CallbackView, b: CallbackView)
    requires
        a.reads_back(),
        b.reads_back(),
        a != b,
    ensures
        a.to_text() != b.to_text(),
{
}

impl Callback {
    /// A callback of the current version that asks for a page of the list of feeds.
    pub fn list(text: &str, page: u8) -> (r: Callback)
        ensures
            r@ == CallbackView::List(CB_VERSION, text@, page),
    {
        Callback::List(CB_VERSION, text.to_owned(), page)
    }

    /// The version that a callback was written with.
    pub fn version(&self) -> (r: u8)
        ensures
            match self@ {
                CallbackView::List(version, _, _) => r == version,
            },
    {
        match self {
            Callback::List(version, _, _) => *version,
        }
    }

    /// The text that stands for this callback behind a button. It is read back as this callback.
    pub fn to_string(&self) -> (r: String)
        ensures
            r@ == self@.to_text(),
            self@.reads_back(),
            match self@ {
                CallbackView::List(version, name, page) => plain_word(name) ==> r@ == "List"@
                    + " = ["@ + text::digits(version as nat) + ", \""@ + name + "\", "@
                    + text::digits(page as nat) + "]\n"@,
            },
    {
        proof {
            reveal_strlit("List");
        }
        match self {
            Callback::List(version, name, page) => write_toml("List", *version, name.as_str(), *page),
        }
    }

    /// The callback whose text has these entries: see [`callback_in`].
    pub fn from_entries(text: &str, entries: Vec<Entry>) -> (r: Result<Callback, String>)
        ensures
            callback_outcome(r) == callback_in(text@, entry_views(entries@)),
    {
        if entries.len() == 1 && text::same(entries[0].0.as_str(), "List") {
            let cb = Callback::List(entries[0].1, entries[0].2.clone(), entries[0].3);
            if text::same(cb.to_string().as_str(), text) {
                return Ok(cb);
            }
        }
        Err(text::cat("No callback: ", text))
    }

    /// Reads the text behind a button: see [`callback_read`].
    pub fn read(text: &str) -> (r: Result<Callback, String>)
        ensures
            callback_outcome(r) == callback_read(text@),
    {
        match read_toml(text) {
            Ok(entries) => Callback::from_entries(text, entries),
            Err(e) => Err(e),
        }
    }
}

/// A button with the text that is sent back when it is pressed.
#[derive(Debug)]
pub struct Button {
    pub text: String,
    pub data: String,
}

/// A [`Button`] as characters.
pub ghost struct ButtonView {
    pub text: Seq<char>,
    pub data: Seq<char>,
}

impl View for Button {
    type V = ButtonView;

    open spec fn view(&self) -> ButtonView {
        ButtonView { text: self.text@, data: self.data@ }
    }
}

impl ButtonView {
    /// Whether the text behind a button is read back as the callback that it was written for.
    pub open spec fn reads_back(self) -> bool {
        callback_read(self.data) matches Ok(cb) && cb.to_text() == self.data
    }
}

/// The rows of buttons under a message.
pub type Keyboard = Vec<Vec<Button>>;

/// One row of buttons as characters.
pub open spec fn row_view(row: Seq<Button>) -> Seq<ButtonView> {
    row.map_values(|b: Button| b@)
}

/// Rows of buttons as characters.
pub open spec fn keyboard_view(rows: Seq<Vec<Button>>) -> Seq<Seq<ButtonView>> {
    rows.map_values(|r: Vec<Button>| row_view(r@))
}

/// A button for a page of the list of feeds.
pub open spec fn page_button(label: Seq<char>, name: Seq<char>, page: u8) -> ButtonView {
    ButtonView { text: label, data: CallbackView::List(CB_VERSION, name, page).to_text() }
}

/// Whether a list of feeds is spread over pages.
pub open spec fn is_long(n: nat) -> bool {
    n > 6
}

/// The page that a number stands for: one past the last page stands for the last page.
pub open spec fn page_of(n: nat, page: u8) -> u8 {
    if is_long(n) && page * 5 >= n {
        ((n - 1) / 5) as u8
    } else {
        page
    }
}

/// The first feed that a page shows: pages start five feeds apart.
pub open spec fn first_shown(n: nat, page: u8) -> nat {
    if is_long(n) {
        (page * 5) as nat
    } else {
        0
    }
}

/// The feed before which a page ends: a page shows six feeds, as far as there are so many.
pub open spec fn shown_until(n: nat, page: u8) -> nat {
    if is_long(n) && first_shown(n, page) + 6 < n {
        first_shown(n, page) + 6
    } else {
        n
    }
}

/// The row of one feed.
pub open spec fn feed_row(feed: (i32, Seq<char>), page: u8) -> Seq<ButtonView> {
    seq![page_button(text::decimal(feed.0 as int) + ". "@ + feed.1, "xxx"@, page)]
}

/// The keyboard of a page: the feeds that are shown, a button back to the first page and, where the
/// list is spread over pages, buttons for the page before and the page after.
pub open spec fn list_keyboard(feeds: Seq<(i32, Seq<char>)>, page: u8) -> Seq<Seq<ButtonView>> {
    let n = feeds.len();
    let p = page_of(n, page);
    let first = first_shown(n, p);
    let rows = Seq::new(
        (shown_until(n, p) - first) as nat,
        |i: int| feed_row(feeds[first + i], p),
    ).push(seq![page_button("1"@, "xxx"@, 0)]);
    if is_long(n) {
        rows.push(
            seq![page_button("<<"@, ""@, page_before(p)), page_button(">>"@, ""@, page_after(p))],
        )
    } else {
        rows
    }
}

/// The page before a page.
pub open spec fn page_before(page: u8) -> u8 {
    if page == 0 {
        0
    } else {
        (page - 1) as u8
    }
}

/// The page after a page, as far as pages are numbered.
pub open spec fn page_after(page: u8) -> u8 {
    if page == u8::MAX {
        page
    } else {
        (page + 1) as u8
    }
}

/// Whether the text behind every button is read back.
pub open spec fn all_read_back(rows: Seq<Seq<ButtonView>>) -> bool {
    forall|i: int, j: int|
        0 <= i < rows.len() && 0 <= j < rows[i].len() ==> (#[trigger] rows[i][j]).reads_back()
}

/// A keyboard or an error text as characters.
pub open spec fn keyboard_outcome(r: Result<Keyboard, String>) -> Result<
    Seq<Seq<ButtonView>>,
    Seq<char>,
> {
    match r {
        Ok(rows) => Ok(keyboard_view(rows@)),
        Err(e) => Err(e@),
    }
}

/// The keyboard for a callback over the feeds of a user, or the refusal of a callback of another
/// version.
pub open spec fn keyboard_for(cb: CallbackView, feeds: Map<i32, Seq<char>>) -> Result<
    Seq<Seq<ButtonView>>,
    Seq<char>,
> {
    match cb {
        CallbackView::List(version, _, page) => if version != CB_VERSION {
            Err("Wrong callback version."@)
        } else {
            Ok(list_keyboard(crate::cache::feed_listing(feeds), page))
        },
    }
}

fn button(label: &str, name: &str, page: u8) -> (r: Button)
    ensures
        r@ == page_button(label@, name@, page),
        r@.reads_back(),
{
    Button { text: label.to_owned(), data: Callback::list(name, page).to_string() }
}

fn single(b: Button) -> (r: Vec<Button>)
    ensures
        r@ == seq![b],
        row_view(r@) == seq![b@],
{
    let mut row: Vec<Button> = Vec::new();
    row.push(b);
    assert(row_view(row@) =~= seq![b@]);
    row
}

/// Produces the keyboard for a callback: see [`keyboard_for`]. What its buttons send back can be
/// read.
pub fn get_kb(cb: &Callback, feeds: &FeedList) -> (r: Result<Keyboard, String>)
    ensures
        keyboard_outcome(r) == keyboard_for(cb@, crate::cache::feed_map(feeds@)),
        r matches Ok(kb) ==> all_read_back(keyboard_view(kb@)),
{
    if cb.version() != CB_VERSION {
        return Err("Wrong callback version.".to_owned());
    }
    match cb {
        Callback::List(_, _, page) => {
            let entries = feed_entries(feeds);
            let ghost listed = crate::cache::feed_rows(entries@);
            let n: usize = entries.len();
            let long = n > 6;
            let page: u8 = if long && *page as usize * 5 >= n {
                ((n - 1) / 5) as u8
            } else {
                *page
            };
            let start: usize = if long {
                page as usize * 5
            } else {
                0
            };
            let end: usize = if long && start + 6 < n {
                start + 6
            } else {
                n
            };
            let mut kb: Keyboard = Vec::new();
            let mut i: usize = start;
            while i < end
                invariant
                    start <= i <= end <= entries@.len(),
                    listed == crate::cache::feed_rows(entries@),
                    all_read_back(keyboard_view(kb@)),
                    keyboard_view(kb@) =~= Seq::new(
                        (i - start) as nat,
                        |k: int| feed_row(listed[start + k], page),
                    ),
                decreases end - i,
            {
                let label = text::cat3(
                    text::decimal_text(entries[i].0).as_str(),
                    ". ",
                    entries[i].1.as_str(),
                );
                let ghost before = kb@;
                kb.push(single(button(label.as_str(), "xxx", page)));
                proof {
                    assert(keyboard_view(kb@) =~= keyboard_view(before).push(
                        feed_row(listed[i as int], page),
                    ));
                }
                i = i + 1;
            }
            let ghost rows = keyboard_view(kb@);
            let first = single(button("1", "xxx", 0));
            let ghost first_row = row_view(first@);
            kb.push(first);
            assert(keyboard_view(kb@) =~= rows.push(first_row));
            if long {
                let ghost before = keyboard_view(kb@);
                let back: u8 = if page == 0 {
                    page
                } else {
                    page - 1
                };
                let on: u8 = if page == u8::MAX {
                    page
                } else {
                    page + 1
                };
                let mut steps: Vec<Button> = Vec::new();
                steps.push(button("<<", "", back));
                steps.push(button(">>", "", on));
                let ghost steps_row = row_view(steps@);
                kb.push(steps);
                assert(keyboard_view(kb@) =~= before.push(steps_row));
                assert(steps_row =~= seq![
                    page_button("<<"@, ""@, page_before(page)),
                    page_button(">>"@, ""@, page_after(page)),
                ]);
            }
            proof {
                let given = match cb@ {
                    CallbackView::List(_, _, given) => given,
                };
                assert(page == page_of(listed.len(), given));
                assert(keyboard_view(kb@) =~= list_keyboard(listed, given));
            }
            Ok(kb)
        },
    }
}

/// Every feed is on some page of the list, as far as pages are numbered: a page that the list has,
/// with a row for the feed.
pub proof fn every_feed_is_on_a_page(feeds: Seq<(i32, Seq<char>)>, i: int)
    requires
        0 <= i < feeds.len(),
        i <= 1280,
    ensures
        exists|p: u8|
            p * 5 < feeds.len() && #[trigger] list_keyboard(feeds, p).contains(
                feed_row(feeds[i], p),
            ),
{
    let p: u8 = if !is_long(feeds.len()) {
        0
    } else if i == 1280 {
        255
    } else {
        (i / 5) as u8
    };
    let k = i - first_shown(feeds.len(), p);
    assert(list_keyboard(feeds, p)[k] == feed_row(feeds[i], p));
    assert(list_keyboard(feeds, p).contains(feed_row(feeds[i], p)));
}

/// A number past the last page of a list that is spread over pages brings the last page, which shows
/// the last feed.
pub proof fn unknown_pages_are_the_last(feeds: Seq<(i32, Seq<char>)>, page: u8)
    requires
        is_long(feeds.len()),
        page * 5 >= feeds.len(),
    ensures
        list_keyboard(feeds, page) == list_keyboard(feeds, page_of(feeds.len(), page)),
        page_of(feeds.len(), page) * 5 < feeds.len() <= page_of(feeds.len(), page) * 5 + 5,
        list_keyboard(feeds, page).contains(
            feed_row(feeds.last(), page_of(feeds.len(), page)),
        ),
{
    let p = page_of(feeds.len(), page);
    let k = feeds.len() - 1 - first_shown(feeds.len(), p);
    assert(list_keyboard(feeds, page)[k] == feed_row(feeds.last(), p));
}

/// A list that is not spread over pages shows every feed in a row of its own, in the order of their
/// numbers, and a button back to the first page. One that is spread over pages ends with the buttons
/// that lead from page to page.
pub proof fn keyboard_shows_feeds(feeds: Seq<(i32, Seq<char>)>, page: u8)
    ensures
        !is_long(feeds.len()) ==> {
            &&& list_keyboard(feeds, page).len() == feeds.len() + 1
            &&& forall|i: int|
                0 <= i < feeds.len() ==> #[trigger] list_keyboard(feeds, page)[i] == feed_row(
                    feeds[i],
                    page,
                )
        },
        is_long(feeds.len()) ==> {
            &&& list_keyboard(feeds, page).last().len() == 2
            &&& list_keyboard(feeds, page).last()[0].text == "<<"@
            &&& list_keyboard(feeds, page).last()[1].text == ">>"@
        },
{
}

/// How the text of a message is marked up.
#[derive(Clone, Copy, Debug, PartialEq, Eq, Structural)]
pub enum ParseMode {
    Html,
    MarkdownV2,
}

/// A message that is ready to be sent.
#[derive(Debug)]
pub struct SendRequest {
    pub to: i64,
    pub text: String,
    pub mode: ParseMode,
    pub markup: Option<Keyboard>,
}

/// A [`SendRequest`] as characters.
pub ghost struct SendRequestView {
    pub to: i64,
    pub text: Seq<char>,
    pub mode: ParseMode,
    pub markup: Option<Seq<Seq<ButtonView>>>,
}

impl View for SendRequest {
    type V = SendRequestView;

    open spec fn view(&self) -> SendRequestView {
        SendRequestView {
            to: self.to,
            text: self.text@,
            mode: self.mode,
            markup: match self.markup {
                Some(kb) => Some(keyboard_view(kb@)),
                None => None,
            },
        }
    }
}

/// A message without buttons as characters.
pub open spec fn plain_request(to: i64, text: Seq<char>, mode: ParseMode) -> SendRequestView {
    SendRequestView { to, text, mode, markup: None }
}

/// A message of the bot: to its owner, or to a chat that is named.
#[derive(Debug)]
pub enum MyMessage {
    Html { text: String },
    HtmlTo { text: String, to: i64 },
    HtmlToKb { text: String, to: i64, kb: Keyboard },
    Text { text: String },
    TextTo { text: String, to: i64 },
}

impl MyMessage {
    /// What is sent for a message by a bot with this owner.
    pub open spec fn request(self, owner: i64) -> SendRequestView {
        match self {
            MyMessage::Html { text } => plain_request(owner, text@, ParseMode::Html),
            MyMessage::HtmlTo { text, to } => plain_request(to, text@, ParseMode::Html),
            MyMessage::HtmlToKb { text, to, kb } => SendRequestView {
                to,
                text: text@,
                mode: ParseMode::Html,
                markup: Some(keyboard_view(kb@)),
            },
            MyMessage::Text { text } => plain_request(owner, text@, ParseMode::MarkdownV2),
            MyMessage::TextTo { text, to } => plain_request(to, text@, ParseMode::MarkdownV2),
        }
    }

    /// A message in HTML to the owner.
    pub fn html(text: String) -> (r: MyMessage)
        ensures
            r == (MyMessage::Html { text }),
    {
        MyMessage::Html { text }
    }

    /// A message in HTML to a chat.
    pub fn html_to(text: String, to: i64) -> (r: MyMessage)
        ensures
            r == (MyMessage::HtmlTo { text, to }),
    {
        MyMessage::HtmlTo { text, to }
    }

    /// A message in HTML with buttons to a chat.
    pub fn html_to_kb(text: String, to: i64, kb: Keyboard) -> (r: MyMessage)
        ensures
            r == (MyMessage::HtmlToKb { text, to, kb }),
    {
        MyMessage::HtmlToKb { text, to, kb }
    }

    /// A message in MarkdownV2 to the owner.
    pub fn text(text: String) -> (r: MyMessage)
        ensures
            r == (MyMessage::Text { text }),
    {
        MyMessage::Text { text }
    }

    /// A message in MarkdownV2 to a chat.
    pub fn text_to(text: String, to: i64) -> (r: MyMessage)
        ensures
            r == (MyMessage::TextTo { text, to }),
    {
        MyMessage::TextTo { text, to }
    }

    fn req(self, tg: &Tg) -> (r: SendRequest)
        ensures
            r@ == self.request(tg.owner),
    {
        match self {
            MyMessage::Html { text } => SendRequest {
                to: tg.owner,
                text,
                mode: ParseMode::Html,
                markup: None,
            },
            MyMessage::HtmlTo { text, to } => SendRequest {
                to,
                text,
                mode: ParseMode::Html,
                markup: None,
            },
            MyMessage::HtmlToKb { text, to, kb } => SendRequest {
                to,
                text,
                mode: ParseMode::Html,
                markup: Some(kb),
            },
            MyMessage::Text { text } => SendRequest {
                to: tg.owner,
                text,
                mode: ParseMode::MarkdownV2,
                markup: None,
            },
            MyMessage::TextTo { text, to } => SendRequest {
                to,
                text,
                mode: ParseMode::MarkdownV2,
                markup: None,
            },
        }
    }
}

/// Who the bot is, and who it answers to by default.
#[derive(Clone, Copy, Debug, PartialEq, Eq, Structural)]
pub struct Tg {
    /// The user number of the bot itself.
    pub me: i64,
    /// The chat that messages without an address go to.
    pub owner: i64,
}

impl Tg {
    /// A bot with this user number that answers to this owner.
    pub fn new(me: i64, owner: i64) -> (r: Tg)
        ensures
            r == (Tg { me, owner }),
    {
        Tg { me, owner }
    }

    /// What is to be sent for a message: its text goes out unchanged, to the chat that it names or
    /// else to the owner.
    pub fn send(&self, msg: MyMessage) -> (r: SendRequest)
        ensures
            r@ == msg.request(self.owner),
    {
        msg.req(self)
    }

    /// The same bot with another owner.
    pub fn with_owner(&self, owner: i64) -> (r: Tg)
        ensures
            r == (Tg { owner, ..*self }),
    {
        Tg { owner, ..*self }
    }
}

} // verus!

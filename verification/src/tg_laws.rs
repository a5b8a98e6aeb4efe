//! What holds of messages, callbacks and keyboards.

use crate::bot_laws::says;
use crate::cache::{self, FeedList};
use crate::text;
use crate::tg_bot::{
    self, Button, Callback, Entry, Keyboard, MyMessage, ParseMode, SendRequest, Tg,
};
use vstd::prelude::*;

verus! {

/// A message without an address goes to the owner of the bot, one with an address to that chat; its
/// text goes out as it is, marked up as its kind says.
pub proof fn messages_reach_their_chat(
    tg: &Tg,
    t: String,
    chat: i64,
    html: MyMessage,
    html_to: MyMessage,
    plain: MyMessage,
    plain_to: MyMessage,
    r_html: SendRequest,
    r_html_to: SendRequest,
    r_plain: SendRequest,
    r_plain_to: SendRequest,
)
    requires
        call_ensures(MyMessage::html, (t,), html),
        call_ensures(MyMessage::html_to, (t, chat), html_to),
        call_ensures(MyMessage::text, (t,), plain),
        call_ensures(MyMessage::text_to, (t, chat), plain_to),
        call_ensures(Tg::send, (tg, html), r_html),
        call_ensures(Tg::send, (tg, html_to), r_html_to),
        call_ensures(Tg::send, (tg, plain), r_plain),
        call_ensures(Tg::send, (tg, plain_to), r_plain_to),
    ensures
        says(r_html, tg.owner, t@, ParseMode::Html),
        says(r_html_to, chat, t@, ParseMode::Html),
        says(r_plain, tg.owner, t@, ParseMode::MarkdownV2),
        says(r_plain_to, chat, t@, ParseMode::MarkdownV2),
{
}

/// Whether two keyboards have the same buttons in the same places.
pub open spec fn same_buttons(a: Keyboard, b: Keyboard) -> bool {
    &&& a@.len() == b@.len()
    &&& forall|i: int|
        0 <= i < a@.len() ==> {
            &&& (#[trigger] a@[i])@.len() == b@[i]@.len()
            &&& forall|j: int|
                0 <= j < a@[i]@.len() ==> {
                    &&& (#[trigger] a@[i]@[j]).text@ == b@[i]@[j].text@
                    &&& a@[i]@[j].data@ == b@[i]@[j].data@
                }
        }
}

proof fn buttons_are_seen(kb: Keyboard)
    ensures
        tg_bot::keyboard_view(kb@).len() == kb@.len(),
        forall|i: int|
            0 <= i < kb@.len() ==> {
                &&& tg_bot::keyboard_view(kb@)[i].len() == (#[trigger] kb@[i])@.len()
                &&& forall|j: int|
                    0 <= j < kb@[i]@.len() ==> {
                        &&& tg_bot::keyboard_view(kb@)[i][j].text == (#[trigger] kb@[i]@[j]).text@
                        &&& tg_bot::keyboard_view(kb@)[i][j].data == kb@[i]@[j].data@
                    }
            },
{
}

/// A message with buttons goes to its chat with its text and with exactly these buttons.
pub proof fn buttons_go_along(
    tg: &Tg,
    t: String,
    chat: i64,
    kb: Keyboard,
    msg: MyMessage,
    r: SendRequest,
)
    requires
        call_ensures(MyMessage::html_to_kb, (t, chat, kb), msg),
        call_ensures(Tg::send, (tg, msg), r),
    ensures
        r.to == chat,
        r.text@ == t@,
        r.mode == ParseMode::Html,
        r.markup is Some,
        same_buttons(r.markup->0, kb),
{
    buttons_are_seen(kb);
    buttons_are_seen(r.markup->0);
    let a = r.markup->0;
    assert(tg_bot::keyboard_view(a@) == tg_bot::keyboard_view(kb@));
    assert forall|i: int| 0 <= i < a@.len() implies {
        &&& (#[trigger] a@[i])@.len() == kb@[i]@.len()
        &&& forall|j: int|
            0 <= j < a@[i]@.len() ==> {
                &&& (#[trigger] a@[i]@[j]).text@ == kb@[i]@[j].text@
                &&& a@[i]@[j].data@ == kb@[i]@[j].data@
            }
    } by {
        assert(tg_bot::keyboard_view(a@)[i] == tg_bot::keyboard_view(kb@)[i]);
        assert(tg_bot::keyboard_view(a@)[i].len() == a@[i]@.len());
        assert(tg_bot::keyboard_view(kb@)[i].len() == kb@[i]@.len());
        assert forall|j: int| 0 <= j < a@[i]@.len() implies {
            &&& (#[trigger] a@[i]@[j]).text@ == kb@[i]@[j].text@
            &&& a@[i]@[j].data@ == kb@[i]@[j].data@
        } by {
            assert(tg_bot::keyboard_view(a@)[i][j].text == a@[i]@[j].text@);
            assert(tg_bot::keyboard_view(kb@)[i][j].text == kb@[i]@[j].text@);
        }
    }
}

/// A bot keeps its own user number whoever it answers to.
pub proof fn owners_can_be_changed(me: i64, owner: i64, tg: Tg, other: i64, r: Tg)
    requires
        call_ensures(Tg::new, (me, owner), tg),
        call_ensures(Tg::with_owner, (&tg, other), r),
    ensures
        tg.me == me,
        tg.owner == owner,
        r.me == me,
        r.owner == other,
{
}

/// A callback for a page of the list has the current version, the text and the page that it is made
/// for.
pub proof fn callbacks_ask_for_their_page(t: &str, page: u8, cb: Callback, version: u8)
    requires
        call_ensures(Callback::list, (t, page), cb),
        call_ensures(Callback::version, (&cb,), version),
    ensures
        version == 0,
        cb matches Callback::List(v, name, p) && v == 0 && name@ == t@ && p == page,
{
}

/// The version of a callback is the one that it was written with.
pub proof fn callbacks_know_their_version(cb: &Callback, version: u8)
    requires
        call_ensures(Callback::version, (cb,), version),
    ensures
        cb matches Callback::List(v, _, _) && version == v,
{
}

/// What is written for a callback is read as that callback again, with its version, text and page.
pub proof fn callbacks_are_read_back(
    cb: &Callback,
    t: String,
    s: &str,
    r: Result<Callback, String>,
)
    requires
        call_ensures(Callback::to_string, (cb,), t),
        s@ == t@,
        call_ensures(Callback::read, (s,), r),
    ensures
        r is Ok,
        match (*cb, r->Ok_0) {
            (Callback::List(v, name, page), Callback::List(v1, name1, page1)) => {
                &&& v1 == v
                &&& name1@ == name@
                &&& page1 == page
            },
        },
{
}

/// What is written for a callback is the one entry of its kind, with its version, text and page.
pub proof fn callbacks_are_written(cb: &Callback, t: String)
    requires
        call_ensures(Callback::to_string, (cb,), t),
    ensures
        match *cb {
            Callback::List(v, name, page) => {
                &&& t@ == tg_bot::toml_entry("List"@, v, name@, page)
                &&& (forall|i: int|
                    0 <= i < name@.len() ==> ('a' <= #[trigger] name@[i] <= 'z') || ('A' <= name@[i]
                        <= 'Z')) ==> t@ == "List"@ + " = ["@ + text::digits(v as nat) + ", \""@
                    + name@ + "\", "@ + text::digits(page as nat) + "]\n"@
            },
        },
{
    match *cb {
        Callback::List(v, name, page) => {
            if forall|i: int|
                0 <= i < name@.len() ==> ('a' <= #[trigger] name@[i] <= 'z') || ('A' <= name@[i]
                    <= 'Z') {
                assert(tg_bot::plain_word(name@));
            }
        },
    }
}

/// A text stands for a callback if and only if it is what is written for that callback: one entry of
/// the right kind and nothing else; other texts are refused by name.
pub proof fn other_texts_are_no_callbacks(t: &str, entries: Vec<Entry>, r: Result<Callback, String>)
    requires
        call_ensures(Callback::from_entries, (t, entries), r),
    ensures
        r is Ok <==> {
            &&& entries@.len() == 1
            &&& entries@[0].0@ == "List"@
            &&& t@ == tg_bot::toml_entry("List"@, entries@[0].1, entries@[0].2@, entries@[0].3)
        },
        r matches Ok(Callback::List(v, name, page)) ==> {
            &&& v == entries@[0].1
            &&& name@ == entries@[0].2@
            &&& page == entries@[0].3
        },
        r matches Err(e) ==> e@ == "No callback: "@ + t@,
{
    let views = tg_bot::entry_views(entries@);
    assert(views.len() == entries@.len());
    if entries@.len() > 0 {
        assert(views[0] == (entries@[0].0@, entries@[0].1, entries@[0].2@, entries@[0].3));
    }
}

/// A text that is no document is refused with the reason.
pub proof fn unreadable_texts_are_no_callbacks(t: &str, r: Result<Callback, String>)
    requires
        call_ensures(Callback::read, (t,), r),
    ensures
        tg_bot::toml_entries(t@) matches Err(e) ==> (r matches Err(f) && f@ == e),
        r matches Ok(Callback::List(v, name, page)) ==> t@ == tg_bot::toml_entry(
            "List"@,
            v,
            name@,
            page,
        ),
{
}

/// Whether a button has a label and asks for a page under a name, in the current version.
pub open spec fn asks(b: Button, label: Seq<char>, name: Seq<char>, page: int) -> bool {
    &&& b.text@ == label
    &&& 0 <= page <= 255
    &&& b.data@ == tg_bot::toml_entry("List"@, 0, name, page as u8)
}

/// A keyboard of another version is refused. A list of up to six feeds has a row for each feed, in
/// ascending order of the numbers, and a button for the first page. A longer one is spread over pages
/// that start five feeds apart and show six feeds as far as there are so many; a page past the end is
/// the last page; and two buttons lead to the page before and the page after.
pub proof fn keyboards_show_their_page(
    cb: &Callback,
    feeds: &FeedList,
    entries: Vec<(i32, String)>,
    r: Result<Keyboard, String>,
)
    requires
        call_ensures(tg_bot::get_kb, (cb, feeds), r),
        call_ensures(cache::feed_entries, (feeds,), entries),
    ensures
        match *cb {
            Callback::List(version, _, asked) => {
                let n = entries@.len() as int;
                let page = if n > 6 && asked * 5 >= n {
                    (n - 1) / 5
                } else {
                    asked as int
                };
                let first = if n > 6 {
                    page * 5
                } else {
                    0
                };
                let shown = if n > 6 && n - first > 6 {
                    6
                } else {
                    n - first
                };
                &&& version != 0 ==> (r matches Err(e) && e@ == "Wrong callback version."@)
                &&& version == 0 ==> {
                    let rows = r->Ok_0@;
                    &&& r is Ok
                    &&& rows.len() == shown + 1 + (if n > 6 {
                        1int
                    } else {
                        0
                    })
                    &&& forall|i: int|
                        #![trigger rows[i]]
                        0 <= i < shown ==> {
                            &&& rows[i]@.len() == 1
                            &&& asks(
                                rows[i]@[0],
                                text::decimal(entries@[first + i].0 as int) + ". "@ + entries@[first
                                    + i].1@,
                                "xxx"@,
                                page,
                            )
                        }
                    &&& rows[shown]@.len() == 1
                    &&& asks(rows[shown]@[0], "1"@, "xxx"@, 0)
                    &&& n > 6 ==> {
                        &&& rows[shown + 1]@.len() == 2
                        &&& asks(
                            rows[shown + 1]@[0],
                            "<<"@,
                            ""@,
                            if page == 0 {
                                0
                            } else {
                                page - 1
                            },
                        )
                        &&& asks(
                            rows[shown + 1]@[1],
                            ">>"@,
                            ""@,
                            if page == 255 {
                                255
                            } else {
                                page + 1
                            },
                        )
                    }
                }
            },
        },
{
    let listed = cache::feed_rows(entries@);
    assert(listed.len() == entries@.len());
    assert(forall|i: int|
        0 <= i < entries@.len() ==> #[trigger] listed[i] == (entries@[i].0, entries@[i].1@));
    match *cb {
        Callback::List(version, _, asked) => {
            if version == 0 {
                let kb = r->Ok_0;
                buttons_are_seen(kb);
                let view = tg_bot::keyboard_view(kb@);
                let n = entries@.len() as int;
                let page = if n > 6 && asked * 5 >= n {
                    (n - 1) / 5
                } else {
                    asked as int
                };
                let first = if n > 6 {
                    page * 5
                } else {
                    0
                };
                let shown = if n > 6 && n - first > 6 {
                    6
                } else {
                    n - first
                };
                assert(0 <= page <= 255);
                assert(tg_bot::page_of(listed.len(), asked) == page as u8);
                assert(view == tg_bot::list_keyboard(listed, asked));
                assert forall|i: int| #![trigger kb@[i]] 0 <= i < shown implies {
                    &&& kb@[i]@.len() == 1
                    &&& asks(
                        kb@[i]@[0],
                        text::decimal(entries@[first + i].0 as int) + ". "@ + entries@[first + i].1@,
                        "xxx"@,
                        page,
                    )
                } by {
                    assert(view[i] == tg_bot::feed_row(listed[first + i], page as u8));
                    assert(view[i].len() == kb@[i]@.len());
                    assert(view[i][0].text == kb@[i]@[0].text@);
                }
                assert(view[shown].len() == kb@[shown]@.len());
                assert(view[shown][0].text == kb@[shown]@[0].text@);
                if n > 6 {
                    assert(view[shown + 1].len() == kb@[shown + 1]@.len());
                    assert(view[shown + 1][0].text == kb@[shown + 1]@[0].text@);
                    assert(view[shown + 1][1].text == kb@[shown + 1]@[1].text@);
                }
            }
        },
    }
}

} // verus!

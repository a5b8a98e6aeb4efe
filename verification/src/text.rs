//! Text: decimal numbers, joined lines, quoted text and the numbers that users type.

use vstd::prelude::*;

verus! {

/// The character of one decimal digit.
pub open spec fn digit(d: nat) -> char {
    (48 + d) as char
}

/// A number that is not negative, written in decimal without leading zeros.
pub open spec fn digits(n: nat) -> Seq<char>
    decreases n,
{
    if n < 10 {
        seq![digit(n)]
    } else {
        digits(n / 10).push(digit(n % 10))
    }
}

/// A number written in decimal, with a leading minus when it is negative.
pub open spec fn decimal(n: int) -> Seq<char> {
    if n < 0 {
        seq!['-'] + digits((-n) as nat)
    } else {
        digits(n as nat)
    }
}

/// An optional text as characters.
pub open spec fn opt_text(t: Option<String>) -> Option<Seq<char>> {
    match t {
        Some(s) => Some(s@),
        None => None,
    }
}

/// A list of texts as characters.
pub open spec fn texts(v: Seq<String>) -> Seq<Seq<char>> {
    v.map_values(|s: String| s@)
}

/// The outcome of an operation with its error text as characters.
pub open spec fn outcome<T>(r: Result<T, String>) -> Result<T, Seq<char>> {
    match r {
        Ok(v) => Ok(v),
        Err(e) => Err(e@),
    }
}

/// A text or an error text as characters.
pub open spec fn text_outcome(r: Result<String, String>) -> Result<Seq<char>, Seq<char>> {
    match r {
        Ok(s) => Ok(s@),
        Err(e) => Err(e@),
    }
}

/// The lines of a list, with a separator between each two of them.
pub open spec fn joined(lines: Seq<Seq<char>>, separator: Seq<char>) -> Seq<char>
    decreases lines.len(),
{
    if lines.len() == 0 {
        Seq::empty()
    } else if lines.len() == 1 {
        lines[0]
    } else {
        joined(lines.drop_last(), separator) + separator + lines.last()
    }
}

/// An error message with the error that brought it about on the next line.
pub open spec fn because(message: Seq<char>, cause: Seq<char>) -> Seq<char> {
    message + "\n"@ + cause
}

/// Whether two texts hold the same characters.
pub fn same(a: &str, b: &str) -> (r: bool)
    ensures
        r == (a@ == b@),
{
    a.to_owned() == b.to_owned()
}

/// Two texts one after the other.
pub fn cat(a: &str, b: &str) -> (r: String)
    ensures
        r@ == a@ + b@,
{
    let mut s = a.to_owned();
    s.append(b);
    s
}

/// Three texts one after the other.
pub fn cat3(a: &str, b: &str, c: &str) -> (r: String)
    ensures
        r@ == a@ + b@ + c@,
{
    let mut s = a.to_owned();
    s.append(b);
    s.append(c);
    s
}

/// See [`because`].
pub fn with_cause(message: &str, cause: &str) -> (r: String)
    ensures
        r@ == because(message@, cause@),
{
    cat3(message, "\n", cause)
}

fn digit_text(d: u64) -> (r: &'static str)
    requires
        d < 10,
    ensures
        r@ == seq![digit(d as nat)],
{
    proof {
        reveal_strlit("0");
        reveal_strlit("1");
        reveal_strlit("2");
        reveal_strlit("3");
        reveal_strlit("4");
        reveal_strlit("5");
        reveal_strlit("6");
        reveal_strlit("7");
        reveal_strlit("8");
        reveal_strlit("9");
    }
    let r = if d == 0 {
        "0"
    } else if d == 1 {
        "1"
    } else if d == 2 {
        "2"
    } else if d == 3 {
        "3"
    } else if d == 4 {
        "4"
    } else if d == 5 {
        "5"
    } else if d == 6 {
        "6"
    } else if d == 7 {
        "7"
    } else if d == 8 {
        "8"
    } else {
        "9"
    };
    assert(r@ =~= seq![digit(d as nat)]);
    r
}

/// A number that is not negative as decimal text.
pub fn digits_text(n: u64) -> (r: String)
    ensures
        r@ == digits(n as nat),
    decreases n,
{
    if n < 10 {
        digit_text(n).to_owned()
    } else {
        let mut s = digits_text(n / 10);
        s.append(digit_text(n % 10));
        assert(s@ =~= digits((n / 10) as nat).push(digit((n % 10) as nat)));
        s
    }
}

/// A 32 bit number as decimal text.
pub fn decimal_text(n: i32) -> (r: String)
    ensures
        r@ == decimal(n as int),
{
    if n < 0 {
        proof {
            reveal_strlit("-");
        }
        let magnitude: u64 = (-(n as i64)) as u64;
        let mut s = "-".to_owned();
        assert(s@ =~= seq!['-']);
        s.append(digits_text(magnitude).as_str());
        s
    } else {
        digits_text(n as u64)
    }
}

/// The lines of a list as one text: see [`joined`].
pub fn join(lines: &Vec<String>, separator: &str) -> (r: String)
    ensures
        r@ == joined(texts(lines@), separator@),
{
    let mut out = String::new();
    let mut i: usize = 0;
    assert(texts(lines@).take(0) =~= Seq::<Seq<char>>::empty());
    while i < lines.len()
        invariant
            i <= lines.len(),
            out@ == joined(texts(lines@).take(i as int), separator@),
        decreases lines.len() - i,
    {
        let ghost all = texts(lines@);
        if i > 0 {
            out.append(separator);
        }
        out.append(lines[i].as_str());
        proof {
            let next = all.take(i + 1);
            assert(next.drop_last() =~= all.take(i as int));
            assert(next.last() == lines@[i as int]@);
            if i == 0 {
                assert(Seq::<char>::empty() + next[0] =~= next[0]);
            }
        }
        i = i + 1;
    }
    assert(texts(lines@).take(lines@.len() as int) =~= texts(lines@));
    out
}

/// How a text is shown in quotes, with what is special in it escaped.
pub uninterp spec fn quoted(text: Seq<char>) -> Seq<char>;

/// Whether a text is made of ASCII characters that are shown as they are: no quotes, backslashes or
/// control characters.
pub open spec fn plain(text: Seq<char>) -> bool {
    forall|i: int|
        0 <= i < text.len() ==> {
            &&& ' ' <= #[trigger] text[i] <= '~'
            &&& text[i] != '"'
            &&& text[i] != '\''
            &&& text[i] != '\\'
        }
}

/// `str`'s `Debug` formatting. The contract claims that the result depends on the text alone, and
/// that a text in which nothing needs to be escaped is put between quotes. How other characters are
/// escaped it does not say.
#[verifier::external_body]
pub(crate) fn quote(text: &str) -> (r: String)
    ensures
        r@ == quoted(text@),
        plain(text@) ==> r@ == "\""@ + text@ + "\""@,
{
    format!("{:?}", text)
}

/// Whether every character is a decimal digit.
pub open spec fn all_digits(s: Seq<char>) -> bool {
    forall|i: int| 0 <= i < s.len() ==> '0' <= #[trigger] s[i] <= '9'
}

/// The number that a run of decimal digits stands for.
pub open spec fn digits_value(s: Seq<char>) -> int
    decreases s.len(),
{
    if s.len() == 0 {
        0
    } else {
        digits_value(s.drop_last()) * 10 + (s.last() as int - '0' as int)
    }
}

/// The number that a text stands for: an optional sign followed by digits only.
pub open spec fn integer_value(s: Seq<char>) -> Option<int> {
    let signed = s.len() > 0 && (s[0] == '-' || s[0] == '+');
    let body = if signed {
        s.skip(1)
    } else {
        s
    };
    if body.len() == 0 || !all_digits(body) {
        None
    } else if s[0] == '-' {
        Some(-digits_value(body))
    } else {
        Some(digits_value(body))
    }
}

/// The number that a text stands for, where it fits 32 bits.
pub open spec fn i32_value(s: Seq<char>) -> Option<i32> {
    match integer_value(s) {
        Some(n) => if i32::MIN <= n <= i32::MAX {
            Some(n as i32)
        } else {
            None
        },
        None => None,
    }
}

/// Why a text is not a 32 bit number, in words.
pub uninterp spec fn i32_refusal(text: Seq<char>) -> Seq<char>;

/// `str::parse::<i32>`: succeeds exactly on an optional sign followed by one or more decimal
/// digits whose value fits, and returns that value. The wording of the error is not described,
/// only that it depends on the text alone.
#[verifier::external_body]
pub(crate) fn parse_i32(text: &str) -> (r: Result<i32, String>)
    ensures
        match r {
            Ok(n) => i32_value(text@) == Some(n),
            Err(e) => i32_value(text@) is None && e@ == i32_refusal(text@),
        },
{
    text.parse::<i32>().map_err(|e| e.to_string())
}

} // verus!

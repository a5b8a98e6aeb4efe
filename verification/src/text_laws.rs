//! What holds of numbers, lines and moments as they are written, read and compared.

use crate::moment::{self, Moment, Stamp};
use crate::rules;
use crate::text;
use vstd::prelude::*;

verus! {

/// An optional text as characters.
pub open spec fn chars(t: Option<String>) -> Option<Seq<char>> {
    match t {
        Some(s) => Some(s@),
        None => None,
    }
}

proof fn digits_are_digits(n: nat)
    ensures
        text::digits(n).len() > 0,
        text::all_digits(text::digits(n)),
        text::digits_value(text::digits(n)) == n,
        n > 0 ==> text::digits(n)[0] != '0',
        n == 0 ==> text::digits(n) =~= seq!['0'],
    decreases n,
{
    reveal_with_fuel(text::digits_value, 2);
    let s = text::digits(n);
    if n < 10 {
        assert(s.drop_last() =~= Seq::<char>::empty());
    } else {
        let front = text::digits(n / 10);
        digits_are_digits(n / 10);
        assert(s.drop_last() =~= front);
        assert(s.last() == text::digit(n % 10));
        assert forall|i: int| 0 <= i < s.len() implies '0' <= #[trigger] s[i] <= '9' by {
            if i < front.len() {
                assert(s[i] == front[i]);
            }
        }
        assert(s[0] == front[0]);
    }
}

/// A number is written with decimal digits only and without leading zeros, and what is written is
/// read as that number again.
pub proof fn numbers_are_read_back(n: u64, r: String)
    requires
        call_ensures(text::digits_text, (n,), r),
    ensures
        r@.len() > 0,
        forall|i: int| 0 <= i < r@.len() ==> '0' <= #[trigger] r@[i] <= '9',
        r@.len() > 1 ==> r@[0] != '0',
        text::integer_value(r@) == Some(n as int),
{
    digits_are_digits(n as nat);
}

/// A number with a sign is written so that it is read as that number again, with a minus in front if
/// and only if it is negative.
pub proof fn signed_numbers_are_read_back(n: i32, r: String)
    requires
        call_ensures(text::decimal_text, (n,), r),
    ensures
        text::i32_value(r@) == Some(n),
        r@[0] == '-' <==> n < 0,
        r@[0] != '+',
{
    if n < 0 {
        let m = (-n) as nat;
        digits_are_digits(m);
        assert(r@.skip(1) =~= text::digits(m));
    } else {
        digits_are_digits(n as nat);
    }
}

proof fn joining_in_two(a: Seq<Seq<char>>, b: Seq<Seq<char>>, separator: Seq<char>)
    requires
        a.len() > 0,
        b.len() > 0,
    ensures
        text::joined(a + b, separator) =~= text::joined(a, separator) + separator + text::joined(
            b,
            separator,
        ),
    decreases b.len(),
{
    let all = a + b;
    assert(all.last() == b.last());
    assert(all.drop_last() =~= a + b.drop_last());
    if b.len() == 1 {
        assert(all.drop_last() =~= a);
    } else {
        joining_in_two(a, b.drop_last(), separator);
    }
}

/// Joining lines puts the separator between lines and nowhere else: no line is nothing, one line is
/// itself, and lists that are joined one after the other are joined with one separator between.
pub proof fn joining_separates(
    a: Vec<String>,
    b: Vec<String>,
    all: Vec<String>,
    separator: &str,
    ra: String,
    rb: String,
    rall: String,
)
    requires
        all@ == a@ + b@,
        call_ensures(text::join, (&a, separator), ra),
        call_ensures(text::join, (&b, separator), rb),
        call_ensures(text::join, (&all, separator), rall),
    ensures
        a@.len() == 0 ==> ra@ =~= Seq::<char>::empty(),
        a@.len() == 1 ==> ra@ == a@[0]@,
        a@.len() > 0 && b@.len() > 0 ==> rall@ == ra@ + separator@ + rb@,
{
    assert(text::texts(all@) =~= text::texts(a@) + text::texts(b@));
    if a@.len() > 0 && b@.len() > 0 {
        joining_in_two(text::texts(a@), text::texts(b@), separator@);
    }
}

/// An error stands in front of its cause, with a line break between.
pub proof fn causes_follow_messages(message: &str, cause: &str, r: String)
    requires
        call_ensures(text::with_cause, (message, cause), r),
    ensures
        r@.len() == message@.len() + 1 + cause@.len(),
        r@.take(message@.len() as int) =~= message@,
        r@[message@.len() as int] == '\n',
        r@.skip(message@.len() as int + 1) =~= cause@,
{
    reveal_strlit("\n");
}

/// One text is the same as another if and only if it has the same characters, and texts that are put
/// together stand one after the other.
pub proof fn texts_are_compared_and_put_together(
    a: &str,
    b: &str,
    c: &str,
    same: bool,
    two: String,
    three: String,
)
    requires
        call_ensures(text::same, (a, b), same),
        call_ensures(text::cat, (a, b), two),
        call_ensures(text::cat3, (a, b, c), three),
    ensures
        same <==> a@ == b@,
        two@ == a@ + b@,
        three@ == a@ + b@ + c@,
{
}

/// A moment is before another if it has fewer seconds, or as many and fewer nanoseconds.
pub proof fn moments_are_ordered(a: Moment, b: Moment, r: bool)
    requires
        call_ensures(moment::is_before, (a, b), r),
    ensures
        r <==> a.0 < b.0 || (a.0 == b.0 && a.1 < b.1),
        r == moment::before(a, b),
{
}

/// The time between two moments is counted in nanoseconds, a thousand million to the second, and is
/// positive on the clock if and only if the first is before the second.
pub proof fn time_is_counted_in_nanoseconds(from: Moment, to: Moment, r: i128)
    requires
        call_ensures(moment::nanos_from, (from, to), r),
    ensures
        r == (to.0 as int * 1_000_000_000 + to.1) - (from.0 as int * 1_000_000_000 + from.1),
        from.1 < 1_000_000_000 && to.1 < 1_000_000_000 ==> (r > 0 <==> (from.0 < to.0 || (from.0
            == to.0 && from.1 < to.1))),
{
}

/// A date can be written if its year as shown has four digits at most, its offset is less than a
/// day and it is not inside a leap second.
pub proof fn dates_of_four_digit_years_can_be_written(stamp: &Stamp, r: bool)
    requires
        call_ensures(Stamp::is_printable, (stamp,), r),
    ensures
        r <==> {
            &&& stamp.at.1 < 1_000_000_000
            &&& -86400 < stamp.offset < 86400
            &&& -62167219200 <= stamp.at.0 + stamp.offset < 253402300800
        },
{
}

/// A channel name is an `@` with a letter behind it and then letters, digits and underscores, at
/// least one of them.
pub proof fn channel_names_are_recognised(t: &str, r: bool)
    requires
        call_ensures(rules::username_matches, (t,), r),
    ensures
        r <==> {
            &&& t@.len() >= 3
            &&& t@[0] == '@'
            &&& 'a' <= t@[1] <= 'z' || 'A' <= t@[1] <= 'Z'
            &&& forall|i: int|
                2 <= i < t@.len() ==> {
                    ||| 'a' <= #[trigger] t@[i] <= 'z'
                    ||| 'A' <= t@[i] <= 'Z'
                    ||| '0' <= t@[i] <= '9'
                    ||| t@[i] == '_'
                }
        },
{
}

/// An Instant View hash is fourteen digits or lower case letters up to `f`.
pub proof fn hashes_are_recognised(t: &str, r: bool)
    requires
        call_ensures(rules::iv_hash_matches, (t,), r),
    ensures
        r <==> {
            &&& t@.len() == 14
            &&& forall|i: int|
                0 <= i < t@.len() ==> {
                    ||| 'a' <= #[trigger] t@[i] <= 'f'
                    ||| '0' <= t@[i] <= '9'
                }
        },
{
}

/// A link is left as it is where there is no substitution, and is what the substitution makes of it
/// where there is one that is accepted.
pub proof fn links_are_rewritten(
    command: &Option<String>,
    link: &str,
    r: Result<String, String>,
)
    requires
        call_ensures(rules::rewrite, (command, link), r),
    ensures
        command is None ==> (r matches Ok(t) && t@ == link@),
        command matches Some(c) ==> match rules::substitution_refusal(c@) {
            None => r matches Ok(t) && t@ == rules::substituted(c@, link@),
            Some(e) => r matches Err(t) && t@ == e,
        },
{
}

} // verus!

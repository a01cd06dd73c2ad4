//! Text building blocks: decimal rendering of fixed-point quantities, joining
//! and substring search, each specified over sequences of characters.

use vstd::prelude::*;
use vstd::string::*;
use vstd::std_specs::iter::IteratorSpec;

verus! {

/// The character that stands for the decimal digit `d`.
pub open spec fn digit_char(d: int) -> char {
    if d == 0 {
        '0'
    } else if d == 1 {
        '1'
    } else if d == 2 {
        '2'
    } else if d == 3 {
        '3'
    } else if d == 4 {
        '4'
    } else if d == 5 {
        '5'
    } else if d == 6 {
        '6'
    } else if d == 7 {
        '7'
    } else if d == 8 {
        '8'
    } else {
        '9'
    }
}

/// The decimal numeral of `n`, without leading zeros.
pub open spec fn decimal_digits(n: nat) -> Seq<char>
    decreases n,
{
    if n < 10 {
        seq![digit_char(n as int)]
    } else {
        decimal_digits(n / 10).push(digit_char((n % 10) as int))
    }
}

/// The last `width` decimal digits of `n`, padded with zeros on the left.
pub open spec fn padded_digits(n: nat, width: nat) -> Seq<char>
    decreases width,
{
    if width == 0 {
        Seq::<char>::empty()
    } else {
        padded_digits(n / 10, (width - 1) as nat).push(digit_char((n % 10) as int))
    }
}

/// `n` with its last `places` decimal digits removed.
pub open spec fn drop_digits(n: nat, places: nat) -> nat
    decreases places,
{
    if places == 0 {
        n
    } else {
        drop_digits(n / 10, (places - 1) as nat)
    }
}

/// The one-character string of the decimal digit `d`.
fn digit_str(d: u128) -> (s: &'static str)
    requires
        d < 10,
    ensures
        s@ == seq![digit_char(d as int)],
{
    proof {
        reveal_strlit("0");
        reveal_strlit("1");
        reveal_strlit("2");
        reveal_strlit("3");
        reveal_strlit("4");
        reveal_strlit("5");
        reveal_strlit("6");
        reveal_strlit("7");
        reveal_strlit("8");
        reveal_strlit("9");
    }
    let s: &'static str = if d == 0 {
        "0"
    } else if d == 1 {
        "1"
    } else if d == 2 {
        "2"
    } else if d == 3 {
        "3"
    } else if d == 4 {
        "4"
    } else if d == 5 {
        "5"
    } else if d == 6 {
        "6"
    } else if d == 7 {
        "7"
    } else if d == 8 {
        "8"
    } else {
        "9"
    };
    assert(s@ =~= seq![digit_char(d as int)]);
    s
}

/// Renders `n` in decimal.
pub fn format_unsigned(n: u128) -> (s: String)
    ensures
        s@ == decimal_digits(n as nat),
    decreases n,
{
    if n < 10 {
        String::from_str(digit_str(n))
    } else {
        let mut s = format_unsigned(n / 10);
        s.append(digit_str(n % 10));
        s
    }
}

/// The characters of `s`, in order.
pub fn chars_of(s: &str) -> (v: Vec<char>)
    ensures
        v@ == s@,
{
    broadcast use vstd::string::group_string_axioms;

    let mut it = s.chars();
    let mut v: Vec<char> = Vec::new();
    loop
        invariant
            IteratorSpec::obeys_prophetic_iter_laws(&it),
            IteratorSpec::decrease(&it) is Some,
            v@ + IteratorSpec::remaining(&it) == s@,
        ensures
            v@ == s@,
        decreases IteratorSpec::decrease(&it)->0,
    {
        match it.next() {
            Some(c) => {
                v.push(c);
                assert(v@ + IteratorSpec::remaining(&it) =~= s@);
            },
            None => {
                assert(v@ =~= s@);
                break;
            },
        }
    }
    v
}

/// The absolute value of `x`.
pub open spec fn magnitude(x: int) -> nat {
    if x < 0 {
        (-x) as nat
    } else {
        x as nat
    }
}

/// The quotient `num / den` rounded to the nearest integer, a tie going to
/// the even neighbour.
pub open spec fn round_half_even(num: nat, den: nat) -> nat
    recommends
        den > 0,
{
    let q = num / den;
    let r = num % den;
    if 2 * r > den || (2 * r == den && q % 2 == 1) {
        q + 1
    } else {
        q
    }
}

/// A signed integer in decimal: a minus sign for a negative value, then the
/// numeral of its magnitude.
pub open spec fn integer_text(n: int) -> Seq<char> {
    if n < 0 {
        seq!['-'] + decimal_digits(magnitude(n))
    } else {
        decimal_digits(magnitude(n))
    }
}

/// A count of `scaled` units of ten to the minus `decimals`, written with
/// exactly `decimals` digits after the point. The sign is written whenever
/// `negative` holds, also before a magnitude that rounded to zero.
pub open spec fn fixed_text(negative: bool, scaled: nat, decimals: nat) -> Seq<char> {
    let sign = if negative {
        seq!['-']
    } else {
        Seq::<char>::empty()
    };
    let whole = decimal_digits(drop_digits(scaled, decimals));
    if decimals == 0 {
        sign + whole
    } else {
        sign + whole + seq!['.'] + padded_digits(scaled, decimals)
    }
}

/// The quotient `num / den`, counted in units of ten to the minus
/// `decimals`, rounded half-to-even to a whole number of units and written
/// with `decimals` digits after the point.
pub open spec fn rounded_text(num: int, den: int, decimals: nat) -> Seq<char>
    recommends
        den > 0,
{
    fixed_text(num < 0, round_half_even(magnitude(num), den as nat), decimals)
}

/// The magnitude of a machine integer, which always fits the unsigned type
/// of the same width.
pub fn magnitude_of(x: i128) -> (m: u128)
    ensures
        m == magnitude(x as int),
{
    if x >= 0 {
        x as u128
    } else if x == i128::MIN {
        170141183460469231731687303715884105728u128
    } else {
        (-x) as u128
    }
}

/// Rounds `num / den` to the nearest integer, ties to even.
pub fn round_quotient(num: u128, den: u64) -> (q: u128)
    requires
        den > 0,
    ensures
        q == round_half_even(num as nat, den as nat),
{
    let d: u128 = den as u128;
    let q: u128 = num / d;
    let r: u128 = num % d;
    if q == u128::MAX {
        // Only a quotient by one reaches the maximum, and it leaves no remainder.
        assert(r == 0) by (nonlinear_arith)
            requires
                q == num / d,
                r == num % d,
                q == u128::MAX,
                num <= u128::MAX,
                d >= 1,
            {
                assert(num == d * (num / d) + num % d) by {
                    vstd::arithmetic::div_mod::lemma_fundamental_div_mod(num as int, d as int);
                }
                if d >= 2 {
                    assert(d * (num / d) >= 2 * (num / d));
                }
            }
        q
    } else if 2 * r > d || (2 * r == d && q % 2 == 1) {
        q + 1
    } else {
        q
    }
}

/// Renders the last `width` decimal digits of `n`, zero-padded.
pub fn format_padded(n: u128, width: u8) -> (s: String)
    ensures
        s@ == padded_digits(n as nat, width as nat),
    decreases width,
{
    if width == 0 {
        String::new()
    } else {
        let mut s = format_padded(n / 10, width - 1);
        s.append(digit_str(n % 10));
        s
    }
}

fn without_last_digits(n: u128, places: u8) -> (m: u128)
    ensures
        m == drop_digits(n as nat, places as nat),
    decreases places,
{
    if places == 0 {
        n
    } else {
        without_last_digits(n / 10, places - 1)
    }
}

/// Renders a signed integer in decimal.
pub fn format_integer(n: i128) -> (s: String)
    ensures
        s@ == integer_text(n as int),
{
    let digits = format_unsigned(magnitude_of(n));
    if n < 0 {
        let mut s = String::from_str("-");
        proof {
            reveal_strlit("-");
        }
        s.append(digits.as_str());
        assert(s@ =~= integer_text(n as int));
        s
    } else {
        digits
    }
}

/// Renders `num / den`, counted in units of ten to the minus `decimals`, the
/// way a fixed-precision decimal is printed: rounded half-to-even, with
/// `decimals` digits after the point, and with a minus sign for a negative
/// numerator.
pub fn format_fixed(num: i128, den: u64, decimals: u8) -> (s: String)
    requires
        den > 0,
    ensures
        s@ == rounded_text(num as int, den as int, decimals as nat),
{
    let scaled = round_quotient(magnitude_of(num), den);
    let mut s = String::new();
    if num < 0 {
        proof {
            reveal_strlit("-");
        }
        s.append("-");
    }
    let whole = format_unsigned(without_last_digits(scaled, decimals));
    s.append(whole.as_str());
    if decimals > 0 {
        proof {
            reveal_strlit(".");
        }
        s.append(".");
        let fraction = format_padded(scaled, decimals);
        s.append(fraction.as_str());
    }
    assert(s@ =~= rounded_text(num as int, den as int, decimals as nat));
    s
}

/// An amount of cents in currency units, written as briefly as its value
/// allows: no fraction for a whole amount, one digit for whole tenths, two
/// digits otherwise.
pub open spec fn plain_money_text(cents: int) -> Seq<char> {
    let sign = if cents < 0 {
        seq!['-']
    } else {
        Seq::<char>::empty()
    };
    let whole = decimal_digits(magnitude(cents) / 100);
    let rest = magnitude(cents) % 100;
    if rest == 0 {
        sign + whole
    } else if rest % 10 == 0 {
        sign + whole + seq!['.'] + seq![digit_char((rest / 10) as int)]
    } else {
        sign + whole + seq!['.'] + padded_digits(rest, 2)
    }
}

/// Renders an amount of cents in currency units, as briefly as its value
/// allows.
pub fn format_money_plain(cents: i64) -> (s: String)
    ensures
        s@ == plain_money_text(cents as int),
{
    let mag: u128 = magnitude_of(cents as i128);
    let rest: u128 = mag % 100;
    let mut s = String::new();
    if cents < 0 {
        proof {
            reveal_strlit("-");
        }
        s.append("-");
    }
    s.append(format_unsigned(mag / 100).as_str());
    if rest != 0 {
        proof {
            reveal_strlit(".");
        }
        s.append(".");
        if rest % 10 == 0 {
            s.append(digit_str(rest / 10));
        } else {
            s.append(format_padded(rest, 2).as_str());
        }
    }
    assert(s@ =~= plain_money_text(cents as int));
    s
}

/// The character sequences of a sequence of strings.
pub open spec fn string_views(parts: Seq<String>) -> Seq<Seq<char>> {
    Seq::new(parts.len(), |i: int| parts[i]@)
}

/// The parts written one after another with `sep` between neighbours.
pub open spec fn join(parts: Seq<Seq<char>>, sep: Seq<char>) -> Seq<char>
    decreases parts.len(),
{
    if parts.len() == 0 {
        Seq::<char>::empty()
    } else if parts.len() == 1 {
        parts[0]
    } else {
        join(parts.drop_last(), sep) + sep + parts.last()
    }
}

/// Joining one more part appends the separator and the part, except that the
/// first part stands alone.
pub proof fn lemma_join_push(parts: Seq<Seq<char>>, sep: Seq<char>, part: Seq<char>)
    ensures
        join(parts.push(part), sep) == if parts.len() == 0 {
            part
        } else {
            join(parts, sep) + sep + part
        },
{
    let all = parts.push(part);
    assert(all.drop_last() =~= parts);
    assert(all.last() == part);
    if parts.len() == 0 {
        assert(all[0] == part);
    }
}

/// Joins the strings with `sep` between neighbours.
pub fn join_strings(parts: &Vec<String>, sep: &str) -> (s: String)
    ensures
        s@ == join(string_views(parts@), sep@),
{
    let mut out = String::new();
    let mut i: usize = 0;
    while i < parts.len()
        invariant
            i <= parts.len(),
            out@ == join(string_views(parts@).take(i as int), sep@),
        decreases parts.len() - i,
    {
        proof {
            let done = string_views(parts@).take(i as int);
            lemma_join_push(done, sep@, parts[i as int]@);
            assert(string_views(parts@).take(i + 1) =~= done.push(parts[i as int]@));
        }
        if i > 0 {
            out.append(sep);
        }
        out.append(parts[i].as_str());
        assert(out@ =~= join(string_views(parts@).take(i + 1), sep@));
        i += 1;
    }
    assert(string_views(parts@).take(i as int) =~= string_views(parts@));
    out
}

/// `needle` stands in `hay` at position `at`.
pub open spec fn occurs_at(hay: Seq<char>, needle: Seq<char>, at: int) -> bool {
    &&& 0 <= at
    &&& at + needle.len() <= hay.len()
    &&& hay.subrange(at, at + needle.len()) == needle
}

/// `needle` stands somewhere in `hay`.
pub open spec fn contains(hay: Seq<char>, needle: Seq<char>) -> bool {
    exists|at: int| occurs_at(hay, needle, at)
}

fn matches_at(hay: &Vec<char>, needle: &Vec<char>, at: usize) -> (found: bool)
    requires
        at + needle@.len() <= hay@.len(),
    ensures
        found == occurs_at(hay@, needle@, at as int),
{
    let hay_len: usize = hay.len();
    let mut j: usize = 0;
    while j < needle.len()
        invariant
            hay_len == hay@.len(),
            j <= needle@.len(),
            at + needle@.len() <= hay@.len() <= usize::MAX,
            forall|t: int| 0 <= t < j ==> hay@[at + t] == needle@[t],
        decreases needle@.len() - j,
    {
        if hay[at + j] != needle[j] {
            proof {
                let window = hay@.subrange(at as int, at + needle@.len());
                assert(window[j as int] == hay@[at + j]);
            }
            return false;
        }
        j += 1;
    }
    assert(hay@.subrange(at as int, at + needle@.len()) =~= needle@);
    true
}

/// Whether `needle` occurs in `hay` as a contiguous run of characters.
pub fn str_contains(hay: &str, needle: &str) -> (found: bool)
    ensures
        found == contains(hay@, needle@),
{
    let h = chars_of(hay);
    let n = chars_of(needle);
    if n.len() > h.len() {
        return false;
    }
    let last: usize = h.len() - n.len();
    let mut at: usize = 0;
    loop
        invariant
            at <= last,
            last == h@.len() - n@.len(),
            h@ == hay@,
            n@ == needle@,
            forall|k: int| 0 <= k < at ==> !occurs_at(hay@, needle@, k),
        decreases last - at,
    {
        if matches_at(&h, &n, at) {
            return true;
        }
        if at == last {
            return false;
        }
        at += 1;
    }
}

/// Whether two strings hold the same characters.
pub fn same_text(a: &str, b: &str) -> (same: bool)
    ensures
        same == (a@ == b@),
{
    let x = String::from_str(a);
    let y = String::from_str(b);
    x == y
}

/// A copy of a list of strings.
pub fn copy_strings(list: &Vec<String>) -> (copy: Vec<String>)
    ensures
        copy@ == list@,
{
    let mut copy: Vec<String> = Vec::new();
    let mut i: usize = 0;
    while i < list.len()
        invariant
            i <= list@.len(),
            copy@ == list@.take(i as int),
        decreases list@.len() - i,
    {
        copy.push(list[i].clone());
        assert(copy@ =~= list@.take(i + 1));
        i += 1;
    }
    assert(list@.take(i as int) =~= list@);
    copy
}

/// Whether one of the strings in `list` holds the same characters as `item`.
pub fn list_contains(list: &Vec<String>, item: &String) -> (found: bool)
    ensures
        found == string_views(list@).contains(item@),
{
    let mut i: usize = 0;
    while i < list.len()
        invariant
            i <= list@.len(),
            forall|k: int| 0 <= k < i ==> string_views(list@)[k] != item@,
        decreases list@.len() - i,
    {
        if list[i] == *item {
            assert(string_views(list@)[i as int] == item@);
            return true;
        }
        i += 1;
    }
    false
}

} // verus!

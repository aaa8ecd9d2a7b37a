//! Decimal rendering and parsing of integers, whitespace trimming, and
//! joining of message lists: the plain-text groundwork the probe needs.

use vstd::prelude::*;

verus! {

/// A decimal digit character, `'0'` through `'9'`.
pub open spec fn spec_is_digit(c: char) -> bool {
    48 <= c as u32 <= 57
}

/// The numeric value of a decimal digit character.
pub open spec fn spec_digit_val(c: char) -> nat {
    (c as u32 - 48) as nat
}

/// The digit character for a value below ten.
pub open spec fn spec_digit_char(d: nat) -> char {
    if d == 0 {
        '0'
    } else if d == 1 {
        '1'
    } else if d == 2 {
        '2'
    } else if d == 3 {
        '3'
    } else if d == 4 {
        '4'
    } else if d == 5 {
        '5'
    } else if d == 6 {
        '6'
    } else if d == 7 {
        '7'
    } else if d == 8 {
        '8'
    } else {
        '9'
    }
}

/// Decimal representation of a natural number, most significant digit first.
pub open spec fn spec_dec_nat(n: nat) -> Seq<char>
    decreases n,
{
    if n < 10 {
        seq![spec_digit_char(n)]
    } else {
        spec_dec_nat(n / 10).push(spec_digit_char(n % 10))
    }
}

/// Decimal representation of an integer: a leading `'-'` for negatives.
pub open spec fn spec_dec_int(v: int) -> Seq<char> {
    if v < 0 {
        seq!['-'] + spec_dec_nat((-v) as nat)
    } else {
        spec_dec_nat(v as nat)
    }
}

fn digit_str(d: u32) -> (r: &'static str)
    requires
        d < 10,
    ensures
        r@ == seq![spec_digit_char(d as nat)],
{
    proof {
        reveal_strlit("0");
        reveal_strlit("1");
        reveal_strlit("2");
        reveal_strlit("3");
        reveal_strlit("4");
        reveal_strlit("5");
        reveal_strlit("6");
        reveal_strlit("7");
        reveal_strlit("8");
        reveal_strlit("9");
        assert("0"@ =~= seq!['0']);
        assert("1"@ =~= seq!['1']);
        assert("2"@ =~= seq!['2']);
        assert("3"@ =~= seq!['3']);
        assert("4"@ =~= seq!['4']);
        assert("5"@ =~= seq!['5']);
        assert("6"@ =~= seq!['6']);
        assert("7"@ =~= seq!['7']);
        assert("8"@ =~= seq!['8']);
        assert("9"@ =~= seq!['9']);
    }
    if d == 0 {
        "0"
    } else if d == 1 {
        "1"
    } else if d == 2 {
        "2"
    } else if d == 3 {
        "3"
    } else if d == 4 {
        "4"
    } else if d == 5 {
        "5"
    } else if d == 6 {
        "6"
    } else if d == 7 {
        "7"
    } else if d == 8 {
        "8"
    } else {
        "9"
    }
}

/// Renders an unsigned number in decimal.
pub fn u32_dec_string(n: u32) -> (r: String)
    ensures
        r@ == spec_dec_nat(n as nat),
    decreases n,
{
    if n < 10 {
        String::from_str(digit_str(n))
    } else {
        let mut s = u32_dec_string(n / 10);
        s.append(digit_str(n % 10));
        proof {
            assert(s@ =~= spec_dec_nat((n / 10) as nat).push(spec_digit_char((n % 10) as nat)));
        }
        s
    }
}

/// Renders a signed number in decimal.
pub fn i32_dec_string(v: i32) -> (r: String)
    ensures
        r@ == spec_dec_int(v as int),
{
    if v >= 0 {
        u32_dec_string(v as u32)
    } else {
        let m: u32 = (-(v as i64)) as u32;
        let mut s = String::from_str("-");
        let digits = u32_dec_string(m);
        s.append(digits.as_str());
        proof {
            reveal_strlit("-");
            assert("-"@ =~= seq!['-']);
            assert(s@ =~= seq!['-'] + spec_dec_nat((-(v as int)) as nat));
        }
        s
    }
}

/// Whether two string slices hold the same characters.
pub fn str_eq(a: &str, b: &str) -> (r: bool)
    ensures
        r == (a@ == b@),
{
    let sa = String::from_str(a);
    let sb = String::from_str(b);
    sa == sb
}

/// All characters of the sequence are decimal digits.
pub open spec fn spec_all_digits(s: Seq<char>) -> bool {
    forall|i: int| 0 <= i < s.len() ==> spec_is_digit(#[trigger] s[i])
}

/// The number denoted by a sequence of decimal digits.
pub open spec fn spec_digits_val(s: Seq<char>) -> nat
    decreases s.len(),
{
    if s.len() == 0 {
        0
    } else {
        spec_digits_val(s.drop_last()) * 10 + spec_digit_val(s.last())
    }
}

/// The signed integer a string denotes: an optional `'+'` or `'-'` sign,
/// then one or more decimal digits, the whole value within `i32` range.
/// Anything else denotes nothing.
pub open spec fn spec_parse_i32(s: Seq<char>) -> Option<int> {
    let neg = s.len() > 0 && s[0] == '-';
    let signed = s.len() > 0 && (s[0] == '-' || s[0] == '+');
    let ds = if signed {
        s.drop_first()
    } else {
        s
    };
    if ds.len() == 0 || !spec_all_digits(ds) {
        None
    } else {
        let v = if neg {
            -(spec_digits_val(ds) as int)
        } else {
            spec_digits_val(ds) as int
        };
        if -2147483648 <= v <= 2147483647 {
            Some(v)
        } else {
            None
        }
    }
}

proof fn lemma_digits_val_prefix(s: Seq<char>, t: int)
    requires
        0 <= t <= s.len(),
    ensures
        spec_digits_val(s.take(t)) <= spec_digits_val(s),
    decreases s.len() - t,
{
    if t == s.len() {
        assert(s.take(t) =~= s);
    } else {
        lemma_digits_val_prefix(s, t + 1);
        assert(s.take(t + 1).drop_last() =~= s.take(t));
        assert(spec_digits_val(s.take(t + 1)) == spec_digits_val(s.take(t)) * 10 + spec_digit_val(
            s.take(t + 1).last(),
        ));
    }
}

/// Parses a decimal integer exactly as `spec_parse_i32` describes.
pub fn parse_i32(s: &str) -> (r: Option<i32>)
    ensures
        (match r {
            Some(x) => spec_parse_i32(s@) == Some(x as int),
            None => spec_parse_i32(s@) is None,
        }),
{
    let n: usize = s.unicode_len();
    let mut start: usize = 0;
    let mut neg = false;
    if n > 0 {
        let c0 = s.get_char(0);
        if c0 == '-' {
            neg = true;
            start = 1;
        } else if c0 == '+' {
            start = 1;
        }
    }
    if start >= n {
        return None;
    }
    let ghost ds: Seq<char> = s@.subrange(start as int, n as int);
    proof {
        if start == 1 {
            assert(ds =~= s@.drop_first());
        } else {
            assert(ds =~= s@);
        }
    }
    let mut j: usize = start;
    while j < n
        invariant
            start <= j <= n,
            0 < n == s@.len(),
            start < n,
            neg == (s@.len() > 0 && s@[0] == '-'),
            (s@[0] == '-' || s@[0] == '+') ==> start == 1,
            !(s@[0] == '-' || s@[0] == '+') ==> start == 0,
            ds == s@.subrange(start as int, n as int),
            forall|k: int| start <= k < j ==> spec_is_digit(#[trigger] s@[k]),
        decreases n - j,
    {
        let c = s.get_char(j);
        let cv: u32 = c as u32;
        if !(48 <= cv && cv <= 57) {
            proof {
                assert(ds[j - start] == s@[j as int]);
                assert(!spec_all_digits(ds));
            }
            return None;
        }
        j += 1;
    }
    proof {
        assert forall|k: int| 0 <= k < ds.len() implies spec_is_digit(#[trigger] ds[k]) by {
            assert(ds[k] == s@[k + start]);
        }
    }
    let mut acc: u64 = 0;
    let mut j: usize = start;
    while j < n
        invariant
            start <= j <= n,
            0 < n == s@.len(),
            start < n,
            neg == (s@.len() > 0 && s@[0] == '-'),
            (s@[0] == '-' || s@[0] == '+') ==> start == 1,
            !(s@[0] == '-' || s@[0] == '+') ==> start == 0,
            spec_all_digits(ds),
            ds == s@.subrange(start as int, n as int),
            acc == spec_digits_val(s@.subrange(start as int, j as int)),
            acc <= 2147483648,
        decreases n - j,
    {
        let c = s.get_char(j);
        proof {
            assert(ds[j - start] == s@[j as int]);
            assert(spec_is_digit(s@[j as int]));
        }
        let d: u64 = (c as u32 - 48) as u64;
        acc = acc * 10 + d;
        proof {
            assert(s@.subrange(start as int, j + 1).drop_last() =~= s@.subrange(
                start as int,
                j as int,
            ));
            assert(s@.subrange(start as int, j + 1).last() == s@[j as int]);
            assert(d == spec_digit_val(s@[j as int]));
            assert(acc == spec_digits_val(s@.subrange(start as int, j + 1)));
        }
        if acc > 2147483648 {
            proof {
                assert(ds.take(j + 1 - start) =~= s@.subrange(start as int, j + 1));
                lemma_digits_val_prefix(ds, j + 1 - start);
                assert(spec_digits_val(ds) >= acc);
                assert(ds.len() > 0);
                if start == 1 {
                    assert(ds =~= s@.drop_first());
                } else {
                    assert(ds =~= s@);
                }
            }
            return None;
        }
        j += 1;
    }
    proof {
        assert(s@.subrange(start as int, n as int) =~= ds);
    }
    if neg {
        if acc == 2147483648 {
            Some(-2147483647 - 1)
        } else {
            Some(-(acc as i32))
        }
    } else {
        if acc > 2147483647 {
            None
        } else {
            Some(acc as i32)
        }
    }
}

/// The characters this crate strips from the ends of attribute values:
/// the ASCII whitespace characters.
pub open spec fn spec_is_space(c: char) -> bool {
    c == ' ' || c == '\t' || c == '\n' || c == '\r' || c == '\u{b}' || c == '\u{c}'
}

/// The sequence with its leading whitespace removed.
pub open spec fn spec_trim_front(s: Seq<char>) -> Seq<char>
    decreases s.len(),
{
    if s.len() > 0 && spec_is_space(s[0]) {
        spec_trim_front(s.drop_first())
    } else {
        s
    }
}

/// The sequence with its trailing whitespace removed.
pub open spec fn spec_trim_back(s: Seq<char>) -> Seq<char>
    decreases s.len(),
{
    if s.len() > 0 && spec_is_space(s.last()) {
        spec_trim_back(s.drop_last())
    } else {
        s
    }
}

/// The sequence with whitespace removed from both ends.
pub open spec fn spec_trim(s: Seq<char>) -> Seq<char> {
    spec_trim_back(spec_trim_front(s))
}

proof fn lemma_trim_front_at(s: Seq<char>, b: int)
    requires
        0 <= b <= s.len(),
        forall|k: int| 0 <= k < b ==> spec_is_space(#[trigger] s[k]),
        b == s.len() || !spec_is_space(s[b]),
    ensures
        spec_trim_front(s) == s.subrange(b, s.len() as int),
    decreases b,
{
    if b == 0 {
        assert(s.subrange(0, s.len() as int) =~= s);
    } else {
        lemma_trim_front_at(s.drop_first(), b - 1);
        assert(s.drop_first().subrange(b - 1, s.drop_first().len() as int) =~= s.subrange(
            b,
            s.len() as int,
        ));
    }
}

proof fn lemma_trim_back_at(s: Seq<char>, e: int)
    requires
        0 <= e <= s.len(),
        forall|k: int| e <= k < s.len() ==> spec_is_space(#[trigger] s[k]),
        e == 0 || !spec_is_space(s[e - 1]),
    ensures
        spec_trim_back(s) == s.subrange(0, e),
    decreases s.len() - e,
{
    if e == s.len() {
        assert(s.subrange(0, e) =~= s);
    } else {
        lemma_trim_back_at(s.drop_last(), e);
        assert(s.drop_last().subrange(0, e) =~= s.subrange(0, e));
    }
}

/// Strips whitespace from both ends of a string, as `spec_trim` describes.
pub fn trim(s: &str) -> (r: String)
    ensures
        r@ == spec_trim(s@),
{
    let n: usize = s.unicode_len();
    let mut b: usize = 0;
    loop
        invariant
            0 <= b <= n,
            n == s@.len(),
            forall|k: int| 0 <= k < b ==> spec_is_space(#[trigger] s@[k]),
        ensures
            0 <= b <= n,
            forall|k: int| 0 <= k < b ==> spec_is_space(#[trigger] s@[k]),
            b == n || !spec_is_space(s@[b as int]),
        decreases n - b,
    {
        if b >= n {
            break ;
        }
        let c = s.get_char(b);
        if !(c == ' ' || c == '\t' || c == '\n' || c == '\r' || c == '\u{b}' || c == '\u{c}') {
            break ;
        }
        b += 1;
    }
    let mut e: usize = n;
    loop
        invariant
            b <= e <= n,
            n == s@.len(),
            forall|k: int| e <= k < n ==> spec_is_space(#[trigger] s@[k]),
        ensures
            b <= e <= n,
            forall|k: int| e <= k < n ==> spec_is_space(#[trigger] s@[k]),
            e == b || !spec_is_space(s@[e - 1]),
        decreases e,
    {
        if e <= b {
            break ;
        }
        let c = s.get_char(e - 1);
        if !(c == ' ' || c == '\t' || c == '\n' || c == '\r' || c == '\u{b}' || c == '\u{c}') {
            break ;
        }
        e -= 1;
    }
    let part = s.substring_char(b, e);
    proof {
        lemma_trim_front_at(s@, b as int);
        let t = s@.subrange(b as int, n as int);
        if e > b {
            assert(!spec_is_space(s@[e - 1]));
        }
        assert(forall|k: int| e - b <= k < t.len() ==> spec_is_space(#[trigger] t[k]));
        lemma_trim_back_at(t, e - b);
        assert(t.subrange(0, e - b) =~= s@.subrange(b as int, e as int));
    }
    String::from_str(part)
}

/// The messages joined by the separator, in order.
pub open spec fn spec_join(msgs: Seq<Seq<char>>, sep: Seq<char>) -> Seq<char>
    decreases msgs.len(),
{
    if msgs.len() == 0 {
        Seq::empty()
    } else if msgs.len() == 1 {
        msgs[0]
    } else {
        spec_join(msgs.drop_last(), sep) + sep + msgs.last()
    }
}

/// Joins messages with a separator, as `spec_join` describes.
pub fn join_messages(msgs: &Vec<String>, sep: &str) -> (r: String)
    ensures
        r@ == spec_join(msgs.deep_view(), sep@),
{
    let mut out = String::new();
    let mut i: usize = 0;
    while i < msgs.len()
        invariant
            0 <= i <= msgs.len(),
            msgs.deep_view().len() == msgs@.len(),
            forall|k: int|
                0 <= k < msgs@.len() ==> #[trigger] msgs.deep_view()[k] == msgs@[k]@,
            out@ == spec_join(msgs.deep_view().take(i as int), sep@),
        decreases msgs.len() - i,
    {
        if i > 0 {
            out.append(sep);
        }
        out.append(msgs[i].as_str());
        proof {
            let dv = msgs.deep_view();
            assert(dv.take(i + 1).drop_last() =~= dv.take(i as int));
            assert(dv.take(i + 1).last() == dv[i as int]);
            if i == 0 {
                assert(out@ =~= dv.take(1)[0]);
            }
        }
        i += 1;
    }
    proof {
        assert(msgs.deep_view().take(msgs@.len() as int) =~= msgs.deep_view());
    }
    out
}

} // verus!

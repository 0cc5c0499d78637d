//! Plain-text encodings of the integers and flags found in a configuration.
//!
//! Each encoding is given as a mathematical function on character
//! sequences; the executable readers and writers are proved against it.

use vstd::prelude::*;

verus! {

/// Whether `c` is one of the ten ASCII decimal digits.
pub open spec fn is_digit(c: char) -> bool {
    '0' <= c <= '9'
}

/// The number that the decimal digit `c` stands for.
pub open spec fn digit_value(c: char) -> nat {
    (c as int - '0' as int) as nat
}

/// Whether every character of `s` is a decimal digit.
pub open spec fn all_digits(s: Seq<char>) -> bool {
    forall|i: int| 0 <= i < s.len() ==> is_digit(#[trigger] s[i])
}

/// The natural number written by the digits `s`, most significant first.
pub open spec fn digits_value(s: Seq<char>) -> nat
    decreases s.len(),
{
    if s.len() == 0 {
        0
    } else {
        10 * digits_value(s.drop_last()) + digit_value(s.last())
    }
}

/// The number denoted by `s` read as an unsigned decimal literal: an
/// optional `+` followed by one or more digits. Anything else denotes
/// nothing.
pub open spec fn unsigned_literal(s: Seq<char>) -> Option<nat> {
    let body = if s.len() > 0 && s[0] == '+' {
        s.subrange(1, s.len() as int)
    } else {
        s
    };
    if body.len() > 0 && all_digits(body) {
        Some(digits_value(body))
    } else {
        None
    }
}

/// The number denoted by `s` read as a signed decimal literal: an optional
/// `+` or `-` followed by one or more digits.
pub open spec fn signed_literal(s: Seq<char>) -> Option<int> {
    let signed = s.len() > 0 && (s[0] == '+' || s[0] == '-');
    let body = if signed {
        s.subrange(1, s.len() as int)
    } else {
        s
    };
    if body.len() > 0 && all_digits(body) {
        if signed && s[0] == '-' {
            Some(-(digits_value(body) as int))
        } else {
            Some(digits_value(body) as int)
        }
    } else {
        None
    }
}

/// The `usize` denoted by `s`, if `s` is an unsigned literal that fits.
pub open spec fn usize_literal(s: Seq<char>) -> Option<usize> {
    match unsigned_literal(s) {
        Some(v) => if v <= usize::MAX {
            Some(v as usize)
        } else {
            None
        },
        None => None,
    }
}

/// The `i32` denoted by `s`, if `s` is a signed literal that fits.
pub open spec fn i32_literal(s: Seq<char>) -> Option<i32> {
    match signed_literal(s) {
        Some(v) => if i32::MIN <= v <= i32::MAX {
            Some(v as i32)
        } else {
            None
        },
        None => None,
    }
}

/// Reading one more digit multiplies the value so far by ten and adds the
/// digit.
pub proof fn lemma_digits_value_push(s: Seq<char>, k: int)
    requires
        0 <= k < s.len(),
    ensures
        digits_value(s.take(k + 1)) == 10 * digits_value(s.take(k)) + digit_value(s[k]),
{
    assert(s.take(k + 1).drop_last() =~= s.take(k));
}

/// A run of digits is worth at least as much as any of its prefixes.
pub proof fn lemma_digits_value_prefix(s: Seq<char>, k: int)
    requires
        0 <= k <= s.len(),
    ensures
        digits_value(s.take(k)) <= digits_value(s),
    decreases s.len() - k,
{
    if k == s.len() {
        assert(s.take(k) =~= s);
    } else {
        lemma_digits_value_push(s, k);
        lemma_digits_value_prefix(s, k + 1);
    }
}

/// The characters of `text`, in order.
pub fn chars_of(text: &str) -> (r: Vec<char>)
    ensures
        r@ == text@,
{
    let mut out: Vec<char> = Vec::new();
    for c in it: text.chars()
        invariant
            out@ == it.seq().take(it.index()),
    {
        out.push(c);
    }
    out
}

/// Whether two texts hold the same characters.
pub fn same_text(a: &str, b: &str) -> (r: bool)
    ensures
        r == (a@ == b@),
{
    let x = chars_of(a);
    let y = chars_of(b);
    if x.len() != y.len() {
        return false;
    }
    let mut i: usize = 0;
    while i < x.len()
        invariant
            i <= x.len(),
            x.len() == y.len(),
            x@ == a@,
            y@ == b@,
            forall|j: int| 0 <= j < i ==> x@[j] == y@[j],
        decreases x.len() - i,
    {
        if x[i] != y[i] {
            assert(a@[i as int] != b@[i as int]);
            return false;
        }
        i += 1;
    }
    assert(x@ =~= y@);
    true
}

/// Reads digits from position `start` on, as long as their value stays at
/// most `limit`. Returns the value, or nothing where a character is no
/// digit or the value exceeds `limit`.
fn read_digits(chars: &Vec<char>, start: usize, limit: u64) -> (r: Option<u64>)
    requires
        start <= chars.len(),
    ensures
        r == (if all_digits(chars@.skip(start as int)) && digits_value(chars@.skip(start as int))
            <= limit {
            Some(digits_value(chars@.skip(start as int)) as u64)
        } else {
            None
        }),
{
    let ghost body = chars@.skip(start as int);
    let mut acc: u64 = 0;
    let mut i: usize = start;
    while i < chars.len()
        invariant
            start <= i <= chars.len(),
            body == chars@.skip(start as int),
            all_digits(body.take(i - start)),
            acc == digits_value(body.take(i - start)),
            acc <= limit,
        decreases chars.len() - i,
    {
        let c = chars[i];
        assert(body[i - start] == c);
        if !('0' <= c && c <= '9') {
            return None;
        }
        let d: u64 = (c as u32 - '0' as u32) as u64;
        proof {
            lemma_digits_value_push(body, i - start);
            lemma_digits_value_prefix(body, i - start + 1);
        }
        if d > limit || acc > (limit - d) / 10 {
            return None;
        }
        acc = acc * 10 + d;
        assert(all_digits(body.take(i + 1 - start))) by {
            assert forall|j: int| 0 <= j < i + 1 - start implies is_digit(
                #[trigger] body.take(i + 1 - start)[j],
            ) by {
                if j < i - start {
                    assert(body.take(i - start)[j] == body[j]);
                }
            }
        }
        i += 1;
    }
    assert(body.take(i - start) =~= body);
    Some(acc)
}

/// Reads a `usize` the way `str::parse` does: an optional `+`, then
/// decimal digits whose value fits the type.
pub fn parse_usize(s: &str) -> (r: Option<usize>)
    ensures
        r == usize_literal(s@),
{
    let chars = chars_of(s);
    let start: usize = if chars.len() > 0 && chars[0] == '+' {
        1
    } else {
        0
    };
    if start == chars.len() {
        return None;
    }
    assert(chars@.skip(start as int) =~= chars@.subrange(start as int, chars@.len() as int));
    assert(chars@.subrange(0, chars@.len() as int) =~= chars@);
    match read_digits(&chars, start, usize::MAX as u64) {
        Some(v) => Some(v as usize),
        None => None,
    }
}

/// Reads an `i32` the way `str::parse` does: an optional `+` or `-`, then
/// decimal digits whose signed value fits the type.
pub fn parse_i32(s: &str) -> (r: Option<i32>)
    ensures
        r == i32_literal(s@),
{
    let chars = chars_of(s);
    let negative = chars.len() > 0 && chars[0] == '-';
    let start: usize = if chars.len() > 0 && (chars[0] == '+' || chars[0] == '-') {
        1
    } else {
        0
    };
    if start == chars.len() {
        return None;
    }
    assert(chars@.skip(start as int) =~= chars@.subrange(start as int, chars@.len() as int));
    assert(chars@.subrange(0, chars@.len() as int) =~= chars@);
    match read_digits(&chars, start, 2147483648) {
        Some(v) => {
            if negative {
                Some((0 - (v as i64)) as i32)
            } else if v <= 2147483647 {
                Some(v as i32)
            } else {
                None
            }
        },
        None => None,
    }
}

/// The flag that `s` spells in plain syntax: `true` or `false`, exactly.
pub open spec fn plain_flag(s: Seq<char>) -> Option<bool> {
    if s =~= seq!['t', 'r', 'u', 'e'] {
        Some(true)
    } else if s =~= seq!['f', 'a', 'l', 's', 'e'] {
        Some(false)
    } else {
        None
    }
}

/// The flag that a text spells, given the text itself (`raw`) and its
/// lowercase form (`lowered`): the Fortran spellings `.true.` and `.false.`
/// count in any letter case, the plain spellings only as they stand.
pub open spec fn flag_literal(lowered: Seq<char>, raw: Seq<char>) -> Option<bool> {
    if lowered =~= seq!['.', 't', 'r', 'u', 'e', '.'] {
        Some(true)
    } else if lowered =~= seq!['.', 'f', 'a', 'l', 's', 'e', '.'] {
        Some(false)
    } else {
        plain_flag(raw)
    }
}

/// The lowercase form of `s` as `str::to_lowercase` computes it, following
/// the case mappings of Unicode. It depends on the characters of `s` alone.
pub uninterp spec fn lowercase(s: Seq<char>) -> Seq<char>;

/// Lowercases `s` with `str::to_lowercase`. Nothing is proved of this
/// function: its result is taken to be `lowercase` of its argument.
#[verifier::external_body]
fn to_lowercase(s: &str) -> (r: String)
    ensures
        r@ == lowercase(s@),
{
    s.to_lowercase()
}

/// Reads a flag in plain syntax, the way `str::parse` reads a `bool`.
pub fn parse_plain_flag(s: &str) -> (r: Option<bool>)
    ensures
        r == plain_flag(s@),
{
    proof {
        reveal_strlit("true");
        reveal_strlit("false");
        assert("true"@ =~= seq!['t', 'r', 'u', 'e']);
        assert("false"@ =~= seq!['f', 'a', 'l', 's', 'e']);
    }
    if same_text(s, "true") {
        Some(true)
    } else if same_text(s, "false") {
        Some(false)
    } else {
        None
    }
}

/// Reads a flag from a text and its lowercase form.
pub fn read_flag(lowered: &str, raw: &str) -> (r: Option<bool>)
    ensures
        r == flag_literal(lowered@, raw@),
{
    proof {
        reveal_strlit(".true.");
        reveal_strlit(".false.");
        assert(".true."@ =~= seq!['.', 't', 'r', 'u', 'e', '.']);
        assert(".false."@ =~= seq!['.', 'f', 'a', 'l', 's', 'e', '.']);
    }
    if same_text(lowered, ".true.") {
        Some(true)
    } else if same_text(lowered, ".false.") {
        Some(false)
    } else {
        parse_plain_flag(raw)
    }
}

/// Reads a flag in Fortran or plain syntax.
pub fn parse_flag(s: &str) -> (r: Option<bool>)
    ensures
        r == flag_literal(lowercase(s@), s@),
{
    let lowered = to_lowercase(s);
    read_flag(lowered.as_str(), s)
}

/// The decimal digit that stands for `d`, for `d` below ten.
pub open spec fn digit_char(d: nat) -> char {
    ('0' as int + d) as char
}

/// The decimal digits of `n`, most significant first, with no leading zero.
pub open spec fn decimal(n: nat) -> Seq<char>
    decreases n,
{
    if n < 10 {
        seq![digit_char(n)]
    } else {
        decimal(n / 10).push(digit_char(n % 10))
    }
}

/// The decimal form of an integer: a `-` before the digits of a negative
/// number, no sign otherwise.
pub open spec fn signed_decimal(n: int) -> Seq<char> {
    if n < 0 {
        seq!['-'] + decimal((-n) as nat)
    } else {
        decimal(n as nat)
    }
}

/// The plain spelling of a flag.
pub open spec fn flag_word(b: bool) -> Seq<char> {
    if b {
        seq!['t', 'r', 'u', 'e']
    } else {
        seq!['f', 'a', 'l', 's', 'e']
    }
}

fn digit_text(d: u64) -> (r: &'static str)
    requires
        d < 10,
    ensures
        r@ =~= seq![digit_char(d as nat)],
{
    proof {
        reveal_strlit("0");
        reveal_strlit("1");
        reveal_strlit("2");
        reveal_strlit("3");
        reveal_strlit("4");
        reveal_strlit("5");
        reveal_strlit("6");
        reveal_strlit("7");
        reveal_strlit("8");
        reveal_strlit("9");
    }
    if d == 0 {
        "0"
    } else if d == 1 {
        "1"
    } else if d == 2 {
        "2"
    } else if d == 3 {
        "3"
    } else if d == 4 {
        "4"
    } else if d == 5 {
        "5"
    } else if d == 6 {
        "6"
    } else if d == 7 {
        "7"
    } else if d == 8 {
        "8"
    } else {
        "9"
    }
}

/// Writes `n` in decimal.
pub fn decimal_text(n: u64) -> (r: String)
    ensures
        r@ == decimal(n as nat),
    decreases n,
{
    if n < 10 {
        String::from_str(digit_text(n))
    } else {
        let head = decimal_text(n / 10);
        let r = head.concat(digit_text(n % 10));
        assert(r@ =~= decimal((n / 10) as nat).push(digit_char((n % 10) as nat)));
        r
    }
}

/// Writes a `usize` the way `Display` does.
pub fn usize_text(n: usize) -> (r: String)
    ensures
        r@ == decimal(n as nat),
{
    decimal_text(n as u64)
}

/// Writes an `i32` the way `Display` does.
pub fn i32_text(n: i32) -> (r: String)
    ensures
        r@ == signed_decimal(n as int),
{
    if n < 0 {
        proof {
            reveal_strlit("-");
        }
        let digits = decimal_text((0 - (n as i64)) as u64);
        let r = String::from_str("-").concat(digits.as_str());
        assert(r@ =~= seq!['-'] + decimal((-n) as nat));
        r
    } else {
        decimal_text(n as u64)
    }
}

/// Writes a flag the way `Display` writes a `bool`.
pub fn flag_text(b: bool) -> (r: &'static str)
    ensures
        r@ == flag_word(b),
{
    proof {
        reveal_strlit("true");
        reveal_strlit("false");
    }
    if b {
        "true"
    } else {
        "false"
    }
}

/// The decimal form of a number consists of digits, at least one, and is
/// worth that number.
pub proof fn lemma_decimal_digits(n: nat)
    ensures
        decimal(n).len() > 0,
        all_digits(decimal(n)),
        digits_value(decimal(n)) == n,
    decreases n,
{
    if n < 10 {
        assert(decimal(n).drop_last() =~= Seq::<char>::empty());
        assert(digits_value(decimal(n).drop_last()) == 0);
    } else {
        lemma_decimal_digits(n / 10);
        let head = decimal(n / 10);
        let d = digit_char(n % 10);
        assert(head.push(d).drop_last() =~= head);
        assert forall|i: int| 0 <= i < head.push(d).len() implies is_digit(
            #[trigger] head.push(d)[i],
        ) by {
            if i < head.len() {
                assert(head.push(d)[i] == head[i]);
            }
        }
    }
}

/// Reading back a number written in decimal gives the number: the unsigned
/// reader undoes `decimal`.
pub proof fn lemma_unsigned_round_trip(n: nat)
    ensures
        unsigned_literal(decimal(n)) == Some(n),
{
    lemma_decimal_digits(n);
    assert(is_digit(decimal(n)[0]));
}

/// Reading back an integer written in decimal gives the integer: the signed
/// reader undoes `signed_decimal`.
pub proof fn lemma_signed_round_trip(n: int)
    ensures
        signed_literal(signed_decimal(n)) == Some(n),
{
    if n < 0 {
        let body = decimal((-n) as nat);
        lemma_decimal_digits((-n) as nat);
        let s = seq!['-'] + body;
        assert(s.subrange(1, s.len() as int) =~= body);
    } else {
        lemma_decimal_digits(n as nat);
        assert(is_digit(decimal(n as nat)[0]));
    }
}

/// Reading back a flag written in plain syntax gives the flag.
pub proof fn lemma_flag_round_trip(b: bool)
    ensures
        plain_flag(flag_word(b)) == Some(b),
{
    if !b {
        assert(flag_word(b).len() == 5);
    }
}

} // verus!

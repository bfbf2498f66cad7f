//! Character-level helpers shared by the codecs: owned character buffers,
//! decimal digit runs and unsigned integers written as text.
use vstd::prelude::*;
use vstd::std_specs::iter::IteratorSpec;

verus! {

/// `String::push` appends exactly one character to the end of the string.
pub assume_specification[ String::push ](s: &mut String, c: char)
    ensures
        final(s)@ == old(s)@.push(c),
;

/// Whether two string slices hold the same characters.
pub(crate) fn str_eq(a: &str, b: &str) -> (same: bool)
    ensures
        same == (a@ == b@),
{
    broadcast use vstd::string::group_string_axioms;

    let mut rest = b.chars();
    for c in iter: a.chars()
        invariant
            iter.seq() == a@,
            iter.index() <= b@.len(),
            rest.remaining() == b@.skip(iter.index()),
            a@.take(iter.index()) == b@.take(iter.index()),
    {
        let ghost i = iter.index();
        match rest.next() {
            Some(d) => {
                if c != d {
                    assert(a@[i] != b@[i]);
                    return false;
                }
                assert(a@.take(i + 1) =~= a@.take(i).push(c));
                assert(b@.take(i + 1) =~= b@.take(i).push(d));
                assert(b@.skip(i).drop_first() =~= b@.skip(i + 1));
            },
            None => {
                assert(b@.len() == i);
                assert(a@.len() > i);
                return false;
            },
        }
    }
    assert(a@.take(a@.len() as int) =~= a@);
    match rest.next() {
        Some(_) => false,
        None => {
            assert(b@.take(b@.len() as int) =~= b@);
            true
        },
    }
}

/// The characters of `text`, in order.
pub fn chars_of(text: &str) -> (chars: Vec<char>)
    ensures
        chars@ == text@,
{
    let mut chars: Vec<char> = Vec::new();
    for c in iter: text.chars()
        invariant
            iter.seq() == text@,
            chars@ == iter.seq().take(iter.index()),
    {
        chars.push(c);
    }
    chars
}

/// The string made of `chars`, in order.
pub fn string_of(chars: &Vec<char>) -> (text: String)
    ensures
        text@ == chars@,
{
    let mut text = String::new();
    let mut i: usize = 0;
    while i < chars.len()
        invariant
            i <= chars.len(),
            text@ == chars@.take(i as int),
        decreases chars.len() - i,
    {
        text.push(chars[i]);
        i += 1;
    }
    text
}

/// Whether `c` is one of the ten ASCII decimal digits.
pub open spec fn is_digit(c: char) -> bool {
    48 <= c as u32 && c as u32 <= 57
}

/// The number a decimal digit stands for.
pub open spec fn digit_of(c: char) -> nat
    recommends
        is_digit(c),
{
    (c as u32 - 48) as nat
}

/// The decimal digit that stands for `d`.
pub open spec fn digit_char(d: nat) -> char
    recommends
        d < 10,
{
    ((d + 48) as u8) as char
}

/// Whether every character of `s` is a decimal digit.
pub open spec fn all_digits(s: Seq<char>) -> bool {
    forall|i: int| 0 <= i < s.len() ==> is_digit(#[trigger] s[i])
}

/// The number obtained by writing the digits of `s` after the number `v`.
pub open spec fn extend_value(v: nat, s: Seq<char>) -> nat
    decreases s.len(),
{
    if s.len() == 0 {
        v
    } else {
        extend_value(v, s.drop_last()) * 10 + digit_of(s.last())
    }
}

/// The number that a run of decimal digits denotes, most significant first.
pub open spec fn digits_value(s: Seq<char>) -> nat {
    extend_value(0, s)
}

/// A run of `k` zeros.
pub open spec fn zeros(k: nat) -> Seq<char> {
    Seq::new(k, |i: int| '0')
}

/// The length of the longest prefix of `s` made of decimal digits.
pub open spec fn digit_run(s: Seq<char>) -> nat
    decreases s.len(),
{
    if s.len() == 0 || !is_digit(s[0]) {
        0
    } else {
        1 + digit_run(s.skip(1))
    }
}

/// The shortest decimal spelling of `n`, most significant digit first.
pub open spec fn digits_of(n: nat) -> Seq<char>
    decreases n,
{
    if n < 10 {
        seq![digit_char(n)]
    } else {
        digits_of(n / 10).push(digit_char(n % 10))
    }
}

/// Whether `c` is a decimal digit.
pub fn is_digit_char(c: char) -> (yes: bool)
    ensures
        yes == is_digit(c),
{
    let code: u32 = c as u32;
    48 <= code && code <= 57
}

/// The decimal digit that stands for `d`.
pub fn digit_to_char(d: u8) -> (c: char)
    requires
        d < 10,
    ensures
        c == digit_char(d as nat),
        is_digit(c),
        digit_of(c) == d,
{
    (d + 48) as char
}

/// Writes the digits `chars[from..to]` after `seed`, unless the result
/// would not fit in 128 bits.
pub fn accumulate_digits(chars: &Vec<char>, from: usize, to: usize, seed: u128) -> (r: Option<u128>)
    requires
        from <= to <= chars.len(),
        all_digits(chars@.subrange(from as int, to as int)),
    ensures
        match r {
            Some(v) => v == extend_value(seed as nat, chars@.subrange(from as int, to as int)),
            None => extend_value(seed as nat, chars@.subrange(from as int, to as int)) > u128::MAX,
        },
{
    let ghost run = chars@.subrange(from as int, to as int);
    let mut value: u128 = seed;
    let mut i: usize = from;
    while i < to
        invariant
            from <= i <= to <= chars.len(),
            run == chars@.subrange(from as int, to as int),
            all_digits(run),
            value == extend_value(seed as nat, run.take(i - from)),
        decreases to - i,
    {
        let c: char = chars[i];
        assert(c == run[i - from]);
        let d: u128 = (c as u32 - 48) as u128;
        proof {
            assert(run.take(i - from + 1) =~= run.take(i - from).push(c));
            lemma_extend_push(seed as nat, run.take(i - from), c);
            lemma_extend_grows(seed as nat, run, i - from + 1);
        }
        if value > (u128::MAX - d) / 10 {
            return None;
        }
        value = value * 10 + d;
        i += 1;
    }
    assert(run.take(to - from) =~= run);
    Some(value)
}

/// The shortest decimal spelling of `n`.
pub fn spell(n: u128) -> (digits: Vec<char>)
    ensures
        digits@ == digits_of(n as nat),
{
    let mut digits: Vec<char> = Vec::new();
    let mut rest: u128 = n;
    while rest >= 10
        invariant
            digits_of(n as nat) == digits_of(rest as nat) + digits@,
        decreases rest,
    {
        let c: char = digit_to_char((rest % 10) as u8);
        assert(digits_of(rest as nat) + digits@ =~= digits_of((rest / 10) as nat) + digits@.insert(
            0,
            c,
        ));
        digits.insert(0, c);
        rest = rest / 10;
    }
    let c: char = digit_to_char(rest as u8);
    assert(digits_of(rest as nat) + digits@ =~= digits@.insert(0, c));
    digits.insert(0, c);
    digits
}

/// The number that `text` denotes as an unsigned integer: an optional `+`
/// and at least one digit, with a value that fits in `usize`.
pub open spec fn unsigned_of_text(text: Seq<char>) -> Option<usize> {
    let digits = if text.len() > 0 && text[0] == '+' {
        text.skip(1)
    } else {
        text
    };
    if digits.len() > 0 && all_digits(digits) && digits_value(digits) <= usize::MAX {
        Some(digits_value(digits) as usize)
    } else {
        None
    }
}

/// Reads an unsigned integer written in decimal digits.
pub fn parse_unsigned(text: &str) -> (r: Option<usize>)
    ensures
        r == unsigned_of_text(text@),
{
    let chars = chars_of(text);
    let n: usize = chars.len();
    let start: usize = if n > 0 && chars[0] == '+' {
        1
    } else {
        0
    };
    if start == n {
        return None;
    }
    let ghost digits = chars@.subrange(start as int, n as int);
    assert(digits =~= chars@.skip(start as int));
    assert(start == 0 ==> digits =~= text@);
    let mut i: usize = start;
    while i < n
        invariant
            start <= i <= n,
            n == chars.len(),
            digits == chars@.subrange(start as int, n as int),
            digits == (if text@.len() > 0 && text@[0] == '+' {
                text@.skip(1)
            } else {
                text@
            }),
            forall|k: int| start <= k < i ==> is_digit(#[trigger] chars@[k]),
        decreases n - i,
    {
        if !is_digit_char(chars[i]) {
            assert(digits[i - start] == chars@[i as int]);
            return None;
        }
        i += 1;
    }
    assert(all_digits(digits)) by {
        assert forall|k: int| 0 <= k < digits.len() implies is_digit(#[trigger] digits[k]) by {
            assert(digits[k] == chars@[start + k]);
        }
    }
    match accumulate_digits(&chars, start, n, 0) {
        Some(v) => {
            if v > usize::MAX as u128 {
                None
            } else {
                Some(v as usize)
            }
        },
        None => None,
    }
}

/// The decimal spelling of `n`, which [`parse_unsigned`] reads back as `n`.
pub fn unsigned_text(n: usize) -> (text: String)
    ensures
        text@ == digits_of(n as nat),
        unsigned_of_text(text@) == Some(n),
{
    proof {
        lemma_digits_of(n as nat);
        assert('+' as u32 == 43);
    }
    let digits = spell(n as u128);
    string_of(&digits)
}

/// Among the digits, only `'0'` stands for zero.
pub proof fn lemma_zero_digit(c: char)
    requires
        is_digit(c),
    ensures
        digit_of(c) < 10,
        digit_of(c) == 0 <==> c == '0',
{
    assert('0' as u32 == 48);
    if digit_of(c) == 0 {
        assert(c as u32 == '0' as u32);
    }
}

/// Appending one digit multiplies the value by ten and adds the digit.
pub proof fn lemma_extend_push(v: nat, s: Seq<char>, c: char)
    ensures
        extend_value(v, s.push(c)) == extend_value(v, s) * 10 + digit_of(c),
{
    assert(s.push(c).drop_last() =~= s);
}

/// Writing `a` and then `b` after `v` is writing `a + b` after `v`.
pub proof fn lemma_extend_concat(v: nat, a: Seq<char>, b: Seq<char>)
    ensures
        extend_value(v, a + b) == extend_value(extend_value(v, a), b),
    decreases b.len(),
{
    if b.len() == 0 {
        assert(a + b =~= a);
    } else {
        assert((a + b).drop_last() =~= a + b.drop_last());
        lemma_extend_concat(v, a, b.drop_last());
    }
}

/// The value written so far never exceeds the value of the whole run.
pub proof fn lemma_extend_grows(v: nat, s: Seq<char>, k: int)
    requires
        0 <= k <= s.len(),
    ensures
        extend_value(v, s.take(k)) <= extend_value(v, s),
    decreases s.len(),
{
    if k == s.len() {
        assert(s.take(k) =~= s);
    } else {
        assert(s.drop_last().take(k) =~= s.take(k));
        lemma_extend_grows(v, s.drop_last(), k);
    }
}

/// Leading zeros do not change the value of a digit run.
pub proof fn lemma_leading_zeros(k: nat, s: Seq<char>)
    ensures
        digits_value(zeros(k) + s) == digits_value(s),
    decreases k,
{
    lemma_extend_concat(0, zeros(k), s);
    if k > 0 {
        assert(zeros(k).drop_last() =~= zeros((k - 1) as nat));
        assert(zeros((k - 1) as nat) + Seq::<char>::empty() =~= zeros((k - 1) as nat));
        lemma_leading_zeros((k - 1) as nat, Seq::empty());
    }
}

/// The position where the leading digits of `s` end is its digit run.
pub proof fn lemma_digit_run(s: Seq<char>, k: int)
    requires
        0 <= k <= s.len(),
        all_digits(s.take(k)),
        k == s.len() || !is_digit(s[k]),
    ensures
        digit_run(s) == k,
    decreases k,
{
    if k > 0 {
        assert(s.take(k)[0] == s[0]);
        assert forall|i: int| 0 <= i < k - 1 implies is_digit(#[trigger] s.skip(1).take(k - 1)[i]) by {
            assert(s.take(k)[i + 1] == s[i + 1]);
        }
        lemma_digit_run(s.skip(1), k - 1);
    }
}

/// The spelling of `n` is at least one digit long, holds only digits, has
/// value `n`, ends in the digit `n % 10`, and starts with zero only for zero.
pub proof fn lemma_digits_of(n: nat)
    ensures
        digits_of(n).len() >= 1,
        all_digits(digits_of(n)),
        digits_value(digits_of(n)) == n,
        digits_of(n).last() == digit_char(n % 10),
    decreases n,
{
    if n < 10 {
        assert(digits_of(n) =~= Seq::<char>::empty().push(digit_char(n)));
        lemma_extend_push(0, Seq::empty(), digit_char(n));
    } else {
        lemma_digits_of(n / 10);
        lemma_extend_push(0, digits_of(n / 10), digit_char(n % 10));
    }
}

} // verus!

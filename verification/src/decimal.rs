//! Exact decimal numbers and their wire text.
//!
//! The exchange transmits amounts as text such as `"1.12000000"`. A
//! [`Decimal`] keeps such an amount exactly, as a sign, a mantissa and a
//! scale, in canonical form: two decimals are equal exactly when they denote
//! the same number.
use crate::text::{
    accumulate_digits, all_digits, chars_of, digit_char, digit_of, digit_run,
    digits_of, digits_value, extend_value, is_digit, is_digit_char, lemma_digit_run,
    lemma_digits_of, lemma_extend_concat, lemma_extend_grows, lemma_leading_zeros, lemma_zero_digit, spell, string_of,
    zeros,
};
use vstd::prelude::*;

verus! {

/// The number `mantissa / 10^scale`, negated when `negative`.
pub struct DecimalView {
    pub negative: bool,
    pub mantissa: nat,
    pub scale: nat,
}

impl DecimalView {
    /// No trailing zero after the point, and zero carries no sign.
    pub open spec fn canonical(self) -> bool {
        &&& self.scale > 0 ==> self.mantissa % 10 != 0
        &&& self.mantissa == 0 ==> !self.negative
    }

    /// Whether mantissa and scale fit the machine representation.
    pub open spec fn representable(self) -> bool {
        self.mantissa <= u128::MAX && self.scale <= u32::MAX
    }

    /// The canonical decimal that denotes the same number.
    pub open spec fn normalized(self) -> DecimalView
        decreases self.scale,
    {
        if self.scale > 0 && self.mantissa % 10 == 0 {
            DecimalView {
                negative: self.negative,
                mantissa: self.mantissa / 10,
                scale: (self.scale - 1) as nat,
            }.normalized()
        } else {
            DecimalView {
                negative: self.negative && self.mantissa != 0,
                mantissa: self.mantissa,
                scale: self.scale,
            }
        }
    }
}

/// Whether `text` starts with a sign character.
pub open spec fn has_sign(text: Seq<char>) -> bool {
    text.len() > 0 && (text[0] == '-' || text[0] == '+')
}

/// `text` without its sign character, if it has one.
pub open spec fn unsigned_part(text: Seq<char>) -> Seq<char> {
    if has_sign(text) {
        text.skip(1)
    } else {
        text
    }
}

/// The digits before the decimal point.
pub open spec fn integer_digits(text: Seq<char>) -> Seq<char> {
    let body = unsigned_part(text);
    body.take(digit_run(body) as int)
}

/// Everything after the character that ends the integer digits.
pub open spec fn fraction_digits(text: Seq<char>) -> Seq<char> {
    let body = unsigned_part(text);
    let rest = body.skip(digit_run(body) as int);
    if rest.len() > 0 {
        rest.skip(1)
    } else {
        rest
    }
}

/// The grammar of a plain decimal: an optional sign, digits, and optionally a
/// point followed by digits, with at least one digit in all.
pub open spec fn well_formed_decimal(text: Seq<char>) -> bool {
    let body = unsigned_part(text);
    let run = digit_run(body) as int;
    &&& run == body.len() || body[run] == '.'
    &&& all_digits(fraction_digits(text))
    &&& integer_digits(text).len() + fraction_digits(text).len() > 0
}

/// `s` without its trailing zeros.
pub open spec fn trim_zeros(s: Seq<char>) -> Seq<char>
    decreases s.len(),
{
    if s.len() > 0 && s.last() == '0' {
        trim_zeros(s.drop_last())
    } else {
        s
    }
}

/// The decimal that `text` denotes, if `text` is a plain decimal whose
/// canonical form is representable.
pub open spec fn decimal_of_text(text: Seq<char>) -> Option<DecimalView> {
    let fraction = trim_zeros(fraction_digits(text));
    let mantissa = digits_value(integer_digits(text) + fraction);
    if well_formed_decimal(text) && mantissa <= u128::MAX && fraction.len() <= u32::MAX {
        Some(
            DecimalView {
                negative: text[0] == '-' && mantissa != 0,
                mantissa,
                scale: fraction.len(),
            },
        )
    } else {
        None
    }
}

/// The digits of `mantissa`, with enough leading zeros that at least one
/// digit stands before the last `scale` digits.
pub open spec fn padded_digits(mantissa: nat, scale: nat) -> Seq<char> {
    let digits = digits_of(mantissa);
    if digits.len() > scale {
        digits
    } else {
        zeros((scale + 1 - digits.len()) as nat) + digits
    }
}

/// The canonical wire text of a decimal.
pub open spec fn decimal_text(d: DecimalView) -> Seq<char> {
    let all = padded_digits(d.mantissa, d.scale);
    let split = all.len() - d.scale;
    let sign = if d.negative {
        seq!['-']
    } else {
        Seq::<char>::empty()
    };
    if d.scale == 0 {
        sign + all
    } else {
        sign + all.take(split) + seq!['.'] + all.skip(split)
    }
}

/// Normalizing yields a canonical decimal that is no larger in mantissa or
/// scale.
pub proof fn lemma_normalized(d: DecimalView)
    ensures
        d.normalized().canonical(),
        d.normalized().mantissa <= d.mantissa,
        d.normalized().scale <= d.scale,
        d.canonical() ==> d.normalized() == d,
    decreases d.scale,
{
    if d.scale > 0 && d.mantissa % 10 == 0 {
        lemma_normalized(
            DecimalView {
                negative: d.negative,
                mantissa: d.mantissa / 10,
                scale: (d.scale - 1) as nat,
            },
        );
    }
}

/// Trimming removes exactly the zeros that follow the last nonzero digit.
pub proof fn lemma_trim_zeros(s: Seq<char>, k: int)
    requires
        0 <= k <= s.len(),
        forall|i: int| k <= i < s.len() ==> s[i] == '0',
        k == 0 || s[k - 1] != '0',
    ensures
        trim_zeros(s) == s.take(k),
    decreases s.len() - k,
{
    if k == s.len() {
        assert(s.take(k) =~= s);
    } else {
        assert(s.drop_last().take(k) =~= s.take(k));
        lemma_trim_zeros(s.drop_last(), k);
    }
}

/// Reading the canonical text of a canonical decimal gives the decimal back.
pub proof fn lemma_text_roundtrip(d: DecimalView)
    requires
        d.canonical(),
        d.representable(),
    ensures
        decimal_of_text(decimal_text(d)) == Some(d),
{
    let digits = digits_of(d.mantissa);
    let all = padded_digits(d.mantissa, d.scale);
    let split = all.len() - d.scale;
    let text = decimal_text(d);
    lemma_digits_of(d.mantissa);
    assert(all_digits(all) && all.last() == digits.last() && digits_value(all) == d.mantissa) by {
        if digits.len() <= d.scale {
            lemma_leading_zeros((d.scale + 1 - digits.len()) as nat, digits);
        }
    }
    assert(split >= 1);
    let tail = if d.scale == 0 {
        Seq::<char>::empty()
    } else {
        seq!['.'] + all.skip(split)
    };
    let body = all.take(split) + tail;
    assert(is_digit(all[0]));
    assert(unsigned_part(text) =~= body) by {
        if d.negative {
            assert(text =~= seq!['-'] + body);
            assert(text[0] == '-');
            assert(text.skip(1) =~= body);
        } else {
            assert(text =~= body);
            assert(text[0] == all[0]);
        }
    }
    assert(body.take(split) =~= all.take(split));
    assert(split < body.len() ==> body[split] == '.');
    lemma_digit_run(body, split);
    assert(integer_digits(text) =~= all.take(split));
    assert(fraction_digits(text) =~= all.skip(split));
    let fraction = all.skip(split);
    assert(trim_zeros(fraction) == fraction) by {
        if d.scale > 0 {
            assert(fraction.last() == all.last());
            assert(digit_char(d.mantissa % 10) != '0');
        }
    }
    assert(all.take(split) + fraction =~= all);
    assert(text[0] == '-' <==> d.negative);
}

/// An exact decimal number in canonical form.
#[derive(Clone, Copy, Debug, PartialEq, Eq, Structural)]
pub struct Decimal {
    negative: bool,
    mantissa: u128,
    scale: u32,
}

impl View for Decimal {
    type V = DecimalView;

    closed spec fn view(&self) -> DecimalView {
        DecimalView {
            negative: self.negative,
            mantissa: self.mantissa as nat,
            scale: self.scale as nat,
        }
    }
}

impl Decimal {
    #[verifier::type_invariant]
    pub closed spec fn well_formed(self) -> bool {
        self@.canonical()
    }

    /// The decimal `mantissa / 10^scale`, negated when `negative`, brought to
    /// canonical form.
    pub fn new(negative: bool, mantissa: u128, scale: u32) -> (d: Decimal)
        ensures
            d@ == (DecimalView {
                negative,
                mantissa: mantissa as nat,
                scale: scale as nat,
            }).normalized(),
            d@.canonical(),
    {
        let ghost given = DecimalView { negative, mantissa: mantissa as nat, scale: scale as nat };
        let mut m: u128 = mantissa;
        let mut s: u32 = scale;
        while s > 0 && m % 10 == 0
            invariant
                (DecimalView { negative, mantissa: m as nat, scale: s as nat }).normalized()
                    == given.normalized(),
            decreases s,
        {
            m = m / 10;
            s = s - 1;
        }
        proof {
            lemma_normalized(given);
        }
        Decimal { negative: negative && m != 0, mantissa: m, scale: s }
    }

    /// The whole number `n`.
    pub fn from_unsigned(n: u64) -> (d: Decimal)
        ensures
            d@ == (DecimalView { negative: false, mantissa: n as nat, scale: 0 }),
    {
        Decimal { negative: false, mantissa: n as u128, scale: 0 }
    }

    /// Whether the number is below zero.
    pub fn is_negative(&self) -> (negative: bool)
        ensures
            negative == self@.negative,
    {
        self.negative
    }

    /// The digits of the number, as a whole number.
    pub fn mantissa(&self) -> (mantissa: u128)
        ensures
            mantissa == self@.mantissa,
    {
        self.mantissa
    }

    /// How many of the digits stand after the point.
    pub fn scale(&self) -> (scale: u32)
        ensures
            scale == self@.scale,
    {
        self.scale
    }

    /// The value as an unsigned whole number, when it is one that fits.
    pub fn to_unsigned(&self) -> (n: Option<usize>)
        ensures
            n == self@.as_unsigned(),
    {
        if self.negative || self.scale != 0 || self.mantissa > usize::MAX as u128 {
            None
        } else {
            Some(self.mantissa as usize)
        }
    }

    /// Reads a plain decimal such as `"1.12000000"`, `"-0.5"` or `"28"`.
    pub fn parse(text: &str) -> (r: Option<Decimal>)
        ensures
            match r {
                Some(d) => decimal_of_text(text@) == Some(d@),
                None => decimal_of_text(text@) is None,
            },
    {
        let chars = chars_of(text);
        let n: usize = chars.len();
        let start: usize = if n > 0 && (chars[0] == '-' || chars[0] == '+') {
            1
        } else {
            0
        };
        let int_end: usize = scan_digits(&chars, start);
        proof {
            lemma_parts(text@, start as int, int_end as int);
        }
        if int_end < n && chars[int_end] != '.' {
            return None;
        }
        let frac_start: usize = if int_end < n {
            int_end + 1
        } else {
            n
        };
        let sig_end: usize = match scan_fraction(&chars, frac_start) {
            Some(end) => end,
            None => {
                return None;
            },
        };
        if int_end - start == 0 && n - frac_start == 0 {
            return None;
        }
        proof {
            lemma_mantissa(text@, start as int, int_end as int, sig_end as int);
        }
        let whole: u128 = match accumulate_digits(&chars, start, int_end, 0) {
            Some(v) => v,
            None => {
                return None;
            },
        };
        let mantissa: u128 = match accumulate_digits(&chars, frac_start, sig_end, whole) {
            Some(v) => v,
            None => {
                return None;
            },
        };
        if sig_end - frac_start > u32::MAX as usize {
            return None;
        }
        let scale: u32 = (sig_end - frac_start) as u32;
        let negative: bool = start == 1 && chars[0] == '-' && mantissa != 0;
        Some(Decimal { negative, mantissa, scale })
    }

    /// The canonical wire text, which [`Decimal::parse`] reads back as this
    /// decimal.
    pub fn to_text(&self) -> (text: String)
        ensures
            text@ == decimal_text(self@),
            decimal_of_text(text@) == Some(self@),
    {
        proof {
            use_type_invariant(self);
            lemma_text_roundtrip(self@);
        }
        let digits: Vec<char> = spell(self.mantissa);
        let scale: usize = self.scale as usize;
        let mut all: Vec<char> = Vec::new();
        if digits.len() <= scale {
            let pad: usize = scale - digits.len() + 1;
            let mut k: usize = 0;
            while k < pad
                invariant
                    k <= pad,
                    all@ == zeros(k as nat),
                decreases pad - k,
            {
                all.push('0');
                assert(zeros(k as nat).push('0') =~= zeros((k + 1) as nat));
                k += 1;
            }
        } else {
            assert(all@ =~= zeros(0));
        }
        append_range(&mut all, &digits, 0, digits.len());
        assert(all@ =~= padded_digits(self@.mantissa, self@.scale)) by {
            assert(digits@.subrange(0, digits@.len() as int) =~= digits@);
            assert(zeros(0) + digits@ =~= digits@);
        }
        let split: usize = all.len() - scale;
        let mut out: Vec<char> = Vec::new();
        if self.negative {
            out.push('-');
        }
        append_range(&mut out, &all, 0, split);
        if scale > 0 {
            out.push('.');
            append_range(&mut out, &all, split, all.len());
        }
        assert(out@ =~= decimal_text(self@)) by {
            assert(all@.subrange(0, split as int) =~= all@.take(split as int));
            assert(all@.subrange(split as int, all@.len() as int) =~= all@.skip(split as int));
        }
        string_of(&out)
    }
}

/// The end of the decimal digits that start at `from`.
fn scan_digits(chars: &Vec<char>, from: usize) -> (end: usize)
    requires
        from <= chars.len(),
    ensures
        from <= end <= chars.len(),
        all_digits(chars@.subrange(from as int, end as int)),
        end == chars.len() || !is_digit(chars@[end as int]),
{
    let mut end: usize = from;
    while end < chars.len() && is_digit_char(chars[end])
        invariant
            from <= end <= chars.len(),
            forall|i: int| from <= i < end ==> is_digit(#[trigger] chars@[i]),
        decreases chars.len() - end,
    {
        end += 1;
    }
    assert forall|i: int| 0 <= i < end - from implies is_digit(
        #[trigger] chars@.subrange(from as int, end as int)[i],
    ) by {
        assert(chars@.subrange(from as int, end as int)[i] == chars@[from + i]);
    }
    end
}

/// Checks that only digits follow `from`, and finds where the trailing zeros
/// among them begin.
fn scan_fraction(chars: &Vec<char>, from: usize) -> (r: Option<usize>)
    requires
        from <= chars.len(),
    ensures
        match r {
            Some(end) => {
                &&& from <= end <= chars.len()
                &&& forall|i: int| from <= i < chars.len() ==> is_digit(#[trigger] chars@[i])
                &&& forall|i: int| end <= i < chars.len() ==> chars@[i] == '0'
                &&& end == from || chars@[end - 1] != '0'
            },
            None => !all_digits(chars@.subrange(from as int, chars.len() as int)),
        },
{
    let n: usize = chars.len();
    let mut j: usize = from;
    let mut end: usize = from;
    while j < n
        invariant
            from <= end <= j <= n,
            n == chars.len(),
            forall|i: int| from <= i < j ==> is_digit(#[trigger] chars@[i]),
            forall|i: int| end <= i < j ==> chars@[i] == '0',
            end == from || chars@[end - 1] != '0',
        decreases n - j,
    {
        if !is_digit_char(chars[j]) {
            assert(chars@.subrange(from as int, n as int)[j - from] == chars@[j as int]);
            return None;
        }
        if chars[j] != '0' {
            end = j + 1;
        }
        j += 1;
    }
    Some(end)
}

/// Appends `src[from..to]` to `out`.
fn append_range(out: &mut Vec<char>, src: &Vec<char>, from: usize, to: usize)
    requires
        from <= to <= src.len(),
    ensures
        final(out)@ == old(out)@ + src@.subrange(from as int, to as int),
{
    let mut i: usize = from;
    while i < to
        invariant
            from <= i <= to <= src.len(),
            out@ == old(out)@ + src@.subrange(from as int, i as int),
        decreases to - i,
    {
        out.push(src[i]);
        assert(src@.subrange(from as int, i + 1) =~= src@.subrange(from as int, i as int).push(
            src@[i as int],
        ));
        assert(out@ =~= old(out)@ + src@.subrange(from as int, i + 1));
        i += 1;
    }
}

/// How the sign, the integer digits and the fraction of `text` lie in it,
/// given where its leading digits end.
proof fn lemma_parts(text: Seq<char>, start: int, int_end: int)
    requires
        start == (if has_sign(text) {
            1int
        } else {
            0int
        }),
        start <= int_end <= text.len(),
        all_digits(text.subrange(start, int_end)),
        int_end == text.len() || !is_digit(text[int_end]),
    ensures
        digit_run(unsigned_part(text)) == int_end - start,
        int_end < text.len() ==> unsigned_part(text)[int_end - start] == text[int_end],
        unsigned_part(text).len() == text.len() - start,
        integer_digits(text) == text.subrange(start, int_end),
        fraction_digits(text) == text.subrange(
            if int_end < text.len() {
                int_end + 1
            } else {
                int_end
            },
            text.len() as int,
        ),
{
    let body = unsigned_part(text);
    assert(body =~= text.skip(start));
    assert(body.take(int_end - start) =~= text.subrange(start, int_end));
    lemma_digit_run(body, int_end - start);
    assert(integer_digits(text) =~= text.subrange(start, int_end));
    let rest = body.skip(int_end - start);
    if int_end < text.len() {
        assert(rest.skip(1) =~= text.subrange(int_end + 1, text.len() as int));
    } else {
        assert(rest =~= text.subrange(int_end, text.len() as int));
    }
}

/// What a text with digits in `start..int_end`, an optional point, and
/// digits up to the end of which those from `sig_end` on are zeros, denotes.
proof fn lemma_mantissa(text: Seq<char>, start: int, int_end: int, sig_end: int)
    requires
        start == (if has_sign(text) {
            1int
        } else {
            0int
        }),
        start <= int_end <= text.len(),
        all_digits(text.subrange(start, int_end)),
        int_end == text.len() || text[int_end] == '.',
        int_end + 1 <= sig_end <= text.len() || int_end == sig_end == text.len(),
        forall|i: int| int_end < i < text.len() ==> is_digit(#[trigger] text[i]),
        forall|i: int| sig_end <= i < text.len() ==> text[i] == '0',
        sig_end <= int_end + 1 || text[sig_end - 1] != '0',
        text.len() - start > 1 || (text.len() - start == 1 && int_end == text.len()),
    ensures
        ({
            let frac_start = if int_end < text.len() {
                int_end + 1
            } else {
                int_end
            };
            let whole = text.subrange(start, int_end);
            let kept = text.subrange(frac_start, sig_end);
            let total = extend_value(extend_value(0, whole), kept);
            &&& well_formed_decimal(text)
            &&& integer_digits(text) == whole
            &&& trim_zeros(fraction_digits(text)) == kept
            &&& all_digits(kept)
            &&& digits_value(whole + kept) == total
            &&& extend_value(0, whole) <= total
            &&& kept.len() > 0 ==> total % 10 != 0
        }),
{
    let frac_start = if int_end < text.len() {
        int_end + 1
    } else {
        int_end
    };
    let whole = text.subrange(start, int_end);
    let fraction = text.subrange(frac_start, text.len() as int);
    let kept = text.subrange(frac_start, sig_end);
    assert(!is_digit('.'));
    lemma_parts(text, start, int_end);
    assert(all_digits(fraction)) by {
        assert forall|i: int| 0 <= i < fraction.len() implies is_digit(#[trigger] fraction[i]) by {
            assert(fraction[i] == text[frac_start + i]);
        }
    }
    assert(fraction.take(sig_end - frac_start) =~= kept);
    assert(all_digits(kept)) by {
        assert forall|i: int| 0 <= i < kept.len() implies is_digit(#[trigger] kept[i]) by {
            assert(kept[i] == text[frac_start + i]);
        }
    }
    lemma_trim_zeros(fraction, sig_end - frac_start);
    lemma_extend_concat(0, whole, kept);
    lemma_extend_grows(0, whole + kept, whole.len() as int);
    assert((whole + kept).take(whole.len() as int) =~= whole);
    if kept.len() > 0 {
        let v = extend_value(0, whole);
        let d = digit_of(kept.last());
        assert(kept.last() == text[sig_end - 1]);
        assert(is_digit(kept.last()) && kept.last() != '0');
        lemma_zero_digit(kept.last());
        assert(extend_value(v, kept) == extend_value(v, kept.drop_last()) * 10 + d);
    }
}

impl DecimalView {
    /// The value as an unsigned whole number, when it is one that fits.
    pub open spec fn as_unsigned(self) -> Option<usize> {
        if self.negative || self.scale != 0 || self.mantissa > usize::MAX {
            None
        } else {
            Some(self.mantissa as usize)
        }
    }
}

} // verus!

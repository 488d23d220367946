//! Quantities as fixed-point decimals, and the grammar of amount tokens.
//!
//! An [`Amount`] counts billionths, so every conversion factor of the unit
//! model and every decimal with up to nine fractional digits is held exactly.
//! Arithmetic that cannot be exact cuts the result off after the ninth
//! fractional digit and stops at the largest amount that can be held.

use crate::ingredient::{Error, ErrorView};
use crate::text::{
    all_digits, chars_of, digit_of, digits_value, find_char, is_decimal_digit, is_digit,
    is_whitespace, lemma_find_char_bounds, lemma_find_char_to, lemma_skip_whitespace_back_to,
    lemma_skip_whitespace_to,
    position_of, read_digits, slice_of, trim, trimmed, DIGITS_CAP,
};
use vstd::prelude::*;

verus! {

/// How many units of an [`Amount`] make one.
pub const SCALE: u64 = 1_000_000_000;

/// The weight of the first fractional digit, in units.
pub const TENTH: u64 = 100_000_000;

/// A non-negative quantity; `units` counts billionths.
#[derive(Debug, Clone, Copy, PartialEq, Eq)]
pub struct Amount {
    pub units: u64,
}

impl View for Amount {
    type V = nat;

    open spec fn view(&self) -> nat {
        self.units as nat
    }
}

impl DeepView for Amount {
    type V = nat;

    open spec fn deep_view(&self) -> nat {
        self.units as nat
    }
}

/// What a vulgar-fraction glyph stands for, in units. The values are the
/// customary decimals cut short, not the exact fractions.
pub open spec fn glyph_units(c: char) -> Option<nat> {
    if c == '¼' {
        Some(250_000_000)
    } else if c == '½' {
        Some(500_000_000)
    } else if c == '¾' {
        Some(750_000_000)
    } else if c == '⅓' {
        Some(330_000_000)
    } else if c == '⅔' {
        Some(660_000_000)
    } else if c == '⅛' {
        Some(125_000_000)
    } else if c == '⅜' {
        Some(375_000_000)
    } else if c == '⅝' {
        Some(625_000_000)
    } else if c == '⅞' {
        Some(875_000_000)
    } else if c == '⅙' {
        Some(166_000_000)
    } else if c == '⅚' {
        Some(833_000_000)
    } else if c == '⅕' {
        Some(200_000_000)
    } else if c == '⅖' {
        Some(400_000_000)
    } else if c == '⅗' {
        Some(600_000_000)
    } else if c == '⅘' {
        Some(800_000_000)
    } else {
        None
    }
}

/// The value of the fractional digits `frac`, in units, when the first of
/// them weighs `weight`. Digits past the ninth place weigh nothing.
pub open spec fn fraction_value(frac: Seq<char>, weight: nat) -> nat
    decreases frac.len(),
{
    if frac.len() == 0 || weight == 0 {
        0
    } else {
        digit_of(frac[0]) * weight + fraction_value(frac.drop_first(), weight / 10)
    }
}

/// `t` without a leading plus sign.
pub open spec fn unsigned(t: Seq<char>) -> Seq<char> {
    if t.len() > 0 && t[0] == '+' {
        t.drop_first()
    } else {
        t
    }
}

/// The digits of `t` before its first point.
pub open spec fn whole_part(t: Seq<char>) -> Seq<char> {
    let body = unsigned(t);
    body.subrange(0, find_char(body, '.', 0))
}

/// The digits of `t` after its first point; empty when it has none.
pub open spec fn fraction_part(t: Seq<char>) -> Seq<char> {
    let body = unsigned(t);
    let dot = find_char(body, '.', 0);
    if dot < body.len() {
        body.subrange(dot + 1, body.len() as int)
    } else {
        Seq::empty()
    }
}

/// `t` is a decimal numeral: an optional plus sign, then digits with at most
/// one point among them, and at least one digit.
pub open spec fn is_decimal(t: Seq<char>) -> bool {
    &&& all_digits(whole_part(t))
    &&& all_digits(fraction_part(t))
    &&& whole_part(t).len() + fraction_part(t).len() > 0
}

/// The value of the decimal numeral `t`, in units.
pub open spec fn decimal_value(t: Seq<char>) -> nat {
    digits_value(whole_part(t)) * (SCALE as nat) + fraction_value(fraction_part(t), TENTH as nat)
}

/// `v` as an amount, if it is positive and small enough to be held.
pub open spec fn positive_in_range(v: nat) -> Option<nat> {
    if 0 < v <= u64::MAX {
        Some(v)
    } else {
        None
    }
}

/// The positive amount that the decimal numeral `t` denotes, if it is one
/// and the amount can be held.
pub open spec fn decimal_units(t: Seq<char>) -> Option<nat> {
    if is_decimal(t) {
        positive_in_range(decimal_value(t))
    } else {
        None
    }
}

/// The amount that the fraction `t` denotes: a numerator and a denominator,
/// both positive decimal numerals, on either side of its first slash.
pub open spec fn fraction_units(t: Seq<char>) -> Option<nat> {
    let slash = find_char(t, '/', 0);
    if slash < t.len() {
        let num = decimal_units(trim(t.subrange(0, slash)));
        let den = decimal_units(trim(t.subrange(slash + 1, t.len() as int)));
        if num is Some && den is Some {
            positive_in_range(num->0 * (SCALE as nat) / den->0)
        } else {
            None
        }
    } else {
        None
    }
}

/// The amount that `token` denotes, in units: a single vulgar-fraction
/// glyph, else a decimal numeral, else a fraction; `None` for any other
/// shape, for zero, and for what is too large to be held.
pub open spec fn amount_units(token: Seq<char>) -> Option<nat> {
    let t = trim(token);
    if t.len() == 1 && glyph_units(t[0]) is Some {
        glyph_units(t[0])
    } else if is_decimal(t) {
        positive_in_range(decimal_value(t))
    } else {
        fraction_units(t)
    }
}

/// The character for the digit `d`.
pub open spec fn digit_char(d: nat) -> char {
    if d == 0 {
        '0'
    } else if d == 1 {
        '1'
    } else if d == 2 {
        '2'
    } else if d == 3 {
        '3'
    } else if d == 4 {
        '4'
    } else if d == 5 {
        '5'
    } else if d == 6 {
        '6'
    } else if d == 7 {
        '7'
    } else if d == 8 {
        '8'
    } else {
        '9'
    }
}

/// The decimal numeral of `n`, without leading zeros.
pub open spec fn decimal_digits(n: nat) -> Seq<char>
    decreases n,
{
    if n < 10 {
        seq![digit_char(n)]
    } else {
        decimal_digits(n / 10).push(digit_char(n % 10))
    }
}

/// The fractional digits of `frac` units, the first of which weighs
/// `weight`; they end with the last digit that is not zero.
pub open spec fn fraction_digits(frac: nat, weight: nat) -> Seq<char>
    decreases weight,
{
    if frac == 0 || weight == 0 {
        Seq::empty()
    } else {
        seq![digit_char(frac / weight)] + fraction_digits(frac % weight, weight / 10)
    }
}

/// The decimal numeral of `units` billionths: the whole part, and after a
/// point the fractional digits if there are any.
pub open spec fn rendered(units: nat) -> Seq<char> {
    let whole = decimal_digits(units / (SCALE as nat));
    let frac = units % (SCALE as nat);
    if frac == 0 {
        whole
    } else {
        whole + seq!['.'] + fraction_digits(frac, TENTH as nat)
    }
}

/// The product of two amounts in units, cut off after the ninth fractional
/// digit and held at the largest amount.
pub open spec fn product_units(a: nat, b: nat) -> nat {
    let p = a * b / (SCALE as nat);
    if p > u64::MAX {
        u64::MAX as nat
    } else {
        p
    }
}

/// Every vulgar-fraction glyph, alone or with whitespace around it, is read
/// as the decimal that the table gives for it, cut short as it stands there.
pub proof fn lemma_glyph_amount(before: Seq<char>, glyph: char, after: Seq<char>)
    requires
        glyph_units(glyph) is Some,
        forall|i: int| 0 <= i < before.len() ==> is_whitespace(#[trigger] before[i]),
        forall|i: int| 0 <= i < after.len() ==> is_whitespace(#[trigger] after[i]),
    ensures
        amount_units(before + seq![glyph] + after) == glyph_units(glyph),
        glyph_units('¼') == Some(250_000_000nat),
        glyph_units('½') == Some(500_000_000nat),
        glyph_units('¾') == Some(750_000_000nat),
        glyph_units('⅓') == Some(330_000_000nat),
        glyph_units('⅔') == Some(660_000_000nat),
        glyph_units('⅛') == Some(125_000_000nat),
        glyph_units('⅜') == Some(375_000_000nat),
        glyph_units('⅝') == Some(625_000_000nat),
        glyph_units('⅞') == Some(875_000_000nat),
        glyph_units('⅙') == Some(166_000_000nat),
        glyph_units('⅚') == Some(833_000_000nat),
        glyph_units('⅕') == Some(200_000_000nat),
        glyph_units('⅖') == Some(400_000_000nat),
        glyph_units('⅗') == Some(600_000_000nat),
        glyph_units('⅘') == Some(800_000_000nat),
{
    let token = before + seq![glyph] + after;
    let at = before.len() as int;
    lemma_skip_whitespace_to(token, 0, at);
    lemma_skip_whitespace_back_to(token, at, at + 1, token.len() as int);
}

/// An amount that is read is above zero.
pub proof fn lemma_amounts_are_positive(token: Seq<char>)
    ensures
        amount_units(token) matches Some(units) ==> 0 < units <= u64::MAX,
{
}

/// The digit character of a digit stands for that digit.
pub proof fn lemma_digit_char(d: nat)
    requires
        d < 10,
    ensures
        is_digit(digit_char(d)),
        digit_of(digit_char(d)) == d,
{
}

/// The decimal numeral of a number is made of digits, and denotes it.
pub proof fn lemma_decimal_digits(n: nat)
    ensures
        decimal_digits(n).len() >= 1,
        all_digits(decimal_digits(n)),
        digits_value(decimal_digits(n)) == n,
    decreases n,
{
    let d = decimal_digits(n);
    if n < 10 {
        lemma_digit_char(n);
        assert(digits_value(d.drop_last()) == 0);
    } else {
        lemma_decimal_digits(n / 10);
        lemma_digit_char(n % 10);
        assert(d.drop_last() =~= decimal_digits(n / 10));
        assert forall|i: int| 0 <= i < d.len() implies is_digit(#[trigger] d[i]) by {}
    }
}

/// The fractional digits of a fraction are digits, and denote it.
pub proof fn lemma_fraction_digits(frac: nat, weight: nat)
    requires
        is_place(weight),
        frac == 0 || frac < 10 * weight,
    ensures
        all_digits(fraction_digits(frac, weight)),
        fraction_value(fraction_digits(frac, weight), weight) == frac,
        frac > 0 ==> fraction_digits(frac, weight).len() >= 1,
    decreases weight,
{
    let d = fraction_digits(frac, weight);
    if frac != 0 && weight != 0 {
        let rest = fraction_digits(frac % weight, weight / 10);
        lemma_fraction_digits(frac % weight, weight / 10);
        assert(frac / weight < 10) by (nonlinear_arith)
            requires
                frac < 10 * weight,
                weight > 0,
        ;
        lemma_digit_char(frac / weight);
        assert(d.drop_first() =~= rest);
        assert forall|i: int| 0 <= i < d.len() implies is_digit(#[trigger] d[i]) by {}
        assert((frac / weight) * weight + frac % weight == frac) by (nonlinear_arith)
            requires
                weight > 0,
        ;
    }
}

/// What is written for an amount is read as that amount again: a numeral
/// of digits and at most one point, which denotes the amount exactly.
pub proof fn lemma_rendered_is_read(units: nat)
    ensures
        rendered(units).len() >= 1,
        forall|i: int|
            0 <= i < rendered(units).len() ==> is_digit(#[trigger] rendered(units)[i])
                || rendered(units)[i] == '.',
        is_digit(rendered(units)[0]),
        is_decimal(rendered(units)),
        decimal_value(rendered(units)) == units,
        amount_units(rendered(units)) == positive_in_range(units),
{
    let scale = SCALE as nat;
    let whole = decimal_digits(units / scale);
    let frac = units % scale;
    let r = rendered(units);
    lemma_decimal_digits(units / scale);
    lemma_fraction_digits(frac, TENTH as nat);
    let digits = fraction_digits(frac, TENTH as nat);
    if frac != 0 {
        assert forall|i: int| 0 <= i < r.len() implies is_digit(#[trigger] r[i]) || r[i]
            == '.' by {}
    }
    assert forall|i: int| 0 <= i < whole.len() implies r[i] == whole[i] by {}
    assert(!is_whitespace(r[r.len() - 1]));
    lemma_skip_whitespace_to(r, 0, 0);
    lemma_skip_whitespace_back_to(r, 0, r.len() as int, r.len() as int);
    assert(trim(r) =~= r);
    lemma_find_char_to(r, '.', 0, whole.len() as int);
    assert(whole_part(r) =~= whole);
    if frac != 0 {
        assert(fraction_part(r) =~= digits);
    }
    assert(decimal_value(r) == units) by {
        assert((units / scale) * scale + units % scale == units) by (nonlinear_arith)
            requires
                scale > 0,
        ;
    }
}

/// `found` as a count of units.
pub open spec fn units_of(found: Option<u64>) -> Option<nat> {
    match found {
        Some(v) => Some(v as nat),
        None => None,
    }
}

/// `weight` is the weight of one of the nine fractional places, or nothing.
pub open spec fn is_place(weight: nat) -> bool {
    ||| weight == 100_000_000
    ||| weight == 10_000_000
    ||| weight == 1_000_000
    ||| weight == 100_000
    ||| weight == 10_000
    ||| weight == 1_000
    ||| weight == 100
    ||| weight == 10
    ||| weight == 1
    ||| weight == 0
}

/// What the glyph `c` stands for, if it is one.
fn glyph(c: char) -> (r: Option<u64>)
    ensures
        r is Some == glyph_units(c) is Some,
        r matches Some(v) ==> glyph_units(c) == Some(v as nat),
{
    if c == '¼' {
        Some(250_000_000)
    } else if c == '½' {
        Some(500_000_000)
    } else if c == '¾' {
        Some(750_000_000)
    } else if c == '⅓' {
        Some(330_000_000)
    } else if c == '⅔' {
        Some(660_000_000)
    } else if c == '⅛' {
        Some(125_000_000)
    } else if c == '⅜' {
        Some(375_000_000)
    } else if c == '⅝' {
        Some(625_000_000)
    } else if c == '⅞' {
        Some(875_000_000)
    } else if c == '⅙' {
        Some(166_000_000)
    } else if c == '⅚' {
        Some(833_000_000)
    } else if c == '⅕' {
        Some(200_000_000)
    } else if c == '⅖' {
        Some(400_000_000)
    } else if c == '⅗' {
        Some(600_000_000)
    } else if c == '⅘' {
        Some(800_000_000)
    } else {
        None
    }
}

/// Whether `d` holds digits only, and their value as fractional digits.
fn read_fraction(d: &Vec<char>) -> (r: (bool, u64))
    ensures
        r.0 == all_digits(d@),
        r.0 ==> r.1 as nat == fraction_value(d@, TENTH as nat),
        r.1 < SCALE,
{
    let mut acc: u64 = 0;
    let mut weight: u64 = TENTH;
    let mut i: usize = 0;
    proof {
        assert(d@.subrange(0, d@.len() as int) =~= d@);
    }
    while i < d.len()
        invariant
            i <= d.len(),
            weight <= TENTH,
            acc + 10 * weight <= SCALE,
            acc < SCALE,
            all_digits(d@.subrange(0, i as int)),
            acc + fraction_value(d@.subrange(i as int, d@.len() as int), weight as nat)
                == fraction_value(d@, TENTH as nat),
        decreases d.len() - i,
    {
        let c = d[i];
        if !is_decimal_digit(c) {
            return (false, 0);
        }
        let digit: u64 = (c as u32 - '0' as u32) as u64;
        proof {
            let rest = d@.subrange(i as int, d@.len() as int);
            assert(rest.drop_first() =~= d@.subrange(i + 1, d@.len() as int));
            let next = d@.subrange(0, i + 1);
            assert forall|j: int| 0 <= j < next.len() implies is_digit(#[trigger] next[j]) by {}
            assert(digit * weight <= 9 * weight) by (nonlinear_arith)
                requires
                    digit <= 9,
            ;
        }
        acc = acc + digit * weight;
        weight = weight / 10;
        i += 1;
    }
    (true, acc)
}

/// The amount that the decimal numeral `t` denotes.
fn read_decimal(t: &Vec<char>) -> (r: (bool, Option<u64>))
    ensures
        r.0 == is_decimal(t@),
        units_of(r.1) == decimal_units(t@),
{
    let start: usize = if t.len() > 0 && t[0] == '+' {
        1
    } else {
        0
    };
    let body = slice_of(t, start, t.len());
    proof {
        assert(body@ =~= unsigned(t@));
        lemma_find_char_bounds(body@, '.', 0);
    }
    let dot = position_of(&body, '.', 0);
    let whole = slice_of(&body, 0, dot);
    let frac = if dot < body.len() {
        slice_of(&body, dot + 1, body.len())
    } else {
        Vec::new()
    };
    let (whole_ok, whole_value) = read_digits(&whole);
    let (frac_ok, frac_value) = read_fraction(&frac);
    if !whole_ok || !frac_ok || whole.len() + frac.len() == 0 {
        return (false, None);
    }
    let units: u128 = whole_value as u128 * SCALE as u128 + frac_value as u128;
    proof {
        let exact = digits_value(whole@);
        if exact > DIGITS_CAP {
            assert(exact * (SCALE as nat) >= DIGITS_CAP * SCALE) by (nonlinear_arith)
                requires
                    exact >= DIGITS_CAP,
            ;
        }
    }
    if units == 0 || units > u64::MAX as u128 {
        (true, None)
    } else {
        (true, Some(units as u64))
    }
}

/// The amount that the fraction `t` denotes.
fn read_fraction_token(t: &Vec<char>) -> (r: Option<u64>)
    ensures
        units_of(r) == fraction_units(t@),
{
    proof {
        lemma_find_char_bounds(t@, '/', 0);
    }
    let slash = position_of(t, '/', 0);
    if slash >= t.len() {
        return None;
    }
    let num_text = trimmed(&slice_of(t, 0, slash));
    let den_text = trimmed(&slice_of(t, slash + 1, t.len()));
    let (_, num) = read_decimal(&num_text);
    let (_, den) = read_decimal(&den_text);
    match (num, den) {
        (Some(n), Some(d)) => {
            assert(n as nat * (SCALE as nat) <= u64::MAX * SCALE) by (nonlinear_arith)
                requires
                    n <= u64::MAX,
            ;
            let q: u128 = n as u128 * SCALE as u128 / d as u128;
            if q == 0 || q > u64::MAX as u128 {
                None
            } else {
                Some(q as u64)
            }
        },
        _ => None,
    }
}

/// The text of a single decimal digit.
fn digit_text(d: u64) -> (r: &'static str)
    requires
        d < 10,
    ensures
        r@ == seq![digit_char(d as nat)],
{
    proof {
        reveal_strlit("0");
        reveal_strlit("1");
        reveal_strlit("2");
        reveal_strlit("3");
        reveal_strlit("4");
        reveal_strlit("5");
        reveal_strlit("6");
        reveal_strlit("7");
        reveal_strlit("8");
        reveal_strlit("9");
    }
    let r = if d == 0 {
        "0"
    } else if d == 1 {
        "1"
    } else if d == 2 {
        "2"
    } else if d == 3 {
        "3"
    } else if d == 4 {
        "4"
    } else if d == 5 {
        "5"
    } else if d == 6 {
        "6"
    } else if d == 7 {
        "7"
    } else if d == 8 {
        "8"
    } else {
        "9"
    };
    r
}

/// Appends the decimal numeral of `n` to `out`.
pub fn push_decimal(out: &mut String, n: u64)
    ensures
        final(out)@ == old(out)@ + decimal_digits(n as nat),
    decreases n,
{
    if n >= 10 {
        push_decimal(out, n / 10);
    }
    out.append(digit_text(n % 10));
    proof {
        if n >= 10 {
            assert(old(out)@ + decimal_digits((n / 10) as nat) + seq![digit_char((n % 10) as nat)]
                =~= old(out)@ + decimal_digits(n as nat));
        }
    }
}

/// Appends the fractional digits of `frac` units to `out`.
fn push_fraction(out: &mut String, frac: u64)
    requires
        frac < SCALE,
    ensures
        final(out)@ == old(out)@ + fraction_digits(frac as nat, TENTH as nat),
{
    let mut rest: u64 = frac;
    let mut weight: u64 = TENTH;
    while rest != 0 && weight != 0
        invariant
            rest == 0 || rest < 10 * weight,
            is_place(weight as nat),
            out@ + fraction_digits(rest as nat, weight as nat) == old(out)@ + fraction_digits(
                frac as nat,
                TENTH as nat,
            ),
        decreases weight,
    {
        let digit = rest / weight;
        let ghost before = out@;
        proof {
            assert(digit < 10) by (nonlinear_arith)
                requires
                    rest < 10 * weight,
                    weight > 0,
                    digit == rest / weight,
            ;
        }
        out.append(digit_text(digit));
        proof {
            assert(before + seq![digit_char(digit as nat)] + fraction_digits(
                (rest % weight) as nat,
                (weight / 10) as nat,
            ) =~= before + fraction_digits(rest as nat, weight as nat));
        }
        rest = rest % weight;
        weight = weight / 10;
    }
}

impl Amount {
    /// The amount that `token` denotes: a vulgar-fraction glyph, a decimal
    /// numeral or a fraction of two of them, with whitespace around it or
    /// around the parts of a fraction. Zero is no amount.
    pub fn from_str(token: &str) -> (r: Result<Amount, Error>)
        ensures
            match r {
                Ok(a) => amount_units(token@) == Some(a@) && a@ > 0,
                Err(e) => amount_units(token@) is None && e@ == ErrorView::ParsingAmount(token@),
            },
    {
        let chars = chars_of(token);
        let t = trimmed(&chars);
        let single = if t.len() == 1 {
            glyph(t[0])
        } else {
            None
        };
        let found: Option<u64> = match single {
            Some(units) => Some(units),
            None => {
                let (well_formed, value) = read_decimal(&t);
                if well_formed {
                    value
                } else {
                    read_fraction_token(&t)
                }
            },
        };
        proof {
            lemma_amounts_are_positive(token@);
        }
        match found {
            Some(units) => Ok(Amount { units }),
            None => Err(Error::ParsingAmount(token.to_owned())),
        }
    }

    /// Whether nothing follows the point.
    pub fn is_whole(&self) -> (r: bool)
        ensures
            r == (self@ % (SCALE as nat) == 0),
    {
        self.units % SCALE == 0
    }

    /// The product with `factor`, cut off after the ninth fractional digit
    /// and held at the largest amount.
    pub fn scaled(&self, factor: Amount) -> (r: Amount)
        ensures
            r@ == product_units(self@, factor@),
    {
        assert(self.units as nat * factor.units as nat <= u64::MAX * u64::MAX) by (nonlinear_arith)
            requires
                self.units <= u64::MAX,
                factor.units <= u64::MAX,
        ;
        let p: u128 = self.units as u128 * factor.units as u128 / SCALE as u128;
        if p > u64::MAX as u128 {
            Amount { units: u64::MAX }
        } else {
            Amount { units: p as u64 }
        }
    }

    /// The decimal numeral of the amount.
    pub fn to_string(&self) -> (r: String)
        ensures
            r@ == rendered(self@),
    {
        let mut out = String::new();
        push_decimal(&mut out, self.units / SCALE);
        let frac = self.units % SCALE;
        if frac != 0 {
            out.append(".");
            proof {
                reveal_strlit(".");
            }
            push_fraction(&mut out, frac);
        }
        proof {
            assert(Seq::<char>::empty() + decimal_digits(self@ / (SCALE as nat))
                =~= decimal_digits(self@ / (SCALE as nat)));
        }
        out
    }
}

} // verus!

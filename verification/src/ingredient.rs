//! Turning raw ingredient lines into structured data with canonical units,
//! and structured data back into a line.
//!
//! For example, the line "1/2 cup sugar" is read as the ingredient "sugar"
//! with the amount 0.5 and the unit cup, and written as "142ml sugar":
//! whether a cup measures a volume or a mass is not looked into.
//!
//! A line has the shape
//!
//! ```text
//! amount whitespace [x whitespace] [unit space] [whitespace] name [, whitespace instructions]
//! ```
//!
//! where every part but the name may be missing, the name may be empty, and
//! each part takes as much of the line as it can.

use crate::amount::{
    amount_units, glyph_units, product_units, push_decimal, rendered, Amount, SCALE,
};
use crate::text::{
    chars_of, find_char, has_at, is_digit, is_space, is_whitespace, lemma_skip_whitespace_bounds,
    position_of, skip_spaces, skip_whitespace, slice_of, trim, trim_bounds, word_at,
};
use crate::unit::{unit_named, Unit, UnitView};
use vstd::prelude::*;

verus! {

#[derive(Debug)]
pub enum Error {
    Empty,
    /// The line has not the shape of an ingredient; carries the line alone.
    NoMatch(ScrapedIngredient),
    ParsingAmount(String),
    ParsingUnit(String),
    AmountAndUnit(String),
}

#[derive(Debug, Clone, PartialEq)]
pub struct ScrapedIngredient {
    /// The line as it was given.
    pub raw: String,
    pub name: Option<String>,
    /// Above zero where the line was read by [`ScrapedIngredient::from_str`].
    pub amount: Option<Amount>,
    pub unit: Option<Unit>,
    pub instructions: Option<String>,
}

/// A [`ScrapedIngredient`] with its texts as sequences of characters and its
/// amount in billionths.
pub struct IngredientView {
    pub raw: Seq<char>,
    pub name: Option<Seq<char>>,
    pub amount: Option<nat>,
    pub unit: Option<UnitView>,
    pub instructions: Option<Seq<char>>,
}

impl View for ScrapedIngredient {
    type V = IngredientView;

    open spec fn view(&self) -> IngredientView {
        IngredientView {
            raw: self.raw@,
            name: self.name.deep_view(),
            amount: self.amount.deep_view(),
            unit: self.unit.deep_view(),
            instructions: self.instructions.deep_view(),
        }
    }
}

impl DeepView for ScrapedIngredient {
    type V = IngredientView;

    open spec fn deep_view(&self) -> IngredientView {
        self@
    }
}

/// An [`Error`] with its texts as sequences of characters.
pub enum ErrorView {
    Empty,
    NoMatch(IngredientView),
    ParsingAmount(Seq<char>),
    ParsingUnit(Seq<char>),
    AmountAndUnit(Seq<char>),
}

impl View for Error {
    type V = ErrorView;

    open spec fn view(&self) -> ErrorView {
        match self {
            Error::Empty => ErrorView::Empty,
            Error::NoMatch(ingredient) => ErrorView::NoMatch(ingredient@),
            Error::ParsingAmount(token) => ErrorView::ParsingAmount(token@),
            Error::ParsingUnit(token) => ErrorView::ParsingUnit(token@),
            Error::AmountAndUnit(token) => ErrorView::AmountAndUnit(token@),
        }
    }
}

/// A character that an amount is written with: a digit, a point, a slash
/// or a vulgar-fraction glyph.
pub open spec fn is_amount_char(c: char) -> bool {
    is_digit(c) || c == '.' || c == '/' || glyph_units(c) is Some
}

/// The first position at or after `from` that holds no amount character.
pub open spec fn skip_amount(s: Seq<char>, from: int) -> int
    decreases s.len() - from,
{
    if 0 <= from < s.len() && is_amount_char(s[from]) {
        skip_amount(s, from + 1)
    } else {
        from
    }
}

/// The first position at or after `from` that holds a comma or a line feed.
pub open spec fn skip_name(s: Seq<char>, from: int) -> int
    decreases s.len() - from,
{
    if 0 <= from < s.len() && s[from] != ',' && s[from] != '\n' {
        skip_name(s, from + 1)
    } else {
        from
    }
}

/// The unit words that are looked for in a line, in the order in which they
/// are tried. The list is narrower than what [`unit_named`] knows.
pub open spec fn unit_words() -> Seq<Seq<char>> {
    seq![
        "ml"@,
        "millilitre"@,
        "l"@,
        "litre"@,
        "tsp"@,
        "teaspoon"@,
        "tbsp"@,
        "cup"@,
        "kg"@,
        "g"@,
        "gram"@,
        "oz"@,
        "ounce"@,
        "pinch of"@,
        "pinch"@,
        "handful of"@,
        "handful"@,
        "small pack"@,
        "large pack"@,
    ]
}

/// `word` stands in `s` at `at`, and a space follows it.
pub open spec fn unit_stands_at(s: Seq<char>, at: int, word: Seq<char>) -> bool {
    &&& has_at(s, at, word)
    &&& at + word.len() < s.len()
    &&& s[at + word.len()] == ' '
}

/// The first unit word, from the `i`th on, that stands in `s` at `at` with a
/// space behind it.
pub open spec fn unit_word_from(s: Seq<char>, at: int, i: int) -> Option<int>
    decreases unit_words().len() - i,
{
    if i < 0 || i >= unit_words().len() {
        None
    } else if unit_stands_at(s, at, unit_words()[i]) {
        Some(i)
    } else {
        unit_word_from(s, at, i + 1)
    }
}

/// Where the amount of the line ends: it is the longest run of amount
/// characters at the start.
pub open spec fn amount_end(s: Seq<char>) -> int {
    skip_amount(s, 0)
}

/// Where a unit word may stand: behind the amount, whitespace, and a
/// multiplier mark `x` with the whitespace that follows it.
pub open spec fn unit_start(s: Seq<char>) -> int {
    let a = skip_whitespace(s, amount_end(s));
    if a < s.len() && s[a] == 'x' {
        skip_whitespace(s, a + 1)
    } else {
        a
    }
}

/// The unit word of the line, as its place in [`unit_words`].
pub open spec fn unit_word(s: Seq<char>) -> Option<int> {
    unit_word_from(s, unit_start(s), 0)
}

/// Where the name begins: behind the unit word and its space if there is
/// one, and behind one more whitespace character if one follows.
pub open spec fn name_start(s: Seq<char>) -> int {
    let c = match unit_word(s) {
        Some(i) => unit_start(s) + unit_words()[i].len() + 1,
        None => unit_start(s),
    };
    if c < s.len() && is_whitespace(s[c]) {
        c + 1
    } else {
        c
    }
}

/// Where the name ends: at the first comma or line feed, or with the line.
pub open spec fn name_end(s: Seq<char>) -> int {
    skip_name(s, name_start(s))
}

/// Where the instructions begin, if a comma ends the name: behind the comma
/// and the whitespace that follows it.
pub open spec fn instructions_start(s: Seq<char>) -> int {
    skip_whitespace(s, name_end(s) + 1)
}

/// `s` has the shape of an ingredient line: its name runs to the end, or to
/// a comma behind which, after whitespace, no line feed stands.
pub open spec fn is_line(s: Seq<char>) -> bool {
    ||| name_end(s) == s.len()
    ||| s[name_end(s)] == ',' && find_char(s, '\n', instructions_start(s)) == s.len()
}

/// What the line `s` says. The name is trimmed; the instructions are what
/// follows the first comma and its whitespace. An amount or a unit that
/// cannot be read is left out.
pub open spec fn parsed_line(s: Seq<char>) -> IngredientView {
    IngredientView {
        raw: s,
        name: Some(trim(s.subrange(name_start(s), name_end(s)))),
        amount: amount_units(s.subrange(0, amount_end(s))),
        unit: match unit_word(s) {
            Some(i) => Some(unit_named(unit_words()[i])),
            None => None,
        },
        instructions: if name_end(s) < s.len() {
            Some(s.subrange(instructions_start(s), s.len() as int))
        } else {
            None
        },
    }
}

/// A line of which nothing was read.
pub open spec fn unread_line(s: Seq<char>) -> IngredientView {
    IngredientView { raw: s, name: None, amount: None, unit: None, instructions: None }
}

/// The amount in the base unit of its unit's family, with that unit.
pub open spec fn canonical(ingredient: IngredientView) -> Option<(nat, UnitView)> {
    match (ingredient.amount, ingredient.unit) {
        (Some(amount), Some(unit)) => Some(
            (product_units(amount, unit.factor()), unit.canonical()),
        ),
        _ => None,
    }
}

/// One step on the prefix ladder: below one, a thousand times as much of
/// the next smaller unit; above a thousand, a thousandth of the next larger.
pub open spec fn rescaled(amount: nat, unit: UnitView) -> (nat, UnitView) {
    if amount < SCALE && unit.smaller() is Some {
        (amount * 1000, unit.smaller()->0)
    } else if amount > 1000 * SCALE && unit.larger() is Some {
        (amount / 1000, unit.larger()->0)
    } else {
        (amount, unit)
    }
}

/// Above ten, the nearest whole number, half a unit going up.
pub open spec fn rounded(amount: nat) -> nat {
    if amount > 10 * SCALE {
        ((amount + SCALE / 2) / (SCALE as int) * SCALE) as nat
    } else {
        amount
    }
}

/// What is written for `amount` of `unit`.
pub open spec fn shown(amount: nat, unit: UnitView) -> (nat, UnitView) {
    (rounded(rescaled(amount, unit).0), rescaled(amount, unit).1)
}

/// The line that is written for an ingredient: amount, unit, a space and the
/// name, and the instructions behind a comma where the amount is whole. An
/// ingredient without a name, an amount or a unit is written as it was read.
pub open spec fn formatted(ingredient: IngredientView) -> Seq<char> {
    match (canonical(ingredient), ingredient.name) {
        (Some((amount, unit)), Some(name)) => {
            let (amount, unit) = shown(amount, unit);
            let head = rendered(amount) + unit.abbreviation() + seq![' '] + name;
            if amount % (SCALE as nat) == 0 && ingredient.instructions is Some {
                head + seq![',', ' '] + ingredient.instructions->0
            } else {
                head
            }
        },
        _ => ingredient.raw,
    }
}

/// The positions of a line lie in it, one behind the other.
pub proof fn lemma_line_positions(s: Seq<char>)
    ensures
        0 <= amount_end(s) <= unit_start(s) <= name_start(s) <= name_end(s) <= s.len(),
        name_end(s) < s.len() ==> s[name_end(s)] == ',' || s[name_end(s)] == '\n',
        forall|i: int|
            name_start(s) <= i < name_end(s) ==> #[trigger] s[i] != ',' && s[i] != '\n',
        unit_word(s) matches Some(i) ==> 0 <= i < unit_words().len(),
{
    lemma_skip_amount_bounds(s, 0);
    let a = skip_whitespace(s, amount_end(s));
    lemma_skip_whitespace_bounds(s, amount_end(s));
    if a < s.len() && s[a] == 'x' {
        lemma_skip_whitespace_bounds(s, a + 1);
    }
    lemma_unit_word_from(s, unit_start(s), 0);
    lemma_skip_name_bounds(s, name_start(s));
}

proof fn lemma_skip_amount_bounds(s: Seq<char>, from: int)
    requires
        0 <= from <= s.len(),
    ensures
        from <= skip_amount(s, from) <= s.len(),
    decreases s.len() - from,
{
    if from < s.len() && is_amount_char(s[from]) {
        lemma_skip_amount_bounds(s, from + 1);
    }
}

proof fn lemma_skip_name_bounds(s: Seq<char>, from: int)
    requires
        0 <= from <= s.len(),
    ensures
        from <= skip_name(s, from) <= s.len(),
        skip_name(s, from) < s.len() ==> s[skip_name(s, from)] == ',' || s[skip_name(s, from)]
            == '\n',
        forall|i: int| from <= i < skip_name(s, from) ==> #[trigger] s[i] != ',' && s[i] != '\n',
    decreases s.len() - from,
{
    if from < s.len() && s[from] != ',' && s[from] != '\n' {
        lemma_skip_name_bounds(s, from + 1);
    }
}

proof fn lemma_unit_word_from(s: Seq<char>, at: int, i: int)
    ensures
        unit_word_from(s, at, i) matches Some(found) ==> i <= found < unit_words().len()
            && unit_stands_at(s, at, unit_words()[found]),
    decreases unit_words().len() - i,
{
    if 0 <= i < unit_words().len() && !unit_stands_at(s, at, unit_words()[i]) {
        lemma_unit_word_from(s, at, i + 1);
    }
}

/// An ingredient line without a comma has no instructions, and its name is
/// all that follows the amount, the multiplier mark and the unit, trimmed.
pub proof fn lemma_line_without_comma(s: Seq<char>)
    requires
        is_line(s),
        forall|i: int| 0 <= i < s.len() ==> #[trigger] s[i] != ',',
    ensures
        parsed_line(s).instructions is None,
        parsed_line(s).name == Some(trim(s.subrange(name_start(s), s.len() as int))),
{
    lemma_line_positions(s);
}

/// Whether `c` is an amount character.
fn is_amount(c: char) -> (r: bool)
    ensures
        r == is_amount_char(c),
{
    (c >= '0' && c <= '9') || c == '.' || c == '/' || c == '¼' || c == '½' || c == '¾'
        || c == '⅓' || c == '⅔' || c == '⅛' || c == '⅜' || c == '⅝' || c == '⅞' || c == '⅙'
        || c == '⅚' || c == '⅕' || c == '⅖' || c == '⅗' || c == '⅘'
}

/// The `i`th unit word.
fn unit_word_text(i: usize) -> (r: &'static str)
    requires
        i < unit_words().len(),
    ensures
        r@ == unit_words()[i as int],
{
    if i == 0 {
        "ml"
    } else if i == 1 {
        "millilitre"
    } else if i == 2 {
        "l"
    } else if i == 3 {
        "litre"
    } else if i == 4 {
        "tsp"
    } else if i == 5 {
        "teaspoon"
    } else if i == 6 {
        "tbsp"
    } else if i == 7 {
        "cup"
    } else if i == 8 {
        "kg"
    } else if i == 9 {
        "g"
    } else if i == 10 {
        "gram"
    } else if i == 11 {
        "oz"
    } else if i == 12 {
        "ounce"
    } else if i == 13 {
        "pinch of"
    } else if i == 14 {
        "pinch"
    } else if i == 15 {
        "handful of"
    } else if i == 16 {
        "handful"
    } else if i == 17 {
        "small pack"
    } else {
        "large pack"
    }
}

/// The unit word that stands at `at`, and its length.
fn find_unit_word(chars: &Vec<char>, at: usize) -> (r: Option<(usize, usize)>)
    requires
        at <= chars.len(),
    ensures
        match r {
            Some((i, len)) => unit_word_from(chars@, at as int, 0) == Some(i as int)
                && i < unit_words().len() && len == unit_words()[i as int].len() && at + len
                < chars.len(),
            None => unit_word_from(chars@, at as int, 0) is None,
        },
{
    let mut i: usize = 0;
    while i < 19
        invariant
            i <= 19,
            unit_words().len() == 19,
            at <= chars.len(),
            unit_word_from(chars@, at as int, 0) == unit_word_from(chars@, at as int, i as int),
        decreases 19 - i,
    {
        let word = unit_word_text(i);
        if word_at(chars, at, word) {
            let len = word.unicode_len();
            if len < chars.len() - at && chars[at + len] == ' ' {
                return Some((i, len));
            }
        }
        i += 1;
    }
    None
}

impl ScrapedIngredient {
    /// Reads an ingredient line. Only a line that has not the shape of one
    /// fails: a line feed in the name or in the instructions.
    pub fn from_str(s: &str) -> (r: Result<ScrapedIngredient, Error>)
        ensures
            match r {
                Ok(ingredient) => is_line(s@) && ingredient@ == parsed_line(s@)
                    && (ingredient.amount matches Some(amount) ==> amount@ > 0),
                Err(e) => !is_line(s@) && e@ == ErrorView::NoMatch(unread_line(s@)),
            },
    {
        let chars = chars_of(s);
        let len = chars.len();
        let mut amount_end: usize = 0;
        while amount_end < len && is_amount(chars[amount_end])
            invariant
                amount_end <= len,
                len == chars.len(),
                skip_amount(chars@, 0) == skip_amount(chars@, amount_end as int),
            decreases len - amount_end,
        {
            amount_end += 1;
        }
        let after_amount = skip_spaces(&chars, amount_end);
        let unit_start = if after_amount < len && chars[after_amount] == 'x' {
            skip_spaces(&chars, after_amount + 1)
        } else {
            after_amount
        };
        let word = find_unit_word(&chars, unit_start);
        let after_unit = match word {
            Some((_, word_len)) => unit_start + word_len + 1,
            None => unit_start,
        };
        let name_start = if after_unit < len && is_space(chars[after_unit]) {
            after_unit + 1
        } else {
            after_unit
        };
        let mut name_end: usize = name_start;
        while name_end < len && chars[name_end] != ',' && chars[name_end] != '\n'
            invariant
                name_start <= name_end <= len,
                len == chars.len(),
                skip_name(chars@, name_start as int) == skip_name(chars@, name_end as int),
            decreases len - name_end,
        {
            name_end += 1;
        }
        let mut instructions_start: usize = len;
        if name_end < len {
            if chars[name_end] != ',' {
                return Err(Error::NoMatch(Self::unread(s)));
            }
            instructions_start = skip_spaces(&chars, name_end + 1);
            if position_of(&chars, '\n', instructions_start) < len {
                return Err(Error::NoMatch(Self::unread(s)));
            }
        }
        let (trim_start, trim_end) = trim_bounds(&slice_of(&chars, name_start, name_end));
        let name = s.substring_char(name_start + trim_start, name_start + trim_end).to_owned();
        proof {
            assert(s@.subrange(name_start + trim_start, name_start + trim_end) =~= s@.subrange(
                name_start as int,
                name_end as int,
            ).subrange(trim_start as int, trim_end as int));
        }
        let amount = match Amount::from_str(s.substring_char(0, amount_end)) {
            Ok(a) => Some(a),
            Err(_) => None,
        };
        let unit = match word {
            Some((i, _)) => match Unit::from_str(unit_word_text(i)) {
                Ok(u) => Some(u),
                Err(_) => None,
            },
            None => None,
        };
        let instructions = if name_end < len {
            Some(s.substring_char(instructions_start, len).to_owned())
        } else {
            None
        };
        Ok(ScrapedIngredient { raw: s.to_owned(), name: Some(name), amount, unit, instructions })
    }

    /// A line of which nothing was read.
    fn unread(s: &str) -> (r: ScrapedIngredient)
        ensures
            r@ == unread_line(s@),
    {
        ScrapedIngredient {
            raw: s.to_owned(),
            name: None,
            amount: None,
            unit: None,
            instructions: None,
        }
    }

    /// The amount in the base unit of its unit's family, with that unit;
    /// nothing where the amount or the unit is missing.
    pub fn canonicalize(&self) -> (r: Option<(Amount, Unit)>)
        ensures
            r.deep_view() == canonical(self@),
    {
        match (self.amount, &self.unit) {
            (Some(amount), Some(unit)) => Some(
                (amount.scaled(unit.canonicalize()), unit.canonical_unit()),
            ),
            _ => None,
        }
    }

    /// The line that is written for the ingredient.
    pub fn to_string(&self) -> (r: String)
        ensures
            r@ == formatted(self@),
    {
        match (self.canonicalize(), &self.name) {
            (Some((amount, unit)), Some(name)) => {
                let mut units: u64 = amount.units;
                let mut unit: Unit = unit;
                if units < SCALE {
                    if let Some(smaller) = unit.smaller_prefix() {
                        units = units * 1000;
                        unit = smaller;
                    }
                } else if units > 1000 * SCALE {
                    if let Some(larger) = unit.larger_prefix() {
                        units = units / 1000;
                        unit = larger;
                    }
                }
                let mut out = String::new();
                let whole: bool;
                if units > 10 * SCALE {
                    let nearest: u128 = (units as u128 + (SCALE / 2) as u128) / SCALE as u128;
                    push_decimal(&mut out, nearest as u64);
                    whole = true;
                } else {
                    let shown = Amount { units };
                    out = shown.to_string();
                    whole = shown.is_whole();
                }
                out.append(unit.to_string().as_str());
                out.append(" ");
                out.append(name.as_str());
                if whole {
                    if let Some(instructions) = &self.instructions {
                        out.append(", ");
                        out.append(instructions.as_str());
                    }
                }
                proof {
                    reveal_strlit(" ");
                    reveal_strlit(", ");
                }
                out
            },
            _ => self.raw.clone(),
        }
    }
}

impl std::str::FromStr for ScrapedIngredient {
    type Err = Error;

    /// Reads an ingredient line, as [`ScrapedIngredient::from_str`] does.
    fn from_str(s: &str) -> (r: Result<Self, Self::Err>)
        ensures
            match r {
                Ok(ingredient) => is_line(s@) && ingredient@ == parsed_line(s@)
                    && (ingredient.amount matches Some(amount) ==> amount@ > 0),
                Err(e) => !is_line(s@) && e@ == ErrorView::NoMatch(unread_line(s@)),
            },
    {
        ScrapedIngredient::from_str(s)
    }
}

} // verus!

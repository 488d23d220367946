//! Writing a line that was written changes nothing.
//!
//! What is written for an ingredient is a line of a fixed make: a numeral,
//! what stands for the unit, a space and the name, and the instructions
//! behind a comma. The proofs here follow such a line through the reader
//! and find the same quantity, name and instructions again, so that the
//! line is written as itself. Two things can stand in the way, and the laws
//! leave them out: an amount that rounding has carried onto the next step
//! of the prefix ladder, and a label that takes "of" from a name in which
//! more whitespace follows.

use crate::amount::{lemma_rendered_is_read, positive_in_range, rendered, SCALE};
use crate::ingredient::{
    amount_end, canonical, formatted, instructions_start, is_amount_char, is_line,
    lemma_line_positions, name_end, name_start, parsed_line, rounded, shown, skip_amount,
    skip_name, unit_start, unit_stands_at, unit_word, unit_word_from, unit_words,
    IngredientView,
};
use crate::text::{
    has_at, is_digit, is_whitespace, lemma_find_char_bounds, lemma_find_char_to,
    lemma_skip_whitespace_back_bounds, lemma_skip_whitespace_back_to,
    lemma_skip_whitespace_bounds, lemma_skip_whitespace_to, skip_whitespace, trim,
};
use crate::unit::{
    mass_unit_named, unit_named, volume_unit_named, MassUnit, UnitView, VolumeUnit,
};
use vstd::prelude::*;

verus! {

/// The ingredient with the quantity that is written for it in place of its
/// own.
pub open spec fn as_written(ingredient: IngredientView) -> IngredientView {
    match canonical(ingredient) {
        Some((amount, unit)) => IngredientView {
            amount: Some(shown(amount, unit).0),
            unit: Some(shown(amount, unit).1),
            ..ingredient
        },
        None => ingredient,
    }
}

/// The quantity that is written does not drift: an ingredient that holds
/// what was written for it is written the same again. This holds where the
/// written amount in its base unit can be held as an amount, and where
/// rounding has not carried it onto the next step of the ladder: a thousand
/// of the smaller unit, or no more than one of the larger.
pub proof fn lemma_written_quantity_is_stable(ingredient: IngredientView)
    requires
        canonical(ingredient) is Some,
        ({
            let (amount, unit) = canonical(ingredient)->0;
            let (written, in_unit) = shown(amount, unit);
            &&& written * in_unit.factor() / (SCALE as nat) <= u64::MAX
            &&& !(amount < SCALE && unit.smaller() is Some && written >= 1000 * SCALE)
            &&& !(amount > 1000 * SCALE && unit.larger() is Some && written <= SCALE)
        }),
    ensures
        canonical(as_written(ingredient)) is Some,
        ({
            let (amount, unit) = canonical(ingredient)->0;
            let (again, again_unit) = canonical(as_written(ingredient))->0;
            shown(again, again_unit) == shown(amount, unit)
        }),
        formatted(as_written(ingredient)) == formatted(ingredient),
{
    let (amount, unit) = canonical(ingredient)->0;
    let (written, in_unit) = shown(amount, unit);
    let (again, again_unit) = canonical(as_written(ingredient))->0;
    assert(again_unit == in_unit.canonical());
    // what is written is whole above ten, so that rounding leaves it
    assert(rounded(written) == written);
    // in the base unit it is the amount that was stepped from
    if amount < SCALE && unit.smaller() is Some {
        assert(in_unit.factor() == 1_000_000);
        assert(again == written / 1000);
    } else if amount > 1000 * SCALE && unit.larger() is Some {
        assert(again == written * 1000) by {
            assert(written * 1_000_000_000_000 / 1_000_000_000 == written * 1000);
        }
    } else {
        assert(again == written);
    }
}

/// The metric units, by their abbreviations.
proof fn lemma_metric_names()
    ensures
        unit_named("g"@) == UnitView::Mass(MassUnit::Grams),
        unit_named("kg"@) == UnitView::Mass(MassUnit::Kilograms),
        unit_named("l"@) == UnitView::Volume(VolumeUnit::Litres),
        unit_named("ml"@) == UnitView::Volume(VolumeUnit::Millilitres),
        "g"@ =~= seq!['g'],
        "kg"@ =~= seq!['k', 'g'],
        "mg"@ =~= seq!['m', 'g'],
        "l"@ =~= seq!['l'],
        "ml"@ =~= seq!['m', 'l'],
{
    reveal_strlit("mg");
    reveal_strlit("milligram");
    reveal_strlit("milligrams");
    reveal_strlit("g");
    reveal_strlit("gram");
    reveal_strlit("grams");
    reveal_strlit("kg");
    reveal_strlit("kilogram");
    reveal_strlit("kilograms");
    reveal_strlit("lb");
    reveal_strlit("pound");
    reveal_strlit("pounds");
    reveal_strlit("oz");
    reveal_strlit("ounce");
    reveal_strlit("ounces");
    reveal_strlit("ml");
    reveal_strlit("millilitre");
    reveal_strlit("millilitres");
    reveal_strlit("l");
    reveal_strlit("litre");
    reveal_strlit("litres");
    assert("l"@[0] != "g"@[0]);
    assert("lb"@.len() == 2);
    assert("kg"@[0] != "mg"@[0]);
    assert("ml"@[1] != "mg"@[1]);
}

/// The labels, letter by letter.
proof fn lemma_label_names()
    ensures
        "pinch of"@ =~= seq!['p', 'i', 'n', 'c', 'h', ' ', 'o', 'f'],
        "pinch"@ =~= seq!['p', 'i', 'n', 'c', 'h'],
        "handful of"@ =~= seq!['h', 'a', 'n', 'd', 'f', 'u', 'l', ' ', 'o', 'f'],
        "handful"@ =~= seq!['h', 'a', 'n', 'd', 'f', 'u', 'l'],
        "small pack"@ =~= seq!['s', 'm', 'a', 'l', 'l', ' ', 'p', 'a', 'c', 'k'],
        "large pack"@ =~= seq!['l', 'a', 'r', 'g', 'e', ' ', 'p', 'a', 'c', 'k'],
        "of "@ =~= seq!['o', 'f', ' '],
{
    reveal_strlit("pinch of");
    reveal_strlit("pinch");
    reveal_strlit("handful of");
    reveal_strlit("handful");
    reveal_strlit("small pack");
    reveal_strlit("large pack");
    reveal_strlit("of ");
}

/// What is written for a unit begins with a letter that no amount is
/// written with and that is not the multiplier mark, and holds neither a
/// comma nor a line feed.
proof fn lemma_written_units(abbreviation: Seq<char>)
    requires
        metric(abbreviation) || known_label(abbreviation),
    ensures
        abbreviation.len() > 0,
        !is_amount_char(abbreviation[0]),
        !is_whitespace(abbreviation[0]),
        abbreviation[0] != 'x',
        forall|i: int|
            0 <= i < abbreviation.len() ==> #[trigger] abbreviation[i] != ',' && abbreviation[i]
                != '\n',
        metric(abbreviation) ==> abbreviation != "pinch"@ && abbreviation != "handful"@,
{
    lemma_metric_names();
    lemma_label_names();
}

/// A word does not stand as a unit where no space follows it.
proof fn lemma_no_space_behind(s: Seq<char>, at: int, word: Seq<char>)
    requires
        0 <= at,
        at + word.len() >= s.len() || s[at + word.len()] != ' ',
    ensures
        !unit_stands_at(s, at, word),
{
}

proof fn lemma_skip_amount_to(s: Seq<char>, from: int, to: int)
    requires
        0 <= from <= to <= s.len(),
        forall|i: int| from <= i < to ==> is_amount_char(#[trigger] s[i]),
        to < s.len() ==> !is_amount_char(s[to]),
    ensures
        skip_amount(s, from) == to,
    decreases to - from,
{
    if from < to {
        lemma_skip_amount_to(s, from + 1, to);
    }
}

proof fn lemma_skip_name_to(s: Seq<char>, from: int, to: int)
    requires
        0 <= from <= to <= s.len(),
        forall|i: int| from <= i < to ==> #[trigger] s[i] != ',' && s[i] != '\n',
        to < s.len() ==> s[to] == ',' || s[to] == '\n',
    ensures
        skip_name(s, from) == to,
    decreases to - from,
{
    if from < to {
        lemma_skip_name_to(s, from + 1, to);
    }
}

/// A word does not stand where another letter stands.
proof fn lemma_not_standing(s: Seq<char>, at: int, word: Seq<char>, i: int)
    requires
        0 <= i < word.len(),
        0 <= at,
        at + i >= s.len() || s[at + i] != word[i],
    ensures
        !has_at(s, at, word),
        !unit_stands_at(s, at, word),
{
}

/// A text that begins and ends without whitespace is trimmed already.
proof fn lemma_trim_of_trimmed(s: Seq<char>)
    requires
        s.len() > 0 ==> !is_whitespace(s[0]) && !is_whitespace(s[s.len() - 1]),
    ensures
        trim(s) == s,
{
    lemma_skip_whitespace_to(s, 0, 0);
    lemma_skip_whitespace_back_to(s, 0, s.len() as int, s.len() as int);
}

/// What is trimmed begins and ends without whitespace, and holds only what
/// the text held.
proof fn lemma_trimmed(s: Seq<char>)
    ensures
        trim(s).len() > 0 ==> !is_whitespace(trim(s)[0]) && !is_whitespace(
            trim(s)[trim(s).len() - 1],
        ),
        forall|i: int|
            0 <= i < trim(s).len() ==> exists|j: int|
                0 <= j < s.len() && s[j] == #[trigger] trim(s)[i],
{
    let start = skip_whitespace(s, 0);
    lemma_skip_whitespace_bounds(s, 0);
    lemma_skip_whitespace_back_bounds(s, start, s.len() as int);
    assert forall|i: int| 0 <= i < trim(s).len() implies exists|j: int|
        0 <= j < s.len() && s[j] == #[trigger] trim(s)[i] by {}
}

/// `abbreviation` is written for a metric unit.
spec fn metric(abbreviation: Seq<char>) -> bool {
    abbreviation == "g"@ || abbreviation == "kg"@ || abbreviation == "mg"@ || abbreviation == "l"@
        || abbreviation == "ml"@
}

/// `label` is one of the labels that are looked for in a line.
spec fn known_label(label: Seq<char>) -> bool {
    label == "pinch of"@ || label == "pinch"@ || label == "handful of"@ || label == "handful"@
        || label == "small pack"@ || label == "large pack"@
}

/// The label `label` in front of `name` is read as a longer one: "pinch"
/// and "handful" are, where the name goes on with "of" and a space.
pub open spec fn label_runs_on(label: Seq<char>, name: Seq<char>) -> bool {
    (label == "pinch"@ || label == "handful"@) && has_at(name, 0, "of "@)
}

/// The label `label` in front of `name` is read as a longer one, and more
/// whitespace follows, which is then lost: as in "pinch" before "of  salt".
pub open spec fn label_drifts(label: Seq<char>, name: Seq<char>) -> bool {
    label_runs_on(label, name) && name.len() > 3 && is_whitespace(name[3])
}

/// What a label is read as in front of `name`.
spec fn label_read(label: Seq<char>, name: Seq<char>) -> Seq<char> {
    if label_runs_on(label, name) {
        label + seq![' ', 'o', 'f']
    } else {
        label
    }
}

/// The place among the unit words of what is written for a unit.
spec fn place_of(abbreviation: Seq<char>) -> Option<int> {
    if abbreviation == "ml"@ {
        Some(0int)
    } else if abbreviation == "l"@ {
        Some(2int)
    } else if abbreviation == "kg"@ {
        Some(8int)
    } else if abbreviation == "g"@ {
        Some(9int)
    } else if abbreviation == "pinch of"@ {
        Some(13int)
    } else if abbreviation == "pinch"@ {
        Some(14int)
    } else if abbreviation == "handful of"@ {
        Some(15int)
    } else if abbreviation == "handful"@ {
        Some(16int)
    } else if abbreviation == "small pack"@ {
        Some(17int)
    } else if abbreviation == "large pack"@ {
        Some(18int)
    } else {
        None
    }
}

/// The line that is written for `amount` of the unit with `abbreviation`, of
/// the thing `name`, with `instructions`.
spec fn written(
    amount: nat,
    abbreviation: Seq<char>,
    name: Seq<char>,
    instructions: Option<Seq<char>>,
) -> Seq<char> {
    let head = rendered(amount) + abbreviation + seq![' '] + name;
    if instructions is Some {
        head + seq![',', ' '] + instructions->0
    } else {
        head
    }
}

/// The text `t` is laid out as a written line: the numeral `r`, the
/// abbreviation, a space, the name, and the instructions behind a comma and
/// a space if there are any.
spec fn laid_out(
    t: Seq<char>,
    r: Seq<char>,
    abbreviation: Seq<char>,
    name: Seq<char>,
    instructions: Option<Seq<char>>,
) -> bool {
    let p = r.len() as int;
    let c = p + abbreviation.len() + 1;
    let e = c + name.len();
    &&& t.subrange(0, p) == r
    &&& t.subrange(p, c - 1) == abbreviation
    &&& c <= t.len()
    &&& t[c - 1] == ' '
    &&& e <= t.len()
    &&& t.subrange(c, e) == name
    &&& match instructions {
        Some(text) => e + 2 <= t.len() && t[e] == ',' && t[e + 1] == ' ' && t.subrange(
            e + 2,
            t.len() as int,
        ) == text,
        None => e == t.len(),
    }
}

proof fn lemma_written_is_laid_out(
    amount: nat,
    abbreviation: Seq<char>,
    name: Seq<char>,
    instructions: Option<Seq<char>>,
)
    ensures
        laid_out(
            written(amount, abbreviation, name, instructions),
            rendered(amount),
            abbreviation,
            name,
            instructions,
        ),
{
    let t = written(amount, abbreviation, name, instructions);
    let r = rendered(amount);
    let p = r.len() as int;
    let c = p + abbreviation.len() + 1;
    let e = c + name.len();
    let head = r + abbreviation + seq![' '] + name;
    assert(head.subrange(0, p) =~= r);
    assert(head.subrange(p, c - 1) =~= abbreviation);
    assert(head.subrange(c, e) =~= name);
    match instructions {
        Some(text) => {
            assert(t.subrange(0, p) =~= head.subrange(0, p));
            assert(t.subrange(p, c - 1) =~= head.subrange(p, c - 1));
            assert(t.subrange(c, e) =~= head.subrange(c, e));
            assert(t.subrange(e + 2, t.len() as int) =~= text);
        },
        None => {},
    }
}

/// A unit word does not stand where another letter than its first stands.
proof fn lemma_first_letters(t: Seq<char>, at: int)
    requires
        0 <= at < t.len(),
    ensures
        t[at] != 'm' ==> !unit_stands_at(t, at, unit_words()[0])
            && !unit_stands_at(t, at, unit_words()[1]),
        t[at] != 'l' ==> !unit_stands_at(t, at, unit_words()[2])
            && !unit_stands_at(t, at, unit_words()[3])
            && !unit_stands_at(t, at, unit_words()[18]),
        t[at] != 't' ==> !unit_stands_at(t, at, unit_words()[4])
            && !unit_stands_at(t, at, unit_words()[5])
            && !unit_stands_at(t, at, unit_words()[6]),
        t[at] != 'c' ==> !unit_stands_at(t, at, unit_words()[7]),
        t[at] != 'k' ==> !unit_stands_at(t, at, unit_words()[8]),
        t[at] != 'g' ==> !unit_stands_at(t, at, unit_words()[9])
            && !unit_stands_at(t, at, unit_words()[10]),
        t[at] != 'o' ==> !unit_stands_at(t, at, unit_words()[11])
            && !unit_stands_at(t, at, unit_words()[12]),
        t[at] != 'p' ==> !unit_stands_at(t, at, unit_words()[13])
            && !unit_stands_at(t, at, unit_words()[14]),
        t[at] != 'h' ==> !unit_stands_at(t, at, unit_words()[15])
            && !unit_stands_at(t, at, unit_words()[16]),
        t[at] != 's' ==> !unit_stands_at(t, at, unit_words()[17]),
{
    reveal_strlit("ml");
    reveal_strlit("millilitre");
    reveal_strlit("l");
    reveal_strlit("litre");
    reveal_strlit("tsp");
    reveal_strlit("teaspoon");
    reveal_strlit("tbsp");
    reveal_strlit("cup");
    reveal_strlit("kg");
    reveal_strlit("g");
    reveal_strlit("gram");
    reveal_strlit("oz");
    reveal_strlit("ounce");
    reveal_strlit("pinch of");
    reveal_strlit("pinch");
    reveal_strlit("handful of");
    reveal_strlit("handful");
    reveal_strlit("small pack");
    reveal_strlit("large pack");
    if t[at] != 'm' {
        lemma_not_standing(t, at, unit_words()[0], 0);
        lemma_not_standing(t, at, unit_words()[1], 0);
    }
    if t[at] != 'l' {
        lemma_not_standing(t, at, unit_words()[2], 0);
        lemma_not_standing(t, at, unit_words()[3], 0);
        lemma_not_standing(t, at, unit_words()[18], 0);
    }
    if t[at] != 't' {
        lemma_not_standing(t, at, unit_words()[4], 0);
        lemma_not_standing(t, at, unit_words()[5], 0);
        lemma_not_standing(t, at, unit_words()[6], 0);
    }
    if t[at] != 'c' {
        lemma_not_standing(t, at, unit_words()[7], 0);
    }
    if t[at] != 'k' {
        lemma_not_standing(t, at, unit_words()[8], 0);
    }
    if t[at] != 'g' {
        lemma_not_standing(t, at, unit_words()[9], 0);
        lemma_not_standing(t, at, unit_words()[10], 0);
    }
    if t[at] != 'o' {
        lemma_not_standing(t, at, unit_words()[11], 0);
        lemma_not_standing(t, at, unit_words()[12], 0);
    }
    if t[at] != 'p' {
        lemma_not_standing(t, at, unit_words()[13], 0);
        lemma_not_standing(t, at, unit_words()[14], 0);
    }
    if t[at] != 'h' {
        lemma_not_standing(t, at, unit_words()[15], 0);
        lemma_not_standing(t, at, unit_words()[16], 0);
    }
    if t[at] != 's' {
        lemma_not_standing(t, at, unit_words()[17], 0);
    }
}

/// The unit word that stands in a written line behind its amount: the one
/// that is written there, or the longer label that it makes with the name.
proof fn lemma_unit_word_at(t: Seq<char>, at: int, abbreviation: Seq<char>, name: Seq<char>)
    requires
        metric(abbreviation) || known_label(abbreviation),
        0 <= at,
        at + abbreviation.len() < t.len(),
        t.subrange(at, at + abbreviation.len()) == abbreviation,
        t[at + abbreviation.len()] == ' ',
        at + abbreviation.len() + 1 + name.len() <= t.len(),
        t.subrange(at + abbreviation.len() + 1, at + abbreviation.len() + 1 + name.len())
            == name,
        at + abbreviation.len() + 1 + name.len() < t.len() ==> t[at + abbreviation.len() + 1
            + name.len()] == ',',
    ensures
        unit_word_from(t, at, 0) == place_of(label_read(abbreviation, name)),
        place_of(label_read(abbreviation, name)) matches Some(i) ==> 0 <= i < unit_words().len()
            && unit_words()[i] == label_read(abbreviation, name),
        place_of(label_read(abbreviation, name)) is None <==> abbreviation == "mg"@,
{
    lemma_metric_names();
    lemma_label_names();
    lemma_first_letters(t, at);
    reveal_with_fuel(unit_word_from, 20);
    let a = abbreviation.len() as int;
    if abbreviation == "mg"@ {
        reveal_strlit("ml");
        reveal_strlit("millilitre");
        lemma_not_standing(t, at, unit_words()[0], 1);
        lemma_not_standing(t, at, unit_words()[1], 1);
    } else if abbreviation == "pinch"@ || abbreviation == "handful"@ {
        let longer = abbreviation + seq![' ', 'o', 'f'];
        assert(unit_words()[13] =~= "pinch"@ + seq![' ', 'o', 'f']);
        assert(unit_words()[15] =~= "handful"@ + seq![' ', 'o', 'f']);
        if label_runs_on(abbreviation, name) {
            assert(name.subrange(0, 3) == "of "@);
            assert forall|i: int| 0 <= i < 3 implies t[at + a + 1 + i] == name[i] by {
                assert(t.subrange(at + a + 1, at + a + 1 + name.len())[i] == name[i]);
                assert(name.subrange(0, 3)[i] == name[i]);
            }
            assert(t.subrange(at, at + a + 3) =~= longer);
            assert(unit_stands_at(t, at, longer));
        } else {
            lemma_longer_label(t, at, abbreviation, name, longer);
        }
    } else if abbreviation == "large pack"@ {
        reveal_strlit("litre");
        lemma_no_space_behind(t, at, unit_words()[2]);
        lemma_not_standing(t, at, unit_words()[3], 1);
    }
}

/// Where a label stands in front of a name that does not go on with "of"
/// and a space, the label with " of" behind it does not stand.
proof fn lemma_longer_label(
    t: Seq<char>,
    at: int,
    label: Seq<char>,
    name: Seq<char>,
    longer: Seq<char>,
)
    requires
        0 <= at,
        longer == label + seq![' ', 'o', 'f'],
        !has_at(name, 0, "of "@),
        at + label.len() + 1 + name.len() <= t.len(),
        t.subrange(at + label.len() + 1, at + label.len() + 1 + name.len()) == name,
        at + label.len() + 1 + name.len() < t.len() ==> t[at + label.len() + 1 + name.len()]
            == ',',
    ensures
        !unit_stands_at(t, at, longer),
{
    lemma_label_names();
    let c = at + label.len() + 1;
    if unit_stands_at(t, at, longer) {
        let found = t.subrange(at, at + longer.len());
        let n = label.len() as int;
        assert(found[n + 1] == longer[n + 1]);
        assert(found[n + 2] == longer[n + 2]);
        assert forall|i: int| 0 <= i < name.len() implies t[c + i] == name[i] by {}
        if name.len() >= 3 {
            assert(name.subrange(0, 3) =~= "of "@);
        }
    }
}

/// The longer labels name no unit: they are labels.
proof fn lemma_longer_labels_are_labels()
    ensures
        unit_named("pinch of"@) == UnitView::Other("pinch of"@),
        unit_named("handful of"@) == UnitView::Other("handful of"@),
{
    lemma_label_names();
    reveal_strlit("mg");
    reveal_strlit("milligram");
    reveal_strlit("milligrams");
    reveal_strlit("g");
    reveal_strlit("gram");
    reveal_strlit("grams");
    reveal_strlit("kg");
    reveal_strlit("kilogram");
    reveal_strlit("kilograms");
    reveal_strlit("lb");
    reveal_strlit("pound");
    reveal_strlit("pounds");
    reveal_strlit("oz");
    reveal_strlit("ounce");
    reveal_strlit("ounces");
    reveal_strlit("ml");
    reveal_strlit("millilitre");
    reveal_strlit("millilitres");
    reveal_strlit("l");
    reveal_strlit("litre");
    reveal_strlit("litres");
    reveal_strlit("tsp");
    reveal_strlit("teaspoon");
    reveal_strlit("teaspoons");
    reveal_strlit("tbsp");
    reveal_strlit("tablespoon");
    reveal_strlit("tablespoons");
    reveal_strlit("cup");
    reveal_strlit("cups");
    reveal_strlit("pint");
    reveal_strlit("pints");
    reveal_strlit("quart");
    reveal_strlit("quarts");
    reveal_strlit("gallon");
    reveal_strlit("gallons");
    assert("mg"@.len() == 2);
    assert("milligram"@.len() == 9);
    assert("milligrams"@[0] == 'm');
    assert("g"@.len() == 1);
    assert("gram"@.len() == 4);
    assert("grams"@.len() == 5);
    assert("kg"@.len() == 2);
    assert("kilogram"@[0] == 'k');
    assert("kilograms"@.len() == 9);
    assert("lb"@.len() == 2);
    assert("pound"@.len() == 5);
    assert("pounds"@.len() == 6);
    assert("oz"@.len() == 2);
    assert("ounce"@.len() == 5);
    assert("ounces"@.len() == 6);
    assert("ml"@.len() == 2);
    assert("millilitre"@[0] == 'm');
    assert("millilitres"@.len() == 11);
    assert("l"@.len() == 1);
    assert("litre"@.len() == 5);
    assert("litres"@.len() == 6);
    assert("tsp"@.len() == 3);
    assert("teaspoon"@[0] == 't');
    assert("teaspoons"@.len() == 9);
    assert("tbsp"@.len() == 4);
    assert("tablespoon"@[0] == 't');
    assert("tablespoons"@.len() == 11);
    assert("cup"@.len() == 3);
    assert("cups"@.len() == 4);
    assert("pint"@.len() == 4);
    assert("pints"@.len() == 5);
    assert("quart"@.len() == 5);
    assert("quarts"@.len() == 6);
    assert("gallon"@.len() == 6);
    assert("gallons"@.len() == 7);
}

/// What stands in the list of unit words before the labels names a unit of
/// mass or of volume, so that a label which was read is one of the labels.
proof fn lemma_labels_are_known(i: int)
    requires
        0 <= i < unit_words().len(),
        unit_named(unit_words()[i]) is Other,
    ensures
        unit_named(unit_words()[i]) == UnitView::Other(unit_words()[i]),
        known_label(unit_words()[i]),
{
    assert(mass_unit_named(unit_words()[8]) is Some);
    assert(mass_unit_named(unit_words()[9]) is Some);
    assert(mass_unit_named(unit_words()[10]) is Some);
    assert(mass_unit_named(unit_words()[11]) is Some);
    assert(mass_unit_named(unit_words()[12]) is Some);
    assert(volume_unit_named(unit_words()[0]) is Some);
    assert(volume_unit_named(unit_words()[1]) is Some);
    assert(volume_unit_named(unit_words()[2]) is Some);
    assert(volume_unit_named(unit_words()[3]) is Some);
    assert(volume_unit_named(unit_words()[4]) is Some);
    assert(volume_unit_named(unit_words()[5]) is Some);
    assert(volume_unit_named(unit_words()[6]) is Some);
    assert(volume_unit_named(unit_words()[7]) is Some);
    assert(i >= 13);
}

/// A line that was written for a quantity in a metric unit or with a label
/// is read as it was written: the amount, the unit, the name and the
/// instructions. Only milligrams are not read as a unit, and a label that
/// runs on into the name is read as the longer label, with the rest of the
/// name.
proof fn lemma_written_is_read(
    amount: nat,
    abbreviation: Seq<char>,
    name: Seq<char>,
    instructions: Option<Seq<char>>,
)
    requires
        metric(abbreviation) || known_label(abbreviation),
        !label_drifts(abbreviation, name),
        forall|i: int| 0 <= i < name.len() ==> #[trigger] name[i] != ',' && name[i] != '\n',
        name.len() > 0 ==> !is_whitespace(name[0]) && !is_whitespace(name[name.len() - 1]),
        instructions matches Some(text) ==> (forall|i: int|
            0 <= i < text.len() ==> #[trigger] text[i] != '\n') && (text.len() > 0
            ==> !is_whitespace(text[0])),
    ensures
        is_line(written(amount, abbreviation, name, instructions)),
        parsed_line(written(amount, abbreviation, name, instructions)).amount == positive_in_range(
            amount,
        ),
        parsed_line(written(amount, abbreviation, name, instructions)).instructions
            == instructions,
        abbreviation == "mg"@ ==> parsed_line(
            written(amount, abbreviation, name, instructions),
        ).unit is None,
        abbreviation != "mg"@ ==> parsed_line(
            written(amount, abbreviation, name, instructions),
        ).unit == Some(unit_named(label_read(abbreviation, name))),
        abbreviation != "mg"@ ==> parsed_line(
            written(amount, abbreviation, name, instructions),
        ).name == Some(
            if label_runs_on(abbreviation, name) {
                name.subrange(3, name.len() as int)
            } else {
                name
            },
        ),
{
    let t = written(amount, abbreviation, name, instructions);
    let r = rendered(amount);
    let p = r.len() as int;
    let c = p + abbreviation.len() + 1;
    let e = c + name.len();
    lemma_written_is_laid_out(amount, abbreviation, name, instructions);
    lemma_rendered_is_read(amount);
    lemma_written_units(abbreviation);
    lemma_laid_out_amount(t, r, abbreviation, name, instructions);
    lemma_unit_word_at(t, p, abbreviation, name);
    assert forall|i: int| 0 <= i < name.len() implies t[c + i] == name[i] by {
        assert(t.subrange(c, e)[i] == name[i]);
    }
    assert(t[p] == t.subrange(p, c - 1)[0]);
    let start = if abbreviation == "mg"@ {
        p
    } else if label_runs_on(abbreviation, name) {
        c + 3
    } else {
        c
    };
    if label_runs_on(abbreviation, name) {
        reveal_strlit("of ");
        assert(name.subrange(0, 3) == "of "@);
        assert(name[2] == name.subrange(0, 3)[2]);
        assert(name.len() > 3);
        assert(t[c + 3] == name[3]);
    } else if abbreviation != "mg"@ && c < t.len() {
        if name.len() > 0 {
            assert(t[c] == name[0]);
        }
    }
    assert(name_start(t) == start);
    lemma_laid_out_rest(t, r, abbreviation, name, instructions, start);
    if abbreviation != "mg"@ {
        let rest = t.subrange(start, e);
        assert(rest =~= name.subrange(start - c, name.len() as int));
        lemma_trim_of_trimmed(rest);
        assert(name.subrange(0, name.len() as int) =~= name);
    }
}

/// In a written line the amount is the numeral, and the unit word stands
/// right behind it.
proof fn lemma_laid_out_amount(
    t: Seq<char>,
    r: Seq<char>,
    abbreviation: Seq<char>,
    name: Seq<char>,
    instructions: Option<Seq<char>>,
)
    requires
        laid_out(t, r, abbreviation, name, instructions),
        forall|i: int| 0 <= i < r.len() ==> is_digit(#[trigger] r[i]) || r[i] == '.',
        abbreviation.len() > 0,
        !is_amount_char(abbreviation[0]),
        !is_whitespace(abbreviation[0]),
        abbreviation[0] != 'x',
    ensures
        amount_end(t) == r.len(),
        unit_start(t) == r.len(),
{
    let p = r.len() as int;
    assert forall|i: int| 0 <= i < p implies is_amount_char(#[trigger] t[i]) by {
        assert(t.subrange(0, p)[i] == r[i]);
    }
    lemma_skip_amount_to(t, 0, p);
    lemma_skip_whitespace_to(t, p, p);
}

/// In a written line the name runs from where it starts, behind the unit
/// word or at the unit where that is no unit word, to the comma or the end,
/// and the instructions are what stands behind the comma and the space.
proof fn lemma_laid_out_rest(
    t: Seq<char>,
    r: Seq<char>,
    abbreviation: Seq<char>,
    name: Seq<char>,
    instructions: Option<Seq<char>>,
    start: int,
)
    requires
        laid_out(t, r, abbreviation, name, instructions),
        name_start(t) == start,
        r.len() <= start <= r.len() + abbreviation.len() + 1 + name.len(),
        forall|i: int|
            0 <= i < abbreviation.len() ==> #[trigger] abbreviation[i] != ',' && abbreviation[i]
                != '\n',
        forall|i: int| 0 <= i < name.len() ==> #[trigger] name[i] != ',' && name[i] != '\n',
        instructions matches Some(text) ==> (forall|i: int|
            0 <= i < text.len() ==> #[trigger] text[i] != '\n') && (text.len() > 0
            ==> !is_whitespace(text[0])),
    ensures
        is_line(t),
        name_end(t) == r.len() + abbreviation.len() + 1 + name.len(),
        parsed_line(t).instructions == instructions,
        parsed_line(t).name == Some(
            trim(t.subrange(start, (r.len() + abbreviation.len() + 1 + name.len()) as int)),
        ),
{
    let p = r.len() as int;
    let c = p + abbreviation.len() + 1;
    let e = c + name.len();
    assert forall|i: int| 0 <= i < name.len() implies t[c + i] == name[i] by {
        assert(t.subrange(c, e)[i] == name[i]);
    }
    assert forall|i: int| 0 <= i < abbreviation.len() implies t[p + i] == abbreviation[i] by {
        assert(t.subrange(p, c - 1)[i] == abbreviation[i]);
    }
    assert forall|i: int| start <= i < e implies #[trigger] t[i] != ',' && t[i] != '\n' by {
        if i < c - 1 {
            assert(t[i] == abbreviation[i - p]);
        } else if i >= c {
            assert(t[i] == name[i - c]);
        }
    }
    lemma_skip_name_to(t, start, e);
    match instructions {
        Some(text) => {
            assert forall|i: int| 0 <= i < text.len() implies t[e + 2 + i] == text[i] by {
                assert(t.subrange(e + 2, t.len() as int)[i] == text[i]);
            }
            lemma_skip_whitespace_to(t, e + 1, e + 2);
            assert forall|i: int| e + 2 <= i < t.len() implies #[trigger] t[i] != '\n' by {
                assert(t[i] == text[i - e - 2]);
            }
            lemma_find_char_to(t, '\n', e + 2, t.len() as int);
        },
        None => {},
    }
}

/// What was read of a line can be written and read again: the name is
/// trimmed and holds neither a comma nor a line feed, the instructions hold
/// no line feed and begin without whitespace, and a label is one of the
/// labels that are looked for.
proof fn lemma_parts_of_a_line(s: Seq<char>)
    requires
        is_line(s),
    ensures
        parsed_line(s).name is Some,
        ({
            let name = parsed_line(s).name->0;
            &&& forall|i: int| 0 <= i < name.len() ==> #[trigger] name[i] != ',' && name[i] != '\n'
            &&& name.len() > 0 ==> !is_whitespace(name[0]) && !is_whitespace(name[name.len() - 1])
        }),
        parsed_line(s).instructions matches Some(text) ==> (forall|i: int|
            0 <= i < text.len() ==> #[trigger] text[i] != '\n') && (text.len() > 0
            ==> !is_whitespace(text[0])),
        parsed_line(s).unit matches Some(UnitView::Other(label)) ==> known_label(label)
            && unit_named(label) == UnitView::Other(label),
{
    let ingredient = parsed_line(s);
    let name = ingredient.name->0;
    lemma_line_positions(s);
    if ingredient.unit is Some && ingredient.unit->0 is Other {
        lemma_labels_are_known(unit_word(s)->0);
    }
    let from = name_start(s);
    let to = name_end(s);
    lemma_trimmed(s.subrange(from, to));
    assert forall|i: int| 0 <= i < name.len() implies #[trigger] name[i] != ',' && name[i]
        != '\n' by {
        let j = choose|j: int| 0 <= j < to - from && s.subrange(from, to)[j] == name[i];
        assert(s[from + j] == name[i]);
    }
    if ingredient.instructions is Some {
        let start = instructions_start(s);
        let text = ingredient.instructions->0;
        lemma_skip_whitespace_bounds(s, to + 1);
        lemma_find_char_bounds(s, '\n', start);
        assert forall|i: int| 0 <= i < text.len() implies #[trigger] text[i] != '\n' by {
            assert(text[i] == s[start + i]);
        }
    }
}

/// Where a label has taken "of" from the name, the label has grown by what
/// the name has lost, and the line is written the same.
proof fn lemma_grown_label(
    raw: Seq<char>,
    amount: nat,
    label: Seq<char>,
    name: Seq<char>,
    instructions: Option<Seq<char>>,
)
    requires
        label_runs_on(label, name),
        0 < amount <= u64::MAX,
        rounded(amount) == amount,
        instructions is Some ==> amount % (SCALE as nat) == 0,
    ensures
        formatted(
            IngredientView {
                raw,
                name: Some(name.subrange(3, name.len() as int)),
                amount: Some(amount),
                unit: Some(unit_named(label + seq![' ', 'o', 'f'])),
                instructions,
            },
        ) == written(amount, label, name, instructions),
{
    let longer = label + seq![' ', 'o', 'f'];
    let rest = name.subrange(3, name.len() as int);
    let again = IngredientView {
        raw,
        name: Some(rest),
        amount: Some(amount),
        unit: Some(unit_named(longer)),
        instructions,
    };
    lemma_label_names();
    lemma_longer_labels_are_labels();
    assert("pinch of"@ =~= "pinch"@ + seq![' ', 'o', 'f']);
    assert("handful of"@ =~= "handful"@ + seq![' ', 'o', 'f']);
    assert(unit_named(longer) == UnitView::Other(longer));
    assert(amount * (SCALE as nat) / (SCALE as nat) == amount);
    let (amount_again, unit_again) = canonical(again)->0;
    assert(shown(amount_again, unit_again) == (amount, UnitView::Other(longer)));
    assert(name.subrange(0, 3) == "of "@);
    assert(name =~= seq!['o', 'f', ' '] + rest);
    assert(rendered(amount) + longer + seq![' '] + rest =~= rendered(amount) + label + seq![' ']
        + name);
}

/// Writing a line that was written changes nothing: what is written for a
/// line is a line again, and that line is written as itself. A line without
/// an amount or a unit is written as it stands, and so again. Two kinds of
/// lines are left out, on which this fails. One is where the quantity that
/// is written drifts (see [`lemma_written_quantity_is_stable`]): "0.9996l
/// water" is written as "1000ml water", and that as "1l water". The other
/// is where a label takes "of" from the name and whitespace is lost behind
/// it: "1 pinch  of  salt" is written as "1pinch of  salt", and that as
/// "1pinch of salt".
pub proof fn lemma_written_line_is_stable(s: Seq<char>)
    requires
        is_line(s),
        parsed_line(s).unit matches Some(UnitView::Other(label)) ==> !label_drifts(
            label,
            parsed_line(s).name->0,
        ),
        canonical(parsed_line(s)) is Some ==> ({
            let (amount, unit) = canonical(parsed_line(s))->0;
            let (written, in_unit) = shown(amount, unit);
            &&& written * in_unit.factor() / (SCALE as nat) <= u64::MAX
            &&& !(amount < SCALE && unit.smaller() is Some && written >= 1000 * SCALE)
            &&& !(amount > 1000 * SCALE && unit.larger() is Some && written <= SCALE)
        }),
    ensures
        is_line(formatted(parsed_line(s))),
        formatted(parsed_line(formatted(parsed_line(s)))) == formatted(parsed_line(s)),
{
    let ingredient = parsed_line(s);
    if canonical(ingredient) is Some {
        let (amount, unit) = canonical(ingredient)->0;
        let (shown_amount, shown_unit) = shown(amount, unit);
        let abbreviation = shown_unit.abbreviation();
        let name = ingredient.name->0;
        let instructions = if shown_amount % (SCALE as nat) == 0 {
            ingredient.instructions
        } else {
            None
        };
        let t = formatted(ingredient);
        assert(t =~= written(shown_amount, abbreviation, name, instructions));
        lemma_parts_of_a_line(s);
        assert(metric(abbreviation) || known_label(abbreviation));
        lemma_written_units(abbreviation);
        assert(!label_drifts(abbreviation, name));
        lemma_written_is_read(shown_amount, abbreviation, name, instructions);
        // it is read with the quantity that was written, or with none
        let again = parsed_line(t);
        if again.unit is Some && again.amount is Some {
            lemma_written_quantity_is_stable(ingredient);
            if label_runs_on(abbreviation, name) {
                lemma_grown_label(t, shown_amount, abbreviation, name, instructions);
            } else {
                assert(again.unit == Some(shown_unit)) by {
                    if !(shown_unit is Other) {
                        lemma_metric_names();
                    }
                }
                assert(canonical(again) == canonical(as_written(ingredient)));
                assert(formatted(again) =~= t);
            }
        } else {
            assert(formatted(again) == t);
        }
    }
}

} // verus!

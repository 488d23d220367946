//! The unit model: mass, volume and spoon measures, and free-text labels.
//!
//! Every unit has one factor that converts a quantity in it to the base unit
//! of its family: grams for mass, litres for volume and spoon measures.

use crate::amount::Amount;
use crate::ingredient::{Error, ErrorView};
use crate::text::{chars_of, spells};
use vstd::prelude::*;

verus! {

#[derive(Debug, Clone, Copy, PartialEq, Eq)]
pub enum MassUnit {
    Milligrams,
    Grams,
    Kilograms,
    Pounds,
    Ounces,
}

#[derive(Debug, Clone, Copy, PartialEq, Eq)]
pub enum VolumeUnit {
    Millilitres,
    Litres,
    Teaspoons,
    Tablespoons,
    Cups,
    Pints,
    Quarts,
    Gallons,
}

/// A spoon measure that is not taken as a volume.
#[derive(Debug, Clone, Copy, PartialEq, Eq)]
pub enum SpoonUnit {
    Teaspoons,
    Tablespoons,
}

#[derive(Debug, Clone, PartialEq, Eq)]
pub enum Unit {
    Mass(MassUnit),
    Volume(VolumeUnit),
    Spoon(SpoonUnit),
    /// Something like "small pack", "pinch of" or "handful".
    Other(String),
}

/// A [`Unit`] with the label of `Other` as a sequence of characters.
pub enum UnitView {
    Mass(MassUnit),
    Volume(VolumeUnit),
    Spoon(SpoonUnit),
    Other(Seq<char>),
}

impl View for Unit {
    type V = UnitView;

    open spec fn view(&self) -> UnitView {
        match self {
            Unit::Mass(m) => UnitView::Mass(*m),
            Unit::Volume(v) => UnitView::Volume(*v),
            Unit::Spoon(s) => UnitView::Spoon(*s),
            Unit::Other(label) => UnitView::Other(label@),
        }
    }
}

impl DeepView for Unit {
    type V = UnitView;

    open spec fn deep_view(&self) -> UnitView {
        self@
    }
}

/// The mass unit that `s` names, letter for letter.
pub open spec fn mass_unit_named(s: Seq<char>) -> Option<MassUnit> {
    if s == "mg"@ || s == "milligram"@ || s == "milligrams"@ {
        Some(MassUnit::Milligrams)
    } else if s == "g"@ || s == "gram"@ || s == "grams"@ {
        Some(MassUnit::Grams)
    } else if s == "kg"@ || s == "kilogram"@ || s == "kilograms"@ {
        Some(MassUnit::Kilograms)
    } else if s == "lb"@ || s == "pound"@ || s == "pounds"@ {
        Some(MassUnit::Pounds)
    } else if s == "oz"@ || s == "ounce"@ || s == "ounces"@ {
        Some(MassUnit::Ounces)
    } else {
        None
    }
}

/// The volume unit that `s` names, letter for letter.
pub open spec fn volume_unit_named(s: Seq<char>) -> Option<VolumeUnit> {
    if s == "ml"@ || s == "millilitre"@ || s == "millilitres"@ {
        Some(VolumeUnit::Millilitres)
    } else if s == "l"@ || s == "litre"@ || s == "litres"@ {
        Some(VolumeUnit::Litres)
    } else if s == "tsp"@ || s == "teaspoon"@ || s == "teaspoons"@ {
        Some(VolumeUnit::Teaspoons)
    } else if s == "tbsp"@ || s == "tablespoon"@ || s == "tablespoons"@ {
        Some(VolumeUnit::Tablespoons)
    } else if s == "cup"@ || s == "cups"@ {
        Some(VolumeUnit::Cups)
    } else if s == "pint"@ || s == "pints"@ {
        Some(VolumeUnit::Pints)
    } else if s == "quart"@ || s == "quarts"@ {
        Some(VolumeUnit::Quarts)
    } else if s == "gallon"@ || s == "gallons"@ {
        Some(VolumeUnit::Gallons)
    } else {
        None
    }
}

/// The spoon measure that `s` names, letter for letter.
pub open spec fn spoon_unit_named(s: Seq<char>) -> Option<SpoonUnit> {
    if s == "tsp"@ || s == "teaspoon"@ || s == "teaspoons"@ {
        Some(SpoonUnit::Teaspoons)
    } else if s == "tbsp"@ || s == "tablespoon"@ || s == "tablespoons"@ {
        Some(SpoonUnit::Tablespoons)
    } else {
        None
    }
}

/// The unit that `s` names: a mass unit, else a volume unit, else a spoon
/// measure, else `s` itself as a label.
pub open spec fn unit_named(s: Seq<char>) -> UnitView {
    if mass_unit_named(s) is Some {
        UnitView::Mass(mass_unit_named(s)->0)
    } else if volume_unit_named(s) is Some {
        UnitView::Volume(volume_unit_named(s)->0)
    } else if spoon_unit_named(s) is Some {
        UnitView::Spoon(spoon_unit_named(s)->0)
    } else {
        UnitView::Other(s)
    }
}

impl MassUnit {
    /// How many grams one of this unit is, in billionths.
    pub open spec fn factor(self) -> nat {
        match self {
            MassUnit::Grams => 1_000_000_000,
            MassUnit::Kilograms => 1_000_000_000_000,
            MassUnit::Milligrams => 1_000_000,
            MassUnit::Pounds => 453_592_370_000,
            MassUnit::Ounces => 28_349_523_125,
        }
    }

    /// The next unit down the metric ladder.
    pub open spec fn smaller(self) -> Option<MassUnit> {
        match self {
            MassUnit::Grams => Some(MassUnit::Milligrams),
            MassUnit::Kilograms => Some(MassUnit::Grams),
            _ => None,
        }
    }

    /// The next unit up the metric ladder.
    pub open spec fn larger(self) -> Option<MassUnit> {
        match self {
            MassUnit::Milligrams => Some(MassUnit::Grams),
            MassUnit::Grams => Some(MassUnit::Kilograms),
            _ => None,
        }
    }

    /// The unit's abbreviation.
    pub open spec fn abbreviation(self) -> Seq<char> {
        match self {
            MassUnit::Grams => "g"@,
            MassUnit::Kilograms => "kg"@,
            MassUnit::Milligrams => "mg"@,
            MassUnit::Pounds => "lb"@,
            MassUnit::Ounces => "oz"@,
        }
    }

    pub fn smaller_prefix(&self) -> (r: Option<MassUnit>)
        ensures
            r == self.smaller(),
    {
        match self {
            MassUnit::Milligrams => None,
            MassUnit::Grams => Some(MassUnit::Milligrams),
            MassUnit::Kilograms => Some(MassUnit::Grams),
            MassUnit::Pounds => None,
            MassUnit::Ounces => None,
        }
    }

    pub fn larger_prefix(&self) -> (r: Option<MassUnit>)
        ensures
            r == self.larger(),
    {
        match self {
            MassUnit::Milligrams => Some(MassUnit::Grams),
            MassUnit::Grams => Some(MassUnit::Kilograms),
            MassUnit::Kilograms => None,
            MassUnit::Pounds => None,
            MassUnit::Ounces => None,
        }
    }

    /// The mass unit that `s` names.
    pub fn from_str(s: &str) -> (r: Result<MassUnit, Error>)
        ensures
            match r {
                Ok(u) => mass_unit_named(s@) == Some(u),
                Err(e) => mass_unit_named(s@) is None && e@ == ErrorView::ParsingUnit(s@),
            },
    {
        let c = chars_of(s);
        if spells(&c, "mg") || spells(&c, "milligram") || spells(&c, "milligrams") {
            Ok(MassUnit::Milligrams)
        } else if spells(&c, "g") || spells(&c, "gram") || spells(&c, "grams") {
            Ok(MassUnit::Grams)
        } else if spells(&c, "kg") || spells(&c, "kilogram") || spells(&c, "kilograms") {
            Ok(MassUnit::Kilograms)
        } else if spells(&c, "lb") || spells(&c, "pound") || spells(&c, "pounds") {
            Ok(MassUnit::Pounds)
        } else if spells(&c, "oz") || spells(&c, "ounce") || spells(&c, "ounces") {
            Ok(MassUnit::Ounces)
        } else {
            Err(Error::ParsingUnit(s.to_owned()))
        }
    }

    /// The factor that turns a quantity in this unit into grams.
    pub fn canonicalize(&self) -> (r: Amount)
        ensures
            r@ == self.factor(),
    {
        match self {
            MassUnit::Grams => Amount { units: 1_000_000_000 },
            MassUnit::Kilograms => Amount { units: 1_000_000_000_000 },
            MassUnit::Milligrams => Amount { units: 1_000_000 },
            MassUnit::Pounds => Amount { units: 453_592_370_000 },
            MassUnit::Ounces => Amount { units: 28_349_523_125 },
        }
    }

    /// The unit's abbreviation.
    pub fn to_string(&self) -> (r: String)
        ensures
            r@ == self.abbreviation(),
    {
        match self {
            MassUnit::Grams => "g".to_owned(),
            MassUnit::Kilograms => "kg".to_owned(),
            MassUnit::Milligrams => "mg".to_owned(),
            MassUnit::Pounds => "lb".to_owned(),
            MassUnit::Ounces => "oz".to_owned(),
        }
    }
}

impl VolumeUnit {
    /// How many litres one of this unit is, in billionths.
    pub open spec fn factor(self) -> nat {
        match self {
            VolumeUnit::Millilitres => 1_000_000,
            VolumeUnit::Litres => 1_000_000_000,
            VolumeUnit::Teaspoons => 5_000_000,
            VolumeUnit::Tablespoons => 15_000_000,
            VolumeUnit::Cups => 284_000_000,
            VolumeUnit::Pints => 568_000_000,
            VolumeUnit::Quarts => 946_353_000,
            VolumeUnit::Gallons => 3_785_412_000,
        }
    }

    /// The next unit down the metric ladder.
    pub open spec fn smaller(self) -> Option<VolumeUnit> {
        match self {
            VolumeUnit::Litres => Some(VolumeUnit::Millilitres),
            _ => None,
        }
    }

    /// The next unit up the metric ladder.
    pub open spec fn larger(self) -> Option<VolumeUnit> {
        match self {
            VolumeUnit::Millilitres => Some(VolumeUnit::Litres),
            _ => None,
        }
    }

    /// The unit's abbreviation.
    pub open spec fn abbreviation(self) -> Seq<char> {
        match self {
            VolumeUnit::Millilitres => "ml"@,
            VolumeUnit::Litres => "l"@,
            VolumeUnit::Teaspoons => "tsp"@,
            VolumeUnit::Tablespoons => "tbsp"@,
            VolumeUnit::Cups => "cup"@,
            VolumeUnit::Pints => "pint"@,
            VolumeUnit::Quarts => "quart"@,
            VolumeUnit::Gallons => "gallon"@,
        }
    }

    pub fn smaller_prefix(&self) -> (r: Option<VolumeUnit>)
        ensures
            r == self.smaller(),
    {
        match self {
            VolumeUnit::Millilitres => None,
            VolumeUnit::Litres => Some(VolumeUnit::Millilitres),
            VolumeUnit::Teaspoons => None,
            VolumeUnit::Tablespoons => None,
            VolumeUnit::Cups => None,
            VolumeUnit::Pints => None,
            VolumeUnit::Quarts => None,
            VolumeUnit::Gallons => None,
        }
    }

    pub fn larger_prefix(&self) -> (r: Option<VolumeUnit>)
        ensures
            r == self.larger(),
    {
        match self {
            VolumeUnit::Millilitres => Some(VolumeUnit::Litres),
            VolumeUnit::Litres => None,
            VolumeUnit::Teaspoons => None,
            VolumeUnit::Tablespoons => None,
            VolumeUnit::Cups => None,
            VolumeUnit::Pints => None,
            VolumeUnit::Quarts => None,
            VolumeUnit::Gallons => None,
        }
    }

    /// The factor that turns a quantity in this unit into litres.
    pub fn canonicalize(&self) -> (r: Amount)
        ensures
            r@ == self.factor(),
    {
        match self {
            VolumeUnit::Millilitres => Amount { units: 1_000_000 },
            VolumeUnit::Litres => Amount { units: 1_000_000_000 },
            VolumeUnit::Teaspoons => Amount { units: 5_000_000 },
            VolumeUnit::Tablespoons => Amount { units: 15_000_000 },
            VolumeUnit::Cups => Amount { units: 284_000_000 },
            VolumeUnit::Pints => Amount { units: 568_000_000 },
            VolumeUnit::Quarts => Amount { units: 946_353_000 },
            VolumeUnit::Gallons => Amount { units: 3_785_412_000 },
        }
    }

    /// The volume unit that `s` names.
    pub fn from_str(s: &str) -> (r: Result<VolumeUnit, Error>)
        ensures
            match r {
                Ok(u) => volume_unit_named(s@) == Some(u),
                Err(e) => volume_unit_named(s@) is None && e@ == ErrorView::ParsingUnit(s@),
            },
    {
        let c = chars_of(s);
        if spells(&c, "ml") || spells(&c, "millilitre") || spells(&c, "millilitres") {
            Ok(VolumeUnit::Millilitres)
        } else if spells(&c, "l") || spells(&c, "litre") || spells(&c, "litres") {
            Ok(VolumeUnit::Litres)
        } else if spells(&c, "tsp") || spells(&c, "teaspoon") || spells(&c, "teaspoons") {
            Ok(VolumeUnit::Teaspoons)
        } else if spells(&c, "tbsp") || spells(&c, "tablespoon") || spells(&c, "tablespoons") {
            Ok(VolumeUnit::Tablespoons)
        } else if spells(&c, "cup") || spells(&c, "cups") {
            Ok(VolumeUnit::Cups)
        } else if spells(&c, "pint") || spells(&c, "pints") {
            Ok(VolumeUnit::Pints)
        } else if spells(&c, "quart") || spells(&c, "quarts") {
            Ok(VolumeUnit::Quarts)
        } else if spells(&c, "gallon") || spells(&c, "gallons") {
            Ok(VolumeUnit::Gallons)
        } else {
            Err(Error::ParsingUnit(s.to_owned()))
        }
    }

    /// The unit's abbreviation.
    pub fn to_string(&self) -> (r: String)
        ensures
            r@ == self.abbreviation(),
    {
        match self {
            VolumeUnit::Millilitres => "ml".to_owned(),
            VolumeUnit::Litres => "l".to_owned(),
            VolumeUnit::Teaspoons => "tsp".to_owned(),
            VolumeUnit::Tablespoons => "tbsp".to_owned(),
            VolumeUnit::Cups => "cup".to_owned(),
            VolumeUnit::Pints => "pint".to_owned(),
            VolumeUnit::Quarts => "quart".to_owned(),
            VolumeUnit::Gallons => "gallon".to_owned(),
        }
    }
}

impl SpoonUnit {
    /// How many litres one of this measure is, in billionths.
    pub open spec fn factor(self) -> nat {
        match self {
            SpoonUnit::Teaspoons => 5_000_000,
            SpoonUnit::Tablespoons => 15_000_000,
        }
    }

    /// The measure's abbreviation.
    pub open spec fn abbreviation(self) -> Seq<char> {
        match self {
            SpoonUnit::Teaspoons => "tsp"@,
            SpoonUnit::Tablespoons => "tbsp"@,
        }
    }

    /// The spoon measure that `s` names.
    pub fn from_str(s: &str) -> (r: Result<SpoonUnit, Error>)
        ensures
            match r {
                Ok(u) => spoon_unit_named(s@) == Some(u),
                Err(e) => spoon_unit_named(s@) is None && e@ == ErrorView::ParsingUnit(s@),
            },
    {
        let c = chars_of(s);
        if spells(&c, "tsp") || spells(&c, "teaspoon") || spells(&c, "teaspoons") {
            Ok(SpoonUnit::Teaspoons)
        } else if spells(&c, "tbsp") || spells(&c, "tablespoon") || spells(&c, "tablespoons") {
            Ok(SpoonUnit::Tablespoons)
        } else {
            Err(Error::ParsingUnit(s.to_owned()))
        }
    }

    /// The factor that turns a quantity in this measure into litres.
    pub fn canonicalize(&self) -> (r: Amount)
        ensures
            r@ == self.factor(),
    {
        match self {
            SpoonUnit::Teaspoons => Amount { units: 5_000_000 },
            SpoonUnit::Tablespoons => Amount { units: 15_000_000 },
        }
    }

    /// The measure's abbreviation.
    pub fn to_string(&self) -> (r: String)
        ensures
            r@ == self.abbreviation(),
    {
        match self {
            SpoonUnit::Teaspoons => "tsp".to_owned(),
            SpoonUnit::Tablespoons => "tbsp".to_owned(),
        }
    }
}

impl UnitView {
    /// The factor that turns a quantity in this unit into the base unit of
    /// its family, in billionths; one for a label.
    pub open spec fn factor(self) -> nat {
        match self {
            UnitView::Mass(m) => m.factor(),
            UnitView::Volume(v) => v.factor(),
            UnitView::Spoon(s) => s.factor(),
            UnitView::Other(_) => 1_000_000_000,
        }
    }

    /// The base unit of the unit's family: grams for mass, litres for volume
    /// and spoon measures, a label itself.
    pub open spec fn canonical(self) -> UnitView {
        match self {
            UnitView::Mass(_) => UnitView::Mass(MassUnit::Grams),
            UnitView::Volume(_) => UnitView::Volume(VolumeUnit::Litres),
            UnitView::Spoon(_) => UnitView::Volume(VolumeUnit::Litres),
            UnitView::Other(label) => UnitView::Other(label),
        }
    }

    /// The next unit down the ladder, where the unit stands on one.
    pub open spec fn smaller(self) -> Option<UnitView> {
        match self {
            UnitView::Mass(m) => match m.smaller() {
                Some(s) => Some(UnitView::Mass(s)),
                None => None,
            },
            UnitView::Volume(v) => match v.smaller() {
                Some(s) => Some(UnitView::Volume(s)),
                None => None,
            },
            _ => None,
        }
    }

    /// The next unit up the ladder, where the unit stands on one.
    pub open spec fn larger(self) -> Option<UnitView> {
        match self {
            UnitView::Mass(m) => match m.larger() {
                Some(l) => Some(UnitView::Mass(l)),
                None => None,
            },
            UnitView::Volume(v) => match v.larger() {
                Some(l) => Some(UnitView::Volume(l)),
                None => None,
            },
            _ => None,
        }
    }

    /// What is written for the unit: its abbreviation, or the label.
    pub open spec fn abbreviation(self) -> Seq<char> {
        match self {
            UnitView::Mass(m) => m.abbreviation(),
            UnitView::Volume(v) => v.abbreviation(),
            UnitView::Spoon(s) => s.abbreviation(),
            UnitView::Other(label) => label,
        }
    }
}

/// The two ladders are inverse to each other: a unit steps up to another
/// exactly where that one steps down to it. Only milligrams, grams and
/// kilograms, and millilitres and litres, stand on a ladder.
pub proof fn lemma_ladders_are_inverse(unit: UnitView, other: UnitView)
    ensures
        unit.larger() == Some(other) <==> other.smaller() == Some(unit),
        unit.larger() is Some <==> unit == UnitView::Mass(MassUnit::Milligrams) || unit
            == UnitView::Mass(MassUnit::Grams) || unit == UnitView::Volume(
            VolumeUnit::Millilitres,
        ),
        unit.smaller() is Some <==> unit == UnitView::Mass(MassUnit::Kilograms) || unit
            == UnitView::Mass(MassUnit::Grams) || unit == UnitView::Volume(VolumeUnit::Litres),
{
}

/// `found` as a view.
pub open spec fn unit_view_of(found: Option<Unit>) -> Option<UnitView> {
    match found {
        Some(u) => Some(u@),
        None => None,
    }
}

impl Unit {
    /// The base unit of the unit's family.
    pub fn canonical_unit(&self) -> (r: Unit)
        ensures
            r@ == self@.canonical(),
    {
        match self {
            Unit::Mass(_) => Unit::Mass(MassUnit::Grams),
            Unit::Volume(_) => Unit::Volume(VolumeUnit::Litres),
            Unit::Spoon(_) => Unit::Volume(VolumeUnit::Litres),
            Unit::Other(label) => Unit::Other(label.clone()),
        }
    }

    /// The next unit down the ladder, where the unit stands on one.
    pub fn smaller_prefix(&self) -> (r: Option<Unit>)
        ensures
            unit_view_of(r) == self@.smaller(),
    {
        match self {
            Unit::Mass(mass) => match mass.smaller_prefix() {
                Some(m) => Some(Unit::Mass(m)),
                None => None,
            },
            Unit::Volume(volume) => match volume.smaller_prefix() {
                Some(v) => Some(Unit::Volume(v)),
                None => None,
            },
            Unit::Spoon(_) => None,
            Unit::Other(_) => None,
        }
    }

    /// The next unit up the ladder, where the unit stands on one.
    pub fn larger_prefix(&self) -> (r: Option<Unit>)
        ensures
            unit_view_of(r) == self@.larger(),
    {
        match self {
            Unit::Mass(mass) => match mass.larger_prefix() {
                Some(m) => Some(Unit::Mass(m)),
                None => None,
            },
            Unit::Volume(volume) => match volume.larger_prefix() {
                Some(v) => Some(Unit::Volume(v)),
                None => None,
            },
            Unit::Spoon(_) => None,
            Unit::Other(_) => None,
        }
    }

    /// The factor that turns a quantity in this unit into the base unit of
    /// its family.
    pub fn canonicalize(&self) -> (r: Amount)
        ensures
            r@ == self@.factor(),
    {
        match self {
            Unit::Mass(mass) => mass.canonicalize(),
            Unit::Volume(volume) => volume.canonicalize(),
            Unit::Spoon(spoon) => spoon.canonicalize(),
            Unit::Other(_) => Amount { units: 1_000_000_000 },
        }
    }

    /// The unit that `s` names. A token that names no known unit is kept as
    /// a label, so this never fails.
    pub fn from_str(s: &str) -> (r: Result<Unit, Error>)
        ensures
            r matches Ok(u) && u@ == unit_named(s@),
    {
        if let Ok(mass) = MassUnit::from_str(s) {
            Ok(Unit::Mass(mass))
        } else if let Ok(volume) = VolumeUnit::from_str(s) {
            Ok(Unit::Volume(volume))
        } else if let Ok(spoon) = SpoonUnit::from_str(s) {
            Ok(Unit::Spoon(spoon))
        } else {
            Ok(Unit::Other(s.to_owned()))
        }
    }

    /// What is written for the unit: its abbreviation, or the label.
    pub fn to_string(&self) -> (r: String)
        ensures
            r@ == self@.abbreviation(),
    {
        match self {
            Unit::Mass(mass) => mass.to_string(),
            Unit::Volume(volume) => volume.to_string(),
            Unit::Spoon(spoon) => spoon.to_string(),
            Unit::Other(other) => other.clone(),
        }
    }
}

} // verus!

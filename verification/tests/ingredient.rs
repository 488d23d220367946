use recipe_scrape::amount::Amount;
use recipe_scrape::ingredient::{Error, ScrapedIngredient};
use recipe_scrape::unit::{MassUnit, SpoonUnit, Unit, VolumeUnit};

/// The amount nearest to `value`.
fn amount(value: f64) -> Amount {
    Amount { units: (value * 1e9).round() as u64 }
}

#[test]
fn parse() {
    let cases = [
        (
            "1/2 cup sugar",
            ScrapedIngredient {
                raw: "1/2 cup sugar".to_string(),
                name: Some("sugar".to_string()),
                amount: Some(amount(0.5)),
                unit: Some(Unit::Volume(VolumeUnit::Cups)),
                instructions: None,
            },
        ),
        (
            "1 tomato, chopped",
            ScrapedIngredient {
                raw: "1 tomato, chopped".to_string(),
                name: Some("tomato".to_string()),
                amount: Some(amount(1.0)),
                unit: None,
                instructions: Some("chopped".to_string()),
            },
        ),
        (
            "200g cashews",
            ScrapedIngredient {
                raw: "200g cashews".to_string(),
                name: Some("cashews".to_string()),
                amount: Some(amount(200.0)),
                unit: Some(Unit::Mass(MassUnit::Grams)),
                instructions: None,
            },
        ),
        (
            "100ml milk",
            ScrapedIngredient {
                raw: "100ml milk".to_string(),
                name: Some("milk".to_string()),
                amount: Some(amount(100.0)),
                unit: Some(Unit::Volume(VolumeUnit::Millilitres)),
                instructions: None,
            },
        ),
        (
            "400g rigatoni or penne",
            ScrapedIngredient {
                raw: "400g rigatoni or penne".to_string(),
                name: Some("rigatoni or penne".to_string()),
                amount: Some(amount(400.0)),
                unit: Some(Unit::Mass(MassUnit::Grams)),
                instructions: None,
            },
        ),
        (
            "4 garlic cloves, sliced",
            ScrapedIngredient {
                raw: "4 garlic cloves, sliced".to_string(),
                name: Some("garlic cloves".to_string()),
                amount: Some(amount(4.0)),
                unit: None,
                instructions: Some("sliced".to_string()),
            },
        ),
        (
            "125g ball mozzarella, chopped into chunks",
            ScrapedIngredient {
                raw: "125g ball mozzarella, chopped into chunks".to_string(),
                name: Some("ball mozzarella".to_string()),
                amount: Some(amount(125.0)),
                unit: Some(Unit::Mass(MassUnit::Grams)),
                instructions: Some("chopped into chunks".to_string()),
            },
        ),
        (
            "¼ white cabbage, finely shredded",
            ScrapedIngredient {
                raw: "¼ white cabbage, finely shredded".to_string(),
                name: Some("white cabbage".to_string()),
                amount: Some(amount(0.25)),
                unit: None,
                instructions: Some("finely shredded".to_string()),
            },
        ),
        (
            "0.8kg lamb, shoulder or leg, cut into large chunks",
            ScrapedIngredient {
                raw: "0.8kg lamb, shoulder or leg, cut into large chunks".to_string(),
                // Can't really do anything about the "shoulder or leg" part.
                name: Some("lamb".to_string()),
                amount: Some(amount(0.8)),
                unit: Some(Unit::Mass(MassUnit::Kilograms)),
                instructions: Some("shoulder or leg, cut into large chunks".to_string()),
            },
        ),
        (
            "tomato ketchup, to serve (optional)",
            ScrapedIngredient {
                raw: "tomato ketchup, to serve (optional)".to_string(),
                name: Some("tomato ketchup".to_string()),
                amount: None,
                unit: None,
                instructions: Some("to serve (optional)".to_string()),
            },
        ),
    ];

    for (input, expected) in cases.iter() {
        let actual = input.parse::<ScrapedIngredient>().unwrap();
        assert_eq!(actual, *expected);
    }
}

#[test]
fn display() {
    let cases = [
        (
            ScrapedIngredient {
                raw: "1/2 cup sugar".to_string(),
                name: Some("sugar".to_string()),
                amount: Some(amount(0.5)),
                unit: Some(Unit::Volume(VolumeUnit::Cups)),
                instructions: None,
            },
            "142ml sugar", // a cup is taken as a volume
        ),
        (
            ScrapedIngredient {
                raw: "1 tomato, chopped".to_string(),
                name: Some("tomato".to_string()),
                amount: Some(amount(1.0)),
                unit: None,
                instructions: Some("chopped".to_string()),
            },
            "1 tomato, chopped",
        ),
        (
            ScrapedIngredient {
                raw: "200g cashews".to_string(),
                name: Some("cashews".to_string()),
                amount: Some(amount(200.0)),
                unit: Some(Unit::Mass(MassUnit::Grams)),
                instructions: None,
            },
            "200g cashews",
        ),
        (
            ScrapedIngredient {
                raw: "100ml milk".to_string(),
                name: Some("milk".to_string()),
                amount: Some(amount(100.0)),
                unit: Some(Unit::Volume(VolumeUnit::Millilitres)),
                instructions: None,
            },
            "100ml milk",
        ),
        (
            ScrapedIngredient {
                raw: "400g rigatoni or penne".to_string(),
                name: Some("rigatoni or penne".to_string()),
                amount: Some(amount(400.0)),
                unit: Some(Unit::Mass(MassUnit::Grams)),
                instructions: None,
            },
            "400g rigatoni or penne",
        ),
        (
            ScrapedIngredient {
                raw: "4 garlic cloves, sliced".to_string(),
                name: Some("garlic cloves".to_string()),
                amount: Some(amount(4.0)),
                unit: None,
                instructions: Some("sliced".to_string()),
            },
            "4 garlic cloves, sliced",
        ),
        (
            ScrapedIngredient {
                raw: "125g ball mozzarella, chopped into chunks".to_string(),
                name: Some("ball mozzarella".to_string()),
                amount: Some(amount(125.0)),
                unit: Some(Unit::Mass(MassUnit::Grams)),
                instructions: Some("chopped into chunks".to_string()),
            },
            "125g ball mozzarella, chopped into chunks",
        ),
        (
            ScrapedIngredient {
                raw: "¼ white cabbage, finely shredded".to_string(),
                name: Some("white cabbage".to_string()),
                amount: Some(amount(0.25)),
                unit: None,
                instructions: Some("finely shredded".to_string()),
            },
            "¼ white cabbage, finely shredded",
        ),
        (
            ScrapedIngredient {
                raw: "0.8kg lamb, shoulder or leg, cut into large chunks".to_string(),
                // Can't really do anything about the "shoulder or leg" part.
                name: Some("lamb".to_string()),
                amount: Some(amount(0.8)),
                unit: Some(Unit::Mass(MassUnit::Kilograms)),
                instructions: Some("shoulder or leg, cut into large chunks".to_string()),
            },
            "800g lamb, shoulder or leg, cut into large chunks",
        ),
        (
            ScrapedIngredient {
                raw: "tomato ketchup, to serve (optional)".to_string(),
                name: Some("tomato ketchup".to_string()),
                amount: None,
                unit: None,
                instructions: Some("to serve (optional)".to_string()),
            },
            "tomato ketchup, to serve (optional)",
        ),
    ];

    for (input, expected) in cases.iter() {
        let actual = input.to_string();
        assert_eq!(actual, *expected);
    }
}

#[test]
fn round_trip() {
    let cases = [
        ("1/2 cup sugar", "142ml sugar"),
        ("1 tomato, chopped", "1 tomato, chopped"),
        ("200g cashews", "200g cashews"),
        ("100ml milk", "100ml milk"),
        ("400g rigatoni or penne", "400g rigatoni or penne"),
        ("4 garlic cloves, sliced", "4 garlic cloves, sliced"),
        (
            "125g ball mozzarella, chopped into chunks",
            "125g ball mozzarella, chopped into chunks",
        ),
        (
            "¼ white cabbage, finely shredded",
            "¼ white cabbage, finely shredded",
        ),
        (
            "0.8kg lamb, shoulder or leg, cut into large chunks",
            "800g lamb, shoulder or leg, cut into large chunks",
        ),
        (
            "tomato ketchup, to serve (optional)",
            "tomato ketchup, to serve (optional)",
        ),
        ("6 oz cream cheese, cold", "170g cream cheese, cold"),
        ("½ teaspoon ground ginger", "2.5ml ground ginger"),
    ];
    for (input, expected) in cases.iter() {
        let actual = input.parse::<ScrapedIngredient>().unwrap().to_string();
        assert_eq!(actual, *expected);
    }
}

#[test]
fn glyphs_are_read_as_their_decimals() {
    let cases = [
        ("¼", 0.25),
        ("½", 0.5),
        ("¾", 0.75),
        ("⅓", 0.33),
        ("⅔", 0.66),
        ("⅛", 0.125),
        ("⅜", 0.375),
        ("⅝", 0.625),
        ("⅞", 0.875),
        ("⅙", 0.166),
        ("⅚", 0.833),
        ("⅕", 0.2),
        ("⅖", 0.4),
        ("⅗", 0.6),
        ("⅘", 0.8),
    ];
    for (glyph, value) in cases.iter() {
        assert_eq!(Amount::from_str(glyph).unwrap(), amount(*value), "{}", glyph);
        let padded = format!(" {}\t", glyph);
        assert_eq!(Amount::from_str(&padded).unwrap(), amount(*value), "{}", glyph);
    }
    assert_eq!(Amount::from_str("⅓").unwrap().units, 330_000_000);
    assert!(Amount::from_str("½½").is_err());
}

#[test]
fn zero_negative_and_words_are_no_amounts() {
    for token in ["0", "-1", "abc"] {
        match Amount::from_str(token) {
            Err(Error::ParsingAmount(t)) => assert_eq!(t, token),
            other => panic!("{:?} was read as {:?}", token, other),
        }
    }
    for token in ["", " ", ".", "+", "0.0", "0/2", "1/0", "1/", "/2", "1/2/3", "1.2.3", "1e3", "inf", "0.0000000001"] {
        assert!(Amount::from_str(token).is_err(), "{:?}", token);
    }
}

#[test]
fn amounts_are_read_exactly() {
    let cases: [(&str, u64); 14] = [
        ("1", 1_000_000_000),
        ("0.8", 800_000_000),
        ("200", 200_000_000_000),
        (" 2.5 ", 2_500_000_000),
        ("+1", 1_000_000_000),
        (".5", 500_000_000),
        ("5.", 5_000_000_000),
        ("007", 7_000_000_000),
        ("0.000000001", 1),
        ("0.1234567899", 123_456_789),
        ("1/2", 500_000_000),
        ("1 / 4", 250_000_000),
        ("1/3", 333_333_333),
        ("1.5/0.5", 3_000_000_000),
    ];
    for (token, units) in cases.iter() {
        assert_eq!(Amount::from_str(token).unwrap().units, *units, "{:?}", token);
    }
    assert_eq!(Amount::from_str("18446744073.709551615").unwrap().units, u64::MAX);
    assert!(Amount::from_str("18446744073.709551616").is_err());
    assert!(Amount::from_str("99999999999999999999999999").is_err());
    assert!(Amount::from_str("18446744073/0.000000001").is_err());
}

#[test]
fn amounts_are_written_as_decimals() {
    let cases: [(u64, &str); 8] = [
        (0, "0"),
        (1, "0.000000001"),
        (2_500_000_000, "2.5"),
        (142_000_000_000, "142"),
        (1_420_000_000, "1.42"),
        (10_000_000_000, "10"),
        (2_500_000, "0.0025"),
        (u64::MAX, "18446744073.709551615"),
    ];
    for (units, text) in cases.iter() {
        let amount = Amount { units: *units };
        assert_eq!(amount.to_string(), *text);
        assert_eq!(amount.is_whole(), !text.contains('.'));
    }
}

#[test]
fn products_are_cut_off_and_held() {
    let six = Amount { units: 6_000_000_000 };
    let ounce = Amount { units: 28_349_523_125 };
    assert_eq!(six.scaled(ounce).units, 170_097_138_750);
    let third = Amount { units: 333_333_333 };
    let cup = Amount { units: 284_000_000 };
    assert_eq!(third.scaled(cup).units, 94_666_666);
    let most = Amount { units: u64::MAX };
    assert_eq!(most.scaled(Amount { units: 1_000_000_000_000 }).units, u64::MAX);
    assert_eq!(most.scaled(Amount { units: 1_000_000_000 }).units, u64::MAX);
}

#[test]
fn units_are_named_letter_for_letter() {
    let mass = [
        ("mg", MassUnit::Milligrams),
        ("milligram", MassUnit::Milligrams),
        ("milligrams", MassUnit::Milligrams),
        ("g", MassUnit::Grams),
        ("gram", MassUnit::Grams),
        ("grams", MassUnit::Grams),
        ("kg", MassUnit::Kilograms),
        ("kilogram", MassUnit::Kilograms),
        ("kilograms", MassUnit::Kilograms),
        ("lb", MassUnit::Pounds),
        ("pound", MassUnit::Pounds),
        ("pounds", MassUnit::Pounds),
        ("oz", MassUnit::Ounces),
        ("ounce", MassUnit::Ounces),
        ("ounces", MassUnit::Ounces),
    ];
    for (name, unit) in mass.iter() {
        assert_eq!(MassUnit::from_str(name).unwrap(), *unit);
        assert_eq!(Unit::from_str(name).unwrap(), Unit::Mass(*unit));
    }
    let volume = [
        ("ml", VolumeUnit::Millilitres),
        ("millilitre", VolumeUnit::Millilitres),
        ("millilitres", VolumeUnit::Millilitres),
        ("l", VolumeUnit::Litres),
        ("litre", VolumeUnit::Litres),
        ("litres", VolumeUnit::Litres),
        ("tsp", VolumeUnit::Teaspoons),
        ("teaspoon", VolumeUnit::Teaspoons),
        ("teaspoons", VolumeUnit::Teaspoons),
        ("tbsp", VolumeUnit::Tablespoons),
        ("tablespoon", VolumeUnit::Tablespoons),
        ("tablespoons", VolumeUnit::Tablespoons),
        ("cup", VolumeUnit::Cups),
        ("cups", VolumeUnit::Cups),
        ("pint", VolumeUnit::Pints),
        ("pints", VolumeUnit::Pints),
        ("quart", VolumeUnit::Quarts),
        ("quarts", VolumeUnit::Quarts),
        ("gallon", VolumeUnit::Gallons),
        ("gallons", VolumeUnit::Gallons),
    ];
    for (name, unit) in volume.iter() {
        assert_eq!(VolumeUnit::from_str(name).unwrap(), *unit);
        assert_eq!(Unit::from_str(name).unwrap(), Unit::Volume(*unit));
    }
    assert_eq!(SpoonUnit::from_str("tsp").unwrap(), SpoonUnit::Teaspoons);
    assert_eq!(SpoonUnit::from_str("teaspoons").unwrap(), SpoonUnit::Teaspoons);
    assert_eq!(SpoonUnit::from_str("tbsp").unwrap(), SpoonUnit::Tablespoons);
    assert_eq!(SpoonUnit::from_str("tablespoon").unwrap(), SpoonUnit::Tablespoons);
    assert_eq!(Unit::from_str("pinch of").unwrap(), Unit::Other("pinch of".to_string()));
    assert_eq!(Unit::from_str("G").unwrap(), Unit::Other("G".to_string()));
    assert_eq!(Unit::from_str(" g").unwrap(), Unit::Other(" g".to_string()));
    assert_eq!(Unit::from_str("").unwrap(), Unit::Other(String::new()));
    for name in ["G", "gr", "", "cup"] {
        match MassUnit::from_str(name) {
            Err(Error::ParsingUnit(t)) => assert_eq!(t, name),
            other => panic!("{:?} was read as {:?}", name, other),
        }
    }
    assert!(matches!(VolumeUnit::from_str("kg"), Err(Error::ParsingUnit(_))));
    assert!(matches!(SpoonUnit::from_str("cup"), Err(Error::ParsingUnit(_))));
}

#[test]
fn units_have_their_factors_and_ladders() {
    let mass = [
        (MassUnit::Milligrams, 1_000_000, "mg", None, Some(MassUnit::Grams)),
        (MassUnit::Grams, 1_000_000_000, "g", Some(MassUnit::Milligrams), Some(MassUnit::Kilograms)),
        (MassUnit::Kilograms, 1_000_000_000_000, "kg", Some(MassUnit::Grams), None),
        (MassUnit::Pounds, 453_592_370_000, "lb", None, None),
        (MassUnit::Ounces, 28_349_523_125, "oz", None, None),
    ];
    for (unit, factor, text, smaller, larger) in mass.iter() {
        assert_eq!(unit.canonicalize().units, *factor);
        assert_eq!(unit.to_string(), *text);
        assert_eq!(unit.smaller_prefix(), *smaller);
        assert_eq!(unit.larger_prefix(), *larger);
        let whole = Unit::Mass(*unit);
        assert_eq!(whole.canonicalize().units, *factor);
        assert_eq!(whole.to_string(), *text);
        assert_eq!(whole.canonical_unit(), Unit::Mass(MassUnit::Grams));
        assert_eq!(whole.smaller_prefix(), smaller.map(Unit::Mass));
        assert_eq!(whole.larger_prefix(), larger.map(Unit::Mass));
    }
    let volume = [
        (VolumeUnit::Millilitres, 1_000_000, "ml", None, Some(VolumeUnit::Litres)),
        (VolumeUnit::Litres, 1_000_000_000, "l", Some(VolumeUnit::Millilitres), None),
        (VolumeUnit::Teaspoons, 5_000_000, "tsp", None, None),
        (VolumeUnit::Tablespoons, 15_000_000, "tbsp", None, None),
        (VolumeUnit::Cups, 284_000_000, "cup", None, None),
        (VolumeUnit::Pints, 568_000_000, "pint", None, None),
        (VolumeUnit::Quarts, 946_353_000, "quart", None, None),
        (VolumeUnit::Gallons, 3_785_412_000, "gallon", None, None),
    ];
    for (unit, factor, text, smaller, larger) in volume.iter() {
        assert_eq!(unit.canonicalize().units, *factor);
        assert_eq!(unit.to_string(), *text);
        assert_eq!(unit.smaller_prefix(), *smaller);
        assert_eq!(unit.larger_prefix(), *larger);
        let whole = Unit::Volume(*unit);
        assert_eq!(whole.canonicalize().units, *factor);
        assert_eq!(whole.to_string(), *text);
        assert_eq!(whole.canonical_unit(), Unit::Volume(VolumeUnit::Litres));
        assert_eq!(whole.smaller_prefix(), smaller.map(Unit::Volume));
        assert_eq!(whole.larger_prefix(), larger.map(Unit::Volume));
    }
    for (unit, factor, text) in [(SpoonUnit::Teaspoons, 5_000_000, "tsp"), (SpoonUnit::Tablespoons, 15_000_000, "tbsp")] {
        assert_eq!(unit.canonicalize().units, factor);
        assert_eq!(unit.to_string(), text);
        let whole = Unit::Spoon(unit);
        assert_eq!(whole.canonicalize().units, factor);
        assert_eq!(whole.to_string(), text);
        assert_eq!(whole.canonical_unit(), Unit::Volume(VolumeUnit::Litres));
        assert_eq!(whole.smaller_prefix(), None);
        assert_eq!(whole.larger_prefix(), None);
    }
    let pack = Unit::Other("small pack".to_string());
    assert_eq!(pack.canonicalize().units, 1_000_000_000);
    assert_eq!(pack.to_string(), "small pack");
    assert_eq!(pack.canonical_unit(), pack);
    assert_eq!(pack.smaller_prefix(), None);
    assert_eq!(pack.larger_prefix(), None);
}

#[test]
fn a_line_without_a_comma_has_no_instructions() {
    let cases = [
        ("400g rigatoni or penne", "rigatoni or penne"),
        ("2  tbsp   olive oil  ", "olive oil"),
        ("  2  tbsp   olive oil  ", "2  tbsp   olive oil"),
        ("1 cup \nsugar", "sugar"),
        ("\n", ""),
        ("salt", "salt"),
        ("3 x large eggs", "large eggs"),
        ("1 xylitol", "ylitol"),
        ("", ""),
        ("2 litres water", "litres water"),
        ("1 pinch of salt", "salt"),
        ("1 pinch  of salt", "of salt"),
        ("1 kilogram flour", "kilogram flour"),
        ("1\n tomato", "tomato"),
    ];
    for (line, name) in cases.iter() {
        let ingredient = ScrapedIngredient::from_str(line).unwrap();
        assert_eq!(ingredient.raw, *line);
        assert_eq!(ingredient.name.as_deref(), Some(*name), "{:?}", line);
        assert_eq!(ingredient.instructions, None, "{:?}", line);
    }
}

#[test]
fn lines_are_split_at_the_first_comma() {
    let ingredient = ScrapedIngredient::from_str("2 small pack basil,\n  leaves picked, stalks chopped").unwrap();
    assert_eq!(ingredient.amount, Some(amount(2.0)));
    assert_eq!(ingredient.unit, Some(Unit::Other("small pack".to_string())));
    assert_eq!(ingredient.name.as_deref(), Some("basil"));
    assert_eq!(ingredient.instructions.as_deref(), Some("leaves picked, stalks chopped"));
    let ingredient = ScrapedIngredient::from_str("½1 sugar ,").unwrap();
    assert_eq!(ingredient.amount, None);
    assert_eq!(ingredient.unit, None);
    assert_eq!(ingredient.name.as_deref(), Some("sugar"));
    assert_eq!(ingredient.instructions.as_deref(), Some(""));
    let ingredient = ScrapedIngredient::from_str("200g").unwrap();
    assert_eq!(ingredient.amount, Some(amount(200.0)));
    assert_eq!(ingredient.unit, None);
    assert_eq!(ingredient.name.as_deref(), Some("g"));
}

#[test]
fn a_line_feed_in_name_or_instructions_is_no_match() {
    for line in ["tomato\nketchup", "1 tomato, chopped\nfine", "1 cup  \nsugar", "a,\nb\nc", "y\n"] {
        match ScrapedIngredient::from_str(line) {
            Err(Error::NoMatch(ingredient)) => {
                assert_eq!(
                    ingredient,
                    ScrapedIngredient {
                        raw: line.to_string(),
                        name: None,
                        amount: None,
                        unit: None,
                        instructions: None,
                    }
                );
            }
            other => panic!("{:?} was read as {:?}", line, other),
        }
        assert!(line.parse::<ScrapedIngredient>().is_err());
    }
}

#[test]
fn canonical_amounts_are_in_the_base_unit() {
    let ingredient = ScrapedIngredient::from_str("6 oz cream cheese, cold").unwrap();
    assert_eq!(
        ingredient.canonicalize(),
        Some((Amount { units: 170_097_138_750 }, Unit::Mass(MassUnit::Grams)))
    );
    let ingredient = ScrapedIngredient::from_str("1/2 cup sugar").unwrap();
    assert_eq!(
        ingredient.canonicalize(),
        Some((Amount { units: 142_000_000 }, Unit::Volume(VolumeUnit::Litres)))
    );
    let ingredient = ScrapedIngredient::from_str("1 tomato, chopped").unwrap();
    assert_eq!(ingredient.canonicalize(), None);
    let spoon = ScrapedIngredient {
        raw: "2 tsp salt".to_string(),
        name: Some("salt".to_string()),
        amount: Some(amount(2.0)),
        unit: Some(Unit::Spoon(SpoonUnit::Teaspoons)),
        instructions: None,
    };
    assert_eq!(
        spoon.canonicalize(),
        Some((Amount { units: 10_000_000 }, Unit::Volume(VolumeUnit::Litres)))
    );
    assert_eq!(spoon.to_string(), "10ml salt");
}

#[test]
fn amounts_are_rescaled_and_rounded_for_writing() {
    let cases = [
        ("1500g flour, sifted", "1.5kg flour"),
        ("0.9996 l water", "1000ml water"),
        ("1000ml water", "1l water"),
        ("0.0005 g saffron", "0.5mg saffron"),
        ("10.5 g yeast, fresh", "11g yeast, fresh"),
        ("10 g yeast, fresh", "10g yeast, fresh"),
        ("10.4 g yeast", "10g yeast"),
        ("2.5 g salt, fine", "2.5g salt"),
        ("2000 l water", "2000l water"),
        ("12000 kg sand", "12000kg sand"),
        ("2 large pack crisps", "2large pack crisps"),
        ("5 cup milk", "1.42l milk"),
        ("1/3 cup milk", "95ml milk"),
        ("5 g ", "5g "),
        ("5 g salt,", "5g salt, "),
    ];
    for (line, written) in cases.iter() {
        let ingredient = ScrapedIngredient::from_str(line).unwrap();
        assert_eq!(ingredient.to_string(), *written, "{:?}", line);
    }
    let nameless = ScrapedIngredient {
        raw: "as it was".to_string(),
        name: None,
        amount: Some(amount(1.0)),
        unit: Some(Unit::Mass(MassUnit::Grams)),
        instructions: None,
    };
    assert_eq!(nameless.to_string(), "as it was");
}

#[test]
fn the_ladders_are_inverse() {
    let mass = [
        MassUnit::Milligrams,
        MassUnit::Grams,
        MassUnit::Kilograms,
        MassUnit::Pounds,
        MassUnit::Ounces,
    ];
    for unit in mass.iter() {
        for other in mass.iter() {
            assert_eq!(
                unit.larger_prefix() == Some(*other),
                other.smaller_prefix() == Some(*unit)
            );
        }
    }
    assert_eq!(MassUnit::Pounds.larger_prefix(), None);
    assert_eq!(Unit::Mass(MassUnit::Pounds).larger_prefix(), None);
    assert_eq!(Unit::Mass(MassUnit::Ounces).smaller_prefix(), None);
    assert_eq!(
        Unit::Volume(VolumeUnit::Millilitres).larger_prefix(),
        Some(Unit::Volume(VolumeUnit::Litres))
    );
    assert_eq!(
        Unit::Volume(VolumeUnit::Litres).smaller_prefix(),
        Some(Unit::Volume(VolumeUnit::Millilitres))
    );
}

#[test]
fn a_label_may_take_of_from_the_name() {
    let once = ScrapedIngredient::from_str("1 pinch  of salt").unwrap();
    assert_eq!(once.unit, Some(Unit::Other("pinch".to_string())));
    assert_eq!(once.name.as_deref(), Some("of salt"));
    assert_eq!(once.to_string(), "1pinch of salt");
    let twice = ScrapedIngredient::from_str("1pinch of salt").unwrap();
    assert_eq!(twice.unit, Some(Unit::Other("pinch of".to_string())));
    assert_eq!(twice.name.as_deref(), Some("salt"));
    assert_eq!(twice.to_string(), "1pinch of salt");
    let once = ScrapedIngredient::from_str("2 handful  of\u{a0}nuts, chopped").unwrap();
    let twice = ScrapedIngredient::from_str(&once.to_string()).unwrap();
    assert_eq!(once.to_string(), "2handful of\u{a0}nuts, chopped");
    assert_eq!(twice.to_string(), once.to_string());
    let drifting = ScrapedIngredient::from_str("1 pinch  of  salt").unwrap();
    assert_eq!(drifting.to_string(), "1pinch of  salt");
    let drifted = ScrapedIngredient::from_str("1pinch of  salt").unwrap();
    assert_eq!(drifted.to_string(), "1pinch of salt");
}

#[test]
fn writing_a_written_line_again_changes_nothing() {
    let lines = [
        "1/2 cup sugar",
        "1 tomato, chopped",
        "200g cashews",
        "0.8kg lamb, shoulder or leg, cut into large chunks",
        "6 oz cream cheese, cold",
        "½ teaspoon ground ginger",
        "1500g flour, sifted",
        "0.0005 g saffron",
        "1 pinch  of salt",
        "2 large pack crisps",
        "5 cup milk",
        "10.5 g yeast, fresh",
        "5 g salt,",
    ];
    for line in lines.iter() {
        let once = ScrapedIngredient::from_str(line).unwrap().to_string();
        let twice = ScrapedIngredient::from_str(&once).unwrap().to_string();
        assert_eq!(twice, once, "{:?}", line);
    }
}

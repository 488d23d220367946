use recipe_scrape::duration::Duration;
use recipe_scrape::ingredient::{Error as IngredientError, ScrapedIngredient};
use recipe_scrape::scraper::bbc_good_food::{BBCGoodFoodRecipe, BBCGoodFoodScraper, Image, Yield};
use recipe_scrape::scraper::{
    dispatch, find_recipe, Adapter, DummyScraper, Error, Event, Payload, Registry,
    Request, Scrape, Scraper, Stage, State, Step,
};
use recipe_scrape::ScrapedRecipe;

/// The duration that `text` writes, each designator in thousandths.
fn duration(text: &str) -> Duration {
    let parsed: iso8601_duration::Duration = text.parse().unwrap();
    let thousandths = |value: f32| (value as f64 * 1000.0).round() as u64;
    Duration {
        year: thousandths(parsed.year),
        month: thousandths(parsed.month),
        day: thousandths(parsed.day),
        hour: thousandths(parsed.hour),
        minute: thousandths(parsed.minute),
        second: thousandths(parsed.second),
    }
}

fn sausage_pasta_bake() -> BBCGoodFoodRecipe {
    BBCGoodFoodRecipe {
        name: "Sausage pasta bake".to_string(),
        description: "A family favourite".to_string(),
        cook_time: duration("PT1H30M"),
        prep_time: duration("PT30M"),
        recipe_yield: Yield::Number(4),
        ingredients: vec![
            "400g rigatoni or penne".to_string(),
            "4 garlic cloves, sliced".to_string(),
            "125g ball mozzarella, chopped into chunks".to_string(),
        ],
        image: Some(Image { url: "https://images.example/bake.jpg".to_string() }),
    }
}

#[test]
fn user_agent() {
    assert_eq!(
        recipe_scrape::scraper::user_agent("recipe-scrape", "0.1.0", "https://github.com/sd2k/recipes"),
        "recipe-scrape/0.1.0 (https://github.com/sd2k/recipes)"
    );
    assert_eq!(recipe_scrape::scraper::user_agent("", "", ""), "/ ()");
}

#[test]
fn scrape_bbc_good_food() {
    let url = "https://www.bbcgoodfood.com/recipes/sausage-pasta-bake";
    let registry = Registry::scrapers();
    let scrape = Scrape::new(url.to_string());
    assert_eq!(scrape.request(), Request::Fetch);
    let scrape = match scrape.step(&registry, Event::Response(200)) {
        Step::Continue(scrape) => scrape,
        Step::Finished(r) => panic!("ended with {:?}", r),
    };
    assert_eq!(scrape.request(), Request::ParseHtml);
    let types = vec!["WebSite".to_string(), "Recipe".to_string(), "Recipe".to_string()];
    let scrape = match scrape.step(&registry, Event::Page(types)) {
        Step::Continue(scrape) => scrape,
        Step::Finished(r) => panic!("ended with {:?}", r),
    };
    assert_eq!(scrape.request(), Request::Decode { block: 1, adapter: Adapter::BBCGoodFood });
    assert_eq!(scrape.url, url);
    assert_eq!(scrape.request(), Request::Decode { block: 1, adapter: Adapter::BBCGoodFood });
    let step = scrape.step(&registry, Event::Block(Payload::BBCGoodFood(sausage_pasta_bake())));
    assert_eq!(step.stage(), Stage::Done);
    let recipe = match step {
        Step::Finished(r) => r.expect("scrape should work"),
        Step::Continue(scrape) => panic!("went on with {:?}", scrape),
    };
    assert_eq!(recipe.name, "Sausage pasta bake");
    assert_eq!(recipe.source, url);
    assert_eq!(recipe.notes, None);
    assert_eq!(recipe.prep_time_minutes, Some(30));
    assert_eq!(recipe.cooking_time_minutes, Some(90));
    assert_eq!(recipe.servings, Some(4));
}

#[test]
fn durations_are_rounded_up_to_minutes() {
    assert_eq!(duration("PT10M30S").num_minutes(), Some(11));
    assert_eq!(duration("PT10M").num_minutes(), Some(10));
    assert_eq!(duration("PT10M1S").num_minutes(), Some(11));
    assert_eq!(duration("PT59S").num_minutes(), Some(1));
    assert_eq!(duration("PT0S").num_minutes(), Some(0));
    assert_eq!(duration("P1DT1H1M1S").num_minutes(), Some(1502));
    assert_eq!(duration("P1M").num_minutes(), None);
    assert_eq!(duration("P1Y").num_minutes(), None);
    assert_eq!(duration("PT1.5H").num_minutes(), Some(90));
    assert_eq!(duration("PT1.5M").num_minutes(), Some(2));
    assert_eq!(duration("PT0.5S").num_minutes(), Some(1));
    assert_eq!(duration("PT1.5M30S").num_minutes(), Some(2));
    assert_eq!(duration("PT0.25H15M").num_minutes(), Some(30));
    assert_eq!(duration("PT10M30S"), Duration {
        year: 0,
        month: 0,
        day: 0,
        hour: 0,
        minute: 10_000,
        second: 30_000,
    });
    let longest = Duration {
        year: 0,
        month: 0,
        day: u64::MAX,
        hour: u64::MAX,
        minute: u64::MAX,
        second: u64::MAX,
    };
    assert_eq!(longest.num_minutes(), Some(u32::MAX));
    let most = u32::MAX as u64 * 1000;
    let long = Duration { year: 0, month: 0, day: 0, hour: 0, minute: most, second: 1 };
    assert_eq!(long.num_minutes(), Some(u32::MAX));
    let nearly = Duration { year: 0, month: 0, day: 0, hour: 0, minute: most - 1000, second: 1 };
    assert_eq!(nearly.num_minutes(), Some(u32::MAX));
    let under = Duration { year: 0, month: 0, day: 0, hour: 0, minute: most - 1000, second: 0 };
    assert_eq!(under.num_minutes(), Some(u32::MAX - 1));
    let year = Duration { year: 1, month: 0, day: 0, hour: 0, minute: 10_000, second: 0 };
    assert_eq!(year.num_minutes(), None);
}

#[test]
fn yields_tell_their_first_number() {
    let cases = [
        ("4", Some(4)),
        ("Serves 4", Some(4)),
        ("Serves 4-6", Some(4)),
        ("Makes ten", Some(10)),
        ("two or 3", Some(2)),
        ("3 or two", Some(3)),
        ("someone", None),
        ("Serves someone", None),
        ("Serves someone or 2", Some(2)),
        ("ones", None),
        ("one-pot", Some(1)),
        ("one2", Some(1)),
        ("2one", Some(2)),
        ("(ten)", Some(10)),
        ("\u{664} servings for four", None),
        ("\u{664}5", None),
        ("4\u{664}", None),
        ("\u{e9}one", Some(1)),
        ("often", None),
        ("Ten", None),
        ("a few", None),
        ("", None),
        ("007", Some(7)),
        ("4294967295", Some(4294967295)),
        ("4294967296", None),
        ("99999999999999999999 or two", None),
        ("one", Some(1)),
        ("two", Some(2)),
        ("three", Some(3)),
        ("four", Some(4)),
        ("five", Some(5)),
        ("six", Some(6)),
        ("seven", Some(7)),
        ("eight", Some(8)),
        ("nine", Some(9)),
        ("ten", Some(10)),
        ("serves eighteen", None),
    ];
    for (text, servings) in cases.iter() {
        assert_eq!(Yield::String(text.to_string()).as_u32(), *servings, "{:?}", text);
    }
    assert_eq!(Yield::Number(0).as_u32(), Some(0));
    assert_eq!(Yield::Number(12).as_u32(), Some(12));
}

#[test]
fn the_adapter_fills_the_recipe() {
    let url = "https://www.bbcgoodfood.com/recipes/sausage-pasta-bake".to_string();
    let recipe = BBCGoodFoodScraper.scrape(url.clone(), Payload::BBCGoodFood(sausage_pasta_bake())).unwrap();
    let ingredients: Vec<ScrapedIngredient> = sausage_pasta_bake()
        .ingredients
        .iter()
        .map(|line| ScrapedIngredient::from_str(line).unwrap())
        .collect();
    assert_eq!(
        recipe,
        ScrapedRecipe {
            name: "Sausage pasta bake".to_string(),
            source: url,
            description: Some("A family favourite".to_string()),
            notes: None,
            prep_time_minutes: Some(30),
            cooking_time_minutes: Some(90),
            servings: Some(4),
            ingredients,
            image_url: Some("https://images.example/bake.jpg".to_string()),
        }
    );
    assert_eq!(recipe.ingredients[1].name.as_deref(), Some("garlic cloves"));
    assert_eq!(BBCGoodFoodScraper.host(), "www.bbcgoodfood.com");
}

#[test]
fn one_bad_ingredient_fails_the_recipe() {
    let mut recipe = sausage_pasta_bake();
    recipe.ingredients.push("salt\nand pepper".to_string());
    recipe.ingredients.push("sugar\nand spice".to_string());
    recipe.image = None;
    recipe.recipe_yield = Yield::String("nothing".to_string());
    match BBCGoodFoodScraper.scrape("https://www.bbcgoodfood.com/".to_string(), Payload::BBCGoodFood(recipe.clone())) {
        Err(Error::Ingredient(IngredientError::NoMatch(ingredient))) => {
            assert_eq!(ingredient.raw, "salt\nand pepper");
            assert_eq!(ingredient.name, None);
        }
        other => panic!("ended with {:?}", other),
    }
    recipe.ingredients.truncate(3);
    let scraped = BBCGoodFoodScraper.scrape("https://www.bbcgoodfood.com/".to_string(), Payload::BBCGoodFood(recipe)).unwrap();
    assert_eq!(scraped.image_url, None);
    assert_eq!(scraped.servings, None);
}

#[test]
fn the_dummy_always_fails() {
    assert_eq!(DummyScraper.host(), "dummy");
    match DummyScraper.scrape("http://dummy/".to_string(), Payload::BBCGoodFood(sausage_pasta_bake())) {
        Err(Error::Json(reason)) => assert_eq!(reason, "dummy scraper"),
        other => panic!("ended with {:?}", other),
    }
    match Adapter::Dummy.scrape("http://dummy/".to_string(), Payload::Malformed("x".to_string())) {
        Err(Error::Json(reason)) => assert_eq!(reason, "dummy scraper"),
        other => panic!("ended with {:?}", other),
    }
    match Adapter::BBCGoodFood.scrape("http://x/".to_string(), Payload::Malformed("missing field `name`".to_string())) {
        Err(Error::Json(reason)) => assert_eq!(reason, "missing field `name`"),
        other => panic!("ended with {:?}", other),
    }
    assert_eq!(Adapter::Dummy.host(), "dummy");
    assert_eq!(Adapter::BBCGoodFood.host(), "www.bbcgoodfood.com");
}

#[test]
fn an_unregistered_host_is_unrecognised() {
    let registry = Registry::scrapers();
    for (url, host) in [
        ("https://example.com/recipes/cake", "example.com"),
        ("https://WWW.Example.com:8080/x?y#z", "www.example.com"),
        ("https://bbcgoodfood.com/recipes/cake", "bbcgoodfood.com"),
        ("http://127.0.0.1/", "127.0.0.1"),
        ("mailto:cook@example.com", ""),
        ("not an address", ""),
    ] {
        let scrape = Scrape::new(url.to_string());
        let scrape = match scrape.step(&registry, Event::Response(204)) {
            Step::Continue(scrape) => scrape,
            Step::Finished(r) => panic!("ended with {:?}", r),
        };
        match scrape.step(&registry, Event::Page(vec!["Recipe".to_string()])) {
            Step::Finished(Err(Error::UnrecognisedHost(name))) => assert_eq!(name, host),
            other => panic!("{:?} went on with {:?}", url, other),
        }
    }
    let scrape = Scrape { url: "https://example.com/".to_string(), state: State::ParsingHtml };
    match scrape.step(&Registry::<Adapter>::new(), Event::Page(vec!["Recipe".to_string()])) {
        Step::Finished(Err(e)) => assert_eq!(e.stage(), Stage::DispatchingAdapter),
        other => panic!("went on with {:?}", other),
    }
    let scrape = Scrape { url: "https://www.bbcgoodfood.com/x".to_string(), state: State::ParsingHtml };
    assert!(matches!(
        scrape.step(&Registry::<Adapter>::new(), Event::Page(vec!["Recipe".to_string()])),
        Step::Finished(Err(Error::UnrecognisedHost(_)))
    ));
    let scrape = Scrape { url: "https://dummy/x".to_string(), state: State::ParsingHtml };
    let scrape = match scrape.step(&registry, Event::Page(vec!["Recipe".to_string()])) {
        Step::Continue(scrape) => scrape,
        Step::Finished(r) => panic!("ended with {:?}", r),
    };
    assert_eq!(scrape.state, State::Adapting { block: 0, adapter: Adapter::Dummy });
    match scrape.step(&registry, Event::Block(Payload::Malformed("unread".to_string()))) {
        Step::Finished(Err(e)) => {
            assert_eq!(e.stage(), Stage::Adapting);
            assert!(matches!(e, Error::Json(_)));
        }
        other => panic!("went on with {:?}", other),
    }
}

#[test]
fn every_stage_ends_a_scrape_with_its_own_error() {
    let registry = Registry::scrapers();
    let url = "https://www.bbcgoodfood.com/recipes/cake";
    for status in [199, 301, 404, 500] {
        match Scrape::new(url.to_string()).step(&registry, Event::Response(status)) {
            Step::Finished(Err(Error::Reqwest(reason))) => {
                assert_eq!(reason, format!("HTTP status {}", status))
            }
            other => panic!("went on with {:?}", other),
        }
    }
    let fetched = Scrape::new(url.to_string()).step(&registry, Event::Response(200));
    assert_eq!(fetched.stage(), Stage::ParsingHtml);
    let missing = Scrape::new(url.to_string()).step(&registry, Event::Response(404));
    assert_eq!(missing.stage(), Stage::Fetching);
    let waiting = Scrape::new(url.to_string()).step(&registry, Event::MalformedPage("early".to_string()));
    assert_eq!(waiting.stage(), Stage::Fetching);
    match Scrape::new(url.to_string()).step(&registry, Event::Unreachable("timed out".to_string())) {
        Step::Finished(Err(e)) => {
            assert_eq!(e.stage(), Stage::Fetching);
            assert!(matches!(e, Error::Reqwest(reason) if reason == "timed out"));
        }
        other => panic!("went on with {:?}", other),
    }
    let reading = Scrape { url: url.to_string(), state: State::ParsingHtml };
    match reading.clone().step(&registry, Event::MalformedPage("not utf-8".to_string())) {
        Step::Finished(Err(e)) => {
            assert_eq!(e.stage(), Stage::ParsingHtml);
            assert!(matches!(e, Error::Html(reason) if reason == "not utf-8"));
        }
        other => panic!("went on with {:?}", other),
    }
    for types in [vec![], vec!["recipe".to_string(), "Recipes".to_string(), "Article".to_string()]] {
        match reading.clone().step(&registry, Event::Page(types)) {
            Step::Finished(Err(e)) => {
                assert_eq!(e.stage(), Stage::LocatingStructuredData);
                assert!(matches!(e, Error::NotARecipe));
            }
            other => panic!("went on with {:?}", other),
        }
    }
    let adapting = Scrape {
        url: url.to_string(),
        state: State::Adapting { block: 0, adapter: Adapter::BBCGoodFood },
    };
    match adapting.clone().step(&registry, Event::Block(Payload::Malformed("no name".to_string()))) {
        Step::Finished(Err(e)) => assert_eq!(e.stage(), Stage::Adapting),
        other => panic!("went on with {:?}", other),
    }
    let mut recipe = sausage_pasta_bake();
    recipe.ingredients[0] = "a\nb".to_string();
    match adapting.step(&registry, Event::Block(Payload::BBCGoodFood(recipe))) {
        Step::Finished(Err(e)) => {
            assert_eq!(e.stage(), Stage::Adapting);
            assert!(matches!(e, Error::Ingredient(IngredientError::NoMatch(_))));
        }
        other => panic!("went on with {:?}", other),
    }
}

#[test]
fn an_event_out_of_turn_changes_nothing() {
    let registry = Registry::scrapers();
    let url = "https://www.bbcgoodfood.com/recipes/cake";
    let states = [
        State::Fetching,
        State::ParsingHtml,
        State::Adapting { block: 2, adapter: Adapter::BBCGoodFood },
    ];
    let events = [
        Event::Response(200),
        Event::Unreachable("late".to_string()),
        Event::Page(vec!["Recipe".to_string()]),
        Event::MalformedPage("late".to_string()),
        Event::Block(Payload::Malformed("late".to_string())),
    ];
    let fits = [[true, true, false, false, false], [false, false, true, true, false], [false, false, false, false, true]];
    for (i, state) in states.iter().enumerate() {
        for (j, event) in events.iter().enumerate() {
            let scrape = Scrape { url: url.to_string(), state: *state };
            match scrape.step(&registry, event.clone()) {
                Step::Continue(scrape) if !fits[i][j] => {
                    assert_eq!(scrape.state, *state);
                    assert_eq!(scrape.url, url);
                }
                Step::Continue(scrape) => assert_ne!(scrape.state, *state),
                Step::Finished(_) => assert!(fits[i][j]),
            }
        }
    }
}

#[test]
fn the_registry_finds_adapters_by_host() {
    let registry = Registry::scrapers();
    assert_eq!(registry.get("www.bbcgoodfood.com"), Some(Adapter::BBCGoodFood));
    assert_eq!(registry.get("dummy"), Some(Adapter::Dummy));
    assert_eq!(registry.get("bbcgoodfood.com"), None);
    assert_eq!(registry.get("WWW.BBCGOODFOOD.COM"), None);
    assert_eq!(registry.get(""), None);
    let mut registry = Registry::<Adapter>::new();
    assert_eq!(registry.get("dummy"), None);
    registry.register(Adapter::Dummy);
    registry.register(Adapter::Dummy);
    assert_eq!(registry.adapters, vec![Adapter::Dummy]);
    assert_eq!(registry.get("dummy"), Some(Adapter::Dummy));
    assert_eq!(registry.get("www.bbcgoodfood.com"), None);
    registry.register(Adapter::BBCGoodFood);
    assert_eq!(registry.get("www.bbcgoodfood.com"), Some(Adapter::BBCGoodFood));
    assert!(matches!(dispatch(&registry, Some("dummy".to_string())), Ok(Adapter::Dummy)));
    assert!(matches!(
        dispatch(&registry, Some("example.org".to_string())),
        Err(Error::UnrecognisedHost(host)) if host == "example.org"
    ));
    assert!(matches!(dispatch(&registry, None), Err(Error::UnrecognisedHost(host)) if host.is_empty()));
}

#[test]
fn the_first_recipe_block_is_located() {
    assert_eq!(find_recipe(&vec![]), None);
    assert_eq!(find_recipe(&vec!["Article".to_string()]), None);
    assert_eq!(find_recipe(&vec!["Recipe".to_string()]), Some(0));
    assert_eq!(
        find_recipe(&vec!["Article".to_string(), "recipe".to_string(), "Recipe".to_string(), "Recipe".to_string()]),
        Some(2)
    );
}

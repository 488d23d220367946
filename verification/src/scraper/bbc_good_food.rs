//! The adapter for www.bbcgoodfood.com.

use crate::duration::Duration;
use crate::ingredient::{is_line, parsed_line, unread_line, ErrorView, ScrapedIngredient};
use crate::recipe::{RecipeView, ScrapedRecipe};
use crate::scraper::{Error, Payload, ScrapeErrorView, Scraper};
use crate::text::{
    all_digits, chars_of, digits_value, has_at, is_decimal_number, is_digit_of_any_script,
    is_latin_letter, is_letter, read_digits, skip_decimal_numbers, skip_digits_of_any_script,
    slice_of, word_at,
};
use vstd::prelude::*;

verus! {

#[derive(Debug, Clone, Copy, PartialEq, Eq)]
pub struct BBCGoodFoodScraper;

/// What a recipe yields: a number, or words that may hold one.
#[derive(Debug, Clone)]
pub enum Yield {
    String(String),
    Number(u32),
}

#[derive(Debug, Clone)]
pub struct Image {
    pub url: String,
}

/// A recipe as the site's structured data gives it.
#[derive(Debug, Clone)]
pub struct BBCGoodFoodRecipe {
    pub name: String,
    pub description: String,
    pub cook_time: Duration,
    pub prep_time: Duration,
    pub recipe_yield: Yield,
    pub ingredients: Vec<String>,
    pub image: Option<Image>,
}

/// The number words that are looked for in a yield, from one to ten.
pub open spec fn number_words() -> Seq<Seq<char>> {
    seq![
        "one"@,
        "two"@,
        "three"@,
        "four"@,
        "five"@,
        "six"@,
        "seven"@,
        "eight"@,
        "nine"@,
        "ten"@,
    ]
}

/// The first number word, from the `i`th on, that stands in `s` at `at`.
pub open spec fn number_word_from(s: Seq<char>, at: int, i: int) -> Option<int>
    decreases number_words().len() - i,
{
    if i < 0 || i >= number_words().len() {
        None
    } else if has_at(s, at, number_words()[i]) {
        Some(i)
    } else {
        number_word_from(s, at, i + 1)
    }
}

/// The `i`th number word stands in `s` at `at` as a whole word: no letter
/// stands directly before it or behind it.
pub open spec fn whole_word_at(s: Seq<char>, at: int, i: int) -> bool {
    let word = number_words()[i];
    &&& has_at(s, at, word)
    &&& at > 0 ==> !is_letter(s[at - 1])
    &&& at + word.len() < s.len() ==> !is_letter(s[at + word.len()])
}

/// The number word that stands in `s` at `at` as a whole word.
pub open spec fn number_word_at(s: Seq<char>, at: int) -> Option<int> {
    match number_word_from(s, at, 0) {
        Some(i) => if whole_word_at(s, at, i) {
            Some(i)
        } else {
            None
        },
        None => None,
    }
}

/// A number starts in `s` at `at`: a digit of any script stands there, or a
/// number word as a whole word.
pub open spec fn starts_number(s: Seq<char>, at: int) -> bool {
    0 <= at < s.len() && (is_decimal_number(s[at]) || number_word_at(s, at) is Some)
}

/// The first position at or after `from` where a number starts (the length
/// of `s` if there is none).
pub open spec fn number_start(s: Seq<char>, from: int) -> int
    decreases s.len() - from,
{
    if 0 <= from < s.len() && !starts_number(s, from) {
        number_start(s, from + 1)
    } else {
        from
    }
}

/// The number of servings that the text `s` tells: its first run of digits
/// or its first number word, whichever comes first. A number word counts
/// only as a whole word, so that "someone" tells nothing. Nothing is told
/// where the text holds neither, where the run holds a digit of another
/// script than 0 to 9, or where the digits say more than can be told.
pub open spec fn servings_in(s: Seq<char>) -> Option<u32> {
    let at = number_start(s, 0);
    if at >= s.len() {
        None
    } else if is_decimal_number(s[at]) {
        let run = s.subrange(at, skip_decimal_numbers(s, at));
        if all_digits(run) && digits_value(run) <= u32::MAX {
            Some(digits_value(run) as u32)
        } else {
            None
        }
    } else {
        Some((number_word_at(s, at)->0 + 1) as u32)
    }
}

/// The first line at or after `from` that is no ingredient line (the number
/// of lines if all are).
pub open spec fn first_bad_line(lines: Seq<Seq<char>>, from: int) -> int
    decreases lines.len() - from,
{
    if 0 <= from < lines.len() && is_line(lines[from]) {
        first_bad_line(lines, from + 1)
    } else {
        from
    }
}

/// The `i`th number word.
fn number_word_text(i: usize) -> (r: &'static str)
    requires
        i < number_words().len(),
    ensures
        r@ == number_words()[i as int],
{
    if i == 0 {
        "one"
    } else if i == 1 {
        "two"
    } else if i == 2 {
        "three"
    } else if i == 3 {
        "four"
    } else if i == 4 {
        "five"
    } else if i == 5 {
        "six"
    } else if i == 6 {
        "seven"
    } else if i == 7 {
        "eight"
    } else if i == 8 {
        "nine"
    } else {
        "ten"
    }
}

/// The number word that stands at `at` as a whole word.
fn find_number_word(chars: &Vec<char>, at: usize) -> (r: Option<usize>)
    requires
        at < chars.len(),
    ensures
        match r {
            Some(i) => number_word_at(chars@, at as int) == Some(i as int) && i < 10,
            None => number_word_at(chars@, at as int) is None,
        },
{
    if at > 0 && is_latin_letter(chars[at - 1]) {
        return None;
    }
    let mut i: usize = 0;
    while i < 10
        invariant
            i <= 10,
            number_words().len() == 10,
            at < chars.len(),
            at > 0 ==> !is_letter(chars@[at - 1]),
            number_word_from(chars@, at as int, 0) == number_word_from(chars@, at as int, i as int),
        decreases 10 - i,
    {
        let word = number_word_text(i);
        if word_at(chars, at, word) {
            let behind = at + word.unicode_len();
            if behind < chars.len() && is_latin_letter(chars[behind]) {
                return None;
            }
            return Some(i);
        }
        i += 1;
    }
    None
}

impl Yield {
    /// The number of servings that the yield tells.
    pub open spec fn servings(&self) -> Option<u32> {
        match self {
            Yield::String(s) => servings_in(s@),
            Yield::Number(n) => Some(*n),
        }
    }

    /// The number of servings: the number itself, or the first number that
    /// the words hold, in digits or spelled out from one to ten.
    pub fn as_u32(&self) -> (r: Option<u32>)
        ensures
            r == self.servings(),
    {
        match self {
            Yield::String(s) => {
                let chars = chars_of(s.as_str());
                let len = chars.len();
                let mut at: usize = 0;
                let mut word: Option<usize> = None;
                while at < len
                    invariant_except_break
                        word is None,
                    invariant
                        at <= len,
                        len == chars.len(),
                        number_start(chars@, 0) == number_start(chars@, at as int),
                    ensures
                        at < len ==> starts_number(chars@, at as int),
                        at < len && !is_decimal_number(chars@[at as int]) ==> word is Some
                            && number_word_at(chars@, at as int) == Some(word->0 as int)
                            && word->0 < 10,
                    decreases len - at,
                {
                    if is_digit_of_any_script(chars[at]) {
                        break ;
                    }
                    word = find_number_word(&chars, at);
                    if word.is_some() {
                        break ;
                    }
                    at += 1;
                }
                if at >= len {
                    return None;
                }
                if is_digit_of_any_script(chars[at]) {
                    let end = skip_digits_of_any_script(&chars, at);
                    let (plain, told) = read_digits(&slice_of(&chars, at, end));
                    if plain && told <= u32::MAX as u64 {
                        Some(told as u32)
                    } else {
                        None
                    }
                } else {
                    match word {
                        Some(i) => Some(i as u32 + 1),
                        None => None,
                    }
                }
            },
            Yield::Number(n) => Some(*n),
        }
    }
}

impl BBCGoodFoodRecipe {
    /// What the adapter makes of the recipe when all its ingredient lines
    /// can be read.
    pub open spec fn adapted(&self, url: Seq<char>) -> RecipeView {
        RecipeView {
            name: self.name@,
            source: url,
            description: Some(self.description@),
            notes: None,
            prep_time_minutes: self.prep_time.minutes(),
            cooking_time_minutes: self.cook_time.minutes(),
            servings: self.recipe_yield.servings(),
            ingredients: Seq::new(
                self.ingredients@.len(),
                |i: int| parsed_line(self.ingredients@[i]@),
            ),
            image_url: match self.image {
                Some(image) => Some(image.url@),
                None => None,
            },
        }
    }
}

impl BBCGoodFoodRecipe {
    /// What the adapter makes of the recipe: the recipe record, or the
    /// failure of the first ingredient line that cannot be read.
    pub open spec fn scraped(&self, url: Seq<char>) -> Result<RecipeView, ScrapeErrorView> {
        let lines = self.ingredients.deep_view();
        let bad = first_bad_line(lines, 0);
        if bad < lines.len() {
            Err(ScrapeErrorView::Ingredient(ErrorView::NoMatch(unread_line(lines[bad]))))
        } else {
            Ok(self.adapted(url))
        }
    }
}

impl Scraper for BBCGoodFoodScraper {
    type Value = Payload;

    open spec fn host_name(&self) -> Seq<char> {
        "www.bbcgoodfood.com"@
    }

    open spec fn outcome(&self, url: Seq<char>, value: Payload) -> Result<
        RecipeView,
        ScrapeErrorView,
    > {
        match value {
            Payload::BBCGoodFood(recipe) => recipe.scraped(url),
            Payload::Malformed(reason) => Err(ScrapeErrorView::Json(reason@)),
        }
    }

    fn host(&self) -> (r: &'static str) {
        "www.bbcgoodfood.com"
    }

    /// Maps the site's recipe onto the recipe record. Times are rounded up
    /// to whole minutes. Every ingredient line is read; the first that
    /// cannot be read fails the whole recipe. Data that does not fit the
    /// site's layout fails with the reason.
    fn scrape(&self, url: String, value: Payload) -> (r: Result<ScrapedRecipe, Error>) {
        let recipe = match value {
            Payload::BBCGoodFood(recipe) => recipe,
            Payload::Malformed(reason) => {
                return Err(Error::Json(reason));
            },
        };
        let ghost lines = recipe.ingredients.deep_view();
        let mut ingredients: Vec<ScrapedIngredient> = Vec::new();
        let mut i: usize = 0;
        while i < recipe.ingredients.len()
            invariant
                i <= recipe.ingredients@.len(),
                self.outcome(url@, value) == recipe.scraped(url@),
                lines == recipe.ingredients.deep_view(),
                first_bad_line(lines, 0) == first_bad_line(lines, i as int),
                ingredients@.len() == i,
                forall|j: int|
                    0 <= j < i ==> (#[trigger] ingredients@[j])@ == parsed_line(
                        recipe.ingredients@[j]@,
                    ),
            decreases recipe.ingredients@.len() - i,
        {
            match ScrapedIngredient::from_str(recipe.ingredients[i].as_str()) {
                Ok(ingredient) => {
                    ingredients.push(ingredient);
                },
                Err(e) => {
                    return Err(Error::Ingredient(e));
                },
            }
            i += 1;
        }
        let prep_time_minutes = recipe.prep_time.num_minutes();
        let cooking_time_minutes = recipe.cook_time.num_minutes();
        let servings = recipe.recipe_yield.as_u32();
        let scraped = ScrapedRecipe {
            name: recipe.name,
            description: Some(recipe.description),
            source: url,
            notes: None,
            prep_time_minutes,
            cooking_time_minutes,
            servings,
            ingredients,
            image_url: match recipe.image {
                Some(image) => Some(image.url),
                None => None,
            },
        };
        proof {
            assert(scraped@.ingredients =~= recipe.adapted(url@).ingredients);
        }
        Ok(scraped)
    }
}

} // verus!

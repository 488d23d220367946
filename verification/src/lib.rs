//! Ingredient-text normalisation and structured-recipe extraction.
//!
//! An ingredient line such as "0.8kg lamb, shoulder or leg" is read into an
//! amount, a unit, a name and instructions ([`ingredient`]), with amounts as
//! fixed-point decimals ([`amount`]) and units that convert to the base unit
//! of their family ([`unit`]); an ingredient is written back as a line in
//! natural units, and [`stability`] shows that such a line is written as
//! itself. The [`scraper`] takes the decisions of a scrape, from the answer
//! of a page to the adapter of its publisher, and fills the
//! [`ScrapedRecipe`]; fetching and decoding are left to the caller.

pub mod amount;
pub mod duration;
pub mod ingredient;
pub mod recipe;
pub mod scraper;
pub mod stability;
pub mod text;
pub mod unit;

pub use ingredient::ScrapedIngredient;
pub use recipe::ScrapedRecipe;

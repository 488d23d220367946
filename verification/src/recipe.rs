//! The recipe record that every adapter fills.

use crate::ingredient::{IngredientView, ScrapedIngredient};
use vstd::prelude::*;

verus! {

#[derive(Debug, Clone, PartialEq)]
pub struct ScrapedRecipe {
    pub name: String,
    /// The address of the page that the recipe was read from.
    pub source: String,
    pub description: Option<String>,
    pub notes: Option<String>,
    pub prep_time_minutes: Option<u32>,
    pub cooking_time_minutes: Option<u32>,
    pub servings: Option<u32>,
    /// The ingredients in the order of the page.
    pub ingredients: Vec<ScrapedIngredient>,
    pub image_url: Option<String>,
}

/// A [`ScrapedRecipe`] with its texts as sequences of characters.
pub struct RecipeView {
    pub name: Seq<char>,
    pub source: Seq<char>,
    pub description: Option<Seq<char>>,
    pub notes: Option<Seq<char>>,
    pub prep_time_minutes: Option<u32>,
    pub cooking_time_minutes: Option<u32>,
    pub servings: Option<u32>,
    pub ingredients: Seq<IngredientView>,
    pub image_url: Option<Seq<char>>,
}

impl View for ScrapedRecipe {
    type V = RecipeView;

    open spec fn view(&self) -> RecipeView {
        RecipeView {
            name: self.name@,
            source: self.source@,
            description: self.description.deep_view(),
            notes: self.notes.deep_view(),
            prep_time_minutes: self.prep_time_minutes,
            cooking_time_minutes: self.cooking_time_minutes,
            servings: self.servings,
            ingredients: self.ingredients.deep_view(),
            image_url: self.image_url.deep_view(),
        }
    }
}

} // verus!

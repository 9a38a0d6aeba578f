//! The recipe that a crafting structure follows.

use crate::identifiers::{name_hash, spec_name_hash};
use vstd::prelude::*;
use vstd::std_specs::convert::FromSpecImpl;

verus! {

/// Identifies a recipe.
#[derive(Clone, Copy, Debug, PartialEq, Eq, Structural, Hash)]
pub struct RecipeId {
    pub value: u64,
}

impl RecipeId {
    /// The identifier of the recipe called `name`.
    pub fn from_name(name: &str) -> (recipe_id: Self)
        ensures
            recipe_id.value == spec_name_hash(name@),
    {
        RecipeId { value: name_hash(name) }
    }
}

/// The recipe that a structure is set to, if any.
#[derive(Clone, Copy, Debug, PartialEq, Eq)]
pub struct ActiveRecipe {
    pub recipe_id: Option<RecipeId>,
}

impl ActiveRecipe {
    /// No recipe at all.
    pub fn none() -> (recipe: Self)
        ensures
            recipe == (ActiveRecipe { recipe_id: None }),
    {
        ActiveRecipe { recipe_id: None }
    }

    /// The recipe with the given identifier.
    pub fn new(recipe_id: RecipeId) -> (recipe: Self)
        ensures
            recipe == (ActiveRecipe { recipe_id: Some(recipe_id) }),
    {
        ActiveRecipe { recipe_id: Some(recipe_id) }
    }

    /// The recipe that `raw` names.
    pub fn from_raw(raw: &RawActiveRecipe) -> (recipe: Self)
        ensures
            recipe == spec_active_recipe(*raw),
    {
        match &raw.recipe_id {
            Some(name) => ActiveRecipe { recipe_id: Some(RecipeId::from_name(name.as_str())) },
            None => ActiveRecipe { recipe_id: None },
        }
    }

    /// The identifier of the recipe, if one is set.
    pub fn recipe_id(&self) -> (recipe_id: Option<RecipeId>)
        ensures
            recipe_id == self.recipe_id,
    {
        self.recipe_id
    }
}

/// A recipe as the files name it.
#[derive(Clone, Debug, PartialEq, Eq)]
pub struct RawActiveRecipe {
    pub recipe_id: Option<String>,
}

/// The recipe that `raw` names.
pub open spec fn spec_active_recipe(raw: RawActiveRecipe) -> ActiveRecipe {
    match raw.recipe_id {
        Some(name) => ActiveRecipe { recipe_id: Some(RecipeId { value: spec_name_hash(name@) }) },
        None => ActiveRecipe { recipe_id: None },
    }
}

impl From<RawActiveRecipe> for ActiveRecipe {
    fn from(raw: RawActiveRecipe) -> (recipe: Self) {
        Self::from_raw(&raw)
    }
}

impl FromSpecImpl<RawActiveRecipe> for ActiveRecipe {
    open spec fn obeys_from_spec() -> bool {
        true
    }

    open spec fn from_spec(raw: RawActiveRecipe) -> Self {
        spec_active_recipe(raw)
    }
}

} // verus!

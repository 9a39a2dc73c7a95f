//! The normalized recipe representation produced by extraction.

use vstd::prelude::*;

verus! {

/// The mathematical value of an [`ExternalRecipeStep`]: plain character
/// sequences in the order the source page declares them.
#[verifier::ext_equal]
pub ghost struct ExternalRecipeStepView {
    pub ingredients: Seq<Seq<char>>,
    pub description: Seq<char>,
    pub files: Seq<Seq<char>>,
}

/// The mathematical value of an [`ExternalRecipe`].
#[verifier::ext_equal]
pub ghost struct ExternalRecipeView {
    pub name: Seq<char>,
    pub ingredients: Seq<Seq<char>>,
    pub files: Seq<Seq<char>>,
    pub steps: Seq<ExternalRecipeStepView>,
}

/// One step of an external recipe.
#[derive(Debug, PartialEq)]
pub struct ExternalRecipeStep {
    /// Ingredient lines scoped to this step; empty if the source page has no
    /// per-step granularity.
    pub ingredients: Vec<String>,
    /// The step's instruction text.
    pub description: String,
    /// URIs or paths of step-level media.
    pub files: Vec<String>,
}

/// A recipe extracted from an external source, owned solely by the caller.
///
/// The order of `ingredients`, `files` and `steps` reflects the source page's
/// declared order; nothing is reordered.
#[derive(Debug, PartialEq)]
pub struct ExternalRecipe {
    /// The recipe's name.
    pub name: String,
    /// Free-text ingredient lines, in display order.
    pub ingredients: Vec<String>,
    /// URIs or paths of recipe-level media.
    pub files: Vec<String>,
    /// The steps, in the source page's declared order.
    pub steps: Vec<ExternalRecipeStep>,
}

impl View for ExternalRecipeStep {
    type V = ExternalRecipeStepView;

    open spec fn view(&self) -> ExternalRecipeStepView {
        ExternalRecipeStepView {
            ingredients: self.ingredients.deep_view(),
            description: self.description@,
            files: self.files.deep_view(),
        }
    }
}

impl DeepView for ExternalRecipeStep {
    type V = ExternalRecipeStepView;

    open spec fn deep_view(&self) -> ExternalRecipeStepView {
        self.view()
    }
}

impl View for ExternalRecipe {
    type V = ExternalRecipeView;

    open spec fn view(&self) -> ExternalRecipeView {
        ExternalRecipeView {
            name: self.name@,
            ingredients: self.ingredients.deep_view(),
            files: self.files.deep_view(),
            steps: self.steps.deep_view(),
        }
    }
}

impl DeepView for ExternalRecipe {
    type V = ExternalRecipeView;

    open spec fn deep_view(&self) -> ExternalRecipeView {
        self.view()
    }
}

/// Whether a recipe carries every required field: a non-empty name and at
/// least one step. Getters never substitute defaults for these, so a returned
/// recipe is complete or the extraction has failed — never partial.
pub open spec fn recipe_complete(r: ExternalRecipeView) -> bool {
    r.name.len() > 0 && r.steps.len() > 0
}

/// Copy a vector of strings, preserving its value.
pub(crate) fn clone_string_vec(v: &Vec<String>) -> (r: Vec<String>)
    ensures
        r@ == v@,
{
    let r = v.clone();
    proof {
        assert forall|i: int| 0 <= i < v@.len() implies r@[i] == v@[i] by {
            assert(cloned::<String>(v@[i], r@[i]));
        }
        assert(r@ =~= v@);
    }
    r
}

impl Clone for ExternalRecipeStep {
    /// A clone carries the same value.
    fn clone(&self) -> (r: Self)
        ensures
            r@ == self@,
    {
        let r = ExternalRecipeStep {
            ingredients: clone_string_vec(&self.ingredients),
            description: self.description.clone(),
            files: clone_string_vec(&self.files),
        };
        proof {
            assert(r@ =~= self@);
        }
        r
    }
}

impl Clone for ExternalRecipe {
    /// A clone carries the same value.
    fn clone(&self) -> (r: Self)
        ensures
            r@ == self@,
    {
        let steps = self.steps.clone();
        proof {
            assert forall|i: int| 0 <= i < self.steps@.len() implies steps@[i]@ == self.steps@[i]@ by {
                assert(cloned::<ExternalRecipeStep>(self.steps@[i], steps@[i]));
            }
            assert(steps.deep_view() =~= self.steps.deep_view());
        }
        let r = ExternalRecipe {
            name: self.name.clone(),
            ingredients: clone_string_vec(&self.ingredients),
            files: clone_string_vec(&self.files),
            steps,
        };
        proof {
            assert(r@ =~= self@);
        }
        r
    }
}

impl Default for ExternalRecipeStep {
    /// The default step is empty in every field.
    fn default() -> (r: Self)
        ensures
            r@ == (ExternalRecipeStepView {
                ingredients: Seq::empty(),
                description: Seq::empty(),
                files: Seq::empty(),
            }),
    {
        let r = ExternalRecipeStep { ingredients: Vec::new(), description: String::new(), files: Vec::new() };
        proof {
            assert(r@ =~= (ExternalRecipeStepView {
                ingredients: Seq::empty(),
                description: Seq::empty(),
                files: Seq::empty(),
            }));
        }
        r
    }
}

impl Default for ExternalRecipe {
    /// The default recipe is empty in every field; note that it is not
    /// [`recipe_complete`], so no getter may return it as a success.
    fn default() -> (r: Self)
        ensures
            r@ == (ExternalRecipeView {
                name: Seq::empty(),
                ingredients: Seq::empty(),
                files: Seq::empty(),
                steps: Seq::empty(),
            }),
    {
        let r = ExternalRecipe {
            name: String::new(),
            ingredients: Vec::new(),
            files: Vec::new(),
            steps: Vec::new(),
        };
        proof {
            assert(r@ =~= (ExternalRecipeView {
                name: Seq::empty(),
                ingredients: Seq::empty(),
                files: Seq::empty(),
                steps: Seq::empty(),
            }));
        }
        r
    }
}

} // verus!

//! The per-site extraction contract, and a getter defined purely by data.

use vstd::prelude::*;

use crate::error::ExternalRecipeError;
use crate::recipe::recipe_complete;
use crate::recipe::ExternalRecipe;
use crate::url_match::spec_can_get;
use crate::url_match::spec_prepare;
use crate::url_match::spec_rule_matches;
use crate::url_match::ParsedUrl;
use crate::url_match::UrlMatch;

verus! {

/// Implementors declare which external recipes they can get and implement
/// the getting itself.
///
/// `get` retrieves and parses one site's page(s). It either returns a
/// complete recipe or a typed failure — never a partially populated recipe —
/// and it only ever fails with a fetch or a parse error: the two other
/// errors are raised by the dispatcher alone, which is the only component
/// that knows the full registry.
pub trait ExternalRecipeGetterTrait: Sized {
    /// The matching rules this getter declares, as a mathematical sequence.
    spec fn spec_url_matches(&self) -> Seq<UrlMatch>;

    /// The [`UrlMatch`]es of this getter.
    fn url_matches(&self) -> (r: &Vec<UrlMatch>)
        ensures
            r@ == self.spec_url_matches(),
    ;

    /// Check whether this getter can get an external recipe from a specific
    /// URL: true exactly when some declared rule matches the prepared URL.
    fn can_get(&self, url: &ParsedUrl) -> (r: bool)
        ensures
            r == spec_can_get(self.spec_url_matches(), *url),
    {
        let prepared = match UrlMatch::prepare_url(url) {
            None => {
                return false;
            },
            Some(p) => p,
        };
        let rules = self.url_matches();
        let mut i: usize = 0;
        while i < rules.len()
            invariant
                i <= rules@.len(),
                rules@ == self.spec_url_matches(),
                url.domain is Some,
                prepared@ == spec_prepare(url.scheme@, url.domain->0@, url.path@),
                forall|k: int| 0 <= k < i ==> !spec_rule_matches(rules@[k], prepared@),
            decreases rules@.len() - i,
        {
            if rules[i].is_match(&prepared) {
                return true;
            }
            i += 1;
        }
        false
    }

    /// Get the external recipe from the URL.
    fn get(&self, url: &ParsedUrl) -> (r: Result<ExternalRecipe, ExternalRecipeError>)
        ensures
            r matches Ok(recipe) ==> recipe_complete(recipe@),
            r matches Err(e) ==> e is FetchError || e is ParseError,
    ;
}

/// What a [`FixedExternalRecipeGetter`] hands out when asked to extract.
#[derive(Debug)]
pub enum FixedOutcome {
    /// Extraction succeeds with this recipe, provided it is complete.
    Recipe(ExternalRecipe),
    /// Extraction fails as a network failure with this detail.
    FetchFailure(String),
    /// Extraction fails as a parse failure with this detail.
    ParseFailure(String),
}

/// A getter defined purely by data: it declares the rules it is built with
/// and serves a fixed, pre-extracted outcome for every URL those rules
/// accept. It stands in for a site whose extraction runs elsewhere, and it
/// makes dispatch behaviour reproducible offline.
#[derive(Debug)]
pub struct FixedExternalRecipeGetter {
    /// The matching rules this getter declares.
    pub rules: Vec<UrlMatch>,
    /// The outcome this getter serves.
    pub outcome: FixedOutcome,
}

impl FixedExternalRecipeGetter {
    /// What [`ExternalRecipeGetterTrait::get`] returns for this getter: the
    /// stored recipe when it is complete, otherwise the stored failure — a
    /// stored incomplete recipe is refused as a parse failure, never served
    /// partially. The outcome is a function of the stored data alone, so
    /// repeated calls return identical values.
    pub fn fixed_get(&self) -> (r: Result<ExternalRecipe, ExternalRecipeError>)
        ensures
            match self.outcome {
                FixedOutcome::Recipe(rec) => if recipe_complete(rec@) {
                    r matches Ok(out) && out@ == rec@
                } else {
                    r matches Err(e) && e is ParseError
                },
                FixedOutcome::FetchFailure(detail) => r matches Err(e) && e matches
                    ExternalRecipeError::FetchError(d) && d@ == detail@,
                FixedOutcome::ParseFailure(detail) => r matches Err(e) && e matches
                    ExternalRecipeError::ParseError(d) && d@ == detail@,
            },
    {
        match &self.outcome {
            FixedOutcome::Recipe(rec) => {
                if !rec.name.as_str().is_empty() && rec.steps.len() > 0 {
                    Ok(rec.clone())
                } else {
                    Err(
                        ExternalRecipeError::ParseError(
                            String::from_str("the stored recipe misses required fields"),
                        ),
                    )
                }
            },
            FixedOutcome::FetchFailure(detail) => Err(
                ExternalRecipeError::FetchError(detail.clone()),
            ),
            FixedOutcome::ParseFailure(detail) => Err(
                ExternalRecipeError::ParseError(detail.clone()),
            ),
        }
    }
}

impl ExternalRecipeGetterTrait for FixedExternalRecipeGetter {
    open spec fn spec_url_matches(&self) -> Seq<UrlMatch> {
        self.rules@
    }

    fn url_matches(&self) -> (r: &Vec<UrlMatch>) {
        &self.rules
    }

    fn get(&self, url: &ParsedUrl) -> (r: Result<ExternalRecipe, ExternalRecipeError>) {
        self.fixed_get()
    }
}

} // verus!

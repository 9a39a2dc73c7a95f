//! Extraction of recipes from external web sources.
//!
//! Given a URL, the crate decides whether a registered source site can supply
//! structured recipe data: a URL is parsed and decomposed, matched against the
//! scheme/domain/path rules each getter declares, and the first getter that
//! claims it is asked to extract a normalized [`recipe::ExternalRecipe`].

pub mod error;
pub mod recipe;
pub mod dispatcher;
pub mod getter;
pub mod strutil;
pub mod url_match;

pub use dispatcher::get;
pub use error::ExternalRecipeError;
pub use getter::ExternalRecipeGetterTrait;
pub use recipe::ExternalRecipe;
pub use recipe::ExternalRecipeStep;
pub use url_match::ParsedUrl;
pub use url_match::PreparedUrl;
pub use url_match::UrlMatch;

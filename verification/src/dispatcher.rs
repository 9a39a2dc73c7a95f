//! The extraction dispatcher: resolve a URL to the first registered getter
//! that claims it, in registration order, and drive the extraction call.

use vstd::prelude::*;

use crate::error::ExternalRecipeError;
use crate::getter::ExternalRecipeGetterTrait;
use crate::recipe::recipe_complete;
use crate::recipe::ExternalRecipe;
use crate::url_match::parse_url_parts;
use crate::url_match::spec_can_get_parts;
use crate::url_match::url_domain;
use crate::url_match::url_path;
use crate::url_match::url_scheme;
use crate::url_match::url_serialization;
use crate::url_match::url_well_formed;
use crate::url_match::ParsedUrlView;

verus! {

/// The position of the first getter in `getters` whose rules match the URL
/// with the given parts; none when no getter's rules do. Registration order
/// decides: overlap between getters is resolved by "first registered wins",
/// which is intentional and relied upon, not a tie-break left to chance.
pub open spec fn spec_first_getter<G: ExternalRecipeGetterTrait>(
    getters: Seq<G>,
    scheme: Seq<char>,
    domain: Option<Seq<char>>,
    path: Seq<char>,
) -> Option<int>
    decreases getters.len(),
{
    if getters.len() == 0 {
        None
    } else if spec_can_get_parts(getters[0].spec_url_matches(), scheme, domain, path) {
        Some(0int)
    } else {
        match spec_first_getter(getters.drop_first(), scheme, domain, path) {
            Some(j) => Some(j + 1),
            None => None,
        }
    }
}

/// `spec_first_getter` points at a getter whose rules match the URL, and at
/// the first such getter: the rules of every earlier getter do not match;
/// and when it is none, no registered getter's rules match.
pub proof fn lemma_first_getter_characterized<G: ExternalRecipeGetterTrait>(
    getters: Seq<G>,
    scheme: Seq<char>,
    domain: Option<Seq<char>>,
    path: Seq<char>,
)
    ensures
        match spec_first_getter(getters, scheme, domain, path) {
            Some(i) => 0 <= i < getters.len() && spec_can_get_parts(
                getters[i].spec_url_matches(),
                scheme,
                domain,
                path,
            ) && forall|k: int|
                0 <= k < i ==> !spec_can_get_parts(
                    getters[k].spec_url_matches(),
                    scheme,
                    domain,
                    path,
                ),
            None => forall|k: int|
                0 <= k < getters.len() ==> !spec_can_get_parts(
                    getters[k].spec_url_matches(),
                    scheme,
                    domain,
                    path,
                ),
        },
    decreases getters.len(),
{
    if getters.len() == 0 {
    } else if spec_can_get_parts(getters[0].spec_url_matches(), scheme, domain, path) {
    } else {
        lemma_first_getter_characterized(getters.drop_first(), scheme, domain, path);
        match spec_first_getter(getters.drop_first(), scheme, domain, path) {
            Some(j) => {
                assert forall|k: int| 0 <= k < j + 1 implies !spec_can_get_parts(
                    getters[k].spec_url_matches(),
                    scheme,
                    domain,
                    path,
                ) by {
                    if k > 0 {
                        assert(getters.drop_first()[k - 1] == getters[k]);
                    }
                }
                assert(getters.drop_first()[j] == getters[j + 1]);
            },
            None => {
                assert forall|k: int| 0 <= k < getters.len() implies !spec_can_get_parts(
                    getters[k].spec_url_matches(),
                    scheme,
                    domain,
                    path,
                ) by {
                    if k > 0 {
                        assert(getters.drop_first()[k - 1] == getters[k]);
                    }
                }
            },
        }
    }
}

/// A getter whose rules match the URL, before which no getter's rules do, is
/// exactly the getter `spec_first_getter` points at.
pub proof fn lemma_first_getter_is<G: ExternalRecipeGetterTrait>(
    getters: Seq<G>,
    scheme: Seq<char>,
    domain: Option<Seq<char>>,
    path: Seq<char>,
    i: int,
)
    requires
        0 <= i < getters.len(),
        spec_can_get_parts(getters[i].spec_url_matches(), scheme, domain, path),
        forall|k: int|
            0 <= k < i ==> !spec_can_get_parts(getters[k].spec_url_matches(), scheme, domain, path),
    ensures
        spec_first_getter(getters, scheme, domain, path) == Some(i),
    decreases getters.len(),
{
    if i == 0 {
    } else {
        assert(!spec_can_get_parts(getters[0].spec_url_matches(), scheme, domain, path));
        assert(getters.drop_first()[i - 1] == getters[i]);
        assert forall|k: int| 0 <= k < i - 1 implies !spec_can_get_parts(
            getters.drop_first()[k].spec_url_matches(),
            scheme,
            domain,
            path,
        ) by {
            assert(getters.drop_first()[k] == getters[k + 1]);
        }
        lemma_first_getter_is(getters.drop_first(), scheme, domain, path, i - 1);
    }
}

/// First registered wins: when the rules of two registered getters both
/// match a URL, the dispatcher's selection falls on the first matching
/// getter in registration order — never on the later of the two — for any
/// call and any number of repetitions.
pub proof fn lemma_first_registered_wins<G: ExternalRecipeGetterTrait>(
    getters: Seq<G>,
    scheme: Seq<char>,
    domain: Option<Seq<char>>,
    path: Seq<char>,
    i: int,
    j: int,
)
    requires
        0 <= i < j < getters.len(),
        spec_can_get_parts(getters[i].spec_url_matches(), scheme, domain, path),
        spec_can_get_parts(getters[j].spec_url_matches(), scheme, domain, path),
    ensures
        match spec_first_getter(getters, scheme, domain, path) {
            Some(k) => k <= i && k < j,
            None => false,
        },
{
    lemma_first_getter_characterized(getters, scheme, domain, path);
}

/// Get an external recipe from a URL.
///
/// The string is parsed — a malformed one is rejected before any getter, or
/// the network, is involved — and the registered getters are asked in
/// registration order whether they can get it; the first that claims it
/// performs the extraction, and its result, success or typed failure, is
/// propagated unchanged. When no getter claims the URL, the failure carries
/// the original string verbatim.
pub fn get<G: ExternalRecipeGetterTrait>(getters: &Vec<G>, url_string: &str) -> (r: Result<
    ExternalRecipe,
    ExternalRecipeError,
>)
    ensures
        ({
            let s = url_string@;
            let selected = spec_first_getter(
                getters@,
                url_scheme(s),
                url_domain(s),
                url_path(s),
            );
            &&& ((r matches Err(e) && e is InvalidUrl) <==> !url_well_formed(s))
            &&& ((r matches Err(e) && e is UrlNotSupported) <==> (url_well_formed(s)
                && selected is None))
            &&& (r matches Err(e) ==> (e matches ExternalRecipeError::UrlNotSupported(u) ==> u@
                == s))
            &&& ((url_well_formed(s) && selected is Some) ==> ((r matches Ok(recipe)
                ==> recipe_complete(recipe@)) && (r matches Err(e) ==> e is FetchError
                || e is ParseError)))
        }),
{
    let parsed = match parse_url_parts(url_string) {
        None => {
            return Err(ExternalRecipeError::InvalidUrl);
        },
        Some(p) => p,
    };
    let ghost s = url_string@;
    let mut i: usize = 0;
    while i < getters.len()
        invariant
            i <= getters@.len(),
            s == url_string@,
            url_well_formed(s),
            parsed@ == (ParsedUrlView {
                serialization: url_serialization(s),
                scheme: url_scheme(s),
                domain: url_domain(s),
                path: url_path(s),
            }),
            forall|k: int|
                0 <= k < i ==> !spec_can_get_parts(
                    getters@[k].spec_url_matches(),
                    url_scheme(s),
                    url_domain(s),
                    url_path(s),
                ),
        decreases getters@.len() - i,
    {
        if getters[i].can_get(&parsed) {
            proof {
                assert(spec_can_get_parts(
                    getters@[i as int].spec_url_matches(),
                    url_scheme(s),
                    url_domain(s),
                    url_path(s),
                ));
                lemma_first_getter_is(
                    getters@,
                    url_scheme(s),
                    url_domain(s),
                    url_path(s),
                    i as int,
                );
            }
            return getters[i].get(&parsed);
        }
        i += 1;
    }
    proof {
        lemma_first_getter_characterized(getters@, url_scheme(s), url_domain(s), url_path(s));
    }
    Err(ExternalRecipeError::UrlNotSupported(String::from_str(url_string)))
}

} // verus!

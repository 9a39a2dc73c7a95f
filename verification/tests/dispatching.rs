//! Tests of the extraction dispatcher and the data-defined getter.

use external_recipe::dispatcher;
use external_recipe::error::ExternalRecipeError;
use external_recipe::getter::ExternalRecipeGetterTrait;
use external_recipe::getter::FixedExternalRecipeGetter;
use external_recipe::getter::FixedOutcome;
use external_recipe::recipe::ExternalRecipe;
use external_recipe::recipe::ExternalRecipeStep;
use external_recipe::url_match::ParsedUrl;
use external_recipe::url_match::UrlMatch;

fn rule(schemes: &[&str], domains: &[&str], path_regex: &str) -> UrlMatch {
    UrlMatch {
        schemes: schemes.iter().map(|s| s.to_string()).collect(),
        domains: domains.iter().map(|s| s.to_string()).collect(),
        path_regex: path_regex.to_string(),
    }
}

fn recipe(name: &str, step: &str) -> ExternalRecipe {
    ExternalRecipe {
        name: name.to_string(),
        ingredients: vec!["1 egg".to_string()],
        files: Vec::new(),
        steps: vec![ExternalRecipeStep {
            ingredients: Vec::new(),
            description: step.to_string(),
            files: vec!["https://example.com/img/step.jpg".to_string()],
        }],
    }
}

fn getter_for(domain: &str, path_regex: &str, outcome: FixedOutcome) -> FixedExternalRecipeGetter {
    FixedExternalRecipeGetter {
        rules: vec![rule(&["https"], &[domain], path_regex)],
        outcome,
    }
}

fn parse(input: &str) -> ParsedUrl {
    let url = url::Url::parse(input).unwrap();
    ParsedUrl {
        serialization: url.as_str().to_string(),
        scheme: url.scheme().to_string(),
        domain: url.domain().map(|d| d.to_string()),
        path: url.path().to_string(),
    }
}

#[test]
fn test_get_returns_the_fixed_recipe() {
    let getters = vec![getter_for(
        "example.com",
        "^/r/",
        FixedOutcome::Recipe(recipe("Cake", "Bake it.")),
    )];
    let result = dispatcher::get(&getters, "https://example.com/r/cake").unwrap();
    assert_eq!(result, recipe("Cake", "Bake it."));
}

#[test]
fn test_get_invalid_url() {
    let getters = vec![getter_for(
        "example.com",
        "^/r/",
        FixedOutcome::Recipe(recipe("Cake", "Bake it.")),
    )];
    let result = dispatcher::get(&getters, "not a url");
    assert!(matches!(result, Err(ExternalRecipeError::InvalidUrl)));
}

#[test]
fn test_get_unsupported_url_carries_the_original_string() {
    let getters = vec![getter_for(
        "example.com",
        "^/r/",
        FixedOutcome::Recipe(recipe("Cake", "Bake it.")),
    )];
    let original = "https://example.org/r/cake/?q=1&lang=en";
    match dispatcher::get(&getters, original) {
        Err(ExternalRecipeError::UrlNotSupported(url)) => assert_eq!(url, original),
        other => panic!("expected UrlNotSupported, got {:?}", other),
    }
}

#[test]
fn test_get_no_host_url_is_unsupported() {
    let getters = vec![getter_for(
        "example.com",
        ".*",
        FixedOutcome::Recipe(recipe("Cake", "Bake it.")),
    )];
    let result = dispatcher::get(&getters, "data:text/plain,hello");
    assert!(matches!(result, Err(ExternalRecipeError::UrlNotSupported(_))));
}

#[test]
fn test_get_first_registered_getter_wins() {
    let getters = vec![
        getter_for("example.com", "^/r/", FixedOutcome::Recipe(recipe("First", "One."))),
        getter_for("example.com", "^/r/", FixedOutcome::Recipe(recipe("Second", "Two."))),
    ];
    for _ in 0..3 {
        let result = dispatcher::get(&getters, "https://example.com/r/cake").unwrap();
        assert_eq!(result.name, "First");
    }
}

#[test]
fn test_get_skips_getters_that_do_not_match() {
    let getters = vec![
        getter_for("example.com", "^/nope/", FixedOutcome::Recipe(recipe("First", "One."))),
        getter_for("example.com", "^/r/", FixedOutcome::Recipe(recipe("Second", "Two."))),
    ];
    let result = dispatcher::get(&getters, "https://example.com/r/cake").unwrap();
    assert_eq!(result.name, "Second");
}

#[test]
fn test_get_is_deterministic_for_a_fixed_getter() {
    let getters = vec![getter_for(
        "example.com",
        "^/r/",
        FixedOutcome::Recipe(recipe("Cake", "Bake it.")),
    )];
    let first = dispatcher::get(&getters, "https://example.com/r/cake").unwrap();
    let second = dispatcher::get(&getters, "https://example.com/r/cake").unwrap();
    assert_eq!(first, second);
}

#[test]
fn test_get_fetch_failure_is_surfaced_unchanged() {
    let getters = vec![getter_for(
        "example.com",
        "^/r/",
        FixedOutcome::FetchFailure("connection timed out".to_string()),
    )];
    match dispatcher::get(&getters, "https://example.com/r/cake") {
        Err(ExternalRecipeError::FetchError(detail)) => {
            assert_eq!(detail, "connection timed out")
        },
        other => panic!("expected FetchError, got {:?}", other),
    }
}

#[test]
fn test_get_parse_failure_is_surfaced_unchanged() {
    let getters = vec![getter_for(
        "example.com",
        "^/r/",
        FixedOutcome::ParseFailure("no recipe element".to_string()),
    )];
    match dispatcher::get(&getters, "https://example.com/r/cake") {
        Err(ExternalRecipeError::ParseError(detail)) => assert_eq!(detail, "no recipe element"),
        other => panic!("expected ParseError, got {:?}", other),
    }
}

#[test]
fn test_get_never_returns_a_partial_recipe() {
    let stored = ExternalRecipe {
        name: "Cake".to_string(),
        ingredients: vec!["1 egg".to_string()],
        files: Vec::new(),
        steps: Vec::new(),
    };
    let getters = vec![getter_for("example.com", "^/r/", FixedOutcome::Recipe(stored))];
    let result = dispatcher::get(&getters, "https://example.com/r/cake");
    assert!(matches!(result, Err(ExternalRecipeError::ParseError(_))));
}

#[test]
fn test_can_get_follows_the_declared_rules() {
    let getter = getter_for(
        "example.com",
        "^/r/",
        FixedOutcome::Recipe(recipe("Cake", "Bake it.")),
    );
    assert!(getter.can_get(&parse("https://example.com/r/cake")));
    assert!(getter.can_get(&parse("https://sub.example.com/r/cake")));
    assert!(!getter.can_get(&parse("http://example.com/r/cake")));
    assert!(!getter.can_get(&parse("https://example.com/other")));
    assert!(!getter.can_get(&parse("data:text/plain,hello")));
}

#[test]
fn test_error_messages() {
    assert_eq!(
        ExternalRecipeError::InvalidUrl.message(),
        "the input is not a well-formed URL"
    );
    assert_eq!(
        ExternalRecipeError::UrlNotSupported("https://example.org/x".to_string()).message(),
        "the URL is not supported: https://example.org/x"
    );
    assert_eq!(
        ExternalRecipeError::FetchError("timed out".to_string()).message(),
        "could not fetch the page: timed out"
    );
    assert_eq!(
        ExternalRecipeError::ParseError("no name".to_string()).message(),
        "could not parse the page: no name"
    );
}

#[test]
fn test_default_recipe_is_empty() {
    let recipe = ExternalRecipe::default();
    assert_eq!(recipe.name, "");
    assert!(recipe.ingredients.is_empty());
    assert!(recipe.files.is_empty());
    assert!(recipe.steps.is_empty());
    let step = ExternalRecipeStep::default();
    assert_eq!(step.description, "");
    assert!(step.ingredients.is_empty());
    assert!(step.files.is_empty());
}

#[test]
fn test_recipe_clone_preserves_every_field() {
    let original = recipe("Cake", "Bake it.");
    let copy = original.clone();
    assert_eq!(copy, original);
    assert_eq!(copy.steps[0].files, original.steps[0].files);
}

use greengrass_nucleus::services::deployment::ComponentRef;
use greengrass_nucleus::services::resolver::{
    component_deploy, get_component, get_s3_object, list_component_version, list_components,
    CatalogEntry, ComponentFetch, FetchAction, FetchError, FetchEvent, FetchStage, VersionEntry,
};

fn catalog() -> Vec<CatalogEntry> {
    vec![
        CatalogEntry { name: "a".into(), arn: "arn:a".into() },
        CatalogEntry { name: "hello".into(), arn: "arn:hello:1".into() },
        CatalogEntry { name: "hello".into(), arn: "arn:hello:2".into() },
    ]
}

fn versions() -> Vec<VersionEntry> {
    vec![
        VersionEntry { version: "1.0.0".into(), arn: "arn:hello:versions:1.0.0".into() },
        VersionEntry { version: "1.0.1".into(), arn: "arn:hello:versions:1.0.1".into() },
    ]
}

const RECIPE: &str = r#"{"ComponentName":"hello","Manifests":[{"Artifacts":[{"Uri":"s3://bucket/path/to/hello.zip"},{"Uri":"s3://bucket/second"}]},{"Artifacts":[{"Uri":"s3://other/third"}]}]}"#;

fn hello() -> ComponentFetch {
    ComponentFetch::new(ComponentRef { name: "hello".into(), version: "1.0.1".into() })
}

fn outcome(action: FetchAction) -> Result<Vec<u8>, FetchError> {
    match action {
        FetchAction::Finished { outcome } => outcome,
        other => panic!("not finished: {:?}", other),
    }
}

#[test]
fn component_that_the_catalog_does_not_list_is_not_found() {
    assert_eq!(list_components(&catalog(), "missing").unwrap_err(), FetchError::ComponentNotFound);
    assert_eq!(list_components(&vec![], "hello").unwrap_err(), FetchError::ComponentNotFound);
    assert_eq!(list_components(&catalog(), "Hello").unwrap_err(), FetchError::ComponentNotFound);
    assert_eq!(list_components(&catalog(), "").unwrap_err(), FetchError::ComponentNotFound);
}

#[test]
fn first_component_of_the_name_is_taken() {
    assert_eq!(list_components(&catalog(), "hello").unwrap(), "arn:hello:1");
    assert_eq!(list_components(&catalog(), "a").unwrap(), "arn:a");
}

#[test]
fn version_is_looked_up() {
    assert_eq!(list_component_version(&versions(), "1.0.1").unwrap(), "arn:hello:versions:1.0.1");
    assert_eq!(list_component_version(&versions(), "1.0.0").unwrap(), "arn:hello:versions:1.0.0");
    assert_eq!(
        list_component_version(&versions(), "2.0.0").unwrap_err(),
        FetchError::VersionNotFound
    );
    assert_eq!(list_component_version(&vec![], "1.0.0").unwrap_err(), FetchError::VersionNotFound);
}

#[test]
fn first_artifact_of_the_first_manifest_is_read() {
    assert_eq!(get_component(RECIPE.as_bytes()).unwrap(), "s3://bucket/path/to/hello.zip");
}

#[test]
fn recipe_without_artifact_is_rejected() {
    for recipe in [
        "{}",
        r#"{"Manifests":[]}"#,
        r#"{"Manifests":[{"Artifacts":[]}]}"#,
        r#"{"Manifests":[{"Artifacts":[{}]}]}"#,
        r#"{"Manifests":[{"Artifacts":[{"Uri":7}]}]}"#,
        r#"{"Manifests":{"Artifacts":[{"Uri":"s3://b/k"}]}}"#,
        "[]",
        "null",
    ] {
        assert_eq!(get_component(recipe.as_bytes()).unwrap_err(), FetchError::MissingArtifact);
    }
}

#[test]
fn recipe_that_is_no_json_is_rejected() {
    for recipe in ["", "{", "RecipeFormatVersion: 2020-01-25", "\u{0}"] {
        assert_eq!(get_component(recipe.as_bytes()).unwrap_err(), FetchError::InvalidRecipe);
    }
    assert_eq!(get_component(&[0xff, 0xfe]).unwrap_err(), FetchError::InvalidRecipe);
}

#[test]
fn location_is_cut_at_its_first_three_separators() {
    let l = get_s3_object("s3://bucket/path/to/hello.zip").unwrap();
    assert_eq!((l.bucket.as_str(), l.key.as_str()), ("bucket", "path/to/hello.zip"));
    let l = get_s3_object("s3://bucket/key").unwrap();
    assert_eq!((l.bucket.as_str(), l.key.as_str()), ("bucket", "key"));
    let l = get_s3_object("s3://bucket/").unwrap();
    assert_eq!((l.bucket.as_str(), l.key.as_str()), ("bucket", ""));
    let l = get_s3_object("a/b/c/d").unwrap();
    assert_eq!((l.bucket.as_str(), l.key.as_str()), ("c", "d"));
    let l = get_s3_object("///").unwrap();
    assert_eq!((l.bucket.as_str(), l.key.as_str()), ("", ""));
    let l = get_s3_object("s3://büçket/kéy/✓").unwrap();
    assert_eq!((l.bucket.as_str(), l.key.as_str()), ("büçket", "kéy/✓"));
}

#[test]
fn location_with_fewer_separators_is_rejected() {
    for uri in ["", "bucket", "s3:/bucket", "s3://bucket", "a/b", "//"] {
        assert_eq!(get_s3_object(uri).unwrap_err(), FetchError::InvalidArtifactUri, "{:?}", uri);
    }
}

#[test]
fn fetch_runs_through_its_four_calls() {
    let mut fetch = hello();
    assert_eq!(fetch.stage(), FetchStage::Start);
    assert!(matches!(component_deploy(&mut fetch, FetchEvent::Begin), FetchAction::ListComponents));
    assert_eq!(fetch.stage(), FetchStage::Components);
    match component_deploy(&mut fetch, FetchEvent::Components(catalog())) {
        FetchAction::ListComponentVersions { arn } => assert_eq!(arn, "arn:hello:1"),
        other => panic!("{:?}", other),
    }
    assert_eq!(fetch.stage(), FetchStage::Versions);
    match component_deploy(&mut fetch, FetchEvent::Versions(versions())) {
        FetchAction::GetComponent { arn } => assert_eq!(arn, "arn:hello:versions:1.0.1"),
        other => panic!("{:?}", other),
    }
    assert_eq!(fetch.stage(), FetchStage::Recipe);
    match component_deploy(&mut fetch, FetchEvent::Recipe(RECIPE.as_bytes().to_vec())) {
        FetchAction::GetObject { location } => {
            assert_eq!(location.bucket, "bucket");
            assert_eq!(location.key, "path/to/hello.zip");
        }
        other => panic!("{:?}", other),
    }
    assert_eq!(fetch.stage(), FetchStage::Object);
    let bytes = outcome(component_deploy(&mut fetch, FetchEvent::Object(vec![1, 2, 3]))).unwrap();
    assert_eq!(bytes, vec![1, 2, 3]);
    assert_eq!(fetch.stage(), FetchStage::Done);
}

#[test]
fn fetch_ends_where_an_answer_lacks_what_was_looked_for() {
    let mut fetch = hello();
    component_deploy(&mut fetch, FetchEvent::Begin);
    let r = outcome(component_deploy(&mut fetch, FetchEvent::Components(vec![])));
    assert_eq!(r.unwrap_err(), FetchError::ComponentNotFound);
    assert_eq!(fetch.stage(), FetchStage::Done);

    let mut fetch = hello();
    component_deploy(&mut fetch, FetchEvent::Begin);
    component_deploy(&mut fetch, FetchEvent::Components(catalog()));
    let r = outcome(component_deploy(&mut fetch, FetchEvent::Versions(vec![])));
    assert_eq!(r.unwrap_err(), FetchError::VersionNotFound);

    let mut fetch = hello();
    component_deploy(&mut fetch, FetchEvent::Begin);
    component_deploy(&mut fetch, FetchEvent::Components(catalog()));
    component_deploy(&mut fetch, FetchEvent::Versions(versions()));
    let r = outcome(component_deploy(&mut fetch, FetchEvent::Recipe(b"{".to_vec())));
    assert_eq!(r.unwrap_err(), FetchError::InvalidRecipe);

    let mut fetch = hello();
    component_deploy(&mut fetch, FetchEvent::Begin);
    component_deploy(&mut fetch, FetchEvent::Components(catalog()));
    component_deploy(&mut fetch, FetchEvent::Versions(versions()));
    let r = outcome(component_deploy(&mut fetch, FetchEvent::Recipe(b"{}".to_vec())));
    assert_eq!(r.unwrap_err(), FetchError::MissingArtifact);

    let mut fetch = hello();
    component_deploy(&mut fetch, FetchEvent::Begin);
    component_deploy(&mut fetch, FetchEvent::Components(catalog()));
    component_deploy(&mut fetch, FetchEvent::Versions(versions()));
    let recipe = br#"{"Manifests":[{"Artifacts":[{"Uri":"bucket/key"}]}]}"#.to_vec();
    let r = outcome(component_deploy(&mut fetch, FetchEvent::Recipe(recipe)));
    assert_eq!(r.unwrap_err(), FetchError::InvalidArtifactUri);
}

#[test]
fn failed_call_ends_the_fetch() {
    for calls in 1..=4 {
        let mut fetch = hello();
        let events = vec![
            FetchEvent::Begin,
            FetchEvent::Components(catalog()),
            FetchEvent::Versions(versions()),
            FetchEvent::Recipe(RECIPE.as_bytes().to_vec()),
        ];
        for event in events.into_iter().take(calls) {
            component_deploy(&mut fetch, event);
        }
        let r = outcome(component_deploy(&mut fetch, FetchEvent::Failed));
        assert_eq!(r.unwrap_err(), FetchError::Network);
        assert_eq!(fetch.stage(), FetchStage::Done);
    }
}

#[test]
fn answer_out_of_turn_ends_the_fetch() {
    let mut fetch = hello();
    let r = outcome(component_deploy(&mut fetch, FetchEvent::Failed));
    assert_eq!(r.unwrap_err(), FetchError::OutOfTurn);
    assert_eq!(fetch.stage(), FetchStage::Done);
    let r = outcome(component_deploy(&mut fetch, FetchEvent::Begin));
    assert_eq!(r.unwrap_err(), FetchError::OutOfTurn);

    let mut fetch = hello();
    let r = outcome(component_deploy(&mut fetch, FetchEvent::Components(catalog())));
    assert_eq!(r.unwrap_err(), FetchError::OutOfTurn);

    let mut fetch = hello();
    component_deploy(&mut fetch, FetchEvent::Begin);
    let r = outcome(component_deploy(&mut fetch, FetchEvent::Object(vec![])));
    assert_eq!(r.unwrap_err(), FetchError::OutOfTurn);
    assert_eq!(fetch.stage(), FetchStage::Done);
}

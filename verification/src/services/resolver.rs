//! The component resolver.
//!
//! A component is resolved in four calls to the cloud: list the components
//! of the catalog, list the versions of the one that was asked for, get the
//! recipe of the right version, and get the artifact that the recipe names
//! from the object store. The calls are the caller's. This module decides
//! what each answer leads to: `component_deploy` takes the answer to the
//! last call and returns the next call to make, or the outcome.
use vstd::prelude::*;
use crate::json::{decode_document, document};
use crate::services::deployment::ComponentRef;
use crate::text::{chars_of, find_from, first_index_of};

verus! {

/// Why a component was not fetched.
#[derive(Clone, Copy, Debug, PartialEq, Eq, Structural)]
pub enum FetchError {
    /// The catalog lists no component of the name.
    ComponentNotFound,
    /// The component has no such version.
    VersionNotFound,
    /// The recipe is no JSON document.
    InvalidRecipe,
    /// The first manifest of the recipe names no artifact.
    MissingArtifact,
    /// The location of the artifact has fewer than three `/`.
    InvalidArtifactUri,
    /// A call to the cloud failed.
    Network,
    /// An answer came that the fetch was not waiting for.
    OutOfTurn,
}

/// A component as the catalog lists it.
#[derive(Clone, Debug)]
pub struct CatalogEntry {
    pub name: String,
    pub arn: String,
}

/// A version of a component as the catalog lists it.
#[derive(Clone, Debug)]
pub struct VersionEntry {
    pub version: String,
    pub arn: String,
}

/// Where an artifact lies in the object store.
#[derive(Clone, Debug)]
pub struct ObjectLocation {
    pub bucket: String,
    pub key: String,
}

/// The mathematical content of an `ObjectLocation`.
pub ghost struct ObjectLocationView {
    pub bucket: Seq<char>,
    pub key: Seq<char>,
}

impl View for ObjectLocation {
    type V = ObjectLocationView;

    open spec fn view(&self) -> ObjectLocationView {
        ObjectLocationView { bucket: self.bucket@, key: self.key@ }
    }
}

/// The ARN of the first component of the name `name` in `catalog`.
pub open spec fn list_components_spec(
    catalog: Seq<CatalogEntry>,
    name: Seq<char>,
) -> Result<Seq<char>, FetchError>
    decreases catalog.len(),
{
    if catalog.len() == 0 {
        Err(FetchError::ComponentNotFound)
    } else if catalog.first().name@ == name {
        Ok(catalog.first().arn@)
    } else {
        list_components_spec(catalog.drop_first(), name)
    }
}

/// The ARN of the first version `version` in `versions`.
pub open spec fn list_component_version_spec(
    versions: Seq<VersionEntry>,
    version: Seq<char>,
) -> Result<Seq<char>, FetchError>
    decreases versions.len(),
{
    if versions.len() == 0 {
        Err(FetchError::VersionNotFound)
    } else if versions.first().version@ == version {
        Ok(versions.first().arn@)
    } else {
        list_component_version_spec(versions.drop_first(), version)
    }
}

/// The location of the artifact that a recipe names, over what `serde_json`
/// reads from the recipe.
pub open spec fn get_component_spec(recipe: Seq<u8>) -> Result<Seq<char>, FetchError> {
    match document(recipe) {
        None => Err(FetchError::InvalidRecipe),
        Some(members) => match members.artifact_uri {
            None => Err(FetchError::MissingArtifact),
            Some(uri) => Ok(uri),
        },
    }
}

/// The bucket and the key of a location of the shape
/// `<scheme>://<bucket>/<key>`: the location is cut at its first three
/// `/`; the bucket is what stands between the second and the third, the key
/// all that follows the third.
pub open spec fn get_s3_object_spec(uri: Seq<char>) -> Result<ObjectLocationView, FetchError> {
    let first = first_index_of(uri, '/');
    let after_first = uri.skip(first + 1);
    let second = first_index_of(after_first, '/');
    let after_second = after_first.skip(second + 1);
    let third = first_index_of(after_second, '/');
    if first >= uri.len() || second >= after_first.len() || third >= after_second.len() {
        Err(FetchError::InvalidArtifactUri)
    } else {
        Ok(
            ObjectLocationView {
                bucket: after_second.take(third),
                key: after_second.skip(third + 1),
            },
        )
    }
}

/// Where no component of the catalog has the name, the outcome is
/// `ComponentNotFound`; and an outcome other than that names a component of
/// the catalog.
pub proof fn lemma_list_components(catalog: Seq<CatalogEntry>, name: Seq<char>)
    ensures
        (forall|i: int| 0 <= i < catalog.len() ==> (#[trigger] catalog[i]).name@ != name)
            <==> list_components_spec(catalog, name) == Err::<Seq<char>, FetchError>(
            FetchError::ComponentNotFound,
        ),
        list_components_spec(catalog, name) matches Ok(arn) ==> exists|i: int|
            0 <= i < catalog.len() && (#[trigger] catalog[i]).name@ == name && catalog[i].arn@
                == arn,
        list_components_spec(catalog, name) matches Err(e) ==> e == FetchError::ComponentNotFound,
    decreases catalog.len(),
{
    if catalog.len() > 0 {
        let rest = catalog.drop_first();
        lemma_list_components(rest, name);
        if catalog.first().name@ == name {
            assert(catalog[0].name@ == name);
        } else {
            assert forall|i: int| 0 <= i < rest.len() implies rest[i] == catalog[i + 1] by {}
            if forall|i: int| 0 <= i < rest.len() ==> (#[trigger] rest[i]).name@ != name {
                assert forall|i: int| 0 <= i < catalog.len() implies (#[trigger] catalog[i]).name@
                    != name by {
                    if i > 0 {
                        assert(rest[i - 1] == catalog[i]);
                    }
                }
            } else {
                let k = choose|k: int| 0 <= k < rest.len() && (#[trigger] rest[k]).name@ == name;
                assert(catalog[k + 1].name@ == name);
            }
            if list_components_spec(catalog, name) is Ok {
                let k = choose|k: int|
                    0 <= k < rest.len() && (#[trigger] rest[k]).name@ == name && rest[k].arn@
                        == list_components_spec(rest, name)->Ok_0;
                assert(catalog[k + 1] == rest[k]);
            }
        }
    }
}

/// Looks the component `name` up in what the catalog answered when asked
/// for its components.
pub fn list_components(catalog: &Vec<CatalogEntry>, name: &str) -> (r: Result<String, FetchError>)
    ensures
        match r {
            Ok(arn) => list_components_spec(catalog@, name@) == Ok::<Seq<char>, FetchError>(arn@),
            Err(e) => list_components_spec(catalog@, name@) == Err::<Seq<char>, FetchError>(e),
        },
{
    let wanted = name.to_owned();
    let mut i: usize = 0;
    assert(catalog@.skip(0) =~= catalog@);
    while i < catalog.len()
        invariant
            i <= catalog@.len(),
            wanted@ == name@,
            list_components_spec(catalog@, name@) == list_components_spec(
                catalog@.skip(i as int),
                name@,
            ),
        decreases catalog@.len() - i,
    {
        proof {
            assert(catalog@.skip(i as int).drop_first() =~= catalog@.skip(i + 1));
            assert(catalog@.skip(i as int).first() == catalog@[i as int]);
        }
        if catalog[i].name == wanted {
            return Ok(catalog[i].arn.clone());
        }
        i = i + 1;
    }
    Err(FetchError::ComponentNotFound)
}

/// Looks the version `version` up in what the catalog answered when asked
/// for the versions of a component.
pub fn list_component_version(
    versions: &Vec<VersionEntry>,
    version: &str,
) -> (r: Result<String, FetchError>)
    ensures
        match r {
            Ok(arn) => list_component_version_spec(versions@, version@) == Ok::<
                Seq<char>,
                FetchError,
            >(arn@),
            Err(e) => list_component_version_spec(versions@, version@) == Err::<
                Seq<char>,
                FetchError,
            >(e),
        },
{
    let wanted = version.to_owned();
    let mut i: usize = 0;
    assert(versions@.skip(0) =~= versions@);
    while i < versions.len()
        invariant
            i <= versions@.len(),
            wanted@ == version@,
            list_component_version_spec(versions@, version@) == list_component_version_spec(
                versions@.skip(i as int),
                version@,
            ),
        decreases versions@.len() - i,
    {
        proof {
            assert(versions@.skip(i as int).drop_first() =~= versions@.skip(i + 1));
            assert(versions@.skip(i as int).first() == versions@[i as int]);
        }
        if versions[i].version == wanted {
            return Ok(versions[i].arn.clone());
        }
        i = i + 1;
    }
    Err(FetchError::VersionNotFound)
}

/// Reads the location of the artifact out of a recipe. Only the first
/// artifact of the first manifest is looked at.
pub fn get_component(recipe: &[u8]) -> (r: Result<String, FetchError>)
    ensures
        match r {
            Ok(uri) => get_component_spec(recipe@) == Ok::<Seq<char>, FetchError>(uri@),
            Err(e) => get_component_spec(recipe@) == Err::<Seq<char>, FetchError>(e),
        },
{
    match decode_document(recipe) {
        Err(_) => Err(FetchError::InvalidRecipe),
        Ok(members) => match members.artifact_uri {
            None => Err(FetchError::MissingArtifact),
            Some(uri) => Ok(uri),
        },
    }
}

/// Reads the bucket and the key out of the location of an artifact. The
/// scheme is not looked at.
pub fn get_s3_object(uri: &str) -> (r: Result<ObjectLocation, FetchError>)
    ensures
        match r {
            Ok(location) => get_s3_object_spec(uri@) == Ok::<ObjectLocationView, FetchError>(
                location@,
            ),
            Err(e) => get_s3_object_spec(uri@) == Err::<ObjectLocationView, FetchError>(e),
        },
{
    let chars = chars_of(uri);
    let len = chars.len();
    let ghost after_first = uri@.skip(first_index_of(uri@, '/') + 1);
    let ghost after_second = after_first.skip(first_index_of(after_first, '/') + 1);
    assert(chars@.subrange(0, len as int) =~= uri@);
    let first = find_from(&chars, 0, '/');
    if first >= len {
        return Err(FetchError::InvalidArtifactUri);
    }
    assert(chars@.subrange(first + 1, len as int) =~= after_first);
    let second = find_from(&chars, first + 1, '/');
    if first + 1 + second >= len {
        return Err(FetchError::InvalidArtifactUri);
    }
    assert(chars@.subrange(first + 1 + second + 1, len as int) =~= after_second);
    let start = first + 1 + second + 1;
    let third = find_from(&chars, start, '/');
    if start + third >= len {
        return Err(FetchError::InvalidArtifactUri);
    }
    proof {
        assert(uri@.subrange(start as int, start + third) =~= after_second.take(third as int));
        assert(uri@.subrange(start + third + 1, len as int) =~= after_second.skip(third + 1));
    }
    Ok(
        ObjectLocation {
            bucket: uri.substring_char(start, start + third).to_owned(),
            key: uri.substring_char(start + third + 1, len).to_owned(),
        },
    )
}

/// What a fetch waits for.
#[derive(Clone, Copy, Debug, PartialEq, Eq, Structural)]
pub enum FetchStage {
    /// The word to begin.
    Start,
    /// The components of the catalog.
    Components,
    /// The versions of the component.
    Versions,
    /// The recipe of the version.
    Recipe,
    /// The bytes of the artifact.
    Object,
    /// Nothing: the fetch has ended.
    Done,
}

impl FetchStage {
    /// The number of answers that a fetch at this stage can still take.
    pub open spec fn rank(self) -> nat {
        match self {
            FetchStage::Start => 5,
            FetchStage::Components => 4,
            FetchStage::Versions => 3,
            FetchStage::Recipe => 2,
            FetchStage::Object => 1,
            FetchStage::Done => 0,
        }
    }
}

/// What came back from the call that a fetch asked for.
#[derive(Clone, Debug)]
pub enum FetchEvent {
    /// Nothing yet: the fetch is to begin.
    Begin,
    Components(Vec<CatalogEntry>),
    Versions(Vec<VersionEntry>),
    Recipe(Vec<u8>),
    Object(Vec<u8>),
    /// The call failed.
    Failed,
}

/// The call that a fetch asks for next, or its outcome.
#[derive(Debug)]
pub enum FetchAction {
    ListComponents,
    ListComponentVersions { arn: String },
    GetComponent { arn: String },
    GetObject { location: ObjectLocation },
    /// The fetch has ended, with the bytes of the artifact or without.
    Finished { outcome: Result<Vec<u8>, FetchError> },
}

/// The mathematical content of a `FetchAction`.
pub ghost enum FetchActionView {
    ListComponents,
    ListComponentVersions { arn: Seq<char> },
    GetComponent { arn: Seq<char> },
    GetObject { location: ObjectLocationView },
    Finished { outcome: Result<Seq<u8>, FetchError> },
}

impl View for FetchAction {
    type V = FetchActionView;

    open spec fn view(&self) -> FetchActionView {
        match self {
            FetchAction::ListComponents => FetchActionView::ListComponents,
            FetchAction::ListComponentVersions { arn } => FetchActionView::ListComponentVersions {
                arn: arn@,
            },
            FetchAction::GetComponent { arn } => FetchActionView::GetComponent { arn: arn@ },
            FetchAction::GetObject { location } => FetchActionView::GetObject {
                location: location@,
            },
            FetchAction::Finished { outcome } => FetchActionView::Finished {
                outcome: match outcome {
                    Ok(bytes) => Ok(bytes@),
                    Err(e) => Err(*e),
                },
            },
        }
    }
}

/// The end of a fetch without the artifact.
pub open spec fn failed(e: FetchError) -> (FetchStage, FetchActionView) {
    (FetchStage::Done, FetchActionView::Finished { outcome: Err(e) })
}

/// The stage that follows and the action to take when `event` comes to a
/// fetch of the component `name` in the version `version` that stands at
/// `stage`. Each answer that was waited for leads to the next call, or to
/// the end where it does not hold what was looked for; a failed call ends
/// the fetch; so does an answer that was not waited for.
pub open spec fn component_deploy_spec(
    stage: FetchStage,
    name: Seq<char>,
    version: Seq<char>,
    event: FetchEvent,
) -> (FetchStage, FetchActionView) {
    match (stage, event) {
        (FetchStage::Start, FetchEvent::Begin) => (
            FetchStage::Components,
            FetchActionView::ListComponents,
        ),
        (FetchStage::Components, FetchEvent::Components(catalog)) => match list_components_spec(
            catalog@,
            name,
        ) {
            Ok(arn) => (FetchStage::Versions, FetchActionView::ListComponentVersions { arn }),
            Err(e) => failed(e),
        },
        (
            FetchStage::Versions,
            FetchEvent::Versions(versions),
        ) => match list_component_version_spec(versions@, version) {
            Ok(arn) => (FetchStage::Recipe, FetchActionView::GetComponent { arn }),
            Err(e) => failed(e),
        },
        (FetchStage::Recipe, FetchEvent::Recipe(recipe)) => match get_component_spec(recipe@) {
            Ok(uri) => match get_s3_object_spec(uri) {
                Ok(location) => (FetchStage::Object, FetchActionView::GetObject { location }),
                Err(e) => failed(e),
            },
            Err(e) => failed(e),
        },
        (FetchStage::Object, FetchEvent::Object(bytes)) => (
            FetchStage::Done,
            FetchActionView::Finished { outcome: Ok(bytes@) },
        ),
        (FetchStage::Components, FetchEvent::Failed) => failed(FetchError::Network),
        (FetchStage::Versions, FetchEvent::Failed) => failed(FetchError::Network),
        (FetchStage::Recipe, FetchEvent::Failed) => failed(FetchError::Network),
        (FetchStage::Object, FetchEvent::Failed) => failed(FetchError::Network),
        _ => failed(FetchError::OutOfTurn),
    }
}

/// The fetch of one component: what is fetched, and what it waits for.
#[derive(Clone, Debug)]
pub struct ComponentFetch {
    component: ComponentRef,
    stage: FetchStage,
}

impl ComponentFetch {
    /// The name of the component.
    pub closed spec fn name(&self) -> Seq<char> {
        self.component.name@
    }

    /// The version of the component.
    pub closed spec fn version(&self) -> Seq<char> {
        self.component.version@
    }

    /// What the fetch waits for.
    pub closed spec fn spec_stage(&self) -> FetchStage {
        self.stage
    }

    /// A fetch of `component` that waits for the word to begin.
    pub fn new(component: ComponentRef) -> (fetch: ComponentFetch)
        ensures
            fetch.name() == component.name@,
            fetch.version() == component.version@,
            fetch.spec_stage() == FetchStage::Start,
    {
        ComponentFetch { component, stage: FetchStage::Start }
    }

    /// What the fetch waits for.
    pub fn stage(&self) -> (stage: FetchStage)
        ensures
            stage == self.spec_stage(),
    {
        self.stage
    }
}

/// Takes what came back from the last call of a fetch and says which call
/// to make next, or how the fetch ended. A fetch ends after five answers at
/// most: each one brings it a stage nearer to its end.
pub fn component_deploy(fetch: &mut ComponentFetch, event: FetchEvent) -> (action: FetchAction)
    ensures
        (final(fetch).spec_stage(), action@) == component_deploy_spec(
            old(fetch).spec_stage(),
            old(fetch).name(),
            old(fetch).version(),
            event,
        ),
        final(fetch).name() == old(fetch).name(),
        final(fetch).version() == old(fetch).version(),
        final(fetch).spec_stage().rank() < old(fetch).spec_stage().rank()
            || final(fetch).spec_stage() == FetchStage::Done,
        action is Finished <==> final(fetch).spec_stage() == FetchStage::Done,
{
    let stage = fetch.stage;
    fetch.stage = FetchStage::Done;
    match (stage, event) {
        (FetchStage::Start, FetchEvent::Begin) => {
            fetch.stage = FetchStage::Components;
            FetchAction::ListComponents
        },
        (FetchStage::Components, FetchEvent::Components(catalog)) => {
            match list_components(&catalog, fetch.component.name.as_str()) {
                Ok(arn) => {
                    fetch.stage = FetchStage::Versions;
                    FetchAction::ListComponentVersions { arn }
                },
                Err(e) => FetchAction::Finished { outcome: Err(e) },
            }
        },
        (FetchStage::Versions, FetchEvent::Versions(versions)) => {
            match list_component_version(&versions, fetch.component.version.as_str()) {
                Ok(arn) => {
                    fetch.stage = FetchStage::Recipe;
                    FetchAction::GetComponent { arn }
                },
                Err(e) => FetchAction::Finished { outcome: Err(e) },
            }
        },
        (FetchStage::Recipe, FetchEvent::Recipe(recipe)) => {
            let uri = match get_component(recipe.as_slice()) {
                Ok(uri) => uri,
                Err(e) => {
                    return FetchAction::Finished { outcome: Err(e) };
                },
            };
            match get_s3_object(uri.as_str()) {
                Ok(location) => {
                    fetch.stage = FetchStage::Object;
                    FetchAction::GetObject { location }
                },
                Err(e) => FetchAction::Finished { outcome: Err(e) },
            }
        },
        (FetchStage::Object, FetchEvent::Object(bytes)) => FetchAction::Finished {
            outcome: Ok(bytes),
        },
        (FetchStage::Components, FetchEvent::Failed) => FetchAction::Finished {
            outcome: Err(FetchError::Network),
        },
        (FetchStage::Versions, FetchEvent::Failed) => FetchAction::Finished {
            outcome: Err(FetchError::Network),
        },
        (FetchStage::Recipe, FetchEvent::Failed) => FetchAction::Finished {
            outcome: Err(FetchError::Network),
        },
        (FetchStage::Object, FetchEvent::Failed) => FetchAction::Finished {
            outcome: Err(FetchError::Network),
        },
        _ => FetchAction::Finished { outcome: Err(FetchError::OutOfTurn) },
    }
}

} // verus!

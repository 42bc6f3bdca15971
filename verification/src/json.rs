//! The JSON documents that the library reads, and the JSON strings that it
//! writes.
//!
//! JSON is decoded and encoded by `serde_json`. Each decoder here hands the
//! members that the library reads over as plain values; what it hands over
//! for given bytes or text is named by a specification function without a
//! body, so that the contracts of the functions built on it can be exact
//! without stating what JSON is.
use vstd::prelude::*;

verus! {

/// The members that the library reads from a JSON document that arrives as
/// bytes. Such a document is a shadow delta or a recipe: a delta has the
/// first two members, a recipe the last one.
#[derive(Clone, Debug)]
pub struct Document {
    /// The member `version`, as JSON text; `null` where the document has
    /// none.
    pub version: String,
    /// The member `fleetConfig` of the member `state`, where it is a
    /// string: a JSON document of its own.
    pub fleet_config: Option<String>,
    /// The member `Uri` of the first of the `Artifacts` of the first of the
    /// `Manifests`, where it is a string.
    pub artifact_uri: Option<String>,
}

/// The mathematical content of a `Document`.
pub ghost struct DocumentView {
    pub version: Seq<char>,
    pub fleet_config: Option<Seq<char>>,
    pub artifact_uri: Option<Seq<char>>,
}

impl View for Document {
    type V = DocumentView;

    open spec fn view(&self) -> DocumentView {
        DocumentView {
            version: self.version@,
            fleet_config: match self.fleet_config {
                Some(text) => Some(text@),
                None => None,
            },
            artifact_uri: match self.artifact_uri {
                Some(text) => Some(text@),
                None => None,
            },
        }
    }
}

/// One member of `components` in a fleet configuration.
#[derive(Clone, Debug)]
pub struct ComponentEntry {
    /// The member's key: the name of the component.
    pub name: String,
    /// The member `version` of the component, as JSON text, where the
    /// component is an object that has one.
    pub version: Option<String>,
}

/// The mathematical content of a `ComponentEntry`.
pub ghost struct ComponentEntryView {
    pub name: Seq<char>,
    pub version: Option<Seq<char>>,
}

impl View for ComponentEntry {
    type V = ComponentEntryView;

    open spec fn view(&self) -> ComponentEntryView {
        ComponentEntryView {
            name: self.name@,
            version: match self.version {
                Some(text) => Some(text@),
                None => None,
            },
        }
    }
}

/// The views of a sequence of entries.
pub open spec fn entry_views(entries: Seq<ComponentEntry>) -> Seq<ComponentEntryView> {
    entries.map_values(|e: ComponentEntry| e@)
}

/// The members of a fleet configuration that the library reads.
#[derive(Clone, Debug)]
pub struct FleetConfigDocument {
    /// The member `configurationArn`, where it is a string.
    pub configuration_arn: Option<String>,
    /// The member `components`: `None` where the configuration has none,
    /// `Some(None)` where it has one that is no object, else its members in
    /// the order in which `serde_json` keeps them.
    pub components: Option<Option<Vec<ComponentEntry>>>,
}

/// The mathematical content of a `FleetConfigDocument`.
pub ghost struct FleetConfigDocumentView {
    pub configuration_arn: Option<Seq<char>>,
    pub components: Option<Option<Seq<ComponentEntryView>>>,
}

impl View for FleetConfigDocument {
    type V = FleetConfigDocumentView;

    open spec fn view(&self) -> FleetConfigDocumentView {
        FleetConfigDocumentView {
            configuration_arn: match self.configuration_arn {
                Some(text) => Some(text@),
                None => None,
            },
            components: match self.components {
                Some(Some(entries)) => Some(Some(entry_views(entries@))),
                Some(None) => Some(None),
                None => None,
            },
        }
    }
}

/// The error type of `serde_json`. Nothing is read from it.
#[verifier::external_type_specification]
#[verifier::external_body]
pub struct ExJsonError(serde_json::Error);

/// What `serde_json` reads from the bytes of a document; `None` where the
/// bytes are no JSON document.
pub uninterp spec fn document(bytes: Seq<u8>) -> Option<DocumentView>;

/// What `serde_json` reads from the text of a fleet configuration; `None`
/// where the text is no JSON document.
pub uninterp spec fn fleet_config_document(text: Seq<char>) -> Option<FleetConfigDocumentView>;

/// The JSON string, quotes and escapes included, that `serde_json` writes
/// for `s`.
pub uninterp spec fn json_string(s: Seq<char>) -> Seq<char>;

/// Parses a document with `serde_json::from_slice` and hands over its
/// members `version`, `state.fleetConfig` and
/// `Manifests[0].Artifacts[0].Uri`. The contract only names the outcome: it
/// is a function of the bytes.
#[verifier::external_body]
pub(crate) fn decode_document(bytes: &[u8]) -> (r: Result<Document, serde_json::Error>)
    ensures
        r matches Ok(d) ==> document(bytes@) == Some(d@),
        r is Err ==> document(bytes@) is None,
{
    let v: serde_json::Value = serde_json::from_slice(bytes)?;
    Ok(
        Document {
            version: v["version"].to_string(),
            fleet_config: v["state"]["fleetConfig"].as_str().map(String::from),
            artifact_uri: v["Manifests"][0]["Artifacts"][0]["Uri"].as_str().map(String::from),
        },
    )
}

/// Parses a fleet configuration with `serde_json::from_str` and hands over
/// its member `configurationArn`, whether it has a member `components` and
/// whether that is an object, and, for each member of `components`, the key
/// and the member `version`. The contract only names the outcome: it is a
/// function of the text.
#[verifier::external_body]
pub(crate) fn decode_fleet_config(
    text: &str,
) -> (r: Result<FleetConfigDocument, serde_json::Error>)
    ensures
        r matches Ok(d) ==> fleet_config_document(text@) == Some(d@),
        r is Err ==> fleet_config_document(text@) is None,
{
    let v: serde_json::Value = serde_json::from_str(text)?;
    let entry = |(k, c): (&String, &serde_json::Value)| ComponentEntry {
        name: k.clone(),
        version: c.get("version").map(|x| x.to_string()),
    };
    let entries = |c: &serde_json::Value| c.as_object().map(|m| m.iter().map(entry).collect());
    Ok(
        FleetConfigDocument {
            configuration_arn: v["configurationArn"].as_str().map(String::from),
            components: v.get("components").map(entries),
        },
    )
}

/// Writes `s` as a JSON string with `serde_json`, through the `Display` of
/// `serde_json::Value`. The contract only names the outcome: it is a
/// function of the characters.
#[verifier::external_body]
pub(crate) fn encode_string(s: &str) -> (r: String)
    ensures
        r@ == json_string(s@),
{
    serde_json::Value::String(s.to_string()).to_string()
}

} // verus!

//! Shadow topics: the MQTT topic strings under which a device shadow is read
//! and written.
//!
//! A shadow topic names a thing, optionally a named shadow of it, and the
//! operation:
//! `$aws/things/<thing>/shadow/<operation>` for the classic shadow and
//! `$aws/things/<thing>/shadow/name/<shadow>/<operation>` for a named one.
//! Topics are taken apart and put together by the device SDK; this module
//! states what the SDK does and keeps it from the inputs on which it would
//! not return. What follows from that is proved in `laws`.
use vstd::prelude::*;
use vstd::utf8::encode_utf8;
use crate::text::{chars_of, count_char, occurrences};
use crate::topic::laws::{lemma_op_text_shape, lemma_reading_separators};

pub mod laws;

verus! {

/// A thing name is shorter than this.
pub const THING_NAME_LIMIT: usize = 128;

/// A shadow name is shorter than this.
pub const SHADOW_NAME_LIMIT: usize = 64;

/// The longest topic that `assemble` builds.
pub const TOPIC_CAPACITY: usize = 224;

/// A topic that is classified is shorter than this, in bytes.
pub const TOPIC_BYTES_LIMIT: usize = 65535;

/// The SDK takes a topic of fewer `/` than this. A shadow topic holds
/// seven at most.
pub const SEPARATOR_LIMIT: usize = 16;

/// What a shadow message is about.
#[derive(Clone, Copy, Debug, PartialEq, Eq, Structural)]
pub enum ShadowOperation {
    Get,
    GetAccepted,
    GetRejected,
    Delete,
    DeleteAccepted,
    DeleteRejected,
    Update,
    UpdateAccepted,
    UpdateRejected,
    UpdateDocuments,
    UpdateDelta,
}

/// Why a topic was not classified or not assembled.
#[derive(Clone, Copy, Debug, PartialEq, Eq, Structural)]
pub enum TopicError {
    /// The topic is no shadow topic. Callers ignore such a message.
    NoMatch,
    /// The thing name is empty, too long, or holds a character that no
    /// thing name may hold.
    InvalidThingName,
    /// The same, of the shadow name.
    InvalidShadowName,
    /// The topic would be longer than `TOPIC_CAPACITY`.
    TooLong,
}

/// A shadow topic taken apart.
#[derive(Clone, Debug)]
pub struct ShadowTopic {
    pub op: ShadowOperation,
    pub thing_name: String,
    /// `None` for the classic shadow.
    pub shadow_name: Option<String>,
}

/// The mathematical content of a `ShadowTopic`.
pub ghost struct ShadowTopicView {
    pub op: ShadowOperation,
    pub thing_name: Seq<char>,
    pub shadow_name: Option<Seq<char>>,
}

impl View for ShadowTopic {
    type V = ShadowTopicView;

    open spec fn view(&self) -> ShadowTopicView {
        ShadowTopicView {
            op: self.op,
            thing_name: self.thing_name@,
            shadow_name: match self.shadow_name {
                Some(n) => Some(n@),
                None => None,
            },
        }
    }
}

/// The reading with these three parts.
pub open spec fn topic_of(
    op: ShadowOperation,
    thing_name: Seq<char>,
    shadow_name: Option<Seq<char>>,
) -> ShadowTopicView {
    ShadowTopicView { op, thing_name, shadow_name }
}

/// The characters of an optional string.
pub open spec fn name_view(name: Option<&str>) -> Option<Seq<char>> {
    match name {
        Some(n) => Some(n@),
        None => None,
    }
}

/// `c` may stand in a thing name or a shadow name.
pub open spec fn is_name_char(c: char) -> bool {
    ||| c == '-'
    ||| c == '_'
    ||| c == ':'
    ||| '0' <= c <= '9'
    ||| 'A' <= c <= 'Z'
    ||| 'a' <= c <= 'z'
}

/// `s` is a name of fewer than `limit` characters.
pub open spec fn valid_name(s: Seq<char>, limit: int) -> bool {
    &&& 0 < s.len() < limit
    &&& forall|i: int| 0 <= i < s.len() ==> is_name_char(#[trigger] s[i])
}

/// The end of a topic that stands for `op`.
pub open spec fn op_text(op: ShadowOperation) -> Seq<char> {
    match op {
        ShadowOperation::Get => "get"@,
        ShadowOperation::GetAccepted => "get/accepted"@,
        ShadowOperation::GetRejected => "get/rejected"@,
        ShadowOperation::Delete => "delete"@,
        ShadowOperation::DeleteAccepted => "delete/accepted"@,
        ShadowOperation::DeleteRejected => "delete/rejected"@,
        ShadowOperation::Update => "update"@,
        ShadowOperation::UpdateAccepted => "update/accepted"@,
        ShadowOperation::UpdateRejected => "update/rejected"@,
        ShadowOperation::UpdateDocuments => "update/documents"@,
        ShadowOperation::UpdateDelta => "update/delta"@,
    }
}

/// The topic of `t`, where the word that announces a named shadow is `tag`.
pub open spec fn topic_text_tagged(t: ShadowTopicView, tag: Seq<char>) -> Seq<char> {
    match t.shadow_name {
        None => "$aws/things/"@ + t.thing_name + "/shadow/"@ + op_text(t.op),
        Some(n) => "$aws/things/"@ + t.thing_name + "/shadow/"@ + tag + "/"@ + n + "/"@ + op_text(
            t.op,
        ),
    }
}

/// The topic of `t`.
pub open spec fn topic_text(t: ShadowTopicView) -> Seq<char> {
    topic_text_tagged(t, "name"@)
}

/// Both names of `t` are valid.
pub open spec fn valid_names(t: ShadowTopicView) -> bool {
    &&& valid_name(t.thing_name, THING_NAME_LIMIT as int)
    &&& t.shadow_name matches Some(n) ==> valid_name(n, SHADOW_NAME_LIMIT as int)
}

/// `topic` is read as `t`. In the place of the word `name` any `tag` without
/// a `/` is read, the empty one too.
pub open spec fn reads_as(topic: Seq<char>, t: ShadowTopicView, tag: Seq<char>) -> bool {
    &&& valid_names(t)
    &&& !tag.contains('/')
    &&& topic == topic_text_tagged(t, tag)
}

/// `topic` is shorter than `TOPIC_BYTES_LIMIT` and is read as `t`.
pub open spec fn classifies_as(topic: Seq<char>, t: ShadowTopicView) -> bool {
    &&& encode_utf8(topic).len() < TOPIC_BYTES_LIMIT
    &&& exists|tag: Seq<char>| reads_as(topic, t, tag)
}

/// What `assemble` returns.
pub open spec fn assemble_spec(t: ShadowTopicView) -> Result<Seq<char>, TopicError> {
    if !valid_name(t.thing_name, THING_NAME_LIMIT as int) {
        Err(TopicError::InvalidThingName)
    } else if !valid_names(t) {
        Err(TopicError::InvalidShadowName)
    } else if topic_text(t).len() > TOPIC_CAPACITY {
        Err(TopicError::TooLong)
    } else {
        Ok(topic_text(t))
    }
}

/// The error type of the device SDK. Nothing is read from it.
#[verifier::external_type_specification]
#[verifier::external_body]
pub struct ExSdkError(aws_iot_device_sdk::Error);

/// Calls `aws_iot_device_sdk::shadow::match_topic`.
///
/// The SDK collects what follows `/shadow/` into sixteen segments at most
/// and does not return where there are more, so the topic must hold fewer
/// than sixteen `/`. It answers with a reading exactly where the topic is
/// shorter than 65535 bytes and is the text of that reading for some tag;
/// it does not compare the tag with `name`.
#[verifier::external_body]
fn sdk_match_topic(topic: &str) -> (r: Result<ShadowTopic, aws_iot_device_sdk::Error>)
    requires
        occurrences(topic@, '/') < SEPARATOR_LIMIT,
    ensures
        r matches Ok(t) ==> classifies_as(topic@, t@),
        r is Err ==> forall|t: ShadowTopicView| !classifies_as(topic@, t),
{
    let m = aws_iot_device_sdk::shadow::match_topic(topic)?;
    let op = match m.shadow_op {
        aws_iot_device_sdk::shadow::Topic::Get => ShadowOperation::Get,
        aws_iot_device_sdk::shadow::Topic::GetAccepted => ShadowOperation::GetAccepted,
        aws_iot_device_sdk::shadow::Topic::GetRejected => ShadowOperation::GetRejected,
        aws_iot_device_sdk::shadow::Topic::Delete => ShadowOperation::Delete,
        aws_iot_device_sdk::shadow::Topic::DeleteAccepted => ShadowOperation::DeleteAccepted,
        aws_iot_device_sdk::shadow::Topic::DeleteRejected => ShadowOperation::DeleteRejected,
        aws_iot_device_sdk::shadow::Topic::Update => ShadowOperation::Update,
        aws_iot_device_sdk::shadow::Topic::UpdateAccepted => ShadowOperation::UpdateAccepted,
        aws_iot_device_sdk::shadow::Topic::UpdateRejected => ShadowOperation::UpdateRejected,
        aws_iot_device_sdk::shadow::Topic::UpdateDocuments => ShadowOperation::UpdateDocuments,
        aws_iot_device_sdk::shadow::Topic::UpdateDelta => ShadowOperation::UpdateDelta,
    };
    Ok(ShadowTopic { op, thing_name: m.thing_name.to_string(), shadow_name: m.shadow_name.map(String::from) })
}

/// Reads a topic as a shadow topic.
///
/// Every failure is `NoMatch`: the message is not for the shadow, and
/// callers drop it.
pub fn classify(topic: &str) -> (r: Result<ShadowTopic, TopicError>)
    ensures
        r matches Ok(t) ==> classifies_as(topic@, t@),
        r matches Err(e) ==> e == TopicError::NoMatch && forall|t: ShadowTopicView|
            !classifies_as(topic@, t),
{
    let chars = chars_of(topic);
    if count_char(&chars, '/') >= SEPARATOR_LIMIT {
        proof {
            assert forall|t: ShadowTopicView| !classifies_as(topic@, t) by {
                if classifies_as(topic@, t) {
                    let tag = choose|tag: Seq<char>| reads_as(topic@, t, tag);
                    lemma_reading_separators(t, tag);
                }
            }
        }
        return Err(TopicError::NoMatch);
    }
    match sdk_match_topic(topic) {
        Ok(t) => Ok(t),
        Err(_) => Err(TopicError::NoMatch),
    }
}

/// Calls `aws_iot_device_sdk::shadow::assemble_topic`.
///
/// The SDK writes the topic into a buffer of 224 bytes and does not return
/// where it does not fit, so the text must fit. On valid names it answers
/// with the prefix, the thing name, the bridge (with the shadow name, for a
/// named shadow) and the operation, in this order.
#[verifier::external_body]
fn sdk_assemble_topic(
    op: ShadowOperation,
    thing_name: &str,
    shadow_name: Option<&str>,
) -> (r: Result<String, aws_iot_device_sdk::Error>)
    requires
        valid_names(topic_of(op, thing_name@, name_view(shadow_name))),
        topic_text(topic_of(op, thing_name@, name_view(shadow_name))).len() <= TOPIC_CAPACITY,
    ensures
        r is Ok,
        r matches Ok(s) ==> s@ == topic_text(topic_of(op, thing_name@, name_view(shadow_name))),
{
    let kind = match op {
        ShadowOperation::Get => aws_iot_device_sdk::shadow::Topic::Get,
        ShadowOperation::GetAccepted => aws_iot_device_sdk::shadow::Topic::GetAccepted,
        ShadowOperation::GetRejected => aws_iot_device_sdk::shadow::Topic::GetRejected,
        ShadowOperation::Delete => aws_iot_device_sdk::shadow::Topic::Delete,
        ShadowOperation::DeleteAccepted => aws_iot_device_sdk::shadow::Topic::DeleteAccepted,
        ShadowOperation::DeleteRejected => aws_iot_device_sdk::shadow::Topic::DeleteRejected,
        ShadowOperation::Update => aws_iot_device_sdk::shadow::Topic::Update,
        ShadowOperation::UpdateAccepted => aws_iot_device_sdk::shadow::Topic::UpdateAccepted,
        ShadowOperation::UpdateRejected => aws_iot_device_sdk::shadow::Topic::UpdateRejected,
        ShadowOperation::UpdateDocuments => aws_iot_device_sdk::shadow::Topic::UpdateDocuments,
        ShadowOperation::UpdateDelta => aws_iot_device_sdk::shadow::Topic::UpdateDelta,
    };
    aws_iot_device_sdk::shadow::assemble_topic(kind, thing_name, shadow_name).map(|s| s.to_string())
}

/// Tells whether `name` is a name of fewer than `limit` characters.
pub fn is_valid_name(name: &str, limit: usize) -> (valid: bool)
    ensures
        valid == valid_name(name@, limit as int),
{
    let chars = chars_of(name);
    if chars.len() == 0 || chars.len() >= limit {
        return false;
    }
    let mut i: usize = 0;
    while i < chars.len()
        invariant
            i <= chars@.len(),
            chars@ == name@,
            forall|j: int| 0 <= j < i ==> is_name_char(#[trigger] chars@[j]),
        decreases chars@.len() - i,
    {
        let c = chars[i];
        let ok = c == '-' || c == '_' || c == ':' || ('0' <= c && c <= '9') || ('A' <= c && c
            <= 'Z') || ('a' <= c && c <= 'z');
        if !ok {
            assert(!is_name_char(name@[i as int]));
            return false;
        }
        i = i + 1;
    }
    true
}

/// Number of characters that stand for `op` at the end of a topic.
pub fn op_len(op: ShadowOperation) -> (len: usize)
    ensures
        len == op_text(op).len(),
        len <= 16,
{
    proof {
        lemma_op_text_shape(op);
    }
    match op {
        ShadowOperation::Get => 3,
        ShadowOperation::GetAccepted => 12,
        ShadowOperation::GetRejected => 12,
        ShadowOperation::Delete => 6,
        ShadowOperation::DeleteAccepted => 15,
        ShadowOperation::DeleteRejected => 15,
        ShadowOperation::Update => 6,
        ShadowOperation::UpdateAccepted => 15,
        ShadowOperation::UpdateRejected => 15,
        ShadowOperation::UpdateDocuments => 16,
        ShadowOperation::UpdateDelta => 12,
    }
}

/// Builds the topic of an operation on a shadow of a thing: of the classic
/// shadow where `shadow_name` is `None`, else of the shadow of that name.
pub fn assemble(
    op: ShadowOperation,
    thing_name: &str,
    shadow_name: Option<&str>,
) -> (r: Result<String, TopicError>)
    ensures
        match r {
            Ok(s) => assemble_spec(topic_of(op, thing_name@, name_view(shadow_name))) == Ok::<
                Seq<char>,
                TopicError,
            >(s@),
            Err(e) => assemble_spec(topic_of(op, thing_name@, name_view(shadow_name))) == Err::<
                Seq<char>,
                TopicError,
            >(e),
        },
{
    if !is_valid_name(thing_name, THING_NAME_LIMIT) {
        return Err(TopicError::InvalidThingName);
    }
    let thing_len = thing_name.unicode_len();
    let bridge_len: usize = match shadow_name {
        None => 8,
        Some(n) => {
            if !is_valid_name(n, SHADOW_NAME_LIMIT) {
                return Err(TopicError::InvalidShadowName);
            }
            8 + 4 + 1 + n.unicode_len() + 1
        },
    };
    proof {
        reveal_strlit("$aws/things/");
        reveal_strlit("/shadow/");
        reveal_strlit("name");
        reveal_strlit("/");
    }
    if 12 + thing_len + bridge_len + op_len(op) > TOPIC_CAPACITY {
        return Err(TopicError::TooLong);
    }
    match sdk_assemble_topic(op, thing_name, shadow_name) {
        Ok(s) => Ok(s),
        Err(_) => vstd::pervasive::unreached(),
    }
}

/// What a topic under `$aws/things/` is for.
#[derive(Clone, Copy, Debug, PartialEq, Eq, Structural)]
pub enum TopicType {
    /// None of the others. No topic is classified as this.
    Other,
    NamedShadow,
    Shadow,
    Jobs,
    Defender,
    Tunneling,
}

/// What follows the thing name in a topic of the kind `kind`.
pub open spec fn bridge_text(kind: TopicType) -> Seq<char> {
    match kind {
        TopicType::Other => Seq::empty(),
        TopicType::NamedShadow => "/shadow/name/"@,
        TopicType::Shadow => "/shadow/"@,
        TopicType::Jobs => "/jobs/"@,
        TopicType::Defender => "/defender/metrics/"@,
        TopicType::Tunneling => "/tunnels/"@,
    }
}

/// `topic` starts with the prefix, the valid thing name `thing`, and
/// `bridge`.
pub open spec fn starts_with_bridge(topic: Seq<char>, thing: Seq<char>, bridge: Seq<char>) -> bool {
    &&& valid_name(thing, THING_NAME_LIMIT as int)
    &&& ("$aws/things/"@ + thing + bridge).is_prefix_of(topic)
}

/// `topic` is of the kind `kind`: shorter than `TOPIC_BYTES_LIMIT`, with
/// the bridge of the kind behind a valid thing name. A topic of a named
/// shadow is not of the kind `Shadow`.
pub open spec fn has_type(topic: Seq<char>, kind: TopicType) -> bool {
    &&& kind != TopicType::Other
    &&& encode_utf8(topic).len() < TOPIC_BYTES_LIMIT
    &&& exists|thing: Seq<char>| starts_with_bridge(topic, thing, bridge_text(kind))
    &&& kind == TopicType::Shadow ==> !exists|thing: Seq<char>|
        starts_with_bridge(topic, thing, "/shadow/name/"@)
}

/// Calls `aws_iot_device_sdk::match_topic_type`.
///
/// The SDK answers with a kind exactly where the topic is shorter than
/// 65535 bytes and the bridge of the kind follows a valid thing name; it
/// looks for the bridge of a named shadow before that of the classic one.
#[verifier::external_body]
fn sdk_match_topic_type(topic: &str) -> (r: Result<TopicType, aws_iot_device_sdk::Error>)
    ensures
        r matches Ok(kind) ==> has_type(topic@, kind),
        r is Err ==> forall|kind: TopicType| !has_type(topic@, kind),
{
    Ok(
        match aws_iot_device_sdk::match_topic_type(topic)? {
            aws_iot_device_sdk::TopicType::Other => TopicType::Other,
            aws_iot_device_sdk::TopicType::NamedShadow => TopicType::NamedShadow,
            aws_iot_device_sdk::TopicType::Shadow => TopicType::Shadow,
            aws_iot_device_sdk::TopicType::Jobs => TopicType::Jobs,
            aws_iot_device_sdk::TopicType::Defender => TopicType::Defender,
            aws_iot_device_sdk::TopicType::Tunneling => TopicType::Tunneling,
        },
    )
}

/// Tells what a topic is for. Every failure is `NoMatch`.
pub fn topic_type(topic: &str) -> (r: Result<TopicType, TopicError>)
    ensures
        r matches Ok(kind) ==> has_type(topic@, kind),
        r matches Err(e) ==> e == TopicError::NoMatch && forall|kind: TopicType|
            !has_type(topic@, kind),
{
    match sdk_match_topic_type(topic) {
        Ok(kind) => Ok(kind),
        Err(_) => Err(TopicError::NoMatch),
    }
}

} // verus!

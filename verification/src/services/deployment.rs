//! The deployment service.
//!
//! A deployment is announced by a delta of the deployment shadow. The
//! service keeps a three-state cursor that is advanced once for every delta
//! that it processes, and says for each delta what is to be published and
//! which components are to be fetched. It performs neither: the caller
//! sends the message and runs the fetches, and no outcome of a fetch comes
//! back here, so none can hold the acknowledgment up.
use vstd::prelude::*;
use crate::arn::{
    arn_of, arn_text, lemma_parse_well_formed, parse, parse_spec, ConfigurationArn,
    ConfigurationArnView, ParseError,
};
use crate::json::{
    decode_document, decode_fleet_config, document, encode_string, fleet_config_document,
    json_string, ComponentEntryView, FleetConfigDocument, FleetConfigDocumentView,
};
use crate::mqtt::{PublishRequest, PublishRequestView, QualityOfService};
use crate::services::{Service, ServiceRegistry};
use crate::text::{
    chars_of, decimal_string, decimal_text, decimal_value, is_decimal, parse_decimal,
    parse_decimal_spec, trim_char, trimmed,
};
use crate::topic::laws::{
    lemma_classifies_as_unique, lemma_name_has_no_separator, lemma_named_reading, lemma_topic_text_bounds,
    lemma_topic_text_reads_back, lemma_type_unique,
};
use crate::topic::{
    assemble, assemble_spec, bridge_text, classify, has_type, starts_with_bridge, topic_of,
    topic_text, topic_type, valid_name, ShadowOperation, TopicError, TopicType,
    SHADOW_NAME_LIMIT, THING_NAME_LIMIT,
};
use crate::GGC_VERSION;

verus! {

/// Name of the shadow through which deployments are announced and
/// acknowledged.
pub const DEPLOYMENT_SHADOW_NAME: &'static str = "AWSManagedGreengrassV2Deployment";

/// Version under which the deployment service is registered.
pub const VERSION: &'static str = "0.0.0";

/// Name under which the deployment service is registered.
pub const NAME: &'static str = "DeploymentService";

/// The deployment service.
pub struct Deployments {}

impl Service for Deployments {
    open spec fn service_name() -> Seq<char> {
        NAME@
    }

    open spec fn service_version() -> Seq<char> {
        VERSION@
    }

    fn enable(registry: &mut ServiceRegistry) {
        registry.insert(NAME.to_owned(), Self::new(NAME, VERSION));
    }
}

/// Where a deployment stands in its acknowledgment handshake.
#[derive(Clone, Copy, Debug, PartialEq, Eq, Structural)]
pub enum DeploymentState {
    /// Waiting for the first delta of a deployment.
    Received,
    /// The deployment was acknowledged as in progress.
    InProgress,
    /// The deployment was acknowledged as succeeded.
    Succeeded,
}

impl DeploymentState {
    /// The state that follows `self` in the cycle
    /// `Received`, `InProgress`, `Succeeded`, `Received`, ...
    pub open spec fn successor(self) -> DeploymentState {
        match self {
            DeploymentState::Received => DeploymentState::InProgress,
            DeploymentState::InProgress => DeploymentState::Succeeded,
            DeploymentState::Succeeded => DeploymentState::Received,
        }
    }

    /// The state reached from `self` after `n` steps of the cycle.
    pub open spec fn after(self, n: nat) -> DeploymentState
        decreases n,
    {
        if n == 0 {
            self
        } else {
            self.after((n - 1) as nat).successor()
        }
    }

    /// Position of the state in the cycle, counted from `Received`.
    pub open spec fn position(self) -> nat {
        match self {
            DeploymentState::Received => 0,
            DeploymentState::InProgress => 1,
            DeploymentState::Succeeded => 2,
        }
    }
}

/// The deployment cursor. It is read with `get` and moved with `next` and
/// `reset` only, so no caller can skip a state.
pub struct DeployStates {
    state: DeploymentState,
}

impl View for DeployStates {
    type V = DeploymentState;

    closed spec fn view(&self) -> DeploymentState {
        self.state
    }
}

impl DeployStates {
    /// A cursor at `Received`, as at process start.
    pub fn new() -> (cursor: DeployStates)
        ensures
            cursor@ == DeploymentState::Received,
    {
        DeployStates { state: DeploymentState::Received }
    }

    /// The current state.
    pub fn get(&self) -> (state: DeploymentState)
        ensures
            state == self@,
    {
        self.state
    }

    /// Puts the cursor back to `Received`.
    pub fn reset(&mut self)
        ensures
            final(self)@ == DeploymentState::Received,
    {
        self.state = DeploymentState::Received;
    }

    /// Advances the cursor by one step of the cycle.
    pub fn next(&mut self)
        ensures
            final(self)@ == old(self)@.successor(),
    {
        match self.state {
            DeploymentState::Received => self.state = DeploymentState::InProgress,
            DeploymentState::InProgress => self.state = DeploymentState::Succeeded,
            DeploymentState::Succeeded => self.reset(),
        }
    }
}

/// After `n` steps from `Received` the cursor stands at the state whose
/// position is `n` modulo three: the states are visited in round-robin order,
/// whatever the deltas held.
pub proof fn lemma_round_robin(n: nat)
    ensures
        DeploymentState::Received.after(n).position() == n % 3,
    decreases n,
{
    if n > 0 {
        lemma_round_robin((n - 1) as nat);
    }
}

/// Three steps bring every state back to itself, and each step moves by
/// exactly one position.
pub proof fn lemma_cycle_of_three(s: DeploymentState, n: nat)
    ensures
        s.after(n + 3) == s.after(n),
        s.after(n + 1) == s.after(n).successor(),
        s.successor().position() == (s.position() + 1) % 3,
{
    reveal_with_fuel(DeploymentState::after, 4);
}

/// The status that an update reports.
#[derive(Clone, Copy, Debug, PartialEq, Eq, Structural)]
pub enum DeploymentStatus {
    InProgress,
    Succeeded,
    Canceled,
}

impl DeploymentStatus {
    /// The word that stands for the status in an update.
    pub open spec fn text(self) -> Seq<char> {
        match self {
            DeploymentStatus::InProgress => "IN_PROGRESS"@,
            DeploymentStatus::Succeeded => "SUCCEEDED"@,
            DeploymentStatus::Canceled => "CANCELED"@,
        }
    }

    /// The word that stands for the status in an update.
    pub fn as_str(&self) -> (word: &'static str)
        ensures
            word@ == self.text(),
    {
        match self {
            DeploymentStatus::InProgress => "IN_PROGRESS",
            DeploymentStatus::Succeeded => "SUCCEEDED",
            DeploymentStatus::Canceled => "CANCELED",
        }
    }
}

/// The update of the deployment shadow that acknowledges one delta.
#[derive(Clone, Debug)]
pub struct ShadowUpdateMessage {
    pub shadow_name: String,
    pub thing_name: String,
    pub ggc_version: String,
    /// The configuration ARN of the delta that is acknowledged.
    pub fleet_configuration_arn_for_status: String,
    /// The member `detailedStatus` of the status details, which are empty
    /// without it.
    pub detailed_status: Option<String>,
    pub status: DeploymentStatus,
    /// The shadow version that is acknowledged.
    pub version: u64,
}

/// The mathematical content of a `ShadowUpdateMessage`.
pub ghost struct ShadowUpdateMessageView {
    pub shadow_name: Seq<char>,
    pub thing_name: Seq<char>,
    pub ggc_version: Seq<char>,
    pub fleet_configuration_arn_for_status: Seq<char>,
    pub detailed_status: Option<Seq<char>>,
    pub status: DeploymentStatus,
    pub version: u64,
}

impl View for ShadowUpdateMessage {
    type V = ShadowUpdateMessageView;

    open spec fn view(&self) -> ShadowUpdateMessageView {
        ShadowUpdateMessageView {
            shadow_name: self.shadow_name@,
            thing_name: self.thing_name@,
            ggc_version: self.ggc_version@,
            fleet_configuration_arn_for_status: self.fleet_configuration_arn_for_status@,
            detailed_status: match self.detailed_status {
                Some(d) => Some(d@),
                None => None,
            },
            status: self.status,
            version: self.version,
        }
    }
}

/// The update that reports `status` for the configuration `arn` and
/// acknowledges the shadow version `version`. Only success carries a
/// detailed status.
pub open spec fn message_spec(
    arn: ConfigurationArnView,
    version: u64,
    status: DeploymentStatus,
) -> ShadowUpdateMessageView {
    ShadowUpdateMessageView {
        shadow_name: DEPLOYMENT_SHADOW_NAME@,
        thing_name: arn.thing_name,
        ggc_version: GGC_VERSION@,
        fleet_configuration_arn_for_status: arn.full_arn,
        detailed_status: if status == DeploymentStatus::Succeeded {
            Some("SUCCESSFUL"@)
        } else {
            None
        },
        status,
        version,
    }
}

/// The JSON text of the status details.
pub open spec fn details_text(detailed_status: Option<Seq<char>>) -> Seq<char> {
    match detailed_status {
        None => "{}"@,
        Some(d) => "{\"detailedStatus\":"@ + json_string(d) + "}"@,
    }
}

/// The JSON text of an update.
pub open spec fn payload_text(m: ShadowUpdateMessageView) -> Seq<char> {
    "{\"shadowName\":"@ + json_string(m.shadow_name) + ",\"thingName\":"@ + json_string(
        m.thing_name,
    ) + ",\"state\":{\"reported\":{\"ggcVersion\":"@ + json_string(m.ggc_version)
        + ",\"fleetConfigurationArnForStatus\":"@ + json_string(
        m.fleet_configuration_arn_for_status,
    ) + ",\"statusDetails\":"@ + details_text(m.detailed_status) + ",\"status\":"@ + json_string(
        m.status.text(),
    ) + "}},\"version\":"@ + decimal_text(m.version as nat) + "}"@
}

/// Builds the update that reports `next_status` for the configuration `arn`
/// and acknowledges `shadow_version`.
pub fn build_message(
    arn: &ConfigurationArn,
    shadow_version: u64,
    next_status: DeploymentStatus,
) -> (msg: ShadowUpdateMessage)
    ensures
        msg@ == message_spec(arn@, shadow_version, next_status),
{
    let detailed_status = match next_status {
        DeploymentStatus::Succeeded => Some("SUCCESSFUL".to_owned()),
        _ => None,
    };
    ShadowUpdateMessage {
        shadow_name: DEPLOYMENT_SHADOW_NAME.to_owned(),
        thing_name: arn.thing_name.clone(),
        ggc_version: GGC_VERSION.to_owned(),
        fleet_configuration_arn_for_status: arn.full_arn.clone(),
        detailed_status,
        status: next_status,
        version: shadow_version,
    }
}

impl ShadowUpdateMessage {
    /// Writes the update as JSON. Strings are escaped as `serde_json`
    /// escapes them.
    pub fn to_json(&self) -> (text: String)
        ensures
            text@ == payload_text(self@),
    {
        let details = match &self.detailed_status {
            None => "{}".to_owned(),
            Some(d) => {
                let mut t = "{\"detailedStatus\":".to_owned();
                t.append(encode_string(d.as_str()).as_str());
                t.append("}");
                t
            },
        };
        assert(details@ == details_text(self@.detailed_status));
        let mut out = "{\"shadowName\":".to_owned();
        out.append(encode_string(self.shadow_name.as_str()).as_str());
        out.append(",\"thingName\":");
        out.append(encode_string(self.thing_name.as_str()).as_str());
        out.append(",\"state\":{\"reported\":{\"ggcVersion\":");
        out.append(encode_string(self.ggc_version.as_str()).as_str());
        out.append(",\"fleetConfigurationArnForStatus\":");
        out.append(encode_string(self.fleet_configuration_arn_for_status.as_str()).as_str());
        out.append(",\"statusDetails\":");
        out.append(details.as_str());
        out.append(",\"status\":");
        out.append(encode_string(self.status.as_str()).as_str());
        out.append("}},\"version\":");
        out.append(decimal_string(self.version).as_str());
        out.append("}");
        out
    }
}

/// What `assemble_payload` returns.
pub open spec fn assemble_payload_spec(
    state: DeploymentState,
    arn: ConfigurationArnView,
    version: Seq<char>,
) -> Result<Option<ShadowUpdateMessageView>, ParseError> {
    match parse_decimal_spec(version, u64::MAX as nat) {
        Err(_) => Err(ParseError::InvalidShadowVersion),
        Ok(v) => Ok(
            match state {
                DeploymentState::Received => Some(
                    message_spec(arn, v as u64, DeploymentStatus::InProgress),
                ),
                DeploymentState::InProgress => Some(
                    message_spec(arn, v as u64, DeploymentStatus::Succeeded),
                ),
                DeploymentState::Succeeded => None,
            },
        ),
    }
}

/// The views of an optional update.
pub open spec fn message_view(msg: Option<ShadowUpdateMessage>) -> Option<ShadowUpdateMessageView> {
    match msg {
        Some(m) => Some(m@),
        None => None,
    }
}

/// Builds the update that a delta calls for in the state `state`: in
/// progress when the delta is received, succeeded when the deployment is in
/// progress, none when it has succeeded. The shadow version must be a
/// decimal number that fits in 64 bits; nothing is put in its place where
/// it is not.
pub fn assemble_payload(
    state: DeploymentState,
    arn: &ConfigurationArn,
    version: &str,
) -> (r: Result<Option<ShadowUpdateMessage>, ParseError>)
    ensures
        match r {
            Ok(msg) => assemble_payload_spec(state, arn@, version@) == Ok::<
                Option<ShadowUpdateMessageView>,
                ParseError,
            >(message_view(msg)),
            Err(e) => assemble_payload_spec(state, arn@, version@) == Err::<
                Option<ShadowUpdateMessageView>,
                ParseError,
            >(e),
        },
{
    let chars = chars_of(version);
    assert(chars@.subrange(0, chars@.len() as int) =~= version@);
    let number = match parse_decimal(&chars, 0, chars.len(), u64::MAX) {
        Ok(n) => n,
        Err(_) => {
            return Err(ParseError::InvalidShadowVersion);
        },
    };
    match state {
        DeploymentState::Received => Ok(
            Some(build_message(arn, number, DeploymentStatus::InProgress)),
        ),
        DeploymentState::InProgress => Ok(
            Some(build_message(arn, number, DeploymentStatus::Succeeded)),
        ),
        DeploymentState::Succeeded => Ok(None),
    }
}

/// A component that a configuration names, with the version to fetch.
#[derive(Clone, Debug)]
pub struct ComponentRef {
    pub name: String,
    pub version: String,
}

/// The mathematical content of a `ComponentRef`.
pub ghost struct ComponentRefView {
    pub name: Seq<char>,
    pub version: Seq<char>,
}

impl View for ComponentRef {
    type V = ComponentRefView;

    open spec fn view(&self) -> ComponentRefView {
        ComponentRefView { name: self.name@, version: self.version@ }
    }
}

/// Why a delta was dropped. None of these moves the cursor.
#[derive(Clone, Copy, Debug, PartialEq, Eq, Structural)]
pub enum DeploymentError {
    /// The payload is no JSON document.
    InvalidDelta,
    /// The delta holds no fleet configuration, or holds one that is no
    /// string.
    MissingFleetConfig,
    /// The fleet configuration is no JSON document.
    InvalidFleetConfig,
    /// The fleet configuration holds no configuration ARN, or holds one
    /// that is no string.
    MissingConfigurationArn,
    /// The fleet configuration holds components that are no object.
    InvalidComponents,
    /// A component of the fleet configuration holds no version.
    MissingComponentVersion,
    /// The configuration ARN or the shadow version was rejected.
    Parse(ParseError),
    /// No topic could be built for the thing that the ARN names.
    Topic(TopicError),
}

/// What is to be done for one delta.
#[derive(Clone, Debug)]
pub struct DeploymentStep {
    /// The update to hand to the outbound channel, if any.
    pub publish: Option<PublishRequest>,
    /// The components to resolve and fetch, each on its own and with no
    /// effect on the acknowledgment.
    pub fetch: Vec<ComponentRef>,
}

/// The mathematical content of a `DeploymentStep`.
pub ghost struct DeploymentStepView {
    pub publish: Option<PublishRequestView>,
    pub fetch: Seq<ComponentRefView>,
}

/// The views of a sequence of components.
pub open spec fn component_views(components: Seq<ComponentRef>) -> Seq<ComponentRefView> {
    components.map_values(|c: ComponentRef| c@)
}

/// The view of an optional request.
pub open spec fn request_view(request: Option<PublishRequest>) -> Option<PublishRequestView> {
    match request {
        Some(p) => Some(p@),
        None => None,
    }
}

impl View for DeploymentStep {
    type V = DeploymentStepView;

    open spec fn view(&self) -> DeploymentStepView {
        DeploymentStepView {
            publish: request_view(self.publish),
            fetch: component_views(self.fetch@),
        }
    }
}

/// The step with these two parts.
pub open spec fn step_of(
    publish: Option<PublishRequestView>,
    fetch: Seq<ComponentRefView>,
) -> DeploymentStepView {
    DeploymentStepView { publish, fetch }
}

/// The component that an entry of a fleet configuration names. The version
/// is the JSON text of the entry's version without the quotes at its ends.
pub open spec fn component_of(entry: ComponentEntryView) -> ComponentRefView {
    ComponentRefView { name: entry.name, version: trimmed(entry.version->Some_0, '"') }
}

/// The components that a fleet configuration names: every entry, in the
/// order in which the decoder hands them over, none where the configuration
/// holds no components. Components that are no object fail the whole, and
/// so does an entry without a version.
pub open spec fn components_spec(
    config: FleetConfigDocumentView,
) -> Result<Seq<ComponentRefView>, DeploymentError> {
    match config.components {
        None => Ok(Seq::empty()),
        Some(None) => Err(DeploymentError::InvalidComponents),
        Some(Some(entries)) => if exists|i: int|
            0 <= i < entries.len() && (#[trigger] entries[i]).version is None {
            Err(DeploymentError::MissingComponentVersion)
        } else {
            Ok(Seq::new(entries.len(), |i: int| component_of(entries[i])))
        },
    }
}

/// The update to publish for a delta with the shadow version `version` and
/// the fleet configuration `config`, in the state `state`.
pub open spec fn publish_spec(
    state: DeploymentState,
    version: Seq<char>,
    config: FleetConfigDocumentView,
) -> Result<Option<PublishRequestView>, DeploymentError> {
    match config.configuration_arn {
        None => Err(DeploymentError::MissingConfigurationArn),
        Some(text) => match parse_spec(text) {
            Err(e) => Err(DeploymentError::Parse(e)),
            Ok(arn) => match outbound_topic_spec(arn.thing_name) {
                Err(e) => Err(DeploymentError::Topic(e)),
                Ok(topic) => match assemble_payload_spec(state, arn, version) {
                    Err(e) => Err(DeploymentError::Parse(e)),
                    Ok(None) => Ok(None),
                    Ok(Some(msg)) => Ok(
                        Some(
                            PublishRequestView {
                                topic,
                                qos: QualityOfService::AtMostOnce,
                                retain: false,
                                payload: payload_text(msg),
                            },
                        ),
                    ),
                },
            },
        },
    }
}

/// The step for a delta with the shadow version `version` and the fleet
/// configuration `config`, in the state `state`: an update in progress and
/// nothing to fetch when the delta is received; the components to fetch and
/// an update of success when the deployment is in progress; nothing at all
/// when it has succeeded.
pub open spec fn acknowledge_spec(
    state: DeploymentState,
    version: Seq<char>,
    config: FleetConfigDocumentView,
) -> Result<DeploymentStepView, DeploymentError> {
    match state {
        DeploymentState::Succeeded => Ok(step_of(None, Seq::empty())),
        DeploymentState::Received => match publish_spec(state, version, config) {
            Err(e) => Err(e),
            Ok(p) => Ok(step_of(p, Seq::empty())),
        },
        DeploymentState::InProgress => match components_spec(config) {
            Err(e) => Err(e),
            Ok(fetch) => match publish_spec(state, version, config) {
                Err(e) => Err(e),
                Ok(p) => Ok(step_of(p, fetch)),
            },
        },
    }
}

/// The step for a payload in the state `state`, over what `serde_json`
/// reads from the payload and from the fleet configuration in it. A delta
/// that arrives after success is absorbed without a look at its
/// configuration.
pub open spec fn shadow_deployment_spec(
    state: DeploymentState,
    payload: Seq<u8>,
) -> Result<DeploymentStepView, DeploymentError> {
    match document(payload) {
        None => Err(DeploymentError::InvalidDelta),
        Some(delta) => if state == DeploymentState::Succeeded {
            Ok(step_of(None, Seq::empty()))
        } else {
            match delta.fleet_config {
                None => Err(DeploymentError::MissingFleetConfig),
                Some(text) => match fleet_config_document(text) {
                    None => Err(DeploymentError::InvalidFleetConfig),
                    Some(config) => acknowledge_spec(state, delta.version, config),
                },
            }
        },
    }
}

/// Lists the components that a fleet configuration names.
pub fn components_to_fetch(
    config: &FleetConfigDocument,
) -> (r: Result<Vec<ComponentRef>, DeploymentError>)
    ensures
        match r {
            Ok(fetch) => components_spec(config@) == Ok::<Seq<ComponentRefView>, DeploymentError>(
                component_views(fetch@),
            ),
            Err(e) => components_spec(config@) == Err::<Seq<ComponentRefView>, DeploymentError>(e),
        },
{
    let mut fetch: Vec<ComponentRef> = Vec::new();
    match &config.components {
        None => {
            assert(component_views(fetch@) =~= Seq::empty());
        },
        Some(None) => {
            return Err(DeploymentError::InvalidComponents);
        },
        Some(Some(entries)) => {
            let ghost views = config@.components->Some_0->Some_0;
            let mut i: usize = 0;
            while i < entries.len()
                invariant
                    i <= entries@.len(),
                    views == crate::json::entry_views(entries@),
                    config@.components == Some(Some(views)),
                    fetch@.len() == i,
                    forall|j: int| 0 <= j < i ==> (#[trigger] views[j]).version is Some,
                    forall|j: int| 0 <= j < i ==> (#[trigger] fetch@[j])@ == component_of(views[j]),
                decreases entries@.len() - i,
            {
                let entry = &entries[i];
                assert(views[i as int] == entry@);
                match &entry.version {
                    None => {
                        assert(views[i as int].version is None);
                        return Err(DeploymentError::MissingComponentVersion);
                    },
                    Some(text) => {
                        fetch.push(
                            ComponentRef {
                                name: entry.name.clone(),
                                version: trim_char(text.as_str(), '"'),
                            },
                        );
                    },
                }
                i = i + 1;
            }
            assert(component_views(fetch@) =~= Seq::new(
                views.len(),
                |i: int| component_of(views[i]),
            ));
        },
    }
    Ok(fetch)
}

/// Builds the update to publish for a delta with the shadow version
/// `version` and the fleet configuration `config`, in the state `state`.
/// The thing to address is the one that the configuration ARN names.
pub fn assemble_publish_content(
    state: DeploymentState,
    version: &str,
    config: &FleetConfigDocument,
) -> (r: Result<Option<PublishRequest>, DeploymentError>)
    ensures
        match r {
            Ok(p) => publish_spec(state, version@, config@) == Ok::<
                Option<PublishRequestView>,
                DeploymentError,
            >(request_view(p)),
            Err(e) => publish_spec(state, version@, config@) == Err::<
                Option<PublishRequestView>,
                DeploymentError,
            >(e),
        },
{
    let text = match &config.configuration_arn {
        Some(text) => text,
        None => {
            return Err(DeploymentError::MissingConfigurationArn);
        },
    };
    let arn = match parse(text.as_str()) {
        Ok(arn) => arn,
        Err(e) => {
            return Err(DeploymentError::Parse(e));
        },
    };
    let topic = match assemble(
        ShadowOperation::Update,
        arn.thing_name.as_str(),
        Some(DEPLOYMENT_SHADOW_NAME),
    ) {
        Ok(topic) => topic,
        Err(e) => {
            return Err(DeploymentError::Topic(e));
        },
    };
    match assemble_payload(state, &arn, version) {
        Err(e) => Err(DeploymentError::Parse(e)),
        Ok(None) => Ok(None),
        Ok(Some(msg)) => Ok(
            Some(
                PublishRequest {
                    topic,
                    qos: QualityOfService::AtMostOnce,
                    retain: false,
                    payload: msg.to_json(),
                },
            ),
        ),
    }
}

/// Says what is to be done for a delta whose documents were read already.
pub fn acknowledge(
    state: DeploymentState,
    version: &str,
    config: &FleetConfigDocument,
) -> (r: Result<DeploymentStep, DeploymentError>)
    ensures
        match r {
            Ok(step) => acknowledge_spec(state, version@, config@) == Ok::<
                DeploymentStepView,
                DeploymentError,
            >(step@),
            Err(e) => acknowledge_spec(state, version@, config@) == Err::<
                DeploymentStepView,
                DeploymentError,
            >(e),
        },
{
    let fetch = match state {
        DeploymentState::Succeeded => {
            let step = DeploymentStep { publish: None, fetch: Vec::new() };
            assert(step@.fetch =~= Seq::empty());
            return Ok(step);
        },
        DeploymentState::Received => Vec::new(),
        DeploymentState::InProgress => match components_to_fetch(config) {
            Ok(fetch) => fetch,
            Err(e) => {
                return Err(e);
            },
        },
    };
    assert(state == DeploymentState::Received ==> component_views(fetch@) =~= Seq::empty());
    match assemble_publish_content(state, version, config) {
        Ok(publish) => Ok(DeploymentStep { publish, fetch }),
        Err(e) => Err(e),
    }
}

/// Processes one delta of the deployment shadow: says what to publish and
/// what to fetch, and advances the cursor by one step. A delta that cannot
/// be read is dropped: it yields an error and leaves the cursor where it
/// was.
pub fn shadow_deployment(
    states: &mut DeployStates,
    payload: &[u8],
) -> (r: Result<DeploymentStep, DeploymentError>)
    ensures
        match r {
            Ok(step) => shadow_deployment_spec(old(states)@, payload@) == Ok::<
                DeploymentStepView,
                DeploymentError,
            >(step@) && final(states)@ == old(states)@.successor(),
            Err(e) => shadow_deployment_spec(old(states)@, payload@) == Err::<
                DeploymentStepView,
                DeploymentError,
            >(e) && final(states)@ == old(states)@,
        },
{
    let delta = match decode_document(payload) {
        Ok(delta) => delta,
        Err(_) => {
            return Err(DeploymentError::InvalidDelta);
        },
    };
    let state = states.get();
    let step = match state {
        DeploymentState::Succeeded => {
            let step = DeploymentStep { publish: None, fetch: Vec::new() };
            assert(step@.fetch =~= Seq::empty());
            step
        },
        _ => {
            let text = match &delta.fleet_config {
                Some(text) => text,
                None => {
                    return Err(DeploymentError::MissingFleetConfig);
                },
            };
            let config = match decode_fleet_config(text.as_str()) {
                Ok(config) => config,
                Err(_) => {
                    return Err(DeploymentError::InvalidFleetConfig);
                },
            };
            match acknowledge(state, delta.version.as_str(), &config) {
                Ok(step) => step,
                Err(e) => {
                    return Err(e);
                },
            }
        },
    };
    states.next();
    Ok(step)
}

/// The status that an update reports for a delta that arrives in the state
/// `state`.
pub open spec fn status_reported_in(state: DeploymentState) -> DeploymentStatus {
    match state {
        DeploymentState::Received => DeploymentStatus::InProgress,
        _ => DeploymentStatus::Succeeded,
    }
}

/// `request` carries the update that reports `status` for the
/// configuration `arn` and acknowledges the shadow version `version`, on
/// the update topic of the deployment shadow of the thing that `arn` names.
pub open spec fn carries(
    request: PublishRequestView,
    arn: ConfigurationArnView,
    version: u64,
    status: DeploymentStatus,
) -> bool {
    &&& request.payload == payload_text(message_spec(arn, version, status))
    &&& outbound_topic_spec(arn.thing_name) == Ok::<Seq<char>, TopicError>(request.topic)
}

/// A delta that is processed before success is acknowledged: the step
/// holds an update, and the update reports progress when the delta was
/// received and success when the deployment was in progress, for the
/// configuration ARN of the delta. Which components are to be fetched has no
/// part in it, and no outcome of a fetch has.
pub proof fn lemma_processed_delta_is_acknowledged(
    state: DeploymentState,
    version: Seq<char>,
    config: FleetConfigDocumentView,
)
    requires
        state != DeploymentState::Succeeded,
        acknowledge_spec(state, version, config) is Ok,
    ensures
        acknowledge_spec(state, version, config)->Ok_0.publish is Some,
        config.configuration_arn is Some,
        parse_spec(config.configuration_arn->Some_0) is Ok,
        exists|shadow_version: u64|
            carries(
                acknowledge_spec(state, version, config)->Ok_0.publish->Some_0,
                parse_spec(config.configuration_arn->Some_0)->Ok_0,
                shadow_version,
                status_reported_in(state),
            ),
{
    let arn = parse_spec(config.configuration_arn->Some_0)->Ok_0;
    let number = parse_decimal_spec(version, u64::MAX as nat)->Ok_0;
    assert(carries(
        acknowledge_spec(state, version, config)->Ok_0.publish->Some_0,
        arn,
        number as u64,
        status_reported_in(state),
    ));
}

/// Every component of the configuration can be listed: the configuration
/// holds no components, or holds them as an object in which every one has a
/// version.
pub open spec fn components_are_listed(config: FleetConfigDocumentView) -> bool {
    match config.components {
        None => true,
        Some(None) => false,
        Some(Some(entries)) => forall|i: int|
            0 <= i < entries.len() ==> (#[trigger] entries[i]).version is Some,
    }
}

/// Which deltas are processed. Before success, a delta is processed and
/// acknowledged whenever its configuration ARN ends in `/<name>:<digits>`
/// with a valid thing name and a number within 64 bits, its shadow version
/// is a decimal number within 64 bits, and its components can be listed.
/// The update then reports the status that belongs to the state, for the
/// thing `name`, the ARN as it came, and the shadow version; the version of
/// the deployment is the number behind the last colon of the ARN, not the
/// shadow version.
pub proof fn lemma_well_formed_delta_is_processed(
    state: DeploymentState,
    version: Seq<char>,
    config: FleetConfigDocumentView,
    prefix: Seq<char>,
    name: Seq<char>,
    digits: Seq<char>,
)
    requires
        state != DeploymentState::Succeeded,
        config.configuration_arn == Some(arn_text(prefix, name, digits)),
        valid_name(name, THING_NAME_LIMIT as int),
        is_decimal(digits),
        decimal_value(digits) <= u64::MAX,
        is_decimal(version),
        decimal_value(version) <= u64::MAX,
        components_are_listed(config),
    ensures
        parse_spec(arn_text(prefix, name, digits)) == Ok::<ConfigurationArnView, ParseError>(
            arn_of(name, decimal_value(digits), arn_text(prefix, name, digits)),
        ),
        acknowledge_spec(state, version, config) is Ok,
        acknowledge_spec(state, version, config)->Ok_0.publish is Some,
        carries(
            acknowledge_spec(state, version, config)->Ok_0.publish->Some_0,
            arn_of(name, decimal_value(digits), arn_text(prefix, name, digits)),
            decimal_value(version) as u64,
            status_reported_in(state),
        ),
        state == DeploymentState::Received ==> acknowledge_spec(
            state,
            version,
            config,
        )->Ok_0.fetch.len() == 0,
{
    lemma_name_has_no_separator(name, THING_NAME_LIMIT as int);
    lemma_parse_well_formed(prefix, name, digits);
    lemma_outbound_topic_fits(name);
}

/// A delta that arrives after success is absorbed, whatever it holds beyond
/// being a JSON document: nothing is published, nothing is fetched, and the
/// next state is `Received`.
pub proof fn lemma_delta_after_success_is_absorbed(payload: Seq<u8>)
    requires
        document(payload) is Some,
    ensures
        shadow_deployment_spec(DeploymentState::Succeeded, payload) == Ok::<
            DeploymentStepView,
            DeploymentError,
        >(step_of(None, Seq::empty())),
        DeploymentState::Succeeded.successor() == DeploymentState::Received,
{
}

/// The number of the deltas of `payloads` that are processed, and not
/// dropped, when they arrive one after the other at a cursor at `state`.
pub open spec fn processed(state: DeploymentState, payloads: Seq<Seq<u8>>) -> nat
    decreases payloads.len(),
{
    if payloads.len() == 0 {
        0
    } else {
        let before = processed(state, payloads.drop_last());
        if shadow_deployment_spec(state.after(before), payloads.last()) is Ok {
            before + 1
        } else {
            before
        }
    }
}

/// Where the cursor stands when the deltas of `payloads` have arrived one
/// after the other at a cursor at `state`.
pub open spec fn state_after_deltas(
    state: DeploymentState,
    payloads: Seq<Seq<u8>>,
) -> DeploymentState
    decreases payloads.len(),
{
    if payloads.len() == 0 {
        state
    } else {
        let before = state_after_deltas(state, payloads.drop_last());
        if shadow_deployment_spec(before, payloads.last()) is Ok {
            before.successor()
        } else {
            before
        }
    }
}

/// Whatever the deltas hold, the cursor goes round the cycle one step for
/// each delta that is processed, and stays for each one that is dropped: no
/// state is skipped and none is visited out of turn.
pub proof fn lemma_deltas_round_robin(state: DeploymentState, payloads: Seq<Seq<u8>>)
    ensures
        state_after_deltas(state, payloads) == state.after(processed(state, payloads)),
        processed(state, payloads) <= payloads.len(),
        state == DeploymentState::Received ==> state_after_deltas(state, payloads).position()
            == processed(state, payloads) % 3,
    decreases payloads.len(),
{
    if payloads.len() > 0 {
        lemma_deltas_round_robin(state, payloads.drop_last());
    }
    if state == DeploymentState::Received {
        lemma_round_robin(processed(state, payloads));
    }
}

/// The topic under which the deltas of the deployment shadow of the thing
/// `thing_name` arrive: the one to subscribe to.
pub open spec fn inbound_topic_spec(thing_name: Seq<char>) -> Result<Seq<char>, TopicError> {
    assemble_spec(topic_of(ShadowOperation::UpdateDelta, thing_name, Some(DEPLOYMENT_SHADOW_NAME@)))
}

/// The topic on which a deployment of the thing `thing_name` is
/// acknowledged: the one to publish to.
pub open spec fn outbound_topic_spec(thing_name: Seq<char>) -> Result<Seq<char>, TopicError> {
    assemble_spec(topic_of(ShadowOperation::Update, thing_name, Some(DEPLOYMENT_SHADOW_NAME@)))
}

/// Builds the topic to subscribe to, and to unsubscribe from, for the
/// deltas of the deployment shadow of `thing_name`. A name that is no thing
/// name is rejected.
pub fn inbound_topic(thing_name: &str) -> (r: Result<String, TopicError>)
    ensures
        match r {
            Ok(topic) => inbound_topic_spec(thing_name@) == Ok::<Seq<char>, TopicError>(topic@),
            Err(e) => inbound_topic_spec(thing_name@) == Err::<Seq<char>, TopicError>(e),
        },
{
    assemble(ShadowOperation::UpdateDelta, thing_name, Some(DEPLOYMENT_SHADOW_NAME))
}

/// What to do with a message that arrived.
#[derive(Clone, Copy, Debug, PartialEq, Eq, Structural)]
pub enum Route {
    /// The message is a delta of a named shadow: hand its payload to
    /// `shadow_deployment`.
    Deployment,
    /// The message is for nobody here.
    Ignore,
}

/// `topic` is the topic of the delta of the shadow `shadow` of the thing
/// `thing`.
pub open spec fn is_delta_topic_of(topic: Seq<char>, thing: Seq<char>, shadow: Seq<char>) -> bool {
    &&& valid_name(thing, THING_NAME_LIMIT as int)
    &&& valid_name(shadow, SHADOW_NAME_LIMIT as int)
    &&& topic == topic_text(topic_of(ShadowOperation::UpdateDelta, thing, Some(shadow)))
}

/// `topic` is the topic of the delta of a named shadow of a thing.
pub open spec fn is_delta_topic(topic: Seq<char>) -> bool {
    exists|thing: Seq<char>, shadow: Seq<char>| is_delta_topic_of(topic, thing, shadow)
}

/// Routes a message by its topic: the deltas of named shadows go to the
/// deployment service, everything else is ignored.
pub fn process(topic: &str) -> (route: Route)
    ensures
        route == Route::Deployment <==> is_delta_topic(topic@),
{
    let kind = topic_type(topic);
    let reading = classify(topic);
    proof {
        if is_delta_topic(topic@) {
            let (thing, shadow) = choose|thing: Seq<char>, shadow: Seq<char>|
                is_delta_topic_of(topic@, thing, shadow);
            let t = topic_of(ShadowOperation::UpdateDelta, thing, Some(shadow));
            lemma_topic_text_bounds(t);
            lemma_topic_text_reads_back(t);
            assert(starts_with_bridge(topic@, thing, bridge_text(TopicType::NamedShadow)));
            assert(has_type(topic@, TopicType::NamedShadow));
            if kind is Ok {
                lemma_type_unique(topic@, kind->Ok_0, TopicType::NamedShadow);
            }
            if reading is Ok {
                lemma_classifies_as_unique(topic@, reading->Ok_0@, t);
            }
        }
    }
    match kind {
        Ok(TopicType::NamedShadow) => match reading {
            Ok(t) => {
                proof {
                    lemma_named_reading(topic@, t@);
                }
                match t.op {
                    ShadowOperation::UpdateDelta => {
                        assert(is_delta_topic_of(
                            topic@,
                            t@.thing_name,
                            t@.shadow_name->Some_0,
                        ));
                        Route::Deployment
                    },
                    _ => Route::Ignore,
                }
            },
            Err(_) => Route::Ignore,
        },
        _ => Route::Ignore,
    }
}

/// The name of the deployment shadow is a valid shadow name.
pub proof fn lemma_deployment_shadow_name_is_valid()
    ensures
        valid_name(DEPLOYMENT_SHADOW_NAME@, SHADOW_NAME_LIMIT as int),
        DEPLOYMENT_SHADOW_NAME@.len() == 32,
{
    reveal_strlit("AWSManagedGreengrassV2Deployment");
}

/// The topic to subscribe to exists for the valid thing names and for no
/// others; it is the delta topic of the deployment shadow, and `process`
/// routes it to the deployment service.
pub proof fn lemma_inbound_topic_is_routed(thing: Seq<char>)
    ensures
        inbound_topic_spec(thing) is Ok <==> valid_name(thing, THING_NAME_LIMIT as int),
        inbound_topic_spec(thing) matches Err(e) ==> e == TopicError::InvalidThingName,
        inbound_topic_spec(thing) matches Ok(topic) ==> topic == "$aws/things/"@ + thing
            + "/shadow/name/"@ + DEPLOYMENT_SHADOW_NAME@ + "/update/delta"@ && is_delta_topic(
            topic,
        ),
{
    lemma_deployment_shadow_name_is_valid();
    reveal_strlit("$aws/things/");
    reveal_strlit("/shadow/name/");
    reveal_strlit("/shadow/");
    reveal_strlit("name");
    reveal_strlit("/");
    reveal_strlit("/update/delta");
    reveal_strlit("update/delta");
    if valid_name(thing, THING_NAME_LIMIT as int) {
        let t = topic_of(ShadowOperation::UpdateDelta, thing, Some(DEPLOYMENT_SHADOW_NAME@));
        let topic = "$aws/things/"@ + thing + "/shadow/name/"@ + DEPLOYMENT_SHADOW_NAME@
            + "/update/delta"@;
        assert(topic_text(t) =~= topic);
        assert(is_delta_topic_of(topic, thing, DEPLOYMENT_SHADOW_NAME@));
    }
}

/// The topic on which a deployment is acknowledged can be built for every
/// valid thing name: it is never too long.
pub proof fn lemma_outbound_topic_fits(thing: Seq<char>)
    requires
        valid_name(thing, THING_NAME_LIMIT as int),
    ensures
        outbound_topic_spec(thing) == Ok::<Seq<char>, TopicError>(
            "$aws/things/"@ + thing + "/shadow/name/"@ + DEPLOYMENT_SHADOW_NAME@ + "/update"@,
        ),
{
    lemma_deployment_shadow_name_is_valid();
    reveal_strlit("$aws/things/");
    reveal_strlit("/shadow/name/");
    reveal_strlit("/shadow/");
    reveal_strlit("name");
    reveal_strlit("/");
    reveal_strlit("/update");
    reveal_strlit("update");
    let t = topic_of(ShadowOperation::Update, thing, Some(DEPLOYMENT_SHADOW_NAME@));
    assert(topic_text(t) =~= "$aws/things/"@ + thing + "/shadow/name/"@ + DEPLOYMENT_SHADOW_NAME@
        + "/update"@);
}

} // verus!

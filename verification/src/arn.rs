//! The configuration ARN that a shadow delta carries.
//!
//! Such an ARN names the thing that a configuration is for and the version
//! of the deployment:
//! `arn:<partition>:greengrass:<region>:<account>:configuration:thing/<thing-name>:<deployment-version>`.
//! ARNs hold colons throughout, so both parts are split off from the right.
use vstd::prelude::*;
use crate::text::{
    chars_of, decimal_value, is_decimal, last_index_of, lemma_last_index_is, lemma_last_index_of,
    parse_decimal, rfind, NumberError,
};

verus! {

/// Why a string is not a configuration ARN, or a shadow version no number.
#[derive(Clone, Copy, Debug, PartialEq, Eq, Structural)]
pub enum ParseError {
    /// The string does not end in a colon followed by decimal digits.
    MissingVersion,
    /// The deployment version does not fit in 64 bits.
    VersionOutOfRange,
    /// What stands before the version holds no `/`.
    MissingThingSegment,
    /// The shadow version is not a decimal number in range.
    InvalidShadowVersion,
}

/// A configuration ARN taken apart.
#[derive(Clone, Debug)]
pub struct ConfigurationArn {
    /// Name of the thing that the configuration is for.
    pub thing_name: String,
    /// Version of the deployment.
    pub deployment_version: u64,
    /// The ARN as it was received.
    pub full_arn: String,
}

/// The mathematical content of a `ConfigurationArn`.
pub ghost struct ConfigurationArnView {
    pub thing_name: Seq<char>,
    pub deployment_version: nat,
    pub full_arn: Seq<char>,
}

impl View for ConfigurationArn {
    type V = ConfigurationArnView;

    open spec fn view(&self) -> ConfigurationArnView {
        ConfigurationArnView {
            thing_name: self.thing_name@,
            deployment_version: self.deployment_version as nat,
            full_arn: self.full_arn@,
        }
    }
}

/// `raw` ends in a colon followed by one or more decimal digits.
pub open spec fn has_version_suffix(raw: Seq<char>) -> bool {
    exists|i: int|
        0 <= i < raw.len() && raw[i] == ':' && is_decimal(
            #[trigger] raw.subrange(i + 1, raw.len() as int),
        )
}

/// What `parse` makes of `raw`: the version is what follows the last colon,
/// the thing name what stands between the last `/` before that colon and
/// the colon.
pub open spec fn parse_spec(raw: Seq<char>) -> Result<ConfigurationArnView, ParseError> {
    let colon = last_index_of(raw, ':');
    let head = raw.subrange(0, colon);
    let digits = raw.subrange(colon + 1, raw.len() as int);
    let slash = last_index_of(head, '/');
    if colon < 0 || !is_decimal(digits) {
        Err(ParseError::MissingVersion)
    } else if decimal_value(digits) > u64::MAX {
        Err(ParseError::VersionOutOfRange)
    } else if slash < 0 {
        Err(ParseError::MissingThingSegment)
    } else {
        Ok(
            ConfigurationArnView {
                thing_name: head.subrange(slash + 1, head.len() as int),
                deployment_version: decimal_value(digits),
                full_arn: raw,
            },
        )
    }
}

/// Takes a configuration ARN apart. Nothing is defaulted: a string without
/// a version or without a thing segment is rejected.
pub fn parse(raw: &str) -> (arn: Result<ConfigurationArn, ParseError>)
    ensures
        match arn {
            Ok(a) => parse_spec(raw@) == Ok::<ConfigurationArnView, ParseError>(a@),
            Err(e) => parse_spec(raw@) == Err::<ConfigurationArnView, ParseError>(e),
        },
{
    let chars = chars_of(raw);
    let len = chars.len();
    assert(chars@.subrange(0, len as int) =~= raw@);
    let colon = match rfind(&chars, len, ':') {
        Some(i) => i,
        None => {
            return Err(ParseError::MissingVersion);
        },
    };
    proof {
        lemma_last_index_of(raw@, ':');
    }
    let version = match parse_decimal(&chars, colon + 1, len, u64::MAX) {
        Ok(n) => n,
        Err(NumberError::NotDecimal) => {
            return Err(ParseError::MissingVersion);
        },
        Err(NumberError::TooLarge) => {
            return Err(ParseError::VersionOutOfRange);
        },
    };
    let slash = match rfind(&chars, colon, '/') {
        Some(i) => i,
        None => {
            return Err(ParseError::MissingThingSegment);
        },
    };
    proof {
        lemma_last_index_of(raw@.subrange(0, colon as int), '/');
        assert(raw@.subrange(0, colon as int).subrange(slash + 1, colon as int)
            =~= raw@.subrange(slash + 1, colon as int));
    }
    let thing_name = raw.substring_char(slash + 1, colon).to_owned();
    Ok(ConfigurationArn { thing_name, deployment_version: version, full_arn: raw.to_owned() })
}

/// The ARN that ends in `/<name>:<digits>` behind `prefix`.
pub open spec fn arn_text(prefix: Seq<char>, name: Seq<char>, digits: Seq<char>) -> Seq<char> {
    prefix + seq!['/'] + name + seq![':'] + digits
}

/// The configuration ARN with these three parts.
pub open spec fn arn_of(
    thing_name: Seq<char>,
    deployment_version: nat,
    full_arn: Seq<char>,
) -> ConfigurationArnView {
    ConfigurationArnView { thing_name, deployment_version, full_arn }
}

/// Whatever stands before the thing segment, an ARN that ends in
/// `/<name>:<digits>` parses to that name, to the number that the digits
/// write, and to itself as the full ARN, provided that the name holds no `/`
/// and the number fits in 64 bits.
pub proof fn lemma_parse_well_formed(prefix: Seq<char>, name: Seq<char>, digits: Seq<char>)
    requires
        !name.contains('/'),
        is_decimal(digits),
        decimal_value(digits) <= u64::MAX,
    ensures
        parse_spec(arn_text(prefix, name, digits)) == Ok::<ConfigurationArnView, ParseError>(
            arn_of(name, decimal_value(digits), arn_text(prefix, name, digits)),
        ),
{
    let raw = prefix + seq!['/'] + name + seq![':'] + digits;
    let colon: int = (prefix.len() + 1 + name.len()) as int;
    let slash = prefix.len() as int;
    assert(raw[colon] == ':');
    assert forall|j: int| colon < j < raw.len() implies raw[j] != ':' by {
        assert(raw[j] == digits[j - colon - 1]);
    }
    lemma_last_index_is(raw, ':', colon);
    let head = raw.subrange(0, colon);
    assert(head =~= prefix + seq!['/'] + name);
    assert(raw.subrange(colon + 1, raw.len() as int) =~= digits);
    assert(head[slash] == '/');
    assert forall|j: int| slash < j < head.len() implies head[j] != '/' by {
        assert(head[j] == name[j - slash - 1]);
        assert(name.contains(name[j - slash - 1]));
    }
    lemma_last_index_is(head, '/', slash);
    assert(head.subrange(slash + 1, head.len() as int) =~= name);
}

/// A string that does not end in a colon followed by digits is rejected.
pub proof fn lemma_parse_needs_version(raw: Seq<char>)
    requires
        !has_version_suffix(raw),
    ensures
        parse_spec(raw) == Err::<ConfigurationArnView, ParseError>(ParseError::MissingVersion),
{
    let colon = last_index_of(raw, ':');
    lemma_last_index_of(raw, ':');
    if colon >= 0 && is_decimal(raw.subrange(colon + 1, raw.len() as int)) {
        assert(has_version_suffix(raw));
    }
}

/// A string that parses ends in a colon followed by digits, and its thing
/// name holds no `/`.
pub proof fn lemma_parse_ok_shape(raw: Seq<char>)
    requires
        parse_spec(raw) is Ok,
    ensures
        has_version_suffix(raw),
        !parse_spec(raw)->Ok_0.thing_name.contains('/'),
        parse_spec(raw)->Ok_0.full_arn == raw,
{
    let colon = last_index_of(raw, ':');
    lemma_last_index_of(raw, ':');
    let head = raw.subrange(0, colon);
    lemma_last_index_of(head, '/');
    let slash = last_index_of(head, '/');
    let name = head.subrange(slash + 1, head.len() as int);
    assert(is_decimal(raw.subrange(colon + 1, raw.len() as int)));
    if name.contains('/') {
        let k = choose|k: int| 0 <= k < name.len() && name[k] == '/';
        assert(head[slash + 1 + k] == '/');
    }
}

} // verus!

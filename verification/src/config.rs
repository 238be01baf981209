//! The configuration of a node in the peer-to-peer network, and the validation of the
//! identity that it claims.
//!
//! A node must not run on an invalid claim: where a country is given it is an ISO
//! 3166-1 alpha-2 code, and where a public URL is given it is an absolute URL.

use std::collections::HashMap;
use std::time::Duration;
use vstd::prelude::*;

verus! {

/// Whether `code` is one of the ISO 3166-1 alpha-2 country codes, in upper case, as
/// the `isocountry` crate lists them.
pub uninterp spec fn is_alpha2_country_code(code: Seq<char>) -> bool;

/// Whether the `url` crate parses `text` as an absolute URL.
pub uninterp spec fn is_absolute_url(text: Seq<char>) -> bool;

/// Looks `code` up with `isocountry::CountryCode::for_alpha2`, which compares it with
/// each of the 249 codes that it knows, all of two upper-case letters, and takes
/// nothing else. The contract names the answer and records that a known code has two
/// characters.
#[verifier::external_body]
fn country_code_is_known(code: &str) -> (known: bool)
    ensures
        known == is_alpha2_country_code(code@),
        known ==> code@.len() == 2,
{
    isocountry::CountryCode::for_alpha2(code).is_ok()
}

/// Parses `text` with `url::Url::parse` and says whether that gave a URL. The contract
/// names the answer and claims nothing of it.
#[verifier::external_body]
fn url_is_parsed(text: &str) -> (parsed: bool)
    ensures
        parsed == is_absolute_url(text@),
{
    url::Url::parse(text).is_ok()
}

/// What is wrong with a configuration.
#[derive(Debug, Clone, Copy, PartialEq, Eq, Structural)]
pub enum ConfigValidationError {
    /// The country is not an ISO 3166-1 alpha-2 code.
    InvalidCountryCode,
    /// The public URL is not an absolute URL.
    InvalidPublicUrl,
}

impl ConfigValidationError {
    /// The message of the error.
    pub open spec fn spec_code(self) -> Seq<char> {
        match self {
            ConfigValidationError::InvalidCountryCode => "Country code is invalid"@,
            ConfigValidationError::InvalidPublicUrl => "Public URL is invalid"@,
        }
    }

    /// The message of the error.
    pub fn code(&self) -> (code: &'static str)
        ensures
            code@ == self.spec_code(),
    {
        match self {
            ConfigValidationError::InvalidCountryCode => "Country code is invalid",
            ConfigValidationError::InvalidPublicUrl => "Public URL is invalid",
        }
    }
}

/// Configuration settings for a node of the peer-to-peer network.
#[derive(Debug)]
pub struct AtomaP2pNodeConfig {
    /// Country of origin of the node (optional, as clients do not need to provide one).
    pub country: Option<String>,
    /// The interval at which heartbeat messages are sent to peers.
    pub heartbeat_interval: Duration,
    /// The maximum duration a connection can remain idle before it is closed.
    pub idle_connection_timeout: Duration,
    /// The addresses to listen on for incoming connections, each in the form
    /// `/ip4/x.x.x.x/udp/x/quic-v1`.
    pub listen_addrs: Vec<String>,
    /// The public URL of the node (optional, as clients do not need to provide one), in
    /// the form `https://x.x.x.x:x`.
    pub public_url: Option<String>,
    /// The node's small id, assigned by the network's registry.
    pub node_small_id: Option<u64>,
    /// The endpoints that serve metrics, as a map from the name of a model to the pair
    /// of its serving engine and its metrics endpoint.
    pub metrics_endpoints: HashMap<String, (String, String)>,
    /// The addresses of the bootstrap nodes to dial.
    pub bootstrap_node_addrs: Vec<String>,
    /// The peer ids of the bootstrap nodes to connect to.
    pub bootstrap_node_peer_ids: Option<Vec<String>>,
    /// The path to the local key.
    pub local_key: String,
}

/// What is wrong with a country and a public URL, either of which may be absent: the
/// country's error first. An absent value is never wrong.
pub open spec fn violations(country: Option<Seq<char>>, public_url: Option<Seq<char>>) -> Seq<
    ConfigValidationError,
> {
    let of_country = if country is Some && !is_alpha2_country_code(country->Some_0) {
        seq![ConfigValidationError::InvalidCountryCode]
    } else {
        seq![]
    };
    let of_url = if public_url is Some && !is_absolute_url(public_url->Some_0) {
        seq![ConfigValidationError::InvalidPublicUrl]
    } else {
        seq![]
    };
    of_country + of_url
}

/// What is wrong with the identity claimed, given for each of the country and the
/// public URL whether it is absent (`None`), valid (`Some(true)`) or not
/// (`Some(false)`): the country's error first.
pub open spec fn spec_validation_outcome(country: Option<bool>, public_url: Option<bool>) -> Seq<
    ConfigValidationError,
> {
    let of_country = if country == Some(false) {
        seq![ConfigValidationError::InvalidCountryCode]
    } else {
        seq![]
    };
    let of_url = if public_url == Some(false) {
        seq![ConfigValidationError::InvalidPublicUrl]
    } else {
        seq![]
    };
    of_country + of_url
}

/// Decides on a configuration, given for each of the country and the public URL
/// whether it is absent (`None`), valid (`Some(true)`) or not (`Some(false)`).
///
/// The configuration stands where neither is invalid. Otherwise the errors are listed,
/// that of the country first.
pub fn validation_outcome(country: Option<bool>, public_url: Option<bool>) -> (outcome: Result<
    (),
    Vec<ConfigValidationError>,
>)
    ensures
        outcome is Ok <==> spec_validation_outcome(country, public_url).len() == 0,
        outcome matches Err(errors) ==> errors@ == spec_validation_outcome(country, public_url),
{
    let mut errors: Vec<ConfigValidationError> = Vec::new();
    if let Some(false) = country {
        errors.push(ConfigValidationError::InvalidCountryCode);
    }
    if let Some(false) = public_url {
        errors.push(ConfigValidationError::InvalidPublicUrl);
    }
    proof {
        assert(errors@ =~= spec_validation_outcome(country, public_url));
    }
    if errors.len() == 0 {
        Ok(())
    } else {
        Err(errors)
    }
}

/// Validates the country code of a node: it must be an ISO 3166-1 alpha-2 code, in
/// upper case.
pub fn validate_country_code(country: &str) -> (outcome: Result<(), ConfigValidationError>)
    ensures
        outcome is Ok <==> is_alpha2_country_code(country@),
        outcome is Err ==> outcome == Err::<(), ConfigValidationError>(
            ConfigValidationError::InvalidCountryCode,
        ),
        outcome is Ok ==> country@.len() == 2,
{
    if country_code_is_known(country) {
        Ok(())
    } else {
        Err(ConfigValidationError::InvalidCountryCode)
    }
}

/// Validates the public URL of a node: it must parse as an absolute URL.
pub fn validate_public_url(public_url: &str) -> (outcome: Result<(), ConfigValidationError>)
    ensures
        outcome is Ok <==> is_absolute_url(public_url@),
        outcome is Err ==> outcome == Err::<(), ConfigValidationError>(
            ConfigValidationError::InvalidPublicUrl,
        ),
{
    if url_is_parsed(public_url) {
        Ok(())
    } else {
        Err(ConfigValidationError::InvalidPublicUrl)
    }
}

/// The view of an optional string.
pub open spec fn text_of(text: Option<String>) -> Option<Seq<char>> {
    match text {
        Some(text) => Some(text@),
        None => None,
    }
}

impl AtomaP2pNodeConfig {
    /// What is wrong with the configuration.
    pub open spec fn violations(&self) -> Seq<ConfigValidationError> {
        violations(text_of(self.country), text_of(self.public_url))
    }

    /// Whether the configuration may be run on.
    pub open spec fn is_valid(&self) -> bool {
        self.violations().len() == 0
    }

    /// Validates the identity that the configuration claims: the country, where one is
    /// given, and the public URL, where one is given. All that is wrong is reported,
    /// the country first.
    pub fn validate(&self) -> (outcome: Result<(), Vec<ConfigValidationError>>)
        ensures
            outcome is Ok <==> self.is_valid(),
            outcome matches Err(errors) ==> errors@ == self.violations(),
    {
        let country = match &self.country {
            Some(country) => Some(validate_country_code(country.as_str()).is_ok()),
            None => None,
        };
        let public_url = match &self.public_url {
            Some(public_url) => Some(validate_public_url(public_url.as_str()).is_ok()),
            None => None,
        };
        proof {
            assert(spec_validation_outcome(country, public_url) =~= self.violations());
        }
        validation_outcome(country, public_url)
    }

    /// Makes the configuration of a node out of the settings that were loaded from its
    /// configuration file and the environment: the settings, unchanged, where they are
    /// valid, and else all that is wrong with them.
    pub fn from_file_path(loaded: AtomaP2pNodeConfig) -> (outcome: Result<
        AtomaP2pNodeConfig,
        Vec<ConfigValidationError>,
    >)
        ensures
            outcome is Ok <==> loaded.is_valid(),
            outcome matches Ok(config) ==> config == loaded,
            outcome matches Err(errors) ==> errors@ == loaded.violations(),
    {
        match loaded.validate() {
            Ok(()) => Ok(loaded),
            Err(errors) => Err(errors),
        }
    }
}

} // verus!

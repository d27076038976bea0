//! Connection settings and how they are assembled from the environment.

use vstd::prelude::*;
use vstd::string::*;

verus! {

/// One of the four settings that must be present in the environment.
#[derive(Clone, Copy, PartialEq, Eq, Structural, Debug)]
pub enum Variable {
    Region,
    AccessKeyId,
    SecretAccessKey,
    EndpointUrl,
}

impl Variable {
    /// The name under which the setting is looked up.
    pub open spec fn name_text(self) -> Seq<char> {
        match self {
            Variable::Region => "RUSTFS_REGION"@,
            Variable::AccessKeyId => "RUSTFS_ACCESS_KEY_ID"@,
            Variable::SecretAccessKey => "RUSTFS_SECRET_ACCESS_KEY"@,
            Variable::EndpointUrl => "RUSTFS_ENDPOINT_URL"@,
        }
    }

    /// The name to look up in the environment.
    pub fn name(self) -> (name: &'static str)
        ensures
            name@ == self.name_text(),
    {
        match self {
            Variable::Region => "RUSTFS_REGION",
            Variable::AccessKeyId => "RUSTFS_ACCESS_KEY_ID",
            Variable::SecretAccessKey => "RUSTFS_SECRET_ACCESS_KEY",
            Variable::EndpointUrl => "RUSTFS_ENDPOINT_URL",
        }
    }
}

/// Why a lookup in the environment gave no value.
#[derive(Clone, Copy, PartialEq, Eq, Structural, Debug)]
pub enum LookupError {
    /// The variable is not set.
    NotPresent,
    /// The variable is set, but its value is not valid Unicode.
    NotUnicode,
}

/// The setting whose lookup failed, and why.
#[derive(Clone, Copy, PartialEq, Eq, Structural, Debug)]
pub struct ConfigError {
    pub variable: Variable,
    pub cause: LookupError,
}

/// The connection settings, exactly as the environment gave them.
pub struct Config {
    pub region: String,
    pub access_key_id: String,
    pub secret_access_key: String,
    pub endpoint_url: String,
}

/// The mathematical content of a [`Config`].
pub struct ConfigView {
    pub region: Seq<char>,
    pub access_key_id: Seq<char>,
    pub secret_access_key: Seq<char>,
    pub endpoint_url: Seq<char>,
}

impl ConfigView {
    /// The lines that announce the settings. The two keys are not shown.
    pub open spec fn summary(self) -> Seq<Seq<char>> {
        seq!["Config loaded:"@, "  Region: "@ + self.region, "  Endpoint: "@ + self.endpoint_url]
    }
}

impl View for Config {
    type V = ConfigView;

    open spec fn view(&self) -> ConfigView {
        ConfigView {
            region: self.region@,
            access_key_id: self.access_key_id@,
            secret_access_key: self.secret_access_key@,
            endpoint_url: self.endpoint_url@,
        }
    }
}

/// The first failure among the four lookups, taken in the order region,
/// access key id, secret access key, endpoint URL; `None` when each of them
/// gave a value.
pub open spec fn first_failure(
    region: Result<String, LookupError>,
    access_key_id: Result<String, LookupError>,
    secret_access_key: Result<String, LookupError>,
    endpoint_url: Result<String, LookupError>,
) -> Option<ConfigError> {
    if let Err(cause) = region {
        Some(ConfigError { variable: Variable::Region, cause })
    } else if let Err(cause) = access_key_id {
        Some(ConfigError { variable: Variable::AccessKeyId, cause })
    } else if let Err(cause) = secret_access_key {
        Some(ConfigError { variable: Variable::SecretAccessKey, cause })
    } else if let Err(cause) = endpoint_url {
        Some(ConfigError { variable: Variable::EndpointUrl, cause })
    } else {
        None
    }
}

impl Config {
    /// Assembles the settings from the four lookups.
    ///
    /// Succeeds exactly when every lookup gave a value, and then holds each
    /// value unchanged. Otherwise reports the first lookup that failed, in
    /// the order region, access key id, secret access key, endpoint URL.
    pub fn from_env(
        region: Result<String, LookupError>,
        access_key_id: Result<String, LookupError>,
        secret_access_key: Result<String, LookupError>,
        endpoint_url: Result<String, LookupError>,
    ) -> (result: Result<Config, ConfigError>)
        ensures
            result is Ok <==> region is Ok && access_key_id is Ok && secret_access_key is Ok
                && endpoint_url is Ok,
            result matches Ok(config) ==> config@ == (ConfigView {
                region: region->Ok_0@,
                access_key_id: access_key_id->Ok_0@,
                secret_access_key: secret_access_key->Ok_0@,
                endpoint_url: endpoint_url->Ok_0@,
            }),
            result matches Err(error) ==> first_failure(
                region,
                access_key_id,
                secret_access_key,
                endpoint_url,
            ) == Some(error),
    {
        let region = match region {
            Ok(value) => value,
            Err(cause) => {
                return Err(ConfigError { variable: Variable::Region, cause });
            },
        };
        let access_key_id = match access_key_id {
            Ok(value) => value,
            Err(cause) => {
                return Err(ConfigError { variable: Variable::AccessKeyId, cause });
            },
        };
        let secret_access_key = match secret_access_key {
            Ok(value) => value,
            Err(cause) => {
                return Err(ConfigError { variable: Variable::SecretAccessKey, cause });
            },
        };
        let endpoint_url = match endpoint_url {
            Ok(value) => value,
            Err(cause) => {
                return Err(ConfigError { variable: Variable::EndpointUrl, cause });
            },
        };
        Ok(Config { region, access_key_id, secret_access_key, endpoint_url })
    }

    /// The lines to print once the settings are loaded.
    pub fn summary_lines(&self) -> (lines: Vec<String>)
        ensures
            lines.deep_view() == self@.summary(),
    {
        let mut region = String::from_str("  Region: ");
        region.append(self.region.as_str());
        let mut endpoint = String::from_str("  Endpoint: ");
        endpoint.append(self.endpoint_url.as_str());
        let mut lines: Vec<String> = Vec::new();
        lines.push(String::from_str("Config loaded:"));
        lines.push(region);
        lines.push(endpoint);
        assert(lines.deep_view() =~= self@.summary());
        lines
    }
}

/// The name under which the credentials made from the two keys are known
/// to the storage client.
pub fn provider_name() -> (name: &'static str)
    ensures
        name@ == "rustfs"@,
{
    "rustfs"
}

} // verus!

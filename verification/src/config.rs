//! The configuration of one run: the proxy output root, the
//! certificate-request root, and the namespace-to-target mapping, together
//! with the documented defaults that a first run writes to disk.

use vstd::prelude::*;

verus! {

/// The configuration a run works from. `mapping` pairs a public-facing
/// hostname (the namespace) with the backend address traffic is forwarded
/// to; it is read-only input for the run.
#[derive(Debug)]
pub struct Config {
    /// Root directory of the generated proxy configuration.
    pub home: String,
    /// Directory the certificate-request files are written to; shared with
    /// unrelated files.
    pub acme_redirect_configs: String,
    /// Namespace-to-target pairs, each key once.
    pub mapping: Vec<(String, String)>,
}

/// The mathematical value of a `Config`.
pub struct ConfigModel {
    pub home: Seq<char>,
    pub acme_redirect_configs: Seq<char>,
    pub mapping: Seq<(Seq<char>, Seq<char>)>,
}

impl View for Config {
    type V = ConfigModel;

    open spec fn view(&self) -> ConfigModel {
        ConfigModel {
            home: self.home@,
            acme_redirect_configs: self.acme_redirect_configs@,
            mapping: self.mapping@.map_values(|p: (String, String)| (p.0@, p.1@)),
        }
    }
}

impl ConfigModel {
    /// Well-formedness: mapping keys are unique.
    pub open spec fn wf(self) -> bool {
        forall|i: int, j: int|
            0 <= i < j < self.mapping.len() ==> self.mapping[i].0 != self.mapping[j].0
    }
}

/// Everything a configuration-file load can fail with. Each failure is
/// fatal: the operator controls the file, so no retry is warranted.
#[derive(Debug)]
pub enum ConfigError {
    /// The document is not valid TOML; carries the parser's message.
    Unparsable(String),
    /// `home` is missing or not a string.
    BadHome,
    /// `acme_redirect_configs` is missing or not a string.
    BadCertDir,
    /// `map` is missing or not a table.
    BadMapping,
    /// The value under this key of `map` is not a string.
    BadMappingEntry(String),
}

impl ConfigError {
    /// A diagnostic line for the operator.
    pub fn describe(&self) -> (r: String)
    {
        match self {
            ConfigError::Unparsable(msg) => {
                let mut r = "configuration is not valid TOML: ".to_owned();
                r.append(msg.as_str());
                r
            },
            ConfigError::BadHome => "configuration field `home` is missing or not a string".to_owned(),
            ConfigError::BadCertDir => "configuration field `acme_redirect_configs` is missing or not a string".to_owned(),
            ConfigError::BadMapping => "configuration field `map` is missing or not a table".to_owned(),
            ConfigError::BadMappingEntry(key) => {
                let mut r = "configuration entry `map.".to_owned();
                r.append(key.as_str());
                r.append("` is not a string");
                r
            },
        }
    }
}

/// The default proxy output root.
pub open spec fn spec_default_home() -> Seq<char> {
    "/etc/web-distributor"@
}

/// The default certificate-request directory.
pub open spec fn spec_default_cert_dir() -> Seq<char> {
    "/etc/acme-redirect.d"@
}

/// The path the configuration is read from when none is named.
pub open spec fn spec_default_config_path() -> Seq<char> {
    "/etc/web-distributor.toml"@
}

/// The document a first run writes to the configuration path: the two
/// default roots and an empty mapping, in the configuration's own format.
pub open spec fn spec_default_config_text() -> Seq<char> {
    "home = \"/etc/web-distributor\"\nacme_redirect_configs = \"/etc/acme-redirect.d\"\n\n[map]\n"@
}

/// The configuration a first run proceeds with: documented default roots
/// and an empty mapping.
pub fn default_config() -> (c: Config)
    ensures
        c@.home == spec_default_home(),
        c@.acme_redirect_configs == spec_default_cert_dir(),
        c@.mapping.len() == 0,
        c@.wf(),
{
    let c = Config {
        home: "/etc/web-distributor".to_owned(),
        acme_redirect_configs: "/etc/acme-redirect.d".to_owned(),
        mapping: Vec::new(),
    };
    c
}

/// The path the configuration is read from when none is named.
pub fn default_config_path() -> (p: String)
    ensures
        p@ == spec_default_config_path(),
{
    "/etc/web-distributor.toml".to_owned()
}

/// The document a first run persists at the configuration path.
pub fn default_config_text() -> (t: String)
    ensures
        t@ == spec_default_config_text(),
{
    "home = \"/etc/web-distributor\"\nacme_redirect_configs = \"/etc/acme-redirect.d\"\n\n[map]\n".to_owned()
}

} // verus!

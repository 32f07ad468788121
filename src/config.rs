use vstd::prelude::*;
use vstd::string::*;

verus! {

/// Interval, in seconds, that replaces a zero key rotation and that the
/// default record carries.
pub const DEFAULT_KEY_ROTATION: u64 = 86400;

/// The persisted configuration record.
#[derive(Debug, Clone, PartialEq, Eq)]
pub struct AppConfig {
    pub theme: String,
    pub log_level: String,
    pub auto_connect: bool,
    pub key_rotation: u64,
}

/// Mathematical model of an [`AppConfig`].
pub struct ConfigModel {
    pub theme: Seq<char>,
    pub log_level: Seq<char>,
    pub auto_connect: bool,
    pub key_rotation: u64,
}

impl View for AppConfig {
    type V = ConfigModel;

    open spec fn view(&self) -> ConfigModel {
        ConfigModel {
            theme: self.theme@,
            log_level: self.log_level@,
            auto_connect: self.auto_connect,
            key_rotation: self.key_rotation,
        }
    }
}

/// Why a configuration step failed.
#[derive(Debug, Clone, PartialEq, Eq)]
pub enum ConfigError {
    /// The filesystem refused an operation.
    Io(String),
    /// Content did not decode, or a record did not encode.
    Parse(String),
    /// Content decoded but broke a rule of its schema.
    Validation(String),
}

pub open spec fn dark_theme() -> Seq<char> {
    seq!['d', 'a', 'r', 'k']
}

pub open spec fn info_level() -> Seq<char> {
    seq!['i', 'n', 'f', 'o']
}

/// The record written when nothing can be kept from an earlier file.
pub open spec fn default_model() -> ConfigModel {
    ConfigModel {
        theme: dark_theme(),
        log_level: info_level(),
        auto_connect: true,
        key_rotation: DEFAULT_KEY_ROTATION,
    }
}

/// The one semantic rule beyond the record's shape.
pub open spec fn model_valid(m: ConfigModel) -> bool {
    m.key_rotation > 0
}

/// A decoded record with its invalid fields replaced and the others kept.
pub open spec fn salvaged_model(m: ConfigModel) -> ConfigModel {
    ConfigModel {
        theme: if m.theme.len() == 0 { dark_theme() } else { m.theme },
        log_level: m.log_level,
        auto_connect: m.auto_connect,
        key_rotation: if m.key_rotation == 0 { DEFAULT_KEY_ROTATION } else { m.key_rotation },
    }
}

/// What repair writes back: the salvaged form of the record decoded from the
/// quarantined content when there is one, the default record when there is
/// nothing to salvage.
pub open spec fn recreated_model(decoded: Option<AppConfig>) -> ConfigModel {
    match decoded {
        Some(c) => salvaged_model(c@),
        None => default_model(),
    }
}

impl AppConfig {
    /// The hardcoded default record.
    pub fn default_config() -> (r: AppConfig)
        ensures
            r@ == default_model(),
    {
        let r = AppConfig {
            theme: String::from_str("dark"),
            log_level: String::from_str("info"),
            auto_connect: true,
            key_rotation: DEFAULT_KEY_ROTATION,
        };
        proof {
            reveal_strlit("dark");
            reveal_strlit("info");
            assert(r.theme@ =~= dark_theme());
            assert(r.log_level@ =~= info_level());
        }
        r
    }

    /// Checks the record's invariant.
    pub fn validate(&self) -> (r: Result<(), ConfigError>)
        ensures
            r is Ok <==> model_valid(self@),
            r is Err ==> r->Err_0 is Validation,
    {
        if self.key_rotation == 0 {
            Err(ConfigError::Validation(String::from_str("key rotation must be greater than zero")))
        } else {
            Ok(())
        }
    }

    /// Repairs the fields that break a rule and keeps every other field.
    pub fn salvage(self) -> (r: AppConfig)
        ensures
            r@ == salvaged_model(self@),
            model_valid(r@),
    {
        let mut c = self;
        if c.key_rotation == 0 {
            c.key_rotation = DEFAULT_KEY_ROTATION;
        }
        if c.theme.as_str().is_empty() {
            c.theme = String::from_str("dark");
            proof {
                reveal_strlit("dark");
                assert(c.theme@ =~= dark_theme());
            }
        }
        c
    }

    /// The record that repair writes: salvaged from the record decoded from
    /// the quarantined content when there is one, the default otherwise.
    pub fn recreate(decoded: Option<AppConfig>) -> (r: AppConfig)
        ensures
            r@ == recreated_model(decoded),
            model_valid(r@),
    {
        match decoded {
            Some(c) => c.salvage(),
            None => AppConfig::default_config(),
        }
    }
}

} // verus!

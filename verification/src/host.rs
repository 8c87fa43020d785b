//! The host actor holds the configuration of the Ncube installation. The
//! messages it answers are declared here, together with the decisions it
//! takes over what the configuration store hands back.
use vstd::prelude::*;
use crate::data::ConfigSetting;
use crate::db::sqlite::ConfigError;
use crate::text::str_equal;

verus! {

/// Errors of the host actor.
#[derive(Debug)]
pub enum ActorError {
    /// A request that cannot be answered, with the reason.
    Invalid(String),
    /// The connection string of the database is not valid.
    Database(ConfigError),
    /// The configuration store failed, with its message.
    Store(String),
}

/// Ask for the database pool of the host.
#[derive(Debug)]
pub struct RequirePool;

/// Ask for the workspace root, with a leading `~` expanded.
#[derive(Debug)]
pub struct WorkspaceRootSetting;

/// Ask for the secret key setting.
#[derive(Debug)]
pub struct SecretKeySetting;

/// Ask for the HTTP endpoint setting.
#[derive(Debug)]
pub struct EndpointSetting;

/// Ask whether the installation was bootstrapped.
#[derive(Debug)]
pub struct IsBootstrapped;

/// Store a configuration setting.
#[derive(Debug)]
pub struct InsertSetting {
    pub name: String,
    pub value: String,
}

impl InsertSetting {
    pub fn new(name: String, value: String) -> (setting: Self)
        ensures
            setting.name == name,
            setting.value == value,
    {
        Self { name, value }
    }
}

/// Ask for the configuration.
#[derive(Debug)]
pub struct Settings;

/// Ask for the whole configuration.
#[derive(Debug)]
pub struct AllSettings;

/// Enable a workspace.
#[derive(Debug)]
pub struct EnableWorkspace {
    pub workspace: String,
}

/// `i` is the position of the first setting of `config` called `name`.
pub open spec fn is_first_named(config: Seq<ConfigSetting>, name: Seq<char>, i: int) -> bool {
    &&& 0 <= i < config.len()
    &&& config[i].name@ == name
    &&& forall|j: int| 0 <= j < i ==> config[j].name@ != name
}

/// No setting of `config` is called `name`.
pub open spec fn none_named(config: Seq<ConfigSetting>, name: Seq<char>) -> bool {
    forall|i: int| 0 <= i < config.len() ==> config[i].name@ != name
}

/// What a lookup of `name` in `config` returns: the first setting with
/// that name, or `None` when there is none.
pub open spec fn lookup(config: Seq<ConfigSetting>, name: Seq<char>, found: Option<ConfigSetting>) -> bool {
    match found {
        Some(setting) => exists|i: int| #[trigger] is_first_named(config, name, i) && config[i] == setting,
        None => none_named(config, name),
    }
}

/// Find the first setting called `name` in the configuration.
pub fn find_setting(config: Vec<ConfigSetting>, name: &str) -> (found: Option<ConfigSetting>)
    ensures
        lookup(config@, name@, found),
        found is None <==> forall|i: int| 0 <= i < config@.len() ==> config@[i].name@ != name@,
        found matches Some(s) ==> s.name@ == name@,
        found matches Some(s) ==> config@.contains(s),
{
    let mut config = config;
    let len = config.len();
    let mut i: usize = 0;
    while i < len
        invariant
            len == config@.len(),
            i <= len,
            forall|j: int| 0 <= j < i ==> config@[j].name@ != name@,
        ensures
            i <= len,
            i < len ==> config@[i as int].name@ == name@,
            forall|j: int| 0 <= j < i ==> config@[j].name@ != name@,
        decreases len - i,
    {
        if str_equal(config[i].name.as_str(), name) {
            break;
        }
        i = i + 1;
    }
    if i < len {
        let ghost before = config@;
        let setting = config.remove(i);
        assert(is_first_named(before, name@, i as int) && before[i as int] == setting);
        Some(setting)
    } else {
        None
    }
}

/// A setting that the host requires: the first one called `name`, or
/// `Invalid(missing)` when there is none.
pub open spec fn required_outcome(
    config: Seq<ConfigSetting>,
    name: Seq<char>,
    missing: Seq<char>,
    result: Result<ConfigSetting, ActorError>,
) -> bool {
    match result {
        Ok(setting) => lookup(config, name, Some(setting)),
        Err(e) => none_named(config, name) && (e matches ActorError::Invalid(m) && m@ == missing),
    }
}

fn required_setting(config: Vec<ConfigSetting>, name: &str, missing: &str) -> (result: Result<ConfigSetting, ActorError>)
    ensures
        required_outcome(config@, name@, missing@, result),
{
    match find_setting(config, name) {
        Some(setting) => Ok(setting),
        None => Err(ActorError::Invalid(String::from_str(missing))),
    }
}

/// The `workspace_root` setting of the configuration, or
/// `Invalid("missing workspace root")`.
pub fn workspace_root(config: Vec<ConfigSetting>) -> (result: Result<ConfigSetting, ActorError>)
    ensures
        required_outcome(config@, "workspace_root"@, "missing workspace root"@, result),
{
    required_setting(config, "workspace_root", "missing workspace root")
}

/// The `secret_key` setting of the configuration, or
/// `Invalid("missing secret key")`.
pub fn secret_key(config: Vec<ConfigSetting>) -> (result: Result<ConfigSetting, ActorError>)
    ensures
        required_outcome(config@, "secret_key"@, "missing secret key"@, result),
{
    required_setting(config, "secret_key", "missing secret key")
}

/// The `endpoint` setting of the configuration, or
/// `Invalid("missing http endpoint")`.
pub fn endpoint(config: Vec<ConfigSetting>) -> (result: Result<ConfigSetting, ActorError>)
    ensures
        required_outcome(config@, "endpoint"@, "missing http endpoint"@, result),
{
    required_setting(config, "endpoint", "missing http endpoint")
}

/// The value of the workspace root setting, or `Invalid("signing failed")`
/// when it has none.
pub fn workspace_root_value(setting: ConfigSetting) -> (result: Result<String, ActorError>)
    ensures
        match setting.value {
            Some(v) => result == Ok::<String, ActorError>(v),
            None => result matches Err(ActorError::Invalid(m)) && m@ == "signing failed"@,
        },
{
    match setting.value {
        Some(v) => Ok(v),
        None => Err(ActorError::Invalid(String::from_str("signing failed"))),
    }
}

/// The workspace root once its leading `~` was expanded, or
/// `Invalid("signing failed")` when the expansion failed.
pub fn expanded_workspace_root(expanded: Option<String>) -> (result: Result<String, ActorError>)
    ensures
        match expanded {
            Some(p) => result == Ok::<String, ActorError>(p),
            None => result matches Err(ActorError::Invalid(m)) && m@ == "signing failed"@,
        },
{
    match expanded {
        Some(p) => Ok(p),
        None => Err(ActorError::Invalid(String::from_str("signing failed"))),
    }
}

/// A lookup finds a setting exactly when some setting of the configuration
/// has the name; what it finds has that name and is the first such
/// setting of the configuration.
pub proof fn lemma_lookup_finds_any_named(config: Seq<ConfigSetting>, name: Seq<char>, found: Option<ConfigSetting>)
    requires
        lookup(config, name, found),
    ensures
        found is None <==> forall|i: int| 0 <= i < config.len() ==> config[i].name@ != name,
        found matches Some(s) ==> s.name@ == name,
        found matches Some(s) ==> exists|i: int|
            0 <= i < config.len() && config[i] == s && forall|j: int| 0 <= j < i ==> config[j].name@ != name,
{
    if let Some(s) = found {
        let i = choose|i: int| #[trigger] is_first_named(config, name, i) && config[i] == s;
        assert(0 <= i < config.len() && config[i].name@ == name);
    }
}

/// A required setting is missing exactly when no setting of the
/// configuration has its name, and then the error is `Invalid(missing)`.
pub proof fn lemma_required_missing_only_when_absent(
    config: Seq<ConfigSetting>,
    name: Seq<char>,
    missing: Seq<char>,
    result: Result<ConfigSetting, ActorError>,
)
    requires
        required_outcome(config, name, missing, result),
    ensures
        result is Err <==> forall|i: int| 0 <= i < config.len() ==> config[i].name@ != name,
        result matches Err(e) ==> (e matches ActorError::Invalid(m) && m@ == missing),
        result matches Ok(s) ==> s.name@ == name,
{
    if let Ok(s) = result {
        let i = choose|i: int| #[trigger] is_first_named(config, name, i) && config[i] == s;
        assert(0 <= i < config.len() && config[i].name@ == name);
    }
}

} // verus!

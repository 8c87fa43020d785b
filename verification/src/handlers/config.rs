//! The configuration handlers. Before an installation is bootstrapped its
//! configuration can be neither read nor changed; once it is bootstrapped
//! it cannot be bootstrapped again.
use vstd::prelude::*;
use crate::data::ConfigSetting;
use crate::handlers::HandlerError;
use crate::host::{ActorError, InsertSetting};

verus! {

/// Whether the configuration may be read or changed.
pub open spec fn config_access_allowed(bootstrapped: bool) -> bool {
    bootstrapped
}

/// Whether the installation may be bootstrapped.
pub open spec fn bootstrap_allowed(bootstrapped: bool) -> bool {
    !bootstrapped
}

/// The guard of every handler that reads or changes the configuration:
/// `Invalid("Ncube requires initial bootstrapping.")` exactly when the
/// installation was not bootstrapped yet.
pub fn require_bootstrapped(bootstrapped: bool) -> (result: Result<(), HandlerError>)
    ensures
        result is Ok <==> config_access_allowed(bootstrapped),
        result is Ok <==> bootstrapped,
        result matches Err(e) ==> (e matches HandlerError::Invalid(m)
            && m@ == "Ncube requires initial bootstrapping."@),
{
    if !bootstrapped {
        return Err(HandlerError::Invalid(String::from_str("Ncube requires initial bootstrapping.")));
    }
    Ok(())
}

/// The guard of the bootstrap handler: `NotAllowed("Ncube already
/// bootstrapped")` exactly when the installation was bootstrapped before.
pub fn require_not_bootstrapped(bootstrapped: bool) -> (result: Result<(), HandlerError>)
    ensures
        result is Ok <==> bootstrap_allowed(bootstrapped),
        result is Ok <==> !bootstrapped,
        result matches Err(e) ==> (e matches HandlerError::NotAllowed(m)
            && m@ == "Ncube already bootstrapped"@),
{
    if bootstrapped {
        return Err(HandlerError::NotAllowed(String::from_str("Ncube already bootstrapped")));
    }
    Ok(())
}

/// The name of the setting that holds the secret key.
pub open spec fn secret_key_name() -> Seq<char> {
    "secret_key"@
}

/// `inserts` writes the settings in the order given and then, last, the
/// generated secret key.
pub open spec fn is_bootstrap_plan(
    settings: Seq<(String, String)>,
    secret_key: Seq<char>,
    inserts: Seq<InsertSetting>,
) -> bool {
    &&& inserts.len() == settings.len() + 1
    &&& forall|i: int| 0 <= i < settings.len() ==> #[trigger] inserts[i].name@ == settings[i].0@
        && inserts[i].value@ == settings[i].1@
    &&& inserts[settings.len() as int].name@ == secret_key_name()
    &&& inserts[settings.len() as int].value@ == secret_key
}

/// The settings a bootstrap writes: the settings given, in their order,
/// and then the generated secret key under `secret_key`.
pub fn bootstrap_inserts(settings: Vec<(String, String)>, secret_key: String) -> (inserts: Vec<InsertSetting>)
    ensures
        is_bootstrap_plan(settings@, secret_key@, inserts@),
        inserts@.len() == settings@.len() + 1,
        forall|i: int| 0 <= i < settings@.len() ==> #[trigger] inserts@[i].name@ == settings@[i].0@,
        forall|i: int| 0 <= i < settings@.len() ==> #[trigger] inserts@[i].value@ == settings@[i].1@,
        inserts@.last().name@ == "secret_key"@,
        inserts@.last().value@ == secret_key@,
{
    let mut inserts: Vec<InsertSetting> = Vec::new();
    let len = settings.len();
    let mut i: usize = 0;
    while i < len
        invariant
            len == settings@.len(),
            i <= len,
            inserts@.len() == i,
            forall|j: int| 0 <= j < i ==> #[trigger] inserts@[j].name@ == settings@[j].0@,
            forall|j: int| 0 <= j < i ==> #[trigger] inserts@[j].value@ == settings@[j].1@,
        decreases len - i,
    {
        let name = settings[i].0.clone();
        let value = settings[i].1.clone();
        inserts.push(InsertSetting::new(name, value));
        i = i + 1;
    }
    let ghost before = inserts@;
    inserts.push(InsertSetting::new(String::from_str("secret_key"), secret_key));
    assert forall|j: int| 0 <= j < len implies #[trigger] inserts@[j].name@ == settings@[j].0@
        && inserts@[j].value@ == settings@[j].1@ by {
        assert(inserts@[j] == before[j]);
    }
    inserts
}

/// What a handler makes of the host's reply to an insert: the reply is not
/// inspected, so a failed insert does not fail the handler, and a bootstrap
/// goes on with the settings that remain.
pub fn insert_reply_outcome(reply: Result<(), ActorError>) -> (result: Result<(), HandlerError>)
    ensures
        result is Ok,
{
    let _ = reply;
    Ok(())
}

/// The value of a setting a handler reads, or `NotFound(missing)` when the
/// setting has no value.
pub open spec fn value_outcome(setting: ConfigSetting, missing: Seq<char>, result: Result<String, HandlerError>) -> bool {
    match setting.value {
        Some(v) => result == Ok::<String, HandlerError>(v),
        None => result matches Err(HandlerError::NotFound(m)) && m@ == missing,
    }
}

/// The value of the secret key setting, or `NotFound("no secret key")`.
pub fn secret_key_value(setting: ConfigSetting) -> (result: Result<String, HandlerError>)
    ensures
        value_outcome(setting, "no secret key"@, result),
        setting.value matches Some(v) ==> result == Ok::<String, HandlerError>(v),
        setting.value is None ==> (result matches Err(HandlerError::NotFound(m)) && m@ == "no secret key"@),
{
    match setting.value {
        Some(v) => Ok(v),
        None => Err(HandlerError::NotFound(String::from_str("no secret key"))),
    }
}

/// The value of the endpoint setting, or `NotFound("no endpoint")`.
pub fn endpoint_value(setting: ConfigSetting) -> (result: Result<String, HandlerError>)
    ensures
        value_outcome(setting, "no endpoint"@, result),
        setting.value matches Some(v) ==> result == Ok::<String, HandlerError>(v),
        setting.value is None ==> (result matches Err(HandlerError::NotFound(m)) && m@ == "no endpoint"@),
{
    match setting.value {
        Some(v) => Ok(v),
        None => Err(HandlerError::NotFound(String::from_str("no endpoint"))),
    }
}

/// In every state of an installation exactly one of bootstrapping it and
/// using its configuration is allowed.
pub proof fn lemma_bootstrap_or_access(bootstrapped: bool)
    ensures
        bootstrap_allowed(bootstrapped) != config_access_allowed(bootstrapped),
{
}

/// Of the settings a bootstrap writes, the generated secret key comes
/// last: no setting written after it can replace it, whatever settings the
/// request held.
pub proof fn lemma_secret_key_written_last(
    settings: Seq<(String, String)>,
    secret_key: Seq<char>,
    inserts: Seq<InsertSetting>,
)
    requires
        is_bootstrap_plan(settings, secret_key, inserts),
    ensures
        inserts.last().name@ == secret_key_name(),
        inserts.last().value@ == secret_key,
        forall|i: int| 0 <= i < inserts.len() - 1 ==> #[trigger] inserts[i].name@ == settings[i].0@,
{
}

/// A bootstrap writes every setting of the request, at its place and with
/// its name and value unchanged, and then one more insert: the generated
/// secret key.
pub proof fn lemma_bootstrap_writes_settings_unchanged(
    settings: Seq<(String, String)>,
    secret_key: Seq<char>,
    inserts: Seq<InsertSetting>,
)
    requires
        is_bootstrap_plan(settings, secret_key, inserts),
    ensures
        inserts.len() == settings.len() + 1,
        forall|i: int| 0 <= i < settings.len() ==> #[trigger] inserts[i].name@ == settings[i].0@,
        forall|i: int| 0 <= i < settings.len() ==> #[trigger] inserts[i].value@ == settings[i].1@,
        inserts[settings.len() as int].name@ == "secret_key"@,
        inserts[settings.len() as int].value@ == secret_key,
{
    assert forall|i: int| 0 <= i < settings.len() implies #[trigger] inserts[i].value@ == settings[i].1@ by {
        assert(inserts[i].name@ == settings[i].0@);
    }
}

} // verus!

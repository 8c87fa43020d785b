//! The data the host actor and the handlers exchange.
use vstd::prelude::*;

verus! {

/// One setting of the Ncube configuration: its name and, once set, its
/// value.
#[derive(Debug)]
pub struct ConfigSetting {
    pub name: String,
    pub value: Option<String>,
}

/// The list of settings of an Ncube installation.
pub type NcubeConfig = Vec<ConfigSetting>;

} // verus!

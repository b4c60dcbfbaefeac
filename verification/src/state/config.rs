//! The oracle's settings: who owns it and which EVM canister it talks to.
use vstd::prelude::*;
use crate::principal::{anonymous_id, Principal};

verus! {

/// The settings that a reset installs.
#[derive(Debug, Clone, Copy, PartialEq, Eq)]
pub struct Settings {
    /// The identity that may change the oracle.
    pub owner: Principal,
    /// The identity of the EVM canister.
    pub evmc: Principal,
}

/// The settings as they are stored.
#[derive(Debug, Clone, Copy, PartialEq, Eq)]
pub struct ConfigData {
    /// The identity that may change the oracle.
    pub owner: Principal,
    /// The identity of the EVM canister.
    pub evmc: Principal,
}

impl Default for ConfigData {
    /// Settings before any owner is set: both identities anonymous.
    fn default() -> (r: ConfigData)
        ensures
            r.owner@ == anonymous_id(),
            r.evmc@ == anonymous_id(),
    {
        ConfigData { owner: Principal::anonymous(), evmc: Principal::anonymous() }
    }
}

/// The oracle's configuration. Every update writes both fields at once.
#[derive(Debug, Clone, Copy, PartialEq, Eq)]
pub struct Config {
    data: ConfigData,
}

impl View for Config {
    type V = ConfigData;

    closed spec fn view(&self) -> ConfigData {
        self.data
    }
}

impl Default for Config {
    /// The configuration before any owner is set.
    fn default() -> (r: Config)
        ensures
            r@.owner@ == anonymous_id(),
            r@.evmc@ == anonymous_id(),
    {
        Config { data: ConfigData::default() }
    }
}

impl Config {
    /// Clears the configuration and installs `settings`.
    pub fn reset(&mut self, settings: Settings)
        ensures
            final(self)@ == (ConfigData { owner: settings.owner, evmc: settings.evmc }),
    {
        let new_data = ConfigData { owner: settings.owner, evmc: settings.evmc };
        self.data = new_data;
    }

    /// The identity of the owner.
    pub fn get_owner(&self) -> (r: Principal)
        ensures
            r == self@.owner,
    {
        self.data.owner
    }

    /// The identity of the EVM canister.
    pub fn get_evm_canister_id(&self) -> (r: Principal)
        ensures
            r == self@.evmc,
    {
        self.data.evmc
    }

    /// Installs a new owner and keeps the EVM canister.
    pub fn set_owner(&mut self, owner: Principal)
        ensures
            final(self)@ == (ConfigData { owner, evmc: old(self)@.evmc }),
    {
        let evmc = self.get_evm_canister_id();
        self.data = ConfigData { owner, evmc };
    }

    /// Installs a new EVM canister and keeps the owner.
    pub fn set_evmc(&mut self, evmc: Principal)
        ensures
            final(self)@ == (ConfigData { owner: old(self)@.owner, evmc }),
    {
        let owner: Principal = self.get_owner();
        self.data = ConfigData { owner, evmc };
    }
}

} // verus!

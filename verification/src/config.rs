//! The configuration that every command may read. It is made once at
//! startup; keeping it behind a lock is left to whoever shares it.

use vstd::prelude::*;
use vstd::string::*;

verus! {

/// The shared configuration.
pub struct Config {
    /// The release that is running.
    pub version: String,
    /// The role that the mute commands grant and revoke.
    pub mute_role_id: Option<u64>,
    /// Where announcements are to go.
    pub general_channel_id: Option<u64>,
}

/// What is missing from a configuration.
#[derive(Clone, Copy, Debug, PartialEq, Eq)]
pub enum ConfigError {
    /// No mute role is configured.
    MissingMuteRole,
}

impl Config {
    /// The configuration at startup: the version as the environment gives
    /// it, empty where it gives none, and nothing else.
    pub fn new(version: Option<&str>) -> (config: Config)
        ensures
            config.version@ == match version {
                Some(v) => v@,
                None => Seq::<char>::empty(),
            },
            config.mute_role_id is None,
            config.general_channel_id is None,
    {
        let version = match version {
            Some(v) => String::from_str(v),
            None => String::new(),
        };
        Config { version, mute_role_id: None, general_channel_id: None }
    }

    /// A copy of the configuration as it stands, for a reader to keep once
    /// the lock is released.
    pub fn snapshot(&self) -> (copy: Config)
        ensures
            copy.version@ == self.version@,
            copy.mute_role_id == self.mute_role_id,
            copy.general_channel_id == self.general_channel_id,
    {
        Config {
            version: self.version.clone(),
            mute_role_id: self.mute_role_id,
            general_channel_id: self.general_channel_id,
        }
    }

    /// The mute role, which the mute commands cannot do without.
    pub fn mute_role(&self) -> (role: Result<u64, ConfigError>)
        ensures
            role == match self.mute_role_id {
                Some(id) => Ok::<u64, ConfigError>(id),
                None => Err(ConfigError::MissingMuteRole),
            },
    {
        match self.mute_role_id {
            Some(id) => Ok(id),
            None => Err(ConfigError::MissingMuteRole),
        }
    }

    /// Sets the role that the mute commands grant and revoke.
    pub fn set_mute_role(&mut self, role: Option<u64>)
        ensures
            final(self).mute_role_id == role,
            final(self).version == old(self).version,
            final(self).general_channel_id == old(self).general_channel_id,
    {
        self.mute_role_id = role;
    }

    /// Sets the channel where announcements are to go.
    pub fn set_general_channel(&mut self, channel: Option<u64>)
        ensures
            final(self).general_channel_id == channel,
            final(self).version == old(self).version,
            final(self).mute_role_id == old(self).mute_role_id,
    {
        self.general_channel_id = channel;
    }
}

} // verus!

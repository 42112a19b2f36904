//! The Windows network and user-interface components of the platform bridge.
use vstd::prelude::*;

use crate::access::{Capable, DomainAuthority};
use crate::error::{BridgeError, BridgeResult, Capability, VarError};

verus! {

/// The environment variable that names the session of the current process.
pub const ENV_SESSION_NAME: &'static str = "SESSION_NAME";

/// The session name of a console (command-line) session.
pub const VAL_CONSOLE: &'static str = "Console";

/// The network component on Windows.
pub struct WindowsNetComponentLookup;

impl WindowsNetComponentLookup {
    /// The domain of the computer: Windows domains are not supported, so the component is
    /// incapable of it.
    pub fn lookup_domain(&self) -> (r: BridgeResult<Capable<Option<String>>>)
        ensures
            r == Err::<Capable<Option<String>>, BridgeError>(
                BridgeError::Incapable(Capability::Domains),
            ),
    {
        Err(BridgeError::Incapable(Capability::Domains))
    }

    /// The authorities of the computer's domains: the component is incapable of domains.
    pub fn lookup_domain_authorities(&self) -> (r: BridgeResult<Vec<DomainAuthority>>)
        ensures
            r == Err::<Vec<DomainAuthority>, BridgeError>(
                BridgeError::Incapable(Capability::Domains),
            ),
    {
        Err(BridgeError::Incapable(Capability::Domains))
    }
}

/// The user-interface component on Windows.
pub struct WindowsUiComponentLookup;

impl WindowsUiComponentLookup {
    /// Whether the process runs in a command-line session, from the value of the session-name
    /// variable: a console session is one, any other session is not, an unset variable means
    /// no command line, and a value that is not Unicode is an error naming the variable.
    pub fn has_command_line_from(&self, session_name: Result<String, VarError>) -> (r:
        BridgeResult<bool>)
        ensures
            match session_name {
                Ok(v) => r == Ok::<bool, BridgeError>(v@ == VAL_CONSOLE@),
                Err(VarError::NotPresent) => r == Ok::<bool, BridgeError>(false),
                Err(e) => r == Err::<bool, BridgeError>(
                    BridgeError::EnvVar { name: ENV_SESSION_NAME, source: e },
                ),
            },
    {
        match session_name {
            Ok(v) => {
                let console: String = VAL_CONSOLE.to_owned();
                Ok(v == console)
            },
            Err(VarError::NotPresent) => Ok(false),
            Err(source) => Err(BridgeError::EnvVar { name: ENV_SESSION_NAME, source }),
        }
    }
}

} // verus!

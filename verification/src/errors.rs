//! Error types for device construction and signal access.

use vstd::prelude::*;
use vstd::string::StringExecFns;

verus! {

/// Why device construction failed. All three are fatal: no partially built
/// device is ever handed out.
#[derive(Debug, PartialEq, Eq, Structural)]
pub enum ConfigError {
    /// The configuration resource could not be opened.
    OpenFailed,
    /// The configuration text is not well-formed YAML, or holds no document.
    ParseFailed,
    /// The transport could not reach the configured coupler within the
    /// connect timeout.
    ConnectFailed,
}

/// Errors from signal lookup and refresh operations.
#[derive(Debug)]
pub enum DeviceError {
    /// No signal in the registry has the requested name; carries that name.
    /// Recoverable by the caller: a user or configuration error, not a
    /// transport fault.
    NotFound(String),
    /// The transport read failed; carries the transport's own error.
    Transport(modbus::Error),
}

/// The text of a [`DeviceError::NotFound`] for a given signal name.
pub open spec fn spec_not_found_message(name: Seq<char>) -> Seq<char> {
    "Unable to find signal: '"@ + name + "'"@
}

impl DeviceError {
    /// A short description of the error; for [`DeviceError::NotFound`] it
    /// names the missing signal.
    pub fn message(&self) -> (r: String)
        ensures
            match self {
                DeviceError::NotFound(n) => r@ == spec_not_found_message(n@),
                DeviceError::Transport(_) => r@ == "transport read failed"@,
            },
    {
        match self {
            DeviceError::NotFound(n) => {
                let mut r = "Unable to find signal: '".to_owned();
                r.append(n.as_str());
                r.append("'");
                proof {
                    assert(r@ =~= spec_not_found_message(n@));
                }
                r
            },
            DeviceError::Transport(_) => "transport read failed".to_owned(),
        }
    }
}

} // verus!

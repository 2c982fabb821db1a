use vstd::prelude::*;
use vstd::string::StringExecFns;

verus! {

/// The errors the bridge can surface to a caller.
///
/// Each variant carries a human-readable message. `ConfigError` reports a
/// present-but-malformed configuration file, `ExternalProcessError` a
/// process that could not be launched or exited with non-zero status (the
/// message holds the captured standard-error text), and `DecodeError` an
/// output string that did not match the expected structured shape.
#[derive(Debug)]
pub enum BridgeError {
    ConfigError(String),
    ExternalProcessError(String),
    DecodeError(String),
}

impl BridgeError {
    /// The message carried by this error.
    pub fn message(&self) -> (r: &String)
        ensures
            self matches BridgeError::ConfigError(m) ==> r == m,
            self matches BridgeError::ExternalProcessError(m) ==> r == m,
            self matches BridgeError::DecodeError(m) ==> r == m,
    {
        match self {
            BridgeError::ConfigError(m) => m,
            BridgeError::ExternalProcessError(m) => m,
            BridgeError::DecodeError(m) => m,
        }
    }

    /// The error for an external process that never started: the message
    /// carries the launch-failure reason.
    pub fn launch_failure(reason: &str) -> (e: BridgeError)
        ensures
            e matches BridgeError::ExternalProcessError(m) && m@
                == "Python process failed to launch: "@ + reason@,
    {
        let mut m = String::from_str("Python process failed to launch: ");
        m.append(reason);
        BridgeError::ExternalProcessError(m)
    }

    /// The error for captured process output that is not valid UTF-8: the
    /// message carries the decoder's reason.
    pub fn non_utf8_output(reason: &str) -> (e: BridgeError)
        ensures
            e matches BridgeError::DecodeError(m) && m@ == "process output is not UTF-8: "@
                + reason@,
    {
        let mut m = String::from_str("process output is not UTF-8: ");
        m.append(reason);
        BridgeError::DecodeError(m)
    }
}

} // verus!

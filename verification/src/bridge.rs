use vstd::prelude::*;
use crate::config::ConfigSources;
use crate::config::ConfigV;
use crate::config::NebulaConfig;
use crate::config::resolve_config;
use crate::config::resolve_spec;
use crate::errors::BridgeError;
use crate::escape::escape_py;
use crate::escape::escape_seq;
use crate::text::trim_end_ascii;
use crate::text::trim_end_spec;
use vstd::string::StringExecFns;

verus! {

/// The bridge client: a resolved configuration, the effective storage
/// path, and the effective external-runtime command. Immutable once
/// constructed; a fire-and-forget capture builds a throwaway clone
/// instead of touching a shared one.
pub struct LocalKGBridge {
    pub config: NebulaConfig,
    pub db_path: String,
    pub python_cmd: String,
}

/// The mathematical shape of a bridge client.
pub struct BridgeV {
    pub config: ConfigV,
    pub db_path: Seq<char>,
    pub python_cmd: Seq<char>,
}

impl View for LocalKGBridge {
    type V = BridgeV;

    open spec fn view(&self) -> BridgeV {
        BridgeV { config: self.config@, db_path: self.db_path@, python_cmd: self.python_cmd@ }
    }
}

/// The view of an optional borrowed string.
pub open spec fn opt_str_view(o: Option<&str>) -> Option<Seq<char>> {
    match o {
        Some(s) => Some(s@),
        None => None,
    }
}

/// The storage path a bridge runs with: the caller's override where one
/// is given, else the configured path, else the built-in default.
pub open spec fn effective_db_path(arg: Option<Seq<char>>, c: ConfigV) -> Seq<char> {
    match arg {
        Some(p) => p,
        None => match c.local_kg_db {
            Some(d) => d,
            None => "local_kg/nebula_ide_local.db"@,
        },
    }
}

/// The external-runtime command a bridge runs with: the configured
/// command, else the built-in default.
pub open spec fn effective_python_cmd(c: ConfigV) -> Seq<char> {
    match c.python_command {
        Some(p) => p,
        None => "python"@,
    }
}

impl LocalKGBridge {
    /// Resolves the configuration from the gathered sources, in strict
    /// priority order: the configuration file, then the environment
    /// variables, then the built-in defaults. A present-but-malformed
    /// file is a hard `ConfigError`, never a silent fallback.
    pub fn load_config(sources: &ConfigSources) -> (r: Result<NebulaConfig, BridgeError>)
        ensures
            r is Ok <==> resolve_spec(sources@) is Some,
            r matches Ok(c) ==> Some(c@) == resolve_spec(sources@),
            r matches Err(e) ==> e is ConfigError,
    {
        resolve_config(sources)
    }

    /// Creates a bridge: resolves the configuration once and fixes the
    /// effective storage path and external-runtime command for the
    /// client's lifetime.
    pub fn new(db_path: Option<&str>, sources: &ConfigSources) -> (r: Result<
        LocalKGBridge,
        BridgeError,
    >)
        ensures
            r is Ok <==> resolve_spec(sources@) is Some,
            r matches Ok(b) ==> {
                &&& Some(b@.config) == resolve_spec(sources@)
                &&& b@.db_path == effective_db_path(
                    opt_str_view(db_path),
                    resolve_spec(sources@)->Some_0,
                )
                &&& b@.python_cmd == effective_python_cmd(resolve_spec(sources@)->Some_0)
            },
            r matches Err(e) ==> e is ConfigError,
    {
        let config = match Self::load_config(sources) {
            Ok(c) => c,
            Err(e) => {
                return Err(e);
            },
        };
        let db_path: String = match db_path {
            Some(p) => p.to_owned(),
            None => match &config.local_kg_db {
                Some(d) => d.clone(),
                None => String::from_str("local_kg/nebula_ide_local.db"),
            },
        };
        let python_cmd: String = match &config.python_command {
            Some(p) => p.clone(),
            None => String::from_str("python"),
        };
        Ok(LocalKGBridge { config, db_path, python_cmd })
    }

    /// Escapes a string for embedding into a generated script:
    /// backslashes doubled first, then single quotes, then newlines.
    pub fn escape_python(s: &str) -> (r: String)
        ensures
            r@ == escape_seq(s@),
    {
        escape_py(s)
    }

    /// Turns a finished process's observed outcome into the operation's
    /// raw result: on success the standard output with trailing
    /// whitespace trimmed, on failure an `ExternalProcessError` carrying
    /// the captured standard-error text verbatim.
    pub fn interpret_process_output(success: bool, stdout: &str, stderr: &str) -> (r: Result<
        String,
        BridgeError,
    >)
        ensures
            success ==> (r matches Ok(o) && o@ == trim_end_spec(stdout@)),
            !success ==> (r matches Err(e) && e matches BridgeError::ExternalProcessError(m)
                && m@ == "Python process failed: "@ + stderr@),
    {
        if success {
            Ok(trim_end_ascii(stdout))
        } else {
            let mut message = String::from_str("Python process failed: ");
            message.append(stderr);
            Err(BridgeError::ExternalProcessError(message))
        }
    }

    /// The throwaway client a fire-and-forget capture runs on: the same
    /// storage path and runtime command as this bridge, under a fresh
    /// minimal configuration, so the shared instance is never touched
    /// from the detached task.
    pub fn detached_client(&self, language: &str) -> (c: LocalKGBridge)
        ensures
            c@.db_path == self@.db_path,
            c@.python_cmd == self@.python_cmd,
            c@.config == (ConfigV {
                language: Some(language@),
                framework: None,
                local_kg_db: Some(self@.db_path),
                central_kg_url: None,
                python_command: Some(self@.python_cmd),
                auto_sync: None,
            }),
    {
        LocalKGBridge {
            config: NebulaConfig {
                language: Some(language.to_owned()),
                framework: None,
                local_kg_db: Some(self.db_path.clone()),
                central_kg_url: None,
                python_command: Some(self.python_cmd.clone()),
                auto_sync: None,
            },
            db_path: self.db_path.clone(),
            python_cmd: self.python_cmd.clone(),
        }
    }
}

} // verus!

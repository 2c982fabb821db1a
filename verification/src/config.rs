use vstd::prelude::*;
use crate::errors::BridgeError;
use crate::json::Json;
use crate::json::json_of;
use crate::json::parse_error_text;
use crate::json::parse_json;
use crate::json::value_model;
use crate::json::val_as_bool;
use crate::json::val_as_str;
use crate::json::val_get;
use crate::json::val_is_null;
use crate::json::val_is_object;
use vstd::string::StringExecFns;

verus! {

/// The runtime configuration of the bridge. Every field is optional: an
/// absent field means "use the built-in default", never an error.
#[derive(Debug)]
pub struct NebulaConfig {
    pub language: Option<String>,
    pub framework: Option<String>,
    pub local_kg_db: Option<String>,
    pub central_kg_url: Option<String>,
    pub python_command: Option<String>,
    pub auto_sync: Option<bool>,
}

/// The mathematical shape of a configuration.
pub struct ConfigV {
    pub language: Option<Seq<char>>,
    pub framework: Option<Seq<char>>,
    pub local_kg_db: Option<Seq<char>>,
    pub central_kg_url: Option<Seq<char>>,
    pub python_command: Option<Seq<char>>,
    pub auto_sync: Option<bool>,
}

/// The view of an optional string.
pub open spec fn opt_view(o: Option<String>) -> Option<Seq<char>> {
    match o {
        Some(s) => Some(s@),
        None => None,
    }
}

impl View for NebulaConfig {
    type V = ConfigV;

    open spec fn view(&self) -> ConfigV {
        ConfigV {
            language: opt_view(self.language),
            framework: opt_view(self.framework),
            local_kg_db: opt_view(self.local_kg_db),
            central_kg_url: opt_view(self.central_kg_url),
            python_command: opt_view(self.python_command),
            auto_sync: self.auto_sync,
        }
    }
}

/// The raw material configuration resolution works from: the contents of
/// the configuration file where one exists, and the values of the named
/// environment variables where they are set. Gathering these is the
/// caller's input-output work; resolving them is the bridge's.
pub struct ConfigSources {
    pub config_file: Option<String>,
    pub env_language: Option<String>,
    pub env_framework: Option<String>,
    pub env_local_kg_db: Option<String>,
    pub env_central_kg_url: Option<String>,
    pub env_python_cmd: Option<String>,
}

/// The mathematical shape of the sources.
pub struct SourcesV {
    pub config_file: Option<Seq<char>>,
    pub env_language: Option<Seq<char>>,
    pub env_framework: Option<Seq<char>>,
    pub env_local_kg_db: Option<Seq<char>>,
    pub env_central_kg_url: Option<Seq<char>>,
    pub env_python_cmd: Option<Seq<char>>,
}

impl View for ConfigSources {
    type V = SourcesV;

    open spec fn view(&self) -> SourcesV {
        SourcesV {
            config_file: opt_view(self.config_file),
            env_language: opt_view(self.env_language),
            env_framework: opt_view(self.env_framework),
            env_local_kg_db: opt_view(self.env_local_kg_db),
            env_central_kg_url: opt_view(self.env_central_kg_url),
            env_python_cmd: opt_view(self.env_python_cmd),
        }
    }
}

/// An optional string field of a configuration object: absent or null
/// means the field is unset, a string is its value, and any other shape
/// is malformed (the outer `None`).
pub open spec fn opt_str_field(m: Map<Seq<char>, Json>, k: Seq<char>) -> Option<
    Option<Seq<char>>,
> {
    if !m.dom().contains(k) || m[k] is Null {
        Some(None)
    } else if m[k] is Str {
        Some(Some(m[k]->Str_0))
    } else {
        None
    }
}

/// An optional boolean field of a configuration object, shaped as
/// `opt_str_field` is.
pub open spec fn opt_bool_field(m: Map<Seq<char>, Json>, k: Seq<char>) -> Option<Option<bool>> {
    if !m.dom().contains(k) || m[k] is Null {
        Some(None)
    } else if m[k] is Bool {
        Some(Some(m[k]->Bool_0))
    } else {
        None
    }
}

/// The configuration a JSON document denotes: the document must be an
/// object, each known key must be absent, null, or of its field's type,
/// and unknown keys are ignored. `None` means the document is malformed.
pub open spec fn config_of_json(j: Json) -> Option<ConfigV> {
    match j {
        Json::Obj(m) => {
            if {
                &&& opt_str_field(m, "language"@) is Some
                &&& opt_str_field(m, "framework"@) is Some
                &&& opt_str_field(m, "local_kg_db"@) is Some
                &&& opt_str_field(m, "central_kg_url"@) is Some
                &&& opt_str_field(m, "python_command"@) is Some
                &&& opt_bool_field(m, "auto_sync"@) is Some
            } {
                Some(
                    ConfigV {
                        language: opt_str_field(m, "language"@)->Some_0,
                        framework: opt_str_field(m, "framework"@)->Some_0,
                        local_kg_db: opt_str_field(m, "local_kg_db"@)->Some_0,
                        central_kg_url: opt_str_field(m, "central_kg_url"@)->Some_0,
                        python_command: opt_str_field(m, "python_command"@)->Some_0,
                        auto_sync: opt_bool_field(m, "auto_sync"@)->Some_0,
                    },
                )
            } else {
                None
            }
        },
        _ => None,
    }
}

/// The configuration taken from the environment variables, once the
/// language variable is known to be set: each remaining variable is read
/// independently, and auto-sync is left unset.
pub open spec fn env_config(s: SourcesV) -> ConfigV {
    ConfigV {
        language: s.env_language,
        framework: s.env_framework,
        local_kg_db: s.env_local_kg_db,
        central_kg_url: s.env_central_kg_url,
        python_command: s.env_python_cmd,
        auto_sync: None,
    }
}

/// The built-in default configuration.
pub open spec fn default_config() -> ConfigV {
    ConfigV {
        language: Some("rust"@),
        framework: None,
        local_kg_db: Some("local_kg/nebula_ide_local.db"@),
        central_kg_url: None,
        python_command: Some("python"@),
        auto_sync: Some(true),
    }
}

/// The resolved configuration: the file where it exists (and `None` — a
/// hard error — where it exists but is malformed), else the environment
/// where its language variable is set, else the built-in defaults.
pub open spec fn resolve_spec(s: SourcesV) -> Option<ConfigV> {
    match s.config_file {
        Some(text) => match json_of(text) {
            Some(j) => config_of_json(j),
            None => None,
        },
        None => {
            if s.env_language is Some {
                Some(env_config(s))
            } else {
                Some(default_config())
            }
        },
    }
}

/// Law: resolution is strictly prioritized. When the configuration file
/// is present, the resolved configuration is a function of its contents
/// alone: no environment variable influences it, however the variables
/// are set.
pub proof fn lemma_file_source_priority(s1: SourcesV, s2: SourcesV)
    requires
        s1.config_file is Some,
        s1.config_file == s2.config_file,
    ensures
        resolve_spec(s1) == resolve_spec(s2),
{
}

/// Law: a present-but-malformed configuration file makes resolution fail;
/// it never falls back to the environment or to the defaults, however
/// those are set.
pub proof fn lemma_malformed_file_is_hard_error(s: SourcesV)
    requires
        s.config_file matches Some(text) && (json_of(text) is None || config_of_json(
            json_of(text)->Some_0,
        ) is None),
    ensures
        resolve_spec(s) is None,
{
}

/// Reads one optional string field out of a configuration object,
/// following `opt_str_field`.
fn read_opt_str_field(v: &serde_json::Value, key: &str) -> (r: Option<Option<String>>)
    requires
        value_model(*v) is Obj,
    ensures
        r is Some <==> opt_str_field(value_model(*v)->Obj_0, key@) is Some,
        r matches Some(f) ==> opt_view(f) == opt_str_field(value_model(*v)->Obj_0, key@)->Some_0,
{
    match val_get(v, key) {
        None => Some(None),
        Some(f) => {
            if val_is_null(f) {
                Some(None)
            } else {
                match val_as_str(f) {
                    Some(s) => Some(Some(s.to_owned())),
                    None => None,
                }
            }
        },
    }
}

/// Reads one optional boolean field out of a configuration object,
/// following `opt_bool_field`.
fn read_opt_bool_field(v: &serde_json::Value, key: &str) -> (r: Option<Option<bool>>)
    requires
        value_model(*v) is Obj,
    ensures
        r is Some <==> opt_bool_field(value_model(*v)->Obj_0, key@) is Some,
        r matches Some(f) ==> f == opt_bool_field(value_model(*v)->Obj_0, key@)->Some_0,
{
    match val_get(v, key) {
        None => Some(None),
        Some(f) => {
            if val_is_null(f) {
                Some(None)
            } else {
                match val_as_bool(f) {
                    Some(b) => Some(Some(b)),
                    None => None,
                }
            }
        },
    }
}

/// Reads a configuration out of a parsed JSON document, following
/// `config_of_json`.
pub fn config_from_value(v: &serde_json::Value) -> (r: Option<NebulaConfig>)
    ensures
        r is Some <==> config_of_json(value_model(*v)) is Some,
        r matches Some(c) ==> Some(c@) == config_of_json(value_model(*v)),
{
    if !val_is_object(v) {
        return None;
    }
    let language = match read_opt_str_field(v, "language") {
        Some(f) => f,
        None => {
            return None;
        },
    };
    let framework = match read_opt_str_field(v, "framework") {
        Some(f) => f,
        None => {
            return None;
        },
    };
    let local_kg_db = match read_opt_str_field(v, "local_kg_db") {
        Some(f) => f,
        None => {
            return None;
        },
    };
    let central_kg_url = match read_opt_str_field(v, "central_kg_url") {
        Some(f) => f,
        None => {
            return None;
        },
    };
    let python_command = match read_opt_str_field(v, "python_command") {
        Some(f) => f,
        None => {
            return None;
        },
    };
    let auto_sync = match read_opt_bool_field(v, "auto_sync") {
        Some(f) => f,
        None => {
            return None;
        },
    };
    Some(NebulaConfig { language, framework, local_kg_db, central_kg_url, python_command, auto_sync })
}

/// Resolves the configuration from the gathered sources, following
/// `resolve_spec`: the file first, then the environment, then defaults.
pub(crate) fn resolve_config(sources: &ConfigSources) -> (r: Result<NebulaConfig, BridgeError>)
    ensures
        r is Ok <==> resolve_spec(sources@) is Some,
        r matches Ok(c) ==> Some(c@) == resolve_spec(sources@),
        r matches Err(e) ==> e is ConfigError,
{
    match &sources.config_file {
        Some(text) => {
            match parse_json(text.as_str()) {
                Err(e) => {
                    let mut m = String::from_str("configuration file is not valid JSON: ");
                    m.append(parse_error_text(&e).as_str());
                    Err(BridgeError::ConfigError(m))
                },
                Ok(v) => {
                    match config_from_value(&v) {
                        Some(c) => Ok(c),
                        None => Err(
                            BridgeError::ConfigError(
                                String::from_str(
                                    "configuration file does not have the expected shape",
                                ),
                            ),
                        ),
                    }
                },
            }
        },
        None => {
            match &sources.env_language {
                Some(language) => Ok(
                    NebulaConfig {
                        language: Some(language.clone()),
                        framework: clone_opt(&sources.env_framework),
                        local_kg_db: clone_opt(&sources.env_local_kg_db),
                        central_kg_url: clone_opt(&sources.env_central_kg_url),
                        python_command: clone_opt(&sources.env_python_cmd),
                        auto_sync: None,
                    },
                ),
                None => Ok(
                    NebulaConfig {
                        language: Some(String::from_str("rust")),
                        framework: None,
                        local_kg_db: Some(String::from_str("local_kg/nebula_ide_local.db")),
                        central_kg_url: None,
                        python_command: Some(String::from_str("python")),
                        auto_sync: Some(true),
                    },
                ),
            }
        },
    }
}

/// Clones an optional string.
fn clone_opt(o: &Option<String>) -> (r: Option<String>)
    ensures
        opt_view(r) == opt_view(*o),
{
    match o {
        Some(s) => Some(s.clone()),
        None => None,
    }
}

} // verus!

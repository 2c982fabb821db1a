use vstd::prelude::*;
use crate::errors::BridgeError;
use crate::json::Json;
use crate::json::json_of;
use crate::json::parse_error_text;
use crate::json::parse_json;
use crate::json::value_model;
use crate::json::val_as_array;
use crate::json::val_as_i64;
use crate::json::val_as_str;
use crate::json::val_clone;
use crate::json::val_get;
use crate::json::val_is_null;
use crate::json::val_is_object;
use vstd::string::StringExecFns;

verus! {

/// An error observation handed to the capture operations. All fields are
/// caller-supplied; the bridge validates nothing beyond safe encoding.
#[derive(Debug, Clone)]
pub struct ErrorCapture {
    pub signature: String,
    pub category: String,
    pub language: String,
    pub severity: String,
    pub description: Option<String>,
}

/// A recorded error pattern, as the external engine reports one. Values
/// of this type are produced only by decoding external output, never
/// constructed by the bridge itself.
#[derive(Debug)]
pub struct ErrorPattern {
    pub id: String,
    pub error_signature: String,
    pub error_category: String,
    pub language: String,
    pub severity: String,
    pub description: Option<String>,
    pub occurrence_count: i32,
    pub first_seen: String,
    pub last_seen: String,
    pub solution_count: i32,
}

/// The mathematical shape of a recorded pattern.
pub struct PatternV {
    pub id: Seq<char>,
    pub error_signature: Seq<char>,
    pub error_category: Seq<char>,
    pub language: Seq<char>,
    pub severity: Seq<char>,
    pub description: Option<Seq<char>>,
    pub occurrence_count: int,
    pub first_seen: Seq<char>,
    pub last_seen: Seq<char>,
    pub solution_count: int,
}

impl View for ErrorPattern {
    type V = PatternV;

    open spec fn view(&self) -> PatternV {
        PatternV {
            id: self.id@,
            error_signature: self.error_signature@,
            error_category: self.error_category@,
            language: self.language@,
            severity: self.severity@,
            description: crate::config::opt_view(self.description),
            occurrence_count: self.occurrence_count as int,
            first_seen: self.first_seen@,
            last_seen: self.last_seen@,
            solution_count: self.solution_count as int,
        }
    }
}

/// Summary statistics over the whole store, as the external engine
/// reports them. The per-language breakdown and the top-errors records
/// have no shape of their own: they are carried through as the JSON
/// values the engine produced.
#[derive(Debug)]
pub struct PatternSummary {
    pub total_patterns: i32,
    pub total_solutions: i32,
    pub languages: serde_json::Value,
    pub top_errors: Vec<serde_json::Value>,
}

/// The mathematical shape of a summary.
pub struct SummaryV {
    pub total_patterns: int,
    pub total_solutions: int,
    pub languages: Json,
    pub top_errors: Seq<Json>,
}

impl View for PatternSummary {
    type V = SummaryV;

    open spec fn view(&self) -> SummaryV {
        SummaryV {
            total_patterns: self.total_patterns as int,
            total_solutions: self.total_solutions as int,
            languages: value_model(self.languages),
            top_errors: self.top_errors@.map_values(|x: serde_json::Value| value_model(x)),
        }
    }
}

/// A required string field of a record: present and a string, else the
/// record is malformed.
pub open spec fn str_field(m: Map<Seq<char>, Json>, k: Seq<char>) -> Option<Seq<char>> {
    if m.dom().contains(k) && m[k] is Str {
        Some(m[k]->Str_0)
    } else {
        None
    }
}

/// An optional string field of a record: absent or null means unset.
pub open spec fn desc_field(m: Map<Seq<char>, Json>, k: Seq<char>) -> Option<Option<Seq<char>>> {
    if !m.dom().contains(k) || m[k] is Null {
        Some(None)
    } else if m[k] is Str {
        Some(Some(m[k]->Str_0))
    } else {
        None
    }
}

/// A required counter field of a record: present and an integer that fits
/// the counter's machine type, else the record is malformed.
pub open spec fn count_field(m: Map<Seq<char>, Json>, k: Seq<char>) -> Option<int> {
    if m.dom().contains(k) && m[k] is Int && i32::MIN <= m[k]->Int_0 <= i32::MAX {
        Some(m[k]->Int_0)
    } else {
        None
    }
}

/// The pattern a JSON document denotes, or `None` where the document does
/// not have the expected shape.
pub open spec fn pattern_of_json(j: Json) -> Option<PatternV> {
    match j {
        Json::Obj(m) => {
            if {
                &&& str_field(m, "id"@) is Some
                &&& str_field(m, "error_signature"@) is Some
                &&& str_field(m, "error_category"@) is Some
                &&& str_field(m, "language"@) is Some
                &&& str_field(m, "severity"@) is Some
                &&& desc_field(m, "description"@) is Some
                &&& count_field(m, "occurrence_count"@) is Some
                &&& str_field(m, "first_seen"@) is Some
                &&& str_field(m, "last_seen"@) is Some
                &&& count_field(m, "solution_count"@) is Some
            } {
                Some(
                    PatternV {
                        id: str_field(m, "id"@)->Some_0,
                        error_signature: str_field(m, "error_signature"@)->Some_0,
                        error_category: str_field(m, "error_category"@)->Some_0,
                        language: str_field(m, "language"@)->Some_0,
                        severity: str_field(m, "severity"@)->Some_0,
                        description: desc_field(m, "description"@)->Some_0,
                        occurrence_count: count_field(m, "occurrence_count"@)->Some_0,
                        first_seen: str_field(m, "first_seen"@)->Some_0,
                        last_seen: str_field(m, "last_seen"@)->Some_0,
                        solution_count: count_field(m, "solution_count"@)->Some_0,
                    },
                )
            } else {
                None
            }
        },
        _ => None,
    }
}

/// The pattern list a JSON document denotes: an array, every element of
/// which is a well-shaped pattern. `None` where the shape is wrong.
pub open spec fn patterns_of_json(j: Json) -> Option<Seq<PatternV>> {
    match j {
        Json::Arr(els) => {
            if forall|i: int| 0 <= i < els.len() ==> pattern_of_json(els[i]) is Some {
                Some(els.map_values(|e: Json| pattern_of_json(e)->Some_0))
            } else {
                None
            }
        },
        _ => None,
    }
}

/// The summary a JSON document denotes: an object with the two integer
/// totals, a per-language value of arbitrary shape, and a list of
/// top-error records of arbitrary shape. `None` where the shape is wrong.
pub open spec fn summary_of_json(j: Json) -> Option<SummaryV> {
    match j {
        Json::Obj(m) => {
            if {
                &&& count_field(m, "total_patterns"@) is Some
                &&& count_field(m, "total_solutions"@) is Some
                &&& m.dom().contains("languages"@)
                &&& m.dom().contains("top_errors"@)
                &&& m["top_errors"@] is Arr
            } {
                Some(
                    SummaryV {
                        total_patterns: count_field(m, "total_patterns"@)->Some_0,
                        total_solutions: count_field(m, "total_solutions"@)->Some_0,
                        languages: m["languages"@],
                        top_errors: m["top_errors"@]->Arr_0,
                    },
                )
            } else {
                None
            }
        },
        _ => None,
    }
}

/// Reads one required string field, following `str_field`.
fn read_str_field(v: &serde_json::Value, key: &str) -> (r: Option<String>)
    requires
        value_model(*v) is Obj,
    ensures
        r is Some <==> str_field(value_model(*v)->Obj_0, key@) is Some,
        r matches Some(s) ==> Some(s@) == str_field(value_model(*v)->Obj_0, key@),
{
    match val_get(v, key) {
        None => None,
        Some(f) => match val_as_str(f) {
            Some(s) => Some(s.to_owned()),
            None => None,
        },
    }
}

/// Reads the optional description field, following `desc_field`.
fn read_desc_field(v: &serde_json::Value, key: &str) -> (r: Option<Option<String>>)
    requires
        value_model(*v) is Obj,
    ensures
        r is Some <==> desc_field(value_model(*v)->Obj_0, key@) is Some,
        r matches Some(d) ==> Some(crate::config::opt_view(d)) == desc_field(
            value_model(*v)->Obj_0,
            key@,
        ),
{
    match val_get(v, key) {
        None => Some(None),
        Some(f) => {
            if val_is_null(f) {
                Some(None)
            } else {
                match val_as_str(f) {
                    Some(s) => Some(Some(s.to_owned())),
                    None => None,
                }
            }
        },
    }
}

/// Reads one required counter field, following `count_field`.
fn read_count_field(v: &serde_json::Value, key: &str) -> (r: Option<i32>)
    requires
        value_model(*v) is Obj,
    ensures
        r is Some <==> count_field(value_model(*v)->Obj_0, key@) is Some,
        r matches Some(n) ==> Some(n as int) == count_field(value_model(*v)->Obj_0, key@),
{
    match val_get(v, key) {
        None => None,
        Some(f) => match val_as_i64(f) {
            Some(n) => {
                if i32::MIN as i64 <= n && n <= i32::MAX as i64 {
                    Some(n as i32)
                } else {
                    None
                }
            },
            None => None,
        },
    }
}

/// Reads one pattern record out of a parsed JSON document, following
/// `pattern_of_json`.
pub fn pattern_from_value(v: &serde_json::Value) -> (r: Option<ErrorPattern>)
    ensures
        r is Some <==> pattern_of_json(value_model(*v)) is Some,
        r matches Some(p) ==> Some(p@) == pattern_of_json(value_model(*v)),
{
    if !val_is_object(v) {
        return None;
    }
    let id = match read_str_field(v, "id") {
        Some(s) => s,
        None => {
            return None;
        },
    };
    let error_signature = match read_str_field(v, "error_signature") {
        Some(s) => s,
        None => {
            return None;
        },
    };
    let error_category = match read_str_field(v, "error_category") {
        Some(s) => s,
        None => {
            return None;
        },
    };
    let language = match read_str_field(v, "language") {
        Some(s) => s,
        None => {
            return None;
        },
    };
    let severity = match read_str_field(v, "severity") {
        Some(s) => s,
        None => {
            return None;
        },
    };
    let description = match read_desc_field(v, "description") {
        Some(d) => d,
        None => {
            return None;
        },
    };
    let occurrence_count = match read_count_field(v, "occurrence_count") {
        Some(n) => n,
        None => {
            return None;
        },
    };
    let first_seen = match read_str_field(v, "first_seen") {
        Some(s) => s,
        None => {
            return None;
        },
    };
    let last_seen = match read_str_field(v, "last_seen") {
        Some(s) => s,
        None => {
            return None;
        },
    };
    let solution_count = match read_count_field(v, "solution_count") {
        Some(n) => n,
        None => {
            return None;
        },
    };
    Some(
        ErrorPattern {
            id,
            error_signature,
            error_category,
            language,
            severity,
            description,
            occurrence_count,
            first_seen,
            last_seen,
            solution_count,
        },
    )
}

/// Decodes the external engine's search output: the trimmed standard
/// output must be one JSON list of well-shaped pattern records. A text
/// that is not — malformed JSON included — yields a `DecodeError`, never
/// a silent empty result.
pub fn decode_patterns(s: &str) -> (r: Result<Vec<ErrorPattern>, BridgeError>)
    ensures
        r is Ok <==> (json_of(s@) matches Some(j) && patterns_of_json(j) is Some),
        r matches Ok(ps) ==> Some(ps@.map_values(|p: ErrorPattern| p@)) == patterns_of_json(
            json_of(s@)->Some_0,
        ),
        r matches Err(e) ==> e is DecodeError,
{
    let v = match parse_json(s) {
        Ok(v) => v,
        Err(e) => {
            let mut m = String::from_str("search output is not valid JSON: ");
            m.append(parse_error_text(&e).as_str());
            return Err(BridgeError::DecodeError(m));
        },
    };
    let els = match val_as_array(&v) {
        Some(els) => els,
        None => {
            return Err(
                BridgeError::DecodeError(String::from_str("search output is not a JSON list")),
            );
        },
    };
    let ghost models = els@.map_values(|x: serde_json::Value| value_model(x));
    let mut out: Vec<ErrorPattern> = Vec::new();
    let mut i: usize = 0;
    while i < els.len()
        invariant
            0 <= i <= els.len(),
            models == els@.map_values(|x: serde_json::Value| value_model(x)),
            models.len() == els@.len(),
            value_model(v) == Json::Arr(models),
            json_of(s@) == Some(value_model(v)),
            forall|k: int| 0 <= k < i ==> pattern_of_json(models[k]) is Some,
            out@.len() == i,
            forall|k: int|
                0 <= k < i ==> Some(#[trigger] out@[k]@) == pattern_of_json(models[k]),
        decreases els.len() - i,
    {
        match pattern_from_value(&els[i]) {
            Some(p) => {
                out.push(p);
            },
            None => {
                proof {
                    assert(models[i as int] == value_model(els@[i as int]));
                    assert(pattern_of_json(models[i as int]) is None);
                    assert(patterns_of_json(value_model(v)) is None);
                }
                return Err(
                    BridgeError::DecodeError(
                        String::from_str("search output holds a record of the wrong shape"),
                    ),
                );
            },
        }
        i += 1;
    }
    proof {
        assert(patterns_of_json(value_model(v)) is Some);
        assert(out@.map_values(|p: ErrorPattern| p@) =~= models.map_values(
            |e: Json| pattern_of_json(e)->Some_0,
        ));
    }
    Ok(out)
}

/// Decodes the external engine's summary output: the trimmed standard
/// output must be one JSON object of the expected shape. A text that is
/// not — malformed JSON included — yields a `DecodeError`.
pub fn decode_summary(s: &str) -> (r: Result<PatternSummary, BridgeError>)
    ensures
        r is Ok <==> (json_of(s@) matches Some(j) && summary_of_json(j) is Some),
        r matches Ok(sm) ==> Some(sm@) == summary_of_json(json_of(s@)->Some_0),
        r matches Err(e) ==> e is DecodeError,
{
    let v = match parse_json(s) {
        Ok(v) => v,
        Err(e) => {
            let mut m = String::from_str("summary output is not valid JSON: ");
            m.append(parse_error_text(&e).as_str());
            return Err(BridgeError::DecodeError(m));
        },
    };
    if !val_is_object(&v) {
        return Err(
            BridgeError::DecodeError(String::from_str("summary output is not a JSON object")),
        );
    }
    let total_patterns = match read_count_field(&v, "total_patterns") {
        Some(n) => n,
        None => {
            return Err(
                BridgeError::DecodeError(String::from_str("summary output lacks a total")),
            );
        },
    };
    let total_solutions = match read_count_field(&v, "total_solutions") {
        Some(n) => n,
        None => {
            return Err(
                BridgeError::DecodeError(String::from_str("summary output lacks a total")),
            );
        },
    };
    let languages = match val_get(&v, "languages") {
        Some(f) => val_clone(f),
        None => {
            return Err(
                BridgeError::DecodeError(
                    String::from_str("summary output lacks the language breakdown"),
                ),
            );
        },
    };
    let top_list = match val_get(&v, "top_errors") {
        Some(f) => f,
        None => {
            return Err(
                BridgeError::DecodeError(String::from_str("summary output lacks the top errors")),
            );
        },
    };
    let top_els = match val_as_array(top_list) {
        Some(els) => els,
        None => {
            return Err(
                BridgeError::DecodeError(
                    String::from_str("summary top errors are not a JSON list"),
                ),
            );
        },
    };
    let ghost top_models = top_els@.map_values(|x: serde_json::Value| value_model(x));
    let mut top_errors: Vec<serde_json::Value> = Vec::new();
    let mut i: usize = 0;
    while i < top_els.len()
        invariant
            0 <= i <= top_els.len(),
            top_models == top_els@.map_values(|x: serde_json::Value| value_model(x)),
            top_models.len() == top_els@.len(),
            top_errors@.len() == i,
            forall|k: int|
                0 <= k < i ==> value_model(#[trigger] top_errors@[k]) == top_models[k],
        decreases top_els.len() - i,
    {
        top_errors.push(val_clone(&top_els[i]));
        i += 1;
    }
    let out = PatternSummary { total_patterns, total_solutions, languages, top_errors };
    proof {
        assert(out@.top_errors =~= top_models);
        assert(Some(out@) == summary_of_json(json_of(s@)->Some_0));
    }
    Ok(out)
}

} // verus!

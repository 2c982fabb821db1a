use vstd::prelude::*;
use crate::bridge::LocalKGBridge;
use crate::escape::escape_py;
use crate::escape::escape_seq;
use crate::text::dec_str;
use crate::text::usize_to_string;
use vstd::string::StringExecFns;

verus! {

/// The script sent for a capture operation: one call of the engine's
/// capture entry, every embedded string escaped, writing the pattern
/// identifier as the single output line.
pub open spec fn capture_script_spec(
    db: Seq<char>,
    signature: Seq<char>,
    category: Seq<char>,
    language: Seq<char>,
    severity: Seq<char>,
) -> Seq<char> {
    "\nimport sys\nsys.path.insert(0, '.')\nfrom local_kg.local_kg import get_local_kg\n\nkg = get_local_kg('"@
        + escape_seq(db) + "')\npattern_id = kg.capture_error(\n    error_signature='"@
        + escape_seq(signature) + "',\n    error_category='"@ + escape_seq(category)
        + "',\n    language='"@ + escape_seq(language) + "',\n    severity='"@ + escape_seq(
        severity,
    ) + "'\n)\nprint(pattern_id)\n"@
}

/// The script sent for a search operation: the query escaped, the limit
/// inserted as a decimal number, writing one JSON list as output.
pub open spec fn search_script_spec(db: Seq<char>, query: Seq<char>, limit: nat) -> Seq<char> {
    "\nimport sys\nimport json\nsys.path.insert(0, '.')\nfrom local_kg.local_kg import get_local_kg\n\nkg = get_local_kg('"@
        + escape_seq(db) + "')\npatterns = kg.search_patterns('"@ + escape_seq(query) + "', "@
        + dec_str(limit) + ")\nprint(json.dumps(patterns, default=str))\n"@
}

/// The script sent for an add-solution operation, writing the solution
/// identifier as the single output line.
pub open spec fn add_solution_script_spec(
    db: Seq<char>,
    pattern_id: Seq<char>,
    solution_text: Seq<char>,
    effectiveness: Seq<char>,
) -> Seq<char> {
    "\nimport sys\nsys.path.insert(0, '.')\nfrom local_kg.local_kg import get_local_kg\n\nkg = get_local_kg('"@
        + escape_seq(db) + "')\nsolution_id = kg.add_solution(\n    pattern_id='"@ + escape_seq(
        pattern_id,
    ) + "',\n    solution_text='"@ + escape_seq(solution_text) + "',\n    effectiveness='"@
        + escape_seq(effectiveness) + "'\n)\nprint(solution_id)\n"@
}

/// The script sent for a summary operation, writing one JSON object as
/// output.
pub open spec fn summary_script_spec(db: Seq<char>) -> Seq<char> {
    "\nimport sys\nimport json\nsys.path.insert(0, '.')\nfrom local_kg.local_kg import get_local_kg\n\nkg = get_local_kg('"@
        + escape_seq(db)
        + "')\nsummary = kg.get_pattern_summary()\nprint(json.dumps(summary, default=str))\n"@
}

impl LocalKGBridge {
    /// Builds the capture script for this bridge's storage path.
    pub fn capture_error_script(
        &self,
        signature: &str,
        category: &str,
        language: &str,
        severity: &str,
    ) -> (r: String)
        ensures
            r@ == capture_script_spec(self.db_path@, signature@, category@, language@, severity@),
    {
        let mut out = String::from_str(
            "\nimport sys\nsys.path.insert(0, '.')\nfrom local_kg.local_kg import get_local_kg\n\nkg = get_local_kg('",
        );
        out.append(escape_py(self.db_path.as_str()).as_str());
        out.append("')\npattern_id = kg.capture_error(\n    error_signature='");
        out.append(escape_py(signature).as_str());
        out.append("',\n    error_category='");
        out.append(escape_py(category).as_str());
        out.append("',\n    language='");
        out.append(escape_py(language).as_str());
        out.append("',\n    severity='");
        out.append(escape_py(severity).as_str());
        out.append("'\n)\nprint(pattern_id)\n");
        proof {
            assert(out@ =~= capture_script_spec(
                self.db_path@,
                signature@,
                category@,
                language@,
                severity@,
            ));
        }
        out
    }

    /// Builds the search script for this bridge's storage path.
    pub fn search_patterns_script(&self, query: &str, limit: usize) -> (r: String)
        ensures
            r@ == search_script_spec(self.db_path@, query@, limit as nat),
    {
        let mut out = String::from_str(
            "\nimport sys\nimport json\nsys.path.insert(0, '.')\nfrom local_kg.local_kg import get_local_kg\n\nkg = get_local_kg('",
        );
        out.append(escape_py(self.db_path.as_str()).as_str());
        out.append("')\npatterns = kg.search_patterns('");
        out.append(escape_py(query).as_str());
        out.append("', ");
        out.append(usize_to_string(limit).as_str());
        out.append(")\nprint(json.dumps(patterns, default=str))\n");
        proof {
            assert(out@ =~= search_script_spec(self.db_path@, query@, limit as nat));
        }
        out
    }

    /// Builds the add-solution script for this bridge's storage path.
    pub fn add_solution_script(
        &self,
        pattern_id: &str,
        solution_text: &str,
        effectiveness: &str,
    ) -> (r: String)
        ensures
            r@ == add_solution_script_spec(
                self.db_path@,
                pattern_id@,
                solution_text@,
                effectiveness@,
            ),
    {
        let mut out = String::from_str(
            "\nimport sys\nsys.path.insert(0, '.')\nfrom local_kg.local_kg import get_local_kg\n\nkg = get_local_kg('",
        );
        out.append(escape_py(self.db_path.as_str()).as_str());
        out.append("')\nsolution_id = kg.add_solution(\n    pattern_id='");
        out.append(escape_py(pattern_id).as_str());
        out.append("',\n    solution_text='");
        out.append(escape_py(solution_text).as_str());
        out.append("',\n    effectiveness='");
        out.append(escape_py(effectiveness).as_str());
        out.append("'\n)\nprint(solution_id)\n");
        proof {
            assert(out@ =~= add_solution_script_spec(
                self.db_path@,
                pattern_id@,
                solution_text@,
                effectiveness@,
            ));
        }
        out
    }

    /// Builds the summary script for this bridge's storage path.
    pub fn get_summary_script(&self) -> (r: String)
        ensures
            r@ == summary_script_spec(self.db_path@),
    {
        let mut out = String::from_str(
            "\nimport sys\nimport json\nsys.path.insert(0, '.')\nfrom local_kg.local_kg import get_local_kg\n\nkg = get_local_kg('",
        );
        out.append(escape_py(self.db_path.as_str()).as_str());
        out.append("')\nsummary = kg.get_pattern_summary()\nprint(json.dumps(summary, default=str))\n");
        proof {
            assert(out@ =~= summary_script_spec(self.db_path@));
        }
        out
    }
}

} // verus!

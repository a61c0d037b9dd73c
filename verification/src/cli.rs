//! Command-line options as plain data, and their validation.

use crate::text::str_eq;
use vstd::prelude::*;

verus! {

/// The options of one run.
#[derive(Debug)]
pub struct Cli {
    pub config_file_path: String,
    pub check_format_only: bool,
    pub check_due_only: bool,
    pub due_after: u32,
    pub max_comment_length: usize,
    pub format: String,
    pub no_tty: bool,
    pub exit_zero: bool,
}

/// Whether `format` names one of the two output formats.
pub open spec fn is_supported_format(format: Seq<char>) -> bool {
    format == "table"@ || format == "json"@
}

impl Cli {
    /// The exit code of a run that found `warnings` warnings: 1 where there
    /// is a warning, unless the options ask for 0 in any case.
    pub fn exit_code(&self, warnings: usize) -> (code: i32)
        ensures
            code == (if !self.exit_zero && warnings > 0 {
                1i32
            } else {
                0i32
            }),
    {
        if !self.exit_zero && warnings > 0 {
            1
        } else {
            0
        }
    }

    /// Accepts exactly the formats `table` and `json`.
    pub fn validate(&self) -> (r: Result<(), String>)
        ensures
            r is Ok <==> is_supported_format(self.format@),
            r matches Err(msg) ==> msg@
                == "Invalid format. Supported formats are 'table' and 'json'."@,
    {
        if !str_eq(self.format.as_str(), "table") && !str_eq(self.format.as_str(), "json") {
            Err("Invalid format. Supported formats are 'table' and 'json'.".to_string())
        } else {
            Ok(())
        }
    }
}

} // verus!

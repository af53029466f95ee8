//! What is sent to the planning service for a security audit: the report
//! of the dependency scan and the source to audit.

use vstd::prelude::*;
use vstd::string::*;
use crate::text::{trim_text, trimmed};

verus! {

/// What stands for a scan that ran and wrote nothing.
pub const SCAN_EMPTY: &'static str =
    r#"{ "status": "scan_failed", "note": "Audit ran but returned empty output" }"#;

/// What stands for a scan that could not be run to its end.
pub const SCAN_FAILED: &'static str =
    r#"{ "status": "scan_failed_or_issues_found", "note": "Check manual cargo audit output" }"#;

/// What stands for a scan that was not run for want of the tool.
pub const SCAN_SKIPPED: &'static str = r#"{ "status": "skipped", "reason": "tool_not_installed" }"#;

/// What stands for a source that could not be read.
pub const MISSING_SOURCE: &'static str = "// [ERROR: Source file not found]";

/// How the scan of the dependencies went.
#[derive(Debug, Clone, PartialEq, Eq)]
pub enum DependencyScan {
    /// The tool for the scan is not installed.
    NoTool,
    /// The scan could not be run.
    Failed,
    /// The scan ran and wrote this.
    Output(String),
}

/// The mathematical value of a [`DependencyScan`].
pub enum DependencyScanView {
    NoTool,
    Failed,
    Output(Seq<char>),
}

impl View for DependencyScan {
    type V = DependencyScanView;

    open spec fn view(&self) -> DependencyScanView {
        match self {
            DependencyScan::NoTool => DependencyScanView::NoTool,
            DependencyScan::Failed => DependencyScanView::Failed,
            DependencyScan::Output(output) => DependencyScanView::Output(output@),
        }
    }
}

/// The report of a scan: what it wrote, or what stands for a scan that
/// wrote nothing but white space, failed or was skipped.
pub open spec fn dependency_report_of(scan: DependencyScanView) -> Seq<char> {
    match scan {
        DependencyScanView::NoTool => SCAN_SKIPPED@,
        DependencyScanView::Failed => SCAN_FAILED@,
        DependencyScanView::Output(output) => if trimmed(output).len() == 0 {
            SCAN_EMPTY@
        } else {
            output
        },
    }
}

/// What is sent for the audit of the source at `path`.
pub open spec fn audit_input_of(
    report: Seq<char>,
    path: Seq<char>,
    source: Option<Seq<char>>,
) -> Seq<char> {
    "--- CARGO AUDIT JSON REPORT ---\n"@ + report + "\n\n--- SOURCE CODE ("@ + path + ") ---\n"@ + (
    match source {
        Some(code) => code,
        None => MISSING_SOURCE@,
    })
}

/// The report of the scan of the dependencies.
pub fn dependency_report(scan: DependencyScan) -> (report: String)
    ensures
        report@ == dependency_report_of(scan@),
{
    match scan {
        DependencyScan::NoTool => String::from_str(SCAN_SKIPPED),
        DependencyScan::Failed => String::from_str(SCAN_FAILED),
        DependencyScan::Output(output) => {
            if trim_text(output.as_str()).as_str().is_empty() {
                String::from_str(SCAN_EMPTY)
            } else {
                output
            }
        },
    }
}

/// What is sent for the audit of the source at `path`. `source` is the
/// text of the source, if it could be read.
pub fn audit_input(report: &str, path: &str, source: Option<&str>) -> (input: String)
    ensures
        input@ == audit_input_of(report@, path@, source.deep_view()),
{
    let mut input = String::from_str("--- CARGO AUDIT JSON REPORT ---\n");
    input.append(report);
    input.append("\n\n--- SOURCE CODE (");
    input.append(path);
    input.append(") ---\n");
    match source {
        Some(code) => input.append(code),
        None => input.append(MISSING_SOURCE),
    }
    input
}

} // verus!

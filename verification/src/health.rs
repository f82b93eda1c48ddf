//! Disk-health report scanning.
//!
//! The health of a disk is asked of an external utility; its text
//! output is scanned here for the one line that carries the overall
//! self-assessment verdict. Running the utility is the caller's work
//! (with a bounded timeout); picking the line out of whatever came
//! back is verified.

use vstd::prelude::*;
use crate::text::{seq_contains, trim_of, contains_chars, str_chars, str_trim};

verus! {

/// The marker of the verdict line in the utility's report.
pub open spec fn health_marker() -> Seq<char> {
    "SMART overall-health self-assessment test result"@
}

/// Scans the report lines for the first one carrying the verdict
/// marker and returns it trimmed; `None` when no line carries it.
pub fn disk_health_from_lines(lines: &Vec<String>) -> (r: Option<String>)
    ensures
        r matches Some(s) ==> exists|i: int|
            #![trigger lines@[i]]
            {
                &&& 0 <= i < lines@.len()
                &&& seq_contains(lines@[i]@, health_marker())
                &&& forall|j: int| 0 <= j < i ==> !seq_contains(#[trigger] lines@[j]@, health_marker())
                &&& s@ == trim_of(lines@[i]@)
            },
        r is None ==> forall|i: int|
            0 <= i < lines@.len() ==> !seq_contains(#[trigger] lines@[i]@, health_marker()),
{
    let marker = str_chars("SMART overall-health self-assessment test result");
    let mut i: usize = 0;
    let n = lines.len();
    while i < n
        invariant
            n == lines@.len(),
            i <= n,
            marker@ == health_marker(),
            forall|j: int| 0 <= j < i ==> !seq_contains(#[trigger] lines@[j]@, health_marker()),
        decreases n - i,
    {
        let line_chars = str_chars(lines[i].as_str());
        if contains_chars(&line_chars, &marker) {
            return Some(str_trim(lines[i].as_str()));
        }
        i = i + 1;
    }
    None
}

} // verus!

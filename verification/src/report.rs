//! Formatting of failure reports.
//!
//! When a presentation or resize call fails, the demo logs the failing
//! method's name with the error's message and then each underlying cause on a
//! line of its own. Composing those lines from the method name and the
//! messages is pure string work and is verified here; the shell only passes
//! the finished lines to the logging subsystem.

use vstd::prelude::*;
use vstd::string::StringExecFns;
use crate::driver::FailureSite;

verus! {

/// The first report line: `name() failed: message`.
pub open spec fn headline(name: Seq<char>, message: Seq<char>) -> Seq<char> {
    name + "() failed: "@ + message
}

/// A cause line: `  Caused by: message`.
pub open spec fn cause_line(message: Seq<char>) -> Seq<char> {
    "  Caused by: "@ + message
}

/// Compose the report for one failed call: the headline with the error's own
/// message, then one indented line for each underlying cause, in order.
pub fn log_error(method_name: &str, message: &str, causes: &Vec<String>) -> (lines: Vec<String>)
    ensures
        lines@.len() == 1 + causes@.len(),
        lines@[0]@ == headline(method_name@, message@),
        forall|i: int| 0 <= i < causes@.len() ==> lines@[i + 1]@ == cause_line(causes@[i]@),
{
    let mut lines: Vec<String> = Vec::new();
    let mut head = String::from_str(method_name);
    head.append("() failed: ");
    head.append(message);
    lines.push(head);
    let mut i: usize = 0;
    while i < causes.len()
        invariant
            i <= causes@.len(),
            lines@.len() == 1 + i,
            lines@[0]@ == headline(method_name@, message@),
            forall|k: int| 0 <= k < i ==> lines@[k + 1]@ == cause_line(causes@[k]@),
        decreases causes@.len() - i,
    {
        let mut line = String::from_str("  Caused by: ");
        line.append(causes[i].as_str());
        lines.push(line);
        i = i + 1;
    }
    lines
}

/// The method name the demo reports for each failure site, exactly as the
/// shell calls it.
pub fn failure_method_name(site: FailureSite) -> (name: &'static str)
    ensures
        site is Render ==> name@ == "pixels.render"@,
        site is ResizeSurface ==> name@ == "pixels.resize_surface"@,
        site is ResizeBuffer ==> name@ == "pixels.resize_buffer"@,
{
    match site {
        FailureSite::Render => "pixels.render",
        FailureSite::ResizeSurface => "pixels.resize_surface",
        FailureSite::ResizeBuffer => "pixels.resize_buffer",
    }
}

} // verus!

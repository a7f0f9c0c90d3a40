//! Plain-text terminal output, behind trusted wrappers.

use std::io::Write;
use vstd::prelude::*;

verus! {

/// Relies on std::io::Stdout's Write impl: prints the text and a newline;
/// output failures are ignored.
#[verifier::external_body]
pub fn print_line(s: &str) {
    let _ = writeln!(std::io::stdout(), "{}", s);
}

} // verus!

//! What happens to a line that could not be read: it is dropped, and a
//! warning names it.

use crate::text::{decimal, push_decimal};
use vstd::prelude::*;
use vstd::string::StringExecFns;

verus! {

/// `std::io::Error`, why a line could not be read. Nothing inside it is
/// visible here.
#[verifier::external_type_specification]
#[verifier::external_body]
pub struct ExIoError(std::io::Error);

/// The text of a warning about line `idx`.
pub open spec fn warning(idx: nat, msg: Seq<char>) -> Seq<char> {
    "line "@ + decimal(idx) + ": "@ + msg
}

/// The warning about line `idx` with the message `msg`, as it is shown.
pub fn warning_text(idx: usize, msg: &str) -> (s: String)
    ensures
        s@ == warning(idx as nat, msg@),
{
    let mut s = String::from_str("line ");
    push_decimal(&mut s, idx);
    s.append(": ");
    s.append(msg);
    s
}

/// Keeps a line that was read, with its index, and drops one that was not.
/// The caller warns about the dropped line.
pub fn ok_or_warning(line: (usize, Result<String, std::io::Error>)) -> (kept: Option<(usize, String)>)
    ensures
        match line.1 {
            Ok(text) => kept == Some((line.0, text)),
            Err(_) => kept is None,
        },
{
    match line {
        (idx, Ok(text)) => Some((idx, text)),
        (_, Err(_)) => None,
    }
}

} // verus!

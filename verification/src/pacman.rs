//! Reading a package version out of the package manager's query output.

use vstd::prelude::*;

use crate::sysinfo::text::{spec_tokens, tokens, views_of};

verus! {

/// The version field of a package query's output: its second
/// whitespace-separated token, as in `name version`.
pub fn package_version_from_output(output: &str) -> (r: Option<String>)
    ensures
        match r {
            Some(version) => spec_tokens(output@).len() >= 2 && version@ == spec_tokens(
                output@,
            )[1],
            None => spec_tokens(output@).len() < 2,
        },
{
    let fields = tokens(output);
    if fields.len() >= 2 {
        let version = fields[1];
        proof {
            assert(views_of(fields@)[1] == fields@[1]@);
        }
        Some(version.to_owned())
    } else {
        None
    }
}

} // verus!

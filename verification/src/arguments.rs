//! Picking the torrent reference out of the program's arguments.

use vstd::prelude::*;
use crate::failure::{Failure, FailureKind, FailureView};

verus! {

/// The failure of a run that was not started with exactly one argument.
pub open spec fn usage_failure() -> FailureView {
    FailureView { kind: FailureKind::Usage, message: "Invalid number of arguments."@ }
}

/// The reference given on the command line. `args` is the whole argument
/// list, the program's own name first: exactly one argument must follow it.
pub open spec fn selected_uri(args: Seq<Seq<char>>) -> Result<Seq<char>, FailureView> {
    if args.len() == 2 {
        Ok(args[1])
    } else {
        Err(usage_failure())
    }
}

/// Returns the one argument that follows the program's name in `args`, or a
/// usage failure when the number of arguments is any other.
pub fn get_uri(args: &Vec<String>) -> (uri: Result<String, Failure>)
    ensures
        match uri {
            Ok(text) => selected_uri(args.deep_view()) == Ok::<Seq<char>, FailureView>(text@),
            Err(failure) => selected_uri(args.deep_view()) == Err::<Seq<char>, FailureView>(
                failure@,
            ),
        },
{
    if args.len() == 2 {
        Ok(args[1].clone())
    } else {
        Err(
            Failure {
                kind: FailureKind::Usage,
                message: "Invalid number of arguments.".to_owned(),
            },
        )
    }
}

} // verus!

//! The operation pipeline: the single chokepoint where an operation's
//! outcome becomes the one envelope sent to the caller. Client-class
//! failures surface their short category and detail; internal-class
//! failures surface a fixed generic marker and nothing of their detail,
//! which is left to the caller to log.

use vstd::prelude::*;

use crate::envelope::{error_view, success_view, Res, ResView};
use crate::error::{Error, ErrorClass};

verus! {

/// The envelope rendered for a failure. For an internal fault every slot
/// is a constant, so nothing of the fault's detail can reach the caller;
/// for a client fault the message is the kind's short category and the
/// body is the detail string.
pub open spec fn render_error_spec(e: Error) -> ResView {
    if e.class_spec() == ErrorClass::Internal {
        error_view("internal error"@, Some("internal error"@))
    } else {
        error_view(e.kind_name_spec(), Some(e.detail_spec()))
    }
}

/// The envelope rendered for an outcome: the success shape around the
/// operation's body, or the failure shape of `render_error_spec`.
pub open spec fn render_outcome_spec(r: Result<Option<Seq<char>>, Error>) -> ResView {
    match r {
        Ok(data) => success_view(data),
        Err(e) => render_error_spec(e),
    }
}

/// Renders a failure into its envelope.
pub fn render_error(e: Error) -> (env: Res)
    ensures
        env@ == render_error_spec(e),
{
    match e.class() {
        ErrorClass::Internal => Res::error("internal error".to_owned()).data(
            "internal error".to_owned(),
        ),
        ErrorClass::Client => {
            let kind = e.kind_name();
            let detail = e.detail().to_owned();
            Res::error(kind).data(detail)
        },
    }
}

/// The pipeline's one entry point: turns the outcome of a fallible
/// operation into the single envelope of this invocation. Every envelope
/// has its status set, and every failure's envelope has its message set.
pub fn render_outcome(r: Result<Option<String>, Error>) -> (env: Res)
    ensures
        match r {
            Ok(data) => env@ == success_view(data.deep_view()),
            Err(e) => env@ == render_error_spec(e),
        },
        env@.status is Some,
        r is Err ==> env@.message is Some,
{
    match r {
        Ok(None) => Res::success(),
        Ok(Some(data)) => Res::success_data(data),
        Err(e) => render_error(e),
    }
}

/// An internal fault renders to one fixed envelope, whatever the fault
/// and whatever detail it carries: the caller learns nothing beyond the
/// generic marker, while the detail stays available for logging.
pub proof fn lemma_internal_detail_hidden(e: Error)
    requires
        e.class_spec() == ErrorClass::Internal,
    ensures
        render_error_spec(e) == error_view("internal error"@, Some("internal error"@)),
{
}

/// Every invocation produces a well-shaped envelope: status is always
/// set, and on failure the message is set too.
pub proof fn lemma_envelope_shape(r: Result<Option<Seq<char>>, Error>)
    ensures
        render_outcome_spec(r).status is Some,
        r is Err ==> render_outcome_spec(r).message is Some,
{
}

} // verus!

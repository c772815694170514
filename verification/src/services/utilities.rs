//! How failures of the store and of the services become what the caller sees.

use vstd::prelude::*;
use crate::errors::{Cause, CauseView, ServiceError, ServiceErrorView};
use crate::services::protocol::failure;
use crate::store::{StoreReply, StoreReplyView};

verus! {

/// An answer of the store as a result: a failure of the store becomes an
/// error whose message is the store's own words, any other answer is handed on.
pub open spec fn translated(reply: StoreReplyView) -> Result<StoreReplyView, ServiceErrorView> {
    match reply {
        StoreReplyView::Failed { details } => Err(
            failure(details, CauseView::Persistence { details }),
        ),
        _ => Ok(reply),
    }
}

/// An answer of the store as a result. See `translated`.
pub fn graphql_translate(res: StoreReply) -> (translation: Result<StoreReply, ServiceError>)
    ensures
        match translation {
            Ok(reply) => translated(res@) == Ok::<StoreReplyView, ServiceErrorView>(reply@),
            Err(err) => translated(res@) == Err::<StoreReplyView, ServiceErrorView>(err@),
        },
{
    match res {
        StoreReply::Failed { details } => Err(
            ServiceError { message: details.clone(), cause: Cause::Persistence { details } },
        ),
        other => Ok(other),
    }
}

/// The error of the operation whose fixed message is `source`, for the given
/// cause. The caller gets the message and, under the key for details, the
/// cause in words.
pub fn graphql_error_translate(source: String, cause: Cause) -> (err: ServiceError)
    ensures
        err@ == failure(source@, cause@),
{
    ServiceError { message: source, cause }
}

} // verus!

//! The query for the details of one payment: decode the identifier, look the
//! payment up, present what was found.

use vstd::prelude::*;
use crate::payment_id::{decode_payment_id, PaymentId};

verus! {

/// What a caller asks: the details of the payment that `payment_id` names.
#[derive(Clone, Debug, PartialEq, Eq)]
pub struct GetPaymentDetailsRequest {
    /// The payment identifier as hexadecimal text.
    pub payment_id: String,
}

/// The answer to a well-formed request. `payment` is empty when the store
/// knows no payment under the identifier, which is no error.
#[derive(Clone, Debug, PartialEq, Eq)]
pub struct GetPaymentDetailsResponse<P> {
    /// The payment in its presentable form.
    pub payment: Option<P>,
}

/// Why a query gave no response.
#[derive(Clone, Debug, PartialEq, Eq)]
pub enum QueryError<E> {
    /// The request's text is not the hexadecimal form of an identifier.
    InvalidIdentifier,
    /// The store failed; its failure is handed on as it came.
    StoreFailure(E),
}

/// The two collaborators of a query. Answering a request uses each of them at
/// most once.
#[derive(Clone, Copy)]
pub struct Context<S, F> {
    /// Looks a payment up by its identifier: a record, none, or a failure of
    /// the store's own.
    pub store: S,
    /// Turns a record into the form that a response carries.
    pub presenter: F,
}

/// Whether `out` answers a lookup that ended in `found`: a failure of the
/// store is handed on, no record gives an empty response, and a record gives
/// the response that holds some result of `presenter` on it.
pub open spec fn answers_lookup<R, P, E, F: FnOnce(R) -> P>(
    presenter: F,
    found: Result<Option<R>, E>,
    out: Result<GetPaymentDetailsResponse<P>, QueryError<E>>,
) -> bool {
    match found {
        Err(failure) => out == Err::<GetPaymentDetailsResponse<P>, QueryError<E>>(
            QueryError::StoreFailure(failure),
        ),
        Ok(None) => out == Ok::<GetPaymentDetailsResponse<P>, QueryError<E>>(
            (GetPaymentDetailsResponse { payment: None }),
        ),
        Ok(Some(record)) => exists|presented: P|
            call_ensures(presenter, (record,), presented) && out == Ok::<
                GetPaymentDetailsResponse<P>,
                QueryError<E>,
            >((GetPaymentDetailsResponse { payment: Some(presented) })),
    }
}

/// Shapes the response from what the store returned.
pub fn respond_to_lookup<R, P, E, F: FnOnce(R) -> P>(
    presenter: F,
    found: Result<Option<R>, E>,
) -> (out: Result<GetPaymentDetailsResponse<P>, QueryError<E>>)
    requires
        found matches Ok(Some(record)) ==> call_requires(presenter, (record,)),
    ensures
        answers_lookup(presenter, found, out),
{
    match found {
        Err(failure) => Err(QueryError::StoreFailure(failure)),
        Ok(None) => Ok(GetPaymentDetailsResponse { payment: None }),
        Ok(Some(record)) => Ok(GetPaymentDetailsResponse { payment: Some(presenter(record)) }),
    }
}

/// Whether `out` answers `request` under `context`: text that names no
/// identifier is refused; otherwise `out` answers some outcome of the store's
/// lookup of the identifier that the text names.
pub open spec fn answers_request<R, P, E, S: FnOnce(PaymentId) -> Result<Option<R>, E>, F: FnOnce(R) -> P>(
    context: Context<S, F>,
    request: GetPaymentDetailsRequest,
    out: Result<GetPaymentDetailsResponse<P>, QueryError<E>>,
) -> bool {
    match decode_payment_id(request.payment_id@) {
        None => out == Err::<GetPaymentDetailsResponse<P>, QueryError<E>>(
            QueryError::InvalidIdentifier,
        ),
        Some(bytes) => exists|id: PaymentId, found: Result<Option<R>, E>|
            id@ == bytes && call_ensures(context.store, (id,), found) && answers_lookup(
                context.presenter,
                found,
                out,
            ),
    }
}

/// Answers a request for the details of one payment.
///
/// The store need only accept the identifier that the request names, and the
/// presenter only a record that the store returned for it: on text that names
/// no identifier neither is called.
pub fn handle_get_payment_details_request<
    R,
    P,
    E,
    S: FnOnce(PaymentId) -> Result<Option<R>, E>,
    F: FnOnce(R) -> P,
>(context: Context<S, F>, request: GetPaymentDetailsRequest) -> (out: Result<
    GetPaymentDetailsResponse<P>,
    QueryError<E>,
>)
    requires
        forall|id: PaymentId|
            decode_payment_id(request.payment_id@) == Some(id@) ==> call_requires(
                context.store,
                (id,),
            ),
        forall|id: PaymentId, record: R|
            decode_payment_id(request.payment_id@) == Some(id@) && call_ensures(
                context.store,
                (id,),
                Ok::<Option<R>, E>(Some(record)),
            ) ==> call_requires(context.presenter, (record,)),
    ensures
        answers_request(context, request, out),
        out == Err::<GetPaymentDetailsResponse<P>, QueryError<E>>(QueryError::InvalidIdentifier)
            <==> decode_payment_id(request.payment_id@) is None,
{
    match PaymentId::from_hex(request.payment_id.as_str()) {
        None => Err(QueryError::InvalidIdentifier),
        Some(id) => {
            let found = (context.store)(id);
            respond_to_lookup(context.presenter, found)
        },
    }
}

} // verus!

//! One typed call: a request goes out through a transport, and what comes back is decoded
//! into a response. Every method of the API is this call with its own path, verb, request
//! and response.

use crate::decode::{document, document_of, DecodeError};
use crate::get_slack_url_for_method;
use crate::json::{json_of, Json};
use crate::params::{
    assemble, borrowed, distinct_names, lemma_absent_field_sends_nothing,
    lemma_present_field_sends_one, named_once, owned, unnamed, Field,
};
use crate::slack_url;
use crate::transport::{pairs_of, SlackWebRequestSender};
use vstd::prelude::*;

verus! {

/// How a call fails.
#[derive(Debug)]
pub enum CallError<E> {
    /// The body that came back is not the response that was expected; it is kept as it came,
    /// with the reason.
    MalformedResponse(String, DecodeError),
    /// The client could not carry the request out.
    Client(E),
}

/// What a method takes.
pub trait Request {
    /// The fields of the request, in the order in which they are sent.
    spec fn fields(&self) -> Seq<Field>;

    /// No two fields of the request share a name.
    proof fn lemma_names_differ(&self)
        ensures
            distinct_names(self.fields()),
    ;

    /// The parameter list of the request: a pair for every field that has a value.
    fn params(&self) -> (params: Vec<(&'static str, String)>)
        ensures
            owned(params@) == assemble(self.fields()),
    ;
}

/// What a method answers.
pub trait Response: Sized {
    /// Whether `json` has the shape of this response.
    spec fn fits(json: Json) -> bool;

    /// Whether each field of the response is what `json` holds under the field's name.
    spec fn holds(&self, json: Json) -> bool;

    /// Decodes a parsed body into the response.
    fn decode(value: &serde_json::Value) -> (decoded: Result<Self, DecodeError>)
        ensures
            Self::fits(json_of(*value)) ==> decoded is Ok && decoded->Ok_0.holds(json_of(*value)),
            !Self::fits(json_of(*value)) ==> decoded == Err::<Self, DecodeError>(
                DecodeError::Shape,
            ),
    ;
}

/// Whether `result` is what a call makes of the reply `reply`: a transport error is passed
/// on; a body that is one JSON document of the shape of `T` gives a response with what the
/// document holds; any other body is handed back as it came, with the reason.
pub open spec fn outcome_of<T: Response, E>(
    reply: Result<String, E>,
    result: Result<T, CallError<E>>,
) -> bool {
    match reply {
        Err(e) => result == Err::<T, CallError<E>>(CallError::Client(e)),
        Ok(body) => match document_of(body@) {
            Err(e) => result == Err::<T, CallError<E>>(CallError::MalformedResponse(body, e)),
            Ok(value) => if T::fits(json_of(value)) {
                result is Ok && result->Ok_0.holds(json_of(value))
            } else {
                result == Err::<T, CallError<E>>(
                    CallError::MalformedResponse(body, DecodeError::Shape),
                )
            },
        },
    }
}

/// A field without a value is not sent: no pair of the parameter list has its name.
pub proof fn lemma_absent_field_not_sent<Q: Request>(request: &Q, at: int)
    requires
        0 <= at < request.fields().len(),
        request.fields()[at].value is None,
    ensures
        unnamed(assemble(request.fields()), request.fields()[at].name),
{
    request.lemma_names_differ();
    lemma_absent_field_sends_nothing(request.fields(), at);
}

/// A field with a value is sent once: exactly one pair of the parameter list has its name,
/// and that pair has its value.
pub proof fn lemma_present_field_sent_once<Q: Request>(request: &Q, at: int)
    requires
        0 <= at < request.fields().len(),
        request.fields()[at].value is Some,
    ensures
        named_once(
            assemble(request.fields()),
            request.fields()[at].name,
            request.fields()[at].value->Some_0,
        ),
{
    request.lemma_names_differ();
    lemma_present_field_sends_one(request.fields(), at);
}

/// A transport error is handed on as it is, whatever a body would have held.
pub proof fn lemma_transport_error_passed_on<T: Response, E>(
    error: E,
    result: Result<T, CallError<E>>,
)
    requires
        outcome_of(Err::<String, E>(error), result),
    ensures
        result == Err::<T, CallError<E>>(CallError::Client(error)),
{
}

/// A body that is no JSON document, or one of another shape, comes back unchanged inside
/// `MalformedResponse`.
pub proof fn lemma_malformed_body_kept<T: Response, E>(
    body: String,
    result: Result<T, CallError<E>>,
)
    requires
        outcome_of(Ok::<String, E>(body), result),
        document_of(body@) matches Ok(value) ==> !T::fits(json_of(value)),
    ensures
        result matches Err(CallError::MalformedResponse(raw, _)) && raw == body,
{
}

/// A body that is a JSON document of the shape of the response decodes, and every field of
/// the response is what the document holds under the field's name.
pub proof fn lemma_well_formed_body_decodes<T: Response, E>(
    body: String,
    result: Result<T, CallError<E>>,
)
    requires
        outcome_of(Ok::<String, E>(body), result),
        document_of(body@) matches Ok(value) && T::fits(json_of(value)),
    ensures
        result is Ok,
        result->Ok_0.holds(json_of(document_of(body@)->Ok_0)),
{
}

/// Turns what the transport handed back into the result of the call. Nothing is parsed
/// where the transport failed.
pub fn outcome<T: Response, E>(reply: Result<String, E>) -> (result: Result<T, CallError<E>>)
    ensures
        outcome_of(reply, result),
{
    match reply {
        Err(e) => Err(CallError::Client(e)),
        Ok(body) => {
            let decoded = match document(body.as_str()) {
                Ok(value) => T::decode(&value),
                Err(e) => Err(e),
            };
            match decoded {
                Ok(response) => Ok(response),
                Err(e) => Err(CallError::MalformedResponse(body, e)),
            }
        },
    }
}

/// Calls the method at `method` with one GET: the parameter list of `request` goes out as
/// the query, and what comes back is decoded.
pub fn send_get<R: SlackWebRequestSender, Q: Request, T: Response>(
    client: &R,
    method: &str,
    request: &Q,
) -> (result: Result<T, CallError<R::Error>>)
    ensures
        exists|reply: Result<String, R::Error>|
            client.get_yields(slack_url(method@), assemble(request.fields()), reply)
                && #[trigger] outcome_of(reply, result),
{
    let params = request.params();
    let url = get_slack_url_for_method(method);
    let list = borrowed(&params);
    let reply = client.get(url.as_str(), list.as_slice());
    let ghost sent = reply;
    let result = outcome(reply);
    assert(outcome_of(sent, result));
    result
}

/// Calls the method at `method` with one POST: the parameter list of `request` goes out as
/// the form, with no headers of its own, and what comes back is decoded.
pub fn send_post<R: SlackWebRequestSender, Q: Request, T: Response>(
    client: &R,
    method: &str,
    request: &Q,
) -> (result: Result<T, CallError<R::Error>>)
    ensures
        exists|reply: Result<String, R::Error>|
            client.post_yields(
                slack_url(method@),
                assemble(request.fields()),
                Seq::empty(),
                reply,
            ) && #[trigger] outcome_of(reply, result),
{
    let params = request.params();
    let url = get_slack_url_for_method(method);
    let list = borrowed(&params);
    let headers: Vec<(&str, &str)> = Vec::new();
    assert(pairs_of(headers@) =~= Seq::empty());
    let reply = client.post(url.as_str(), list.as_slice(), headers.as_slice());
    let ghost sent = reply;
    let result = outcome(reply);
    assert(outcome_of(sent, result));
    result
}

} // verus!

//! What the hosted runtimes do around an execution: how a request body
//! becomes a payload, and how a result becomes a reply.
use crate::codec::{decode_lossy, lossy_text, parse_json, parsed_json};
use crate::context::Context;
use crate::executor::{Executor, ExecutorView};
use crate::hooks::TaskResult;
use crate::payload::{Json, Payload};
use vstd::prelude::*;
use vstd::string::StringExecFns;

verus! {

/// The one route of the function host, served for POST requests.
pub const INVOKE_ROUTE: &'static str = "invoke";

/// The port on which the function host listens.
pub const FC_PORT: u16 = 9000;

/// The field of a request under which a caller may pass a payload as JSON
/// text.
pub const KEY_PAYLOAD: &'static str = "payload";

/// The reply to an invocation: an object with the fields `status` and `data`.
/// A success has the status `success` and the output as data; a failure has
/// the status `error` and the message as data.
pub open spec fn envelope_of(result: TaskResult) -> Json {
    let (status, data) = match result {
        Ok(output) => ("success"@, output@),
        Err(message) => ("error"@, message@),
    };
    Json::Object(
        Map::<Seq<char>, Json>::empty().insert("status"@, Json::Text(status)).insert(
            "data"@,
            Json::Text(data),
        ),
    )
}

/// A request with the fields of `inner` written over its own and without
/// the field that carried them; with no `inner`, the request as it is.
pub open spec fn flattened(request: Json, inner: Option<Json>) -> Json {
    match inner {
        Some(inner) => request.merged(inner).without_field(KEY_PAYLOAD@),
        None => request,
    }
}

/// The JSON text that a request carries in its payload field.
pub open spec fn carried_text(request: Json) -> Option<Seq<char>> {
    match request.field(KEY_PAYLOAD@) {
        Some(Json::Text(text)) => Some(text),
        _ => None,
    }
}

/// The payload of a request body given as text. A body that is no JSON
/// counts as the empty payload. Where the request carries JSON text in its
/// payload field and that text parses, the request is flattened.
pub open spec fn request_payload(body: Seq<char>) -> Json {
    let request = match parsed_json(body) {
        Some(request) => request,
        None => Json::Null,
    };
    match carried_text(request) {
        Some(text) => flattened(request, parsed_json(text)),
        None => request,
    }
}

/// Wraps a result as the reply to an invocation.
pub fn envelope(result: TaskResult) -> (reply: Payload)
    ensures
        reply@ == envelope_of(result),
{
    let (status, data) = match result {
        Ok(output) => (String::from_str("success"), output),
        Err(message) => (String::from_str("error"), message),
    };
    let mut reply = Payload::object();
    reply.insert(String::from_str("status"), Payload::Text(status));
    reply.insert(String::from_str("data"), Payload::Text(data));
    reply
}

/// The JSON text that `request` carries in its payload field, if it is an
/// object with that field and the field is text.
pub fn carried(request: &Payload) -> (text: Option<&str>)
    ensures
        match text {
            Some(text) => carried_text(request@) == Some(text@),
            None => carried_text(request@) is None,
        },
{
    match request.get(KEY_PAYLOAD) {
        Some(field) => field.as_str(),
        None => None,
    }
}

/// Flattens a request: with an `inner` payload, its fields are written over
/// those of the request and the payload field is taken out; with none, the
/// request stays as it is.
pub fn flatten(request: Payload, inner: Option<Payload>) -> (flat: Payload)
    ensures
        flat@ == flattened(
            request@,
            match inner {
                Some(inner) => Some(inner@),
                None => None,
            },
        ),
{
    match inner {
        Some(inner) => {
            let mut flat = request;
            flat.merge(inner);
            flat.remove(KEY_PAYLOAD);
            flat
        },
        None => request,
    }
}

/// The payload of a request body: the body is decoded as text and parsed,
/// and flattened where it carries a payload of its own.
pub fn decode_request(body: &[u8]) -> (payload: Payload)
    ensures
        payload@ == request_payload(lossy_text(body@)),
{
    let text = decode_lossy(body);
    let request = match parse_json(text.as_str()) {
        Some(request) => request,
        None => Payload::Null,
    };
    let inner = match carried(&request) {
        Some(text) => Some(parse_json(text)),
        None => None,
    };
    match inner {
        Some(inner) => flatten(request, inner),
        None => request,
    }
}

/// Handles one event of the event-loop host: executes on the event's
/// payload and wraps the result as the reply.
pub fn handle_lambda_event<B: Fn(Context, &Payload) -> (Context, TaskResult)>(
    executor: &mut Executor<B>,
    payload: Payload,
) -> (reply: Payload)
    requires
        old(executor)@.can_execute(Some(payload)),
    ensures
        exists|result: TaskResult| #[trigger]
            old(executor)@.executes(Some(payload), final(executor)@.context, result) && reply@
                == envelope_of(result),
        final(executor)@ == (ExecutorView {
            context: final(executor)@.context,
            ..old(executor)@
        }),
{
    let result = executor.execute_task(Some(payload));
    envelope(result)
}

/// Handles one request of the function host: executes on the payload of
/// the request body and wraps the result as the reply. A body that cannot
/// be decoded is no failure of its own: it reaches the task as the empty
/// payload.
pub fn handle_fc_request<B: Fn(Context, &Payload) -> (Context, TaskResult)>(
    executor: &mut Executor<B>,
    body: &[u8],
) -> (reply: Payload)
    requires
        forall|payload: Payload| old(executor)@.can_execute(Some(payload)),
    ensures
        exists|payload: Payload, result: TaskResult| #[trigger]
            old(executor)@.executes(Some(payload), final(executor)@.context, result) && payload@
                == request_payload(lossy_text(body@)) && reply@ == envelope_of(result),
        final(executor)@ == (ExecutorView {
            context: final(executor)@.context,
            ..old(executor)@
        }),
{
    let payload = decode_request(body);
    let result = executor.execute_task(Some(payload));
    envelope(result)
}

} // verus!

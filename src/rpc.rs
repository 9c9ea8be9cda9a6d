use vstd::prelude::*;

use crate::codec::{decode, decode_spec, Message};
use crate::error::PluginError;
use crate::ids::IdAllocator;
use crate::json::JsonValue;

verus! {

/// Relies on jsonrpc_lite's `ErrorCode::InvalidParams.code()`, the code of an
/// "invalid params" error, which its source gives as -32602.
#[verifier::external_body]
fn invalid_params_code() -> (r: i64)
    ensures
        r == -32602,
{
    jsonrpc_lite::ErrorCode::InvalidParams.code()
}

/// What the host sent, as the plugin's callbacks take it.
#[derive(Debug, PartialEq)]
pub enum Inbound {
    /// Call `handle_request` with these arguments.
    Request { id: u64, method: String, params: JsonValue },
    /// Call `handle_notification` with these arguments.
    Notification { method: String, params: JsonValue },
    /// Report this failure and call nothing.
    Fault(PluginError),
}

/// `v` is what a callback receives for the `params` member `p`: the value
/// itself, or an empty object where the member is absent.
pub open spec fn params_given(p: Option<JsonValue>, v: JsonValue) -> bool {
    match p {
        Some(x) => v == x,
        None => v is Object && v->Object_0@.len() == 0,
    }
}

/// How the host's messages reach the plugin: requests and notifications go to
/// the callbacks; a reply has no call waiting for it here and is a fault; so is
/// a line that does not decode.
pub open spec fn dispatch_spec(incoming: Result<Message, PluginError>, r: Inbound) -> bool {
    match incoming {
        Ok(Message::Request { id, method, params }) => r is Request && r->Request_id == id
            && r->Request_method == method && params_given(params, r->Request_params),
        Ok(Message::Notification { method, params }) => r is Notification
            && r->Notification_method == method && params_given(
            params,
            r->Notification_params,
        ),
        Ok(_) => r == Inbound::Fault(PluginError::ProtocolViolation),
        Err(e) => r == Inbound::Fault(e),
    }
}

/// What the call waiting for the reply to request `pending` gets from the
/// next line, `reply`.
pub open spec fn reply_outcome(pending: Option<u64>, reply: Result<Message, PluginError>) -> Result<
    JsonValue,
    PluginError,
> {
    match pending {
        None => Err(PluginError::ProtocolViolation),
        Some(p) => match reply {
            Ok(Message::Success { id, result }) => if id == p {
                Ok(result)
            } else {
                Err(PluginError::ProtocolViolation)
            },
            Ok(Message::Error { id, code, message, data }) => if id == p {
                Err(PluginError::RemoteError { code, message })
            } else {
                Err(PluginError::ProtocolViolation)
            },
            _ => Err(PluginError::ProtocolViolation),
        },
    }
}

/// The plugin side of the conversation: the ids of outgoing requests and the one
/// request, if any, whose reply is awaited.
pub struct PluginServerRpcHandler {
    ids: IdAllocator,
    pending: Option<u64>,
}

impl PluginServerRpcHandler {
    /// How many requests have been sent.
    pub closed spec fn sent(&self) -> nat {
        self.ids.issued()
    }

    /// The id of the request whose reply is awaited.
    pub closed spec fn pending(&self) -> Option<u64> {
        self.pending
    }

    pub fn new() -> (r: PluginServerRpcHandler)
        ensures
            r.sent() == 0,
            r.pending() is None,
    {
        PluginServerRpcHandler { ids: IdAllocator::new(), pending: None }
    }

    /// Opens a call: the request line to send, under the next id, which now
    /// awaits its reply. Only one call can be open; ids are never reused.
    pub fn host_request(&mut self, method: String, params: JsonValue) -> (r: Result<
        Message,
        PluginError,
    >)
        ensures
            old(self).pending() is Some ==> r == Err::<Message, PluginError>(
                PluginError::ProtocolViolation,
            ) && *final(self) == *old(self),
            old(self).pending() is None && old(self).sent() >= u64::MAX ==> r == Err::<
                Message,
                PluginError,
            >(PluginError::IdsExhausted) && final(self).sent() == old(self).sent()
                && final(self).pending() is None,
            old(self).pending() is None && old(self).sent() < u64::MAX ==> {
                &&& r == Ok::<Message, PluginError>(
                    Message::Request { id: old(self).sent() as u64, method, params: Some(params) },
                )
                &&& final(self).sent() == old(self).sent() + 1
                &&& final(self).pending() == Some(old(self).sent() as u64)
            },
    {
        if self.pending.is_some() {
            return Err(PluginError::ProtocolViolation);
        }
        match self.ids.next() {
            Some(id) => {
                self.pending = Some(id);
                Ok(Message::Request { id, method, params: Some(params) })
            },
            None => Err(PluginError::IdsExhausted),
        }
    }

    /// Closes the open call with the line that came back: its result, the
    /// host's error, or a protocol violation when the line is anything but a
    /// reply to that call. The call is over in every case.
    pub fn complete_request(&mut self, reply: Result<Message, PluginError>) -> (r: Result<
        JsonValue,
        PluginError,
    >)
        ensures
            r == reply_outcome(old(self).pending(), reply),
            final(self).pending() is None,
            final(self).sent() == old(self).sent(),
    {
        let pending = self.pending;
        self.pending = None;
        match pending {
            None => Err(PluginError::ProtocolViolation),
            Some(p) => match reply {
                Ok(Message::Success { id, result }) => if id == p {
                    Ok(result)
                } else {
                    Err(PluginError::ProtocolViolation)
                },
                Ok(Message::Error { id, code, message, data }) => if id == p {
                    Err(PluginError::RemoteError { code, message })
                } else {
                    Err(PluginError::ProtocolViolation)
                },
                _ => Err(PluginError::ProtocolViolation),
            },
        }
    }

    /// The notification line to send. Nothing is awaited for it.
    pub fn host_notification(&self, method: String, params: JsonValue) -> (r: Message)
        ensures
            r == (Message::Notification { method, params: Some(params) }),
    {
        Message::Notification { method, params: Some(params) }
    }

    /// The line that answers the host's request `id` with `result`.
    pub fn host_success(&self, id: u64, result: JsonValue) -> (r: Message)
        ensures
            r == (Message::Success { id, result }),
    {
        Message::Success { id, result }
    }

    /// The line that answers the host's request `id` with an "invalid params"
    /// error carrying `message`.
    pub fn host_error(&self, id: u64, message: String) -> (r: Message)
        ensures
            r == (Message::Error { id, code: -32602i64, message, data: None }),
    {
        Message::Error { id, code: invalid_params_code(), message, data: None }
    }

    /// Routes one message from the host. The open call, if any, is left alone.
    pub fn dispatch(&self, incoming: Result<Message, PluginError>) -> (r: Inbound)
        ensures
            dispatch_spec(incoming, r),
    {
        match incoming {
            Ok(Message::Request { id, method, params }) => Inbound::Request {
                id,
                method,
                params: params_or_empty(params),
            },
            Ok(Message::Notification { method, params }) => Inbound::Notification {
                method,
                params: params_or_empty(params),
            },
            Ok(_) => Inbound::Fault(PluginError::ProtocolViolation),
            Err(e) => Inbound::Fault(e),
        }
    }
}

fn params_or_empty(p: Option<JsonValue>) -> (r: JsonValue)
    ensures
        params_given(p, r),
{
    match p {
        Some(v) => v,
        None => JsonValue::Object(Vec::new()),
    }
}

/// What a plugin does with the host's requests and notifications. Both do
/// nothing unless the plugin says otherwise.
pub trait LapcePlugin {
    fn handle_request(&mut self, id: u64, method: String, params: JsonValue) {
    }

    fn handle_notification(&mut self, method: String, params: JsonValue) {
    }
}

/// Serves one line from the host, parsed as JSON: decodes it and hands a
/// request or a notification to the plugin. Returns the failure to report,
/// if the line was neither.
pub fn handle_rpc<P: LapcePlugin>(
    handler: &PluginServerRpcHandler,
    plugin: &mut P,
    line: JsonValue,
) -> (r: Option<PluginError>)
    ensures
        r is None <==> (decode_spec(line) matches Ok(Message::Request { .. }) || decode_spec(
            line,
        ) matches Ok(Message::Notification { .. })),
        decode_spec(line) is Err ==> r == Some(decode_spec(line)->Err_0),
{
    match handler.dispatch(decode(line)) {
        Inbound::Request { id, method, params } => {
            plugin.handle_request(id, method, params);
            None
        },
        Inbound::Notification { method, params } => {
            plugin.handle_notification(method, params);
            None
        },
        Inbound::Fault(e) => Some(e),
    }
}

} // verus!

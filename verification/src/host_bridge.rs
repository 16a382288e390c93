//! One call of tenant code through the host bridge.
//!
//! The host is called once with the request. Where its response does not fit into the buffer, the
//! host retains it, and a second call without a request takes it without doing the operation
//! again.
use vstd::prelude::*;

use crate::text::append_decimal;

verus! {

/// How many bytes of a response fit into the buffer of the first call.
pub const NIMBUS_HOST_BRIDGE_OUTPUT_CAP: usize = 4194304;

/// The status with which a call fails where no host bridge is installed.
pub const NO_HOST_BRIDGE: i32 = 311;

/// The status with which the host says that its response does not fit.
pub const HOST_RESPONSE_RETAINED: i32 = 307;

/// The reply to a request that is no string.
pub const INVALID_REQUEST: &'static str = r#"{"status":"error","error":{"code":"invalid_host_bridge_request","message":"request must be a JSON string"}}"#;

/// The reply where the host says that a response does not fit which would.
pub const INVALID_RESPONSE_LENGTH: &'static str = r#"{"status":"error","error":{"code":"invalid_host_bridge_response_length","message":"host bridge reported overflow without a larger response length"}}"#;

/// The reply where there is no memory for the response.
pub const RESPONSE_ALLOCATION_FAILED: &'static str = r#"{"status":"error","error":{"code":"host_bridge_response_allocation_failed","message":"host bridge response could not be retained within the runtime memory budget"}}"#;

/// The reply where the retained response has another length than the host said.
pub const RESPONSE_LENGTH_CHANGED: &'static str = r#"{"status":"error","error":{"code":"host_bridge_response_length_changed","message":"host bridge changed the completed response length during retrieval"}}"#;

/// The reply where the host says that it wrote more than the buffer holds.
pub const RESPONSE_TOO_LARGE: &'static str = r#"{"status":"error","error":{"code":"host_bridge_response_too_large","message":"host bridge response exceeded the ABI output buffer"}}"#;

/// The reply to a host call that failed, up to its status.
pub const CALLBACK_FAILED_HEAD: &'static str = r#"{"status":"error","error":{"code":"host_bridge_callback_failed","status":"#;

/// The rest of that reply.
pub const CALLBACK_FAILED_TAIL: &'static str = "}}";

/// The reply to a host call that failed with this status.
pub open spec fn status_error_text(status: int) -> Seq<char> {
    CALLBACK_FAILED_HEAD@ + crate::text::decimal(status) + CALLBACK_FAILED_TAIL@
}

/// The reply to a host call that failed with this status.
pub fn host_bridge_status_error_response(status: i32) -> (response: String)
    ensures
        response@ == status_error_text(status as int),
{
    let mut response = CALLBACK_FAILED_HEAD.to_owned();
    append_decimal(&mut response, status);
    response.append(CALLBACK_FAILED_TAIL);
    response
}

/// What tenant code gets.
#[derive(Debug, PartialEq, Eq)]
pub enum HostBridgeReply {
    /// The text of an error.
    Error(String),
    /// What the host responded.
    Response(Vec<u8>),
}

/// The same, without a place in memory.
pub enum Reply {
    Error(Seq<char>),
    Response(Seq<u8>),
}

impl View for HostBridgeReply {
    type V = Reply;

    open spec fn view(&self) -> Reply {
        match self {
            HostBridgeReply::Error(text) => Reply::Error(text@),
            HostBridgeReply::Response(bytes) => Reply::Response(bytes@),
        }
    }
}

/// Where a call stands.
pub enum CallState {
    /// The host is to be called with this request.
    Call { request: Seq<u8> },
    /// Memory for a response of this length is to be reserved.
    Reserve { length: usize },
    /// The retained response is to be taken.
    Take { length: usize },
    Finished(Reply),
}

/// What the embedder saw.
pub enum HostBridgeSeen {
    /// No host bridge is installed.
    NoBridge,
    /// The host returned: its status, the length that it reported, and the buffer.
    Returned { status: i32, output_len: usize, output: Vec<u8> },
    /// Whether the memory was reserved.
    Reserved(bool),
}

/// The same, without a place in memory.
pub enum Seen {
    NoBridge,
    Returned { status: i32, output_len: usize, output: Seq<u8> },
    Reserved(bool),
}

impl View for HostBridgeSeen {
    type V = Seen;

    open spec fn view(&self) -> Seen {
        match self {
            HostBridgeSeen::NoBridge => Seen::NoBridge,
            HostBridgeSeen::Returned { status, output_len, output } => Seen::Returned {
                status: *status,
                output_len: *output_len,
                output: output@,
            },
            HostBridgeSeen::Reserved(reserved) => Seen::Reserved(*reserved),
        }
    }
}

/// The observation is one that this state waits for.
pub open spec fn call_answers(state: CallState, seen: Seen) -> bool {
    match state {
        CallState::Call { .. } => seen is NoBridge || seen is Returned,
        CallState::Reserve { .. } => seen is Reserved,
        CallState::Take { .. } => seen is NoBridge || seen is Returned,
        CallState::Finished(_) => true,
    }
}

/// The status of a host call.
pub open spec fn host_status(seen: Seen) -> i32 {
    match seen {
        Seen::Returned { status, .. } => status,
        _ => NO_HOST_BRIDGE,
    }
}

/// What tenant code gets of a host call that retained nothing: the bytes that the host wrote,
/// unless it failed or reports more than the buffer holds.
pub open spec fn reply_of(seen: Seen) -> Reply {
    if host_status(seen) != 0 {
        Reply::Error(status_error_text(host_status(seen) as int))
    } else if seen->output_len > seen->output.len() {
        Reply::Error(RESPONSE_TOO_LARGE@)
    } else {
        Reply::Response(seen->output.take(seen->output_len as int))
    }
}

/// The state after an observation.
pub open spec fn call_next(state: CallState, seen: Seen) -> CallState {
    match state {
        CallState::Call { .. } => if host_status(seen) != HOST_RESPONSE_RETAINED {
            CallState::Finished(reply_of(seen))
        } else if seen->output_len <= seen->output.len() {
            CallState::Finished(Reply::Error(INVALID_RESPONSE_LENGTH@))
        } else {
            CallState::Reserve { length: seen->output_len }
        },
        CallState::Reserve { length } => if seen == Seen::Reserved(true) {
            CallState::Take { length }
        } else {
            CallState::Finished(Reply::Error(RESPONSE_ALLOCATION_FAILED@))
        },
        CallState::Take { length } => if host_status(seen) == 0 && seen->output_len != length {
            CallState::Finished(Reply::Error(RESPONSE_LENGTH_CHANGED@))
        } else {
            CallState::Finished(reply_of(seen))
        },
        CallState::Finished(_) => state,
    }
}

enum Phase {
    Call { request: Vec<u8> },
    Reserve { length: usize },
    Take { length: usize },
    Finished(HostBridgeReply),
}

/// What the embedder is to do next.
#[derive(Clone, Copy, Debug, PartialEq, Eq)]
pub enum HostBridgeAction<'a> {
    /// Calls the host with the request and a zeroed buffer of this many bytes.
    CallHost { request: &'a [u8], capacity: usize },
    /// Reserves a zeroed buffer of this many bytes.
    Reserve { length: usize },
    /// Calls the host without a request and with the buffer that was reserved.
    TakeRetained { length: usize },
    /// Hands the reply to tenant code.
    Reply,
}

/// The same with the bytes of the request.
pub enum CallAction {
    CallHost { request: Seq<u8>, capacity: usize },
    Reserve { length: usize },
    TakeRetained { length: usize },
    Reply,
}

impl<'a> View for HostBridgeAction<'a> {
    type V = CallAction;

    open spec fn view(&self) -> CallAction {
        match self {
            HostBridgeAction::CallHost { request, capacity } => CallAction::CallHost {
                request: request@,
                capacity: *capacity,
            },
            HostBridgeAction::Reserve { length } => CallAction::Reserve { length: *length },
            HostBridgeAction::TakeRetained { length } => CallAction::TakeRetained {
                length: *length,
            },
            HostBridgeAction::Reply => CallAction::Reply,
        }
    }
}

/// What is to be done in each state.
pub open spec fn call_action(state: CallState) -> CallAction {
    match state {
        CallState::Call { request } => CallAction::CallHost {
            request,
            capacity: NIMBUS_HOST_BRIDGE_OUTPUT_CAP,
        },
        CallState::Reserve { length } => CallAction::Reserve { length },
        CallState::Take { length } => CallAction::TakeRetained { length },
        CallState::Finished(_) => CallAction::Reply,
    }
}

/// One call of tenant code through the host bridge.
pub struct HostBridgeCall {
    phase: Phase,
}

impl View for HostBridgeCall {
    type V = CallState;

    closed spec fn view(&self) -> CallState {
        match self.phase {
            Phase::Call { request } => CallState::Call { request: request@ },
            Phase::Reserve { length } => CallState::Reserve { length },
            Phase::Take { length } => CallState::Take { length },
            Phase::Finished(reply) => CallState::Finished(reply@),
        }
    }
}

fn error(text: &'static str) -> (reply: HostBridgeReply)
    ensures
        reply@ == Reply::Error(text@),
{
    HostBridgeReply::Error(text.to_owned())
}

fn reply(status: i32, output_len: usize, output: Vec<u8>) -> (reply: HostBridgeReply)
    ensures
        reply@ == reply_of(Seen::Returned { status, output_len, output: output@ }),
{
    if status != 0 {
        return HostBridgeReply::Error(host_bridge_status_error_response(status));
    }
    if output_len > output.len() {
        return error(RESPONSE_TOO_LARGE);
    }
    let mut output = output;
    output.truncate(output_len);
    HostBridgeReply::Response(output)
}

/// The state in which a call begins: a request that is no string is answered at once.
pub open spec fn call_start(request: Option<Seq<u8>>) -> CallState {
    match request {
        Some(request) => CallState::Call { request },
        None => CallState::Finished(Reply::Error(INVALID_REQUEST@)),
    }
}

/// The function that tenant code calls, with the bytes of its request where that is a string.
pub fn nimbus_bun_embed_host_bridge_call_json(request: Option<Vec<u8>>) -> (call: HostBridgeCall)
    ensures
        call@ == call_start(crate::response::response_bytes(request)),
{
    match request {
        Some(request) => HostBridgeCall { phase: Phase::Call { request } },
        None => HostBridgeCall { phase: Phase::Finished(error(INVALID_REQUEST)) },
    }
}

impl HostBridgeCall {
    /// What to do next.
    pub fn action<'a>(&'a self) -> (action: HostBridgeAction<'a>)
        ensures
            action@ == call_action(self@),
    {
        match &self.phase {
            Phase::Call { request } => HostBridgeAction::CallHost {
                request: request.as_slice(),
                capacity: NIMBUS_HOST_BRIDGE_OUTPUT_CAP,
            },
            Phase::Reserve { length } => HostBridgeAction::Reserve { length: *length },
            Phase::Take { length } => HostBridgeAction::TakeRetained { length: *length },
            Phase::Finished(_) => HostBridgeAction::Reply,
        }
    }

    /// Takes the answer to the action that was due.
    pub fn observe(self, seen: HostBridgeSeen) -> (next: Self)
        requires
            call_answers(self@, seen@),
        ensures
            next@ == call_next(self@, seen@),
    {
        let phase: Phase = match (self.phase, seen) {
            (Phase::Call { .. }, HostBridgeSeen::Returned { status, output_len, output }) => {
                if status == HOST_RESPONSE_RETAINED {
                    if output_len <= output.len() {
                        Phase::Finished(error(INVALID_RESPONSE_LENGTH))
                    } else {
                        Phase::Reserve { length: output_len }
                    }
                } else {
                    Phase::Finished(reply(status, output_len, output))
                }
            },
            (Phase::Reserve { length }, HostBridgeSeen::Reserved(reserved)) => {
                if reserved {
                    Phase::Take { length }
                } else {
                    Phase::Finished(error(RESPONSE_ALLOCATION_FAILED))
                }
            },
            (Phase::Take { length }, HostBridgeSeen::Returned { status, output_len, output }) => {
                if status == 0 && output_len != length {
                    Phase::Finished(error(RESPONSE_LENGTH_CHANGED))
                } else {
                    Phase::Finished(reply(status, output_len, output))
                }
            },
            (Phase::Finished(reply), _) => Phase::Finished(reply),
            (_, _) => Phase::Finished(
                HostBridgeReply::Error(host_bridge_status_error_response(NO_HOST_BRIDGE)),
            ),
        };
        HostBridgeCall { phase }
    }

    /// The reply, once the call is over.
    pub fn into_reply(self) -> (reply: Option<HostBridgeReply>)
        ensures
            reply is Some <==> self@ is Finished,
            reply matches Some(reply) ==> self@ == CallState::Finished(reply@),
    {
        match self.phase {
            Phase::Finished(reply) => Some(reply),
            _ => None,
        }
    }
}

/// The state after several observations.
pub open spec fn call_feed(request: Option<Seq<u8>>, trace: Seq<Seen>) -> CallState
    decreases trace.len(),
{
    if trace.len() == 0 {
        call_start(request)
    } else {
        call_next(call_feed(request, trace.drop_last()), trace.last())
    }
}

/// How far a call has come.
pub open spec fn call_rank(state: CallState) -> nat {
    match state {
        CallState::Call { .. } => 0,
        CallState::Reserve { .. } => 1,
        CallState::Take { .. } => 2,
        CallState::Finished(_) => 3,
    }
}

/// The host does the operation at most once, and the retained response is taken at most once:
/// whatever the embedder sees, no state but the last comes twice. A request that is no string
/// never reaches the host.
pub proof fn law_host_is_called_at_most_once(
    request: Option<Seq<u8>>,
    trace: Seq<Seen>,
    i: int,
    j: int,
)
    requires
        0 <= i < j <= trace.len(),
    ensures
        !(call_feed(request, trace.take(j)) is Call),
        call_feed(request, trace.take(i)) is Take ==> !(call_feed(request, trace.take(j)) is Take),
        request is None ==> call_feed(request, trace.take(i)) is Finished,
        !(call_feed(request, trace.take(j)) is Finished) ==> call_rank(
            call_feed(request, trace.take(i)),
        ) < call_rank(call_feed(request, trace.take(j))),
    decreases j,
{
    assert(trace.take(j).drop_last() == trace.take(j - 1));
    if i < j - 1 {
        law_host_is_called_at_most_once(request, trace, i, j - 1);
    } else if i > 0 {
        law_host_is_called_at_most_once(request, trace, i - 1, i);
    }
}

/// The host is handed the bytes of the request as tenant code passed them, and a buffer of the
/// full size.
pub proof fn law_host_gets_the_request(request: Option<Seq<u8>>, trace: Seq<Seen>)
    ensures
        call_action(call_feed(request, trace)) is CallHost ==> {
            &&& request is Some
            &&& trace.len() == 0
            &&& call_action(call_feed(request, trace)) == (CallAction::CallHost {
                request: request->0,
                capacity: NIMBUS_HOST_BRIDGE_OUTPUT_CAP,
            })
        },
{
    if trace.len() > 0 {
        law_host_is_called_at_most_once(request, trace, 0, trace.len() as int);
        assert(trace.take(trace.len() as int) == trace);
    }
}

/// The retained response is asked for only after the host was called with the request and said
/// that its response does not fit, and only for the length that it reported.
pub proof fn law_retained_response_is_taken_after_the_call(
    request: Option<Seq<u8>>,
    trace: Seq<Seen>,
)
    requires
        call_feed(request, trace) is Take,
    ensures
        request is Some,
        trace.len() == 2,
        host_status(trace[0]) == HOST_RESPONSE_RETAINED,
        trace[0] is Returned,
        trace[0]->output.len() < trace[0]->output_len,
        call_feed(request, trace)->Take_length == trace[0]->output_len,
        trace[1] == Seen::Reserved(true),
{
    reveal_with_fuel(call_feed, 4);
    assert(trace.len() > 0);
    let called = trace.drop_last();
    assert(called.len() > 0);
    if called.len() > 1 {
        law_host_is_called_at_most_once(request, called, 0, called.len() - 1);
        assert(called.take(called.len() - 1) == called.drop_last());
    }
}

/// What a host that keeps the protocol shows in the first call: it delivers its response into
/// the buffer, or its length where it does not fit.
pub open spec fn host_call(response: Seq<u8>, buffer: Seq<u8>) -> Seen {
    let delivered = crate::response::delivered(response, NIMBUS_HOST_BRIDGE_OUTPUT_CAP);
    Seen::Returned {
        status: delivered.status,
        output_len: delivered.output_len->0,
        output: match delivered.output {
            Some(output) => output + buffer.skip(output.len() as int),
            None => buffer,
        },
    }
}

/// What it shows in the second call, with a buffer of the length that it reported.
pub open spec fn host_take(response: Seq<u8>, length: usize) -> Seen {
    let taken = crate::response::taken(Some(response), true, length, true);
    Seen::Returned {
        status: taken.status,
        output_len: taken.output_len->0,
        output: taken.output->0,
    }
}

/// Every response of a host that keeps the protocol reaches tenant code as it is, whether it fits
/// into the buffer of the first call or has to be taken by a second one.
pub proof fn law_every_response_arrives(request: Seq<u8>, response: Seq<u8>, buffer: Seq<u8>)
    requires
        response.len() <= usize::MAX,
        buffer.len() == NIMBUS_HOST_BRIDGE_OUTPUT_CAP,
    ensures
        ({
            let first = host_call(response, buffer);
            let second = host_take(response, response.len() as usize);
            if response.len() <= NIMBUS_HOST_BRIDGE_OUTPUT_CAP {
                call_feed(Some(request), seq![first]) == CallState::Finished(
                    Reply::Response(response),
                )
            } else {
                call_feed(Some(request), seq![first, Seen::Reserved(true), second])
                    == CallState::Finished(Reply::Response(response))
            }
        }),
{
    reveal_with_fuel(call_feed, 5);
    let first = host_call(response, buffer);
    let second = host_take(response, response.len() as usize);
    assert(seq![first].drop_last() == Seq::<Seen>::empty());
    if response.len() <= NIMBUS_HOST_BRIDGE_OUTPUT_CAP {
        assert(first->output.take(response.len() as int) == response);
    } else {
        let reserved = seq![first, Seen::Reserved(true)];
        assert(reserved.drop_last() == seq![first]);
        assert(seq![first, Seen::Reserved(true), second].drop_last() == reserved);
        assert(response.take(response.len() as int) == response);
    }
}

/// The JSON text of an error: its code and its message.
pub open spec fn error_text(code: Seq<char>, message: Seq<char>) -> Seq<char> {
    r#"{"status":"error","error":{"code":""#@ + code + r#"","message":""#@ + message + r#""}}"#@
}

proof fn lemma_invalid_request()
    ensures
        INVALID_REQUEST@ == error_text(
            "invalid_host_bridge_request"@,
            "request must be a JSON string"@,
        ),
{
    reveal_strlit(r#"{"status":"error","error":{"code":""#);
    reveal_strlit(r#"","message":""#);
    reveal_strlit(r#""}}"#);
    reveal_strlit("invalid_host_bridge_request");
    reveal_strlit("request must be a JSON string");
    reveal_strlit(
        r#"{"status":"error","error":{"code":"invalid_host_bridge_request","message":"request must be a JSON string"}}"#,
    );
}

proof fn lemma_invalid_response_length()
    ensures
        INVALID_RESPONSE_LENGTH@ == error_text(
            "invalid_host_bridge_response_length"@,
            "host bridge reported overflow without a larger response length"@,
        ),
{
    reveal_strlit(r#"{"status":"error","error":{"code":""#);
    reveal_strlit(r#"","message":""#);
    reveal_strlit(r#""}}"#);
    reveal_strlit("invalid_host_bridge_response_length");
    reveal_strlit("host bridge reported overflow without a larger response length");
    reveal_strlit(
        r#"{"status":"error","error":{"code":"invalid_host_bridge_response_length","message":"host bridge reported overflow without a larger response length"}}"#,
    );
}

proof fn lemma_response_allocation_failed()
    ensures
        RESPONSE_ALLOCATION_FAILED@ == error_text(
            "host_bridge_response_allocation_failed"@,
            "host bridge response could not be retained within the runtime memory budget"@,
        ),
{
    reveal_strlit(r#"{"status":"error","error":{"code":""#);
    reveal_strlit(r#"","message":""#);
    reveal_strlit(r#""}}"#);
    reveal_strlit("host_bridge_response_allocation_failed");
    reveal_strlit("host bridge response could not be retained within the runtime memory budget");
    reveal_strlit(
        r#"{"status":"error","error":{"code":"host_bridge_response_allocation_failed","message":"host bridge response could not be retained within the runtime memory budget"}}"#,
    );
}

proof fn lemma_response_length_changed()
    ensures
        RESPONSE_LENGTH_CHANGED@ == error_text(
            "host_bridge_response_length_changed"@,
            "host bridge changed the completed response length during retrieval"@,
        ),
{
    reveal_strlit(r#"{"status":"error","error":{"code":""#);
    reveal_strlit(r#"","message":""#);
    reveal_strlit(r#""}}"#);
    reveal_strlit("host_bridge_response_length_changed");
    reveal_strlit("host bridge changed the completed response length during retrieval");
    reveal_strlit(
        r#"{"status":"error","error":{"code":"host_bridge_response_length_changed","message":"host bridge changed the completed response length during retrieval"}}"#,
    );
}

proof fn lemma_response_too_large()
    ensures
        RESPONSE_TOO_LARGE@ == error_text(
            "host_bridge_response_too_large"@,
            "host bridge response exceeded the ABI output buffer"@,
        ),
{
    reveal_strlit(r#"{"status":"error","error":{"code":""#);
    reveal_strlit(r#"","message":""#);
    reveal_strlit(r#""}}"#);
    reveal_strlit("host_bridge_response_too_large");
    reveal_strlit("host bridge response exceeded the ABI output buffer");
    reveal_strlit(
        r#"{"status":"error","error":{"code":"host_bridge_response_too_large","message":"host bridge response exceeded the ABI output buffer"}}"#,
    );
}

/// Every error that tenant code gets is JSON of the same shape, with a code of its own; the error of
/// a host call that failed carries the status in place of a message.
pub proof fn law_errors_have_one_shape(status: int)
    ensures
        INVALID_REQUEST@ == error_text(
            "invalid_host_bridge_request"@,
            "request must be a JSON string"@,
        ),
        INVALID_RESPONSE_LENGTH@ == error_text(
            "invalid_host_bridge_response_length"@,
            "host bridge reported overflow without a larger response length"@,
        ),
        RESPONSE_ALLOCATION_FAILED@ == error_text(
            "host_bridge_response_allocation_failed"@,
            "host bridge response could not be retained within the runtime memory budget"@,
        ),
        RESPONSE_LENGTH_CHANGED@ == error_text(
            "host_bridge_response_length_changed"@,
            "host bridge changed the completed response length during retrieval"@,
        ),
        RESPONSE_TOO_LARGE@ == error_text(
            "host_bridge_response_too_large"@,
            "host bridge response exceeded the ABI output buffer"@,
        ),
        status_error_text(status)
            == r#"{"status":"error","error":{"code":"host_bridge_callback_failed","status":"#@
            + crate::text::decimal(status) + "}}"@,
{
    lemma_invalid_request();
    lemma_invalid_response_length();
    lemma_response_allocation_failed();
    lemma_response_length_changed();
    lemma_response_too_large();
}

/// What tenant code gets of the first host call, for every status, every reported length and every
/// buffer: on success as many bytes of the buffer as the host reported, where the buffer holds as
/// many, and otherwise an error that says why not. Only a response that is retained and larger
/// than the buffer leads to a second call.
pub proof fn law_reply_is_what_the_host_wrote(
    request: Seq<u8>,
    status: i32,
    output_len: usize,
    output: Seq<u8>,
)
    ensures
        ({
            let seen = Seen::Returned { status, output_len, output };
            let next = call_next(CallState::Call { request }, seen);
            &&& next matches CallState::Finished(Reply::Response(bytes)) ==> {
                &&& status == 0
                &&& bytes.len() == output_len
                &&& output_len <= output.len()
                &&& forall|i: int| 0 <= i < bytes.len() ==> bytes[i] == output[i]
            }
            &&& status == 0 && output_len <= output.len() ==> next == CallState::Finished(
                Reply::Response(output.subrange(0, output_len as int)),
            )
            &&& status == 0 && output_len > output.len() ==> next == CallState::Finished(
                Reply::Error(RESPONSE_TOO_LARGE@),
            )
            &&& status == 307 && output_len <= output.len() ==> next == CallState::Finished(
                Reply::Error(INVALID_RESPONSE_LENGTH@),
            )
            &&& next is Reserve <==> status == 307 && output_len > output.len()
            &&& next is Reserve ==> next->Reserve_length == output_len
            &&& status != 0 && status != 307 ==> next == CallState::Finished(
                Reply::Error(status_error_text(status as int)),
            )
            &&& call_next(CallState::Call { request }, Seen::NoBridge) == CallState::Finished(
                Reply::Error(status_error_text(311)),
            )
        }),
{
}

/// What tenant code gets of a response that the host retained, for every answer to the second
/// call: the response arrives only with the length that was reported first, and every other
/// answer is an error that says why not.
pub proof fn law_retained_reply_is_what_the_host_wrote(
    length: usize,
    status: i32,
    output_len: usize,
    output: Seq<u8>,
)
    ensures
        ({
            let seen = Seen::Returned { status, output_len, output };
            let next = call_next(CallState::Take { length }, seen);
            &&& next is Finished
            &&& next matches CallState::Finished(Reply::Response(bytes)) ==> {
                &&& status == 0
                &&& bytes.len() == length
                &&& output_len == length
                &&& forall|i: int| 0 <= i < bytes.len() ==> bytes[i] == output[i]
            }
            &&& status == 0 && output_len == length && length <= output.len() ==> next
                == CallState::Finished(Reply::Response(output.subrange(0, length as int)))
            &&& status == 0 && output_len != length ==> next == CallState::Finished(
                Reply::Error(RESPONSE_LENGTH_CHANGED@),
            )
            &&& status == 0 && output_len == length && length > output.len() ==> next
                == CallState::Finished(Reply::Error(RESPONSE_TOO_LARGE@))
            &&& status != 0 ==> next == CallState::Finished(
                Reply::Error(status_error_text(status as int)),
            )
            &&& call_next(CallState::Take { length }, Seen::NoBridge) == CallState::Finished(
                Reply::Error(status_error_text(311)),
            )
            &&& call_next(CallState::Reserve { length }, Seen::Reserved(true)) == (CallState::Take {
                length,
            })
            &&& call_next(CallState::Reserve { length }, Seen::Reserved(false))
                == CallState::Finished(Reply::Error(RESPONSE_ALLOCATION_FAILED@))
        }),
{
}

/// A request that is no string is answered with the error for it, and the first call offers the
/// host a buffer of four mebibytes.
pub proof fn law_call_begins_with_the_request(request: Seq<u8>)
    ensures
        call_start(None) == CallState::Finished(Reply::Error(INVALID_REQUEST@)),
        call_action(call_start(Some(request))) == (CallAction::CallHost {
            request,
            capacity: (4 * 1024 * 1024) as usize,
        }),
{
}

} // verus!

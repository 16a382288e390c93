//! Responses that do not fit into the caller's buffer: they are retained until the caller comes
//! back with a larger one.
use vstd::prelude::*;

verus! {

/// The response that the last invocation on this thread completed and could not hand over.
pub struct PendingInvocationResponse {
    response: Option<Vec<u8>>,
}

impl View for PendingInvocationResponse {
    type V = Option<Seq<u8>>;

    closed spec fn view(&self) -> Option<Seq<u8>> {
        response_bytes(self.response)
    }
}

/// What to write into the caller's memory, and the status of the call.
#[derive(Debug, PartialEq, Eq)]
pub struct Delivery {
    pub status: i32,
    /// What to write as the length of the response.
    pub output_len: Option<usize>,
    /// What to write into the caller's buffer.
    pub output: Option<Vec<u8>>,
}

/// The same with the bytes of the buffer.
#[verifier::ext_equal]
pub struct Delivered {
    pub status: i32,
    pub output_len: Option<usize>,
    pub output: Option<Seq<u8>>,
}

impl View for Delivery {
    type V = Delivered;

    open spec fn view(&self) -> Delivered {
        Delivered {
            status: self.status,
            output_len: self.output_len,
            output: response_bytes(self.output),
        }
    }
}

/// What the caller gets of a response: all of it where its buffer is large enough, and otherwise
/// its length and status 307.
pub open spec fn delivered(response: Seq<u8>, output_cap: usize) -> Delivered {
    if response.len() > output_cap {
        Delivered { status: 307, output_len: Some(response.len() as usize), output: None }
    } else {
        Delivered {
            status: 0,
            output_len: Some(response.len() as usize),
            output: Some(response),
        }
    }
}

/// What is retained once a response has been delivered.
pub open spec fn retained_by_delivery(
    pending: Option<Seq<u8>>,
    response: Seq<u8>,
    output_cap: usize,
) -> Option<Seq<u8>> {
    if response.len() > output_cap {
        Some(response)
    } else {
        pending
    }
}

/// What a caller gets that asks for the retained response.
pub open spec fn taken(
    pending: Option<Seq<u8>>,
    output: bool,
    output_cap: usize,
    output_len: bool,
) -> Delivered {
    if !output || !output_len {
        Delivered { status: 300, output_len: None, output: None }
    } else {
        match pending {
            None => Delivered { status: 320, output_len: None, output: None },
            Some(response) => delivered(response, output_cap),
        }
    }
}

/// What is still retained after that.
pub open spec fn retained_by_taking(
    pending: Option<Seq<u8>>,
    output: bool,
    output_cap: usize,
    output_len: bool,
) -> Option<Seq<u8>> {
    if taken(pending, output, output_cap, output_len).status == 0 {
        None
    } else {
        pending
    }
}

impl PendingInvocationResponse {
    /// No response is retained.
    pub fn new() -> (pending: Self)
        ensures
            pending@ is None,
    {
        PendingInvocationResponse { response: None }
    }
}

/// Forgets the response of an earlier invocation.
pub fn clear_pending_invocation_response(pending: &mut PendingInvocationResponse)
    ensures
        final(pending)@ is None,
{
    pending.response = None;
}

/// Delivers the response of an invocation, and retains it where it does not fit.
pub fn deliver_response(
    pending: &mut PendingInvocationResponse,
    response: Vec<u8>,
    output_cap: usize,
) -> (delivery: Delivery)
    ensures
        delivery@ == delivered(response@, output_cap),
        final(pending)@ == retained_by_delivery(old(pending)@, response@, output_cap),
{
    let length = response.len();
    if length > output_cap {
        pending.response = Some(response);
        Delivery { status: 307, output_len: Some(length), output: None }
    } else {
        Delivery { status: 0, output_len: Some(length), output: Some(response) }
    }
}

/// The bytes of a response, if there is one.
pub open spec fn response_bytes(response: Option<Vec<u8>>) -> Option<Seq<u8>> {
    match response {
        Some(response) => Some(response@),
        None => None,
    }
}

/// What the caller gets of an invocation whose program ended with `status`.
pub open spec fn finished(status: i32, response: Option<Seq<u8>>, output_cap: usize) -> Delivered {
    if status == 0 {
        delivered(response->0, output_cap)
    } else {
        Delivered { status, output_len: None, output: None }
    }
}

/// What is retained once an invocation has ended.
pub open spec fn retained_by_end(
    pending: Option<Seq<u8>>,
    status: i32,
    response: Option<Seq<u8>>,
    output_cap: usize,
) -> Option<Seq<u8>> {
    if status == 0 {
        retained_by_delivery(pending, response->0, output_cap)
    } else {
        pending
    }
}

/// Ends an invocation: the response of a program that ended with status zero is delivered. After
/// any other status the caller gets the status alone, and what is retained stays as it is.
pub fn finish_invocation(
    pending: &mut PendingInvocationResponse,
    status: i32,
    response: Option<Vec<u8>>,
    output_cap: usize,
) -> (delivery: Delivery)
    requires
        status == 0 ==> response is Some,
    ensures
        delivery@ == finished(status, response_bytes(response), output_cap),
        final(pending)@ == retained_by_end(
            old(pending)@,
            status,
            response_bytes(response),
            output_cap,
        ),
{
    match response {
        Some(bytes) => {
            if status == 0 {
                deliver_response(pending, bytes, output_cap)
            } else {
                Delivery { status, output_len: None, output: None }
            }
        },
        None => Delivery { status, output_len: None, output: None },
    }
}

/// Hands the retained response over. Status 307 leaves it for a larger buffer; status 320 says
/// that none is retained; status 300 says that the caller gave no place to write to.
pub fn nimbus_bun_embed_take_pending_response(
    pending: &mut PendingInvocationResponse,
    output: bool,
    output_cap: usize,
    output_len: bool,
) -> (delivery: Delivery)
    ensures
        delivery@ == taken(old(pending)@, output, output_cap, output_len),
        final(pending)@ == retained_by_taking(old(pending)@, output, output_cap, output_len),
{
    if !output || !output_len {
        return Delivery { status: 300, output_len: None, output: None };
    }
    match pending.response.take() {
        None => Delivery { status: 320, output_len: None, output: None },
        Some(response) => {
            let length = response.len();
            if length > output_cap {
                pending.response = Some(response);
                Delivery { status: 307, output_len: Some(length), output: None }
            } else {
                Delivery { status: 0, output_len: Some(length), output: Some(response) }
            }
        },
    }
}

/// What is retained after callers with buffers of these sizes have asked for it in turn.
pub open spec fn retained_after_retries(pending: Option<Seq<u8>>, caps: Seq<usize>) -> Option<
    Seq<u8>,
>
    decreases caps.len(),
{
    if caps.len() == 0 {
        pending
    } else {
        retained_by_taking(
            retained_after_retries(pending, caps.drop_last()),
            true,
            caps.last(),
            true,
        )
    }
}

proof fn lemma_small_buffers_keep_the_response(response: Seq<u8>, caps: Seq<usize>)
    requires
        forall|i: int| 0 <= i < caps.len() ==> #[trigger] caps[i] < response.len(),
    ensures
        retained_after_retries(Some(response), caps) == Some(response),
    decreases caps.len(),
{
    if caps.len() > 0 {
        assert forall|i: int| 0 <= i < caps.drop_last().len() implies #[trigger] caps.drop_last()[i]
            < response.len() by {
            assert(caps.drop_last()[i] == caps[i]);
        }
        lemma_small_buffers_keep_the_response(response, caps.drop_last());
        assert(caps.last() < response.len());
    }
}

/// A response that did not fit is not lost, whatever was retained before and however often the
/// caller comes back with a buffer that is still too small: each such call reports its length,
/// the first buffer that is large enough gets exactly its bytes, and the call after that finds
/// nothing.
pub proof fn law_response_is_taken_exactly_once(
    before: Option<Seq<u8>>,
    response: Seq<u8>,
    first_cap: usize,
    retries: Seq<usize>,
    last_cap: usize,
    later_cap: usize,
)
    requires
        response.len() <= usize::MAX,
        first_cap < response.len(),
        forall|i: int| 0 <= i < retries.len() ==> #[trigger] retries[i] < response.len(),
        response.len() <= last_cap,
    ensures
        delivered(response, first_cap).status == 307,
        delivered(response, first_cap).output_len == Some(response.len() as usize),
        ({
            let retained = retained_after_retries(
                retained_by_delivery(before, response, first_cap),
                retries,
            );
            &&& taken(retained, true, last_cap, true) == (Delivered {
                status: 0,
                output_len: Some(response.len() as usize),
                output: Some(response),
            })
            &&& taken(
                retained_by_taking(retained, true, last_cap, true),
                true,
                later_cap,
                true,
            ).status == 320
        }),
{
    lemma_small_buffers_keep_the_response(response, retries);
}

/// An invocation that failed writes nothing and changes nothing that is retained.
pub proof fn law_failed_invocation_delivers_nothing(
    pending: Option<Seq<u8>>,
    status: i32,
    response: Option<Seq<u8>>,
    output_cap: usize,
)
    requires
        status != 0,
    ensures
        finished(status, response, output_cap) == (Delivered {
            status,
            output_len: None,
            output: None,
        }),
        retained_by_end(pending, status, response, output_cap) == pending,
{
}

/// What an invocation with status zero hands over is its response and nothing else, whatever was
/// retained before and whatever the buffer is: the reported length is the number of its bytes,
/// the bytes are written exactly where they fit, and the response is retained exactly where they
/// do not. A response that fits leaves alone what is retained.
pub proof fn law_response_is_reported_in_full(
    pending: Option<Seq<u8>>,
    response: Seq<u8>,
    output_cap: usize,
)
    requires
        response.len() <= usize::MAX,
    ensures
        ({
            let end = finished(0, Some(response), output_cap);
            let retained = retained_by_end(pending, 0, Some(response), output_cap);
            &&& end == delivered(response, output_cap)
            &&& end.output_len is Some
            &&& end.output_len->0 as int == response.len()
            &&& end.status == 0 || end.status == 307
            &&& end.status == 0 <==> response.len() <= output_cap
            &&& end.output is Some <==> end.status == 0
            &&& end.output matches Some(bytes) ==> {
                &&& bytes == response
                &&& bytes.len() == end.output_len->0
                &&& bytes.len() <= output_cap
                &&& retained == pending
            }
            &&& end.output is None ==> retained == Some(response)
        }),
{
}

/// A caller that asks for the retained response gets what the invocation would have handed over
/// to a buffer of that size, byte for byte and with the same length and status; it is told that
/// there is none only where there is none.
pub proof fn law_taking_is_delivering_again(
    pending: Option<Seq<u8>>,
    output_cap: usize,
)
    requires
        pending matches Some(response) ==> response.len() <= usize::MAX,
    ensures
        ({
            let reply = taken(pending, true, output_cap, true);
            let retained = retained_by_taking(pending, true, output_cap, true);
            &&& pending matches Some(response) ==> {
                &&& reply == finished(0, pending, output_cap)
                &&& reply.output_len is Some
                &&& reply.output_len->0 as int == response.len()
                &&& reply.status == (if response.len() <= output_cap {
                    0i32
                } else {
                    307i32
                })
                &&& reply.output == (if response.len() <= output_cap {
                    pending
                } else {
                    None
                })
                &&& retained == (if response.len() <= output_cap {
                    None
                } else {
                    pending
                })
            }
            &&& pending is None <==> reply.status == 320
            &&& pending is None ==> reply.output_len is None && reply.output is None
            &&& pending is None ==> retained is None
        }),
{
}

/// A call that cannot be answered, for want of a place to write to, changes nothing.
pub proof fn law_malformed_take_keeps_the_response(
    pending: Option<Seq<u8>>,
    output: bool,
    output_cap: usize,
    output_len: bool,
)
    requires
        !output || !output_len,
    ensures
        taken(pending, output, output_cap, output_len) == (Delivered {
            status: 300,
            output_len: None,
            output: None,
        }),
        retained_by_taking(pending, output, output_cap, output_len) == pending,
{
}

} // verus!

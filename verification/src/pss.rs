//! The pss messaging channel: publishing over HTTP and the decision logic of
//! the WebSocket subscription loop.
//!
//! The subscription loop itself performs I/O and lives with the caller: it
//! reads one frame at a time and asks [`subscribe_step`] what to do with it.
//! Empty frames are keepalives and are discarded; non-empty frames are
//! delivered in arrival order; a failed read is reported and the loop goes on.

use vstd::prelude::*;
use vstd::string::*;

verus! {

use crate::BeeError;
use crate::header_views;

/// One message delivered to the consumer of a subscription: an opaque byte
/// sequence with no identity beyond arrival order.
#[derive(Debug, Clone)]
pub struct RawMessage {
    pub data: Vec<u8>,
}

/// What the subscription loop observed on the socket.
#[derive(Debug)]
pub enum SocketEvent {
    /// A frame arrived, holding these bytes.
    Frame { data: Vec<u8> },
    /// The read failed; the connection is left as it is.
    ReadFailure { msg: String },
}

/// What the subscription loop must do next. No event ends the loop: it runs
/// until cancelled from outside.
#[derive(Debug)]
pub enum SubscribeAction {
    /// Hand the message to the consumer.
    Deliver { message: RawMessage },
    /// A keepalive: deliver nothing, read on.
    DiscardEmpty,
    /// Report the failed read, keep the connection and read on.
    ReportReadFailure { msg: String },
}

/// The decision of one turn of the subscription loop: empty frames are
/// discarded, non-empty frames are delivered unchanged, and a read failure is
/// reported without ending the loop.
pub fn subscribe_step(event: SocketEvent) -> (r: SubscribeAction)
    ensures
        match event {
            SocketEvent::Frame { data } => {
                if data@.len() == 0 {
                    r is DiscardEmpty
                } else {
                    r matches SubscribeAction::Deliver { message } && message.data == data
                }
            },
            SocketEvent::ReadFailure { msg } => (r matches SubscribeAction::ReportReadFailure {
                msg: m,
            } && m == msg),
        },
{
    match event {
        SocketEvent::Frame { data } => {
            if data.len() == 0 {
                SubscribeAction::DiscardEmpty
            } else {
                SubscribeAction::Deliver { message: RawMessage { data } }
            }
        },
        SocketEvent::ReadFailure { msg } => SubscribeAction::ReportReadFailure { msg },
    }
}

/// The frames of a run of the subscription loop that reach the consumer: the
/// non-empty ones, in arrival order.
pub open spec fn delivered(frames: Seq<Seq<u8>>) -> Seq<Seq<u8>>
    decreases frames.len(),
{
    if frames.len() == 0 {
        Seq::empty()
    } else {
        let rest = delivered(frames.drop_last());
        if frames.last().len() > 0 {
            rest.push(frames.last())
        } else {
            rest
        }
    }
}

/// Replays a run of the subscription loop over the given frames: exactly the
/// non-empty frames come out, in order, each unchanged.
pub fn deliverable_frames(frames: Vec<Vec<u8>>) -> (r: Vec<Vec<u8>>)
    ensures
        r.deep_view() == delivered(frames.deep_view()),
{
    let mut out: Vec<Vec<u8>> = Vec::new();
    let mut i: usize = 0;
    let n = frames.len();
    while i < n
        invariant
            n == frames.len(),
            i <= n,
            out.deep_view() == delivered(frames.deep_view().take(i as int)),
        decreases n - i,
    {
        let frame = frames[i].clone();
        proof {
            assert(frame@ == frames.deep_view()[i as int]);
        }
        match subscribe_step(SocketEvent::Frame { data: frame }) {
            SubscribeAction::Deliver { message } => {
                out.push(message.data);
            },
            _ => {},
        }
        proof {
            let taken = frames.deep_view().take(i as int + 1);
            assert(taken.drop_last() =~= frames.deep_view().take(i as int));
            assert(taken.last() == frames.deep_view()[i as int]);
            assert(out.deep_view() =~= delivered(taken));
        }
        i = i + 1;
    }
    proof {
        assert(frames.deep_view().take(n as int) =~= frames.deep_view());
    }
    out
}

/// The URL of a publish request.
pub fn publish_url(endpoint: &str, topic: &str, targets: &str, recipient: &str) -> (r: String)
    ensures
        r@ == endpoint@ + "/pss/send/"@ + topic@ + "/"@ + targets@ + "?recipient="@ + recipient@,
{
    let mut s = endpoint.to_owned();
    s.append("/pss/send/");
    s.append(topic);
    s.append("/");
    s.append(targets);
    s.append("?recipient=");
    s.append(recipient);
    s
}

/// The header list of a publish request: the stamp alone.
pub fn publish_headers(postage_batch_id: &str) -> (r: Vec<(String, String)>)
    ensures
        header_views(r@) =~= seq![("swarm-postage-batch-id"@, postage_batch_id@)],
{
    let mut hs: Vec<(String, String)> = Vec::new();
    hs.push(("swarm-postage-batch-id".to_owned(), postage_batch_id.to_owned()));
    proof {
        assert(header_views(hs@) =~= seq![("swarm-postage-batch-id"@, postage_batch_id@)]);
    }
    hs
}

/// Classifies a failure to open a subscription. An endpoint that is not a
/// valid URL never reached the network, so no connection was attempted: that
/// is a transport error. Any other failure is a failed WebSocket handshake.
/// Both are terminal: the subscription never starts streaming.
pub fn connect_failure(invalid_url: bool, msg: String) -> (r: BeeError)
    ensures
        invalid_url ==> (r matches BeeError::TransportError { msg: m } && m == msg),
        !invalid_url ==> (r matches BeeError::ConnectError { msg: m } && m == msg),
{
    if invalid_url {
        BeeError::TransportError { msg }
    } else {
        BeeError::ConnectError { msg }
    }
}

/// The URL a subscription connects to.
pub fn subscribe_url(endpoint: &str, topic: &str) -> (r: String)
    ensures
        r@ == endpoint@ + "/pss/subscribe/"@ + topic@,
{
    let mut s = endpoint.to_owned();
    s.append("/pss/subscribe/");
    s.append(topic);
    s
}

/// Classifies the response of a publish. Success is exactly status 201: any
/// other status, other 2xx codes included, is a remote error carrying that
/// status and the best-effort body text. This is deliberately narrower than
/// the 2xx rule of the rest of the interface.
pub fn publish_response(status: u16, body: Vec<u8>) -> (r: Result<(), BeeError>)
    ensures
        r is Ok <==> status == 201,
        status != 201 ==> r == Err::<(), BeeError>(crate::BeeError::RemoteError { status, body }),
{
    if status == 201 {
        Ok(())
    } else {
        Err(crate::BeeError::RemoteError { status, body })
    }
}

} // verus!

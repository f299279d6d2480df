//! The client handle of the cloud REST proxy actor: requests go out through
//! a shared sender, and the matching result comes back over a private
//! channel of capacity one — at most one response is ever outstanding.
//!
//! The HTTP work happens in the proxy actor behind the channel; what a
//! request is, and what each kind of answer means to the caller, is decided
//! here.

use vstd::prelude::*;

use crate::channels::new_mailbox;
use crate::channels::Address;
use crate::channels::Mailbox;
use crate::channels::Sender;
use crate::errors::ChannelError;

verus! {

/// A request addressed to the cloud REST proxy.
#[derive(Debug, Clone, PartialEq, Eq)]
pub enum C8YRestRequest {
    /// Create an event from this payload.
    CreateEvent(String),
    /// Send a software list update with this payload.
    SoftwareListUpdate(String),
    /// Upload a log file.
    UploadLogBinary { log_type: String, log_content: String, child_device_id: Option<String> },
    /// Upload a configuration file.
    UploadConfigFile { config_path: String, config_type: String, child_device_id: Option<String> },
    /// Download a file to the given path.
    DownloadFile { download_url: String, file_path: String },
}

/// A successful answer from the cloud REST proxy.
#[derive(Debug, Clone, PartialEq, Eq)]
pub enum C8YRestResponse {
    /// The identifier of the event the request created.
    EventId(String),
    /// The request succeeded and returns nothing.
    Unit,
}

/// A failure reported by the cloud REST proxy.
#[derive(Debug, Clone, Copy, PartialEq, Eq, Structural)]
pub enum C8YRestError {
    /// The proxy's channel is gone, or it sent nothing back.
    ChannelError,
    /// The proxy answered with a response of the wrong shape.
    UnexpectedResponse,
}

/// The outcome of one proxied request.
pub type C8YRestResult = Result<C8YRestResponse, C8YRestError>;

/// A connection provider for the proxy: wiring a client's response sender in
/// yields the sender its requests go out through.
///
/// The concrete proxy builders implement this to hand each client its pair
/// of channel ends.
pub trait C8YConnectionBuilder {
    /// Connect one client: take where its responses go, give where its
    /// requests go.
    fn connect(&mut self, response_sender: Address<C8YRestResult>) -> Address<C8YRestRequest>;
}

/// Handle to the cloud REST proxy actor.
pub struct C8YHttpProxy {
    /// Where this handle's requests go.
    pub request_sender: Address<C8YRestRequest>,
    /// Where the proxy's answers to this handle arrive.
    pub response_receiver: Mailbox<C8YRestResult>,
}

impl C8YHttpProxy {
    /// A new handle connected to the given proxy.
    ///
    /// The response channel has capacity one: at most one response is ever
    /// expected.
    pub fn new(proxy: &mut impl C8YConnectionBuilder) -> (r: C8YHttpProxy)
        ensures
            r.response_receiver.wf(),
            r.response_receiver.queue@ == Seq::<C8YRestResult>::empty(),
            r.response_receiver.capacity == 1,
            r.response_receiver.senders == 1,
    {
        let (response_receiver, response_sender) = new_mailbox::<C8YRestResult>(1);
        let request_sender = proxy.connect(response_sender);
        C8YHttpProxy { request_sender, response_receiver }
    }

    /// What an answer that should carry an event identifier means: the
    /// identifier on the expected shape, a channel failure when nothing can
    /// arrive anymore, and an error on any other shape.
    pub fn expect_event_id(response: Option<C8YRestResult>) -> (r: Result<String, C8YRestError>)
        ensures
            (match response {
                Some(Ok(C8YRestResponse::EventId(id))) => r == Result::<
                    String,
                    C8YRestError,
                >::Ok(id),
                Some(Ok(C8YRestResponse::Unit)) => r == Result::<String, C8YRestError>::Err(
                    C8YRestError::UnexpectedResponse,
                ),
                Some(Err(e)) => r == Result::<String, C8YRestError>::Err(e),
                None => r == Result::<String, C8YRestError>::Err(C8YRestError::ChannelError),
            }),
    {
        match response {
            Some(Ok(C8YRestResponse::EventId(id))) => Ok(id),
            Some(Ok(C8YRestResponse::Unit)) => Err(C8YRestError::UnexpectedResponse),
            Some(Err(e)) => Err(e),
            None => Err(C8YRestError::ChannelError),
        }
    }

    /// What an answer that should carry nothing means: success on the
    /// expected shape, a channel failure when nothing can arrive anymore,
    /// and an error on any other shape.
    pub fn expect_unit(response: Option<C8YRestResult>) -> (r: Result<(), C8YRestError>)
        ensures
            (match response {
                Some(Ok(C8YRestResponse::Unit)) => r is Ok,
                Some(Ok(C8YRestResponse::EventId(_))) => r == Result::<(), C8YRestError>::Err(
                    C8YRestError::UnexpectedResponse,
                ),
                Some(Err(e)) => r == Result::<(), C8YRestError>::Err(e),
                None => r == Result::<(), C8YRestError>::Err(C8YRestError::ChannelError),
            }),
    {
        match response {
            Some(Ok(C8YRestResponse::Unit)) => Ok(()),
            Some(Ok(C8YRestResponse::EventId(_))) => Err(C8YRestError::UnexpectedResponse),
            Some(Err(e)) => Err(e),
            None => Err(C8YRestError::ChannelError),
        }
    }

    /// Hand one request to the proxy.
    pub fn send_request(&mut self, request: C8YRestRequest) -> (r: Result<(), ChannelError>)
        ensures
            r is Ok <==> !old(self).request_sender.peer_closed,
            r is Ok ==> final(self).request_sender.sent() == old(self).request_sender.sent().push(
                request,
            ),
            final(self).response_receiver == old(self).response_receiver,
    {
        crate::channels::Sender::send(&mut self.request_sender, request)
    }
}

} // verus!

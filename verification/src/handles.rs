//! The client-side handle of a request/response service: one outstanding
//! request at a time, answered by exactly one response.

use vstd::prelude::*;

use crate::channels::RecvOutcome;
use crate::channels::Sender;
use crate::errors::ChannelError;
use crate::message_boxes::transfer;
use crate::message_boxes::MessageBox;
use crate::message_boxes::SimpleMessageBox;

verus! {

/// The capacity of a handler's channels: at most one response is ever
/// expected.
pub const HANDLER_CAPACITY: usize = 1;

/// Client-side handler of requests and responses exchanged with a service.
///
/// Note that the box inside sends requests and receives responses, so its
/// input and output are swapped with respect to the service's own box.
pub struct RequestResponseHandler<Request, Response> {
    /// This handler's half of the connection to the service.
    pub messages: SimpleMessageBox<Response, Request>,
}

impl<Request, Response> RequestResponseHandler<Request, Response> {
    /// The handler's channel is well formed.
    pub open spec fn wf(&self) -> bool {
        self.messages.wf()
    }

    /// A handler over an existing box whose output goes to the service.
    pub fn new(messages: SimpleMessageBox<Response, Request>) -> (r: RequestResponseHandler<
        Request,
        Response,
    >)
        ensures
            r.messages == messages,
    {
        RequestResponseHandler { messages }
    }

    /// A handler along the service-side box it talks to.
    ///
    /// Both channels have capacity one: a handler never has more than one
    /// request in flight, and never expects more than one response.
    pub fn new_channel(client_name: &str) -> (r: (
        SimpleMessageBox<Request, Response>,
        RequestResponseHandler<Request, Response>,
    ))
        ensures
            r.0.wf(),
            r.1.wf(),
            r.0.name@ == client_name@,
            r.1.messages.name@ == client_name@,
            r.0.inputs() == Seq::<Request>::empty(),
            r.0.output.pending@ == Seq::<Response>::empty(),
            r.0.input.senders == 1,
            r.0.input.capacity == HANDLER_CAPACITY,
            r.0.output_open,
            !r.0.output.peer_closed,
            r.1.messages.inputs() == Seq::<Response>::empty(),
            r.1.messages.output.pending@ == Seq::<Request>::empty(),
            r.1.messages.input.senders == 1,
            r.1.messages.input.capacity == HANDLER_CAPACITY,
            r.1.messages.output_open,
            !r.1.messages.output.peer_closed,
    {
        let (mailbox, sender) = crate::channels::new_mailbox::<Request>(HANDLER_CAPACITY);
        let (response_mailbox, response_sender) = crate::channels::new_mailbox::<Response>(
            HANDLER_CAPACITY,
        );
        let service_box = SimpleMessageBox::new(client_name.to_owned(), mailbox, response_sender);
        let client_box = SimpleMessageBox::new(client_name.to_owned(), response_mailbox, sender);
        (service_box, RequestResponseHandler { messages: client_box })
    }

    /// Send one request to the service.
    ///
    /// Succeeds exactly when the service's end is still there; the matching
    /// response is picked up with [`RequestResponseHandler::take_response`]
    /// once the service has answered.
    pub fn send_request(&mut self, request: Request) -> (r: Result<(), ChannelError>)
        ensures
            r is Ok <==> old(self).messages.send_succeeds(),
            (old(self).messages.output_open && !old(self).messages.output.peer_closed) ==> {
                &&& final(self).messages.outputs() == old(self).messages.outputs().push(request)
                &&& final(self).messages.output.pending@ == old(
                    self,
                ).messages.output.pending@.push(request)
            },
            r is Err ==> *final(self) == *old(self),
            final(self).messages.input == old(self).messages.input,
            final(self).messages.output_open == old(self).messages.output_open,
            final(self).messages.output.peer_closed == old(self).messages.output.peer_closed,
    {
        self.messages.send(request)
    }

    /// Take the response to the request sent before, if it has arrived.
    ///
    /// Returns the response once it is there, nothing while the service is
    /// still working, and a channel error if the service's end is gone — the
    /// request can then never be answered.
    pub fn take_response(&mut self) -> (r: Result<Option<Response>, ChannelError>)
        ensures
            old(self).messages.inputs().len() > 0 ==> (r matches Ok(o) && o matches Some(m) && m
                == old(self).messages.inputs()[0] && final(self).messages.inputs() == old(
                self,
            ).messages.inputs().skip(1)),
            old(self).messages.inputs().len() == 0 && old(self).messages.input.senders > 0 ==> (
            r matches Ok(o) && o is None && *final(self) == *old(self)),
            old(self).messages.input.is_closed() ==> r == Result::<
                Option<Response>,
                ChannelError,
            >::Err(ChannelError::ReceiveError) && *final(self) == *old(self),
            final(self).messages.output == old(self).messages.output,
            final(self).messages.output_open == old(self).messages.output_open,
    {
        match self.messages.recv() {
            RecvOutcome::Message(response) => Ok(Some(response)),
            RecvOutcome::Pending => Ok(None),
            RecvOutcome::Closed => Err(ChannelError::ReceiveError),
        }
    }
}

impl<Request, Response> MessageBox for RequestResponseHandler<Request, Response> {
    type Input = Response;

    type Output = Request;

    open spec fn inputs(&self) -> Seq<Response> {
        self.messages.input.queue@
    }

    open spec fn input_open(&self) -> bool {
        self.messages.input.senders > 0
    }

    open spec fn outputs(&self) -> Seq<Request> {
        self.messages.output.sent()
    }

    open spec fn records_outputs(&self) -> bool {
        self.messages.output_open
    }

    open spec fn send_succeeds(&self) -> bool {
        self.messages.output_open ==> !self.messages.output.peer_closed
    }

    open spec fn box_name(&self) -> Seq<char> {
        self.messages.name@
    }

    open spec fn logging(&self) -> bool {
        self.messages.logging_is_on
    }

    fn recv(&mut self) -> (r: RecvOutcome<Response>) {
        self.messages.recv()
    }

    fn send(&mut self, message: Request) -> (r: Result<(), ChannelError>) {
        self.messages.send(message)
    }

    fn turn_logging_on(&mut self, on: bool) {
        self.messages.turn_logging_on(on)
    }

    fn name(&self) -> (r: &str) {
        self.messages.name()
    }

    fn logging_is_on(&self) -> (r: bool) {
        self.messages.logging_is_on()
    }
}

/// The single-shot round trip, checked end to end against an echoing
/// service: a handler that sends any request to a service which answers with
/// exactly what it was asked gets back exactly that value.
///
/// The function performs the full exchange — request sent, delivered to the
/// service, echoed, delivered back, response taken — and its contract states
/// that the handler receives the very request it sent.
pub fn echo_round_trip<T: Copy>(request: T) -> (r: T)
    ensures
        r == request,
{
    let (mut service, mut handler) = RequestResponseHandler::<T, T>::new_channel("echo-client");

    let sent = handler.send_request(request);
    assert(sent is Ok);

    // The executor's delivery step: the request reaches the service.
    transfer(&mut handler.messages, &mut service);
    assert(service.inputs() =~= seq![request]);

    // The service echoes its input.
    let echoed = match service.recv() {
        RecvOutcome::Message(m) => m,
        _ => request,
    };
    let answered = service.send(echoed);
    assert(answered is Ok);

    // The executor's delivery step: the response reaches the handler.
    transfer(&mut service, &mut handler.messages);
    assert(handler.messages.inputs() =~= seq![request]);

    let response = match handler.take_response() {
        Ok(Some(m)) => m,
        _ => request,
    };
    response
}

} // verus!

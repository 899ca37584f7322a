//! The exchange of requests and replies with the engine.
//!
//! The engine answers one request at a time, so the connection carries one exchange
//! at a time: a request is encoded and written, and the next message that arrives is
//! its reply. An [`API`] keeps track of where the connection stands, encodes the
//! requests and decodes the replies. Whoever owns the socket writes and reads the
//! messages, under a lock that it holds for the whole operation, and reports how
//! that went. A failure of any work fails the operation with a [`TransportError`]
//! and leaves the connection unusable: nothing is tried again.

use protobuf::{Message, ProtobufError};
use sc2_proto::sc2api::{Request, Response};
use vstd::prelude::*;

verus! {

/// A request of the engine's schema.
#[verifier::external_type_specification]
#[verifier::external_body]
pub struct ExRequest(Request);

/// A response of the engine's schema.
#[verifier::external_type_specification]
#[verifier::external_body]
pub struct ExResponse(Response);

/// The error of the protocol buffers.
#[verifier::external_type_specification]
#[verifier::external_body]
pub struct ExProtobufError(ProtobufError);

/// What `Message::write_to_bytes` makes of a request: its bytes in the wire format,
/// and `None` where the request does not encode.
pub uninterp spec fn request_bytes(req: Request) -> Option<Seq<u8>>;

/// What `Message::merge_from_bytes` reads into a new response: the response that
/// the bytes hold in the wire format, and `None` where they hold none.
pub uninterp spec fn parsed_response(bytes: Seq<u8>) -> Option<Response>;

/// `Message::write_to_bytes`: the request in the wire format, or an error where a
/// required field of the request is not set.
#[verifier::external_body]
fn write_to_bytes(req: &Request) -> (written: Result<Vec<u8>, ProtobufError>)
    ensures
        written is Ok <==> request_bytes(*req) is Some,
        written is Ok ==> request_bytes(*req) == Some(written->Ok_0@),
{
    req.write_to_bytes()
}

/// `Message::merge_from_bytes` into a new response: the response that the bytes hold
/// in the wire format, or an error where they hold none.
#[verifier::external_body]
fn parse_response(bytes: &[u8]) -> (parsed: Result<Response, ProtobufError>)
    ensures
        parsed is Ok <==> parsed_response(bytes@) is Some,
        parsed is Ok ==> parsed_response(bytes@) == Some(parsed->Ok_0),
{
    let mut response = Response::new();
    match response.merge_from_bytes(bytes) {
        Ok(()) => Ok(response),
        Err(error) => Err(error),
    }
}

/// The four operations on the connection.
#[derive(Clone, Copy, Debug, PartialEq, Eq, Structural)]
pub enum Operation {
    /// Sends a request and returns the reply.
    Send,
    /// Sends a request and waits for the reply, which is decoded and dropped.
    SendRequest,
    /// Sends a request without waiting for the reply.
    SendOnly,
    /// Waits for the reply to a request that was sent before and returns it.
    WaitResponse,
}

/// One piece of work on a message.
#[derive(Clone, Copy, Debug, PartialEq, Eq, Structural)]
pub enum Work {
    /// Serialize the request.
    Encode,
    /// Write the serialized request to the socket as one binary message.
    Write,
    /// Block until the next binary message arrives.
    Read,
    /// Parse the message that arrived.
    Decode,
}

/// Why an operation failed.
#[derive(Clone, Copy, Debug, PartialEq, Eq, Structural)]
pub enum TransportError {
    /// The request could not be serialized.
    Encode,
    /// The socket refused the message.
    Write,
    /// The socket failed before a message arrived.
    Read,
    /// The message that arrived is not a reply of the schema.
    Decode,
}

impl TransportError {
    /// What went wrong, in words.
    pub open spec fn text(self) -> Seq<char> {
        match self {
            TransportError::Encode => "failed to encode the request"@,
            TransportError::Write => "failed to write to the socket"@,
            TransportError::Read => "failed to read from the socket"@,
            TransportError::Decode => "failed to decode the response"@,
        }
    }

    /// What went wrong, in words.
    pub fn message(&self) -> (message: &'static str)
        ensures
            message@ == self.text(),
    {
        match self {
            TransportError::Encode => "failed to encode the request",
            TransportError::Write => "failed to write to the socket",
            TransportError::Read => "failed to read from the socket",
            TransportError::Decode => "failed to decode the response",
        }
    }
}

/// What the owner of the socket does next.
#[derive(Clone, Copy, Debug, PartialEq, Eq, Structural)]
pub enum Action {
    /// Perform this work and report how it went.
    Do(Work),
    /// The operation is complete. With `reply` set, the reply that was decoded last
    /// goes to the caller.
    Done { reply: bool },
    /// The operation failed, and the connection is not to be used again.
    Failed(TransportError),
}

impl Work {
    /// Whether the work is done on the socket, by its owner.
    pub open spec fn on_socket(self) -> bool {
        self == Work::Write || self == Work::Read
    }

    /// The error of an operation in which this work failed.
    pub open spec fn error(self) -> TransportError {
        match self {
            Work::Encode => TransportError::Encode,
            Work::Write => TransportError::Write,
            Work::Read => TransportError::Read,
            Work::Decode => TransportError::Decode,
        }
    }
}

impl Operation {
    /// The work of the operation, in the order in which it is performed.
    pub open spec fn works(self) -> Seq<Work> {
        match self {
            Operation::Send => seq![Work::Encode, Work::Write, Work::Read, Work::Decode],
            Operation::SendRequest => seq![Work::Encode, Work::Write, Work::Read, Work::Decode],
            Operation::SendOnly => seq![Work::Encode, Work::Write],
            Operation::WaitResponse => seq![Work::Read, Work::Decode],
        }
    }

    /// Whether the operation writes a request.
    pub open spec fn sends(self) -> bool {
        self != Operation::WaitResponse
    }

    /// Whether the operation hands a reply to its caller.
    pub open spec fn returns_reply(self) -> bool {
        self == Operation::Send || self == Operation::WaitResponse
    }

    /// The work at a position of the operation, `None` behind its end.
    fn work_at(self, position: usize) -> (work: Option<Work>)
        ensures
            work == if position < self.works().len() {
                Some(self.works()[position as int])
            } else {
                None
            },
    {
        match self {
            Operation::Send | Operation::SendRequest => match position {
                0 => Some(Work::Encode),
                1 => Some(Work::Write),
                2 => Some(Work::Read),
                3 => Some(Work::Decode),
                _ => None,
            },
            Operation::SendOnly => match position {
                0 => Some(Work::Encode),
                1 => Some(Work::Write),
                _ => None,
            },
            Operation::WaitResponse => match position {
                0 => Some(Work::Read),
                1 => Some(Work::Decode),
                _ => None,
            },
        }
    }
}

/// An operation that holds the connection.
#[derive(Clone, Copy, Debug, PartialEq, Eq, Structural)]
pub struct Running {
    pub operation: Operation,
    /// The position, in the operation's work, of the work that is being performed.
    pub position: usize,
}

impl Running {
    /// The work that is being performed.
    pub open spec fn work(self) -> Work {
        self.operation.works()[self.position as int]
    }
}

/// Where the connection stands.
#[derive(Clone, Copy, Debug, PartialEq, Eq, Structural)]
pub struct Link {
    /// The operation that holds the connection, if one does.
    pub running: Option<Running>,
    /// A request was written and its reply was not read yet.
    pub awaiting_reply: bool,
    /// An operation failed.
    pub broken: bool,
}

impl Link {
    /// A fresh connection: nothing runs, nothing is awaited, nothing failed.
    pub open spec fn ready() -> Link {
        Link { running: None, awaiting_reply: false, broken: false }
    }

    /// The position of the running operation lies within its work.
    pub open spec fn wf(self) -> bool {
        match self.running {
            Some(running) => running.position < running.operation.works().len(),
            None => true,
        }
    }

    /// Whether an operation may begin: the connection is intact, no other operation
    /// holds it, and no request is sent while the reply to another is still to come.
    pub open spec fn admits(self, operation: Operation) -> bool {
        &&& !self.broken
        &&& self.running is None
        &&& operation.sends() ==> !self.awaiting_reply
    }

    /// The state in which `operation` has begun.
    pub open spec fn begun(self, operation: Operation) -> Link {
        Link { running: Some(Running { operation, position: 0 }), ..self }
    }

    /// The state after the work that was being performed went as `succeeded` says,
    /// and what to do then. A written request awaits its reply until a message is
    /// read. After the last work the operation is done; after a failure it has
    /// failed and the connection is broken.
    pub open spec fn advanced(self, succeeded: bool) -> (Link, Action)
        recommends
            self.running is Some,
            self.wf(),
    {
        let operation = self.running->0.operation;
        let position = self.running->0.position;
        let work = self.running->0.work();
        if !succeeded {
            (Link { running: None, broken: true, ..self }, Action::Failed(work.error()))
        } else {
            let awaiting_reply = match work {
                Work::Write => true,
                Work::Read => false,
                _ => self.awaiting_reply,
            };
            if position + 1 < operation.works().len() {
                (
                    Link {
                        running: Some(
                            Running { operation, position: (position + 1) as usize },
                        ),
                        awaiting_reply,
                        ..self
                    },
                    Action::Do(operation.works()[position + 1]),
                )
            } else {
                (
                    Link { running: None, awaiting_reply, ..self },
                    Action::Done { reply: operation.returns_reply() },
                )
            }
        }
    }

    /// The state after `count` pieces of work went well, one after the other.
    pub open spec fn succeeded(self, count: nat) -> Link
        decreases count,
    {
        if count == 0 {
            self
        } else {
            self.advanced(true).0.succeeded((count - 1) as nat)
        }
    }
}

/// An operation in which all work goes well releases the connection intact. It
/// leaves a reply to come exactly where it wrote a request and did not read: after
/// `send_only`. The three other operations leave none, whatever was to come before.
pub proof fn completed_operation_pairs_replies(link: Link, operation: Operation)
    requires
        link.admits(operation),
    ensures
        link.begun(operation).succeeded(operation.works().len()) == (Link {
            running: None,
            awaiting_reply: operation == Operation::SendOnly,
            broken: false,
        }),
{
    reveal_with_fuel(Link::succeeded, 5);
}

/// A failure at any position ends the operation with the error of the work that
/// failed and breaks the connection, which then admits no operation.
pub proof fn failure_breaks_the_connection(link: Link, other: Operation)
    requires
        link.running is Some,
        link.wf(),
    ensures
        link.advanced(false).1 == Action::Failed(link.running->0.work().error()),
        !link.advanced(false).0.admits(other),
{
}

/// Requests and replies alternate: while a reply is to come, no operation that
/// sends is admitted, so the next message read is the reply to the last request.
pub proof fn replies_pair_with_requests(link: Link, operation: Operation)
    requires
        link.awaiting_reply,
        link.admits(operation),
    ensures
        operation == Operation::WaitResponse,
{
}

/// Keeps track of the connection to the engine.
#[derive(Debug)]
pub struct API {
    link: Link,
}

impl View for API {
    type V = Link;

    closed spec fn view(&self) -> Link {
        self.link
    }
}

impl API {
    #[verifier::type_invariant]
    spec fn well_formed(self) -> bool {
        self.link.wf()
    }

    /// The tracker of a fresh connection.
    pub fn new() -> (api: API)
        ensures
            api@ == Link::ready(),
    {
        API { link: Link { running: None, awaiting_reply: false, broken: false } }
    }

    /// Whether an operation failed on the connection.
    pub fn is_broken(&self) -> (broken: bool)
        ensures
            broken == self@.broken,
    {
        self.link.broken
    }

    /// Whether a request was written whose reply was not read yet.
    pub fn awaits_reply(&self) -> (awaiting: bool)
        ensures
            awaiting == self@.awaiting_reply,
    {
        self.link.awaiting_reply
    }

    /// Whether an operation holds the connection.
    pub fn is_running(&self) -> (running: bool)
        ensures
            running == self@.running is Some,
    {
        self.link.running.is_some()
    }

    /// Whether the operation may begin now.
    pub fn admits(&self, operation: Operation) -> (admitted: bool)
        ensures
            admitted == self@.admits(operation),
    {
        !self.link.broken && self.link.running.is_none() && (matches!(
            operation,
            Operation::WaitResponse
        ) || !self.link.awaiting_reply)
    }

    /// The work that is being performed, if an operation runs.
    pub fn pending_work(&self) -> (work: Option<Work>)
        ensures
            work == match self@.running {
                Some(running) => Some(running.work()),
                None => None,
            },
    {
        proof {
            use_type_invariant(self);
        }
        match self.link.running {
            Some(running) => running.operation.work_at(running.position),
            None => None,
        }
    }

    /// Begins an operation and says what its first work is.
    pub fn begin(&mut self, operation: Operation) -> (action: Action)
        requires
            old(self)@.admits(operation),
        ensures
            final(self)@ == old(self)@.begun(operation),
            action == Action::Do(operation.works()[0]),
    {
        proof {
            use_type_invariant(&*self);
        }
        self.link.running = Some(Running { operation, position: 0 });
        match operation.work_at(0) {
            Some(work) => Action::Do(work),
            None => Action::Done { reply: false },
        }
    }

    fn step(&mut self, succeeded: bool) -> (action: Action)
        requires
            old(self)@.running is Some,
        ensures
            final(self)@ == old(self)@.advanced(succeeded).0,
            action == old(self)@.advanced(succeeded).1,
    {
        proof {
            use_type_invariant(&*self);
        }
        let (operation, position) = match self.link.running {
            Some(running) => (running.operation, running.position),
            None => {
                return Action::Done { reply: false };
            },
        };
        let work = match operation.work_at(position) {
            Some(work) => work,
            None => {
                return Action::Done { reply: false };
            },
        };
        if !succeeded {
            self.link.running = None;
            self.link.broken = true;
            return Action::Failed(
                match work {
                    Work::Encode => TransportError::Encode,
                    Work::Write => TransportError::Write,
                    Work::Read => TransportError::Read,
                    Work::Decode => TransportError::Decode,
                },
            );
        }
        match work {
            Work::Write => {
                self.link.awaiting_reply = true;
            },
            Work::Read => {
                self.link.awaiting_reply = false;
            },
            _ => {},
        }
        match operation.work_at(position + 1) {
            Some(next) => {
                self.link.running = Some(Running { operation, position: position + 1 });
                Action::Do(next)
            },
            None => {
                self.link.running = None;
                Action::Done {
                    reply: matches!(operation, Operation::Send | Operation::WaitResponse),
                }
            },
        }
    }

    /// Takes note of how the encoding of the request went: the bytes are handed on
    /// for writing, and an error fails the operation.
    pub fn finish_encode(&mut self, outcome: Result<Vec<u8>, ProtobufError>) -> (encoded: Result<
        Vec<u8>,
        TransportError,
    >)
        requires
            old(self)@.running is Some,
            old(self)@.running->0.work() == Work::Encode,
        ensures
            final(self)@ == old(self)@.advanced(outcome is Ok).0,
            outcome is Ok ==> encoded == Ok::<Vec<u8>, TransportError>(outcome->Ok_0),
            outcome is Err ==> encoded == Err::<Vec<u8>, TransportError>(TransportError::Encode),
    {
        match outcome {
            Ok(bytes) => {
                let _ = self.step(true);
                Ok(bytes)
            },
            Err(_) => {
                let _ = self.step(false);
                Err(TransportError::Encode)
            },
        }
    }

    /// Takes note of how the decoding of the message went, which ends the operation:
    /// the reply goes to the caller where the operation returns one and is dropped
    /// where not, and an error fails the operation.
    pub fn finish_decode(&mut self, outcome: Result<Response, ProtobufError>) -> (decoded: Result<
        Option<Response>,
        TransportError,
    >)
        requires
            old(self)@.running is Some,
            old(self)@.running->0.work() == Work::Decode,
        ensures
            final(self)@ == old(self)@.advanced(outcome is Ok).0,
            outcome is Ok ==> decoded == Ok::<Option<Response>, TransportError>(
                if old(self)@.running->0.operation.returns_reply() {
                    Some(outcome->Ok_0)
                } else {
                    None
                },
            ),
            outcome is Err ==> decoded == Err::<Option<Response>, TransportError>(
                TransportError::Decode,
            ),
    {
        match outcome {
            Ok(response) => match self.step(true) {
                Action::Done { reply: true } => Ok(Some(response)),
                _ => Ok(None),
            },
            Err(_) => {
                let _ = self.step(false);
                Err(TransportError::Decode)
            },
        }
    }

    fn begin_with(&mut self, operation: Operation, req: &Request) -> (encoded: Result<
        Vec<u8>,
        TransportError,
    >)
        requires
            old(self)@.admits(operation),
            operation.sends(),
        ensures
            final(self)@ == old(self)@.begun(operation).advanced(encoded is Ok).0,
            encoded is Err ==> encoded->Err_0 == TransportError::Encode,
            encoded is Ok <==> request_bytes(*req) is Some,
            encoded is Ok ==> request_bytes(*req) == Some(encoded->Ok_0@),
    {
        let _ = self.begin(operation);
        self.finish_encode(write_to_bytes(req))
    }

    /// Begins sending a request whose reply goes to the caller, and encodes the
    /// request. Where the request encodes, its bytes are returned, to be written to
    /// the socket as one binary message; then the next message is to be read and
    /// handed to [`API::receive`]. Where it does not, the operation has failed.
    pub fn send(&mut self, req: &Request) -> (encoded: Result<Vec<u8>, TransportError>)
        requires
            old(self)@.admits(Operation::Send),
        ensures
            final(self)@ == old(self)@.begun(Operation::Send).advanced(encoded is Ok).0,
            encoded is Err ==> encoded->Err_0 == TransportError::Encode,
            encoded is Ok <==> request_bytes(*req) is Some,
            encoded is Ok ==> request_bytes(*req) == Some(encoded->Ok_0@),
    {
        self.begin_with(Operation::Send, req)
    }

    /// Begins sending a request whose reply is waited for, decoded and dropped,
    /// and encodes the request.
    pub fn send_request(&mut self, req: &Request) -> (encoded: Result<Vec<u8>, TransportError>)
        requires
            old(self)@.admits(Operation::SendRequest),
        ensures
            final(self)@ == old(self)@.begun(Operation::SendRequest).advanced(encoded is Ok).0,
            encoded is Err ==> encoded->Err_0 == TransportError::Encode,
            encoded is Ok <==> request_bytes(*req) is Some,
            encoded is Ok ==> request_bytes(*req) == Some(encoded->Ok_0@),
    {
        self.begin_with(Operation::SendRequest, req)
    }

    /// Begins sending a request without waiting for its reply, which
    /// [`API::wait_response`] reads later, and encodes the request. Until then
    /// nothing else may be sent.
    pub fn send_only(&mut self, req: &Request) -> (encoded: Result<Vec<u8>, TransportError>)
        requires
            old(self)@.admits(Operation::SendOnly),
        ensures
            final(self)@ == old(self)@.begun(Operation::SendOnly).advanced(encoded is Ok).0,
            encoded is Err ==> encoded->Err_0 == TransportError::Encode,
            encoded is Ok <==> request_bytes(*req) is Some,
            encoded is Ok ==> request_bytes(*req) == Some(encoded->Ok_0@),
    {
        self.begin_with(Operation::SendOnly, req)
    }

    /// Begins waiting for the next message, which is to be read and handed to
    /// [`API::receive`].
    pub fn wait_response(&mut self) -> (action: Action)
        requires
            old(self)@.admits(Operation::WaitResponse),
        ensures
            final(self)@ == old(self)@.begun(Operation::WaitResponse),
            action == Action::Do(Work::Read),
    {
        self.begin(Operation::WaitResponse)
    }

    /// Takes note of how the work on the socket went that was due, and says what to
    /// do next.
    pub fn advance(&mut self, succeeded: bool) -> (action: Action)
        requires
            old(self)@.running is Some,
            old(self)@.running->0.work().on_socket(),
        ensures
            final(self)@ == old(self)@.advanced(succeeded).0,
            action == old(self)@.advanced(succeeded).1,
    {
        self.step(succeeded)
    }

    /// Decodes the message that was read, which ends the operation. Where the bytes
    /// hold a response, it goes to the caller if the operation returns one and is
    /// dropped if not; where they hold none, the operation has failed.
    pub fn receive(&mut self, bytes: &[u8]) -> (decoded: Result<Option<Response>, TransportError>)
        requires
            old(self)@.running is Some,
            old(self)@.running->0.work() == Work::Decode,
        ensures
            final(self)@ == old(self)@.advanced(decoded is Ok).0,
            decoded is Err ==> decoded->Err_0 == TransportError::Decode,
            decoded is Ok <==> parsed_response(bytes@) is Some,
            decoded is Ok ==> decoded->Ok_0 == if old(
                self,
            )@.running->0.operation.returns_reply() {
                parsed_response(bytes@)
            } else {
                None
            },
    {
        self.finish_decode(parse_response(bytes))
    }
}

} // verus!

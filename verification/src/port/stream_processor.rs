//! The event-publish contract: the abstract capability to emit a message
//! to a named topic and to receive messages from the stream, together
//! with an in-memory implementation that records what was published and
//! serves as the test substitute for a real broker client.

use vstd::prelude::*;

verus! {

/// A failure of the publish side of the transport.
#[derive(Clone, Copy, Debug, PartialEq, Eq, Structural)]
pub enum SendError {
    /// The transport rejected the message or timed out.
    Transport,
}

/// The error handed back by the receive side of the transport.
pub type ReceiveError = String;

/// One message to publish: the logical channel, an optional partition or
/// grouping key, and an opaque payload.
#[derive(Debug, PartialEq)]
pub struct SendInput {
    pub topic: String,
    pub key: Option<String>,
    pub payload: Vec<u8>,
}

/// The mathematical model of a [`SendInput`].
pub struct SendInputView {
    pub topic: Seq<char>,
    pub key: Option<Seq<char>>,
    pub payload: Seq<u8>,
}

impl View for SendInput {
    type V = SendInputView;

    open spec fn view(&self) -> SendInputView {
        SendInputView {
            topic: self.topic@,
            key: match self.key {
                Some(k) => Some(k@),
                None => None,
            },
            payload: self.payload@,
        }
    }
}

/// A message received from the stream.  The partition, offset and
/// timestamp are identifying metadata for downstream consumers; this core
/// does not interpret them.
#[derive(Debug)]
pub struct Message {
    pub key: Option<String>,
    pub topic: String,
    pub partition: i32,
    pub offset: i64,
    pub timestamp: Option<i64>,
}

/// Abstract capability to publish messages to a named topic and to
/// receive messages from the stream.  What was published is modelled as a
/// log: a successful send appends exactly its message, a failed send
/// appends nothing.  The receive side serves a separate ingestion path;
/// nothing is promised of it here beyond its shape.
pub trait StreamProcessor {
    /// All messages published so far, oldest first.
    spec fn sent(&self) -> Seq<SendInputView>;

    /// Receives one message from the stream.
    fn recv(&mut self) -> (r: Result<Message, ReceiveError>);

    /// Publishes one message to its topic.
    fn send(&mut self, message: SendInput) -> (r: Result<(), SendError>)
        ensures
            r is Ok ==> final(self).sent() == old(self).sent().push(message@),
            r is Err ==> final(self).sent() == old(self).sent(),
    ;
}

/// An in-memory stream transport that records every published message.
/// It is the test substitute for a real broker client; transport failures
/// can be injected.
pub struct InMemoryStreamProcessor {
    sent_log: Vec<SendInput>,
    fail_send: bool,
}

impl InMemoryStreamProcessor {
    /// A transport with an empty log that accepts every publish.
    pub fn new() -> (r: Self)
        ensures
            r.sent() == Seq::<SendInputView>::empty(),
            !r.failing_send(),
    {
        Self { sent_log: Vec::new(), fail_send: false }
    }

    /// Whether publishes are currently set to fail.
    pub closed spec fn failing_send(&self) -> bool {
        self.fail_send
    }

    /// Makes every following publish fail, to exercise transport
    /// failures.
    pub fn set_fail_send(&mut self, fail: bool)
        ensures
            final(self).sent() == old(self).sent(),
            final(self).failing_send() == fail,
    {
        self.fail_send = fail;
    }

    /// The messages published so far, oldest first.
    pub fn sent_messages(&self) -> (r: &Vec<SendInput>)
        ensures
            r@.map_values(|m: SendInput| m@) == self.sent(),
    {
        &self.sent_log
    }
}

impl StreamProcessor for InMemoryStreamProcessor {
    closed spec fn sent(&self) -> Seq<SendInputView> {
        self.sent_log@.map_values(|m: SendInput| m@)
    }

    fn recv(&mut self) -> (r: Result<Message, ReceiveError>)
        ensures
            r is Err,
    {
        Err("no inbound messages are queued".to_owned())
    }

    fn send(&mut self, message: SendInput) -> (r: Result<(), SendError>)
        ensures
            old(self).failing_send() ==> r is Err,
            !old(self).failing_send() ==> r is Ok,
            final(self).failing_send() == old(self).failing_send(),
    {
        if self.fail_send {
            return Err(SendError::Transport);
        }
        let ghost m = message@;
        let ghost before = self.sent_log@;
        self.sent_log.push(message);
        proof {
            assert(self.sent_log@.map_values(|x: SendInput| x@) =~= before.map_values(
                |x: SendInput| x@,
            ).push(m));
        }
        Ok(())
    }
}

} // verus!

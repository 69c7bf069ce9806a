//! Streaming an assembled interkernel message into the loaded kernel, one
//! typed value at a time.
//!
//! The kernel offers a slot for each value; the value is decoded from the
//! message's data under the current tag and written into the slot; the tag of
//! the next value is read from the data. Decoding itself, and the waits for
//! the slots, are the driver's.

use vstd::prelude::*;
use crate::satellite::error::Error;
use crate::satellite::error::ErrorView;
use crate::satellite::error::result_view;
use crate::satellite::error::unexpected;
use crate::satellite::kernel_cpu::KernelReply;
use crate::satellite::messages::Message;
use crate::satellite::requests::slice_kernel_exception;
use crate::satellite::requests::KernelRequest;
use crate::satellite::sliceable::SliceableView;

verus! {

/// How long the kernel is given to offer a slot, in milliseconds.
pub const SLOT_TIMEOUT: u64 = 100;

/// The mathematical content of a [`MessagePass`].
pub struct MessagePassView {
    /// The data of the message.
    pub data: Seq<u8>,
    /// How much of the data has been read.
    pub position: nat,
    /// The tag under which the next value is decoded.
    pub tag: u8,
    /// How many values are to be passed after the next one.
    pub remaining: u8,
}

/// Text of the error for a message of the kernel where a slot for a root
/// value was awaited.
pub open spec fn text_expected_root_slot() -> Seq<char> {
    "expected root value slot from kernel CPU"@
}

/// Text of the error for a message of the kernel where a slot for a nested
/// value was awaited.
pub open spec fn text_expected_nested_slot() -> Seq<char> {
    "expected nested value slot from kernel CPU"@
}

/// Text of the error for data that does not decode.
pub open spec fn text_expected_valid_data() -> Seq<char> {
    "expected valid subkernel message data"@
}

/// What the kernel's answer to the wait for a slot means: a slot is fine; an
/// exception of the kernel ends the run and is kept; anything else is
/// unexpected, under the given text.
pub open spec fn slot_offered(reply: KernelRequest, text: Seq<char>) -> Result<(), ErrorView> {
    match reply {
        KernelRequest::RpcRecvRequest => Ok(()),
        KernelRequest::RunException { encoded: Some(bytes) } => Err(
            ErrorView::KernelException(SliceableView { cursor: 0, data: bytes@ }),
        ),
        KernelRequest::RunException { encoded: None } => Err(ErrorView::SubkernelIoError),
        _ => Err(ErrorView::Unexpected(text)),
    }
}

impl MessagePassView {
    /// The pass as it begins for a message: nothing read, the message's own
    /// tag first, and one value to pass even where the message announces none.
    pub open spec fn begin(data: Seq<u8>, tag: u8, count: u8) -> MessagePassView {
        MessagePassView {
            data,
            position: 0,
            tag,
            remaining: if count == 0 {
                0
            } else {
                (count - 1) as u8
            },
        }
    }

    /// The pass after the decoder has dealt with a value. `decoded` is the
    /// number of bytes it read, or `None` where the data did not decode. A
    /// decoded value is confirmed to the kernel with a reply of size zero;
    /// then the tag of the next value is read, if one is to follow. The last
    /// component says whether to go on.
    pub open spec fn value_passed(self, decoded: Option<nat>) -> (
        MessagePassView,
        Option<KernelReply>,
        Result<bool, ErrorView>,
    ) {
        match decoded {
            None => (self, None, Err(ErrorView::Unexpected(text_expected_valid_data()))),
            Some(n) => {
                let at = self.position + n;
                let reply = Some(KernelReply::RpcRecvReply { size: 0 });
                if self.remaining == 0 {
                    (MessagePassView { position: at, ..self }, reply, Ok(false))
                } else if at < self.data.len() {
                    (
                        MessagePassView {
                            position: at + 1,
                            tag: self.data[at as int],
                            remaining: (self.remaining - 1) as u8,
                            ..self
                        },
                        reply,
                        Ok(true),
                    )
                } else {
                    (
                        MessagePassView { position: at, ..self },
                        reply,
                        Err(ErrorView::SubkernelIoError),
                    )
                }
            },
        }
    }
}

/// A message on its way into the kernel.
#[derive(Debug)]
pub struct MessagePass {
    data: Vec<u8>,
    position: usize,
    tag: u8,
    remaining: u8,
}

impl View for MessagePass {
    type V = MessagePassView;

    closed spec fn view(&self) -> MessagePassView {
        MessagePassView {
            data: self.data@,
            position: self.position as nat,
            tag: self.tag,
            remaining: self.remaining,
        }
    }
}

/// What the pass decided once the decoder has dealt with a value: the reply
/// to send first, if any, and then whether to go on with the next value.
#[derive(Debug)]
pub struct Passed {
    pub reply: Option<KernelReply>,
    pub outcome: Result<bool, Error>,
}

/// Begins to pass a message to the kernel.
pub fn pass_message_to_kernel(message: Message) -> (pass: MessagePass)
    ensures
        pass@ == MessagePassView::begin(message.data@, message.tag, message.count),
{
    let remaining: u8 = if message.count == 0 {
        0
    } else {
        message.count - 1
    };
    MessagePass { data: message.data, position: 0, tag: message.tag, remaining }
}

fn slot(reply: KernelRequest, text: &str) -> (r: Result<(), Error>)
    ensures
        result_view(r) == slot_offered(reply, text@),
{
    match reply {
        KernelRequest::RpcRecvRequest => Ok(()),
        KernelRequest::RunException { encoded } => match slice_kernel_exception(encoded) {
            Ok(exception) => Err(Error::KernelException(exception)),
            Err(e) => Err(e),
        },
        _ => Err(unexpected(text)),
    }
}

/// Judges the kernel's answer to the wait for the slot of a root value.
pub fn root_slot(reply: KernelRequest) -> (r: Result<(), Error>)
    ensures
        result_view(r) == slot_offered(reply, text_expected_root_slot()),
{
    slot(reply, "expected root value slot from kernel CPU")
}

/// Judges the kernel's answer to the wait for the slot of a nested value.
pub fn nested_slot(reply: KernelRequest) -> (r: Result<(), Error>)
    ensures
        result_view(r) == slot_offered(reply, text_expected_nested_slot()),
{
    slot(reply, "expected nested value slot from kernel CPU")
}

/// The reply by which the kernel is asked for `size` bytes for a nested
/// value. Nothing is asked for where nothing is needed.
pub fn allocation_reply(size: usize) -> (reply: Option<KernelReply>)
    ensures
        reply == if size == 0 {
            None
        } else {
            Some(KernelReply::RpcRecvReply { size })
        },
{
    if size == 0 {
        None
    } else {
        Some(KernelReply::RpcRecvReply { size })
    }
}

impl MessagePass {
    #[verifier::type_invariant]
    spec fn position_in_bounds(&self) -> bool {
        self.position <= self.data.len()
    }

    /// The tag under which the next value is decoded.
    pub fn tag(&self) -> (tag: u8)
        ensures
            tag == self@.tag,
    {
        self.tag
    }

    /// The data of the message.
    pub fn data(&self) -> (data: &Vec<u8>)
        ensures
            data@ == self@.data,
    {
        &self.data
    }

    /// Where in the data the next value begins.
    pub fn position(&self) -> (position: usize)
        ensures
            position == self@.position,
            position <= self@.data.len(),
    {
        proof {
            use_type_invariant(self);
        }
        self.position
    }

    /// Takes the decoder's report on a value: the number of bytes it read of
    /// the data, or `None` where the data did not decode.
    pub fn value_passed(&mut self, decoded: Option<usize>) -> (passed: Passed)
        requires
            decoded matches Some(n) ==> old(self)@.position + n <= old(self)@.data.len(),
        ensures
            ({
                let expected = old(self)@.value_passed(
                    match decoded {
                        Some(n) => Some(n as nat),
                        None => None,
                    },
                );
                &&& final(self)@ == expected.0
                &&& passed.reply == expected.1
                &&& result_view(passed.outcome) == expected.2
            }),
    {
        let n = match decoded {
            Some(n) => n,
            None => {
                return Passed {
                    reply: None,
                    outcome: Err(unexpected("expected valid subkernel message data")),
                };
            },
        };
        assert(self.position + n <= self.data.len());
        let at: usize = self.position + n;
        let reply = Some(KernelReply::RpcRecvReply { size: 0 });
        if self.remaining == 0 {
            self.position = at;
            Passed { reply, outcome: Ok(false) }
        } else if at < self.data.len() {
            self.tag = self.data[at];
            self.position = at + 1;
            self.remaining = self.remaining - 1;
            Passed { reply, outcome: Ok(true) }
        } else {
            self.position = at;
            Passed { reply, outcome: Err(Error::SubkernelIoError) }
        }
    }
}

} // verus!

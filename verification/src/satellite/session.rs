//! The state of one run of a subkernel.

use vstd::prelude::*;
use vstd::string::StringExecFns;
use crate::satellite::messages::MessageManager;
use crate::satellite::messages::MessageManagerView;
use crate::satellite::sliceable::Sliceable;
use crate::satellite::sliceable::SliceableView;
use crate::text::ends_with_newline;
use crate::text::has_final_newline;
use crate::text::lines;
use crate::text::split_lines;
use crate::text::texts;

verus! {

/// Where the kernel CPU stands in a run.
#[derive(Debug, Clone, Copy, PartialEq, Eq, Structural)]
pub enum KernelState {
    Absent,
    Loaded,
    Running,
    MsgAwait { max_time: u64 },
    MsgSending,
}

impl KernelState {
    /// A kernel runs from the moment it is started until it finishes, also
    /// while it waits for a message or for one of its own to be sent.
    pub open spec fn running(self) -> bool {
        self == KernelState::Running || self is MsgAwait || self == KernelState::MsgSending
    }
}

/// Per-run state.
#[derive(Debug)]
pub struct Session {
    pub kernel_state: KernelState,
    pub log_buffer: String,
    pub last_exception: Option<Sliceable>,
    pub messages: MessageManager,
}

/// The mathematical content of a [`Session`].
pub struct SessionView {
    pub kernel_state: KernelState,
    pub log_buffer: Seq<char>,
    pub last_exception: Option<SliceableView>,
    pub messages: MessageManagerView,
}

impl SessionView {
    /// A session in which nothing has happened yet.
    pub open spec fn fresh() -> SessionView {
        SessionView {
            kernel_state: KernelState::Absent,
            log_buffer: Seq::empty(),
            last_exception: None,
            messages: MessageManagerView::empty(),
        }
    }

    /// The lines that a flush of the log buffer emits: all of them if the
    /// buffer ends in a line feed, none otherwise.
    pub open spec fn flushed_lines(self) -> Seq<Seq<char>> {
        if ends_with_newline(self.log_buffer) {
            lines(self.log_buffer)
        } else {
            Seq::empty()
        }
    }

    /// The session after a flush of the log buffer.
    pub open spec fn flushed(self) -> SessionView {
        if ends_with_newline(self.log_buffer) {
            SessionView { log_buffer: Seq::empty(), ..self }
        } else {
            self
        }
    }

    /// The session after `text` was added to the log buffer.
    pub open spec fn logged(self, text: Seq<char>) -> SessionView {
        SessionView { log_buffer: self.log_buffer + text, ..self }
    }
}

impl View for Session {
    type V = SessionView;

    open spec fn view(&self) -> SessionView {
        SessionView {
            kernel_state: self.kernel_state,
            log_buffer: self.log_buffer@,
            last_exception: match self.last_exception {
                Some(e) => Some(e@),
                None => None,
            },
            messages: self.messages@,
        }
    }
}

impl Session {
    pub fn new() -> (session: Session)
        ensures
            session@ == SessionView::fresh(),
    {
        Session {
            kernel_state: KernelState::Absent,
            log_buffer: String::new(),
            last_exception: None,
            messages: MessageManager::new(),
        }
    }

    /// Whether a kernel is running in this session.
    pub fn running(&self) -> (r: bool)
        ensures
            r == self@.kernel_state.running(),
    {
        match self.kernel_state {
            KernelState::Absent | KernelState::Loaded => false,
            KernelState::Running | KernelState::MsgAwait { .. } | KernelState::MsgSending => true,
        }
    }

    /// Empties the log buffer if it ends in a line feed, and hands out its
    /// lines for logging.
    pub fn flush_log_buffer(&mut self) -> (emitted: Vec<String>)
        ensures
            final(self)@ == old(self)@.flushed(),
            texts(emitted@) == old(self)@.flushed_lines(),
    {
        if has_final_newline(self.log_buffer.as_str()) {
            let emitted = split_lines(self.log_buffer.as_str());
            self.log_buffer = String::new();
            emitted
        } else {
            let emitted: Vec<String> = Vec::new();
            assert(texts(emitted@) =~= Seq::<Seq<char>>::empty());
            emitted
        }
    }

    /// Adds text of the kernel to the log buffer and flushes it.
    pub fn log(&mut self, text: &str) -> (emitted: Vec<String>)
        ensures
            final(self)@ == old(self)@.logged(text@).flushed(),
            texts(emitted@) == old(self)@.logged(text@).flushed_lines(),
    {
        self.log_buffer.append(text);
        self.flush_log_buffer()
    }
}

} // verus!

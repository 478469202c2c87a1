//! The persistent channel: the input stream and process of the long-lived
//! agent subprocess, and the decisions taken around writing to it and
//! tearing it down. The writes and kills themselves are done by the caller.
use vstd::prelude::*;
use crate::envelope::{
    encode_text, encode_value, is_one_line, json_quoted, lemma_message_line_is_one_line,
    lemma_tool_result_line_is_one_line, tool_result_envelope, tool_result_line, user_message_envelope,
    user_message_line,
};

verus! {

/// Why an operation on a session failed.
pub enum SessionError {
    /// A message or response was attempted before an input stream was attached.
    NoActiveChannel,
    /// An operating-system failure, reported as its text.
    Io(String),
}

impl SessionError {
    /// A human-readable description.
    pub fn message(&self) -> (r: String)
        ensures
            self is NoActiveChannel ==> r@
                == "No stdin available - persistent session not established"@,
            self matches SessionError::Io(m) ==> r@ == m@,
    {
        match self {
            SessionError::NoActiveChannel => String::from_str(
                "No stdin available - persistent session not established",
            ),
            SessionError::Io(m) => m.clone(),
        }
    }
}

/// How killing a process failed.
pub enum KillFailure {
    /// The kind of error the OS reports when the process has already exited.
    InvalidInput,
    /// Any other failure, as its text.
    Other(String),
}

/// The outcome of a kill as the session reports it: a process that had
/// already exited counts as killed.
pub open spec fn kill_result(k: Result<(), KillFailure>) -> Result<(), SessionError> {
    match k {
        Ok(()) => Ok(()),
        Err(KillFailure::InvalidInput) => Ok(()),
        Err(KillFailure::Other(m)) => Err(SessionError::Io(m)),
    }
}

/// Classifies the outcome of a kill.
pub fn kill_outcome(k: Result<(), KillFailure>) -> (r: Result<(), SessionError>)
    ensures
        r == kill_result(k),
{
    match k {
        Ok(()) => Ok(()),
        Err(KillFailure::InvalidInput) => Ok(()),
        Err(KillFailure::Other(m)) => Err(SessionError::Io(m)),
    }
}

/// The outcome of a shutdown given the outcome of killing the process, if
/// one was attached.
pub open spec fn shutdown_result(kill: Option<Result<(), KillFailure>>) -> Result<(), SessionError> {
    match kill {
        None => Ok(()),
        Some(k) => kill_result(k),
    }
}

/// Classifies the outcome of a shutdown.
pub fn shutdown_outcome(kill: Option<Result<(), KillFailure>>) -> (r: Result<(), SessionError>)
    ensures
        r == shutdown_result(kill),
{
    match kill {
        None => Ok(()),
        Some(k) => kill_outcome(k),
    }
}

/// The input stream `S` and process handle `P` of the persistent subprocess.
/// Each is attached on its own and both are detached together.
pub struct PersistentChannel<S, P> {
    stream: Option<S>,
    process: Option<P>,
}

/// The state of a channel: its stream and its process, each if attached.
pub type ChannelState<S, P> = (Option<S>, Option<P>);

/// Whether messages can be sent: a stream is attached.
pub open spec fn is_open<S, P>(c: ChannelState<S, P>) -> bool {
    c.0 is Some
}

impl<S, P> View for PersistentChannel<S, P> {
    type V = ChannelState<S, P>;

    closed spec fn view(&self) -> ChannelState<S, P> {
        (self.stream, self.process)
    }
}

impl<S, P> PersistentChannel<S, P> {
    /// A channel with nothing attached.
    pub fn new() -> (r: Self)
        ensures
            r@ == (None::<S>, None::<P>),
    {
        PersistentChannel { stream: None, process: None }
    }

    /// Installs the input stream, dropping any previous one.
    pub fn attach_stream(&mut self, stream: S)
        ensures
            final(self)@ == (Some(stream), old(self)@.1),
    {
        self.stream = Some(stream);
    }

    /// Installs the process handle, dropping any previous one.
    pub fn attach_process(&mut self, process: P)
        ensures
            final(self)@ == (old(self)@.0, Some(process)),
    {
        self.process = Some(process);
    }

    /// Whether an input stream is attached.
    pub fn has_active_channel(&self) -> (r: bool)
        ensures
            r == is_open(self@),
    {
        self.stream.is_some()
    }

    /// The attached input stream, to write a line to. The process stays as
    /// it was, and the stream is whatever the caller leaves behind the
    /// reference.
    pub fn stream_mut(&mut self) -> (r: Option<&mut S>)
        ensures
            r is Some == is_open(old(self)@),
            match r {
                Some(s) => old(self)@.0 == Some(*s) && final(self)@ == (Some(*final(s)), old(self)@.1),
                None => final(self)@ == old(self)@,
            },
    {
        self.stream.as_mut()
    }

    /// The line that sends `message` as a user message. Fails, with
    /// `NoActiveChannel`, exactly when no stream is attached.
    pub fn message_line(&self, message: &str) -> (r: Result<String, SessionError>)
        ensures
            !is_open(self@) ==> r matches Err(SessionError::NoActiveChannel),
            is_open(self@) ==> (r matches Ok(line) && line@ == user_message_line(
                json_quoted(message@),
            ) && is_one_line(line@)),
    {
        if self.stream.is_none() {
            return Err(SessionError::NoActiveChannel);
        }
        let content = encode_text(message).unwrap();
        proof {
            lemma_message_line_is_one_line(message@);
        }
        Ok(user_message_envelope(content.as_str()))
    }

    /// The line that answers the tool use `tool_use_id` with `result`, as
    /// compact JSON. Fails, with `NoActiveChannel`, exactly when no stream is
    /// attached.
    pub fn response_line(&self, tool_use_id: &str, result: &serde_json::Value) -> (r: Result<
        String,
        SessionError,
    >)
        ensures
            !is_open(self@) ==> r matches Err(SessionError::NoActiveChannel),
            is_open(self@) ==> (r matches Ok(line) && is_one_line(line@) && exists|
                content: Seq<char>,
            |
                !content.contains('\n') && line@ == tool_result_line(
                    json_quoted(tool_use_id@),
                    content,
                )),
    {
        if self.stream.is_none() {
            return Err(SessionError::NoActiveChannel);
        }
        let id = encode_text(tool_use_id).unwrap();
        let content = encode_value(result).unwrap();
        let line = tool_result_envelope(id.as_str(), content.as_str());
        proof {
            lemma_tool_result_line_is_one_line(tool_use_id@, content@);
        }
        assert(line@ == tool_result_line(json_quoted(tool_use_id@), content@));
        Ok(line)
    }

    /// Detaches the stream and the process and hands them back, so that the
    /// caller flushes the one and kills the other. Afterwards the channel is
    /// closed, whatever the kill's outcome.
    pub fn detach(&mut self) -> (r: ChannelState<S, P>)
        ensures
            r == old(self)@,
            final(self)@ == (None::<S>, None::<P>),
    {
        let stream = self.stream.take();
        let process = self.process.take();
        (stream, process)
    }
}

/// Shutting down twice in a row: the first leaves nothing attached (see
/// `detach`), so the channel is closed and the second shutdown has nothing to
/// kill, succeeds, and leaves it closed; the first
/// succeeds too when its kill did (or found the process gone) or when no
/// process was attached.
pub proof fn lemma_shutdown_twice<S, P>(c: ChannelState<S, P>, first_kill: Result<(), KillFailure>)
    requires
        !(first_kill is Err && first_kill->Err_0 is Other),
    ensures
        !is_open((None::<S>, None::<P>)),
        shutdown_result(None) is Ok,
        shutdown_result(if c.1 is Some { Some(first_kill) } else { None }) is Ok,
{
}

} // verus!

//! The error bridge: the state of an engine error sink, read once after a
//! guarded call, and what it becomes as a typed failure.

use crate::text::utf8_string;
use vstd::prelude::*;
use vstd::string::*;
use vstd::utf8::*;

verus! {

/// Capacity of the buffer into which the engine's message is fetched.
pub const MESSAGE_CAPACITY: usize = 512;

/// What was read from one engine error sink: the handle of the sink, the
/// status that the engine's check returned, and the bytes that the engine's
/// message fetch wrote.
#[derive(Debug)]
pub struct ErrorSink {
    pub ptr: usize,
    pub status: i32,
    pub buffer: Vec<u8>,
}

/// Outcome channel of one fallible operation: an engine sink, or a failure
/// found locally before the engine was reached.
#[derive(Debug)]
pub enum DFTD3Error {
    C(ErrorSink),
    Rust(String),
}

/// Mathematical value of a [`DFTD3Error`].
pub enum ErrorView {
    C { ptr: usize, status: i32, buffer: Seq<u8> },
    Rust(Seq<char>),
}

impl View for DFTD3Error {
    type V = ErrorView;

    open spec fn view(&self) -> ErrorView {
        match self {
            DFTD3Error::C(sink) => ErrorView::C {
                ptr: sink.ptr,
                status: sink.status,
                buffer: sink.buffer@,
            },
            DFTD3Error::Rust(msg) => ErrorView::Rust(msg@),
        }
    }
}

/// `end` is where the engine's text stops in `buffer`: at the first NUL
/// byte, at the end of the buffer, or at the capacity, whichever comes first.
pub open spec fn is_text_end(buffer: Seq<u8>, end: int) -> bool {
    &&& 0 <= end <= buffer.len()
    &&& end <= MESSAGE_CAPACITY
    &&& forall|j: int| 0 <= j < end ==> buffer[j] != 0
    &&& (end == buffer.len() || end == MESSAGE_CAPACITY || buffer[end] == 0)
}

/// The bytes of the engine's text in a fetched buffer.
pub open spec fn engine_text(buffer: Seq<u8>) -> Seq<u8> {
    buffer.take(choose|end: int| is_text_end(buffer, end))
}

/// A buffer has exactly one text end.
pub proof fn lemma_text_end_unique(buffer: Seq<u8>, a: int, b: int)
    requires
        is_text_end(buffer, a),
        is_text_end(buffer, b),
    ensures
        a == b,
{
    if a < b {
        assert(buffer[a] != 0);
    } else if b < a {
        assert(buffer[b] != 0);
    }
}

/// Message that stands for engine text that is not UTF-8.
pub open spec fn undecodable_text() -> Seq<char> {
    "Invalid UTF-8 in the message of the native error"@
}

impl ErrorView {
    /// True iff an error was recorded.
    pub open spec fn flagged(self) -> bool {
        match self {
            ErrorView::C { status, .. } => status != 0,
            ErrorView::Rust(_) => true,
        }
    }

    /// The message that the error carries: nothing while no error is
    /// recorded, the engine's text where it decodes, the substitute where it
    /// does not, and the caller's text of a local failure.
    pub open spec fn message(self) -> Seq<char> {
        match self {
            ErrorView::C { status, buffer, .. } => if status == 0 {
                Seq::empty()
            } else if valid_utf8(engine_text(buffer)) {
                decode_utf8(engine_text(buffer))
            } else {
                undecodable_text()
            },
            ErrorView::Rust(msg) => msg,
        }
    }

    /// The error as it leaves the bridge: a flagged sink whose text does not
    /// decode becomes a local failure, everything else stays as it is.
    pub open spec fn folded(self) -> ErrorView {
        match self {
            ErrorView::C { status, buffer, .. } => if status != 0 && !valid_utf8(
                engine_text(buffer),
            ) {
                ErrorView::Rust(undecodable_text())
            } else {
                self
            },
            ErrorView::Rust(_) => self,
        }
    }

    /// Rendering for a user: empty while no error is recorded.
    pub open spec fn display(self) -> Seq<char> {
        if self.flagged() {
            "DFTD3Error: "@ + self.message()
        } else {
            Seq::empty()
        }
    }

    /// Rendering for a developer.
    pub open spec fn debug(self) -> Seq<char> {
        if self.flagged() {
            "DFTD3Error: "@ + self.message()
        } else {
            "DFTD3Error: No error"@
        }
    }
}

/// What a guarded call returns: the value on a clear sink, the folded error
/// on a flagged one.
pub open spec fn bridged<V>(error: ErrorView, value: V, result: Result<V, DFTD3Error>) -> bool {
    if error.flagged() {
        result matches Err(e) && e@ == error.folded()
    } else {
        result == Ok::<V, DFTD3Error>(value)
    }
}

/// While no error is recorded, an error value carries no message and
/// renders as nothing.
pub proof fn lemma_clear_is_silent(error: ErrorView)
    requires
        !error.flagged(),
    ensures
        error.message() == Seq::<char>::empty(),
        error.display() == Seq::<char>::empty(),
{
}

/// A flagged error whose text is not empty (the engine's bytes of a sink,
/// decodable or not, or the caller's text of a local failure) carries a
/// message that is not empty.
pub proof fn lemma_flagged_speaks(error: ErrorView)
    requires
        error.flagged(),
        match error {
            ErrorView::C { buffer, .. } => engine_text(buffer).len() > 0,
            ErrorView::Rust(msg) => msg.len() > 0,
        },
    ensures
        error.message().len() > 0,
        error.display().len() > 0,
{
    reveal_strlit("Invalid UTF-8 in the message of the native error");
}

/// Folding keeps the flag and the message of an error.
pub proof fn lemma_folding_keeps_message(error: ErrorView)
    ensures
        error.folded().flagged() == error.flagged(),
        error.folded().message() == error.message(),
        error.folded().folded() == error.folded(),
{
}

/// A guarded call succeeds exactly on a clear sink. When it fails, the
/// error that it returns is flagged and carries the message of the sink.
pub proof fn lemma_bridge_outcome<V>(error: ErrorView, value: V, result: Result<V, DFTD3Error>)
    requires
        bridged(error, value, result),
    ensures
        result is Ok <==> !error.flagged(),
        result matches Err(e) ==> e@.flagged() && e@.message() == error.message(),
{
    lemma_folding_keeps_message(error);
}

/// Cuts a fetched buffer down to the engine's text.
pub fn text_bytes(buffer: &[u8]) -> (text: Vec<u8>)
    ensures
        text@ == engine_text(buffer@),
{
    let mut text: Vec<u8> = Vec::new();
    let mut i: usize = 0;
    while i < buffer.len() && i < MESSAGE_CAPACITY && buffer[i] != 0
        invariant
            0 <= i <= buffer@.len(),
            i <= MESSAGE_CAPACITY,
            forall|j: int| 0 <= j < i ==> buffer@[j] != 0,
            text@ == buffer@.take(i as int),
        decreases buffer@.len() - i,
    {
        text.push(buffer[i]);
        i += 1;
        assert(text@ =~= buffer@.take(i as int));
    }
    proof {
        assert(is_text_end(buffer@, i as int));
        let end = choose|end: int| is_text_end(buffer@, end);
        lemma_text_end_unique(buffer@, i as int, end);
    }
    text
}

/// Decodes the engine's text in a fetched buffer, if it is UTF-8.
pub fn decode_message(buffer: &[u8]) -> (decoded: Option<String>)
    ensures
        decoded is Some <==> valid_utf8(engine_text(buffer@)),
        decoded matches Some(s) ==> s@ == decode_utf8(engine_text(buffer@)),
{
    utf8_string(text_bytes(buffer))
}

impl DFTD3Error {
    /// A fresh sink for the engine handle `ptr`: nothing recorded.
    pub fn new(ptr: usize) -> (error: Self)
        ensures
            error@ == (ErrorView::C { ptr, status: 0, buffer: Seq::empty() }),
            !error@.flagged(),
    {
        DFTD3Error::C(ErrorSink { ptr, status: 0, buffer: Vec::new() })
    }

    /// A local failure with the caller's text.
    pub fn local(msg: String) -> (error: Self)
        ensures
            error@ == ErrorView::Rust(msg@),
    {
        DFTD3Error::Rust(msg)
    }

    /// Records what the engine reported for this sink after a guarded call:
    /// the status of its check and the buffer of its message fetch. A local
    /// failure is not a sink and stays as it is.
    pub fn observe(&mut self, status: i32, buffer: Vec<u8>)
        ensures
            final(self)@ == match old(self)@ {
                ErrorView::C { ptr, .. } => ErrorView::C { ptr, status, buffer: buffer@ },
                ErrorView::Rust(msg) => ErrorView::Rust(msg),
            },
    {
        match self {
            DFTD3Error::C(sink) => {
                sink.status = status;
                sink.buffer = buffer;
            },
            DFTD3Error::Rust(_) => {},
        }
    }

    /// True iff an error was recorded.
    pub fn check(&self) -> (flagged: bool)
        ensures
            flagged == self@.flagged(),
    {
        match self {
            DFTD3Error::C(sink) => sink.status != 0,
            DFTD3Error::Rust(_) => true,
        }
    }

    /// The engine handle of the sink; null for a local failure.
    pub fn get_c_ptr(&mut self) -> (ptr: usize)
        ensures
            final(self)@ == old(self)@,
            ptr == match old(self)@ {
                ErrorView::C { ptr, .. } => ptr,
                ErrorView::Rust(_) => 0,
            },
    {
        match self {
            DFTD3Error::C(sink) => sink.ptr,
            DFTD3Error::Rust(_) => 0,
        }
    }

    /// The message of the error.
    pub fn get_message(&self) -> (msg: String)
        ensures
            msg@ == self@.message(),
    {
        match self {
            DFTD3Error::C(sink) => {
                if sink.status == 0 {
                    String::new()
                } else {
                    match decode_message(sink.buffer.as_slice()) {
                        Some(text) => text,
                        None => String::from_str("Invalid UTF-8 in the message of the native error"),
                    }
                }
            },
            DFTD3Error::Rust(msg) => msg.clone(),
        }
    }

    /// The error as a user reads it.
    pub fn to_string(&self) -> (text: String)
        ensures
            text@ == self@.display(),
    {
        if self.check() {
            String::from_str("DFTD3Error: ").concat(self.get_message().as_str())
        } else {
            String::new()
        }
    }

    /// The error as a developer reads it.
    pub fn to_debug_string(&self) -> (text: String)
        ensures
            text@ == self@.debug(),
    {
        if self.check() {
            String::from_str("DFTD3Error: ").concat(self.get_message().as_str())
        } else {
            String::from_str("DFTD3Error: No error")
        }
    }

    /// Turns the sink of a guarded call into the call's typed result: the
    /// value if the sink is clear, the error if it is flagged. Engine text
    /// that is not UTF-8 never leaves as a native error: it is replaced by a
    /// local failure.
    pub fn bridge<V>(self, value: V) -> (result: Result<V, DFTD3Error>)
        ensures
            bridged(self@, value, result),
    {
        if !self.check() {
            return Ok(value);
        }
        match self {
            DFTD3Error::C(sink) => {
                match decode_message(sink.buffer.as_slice()) {
                    Some(_) => Err(DFTD3Error::C(sink)),
                    None => Err(
                        DFTD3Error::Rust(
                            String::from_str("Invalid UTF-8 in the message of the native error"),
                        ),
                    ),
                }
            },
            DFTD3Error::Rust(msg) => Err(DFTD3Error::Rust(msg)),
        }
    }
}

} // verus!

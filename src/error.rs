use vstd::prelude::*;

use crate::status::PvStatus;
use crate::text::{append_decimal, decimal};

verus! {

/// The kind of a failure.
#[derive(PartialEq, Eq, Structural, Clone, Copy, Debug)]
pub enum CheetahErrorStatus {
    /// A native call returned a non-success status.
    LibraryError(PvStatus),
    /// The native library, or one of its entry points, could not be loaded.
    LibraryLoadError,
    /// An audio frame does not have the length the engine requires.
    FrameLengthError,
    /// A configuration value was rejected before any native call.
    ArgumentError,
}

impl CheetahErrorStatus {
    /// How the status reads in diagnostics: `LibraryError(INVALID_ARGUMENT)`,
    /// `ArgumentError`, and so on.
    pub open spec fn spec_text(self) -> Seq<char> {
        match self {
            CheetahErrorStatus::LibraryError(s) => "LibraryError("@ + s.spec_name() + ")"@,
            CheetahErrorStatus::LibraryLoadError => "LibraryLoadError"@,
            CheetahErrorStatus::FrameLengthError => "FrameLengthError"@,
            CheetahErrorStatus::ArgumentError => "ArgumentError"@,
        }
    }

    /// Appends the status text to `s`.
    pub fn append_text(&self, s: &mut String)
        ensures
            final(s)@ == old(s)@ + self.spec_text(),
    {
        match self {
            CheetahErrorStatus::LibraryError(st) => {
                s.append("LibraryError(");
                s.append(st.name());
                s.append(")");
                assert(s@ =~= old(s)@ + self.spec_text());
            },
            CheetahErrorStatus::LibraryLoadError => s.append("LibraryLoadError"),
            CheetahErrorStatus::FrameLengthError => s.append("FrameLengthError"),
            CheetahErrorStatus::ArgumentError => s.append("ArgumentError"),
        }
    }
}

/// What an error says: its kind, a summary, and the diagnostic stack the
/// native engine reported, oldest cause first.
pub ghost struct ErrorView {
    pub status: CheetahErrorStatus,
    pub message: Seq<char>,
    pub message_stack: Seq<Seq<char>>,
}

/// An error with no diagnostic stack.
pub open spec fn plain_error(status: CheetahErrorStatus, message: Seq<char>) -> ErrorView {
    ErrorView { status, message, message_stack: Seq::empty() }
}

#[derive(Clone, Debug)]
pub struct CheetahError {
    status: CheetahErrorStatus,
    pub message: String,
    pub message_stack: Vec<String>,
}

impl View for CheetahError {
    type V = ErrorView;

    closed spec fn view(&self) -> ErrorView {
        ErrorView {
            status: self.status,
            message: self.message@,
            message_stack: self.message_stack.deep_view(),
        }
    }
}

/// The lines that list a diagnostic stack's first `n` entries, each as
/// `  [index] message` and a line break.
pub open spec fn stack_text(stack: Seq<Seq<char>>, n: nat) -> Seq<char>
    decreases n,
{
    if n == 0 {
        Seq::empty()
    } else {
        stack_text(stack, (n - 1) as nat) + "  ["@ + decimal((n - 1) as nat) + "] "@ + stack[n
            - 1] + "\n"@
    }
}

/// The full description of an error: the summary, the status, and the
/// diagnostic stack when there is one.
pub open spec fn error_text(e: ErrorView) -> Seq<char> {
    let head = e.message + " with status '"@ + e.status.spec_text() + "'"@;
    if e.message_stack.len() > 0 {
        head + ":"@ + stack_text(e.message_stack, e.message_stack.len())
    } else {
        head
    }
}

impl CheetahError {
    pub fn new(status: CheetahErrorStatus, message: String) -> (r: Self)
        ensures
            r@ == plain_error(status, message@),
    {
        let r = CheetahError { status, message, message_stack: Vec::new() };
        assert(r.message_stack.deep_view() =~= Seq::<Seq<char>>::empty());
        r
    }

    pub fn new_with_stack(
        status: CheetahErrorStatus,
        message: String,
        message_stack: Vec<String>,
    ) -> (r: Self)
        ensures
            r@ == (ErrorView { status, message: message@, message_stack: message_stack.deep_view() }),
    {
        CheetahError { status, message, message_stack }
    }

    pub fn status(&self) -> (r: CheetahErrorStatus)
        ensures
            r == self@.status,
    {
        self.status
    }

    /// The error as one text: summary, status, and one line per diagnostic.
    pub fn describe(&self) -> (r: String)
        ensures
            r@ == error_text(self@),
    {
        let mut s = self.message.clone();
        s.append(" with status '");
        self.status.append_text(&mut s);
        s.append("'");
        let ghost head = s@;
        assert(head == self.message@ + " with status '"@ + self.status.spec_text() + "'"@);
        let n = self.message_stack.len();
        if n > 0 {
            s.append(":");
            let mut i: usize = 0;
            while i < n
                invariant
                    0 <= i <= n,
                    n == self.message_stack@.len(),
                    s@ == head + ":"@ + stack_text(self@.message_stack, i as nat),
                decreases n - i,
            {
                s.append("  [");
                append_decimal(&mut s, i as u64);
                s.append("] ");
                s.append(self.message_stack[i].as_str());
                s.append("\n");
                assert(s@ =~= head + ":"@ + stack_text(self@.message_stack, (i + 1) as nat));
                i = i + 1;
            }
        }
        s
    }
}

} // verus!

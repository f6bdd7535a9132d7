use vstd::prelude::*;

use crate::error::{plain_error, CheetahError, CheetahErrorStatus, ErrorView};
use crate::status::PvStatus;
use crate::text::{append_decimal, decimal};

verus! {

/// The native entry points whose failures are reported with a diagnostic stack.
#[derive(PartialEq, Eq, Structural, Clone, Copy, Debug)]
pub enum NativeCall {
    Init,
    Process,
    Flush,
}

impl NativeCall {
    /// The exported symbol of the entry point.
    pub open spec fn spec_name(self) -> Seq<char> {
        match self {
            NativeCall::Init => "pv_cheetah_init"@,
            NativeCall::Process => "pv_cheetah_process"@,
            NativeCall::Flush => "pv_cheetah_flush"@,
        }
    }

    pub fn name(&self) -> (r: &'static str)
        ensures
            r@ == self.spec_name(),
    {
        match self {
            NativeCall::Init => "pv_cheetah_init",
            NativeCall::Process => "pv_cheetah_process",
            NativeCall::Flush => "pv_cheetah_flush",
        }
    }
}

/// What the native error-stack query returned: its own status and, when that
/// is a success, the messages it reported, oldest cause first.
pub struct ErrorStackReply {
    pub status: PvStatus,
    pub messages: Vec<String>,
}

/// The error for a failed native call, given what the error-stack query
/// returned. When the query itself failed, the error reports that failure.
pub open spec fn translated_error(
    status: PvStatus,
    call: NativeCall,
    stack_status: PvStatus,
    stack: Seq<Seq<char>>,
) -> ErrorView {
    if stack_status == PvStatus::SUCCESS {
        ErrorView {
            status: CheetahErrorStatus::LibraryError(status),
            message: "'"@ + call.spec_name() + "' failed"@,
            message_stack: stack,
        }
    } else {
        plain_error(
            CheetahErrorStatus::LibraryError(stack_status),
            "Unable to get Cheetah error state"@,
        )
    }
}

/// Builds the error for a native call that returned `status`, keeping every
/// message of the diagnostic stack in the order it was reported.
pub fn translate_error(status: PvStatus, call: NativeCall, stack: ErrorStackReply) -> (r:
    CheetahError)
    requires
        status != PvStatus::SUCCESS,
    ensures
        r@ == translated_error(status, call, stack.status, stack.messages.deep_view()),
{
    if stack.status.is_success() {
        let mut message = String::from_str("'");
        message.append(call.name());
        message.append("' failed");
        CheetahError::new_with_stack(CheetahErrorStatus::LibraryError(status), message, stack.messages)
    } else {
        CheetahError::new(
            CheetahErrorStatus::LibraryError(stack.status),
            String::from_str("Unable to get Cheetah error state"),
        )
    }
}

/// The engine's fixed properties, as values.
pub ghost struct PropertiesView {
    pub frame_length: int,
    pub sample_rate: int,
    pub version: Seq<char>,
}

/// Properties that the native engine reports once, when it is created, and
/// that stay fixed for the engine's life.
pub struct EngineProperties {
    frame_length: i32,
    sample_rate: i32,
    version: String,
}

impl View for EngineProperties {
    type V = PropertiesView;

    closed spec fn view(&self) -> PropertiesView {
        PropertiesView {
            frame_length: self.frame_length as int,
            sample_rate: self.sample_rate as int,
            version: self.version@,
        }
    }
}

/// The error for an audio frame of `len` samples where `frame_length` are required.
pub open spec fn frame_length_error(len: nat, frame_length: nat) -> ErrorView {
    plain_error(
        CheetahErrorStatus::FrameLengthError,
        "Input data frame size ("@ + decimal(len) + ") does not match required size of "@
            + decimal(frame_length),
    )
}

/// The error for properties that the native engine reported out of range.
pub open spec fn invalid_properties_error() -> ErrorView {
    plain_error(
        CheetahErrorStatus::LibraryError(PvStatus::RUNTIME_ERROR),
        "Engine reported a non-positive frame length or sample rate"@,
    )
}

impl EngineProperties {
    #[verifier::type_invariant]
    spec fn positive(self) -> bool {
        self.frame_length > 0 && self.sample_rate > 0
    }

    /// The properties the native engine reported; both numbers must be positive.
    pub fn new(frame_length: i32, sample_rate: i32, version: String) -> (r: Result<
        Self,
        CheetahError,
    >)
        ensures
            r is Ok <==> frame_length > 0 && sample_rate > 0,
            r matches Ok(p) ==> p@ == (PropertiesView {
                frame_length: frame_length as int,
                sample_rate: sample_rate as int,
                version: version@,
            }),
            r matches Err(e) ==> e@ == invalid_properties_error(),
    {
        if frame_length > 0 && sample_rate > 0 {
            Ok(EngineProperties { frame_length, sample_rate, version })
        } else {
            Err(
                CheetahError::new(
                    CheetahErrorStatus::LibraryError(PvStatus::RUNTIME_ERROR),
                    String::from_str("Engine reported a non-positive frame length or sample rate"),
                ),
            )
        }
    }

    /// Samples per audio frame.
    pub fn frame_length(&self) -> (r: u32)
        ensures
            r as int == self@.frame_length,
            r > 0,
    {
        proof {
            use_type_invariant(self);
        }
        self.frame_length as u32
    }

    /// Audio samples per second.
    pub fn sample_rate(&self) -> (r: u32)
        ensures
            r as int == self@.sample_rate,
            r > 0,
    {
        proof {
            use_type_invariant(self);
        }
        self.sample_rate as u32
    }

    pub fn version(&self) -> (r: &str)
        ensures
            r@ == self@.version,
    {
        self.version.as_str()
    }

    /// Accepts a frame for the native engine only when its length is the
    /// engine's frame length; any other frame is refused here, so that it
    /// never reaches the native side.
    pub fn check_frame(&self, pcm: &[i16]) -> (r: Result<(), CheetahError>)
        ensures
            r is Ok <==> pcm@.len() == self@.frame_length,
            r matches Err(e) ==> e@ == frame_length_error(
                pcm@.len(),
                self@.frame_length as nat,
            ),
    {
        proof {
            use_type_invariant(self);
        }
        if pcm.len() == self.frame_length as usize {
            Ok(())
        } else {
            let mut message = String::from_str("Input data frame size (");
            append_decimal(&mut message, pcm.len() as u64);
            message.append(") does not match required size of ");
            append_decimal(&mut message, self.frame_length as u64);
            Err(CheetahError::new(CheetahErrorStatus::FrameLengthError, message))
        }
    }
}

/// The text recognized by one streaming call, and whether the engine
/// detected the end of an utterance at that call.
#[derive(Clone, Debug)]
pub struct CheetahTranscript {
    pub transcript: String,
    pub is_endpoint: bool,
}

/// The error for a transcript whose bytes are not text.
pub open spec fn transcript_error() -> ErrorView {
    plain_error(
        CheetahErrorStatus::LibraryError(PvStatus::RUNTIME_ERROR),
        "Failed to convert transcript string"@,
    )
}

fn invalid_transcript() -> (r: CheetahError)
    ensures
        r@ == transcript_error(),
{
    CheetahError::new(
        CheetahErrorStatus::LibraryError(PvStatus::RUNTIME_ERROR),
        String::from_str("Failed to convert transcript string"),
    )
}

impl CheetahTranscript {
    /// The result of a successful native process call, from its transcript
    /// (`None` when the native bytes were not text) and its endpoint flag.
    pub fn from_process(text: Option<String>, is_endpoint: bool) -> (r: Result<
        CheetahTranscript,
        CheetahError,
    >)
        ensures
            match text {
                Some(t) => r matches Ok(c) && c.transcript@ == t@ && c.is_endpoint == is_endpoint,
                None => r matches Err(e) && e@ == transcript_error(),
            },
    {
        match text {
            Some(t) => Ok(CheetahTranscript { transcript: t, is_endpoint }),
            None => Err(invalid_transcript()),
        }
    }

    /// The result of a successful native flush call. A flush ends the
    /// utterance itself, so its result never reports an endpoint.
    pub fn from_flush(text: Option<String>) -> (r: Result<CheetahTranscript, CheetahError>)
        ensures
            match text {
                Some(t) => r matches Ok(c) && c.transcript@ == t@ && !c.is_endpoint,
                None => r matches Err(e) && e@ == transcript_error(),
            },
            r matches Ok(c) ==> !c.is_endpoint,
    {
        match text {
            Some(t) => Ok(CheetahTranscript { transcript: t, is_endpoint: false }),
            None => Err(invalid_transcript()),
        }
    }
}

/// What releasing does: whether the native delete is issued, and whether an
/// instance is live afterwards.
pub open spec fn release_step(live: bool) -> (bool, bool) {
    (live, false)
}

/// Tracks whether a native instance exists, so that the native delete entry
/// point is called once for a created instance and never for one that was
/// not created.
pub struct InstanceRelease {
    live: bool,
}

impl View for InstanceRelease {
    type V = bool;

    closed spec fn view(&self) -> bool {
        self.live
    }
}

impl InstanceRelease {
    /// No instance yet.
    pub fn unset() -> (r: Self)
        ensures
            !r@,
    {
        InstanceRelease { live: false }
    }

    /// Records that the native engine handed out an instance.
    pub fn instance_created(&mut self)
        ensures
            final(self)@,
    {
        self.live = true;
    }

    pub fn is_live(&self) -> (r: bool)
        ensures
            r == self@,
    {
        self.live
    }

    /// Whether the instance must be deleted now; after this call no instance
    /// is live, so a later release deletes nothing.
    pub fn release(&mut self) -> (r: bool)
        ensures
            (r, final(self)@) == release_step(old(self)@),
    {
        let r = self.live;
        self.live = false;
        r
    }
}

/// Releasing twice issues the native delete at most once, and releasing an
/// instance that was never created issues none.
pub proof fn release_deletes_at_most_once(live: bool)
    ensures
        !(release_step(live).0 && release_step(release_step(live).1).0),
        !live ==> !release_step(live).0,
{
}

} // verus!

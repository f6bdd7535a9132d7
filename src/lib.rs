//! Safe, verified core of a binding to a streaming speech-to-text engine.
//!
//! The native engine is reached only by the application around this crate;
//! here live the decisions that surround every native call: argument
//! validation, the initialization sequence, frame checks, error-stack
//! translation, locating the native files and releasing the instance once.

pub mod builder;
pub mod engine;
pub mod error;
pub mod init;
pub mod locator;
pub mod status;
pub mod text;

pub use builder::{CheetahBuilder, EndpointDuration};
pub use engine::{
    translate_error, CheetahTranscript, EngineProperties, ErrorStackReply, InstanceRelease,
    NativeCall,
};
pub use error::{CheetahError, CheetahErrorStatus};
pub use init::{InitSession, InitStage, LoadOutcome, SDK_TAG};
pub use locator::{
    base_library_path, find_machine_type, pv_library_path, pv_model_path, Arch, LocatorError,
    Machine, Os,
};
pub use status::PvStatus;

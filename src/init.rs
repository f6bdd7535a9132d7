use vstd::prelude::*;

use crate::builder::{BuilderConfig, CheetahBuilder};
use crate::engine::{
    invalid_properties_error, translate_error, translated_error, EngineProperties, ErrorStackReply,
    NativeCall, PropertiesView,
};
use crate::error::{plain_error, CheetahError, CheetahErrorStatus, ErrorView};
use crate::status::PvStatus;

verus! {

/// The integration tag announced to the native engine before it is created.
pub const SDK_TAG: &'static str = "rust";

/// How loading the native library went: loaded with every entry point, not
/// opened at all (with the loader's diagnostic), or opened without one of the
/// entry points (its symbol, and the loader's diagnostic).
pub enum LoadOutcome {
    Loaded,
    OpenFailed(String),
    MissingSymbol(String, String),
}

/// Where the creation of an engine stands, and what it waits for.
pub enum InitStage {
    /// Waits to learn whether the model file exists.
    CheckModelPath,
    /// Waits to learn whether the native library exists.
    CheckLibraryPath,
    /// Waits for the native library to be loaded.
    LoadLibrary,
    /// Waits for the native engine to be created: the integration tag is
    /// announced, then the native init entry point is called.
    InitializeEngine,
    /// The native init call failed with this status; waits for the error stack.
    FetchErrorStack(PvStatus),
    /// Waits for the frame length, sample rate and version.
    ReadProperties,
    /// The engine exists, with these properties.
    Ready(EngineProperties),
    /// Creation failed.
    Failed(CheetahError),
}

pub ghost enum StageView {
    CheckModelPath,
    CheckLibraryPath,
    LoadLibrary,
    InitializeEngine,
    FetchErrorStack(PvStatus),
    ReadProperties,
    Ready(PropertiesView),
    Failed(ErrorView),
}

impl View for InitStage {
    type V = StageView;

    open spec fn view(&self) -> StageView {
        match self {
            InitStage::CheckModelPath => StageView::CheckModelPath,
            InitStage::CheckLibraryPath => StageView::CheckLibraryPath,
            InitStage::LoadLibrary => StageView::LoadLibrary,
            InitStage::InitializeEngine => StageView::InitializeEngine,
            InitStage::FetchErrorStack(s) => StageView::FetchErrorStack(*s),
            InitStage::ReadProperties => StageView::ReadProperties,
            InitStage::Ready(p) => StageView::Ready(p@),
            InitStage::Failed(e) => StageView::Failed(e@),
        }
    }
}

/// The argument error with the given message.
pub open spec fn argument_error(message: Seq<char>) -> StageView {
    StageView::Failed(plain_error(CheetahErrorStatus::ArgumentError, message))
}

/// Creation has ended with an argument error.
pub open spec fn is_argument_failure(s: StageView) -> bool {
    s matches StageView::Failed(e) && e.status == CheetahErrorStatus::ArgumentError
}

pub open spec fn has_nul(s: Seq<char>) -> bool {
    exists|i: int| 0 <= i < s.len() && s[i] == '\0'
}

/// The first stage: the access key must be non-empty and free of nul characters.
pub open spec fn start_stage(c: BuilderConfig) -> StageView {
    if c.access_key.len() == 0 {
        argument_error("AccessKey is empty"@)
    } else if has_nul(c.access_key) {
        argument_error("AccessKey is not a valid C string"@)
    } else {
        StageView::CheckModelPath
    }
}

/// The stage after learning whether the model file exists.
pub open spec fn model_checked_stage(c: BuilderConfig, exists: bool) -> StageView {
    if exists {
        StageView::CheckLibraryPath
    } else {
        argument_error("Couldn't find model file at "@ + c.model_path)
    }
}

/// The stage after learning whether the native library exists; the endpoint
/// duration is checked last.
pub open spec fn library_checked_stage(c: BuilderConfig, exists: bool) -> StageView {
    if !exists {
        argument_error("Couldn't find Cheetah's dynamic library at "@ + c.library_path)
    } else if c.endpoint_millis < 0 {
        argument_error("Endpoint duration must be non-negative"@)
    } else {
        StageView::LoadLibrary
    }
}

/// Where validation leaves a configuration, given whether its model file and
/// its native library exist.
pub open spec fn validation_outcome(
    c: BuilderConfig,
    model_exists: bool,
    library_exists: bool,
) -> StageView {
    match start_stage(c) {
        StageView::CheckModelPath => match model_checked_stage(c, model_exists) {
            StageView::CheckLibraryPath => library_checked_stage(c, library_exists),
            s => s,
        },
        s => s,
    }
}

/// The stage after an attempt to load the native library.
pub open spec fn load_stage(outcome: LoadOutcome) -> StageView {
    match outcome {
        LoadOutcome::Loaded => StageView::InitializeEngine,
        LoadOutcome::OpenFailed(d) => StageView::Failed(
            plain_error(
                CheetahErrorStatus::LibraryLoadError,
                "Failed to load cheetah dynamic library: "@ + d@,
            ),
        ),
        LoadOutcome::MissingSymbol(sym, d) => StageView::Failed(
            plain_error(
                CheetahErrorStatus::LibraryLoadError,
                "Failed to load function symbol '"@ + sym@ + "' from cheetah library: "@ + d@,
            ),
        ),
    }
}

/// The stage after the native init call returned `status`.
pub open spec fn initialized_stage(status: PvStatus) -> StageView {
    if status == PvStatus::SUCCESS {
        StageView::ReadProperties
    } else {
        StageView::FetchErrorStack(status)
    }
}

/// The stage after the native engine reported its properties.
pub open spec fn properties_stage(
    frame_length: i32,
    sample_rate: i32,
    version: Seq<char>,
) -> StageView {
    if frame_length > 0 && sample_rate > 0 {
        StageView::Ready(
            PropertiesView {
                frame_length: frame_length as int,
                sample_rate: sample_rate as int,
                version,
            },
        )
    } else {
        StageView::Failed(invalid_properties_error())
    }
}

pub ghost struct SessionView {
    pub config: BuilderConfig,
    pub stage: StageView,
}

/// The creation of one engine, as a sequence of decisions. The caller
/// performs what the current stage waits for and reports the result to the
/// matching method, until the stage is `Ready` or `Failed`.
pub struct InitSession {
    config: CheetahBuilder,
    stage: InitStage,
}

impl View for InitSession {
    type V = SessionView;

    closed spec fn view(&self) -> SessionView {
        SessionView { config: self.config@, stage: self.stage@ }
    }
}

fn has_nul_exec(s: &str) -> (r: bool)
    ensures
        r == has_nul(s@),
{
    let n = s.unicode_len();
    let mut i: usize = 0;
    while i < n
        invariant
            0 <= i <= n,
            n == s@.len(),
            forall|j: int| 0 <= j < i ==> s@[j] != '\0',
        decreases n - i,
    {
        if s.get_char(i) == '\0' {
            return true;
        }
        i = i + 1;
    }
    false
}

fn argument_failure(message: String) -> (r: InitStage)
    ensures
        r@ == argument_error(message@),
{
    InitStage::Failed(CheetahError::new(CheetahErrorStatus::ArgumentError, message))
}

impl InitSession {
    /// A stage that waits for an error stack holds the failure it explains.
    #[verifier::type_invariant]
    spec fn failure_recorded(self) -> bool {
        self.stage matches InitStage::FetchErrorStack(s) ==> s != PvStatus::SUCCESS
    }

    /// Starts creating an engine with the given configuration.
    pub fn start(config: CheetahBuilder) -> (r: Self)
        ensures
            r@.config == config@,
            r@.stage == start_stage(config@),
    {
        let key = config.get_access_key();
        let stage = if key.unicode_len() == 0 {
            argument_failure(String::from_str("AccessKey is empty"))
        } else if has_nul_exec(key) {
            argument_failure(String::from_str("AccessKey is not a valid C string"))
        } else {
            InitStage::CheckModelPath
        };
        InitSession { config, stage }
    }

    pub fn stage(&self) -> (r: &InitStage)
        ensures
            r@ == self@.stage,
    {
        &self.stage
    }

    pub fn config(&self) -> (r: &CheetahBuilder)
        ensures
            r@ == self@.config,
    {
        &self.config
    }

    pub fn model_path_checked(&mut self, exists: bool)
        requires
            old(self)@.stage == StageView::CheckModelPath,
        ensures
            final(self)@.config == old(self)@.config,
            final(self)@.stage == model_checked_stage(old(self)@.config, exists),
    {
        if exists {
            self.stage = InitStage::CheckLibraryPath;
        } else {
            let mut message = String::from_str("Couldn't find model file at ");
            message.append(self.config.get_model_path());
            self.stage = argument_failure(message);
        }
    }

    pub fn library_path_checked(&mut self, exists: bool)
        requires
            old(self)@.stage == StageView::CheckLibraryPath,
        ensures
            final(self)@.config == old(self)@.config,
            final(self)@.stage == library_checked_stage(old(self)@.config, exists),
    {
        if !exists {
            let mut message = String::from_str("Couldn't find Cheetah's dynamic library at ");
            message.append(self.config.get_library_path());
            self.stage = argument_failure(message);
        } else if self.config.get_endpoint_duration().millis < 0 {
            self.stage = argument_failure(
                String::from_str("Endpoint duration must be non-negative"),
            );
        } else {
            self.stage = InitStage::LoadLibrary;
        }
    }

    pub fn library_loaded(&mut self, outcome: LoadOutcome)
        requires
            old(self)@.stage == StageView::LoadLibrary,
        ensures
            final(self)@.config == old(self)@.config,
            final(self)@.stage == load_stage(outcome),
    {
        match outcome {
            LoadOutcome::Loaded => {
                self.stage = InitStage::InitializeEngine;
            },
            LoadOutcome::OpenFailed(d) => {
                let mut message = String::from_str("Failed to load cheetah dynamic library: ");
                message.append(d.as_str());
                self.stage = InitStage::Failed(
                    CheetahError::new(CheetahErrorStatus::LibraryLoadError, message),
                );
            },
            LoadOutcome::MissingSymbol(sym, d) => {
                let mut message = String::from_str("Failed to load function symbol '");
                message.append(sym.as_str());
                message.append("' from cheetah library: ");
                message.append(d.as_str());
                self.stage = InitStage::Failed(
                    CheetahError::new(CheetahErrorStatus::LibraryLoadError, message),
                );
            },
        }
    }

    pub fn engine_initialized(&mut self, status: PvStatus)
        requires
            old(self)@.stage == StageView::InitializeEngine,
        ensures
            final(self)@.config == old(self)@.config,
            final(self)@.stage == initialized_stage(status),
    {
        if status.is_success() {
            self.stage = InitStage::ReadProperties;
        } else {
            self.stage = InitStage::FetchErrorStack(status);
        }
    }

    pub fn error_stack_fetched(&mut self, stack: ErrorStackReply)
        requires
            old(self)@.stage matches StageView::FetchErrorStack(_),
        ensures
            final(self)@.config == old(self)@.config,
            old(self)@.stage matches StageView::FetchErrorStack(s) && final(self)@.stage
                == StageView::Failed(
                translated_error(s, NativeCall::Init, stack.status, stack.messages.deep_view()),
            ),
    {
        proof {
            use_type_invariant(&*self);
        }
        if let InitStage::FetchErrorStack(s) = self.stage {
            self.stage = InitStage::Failed(translate_error(s, NativeCall::Init, stack));
        }
    }

    pub fn properties_read(&mut self, frame_length: i32, sample_rate: i32, version: String)
        requires
            old(self)@.stage == StageView::ReadProperties,
        ensures
            final(self)@.config == old(self)@.config,
            final(self)@.stage == properties_stage(frame_length, sample_rate, version@),
    {
        match EngineProperties::new(frame_length, sample_rate, version) {
            Ok(p) => {
                self.stage = InitStage::Ready(p);
            },
            Err(e) => {
                self.stage = InitStage::Failed(e);
            },
        }
    }

    /// The engine's properties once it exists, the error once creation has
    /// failed, and `None` while creation is still under way.
    pub fn into_result(self) -> (r: Option<Result<EngineProperties, CheetahError>>)
        ensures
            match self@.stage {
                StageView::Ready(p) => r matches Some(Ok(q)) && q@ == p,
                StageView::Failed(e) => r matches Some(Err(x)) && x@ == e,
                _ => r is None,
            },
    {
        match self.stage {
            InitStage::Ready(p) => Some(Ok(p)),
            InitStage::Failed(e) => Some(Err(e)),
            _ => None,
        }
    }
}

/// Validation either lets the native library be loaded, exactly when the
/// access key is a non-empty nul-free text, both files exist and the endpoint
/// duration is not negative, or ends creation with an argument error.
pub proof fn validation_gates_loading(c: BuilderConfig, model_exists: bool, library_exists: bool)
    ensures
        (validation_outcome(c, model_exists, library_exists) == StageView::LoadLibrary) <==> (
        c.access_key.len() > 0 && !has_nul(c.access_key) && model_exists && library_exists
            && c.endpoint_millis >= 0),
        validation_outcome(c, model_exists, library_exists) != StageView::LoadLibrary
            ==> is_argument_failure(validation_outcome(c, model_exists, library_exists)),
{
}

/// An empty access key is refused with an argument error by the first stage,
/// before any file is looked at and before the native library is loaded.
pub proof fn empty_access_key_is_rejected(c: BuilderConfig, model_exists: bool, library_exists: bool)
    requires
        c.access_key.len() == 0,
    ensures
        is_argument_failure(start_stage(c)),
        validation_outcome(c, model_exists, library_exists) == start_stage(c),
{
}

/// A configuration whose model file or native library does not exist ends in
/// an argument error, before the native library is loaded.
pub proof fn missing_file_is_rejected(c: BuilderConfig, model_exists: bool, library_exists: bool)
    requires
        !model_exists || !library_exists,
    ensures
        is_argument_failure(validation_outcome(c, model_exists, library_exists)),
{
}

/// A negative endpoint duration ends creation with an argument error.
pub proof fn negative_endpoint_is_rejected(c: BuilderConfig, model_exists: bool, library_exists: bool)
    requires
        c.endpoint_millis < 0,
    ensures
        is_argument_failure(validation_outcome(c, model_exists, library_exists)),
{
}

/// Creation ends ready when the configuration passes every check and every
/// native reply succeeds: the library loads, the native init call returns
/// success, and the reported frame length and sample rate are positive. The
/// engine then has exactly the properties the native side reported.
pub proof fn successful_replies_create_engine(
    c: BuilderConfig,
    frame_length: i32,
    sample_rate: i32,
    version: Seq<char>,
)
    requires
        c.access_key.len() > 0,
        !has_nul(c.access_key),
        c.endpoint_millis >= 0,
        frame_length > 0,
        sample_rate > 0,
    ensures
        validation_outcome(c, true, true) == StageView::LoadLibrary,
        load_stage(LoadOutcome::Loaded) == StageView::InitializeEngine,
        initialized_stage(PvStatus::SUCCESS) == StageView::ReadProperties,
        properties_stage(frame_length, sample_rate, version) == StageView::Ready(
            PropertiesView {
                frame_length: frame_length as int,
                sample_rate: sample_rate as int,
                version,
            },
        ),
{
}

} // verus!

use cheetah::{
    CheetahBuilder, CheetahError, CheetahErrorStatus, EndpointDuration, ErrorStackReply,
    InitSession, InitStage, LoadOutcome, PvStatus,
};

fn builder(key: &str) -> CheetahBuilder {
    let mut b = CheetahBuilder::new(String::from("/m/cheetah_params.pv"), String::from("/l/libpv_cheetah.so"));
    b.access_key(String::from(key));
    b
}

fn failure(session: InitSession) -> CheetahError {
    match session.into_result() {
        Some(Err(e)) => e,
        _ => panic!("creation did not fail"),
    }
}

/// Answers the existence checks; returns whether the session asked to load the library.
fn validate(session: &mut InitSession, model_exists: bool, library_exists: bool) -> bool {
    if let InitStage::CheckModelPath = session.stage() {
        session.model_path_checked(model_exists);
    }
    if let InitStage::CheckLibraryPath = session.stage() {
        session.library_path_checked(library_exists);
    }
    matches!(session.stage(), InitStage::LoadLibrary)
}

#[test]
fn builder_defaults_and_setters() {
    let mut b = CheetahBuilder::new(String::from("model"), String::from("lib"));
    assert_eq!(b.get_access_key(), "");
    assert_eq!(b.get_model_path(), "model");
    assert_eq!(b.get_library_path(), "lib");
    assert_eq!(b.get_endpoint_duration(), EndpointDuration { millis: 1000 });
    assert!(!b.get_enable_automatic_punctuation());
    b.access_key(String::from("key"));
    b.model_path(String::from("m2"));
    b.library_path(String::from("l2"));
    b.endpoint_duration_sec(EndpointDuration { millis: 0 });
    b.enable_automatic_punctuation(true);
    assert_eq!(b.get_access_key(), "key");
    assert_eq!(b.get_model_path(), "m2");
    assert_eq!(b.get_library_path(), "l2");
    assert_eq!(b.get_endpoint_duration(), EndpointDuration { millis: 0 });
    assert!(b.get_enable_automatic_punctuation());
}

#[test]
fn empty_access_key_fails_before_loading() {
    let mut s = InitSession::start(builder(""));
    assert!(!validate(&mut s, true, true));
    let e = failure(s);
    assert_eq!(e.status(), CheetahErrorStatus::ArgumentError);
    assert_eq!(e.message, "AccessKey is empty");
}

#[test]
fn access_key_with_nul_fails() {
    let mut s = InitSession::start(builder("ab\0cd"));
    assert!(!validate(&mut s, true, true));
    let e = failure(s);
    assert_eq!(e.status(), CheetahErrorStatus::ArgumentError);
    assert_eq!(e.message, "AccessKey is not a valid C string");
}

#[test]
fn missing_model_file_fails_before_loading() {
    let mut s = InitSession::start(builder("key"));
    assert!(!validate(&mut s, false, true));
    let e = failure(s);
    assert_eq!(e.status(), CheetahErrorStatus::ArgumentError);
    assert_eq!(e.message, "Couldn't find model file at /m/cheetah_params.pv");
}

#[test]
fn missing_library_fails_before_loading() {
    let mut s = InitSession::start(builder("key"));
    assert!(!validate(&mut s, true, false));
    let e = failure(s);
    assert_eq!(e.status(), CheetahErrorStatus::ArgumentError);
    assert_eq!(e.message, "Couldn't find Cheetah's dynamic library at /l/libpv_cheetah.so");
}

#[test]
fn negative_endpoint_duration_fails() {
    let mut b = builder("key");
    b.endpoint_duration_sec(EndpointDuration { millis: -1 });
    let mut s = InitSession::start(b);
    assert!(!validate(&mut s, true, true));
    let e = failure(s);
    assert_eq!(e.status(), CheetahErrorStatus::ArgumentError);
    assert_eq!(e.message, "Endpoint duration must be non-negative");
}

#[test]
fn zero_endpoint_duration_is_accepted() {
    let mut b = builder("key");
    b.endpoint_duration_sec(EndpointDuration { millis: 0 });
    let mut s = InitSession::start(b);
    assert!(validate(&mut s, true, true));
    assert!(s.into_result().is_none());
}

#[test]
fn library_open_failure() {
    let mut s = InitSession::start(builder("key"));
    assert!(validate(&mut s, true, true));
    s.library_loaded(LoadOutcome::OpenFailed(String::from("no such file")));
    let e = failure(s);
    assert_eq!(e.status(), CheetahErrorStatus::LibraryLoadError);
    assert_eq!(e.message, "Failed to load cheetah dynamic library: no such file");
}

#[test]
fn library_missing_symbol() {
    let mut s = InitSession::start(builder("key"));
    assert!(validate(&mut s, true, true));
    s.library_loaded(LoadOutcome::MissingSymbol(String::from("pv_cheetah_flush"), String::from("undefined symbol")));
    let e = failure(s);
    assert_eq!(e.status(), CheetahErrorStatus::LibraryLoadError);
    assert_eq!(
        e.message,
        "Failed to load function symbol 'pv_cheetah_flush' from cheetah library: undefined symbol"
    );
}

fn initialized(status: PvStatus) -> InitSession {
    let mut s = InitSession::start(builder("key"));
    assert!(validate(&mut s, true, true));
    s.library_loaded(LoadOutcome::Loaded);
    assert!(matches!(s.stage(), InitStage::InitializeEngine));
    s.engine_initialized(status);
    s
}

#[test]
fn native_init_failure_carries_error_stack() {
    let mut s = initialized(PvStatus::ACTIVATION_ERROR);
    assert!(matches!(s.stage(), InitStage::FetchErrorStack(PvStatus::ACTIVATION_ERROR)));
    s.error_stack_fetched(ErrorStackReply {
        status: PvStatus::SUCCESS,
        messages: vec![String::from("invalid AccessKey"), String::from("init failed")],
    });
    let e = failure(s);
    assert_eq!(e.status(), CheetahErrorStatus::LibraryError(PvStatus::ACTIVATION_ERROR));
    assert_eq!(e.message, "'pv_cheetah_init' failed");
    assert_eq!(e.message_stack, vec!["invalid AccessKey", "init failed"]);
}

#[test]
fn same_native_failure_gives_same_stack() {
    let stacks: Vec<Vec<String>> = (0..2)
        .map(|_| {
            let mut s = initialized(PvStatus::INVALID_ARGUMENT);
            s.error_stack_fetched(ErrorStackReply {
                status: PvStatus::SUCCESS,
                messages: vec![String::from("AccessKey 'invalid' is invalid")],
            });
            failure(s).message_stack
        })
        .collect();
    assert_eq!(stacks[0].len(), stacks[1].len());
    assert!(0 < stacks[0].len() && stacks[0].len() <= 8);
    for i in 0..stacks[0].len() {
        assert_eq!(stacks[0][i], stacks[1][i]);
    }
}

#[test]
fn failed_error_stack_query_is_reported() {
    let mut s = initialized(PvStatus::INVALID_ARGUMENT);
    s.error_stack_fetched(ErrorStackReply { status: PvStatus::OUT_OF_MEMORY, messages: vec![] });
    let e = failure(s);
    assert_eq!(e.status(), CheetahErrorStatus::LibraryError(PvStatus::OUT_OF_MEMORY));
    assert_eq!(e.message, "Unable to get Cheetah error state");
    assert!(e.message_stack.is_empty());
}

#[test]
fn successful_creation_reports_properties() {
    let mut s = initialized(PvStatus::SUCCESS);
    assert!(matches!(s.stage(), InitStage::ReadProperties));
    s.properties_read(512, 16000, String::from("2.0.0"));
    let p = match s.into_result() {
        Some(Ok(p)) => p,
        _ => panic!("creation failed"),
    };
    assert_eq!(p.frame_length(), 512);
    assert_eq!(p.sample_rate(), 16000);
    assert_eq!(p.version(), "2.0.0");
    assert_eq!(p.frame_length(), 512);
    assert_eq!(p.sample_rate(), 16000);
}

#[test]
fn non_positive_properties_fail() {
    let mut s = initialized(PvStatus::SUCCESS);
    s.properties_read(0, 16000, String::from("2.0.0"));
    let e = failure(s);
    assert_eq!(e.status(), CheetahErrorStatus::LibraryError(PvStatus::RUNTIME_ERROR));
    let mut s = initialized(PvStatus::SUCCESS);
    s.properties_read(512, -1, String::from("2.0.0"));
    assert_eq!(failure(s).status(), CheetahErrorStatus::LibraryError(PvStatus::RUNTIME_ERROR));
}

#[test]
fn session_keeps_configuration() {
    let mut b = builder("key");
    b.enable_automatic_punctuation(true);
    let s = InitSession::start(b);
    assert_eq!(s.config().get_access_key(), "key");
    assert!(s.config().get_enable_automatic_punctuation());
}

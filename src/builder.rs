use vstd::prelude::*;

verus! {

/// How long a silence must last before the engine reports an endpoint, in
/// milliseconds. Zero turns endpoint detection off; a negative value is
/// rejected when the engine is created.
#[derive(PartialEq, Eq, Structural, Clone, Copy, Debug)]
pub struct EndpointDuration {
    pub millis: i64,
}

/// The endpoint duration used unless another is set: one second.
pub const DEFAULT_ENDPOINT_MILLIS: i64 = 1000;

/// Automatic punctuation is off unless enabled.
pub const DEFAULT_ENABLE_AUTOMATIC_PUNCTUATION: bool = false;

/// A configuration, as values.
pub ghost struct BuilderConfig {
    pub access_key: Seq<char>,
    pub model_path: Seq<char>,
    pub library_path: Seq<char>,
    pub endpoint_millis: int,
    pub enable_automatic_punctuation: bool,
}

/// Collects the configuration of an engine before it is created.
#[derive(Clone, Debug)]
pub struct CheetahBuilder {
    access_key: String,
    model_path: String,
    library_path: String,
    endpoint_duration: EndpointDuration,
    enable_automatic_punctuation: bool,
}

impl View for CheetahBuilder {
    type V = BuilderConfig;

    closed spec fn view(&self) -> BuilderConfig {
        BuilderConfig {
            access_key: self.access_key@,
            model_path: self.model_path@,
            library_path: self.library_path@,
            endpoint_millis: self.endpoint_duration.millis as int,
            enable_automatic_punctuation: self.enable_automatic_punctuation,
        }
    }
}

impl CheetahBuilder {
    /// A configuration with no access key, the given model and library
    /// paths (those the library locator found, as a rule), a one-second
    /// endpoint duration and punctuation off.
    pub fn new(model_path: String, library_path: String) -> (r: Self)
        ensures
            r@ == (BuilderConfig {
                access_key: Seq::empty(),
                model_path: model_path@,
                library_path: library_path@,
                endpoint_millis: DEFAULT_ENDPOINT_MILLIS as int,
                enable_automatic_punctuation: DEFAULT_ENABLE_AUTOMATIC_PUNCTUATION,
            }),
    {
        let r = CheetahBuilder {
            access_key: String::new(),
            model_path,
            library_path,
            endpoint_duration: EndpointDuration { millis: DEFAULT_ENDPOINT_MILLIS },
            enable_automatic_punctuation: DEFAULT_ENABLE_AUTOMATIC_PUNCTUATION,
        };
        assert(r@.access_key =~= Seq::<char>::empty());
        r
    }

    pub fn access_key(&mut self, access_key: String)
        ensures
            final(self)@ == (BuilderConfig { access_key: access_key@, ..old(self)@ }),
    {
        self.access_key = access_key;
    }

    pub fn model_path(&mut self, model_path: String)
        ensures
            final(self)@ == (BuilderConfig { model_path: model_path@, ..old(self)@ }),
    {
        self.model_path = model_path;
    }

    pub fn library_path(&mut self, library_path: String)
        ensures
            final(self)@ == (BuilderConfig { library_path: library_path@, ..old(self)@ }),
    {
        self.library_path = library_path;
    }

    pub fn endpoint_duration_sec(&mut self, endpoint_duration: EndpointDuration)
        ensures
            final(self)@ == (BuilderConfig {
                endpoint_millis: endpoint_duration.millis as int,
                ..old(self)@
            }),
    {
        self.endpoint_duration = endpoint_duration;
    }

    pub fn enable_automatic_punctuation(&mut self, enable_automatic_punctuation: bool)
        ensures
            final(self)@ == (BuilderConfig { enable_automatic_punctuation, ..old(self)@ }),
    {
        self.enable_automatic_punctuation = enable_automatic_punctuation;
    }

    pub fn get_access_key(&self) -> (r: &str)
        ensures
            r@ == self@.access_key,
    {
        self.access_key.as_str()
    }

    pub fn get_model_path(&self) -> (r: &str)
        ensures
            r@ == self@.model_path,
    {
        self.model_path.as_str()
    }

    pub fn get_library_path(&self) -> (r: &str)
        ensures
            r@ == self@.library_path,
    {
        self.library_path.as_str()
    }

    pub fn get_endpoint_duration(&self) -> (r: EndpointDuration)
        ensures
            r.millis as int == self@.endpoint_millis,
    {
        self.endpoint_duration
    }

    pub fn get_enable_automatic_punctuation(&self) -> (r: bool)
        ensures
            r == self@.enable_automatic_punctuation,
    {
        self.enable_automatic_punctuation
    }
}

} // verus!

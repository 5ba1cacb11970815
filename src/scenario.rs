use vstd::prelude::*;
use vstd::string::*;

verus! {

/// Why a scenario could not be built.
#[derive(Debug, Clone, Copy, PartialEq, Eq)]
pub enum ScenarioError {
    MissingMissileConfig,
    MissingTargetConfig,
}

/// Text of each construction error.
pub open spec fn error_text(e: ScenarioError) -> Seq<char> {
    match e {
        ScenarioError::MissingMissileConfig => "missile_config is required"@,
        ScenarioError::MissingTargetConfig => "target_config is required"@,
    }
}

impl ScenarioError {
    /// Human-readable description of the error.
    pub fn message(&self) -> (r: &'static str)
        ensures
            r@ == error_text(*self),
    {
        match self {
            ScenarioError::MissingMissileConfig => "missile_config is required",
            ScenarioError::MissingTargetConfig => "target_config is required",
        }
    }
}

/// An immutable engagement set-up: a name, the interceptor's and the target's
/// configuration, and the timing parameters of a run.
#[derive(Debug, Clone)]
pub struct Scenario<M, T, P> {
    pub name: String,
    pub missile_config: M,
    pub target_config: T,
    pub timing: P,
}

/// Collects the parts of a scenario; `build` fails unless both
/// configurations were given.
#[derive(Debug, Clone)]
pub struct ScenarioBuilder<M, T, P> {
    name: String,
    missile_config: Option<M>,
    target_config: Option<T>,
    timing: P,
}

impl<M, T, P> ScenarioBuilder<M, T, P> {
    /// Name the scenario will carry.
    pub closed spec fn spec_name(&self) -> Seq<char> {
        self.name@
    }

    /// Interceptor configuration given so far.
    pub closed spec fn spec_missile(&self) -> Option<M> {
        self.missile_config
    }

    /// Target configuration given so far.
    pub closed spec fn spec_target(&self) -> Option<T> {
        self.target_config
    }

    /// Timing parameters given so far.
    pub closed spec fn spec_timing(&self) -> P {
        self.timing
    }

    /// A builder with no configurations and the given timing parameters.
    pub fn new(name: &str, timing: P) -> (r: Self)
        ensures
            r.spec_name() == name@,
            r.spec_missile() is None,
            r.spec_target() is None,
            r.spec_timing() == timing,
    {
        ScenarioBuilder {
            name: String::from_str(name),
            missile_config: None,
            target_config: None,
            timing,
        }
    }

    pub fn missile_config(self, config: M) -> (r: Self)
        ensures
            r.spec_name() == self.spec_name(),
            r.spec_missile() == Some(config),
            r.spec_target() == self.spec_target(),
            r.spec_timing() == self.spec_timing(),
    {
        ScenarioBuilder { missile_config: Some(config), ..self }
    }

    pub fn target_config(self, config: T) -> (r: Self)
        ensures
            r.spec_name() == self.spec_name(),
            r.spec_missile() == self.spec_missile(),
            r.spec_target() == Some(config),
            r.spec_timing() == self.spec_timing(),
    {
        ScenarioBuilder { target_config: Some(config), ..self }
    }

    pub fn timing(self, timing: P) -> (r: Self)
        ensures
            r.spec_name() == self.spec_name(),
            r.spec_missile() == self.spec_missile(),
            r.spec_target() == self.spec_target(),
            r.spec_timing() == timing,
    {
        ScenarioBuilder { timing, ..self }
    }

    /// The scenario, or the first missing configuration (the interceptor's is
    /// checked first).
    pub fn build(self) -> (r: Result<Scenario<M, T, P>, ScenarioError>)
        ensures
            self.spec_missile() is None ==> r == Err::<Scenario<M, T, P>, ScenarioError>(
                ScenarioError::MissingMissileConfig,
            ),
            self.spec_missile() is Some && self.spec_target() is None ==> r == Err::<
                Scenario<M, T, P>,
                ScenarioError,
            >(ScenarioError::MissingTargetConfig),
            self.spec_missile() is Some && self.spec_target() is Some ==> (r matches Ok(s) && {
                &&& s.name@ == self.spec_name()
                &&& Some(s.missile_config) == self.spec_missile()
                &&& Some(s.target_config) == self.spec_target()
                &&& s.timing == self.spec_timing()
            }),
    {
        let missile_config = match self.missile_config {
            Some(c) => c,
            None => {
                return Err(ScenarioError::MissingMissileConfig);
            },
        };
        let target_config = match self.target_config {
            Some(c) => c,
            None => {
                return Err(ScenarioError::MissingTargetConfig);
            },
        };
        Ok(Scenario { name: self.name, missile_config, target_config, timing: self.timing })
    }
}

} // verus!

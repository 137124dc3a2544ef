//! The container engine that image commands run: Docker or Podman.
use vstd::prelude::*;
use crate::env_snapshot::EnvSnapshot;
use crate::error::{CompanyCiError, ErrorView};
use crate::text::{str_eq, trim, trim_chars};

verus! {

/// The supported container engines.
#[derive(Debug, Clone, Copy, PartialEq, Eq, Structural)]
pub enum ContainerEngine {
    Docker,
    Podman,
}

/// The name of the engine's binary.
pub open spec fn engine_binary(e: ContainerEngine) -> Seq<char> {
    match e {
        ContainerEngine::Docker => "docker"@,
        ContainerEngine::Podman => "podman"@,
    }
}

/// The engine a configured value names, once trimmed.
pub open spec fn spec_parse_engine(value: Seq<char>) -> Result<ContainerEngine, ErrorView> {
    let v = trim_chars(value);
    if v == "docker"@ {
        Ok(ContainerEngine::Docker)
    } else if v == "podman"@ {
        Ok(ContainerEngine::Podman)
    } else {
        Err(
            ErrorView::InvalidArgument(
                "unsupported container engine: "@ + v + ". Expected docker or podman"@,
            ),
        )
    }
}

/// The name of the variable that selects the engine.
pub open spec fn engine_variable() -> Seq<char> {
    "COMPANY_CI_CONTAINER_ENGINE"@
}

/// The engine an environment selects: Docker when the variable is absent, an
/// error when its value is not Unicode, else the engine its value names.
pub open spec fn spec_engine_from_env(
    vars: Seq<(Seq<char>, Seq<char>)>,
    not_unicode: Seq<Seq<char>>,
) -> Result<ContainerEngine, ErrorView> {
    if not_unicode.contains(engine_variable()) {
        Err(ErrorView::InvalidArgument("COMPANY_CI_CONTAINER_ENGINE must be valid UTF-8"@))
    } else {
        match crate::env_snapshot::lookup(vars, engine_variable()) {
            Some(v) => spec_parse_engine(v),
            None => Ok(ContainerEngine::Docker),
        }
    }
}

/// The value of an engine outcome.
pub open spec fn engine_outcome(r: Result<ContainerEngine, CompanyCiError>) -> Result<
    ContainerEngine,
    ErrorView,
> {
    match r {
        Ok(e) => Ok(e),
        Err(e) => Err(e@),
    }
}

impl ContainerEngine {
    /// Reads the engine from the environment.
    pub fn from_env(env: &EnvSnapshot) -> (r: Result<Self, CompanyCiError>)
        ensures
            engine_outcome(r) == spec_engine_from_env(env@.vars, env@.not_unicode),
    {
        if env.is_not_unicode("COMPANY_CI_CONTAINER_ENGINE") {
            return Err(
                CompanyCiError::InvalidArgument(
                    "COMPANY_CI_CONTAINER_ENGINE must be valid UTF-8".to_owned(),
                ),
            );
        }
        match env.var("COMPANY_CI_CONTAINER_ENGINE") {
            Some(value) => Self::parse(value.as_str()),
            None => Ok(ContainerEngine::Docker),
        }
    }

    /// The engine a configured value names; surrounding whitespace is ignored.
    pub fn parse(value: &str) -> (r: Result<Self, CompanyCiError>)
        ensures
            engine_outcome(r) == spec_parse_engine(value@),
    {
        let v = trim(value);
        if str_eq(v, "docker") {
            Ok(ContainerEngine::Docker)
        } else if str_eq(v, "podman") {
            Ok(ContainerEngine::Podman)
        } else {
            Err(
                CompanyCiError::InvalidArgument(
                    "unsupported container engine: ".to_owned().concat(v).concat(
                        ". Expected docker or podman",
                    ),
                ),
            )
        }
    }

    /// The binary that runs this engine.
    pub fn binary(self) -> (r: &'static str)
        ensures
            r@ == engine_binary(self),
    {
        match self {
            ContainerEngine::Docker => "docker",
            ContainerEngine::Podman => "podman",
        }
    }
}

/// Reading back the name of an engine's binary gives the same engine.
pub proof fn lemma_parse_binary_round_trip(e: ContainerEngine)
    ensures
        spec_parse_engine(engine_binary(e)) == Ok::<ContainerEngine, ErrorView>(e),
{
    reveal_strlit("docker");
    reveal_strlit("podman");
    let s = engine_binary(e);
    assert(!crate::text::is_white_space(s[0]));
    assert(!crate::text::is_white_space(s.last()));
    assert(trim_chars(s) == s);
    assert("docker"@ != "podman"@) by {
        assert("docker"@[0] != "podman"@[0]);
    }
}

} // verus!

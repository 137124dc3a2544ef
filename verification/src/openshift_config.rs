//! OpenShift authentication settings read from the environment.
use vstd::prelude::*;
use crate::env_snapshot::{EnvSnapshot, EnvSnapshotView};
use crate::error::{CompanyCiError, ErrorView};
use crate::requirements::{secret_req, variable_req, EnvRequirement, EnvRequirementView};
use crate::text::{ascii_lowercase, lowercase_equals, trim, trim_chars};

verus! {

/// How the tool logs in to OpenShift.
#[derive(Debug, Clone, PartialEq, Eq)]
pub struct OpenshiftConfig {
    skip_tls_verify: bool,
}

impl View for OpenshiftConfig {
    type V = bool;

    /// Whether TLS verification is skipped.
    closed spec fn view(&self) -> bool {
        self.skip_tls_verify
    }
}

/// The variable that turns off TLS verification of the OpenShift API.
pub open spec fn skip_tls_variable() -> Seq<char> {
    "COMPANY_CI_OPENSHIFT_SKIP_TLS_VERIFY"@
}

/// An optional boolean setting: absent or blank is unset; `1`, `true`,
/// `yes` and `0`, `false`, `no` are read in any ASCII case after trimming;
/// anything else is refused.
pub open spec fn spec_optional_bool(plan: Seq<char>, name: Seq<char>, value: Option<Seq<char>>) -> Result<
    Option<bool>,
    ErrorView,
> {
    match value {
        None => Ok(None),
        Some(v) => {
            let n = ascii_lowercase(trim_chars(v));
            if n == ""@ {
                Ok(None)
            } else if n == "1"@ || n == "true"@ || n == "yes"@ {
                Ok(Some(true))
            } else if n == "0"@ || n == "false"@ || n == "no"@ {
                Ok(Some(false))
            } else {
                Err(
                    ErrorView::InvalidEnvValue {
                        plan,
                        name,
                        message: "expected one of: true, false, 1, 0, yes, no"@,
                    },
                )
            }
        },
    }
}

/// Whether TLS verification is skipped in an environment, or the error a
/// malformed setting gives.
pub open spec fn spec_skip_tls_verify(plan: Seq<char>, env: EnvSnapshotView) -> Result<bool, ErrorView> {
    match spec_optional_bool(plan, skip_tls_variable(), env.var(skip_tls_variable())) {
        Ok(Some(b)) => Ok(b),
        Ok(None) => Ok(false),
        Err(e) => Err(e),
    }
}

/// The command that logs in with the API URL and token from the environment.
pub open spec fn spec_login_command(skip_tls_verify: bool) -> Seq<char> {
    "oc login \"$COMPANY_CI_OPENSHIFT_API_URL\" --token \"$COMPANY_CI_OPENSHIFT_TOKEN\""@ + if skip_tls_verify {
        " --insecure-skip-tls-verify=true"@
    } else {
        ""@
    }
}

/// The variables an OpenShift login needs.
pub open spec fn spec_auth_requirements() -> Seq<EnvRequirementView> {
    seq![variable_req("COMPANY_CI_OPENSHIFT_API_URL"@), secret_req("COMPANY_CI_OPENSHIFT_TOKEN"@)]
}

/// The value of a configuration outcome.
pub open spec fn config_outcome(r: Result<OpenshiftConfig, CompanyCiError>) -> Result<bool, ErrorView> {
    match r {
        Ok(c) => Ok(c@),
        Err(e) => Err(e@),
    }
}

fn parse_optional_bool(plan_name: &str, env_name: &str, value: Option<String>) -> (r: Result<
    Option<bool>,
    CompanyCiError,
>)
    ensures
        match r {
            Ok(b) => spec_optional_bool(plan_name@, env_name@, crate::env_snapshot::opt_view(value))
                == Ok::<Option<bool>, ErrorView>(b),
            Err(e) => spec_optional_bool(plan_name@, env_name@, crate::env_snapshot::opt_view(value))
                == Err::<Option<bool>, ErrorView>(e@),
        },
{
    let value = match value {
        Some(v) => v,
        None => return Ok(None),
    };
    let normalized = trim(value.as_str());
    if lowercase_equals(normalized, "") {
        Ok(None)
    } else if lowercase_equals(normalized, "1") || lowercase_equals(normalized, "true")
        || lowercase_equals(normalized, "yes") {
        Ok(Some(true))
    } else if lowercase_equals(normalized, "0") || lowercase_equals(normalized, "false")
        || lowercase_equals(normalized, "no") {
        Ok(Some(false))
    } else {
        Err(
            CompanyCiError::InvalidEnvValue {
                plan: plan_name.to_owned(),
                name: env_name.to_owned(),
                message: "expected one of: true, false, 1, 0, yes, no".to_owned(),
            },
        )
    }
}

impl OpenshiftConfig {
    /// The configuration the environment gives; TLS verification is kept
    /// unless the setting says to skip it.
    pub fn from_lookup(plan_name: &str, env: &EnvSnapshot) -> (r: Result<Self, CompanyCiError>)
        ensures
            config_outcome(r) == spec_skip_tls_verify(plan_name@, env@),
    {
        let parsed = parse_optional_bool(
            plan_name,
            "COMPANY_CI_OPENSHIFT_SKIP_TLS_VERIFY",
            env.var("COMPANY_CI_OPENSHIFT_SKIP_TLS_VERIFY"),
        );
        match parsed {
            Ok(Some(b)) => Ok(OpenshiftConfig { skip_tls_verify: b }),
            Ok(None) => Ok(OpenshiftConfig { skip_tls_verify: false }),
            Err(e) => Err(e),
        }
    }

    /// The variables an OpenShift login needs.
    pub fn auth_requirements() -> (r: Vec<EnvRequirement>)
        ensures
            r@.map_values(|q: EnvRequirement| q@) == spec_auth_requirements(),
    {
        let r = vec![
            EnvRequirement::variable("COMPANY_CI_OPENSHIFT_API_URL"),
            EnvRequirement::secret("COMPANY_CI_OPENSHIFT_TOKEN"),
        ];
        assert(r@.map_values(|q: EnvRequirement| q@) =~= spec_auth_requirements());
        r
    }

    /// The command that logs in to OpenShift.
    pub fn login_command(&self) -> (r: String)
        ensures
            r@ == spec_login_command(self@),
    {
        let mut command =
            "oc login \"$COMPANY_CI_OPENSHIFT_API_URL\" --token \"$COMPANY_CI_OPENSHIFT_TOKEN\"".to_owned();
        if self.skip_tls_verify {
            command.append(" --insecure-skip-tls-verify=true");
        } else {
            proof {
                reveal_strlit("");
            }
            assert(command@ =~= command@ + ""@);
        }
        command
    }

    /// Whether TLS verification of the OpenShift API is skipped.
    pub fn skip_tls_verify(&self) -> (r: bool)
        ensures
            r == self@,
    {
        self.skip_tls_verify
    }
}

} // verus!

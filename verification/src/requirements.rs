//! Environment contracts that a plan declares before it runs.
use vstd::prelude::*;
use crate::text::str_eq;

verus! {

/// A variable that must be set, or a variable that may be replaced by a
/// file whose path another variable gives; secret ones hold credentials.
#[derive(Debug, Clone, PartialEq, Eq)]
pub enum EnvRequirement {
    Variable { name: String, secret: bool },
    VariableOrFile { variable_name: String, file_name: String, secret: bool },
}

/// The value of an environment requirement.
pub enum EnvRequirementView {
    Variable { name: Seq<char>, secret: bool },
    VariableOrFile { variable_name: Seq<char>, file_name: Seq<char>, secret: bool },
}

impl View for EnvRequirement {
    type V = EnvRequirementView;

    open spec fn view(&self) -> EnvRequirementView {
        match self {
            EnvRequirement::Variable { name, secret } => EnvRequirementView::Variable {
                name: name@,
                secret: *secret,
            },
            EnvRequirement::VariableOrFile { variable_name, file_name, secret } =>
                EnvRequirementView::VariableOrFile {
                variable_name: variable_name@,
                file_name: file_name@,
                secret: *secret,
            },
        }
    }
}

/// A plain variable.
pub open spec fn variable_req(name: Seq<char>) -> EnvRequirementView {
    EnvRequirementView::Variable { name, secret: false }
}

/// A secret variable.
pub open spec fn secret_req(name: Seq<char>) -> EnvRequirementView {
    EnvRequirementView::Variable { name, secret: true }
}

/// A secret variable that may be replaced by a file.
pub open spec fn secret_or_file_req(variable_name: Seq<char>, file_name: Seq<char>) -> EnvRequirementView {
    EnvRequirementView::VariableOrFile { variable_name, file_name, secret: true }
}

/// How a requirement is named: the variable, or both names split by `|`.
pub open spec fn spec_display_name(r: EnvRequirementView) -> Seq<char> {
    match r {
        EnvRequirementView::Variable { name, .. } => name,
        EnvRequirementView::VariableOrFile { variable_name, file_name, .. } => variable_name + "|"@
            + file_name,
    }
}

/// What a dry run reports for a requirement.
pub open spec fn spec_dry_run_message(r: EnvRequirementView) -> Seq<char> {
    match r {
        EnvRequirementView::Variable { name, secret } => if secret {
            "verify required secret env: "@ + name
        } else {
            "verify required env: "@ + name
        },
        EnvRequirementView::VariableOrFile { variable_name, file_name, secret } => if secret {
            "verify required secret env or file: "@ + variable_name + "|"@ + file_name
        } else {
            "verify required env or file: "@ + variable_name + "|"@ + file_name
        },
    }
}

impl EnvRequirement {
    /// A plain variable.
    pub fn variable(name: &str) -> (r: Self)
        ensures
            r@ == variable_req(name@),
    {
        EnvRequirement::Variable { name: name.to_owned(), secret: false }
    }

    /// A secret variable.
    pub fn secret(name: &str) -> (r: Self)
        ensures
            r@ == secret_req(name@),
    {
        EnvRequirement::Variable { name: name.to_owned(), secret: true }
    }

    /// A secret variable that may be replaced by a file.
    pub fn secret_or_file(variable_name: &str, file_name: &str) -> (r: Self)
        ensures
            r@ == secret_or_file_req(variable_name@, file_name@),
    {
        EnvRequirement::VariableOrFile {
            variable_name: variable_name.to_owned(),
            file_name: file_name.to_owned(),
            secret: true,
        }
    }

    /// How the requirement is named.
    pub fn display_name(&self) -> (r: String)
        ensures
            r@ == spec_display_name(self@),
    {
        match self {
            EnvRequirement::Variable { name, .. } => name.clone(),
            EnvRequirement::VariableOrFile { variable_name, file_name, .. } => variable_name.clone().concat("|").concat(
                file_name.as_str(),
            ),
        }
    }

    /// What a dry run reports for the requirement.
    pub fn dry_run_message(&self) -> (r: String)
        ensures
            r@ == spec_dry_run_message(self@),
    {
        match self {
            EnvRequirement::Variable { name, secret } => if *secret {
                "verify required secret env: ".to_owned().concat(name.as_str())
            } else {
                "verify required env: ".to_owned().concat(name.as_str())
            },
            EnvRequirement::VariableOrFile { variable_name, file_name, secret } => if *secret {
                "verify required secret env or file: ".to_owned().concat(
                    variable_name.as_str(),
                ).concat("|").concat(file_name.as_str())
            } else {
                "verify required env or file: ".to_owned().concat(variable_name.as_str()).concat(
                    "|",
                ).concat(file_name.as_str())
            },
        }
    }

    /// Whether two requirements are the same.
    pub fn same_as(&self, other: &Self) -> (r: bool)
        ensures
            r == (self@ == other@),
    {
        match (self, other) {
            (
                EnvRequirement::Variable { name: a, secret: s },
                EnvRequirement::Variable { name: b, secret: t },
            ) => str_eq(a.as_str(), b.as_str()) && *s == *t,
            (
                EnvRequirement::VariableOrFile { variable_name: a, file_name: f, secret: s },
                EnvRequirement::VariableOrFile { variable_name: b, file_name: g, secret: t },
            ) => str_eq(a.as_str(), b.as_str()) && str_eq(f.as_str(), g.as_str()) && *s == *t,
            _ => false,
        }
    }
}

} // verus!

//! The error type of the tool and the text each error is reported with.
use vstd::prelude::*;
use crate::text::{decimal, decimal_text};

verus! {

/// Everything that can stop a command: bad arguments, a missing tool or
/// env contract, or a step that failed.
#[derive(Debug)]
pub enum CompanyCiError {
    InvalidArgument(String),
    Usage(String),
    Runtime(String),
    MissingTool { plan: String, tool: String },
    MissingEnv { plan: String, name: String },
    MissingSecretEnv { plan: String, name: String },
    MissingEnvFile { plan: String, name: String, path: String },
    MissingEnvOrFile { plan: String, env_name: String, file_env_name: String },
    InvalidEnvValue { plan: String, name: String, message: String },
    CommandFailed { command: String, status: i32 },
}

/// The value of an error, its texts taken as character sequences.
pub enum ErrorView {
    InvalidArgument(Seq<char>),
    Usage(Seq<char>),
    Runtime(Seq<char>),
    MissingTool { plan: Seq<char>, tool: Seq<char> },
    MissingEnv { plan: Seq<char>, name: Seq<char> },
    MissingSecretEnv { plan: Seq<char>, name: Seq<char> },
    MissingEnvFile { plan: Seq<char>, name: Seq<char>, path: Seq<char> },
    MissingEnvOrFile { plan: Seq<char>, env_name: Seq<char>, file_env_name: Seq<char> },
    InvalidEnvValue { plan: Seq<char>, name: Seq<char>, message: Seq<char> },
    CommandFailed { command: Seq<char>, status: int },
}

impl View for CompanyCiError {
    type V = ErrorView;

    open spec fn view(&self) -> ErrorView {
        match self {
            CompanyCiError::InvalidArgument(m) => ErrorView::InvalidArgument(m@),
            CompanyCiError::Usage(m) => ErrorView::Usage(m@),
            CompanyCiError::Runtime(m) => ErrorView::Runtime(m@),
            CompanyCiError::MissingTool { plan, tool } => ErrorView::MissingTool {
                plan: plan@,
                tool: tool@,
            },
            CompanyCiError::MissingEnv { plan, name } => ErrorView::MissingEnv {
                plan: plan@,
                name: name@,
            },
            CompanyCiError::MissingSecretEnv { plan, name } => ErrorView::MissingSecretEnv {
                plan: plan@,
                name: name@,
            },
            CompanyCiError::MissingEnvFile { plan, name, path } => ErrorView::MissingEnvFile {
                plan: plan@,
                name: name@,
                path: path@,
            },
            CompanyCiError::MissingEnvOrFile { plan, env_name, file_env_name } =>
                ErrorView::MissingEnvOrFile {
                plan: plan@,
                env_name: env_name@,
                file_env_name: file_env_name@,
            },
            CompanyCiError::InvalidEnvValue { plan, name, message } =>
                ErrorView::InvalidEnvValue { plan: plan@, name: name@, message: message@ },
            CompanyCiError::CommandFailed { command, status } => ErrorView::CommandFailed {
                command: command@,
                status: *status as int,
            },
        }
    }
}

/// The decimal text of a signed integer, with a leading `-` when negative.
pub open spec fn signed_decimal(n: int) -> Seq<char> {
    if n < 0 {
        "-"@ + decimal((-n) as nat)
    } else {
        decimal(n as nat)
    }
}

/// The text an error is reported with.
pub open spec fn error_message(e: ErrorView) -> Seq<char> {
    match e {
        ErrorView::InvalidArgument(m) => m,
        ErrorView::Usage(m) => m,
        ErrorView::Runtime(m) => m,
        ErrorView::MissingTool { plan, tool } => "required tool not found on PATH for plan "@
            + plan + ": "@ + tool,
        ErrorView::MissingEnv { plan, name } => "missing required env for plan "@ + plan + ": "@
            + name,
        ErrorView::MissingSecretEnv { plan, name } => "missing required secret env for plan "@
            + plan + ": "@ + name,
        ErrorView::MissingEnvFile { plan, name, path } => "required env file not found for plan "@
            + plan + ": "@ + name + " -> "@ + path,
        ErrorView::MissingEnvOrFile { plan, env_name, file_env_name } =>
            "missing required secret env or env file for plan "@ + plan + ": "@ + env_name + "|"@
            + file_env_name,
        ErrorView::InvalidEnvValue { plan, name, message } => "invalid env value for plan "@
            + plan + ": "@ + name + " ("@ + message + ")"@,
        ErrorView::CommandFailed { command, status } => "command failed with status "@
            + signed_decimal(status) + ": "@ + command,
    }
}

fn signed_decimal_text(n: i32) -> (r: String)
    ensures
        r@ == signed_decimal(n as int),
{
    if n < 0 {
        let magnitude: i64 = -(n as i64);
        "-".to_owned().concat(decimal_text(magnitude as u64).as_str())
    } else {
        decimal_text(n as u64)
    }
}

impl CompanyCiError {
    /// The text this error is reported with.
    pub fn to_string(&self) -> (r: String)
        ensures
            r@ == error_message(self@),
    {
        match self {
            CompanyCiError::InvalidArgument(m) => m.clone(),
            CompanyCiError::Usage(m) => m.clone(),
            CompanyCiError::Runtime(m) => m.clone(),
            CompanyCiError::MissingTool { plan, tool } => "required tool not found on PATH for plan ".to_owned().concat(
                plan.as_str(),
            ).concat(": ").concat(tool.as_str()),
            CompanyCiError::MissingEnv { plan, name } => "missing required env for plan ".to_owned().concat(
                plan.as_str(),
            ).concat(": ").concat(name.as_str()),
            CompanyCiError::MissingSecretEnv { plan, name } =>
                "missing required secret env for plan ".to_owned().concat(plan.as_str()).concat(
                ": ",
            ).concat(name.as_str()),
            CompanyCiError::MissingEnvFile { plan, name, path } =>
                "required env file not found for plan ".to_owned().concat(plan.as_str()).concat(
                ": ",
            ).concat(name.as_str()).concat(" -> ").concat(path.as_str()),
            CompanyCiError::MissingEnvOrFile { plan, env_name, file_env_name } =>
                "missing required secret env or env file for plan ".to_owned().concat(
                plan.as_str(),
            ).concat(": ").concat(env_name.as_str()).concat("|").concat(file_env_name.as_str()),
            CompanyCiError::InvalidEnvValue { plan, name, message } =>
                "invalid env value for plan ".to_owned().concat(plan.as_str()).concat(": ").concat(
                name.as_str(),
            ).concat(" (").concat(message.as_str()).concat(")"),
            CompanyCiError::CommandFailed { command, status } =>
                "command failed with status ".to_owned().concat(
                signed_decimal_text(*status).as_str(),
            ).concat(": ").concat(command.as_str()),
        }
    }
}

} // verus!

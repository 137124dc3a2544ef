//! The command palette: parsing the argument list into a command.
use vstd::prelude::*;
use crate::error::{CompanyCiError, ErrorView};
use crate::text::{is_blank, is_blank_chars, join, seq_join, starts_with_char, str_eq};

verus! {

/// A parsed invocation of the tool.
#[derive(Debug, Clone)]
pub struct Cli {
    pub command: Command,
}

/// The top-level commands of the palette.
#[derive(Debug, Clone)]
pub enum Command {
    Verify(ExecutionArgs),
    Build(ExecutionArgs),
    Test(ExecutionArgs),
    Package(ExecutionArgs),
    Publish(PublishCommand),
    Image(ImageCommand),
    Deploy(DeployCommand),
    E2e(E2eCommand),
}

/// The flags shared by every command.
#[derive(Debug, Clone, Copy, PartialEq, Eq)]
pub struct ExecutionArgs {
    pub dry_run: bool,
}

/// The library publish contracts.
#[derive(Debug, Clone, PartialEq, Eq)]
pub enum PublishCommand {
    MavenLib(PublishArgs),
    NpmLib(NpmPublishArgs),
}

/// Arguments of `publish maven-lib`.
#[derive(Debug, Clone, PartialEq, Eq)]
pub struct PublishArgs {
    pub path: String,
    pub dry_run: bool,
}

/// Arguments of `publish npm-lib`.
#[derive(Debug, Clone, PartialEq, Eq)]
pub struct NpmPublishArgs {
    pub path: String,
    pub tag: String,
    pub dry_run: bool,
}

/// The image subcommands.
#[derive(Debug, Clone)]
pub enum ImageCommand {
    Build(ExecutionArgs),
    Publish(ExecutionArgs),
}

/// The deploy subcommands.
#[derive(Debug, Clone)]
pub enum DeployCommand {
    Openshift(ExecutionArgs),
}

/// The end-to-end subcommands.
#[derive(Debug, Clone)]
pub enum E2eCommand {
    Openshift(ExecutionArgs),
}

/// The value of a command: which one it is, its operands, and the dry-run flag.
pub enum CommandView {
    Verify(bool),
    Build(bool),
    Test(bool),
    Package(bool),
    PublishMavenLib { path: Seq<char>, dry_run: bool },
    PublishNpmLib { path: Seq<char>, tag: Seq<char>, dry_run: bool },
    ImageBuild(bool),
    ImagePublish(bool),
    DeployOpenshift(bool),
    E2eOpenshift(bool),
}

impl View for Command {
    type V = CommandView;

    open spec fn view(&self) -> CommandView {
        match self {
            Command::Verify(a) => CommandView::Verify(a.dry_run),
            Command::Build(a) => CommandView::Build(a.dry_run),
            Command::Test(a) => CommandView::Test(a.dry_run),
            Command::Package(a) => CommandView::Package(a.dry_run),
            Command::Publish(PublishCommand::MavenLib(a)) => CommandView::PublishMavenLib {
                path: a.path@,
                dry_run: a.dry_run,
            },
            Command::Publish(PublishCommand::NpmLib(a)) => CommandView::PublishNpmLib {
                path: a.path@,
                tag: a.tag@,
                dry_run: a.dry_run,
            },
            Command::Image(ImageCommand::Build(a)) => CommandView::ImageBuild(a.dry_run),
            Command::Image(ImageCommand::Publish(a)) => CommandView::ImagePublish(a.dry_run),
            Command::Deploy(DeployCommand::Openshift(a)) => CommandView::DeployOpenshift(a.dry_run),
            Command::E2e(E2eCommand::Openshift(a)) => CommandView::E2eOpenshift(a.dry_run),
        }
    }
}

/// The lines of the usage text.
pub open spec fn usage_lines() -> Seq<Seq<char>> {
    seq![
        "Usage:"@,
        "  company-ci verify [--dry-run]"@,
        "  company-ci build [--dry-run]"@,
        "  company-ci test [--dry-run]"@,
        "  company-ci package [--dry-run]"@,
        "  company-ci publish maven-lib <path> [--dry-run]"@,
        "  company-ci publish npm-lib <path> [--dry-run] [--tag <dist-tag>]"@,
        "  company-ci image build [--dry-run]"@,
        "  company-ci image publish [--dry-run]"@,
        "  company-ci deploy openshift [--dry-run]"@,
        "  company-ci e2e openshift [--dry-run]"@,
        "Commands:"@,
        "  verify"@,
        "  build"@,
        "  test"@,
        "  package"@,
        "  publish maven-lib <path>"@,
        "  publish npm-lib <path> [--tag <dist-tag>]"@,
        "  image build|publish"@,
        "  deploy openshift"@,
        "  e2e openshift"@,
    ]
}

/// The usage text: its lines, one per line.
pub open spec fn usage_text() -> Seq<char> {
    seq_join(usage_lines(), "\n"@)
}

/// The usage text of the command palette.
pub fn usage() -> (r: String)
    ensures
        r@ == usage_text(),
{
    let lines: Vec<String> = vec![
        "Usage:".to_owned(),
        "  company-ci verify [--dry-run]".to_owned(),
        "  company-ci build [--dry-run]".to_owned(),
        "  company-ci test [--dry-run]".to_owned(),
        "  company-ci package [--dry-run]".to_owned(),
        "  company-ci publish maven-lib <path> [--dry-run]".to_owned(),
        "  company-ci publish npm-lib <path> [--dry-run] [--tag <dist-tag>]".to_owned(),
        "  company-ci image build [--dry-run]".to_owned(),
        "  company-ci image publish [--dry-run]".to_owned(),
        "  company-ci deploy openshift [--dry-run]".to_owned(),
        "  company-ci e2e openshift [--dry-run]".to_owned(),
        "Commands:".to_owned(),
        "  verify".to_owned(),
        "  build".to_owned(),
        "  test".to_owned(),
        "  package".to_owned(),
        "  publish maven-lib <path>".to_owned(),
        "  publish npm-lib <path> [--tag <dist-tag>]".to_owned(),
        "  image build|publish".to_owned(),
        "  deploy openshift".to_owned(),
        "  e2e openshift".to_owned(),
    ];
    assert(lines.deep_view() =~= usage_lines());
    join(&lines, "\n")
}

/// The usage error.
pub open spec fn usage_error() -> ErrorView {
    ErrorView::Usage(usage_text())
}

/// An invalid-argument error with the given message.
pub open spec fn invalid(message: Seq<char>) -> ErrorView {
    ErrorView::InvalidArgument(message)
}

/// The flags that follow a command: only `--dry-run` is accepted, as often
/// as it is given; the first other argument is refused.
pub open spec fn spec_execution_args(args: Seq<Seq<char>>) -> Result<bool, ErrorView>
    decreases args.len(),
{
    if args.len() == 0 {
        Ok(false)
    } else if args[0] == "--dry-run"@ {
        match spec_execution_args(args.drop_first()) {
            Ok(_) => Ok(true),
            Err(e) => Err(e),
        }
    } else {
        Err(invalid("unknown argument: "@ + args[0]))
    }
}

/// What is read from the operands of `publish <contract>`.
pub struct PublishOperands {
    pub path: Seq<char>,
    pub dry_run: bool,
    pub tag: Option<Seq<char>>,
}

/// Reading the operands of a publish contract from position `i` on, given
/// what the earlier operands set.
pub open spec fn spec_publish_operands_from(
    args: Seq<Seq<char>>,
    allow_tag: bool,
    i: int,
    path: Option<Seq<char>>,
    dry_run: bool,
    tag: Option<Seq<char>>,
) -> Result<PublishOperands, ErrorView>
    decreases args.len() - i,
{
    if i < 0 || i >= args.len() {
        match path {
            Some(p) => Ok(PublishOperands { path: p, dry_run, tag }),
            None => Err(usage_error()),
        }
    } else {
        let arg = args[i];
        if arg == "--dry-run"@ {
            spec_publish_operands_from(args, allow_tag, i + 1, path, true, tag)
        } else if arg == "--tag"@ && allow_tag {
            if i + 1 >= args.len() {
                Err(invalid("missing value for --tag"@))
            } else if is_blank_chars(args[i + 1]) {
                Err(invalid("npm publish tag must not be empty"@))
            } else {
                spec_publish_operands_from(args, allow_tag, i + 2, path, dry_run, Some(args[i + 1]))
            }
        } else if arg == "--tag"@ {
            Err(invalid("--tag is only supported for publish npm-lib"@))
        } else if arg.len() > 0 && arg[0] == '-' {
            Err(invalid("unknown argument: "@ + arg))
        } else if path is Some {
            Err(invalid("unexpected argument: "@ + arg))
        } else {
            spec_publish_operands_from(args, allow_tag, i + 1, Some(arg), dry_run, tag)
        }
    }
}

/// The operands of a publish contract: one path, `--dry-run`, and (where
/// allowed) `--tag <dist-tag>`.
pub open spec fn spec_publish_operands(args: Seq<Seq<char>>, allow_tag: bool) -> Result<
    PublishOperands,
    ErrorView,
> {
    spec_publish_operands_from(args, allow_tag, 0, None, false, None)
}

/// `publish <contract> <operands>`.
pub open spec fn spec_publish_command(args: Seq<Seq<char>>) -> Result<CommandView, ErrorView> {
    if args.len() == 0 {
        Err(usage_error())
    } else if args[0] == "maven-lib"@ {
        match spec_publish_operands(args.drop_first(), false) {
            Ok(p) => Ok(CommandView::PublishMavenLib { path: p.path, dry_run: p.dry_run }),
            Err(e) => Err(e),
        }
    } else if args[0] == "npm-lib"@ {
        match spec_publish_operands(args.drop_first(), true) {
            Ok(p) => Ok(
                CommandView::PublishNpmLib {
                    path: p.path,
                    tag: match p.tag {
                        Some(t) => t,
                        None => "ci"@,
                    },
                    dry_run: p.dry_run,
                },
            ),
            Err(e) => Err(e),
        }
    } else {
        Err(invalid("unknown publish contract: "@ + args[0]))
    }
}

/// `image <build|publish> <flags>`: the flags are read before the subcommand
/// is looked at.
pub open spec fn spec_image_command(args: Seq<Seq<char>>) -> Result<CommandView, ErrorView> {
    if args.len() == 0 {
        Err(usage_error())
    } else {
        match spec_execution_args(args.drop_first()) {
            Err(e) => Err(e),
            Ok(d) => if args[0] == "build"@ {
                Ok(CommandView::ImageBuild(d))
            } else if args[0] == "publish"@ {
                Ok(CommandView::ImagePublish(d))
            } else {
                Err(invalid("unknown image command: "@ + args[0]))
            },
        }
    }
}

/// `deploy openshift <flags>`.
pub open spec fn spec_deploy_command(args: Seq<Seq<char>>) -> Result<CommandView, ErrorView> {
    if args.len() == 0 {
        Err(usage_error())
    } else {
        match spec_execution_args(args.drop_first()) {
            Err(e) => Err(e),
            Ok(d) => if args[0] == "openshift"@ {
                Ok(CommandView::DeployOpenshift(d))
            } else {
                Err(invalid("unknown deploy command: "@ + args[0]))
            },
        }
    }
}

/// `e2e openshift <flags>`.
pub open spec fn spec_e2e_command(args: Seq<Seq<char>>) -> Result<CommandView, ErrorView> {
    if args.len() == 0 {
        Err(usage_error())
    } else {
        match spec_execution_args(args.drop_first()) {
            Err(e) => Err(e),
            Ok(d) => if args[0] == "openshift"@ {
                Ok(CommandView::E2eOpenshift(d))
            } else {
                Err(invalid("unknown e2e command: "@ + args[0]))
            },
        }
    }
}

/// Wraps the dry-run flag of a simple command.
pub open spec fn spec_simple(r: Result<bool, ErrorView>, make: spec_fn(bool) -> CommandView) -> Result<
    CommandView,
    ErrorView,
> {
    match r {
        Ok(d) => Ok(make(d)),
        Err(e) => Err(e),
    }
}

/// The command an argument list (without the program name) stands for.
pub open spec fn spec_parse(args: Seq<Seq<char>>) -> Result<CommandView, ErrorView> {
    if args.len() == 0 {
        Err(usage_error())
    } else {
        let first = args[0];
        let rest = args.drop_first();
        if first == "verify"@ {
            spec_simple(spec_execution_args(rest), |d: bool| CommandView::Verify(d))
        } else if first == "build"@ {
            spec_simple(spec_execution_args(rest), |d: bool| CommandView::Build(d))
        } else if first == "test"@ {
            spec_simple(spec_execution_args(rest), |d: bool| CommandView::Test(d))
        } else if first == "package"@ {
            spec_simple(spec_execution_args(rest), |d: bool| CommandView::Package(d))
        } else if first == "publish"@ {
            spec_publish_command(rest)
        } else if first == "image"@ {
            spec_image_command(rest)
        } else if first == "deploy"@ {
            spec_deploy_command(rest)
        } else if first == "e2e"@ {
            spec_e2e_command(rest)
        } else if first == "help"@ || first == "--help"@ || first == "-h"@ {
            Err(usage_error())
        } else {
            Err(invalid("unknown command: "@ + first))
        }
    }
}

/// The value of a parse outcome.
pub open spec fn parse_outcome(r: Result<Cli, CompanyCiError>) -> Result<CommandView, ErrorView> {
    match r {
        Ok(cli) => Ok(cli.command@),
        Err(e) => Err(e@),
    }
}

impl Cli {
    /// Reads a command from the argument list that follows the program name.
    pub fn parse(args: Vec<String>) -> (r: Result<Self, CompanyCiError>)
        ensures
            parse_outcome(r) == spec_parse(args.deep_view()),
    {
        match parse_command(&args) {
            Ok(command) => Ok(Cli { command }),
            Err(e) => Err(e),
        }
    }
}

spec fn command_result(r: Result<Command, CompanyCiError>) -> Result<CommandView, ErrorView> {
    match r {
        Ok(c) => Ok(c@),
        Err(e) => Err(e@),
    }
}

fn usage_failure() -> (e: CompanyCiError)
    ensures
        e@ == usage_error(),
{
    CompanyCiError::Usage(usage())
}

fn invalid_with(prefix: &str, value: &str) -> (e: CompanyCiError)
    ensures
        e@ == invalid(prefix@ + value@),
{
    CompanyCiError::InvalidArgument(prefix.to_owned().concat(value))
}

fn parse_command(args: &Vec<String>) -> (r: Result<Command, CompanyCiError>)
    ensures
        command_result(r) == spec_parse(args.deep_view()),
{
    let ghost all = args.deep_view();
    if args.len() == 0 {
        return Err(usage_failure());
    }
    let first = args[0].as_str();
    proof {
        assert(all.drop_first() =~= all.skip(1));
    }
    if str_eq(first, "verify") {
        match parse_execution_args(args, 1) {
            Ok(a) => Ok(Command::Verify(a)),
            Err(e) => Err(e),
        }
    } else if str_eq(first, "build") {
        match parse_execution_args(args, 1) {
            Ok(a) => Ok(Command::Build(a)),
            Err(e) => Err(e),
        }
    } else if str_eq(first, "test") {
        match parse_execution_args(args, 1) {
            Ok(a) => Ok(Command::Test(a)),
            Err(e) => Err(e),
        }
    } else if str_eq(first, "package") {
        match parse_execution_args(args, 1) {
            Ok(a) => Ok(Command::Package(a)),
            Err(e) => Err(e),
        }
    } else if str_eq(first, "publish") {
        parse_publish_command(args, 1)
    } else if str_eq(first, "image") {
        parse_image_command(args, 1)
    } else if str_eq(first, "deploy") {
        parse_deploy_command(args, 1)
    } else if str_eq(first, "e2e") {
        parse_e2e_command(args, 1)
    } else if str_eq(first, "help") || str_eq(first, "--help") || str_eq(first, "-h") {
        Err(usage_failure())
    } else {
        Err(invalid_with("unknown command: ", first))
    }
}

fn parse_publish_command(args: &Vec<String>, start: usize) -> (r: Result<Command, CompanyCiError>)
    requires
        1 <= start <= args.len(),
    ensures
        command_result(r) == spec_publish_command(args.deep_view().skip(start as int)),
{
    let ghost rest = args.deep_view().skip(start as int);
    if start >= args.len() {
        return Err(usage_failure());
    }
    let contract = args[start].as_str();
    proof {
        assert(rest.drop_first() =~= args.deep_view().skip(start + 1));
    }
    if str_eq(contract, "maven-lib") {
        let parsed = match parse_publish_args(args, start + 1, false) {
            Ok(p) => p,
            Err(e) => return Err(e),
        };
        Ok(Command::Publish(PublishCommand::MavenLib(PublishArgs {
            path: parsed.path,
            dry_run: parsed.dry_run,
        })))
    } else if str_eq(contract, "npm-lib") {
        let parsed = match parse_publish_args(args, start + 1, true) {
            Ok(p) => p,
            Err(e) => return Err(e),
        };
        let tag = match parsed.tag {
            Some(t) => t,
            None => "ci".to_owned(),
        };
        Ok(Command::Publish(PublishCommand::NpmLib(NpmPublishArgs {
            path: parsed.path,
            tag,
            dry_run: parsed.dry_run,
        })))
    } else {
        Err(invalid_with("unknown publish contract: ", contract))
    }
}

fn parse_image_command(args: &Vec<String>, start: usize) -> (r: Result<Command, CompanyCiError>)
    requires
        1 <= start <= args.len(),
    ensures
        command_result(r) == spec_image_command(args.deep_view().skip(start as int)),
{
    let ghost rest = args.deep_view().skip(start as int);
    if start >= args.len() {
        return Err(usage_failure());
    }
    let subcommand = args[start].as_str();
    proof {
        assert(rest.drop_first() =~= args.deep_view().skip(start + 1));
    }
    let parsed = match parse_execution_args(args, start + 1) {
        Ok(p) => p,
        Err(e) => return Err(e),
    };
    if str_eq(subcommand, "build") {
        Ok(Command::Image(ImageCommand::Build(parsed)))
    } else if str_eq(subcommand, "publish") {
        Ok(Command::Image(ImageCommand::Publish(parsed)))
    } else {
        Err(invalid_with("unknown image command: ", subcommand))
    }
}

fn parse_deploy_command(args: &Vec<String>, start: usize) -> (r: Result<Command, CompanyCiError>)
    requires
        1 <= start <= args.len(),
    ensures
        command_result(r) == spec_deploy_command(args.deep_view().skip(start as int)),
{
    let ghost rest = args.deep_view().skip(start as int);
    if start >= args.len() {
        return Err(usage_failure());
    }
    let subcommand = args[start].as_str();
    proof {
        assert(rest.drop_first() =~= args.deep_view().skip(start + 1));
    }
    let parsed = match parse_execution_args(args, start + 1) {
        Ok(p) => p,
        Err(e) => return Err(e),
    };
    if str_eq(subcommand, "openshift") {
        Ok(Command::Deploy(DeployCommand::Openshift(parsed)))
    } else {
        Err(invalid_with("unknown deploy command: ", subcommand))
    }
}

fn parse_e2e_command(args: &Vec<String>, start: usize) -> (r: Result<Command, CompanyCiError>)
    requires
        1 <= start <= args.len(),
    ensures
        command_result(r) == spec_e2e_command(args.deep_view().skip(start as int)),
{
    let ghost rest = args.deep_view().skip(start as int);
    if start >= args.len() {
        return Err(usage_failure());
    }
    let subcommand = args[start].as_str();
    proof {
        assert(rest.drop_first() =~= args.deep_view().skip(start + 1));
    }
    let parsed = match parse_execution_args(args, start + 1) {
        Ok(p) => p,
        Err(e) => return Err(e),
    };
    if str_eq(subcommand, "openshift") {
        Ok(Command::E2e(E2eCommand::Openshift(parsed)))
    } else {
        Err(invalid_with("unknown e2e command: ", subcommand))
    }
}

struct ParsedPublishArgs {
    path: String,
    dry_run: bool,
    tag: Option<String>,
}

spec fn opt_view(o: Option<String>) -> Option<Seq<char>> {
    match o {
        Some(s) => Some(s@),
        None => None,
    }
}

spec fn parsed_publish_result(r: Result<ParsedPublishArgs, CompanyCiError>) -> Result<
    PublishOperands,
    ErrorView,
> {
    match r {
        Ok(p) => Ok(PublishOperands { path: p.path@, dry_run: p.dry_run, tag: opt_view(p.tag) }),
        Err(e) => Err(e@),
    }
}

fn parse_publish_args(args: &Vec<String>, start: usize, allow_tag: bool) -> (r: Result<
    ParsedPublishArgs,
    CompanyCiError,
>)
    requires
        1 <= start <= args.len(),
    ensures
        parsed_publish_result(r) == spec_publish_operands(args.deep_view().skip(start as int), allow_tag),
{
    let ghost rest = args.deep_view().skip(start as int);
    let mut path: Option<String> = None;
    let mut dry_run = false;
    let mut tag: Option<String> = None;
    let mut index: usize = start;

    while index < args.len()
        invariant
            start <= index <= args.len() + 1,
            rest == args.deep_view().skip(start as int),
            spec_publish_operands(rest, allow_tag) == spec_publish_operands_from(
                rest,
                allow_tag,
                index - start,
                opt_view(path),
                dry_run,
                opt_view(tag),
            ),
        decreases args.len() + 1 - index,
    {
        let arg = args[index].as_str();
        assert(rest[index - start] == args.deep_view()[index as int]);
        if str_eq(arg, "--dry-run") {
            dry_run = true;
        } else if str_eq(arg, "--tag") && allow_tag {
            index += 1;
            if index >= args.len() {
                return Err(CompanyCiError::InvalidArgument("missing value for --tag".to_owned()));
            }
            let value = &args[index];
            assert(rest[index - start] == args.deep_view()[index as int]);
            if is_blank(value.as_str()) {
                return Err(
                    CompanyCiError::InvalidArgument("npm publish tag must not be empty".to_owned()),
                );
            }
            tag = Some(value.clone());
        } else if str_eq(arg, "--tag") {
            return Err(
                CompanyCiError::InvalidArgument(
                    "--tag is only supported for publish npm-lib".to_owned(),
                ),
            );
        } else if starts_with_char(arg, '-') {
            return Err(invalid_with("unknown argument: ", arg));
        } else {
            if path.is_some() {
                return Err(invalid_with("unexpected argument: ", arg));
            }
            path = Some(arg.to_owned());
        }
        index += 1;
    }
    match path {
        Some(p) => Ok(ParsedPublishArgs { path: p, dry_run, tag }),
        None => Err(usage_failure()),
    }
}

proof fn lemma_execution_args(args: Seq<Seq<char>>, i: int)
    requires
        0 <= i <= args.len(),
        forall|k: int| 0 <= k < i ==> args[k] == "--dry-run"@,
    ensures
        spec_execution_args(args) == (if i == args.len() {
            Ok(args.len() > 0)
        } else if args[i] == "--dry-run"@ {
            spec_execution_args(args)
        } else {
            Err(invalid("unknown argument: "@ + args[i]))
        }),
    decreases i,
{
    if i > 0 {
        let t = args.drop_first();
        assert forall|k: int| 0 <= k < i - 1 implies t[k] == "--dry-run"@ by {
            assert(t[k] == args[k + 1]);
        }
        lemma_execution_args(t, i - 1);
        if i < args.len() {
            assert(t[i - 1] == args[i]);
        }
    }
}

fn parse_execution_args(args: &Vec<String>, start: usize) -> (r: Result<
    ExecutionArgs,
    CompanyCiError,
>)
    requires
        start <= args.len(),
    ensures
        match r {
            Ok(a) => spec_execution_args(args.deep_view().skip(start as int)) == Ok::<
                bool,
                ErrorView,
            >(a.dry_run),
            Err(e) => spec_execution_args(args.deep_view().skip(start as int)) == Err::<
                bool,
                ErrorView,
            >(e@),
        },
{
    let ghost rest = args.deep_view().skip(start as int);
    let mut dry_run = false;
    let mut index: usize = start;
    while index < args.len()
        invariant
            start <= index <= args.len(),
            rest == args.deep_view().skip(start as int),
            forall|k: int| 0 <= k < index - start ==> rest[k] == "--dry-run"@,
            dry_run == (index > start),
        decreases args.len() - index,
    {
        let arg = args[index].as_str();
        assert(rest[index - start] == args.deep_view()[index as int]);
        if !str_eq(arg, "--dry-run") {
            proof {
                lemma_execution_args(rest, index - start);
            }
            return Err(invalid_with("unknown argument: ", arg));
        }
        dry_run = true;
        index += 1;
    }
    proof {
        lemma_execution_args(rest, index - start);
    }
    Ok(ExecutionArgs { dry_run })
}

/// Whether a command runs dry.
pub open spec fn command_dry_run(c: CommandView) -> bool {
    match c {
        CommandView::Verify(d) => d,
        CommandView::Build(d) => d,
        CommandView::Test(d) => d,
        CommandView::Package(d) => d,
        CommandView::PublishMavenLib { dry_run, .. } => dry_run,
        CommandView::PublishNpmLib { dry_run, .. } => dry_run,
        CommandView::ImageBuild(d) => d,
        CommandView::ImagePublish(d) => d,
        CommandView::DeployOpenshift(d) => d,
        CommandView::E2eOpenshift(d) => d,
    }
}

/// The same command, run dry.
pub open spec fn as_dry_run(c: CommandView) -> CommandView {
    match c {
        CommandView::Verify(_) => CommandView::Verify(true),
        CommandView::Build(_) => CommandView::Build(true),
        CommandView::Test(_) => CommandView::Test(true),
        CommandView::Package(_) => CommandView::Package(true),
        CommandView::PublishMavenLib { path, .. } => CommandView::PublishMavenLib {
            path,
            dry_run: true,
        },
        CommandView::PublishNpmLib { path, tag, .. } => CommandView::PublishNpmLib {
            path,
            tag,
            dry_run: true,
        },
        CommandView::ImageBuild(_) => CommandView::ImageBuild(true),
        CommandView::ImagePublish(_) => CommandView::ImagePublish(true),
        CommandView::DeployOpenshift(_) => CommandView::DeployOpenshift(true),
        CommandView::E2eOpenshift(_) => CommandView::E2eOpenshift(true),
    }
}

proof fn lemma_flags_push(args: Seq<Seq<char>>)
    requires
        spec_execution_args(args) is Ok,
    ensures
        spec_execution_args(args.push("--dry-run"@)) == Ok::<bool, ErrorView>(true),
    decreases args.len(),
{
    let pushed = args.push("--dry-run"@);
    if args.len() == 0 {
        assert(pushed.drop_first() =~= Seq::<Seq<char>>::empty());
    } else {
        assert(pushed[0] == args[0]);
        assert(pushed.drop_first() =~= args.drop_first().push("--dry-run"@));
        lemma_flags_push(args.drop_first());
    }
}

proof fn lemma_flags_dry(args: Seq<Seq<char>>)
    requires
        spec_execution_args(args) == Ok::<bool, ErrorView>(true),
    ensures
        args.len() > 0 && args[0] == "--dry-run"@,
{
}

proof fn lemma_operands_push(
    args: Seq<Seq<char>>,
    allow_tag: bool,
    i: int,
    path: Option<Seq<char>>,
    dry_run: bool,
    tag: Option<Seq<char>>,
)
    requires
        0 <= i <= args.len(),
        spec_publish_operands_from(args, allow_tag, i, path, dry_run, tag) is Ok,
    ensures
        match spec_publish_operands_from(args, allow_tag, i, path, dry_run, tag) {
            Ok(p) => spec_publish_operands_from(
                args.push("--dry-run"@),
                allow_tag,
                i,
                path,
                dry_run,
                tag,
            ) == Ok::<PublishOperands, ErrorView>(PublishOperands { dry_run: true, ..p }),
            Err(_) => true,
        },
    decreases args.len() - i,
{
    let pushed = args.push("--dry-run"@);
    if i == args.len() {
        assert(pushed[i] == "--dry-run"@);
        assert(spec_publish_operands_from(pushed, allow_tag, i + 1, path, true, tag)
            == spec_publish_operands_from(args, allow_tag, i, path, true, tag));
    } else {
        assert(pushed[i] == args[i]);
        if i + 1 < args.len() {
            assert(pushed[i + 1] == args[i + 1]);
        }
        let arg = args[i];
        if arg == "--dry-run"@ {
            lemma_operands_push(args, allow_tag, i + 1, path, true, tag);
        } else if arg == "--tag"@ && allow_tag {
            lemma_operands_push(args, allow_tag, i + 2, path, dry_run, Some(args[i + 1]));
        } else if arg == "--tag"@ {
        } else if arg.len() > 0 && arg[0] == '-' {
        } else if path is Some {
        } else {
            lemma_operands_push(args, allow_tag, i + 1, Some(arg), dry_run, tag);
        }
    }
}

proof fn lemma_operands_dry(
    args: Seq<Seq<char>>,
    allow_tag: bool,
    i: int,
    path: Option<Seq<char>>,
    dry_run: bool,
    tag: Option<Seq<char>>,
)
    requires
        0 <= i,
    ensures
        match spec_publish_operands_from(args, allow_tag, i, path, dry_run, tag) {
            Ok(p) => p.dry_run ==> (dry_run || exists|k: int|
                i <= k < args.len() && #[trigger] args[k] == "--dry-run"@),
            Err(_) => true,
        },
    decreases args.len() - i,
{
    if i < args.len() {
        let arg = args[i];
        if arg == "--dry-run"@ {
            lemma_operands_dry(args, allow_tag, i + 1, path, true, tag);
        } else if arg == "--tag"@ && allow_tag {
            if i + 1 < args.len() {
                lemma_operands_dry(args, allow_tag, i + 2, path, dry_run, Some(args[i + 1]));
            }
        } else if arg == "--tag"@ {
        } else if arg.len() > 0 && arg[0] == '-' {
        } else if path is Some {
        } else {
            lemma_operands_dry(args, allow_tag, i + 1, Some(arg), dry_run, tag);
        }
    }
}

/// Adding `--dry-run` to any command line that parses gives the same
/// command, with every operand as before, run dry.
pub proof fn lemma_dry_run_flag_added(args: Seq<Seq<char>>)
    ensures
        match spec_parse(args) {
            Ok(c) => spec_parse(args.push("--dry-run"@)) == Ok::<CommandView, ErrorView>(
                as_dry_run(c),
            ),
            Err(_) => true,
        },
{
    if spec_parse(args) is Ok {
        let pushed = args.push("--dry-run"@);
        let rest = args.drop_first();
        assert(pushed[0] == args[0]);
        assert(pushed.drop_first() =~= rest.push("--dry-run"@));
        let first = args[0];
        if first == "verify"@ || first == "build"@ || first == "test"@ || first == "package"@ {
            lemma_flags_push(rest);
        } else {
            assert(rest.len() > 0);
            assert(rest.push("--dry-run"@)[0] == rest[0]);
            assert(rest.push("--dry-run"@).drop_first() =~= rest.drop_first().push("--dry-run"@));
            if first == "publish"@ {
                if rest[0] == "maven-lib"@ {
                    lemma_operands_push(rest.drop_first(), false, 0, None, false, None);
                } else {
                    lemma_operands_push(rest.drop_first(), true, 0, None, false, None);
                }
            } else {
                lemma_flags_push(rest.drop_first());
            }
        }
    }
}

/// A command runs dry only when `--dry-run` is among its arguments.
pub proof fn lemma_dry_run_needs_flag(args: Seq<Seq<char>>)
    ensures
        match spec_parse(args) {
            Ok(c) => command_dry_run(c) ==> args.contains("--dry-run"@),
            Err(_) => true,
        },
{
    if spec_parse(args) is Ok && command_dry_run(spec_parse(args)->Ok_0) {
        let rest = args.drop_first();
        let first = args[0];
        if first == "verify"@ || first == "build"@ || first == "test"@ || first == "package"@ {
            lemma_flags_dry(rest);
            assert(args[1] == "--dry-run"@);
        } else if first == "publish"@ {
            let ops = rest.drop_first();
            if rest[0] == "maven-lib"@ {
                lemma_operands_dry(ops, false, 0, None, false, None);
            } else {
                lemma_operands_dry(ops, true, 0, None, false, None);
            }
            let k = choose|k: int| 0 <= k < ops.len() && #[trigger] ops[k] == "--dry-run"@;
            assert(args[k + 2] == "--dry-run"@);
        } else {
            lemma_flags_dry(rest.drop_first());
            assert(args[2] == "--dry-run"@);
        }
    }
}

} // verus!

use vstd::prelude::*;

verus! {

#[verifier::external_type_specification]
#[verifier::external_body]
pub struct ExCommand(clap::Command);

#[verifier::external_type_specification]
#[verifier::external_body]
pub struct ExArg(clap::Arg);

#[verifier::external_type_specification]
#[verifier::external_body]
pub struct ExArgMatches(clap::ArgMatches);

/// Relies on clap's `Command::new`: a command line with the program name.
#[verifier::external_body]
fn command_named(name: &'static str) -> (r: clap::Command) {
    clap::Command::new(name)
}

/// Relies on clap's `Command::arg`: the command with one more argument.
#[verifier::external_body]
fn command_with_arg(command: clap::Command, arg: clap::Arg) -> (r: clap::Command) {
    command.arg(arg)
}

/// Relies on clap's `Arg::new`: an argument with the id, positional until
/// given a flag.
#[verifier::external_body]
fn arg_named(id: &'static str) -> (r: clap::Arg) {
    clap::Arg::new(id)
}

/// Relies on clap's `Arg::required`: the argument must be present.
#[verifier::external_body]
fn arg_required(arg: clap::Arg) -> (r: clap::Arg) {
    arg.required(true)
}

/// Relies on clap's `Arg::long`: the argument is given as `--<long>`.
#[verifier::external_body]
fn arg_long(arg: clap::Arg, long: &'static str) -> (r: clap::Arg) {
    arg.long(long)
}

/// Relies on clap's `Arg::action` with `ArgAction::Append`: each occurrence
/// adds its value.
#[verifier::external_body]
fn arg_appended(arg: clap::Arg) -> (r: clap::Arg) {
    arg.action(clap::ArgAction::Append)
}

/// Relies on clap's `Command::try_get_matches_from`: the matches of the
/// words, the first being the program's name; `None` where clap refuses
/// them (or is asked for help or the version).
#[verifier::external_body]
fn matches_of(command: clap::Command, argv: &Vec<String>) -> (r: Option<clap::ArgMatches>) {
    match command.try_get_matches_from(argv) {
        Ok(m) => Some(m),
        Err(_) => None,
    }
}

/// Relies on clap's `ArgMatches::try_get_many::<String>`: the values given to
/// the argument, none where it is absent or unknown.
#[verifier::external_body]
fn string_values(matches: &clap::ArgMatches, id: &str) -> (r: Vec<String>) {
    match matches.try_get_many::<String>(id) {
        Ok(Some(values)) => values.cloned().collect(),
        Ok(None) => Vec::new(),
        Err(_) => Vec::new(),
    }
}

/// Relies on clap's `ArgMatches::try_get_one::<String>`: the value given to
/// the argument, none where it is absent or unknown.
#[verifier::external_body]
fn string_value(matches: &clap::ArgMatches, id: &str) -> (r: Option<String>) {
    match matches.try_get_one::<String>(id) {
        Ok(Some(value)) => Some(value.clone()),
        Ok(None) => None,
        Err(_) => None,
    }
}

/// What the command line asks for: the backup files, and the format that
/// dates them by name, if any (without one, they are dated by the file
/// system).
#[derive(Debug, Clone, PartialEq, Eq)]
pub struct Args {
    pub files: Vec<String>,
    pub format: Option<String>,
}

impl Args {
    /// The command line: one or more backup files, and `--format` with the
    /// format that dates them by name.
    fn command() -> (r: clap::Command) {
        let files = arg_appended(arg_required(arg_named("files")));
        let format = arg_long(arg_named("format"), "format");
        command_with_arg(command_with_arg(command_named("backup_rotation"), files), format)
    }

    /// Reads the words of a command line, the first being the program's name,
    /// as clap reads them for this command; `None` where clap refuses them.
    pub fn parse_from(argv: Vec<String>) -> (r: Option<Args>) {
        match matches_of(Args::command(), &argv) {
            Some(matches) => Some(
                Args { files: string_values(&matches, "files"), format: string_value(&matches, "format") },
            ),
            None => None,
        }
    }
}

} // verus!

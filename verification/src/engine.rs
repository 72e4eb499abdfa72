//! The seam to the interpreter engine: the version constant, the lexer and
//! parser diagnostics, the platform provider, and script execution. Every
//! crossing into the engine stands behind a trusted item whose contract states
//! no more than the engine's source shows.
use vstd::prelude::*;
use lang_interpreter::interpreter::Interpreter;
use lang_interpreter::interpreter::platform::DefaultPlatformAPI;
use lang_interpreter::interpreter::platform::PlatformAPI;
use crate::options::ExecutionOptions;

verus! {

/// Declares the engine's `Interpreter` type; its values are opaque here and
/// only carried between the wrappers below.
#[verifier::external_type_specification]
#[verifier::external_body]
pub struct ExInterpreter(Interpreter);

/// Declares the engine's default platform capability provider; its values are
/// opaque here and only carried between the wrappers below.
#[verifier::external_type_specification]
#[verifier::external_body]
pub struct ExDefaultPlatformAPI(DefaultPlatformAPI);

/// Success maps to process exit code 0, failure to 1.
#[derive(PartialEq, Eq, Structural, Debug)]
pub enum ExitStatus {
    Success,
    Failure,
}

/// The (directory, file name) pair the engine uses to anchor relative paths
/// and error reporting.
pub struct ScriptIdentity {
    pub directory: String,
    pub file_name: String,
}

/// Relies on `lang_interpreter::interpreter::Interpreter::VERSION`: the
/// engine's version constant, `"v1.0.0"` in the engine's source.
#[verifier::external_body]
pub(crate) fn engine_version() -> (r: &'static str)
    ensures
        r@ == "v1.0.0"@,
{
    Interpreter::VERSION
}

/// Relies on `DefaultPlatformAPI::new`: a fresh platform capability provider.
#[verifier::external_body]
fn fresh_platform() -> DefaultPlatformAPI {
    DefaultPlatformAPI::new()
}

/// Relies on `DefaultPlatformAPI::get_lang_path`: the directory portion of
/// `path`, canonicalized against the file system where possible; `None` where
/// the platform reports an error. The result depends on the machine.
#[verifier::external_body]
fn platform_lang_path(platform: &DefaultPlatformAPI, path: &str) -> Option<String> {
    platform.get_lang_path(std::path::Path::new(path)).ok().map(
        |p| p.to_string_lossy().into_owned(),
    )
}

/// Relies on `DefaultPlatformAPI::get_lang_file_name`: the file-name portion
/// of `path`, or `None` where the path ends in no file name.
#[verifier::external_body]
fn platform_lang_file_name(platform: &DefaultPlatformAPI, path: &str) -> Option<String> {
    platform.get_lang_file_name(std::path::Path::new(path)).map(
        |s| s.to_string_lossy().into_owned(),
    )
}

/// Relies on `Interpreter::new`: a fresh engine anchored at `directory` and
/// `file_name`, without a terminal, owning the given platform provider and the
/// given program arguments.
#[verifier::external_body]
fn new_engine(
    directory: &str,
    file_name: &str,
    platform: DefaultPlatformAPI,
    lang_args: Option<Vec<String>>,
) -> Interpreter {
    Interpreter::new(
        directory,
        Some(file_name),
        None,
        Box::new(platform),
        lang_args.map(|v| v.into_iter().map(String::into_boxed_str).collect()),
    )
}

/// Relies on `Interpreter::interpret_lines`: parses and runs `code` inside the
/// engine. The engine reports interpretation errors through its own output
/// channels, so nothing is promised of the engine's state afterwards.
#[verifier::external_body]
fn run_lines(engine: &mut Interpreter, code: &str) {
    engine.interpret_lines(code);
}

/// The identity for inline-code execution: the process's working directory,
/// supplied by the caller, and an empty file name.
pub fn inline_code_identity(working_directory: String) -> (r: ScriptIdentity)
    ensures
        r.directory == working_directory,
        r.file_name@ == Seq::<char>::empty(),
{
    ScriptIdentity { directory: working_directory, file_name: String::new() }
}

/// Derives the identity for executing the file at `path`: the platform
/// provider resolves the directory and file-name portions against the file
/// system, so the outcome depends on the machine. `None` where either portion
/// cannot be derived; the original treats that as a fatal precondition
/// violation, so callers must not continue with a made-up identity.
pub fn derive_script_identity(path: &str) -> Option<ScriptIdentity> {
    let platform = fresh_platform();
    let directory = match platform_lang_path(&platform, path) {
        Some(d) => d,
        None => {
            return None;
        },
    };
    let file_name = match platform_lang_file_name(&platform, path) {
        Some(f) => f,
        None => {
            return None;
        },
    };
    Some(ScriptIdentity { directory, file_name })
}

/// Executes `code` under the given identity and options: builds a fresh engine
/// with a fresh platform provider and the delivered program arguments, and
/// lets it interpret the source. The engine reports its own errors through its
/// own output channels, so the exit is success whatever the script did.
///
/// The `warnings`, `print_translations` and `print_returned_value` flags are
/// accepted and reserved here: the engine's public interface exposes neither
/// an error-output control nor accessors for the translation table or the
/// returned value, so there is nothing for them to drive.
pub fn execute_source(identity: &ScriptIdentity, code: &str, options: ExecutionOptions) -> (r:
    ExitStatus)
    ensures
        r == ExitStatus::Success,
{
    let platform = fresh_platform();
    let mut engine = new_engine(
        identity.directory.as_str(),
        identity.file_name.as_str(),
        platform,
        options.lang_args,
    );
    run_lines(&mut engine, code);
    ExitStatus::Success
}

} // verus!

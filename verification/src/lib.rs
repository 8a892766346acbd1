//! A minimal shell-command runner.
//!
//! One primitive runs a command line through the system shell (`sh -c`),
//! waits for it, and captures both output streams in full. Three operations
//! are layered on it: [`execute_command`] reports the captured text together
//! with a success/failure code, [`sh`] propagates a failed command as a typed
//! error carrying the captured error text, and [`execute_command_silent`]
//! reduces every outcome to a boolean, optionally logging the error text.
//! [`command_exists`] asks the shell whether a command name resolves.
//!
//! The decision logic — which stream is kept, how raw bytes become text, and
//! how each failure mode is classified — is verified; only the process spawn
//! and the UTF-8 decoder are called through trusted wrappers.

use vstd::prelude::*;
use std::io::Write;

verus! {

// ---------------------------------------------------------------------------
// Data model
// ---------------------------------------------------------------------------

/// The raw result of one finished shell invocation: whether the process
/// exited successfully, and the full bytes of both captured streams.
pub struct RawCapture {
    pub success: bool,
    pub stdout: Vec<u8>,
    pub stderr: Vec<u8>,
}

/// The mathematical view of a [`RawCapture`].
pub struct CaptureView {
    pub success: bool,
    pub stdout: Seq<u8>,
    pub stderr: Seq<u8>,
}

impl View for RawCapture {
    type V = CaptureView;

    open spec fn view(&self) -> CaptureView {
        CaptureView { success: self.success, stdout: self.stdout@, stderr: self.stderr@ }
    }
}

/// The failure taxonomy: invalid output encoding, an OS-level failure to
/// spawn or await the shell, a caller-supplied message, and a command that
/// ran but exited non-zero (carrying its decoded standard-error text).
#[derive(Debug)]
pub enum Errors {
    FromUtf8(String),
    IO(String),
    Custom(String),
    STDERR(String),
}

/// Decoded text of one finished command, with a code that is `0` when the
/// command succeeded (the text is then its standard output) and `1` when it
/// failed (the text is then its standard error) — never both, never neither.
#[derive(Debug)]
pub struct CommandOutput(String, u8);

/// The mathematical view of a [`CommandOutput`].
pub struct CommandOutputView {
    pub text: Seq<char>,
    pub code: u8,
}

impl View for CommandOutput {
    type V = CommandOutputView;

    closed spec fn view(&self) -> CommandOutputView {
        CommandOutputView { text: self.0@, code: self.1 }
    }
}

impl CommandOutput {
    /// The decoded text of the stream that the exit status selected.
    pub fn output(&self) -> (r: &str)
        ensures
            r@ == self@.text,
    {
        self.0.as_str()
    }

    /// `0` for a successful command, `1` for one that exited non-zero.
    pub fn exit_code(&self) -> (r: &u8)
        ensures
            *r == self@.code,
    {
        &self.1
    }
}

// ---------------------------------------------------------------------------
// Specification of the classification logic
// ---------------------------------------------------------------------------

/// What `String::from_utf8` decodes the given bytes to: `Some` of the decoded
/// characters exactly when the bytes are valid UTF-8.
pub uninterp spec fn utf8_decoding(bytes: Seq<u8>) -> Option<Seq<char>>;

/// The stream a capture's exit status selects: standard output on success,
/// standard error on failure.
pub open spec fn selected_bytes(c: CaptureView) -> Seq<u8> {
    if c.success {
        c.stdout
    } else {
        c.stderr
    }
}

/// The code a capture's exit status maps to.
pub open spec fn exit_flag(c: CaptureView) -> u8 {
    if c.success {
        0
    } else {
        1
    }
}

/// How a raw capture is classified: if the selected stream decodes, the
/// result carries exactly that text with the capture's code; otherwise it is
/// a decoding failure.
pub open spec fn classification_matches(c: CaptureView, r: Result<CommandOutput, Errors>) -> bool {
    match utf8_decoding(selected_bytes(c)) {
        Some(text) => r matches Ok(co) && co@.text == text && co@.code == exit_flag(c),
        None => r matches Err(e) && e is FromUtf8,
    }
}

/// How a primitive outcome is propagated: a command that exited non-zero
/// becomes a command-reported error carrying its text, a successful one
/// yields its text, and a primitive error passes through unchanged.
pub open spec fn propagation_matches(
    output: Result<CommandOutput, Errors>,
    r: Result<String, Errors>,
) -> bool {
    match output {
        Ok(co) => if co@.code == 1 {
            r matches Err(e) && (e matches Errors::STDERR(t) && t@ == co@.text)
        } else {
            r matches Ok(s) && s@ == co@.text
        },
        Err(e) => r == Err::<String, Errors>(e),
    }
}

/// Whether the silent policy reports a primitive outcome as success.
pub open spec fn silent_success(output: Result<CommandOutput, Errors>) -> bool {
    output matches Ok(co) && co@.code == 0
}

/// What the silent policy writes to the diagnostic stream: a command's own
/// error text only when logging was requested, a primitive error's display
/// text unconditionally, nothing on success.
pub open spec fn silent_log_line(
    output: Result<CommandOutput, Errors>,
    log_stderr: bool,
) -> Option<Seq<char>> {
    match output {
        Ok(co) => if co@.code > 0 && log_stderr {
            Some(co@.text)
        } else {
            None
        },
        Err(e) => Some(error_text(e)),
    }
}

/// The single-line display text of an error.
pub open spec fn error_text(e: Errors) -> Seq<char> {
    match e {
        Errors::FromUtf8(s) => s@,
        Errors::IO(s) => s@,
        Errors::Custom(s) => "ERROR: "@ + s@ + ")"@,
        Errors::STDERR(s) => "ERROR: "@ + s@ + ")"@,
    }
}

// ---------------------------------------------------------------------------
// Trusted wrappers
// ---------------------------------------------------------------------------

/// Relies on `subprocess::Exec::shell` and `Exec::capture`: runs the command
/// line as `sh -c <command_line>`, waits for termination, and captures both
/// streams in full; `success` reflects a zero exit status. An `Err` carries
/// the OS error's description when the shell could not be spawned or awaited.
#[verifier::external_body]
fn run_shell(command_line: &str) -> (r: Result<RawCapture, String>) {
    match subprocess::Exec::shell(command_line).capture() {
        Ok(c) => {
            let success = c.success();
            Ok(RawCapture { success, stdout: c.stdout, stderr: c.stderr })
        },
        Err(e) => Err(e.to_string()),
    }
}

/// Relies on `String::from_utf8`: it returns `Ok` exactly when the bytes are
/// valid UTF-8, and the string is then their decoding; an `Err` carries the
/// error's description.
#[verifier::external_body]
fn decode_utf8(bytes: Vec<u8>) -> (r: Result<String, String>)
    ensures
        (match r {
            Ok(s) => utf8_decoding(bytes@) == Some(s@),
            Err(_) => utf8_decoding(bytes@) is None,
        }),
{
    match String::from_utf8(bytes) {
        Ok(s) => Ok(s),
        Err(e) => Err(e.to_string()),
    }
}

/// Relies on `std::io::Stderr`: writes one line to the diagnostic stream.
#[verifier::external_body]
fn log_line(line: &str) {
    let _ = writeln!(std::io::stderr(), "{}", line);
}

// ---------------------------------------------------------------------------
// Verified logic
// ---------------------------------------------------------------------------

/// Classifies one raw capture: decodes the stream its exit status selects and
/// pairs the text with the capture's code, or reports a decoding failure.
pub fn classify_capture(raw: RawCapture) -> (r: Result<CommandOutput, Errors>)
    ensures
        classification_matches(raw@, r),
{
    let success = raw.success;
    let bytes = if success {
        raw.stdout
    } else {
        raw.stderr
    };
    match decode_utf8(bytes) {
        Ok(text) => Ok(CommandOutput(text, if success { 0 } else { 1 })),
        Err(msg) => Err(Errors::FromUtf8(msg)),
    }
}

/// Runs a command line through the shell and classifies the capture. A
/// command that ran but exited non-zero is an ordinary result with code `1`;
/// only spawn and decoding problems are errors.
pub fn execute_command(command_line: &str) -> (r: Result<CommandOutput, Errors>)
    ensures
        r matches Ok(co) ==> co@.code == 0 || co@.code == 1,
        r matches Err(e) ==> e is IO || e is FromUtf8,
{
    match run_shell(command_line) {
        Ok(raw) => classify_capture(raw),
        Err(msg) => Err(Errors::IO(msg)),
    }
}

/// Turns a primitive outcome into the propagating form: a command that
/// exited non-zero becomes a command-reported error carrying its text.
pub fn propagate_outcome(output: Result<CommandOutput, Errors>) -> (r: Result<String, Errors>)
    ensures
        propagation_matches(output, r),
{
    match output {
        Ok(CommandOutput(text, code)) => {
            if code == 1 {
                Err(Errors::STDERR(text))
            } else {
                Ok(text)
            }
        },
        Err(err) => Err(err),
    }
}

/// Runs a command line and propagates every failure: the successful text on
/// a zero exit, otherwise a typed error.
pub fn sh(command_line: &str) -> (r: Result<String, Errors>)
    ensures
        r matches Err(e) ==> e is IO || e is FromUtf8 || e is STDERR,
{
    propagate_outcome(execute_command(command_line))
}

/// Reduces a primitive outcome to the silent policy's decision: the boolean
/// result and the line to log, if any.
pub fn silent_outcome(output: Result<CommandOutput, Errors>, log_stderr: bool) -> (r: (
    bool,
    Option<String>,
))
    ensures
        r.0 == silent_success(output),
        (match r.1 {
            Some(line) => silent_log_line(output, log_stderr) == Some(line@),
            None => silent_log_line(output, log_stderr) is None,
        }),
{
    match output {
        Ok(co) => {
            if *co.exit_code() > 0 {
                if log_stderr {
                    let CommandOutput(text, _) = co;
                    (false, Some(text))
                } else {
                    (false, None)
                }
            } else {
                (true, None)
            }
        },
        Err(err) => {
            let line = err.message();
            (false, Some(line))
        },
    }
}

/// Runs a command line and reduces the outcome to a boolean. A primitive
/// error's display text is always logged; a failed command's error text is
/// logged only when `log_stderr` is set; nothing is ever propagated.
pub fn execute_command_silent(command_line: &str, log_stderr: bool) -> bool {
    let output = execute_command(command_line);
    let (ok, line) = silent_outcome(output, log_stderr);
    if let Some(line) = line {
        log_line(line.as_str());
    }
    ok
}

/// The command line that asks the shell to resolve a command name.
pub fn existence_probe(command: &str) -> (r: String)
    ensures
        r@ == "command -v "@ + command@,
{
    "command -v ".to_owned().concat(command)
}

/// Asks the shell whether `command` resolves, through the silent policy with
/// logging disabled.
pub fn command_exists(command: &str) -> bool {
    let line = existence_probe(command);
    execute_command_silent(line.as_str(), false)
}

impl Errors {
    /// The single-line display text of this error.
    pub fn message(&self) -> (r: String)
        ensures
            r@ == error_text(*self),
    {
        match self {
            Errors::FromUtf8(s) => s.clone(),
            Errors::IO(s) => s.clone(),
            Errors::Custom(s) => decorate(s),
            Errors::STDERR(s) => decorate(s),
        }
    }
}

/// Wraps a message in the display frame the command-reported and custom
/// errors use.
fn decorate(s: &String) -> (r: String)
    ensures
        r@ == "ERROR: "@ + s@ + ")"@,
{
    "ERROR: ".to_owned().concat(s.as_str()).concat(")")
}

// ---------------------------------------------------------------------------
// Laws
// ---------------------------------------------------------------------------

/// A run that exited successfully and whose output decodes is reported as
/// exactly that text by the propagating path and as success by the silent
/// policy.
pub proof fn lemma_successful_run(
    c: CaptureView,
    output: Result<CommandOutput, Errors>,
    r: Result<String, Errors>,
)
    requires
        classification_matches(c, output),
        propagation_matches(output, r),
        c.success,
        utf8_decoding(c.stdout) is Some,
    ensures
        r matches Ok(s) && s@ == utf8_decoding(c.stdout).unwrap(),
        silent_success(output),
{
}

/// A run that exited non-zero and whose error stream decodes is reported as
/// a command-reported error carrying exactly that text by the propagating
/// path, and as failure by the silent policy.
pub proof fn lemma_failed_run(
    c: CaptureView,
    output: Result<CommandOutput, Errors>,
    r: Result<String, Errors>,
)
    requires
        classification_matches(c, output),
        propagation_matches(output, r),
        !c.success,
        utf8_decoding(c.stderr) is Some,
    ensures
        r matches Err(e) && (e matches Errors::STDERR(t) && t@ == utf8_decoding(
            c.stderr,
        ).unwrap()),
        !silent_success(output),
{
}

/// Classification reports a decoding failure exactly when the bytes of the
/// selected stream are not valid UTF-8.
pub proof fn lemma_decoding_failure_iff(c: CaptureView, output: Result<CommandOutput, Errors>)
    requires
        classification_matches(c, output),
    ensures
        (output matches Err(e) && e is FromUtf8) <==> utf8_decoding(selected_bytes(c)) is None,
{
}

/// Whether classification reports a decoding failure depends on the selected
/// bytes alone, not on the exit status that selected them.
pub proof fn lemma_decoding_failure_status_independent(
    c1: CaptureView,
    c2: CaptureView,
    o1: Result<CommandOutput, Errors>,
    o2: Result<CommandOutput, Errors>,
)
    requires
        classification_matches(c1, o1),
        classification_matches(c2, o2),
        selected_bytes(c1) == selected_bytes(c2),
    ensures
        (o1 matches Err(e) && e is FromUtf8) <==> (o2 matches Err(e) && e is FromUtf8),
{
}

/// The silent logging policy: with logging disabled a command's own error
/// text is never written; with logging enabled it is written exactly on a
/// command-reported failure; a primitive error's display text is written
/// either way.
pub proof fn lemma_silent_logging(output: Result<CommandOutput, Errors>)
    ensures
        output matches Ok(co) ==> silent_log_line(output, false) is None,
        output matches Ok(co) ==> (co@.code > 0 ==> silent_log_line(output, true) == Some(
            co@.text,
        )),
        output matches Err(e) ==> silent_log_line(output, false) == Some(error_text(e))
            && silent_log_line(output, true) == Some(error_text(e)),
{
}

impl From<String> for Errors {
    /// A bare string becomes a command-reported error.
    fn from(err: String) -> (r: Errors) {
        Errors::STDERR(err)
    }
}

impl vstd::std_specs::convert::FromSpecImpl<String> for Errors {
    open spec fn obeys_from_spec() -> bool {
        true
    }

    open spec fn from_spec(t: String) -> Errors {
        Errors::STDERR(t)
    }
}

} // verus!

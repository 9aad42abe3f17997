//! The decisions of the backend's other commands.
//!
//! Each command of the host runs a program or reads a file and answers with
//! a text. What is decided between the two (which program an application
//! name stands for, what the outcome of a probe means, how the answer reads)
//! is decided here, on plain values.

use vstd::prelude::*;
use vstd::utf8::{decode_utf8, encode_utf8, valid_utf8};
use crate::text::{decode_lossy, lossy_text, trim, trimmed};

verus! {

/// How a program that ran to its end turned out.
#[derive(Clone, Debug, PartialEq, Eq)]
pub struct ProgramOutput {
    /// Whether the program reported success.
    pub success: bool,
    /// What the program wrote to its standard output.
    pub stdout: Vec<u8>,
}

/// The mathematical content of a [`ProgramOutput`].
pub struct ProgramOutputView {
    pub success: bool,
    pub stdout: Seq<u8>,
}

impl View for ProgramOutput {
    type V = ProgramOutputView;

    open spec fn view(&self) -> ProgramOutputView {
        ProgramOutputView { success: self.success, stdout: self.stdout@ }
    }
}

impl DeepView for ProgramOutput {
    type V = ProgramOutputView;

    open spec fn deep_view(&self) -> ProgramOutputView {
        self@
    }
}

/// Whether a probe, which may not even have run, ended in success.
pub open spec fn succeeded(probe: Option<ProgramOutputView>) -> bool {
    probe matches Some(output) && output.success
}

/// The greeting for `name`.
pub open spec fn greeting(name: Seq<char>) -> Seq<char> {
    "Hello, "@ + name + "!"@
}

/// Greets `name`.
pub fn greet(name: &str) -> (text: String)
    ensures
        text@ == greeting(name@),
{
    let mut text = String::from_str("Hello, ");
    text.append(name);
    text.append("!");
    text
}

/// The answer to a request for a file's content: the content itself, or the
/// reason why it could not be read, introduced as such.
pub open spec fn file_reply(read: Result<Seq<char>, Seq<char>>) -> Result<Seq<char>, Seq<char>> {
    match read {
        Ok(content) => Ok(content),
        Err(reason) => Err("Failed to read file: "@ + reason),
    }
}

/// The view of the outcome of reading a file.
pub open spec fn read_view(read: Result<String, String>) -> Result<Seq<char>, Seq<char>> {
    match read {
        Ok(content) => Ok(content@),
        Err(reason) => Err(reason@),
    }
}

/// Turns the outcome of reading a file into the answer for the caller.
pub fn read_file_reply(read: Result<String, String>) -> (reply: Result<String, String>)
    ensures
        read_view(reply) == file_reply(read_view(read)),
{
    match read {
        Ok(content) => Ok(content),
        Err(reason) => {
            let mut text = String::from_str("Failed to read file: ");
            text.append(reason.as_str());
            Err(text)
        },
    }
}

/// What is reported about the graphics hardware, given the outcome of the
/// query: the query's output, decoded and trimmed, if it succeeded, and a
/// fixed text if it failed or could not be run.
pub open spec fn gpu_text(probe: Option<ProgramOutputView>) -> Seq<char> {
    match probe {
        Some(output) if output.success => trimmed(lossy_text(output.stdout)),
        _ => "No NVIDIA GPU detected"@,
    }
}

/// The system report that names `gpu` as the graphics hardware.
pub open spec fn system_report(gpu: Seq<char>) -> Seq<char> {
    "{\"os\": \"windows\", \"gpu\": \""@ + gpu + "\"}"@
}

/// Describes the graphics hardware from the outcome of the query for it.
pub fn gpu_summary(probe: &Option<ProgramOutput>) -> (text: String)
    ensures
        text@ == gpu_text(probe.deep_view()),
{
    match probe {
        Some(output) if output.success => {
            let decoded = decode_lossy(output.stdout.as_slice());
            String::from_str(trim(decoded.as_str()))
        },
        _ => String::from_str("No NVIDIA GPU detected"),
    }
}

/// Writes the system report around the description of the graphics hardware.
pub fn system_info(gpu: &str) -> (report: String)
    ensures
        report@ == system_report(gpu@),
{
    let mut report = String::from_str("{\"os\": \"windows\", \"gpu\": \"");
    report.append(gpu);
    report.append("\"}");
    report
}

/// Answers a request for the system report from the outcome of the query
/// for the graphics hardware.
pub fn get_system_info(probe: &Option<ProgramOutput>) -> (report: String)
    ensures
        report@ == system_report(gpu_text(probe.deep_view())),
{
    let gpu = gpu_summary(probe);
    system_info(gpu.as_str())
}

/// What the automation helper is fed for `payload`: the payload's bytes
/// followed by one line feed.
pub open spec fn helper_input(payload: Seq<char>) -> Seq<u8> {
    encode_utf8(payload).push(10u8)
}

/// Frames `payload` for the automation helper's standard input.
pub fn sidecar_input(payload: &str) -> (input: Vec<u8>)
    ensures
        input@ == helper_input(payload@),
{
    let mut input = payload.as_bytes_vec();
    input.push(10u8);
    input
}

/// Reads the automation helper's answer from what it wrote to its standard
/// output: the output decoded lossily, which for valid UTF-8 is the text it
/// encodes.
pub fn sidecar_reply(stdout: &[u8]) -> (reply: String)
    ensures
        reply@ == lossy_text(stdout@),
        valid_utf8(stdout@) ==> reply@ == decode_utf8(stdout@),
{
    decode_lossy(stdout)
}

/// The program that the application name stands for, if it is a known one.
pub open spec fn program_for(app_name: Seq<char>) -> Option<Seq<char>> {
    if app_name == "calculator"@ {
        Some("calc.exe"@)
    } else if app_name == "notepad"@ {
        Some("notepad.exe"@)
    } else {
        None
    }
}

/// Looks up the program to start for an application name.
pub fn launch_target(app_name: &str) -> (program: Option<String>)
    ensures
        program.deep_view() == program_for(app_name@),
{
    let name = String::from_str(app_name);
    if name == String::from_str("calculator") {
        Some(String::from_str("calc.exe"))
    } else if name == String::from_str("notepad") {
        Some(String::from_str("notepad.exe"))
    } else {
        None
    }
}

/// How an attempt to launch an application ended.
#[derive(Clone, Debug, PartialEq, Eq)]
pub enum LaunchOutcome {
    /// The application name is not a known one; nothing was started.
    UnknownApp,
    /// The program was started.
    Launched,
    /// The program could not be started; the text says why.
    Failed(String),
}

/// The mathematical content of a [`LaunchOutcome`].
pub enum LaunchOutcomeView {
    UnknownApp,
    Launched,
    Failed(Seq<char>),
}

impl View for LaunchOutcome {
    type V = LaunchOutcomeView;

    open spec fn view(&self) -> LaunchOutcomeView {
        match self {
            LaunchOutcome::UnknownApp => LaunchOutcomeView::UnknownApp,
            LaunchOutcome::Launched => LaunchOutcomeView::Launched,
            LaunchOutcome::Failed(reason) => LaunchOutcomeView::Failed(reason@),
        }
    }
}

/// The answer to a launch request that ended in `outcome`.
pub open spec fn launch_text(outcome: LaunchOutcomeView) -> Seq<char> {
    match outcome {
        LaunchOutcomeView::UnknownApp => "Unknown app"@,
        LaunchOutcomeView::Launched => "Launched successfully"@,
        LaunchOutcomeView::Failed(reason) => "Failed to launch: "@ + reason,
    }
}

/// Words the answer to a launch request.
pub fn launch_reply(outcome: &LaunchOutcome) -> (text: String)
    ensures
        text@ == launch_text(outcome@),
{
    match outcome {
        LaunchOutcome::UnknownApp => String::from_str("Unknown app"),
        LaunchOutcome::Launched => String::from_str("Launched successfully"),
        LaunchOutcome::Failed(reason) => {
            let mut text = String::from_str("Failed to launch: ");
            text.append(reason.as_str());
            text
        },
    }
}

/// What to do about the local model server.
#[derive(Clone, Copy, Debug, PartialEq, Eq, Hash, Structural)]
pub enum OllamaPlan {
    /// The server answered the probe: leave it alone.
    AlreadyRunning,
    /// The server did not answer: start it.
    Start,
}

/// Decides from the outcome of the probe whether the server has to be
/// started: only a probe that ran and succeeded shows a running server.
pub fn ollama_plan(probe: &Option<ProgramOutput>) -> (plan: OllamaPlan)
    ensures
        plan == if succeeded(probe.deep_view()) {
            OllamaPlan::AlreadyRunning
        } else {
            OllamaPlan::Start
        },
{
    match probe {
        Some(output) if output.success => OllamaPlan::AlreadyRunning,
        _ => OllamaPlan::Start,
    }
}

/// The answer to a request to start the server, once `plan` was carried out.
pub open spec fn ollama_text(plan: OllamaPlan) -> Seq<char> {
    match plan {
        OllamaPlan::AlreadyRunning => "Ollama already running"@,
        OllamaPlan::Start => "Ollama started"@,
    }
}

/// Words the answer to a request to start the server.
pub fn ollama_reply(plan: OllamaPlan) -> (text: String)
    ensures
        text@ == ollama_text(plan),
{
    match plan {
        OllamaPlan::AlreadyRunning => String::from_str("Ollama already running"),
        OllamaPlan::Start => String::from_str("Ollama started"),
    }
}

} // verus!

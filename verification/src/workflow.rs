//! The workflow orchestrator, as a state machine.
//!
//! The fixed application-level protocol — handshake, open the source
//! document, request interface inference, optionally open and format the
//! inferred text, apply the returned edits, persist the result, graceful
//! shutdown — is a function from the current state and the event that
//! arrived to the next state and the actions to perform.  The surrounding
//! event loop performs each action (sends the frame, writes the file) and
//! feeds the outcome back in as the next event.
//!
//! A failed inference is recoverable: the run produces no output file and
//! still shuts the session down in good order.  A failed formatting request
//! degrades to the unformatted inferred text.  Setup failures (handshake,
//! shutdown) abort the run.

use crate::paths::interface_path;
use crate::paths::interface_path_spec;
use crate::text_edit::TextEdit;
use crate::text_edit::apply_edit_list;
use crate::text_edit::apply_edits;
use vstd::prelude::*;
use vstd::string::StringExecFns;

verus! {

/// A document as the client opens it with the server: a location, a language
/// tag, a version counter starting at 0, and the full text.
#[derive(Clone, Debug, PartialEq, Eq)]
pub struct Document {
    pub uri: String,
    pub language: String,
    pub version: u32,
    pub text: String,
}

/// Where the workflow stands, with the data the remaining steps need.
#[derive(Clone, Debug, PartialEq, Eq)]
pub enum Workflow {
    /// the initialize request is outstanding
    Handshaking { source_path: String, source_text: String },
    /// the source document is open and the inference request is outstanding
    AwaitingInference { source_path: String },
    /// the inferred text is open as a document and its formatting request is
    /// outstanding
    AwaitingFormatting { output_path: String, inferred: String },
    /// the shutdown request is outstanding; `written` is the output path if
    /// an interface file was produced
    AwaitingShutdown { written: Option<String> },
    /// exit and stop are sent; the event loop has yet to wind down
    Draining { written: Option<String> },
    /// the run is over; `written` is the output path if one was produced
    Terminated { written: Option<String> },
    /// an unrecoverable setup failure ended the run
    Failed { message: String },
}

/// One action for the surrounding event loop to perform.
#[derive(Clone, Debug, PartialEq, Eq)]
pub enum Action {
    /// send the `initialize` request
    SendInitialize,
    /// send the `initialized` notification
    SendInitialized,
    /// open the document with the server
    OpenDocument(Document),
    /// send the interface-inference request for this location
    RequestInference { uri: String },
    /// send the formatting request for this location
    RequestFormatting { uri: String },
    /// persist the final text to this path and report the path
    WriteOutput { path: String, text: String },
    /// send the `shutdown` request
    SendShutdown,
    /// send the `exit` notification
    SendExit,
    /// emit the internal stop event that ends the message loop
    EmitStop,
    /// abort the run with a diagnostic and a non-zero exit
    ReportFailure { message: String },
}

/// The outcome of an action, fed back into the state machine.  A session
/// that terminates while a request is outstanding fails that request's
/// completion, so every request-shaped step eventually sees its event.
#[derive(Clone, Debug, PartialEq, Eq)]
pub enum Event {
    InitializeOk,
    InitializeFailed { message: String },
    InferenceOk { text: String },
    InferenceFailed,
    FormattingOk { edits: Vec<TextEdit> },
    FormattingFailed,
    ShutdownOk,
    ShutdownFailed { message: String },
    LoopEnded,
}

/// What `advance` must produce for each state and event: the next state and
/// exactly the actions the protocol calls for; a pair the protocol never
/// produces changes nothing.
pub open spec fn advance_post(
    state: Workflow,
    event: Event,
    next: Workflow,
    actions: Seq<Action>,
) -> bool {
    match (state, event) {
        (Workflow::Handshaking { source_path, source_text }, Event::InitializeOk) => {
            &&& next == (Workflow::AwaitingInference { source_path })
            &&& actions.len() == 3
            &&& actions[0] is SendInitialized
            &&& (actions[1] matches Action::OpenDocument(doc) && doc.uri == source_path && doc.text
                == source_text && doc.version == 0 && doc.language@ == "ocaml"@)
            &&& (actions[2] matches Action::RequestInference { uri } && uri == source_path)
        },
        (Workflow::Handshaking { .. }, Event::InitializeFailed { message }) => {
            &&& next == (Workflow::Failed { message })
            &&& actions.len() == 1
            &&& (actions[0] matches Action::ReportFailure { message: m } && m == message)
        },
        (Workflow::AwaitingInference { source_path }, Event::InferenceOk { text }) => {
            &&& (next matches Workflow::AwaitingFormatting { output_path, inferred }
                && output_path@ == interface_path_spec(source_path@) && inferred == text)
            &&& actions.len() == 2
            &&& (actions[0] matches Action::OpenDocument(doc) && doc.uri@ == interface_path_spec(
                source_path@,
            ) && doc.text == text && doc.version == 0 && doc.language@ == "ocaml"@)
            &&& (actions[1] matches Action::RequestFormatting { uri } && uri@
                == interface_path_spec(source_path@))
        },
        (Workflow::AwaitingInference { .. }, Event::InferenceFailed) => {
            &&& next == (Workflow::AwaitingShutdown { written: Option::<String>::None })
            &&& actions.len() == 1
            &&& actions[0] is SendShutdown
        },
        (Workflow::AwaitingFormatting { output_path, inferred }, Event::FormattingOk { edits }) => {
            &&& (next matches Workflow::AwaitingShutdown { written: Some(p) } && p == output_path)
            &&& actions.len() == 2
            &&& (actions[0] matches Action::WriteOutput { path, text } && path == output_path
                && text@ == apply_edit_list(inferred@, edits@))
            &&& actions[1] is SendShutdown
        },
        (Workflow::AwaitingFormatting { output_path, inferred }, Event::FormattingFailed) => {
            &&& (next matches Workflow::AwaitingShutdown { written: Some(p) } && p == output_path)
            &&& actions.len() == 2
            &&& (actions[0] matches Action::WriteOutput { path, text } && path == output_path
                && text == inferred)
            &&& actions[1] is SendShutdown
        },
        (Workflow::AwaitingShutdown { written }, Event::ShutdownOk) => {
            &&& next == (Workflow::Draining { written })
            &&& actions.len() == 2
            &&& actions[0] is SendExit
            &&& actions[1] is EmitStop
        },
        (Workflow::AwaitingShutdown { .. }, Event::ShutdownFailed { message }) => {
            &&& next == (Workflow::Failed { message })
            &&& actions.len() == 1
            &&& (actions[0] matches Action::ReportFailure { message: m } && m == message)
        },
        (Workflow::Draining { written }, Event::LoopEnded) => {
            &&& next == (Workflow::Terminated { written })
            &&& actions.len() == 0
        },
        (s, _) => {
            &&& next == s
            &&& actions.len() == 0
        },
    }
}

/// Begins the workflow for a source file: the machine stands in the
/// handshake and the loop must send the `initialize` request.
pub fn start_workflow(source_path: String, source_text: String) -> (r: (Workflow, Action))
    ensures
        r.0 == (Workflow::Handshaking { source_path, source_text }),
        r.1 is SendInitialize,
{
    (Workflow::Handshaking { source_path, source_text }, Action::SendInitialize)
}

/// Advances the workflow by one event: returns the next state and the
/// actions the loop must perform, exactly as the protocol prescribes — see
/// `advance_post` for the transition table.
pub fn advance(state: Workflow, event: Event) -> (r: (Workflow, Vec<Action>))
    ensures
        advance_post(state, event, r.0, r.1@),
{
    match (state, event) {
        (Workflow::Handshaking { source_path, source_text }, Event::InitializeOk) => {
            let mut actions: Vec<Action> = Vec::new();
            actions.push(Action::SendInitialized);
            actions.push(
                Action::OpenDocument(
                    Document {
                        uri: source_path.clone(),
                        language: String::from_str("ocaml"),
                        version: 0,
                        text: source_text,
                    },
                ),
            );
            actions.push(Action::RequestInference { uri: source_path.clone() });
            (Workflow::AwaitingInference { source_path }, actions)
        },
        (Workflow::Handshaking { .. }, Event::InitializeFailed { message }) => {
            let mut actions: Vec<Action> = Vec::new();
            actions.push(Action::ReportFailure { message: message.clone() });
            (Workflow::Failed { message }, actions)
        },
        (Workflow::AwaitingInference { source_path }, Event::InferenceOk { text }) => {
            let output_path = interface_path(source_path.as_str());
            let mut actions: Vec<Action> = Vec::new();
            actions.push(
                Action::OpenDocument(
                    Document {
                        uri: output_path.clone(),
                        language: String::from_str("ocaml"),
                        version: 0,
                        text: text.clone(),
                    },
                ),
            );
            actions.push(Action::RequestFormatting { uri: output_path.clone() });
            (Workflow::AwaitingFormatting { output_path, inferred: text }, actions)
        },
        (Workflow::AwaitingInference { .. }, Event::InferenceFailed) => {
            let mut actions: Vec<Action> = Vec::new();
            actions.push(Action::SendShutdown);
            (Workflow::AwaitingShutdown { written: None }, actions)
        },
        (Workflow::AwaitingFormatting { output_path, inferred }, Event::FormattingOk { edits }) => {
            let text = apply_edits(inferred.as_str(), &edits);
            let mut actions: Vec<Action> = Vec::new();
            actions.push(Action::WriteOutput { path: output_path.clone(), text });
            actions.push(Action::SendShutdown);
            (Workflow::AwaitingShutdown { written: Some(output_path) }, actions)
        },
        (Workflow::AwaitingFormatting { output_path, inferred }, Event::FormattingFailed) => {
            let mut actions: Vec<Action> = Vec::new();
            actions.push(Action::WriteOutput { path: output_path.clone(), text: inferred });
            actions.push(Action::SendShutdown);
            (Workflow::AwaitingShutdown { written: Some(output_path) }, actions)
        },
        (Workflow::AwaitingShutdown { written }, Event::ShutdownOk) => {
            let mut actions: Vec<Action> = Vec::new();
            actions.push(Action::SendExit);
            actions.push(Action::EmitStop);
            (Workflow::Draining { written }, actions)
        },
        (Workflow::AwaitingShutdown { .. }, Event::ShutdownFailed { message }) => {
            let mut actions: Vec<Action> = Vec::new();
            actions.push(Action::ReportFailure { message: message.clone() });
            (Workflow::Failed { message }, actions)
        },
        (Workflow::Draining { written }, Event::LoopEnded) => {
            (Workflow::Terminated { written }, Vec::new())
        },
        (s, _) => (s, Vec::new()),
    }
}

} // verus!

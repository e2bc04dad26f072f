use infer_intf::text_edit::EditRange;
use infer_intf::text_edit::Position;
use infer_intf::text_edit::TextEdit;
use infer_intf::workflow::Action;
use infer_intf::workflow::Document;
use infer_intf::workflow::Event;
use infer_intf::workflow::Workflow;
use infer_intf::workflow::advance;
use infer_intf::workflow::start_workflow;

fn newline_at(line: u32, character: u32) -> TextEdit {
    TextEdit {
        range: EditRange {
            start: Position { line, character },
            end: Position { line, character },
        },
        new_text: String::from("\n"),
    }
}

#[test]
fn successful_run_writes_the_formatted_interface_file() {
    let (state, first) = start_workflow(String::from("foo.ml"), String::from("let f x = x + 1"));
    assert_eq!(first, Action::SendInitialize);

    let (state, actions) = advance(state, Event::InitializeOk);
    assert_eq!(
        actions,
        vec![
            Action::SendInitialized,
            Action::OpenDocument(Document {
                uri: String::from("foo.ml"),
                language: String::from("ocaml"),
                version: 0,
                text: String::from("let f x = x + 1"),
            }),
            Action::RequestInference { uri: String::from("foo.ml") },
        ]
    );

    let (state, actions) = advance(
        state,
        Event::InferenceOk { text: String::from("val f : int -> int") },
    );
    assert_eq!(
        actions,
        vec![
            Action::OpenDocument(Document {
                uri: String::from("foo.mli"),
                language: String::from("ocaml"),
                version: 0,
                text: String::from("val f : int -> int"),
            }),
            Action::RequestFormatting { uri: String::from("foo.mli") },
        ]
    );

    // the formatter returns one edit inserting a newline at the end
    let (state, actions) = advance(state, Event::FormattingOk { edits: vec![newline_at(0, 18)] });
    assert_eq!(
        actions,
        vec![
            Action::WriteOutput {
                path: String::from("foo.mli"),
                text: String::from("val f : int -> int\n"),
            },
            Action::SendShutdown,
        ]
    );

    let (state, actions) = advance(state, Event::ShutdownOk);
    assert_eq!(actions, vec![Action::SendExit, Action::EmitStop]);

    let (state, actions) = advance(state, Event::LoopEnded);
    assert_eq!(actions, vec![]);
    assert_eq!(state, Workflow::Terminated { written: Some(String::from("foo.mli")) });
}

#[test]
fn failed_inference_writes_nothing_and_still_shuts_down() {
    let (state, _) = start_workflow(String::from("foo.ml"), String::from("let f x = x"));
    let (state, _) = advance(state, Event::InitializeOk);
    let (state, actions) = advance(state, Event::InferenceFailed);
    // no output file: the only action is the graceful shutdown
    assert_eq!(actions, vec![Action::SendShutdown]);
    let (state, actions) = advance(state, Event::ShutdownOk);
    assert_eq!(actions, vec![Action::SendExit, Action::EmitStop]);
    let (state, _) = advance(state, Event::LoopEnded);
    // the run terminates normally with no path to print
    assert_eq!(state, Workflow::Terminated { written: None });
}

#[test]
fn failed_formatting_writes_the_unformatted_inferred_text() {
    let (state, _) = start_workflow(String::from("foo.ml"), String::from("let f x = x + 1"));
    let (state, _) = advance(state, Event::InitializeOk);
    let (state, _) = advance(
        state,
        Event::InferenceOk { text: String::from("val f : int -> int") },
    );
    let (state, actions) = advance(state, Event::FormattingFailed);
    assert_eq!(
        actions,
        vec![
            Action::WriteOutput {
                path: String::from("foo.mli"),
                text: String::from("val f : int -> int"),
            },
            Action::SendShutdown,
        ]
    );
    assert!(matches!(state, Workflow::AwaitingShutdown { written: Some(p) } if p == "foo.mli"));
}

#[test]
fn formatting_with_no_edits_writes_the_inferred_text_verbatim() {
    let (state, _) = start_workflow(String::from("m.ml"), String::from(""));
    let (state, _) = advance(state, Event::InitializeOk);
    let (state, _) = advance(state, Event::InferenceOk { text: String::from("val x : unit") });
    let (_, actions) = advance(state, Event::FormattingOk { edits: vec![] });
    assert_eq!(
        actions[0],
        Action::WriteOutput { path: String::from("m.mli"), text: String::from("val x : unit") }
    );
}

#[test]
fn handshake_failure_aborts_the_run() {
    let (state, _) = start_workflow(String::from("foo.ml"), String::from(""));
    let (state, actions) = advance(
        state,
        Event::InitializeFailed { message: String::from("couldn't initialize") },
    );
    assert_eq!(
        actions,
        vec![Action::ReportFailure { message: String::from("couldn't initialize") }]
    );
    assert_eq!(state, Workflow::Failed { message: String::from("couldn't initialize") });
}

#[test]
fn shutdown_failure_aborts_the_run() {
    let (state, _) = start_workflow(String::from("foo.ml"), String::from(""));
    let (state, _) = advance(state, Event::InitializeOk);
    let (state, _) = advance(state, Event::InferenceFailed);
    let (state, actions) = advance(
        state,
        Event::ShutdownFailed { message: String::from("couldn't shutdown") },
    );
    assert_eq!(
        actions,
        vec![Action::ReportFailure { message: String::from("couldn't shutdown") }]
    );
    assert_eq!(state, Workflow::Failed { message: String::from("couldn't shutdown") });
}

#[test]
fn an_event_the_protocol_never_produces_changes_nothing() {
    let (state, _) = start_workflow(String::from("foo.ml"), String::from("text"));
    let (next, actions) = advance(state.clone(), Event::ShutdownOk);
    assert_eq!(actions, vec![]);
    assert_eq!(next, state);
}

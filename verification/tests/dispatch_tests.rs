use infer_intf::dispatch::DispatchState;
use infer_intf::dispatch::Notification;
use infer_intf::dispatch::NotifyEffect;
use infer_intf::dispatch::ProgressStage;
use infer_intf::dispatch::ProgressToken;

#[test]
fn signal_fires_on_first_qualifying_end_event_only() {
    let mut state: DispatchState<u32> = DispatchState::new(7);
    let fired = state.on_progress(
        &ProgressToken::Text(String::from("rustAnalyzer/indexing")),
        &ProgressStage::End,
    );
    assert_eq!(fired, Some(7));
    // every subsequent qualifying event is a no-op
    let fired = state.on_progress(
        &ProgressToken::Text(String::from("rustAnalyzer/indexing")),
        &ProgressStage::End,
    );
    assert_eq!(fired, None);
    assert_eq!(state.indexed_signal, None);
}

#[test]
fn numeric_token_progress_does_not_fire() {
    let mut state: DispatchState<u32> = DispatchState::new(7);
    let fired = state.on_progress(&ProgressToken::Number(3), &ProgressStage::End);
    assert_eq!(fired, None);
    // the signal stays armed for the real indexing stream
    assert_eq!(state.indexed_signal, Some(7));
}

#[test]
fn non_end_stages_do_not_fire() {
    let mut state: DispatchState<u32> = DispatchState::new(1);
    assert_eq!(
        state.on_progress(&ProgressToken::Text(String::from("t")), &ProgressStage::Begin),
        None
    );
    assert_eq!(
        state.on_progress(&ProgressToken::Text(String::from("t")), &ProgressStage::Report),
        None
    );
    assert_eq!(state.indexed_signal, Some(1));
}

#[test]
fn messages_surface_and_diagnostics_are_ignored() {
    let mut state: DispatchState<u32> = DispatchState::new(1);
    let effect = state.route_notification(Notification::ShowMessage(String::from("hello")));
    assert!(matches!(effect, NotifyEffect::Surface(m) if m == "hello"));
    let effect = state.route_notification(Notification::LogMessage(String::from("logged")));
    assert!(matches!(effect, NotifyEffect::Surface(m) if m == "logged"));
    let effect = state.route_notification(Notification::Diagnostics);
    assert!(matches!(effect, NotifyEffect::NoEffect));
    let effect =
        state.route_notification(Notification::Other(String::from("$/unknownExtension")));
    assert!(matches!(effect, NotifyEffect::NoEffect));
    // none of these touched the one-shot slot
    assert_eq!(state.indexed_signal, Some(1));
}

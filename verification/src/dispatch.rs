//! Notification routing and the one-shot indexing-complete signal.
//!
//! The dispatcher owns the per-session mutable state: a one-shot slot holding
//! the indexing-complete signal.  Progress notifications whose token is a
//! string and whose work-done event is an end event fire the signal exactly
//! once; show-message and log-message notifications surface their text on the
//! diagnostic stream; diagnostics publications and unknown methods are
//! ignored without error.

use vstd::prelude::*;

verus! {

/// A progress token: the protocol allows either a number or a string; only
/// string-token progress streams belong to indexing.
#[derive(Clone, Debug, PartialEq, Eq)]
pub enum ProgressToken {
    Number(i64),
    Text(String),
}

/// The stage a work-done progress event reports.
#[derive(Clone, Copy, Debug, PartialEq, Eq, Structural)]
pub enum ProgressStage {
    Begin,
    Report,
    End,
}

/// A wire notification, reduced to what the dispatcher routes on.
#[derive(Clone, Debug, PartialEq, Eq)]
pub enum Notification {
    /// `$/progress`: a work-done progress event under some token
    Progress(ProgressToken, ProgressStage),
    /// `textDocument/publishDiagnostics`: received and discarded
    Diagnostics,
    /// `window/showMessage`: surfaced on the diagnostic stream only
    ShowMessage(String),
    /// `window/logMessage`: surfaced on the diagnostic stream only
    LogMessage(String),
    /// any method the dispatcher does not understand: ignored without error
    Other(String),
}

/// What handling one notification did: fired the one-shot indexing signal,
/// surfaced a message on the diagnostic stream, or nothing.
pub enum NotifyEffect<S> {
    FiredIndexed(S),
    Surface(String),
    NoEffect,
}

/// The dispatcher's per-session state: the one-shot slot for the
/// indexing-complete signal, cleared on first consumption.
pub struct DispatchState<S> {
    pub indexed_signal: Option<S>,
}

/// Whether a progress event qualifies as the indexing-complete event: its
/// token is a string and it reports the end of a work-done operation.
pub open spec fn qualifies(token: ProgressToken, stage: ProgressStage) -> bool {
    token is Text && stage is End
}

/// What a progress event does to the one-shot slot: the first qualifying
/// event takes the signal out of the slot and fires it; every other event
/// (non-qualifying, or after the slot was consumed) changes and fires
/// nothing.  Result: (slot afterwards, signal fired).
pub open spec fn progress_step<S>(slot: Option<S>, token: ProgressToken, stage: ProgressStage) -> (
    Option<S>,
    Option<S>,
) {
    if qualifies(token, stage) && slot is Some {
        (None, slot)
    } else {
        (slot, None)
    }
}

/// What routing one wire notification does: the one-shot slot afterwards,
/// the signal it fired, and the message it surfaced on the diagnostic
/// stream.
pub open spec fn notify_step<S>(slot: Option<S>, note: Notification) -> (
    Option<S>,
    Option<S>,
    Option<Seq<char>>,
) {
    match note {
        Notification::Progress(token, stage) => (
            progress_step(slot, token, stage).0,
            progress_step(slot, token, stage).1,
            None,
        ),
        Notification::Diagnostics => (slot, None, None),
        Notification::ShowMessage(message) => (slot, None, Some(message@)),
        Notification::LogMessage(message) => (slot, None, Some(message@)),
        Notification::Other(_) => (slot, None, None),
    }
}

/// The indexing-complete signal fires on the first qualifying progress-end
/// event and is a no-op on every subsequent event: the first qualifying event
/// takes the armed signal, and afterwards the slot is empty, so any further
/// event, qualifying or not, fires nothing and leaves the slot empty.
pub proof fn lemma_signal_fires_once<S>(
    slot: Option<S>,
    first_token: ProgressToken,
    first_stage: ProgressStage,
    later_token: ProgressToken,
    later_stage: ProgressStage,
)
    requires
        slot is Some,
        qualifies(first_token, first_stage),
    ensures
        progress_step(slot, first_token, first_stage).1 == slot,
        progress_step(progress_step(slot, first_token, first_stage).0, later_token, later_stage).1
            == None::<S>,
        progress_step(progress_step(slot, first_token, first_stage).0, later_token, later_stage).0
            == None::<S>,
{
}

impl<S> DispatchState<S> {
    /// Fresh per-session state with the indexing-complete signal armed.
    pub fn new(signal: S) -> (state: Self)
        ensures
            state.indexed_signal == Some(signal),
    {
        DispatchState { indexed_signal: Some(signal) }
    }

    /// Handles a progress notification: on the first qualifying work-done end
    /// event the one-shot signal is taken out of its slot and returned to be
    /// fired; every other event returns nothing and leaves the state as it
    /// was, so duplicate completion notifications from the remote process are
    /// ignored.
    pub fn on_progress(&mut self, token: &ProgressToken, stage: &ProgressStage) -> (fired: Option<
        S,
    >)
        ensures
            (final(self).indexed_signal, fired) == progress_step(
                old(self).indexed_signal,
                *token,
                *stage,
            ),
    {
        let is_text = match token {
            ProgressToken::Text(_) => true,
            ProgressToken::Number(_) => false,
        };
        let is_end = match stage {
            ProgressStage::End => true,
            _ => false,
        };
        if is_text && is_end {
            self.indexed_signal.take()
        } else {
            None
        }
    }

    /// Routes one wire notification to its handler: the progress handler may
    /// fire the indexing signal, show-message and log-message surface their
    /// text, and diagnostics publications and unknown methods are ignored
    /// without error.
    pub fn route_notification(&mut self, note: Notification) -> (effect: NotifyEffect<S>)
        ensures
            ({
                let (slot, fired, surfaced) = notify_step(old(self).indexed_signal, note);
                &&& final(self).indexed_signal == slot
                &&& (effect matches NotifyEffect::FiredIndexed(s) ==> fired == Some(s))
                &&& (fired is Some ==> (effect matches NotifyEffect::FiredIndexed(s) && fired
                    == Some(s)))
                &&& (effect matches NotifyEffect::Surface(m) ==> surfaced == Some(m@))
                &&& (surfaced is Some ==> (effect matches NotifyEffect::Surface(m) && surfaced
                    == Some(m@)))
                &&& (effect is NoEffect ==> fired is None && surfaced is None)
            }),
    {
        match note {
            Notification::Progress(token, stage) => {
                match self.on_progress(&token, &stage) {
                    Some(signal) => NotifyEffect::FiredIndexed(signal),
                    None => NotifyEffect::NoEffect,
                }
            },
            Notification::Diagnostics => NotifyEffect::NoEffect,
            Notification::ShowMessage(message) => NotifyEffect::Surface(message),
            Notification::LogMessage(message) => NotifyEffect::Surface(message),
            Notification::Other(_) => NotifyEffect::NoEffect,
        }
    }
}

} // verus!

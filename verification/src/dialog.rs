//! The confirm-or-cancel exchange that several commands hold before acting:
//! a message with a confirm and a cancel button, answered press by press
//! until the confirm press has been answered or a minute passes.
use vstd::prelude::*;
use crate::text::{push_str, push_u64};

verus! {

/// The buttons and answers of one exchange. `T` is the text type: `String`
/// when the command runs, `Seq<char>` in the specification.
#[derive(Debug, PartialEq, Eq)]
pub struct ConfirmDialog<T> {
    pub confirm_id: T,
    pub cancel_id: T,
    /// The text the message becomes after the confirm press.
    pub confirmed_text: T,
    /// The text the message becomes after a cancel press.
    pub cancelled_text: T,
}

/// Where an exchange stands.
#[derive(Debug, Clone, Copy, PartialEq, Eq, Structural)]
pub enum DialogState {
    /// Waiting for a press.
    Waiting,
    /// The confirm press is being answered.
    AnsweringConfirm,
    /// A cancel press is being answered.
    AnsweringCancel,
    /// The exchange is over.
    Done,
    /// The exchange is over and failed.
    Failed,
}

/// What happened since the last step.
#[derive(Debug, PartialEq, Eq)]
pub enum DialogEvent<T> {
    /// A button with this identifier was pressed.
    Pressed(T),
    /// The answer to the press was shown (`true`) or could not be.
    Answered(bool),
    /// A minute passed without a press.
    TimedOut,
}

/// What the command does next.
#[derive(Debug, PartialEq, Eq)]
pub enum DialogAction<T> {
    /// Keep waiting for a press.
    KeepWaiting,
    /// Replace the message with `text` and remove its buttons.
    Answer { text: T },
    /// Do what was confirmed (commit, change the event, log it).
    Proceed,
    /// Stop with an error; nothing is done (an open transaction is rolled back).
    Fail,
    /// Stop without doing anything (an open transaction is dropped).
    Stop,
    /// The event does not concern this state; nothing to do.
    Ignore,
}

impl View for ConfirmDialog<String> {
    type V = ConfirmDialog<Seq<char>>;

    open spec fn view(&self) -> ConfirmDialog<Seq<char>> {
        ConfirmDialog {
            confirm_id: self.confirm_id@,
            cancel_id: self.cancel_id@,
            confirmed_text: self.confirmed_text@,
            cancelled_text: self.cancelled_text@,
        }
    }
}

impl View for DialogEvent<String> {
    type V = DialogEvent<Seq<char>>;

    open spec fn view(&self) -> DialogEvent<Seq<char>> {
        match self {
            DialogEvent::Pressed(id) => DialogEvent::Pressed(id@),
            DialogEvent::Answered(ok) => DialogEvent::Answered(*ok),
            DialogEvent::TimedOut => DialogEvent::TimedOut,
        }
    }
}

impl View for DialogAction<String> {
    type V = DialogAction<Seq<char>>;

    open spec fn view(&self) -> DialogAction<Seq<char>> {
        match self {
            DialogAction::KeepWaiting => DialogAction::KeepWaiting,
            DialogAction::Answer { text } => DialogAction::Answer { text: text@ },
            DialogAction::Proceed => DialogAction::Proceed,
            DialogAction::Fail => DialogAction::Fail,
            DialogAction::Stop => DialogAction::Stop,
            DialogAction::Ignore => DialogAction::Ignore,
        }
    }
}

/// The identifier of a button of the interaction `interaction_id`: its
/// identifier followed by `name`.
pub fn button_id_text(interaction_id: u64, name: &str) -> (s: String)
    ensures
        s@ == crate::common::button_id(interaction_id, name@),
{
    let mut s = String::new();
    push_u64(&mut s, interaction_id);
    push_str(&mut s, name);
    s
}

/// One step of an exchange. A press of the confirm button is answered with
/// the confirmed text; once that answer is shown, the confirmed action
/// proceeds, and when it cannot be shown the exchange fails. A press of the
/// cancel button is answered with the cancelled text and the exchange goes on
/// waiting (a failed answer fails it). Any other button changes nothing, and
/// a minute without a press stops the exchange with nothing done.
pub open spec fn dialog_transition(d: ConfirmDialog<Seq<char>>, s: DialogState, e: DialogEvent<Seq<char>>) -> (
    DialogState,
    DialogAction<Seq<char>>,
) {
    match s {
        DialogState::Waiting => match e {
            DialogEvent::Pressed(id) => if id == d.confirm_id {
                (DialogState::AnsweringConfirm, DialogAction::Answer { text: d.confirmed_text })
            } else if id == d.cancel_id {
                (DialogState::AnsweringCancel, DialogAction::Answer { text: d.cancelled_text })
            } else {
                (s, DialogAction::KeepWaiting)
            },
            DialogEvent::TimedOut => (DialogState::Done, DialogAction::Stop),
            DialogEvent::Answered(_) => (s, DialogAction::Ignore),
        },
        DialogState::AnsweringConfirm => match e {
            DialogEvent::Answered(ok) => if ok {
                (DialogState::Done, DialogAction::Proceed)
            } else {
                (DialogState::Failed, DialogAction::Fail)
            },
            _ => (s, DialogAction::Ignore),
        },
        DialogState::AnsweringCancel => match e {
            DialogEvent::Answered(ok) => if ok {
                (DialogState::Waiting, DialogAction::KeepWaiting)
            } else {
                (DialogState::Failed, DialogAction::Fail)
            },
            _ => (s, DialogAction::Ignore),
        },
        DialogState::Done => (s, DialogAction::Ignore),
        DialogState::Failed => (s, DialogAction::Ignore),
    }
}

/// The next state of an exchange and what the command does next (see
/// [`dialog_transition`]).
pub fn dialog_step(d: &ConfirmDialog<String>, s: DialogState, e: DialogEvent<String>) -> (r: (
    DialogState,
    DialogAction<String>,
))
    ensures
        (r.0, r.1@) == dialog_transition(d@, s, e@),
{
    match s {
        DialogState::Waiting => match e {
            DialogEvent::Pressed(id) => {
                if crate::text::str_to_string(id.as_str()) == crate::text::str_to_string(d.confirm_id.as_str()) {
                    (DialogState::AnsweringConfirm, DialogAction::Answer { text: crate::text::str_to_string(d.confirmed_text.as_str()) })
                } else if crate::text::str_to_string(id.as_str()) == crate::text::str_to_string(d.cancel_id.as_str()) {
                    (DialogState::AnsweringCancel, DialogAction::Answer { text: crate::text::str_to_string(d.cancelled_text.as_str()) })
                } else {
                    (s, DialogAction::KeepWaiting)
                }
            },
            DialogEvent::TimedOut => (DialogState::Done, DialogAction::Stop),
            DialogEvent::Answered(_) => (s, DialogAction::Ignore),
        },
        DialogState::AnsweringConfirm => match e {
            DialogEvent::Answered(ok) => if ok {
                (DialogState::Done, DialogAction::Proceed)
            } else {
                (DialogState::Failed, DialogAction::Fail)
            },
            _ => (s, DialogAction::Ignore),
        },
        DialogState::AnsweringCancel => match e {
            DialogEvent::Answered(ok) => if ok {
                (DialogState::Waiting, DialogAction::KeepWaiting)
            } else {
                (DialogState::Failed, DialogAction::Fail)
            },
            _ => (s, DialogAction::Ignore),
        },
        DialogState::Done => (s, DialogAction::Ignore),
        DialogState::Failed => (s, DialogAction::Ignore),
    }
}

/// The states reached and the actions taken by an exchange from `s` through
/// `events`.
pub open spec fn dialog_run(d: ConfirmDialog<Seq<char>>, s: DialogState, events: Seq<DialogEvent<Seq<char>>>) -> (
    DialogState,
    Seq<DialogAction<Seq<char>>>,
)
    decreases events.len(),
{
    if events.len() == 0 {
        (s, Seq::empty())
    } else {
        let step = dialog_transition(d, s, events[0]);
        let rest = dialog_run(d, step.0, events.drop_first());
        (rest.0, seq![step.1] + rest.1)
    }
}

proof fn lemma_dialog_run_len(d: ConfirmDialog<Seq<char>>, s: DialogState, events: Seq<DialogEvent<Seq<char>>>)
    ensures
        dialog_run(d, s, events).1.len() == events.len(),
    decreases events.len(),
{
    if events.len() > 0 {
        lemma_dialog_run_len(d, dialog_transition(d, s, events[0]).0, events.drop_first());
    }
}

proof fn lemma_dialog_run_proceeds(d: ConfirmDialog<Seq<char>>, s: DialogState, events: Seq<DialogEvent<Seq<char>>>)
    ensures
        forall|i: int| 0 <= i < dialog_run(d, s, events).1.len() && #[trigger] dialog_run(d, s, events).1[i] is Proceed
            ==> (s == DialogState::AnsweringConfirm || exists|j: int| 0 <= j < i && events[j] == DialogEvent::Pressed(d.confirm_id)),
        (s is Done || s is Failed) ==> forall|i: int| 0 <= i < dialog_run(d, s, events).1.len()
            ==> !(#[trigger] dialog_run(d, s, events).1[i] is Proceed),
    decreases events.len(),
{
    if events.len() > 0 {
        let step = dialog_transition(d, s, events[0]);
        let tail = events.drop_first();
        lemma_dialog_run_proceeds(d, step.0, tail);
        lemma_dialog_run_len(d, step.0, tail);
        let acts = dialog_run(d, s, events).1;
        let rest = dialog_run(d, step.0, tail).1;
        assert(acts == seq![step.1] + rest);
        assert forall|i: int| 0 <= i < acts.len() && #[trigger] acts[i] is Proceed implies (s
            == DialogState::AnsweringConfirm || exists|j: int| 0 <= j < i && events[j] == DialogEvent::Pressed(d.confirm_id)) by {
            if i > 0 {
                assert(acts[i] == rest[i - 1]);
                if step.0 == DialogState::AnsweringConfirm {
                    if s != DialogState::AnsweringConfirm {
                        assert(events[0] == DialogEvent::Pressed(d.confirm_id));
                    }
                } else {
                    let j = choose|j: int| 0 <= j < i - 1 && tail[j] == DialogEvent::Pressed(d.confirm_id);
                    assert(events[j + 1] == tail[j]);
                }
            }
        }
        if s is Done || s is Failed {
            assert forall|i: int| 0 <= i < acts.len() implies !(#[trigger] acts[i] is Proceed) by {
                if i > 0 {
                    assert(acts[i] == rest[i - 1]);
                }
            }
        }
    }
}

/// An exchange proceeds only after a press of its confirm button: in every
/// run from the waiting message, each `Proceed` comes after such a press;
/// and once it is over (stopped by a minute without a press, done or
/// failed), nothing proceeds any more.
pub proof fn lemma_dialog_proceeds_only_after_confirm(
    d: ConfirmDialog<Seq<char>>,
    events: Seq<DialogEvent<Seq<char>>>,
    s: DialogState,
)
    requires
        s is Done || s is Failed,
    ensures
        forall|i: int| 0 <= i < dialog_run(d, DialogState::Waiting, events).1.len()
            && #[trigger] dialog_run(d, DialogState::Waiting, events).1[i] is Proceed
            ==> exists|j: int| 0 <= j < i && events[j] == DialogEvent::Pressed(d.confirm_id),
        dialog_transition(d, DialogState::Waiting, DialogEvent::TimedOut) == (DialogState::Done, DialogAction::<Seq<char>>::Stop),
        forall|i: int| 0 <= i < dialog_run(d, s, events).1.len() ==> !(#[trigger] dialog_run(d, s, events).1[i] is Proceed),
{
    lemma_dialog_run_proceeds(d, DialogState::Waiting, events);
    lemma_dialog_run_proceeds(d, s, events);
}

/// A press of the cancel button (other than the confirm button) is answered
/// with the cancelled text and, once answered, the exchange waits again; a
/// press of any other button keeps it waiting.
pub proof fn lemma_dialog_cancel_keeps_waiting(d: ConfirmDialog<Seq<char>>, other: Seq<char>)
    requires
        d.cancel_id != d.confirm_id,
        other != d.confirm_id,
        other != d.cancel_id,
    ensures
        dialog_transition(d, DialogState::Waiting, DialogEvent::Pressed(d.cancel_id)) == (
            DialogState::AnsweringCancel,
            DialogAction::Answer { text: d.cancelled_text },
        ),
        dialog_transition(d, DialogState::AnsweringCancel, DialogEvent::Answered(true)) == (
            DialogState::Waiting,
            DialogAction::<Seq<char>>::KeepWaiting,
        ),
        dialog_transition(d, DialogState::Waiting, DialogEvent::Pressed(other)) == (
            DialogState::Waiting,
            DialogAction::<Seq<char>>::KeepWaiting,
        ),
{
}

} // verus!

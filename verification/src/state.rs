//! The observable state of the engine.
use vstd::prelude::*;
use vstd::string::*;

use crate::error::labelled;
use crate::text::decimal_text;

verus! {

/// Observable state of the rclone engine.
#[derive(Debug)]
pub enum EngineState {
    /// rclone binary not yet downloaded.
    NotInstalled,
    /// Binary is being downloaded. Progress in bytes.
    Downloading { downloaded: u64, total: Option<u64> },
    /// Download complete; verifying checksum and placing binary.
    Installing,
    /// Binary is installed but the rcd daemon is not running.
    Stopped,
    /// Daemon is starting; waiting for health-check.
    Starting,
    /// Daemon is running and accepting rc requests.
    Ready,
    /// A non-recoverable error occurred.
    Error { message: String },
}

/// An [`EngineState`] with its text as a character sequence.
pub enum StateView {
    NotInstalled,
    Downloading { downloaded: u64, total: Option<u64> },
    Installing,
    Stopped,
    Starting,
    Ready,
    Error { message: Seq<char> },
}

impl View for EngineState {
    type V = StateView;

    open spec fn view(&self) -> StateView {
        match self {
            EngineState::NotInstalled => StateView::NotInstalled,
            EngineState::Downloading { downloaded, total } => StateView::Downloading {
                downloaded: *downloaded,
                total: *total,
            },
            EngineState::Installing => StateView::Installing,
            EngineState::Stopped => StateView::Stopped,
            EngineState::Starting => StateView::Starting,
            EngineState::Ready => StateView::Ready,
            EngineState::Error { message } => StateView::Error { message: message@ },
        }
    }
}

impl StateView {
    /// The state as text, with the progress of a download and the message of an
    /// error in brackets.
    pub open spec fn label(self) -> Seq<char> {
        match self {
            StateView::NotInstalled => "NotInstalled"@,
            StateView::Downloading { downloaded, total } => match total {
                Some(t) => "Downloading("@ + crate::text::decimal(downloaded as nat) + "/"@
                    + crate::text::decimal(t as nat) + ")"@,
                None => "Downloading("@ + crate::text::decimal(downloaded as nat) + "/?)"@,
            },
            StateView::Installing => "Installing"@,
            StateView::Stopped => "Stopped"@,
            StateView::Starting => "Starting"@,
            StateView::Ready => "Ready"@,
            StateView::Error { message } => "Error("@ + message + ")"@,
        }
    }
}

impl Clone for EngineState {
    fn clone(&self) -> (copy: Self)
        ensures
            copy@ == self@,
            copy == *self,
    {
        match self {
            EngineState::NotInstalled => EngineState::NotInstalled,
            EngineState::Downloading { downloaded, total } => EngineState::Downloading {
                downloaded: *downloaded,
                total: *total,
            },
            EngineState::Installing => EngineState::Installing,
            EngineState::Stopped => EngineState::Stopped,
            EngineState::Starting => EngineState::Starting,
            EngineState::Ready => EngineState::Ready,
            EngineState::Error { message } => EngineState::Error { message: message.clone() },
        }
    }
}

impl PartialEq for EngineState {
    fn eq(&self, other: &Self) -> (same: bool) {
        match (self, other) {
            (EngineState::NotInstalled, EngineState::NotInstalled) => true,
            (
                EngineState::Downloading { downloaded: d1, total: t1 },
                EngineState::Downloading { downloaded: d2, total: t2 },
            ) => *d1 == *d2 && match (t1, t2) {
                (Some(a), Some(b)) => *a == *b,
                (None, None) => true,
                _ => false,
            },
            (EngineState::Installing, EngineState::Installing) => true,
            (EngineState::Stopped, EngineState::Stopped) => true,
            (EngineState::Starting, EngineState::Starting) => true,
            (EngineState::Ready, EngineState::Ready) => true,
            (EngineState::Error { message: m1 }, EngineState::Error { message: m2 }) => *m1 == *m2,
            _ => false,
        }
    }
}

impl vstd::std_specs::cmp::PartialEqSpecImpl for EngineState {
    open spec fn obeys_eq_spec() -> bool {
        true
    }

    open spec fn eq_spec(&self, other: &Self) -> bool {
        self@ == other@
    }
}

impl EngineState {
    /// The state as text, with the progress of a download and the message of an
    /// error in brackets.
    pub fn to_string(&self) -> (text: String)
        ensures
            text@ == self@.label(),
    {
        match self {
            EngineState::NotInstalled => "NotInstalled".to_owned(),
            EngineState::Downloading { downloaded, total } => {
                let mut text = labelled("Downloading(", decimal_text(*downloaded).as_str());
                match total {
                    Some(t) => {
                        text.append("/");
                        text.append(decimal_text(*t).as_str());
                        text.append(")");
                    },
                    None => {
                        text.append("/?)");
                    },
                }
                text
            },
            EngineState::Installing => "Installing".to_owned(),
            EngineState::Stopped => "Stopped".to_owned(),
            EngineState::Starting => "Starting".to_owned(),
            EngineState::Ready => "Ready".to_owned(),
            EngineState::Error { message } => {
                let mut text = labelled("Error(", message.as_str());
                text.append(")");
                text
            },
        }
    }
}

/// The state cell that an engine owns.
pub struct SharedState(EngineState);

impl View for SharedState {
    type V = StateView;

    closed spec fn view(&self) -> StateView {
        self.0@
    }
}

impl SharedState {
    /// A cell for an engine of which nothing is known yet.
    pub fn new() -> (cell: Self)
        ensures
            cell@ == StateView::NotInstalled,
    {
        SharedState(EngineState::NotInstalled)
    }

    /// A copy of the current state.
    pub fn get(&self) -> (state: EngineState)
        ensures
            state@ == self@,
    {
        self.0.clone()
    }

    /// Replaces the current state.
    pub fn set(&mut self, s: EngineState)
        ensures
            final(self)@ == s@,
    {
        self.0 = s;
    }
}

/// A state as text says which it is, how far a download has come, and what went wrong.
pub proof fn labels_say_the_state(downloaded: u64, total: u64, message: Seq<char>)
    ensures
        StateView::NotInstalled.label() == "NotInstalled"@,
        (StateView::Downloading { downloaded, total: Some(total) }).label() == "Downloading("@
            + crate::text::decimal(downloaded as nat) + "/"@ + crate::text::decimal(total as nat)
            + ")"@,
        (StateView::Downloading { downloaded, total: None }).label() == "Downloading("@
            + crate::text::decimal(downloaded as nat) + "/?)"@,
        StateView::Installing.label() == "Installing"@,
        StateView::Stopped.label() == "Stopped"@,
        StateView::Starting.label() == "Starting"@,
        StateView::Ready.label() == "Ready"@,
        (StateView::Error { message }).label() == "Error("@ + message + ")"@,
{
}

/// Views of states keep all of them, and so does `==`: two states are the same just where
/// their kind, their progress and their message are.
pub proof fn states_are_viewed_whole(a: EngineState, b: EngineState)
    ensures
        a@ == b@ <==> match (a, b) {
            (EngineState::NotInstalled, EngineState::NotInstalled) => true,
            (
                EngineState::Downloading { downloaded: d1, total: t1 },
                EngineState::Downloading { downloaded: d2, total: t2 },
            ) => d1 == d2 && t1 == t2,
            (EngineState::Installing, EngineState::Installing) => true,
            (EngineState::Stopped, EngineState::Stopped) => true,
            (EngineState::Starting, EngineState::Starting) => true,
            (EngineState::Ready, EngineState::Ready) => true,
            (EngineState::Error { message: m1 }, EngineState::Error { message: m2 }) => m1@ == m2@,
            _ => false,
        },
        a is NotInstalled <==> a@ is NotInstalled,
        a is Installing <==> a@ is Installing,
        a is Stopped <==> a@ is Stopped,
        a is Starting <==> a@ is Starting,
        a is Ready <==> a@ is Ready,
        a matches EngineState::Downloading { downloaded, total } ==> a@
            == (StateView::Downloading { downloaded, total }),
        a matches EngineState::Error { message } ==> a@ == (StateView::Error {
            message: message@,
        }),
{
}

} // verus!

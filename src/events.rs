use vstd::prelude::*;
use crate::command::Command;

verus! {

/// What happened to a window.
#[derive(PartialEq, Eq, Structural, Clone, Copy, Debug)]
pub enum WindowChange {
    New,
    Close,
    Other,
}

/// What happened to a workspace.
#[derive(PartialEq, Eq, Structural, Clone, Copy, Debug)]
pub enum WorkspaceChange {
    /// The workspace became visible for the first time.
    Init,
    Other,
}

/// A lifecycle event from the compositor's event stream.
#[derive(PartialEq, Eq, Structural, Clone, Copy, Debug)]
pub enum WmEvent {
    Window(WindowChange),
    Workspace(WorkspaceChange),
    /// An event of a class that was never subscribed to.
    Unsubscribed,
}

/// How the event loop answers an event.
#[derive(PartialEq, Eq, Structural, Clone, Copy, Debug)]
pub enum Reaction {
    /// Run a layout pass on a fresh snapshot.
    Autolayout,
    /// Send this command, with no look at the tree.
    Run(Command),
    /// Nothing to do.
    Ignore,
    /// The stream broke its subscription: a fatal fault.
    Unexpected,
}

pub open spec fn reaction_of(e: WmEvent) -> Reaction {
    match e {
        WmEvent::Window(WindowChange::New) => Reaction::Autolayout,
        WmEvent::Window(WindowChange::Close) => Reaction::Autolayout,
        WmEvent::Window(WindowChange::Other) => Reaction::Ignore,
        WmEvent::Workspace(WorkspaceChange::Init) => Reaction::Run(Command::GapsHorizontal),
        WmEvent::Workspace(WorkspaceChange::Other) => Reaction::Ignore,
        WmEvent::Unsubscribed => Reaction::Unexpected,
    }
}

/// Decides how to answer an event. A workspace that appears gets the
/// horizontal gap of a lone main column, whatever the tree holds.
pub fn react(e: WmEvent) -> (r: Reaction)
    ensures
        r == reaction_of(e),
        e == WmEvent::Workspace(WorkspaceChange::Init) ==> r == Reaction::Run(Command::GapsHorizontal),
{
    match e {
        WmEvent::Window(WindowChange::New) => Reaction::Autolayout,
        WmEvent::Window(WindowChange::Close) => Reaction::Autolayout,
        WmEvent::Window(WindowChange::Other) => Reaction::Ignore,
        WmEvent::Workspace(WorkspaceChange::Init) => Reaction::Run(Command::GapsHorizontal),
        WmEvent::Workspace(WorkspaceChange::Other) => Reaction::Ignore,
        WmEvent::Unsubscribed => Reaction::Unexpected,
    }
}

} // verus!

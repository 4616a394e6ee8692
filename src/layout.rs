use vstd::prelude::*;
use vstd::string::*;
use crate::command::Command;
use crate::tree::{
    Node,
    NodeKind,
    NodeLayout,
    focused_of,
    focused_parent_of,
    oversized,
    exceeds_full_size,
};

verus! {

/// Why a layout decision could not be made.
#[derive(PartialEq, Eq, Structural, Clone, Copy, Debug)]
pub enum LayoutError {
    /// The snapshot has no focused node.
    NoFocusedNode,
    /// No node of the snapshot has the focused node among its tiling children.
    NoParent,
    /// The workspace listing has no focused workspace.
    NoFocusedWorkspace,
    /// A reply came that the current stage does not wait for.
    OutOfSequence,
}

pub open spec fn error_message(e: LayoutError) -> Seq<char> {
    match e {
        LayoutError::NoFocusedNode => "No focused node"@,
        LayoutError::NoParent => "No parent"@,
        LayoutError::NoFocusedWorkspace => "No focused workspace"@,
        LayoutError::OutOfSequence => "Reply out of sequence"@,
    }
}

impl LayoutError {
    /// A one-line description for the operator.
    pub fn message(&self) -> (r: String)
        ensures
            r@ == error_message(*self),
    {
        match self {
            LayoutError::NoFocusedNode => String::from_str("No focused node"),
            LayoutError::NoParent => String::from_str("No parent"),
            LayoutError::NoFocusedWorkspace => String::from_str("No focused workspace"),
            LayoutError::OutOfSequence => String::from_str("Reply out of sequence"),
        }
    }
}

/// What a snapshot calls for.
#[derive(PartialEq, Eq, Structural, Clone, Copy, Debug)]
pub enum LayoutPlan {
    /// Nothing to do: the focus is not on a tiled window in a split layout.
    Leave,
    /// The focused window is the first of its workspace: widen the gaps and
    /// mark its parent, the workspace with the given id, as the main column.
    MarkMain { parent_id: i64 },
    /// A secondary window: dock it and re-assert the main column's width.
    DockSecondary,
}

/// The focused node is a floating window or takes more than its parent.
pub open spec fn untiled(f: Node) -> bool {
    f.kind == NodeKind::FloatingCon || oversized(f.percent)
}

/// The layout leaves its children to the user (one at a time is shown).
pub open spec fn layered(l: NodeLayout) -> bool {
    l == NodeLayout::Stacked || l == NodeLayout::Tabbed
}

/// The parent of the focused node is not a workspace holding that node alone.
pub open spec fn holds_others(p: Node) -> bool {
    p.kind != NodeKind::Workspace || p.nodes@.len() > 1
}

/// The decision that a snapshot calls for.
pub open spec fn plan_of(t: Node) -> Result<LayoutPlan, LayoutError> {
    match focused_of(t) {
        None => Err(LayoutError::NoFocusedNode),
        Some(f) => if untiled(f) {
            Ok(LayoutPlan::Leave)
        } else {
            match focused_parent_of(t) {
                None => Err(LayoutError::NoParent),
                Some(p) => if layered(p.layout) {
                    Ok(LayoutPlan::Leave)
                } else if holds_others(p) {
                    Ok(LayoutPlan::DockSecondary)
                } else {
                    Ok(LayoutPlan::MarkMain { parent_id: p.id })
                },
            }
        },
    }
}

/// Decides what a snapshot calls for.
pub fn plan_layout(tree: &Node) -> (r: Result<LayoutPlan, LayoutError>)
    ensures
        r == plan_of(*tree),
{
    let focused = match tree.find_focused() {
        Some(f) => f,
        None => return Err(LayoutError::NoFocusedNode),
    };
    if focused.kind == NodeKind::FloatingCon || exceeds_full_size(focused.percent) {
        return Ok(LayoutPlan::Leave);
    }
    let parent = match tree.find_focused_parent() {
        Some(p) => p,
        None => return Err(LayoutError::NoParent),
    };
    if parent.layout == NodeLayout::Stacked || parent.layout == NodeLayout::Tabbed {
        return Ok(LayoutPlan::Leave);
    }
    if parent.kind != NodeKind::Workspace || parent.nodes.len() > 1 {
        return Ok(LayoutPlan::DockSecondary);
    }
    Ok(LayoutPlan::MarkMain { parent_id: parent.id })
}


/// What the layout logic reads of a workspace from the workspace listing.
#[derive(PartialEq, Eq, Structural, Clone, Copy, Debug)]
pub struct WorkspaceInfo {
    pub id: i64,
    pub focused: bool,
}

pub open spec fn is_first_focused(s: Seq<WorkspaceInfo>, i: int) -> bool {
    &&& 0 <= i < s.len()
    &&& s[i].focused
    &&& forall|j: int| 0 <= j < i ==> !s[j].focused
}

/// The first focused workspace of a listing.
pub open spec fn focused_workspace_of(s: Seq<WorkspaceInfo>) -> Option<WorkspaceInfo> {
    if exists|i: int| is_first_focused(s, i) {
        Some(s[choose|i: int| is_first_focused(s, i)])
    } else {
        None
    }
}

/// Finds the first focused workspace of a listing.
pub fn get_focused_workspace(workspaces: &Vec<WorkspaceInfo>) -> (r: Result<WorkspaceInfo, LayoutError>)
    ensures
        match focused_workspace_of(workspaces@) {
            Some(w) => r == Ok::<WorkspaceInfo, LayoutError>(w),
            None => r == Err::<WorkspaceInfo, LayoutError>(LayoutError::NoFocusedWorkspace),
        },
{
    let mut i: usize = 0;
    while i < workspaces.len()
        invariant
            0 <= i <= workspaces@.len(),
            forall|j: int| 0 <= j < i ==> !workspaces@[j].focused,
        decreases workspaces@.len() - i,
    {
        if workspaces[i].focused {
            assert(is_first_focused(workspaces@, i as int));
            let ghost k = choose|k: int| is_first_focused(workspaces@, k);
            assert(k == i as int) by {
                if k > i as int {
                    assert(workspaces@[i as int].focused);
                }
            }
            return Ok(workspaces[i]);
        }
        i += 1;
    }
    assert(!exists|k: int| is_first_focused(workspaces@, k)) by {
        if exists|k: int| is_first_focused(workspaces@, k) {
            let k = choose|k: int| is_first_focused(workspaces@, k);
            assert(!workspaces@[k].focused);
        }
    }
    Err(LayoutError::NoFocusedWorkspace)
}

/// Where one layout pass stands between two requests to the compositor.
#[derive(PartialEq, Eq, Structural, Clone, Copy, Debug)]
pub enum LayoutStage {
    /// Nothing asked yet.
    Start,
    /// Waiting for the tree snapshot.
    AwaitTree,
    /// The horizontal gap was sent; the mark of the given parent follows.
    AwaitGap { parent_id: i64 },
    /// The mark was sent.
    AwaitMark,
    /// The right gap was sent; the workspace listing follows.
    AwaitDockGap,
    /// Waiting for the workspace listing.
    AwaitWorkspaces,
    /// The resize of the main column was sent.
    AwaitResize,
    /// The pass is over.
    Done,
}

/// What the compositor answered to the last request.
#[derive(Debug)]
pub enum LayoutReply {
    /// No request was made yet.
    Started,
    /// A fresh tree snapshot.
    Tree(Node),
    /// The last command was carried out.
    CommandDone,
    /// The workspace listing.
    Workspaces(Vec<WorkspaceInfo>),
}

/// What to do next.
#[derive(PartialEq, Eq, Structural, Clone, Copy, Debug)]
pub enum LayoutAction {
    /// Fetch a tree snapshot and reply with it.
    FetchTree,
    /// Send the command and reply once it is carried out.
    Run(Command),
    /// Fetch the workspace listing and reply with it.
    FetchWorkspaces,
    /// The pass ends successfully.
    Finish,
    /// The pass ends with this error.
    Fail(LayoutError),
}

/// One step of a layout pass: the stage that follows and the action to take.
pub open spec fn next_step(stage: LayoutStage, reply: LayoutReply) -> (LayoutStage, LayoutAction) {
    match (stage, reply) {
        (LayoutStage::Start, LayoutReply::Started) => (LayoutStage::AwaitTree, LayoutAction::FetchTree),
        (LayoutStage::AwaitTree, LayoutReply::Tree(t)) => match plan_of(t) {
            Err(e) => (LayoutStage::Done, LayoutAction::Fail(e)),
            Ok(LayoutPlan::Leave) => (LayoutStage::Done, LayoutAction::Finish),
            Ok(LayoutPlan::MarkMain { parent_id }) => (
                LayoutStage::AwaitGap { parent_id },
                LayoutAction::Run(Command::GapsHorizontal),
            ),
            Ok(LayoutPlan::DockSecondary) => (
                LayoutStage::AwaitDockGap,
                LayoutAction::Run(Command::GapsRightZero),
            ),
        },
        (LayoutStage::AwaitGap { parent_id }, LayoutReply::CommandDone) => (
            LayoutStage::AwaitMark,
            LayoutAction::Run(Command::MarkMain(parent_id)),
        ),
        (LayoutStage::AwaitMark, LayoutReply::CommandDone) => (LayoutStage::Done, LayoutAction::Finish),
        (LayoutStage::AwaitDockGap, LayoutReply::CommandDone) => (
            LayoutStage::AwaitWorkspaces,
            LayoutAction::FetchWorkspaces,
        ),
        (LayoutStage::AwaitWorkspaces, LayoutReply::Workspaces(ws)) => match focused_workspace_of(ws@) {
            Some(w) => (LayoutStage::AwaitResize, LayoutAction::Run(Command::ResizeMain(w.id))),
            None => (LayoutStage::Done, LayoutAction::Fail(LayoutError::NoFocusedWorkspace)),
        },
        (LayoutStage::AwaitResize, LayoutReply::CommandDone) => (LayoutStage::Done, LayoutAction::Finish),
        _ => (LayoutStage::Done, LayoutAction::Fail(LayoutError::OutOfSequence)),
    }
}

/// Takes one step of a layout pass.
pub fn advance(stage: LayoutStage, reply: LayoutReply) -> (r: (LayoutStage, LayoutAction))
    ensures
        r == next_step(stage, reply),
{
    match (stage, reply) {
        (LayoutStage::Start, LayoutReply::Started) => (LayoutStage::AwaitTree, LayoutAction::FetchTree),
        (LayoutStage::AwaitTree, LayoutReply::Tree(t)) => match plan_layout(&t) {
            Err(e) => (LayoutStage::Done, LayoutAction::Fail(e)),
            Ok(LayoutPlan::Leave) => (LayoutStage::Done, LayoutAction::Finish),
            Ok(LayoutPlan::MarkMain { parent_id }) => (
                LayoutStage::AwaitGap { parent_id },
                LayoutAction::Run(Command::GapsHorizontal),
            ),
            Ok(LayoutPlan::DockSecondary) => (
                LayoutStage::AwaitDockGap,
                LayoutAction::Run(Command::GapsRightZero),
            ),
        },
        (LayoutStage::AwaitGap { parent_id }, LayoutReply::CommandDone) => (
            LayoutStage::AwaitMark,
            LayoutAction::Run(Command::MarkMain(parent_id)),
        ),
        (LayoutStage::AwaitMark, LayoutReply::CommandDone) => (LayoutStage::Done, LayoutAction::Finish),
        (LayoutStage::AwaitDockGap, LayoutReply::CommandDone) => (
            LayoutStage::AwaitWorkspaces,
            LayoutAction::FetchWorkspaces,
        ),
        (LayoutStage::AwaitWorkspaces, LayoutReply::Workspaces(ws)) => match get_focused_workspace(&ws) {
            Ok(w) => (LayoutStage::AwaitResize, LayoutAction::Run(Command::ResizeMain(w.id))),
            Err(e) => (LayoutStage::Done, LayoutAction::Fail(e)),
        },
        (LayoutStage::AwaitResize, LayoutReply::CommandDone) => (LayoutStage::Done, LayoutAction::Finish),
        _ => (LayoutStage::Done, LayoutAction::Fail(LayoutError::OutOfSequence)),
    }
}


/// The commands that a layout pass sends from `stage` on, with `reply` in
/// hand, when the compositor answers every tree request with `t`, every
/// listing request with `ws`, and carries out every command; and the outcome
/// of the pass, if it ends within `fuel` steps.
pub open spec fn drive(
    stage: LayoutStage,
    reply: LayoutReply,
    t: Node,
    ws: Vec<WorkspaceInfo>,
    fuel: nat,
) -> (Seq<Command>, Option<Result<(), LayoutError>>)
    decreases fuel,
{
    if fuel == 0 {
        (Seq::empty(), None)
    } else {
        let (next, action) = next_step(stage, reply);
        match action {
            LayoutAction::FetchTree => drive(next, LayoutReply::Tree(t), t, ws, (fuel - 1) as nat),
            LayoutAction::Run(c) => {
                let (rest, outcome) = drive(next, LayoutReply::CommandDone, t, ws, (fuel - 1) as nat);
                (seq![c] + rest, outcome)
            },
            LayoutAction::FetchWorkspaces => drive(
                next,
                LayoutReply::Workspaces(ws),
                t,
                ws,
                (fuel - 1) as nat,
            ),
            LayoutAction::Finish => (Seq::empty(), Some(Ok(()))),
            LayoutAction::Fail(e) => (Seq::empty(), Some(Err(e))),
        }
    }
}

/// A whole layout pass on snapshot `t` and listing `ws`: the commands it
/// sends, in order, and how it ends. Every pass ends within six steps.
pub open spec fn layout_pass(t: Node, ws: Vec<WorkspaceInfo>) -> (Seq<Command>, Option<Result<(), LayoutError>>) {
    drive(LayoutStage::Start, LayoutReply::Started, t, ws, 6)
}

/// Every layout pass ends, with a success or an error, within six steps.
pub proof fn every_pass_ends(t: Node, ws: Vec<WorkspaceInfo>)
    ensures
        layout_pass(t, ws).1 is Some,
{
    reveal_with_fuel(drive, 6);
}

/// When the focused node is a floating window or takes more than its
/// parent, a layout pass sends no command and succeeds.
pub proof fn untiled_focus_sends_nothing(t: Node, ws: Vec<WorkspaceInfo>)
    requires
        focused_of(t) is Some,
        untiled(focused_of(t)->0),
    ensures
        layout_pass(t, ws) == (Seq::<Command>::empty(), Some(Ok::<(), LayoutError>(()))),
{
    reveal_with_fuel(drive, 3);
}

/// When the parent of the focused node is stacked or tabbed, a layout pass
/// sends no command.
pub proof fn layered_parent_sends_nothing(t: Node, ws: Vec<WorkspaceInfo>)
    requires
        focused_parent_of(t) is Some,
        layered((focused_parent_of(t)->0).layout),
    ensures
        layout_pass(t, ws).0 == Seq::<Command>::empty(),
{
    reveal_with_fuel(drive, 3);
}

/// When the focused window is the only child of its workspace and the
/// workspace is split, a layout pass sets the horizontal gap and then marks
/// the workspace as the main column, and succeeds.
pub proof fn first_window_marks_main(t: Node, ws: Vec<WorkspaceInfo>)
    requires
        focused_of(t) is Some,
        !untiled(focused_of(t)->0),
        focused_parent_of(t) is Some,
        (focused_parent_of(t)->0).kind == NodeKind::Workspace,
        (focused_parent_of(t)->0).nodes@.len() == 1,
        (focused_parent_of(t)->0).layout == NodeLayout::SplitH
            || (focused_parent_of(t)->0).layout == NodeLayout::SplitV,
    ensures
        layout_pass(t, ws) == (
            seq![Command::GapsHorizontal, Command::MarkMain((focused_parent_of(t)->0).id)],
            Some(Ok::<(), LayoutError>(())),
        ),
{
    reveal_with_fuel(drive, 5);
    let p = focused_parent_of(t)->0;
    assert(plan_of(t) == Ok::<LayoutPlan, LayoutError>(LayoutPlan::MarkMain { parent_id: p.id }));
    assert(layout_pass(t, ws).0 =~= seq![Command::GapsHorizontal, Command::MarkMain(p.id)]);
}

/// When the parent of the focused window is split and is not a workspace
/// holding that window alone, a layout pass clears the right gap and then
/// resizes the main column of the focused workspace of the listing, and
/// succeeds.
pub proof fn secondary_window_resizes_main(t: Node, ws: Vec<WorkspaceInfo>)
    requires
        focused_of(t) is Some,
        !untiled(focused_of(t)->0),
        focused_parent_of(t) is Some,
        holds_others(focused_parent_of(t)->0),
        (focused_parent_of(t)->0).layout == NodeLayout::SplitH
            || (focused_parent_of(t)->0).layout == NodeLayout::SplitV,
        focused_workspace_of(ws@) is Some,
    ensures
        layout_pass(t, ws) == (
            seq![Command::GapsRightZero, Command::ResizeMain((focused_workspace_of(ws@)->0).id)],
            Some(Ok::<(), LayoutError>(())),
        ),
{
    reveal_with_fuel(drive, 6);
    let w = focused_workspace_of(ws@)->0;
    assert(plan_of(t) == Ok::<LayoutPlan, LayoutError>(LayoutPlan::DockSecondary));
    assert(layout_pass(t, ws).0 =~= seq![Command::GapsRightZero, Command::ResizeMain(w.id)]);
}

/// Two layout passes on the same snapshot and the same listing send the same
/// commands and end alike.
pub proof fn same_snapshot_same_pass(t1: Node, t2: Node, ws1: Vec<WorkspaceInfo>, ws2: Vec<WorkspaceInfo>)
    requires
        t1 == t2,
        ws1@ == ws2@,
    ensures
        layout_pass(t1, ws1) == layout_pass(t2, ws2),
{
    reveal_with_fuel(drive, 6);
}

} // verus!

use vstd::prelude::*;

verus! {

/// What a node of the window tree is.
#[derive(PartialEq, Eq, Structural, Clone, Copy, Debug)]
pub enum NodeKind {
    Root,
    Output,
    Workspace,
    Con,
    FloatingCon,
    Dockarea,
    /// A kind that this library does not know.
    Other,
}

/// How a node arranges its tiling children.
#[derive(PartialEq, Eq, Structural, Clone, Copy, Debug)]
pub enum NodeLayout {
    SplitH,
    SplitV,
    Stacked,
    Tabbed,
    Output,
    Dockarea,
    /// No layout, as for a window.
    Unset,
    /// A layout that this library does not know.
    Other,
}

/// One node of a point-in-time snapshot of the compositor's window tree.
///
/// `percent` is the share of its parent that the node takes, held as the bit
/// pattern of an IEEE 754 binary64 number (absent for the root and other
/// special nodes). `focus` lists the ids of the children in focus order.
#[derive(Debug)]
pub struct Node {
    pub id: i64,
    pub kind: NodeKind,
    pub layout: NodeLayout,
    pub focused: bool,
    pub percent: Option<u64>,
    pub focus: Vec<i64>,
    pub nodes: Vec<Node>,
    pub floating_nodes: Vec<Node>,
}

/// Bit pattern of the binary64 number 1.0.
pub const ONE_BITS: u64 = 0x3FF0_0000_0000_0000;

/// Bit pattern of binary64 positive infinity.
pub const INFINITY_BITS: u64 = 0x7FF0_0000_0000_0000;

/// A binary64 bit pattern denotes a number greater than 1.0: its sign bit is
/// clear (so the order of patterns is the order of numbers), it lies above
/// 1.0, and it is not a NaN (those lie above infinity).
pub open spec fn bits_exceed_one(bits: u64) -> bool {
    ONE_BITS < bits <= INFINITY_BITS
}

/// The node's share of its parent exceeds the whole; an absent share counts
/// as exactly the whole.
pub open spec fn oversized(percent: Option<u64>) -> bool {
    match percent {
        Some(bits) => bits_exceed_one(bits),
        None => false,
    }
}

/// Tells whether a share, as described at [`oversized`], exceeds the whole.
pub fn exceeds_full_size(percent: Option<u64>) -> (r: bool)
    ensures
        r == oversized(percent),
{
    match percent {
        Some(bits) => ONE_BITS < bits && bits <= INFINITY_BITS,
        None => false,
    }
}

/// The first position in `s` of a node with the given id.
pub open spec fn position_of(s: Seq<Node>, id: i64) -> Option<int> {
    if exists|i: int| is_first_with_id(s, id, i) {
        Some(choose|i: int| is_first_with_id(s, id, i))
    } else {
        None
    }
}

pub open spec fn is_first_with_id(s: Seq<Node>, id: i64, i: int) -> bool {
    &&& 0 <= i < s.len()
    &&& s[i].id == id
    &&& forall|j: int| 0 <= j < i ==> s[j].id != id
}

/// What a walk down the focus path looks for.
#[derive(PartialEq, Eq, Structural, Clone, Copy, Debug)]
pub enum Probe {
    /// The node that holds the focus flag.
    Focused,
    /// A node one of whose tiling children holds the focus flag.
    FocusedParent,
}

pub open spec fn has_focused_child(n: Node) -> bool {
    exists|i: int| 0 <= i < n.nodes@.len() && #[trigger] n.nodes@[i].focused
}

pub open spec fn probe_holds(n: Node, probe: Probe) -> bool {
    match probe {
        Probe::Focused => n.focused,
        Probe::FocusedParent => has_focused_child(n),
    }
}

/// The first node on the focus path from `n` that the probe accepts: `n`
/// itself, else the same search from the child named first in `n.focus`,
/// looked up among the tiling children and then among the floating ones.
pub open spec fn walk_focus(n: Node, probe: Probe) -> Option<Node>
    decreases n,
{
    if probe_holds(n, probe) {
        Some(n)
    } else if n.focus@.len() == 0 {
        None
    } else {
        match position_of(n.nodes@, n.focus@[0]) {
            Some(i) => if 0 <= i < n.nodes@.len() {
                walk_focus(n.nodes@[i], probe)
            } else {
                None
            },
            None => match position_of(n.floating_nodes@, n.focus@[0]) {
                Some(i) => if 0 <= i < n.floating_nodes@.len() {
                    walk_focus(n.floating_nodes@[i], probe)
                } else {
                    None
                },
                None => None,
            },
        }
    }
}

/// The focused node of a snapshot.
pub open spec fn focused_of(t: Node) -> Option<Node> {
    walk_focus(t, Probe::Focused)
}

/// The node whose tiling children include the focused one.
pub open spec fn focused_parent_of(t: Node) -> Option<Node> {
    walk_focus(t, Probe::FocusedParent)
}


/// The first position in `v` of a node with the given id.
fn find_position(v: &Vec<Node>, id: i64) -> (r: Option<usize>)
    ensures
        match r {
            Some(i) => position_of(v@, id) == Some(i as int),
            None => position_of(v@, id) is None,
        },
{
    let mut i: usize = 0;
    while i < v.len()
        invariant
            0 <= i <= v@.len(),
            forall|j: int| 0 <= j < i ==> v@[j].id != id,
        decreases v@.len() - i,
    {
        if v[i].id == id {
            assert(is_first_with_id(v@, id, i as int));
            let ghost k = choose|k: int| is_first_with_id(v@, id, k);
            assert(k == i as int) by {
                if k < i as int {
                } else if k > i as int {
                    assert(v@[i as int].id == id);
                }
            }
            return Some(i);
        }
        i += 1;
    }
    assert(!exists|k: int| is_first_with_id(v@, id, k)) by {
        if exists|k: int| is_first_with_id(v@, id, k) {
            let k = choose|k: int| is_first_with_id(v@, id, k);
            assert(v@[k].id != id);
        }
    }
    None
}

/// Tells whether one of the node's tiling children holds the focus flag.
fn any_child_focused(n: &Node) -> (r: bool)
    ensures
        r == has_focused_child(*n),
{
    let mut i: usize = 0;
    while i < n.nodes.len()
        invariant
            0 <= i <= n.nodes@.len(),
            forall|j: int| 0 <= j < i ==> !(#[trigger] n.nodes@[j]).focused,
        decreases n.nodes@.len() - i,
    {
        if n.nodes[i].focused {
            return true;
        }
        i += 1;
    }
    false
}

impl Node {
    /// The node that the walk of [`walk_focus`] finds.
    pub fn find_focused_as_ref(&self, probe: Probe) -> (r: Option<&Node>)
        ensures
            match r {
                Some(n) => walk_focus(*self, probe) == Some(*n),
                None => walk_focus(*self, probe) is None,
            },
        decreases *self,
    {
        let holds = match probe {
            Probe::Focused => self.focused,
            Probe::FocusedParent => any_child_focused(self),
        };
        if holds {
            return Some(self);
        }
        if self.focus.len() == 0 {
            return None;
        }
        let first = self.focus[0];
        match find_position(&self.nodes, first) {
            Some(i) => {
                return self.nodes[i].find_focused_as_ref(probe);
            },
            None => {},
        }
        match find_position(&self.floating_nodes, first) {
            Some(i) => self.floating_nodes[i].find_focused_as_ref(probe),
            None => None,
        }
    }

    /// The focused node of this snapshot, found along the focus path.
    pub fn find_focused(&self) -> (r: Option<&Node>)
        ensures
            match r {
                Some(n) => focused_of(*self) == Some(*n),
                None => focused_of(*self) is None,
            },
    {
        self.find_focused_as_ref(Probe::Focused)
    }

    /// The node whose tiling children include the focused node.
    pub fn find_focused_parent(&self) -> (r: Option<&Node>)
        ensures
            match r {
                Some(n) => focused_parent_of(*self) == Some(*n),
                None => focused_parent_of(*self) is None,
            },
    {
        self.find_focused_as_ref(Probe::FocusedParent)
    }
}

} // verus!

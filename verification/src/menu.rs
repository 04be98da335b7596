//! MenuController's configuration tree: a fixed arena of ten-way nodes
//! navigated by a single cursor. The tree takes its shape once at startup
//! and never grows afterwards; navigation walks `active_item` links from the
//! root to the one node whose `active` flag is set and mutates only that
//! neighbourhood. Children sit at larger arena indices than their parent,
//! which bounds every walk.

use vstd::prelude::*;

verus! {

use vstd::array::spec_array_update;

/// Every node owns this many child slots.
pub const MENU_FANOUT: usize = 10;

/// One arena slot: which children exist (as arena indices), which child the
/// cursor would descend into, whether the cursor rests here, and — for
/// endpoints — the value being edited. `display()` hands `active_item` and
/// `value` to whatever renders the menu.
#[derive(Clone, Copy, Debug)]
pub struct MenuNode {
    pub children: [Option<usize>; 10],
    pub active_item: Option<usize>,
    pub active: bool,
    pub id: usize,
    pub endpoint: bool,
    pub value: Option<usize>,
}

/// Node `i` is sound: its descent index names a child slot and every child
/// sits strictly deeper in the arena.
pub open spec fn spec_node_wf(nodes: Seq<MenuNode>, i: int) -> bool {
    &&& (nodes[i].active_item matches Some(ai) ==> ai < MENU_FANOUT)
    &&& forall|j: int|
        0 <= j < MENU_FANOUT ==> (#[trigger] nodes[i].children[j] matches Some(c) ==> i < c
            < nodes.len())
}

/// The arena is sound: a root exists and every node is sound.
pub open spec fn spec_nodes_wf(nodes: Seq<MenuNode>) -> bool {
    &&& nodes.len() >= 1
    &&& forall|i: int| 0 <= i < nodes.len() ==> #[trigger] spec_node_wf(nodes, i)
}

/// At most one node in the arena carries the cursor.
pub open spec fn spec_at_most_one_active(nodes: Seq<MenuNode>) -> bool {
    forall|i: int, j: int|
        0 <= i < nodes.len() && 0 <= j < nodes.len() && #[trigger] nodes[i].active
            && #[trigger] nodes[j].active ==> i == j
}

/// `n` with another edited value.
pub open spec fn spec_node_with_value(n: MenuNode, v: Option<usize>) -> MenuNode {
    MenuNode {
        children: n.children,
        active_item: n.active_item,
        active: n.active,
        id: n.id,
        endpoint: n.endpoint,
        value: v,
    }
}

/// `n` with another descent index.
pub open spec fn spec_node_with_active_item(n: MenuNode, ai: Option<usize>) -> MenuNode {
    MenuNode {
        children: n.children,
        active_item: ai,
        active: n.active,
        id: n.id,
        endpoint: n.endpoint,
        value: n.value,
    }
}

/// `n` with the cursor flag set or cleared.
pub open spec fn spec_node_with_active(n: MenuNode, active: bool) -> MenuNode {
    MenuNode {
        children: n.children,
        active_item: n.active_item,
        active,
        id: n.id,
        endpoint: n.endpoint,
        value: n.value,
    }
}

/// Where `next` and `previous` act: follow `active_item` links from `cur`
/// until the node that carries the cursor. A node without a descent index,
/// a missing child, or an unsound link ends the walk with no target.
pub open spec fn spec_walk_target(nodes: Seq<MenuNode>, cur: int) -> Option<int>
    decreases nodes.len() - cur,
{
    if !(0 <= cur < nodes.len()) {
        None
    } else {
        match nodes[cur].active_item {
            None => None,
            Some(ai) => {
                if nodes[cur].active {
                    Some(cur)
                } else if ai < MENU_FANOUT {
                    match nodes[cur].children[ai as int] {
                        None => None,
                        Some(c) => {
                            if cur < c < nodes.len() {
                                spec_walk_target(nodes, c as int)
                            } else {
                                None
                            }
                        },
                    }
                } else {
                    None
                }
            },
        }
    }
}

/// What `next` does to the node it acts on: an endpoint counts its value up
/// (stopping at the largest representable value), an inner node advances
/// its descent index one slot, wrapping past the last.
pub open spec fn spec_next_node(n: MenuNode) -> MenuNode {
    match n.active_item {
        None => n,
        Some(ai) => {
            if n.endpoint {
                match n.value {
                    None => n,
                    Some(v) => spec_node_with_value(
                        n,
                        Some((if v < usize::MAX { v + 1 } else { v as int }) as usize),
                    ),
                }
            } else {
                spec_node_with_active_item(n, Some(((ai + 1) % (MENU_FANOUT as int)) as usize))
            }
        },
    }
}

/// What `previous` does to the node it acts on: an endpoint counts its
/// value down (stopping at zero), an inner node retreats its descent index
/// one slot, wrapping past the first.
pub open spec fn spec_previous_node(n: MenuNode) -> MenuNode {
    match n.active_item {
        None => n,
        Some(ai) => {
            if n.endpoint {
                match n.value {
                    None => n,
                    Some(v) => spec_node_with_value(
                        n,
                        Some((if v > 0 { v - 1 } else { 0int }) as usize),
                    ),
                }
            } else {
                spec_node_with_active_item(
                    n,
                    Some(((ai + MENU_FANOUT - 1) % (MENU_FANOUT as int)) as usize),
                )
            }
        },
    }
}

/// Where `step_in` acts: follow descent links while a child exists; the
/// first visited node that carries the cursor hands it down to its child.
pub open spec fn spec_step_in_target(nodes: Seq<MenuNode>, cur: int) -> Option<int>
    decreases nodes.len() - cur,
{
    if !(0 <= cur < nodes.len()) {
        None
    } else {
        match nodes[cur].active_item {
            None => None,
            Some(ai) => {
                if ai < MENU_FANOUT {
                    match nodes[cur].children[ai as int] {
                        None => None,
                        Some(c) => {
                            if !(cur < c < nodes.len()) {
                                None
                            } else if nodes[cur].active {
                                Some(cur)
                            } else {
                                spec_step_in_target(nodes, c as int)
                            }
                        },
                    }
                } else {
                    None
                }
            },
        }
    }
}

/// Where `step_out` acts: follow descent links while a child exists; the
/// first visited node whose designated child carries the cursor reclaims
/// it from that child.
pub open spec fn spec_step_out_target(nodes: Seq<MenuNode>, cur: int) -> Option<int>
    decreases nodes.len() - cur,
{
    if !(0 <= cur < nodes.len()) {
        None
    } else {
        match nodes[cur].active_item {
            None => None,
            Some(ai) => {
                if ai < MENU_FANOUT {
                    match nodes[cur].children[ai as int] {
                        None => None,
                        Some(c) => {
                            if !(cur < c < nodes.len()) {
                                None
                            } else if nodes[c as int].active {
                                Some(cur)
                            } else {
                                spec_step_out_target(nodes, c as int)
                            }
                        },
                    }
                } else {
                    None
                }
            },
        }
    }
}

/// Where `rec_display` reads: the first node on the descent path that
/// carries the cursor, the cursor check coming before the link check.
pub open spec fn spec_display_target(nodes: Seq<MenuNode>, cur: int) -> Option<int>
    decreases nodes.len() - cur,
{
    if !(0 <= cur < nodes.len()) {
        None
    } else if nodes[cur].active {
        Some(cur)
    } else {
        match nodes[cur].active_item {
            None => None,
            Some(ai) => {
                if ai < MENU_FANOUT {
                    match nodes[cur].children[ai as int] {
                        None => None,
                        Some(c) => {
                            if cur < c < nodes.len() {
                                spec_display_target(nodes, c as int)
                            } else {
                                None
                            }
                        },
                    }
                } else {
                    None
                }
            },
        }
    }
}

/// The menu tree: an arena of nodes whose slot 0 is the root.
pub struct NixieMenu {
    nodes: Vec<MenuNode>,
}

impl NixieMenu {
    /// The arena, root first.
    pub closed spec fn nodes_seq(&self) -> Seq<MenuNode> {
        self.nodes@
    }

    /// The arena is sound.
    pub open spec fn wf(&self) -> bool {
        spec_nodes_wf(self.nodes_seq())
    }

    /// A tree of one root node, cursor nowhere, no descent index.
    pub fn new(endpoint: bool, value: Option<usize>, id: usize) -> (r: Self)
        ensures
            r.wf(),
            r.nodes_seq().len() == 1,
            r.nodes_seq()[0].active_item is None,
            !r.nodes_seq()[0].active,
            r.nodes_seq()[0].endpoint == endpoint,
            r.nodes_seq()[0].value == value,
            r.nodes_seq()[0].id == id,
            forall|j: int| 0 <= j < MENU_FANOUT ==> r.nodes_seq()[0].children[j] is None,
            spec_at_most_one_active(r.nodes_seq()),
    {
        let root = MenuNode {
            children: [None; 10],
            active_item: None,
            active: false,
            id,
            endpoint,
            value,
        };
        let mut nodes: Vec<MenuNode> = Vec::new();
        nodes.push(root);
        NixieMenu { nodes }
    }

    /// How many nodes the arena holds.
    pub fn len(&self) -> (r: usize)
        ensures
            r == self.nodes_seq().len(),
    {
        self.nodes.len()
    }

    /// A copy of the node at `index`, for inspection.
    pub fn node(&self, index: usize) -> (r: MenuNode)
        requires
            index < self.nodes_seq().len(),
        ensures
            r == self.nodes_seq()[index as int],
    {
        self.nodes[index]
    }

    /// Grow the fixed shape at startup: put a fresh node into child slot
    /// `slot` of node `parent` and return its arena index. Fails when the
    /// parent does not exist, the slot is out of range, or the slot is
    /// taken.
    pub fn add_child(
        &mut self,
        parent: usize,
        slot: usize,
        endpoint: bool,
        value: Option<usize>,
        id: usize,
    ) -> (r: Result<usize, ()>)
        requires
            old(self).wf(),
        ensures
            final(self).wf(),
            (r is Ok <==> parent < old(self).nodes_seq().len() && slot < MENU_FANOUT && old(
                self,
            ).nodes_seq()[parent as int].children[slot as int] is None),
            r is Err ==> *final(self) == *old(self),
            r matches Ok(idx) ==> {
                &&& idx == old(self).nodes_seq().len()
                &&& final(self).nodes_seq().len() == old(self).nodes_seq().len() + 1
                &&& final(self).nodes_seq()[idx as int] == (MenuNode {
                    children: final(self).nodes_seq()[idx as int].children,
                    active_item: None,
                    active: false,
                    id,
                    endpoint,
                    value,
                })
                &&& (forall|j: int|
                    0 <= j < MENU_FANOUT ==> final(self).nodes_seq()[idx as int].children[j]
                        is None)
                &&& final(self).nodes_seq()[parent as int] == spec_node_with_children_slot(
                    old(self).nodes_seq()[parent as int],
                    slot as int,
                    Some(idx as usize),
                )
                &&& (forall|i: int|
                    0 <= i < old(self).nodes_seq().len() && i != parent
                        ==> final(self).nodes_seq()[i] == old(self).nodes_seq()[i])
            },
            spec_at_most_one_active(old(self).nodes_seq()) ==> spec_at_most_one_active(
                final(self).nodes_seq(),
            ),
    {
        if parent >= self.nodes.len() || slot >= MENU_FANOUT {
            return Err(());
        }
        let pnode = self.nodes[parent];
        if pnode.children[slot].is_some() {
            return Err(());
        }
        let idx = self.nodes.len();
        let child = MenuNode {
            children: [None; 10],
            active_item: None,
            active: false,
            id,
            endpoint,
            value,
        };
        self.nodes.push(child);
        let mut p2 = pnode;
        p2.children[slot] = Some(idx);
        self.nodes.set(parent, p2);
        proof {
            let oldn = old(self).nodes_seq();
            let newn = self.nodes_seq();
            assert(newn[parent as int] == spec_node_with_children_slot(
                oldn[parent as int],
                slot as int,
                Some(idx),
            ));
            assert forall|i: int| 0 <= i < newn.len() implies spec_node_wf(newn, i) by {
                assert(spec_node_wf(oldn, parent as int));
                if i < oldn.len() && i != parent {
                    assert(spec_node_wf(oldn, i));
                }
            }
        }
        Ok(idx)
    }

    /// Put the cursor on node `index` or take it away. Fails when the node
    /// does not exist. Establishing a tree with one cursor is the caller's
    /// business; this setter exists for the startup wiring.
    pub fn set_active(&mut self, index: usize, active: bool) -> (r: Result<(), ()>)
        requires
            old(self).wf(),
        ensures
            final(self).wf(),
            (r is Ok <==> index < old(self).nodes_seq().len()),
            r is Err ==> *final(self) == *old(self),
            r is Ok ==> final(self).nodes_seq() == old(self).nodes_seq().update(
                index as int,
                spec_node_with_active(old(self).nodes_seq()[index as int], active),
            ),
    {
        if index >= self.nodes.len() {
            return Err(());
        }
        let mut n = self.nodes[index];
        n.active = active;
        self.nodes.set(index, n);
        proof {
            assert(spec_node_wf(old(self).nodes_seq(), index as int));
            lemma_update_keeps_wf(
                old(self).nodes_seq(),
                index as int,
                spec_node_with_active(old(self).nodes_seq()[index as int], active),
            );
        }
        Ok(())
    }

    /// Point node `index`'s descent at child slot `item`. Fails when the
    /// node does not exist or the slot is out of range.
    pub fn set_active_item(&mut self, index: usize, item: Option<usize>) -> (r: Result<(), ()>)
        requires
            old(self).wf(),
        ensures
            final(self).wf(),
            (r is Ok <==> index < old(self).nodes_seq().len() && (item matches Some(ai) ==> ai
                < MENU_FANOUT)),
            r is Err ==> *final(self) == *old(self),
            r is Ok ==> final(self).nodes_seq() == old(self).nodes_seq().update(
                index as int,
                spec_node_with_active_item(old(self).nodes_seq()[index as int], item),
            ),
            spec_at_most_one_active(old(self).nodes_seq()) ==> spec_at_most_one_active(
                final(self).nodes_seq(),
            ),
    {
        if index >= self.nodes.len() {
            return Err(());
        }
        if let Some(ai) = item {
            if ai >= MENU_FANOUT {
                return Err(());
            }
        }
        let mut n = self.nodes[index];
        n.active_item = item;
        self.nodes.set(index, n);
        proof {
            lemma_update_keeps_wf(
                old(self).nodes_seq(),
                index as int,
                spec_node_with_active_item(old(self).nodes_seq()[index as int], item),
            );
        }
        Ok(())
    }
}

impl NixieMenu {
    /// Advance at the cursor: an endpoint's value counts up (stopping at
    /// the largest representable value), an inner node's descent index
    /// wraps forward one slot. Without a reachable cursor nothing changes,
    /// and no cursor flag moves either way.
    pub fn next(&mut self)
        requires
            old(self).wf(),
        ensures
            final(self).wf(),
            match spec_walk_target(old(self).nodes_seq(), 0) {
                None => final(self).nodes_seq() == old(self).nodes_seq(),
                Some(t) => final(self).nodes_seq() == old(self).nodes_seq().update(
                    t,
                    spec_next_node(old(self).nodes_seq()[t]),
                ),
            },
            spec_at_most_one_active(old(self).nodes_seq()) ==> spec_at_most_one_active(
                final(self).nodes_seq(),
            ),
    {
        let ghost orig = self.nodes@;
        let mut cur: usize = 0;
        loop
            invariant
                orig == old(self).nodes_seq(),
                self.nodes@ == orig,
                spec_nodes_wf(orig),
                cur < orig.len(),
                spec_walk_target(orig, 0) == spec_walk_target(orig, cur as int),
            decreases orig.len() - cur,
        {
            let node = self.nodes[cur];
            proof {
                assert(spec_node_wf(orig, cur as int));
            }
            match node.active_item {
                None => {
                    proof {
                        assert(spec_walk_target(orig, cur as int) is None);
                    }
                    return;
                },
                Some(ai) => {
                    if node.active {
                        proof {
                            assert(spec_walk_target(orig, cur as int) == Some(cur as int));
                        }
                        let mut n = node;
                        if n.endpoint {
                            if let Some(v) = n.value {
                                n.value = Some(if v < usize::MAX { v + 1 } else { v });
                            }
                        } else {
                            n.active_item = Some((ai + 1) % MENU_FANOUT);
                        }
                        self.nodes.set(cur, n);
                        proof {
                            assert(n == spec_next_node(orig[cur as int]));
                            lemma_update_keeps_wf(orig, cur as int, n);
                            assert forall|i: int| 0 <= i < orig.len() implies self.nodes@[i].active
                                == orig[i].active by {}
                        }
                        return;
                    } else {
                        match node.children[ai] {
                            None => {
                                proof {
                                    assert(spec_walk_target(orig, cur as int) is None);
                                }
                                return;
                            },
                            Some(c) => {
                                proof {
                                    assert(orig[cur as int].children[ai as int] == Some(c));
                                    assert(cur < c < orig.len());
                                    assert(spec_walk_target(orig, cur as int)
                                        == spec_walk_target(orig, c as int));
                                }
                                cur = c;
                            },
                        }
                    }
                },
            }
        }
    }

    /// Retreat at the cursor: an endpoint's value counts down (stopping at
    /// zero), an inner node's descent index wraps back one slot. Without a
    /// reachable cursor nothing changes, and no cursor flag moves either
    /// way.
    pub fn previous(&mut self)
        requires
            old(self).wf(),
        ensures
            final(self).wf(),
            match spec_walk_target(old(self).nodes_seq(), 0) {
                None => final(self).nodes_seq() == old(self).nodes_seq(),
                Some(t) => final(self).nodes_seq() == old(self).nodes_seq().update(
                    t,
                    spec_previous_node(old(self).nodes_seq()[t]),
                ),
            },
            spec_at_most_one_active(old(self).nodes_seq()) ==> spec_at_most_one_active(
                final(self).nodes_seq(),
            ),
    {
        let ghost orig = self.nodes@;
        let mut cur: usize = 0;
        loop
            invariant
                orig == old(self).nodes_seq(),
                self.nodes@ == orig,
                spec_nodes_wf(orig),
                cur < orig.len(),
                spec_walk_target(orig, 0) == spec_walk_target(orig, cur as int),
            decreases orig.len() - cur,
        {
            let node = self.nodes[cur];
            proof {
                assert(spec_node_wf(orig, cur as int));
            }
            match node.active_item {
                None => {
                    proof {
                        assert(spec_walk_target(orig, cur as int) is None);
                    }
                    return;
                },
                Some(ai) => {
                    if node.active {
                        proof {
                            assert(spec_walk_target(orig, cur as int) == Some(cur as int));
                        }
                        let mut n = node;
                        if n.endpoint {
                            if let Some(v) = n.value {
                                n.value = Some(if v > 0 { v - 1 } else { 0 });
                            }
                        } else {
                            n.active_item = Some((ai + MENU_FANOUT - 1) % MENU_FANOUT);
                        }
                        self.nodes.set(cur, n);
                        proof {
                            assert(n == spec_previous_node(orig[cur as int]));
                            lemma_update_keeps_wf(orig, cur as int, n);
                            assert forall|i: int| 0 <= i < orig.len() implies self.nodes@[i].active
                                == orig[i].active by {}
                        }
                        return;
                    } else {
                        match node.children[ai] {
                            None => {
                                proof {
                                    assert(spec_walk_target(orig, cur as int) is None);
                                }
                                return;
                            },
                            Some(c) => {
                                proof {
                                    assert(orig[cur as int].children[ai as int] == Some(c));
                                    assert(cur < c < orig.len());
                                    assert(spec_walk_target(orig, cur as int)
                                        == spec_walk_target(orig, c as int));
                                }
                                cur = c;
                            },
                        }
                    }
                },
            }
        }
    }

    /// Hand the cursor down: the first node on the descent path that
    /// carries the cursor passes it to its designated child. Success is
    /// reported exactly when that hand-off happens; a walk that dead-ends
    /// first — no descent index, no child in the slot — fails with "no
    /// child present" and changes nothing.
    pub fn step_in(&mut self) -> (r: Result<(), ()>)
        requires
            old(self).wf(),
        ensures
            final(self).wf(),
            (r is Ok <==> spec_step_in_target(old(self).nodes_seq(), 0) is Some),
            match spec_step_in_target(old(self).nodes_seq(), 0) {
                None => final(self).nodes_seq() == old(self).nodes_seq(),
                Some(t) => match old(self).nodes_seq()[t].active_item {
                    Some(ai) => match old(self).nodes_seq()[t].children[ai as int] {
                        Some(c) => final(self).nodes_seq() == old(self).nodes_seq().update(
                            t,
                            spec_node_with_active(old(self).nodes_seq()[t], false),
                        ).update(
                            c as int,
                            spec_node_with_active(old(self).nodes_seq()[c as int], true),
                        ),
                        None => false,
                    },
                    None => false,
                },
            },
            spec_at_most_one_active(old(self).nodes_seq()) ==> spec_at_most_one_active(
                final(self).nodes_seq(),
            ),
    {
        let ghost orig = self.nodes@;
        let mut cur: usize = 0;
        loop
            invariant
                orig == old(self).nodes_seq(),
                self.nodes@ == orig,
                spec_nodes_wf(orig),
                cur < orig.len(),
                spec_step_in_target(orig, 0) == spec_step_in_target(orig, cur as int),
            decreases orig.len() - cur,
        {
            let node = self.nodes[cur];
            proof {
                assert(spec_node_wf(orig, cur as int));
            }
            match node.active_item {
                None => {
                    proof {
                        assert(spec_step_in_target(orig, cur as int) is None);
                    }
                    return Err(());
                },
                Some(ai) => {
                    match node.children[ai] {
                        None => {
                            proof {
                                assert(spec_step_in_target(orig, cur as int) is None);
                            }
                            return Err(());
                        },
                        Some(c) => {
                            if node.active {
                                let mut pn = node;
                                pn.active = false;
                                let mut cn = self.nodes[c];
                                cn.active = true;
                                self.nodes.set(cur, pn);
                                self.nodes.set(c, cn);
                                proof {
                                    assert(spec_node_wf(orig, c as int));
                                    lemma_update_keeps_wf(orig, cur as int, pn);
                                    lemma_update_keeps_wf(
                                        orig.update(cur as int, pn),
                                        c as int,
                                        cn,
                                    );
                                    let newn = self.nodes@;
                                    if spec_at_most_one_active(orig) {
                                        assert forall|i: int, j: int|
                                            0 <= i < newn.len() && 0 <= j < newn.len()
                                                && newn[i].active && newn[j].active implies i == j
                                        by {
                                            if i != c as int {
                                                assert(orig[i].active && orig[cur as int].active);
                                            }
                                            if j != c as int {
                                                assert(orig[j].active && orig[cur as int].active);
                                            }
                                        }
                                    }
                                }
                                return Ok(());
                            } else {
                                cur = c;
                            }
                        },
                    }
                },
            }
        }
    }

    /// Reclaim the cursor: the first node on the descent path whose
    /// designated child carries the cursor takes it back. Success is
    /// reported exactly when that hand-back happens; a walk that dead-ends
    /// first — no descent index, no child, no active descendant — fails and
    /// changes nothing.
    pub fn step_out(&mut self) -> (r: Result<(), ()>)
        requires
            old(self).wf(),
        ensures
            final(self).wf(),
            (r is Ok <==> spec_step_out_target(old(self).nodes_seq(), 0) is Some),
            match spec_step_out_target(old(self).nodes_seq(), 0) {
                None => final(self).nodes_seq() == old(self).nodes_seq(),
                Some(t) => match old(self).nodes_seq()[t].active_item {
                    Some(ai) => match old(self).nodes_seq()[t].children[ai as int] {
                        Some(c) => final(self).nodes_seq() == old(self).nodes_seq().update(
                            t,
                            spec_node_with_active(old(self).nodes_seq()[t], true),
                        ).update(
                            c as int,
                            spec_node_with_active(old(self).nodes_seq()[c as int], false),
                        ),
                        None => false,
                    },
                    None => false,
                },
            },
            spec_at_most_one_active(old(self).nodes_seq()) ==> spec_at_most_one_active(
                final(self).nodes_seq(),
            ),
    {
        let ghost orig = self.nodes@;
        let mut cur: usize = 0;
        loop
            invariant
                orig == old(self).nodes_seq(),
                self.nodes@ == orig,
                spec_nodes_wf(orig),
                cur < orig.len(),
                spec_step_out_target(orig, 0) == spec_step_out_target(orig, cur as int),
            decreases orig.len() - cur,
        {
            let node = self.nodes[cur];
            proof {
                assert(spec_node_wf(orig, cur as int));
            }
            match node.active_item {
                None => {
                    proof {
                        assert(spec_step_out_target(orig, cur as int) is None);
                    }
                    return Err(());
                },
                Some(ai) => {
                    match node.children[ai] {
                        None => {
                            proof {
                                assert(spec_step_out_target(orig, cur as int) is None);
                            }
                            return Err(());
                        },
                        Some(c) => {
                            let cnode = self.nodes[c];
                            if cnode.active {
                                let mut pn = node;
                                pn.active = true;
                                let mut cn = cnode;
                                cn.active = false;
                                self.nodes.set(cur, pn);
                                self.nodes.set(c, cn);
                                proof {
                                    assert(spec_node_wf(orig, c as int));
                                    lemma_update_keeps_wf(orig, cur as int, pn);
                                    lemma_update_keeps_wf(
                                        orig.update(cur as int, pn),
                                        c as int,
                                        cn,
                                    );
                                    let newn = self.nodes@;
                                    if spec_at_most_one_active(orig) {
                                        assert forall|i: int, j: int|
                                            0 <= i < newn.len() && 0 <= j < newn.len()
                                                && newn[i].active && newn[j].active implies i == j
                                        by {
                                            if i != cur as int {
                                                assert(orig[i].active && orig[c as int].active);
                                            }
                                            if j != cur as int {
                                                assert(orig[j].active && orig[c as int].active);
                                            }
                                        }
                                    }
                                }
                                return Ok(());
                            } else {
                                cur = c;
                            }
                        },
                    }
                },
            }
        }
    }

    /// What the root would hand its render callback: its descent index and
    /// its value.
    pub fn display(&self) -> (r: (Option<usize>, Option<usize>))
        requires
            self.wf(),
        ensures
            r == (self.nodes_seq()[0].active_item, self.nodes_seq()[0].value),
    {
        let root = self.nodes[0];
        (root.active_item, root.value)
    }

    /// What the focused level would hand its render callback: the descent
    /// index and value of the first node on the descent path that carries
    /// the cursor, or nothing when the path reaches no such node.
    pub fn rec_display(&self) -> (r: Option<(Option<usize>, Option<usize>)>)
        requires
            self.wf(),
        ensures
            match spec_display_target(self.nodes_seq(), 0) {
                None => r is None,
                Some(t) => r == Some(
                    (self.nodes_seq()[t].active_item, self.nodes_seq()[t].value),
                ),
            },
    {
        let mut cur: usize = 0;
        loop
            invariant
                self.wf(),
                cur < self.nodes_seq().len(),
                spec_display_target(self.nodes_seq(), 0) == spec_display_target(
                    self.nodes_seq(),
                    cur as int,
                ),
            decreases self.nodes_seq().len() - cur,
        {
            let node = self.nodes[cur];
            proof {
                assert(spec_node_wf(self.nodes_seq(), cur as int));
            }
            if node.active {
                return Some((node.active_item, node.value));
            }
            match node.active_item {
                None => {
                    return None;
                },
                Some(ai) => {
                    match node.children[ai] {
                        None => {
                            return None;
                        },
                        Some(c) => {
                            cur = c;
                        },
                    }
                },
            }
        }
    }
}

/// `n` with child slot `slot` repointed.
pub open spec fn spec_node_with_children_slot(n: MenuNode, slot: int, c: Option<usize>) -> MenuNode {
    MenuNode {
        children: spec_array_update(n.children, slot, c),
        active_item: n.active_item,
        active: n.active,
        id: n.id,
        endpoint: n.endpoint,
        value: n.value,
    }
}

/// Replacing one node with a copy that keeps its links keeps the arena
/// sound.
proof fn lemma_update_keeps_wf(nodes: Seq<MenuNode>, i: int, n: MenuNode)
    requires
        spec_nodes_wf(nodes),
        0 <= i < nodes.len(),
        n.children == nodes[i].children,
        n.active_item matches Some(ai) ==> ai < MENU_FANOUT,
    ensures
        spec_nodes_wf(nodes.update(i, n)),
{
    let newn = nodes.update(i, n);
    assert forall|k: int| 0 <= k < newn.len() implies spec_node_wf(newn, k) by {
        assert(spec_node_wf(nodes, k));
        assert(spec_node_wf(nodes, i));
    }
}

} // verus!

//! The branching undo history.
//!
//! The history is a tree of undo units kept in an arena: a node names its
//! parent and its children by their index, and index 0 is the empty root. A
//! new unit becomes a child of the current node, so an edit made after an undo
//! starts a new branch and leaves the old one in place.

use crate::lines::{cut, splice};
use vstd::prelude::*;

verus! {

/// One change of the text. Both variants hold the text that was inserted or
/// deleted, so each can be reverted without looking at the buffer.
#[derive(Debug, Clone)]
pub enum Edit {
    Insert { at: usize, text: String },
    Delete { at: usize, text: String },
}

/// An undo unit: one edit, or several that are undone and redone together.
#[derive(Debug, Clone)]
pub enum UndoEntry {
    Single(Edit),
    Group(Vec<Edit>),
}

/// A node of the history.
#[derive(Debug, Clone)]
pub struct UndoNode {
    pub entry: Option<UndoEntry>,
    pub parent: Option<usize>,
    pub children: Vec<usize>,
    pub active_child: usize,
}

/// The history of a buffer.
#[derive(Debug, Clone)]
pub struct UndoTree {
    nodes: Vec<UndoNode>,
    current: usize,
    current_group: Vec<Edit>,
    grouping_enabled: bool,
}

/// What an [`Edit`] stands for.
#[verifier::ext_equal]
pub enum EditView {
    Insert { at: nat, text: Seq<char> },
    Delete { at: nat, text: Seq<char> },
}

/// What an [`UndoEntry`] stands for.
#[verifier::ext_equal]
pub enum EntryView {
    Single(EditView),
    Group(Seq<EditView>),
}

/// What an [`UndoNode`] stands for.
#[verifier::ext_equal]
pub struct NodeView {
    pub entry: Option<EntryView>,
    pub parent: Option<nat>,
    pub children: Seq<nat>,
    pub active_child: nat,
}

/// What an [`UndoTree`] stands for.
#[verifier::ext_equal]
pub struct TreeView {
    pub nodes: Seq<NodeView>,
    pub current: nat,
    pub group: Seq<EditView>,
    pub grouping: bool,
}

impl EditView {
    /// The edit can be made on `text`: an insertion lies inside the text, and
    /// a deletion names the characters that stand there.
    pub open spec fn fits(self, text: Seq<char>) -> bool {
        match self {
            EditView::Insert { at, text: _ } => at <= text.len(),
            EditView::Delete { at, text: gone } => at + gone.len() <= text.len() && text.subrange(
                at as int,
                (at + gone.len()) as int,
            ) == gone,
        }
    }

    /// The text after the edit. An edit that does not lie inside the text
    /// leaves it as it is.
    pub open spec fn apply(self, text: Seq<char>) -> Seq<char> {
        match self {
            EditView::Insert { at, text: new } => if at <= text.len() {
                splice(text, at as int, new)
            } else {
                text
            },
            EditView::Delete { at, text: gone } => if at + gone.len() <= text.len() {
                cut(text, at as int, (at + gone.len()) as int)
            } else {
                text
            },
        }
    }

    /// The text after the edit is reverted: an insertion is deleted again, a
    /// deletion is inserted again. An edit that does not lie inside the text
    /// leaves it as it is.
    pub open spec fn revert(self, text: Seq<char>) -> Seq<char> {
        match self {
            EditView::Insert { at, text: new } => if at + new.len() <= text.len() {
                cut(text, at as int, (at + new.len()) as int)
            } else {
                text
            },
            EditView::Delete { at, text: gone } => if at <= text.len() {
                splice(text, at as int, gone)
            } else {
                text
            },
        }
    }
}

/// The edits of `edits` can be made on `text` one after the other.
pub open spec fn edits_fit(edits: Seq<EditView>, text: Seq<char>) -> bool
    decreases edits.len(),
{
    edits.len() == 0 || (edits[0].fits(text) && edits_fit(
        edits.drop_first(),
        edits[0].apply(text),
    ))
}

/// The text after the edits of `edits` are made in order.
pub open spec fn apply_edits(edits: Seq<EditView>, text: Seq<char>) -> Seq<char>
    decreases edits.len(),
{
    if edits.len() == 0 {
        text
    } else {
        apply_edits(edits.drop_first(), edits[0].apply(text))
    }
}

/// The text after the edits of `edits` are reverted, the last one first.
pub open spec fn revert_edits(edits: Seq<EditView>, text: Seq<char>) -> Seq<char>
    decreases edits.len(),
{
    if edits.len() == 0 {
        text
    } else {
        edits[0].revert(revert_edits(edits.drop_first(), text))
    }
}

/// A list of one edit is made and reverted as that edit is.
pub proof fn lemma_single_edit(edit: EditView, text: Seq<char>)
    ensures
        apply_edits(seq![edit], text) == edit.apply(text),
        revert_edits(seq![edit], text) == edit.revert(text),
        edits_fit(seq![edit], text) == edit.fits(text),
{
    reveal_with_fuel(apply_edits, 2);
    reveal_with_fuel(revert_edits, 2);
    reveal_with_fuel(edits_fit, 2);
    assert(seq![edit].drop_first() =~= Seq::<EditView>::empty());
}

impl EntryView {
    /// The edits of the unit, in the order in which they were made.
    pub open spec fn edits(self) -> Seq<EditView> {
        match self {
            EntryView::Single(e) => seq![e],
            EntryView::Group(es) => es,
        }
    }

    pub open spec fn fits(self, text: Seq<char>) -> bool {
        edits_fit(self.edits(), text)
    }

    /// The text after the unit is redone.
    pub open spec fn apply(self, text: Seq<char>) -> Seq<char> {
        apply_edits(self.edits(), text)
    }

    /// The text after the unit is undone.
    pub open spec fn revert(self, text: Seq<char>) -> Seq<char> {
        revert_edits(self.edits(), text)
    }
}

/// The unit that a list of edits is committed as: a single edit alone, a
/// group otherwise.
pub open spec fn entry_of_group(group: Seq<EditView>) -> EntryView {
    if group.len() == 1 {
        EntryView::Single(group[0])
    } else {
        EntryView::Group(group)
    }
}

/// The arena is a tree rooted at index 0: every other node has a unit and
/// an earlier node as its parent, a node and its children name each other,
/// and the active child is one of the children.
pub open spec fn tree_shaped(nodes: Seq<NodeView>) -> bool {
    &&& nodes.len() >= 1
    &&& nodes[0].parent is None
    &&& forall|i: int|
        1 <= i < nodes.len() ==> (#[trigger] nodes[i]).entry is Some && nodes[i].parent is Some
            && nodes[i].parent->0 < i
    &&& forall|i: int, k: int|
        0 <= i < nodes.len() && 0 <= k < nodes[i].children.len() ==> i < (
        #[trigger] nodes[i].children[k]) < nodes.len() && nodes[nodes[i].children[k] as int].parent
            == Some(i as nat)
    &&& forall|i: int|
        0 <= i < nodes.len() && (#[trigger] nodes[i]).children.len() > 0 ==> nodes[i].active_child
            < nodes[i].children.len()
    &&& forall|i: int|
        1 <= i < nodes.len() ==> nodes[(#[trigger] nodes[i].parent)->0 as int].children.contains(
            i as nat,
        )
}

impl TreeView {
    /// The history with only its root.
    pub open spec fn empty() -> TreeView {
        TreeView {
            nodes: seq![
                NodeView { entry: None, parent: None, children: Seq::empty(), active_child: 0 },
            ],
            current: 0,
            group: Seq::empty(),
            grouping: false,
        }
    }

    /// The history is a tree, and the current node is one of its nodes.
    pub open spec fn wf(self) -> bool {
        self.current < self.nodes.len() && tree_shaped(self.nodes)
    }

    /// A new node with `entry`, as the last and active child of the current
    /// node, and current from now on.
    pub open spec fn push_node(self, entry: EntryView) -> TreeView {
        let id = self.nodes.len();
        let cur = self.nodes[self.current as int];
        let parent = NodeView {
            children: cur.children.push(id),
            active_child: cur.children.len(),
            ..cur
        };
        let node = NodeView {
            entry: Some(entry),
            parent: Some(self.current),
            children: Seq::empty(),
            active_child: 0,
        };
        TreeView {
            nodes: self.nodes.update(self.current as int, parent).push(node),
            current: id,
            ..self
        }
    }

    /// The edits collected so far become one new node; without any, nothing
    /// changes.
    pub open spec fn flush(self) -> TreeView {
        if self.group.len() == 0 {
            self
        } else {
            TreeView { group: Seq::empty(), ..self }.push_node(entry_of_group(self.group))
        }
    }

    /// From now on edits are collected into one unit.
    pub open spec fn begin_group(self) -> TreeView {
        TreeView { grouping: true, ..self }
    }

    /// The collected edits become one unit, and collecting ends.
    pub open spec fn commit_group(self) -> TreeView {
        TreeView { grouping: false, ..self.flush() }
    }

    /// While edits are collected, `edit` joins them; otherwise it becomes a
    /// node of its own at once.
    pub open spec fn record(self, edit: EditView) -> TreeView {
        if self.grouping {
            TreeView { group: self.group.push(edit), ..self }
        } else {
            self.push_node(EntryView::Single(edit))
        }
    }

    /// The unit that an undo hands out: that of the current node once the
    /// collected edits are flushed; none at the root.
    pub open spec fn undo_entry(self) -> Option<EntryView> {
        let t = self.flush();
        if t.nodes[t.current as int].parent is Some {
            t.nodes[t.current as int].entry
        } else {
            None
        }
    }

    /// The history after an undo: collected edits are flushed, and the parent
    /// of the current node becomes current. At the root only the flush takes
    /// place.
    pub open spec fn undo(self) -> TreeView {
        let t = self.flush();
        match t.nodes[t.current as int].parent {
            Some(p) => TreeView { current: p, ..t },
            None => t,
        }
    }

    /// The node that a redo moves to: the active child of the current node.
    pub open spec fn redo_target(self) -> Option<nat> {
        let cur = self.nodes[self.current as int];
        if cur.children.len() == 0 {
            None
        } else {
            Some(cur.children[cur.active_child as int])
        }
    }

    /// The unit that a redo hands out: that of the active child; none at a
    /// leaf.
    pub open spec fn redo_entry(self) -> Option<EntryView> {
        match self.redo_target() {
            Some(c) => self.nodes[c as int].entry,
            None => None,
        }
    }

    /// The history after a redo: the active child becomes current; at a leaf
    /// nothing changes.
    pub open spec fn redo(self) -> TreeView {
        match self.redo_target() {
            Some(c) => TreeView { current: c, ..self },
            None => self,
        }
    }
}

impl View for Edit {
    type V = EditView;

    open spec fn view(&self) -> EditView {
        match self {
            Edit::Insert { at, text } => EditView::Insert { at: *at as nat, text: text@ },
            Edit::Delete { at, text } => EditView::Delete { at: *at as nat, text: text@ },
        }
    }
}

/// The views of a list of edits.
pub open spec fn edit_views(edits: Seq<Edit>) -> Seq<EditView> {
    edits.map_values(|e: Edit| e@)
}

impl View for UndoEntry {
    type V = EntryView;

    open spec fn view(&self) -> EntryView {
        match self {
            UndoEntry::Single(e) => EntryView::Single(e@),
            UndoEntry::Group(es) => EntryView::Group(edit_views(es@)),
        }
    }
}

/// The view of a unit that may be missing.
pub open spec fn entry_view(entry: Option<UndoEntry>) -> Option<EntryView> {
    match entry {
        Some(e) => Some(e@),
        None => None,
    }
}

impl View for UndoNode {
    type V = NodeView;

    open spec fn view(&self) -> NodeView {
        NodeView {
            entry: entry_view(self.entry),
            parent: match self.parent {
                Some(p) => Some(p as nat),
                None => None,
            },
            children: self.children@.map_values(|c: usize| c as nat),
            active_child: self.active_child as nat,
        }
    }
}

impl View for UndoTree {
    type V = TreeView;

    closed spec fn view(&self) -> TreeView {
        TreeView {
            nodes: self.nodes@.map_values(|n: UndoNode| n@),
            current: self.current as nat,
            group: edit_views(self.current_group@),
            grouping: self.grouping_enabled,
        }
    }
}

impl Edit {
    /// A copy of the edit.
    pub fn duplicate(&self) -> (copy: Edit)
        ensures
            copy@ == self@,
    {
        match self {
            Edit::Insert { at, text } => Edit::Insert { at: *at, text: text.clone() },
            Edit::Delete { at, text } => Edit::Delete { at: *at, text: text.clone() },
        }
    }
}

/// A copy of a list of edits.
pub fn duplicate_edits(edits: &Vec<Edit>) -> (copy: Vec<Edit>)
    ensures
        edit_views(copy@) == edit_views(edits@),
{
    let mut copy: Vec<Edit> = Vec::new();
    let mut i: usize = 0;
    while i < edits.len()
        invariant
            i <= edits.len(),
            copy.len() == i,
            forall|k: int| 0 <= k < i ==> copy[k]@ == edits[k]@,
        decreases edits.len() - i,
    {
        copy.push(edits[i].duplicate());
        i = i + 1;
    }
    assert(edit_views(copy@) =~= edit_views(edits@));
    copy
}

impl UndoEntry {
    /// A copy of the unit.
    pub fn duplicate(&self) -> (copy: UndoEntry)
        ensures
            copy@ == self@,
    {
        match self {
            UndoEntry::Single(e) => UndoEntry::Single(e.duplicate()),
            UndoEntry::Group(es) => UndoEntry::Group(duplicate_edits(es)),
        }
    }
}

impl UndoNode {
    /// A copy of the node.
    pub fn duplicate(&self) -> (copy: UndoNode)
        ensures
            copy@ == self@,
    {
        let mut children: Vec<usize> = Vec::new();
        let mut i: usize = 0;
        while i < self.children.len()
            invariant
                i <= self.children.len(),
                children@ == self.children@.subrange(0, i as int),
            decreases self.children.len() - i,
        {
            children.push(self.children[i]);
            assert(self.children@.subrange(0, i + 1) =~= self.children@.subrange(0, i as int).push(
                self.children@[i as int],
            ));
            i = i + 1;
        }
        assert(self.children@.subrange(0, self.children.len() as int) =~= self.children@);
        UndoNode {
            entry: match &self.entry {
                Some(e) => Some(e.duplicate()),
                None => None,
            },
            parent: self.parent,
            children,
            active_child: self.active_child,
        }
    }
}

impl UndoTree {
    /// A copy of the history.
    pub fn duplicate(&self) -> (copy: UndoTree)
        ensures
            copy@ == self@,
    {
        let mut nodes: Vec<UndoNode> = Vec::new();
        let mut i: usize = 0;
        while i < self.nodes.len()
            invariant
                i <= self.nodes.len(),
                nodes.len() == i,
                forall|k: int| 0 <= k < i ==> nodes[k]@ == self.nodes[k]@,
            decreases self.nodes.len() - i,
        {
            nodes.push(self.nodes[i].duplicate());
            i = i + 1;
        }
        let copy = UndoTree {
            nodes,
            current: self.current,
            current_group: duplicate_edits(&self.current_group),
            grouping_enabled: self.grouping_enabled,
        };
        assert(copy@.nodes =~= self@.nodes);
        copy
    }

    /// The history is a tree, and the current node is one of its nodes.
    pub open spec fn wf(&self) -> bool {
        self@.wf()
    }

    pub fn new() -> (tree: UndoTree)
        ensures
            tree.wf(),
            tree@ == TreeView::empty(),
    {
        let root = UndoNode { entry: None, parent: None, children: Vec::new(), active_child: 0 };
        let mut nodes: Vec<UndoNode> = Vec::new();
        nodes.push(root);
        let tree = UndoTree {
            nodes,
            current: 0,
            current_group: Vec::new(),
            grouping_enabled: false,
        };
        assert(tree@.nodes[0].children =~= Seq::<nat>::empty());
        assert(tree@.nodes =~= TreeView::empty().nodes);
        assert(tree@.group =~= Seq::<EditView>::empty());
        tree
    }

    /// Adds a node with `entry` below the current node and makes it current.
    /// Where the current node already has children, this starts a new
    /// branch: the new node is the last child and the active one.
    pub fn push_node(&mut self, entry: UndoEntry)
        requires
            old(self).wf(),
        ensures
            final(self).wf(),
            final(self)@ == old(self)@.push_node(entry@),
    {
        let id = self.nodes.len();
        let cur = self.current;
        let node = UndoNode {
            entry: Some(entry),
            parent: Some(cur),
            children: Vec::new(),
            active_child: 0,
        };
        let ghost before = self@;
        let ghost entry_view = entry@;
        let count = self.nodes[cur].children.len();
        self.nodes[cur].children.push(id);
        self.nodes[cur].active_child = count;
        self.nodes.push(node);
        self.current = id;
        proof {
            let after = self@;
            let want = before.push_node(entry_view);
            assert(after.nodes.len() == want.nodes.len());
            assert(after.nodes[id as int].children =~= Seq::<nat>::empty());
            assert(after.nodes[cur as int].children =~= before.nodes[cur as int].children.push(
                id as nat,
            ));
            assert forall|i: int| 0 <= i < after.nodes.len() implies after.nodes[i]
                == want.nodes[i] by {
                if i != cur && i != id {
                    assert(self.nodes@[i] == old(self).nodes@[i]);
                }
            }
            assert(after.nodes =~= want.nodes);
            assert(after == want);
            lemma_push_node_wf(before, entry_view);
        }
    }

    /// Turns the edits collected so far into one node.
    fn flush(&mut self)
        requires
            old(self).wf(),
        ensures
            final(self).wf(),
            final(self)@ == old(self)@.flush(),
    {
        if self.current_group.len() == 0 {
            assert(self@.group.len() == 0);
            return ;
        }
        let ghost before = self@;
        let mut group: Vec<Edit> = Vec::new();
        std::mem::swap(&mut self.current_group, &mut group);
        assert(edit_views(group@) == before.group);
        assert(self@ =~= TreeView { group: Seq::empty(), ..before });
        let entry = if group.len() == 1 {
            let edit = group.pop().unwrap();
            assert(edit@ == before.group[0]);
            UndoEntry::Single(edit)
        } else {
            UndoEntry::Group(group)
        };
        assert(entry@ == entry_of_group(before.group));
        self.push_node(entry);
    }

    /// Starts collecting edits: those recorded from now on form one undo unit,
    /// which [`commit_group`](UndoTree::commit_group) closes.
    pub fn begin_group(&mut self)
        requires
            old(self).wf(),
        ensures
            final(self).wf(),
            final(self)@ == old(self)@.begin_group(),
    {
        self.grouping_enabled = true;
    }

    /// Closes the unit that is being collected. Its edits become one node: a
    /// single edit as it is, several as a group, none as nothing at all.
    pub fn commit_group(&mut self)
        requires
            old(self).wf(),
        ensures
            final(self).wf(),
            final(self)@ == old(self)@.commit_group(),
    {
        self.flush();
        self.grouping_enabled = false;
    }

    /// Records an edit: into the unit that is being collected, or else as a
    /// node of its own.
    pub fn record(&mut self, edit: Edit)
        requires
            old(self).wf(),
        ensures
            final(self).wf(),
            final(self)@ == old(self)@.record(edit@),
    {
        if !self.grouping_enabled {
            self.push_node(UndoEntry::Single(edit));
            return ;
        }
        let ghost before = self@;
        self.current_group.push(edit);
        assert(self@.group =~= before.group.push(edit@));
        assert(self@ =~= before.record(edit@));
    }

    /// Steps back to the parent of the current node and hands out the unit
    /// that was left, for the caller to revert. Edits still being collected
    /// are made a node first. At the root there is nothing to undo.
    pub fn undo(&mut self) -> (entry: Option<UndoEntry>)
        requires
            old(self).wf(),
        ensures
            final(self).wf(),
            final(self)@ == old(self)@.undo(),
            entry_view(entry) == old(self)@.undo_entry(),
    {
        self.flush();
        proof {
            lemma_parent_is_earlier(self@.nodes, self@.current);
        }
        match self.nodes[self.current].parent {
            Some(p) => {
                let entry = match &self.nodes[self.current].entry {
                    Some(e) => Some(e.duplicate()),
                    None => None,
                };
                self.current = p;
                entry
            },
            None => None,
        }
    }

    /// Steps forward to the active child of the current node and hands out its
    /// unit, for the caller to make again. At a leaf there is nothing to
    /// redo.
    pub fn redo(&mut self) -> (entry: Option<UndoEntry>)
        requires
            old(self).wf(),
        ensures
            final(self).wf(),
            final(self)@ == old(self)@.redo(),
            entry_view(entry) == old(self)@.redo_entry(),
    {
        if self.nodes[self.current].children.len() == 0 {
            return None;
        }
        proof {
            lemma_active_child_is_later(self@.nodes, self@.current);
        }
        let child = self.nodes[self.current].children[self.nodes[self.current].active_child];
        let entry = match &self.nodes[child].entry {
            Some(e) => Some(e.duplicate()),
            None => None,
        };
        self.current = child;
        entry
    }

    /// Whether edits are being collected into one unit.
    pub fn is_grouping(&self) -> (b: bool)
        ensures
            b == self@.grouping,
    {
        self.grouping_enabled
    }
}

/// The history with only its root is a tree.
pub proof fn lemma_empty_tree_wf()
    ensures
        TreeView::empty().wf(),
{
    let n = TreeView::empty().nodes;
    assert(n[0].children.len() == 0);
}

/// A new node keeps the arena a tree.
pub proof fn lemma_push_node_wf(t: TreeView, entry: EntryView)
    requires
        t.wf(),
    ensures
        t.push_node(entry).wf(),
{
    let n = t.push_node(entry).nodes;
    let o = t.nodes;
    let id = t.nodes.len() as int;
    let cur = t.current as int;
    assert forall|i: int, k: int|
        0 <= i < n.len() && 0 <= k < n[i].children.len() implies i < (#[trigger] n[i].children[k])
        < n.len() && n[n[i].children[k] as int].parent == Some(i as nat) by {
        if i == cur {
            if k < o[cur].children.len() {
                assert(n[i].children[k] == o[cur].children[k]);
            }
        } else if i != id {
            assert(n[i].children[k] == o[i].children[k]);
        }
    }
    assert forall|i: int| 1 <= i < n.len() implies (#[trigger] n[i]).entry is Some
        && n[i].parent is Some && n[i].parent->0 < i by {
        if i != id {
            assert(o[i].entry is Some);
        }
    }
    assert forall|i: int| 1 <= i < n.len() implies n[(#[trigger] n[i].parent)->0 as int].children.contains(
        i as nat,
    ) by {
        if i == id {
            let k = o[cur].children.len() as int;
            assert(n[cur].children[k] == i as nat);
        } else {
            assert(o[i].entry is Some);
            let p = o[i].parent->0 as int;
            assert(o[p].children.contains(i as nat));
            let k = choose|k: int| 0 <= k < o[p].children.len() && o[p].children[k] == i as nat;
            assert(n[p].children[k] == i as nat);
        }
    }
    assert forall|i: int| 0 <= i < n.len() && (#[trigger] n[i]).children.len() > 0 implies n[i].active_child
        < n[i].children.len() by {
        if i != cur && i != id {
            assert(o[i].children.len() > 0);
        }
    }
}

/// The parent of a node that is not the root is an earlier node, and the node
/// has a unit.
pub proof fn lemma_parent_is_earlier(nodes: Seq<NodeView>, i: nat)
    requires
        tree_shaped(nodes),
        i < nodes.len(),
    ensures
        nodes[i as int].parent is Some ==> nodes[i as int].parent->0 < i && nodes[i as int].entry
            is Some,
        nodes[i as int].parent is None ==> i == 0,
{
    if i >= 1 {
        assert(nodes[i as int].entry is Some);
    }
}

/// The active child of a node with children is a later node with a unit.
pub proof fn lemma_active_child_is_later(nodes: Seq<NodeView>, i: nat)
    requires
        tree_shaped(nodes),
        i < nodes.len(),
        nodes[i as int].children.len() > 0,
    ensures
        nodes[i as int].active_child < nodes[i as int].children.len(),
        i < nodes[i as int].children[nodes[i as int].active_child as int] < nodes.len(),
        nodes[nodes[i as int].children[nodes[i as int].active_child as int] as int].entry is Some,
        nodes[nodes[i as int].children[nodes[i as int].active_child as int] as int].parent == Some(
            i,
        ),
{
    let node = nodes[i as int];
    assert(node.active_child < node.children.len());
    let c = node.children[node.active_child as int];
    assert(i < nodes[i as int].children[node.active_child as int] < nodes.len());
    assert(nodes[c as int].entry is Some);
}

} // verus!

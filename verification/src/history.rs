//! What undo and redo guarantee, proved over the values of buffers.

use crate::buffer::{BufferView, Mode};
use crate::lines::{cut, line_count, splice};
use crate::undotree::{
    entry_of_group, lemma_active_child_is_later, lemma_parent_is_earlier, lemma_push_node_wf,
    lemma_single_edit, revert_edits, tree_shaped, EditView, EntryView, NodeView, TreeView,
};
use vstd::prelude::*;

verus! {

/// One change of the text, as a caller asks for it.
pub enum EditOp {
    Insert { at: nat, text: Seq<char> },
    Remove { start: nat, end: nat },
}

impl BufferView {
    /// The change can be made: an insertion lies inside the text, and a
    /// removal names a span of it that is not empty.
    pub open spec fn admits(self, op: EditOp) -> bool {
        match op {
            EditOp::Insert { at, text: _ } => at <= self.text.len(),
            EditOp::Remove { start, end } => start < end <= self.text.len(),
        }
    }

    /// The buffer after the change.
    pub open spec fn perform(self, op: EditOp) -> BufferView {
        match op {
            EditOp::Insert { at, text } => self.insert(at, text),
            EditOp::Remove { start, end } => self.remove(start, end),
        }
    }

    /// The edit that the change is recorded as.
    pub open spec fn edit_of(self, op: EditOp) -> EditView {
        match op {
            EditOp::Insert { at, text } => EditView::Insert { at, text },
            EditOp::Remove { start, end } => EditView::Delete {
                at: start,
                text: self.text.subrange(start as int, end as int),
            },
        }
    }

    /// Every edit becomes an undo unit of its own: the buffer records, and no
    /// unit is being collected.
    pub open spec fn records_singly(self) -> bool {
        self.recording && !self.history.grouping && self.history.group.len() == 0
    }
}

/// The changes of `ops` can be made one after the other.
pub open spec fn all_admitted(b: BufferView, ops: Seq<EditOp>) -> bool
    decreases ops.len(),
{
    ops.len() == 0 || (all_admitted(b, ops.drop_last()) && perform_all(b, ops.drop_last()).admits(
        ops.last(),
    ))
}

/// The buffer after the changes of `ops`, made in order.
pub open spec fn perform_all(b: BufferView, ops: Seq<EditOp>) -> BufferView
    decreases ops.len(),
{
    if ops.len() == 0 {
        b
    } else {
        perform_all(b, ops.drop_last()).perform(ops.last())
    }
}

/// The buffer after `n` undos.
pub open spec fn undo_times(b: BufferView, n: nat) -> BufferView
    decreases n,
{
    if n == 0 {
        b
    } else {
        undo_times(b.undo(), (n - 1) as nat)
    }
}

/// The buffer after `n` redos.
pub open spec fn redo_times(b: BufferView, n: nat) -> BufferView
    decreases n,
{
    if n == 0 {
        b
    } else {
        redo_times(b.redo(), (n - 1) as nat)
    }
}

/// The buffer after the characters of `chars` are typed at the cursor, one
/// after the other.
pub open spec fn type_chars(b: BufferView, chars: Seq<char>) -> BufferView
    decreases chars.len(),
{
    if chars.len() == 0 {
        b
    } else {
        type_chars(b, chars.drop_last()).insert_str(seq![chars.last()])
    }
}

/// The node and the text that `k` steps towards the root lead to; nothing
/// where the root comes first.
pub open spec fn undo_walk(nodes: Seq<NodeView>, node: nat, text: Seq<char>, k: nat) -> Option<
    (nat, Seq<char>),
>
    decreases k,
{
    if k == 0 {
        Some((node, text))
    } else {
        match (nodes[node as int].parent, nodes[node as int].entry) {
            (Some(p), Some(e)) => undo_walk(nodes, p, e.revert(text), (k - 1) as nat),
            _ => None,
        }
    }
}

/// The node and the text that `k` steps along the active children lead to;
/// nothing where a leaf comes first.
pub open spec fn redo_walk(nodes: Seq<NodeView>, node: nat, text: Seq<char>, k: nat) -> Option<
    (nat, Seq<char>),
>
    decreases k,
{
    if k == 0 {
        Some((node, text))
    } else {
        let cur = nodes[node as int];
        if cur.children.len() == 0 {
            None
        } else {
            let c = cur.children[cur.active_child as int];
            match nodes[c as int].entry {
                Some(e) => redo_walk(nodes, c, e.apply(text), (k - 1) as nat),
                None => None,
            }
        }
    }
}

/// The node at which a walk ends.
pub open spec fn walk_end(walk: Option<(nat, Seq<char>)>) -> nat {
    match walk {
        Some((node, _)) => node,
        None => 0,
    }
}

/// An edit that fits the text is taken back by its reversal.
pub proof fn lemma_revert_apply(e: EditView, text: Seq<char>)
    requires
        e.fits(text),
    ensures
        e.revert(e.apply(text)) == text,
{
    match e {
        EditView::Insert { at, text: new } => {
            assert(cut(splice(text, at as int, new), at as int, (at + new.len()) as int) =~= text);
        },
        EditView::Delete { at, text: gone } => {
            assert(splice(cut(text, at as int, (at + gone.len()) as int), at as int, gone)
                =~= text);
        },
    }
}

/// Reverting a list of edits with one more at its end reverts that one
/// first.
pub proof fn lemma_revert_edits_push(edits: Seq<EditView>, e: EditView, text: Seq<char>)
    ensures
        revert_edits(edits.push(e), text) == revert_edits(edits, e.revert(text)),
    decreases edits.len(),
{
    if edits.len() == 0 {
        lemma_single_edit(e, text);
        assert(edits.push(e) =~= seq![e]);
    } else {
        assert(edits.push(e).drop_first() =~= edits.drop_first().push(e));
        lemma_revert_edits_push(edits.drop_first(), e, text);
    }
}

/// Undoing `k` times walks `k` steps towards the root.
proof fn lemma_undo_times_walks(b: BufferView, k: nat, z: nat, y: Seq<char>)
    requires
        b.history.group.len() == 0,
        undo_walk(b.history.nodes, b.history.current, b.text, k) == Some((z, y)),
    ensures
        undo_times(b, k) == (BufferView {
            text: y,
            history: TreeView { current: z, ..b.history },
            modified: b.modified || k > 0,
            ..b
        }),
    decreases k,
{
    if k == 0 {
        assert(b.history =~= TreeView { current: z, ..b.history });
    } else {
        let u = b.undo();
        assert(b.history.flush() == b.history);
        lemma_undo_times_walks(u, (k - 1) as nat, z, y);
        assert(TreeView { current: z, ..u.history } =~= TreeView { current: z, ..b.history });
    }
}

/// Redoing `k` times walks `k` steps along the active children.
proof fn lemma_redo_times_walks(b: BufferView, k: nat, z: nat, y: Seq<char>)
    requires
        redo_walk(b.history.nodes, b.history.current, b.text, k) == Some((z, y)),
    ensures
        redo_times(b, k) == (BufferView {
            text: y,
            history: TreeView { current: z, ..b.history },
            modified: b.modified || k > 0,
            ..b
        }),
    decreases k,
{
    if k == 0 {
        assert(b.history =~= TreeView { current: z, ..b.history });
    } else {
        let u = b.redo();
        lemma_redo_times_walks(u, (k - 1) as nat, z, y);
        assert(TreeView { current: z, ..u.history } =~= TreeView { current: z, ..b.history });
    }
}

/// The way to the root is the same in an arena in which the old nodes kept
/// their parent and their unit.
proof fn lemma_undo_walk_frame(
    old_nodes: Seq<NodeView>,
    new_nodes: Seq<NodeView>,
    node: nat,
    text: Seq<char>,
    k: nat,
)
    requires
        tree_shaped(old_nodes),
        node < old_nodes.len() <= new_nodes.len(),
        forall|i: int|
            0 <= i < old_nodes.len() ==> (#[trigger] new_nodes[i]).parent == old_nodes[i].parent
                && new_nodes[i].entry == old_nodes[i].entry,
    ensures
        undo_walk(new_nodes, node, text, k) == undo_walk(old_nodes, node, text, k),
    decreases k,
{
    if k > 0 {
        assert(new_nodes[node as int].parent == old_nodes[node as int].parent);
        lemma_parent_is_earlier(old_nodes, node);
        match (old_nodes[node as int].parent, old_nodes[node as int].entry) {
            (Some(p), Some(e)) => {
                lemma_undo_walk_frame(old_nodes, new_nodes, p, e.revert(text), (k - 1) as nat);
            },
            _ => {},
        }
    }
}

/// A walk along the active children ends at a node that is not before its
/// start, and after it where a step was taken.
proof fn lemma_redo_walk_ends_later(nodes: Seq<NodeView>, node: nat, text: Seq<char>, k: nat)
    requires
        tree_shaped(nodes),
        node < nodes.len(),
        redo_walk(nodes, node, text, k) is Some,
    ensures
        node <= walk_end(redo_walk(nodes, node, text, k)) < nodes.len(),
        k > 0 ==> node < walk_end(redo_walk(nodes, node, text, k)),
    decreases k,
{
    if k > 0 {
        lemma_active_child_is_later(nodes, node);
        let cur = nodes[node as int];
        let c = cur.children[cur.active_child as int];
        lemma_redo_walk_ends_later(nodes, c, nodes[c as int].entry->0.apply(text), (k - 1) as nat);
    }
}

/// A walk along the active children is the same in an arena in which the old
/// nodes kept their unit and, but for the node at which the walk ends, their
/// children.
proof fn lemma_redo_walk_frame(
    old_nodes: Seq<NodeView>,
    new_nodes: Seq<NodeView>,
    node: nat,
    text: Seq<char>,
    k: nat,
)
    requires
        tree_shaped(old_nodes),
        node < old_nodes.len() <= new_nodes.len(),
        redo_walk(old_nodes, node, text, k) is Some,
        forall|i: int|
            0 <= i < old_nodes.len() ==> (#[trigger] new_nodes[i]).entry == old_nodes[i].entry,
        forall|i: int|
            0 <= i < old_nodes.len() && i != walk_end(redo_walk(old_nodes, node, text, k)) ==> (
            #[trigger] new_nodes[i]).children == old_nodes[i].children && new_nodes[i].active_child
                == old_nodes[i].active_child,
    ensures
        redo_walk(new_nodes, node, text, k) == redo_walk(old_nodes, node, text, k),
    decreases k,
{
    if k > 0 {
        lemma_redo_walk_ends_later(old_nodes, node, text, k);
        lemma_active_child_is_later(old_nodes, node);
        assert(new_nodes[node as int].children == old_nodes[node as int].children);
        let cur = old_nodes[node as int];
        let c = cur.children[cur.active_child as int];
        assert(new_nodes[c as int].entry == old_nodes[c as int].entry);
        lemma_redo_walk_frame(
            old_nodes,
            new_nodes,
            c,
            old_nodes[c as int].entry->0.apply(text),
            (k - 1) as nat,
        );
    }
}

/// A walk of one more step is the walk followed by that step.
proof fn lemma_redo_walk_extend(nodes: Seq<NodeView>, node: nat, text: Seq<char>, k: nat)
    ensures
        redo_walk(nodes, node, text, k + 1) == match redo_walk(nodes, node, text, k) {
            Some((z, y)) => redo_walk(nodes, z, y, 1),
            None => None,
        },
    decreases k,
{
    reveal_with_fuel(redo_walk, 2);
    if k > 0 {
        let cur = nodes[node as int];
        if cur.children.len() > 0 {
            let c = cur.children[cur.active_child as int];
            match nodes[c as int].entry {
                Some(e) => {
                    lemma_redo_walk_extend(nodes, c, e.apply(text), (k - 1) as nat);
                },
                None => {},
            }
        }
    }
}

/// One more unit at the end of a chain makes the chain one step longer, both
/// ways.
proof fn lemma_chain_step(
    h: TreeView,
    e: EditView,
    text: Seq<char>,
    start: nat,
    start_text: Seq<char>,
    n: nat,
)
    requires
        h.wf(),
        e.fits(text),
        start < h.nodes.len(),
        undo_walk(h.nodes, h.current, text, n) == Some((start, start_text)),
        redo_walk(h.nodes, start, start_text, n) == Some((h.current, text)),
    ensures
        undo_walk(
            h.push_node(EntryView::Single(e)).nodes,
            h.nodes.len(),
            e.apply(text),
            n + 1,
        ) == Some((start, start_text)),
        redo_walk(h.push_node(EntryView::Single(e)).nodes, start, start_text, n + 1) == Some(
            (h.nodes.len(), e.apply(text)),
        ),
{
    let u = h.push_node(EntryView::Single(e));
    let id = h.nodes.len();
    let cur = h.current;
    lemma_revert_apply(e, text);
    lemma_single_edit(e, e.apply(text));
    lemma_single_edit(e, text);
    assert forall|i: int| 0 <= i < h.nodes.len() implies (#[trigger] u.nodes[i]).parent
        == h.nodes[i].parent && u.nodes[i].entry == h.nodes[i].entry by {}
    assert forall|i: int| 0 <= i < h.nodes.len() && i != cur implies (#[trigger] u.nodes[i]).children
        == h.nodes[i].children && u.nodes[i].active_child == h.nodes[i].active_child by {}
    // back
    lemma_undo_walk_frame(h.nodes, u.nodes, cur, text, n);
    assert(u.nodes[id as int].parent == Some(cur));
    assert(u.nodes[id as int].entry == Some(EntryView::Single(e)));
    assert(undo_walk(u.nodes, id, e.apply(text), n + 1) == undo_walk(u.nodes, cur, text, n));
    // forth
    lemma_redo_walk_frame(h.nodes, u.nodes, start, start_text, n);
    lemma_redo_walk_extend(u.nodes, start, start_text, n);
    let last = u.nodes[cur as int];
    assert(last.children.len() > 0);
    assert(last.children[last.active_child as int] == id);
    assert(redo_walk(u.nodes, cur, text, 1) == Some((id, e.apply(text)))) by {
        reveal_with_fuel(redo_walk, 2);
    }
}

/// Edits that each become a unit of their own build a chain in the history:
/// as many steps towards the root lead back to where the buffer was, and as
/// many steps along the active children lead forward again.
proof fn lemma_edits_build_chain(b: BufferView, ops: Seq<EditOp>)
    requires
        b.history.wf(),
        b.records_singly(),
        all_admitted(b, ops),
    ensures
        perform_all(b, ops).history.wf(),
        perform_all(b, ops).records_singly(),
        perform_all(b, ops).history.nodes.len() >= b.history.nodes.len(),
        undo_walk(
            perform_all(b, ops).history.nodes,
            perform_all(b, ops).history.current,
            perform_all(b, ops).text,
            ops.len(),
        ) == Some((b.history.current, b.text)),
        redo_walk(perform_all(b, ops).history.nodes, b.history.current, b.text, ops.len()) == Some(
            (perform_all(b, ops).history.current, perform_all(b, ops).text),
        ),
    decreases ops.len(),
{
    if ops.len() > 0 {
        let before = ops.drop_last();
        let op = ops.last();
        lemma_edits_build_chain(b, before);
        let mid = perform_all(b, before);
        let after = perform_all(b, ops);
        let e = mid.edit_of(op);
        assert(after == mid.perform(op));
        assert(e.fits(mid.text));
        assert(after.text == e.apply(mid.text));
        assert(after.history == mid.history.push_node(EntryView::Single(e)));
        lemma_push_node_wf(mid.history, EntryView::Single(e));
        lemma_chain_step(
            mid.history,
            e,
            mid.text,
            b.history.current,
            b.text,
            before.len(),
        );
    }
}

/// Undo and redo are inverse to editing. After any edits that can be made,
/// each an undo unit of its own, as many undos bring back the text from
/// before them, and as many redos after that bring back the text from after
/// them.
pub proof fn lemma_undo_redo_inverse(b: BufferView, ops: Seq<EditOp>)
    requires
        b.history.wf(),
        b.records_singly(),
        all_admitted(b, ops),
    ensures
        undo_times(perform_all(b, ops), ops.len()).text == b.text,
        redo_times(undo_times(perform_all(b, ops), ops.len()), ops.len()).text == perform_all(
            b,
            ops,
        ).text,
        redo_times(undo_times(perform_all(b, ops), ops.len()), ops.len()) == perform_all(b, ops),
{
    lemma_edits_build_chain(b, ops);
    let after = perform_all(b, ops);
    lemma_undo_times_walks(after, ops.len(), b.history.current, b.text);
    let back = undo_times(after, ops.len());
    lemma_redo_times_walks(back, ops.len(), after.history.current, after.text);
    assert(TreeView { current: after.history.current, ..back.history } =~= after.history);
}

/// While a unit is being collected, typing only adds to it, and reverting
/// the collected edits brings back the text from before them.
proof fn lemma_typing_collects(b: BufferView, base: Seq<char>, chars: Seq<char>)
    requires
        b.recording,
        b.history.grouping,
        revert_edits(b.history.group, b.text) == base,
    ensures
        type_chars(b, chars).recording,
        type_chars(b, chars).mode == b.mode,
        type_chars(b, chars).history == (TreeView {
            group: type_chars(b, chars).history.group,
            ..b.history
        }),
        revert_edits(type_chars(b, chars).history.group, type_chars(b, chars).text) == base,
        type_chars(b, chars).history.group.len() >= b.history.group.len(),
        chars.len() >= 1 && b.cursor.row < line_count(b.text) ==> type_chars(
            b,
            chars,
        ).history.group.len() > b.history.group.len(),
    decreases chars.len(),
{
    if chars.len() == 0 {
        assert(b.history =~= TreeView { group: b.history.group, ..b.history });
    } else {
        let x = type_chars(b, chars.drop_last());
        lemma_typing_collects(b, base, chars.drop_last());
        let s = seq![chars.last()];
        let y = x.insert_str(s);
        if x.cursor.row < line_count(x.text) {
            crate::lines::lemma_line_len_bounds(x.text, x.cursor.row as nat);
            crate::lines::lemma_line_start_bounds(x.text, x.cursor.row as nat);
            let at = (crate::lines::line_start(x.text, x.cursor.row as nat)
                + x.insert_col()) as nat;
            let e = EditView::Insert { at, text: s };
            assert(e.fits(x.text));
            assert(y.text == e.apply(x.text));
            assert(y.history.group == x.history.group.push(e));
            lemma_revert_edits_push(x.history.group, e, y.text);
            lemma_revert_apply(e, x.text);
            assert(y.history =~= TreeView { group: y.history.group, ..b.history });
        }
    }
}

/// An insert session is undone at once. Entering insert mode, typing at
/// least one character on a row of the text and leaving insert mode makes one
/// undo unit: a single undo brings back the text from before the session.
pub proof fn lemma_insert_session_undone_at_once(b: BufferView, chars: Seq<char>)
    requires
        b.history.wf(),
        b.records_singly(),
        b.mode != Mode::Insert,
        b.cursor.row < line_count(b.text),
        chars.len() >= 1,
    ensures
        type_chars(b.set_mode(Mode::Insert), chars).set_mode(Mode::Normal).undo().text == b.text,
        type_chars(b.set_mode(Mode::Insert), chars).set_mode(Mode::Normal).history.nodes.len()
            == b.history.nodes.len() + 1,
{
    let entered = b.set_mode(Mode::Insert);
    assert(b.history.flush() == b.history);
    assert(entered.history == TreeView { grouping: true, ..b.history });
    lemma_typing_collects(entered, b.text, chars);
    let typed = type_chars(entered, chars);
    let group = typed.history.group;
    let left = typed.set_mode(Mode::Normal);
    let entry = entry_of_group(group);
    let emptied = TreeView { group: Seq::empty(), ..typed.history };
    assert(emptied.wf());
    lemma_push_node_wf(emptied, entry);
    assert(left.history == TreeView { grouping: false, ..emptied.push_node(entry) });
    assert(left.history.group.len() == 0);
    assert(left.history.flush() == left.history);
    let id = b.history.nodes.len() as int;
    assert(left.history.nodes[id].parent == Some(b.history.current));
    assert(left.history.undo_entry() == Some(entry));
    if group.len() == 1 {
        assert(entry.edits() =~= group);
    }
}

/// The history after `k` redos.
pub open spec fn tree_redo_times(t: TreeView, k: nat) -> TreeView
    decreases k,
{
    if k == 0 {
        t
    } else {
        tree_redo_times(t.redo(), (k - 1) as nat)
    }
}

/// An edit after an undo starts a new branch. The branch that was left stays
/// a child of the same parent, beside the new node; no number of redos from
/// the new node leads to it, and from their parent a redo now takes the new
/// branch.
pub proof fn lemma_branch_leaves_old_redo(t: TreeView, edit: EditView, k: nat)
    requires
        t.wf(),
        !t.grouping,
        t.group.len() == 0,
        t.nodes[t.current as int].parent is Some,
    ensures
        t.undo().record(edit).wf(),
        t.undo().record(edit).current != t.current,
        t.undo().record(edit).nodes[t.nodes[t.current as int].parent->0 as int].children.contains(
            t.current,
        ),
        t.undo().record(edit).nodes[t.nodes[t.current as int].parent->0 as int].children.contains(
            t.undo().record(edit).current,
        ),
        t.undo().record(edit).nodes[t.current as int].entry == t.nodes[t.current as int].entry,
        tree_redo_times(t.undo().record(edit), k) == t.undo().record(edit),
        t.undo().record(edit).undo().redo().current == t.undo().record(edit).current,
    decreases k,
{
    let p = t.nodes[t.current as int].parent->0;
    lemma_parent_is_earlier(t.nodes, t.current);
    let back = t.undo();
    assert(t.flush() == t);
    assert(back == TreeView { current: p, ..t });
    let u = back.record(edit);
    lemma_push_node_wf(back, EntryView::Single(edit));
    let id = t.nodes.len();
    assert(t.nodes[p as int].children.contains(t.current));
    let j = choose|j: int| 0 <= j < t.nodes[p as int].children.len() && t.nodes[p as int].children[j] == t.current;
    assert(u.nodes[p as int].children[j] == t.current);
    assert(u.nodes[p as int].children[t.nodes[p as int].children.len() as int] == id);
    assert(u.redo() == u);
    if k > 0 {
        lemma_branch_leaves_old_redo(t, edit, (k - 1) as nat);
    }
    assert(u.flush() == u);
    assert(u.nodes[id as int].parent == Some(p));
}

} // verus!

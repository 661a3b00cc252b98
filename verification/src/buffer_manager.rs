//! The buffers of an editor.

use crate::buffer::{path_view, Buffer, BufferId, BufferView};
use vstd::prelude::*;

verus! {

/// The buffers, in the order of their identities.
#[derive(Debug, Clone)]
pub struct BufferManager {
    pub(crate) next_id: u64,
    pub(crate) buffers: Vec<Buffer>,
}

/// What a [`BufferManager`] stands for.
#[verifier::ext_equal]
pub struct BuffersView {
    pub buffers: Seq<BufferView>,
    pub next_id: u64,
}

/// The place of the first buffer at or after `from` with the identity `id`,
/// or the number of buffers.
pub open spec fn buffer_index(buffers: Seq<BufferView>, id: BufferId, from: int) -> int
    decreases buffers.len() - from,
{
    if from < 0 || from >= buffers.len() {
        buffers.len() as int
    } else if buffers[from].id == id {
        from
    } else {
        buffer_index(buffers, id, from + 1)
    }
}

pub proof fn lemma_buffer_index(buffers: Seq<BufferView>, id: BufferId, from: int)
    requires
        0 <= from <= buffers.len(),
    ensures
        from <= buffer_index(buffers, id, from) <= buffers.len(),
        buffer_index(buffers, id, from) < buffers.len() ==> buffers[buffer_index(
            buffers,
            id,
            from,
        )].id == id,
        forall|i: int| from <= i < buffer_index(buffers, id, from) ==> (#[trigger] buffers[i]).id != id,
    decreases buffers.len() - from,
{
    if from < buffers.len() && buffers[from].id != id {
        lemma_buffer_index(buffers, id, from + 1);
    }
}

/// The search for a buffer goes the same way in two lists that agree on the
/// identities up to where it is found.
pub proof fn lemma_buffer_index_prefix(
    a: Seq<BufferView>,
    b: Seq<BufferView>,
    id: BufferId,
    from: int,
)
    requires
        0 <= from,
        a.len() <= b.len(),
        forall|i: int| 0 <= i < a.len() ==> (#[trigger] a[i]).id == b[i].id,
    ensures
        buffer_index(a, id, from) < a.len() ==> buffer_index(b, id, from) == buffer_index(
            a,
            id,
            from,
        ),
        a.len() == b.len() ==> buffer_index(b, id, from) == buffer_index(a, id, from),
    decreases a.len() - from,
{
    if from < a.len() {
        assert(a[from].id == b[from].id);
        if a[from].id != id {
            lemma_buffer_index_prefix(a, b, id, from + 1);
        }
    }
}

/// A buffer that occurs at or after `from` is found.
pub proof fn lemma_buffer_found(buffers: Seq<BufferView>, id: BufferId, from: int, at: int)
    requires
        0 <= from <= at < buffers.len(),
        buffers[at].id == id,
    ensures
        buffer_index(buffers, id, from) <= at,
    decreases buffers.len() - from,
{
    if from < at && buffers[from].id != id {
        lemma_buffer_found(buffers, id, from + 1, at);
    }
}

impl BuffersView {
    /// The buffers have identities of their own, all of them given out
    /// already.
    pub open spec fn wf(self) -> bool {
        &&& forall|i: int, j: int|
            0 <= i < j < self.buffers.len() ==> (#[trigger] self.buffers[i]).id != (
            #[trigger] self.buffers[j]).id
        &&& forall|i: int| 0 <= i < self.buffers.len() ==> (#[trigger] self.buffers[i]).id.0 < self.next_id
        &&& forall|i: int| 0 <= i < self.buffers.len() ==> (#[trigger] self.buffers[i]).history.wf()
    }

    /// Whether there is a buffer `id`.
    pub open spec fn has(self, id: BufferId) -> bool {
        buffer_index(self.buffers, id, 0) < self.buffers.len()
    }

    /// The buffer `id`.
    pub open spec fn get(self, id: BufferId) -> BufferView {
        self.buffers[buffer_index(self.buffers, id, 0)]
    }

    /// The buffers with `buffer` in the place of the one with its identity.
    pub open spec fn put(self, buffer: BufferView) -> BuffersView {
        BuffersView {
            buffers: self.buffers.update(buffer_index(self.buffers, buffer.id, 0), buffer),
            ..self
        }
    }

    /// A new buffer at the end, with the next identity.
    pub open spec fn create(
        self,
        name: Seq<char>,
        text: Seq<char>,
        file_path: Option<Seq<char>>,
    ) -> BuffersView {
        BuffersView {
            buffers: self.buffers.push(
                BufferView::fresh(BufferId(self.next_id), name, text, file_path),
            ),
            next_id: (self.next_id + 1) as u64,
        }
    }

    /// Without the buffer `id`.
    pub open spec fn kill(self, id: BufferId) -> BuffersView {
        if self.has(id) {
            BuffersView {
                buffers: self.buffers.remove(buffer_index(self.buffers, id, 0)),
                ..self
            }
        } else {
            self
        }
    }
}

/// Replacing a buffer by one of the same identity and with a history that is
/// a tree keeps the buffers well formed, and every buffer where it was.
pub proof fn lemma_put_keeps_wf(b: BuffersView, buffer: BufferView, id: BufferId)
    requires
        b.wf(),
        b.has(buffer.id),
        buffer.history.wf(),
    ensures
        b.put(buffer).wf(),
        b.put(buffer).has(id) == b.has(id),
        buffer_index(b.put(buffer).buffers, id, 0) == buffer_index(b.buffers, id, 0),
        b.put(buffer).get(buffer.id) == buffer,
        b.put(buffer).buffers.len() == b.buffers.len(),
{
    lemma_buffer_index(b.buffers, buffer.id, 0);
    let at = buffer_index(b.buffers, buffer.id, 0);
    let after = b.put(buffer).buffers;
    assert forall|i: int| 0 <= i < b.buffers.len() implies (#[trigger] b.buffers[i]).id
        == after[i].id by {}
    lemma_buffer_index_prefix(b.buffers, after, id, 0);
    lemma_buffer_index_prefix(b.buffers, after, buffer.id, 0);
    assert forall|i: int, j: int| 0 <= i < j < after.len() implies (#[trigger] after[i]).id != (
    #[trigger] after[j]).id by {
        assert(b.buffers[i].id == after[i].id);
        assert(b.buffers[j].id == after[j].id);
    }
    assert forall|i: int| 0 <= i < after.len() implies (#[trigger] after[i]).id.0 < b.next_id by {
        assert(b.buffers[i].id == after[i].id);
    }
    assert forall|i: int| 0 <= i < after.len() implies (#[trigger] after[i]).history.wf() by {
        if i != at {
            assert(after[i] == b.buffers[i]);
        }
    }
}

/// Killing a buffer leaves every other buffer to be found, and as it was.
pub proof fn lemma_kill_keeps_others(b: BuffersView, id: BufferId, other: BufferId)
    requires
        b.wf(),
        other != id,
    ensures
        b.kill(id).has(other) == b.has(other),
        b.has(other) ==> b.kill(id).get(other) == b.get(other),
        !b.kill(id).has(id),
{
    lemma_buffer_index(b.buffers, id, 0);
    lemma_buffer_index(b.buffers, other, 0);
    let after = b.kill(id).buffers;
    lemma_buffer_index(after, other, 0);
    lemma_buffer_index(after, id, 0);
    if b.has(id) {
        let at = buffer_index(b.buffers, id, 0);
        assert forall|k: int| 0 <= k < after.len() implies #[trigger] after[k] == b.buffers[if k
            < at {
            k
        } else {
            k + 1
        }] by {}
        if b.has(other) {
            let i = buffer_index(b.buffers, other, 0);
            let j = if i < at {
                i
            } else {
                i - 1
            };
            assert(after[j] == b.buffers[i]);
            lemma_buffer_found(after, other, 0, j);
            let found = buffer_index(after, other, 0);
            let back = if found < at {
                found
            } else {
                found + 1
            };
            assert(after[found] == b.buffers[back]);
            if back != i {
                if back < i {
                    assert(b.buffers[back].id != other);
                } else {
                    assert(b.buffers[i].id != b.buffers[back].id);
                }
            }
        } else {
            if b.kill(id).has(other) {
                let found = buffer_index(after, other, 0);
                let back = if found < at {
                    found
                } else {
                    found + 1
                };
                assert(after[found] == b.buffers[back]);
                assert(b.buffers[back].id != other);
            }
        }
        if b.kill(id).has(id) {
            let found = buffer_index(after, id, 0);
            let back = if found < at {
                found
            } else {
                found + 1
            };
            assert(after[found] == b.buffers[back]);
            if back < at {
                assert(b.buffers[back].id != id);
            } else {
                assert(b.buffers[at].id != b.buffers[back].id);
            }
        }
    }
}

impl View for BufferManager {
    type V = BuffersView;

    open(crate) spec fn view(&self) -> BuffersView {
        BuffersView { buffers: self.buffers@.map_values(|b: Buffer| b@), next_id: self.next_id }
    }
}

impl BufferManager {
    pub open(crate) spec fn wf(&self) -> bool {
        self@.wf()
    }

    pub fn new() -> (manager: BufferManager)
        ensures
            manager.wf(),
            manager@ == (BuffersView { buffers: Seq::empty(), next_id: 1 }),
    {
        let manager = BufferManager { next_id: 1, buffers: Vec::new() };
        assert(manager@.buffers =~= Seq::<BufferView>::empty());
        manager
    }

    pub fn buffers_len(&self) -> (n: usize)
        ensures
            n == self@.buffers.len(),
    {
        self.buffers.len()
    }

    /// The place of the buffer `id`, or the number of buffers.
    pub fn index_of(&self, id: BufferId) -> (i: usize)
        ensures
            i == buffer_index(self@.buffers, id, 0),
            i <= self@.buffers.len(),
            i < self@.buffers.len() ==> self@.buffers[i as int].id == id,
    {
        let mut i: usize = 0;
        while i < self.buffers.len()
            invariant
                i <= self.buffers.len(),
                buffer_index(self@.buffers, id, i as int) == buffer_index(self@.buffers, id, 0),
            decreases self.buffers.len() - i,
        {
            assert(self@.buffers[i as int] == self.buffers@[i as int]@);
            if self.buffers[i].id == id {
                return i;
            }
            i = i + 1;
        }
        i
    }

    pub fn get_buffer(&self, id: BufferId) -> (buffer: Option<&Buffer>)
        ensures
            match buffer {
                Some(b) => self@.has(id) && b@ == self@.get(id),
                None => !self@.has(id),
            },
    {
        let i = self.index_of(id);
        if i < self.buffers.len() {
            assert(self@.buffers[i as int] == self.buffers@[i as int]@);
            Some(&self.buffers[i])
        } else {
            None
        }
    }

    pub fn get_buffer_mut(&mut self, id: BufferId) -> (buffer: Option<&mut Buffer>)
        ensures
            match buffer {
                Some(b) => old(self)@.has(id) && b@ == old(self)@.get(id) && final(self)@ == (
                BuffersView {
                    buffers: old(self)@.buffers.update(
                        buffer_index(old(self)@.buffers, id, 0),
                        final(b)@,
                    ),
                    ..old(self)@
                }),
                None => !old(self)@.has(id) && final(self)@ == old(self)@,
            },
    {
        let i = self.index_of(id);
        if i < self.buffers.len() {
            assert(self@.buffers[i as int] == self.buffers@[i as int]@);
            Some(&mut self.buffers[i])
        } else {
            None
        }
    }

    /// The buffers, in the order of their identities.
    pub fn get_buffers(&self) -> (buffers: Vec<&Buffer>)
        ensures
            buffers.len() == self@.buffers.len(),
            forall|i: int| 0 <= i < buffers.len() ==> (#[trigger] buffers[i])@ == self@.buffers[i],
    {
        let mut out: Vec<&Buffer> = Vec::new();
        let mut i: usize = 0;
        while i < self.buffers.len()
            invariant
                i <= self.buffers.len(),
                out.len() == i,
                forall|k: int| 0 <= k < i ==> (#[trigger] out[k])@ == self@.buffers[k],
            decreases self.buffers.len() - i,
        {
            assert(self@.buffers[i as int] == self.buffers@[i as int]@);
            out.push(&self.buffers[i]);
            i = i + 1;
        }
        out
    }

    /// Copies of the buffers, in the order of their identities.
    pub fn get_buffers_cloned(&self) -> (buffers: Vec<Buffer>)
        ensures
            buffers@.map_values(|b: Buffer| b@) == self@.buffers,
    {
        let mut out: Vec<Buffer> = Vec::new();
        let mut i: usize = 0;
        while i < self.buffers.len()
            invariant
                i <= self.buffers.len(),
                out.len() == i,
                forall|k: int| 0 <= k < i ==> (#[trigger] out[k])@ == self@.buffers[k],
            decreases self.buffers.len() - i,
        {
            assert(self@.buffers[i as int] == self.buffers@[i as int]@);
            out.push(self.buffers[i].duplicate());
            i = i + 1;
        }
        assert(out@.map_values(|b: Buffer| b@) =~= self@.buffers);
        out
    }

    /// The identities of the buffers, in order.
    pub fn get_buffer_ids(&self) -> (ids: Vec<BufferId>)
        ensures
            ids.len() == self@.buffers.len(),
            forall|i: int| 0 <= i < ids.len() ==> (#[trigger] ids[i]) == self@.buffers[i].id,
    {
        let mut out: Vec<BufferId> = Vec::new();
        let mut i: usize = 0;
        while i < self.buffers.len()
            invariant
                i <= self.buffers.len(),
                out.len() == i,
                forall|k: int| 0 <= k < i ==> (#[trigger] out[k]) == self@.buffers[k].id,
            decreases self.buffers.len() - i,
        {
            assert(self@.buffers[i as int] == self.buffers@[i as int]@);
            out.push(self.buffers[i].id);
            i = i + 1;
        }
        out
    }

    /// The buffer that was made first among those that remain.
    pub fn get_first_buffer(&self) -> (buffer: Option<&Buffer>)
        ensures
            match buffer {
                Some(b) => self@.buffers.len() > 0 && b@ == self@.buffers[0],
                None => self@.buffers.len() == 0,
            },
    {
        if self.buffers.len() > 0 {
            assert(self@.buffers[0] == self.buffers@[0]@);
            Some(&self.buffers[0])
        } else {
            None
        }
    }

    /// Whether another buffer can be made.
    pub fn has_free_id(&self) -> (free: bool)
        ensures
            free == (self@.next_id < u64::MAX),
    {
        self.next_id < u64::MAX
    }

    pub fn create_empty_buffer(&mut self, name: &str) -> (id: BufferId)
        requires
            old(self).wf(),
            old(self)@.next_id < u64::MAX,
        ensures
            final(self).wf(),
            final(self)@ == old(self)@.create(name@, Seq::empty(), None),
            id == BufferId(old(self)@.next_id),
    {
        proof {
            reveal_strlit("");
            assert(""@ =~= Seq::<char>::empty());
        }
        self.create_buffer_from(name, "", None)
    }

    pub fn create_buffer_from(&mut self, name: &str, text: &str, file_path: Option<String>) -> (id:
        BufferId)
        requires
            old(self).wf(),
            old(self)@.next_id < u64::MAX,
        ensures
            final(self).wf(),
            final(self)@ == old(self)@.create(name@, text@, path_view(file_path)),
            id == BufferId(old(self)@.next_id),
    {
        let id = BufferId(self.next_id);
        self.next_id = self.next_id + 1;
        let buf = Buffer::from(id, name, text, file_path);
        self.buffers.push(buf);
        proof {
            let before = old(self)@;
            let after = self@;
            assert(after.buffers =~= before.create(name@, text@, path_view(file_path)).buffers);
            assert forall|i: int, j: int| 0 <= i < j < after.buffers.len() implies (
            #[trigger] after.buffers[i]).id != (#[trigger] after.buffers[j]).id by {
                assert(after.buffers[i] == before.buffers[i]);
                if j < before.buffers.len() {
                    assert(after.buffers[j] == before.buffers[j]);
                }
            }
            assert forall|i: int| 0 <= i < after.buffers.len() implies (
            #[trigger] after.buffers[i]).id.0 < after.next_id by {
                if i < before.buffers.len() {
                    assert(after.buffers[i] == before.buffers[i]);
                }
            }
            assert forall|i: int| 0 <= i < after.buffers.len() implies (
            #[trigger] after.buffers[i]).history.wf() by {
                if i < before.buffers.len() {
                    assert(after.buffers[i] == before.buffers[i]);
                } else {
                    crate::undotree::lemma_empty_tree_wf();
                }
            }
        }
        id
    }

    pub fn kill_buffer(&mut self, id: BufferId)
        requires
            old(self).wf(),
        ensures
            final(self).wf(),
            final(self)@ == old(self)@.kill(id),
    {
        let i = self.index_of(id);
        if i < self.buffers.len() {
            self.buffers.remove(i);
            proof {
                let before = old(self)@;
                let after = self@;
                assert(after.buffers =~= before.buffers.remove(i as int));
                assert forall|a: int, b: int| 0 <= a < b < after.buffers.len() implies (
                #[trigger] after.buffers[a]).id != (#[trigger] after.buffers[b]).id by {
                    let a0 = if a < i { a } else { a + 1 };
                    let b0 = if b < i { b } else { b + 1 };
                    assert(after.buffers[a] == before.buffers[a0]);
                    assert(after.buffers[b] == before.buffers[b0]);
                }
                assert forall|a: int| 0 <= a < after.buffers.len() implies (
                #[trigger] after.buffers[a]).id.0 < after.next_id && after.buffers[a].history.wf() by {
                    let a0 = if a < i { a } else { a + 1 };
                    assert(after.buffers[a] == before.buffers[a0]);
                }
            }
        }
    }
}

} // verus!

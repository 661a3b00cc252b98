//! The picker: a prompt, a line of input and a list of candidates, one of
//! which has the focus.

use crate::buffer::{sat_add, sat_sub, BufferId};
use crate::parse::chars_of;
use crate::project::ProjectId;
use crate::strings::lowercase_of;
use vstd::prelude::*;

verus! {

/// The number of candidates that are shown at a time.
pub const MAX_SHOWN: usize = 10;

/// The number of candidates kept between the focus and the edge of the list.
pub const FOCUS_MARGIN: usize = 1;

/// What a user can pick.
#[derive(Debug, Clone)]
pub enum PickerItem {
    Path(String),
    Command(String),
    Buffer { id: BufferId, name: String },
    Project { project: ProjectId, name: String },
}

/// What a [`PickerItem`] stands for.
#[verifier::ext_equal]
pub enum ItemView {
    Path(Seq<char>),
    Command(Seq<char>),
    Buffer { id: BufferId, name: Seq<char> },
    Project { project: ProjectId, name: Seq<char> },
}

impl ItemView {
    /// The text by which the item is shown and found.
    pub open spec fn display(self) -> Seq<char> {
        match self {
            ItemView::Path(p) => p,
            ItemView::Command(c) => c,
            ItemView::Buffer { id: _, name } => name,
            ItemView::Project { project: _, name } => name,
        }
    }
}

impl View for PickerItem {
    type V = ItemView;

    open spec fn view(&self) -> ItemView {
        match self {
            PickerItem::Path(p) => ItemView::Path(p@),
            PickerItem::Command(c) => ItemView::Command(c@),
            PickerItem::Buffer { id, name } => ItemView::Buffer { id: *id, name: name@ },
            PickerItem::Project { project, name } => ItemView::Project { project: *project, name: name@ },
        }
    }
}

/// What is shown of a value in the picker.
pub trait MiniBufferDisplay {
    /// The text that is shown.
    spec fn display(&self) -> Seq<char>;

    fn as_display_string(&self) -> (text: String)
        ensures
            text@ == self.display(),
    ;
}

impl MiniBufferDisplay for PickerItem {
    open spec fn display(&self) -> Seq<char> {
        self@.display()
    }

    fn as_display_string(&self) -> (text: String) {
        match self {
            PickerItem::Path(p) => p.clone(),
            PickerItem::Command(c) => c.clone(),
            PickerItem::Buffer { id: _, name } => name.clone(),
            PickerItem::Project { project: _, name } => name.clone(),
        }
    }
}

impl MiniBufferDisplay for String {
    open spec fn display(&self) -> Seq<char> {
        self@
    }

    fn as_display_string(&self) -> (text: String) {
        self.clone()
    }
}

impl PickerItem {
    /// A copy of the item.
    pub fn duplicate(&self) -> (copy: PickerItem)
        ensures
            copy@ == self@,
    {
        match self {
            PickerItem::Path(p) => PickerItem::Path(p.clone()),
            PickerItem::Command(c) => PickerItem::Command(c.clone()),
            PickerItem::Buffer { id, name } => PickerItem::Buffer { id: *id, name: name.clone() },
            PickerItem::Project { project, name } => PickerItem::Project {
                project: *project,
                name: name.clone(),
            },
        }
    }
}

/// What picking an item leads to.
#[derive(Debug, Clone, Copy, PartialEq, Eq, Structural)]
pub enum PickerKind {
    /// A directory is entered, a file is opened.
    OpenFile,
    /// A file is opened.
    FindFile,
    /// A command is run.
    FindCommand,
    /// A buffer gets the focus.
    FindBuffer,
    /// A project becomes current.
    OpenProject,
}

/// What the accepted item asked for.
#[derive(Debug, Clone, Copy, PartialEq, Eq, Structural)]
pub enum MinibufferCallbackResult {
    /// The list of candidates was replaced, and the picker stays.
    NewItems,
    /// The pick was carried out, and the picker is done.
    Executed,
}

/// The views of a list of items.
pub open spec fn item_views(items: Seq<PickerItem>) -> Seq<ItemView> {
    items.map_values(|i: PickerItem| i@)
}

/// A copy of a list of items.
pub fn duplicate_items(items: &Vec<PickerItem>) -> (copy: Vec<PickerItem>)
    ensures
        item_views(copy@) == item_views(items@),
{
    let mut copy: Vec<PickerItem> = Vec::new();
    let mut i: usize = 0;
    while i < items.len()
        invariant
            i <= items.len(),
            copy.len() == i,
            forall|k: int| 0 <= k < i ==> copy[k]@ == items[k]@,
        decreases items.len() - i,
    {
        copy.push(items[i].duplicate());
        i = i + 1;
    }
    assert(item_views(copy@) =~= item_views(items@));
    copy
}

/// `needle` occurs in `hay` as a run of characters.
pub open spec fn occurs_in(needle: Seq<char>, hay: Seq<char>) -> bool {
    exists|i: int| 0 <= i <= hay.len() - needle.len() && #[trigger] hay.subrange(i, i + needle.len()) == needle
}

/// Whether `needle` occurs in `hay` as a run of characters.
pub fn contains_run(hay: &Vec<char>, needle: &Vec<char>) -> (found: bool)
    ensures
        found == occurs_in(needle@, hay@),
{
    if needle.len() > hay.len() {
        return false;
    }
    let last = hay.len() - needle.len();
    let mut i: usize = 0;
    while i <= last
        invariant
            i <= last + 1,
            last == hay.len() - needle.len(),
            forall|k: int| 0 <= k < i ==> #[trigger] hay@.subrange(k, k + needle.len()) != needle@,
        decreases last + 1 - i,
    {
        let mut j: usize = 0;
        while j < needle.len() && hay[i + j] == needle[j]
            invariant
                j <= needle.len(),
                i <= last,
                last == hay.len() - needle.len(),
                forall|k: int| 0 <= k < j ==> hay@[i + k] == needle@[k],
            decreases needle.len() - j,
        {
            j = j + 1;
        }
        if j == needle.len() {
            assert(hay@.subrange(i as int, i + needle.len()) =~= needle@);
            return true;
        }
        assert(hay@.subrange(i as int, i + needle.len())[j as int] != needle@[j as int]);
        i = i + 1;
    }
    false
}

/// The candidates whose text, in lower case, holds `query`, in their order.
pub open spec fn matching(items: Seq<ItemView>, query: Seq<char>) -> Seq<ItemView> {
    items.filter(|item: ItemView| occurs_in(query, lowercase_of(item.display())))
}

/// The place of the focus after it moved by `delta` in a list of `len`
/// candidates, going round at either end.
pub open spec fn focus_after(index: usize, delta: isize, len: usize) -> usize {
    ((index + delta) % (len as int)) as usize
}

/// The first candidate shown once the focus is at `index`: the window of
/// shown candidates follows the focus, keeps a margin around it, and stays
/// inside the list.
pub open spec fn window_after(offset: usize, index: usize, len: usize) -> usize {
    if len <= MAX_SHOWN {
        offset
    } else {
        let bottom = sat_add(offset, MAX_SHOWN);
        let up = if index < sat_add(offset, FOCUS_MARGIN) {
            sat_sub(index, FOCUS_MARGIN)
        } else {
            offset
        };
        let down = if sat_add(index, FOCUS_MARGIN) >= bottom && bottom < len {
            sat_sub(sat_add(sat_add(index, FOCUS_MARGIN), 1), MAX_SHOWN)
        } else {
            up
        };
        if sat_add(down, MAX_SHOWN) > len {
            sat_sub(len, MAX_SHOWN)
        } else {
            down
        }
    }
}

/// The state of a picker.
#[derive(Debug, Clone)]
pub struct MiniBufferState {
    pub input: String,
    pub prompt: String,
    pub items: Vec<PickerItem>,
    pub base_items: Vec<PickerItem>,
    pub index: usize,
    pub offset: usize,
    pub kind: PickerKind,
}

/// What a [`MiniBufferState`] stands for.
#[verifier::ext_equal]
pub struct PickerView {
    pub input: Seq<char>,
    pub prompt: Seq<char>,
    pub items: Seq<ItemView>,
    pub base_items: Seq<ItemView>,
    pub index: usize,
    pub offset: usize,
    pub kind: PickerKind,
}

impl View for MiniBufferState {
    type V = PickerView;

    open spec fn view(&self) -> PickerView {
        PickerView {
            input: self.input@,
            prompt: self.prompt@,
            items: item_views(self.items@),
            base_items: item_views(self.base_items@),
            index: self.index,
            offset: self.offset,
            kind: self.kind,
        }
    }
}

impl PickerView {
    /// The picker as it is made: all candidates shown, the first one in
    /// focus, nothing typed.
    pub open spec fn fresh(prompt: Seq<char>, items: Seq<ItemView>, kind: PickerKind) -> PickerView {
        PickerView {
            input: Seq::empty(),
            prompt,
            items,
            base_items: items,
            index: 0,
            offset: 0,
            kind,
        }
    }

    /// The focus moved by `delta`.
    pub open spec fn move_focus(self, delta: isize) -> PickerView {
        let index = focus_after(self.index, delta, self.items.len() as usize);
        PickerView {
            index,
            offset: window_after(self.offset, index, self.items.len() as usize),
            ..self
        }
    }

    /// The candidates narrowed to those that hold the input, whatever the
    /// case; all of them for an empty input. The focus goes to the first.
    pub open spec fn filter_items(self) -> PickerView {
        PickerView {
            items: if self.input.len() == 0 {
                self.base_items
            } else {
                matching(self.base_items, lowercase_of(self.input))
            },
            index: 0,
            offset: 0,
            ..self
        }
    }

    /// The candidate in focus.
    pub open spec fn focused(self) -> Option<ItemView> {
        if self.index < self.items.len() {
            Some(self.items[self.index as int])
        } else {
            None
        }
    }

    /// The picker with another list of candidates, the first one in focus.
    pub open spec fn with_items(self, items: Seq<ItemView>) -> PickerView {
        PickerView { items, index: 0, ..self }
    }
}

impl MiniBufferState {
    pub fn new(prompt: String, items: Vec<PickerItem>, kind: PickerKind) -> (state: MiniBufferState)
        ensures
            state@ == PickerView::fresh(prompt@, item_views(items@), kind),
    {
        let base_items = duplicate_items(&items);
        MiniBufferState {
            input: String::new(),
            prompt,
            items,
            base_items,
            index: 0,
            offset: 0,
            kind,
        }
    }
}

/// A picker.
#[derive(Debug, Clone)]
pub struct MiniBuffer {
    pub state: MiniBufferState,
}

impl View for MiniBuffer {
    type V = PickerView;

    open spec fn view(&self) -> PickerView {
        self.state@
    }
}

impl MiniBuffer {
    pub fn new(prompt: &str, items: Vec<PickerItem>, kind: PickerKind) -> (picker: MiniBuffer)
        ensures
            picker@ == PickerView::fresh(prompt@, item_views(items@), kind),
    {
        MiniBuffer { state: MiniBufferState::new(String::from_str(prompt), items, kind) }
    }

    /// The texts of the candidates, in order.
    pub fn render_candidates(&self) -> (texts: Vec<String>)
        ensures
            texts.len() == self@.items.len(),
            forall|i: int| 0 <= i < texts.len() ==> (#[trigger] texts[i])@ == self@.items[i].display(),
    {
        let mut texts: Vec<String> = Vec::new();
        let mut i: usize = 0;
        while i < self.state.items.len()
            invariant
                i <= self.state.items.len(),
                texts.len() == i,
                forall|k: int| 0 <= k < i ==> (#[trigger] texts[k])@ == self@.items[k].display(),
            decreases self.state.items.len() - i,
        {
            texts.push(self.state.items[i].as_display_string());
            i = i + 1;
        }
        texts
    }

    /// Moves the focus by `delta` candidates, going round at either end, and
    /// lets the shown window follow.
    pub fn move_focus(&mut self, delta: isize)
        requires
            old(self)@.items.len() > 0,
        ensures
            final(self)@ == old(self)@.move_focus(delta),
    {
        let len = self.state.items.len();
        let sum: i128 = self.state.index as i128 + delta as i128;
        let new_index: usize = if sum >= 0 {
            ((sum as u128) % (len as u128)) as usize
        } else {
            let back = ((-sum) as u128) % (len as u128);
            proof {
                lemma_negative_remainder(-(sum as int), len as int);
            }
            if back == 0 {
                0
            } else {
                len - (back as usize)
            }
        };
        self.state.index = new_index;
        if len <= MAX_SHOWN {
            return ;
        }
        let bottom = self.state.offset.saturating_add(MAX_SHOWN);
        if new_index < self.state.offset.saturating_add(FOCUS_MARGIN) {
            self.state.offset = new_index.saturating_sub(FOCUS_MARGIN);
        }
        if new_index.saturating_add(FOCUS_MARGIN) >= bottom && bottom < len {
            self.state.offset = new_index.saturating_add(FOCUS_MARGIN).saturating_add(
                1,
            ).saturating_sub(MAX_SHOWN);
        }
        if self.state.offset.saturating_add(MAX_SHOWN) > len {
            self.state.offset = len.saturating_sub(MAX_SHOWN);
        }
    }

    pub fn prompt(&self) -> (prompt: &str)
        ensures
            prompt@ == self@.prompt,
    {
        self.state.prompt.as_str()
    }

    pub fn input(&self) -> (input: &String)
        ensures
            input@ == self@.input,
    {
        &self.state.input
    }

    pub fn index(&self) -> (index: usize)
        ensures
            index == self@.index,
    {
        self.state.index
    }

    pub fn offset(&self) -> (offset: usize)
        ensures
            offset == self@.offset,
    {
        self.state.offset
    }

    pub fn len(&self) -> (n: usize)
        ensures
            n == self@.items.len(),
    {
        self.state.items.len()
    }

    /// The candidate in focus.
    pub fn focused(&self) -> (item: Option<PickerItem>)
        ensures
            match item {
                Some(i) => self@.focused() == Some(i@),
                None => self@.focused() is None,
            },
    {
        if self.state.index < self.state.items.len() {
            Some(self.state.items[self.state.index].duplicate())
        } else {
            None
        }
    }

    /// Replaces the candidates and puts the focus on the first.
    pub fn set_items(&mut self, items: Vec<PickerItem>)
        ensures
            final(self)@ == old(self)@.with_items(item_views(items@)),
    {
        self.state.items = items;
        self.state.index = 0;
    }

    /// Narrows the candidates to those that hold the input.
    pub fn filter_items(&mut self)
        ensures
            final(self)@ == old(self)@.filter_items(),
    {
        if self.state.input.as_str().unicode_len() == 0 {
            self.state.items = duplicate_items(&self.state.base_items);
        } else {
            let query = chars_of(self.state.input.as_str().to_lowercase().as_str());
            let mut kept: Vec<PickerItem> = Vec::new();
            let ghost base = item_views(self.state.base_items@);
            let ghost keep = |item: ItemView| occurs_in(query@, lowercase_of(item.display()));
            let mut i: usize = 0;
            assert(base.take(0) =~= Seq::<ItemView>::empty());
            while i < self.state.base_items.len()
                invariant
                    i <= self.state.base_items.len(),
                    base == item_views(self.state.base_items@),
                    keep == |item: ItemView| occurs_in(query@, lowercase_of(item.display())),
                    item_views(kept@) == base.take(i as int).filter(keep),
                decreases self.state.base_items.len() - i,
            {
                let text = chars_of(
                    self.state.base_items[i].as_display_string().as_str().to_lowercase().as_str(),
                );
                let item = self.state.base_items[i].duplicate();
                proof {
                    assert(base.take(i + 1) =~= base.take(i as int).push(base[i as int]));
                    lemma_filter_push(base.take(i as int), base[i as int], keep);
                }
                if contains_run(&text, &query) {
                    let ghost before = kept@;
                    kept.push(item);
                    assert(item_views(kept@) =~= item_views(before).push(base[i as int]));
                }
                i = i + 1;
            }
            assert(base.take(base.len() as int) =~= base);
            self.state.items = kept;
        }
        self.state.index = 0;
        self.state.offset = 0;
    }
}

/// What remains of a negative number: the divisor less what remains of the
/// number without its sign, and 0 where nothing remains of that.
pub proof fn lemma_negative_remainder(k: int, n: int)
    requires
        k > 0,
        n > 0,
    ensures
        (-k) % n == if k % n == 0 {
            0
        } else {
            n - k % n
        },
{
    let q = k / n;
    let r = k % n;
    vstd::arithmetic::div_mod::lemma_fundamental_div_mod(k, n);
    vstd::arithmetic::div_mod::lemma_mod_bound(k, n);
    if r == 0 {
        assert(-k == (-q) * n + 0) by (nonlinear_arith)
            requires
                k == n * q + r,
                r == 0,
        ;
        vstd::arithmetic::div_mod::lemma_fundamental_div_mod_converse(-k, n, -q, 0);
    } else {
        assert(-k == (-q - 1) * n + (n - r)) by (nonlinear_arith)
            requires
                k == n * q + r,
        ;
        vstd::arithmetic::div_mod::lemma_fundamental_div_mod_converse(-k, n, -q - 1, n - r);
    }
}

/// Filtering a list with one more item at its end keeps or drops that item
/// and leaves the rest as it was.
pub proof fn lemma_filter_push<A>(s: Seq<A>, a: A, keep: spec_fn(A) -> bool)
    ensures
        s.push(a).filter(keep) == if keep(a) {
            s.filter(keep).push(a)
        } else {
            s.filter(keep)
        },
{
    reveal(Seq::filter);
    assert(s.push(a).drop_last() =~= s);
}

/// The picker that is open, if one is.
#[derive(Debug, Clone)]
pub struct MiniBufferManager {
    pub current: Option<MiniBuffer>,
}

/// The view of the picker that is open.
pub open spec fn picker_view(current: Option<MiniBuffer>) -> Option<PickerView> {
    match current {
        Some(m) => Some(m@),
        None => None,
    }
}

impl View for MiniBufferManager {
    type V = Option<PickerView>;

    open spec fn view(&self) -> Option<PickerView> {
        picker_view(self.current)
    }
}

impl MiniBufferManager {
    pub fn new() -> (manager: MiniBufferManager)
        ensures
            manager@ is None,
    {
        MiniBufferManager { current: None }
    }

    pub fn activate(&mut self, minibuffer: MiniBuffer)
        ensures
            final(self)@ == Some(minibuffer@),
    {
        self.current = Some(minibuffer);
    }

    pub fn deactivate(&mut self)
        ensures
            final(self)@ is None,
    {
        self.current = None;
    }

    pub fn active(&self) -> (b: bool)
        ensures
            b == (self@ is Some),
    {
        self.current.is_some()
    }
}

} // verus!

use benihime::undotree::{Edit, UndoEntry, UndoTree};

fn insert(at: usize, text: &str) -> Edit {
    Edit::Insert { at, text: text.to_string() }
}

fn text_of(entry: &UndoEntry) -> Vec<String> {
    match entry {
        UndoEntry::Single(Edit::Insert { text, .. }) => vec![text.clone()],
        UndoEntry::Single(Edit::Delete { text, .. }) => vec![format!("-{}", text)],
        UndoEntry::Group(edits) => edits
            .iter()
            .map(|e| match e {
                Edit::Insert { text, .. } => text.clone(),
                Edit::Delete { text, .. } => format!("-{}", text),
            })
            .collect(),
    }
}

#[test]
fn new_tree_has_nothing_to_undo_or_redo() {
    let mut tree = UndoTree::new();
    assert!(tree.undo().is_none());
    assert!(tree.redo().is_none());
    assert!(!tree.is_grouping());
}

#[test]
fn record_outside_a_group_makes_single_units() {
    let mut tree = UndoTree::new();
    tree.record(insert(0, "a"));
    tree.record(Edit::Delete { at: 0, text: "b".to_string() });
    assert_eq!(text_of(&tree.undo().unwrap()), vec!["-b"]);
    assert_eq!(text_of(&tree.undo().unwrap()), vec!["a"]);
    assert!(tree.undo().is_none());
    assert_eq!(text_of(&tree.redo().unwrap()), vec!["a"]);
    assert_eq!(text_of(&tree.redo().unwrap()), vec!["-b"]);
    assert!(tree.redo().is_none());
}

#[test]
fn grouped_edits_commit_as_one_unit() {
    let mut tree = UndoTree::new();
    tree.begin_group();
    assert!(tree.is_grouping());
    tree.record(insert(0, "a"));
    tree.record(insert(1, "b"));
    tree.record(insert(2, "c"));
    tree.commit_group();
    assert!(!tree.is_grouping());
    let entry = tree.undo().unwrap();
    assert!(matches!(entry, UndoEntry::Group(_)));
    assert_eq!(text_of(&entry), vec!["a", "b", "c"]);
    assert!(tree.undo().is_none());
}

#[test]
fn group_of_one_edit_commits_as_single() {
    let mut tree = UndoTree::new();
    tree.begin_group();
    tree.record(insert(0, "a"));
    tree.commit_group();
    assert!(matches!(tree.undo().unwrap(), UndoEntry::Single(_)));
}

#[test]
fn empty_group_commits_nothing() {
    let mut tree = UndoTree::new();
    tree.begin_group();
    tree.commit_group();
    assert!(tree.undo().is_none());
}

#[test]
fn undo_flushes_a_pending_group() {
    let mut tree = UndoTree::new();
    tree.begin_group();
    tree.record(insert(0, "a"));
    tree.record(insert(1, "b"));
    assert_eq!(text_of(&tree.undo().unwrap()), vec!["a", "b"]);
    assert!(tree.is_grouping());
}

#[test]
fn push_node_branches_and_repoints_the_active_child() {
    let mut tree = UndoTree::new();
    tree.push_node(UndoEntry::Single(insert(0, "old")));
    tree.undo();
    tree.push_node(UndoEntry::Single(insert(0, "new")));
    assert!(tree.redo().is_none());
    tree.undo();
    assert_eq!(text_of(&tree.redo().unwrap()), vec!["new"]);
}

#[test]
fn duplicate_copies_an_edit() {
    let e = Edit::Delete { at: 4, text: "xyz".to_string() };
    match e.duplicate() {
        Edit::Delete { at, text } => {
            assert_eq!(at, 4);
            assert_eq!(text, "xyz");
        }
        _ => panic!("wrong variant"),
    }
}

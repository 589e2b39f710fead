use tokio_graceful_shutdown::errors::SubsystemErrorKind;
use tokio_graceful_shutdown::subsystem::ErrorActions;
use tokio_graceful_shutdown::utils::joiner_token::{ErrorPolicy, JoinerTree};
use tokio_graceful_shutdown::utils::remote_drop_collection::RemotelyDroppableItems;
use tokio_graceful_shutdown::ErrorAction;

const ALL: ErrorPolicy = ErrorPolicy::CatchAll;

#[test]
fn counters() {
    let mut tree = JoinerTree::new();
    let root = tree.new_token(ALL);
    assert_eq!(0, tree.count(root));

    let child1 = tree.child_token(root, ALL);
    assert_eq!(1, tree.count(root));
    assert_eq!(0, tree.count(child1));

    let child2 = tree.child_token(child1, ALL);
    assert_eq!(2, tree.count(root));
    assert_eq!(1, tree.count(child1));
    assert_eq!(0, tree.count(child2));

    let child3 = tree.child_token(child1, ALL);
    assert_eq!(3, tree.count(root));
    assert_eq!(2, tree.count(child1));
    assert_eq!(0, tree.count(child2));
    assert_eq!(0, tree.count(child3));

    tree.drop_token(child1);
    assert_eq!(2, tree.count(root));
    assert_eq!(0, tree.count(child2));
    assert_eq!(0, tree.count(child3));

    tree.drop_token(child2);
    assert_eq!(1, tree.count(root));
    assert_eq!(0, tree.count(child3));

    tree.drop_token(child3);
    assert_eq!(0, tree.count(root));
}

fn check(tree: &JoinerTree, token: usize, count: usize, alive: bool, recursive_alive: bool) {
    assert_eq!(count, tree.count(token));
    assert_eq!(alive, tree.alive(token));
    assert_eq!(recursive_alive, tree.recursive_alive(token));
    assert_eq!(!recursive_alive, tree.is_joined(token));
}

#[test]
fn counters_weak() {
    let mut tree = JoinerTree::new();
    let root = tree.new_token(ALL);
    check(&tree, root, 0, true, true);

    let child1 = tree.child_token(root, ALL);
    // root
    //   \
    //   child1
    check(&tree, root, 1, true, true);
    check(&tree, child1, 0, true, true);

    let child2 = tree.child_token(child1, ALL);
    // root
    //   \
    //   child1
    //     \
    //     child2
    check(&tree, root, 2, true, true);
    check(&tree, child1, 1, true, true);
    check(&tree, child2, 0, true, true);

    let child3 = tree.child_token(child1, ALL);
    //    root
    //      \
    //      child1
    //      /   \
    // child2    child3
    check(&tree, root, 3, true, true);
    check(&tree, child1, 2, true, true);
    check(&tree, child2, 0, true, true);
    check(&tree, child3, 0, true, true);

    tree.drop_token(child1);
    //    root
    //      \
    //      child1 (X)
    //      /   \
    // child2    child3
    check(&tree, root, 2, true, true);
    check(&tree, child1, 2, false, true);
    check(&tree, child2, 0, true, true);
    check(&tree, child3, 0, true, true);

    tree.drop_token(child2);
    //    root
    //      \
    //      child1 (X)
    //      /       \
    // child2 (X)    child3
    check(&tree, root, 1, true, true);
    check(&tree, child1, 1, false, true);
    check(&tree, child2, 0, false, false);
    check(&tree, child3, 0, true, true);

    tree.drop_token(child3);
    //    root
    //      \
    //      child1 (X)
    //      /       \
    // child2 (X)    child3 (X)
    check(&tree, root, 0, true, true);
    check(&tree, child1, 0, false, false);
    check(&tree, child2, 0, false, false);
    check(&tree, child3, 0, false, false);

    tree.drop_token(root);
    //    root (X)
    //      \
    //      child1 (X)
    //      /       \
    // child2 (X)    child3 (X)
    check(&tree, root, 0, false, false);
    check(&tree, child1, 0, false, false);
    check(&tree, child2, 0, false, false);
    check(&tree, child3, 0, false, false);
}

#[test]
fn join_children_after_all_dropped() {
    let mut tree = JoinerTree::new();
    let superroot = tree.new_token(ALL);
    let root = tree.child_token(superroot, ALL);
    let child1 = tree.child_token(root, ALL);
    let child2 = tree.child_token(child1, ALL);
    let child3 = tree.child_token(child1, ALL);

    assert!(!tree.children_joined(root));
    tree.drop_token(child1);
    assert!(!tree.children_joined(root));
    tree.drop_token(child2);
    assert!(!tree.children_joined(root));
    tree.drop_token(child3);
    assert!(tree.children_joined(root));
    assert_eq!(tree.count(root), 0);
}

#[test]
fn join_through_ref_waits_for_token_and_children() {
    let mut tree = JoinerTree::new();
    let root = tree.new_token(ALL);
    let child1 = tree.child_token(root, ALL);
    let child2 = tree.child_token(child1, ALL);

    tree.drop_token(child1);
    assert!(!tree.is_joined(root));
    tree.drop_token(root);
    assert!(!tree.is_joined(root));
    tree.drop_token(child2);
    assert!(tree.is_joined(root));
}

#[test]
fn child_then_drop_restores_counts() {
    let mut tree = JoinerTree::new();
    let root = tree.new_token(ALL);
    let a = tree.child_token(root, ALL);
    let before = (tree.count(root), tree.count(a));
    let b = tree.child_token(a, ALL);
    assert_eq!((tree.count(root), tree.count(a)), (before.0 + 1, before.1 + 1));
    tree.drop_token(b);
    assert_eq!((tree.count(root), tree.count(a)), before);
}

#[test]
fn debug_print() {
    let mut tree = JoinerTree::new();
    let root = tree.new_token(ALL);
    assert_eq!(tree.debug_token(root), "JoinerToken(children = 0)");

    let child1 = tree.child_token(root, ALL);
    assert_eq!(tree.debug_token(root), "JoinerToken(children = 1)");

    let _child2 = tree.child_token(child1, ALL);
    assert_eq!(tree.debug_token(root), "JoinerToken(children = 2)");
}

#[test]
fn debug_print_ref() {
    let mut tree = JoinerTree::new();
    let root = tree.new_token(ALL);
    assert_eq!(
        tree.debug_token_ref(root),
        "JoinerTokenRef(alive = true, children = 0)"
    );

    let child1 = tree.child_token(root, ALL);
    assert_eq!(
        tree.debug_token_ref(root),
        "JoinerTokenRef(alive = true, children = 1)"
    );

    tree.drop_token(root);
    assert_eq!(
        tree.debug_token_ref(root),
        "JoinerTokenRef(alive = false, children = 1)"
    );

    tree.drop_token(child1);
    assert_eq!(
        tree.debug_token_ref(root),
        "JoinerTokenRef(alive = false, children = 0)"
    );
}

#[test]
fn debug_print_large_count() {
    let mut tree = JoinerTree::new();
    let root = tree.new_token(ALL);
    for _ in 0..1234 {
        tree.child_token(root, ALL);
    }
    assert_eq!(tree.debug_token(root), "JoinerToken(children = 1234)");
}

fn actions(on_failure: ErrorAction, on_panic: ErrorAction) -> ErrorPolicy {
    ErrorPolicy::Actions(ErrorActions {
        on_failure,
        on_panic,
    })
}

#[test]
fn errors_travel_up_to_the_first_catching_token() {
    let mut tree = JoinerTree::new();
    let root = tree.new_token(ALL);
    let top = tree.child_token(root, actions(ErrorAction::Forward, ErrorAction::Forward));
    let catching = tree.child_token(top, actions(ErrorAction::CatchAndLocalShutdown, ErrorAction::Forward));
    let leaf = tree.child_token(catching, actions(ErrorAction::Forward, ErrorAction::Forward));

    assert_eq!(tree.raise_failure(leaf, SubsystemErrorKind::Failed), Some(catching));
    assert_eq!(tree.raise_failure(leaf, SubsystemErrorKind::Cancelled), Some(catching));
    assert_eq!(tree.raise_failure(leaf, SubsystemErrorKind::Panicked), Some(root));
    assert_eq!(tree.raise_failure(top, SubsystemErrorKind::Failed), Some(root));

    // Changing the policy of the leaf makes it catch its own panics.
    tree.set_policy(leaf, actions(ErrorAction::Forward, ErrorAction::CatchAndLocalShutdown));
    assert_eq!(tree.raise_failure(leaf, SubsystemErrorKind::Panicked), Some(leaf));
    assert_eq!(tree.policy(leaf), actions(ErrorAction::Forward, ErrorAction::CatchAndLocalShutdown));

    // Without a catching root, an error may stay uncaught.
    let lone = tree.new_token(actions(ErrorAction::Forward, ErrorAction::Forward));
    assert_eq!(tree.raise_failure(lone, SubsystemErrorKind::Failed), None);
}

fn drop_removed(tree: &mut JoinerTree, removed: Option<usize>) {
    if let Some(token) = removed {
        tree.drop_token(token);
    }
}

#[test]
fn single_item() {
    let mut tree = JoinerTree::new();
    let mut items = RemotelyDroppableItems::new(0);

    let count1 = tree.new_token(ALL);
    assert_eq!(0, tree.count(count1));

    let child = tree.child_token(count1, ALL);
    let token1 = items.insert(child);
    assert_eq!(1, tree.count(count1));

    let removed = items.remove(token1);
    drop_removed(&mut tree, removed);
    assert_eq!(0, tree.count(count1));
}

#[test]
fn insert_and_drop() {
    let mut tree = JoinerTree::new();
    let mut items = RemotelyDroppableItems::new(0);

    let count1 = tree.new_token(ALL);
    let count2 = tree.new_token(ALL);

    assert_eq!(0, tree.count(count1));
    assert_eq!(0, tree.count(count2));

    let child = tree.child_token(count1, ALL);
    let _token1 = items.insert(child);
    assert_eq!(1, tree.count(count1));
    assert_eq!(0, tree.count(count2));

    let child = tree.child_token(count2, ALL);
    let _token2 = items.insert(child);
    assert_eq!(1, tree.count(count1));
    assert_eq!(1, tree.count(count2));

    for child in items.into_items() {
        tree.drop_token(child);
    }
    assert_eq!(0, tree.count(count1));
    assert_eq!(0, tree.count(count2));
}

#[test]
fn drop_token() {
    let mut tree = JoinerTree::new();
    let mut items = RemotelyDroppableItems::new(0);

    let count1 = tree.new_token(ALL);
    let count2 = tree.new_token(ALL);
    let count3 = tree.new_token(ALL);
    let count4 = tree.new_token(ALL);

    let c = tree.child_token(count1, ALL);
    let token1 = items.insert(c);
    let c = tree.child_token(count2, ALL);
    let token2 = items.insert(c);
    let c = tree.child_token(count3, ALL);
    let token3 = items.insert(c);
    let c = tree.child_token(count4, ALL);
    let token4 = items.insert(c);
    assert_eq!(1, tree.count(count1));
    assert_eq!(1, tree.count(count2));
    assert_eq!(1, tree.count(count3));
    assert_eq!(1, tree.count(count4));

    // Last item
    let removed = items.remove(token4);
    drop_removed(&mut tree, removed);
    assert_eq!(1, tree.count(count1));
    assert_eq!(1, tree.count(count2));
    assert_eq!(1, tree.count(count3));
    assert_eq!(0, tree.count(count4));

    // Middle item
    let removed = items.remove(token2);
    drop_removed(&mut tree, removed);
    assert_eq!(1, tree.count(count1));
    assert_eq!(0, tree.count(count2));
    assert_eq!(1, tree.count(count3));
    assert_eq!(0, tree.count(count4));

    // First item
    let removed = items.remove(token1);
    drop_removed(&mut tree, removed);
    assert_eq!(0, tree.count(count1));
    assert_eq!(0, tree.count(count2));
    assert_eq!(1, tree.count(count3));
    assert_eq!(0, tree.count(count4));

    // Only item
    let removed = items.remove(token3);
    drop_removed(&mut tree, removed);
    assert_eq!(0, tree.count(count1));
    assert_eq!(0, tree.count(count2));
    assert_eq!(0, tree.count(count3));
    assert_eq!(0, tree.count(count4));
    assert_eq!(items.len(), 0);
}

#[test]
fn remote_drop_returns_each_item_once() {
    let mut items = RemotelyDroppableItems::new(0);
    let a = items.insert("a");
    let b = items.insert("b");
    let c = items.insert("c");
    assert_eq!(items.remove(a), Some("a"));
    assert_eq!(items.len(), 2);
    assert_eq!(items.remove(c), Some("c"));
    assert_eq!(items.remove(b), Some("b"));
    assert_eq!(items.len(), 0);
}

#[test]
fn parents_of_tokens() {
    let mut tree = JoinerTree::new();
    let root = tree.new_token(ALL);
    let child = tree.child_token(root, ALL);
    let grandchild = tree.child_token(child, ALL);
    assert_eq!(tree.len(), 3);
    assert_eq!(tree.parent(root), None);
    assert_eq!(tree.parent(child), Some(root));
    assert_eq!(tree.parent(grandchild), Some(child));
}

#[test]
fn item_survives_other_removals_and_inserts() {
    let mut items = RemotelyDroppableItems::new(0);
    let keep = items.insert("keep");
    let a = items.insert("a");
    let b = items.insert("b");
    assert_eq!(items.remove(a), Some("a"));
    let c = items.insert("c");
    assert_eq!(items.remove(b), Some("b"));
    assert_eq!(items.remove(c), Some("c"));
    assert_eq!(items.len(), 1);
    assert_eq!(items.remove(keep), Some("keep"));
    assert_eq!(items.len(), 0);
}

#[test]
fn token_of_another_collection_removes_nothing() {
    let mut first = RemotelyDroppableItems::new(1);
    let mut second = RemotelyDroppableItems::new(2);
    let token_first = first.insert("first");
    let token_second = second.insert("second");
    assert_eq!(second.remove(token_first), None);
    assert_eq!(second.len(), 1);
    assert_eq!(first.remove(token_second), None);
    assert_eq!(first.len(), 1);
}

//! A model of a directory tree that stands still while it is walked, and
//! the law that the breadth-first walk finds each of its nodes once.

use crate::entity::find::WalkView;
use crate::entity::EntityView;
use vstd::prelude::*;

verus! {

/// A node of a directory tree with all that lies under it: its path, the
/// entity that reading it gives, if it can be read, and its direct children,
/// none for a node that is no directory or cannot be listed.
pub struct Tree {
    pub path: Seq<char>,
    pub entity: Option<EntityView>,
    pub children: Seq<Tree>,
}

/// The paths of a row of nodes, one for one.
pub open spec fn paths_of(row: Seq<Tree>) -> Seq<Seq<char>> {
    row.map_values(|node: Tree| node.path)
}

/// How many nodes a tree has.
pub open spec fn weight(tree: Tree) -> nat
    decreases tree,
{
    1 + total_weight(tree.children)
}

/// How many nodes the trees of a row have together.
pub open spec fn total_weight(row: Seq<Tree>) -> nat
    decreases row,
{
    if row.len() == 0 {
        0
    } else {
        weight(row[0]) + total_weight(row.drop_first())
    }
}

/// The nodes of a tree: the tree's own root, then the nodes of each child.
pub open spec fn nodes(tree: Tree) -> Seq<Tree>
    decreases tree,
{
    seq![tree] + all_nodes(tree.children)
}

/// The nodes of the trees of a row, tree after tree.
pub open spec fn all_nodes(row: Seq<Tree>) -> Seq<Tree>
    decreases row,
{
    if row.len() == 0 {
        Seq::empty()
    } else {
        nodes(row[0]) + all_nodes(row.drop_first())
    }
}

/// The entities of a row of nodes, in the nodes' order; a node that cannot
/// be read brings none.
pub open spec fn entities_of(row: Seq<Tree>) -> Seq<EntityView>
    decreases row.len(),
{
    if row.len() == 0 {
        Seq::empty()
    } else {
        let rest = entities_of(row.drop_first());
        match row[0].entity {
            Some(entity) => seq![entity] + rest,
            None => rest,
        }
    }
}

/// The trees of a row weigh together what the two parts of the row weigh.
pub proof fn lemma_total_weight_splits(a: Seq<Tree>, b: Seq<Tree>)
    ensures
        total_weight(a + b) == total_weight(a) + total_weight(b),
    decreases a.len(),
{
    if a.len() == 0 {
        assert(a + b =~= b);
    } else {
        assert((a + b).drop_first() =~= a.drop_first() + b);
        assert((a + b)[0] == a[0]);
        lemma_total_weight_splits(a.drop_first(), b);
    }
}

/// Once the first node of a queue is met and its children have queued up,
/// the queued trees weigh one node less.
pub proof fn lemma_queue_gets_lighter(queue: Seq<Tree>)
    requires
        queue.len() > 0,
    ensures
        total_weight(queue.drop_first() + queue[0].children) + 1 == total_weight(queue),
{
    lemma_total_weight_splits(queue.drop_first(), queue[0].children);
    assert(total_weight(queue) == weight(queue[0]) + total_weight(queue.drop_first()));
    assert(weight(queue[0]) == 1 + total_weight(queue[0].children));
}

/// The nodes in the order in which a breadth-first walk meets them: the
/// first of the queue, then what the walk meets once that node's children
/// have queued up behind the others.
pub open spec fn breadth_first(queue: Seq<Tree>) -> Seq<Tree>
    decreases total_weight(queue),
    via breadth_first_ends
{
    if queue.len() == 0 {
        Seq::empty()
    } else {
        seq![queue[0]] + breadth_first(queue.drop_first() + queue[0].children)
    }
}

#[via_fn]
proof fn breadth_first_ends(queue: Seq<Tree>) {
    if queue.len() > 0 {
        lemma_queue_gets_lighter(queue);
    }
}

/// Where a walk ends that is driven over the trees of `queue`, when each
/// visit brings what the tree holds for the node visited.
pub open spec fn walked(walk: WalkView, queue: Seq<Tree>) -> WalkView
    decreases total_weight(queue),
    via walked_ends
{
    if queue.len() == 0 {
        walk
    } else {
        walked(
            walk.taken().recorded(queue[0].entity, paths_of(queue[0].children)),
            queue.drop_first() + queue[0].children,
        )
    }
}

#[via_fn]
proof fn walked_ends(walk: WalkView, queue: Seq<Tree>) {
    if queue.len() > 0 {
        lemma_queue_gets_lighter(queue);
    }
}

/// The nodes of a row's trees are those of its two parts, one after the other.
pub proof fn lemma_all_nodes_splits(a: Seq<Tree>, b: Seq<Tree>)
    ensures
        all_nodes(a + b) == all_nodes(a) + all_nodes(b),
    decreases a.len(),
{
    if a.len() == 0 {
        assert(a + b =~= b);
        assert(all_nodes(a) + all_nodes(b) =~= all_nodes(b));
    } else {
        assert((a + b).drop_first() =~= a.drop_first() + b);
        assert((a + b)[0] == a[0]);
        lemma_all_nodes_splits(a.drop_first(), b);
        assert(all_nodes(a + b) =~= all_nodes(a) + all_nodes(b));
    }
}

/// The entities of a row are those of its two parts, one after the other.
pub proof fn lemma_entities_split(a: Seq<Tree>, b: Seq<Tree>)
    ensures
        entities_of(a + b) == entities_of(a) + entities_of(b),
    decreases a.len(),
{
    if a.len() == 0 {
        assert(a + b =~= b);
        assert(entities_of(a) + entities_of(b) =~= entities_of(b));
    } else {
        assert((a + b).drop_first() =~= a.drop_first() + b);
        assert((a + b)[0] == a[0]);
        lemma_entities_split(a.drop_first(), b);
        assert(entities_of(a + b) =~= entities_of(a) + entities_of(b));
    }
}

/// A breadth-first walk meets every node of the queued trees, each as often
/// as the trees hold it: it leaves none out and meets none twice.
pub proof fn lemma_breadth_first_meets_each_node_once(queue: Seq<Tree>)
    ensures
        breadth_first(queue).to_multiset() == all_nodes(queue).to_multiset(),
    decreases total_weight(queue),
{
    if queue.len() > 0 {
        let first = queue[0];
        let rest = queue.drop_first();
        lemma_queue_gets_lighter(queue);
        lemma_breadth_first_meets_each_node_once(rest + first.children);
        lemma_all_nodes_splits(rest, first.children);
        let head = seq![first];
        let below = all_nodes(first.children);
        let beside = all_nodes(rest);
        let later = breadth_first(rest + first.children);
        vstd::seq_lib::lemma_multiset_commutative(head, later);
        vstd::seq_lib::lemma_multiset_commutative(beside, below);
        vstd::seq_lib::lemma_multiset_commutative(head + below, beside);
        vstd::seq_lib::lemma_multiset_commutative(head, below);
        assert(breadth_first(queue) == head + later);
        assert(nodes(first) == head + below);
        assert(all_nodes(queue) == (head + below) + beside);
        assert(later.to_multiset() == beside.to_multiset().add(below.to_multiset()));
        assert((head + later).to_multiset() =~= head.to_multiset().add(
            beside.to_multiset().add(below.to_multiset()),
        ));
        assert(((head + below) + beside).to_multiset() =~= head.to_multiset().add(
            below.to_multiset(),
        ).add(beside.to_multiset()));
        assert(breadth_first(queue).to_multiset() =~= all_nodes(queue).to_multiset());
    }
}

/// A walk whose pending paths are those of the queued trees ends with no
/// path pending, and has then found, after what it had found before, the
/// entities of the nodes in breadth-first order.
pub proof fn lemma_walk_finds_breadth_first(walk: WalkView, queue: Seq<Tree>)
    requires
        walk.pending == paths_of(queue),
    ensures
        walked(walk, queue) == (WalkView {
            pending: Seq::empty(),
            found: walk.found + entities_of(breadth_first(queue)),
            ..walk
        }),
    decreases total_weight(queue),
{
    if queue.len() == 0 {
        assert(walk.pending =~= Seq::empty());
        assert(walk.found + entities_of(breadth_first(queue)) =~= walk.found);
    } else {
        let first = queue[0];
        let rest = queue.drop_first();
        let next = walk.taken().recorded(first.entity, paths_of(first.children));
        lemma_queue_gets_lighter(queue);
        assert(next.pending =~= paths_of(rest + first.children));
        lemma_walk_finds_breadth_first(next, rest + first.children);
        let later = breadth_first(rest + first.children);
        lemma_entities_split(seq![first], later);
        assert(seq![first].drop_first() =~= Seq::<Tree>::empty());
        assert(entities_of(Seq::<Tree>::empty()) =~= Seq::empty());
        assert(seq![first][0] == first);
        assert(entities_of(seq![first]) =~= match first.entity {
            Some(entity) => seq![entity],
            None => Seq::empty(),
        });
        assert(next.found + entities_of(later) =~= walk.found + entities_of(
            breadth_first(queue),
        ));
    }
}

/// The walk of a tree that stands still: started at the tree's root and
/// driven until no path is pending, it has found the entities of the
/// tree's nodes in breadth-first order, and that order holds every node of
/// the tree once.
pub proof fn lemma_walk_finds_the_tree(root: Tree)
    ensures
        walked(
            WalkView { root: root.path, pending: seq![root.path], found: Seq::empty() },
            seq![root],
        ) == (WalkView {
            root: root.path,
            pending: Seq::empty(),
            found: entities_of(breadth_first(seq![root])),
        }),
        breadth_first(seq![root]).to_multiset() == nodes(root).to_multiset(),
        breadth_first(seq![root]).len() == weight(root),
{
    let start = WalkView { root: root.path, pending: seq![root.path], found: Seq::empty() };
    assert(start.pending =~= paths_of(seq![root]));
    lemma_walk_finds_breadth_first(start, seq![root]);
    assert(start.found + entities_of(breadth_first(seq![root])) =~= entities_of(
        breadth_first(seq![root]),
    ));
    lemma_breadth_first_meets_each_node_once(seq![root]);
    assert(seq![root].drop_first() =~= Seq::<Tree>::empty());
    assert(seq![root][0] == root);
    assert(all_nodes(Seq::<Tree>::empty()) =~= Seq::empty());
    assert(all_nodes(seq![root]) =~= nodes(root));
    assert(total_weight(Seq::<Tree>::empty()) == 0);
    assert(total_weight(seq![root]) == weight(root));
    lemma_breadth_first_length(seq![root]);
}

/// Where no two nodes of the tree are the same, the walk meets no node
/// twice.
pub proof fn lemma_walk_meets_no_node_twice(root: Tree)
    requires
        nodes(root).no_duplicates(),
    ensures
        breadth_first(seq![root]).no_duplicates(),
{
    lemma_walk_finds_the_tree(root);
    nodes(root).lemma_multiset_has_no_duplicates();
    breadth_first(seq![root]).lemma_multiset_has_no_duplicates_conv();
}

/// A breadth-first walk meets as many nodes as the queued trees hold.
pub proof fn lemma_breadth_first_length(queue: Seq<Tree>)
    ensures
        breadth_first(queue).len() == total_weight(queue),
    decreases total_weight(queue),
{
    if queue.len() > 0 {
        lemma_queue_gets_lighter(queue);
        lemma_breadth_first_length(queue.drop_first() + queue[0].children);
    }
}

} // verus!

//! What Merkle branches prove.
use crate::containers::{BeaconStateView, Deposit};
use crate::hashing;
use crate::primitives::{Bytes32, Root};
use crate::state_transition::operations::deposits;
use vstd::arithmetic::power2::pow2;
use vstd::prelude::*;

verus! {

/// The node at `position` of the level that lies `height` above the leaves.
pub open spec fn tree_node(leaves: Seq<Root>, height: nat, position: nat) -> Seq<u8>
    decreases height,
{
    if height == 0 {
        leaves[position as int].0@
    } else {
        hashing::sha256(
            tree_node(leaves, (height - 1) as nat, 2 * position) + tree_node(
                leaves,
                (height - 1) as nat,
                2 * position + 1,
            ),
        )@
    }
}

/// The position that shares its parent with `position`.
pub open spec fn sibling_position(position: nat) -> nat {
    if position % 2 == 1 {
        (position - 1) as nat
    } else {
        position + 1
    }
}

/// Whether `branch` holds the siblings on the way up from `position` of the
/// level that lies `height` above the leaves.
pub open spec fn is_sibling_branch(
    leaves: Seq<Root>,
    height: nat,
    position: nat,
    branch: Seq<Bytes32>,
) -> bool {
    forall|k: nat|
        k < branch.len() ==> (#[trigger] branch[k as int]).0@ == tree_node(
            leaves,
            height + k,
            sibling_position(position / pow2(k)),
        )
}

/// Halving a position and then climbing `k` levels is climbing `k + 1` levels.
proof fn lemma_climb(position: nat, k: nat)
    ensures
        (position / 2) / pow2(k) == position / pow2(k + 1),
{
    vstd::arithmetic::power2::lemma_pow2_pos(k);
    vstd::arithmetic::power2::lemma_pow2_unfold(k + 1);
    vstd::arithmetic::div_mod::lemma_div_denominator(position as int, 2, pow2(k) as int);
}

/// Hashing along the siblings climbs the tree.
proof fn lemma_fold_climbs(leaves: Seq<Root>, height: nat, position: nat, branch: Seq<Bytes32>)
    requires
        is_sibling_branch(leaves, height, position, branch),
    ensures
        deposits::merkle_fold(tree_node(leaves, height, position), branch, position) == tree_node(
            leaves,
            height + branch.len(),
            position / pow2(branch.len()),
        ),
    decreases branch.len(),
{
    vstd::arithmetic::power2::lemma2_to64();
    if branch.len() > 0 {
        let value = tree_node(leaves, height, position);
        let tail = branch.drop_first();
        assert(branch[0 as nat as int].0@ == tree_node(leaves, height, sibling_position(position)));
        assert(deposits::merkle_parent(value, branch[0].0@, position) == tree_node(
            leaves,
            height + 1,
            position / 2,
        ));
        assert forall|k: nat| k < tail.len() implies (#[trigger] tail[k as int]).0@ == tree_node(
            leaves,
            height + 1 + k,
            sibling_position((position / 2) / pow2(k)),
        ) by {
            lemma_climb(position, k);
            assert(tail[k as int] == branch[(k + 1) as nat as int]);
        }
        lemma_fold_climbs(leaves, height + 1, position / 2, tail);
        lemma_climb(position, tail.len());
        assert(tail.len() + 1 == branch.len());
        assert(height + 1 + tail.len() == height + branch.len());
    } else {
        assert(position / pow2(0) == position);
    }
}

/// Every leaf of a tree has a proof: the branch of the siblings on its way to
/// the root is valid.
pub proof fn law_sibling_branch_is_valid(
    leaves: Seq<Root>,
    branch: Seq<Bytes32>,
    depth: nat,
    index: nat,
    root: Root,
)
    requires
        leaves.len() == pow2(depth),
        index < leaves.len(),
        branch.len() == depth,
        is_sibling_branch(leaves, 0, index, branch),
        root.0@ == tree_node(leaves, depth, 0),
    ensures
        deposits::merkle_branch_valid(leaves[index as int], branch, depth, index, root),
{
    lemma_fold_climbs(leaves, 0, index, branch);
    vstd::arithmetic::div_mod::lemma_basic_div(index as int, pow2(depth) as int);
}

/// What is hashed on level `k` on the way up from `value`.
pub open spec fn hashed_at(value: Seq<u8>, branch: Seq<Bytes32>, path: nat, k: nat) -> Seq<u8>
    decreases k,
{
    if k == 0 {
        deposits::merkle_children(value, branch[0].0@, path)
    } else {
        hashed_at(
            deposits::merkle_parent(value, branch[0].0@, path),
            branch.drop_first(),
            path / 2,
            (k - 1) as nat,
        )
    }
}

/// Two different ways to one root meet in a collision.
pub(crate) proof fn lemma_fold_binds(
    left: Seq<u8>,
    left_branch: Seq<Bytes32>,
    right: Seq<u8>,
    right_branch: Seq<Bytes32>,
    path: nat,
)
    requires
        left_branch.len() == right_branch.len(),
        deposits::merkle_fold(left, left_branch, path) == deposits::merkle_fold(
            right,
            right_branch,
            path,
        ),
    ensures
        (left == right && left_branch == right_branch) || exists|k: nat|
            k < left_branch.len() && #[trigger] hashing::is_collision(
                hashed_at(left, left_branch, path, k),
                hashed_at(right, right_branch, path, k),
            ),
    decreases left_branch.len(),
{
    if left_branch.len() == 0 {
        assert(left_branch =~= right_branch);
    } else {
        let left_sibling = left_branch[0].0@;
        let right_sibling = right_branch[0].0@;
        let left_parent = deposits::merkle_parent(left, left_sibling, path);
        let right_parent = deposits::merkle_parent(right, right_sibling, path);
        let left_tail = left_branch.drop_first();
        let right_tail = right_branch.drop_first();
        lemma_fold_binds(left_parent, left_tail, right_parent, right_tail, path / 2);
        if left_parent == right_parent && left_tail == right_tail {
            let left_children = deposits::merkle_children(left, left_sibling, path);
            let right_children = deposits::merkle_children(right, right_sibling, path);
            if left_children == right_children {
                assert(left_children.len() == left.len() + 32);
                assert(right_children.len() == right.len() + 32);
                if path % 2 == 1 {
                    assert(left_sibling =~= left_children.take(32));
                    assert(right_sibling =~= right_children.take(32));
                    assert(left =~= left_children.skip(32));
                    assert(right =~= right_children.skip(32));
                } else {
                    let n = left.len() as int;
                    assert(left =~= left_children.take(n));
                    assert(right =~= right_children.take(n));
                    assert(left_sibling =~= left_children.skip(n));
                    assert(right_sibling =~= right_children.skip(n));
                }
                assert(left_branch[0].0 =~= right_branch[0].0);
                assert(left_branch =~= seq![left_branch[0]] + left_tail);
                assert(right_branch =~= seq![right_branch[0]] + right_tail);
            } else {
                assert(hashing::sha256(left_children) =~= hashing::sha256(right_children));
                assert(hashing::is_collision(
                    hashed_at(left, left_branch, path, 0),
                    hashed_at(right, right_branch, path, 0),
                ));
            }
        } else {
            let k = choose|k: nat|
                k < left_tail.len() && #[trigger] hashing::is_collision(
                    hashed_at(left_parent, left_tail, path / 2, k),
                    hashed_at(right_parent, right_tail, path / 2, k),
                );
            assert(hashing::is_collision(
                hashed_at(left, left_branch, path, k + 1),
                hashed_at(right, right_branch, path, k + 1),
            ));
        }
    }
}

/// A root binds the leaf at each index: two valid proofs for one index of one
/// tree are the same proof of the same leaf, or somewhere on their way up they
/// exhibit a collision of SHA-256.
pub proof fn law_branch_binds_leaf(
    left: Root,
    left_branch: Seq<Bytes32>,
    right: Root,
    right_branch: Seq<Bytes32>,
    depth: nat,
    index: nat,
    root: Root,
)
    requires
        deposits::merkle_branch_valid(left, left_branch, depth, index, root),
        deposits::merkle_branch_valid(right, right_branch, depth, index, root),
    ensures
        (left == right && left_branch == right_branch) || exists|k: nat|
            k < depth && #[trigger] hashing::is_collision(
                hashed_at(left.0@, left_branch, index, k),
                hashed_at(right.0@, right_branch, index, k),
            ),
{
    lemma_fold_binds(left.0@, left_branch, right.0@, right_branch, index);
    assert(left.0@ == right.0@ ==> left.0 =~= right.0);
}

/// Paths that agree in their low bits are folded alike.
proof fn lemma_fold_reads_low_bits(value: Seq<u8>, branch: Seq<Bytes32>, left: nat, right: nat)
    requires
        left % pow2(branch.len()) == right % pow2(branch.len()),
    ensures
        deposits::merkle_fold(value, branch, left) == deposits::merkle_fold(value, branch, right),
    decreases branch.len(),
{
    if branch.len() > 0 {
        let tail = branch.drop_first();
        let n = pow2(tail.len());
        vstd::arithmetic::power2::lemma_pow2_pos(tail.len());
        vstd::arithmetic::power2::lemma_pow2_unfold(branch.len());
        vstd::arithmetic::div_mod::lemma_mod_breakdown(left as int, 2, n as int);
        vstd::arithmetic::div_mod::lemma_mod_breakdown(right as int, 2, n as int);
        assert(left % 2 == right % 2 && (left / 2) % n == (right / 2) % n);
        lemma_fold_reads_low_bits(
            deposits::merkle_parent(value, branch[0].0@, left),
            tail,
            left / 2,
            right / 2,
        );
    }
}

/// A branch of `depth` levels reads `depth` bits of the index: indices that
/// agree in these are proved alike.
pub proof fn law_branch_reads_depth_bits(
    leaf: Root,
    branch: Seq<Bytes32>,
    depth: nat,
    left: nat,
    right: nat,
    root: Root,
)
    requires
        left % pow2(depth) == right % pow2(depth),
    ensures
        deposits::merkle_branch_valid(leaf, branch, depth, left, root)
            == deposits::merkle_branch_valid(leaf, branch, depth, right, root),
{
    if branch.len() == depth {
        lemma_fold_reads_low_bits(leaf.0@, branch, left, right);
    }
}

/// Hashing along a branch ends where any walk up it ends.
pub(crate) proof fn lemma_fold_walks(
    branch: Seq<Bytes32>,
    path: nat,
    nodes: Seq<Seq<u8>>,
)
    requires
        nodes.len() == branch.len() + 1,
        forall|i: int|
            0 <= i < branch.len() ==> nodes[i + 1] == hashing::sha256(
                if (path / pow2(i as nat)) % 2 == 1 {
                    (#[trigger] branch[i]).0@ + nodes[i]
                } else {
                    nodes[i] + branch[i].0@
                },
            )@,
    ensures
        deposits::merkle_fold(nodes[0], branch, path) == nodes[branch.len() as int],
    decreases branch.len(),
{
    vstd::arithmetic::power2::lemma2_to64();
    if branch.len() > 0 {
        let tail = branch.drop_first();
        let rest = nodes.drop_first();
        assert(path / pow2(0) == path);
        assert(branch[0] == branch[0]);
        assert(nodes[1] == deposits::merkle_parent(nodes[0], branch[0].0@, path));
        assert forall|i: int| 0 <= i < tail.len() implies rest[i + 1] == hashing::sha256(
            if ((path / 2) / pow2(i as nat)) % 2 == 1 {
                (#[trigger] tail[i]).0@ + rest[i]
            } else {
                rest[i] + tail[i].0@
            },
        )@ by {
            lemma_climb(path, i as nat);
            assert(tail[i] == branch[i + 1]);
        }
        lemma_fold_walks(tail, path / 2, rest);
    }
}

/// A branch is valid exactly if it has a sibling for each level and the walk up
/// from the leaf ends at the root, where each node is the digest of the node
/// below and its sibling, with the sibling on the left on the levels where the
/// index has a one bit.
pub proof fn law_branch_is_a_walk(
    leaf: Root,
    branch: Seq<Bytes32>,
    depth: nat,
    index: nat,
    root: Root,
    nodes: Seq<Seq<u8>>,
)
    requires
        nodes.len() == depth + 1,
        nodes[0] == leaf.0@,
        forall|i: int|
            0 <= i < depth ==> nodes[i + 1] == hashing::sha256(
                if (index / pow2(i as nat)) % 2 == 1 {
                    (#[trigger] branch[i]).0@ + nodes[i]
                } else {
                    nodes[i] + branch[i].0@
                },
            )@,
    ensures
        deposits::merkle_branch_valid(leaf, branch, depth, index, root) == (branch.len() == depth
            && nodes[depth as int] == root.0@),
{
    if branch.len() == depth {
        lemma_fold_walks(branch, index, nodes);
    }
}

/// A state accepts the proof of a deposit exactly if the walk up from the root
/// of the deposit's data, along all 33 siblings and the bits of the cursor, ends
/// at the deposit root.
pub proof fn law_deposit_proof_is_a_walk(
    state: BeaconStateView,
    deposit: Deposit,
    nodes: Seq<Seq<u8>>,
)
    requires
        nodes.len() == 34,
        nodes[0] == deposits::deposit_data_root(deposit.data),
        forall|i: int|
            0 <= i < 33 ==> nodes[i + 1] == hashing::sha256(
                if (state.eth1_deposit_index as nat / pow2(i as nat)) % 2 == 1 {
                    (#[trigger] deposit.proof@[i]).0@ + nodes[i]
                } else {
                    nodes[i] + deposit.proof@[i].0@
                },
            )@,
    ensures
        state.deposit_proof_valid(deposit) == (nodes[33] == state.eth1_data.deposit_root.0@),
{
    lemma_fold_walks(deposit.proof@, state.eth1_deposit_index as nat, nodes);
}

} // verus!

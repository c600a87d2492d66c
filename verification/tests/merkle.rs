use moonglass::primitives::{Bytes32, Root};
use moonglass::state_transition::operations::deposits::is_valid_merkle_branch;
use sha2::{Digest, Sha256};

fn pair(left: &[u8; 32], right: &[u8; 32]) -> [u8; 32] {
    let mut hasher = Sha256::new();
    hasher.update(left);
    hasher.update(right);
    hasher.finalize().into()
}

fn from_hex(text: &str) -> [u8; 32] {
    let mut bytes = [0u8; 32];
    for i in 0..32 {
        bytes[i] = u8::from_str_radix(&text[2 * i..2 * i + 2], 16).unwrap();
    }
    bytes
}

/// The branch of `index` in a perfect tree, and the tree's root.
fn branch_of(leaves: &[[u8; 32]], index: usize) -> (Vec<Bytes32>, [u8; 32]) {
    let mut level = leaves.to_vec();
    let mut index = index;
    let mut branch = Vec::new();
    while level.len() > 1 {
        branch.push(Bytes32(level[index ^ 1]));
        level = level.chunks(2).map(|nodes| pair(&nodes[0], &nodes[1])).collect();
        index /= 2;
    }
    (branch, level[0])
}

#[test]
fn one_level_branch_with_known_roots() {
    let leaf = Root([1; 32]);
    let branch = [Bytes32([2; 32])];
    let left = Root(from_hex("f818afd37a6dc3bc92fb44731011277006db4efa6e9023cd7468c02335d22a4d"));
    let right = Root(from_hex("c57d4f59c961b13e406cd991b0f342ec79e571dc2c1415ff72c6550645a3b198"));
    assert!(is_valid_merkle_branch(leaf, &branch, 1, 0, left));
    assert!(!is_valid_merkle_branch(leaf, &branch, 1, 1, left));
    assert!(is_valid_merkle_branch(leaf, &branch, 1, 1, right));
    assert!(!is_valid_merkle_branch(leaf, &branch, 1, 0, right));
}

#[test]
fn empty_branch_proves_the_root_itself() {
    assert!(is_valid_merkle_branch(Root([1; 32]), &[], 0, 0, Root([1; 32])));
    assert!(!is_valid_merkle_branch(Root([1; 32]), &[], 0, 0, Root([2; 32])));
}

#[test]
fn branch_of_another_length_proves_nothing() {
    let leaf = Root([1; 32]);
    let branch = [Bytes32([2; 32])];
    let root = Root(pair(&[1; 32], &[2; 32]));
    assert!(is_valid_merkle_branch(leaf, &branch, 1, 0, root));
    assert!(!is_valid_merkle_branch(leaf, &branch, 2, 0, root));
    assert!(!is_valid_merkle_branch(leaf, &branch, 0, 0, root));
    assert!(!is_valid_merkle_branch(leaf, &[], 1, 0, leaf));
    assert!(!is_valid_merkle_branch(leaf, &branch, 100, 0, root));
}

#[test]
fn every_leaf_has_a_valid_branch() {
    let leaves: Vec<[u8; 32]> = (0..8u8).map(|i| [i; 32]).collect();
    for index in 0..8usize {
        let (branch, root) = branch_of(&leaves, index);
        assert!(is_valid_merkle_branch(Root(leaves[index]), &branch, 3, index as u64, Root(root)));
        for other in 0..8usize {
            if other != index {
                assert!(!is_valid_merkle_branch(
                    Root(leaves[other]),
                    &branch,
                    3,
                    index as u64,
                    Root(root)
                ));
                assert!(!is_valid_merkle_branch(
                    Root(leaves[index]),
                    &branch,
                    3,
                    other as u64,
                    Root(root)
                ));
            }
        }
    }
}

#[test]
fn branch_reads_as_many_bits_as_it_has_levels() {
    let leaves: Vec<[u8; 32]> = (0..4u8).map(|i| [i; 32]).collect();
    let (branch, root) = branch_of(&leaves, 2);
    assert!(is_valid_merkle_branch(Root(leaves[2]), &branch, 2, 2, Root(root)));
    assert!(is_valid_merkle_branch(Root(leaves[2]), &branch, 2, 6, Root(root)));
    assert!(!is_valid_merkle_branch(Root(leaves[2]), &branch, 2, 3, Root(root)));
}

#[test]
fn branch_with_a_level_for_each_bit_of_the_index() {
    let leaf = [1u8; 32];
    let branch = vec![Bytes32([3; 32]); 64];
    let index = 0x8000_0000_0000_0001u64;
    let mut value = leaf;
    for i in 0..64 {
        value = if (index >> i) & 1 == 1 {
            pair(&[3; 32], &value)
        } else {
            pair(&value, &[3; 32])
        };
    }
    assert!(is_valid_merkle_branch(Root(leaf), &branch, 64, index, Root(value)));
    assert!(!is_valid_merkle_branch(Root(leaf), &branch, 64, 1, Root(value)));
}

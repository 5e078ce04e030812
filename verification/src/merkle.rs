//! Recomputing the root of a transparency log from one leaf and the sibling
//! hashes on the way up.

use crate::crypto::decode_fixed;
use crate::crypto::decodes_to_len;
use crate::crypto::base64_decoded;
use crate::crypto::sha256;
use crate::crypto::sha256_digest;
use crate::crypto::DIGEST_LEN;
use crate::json::append_bytes;
use crate::text::texts;
use vstd::prelude::*;

verus! {

/// The views of a list of byte strings.
pub open spec fn byte_rows(rows: Seq<Vec<u8>>) -> Seq<Seq<u8>> {
    rows.map_values(|r: Vec<u8>| r@)
}

/// The hash one level up: where the index is even the node is a left child
/// and its sibling goes to its right, where it is odd the other way round.
pub open spec fn merkle_parent(node: Seq<u8>, sibling: Seq<u8>, index: nat) -> Seq<u8> {
    if index % 2 == 0 {
        sha256_digest(node + sibling)
    } else {
        sha256_digest(sibling + node)
    }
}

/// The root reached from `node`, which sits at `index` on level `level`,
/// through the siblings from that level on.
pub open spec fn merkle_root_from(
    node: Seq<u8>,
    index: nat,
    siblings: Seq<Seq<u8>>,
    level: int,
) -> Seq<u8>
    decreases siblings.len() - level,
{
    if 0 <= level < siblings.len() {
        merkle_root_from(
            merkle_parent(node, siblings[level], index),
            index / 2,
            siblings,
            level + 1,
        )
    } else {
        node
    }
}

/// The root that a leaf at `leaf_index` and its proof lead to: bit `k` of
/// the index says on which side the leaf's ancestor on level `k` stands.
/// One bit is read for each sibling; higher bits of the index play no part.
pub open spec fn merkle_root(leaf: Seq<u8>, leaf_index: nat, siblings: Seq<Seq<u8>>) -> Seq<u8> {
    merkle_root_from(leaf, leaf_index, siblings, 0)
}

/// Recomputes the root from a leaf and its proof.
pub fn recompute_root(leaf: Vec<u8>, leaf_index: u64, siblings: &Vec<Vec<u8>>) -> (root: Vec<u8>)
    ensures
        root@ == merkle_root(leaf@, leaf_index as nat, byte_rows(siblings@)),
{
    let ghost rows = byte_rows(siblings@);
    let ghost goal = merkle_root(leaf@, leaf_index as nat, rows);
    let mut node = leaf;
    let mut index: u64 = leaf_index;
    let mut level: usize = 0;
    while level < siblings.len()
        invariant
            level <= siblings@.len(),
            rows == byte_rows(siblings@),
            merkle_root_from(node@, index as nat, rows, level as int) == goal,
        decreases siblings@.len() - level,
    {
        let mut joined: Vec<u8> = Vec::new();
        if index % 2 == 0 {
            append_bytes(&mut joined, node.as_slice());
            append_bytes(&mut joined, siblings[level].as_slice());
        } else {
            append_bytes(&mut joined, siblings[level].as_slice());
            append_bytes(&mut joined, node.as_slice());
        }
        assert(rows[level as int] == siblings@[level as int]@);
        assert(sha256_digest(joined@) == merkle_parent(node@, rows[level as int], index as nat))
            by {
            assert(Seq::<u8>::empty() + node@ =~= node@);
            assert(Seq::<u8>::empty() + rows[level as int] =~= rows[level as int]);
        }
        node = sha256(joined.as_slice());
        index = index / 2;
        level += 1;
    }
    node
}

/// Whether every text of a list is the base64 text of a digest.
pub open spec fn all_digest_texts(entries: Seq<Seq<char>>) -> bool {
    forall|i: int| 0 <= i < entries.len() ==> decodes_to_len(#[trigger] entries[i], DIGEST_LEN as nat)
}

/// The bytes that each text of a list decodes to.
pub open spec fn decoded_each(entries: Seq<Seq<char>>) -> Seq<Seq<u8>> {
    entries.map_values(|t: Seq<char>| base64_decoded(t).unwrap())
}

/// Decodes the entries of a proof; `None` where one of them is not the
/// base64 text of a digest.
pub fn decode_digests(entries: &Vec<String>) -> (rows: Option<Vec<Vec<u8>>>)
    ensures
        match rows {
            Some(r) => all_digest_texts(texts(entries@)) && byte_rows(r@) == decoded_each(
                texts(entries@),
            ),
            None => !all_digest_texts(texts(entries@)),
        },
{
    let ghost all = texts(entries@);
    let mut rows: Vec<Vec<u8>> = Vec::new();
    let mut i: usize = 0;
    while i < entries.len()
        invariant
            i <= entries@.len(),
            all == texts(entries@),
            rows@.len() == i,
            forall|k: int| 0 <= k < i ==> decodes_to_len(#[trigger] all[k], DIGEST_LEN as nat),
            forall|k: int| 0 <= k < i ==> (#[trigger] rows@[k])@ == base64_decoded(all[k]).unwrap(),
        decreases entries@.len() - i,
    {
        assert(all[i as int] == entries@[i as int]@);
        match decode_fixed(entries[i].as_str(), DIGEST_LEN) {
            Some(bytes) => {
                rows.push(bytes);
            },
            None => {
                return None;
            },
        }
        i += 1;
    }
    assert(byte_rows(rows@) =~= decoded_each(all));
    Some(rows)
}

} // verus!

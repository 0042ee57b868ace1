//! Merkle-tree utilities for sync-committee verification: SHA-256 chaining
//! over branches, committee-key merkleization, and the byte-level helpers
//! the circuits share.
//!
//! The hash itself is an outside collaborator; everything proved here is
//! stated over the uninterpreted `sha256_s` digest of the input bytes.

use vstd::prelude::*;

verus! {

use sha2::Digest;

/// The SHA-256 digest of a byte sequence.
pub uninterp spec fn sha256_s(input: Seq<u8>) -> Seq<u8>;

/// Relies on `sha2::Sha256::digest`: the 32-byte SHA-256 digest of the
/// input, a function of the input bytes alone.
#[verifier::external_body]
fn sha256_digest(input: &Vec<u8>) -> (r: Vec<u8>)
    ensures
        r@ == sha256_s(input@),
        r@.len() == 32,
{
    sha2::Sha256::digest(input.as_slice()).to_vec()
}

/// Hashes a byte vector with SHA-256.
pub fn digest(input: &Vec<u8>) -> (r: Vec<u8>)
    ensures
        r@ == sha256_s(input@),
        r@.len() == 32,
{
    sha256_digest(input)
}

/// One element of a vector of byte vectors, seen as a byte sequence.
pub(crate) proof fn lemma_deep_view_index(v: &Vec<Vec<u8>>, i: int)
    requires
        0 <= i < v@.len(),
    ensures
        v.deep_view().len() == v@.len(),
        v.deep_view()[i] == v@[i]@,
{
    assert(v.deep_view()[i] =~= v@[i]@);
}

/// Pushing onto a vector of byte vectors pushes its byte-sequence view.
proof fn lemma_deep_view_push(v: &Vec<Vec<u8>>, pre: Seq<Vec<u8>>, x: Seq<u8>)
    requires
        v@.len() == pre.len() + 1,
        forall|j: int| 0 <= j < pre.len() ==> v@[j] == pre[j],
        v@[pre.len() as int]@ == x,
    ensures
        v.deep_view() =~= Seq::new(pre.len() + 1, |j: int| v@[j]@),
{
    assert forall|j: int| 0 <= j < v@.len() implies v.deep_view()[j] == v@[j]@ by {
        lemma_deep_view_index(v, j);
    }
}

/// Concatenates two byte vectors.
pub fn add_left_right(left: Vec<u8>, right: &Vec<u8>) -> (r: Vec<u8>)
    ensures
        r@ == left@ + right@,
{
    let ghost l0 = left@;
    let mut value = left;
    let mut i: usize = 0;
    while i < right.len()
        invariant
            i <= right@.len(),
            value@ == l0 + right@.take(i as int),
        decreases right@.len() - i,
    {
        value.push(right[i]);
        proof {
            assert(value@ =~= l0 + right@.take(i + 1));
        }
        i = i + 1;
    }
    proof {
        assert(l0 + right@.take(right@.len() as int) =~= l0 + right@);
    }
    value
}

/// Byte-wise equality of two vectors.
pub(crate) fn bytes_eq(a: &Vec<u8>, b: &Vec<u8>) -> (r: bool)
    ensures
        r == (a@ == b@),
{
    if a.len() != b.len() {
        return false;
    }
    let mut i: usize = 0;
    while i < a.len()
        invariant
            i <= a@.len(),
            a@.len() == b@.len(),
            forall|j: int| 0 <= j < i ==> a@[j] == b@[j],
        decreases a@.len() - i,
    {
        if a[i] != b[i] {
            return false;
        }
        i = i + 1;
    }
    proof {
        assert(a@ =~= b@);
    }
    true
}

/// The hash chain climbed by `verify_merkle_proof`: fold each branch node
/// in on the side selected by the generalized index's low bit, halving the
/// index at each level.
pub open spec fn merkle_chain(branch: Seq<Seq<u8>>, value: Seq<u8>, gindex: int, k: int) -> Seq<
    u8,
>
    decreases branch.len() - k,
{
    if k < 0 || k >= branch.len() {
        value
    } else {
        let node = branch[k];
        let next = if gindex % 2 == 0 {
            sha256_s(value + node)
        } else {
            sha256_s(node + value)
        };
        merkle_chain(branch, next, gindex / 2, k + 1)
    }
}

/// Climbs a Merkle branch from a leaf and reports whether it reaches the
/// given root.
pub fn verify_merkle_proof(
    branch: Vec<Vec<u8>>,
    leaf: Vec<u8>,
    root: &Vec<u8>,
    gindex: usize,
) -> (r: bool)
    ensures
        r == (merkle_chain(branch.deep_view(), leaf@, gindex as int, 0) == root@),
{
    let ghost bdv = branch.deep_view();
    let ghost leaf0 = leaf@;
    let ghost g0 = gindex as int;
    let mut computed = leaf;
    let mut g = gindex;
    let mut k: usize = 0;
    while k < branch.len()
        invariant
            k <= branch@.len(),
            bdv == branch.deep_view(),
            bdv.len() == branch@.len(),
            merkle_chain(bdv, computed@, g as int, k as int) == merkle_chain(bdv, leaf0, g0, 0),
        decreases branch@.len() - k,
    {
        let ghost pre = computed@;
        proof {
            lemma_deep_view_index(&branch, k as int);
        }
        if g % 2 == 0 {
            computed = digest(&add_left_right(computed, &branch[k]));
        } else {
            let node = branch[k].clone();
            computed = digest(&add_left_right(node, &computed));
        }
        proof {
            assert(merkle_chain(bdv, pre, g as int, k as int) == merkle_chain(
                bdv,
                computed@,
                g as int / 2,
                k as int + 1,
            ));
        }
        g = g / 2;
        k = k + 1;
    }
    bytes_eq(&computed, root)
}

/// A key padded to 64 bytes with zeros (or cut to 64 bytes, as resizing
/// does).
pub open spec fn padded_key_s(key: Seq<u8>) -> Seq<u8> {
    if key.len() <= 64 {
        key + Seq::new((64 - key.len()) as nat, |i: int| 0u8)
    } else {
        key.take(64)
    }
}

/// Hashes each public key after padding it to 64 bytes.
pub fn hash_keys(keys: Vec<Vec<u8>>) -> (r: Vec<Vec<u8>>)
    ensures
        r@.len() == keys@.len(),
        forall|j: int|
            0 <= j < keys@.len() ==> r@[j]@ == sha256_s(#[trigger] padded_key_s(keys@[j]@)),
{
    let mut key_hashes: Vec<Vec<u8>> = Vec::new();
    let mut i: usize = 0;
    while i < keys.len()
        invariant
            i <= keys@.len(),
            key_hashes@.len() == i,
            forall|j: int|
                0 <= j < i ==> key_hashes@[j]@ == sha256_s(#[trigger] padded_key_s(keys@[j]@)),
        decreases keys@.len() - i,
    {
        let ghost key = keys@[i as int]@;
        let mut padded_key = keys[i].clone();
        padded_key.truncate(64);
        proof {
            assert(padded_key@ =~= padded_key_s(key).take(padded_key@.len() as int));
        }
        while padded_key.len() < 64
            invariant
                padded_key@.len() <= 64,
                key.len() <= 64 || padded_key@.len() == 64,
                key.len() <= 64 ==> padded_key@.len() >= key.len(),
                padded_key@ == padded_key_s(key).take(padded_key@.len() as int),
            decreases 64 - padded_key@.len(),
        {
            proof {
                assert(padded_key_s(key)[padded_key@.len() as int] == 0);
            }
            padded_key.push(0);
            proof {
                assert(padded_key@ =~= padded_key_s(key).take(padded_key@.len() as int));
            }
        }
        proof {
            assert(padded_key@ =~= padded_key_s(key));
        }
        let h = digest(&padded_key);
        key_hashes.push(h);
        i = i + 1;
    }
    key_hashes
}

/// Two to the power `e`.
pub open spec fn pow2i(e: int) -> int
    decreases e,
{
    if e <= 0 {
        1
    } else {
        2 * pow2i(e - 1)
    }
}

/// How many halvings take `m` to zero: the bit length of `m`.
pub open spec fn halvings(m: int) -> int
    decreases m,
{
    if m <= 0 {
        0
    } else {
        1 + halvings(m / 2)
    }
}

/// The tree height `merkleize_keys` uses: one for a single key, else the
/// ceiling of the base-two logarithm of the key count.
pub open spec fn merkle_height_s(n: int) -> int {
    if n == 1 {
        1
    } else {
        halvings(n - 1)
    }
}

proof fn lemma_pow2_halvings(m: int)
    ensures
        pow2i(halvings(m)) >= m + 1,
    decreases m,
{
    if m <= 0 {
    } else {
        lemma_pow2_halvings(m / 2);
    }
}

proof fn lemma_halvings_le_self(m: int)
    ensures
        0 <= halvings(m),
        halvings(m) <= if m <= 0 {
            0int
        } else {
            m
        },
    decreases m,
{
    if m <= 0 {
    } else {
        lemma_halvings_le_self(m / 2);
    }
}

/// The zero-subtree hash at a depth: zero bytes at the leaves, and the
/// hash of two copies of the level below elsewhere.
pub open spec fn zero_hash_s(depth: int) -> Seq<u8>
    decreases depth,
{
    if depth <= 0 {
        Seq::new(32, |i: int| 0u8)
    } else {
        sha256_s(zero_hash_s(depth - 1) + zero_hash_s(depth - 1))
    }
}

/// Computes the zero-subtree hash for a depth.
pub fn zero_hash(depth: usize) -> (r: Vec<u8>)
    ensures
        r@ == zero_hash_s(depth as int),
{
    let mut h: Vec<u8> = Vec::new();
    let mut i: usize = 0;
    while i < 32
        invariant
            i <= 32,
            h@ =~= Seq::new(i as nat, |j: int| 0u8),
        decreases 32 - i,
    {
        h.push(0);
        i = i + 1;
    }
    proof {
        assert(h@ =~= zero_hash_s(0));
    }
    let mut d: usize = 0;
    while d < depth
        invariant
            d <= depth,
            h@ == zero_hash_s(d as int),
        decreases depth - d,
    {
        let copy = h.clone();
        h = digest(&add_left_right(h, &copy));
        d = d + 1;
    }
    h
}

/// One layer padded to even length with the zero hash of its depth.
pub open spec fn pad_even_s(keys: Seq<Seq<u8>>, depth: int) -> Seq<Seq<u8>> {
    if keys.len() % 2 == 1 {
        keys.push(zero_hash_s(depth))
    } else {
        keys
    }
}

/// One layer hashed pairwise into the layer above.
pub open spec fn hash_layer_s(keys: Seq<Seq<u8>>, depth: int) -> Seq<Seq<u8>> {
    let p = pad_even_s(keys, depth);
    Seq::new((p.len() / 2) as nat, |i: int| sha256_s(p[2 * i] + p[2 * i + 1]))
}

/// The layers hashed from `depth` up to `height`.
pub open spec fn merkle_layers_s(keys: Seq<Seq<u8>>, depth: int, height: int) -> Seq<Seq<u8>>
    decreases height - depth,
{
    if depth >= height {
        keys
    } else {
        merkle_layers_s(hash_layer_s(keys, depth), depth + 1, height)
    }
}

/// The Merkle root of a list of key hashes.
pub open spec fn merkleize_s(keys: Seq<Seq<u8>>) -> Seq<u8> {
    merkle_layers_s(keys, 0, merkle_height_s(keys.len() as int)).last()
}

proof fn lemma_layers_shrink(keys: Seq<Seq<u8>>, depth: int, height: int)
    requires
        1 <= keys.len(),
        keys.len() <= pow2i(height - depth),
    ensures
        merkle_layers_s(keys, depth, height).len() == 1,
    decreases height - depth,
{
    if depth >= height {
        assert(pow2i(height - depth) == 1);
    } else {
        let p = pad_even_s(keys, depth);
        let next = hash_layer_s(keys, depth);
        assert(next.len() == p.len() / 2);
        lemma_layers_shrink(next, depth + 1, height);
    }
}

/// Builds the Merkle root of the given key hashes, padding odd layers with
/// the zero hash of their depth.
pub fn merkleize_keys(keys: Vec<Vec<u8>>) -> (r: Vec<u8>)
    requires
        keys@.len() >= 1,
    ensures
        r@ == merkleize_s(keys.deep_view()),
{
    let ghost orig = keys.deep_view();
    proof {
        assert(orig.len() == keys@.len());
    }
    let n = keys.len();
    let mut keys = keys;
    let height: usize;
    if n == 1 {
        height = 1;
    } else {
        let mut m = n - 1;
        let mut h: usize = 0;
        proof {
            lemma_halvings_le_self(n as int - 1);
        }
        while m > 0
            invariant
                h + halvings(m as int) == halvings(n as int - 1),
                halvings(m as int) >= 0,
                halvings(n as int - 1) <= n as int - 1,
            decreases m,
        {
            proof {
                lemma_halvings_le_self(m as int / 2);
            }
            m = m / 2;
            h = h + 1;
        }
        height = h;
    }
    let ghost hh = merkle_height_s(orig.len() as int);
    proof {
        assert(height == hh);
    }
    let mut depth: usize = 0;
    while depth < height
        invariant
            depth <= height,
            height == hh,
            1 <= keys@.len(),
            merkle_layers_s(keys.deep_view(), depth as int, hh) == merkle_layers_s(orig, 0, hh),
        decreases height - depth,
    {
        let ghost layer = keys.deep_view();
        proof {
            assert(layer.len() == keys@.len());
        }
        if keys.len() % 2 == 1 {
            let ghost pre = keys@;
            let zh = zero_hash(depth);
            let ghost zhv = zh@;
            keys.push(zh);
            proof {
                lemma_deep_view_push(&keys, pre, zhv);
                assert(keys.deep_view() =~~= layer.push(zero_hash_s(depth as int)));
            }
        }
        let ghost padded = keys.deep_view();
        proof {
            assert(padded =~~= pad_even_s(layer, depth as int));
            assert(padded.len() == keys@.len());
        }
        let mut next: Vec<Vec<u8>> = Vec::new();
        let mut i: usize = 0;
        while i + 1 < keys.len()
            invariant
                padded == keys.deep_view(),
                padded.len() == keys@.len(),
                padded.len() % 2 == 0,
                i % 2 == 0,
                i <= keys@.len(),
                next@.len() == i / 2,
                forall|j: int|
                    0 <= j < i / 2 ==> next@[j]@ == sha256_s(
                        #[trigger] (padded[2 * j] + padded[2 * j + 1]),
                    ),
            decreases keys@.len() - i,
        {
            proof {
                lemma_deep_view_index(&keys, i as int);
                lemma_deep_view_index(&keys, i as int + 1);
            }
            let left = keys[i].clone();
            let right = &keys[i + 1];
            let h = digest(&add_left_right(left, right));
            next.push(h);
            i = i + 2;
        }
        proof {
            assert(i == padded.len());
            assert(next.deep_view() =~~= hash_layer_s(layer, depth as int)) by {
                assert forall|j: int| 0 <= j < next@.len() implies next.deep_view()[j]
                    == hash_layer_s(layer, depth as int)[j] by {
                    lemma_deep_view_index(&next, j);
                }
                assert(next@.len() == hash_layer_s(layer, depth as int).len());
            }
        }
        keys = next;
        depth = depth + 1;
    }
    proof {
        assert(merkle_layers_s(keys.deep_view(), hh, hh) == keys.deep_view());
        if orig.len() == 1 {
            assert(pow2i(0) == 1);
            assert(pow2i(1) == 2);
        } else {
            lemma_pow2_halvings(orig.len() - 1);
        }
        lemma_layers_shrink(orig, 0, hh);
        assert(keys.deep_view().len() == 1);
        assert(keys@.len() == 1);
        lemma_deep_view_index(&keys, 0);
    }
    let root = match keys.pop() {
        Some(root) => root,
        None => Vec::new(),
    };
    root
}

/// Whether a leaf, a branch of the given depth, and an index hash up to
/// the given root, with every node exactly 32 bytes.
pub open spec fn is_valid_merkle_branch_s(
    leaf: Seq<u8>,
    branch: Seq<Seq<u8>>,
    depth: int,
    index: int,
    root: Seq<u8>,
) -> bool {
    &&& branch.len() == depth
    &&& leaf.len() == 32
    &&& (forall|i: int| 0 <= i < branch.len() ==> (#[trigger] branch[i]).len() == 32)
    &&& merkle_chain(branch, leaf, index, 0) == root
}

/// Checks a fixed-depth Merkle branch of 32-byte nodes against a root,
/// reading the direction at each level from the index's bits.
pub fn is_valid_merkle_branch(
    leaf: Vec<u8>,
    branch: Vec<Vec<u8>>,
    depth: u64,
    index: u64,
    root: Vec<u8>,
) -> (r: bool)
    requires
        branch@.len() == depth as int ==> leaf@.len() <= 32,
        branch@.len() == depth as int && leaf@.len() == 32 ==> forall|i: int|
            0 <= i < branch@.len() && (forall|j: int|
                0 <= j < i ==> (#[trigger] branch@[j]@).len() == 32) ==> (
            #[trigger] branch@[i]@).len() <= 32,
    ensures
        r == is_valid_merkle_branch_s(
            leaf@,
            branch.deep_view(),
            depth as int,
            index as int,
            root@,
        ),
{
    let ghost bdv = branch.deep_view();
    let ghost leaf0 = leaf@;
    if branch.len() as u64 != depth {
        return false;
    }
    if leaf.len() < 32 {
        return false;
    }
    let mut value = leaf;
    let mut idx = index;
    let mut i: u64 = 0;
    let mut short_node = false;
    while i < depth
        invariant
            i <= depth,
            depth == branch@.len(),
            forall|i2: int|
                0 <= i2 < branch@.len() && (forall|j: int|
                    0 <= j < i2 ==> (#[trigger] branch@[j]@).len() == 32) ==> (
                #[trigger] branch@[i2]@).len() <= 32,
            bdv == branch.deep_view(),
            bdv.len() == branch@.len(),
            !short_node ==> value@.len() == 32,
            !short_node ==> forall|j: int| 0 <= j < i ==> (#[trigger] bdv[j]).len() == 32,
            !short_node ==> merkle_chain(bdv, value@, idx as int, i as int) == merkle_chain(
                bdv,
                leaf0,
                index as int,
                0,
            ),
            short_node ==> exists|j: int| 0 <= j < i && (#[trigger] bdv[j]).len() < 32,
        decreases depth - i,
    {
        proof {
            lemma_deep_view_index(&branch, i as int);
        }
        if branch[i as usize].len() < 32 {
            short_node = true;
        }
        if !short_node {
            proof {
                assert forall|j: int| 0 <= j < i as int implies (#[trigger] branch@[j]@).len()
                    == 32 by {
                    lemma_deep_view_index(&branch, j);
                }
                assert(branch@[i as int]@.len() <= 32);
                assert(bdv[i as int].len() == 32);
            }
            let ghost pre = value@;
            let node = branch[i as usize].clone();
            if idx % 2 == 0 {
                value = digest(&add_left_right(value, &node));
            } else {
                value = digest(&add_left_right(node, &value));
            }
            proof {
                assert(merkle_chain(bdv, pre, idx as int, i as int) == merkle_chain(
                    bdv,
                    value@,
                    idx as int / 2,
                    i as int + 1,
                ));
            }
            idx = idx / 2;
        }
        i = i + 1;
    }
    if short_node {
        return false;
    }
    bytes_eq(&value, &root)
}

/// The byte of a 64-bit word selected by a shift.
pub open spec fn u64_le_byte_s(v: u64, s: u64) -> u8 {
    ((v >> s) & 0xffu64) as u8
}

/// Extracts one little-endian byte of a 64-bit word.
fn u64_le_byte(v: u64, s: u64) -> (r: u8)
    requires
        s < 64,
    ensures
        r == u64_le_byte_s(v, s),
{
    proof {
        assert((v >> s) & 0xffu64 <= 255) by (bit_vector);
    }
    ((v >> s) & 0xff) as u8
}

/// The 32-byte little-endian field encoding of a 64-bit value: its eight
/// little-endian bytes followed by 24 zero bytes.
pub open spec fn uint64_le_256_s(value: u64) -> Seq<u8> {
    Seq::new(
        32,
        |k: int|
            if k < 8 {
                u64_le_byte_s(value, (8 * k) as u64)
            } else {
                0u8
            },
    )
}

/// Encodes a 64-bit value as its 8 little-endian bytes followed by 24 zero
/// bytes, the 32-byte little-endian field encoding.
pub fn uint64_to_le_256(value: u64) -> (r: Vec<u8>)
    ensures
        r@ == uint64_le_256_s(value),
        r@.len() == 32,
        forall|k: int| 0 <= k < 8 ==> r@[k] == u64_le_byte_s(value, (8 * k) as u64),
        forall|k: int| 8 <= k < 32 ==> r@[k] == 0,
{
    let mut bytes: Vec<u8> = Vec::new();
    let mut i: u64 = 0;
    while i < 8
        invariant
            i <= 8,
            bytes@.len() == i,
            forall|k: int| 0 <= k < i ==> bytes@[k] == u64_le_byte_s(value, (8 * k) as u64),
        decreases 8 - i,
    {
        let b = u64_le_byte(value, 8 * i);
        bytes.push(b);
        i = i + 1;
    }
    let mut k: usize = 0;
    while k < 24
        invariant
            k <= 24,
            bytes@.len() == 8 + k,
            forall|j: int| 0 <= j < 8 ==> bytes@[j] == u64_le_byte_s(value, (8 * j) as u64),
            forall|j: int| 8 <= j < 8 + k ==> bytes@[j] == 0,
        decreases 24 - k,
    {
        bytes.push(0);
        k = k + 1;
    }
    proof {
        assert(bytes@ =~= uint64_le_256_s(value));
    }
    bytes
}

/// The bit of a byte selected by a shift.
pub open spec fn u8_bit_s(b: u8, s: u8) -> u8 {
    (b >> s) & 1
}

/// Splits a byte into its bits, most significant first.
pub fn u8_to_bits(byte: u8) -> (r: Vec<u8>)
    ensures
        r@.len() == 8,
        forall|i: int| 0 <= i < 8 ==> r@[i] == u8_bit_s(byte, (7 - i) as u8),
{
    let mut bits: Vec<u8> = Vec::new();
    let mut i: u8 = 0;
    while i < 8
        invariant
            i <= 8,
            bits@.len() == i as int,
            forall|j: int| 0 <= j < i ==> bits@[j] == u8_bit_s(byte, (7 - j) as u8),
        decreases 8 - i,
    {
        bits.push((byte >> (7 - i)) & 1);
        i = i + 1;
    }
    bits
}

/// The byte of a 32-bit word selected by a shift.
pub open spec fn u32_le_byte_s(v: u32, s: u32) -> u8 {
    ((v >> s) & 0xffu32) as u8
}

/// Extracts one little-endian byte of a 32-bit word.
fn u32_le_byte(v: u32, s: u32) -> (r: u8)
    requires
        s < 32,
    ensures
        r == u32_le_byte_s(v, s),
{
    proof {
        assert((v >> s) & 0xffu32 <= 255) by (bit_vector);
    }
    ((v >> s) & 0xff) as u8
}

/// Flattens eight 32-bit words into their 32 little-endian bytes.
pub fn convert(data: &[u32; 8]) -> (r: Vec<u8>)
    ensures
        r@.len() == 32,
        forall|k: int|
            0 <= k < 32 ==> r@[k] == u32_le_byte_s(data@[k / 4], (8 * (k % 4)) as u32),
{
    let mut res: Vec<u8> = Vec::new();
    let mut i: usize = 0;
    while i < 8
        invariant
            i <= 8,
            res@.len() == 4 * i,
            forall|k: int|
                0 <= k < 4 * i ==> res@[k] == u32_le_byte_s(data@[k / 4], (8 * (k % 4)) as u32),
        decreases 8 - i,
    {
        let w = data[i];
        let mut j: u32 = 0;
        while j < 4
            invariant
                j <= 4,
                w == data@[i as int],
                i < 8,
                res@.len() == 4 * i + j,
                forall|k: int|
                    0 <= k < 4 * i + j ==> res@[k] == u32_le_byte_s(
                        data@[k / 4],
                        (8 * (k % 4)) as u32,
                    ),
            decreases 4 - j,
        {
            let b = u32_le_byte(w, 8 * j);
            res.push(b);
            proof {
                assert((4 * i + j) / 4 == i as int);
                assert((4 * i + j) % 4 == j as int);
            }
            j = j + 1;
        }
        i = i + 1;
    }
    res
}

/// The canonical big-endian byte form of an unsigned big integer read from
/// bytes: leading zero bytes dropped, a single zero byte for zero.
pub open spec fn biguint_bytes_s(s: Seq<u8>) -> Seq<u8>
    decreases s.len(),
{
    if s.len() == 0 {
        seq![0u8]
    } else if s[0] == 0 {
        biguint_bytes_s(s.skip(1))
    } else {
        s
    }
}

/// Reduces big-endian bytes to the canonical form of the integer they
/// spell.
fn biguint_bytes(s: &Vec<u8>) -> (r: Vec<u8>)
    ensures
        r@ == biguint_bytes_s(s@),
{
    let mut i: usize = 0;
    proof {
        assert(s@.skip(0) =~= s@);
    }
    while i < s.len() && s[i] == 0
        invariant
            i <= s@.len(),
            biguint_bytes_s(s@.skip(i as int)) == biguint_bytes_s(s@),
        decreases s@.len() - i,
    {
        proof {
            assert(s@.skip(i as int).skip(1) =~= s@.skip(i as int + 1));
        }
        i = i + 1;
    }
    if i == s.len() {
        proof {
            assert(s@.skip(i as int) =~= Seq::<u8>::empty());
        }
        let mut z: Vec<u8> = Vec::new();
        z.push(0);
        proof {
            assert(z@ =~= seq![0u8]);
        }
        return z;
    }
    let mut out: Vec<u8> = Vec::new();
    let mut k: usize = i;
    while k < s.len()
        invariant
            i <= k <= s@.len(),
            out@ == s@.subrange(i as int, k as int),
        decreases s@.len() - k,
    {
        out.push(s[k]);
        proof {
            assert(out@ =~= s@.subrange(i as int, k as int + 1));
        }
        k = k + 1;
    }
    proof {
        assert(out@ =~= s@.skip(i as int));
    }
    out
}

/// The sign bit a compressed key carries in bit five of its final byte.
pub open spec fn y_sign_bit_s(key: Seq<u8>) -> u8 {
    (key[47] >> 5) & 1
}

/// The running `or`-fold that packs up to eight sign bits into one byte,
/// least significant first.
pub open spec fn pack_acc_s(chunk: Seq<u8>, acc: u8, i: int) -> u8
    decreases chunk.len() - i,
{
    if i < 0 || i >= chunk.len() || i >= 8 {
        acc
    } else {
        pack_acc_s(chunk, acc | (chunk[i] << i as u8), i + 1)
    }
}

/// The sign bits packed into bytes, eight to a byte.
pub open spec fn packed_signs_s(bits: Seq<u8>) -> Seq<u8>
    decreases bits.len(),
{
    if bits.len() == 0 {
        Seq::empty()
    } else if bits.len() <= 8 {
        seq![pack_acc_s(bits, 0, 0)]
    } else {
        seq![pack_acc_s(bits.take(8), 0, 0)] + packed_signs_s(bits.skip(8))
    }
}

/// Splits compressed public keys into the canonical byte form of each
/// x-coordinate's leading 32 bytes and the packed y-sign bits.
pub fn decode_pubkeys_x(compressed_encodings: Vec<Vec<u8>>) -> (r: (Vec<Vec<u8>>, Vec<u8>))
    requires
        forall|i: int|
            0 <= i < compressed_encodings@.len() ==> (#[trigger] compressed_encodings@[i]@).len()
                == 48,
    ensures
        r.0@.len() == compressed_encodings@.len(),
        forall|i: int|
            0 <= i < compressed_encodings@.len() ==> r.0@[i]@ == biguint_bytes_s(
                (#[trigger] compressed_encodings@[i]@).take(32),
            ),
        r.1@ == packed_signs_s(
            Seq::new(compressed_encodings@.len(), |i: int| y_sign_bit_s(compressed_encodings@[i]@)),
        ),
{
    let ghost sign_bits = Seq::new(
        compressed_encodings@.len(),
        |i: int| y_sign_bit_s(compressed_encodings@[i]@),
    );
    let mut x_coordinates: Vec<Vec<u8>> = Vec::new();
    let mut y_signs: Vec<u8> = Vec::new();
    let mut i: usize = 0;
    while i < compressed_encodings.len()
        invariant
            i <= compressed_encodings@.len(),
            forall|j: int|
                0 <= j < compressed_encodings@.len() ==> (#[trigger] compressed_encodings@[j]@).len()
                    == 48,
            sign_bits == Seq::new(
                compressed_encodings@.len(),
                |j: int| y_sign_bit_s(compressed_encodings@[j]@),
            ),
            x_coordinates@.len() == i,
            forall|j: int|
                0 <= j < i ==> x_coordinates@[j]@ == biguint_bytes_s(
                    (#[trigger] compressed_encodings@[j]@).take(32),
                ),
            y_signs@ == sign_bits.take(i as int),
        decreases compressed_encodings@.len() - i,
    {
        let key = &compressed_encodings[i];
        let mut x_bytes: Vec<u8> = Vec::new();
        let mut k: usize = 0;
        while k < 32
            invariant
                k <= 32,
                key@.len() == 48,
                key@ == compressed_encodings@[i as int]@,
                x_bytes@ == key@.take(k as int),
            decreases 32 - k,
        {
            x_bytes.push(key[k]);
            proof {
                assert(x_bytes@ =~= key@.take(k as int + 1));
            }
            k = k + 1;
        }
        let x_coordinate = biguint_bytes(&x_bytes);
        let masked_byte = key[47];
        let y_sign = (masked_byte >> 5) & 1;
        x_coordinates.push(x_coordinate);
        y_signs.push(y_sign);
        proof {
            assert(y_signs@ =~= sign_bits.take(i as int + 1));
        }
        i = i + 1;
    }
    proof {
        assert(sign_bits.take(sign_bits.len() as int) =~= sign_bits);
    }
    let mut y_signs_packed: Vec<u8> = Vec::new();
    let mut j: usize = 0;
    while j < y_signs.len()
        invariant
            j <= y_signs@.len(),
            y_signs@ == sign_bits,
            y_signs_packed@ + packed_signs_s(sign_bits.skip(j as int)) == packed_signs_s(
                sign_bits,
            ),
        decreases y_signs@.len() - j,
    {
        let ghost rest = sign_bits.skip(j as int);
        let mut acc: u8 = 0;
        let mut t: usize = 0;
        let lim = if y_signs.len() - j < 8 {
            y_signs.len() - j
        } else {
            8
        };
        let ghost chunk = if rest.len() <= 8 {
            rest
        } else {
            rest.take(8)
        };
        proof {
            assert(chunk.len() == lim);
            assert forall|t2: int| 0 <= t2 < chunk.len() implies chunk[t2] == sign_bits[j + t2]
                by {}
        }
        while t < lim
            invariant
                t <= lim,
                lim <= 8,
                j + lim <= y_signs@.len(),
                y_signs@.len() <= usize::MAX,
                y_signs@ == sign_bits,
                chunk.len() == lim,
                forall|t2: int| 0 <= t2 < chunk.len() ==> chunk[t2] == sign_bits[j + t2],
                pack_acc_s(chunk, acc, t as int) == pack_acc_s(chunk, 0, 0),
            decreases lim - t,
        {
            acc = acc | (y_signs[j + t] << (t as u8));
            t = t + 1;
        }
        y_signs_packed.push(acc);
        proof {
            assert(pack_acc_s(chunk, acc, lim as int) == acc);
            if rest.len() > 8 {
                assert(rest.skip(8) =~= sign_bits.skip(j as int + 8));
                assert(packed_signs_s(rest) == seq![acc] + packed_signs_s(
                    sign_bits.skip(j as int + 8),
                ));
            } else {
                assert(rest.skip(rest.len() as int) =~= Seq::<u8>::empty());
                assert(packed_signs_s(rest) == seq![acc]);
            }
            assert(y_signs_packed@ =~= (y_signs_packed@.drop_last()).push(acc));
        }
        j = j + lim;
    }
    proof {
        assert(sign_bits.skip(sign_bits.len() as int) =~= Seq::<u8>::empty());
        assert(y_signs_packed@ + packed_signs_s(Seq::<u8>::empty()) =~= y_signs_packed@);
    }
    (x_coordinates, y_signs_packed)
}

/// The concatenation of a list of byte strings from position `k` on.
pub open spec fn concat_bytes_s(list: Seq<Seq<u8>>, k: int) -> Seq<u8>
    decreases list.len() - k,
{
    if k < 0 || k >= list.len() {
        Seq::empty()
    } else {
        list[k] + concat_bytes_s(list, k + 1)
    }
}

/// Hashes the canonical key bytes and the packed sign bytes into one
/// 32-byte commitment.
pub fn commit_to_keys(keys: Vec<Vec<u8>>, signs: Vec<u8>) -> (r: Vec<u8>)
    ensures
        r@ == sha256_s(concat_bytes_s(keys.deep_view(), 0) + signs@),
        r@.len() == 32,
{
    let ghost kdv = keys.deep_view();
    let mut input: Vec<u8> = Vec::new();
    let mut i: usize = 0;
    while i < keys.len()
        invariant
            i <= keys@.len(),
            kdv == keys.deep_view(),
            kdv.len() == keys@.len(),
            input@ + concat_bytes_s(kdv, i as int) == concat_bytes_s(kdv, 0),
        decreases keys@.len() - i,
    {
        let ghost pre = input@;
        proof {
            lemma_deep_view_index(&keys, i as int);
        }
        input = add_left_right(input, &keys[i]);
        proof {
            assert(pre + (kdv[i as int] + concat_bytes_s(kdv, i as int + 1)) =~= input@
                + concat_bytes_s(kdv, i as int + 1));
        }
        i = i + 1;
    }
    proof {
        assert(input@ + concat_bytes_s(kdv, kdv.len() as int) =~= input@);
    }
    let input = add_left_right(input, &signs);
    digest(&input)
}

/// The SHA-256 commitment over decoded keys and signs, as the circuits'
/// hashing precompile computes it.
pub fn precompile_sha2_commitment(keys: Vec<Vec<u8>>, signs: Vec<u8>) -> (r: Vec<u8>)
    ensures
        r@ == sha256_s(concat_bytes_s(keys.deep_view(), 0) + signs@),
        r@.len() == 32,
{
    commit_to_keys(keys, signs)
}

} // verus!


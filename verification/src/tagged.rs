//! Domain-separated tagged hashing: deterministic combinators that turn an
//! ordered set of child digests and raw words into one digest.

use vstd::prelude::*;
use vstd::bytes::{spec_u16_to_le_bytes, u16_to_le_bytes,
    u32_to_le_bytes};
use vstd::slice::slice_index_get;
use vstd::string::StringSliceAdditionalSpecFns;
use crate::digest::{lemma_words_to_bytes_injective, lemma_words_to_bytes_len,
    lemma_words_to_bytes_push, words_to_bytes, zero_words, Digest};
use crate::sha::Sha256;

verus! {

broadcast use crate::digest::lemma_digest_len;

/// The byte renderings of a sequence of digests, concatenated in order.
pub open spec fn spec_digests_concat(down: Seq<Seq<u32>>) -> Seq<u8>
    decreases down.len(),
{
    if down.len() == 0 {
        Seq::empty()
    } else {
        words_to_bytes(down[0]) + spec_digests_concat(down.drop_first())
    }
}

/// The byte string a tagged struct commits to: the digest of the tag, the
/// child digests in order, the data words in little-endian order, and the
/// child count as a trailing two-byte little-endian domain separator.
pub open spec fn spec_tagged_struct_preimage<S: Sha256>(
    tag_bytes: Seq<u8>,
    down: Seq<Seq<u32>>,
    data: Seq<u32>,
) -> Seq<u8> {
    words_to_bytes(S::spec_hash_bytes(tag_bytes)) + spec_digests_concat(down) + words_to_bytes(
        data,
    ) + spec_u16_to_le_bytes(down.len() as u16)
}

/// The digest of a tagged struct: the hash of its preimage.
pub open spec fn spec_tagged_struct<S: Sha256>(
    tag_bytes: Seq<u8>,
    down: Seq<Seq<u32>>,
    data: Seq<u32>,
) -> Seq<u32> {
    S::spec_hash_bytes(spec_tagged_struct_preimage::<S>(tag_bytes, down, data))
}

/// One cons step of the tagged list fold.
pub open spec fn spec_tagged_list_cons<S: Sha256>(
    tag_bytes: Seq<u8>,
    head: Seq<u32>,
    tail: Seq<u32>,
) -> Seq<u32> {
    spec_tagged_struct::<S>(tag_bytes, seq![head, tail], Seq::empty())
}

/// The digest of a tagged list: a right fold of [`spec_tagged_list_cons`]
/// seeded with the all-zero digest, so the digest of `[a, b, c]` is
/// `cons(a, cons(b, cons(c, zero)))` and the digest of the empty list is
/// the all-zero digest.
pub open spec fn spec_tagged_list<S: Sha256>(tag_bytes: Seq<u8>, items: Seq<Seq<u32>>) -> Seq<u32>
    decreases items.len(),
{
    if items.len() == 0 {
        zero_words()
    } else {
        spec_tagged_list_cons::<S>(
            tag_bytes,
            items[0],
            spec_tagged_list::<S>(tag_bytes, items.drop_first()),
        )
    }
}

proof fn lemma_digests_concat_push(down: Seq<Seq<u32>>, d: Seq<u32>)
    ensures
        spec_digests_concat(down.push(d)) == spec_digests_concat(down) + words_to_bytes(d),
    decreases down.len(),
{
    if down.len() == 0 {
        assert(down.push(d).drop_first() =~= Seq::<Seq<u32>>::empty());
        assert(down.push(d)[0] == d);
        assert(spec_digests_concat(down.push(d)) == words_to_bytes(d) + spec_digests_concat(
            Seq::<Seq<u32>>::empty(),
        ));
        assert(spec_digests_concat(down.push(d)) =~= spec_digests_concat(down) + words_to_bytes(
            d,
        ));
    } else {
        assert(down.push(d).drop_first() =~= down.drop_first().push(d));
        lemma_digests_concat_push(down.drop_first(), d);
        assert(spec_digests_concat(down.push(d)) == words_to_bytes(down[0])
            + spec_digests_concat(down.drop_first().push(d)));
        assert(spec_digests_concat(down.push(d)) =~= spec_digests_concat(down) + words_to_bytes(
            d,
        ));
    }
}

/// Computes the domain-separated digest of one structural record:
/// `H(H(tag) || children || data words || child count)`. The child count
/// must fit the 16-bit count field; a record type's arity is fixed, so the
/// bound is a structural precondition, not an input-driven failure.
pub fn tagged_struct<S: Sha256>(tag: &str, down: &[Digest], data: &[u32]) -> (r: Digest)
    requires
        down@.len() <= u16::MAX,
    ensures
        r@ == spec_tagged_struct::<S>(
            tag.spec_bytes(),
            down@.map_values(|d: Digest| d@),
            data@,
        ),
{
    let ghost down_words = down@.map_values(|d: Digest| d@);
    let tag_digest = S::hash_bytes(tag.as_bytes());
    let mut all: Vec<u8> = tag_digest.as_bytes();
    let n = down.len();
    let mut i: usize = 0;
    while i < n
        invariant
            n == down@.len(),
            i <= n,
            down_words == down@.map_values(|d: Digest| d@),
            all@ == words_to_bytes(tag_digest@) + spec_digests_concat(down_words.take(i as int)),
        decreases n - i,
    {
        let mut db = slice_index_get(down, i).as_bytes();
        all.append(&mut db);
        proof {
            assert(down_words.take(i + 1) =~= down_words.take(i as int).push(down@[i as int]@));
            lemma_digests_concat_push(down_words.take(i as int), down@[i as int]@);
        }
        i = i + 1;
    }
    proof {
        assert(down_words.take(n as int) =~= down_words);
    }
    let m = data.len();
    let mut j: usize = 0;
    while j < m
        invariant
            m == data@.len(),
            j <= m,
            all@ == words_to_bytes(tag_digest@) + spec_digests_concat(down_words)
                + words_to_bytes(data@.take(j as int)),
        decreases m - j,
    {
        let mut wb = u32_to_le_bytes(*slice_index_get(data, j));
        all.append(&mut wb);
        proof {
            assert(data@.take(j + 1) =~= data@.take(j as int).push(data@[j as int]));
            lemma_words_to_bytes_push(data@.take(j as int), data@[j as int]);
        }
        j = j + 1;
    }
    proof {
        assert(data@.take(m as int) =~= data@);
    }
    let down_count: u16 = n as u16;
    let mut cb = u16_to_le_bytes(down_count);
    all.append(&mut cb);
    proof {
        assert(down_words.len() == down@.len());
        assert(all@ == spec_tagged_struct_preimage::<S>(tag.spec_bytes(), down_words, data@));
    }
    S::hash_bytes(all.as_slice())
}

/// One cons step of the tagged list fold: the tagged struct whose children
/// are the head and the digest of the tail.
pub fn tagged_list_cons<S: Sha256>(tag: &str, head: &Digest, tail: &Digest) -> (r: Digest)
    ensures
        r@ == spec_tagged_list_cons::<S>(tag.spec_bytes(), head@, tail@),
{
    let down = [*head, *tail];
    let data: [u32; 0] = [];
    let r = tagged_struct::<S>(tag, down.as_slice(), data.as_slice());
    proof {
        assert(down@.map_values(|d: Digest| d@) =~= seq![head@, tail@]);
        assert(data@ =~= Seq::<u32>::empty());
    }
    r
}

/// Folds a sequence of digests from the last element to the first, seeding
/// the fold with the all-zero digest.
pub fn tagged_iter<S: Sha256>(tag: &str, items: &[Digest]) -> (r: Digest)
    ensures
        r@ == spec_tagged_list::<S>(tag.spec_bytes(), items@.map_values(|d: Digest| d@)),
{
    let ghost item_words = items@.map_values(|d: Digest| d@);
    let mut acc = Digest::zero();
    let mut i: usize = items.len();
    while i > 0
        invariant
            i <= items@.len(),
            item_words == items@.map_values(|d: Digest| d@),
            acc@ == spec_tagged_list::<S>(tag.spec_bytes(), item_words.skip(i as int)),
        decreases i,
    {
        i = i - 1;
        let elem = *slice_index_get(items, i);
        acc = tagged_list_cons::<S>(tag, &elem, &acc);
        proof {
            assert(item_words.skip(i as int).drop_first() =~= item_words.skip(i + 1));
            assert(item_words.skip(i as int)[0] == items@[i as int]@);
        }
    }
    proof {
        assert(item_words.skip(0) =~= item_words);
    }
    acc
}

/// The digest of an ordered list of digests under a tag.
pub fn tagged_list<S: Sha256>(tag: &str, list: &[Digest]) -> (r: Digest)
    ensures
        r@ == spec_tagged_list::<S>(tag.spec_bytes(), list@.map_values(|d: Digest| d@)),
{
    tagged_iter::<S>(tag, list)
}

/// The digest of the empty tagged list is the all-zero digest: the fold has
/// no cons step, so no tag hashing occurs.
pub proof fn lemma_tagged_list_empty<S: Sha256>(tag_bytes: Seq<u8>)
    ensures
        spec_tagged_list::<S>(tag_bytes, Seq::empty()) == zero_words(),
{
}

/// Child order is part of the commitment: swapping two unequal children of
/// a tagged struct changes the byte string committed to, so equal digests
/// for the two orders would exhibit a hash collision.
pub proof fn lemma_tagged_struct_order_sensitive<S: Sha256>(
    tag_bytes: Seq<u8>,
    a: Seq<u32>,
    b: Seq<u32>,
)
    requires
        a.len() == 8,
        b.len() == 8,
        a != b,
    ensures
        spec_tagged_struct_preimage::<S>(tag_bytes, seq![a, b], Seq::empty())
            != spec_tagged_struct_preimage::<S>(tag_bytes, seq![b, a], Seq::empty()),
{
    lemma_words_to_bytes_len(a);
    lemma_words_to_bytes_len(b);
    let c1 = spec_digests_concat(seq![a, b]);
    let c2 = spec_digests_concat(seq![b, a]);
    assert(seq![a, b].drop_first() =~= seq![b]);
    assert(seq![b, a].drop_first() =~= seq![a]);
    assert(seq![b].drop_first() =~= Seq::<Seq<u32>>::empty());
    assert(seq![a].drop_first() =~= Seq::<Seq<u32>>::empty());
    assert(spec_digests_concat(Seq::<Seq<u32>>::empty()) == Seq::<u8>::empty());
    assert(spec_digests_concat(seq![a]) == words_to_bytes(a) + Seq::<u8>::empty());
    assert(spec_digests_concat(seq![b]) == words_to_bytes(b) + Seq::<u8>::empty());
    assert(c1 == words_to_bytes(a) + (words_to_bytes(b) + Seq::<u8>::empty()));
    assert(c2 == words_to_bytes(b) + (words_to_bytes(a) + Seq::<u8>::empty()));
    assert(c1 =~= words_to_bytes(a) + words_to_bytes(b));
    assert(c2 =~= words_to_bytes(b) + words_to_bytes(a));
    if spec_tagged_struct_preimage::<S>(tag_bytes, seq![a, b], Seq::empty())
        == spec_tagged_struct_preimage::<S>(tag_bytes, seq![b, a], Seq::empty()) {
        let t = words_to_bytes(S::spec_hash_bytes(tag_bytes));
        assert forall|k: int| 0 <= k < 64 implies c1[k] == c2[k] by {
            let p1 = spec_tagged_struct_preimage::<S>(tag_bytes, seq![a, b], Seq::empty());
            assert(p1[t.len() + k] == c1[k]);
            assert(p1[t.len() + k] == c2[k]);
        }
        assert(c1 =~= c2);
        assert(words_to_bytes(a) =~= c1.subrange(0, 32));
        assert(words_to_bytes(b) =~= c2.subrange(0, 32));
        lemma_words_to_bytes_injective(a, b);
        assert(false);
    }
}

} // verus!

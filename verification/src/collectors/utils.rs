//! The identity key of a record: a digest of its natural-key fields.
//!
//! The fields are joined with a bar, the text is digested with SHA-256, and
//! the first sixteen bytes of the digest are written as thirty-two lowercase
//! hexadecimal digits.

use vstd::prelude::*;
use vstd::slice::slice_subrange;
use vstd::string::StringSliceAdditionalSpecFns;
use vstd::utf8::{encode_utf8, encode_utf8_decode_utf8};
use sha2::Digest;
use crate::text::joined;

verus! {

/// The SHA-256 digest of a byte sequence.
pub uninterp spec fn sha256(data: Seq<u8>) -> Seq<u8>;

/// The character of a hexadecimal digit, in lowercase.
pub open spec fn hex_digit(n: int) -> char {
    if n == 0 {
        '0'
    } else if n == 1 {
        '1'
    } else if n == 2 {
        '2'
    } else if n == 3 {
        '3'
    } else if n == 4 {
        '4'
    } else if n == 5 {
        '5'
    } else if n == 6 {
        '6'
    } else if n == 7 {
        '7'
    } else if n == 8 {
        '8'
    } else if n == 9 {
        '9'
    } else if n == 10 {
        'a'
    } else if n == 11 {
        'b'
    } else if n == 12 {
        'c'
    } else if n == 13 {
        'd'
    } else if n == 14 {
        'e'
    } else {
        'f'
    }
}

/// The bytes written in lowercase hexadecimal: two digits for each byte, the
/// high half first.
pub open spec fn hex_lower(data: Seq<u8>) -> Seq<char> {
    Seq::new(
        2 * data.len(),
        |i: int|
            if i % 2 == 0 {
                hex_digit(data[i / 2] as int / 16)
            } else {
                hex_digit(data[i / 2] as int % 16)
            },
    )
}

/// The text of a part: nothing for an absent one.
pub open spec fn part_text(part: Option<String>) -> Seq<char> {
    match part {
        Some(text) => text@,
        None => Seq::empty(),
    }
}

/// The text that is digested: the parts with a bar between neighbours.
pub open spec fn hash_input(parts: Seq<Seq<char>>) -> Seq<char> {
    joined(parts, "|"@)
}

/// The number of digest bytes that a key is written from.
pub open spec fn key_bytes(digest: Seq<u8>) -> int {
    if digest.len() < 16 {
        digest.len() as int
    } else {
        16
    }
}

/// The part of a digest that a key is written from.
pub open spec fn key_part(digest: Seq<u8>) -> Seq<u8> {
    digest.take(key_bytes(digest))
}

/// The key written from a digest.
pub open spec fn digest_key(digest: Seq<u8>) -> Seq<char> {
    hex_lower(key_part(digest))
}

/// The identity key of a record with the given natural-key parts.
pub open spec fn record_hash(parts: Seq<Seq<char>>) -> Seq<char> {
    digest_key(sha256(encode_utf8(hash_input(parts))))
}

/// `Sha256::digest` of the crate sha2: the SHA-256 digest of `data`. The
/// contract gives the digest its name and states its length, 32 bytes.
#[verifier::external_body]
fn sha256_digest(data: &[u8]) -> (r: Vec<u8>)
    ensures
        r@ == sha256(data@),
        r@.len() == 32,
{
    sha2::Sha256::digest(data).to_vec()
}

/// `hex::encode` of the crate hex: two lowercase hexadecimal digits for each
/// byte of `data`, in order, the high half of a byte first.
#[verifier::external_body]
fn hex_encode(data: &[u8]) -> (r: String)
    ensures
        r@ == hex_lower(data@),
{
    hex::encode(data)
}

/// The key written from a digest: its first sixteen bytes, or all of a
/// shorter one, in lowercase hexadecimal.
pub fn key_of_digest(digest: &[u8]) -> (r: String)
    ensures
        r@ == digest_key(digest@),
        r@.len() == 2 * key_bytes(digest@),
{
    let count: usize = if digest.len() < 16 {
        digest.len()
    } else {
        16
    };
    let head = slice_subrange(digest, 0, count);
    hex_encode(head)
}

/// The key of the text `input`.
pub fn hash_text(input: &str) -> (r: String)
    ensures
        r@ == digest_key(sha256(encode_utf8(input@))),
        r@.len() == 32,
{
    let digest = sha256_digest(input.as_bytes());
    key_of_digest(digest.as_slice())
}

/// The identity key of a record whose natural-key parts may be absent; an
/// absent part counts as an empty one.
pub fn make_hash(parts: &[Option<String>]) -> (r: String)
    ensures
        r@ == record_hash(parts@.map_values(|p: Option<String>| part_text(p))),
        r@.len() == 32,
{
    let ghost texts = parts@.map_values(|p: Option<String>| part_text(p));
    let mut combined = String::new();
    let mut i: usize = 0;
    while i < parts.len()
        invariant
            i <= parts.len(),
            texts == parts@.map_values(|p: Option<String>| part_text(p)),
            combined@ == hash_input(texts.take(i as int)),
        decreases parts.len() - i,
    {
        proof {
            assert(texts.take(i + 1).drop_last() =~= texts.take(i as int));
            assert(texts.take(i + 1).last() == part_text(parts@[i as int]));
        }
        if i > 0 {
            combined.append("|");
        }
        match &parts[i] {
            Some(text) => {
                combined.append(text.as_str());
            },
            None => {},
        }
        assert(combined@ =~= hash_input(texts.take(i + 1)));
        i = i + 1;
    }
    assert(texts.take(parts@.len() as int) =~= texts);
    hash_text(combined.as_str())
}

/// The identity key of a record with the given natural-key parts.
pub fn make_hash_from_strs(parts: &[&str]) -> (r: String)
    ensures
        r@ == record_hash(parts@.map_values(|p: &str| p@)),
        r@.len() == 32,
{
    let ghost texts = parts@.map_values(|p: &str| p@);
    let mut combined = String::new();
    let mut i: usize = 0;
    while i < parts.len()
        invariant
            i <= parts.len(),
            texts == parts@.map_values(|p: &str| p@),
            combined@ == hash_input(texts.take(i as int)),
        decreases parts.len() - i,
    {
        proof {
            assert(texts.take(i + 1).drop_last() =~= texts.take(i as int));
            assert(texts.take(i + 1).last() == parts@[i as int]@);
        }
        if i > 0 {
            combined.append("|");
        }
        combined.append(parts[i]);
        assert(combined@ =~= hash_input(texts.take(i + 1)));
        i = i + 1;
    }
    assert(texts.take(parts@.len() as int) =~= texts);
    hash_text(combined.as_str())
}

/// The identity key of a record with the given natural-key values.
pub fn make_hash_from_values(values: &[&str]) -> (r: String)
    ensures
        r@ == record_hash(values@.map_values(|p: &str| p@)),
        r@.len() == 32,
{
    make_hash_from_strs(values)
}

/// Whether a part holds no bar.
pub open spec fn bar_free(part: Seq<char>) -> bool {
    forall|i: int| 0 <= i < part.len() ==> part[i] != '|'
}

/// The key of a record depends on the texts of its natural-key parts alone:
/// parts of the same texts give the same key, whenever and wherever they are
/// hashed, and an absent part counts as an empty one.
pub proof fn law_hash_is_deterministic(parts: Seq<Option<String>>, again: Seq<Option<String>>)
    requires
        parts.len() == again.len(),
        forall|i: int| 0 <= i < parts.len() ==> part_text(parts[i]) == part_text(again[i]),
    ensures
        record_hash(parts.map_values(|p: Option<String>| part_text(p))) == record_hash(
            again.map_values(|p: Option<String>| part_text(p)),
        ),
{
    assert(parts.map_values(|p: Option<String>| part_text(p)) =~= again.map_values(
        |p: Option<String>| part_text(p),
    ));
}

/// Writing bytes in hexadecimal loses nothing: different bytes are written
/// differently.
pub proof fn law_hex_is_injective(a: Seq<u8>, b: Seq<u8>)
    requires
        hex_lower(a) == hex_lower(b),
    ensures
        a == b,
{
    assert(hex_lower(a).len() == 2 * a.len());
    assert(hex_lower(b).len() == 2 * b.len());
    assert forall|i: int| 0 <= i < a.len() implies a[i] == b[i] by {
        let high = hex_lower(a)[2 * i];
        let low = hex_lower(a)[2 * i + 1];
        assert(high == hex_lower(b)[2 * i]);
        assert(low == hex_lower(b)[2 * i + 1]);
        assert(high == hex_digit(a[i] as int / 16));
        assert(low == hex_digit(a[i] as int % 16));
        assert(high == hex_digit(b[i] as int / 16));
        assert(low == hex_digit(b[i] as int % 16));
    }
    assert(a =~= b);
}

/// The length of the joined parts, for two parts or more: that of all but
/// the last, the bar, and the last.
proof fn lemma_joined_len(parts: Seq<Seq<char>>)
    requires
        parts.len() >= 2,
    ensures
        hash_input(parts) == hash_input(parts.drop_last()) + "|"@ + parts.last(),
        "|"@.len() == 1,
        "|"@[0] == '|',
{
    reveal_strlit("|");
}

/// Joining parts with a bar loses nothing where no part holds a bar: of as
/// many such parts, different ones are joined to different texts.
pub proof fn law_join_is_injective(p: Seq<Seq<char>>, q: Seq<Seq<char>>)
    requires
        p.len() == q.len(),
        forall|i: int| 0 <= i < p.len() ==> bar_free(#[trigger] p[i]),
        forall|i: int| 0 <= i < q.len() ==> bar_free(#[trigger] q[i]),
        hash_input(p) == hash_input(q),
    ensures
        p == q,
    decreases p.len(),
{
    if p.len() == 0 {
        assert(p =~= q);
    } else if p.len() == 1 {
        assert(p =~= q);
    } else {
        lemma_joined_len(p);
        lemma_joined_len(q);
        let whole = hash_input(p);
        let pf = hash_input(p.drop_last());
        let qf = hash_input(q.drop_last());
        let pl = p.last();
        let ql = q.last();
        assert(bar_free(p[p.len() - 1]));
        assert(bar_free(q[q.len() - 1]));
        assert(whole.len() == pf.len() + 1 + pl.len());
        assert(whole.len() == qf.len() + 1 + ql.len());
        assert(whole[pf.len() as int] == '|');
        assert((qf + "|"@ + ql)[qf.len() as int] == '|');
        if pl.len() < ql.len() {
            let at = pf.len() as int;
            assert(at > qf.len());
            assert((qf + "|"@ + ql)[at] == ql[at - qf.len() - 1]);
            assert(false);
        }
        if ql.len() < pl.len() {
            let at = qf.len() as int;
            assert(at > pf.len());
            assert((pf + "|"@ + pl)[at] == pl[at - pf.len() - 1]);
            assert(false);
        }
        assert(pf.len() == qf.len());
        assert(pl =~= ql) by {
            assert forall|i: int| 0 <= i < pl.len() implies pl[i] == ql[i] by {
                assert((pf + "|"@ + pl)[pf.len() + 1 + i] == pl[i]);
                assert((qf + "|"@ + ql)[qf.len() + 1 + i] == ql[i]);
            }
        }
        assert(pf =~= qf) by {
            assert forall|i: int| 0 <= i < pf.len() implies pf[i] == qf[i] by {
                assert((pf + "|"@ + pl)[i] == pf[i]);
                assert((qf + "|"@ + ql)[i] == qf[i]);
            }
        }
        assert forall|i: int| 0 <= i < p.drop_last().len() implies bar_free(
            #[trigger] p.drop_last()[i],
        ) by {
            assert(p.drop_last()[i] == p[i]);
        }
        assert forall|i: int| 0 <= i < q.drop_last().len() implies bar_free(
            #[trigger] q.drop_last()[i],
        ) by {
            assert(q.drop_last()[i] == q[i]);
        }
        law_join_is_injective(p.drop_last(), q.drop_last());
        assert(p =~= p.drop_last().push(pl));
        assert(q =~= q.drop_last().push(ql));
    }
}

/// Records that differ are told apart unless their digests collide: as many
/// parts, none of which holds a bar, that differ anywhere are digested from
/// different bytes, and they are given the same key only where the digests
/// agree in the part that the key is written from.
pub proof fn law_keys_differ_unless_digests_collide(p: Seq<Seq<char>>, q: Seq<Seq<char>>)
    requires
        p.len() == q.len(),
        forall|i: int| 0 <= i < p.len() ==> bar_free(#[trigger] p[i]),
        forall|i: int| 0 <= i < q.len() ==> bar_free(#[trigger] q[i]),
        p != q,
    ensures
        encode_utf8(hash_input(p)) != encode_utf8(hash_input(q)),
        record_hash(p) == record_hash(q) ==> key_part(sha256(encode_utf8(hash_input(p))))
            == key_part(sha256(encode_utf8(hash_input(q)))),
{
    if hash_input(p) == hash_input(q) {
        law_join_is_injective(p, q);
    }
    encode_utf8_decode_utf8(hash_input(p));
    encode_utf8_decode_utf8(hash_input(q));
    if record_hash(p) == record_hash(q) {
        law_hex_is_injective(
            key_part(sha256(encode_utf8(hash_input(p)))),
            key_part(sha256(encode_utf8(hash_input(q)))),
        );
    }
}

} // verus!

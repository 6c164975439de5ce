//! Change detection: a fingerprint of what an entry sends to the remote
//! platform, and the store that remembers the fingerprint of each entry as it
//! was last synchronised.

use crate::products::{ProductJson, ProductJsonView};
use crate::text::{decimal, decimal_nat, digit_char, push_decimal, push_decimal_nat};
use std::collections::HashMap;
use vstd::prelude::*;
use vstd::string::*;

verus! {

/// How the regional-pricing flag is written in a fingerprint.
pub open spec fn flag_char(flag: bool) -> char {
    if flag {
        '1'
    } else {
        '0'
    }
}

/// A decimal run, a colon, and what follows it.
pub open spec fn with_colon(run: Seq<char>, rest: Seq<char>) -> Seq<char> {
    run + seq![':'] + rest
}

/// Name, description and image reference of an entry, one after the other.
pub open spec fn texts(entry: ProductJsonView) -> Seq<char> {
    entry.name + entry.description + entry.image
}

/// The fingerprint of an entry: a canonical rendering of the five fields that
/// a synchronisation sends. The flag comes first, then the price and the
/// lengths of name and description, each closed by a colon, then name,
/// description and image reference. Neither the remote identifier nor the
/// kind takes part.
pub open spec fn fingerprint(entry: ProductJsonView) -> Seq<char> {
    seq![flag_char(entry.regional_pricing)] + with_colon(
        decimal(entry.price),
        with_colon(
            decimal_nat(entry.name.len()),
            with_colon(decimal_nat(entry.description.len()), texts(entry)),
        ),
    )
}

/// The fingerprints on record, by remote identifier.
pub open spec fn store_view(hashes: Map<i64, String>) -> Map<int, Seq<char>> {
    Map::new(|id: int| i64::MIN <= id <= i64::MAX && hashes.contains_key(id as i64), |id: int| hashes[id as i64]@)
}

/// Whether an entry has to be sent: it has no remote identifier yet, or the
/// store holds no fingerprint for its identifier, or a different one.
pub open spec fn needs_sync(entry: ProductJsonView, store: Map<int, Seq<char>>) -> bool {
    entry.id <= 0 || !store.contains_key(entry.id) || store[entry.id] != fingerprint(entry)
}

/// A character of a decimal rendering is a digit or the minus sign; it is
/// never a colon.
pub open spec fn is_decimal_char(c: char) -> bool {
    c == '-' || c == '0' || c == '1' || c == '2' || c == '3' || c == '4' || c == '5' || c == '6'
        || c == '7' || c == '8' || c == '9'
}

proof fn lemma_decimal_nat_chars(n: nat)
    ensures
        decimal_nat(n).len() >= 1,
        n >= 10 ==> decimal_nat(n).len() >= 2,
        forall|i: int|
            0 <= i < decimal_nat(n).len() ==> is_decimal_char(#[trigger] decimal_nat(n)[i])
                && decimal_nat(n)[i] != '-',
    decreases n,
{
    if n >= 10 {
        lemma_decimal_nat_chars(n / 10);
    }
}

proof fn lemma_digit_char_injective(x: int, y: int)
    requires
        0 <= x < 10,
        0 <= y < 10,
        digit_char(x) == digit_char(y),
    ensures
        x == y,
{
}

proof fn lemma_decimal_nat_injective(a: nat, b: nat)
    requires
        decimal_nat(a) == decimal_nat(b),
    ensures
        a == b,
    decreases a,
{
    lemma_decimal_nat_chars(a);
    lemma_decimal_nat_chars(b);
    if a < 10 {
        assert(decimal_nat(a).len() == 1);
        assert(b < 10);
        assert(decimal_nat(a)[0] == digit_char(a as int));
        assert(decimal_nat(b)[0] == digit_char(b as int));
        lemma_digit_char_injective(a as int, b as int);
    } else {
        assert(b >= 10);
        let da = decimal_nat(a / 10);
        let db = decimal_nat(b / 10);
        let la = digit_char((a % 10) as int);
        let lb = digit_char((b % 10) as int);
        assert(da.push(la) == db.push(lb));
        assert(da.push(la).last() == la);
        assert(db.push(lb).last() == lb);
        assert(da.push(la).drop_last() =~= da);
        assert(db.push(lb).drop_last() =~= db);
        lemma_decimal_nat_injective(a / 10, b / 10);
        lemma_digit_char_injective((a % 10) as int, (b % 10) as int);
    }
}

proof fn lemma_decimal_chars(n: int)
    ensures
        decimal(n).len() >= 1,
        forall|i: int| 0 <= i < decimal(n).len() ==> is_decimal_char(#[trigger] decimal(n)[i]),
{
    if n < 0 {
        lemma_decimal_nat_chars((-n) as nat);
    } else {
        lemma_decimal_nat_chars(n as nat);
    }
}

proof fn lemma_decimal_injective(a: int, b: int)
    requires
        decimal(a) == decimal(b),
    ensures
        a == b,
{
    if a < 0 {
        lemma_decimal_nat_chars((-a) as nat);
    } else {
        lemma_decimal_nat_chars(a as nat);
    }
    if b < 0 {
        lemma_decimal_nat_chars((-b) as nat);
    } else {
        lemma_decimal_nat_chars(b as nat);
    }
    assert(decimal(a)[0] == decimal(b)[0]);
    if a < 0 {
        assert(decimal(a)[0] == '-');
        if b >= 0 {
            assert(decimal_nat(b as nat)[0] != '-');
        }
        assert(b < 0);
        let ma = decimal_nat((-a) as nat);
        let mb = decimal_nat((-b) as nat);
        assert(decimal(a).subrange(1, decimal(a).len() as int) =~= ma);
        assert(decimal(b).subrange(1, decimal(b).len() as int) =~= mb);
        lemma_decimal_nat_injective((-a) as nat, (-b) as nat);
    } else {
        assert(decimal_nat(a as nat)[0] != '-');
        if b < 0 {
            assert(decimal(b)[0] == '-');
        }
        assert(b >= 0);
        lemma_decimal_nat_injective(a as nat, b as nat);
    }
}

/// Two texts that each start with a run of decimal characters closed by a
/// colon are equal only if the runs are equal and what follows is equal.
proof fn lemma_split_at_colon(d1: Seq<char>, r1: Seq<char>, d2: Seq<char>, r2: Seq<char>)
    requires
        with_colon(d1, r1) == with_colon(d2, r2),
        forall|i: int| 0 <= i < d1.len() ==> is_decimal_char(#[trigger] d1[i]),
        forall|i: int| 0 <= i < d2.len() ==> is_decimal_char(#[trigger] d2[i]),
    ensures
        d1 == d2,
        r1 == r2,
{
    let s1 = with_colon(d1, r1);
    let s2 = with_colon(d2, r2);
    if d1.len() < d2.len() {
        assert(s1[d1.len() as int] == ':');
        assert(s2[d1.len() as int] == d2[d1.len() as int]);
        assert(is_decimal_char(d2[d1.len() as int]));
        assert(false);
    }
    if d2.len() < d1.len() {
        assert(s2[d2.len() as int] == ':');
        assert(s1[d2.len() as int] == d1[d2.len() as int]);
        assert(is_decimal_char(d1[d2.len() as int]));
        assert(false);
    }
    assert(d1 =~= s1.subrange(0, d1.len() as int));
    assert(d2 =~= s2.subrange(0, d2.len() as int));
    assert(r1 =~= s1.subrange(d1.len() as int + 1, s1.len() as int));
    assert(r2 =~= s2.subrange(d2.len() as int + 1, s2.len() as int));
}

proof fn lemma_split_first(c1: char, t1: Seq<char>, c2: char, t2: Seq<char>)
    requires
        seq![c1] + t1 == seq![c2] + t2,
    ensures
        c1 == c2,
        t1 == t2,
{
    let s1 = seq![c1] + t1;
    let s2 = seq![c2] + t2;
    assert(s1[0] == c1);
    assert(s2[0] == c2);
    assert(t1 =~= s1.subrange(1, s1.len() as int));
    assert(t2 =~= s2.subrange(1, s2.len() as int));
}

proof fn lemma_split_texts(a: ProductJsonView, b: ProductJsonView)
    requires
        texts(a) == texts(b),
        a.name.len() == b.name.len(),
        a.description.len() == b.description.len(),
    ensures
        a.name == b.name,
        a.description == b.description,
        a.image == b.image,
{
    let n = a.name.len() as int;
    let d = a.description.len() as int;
    let ta = texts(a);
    let tb = texts(b);
    assert(a.name =~= ta.subrange(0, n));
    assert(b.name =~= tb.subrange(0, n));
    assert(a.description =~= ta.subrange(n, n + d));
    assert(b.description =~= tb.subrange(n, n + d));
    assert(a.image =~= ta.subrange(n + d, ta.len() as int));
    assert(b.image =~= tb.subrange(n + d, tb.len() as int));
}

/// Two entries have the same fingerprint exactly when they agree on name,
/// description, image reference, price and the regional-pricing flag. So a
/// change to any of the five changes the fingerprint, and a change to the
/// remote identifier or to the kind does not.
pub proof fn lemma_fingerprint_detects_change(a: ProductJsonView, b: ProductJsonView)
    ensures
        fingerprint(a) == fingerprint(b) <==> (a.name == b.name && a.description == b.description
            && a.image == b.image && a.price == b.price && a.regional_pricing
            == b.regional_pricing),
{
    if fingerprint(a) == fingerprint(b) {
        let a2 = with_colon(decimal_nat(a.description.len()), texts(a));
        let b2 = with_colon(decimal_nat(b.description.len()), texts(b));
        let a1 = with_colon(decimal_nat(a.name.len()), a2);
        let b1 = with_colon(decimal_nat(b.name.len()), b2);
        let a0 = with_colon(decimal(a.price), a1);
        let b0 = with_colon(decimal(b.price), b1);
        lemma_split_first(flag_char(a.regional_pricing), a0, flag_char(b.regional_pricing), b0);
        lemma_decimal_chars(a.price);
        lemma_decimal_chars(b.price);
        lemma_split_at_colon(decimal(a.price), a1, decimal(b.price), b1);
        lemma_decimal_injective(a.price, b.price);
        lemma_decimal_nat_chars(a.name.len());
        lemma_decimal_nat_chars(b.name.len());
        lemma_split_at_colon(decimal_nat(a.name.len()), a2, decimal_nat(b.name.len()), b2);
        lemma_decimal_nat_injective(a.name.len(), b.name.len());
        lemma_decimal_nat_chars(a.description.len());
        lemma_decimal_nat_chars(b.description.len());
        lemma_split_at_colon(
            decimal_nat(a.description.len()),
            texts(a),
            decimal_nat(b.description.len()),
            texts(b),
        );
        lemma_decimal_nat_injective(a.description.len(), b.description.len());
        lemma_split_texts(a, b);
    }
}

/// Computes the fingerprint of an entry.
pub fn get_product_hash(product: &ProductJson) -> (hash: String)
    ensures
        hash@ == fingerprint(product@),
{
    proof {
        reveal_strlit("1");
        reveal_strlit("0");
        reveal_strlit(":");
    }
    let mut hash = if product.regional_pricing {
        String::from_str("1")
    } else {
        String::from_str("0")
    };
    assert(hash@ =~= seq![flag_char(product.regional_pricing)]);
    push_decimal(&mut hash, product.price);
    hash.append(":");
    push_decimal_nat(&mut hash, product.name.as_str().unicode_len() as u64);
    hash.append(":");
    push_decimal_nat(&mut hash, product.description.as_str().unicode_len() as u64);
    hash.append(":");
    hash.append(product.name.as_str());
    hash.append(product.description.as_str());
    hash.append(product.image.as_str());
    assert(hash@ =~= fingerprint(product@));
    hash
}

/// Decides whether an entry has to be sent to the remote platform, given its
/// fingerprint and the fingerprints on record.
pub fn should_sync(product: &ProductJson, hashes: &HashMap<i64, String>) -> (sync: bool)
    ensures
        sync == needs_sync(product@, store_view(hashes@)),
{
    broadcast use vstd::std_specs::hash::group_hash_axioms;

    if product.id <= 0 {
        return true;
    }
    let hash = get_product_hash(product);
    match hashes.get(&product.id) {
        Some(existing) => *existing != hash,
        None => true,
    }
}

} // verus!

use vstd::prelude::*;
use crate::decimal::{append_int, int_text, price_cents};
use crate::error::LocalError;
use crate::product::{apply_field, apply_fields, FieldValue, ProductV};

verus! {

/// The cache key of a product.
pub fn get_product_key(id: i32) -> (r: String)
    ensures
        r@ == "product_"@ + int_text(id as int),
{
    let mut key = String::from_str("product_");
    append_int(&mut key, id as i64);
    key
}

/// A product as the service reads it: the cached snapshot when there is
/// one, else the ledger's row.
pub open spec fn read_through(cache: Map<i32, ProductV>, ledger: Map<i32, ProductV>, id: i32) -> Option<
    ProductV,
> {
    if cache.contains_key(id) {
        Some(cache[id])
    } else if ledger.contains_key(id) {
        Some(ledger[id])
    } else {
        None
    }
}

/// The cache after a read: a miss that the ledger answers stores the row,
/// when that store succeeds (`populated`).
pub open spec fn cache_after_read(
    cache: Map<i32, ProductV>,
    ledger: Map<i32, ProductV>,
    id: i32,
    populated: bool,
) -> Map<i32, ProductV> {
    if !cache.contains_key(id) && ledger.contains_key(id) && populated {
        cache.insert(id, ledger[id])
    } else {
        cache
    }
}

/// Reading a product twice, with no write in between, gives the same
/// product both times, whether or not the first read could fill the cache.
pub proof fn lemma_read_is_idempotent(
    cache: Map<i32, ProductV>,
    ledger: Map<i32, ProductV>,
    id: i32,
    populated: bool,
)
    ensures
        read_through(cache_after_read(cache, ledger, id, populated), ledger, id) == read_through(
            cache,
            ledger,
            id,
        ),
{
}

/// How the cache write after a ledger update ended.
#[derive(PartialEq, Eq, Structural, Clone, Copy, Debug)]
pub enum CacheOutcome {
    /// The update was merged into the cached snapshot, or there was none.
    Merged,
    /// The entry was deleted.
    Deleted,
    /// Merge and both deletes failed; the entry may be stale.
    GaveUp,
}

/// The cache after the ledger applied `fs` to product `id`.
pub open spec fn cache_after_update(
    cache: Map<i32, ProductV>,
    id: i32,
    fs: Seq<(String, FieldValue)>,
    outcome: CacheOutcome,
) -> Map<i32, ProductV> {
    match outcome {
        CacheOutcome::Merged => if cache.contains_key(id) {
            cache.insert(id, apply_fields(cache[id], fs)->Ok_0)
        } else {
            cache
        },
        CacheOutcome::Deleted => cache.remove(id),
        CacheOutcome::GaveUp => cache,
    }
}

proof fn lemma_apply_field_ok_any(p: ProductV, c: ProductV, k: Seq<char>, v: FieldValue)
    ensures
        (apply_field(p, k, v) is Ok) == (apply_field(c, k, v) is Ok),
{
}

/// Whether an update is accepted depends on its fields alone, not on the
/// product it is applied to.
pub proof fn lemma_update_acceptance_is_field_only(
    p: ProductV,
    c: ProductV,
    fs: Seq<(String, FieldValue)>,
)
    ensures
        (apply_fields(p, fs) is Ok) == (apply_fields(c, fs) is Ok),
    decreases fs.len(),
{
    if fs.len() > 0 {
        lemma_update_acceptance_is_field_only(p, c, fs.drop_last());
        if apply_fields(p, fs.drop_last()) is Ok {
            lemma_apply_field_ok_any(
                apply_fields(p, fs.drop_last())->Ok_0,
                apply_fields(c, fs.drop_last())->Ok_0,
                fs.last().0@,
                fs.last().1,
            );
        }
    }
}

/// After a rename that the ledger accepted, and a cache write that did not
/// give up, the product is read back with the new name, from the cache or
/// from the ledger.
pub proof fn lemma_renamed_product_is_read_back(
    cache: Map<i32, ProductV>,
    ledger: Map<i32, ProductV>,
    id: i32,
    fs: Seq<(String, FieldValue)>,
    name: String,
    outcome: CacheOutcome,
)
    requires
        ledger.contains_key(id),
        fs.len() == 1,
        fs[0].0@ == "name"@,
        fs[0].1 == FieldValue::Text(name),
        outcome != CacheOutcome::GaveUp,
    ensures
        apply_fields(ledger[id], fs) is Ok,
        read_through(
            cache_after_update(cache, id, fs, outcome),
            ledger.insert(id, apply_fields(ledger[id], fs)->Ok_0),
            id,
        ) matches Some(r) && r.name == name@,
{
    reveal_with_fuel(apply_fields, 2);
    assert(fs.drop_last() =~= Seq::<(String, FieldValue)>::empty());
    assert(fs.last() == fs[0]);
    assert(("name"@) != ("image"@)) by {
        reveal_strlit("name");
        reveal_strlit("image");
        assert("name"@[1] != "image"@[1]);
    }
    if cache.contains_key(id) {
        let c = cache[id];
        assert(apply_fields(c, fs) == apply_field(c, fs[0].0@, fs[0].1));
    }
}

/// A price update stores the price rounded half up to cents, and that
/// rounded price is what is read back afterwards, from the cache or from
/// the ledger, when the cache write did not give up.
pub proof fn lemma_price_update_round_trip(
    cache: Map<i32, ProductV>,
    ledger: Map<i32, ProductV>,
    id: i32,
    fs: Seq<(String, FieldValue)>,
    text: String,
    outcome: CacheOutcome,
)
    requires
        ledger.contains_key(id),
        fs.len() == 1,
        fs[0].0@ == "price"@,
        fs[0].1 == FieldValue::Number(text),
        price_cents(text@) is Some,
        outcome != CacheOutcome::GaveUp,
    ensures
        apply_fields(ledger[id], fs) == Ok::<ProductV, LocalError>(
            ProductV { price_cents: price_cents(text@)->Some_0, ..ledger[id] },
        ),
        read_through(
            cache_after_update(cache, id, fs, outcome),
            ledger.insert(id, apply_fields(ledger[id], fs)->Ok_0),
            id,
        ) matches Some(r) && r.price_cents == price_cents(text@)->Some_0,
{
    reveal_with_fuel(apply_fields, 2);
    assert(fs.drop_last() =~= Seq::<(String, FieldValue)>::empty());
    assert(fs.last() == fs[0]);
    reveal_strlit("price");
    reveal_strlit("name");
    reveal_strlit("image");
    reveal_strlit("count");
    assert("price"@ != "name"@ && "price"@ != "image"@ && "price"@ != "count"@) by {
        assert("price"@[0] != "name"@[0]);
        assert("price"@[0] != "image"@[0]);
        assert("price"@[0] != "count"@[0]);
    }
    if cache.contains_key(id) {
        let c = cache[id];
        assert(apply_fields(c, fs) == apply_field(c, fs[0].0@, fs[0].1));
    }
}

} // verus!

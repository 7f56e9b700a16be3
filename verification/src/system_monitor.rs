use vstd::prelude::*;

use crate::text::str_eq;

verus! {

/// Bit of the processor category.
pub const MASK_CPU: u32 = 1;

/// Bit of the memory category.
pub const MASK_MEMORY: u32 = 2;

/// Bit of the uptime category.
pub const MASK_UPTIME: u32 = 4;

/// Bits of every known category.
pub const MASK_ALL: u32 = 7;

/// The bit of the category named `name`, or `0` when the name is unknown.
pub open spec fn category_mask(name: Seq<char>) -> u32 {
    if name == "cpu"@ {
        MASK_CPU
    } else if name == "memory"@ {
        MASK_MEMORY
    } else if name == "uptime"@ {
        MASK_UPTIME
    } else {
        0
    }
}

/// The union of the bits of the categories named in `names`.
pub open spec fn categories_mask(names: Seq<Seq<char>>) -> u32
    decreases names.len(),
{
    if names.len() == 0 {
        0
    } else {
        categories_mask(names.drop_last()) | category_mask(names.last())
    }
}

/// The names held by a list of strings.
pub open spec fn names_of(categories: Seq<String>) -> Seq<Seq<char>> {
    categories.map_values(|s: String| s@)
}

/// The bit of one category name, or `0` when the name is unknown.
pub fn category_bit(name: &str) -> (bit: u32)
    ensures
        bit == category_mask(name@),
{
    if str_eq(name, "cpu") {
        MASK_CPU
    } else if str_eq(name, "memory") {
        MASK_MEMORY
    } else if str_eq(name, "uptime") {
        MASK_UPTIME
    } else {
        0
    }
}

/// The mask of the categories requested by the front end; unknown names are ignored.
pub fn parse_categories(categories: &[String]) -> (mask: u32)
    ensures
        mask == categories_mask(names_of(categories@)),
{
    let mut mask: u32 = 0;
    let n = categories.len();
    let mut i: usize = 0;
    assert(names_of(categories@).take(0) =~= Seq::<Seq<char>>::empty());
    while i < n
        invariant
            i <= n,
            n == categories@.len(),
            mask == categories_mask(names_of(categories@).take(i as int)),
        decreases n - i,
    {
        let bit = category_bit(categories[i].as_str());
        let ghost names = names_of(categories@);
        assert(names.take(i + 1).drop_last() =~= names.take(i as int));
        assert(names.take(i + 1).last() == categories@[i as int]@);
        mask = mask | bit;
        i = i + 1;
    }
    assert(names_of(categories@).take(n as int) =~= names_of(categories@));
    mask
}

// ---------------------------------------------------------------------------
// Laws of category masks
// ---------------------------------------------------------------------------

/// Requesting two lists of categories one after the other asks for the union of what
/// each list asks for.
pub proof fn law_mask_of_concat(a: Seq<Seq<char>>, b: Seq<Seq<char>>)
    ensures
        categories_mask(a + b) == categories_mask(a) | categories_mask(b),
    decreases b.len(),
{
    if b.len() == 0 {
        assert(a + b =~= a);
        let x = categories_mask(a);
        assert(x | 0 == x) by (bit_vector);
    } else {
        law_mask_of_concat(a, b.drop_last());
        assert((a + b).drop_last() =~= a + b.drop_last());
        assert((a + b).last() == b.last());
        let x = categories_mask(a);
        let y = categories_mask(b.drop_last());
        let z = category_mask(b.last());
        assert((x | y) | z == x | (y | z)) by (bit_vector);
    }
}

/// The order in which categories are requested does not matter.
pub proof fn law_mask_order_irrelevant(a: Seq<Seq<char>>, b: Seq<Seq<char>>)
    ensures
        categories_mask(a + b) == categories_mask(b + a),
{
    law_mask_of_concat(a, b);
    law_mask_of_concat(b, a);
    let x = categories_mask(a);
    let y = categories_mask(b);
    assert(x | y == y | x) by (bit_vector);
}

/// A name that is not a known category changes nothing.
pub proof fn law_unknown_category_ignored(a: Seq<Seq<char>>, name: Seq<char>)
    requires
        category_mask(name) == 0,
    ensures
        categories_mask(a.push(name)) == categories_mask(a),
{
    assert(a.push(name).drop_last() =~= a);
    let x = categories_mask(a);
    assert(x | 0 == x) by (bit_vector);
}

/// No bit outside the known categories is ever set.
pub proof fn law_mask_within_known(a: Seq<Seq<char>>)
    ensures
        categories_mask(a) & !MASK_ALL == 0,
    decreases a.len(),
{
    if a.len() > 0 {
        law_mask_within_known(a.drop_last());
        let x = categories_mask(a.drop_last());
        let z = category_mask(a.last());
        assert(z == 0 || z == 1 || z == 2 || z == 4);
        assert((x & !7u32 == 0 && (z == 0 || z == 1 || z == 2 || z == 4)) ==> (x | z) & !7u32 == 0)
            by (bit_vector);
    } else {
        assert(0u32 & !7u32 == 0) by (bit_vector);
    }
}

/// Every requested known category has its bit set.
pub proof fn law_requested_category_set(a: Seq<Seq<char>>, i: int)
    requires
        0 <= i < a.len(),
    ensures
        categories_mask(a) & category_mask(a[i]) == category_mask(a[i]),
    decreases a.len(),
{
    let x = categories_mask(a.drop_last());
    let z = category_mask(a.last());
    let w = category_mask(a[i]);
    if i == a.len() - 1 {
        assert((x | z) & z == z) by (bit_vector);
    } else {
        law_requested_category_set(a.drop_last(), i);
        assert(a.drop_last()[i] == a[i]);
        assert(x & w == w ==> (x | z) & w == w) by (bit_vector);
    }
}


/// Exactly the names `cpu`, `memory` and `uptime` are categories, each with a bit of its
/// own; every other name asks for nothing.
pub proof fn law_known_categories(name: Seq<char>)
    ensures
        category_mask(name) != 0 <==> (name == "cpu"@ || name == "memory"@ || name == "uptime"@),
        name == "cpu"@ ==> category_mask(name) == MASK_CPU,
        name == "memory"@ ==> category_mask(name) == MASK_MEMORY,
        name == "uptime"@ ==> category_mask(name) == MASK_UPTIME,
        MASK_CPU & MASK_MEMORY == 0 && MASK_CPU & MASK_UPTIME == 0 && MASK_MEMORY & MASK_UPTIME == 0,
        MASK_CPU != 0 && MASK_MEMORY != 0 && MASK_UPTIME != 0,
        MASK_CPU | MASK_MEMORY | MASK_UPTIME == MASK_ALL,
{
    reveal_strlit("cpu");
    reveal_strlit("memory");
    reveal_strlit("uptime");
    assert("cpu"@.len() == 3 && "memory"@.len() == 6 && "uptime"@.len() == 6);
    assert("memory"@[0] != "uptime"@[0]);
    assert(1u32 & 2u32 == 0 && 1u32 & 4u32 == 0 && 2u32 & 4u32 == 0 && (1u32 | 2u32 | 4u32) == 7u32)
        by (bit_vector);
}

} // verus!

//! What the flag types share: membership of a flag in a set, and the text that lists a set.

use vstd::prelude::*;

verus! {

/// Whether the set `bits` holds the flag `flag`. A flag without bits is held by the empty set
/// alone.
pub open spec fn holds(bits: u32, flag: u32) -> bool {
    if flag == 0 && bits != 0 {
        false
    } else {
        bits & flag == flag
    }
}

/// The names of the flags among the first `n` entries of `table` that `bits` holds, in the order
/// of the table.
pub open spec fn held_names(bits: u32, table: Seq<(u32, &'static str)>, n: nat) -> Seq<Seq<char>>
    decreases n,
{
    if n == 0 {
        Seq::empty()
    } else {
        let before = held_names(bits, table, (n - 1) as nat);
        if holds(bits, table[n - 1].0) {
            before.push(table[n - 1].1@)
        } else {
            before
        }
    }
}

/// The texts of `parts` in a row, with `" | "` between two neighbours.
pub open spec fn joined(parts: Seq<Seq<char>>) -> Seq<char>
    decreases parts.len(),
{
    if parts.len() == 0 {
        Seq::empty()
    } else if parts.len() == 1 {
        parts[0]
    } else {
        joined(parts.drop_last()) + " | "@ + parts.last()
    }
}

/// The text that lists the set `bits` by the names in `table`: the names of the flags it holds,
/// joined by `" | "`, or `"(empty)"` where it holds none.
pub open spec fn listing(bits: u32, table: Seq<(u32, &'static str)>) -> Seq<char> {
    let names = held_names(bits, table, table.len());
    if names.len() == 0 {
        "(empty)"@
    } else {
        joined(names)
    }
}

/// Whether the set `bits` holds the flag `flag`.
pub fn is_held(bits: u32, flag: u32) -> (held: bool)
    ensures
        held == holds(bits, flag),
{
    if flag == 0 && bits != 0 {
        false
    } else {
        bits & flag == flag
    }
}

/// Lists the set `bits` by the names in `table`.
pub fn list(bits: u32, table: &[(u32, &'static str)]) -> (text: String)
    ensures
        text@ == listing(bits, table@),
{
    let mut text = String::new();
    let mut first = true;
    let ghost mut names: Seq<Seq<char>> = Seq::empty();
    let mut i: usize = 0;
    while i < table.len()
        invariant
            i <= table.len(),
            names == held_names(bits, table@, i as nat),
            first == (names.len() == 0),
            text@ == joined(names),
        decreases table.len() - i,
    {
        let entry = &table[i];
        if is_held(bits, entry.0) {
            if !first {
                text.append(" | ");
            }
            text.append(entry.1);
            first = false;
            proof {
                let longer = names.push(entry.1@);
                assert(longer.drop_last() == names);
                assert(longer.last() == entry.1@);
                names = longer;
            }
        }
        i += 1;
    }
    if first {
        String::from_str("(empty)")
    } else {
        text
    }
}

/// The title that `table` gives the value `bits`: that of the first entry with this value.
pub open spec fn title_of(bits: u32, table: Seq<(u32, &'static str)>) -> Option<Seq<char>>
    decreases table.len(),
{
    if table.len() == 0 {
        None
    } else if table[0].0 == bits {
        Some(table[0].1@)
    } else {
        title_of(bits, table.drop_first())
    }
}

/// Looks the value `bits` up in `table`.
pub fn find_title(bits: u32, table: &[(u32, &'static str)]) -> (title: Option<&'static str>)
    ensures
        title is Some == title_of(bits, table@) is Some,
        title matches Some(t) ==> Some(t@) == title_of(bits, table@),
{
    let mut i: usize = 0;
    assert(table@.skip(0) == table@);
    while i < table.len()
        invariant
            i <= table.len(),
            title_of(bits, table@) == title_of(bits, table@.skip(i as int)),
        decreases table.len() - i,
    {
        let entry = &table[i];
        if entry.0 == bits {
            assert(table@.skip(i as int)[0] == *entry);
            return Some(entry.1);
        }
        assert(table@.skip(i as int).drop_first() == table@.skip(i + 1));
        i += 1;
    }
    None
}

/// A set cut down to a mask holds no bit outside the mask.
pub proof fn lemma_masked_fits(bits: u32, all: u32)
    by (bit_vector)
    ensures
        (bits & all) & !all == 0,
{
}

/// The union of two sets within a mask is within the mask.
pub proof fn lemma_union_fits(a: u32, b: u32, all: u32)
    by (bit_vector)
    requires
        a & !all == 0,
        b & !all == 0,
    ensures
        (a | b) & !all == 0,
{
}

} // verus!

//! The completion provider: a fixed reference set filtered by
//! case-insensitive substring containment of the query.

use vstd::prelude::*;
use crate::text::contains_fold;
use crate::text::fold;
use crate::text::lemma_empty_needle;
use crate::text::matches_query;

verus! {

/// The reference entries offered for completion, in their fixed order.
pub open spec fn reference_entries() -> Seq<Seq<char>> {
    seq![
        "Wasm"@,
        "WebAssembly"@,
        "WASI"@,
        "WasmTime"@,
        "Components"@,
        "Rust"@,
        "Software"@,
        "Plugin"@,
    ]
}

/// The subsequence of `entries` that matches `query`, in the order of
/// `entries`.
pub open spec fn matching_entries(entries: Seq<Seq<char>>, query: Seq<char>) -> Seq<Seq<char>>
    decreases entries.len(),
{
    if entries.len() == 0 {
        Seq::<Seq<char>>::empty()
    } else {
        matching_entries(entries.drop_last(), query) + if matches_query(entries.last(), query) {
            seq![entries.last()]
        } else {
            Seq::<Seq<char>>::empty()
        }
    }
}

/// The completions owed to a query: the matching reference entries, in
/// reference order.
pub open spec fn completions_of(query: Seq<char>) -> Seq<Seq<char>> {
    matching_entries(reference_entries(), query)
}

/// The reference entries as owned strings.
pub fn reference_strings() -> (r: Vec<String>)
    ensures
        r@.map_values(|s: String| s@) == reference_entries(),
{
    let mut v: Vec<String> = Vec::new();
    v.push(String::from_str("Wasm"));
    v.push(String::from_str("WebAssembly"));
    v.push(String::from_str("WASI"));
    v.push(String::from_str("WasmTime"));
    v.push(String::from_str("Components"));
    v.push(String::from_str("Rust"));
    v.push(String::from_str("Software"));
    v.push(String::from_str("Plugin"));
    proof {
        assert(v@.map_values(|s: String| s@) =~= reference_entries());
    }
    v
}

/// Every reference entry whose folded form contains the folded `input`,
/// in reference order.
pub fn generate_completions(input: &str) -> (r: Vec<String>)
    ensures
        r@.map_values(|s: String| s@) == completions_of(input@),
{
    let refs = reference_strings();
    let ghost entries = reference_entries();
    let n = refs.len();
    proof {
        assert(n == entries.len());
    }
    let mut out: Vec<String> = Vec::new();
    let mut i: usize = 0;
    while i < n
        invariant
            n == refs.len(),
            refs@.map_values(|s: String| s@) == entries,
            entries == reference_entries(),
            n == entries.len(),
            i <= n,
            out@.map_values(|s: String| s@) == matching_entries(entries.take(i as int), input@),
        decreases n - i,
    {
        proof {
            assert(refs@.map_values(|s: String| s@)[i as int] == refs@[i as int]@);
        }
        let hit = contains_fold(refs[i].as_str(), input);
        proof {
            assert(hit == matches_query(entries[i as int], input@));
        }
        if hit {
            out.push(refs[i].clone());
        }
        proof {
            let q = input@;
            let pre = entries.take(i as int);
            let cur = entries.take(i + 1);
            assert(cur.drop_last() =~= pre);
            assert(cur.last() == entries[i as int]);
            assert(matching_entries(cur, q) == matching_entries(pre, q) + if matches_query(
                entries[i as int],
                q,
            ) {
                seq![entries[i as int]]
            } else {
                Seq::<Seq<char>>::empty()
            });
            assert(out@.map_values(|s: String| s@) =~= matching_entries(cur, q));
        }
        i += 1;
    }
    proof {
        assert(entries.take(n as int) =~= entries);
    }
    out
}

/// A query that every entry matches selects all of `entries`, unchanged.
pub proof fn lemma_all_match(entries: Seq<Seq<char>>, query: Seq<char>)
    requires
        forall|i: int| 0 <= i < entries.len() ==> matches_query(#[trigger] entries[i], query),
    ensures
        matching_entries(entries, query) == entries,
    decreases entries.len(),
{
    if entries.len() == 0 {
        assert(matching_entries(entries, query) =~= entries);
    } else {
        lemma_all_match(entries.drop_last(), query);
        assert(entries.last() == entries[entries.len() - 1]);
        assert(matching_entries(entries, query) =~= entries);
    }
}

/// The empty query matches every entry, so it is owed the entire
/// reference set: the empty string is a substring of everything.
pub proof fn lemma_empty_query_selects_all()
    ensures
        completions_of(Seq::<char>::empty()) == reference_entries(),
{
    let q = Seq::<char>::empty();
    assert(fold(q) =~= Seq::<char>::empty());
    assert forall|i: int| 0 <= i < reference_entries().len() implies matches_query(
        #[trigger] reference_entries()[i],
        q,
    ) by {
        lemma_empty_needle(fold(reference_entries()[i]));
    }
    lemma_all_match(reference_entries(), q);
}

} // verus!

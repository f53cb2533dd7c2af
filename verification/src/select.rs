//! The selection policy: which of the currently discovered media players
//! receives commands and queries.
//!
//! In strict priority order, first match wins: drop the virtual player's own
//! identity (case-sensitive exact match); take the first identity whose
//! lowercase form contains the lowercased preferred substring; if the
//! preferred substring is the default "chromium" and nothing matched, retry
//! with the literal "chrome" (a named naming-drift special case, not a
//! synonym table); otherwise take the first remaining identity; otherwise
//! nothing. Absence is a normal outcome, not an error.

use vstd::prelude::*;
use vstd::string::*;
use crate::text::{contains_seq, lower_of, lowercase, str_contains};

verus! {

/// The discovered identities as character sequences.
pub open spec fn id_views(ids: Seq<String>) -> Seq<Seq<char>> {
    ids.map_values(|s: String| s@)
}

/// The identity at `i` is external (not the virtual player's own) and its
/// lowercase form contains `needle`.
pub open spec fn matches_needle(
    ids: Seq<Seq<char>>,
    own: Seq<char>,
    needle: Seq<char>,
    i: int,
) -> bool {
    ids[i] != own && contains_seq(lower_of(ids[i]), needle)
}

/// The first index at or after `i` whose identity is external and whose
/// lowercase form contains `needle`.
pub open spec fn first_match_from(
    ids: Seq<Seq<char>>,
    own: Seq<char>,
    needle: Seq<char>,
    i: int,
) -> Option<int>
    decreases ids.len() - i,
{
    if i < 0 || i >= ids.len() {
        None
    } else if matches_needle(ids, own, needle, i) {
        Some(i)
    } else {
        first_match_from(ids, own, needle, i + 1)
    }
}

/// The first index at or after `i` whose identity is external.
pub open spec fn first_external_from(ids: Seq<Seq<char>>, own: Seq<char>, i: int) -> Option<int>
    decreases ids.len() - i,
{
    if i < 0 || i >= ids.len() {
        None
    } else if ids[i] != own {
        Some(i)
    } else {
        first_external_from(ids, own, i + 1)
    }
}

/// The whole policy: preferred substring first, then the "chrome" fallback
/// when the preferred substring is the default "chromium", then the first
/// external identity, then nothing.
pub open spec fn select_spec(ids: Seq<Seq<char>>, own: Seq<char>, preferred: Seq<char>) -> Option<
    int,
> {
    let pl = lower_of(preferred);
    if first_match_from(ids, own, pl, 0) is Some {
        first_match_from(ids, own, pl, 0)
    } else if pl == "chromium"@ && first_match_from(ids, own, "chrome"@, 0) is Some {
        first_match_from(ids, own, "chrome"@, 0)
    } else {
        first_external_from(ids, own, 0)
    }
}

/// The display name under which this process publishes its own virtual
/// player. It is filtered out of every snapshot before the priority rules
/// run: controlling it would be a feedback loop with no external effect.
pub fn virtual_identity() -> (r: String)
    ensures
        r@ == "My Player"@,
{
    "My Player".to_owned()
}

/// The preferred-player substring used when none is configured.
pub fn default_preferred() -> (r: String)
    ensures
        r@ == "chromium"@,
{
    "chromium".to_owned()
}

/// One pass: the first identity that is not `own` and whose lowercase form
/// contains `needle`.
fn find_match(identities: &Vec<String>, own: &String, needle: &str) -> (r: Option<usize>)
    ensures
        match r {
            Some(i) => first_match_from(id_views(identities@), own@, needle@, 0) == Some(i as int),
            None => first_match_from(id_views(identities@), own@, needle@, 0) is None,
        },
{
    let ghost idv = id_views(identities@);
    let mut i: usize = 0;
    while i < identities.len()
        invariant
            idv == id_views(identities@),
            i <= identities@.len(),
            first_match_from(idv, own@, needle@, 0) == first_match_from(idv, own@, needle@, i as int),
        decreases identities@.len() - i,
    {
        proof {
            assert(idv[i as int] == identities@[i as int]@);
        }
        let external = !(identities[i] == *own);
        if external {
            let low = lowercase(identities[i].as_str());
            if str_contains(low.as_str(), needle) {
                return Some(i);
            }
        }
        proof {
            assert(!matches_needle(idv, own@, needle@, i as int));
        }
        i += 1;
    }
    None
}

/// One pass: the first identity that is not `own`.
fn find_external(identities: &Vec<String>, own: &String) -> (r: Option<usize>)
    ensures
        match r {
            Some(i) => first_external_from(id_views(identities@), own@, 0) == Some(i as int),
            None => first_external_from(id_views(identities@), own@, 0) is None,
        },
{
    let ghost idv = id_views(identities@);
    let mut i: usize = 0;
    while i < identities.len()
        invariant
            idv == id_views(identities@),
            i <= identities@.len(),
            first_external_from(idv, own@, 0) == first_external_from(idv, own@, i as int),
        decreases identities@.len() - i,
    {
        proof {
            assert(idv[i as int] == identities@[i as int]@);
        }
        if !(identities[i] == *own) {
            return Some(i);
        }
        i += 1;
    }
    None
}

/// Picks the external player to control out of one discovery snapshot:
/// returns the index of the chosen identity, or nothing when every
/// discovered identity is the virtual player's own.
pub fn select(identities: &Vec<String>, own_identity: &String, preferred: &String) -> (r: Option<
    usize,
>)
    ensures
        match r {
            Some(i) => select_spec(id_views(identities@), own_identity@, preferred@) == Some(
                i as int,
            ),
            None => select_spec(id_views(identities@), own_identity@, preferred@) is None,
        },
{
    let lp = lowercase(preferred.as_str());
    if let Some(i) = find_match(identities, own_identity, lp.as_str()) {
        return Some(i);
    }
    if lp == "chromium".to_owned() {
        if let Some(i) = find_match(identities, own_identity, "chrome") {
            return Some(i);
        }
    }
    find_external(identities, own_identity)
}

proof fn lemma_first_match_bounds(ids: Seq<Seq<char>>, own: Seq<char>, needle: Seq<char>, i: int)
    ensures
        first_match_from(ids, own, needle, i) matches Some(j) ==> i <= j < ids.len() && ids[j]
            != own && contains_seq(lower_of(ids[j]), needle),
    decreases ids.len() - i,
{
    if 0 <= i < ids.len() && !matches_needle(ids, own, needle, i) {
        lemma_first_match_bounds(ids, own, needle, i + 1);
    }
}

proof fn lemma_first_external_bounds(ids: Seq<Seq<char>>, own: Seq<char>, i: int)
    ensures
        first_external_from(ids, own, i) matches Some(j) ==> i <= j < ids.len() && ids[j] != own,
        (first_external_from(ids, own, i) is None && 0 <= i) ==> (forall|k: int|
            i <= k < ids.len() ==> ids[k] == own),
    decreases ids.len() - i,
{
    if 0 <= i < ids.len() && ids[i] == own {
        lemma_first_external_bounds(ids, own, i + 1);
    }
}

/// The policy never chooses the virtual player's own identity, and it
/// chooses nothing exactly when every discovered identity is the virtual
/// player's own: once a genuine external player is present, one is chosen.
pub proof fn lemma_select_excludes_own(ids: Seq<Seq<char>>, own: Seq<char>, preferred: Seq<char>)
    ensures
        select_spec(ids, own, preferred) matches Some(j) ==> 0 <= j < ids.len() && ids[j] != own,
        (select_spec(ids, own, preferred) is None) <==> (forall|k: int|
            0 <= k < ids.len() ==> ids[k] == own),
{
    lemma_first_match_bounds(ids, own, lower_of(preferred), 0);
    lemma_first_match_bounds(ids, own, "chrome"@, 0);
    lemma_first_external_bounds(ids, own, 0);
}

} // verus!

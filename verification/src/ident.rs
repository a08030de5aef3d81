//! Identifier rules: tokens, namespaces and duplicate-free id lists.
use vstd::prelude::*;
use vstd::string::*;
use crate::error::Error;
use crate::seqs::{views, is_first, first_index, lemma_first_index_found, lemma_first_index_none};
use crate::text::{valid_token, is_valid_token, split, split_str, same};

verus! {

/// The error a rejected identifier is reported with.
pub open spec fn rejects(r: Result<(), Error>, s: Seq<char>) -> bool {
    r matches Err(Error::InvalidComponent(t)) && t@ == s
}

/// Accepts `s` as an ID or path component; otherwise reports it.
pub fn token(s: &str) -> (r: Result<(), Error>)
    ensures
        r is Ok <==> valid_token(s@),
        r is Err ==> rejects(r, s@),
{
    if is_valid_token(s) {
        Ok(())
    } else {
        Err(Error::InvalidComponent(s.to_owned()))
    }
}

/// The parts of a namespace: its `/`-separated pieces.
pub open spec fn namespace_parts(s: Seq<char>) -> Seq<Seq<char>> {
    split(s, '/')
}

/// Holds of a piece that is not a token.
pub open spec fn not_token() -> spec_fn(Seq<char>) -> bool {
    |p: Seq<char>| !valid_token(p)
}

/// The first namespace part that is not a token, or -1.
pub open spec fn first_bad_part(s: Seq<char>) -> int {
    first_index(namespace_parts(s), not_token())
}

/// A namespace (`group/subgroup/...`) is non-empty and every `/`-separated
/// part is a token. The first offending part is reported.
pub fn namespace(s: &str) -> (r: Result<(), Error>)
    ensures
        s@.len() == 0 ==> r == Err::<(), Error>(Error::NamespaceRequired),
        s@.len() > 0 ==> (r is Ok <==> first_bad_part(s@) == -1),
        s@.len() > 0 && r is Err ==> rejects(r, namespace_parts(s@)[first_bad_part(s@)]),
{
    if s.unicode_len() == 0 {
        return Err(Error::NamespaceRequired);
    }
    let parts = split_str(s, '/');
    let ghost ps = namespace_parts(s@);
    let ghost bad = not_token();
    let mut i: usize = 0;
    while i < parts.len()
        invariant
            views(parts@) == ps,
            s@.len() > 0,
            bad == not_token(),
            ps == namespace_parts(s@),
            i <= parts.len(),
            forall|j: int| 0 <= j < i ==> !bad(#[trigger] ps[j]),
        decreases parts.len() - i,
    {
        let t = token(parts[i].as_str());
        proof {
            assert(ps[i as int] == parts@[i as int]@);
            assert(bad(ps[i as int]) == !valid_token(ps[i as int]));
        }
        if t.is_err() {
            proof {
                assert(is_first(ps, bad, i as int));
                lemma_first_index_found(ps, bad, i as int);
            }
            return t;
        }
        i = i + 1;
    }
    proof {
        lemma_first_index_none(ps, bad);
    }
    Ok(())
}

/// Rejects a list of repository IDs that names one twice.
pub fn unique(ids: &Vec<String>) -> (r: Result<(), Error>)
    ensures
        r is Ok <==> views(ids@).no_duplicates(),
        r is Err ==> r == Err::<(), Error>(Error::DuplicateRepositoryIds),
{
    let ghost v = views(ids@);
    let mut i: usize = 0;
    while i < ids.len()
        invariant
            v == views(ids@),
            i <= ids.len(),
            forall|a: int, b: int| 0 <= a < i && 0 <= b < ids.len() && a != b ==> v[a] != v[b],
        decreases ids.len() - i,
    {
        let mut j: usize = 0;
        while j < ids.len()
            invariant
                v == views(ids@),
                i < ids.len(),
                j <= ids.len(),
                forall|a: int, b: int| 0 <= a < i && 0 <= b < ids.len() && a != b ==> v[a] != v[b],
                forall|b: int| 0 <= b < j && b != i ==> v[i as int] != v[b],
            decreases ids.len() - j,
        {
            if j != i && same(ids[i].as_str(), ids[j].as_str()) {
                assert(v[i as int] == v[j as int]);
                return Err(Error::DuplicateRepositoryIds);
            }
            j = j + 1;
        }
        i = i + 1;
    }
    Ok(())
}

} // verus!

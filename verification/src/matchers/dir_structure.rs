//! The computable core of directory-structure matching: deciding which
//! entries of a directory listing are claimed by the matchers for its files
//! and sub-directories, and which are left over.  An exhaustive
//! directory matcher fails exactly when entries are left over; reading the
//! listing itself is I/O and stays outside the library.

use vstd::prelude::*;

verus! {

/// The names in `v`, as sequences of characters.
pub open spec fn name_views(v: Seq<String>) -> Seq<Seq<char>> {
    v.map_values(|s: String| s@)
}

/// The predicate holding for names that `known` does not claim.
pub open spec fn unclaimed_by(known: Seq<Seq<char>>) -> spec_fn(Seq<char>) -> bool {
    |e: Seq<char>| !known.contains(e)
}

/// Whether `names` holds a string equal to `name`.
#[verifier::loop_isolation(false)]
fn contains_string(names: &Vec<String>, name: &String) -> (r: bool)
    ensures
        r == name_views(names@).contains(name@),
{
    let mut j: usize = 0;
    while j < names.len()
        invariant
            j <= names@.len(),
            forall|k: int| 0 <= k < j ==> name_views(names@)[k] != name@,
        decreases names@.len() - j,
    {
        if names[j] == *name {
            proof {
                assert(name_views(names@)[j as int] == name@);
            }
            return true;
        }
        j += 1;
    }
    false
}

/// The entries of a directory listing that none of the given names claims,
/// in the listing's order.
///
/// An exhaustive directory matcher reports exactly these as unexpected.
#[verifier::loop_isolation(false)]
pub fn unmatched_entries(entries: &Vec<String>, known: &Vec<String>) -> (r: Vec<String>)
    ensures
        name_views(r@) == name_views(entries@).filter(unclaimed_by(name_views(known@))),
{
    let mut r: Vec<String> = Vec::new();
    let mut i: usize = 0;
    while i < entries.len()
        invariant
            i <= entries@.len(),
            name_views(r@) == name_views(entries@.subrange(0, i as int)).filter(
                unclaimed_by(name_views(known@)),
            ),
        decreases entries@.len() - i,
    {
        let ghost pfx = entries@.subrange(0, i as int);
        let entry = &entries[i];
        let claimed = contains_string(known, entry);
        if !claimed {
            r.push(entry.clone());
        }
        proof {
            reveal(Seq::filter);
            assert(entries@.subrange(0, i + 1) =~= pfx.push(entries@[i as int]));
            assert(name_views(pfx.push(entries@[i as int])) =~= name_views(pfx).push(
                entries@[i as int]@,
            ));
            let views1 = name_views(pfx).push(entries@[i as int]@);
            assert(views1.drop_last() =~= name_views(pfx));
            if !claimed {
                assert(name_views(r@) =~= name_views(pfx).filter(
                    unclaimed_by(name_views(known@)),
                ).push(entries@[i as int]@));
            }
        }
        i += 1;
    }
    proof {
        assert(entries@.subrange(0, entries@.len() as int) =~= entries@);
    }
    r
}

} // verus!

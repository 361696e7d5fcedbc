//! The reference resolver: natural keys to generated ids.
//!
//! Newly inserted rows carry a natural key (summary, name, or synthesized
//! description) next to their generated id. A dependent row is linked by
//! looking its key up in that collection. The resolver returns the first
//! match; key uniqueness within one batch is the caller's responsibility,
//! and with duplicate keys the first match is a documented, non-authoritative
//! fallback, not a guarantee of the right row.

use vstd::prelude::*;
use crate::error::ImportError;

verus! {

/// A natural key paired with the generated id it resolves to.
#[derive(Clone, Debug, PartialEq)]
pub struct NamedId {
    pub name: String,
    pub id: i64,
}

/// Mathematical view of a [`NamedId`].
pub struct NamedIdView {
    pub name: Seq<char>,
    pub id: int,
}

impl View for NamedId {
    type V = NamedIdView;

    open spec fn view(&self) -> NamedIdView {
        NamedIdView { name: self.name@, id: self.id as int }
    }
}

impl DeepView for NamedId {
    type V = NamedIdView;

    open spec fn deep_view(&self) -> NamedIdView {
        self.view()
    }
}

/// The id of the first entry whose name is `key`, or `ReferenceNotFound`.
pub open spec fn spec_resolve(entries: Seq<NamedIdView>, key: Seq<char>) -> Result<
    int,
    ImportError,
>
    decreases entries.len(),
{
    if entries.len() == 0 {
        Err(ImportError::ReferenceNotFound)
    } else if entries[0].name == key {
        Ok(entries[0].id)
    } else {
        spec_resolve(entries.drop_first(), key)
    }
}

/// The lookup succeeds exactly when some entry carries the key.
pub proof fn lemma_resolve_ok_iff(entries: Seq<NamedIdView>, key: Seq<char>)
    ensures
        (spec_resolve(entries, key) is Ok) <==> exists|i: int|
            0 <= i < entries.len() && entries[i].name == key,
    decreases entries.len(),
{
    if entries.len() > 0 {
        lemma_resolve_ok_iff(entries.drop_first(), key);
        if entries[0].name == key {
            assert(entries[0].name == key);
        } else {
            if spec_resolve(entries, key) is Ok {
                let j = choose|j: int|
                    0 <= j < entries.drop_first().len() && entries.drop_first()[j].name == key;
                assert(entries[j + 1].name == key);
            }
            if exists|i: int| 0 <= i < entries.len() && entries[i].name == key {
                let i = choose|i: int| 0 <= i < entries.len() && entries[i].name == key;
                assert(entries.drop_first()[i - 1].name == key);
            }
        }
    }
}

/// Resolve `key` to the id of the first matching entry, or fail with
/// `ReferenceNotFound` when no entry carries it.
pub fn resolve_named_id(entries: &Vec<NamedId>, key: &String) -> (r: Result<i64, ImportError>)
    ensures
        match r {
            Ok(id) => spec_resolve(entries.deep_view(), key@) == Ok::<int, ImportError>(id as int),
            Err(e) => spec_resolve(entries.deep_view(), key@) == Err::<int, ImportError>(e),
        },
{
    let n = entries.len();
    let mut i: usize = 0;
    proof {
        assert(entries.deep_view().skip(0) =~= entries.deep_view());
    }
    while i < n
        invariant
            i <= n,
            n == entries@.len(),
            spec_resolve(entries.deep_view(), key@) == spec_resolve(
                entries.deep_view().skip(i as int),
                key@,
            ),
        decreases n - i,
    {
        proof {
            assert(entries.deep_view().skip(i as int)[0] == entries@[i as int]@);
        }
        if entries[i].name == *key {
            return Ok(entries[i].id);
        }
        proof {
            assert(entries.deep_view().skip(i as int).drop_first() =~= entries.deep_view().skip(
                i as int + 1,
            ));
        }
        i = i + 1;
    }
    proof {
        assert(entries.deep_view().skip(n as int) =~= Seq::<NamedIdView>::empty());
    }
    Err(ImportError::ReferenceNotFound)
}

} // verus!

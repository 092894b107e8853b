//! The machine registry: an ordered sequence of (label, address) entries.
//!
//! Lookup is first-match-by-label, by scan order. No uniqueness is enforced;
//! with duplicate labels the earliest entry always wins.

use vstd::prelude::*;
use crate::bytes::bytes_eq;

verus! {

/// One registry entry: a machine label and the address it resolves to.
#[derive(Clone, Debug, PartialEq, Eq)]
pub struct Entry {
    pub label: Vec<u8>,
    pub address: Vec<u8>,
}

/// The mathematical model of an entry: its two byte strings.
pub struct EntryModel {
    pub label: Seq<u8>,
    pub address: Seq<u8>,
}

impl View for Entry {
    type V = EntryModel;

    open spec fn view(&self) -> EntryModel {
        EntryModel { label: self.label@, address: self.address@ }
    }
}

/// The model of a whole registry.
pub open spec fn registry_model(entries: Seq<Entry>) -> Seq<EntryModel> {
    entries.map_values(|e: Entry| e@)
}

/// The address of the first entry whose label equals `label`, scanning
/// front to back; `None` when no entry matches.
pub open spec fn resolve_spec(entries: Seq<EntryModel>, label: Seq<u8>) -> Option<Seq<u8>>
    decreases entries.len(),
{
    if entries.len() == 0 {
        None
    } else if entries[0].label == label {
        Some(entries[0].address)
    } else {
        resolve_spec(entries.drop_first(), label)
    }
}

/// Looks `label` up in the registry: returns the address of the first
/// matching entry, or `None` when no entry carries that label.
pub fn resolve(entries: &Vec<Entry>, label: &[u8]) -> (r: Option<Vec<u8>>)
    ensures
        (r matches Some(a) ==> resolve_spec(registry_model(entries@), label@) == Some(a@)),
        (r is None <==> resolve_spec(registry_model(entries@), label@) is None),
{
    let mut i: usize = 0;
    proof {
        assert(registry_model(entries@).skip(0) =~= registry_model(entries@));
    }
    while i < entries.len()
        invariant
            0 <= i <= entries@.len(),
            resolve_spec(registry_model(entries@), label@) == resolve_spec(
                registry_model(entries@).skip(i as int),
                label@,
            ),
        decreases entries@.len() - i,
    {
        let e = &entries[i];
        if bytes_eq(e.label.as_slice(), label) {
            proof {
                let rest = registry_model(entries@).skip(i as int);
                assert(rest[0] == registry_model(entries@)[i as int]);
                assert(rest[0].label == label@);
            }
            let a = e.address.clone();
            proof {
                assert(a@ =~= entries@[i as int].address@);
            }
            return Some(a);
        }
        proof {
            let rest = registry_model(entries@).skip(i as int);
            assert(rest[0] == registry_model(entries@)[i as int]);
            assert(rest[0].label != label@);
            assert(rest.drop_first() =~= registry_model(entries@).skip(i + 1));
        }
        i = i + 1;
    }
    proof {
        assert(registry_model(entries@).skip(i as int).len() == 0);
    }
    None
}

/// First-match stability: a lookup succeeds exactly when some entry carries
/// the label, and what it returns is the address of the earliest such entry
/// — so adding later duplicates of a label never changes the result.
#[verifier::rlimit(50)]
pub proof fn lemma_resolve_first_match(entries: Seq<EntryModel>, label: Seq<u8>)
    ensures
        (resolve_spec(entries, label) is Some) <==> (exists|i: int|
            0 <= i < entries.len() && entries[i].label == label),
        forall|i: int|
            (0 <= i < entries.len() && entries[i].label == label && (forall|j: int|
                0 <= j < i ==> entries[j].label != label)) ==> resolve_spec(entries, label)
                == Some(entries[i].address),
    decreases entries.len(),
{
    if entries.len() == 0 {
    } else if entries[0].label == label {
    } else {
        lemma_resolve_first_match(entries.drop_first(), label);
        let rest = entries.drop_first();
        if resolve_spec(entries, label) is Some {
            let k = choose|k: int| 0 <= k < rest.len() && rest[k].label == label;
            assert(entries[k + 1].label == label);
        }
        if exists|i: int| 0 <= i < entries.len() && entries[i].label == label {
            let i = choose|i: int| 0 <= i < entries.len() && entries[i].label == label;
            assert(i != 0);
            assert(rest[i - 1].label == label);
        }
        assert forall|i: int|
            (0 <= i < entries.len() && entries[i].label == label && (forall|j: int|
                0 <= j < i ==> entries[j].label != label)) implies resolve_spec(entries, label)
            == Some(entries[i].address) by {
            assert(i != 0);
            assert(rest[i - 1].label == label);
            assert forall|j: int| 0 <= j < i - 1 implies rest[j].label != label by {
                assert(entries[j + 1].label != label);
            }
            assert(resolve_spec(rest, label) == Some(rest[i - 1].address));
        }
    }
}

} // verus!

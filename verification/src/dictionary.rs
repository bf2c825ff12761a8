use crate::error::Error;
use crate::metadata::DictionaryDesc;
use crate::region::StorageRange;
use vstd::prelude::*;

verus! {

/// One decoded dictionary block, as the external decode primitive hands it
/// over: the id it defines, the decoded lookup values, and where in the
/// mapped region its storage lies.
pub struct RawDictionary {
    pub id: u64,
    pub values: Vec<i64>,
    pub storage: StorageRange,
}

/// One resolved lookup table.
pub struct DictEntry {
    pub id: u64,
    pub values: Vec<i64>,
    pub storage: StorageRange,
}

/// Mapping from dictionary id to a decoded lookup array; built once, eagerly,
/// when the iterator is constructed; immutable and shared thereafter.
pub struct DictionaryTable {
    pub entries: Vec<DictEntry>,
}

/// The contents the table associates with `id`: those of the first entry
/// defining it.
pub open spec fn lookup_entries(entries: Seq<DictEntry>, id: u64) -> Option<Seq<i64>>
    decreases entries.len(),
{
    if entries.len() == 0 {
        None
    } else if entries[0].id == id {
        Some(entries[0].values@)
    } else {
        lookup_entries(entries.skip(1), id)
    }
}

/// Entries before `i` that do not define `id` do not change the lookup.
pub proof fn lemma_lookup_skip(entries: Seq<DictEntry>, id: u64, i: int)
    requires
        0 <= i < entries.len(),
        entries[i].id != id,
    ensures
        lookup_entries(entries.skip(i), id) == lookup_entries(entries.skip(i + 1), id),
{
    assert(entries.skip(i)[0] == entries[i]);
    assert(entries.skip(i).skip(1) =~= entries.skip(i + 1));
}

impl DictionaryTable {
    /// The contents this table associates with `id`.
    pub open spec fn lookup(self, id: u64) -> Option<Seq<i64>> {
        lookup_entries(self.entries@, id)
    }

    /// Every entry's storage lies within a region of `region_len` bytes, and
    /// its keys' targets are its own values.
    pub open spec fn wf(self, region_len: nat) -> bool {
        forall|i: int|
            0 <= i < self.entries@.len() ==> (#[trigger] self.entries@[i]).storage.within(
                region_len,
            )
    }

    /// Looks `id` up in the table, returning a borrow of the shared decoded
    /// lookup array.
    pub fn get(&self, id: u64) -> (r: Option<&Vec<i64>>)
        ensures
            match r {
                Some(v) => self.lookup(id) == Some::<Seq<i64>>(v@),
                None => self.lookup(id) is None,
            },
    {
        let mut i: usize = 0;
        proof {
            assert(self.entries@.skip(0) =~= self.entries@);
        }
        while i < self.entries.len()
            invariant
                i <= self.entries@.len(),
                lookup_entries(self.entries@.skip(i as int), id) == lookup_entries(
                    self.entries@,
                    id,
                ),
            decreases self.entries@.len() - i,
        {
            if self.entries[i].id == id {
                proof {
                    assert(self.entries@.skip(i as int)[0] == self.entries@[i as int]);
                }
                return Some(&self.entries[i].values);
            }
            proof {
                lemma_lookup_skip(self.entries@, id, i as int);
            }
            i = i + 1;
        }
        proof {
            assert(self.entries@.skip(i as int) =~= Seq::<DictEntry>::empty());
        }
        None
    }
}

/// The decode events line up with the dictionary descriptors: one successful
/// decode per descriptor, defining that descriptor's id, with storage inside
/// the region.
pub open spec fn dict_events_ok(
    descs: Seq<DictionaryDesc>,
    events: Seq<Option<RawDictionary>>,
    region_len: nat,
) -> bool {
    &&& events.len() == descs.len()
    &&& forall|i: int|
        0 <= i < descs.len() ==> {
            &&& (#[trigger] events[i]) matches Some(raw)
            &&& raw.id == descs[i].id
            &&& raw.storage.within(region_len)
        }
}

/// The resolved table holds exactly the decoded contents, in descriptor
/// order.
pub open spec fn table_matches(
    table: DictionaryTable,
    descs: Seq<DictionaryDesc>,
    events: Seq<Option<RawDictionary>>,
) -> bool {
    &&& table.entries@.len() == descs.len()
    &&& forall|i: int|
        0 <= i < descs.len() ==> {
            let e = #[trigger] table.entries@[i];
            &&& e.id == descs[i].id
            &&& events[i] matches Some(raw) && e.values@ == raw.values@ && e.storage == raw.storage
        }
}

/// Decodes every dictionary block referenced by metadata into a table:
/// executed exactly once, eagerly, at iterator construction, so that blocks
/// referencing the same id share one decoded array. A missing or inconsistent
/// decode is a format failure reported at construction.
pub fn resolve_dictionaries(
    descs: &Vec<DictionaryDesc>,
    decoded: Vec<Option<RawDictionary>>,
    region_len: usize,
) -> (r: Result<DictionaryTable, Error>)
    ensures
        r is Ok <==> dict_events_ok(descs@, decoded@, region_len as nat),
        r matches Ok(table) ==> table_matches(table, descs@, decoded@) && table.wf(
            region_len as nat,
        ),
        r matches Err(e) ==> e == Error::FormatError,
{
    if decoded.len() != descs.len() {
        return Err(Error::FormatError);
    }
    let mut entries: Vec<DictEntry> = Vec::new();
    let mut i: usize = 0;
    let mut rest = decoded;
    // consume the events front to back
    while i < descs.len()
        invariant
            i <= descs@.len(),
            rest@ == decoded@.skip(i as int),
            decoded@.len() == descs@.len(),
            entries@.len() == i,
            forall|j: int|
                0 <= j < i ==> {
                    let e = #[trigger] entries@[j];
                    &&& e.id == descs@[j].id
                    &&& decoded@[j] matches Some(raw) && e.values@ == raw.values@ && e.storage
                        == raw.storage
                    &&& e.storage.within(region_len as nat)
                },
            forall|j: int|
                0 <= j < i ==> {
                    &&& (#[trigger] decoded@[j]) matches Some(raw)
                    &&& raw.id == descs@[j].id
                    &&& raw.storage.within(region_len as nat)
                },
        decreases descs@.len() - i,
    {
        let desc = descs[i];
        proof {
            assert(rest@[0] == decoded@[i as int]);
        }
        let ev = rest.remove(0);
        match ev {
            None => {
                proof {
                    assert(!(decoded@[i as int] matches Some(raw) && raw.id == descs@[i as int].id
                        && raw.storage.within(region_len as nat)));
                    assert(!dict_events_ok(descs@, decoded@, region_len as nat));
                }
                return Err(Error::FormatError);
            },
            Some(raw) => {
                if raw.id != desc.id {
                    proof {
                        assert(!(decoded@[i as int] matches Some(r) && r.id == descs@[i as int].id
                            && r.storage.within(region_len as nat)));
                        assert(!dict_events_ok(descs@, decoded@, region_len as nat));
                    }
                    return Err(Error::FormatError);
                }
                if raw.storage.len > region_len || raw.storage.offset > region_len - raw.storage.len
                {
                    proof {
                        assert(!raw.storage.within(region_len as nat));
                        assert(!(decoded@[i as int] matches Some(r) && r.id == descs@[i as int].id
                            && r.storage.within(region_len as nat)));
                        assert(!dict_events_ok(descs@, decoded@, region_len as nat));
                    }
                    return Err(Error::FormatError);
                }
                entries.push(DictEntry { id: raw.id, values: raw.values, storage: raw.storage });
            },
        }
        proof {
            assert(rest@ =~= decoded@.skip(i as int + 1));
        }
        i = i + 1;
    }
    Ok(DictionaryTable { entries })
}

} // verus!

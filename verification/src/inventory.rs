//! The inventory index: the hub's inventory records, found by device
//! identifier.

use vstd::prelude::*;
use vstd::hash_map::StringHashMap;
use crate::hub::{DeviceInventory, InventoryRecord};

verus! {

/// The records of a list as the contracts see them.
pub open spec fn records_view(records: Seq<DeviceInventory>) -> Seq<InventoryRecord> {
    Seq::new(records.len(), |i: int| records[i]@)
}

/// The index of a list of records: each record under its identifier, a later
/// record taking the place of an earlier one with the same identifier.
pub open spec fn index_of(records: Seq<InventoryRecord>) -> Map<Seq<char>, InventoryRecord>
    decreases records.len(),
{
    if records.len() == 0 {
        Map::empty()
    } else {
        index_of(records.drop_last()).insert(records.last().id, records.last())
    }
}

/// The inventory records of one scrape, by device identifier.
pub struct InventoryIndex {
    records: StringHashMap<DeviceInventory>,
}

impl View for InventoryIndex {
    type V = Map<Seq<char>, InventoryRecord>;

    closed spec fn view(&self) -> Map<Seq<char>, InventoryRecord> {
        self.records@.map_values(|record: DeviceInventory| record@)
    }
}

impl InventoryIndex {
    /// The index of `records`. Where two records have the same identifier,
    /// the later one is kept.
    pub fn build(records: Vec<DeviceInventory>) -> (index: InventoryIndex)
        ensures
            index@ == index_of(records_view(records@)),
    {
        let ghost all = records_view(records@);
        let mut map: StringHashMap<DeviceInventory> = StringHashMap::new();
        assert(map@.map_values(|record: DeviceInventory| record@) =~= index_of(all.take(0)));
        for record in it: records
            invariant
                all == records_view(it.seq()),
                map@.map_values(|record: DeviceInventory| record@) == index_of(
                    all.take(it.index() as int),
                ),
        {
            proof {
                let n = it.index() as int;
                assert(all.take(n + 1).drop_last() =~= all.take(n));
                assert(all.take(n + 1).last() == record@);
                assert(map@.insert(record.id@, record).map_values(|record: DeviceInventory| record@)
                    =~= map@.map_values(|record: DeviceInventory| record@).insert(
                    record.id@,
                    record@,
                ));
            }
            let id = record.id.clone();
            map.insert(id, record);
        }
        assert(all.take(all.len() as int) =~= all);
        InventoryIndex { records: map }
    }

    /// The record of the device `id`, if the inventory has one.
    pub fn get(&self, id: &str) -> (found: Option<&DeviceInventory>)
        ensures
            match found {
                Some(record) => self@.contains_key(id@) && record@ == self@[id@],
                None => !self@.contains_key(id@),
            },
    {
        self.records.get(id)
    }
}

/// The index holds exactly the identifiers that occur in the list.
pub proof fn lemma_index_domain(records: Seq<InventoryRecord>, id: Seq<char>)
    ensures
        index_of(records).contains_key(id) <==> exists|i: int|
            0 <= i < records.len() && (#[trigger] records[i]).id == id,
    decreases records.len(),
{
    if records.len() > 0 {
        let front = records.drop_last();
        lemma_index_domain(front, id);
        if records.last().id == id {
        } else if index_of(front).contains_key(id) {
            let i = choose|i: int| 0 <= i < front.len() && (#[trigger] front[i]).id == id;
            assert(records[i] == front[i]);
        } else if exists|i: int| 0 <= i < records.len() && (#[trigger] records[i]).id == id {
            let i = choose|i: int| 0 <= i < records.len() && (#[trigger] records[i]).id == id;
            assert(front[i] == records[i]);
        }
    }
}

/// Last wins: an identifier leads to the record at `i` where no later record
/// of the list has the same identifier.
pub proof fn lemma_index_last_wins(records: Seq<InventoryRecord>, i: int)
    requires
        0 <= i < records.len(),
        forall|j: int| i < j < records.len() ==> (#[trigger] records[j]).id != records[i].id,
    ensures
        index_of(records).contains_key(records[i].id),
        index_of(records)[records[i].id] == records[i],
    decreases records.len(),
{
    if i < records.len() - 1 {
        let front = records.drop_last();
        assert(front[i] == records[i]);
        assert forall|j: int| i < j < front.len() implies (#[trigger] front[j]).id
            != front[i].id by {
            assert(front[j] == records[j]);
        }
        lemma_index_last_wins(front, i);
        assert(records.last() == records[records.len() - 1]);
    }
}

} // verus!

//! The store of records, keyed by address. Nothing stands twice at one address.

use vstd::prelude::*;
use crate::error::CadpayError;
use crate::identity::Address;
use crate::records::Record;

verus! {

/// A record and the address at which it stands.
struct Entry {
    address: Address,
    record: Record,
}

/// Whether no address occurs twice among the entries.
spec fn distinct(entries: Seq<Entry>) -> bool {
    forall|i: int, j: int|
        0 <= i < entries.len() && 0 <= j < entries.len() && i != j
            ==> entries[i].address != entries[j].address
}

/// Whether an entry stands at the address.
spec fn holds(entries: Seq<Entry>, address: Address) -> bool {
    exists|i: int| 0 <= i < entries.len() && #[trigger] entries[i].address == address
}

/// The place of an entry with the address.
spec fn place(entries: Seq<Entry>, address: Address) -> int {
    choose|i: int| 0 <= i < entries.len() && #[trigger] entries[i].address == address
}

/// The entries as a map from address to record.
spec fn as_map(entries: Seq<Entry>) -> Map<Address, Record> {
    Map::new(
        |address: Address| holds(entries, address),
        |address: Address| entries[place(entries, address)].record,
    )
}

/// Among distinct entries, the map has each entry's record at its address.
proof fn entry_in_map(entries: Seq<Entry>, i: int)
    requires
        distinct(entries),
        0 <= i < entries.len(),
    ensures
        as_map(entries).dom().contains(entries[i].address),
        as_map(entries)[entries[i].address] == entries[i].record,
{
    let address = entries[i].address;
    assert(holds(entries, address));
    let k = place(entries, address);
    assert(0 <= k < entries.len() && entries[k].address == address);
    assert(k == i);
}

/// The registry of records.
pub struct Registry {
    entries: Vec<Entry>,
}

impl View for Registry {
    type V = Map<Address, Record>;

    closed spec fn view(&self) -> Map<Address, Record> {
        as_map(self.entries@)
    }
}

impl Registry {
    /// No address is taken twice.
    #[verifier::type_invariant]
    spec fn wf(&self) -> bool {
        distinct(self.entries@)
    }

    /// A registry without records.
    pub fn new() -> (r: Registry)
        ensures
            r@ == Map::<Address, Record>::empty(),
    {
        let r = Registry { entries: Vec::new() };
        proof {
            assert(r@ =~= Map::<Address, Record>::empty());
        }
        r
    }

    /// The index of the entry at the address, if there is one.
    fn find(&self, address: &Address) -> (r: Option<usize>)
        ensures
            match r {
                Some(i) => i < self.entries@.len() && self.entries@[i as int].address == *address
                    && self@.dom().contains(*address)
                    && self@[*address] == self.entries@[i as int].record,
                None => !self@.dom().contains(*address)
                    && forall|j: int| 0 <= j < self.entries@.len() ==> self.entries@[j].address != *address,
            },
    {
        proof {
            use_type_invariant(self);
        }
        let mut i: usize = 0;
        while i < self.entries.len()
            invariant
                distinct(self.entries@),
                i <= self.entries@.len(),
                forall|j: int| 0 <= j < i ==> self.entries@[j].address != *address,
            decreases self.entries@.len() - i,
        {
            if self.entries[i].address.same(address) {
                proof {
                    entry_in_map(self.entries@, i as int);
                }
                return Some(i);
            }
            i += 1;
        }
        None
    }

    /// Whether a record stands at the address.
    pub fn contains(&self, address: &Address) -> (r: bool)
        ensures
            r == self@.dom().contains(*address),
    {
        self.find(address).is_some()
    }

    /// The record at the address.
    pub fn get(&self, address: &Address) -> (r: Option<&Record>)
        ensures
            match r {
                Some(record) => self@.dom().contains(*address) && *record == self@[*address],
                None => !self@.dom().contains(*address),
            },
    {
        match self.find(address) {
            Some(i) => Some(&self.entries[i].record),
            None => None,
        }
    }

    /// Puts a record at a free address.
    pub fn create(&mut self, address: Address, record: Record) -> (r: Result<(), CadpayError>)
        ensures
            old(self)@.dom().contains(address) ==> r == Err::<(), CadpayError>(
                CadpayError::AccountAlreadyExists,
            ) && final(self)@ == old(self)@,
            !old(self)@.dom().contains(address) ==> r == Ok::<(), CadpayError>(()) && final(self)@ == old(
                self,
            )@.insert(address, record),
    {
        match self.find(&address) {
            Some(_) => Err(CadpayError::AccountAlreadyExists),
            None => {
                proof {
                    use_type_invariant(&*self);
                }
                let ghost before = self.entries@;
                let mut entries: Vec<Entry> = Vec::new();
                core::mem::swap(&mut self.entries, &mut entries);
                entries.push(Entry { address, record });
                proof {
                    let after = entries@;
                    assert(distinct(after));
                    assert forall|a: Address| holds(after, a) == (holds(before, a) || a == address) by {
                        if holds(before, a) {
                            let k = place(before, a);
                            assert(after[k].address == a);
                        }
                        if a == address {
                            assert(after[before.len() as int].address == a);
                        }
                    }
                    assert forall|a: Address| holds(after, a) implies #[trigger] as_map(after)[a]
                        == as_map(before).insert(address, record)[a] by {
                        let k = place(after, a);
                        entry_in_map(after, k);
                        if k < before.len() {
                            entry_in_map(before, k);
                        }
                    }
                    assert(as_map(after) =~= as_map(before).insert(address, record));
                }
                core::mem::swap(&mut self.entries, &mut entries);
                Ok(())
            },
        }
    }

    /// Replaces the record at an address that is taken.
    pub fn update(&mut self, address: Address, record: Record) -> (r: Result<(), CadpayError>)
        ensures
            old(self)@.dom().contains(address) ==> r == Ok::<(), CadpayError>(()) && final(self)@ == old(
                self,
            )@.insert(address, record),
            !old(self)@.dom().contains(address) ==> r == Err::<(), CadpayError>(
                CadpayError::NotFound,
            ) && final(self)@ == old(self)@,
    {
        match self.find(&address) {
            None => Err(CadpayError::NotFound),
            Some(i) => {
                proof {
                    use_type_invariant(&*self);
                }
                let ghost before = self.entries@;
                let mut entries: Vec<Entry> = Vec::new();
                core::mem::swap(&mut self.entries, &mut entries);
                entries.set(i, Entry { address, record });
                proof {
                    let after = entries@;
                    assert(forall|j: int| 0 <= j < after.len() ==> after[j].address == before[j].address);
                    assert(distinct(after));
                    assert forall|a: Address| holds(after, a) == holds(before, a) by {
                        if holds(before, a) {
                            let k = place(before, a);
                            assert(after[k].address == a);
                        }
                        if holds(after, a) {
                            let k = place(after, a);
                            assert(before[k].address == a);
                        }
                    }
                    assert forall|a: Address| holds(after, a) implies #[trigger] as_map(after)[a]
                        == as_map(before).insert(address, record)[a] by {
                        let k = place(after, a);
                        entry_in_map(after, k);
                        entry_in_map(before, k);
                    }
                    assert(as_map(after) =~= as_map(before).insert(address, record));
                }
                core::mem::swap(&mut self.entries, &mut entries);
                Ok(())
            },
        }
    }

    /// Takes the record at an address out of the registry and hands it back.
    pub fn delete(&mut self, address: Address) -> (r: Result<Record, CadpayError>)
        ensures
            old(self)@.dom().contains(address) ==> r == Ok::<Record, CadpayError>(
                old(self)@[address],
            ) && final(self)@ == old(self)@.remove(address),
            !old(self)@.dom().contains(address) ==> r == Err::<Record, CadpayError>(
                CadpayError::NotFound,
            ) && final(self)@ == old(self)@,
    {
        match self.find(&address) {
            None => Err(CadpayError::NotFound),
            Some(i) => {
                proof {
                    use_type_invariant(&*self);
                }
                let ghost before = self.entries@;
                let mut entries: Vec<Entry> = Vec::new();
                core::mem::swap(&mut self.entries, &mut entries);
                let entry = entries.remove(i);
                proof {
                    let after = entries@;
                    assert(forall|j: int| 0 <= j < i ==> after[j] == before[j]);
                    assert(forall|j: int| i <= j < after.len() ==> after[j] == before[j + 1]);
                    assert(distinct(after));
                    assert forall|a: Address| holds(after, a) == (holds(before, a) && a != address) by {
                        if holds(before, a) && a != address {
                            let k = place(before, a);
                            if k < i {
                                assert(after[k].address == a);
                            } else {
                                assert(after[k - 1].address == a);
                            }
                        }
                        if holds(after, a) {
                            let k = place(after, a);
                            if k < i {
                                assert(before[k].address == a);
                            } else {
                                assert(before[k + 1].address == a);
                            }
                        }
                    }
                    assert forall|a: Address| holds(after, a) implies #[trigger] as_map(after)[a]
                        == as_map(before)[a] by {
                        let k = place(after, a);
                        entry_in_map(after, k);
                        if k < i {
                            entry_in_map(before, k);
                        } else {
                            entry_in_map(before, k + 1);
                        }
                    }
                    assert(as_map(after) =~= as_map(before).remove(address));
                }
                core::mem::swap(&mut self.entries, &mut entries);
                Ok(entry.record)
            },
        }
    }
}

} // verus!

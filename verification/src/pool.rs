//! The connection pool: at most one live connection per device address,
//! shared by reference counting and reclaimed when the last holder
//! releases it.
//!
//! The pool tracks connections by an opaque numeric identifier chosen by
//! the caller that owns the transports; it never holds a transport
//! itself. Callers serialize `acquire` / `insert` / `release` under one
//! lock, so the check-then-insert sequence is a single critical section
//! and two simultaneous first-time connects for one address cannot race
//! into two live transports.
use vstd::prelude::*;

use crate::btaddr::BluetoothAdrr;

verus! {

/// One pool slot: an address, the identifier of its live connection and
/// the number of shared handles still held.
#[derive(Clone, Copy, Debug)]
pub struct PoolEntry {
    pub addr: BluetoothAdrr,
    pub conn_id: u64,
    pub handles: u64,
}

/// The first entry carrying the address `a`, searched front to back.
pub open spec fn spec_lookup(entries: Seq<PoolEntry>, a: Seq<u8>) -> Option<PoolEntry>
    decreases entries.len(),
{
    if entries.len() == 0 {
        None
    } else if entries[0].addr.address@ == a {
        Some(entries[0])
    } else {
        spec_lookup(entries.drop_first(), a)
    }
}

/// An entry is found exactly when some slot carries the address.
proof fn lemma_lookup_none_iff(entries: Seq<PoolEntry>, a: Seq<u8>)
    ensures
        spec_lookup(entries, a) is None <==> forall|j: int|
            0 <= j < entries.len() ==> (#[trigger] entries[j]).addr.address@ != a,
    decreases entries.len(),
{
    if entries.len() > 0 {
        lemma_lookup_none_iff(entries.drop_first(), a);
        if spec_lookup(entries, a) is None {
            assert forall|j: int|
                0 <= j < entries.len() implies (#[trigger] entries[j]).addr.address@ != a by {
                if j > 0 {
                    assert(entries.drop_first()[j - 1] == entries[j]);
                }
            }
        } else {
            if entries[0].addr.address@ == a {
            } else {
                let dl = entries.drop_first();
                assert(!(forall|j: int| 0 <= j < dl.len() ==> (#[trigger] dl[j]).addr.address@ != a));
                let j0 = choose|j: int| 0 <= j < dl.len() && (#[trigger] dl[j]).addr.address@ == a;
                assert(entries[j0 + 1].addr.address@ == a);
            }
        }
    }
}

/// Looking up the address of the first matching slot yields that slot.
proof fn lemma_lookup_first_match(entries: Seq<PoolEntry>, i: int)
    requires
        0 <= i < entries.len(),
        forall|j: int|
            0 <= j < i ==> (#[trigger] entries[j]).addr.address@ != entries[i].addr.address@,
    ensures
        spec_lookup(entries, entries[i].addr.address@) == Some(entries[i]),
    decreases i,
{
    if i > 0 {
        lemma_lookup_first_match(entries.drop_first(), i - 1);
    }
}

/// Replacing the first matching slot with one carrying the same address
/// redirects the lookup of that address to the replacement.
proof fn lemma_lookup_update_same(entries: Seq<PoolEntry>, i: int, e2: PoolEntry)
    requires
        0 <= i < entries.len(),
        e2.addr.address@ == entries[i].addr.address@,
        forall|j: int|
            0 <= j < i ==> (#[trigger] entries[j]).addr.address@ != entries[i].addr.address@,
    ensures
        spec_lookup(entries.update(i, e2), entries[i].addr.address@) == Some(e2),
    decreases i,
{
    if i == 0 {
    } else {
        lemma_lookup_update_same(entries.drop_first(), i - 1, e2);
        assert(entries.update(i, e2).drop_first() =~= entries.drop_first().update(i - 1, e2));
    }
}

/// Replacing a slot in place leaves the lookup of every other address
/// unchanged.
proof fn lemma_lookup_update_other(entries: Seq<PoolEntry>, i: int, e2: PoolEntry, a: Seq<u8>)
    requires
        0 <= i < entries.len(),
        e2.addr.address@ == entries[i].addr.address@,
        a != entries[i].addr.address@,
    ensures
        spec_lookup(entries.update(i, e2), a) == spec_lookup(entries, a),
    decreases entries.len(),
{
    if i == 0 {
        assert(entries.update(0, e2).drop_first() =~= entries.drop_first());
    } else {
        lemma_lookup_update_other(entries.drop_first(), i - 1, e2, a);
        assert(entries.update(i, e2).drop_first() =~= entries.drop_first().update(i - 1, e2));
    }
}

/// Removing a slot leaves the lookup of every other address unchanged.
proof fn lemma_lookup_remove_other(entries: Seq<PoolEntry>, i: int, a: Seq<u8>)
    requires
        0 <= i < entries.len(),
        a != entries[i].addr.address@,
    ensures
        spec_lookup(entries.remove(i), a) == spec_lookup(entries, a),
    decreases entries.len(),
{
    if i == 0 {
        assert(entries.remove(0) =~= entries.drop_first());
    } else if entries[0].addr.address@ == a {
        assert(entries.remove(i)[0] == entries[0]);
    } else {
        lemma_lookup_remove_other(entries.drop_first(), i - 1, a);
        assert(entries.remove(i).drop_first() =~= entries.drop_first().remove(i - 1));
        assert(entries.remove(i)[0] == entries[0]);
    }
}

/// Appending a slot for a fresh address serves that address from the
/// new slot and leaves every other address unchanged.
proof fn lemma_lookup_push(entries: Seq<PoolEntry>, e: PoolEntry, a: Seq<u8>)
    ensures
        spec_lookup(entries, a) is Some ==> spec_lookup(entries.push(e), a) == spec_lookup(
            entries,
            a,
        ),
        spec_lookup(entries, a) is None && e.addr.address@ == a ==> spec_lookup(
            entries.push(e),
            a,
        ) == Some(e),
        spec_lookup(entries, a) is None && e.addr.address@ != a ==> spec_lookup(
            entries.push(e),
            a,
        ) is None,
    decreases entries.len(),
{
    if entries.len() == 0 {
        assert(entries.push(e)[0] == e);
        assert(entries.push(e).drop_first() =~= Seq::<PoolEntry>::empty());
        assert(spec_lookup(Seq::<PoolEntry>::empty(), a) is None);
    } else {
        lemma_lookup_push(entries.drop_first(), e, a);
        assert(entries.push(e)[0] == entries[0]);
        assert(entries.push(e).drop_first() =~= entries.drop_first().push(e));
    }
}

/// The connection pool. Its well-formedness invariant: no address
/// appears in two slots, and every slot is held by at least one handle.
pub struct ConnectionPool {
    entries: Vec<PoolEntry>,
}

impl ConnectionPool {
    /// The pool's slots, oldest first.
    pub closed spec fn entries(&self) -> Seq<PoolEntry> {
        self.entries@
    }

    /// Addresses are pairwise distinct and every slot has at least one
    /// holder.
    pub open spec fn wf(&self) -> bool {
        &&& forall|i: int, j: int|
            0 <= i < j < self.entries().len() ==> (#[trigger] self.entries()[i]).addr.address@ != (
            #[trigger] self.entries()[j]).addr.address@
        &&& forall|i: int|
            0 <= i < self.entries().len() ==> (#[trigger] self.entries()[i]).handles >= 1
    }

    /// The slot currently serving `addr`, if any.
    pub open spec fn spec_entry_for(&self, addr: BluetoothAdrr) -> Option<PoolEntry> {
        spec_lookup(self.entries(), addr.address@)
    }

    /// An empty pool.
    pub fn new() -> (r: ConnectionPool)
        ensures
            r.wf(),
            forall|a: BluetoothAdrr| r.spec_entry_for(a) is None,
    {
        ConnectionPool { entries: Vec::new() }
    }

    /// Finds the index of the slot carrying `addr`.
    fn find_index(&self, addr: &BluetoothAdrr) -> (r: Option<usize>)
        ensures
            r matches Some(i) ==> {
                &&& 0 <= i < self.entries().len()
                &&& self.entries()[i as int].addr.address@ == addr.address@
                &&& spec_lookup(self.entries(), addr.address@) == Some(self.entries()[i as int])
                &&& forall|j: int|
                    0 <= j < i ==> (#[trigger] self.entries()[j]).addr.address@ != addr.address@
            },
            r is None ==> spec_lookup(self.entries(), addr.address@) is None,
    {
        let mut i: usize = 0;
        while i < self.entries.len()
            invariant
                0 <= i <= self.entries@.len(),
                forall|j: int|
                    0 <= j < i ==> (#[trigger] self.entries@[j]).addr.address@ != addr.address@,
            decreases self.entries@.len() - i,
        {
            if self.entries[i].addr == *addr {
                proof {
                    lemma_lookup_first_match(self.entries@, i as int);
                }
                return Some(i);
            }
            i = i + 1;
        }
        proof {
            lemma_lookup_none_iff(self.entries@, addr.address@);
        }
        None
    }

    /// A cache hit takes one more handle on the live connection and
    /// returns its identifier; a miss changes nothing and returns
    /// nothing, and the caller is expected to connect and then `insert`.
    pub fn acquire(&mut self, addr: &BluetoothAdrr) -> (r: Option<u64>)
        requires
            old(self).wf(),
            old(self).spec_entry_for(*addr) matches Some(e) ==> e.handles < u64::MAX,
        ensures
            final(self).wf(),
            old(self).spec_entry_for(*addr) matches Some(e) ==> r == Some(e.conn_id) && final(self).spec_entry_for(*addr) == Some(
                PoolEntry { addr: e.addr, conn_id: e.conn_id, handles: (e.handles + 1) as u64 },
            ),
            old(self).spec_entry_for(*addr) is None ==> r is None && final(self).entries() == old(self).entries(),
            forall|a: BluetoothAdrr|
                a.address@ != addr.address@ ==> final(self).spec_entry_for(a) == old(self).spec_entry_for(a),
    {
        match self.find_index(addr) {
            Some(i) => {
                let e = self.entries[i];
                let e2 = PoolEntry { addr: e.addr, conn_id: e.conn_id, handles: e.handles + 1 };
                proof {
                    lemma_lookup_update_same(self.entries@, i as int, e2);
                    assert forall|a: BluetoothAdrr| a.address@ != addr.address@ implies spec_lookup(
                        self.entries@.update(i as int, e2),
                        a.address@,
                    ) == spec_lookup(self.entries@, a.address@) by {
                        lemma_lookup_update_other(self.entries@, i as int, e2, a.address@);
                    }
                }
                self.entries[i] = e2;
                Some(e.conn_id)
            },
            None => None,
        }
    }

    /// Installs the connection a caller just created for an address the
    /// pool did not serve; the caller starts with one handle.
    pub fn insert(&mut self, addr: &BluetoothAdrr, conn_id: u64)
        requires
            old(self).wf(),
            old(self).spec_entry_for(*addr) is None,
        ensures
            final(self).wf(),
            final(self).spec_entry_for(*addr) == Some(
                PoolEntry { addr: *addr, conn_id, handles: 1u64 },
            ),
            forall|a: BluetoothAdrr|
                a.address@ != addr.address@ ==> final(self).spec_entry_for(a) == old(self).spec_entry_for(a),
    {
        let e = PoolEntry { addr: *addr, conn_id, handles: 1 };
        proof {
            lemma_lookup_none_iff(self.entries@, addr.address@);
            lemma_lookup_push(self.entries@, e, addr.address@);
            assert forall|a: BluetoothAdrr| a.address@ != addr.address@ implies spec_lookup(
                self.entries@.push(e),
                a.address@,
            ) == spec_lookup(self.entries@, a.address@) by {
                lemma_lookup_push(self.entries@, e, a.address@);
            }
        }
        self.entries.push(e);
        proof {
            let prev = old(self).entries();
            assert forall|i: int, j: int| 0 <= i < j < self.entries@.len() implies (
            #[trigger] self.entries@[i]).addr.address@ != (#[trigger] self.entries@[j
            ]).addr.address@ by {
                if j < prev.len() {
                } else {
                    assert(self.entries@[j] == e);
                    assert(self.entries@[i] == prev[i]);
                }
            }
        }
    }

    /// Releases one handle on the connection serving `addr`. When the
    /// last handle goes, the slot is evicted and the result asks the
    /// caller to close the transport — the next `acquire` for this
    /// address will miss and connect afresh. Releasing an address the
    /// pool does not serve changes nothing.
    pub fn release(&mut self, addr: &BluetoothAdrr) -> (r: bool)
        requires
            old(self).wf(),
        ensures
            final(self).wf(),
            old(self).spec_entry_for(*addr) is None ==> r == false && final(self).entries() == old(self).entries(),
            old(self).spec_entry_for(*addr) matches Some(e) ==> (e.handles > 1 ==> r == false
                && final(self).spec_entry_for(*addr) == Some(
                PoolEntry { addr: e.addr, conn_id: e.conn_id, handles: (e.handles - 1) as u64 },
            )),
            old(self).spec_entry_for(*addr) matches Some(e) ==> (e.handles == 1 ==> r == true
                && final(self).spec_entry_for(*addr) is None),
            forall|a: BluetoothAdrr|
                a.address@ != addr.address@ ==> final(self).spec_entry_for(a) == old(self).spec_entry_for(a),
    {
        match self.find_index(addr) {
            Some(i) => {
                let e = self.entries[i];
                if e.handles > 1 {
                    let e2 = PoolEntry { addr: e.addr, conn_id: e.conn_id, handles: e.handles - 1 };
                    proof {
                        lemma_lookup_update_same(self.entries@, i as int, e2);
                        assert forall|a: BluetoothAdrr|
                            a.address@ != addr.address@ implies spec_lookup(
                            self.entries@.update(i as int, e2),
                            a.address@,
                        ) == spec_lookup(self.entries@, a.address@) by {
                            lemma_lookup_update_other(self.entries@, i as int, e2, a.address@);
                        }
                    }
                    self.entries[i] = e2;
                    false
                } else {
                    proof {
                        assert forall|a: BluetoothAdrr|
                            a.address@ != addr.address@ implies spec_lookup(
                            self.entries@.remove(i as int),
                            a.address@,
                        ) == spec_lookup(self.entries@, a.address@) by {
                            lemma_lookup_remove_other(self.entries@, i as int, a.address@);
                        }
                        let removed = self.entries@.remove(i as int);
                        assert forall|i2: int, j2: int|
                            0 <= i2 < j2 < removed.len() implies (
                        #[trigger] removed[i2]).addr.address@ != (#[trigger] removed[j2
                        ]).addr.address@ by {
                            let oi = if i2 < i as int {
                                i2
                            } else {
                                i2 + 1
                            };
                            let oj = if j2 < i as int {
                                j2
                            } else {
                                j2 + 1
                            };
                            assert(removed[i2] == self.entries@[oi]);
                            assert(removed[j2] == self.entries@[oj]);
                        }
                        assert forall|k: int|
                            0 <= k < removed.len() implies (#[trigger] removed[k]).handles
                            >= 1 by {
                            let ok = if k < i as int {
                                k
                            } else {
                                k + 1
                            };
                            assert(removed[k] == self.entries@[ok]);
                        }
                        lemma_lookup_none_iff(removed, addr.address@);
                        assert forall|j: int|
                            0 <= j < removed.len() implies (#[trigger] removed[j]).addr.address@
                            != addr.address@ by {
                            let oj = if j < i as int {
                                j
                            } else {
                                j + 1
                            };
                            assert(removed[j] == self.entries@[oj]);
                        }
                    }
                    self.entries.remove(i);
                    true
                }
            },
            None => false,
        }
    }

    /// How many distinct addresses the pool currently serves.
    pub fn len(&self) -> (r: usize)
        ensures
            r == self.entries().len(),
    {
        self.entries.len()
    }

    /// The slot serving `addr`, if one is live: its connection id and
    /// its handle count. Callers read it to test the counter's ceiling
    /// before taking another handle, and to learn which connection to
    /// close after an eviction.
    pub fn entry_for(&self, addr: &BluetoothAdrr) -> (r: Option<PoolEntry>)
        ensures
            r == self.spec_entry_for(*addr),
    {
        match self.find_index(addr) {
            Some(i) => Some(self.entries[i]),
            None => None,
        }
    }
}

/// Pool identity: while a connection is live every slot that carries its
/// address is that one slot, so all concurrent holders converge on one
/// connection identifier.
pub proof fn lemma_pool_identity(p: ConnectionPool, i: int)
    requires
        p.wf(),
        0 <= i < p.entries().len(),
    ensures
        p.spec_entry_for(p.entries()[i].addr) == Some(p.entries()[i]),
{
    lemma_lookup_first_match(p.entries(), i);
}

} // verus!

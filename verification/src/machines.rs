//! Machine registry: owns machine liveness and occupancy.
//!
//! Occupancy (`Available`/`Reserved`) and liveness (`Online`/`Offline`) are
//! independent axes. A heartbeat refreshes liveness only and never touches
//! occupancy, so a heartbeat from a machine mid-session leaves it reserved.
//! Machine ids are dense: the machine with id `k` sits at position `k - 1`.

use vstd::multiset::Multiset;
use vstd::prelude::*;
use vstd::string::StringSliceAdditionalSpecFns;
use vstd::utf8::encode_utf8;

use crate::errors::ErrorKind;
use crate::models::{Liveness, Machine, Occupancy};
use crate::order::{lex_le, lemma_lex_le_refl, lemma_lex_le_total, lemma_lex_le_trans, str_le};

verus! {

broadcast use vstd::seq_lib::group_to_multiset_ensures;

/// Wrapper for a machine plus a human-readable note, as handed to the
/// transport layer.
#[derive(Debug)]
pub struct MachineResponse {
    pub machine: Machine,
    pub message: String,
}

/// The UTF-8 encoding of a machine's name; listings are ordered by it.
pub open spec fn name_bytes(m: Machine) -> Seq<u8> {
    encode_utf8(m.name@)
}

/// Adjacent machines appear in non-decreasing name order.
pub open spec fn sorted_by_name(s: Seq<Machine>) -> bool {
    forall|i: int| 0 <= i && i + 1 < s.len() ==> lex_le(name_bytes(#[trigger] s[i]), name_bytes(s[i + 1]))
}

/// A stored machine is well-formed for its position: dense id and a
/// non-negative heartbeat timestamp.
pub open spec fn machine_wf(m: Machine, i: int) -> bool {
    &&& m.id == i + 1
    &&& 0 <= m.last_seen_at
}

/// Owns all machine records.
pub struct MachineRegistry {
    machines: Vec<Machine>,
}

impl View for MachineRegistry {
    type V = Seq<Machine>;

    closed spec fn view(&self) -> Seq<Machine> {
        self.machines@
    }
}

impl MachineRegistry {
    /// Every stored machine is well-formed and names are unique.
    pub open spec fn wf(self) -> bool {
        &&& forall|i: int| 0 <= i < self@.len() ==> machine_wf(#[trigger] self@[i], i)
        &&& forall|i: int, j: int|
            0 <= i < j < self@.len() ==> (#[trigger] self@[i].name@) != (#[trigger] self@[j].name@)
    }

    pub open spec fn has_machine(self, id: i64) -> bool {
        1 <= id <= self@.len()
    }

    pub open spec fn machine(self, id: i64) -> Machine {
        self@[id - 1]
    }

    pub open spec fn has_name(self, name: Seq<char>) -> bool {
        exists|i: int| 0 <= i < self@.len() && (#[trigger] self@[i].name@) == name
    }

    pub fn new() -> (r: MachineRegistry)
        ensures
            r.wf(),
            r@.len() == 0,
    {
        MachineRegistry { machines: Vec::new() }
    }

    /// The position of a machine id, if registered.
    fn slot(&self, machine_id: i64) -> (r: Option<usize>)
        ensures
            match r {
                Some(i) => self.has_machine(machine_id) && i as int == machine_id - 1,
                None => !self.has_machine(machine_id),
            },
    {
        if machine_id >= 1 && ((machine_id - 1) as u64) < (self.machines.len() as u64) {
            Some((machine_id - 1) as usize)
        } else {
            None
        }
    }

    fn name_taken(&self, name: &String) -> (r: bool)
        ensures
            r == self.has_name(name@),
    {
        let n = self.machines.len();
        let mut i: usize = 0;
        while i < n
            invariant
                n == self.machines@.len(),
                i <= n,
                forall|j: int| 0 <= j < i ==> (#[trigger] self.machines@[j].name@) != name@,
            decreases n - i,
        {
            if self.machines[i].name == *name {
                return true;
            }
            i = i + 1;
        }
        false
    }

    /// Registers a new machine: available, online, seen now. Fails `Conflict`
    /// if and only if the name is already taken, leaving the registry
    /// unchanged.
    pub fn register(&mut self, name: String, now: i64) -> (r: Result<Machine, ErrorKind>)
        requires
            old(self).wf(),
            0 <= now,
            old(self)@.len() < i64::MAX,
        ensures
            final(self).wf(),
            r is Ok <==> !old(self).has_name(name@),
            match r {
                Ok(m) => {
                    &&& m.id == old(self)@.len() + 1
                    &&& m.name == name
                    &&& m.occupancy is Available
                    &&& m.liveness is Online
                    &&& m.last_seen_at == now
                    &&& final(self)@ == old(self)@.push(m)
                },
                Err(e) => {
                    &&& e == ErrorKind::Conflict
                    &&& final(self)@ == old(self)@
                },
            },
    {
        if self.name_taken(&name) {
            return Err(ErrorKind::Conflict);
        }
        let id = (self.machines.len() as i64) + 1;
        let m = Machine {
            id,
            name,
            occupancy: Occupancy::Available,
            liveness: Liveness::Online,
            last_seen_at: now,
        };
        let out = m.clone();
        self.machines.push(m);
        Ok(out)
    }

    /// Refreshes liveness and the last-seen timestamp. Never touches
    /// occupancy: a heartbeat on a reserved machine leaves it reserved.
    pub fn heartbeat(&mut self, machine_id: i64, now: i64) -> (r: Result<Machine, ErrorKind>)
        requires
            old(self).wf(),
            0 <= now,
        ensures
            final(self).wf(),
            r is Ok <==> old(self).has_machine(machine_id),
            match r {
                Ok(m) => {
                    &&& m.id == old(self).machine(machine_id).id
                    &&& m.name == old(self).machine(machine_id).name
                    &&& m.occupancy == old(self).machine(machine_id).occupancy
                    &&& m.liveness is Online
                    &&& m.last_seen_at == now
                    &&& final(self)@ == old(self)@.update(machine_id - 1, m)
                },
                Err(e) => {
                    &&& e == ErrorKind::NotFound
                    &&& final(self)@ == old(self)@
                },
            },
    {
        let i = match self.slot(machine_id) {
            Some(i) => i,
            None => {
                return Err(ErrorKind::NotFound);
            },
        };
        let mut m = self.machines[i].clone();
        m.liveness = Liveness::Online;
        m.last_seen_at = now;
        let out = m.clone();
        self.machines.set(i, m);
        Ok(out)
    }

    /// Marks a machine offline, as a liveness sweep does for machines whose
    /// heartbeats have stopped. Occupancy and the last-seen timestamp are
    /// untouched; the machine comes back online with its next heartbeat.
    pub fn mark_offline(&mut self, machine_id: i64) -> (r: Result<(), ErrorKind>)
        requires
            old(self).wf(),
        ensures
            final(self).wf(),
            r is Ok <==> old(self).has_machine(machine_id),
            match r {
                Ok(()) => final(self)@ == old(self)@.update(
                    machine_id - 1,
                    (Machine { liveness: Liveness::Offline, ..old(self).machine(machine_id) }),
                ),
                Err(e) => {
                    &&& e == ErrorKind::NotFound
                    &&& final(self)@ == old(self)@
                },
            },
    {
        let i = match self.slot(machine_id) {
            Some(i) => i,
            None => {
                return Err(ErrorKind::NotFound);
            },
        };
        let mut m = self.machines[i].clone();
        m.liveness = Liveness::Offline;
        self.machines.set(i, m);
        Ok(())
    }

    /// Atomically reserves an available, online machine. Exactly one of the
    /// error kinds applies otherwise, and a failure leaves the registry
    /// unchanged.
    pub fn reserve(&mut self, machine_id: i64) -> (r: Result<Machine, ErrorKind>)
        requires
            old(self).wf(),
        ensures
            final(self).wf(),
            r is Ok <==> (old(self).has_machine(machine_id)
                && old(self).machine(machine_id).liveness is Online
                && old(self).machine(machine_id).occupancy is Available),
            match r {
                Ok(m) => {
                    &&& m.id == old(self).machine(machine_id).id
                    &&& m.name == old(self).machine(machine_id).name
                    &&& m.occupancy is Reserved
                    &&& m.liveness == old(self).machine(machine_id).liveness
                    &&& m.last_seen_at == old(self).machine(machine_id).last_seen_at
                    &&& final(self)@ == old(self)@.update(machine_id - 1, m)
                },
                Err(e) => {
                    &&& final(self)@ == old(self)@
                    &&& (e == ErrorKind::NotFound <==> !old(self).has_machine(machine_id))
                    &&& (e == ErrorKind::Unavailable <==> old(self).has_machine(machine_id)
                        && old(self).machine(machine_id).liveness is Offline)
                    &&& (e == ErrorKind::Conflict <==> old(self).has_machine(machine_id)
                        && old(self).machine(machine_id).liveness is Online
                        && old(self).machine(machine_id).occupancy is Reserved)
                },
            },
    {
        let i = match self.slot(machine_id) {
            Some(i) => i,
            None => {
                return Err(ErrorKind::NotFound);
            },
        };
        if matches!(self.machines[i].liveness, Liveness::Offline) {
            return Err(ErrorKind::Unavailable);
        }
        if matches!(self.machines[i].occupancy, Occupancy::Reserved) {
            return Err(ErrorKind::Conflict);
        }
        let mut m = self.machines[i].clone();
        m.occupancy = Occupancy::Reserved;
        let out = m.clone();
        self.machines.set(i, m);
        Ok(out)
    }

    /// Atomically releases a machine. Releasing an already-available machine
    /// is a no-op returning success, so compensating retries are tolerated.
    pub fn release(&mut self, machine_id: i64) -> (r: Result<Machine, ErrorKind>)
        requires
            old(self).wf(),
        ensures
            final(self).wf(),
            r is Ok <==> old(self).has_machine(machine_id),
            match r {
                Ok(m) => {
                    &&& m.id == old(self).machine(machine_id).id
                    &&& m.name == old(self).machine(machine_id).name
                    &&& m.occupancy is Available
                    &&& m.liveness == old(self).machine(machine_id).liveness
                    &&& m.last_seen_at == old(self).machine(machine_id).last_seen_at
                    &&& final(self)@ == old(self)@.update(machine_id - 1, m)
                    &&& (old(self).machine(machine_id).occupancy is Available ==> final(self)@
                        == old(self)@)
                },
                Err(e) => {
                    &&& e == ErrorKind::NotFound
                    &&& final(self)@ == old(self)@
                },
            },
    {
        let i = match self.slot(machine_id) {
            Some(i) => i,
            None => {
                return Err(ErrorKind::NotFound);
            },
        };
        let mut m = self.machines[i].clone();
        m.occupancy = Occupancy::Available;
        let out = m.clone();
        proof {
            if old(self).machine(machine_id).occupancy is Available {
                assert(old(self)@.update(machine_id - 1, m) =~= old(self)@);
            }
        }
        self.machines.set(i, m);
        Ok(out)
    }

    /// All machines, in deterministic order by name.
    pub fn list(&self) -> (r: Vec<Machine>)
        ensures
            r@.to_multiset() == self@.to_multiset(),
            r@.len() == self@.len(),
            sorted_by_name(r@),
    {
        let copy = clone_machines(&self.machines);
        sort_machines_by_name(copy)
    }
}

/// An element-wise copy whose view equals the input's.
fn clone_machines(v: &Vec<Machine>) -> (r: Vec<Machine>)
    ensures
        r@ == v@,
{
    let r = v.clone();
    proof {
        assert forall|i: int| 0 <= i < v@.len() implies r@[i] == v@[i] by {
            assert(cloned::<Machine>(v@[i], r@[i]));
        }
        assert(r@ =~= v@);
    }
    r
}

/// Selection sort by name: returns the same machines (as a multiset) in
/// non-decreasing name order.
fn sort_machines_by_name(input: Vec<Machine>) -> (r: Vec<Machine>)
    ensures
        r@.to_multiset() == input@.to_multiset(),
        r@.len() == input@.len(),
        sorted_by_name(r@),
{
    let ghost orig = input@;
    let mut rest = input;
    let mut out: Vec<Machine> = Vec::new();
    proof {
        assert(out@.to_multiset().add(rest@.to_multiset()) =~= orig.to_multiset());
    }
    while rest.len() > 0
        invariant
            out@.to_multiset().add(rest@.to_multiset()) == orig.to_multiset(),
            out@.len() + rest@.len() == orig.len(),
            sorted_by_name(out@),
            forall|i: int, j: int|
                0 <= i < out@.len() && 0 <= j < rest@.len() ==> lex_le(
                    name_bytes(#[trigger] out@[i]),
                    name_bytes(#[trigger] rest@[j]),
                ),
        decreases rest@.len(),
    {
        let mi = min_name_index(&rest);
        let ghost pre = rest@;
        let m = rest.remove(mi);
        proof {
            assert(pre.remove(mi as int).to_multiset() =~= pre.to_multiset().remove(m));
            assert(out@.push(m).to_multiset() =~= out@.to_multiset().insert(m));
            assert(out@.to_multiset().insert(m).add(pre.to_multiset().remove(m)) =~= orig.to_multiset());
        }
        out.push(m);
    }
    proof {
        assert(rest@.to_multiset() =~= Multiset::empty());
        assert(out@.to_multiset().add(Multiset::empty()) =~= out@.to_multiset());
    }
    out
}

/// The position of a machine whose name is lexicographically least.
fn min_name_index(v: &Vec<Machine>) -> (r: usize)
    requires
        v@.len() > 0,
    ensures
        r < v@.len(),
        forall|j: int| 0 <= j < v@.len() ==> lex_le(name_bytes(v@[r as int]), name_bytes(#[trigger] v@[j])),
{
    let mut mi: usize = 0;
    let mut k: usize = 1;
    proof {
        lemma_lex_le_refl(name_bytes(v@[0]));
    }
    while k < v.len()
        invariant
            0 < v@.len(),
            mi < k <= v@.len(),
            forall|j: int| 0 <= j < k ==> lex_le(name_bytes(v@[mi as int]), name_bytes(#[trigger] v@[j])),
        decreases v@.len() - k,
    {
        if str_le(v[k].name.as_str(), v[mi].name.as_str()) {
            proof {
                assert forall|j: int| 0 <= j < k + 1 implies lex_le(
                    name_bytes(v@[k as int]),
                    name_bytes(v@[j]),
                ) by {
                    if j < k {
                        lemma_lex_le_trans(
                            name_bytes(v@[k as int]),
                            name_bytes(v@[mi as int]),
                            name_bytes(v@[j]),
                        );
                    } else {
                        lemma_lex_le_refl(name_bytes(v@[k as int]));
                    }
                }
            }
            mi = k;
        } else {
            proof {
                lemma_lex_le_total(name_bytes(v@[mi as int]), name_bytes(v@[k as int]));
            }
        }
        k = k + 1;
    }
    mi
}

} // verus!

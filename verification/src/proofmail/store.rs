//! The in-memory packet store: each packet is kept under its identifier with
//! its integrity hash, and a later store under the same identifier replaces
//! the earlier one.
use vstd::prelude::*;
use crate::bytes::str_eq;

verus! {

/// A stored packet, its identifier and its integrity hash.
pub struct PacketRecord<P> {
    pub packet_id: String,
    pub packet: P,
    pub hash: String,
}

/// The packet and hash stored last under `id`, if any.
pub open spec fn lookup<P>(records: Seq<PacketRecord<P>>, id: Seq<char>) -> Option<(P, Seq<char>)>
    decreases records.len(),
{
    if records.len() == 0 {
        None
    } else if records.last().packet_id@ == id {
        Some((records.last().packet, records.last().hash@))
    } else {
        lookup(records.drop_last(), id)
    }
}

/// Packets with their integrity hashes, by identifier.
pub struct PacketRecords<P> {
    records: Vec<PacketRecord<P>>,
}

impl<P> PacketRecords<P> {
    /// The packet and hash stored under `id`, if any.
    pub closed spec fn stored(&self, id: Seq<char>) -> Option<(P, Seq<char>)> {
        lookup(self.records@, id)
    }

    /// An empty store.
    pub fn new() -> (r: Self)
        ensures
            forall|id: Seq<char>| #[trigger] r.stored(id) is None,
    {
        PacketRecords { records: Vec::new() }
    }

    /// Stores `packet` with its integrity hash under `packet_id`, replacing
    /// what was stored under it; returns the identifier.
    pub fn store(&mut self, packet_id: String, packet: P, hash: String) -> (r: String)
        ensures
            r@ == packet_id@,
            final(self).stored(packet_id@) == Some((packet, hash@)),
            forall|id: Seq<char>| id != packet_id@ ==> #[trigger] final(self).stored(id) == old(self).stored(id),
    {
        let r = packet_id.clone();
        let ghost before = self.records@;
        self.records.push(PacketRecord { packet_id, packet, hash });
        proof {
            assert(self.records@.drop_last() =~= before);
        }
        r
    }

    fn position(&self, id: &str) -> (r: Option<usize>)
        ensures
            match lookup(self.records@, id@) {
                Some((p, h)) => r matches Some(i) && i < self.records@.len()
                    && self.records@[i as int].packet == p && self.records@[i as int].hash@ == h,
                None => r is None,
            },
    {
        let mut n: usize = self.records.len();
        assert(self.records@.subrange(0, n as int) =~= self.records@);
        while n > 0
            invariant
                n <= self.records@.len(),
                lookup(self.records@, id@) == lookup(self.records@.subrange(0, n as int), id@),
            decreases n,
        {
            let ghost prefix = self.records@.subrange(0, n as int);
            assert(prefix.last() == self.records@[n - 1]);
            assert(prefix.drop_last() =~= self.records@.subrange(0, n - 1));
            if str_eq(self.records[n - 1].packet_id.as_str(), id) {
                return Some(n - 1);
            }
            n = n - 1;
        }
        None
    }

    /// The packet stored under `id`, if any.
    pub fn get(&self, id: &str) -> (r: Option<&P>)
        ensures
            match self.stored(id@) {
                Some((p, h)) => r == Some(&p),
                None => r is None,
            },
    {
        match self.position(id) {
            Some(i) => Some(&self.records[i].packet),
            None => None,
        }
    }

    /// The integrity hash stored under `id`, if any.
    pub fn get_hash(&self, id: &str) -> (r: Option<&str>)
        ensures
            match self.stored(id@) {
                Some((p, h)) => r matches Some(s) && s@ == h,
                None => r is None,
            },
    {
        match self.position(id) {
            Some(i) => Some(self.records[i].hash.as_str()),
            None => None,
        }
    }
}

} // verus!

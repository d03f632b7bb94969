use vstd::prelude::*;

verus! {

/// Relies on uuid::Uuid::new_v4 and Uuid::as_u128: a random identifier whose
/// version field reads 4.
#[verifier::external_body]
fn random_client_id() -> (r: u128)
    ensures
        (r >> 76u128) & 0xfu128 == 4,
{
    uuid::Uuid::new_v4().as_u128()
}

/// Everyone but `origin`, in directory order.
pub open spec fn others(ids: Seq<u128>, origin: u128) -> Seq<u128> {
    ids.filter(|x: u128| x != origin)
}

/// The identifiers of the sessions that are connected to the server, in
/// order of arrival. A sequence without duplicates, rather than a hashed set,
/// keeps fan-out deterministic: the recipients of a packet are stated as an
/// exact sequence, which a hashed set's per-process walk order cannot give.
pub struct ClientDirectory {
    ids: Vec<u128>,
}

impl ClientDirectory {
    /// The connected identifiers, in order of arrival.
    pub closed spec fn members(&self) -> Seq<u128> {
        self.ids@
    }

    /// No identifier is held twice.
    pub open spec fn wf(&self) -> bool {
        self.members().no_duplicates()
    }

    pub fn new() -> (r: ClientDirectory)
        ensures
            r.wf(),
            r.members() == Seq::<u128>::empty(),
    {
        ClientDirectory { ids: Vec::new() }
    }

    pub fn len(&self) -> (r: usize)
        ensures
            r == self.members().len(),
    {
        self.ids.len()
    }

    pub fn contains(&self, id: u128) -> (r: bool)
        ensures
            r == self.members().contains(id),
    {
        let mut i: usize = 0;
        while i < self.ids.len()
            invariant
                i <= self.ids@.len(),
                forall|k: int| 0 <= k < i ==> self.ids@[k] != id,
            decreases self.ids@.len() - i,
        {
            if self.ids[i] == id {
                return true;
            }
            i += 1;
        }
        false
    }

    /// The connected identifiers, in order of arrival.
    pub fn ids(&self) -> (r: Vec<u128>)
        ensures
            r@ == self.members(),
    {
        self.ids.clone()
    }

    /// Adds `id` unless it is already connected; says whether it was added.
    pub fn insert(&mut self, id: u128) -> (r: bool)
        requires
            old(self).wf(),
        ensures
            final(self).wf(),
            r == !old(self).members().contains(id),
            final(self).members() == if r {
                old(self).members().push(id)
            } else {
                old(self).members()
            },
    {
        if self.contains(id) {
            return false;
        }
        self.ids.push(id);
        assert forall|a: int, b: int|
            0 <= a < b < self.ids@.len() implies self.ids@[a] != self.ids@[b] by {
            if b == self.ids@.len() - 1 {
                assert(old(self).members().contains(self.ids@[a]) || a == b);
            }
        }
        true
    }

    /// Registers a session under a fresh random identifier. In the unlikely
    /// case that the drawn identifier is already connected nothing changes and
    /// no identifier is returned.
    pub fn register(&mut self) -> (r: Option<u128>)
        requires
            old(self).wf(),
        ensures
            final(self).wf(),
            match r {
                Some(id) => !old(self).members().contains(id) && final(self).members()
                    == old(self).members().push(id),
                None => final(self).members() == old(self).members(),
            },
            r is None ==> exists|x: u128|
                old(self).members().contains(x) && (x >> 76u128) & 0xfu128 == 4,
    {
        let id = random_client_id();
        if self.insert(id) {
            Some(id)
        } else {
            None
        }
    }

    /// Removes `id`; says whether it was connected.
    pub fn remove(&mut self, id: u128) -> (r: bool)
        requires
            old(self).wf(),
        ensures
            final(self).wf(),
            r == old(self).members().contains(id),
            final(self).members() == others(old(self).members(), id),
    {
        let found = self.contains(id);
        let kept = self.recipients(id);
        self.ids = kept;
        found
    }

    /// The sessions that a packet from `origin` goes to: every connected
    /// identifier but `origin`, each once, in order of arrival.
    pub fn recipients(&self, origin: u128) -> (r: Vec<u128>)
        requires
            self.wf(),
        ensures
            r@ == others(self.members(), origin),
            r@.no_duplicates(),
            forall|x: u128| r@.contains(x) <==> (self.members().contains(x) && x != origin),
    {
        let mut out: Vec<u128> = Vec::new();
        let mut i: usize = 0;
        while i < self.ids.len()
            invariant
                i <= self.ids@.len(),
                self.ids@.no_duplicates(),
                out@ == others(self.ids@.subrange(0, i as int), origin),
                out@.no_duplicates(),
                forall|x: u128|
                    out@.contains(x) <==> (self.ids@.subrange(0, i as int).contains(x) && x
                        != origin),
            decreases self.ids@.len() - i,
        {
            let id = self.ids[i];
            let ghost before = self.ids@.subrange(0, i as int);
            let ghost after = self.ids@.subrange(0, i + 1);
            assert(after.drop_last() == before);
            assert(after.last() == id);
            assert(!before.contains(id)) by {
                if before.contains(id) {
                    let k = choose|k: int| 0 <= k < before.len() && before[k] == id;
                    assert(self.ids@[k] == self.ids@[i as int]);
                }
            }
            let ghost prev = out@;
            assert(!prev.contains(id));
            if id != origin {
                out.push(id);
                assert forall|a: int, b: int|
                    0 <= a < b < out@.len() implies out@[a] != out@[b] by {
                    if b == out@.len() - 1 {
                        assert(prev[a] == out@[a]);
                    } else {
                        assert(prev[a] == out@[a] && prev[b] == out@[b]);
                    }
                }
            }
            proof {
                reveal_with_fuel(Seq::filter, 1);
            }
            assert(others(after, origin) == if id != origin {
                others(before, origin).push(id)
            } else {
                others(before, origin)
            });
            assert forall|x: u128| out@.contains(x) <==> (after.contains(x) && x != origin) by {
                if prev.contains(x) {
                    let k = choose|k: int| 0 <= k < prev.len() && prev[k] == x;
                    assert(out@[k] == x);
                }
                if out@.contains(x) && x != id {
                    let k = choose|k: int| 0 <= k < out@.len() && out@[k] == x;
                    assert(k < prev.len());
                    assert(prev[k] == x);
                }
                if x == id && id != origin {
                    assert(out@[out@.len() - 1] == x);
                    assert(after[i as int] == x);
                }
                if after.contains(x) {
                    let k = choose|k: int| 0 <= k < after.len() && after[k] == x;
                    if k < i {
                        assert(before[k] == x);
                    }
                }
                if before.contains(x) {
                    let k = choose|k: int| 0 <= k < before.len() && before[k] == x;
                    assert(after[k] == x);
                }
            }
            i += 1;
        }
        assert(self.ids@.subrange(0, i as int) == self.ids@);
        out
    }
}

} // verus!

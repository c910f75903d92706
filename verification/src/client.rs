//! Client-level checks and state that need no network access: capability
//! guards run before each call, and the client's credential status.
use vstd::prelude::*;

use crate::definitions::responses::B2AuthData;
use crate::definitions::shared::B2KeyCapability;
use crate::error::B2Error;

verus! {

/// Whether the client's credentials are still usable.
#[derive(Clone, Copy, Debug, PartialEq, Eq, Structural)]
pub enum B2ClientStatus {
    /// The default state: the key is valid.
    Authed,
    /// The key has expired and cannot be refreshed; a new client is needed.
    KeyExpired,
}

/// The capabilities an authorization grants.
pub open spec fn spec_capabilities(auth: &B2AuthData) -> Seq<B2KeyCapability> {
    auth.api_info.storage_api.capabilities@
}

/// The client's roster of tracked upload tasks, by identifier. A finished
/// or discarded task leaves its slot empty, and the next registration takes
/// the first empty slot before the roster grows.
#[derive(Clone, Debug)]
pub struct UploadRegistry {
    /// One slot per tracked task; an empty slot awaits reuse.
    pub slots: Vec<Option<u64>>,
}

impl UploadRegistry {
    /// An empty roster.
    pub fn new() -> (r: Self)
        ensures
            r.slots@.len() == 0,
    {
        UploadRegistry { slots: Vec::new() }
    }

    /// Tracks a task: the first empty slot is reused, and only when every
    /// slot is taken does the roster grow by one.
    pub fn push_upload(&mut self, id: u64)
        ensures
            exists|j: int|
                #![trigger final(self).slots@[j]]
                {
                    &&& 0 <= j < final(self).slots@.len()
                    &&& final(self).slots@ == if j < old(self).slots@.len() {
                        old(self).slots@.update(j, Some(id))
                    } else {
                        old(self).slots@.push(Some(id))
                    }
                    &&& j < old(self).slots@.len() ==> old(self).slots@[j] is None
                    &&& j == old(self).slots@.len() ==> (forall|k: int|
                        0 <= k < old(self).slots@.len() ==> (#[trigger] old(
                            self,
                        ).slots@[k]) is Some)
                },
    {
        let len = self.slots.len();
        let mut i: usize = 0;
        while i < len
            invariant
                i <= len,
                len == self.slots@.len(),
                self == old(self),
                forall|k: int| 0 <= k < i ==> (#[trigger] self.slots@[k]) is Some,
            decreases len - i,
        {
            if self.slots[i].is_none() {
                self.slots[i] = Some(id);
                proof {
                    assert(self.slots@ =~= old(self).slots@.update(i as int, Some(id)));
                    assert(self.slots@[i as int] == Some(id));
                }
                return;
            }
            i = i + 1;
        }
        self.slots.push(Some(id));
        proof {
            assert(self.slots@ =~= old(self).slots@.push(Some(id)));
            assert(self.slots@[old(self).slots@.len() as int] == Some(id));
        }
    }

    /// Stops tracking the task with the given identifier, if any slot holds
    /// it; its slot empties and the others stay as they are.
    pub fn remove_upload(&mut self, id: u64)
        ensures
            final(self).slots@.len() == old(self).slots@.len(),
            forall|k: int|
                0 <= k < old(self).slots@.len() ==> (#[trigger] final(self).slots@[k]) == (
                if old(self).slots@[k] == Some(id) {
                    None
                } else {
                    old(self).slots@[k]
                }),
    {
        let len = self.slots.len();
        let mut i: usize = 0;
        while i < len
            invariant
                i <= len,
                len == self.slots@.len(),
                self.slots@.len() == old(self).slots@.len(),
                forall|k: int|
                    0 <= k < i ==> (#[trigger] self.slots@[k]) == (
                    if old(self).slots@[k] == Some(id) {
                        None
                    } else {
                        old(self).slots@[k]
                    }),
                forall|k: int|
                    i <= k < len ==> (#[trigger] self.slots@[k]) == old(self).slots@[k],
            decreases len - i,
        {
            let here = match &self.slots[i] {
                Some(v) => *v == id,
                None => false,
            };
            if here {
                self.slots[i] = None;
            }
            i = i + 1;
        }
    }

    /// The identifiers of the tasks still tracked, in slot order.
    pub fn tracked_ids(&self) -> (r: Vec<u64>)
        ensures
            r@ == ids_of(self.slots@),
    {
        let mut out: Vec<u64> = Vec::new();
        let len = self.slots.len();
        let mut i: usize = 0;
        while i < len
            invariant
                i <= len,
                len == self.slots@.len(),
                out@ == ids_of(self.slots@.subrange(0, i as int)),
            decreases len - i,
        {
            let ghost prefix = self.slots@.subrange(0, i as int);
            match &self.slots[i] {
                Some(v) => {
                    out.push(*v);
                }
                None => {}
            }
            proof {
                let next = self.slots@.subrange(0, i + 1);
                assert(next.drop_last() =~= prefix);
                assert(next.last() == self.slots@[i as int]);
            }
            i = i + 1;
        }
        proof {
            assert(self.slots@.subrange(0, self.slots@.len() as int) =~= self.slots@);
        }
        out
    }
}

/// The identifiers held by the occupied slots, in slot order.
pub open spec fn ids_of(s: Seq<Option<u64>>) -> Seq<u64>
    decreases s.len(),
{
    if s.len() == 0 {
        Seq::empty()
    } else {
        let rest = ids_of(s.drop_last());
        match s.last() {
            Some(v) => rest.push(v),
            None => rest,
        }
    }
}

/// Checks that the authorization grants one capability; the error names the
/// missing one.
pub fn has_capability(auth: &B2AuthData, capability: B2KeyCapability) -> (r: Result<(), B2Error>)
    ensures
        r is Ok <==> spec_capabilities(auth).contains(capability),
        r is Err ==> r == Err::<(), B2Error>(B2Error::MissingCapability(capability)),
{
    let caps = &auth.api_info.storage_api.capabilities;
    let mut i: usize = 0;
    let len = caps.len();
    while i < len
        invariant
            i <= len,
            caps@ == spec_capabilities(auth),
            len == caps@.len(),
            forall|k: int| 0 <= k < i ==> caps@[k] != capability,
        decreases len - i,
    {
        if caps[i] == capability {
            proof {
                assert(spec_capabilities(auth)[i as int] == capability);
            }
            return Ok(());
        }
        i = i + 1;
    }
    proof {
        assert(forall|k: int| 0 <= k < caps@.len() ==> caps@[k] != capability);
        assert(!spec_capabilities(auth).contains(capability));
    }
    Err(B2Error::MissingCapability(capability))
}

/// Checks that the authorization grants every listed capability; the error
/// names the first missing one.
pub fn has_capabilities(auth: &B2AuthData, capabilities: &[B2KeyCapability]) -> (r: Result<
    (),
    B2Error,
>)
    ensures
        r is Ok <==> (forall|k: int|
            0 <= k < capabilities@.len() ==> spec_capabilities(auth).contains(
                #[trigger] capabilities@[k],
            )),
{
    let mut i: usize = 0;
    let len = capabilities.len();
    while i < len
        invariant
            i <= len,
            len == capabilities@.len(),
            forall|k: int|
                0 <= k < i ==> spec_capabilities(auth).contains(#[trigger] capabilities@[k]),
        decreases len - i,
    {
        match has_capability(auth, capabilities[i]) {
            Ok(()) => {}
            Err(e) => {
                return Err(e);
            }
        }
        i = i + 1;
    }
    Ok(())
}

} // verus!

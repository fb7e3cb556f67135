//! The session registry: allocates, validates and releases the session
//! identifiers used during connection registration.

use vstd::prelude::*;

use crate::eip::EipResult;
use crate::encapsulation::VERSION;
use crate::error_code::ErrorCode;
use crate::reader::Reader;
use crate::sink;
use crate::sink::bytes_of;
use crate::wire::{le16, u16_le_val};
use bytes::BytesMut;
use std::collections::HashSet;

verus! {

broadcast use vstd::std_specs::hash::group_hash_axioms;

/// The session registry: a monotonically advancing next-id counter plus the
/// set of identifiers currently issued. The registry performs no locking;
/// a caller that shares it across connection handlers must serialize access.
#[derive(Debug)]
pub struct Session {
    id: u32,
    set: HashSet<u32>,
}

impl Session {
    /// The identifiers currently issued.
    pub closed spec fn spec_issued(self) -> Set<u32> {
        self.set@
    }

    /// The identifier most recently allocated.
    pub closed spec fn spec_counter(self) -> u32 {
        self.id
    }

    /// Request to register a new session.
    ///
    /// Reads a two-byte protocol version and two option flag bytes from
    /// `req`; always allocates a fresh identifier, skipping any value still
    /// issued, and always writes a response carrying the supported version
    /// and zero option flags — also when the requested version is too new,
    /// in which case the outcome is `UnsupportedVersion` and the caller
    /// must check it: the allocation has happened regardless.
    ///
    /// The registry must not be saturated: the search for a fresh
    /// identifier advances until it finds one, so some identifier must
    /// still be free (a registry holding all identifiers at once is beyond
    /// any real machine).
    pub fn register(&mut self, req: &mut Reader, res: &mut BytesMut, id: &mut u32) -> (r: EipResult)
        requires
            exists|x: u32| !old(self).spec_issued().contains(x),
        ensures
            old(req).rest().len() < 4 ==> {
                &&& r == Err::<(), ErrorCode>(ErrorCode::NotEnoughData)
                &&& *final(self) == *old(self)
                &&& *final(req) == *old(req)
                &&& bytes_of(*final(res)) == bytes_of(*old(res))
                &&& *final(id) == *old(id)
            },
            old(req).rest().len() >= 4 && bytes_of(*old(res)).len() + 4 > isize::MAX ==> {
                &&& r == Err::<(), ErrorCode>(ErrorCode::ReplyDataTooLarge)
                &&& *final(self) == *old(self)
                &&& *final(req) == *old(req)
                &&& bytes_of(*final(res)) == bytes_of(*old(res))
                &&& *final(id) == *old(id)
            },
            old(req).rest().len() >= 4 && bytes_of(*old(res)).len() + 4 <= isize::MAX ==> {
                &&& final(req).rest() == old(req).rest().skip(4)
                &&& !old(self).spec_issued().contains(*final(id))
                &&& final(self).spec_issued() == old(self).spec_issued().insert(*final(id))
                &&& *final(id) == final(self).spec_counter()
                &&& bytes_of(*final(res)) == bytes_of(*old(res)) + le16(VERSION) + le16(0)
                &&& r == (if u16_le_val(old(req).rest()[0], old(req).rest()[1]) <= VERSION {
                    Ok::<(), ErrorCode>(())
                } else {
                    Err::<(), ErrorCode>(ErrorCode::UnsupportedVersion)
                })
            },
    {
        // protocol version + option flags
        if req.remaining() < 4 {
            return Err(ErrorCode::NotEnoughData);
        }
        if sink::remaining_mut(res) < 4 {
            return Err(ErrorCode::ReplyDataTooLarge);
        }

        let version = req.get_u16_le();
        let _options = req.get_u16_le();
        proof {
            assert(req.rest() =~= old(req).rest().skip(4));
        }

        // find a free session id, skipping any still issued, without reuse
        // on wraparound while an old id remains active; the search must
        // reach the free id the requires grants, at the latest
        let ghost x0: u32 = choose|x: u32| !old(self).spec_issued().contains(x);
        let mut done = false;
        while !done
            invariant
                !old(self).set@.contains(x0),
                !done ==> self.set@ == old(self).set@,
                done ==> !old(self).set@.contains(self.id) && self.set@ == old(
                    self,
                ).set@.insert(self.id),
            decreases
                    (if done {
                        0int
                    } else {
                        1int
                    }),
                    (if self.id < x0 {
                        0int
                    } else {
                        1int
                    }),
                    (if self.id < x0 {
                        x0 - self.id
                    } else {
                        0x100000000int - self.id
                    }),
        {
            self.id = if self.id == u32::MAX {
                0
            } else {
                self.id + 1
            };
            let ghost before = self.set@;
            done = self.set.insert(self.id);
            proof {
                if !done {
                    assert(self.set@ =~= before);
                }
            }
        }
        *id = self.id;

        sink::put_u16_le(res, VERSION);
        sink::put_u16_le(res, 0);  // option flags

        if version > VERSION {
            return Err(ErrorCode::UnsupportedVersion);
        }

        Ok(())
    }

    /// Request to remove a session; fails `InvalidSession` when the
    /// identifier was never issued or has already been removed.
    pub fn unregister(&mut self, id: u32) -> (r: EipResult)
        ensures
            final(self).spec_issued() == old(self).spec_issued().remove(id),
            final(self).spec_counter() == old(self).spec_counter(),
            r == (if old(self).spec_issued().contains(id) {
                Ok::<(), ErrorCode>(())
            } else {
                Err::<(), ErrorCode>(ErrorCode::InvalidSession)
            }),
    {
        let ghost before = self.set@;
        let removed = self.set.remove(&id);
        proof {
            if !removed {
                assert(self.set@ =~= before.remove(id));
            }
        }
        if !removed {
            return Err(ErrorCode::InvalidSession);
        }
        Ok(())
    }

    /// Test whether this is a currently issued session identifier; a pure
    /// membership query, no mutation.
    pub fn check(&mut self, id: u32) -> (r: bool)
        ensures
            r == old(self).spec_issued().contains(id),
            *final(self) == *old(self),
    {
        self.set.contains(&id)
    }
}

/// Default is an empty registry with the counter at zero.
impl Default for Session {
    fn default() -> (r: Self)
        ensures
            r.spec_issued() == Set::<u32>::empty(),
            r.spec_counter() == 0,
    {
        Session { id: 0, set: HashSet::new() }
    }
}

/// A run of the registry: step `k` issues `ids[k]`, which is not issued at
/// that point, and records it, taking the issued set from `sets[k]` to
/// `sets[k + 1]`. This is what each successful `register` call does to the
/// issued set.
pub open spec fn spec_issue_trace(sets: Seq<Set<u32>>, ids: Seq<u32>) -> bool {
    &&& sets.len() == ids.len() + 1
    &&& forall|k: int|
        0 <= k < ids.len() ==> !(#[trigger] sets[k]).contains(ids[k]) && sets[k + 1] == sets[
            k
        ].insert(ids[k])
}

/// An identifier once issued stays in the issued set for the rest of the
/// run (no step removes identifiers).
pub proof fn lemma_issued_id_stays(sets: Seq<Set<u32>>, ids: Seq<u32>, a: int, k: int)
    requires
        spec_issue_trace(sets, ids),
        0 <= a < k < sets.len(),
    ensures
        sets[k].contains(ids[a]),
    decreases k,
{
    if k == a + 1 {
        assert(sets[k] == sets[a].insert(ids[a]));
    } else {
        lemma_issued_id_stays(sets, ids, a, k - 1);
        assert(sets[k] == sets[k - 1].insert(ids[k - 1]));
    }
}

/// Sequential registrations hand out pairwise distinct identifiers: a run
/// of `N` register calls produces `N` distinct ids.
pub proof fn lemma_issued_ids_distinct(sets: Seq<Set<u32>>, ids: Seq<u32>, a: int, b: int)
    requires
        spec_issue_trace(sets, ids),
        0 <= a < b < ids.len(),
    ensures
        ids[a] != ids[b],
{
    lemma_issued_id_stays(sets, ids, a, b);
}

/// After an identifier is released it no longer validates: removing it
/// from the issued set leaves a set that does not contain it.
pub proof fn lemma_unregister_invalidates(issued: Set<u32>, id: u32)
    ensures
        !issued.remove(id).contains(id),
{
}

} // verus!

use vstd::prelude::*;

use crate::types::{PeerInfoToSave, MAX_FAILED_ATTEMPTS};

verus! {

/// Some record of `s` has identifier `id`.
pub open spec fn has_peer(s: Seq<PeerInfoToSave>, id: Seq<char>) -> bool {
    exists|i: int| 0 <= i < s.len() && s[i].peer_id@ == id
}

/// `i` is the position of the first record of `s` with identifier `id`.
pub open spec fn is_first_peer(s: Seq<PeerInfoToSave>, id: Seq<char>, i: int) -> bool {
    &&& 0 <= i < s.len()
    &&& s[i].peer_id@ == id
    &&& forall|j: int| 0 <= j < i ==> s[j].peer_id@ != id
}

/// Position of the first record with identifier `id`, or -1 when there is none.
pub open spec fn peer_index(s: Seq<PeerInfoToSave>, id: Seq<char>) -> int {
    if has_peer(s, id) {
        choose|i: int| is_first_peer(s, id, i)
    } else {
        -1
    }
}

/// At most one record per identifier.
pub open spec fn peers_unique(s: Seq<PeerInfoToSave>) -> bool {
    forall|i: int, j: int| 0 <= i < j < s.len() ==> s[i].peer_id@ != s[j].peer_id@
}

/// `p` with its failure counter set to `n`.
pub open spec fn with_attempts(p: PeerInfoToSave, n: u8) -> PeerInfoToSave {
    PeerInfoToSave { peer_id: p.peer_id, addresses: p.addresses, failed_attempts: n }
}

/// The records of `s` whose identifier differs from `id`, in their order.
pub open spec fn without_peer(s: Seq<PeerInfoToSave>, id: Seq<char>) -> Seq<PeerInfoToSave>
    decreases s.len(),
{
    if s.len() == 0 {
        s
    } else {
        let rest = without_peer(s.drop_last(), id);
        if s.last().peer_id@ == id {
            rest
        } else {
            rest.push(s.last())
        }
    }
}

/// `s` with `p` in place of the record that has its identifier, or `p` appended.
pub open spec fn upserted_peer(s: Seq<PeerInfoToSave>, p: PeerInfoToSave) -> Seq<PeerInfoToSave> {
    let i = peer_index(s, p.peer_id@);
    if i >= 0 {
        s.update(i, p)
    } else {
        s.push(p)
    }
}

/// `s` after one failed connection attempt to `id`: the counter goes up by one,
/// and a peer whose counter reaches the threshold is removed instead.
pub open spec fn after_failure(s: Seq<PeerInfoToSave>, id: Seq<char>) -> Seq<PeerInfoToSave> {
    let i = peer_index(s, id);
    if i < 0 {
        s
    } else if s[i].failed_attempts >= MAX_FAILED_ATTEMPTS - 1 {
        without_peer(s, id)
    } else {
        s.update(i, with_attempts(s[i], (s[i].failed_attempts + 1) as u8))
    }
}

/// `s` after a successful connection to `id`: its counter is back to zero.
pub open spec fn after_success(s: Seq<PeerInfoToSave>, id: Seq<char>) -> Seq<PeerInfoToSave> {
    let i = peer_index(s, id);
    if i < 0 {
        s
    } else {
        s.update(i, with_attempts(s[i], 0))
    }
}

/// `s` after `k` failed connection attempts to `id`.
pub open spec fn after_failures(s: Seq<PeerInfoToSave>, id: Seq<char>, k: nat) -> Seq<PeerInfoToSave>
    decreases k,
{
    if k == 0 {
        s
    } else {
        after_failure(after_failures(s, id, (k - 1) as nat), id)
    }
}

proof fn lemma_first_is_index(s: Seq<PeerInfoToSave>, id: Seq<char>, i: int)
    requires
        is_first_peer(s, id, i),
    ensures
        peer_index(s, id) == i,
{
    assert(has_peer(s, id));
    let k = peer_index(s, id);
    assert(is_first_peer(s, id, k));
    if k < i {
        assert(s[k].peer_id@ != id);
    }
    if i < k {
        assert(s[i].peer_id@ != id);
    }
}

proof fn lemma_first_below(s: Seq<PeerInfoToSave>, id: Seq<char>, w: int)
    requires
        0 <= w < s.len(),
        s[w].peer_id@ == id,
    ensures
        is_first_peer(s, id, peer_index(s, id)),
    decreases w,
{
    if exists|j: int| 0 <= j < w && s[j].peer_id@ == id {
        let j = choose|j: int| 0 <= j < w && s[j].peer_id@ == id;
        lemma_first_below(s, id, j);
    } else {
        lemma_first_is_index(s, id, w);
    }
}

proof fn lemma_index_is_first(s: Seq<PeerInfoToSave>, id: Seq<char>)
    requires
        has_peer(s, id),
    ensures
        is_first_peer(s, id, peer_index(s, id)),
{
    let w = choose|i: int| 0 <= i < s.len() && s[i].peer_id@ == id;
    lemma_first_below(s, id, w);
}

proof fn lemma_without_absent(s: Seq<PeerInfoToSave>, id: Seq<char>)
    ensures
        !has_peer(without_peer(s, id), id),
        forall|k: int| 0 <= k < without_peer(s, id).len() ==>
            exists|j: int| 0 <= j < s.len() && s[j] == #[trigger] without_peer(s, id)[k],
    decreases s.len(),
{
    if s.len() > 0 {
        lemma_without_absent(s.drop_last(), id);
        let rest = without_peer(s.drop_last(), id);
        assert forall|k: int| 0 <= k < without_peer(s, id).len() implies
            exists|j: int| 0 <= j < s.len() && s[j] == #[trigger] without_peer(s, id)[k] by {
            if k < rest.len() {
                let j = choose|j: int| 0 <= j < s.drop_last().len() && s.drop_last()[j] == rest[k];
                assert(s[j] == without_peer(s, id)[k]);
            } else {
                assert(s[s.len() - 1] == without_peer(s, id)[k]);
            }
        }
    }
}

/// Removing a peer keeps the identifiers unique.
proof fn lemma_without_unique(s: Seq<PeerInfoToSave>, id: Seq<char>)
    requires
        peers_unique(s),
    ensures
        peers_unique(without_peer(s, id)),
    decreases s.len(),
{
    if s.len() > 0 {
        let init = s.drop_last();
        lemma_without_unique(init, id);
        lemma_without_absent(init, id);
        let rest = without_peer(init, id);
        if s.last().peer_id@ != id {
            let w = without_peer(s, id);
            assert forall|a: int, b: int| 0 <= a < b < w.len() implies w[a].peer_id@ != w[b].peer_id@ by {
                if b == rest.len() {
                    let j = choose|j: int| 0 <= j < init.len() && init[j] == #[trigger] rest[a];
                    assert(s[j] == w[a]);
                }
            }
        }
    }
}

proof fn lemma_update_keeps_first(s: Seq<PeerInfoToSave>, id: Seq<char>, p: PeerInfoToSave)
    requires
        has_peer(s, id),
        p.peer_id@ == id,
    ensures
        has_peer(s.update(peer_index(s, id), p), id),
        peer_index(s.update(peer_index(s, id), p), id) == peer_index(s, id),
{
    lemma_index_is_first(s, id);
    let i = peer_index(s, id);
    let t = s.update(i, p);
    assert(is_first_peer(t, id, i));
    lemma_first_is_index(t, id, i);
}

/// A known peer that fails again and again is forgotten once its counter reaches
/// the threshold (so after at most that many failures); until then it stays, at
/// the same place, with its counter raised by exactly the number of failures.
pub proof fn lemma_failures_evict(s: Seq<PeerInfoToSave>, id: Seq<char>, k: nat)
    requires
        has_peer(s, id),
    ensures
        ({
            let c = s[peer_index(s, id)].failed_attempts as nat;
            let t = after_failures(s, id, k);
            &&& (k > 0 && c + k >= MAX_FAILED_ATTEMPTS ==> !has_peer(t, id))
            &&& (c + k < MAX_FAILED_ATTEMPTS ==> {
                &&& has_peer(t, id)
                &&& peer_index(t, id) == peer_index(s, id)
                &&& t[peer_index(t, id)].failed_attempts == c + k
            })
        }),
        k >= MAX_FAILED_ATTEMPTS ==> !has_peer(after_failures(s, id, k), id),
    decreases k,
{
    let c = s[peer_index(s, id)].failed_attempts as nat;
    if k > 0 {
        lemma_failures_evict(s, id, (k - 1) as nat);
        let t = after_failures(s, id, (k - 1) as nat);
        if has_peer(t, id) {
            let i = peer_index(t, id);
            lemma_index_is_first(t, id);
            if t[i].failed_attempts >= MAX_FAILED_ATTEMPTS - 1 {
                lemma_without_absent(t, id);
            } else {
                let n = (t[i].failed_attempts + 1) as u8;
                lemma_update_keeps_first(t, id, with_attempts(t[i], n));
            }
        }
    }
}

/// A successful connection brings a known peer's counter back to zero, whatever
/// it was, and keeps the peer where it was.
pub proof fn lemma_success_resets(s: Seq<PeerInfoToSave>, id: Seq<char>)
    requires
        has_peer(s, id),
    ensures
        has_peer(after_success(s, id), id),
        peer_index(after_success(s, id), id) == peer_index(s, id),
        after_success(s, id)[peer_index(s, id)].failed_attempts == 0,
{
    lemma_index_is_first(s, id);
    let i = peer_index(s, id);
    lemma_update_keeps_first(s, id, with_attempts(s[i], 0));
}

/// Position of the first record of `peers` with identifier `id`.
fn find_peer(peers: &Vec<PeerInfoToSave>, id: &String) -> (r: Option<usize>)
    ensures
        match r {
            Some(i) => is_first_peer(peers@, id@, i as int) && peer_index(peers@, id@) == i,
            None => !has_peer(peers@, id@) && peer_index(peers@, id@) == -1,
        },
{
    let mut i: usize = 0;
    while i < peers.len()
        invariant
            i <= peers.len(),
            forall|j: int| 0 <= j < i ==> peers@[j].peer_id@ != id@,
        decreases peers.len() - i,
    {
        if peers[i].peer_id == *id {
            proof {
                lemma_first_is_index(peers@, id@, i as int);
            }
            return Some(i);
        }
        i = i + 1;
    }
    None
}

/// Sets the failure counter of the record at `i` to `n`.
fn set_attempts(peers: &mut Vec<PeerInfoToSave>, i: usize, n: u8)
    requires
        i < old(peers).len(),
    ensures
        final(peers)@ == old(peers)@.update(i as int, with_attempts(old(peers)@[i as int], n)),
{
    let mut p = peers.remove(i);
    p.failed_attempts = n;
    peers.insert(i, p);
    assert(peers@ =~= old(peers)@.update(i as int, with_attempts(old(peers)@[i as int], n)));
}

/// Deletes every record of `peers` whose identifier is `peer_id`.
pub fn remove_peer(peers: &mut Vec<PeerInfoToSave>, peer_id: &str)
    ensures
        final(peers)@ == without_peer(old(peers)@, peer_id@),
        !has_peer(final(peers)@, peer_id@),
        peers_unique(old(peers)@) ==> peers_unique(final(peers)@),
{
    let id = peer_id.to_owned();
    let mut kept: Vec<PeerInfoToSave> = Vec::new();
    let ghost orig = peers@;
    let mut rest: Vec<PeerInfoToSave> = Vec::new();
    std::mem::swap(peers, &mut rest);
    let n = rest.len();
    let mut i: usize = 0;
    while i < n
        invariant
            n == orig.len(),
            i <= n,
            rest@ == orig.subrange(i as int, n as int),
            kept@ == without_peer(orig.subrange(0, i as int), id@),
        decreases n - i,
    {
        let p = rest.remove(0);
        assert(orig.subrange(0, i as int + 1).drop_last() == orig.subrange(0, i as int));
        if p.peer_id != id {
            kept.push(p);
        }
        i = i + 1;
        assert(rest@ == orig.subrange(i as int, n as int));
    }
    assert(orig.subrange(0, n as int) == orig);
    *peers = kept;
    proof {
        lemma_without_absent(orig, id@);
        if peers_unique(orig) {
            lemma_without_unique(orig, id@);
        }
    }
}

/// Replaces the record with `peer`'s identifier by `peer`, or appends `peer`.
pub fn add_or_update_peer(peers: &mut Vec<PeerInfoToSave>, peer: PeerInfoToSave)
    ensures
        final(peers)@ == upserted_peer(old(peers)@, peer),
        peers_unique(old(peers)@) ==> peers_unique(final(peers)@),
{
    match find_peer(peers, &peer.peer_id) {
        Some(i) => {
            let _ = peers.remove(i);
            peers.insert(i, peer);
            assert(peers@ =~= old(peers)@.update(i as int, peer));
        },
        None => {
            peers.push(peer);
        },
    }
}

/// Counts a failed connection attempt to `peer_id`; the peer is removed once
/// its counter reaches the threshold. Unknown identifiers change nothing.
pub fn increment_peer_failed_attempts(peers: &mut Vec<PeerInfoToSave>, peer_id: &str)
    ensures
        final(peers)@ == after_failure(old(peers)@, peer_id@),
        peers_unique(old(peers)@) ==> peers_unique(final(peers)@),
{
    let id = peer_id.to_owned();
    match find_peer(peers, &id) {
        Some(i) => {
            let count = peers[i].failed_attempts;
            if count >= MAX_FAILED_ATTEMPTS - 1 {
                remove_peer(peers, peer_id);
            } else {
                set_attempts(peers, i, count + 1);
            }
        },
        None => {},
    }
}

/// Clears the failure counter of `peer_id` after a successful connection.
/// Unknown identifiers change nothing.
pub fn reset_peer_failed_attempts(peers: &mut Vec<PeerInfoToSave>, peer_id: &str)
    ensures
        final(peers)@ == after_success(old(peers)@, peer_id@),
        peers_unique(old(peers)@) ==> peers_unique(final(peers)@),
{
    let id = peer_id.to_owned();
    match find_peer(peers, &id) {
        Some(i) => set_attempts(peers, i, 0),
        None => {},
    }
}

/// `p` is the record of a newly met peer `id` at `address`: one address, no
/// failure yet.
pub open spec fn is_new_record(p: PeerInfoToSave, id: Seq<char>, address: Seq<char>) -> bool {
    &&& p.peer_id@ == id
    &&& p.addresses@.len() == 1
    &&& p.addresses@[0]@ == address
    &&& p.failed_attempts == 0
}

/// Adds a record for a peer met at `address`, unless the peer is known.
pub fn remember_peer(peers: &mut Vec<PeerInfoToSave>, peer_id: &String, address: &String)
    ensures
        has_peer(old(peers)@, peer_id@) ==> final(peers)@ == old(peers)@,
        !has_peer(old(peers)@, peer_id@) ==> {
            &&& final(peers)@.len() == old(peers)@.len() + 1
            &&& final(peers)@.drop_last() == old(peers)@
            &&& is_new_record(final(peers)@.last(), peer_id@, address@)
        },
        has_peer(final(peers)@, peer_id@),
        peers_unique(old(peers)@) ==> peers_unique(final(peers)@),
{
    if find_peer(peers, peer_id).is_none() {
        let mut addresses: Vec<String> = Vec::new();
        addresses.push(address.clone());
        peers.push(PeerInfoToSave { peer_id: peer_id.clone(), addresses, failed_attempts: 0 });
        assert(peers@.drop_last() =~= old(peers)@);
        assert(peers@[peers@.len() - 1].peer_id@ == peer_id@);
    }
}

} // verus!

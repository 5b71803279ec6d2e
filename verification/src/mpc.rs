//! A threshold commit-reveal ceremony in which several parties contribute
//! shares to a jointly generated random value.

use vstd::prelude::*;
use crate::bytes::{append_be_u32, append_vec, be_bytes_u32, eq32, is_zero32, vec_of32, zeros};
use crate::crypto::{ed25519_accepts, ed25519_verify, sha256, sha256_digest};
use crate::env::Env;
use crate::errors::Error;
use crate::types::Address;

verus! {

/// The stage a ceremony session is in.
#[derive(Clone, Copy, Debug, PartialEq, Eq, Structural)]
pub enum MpcPhase {
    Commit,
    Reveal,
    Aggregated,
}

/// One party's commitment to its share.
#[derive(Clone, Copy, Debug, PartialEq, Eq)]
pub struct MpcCommitment {
    pub party: Address,
    pub commitment: [u8; 32],
    pub public_key: [u8; 32],
}

/// A ceremony session.
#[derive(Clone, Debug, PartialEq, Eq)]
pub struct MpcSession {
    pub id: u32,
    pub threshold: u32,
    pub total_parties: u32,
    pub phase: MpcPhase,
    pub commitments: Vec<MpcCommitment>,
    pub shares: Vec<Vec<u8>>,
    pub revealed_parties: Vec<Address>,
    pub aggregated: [u8; 32],
    pub start_ledger: u32,
}

broadcast use vstd::std_specs::hash::group_hash_axioms;

/// All shares, concatenated in reveal order.
pub open spec fn concat_shares(shares: Seq<Vec<u8>>) -> Seq<u8>
    decreases shares.len(),
{
    if shares.len() == 0 {
        Seq::empty()
    } else {
        concat_shares(shares.drop_last()) + shares.last()@
    }
}

/// The jointly generated value: SHA-256 of the shares followed by the
/// big-endian ledger number the session started at.
pub open spec fn aggregate_spec(shares: Seq<Vec<u8>>, ledger: u32) -> Seq<u8> {
    sha256_digest(concat_shares(shares) + be_bytes_u32(ledger))
}

/// Combines revealed shares into the session's random value.
pub fn mpc_aggregate(shares: &Vec<Vec<u8>>, ledger: u32) -> (r: [u8; 32])
    ensures
        r@ == aggregate_spec(shares@, ledger),
{
    let mut buf: Vec<u8> = Vec::new();
    let mut i: usize = 0;
    while i < shares.len()
        invariant
            0 <= i <= shares@.len(),
            buf@ == concat_shares(shares@.take(i as int)),
        decreases shares@.len() - i,
    {
        append_vec(&mut buf, &shares[i]);
        assert(shares@.take(i + 1).drop_last() =~= shares@.take(i as int));
        i = i + 1;
    }
    assert(shares@.take(shares@.len() as int) =~= shares@);
    append_be_u32(&mut buf, ledger);
    sha256(&buf)
}

/// How many of the first `n` keys are non-zero and validly signed `msg`.
pub open spec fn valid_signatures(msg: Seq<u8>, pks: Seq<[u8; 32]>, sigs: Seq<[u8; 64]>, n: int) -> nat
    decreases n,
{
    if n <= 0 {
        0
    } else {
        let i = n - 1;
        let ok = i < sigs.len() && pks[i]@ != zeros(32) && ed25519_accepts(pks[i]@, msg, sigs[i]@);
        valid_signatures(msg, pks, sigs, n - 1) + if ok { 1nat } else { 0nat }
    }
}

/// Whether at least `threshold` of the non-zero keys validly signed `msg`
/// (key `i` is checked against signature `i`; all-zero keys are skipped).
pub fn verify_threshold_signatures(msg: &Vec<u8>, pks: &Vec<[u8; 32]>, sigs: &Vec<[u8; 64]>, threshold: u32) -> (ok: bool)
    ensures
        ok == (valid_signatures(msg@, pks@, sigs@, pks@.len() as int) >= threshold),
{
    let mut count: u64 = 0;
    let mut i: usize = 0;
    while i < pks.len()
        invariant
            0 <= i <= pks@.len(),
            count == valid_signatures(msg@, pks@, sigs@, i as int),
            count <= i,
        decreases pks@.len() - i,
    {
        if i < sigs.len() && !is_zero32(&pks[i]) && ed25519_verify(&pks[i], msg, &sigs[i]) {
            count = count + 1;
        }
        i = i + 1;
    }
    count >= threshold as u64
}

/// Two sessions hold the same data.
pub open spec fn same_session(a: MpcSession, b: MpcSession) -> bool {
    &&& a.id == b.id
    &&& a.threshold == b.threshold
    &&& a.total_parties == b.total_parties
    &&& a.phase == b.phase
    &&& a.commitments@ == b.commitments@
    &&& a.shares@.len() == b.shares@.len()
    &&& forall|j: int| 0 <= j < a.shares@.len() ==> (#[trigger] a.shares@[j])@ == b.shares@[j]@
    &&& a.revealed_parties@ == b.revealed_parties@
    &&& a.aggregated == b.aggregated
    &&& a.start_ledger == b.start_ledger
}

/// Opens a session needing `threshold` of `total_parties` shares; ids count
/// up from 1.
pub fn mpc_create_session(env: &mut Env, threshold: u32, total_parties: u32) -> (r: Result<u32, Error>)
    ensures
        threshold == 0 || threshold > total_parties ==> r == Err::<u32, Error>(Error::MpcInvalidThreshold) && *final(env) == *old(env),
        0 < threshold <= total_parties && old(env).mpc_next_id == u32::MAX ==>
            r == Err::<u32, Error>(Error::MpcSessionLimitReached) && *final(env) == *old(env),
        0 < threshold <= total_parties && old(env).mpc_next_id < u32::MAX ==> {
            let id = old(env).mpc_next_id;
            let s = final(env).mpc_sessions@[id];
            &&& r == Ok::<u32, Error>(id)
            &&& final(env).mpc_next_id == id + 1
            &&& final(env).mpc_sessions@ == old(env).mpc_sessions@.insert(id, s)
            &&& s.id == id
            &&& s.threshold == threshold
            &&& s.total_parties == total_parties
            &&& s.phase == MpcPhase::Commit
            &&& s.commitments@.len() == 0
            &&& s.shares@.len() == 0
            &&& s.revealed_parties@.len() == 0
            &&& s.aggregated@ == zeros(32)
            &&& s.start_ledger == old(env).sequence
            &&& final(env).sequence == old(env).sequence
            &&& final(env).next_address == old(env).next_address
        },
{
    if threshold == 0 || threshold > total_parties {
        return Err(Error::MpcInvalidThreshold);
    }
    if env.mpc_next_id == u32::MAX {
        return Err(Error::MpcSessionLimitReached);
    }
    let id = env.mpc_next_id;
    let session = MpcSession {
        id,
        threshold,
        total_parties,
        phase: MpcPhase::Commit,
        commitments: Vec::new(),
        shares: Vec::new(),
        revealed_parties: Vec::new(),
        aggregated: [0u8; 32],
        start_ledger: env.sequence,
    };
    assert(session.aggregated@ =~= zeros(32));
    env.mpc_sessions.insert(id, session);
    env.mpc_next_id = id + 1;
    Ok(id)
}

/// Whether a party has committed in a session.
pub open spec fn has_committed(s: MpcSession, party: Address) -> bool {
    exists|i: int| 0 <= i < s.commitments@.len() && (#[trigger] s.commitments@[i]).party == party
}

fn find_commitment(s: &MpcSession, party: Address) -> (r: Option<usize>)
    ensures
        r matches Some(i) ==> i < s.commitments@.len() && s.commitments@[i as int].party == party,
        r is None <==> !has_committed(*s, party),
{
    let mut i: usize = 0;
    while i < s.commitments.len()
        invariant
            0 <= i <= s.commitments@.len(),
            forall|j: int| 0 <= j < i ==> s.commitments@[j].party != party,
        decreases s.commitments@.len() - i,
    {
        if s.commitments[i].party == party {
            return Some(i);
        }
        i = i + 1;
    }
    None
}

/// The first guard `mpc_submit_commitment` fails, if any.
pub open spec fn submit_error(env: &Env, id: u32, party: Address, commitment: [u8; 32], pk: [u8; 32], sig: [u8; 64]) -> Option<Error> {
    let s = env.mpc_sessions@[id];
    if !env.mpc_sessions@.contains_key(id) {
        Some(Error::MpcSessionNotFound)
    } else if s.phase != MpcPhase::Commit || s.commitments@.len() >= s.total_parties {
        Some(Error::MpcWrongPhase)
    } else if has_committed(s, party) {
        Some(Error::MpcDuplicateParty)
    } else if pk@ != zeros(32) && !ed25519_accepts(pk@, commitment@, sig@) {
        Some(Error::MpcInvalidSignature)
    } else {
        None
    }
}

/// Records a party's commitment to its share, signed by the party's key
/// (an all-zero key skips the signature check).  The session moves to the
/// reveal phase once every party has committed.
pub fn mpc_submit_commitment(env: &mut Env, id: u32, party: Address, commitment: [u8; 32], pk: [u8; 32], sig: [u8; 64]) -> (r: Result<(), Error>)
    ensures
        match submit_error(old(env), id, party, commitment, pk, sig) {
            Some(e) => r == Err::<(), Error>(e) && *final(env) == *old(env),
            None => {
                let s = old(env).mpc_sessions@[id];
                let t = final(env).mpc_sessions@[id];
                let commitments = s.commitments@.push(MpcCommitment { party, commitment, public_key: pk });
                &&& r is Ok
                &&& final(env).mpc_sessions@ == old(env).mpc_sessions@.insert(id, t)
                &&& t.commitments@ == commitments
                &&& t.phase == (if commitments.len() == s.total_parties { MpcPhase::Reveal } else { MpcPhase::Commit })
                &&& t.id == s.id && t.threshold == s.threshold && t.total_parties == s.total_parties
                &&& t.shares@ == s.shares@ && t.revealed_parties@ == s.revealed_parties@
                &&& t.aggregated == s.aggregated && t.start_ledger == s.start_ledger
                &&& final(env).sequence == old(env).sequence
                &&& final(env).next_address == old(env).next_address
                &&& final(env).mpc_next_id == old(env).mpc_next_id
            },
        },
{
    let s = match env.mpc_sessions.get(&id) {
        Some(s) => s,
        None => return Err(Error::MpcSessionNotFound),
    };
    if s.phase != MpcPhase::Commit || s.commitments.len() >= s.total_parties as usize {
        return Err(Error::MpcWrongPhase);
    }
    if find_commitment(s, party).is_some() {
        return Err(Error::MpcDuplicateParty);
    }
    if !is_zero32(&pk) && !ed25519_verify(&pk, &vec_of32(&commitment), &sig) {
        return Err(Error::MpcInvalidSignature);
    }
    let mut s = match env.mpc_sessions.remove(&id) {
        Some(s) => s,
        None => return Err(Error::MpcSessionNotFound),
    };
    s.commitments.push(MpcCommitment { party, commitment, public_key: pk });
    if s.commitments.len() == s.total_parties as usize {
        s.phase = MpcPhase::Reveal;
    }
    env.mpc_sessions.insert(id, s);
    assert(final(env).mpc_sessions@ =~= old(env).mpc_sessions@.insert(id, final(env).mpc_sessions@[id]));
    Ok(())
}

/// The first guard `mpc_reveal_share` fails, if any.
pub open spec fn reveal_share_error(env: &Env, id: u32, party: Address, share: Seq<u8>) -> Option<Error> {
    let s = env.mpc_sessions@[id];
    if !env.mpc_sessions@.contains_key(id) {
        Some(Error::MpcSessionNotFound)
    } else if s.phase != MpcPhase::Reveal {
        Some(Error::MpcWrongPhase)
    } else if !has_committed(s, party) {
        Some(Error::MpcUnknownParty)
    } else if s.revealed_parties@.contains(party) {
        Some(Error::MpcAlreadyRevealed)
    } else if !exists|i: int| 0 <= i < s.commitments@.len() && (#[trigger] s.commitments@[i]).party == party
        && s.commitments@[i].commitment@ == sha256_digest(share) {
        Some(Error::MpcShareMismatch)
    } else {
        None
    }
}

/// Reveals a committed party's share; it must hash to the party's
/// commitment.  Once `threshold` shares are in, the session aggregates them
/// into its random value.
pub fn mpc_reveal_share(env: &mut Env, id: u32, party: Address, share: Vec<u8>) -> (r: Result<(), Error>)
    ensures
        match reveal_share_error(old(env), id, party, share@) {
            Some(e) => r == Err::<(), Error>(e) && *final(env) == *old(env),
            None => {
                let s = old(env).mpc_sessions@[id];
                let t = final(env).mpc_sessions@[id];
                let shares = s.shares@.push(share);
                let done = shares.len() >= s.threshold;
                &&& r is Ok
                &&& final(env).mpc_sessions@ == old(env).mpc_sessions@.insert(id, t)
                &&& t.shares@.len() == shares.len()
                &&& t.shares@.drop_last() == s.shares@
                &&& t.shares@.last()@ == share@
                &&& t.revealed_parties@ == s.revealed_parties@.push(party)
                &&& t.phase == (if done { MpcPhase::Aggregated } else { MpcPhase::Reveal })
                &&& done ==> t.aggregated@ == aggregate_spec(t.shares@, s.start_ledger)
                &&& !done ==> t.aggregated == s.aggregated
                &&& t.id == s.id && t.threshold == s.threshold && t.total_parties == s.total_parties
                &&& t.commitments@ == s.commitments@ && t.start_ledger == s.start_ledger
                &&& final(env).sequence == old(env).sequence
                &&& final(env).next_address == old(env).next_address
                &&& final(env).mpc_next_id == old(env).mpc_next_id
            },
        },
{
    let s = match env.mpc_sessions.get(&id) {
        Some(s) => s,
        None => return Err(Error::MpcSessionNotFound),
    };
    if s.phase != MpcPhase::Reveal {
        return Err(Error::MpcWrongPhase);
    }
    if find_commitment(s, party).is_none() {
        return Err(Error::MpcUnknownParty);
    }
    if contains_party(&s.revealed_parties, party) {
        return Err(Error::MpcAlreadyRevealed);
    }
    let digest = sha256(&share);
    if !share_matches(s, party, &digest) {
        return Err(Error::MpcShareMismatch);
    }
    let mut s = match env.mpc_sessions.remove(&id) {
        Some(s) => s,
        None => return Err(Error::MpcSessionNotFound),
    };
    let ghost before = s.shares@;
    s.shares.push(share);
    s.revealed_parties.push(party);
    if s.shares.len() >= s.threshold as usize {
        s.aggregated = mpc_aggregate(&s.shares, s.start_ledger);
        s.phase = MpcPhase::Aggregated;
    }
    assert(s.shares@.drop_last() =~= before);
    env.mpc_sessions.insert(id, s);
    assert(final(env).mpc_sessions@ =~= old(env).mpc_sessions@.insert(id, final(env).mpc_sessions@[id]));
    Ok(())
}

fn share_matches(s: &MpcSession, party: Address, digest: &[u8; 32]) -> (r: bool)
    ensures
        r == exists|i: int| 0 <= i < s.commitments@.len() && (#[trigger] s.commitments@[i]).party == party
            && s.commitments@[i].commitment@ == digest@,
{
    let mut i: usize = 0;
    while i < s.commitments.len()
        invariant
            0 <= i <= s.commitments@.len(),
            forall|j: int| 0 <= j < i ==> !((#[trigger] s.commitments@[j]).party == party
                && s.commitments@[j].commitment@ == digest@),
        decreases s.commitments@.len() - i,
    {
        if s.commitments[i].party == party && eq32(&s.commitments[i].commitment, digest) {
            return true;
        }
        i = i + 1;
    }
    false
}

fn contains_party(v: &Vec<Address>, a: Address) -> (r: bool)
    ensures
        r == v@.contains(a),
{
    let mut i: usize = 0;
    while i < v.len()
        invariant
            0 <= i <= v@.len(),
            forall|j: int| 0 <= j < i ==> v@[j] != a,
        decreases v@.len() - i,
    {
        if v[i] == a {
            return true;
        }
        i = i + 1;
    }
    false
}

/// A copy of a session as stored.
pub fn mpc_get_session(env: &Env, id: u32) -> (r: Option<MpcSession>)
    ensures
        !env.mpc_sessions@.contains_key(id) ==> r is None,
        env.mpc_sessions@.contains_key(id) ==> (r matches Some(s) && same_session(s, env.mpc_sessions@[id])),
{
    match env.mpc_sessions.get(&id) {
        Some(s) => Some(copy_session(s)),
        None => None,
    }
}

fn copy_session(s: &MpcSession) -> (c: MpcSession)
    ensures
        same_session(c, *s),
{
    let mut commitments: Vec<MpcCommitment> = Vec::new();
    let mut i: usize = 0;
    while i < s.commitments.len()
        invariant
            0 <= i <= s.commitments@.len(),
            commitments@ == s.commitments@.take(i as int),
        decreases s.commitments@.len() - i,
    {
        commitments.push(s.commitments[i]);
        i = i + 1;
        assert(commitments@ =~= s.commitments@.take(i as int));
    }
    assert(s.commitments@.take(s.commitments@.len() as int) =~= s.commitments@);
    let mut shares: Vec<Vec<u8>> = Vec::new();
    let mut k: usize = 0;
    while k < s.shares.len()
        invariant
            0 <= k <= s.shares@.len(),
            shares@.len() == k,
            forall|j: int| 0 <= j < k ==> (#[trigger] shares@[j])@ == s.shares@[j]@,
        decreases s.shares@.len() - k,
    {
        shares.push(crate::bytes::copy_vec(&s.shares[k]));
        k = k + 1;
    }
    let mut parties: Vec<Address> = Vec::new();
    let mut m: usize = 0;
    while m < s.revealed_parties.len()
        invariant
            0 <= m <= s.revealed_parties@.len(),
            parties@ == s.revealed_parties@.take(m as int),
        decreases s.revealed_parties@.len() - m,
    {
        parties.push(s.revealed_parties[m]);
        m = m + 1;
        assert(parties@ =~= s.revealed_parties@.take(m as int));
    }
    assert(s.revealed_parties@.take(s.revealed_parties@.len() as int) =~= s.revealed_parties@);
    MpcSession {
        id: s.id,
        threshold: s.threshold,
        total_parties: s.total_parties,
        phase: s.phase,
        commitments,
        shares,
        revealed_parties: parties,
        aggregated: s.aggregated,
        start_ledger: s.start_ledger,
    }
}

} // verus!

//! The custody auditor: which contracts a verifier audits in a cycle, how it
//! judges a custodian's response, and what it records afterwards.

use vstd::prelude::*;
use crate::p2p::peer_id::{configured, local_peer};
use crate::por::codec::{ClientSecret, VerificationClient, VerificationClientConfig};
use crate::util::consts::{AUDIT_PENALTY, AUDIT_REWARD, NUM_PEERS};
use crate::util::errors::ErrorKind;
use crate::util::ids::{file_position, uuid_position};
use crate::util::types::{Contract, Peer, VerificationClaim, VerificationClaimView};

verus! {

/// The width of one slab of the space of file identifiers.
pub const SLAB: u128 = u128::MAX / NUM_PEERS;

/// A change of a peer's reputation that the ledger is asked to make.
#[derive(Debug)]
pub struct ReputationUpdate {
    pub peer: Peer,
    /// The amount that is added to the reputation; negative for a penalty.
    pub amount: i64,
}

/// The part of the auditor's state that decides which contracts it audits.
pub struct Shard {
    pub iteration: u128,
    pub starting_uuid: u128,
    pub ending_uuid: u128,
}

impl Shard {
    /// The shard of a verifier that has just started: the first slab.
    pub open spec fn first() -> Shard {
        Shard { iteration: 1, starting_uuid: 0, ending_uuid: SLAB }
    }

    /// The window never starts past the slabs that the iterations so far
    /// have covered, so it can always be moved on by one slab.
    pub open spec fn wf(self) -> bool {
        &&& self.iteration <= NUM_PEERS
        &&& self.iteration == 0 ==> self.starting_uuid == 0
        &&& self.iteration == 1 ==> self.starting_uuid <= SLAB
        &&& self.iteration == 2 ==> self.starting_uuid <= 2 * SLAB
    }

    /// The shard of the next cycle: the window moves on by one slab; in the
    /// last iteration before the wrap it reaches to the end of the space,
    /// and after `NUM_PEERS + 1` iterations it is back on the first slab.
    pub open spec fn advanced(self) -> Shard {
        let iteration = (self.iteration + 1) as u128;
        if iteration == NUM_PEERS + 1 {
            Shard { iteration: 0, starting_uuid: 0, ending_uuid: SLAB }
        } else if iteration == NUM_PEERS {
            Shard {
                iteration,
                starting_uuid: (self.starting_uuid + SLAB) as u128,
                ending_uuid: u128::MAX,
            }
        } else {
            Shard {
                iteration,
                starting_uuid: (self.starting_uuid + SLAB) as u128,
                ending_uuid: (self.starting_uuid + SLAB + SLAB) as u128,
            }
        }
    }

    /// Whether a file identifier falls inside the window, ends included.
    pub open spec fn holds(self, position: u128) -> bool {
        self.starting_uuid <= position <= self.ending_uuid
    }
}

/// The most recent claim that another verifier than `me` made is the one at
/// `k`: none by another verifier is later, and none before `k` is as late.
pub open spec fn is_latest_by_other(
    claims: Seq<VerificationClaimView>,
    me: Seq<char>,
    k: int,
) -> bool {
    &&& 0 <= k < claims.len()
    &&& claims[k].verified_by_id != me
    &&& forall|j: int|
        0 <= j < claims.len() && claims[j].verified_by_id != me
            ==> claims[j].verification_time <= claims[k].verification_time
    &&& forall|j: int|
        0 <= j < k && claims[j].verified_by_id != me ==> claims[j].verification_time
            < claims[k].verification_time
}

/// What the claims hold.
pub open spec fn claims_view(claims: Seq<VerificationClaim>) -> Seq<VerificationClaimView> {
    Seq::new(claims.len(), |k: int| claims[k]@)
}

/// The custody auditor of one verifier.
pub struct Verifier {
    iteration: u128,
    starting_uuid: u128,
    ending_uuid: u128,
    peer_id: Peer,
    corrupt: bool,
}

impl Verifier {
    /// The part of the state that decides which contracts are audited.
    pub closed spec fn shard(&self) -> Shard {
        Shard {
            iteration: self.iteration,
            starting_uuid: self.starting_uuid,
            ending_uuid: self.ending_uuid,
        }
    }

    /// The verifier's own identity.
    pub closed spec fn me(&self) -> Seq<char> {
        self.peer_id@
    }

    /// Whether the verifier records the opposite of what it found.
    pub closed spec fn is_corrupt(&self) -> bool {
        self.corrupt
    }

    /// A verifier at the start of its first cycle.
    pub fn new(peer_id: Peer, corrupt: bool) -> (verifier: Verifier)
        ensures
            verifier.shard() == Shard::first(),
            verifier.shard().wf(),
            verifier.me() == peer_id@,
            verifier.is_corrupt() == corrupt,
    {
        Verifier { iteration: 1, starting_uuid: 0, ending_uuid: SLAB, peer_id, corrupt }
    }

    /// The number of the current iteration.
    pub fn iteration(&self) -> (i: u128)
        ensures
            i == self.shard().iteration,
    {
        self.iteration
    }

    /// The window of file identifiers of the current cycle, ends included.
    pub fn window(&self) -> (w: (u128, u128))
        ensures
            w.0 == self.shard().starting_uuid,
            w.1 == self.shard().ending_uuid,
    {
        (self.starting_uuid, self.ending_uuid)
    }

    /// The verifier's own identity.
    pub fn peer_id(&self) -> (peer: Peer)
        ensures
            peer@ == self.me(),
    {
        self.peer_id.clone()
    }

    /// Whether a contract is audited in the current cycle: whether the
    /// number of its file identifier falls inside the window. An identifier
    /// that is no UUID counts as zero.
    pub fn selects(&self, contract: &Contract) -> (audited: bool)
        ensures
            audited == self.shard().holds(uuid_position(contract@.file_uuid)),
    {
        let uuid_uint = file_position(contract.file_uuid.as_str());
        !(uuid_uint < self.starting_uuid || uuid_uint > self.ending_uuid)
    }

    /// The outcome of an audit. A response passes when the contract's secret
    /// accepts it for the challenge; no response at all fails.
    pub fn judge(
        &self,
        client: &VerificationClient,
        challenge: Vec<u64>,
        response: Option<Vec<u64>>,
    ) -> (succeeded: bool)
        requires
            response matches Some(r) ==> client.config@.auditable(challenge@, r@),
        ensures
            succeeded == match response {
                Some(r) => client.config@.accepts(challenge@, r@),
                None => false,
            },
    {
        match response {
            Some(r) => client.audit(challenge, r),
            None => false,
        }
    }

    /// What the ledger is asked after a failed audit: to take
    /// `AUDIT_PENALTY` from the custodian's reputation.
    pub fn punish_peer(&self, peer_id: Peer) -> (update: ReputationUpdate)
        ensures
            update.peer@ == peer_id@,
            update.amount == -AUDIT_PENALTY,
    {
        ReputationUpdate { peer: peer_id, amount: -AUDIT_PENALTY }
    }

    /// What the ledger is asked after a passed audit: to credit
    /// `AUDIT_REWARD` to the custodian's reputation.
    pub fn reward_peer(&self, peer_id: Peer) -> (update: ReputationUpdate)
        ensures
            update.peer@ == peer_id@,
            update.amount == AUDIT_REWARD,
    {
        ReputationUpdate { peer: peer_id, amount: AUDIT_REWARD }
    }

    /// What the ledger is asked after an audit of a contract.
    pub fn settle(&self, contract: &Contract, succeeded: bool) -> (update: ReputationUpdate)
        ensures
            update.peer@ == contract@.peer_id,
            update.amount == if succeeded {
                AUDIT_REWARD as int
            } else {
                -AUDIT_PENALTY
            },
    {
        if succeeded {
            self.reward_peer(contract.peer_id.clone())
        } else {
            self.punish_peer(contract.peer_id.clone())
        }
    }

    /// The outcome that the verifier records for an audit: what it found,
    /// or the opposite if the verifier is corrupt.
    pub fn recorded_outcome(&self, succeeded: bool) -> (recorded: bool)
        ensures
            recorded == (succeeded != self.is_corrupt()),
    {
        if !self.corrupt {
            succeeded
        } else {
            !succeeded
        }
    }

    /// The most recent claim that another verifier made, by its place among
    /// the claims. Of several that are equally recent the first counts.
    pub fn latest_by_other(&self, previous: &Vec<VerificationClaim>) -> (r: Option<usize>)
        ensures
            match r {
                Some(k) => is_latest_by_other(claims_view(previous@), self.me(), k as int),
                None => forall|j: int|
                    0 <= j < previous@.len() ==> claims_view(previous@)[j].verified_by_id
                        == self.me(),
            },
    {
        let mut best: Option<usize> = None;
        let mut j: usize = 0;
        while j < previous.len()
            invariant
                j <= previous@.len(),
                match best {
                    Some(k) => k < j && is_latest_by_other(
                        claims_view(previous@).subrange(0, j as int),
                        self.me(),
                        k as int,
                    ),
                    None => forall|t: int|
                        0 <= t < j ==> claims_view(previous@)[t].verified_by_id == self.me(),
                },
            decreases previous@.len() - j,
        {
            let ghost before = claims_view(previous@).subrange(0, j as int);
            let ghost after = claims_view(previous@).subrange(0, j + 1);
            assert(forall|t: int| 0 <= t < j ==> before[t] == after[t]);
            assert(after[j as int] == previous@[j as int]@);
            if !previous[j].verified_by_id.same(&self.peer_id) {
                match best {
                    Some(k) => {
                        if previous[j].verification_time > previous[k].verification_time {
                            best = Some(j);
                        }
                    },
                    None => {
                        best = Some(j);
                    },
                }
            }
            j = j + 1;
        }
        assert(claims_view(previous@).subrange(0, j as int) =~= claims_view(previous@));
        best
    }

    /// How long ago, in milliseconds, a claim was made. A claim from after
    /// `now_ms` gives `SystemTimeError`.
    pub fn elapsed_since(now_ms: u64, verification_time: i64) -> (r: Result<u128, ErrorKind>)
        ensures
            match r {
                Ok(elapsed) => elapsed == now_ms - verification_time,
                Err(e) => now_ms < verification_time && e is SystemTimeError,
            },
    {
        let delta: i128 = now_ms as i128 - verification_time as i128;
        if delta < 0 {
            Err(ErrorKind::SystemTimeError)
        } else {
            Ok(delta as u128)
        }
    }

    /// Compares the outcome of an audit with the most recent claim of
    /// another verifier. Gives the age of that claim in milliseconds if it
    /// disagrees with the outcome, and nothing if it agrees or if no other
    /// verifier has made a claim. A claim from after `now_ms` gives
    /// `SystemTimeError`, whether it agrees or not.
    pub fn caught_cheating(
        &self,
        succeeded: bool,
        previous: &Vec<VerificationClaim>,
        now_ms: u64,
    ) -> (r: Result<Option<u128>, ErrorKind>)
        ensures
            match r {
                Ok(Some(elapsed)) => exists|k: int|
                    is_latest_by_other(claims_view(previous@), self.me(), k) && claims_view(
                        previous@,
                    )[k].succeeded != succeeded && elapsed == now_ms - claims_view(
                        previous@,
                    )[k].verification_time,
                Ok(None) => forall|k: int|
                    is_latest_by_other(claims_view(previous@), self.me(), k) ==> claims_view(
                        previous@,
                    )[k].succeeded == succeeded && claims_view(previous@)[k].verification_time
                        <= now_ms,
                Err(e) => e is SystemTimeError && exists|k: int|
                    is_latest_by_other(claims_view(previous@), self.me(), k) && claims_view(
                        previous@,
                    )[k].verification_time > now_ms,
            },
    {
        match self.latest_by_other(previous) {
            None => Ok(None),
            Some(k) => {
                proof {
                    lemma_latest_unique(claims_view(previous@), self.me(), k as int);
                }
                let last = &previous[k];
                match Verifier::elapsed_since(now_ms, last.verification_time) {
                    Err(e) => Err(e),
                    Ok(elapsed) => {
                        if succeeded != last.succeeded {
                            Ok(Some(elapsed))
                        } else {
                            Ok(None)
                        }
                    },
                }
            },
        }
    }

    /// Moves the window on to the next cycle.
    pub fn next_iteration(&mut self)
        requires
            old(self).shard().wf(),
        ensures
            final(self).shard() == old(self).shard().advanced(),
            final(self).shard().wf(),
            final(self).me() == old(self).me(),
            final(self).is_corrupt() == old(self).is_corrupt(),
    {
        self.iteration = self.iteration + 1;
        if self.iteration == NUM_PEERS + 1 {
            self.iteration = 0;
            self.starting_uuid = 0;
            self.ending_uuid = self.starting_uuid + SLAB;
        } else if self.iteration == NUM_PEERS {
            self.starting_uuid = self.starting_uuid + SLAB;
            self.ending_uuid = u128::MAX;
        } else {
            self.starting_uuid = self.starting_uuid + SLAB;
            self.ending_uuid = self.starting_uuid + SLAB;
        }
    }
}

/// From the first slab the window comes back to the first slab after
/// `NUM_PEERS + 1` cycles, having covered the whole space on the way.
pub proof fn law_window_wraps()
    ensures
        ({
            let start = Shard { iteration: 0, starting_uuid: 0, ending_uuid: SLAB };
            let second = start.advanced();
            let third = second.advanced();
            let fourth = third.advanced();
            &&& start.wf() && second.wf() && third.wf() && fourth.wf()
            &&& second.starting_uuid == start.ending_uuid
            &&& third.starting_uuid == second.ending_uuid
            &&& third.ending_uuid == u128::MAX
            &&& fourth.advanced() == start
            &&& Shard::first().advanced().advanced().advanced() == start
        }),
{
}

/// At most one claim is the most recent claim of another verifier.
pub proof fn lemma_latest_unique(claims: Seq<VerificationClaimView>, me: Seq<char>, k: int)
    requires
        is_latest_by_other(claims, me, k),
    ensures
        forall|j: int| is_latest_by_other(claims, me, j) ==> j == k,
{
}

/// The audit that a verifier makes of a contract: the client that holds the
/// contract's secret, and the challenge that it sends to the custodian.
pub fn open_audit(contract: &Contract) -> (audit: (VerificationClient, Vec<u64>))
    ensures
        audit.0.config@ == ClientSecret::of_fields(
            contract@.secret_n,
            contract@.secret_m,
            contract@.rows,
            contract@.cols,
        ),
        audit.1@ == audit.0.config@.challenge(),
{
    let client = VerificationClient::new(VerificationClientConfig::from_contract(contract));
    let challenge = client.make_challenge_vector();
    (client, challenge)
}

/// Builds the auditor from the configuration.
pub struct VerifierProvider;

impl VerifierProvider {
    /// The auditor of the peer whose keypair the configuration holds. A
    /// configuration without a keypair is refused.
    pub fn invoke(&mut self, keypair: Option<String>, corrupt: bool) -> (r: Result<
        Verifier,
        ErrorKind,
    >)
        ensures
            match r {
                Ok(verifier) => keypair matches Some(encoded) && configured(encoded@) matches Ok(
                    found,
                ) && verifier.me() == found.1 && verifier.shard() == Shard::first()
                    && verifier.shard().wf() && verifier.is_corrupt() == corrupt,
                Err(e) => match keypair {
                    Some(encoded) => configured(encoded@) == Err::<
                        (Seq<u8>, Seq<char>),
                        ErrorKind,
                    >(e),
                    None => e matches ErrorKind::Generic(text) && text@
                        == "verifier requires a peer id in the config"@,
                },
            },
    {
        match keypair {
            Some(encoded) => match local_peer(encoded.as_str()) {
                Ok(peer) => Ok(Verifier::new(peer, corrupt)),
                Err(e) => Err(e),
            },
            None => Err(
                ErrorKind::Generic("verifier requires a peer id in the config".to_string()),
            ),
        }
    }
}

} // verus!

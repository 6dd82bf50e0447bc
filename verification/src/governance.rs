use vstd::prelude::*;
use crate::point::BlockHash;
use crate::pparams::PParamsSet;
use crate::proposals::{
    action_fits, action_purpose, action_recordable, records_action, parse_gov_action, pre_conway_fits, pre_conway_params, pre_conway_to_pparamset,
    Anchor, ChainError, Credential, GovAction, GovActionId, GovPurpose, PreConwayUpdate,
    ProposalAction,
};

verus! {

/// Who casts a vote on a governance action.
#[derive(Debug, Clone, Copy, PartialEq, Eq)]
pub enum Voter {
    ConstitutionalCommitteeKey([u8; 28]),
    ConstitutionalCommitteeScript([u8; 28]),
    DRepKey([u8; 28]),
    DRepScript([u8; 28]),
    StakePoolKey([u8; 28]),
}

/// A vote on a governance action.
#[derive(Debug, Clone, Copy, PartialEq, Eq, Structural)]
pub enum Vote {
    No,
    Yes,
    Abstain,
}

/// A vote a transaction casts, with the slot of its block.
#[derive(Debug, Clone, Copy, PartialEq, Eq)]
pub struct VoteCast {
    pub transaction_id: BlockHash,
    pub action_index: u32,
    pub voter: Voter,
    pub vote: Vote,
    pub slot: u64,
}

/// A proposal as a node records it.
#[derive(Debug, PartialEq)]
pub struct NewProposal {
    pub slot: u64,
    pub transaction: BlockHash,
    pub index: u32,
    pub action: ProposalAction,
    pub deposit: Option<u64>,
    pub reward_account: Option<Credential>,
    pub validity_period: Option<u64>,
    pub epoch: u64,
    pub network_magic: u32,
    pub protocol: u16,
    pub parent: Option<GovActionId>,
    pub purpose: Option<GovPurpose>,
    pub anchor: Option<Anchor>,
}

/// A change to the governance state a block makes.
#[derive(Debug, PartialEq)]
pub enum GovernanceDelta {
    NewProposal(NewProposal),
    VoteCast(VoteCast),
}

/// The changes a block makes, in the order they apply.
#[derive(Debug)]
pub struct WorkDeltas {
    pub entries: Vec<GovernanceDelta>,
}

/// The votes a transaction casts, by voter, and whether it is valid.
pub struct TxVotes {
    pub is_valid: bool,
    pub hash: BlockHash,
    pub voting_procedures: Option<Vec<(Voter, Vec<(GovActionId, Vote)>)>>,
}

/// A proposal procedure: the action, the reward account of its deposit,
/// read as the stake credential it names where it names one, the deposit
/// and the anchor.
pub struct ProposalProcedure {
    pub gov_action: GovAction,
    pub reward_account: Option<Credential>,
    pub deposit: u64,
    pub anchor: Anchor,
}

/// What a block's governance reading carries from its root to its end: the
/// validity period of proposals, the epoch, the network and the protocol
/// version, and the votes its transactions cast, held until the block ends.
pub struct ProposalVisitor {
    pub validity_period: Option<u64>,
    pub current_epoch: Option<u64>,
    pub network_magic: Option<u32>,
    pub protocol: Option<u16>,
    pub pending_votes: Vec<VoteCast>,
}

/// The votes a transaction casts, in the order its procedures list them.
pub open spec fn votes_of(procedures: Seq<(Voter, Vec<(GovActionId, Vote)>)>, slot: u64) -> Seq<
    VoteCast,
>
    decreases procedures.len(),
{
    if procedures.len() == 0 {
        Seq::empty()
    } else {
        votes_of(procedures.drop_last(), slot) + procedures.last().1@.map_values(
            |v: (GovActionId, Vote)|
                VoteCast {
                    transaction_id: v.0.transaction_id,
                    action_index: v.0.action_index,
                    voter: procedures.last().0,
                    vote: v.1,
                    slot,
                },
        )
    }
}

/// The votes a transaction contributes: none for an invalid one.
pub open spec fn tx_votes(tx: TxVotes, slot: u64) -> Seq<VoteCast> {
    if !tx.is_valid {
        Seq::empty()
    } else {
        match tx.voting_procedures {
            Some(p) => votes_of(p@, slot),
            None => Seq::empty(),
        }
    }
}

/// A voter's votes are cast one for each action it votes on, in the order
/// it lists them, each naming that action, that voter, the vote it gives
/// and the slot of the block; a transaction that failed its scripts casts
/// no vote at all.
pub proof fn lemma_votes_cast_as_their_procedures_say(
    voter: Voter,
    votes: Vec<(GovActionId, Vote)>,
    slot: u64,
    tx: TxVotes,
)
    ensures
        votes_of(seq![(voter, votes)], slot).len() == votes@.len(),
        forall|j: int|
            0 <= j < votes@.len() ==> {
                let cast = #[trigger] votes_of(seq![(voter, votes)], slot)[j];
                &&& cast.transaction_id == votes@[j].0.transaction_id
                &&& cast.action_index == votes@[j].0.action_index
                &&& cast.voter == voter
                &&& cast.vote == votes@[j].1
                &&& cast.slot == slot
            },
        !tx.is_valid ==> tx_votes(tx, slot).len() == 0,
{
    let ps = seq![(voter, votes)];
    assert(ps.drop_last() =~= Seq::<(Voter, Vec<(GovActionId, Vote)>)>::empty());
    assert(votes_of(ps.drop_last(), slot) =~= Seq::<VoteCast>::empty());
    assert(votes_of(ps, slot) =~= votes@.map_values(
        |v: (GovActionId, Vote)|
            VoteCast {
                transaction_id: v.0.transaction_id,
                action_index: v.0.action_index,
                voter: voter,
                vote: v.1,
                slot,
            },
    ));
}

impl ProposalVisitor {
    /// A reading that has not seen a block root.
    pub fn new() -> (r: ProposalVisitor)
        ensures
            r.validity_period is None,
            r.current_epoch is None,
            r.network_magic is None,
            r.protocol is None,
            r.pending_votes@.len() == 0,
    {
        ProposalVisitor {
            validity_period: None,
            current_epoch: None,
            network_magic: None,
            protocol: None,
            pending_votes: Vec::new(),
        }
    }

    /// Whether the reading has seen the root of its block.
    pub open spec fn rooted(&self) -> bool {
        &&& self.current_epoch is Some
        &&& self.network_magic is Some
        &&& self.protocol is Some
    }

    /// Takes what every proposal of the block shares from the block's root.
    pub fn visit_root(&mut self, pparams: &PParamsSet, network_magic: u32, epoch: u64, protocol: u16)
        ensures
            final(self).validity_period == pparams@.governance_action_validity_period,
            final(self).current_epoch == Some(epoch),
            final(self).network_magic == Some(network_magic),
            final(self).protocol == Some(protocol),
            final(self).pending_votes@ == old(self).pending_votes@,
    {
        self.validity_period = pparams.governance_action_validity_period();
        self.current_epoch = Some(epoch);
        self.network_magic = Some(network_magic);
        self.protocol = Some(protocol);
    }

    /// Holds the votes a transaction casts until the block ends; a
    /// transaction that failed its scripts casts none.
    pub fn visit_tx(&mut self, tx: &TxVotes, slot: u64)
        ensures
            final(self).pending_votes@ == old(self).pending_votes@ + tx_votes(*tx, slot),
            final(self).validity_period == old(self).validity_period,
            final(self).current_epoch == old(self).current_epoch,
            final(self).network_magic == old(self).network_magic,
            final(self).protocol == old(self).protocol,
    {
        if !tx.is_valid {
            assert(self.pending_votes@ =~= old(self).pending_votes@ + tx_votes(*tx, slot));
            return;
        }
        let procedures = match &tx.voting_procedures {
            Some(p) => p,
            None => {
                assert(self.pending_votes@ =~= old(self).pending_votes@ + tx_votes(*tx, slot));
                return;
            },
        };
        let ghost start = self.pending_votes@;
        let mut i: usize = 0;
        while i < procedures.len()
            invariant
                i <= procedures@.len(),
                self.pending_votes@ == start + votes_of(procedures@.take(i as int), slot),
                self.validity_period == old(self).validity_period,
                self.current_epoch == old(self).current_epoch,
                self.network_magic == old(self).network_magic,
                self.protocol == old(self).protocol,
            decreases procedures@.len() - i,
        {
            let voter = procedures[i].0;
            let votes = &procedures[i].1;
            let ghost before = self.pending_votes@;
            let mut j: usize = 0;
            while j < votes.len()
                invariant
                    j <= votes@.len(),
                    self.pending_votes@ == before + votes@.take(j as int).map_values(
                        |v: (GovActionId, Vote)|
                            VoteCast {
                                transaction_id: v.0.transaction_id,
                                action_index: v.0.action_index,
                                voter: voter,
                                vote: v.1,
                                slot,
                            },
                    ),
                    self.validity_period == old(self).validity_period,
                    self.current_epoch == old(self).current_epoch,
                    self.network_magic == old(self).network_magic,
                    self.protocol == old(self).protocol,
                decreases votes@.len() - j,
            {
                let (id, vote) = votes[j];
                self.pending_votes.push(
                    VoteCast {
                        transaction_id: id.transaction_id,
                        action_index: id.action_index,
                        voter,
                        vote,
                        slot,
                    },
                );
                j = j + 1;
                assert(self.pending_votes@ =~= before + votes@.take(j as int).map_values(
                    |v: (GovActionId, Vote)|
                        VoteCast {
                            transaction_id: v.0.transaction_id,
                            action_index: v.0.action_index,
                            voter: voter,
                            vote: v.1,
                            slot,
                        },
                ));
            }
            proof {
                assert(votes@.take(j as int) =~= votes@);
                assert(procedures@.take(i + 1).drop_last() =~= procedures@.take(i as int));
                assert(procedures@.take(i + 1).last() == procedures@[i as int]);
                assert(self.pending_votes@ =~= start + votes_of(procedures@.take(i + 1), slot));
            }
            i = i + 1;
        }
        assert(procedures@.take(procedures@.len() as int) =~= procedures@);
    }

    /// Records a pre-Conway parameter update as a proposal of the block's
    /// slot, under the hash of the transaction that carries it or, where no
    /// transaction does, of the block. It carries no lineage, deposit or
    /// anchor.
    pub fn visit_update(
        &self,
        deltas: &mut WorkDeltas,
        slot: u64,
        hash: BlockHash,
        update: &PreConwayUpdate,
    )
        requires
            self.rooted(),
            pre_conway_fits(*update),
        ensures
            final(deltas).entries@.len() == old(deltas).entries@.len() + 1,
            final(deltas).entries@.drop_last() == old(deltas).entries@,
            final(deltas).entries@.last() matches GovernanceDelta::NewProposal(p) && p.slot == slot
                && p.transaction == hash && p.index == 0 && (p.action matches ProposalAction::ParamChange(
                set,
            ) && set@ == pre_conway_params(*update)) && p.deposit is None && p.reward_account is None
                && p.validity_period == self.validity_period && Some(p.epoch) == self.current_epoch
                && Some(p.network_magic) == self.network_magic && Some(p.protocol) == self.protocol
                && p.parent is None && p.purpose is None && p.anchor is None,
    {
        let action = pre_conway_to_pparamset(update);
        let proposal = NewProposal {
            slot,
            transaction: hash,
            index: 0,
            action: ProposalAction::ParamChange(action),
            deposit: None,
            reward_account: None,
            validity_period: self.validity_period,
            epoch: self.current_epoch.unwrap(),
            network_magic: self.network_magic.unwrap(),
            protocol: self.protocol.unwrap(),
            parent: None,
            purpose: None,
            anchor: None,
        };
        deltas.entries.push(GovernanceDelta::NewProposal(proposal));
        assert(deltas.entries@.drop_last() =~= old(deltas).entries@);
    }

    /// Records a Conway proposal procedure, the `index`-th of its
    /// transaction, with the lineage its action declares; an action that
    /// cannot be recorded, or a deposit paid from an account that names no
    /// stake credential, is refused and nothing is recorded.
    pub fn visit_proposal(
        &self,
        deltas: &mut WorkDeltas,
        slot: u64,
        tx_hash: BlockHash,
        proposal: &ProposalProcedure,
        index: u32,
    ) -> (r: Result<(), ChainError>)
        requires
            action_fits(proposal.gov_action),
            action_recordable(proposal.gov_action) && proposal.reward_account is Some
                ==> self.rooted(),
        ensures
            r is Err ==> final(deltas).entries@ == old(deltas).entries@,
            r is Ok ==> final(deltas).entries@.len() == old(deltas).entries@.len() + 1
                && final(deltas).entries@.drop_last() == old(deltas).entries@,
            r is Ok ==> (final(deltas).entries@.last() matches GovernanceDelta::NewProposal(p) && p.slot == slot
                && p.transaction == tx_hash && p.index == index && p.deposit == Some(
                proposal.deposit,
            ) && p.reward_account == proposal.reward_account && p.parent == proposal.gov_action.id
                && p.validity_period == self.validity_period && Some(p.epoch) == self.current_epoch
                && Some(p.network_magic) == self.network_magic && Some(p.protocol) == self.protocol),
            r is Ok ==> (final(deltas).entries@.last() matches GovernanceDelta::NewProposal(p)
                && records_action(p.action, proposal.gov_action.kind) && p.purpose == action_purpose(
                proposal.gov_action.kind,
            ) && (p.anchor matches Some(a) && a.url@ == proposal.anchor.url@ && a.content_hash
                == proposal.anchor.content_hash)),
            r is Ok <==> action_recordable(proposal.gov_action) && proposal.reward_account is Some,
    {
        let (action, parent, purpose) = match parse_gov_action(&proposal.gov_action) {
            Ok(parsed) => parsed,
            Err(e) => {
                return Err(e);
            },
        };
        let reward_account = match proposal.reward_account {
            Some(account) => account,
            None => {
                return Err(ChainError::InvalidProposalParams);
            },
        };
        let recorded = NewProposal {
            slot,
            transaction: tx_hash,
            index,
            action,
            deposit: Some(proposal.deposit),
            reward_account: Some(reward_account),
            validity_period: self.validity_period,
            epoch: self.current_epoch.unwrap(),
            network_magic: self.network_magic.unwrap(),
            protocol: self.protocol.unwrap(),
            parent,
            purpose,
            anchor: Some(
                Anchor { url: proposal.anchor.url.clone(), content_hash: proposal.anchor.content_hash },
            ),
        };
        deltas.entries.push(GovernanceDelta::NewProposal(recorded));
        assert(deltas.entries@.drop_last() =~= old(deltas).entries@);
        Ok(())
    }

    /// Emits the votes held for the block after everything else the block
    /// recorded, in the order they were cast, so a vote on a proposal made
    /// in the same block comes after that proposal.
    pub fn flush(&mut self, deltas: &mut WorkDeltas)
        ensures
            final(deltas).entries@ == old(deltas).entries@ + old(self).pending_votes@.map_values(
                |v: VoteCast| GovernanceDelta::VoteCast(v),
            ),
            final(self).pending_votes@.len() == 0,
            final(self).validity_period == old(self).validity_period,
            final(self).current_epoch == old(self).current_epoch,
            final(self).network_magic == old(self).network_magic,
            final(self).protocol == old(self).protocol,
    {
        let ghost votes = self.pending_votes@;
        let ghost start = deltas.entries@;
        let mut i: usize = 0;
        while i < self.pending_votes.len()
            invariant
                self.pending_votes@ == votes,
                i <= votes.len(),
                deltas.entries@ == start + votes.take(i as int).map_values(
                    |v: VoteCast| GovernanceDelta::VoteCast(v),
                ),
            decreases votes.len() - i,
        {
            deltas.entries.push(GovernanceDelta::VoteCast(self.pending_votes[i]));
            i = i + 1;
            assert(deltas.entries@ =~= start + votes.take(i as int).map_values(
                |v: VoteCast| GovernanceDelta::VoteCast(v),
            ));
        }
        assert(votes.take(votes.len() as int) =~= votes);
        self.pending_votes = Vec::new();
    }
}

} // verus!

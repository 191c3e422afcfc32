//! The milestone record: the proof that a phase is complete, the validators
//! who approved it, and whether its funds have been released.

use vstd::prelude::*;
use crate::error::ErrorCode;
use crate::identity::Identity;

verus! {

/// Number of distinct validator approvals a milestone needs before its funds
/// may be released.
pub const QUORUM_THRESHOLD: usize = 3;

/// What a milestone record holds, as mathematical values.
pub struct MilestoneView {
    pub index: nat,
    pub proof_hash: Seq<char>,
    pub approvals: Seq<Identity>,
    pub released: bool,
}

impl MilestoneView {
    /// No validator is listed twice.
    pub open spec fn wf(self) -> bool {
        self.approvals.no_duplicates()
    }

    /// The record of a milestone on which nobody has acted yet.
    pub open spec fn blank() -> MilestoneView {
        MilestoneView {
            index: 0,
            proof_hash: Seq::empty(),
            approvals: Seq::empty(),
            released: false,
        }
    }

    /// The number of distinct validators who have approved.
    pub open spec fn approval_count(self) -> nat {
        self.approvals.to_set().len()
    }

    /// Whether enough distinct validators have approved.
    pub open spec fn has_quorum(self) -> bool {
        self.approval_count() >= QUORUM_THRESHOLD
    }

    /// The record with `proof_hash` attached as the proof of milestone `index`.
    pub open spec fn with_proof(self, index: nat, proof_hash: Seq<char>) -> MilestoneView {
        MilestoneView { index, proof_hash, ..self }
    }

    /// The record after `validator` has approved: the validator joins the
    /// approvals unless already among them.
    pub open spec fn approved_by(self, validator: Identity) -> MilestoneView {
        if self.approvals.contains(validator) {
            self
        } else {
            MilestoneView { approvals: self.approvals.push(validator), ..self }
        }
    }

    /// The record after each validator of `validators` has approved, one
    /// call after the other, in that order.
    pub open spec fn approved_by_all(self, validators: Seq<Identity>) -> MilestoneView
        decreases validators.len(),
    {
        if validators.len() == 0 {
            self
        } else {
            self.approved_by_all(validators.drop_last()).approved_by(validators.last())
        }
    }

    /// The record after its funds have been released.
    pub open spec fn after_release(self) -> MilestoneView {
        MilestoneView { released: true, ..self }
    }
}

/// The record of one milestone of a vault.
#[derive(Debug, PartialEq, Eq)]
pub struct Milestone {
    /// The milestone's position among those of its vault.
    pub index: u8,
    /// A pointer to the evidence that the milestone is complete.
    pub proof_hash: String,
    /// The validators who have approved, each once, in the order in which
    /// they first did.
    pub approvals: Vec<Identity>,
    /// Whether the milestone's funds have been released. Once set, it stays.
    pub released: bool,
}

impl View for Milestone {
    type V = MilestoneView;

    open spec fn view(&self) -> MilestoneView {
        MilestoneView {
            index: self.index as nat,
            proof_hash: self.proof_hash@,
            approvals: self.approvals@,
            released: self.released,
        }
    }
}

impl Clone for Milestone {
    fn clone(&self) -> (copy: Milestone)
        ensures
            copy@ == self@,
    {
        let approvals = self.approvals.clone();
        assert(approvals@ =~= self.approvals@);
        Milestone {
            index: self.index,
            proof_hash: self.proof_hash.clone(),
            approvals,
            released: self.released,
        }
    }
}

impl Default for Milestone {
    /// A record on which nobody has acted yet.
    fn default() -> (milestone: Milestone)
        ensures
            milestone@ == MilestoneView::blank(),
    {
        Milestone { index: 0, proof_hash: String::new(), approvals: Vec::new(), released: false }
    }
}

impl Milestone {
    /// Says whether `validator` is among the first `end` of the approvals.
    fn approved_among_first(&self, end: usize, validator: &Identity) -> (found: bool)
        requires
            end <= self.approvals.len(),
        ensures
            found == self@.approvals.take(end as int).contains(*validator),
    {
        let mut i: usize = 0;
        while i < end
            invariant
                i <= end <= self.approvals.len(),
                forall|k: int| 0 <= k < i ==> self.approvals@[k] != *validator,
            decreases end - i,
        {
            if self.approvals[i].same_as(validator) {
                assert(self@.approvals.take(end as int)[i as int] == *validator);
                return true;
            }
            i += 1;
        }
        false
    }

    /// Says whether `validator` is among those who have approved.
    pub fn has_approved(&self, validator: &Identity) -> (found: bool)
        ensures
            found == self@.approvals.contains(*validator),
    {
        assert(self@.approvals.take(self.approvals.len() as int) =~= self@.approvals);
        self.approved_among_first(self.approvals.len(), validator)
    }

    /// Counts the distinct validators who have approved. A validator who is
    /// listed more than once is counted once.
    pub fn approval_count(&self) -> (count: usize)
        ensures
            count == self@.approval_count(),
    {
        let mut count: usize = 0;
        let mut i: usize = 0;
        assert(self@.approvals.take(0).to_set() =~= Set::<Identity>::empty());
        while i < self.approvals.len()
            invariant
                i <= self.approvals.len(),
                count <= i,
                count == self@.approvals.take(i as int).to_set().len(),
            decreases self.approvals.len() - i,
        {
            let seen = self.approved_among_first(i, &self.approvals[i]);
            proof {
                let earlier = self@.approvals.take(i as int);
                let next = self@.approvals[i as int];
                assert(self@.approvals.take(i + 1) =~= earlier.push(next));
                earlier.lemma_push_to_set_commute(next);
                vstd::seq_lib::seq_to_set_is_finite(earlier);
                vstd::set::axiom_set_insert_len(earlier.to_set(), next);
            }
            if !seen {
                count += 1;
            }
            i += 1;
        }
        assert(self@.approvals.take(self.approvals.len() as int) =~= self@.approvals);
        count
    }
}

/// The record and the signer that a proof submission works on.
#[derive(Debug, PartialEq, Eq)]
pub struct SubmitProof {
    /// The milestone that the proof is for.
    pub milestone: Milestone,
    /// Who submits the proof. Anyone may.
    pub authority: Identity,
}

impl Clone for SubmitProof {
    fn clone(&self) -> (copy: SubmitProof)
        ensures
            copy.milestone@ == self.milestone@,
            copy.authority == self.authority,
    {
        SubmitProof { milestone: self.milestone.clone(), authority: self.authority }
    }
}

/// Attaches `proof_hash` to the milestone as the proof of milestone
/// `milestone_index`, in place of any earlier proof. A released milestone
/// takes no proof.
pub fn submit_proof(ctx: &mut SubmitProof, milestone_index: u8, proof_hash: String) -> (result:
    Result<(), ErrorCode>)
    ensures
        old(ctx).milestone.released ==> result == Err::<(), ErrorCode>(ErrorCode::AlreadyReleased)
            && *final(ctx) == *old(ctx),
        !old(ctx).milestone.released ==> result == Ok::<(), ErrorCode>(())
            && final(ctx).milestone@ == old(ctx).milestone@.with_proof(
            milestone_index as nat,
            proof_hash@,
        ),
        final(ctx).authority == old(ctx).authority,
        old(ctx).milestone@.wf() ==> final(ctx).milestone@.wf(),
{
    if ctx.milestone.released {
        return Err(ErrorCode::AlreadyReleased);
    }
    ctx.milestone.proof_hash = proof_hash;
    ctx.milestone.index = milestone_index;
    Ok(())
}

/// The record and the signer that an approval works on.
#[derive(Debug, PartialEq, Eq)]
pub struct ApproveMilestone {
    /// The milestone to approve.
    pub milestone: Milestone,
    /// The validator who approves.
    pub validator: Identity,
}

impl Clone for ApproveMilestone {
    fn clone(&self) -> (copy: ApproveMilestone)
        ensures
            copy.milestone@ == self.milestone@,
            copy.validator == self.validator,
    {
        ApproveMilestone { milestone: self.milestone.clone(), validator: self.validator }
    }
}

/// Records the validator's approval of the milestone. A validator who has
/// approved before changes nothing: each counts once towards the quorum.
pub fn approve_milestone(ctx: &mut ApproveMilestone) -> (result: Result<(), ErrorCode>)
    ensures
        result is Ok,
        final(ctx).milestone@ == old(ctx).milestone@.approved_by(old(ctx).validator),
        final(ctx).validator == old(ctx).validator,
        old(ctx).milestone@.wf() ==> final(ctx).milestone@.wf(),
{
    if !ctx.milestone.has_approved(&ctx.validator) {
        let validator = ctx.validator;
        ctx.milestone.approvals.push(validator);
    }
    Ok(())
}

/// Approval is idempotent: a second approval by the same validator changes
/// nothing, and the validator adds at most one to the count.
pub proof fn lemma_approval_is_idempotent(milestone: MilestoneView, validator: Identity)
    ensures
        milestone.approved_by(validator).approved_by(validator) == milestone.approved_by(validator),
        milestone.approved_by(validator).approvals.contains(validator),
        milestone.approvals.contains(validator) ==> milestone.approved_by(validator) == milestone,
        !milestone.approvals.contains(validator) ==> milestone.approved_by(
            validator,
        ).approvals.len() == milestone.approvals.len() + 1,
        !milestone.approvals.contains(validator) ==> milestone.approved_by(
            validator,
        ).approval_count() == milestone.approval_count() + 1,
        milestone.wf() ==> milestone.approved_by(validator).wf(),
{
    let once = milestone.approved_by(validator);
    if !milestone.approvals.contains(validator) {
        assert(once.approvals[milestone.approvals.len() as int] == validator);
        milestone.approvals.lemma_push_to_set_commute(validator);
        vstd::seq_lib::seq_to_set_is_finite(milestone.approvals);
        vstd::set::axiom_set_insert_len(milestone.approvals.to_set(), validator);
    }
}

/// However often one validator approves, it counts once: `times` approvals
/// by the same validator, one or more, leave the record as a single approval
/// does. On a record without approvals that is a list of exactly that one
/// validator.
pub proof fn lemma_repeated_approval_counts_once(
    milestone: MilestoneView,
    validator: Identity,
    times: nat,
)
    requires
        times >= 1,
    ensures
        milestone.approved_by_all(Seq::new(times, |i: int| validator)) == milestone.approved_by(
            validator,
        ),
        milestone.approvals.len() == 0 ==> milestone.approved_by_all(
            Seq::new(times, |i: int| validator),
        ).approvals == seq![validator],
    decreases times,
{
    let calls = Seq::new(times, |i: int| validator);
    assert(calls.last() == validator);
    if times == 1 {
        assert(calls.drop_last() =~= Seq::<Identity>::empty());
        assert(milestone.approved_by_all(calls.drop_last()) == milestone);
    } else {
        let fewer = (times - 1) as nat;
        assert(calls.drop_last() =~= Seq::new(fewer, |i: int| validator));
        lemma_repeated_approval_counts_once(milestone, validator, fewer);
        lemma_approval_is_idempotent(milestone, validator);
    }
    if milestone.approvals.len() == 0 {
        assert(milestone.approved_by(validator).approvals =~= seq![validator]);
    }
}

/// The quorum counts distinct validators, not approval calls. After any
/// sequence of approvals on a record that lists no validator twice, the list
/// still has no duplicates, it holds exactly the validators listed before
/// and those who called, and its length is the number of distinct validators
/// among them. The order of the calls has no part in that. Nothing else in
/// the record changes.
pub proof fn lemma_quorum_counts_distinct_validators(
    milestone: MilestoneView,
    validators: Seq<Identity>,
)
    requires
        milestone.wf(),
    ensures
        milestone.approved_by_all(validators).wf(),
        milestone.approved_by_all(validators).approvals.to_set()
            == milestone.approvals.to_set().union(validators.to_set()),
        milestone.approved_by_all(validators).approval_count()
            == milestone.approvals.to_set().union(validators.to_set()).len(),
        milestone.approved_by_all(validators).approvals.len() == milestone.approved_by_all(
            validators,
        ).approval_count(),
        milestone.approvals.len() == 0 ==> milestone.approved_by_all(validators).approval_count()
            == validators.to_set().len(),
        milestone.approved_by_all(validators).index == milestone.index,
        milestone.approved_by_all(validators).proof_hash == milestone.proof_hash,
        milestone.approved_by_all(validators).released == milestone.released,
    decreases validators.len(),
{
    let after = milestone.approved_by_all(validators);
    if validators.len() == 0 {
        assert(validators.to_set() =~= Set::<Identity>::empty());
        assert(milestone.approvals.to_set().union(validators.to_set())
            =~= milestone.approvals.to_set());
    } else {
        let earlier = validators.drop_last();
        let last = validators.last();
        let before = milestone.approved_by_all(earlier);
        lemma_quorum_counts_distinct_validators(milestone, earlier);
        lemma_approval_is_idempotent(before, last);
        assert(validators =~= earlier.push(last));
        earlier.lemma_push_to_set_commute(last);
        before.approvals.lemma_push_to_set_commute(last);
        assert(after.approvals.to_set() =~= before.approvals.to_set().insert(last)) by {
            if before.approvals.contains(last) {
                assert(before.approvals.to_set().contains(last));
            }
        }
        assert(after.approvals.to_set() =~= milestone.approvals.to_set().union(
            validators.to_set(),
        ));
    }
    after.approvals.unique_seq_to_set();
    if milestone.approvals.len() == 0 {
        assert(milestone.approvals.to_set() =~= Set::<Identity>::empty());
        assert(milestone.approvals.to_set().union(validators.to_set()) =~= validators.to_set());
    }
}

} // verus!

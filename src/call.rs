use vstd::prelude::*;
use vstd::string::StringExecFns;
use crate::decl::{ParamKind, ValidFn};
use crate::plan::{
    MarshalPlan, ResultMode, plan_wf, plan_of, positions_of, lemma_position_listed, lemma_plan_wf,
};

verus! {

broadcast use vstd::std_specs::vec::group_vec_axioms;

/// What the VM's slot reader gave for one parameter.
#[derive(Clone, Copy, PartialEq, Eq, Structural, Debug)]
pub enum SlotRead {
    /// the slot does not hold a value of the parameter's type
    Missing,
    /// the slot holds a suitable value
    Found,
    /// the slot holds a foreign object, but its logical object cannot be
    /// narrowed into the declared parameter type
    WrongClass,
}

/// What the adapter does with the values read from the slots.
#[derive(Clone, Copy, PartialEq, Eq, Structural, Debug)]
pub enum CallDecision {
    /// a script-level error: the slot did not hold what the parameter needs
    Fail { position: usize, slot: usize },
    /// a programmer error: an object parameter's declared type does not
    /// match what the slot holds
    Panic { position: usize, slot: usize },
    /// every argument is there: call the native method
    Invoke,
}

/// What a call leaves behind, as the VM sees it.
#[derive(Clone, Copy, PartialEq, Eq, Structural, Debug)]
pub enum CallEffect {
    /// the native method ran and its result is in slot 0
    ResultWritten,
    /// the constructor ran and its instance record is in new foreign storage
    InstanceInstalled,
    /// slot 0 holds a message naming the failed slot, and the fiber is aborted
    FiberAborted { slot: usize },
    /// a native panic was caught at the boundary; the host goes on
    PanicContained,
    /// the call context was lost: the host process itself stops
    HostAbort,
}

pub open spec fn missing_at(p: MarshalPlan, reads: Seq<SlotRead>, j: int) -> bool {
    reads[p.check_order@[j] as int] == SlotRead::Missing
}

pub open spec fn mismatch_at(p: MarshalPlan, reads: Seq<SlotRead>, i: int) -> bool {
    p.steps@[i].kind == ParamKind::Object && reads[i] == SlotRead::WrongClass
}

/// The decision for the values `reads`, read position by position: the first
/// missing value in check order fails the call; failing that, the first object
/// parameter that cannot be narrowed panics; otherwise the method is called.
pub open spec fn decision_ok(p: MarshalPlan, reads: Seq<SlotRead>, d: CallDecision) -> bool {
    match d {
        CallDecision::Fail { position, slot } => exists|j: int|
            {
                &&& 0 <= j < p.check_order@.len()
                &&& #[trigger] p.check_order@[j] == position
                &&& missing_at(p, reads, j)
                &&& slot == position + 1
                &&& forall|j2: int| 0 <= j2 < j ==> !#[trigger] missing_at(p, reads, j2)
            },
        CallDecision::Panic { position, slot } => {
            &&& forall|j: int| 0 <= j < p.check_order@.len() ==> !#[trigger] missing_at(p, reads, j)
            &&& position < p.arity
            &&& mismatch_at(p, reads, position as int)
            &&& slot == position + 1
            &&& forall|i: int| 0 <= i < position ==> !#[trigger] mismatch_at(p, reads, i)
        },
        CallDecision::Invoke => {
            &&& forall|j: int| 0 <= j < p.check_order@.len() ==> !#[trigger] missing_at(p, reads, j)
            &&& forall|i: int| 0 <= i < p.arity ==> !#[trigger] mismatch_at(p, reads, i)
        },
    }
}

/// Decides a call from what was read for each parameter.
pub fn decide_call(plan: &MarshalPlan, reads: &Vec<SlotRead>) -> (r: CallDecision)
    requires
        plan_wf(*plan),
        reads@.len() == plan.arity,
    ensures
        decision_ok(*plan, reads@, r),
{
    let mut j: usize = 0;
    while j < plan.check_order.len()
        invariant
            plan_wf(*plan),
            reads@.len() == plan.arity,
            j <= plan.check_order@.len(),
            forall|j2: int| 0 <= j2 < j ==> !#[trigger] missing_at(*plan, reads@, j2),
        decreases plan.check_order@.len() - j,
    {
        let position = plan.check_order[j];
        if reads[position] == SlotRead::Missing {
            assert(missing_at(*plan, reads@, j as int));
            return CallDecision::Fail { position, slot: position + 1 };
        }
        j += 1;
    }
    let mut i: usize = 0;
    while i < plan.arity
        invariant
            plan_wf(*plan),
            reads@.len() == plan.arity,
            i <= plan.arity,
            forall|j2: int|
                0 <= j2 < plan.check_order@.len() ==> !#[trigger] missing_at(*plan, reads@, j2),
            forall|i2: int| 0 <= i2 < i ==> !#[trigger] mismatch_at(*plan, reads@, i2),
        decreases plan.arity - i,
    {
        if plan.steps[i].kind == ParamKind::Object && reads[i] == SlotRead::WrongClass {
            return CallDecision::Panic { position: i, slot: i + 1 };
        }
        i += 1;
    }
    CallDecision::Invoke
}

/// What a call leaves behind: a lost call context stops the host; otherwise
/// a failed slot aborts the fiber, a panic is contained at the boundary, and
/// a call that went through leaves its result.
pub fn call_effect(session_found: bool, plan: &MarshalPlan, d: CallDecision) -> (r: CallEffect)
    ensures
        r == if !session_found {
            CallEffect::HostAbort
        } else {
            match d {
                CallDecision::Fail { slot, .. } => CallEffect::FiberAborted { slot },
                CallDecision::Panic { .. } => CallEffect::PanicContained,
                CallDecision::Invoke => if plan.result == ResultMode::ReturnInstance {
                    CallEffect::InstanceInstalled
                } else {
                    CallEffect::ResultWritten
                },
            }
        },
{
    if !session_found {
        return CallEffect::HostAbort;
    }
    match d {
        CallDecision::Fail { slot, .. } => CallEffect::FiberAborted { slot },
        CallDecision::Panic { .. } => CallEffect::PanicContained,
        CallDecision::Invoke => match plan.result {
            ResultMode::ReturnInstance => CallEffect::InstanceInstalled,
            ResultMode::WriteSlot { .. } => CallEffect::ResultWritten,
        },
    }
}

/// A plain parameter whose slot does not hold a value of its type fails the
/// call, so the native method is not invoked; where it is the only such slot,
/// the failure names that slot.
pub proof fn lemma_plain_mismatch_fails(
    v: ValidFn,
    src: Seq<char>,
    constructor_mode: bool,
    p: MarshalPlan,
    reads: Seq<SlotRead>,
    d: CallDecision,
    pos: int,
)
    requires
        plan_of(v, src, constructor_mode, p),
        v.kinds@.len() == v.params@.len(),
        v.kinds@.len() <= usize::MAX,
        reads.len() == p.arity,
        decision_ok(p, reads, d),
        0 <= pos < p.arity,
        v.kinds@[pos] == ParamKind::Plain,
        reads[pos] == SlotRead::Missing,
    ensures
        d is Fail,
        (forall|i: int| 0 <= i < reads.len() && i != pos ==> reads[i] != SlotRead::Missing) ==> d
            == (CallDecision::Fail { position: pos as usize, slot: (pos + 1) as usize }),
{
    lemma_position_listed(v.kinds@, ParamKind::Plain, pos);
    let a = positions_of(v.kinds@, ParamKind::Plain);
    let j = choose|j: int| 0 <= j < a.len() && #[trigger] a[j] == pos;
    assert(p.check_order@[j] == a[j]);
    assert(missing_at(p, reads, j));
    lemma_plan_wf(v, src, constructor_mode, p);
    if d is Fail {
        let k = choose|k: int|
            {
                &&& 0 <= k < p.check_order@.len()
                &&& #[trigger] p.check_order@[k] == d->Fail_position
                &&& missing_at(p, reads, k)
                &&& d->Fail_slot == d->Fail_position + 1
                &&& forall|j2: int| 0 <= j2 < k ==> !#[trigger] missing_at(p, reads, j2)
            };
        assert(p.check_order@[k] < p.arity);
    }
}

/// An object parameter whose foreign object cannot be narrowed into the
/// declared type panics, rather than failing as a script-level error, once
/// every slot held a value.
pub proof fn lemma_object_mismatch_panics(
    p: MarshalPlan,
    reads: Seq<SlotRead>,
    d: CallDecision,
    pos: int,
)
    requires
        plan_wf(p),
        reads.len() == p.arity,
        decision_ok(p, reads, d),
        forall|i: int| 0 <= i < reads.len() ==> reads[i] != SlotRead::Missing,
        0 <= pos < p.arity,
        p.steps@[pos].kind == ParamKind::Object,
        reads[pos] == SlotRead::WrongClass,
    ensures
        d is Panic,
{
    if d is Fail {
        let j = choose|j: int|
            {
                &&& 0 <= j < p.check_order@.len()
                &&& #[trigger] p.check_order@[j] == d->Fail_position
                &&& missing_at(p, reads, j)
                &&& d->Fail_slot == d->Fail_position + 1
                &&& forall|j2: int| 0 <= j2 < j ==> !#[trigger] missing_at(p, reads, j2)
            };
        assert(p.check_order@[j] < p.arity);
    }
    if d is Invoke {
        assert(mismatch_at(p, reads, pos));
    }
}

/// The decimal digits of `n`.
pub open spec fn decimal(n: nat) -> Seq<char>
    decreases n,
{
    let digit = seq!['0', '1', '2', '3', '4', '5', '6', '7', '8', '9'][(n % 10) as int];
    if n < 10 {
        seq![digit]
    } else {
        decimal(n / 10).push(digit)
    }
}

/// Relies on `format!` with `{}`: a string is written as it is, an unsigned
/// integer in decimal without sign or padding.
#[verifier::external_body]
fn format_failure(expected: &str, slot: usize) -> (r: String)
    ensures
        r@ == "failed to get value of type "@ + expected@ + " for slot "@ + decimal(slot as nat),
{
    format!("failed to get value of type {} for slot {}", expected, slot)
}

/// The message written to slot 0 when the slot `slot` does not hold a value
/// of the type named `expected`.
pub fn failure_message(expected: &str, slot: usize) -> (r: String)
    ensures
        r@ == "failed to get value of type "@ + expected@ + " for slot "@ + decimal(slot as nat),
{
    format_failure(expected, slot)
}

} // verus!

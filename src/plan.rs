use vstd::prelude::*;
use crate::types::{TypeRef, inner_path, lemma_inner_path_has_segment};
use crate::naming::{
    class_name_of, wrapper_name_of, prefixed, renamed_last, generate_class_type_name,
    generate_wrapper_type_name, prefixed_name, rename_last_segment,
};
use crate::decl::{ValidFn, ParamKind, count_kind, arity_of};

verus! {

broadcast use vstd::std_specs::vec::group_vec_axioms;

/// Slot 0 carries the receiver in and the result out.
pub const RETURN_SLOT: usize = 0;

/// The first slot free for conversions that need scratch room in the VM.
pub const SCRATCH_START: usize = 1;

/// The running cursor handed to the slot reader: the first parameter's is made
/// fresh from its slot and the arity, each later one is chained from the
/// cursor of the parameter before it.
#[derive(Clone, Copy, PartialEq, Eq, Structural, Debug)]
pub enum Cursor {
    Fresh { slot: usize, arity: usize },
    Chained { slot: usize, prev: usize },
}

/// How one parameter is extracted from its slot.
pub struct ExtractStep {
    pub position: usize,
    pub slot: usize,
    pub kind: ParamKind,
    pub cursor: Cursor,
    /// for an object parameter, the path of the instance record type it is
    /// located as; none where the declared type names no such type
    pub source: Option<Vec<String>>,
}

/// What the adapter does when a slot does not hold what a parameter needs.
#[derive(Clone, Copy, PartialEq, Eq, Structural, Debug)]
pub enum FailureMode {
    /// write a message to slot 0 and abort the script fiber
    AbortFiber,
    /// hand the message back as the constructor's error
    ReturnError,
}

/// Where the native method's result goes.
#[derive(Clone, Copy, PartialEq, Eq, Structural, Debug)]
pub enum ResultMode {
    /// converted into a slot, with scratch slots from `scratch` on
    WriteSlot { slot: usize, scratch: usize },
    /// handed back as the new instance record
    ReturnInstance,
}

/// The marshaling plan of one method.
pub struct MarshalPlan {
    pub arity: usize,
    /// one step per parameter, by position
    pub steps: Vec<ExtractStep>,
    /// the order in which extracted values are checked: the plain parameters
    /// by position, then the object parameters by position
    pub check_order: Vec<usize>,
    pub failure: FailureMode,
    pub result: ResultMode,
    /// whether the method is called on the class record (else on the combined view)
    pub is_static: bool,
    /// the type the native method is called through
    pub callee_type: String,
    /// the native method's name
    pub method: String,
}

/// An adapter that takes the VM and runs a plan.
pub struct VmFn {
    pub name: String,
    pub plan: MarshalPlan,
}

/// The raw entry point the VM calls, and the adapter it runs.
pub struct NativeFn {
    pub name: String,
    pub vm_fn: VmFn,
}

/// The positions whose parameter has kind `k`, ascending.
pub open spec fn positions_of(kinds: Seq<ParamKind>, k: ParamKind) -> Seq<usize>
    decreases kinds.len(),
{
    if kinds.len() == 0 {
        Seq::empty()
    } else if kinds.last() == k {
        positions_of(kinds.drop_last(), k).push((kinds.len() - 1) as usize)
    } else {
        positions_of(kinds.drop_last(), k)
    }
}

pub open spec fn cursor_of(i: int, arity: usize) -> Cursor {
    if i == 0 {
        Cursor::Fresh { slot: 1, arity }
    } else {
        Cursor::Chained { slot: (i + 1) as usize, prev: (i - 1) as usize }
    }
}

/// The instance record type an object parameter of type `t` is located as.
pub open spec fn source_ok(kind: ParamKind, t: TypeRef, source: Option<Vec<String>>) -> bool {
    if kind == ParamKind::Object {
        match inner_path(t) {
            Some(p) => source matches Some(s) && renamed_last(p.segments@, s@, "Instance"@),
            None => source is None,
        }
    } else {
        source is None
    }
}

/// `p` is the plan of `v`, a method of the logical type `src`.
pub open spec fn plan_of(v: ValidFn, src: Seq<char>, constructor_mode: bool, p: MarshalPlan) -> bool {
    &&& p.arity == v.params@.len()
    &&& p.steps@.len() == v.params@.len()
    &&& forall|i: int|
        0 <= i < p.steps@.len() ==> {
            let s = #[trigger] p.steps@[i];
            &&& s.position == i
            &&& s.slot == i + 1
            &&& s.kind == v.kinds@[i]
            &&& s.cursor == cursor_of(i, p.arity)
            &&& source_ok(s.kind, v.params@[i].ty, s.source)
        }
    &&& p.check_order@ == positions_of(v.kinds@, ParamKind::Plain) + positions_of(
        v.kinds@,
        ParamKind::Object,
    )
    &&& p.failure == if constructor_mode {
        FailureMode::ReturnError
    } else {
        FailureMode::AbortFiber
    }
    &&& p.result == if constructor_mode {
        ResultMode::ReturnInstance
    } else {
        ResultMode::WriteSlot { slot: RETURN_SLOT, scratch: SCRATCH_START }
    }
    &&& p.is_static == v.is_static
    &&& p.callee_type@ == if v.is_static {
        class_name_of(src)
    } else {
        wrapper_name_of(src)
    }
    &&& p.method == v.name
}

/// The shape every plan has: one step per parameter, slot `i + 1` for
/// position `i`, and a check order that names only real positions.
pub open spec fn plan_wf(p: MarshalPlan) -> bool {
    &&& p.steps@.len() == p.arity
    &&& forall|i: int|
        0 <= i < p.steps@.len() ==> {
            &&& (#[trigger] p.steps@[i]).position == i
            &&& p.steps@[i].slot == i + 1
        }
    &&& forall|j: int| 0 <= j < p.check_order@.len() ==> #[trigger] p.check_order@[j] < p.arity
}

proof fn lemma_positions_bounded(kinds: Seq<ParamKind>, k: ParamKind)
    requires
        kinds.len() <= usize::MAX,
    ensures
        forall|j: int|
            0 <= j < positions_of(kinds, k).len() ==> #[trigger] positions_of(kinds, k)[j]
                < kinds.len(),
    decreases kinds.len(),
{
    if kinds.len() > 0 {
        lemma_positions_bounded(kinds.drop_last(), k);
        let prev = positions_of(kinds.drop_last(), k);
        assert forall|j: int| 0 <= j < positions_of(kinds, k).len() implies #[trigger] positions_of(
            kinds,
            k,
        )[j] < kinds.len() by {
            if j < prev.len() {
                assert(positions_of(kinds, k)[j] == prev[j]);
            }
        }
    }
}

/// Each position whose parameter has kind `k` is listed.
pub proof fn lemma_position_listed(kinds: Seq<ParamKind>, k: ParamKind, i: int)
    requires
        0 <= i < kinds.len(),
        kinds.len() <= usize::MAX,
        kinds[i] == k,
    ensures
        exists|j: int|
            0 <= j < positions_of(kinds, k).len() && #[trigger] positions_of(kinds, k)[j] == i,
    decreases kinds.len(),
{
    if i < kinds.len() - 1 {
        lemma_position_listed(kinds.drop_last(), k, i);
        let j = choose|j: int|
            0 <= j < positions_of(kinds.drop_last(), k).len() && #[trigger] positions_of(
                kinds.drop_last(),
                k,
            )[j] == i;
        assert(positions_of(kinds, k)[j] == i);
    } else {
        let j = positions_of(kinds.drop_last(), k).len() as int;
        assert(positions_of(kinds, k)[j] == i);
    }
}

/// Every plan made by resolution has the shape `plan_wf` describes.
pub proof fn lemma_plan_wf(v: ValidFn, src: Seq<char>, constructor_mode: bool, p: MarshalPlan)
    requires
        plan_of(v, src, constructor_mode, p),
        v.kinds@.len() == v.params@.len(),
        v.kinds@.len() <= usize::MAX,
    ensures
        plan_wf(p),
{
    lemma_positions_bounded(v.kinds@, ParamKind::Plain);
    lemma_positions_bounded(v.kinds@, ParamKind::Object);
    let a = positions_of(v.kinds@, ParamKind::Plain);
    let b = positions_of(v.kinds@, ParamKind::Object);
    assert forall|j: int| 0 <= j < p.check_order@.len() implies #[trigger] p.check_order@[j]
        < p.arity by {
        if j < a.len() {
            assert(p.check_order@[j] == a[j]);
        } else {
            assert(p.check_order@[j] == b[j - a.len()]);
        }
    }
}

/// Every parameter is either plain or an object, so the arity is the number
/// of plain parameters plus the number of object parameters.
pub proof fn lemma_arity_partition(kinds: Seq<ParamKind>)
    ensures
        kinds.len() == count_kind(kinds, ParamKind::Plain) + count_kind(kinds, ParamKind::Object),
        count_kind(kinds, ParamKind::Plain) == positions_of(kinds, ParamKind::Plain).len(),
        count_kind(kinds, ParamKind::Object) == positions_of(kinds, ParamKind::Object).len(),
    decreases kinds.len(),
{
    if kinds.len() > 0 {
        lemma_arity_partition(kinds.drop_last());
    }
}

/// The number of parameters of each kind depends only on how many of each
/// were declared, not on their order.
pub proof fn lemma_count_order_free(kinds: Seq<ParamKind>, k: ParamKind)
    ensures
        count_kind(kinds, k) == kinds.to_multiset().count(k),
    decreases kinds.len(),
{
    broadcast use vstd::seq_lib::group_to_multiset_ensures;
    broadcast use vstd::multiset::group_multiset_axioms;

    if kinds.len() > 0 {
        lemma_count_order_free(kinds.drop_last(), k);
        assert(kinds.drop_last().push(kinds.last()) =~= kinds);
    }
}

/// The arity of a resolved method is the count of its plain parameters plus
/// the count of its object parameters, whatever order they were declared in.
pub proof fn lemma_arity_of_declaration(v: ValidFn, reordered: Seq<ParamKind>)
    requires
        v.kinds@.len() == v.params@.len(),
        reordered.to_multiset() == v.kinds@.to_multiset(),
    ensures
        arity_of(v) == count_kind(v.kinds@, ParamKind::Plain) + count_kind(
            v.kinds@,
            ParamKind::Object,
        ),
        arity_of(v) == count_kind(reordered, ParamKind::Plain) + count_kind(
            reordered,
            ParamKind::Object,
        ),
{
    lemma_arity_partition(v.kinds@);
    lemma_count_order_free(v.kinds@, ParamKind::Plain);
    lemma_count_order_free(v.kinds@, ParamKind::Object);
    lemma_count_order_free(reordered, ParamKind::Plain);
    lemma_count_order_free(reordered, ParamKind::Object);
}

fn positions_with(kinds: &Vec<ParamKind>, k: ParamKind, out: &mut Vec<usize>)
    ensures
        final(out)@ == old(out)@ + positions_of(kinds@, k),
{
    let ghost start = out@;
    let mut i: usize = 0;
    while i < kinds.len()
        invariant
            i <= kinds@.len(),
            out@ == start + positions_of(kinds@.take(i as int), k),
        decreases kinds@.len() - i,
    {
        assert(kinds@.take(i + 1).drop_last() =~= kinds@.take(i as int));
        if kinds[i] == k {
            out.push(i);
        }
        i += 1;
        assert(out@ =~= start + positions_of(kinds@.take(i as int), k));
    }
    assert(kinds@.take(i as int) =~= kinds@);
}

impl ValidFn {
    /// The number of non-receiver parameters.
    pub fn arity(&self) -> (r: usize)
        ensures
            r == arity_of(*self),
    {
        self.params.len()
    }

    /// The name the script sees: the declared one.
    pub fn source_name(&self) -> (r: &String)
        ensures
            *r == match self.source_name {
                Some(n) => n,
                None => self.name,
            },
    {
        match &self.source_name {
            Some(n) => n,
            None => &self.name,
        }
    }

    /// The name the native method is dispatched under.
    pub fn base_name(&self) -> (r: &String)
        ensures
            *r == self.name,
    {
        &self.name
    }

    /// The marshaling plan of this method of the logical type `src`.
    pub fn gen_vm_fn_body(&self, src: &str, constructor_mode: bool) -> (r: MarshalPlan)
        requires
            self.kinds@.len() == self.params@.len(),
        ensures
            plan_of(*self, src@, constructor_mode, r),
            plan_wf(r),
    {
        let arity = self.params.len();
        let mut steps: Vec<ExtractStep> = Vec::new();
        let mut i: usize = 0;
        while i < arity
            invariant
                arity == self.params@.len(),
                self.kinds@.len() == self.params@.len(),
                i <= arity,
                steps@.len() == i,
                forall|j: int|
                    0 <= j < i ==> {
                        let s = #[trigger] steps@[j];
                        &&& s.position == j
                        &&& s.slot == j + 1
                        &&& s.kind == self.kinds@[j]
                        &&& s.cursor == cursor_of(j, arity)
                        &&& source_ok(s.kind, self.params@[j].ty, s.source)
                    },
            decreases arity - i,
        {
            let kind = self.kinds[i];
            let cursor = if i == 0 {
                Cursor::Fresh { slot: 1, arity }
            } else {
                Cursor::Chained { slot: i + 1, prev: i - 1 }
            };
            let source = match kind {
                ParamKind::Object => match {
                    proof {
                        lemma_inner_path_has_segment(self.params@[i as int].ty);
                    }
                    self.params[i].ty.find_inner_type()
                } {
                    Some(p) => Some(rename_last_segment(&p.segments, "Instance")),
                    None => None,
                },
                ParamKind::Plain => None,
            };
            steps.push(ExtractStep { position: i, slot: i + 1, kind, cursor, source });
            i += 1;
        }
        let mut check_order: Vec<usize> = Vec::new();
        positions_with(&self.kinds, ParamKind::Plain, &mut check_order);
        positions_with(&self.kinds, ParamKind::Object, &mut check_order);
        let callee_type = if self.is_static {
            generate_class_type_name(src)
        } else {
            generate_wrapper_type_name(src)
        };
        let r = MarshalPlan {
            arity,
            steps,
            check_order,
            failure: if constructor_mode {
                FailureMode::ReturnError
            } else {
                FailureMode::AbortFiber
            },
            result: if constructor_mode {
                ResultMode::ReturnInstance
            } else {
                ResultMode::WriteSlot { slot: RETURN_SLOT, scratch: SCRATCH_START }
            },
            is_static: self.is_static,
            callee_type,
            method: self.name.clone(),
        };
        proof {
            lemma_plan_wf(*self, src@, constructor_mode, r);
        }
        r
    }

    /// The adapter of a constructor: it returns the new instance record, or
    /// the message of the first slot that failed.
    pub fn gen_vm_fn_constructor(&self, src: &str) -> (r: VmFn)
        requires
            self.kinds@.len() == self.params@.len(),
        ensures
            r.name@ == prefixed("vm_"@, self.name@),
            plan_of(*self, src@, true, r.plan),
    {
        VmFn { name: prefixed_name("vm_", self.name.as_str()), plan: self.gen_vm_fn_body(src, true) }
    }

    /// The adapter of an ordinary method: it writes the result to slot 0, or
    /// aborts the fiber at the first slot that failed.
    pub fn gen_vm_fn(&self, src: &str) -> (r: VmFn)
        requires
            self.kinds@.len() == self.params@.len(),
        ensures
            r.name@ == prefixed("vm_"@, self.name@),
            plan_of(*self, src@, false, r.plan),
    {
        VmFn { name: prefixed_name("vm_", self.name.as_str()), plan: self.gen_vm_fn_body(src, false) }
    }

    /// The raw entry point for the VM and the adapter it runs.
    pub fn gen_native_vm_fn(&self, src: &str) -> (r: NativeFn)
        requires
            self.kinds@.len() == self.params@.len(),
        ensures
            r.name@ == prefixed("native_vm_"@, self.name@),
            r.vm_fn.name@ == prefixed("vm_"@, self.name@),
            plan_of(*self, src@, false, r.vm_fn.plan),
    {
        NativeFn { name: prefixed_name("native_vm_", self.name.as_str()), vm_fn: self.gen_vm_fn(src) }
    }
}

} // verus!

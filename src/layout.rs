use vstd::prelude::*;

verus! {

broadcast use vstd::std_specs::vec::group_vec_axioms;

/// How a logical type writes its fields.
#[derive(Clone, Copy, PartialEq, Eq, Structural, Debug)]
pub enum FieldsShape {
    Unit,
    Named,
    Unnamed,
}

/// One field of a logical type: its name (none for a tuple field) and whether
/// it is static, that is held in the class record rather than the instance record.
pub struct FieldDecl {
    pub name: Option<String>,
    pub is_static: bool,
}

/// The fields of a logical type, in declaration order.
pub struct ObjectLayout {
    pub shape: FieldsShape,
    pub fields: Vec<FieldDecl>,
}

/// Where the logical object's field is read back from: a position in the
/// class record or in the instance record.
#[derive(Clone, Copy, PartialEq, Eq, Structural, Debug)]
pub enum FieldSource {
    Class(usize),
    Instance(usize),
}

/// Number of static fields.
pub open spec fn static_count(flags: Seq<bool>) -> nat
    decreases flags.len(),
{
    if flags.len() == 0 {
        0
    } else {
        static_count(flags.drop_last()) + if flags.last() {
            1nat
        } else {
            0nat
        }
    }
}

/// The values of the static fields, in order: the class record.
pub open spec fn class_part<T>(flags: Seq<bool>, vals: Seq<T>) -> Seq<T>
    decreases flags.len(),
{
    if flags.len() == 0 {
        Seq::empty()
    } else if flags.last() {
        class_part(flags.drop_last(), vals.drop_last()).push(vals.last())
    } else {
        class_part(flags.drop_last(), vals.drop_last())
    }
}

/// The values of the other fields, in order: the instance record.
pub open spec fn instance_part<T>(flags: Seq<bool>, vals: Seq<T>) -> Seq<T>
    decreases flags.len(),
{
    if flags.len() == 0 {
        Seq::empty()
    } else if flags.last() {
        instance_part(flags.drop_last(), vals.drop_last())
    } else {
        instance_part(flags.drop_last(), vals.drop_last()).push(vals.last())
    }
}

/// Where field `k` is kept.
pub open spec fn source_of(flags: Seq<bool>, k: int) -> FieldSource {
    if flags[k] {
        FieldSource::Class(static_count(flags.take(k)) as usize)
    } else {
        FieldSource::Instance((k - static_count(flags.take(k))) as usize)
    }
}

/// The logical object's fields, each read from the record that holds it.
pub open spec fn rebuilt<T>(flags: Seq<bool>, class: Seq<T>, inst: Seq<T>) -> Seq<T> {
    Seq::new(
        flags.len(),
        |k: int|
            if flags[k] {
                class[static_count(flags.take(k)) as int]
            } else {
                inst[k - static_count(flags.take(k))]
            },
    )
}

pub proof fn lemma_part_lengths<T>(flags: Seq<bool>, vals: Seq<T>)
    requires
        flags.len() == vals.len(),
    ensures
        static_count(flags) <= flags.len(),
        class_part(flags, vals).len() == static_count(flags),
        instance_part(flags, vals).len() == flags.len() - static_count(flags),
    decreases flags.len(),
{
    if flags.len() > 0 {
        lemma_part_lengths(flags.drop_last(), vals.drop_last());
    }
}

proof fn lemma_class_index<T>(flags: Seq<bool>, vals: Seq<T>, k: int)
    requires
        flags.len() == vals.len(),
        0 <= k < flags.len(),
    ensures
        flags[k] ==> static_count(flags.take(k)) < class_part(flags, vals).len() && class_part(
            flags,
            vals,
        )[static_count(flags.take(k)) as int] == vals[k],
        !flags[k] ==> k - static_count(flags.take(k)) < instance_part(flags, vals).len()
            && instance_part(flags, vals)[k - static_count(flags.take(k))] == vals[k],
    decreases flags.len(),
{
    let f = flags.drop_last();
    let v = vals.drop_last();
    lemma_part_lengths(f, v);
    lemma_part_lengths(flags, vals);
    if k == flags.len() - 1 {
        assert(flags.take(k) =~= f);
    } else {
        assert(flags.take(k) =~= f.take(k));
        lemma_class_index(f, v, k);
        lemma_part_lengths(f.take(k), v.take(k));
    }
}

/// Splitting a logical object into its class and instance records and reading
/// it back from the two gives every field the value it had before the split.
pub proof fn lemma_split_round_trip<T>(flags: Seq<bool>, vals: Seq<T>)
    requires
        flags.len() == vals.len(),
    ensures
        rebuilt(flags, class_part(flags, vals), instance_part(flags, vals)) == vals,
{
    assert forall|k: int| 0 <= k < flags.len() implies #[trigger] rebuilt(
        flags,
        class_part(flags, vals),
        instance_part(flags, vals),
    )[k] == vals[k] by {
        lemma_class_index(flags, vals, k);
    }
    assert(rebuilt(flags, class_part(flags, vals), instance_part(flags, vals)) =~= vals);
}

impl ObjectLayout {
    /// The static flag of each field.
    pub open spec fn flags(&self) -> Seq<bool> {
        self.fields@.map_values(|f: FieldDecl| f.is_static)
    }

    pub fn static_flags(&self) -> (r: Vec<bool>)
        ensures
            r@ == self.flags(),
    {
        let mut r: Vec<bool> = Vec::new();
        let mut i: usize = 0;
        while i < self.fields.len()
            invariant
                i <= self.fields@.len(),
                r@ == self.flags().take(i as int),
            decreases self.fields@.len() - i,
        {
            r.push(self.fields[i].is_static);
            i += 1;
            assert(r@ =~= self.flags().take(i as int));
        }
        assert(r@ =~= self.flags());
        r
    }

    /// The positions of the static fields: the class record's fields.
    pub fn class_fields(&self) -> (r: Vec<usize>)
        ensures
            r@ == class_part(self.flags(), Seq::new(self.fields@.len(), |i: int| i as usize)),
    {
        let flags = self.static_flags();
        let (c, _) = split_values(&flags, positions(flags.len()));
        c
    }

    /// The positions of the other fields: the instance record's fields.
    pub fn instance_fields(&self) -> (r: Vec<usize>)
        ensures
            r@ == instance_part(self.flags(), Seq::new(self.fields@.len(), |i: int| i as usize)),
    {
        let flags = self.static_flags();
        let (_, n) = split_values(&flags, positions(flags.len()));
        n
    }

    /// For each field, where the logical object reads it back from.
    pub fn field_sources(&self) -> (r: Vec<FieldSource>)
        ensures
            r@.len() == self.fields@.len(),
            forall|k: int| 0 <= k < r@.len() ==> #[trigger] r@[k] == source_of(self.flags(), k),
    {
        let flags = self.static_flags();
        let mut r: Vec<FieldSource> = Vec::new();
        let mut ci: usize = 0;
        let mut i: usize = 0;
        while i < flags.len()
            invariant
                i <= flags@.len(),
                ci <= i,
                ci == static_count(flags@.take(i as int)),
                r@.len() == i,
                forall|k: int| 0 <= k < i ==> #[trigger] r@[k] == source_of(flags@, k),
            decreases flags@.len() - i,
        {
            assert(flags@.take(i + 1).drop_last() =~= flags@.take(i as int));
            if flags[i] {
                r.push(FieldSource::Class(ci));
                ci += 1;
            } else {
                r.push(FieldSource::Instance(i - ci));
            }
            i += 1;
        }
        r
    }
}

/// The positions `0 .. n`.
fn positions(n: usize) -> (r: Vec<usize>)
    ensures
        r@ == Seq::new(n as nat, |i: int| i as usize),
{
    let mut r: Vec<usize> = Vec::new();
    let mut i: usize = 0;
    while i < n
        invariant
            i <= n,
            r@ == Seq::new(i as nat, |k: int| k as usize),
        decreases n - i,
    {
        r.push(i);
        i += 1;
        assert(r@ =~= Seq::new(i as nat, |k: int| k as usize));
    }
    r
}

/// Moves the values of a logical object's fields into its class record (the
/// static fields) and its instance record (the others), each in field order.
pub fn split_values<T>(flags: &Vec<bool>, values: Vec<T>) -> (r: (Vec<T>, Vec<T>))
    requires
        flags@.len() == values@.len(),
    ensures
        r.0@ == class_part(flags@, values@),
        r.1@ == instance_part(flags@, values@),
{
    let ghost orig = values@;
    let mut values = values;
    let mut class: Vec<T> = Vec::new();
    let mut inst: Vec<T> = Vec::new();
    let mut i: usize = 0;
    while values.len() > 0
        invariant
            flags@.len() == orig.len(),
            flags@.len() == flags.len(),
            i + values@.len() == orig.len(),
            values@ == orig.subrange(i as int, orig.len() as int),
            class@ == class_part(flags@.take(i as int), orig.take(i as int)),
            inst@ == instance_part(flags@.take(i as int), orig.take(i as int)),
        decreases values@.len(),
    {
        let v = values.remove(0);
        assert(flags@.take(i + 1).drop_last() =~= flags@.take(i as int));
        assert(orig.take(i + 1).drop_last() =~= orig.take(i as int));
        if flags[i] {
            class.push(v);
        } else {
            inst.push(v);
        }
        i += 1;
        assert(values@ =~= orig.subrange(i as int, orig.len() as int));
    }
    assert(flags@.take(i as int) =~= flags@);
    assert(orig.take(i as int) =~= orig);
    (class, inst)
}

/// Reads a logical object's fields back from its class and instance records,
/// cloning each from the record that holds it.
pub fn rebuild_values<T: Clone>(flags: &Vec<bool>, class: &Vec<T>, inst: &Vec<T>) -> (r: Vec<T>)
    requires
        class@.len() == static_count(flags@),
        inst@.len() + static_count(flags@) == flags@.len(),
    ensures
        r@.len() == flags@.len(),
        forall|k: int|
            0 <= k < r@.len() ==> cloned(rebuilt(flags@, class@, inst@)[k], #[trigger] r@[k]),
{
    let mut r: Vec<T> = Vec::new();
    let mut ci: usize = 0;
    let mut i: usize = 0;
    while i < flags.len()
        invariant
            i <= flags@.len(),
            class@.len() == static_count(flags@),
            inst@.len() + static_count(flags@) == flags@.len(),
            ci == static_count(flags@.take(i as int)),
            ci <= i,
            r@.len() == i,
            forall|k: int|
                0 <= k < i ==> cloned(rebuilt(flags@, class@, inst@)[k], #[trigger] r@[k]),
        decreases flags@.len() - i,
    {
        assert(flags@.take(i + 1).drop_last() =~= flags@.take(i as int));
        proof {
            lemma_count_prefix(flags@, i + 1);
        }
        if flags[i] {
            r.push(class[ci].clone());
            ci += 1;
        } else {
            r.push(inst[i - ci].clone());
        }
        i += 1;
    }
    r
}

proof fn lemma_count_prefix(flags: Seq<bool>, i: int)
    requires
        0 <= i <= flags.len(),
    ensures
        static_count(flags.take(i)) <= static_count(flags),
        i - static_count(flags.take(i)) <= flags.len() - static_count(flags),
    decreases flags.len(),
{
    if i < flags.len() {
        assert(flags.drop_last().take(i) =~= flags.take(i));
        lemma_count_prefix(flags.drop_last(), i);
    } else {
        assert(flags.take(i) =~= flags);
    }
}

} // verus!

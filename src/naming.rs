use vstd::prelude::*;
use vstd::string::StringExecFns;
use crate::types::TypePath;

verus! {

broadcast use vstd::std_specs::vec::group_vec_axioms;

/// Name of the class record type generated for a logical type.
pub open spec fn class_name_of(name: Seq<char>) -> Seq<char> {
    name + "Class"@
}

/// Name of the instance record type generated for a logical type.
pub open spec fn instance_name_of(name: Seq<char>) -> Seq<char> {
    name + "Instance"@
}

/// Name of the combined view type generated for a logical type.
pub open spec fn wrapper_name_of(name: Seq<char>) -> Seq<char> {
    name + "Wrapper"@
}

/// `prefix` followed by `name`.
pub open spec fn prefixed(prefix: Seq<char>, name: Seq<char>) -> Seq<char> {
    prefix + name
}

/// `name` with every underscore turned into a slash.
pub open spec fn slashes_for_underscores(name: Seq<char>) -> Seq<char> {
    Seq::new(name.len(), |i: int| if name[i] == '_' { '/' } else { name[i] })
}

/// `r` is `orig` with its last segment followed by `suffix`, the others kept.
pub open spec fn renamed_last(orig: Seq<String>, r: Seq<String>, suffix: Seq<char>) -> bool {
    &&& orig.len() > 0
    &&& r.len() == orig.len()
    &&& forall|i: int| 0 <= i < orig.len() - 1 ==> #[trigger] r[i] == orig[i]
    &&& r.last()@ == orig.last()@ + suffix
}

fn suffixed(name: &str, suffix: &str) -> (r: String)
    ensures
        r@ == name@ + suffix@,
{
    String::from_str(name).concat(suffix)
}

/// Name of the class record type for `name`.
pub fn generate_class_type_name(name: &str) -> (r: String)
    ensures
        r@ == class_name_of(name@),
{
    suffixed(name, "Class")
}

/// Name of the instance record type for `name`.
pub fn generate_instance_type_name(name: &str) -> (r: String)
    ensures
        r@ == instance_name_of(name@),
{
    suffixed(name, "Instance")
}

/// Name of the combined view type for `name`.
pub fn generate_wrapper_type_name(name: &str) -> (r: String)
    ensures
        r@ == wrapper_name_of(name@),
{
    suffixed(name, "Wrapper")
}

/// `prefix` followed by `name`, as a new string.
pub fn prefixed_name(prefix: &str, name: &str) -> (r: String)
    ensures
        r@ == prefixed(prefix@, name@),
{
    String::from_str(prefix).concat(name)
}

/// The segments of `segs`, with `suffix` appended to the last one.
pub fn rename_last_segment(segs: &Vec<String>, suffix: &str) -> (r: Vec<String>)
    requires
        segs@.len() > 0,
    ensures
        renamed_last(segs@, r@, suffix@),
{
    let mut r: Vec<String> = Vec::new();
    let last = segs.len() - 1;
    let mut i: usize = 0;
    while i < last
        invariant
            last == segs@.len() - 1,
            i <= last,
            r@ == segs@.subrange(0, i as int),
        decreases last - i,
    {
        r.push(segs[i].clone());
        i += 1;
        assert(r@ =~= segs@.subrange(0, i as int));
    }
    r.push(suffixed(segs[last].as_str(), suffix));
    r
}

/// The class record type that corresponds to the path type `tp`.
pub fn generate_class_type(tp: TypePath) -> (r: TypePath)
    requires
        tp.segments@.len() > 0,
    ensures
        renamed_last(tp.segments@, r.segments@, "Class"@),
        r.angle == tp.angle,
        r.args == tp.args,
{
    let segments = rename_last_segment(&tp.segments, "Class");
    TypePath { segments, angle: tp.angle, args: tp.args }
}

/// The instance record type that corresponds to the path type `tp`.
pub fn generate_instance_type(tp: TypePath) -> (r: TypePath)
    requires
        tp.segments@.len() > 0,
    ensures
        renamed_last(tp.segments@, r.segments@, "Instance"@),
        r.angle == tp.angle,
        r.args == tp.args,
{
    let segments = rename_last_segment(&tp.segments, "Instance");
    TypePath { segments, angle: tp.angle, args: tp.args }
}

/// Relies on `str::replace`: every occurrence of the pattern `"_"` is replaced
/// by `"/"`, and nothing else changes.
#[verifier::external_body]
fn replace_underscores(name: &str) -> (r: String)
    ensures
        r@ == slashes_for_underscores(name@),
{
    name.replace("_", "/")
}

/// The script-side module path for a module declared as `name`.
pub fn module_name(name: &str) -> (r: String)
    ensures
        r@ == slashes_for_underscores(name@),
{
    replace_underscores(name)
}

} // verus!

use vstd::prelude::*;

verus! {

/// A `name`/`value` pair, as manifests use for labels, annotations and
/// environment variables.
pub struct NameValue {
    pub name: String,
    pub value: String,
}

impl Clone for NameValue {
    fn clone(&self) -> (r: Self)
        ensures
            r == *self,
    {
        NameValue { name: self.name.clone(), value: self.value.clone() }
    }
}

/// A name/value pair as two strings of characters.
pub struct NameValueView {
    pub name: Seq<char>,
    pub value: Seq<char>,
}

impl DeepView for NameValue {
    type V = NameValueView;

    open spec fn deep_view(&self) -> NameValueView {
        NameValueView { name: self.name@, value: self.value@ }
    }
}

impl NameValue {
    pub fn new(name: String, value: String) -> (r: NameValue)
        ensures
            r.name == name,
            r.value == value,
    {
        NameValue { name, value }
    }
}

/// The items of an optional list, or nothing: a clone of `*v` when it is there,
/// an empty vector when it is not.
pub fn vec_or_empty<T: Clone>(v: Option<&Vec<T>>) -> (r: Vec<T>)
    ensures
        v is None ==> r@.len() == 0,
        v matches Some(a) ==> r@.len() == a@.len() && forall|i: int|
            0 <= i < a@.len() ==> cloned::<T>(a@[i], #[trigger] r@[i]),
{
    if let Some(a) = v {
        return (*a).clone();
    }
    Vec::new()
}

/// Clones of name/value pairs are the pairs themselves.
pub proof fn lemma_name_values_cloned(a: Seq<NameValue>, r: Seq<NameValue>)
    requires
        a.len() == r.len(),
        forall|i: int| 0 <= i < a.len() ==> cloned::<NameValue>(a[i], #[trigger] r[i]),
    ensures
        r == a,
{
    assert forall|i: int| 0 <= i < a.len() implies r[i] == a[i] by {
        if !(a[i] == r[i]) {
            assert(cloned::<NameValue>(a[i], r[i]));
        }
    }
    assert(r =~= a);
}

/// Every clone of a `T` has the same deep view as the original.
pub open spec fn clone_keeps_deep_view<T: Clone + DeepView>() -> bool {
    forall|x: T, y: T| #[trigger] cloned::<T>(x, y) ==> x.deep_view() == y.deep_view()
}

/// A clone of a vector whose items clone faithfully.
pub fn clone_vec<T: Clone + DeepView>(v: &Vec<T>) -> (r: Vec<T>)
    requires
        clone_keeps_deep_view::<T>(),
    ensures
        r.deep_view() == v.deep_view(),
{
    let r = v.clone();
    assert(r.deep_view() =~= v.deep_view()) by {
        assert forall|i: int| 0 <= i < v@.len() implies #[trigger] r@[i].deep_view() == v@[i].deep_view() by {
            assert(cloned::<T>(v@[i], r@[i]));
        }
    }
    r
}

/// A clone of an optional vector whose items clone faithfully.
pub fn clone_opt_vec<T: Clone + DeepView>(v: &Option<Vec<T>>) -> (r: Option<Vec<T>>)
    requires
        clone_keeps_deep_view::<T>(),
    ensures
        r.deep_view() == v.deep_view(),
{
    match v {
        Some(x) => Some(clone_vec(x)),
        None => None,
    }
}

pub proof fn lemma_string_clone_keeps_deep_view()
    ensures
        clone_keeps_deep_view::<String>(),
{
}

pub proof fn lemma_name_value_clone_keeps_deep_view()
    ensures
        clone_keeps_deep_view::<NameValue>(),
{
}

} // verus!

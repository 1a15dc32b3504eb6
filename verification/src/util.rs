use vstd::prelude::*;
use vstd::std_specs::iter::IteratorSpec;

verus! {

broadcast use vstd::string::group_string_axioms;

/// Pushing onto a vector pushes the element's model onto the vector's model.
pub proof fn lemma_vec_dv_push<T: DeepView>(v1: Vec<T>, v2: Vec<T>, x: T)
    requires
        v2@ == v1@.push(x),
    ensures
        v2.deep_view() =~= v1.deep_view().push(x.deep_view()),
{
}

/// What `convert_case` turns a string into under its upper-camel conversion.
/// The result depends on the characters alone.
pub uninterp spec fn upper_camel_of(s: Seq<char>) -> Seq<char>;

/// Relies on convert_case's `Casing::to_case` with `Case::UpperCamel`:
/// a pure recasing of the input, a function of its characters alone.
#[verifier::external_body]
pub fn to_upper_camel(s: &str) -> (r: String)
    ensures
        r@ == upper_camel_of(s@),
{
    convert_case::Casing::to_case(&s, convert_case::Case::UpperCamel)
}

/// Relies on `String::push`: appends exactly the given character.
#[verifier::external_body]
pub fn push_char(s: &mut String, c: char)
    ensures
        final(s)@ == old(s)@.push(c),
{
    s.push(c);
}

/// Collect the characters of a string slice into a vector.
pub fn chars_of(s: &str) -> (r: Vec<char>)
    ensures
        r@ == s@,
{
    let mut it = s.chars();
    let mut r: Vec<char> = Vec::new();
    let ghost total = s@;
    proof {
        assert(it.remaining() =~= total);
    }
    loop
        invariant
            it.obeys_prophetic_iter_laws(),
            it.decrease() is Some,
            r@ + it.remaining() =~= total,
        ensures
            r@ == total,
        decreases it.decrease()->0,
    {
        let ghost before = it.remaining();
        match it.next() {
            Some(c) => {
                proof {
                    assert(before.len() > 0);
                }
                r.push(c);
                proof {
                    assert(r@ + it.remaining() =~= total);
                }
            },
            None => {
                proof {
                    assert(before.len() == 0);
                    assert(r@ =~= total);
                }
                break ;
            },
        }
    }
    r
}

/// Compare a `String` with a string slice by their characters.
pub fn str_is(a: &String, b: &str) -> (r: bool)
    ensures
        r == (a@ == b@),
{
    let bo: String = b.to_owned();
    *a == bo
}

/// Whether a sequence of names holds the given name.
pub open spec fn seq_has_name(names: Seq<Seq<char>>, name: Seq<char>) -> bool {
    exists|i: int| 0 <= i < names.len() && names[i] == name
}

/// Whether a vector of strings holds the given string.
pub fn names_contain(names: &Vec<String>, name: &String) -> (r: bool)
    ensures
        r == seq_has_name(names.deep_view(), name@),
{
    let mut k: usize = 0;
    while k < names.len()
        invariant
            k <= names.len(),
            forall|i: int| 0 <= i < k ==> names.deep_view()[i] != name@,
        decreases names.len() - k,
    {
        if names[k] == *name {
            assert(names.deep_view()[k as int] == name@);
            return true;
        }
        k = k + 1;
    }
    false
}

} // verus!

verus! {

/// Concatenation of sequences is associative.
pub broadcast proof fn lemma_seq_concat_assoc<A>(a: Seq<A>, b: Seq<A>, c: Seq<A>)
    ensures
        #[trigger] ((a + b) + c) == a + (b + c),
{
    assert((a + b) + c =~= a + (b + c));
}

/// The empty sequence is the unit of concatenation.
pub broadcast proof fn lemma_seq_empty_concat<A>(s: Seq<A>)
    ensures
        #[trigger] (Seq::<A>::empty() + s) == s,
        #[trigger] (s + Seq::<A>::empty()) == s,
{
    assert(Seq::<A>::empty() + s =~= s);
    assert(s + Seq::<A>::empty() =~= s);
}

/// Pushing one element is concatenation with its singleton.
pub broadcast proof fn lemma_seq_push_is_concat<A>(s: Seq<A>, e: A)
    ensures
        #[trigger] s.push(e) == s + seq![e],
{
    assert(s.push(e) =~= s + seq![e]);
}

/// Inserting at the front prepends the element's model to the vector's model.
pub proof fn lemma_vec_dv_cons<T: DeepView>(v1: Vec<T>, v2: Vec<T>, x: T)
    requires
        v2@ == v1@.insert(0, x),
    ensures
        v2.deep_view() =~= seq![x.deep_view()] + v1.deep_view(),
{
    assert forall|i: int| 0 <= i < v2.deep_view().len() implies v2.deep_view()[i] == (seq![
        x.deep_view(),
    ] + v1.deep_view())[i] by {
        if i == 0 {
            assert(v2@[0] == x);
        } else {
            assert(v2@[i] == v1@[i - 1]);
        }
    }
}

} // verus!

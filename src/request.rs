//! The description of one HTTP exchange, as the library hands it to a transport.

use vstd::prelude::*;

verus! {

/// The HTTP methods the service is called with.
#[derive(Clone, Copy, Debug, PartialEq, Eq, Structural)]
pub enum Method {
    Get,
    Post,
    Put,
}

/// One request, complete: a transport sends it as it stands.
///
/// `headers`, `query` and `form` are name/value pairs in the order they are
/// to be sent. A `form` of `None` means the request carries no body; `Some`
/// means a URL-encoded form body.
#[derive(Debug)]
pub struct ApiRequest {
    pub method: Method,
    pub url: String,
    pub headers: Vec<(String, String)>,
    pub query: Vec<(String, String)>,
    pub form: Option<Vec<(String, String)>>,
}

/// The name/value pairs `v` seen as character sequences.
pub open spec fn pairs_of(v: Vec<(String, String)>) -> Seq<(Seq<char>, Seq<char>)> {
    v.deep_view()
}

/// `v` without the pairs whose name is `key`, the others kept in order.
pub open spec fn without_key(v: Seq<(Seq<char>, Seq<char>)>, key: Seq<char>) -> Seq<
    (Seq<char>, Seq<char>),
>
    decreases v.len(),
{
    if v.len() == 0 {
        v
    } else if v.last().0 == key {
        without_key(v.drop_last(), key)
    } else {
        without_key(v.drop_last(), key).push(v.last())
    }
}

/// No pair of `without_key(v, key)` is named `key`.
pub proof fn lemma_without_key_omits(v: Seq<(Seq<char>, Seq<char>)>, key: Seq<char>)
    ensures
        forall|i: int|
            0 <= i < without_key(v, key).len() ==> (#[trigger] without_key(v, key)[i]).0 != key,
    decreases v.len(),
{
    if v.len() > 0 {
        lemma_without_key_omits(v.drop_last(), key);
        let w = without_key(v.drop_last(), key);
        if v.last().0 != key {
            assert forall|i: int| 0 <= i < w.push(v.last()).len() implies (#[trigger] w.push(
                v.last(),
            )[i]).0 != key by {
                if i < w.len() {
                    assert(w.push(v.last())[i] == w[i]);
                }
            }
        }
    }
}

/// A name/value pair made of two strings.
pub fn pair(name: &str, value: &str) -> (r: (String, String))
    ensures
        r.0@ == name@,
        r.1@ == value@,
{
    (name.to_owned(), value.to_owned())
}

/// Appends to `out` the pairs of `v` whose name differs from `skip`, if one
/// is given, in order.
pub fn append_pairs(out: &mut Vec<(String, String)>, v: &Vec<(String, String)>, skip: Option<&String>)
    ensures
        pairs_of(*final(out)) == pairs_of(*old(out)) + match skip {
            Some(k) => without_key(pairs_of(*v), k@),
            None => pairs_of(*v),
        },
{
    let ghost start = pairs_of(*out);
    let ghost whole = pairs_of(*v);
    let mut i: usize = 0;
    while i < v.len()
        invariant
            i <= v.len(),
            whole == pairs_of(*v),
            pairs_of(*out) == start + match skip {
                Some(k) => without_key(whole.subrange(0, i as int), k@),
                None => whole.subrange(0, i as int),
            },
        decreases v.len() - i,
    {
        let ghost before = pairs_of(*out);
        let name = v[i].0.clone();
        let value = v[i].1.clone();
        let keep = match skip {
            Some(k) => !(name == *k),
            None => true,
        };
        proof {
            assert(whole.subrange(0, i + 1).drop_last() =~= whole.subrange(0, i as int));
            assert(whole.subrange(0, i + 1).last() == whole[i as int]);
        }
        if keep {
            out.push((name, value));
            assert(pairs_of(*out) =~= before.push(whole[i as int]));
        }
        i = i + 1;
    }
    assert(whole.subrange(0, v.len() as int) =~= whole);
}

} // verus!

verus! {

/// A status code of the success class.
pub open spec fn success_status(status: u16) -> bool {
    200 <= status <= 299
}

/// Whether `status` is of the success class, 200 to 299.
pub fn is_success(status: u16) -> (r: bool)
    ensures
        r == success_status(status),
{
    200 <= status && status <= 299
}

} // verus!

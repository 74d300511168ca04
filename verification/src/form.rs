//! Form-encoded request bodies: percent-encoding of parameter values and
//! the scope string handed to the standard grants.

use vstd::prelude::*;
use crate::wire::str_bytes;
use crate::wire::push_str_bytes;
use crate::wire::push_bytes;

verus! {

pub uninterp spec fn spec_url_encode(b: Seq<u8>) -> Seq<u8>;

/// Relies on urlencoding's `encode_binary`: percent-encoding is a function
/// of the input bytes alone (every byte except alphanumerics and `-`, `_`,
/// `.`, `~` is percent-encoded).
#[verifier::external_body]
pub(crate) fn url_encode(b: &Vec<u8>) -> (r: Vec<u8>)
    ensures
        r@ == spec_url_encode(b@),
{
    urlencoding::encode_binary(b.as_slice()).into_owned().into_bytes()
}

/// The caller-supplied scopes, each preceded by a single space, in the
/// caller's order, duplicates kept.
pub open spec fn spec_scopes_tail(scopes: Seq<Seq<char>>) -> Seq<u8>
    decreases scopes.len(),
{
    if scopes.len() == 0 {
        Seq::empty()
    } else {
        str_bytes(" "@) + str_bytes(scopes[0]) + spec_scopes_tail(scopes.drop_first())
    }
}

/// The transmitted scope value: the fixed baseline scopes followed by every
/// caller scope, space-separated, in order, with no duplicate removed.
pub open spec fn spec_scopes_joined(scopes: Seq<Seq<char>>) -> Seq<u8> {
    str_bytes("openid profile offline_access"@) + spec_scopes_tail(scopes)
}

proof fn lemma_scopes_tail_push(scopes: Seq<Seq<char>>, x: Seq<char>)
    ensures
        spec_scopes_tail(scopes.push(x)) == spec_scopes_tail(scopes) + (str_bytes(" "@)
            + str_bytes(x)),
    decreases scopes.len(),
{
    if scopes.len() == 0 {
        assert(scopes.push(x).drop_first() =~= scopes);
        assert(scopes.push(x)[0] == x);
        assert(spec_scopes_tail(scopes.push(x)) =~= spec_scopes_tail(scopes) + (str_bytes(" "@)
            + str_bytes(x)));
    } else {
        assert(scopes.push(x).drop_first() =~= scopes.drop_first().push(x));
        lemma_scopes_tail_push(scopes.drop_first(), x);
        assert(spec_scopes_tail(scopes.push(x)) =~= spec_scopes_tail(scopes) + (str_bytes(" "@)
            + str_bytes(x)));
    }
}

/// The views of a vector of strings.
pub open spec fn views_of(scopes: Seq<String>) -> Seq<Seq<char>> {
    scopes.map_values(|s: String| s@)
}

/// Builds the scope value: the baseline `openid profile offline_access`
/// followed by the caller's scopes, space-separated, order and duplicates
/// kept exactly.
pub fn build_scopes(scopes: &Vec<String>) -> (r: Vec<u8>)
    ensures
        r@ == spec_scopes_joined(views_of(scopes@)),
{
    let mut out: Vec<u8> = Vec::new();
    push_str_bytes(&mut out, "openid profile offline_access");
    let n = scopes.len();
    let mut k: usize = 0;
    while k < n
        invariant
            0 <= k <= n == scopes@.len(),
            out@ == spec_scopes_joined(views_of(scopes@.take(k as int))),
        decreases n - k,
    {
        proof {
            assert(views_of(scopes@.take(k as int)) =~= views_of(scopes@).take(k as int));
        }
        push_str_bytes(&mut out, " ");
        push_str_bytes(&mut out, scopes[k].as_str());
        k += 1;
        proof {
            let prev = views_of(scopes@).take(k - 1);
            lemma_scopes_tail_push(prev, scopes@[k - 1]@);
            assert(prev.push(scopes@[k - 1]@) =~= views_of(scopes@).take(k as int));
            assert(views_of(scopes@.take(k as int)) =~= views_of(scopes@).take(k as int));
            assert(out@ =~= spec_scopes_joined(views_of(scopes@.take(k as int))));
        }
    }
    proof {
        assert(scopes@.take(n as int) =~= scopes@);
    }
    out
}

/// Appends `key=` followed by the percent-encoded value.
pub fn push_encoded_field(out: &mut Vec<u8>, key_eq: &str, value: &Vec<u8>)
    ensures
        final(out)@ == old(out)@ + str_bytes(key_eq@) + spec_url_encode(value@),
{
    push_str_bytes(out, key_eq);
    let enc = url_encode(value);
    push_bytes(out, &enc);
}

} // verus!

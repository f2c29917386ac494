//! The one scheme that the connector serves, and the test for it.

use vstd::prelude::*;
use vstd::string::StringSliceAdditionalSpecFns;
use vstd::utf8::encode_utf8_decode_utf8;

verus! {

/// The scheme that is served: plain `http`.
pub open spec fn http() -> Seq<char> {
    "http"@
}

/// The four letters of [`http`].
pub proof fn lemma_http_letters()
    ensures
        http() =~= seq!['h', 't', 't', 'p'],
{
    reveal_strlit("http");
}

/// Whether two strings hold the same text.
///
/// The strings are compared byte by byte. Equal bytes decode to equal
/// characters, so the answer is exact for the characters too.
pub fn same_text(left: &str, right: &str) -> (same: bool)
    ensures
        same == (left@ == right@),
{
    let l = left.as_bytes();
    let r = right.as_bytes();
    if l.len() != r.len() {
        return false;
    }
    let mut i: usize = 0;
    while i < l.len()
        invariant
            i <= l.len(),
            l.len() == r.len(),
            l@ == left.spec_bytes(),
            r@ == right.spec_bytes(),
            forall|j: int| 0 <= j < i ==> l@[j] == r@[j],
        decreases l.len() - i,
    {
        if l[i] != r[i] {
            return false;
        }
        i += 1;
    }
    proof {
        assert(l@ =~= r@);
        encode_utf8_decode_utf8(left@);
        encode_utf8_decode_utf8(right@);
    }
    true
}

/// Whether `scheme` is the scheme that the connector serves. The comparison
/// is exact: case and surrounding space count.
pub fn is_http(scheme: &str) -> (served: bool)
    ensures
        served == (scheme@ == http()),
{
    same_text(scheme, "http")
}

} // verus!

//! The two release feeds the tool can query: every release (usually
//! experimental builds) or the latest stable release, each behind its own
//! fixed endpoint address.

use vstd::prelude::*;
use vstd::string::StringSliceAdditionalSpecFns;
use vstd::utf8::encode_utf8;

verus! {

/// Which release feed to query.
#[derive(Clone, Copy, PartialEq, Eq, Structural, Debug)]
pub enum ReleaseType {
    Stable,
    Experimental,
}

/// The endpoint address of each feed: all releases for the experimental
/// feed, the latest release for the stable one.
pub open spec fn spec_endpoint_url(t: ReleaseType) -> Seq<char> {
    match t {
        ReleaseType::Experimental => "https://api.github.com/repos/CleverRaven/Cataclysm-DDA/releases"@,
        ReleaseType::Stable => "https://api.github.com/repos/CleverRaven/Cataclysm-DDA/releases/latest"@,
    }
}

/// The endpoint address to fetch for the chosen feed.
pub fn endpoint_url(t: ReleaseType) -> (r: &'static str)
    ensures
        r@ == spec_endpoint_url(t),
{
    match t {
        ReleaseType::Experimental => "https://api.github.com/repos/CleverRaven/Cataclysm-DDA/releases",
        ReleaseType::Stable => "https://api.github.com/repos/CleverRaven/Cataclysm-DDA/releases/latest",
    }
}

/// The two feeds are queried at two distinct addresses.
pub proof fn lemma_endpoints_distinct()
    ensures
        spec_endpoint_url(ReleaseType::Stable) != spec_endpoint_url(ReleaseType::Experimental),
{
    reveal_strlit("https://api.github.com/repos/CleverRaven/Cataclysm-DDA/releases");
    reveal_strlit("https://api.github.com/repos/CleverRaven/Cataclysm-DDA/releases/latest");
    assert(spec_endpoint_url(ReleaseType::Stable).len() != spec_endpoint_url(
        ReleaseType::Experimental,
    ).len());
}

fn str_eq(a: &str, b: &str) -> (r: bool)
    ensures
        r == (a@ == b@),
{
    broadcast use vstd::utf8::encode_utf8_decode_utf8;

    let ab = a.as_bytes();
    let bb = b.as_bytes();
    if ab.len() != bb.len() {
        proof {
            assert(encode_utf8(a@).len() != encode_utf8(b@).len());
        }
        return false;
    }
    let n = ab.len();
    let mut i: usize = 0;
    while i < n
        invariant
            i <= n,
            n == ab@.len() == bb@.len(),
            ab@ == encode_utf8(a@),
            bb@ == encode_utf8(b@),
            forall|t: int| 0 <= t < i ==> ab@[t] == bb@[t],
        decreases n - i,
    {
        if ab[i] != bb[i] {
            proof {
                assert(encode_utf8(a@) != encode_utf8(b@));
            }
            return false;
        }
        i = i + 1;
    }
    proof {
        assert(encode_utf8(a@) =~= encode_utf8(b@));
        vstd::utf8::encode_utf8_decode_utf8(a@);
        vstd::utf8::encode_utf8_decode_utf8(b@);
        assert(a@ == b@);
    }
    true
}

/// Reads a feed name from the command line: exactly `stable` and
/// `experimental` are accepted.
pub fn parse_release_type(s: &str) -> (r: Option<ReleaseType>)
    ensures
        (s@ == "stable"@ ==> r == Some(ReleaseType::Stable)),
        (s@ == "experimental"@ ==> r == Some(ReleaseType::Experimental)),
        (s@ != "stable"@ && s@ != "experimental"@ ==> r is None),
{
    proof {
        reveal_strlit("stable");
        reveal_strlit("experimental");
        assert("stable"@.len() != "experimental"@.len());
    }
    if str_eq(s, "stable") {
        Some(ReleaseType::Stable)
    } else if str_eq(s, "experimental") {
        Some(ReleaseType::Experimental)
    } else {
        None
    }
}

} // verus!

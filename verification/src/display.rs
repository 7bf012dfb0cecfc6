//! The plain-text listing of decoded releases: one block per release
//! that has at least one asset, the release's name and web page first,
//! then one line per asset with its name, size in bytes, and direct
//! download address. Releases without assets are left out entirely.

use vstd::prelude::*;
use vstd::string::StringExecFns;

use crate::models::Asset;
use crate::models::Release;
use crate::text::decimal;
use crate::text::u64_to_string;

verus! {

/// The listing line for one asset.
pub open spec fn asset_line(a: Asset) -> Seq<char> {
    "  "@ + a.name@ + " ("@ + decimal(a.size as nat) + "): "@ + a.browser_download_url@ + "\n"@
}

/// The listing lines for the assets of `assets` from index `i` on.
pub open spec fn asset_lines_from(assets: Seq<Asset>, i: int) -> Seq<char>
    decreases assets.len() - i,
{
    if i < 0 || i >= assets.len() {
        Seq::empty()
    } else {
        asset_line(assets[i]) + asset_lines_from(assets, i + 1)
    }
}

/// The listing block for one release: nothing at all when it has no
/// assets, else a heading line followed by its asset lines.
pub open spec fn release_block(r: Release) -> Seq<char> {
    if r.assets@.len() == 0 {
        Seq::empty()
    } else {
        r.name@ + ": "@ + r.html_url@ + "\n"@ + asset_lines_from(r.assets@, 0)
    }
}

/// The listing blocks for the releases of `rs` from index `i` on.
pub open spec fn listing_from(rs: Seq<Release>, i: int) -> Seq<char>
    decreases rs.len() - i,
{
    if i < 0 || i >= rs.len() {
        Seq::empty()
    } else {
        release_block(rs[i]) + listing_from(rs, i + 1)
    }
}

/// The whole listing of `rs`, in the order given.
pub open spec fn listing(rs: Seq<Release>) -> Seq<char> {
    listing_from(rs, 0)
}

fn render_asset(a: &Asset, out: &mut String)
    ensures
        final(out)@ == old(out)@ + asset_line(*a),
{
    out.append("  ");
    out.append(a.name.as_str());
    out.append(" (");
    let size_s = u64_to_string(a.size);
    out.append(size_s.as_str());
    out.append("): ");
    out.append(a.browser_download_url.as_str());
    out.append("\n");
    proof {
        assert(out@ =~= old(out)@ + asset_line(*a));
    }
}

fn render_release(r: &Release, out: &mut String)
    ensures
        final(out)@ == old(out)@ + release_block(*r),
{
    if r.assets.len() == 0 {
        proof {
            assert(out@ =~= old(out)@ + release_block(*r));
        }
        return ;
    }
    out.append(r.name.as_str());
    out.append(": ");
    out.append(r.html_url.as_str());
    out.append("\n");
    let mut k: usize = 0;
    while k < r.assets.len()
        invariant
            k <= r.assets@.len(),
            r.assets@.len() > 0,
            out@ + asset_lines_from(r.assets@, k as int) =~= old(out)@ + release_block(*r),
        decreases r.assets@.len() - k,
    {
        render_asset(&r.assets[k], out);
        proof {
            assert(asset_lines_from(r.assets@, k as int) == asset_line(r.assets@[k as int])
                + asset_lines_from(r.assets@, k + 1));
        }
        k = k + 1;
    }
    proof {
        assert(asset_lines_from(r.assets@, r.assets@.len() as int) == Seq::<char>::empty());
        assert(out@ =~= old(out)@ + release_block(*r));
    }
}

/// Renders the listing of `releases`: the blocks of the releases that
/// have assets, in the order given, and nothing else.
pub fn render_releases(releases: &Vec<Release>) -> (r: String)
    ensures
        r@ == listing(releases@),
{
    let mut out = String::new();
    let mut i: usize = 0;
    while i < releases.len()
        invariant
            i <= releases@.len(),
            out@ + listing_from(releases@, i as int) =~= listing(releases@),
        decreases releases@.len() - i,
    {
        render_release(&releases[i], &mut out);
        i = i + 1;
    }
    proof {
        assert(listing_from(releases@, releases@.len() as int) == Seq::<char>::empty());
        assert(out@ =~= listing(releases@));
    }
    out
}

} // verus!

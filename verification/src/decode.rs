//! The decoder from a parsed JSON tree to typed release records. Every
//! required member must be present with the right shape; unknown members
//! are ignored; a missing `assets` member is an empty asset list, never a
//! failure. On the first offending member, decoding stops with a message
//! that names it.

use vstd::prelude::*;
use vstd::string::StringExecFns;

use crate::diagnose::DecodeError;
use crate::json::ErrorClass;
use crate::json::Json;
use crate::json::error_class_of;
use crate::json::json_doc_of;
use crate::json::parse_json;
use crate::models::Asset;
use crate::models::Release;
use crate::models::Timestamp;
use crate::models::rfc3339_epoch;
use crate::text::decimal;
use crate::text::u64_to_string;

verus! {

/// The first member of `fields` at or after `i` whose key reads `key`.
pub open spec fn member_from(fields: Seq<(String, Json)>, key: Seq<char>, i: int) -> Option<
    Json,
>
    decreases fields.len() - i,
{
    if i < 0 || i >= fields.len() {
        None
    } else if fields[i].0@ == key {
        Some(fields[i].1)
    } else {
        member_from(fields, key, i + 1)
    }
}

/// The first member of `fields` whose key reads `key`.
pub open spec fn member(fields: Seq<(String, Json)>, key: Seq<char>) -> Option<Json> {
    member_from(fields, key, 0)
}

/// The text of member `key`, when it is present and is a string.
pub open spec fn str_member(fields: Seq<(String, Json)>, key: Seq<char>) -> Option<Seq<char>> {
    match member(fields, key) {
        Some(Json::Str(s)) => Some(s@),
        _ => None,
    }
}

/// The value of member `key`, when it is present and is an unsigned
/// 64-bit integer.
pub open spec fn u64_member(fields: Seq<(String, Json)>, key: Seq<char>) -> Option<u64> {
    match member(fields, key) {
        Some(Json::UInt(u)) => Some(u),
        _ => None,
    }
}

/// The timestamp of member `key`, when it is present, is a string, and
/// that string is an RFC 3339 date-time.
pub open spec fn time_member(fields: Seq<(String, Json)>, key: Seq<char>) -> Option<i64> {
    match str_member(fields, key) {
        Some(s) => rfc3339_epoch(s),
        None => None,
    }
}

/// Whether `j` is an object with every member an asset needs.
pub open spec fn asset_wf(j: Json) -> bool {
    &&& j matches Json::Obj(fs)
    &&& str_member(fs@, "browser_download_url"@) is Some
    &&& str_member(fs@, "name"@) is Some
    &&& str_member(fs@, "label"@) is Some
    &&& u64_member(fs@, "size"@) is Some
    &&& time_member(fs@, "created_at"@) is Some
    &&& time_member(fs@, "updated_at"@) is Some
}

/// Whether `a` holds exactly the member values of the asset object `j`.
pub open spec fn asset_matches(a: Asset, j: Json) -> bool {
    &&& j matches Json::Obj(fs)
    &&& Some(a.browser_download_url@) == str_member(fs@, "browser_download_url"@)
    &&& Some(a.name@) == str_member(fs@, "name"@)
    &&& Some(a.label@) == str_member(fs@, "label"@)
    &&& Some(a.size) == u64_member(fs@, "size"@)
    &&& Some(a.created_at.epoch_seconds) == time_member(fs@, "created_at"@)
    &&& Some(a.updated_at.epoch_seconds) == time_member(fs@, "updated_at"@)
}

/// The name of the first missing or mistyped member of an asset object,
/// in declaration order; meaningful only when the object is not
/// well-formed.
pub open spec fn asset_fault_field(fs: Seq<(String, Json)>) -> Seq<char> {
    if str_member(fs, "browser_download_url"@) is None {
        "browser_download_url"@
    } else if str_member(fs, "name"@) is None {
        "name"@
    } else if str_member(fs, "label"@) is None {
        "label"@
    } else if u64_member(fs, "size"@) is None {
        "size"@
    } else if time_member(fs, "created_at"@) is None {
        "created_at"@
    } else {
        "updated_at"@
    }
}

/// The complaint about a member named `name`.
pub open spec fn field_fault(name: Seq<char>) -> Seq<char> {
    "missing or mistyped field `"@ + name + "`"@
}

/// The decoder's complaint about an asset value that is not well-formed.
pub open spec fn asset_fault(j: Json) -> Seq<char> {
    match j {
        Json::Obj(fs) => field_fault(asset_fault_field(fs@)),
        _ => "not an object"@,
    }
}

/// Whether the `assets` member of a release object is acceptable: absent,
/// or an array of well-formed asset objects.
pub open spec fn assets_member_wf(fs: Seq<(String, Json)>) -> bool {
    match member(fs, "assets"@) {
        None => true,
        Some(Json::Arr(items)) => forall|i: int|
            0 <= i < items@.len() ==> asset_wf(#[trigger] items@[i]),
        Some(_) => false,
    }
}

/// The asset objects of a release object: the elements of its `assets`
/// member, or nothing when that member is absent.
pub open spec fn spec_assets(fs: Seq<(String, Json)>) -> Seq<Json> {
    match member(fs, "assets"@) {
        Some(Json::Arr(items)) => items@,
        _ => Seq::empty(),
    }
}

/// Whether `j` is an object with every member a release needs. The
/// `assets` member alone may be absent.
pub open spec fn release_wf(j: Json) -> bool {
    &&& j matches Json::Obj(fs)
    &&& str_member(fs@, "html_url"@) is Some
    &&& u64_member(fs@, "id"@) is Some
    &&& str_member(fs@, "name"@) is Some
    &&& str_member(fs@, "body"@) is Some
    &&& time_member(fs@, "created_at"@) is Some
    &&& time_member(fs@, "published_at"@) is Some
    &&& assets_member_wf(fs@)
}

/// Whether `r` holds exactly the member values of the release object `j`,
/// its assets in source order.
pub open spec fn release_matches(r: Release, j: Json) -> bool {
    &&& j matches Json::Obj(fs)
    &&& Some(r.html_url@) == str_member(fs@, "html_url"@)
    &&& Some(r.id) == u64_member(fs@, "id"@)
    &&& Some(r.name@) == str_member(fs@, "name"@)
    &&& Some(r.body@) == str_member(fs@, "body"@)
    &&& Some(r.created_at.epoch_seconds) == time_member(fs@, "created_at"@)
    &&& Some(r.published_at.epoch_seconds) == time_member(fs@, "published_at"@)
    &&& r.assets@.len() == spec_assets(fs@).len()
    &&& forall|i: int|
        0 <= i < r.assets@.len() ==> asset_matches(#[trigger] r.assets@[i], spec_assets(fs@)[i])
}

/// The index of the first element of `items` at or after `i` that is not
/// a well-formed asset object.
pub open spec fn first_bad_asset_from(items: Seq<Json>, i: int) -> int
    decreases items.len() - i,
{
    if i < 0 || i >= items.len() {
        i
    } else if !asset_wf(items[i]) {
        i
    } else {
        first_bad_asset_from(items, i + 1)
    }
}

/// The decoder's complaint about a release value that is not well-formed.
pub open spec fn release_fault(j: Json) -> Seq<char> {
    match j {
        Json::Obj(fs) => if str_member(fs@, "html_url"@) is None {
            field_fault("html_url"@)
        } else if u64_member(fs@, "id"@) is None {
            field_fault("id"@)
        } else if str_member(fs@, "name"@) is None {
            field_fault("name"@)
        } else if str_member(fs@, "body"@) is None {
            field_fault("body"@)
        } else if time_member(fs@, "created_at"@) is None {
            field_fault("created_at"@)
        } else if time_member(fs@, "published_at"@) is None {
            field_fault("published_at"@)
        } else {
            match member(fs@, "assets"@) {
                Some(Json::Arr(items)) => {
                    let k = first_bad_asset_from(items@, 0);
                    "asset "@ + decimal(k as nat) + ": "@ + asset_fault(items@[k])
                },
                _ => field_fault("assets"@),
            }
        },
        _ => "not an object"@,
    }
}

/// Whether `j` is an array of well-formed release objects.
pub open spec fn releases_wf(j: Json) -> bool {
    &&& j matches Json::Arr(elems)
    &&& forall|i: int| 0 <= i < elems@.len() ==> release_wf(#[trigger] elems@[i])
}

/// Whether `v` holds exactly the releases of the array `j`, in source
/// order.
pub open spec fn releases_match(v: Seq<Release>, j: Json) -> bool {
    &&& j matches Json::Arr(elems)
    &&& v.len() == elems@.len()
    &&& forall|i: int| 0 <= i < v.len() ==> release_matches(#[trigger] v[i], elems@[i])
}

/// The index of the first element of `elems` at or after `i` that is not
/// a well-formed release object.
pub open spec fn first_bad_release_from(elems: Seq<Json>, i: int) -> int
    decreases elems.len() - i,
{
    if i < 0 || i >= elems.len() {
        i
    } else if !release_wf(elems[i]) {
        i
    } else {
        first_bad_release_from(elems, i + 1)
    }
}

/// The decoder's complaint about a document that is not a well-formed
/// release feed.
pub open spec fn feed_fault(j: Json) -> Seq<char> {
    match j {
        Json::Arr(elems) => {
            let k = first_bad_release_from(elems@, 0);
            "element "@ + decimal(k as nat) + ": "@ + release_fault(elems@[k])
        },
        _ => "the document is not an array"@,
    }
}

/// The whole semantic diagnostic for a well-formed JSON document that is
/// not a release feed.
pub open spec fn shape_message(j: Json) -> Seq<char> {
    "Unable to parse release data due to semantically invalid JSON data when attempting to extract Release: "@
        + feed_fault(j)
}

proof fn lemma_first_bad_asset_from(items: Seq<Json>, j: int, k: int)
    requires
        0 <= j <= k < items.len(),
        forall|t: int| j <= t < k ==> asset_wf(#[trigger] items[t]),
        !asset_wf(items[k]),
    ensures
        first_bad_asset_from(items, j) == k,
    decreases k - j,
{
    if j < k {
        lemma_first_bad_asset_from(items, j + 1, k);
    }
}

proof fn lemma_first_bad_release_from(elems: Seq<Json>, j: int, k: int)
    requires
        0 <= j <= k < elems.len(),
        forall|t: int| j <= t < k ==> release_wf(#[trigger] elems[t]),
        !release_wf(elems[k]),
    ensures
        first_bad_release_from(elems, j) == k,
    decreases k - j,
{
    if j < k {
        lemma_first_bad_release_from(elems, j + 1, k);
    }
}

/// Looks `key` up among the members of an object, first occurrence wins.
fn get_member<'a>(fields: &'a Vec<(String, Json)>, key: &str) -> (r: Option<&'a Json>)
    ensures
        (match r {
            Some(j) => member(fields@, key@) == Some(*j),
            None => member(fields@, key@) is None,
        }),
{
    let key_s = key.to_owned();
    let mut i: usize = 0;
    while i < fields.len()
        invariant
            i <= fields.len(),
            key_s@ == key@,
            member_from(fields@, key@, 0) == member_from(fields@, key@, i as int),
        decreases fields.len() - i,
    {
        if fields[i].0.eq(&key_s) {
            return Some(&fields[i].1);
        }
        i = i + 1;
    }
    None
}

fn get_str(fields: &Vec<(String, Json)>, key: &str) -> (r: Option<String>)
    ensures
        (match r {
            Some(s) => str_member(fields@, key@) == Some(s@),
            None => str_member(fields@, key@) is None,
        }),
{
    match get_member(fields, key) {
        Some(j) => match j {
            Json::Str(s) => Some(s.clone()),
            _ => None,
        },
        None => None,
    }
}

fn get_u64(fields: &Vec<(String, Json)>, key: &str) -> (r: Option<u64>)
    ensures
        (match r {
            Some(u) => u64_member(fields@, key@) == Some(u),
            None => u64_member(fields@, key@) is None,
        }),
{
    match get_member(fields, key) {
        Some(j) => match j {
            Json::UInt(u) => Some(*u),
            _ => None,
        },
        None => None,
    }
}

fn get_time(fields: &Vec<(String, Json)>, key: &str) -> (r: Option<Timestamp>)
    ensures
        (match r {
            Some(t) => time_member(fields@, key@) == Some(t.epoch_seconds),
            None => time_member(fields@, key@) is None,
        }),
{
    match get_str(fields, key) {
        Some(s) => Timestamp::parse(s.as_str()),
        None => None,
    }
}

fn field_fault_msg(key: &str) -> (r: String)
    ensures
        r@ == field_fault(key@),
{
    let mut m = "missing or mistyped field `".to_owned();
    m.append(key);
    m.append("`");
    m
}

/// Decodes one asset object.
pub fn decode_asset(j: &Json) -> (r: Result<Asset, String>)
    ensures
        r is Ok <==> asset_wf(*j),
        (r matches Ok(a) ==> asset_matches(a, *j)),
        (r matches Err(m) ==> m@ == asset_fault(*j)),
{
    match j {
        Json::Obj(fields) => {
            let browser_download_url = match get_str(fields, "browser_download_url") {
                Some(s) => s,
                None => {
                    return Err(field_fault_msg("browser_download_url"));
                },
            };
            let name = match get_str(fields, "name") {
                Some(s) => s,
                None => {
                    return Err(field_fault_msg("name"));
                },
            };
            let label = match get_str(fields, "label") {
                Some(s) => s,
                None => {
                    return Err(field_fault_msg("label"));
                },
            };
            let size = match get_u64(fields, "size") {
                Some(u) => u,
                None => {
                    return Err(field_fault_msg("size"));
                },
            };
            let created_at = match get_time(fields, "created_at") {
                Some(t) => t,
                None => {
                    return Err(field_fault_msg("created_at"));
                },
            };
            let updated_at = match get_time(fields, "updated_at") {
                Some(t) => t,
                None => {
                    return Err(field_fault_msg("updated_at"));
                },
            };
            Ok(Asset { browser_download_url, name, label, size, created_at, updated_at })
        },
        _ => Err("not an object".to_owned()),
    }
}

/// Decodes one release object. A missing `assets` member yields an empty
/// asset list.
pub fn decode_release(j: &Json) -> (r: Result<Release, String>)
    ensures
        r is Ok <==> release_wf(*j),
        (r matches Ok(rel) ==> release_matches(rel, *j)),
        (r matches Err(m) ==> m@ == release_fault(*j)),
{
    match j {
        Json::Obj(fields) => {
            let html_url = match get_str(fields, "html_url") {
                Some(s) => s,
                None => {
                    return Err(field_fault_msg("html_url"));
                },
            };
            let id = match get_u64(fields, "id") {
                Some(u) => u,
                None => {
                    return Err(field_fault_msg("id"));
                },
            };
            let name = match get_str(fields, "name") {
                Some(s) => s,
                None => {
                    return Err(field_fault_msg("name"));
                },
            };
            let body = match get_str(fields, "body") {
                Some(s) => s,
                None => {
                    return Err(field_fault_msg("body"));
                },
            };
            let created_at = match get_time(fields, "created_at") {
                Some(t) => t,
                None => {
                    return Err(field_fault_msg("created_at"));
                },
            };
            let published_at = match get_time(fields, "published_at") {
                Some(t) => t,
                None => {
                    return Err(field_fault_msg("published_at"));
                },
            };
            let assets: Vec<Asset> = match get_member(fields, "assets") {
                None => Vec::new(),
                Some(aj) => match aj {
                    Json::Arr(items) => {
                        let mut out: Vec<Asset> = Vec::new();
                        let mut k: usize = 0;
                        while k < items.len()
                            invariant
                                *j == Json::Obj(*fields),
                                str_member(fields@, "html_url"@) is Some,
                                u64_member(fields@, "id"@) is Some,
                                str_member(fields@, "name"@) is Some,
                                str_member(fields@, "body"@) is Some,
                                time_member(fields@, "created_at"@) is Some,
                                time_member(fields@, "published_at"@) is Some,
                                member(fields@, "assets"@) == Some(Json::Arr(*items)),
                                k <= items.len(),
                                out@.len() == k,
                                forall|t: int| 0 <= t < k ==> asset_wf(#[trigger] items@[t]),
                                forall|t: int|
                                    0 <= t < k ==> asset_matches(#[trigger] out@[t], items@[t]),
                            decreases items.len() - k,
                        {
                            match decode_asset(&items[k]) {
                                Ok(a) => out.push(a),
                                Err(am) => {
                                    proof {
                                        lemma_first_bad_asset_from(items@, 0, k as int);
                                        assert(k as u64 as nat == k as nat);
                                    }
                                    let mut m = "asset ".to_owned();
                                    let ks = u64_to_string(k as u64);
                                    m.append(ks.as_str());
                                    m.append(": ");
                                    m.append(am.as_str());
                                    proof {
                                        assert(m@ =~= release_fault(*j));
                                    }
                                    return Err(m);
                                },
                            }
                            k = k + 1;
                        }
                        out
                    },
                    _ => {
                        return Err(field_fault_msg("assets"));
                    },
                },
            };
            Ok(Release { html_url, id, name, body, created_at, published_at, assets })
        },
        _ => Err("not an object".to_owned()),
    }
}

/// Decodes a JSON document into the ordered list of its releases.
pub fn decode_releases(j: &Json) -> (r: Result<Vec<Release>, String>)
    ensures
        r is Ok <==> releases_wf(*j),
        (r matches Ok(v) ==> releases_match(v@, *j)),
        (r matches Err(m) ==> m@ == feed_fault(*j)),
{
    match j {
        Json::Arr(elems) => {
            let mut out: Vec<Release> = Vec::new();
            let mut i: usize = 0;
            while i < elems.len()
                invariant
                    *j == Json::Arr(*elems),
                    i <= elems.len(),
                    out@.len() == i,
                    forall|t: int| 0 <= t < i ==> release_wf(#[trigger] elems@[t]),
                    forall|t: int| 0 <= t < i ==> release_matches(#[trigger] out@[t], elems@[t]),
                decreases elems.len() - i,
            {
                match decode_release(&elems[i]) {
                    Ok(rel) => out.push(rel),
                    Err(rm) => {
                        proof {
                            lemma_first_bad_release_from(elems@, 0, i as int);
                            assert(i as u64 as nat == i as nat);
                        }
                        let mut m = "element ".to_owned();
                        let is = u64_to_string(i as u64);
                        m.append(is.as_str());
                        m.append(": ");
                        m.append(rm.as_str());
                        proof {
                            assert(m@ =~= feed_fault(*j));
                        }
                        return Err(m);
                    },
                }
                i = i + 1;
            }
            Ok(out)
        },
        _ => Err("the document is not an array".to_owned()),
    }
}

/// Decodes the raw bytes of a release-feed response. Bytes that are not
/// well-formed JSON give the parser's own error back unchanged; a
/// well-formed document of the wrong shape gives the semantic diagnostic.
pub fn decode_release_feed(bytes: &[u8]) -> (r: Result<Vec<Release>, DecodeError>)
    ensures
        (json_doc_of(bytes@) is None ==> (r matches Err(e) && e matches DecodeError::Malformed(
            se,
        ) && error_class_of(se) != ErrorClass::Data)),
        (json_doc_of(bytes@) matches Some(doc) ==> (if releases_wf(doc) {
            r matches Ok(v) && releases_match(v@, doc)
        } else {
            r matches Err(e) && e matches DecodeError::Semantic(m) && m@ == shape_message(doc)
        })),
{
    match parse_json(bytes) {
        Err(e) => Err(DecodeError::Malformed(e)),
        Ok(doc) => match decode_releases(&doc) {
            Ok(v) => Ok(v),
            Err(fault) => {
                let mut m =
                    "Unable to parse release data due to semantically invalid JSON data when attempting to extract Release: ".to_owned();
                m.append(fault.as_str());
                proof {
                    assert(m@ =~= shape_message(doc));
                }
                Err(DecodeError::Semantic(m))
            },
        },
    }
}

/// The whole semantic diagnostic for a well-formed JSON document that is
/// not a single release object.
pub open spec fn object_shape_message(j: Json) -> Seq<char> {
    "Unable to parse release data due to semantically invalid JSON data when attempting to extract Release: "@
        + release_fault(j)
}

/// Decodes the raw bytes of a single release object, the shape the
/// latest-stable endpoint answers with. Failures are classified as in
/// [`decode_release_feed`].
pub fn decode_release_object(bytes: &[u8]) -> (r: Result<Release, DecodeError>)
    ensures
        (json_doc_of(bytes@) is None ==> (r matches Err(e) && e matches DecodeError::Malformed(
            se,
        ) && error_class_of(se) != ErrorClass::Data)),
        (json_doc_of(bytes@) matches Some(doc) ==> (if release_wf(doc) {
            r matches Ok(rel) && release_matches(rel, doc)
        } else {
            r matches Err(e) && e matches DecodeError::Semantic(m) && m@ == object_shape_message(
                doc,
            )
        })),
{
    match parse_json(bytes) {
        Err(e) => Err(DecodeError::Malformed(e)),
        Ok(doc) => match decode_release(&doc) {
            Ok(rel) => Ok(rel),
            Err(fault) => {
                let mut m =
                    "Unable to parse release data due to semantically invalid JSON data when attempting to extract Release: ".to_owned();
                m.append(fault.as_str());
                proof {
                    assert(m@ =~= object_shape_message(doc));
                }
                Err(DecodeError::Semantic(m))
            },
        },
    }
}

/// A release object whose required members are all present is decoded
/// successfully even when its `assets` member is absent: the missing
/// member is never a failure.
pub proof fn lemma_absent_assets_not_a_failure(fs: Vec<(String, Json)>)
    requires
        str_member(fs@, "html_url"@) is Some,
        u64_member(fs@, "id"@) is Some,
        str_member(fs@, "name"@) is Some,
        str_member(fs@, "body"@) is Some,
        time_member(fs@, "created_at"@) is Some,
        time_member(fs@, "published_at"@) is Some,
        member(fs@, "assets"@) is None,
    ensures
        release_wf(Json::Obj(fs)),
{
}

/// A release object with no `assets` member decodes to the same, empty,
/// asset list as one whose `assets` member is an empty array: either way
/// the decoded release holds no assets, and neither shape is a failure.
pub proof fn lemma_missing_assets_empty(rel: Release, j: Json, fs: Vec<(String, Json)>)
    requires
        j == Json::Obj(fs),
        release_matches(rel, j),
        (match member(fs@, "assets"@) {
            None => true,
            Some(Json::Arr(items)) => items@.len() == 0,
            Some(_) => false,
        }),
    ensures
        rel.assets@.len() == 0,
{
    assert(spec_assets(fs@).len() == 0);
}

} // verus!

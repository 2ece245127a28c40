//! Deciding a single-resource request: the width and device target are
//! checked, the category resolved and the path guarded before the storage
//! key is built.

use vstd::prelude::*;
use crate::models::device::{DeviceConfig, DeviceTarget, target_named, target_parse_result};
use crate::models::resources::{ResourceCategory, ResourceQuery, category_named, category_parse_result, prefix_of};
use crate::services::storage::is_traversal;
use crate::text::{concat2, contains_str, lowercased, string_of};

verus! {

broadcast use vstd::string::group_string_axioms;

/// The widest image a request may ask for, in pixels.
pub const MAX_WIDTH: u32 = 4000;

/// A request answered without fetching anything: its HTTP status and body.
#[derive(Debug)]
pub struct Rejection {
    pub status: u16,
    pub message: String,
}

/// What a valid single-resource request fetches, and how it is processed.
#[derive(Debug)]
pub struct ResourcePlan {
    pub key: String,
    pub config: DeviceConfig,
}

/// A requested width is served when it lies in `1..=MAX_WIDTH`.
pub open spec fn width_accepted(w: u32) -> bool {
    1 <= w && w <= MAX_WIDTH
}

/// The storage key of `path` inside category `c`: the category prefix, `/`,
/// then the path.
pub open spec fn resource_key_of(c: ResourceCategory, path: Seq<char>) -> Seq<char> {
    prefix_of(c) + "/"@ + path
}

/// The decision for a single-resource request: either the key to fetch and
/// the processing configuration, or the status and message it is refused
/// with. Checks run in this order: width, device target, category, path.
pub open spec fn resource_decision(
    category: Seq<char>,
    file_path: Seq<char>,
    width: Option<u32>,
    target: Option<Seq<char>>,
) -> Result<(Seq<char>, DeviceConfig), (u16, Seq<char>)> {
    let w = match width { Some(w) => w, None => 0u32 };
    let t = match target { Some(t) => t, None => "desktop"@ };
    if !width_accepted(w) {
        Err((400u16, "Width must be between 1 and 4000"@))
    } else {
        match target_parse_result(lowercased(t), t) {
            Err(e) => Err((400u16, e)),
            Ok(device) => match category_parse_result(lowercased(category), category) {
                Err(e) => Err((400u16, "Invalid category: "@ + e)),
                Ok(c) => if is_traversal(file_path) {
                    Err((400u16, "Invalid path"@))
                } else {
                    Ok((resource_key_of(c, file_path), DeviceConfig { target: device, width: w, height: 0 }))
                },
            },
        }
    }
}

/// Views an optional `String` as optional characters.
pub open spec fn opt_string_chars(o: Option<String>) -> Option<Seq<char>> {
    match o {
        Some(s) => Some(s@),
        None => None,
    }
}

/// Views a plan or rejection by its abstract values.
pub open spec fn plan_view(r: Result<ResourcePlan, Rejection>) -> Result<(Seq<char>, DeviceConfig), (u16, Seq<char>)> {
    match r {
        Ok(p) => Ok((p.key@, p.config)),
        Err(j) => Err((j.status, j.message@)),
    }
}

/// The storage key of `path` inside `category`.
pub fn resource_key(category: ResourceCategory, path: &str) -> (k: String)
    ensures
        k@ == resource_key_of(category, path@),
{
    let mut k = string_of(category.s3_prefix());
    k.append("/");
    k.append(path);
    k
}

/// Decides a single-resource request from its path segments and query.
pub fn plan_resource_request(category: &str, file_path: &str, query: &ResourceQuery) -> (r: Result<ResourcePlan, Rejection>)
    ensures
        plan_view(r) == resource_decision(category@, file_path@, query.width, opt_string_chars(query.target)),
{
    let width = match query.width {
        Some(w) => w,
        None => 0,
    };
    let target_str = match &query.target {
        Some(t) => string_of(t.as_str()),
        None => string_of("desktop"),
    };
    if width == 0 || width > MAX_WIDTH {
        return Err(Rejection { status: 400, message: string_of("Width must be between 1 and 4000") });
    }
    let device = match DeviceTarget::parse(target_str.as_str()) {
        Ok(t) => t,
        Err(e) => return Err(Rejection { status: 400, message: e }),
    };
    let config = DeviceConfig { target: device, width, height: 0 };
    let cat = match ResourceCategory::parse(category) {
        Ok(c) => c,
        Err(e) => return Err(Rejection { status: 400, message: concat2("Invalid category: ", e.as_str()) }),
    };
    if contains_str(file_path, "..") {
        return Err(Rejection { status: 400, message: string_of("Invalid path") });
    }
    let key = resource_key(cat, file_path);
    Ok(ResourcePlan { key, config })
}

/// A width outside `1..=MAX_WIDTH` (or a missing one) is refused with 400
/// before anything else is looked at.
pub proof fn law_width_cap(category: Seq<char>, file_path: Seq<char>, width: Option<u32>, target: Option<Seq<char>>)
    requires
        !width_accepted(match width { Some(w) => w, None => 0u32 }),
    ensures
        resource_decision(category, file_path, width, target) == Err::<(Seq<char>, DeviceConfig), (u16, Seq<char>)>(
            (400u16, "Width must be between 1 and 4000"@)),
{
}

/// A path that climbs out of its directory is never fetched: such a request
/// is refused with 400.
pub proof fn law_traversal_refused(category: Seq<char>, file_path: Seq<char>, width: Option<u32>, target: Option<Seq<char>>)
    requires
        is_traversal(file_path),
    ensures
        resource_decision(category, file_path, width, target) matches Err((status, _)) && status == 400,
{
}

/// No prefix holds a `.`, so the key of a path without `..` holds no `..`.
pub proof fn lemma_key_of_safe_path_is_safe(c: ResourceCategory, path: Seq<char>)
    requires
        !is_traversal(path),
    ensures
        !is_traversal(resource_key_of(c, path)),
{
    reveal_strlit("icons");
    reveal_strlit("images_tags");
    reveal_strlit("images_temporaires");
    reveal_strlit("logos");
    reveal_strlit("utils");
    reveal_strlit("data/images");
    reveal_strlit("/");
    reveal_strlit("..");
    let head = prefix_of(c) + "/"@;
    let key = resource_key_of(c, path);
    assert(key == head + path);
    assert forall|j: int| 0 <= j < head.len() implies head[j] != '.' by {}
    assert forall|i: int| !crate::text::occurs_at(key, ".."@, i) by {
        if crate::text::occurs_at(key, ".."@, i) {
            assert(key.subrange(i, i + 2)[0] == '.');
            assert(key.subrange(i, i + 2)[1] == '.');
            assert(key[i] == '.');
            assert(key[i + 1] == '.');
            if i < head.len() {
                assert(key[i] == head[i]);
            } else {
                let k = i - head.len();
                assert(key[i] == path[k]);
                assert(key[i + 1] == path[k + 1]);
                assert(path.subrange(k, k + 2) =~= ".."@);
                assert(crate::text::occurs_at(path, ".."@, k));
            }
        }
    }
}

/// Every key a single-resource request is answered from passes the storage
/// guard against directory traversal.
pub proof fn law_planned_keys_pass_storage_guard(category: Seq<char>, file_path: Seq<char>, width: Option<u32>, target: Option<Seq<char>>)
    ensures
        resource_decision(category, file_path, width, target) matches Ok((key, _)) ==> !is_traversal(key),
{
    if let Ok(c) = category_parse_result(lowercased(category), category) {
        if !is_traversal(file_path) {
            lemma_key_of_safe_path_is_safe(c, file_path);
        }
    }
}


/// A request with a width in `1..=MAX_WIDTH`, a known device target (the
/// name `desktop` when none is given), a known category and a path that does not climb
/// out of its directory is served: the key is the category's prefix, `/`,
/// then the path, and the image is prepared for that device at exactly the
/// requested width, with the height left free.
pub proof fn law_valid_request_is_planned(
    category: Seq<char>,
    file_path: Seq<char>,
    w: u32,
    target: Option<Seq<char>>,
    device: DeviceTarget,
    c: ResourceCategory,
)
    requires
        1 <= w <= 4000,
        target_named(lowercased(match target { Some(t) => t, None => "desktop"@ })) == Some(device),
        category_named(lowercased(category)) == Some(c),
        !is_traversal(file_path),
    ensures
        resource_decision(category, file_path, Some(w), target) == Ok::<(Seq<char>, DeviceConfig), (u16, Seq<char>)>(
            (prefix_of(c) + "/"@ + file_path, DeviceConfig { target: device, width: w, height: 0 })),
{
}

/// Whatever else a served request holds, it is prepared at exactly the
/// requested width and with the height left free.
pub proof fn law_served_width_is_requested_width(category: Seq<char>, file_path: Seq<char>, w: u32, target: Option<Seq<char>>)
    ensures
        resource_decision(category, file_path, Some(w), target) matches Ok((_, cfg)) ==> cfg.width == w && cfg.height == 0,
{
}

} // verus!

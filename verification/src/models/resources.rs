//! Resource categories and the shapes of single and batch requests.

use vstd::prelude::*;
use crate::models::device::DeviceConfig;
use crate::text::{all_ascii, ascii_lowercase, lowercased, str_eq, to_lowercase, concat2};

verus! {

/// The resource categories the service serves, each stored under its own prefix.
#[derive(Clone, Copy, Debug, PartialEq, Eq, Structural)]
pub enum ResourceCategory {
    Icons,
    ImagesTags,
    ImagesTemporaires,
    Logos,
    Utils,
    Images,
}

/// The storage prefix of each category.
pub open spec fn prefix_of(c: ResourceCategory) -> Seq<char> {
    match c {
        ResourceCategory::Icons => "icons"@,
        ResourceCategory::ImagesTags => "images_tags"@,
        ResourceCategory::ImagesTemporaires => "images_temporaires"@,
        ResourceCategory::Logos => "logos"@,
        ResourceCategory::Utils => "utils"@,
        ResourceCategory::Images => "data/images"@,
    }
}

/// The category named by an already lower-cased name, if any.
pub open spec fn category_named(lower: Seq<char>) -> Option<ResourceCategory> {
    if lower == "icons"@ {
        Some(ResourceCategory::Icons)
    } else if lower == "images_tags"@ {
        Some(ResourceCategory::ImagesTags)
    } else if lower == "images_temporaires"@ {
        Some(ResourceCategory::ImagesTemporaires)
    } else if lower == "logos"@ {
        Some(ResourceCategory::Logos)
    } else if lower == "utils"@ {
        Some(ResourceCategory::Utils)
    } else if lower == "images"@ {
        Some(ResourceCategory::Images)
    } else {
        None
    }
}

/// The message of a rejected category name.
pub open spec fn unknown_category_message(original: Seq<char>) -> Seq<char> {
    "Unknown resource category: "@ + original
}

/// What parsing gives for a name whose lower-cased form is `lower`.
pub open spec fn category_parse_result(lower: Seq<char>, original: Seq<char>) -> Result<ResourceCategory, Seq<char>> {
    match category_named(lower) {
        Some(c) => Ok(c),
        None => Err(unknown_category_message(original)),
    }
}

/// Views a parse result with `String` errors as one with character sequences.
pub open spec fn category_result_view(r: Result<ResourceCategory, String>) -> Result<ResourceCategory, Seq<char>> {
    match r {
        Ok(c) => Ok(c),
        Err(e) => Err(e@),
    }
}

impl ResourceCategory {
    /// The storage prefix for this category.
    pub fn s3_prefix(&self) -> (p: &'static str)
        ensures
            p@ == prefix_of(*self),
    {
        match self {
            ResourceCategory::Icons => "icons",
            ResourceCategory::ImagesTags => "images_tags",
            ResourceCategory::ImagesTemporaires => "images_temporaires",
            ResourceCategory::Logos => "logos",
            ResourceCategory::Utils => "utils",
            ResourceCategory::Images => "data/images",
        }
    }

    /// Decides the category from the lower-cased name `lower`; an unknown name
    /// is rejected with a message that quotes `original`.
    pub fn from_lowercase(lower: &str, original: &str) -> (r: Result<ResourceCategory, String>)
        ensures
            category_result_view(r) == category_parse_result(lower@, original@),
    {
        proof {
            reveal_strlit("icons");
            reveal_strlit("images_tags");
            reveal_strlit("images_temporaires");
            reveal_strlit("logos");
            reveal_strlit("utils");
            reveal_strlit("images");
        }
        if str_eq(lower, "icons") {
            Ok(ResourceCategory::Icons)
        } else if str_eq(lower, "images_tags") {
            Ok(ResourceCategory::ImagesTags)
        } else if str_eq(lower, "images_temporaires") {
            Ok(ResourceCategory::ImagesTemporaires)
        } else if str_eq(lower, "logos") {
            Ok(ResourceCategory::Logos)
        } else if str_eq(lower, "utils") {
            Ok(ResourceCategory::Utils)
        } else if str_eq(lower, "images") {
            Ok(ResourceCategory::Images)
        } else {
            Err(concat2("Unknown resource category: ", original))
        }
    }

    /// Parses a category name, ignoring case (`"icons"`, `"Images"`, ...).
    pub fn parse(s: &str) -> (r: Result<ResourceCategory, String>)
        ensures
            category_result_view(r) == category_parse_result(lowercased(s@), s@),
            all_ascii(s@) ==> category_result_view(r) == category_parse_result(ascii_lowercase(s@), s@),
    {
        let lower = to_lowercase(s);
        Self::from_lowercase(lower.as_str(), s)
    }
}

impl core::str::FromStr for ResourceCategory {
    type Err = String;

    fn from_str(s: &str) -> (r: Result<Self, Self::Err>)
        ensures
            category_result_view(r) == category_parse_result(lowercased(s@), s@),
            all_ascii(s@) ==> category_result_view(r) == category_parse_result(ascii_lowercase(s@), s@),
    {
        Self::parse(s)
    }
}

/// One entry of a batch request: a category and a path inside it.
#[derive(Clone, Debug)]
pub struct BatchResourceItem {
    pub category: String,
    pub path: String,
}

/// A batch request: one display configuration for all the items.
#[derive(Debug)]
pub struct BatchResourceRequest {
    pub config: DeviceConfig,
    pub items: Vec<BatchResourceItem>,
}

/// Query parameters of a single-resource request.
#[derive(Clone, Debug)]
pub struct ResourceQuery {
    pub width: Option<u32>,
    pub target: Option<String>,
}

} // verus!

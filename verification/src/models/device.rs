//! Device targets and the display configuration a request asks for.

use vstd::prelude::*;
use crate::text::{all_ascii, ascii_lowercase, lowercased, str_eq, to_lowercase, concat2};

verus! {

/// The kind of device an image is prepared for; it fixes the encoding quality.
#[derive(Clone, Copy, Debug, PartialEq, Eq, Structural)]
pub enum DeviceTarget {
    Phone,
    Tablet,
    Desktop,
}

/// The WebP quality used for each device target.
pub open spec fn quality_for(t: DeviceTarget) -> u8 {
    match t {
        DeviceTarget::Phone => 75,
        DeviceTarget::Tablet => 80,
        DeviceTarget::Desktop => 85,
    }
}

/// The target named by an already lower-cased name, if any.
pub open spec fn target_named(lower: Seq<char>) -> Option<DeviceTarget> {
    if lower == "phone"@ {
        Some(DeviceTarget::Phone)
    } else if lower == "tablet"@ {
        Some(DeviceTarget::Tablet)
    } else if lower == "desktop"@ {
        Some(DeviceTarget::Desktop)
    } else {
        None
    }
}

/// The message of a rejected device target name.
pub open spec fn invalid_target_message(original: Seq<char>) -> Seq<char> {
    "Invalid device target: "@ + original
}

/// What parsing gives for a name whose lower-cased form is `lower`.
pub open spec fn target_parse_result(lower: Seq<char>, original: Seq<char>) -> Result<DeviceTarget, Seq<char>> {
    match target_named(lower) {
        Some(t) => Ok(t),
        None => Err(invalid_target_message(original)),
    }
}

/// Views a parse result with `String` errors as one with character sequences.
pub open spec fn target_result_view(r: Result<DeviceTarget, String>) -> Result<DeviceTarget, Seq<char>> {
    match r {
        Ok(t) => Ok(t),
        Err(e) => Err(e@),
    }
}

impl DeviceTarget {
    /// Quality decided server-side: phones 75, tablets 80, desktops 85.
    pub fn default_quality(&self) -> (q: u8)
        ensures
            q == quality_for(*self),
    {
        match self {
            DeviceTarget::Phone => 75,
            DeviceTarget::Tablet => 80,
            DeviceTarget::Desktop => 85,
        }
    }

    /// Decides the target from the lower-cased name `lower`; an unknown name
    /// is rejected with a message that quotes `original`.
    pub fn from_lowercase(lower: &str, original: &str) -> (r: Result<DeviceTarget, String>)
        ensures
            target_result_view(r) == target_parse_result(lower@, original@),
    {
        proof {
            reveal_strlit("phone");
            reveal_strlit("tablet");
            reveal_strlit("desktop");
        }
        if str_eq(lower, "phone") {
            Ok(DeviceTarget::Phone)
        } else if str_eq(lower, "tablet") {
            Ok(DeviceTarget::Tablet)
        } else if str_eq(lower, "desktop") {
            Ok(DeviceTarget::Desktop)
        } else {
            Err(concat2("Invalid device target: ", original))
        }
    }

    /// Parses a device target name, ignoring case (`"Phone"`, `"TABLET"`, ...).
    pub fn parse(s: &str) -> (r: Result<DeviceTarget, String>)
        ensures
            target_result_view(r) == target_parse_result(lowercased(s@), s@),
            all_ascii(s@) ==> target_result_view(r) == target_parse_result(ascii_lowercase(s@), s@),
    {
        let lower = to_lowercase(s);
        Self::from_lowercase(lower.as_str(), s)
    }
}

impl core::default::Default for DeviceTarget {
    fn default() -> (t: Self)
        ensures
            t == DeviceTarget::Desktop,
    {
        DeviceTarget::Desktop
    }
}

impl core::str::FromStr for DeviceTarget {
    type Err = String;

    fn from_str(s: &str) -> (r: Result<Self, Self::Err>)
        ensures
            target_result_view(r) == target_parse_result(lowercased(s@), s@),
            all_ascii(s@) ==> target_result_view(r) == target_parse_result(ascii_lowercase(s@), s@),
    {
        Self::parse(s)
    }
}

/// The display a request targets. A width or height of 0 leaves that
/// dimension unconstrained.
#[derive(Clone, Copy, Debug)]
pub struct DeviceConfig {
    pub target: DeviceTarget,
    pub width: u32,
    pub height: u32,
}

impl core::default::Default for DeviceConfig {
    fn default() -> (c: Self)
        ensures
            c.target == DeviceTarget::Desktop,
            c.width == 1920,
            c.height == 1080,
    {
        DeviceConfig { target: DeviceTarget::Desktop, width: 1920, height: 1080 }
    }
}

} // verus!

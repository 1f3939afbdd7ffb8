//! Payload detection: an image listing is inspected once per job for one of
//! the two recognized installation payloads, and that single choice fixes the
//! extraction exclusion, the split destination extension and the payload path
//! for the remainder of the job.

use vstd::prelude::*;
use crate::text::contains_seq;
use crate::text::str_contains;

verus! {

/// Which installation payload the image carries.
#[derive(Clone, Copy, Debug, PartialEq, Eq, Structural)]
pub enum PayloadKind {
    Wim,
    Esd,
}

/// The listing entry that marks a WIM payload.
pub open spec fn wim_marker() -> Seq<char> {
    "sources/install.wim"@
}

/// The listing entry that marks an ESD payload.
pub open spec fn esd_marker() -> Seq<char> {
    "sources/install.esd"@
}

/// The payload a listing shows: WIM wherever its marker occurs, else ESD
/// wherever that marker occurs, else none.
pub open spec fn spec_detect(listing: Seq<char>) -> Option<PayloadKind> {
    if contains_seq(listing, wim_marker()) {
        Some(PayloadKind::Wim)
    } else if contains_seq(listing, esd_marker()) {
        Some(PayloadKind::Esd)
    } else {
        None
    }
}

/// Inspects an image listing for a recognized installation payload.
pub fn detect_payload(listing: &str) -> (r: Option<PayloadKind>)
    ensures
        r == spec_detect(listing@),
{
    if str_contains(listing, "sources/install.wim") {
        Some(PayloadKind::Wim)
    } else if str_contains(listing, "sources/install.esd") {
        Some(PayloadKind::Esd)
    } else {
        None
    }
}

/// Whether a listing shows any recognized installation payload.
pub fn is_valid_listing(listing: &str) -> (r: bool)
    ensures
        r == (spec_detect(listing@) is Some),
{
    detect_payload(listing).is_some()
}

/// What case folding turns a character sequence into; the result depends on
/// the characters alone.
pub uninterp spec fn lower_of(s: Seq<char>) -> Seq<char>;

/// Relies on str::to_lowercase: the lowercase equivalent of the string,
/// a function of its characters alone.
#[verifier::external_body]
fn lowercase(s: &str) -> (r: String)
    ensures
        r@ == lower_of(s@),
{
    s.to_lowercase()
}

/// The one-shot upfront validity check: whether the listing shows a
/// recognized payload once its case is folded, so that the markers match
/// regardless of how the image records their case.
pub fn is_valid_windows_listing(listing: &str) -> (r: bool)
    ensures
        r == (spec_detect(lower_of(listing@)) is Some),
{
    let folded = lowercase(listing);
    is_valid_listing(folded.as_str())
}

/// The extension the split parts are written under: `swm` for a WIM payload,
/// the payload's own extension for an ESD payload.
pub open spec fn spec_extension(k: PayloadKind) -> Seq<char> {
    match k {
        PayloadKind::Wim => "swm"@,
        PayloadKind::Esd => "esd"@,
    }
}

/// The split-part extension for a payload kind.
pub fn payload_extension(k: PayloadKind) -> (r: &'static str)
    ensures
        r@ == spec_extension(k),
{
    match k {
        PayloadKind::Wim => "swm",
        PayloadKind::Esd => "esd",
    }
}

/// The payload's path inside the image tree.
pub open spec fn spec_payload_path(k: PayloadKind) -> Seq<char> {
    match k {
        PayloadKind::Wim => wim_marker(),
        PayloadKind::Esd => esd_marker(),
    }
}

/// The payload's path inside the image tree.
pub fn payload_path(k: PayloadKind) -> (r: &'static str)
    ensures
        r@ == spec_payload_path(k),
{
    match k {
        PayloadKind::Wim => "sources/install.wim",
        PayloadKind::Esd => "sources/install.esd",
    }
}

/// The payload's bare file name, as handed to the bulk copy's exclusion.
pub open spec fn spec_payload_file(k: PayloadKind) -> Seq<char> {
    match k {
        PayloadKind::Wim => "install.wim"@,
        PayloadKind::Esd => "install.esd"@,
    }
}

/// The payload's bare file name.
pub fn payload_file_name(k: PayloadKind) -> (r: &'static str)
    ensures
        r@ == spec_payload_file(k),
{
    match k {
        PayloadKind::Wim => "install.wim",
        PayloadKind::Esd => "install.esd",
    }
}

/// Payload detection is a function of the listing alone: a listing showing
/// the WIM marker selects the WIM payload and the `swm` extension; one
/// showing only the ESD marker selects the ESD payload and keeps its own
/// extension; one showing neither selects nothing.
pub proof fn lemma_detection_deterministic(listing: Seq<char>)
    ensures
        contains_seq(listing, wim_marker()) ==> spec_detect(listing) == Some(PayloadKind::Wim)
            && spec_extension(PayloadKind::Wim) == "swm"@,
        !contains_seq(listing, wim_marker()) && contains_seq(listing, esd_marker())
            ==> spec_detect(listing) == Some(PayloadKind::Esd) && spec_extension(
            PayloadKind::Esd,
        ) == "esd"@,
        !contains_seq(listing, wim_marker()) && !contains_seq(listing, esd_marker())
            ==> spec_detect(listing) is None,
{
}

} // verus!

use vstd::prelude::*;

verus! {

/// One manifest entry describing a single media asset to retrieve.
///
/// `date` is the capture timestamp exactly as the manifest gives it
/// (colon-delimited), `media_type` the declared media kind, and
/// `download_link` the opaque reference that the two-stage fetch exchanges
/// for the real asset location. Records are read-only once loaded.
#[derive(Debug)]
pub struct Memory {
    pub date: String,
    pub media_type: String,
    pub download_link: String,
}

} // verus!

//! The endpoint and link URLs the pipeline uses, built from a base URL.
//!
//! The base URL is expected with no trailing slash; `text::trim_trailing_slashes`
//! prepares it.

use vstd::prelude::*;

use crate::text::{dec_str, u32_to_string};

verus! {

/// The custom-field listing endpoint.
pub fn custom_fields_url(base_url: &str) -> (r: String)
    ensures
        r@ == base_url@ + "/api/custom_fields/"@,
{
    let mut s = base_url.to_owned();
    s.append("/api/custom_fields/");
    s
}

/// The tag listing endpoint.
pub fn tags_url(base_url: &str) -> (r: String)
    ensures
        r@ == base_url@ + "/api/tags/"@,
{
    let mut s = base_url.to_owned();
    s.append("/api/tags/");
    s
}

/// The first page of the correspondent listing.
pub fn correspondents_url(base_url: &str) -> (r: String)
    ensures
        r@ == base_url@ + "/api/correspondents/"@,
{
    let mut s = base_url.to_owned();
    s.append("/api/correspondents/");
    s
}

/// The first page of the document-type listing.
pub fn document_types_url(base_url: &str) -> (r: String)
    ensures
        r@ == base_url@ + "/api/document_types/"@,
{
    let mut s = base_url.to_owned();
    s.append("/api/document_types/");
    s
}

/// The first page of the documents carrying the given tag.
pub fn documents_by_tag_url(base_url: &str, tag_id: u32) -> (r: String)
    ensures
        r@ == base_url@ + "/api/documents/?tags__id__in="@ + dec_str(tag_id as nat),
{
    let mut s = base_url.to_owned();
    s.append("/api/documents/?tags__id__in=");
    s.append(u32_to_string(tag_id).as_str());
    s
}

/// The share-link creation endpoint.
pub fn share_links_url(base_url: &str) -> (r: String)
    ensures
        r@ == base_url@ + "/api/share_links/"@,
{
    let mut s = base_url.to_owned();
    s.append("/api/share_links/");
    s
}

/// The public share URL built from a returned slug.
pub fn share_url(base_url: &str, slug: &str) -> (r: String)
    ensures
        r@ == base_url@ + "/share/"@ + slug@,
{
    let mut s = base_url.to_owned();
    s.append("/share/");
    s.append(slug);
    s
}

/// The direct link to a document in the service's own interface.
pub fn document_url(base_url: &str, document_id: u32) -> (r: String)
    ensures
        r@ == base_url@ + "/documents/"@ + dec_str(document_id as nat),
{
    let mut s = base_url.to_owned();
    s.append("/documents/");
    s.append(u32_to_string(document_id).as_str());
    s
}

} // verus!

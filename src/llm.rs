//! The language-model side: which provider, its defaults, and how a
//! document is attached to a request.

use vstd::prelude::*;

use crate::record::CachedFile;
use crate::text::{blank, is_blank, opt_view};

verus! {

/// The default API base URL of Gemini.
pub open spec fn gemini_base_url() -> Seq<char> {
    "https://generativelanguage.googleapis.com/v1beta"@
}

/// A language-model provider.
#[derive(Clone, Copy, Debug, PartialEq, Eq, Structural)]
pub enum LlmProvider {
    Gemini,
}

impl LlmProvider {
    /// The provider's default API base URL.
    pub fn default_base_url(self) -> (r: &'static str)
        ensures
            r@ == gemini_base_url(),
    {
        "https://generativelanguage.googleapis.com/v1beta"
    }

    /// The environment variables that may hold the provider's API key, in
    /// the order they are consulted.
    pub fn api_key_env_vars(self) -> (r: &'static [&'static str])
        ensures
            r@.len() == 2,
            r@[0]@ == "GOOGLE_API_KEY"@,
            r@[1]@ == "GEMINI_API_KEY"@,
    {
        &["GOOGLE_API_KEY", "GEMINI_API_KEY"]
    }
}

/// The media type of the documents this tool sends.
pub open spec fn pdf_mime() -> Seq<char> {
    "application/pdf"@
}

fn pdf_mime_type() -> (r: String)
    ensures
        r@ == pdf_mime(),
{
    "application/pdf".to_owned()
}

/// A document sent inline with a request.
#[derive(Clone, Debug)]
pub struct Attachment {
    pub mime_type: String,
    pub data: Vec<u8>,
}

impl Attachment {
    /// A PDF document with the given bytes.
    pub fn from_bytes(data: Vec<u8>) -> (r: Attachment)
        ensures
            r.mime_type@ == pdf_mime(),
            r.data@ == data@,
    {
        Attachment { mime_type: pdf_mime_type(), data }
    }
}

/// A reference to a file already uploaded to the provider.
#[derive(Clone, Debug)]
pub struct FileReference {
    pub mime_type: String,
    pub file_uri: String,
}

impl FileReference {
    /// The reference to the PDF document that `record` describes.
    pub fn for_record(record: &CachedFile) -> (r: FileReference)
        ensures
            r.mime_type@ == pdf_mime(),
            r.file_uri@ == record.uri@,
    {
        FileReference { mime_type: pdf_mime_type(), file_uri: record.uri.clone() }
    }
}

/// How a document travels with a request.
#[derive(Clone, Debug)]
pub enum AttachmentSource {
    /// Sent inline.
    Inline(Attachment),
    /// Referenced by the URI of an upload.
    FileUri(FileReference),
}

/// The first candidate key that is present and not blank.
pub open spec fn first_usable(candidates: Seq<Option<Seq<char>>>) -> Option<Seq<char>>
    decreases candidates.len(),
{
    if candidates.len() == 0 {
        None
    } else {
        match candidates[0] {
            Some(k) if !blank(k) => Some(k),
            _ => first_usable(candidates.drop_first()),
        }
    }
}

/// Picks the API key among candidates in order of precedence (the command
/// line, then the environment variables): the first one that is present and
/// not blank, if any.
pub fn first_usable_key(candidates: &Vec<Option<String>>) -> (r: Option<String>)
    ensures
        opt_view(r) == first_usable(candidates@.map_values(|c: Option<String>| opt_view(c))),
{
    let ghost views = candidates@.map_values(|c: Option<String>| opt_view(c));
    assert(views.subrange(0, views.len() as int) =~= views);
    let mut i: usize = 0;
    while i < candidates.len()
        invariant
            i <= candidates@.len(),
            views == candidates@.map_values(|c: Option<String>| opt_view(c)),
            first_usable(views) == first_usable(views.subrange(i as int, views.len() as int)),
        decreases candidates@.len() - i,
    {
        let ghost rest = views.subrange(i as int, views.len() as int);
        assert(rest[0] == opt_view(candidates@[i as int]));
        assert(rest.drop_first() =~= views.subrange(i + 1, views.len() as int));
        match &candidates[i] {
            Some(k) => {
                if !is_blank(k.as_str()) {
                    return Some(k.clone());
                }
            },
            None => {},
        }
        i = i + 1;
    }
    assert(views.subrange(i as int, views.len() as int).len() == 0);
    None
}

} // verus!

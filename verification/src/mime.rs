//! The types of contents: what a document is exported as, and what a content looks like.

use crate::text::same_text;
use mime_sniffer::MimeTypeSniffer;
use vstd::prelude::*;

verus! {

/// The type of a content of which nothing is known.
pub const OCTET_STREAM: &'static str = "application/octet-stream";

/// What a document of the drive's own kinds is exported as; any other file is taken as it is.
pub open spec fn export_type_of(mime_type: Option<Seq<char>>) -> Option<Seq<char>> {
    match mime_type {
        None => None,
        Some(t) => if t == "application/vnd.google-apps.document"@ {
            Some("application/vnd.oasis.opendocument.text"@)
        } else if t == "application/vnd.google-apps.presentation"@ {
            Some("application/vnd.oasis.opendocument.presentation"@)
        } else if t == "application/vnd.google-apps.spreadsheet"@ {
            Some("application/vnd.oasis.opendocument.spreadsheet"@)
        } else {
            None
        },
    }
}

/// What a file of the given type is exported as, if it is exported.
pub fn export_type(mime_type: &Option<String>) -> (r: Option<&'static str>)
    ensures
        match r {
            Some(t) => export_type_of(crate::text::optional_text(*mime_type)) == Some(t@),
            None => export_type_of(crate::text::optional_text(*mime_type)) is None,
        },
{
    match mime_type {
        None => None,
        Some(t) => {
            if same_text(t.as_str(), "application/vnd.google-apps.document") {
                Some("application/vnd.oasis.opendocument.text")
            } else if same_text(t.as_str(), "application/vnd.google-apps.presentation") {
                Some("application/vnd.oasis.opendocument.presentation")
            } else if same_text(t.as_str(), "application/vnd.google-apps.spreadsheet") {
                Some("application/vnd.oasis.opendocument.spreadsheet")
            } else {
                None
            }
        },
    }
}

/// The type that a content looks like by its first bytes, if it looks like any.
pub uninterp spec fn sniffed_mime_type(data: Seq<u8>) -> Option<Seq<char>>;

/// `MimeTypeSniffer::sniff_mime_type` compares the content with the beginnings of contents of
/// known types, and gives the first type that fits. What it gives depends on the content alone;
/// here it has a name, and the table of beginnings is left unsaid.
#[verifier::external_body]
pub(crate) fn sniff(data: &[u8]) -> (r: Option<String>)
    ensures
        crate::text::optional_text(r) == sniffed_mime_type(data@),
{
    match data.sniff_mime_type() {
        Some(mime_type) => Some(mime_type.to_string()),
        None => None,
    }
}

/// The type that a content is taken to have.
pub open spec fn guessed_type(sniffed: Option<Seq<char>>) -> Seq<char> {
    match sniffed {
        Some(t) => t,
        None => OCTET_STREAM@,
    }
}

/// The type that a content is taken to have.
pub fn guess_or_default(sniffed: Option<String>) -> (r: String)
    ensures
        r@ == guessed_type(crate::text::optional_text(sniffed)),
{
    match sniffed {
        Some(t) => t,
        None => OCTET_STREAM.to_owned(),
    }
}

/// Documents, presentations and spreadsheets of the drive's own kinds are exported as such of the
/// open format; a file of any other type, or of none, is not exported.
pub proof fn law_what_is_exported(mime_type: Seq<char>)
    ensures
        export_type_of(None) is None,
        mime_type == "application/vnd.google-apps.document"@ ==> export_type_of(Some(mime_type))
            == Some("application/vnd.oasis.opendocument.text"@),
        mime_type == "application/vnd.google-apps.presentation"@ ==> export_type_of(
            Some(mime_type),
        ) == Some("application/vnd.oasis.opendocument.presentation"@),
        mime_type == "application/vnd.google-apps.spreadsheet"@ ==> export_type_of(
            Some(mime_type),
        ) == Some("application/vnd.oasis.opendocument.spreadsheet"@),
        mime_type != "application/vnd.google-apps.document"@ && mime_type
            != "application/vnd.google-apps.presentation"@ && mime_type
            != "application/vnd.google-apps.spreadsheet"@ ==> export_type_of(
            Some(mime_type),
        ) is None,
{
    reveal_strlit("application/vnd.google-apps.document");
    reveal_strlit("application/vnd.google-apps.presentation");
    reveal_strlit("application/vnd.google-apps.spreadsheet");
    assert("application/vnd.google-apps.document"@.len() == 36);
    assert("application/vnd.google-apps.presentation"@.len() == 40);
    assert("application/vnd.google-apps.spreadsheet"@.len() == 39);
}

/// A type that was found out is kept as it is; only where none was found the content counts as a
/// stream of bytes.
pub proof fn law_guess(sniffed: Seq<char>)
    ensures
        guessed_type(Some(sniffed)) == sniffed,
        guessed_type(None) == "application/octet-stream"@,
        OCTET_STREAM@ == "application/octet-stream"@,
{
}

} // verus!

//! Intake of a user's upload: what is accepted for moderation, and how the
//! submitter is named.
use vstd::prelude::*;
use crate::pipeline::{mime_parts, mime_parts_of};
use crate::text::{push_char, push_text};

verus! {

/// Uploads must be smaller than this many bytes (20 MiB).
pub const MAX_FILE_SIZE: u32 = 20971520;

/// What becomes of an upload.
#[derive(Clone, Copy, Debug, PartialEq, Eq, Structural)]
pub enum IntakeDecision {
    /// An image document under the size limit: store it as pending and forward
    /// it to the moderator.
    Accept,
    /// An image document at or over the size limit.
    TooLarge,
    /// A document that is not an image.
    NotAnImage,
    /// A document without a media type: nothing is done.
    Untyped,
    /// Not a document: photos are only taken as files.
    NotADocument,
}

/// The decision for an upload, given whether it is a document, the parsed
/// type and subtype of its media type, and its size.
pub open spec fn intake_of(
    is_document: bool,
    parts: Option<Option<(Seq<char>, Seq<char>)>>,
    size: u32,
) -> IntakeDecision {
    if !is_document {
        IntakeDecision::NotADocument
    } else {
        match parts {
            None => IntakeDecision::Untyped,
            Some(Some((t, _))) => if t == seq!['i', 'm', 'a', 'g', 'e'] {
                if size < MAX_FILE_SIZE {
                    IntakeDecision::Accept
                } else {
                    IntakeDecision::TooLarge
                }
            } else {
                IntakeDecision::NotAnImage
            },
            Some(None) => IntakeDecision::NotAnImage,
        }
    }
}

/// The decision for an upload whose media type has already been parsed:
/// `parts` is `None` without a media type, `Some(None)` for one that does
/// not parse.
pub fn classify_parsed(is_document: bool, parts: Option<Option<(String, String)>>, size: u32) -> (r:
    IntakeDecision)
    ensures
        r == intake_of(
            is_document,
            match parts {
                None => None,
                Some(None) => Some(None),
                Some(Some((t, st))) => Some(Some((t@, st@))),
            },
            size,
        ),
{
    if !is_document {
        return IntakeDecision::NotADocument;
    }
    match parts {
        None => IntakeDecision::Untyped,
        Some(None) => IntakeDecision::NotAnImage,
        Some(Some((t, _))) => {
            proof {
                reveal_strlit("image");
                assert("image"@ =~= seq!['i', 'm', 'a', 'g', 'e']);
            }
            if crate::text::same_text(t.as_str(), "image") {
                if size < MAX_FILE_SIZE {
                    IntakeDecision::Accept
                } else {
                    IntakeDecision::TooLarge
                }
            } else {
                IntakeDecision::NotAnImage
            }
        },
    }
}

/// The decision for an upload with the given declared media type and size.
pub fn classify_upload(is_document: bool, mime_type: Option<&str>, size: u32) -> (r: IntakeDecision)
    ensures
        r == intake_of(
            is_document,
            match mime_type {
                None => None,
                Some(m) => Some(mime_parts_of(m@)),
            },
            size,
        ),
{
    let parts = match mime_type {
        None => None,
        Some(m) => Some(mime_parts(m)),
    };
    classify_parsed(is_document, parts, size)
}

/// How the submitter is named in captions: `@username`, or else a link
/// `<a href="url">first name</a>`.
pub open spec fn mention_of(username: Option<Seq<char>>, first_name: Seq<char>, url: Seq<char>) -> Seq<
    char,
> {
    match username {
        Some(u) => seq!['@'] + u,
        None => "<a href=\""@ + url + "\">"@ + first_name + "</a>"@,
    }
}

/// How the submitter is named in captions.
pub fn get_user_text(username: &Option<String>, first_name: &str, url: &str) -> (r: String)
    ensures
        r@ == mention_of(crate::text::opt_view(*username), first_name@, url@),
{
    let mut s = String::new();
    match username {
        Some(u) => {
            push_char(&mut s, '@');
            push_text(&mut s, u.as_str());
            assert(s@ =~= seq!['@'] + u@);
        },
        None => {
            push_text(&mut s, "<a href=\"");
            push_text(&mut s, url);
            push_text(&mut s, "\">");
            push_text(&mut s, first_name);
            push_text(&mut s, "</a>");
        },
    }
    s
}

} // verus!

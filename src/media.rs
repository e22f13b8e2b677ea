//! Attachments: which files are accepted, and where an accepted one is
//! stored.

use vstd::prelude::*;
use crate::error::Rejection;
use crate::text::{same_text, trim_text, trimmed};

verus! {

/// The two kinds of attachment a post can carry.
#[derive(Clone, Copy, Debug, PartialEq, Eq, Structural)]
pub enum MediaType {
    Image,
    Video,
}

/// How a media kind is written in the store.
pub open spec fn media_type_text(m: MediaType) -> Seq<char> {
    match m {
        MediaType::Image => "Image"@,
        MediaType::Video => "Video"@,
    }
}

/// The kind a stored text names, if any.
pub open spec fn media_type_of_text(s: Seq<char>) -> Option<MediaType> {
    if s == "Image"@ {
        Some(MediaType::Image)
    } else if s == "Video"@ {
        Some(MediaType::Video)
    } else {
        None
    }
}

impl MediaType {
    pub fn to_str(&self) -> (r: &'static str)
        ensures
            r@ == media_type_text(*self),
    {
        match self {
            MediaType::Image => "Image",
            MediaType::Video => "Video",
        }
    }

    pub fn from_str(s: &str) -> (r: Option<MediaType>)
        ensures
            r == media_type_of_text(s@),
    {
        if same_text(s, "Image") {
            Some(MediaType::Image)
        } else if same_text(s, "Video") {
            Some(MediaType::Video)
        } else {
            None
        }
    }
}

/// Image subtypes that are accepted.
pub open spec fn is_allowed_image_subtype(sub: Seq<char>) -> bool {
    sub == "jpeg"@ || sub == "jpg"@ || sub == "png"@ || sub == "gif"@ || sub == "webp"@
}

/// Video subtypes that are accepted.
pub open spec fn is_allowed_video_subtype(sub: Seq<char>) -> bool {
    sub == "mp4"@
}

/// The decision on a MIME type `top/sub`.
pub open spec fn classification(top: Seq<char>, sub: Seq<char>) -> Result<MediaType, Rejection> {
    if top == "image"@ {
        if is_allowed_image_subtype(sub) {
            Ok(MediaType::Image)
        } else {
            Err(Rejection::UnsupportedImageFormat)
        }
    } else if top == "video"@ {
        if is_allowed_video_subtype(sub) {
            Ok(MediaType::Video)
        } else {
            Err(Rejection::UnsupportedVideoFormat)
        }
    } else {
        Err(Rejection::UnsupportedMediaType)
    }
}

/// Accepts a MIME type `top/sub` as a media kind, or says why not.
pub fn classify_mime(top: &str, sub: &str) -> (r: Result<MediaType, Rejection>)
    ensures
        r == classification(top@, sub@),
{
    if same_text(top, "image") {
        if same_text(sub, "jpeg") || same_text(sub, "jpg") || same_text(sub, "png")
            || same_text(sub, "gif") || same_text(sub, "webp") {
            Ok(MediaType::Image)
        } else {
            Err(Rejection::UnsupportedImageFormat)
        }
    } else if same_text(top, "video") {
        if same_text(sub, "mp4") {
            Ok(MediaType::Video)
        } else {
            Err(Rejection::UnsupportedVideoFormat)
        }
    } else {
        Err(Rejection::UnsupportedMediaType)
    }
}

/// The MIME type, as (type, subtype), that mime_guess gives a file name.
pub uninterp spec fn guessed_mime(file_name: Seq<char>) -> (Seq<char>, Seq<char>);

/// Relies on mime_guess::from_path and `first_or_octet_stream`: the type
/// guessed from the name's extension alone, `application/octet-stream`
/// when there is none.
#[verifier::external_body]
fn guess_mime(file_name: &str) -> (r: (String, String))
    ensures
        (r.0@, r.1@) == guessed_mime(file_name@),
{
    let m = mime_guess::from_path(file_name).first_or_octet_stream();
    (m.type_().as_str().to_string(), m.subtype().as_str().to_string())
}

/// Accepts an uploaded file by its declared name, or says why not.
pub fn classify(file_name: &str) -> (r: Result<(MediaType, String), Rejection>)
    ensures
        match classification(guessed_mime(file_name@).0, guessed_mime(file_name@).1) {
            Ok(kind) => r matches Ok((k, ext)) && k == kind && ext@ == guessed_mime(file_name@).1,
            Err(e) => r == Err::<(MediaType, String), Rejection>(e),
        },
{
    let (top, sub) = guess_mime(file_name);
    match classify_mime(top.as_str(), sub.as_str()) {
        Ok(kind) => Ok((kind, sub)),
        Err(e) => Err(e),
    }
}

/// Characters of a generated token: lower-case hex digits and `-`.
pub open spec fn is_token_char(c: char) -> bool {
    ('0' <= c && c <= '9') || ('a' <= c && c <= 'f') || c == '-'
}

/// A server-generated name: 36 token characters.
pub open spec fn is_token(t: Seq<char>) -> bool {
    t.len() == 36 && forall|i: int| 0 <= i < t.len() ==> is_token_char(#[trigger] t[i])
}

/// Relies on uuid::Uuid::new_v4 and its `to_string`: a random identifier
/// in hyphenated form, 36 lower-case hex digits and hyphens.
#[verifier::external_body]
fn new_token() -> (r: String)
    ensures
        is_token(r@),
{
    uuid::Uuid::new_v4().to_string()
}

/// Directory on disk that holds one kind of media.
pub open spec fn media_dir(kind: MediaType) -> Seq<char> {
    match kind {
        MediaType::Image => "./uploads/images/"@,
        MediaType::Video => "./uploads/videos/"@,
    }
}

/// Path under which one kind of media is served.
pub open spec fn media_url_prefix(kind: MediaType) -> Seq<char> {
    match kind {
        MediaType::Image => "/uploads/images/"@,
        MediaType::Video => "/uploads/videos/"@,
    }
}

/// Where an accepted attachment goes.
pub struct UploadPlan {
    pub kind: MediaType,
    /// `<token>.<extension>`.
    pub file_name: String,
    /// The file on disk.
    pub disk_path: String,
    /// The server-relative address it is served from.
    pub url: String,
}

/// The stored name for a token and an extension.
pub open spec fn stored_name(token: Seq<char>, ext: Seq<char>) -> Seq<char> {
    token + seq!['.'] + ext
}

impl UploadPlan {
    /// The plan is built from `token` and `ext` alone.
    pub open spec fn places(self, kind: MediaType, token: Seq<char>, ext: Seq<char>) -> bool {
        &&& self.kind == kind
        &&& self.file_name@ == stored_name(token, ext)
        &&& self.disk_path@ == media_dir(kind) + stored_name(token, ext)
        &&& self.url@ == media_url_prefix(kind) + stored_name(token, ext)
    }

    /// Whether the written file must decode before it is kept.
    pub fn requires_decoding(&self) -> (r: bool)
        ensures
            r == (self.kind == MediaType::Image),
    {
        match self.kind {
            MediaType::Image => true,
            MediaType::Video => false,
        }
    }
}

fn dir_of(kind: MediaType) -> (r: &'static str)
    ensures
        r@ == media_dir(kind),
{
    match kind {
        MediaType::Image => "./uploads/images/",
        MediaType::Video => "./uploads/videos/",
    }
}

fn url_prefix_of(kind: MediaType) -> (r: &'static str)
    ensures
        r@ == media_url_prefix(kind),
{
    match kind {
        MediaType::Image => "/uploads/images/",
        MediaType::Video => "/uploads/videos/",
    }
}

/// Lays out where a file of `kind` named by `token` is written and served.
pub fn plan_upload(kind: MediaType, ext: &str, token: &str) -> (r: UploadPlan)
    ensures
        r.places(kind, token@, ext@),
{
    let mut file_name = String::from_str(token);
    file_name.append(".");
    file_name.append(ext);
    proof {
        reveal_strlit(".");
        assert(file_name@ =~= stored_name(token@, ext@));
    }
    let mut disk_path = String::from_str(dir_of(kind));
    disk_path.append(file_name.as_str());
    let mut url = String::from_str(url_prefix_of(kind));
    url.append(file_name.as_str());
    UploadPlan { kind, file_name, disk_path, url }
}

/// What to do with a file field.
pub enum FileDecision {
    /// No file was chosen: the field is ignored.
    Skip,
    /// The file is refused; nothing is written.
    Reject(Rejection),
    /// The file is written as planned.
    Store(UploadPlan),
}

/// Whether a declared file name counts as no file at all.
pub open spec fn names_no_file(file_name: Option<&str>) -> bool {
    match file_name {
        None => true,
        Some(n) => trimmed(n@).len() == 0,
    }
}

/// Decides on a file field from its declared name; an accepted file gets a
/// fresh generated name whose extension is the guessed subtype.
pub fn decide_file(file_name: Option<&str>) -> (r: FileDecision)
    ensures
        names_no_file(file_name) ==> r is Skip,
        !names_no_file(file_name) ==> ({
            let n = file_name.unwrap()@;
            match classification(guessed_mime(n).0, guessed_mime(n).1) {
                Ok(kind) => r matches FileDecision::Store(p) && exists|t: Seq<char>|
                    is_token(t) && #[trigger] p.places(kind, t, guessed_mime(n).1),
                Err(e) => r == FileDecision::Reject(e),
            }
        }),
{
    match file_name {
        None => FileDecision::Skip,
        Some(n) => {
            let t = trim_text(n);
            if t.unicode_len() == 0 {
                return FileDecision::Skip;
            }
            match classify(n) {
                Err(e) => FileDecision::Reject(e),
                Ok((kind, ext)) => {
                    let token = new_token();
                    let p = plan_upload(kind, ext.as_str(), token.as_str());
                    FileDecision::Store(p)
                },
            }
        },
    }
}

} // verus!

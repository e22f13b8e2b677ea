//! The decisions of one submission: fields arrive in order, text fields
//! accumulate, a file is placed or refused, and at the end the post is
//! built or the submission is refused.

use vstd::prelude::*;
use crate::error::Rejection;
use crate::media::{MediaType, UploadPlan};
use crate::post::Post;
use crate::text::{decode_lossy, same_text, trim_text, trimmed, utf8_lossy};

verus! {

/// The fields of the submission form.
#[derive(Clone, Copy, Debug, PartialEq, Eq, Structural)]
pub enum FieldKind {
    Name,
    Subject,
    Body,
    File,
    /// A field that is not read.
    Other,
}

/// The field a form name stands for.
pub open spec fn field_kind_of(name: Option<Seq<char>>) -> FieldKind {
    match name {
        Some(n) => if n == "name"@ {
            FieldKind::Name
        } else if n == "subject"@ {
            FieldKind::Subject
        } else if n == "body"@ {
            FieldKind::Body
        } else if n == "file"@ {
            FieldKind::File
        } else {
            FieldKind::Other
        },
        None => FieldKind::Other,
    }
}

/// Which field a multipart part fills, from its declared name.
pub fn field_kind(name: Option<&str>) -> (r: FieldKind)
    ensures
        r == field_kind_of(
            match name {
                Some(n) => Some(n@),
                None => None,
            },
        ),
{
    match name {
        None => FieldKind::Other,
        Some(n) => {
            if same_text(n, "name") {
                FieldKind::Name
            } else if same_text(n, "subject") {
                FieldKind::Subject
            } else if same_text(n, "body") {
                FieldKind::Body
            } else if same_text(n, "file") {
                FieldKind::File
            } else {
                FieldKind::Other
            }
        },
    }
}

/// What has been read of a submission so far.
pub struct Submission {
    pub name: String,
    pub subject: String,
    pub body: String,
    pub media_url: Option<String>,
    pub media_type: Option<MediaType>,
}

/// The current time, in seconds since the epoch.
///
/// Relies on chrono::Utc::now and `timestamp`; nothing is known of the value.
#[verifier::external_body]
fn now_seconds() -> (r: i64) {
    chrono::Utc::now().timestamp()
}

impl Submission {
    /// An attachment is recorded with both its address and its kind, or not
    /// at all.
    pub open spec fn wf(self) -> bool {
        self.media_url.is_some() == self.media_type.is_some()
    }

    /// Nothing read yet.
    pub fn new() -> (r: Submission)
        ensures
            r.wf(),
            r.name@.len() == 0,
            r.subject@.len() == 0,
            r.body@.len() == 0,
            r.media_url is None,
            r.media_type is None,
    {
        Submission {
            name: String::new(),
            subject: String::new(),
            body: String::new(),
            media_url: None,
            media_type: None,
        }
    }

    /// Adds one chunk of a text field, decoded leniently; chunks of other
    /// fields change nothing.
    pub fn append_text(&mut self, field: FieldKind, chunk: &[u8])
        ensures
            final(self).name@ == (if field == FieldKind::Name {
                old(self).name@ + utf8_lossy(chunk@)
            } else {
                old(self).name@
            }),
            final(self).subject@ == (if field == FieldKind::Subject {
                old(self).subject@ + utf8_lossy(chunk@)
            } else {
                old(self).subject@
            }),
            final(self).body@ == (if field == FieldKind::Body {
                old(self).body@ + utf8_lossy(chunk@)
            } else {
                old(self).body@
            }),
            final(self).media_url == old(self).media_url,
            final(self).media_type == old(self).media_type,
    {
        match field {
            FieldKind::Name => {
                let t = decode_lossy(chunk);
                self.name.append(t.as_str());
            },
            FieldKind::Subject => {
                let t = decode_lossy(chunk);
                self.subject.append(t.as_str());
            },
            FieldKind::Body => {
                let t = decode_lossy(chunk);
                self.body.append(t.as_str());
            },
            _ => {},
        }
    }

    /// Records a file written as `plan` says. An image is kept only if it
    /// decoded; otherwise the submission is refused, nothing is recorded,
    /// and the written file is to be removed.
    pub fn attach(&mut self, plan: &UploadPlan, decoded: bool) -> (r: Result<(), Rejection>)
        requires
            old(self).wf(),
        ensures
            plan.kind == MediaType::Image && !decoded ==> r == Err::<(), Rejection>(
                Rejection::InvalidImage,
            ) && *final(self) == *old(self),
            !(plan.kind == MediaType::Image && !decoded) ==> {
                &&& r is Ok
                &&& final(self).media_url == Some(plan.url)
                &&& final(self).media_type == Some(plan.kind)
                &&& final(self).name == old(self).name
                &&& final(self).subject == old(self).subject
                &&& final(self).body == old(self).body
            },
            final(self).wf(),
    {
        if plan.requires_decoding() && !decoded {
            return Err(Rejection::InvalidImage);
        }
        self.media_url = Some(plan.url.clone());
        self.media_type = Some(plan.kind);
        Ok(())
    }

    /// Whether a required text field is empty once trimmed.
    pub open spec fn lacks_text(self) -> bool {
        trimmed(self.name@).len() == 0 || trimmed(self.subject@).len() == 0
            || trimmed(self.body@).len() == 0
    }

    /// Builds the post to save, stamped `now`, with trimmed texts; refuses
    /// a submission with an empty name, subject or body.
    pub fn finish(self, now: i64) -> (r: Result<Post, Rejection>)
        ensures
            self.lacks_text() ==> r == Err::<Post, Rejection>(Rejection::EmptyField),
            !self.lacks_text() ==> (r matches Ok(p) && {
                &&& p.id == 0
                &&& p.name@ == trimmed(self.name@)
                &&& p.subject@ == trimmed(self.subject@)
                &&& p.body@ == trimmed(self.body@)
                &&& p.timestamp == now
                &&& p.media_url == self.media_url
                &&& p.media_type == self.media_type
            }),
    {
        let name = trim_text(self.name.as_str());
        let subject = trim_text(self.subject.as_str());
        let body = trim_text(self.body.as_str());
        if name.unicode_len() == 0 || subject.unicode_len() == 0 || body.unicode_len() == 0 {
            return Err(Rejection::EmptyField);
        }
        Ok(
            Post {
                id: 0,
                name,
                subject,
                body,
                timestamp: now,
                media_url: self.media_url,
                media_type: self.media_type,
            },
        )
    }

    /// `finish`, stamped with the current time.
    pub fn finish_now(self) -> (r: Result<Post, Rejection>)
        ensures
            self.lacks_text() ==> r == Err::<Post, Rejection>(Rejection::EmptyField),
            !self.lacks_text() ==> (r matches Ok(p) && {
                &&& p.id == 0
                &&& p.name@ == trimmed(self.name@)
                &&& p.subject@ == trimmed(self.subject@)
                &&& p.body@ == trimmed(self.body@)
                &&& p.media_url == self.media_url
                &&& p.media_type == self.media_type
            }),
    {
        let now = now_seconds();
        self.finish(now)
    }
}

/// The reply to a submission once the store has answered: success when the
/// post was saved, a storage failure otherwise.
pub fn store_outcome(saved: bool) -> (r: Result<(), Rejection>)
    ensures
        saved ==> r is Ok,
        !saved ==> r == Err::<(), Rejection>(Rejection::StoreFailure),
{
    if saved {
        Ok(())
    } else {
        Err(Rejection::StoreFailure)
    }
}

} // verus!

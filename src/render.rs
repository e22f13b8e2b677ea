//! HTML for posts, the feed and error pages. Every piece of user text is
//! escaped before it is placed in markup.

use vstd::prelude::*;
use crate::error::{Rejection, rejection_message};
use crate::media::MediaType;
use crate::post::Post;
use crate::text::{decimal, escape_html, escaped, format_i32};

verus! {

pub const FILES_OPEN: &'static str = "<div class=\"files\">\n    <div class=\"file\">\n        <p class=\"fileinfo\">File: <a href=\"";
pub const LINK_MID: &'static str = "\">";
pub const IMAGE_LINK: &'static str = "</a></p>\n        <a href=\"";
pub const IMAGE_SRC: &'static str = "\" target=\"_blank\"><img class=\"post-image\" src=\"";
pub const IMAGE_CLOSE: &'static str = "\" alt=\"\" /></a>\n    </div>\n</div>";
pub const VIDEO_SRC: &'static str = "</a></p>\n        <video class=\"post-video\" controls>\n            <source src=\"";
pub const VIDEO_CLOSE: &'static str = "\" type=\"video/mp4\">\n            Your browser does not support the video tag.\n        </video>\n    </div>\n</div>";
pub const THREAD_OPEN: &'static str = "<div class=\"thread\" id=\"thread_";
pub const THREAD_ATTRS: &'static str = "\" data-board=\"a\">\n";
pub const POST_OPEN: &'static str = "\n<div class=\"post op\" id=\"op_";
pub const SUBJECT_OPEN: &'static str = "\">\n<p class=\"intro\"><span class=\"subject\">";
pub const NAME_OPEN: &'static str = "</span> <span class=\"name\">";
pub const REPLY_OPEN: &'static str = "</span>\n    &nbsp;<a href=\"threads/thread_";
pub const BODY_OPEN: &'static str = ".html\">Reply</a>\n</p>\n<div class=\"body\">";
pub const POST_CLOSE: &'static str = "</div>\n</div>\n<br class=\"clear\"/>\n<hr/>\n</div>";
pub const NO_POSTS: &'static str = "<p>No posts yet.</p>";
pub const POST_SEPARATOR: &'static str = "\n";
pub const PAGE_OPEN: &'static str = "<!DOCTYPE html>\n<html lang=\"en\">\n<head>\n    <meta charset=\"UTF-8\">\n    <title>";
pub const PAGE_HEADING: &'static str = "</title>\n    <link rel=\"stylesheet\" href=\"/static/css/style.css\">\n</head>\n<body>\n    <h1>";
pub const PAGE_MESSAGE: &'static str = "</h1>\n    <p>";
pub const PAGE_CLOSE: &'static str = "</p>\n    <a href=\"/\">Back to Home</a>\n</body>\n</html>";

/// Markup of an attachment at escaped address `u`.
pub open spec fn media_markup(kind: MediaType, u: Seq<char>) -> Seq<char> {
    match kind {
        MediaType::Image => FILES_OPEN@ + u + LINK_MID@ + u + IMAGE_LINK@ + u + IMAGE_SRC@ + u
            + IMAGE_CLOSE@,
        MediaType::Video => FILES_OPEN@ + u + LINK_MID@ + u + VIDEO_SRC@ + u + VIDEO_CLOSE@,
    }
}

/// Markup of a post's attachment; nothing without both an address and a kind.
pub open spec fn files_markup(p: Post) -> Seq<char> {
    match (p.media_url, p.media_type) {
        (Some(u), Some(kind)) => media_markup(kind, escaped(u@)),
        _ => Seq::empty(),
    }
}

/// Markup of one post.
pub open spec fn rendered_post(p: Post) -> Seq<char> {
    THREAD_OPEN@ + decimal(p.id as int) + THREAD_ATTRS@ + files_markup(p) + POST_OPEN@ + decimal(
        p.id as int,
    ) + SUBJECT_OPEN@ + escaped(p.subject@) + NAME_OPEN@ + escaped(p.name@) + REPLY_OPEN@
        + decimal(p.id as int) + BODY_OPEN@ + escaped(p.body@) + POST_CLOSE@
}

/// The posts' markup, one after another, separated by line breaks.
pub open spec fn joined_posts(s: Seq<Post>) -> Seq<char>
    decreases s.len(),
{
    if s.len() == 0 {
        Seq::empty()
    } else if s.len() == 1 {
        rendered_post(s[0])
    } else {
        joined_posts(s.drop_last()) + POST_SEPARATOR@ + rendered_post(s.last())
    }
}

/// The feed: a placeholder when there are no posts.
pub open spec fn rendered_feed(s: Seq<Post>) -> Seq<char> {
    if s.len() == 0 {
        NO_POSTS@
    } else {
        joined_posts(s)
    }
}

/// An error page with an escaped title and message.
pub open spec fn rendered_error_page(title: Seq<char>, message: Seq<char>) -> Seq<char> {
    PAGE_OPEN@ + escaped(title) + PAGE_HEADING@ + escaped(title) + PAGE_MESSAGE@ + escaped(
        message,
    ) + PAGE_CLOSE@
}

fn render_files(p: &Post) -> (r: String)
    ensures
        r@ == files_markup(*p),
{
    let mut out = String::new();
    match (&p.media_url, p.media_type) {
        (Some(url), Some(kind)) => {
            let u = escape_html(url.as_str());
            out.append(FILES_OPEN);
            out.append(u.as_str());
            out.append(LINK_MID);
            out.append(u.as_str());
            match kind {
                MediaType::Image => {
                    out.append(IMAGE_LINK);
                    out.append(u.as_str());
                    out.append(IMAGE_SRC);
                    out.append(u.as_str());
                    out.append(IMAGE_CLOSE);
                },
                MediaType::Video => {
                    out.append(VIDEO_SRC);
                    out.append(u.as_str());
                    out.append(VIDEO_CLOSE);
                },
            }
        },
        _ => {},
    }
    out
}

/// Renders one post; name, subject, body and media address are escaped.
pub fn render_post(p: &Post) -> (r: String)
    ensures
        r@ == rendered_post(*p),
{
    let id = format_i32(p.id);
    let files = render_files(p);
    let subject = escape_html(p.subject.as_str());
    let name = escape_html(p.name.as_str());
    let body = escape_html(p.body.as_str());
    let mut out = String::from_str(THREAD_OPEN);
    out.append(id.as_str());
    out.append(THREAD_ATTRS);
    out.append(files.as_str());
    out.append(POST_OPEN);
    out.append(id.as_str());
    out.append(SUBJECT_OPEN);
    out.append(subject.as_str());
    out.append(NAME_OPEN);
    out.append(name.as_str());
    out.append(REPLY_OPEN);
    out.append(id.as_str());
    out.append(BODY_OPEN);
    out.append(body.as_str());
    out.append(POST_CLOSE);
    out
}

/// Renders the feed: each post in the order given, or the placeholder.
pub fn render_feed(posts: &Vec<Post>) -> (r: String)
    ensures
        r@ == rendered_feed(posts@),
{
    if posts.len() == 0 {
        return String::from_str(NO_POSTS);
    }
    let mut out = render_post(&posts[0]);
    let mut i: usize = 1;
    while i < posts.len()
        invariant
            1 <= i <= posts@.len(),
            out@ == joined_posts(posts@.subrange(0, i as int)),
        decreases posts@.len() - i,
    {
        let next = render_post(&posts[i]);
        out.append(POST_SEPARATOR);
        out.append(next.as_str());
        proof {
            let s = posts@.subrange(0, i + 1);
            assert(s.drop_last() =~= posts@.subrange(0, i as int));
        }
        i = i + 1;
    }
    proof {
        assert(posts@.subrange(0, posts@.len() as int) =~= posts@);
    }
    out
}

/// Renders a minimal page for a failure: title, message and a link home.
pub fn render_error_page(title: &str, message: &str) -> (r: String)
    ensures
        r@ == rendered_error_page(title@, message@),
{
    let t = escape_html(title);
    let m = escape_html(message);
    let mut out = String::from_str(PAGE_OPEN);
    out.append(t.as_str());
    out.append(PAGE_HEADING);
    out.append(t.as_str());
    out.append(PAGE_MESSAGE);
    out.append(m.as_str());
    out.append(PAGE_CLOSE);
    out
}

/// The page shown for a failed request.
pub fn rejection_page(e: Rejection) -> (r: String)
    ensures
        r@ == rendered_error_page(
            if e.is_client_error() { "Bad Request"@ } else { "Internal Server Error"@ },
            rejection_message(e),
        ),
{
    render_error_page(e.title(), e.message())
}

} // verus!

//! The feed cannot carry a script element: every `<` in it belongs to the
//! fixed markup, and none of that markup starts a `<script>` tag.

use vstd::prelude::*;
use crate::laws::{lemma_feed_shows_every_post, occurs_in};
use crate::media::MediaType;
use crate::post::Post;
use crate::render::{
    BODY_OPEN, FILES_OPEN, IMAGE_CLOSE, IMAGE_LINK, IMAGE_SRC, LINK_MID, NAME_OPEN, NO_POSTS,
    POST_CLOSE, POST_OPEN, POST_SEPARATOR, REPLY_OPEN, SUBJECT_OPEN, THREAD_ATTRS, THREAD_OPEN,
    VIDEO_CLOSE, VIDEO_SRC, files_markup, joined_posts, media_markup, rendered_feed,
    rendered_post,
};
use crate::text::{
    decimal, digit_char, escaped, is_markup_char, lemma_escaped_concat,
    lemma_escaped_has_no_markup, nat_digits,
};

verus! {

/// The opening tag of a script element.
pub open spec fn script_tag() -> Seq<char> {
    seq!['<', 's', 'c', 'r', 'i', 'p', 't', '>']
}

/// Among the characters `k..8` of a tag laid at position `i` of `s`, one
/// lies inside `s` and differs from the tag.
pub open spec fn mismatch_after(s: Seq<char>, i: int, k: int) -> bool
    decreases 8 - k,
{
    if k >= 8 || k < 1 || i + k >= s.len() {
        false
    } else if s[i + k] != script_tag()[k] {
        true
    } else {
        mismatch_after(s, i, k + 1)
    }
}

/// From position `i` on, every `<` of `s` is followed, inside `s`, by a
/// character that departs from the script tag.
pub open spec fn guarded_from(s: Seq<char>, i: int) -> bool
    decreases s.len() - i,
{
    if i >= s.len() || i < 0 {
        true
    } else {
        (s[i] != '<' || mismatch_after(s, i, 1)) && guarded_from(s, i + 1)
    }
}

/// Every `<` of `s` is followed, inside `s`, by a character that departs
/// from the script tag.
pub open spec fn guarded(s: Seq<char>) -> bool {
    forall|i: int| 0 <= i < s.len() && s[i] == '<' ==> #[trigger] mismatch_after(s, i, 1)
}

proof fn lemma_guarded_from(s: Seq<char>, k: int)
    requires
        0 <= k,
        guarded_from(s, k),
    ensures
        forall|i: int| k <= i < s.len() && s[i] == '<' ==> #[trigger] mismatch_after(s, i, 1),
    decreases s.len() - k,
{
    if k < s.len() {
        lemma_guarded_from(s, k + 1);
    }
}

proof fn lemma_mismatch_left(a: Seq<char>, b: Seq<char>, i: int, k: int)
    requires
        0 <= i,
        mismatch_after(a, i, k),
    ensures
        mismatch_after(a + b, i, k),
    decreases 8 - k,
{
    if a[i + k] == script_tag()[k] {
        lemma_mismatch_left(a, b, i, k + 1);
    }
}

proof fn lemma_mismatch_right(a: Seq<char>, b: Seq<char>, i: int, k: int)
    requires
        0 <= i,
        mismatch_after(b, i, k),
    ensures
        mismatch_after(a + b, a.len() + i, k),
    decreases 8 - k,
{
    assert((a + b)[a.len() + i + k] == b[i + k]);
    if b[i + k] == script_tag()[k] {
        lemma_mismatch_right(a, b, i, k + 1);
    }
}

proof fn lemma_guarded_concat(a: Seq<char>, b: Seq<char>)
    requires
        guarded(a),
        guarded(b),
    ensures
        guarded(a + b),
{
    let s = a + b;
    assert forall|i: int| 0 <= i < s.len() && s[i] == '<' implies #[trigger] mismatch_after(
        s,
        i,
        1,
    ) by {
        if i < a.len() {
            assert(a[i] == '<');
            lemma_mismatch_left(a, b, i, 1);
        } else {
            assert(b[i - a.len()] == '<');
            lemma_mismatch_right(a, b, i - a.len(), 1);
        }
    }
}

proof fn lemma_no_angle_guarded(s: Seq<char>)
    requires
        forall|i: int| 0 <= i < s.len() ==> #[trigger] s[i] != '<',
    ensures
        guarded(s),
{
}

proof fn lemma_tag_has_no_mismatch(s: Seq<char>, i: int, k: int)
    requires
        0 <= i,
        i + 8 <= s.len(),
        s.subrange(i, i + 8) == script_tag(),
    ensures
        !mismatch_after(s, i, k),
    decreases 8 - k,
{
    if 1 <= k < 8 {
        assert(s[i + k] == s.subrange(i, i + 8)[k]);
        lemma_tag_has_no_mismatch(s, i, k + 1);
    }
}

proof fn lemma_guarded_has_no_tag(s: Seq<char>)
    requires
        guarded(s),
    ensures
        !occurs_in(script_tag(), s),
{
    if occurs_in(script_tag(), s) {
        let i = choose|i: int|
            0 <= i && i + script_tag().len() <= s.len() && #[trigger] s.subrange(
                i,
                i + script_tag().len(),
            ) == script_tag();
        assert(s[i] == s.subrange(i, i + 8)[0]);
        lemma_tag_has_no_mismatch(s, i, 1);
    }
}

proof fn lemma_escaped_guarded(t: Seq<char>)
    ensures
        guarded(escaped(t)),
{
    lemma_escaped_has_no_markup(t);
    let e = escaped(t);
    assert forall|i: int| 0 <= i < e.len() implies #[trigger] e[i] != '<' by {
        assert(!is_markup_char(e[i]));
    }
    lemma_no_angle_guarded(e);
}

proof fn lemma_digits_have_no_angle(n: nat)
    ensures
        forall|i: int| 0 <= i < nat_digits(n).len() ==> #[trigger] nat_digits(n)[i] != '<',
    decreases n,
{
    if n >= 10 {
        lemma_digits_have_no_angle(n / 10);
        let d = digit_char((n % 10) as int);
        assert(d != '<');
        let a = nat_digits(n / 10);
        assert forall|i: int| 0 <= i < nat_digits(n).len() implies #[trigger] nat_digits(n)[i]
            != '<' by {
            if i < a.len() {
                assert(nat_digits(n)[i] == a[i]);
            }
        }
    } else {
        assert(digit_char(n as int) != '<');
    }
}

proof fn lemma_decimal_guarded(n: int)
    ensures
        guarded(decimal(n)),
{
    let m: nat = if n < 0 { (-n) as nat } else { n as nat };
    lemma_digits_have_no_angle(m);
    let d = decimal(n);
    assert forall|i: int| 0 <= i < d.len() implies #[trigger] d[i] != '<' by {
        if n < 0 {
            if i > 0 {
                assert(d[i] == nat_digits(m)[i - 1]);
            }
        } else {
            assert(d[i] == nat_digits(m)[i]);
        }
    }
    lemma_no_angle_guarded(d);
}

proof fn lemma_files_open_guarded()
    ensures
        guarded(FILES_OPEN@),
{
    reveal_strlit("<div class=\"files\">\n    <div class=\"file\">\n        <p class=\"fileinfo\">File: <a href=\"");
    assert(FILES_OPEN@ == "<div class=\"files\">\n    <div class=\"file\">\n        <p class=\"fileinfo\">File: <a href=\""@);
    reveal_with_fuel(guarded_from, 45);
    reveal_with_fuel(mismatch_after, 9);
    assert(guarded_from(FILES_OPEN@, 80));
    assert(guarded_from(FILES_OPEN@, 40));
    assert(guarded_from(FILES_OPEN@, 0));
    lemma_guarded_from(FILES_OPEN@, 0);
}

proof fn lemma_link_mid_guarded()
    ensures
        guarded(LINK_MID@),
{
    reveal_strlit("\">");
    assert(LINK_MID@ == "\">"@);
    reveal_with_fuel(guarded_from, 45);
    reveal_with_fuel(mismatch_after, 9);
    assert(guarded_from(LINK_MID@, 0));
    lemma_guarded_from(LINK_MID@, 0);
}

proof fn lemma_image_link_guarded()
    ensures
        guarded(IMAGE_LINK@),
{
    reveal_strlit("</a></p>\n        <a href=\"");
    assert(IMAGE_LINK@ == "</a></p>\n        <a href=\""@);
    reveal_with_fuel(guarded_from, 45);
    reveal_with_fuel(mismatch_after, 9);
    assert(guarded_from(IMAGE_LINK@, 0));
    lemma_guarded_from(IMAGE_LINK@, 0);
}

proof fn lemma_image_src_guarded()
    ensures
        guarded(IMAGE_SRC@),
{
    reveal_strlit("\" target=\"_blank\"><img class=\"post-image\" src=\"");
    assert(IMAGE_SRC@ == "\" target=\"_blank\"><img class=\"post-image\" src=\""@);
    reveal_with_fuel(guarded_from, 45);
    reveal_with_fuel(mismatch_after, 9);
    assert(guarded_from(IMAGE_SRC@, 40));
    assert(guarded_from(IMAGE_SRC@, 0));
    lemma_guarded_from(IMAGE_SRC@, 0);
}

proof fn lemma_image_close_guarded()
    ensures
        guarded(IMAGE_CLOSE@),
{
    reveal_strlit("\" alt=\"\" /></a>\n    </div>\n</div>");
    assert(IMAGE_CLOSE@ == "\" alt=\"\" /></a>\n    </div>\n</div>"@);
    reveal_with_fuel(guarded_from, 45);
    reveal_with_fuel(mismatch_after, 9);
    assert(guarded_from(IMAGE_CLOSE@, 0));
    lemma_guarded_from(IMAGE_CLOSE@, 0);
}

proof fn lemma_video_src_guarded()
    ensures
        guarded(VIDEO_SRC@),
{
    reveal_strlit("</a></p>\n        <video class=\"post-video\" controls>\n            <source src=\"");
    assert(VIDEO_SRC@ == "</a></p>\n        <video class=\"post-video\" controls>\n            <source src=\""@);
    reveal_with_fuel(guarded_from, 45);
    reveal_with_fuel(mismatch_after, 9);
    assert(guarded_from(VIDEO_SRC@, 40));
    assert(guarded_from(VIDEO_SRC@, 0));
    lemma_guarded_from(VIDEO_SRC@, 0);
}

proof fn lemma_video_close_guarded()
    ensures
        guarded(VIDEO_CLOSE@),
{
    reveal_strlit("\" type=\"video/mp4\">\n            Your browser does not support the video tag.\n        </video>\n    </div>\n</div>");
    assert(VIDEO_CLOSE@ == "\" type=\"video/mp4\">\n            Your browser does not support the video tag.\n        </video>\n    </div>\n</div>"@);
    reveal_with_fuel(guarded_from, 45);
    reveal_with_fuel(mismatch_after, 9);
    assert(guarded_from(VIDEO_CLOSE@, 80));
    assert(guarded_from(VIDEO_CLOSE@, 40));
    assert(guarded_from(VIDEO_CLOSE@, 0));
    lemma_guarded_from(VIDEO_CLOSE@, 0);
}

proof fn lemma_thread_open_guarded()
    ensures
        guarded(THREAD_OPEN@),
{
    reveal_strlit("<div class=\"thread\" id=\"thread_");
    assert(THREAD_OPEN@ == "<div class=\"thread\" id=\"thread_"@);
    reveal_with_fuel(guarded_from, 45);
    reveal_with_fuel(mismatch_after, 9);
    assert(guarded_from(THREAD_OPEN@, 0));
    lemma_guarded_from(THREAD_OPEN@, 0);
}

proof fn lemma_thread_attrs_guarded()
    ensures
        guarded(THREAD_ATTRS@),
{
    reveal_strlit("\" data-board=\"a\">\n");
    assert(THREAD_ATTRS@ == "\" data-board=\"a\">\n"@);
    reveal_with_fuel(guarded_from, 45);
    reveal_with_fuel(mismatch_after, 9);
    assert(guarded_from(THREAD_ATTRS@, 0));
    lemma_guarded_from(THREAD_ATTRS@, 0);
}

proof fn lemma_post_open_guarded()
    ensures
        guarded(POST_OPEN@),
{
    reveal_strlit("\n<div class=\"post op\" id=\"op_");
    assert(POST_OPEN@ == "\n<div class=\"post op\" id=\"op_"@);
    reveal_with_fuel(guarded_from, 45);
    reveal_with_fuel(mismatch_after, 9);
    assert(guarded_from(POST_OPEN@, 0));
    lemma_guarded_from(POST_OPEN@, 0);
}

proof fn lemma_subject_open_guarded()
    ensures
        guarded(SUBJECT_OPEN@),
{
    reveal_strlit("\">\n<p class=\"intro\"><span class=\"subject\">");
    assert(SUBJECT_OPEN@ == "\">\n<p class=\"intro\"><span class=\"subject\">"@);
    reveal_with_fuel(guarded_from, 45);
    reveal_with_fuel(mismatch_after, 9);
    assert(guarded_from(SUBJECT_OPEN@, 40));
    assert(guarded_from(SUBJECT_OPEN@, 0));
    lemma_guarded_from(SUBJECT_OPEN@, 0);
}

proof fn lemma_name_open_guarded()
    ensures
        guarded(NAME_OPEN@),
{
    reveal_strlit("</span> <span class=\"name\">");
    assert(NAME_OPEN@ == "</span> <span class=\"name\">"@);
    reveal_with_fuel(guarded_from, 45);
    reveal_with_fuel(mismatch_after, 9);
    assert(guarded_from(NAME_OPEN@, 0));
    lemma_guarded_from(NAME_OPEN@, 0);
}

proof fn lemma_reply_open_guarded()
    ensures
        guarded(REPLY_OPEN@),
{
    reveal_strlit("</span>\n    &nbsp;<a href=\"threads/thread_");
    assert(REPLY_OPEN@ == "</span>\n    &nbsp;<a href=\"threads/thread_"@);
    reveal_with_fuel(guarded_from, 45);
    reveal_with_fuel(mismatch_after, 9);
    assert(guarded_from(REPLY_OPEN@, 40));
    assert(guarded_from(REPLY_OPEN@, 0));
    lemma_guarded_from(REPLY_OPEN@, 0);
}

proof fn lemma_body_open_guarded()
    ensures
        guarded(BODY_OPEN@),
{
    reveal_strlit(".html\">Reply</a>\n</p>\n<div class=\"body\">");
    assert(BODY_OPEN@ == ".html\">Reply</a>\n</p>\n<div class=\"body\">"@);
    reveal_with_fuel(guarded_from, 45);
    reveal_with_fuel(mismatch_after, 9);
    assert(guarded_from(BODY_OPEN@, 40));
    assert(guarded_from(BODY_OPEN@, 0));
    lemma_guarded_from(BODY_OPEN@, 0);
}

proof fn lemma_post_close_guarded()
    ensures
        guarded(POST_CLOSE@),
{
    reveal_strlit("</div>\n</div>\n<br class=\"clear\"/>\n<hr/>\n</div>");
    assert(POST_CLOSE@ == "</div>\n</div>\n<br class=\"clear\"/>\n<hr/>\n</div>"@);
    reveal_with_fuel(guarded_from, 45);
    reveal_with_fuel(mismatch_after, 9);
    assert(guarded_from(POST_CLOSE@, 40));
    assert(guarded_from(POST_CLOSE@, 0));
    lemma_guarded_from(POST_CLOSE@, 0);
}

proof fn lemma_no_posts_guarded()
    ensures
        guarded(NO_POSTS@),
{
    reveal_strlit("<p>No posts yet.</p>");
    assert(NO_POSTS@ == "<p>No posts yet.</p>"@);
    reveal_with_fuel(guarded_from, 45);
    reveal_with_fuel(mismatch_after, 9);
    assert(guarded_from(NO_POSTS@, 0));
    lemma_guarded_from(NO_POSTS@, 0);
}

proof fn lemma_post_separator_guarded()
    ensures
        guarded(POST_SEPARATOR@),
{
    reveal_strlit("\n");
    assert(POST_SEPARATOR@ == "\n"@);
    reveal_with_fuel(guarded_from, 45);
    reveal_with_fuel(mismatch_after, 9);
    assert(guarded_from(POST_SEPARATOR@, 0));
    lemma_guarded_from(POST_SEPARATOR@, 0);
}

proof fn lemma_files_guarded(p: Post)
    ensures
        guarded(files_markup(p)),
{
    match (p.media_url, p.media_type) {
        (Some(u), Some(kind)) => {
            let e = escaped(u@);
            lemma_escaped_guarded(u@);
            lemma_files_open_guarded();
            lemma_link_mid_guarded();
            lemma_guarded_concat(FILES_OPEN@, e);
            lemma_guarded_concat(FILES_OPEN@ + e, LINK_MID@);
            lemma_guarded_concat(FILES_OPEN@ + e + LINK_MID@, e);
            let head = FILES_OPEN@ + e + LINK_MID@ + e;
            match kind {
                MediaType::Image => {
                    lemma_image_link_guarded();
                    lemma_image_src_guarded();
                    lemma_image_close_guarded();
                    lemma_guarded_concat(head, IMAGE_LINK@);
                    lemma_guarded_concat(head + IMAGE_LINK@, e);
                    lemma_guarded_concat(head + IMAGE_LINK@ + e, IMAGE_SRC@);
                    lemma_guarded_concat(head + IMAGE_LINK@ + e + IMAGE_SRC@, e);
                    lemma_guarded_concat(head + IMAGE_LINK@ + e + IMAGE_SRC@ + e, IMAGE_CLOSE@);
                },
                MediaType::Video => {
                    lemma_video_src_guarded();
                    lemma_video_close_guarded();
                    lemma_guarded_concat(head, VIDEO_SRC@);
                    lemma_guarded_concat(head + VIDEO_SRC@, e);
                    lemma_guarded_concat(head + VIDEO_SRC@ + e, VIDEO_CLOSE@);
                },
            }
            assert(files_markup(p) == media_markup(kind, e));
        },
        _ => {
            lemma_no_angle_guarded(files_markup(p));
        },
    }
}

proof fn lemma_post_guarded(p: Post)
    ensures
        guarded(rendered_post(p)),
{
    let id = decimal(p.id as int);
    let s = escaped(p.subject@);
    let n = escaped(p.name@);
    let b = escaped(p.body@);
    let f = files_markup(p);
    lemma_decimal_guarded(p.id as int);
    lemma_escaped_guarded(p.subject@);
    lemma_escaped_guarded(p.name@);
    lemma_escaped_guarded(p.body@);
    lemma_files_guarded(p);
    lemma_thread_open_guarded();
    lemma_thread_attrs_guarded();
    lemma_post_open_guarded();
    lemma_subject_open_guarded();
    lemma_name_open_guarded();
    lemma_reply_open_guarded();
    lemma_body_open_guarded();
    lemma_post_close_guarded();
    let a1 = THREAD_OPEN@ + id;
    lemma_guarded_concat(THREAD_OPEN@, id);
    let a2 = a1 + THREAD_ATTRS@;
    lemma_guarded_concat(a1, THREAD_ATTRS@);
    let a3 = a2 + f;
    lemma_guarded_concat(a2, f);
    let a4 = a3 + POST_OPEN@;
    lemma_guarded_concat(a3, POST_OPEN@);
    let a5 = a4 + id;
    lemma_guarded_concat(a4, id);
    let a6 = a5 + SUBJECT_OPEN@;
    lemma_guarded_concat(a5, SUBJECT_OPEN@);
    let a7 = a6 + s;
    lemma_guarded_concat(a6, s);
    let a8 = a7 + NAME_OPEN@;
    lemma_guarded_concat(a7, NAME_OPEN@);
    let a9 = a8 + n;
    lemma_guarded_concat(a8, n);
    let a10 = a9 + REPLY_OPEN@;
    lemma_guarded_concat(a9, REPLY_OPEN@);
    let a11 = a10 + id;
    lemma_guarded_concat(a10, id);
    let a12 = a11 + BODY_OPEN@;
    lemma_guarded_concat(a11, BODY_OPEN@);
    let a13 = a12 + b;
    lemma_guarded_concat(a12, b);
    lemma_guarded_concat(a13, POST_CLOSE@);
}

proof fn lemma_joined_guarded(s: Seq<Post>)
    ensures
        guarded(joined_posts(s)),
    decreases s.len(),
{
    if s.len() == 0 {
        lemma_no_angle_guarded(joined_posts(s));
    } else if s.len() == 1 {
        lemma_post_guarded(s[0]);
    } else {
        lemma_joined_guarded(s.drop_last());
        lemma_post_separator_guarded();
        lemma_post_guarded(s.last());
        lemma_guarded_concat(joined_posts(s.drop_last()), POST_SEPARATOR@);
        lemma_guarded_concat(joined_posts(s.drop_last()) + POST_SEPARATOR@, rendered_post(s.last()));
    }
}

/// Whatever the posts hold, the rendered feed never contains a `<script>`
/// tag.
pub proof fn lemma_feed_has_no_script_tag(posts: Seq<Post>)
    ensures
        !occurs_in(script_tag(), rendered_feed(posts)),
{
    if posts.len() == 0 {
        lemma_no_posts_guarded();
    } else {
        lemma_joined_guarded(posts);
    }
    lemma_guarded_has_no_tag(rendered_feed(posts));
}

proof fn lemma_escaped_keeps_occurrence(t: Seq<char>)
    requires
        occurs_in(script_tag(), t),
    ensures
        occurs_in(escaped(script_tag()), escaped(t)),
{
    let i = choose|i: int|
        0 <= i && i + script_tag().len() <= t.len() && #[trigger] t.subrange(
            i,
            i + script_tag().len(),
        ) == script_tag();
    let x = t.subrange(0, i);
    let y = t.subrange(i + 8, t.len() as int);
    assert(t =~= x + script_tag() + y);
    lemma_escaped_concat(x + script_tag(), y);
    lemma_escaped_concat(x, script_tag());
    let e = escaped(script_tag());
    let h = escaped(x) + e + escaped(y);
    let j: int = escaped(x).len() as int;
    assert(h.subrange(j, j + e.len()) =~= e);
}

/// A script tag typed into a post's subject, name or body reaches the feed
/// in escaped form, `&lt;script&gt;`.
pub proof fn lemma_typed_script_tag_shows_escaped(posts: Seq<Post>, k: int)
    requires
        0 <= k < posts.len(),
        occurs_in(script_tag(), posts[k].subject@) || occurs_in(script_tag(), posts[k].name@)
            || occurs_in(script_tag(), posts[k].body@),
    ensures
        occurs_in(escaped(script_tag()), rendered_feed(posts)),
{
    lemma_feed_shows_every_post(posts, k);
    let p = posts[k];
    let f = rendered_feed(posts);
    let t = if occurs_in(script_tag(), p.subject@) {
        p.subject@
    } else if occurs_in(script_tag(), p.name@) {
        p.name@
    } else {
        p.body@
    };
    lemma_escaped_keeps_occurrence(t);
    crate::laws::lemma_occurs_in_trans(escaped(script_tag()), escaped(t), f);
}

} // verus!

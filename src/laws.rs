//! Properties that relate several parts of the board.

use vstd::prelude::*;
use crate::media::{is_allowed_image_subtype, is_allowed_video_subtype, is_token, is_token_char, stored_name};
use crate::post::{in_feed_order, Post};
use crate::render::{joined_posts, rendered_feed, rendered_post, POST_SEPARATOR};
use crate::text::escaped;

verus! {

/// `needle` stands somewhere in `hay`.
pub open spec fn occurs_in(needle: Seq<char>, hay: Seq<char>) -> bool {
    exists|i: int|
        0 <= i && i + needle.len() <= hay.len() && #[trigger] hay.subrange(i, i + needle.len())
            == needle
}

proof fn lemma_occurs_in_middle(n: Seq<char>, a: Seq<char>, b: Seq<char>, c: Seq<char>)
    requires
        occurs_in(n, b),
    ensures
        occurs_in(n, a + b + c),
{
    let i = choose|i: int|
        0 <= i && i + n.len() <= b.len() && #[trigger] b.subrange(i, i + n.len()) == n;
    let h = a + b + c;
    assert(h.subrange(a.len() + i, a.len() + i + n.len()) =~= b.subrange(i, i + n.len()));
}

pub proof fn lemma_occurs_in_trans(n: Seq<char>, m: Seq<char>, h: Seq<char>)
    requires
        occurs_in(n, m),
        occurs_in(m, h),
    ensures
        occurs_in(n, h),
{
    let i = choose|i: int|
        0 <= i && i + n.len() <= m.len() && #[trigger] m.subrange(i, i + n.len()) == n;
    let j = choose|j: int|
        0 <= j && j + m.len() <= h.len() && #[trigger] h.subrange(j, j + m.len()) == m;
    assert(h.subrange(j + i, j + i + n.len()) =~= m.subrange(i, i + n.len()));
}

proof fn lemma_occurs_in_self(n: Seq<char>)
    ensures
        occurs_in(n, n),
{
    let z: int = 0;
    assert(n.subrange(z, z + n.len()) =~= n);
}

/// A post's markup shows its escaped subject, name and body.
pub proof fn lemma_post_shows_its_text(p: Post)
    ensures
        occurs_in(escaped(p.subject@), rendered_post(p)),
        occurs_in(escaped(p.name@), rendered_post(p)),
        occurs_in(escaped(p.body@), rendered_post(p)),
{
    let r = rendered_post(p);
    lemma_occurs_in_self(escaped(p.subject@));
    lemma_occurs_in_self(escaped(p.name@));
    lemma_occurs_in_self(escaped(p.body@));
    let s = escaped(p.subject@);
    let n = escaped(p.name@);
    let b = escaped(p.body@);
    let before_s = crate::render::THREAD_OPEN@ + crate::text::decimal(p.id as int)
        + crate::render::THREAD_ATTRS@ + crate::render::files_markup(p) + crate::render::POST_OPEN@
        + crate::text::decimal(p.id as int) + crate::render::SUBJECT_OPEN@;
    let before_n = before_s + s + crate::render::NAME_OPEN@;
    let before_b = before_n + n + crate::render::REPLY_OPEN@ + crate::text::decimal(p.id as int)
        + crate::render::BODY_OPEN@;
    let tail_b = crate::render::POST_CLOSE@;
    let tail_n = crate::render::REPLY_OPEN@ + crate::text::decimal(p.id as int)
        + crate::render::BODY_OPEN@ + b + tail_b;
    let tail_s = crate::render::NAME_OPEN@ + n + tail_n;
    assert(r =~= before_s + s + tail_s);
    assert(r =~= before_n + n + tail_n);
    assert(r =~= before_b + b + tail_b);
    lemma_occurs_in_middle(s, before_s, s, tail_s);
    lemma_occurs_in_middle(n, before_n, n, tail_n);
    lemma_occurs_in_middle(b, before_b, b, tail_b);
}

proof fn lemma_joined_shows_each_post(s: Seq<Post>, k: int)
    requires
        0 <= k < s.len(),
    ensures
        occurs_in(rendered_post(s[k]), joined_posts(s)),
    decreases s.len(),
{
    let e = Seq::<char>::empty();
    if s.len() == 1 {
        lemma_occurs_in_self(rendered_post(s[k]));
    } else if k == s.len() - 1 {
        lemma_occurs_in_self(rendered_post(s[k]));
        let a = joined_posts(s.drop_last()) + POST_SEPARATOR@;
        lemma_occurs_in_middle(rendered_post(s[k]), a, rendered_post(s[k]), e);
        assert(a + rendered_post(s[k]) + e =~= joined_posts(s));
    } else {
        lemma_joined_shows_each_post(s.drop_last(), k);
        assert(s.drop_last()[k] == s[k]);
        let c = POST_SEPARATOR@ + rendered_post(s.last());
        lemma_occurs_in_middle(rendered_post(s[k]), e, joined_posts(s.drop_last()), c);
        assert(e + joined_posts(s.drop_last()) + c =~= joined_posts(s));
    }
}

/// The feed shows every post it is given, with its subject, name and body
/// in escaped form.
pub proof fn lemma_feed_shows_every_post(posts: Seq<Post>, k: int)
    requires
        0 <= k < posts.len(),
    ensures
        occurs_in(rendered_post(posts[k]), rendered_feed(posts)),
        occurs_in(escaped(posts[k].subject@), rendered_feed(posts)),
        occurs_in(escaped(posts[k].name@), rendered_feed(posts)),
        occurs_in(escaped(posts[k].body@), rendered_feed(posts)),
{
    lemma_joined_shows_each_post(posts, k);
    lemma_post_shows_its_text(posts[k]);
    let r = rendered_post(posts[k]);
    let f = rendered_feed(posts);
    lemma_occurs_in_trans(escaped(posts[k].subject@), r, f);
    lemma_occurs_in_trans(escaped(posts[k].name@), r, f);
    lemma_occurs_in_trans(escaped(posts[k].body@), r, f);
}

/// With ids unique, as the store assigns them, the feed order is strict:
/// each post is later than the next, or saved in the same second with a
/// greater id.
pub proof fn lemma_feed_order_is_strict(s: Seq<Post>)
    requires
        in_feed_order(s),
        forall|i: int, j: int| 0 <= i < j < s.len() ==> #[trigger] s[i].id != #[trigger] s[j].id,
    ensures
        forall|i: int, j: int|
            0 <= i < j < s.len() ==> #[trigger] s[i].timestamp > #[trigger] s[j].timestamp || (
            s[i].timestamp == s[j].timestamp && s[i].id > s[j].id),
{
    assert forall|i: int, j: int| 0 <= i < j < s.len() implies #[trigger] s[i].timestamp
        > #[trigger] s[j].timestamp || (s[i].timestamp == s[j].timestamp && s[i].id > s[j].id) by {
        assert(crate::post::ranks_before(s[i], s[j]));
        assert(s[i].id != s[j].id);
    }
}

/// A stored file name is a generated token, a dot and an allowed
/// extension: it holds no path separator, whatever the client sent.
pub proof fn lemma_stored_name_has_no_separator(t: Seq<char>, ext: Seq<char>)
    requires
        is_token(t),
        is_allowed_image_subtype(ext) || is_allowed_video_subtype(ext),
    ensures
        forall|i: int| 0 <= i < stored_name(t, ext).len() ==> #[trigger] stored_name(t, ext)[i] != '/',
{
    reveal_strlit("jpeg");
    reveal_strlit("jpg");
    reveal_strlit("png");
    reveal_strlit("gif");
    reveal_strlit("webp");
    reveal_strlit("mp4");
    let n = stored_name(t, ext);
    assert forall|i: int| 0 <= i < n.len() implies #[trigger] n[i] != '/' by {
        if i < t.len() {
            assert(n[i] == t[i]);
            assert(is_token_char(t[i]));
        } else if i > t.len() {
            assert(n[i] == ext[i - t.len() - 1]);
        }
    }
}

} // verus!

//! Posts, the one persisted entity, and the order of the feed.

use vstd::prelude::*;
use vstd::multiset::Multiset;
use crate::media::{MediaType, media_type_of_text};

verus! {

/// A persisted message.
pub struct Post {
    /// Assigned by the store; 0 until then.
    pub id: i32,
    pub name: String,
    pub subject: String,
    pub body: String,
    /// Seconds since the epoch when the post was saved.
    pub timestamp: i64,
    pub media_url: Option<String>,
    pub media_type: Option<MediaType>,
}

impl Post {
    /// A post as the store hands it back, the media kind still as text.
    pub fn from_row(
        id: i32,
        name: String,
        subject: String,
        body: String,
        timestamp: i64,
        media_url: Option<String>,
        media_type: Option<String>,
    ) -> (r: Post)
        ensures
            r.id == id,
            r.name == name,
            r.subject == subject,
            r.body == body,
            r.timestamp == timestamp,
            r.media_url == media_url,
            r.media_type == match media_type {
                Some(t) => media_type_of_text(t@),
                None => None,
            },
    {
        let kind = match &media_type {
            Some(t) => MediaType::from_str(t.as_str()),
            None => None,
        };
        Post { id, name, subject, body, timestamp, media_url, media_type: kind }
    }

    /// How the media kind is written in the store.
    pub fn media_type_text(&self) -> (r: Option<&'static str>)
        ensures
            match self.media_type {
                Some(m) => r matches Some(s) && s@ == crate::media::media_type_text(m),
                None => r is None,
            },
    {
        match self.media_type {
            Some(m) => Some(m.to_str()),
            None => None,
        }
    }
}

/// `a` may stand before `b` in the feed: later first, and of two posts
/// saved in the same second the later id first.
pub open spec fn ranks_before(a: Post, b: Post) -> bool {
    a.timestamp > b.timestamp || (a.timestamp == b.timestamp && a.id >= b.id)
}

/// The feed order holds throughout `s`.
pub open spec fn in_feed_order(s: Seq<Post>) -> bool {
    forall|i: int, j: int| 0 <= i < j < s.len() ==> ranks_before(#[trigger] s[i], #[trigger] s[j])
}

fn ranks_before_exec(a: &Post, b: &Post) -> (r: bool)
    ensures
        r == ranks_before(*a, *b),
{
    a.timestamp > b.timestamp || (a.timestamp == b.timestamp && a.id >= b.id)
}

/// Puts posts in feed order: descending timestamp, ties by descending id.
pub fn order_feed(posts: Vec<Post>) -> (r: Vec<Post>)
    ensures
        in_feed_order(r@),
        r@.to_multiset() == posts@.to_multiset(),
{
    let mut rest = posts;
    let mut out: Vec<Post> = Vec::new();
    proof {
        out@.to_multiset_ensures();
        vstd::multiset::lemma_multiset_empty_len(out@.to_multiset());
        assert(out@.to_multiset().add(rest@.to_multiset()) =~= posts@.to_multiset());
    }
    while rest.len() > 0
        invariant
            in_feed_order(out@),
            forall|i: int, j: int|
                0 <= i < out@.len() && 0 <= j < rest@.len() ==> ranks_before(
                    #[trigger] out@[i],
                    #[trigger] rest@[j],
                ),
            out@.to_multiset().add(rest@.to_multiset()) == posts@.to_multiset(),
        decreases rest@.len(),
    {
        let mut best: usize = 0;
        let mut k: usize = 1;
        while k < rest.len()
            invariant
                0 <= best < rest@.len(),
                1 <= k <= rest@.len(),
                forall|j: int| 0 <= j < k ==> ranks_before(rest@[best as int], #[trigger] rest@[j]),
            decreases rest@.len() - k,
        {
            if !ranks_before_exec(&rest[best], &rest[k]) {
                best = k;
            }
            k = k + 1;
        }
        let ghost old_rest = rest@;
        let ghost old_out = out@;
        let p = rest.remove(best);
        proof {
            old_rest.to_multiset_ensures();
            assert(old_rest.remove(best as int).to_multiset() =~= old_rest.to_multiset().remove(p));
            assert forall|j: int| 0 <= j < rest@.len() implies ranks_before(p, #[trigger] rest@[j]) by {
                if j < best {
                    assert(rest@[j] == old_rest[j]);
                } else {
                    assert(rest@[j] == old_rest[j + 1]);
                }
            }
            assert forall|i: int, j: int|
                0 <= i < old_out.len() && 0 <= j < rest@.len() implies ranks_before(
                    #[trigger] old_out[i],
                    #[trigger] rest@[j],
                ) by {
                if j < best {
                    assert(rest@[j] == old_rest[j]);
                } else {
                    assert(rest@[j] == old_rest[j + 1]);
                }
            }
        }
        out.push(p);
        proof {
            old_out.to_multiset_ensures();
            assert(old_out.push(p).to_multiset() =~= old_out.to_multiset().insert(p));
            assert(out@.to_multiset().add(rest@.to_multiset()) =~= posts@.to_multiset());
        }
    }
    proof {
        rest@.to_multiset_ensures();
        vstd::multiset::lemma_multiset_empty_len(rest@.to_multiset());
        assert(out@.to_multiset() =~= out@.to_multiset().add(rest@.to_multiset()));
    }
    out
}

} // verus!

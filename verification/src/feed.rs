//! The feed: all posts in display order, rendered for the template.
//!
//! Display order is reverse chronological — most recent `created_at`
//! first — with equal timestamps falling back to the id (descending),
//! which is deterministic and, since ids are unique, total. Each post is
//! exposed to the template as its body, author, timestamp, and optional
//! blob references turned into URL paths under the image-serving prefix.

use vstd::prelude::*;

use crate::post::Post;
use crate::store::FeedStore;

verus! {

/// `a` may stand at or before `b` in the feed.
pub open spec fn precedes(a: Post, b: Post) -> bool {
    a.created_at > b.created_at || (a.created_at == b.created_at && a.id >= b.id)
}

/// The sequence is in display order: most recent first.
pub open spec fn feed_sorted(s: Seq<Post>) -> bool {
    forall|i: int, j: int| 0 <= i < j < s.len() ==> precedes(s[i], s[j])
}

/// The posts a sequence of references points at.
pub open spec fn deref_posts(s: Seq<&Post>) -> Seq<Post> {
    s.map_values(|q: &Post| *q)
}

/// Whether `a` may come no later than `b` in the feed.
fn prec(a: &Post, b: &Post) -> (r: bool)
    ensures
        r == precedes(*a, *b),
{
    a.created_at > b.created_at || (a.created_at == b.created_at && a.id >= b.id)
}

/// The given posts, most recent first: a permutation of the input in
/// display order.
#[verifier::loop_isolation(false)]
pub fn order_posts(posts: &Vec<Post>) -> (out: Vec<&Post>)
    ensures
        out@.len() == posts@.len(),
        deref_posts(out@).to_multiset() == posts@.to_multiset(),
        feed_sorted(deref_posts(out@)),
{
    broadcast use vstd::seq_lib::group_to_multiset_ensures;

    let mut scratch: Vec<&Post> = Vec::new();
    let mut i: usize = 0;
    while i < posts.len()
        invariant
            0 <= i <= posts@.len(),
            deref_posts(scratch@) =~= posts@.take(i as int),
        decreases posts@.len() - i,
    {
        scratch.push(&posts[i]);
        proof {
            assert(deref_posts(scratch@) =~= posts@.take(i + 1));
        }
        i = i + 1;
    }
    proof {
        assert(posts@.take(posts@.len() as int) =~= posts@);
    }
    let mut out: Vec<&Post> = Vec::new();
    while scratch.len() > 0
        invariant
            deref_posts(out@).to_multiset().add(deref_posts(scratch@).to_multiset())
                =~= posts@.to_multiset(),
            feed_sorted(deref_posts(out@)),
            forall|a: int, b: int|
                0 <= a < out@.len() && 0 <= b < scratch@.len() ==> precedes(
                    deref_posts(out@)[a],
                    deref_posts(scratch@)[b],
                ),
        decreases scratch@.len(),
    {
        let mut k: usize = 0;
        let mut t: usize = 1;
        while t < scratch.len()
            invariant
                0 <= k < t <= scratch@.len(),
                forall|u: int|
                    0 <= u < t ==> precedes(deref_posts(scratch@)[k as int], deref_posts(
                        scratch@,
                    )[u]),
            decreases scratch@.len() - t,
        {
            if !prec(scratch[k], scratch[t]) {
                k = t;
            }
            t = t + 1;
        }
        let ghost pre = scratch@;
        let x = scratch.remove(k);
        proof {
            assert(deref_posts(pre.remove(k as int)) =~= deref_posts(pre).remove(k as int));
            assert(deref_posts(pre).remove(k as int).to_multiset() =~= deref_posts(
                pre,
            ).to_multiset().remove(*x));
        }
        let ghost out_pre = out@;
        out.push(x);
        proof {
            assert(deref_posts(out@) =~= deref_posts(out_pre).push(*x));
        }
    }
    proof {
        assert(deref_posts(out@).to_multiset() =~= posts@.to_multiset());
        assert(deref_posts(out@).to_multiset().len() == posts@.to_multiset().len());
    }
    out
}

impl FeedStore {
    /// All stored posts, most recent first: a permutation of the table in
    /// display order.
    pub fn list_ordered(&self) -> (out: Vec<&Post>)
        ensures
            out@.len() == self@.len(),
            deref_posts(out@).to_multiset() == self@.to_multiset(),
            feed_sorted(deref_posts(out@)),
    {
        order_posts(self.posts())
    }
}

/// One post as the template sees it.
pub struct PostView {
    /// Body text.
    pub body: String,
    /// Author name.
    pub author: String,
    /// Submission time, microseconds since the Unix epoch.
    pub created_at: i64,
    /// URL path of the image blob, when the post has one.
    pub image_url: Option<String>,
    /// URL path of the avatar blob, when the post has one.
    pub avatar_url: Option<String>,
}

/// How a post appears in the template context.
pub open spec fn view_matches(p: Post, v: PostView) -> bool {
    &&& v.body@ == p.body@
    &&& v.author@ == p.author@
    &&& v.created_at == p.created_at
    &&& (match (p.image_ref, v.image_url) {
        (Some(n), Some(u)) => u@ == "/images/"@ + n@,
        (None, None) => true,
        _ => false,
    })
    &&& (match (p.avatar_ref, v.avatar_url) {
        (Some(n), Some(u)) => u@ == "/images/"@ + n@,
        (None, None) => true,
        _ => false,
    })
}

/// The URL path under which a stored blob is served.
fn url_for(name: &String) -> (u: String)
    ensures
        u@ == "/images/"@ + name@,
{
    let mut u = String::new();
    u.append("/images/");
    u.append(name.as_str());
    u
}

/// Renders one post for the template: blob references become URL paths.
pub fn post_view(p: &Post) -> (v: PostView)
    ensures
        view_matches(*p, v),
{
    let image_url = match &p.image_ref {
        Some(n) => Some(url_for(n)),
        None => None,
    };
    let avatar_url = match &p.avatar_ref {
        Some(n) => Some(url_for(n)),
        None => None,
    };
    PostView {
        body: p.body.clone(),
        author: p.author.clone(),
        created_at: p.created_at,
        image_url,
        avatar_url,
    }
}

/// The given posts rendered for the template: every post exactly once,
/// most recent first. Rendering never fails; no posts yield an empty
/// context.
pub fn feed_views(posts: &Vec<Post>) -> (views: Vec<PostView>)
    ensures
        views@.len() == posts@.len(),
        exists|ord: Seq<Post>|
            #![auto]
            {
                &&& ord.to_multiset() == posts@.to_multiset()
                &&& feed_sorted(ord)
                &&& ord.len() == views@.len()
                &&& forall|i: int| 0 <= i < ord.len() ==> view_matches(ord[i], views@[i])
            },
{
    let ordered = order_posts(posts);
    let ghost ord = deref_posts(ordered@);
    let mut views: Vec<PostView> = Vec::new();
    let mut i: usize = 0;
    while i < ordered.len()
        invariant
            0 <= i <= ordered@.len(),
            ord == deref_posts(ordered@),
            ord.len() == ordered@.len(),
            views@.len() == i,
            forall|j: int| 0 <= j < i ==> view_matches(ord[j], views@[j]),
        decreases ordered@.len() - i,
    {
        let v = post_view(ordered[i]);
        views.push(v);
        i = i + 1;
    }
    proof {
        broadcast use vstd::seq_lib::group_to_multiset_ensures;

        assert(ord.to_multiset().len() == ord.len());
        assert(posts@.to_multiset().len() == posts@.len());
    }
    views
}

/// The whole feed rendered for the template: every stored post exactly
/// once, most recent first. Rendering never fails; an empty table yields
/// an empty context.
pub fn feed_context(store: &FeedStore) -> (views: Vec<PostView>)
    ensures
        views@.len() == store@.len(),
        exists|ord: Seq<Post>|
            #![auto]
            {
                &&& ord.to_multiset() == store@.to_multiset()
                &&& feed_sorted(ord)
                &&& ord.len() == views@.len()
                &&& forall|i: int| 0 <= i < ord.len() ==> view_matches(ord[i], views@[i])
            },
{
    feed_views(store.posts())
}

} // verus!

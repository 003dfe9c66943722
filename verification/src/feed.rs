//! The public feed: visible posts in descending date order.
//!
//! Dates are fixed-width `YYYY-MM-DD` strings, so the plain lexicographic
//! order on their characters coincides with chronological order; the feed
//! deliberately sorts by that string order and nothing else.

use vstd::prelude::*;

use crate::media::{avatar_link_spec, image_link_spec, media_link, MediaKind};
use crate::store::{Post, PostStore};

verus! {

/// The lexicographic order on character sequences: `a` at or before `b`.
pub open spec fn lex_le(a: Seq<char>, b: Seq<char>) -> bool
    decreases a.len(),
{
    if a.len() == 0 {
        true
    } else if b.len() == 0 {
        false
    } else if a[0] < b[0] {
        true
    } else if b[0] < a[0] {
        false
    } else {
        lex_le(a.drop_first(), b.drop_first())
    }
}

/// The lexicographic order is total.
pub proof fn lemma_lex_le_total(a: Seq<char>, b: Seq<char>)
    ensures
        lex_le(a, b) || lex_le(b, a),
    decreases a.len(),
{
    if a.len() == 0 || b.len() == 0 {
    } else if a[0] < b[0] || b[0] < a[0] {
    } else {
        lemma_lex_le_total(a.drop_first(), b.drop_first());
    }
}

/// The lexicographic order is transitive.
pub proof fn lemma_lex_le_trans(a: Seq<char>, b: Seq<char>, c: Seq<char>)
    requires
        lex_le(a, b),
        lex_le(b, c),
    ensures
        lex_le(a, c),
    decreases a.len(),
{
    if a.len() == 0 || b.len() == 0 || c.len() == 0 {
    } else if a[0] < b[0] || b[0] < c[0] {
    } else {
        lemma_lex_le_trans(a.drop_first(), b.drop_first(), c.drop_first());
    }
}

/// Whether `a` stands at or before `b` in lexicographic order.
pub fn date_le(a: &str, b: &str) -> (r: bool)
    ensures
        r == lex_le(a@, b@),
{
    let alen = a.unicode_len();
    let blen = b.unicode_len();
    let mut i: usize = 0;
    proof {
        assert(a@.skip(0) =~= a@);
        assert(b@.skip(0) =~= b@);
    }
    loop
        invariant
            alen == a@.len(),
            blen == b@.len(),
            i <= alen,
            i <= blen,
            lex_le(a@, b@) == lex_le(a@.skip(i as int), b@.skip(i as int)),
        decreases alen - i,
    {
        if i == alen {
            return true;
        }
        if i == blen {
            return false;
        }
        let ca = a.get_char(i);
        let cb = b.get_char(i);
        proof {
            assert(a@.skip(i as int)[0] == a@[i as int]);
            assert(b@.skip(i as int)[0] == b@[i as int]);
            assert(a@.skip(i as int).drop_first() =~= a@.skip(i + 1));
            assert(b@.skip(i as int).drop_first() =~= b@.skip(i + 1));
        }
        if ca < cb {
            return true;
        }
        if cb < ca {
            return false;
        }
        i += 1;
    }
}

/// What one feed row exposes, as plain character sequences: author, avatar
/// link, date, image link, body text.
pub type FeedRow = (Seq<char>, Seq<char>, Seq<char>, Seq<char>, Seq<char>);

/// One post of the feed as handed to rendering.
pub struct BlogPost {
    pub user: String,
    pub user_avatar_path: String,
    pub post_date: String,
    pub post_image_path: String,
    pub post_text: String,
}

/// The row a feed post exposes.
pub open spec fn post_view(b: BlogPost) -> FeedRow {
    (b.user@, b.user_avatar_path@, b.post_date@, b.post_image_path@, b.post_text@)
}

/// The rows a sequence of feed posts exposes.
pub open spec fn views_of(s: Seq<BlogPost>) -> Seq<FeedRow> {
    Seq::new(s.len(), |k: int| post_view(s[k]))
}

/// The feed row owed to a stored post: media links exactly when the
/// corresponding flag is set, empty strings otherwise.
pub open spec fn rendered(p: Post) -> FeedRow {
    (
        p.author@,
        if p.has_avatar {
            avatar_link_spec(p.id)
        } else {
            Seq::<char>::empty()
        },
        p.date@,
        if p.has_image {
            image_link_spec(p.id)
        } else {
            Seq::<char>::empty()
        },
        p.content@,
    )
}

/// Insertion of one row into a feed already in descending date order: the
/// row goes behind every row whose date is at or above its own, so rows
/// with equal dates keep their relative order.
pub open spec fn insert_desc(s: Seq<FeedRow>, x: FeedRow) -> Seq<FeedRow>
    decreases s.len(),
{
    if s.len() == 0 {
        seq![x]
    } else if lex_le(x.2, s[0].2) {
        seq![s[0]] + insert_desc(s.drop_first(), x)
    } else {
        seq![x] + s
    }
}

/// The rows of the feed owed for a stored sequence of posts: the visible
/// posts, rendered, in descending date order.
pub open spec fn feed_rows(posts: Seq<Post>) -> Seq<FeedRow>
    decreases posts.len(),
{
    if posts.len() == 0 {
        Seq::<FeedRow>::empty()
    } else {
        let rest = feed_rows(posts.drop_last());
        if posts.last().visible {
            insert_desc(rest, rendered(posts.last()))
        } else {
            rest
        }
    }
}

/// Whether the rows stand in descending date order.
pub open spec fn sorted_desc(s: Seq<FeedRow>) -> bool {
    forall|i: int, j: int| 0 <= i <= j < s.len() ==> lex_le(#[trigger] s[j].2, #[trigger] s[i].2)
}

/// Every row of an insertion is the inserted row or one of the old rows.
pub proof fn lemma_insert_desc_elems(s: Seq<FeedRow>, x: FeedRow)
    ensures
        insert_desc(s, x).len() == s.len() + 1,
        forall|k: int|
            0 <= k < insert_desc(s, x).len() ==> #[trigger] insert_desc(s, x)[k] == x
                || s.contains(insert_desc(s, x)[k]),
    decreases s.len(),
{
    if s.len() == 0 {
    } else if lex_le(x.2, s[0].2) {
        lemma_insert_desc_elems(s.drop_first(), x);
        assert forall|k: int| 0 <= k < insert_desc(s, x).len() implies #[trigger] insert_desc(
            s,
            x,
        )[k] == x || s.contains(insert_desc(s, x)[k]) by {
            if k == 0 {
                assert(s.contains(s[0]));
            } else {
                let inner = insert_desc(s.drop_first(), x);
                assert(insert_desc(s, x)[k] == inner[k - 1]);
                if inner[k - 1] == x {
                } else {
                    let m = choose|m: int|
                        0 <= m < s.drop_first().len() && s.drop_first()[m] == inner[k - 1];
                    assert(s[m + 1] == inner[k - 1]);
                }
            }
        }
    } else {
        assert forall|k: int| 0 <= k < insert_desc(s, x).len() implies #[trigger] insert_desc(
            s,
            x,
        )[k] == x || s.contains(insert_desc(s, x)[k]) by {
            if k > 0 {
                assert(s[k - 1] == insert_desc(s, x)[k]);
            }
        }
    }
}

/// Insertion keeps the feed in descending date order.
pub proof fn lemma_insert_desc_sorted(s: Seq<FeedRow>, x: FeedRow)
    requires
        sorted_desc(s),
    ensures
        sorted_desc(insert_desc(s, x)),
    decreases s.len(),
{
    if s.len() == 0 {
        lemma_lex_le_total(x.2, x.2);
    } else if lex_le(x.2, s[0].2) {
        let rest = s.drop_first();
        assert forall|i: int, j: int| 0 <= i <= j < rest.len() implies lex_le(
            #[trigger] rest[j].2,
            #[trigger] rest[i].2,
        ) by {
            assert(rest[i] == s[i + 1]);
            assert(rest[j] == s[j + 1]);
        }
        lemma_insert_desc_sorted(rest, x);
        lemma_insert_desc_elems(rest, x);
        let out = insert_desc(s, x);
        let inner = insert_desc(rest, x);
        assert forall|i: int, j: int| 0 <= i <= j < out.len() implies lex_le(
            #[trigger] out[j].2,
            #[trigger] out[i].2,
        ) by {
            if i == 0 {
                if j == 0 {
                    lemma_lex_le_total(s[0].2, s[0].2);
                } else {
                    assert(out[j] == inner[j - 1]);
                    if inner[j - 1] == x {
                    } else {
                        let m = choose|m: int|
                            0 <= m < rest.len() && rest[m] == inner[j - 1];
                        assert(rest[m] == s[m + 1]);
                        assert(lex_le(s[m + 1].2, s[0].2));
                    }
                }
            } else {
                assert(out[i] == inner[i - 1]);
                assert(out[j] == inner[j - 1]);
            }
        }
    } else {
        lemma_lex_le_total(x.2, s[0].2);
        let out = insert_desc(s, x);
        assert forall|i: int, j: int| 0 <= i <= j < out.len() implies lex_le(
            #[trigger] out[j].2,
            #[trigger] out[i].2,
        ) by {
            if i == 0 {
                if j > 0 {
                    assert(out[j] == s[j - 1]);
                    assert(lex_le(s[j - 1].2, s[0].2));
                    lemma_lex_le_trans(s[j - 1].2, s[0].2, x.2);
                } else {
                    lemma_lex_le_total(x.2, x.2);
                }
            } else {
                assert(out[i] == s[i - 1]);
                assert(out[j] == s[j - 1]);
            }
        }
    }
}

/// The feed owed for any stored posts is in descending date order.
pub proof fn lemma_feed_rows_sorted(posts: Seq<Post>)
    ensures
        sorted_desc(feed_rows(posts)),
    decreases posts.len(),
{
    if posts.len() == 0 {
    } else {
        lemma_feed_rows_sorted(posts.drop_last());
        if posts.last().visible {
            lemma_insert_desc_sorted(feed_rows(posts.drop_last()), rendered(posts.last()));
        }
    }
}

/// Whether every one of `rows` renders some visible post of `posts`.
pub open spec fn rows_from_visible(posts: Seq<Post>, rows: Seq<FeedRow>) -> bool {
    forall|k: int|
        0 <= k < rows.len() ==> exists|m: int|
            0 <= m < posts.len() && posts[m].visible && #[trigger] rows[k] == rendered(posts[m])
}

/// Every row of the feed owed for stored posts renders a visible post; no
/// invisible post reaches the feed.
pub proof fn lemma_feed_rows_visible(posts: Seq<Post>)
    ensures
        rows_from_visible(posts, feed_rows(posts)),
    decreases posts.len(),
{
    if posts.len() == 0 {
    } else {
        let rest = posts.drop_last();
        lemma_feed_rows_visible(rest);
        if posts.last().visible {
            lemma_insert_desc_elems(feed_rows(rest), rendered(posts.last()));
        }
        assert forall|k: int| 0 <= k < feed_rows(posts).len() implies exists|m: int|
            0 <= m < posts.len() && posts[m].visible && #[trigger] feed_rows(posts)[k]
                == rendered(posts[m]) by {
            if posts.last().visible {
                assert(feed_rows(posts) == insert_desc(feed_rows(rest), rendered(posts.last())));
                if feed_rows(posts)[k] == rendered(posts.last()) {
                    let w = posts.len() - 1;
                    assert(0 <= w < posts.len() && posts[w].visible && feed_rows(posts)[k]
                        == rendered(posts[w]));
                } else {
                    assert(insert_desc(feed_rows(rest), rendered(posts.last()))[k] == feed_rows(
                        posts,
                    )[k]);
                    assert(feed_rows(rest).contains(feed_rows(posts)[k]));
                    let r = choose|r: int|
                        0 <= r < feed_rows(rest).len() && feed_rows(rest)[r] == feed_rows(
                            posts,
                        )[k];
                    let m = choose|m: int|
                        0 <= m < rest.len() && rest[m].visible && #[trigger] feed_rows(rest)[r]
                            == rendered(rest[m]);
                    assert(posts[m] == rest[m]);
                    assert(feed_rows(posts)[k] == rendered(posts[m]));
                }
            } else {
                assert(feed_rows(posts) == feed_rows(rest));
                let m = choose|m: int|
                    0 <= m < rest.len() && rest[m].visible && #[trigger] feed_rows(rest)[k]
                        == rendered(rest[m]);
                assert(posts[m] == rest[m]);
            }
        }
    }
}

/// Where the scan of a sorted feed stops, the insertion spec splits.
pub proof fn lemma_insert_desc_split(s: Seq<FeedRow>, x: FeedRow, j: int)
    requires
        0 <= j <= s.len(),
        forall|k: int| 0 <= k < j ==> lex_le(x.2, #[trigger] s[k].2),
        j < s.len() ==> !lex_le(x.2, s[j].2),
    ensures
        insert_desc(s, x) == s.insert(j, x),
    decreases j,
{
    if j == 0 {
        if s.len() == 0 {
            assert(insert_desc(s, x) =~= s.insert(0, x));
        } else {
            assert(insert_desc(s, x) =~= s.insert(0, x));
        }
    } else {
        let rest = s.drop_first();
        assert(lex_le(x.2, s[0].2));
        assert forall|k: int| 0 <= k < j - 1 implies lex_le(x.2, #[trigger] rest[k].2) by {
            assert(rest[k] == s[k + 1]);
        }
        assert(j - 1 < rest.len() ==> rest[j - 1] == s[j]);
        lemma_insert_desc_split(rest, x, j - 1);
        assert(insert_desc(s, x) =~= s.insert(j, x));
    }
}

/// Law: the feed is a function of the stored posts alone, so two reads
/// with no intervening writes return identical rows.
pub proof fn lemma_feed_idempotent(posts: Seq<Post>, r1: Seq<FeedRow>, r2: Seq<FeedRow>)
    requires
        r1 == feed_rows(posts),
        r2 == feed_rows(posts),
    ensures
        r1 == r2,
{
}

/// Render one stored row for the feed.
pub fn render_post(
    id: u64,
    author: &str,
    date: &str,
    has_image: bool,
    has_avatar: bool,
    content: &str,
) -> (b: BlogPost)
    ensures
        b.user@ == author@,
        b.post_date@ == date@,
        b.post_text@ == content@,
        b.user_avatar_path@ == if has_avatar {
            avatar_link_spec(id)
        } else {
            Seq::<char>::empty()
        },
        b.post_image_path@ == if has_image {
            image_link_spec(id)
        } else {
            Seq::<char>::empty()
        },
{
    let user_avatar_path = if has_avatar {
        media_link(MediaKind::Avatar, id)
    } else {
        String::new()
    };
    let post_image_path = if has_image {
        media_link(MediaKind::Image, id)
    } else {
        String::new()
    };
    BlogPost {
        user: author.to_owned(),
        user_avatar_path,
        post_date: date.to_owned(),
        post_image_path,
        post_text: content.to_owned(),
    }
}

impl PostStore {
    /// List the visible posts, rendered, in descending date order.
    ///
    /// The rows returned are exactly the feed owed for the stored posts:
    /// no invisible post appears, the order is descending on the date
    /// strings, and reading twice with no intervening writes returns
    /// identical rows.
    pub fn list_visible(&self) -> (out: Vec<BlogPost>)
        ensures
            views_of(out@) == feed_rows(self.posts@),
            sorted_desc(views_of(out@)),
            rows_from_visible(self.posts@, views_of(out@)),
    {
        let mut out: Vec<BlogPost> = Vec::new();
        let n = self.posts.len();
        let mut i: usize = 0;
        proof {
            assert(views_of(out@) =~= feed_rows(self.posts@.take(0)));
        }
        while i < n
            invariant
                n == self.posts@.len(),
                i <= n,
                views_of(out@) == feed_rows(self.posts@.take(i as int)),
            decreases n - i,
        {
            let p = &self.posts[i];
            if p.visible {
                let b = render_post(
                    p.id,
                    p.author.as_str(),
                    p.date.as_str(),
                    p.has_image,
                    p.has_avatar,
                    p.content.as_str(),
                );
                let ghost x = post_view(b);
                let ghost before = views_of(out@);
                let m = out.len();
                let mut j: usize = 0;
                while j < m && date_le(b.post_date.as_str(), out[j].post_date.as_str())
                    invariant
                        m == out@.len(),
                        j <= m,
                        x == post_view(b),
                        before == views_of(out@),
                        forall|k: int| 0 <= k < j ==> lex_le(x.2, #[trigger] before[k].2),
                    decreases m - j,
                {
                    proof {
                        assert(before[j as int] == post_view(out@[j as int]));
                    }
                    j += 1;
                }
                proof {
                    assert(j < m ==> before[j as int] == post_view(out@[j as int]));
                    lemma_insert_desc_split(before, x, j as int);
                }
                out.insert(j, b);
                proof {
                    assert(views_of(out@) =~= before.insert(j as int, x));
                    assert(self.posts@.take(i + 1).drop_last() =~= self.posts@.take(i as int));
                    assert(self.posts@.take(i + 1).last() == self.posts@[i as int]);
                    assert(rendered(self.posts@[i as int]) == x);
                }
            } else {
                proof {
                    assert(self.posts@.take(i + 1).drop_last() =~= self.posts@.take(i as int));
                    assert(self.posts@.take(i + 1).last() == self.posts@[i as int]);
                }
            }
            i += 1;
        }
        proof {
            assert(self.posts@.take(n as int) =~= self.posts@);
            lemma_feed_rows_sorted(self.posts@);
            lemma_feed_rows_visible(self.posts@);
        }
        out
    }
}

} // verus!

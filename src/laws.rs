use vstd::prelude::*;

use crate::database::first_with_id;
use crate::json::{post_json, posts_items_json, posts_json};
use crate::models::Post;

verus! {

/// The collection after each of `added` has been appended, in that order.
pub open spec fn after_creates(posts: Seq<Post>, added: Seq<Post>) -> Seq<Post>
    decreases added.len(),
{
    if added.len() == 0 {
        posts
    } else {
        after_creates(posts, added.drop_last()).push(added.last())
    }
}

/// No post of `posts` has the identifier `id`.
pub open spec fn id_unused(posts: Seq<Post>, id: u128) -> bool {
    forall|i: int| 0 <= i < posts.len() ==> #[trigger] posts[i]@.post_id != id
}

/// Two successful listings of one collection give the same JSON array.
pub proof fn lemma_repeated_list(posts: Seq<Post>, first: Seq<char>, second: Seq<char>)
    requires
        posts_json(posts) == Some(first),
        posts_json(posts) == Some(second),
    ensures
        first == second,
{
}

/// A lookup of an identifier that no post has finds nothing.
pub proof fn lemma_find_missing(posts: Seq<Post>, id: u128)
    requires
        id_unused(posts, id),
    ensures
        first_with_id(posts, id) is None,
    decreases posts.len(),
{
    if posts.len() > 0 {
        assert(posts[0]@.post_id != id);
        assert(id_unused(posts.drop_first(), id)) by {
            assert forall|i: int| 0 <= i < posts.drop_first().len() implies
                #[trigger] posts.drop_first()[i]@.post_id != id by {
                assert(posts.drop_first()[i] == posts[i + 1]);
            }
        }
        lemma_find_missing(posts.drop_first(), id);
    }
}

/// Once a post is added to a collection where its identifier is unused, a
/// lookup of that identifier finds the post as it was added.
pub proof fn lemma_create_then_find(posts: Seq<Post>, p: Post)
    requires
        id_unused(posts, p@.post_id),
    ensures
        first_with_id(posts.push(p), p@.post_id) == Some(p),
    decreases posts.len(),
{
    if posts.len() == 0 {
        assert(posts.push(p)[0] == p);
    } else {
        let rest = posts.drop_first();
        assert(posts[0]@.post_id != p@.post_id);
        assert(posts.push(p).drop_first() =~= rest.push(p));
        assert(id_unused(rest, p@.post_id)) by {
            assert forall|i: int| 0 <= i < rest.len() implies #[trigger] rest[i]@.post_id
                != p@.post_id by {
                assert(rest[i] == posts[i + 1]);
            }
        }
        lemma_create_then_find(rest, p);
    }
}

/// A collection that starts with `seed` and then had `a` and `b` added lists
/// as the array of the three, in that order.
pub proof fn lemma_order_kept(seed: Post, a: Post, b: Post)
    requires
        post_json(seed@) is Some,
        post_json(a@) is Some,
        post_json(b@) is Some,
    ensures
        posts_json(seq![seed].push(a).push(b)) == Some(
            "["@ + post_json(seed@)->Some_0 + ","@ + post_json(a@)->Some_0 + ","@ + post_json(b@)->Some_0 + "]"@,
        ),
{
    let s1 = seq![seed];
    let s2 = s1.push(a);
    let s3 = s2.push(b);
    assert(s1.drop_last() =~= Seq::<Post>::empty());
    assert(s2.drop_last() =~= s1);
    assert(s3.drop_last() =~= s2);
    assert(posts_items_json(Seq::<Post>::empty()) == Some(Seq::<char>::empty()));
    assert(posts_items_json(s1) == Some(post_json(seed@)->Some_0));
    assert(posts_items_json(s2) == Some(post_json(seed@)->Some_0 + ","@ + post_json(a@)->Some_0));
    assert(posts_items_json(s3) == Some(
        post_json(seed@)->Some_0 + ","@ + post_json(a@)->Some_0 + ","@ + post_json(b@)->Some_0,
    ));
    assert("["@ + (post_json(seed@)->Some_0 + ","@ + post_json(a@)->Some_0 + ","@ + post_json(b@)->Some_0) + "]"@ =~= "["@ + post_json(seed@)->Some_0 + ","@ + post_json(a@)->Some_0 + ","@
        + post_json(b@)->Some_0 + "]"@);
}

/// Creates applied one after another, in whatever order the lock admits them,
/// lose nothing: the collection grows by exactly their number, keeps what it
/// held, and ends with the added posts in that order.
pub proof fn lemma_creates_all_kept(posts: Seq<Post>, added: Seq<Post>)
    ensures
        after_creates(posts, added) == posts + added,
        after_creates(posts, added).len() == posts.len() + added.len(),
        forall|i: int| 0 <= i < added.len() ==> after_creates(posts, added).contains(#[trigger] added[i]),
    decreases added.len(),
{
    if added.len() == 0 {
        assert(posts + added =~= posts);
    } else {
        lemma_creates_all_kept(posts, added.drop_last());
        assert(posts + added =~= (posts + added.drop_last()).push(added.last()));
    }
    let all = after_creates(posts, added);
    assert forall|i: int| 0 <= i < added.len() implies all.contains(#[trigger] added[i]) by {
        assert(all[posts.len() + i] == added[i]);
    }
}

/// Of creates with identifiers that are distinct and unused before, each post
/// is found afterwards by its identifier, as it was added.
pub proof fn lemma_creates_all_found(posts: Seq<Post>, added: Seq<Post>, k: int)
    requires
        0 <= k < added.len(),
        forall|i: int, j: int|
            0 <= i < added.len() && 0 <= j < added.len() && i != j ==> #[trigger] added[i]@.post_id
                != #[trigger] added[j]@.post_id,
        forall|i: int| 0 <= i < added.len() ==> id_unused(posts, #[trigger] added[i]@.post_id),
    ensures
        first_with_id(after_creates(posts, added), added[k]@.post_id) == Some(added[k]),
{
    lemma_creates_all_kept(posts, added);
    let before = posts + added.subrange(0, k);
    let p = added[k];
    assert(id_unused(before, p@.post_id)) by {
        assert forall|i: int| 0 <= i < before.len() implies #[trigger] before[i]@.post_id
            != p@.post_id by {
            if i >= posts.len() {
                assert(before[i] == added[i - posts.len()]);
            }
        }
    }
    lemma_create_then_find(before, p);
    lemma_first_kept(before.push(p), added.subrange(k + 1, added.len() as int), p@.post_id);
    assert(before.push(p) + added.subrange(k + 1, added.len() as int) =~= posts + added);
}

/// Appending posts with other identifiers changes nothing of a lookup that
/// already succeeds.
proof fn lemma_first_kept(posts: Seq<Post>, more: Seq<Post>, id: u128)
    requires
        first_with_id(posts, id) is Some,
    ensures
        first_with_id(posts + more, id) == first_with_id(posts, id),
    decreases posts.len(),
{
    if posts[0]@.post_id != id {
        assert((posts + more).drop_first() =~= posts.drop_first() + more);
        lemma_first_kept(posts.drop_first(), more, id);
    } else {
        assert((posts + more)[0] == posts[0]);
    }
}

} // verus!

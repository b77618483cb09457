use vstd::prelude::*;

use crate::models::Post;

verus! {

/// The first post of `posts` whose identifier is `id`, if any.
pub open spec fn first_with_id(posts: Seq<Post>, id: u128) -> Option<Post>
    decreases posts.len(),
{
    if posts.len() == 0 {
        None
    } else if posts[0]@.post_id == id {
        Some(posts[0])
    } else {
        first_with_id(posts.drop_first(), id)
    }
}

/// The in-memory collection of posts, in the order in which they were added.
#[derive(Debug)]
pub struct Database {
    posts: Vec<Post>,
}

impl View for Database {
    type V = Seq<Post>;

    closed spec fn view(&self) -> Seq<Post> {
        self.posts@
    }
}

impl Clone for Database {
    fn clone(&self) -> (r: Database)
        ensures
            r@ == self@,
    {
        let mut posts: Vec<Post> = Vec::new();
        let mut i: usize = 0;
        while i < self.posts.len()
            invariant
                i <= self.posts@.len(),
                posts@ == self.posts@.subrange(0, i as int),
            decreases self.posts@.len() - i,
        {
            posts.push(self.posts[i].clone());
            i = i + 1;
            assert(posts@ =~= self.posts@.subrange(0, i as int));
        }
        assert(posts@ =~= self.posts@);
        Database { posts }
    }
}

impl Database {
    pub fn new() -> (r: Database)
        ensures
            r@ == Seq::<Post>::empty(),
    {
        Database { posts: Vec::new() }
    }

    /// Appends `post` at the end, whatever its identifier.
    pub fn add_post(&mut self, post: Post)
        ensures
            final(self)@ == old(self)@.push(post),
    {
        self.posts.push(post);
    }

    pub fn get_posts(&self) -> (r: &Vec<Post>)
        ensures
            r@ == self@,
    {
        &self.posts
    }

    /// A copy of the first post whose identifier is `post_id`.
    pub fn find_post(&self, post_id: u128) -> (r: Option<Post>)
        ensures
            r == first_with_id(self@, post_id),
    {
        let n = self.posts.len();
        let mut i: usize = 0;
        assert(self@.subrange(0, n as int) =~= self@);
        while i < n
            invariant
                n == self.posts@.len(),
                i <= n,
                first_with_id(self@, post_id) == first_with_id(self@.subrange(i as int, n as int), post_id),
            decreases n - i,
        {
            let ghost rest = self@.subrange(i as int, n as int);
            assert(rest.drop_first() =~= self@.subrange(i + 1, n as int));
            if self.posts[i].post_id() == post_id {
                return Some(self.posts[i].clone());
            }
            i = i + 1;
        }
        None
    }
}

} // verus!

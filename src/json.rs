use vstd::prelude::*;
use vstd::string::*;

use crate::models::{date_text_of, Post, PostView};

verus! {

#[verifier::external_type_specification]
#[verifier::external_body]
pub struct ExJsonError(serde_json::Error);

/// The JSON string literal that serde_json writes for the text `s`.
pub uninterp spec fn json_string_of(s: Seq<char>) -> Seq<char>;

/// The hyphenated lower-case text of the UUID whose value is `id`.
pub uninterp spec fn uuid_text_of(id: u128) -> Seq<char>;

/// Relies on serde_json::to_string on a `str`: the quoted and escaped
/// literal, a function of the text alone. Writing a string into the `Vec`
/// that `to_string` uses cannot fail.
#[verifier::external_body]
fn quote(s: &str) -> (r: Result<String, serde_json::Error>)
    ensures
        r is Ok,
        r matches Ok(t) ==> t@ == json_string_of(s@),
{
    serde_json::to_string(s)
}

/// Relies on uuid::Uuid::from_u128 and the `Display` of `Hyphenated`: the
/// hyphenated text of the identifier, which serde writes for a UUID.
#[verifier::external_body]
fn uuid_text(id: u128) -> (r: String)
    ensures
        r@ == uuid_text_of(id),
{
    uuid::Uuid::from_u128(id).hyphenated().to_string()
}

/// The JSON object of a post, with camel-case keys in field order, where its
/// date can be written.
pub open spec fn post_json(p: PostView) -> Option<Seq<char>> {
    match date_text_of(p.date.0, p.date.1) {
        None => None,
        Some(d) => Some(
            "{\"title\":"@ + json_string_of(p.title)
            + ",\"body\":"@ + json_string_of(p.body)
            + ",\"author\":"@ + json_string_of(p.author)
            + ",\"date\":"@ + json_string_of(d)
            + ",\"postId\":"@ + json_string_of(uuid_text_of(p.post_id))
            + "}"@,
        ),
    }
}

/// The JSON objects of `posts`, separated by commas.
pub open spec fn posts_items_json(posts: Seq<Post>) -> Option<Seq<char>>
    decreases posts.len(),
{
    if posts.len() == 0 {
        Some(Seq::empty())
    } else {
        match (posts_items_json(posts.drop_last()), post_json(posts.last()@)) {
            (Some(a), Some(b)) => Some(if posts.len() == 1 { b } else { a + ","@ + b }),
            _ => None,
        }
    }
}

/// The JSON array of `posts`, in their order.
pub open spec fn posts_json(posts: Seq<Post>) -> Option<Seq<char>> {
    match posts_items_json(posts) {
        None => None,
        Some(items) => Some("["@ + items + "]"@),
    }
}

/// Appends the JSON literal of `s` to `out`.
fn push_quoted(out: &mut String, s: &str)
    ensures
        final(out)@ == old(out)@ + json_string_of(s@),
{
    match quote(s) {
        Ok(t) => out.append(t.as_str()),
        Err(_) => {},
    }
}

/// Appends the JSON object of `p` to `out`.
fn push_post(out: &mut String, p: &Post)
    ensures
        post_json(p@) is Some,
        final(out)@ == old(out)@ + post_json(p@)->Some_0,
{
    let date = p.date().text();
    let id = uuid_text(p.post_id());
    out.append("{\"title\":");
    push_quoted(out, p.title());
    out.append(",\"body\":");
    push_quoted(out, p.body());
    out.append(",\"author\":");
    push_quoted(out, p.author());
    out.append(",\"date\":");
    push_quoted(out, date.as_str());
    out.append(",\"postId\":");
    push_quoted(out, id.as_str());
    out.append("}");
    assert(final(out)@ =~= old(out)@ + post_json(p@)->Some_0);
}

/// Serializes one post as a JSON object.
pub fn encode_post(p: &Post) -> (r: String)
    ensures
        post_json(p@) == Some(r@),
{
    let mut out = String::new();
    push_post(&mut out, p);
    assert(out@ =~= post_json(p@)->Some_0);
    out
}

/// Serializes the posts as a JSON array, in their order.
pub fn encode_posts(posts: &Vec<Post>) -> (r: String)
    ensures
        posts_json(posts@) == Some(r@),
{
    let mut out = String::from_str("[");
    let mut i: usize = 0;
    while i < posts.len()
        invariant
            i <= posts@.len(),
            posts_items_json(posts@.subrange(0, i as int)) is Some,
            out@ == "["@ + posts_items_json(posts@.subrange(0, i as int))->Some_0,
        decreases posts@.len() - i,
    {
        if i > 0 {
            out.append(",");
        }
        push_post(&mut out, &posts[i]);
        proof {
            let s = posts@.subrange(0, i + 1);
            assert(s.drop_last() =~= posts@.subrange(0, i as int));
            assert(s.last() == posts@[i as int]);
        }
        i = i + 1;
    }
    out.append("]");
    assert(posts@.subrange(0, i as int) =~= posts@);
    out
}

} // verus!

use vstd::prelude::*;
use vstd::string::*;

verus! {

/// The RFC 3339 text that chrono gives the instant (`None` where chrono
/// cannot represent it).
pub uninterp spec fn date_text_of(secs: i64, nanos: u32) -> Option<Seq<char>>;

/// Relies on chrono::DateTime::from_timestamp, which is `None` out of
/// chrono's range, and on `to_rfc3339_opts(AutoSi, true)`, the text that
/// chrono's serde support writes for a `DateTime<Utc>`.
#[verifier::external_body]
fn date_text(secs: i64, nanos: u32) -> (r: Option<String>)
    ensures
        r is Some <==> date_text_of(secs, nanos) is Some,
        r matches Some(t) ==> date_text_of(secs, nanos) == Some(t@),
{
    match chrono::DateTime::from_timestamp(secs, nanos) {
        Some(d) => Some(d.to_rfc3339_opts(chrono::SecondsFormat::AutoSi, true)),
        None => None,
    }
}

/// A UTC instant that chrono can represent, as whole seconds since the Unix
/// epoch and the nanoseconds past that second.
#[derive(Clone, Copy, Debug, PartialEq, Eq, Structural)]
pub struct Timestamp {
    secs: i64,
    nanos: u32,
}

impl View for Timestamp {
    type V = (i64, u32);

    closed spec fn view(&self) -> (i64, u32) {
        (self.secs, self.nanos)
    }
}

impl Timestamp {
    #[verifier::type_invariant]
    spec fn representable(self) -> bool {
        date_text_of(self.secs, self.nanos) is Some
    }

    /// The instant `secs` seconds and `nanos` nanoseconds past the epoch;
    /// `None` where chrono cannot represent it.
    pub fn new(secs: i64, nanos: u32) -> (r: Option<Timestamp>)
        ensures
            r is Some <==> date_text_of(secs, nanos) is Some,
            r matches Some(t) ==> t@ == (secs, nanos),
    {
        match date_text(secs, nanos) {
            Some(_) => Some(Timestamp { secs, nanos }),
            None => None,
        }
    }

    pub fn secs(&self) -> (r: i64)
        ensures
            r == self@.0,
    {
        self.secs
    }

    pub fn nanos(&self) -> (r: u32)
        ensures
            r == self@.1,
    {
        self.nanos
    }

    /// The RFC 3339 text of the instant.
    pub fn text(&self) -> (r: String)
        ensures
            date_text_of(self@.0, self@.1) == Some(r@),
    {
        proof {
            use_type_invariant(self);
        }
        match date_text(self.secs, self.nanos) {
            Some(t) => t,
            None => String::new(),
        }
    }
}

/// What a post holds, as plain values.
pub struct PostView {
    pub title: Seq<char>,
    pub body: Seq<char>,
    pub author: Seq<char>,
    pub date: (i64, u32),
    pub post_id: u128,
}

/// A post of the collection. Its identifier is the 128-bit value of a UUID;
/// nothing changes a post once it is made.
#[derive(Debug)]
pub struct Post {
    title: String,
    body: String,
    author: String,
    date: Timestamp,
    post_id: u128,
}

impl View for Post {
    type V = PostView;

    closed spec fn view(&self) -> PostView {
        PostView {
            title: self.title@,
            body: self.body@,
            author: self.author@,
            date: self.date@,
            post_id: self.post_id,
        }
    }
}

impl Clone for Post {
    fn clone(&self) -> (r: Post)
        ensures
            r == *self,
    {
        Post {
            title: self.title.clone(),
            body: self.body.clone(),
            author: self.author.clone(),
            date: self.date,
            post_id: self.post_id,
        }
    }
}

impl Post {
    pub fn new(title: &str, body: &str, author: &str, date: Timestamp, post_id: u128) -> (r: Post)
        ensures
            r@ == (PostView { title: title@, body: body@, author: author@, date: date@, post_id }),
    {
        Post {
            title: title.to_string(),
            body: body.to_string(),
            author: author.to_string(),
            date,
            post_id,
        }
    }

    pub fn post_id(&self) -> (r: u128)
        ensures
            r == self@.post_id,
    {
        self.post_id
    }

    pub fn title(&self) -> (r: &str)
        ensures
            r@ == self@.title,
    {
        self.title.as_str()
    }

    pub fn body(&self) -> (r: &str)
        ensures
            r@ == self@.body,
    {
        self.body.as_str()
    }

    pub fn author(&self) -> (r: &str)
        ensures
            r@ == self@.author,
    {
        self.author.as_str()
    }

    pub fn date(&self) -> (r: Timestamp)
        ensures
            r@ == self@.date,
    {
        self.date
    }
}

} // verus!

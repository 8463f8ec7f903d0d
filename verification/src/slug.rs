//! Slugs: the restricted identifiers of the home-automation platform.
//!
//! A slug consists solely of lowercase ASCII letters, digits and
//! underscores.  Object identifiers are slugs; an entity identifier is
//! a domain and an object identifier joined by a dot.

use vstd::prelude::*;

verus! {

/// Whether one character may appear in a slug.
pub open spec fn is_slug_char(c: char) -> bool {
    ('a' <= c && c <= 'z') || ('0' <= c && c <= '9') || c == '_'
}

/// Whether a string is a slug: every character is allowed.
pub open spec fn is_slug(s: Seq<char>) -> bool {
    forall|i: int| 0 <= i < s.len() ==> is_slug_char(#[trigger] s[i])
}

/// The first character that keeps a string from being a slug.
#[derive(Debug, Clone, Copy, PartialEq, Eq, Structural)]
pub struct SlugParsingError {
    pub encountered: char,
}

/// A string known to consist solely of lowercase ASCII letters, digits
/// and underscores.
#[derive(Debug, Clone)]
pub struct Slug {
    text: String,
}

impl View for Slug {
    type V = Seq<char>;

    closed spec fn view(&self) -> Seq<char> {
        self.text@
    }
}

impl Slug {
    /// Every slug satisfies the slug character rule.
    pub closed spec fn wf(&self) -> bool {
        is_slug(self.text@)
    }

    /// Validates a string as a slug: accepts exactly the strings all of
    /// whose characters are allowed, and reports the first offending
    /// character otherwise.
    pub fn parse(s: &str) -> (r: Result<Slug, SlugParsingError>)
        ensures
            r is Ok <==> is_slug(s@),
            r matches Ok(slug) ==> slug@ == s@ && slug.wf(),
            r matches Err(e) ==> exists|idx: int|
                {
                    &&& 0 <= idx < s@.len()
                    &&& !is_slug_char(#[trigger] s@[idx])
                    &&& e.encountered == s@[idx]
                    &&& forall|j: int| 0 <= j < idx ==> is_slug_char(#[trigger] s@[j])
                },
    {
        let n = s.unicode_len();
        let mut i: usize = 0;
        while i < n
            invariant
                n == s@.len(),
                i <= n,
                forall|j: int| 0 <= j < i ==> is_slug_char(#[trigger] s@[j]),
            decreases n - i,
        {
            let c = s.get_char(i);
            let allowed = ('a' <= c && c <= 'z') || ('0' <= c && c <= '9') || c == '_';
            if !allowed {
                proof {
                    assert(!is_slug_char(s@[i as int]));
                }
                return Err(SlugParsingError { encountered: c });
            }
            i = i + 1;
        }
        Ok(Slug { text: s.to_owned() })
    }

    /// The slug's text.
    pub fn as_str(&self) -> (r: &str)
        ensures
            r@ == self@,
    {
        self.text.as_str()
    }
}

/// The object-identifier part of an entity identifier; any slug.
#[derive(Debug, Clone)]
pub struct ObjectId(pub Slug);

/// What keeps a string from being an object identifier: the same rule
/// as for any slug.
pub type ObjectIdParsingError = SlugParsingError;

impl View for ObjectId {
    type V = Seq<char>;

    open spec fn view(&self) -> Seq<char> {
        self.0@
    }
}

impl ObjectId {
    /// Validates a string as an object identifier; exactly slug
    /// validation.
    pub fn parse(s: &str) -> (r: Result<ObjectId, ObjectIdParsingError>)
        ensures
            r is Ok <==> is_slug(s@),
            r matches Ok(id) ==> id@ == s@,
            r matches Err(e) ==> exists|idx: int|
                {
                    &&& 0 <= idx < s@.len()
                    &&& !is_slug_char(#[trigger] s@[idx])
                    &&& e.encountered == s@[idx]
                    &&& forall|j: int| 0 <= j < idx ==> is_slug_char(#[trigger] s@[j])
                },
    {
        match Slug::parse(s) {
            Ok(slug) => Ok(ObjectId(slug)),
            Err(e) => Err(e),
        }
    }
}

} // verus!

use vstd::prelude::*;

use crate::text::{ascii_lower, lower_equals, text_chars};

verus! {

/// Which objects a query to the stores microservice may see.
#[derive(Clone, Copy, Debug, PartialEq, Eq, Structural)]
pub enum Visibility {
    Active,
    Published,
}

/// The text by which a visibility travels in a query string.
pub open spec fn visibility_text(v: Visibility) -> Seq<char> {
    match v {
        Visibility::Active => seq!['a', 'c', 't', 'i', 'v', 'e'],
        Visibility::Published => seq!['p', 'u', 'b', 'l', 'i', 's', 'h', 'e', 'd'],
    }
}

/// The visibility that a text names, ignoring ASCII case.
pub open spec fn visibility_of_text(s: Seq<char>) -> Option<Visibility> {
    if ascii_lower(s) == visibility_text(Visibility::Active) {
        Some(Visibility::Active)
    } else if ascii_lower(s) == visibility_text(Visibility::Published) {
        Some(Visibility::Published)
    } else {
        None
    }
}

impl Visibility {
    /// Reads a visibility from its name, in any ASCII case.
    pub fn parse(s: &str) -> (r: Option<Visibility>)
        ensures
            r == visibility_of_text(s@),
    {
        let chars = text_chars(s);
        let active = vec!['a', 'c', 't', 'i', 'v', 'e'];
        let published = vec!['p', 'u', 'b', 'l', 'i', 's', 'h', 'e', 'd'];
        assert(active@ =~= visibility_text(Visibility::Active));
        assert(published@ =~= visibility_text(Visibility::Published));
        if lower_equals(&chars, &active) {
            Some(Visibility::Active)
        } else if lower_equals(&chars, &published) {
            Some(Visibility::Published)
        } else {
            None
        }
    }

    /// The name of a visibility, as it is written in a query string.
    pub fn as_str(&self) -> (r: &'static str)
        ensures
            r@ == visibility_text(*self),
    {
        proof {
            reveal_strlit("active");
            reveal_strlit("published");
        }
        match self {
            Visibility::Active => "active",
            Visibility::Published => "published",
        }
    }

    /// The name of a visibility as an owned text.
    pub fn to_string(&self) -> (r: String)
        ensures
            r@ == visibility_text(*self),
    {
        self.as_str().to_owned()
    }
}

impl Default for Visibility {
    /// Queries see published objects unless told otherwise.
    fn default() -> (r: Visibility)
        ensures
            r == Visibility::Published,
    {
        Visibility::Published
    }
}

impl std::str::FromStr for Visibility {
    type Err = ();

    fn from_str(s: &str) -> (r: Result<Visibility, ()>)
        ensures
            match visibility_of_text(s@) {
                Some(v) => r == Ok::<Visibility, ()>(v),
                None => r is Err,
            },
    {
        match Visibility::parse(s) {
            Some(v) => Ok(v),
            None => Err(()),
        }
    }
}

/// Writing a visibility and reading it back gives the same visibility.
pub proof fn lemma_visibility_round_trip(v: Visibility)
    ensures
        visibility_of_text(visibility_text(v)) == Some(v),
{
    let a = visibility_text(Visibility::Active);
    let p = visibility_text(Visibility::Published);
    assert(ascii_lower(a) =~= a);
    assert(ascii_lower(p) =~= p);
    assert(a.len() != p.len());
}

}

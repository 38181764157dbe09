use vstd::prelude::*;

verus! {

/// The part of the application that an event comes from.
#[derive(Clone, Copy, Debug, PartialEq, Eq, Structural)]
pub enum SentrySource {
    Backend,
    Mcp,
}

/// The scope tag that names a source.
pub open spec fn source_tag(source: SentrySource) -> Seq<char> {
    match source {
        SentrySource::Backend => seq!['b', 'a', 'c', 'k', 'e', 'n', 'd'],
        SentrySource::Mcp => seq!['m', 'c', 'p'],
    }
}

impl SentrySource {
    /// The lowercase identifier set as the scope's `source` tag.
    pub fn tag(self) -> (r: &'static str)
        ensures
            r@ == source_tag(self),
    {
        match self {
            SentrySource::Backend => {
                proof { reveal_strlit("backend"); }
                "backend"
            },
            SentrySource::Mcp => {
                proof { reveal_strlit("mcp"); }
                "mcp"
            },
        }
    }
}

} // verus!

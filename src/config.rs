use vstd::prelude::*;

verus! {

/// The environment label sent with every event: `dev` for a debug build,
/// `production` otherwise.
pub open spec fn environment_label(debug_build: bool) -> Seq<char> {
    if debug_build {
        seq!['d', 'e', 'v']
    } else {
        seq!['p', 'r', 'o', 'd', 'u', 'c', 't', 'i', 'o', 'n']
    }
}

/// Whether a read of the secret variable turns reporting on: it must be set
/// and hold at least one character.
pub open spec fn configured(secret: Option<Seq<char>>) -> bool {
    match secret {
        Some(s) => s.len() > 0,
        None => false,
    }
}

/// The character view of an optional string slice.
pub open spec fn opt_str_view(s: Option<&str>) -> Option<Seq<char>> {
    match s {
        Some(t) => Some(t@),
        None => None,
    }
}

/// The environment label for a build with or without debug assertions.
pub fn environment(debug_build: bool) -> (r: &'static str)
    ensures
        r@ == environment_label(debug_build),
{
    if debug_build {
        proof { reveal_strlit("dev"); }
        "dev"
    } else {
        proof { reveal_strlit("production"); }
        "production"
    }
}

/// What the reporting client is built with, besides the release name that
/// the build supplies.
#[derive(Debug)]
pub struct ClientSettings {
    /// The connection string of the reporting service.
    pub dsn: String,
    /// The environment label.
    pub environment: &'static str,
}

} // verus!

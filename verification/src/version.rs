//! Exact semantic versions.
use vstd::prelude::*;

verus! {

/// What `semver::Version::parse` makes of `text`: the version it reads,
/// printed again, or `None` where it reads none.
pub uninterp spec fn semver_text(text: Seq<char>) -> Option<Seq<char>>;

/// Calls `semver::Version::parse` and prints the version it returns with the
/// crate's `Display`. The contract only gives that outcome its name.
#[verifier::external_body]
fn semver_canonical(text: &str) -> (canonical: Option<String>)
    ensures
        match canonical {
            Some(printed) => semver_text(text@) == Some(printed@),
            None => semver_text(text@).is_none(),
        },
{
    semver::Version::parse(text).ok().map(|version| version.to_string())
}

/// An exact semantic version, held as the text that the `semver` crate prints
/// for it. Two versions are the same version exactly when that text is the
/// same: the printed form shows every component, build metadata included.
#[derive(Debug)]
pub struct Version {
    text: String,
}

impl View for Version {
    type V = Seq<char>;

    closed spec fn view(&self) -> Seq<char> {
        self.text@
    }
}

impl Version {
    /// Reads a version. `None` where `text` is no semantic version.
    pub fn parse(text: &str) -> (version: Option<Version>)
        ensures
            match version {
                Some(v) => semver_text(text@) == Some(v@),
                None => semver_text(text@).is_none(),
            },
    {
        match semver_canonical(text) {
            Some(printed) => Some(Version { text: printed }),
            None => None,
        }
    }

    /// The version as text, such as `1.2.3` or `1.0.0-rc.1+build.5`.
    pub fn as_str(&self) -> (text: &str)
        ensures
            text@ == self@,
    {
        self.text.as_str()
    }

    /// The version as an owned string.
    pub fn to_string(&self) -> (text: String)
        ensures
            text@ == self@,
    {
        self.text.clone()
    }
}

impl Clone for Version {
    fn clone(&self) -> (copy: Self)
        ensures
            copy@ == self@,
    {
        Version { text: self.text.clone() }
    }
}

impl PartialEq for Version {
    fn eq(&self, other: &Self) -> (same: bool) {
        self.text == other.text
    }
}

impl Eq for Version {

}

impl vstd::std_specs::cmp::PartialEqSpecImpl for Version {
    open spec fn obeys_eq_spec() -> bool {
        true
    }

    open spec fn eq_spec(&self, other: &Self) -> bool {
        self@ == other@
    }
}

} // verus!

//! Where the kinds of failure are documented, and whether reports say so.
use vstd::prelude::*;
use vstd::string::*;

verus! {

/// Whether documentation addresses are shown, given what the opt-out
/// toggle holds: they are shown unless the toggle is set to something
/// other than the empty string.
pub open spec fn urls_wanted(toggle: Option<Seq<char>>) -> bool {
    match toggle {
        Some(value) => value.len() == 0,
        None => true,
    }
}

/// The address under which the kinds of the given version are documented,
/// below the given base address.
pub open spec fn version_prefix(base: Seq<char>, version: Seq<char>) -> Seq<char> {
    base + version + "/v/"@
}

/// What an optional prefix stands for.
pub open spec fn prefix_model(url_prefix: Option<&str>) -> Option<Seq<char>> {
    match url_prefix {
        Some(p) => Some(p@),
        None => None,
    }
}

/// The settings that every report of one process shares: the prefix of
/// the documentation addresses, and whether they are shown by default.
#[derive(Debug, PartialEq, Eq)]
pub struct UrlSettings {
    pub prefix: String,
    pub include_url: bool,
}

/// Whether documentation addresses are shown, given what the opt-out
/// toggle holds.
pub fn include_url_from_toggle(toggle: Option<&str>) -> (r: bool)
    ensures
        r == urls_wanted(
            match toggle {
                Some(value) => Some(value@),
                None => None,
            },
        ),
{
    match toggle {
        Some(value) => value.unicode_len() == 0,
        None => true,
    }
}

impl UrlSettings {
    /// The prefix that reports show when addresses are asked for, else
    /// nothing.
    pub open spec fn shown_prefix(self, include_url: bool) -> Option<Seq<char>> {
        if include_url {
            Some(self.prefix@)
        } else {
            None
        }
    }

    /// The settings for the given base address of the documentation, the
    /// given version and the given content of the opt-out toggle.
    pub fn new(base: &str, version: &str, toggle: Option<&str>) -> (r: UrlSettings)
        ensures
            r.prefix@ == version_prefix(base@, version@),
            r.include_url == urls_wanted(
                match toggle {
                    Some(value) => Some(value@),
                    None => None,
                },
            ),
    {
        let mut prefix = String::from_str(base);
        prefix.append(version);
        prefix.append("/v/");
        UrlSettings { prefix, include_url: include_url_from_toggle(toggle) }
    }

    /// The prefix of the documentation addresses if they are to be shown,
    /// else nothing.
    pub fn get_url_prefix(&self, include_url: bool) -> (r: Option<&str>)
        ensures
            prefix_model(r) == self.shown_prefix(include_url),
    {
        if include_url {
            Some(self.prefix.as_str())
        } else {
            None
        }
    }
}

} // verus!

use vstd::prelude::*;

verus! {

/// A yes/no flag as the site's forms encode it.
#[derive(Debug, Clone, Copy, PartialEq, Eq, Structural)]
pub enum YesNo {
    No,
    Yes,
}

impl YesNo {
    /// The flag as a boolean.
    pub open spec fn spec_bool(self) -> bool {
        self is Yes
    }

    /// The form value that the site expects for this flag.
    pub open spec fn spec_str(self) -> Seq<char> {
        if self is Yes {
            "1"@
        } else {
            "0"@
        }
    }

    pub fn new(value: bool) -> (r: Self)
        ensures
            r.spec_bool() == value,
    {
        if value {
            YesNo::Yes
        } else {
            YesNo::No
        }
    }

    pub fn negate(&self) -> (r: Self)
        ensures
            r.spec_bool() == !self.spec_bool(),
    {
        match self {
            YesNo::Yes => YesNo::No,
            YesNo::No => YesNo::Yes,
        }
    }

    pub fn as_str(&self) -> (r: &'static str)
        ensures
            r@ == self.spec_str(),
    {
        match self {
            YesNo::Yes => "1",
            YesNo::No => "0",
        }
    }
}

/// Session cookies of an already authenticated account.
#[derive(Debug)]
pub struct CookieConfig {
    /// Session cookie (`ses`).
    pub ses: String,
    /// Login cookie (`userl`).
    pub userl: String,
}

/// Defaults applied to every book that is created.
#[derive(Debug, Clone, Copy)]
pub struct Novel {
    /// Whether a book may be listed by the site's search.
    pub searchable: YesNo,
}

impl Default for Novel {
    fn default() -> (r: Self)
        ensures
            r.searchable == YesNo::Yes,
    {
        Novel { searchable: default_search() }
    }
}

/// Immutable run configuration, passed to every component that needs it.
#[derive(Debug)]
pub struct SyosetuConfig {
    /// Base URL of the site, without a trailing slash.
    pub base_url: String,
    /// Directory holding one subdirectory per book.
    pub data_dir: String,
    /// Authentication material.
    pub cookie: CookieConfig,
    /// Defaults for new books.
    pub novel: Novel,
}

impl SyosetuConfig {
    pub fn cookie(&self) -> (r: &CookieConfig)
        ensures
            r == &self.cookie,
    {
        &self.cookie
    }

    pub fn novel(&self) -> (r: &Novel)
        ensures
            r == &self.novel,
    {
        &self.novel
    }
}

pub fn default_base_url() -> (r: String)
    ensures
        r@ == "https://syosetu.com"@,
{
    String::from_str("https://syosetu.com")
}

pub fn default_search() -> (r: YesNo)
    ensures
        r == YesNo::Yes,
{
    YesNo::Yes
}

pub fn default_data_dir() -> (r: String)
    ensures
        r@ == "./output"@,
{
    String::from_str("./output")
}

} // verus!

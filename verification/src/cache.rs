//! The cache directory: where it is, and what its teardown comes to.

use vstd::prelude::*;
use vstd::string::*;
use crate::path::{join, joined, lemma_joined_name, name_part, SEPARATOR};
use crate::text::complaint;

verus! {

/// The cache directory for a given home directory: `.bashx/cache` below it.
/// Without a home directory it is the relative path `.bashx/cache`.
pub open spec fn cache_dir_of(home: Option<Seq<char>>) -> Seq<char> {
    let base = match home {
        Some(dir) => dir,
        None => Seq::empty(),
    };
    joined(joined(base, ".bashx"@), "cache"@)
}

/// A path is a cache directory when it is the one of some home directory, or
/// of none.
pub open spec fn is_cache_dir(dir: Seq<char>) -> bool {
    exists|home: Option<Seq<char>>| dir == #[trigger] cache_dir_of(home)
}

/// Calls `dirs::home_dir` and hands the path on as text; a home directory
/// that is not valid Unicode counts as unknown. Nothing is claimed of the
/// result: it depends on the user and the environment.
#[verifier::external_body]
fn home_dir() -> (home: Option<String>) {
    match dirs::home_dir() {
        Some(dir) => dir.into_os_string().into_string().ok(),
        None => None,
    }
}

/// The cache directory that belongs to `home`. An unknown home directory is
/// no error: the result is then the relative path.
pub fn cache_dir_from_home(home: Option<&str>) -> (dir: String)
    ensures
        dir@ == cache_dir_of(home.deep_view()),
{
    let base = match home {
        Some(dir) => dir,
        None => "",
    };
    proof {
        reveal_strlit("");
        assert(""@ =~= Seq::<char>::empty());
    }
    let below = join(base, ".bashx");
    join(below.as_str(), "cache")
}

/// The cache directory of the user who runs the program. Whatever the
/// environment says of the home directory, the result is the cache directory
/// of that answer.
pub fn get_cache_dir() -> (dir: String)
    ensures
        is_cache_dir(dir@),
{
    let home = home_dir();
    let dir = match &home {
        Some(found) => cache_dir_from_home(Some(found.as_str())),
        None => cache_dir_from_home(None),
    };
    proof {
        assert(dir@ == cache_dir_of(home.deep_view()));
    }
    dir
}

/// Every cache directory is a directory named `cache`.
pub proof fn lemma_cache_dir_name(dir: Seq<char>)
    requires
        is_cache_dir(dir),
    ensures
        name_part(dir) == "cache"@,
        dir.len() >= 12,
{
    let home = choose|home: Option<Seq<char>>| dir == #[trigger] cache_dir_of(home);
    let base = match home {
        Some(d) => d,
        None => Seq::empty(),
    };
    reveal_strlit("cache");
    reveal_strlit(".bashx");
    assert forall|j: int| 0 <= j < "cache"@.len() implies "cache"@[j] != SEPARATOR by {}
    lemma_joined_name(joined(base, ".bashx"@), "cache"@);
}

/// Without a home directory the cache is the relative path `.bashx/cache`,
/// and so it is below an empty one.
pub proof fn lemma_cache_dir_without_home()
    ensures
        cache_dir_of(None) == ".bashx/cache"@,
        cache_dir_of(Some(Seq::empty())) == ".bashx/cache"@,
{
    reveal_strlit(".bashx");
    reveal_strlit("cache");
    reveal_strlit(".bashx/cache");
    assert(cache_dir_of(None) =~= ".bashx/cache"@);
}

/// Below a home directory that does not end in a separator, the cache is the
/// home directory followed by `/.bashx/cache`.
pub proof fn lemma_cache_dir_below_home(home: Seq<char>)
    requires
        home.len() > 0,
        home.last() != SEPARATOR,
    ensures
        cache_dir_of(Some(home)) == home + "/.bashx/cache"@,
{
    reveal_strlit(".bashx");
    reveal_strlit("cache");
    reveal_strlit("/.bashx/cache");
    assert(cache_dir_of(Some(home)) =~= home + "/.bashx/cache"@);
}

/// What became of the cache directory when it was to be removed.
#[derive(Debug, Clone, PartialEq, Eq)]
pub enum Teardown {
    /// There was no cache directory.
    Absent,
    /// It was removed with all that it held.
    Removed,
    /// It could not be removed; `reason` is what the system said.
    Failed { reason: String },
}

/// What a [`Teardown`] holds.
pub enum TeardownView {
    Absent,
    Removed,
    Failed { reason: Seq<char> },
}

impl DeepView for Teardown {
    type V = TeardownView;

    open spec fn deep_view(&self) -> TeardownView {
        match self {
            Teardown::Absent => TeardownView::Absent,
            Teardown::Removed => TeardownView::Removed,
            Teardown::Failed { reason } => TeardownView::Failed { reason: reason@ },
        }
    }
}

impl View for Teardown {
    type V = TeardownView;

    open spec fn view(&self) -> TeardownView {
        self.deep_view()
    }
}

/// The complaint about a teardown, if there is one: the system's own words.
pub open spec fn clean_complaint(teardown: TeardownView) -> Option<Seq<char>> {
    match teardown {
        TeardownView::Absent => None,
        TeardownView::Removed => None,
        TeardownView::Failed { reason } => Some(reason),
    }
}

/// Judges a teardown. A cache that was not there is as good as one that was
/// removed; a removal that failed is an error in the system's own words.
pub fn clean_cache(teardown: &Teardown) -> (result: Result<(), String>)
    ensures
        complaint(result) == clean_complaint(teardown@),
{
    match teardown {
        Teardown::Absent => Ok(()),
        Teardown::Removed => Ok(()),
        Teardown::Failed { reason } => Err(reason.clone()),
    }
}

} // verus!

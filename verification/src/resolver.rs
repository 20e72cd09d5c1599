//! The script resolver: the script that a name stands for is the first one of
//! the walk that bears it. Later scripts of the same name are never looked
//! at, and none is ever returned beside the first.

use vstd::prelude::*;
use vstd::string::*;
use crate::index::{
    classified,
    classify,
    ScriptEntry,
    ScriptEntryView,
    WalkItem,
    WalkItemView,
};
use crate::text::same_text;

verus! {

/// The script that an item of a walk is, if it is one and bears `name`. The
/// comparison is exact; an empty name or one with a separator in it is
/// compared like any other.
pub open spec fn matching(item: WalkItemView, name: Seq<char>) -> Option<ScriptEntryView> {
    match classified(item) {
        Some(entry) => if entry.name == name {
            Some(entry)
        } else {
            None
        },
        None => None,
    }
}

/// The first script of the walk that bears `name`.
pub open spec fn resolved(walk: Seq<WalkItemView>, name: Seq<char>) -> Option<
    ScriptEntryView,
>
    decreases walk.len(),
{
    if walk.len() == 0 {
        None
    } else if matching(walk.first(), name) is Some {
        matching(walk.first(), name)
    } else {
        resolved(walk.drop_first(), name)
    }
}

/// One step of a lazy resolution: `Some` says that the walk can stop here.
pub fn resolve_step(item: &WalkItem, name: &str) -> (found: Option<ScriptEntry>)
    ensures
        found.deep_view() == matching(item@, name@),
        found matches Some(e) ==> e.wf(),
{
    match classify(item) {
        Some(entry) => {
            if same_text(entry.name.as_str(), name) {
                Some(entry)
            } else {
                None
            }
        },
        None => None,
    }
}

/// The script that `name` stands for in a walk that is already at hand: the
/// first that bears the name, or `None` if the walk holds no such script.
pub fn resolve_script(walk: &Vec<WalkItem>, name: &str) -> (found: Option<ScriptEntry>)
    ensures
        found.deep_view() == resolved(walk.deep_view(), name@),
        found matches Some(e) ==> e.wf(),
{
    let mut i: usize = 0;
    proof {
        assert(walk.deep_view().skip(0) =~= walk.deep_view());
    }
    while i < walk.len()
        invariant
            i <= walk.len(),
            resolved(walk.deep_view(), name@) == resolved(walk.deep_view().skip(i as int), name@),
        decreases walk.len() - i,
    {
        proof {
            let rest = walk.deep_view().skip(i as int);
            assert(rest.first() == walk[i as int]@);
            assert(rest.drop_first() =~= walk.deep_view().skip(i + 1));
        }
        match resolve_step(&walk[i], name) {
            Some(entry) => {
                return Some(entry);
            },
            None => {},
        }
        i = i + 1;
    }
    None
}

/// Where a script of the walk bears the name, the resolver returns a script
/// that bears it: the one at the first such place, whatever follows.
pub proof fn lemma_resolved_when_present(walk: Seq<WalkItemView>, name: Seq<char>, i: int)
    requires
        0 <= i < walk.len(),
        matching(walk[i], name) is Some,
    ensures
        resolved(walk, name) is Some,
        resolved(walk, name)->0.name == name,
        exists|first: int|
            0 <= first <= i && resolved(walk, name) == #[trigger] matching(walk[first], name)
                && forall|j: int| 0 <= j < first ==> matching(#[trigger] walk[j], name) is None,
    decreases walk.len(),
{
    if matching(walk.first(), name) is Some {
        assert(resolved(walk, name) == matching(walk[0], name));
    } else {
        let rest = walk.drop_first();
        assert(rest[i - 1] == walk[i]);
        lemma_resolved_when_present(rest, name, i - 1);
        let first = choose|first: int|
            0 <= first <= i - 1 && resolved(rest, name) == #[trigger] matching(rest[first], name)
                && forall|j: int| 0 <= j < first ==> matching(#[trigger] rest[j], name) is None;
        assert(rest[first] == walk[first + 1]);
        assert forall|j: int| 0 <= j < first + 1 implies matching(#[trigger] walk[j], name)
            is None by {
            if j > 0 {
                assert(rest[j - 1] == walk[j]);
            }
        }
        assert(resolved(walk, name) == matching(walk[first + 1], name));
    }
}

/// Where no script of the walk bears the name, the resolver finds nothing.
pub proof fn lemma_resolved_when_absent(walk: Seq<WalkItemView>, name: Seq<char>)
    requires
        forall|i: int| 0 <= i < walk.len() ==> matching(#[trigger] walk[i], name) is None,
    ensures
        resolved(walk, name) is None,
    decreases walk.len(),
{
    if walk.len() > 0 {
        let rest = walk.drop_first();
        assert forall|i: int| 0 <= i < rest.len() implies matching(#[trigger] rest[i], name)
            is None by {
            assert(rest[i] == walk[i + 1]);
        }
        lemma_resolved_when_absent(rest, name);
    }
}

/// What the resolver returns is a script of the walk that bears the name:
/// it invents nothing.
pub proof fn lemma_resolved_is_of_walk(walk: Seq<WalkItemView>, name: Seq<char>)
    requires
        resolved(walk, name) is Some,
    ensures
        exists|i: int| 0 <= i < walk.len() && #[trigger] matching(walk[i], name) == resolved(walk, name),
    decreases walk.len(),
{
    if matching(walk.first(), name) is Some {
        assert(matching(walk[0], name) == resolved(walk, name));
    } else {
        let rest = walk.drop_first();
        lemma_resolved_is_of_walk(rest, name);
        let i = choose|i: int|
            0 <= i < rest.len() && #[trigger] matching(rest[i], name) == resolved(rest, name);
        assert(rest[i] == walk[i + 1]);
        assert(matching(walk[i + 1], name) == resolved(walk, name));
    }
}

/// Resolving again changes nothing: two walks that found the same items in
/// the same order resolve every name to the same script, and asking for the
/// name of the script that was returned returns that script.
pub proof fn lemma_resolve_repeatable(
    first: Seq<WalkItemView>,
    second: Seq<WalkItemView>,
    name: Seq<char>,
)
    requires
        first.len() == second.len(),
        forall|i: int| 0 <= i < first.len() ==> first[i] == second[i],
    ensures
        resolved(first, name) == resolved(second, name),
        resolved(first, name) matches Some(entry) ==> resolved(second, entry.name) == Some(entry),
{
    assert(first =~= second);
    if resolved(first, name) is Some {
        lemma_resolved_is_of_walk(first, name);
    }
}

/// The walk can stop at the first match: what lies behind it has no say.
pub proof fn lemma_resolved_by_prefix(walk: Seq<WalkItemView>, name: Seq<char>, n: int)
    requires
        0 <= n <= walk.len(),
        resolved(walk.take(n), name) is Some,
    ensures
        resolved(walk, name) == resolved(walk.take(n), name),
    decreases n,
{
    let prefix = walk.take(n);
    assert(prefix.first() == walk.first());
    if matching(walk.first(), name) is None {
        assert(prefix.drop_first() =~= walk.drop_first().take(n - 1));
        lemma_resolved_by_prefix(walk.drop_first(), name, n - 1);
    }
}

/// No script has an empty name, so the empty name resolves to nothing.
pub proof fn lemma_empty_name_unresolved(walk: Seq<WalkItemView>)
    ensures
        resolved(walk, Seq::<char>::empty()) is None,
{
    let name = Seq::<char>::empty();
    assert forall|i: int| 0 <= i < walk.len() implies matching(#[trigger] walk[i], name)
        is None by {
        if classified(walk[i]) is Some {
            assert(classified(walk[i])->0.name.len() > 0);
        }
    }
    lemma_resolved_when_absent(walk, name);
}

} // verus!

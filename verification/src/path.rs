//! Paths as text. A path is a sequence of characters in which `/` separates
//! the directories from one another and from the file name at the end.

use vstd::prelude::*;
use vstd::string::*;
use crate::text::characters;

verus! {

/// The character between the parts of a path.
pub const SEPARATOR: char = '/';

/// Where the file name of `path` begins: just behind its last separator, or
/// at 0 when it has none.
pub open spec fn name_start(path: Seq<char>) -> int
    decreases path.len(),
{
    if path.len() == 0 || path.last() == SEPARATOR {
        path.len() as int
    } else {
        name_start(path.drop_last())
    }
}

/// The file name of `path`: what follows its last separator.
pub open spec fn name_part(path: Seq<char>) -> Seq<char> {
    path.subrange(name_start(path), path.len() as int)
}

/// The directory of `path`: what stands before its last separator. The root
/// directory keeps its separator; a path without one has the empty directory.
pub open spec fn parent_part(path: Seq<char>) -> Seq<char> {
    if name_start(path) <= 1 {
        path.subrange(0, name_start(path))
    } else {
        path.subrange(0, name_start(path) - 1)
    }
}

/// `segment` put below the directory `base`: one separator comes between them
/// unless `base` is empty or ends in one already.
pub open spec fn joined(base: Seq<char>, segment: Seq<char>) -> Seq<char> {
    if base.len() == 0 || base.last() == SEPARATOR {
        base + segment
    } else {
        base.push(SEPARATOR) + segment
    }
}

/// The file name begins behind a separator (or at the start), and holds none.
pub proof fn lemma_name_start(path: Seq<char>)
    ensures
        0 <= name_start(path) <= path.len(),
        name_start(path) > 0 ==> path[name_start(path) - 1] == SEPARATOR,
        forall|j: int| name_start(path) <= j < path.len() ==> path[j] != SEPARATOR,
    decreases path.len(),
{
    if path.len() > 0 && path.last() != SEPARATOR {
        let shorter = path.drop_last();
        lemma_name_start(shorter);
        assert forall|j: int| name_start(path) <= j < path.len() implies path[j] != SEPARATOR by {
            if j < shorter.len() {
                assert(path[j] == shorter[j]);
            }
        }
    }
}

/// There is one place only where a file name can begin: a position that
/// follows a separator (or is the start) with no separator behind it.
pub proof fn lemma_name_start_unique(path: Seq<char>, k: int)
    requires
        0 <= k <= path.len(),
        k > 0 ==> path[k - 1] == SEPARATOR,
        forall|j: int| k <= j < path.len() ==> path[j] != SEPARATOR,
    ensures
        name_start(path) == k,
    decreases path.len(),
{
    if path.len() > 0 && path.last() != SEPARATOR {
        let shorter = path.drop_last();
        assert(k < path.len()) by {
            if k == path.len() {
                assert(path[k - 1] == path.last());
            }
        }
        lemma_name_start_unique(shorter, k);
    } else if path.len() > 0 {
        assert(k == path.len()) by {
            if k < path.len() {
                assert(path[path.len() - 1] != SEPARATOR);
            }
        }
    }
}

/// A name without a separator, put below a directory, is that path's file
/// name.
pub proof fn lemma_joined_name(base: Seq<char>, name: Seq<char>)
    requires
        forall|j: int| 0 <= j < name.len() ==> name[j] != SEPARATOR,
    ensures
        name_part(joined(base, name)) == name,
        name_start(joined(base, name)) == joined(base, name).len() - name.len(),
{
    let path = joined(base, name);
    let k = path.len() - name.len();
    assert forall|j: int| k <= j < path.len() implies path[j] != SEPARATOR by {
        assert(path[j] == name[j - k]);
    }
    lemma_name_start_unique(path, k);
    assert(path.subrange(k, path.len() as int) =~= name);
}

/// Where the file name begins in a path given by its characters.
fn name_offset(chars: &Vec<char>) -> (start: usize)
    ensures
        start == name_start(chars@),
{
    let mut start: usize = 0;
    let mut i: usize = 0;
    while i < chars.len()
        invariant
            i <= chars.len(),
            start <= i,
            start == name_start(chars@.take(i as int)),
        decreases chars.len() - i,
    {
        proof {
            let longer = chars@.take(i + 1);
            assert(longer.drop_last() =~= chars@.take(i as int));
            assert(longer.last() == chars@[i as int]);
        }
        if chars[i] == SEPARATOR {
            start = i + 1;
        }
        i = i + 1;
    }
    proof {
        assert(chars@.take(i as int) =~= chars@);
    }
    start
}

/// The file name of `path`.
pub fn file_name(path: &str) -> (name: String)
    ensures
        name@ == name_part(path@),
{
    let chars = characters(path);
    let start = name_offset(&chars);
    proof {
        lemma_name_start(path@);
    }
    String::from_str(path.substring_char(start, chars.len()))
}

/// The directory that holds `path`.
pub fn parent_dir(path: &str) -> (parent: String)
    ensures
        parent@ == parent_part(path@),
{
    let chars = characters(path);
    let start = name_offset(&chars);
    proof {
        lemma_name_start(path@);
    }
    if start <= 1 {
        String::from_str(path.substring_char(0, start))
    } else {
        String::from_str(path.substring_char(0, start - 1))
    }
}

/// `segment` below the directory `base`.
pub fn join(base: &str, segment: &str) -> (path: String)
    ensures
        path@ == joined(base@, segment@),
{
    let chars = characters(base);
    let mut path = String::from_str(base);
    if chars.len() > 0 && chars[chars.len() - 1] != SEPARATOR {
        proof {
            reveal_strlit("/");
            assert("/"@ =~= seq![SEPARATOR]);
        }
        path.append("/");
        assert(path@ =~= base@.push(SEPARATOR));
    }
    path.append(segment);
    path
}

} // verus!

//! The script indexer: which of the things that a walk of the cache finds are
//! scripts, and what is known of each.
//!
//! A walk is handed over item by item, in the order in which the tree was
//! walked. An item is either a path, with the word whether a file is there,
//! or the mark of something that could not be read. The one rule that drops
//! items is [`classify`]: it drops an unreadable item, what is no file, and a
//! file whose name does not end in `.sh`.

use vstd::prelude::*;
use vstd::string::*;
use crate::path::{
    file_name,
    joined,
    lemma_joined_name,
    name_part,
    parent_dir,
    parent_part,
    SEPARATOR,
};
use crate::text::characters;

verus! {

/// The suffix that makes a file a script.
pub open spec fn script_suffix() -> Seq<char> {
    seq!['.', 's', 'h']
}

/// A file name is that of a script when it ends in `.sh` and something stands
/// before the suffix. The comparison is exact: `.SH` is no script suffix.
pub open spec fn is_script_name(file_name: Seq<char>) -> bool {
    file_name.len() > 3 && file_name.subrange(file_name.len() - 3, file_name.len() as int)
        == script_suffix()
}

/// The name by which a script is asked for: its file name without `.sh`.
pub open spec fn base_name(file_name: Seq<char>) -> Seq<char> {
    file_name.subrange(0, file_name.len() - 3)
}

/// One item of a walk of the cache tree.
#[derive(Debug, Clone, PartialEq, Eq)]
pub enum WalkItem {
    /// Something was there and could not be read, or its path could not be
    /// had as text.
    Unreadable,
    /// Something that was found, by its path. `is_file` says whether it is a
    /// file; a directory is none, whatever its name.
    Entry { path: String, is_file: bool },
}

/// What a [`WalkItem`] holds.
pub enum WalkItemView {
    Unreadable,
    Entry { path: Seq<char>, is_file: bool },
}

impl DeepView for WalkItem {
    type V = WalkItemView;

    open spec fn deep_view(&self) -> WalkItemView {
        match self {
            WalkItem::Unreadable => WalkItemView::Unreadable,
            WalkItem::Entry { path, is_file } => WalkItemView::Entry {
                path: path@,
                is_file: *is_file,
            },
        }
    }
}

impl View for WalkItem {
    type V = WalkItemView;

    open spec fn view(&self) -> WalkItemView {
        self.deep_view()
    }
}

/// A script found in the cache.
#[derive(Debug, Clone, PartialEq, Eq)]
pub struct ScriptEntry {
    /// The path of the file.
    pub path: String,
    /// The name by which it is asked for.
    pub name: String,
    /// The directory that holds the file.
    pub parent: String,
}

/// What a [`ScriptEntry`] holds.
pub struct ScriptEntryView {
    pub path: Seq<char>,
    pub name: Seq<char>,
    pub parent: Seq<char>,
}

impl DeepView for ScriptEntry {
    type V = ScriptEntryView;

    open spec fn deep_view(&self) -> ScriptEntryView {
        ScriptEntryView { path: self.path@, name: self.name@, parent: self.parent@ }
    }
}

impl View for ScriptEntry {
    type V = ScriptEntryView;

    open spec fn view(&self) -> ScriptEntryView {
        self.deep_view()
    }
}

/// The script that the file at `path` is, if it is one.
pub open spec fn script_at(path: Seq<char>) -> Option<ScriptEntryView> {
    if is_script_name(name_part(path)) {
        Some(
            ScriptEntryView {
                path: path,
                name: base_name(name_part(path)),
                parent: parent_part(path),
            },
        )
    } else {
        None
    }
}

/// The script that an item of a walk is, if it is one: a file whose name is
/// that of a script. What could not be read is none, and neither is a
/// directory.
pub open spec fn classified(item: WalkItemView) -> Option<ScriptEntryView> {
    match item {
        WalkItemView::Entry { path, is_file } => if is_file {
            script_at(path)
        } else {
            None
        },
        WalkItemView::Unreadable => None,
    }
}

/// The scripts of a walk, in the order of the walk.
pub open spec fn indexed(walk: Seq<WalkItemView>) -> Seq<ScriptEntryView>
    decreases walk.len(),
{
    if walk.len() == 0 {
        Seq::empty()
    } else {
        match classified(walk.last()) {
            Some(entry) => indexed(walk.drop_last()).push(entry),
            None => indexed(walk.drop_last()),
        }
    }
}

/// The name by which the file is asked for, if its name is that of a script.
pub fn script_name(file_name: &str) -> (name: Option<String>)
    ensures
        name.deep_view() == if is_script_name(file_name@) {
            Some(base_name(file_name@))
        } else {
            None
        },
{
    let chars = characters(file_name);
    let end = chars.len();
    if end > 3 && chars[end - 3] == '.' && chars[end - 2] == 's' && chars[end - 1] == 'h' {
        proof {
            assert(file_name@.subrange(end - 3, end as int) =~= script_suffix());
        }
        Some(String::from_str(file_name.substring_char(0, end - 3)))
    } else {
        proof {
            if end > 3 {
                let tail = file_name@.subrange(end - 3, end as int);
                assert(tail[0] == chars@[end - 3]);
                assert(tail[1] == chars@[end - 2]);
                assert(tail[2] == chars@[end - 1]);
                assert(script_suffix()[0] == '.');
                assert(script_suffix()[1] == 's');
                assert(script_suffix()[2] == 'h');
            }
        }
        None
    }
}

impl ScriptEntry {
    /// An entry is well formed when its name and directory are those of its
    /// path, and its path is that of a script.
    pub open spec fn wf(&self) -> bool {
        script_at(self.path@) == Some(self@)
    }

    /// The script at `path`, or `None` where the file name does not end in
    /// `.sh` behind at least one other character.
    pub fn from_path(path: &str) -> (entry: Option<ScriptEntry>)
        ensures
            entry.deep_view() == script_at(path@),
            entry matches Some(e) ==> e.wf(),
    {
        let file = file_name(path);
        match script_name(file.as_str()) {
            Some(name) => Some(
                ScriptEntry { path: String::from_str(path), name, parent: parent_dir(path) },
            ),
            None => None,
        }
    }
}

/// The one filter of the indexer: an unreadable item is no script, a
/// directory is none, and a file is one by its name alone.
pub fn classify(item: &WalkItem) -> (entry: Option<ScriptEntry>)
    ensures
        entry.deep_view() == classified(item@),
        entry matches Some(e) ==> e.wf(),
{
    match item {
        WalkItem::Unreadable => None,
        WalkItem::Entry { path, is_file } => {
            if *is_file {
                ScriptEntry::from_path(path.as_str())
            } else {
                None
            }
        },
    }
}

/// Every script of a walk, in the order of the walk. An empty walk, or one
/// that only holds unreadable items, has none.
pub fn index_scripts(walk: &Vec<WalkItem>) -> (found: Vec<ScriptEntry>)
    ensures
        found.deep_view() == indexed(walk.deep_view()),
        forall|k: int| 0 <= k < found.len() ==> (#[trigger] found[k]).wf(),
{
    let mut found: Vec<ScriptEntry> = Vec::new();
    let mut i: usize = 0;
    proof {
        assert(walk.deep_view().take(0) =~= Seq::empty());
        assert(found.deep_view() =~= Seq::empty());
    }
    while i < walk.len()
        invariant
            i <= walk.len(),
            found.deep_view() == indexed(walk.deep_view().take(i as int)),
            forall|k: int| 0 <= k < found.len() ==> (#[trigger] found[k]).wf(),
        decreases walk.len() - i,
    {
        let ghost before = found.deep_view();
        let ghost longer = walk.deep_view().take(i + 1);
        proof {
            assert(longer.drop_last() =~= walk.deep_view().take(i as int));
            assert(longer.last() == walk[i as int]@);
        }
        match classify(&walk[i]) {
            Some(entry) => {
                let ghost seen = entry@;
                found.push(entry);
                proof {
                    assert(found.deep_view() =~= before.push(seen));
                }
            },
            None => {},
        }
        i = i + 1;
    }
    proof {
        assert(walk.deep_view().take(i as int) =~= walk.deep_view());
    }
    found
}

/// Only a file is a script: an item that [`classified`] keeps is a file, and
/// its name is that of a script. A directory is never listed and never
/// resolved, even where its name ends in `.sh`.
pub proof fn lemma_only_files_are_scripts(item: WalkItemView)
    ensures
        classified(item) matches Some(script) ==> item == (WalkItemView::Entry {
            path: script.path,
            is_file: true,
        }) && is_script_name(name_part(script.path)),
        item matches WalkItemView::Entry { is_file: false, .. } ==> classified(item) is None,
{
}

/// A file `<name>.sh` directly below the directory `dir` is a script: it is
/// asked for by `name`, and `dir` is the directory that its run starts in.
pub proof fn lemma_script_below(dir: Seq<char>, name: Seq<char>)
    requires
        name.len() > 0,
        forall|j: int| 0 <= j < name.len() ==> name[j] != SEPARATOR,
        dir.len() > 0,
        dir.last() != SEPARATOR || dir.len() == 1,
    ensures
        script_at(joined(dir, name + script_suffix())) == Some(
            ScriptEntryView { path: joined(dir, name + script_suffix()), name: name, parent: dir },
        ),
{
    let file = name + script_suffix();
    let path = joined(dir, file);
    assert forall|j: int| 0 <= j < file.len() implies file[j] != SEPARATOR by {
        if j >= name.len() {
            assert(file[j] == script_suffix()[j - name.len()]);
        }
    }
    lemma_joined_name(dir, file);
    assert(file.subrange(file.len() - 3, file.len() as int) =~= script_suffix());
    assert(base_name(file) =~= name);
    assert(parent_part(path) =~= dir);
}

/// The index holds no more scripts than the walk has items, and each of them
/// is the script of some item of the walk.
pub proof fn lemma_indexed_from_walk(walk: Seq<WalkItemView>)
    ensures
        indexed(walk).len() <= walk.len(),
        forall|k: int|
            0 <= k < indexed(walk).len() ==> exists|i: int|
                0 <= i < walk.len() && classified(walk[i]) == Some(#[trigger] indexed(walk)[k]),
    decreases walk.len(),
{
    if walk.len() > 0 {
        let shorter = walk.drop_last();
        lemma_indexed_from_walk(shorter);
        assert forall|k: int| 0 <= k < indexed(walk).len() implies exists|i: int|
            0 <= i < walk.len() && classified(walk[i]) == Some(#[trigger] indexed(walk)[k]) by {
            if k < indexed(shorter).len() {
                let i = choose|i: int|
                    0 <= i < shorter.len() && classified(shorter[i]) == Some(indexed(shorter)[k]);
                assert(walk[i] == shorter[i]);
            } else {
                assert(classified(walk[walk.len() - 1]) == Some(indexed(walk)[k]));
            }
        }
    }
}

/// Every script of the walk is in the index: nothing that [`classify`] keeps
/// is lost.
pub proof fn lemma_indexed_complete(walk: Seq<WalkItemView>, i: int)
    requires
        0 <= i < walk.len(),
        classified(walk[i]) is Some,
    ensures
        indexed(walk).contains(classified(walk[i])->0),
    decreases walk.len(),
{
    let shorter = walk.drop_last();
    if i == walk.len() - 1 {
        let all = indexed(walk);
        assert(all[all.len() - 1] == classified(walk[i])->0);
    } else {
        lemma_indexed_complete(shorter, i);
        assert(shorter[i] == walk[i]);
        let entry = classified(walk[i])->0;
        let k = choose|k: int| 0 <= k < indexed(shorter).len() && indexed(shorter)[k] == entry;
        assert(indexed(walk)[k] == entry);
    }
}

/// A walk without a readable script has an empty index; so has the walk of a
/// cache that does not exist.
pub proof fn lemma_indexed_nothing(walk: Seq<WalkItemView>)
    requires
        forall|i: int| 0 <= i < walk.len() ==> classified(#[trigger] walk[i]) is None,
    ensures
        indexed(walk).len() == 0,
    decreases walk.len(),
{
    if walk.len() > 0 {
        let shorter = walk.drop_last();
        assert forall|i: int| 0 <= i < shorter.len() implies classified(#[trigger] shorter[i])
            is None by {
            assert(shorter[i] == walk[i]);
        }
        lemma_indexed_nothing(shorter);
    }
}

} // verus!

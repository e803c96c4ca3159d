//! Building the ordered list of selectable entries for a directory.
//!
//! The caller reads a directory and hands over its immediate children
//! as plain `DirChild` values, in whatever order the read produced.
//! The list always starts with the current directory (`.`) and its
//! parent (`..`); the visible subdirectories follow in the given order.

use vstd::prelude::*;
use vstd::string::*;

use crate::text::{push_char, spec_dec, usize_to_string};

verus! {

/// One immediate child of a directory, as the filesystem reported it:
/// its base name and whether it is itself a directory.
#[derive(Clone, Debug, PartialEq, Eq)]
pub struct DirChild {
    pub name: String,
    pub is_dir: bool,
}

/// One navigable item of the option list.
#[derive(Clone, Debug, PartialEq, Eq)]
pub enum Entry {
    /// Selecting this means "take the directory being browsed".
    SelfEntry,
    /// Selecting this means "go up one level".
    ParentEntry,
    /// Selecting this means "descend into the named subdirectory".
    ChildEntry { name: String },
}

/// Whether a directory child is listed: it must be a directory, and a
/// name that begins with a dot is kept only when hidden entries are
/// requested.
pub open spec fn spec_keep(name: Seq<char>, is_dir: bool, show_hidden: bool) -> bool {
    is_dir && (show_hidden || name.len() == 0 || name[0] != '.')
}

/// The names of the children that are listed, in the order given.
pub open spec fn spec_child_names(children: Seq<DirChild>, show_hidden: bool) -> Seq<Seq<char>>
    decreases children.len(),
{
    if children.len() == 0 {
        Seq::empty()
    } else {
        let rest = spec_child_names(children.drop_last(), show_hidden);
        let last = children.last();
        if spec_keep(last.name@, last.is_dir, show_hidden) {
            rest.push(last.name@)
        } else {
            rest
        }
    }
}

/// Whether one directory child is listed.
pub fn valid_path(entry: &DirChild, all: bool) -> (b: bool)
    ensures
        b == spec_keep(entry.name@, entry.is_dir, all),
{
    if !entry.is_dir {
        return false;
    }
    if all {
        return true;
    }
    let n = entry.name.as_str().unicode_len();
    if n == 0 {
        return true;
    }
    entry.name.as_str().get_char(0) != '.'
}

/// The label under which an entry is shown: `.` for the current
/// directory, `..` for the parent, a child's own name otherwise.
pub open spec fn spec_label(e: Entry) -> Seq<char> {
    match e {
        Entry::SelfEntry => seq!['.'],
        Entry::ParentEntry => seq!['.', '.'],
        Entry::ChildEntry { name } => name@,
    }
}

/// The labels of a sequence of entries, position by position.
pub open spec fn spec_labels(entries: Seq<Entry>) -> Seq<Seq<char>> {
    entries.map(|i: int, e: Entry| spec_label(e))
}

/// A label with its numeric position prefixed, as shown in indexed
/// display mode.
pub open spec fn spec_indexed_label(i: nat, label: Seq<char>) -> Seq<char> {
    seq!['['] + spec_dec(i) + seq![']', ' '] + label
}

/// The label shown at position `i`: the plain label, or the indexed
/// form when indexed display mode is active.
pub open spec fn spec_display_label(label: Seq<char>, i: nat, indexed: bool) -> Seq<char> {
    if indexed {
        spec_indexed_label(i, label)
    } else {
        label
    }
}

/// The ordered list of selectable entries for one directory.
#[derive(Clone, Debug, PartialEq, Eq)]
pub struct OptionList {
    pub entries: Vec<Entry>,
}

impl OptionList {
    /// Position 0 is always the current directory, position 1 always
    /// the parent; everything after is a child entry.
    pub open spec fn wf(self) -> bool {
        &&& self.entries@.len() >= 2
        &&& self.entries@[0] == Entry::SelfEntry
        &&& self.entries@[1] == Entry::ParentEntry
        &&& forall|i: int|
            2 <= i < self.entries@.len() ==> (#[trigger] self.entries@[i]) matches Entry::ChildEntry { .. }
    }

    /// Builds the option list for a directory whose immediate children
    /// are given: `.` and `..` first, then the children that pass the
    /// visibility rule, in the order given.
    pub fn build(children: &Vec<DirChild>, show_hidden: bool) -> (r: OptionList)
        ensures
            r.wf(),
            spec_labels(r.entries@) == seq![seq!['.'], seq!['.', '.']] + spec_child_names(
                children@,
                show_hidden,
            ),
    {
        let ghost all_names = spec_child_names(children@, show_hidden);
        let mut entries: Vec<Entry> = Vec::new();
        entries.push(Entry::SelfEntry);
        entries.push(Entry::ParentEntry);
        let mut i: usize = 0;
        while i < children.len()
            invariant
                i <= children@.len(),
                entries@.len() == 2 + spec_child_names(children@.take(i as int), show_hidden).len(),
                entries@[0] == Entry::SelfEntry,
                entries@[1] == Entry::ParentEntry,
                forall|k: int|
                    2 <= k < entries@.len() ==> (#[trigger] entries@[k]) matches Entry::ChildEntry { .. },
                spec_labels(entries@) == seq![seq!['.'], seq!['.', '.']] + spec_child_names(
                    children@.take(i as int),
                    show_hidden,
                ),
            decreases children@.len() - i,
        {
            let child = &children[i];
            let ghost entries0 = entries@;
            proof {
                assert(children@.take(i + 1).drop_last() =~= children@.take(i as int));
                assert(children@.take(i + 1).last() == children@[i as int]);
            }
            if valid_path(child, show_hidden) {
                entries.push(Entry::ChildEntry { name: child.name.clone() });
                proof {
                    assert(entries@ == entries0.push(
                        Entry::ChildEntry { name: children@[i as int].name },
                    ));
                }
            }
            proof {
                let lhs = spec_labels(entries@);
                let rhs = seq![seq!['.'], seq!['.', '.']] + spec_child_names(
                    children@.take(i + 1),
                    show_hidden,
                );
                assert forall|k: int| 0 <= k < lhs.len() implies lhs[k] == rhs[k] by {
                    if k < entries0.len() {
                        assert(entries@[k] == entries0[k]);
                        assert(spec_labels(entries0)[k] == spec_label(entries0[k]));
                    }
                }
                assert(lhs =~= rhs);
            }
            i = i + 1;
        }
        proof {
            assert(children@.take(children@.len() as int) =~= children@);
        }
        OptionList { entries }
    }

    /// The labels to display, one per entry; in indexed mode each
    /// carries its numeric position prefix.
    pub fn labels(&self, indexed: bool) -> (r: Vec<String>)
        ensures
            r@.len() == self.entries@.len(),
            forall|i: int|
                0 <= i < r@.len() ==> (#[trigger] r@[i])@ == spec_display_label(
                    spec_label(self.entries@[i]),
                    i as nat,
                    indexed,
                ),
    {
        let mut r: Vec<String> = Vec::new();
        let mut i: usize = 0;
        while i < self.entries.len()
            invariant
                i <= self.entries@.len(),
                r@.len() == i,
                forall|k: int|
                    0 <= k < i ==> (#[trigger] r@[k])@ == spec_display_label(
                        spec_label(self.entries@[k]),
                        k as nat,
                        indexed,
                    ),
            decreases self.entries@.len() - i,
        {
            let label = label_of(&self.entries[i]);
            if indexed {
                let mut s = String::new();
                push_char(&mut s, '[');
                let num = usize_to_string(i);
                s.append(num.as_str());
                push_char(&mut s, ']');
                push_char(&mut s, ' ');
                s.append(label.as_str());
                proof {
                    assert(s@ =~= spec_indexed_label(i as nat, spec_label(self.entries@[i as int])));
                }
                r.push(s);
            } else {
                r.push(label);
            }
            i = i + 1;
        }
        r
    }
}

/// The plain label of one entry.
pub fn label_of(e: &Entry) -> (r: String)
    ensures
        r@ == spec_label(*e),
{
    match e {
        Entry::SelfEntry => {
            let mut s = String::new();
            push_char(&mut s, '.');
            s
        },
        Entry::ParentEntry => {
            let mut s = String::new();
            push_char(&mut s, '.');
            push_char(&mut s, '.');
            s
        },
        Entry::ChildEntry { name } => name.clone(),
    }
}

/// The labels for one directory read, ready for the selection widget:
/// `.` and `..` first, then the visible children, each label carrying
/// its numeric position prefix unless `no_index` is set.
pub fn get_path_options(children: &Vec<DirChild>, no_index: bool, all: bool) -> (r: Vec<String>)
    ensures
        r@.len() == 2 + spec_child_names(children@, all).len(),
        forall|i: int|
            0 <= i < r@.len() ==> (#[trigger] r@[i])@ == spec_display_label(
                (seq![seq!['.'], seq!['.', '.']] + spec_child_names(children@, all))[i],
                i as nat,
                !no_index,
            ),
{
    let list = OptionList::build(children, all);
    let r = list.labels(!no_index);
    proof {
        assert(spec_labels(list.entries@).len() == list.entries@.len());
        assert forall|i: int| 0 <= i < r@.len() implies (#[trigger] r@[i])@ == spec_display_label(
            (seq![seq!['.'], seq!['.', '.']] + spec_child_names(children@, all))[i],
            i as nat,
            !no_index,
        ) by {
            assert(spec_label(list.entries@[i]) == spec_labels(list.entries@)[i]);
        }
    }
    r
}

/// Law: with hidden entries excluded, no listed child name begins with
/// a dot.
pub proof fn lemma_hidden_children_excluded(children: Seq<DirChild>)
    ensures
        forall|k: int|
            0 <= k < spec_child_names(children, false).len() ==> !(
            (#[trigger] spec_child_names(children, false)[k]).len() > 0 && spec_child_names(
                children,
                false,
            )[k][0] == '.'),
    decreases children.len(),
{
    if children.len() > 0 {
        lemma_hidden_children_excluded(children.drop_last());
        let names = spec_child_names(children, false);
        let prev = spec_child_names(children.drop_last(), false);
        assert forall|k: int| 0 <= k < names.len() implies !((#[trigger] names[k]).len() > 0
            && names[k][0] == '.') by {
            if k < prev.len() {
                assert(names[k] == prev[k]);
            }
        }
    }
}

/// Law: with hidden entries included, every child that is a directory
/// is listed, dot-prefixed or not.
pub proof fn lemma_hidden_children_included(children: Seq<DirChild>)
    ensures
        forall|k: int|
            0 <= k < children.len() && children[k].is_dir ==> spec_child_names(
                children,
                true,
            ).contains(#[trigger] children[k].name@),
    decreases children.len(),
{
    if children.len() > 0 {
        lemma_hidden_children_included(children.drop_last());
        let names = spec_child_names(children, true);
        let prev = spec_child_names(children.drop_last(), true);
        assert forall|k: int|
            0 <= k < children.len() && children[k].is_dir implies names.contains(
            #[trigger] children[k].name@,
        ) by {
            if k < children.len() - 1 {
                assert(children.drop_last()[k] == children[k]);
                assert(prev.contains(children[k].name@));
                let j = choose|j: int| 0 <= j < prev.len() && prev[j] == children[k].name@;
                assert(names[j] == children[k].name@);
            } else {
                assert(names.last() == children[k].name@);
            }
        }
    }
}

/// Law: in indexed mode the label at position `i` begins with the
/// characters `[`, the decimal rendering of `i`, `]` and a space.
pub proof fn lemma_indexed_label_prefix(i: nat, label: Seq<char>)
    ensures
        spec_indexed_label(i, label).len() == spec_dec(i).len() + 3 + label.len(),
        spec_indexed_label(i, label).take(spec_dec(i).len() + 3 as int) == seq!['['] + spec_dec(i)
            + seq![']', ' '],
{
    assert(spec_indexed_label(i, label).take(spec_dec(i).len() + 3 as int) =~= seq!['['] + spec_dec(i)
        + seq![']', ' ']);
}

} // verus!

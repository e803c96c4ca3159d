//! Resolving a chosen list position into a navigation action.
//!
//! Position 0 selects the directory being browsed, position 1 its
//! parent, and any later position a child, whose name is recovered
//! from the displayed label by trimming a leading `[<digits>] `
//! position prefix if one is present.

use vstd::prelude::*;
use vstd::string::*;

use crate::options::spec_indexed_label;
use crate::session::{NavigationAction, Session};
use crate::text::{is_digit_char, lemma_dec_digits, spec_dec, spec_is_digit};

verus! {

/// The number of consecutive decimal digits in `l` from position `i`
/// on.
pub open spec fn spec_digit_run(l: Seq<char>, i: int) -> int
    decreases l.len() - i,
{
    if i < 0 || i >= l.len() {
        0
    } else if spec_is_digit(l[i]) {
        1 + spec_digit_run(l, i + 1)
    } else {
        0
    }
}

/// Whether `l` begins with `[`, at least one decimal digit, `]` and a
/// space.
pub open spec fn spec_has_index_prefix(l: Seq<char>) -> bool {
    let d = spec_digit_run(l, 1);
    &&& l.len() >= 1
    &&& l[0] == '['
    &&& d >= 1
    &&& l.len() >= 3 + d
    &&& l[1 + d] == ']'
    &&& l[2 + d] == ' '
}

/// `l` with a leading `[<digits>] ` run removed; a label without such
/// a prefix is returned unchanged.
pub open spec fn spec_strip(l: Seq<char>) -> Seq<char> {
    if spec_has_index_prefix(l) {
        l.skip(3 + spec_digit_run(l, 1))
    } else {
        l
    }
}

/// If every character from `i` up to `m` is a digit and `m` is the end
/// of the text or a non-digit, the digit run from `i` reaches exactly
/// to `m`.
pub proof fn lemma_digit_run_exact(l: Seq<char>, i: int, m: int)
    requires
        0 <= i <= m <= l.len(),
        forall|k: int| i <= k < m ==> spec_is_digit(#[trigger] l[k]),
        m == l.len() || !spec_is_digit(l[m]),
    ensures
        spec_digit_run(l, i) == m - i,
    decreases m - i,
{
    if i < m {
        lemma_digit_run_exact(l, i + 1, m);
    }
}

/// Recovers the raw name from a displayed label: trims one leading
/// `[<digits>] ` run if the label carries one.
pub fn strip_index_prefix(label: &str) -> (r: String)
    ensures
        r@ == spec_strip(label@),
{
    let n = label.unicode_len();
    if n == 0 || label.get_char(0) != '[' {
        return label.to_owned();
    }
    let mut j: usize = 1;
    while j < n && is_digit_char(label.get_char(j))
        invariant
            1 <= j <= n,
            n == label@.len(),
            forall|k: int| 1 <= k < j ==> spec_is_digit(#[trigger] label@[k]),
        decreases n - j,
    {
        j = j + 1;
    }
    proof {
        lemma_digit_run_exact(label@, 1, j as int);
        assert(spec_digit_run(label@, 1) == j - 1);
    }
    if j == 1 {
        // no digit follows the bracket
        return label.to_owned();
    }
    if j < n && label.get_char(j) == ']' && j + 1 < n && label.get_char(j + 1) == ' ' {
        let rest = label.substring_char(j + 2, n);
        return rest.to_owned();
    }
    label.to_owned()
}

/// The result of resolving one selection: either an action, or the
/// demand that the user first confirm taking the shown directory.
#[derive(Clone, Debug, PartialEq, Eq)]
pub enum Resolution {
    /// The action to apply to the session.
    Act(NavigationAction),
    /// A yes/no confirmation is owed before finalizing; its answer is
    /// turned into an action by [`resolve_confirmed`].
    NeedConfirm,
}

/// Resolves the chosen list position. No choice cancels; position 0
/// is a no-op at the origin, finalizes at once under force, and
/// otherwise asks for confirmation; position 1 ascends; any later
/// position descends into the child named by its label, stripped of a
/// leading position prefix. An out-of-range position would break the
/// selection widget's promise and is not accepted.
pub fn resolve(session: &Session, options: &Vec<String>, chosen: Option<usize>, force: bool) -> (r:
    Resolution)
    requires
        chosen matches Some(i) ==> i < options@.len(),
    ensures
        match chosen {
            None => r == Resolution::Act(NavigationAction::Cancel),
            Some(i) => if i == 0 {
                if session.current@ == session.origin@ {
                    r == Resolution::Act(NavigationAction::NoOp)
                } else if force {
                    r == Resolution::Act(NavigationAction::Finalize)
                } else {
                    r == Resolution::NeedConfirm
                }
            } else if i == 1 {
                r == Resolution::Act(NavigationAction::Ascend)
            } else {
                r matches Resolution::Act(a) && a matches NavigationAction::Descend { name }
                    && name@ == spec_strip(options@[i as int]@)
            },
        },
{
    match chosen {
        None => Resolution::Act(NavigationAction::Cancel),
        Some(i) => {
            if i == 0 {
                if session.at_origin() {
                    Resolution::Act(NavigationAction::NoOp)
                } else if force {
                    Resolution::Act(NavigationAction::Finalize)
                } else {
                    Resolution::NeedConfirm
                }
            } else if i == 1 {
                Resolution::Act(NavigationAction::Ascend)
            } else {
                let name = strip_index_prefix(options[i].as_str());
                Resolution::Act(NavigationAction::Descend { name })
            }
        },
    }
}

/// Turns the answer of the confirmation prompt into the action it
/// stands for: yes finalizes, no keeps browsing.
pub fn resolve_confirmed(answer: bool) -> (a: NavigationAction)
    ensures
        a == (if answer {
            NavigationAction::Finalize
        } else {
            NavigationAction::NoOp
        }),
{
    if answer {
        NavigationAction::Finalize
    } else {
        NavigationAction::NoOp
    }
}

/// Law: trimming the position prefix undoes prefixing, whatever the
/// position and the label: a label shown in indexed mode always
/// resolves back to the raw name it was made from.
pub proof fn lemma_strip_indexed_label(i: nat, label: Seq<char>)
    ensures
        spec_strip(spec_indexed_label(i, label)) == label,
{
    let l = spec_indexed_label(i, label);
    let dec = spec_dec(i);
    lemma_dec_digits(i);
    assert(l.len() == 3 + dec.len() + label.len());
    assert(l[0] == '[');
    assert forall|k: int| 1 <= k < 1 + dec.len() implies spec_is_digit(#[trigger] l[k]) by {
        assert(l[k] == dec[k - 1]);
    }
    assert(l[1 + dec.len() as int] == ']');
    assert(!spec_is_digit(']'));
    lemma_digit_run_exact(l, 1, 1 + dec.len() as int);
    assert(spec_digit_run(l, 1) == dec.len());
    assert(l[2 + dec.len() as int] == ' ');
    assert(spec_has_index_prefix(l));
    assert(l.skip(3 + dec.len() as int) =~= label);
}

} // verus!

//! The navigation session: the origin and current directory as
//! absolute paths, and the application of navigation actions.

use vstd::prelude::*;
use vstd::string::*;

use crate::text::push_char;

verus! {

/// An absolute path, held as its sequence of components; the empty
/// sequence is the filesystem root.
#[derive(Clone, Debug, PartialEq, Eq)]
pub struct AbsPath {
    parts: Vec<String>,
}

impl View for AbsPath {
    type V = Seq<Seq<char>>;

    closed spec fn view(&self) -> Seq<Seq<char>> {
        self.parts.deep_view()
    }
}

/// The textual form of an absolute path: `/` alone for the root, and
/// otherwise each component preceded by a `/`.
pub open spec fn spec_path_text(parts: Seq<Seq<char>>) -> Seq<char> {
    if parts.len() == 0 {
        seq!['/']
    } else {
        spec_joined(parts)
    }
}

/// Each component preceded by a `/`, all in order.
pub open spec fn spec_joined(parts: Seq<Seq<char>>) -> Seq<char>
    decreases parts.len(),
{
    if parts.len() == 0 {
        Seq::empty()
    } else {
        spec_joined(parts.drop_last()) + seq!['/'] + parts.last()
    }
}

impl AbsPath {
    /// The filesystem root.
    pub fn root() -> (r: AbsPath)
        ensures
            r@ == Seq::<Seq<char>>::empty(),
    {
        let r = AbsPath { parts: Vec::new() };
        proof {
            assert(r@ =~= Seq::<Seq<char>>::empty());
        }
        r
    }

    /// The path made of the given components, from the root downward.
    pub fn from_parts(parts: Vec<String>) -> (r: AbsPath)
        ensures
            r@ == parts.deep_view(),
    {
        AbsPath { parts }
    }

    /// Appends one component.
    pub fn push_part(&mut self, name: String)
        ensures
            final(self)@ == old(self)@.push(name@),
    {
        self.parts.push(name);
        proof {
            assert(self@ =~= old(self)@.push(name@));
        }
    }

    /// Removes the last component; at the root there is nothing to
    /// remove and the path stays the root.
    pub fn pop_part(&mut self)
        ensures
            old(self)@.len() == 0 ==> final(self)@ == old(self)@,
            old(self)@.len() > 0 ==> final(self)@ == old(self)@.drop_last(),
    {
        if self.parts.len() > 0 {
            self.parts.pop();
            proof {
                assert(self@ =~= old(self)@.drop_last());
            }
        }
    }

    /// Whether two paths have the same components.
    pub fn same_path(&self, other: &AbsPath) -> (b: bool)
        ensures
            b == (self@ == other@),
    {
        if self.parts.len() != other.parts.len() {
            proof {
                assert(self@.len() != other@.len());
            }
            return false;
        }
        let n = self.parts.len();
        let mut i: usize = 0;
        while i < n
            invariant
                i <= n,
                n == self.parts@.len(),
                n == other.parts@.len(),
                forall|k: int| 0 <= k < i ==> self@[k] == other@[k],
            decreases n - i,
        {
            if !self.parts[i].eq(&other.parts[i]) {
                proof {
                    assert(self@[i as int] == self.parts@[i as int]@);
                    assert(other@[i as int] == other.parts@[i as int]@);
                }
                return false;
            }
            i = i + 1;
        }
        proof {
            assert(self@ =~~= other@);
        }
        true
    }

    /// The path as text: `/` alone for the root, otherwise each
    /// component preceded by a `/`.
    pub fn render(&self) -> (r: String)
        ensures
            r@ == spec_path_text(self@),
    {
        if self.parts.len() == 0 {
            let mut s = String::new();
            push_char(&mut s, '/');
            proof {
                assert(s@ =~= spec_path_text(self@));
            }
            return s;
        }
        let mut s = String::new();
        let mut i: usize = 0;
        while i < self.parts.len()
            invariant
                i <= self.parts@.len(),
                s@ == spec_joined(self@.take(i as int)),
            decreases self.parts@.len() - i,
        {
            push_char(&mut s, '/');
            s.append(self.parts[i].as_str());
            proof {
                assert(self@.take(i + 1).drop_last() =~= self@.take(i as int));
                assert(self@.take(i + 1).last() == self@[i as int]);
                assert(s@ =~= spec_joined(self@.take(i + 1)));
            }
            i = i + 1;
        }
        proof {
            assert(self@.take(self@.len() as int) =~= self@);
        }
        s
    }
}

/// The result of resolving one selection: what the session should do
/// next.
#[derive(Clone, Debug, PartialEq, Eq)]
pub enum NavigationAction {
    /// Accept the current directory as the final answer.
    Finalize,
    /// Move to the parent directory.
    Ascend,
    /// Move into the named child directory.
    Descend { name: String },
    /// Do nothing and keep browsing.
    NoOp,
    /// Stop browsing without an answer.
    Cancel,
}

/// Whether the loop goes on after an action was applied.
#[derive(Clone, Copy, Debug, PartialEq, Eq, Structural)]
pub enum SessionOutcome {
    Continue,
    Terminate,
}

/// The navigation state: where the browsing started and where it is
/// now.
#[derive(Clone, Debug, PartialEq, Eq)]
pub struct Session {
    pub origin: AbsPath,
    pub current: AbsPath,
}

impl Session {
    /// A session starts where it was launched: both paths are the
    /// starting directory.
    pub fn new(origin: AbsPath) -> (r: Session)
        ensures
            r.origin@ == origin@,
            r.current@ == origin@,
    {
        let parts: Vec<String> = origin.parts.clone();
        proof {
            assert forall|i: int| 0 <= i < parts@.len() implies parts.deep_view()[i]
                == origin.parts.deep_view()[i] by {
                assert(cloned::<String>(origin.parts[i], parts[i]));
            }
            assert(parts.deep_view() =~~= origin.parts.deep_view());
        }
        let current = AbsPath { parts };
        Session { origin, current }
    }

    /// Whether browsing is back at (or still at) the starting
    /// directory.
    pub fn at_origin(&self) -> (b: bool)
        ensures
            b == (self.current@ == self.origin@),
    {
        self.current.same_path(&self.origin)
    }

    /// Applies one navigation action to the current directory and says
    /// whether the loop goes on. Ascending at the root stays at the
    /// root; descending never checks existence (the next directory
    /// read will surface a missing child); only `Finalize` and
    /// `Cancel` terminate, and neither moves the session.
    pub fn apply(&mut self, action: &NavigationAction) -> (o: SessionOutcome)
        ensures
            final(self).origin@ == old(self).origin@,
            match action {
                NavigationAction::Finalize => o == SessionOutcome::Terminate && final(self).current@
                    == old(self).current@,
                NavigationAction::Ascend => o == SessionOutcome::Continue && final(self).current@
                    == (if old(self).current@.len() == 0 {
                    old(self).current@
                } else {
                    old(self).current@.drop_last()
                }),
                NavigationAction::Descend { name } => o == SessionOutcome::Continue
                    && final(self).current@ == old(self).current@.push(name@),
                NavigationAction::NoOp => o == SessionOutcome::Continue && final(self).current@
                    == old(self).current@,
                NavigationAction::Cancel => o == SessionOutcome::Terminate && final(self).current@
                    == old(self).current@,
            },
    {
        match action {
            NavigationAction::Finalize => SessionOutcome::Terminate,
            NavigationAction::Ascend => {
                self.current.pop_part();
                SessionOutcome::Continue
            },
            NavigationAction::Descend { name } => {
                self.current.push_part(name.clone());
                SessionOutcome::Continue
            },
            NavigationAction::NoOp => SessionOutcome::Continue,
            NavigationAction::Cancel => SessionOutcome::Terminate,
        }
    }
}

/// What the tool prints when the loop has terminated on the given
/// action: the current directory on `Finalize`, nothing otherwise.
pub fn finalize_output(action: &NavigationAction, session: &Session) -> (r: Option<String>)
    ensures
        match action {
            NavigationAction::Finalize => r matches Some(s) && s@ == spec_path_text(
                session.current@,
            ),
            _ => r is None,
        },
{
    match action {
        NavigationAction::Finalize => Some(session.current.render()),
        _ => None,
    }
}

} // verus!

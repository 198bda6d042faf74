//! Wire command codec: a command travels as one line of text,
//! `"<action-token> <project>"`, and decoding splits at the first space.

use vstd::prelude::*;
use vstd::string::*;

use crate::text::str_eq;

verus! {

/// A capability a client may be granted. Membership in a client's permission
/// set is the only check ever made; actions are never hierarchical.
#[derive(Debug, Copy, Clone, PartialEq, Eq, Structural)]
pub enum Action {
    Deploy,
}

/// The canonical lowercase token naming an action on the wire.
pub open spec fn action_token(a: Action) -> Seq<char> {
    "deploy"@
}

impl Action {
    /// The canonical lowercase token for this action.
    pub fn token(&self) -> (r: &'static str)
        ensures
            r@ == action_token(*self),
    {
        match self {
            Action::Deploy => "deploy",
        }
    }
}

/// A command to be delivered through the channel: an action to run for a
/// project. Immutable value; its canonical text form is `"<action> <project>"`.
#[derive(Debug, Clone)]
pub struct Command {
    pub action: Action,
    pub project: String,
}

/// The mathematical model of a [`Command`].
pub struct CommandView {
    pub action: Action,
    pub project: Seq<char>,
}

impl View for Command {
    type V = CommandView;

    open spec fn view(&self) -> CommandView {
        CommandView { action: self.action, project: self.project@ }
    }
}

/// A line that does not decode to a command.
#[derive(Debug, Copy, Clone, PartialEq, Eq, Structural)]
pub struct CommandParseError;

/// The canonical text form of a command.
pub open spec fn encoded(c: CommandView) -> Seq<char> {
    action_token(c.action) + " "@ + c.project
}

/// `i` is the index of the first space of `s`.
pub open spec fn is_first_space(s: Seq<char>, i: int) -> bool {
    &&& 0 <= i < s.len()
    &&& s[i] == ' '
    &&& forall|j: int| 0 <= j < i ==> s[j] != ' '
}

/// What a line of text decodes to: split at the first space; the head must be
/// a recognized action token, the remainder is the project. A line without a
/// space, or with an unrecognized head, decodes to nothing.
pub open spec fn decoded(s: Seq<char>) -> Option<CommandView> {
    if exists|i: int| is_first_space(s, i) {
        let i = choose|i: int| is_first_space(s, i);
        if s.subrange(0, i) == action_token(Action::Deploy) {
            Some(CommandView { action: Action::Deploy, project: s.subrange(i + 1, s.len() as int) })
        } else {
            None
        }
    } else {
        None
    }
}

proof fn lemma_first_space_unique(s: Seq<char>, i: int, j: int)
    requires
        is_first_space(s, i),
        is_first_space(s, j),
    ensures
        i == j,
{
}

impl Command {
    /// Render this command in its canonical text form.
    pub fn encode(&self) -> (r: String)
        ensures
            r@ == encoded(self@),
    {
        let mut s = String::from_str(self.action.token());
        s.append(" ");
        s.append(self.project.as_str());
        proof {
            assert(s@ =~= encoded(self@));
        }
        s
    }

    /// Decode one line of text into a command: split at the first space, map
    /// the head to an action, take the remainder as the project.
    pub fn decode(line: &str) -> (r: Result<Command, CommandParseError>)
        ensures
            match r {
                Ok(c) => decoded(line@) == Some(c@),
                Err(_) => decoded(line@) is None,
            },
    {
        let n = line.unicode_len();
        let mut i: usize = 0;
        while i < n && line.get_char(i) != ' '
            invariant
                i <= n,
                n == line@.len(),
                forall|j: int| 0 <= j < i ==> line@[j] != ' ',
            decreases n - i,
        {
            i += 1;
        }
        if i == n {
            proof {
                assert(forall|k: int| !is_first_space(line@, k));
            }
            return Err(CommandParseError);
        }
        proof {
            assert(is_first_space(line@, i as int));
            let w = choose|k: int| is_first_space(line@, k);
            lemma_first_space_unique(line@, w, i as int);
        }
        let head = line.substring_char(0, i);
        if str_eq(head, "deploy") {
            let project = line.substring_char(i + 1, n).to_owned();
            let c = Command { action: Action::Deploy, project };
            proof {
                assert(decoded(line@) == Some(c@));
            }
            Ok(c)
        } else {
            Err(CommandParseError)
        }
    }
}

/// Round trip: a command whose project holds no newline and does not begin
/// with a space decodes back from its canonical text form unchanged.
pub proof fn lemma_round_trip(c: CommandView)
    requires
        !c.project.contains('\n'),
        c.project.len() > 0 ==> c.project[0] != ' ',
    ensures
        decoded(encoded(c)) == Some(c),
{
    reveal_strlit("deploy");
    reveal_strlit(" ");
    let s = encoded(c);
    assert(s[6] == ' ');
    assert(forall|j: int| 0 <= j < 6 ==> s[j] != ' ');
    assert(is_first_space(s, 6));
    let w = choose|k: int| is_first_space(s, k);
    lemma_first_space_unique(s, w, 6);
    assert(s.subrange(0, 6) =~= action_token(Action::Deploy));
    assert(s.subrange(7, s.len() as int) =~= c.project);
}

/// A line lacking a separator is rejected.
pub proof fn lemma_missing_separator_rejected(s: Seq<char>)
    requires
        !s.contains(' '),
    ensures
        decoded(s) is None,
{
    assert(forall|k: int| !is_first_space(s, k));
}

} // verus!

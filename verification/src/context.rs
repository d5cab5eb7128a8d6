//! Context manager: conversation history and project context.
//!
//! The history keeps the most recent turn first and never grows beyond
//! [`MAX_HISTORY_SIZE`] turns: a new turn pushes the oldest one out. Every
//! project that was current when a turn was added has a history of its own,
//! kept in the same way.

use crate::text::str_eq;
use crate::types::{clone_opt_string, clone_turns, ContextSnapshot, ConversationTurn, Query, Response};
use vstd::prelude::*;

verus! {

/// Maximum number of turns kept in one history.
pub const MAX_HISTORY_SIZE: usize = 100;

/// A history after `turn` was recorded: the turn comes first, and the oldest
/// turn is dropped if the history would exceed [`MAX_HISTORY_SIZE`].
pub open spec fn recorded(history: Seq<ConversationTurn>, turn: ConversationTurn) -> Seq<
    ConversationTurn,
> {
    let grown = seq![turn] + history;
    if grown.len() > MAX_HISTORY_SIZE {
        grown.take(MAX_HISTORY_SIZE as int)
    } else {
        grown
    }
}

/// The first `n` turns of a history, or all of them if there are fewer.
pub open spec fn most_recent(history: Seq<ConversationTurn>, n: nat) -> Seq<ConversationTurn> {
    if n < history.len() {
        history.take(n as int)
    } else {
        history
    }
}

/// The history of one project.
#[derive(Debug)]
pub struct ProjectHistory {
    /// Name of the project.
    pub name: String,
    /// Turns of the project, most recent first.
    pub turns: Vec<ConversationTurn>,
}

/// A project history as a name and its turns.
pub open spec fn project_view(h: ProjectHistory) -> (Seq<char>, Seq<ConversationTurn>) {
    (h.name@, h.turns@)
}

/// Position `i` holds the project called `name`.
pub open spec fn holds_project(
    contexts: Seq<(Seq<char>, Seq<ConversationTurn>)>,
    name: Seq<char>,
    i: int,
) -> bool {
    0 <= i < contexts.len() && contexts[i].0 == name
}

/// No position holds a project called `name`.
pub open spec fn lacks_project(
    contexts: Seq<(Seq<char>, Seq<ConversationTurn>)>,
    name: Seq<char>,
) -> bool {
    forall|i: int| 0 <= i < contexts.len() ==> (#[trigger] contexts[i]).0 != name
}

/// The project histories after `turn` was recorded for the project `name`:
/// an existing history records the turn in place, a new project is appended.
pub open spec fn contexts_recorded(
    old_contexts: Seq<(Seq<char>, Seq<ConversationTurn>)>,
    new_contexts: Seq<(Seq<char>, Seq<ConversationTurn>)>,
    name: Seq<char>,
    turn: ConversationTurn,
) -> bool {
    if lacks_project(old_contexts, name) {
        new_contexts == old_contexts.push((name, recorded(Seq::empty(), turn)))
    } else {
        exists|i: int|
            holds_project(old_contexts, name, i) && new_contexts == old_contexts.update(
                i,
                (name, recorded(#[trigger] old_contexts[i].1, turn)),
            )
    }
}

/// Context manager for maintaining conversation state.
#[derive(Debug)]
pub struct ContextManager {
    current_project: Option<String>,
    history: Vec<ConversationTurn>,
    project_contexts: Vec<ProjectHistory>,
}

impl ContextManager {
    /// The current project, if any.
    pub closed spec fn project(&self) -> Option<String> {
        self.current_project
    }

    /// The conversation history, most recent first.
    pub closed spec fn history(&self) -> Seq<ConversationTurn> {
        self.history@
    }

    /// The project histories, in the order in which the projects first
    /// recorded a turn.
    pub closed spec fn contexts(&self) -> Seq<(Seq<char>, Seq<ConversationTurn>)> {
        self.project_contexts@.map_values(|h: ProjectHistory| project_view(h))
    }

    /// No history exceeds [`MAX_HISTORY_SIZE`] and no project occurs twice.
    pub open spec fn wf(&self) -> bool {
        &&& self.history().len() <= MAX_HISTORY_SIZE
        &&& forall|i: int|
            0 <= i < self.contexts().len() ==> (#[trigger] self.contexts()[i]).1.len()
                <= MAX_HISTORY_SIZE
        &&& forall|i: int, j: int|
            0 <= i < j < self.contexts().len() ==> (#[trigger] self.contexts()[i]).0
                != (#[trigger] self.contexts()[j]).0
    }

    /// Creates a context manager with no project and no history.
    pub fn new() -> (cm: Self)
        ensures
            cm.project() is None,
            cm.history().len() == 0,
            cm.contexts().len() == 0,
            cm.wf(),
    {
        ContextManager { current_project: None, history: Vec::new(), project_contexts: Vec::new() }
    }

    /// Finds the position of the history of the project `name`.
    fn find_project(&self, name: &str) -> (r: Option<usize>)
        ensures
            match r {
                Some(i) => holds_project(self.contexts(), name@, i as int),
                None => lacks_project(self.contexts(), name@),
            },
    {
        let mut i: usize = 0;
        while i < self.project_contexts.len()
            invariant
                i <= self.project_contexts@.len(),
                forall|j: int| 0 <= j < i ==> (#[trigger] self.contexts()[j]).0 != name@,
            decreases self.project_contexts.len() - i,
        {
            if str_eq(self.project_contexts[i].name.as_str(), name) {
                return Some(i);
            }
            i += 1;
        }
        None
    }

    /// Adds a conversation turn to the history, and to the history of the
    /// current project if there is one.
    pub fn add_turn(&mut self, query: Query, response: Response)
        requires
            old(self).wf(),
        ensures
            final(self).wf(),
            final(self).project() == old(self).project(),
            final(self).history() == recorded(
                old(self).history(),
                ConversationTurn { query, response },
            ),
            match old(self).project() {
                Some(p) => contexts_recorded(
                    old(self).contexts(),
                    final(self).contexts(),
                    p@,
                    ConversationTurn { query, response },
                ),
                None => final(self).contexts() == old(self).contexts(),
            },
    {
        let turn = ConversationTurn { query, response };
        let ghost old_contexts = self.contexts();
        let mut history = clone_turns(&self.history);
        history.insert(0, turn.clone());
        if history.len() > MAX_HISTORY_SIZE {
            history.truncate(MAX_HISTORY_SIZE);
        }
        proof {
            assert(history@ =~= recorded(self.history@, turn));
        }
        self.history = history;

        let project = clone_opt_string(&self.current_project);
        match project {
            Some(name) => {
                match self.find_project(name.as_str()) {
                    Some(i) => {
                        let mut turns = clone_turns(&self.project_contexts[i].turns);
                        turns.insert(0, turn);
                        if turns.len() > MAX_HISTORY_SIZE {
                            turns.truncate(MAX_HISTORY_SIZE);
                        }
                        proof {
                            assert(turns@ =~= recorded(old_contexts[i as int].1, turn));
                        }
                        let ghost entry = (name@, turns@);
                        self.project_contexts.set(i, ProjectHistory { name, turns });
                        proof {
                            assert(self.contexts() =~= old_contexts.update(i as int, entry));
                            assert(holds_project(old_contexts, name@, i as int));
                            assert(!lacks_project(old_contexts, name@));
                            assert forall|a: int, b: int|
                                0 <= a < b < self.contexts().len() implies (
                            #[trigger] self.contexts()[a]).0 != (#[trigger] self.contexts()[b]).0 by {
                                assert(self.contexts()[a].0 == old_contexts[a].0);
                                assert(self.contexts()[b].0 == old_contexts[b].0);
                            }
                        }
                    },
                    None => {
                        let mut turns: Vec<ConversationTurn> = Vec::new();
                        turns.push(turn);
                        proof {
                            assert(turns@ =~= recorded(Seq::empty(), turn));
                        }
                        let ghost entry = (name@, turns@);
                        self.project_contexts.push(ProjectHistory { name, turns });
                        proof {
                            assert(self.contexts() =~= old_contexts.push(entry));
                            assert forall|a: int, b: int|
                                0 <= a < b < self.contexts().len() implies (
                            #[trigger] self.contexts()[a]).0 != (#[trigger] self.contexts()[b]).0 by {
                                if b < old_contexts.len() {
                                    assert(self.contexts()[a] == old_contexts[a]);
                                    assert(self.contexts()[b] == old_contexts[b]);
                                } else {
                                    assert(self.contexts()[a] == old_contexts[a]);
                                }
                            }
                        }
                    },
                }
            },
            None => {
                proof {
                    assert(self.contexts() =~= old_contexts);
                }
            },
        }
    }

    /// Switches to a different project context.
    pub fn switch_project(&mut self, project: &str)
        ensures
            final(self).project() matches Some(p) && p@ == project@,
            final(self).history() == old(self).history(),
            final(self).contexts() == old(self).contexts(),
    {
        self.current_project = Some(project.to_owned());
    }

    /// Clears the current project context.
    pub fn clear_project(&mut self)
        ensures
            final(self).project() is None,
            final(self).history() == old(self).history(),
            final(self).contexts() == old(self).contexts(),
    {
        self.current_project = None;
    }

    /// The current project.
    pub fn current_project(&self) -> (r: Option<&str>)
        ensures
            match self.project() {
                Some(p) => r matches Some(s) && s@ == p@,
                None => r is None,
            },
    {
        match &self.current_project {
            Some(p) => Some(p.as_str()),
            None => None,
        }
    }

    /// The `n` most recent turns, most recent first.
    pub fn recent_history(&self, n: usize) -> (recent: Vec<ConversationTurn>)
        ensures
            recent@ == most_recent(self.history(), n as nat),
    {
        let mut recent: Vec<ConversationTurn> = Vec::new();
        let limit: usize = if n < self.history.len() {
            n
        } else {
            self.history.len()
        };
        let mut i: usize = 0;
        while i < limit
            invariant
                i <= limit <= self.history@.len(),
                recent@ == self.history@.take(i as int),
            decreases limit - i,
        {
            recent.push(self.history[i].clone());
            proof {
                assert(self.history@.take(i + 1) =~= self.history@.take(i as int).push(
                    self.history@[i as int],
                ));
            }
            i += 1;
        }
        proof {
            assert(self.history@.take(self.history@.len() as int) =~= self.history@);
        }
        recent
    }

    /// The history of the project `project`, if it has one.
    pub fn project_history(&self, project: &str) -> (r: Option<Vec<ConversationTurn>>)
        ensures
            match r {
                Some(turns) => exists|i: int|
                    holds_project(self.contexts(), project@, i) && turns@
                        == (#[trigger] self.contexts()[i]).1,
                None => lacks_project(self.contexts(), project@),
            },
    {
        match self.find_project(project) {
            Some(i) => {
                let turns = clone_turns(&self.project_contexts[i].turns);
                proof {
                    assert(turns@ == self.contexts()[i as int].1);
                }
                Some(turns)
            },
            None => None,
        }
    }

    /// A snapshot of the current project and the `history_size` most recent
    /// turns.
    pub fn snapshot(&self, history_size: usize) -> (s: ContextSnapshot)
        ensures
            s.project == self.project(),
            s.history@ == most_recent(self.history(), history_size as nat),
    {
        ContextSnapshot {
            project: clone_opt_string(&self.current_project),
            history: self.recent_history(history_size),
        }
    }

    /// Clears the conversation history. Project histories stay.
    pub fn clear_history(&mut self)
        ensures
            final(self).history().len() == 0,
            final(self).project() == old(self).project(),
            final(self).contexts() == old(self).contexts(),
    {
        self.history = Vec::new();
    }

    /// Removes the history of the project `project`, if it has one.
    pub fn clear_project_history(&mut self, project: &str)
        ensures
            final(self).history() == old(self).history(),
            final(self).project() == old(self).project(),
            lacks_project(old(self).contexts(), project@) ==> final(self).contexts() == old(self).contexts(),
            !lacks_project(old(self).contexts(), project@) ==> exists|i: int|
                holds_project(old(self).contexts(), project@, i) && final(self).contexts()
                    == #[trigger] old(self).contexts().remove(i),
    {
        let ghost old_contexts = self.contexts();
        match self.find_project(project) {
            Some(i) => {
                let removed = self.project_contexts.remove(i);
                proof {
                    assert(self.contexts() =~= old_contexts.remove(i as int));
                    assert(holds_project(old_contexts, project@, i as int));
                    assert(old_contexts[i as int].0 == project@);
                }
            },
            None => {},
        }
    }

    /// Number of turns in the conversation history.
    pub fn conversation_count(&self) -> (n: usize)
        ensures
            n == self.history().len(),
    {
        self.history.len()
    }

    /// The names of the projects that have a history.
    pub fn projects(&self) -> (names: Vec<String>)
        ensures
            names@.len() == self.contexts().len(),
            forall|i: int| 0 <= i < names@.len() ==> (#[trigger] names@[i])@ == self.contexts()[i].0,
    {
        let mut names: Vec<String> = Vec::new();
        let mut i: usize = 0;
        while i < self.project_contexts.len()
            invariant
                i <= self.project_contexts@.len(),
                names@.len() == i,
                forall|k: int| 0 <= k < i ==> (#[trigger] names@[k])@ == self.contexts()[k].0,
            decreases self.project_contexts.len() - i,
        {
            names.push(self.project_contexts[i].name.clone());
            i += 1;
        }
        names
    }
}

impl Default for ContextManager {
    fn default() -> (cm: Self)
        ensures
            cm.project() is None,
            cm.history().len() == 0,
            cm.contexts().len() == 0,
            cm.wf(),
    {
        Self::new()
    }
}

} // verus!

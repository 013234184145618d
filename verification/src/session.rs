//! The session data model: one `MC` value per active interactive flow, plus
//! the enumerations describing where in the menu hierarchy the session stands.

use vstd::prelude::*;

use crate::generators::MenuOption;

verus! {

/// How far a modification has progressed: category just chosen (`Initial`),
/// or picking items to add, remove, or change to.
#[derive(Copy, Clone, Debug, PartialEq, Eq, Structural)]
pub enum StateProgress {
    Initial,
    Add,
    Remove,
    Change,
}

/// Where the session stands: the top-level menu, inside a modification, or
/// finished.
#[derive(Copy, Clone, Debug, PartialEq, Eq, Structural)]
pub enum State {
    MainMenu,
    Modification(StateProgress),
    Done,
}

/// The five domains a user can manage. `Membership` is mutually exclusive
/// with the rest: it replaces the one membership role (`Change`) instead of
/// accumulating roles or channels (`Add`/`Remove`).
#[derive(Copy, Clone, Debug, PartialEq, Eq, Structural)]
pub enum Modifications {
    Membership,
    Roles,
    Channels,
    Projects,
    Games,
}

/// One interactive session, owned exclusively by its own event loop.
pub struct MC {
    /// Opaque unique identifier, used only to correlate log lines.
    pub id: String,
    /// The user who opened the session; every mutation applies to them alone.
    pub owner: u64,
    /// Where the session stands in the menu hierarchy.
    pub state: State,
    /// Which domain is being modified, while `state` is `Modification(_)`.
    pub modification: Option<Modifications>,
    /// A just-received selection, consumed and cleared within the same cycle.
    pub value: Option<String>,
    /// Pagination cursor; reserved, never advanced by current behavior.
    pub page: u8,
    /// The currently selectable items, fully recomputed every cycle.
    pub list: Vec<MenuOption>,
    /// The session loop continues while this holds.
    pub running: bool,
}

impl MC {
    /// The session's structural invariant: a category is set exactly while a
    /// modification is underway, `Membership` pairs only with the `Change`
    /// phase (and the other categories never do), and a pending selection
    /// exists only in a phase that offers a select menu.
    pub open spec fn wf(self) -> bool {
        &&& (self.state is Modification <==> self.modification is Some)
        &&& (match (self.state, self.modification) {
            (State::Modification(p), Some(m)) => (m == Modifications::Membership <==> p
                == StateProgress::Change),
            _ => true,
        })
        &&& (self.value is Some ==> (self.state matches State::Modification(p) && p
            != StateProgress::Initial))
    }

    /// Creates a session for `owner`, standing at the main menu.
    pub fn new(owner: u64) -> (r: MC)
        ensures
            r.wf(),
            r.owner == owner,
            r.state == State::MainMenu,
            r.modification is None,
            r.value is None,
            r.page == 0,
            r.list@ =~= Seq::<MenuOption>::empty(),
            r.running,
            r.id@.len() == 26,
    {
        MC {
            id: fresh_session_id(),
            owner,
            state: State::MainMenu,
            modification: None,
            value: None,
            page: 0,
            list: Vec::new(),
            running: true,
        }
    }
}

/// Relies on `rusty_ulid::generate_ulid_string`: a freshly generated ULID in
/// its canonical 26-character textual form. The value depends on the clock
/// and on randomness, so nothing beyond its length is assumed.
#[verifier::external_body]
fn fresh_session_id() -> (r: String)
    ensures
        r@.len() == 26,
{
    rusty_ulid::generate_ulid_string()
}

} // verus!

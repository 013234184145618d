//! The state machine's handlers: one per state, each consuming one input and
//! mutating the session synchronously. Dispatch is an exhaustive match on the
//! current state; an input outside the transition table is excluded by
//! contract, since it signals a UI/logic desynchronization.

use vstd::prelude::*;
use vstd::pervasive::unreached;

use crate::inputs::{input_legal, Event, Input};
use crate::session::{Modifications, State, StateProgress, MC};

verus! {

/// The main-menu row of the transition table: a category button enters the
/// matching modification (`Membership` skips straight to its `Change` phase),
/// and the closing button ends the session.
pub open spec fn main_menu_step(pre: MC, post: MC, input: Input) -> bool {
    &&& (match input {
        Input::Membership => {
            &&& post.state == State::Modification(StateProgress::Change)
            &&& post.modification == Some(Modifications::Membership)
            &&& post.running == pre.running
        },
        Input::Roles => {
            &&& post.state == State::Modification(StateProgress::Initial)
            &&& post.modification == Some(Modifications::Roles)
            &&& post.running == pre.running
        },
        Input::Chans => {
            &&& post.state == State::Modification(StateProgress::Initial)
            &&& post.modification == Some(Modifications::Channels)
            &&& post.running == pre.running
        },
        Input::Projs => {
            &&& post.state == State::Modification(StateProgress::Initial)
            &&& post.modification == Some(Modifications::Projects)
            &&& post.running == pre.running
        },
        Input::Games => {
            &&& post.state == State::Modification(StateProgress::Initial)
            &&& post.modification == Some(Modifications::Games)
            &&& post.running == pre.running
        },
        Input::ExitMc => {
            &&& post.state == State::Done
            &&& post.modification is None
            &&& !post.running
        },
        _ => false,
    })
    &&& post.value == pre.value
    &&& post.page == pre.page
    &&& post.list == pre.list
    &&& post.owner == pre.owner
    &&& post.id == pre.id
}

/// The modification rows of the transition table: "Done" returns to the main
/// menu with the category cleared, `Add`/`Remove` pick a phase from `Initial`,
/// a selection records its value, and the page controls adjust the (reserved)
/// cursor.
pub open spec fn modification_step(pre: MC, post: MC, input: Input) -> bool
    recommends
        pre.state is Modification,
{
    &&& (match input {
        Input::Done => {
            &&& post.state == State::MainMenu
            &&& post.modification is None
            &&& post.value == pre.value
            &&& post.page == pre.page
        },
        Input::Add => {
            &&& pre.state == State::Modification(StateProgress::Initial)
            &&& post.state == State::Modification(StateProgress::Add)
            &&& post.modification == pre.modification
            &&& post.value == pre.value
            &&& post.page == pre.page
        },
        Input::Remove => {
            &&& pre.state == State::Modification(StateProgress::Initial)
            &&& post.state == State::Modification(StateProgress::Remove)
            &&& post.modification == pre.modification
            &&& post.value == pre.value
            &&& post.page == pre.page
        },
        Input::SelVal(v) => {
            &&& pre.state != State::Modification(StateProgress::Initial)
            &&& post.state == pre.state
            &&& post.modification == pre.modification
            &&& post.value == v
            &&& post.page == pre.page
        },
        Input::NextPage => {
            &&& post.state == pre.state
            &&& post.modification == pre.modification
            &&& post.value == pre.value
            &&& post.page == pre.page + 1
        },
        Input::PrevPage => {
            &&& post.state == pre.state
            &&& post.modification == pre.modification
            &&& post.value == pre.value
            &&& post.page == (if pre.page == 0 {
                0u8
            } else {
                (pre.page - 1) as u8
            })
        },
        _ => false,
    })
    &&& post.list == pre.list
    &&& post.running == pre.running
    &&& post.owner == pre.owner
    &&& post.id == pre.id
}

/// A timed-out wait: the session ends silently, otherwise untouched.
pub open spec fn timeout_step(pre: MC, post: MC) -> bool {
    &&& !post.running
    &&& post.state == pre.state
    &&& post.modification == pre.modification
    &&& post.value == pre.value
    &&& post.page == pre.page
    &&& post.list == pre.list
    &&& post.owner == pre.owner
    &&& post.id == pre.id
}

impl MC {
    /// Handles one input while the session shows the main menu.
    pub fn handle_main_menu(&mut self, input: &Input)
        requires
            old(self).wf(),
            old(self).state == State::MainMenu,
            input_legal(old(self).state, *input),
        ensures
            final(self).wf(),
            main_menu_step(*old(self), *final(self), *input),
    {
        match input {
            Input::Membership => {
                self.modification = Some(Modifications::Membership);
                self.state = State::Modification(StateProgress::Change);
            },
            Input::Roles => {
                self.modification = Some(Modifications::Roles);
                self.state = State::Modification(StateProgress::Initial);
            },
            Input::Chans => {
                self.modification = Some(Modifications::Channels);
                self.state = State::Modification(StateProgress::Initial);
            },
            Input::Projs => {
                self.modification = Some(Modifications::Projects);
                self.state = State::Modification(StateProgress::Initial);
            },
            Input::Games => {
                self.modification = Some(Modifications::Games);
                self.state = State::Modification(StateProgress::Initial);
            },
            Input::ExitMc => {
                self.state = State::Done;
                self.running = false;
            },
            _ => unreached(),
        }
    }

    /// Handles one input while the session is inside a modification.
    pub fn handle_modification(&mut self, input: &Input)
        requires
            old(self).wf(),
            old(self).state is Modification,
            old(self).value is None,
            input_legal(old(self).state, *input),
            *input is NextPage ==> old(self).page < u8::MAX,
        ensures
            final(self).wf(),
            modification_step(*old(self), *final(self), *input),
    {
        match input {
            Input::Done => {
                self.state = State::MainMenu;
                self.modification = None;
            },
            Input::Add => {
                self.state = State::Modification(StateProgress::Add);
            },
            Input::Remove => {
                self.state = State::Modification(StateProgress::Remove);
            },
            Input::SelVal(v) => {
                self.value = clone_opt_string(v);
            },
            Input::NextPage => {
                self.page = self.page + 1;
            },
            Input::PrevPage => {
                self.page = if self.page == 0 {
                    0
                } else {
                    self.page - 1
                };
            },
            _ => unreached(),
        }
    }

    /// Consumes one turn of the session loop: a timeout ends the session with
    /// no further output, and an interaction is dispatched to the handler for
    /// the current state. Returns whether the cycle owes the platform a UI
    /// update (a timeout owes none).
    pub fn handle_event(&mut self, e: &Event) -> (emit: bool)
        requires
            old(self).wf(),
            old(self).value is None,
            old(self).state != State::Done,
            *e matches Event::Control(i) ==> input_legal(old(self).state, i),
            *e matches Event::Control(i) && i is NextPage ==> old(self).page < u8::MAX,
        ensures
            final(self).wf(),
            emit == (*e is Control),
            *e is Timeout ==> timeout_step(*old(self), *final(self)),
            *e matches Event::Control(i) ==> {
                &&& old(self).state == State::MainMenu ==> main_menu_step(
                    *old(self),
                    *final(self),
                    i,
                )
                &&& old(self).state is Modification ==> modification_step(
                    *old(self),
                    *final(self),
                    i,
                )
            },
    {
        match e {
            Event::Timeout => {
                self.running = false;
                false
            },
            Event::Control(i) => {
                match self.state {
                    State::MainMenu => self.handle_main_menu(i),
                    State::Modification(_) => self.handle_modification(i),
                    State::Done => unreached(),
                }
                true
            },
        }
    }
}

/// Copies an optional selection value.
fn clone_opt_string(v: &Option<String>) -> (r: Option<String>)
    ensures
        r == *v,
{
    match v {
        Some(s) => Some(s.clone()),
        None => None,
    }
}

} // verus!

//! The interaction vocabulary: the control identifiers a session's UI emits,
//! the parse from a received control back into that vocabulary, and which
//! inputs are legal in which state.

use vstd::prelude::*;
use vstd::string::StringExecFns;

use crate::session::{State, StateProgress};

verus! {

/// A control activation, decoded from the received interaction. `SelVal`
/// carries the first selected value, when the platform delivered one.
pub enum Input {
    Membership,
    Roles,
    Chans,
    Projs,
    Games,
    ExitMc,
    Add,
    Remove,
    Done,
    SelVal(Option<String>),
    NextPage,
    PrevPage,
}

/// What one turn of the session loop received: an interaction, or nothing
/// within the timeout bound.
pub enum Event {
    Timeout,
    Control(Input),
}

/// The input that a control identifier and its selected values decode to.
pub open spec fn spec_parse_control(id: Seq<char>, values: Seq<String>) -> Option<Input> {
    if id == "membership"@ {
        Some(Input::Membership)
    } else if id == "roles"@ {
        Some(Input::Roles)
    } else if id == "chans"@ {
        Some(Input::Chans)
    } else if id == "projs"@ {
        Some(Input::Projs)
    } else if id == "games"@ {
        Some(Input::Games)
    } else if id == "exit-mc"@ {
        Some(Input::ExitMc)
    } else if id == "add"@ {
        Some(Input::Add)
    } else if id == "remove"@ {
        Some(Input::Remove)
    } else if id == "done"@ {
        Some(Input::Done)
    } else if id == "sel-val"@ {
        Some(
            Input::SelVal(
                if values.len() > 0 {
                    Some(values[0])
                } else {
                    None
                },
            ),
        )
    } else if id == "next-page"@ {
        Some(Input::NextPage)
    } else if id == "prev-page"@ {
        Some(Input::PrevPage)
    } else {
        None
    }
}

/// Whether two strings hold the same characters.
pub(crate) fn str_is(s: &str, t: &str) -> (r: bool)
    ensures
        r == (s@ == t@),
{
    let a = s.to_owned();
    let b = t.to_owned();
    a == b
}

/// Decodes a received control identifier, with the interaction's selected
/// values, into the input vocabulary. Identifiers outside the vocabulary
/// decode to `None`: they signal a desynchronized UI.
pub fn parse_control(custom_id: &str, values: &Vec<String>) -> (r: Option<Input>)
    ensures
        r == spec_parse_control(custom_id@, values@),
{
    if str_is(custom_id, "membership") {
        Some(Input::Membership)
    } else if str_is(custom_id, "roles") {
        Some(Input::Roles)
    } else if str_is(custom_id, "chans") {
        Some(Input::Chans)
    } else if str_is(custom_id, "projs") {
        Some(Input::Projs)
    } else if str_is(custom_id, "games") {
        Some(Input::Games)
    } else if str_is(custom_id, "exit-mc") {
        Some(Input::ExitMc)
    } else if str_is(custom_id, "add") {
        Some(Input::Add)
    } else if str_is(custom_id, "remove") {
        Some(Input::Remove)
    } else if str_is(custom_id, "done") {
        Some(Input::Done)
    } else if str_is(custom_id, "sel-val") {
        let v: Option<String> = if values.len() > 0 {
            Some(values[0].clone())
        } else {
            None
        };
        Some(Input::SelVal(v))
    } else if str_is(custom_id, "next-page") {
        Some(Input::NextPage)
    } else if str_is(custom_id, "prev-page") {
        Some(Input::PrevPage)
    } else {
        None
    }
}

/// The transition table's domain: which inputs each state accepts. Anything
/// outside it is a state-machine violation, fatal rather than recoverable.
pub open spec fn input_legal(state: State, input: Input) -> bool {
    match state {
        State::MainMenu => {
            ||| input is Membership
            ||| input is Roles
            ||| input is Chans
            ||| input is Projs
            ||| input is Games
            ||| input is ExitMc
        },
        State::Modification(p) => match p {
            StateProgress::Initial => {
                ||| input is Add
                ||| input is Remove
                ||| input is Done
            },
            StateProgress::Add | StateProgress::Remove => {
                ||| input is Done
                ||| input is SelVal
                ||| input is NextPage
                ||| input is PrevPage
            },
            StateProgress::Change => {
                ||| input is Done
                ||| input is SelVal
            },
        },
        State::Done => false,
    }
}

/// Whether `input` is legal in `state`, per the transition table.
pub fn check_input(state: &State, input: &Input) -> (r: bool)
    ensures
        r == input_legal(*state, *input),
{
    match state {
        State::MainMenu => match input {
            Input::Membership | Input::Roles | Input::Chans | Input::Projs | Input::Games
            | Input::ExitMc => true,
            _ => false,
        },
        State::Modification(p) => match p {
            StateProgress::Initial => match input {
                Input::Add | Input::Remove | Input::Done => true,
                _ => false,
            },
            StateProgress::Add | StateProgress::Remove => match input {
                Input::Done | Input::SelVal(_) | Input::NextPage | Input::PrevPage => true,
                _ => false,
            },
            StateProgress::Change => match input {
                Input::Done | Input::SelVal(_) => true,
                _ => false,
            },
        },
        State::Done => false,
    }
}

} // verus!

//! The view renderer: a pure function from session state to a UI description.
//!
//! Nothing here performs I/O; the hosting layer translates a `UiMessage` into
//! the platform's own builders. The control identifiers emitted here form the
//! fixed vocabulary the handlers later switch on.

use vstd::prelude::*;

use crate::config::MAX_LIST_SIZE;
use vstd::pervasive::unreached;
use crate::session::{Modifications, State, StateProgress, MC};

verus! {

/// One selectable item: the text shown and the value carried back when chosen.
#[derive(Debug)]
pub struct MenuOption {
    pub label: String,
    pub val: String,
}

/// Visual style of a button.
#[derive(Copy, Clone, Debug, PartialEq, Eq, Structural)]
pub enum ButtonStyle {
    Primary,
    Secondary,
    Success,
    Danger,
}

/// A push button with the control identifier it reports when pressed.
#[derive(Debug)]
pub struct Button {
    pub custom_id: String,
    pub label: String,
    pub style: ButtonStyle,
}

/// A single-select menu. When no option is available it is rendered disabled
/// with an explanatory placeholder, never as a live control with nothing in it.
#[derive(Debug)]
pub struct SelectMenu {
    pub custom_id: String,
    pub placeholder: String,
    pub disabled: bool,
    pub options: Vec<MenuOption>,
}

/// One interactive control.
#[derive(Debug)]
pub enum Component {
    Button(Button),
    Select(SelectMenu),
}

/// A horizontal row of controls.
#[derive(Debug)]
pub struct ActionRow {
    pub components: Vec<Component>,
}

/// A complete UI description: the message text and its control rows.
#[derive(Debug)]
pub struct UiMessage {
    pub content: Option<String>,
    pub ephemeral: bool,
    pub rows: Vec<ActionRow>,
}

/// Whether `c` is a button with the given identifier, label and style.
pub open spec fn is_button(c: Component, id: Seq<char>, label: Seq<char>, style: ButtonStyle) -> bool {
    c matches Component::Button(b) && b.custom_id@ == id && b.label@ == label && b.style == style
}

/// The label of the "add" button for a category.
pub open spec fn add_label(m: Modifications) -> Seq<char> {
    match m {
        Modifications::Membership => Seq::<char>::empty(),
        Modifications::Roles => "Add Roles"@,
        Modifications::Channels => "Join Channels"@,
        Modifications::Projects => "Join Projects"@,
        Modifications::Games => "Add Games"@,
    }
}

/// The label of the "remove" button for a category.
pub open spec fn remove_label(m: Modifications) -> Seq<char> {
    match m {
        Modifications::Membership => Seq::<char>::empty(),
        Modifications::Roles => "Remove Roles"@,
        Modifications::Channels => "Leave Channels"@,
        Modifications::Projects => "Leave Projects"@,
        Modifications::Games => "Remove Games"@,
    }
}

/// The select-menu placeholder for a category and phase.
pub open spec fn placeholder_for(m: Modifications, p: StateProgress) -> Seq<char> {
    match (m, p) {
        (Modifications::Membership, StateProgress::Change) => "Select a new membership type..."@,
        (Modifications::Roles, StateProgress::Add) => "Select a role to add..."@,
        (Modifications::Roles, StateProgress::Remove) => "Select a role to remove..."@,
        (Modifications::Channels, StateProgress::Add) => "Select a channel to join..."@,
        (Modifications::Channels, StateProgress::Remove) => "Select a channel to leave..."@,
        (Modifications::Projects, StateProgress::Add) => "Select a project to join..."@,
        (Modifications::Projects, StateProgress::Remove) => "Select a project to leave..."@,
        (Modifications::Games, StateProgress::Add) => "Select a game to add..."@,
        (Modifications::Games, StateProgress::Remove) => "Select a game to remove..."@,
        _ => Seq::<char>::empty(),
    }
}

/// The two rows of a selection step: the select menu, then a "Done" button.
pub open spec fn sel_menu_rows_ok(rows: Seq<ActionRow>, placeholder: Seq<char>, list: Seq<
    MenuOption,
>) -> bool {
    &&& rows.len() == 2
    &&& rows[0].components@.len() == 1
    &&& (rows[0].components@[0] matches Component::Select(sm) && {
        &&& sm.custom_id@ == "sel-val"@
        &&& (if list.len() == 0 {
            &&& sm.disabled
            &&& sm.placeholder@ == "There are no available options!"@
            &&& sm.options@.len() == 1
            &&& sm.options@[0].label@ == "none"@
            &&& sm.options@[0].val@ == "none"@
        } else {
            &&& !sm.disabled
            &&& sm.placeholder@ == placeholder
            &&& sm.options@ == list
        })
    })
    &&& rows[1].components@.len() == 1
    &&& is_button(rows[1].components@[0], "done"@, "Done"@, ButtonStyle::Secondary)
}

/// The main menu: one button per category, then a closing button.
pub open spec fn main_menu_ui_ok(r: UiMessage) -> bool {
    &&& r.content matches Some(c) && c@
        == "This code is highly unstable, please report any bugs to <@125812945061019650>!"@
    &&& r.ephemeral
    &&& r.rows@.len() == 2
    &&& r.rows@[0].components@.len() == 5
    &&& is_button(r.rows@[0].components@[0], "membership"@, "Membership"@, ButtonStyle::Primary)
    &&& is_button(r.rows@[0].components@[1], "roles"@, "Roles"@, ButtonStyle::Primary)
    &&& is_button(r.rows@[0].components@[2], "chans"@, "Channels"@, ButtonStyle::Primary)
    &&& is_button(r.rows@[0].components@[3], "projs"@, "Projects"@, ButtonStyle::Primary)
    &&& is_button(r.rows@[0].components@[4], "games"@, "Games"@, ButtonStyle::Primary)
    &&& r.rows@[1].components@.len() == 1
    &&& is_button(r.rows@[1].components@[0], "exit-mc"@, "Done"@, ButtonStyle::Secondary)
}

/// The closing message: a farewell and no interactive controls.
pub open spec fn done_ui_ok(r: UiMessage) -> bool {
    &&& r.content matches Some(c) && c@ == "Goodbye!"@
    &&& r.rows@.len() == 0
}

/// The modification view: `Add`/`Remove`/`Done` buttons while the phase is
/// `Initial`, otherwise a select menu over the current candidates.
pub open spec fn modification_ui_ok(s: MC, r: UiMessage) -> bool
    recommends
        s.state is Modification,
        s.modification is Some,
{
    match (s.state, s.modification) {
        (State::Modification(p), Some(m)) => {
            if p == StateProgress::Initial {
                &&& r.content is None
                &&& r.rows@.len() == 1
                &&& r.rows@[0].components@.len() == 3
                &&& is_button(r.rows@[0].components@[0], "add"@, add_label(m), ButtonStyle::Success)
                &&& is_button(
                    r.rows@[0].components@[1],
                    "remove"@,
                    remove_label(m),
                    ButtonStyle::Danger,
                )
                &&& is_button(r.rows@[0].components@[2], "done"@, "Done"@, ButtonStyle::Secondary)
            } else {
                &&& r.content is None
                &&& sel_menu_rows_ok(r.rows@, placeholder_for(m, p), s.list@)
            }
        },
        _ => false,
    }
}

/// Builds a button component.
fn button(id: &str, label: &str, style: ButtonStyle) -> (r: Component)
    ensures
        is_button(r, id@, label@, style),
{
    Component::Button(Button { custom_id: id.to_owned(), label: label.to_owned(), style })
}

/// Copies a candidate list, item for item.
fn copy_options(list: &Vec<MenuOption>) -> (r: Vec<MenuOption>)
    ensures
        r@ == list@,
{
    let mut r: Vec<MenuOption> = Vec::new();
    let mut i: usize = 0;
    while i < list.len()
        invariant
            0 <= i <= list@.len(),
            r@ =~= list@.take(i as int),
        decreases list@.len() - i,
    {
        let o = MenuOption { label: list[i].label.clone(), val: list[i].val.clone() };
        proof {
            assert(o == list@[i as int]);
        }
        r.push(o);
        proof {
            assert(r@ =~= list@.take(i as int + 1));
        }
        i = i + 1;
    }
    proof {
        assert(list@.take(list@.len() as int) =~= list@);
    }
    r
}

/// Whether a candidate list has grown past the size the UI can comfortably
/// display, which is worth a warning since no pagination exists yet.
pub fn needs_size_warning(list: &Vec<MenuOption>) -> (r: bool)
    ensures
        r == (list@.len() > MAX_LIST_SIZE),
{
    list.len() > MAX_LIST_SIZE
}

/// The two rows of a selection step: the candidate select menu and a "Done"
/// button. An empty candidate list renders as a disabled menu with an
/// explanatory placeholder rather than a live but dead control. Lists past
/// the advisable size are still rendered whole.
pub fn sel_menu(placehold: &str, list: &Vec<MenuOption>, page: u8) -> (r: Vec<ActionRow>)
    ensures
        sel_menu_rows_ok(r@, placehold@, list@),
{
    let sm: SelectMenu = if list.len() == 0 {
        let mut options: Vec<MenuOption> = Vec::new();
        options.push(MenuOption { label: "none".to_owned(), val: "none".to_owned() });
        SelectMenu {
            custom_id: "sel-val".to_owned(),
            placeholder: "There are no available options!".to_owned(),
            disabled: true,
            options,
        }
    } else {
        SelectMenu {
            custom_id: "sel-val".to_owned(),
            placeholder: placehold.to_owned(),
            disabled: false,
            options: copy_options(list),
        }
    };
    let mut row0: Vec<Component> = Vec::new();
    row0.push(Component::Select(sm));
    let mut row1: Vec<Component> = Vec::new();
    row1.push(button("done", "Done", ButtonStyle::Secondary));
    let mut rows: Vec<ActionRow> = Vec::new();
    rows.push(ActionRow { components: row0 });
    rows.push(ActionRow { components: row1 });
    rows
}

impl MC {
    /// Renders the top-level menu.
    pub fn generate_main_menu(&self) -> (r: UiMessage)
        ensures
            main_menu_ui_ok(r),
    {
        let mut row0: Vec<Component> = Vec::new();
        row0.push(button("membership", "Membership", ButtonStyle::Primary));
        row0.push(button("roles", "Roles", ButtonStyle::Primary));
        row0.push(button("chans", "Channels", ButtonStyle::Primary));
        row0.push(button("projs", "Projects", ButtonStyle::Primary));
        row0.push(button("games", "Games", ButtonStyle::Primary));
        let mut row1: Vec<Component> = Vec::new();
        row1.push(button("exit-mc", "Done", ButtonStyle::Secondary));
        let mut rows: Vec<ActionRow> = Vec::new();
        rows.push(ActionRow { components: row0 });
        rows.push(ActionRow { components: row1 });
        UiMessage {
            content: Some(
                "This code is highly unstable, please report any bugs to <@125812945061019650>!".to_owned(),
            ),
            ephemeral: true,
            rows,
        }
    }

    /// Renders the closing message.
    pub fn generate_done(&self) -> (r: UiMessage)
        ensures
            done_ui_ok(r),
    {
        UiMessage { content: Some("Goodbye!".to_owned()), ephemeral: false, rows: Vec::new() }
    }

    /// Renders the modification view for the current category and phase.
    pub fn generate_modification(&self) -> (r: UiMessage)
        requires
            self.wf(),
            self.state is Modification,
        ensures
            modification_ui_ok(*self, r),
    {
        let p = match self.state {
            State::Modification(p) => p,
            _ => unreached(),
        };
        let m = match self.modification {
            Some(m) => m,
            None => unreached(),
        };
        match p {
            StateProgress::Initial => {
                let (add_l, remove_l): (&str, &str) = match m {
                    Modifications::Membership => unreached(),
                    Modifications::Roles => ("Add Roles", "Remove Roles"),
                    Modifications::Channels => ("Join Channels", "Leave Channels"),
                    Modifications::Projects => ("Join Projects", "Leave Projects"),
                    Modifications::Games => ("Add Games", "Remove Games"),
                };
                let mut row0: Vec<Component> = Vec::new();
                row0.push(button("add", add_l, ButtonStyle::Success));
                row0.push(button("remove", remove_l, ButtonStyle::Danger));
                row0.push(button("done", "Done", ButtonStyle::Secondary));
                let mut rows: Vec<ActionRow> = Vec::new();
                rows.push(ActionRow { components: row0 });
                UiMessage { content: None, ephemeral: false, rows }
            },
            StateProgress::Add => {
                let placehold: &str = match m {
                    Modifications::Roles => "Select a role to add...",
                    Modifications::Channels => "Select a channel to join...",
                    Modifications::Projects => "Select a project to join...",
                    Modifications::Games => "Select a game to add...",
                    Modifications::Membership => unreached(),
                };
                UiMessage {
                    content: None,
                    ephemeral: false,
                    rows: sel_menu(placehold, &self.list, self.page),
                }
            },
            StateProgress::Remove => {
                let placehold: &str = match m {
                    Modifications::Roles => "Select a role to remove...",
                    Modifications::Channels => "Select a channel to leave...",
                    Modifications::Projects => "Select a project to leave...",
                    Modifications::Games => "Select a game to remove...",
                    Modifications::Membership => unreached(),
                };
                UiMessage {
                    content: None,
                    ephemeral: false,
                    rows: sel_menu(placehold, &self.list, self.page),
                }
            },
            StateProgress::Change => {
                UiMessage {
                    content: None,
                    ephemeral: false,
                    rows: sel_menu("Select a new membership type...", &self.list, self.page),
                }
            },
        }
    }

    /// Renders the view for the current state.
    pub fn generate(&self) -> (r: UiMessage)
        requires
            self.wf(),
        ensures
            self.state == State::MainMenu ==> main_menu_ui_ok(r),
            self.state is Modification ==> modification_ui_ok(*self, r),
            self.state == State::Done ==> done_ui_ok(r),
    {
        match self.state {
            State::MainMenu => self.generate_main_menu(),
            State::Modification(_) => self.generate_modification(),
            State::Done => self.generate_done(),
        }
    }
}

} // verus!

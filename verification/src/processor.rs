//! The processor: translates a pending selection into exactly one mutation
//! request for the platform layer, and recomputes the selectable candidates
//! from a fresh snapshot of the platform state.
//!
//! The session does not wait for read-after-write confirmation: the request is
//! handed out, and the next snapshot (read after the mutation) is what the
//! recomputed list reflects.

use vstd::pervasive::unreached;
use vstd::prelude::*;

use crate::config;
use crate::generators::MenuOption;
use crate::lists::{
    chan_candidates_spec, filter_chans, role_candidates, role_candidates_spec, sorted_by_position,
    ChannelInfo, RoleInfo,
};
use crate::numbers::{all_dec_digits, dec_of, dec_val, parse_u64, u64_to_dec_string};
use crate::session::{Modifications, State, StateProgress, MC};

verus! {

/// One membership-affecting operation, to be performed against the platform
/// on behalf of `user`. `ChangeRole` first strips every role of the exclusive
/// membership set, then grants `role`; the others are single grant/revoke or
/// visibility calls.
pub enum MutationRequest {
    ChangeRole { user: u64, role: u64 },
    AddRole { user: u64, role: u64 },
    RemoveRole { user: u64, role: u64 },
    JoinChannel { user: u64, channel: u64 },
    LeaveChannel { user: u64, channel: u64 },
}

/// A fresh read of the platform state, shaped for the category being listed:
/// the allow-list with display names and the user's current roles, or every
/// guild channel with this user's current visibility.
pub enum Snapshot {
    Roles { allowed: Vec<RoleInfo>, held: Vec<u64> },
    Channels { chans: Vec<ChannelInfo> },
}

/// The identifiers of an allow-list, in order.
pub open spec fn ids_of(rs: Seq<RoleInfo>) -> Seq<u64> {
    rs.map_values(|ri: RoleInfo| ri.id)
}

/// The fixed allow-list a role category draws from.
pub open spec fn allowed_ids_for(m: Modifications) -> Seq<u64> {
    match m {
        Modifications::Membership => config::allowed_memberships_seq(),
        Modifications::Roles => config::allowed_roles_seq(),
        Modifications::Projects => config::allowed_projects_seq(),
        _ => Seq::<u64>::empty(),
    }
}

/// The container a channel category draws its text channels from.
pub open spec fn container_for(m: Modifications) -> u64 {
    match m {
        Modifications::Channels => config::CAT_CHANNELS,
        Modifications::Games => config::CAT_GAMES,
        _ => 0,
    }
}

/// Whether a category lists roles (rather than channels).
pub open spec fn is_role_category(m: Modifications) -> bool {
    m == Modifications::Membership || m == Modifications::Roles || m == Modifications::Projects
}

/// The mutation a selection of `id` triggers, given the category and phase:
/// membership replaces (`Change`), roles and projects are granted or revoked,
/// channels and games are joined or left.
pub open spec fn request_for(m: Modifications, p: StateProgress, owner: u64, id: u64) -> MutationRequest
    recommends
        m == Modifications::Membership ==> p == StateProgress::Change,
        m != Modifications::Membership ==> p == StateProgress::Add || p == StateProgress::Remove,
{
    match m {
        Modifications::Membership => MutationRequest::ChangeRole { user: owner, role: id },
        Modifications::Roles | Modifications::Projects => {
            if p == StateProgress::Add {
                MutationRequest::AddRole { user: owner, role: id }
            } else {
                MutationRequest::RemoveRole { user: owner, role: id }
            }
        },
        Modifications::Channels | Modifications::Games => {
            if p == StateProgress::Add {
                MutationRequest::JoinChannel { user: owner, channel: id }
            } else {
                MutationRequest::LeaveChannel { user: owner, channel: id }
            }
        },
    }
}

/// Whether a menu option presents this role: its display name, and its
/// identifier in decimal as the carried value.
pub open spec fn option_matches_role(o: MenuOption, ri: RoleInfo) -> bool {
    o.label == ri.name && o.val@ == dec_of(ri.id as nat)
}

/// Whether the options present exactly these roles, in order.
pub open spec fn options_match_roles(os: Seq<MenuOption>, rs: Seq<RoleInfo>) -> bool {
    os.len() == rs.len() && forall|i: int|
        0 <= i < os.len() ==> option_matches_role(#[trigger] os[i], rs[i])
}

/// Whether a menu option presents this channel.
pub open spec fn option_matches_chan(o: MenuOption, c: ChannelInfo) -> bool {
    o.label == c.name && o.val@ == dec_of(c.id as nat)
}

/// Whether the options present exactly these channels, in order.
pub open spec fn options_match_channels(os: Seq<MenuOption>, cs: Seq<ChannelInfo>) -> bool {
    os.len() == cs.len() && forall|i: int|
        0 <= i < os.len() ==> option_matches_chan(#[trigger] os[i], cs[i])
}

/// Whether `s` is the candidate channels of `chans` under `cat` for phase
/// `p`, in display order, and `list` presents exactly `s`.
pub open spec fn arranged(
    list: Seq<MenuOption>,
    s: Seq<ChannelInfo>,
    chans: Seq<ChannelInfo>,
    cat: u64,
    p: StateProgress,
) -> bool {
    &&& s.to_multiset() == chan_candidates_spec(
        chans,
        cat,
        p,
        false,
        config::excluded_channels_seq(),
    ).to_multiset()
    &&& sorted_by_position(s)
    &&& options_match_channels(list, s)
}

/// Whether `list` presents the candidate channels of `chans` under `cat` for
/// phase `p`, in display order.
pub open spec fn channel_list_ok(
    list: Seq<MenuOption>,
    chans: Seq<ChannelInfo>,
    cat: u64,
    p: StateProgress,
) -> bool {
    exists|s: Seq<ChannelInfo>| arranged(list, s, chans, cat, p)
}

/// Whether a pending selection can be resolved as an identifier.
pub open spec fn value_parses(v: Option<String>) -> bool {
    match v {
        Some(s) => s@.len() > 0 && all_dec_digits(s@) && dec_val(s@) <= u64::MAX,
        None => true,
    }
}

/// Renders roles as selectable options.
fn options_of_roles(rs: &Vec<RoleInfo>) -> (r: Vec<MenuOption>)
    ensures
        options_match_roles(r@, rs@),
{
    let mut r: Vec<MenuOption> = Vec::new();
    let mut i: usize = 0;
    while i < rs.len()
        invariant
            0 <= i <= rs@.len(),
            r@.len() == i,
            forall|k: int| 0 <= k < i ==> option_matches_role(#[trigger] r@[k], rs@[k]),
        decreases rs@.len() - i,
    {
        r.push(MenuOption { label: rs[i].name.clone(), val: u64_to_dec_string(rs[i].id) });
        i = i + 1;
    }
    r
}

/// Renders channels as selectable options.
fn options_of_channels(cs: &Vec<ChannelInfo>) -> (r: Vec<MenuOption>)
    ensures
        options_match_channels(r@, cs@),
{
    let mut r: Vec<MenuOption> = Vec::new();
    let mut i: usize = 0;
    while i < cs.len()
        invariant
            0 <= i <= cs@.len(),
            r@.len() == i,
            forall|k: int| 0 <= k < i ==> option_matches_chan(#[trigger] r@[k], cs@[k]),
        decreases cs@.len() - i,
    {
        r.push(MenuOption { label: cs[i].name.clone(), val: u64_to_dec_string(cs[i].id) });
        i = i + 1;
    }
    r
}

impl MC {
    /// Whether the pending selection, if any, can be resolved as an
    /// identifier. The platform layer checks this before processing; a value
    /// that fails it signals a desynchronized or forged interaction.
    pub fn pending_value_ok(&self) -> (r: bool)
        ensures
            r == value_parses(self.value),
    {
        match &self.value {
            Some(v) => parse_u64(v.as_str()).is_some(),
            None => true,
        }
    }

    /// Consumes a pending selection, if one was just received: resolves it as
    /// a role or channel identifier per the category and returns the mutation
    /// request the platform layer must perform. A completed `Change` returns
    /// the session to the main menu with the category cleared — a membership
    /// change is a one-shot action; an `Add`/`Remove` selection leaves the
    /// session where it stands. Also reports which category and phase the
    /// candidate list must be recomputed for (none while the phase is
    /// `Initial`, when no list is shown).
    pub fn process(&mut self) -> (r: (Option<MutationRequest>, Option<(Modifications, StateProgress)>))
        requires
            old(self).wf(),
            value_parses(old(self).value),
        ensures
            final(self).wf(),
            final(self).value is None,
            final(self).list == old(self).list,
            final(self).page == old(self).page,
            final(self).running == old(self).running,
            final(self).owner == old(self).owner,
            final(self).id == old(self).id,
            (old(self).value is None || !(old(self).state is Modification)) ==> {
                &&& final(self).state == old(self).state
                &&& final(self).modification == old(self).modification
                &&& r.0 is None
            },
            old(self).state matches State::Modification(p) ==> (old(self).value matches Some(v)
                ==> (old(self).modification matches Some(m) ==> {
                &&& r.0 == Some(request_for(m, p, old(self).owner, dec_val(v@) as u64))
                &&& (p == StateProgress::Change ==> final(self).state == State::MainMenu
                    && (final(self).modification is None))
                &&& (p != StateProgress::Change ==> final(self).state == old(self).state
                    && final(self).modification == old(self).modification)
            })),
            r.1 == (match (old(self).state, old(self).modification) {
                (State::Modification(p), Some(m)) => if p != StateProgress::Initial {
                    Some((m, p))
                } else {
                    None::<(Modifications, StateProgress)>
                },
                _ => None::<(Modifications, StateProgress)>,
            }),
    {
        match self.state {
            State::Modification(p) => {
                let m = match self.modification {
                    Some(m) => m,
                    None => unreached(),
                };
                let req: Option<MutationRequest> = if self.value.is_some() {
                    let id = {
                        let v = match &self.value {
                            Some(v) => v,
                            None => unreached(),
                        };
                        match parse_u64(v.as_str()) {
                            Some(id) => id,
                            None => unreached(),
                        }
                    };
                    self.value = None;
                    let rq = match m {
                        Modifications::Membership => match p {
                            StateProgress::Change => MutationRequest::ChangeRole {
                                user: self.owner,
                                role: id,
                            },
                            _ => unreached(),
                        },
                        Modifications::Roles | Modifications::Projects => match p {
                            StateProgress::Add => MutationRequest::AddRole {
                                user: self.owner,
                                role: id,
                            },
                            StateProgress::Remove => MutationRequest::RemoveRole {
                                user: self.owner,
                                role: id,
                            },
                            _ => unreached(),
                        },
                        Modifications::Channels | Modifications::Games => match p {
                            StateProgress::Add => MutationRequest::JoinChannel {
                                user: self.owner,
                                channel: id,
                            },
                            StateProgress::Remove => MutationRequest::LeaveChannel {
                                user: self.owner,
                                channel: id,
                            },
                            _ => unreached(),
                        },
                    };
                    if matches!(p, StateProgress::Change) {
                        self.state = State::MainMenu;
                        self.modification = None;
                    }
                    Some(rq)
                } else {
                    None
                };
                let refresh: Option<(Modifications, StateProgress)> = if matches!(
                    p,
                    StateProgress::Initial,
                ) {
                    None
                } else {
                    Some((m, p))
                };
                (req, refresh)
            },
            _ => (None, None),
        }
    }

    /// Recomputes the candidate list for category `m` in phase `p` from a
    /// fresh snapshot: the category's fixed allow-list filtered against the
    /// roles the user holds, or the container's text channels (minus the
    /// globally excluded ones) filtered against what the user can see, in
    /// display order. Nothing else of the session changes.
    pub fn process_list(&mut self, m: Modifications, p: StateProgress, snap: &Snapshot)
        requires
            old(self).wf(),
            m == Modifications::Membership ==> p == StateProgress::Change,
            m != Modifications::Membership ==> p == StateProgress::Add || p
                == StateProgress::Remove,
            is_role_category(m) ==> *snap is Roles,
            !is_role_category(m) ==> *snap is Channels,
            *snap matches Snapshot::Roles { allowed, held } ==> ids_of(allowed@)
                == allowed_ids_for(m),
        ensures
            final(self).wf(),
            final(self).state == old(self).state,
            final(self).modification == old(self).modification,
            final(self).value == old(self).value,
            final(self).page == old(self).page,
            final(self).running == old(self).running,
            final(self).owner == old(self).owner,
            final(self).id == old(self).id,
            *snap matches Snapshot::Roles { allowed, held } ==> options_match_roles(
                final(self).list@,
                role_candidates_spec(allowed@, held@, p),
            ),
            *snap matches Snapshot::Channels { chans } ==> channel_list_ok(
                final(self).list@,
                chans@,
                container_for(m),
                p,
            ),
    {
        match m {
            Modifications::Membership | Modifications::Roles | Modifications::Projects => {
                let (allowed, held) = match snap {
                    Snapshot::Roles { allowed, held } => (allowed, held),
                    _ => unreached(),
                };
                let cands = role_candidates(allowed, held, p);
                self.list = options_of_roles(&cands);
            },
            Modifications::Channels | Modifications::Games => {
                let chans = match snap {
                    Snapshot::Channels { chans } => chans,
                    _ => unreached(),
                };
                let cat: u64 = if matches!(m, Modifications::Channels) {
                    config::CAT_CHANNELS
                } else {
                    config::CAT_GAMES
                };
                let excluded = config::excluded_channels();
                let cs = filter_chans(chans, cat, p, false, &excluded);
                let opts = options_of_channels(&cs);
                proof {
                    assert(arranged(opts@, cs@, chans@, cat, p));
                }
                self.list = opts;
            },
        }
    }
}

} // verus!

//! Configuration the session engine consumes but does not own: the community's
//! identifiers, the fixed allow-lists, and the UI list-size ceiling.

use vstd::prelude::*;

verus! {

/// Identifier of the community (guild) whose members this crate manages.
pub const GUILD_ID: u64 = 491275273598402561;

/// Container whose text channels the `Channels` category offers.
pub const CAT_CHANNELS: u64 = 614536824295260160;

/// Container whose text channels the `Games` category offers.
pub const CAT_GAMES: u64 = 696569774632861746;

/// Role marking a current member.
pub const MEMBERSHIP_MEMBER: u64 = 585637350529302529;

/// Role marking a graduated alumnus.
pub const MEMBERSHIP_ALUMNI: u64 = 612059569274748969;

/// Role marking a friend of the community.
pub const MEMBERSHIP_FRIEND: u64 = 787427932346777660;

/// Largest candidate list the UI can comfortably display; longer lists are
/// still rendered but worth a warning, since no pagination exists yet.
pub const MAX_LIST_SIZE: usize = 20;

/// Whether startup should post the introduction message with the launch button.
pub const SEND_INTRO: bool = false;

/// How long, in seconds, a session waits for the next interaction before
/// silently ending.
pub const SESSION_TIMEOUT_SECS: u64 = 3600;

/// The mutually exclusive membership roles: a member holds at most one.
pub open spec fn allowed_memberships_seq() -> Seq<u64> {
    seq![MEMBERSHIP_MEMBER, MEMBERSHIP_ALUMNI, MEMBERSHIP_FRIEND]
}

/// The allow-list of freely joinable generic roles.
pub open spec fn allowed_roles_seq() -> Seq<u64> {
    seq![621586486793601044u64, 709650648421105694u64, 759187648799178785u64]
}

/// The allow-list of project roles.
pub open spec fn allowed_projects_seq() -> Seq<u64> {
    seq![
        787477836171968552u64,
        585634734122467339u64,
        787478051414867978u64,
        787478212644962305u64,
        787478390705487922u64,
    ]
}

/// Channels excluded from the channel lists unless explicitly permitted.
pub open spec fn excluded_channels_seq() -> Seq<u64> {
    seq![669328124357640222u64]
}

/// The mutually exclusive membership roles, as a vector.
pub fn allowed_memberships() -> (r: Vec<u64>)
    ensures
        r@ == allowed_memberships_seq(),
{
    let r: Vec<u64> = vec![MEMBERSHIP_MEMBER, MEMBERSHIP_ALUMNI, MEMBERSHIP_FRIEND];
    proof {
        assert(r@ =~= allowed_memberships_seq());
    }
    r
}

/// The allow-list of freely joinable generic roles, as a vector.
pub fn allowed_roles() -> (r: Vec<u64>)
    ensures
        r@ == allowed_roles_seq(),
{
    let r: Vec<u64> = vec![621586486793601044u64, 709650648421105694u64, 759187648799178785u64];
    proof {
        assert(r@ =~= allowed_roles_seq());
    }
    r
}

/// The allow-list of project roles, as a vector.
pub fn allowed_projects() -> (r: Vec<u64>)
    ensures
        r@ == allowed_projects_seq(),
{
    let r: Vec<u64> = vec![
        787477836171968552u64,
        585634734122467339u64,
        787478051414867978u64,
        787478212644962305u64,
        787478390705487922u64,
    ];
    proof {
        assert(r@ =~= allowed_projects_seq());
    }
    r
}

/// The excluded channels, as a vector.
pub fn excluded_channels() -> (r: Vec<u64>)
    ensures
        r@ == excluded_channels_seq(),
{
    let r: Vec<u64> = vec![669328124357640222u64];
    proof {
        assert(r@ =~= excluded_channels_seq());
    }
    r
}

} // verus!

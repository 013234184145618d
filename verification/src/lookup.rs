//! Target validation for the direct join/leave commands: resolving a
//! user-supplied channel name or identifier against the joinable pool (the
//! text channels of the channel container). A name outside the pool is a
//! user error, answered with an ephemeral message and no state change.

use vstd::prelude::*;
use vstd::string::StrSliceExecFns;
use vstd::string::StringExecFns;

use crate::config;
use crate::inputs::str_is;
use crate::lists::ChannelInfo;

verus! {

/// The membership role a direct membership-change choice names, if any.
pub open spec fn spec_membership_for_choice(s: Seq<char>) -> Option<u64> {
    if s == "member"@ {
        Some(config::MEMBERSHIP_MEMBER)
    } else if s == "alumni"@ {
        Some(config::MEMBERSHIP_ALUMNI)
    } else if s == "friend"@ {
        Some(config::MEMBERSHIP_FRIEND)
    } else {
        None
    }
}

/// Resolves a direct membership-change choice to the configured role; any
/// other choice is invalid and resolves to nothing.
pub fn membership_for_choice(choice: &str) -> (r: Option<u64>)
    ensures
        r == spec_membership_for_choice(choice@),
{
    if str_is(choice, "member") {
        Some(config::MEMBERSHIP_MEMBER)
    } else if str_is(choice, "alumni") {
        Some(config::MEMBERSHIP_ALUMNI)
    } else if str_is(choice, "friend") {
        Some(config::MEMBERSHIP_FRIEND)
    } else {
        None
    }
}

/// Whether a channel belongs to the pool the direct commands may touch: a
/// text channel under the given container.
pub open spec fn joinable(c: ChannelInfo, cat: u64) -> bool {
    c.parent_id == Some(cat) && c.is_text
}

/// A user-typed channel name, with one leading `#` stripped if present.
pub open spec fn spec_strip_hash(s: Seq<char>) -> Seq<char> {
    if s.len() > 0 && s[0] == '#' {
        s.subrange(1, s.len() as int)
    } else {
        s
    }
}

/// Strips one leading `#` from a user-typed channel name, if present.
pub fn strip_hash(s: &str) -> (r: String)
    ensures
        r@ == spec_strip_hash(s@),
{
    let len = s.unicode_len();
    if len > 0 && s.get_char(0) == '#' {
        s.substring_char(1, len).to_owned()
    } else {
        s.to_owned()
    }
}

/// Finds the first joinable channel under `cat` whose name is `name`.
pub fn find_channel_by_name(chans: &Vec<ChannelInfo>, cat: u64, name: &str) -> (r: Option<usize>)
    ensures
        r matches Some(i) ==> {
            &&& i < chans@.len()
            &&& joinable(chans@[i as int], cat)
            &&& chans@[i as int].name@ == name@
            &&& forall|k: int|
                0 <= k < i ==> !(joinable(#[trigger] chans@[k], cat) && chans@[k].name@ == name@)
        },
        r is None ==> forall|k: int|
            0 <= k < chans@.len() ==> !(joinable(#[trigger] chans@[k], cat) && chans@[k].name@
                == name@),
{
    let wanted = name.to_owned();
    let mut i: usize = 0;
    while i < chans.len()
        invariant
            0 <= i <= chans@.len(),
            wanted@ == name@,
            forall|k: int|
                0 <= k < i ==> !(joinable(#[trigger] chans@[k], cat) && chans@[k].name@ == name@),
        decreases chans@.len() - i,
    {
        let c = &chans[i];
        let in_pool = match c.parent_id {
            Some(pid) => pid == cat && c.is_text,
            None => false,
        };
        if in_pool && c.name == wanted {
            return Some(i);
        }
        i = i + 1;
    }
    None
}

/// Finds the first joinable channel under `cat` with identifier `id`.
pub fn find_channel_by_id(chans: &Vec<ChannelInfo>, cat: u64, id: u64) -> (r: Option<usize>)
    ensures
        r matches Some(i) ==> {
            &&& i < chans@.len()
            &&& joinable(chans@[i as int], cat)
            &&& chans@[i as int].id == id
            &&& forall|k: int|
                0 <= k < i ==> !(joinable(#[trigger] chans@[k], cat) && chans@[k].id == id)
        },
        r is None ==> forall|k: int|
            0 <= k < chans@.len() ==> !(joinable(#[trigger] chans@[k], cat) && chans@[k].id == id),
{
    let mut i: usize = 0;
    while i < chans.len()
        invariant
            0 <= i <= chans@.len(),
            forall|k: int|
                0 <= k < i ==> !(joinable(#[trigger] chans@[k], cat) && chans@[k].id == id),
        decreases chans@.len() - i,
    {
        let c = &chans[i];
        let in_pool = match c.parent_id {
            Some(pid) => pid == cat && c.is_text,
            None => false,
        };
        if in_pool && c.id == id {
            return Some(i);
        }
        i = i + 1;
    }
    None
}

} // verus!

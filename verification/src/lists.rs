//! The option-list builder: given a category, a phase, and a snapshot of the
//! user's current standing, computes the ordered candidate list for the
//! current step, together with the laws that relate the `Add` and `Remove`
//! lists to each other and to the mutations a selection triggers.

use vstd::prelude::*;
use vstd::seq_lib::lemma_multiset_commutative;

use crate::session::StateProgress;

verus! {


/// An allow-listed role, with the display name the platform reports for it.
#[derive(Debug)]
pub struct RoleInfo {
    pub id: u64,
    pub name: String,
}

/// A guild channel as the session's user currently stands to it: its identity,
/// its container, whether it is a text channel, the platform's display
/// position, and whether this user can currently see it.
#[derive(Debug)]
pub struct ChannelInfo {
    pub id: u64,
    pub name: String,
    pub parent_id: Option<u64>,
    pub is_text: bool,
    pub position: i64,
    pub visible: bool,
}

/// Whether a role the user holds (or not) is wanted in phase `p`: `Remove`
/// offers what is held, every other list phase offers what is not.
pub open spec fn wants_role(p: StateProgress, held: Seq<u64>, id: u64) -> bool {
    if p == StateProgress::Remove {
        held.contains(id)
    } else {
        !held.contains(id)
    }
}

/// The candidate roles for phase `p`: the allow-list filtered against what
/// the user holds.
pub open spec fn role_candidates_spec(allowed: Seq<RoleInfo>, held: Seq<u64>, p: StateProgress) -> Seq<
    RoleInfo,
> {
    allowed.filter(|ri: RoleInfo| wants_role(p, held, ri.id))
}

/// Whether a channel belongs to the pool a category draws from: under the
/// right container, a text channel, and not globally excluded (unless
/// exclusion is explicitly permitted).
pub open spec fn chan_in_scope(c: ChannelInfo, cat: u64, allow_excluded: bool, excluded: Seq<u64>) -> bool {
    &&& c.parent_id == Some(cat)
    &&& c.is_text
    &&& (allow_excluded || !excluded.contains(c.id))
}

/// Whether a channel's current visibility is wanted in phase `p`: `Remove`
/// offers what the user can see, every other list phase what they cannot.
pub open spec fn wants_chan(p: StateProgress, c: ChannelInfo) -> bool {
    if p == StateProgress::Remove {
        c.visible
    } else {
        !c.visible
    }
}

/// The candidate channels for phase `p`, before display ordering.
pub open spec fn chan_candidates_spec(
    chans: Seq<ChannelInfo>,
    cat: u64,
    p: StateProgress,
    allow_excluded: bool,
    excluded: Seq<u64>,
) -> Seq<ChannelInfo> {
    chans.filter(
        |c: ChannelInfo| chan_in_scope(c, cat, allow_excluded, excluded) && wants_chan(p, c),
    )
}

/// Whether a channel sequence is in display order.
pub open spec fn sorted_by_position(s: Seq<ChannelInfo>) -> bool {
    forall|i: int, j: int| 0 <= i < j < s.len() ==> #[trigger] s[i].position <= #[trigger] s[j].position
}

/// The store's answer to granting a role: held sets gain the role once.
pub open spec fn grant(held: Seq<u64>, r: u64) -> Seq<u64> {
    if held.contains(r) {
        held
    } else {
        held.push(r)
    }
}

/// The store's answer to revoking a role: every occurrence leaves.
pub open spec fn revoke(held: Seq<u64>, r: u64) -> Seq<u64> {
    held.filter(|x: u64| x != r)
}

/// A one-element sequence filters to itself or to nothing.
proof fn lemma_filter_singleton<A>(x: A, pred: spec_fn(A) -> bool)
    ensures
        seq![x].filter(pred) == (if pred(x) {
            seq![x]
        } else {
            Seq::<A>::empty()
        }),
{
    reveal_with_fuel(Seq::filter, 2);
    assert(seq![x].drop_last() =~= Seq::<A>::empty());
    assert(seq![x].last() == x);
}

/// A filter's elements all come from the filtered sequence.
proof fn lemma_filter_subset<A>(s: Seq<A>, pred: spec_fn(A) -> bool)
    ensures
        forall|x: A| #[trigger] s.filter(pred).contains(x) ==> s.contains(x),
    decreases s.len(),
{
    reveal_with_fuel(Seq::filter, 1);
    if s.len() == 0 {
        assert(s.filter(pred) =~= Seq::<A>::empty());
    } else {
        let dl = s.drop_last();
        lemma_filter_subset(dl, pred);
        let f = s.filter(pred);
        assert forall|x: A| #[trigger] f.contains(x) implies s.contains(x) by {
            let i = choose|i: int| 0 <= i < f.len() && f[i] == x;
            if pred(s.last()) && i == f.len() - 1 {
                assert(f == dl.filter(pred).push(s.last()));
                assert(s[s.len() - 1] == x);
            } else {
                assert(0 <= i < dl.filter(pred).len() && dl.filter(pred)[i] == x);
                assert(dl.filter(pred).contains(x));
                let k = choose|k: int| 0 <= k < dl.len() && dl[k] == x;
                assert(s[k] == x);
            }
        }
    }
}

/// A sequence's filter holds exactly the members that satisfy the predicate.
pub proof fn lemma_filter_membership<A>(s: Seq<A>, pred: spec_fn(A) -> bool)
    ensures
        forall|x: A| #[trigger] s.filter(pred).contains(x) <==> s.contains(x) && pred(x),
{
    lemma_filter_subset(s, pred);
    let f = s.filter(pred);
    assert forall|x: A| #[trigger] f.contains(x) implies pred(x) by {
        let i = choose|i: int| 0 <= i < f.len() && f[i] == x;
        s.lemma_filter_pred(pred, i);
    }
    assert forall|x: A| s.contains(x) && pred(x) implies #[trigger] f.contains(x) by {
        let k = choose|k: int| 0 <= k < s.len() && s[k] == x;
        s.lemma_filter_contains(pred, k);
    }
}


/// A filter and its complement split a sequence's length exactly.
proof fn lemma_filter_complement_len<A>(s: Seq<A>, p1: spec_fn(A) -> bool, p2: spec_fn(A) -> bool)
    requires
        forall|x: A| #[trigger] p1(x) == !p2(x),
    ensures
        s.filter(p1).len() + s.filter(p2).len() == s.len(),
    decreases s.len(),
{
    reveal_with_fuel(Seq::filter, 1);
    if s.len() == 0 {
        assert(s.filter(p1) =~= Seq::<A>::empty());
        assert(s.filter(p2) =~= Seq::<A>::empty());
    } else {
        lemma_filter_complement_len(s.drop_last(), p1, p2);
    }
}

/// For every category that adds and removes against an open pool, the `Add`
/// and `Remove` candidate lists for one user are disjoint and together cover
/// exactly the pool.
pub proof fn lemma_add_remove_partition(allowed: Seq<RoleInfo>, held: Seq<u64>)
    ensures
        forall|ri: RoleInfo| #[trigger] role_candidates_spec(allowed, held, StateProgress::Add).contains(ri)
            <==> allowed.contains(ri) && !held.contains(ri.id),
        forall|ri: RoleInfo| #[trigger] role_candidates_spec(allowed, held, StateProgress::Remove).contains(
            ri,
        ) <==> allowed.contains(ri) && held.contains(ri.id),
        forall|ri: RoleInfo|
            !(#[trigger] role_candidates_spec(allowed, held, StateProgress::Add).contains(ri)
                && #[trigger] role_candidates_spec(allowed, held, StateProgress::Remove).contains(ri)),
        role_candidates_spec(allowed, held, StateProgress::Add).len() + role_candidates_spec(
            allowed,
            held,
            StateProgress::Remove,
        ).len() == allowed.len(),
{
    lemma_filter_membership(allowed, |ri: RoleInfo| wants_role(StateProgress::Add, held, ri.id));
    lemma_filter_membership(allowed, |ri: RoleInfo| wants_role(StateProgress::Remove, held, ri.id));
    lemma_filter_complement_len(
        allowed,
        |ri: RoleInfo| wants_role(StateProgress::Add, held, ri.id),
        |ri: RoleInfo| wants_role(StateProgress::Remove, held, ri.id),
    );
}

/// The channel analogue: over the in-scope pool of a container, the `Add` and
/// `Remove` lists are disjoint and together cover exactly the pool.
pub proof fn lemma_chan_partition(
    chans: Seq<ChannelInfo>,
    cat: u64,
    allow_excluded: bool,
    excluded: Seq<u64>,
)
    ensures
        forall|c: ChannelInfo| #[trigger] chan_candidates_spec(
            chans,
            cat,
            StateProgress::Add,
            allow_excluded,
            excluded,
        ).contains(c) <==> chans.contains(c) && chan_in_scope(c, cat, allow_excluded, excluded)
            && !c.visible,
        forall|c: ChannelInfo| #[trigger] chan_candidates_spec(
            chans,
            cat,
            StateProgress::Remove,
            allow_excluded,
            excluded,
        ).contains(c) <==> chans.contains(c) && chan_in_scope(c, cat, allow_excluded, excluded)
            && c.visible,
        forall|c: ChannelInfo|
            !(#[trigger] chan_candidates_spec(chans, cat, StateProgress::Add, allow_excluded, excluded).contains(c)
                && #[trigger] chan_candidates_spec(
                chans,
                cat,
                StateProgress::Remove,
                allow_excluded,
                excluded,
            ).contains(c)),
{
    lemma_filter_membership(
        chans,
        |c: ChannelInfo| chan_in_scope(c, cat, allow_excluded, excluded) && wants_chan(
            StateProgress::Add,
            c,
        ),
    );
    lemma_filter_membership(
        chans,
        |c: ChannelInfo| chan_in_scope(c, cat, allow_excluded, excluded) && wants_chan(
            StateProgress::Remove,
            c,
        ),
    );
}


/// The membership `Change` list never offers a role the user already holds.
pub proof fn lemma_membership_excludes_held(allowed: Seq<RoleInfo>, held: Seq<u64>)
    ensures
        forall|i: int|
            0 <= i < role_candidates_spec(allowed, held, StateProgress::Change).len()
                ==> !held.contains(
                #[trigger] role_candidates_spec(allowed, held, StateProgress::Change)[i].id,
            ),
{
    let pred = |ri: RoleInfo| wants_role(StateProgress::Change, held, ri.id);
    assert forall|i: int|
        0 <= i < role_candidates_spec(allowed, held, StateProgress::Change).len() implies !held.contains(
        role_candidates_spec(allowed, held, StateProgress::Change)[i].id,
    ) by {
        allowed.lemma_filter_pred(pred, i);
    }
}


/// Applying a selection's mutation and recomputing moves the item across
/// lists: a granted role leaves every later `Add` list and joins the `Remove`
/// list, and a revoked role does the opposite.
pub proof fn lemma_selection_moves_item(allowed: Seq<RoleInfo>, held: Seq<u64>, r: u64)
    ensures
        forall|ri: RoleInfo| #[trigger] role_candidates_spec(allowed, grant(held, r), StateProgress::Add).contains(
            ri,
        ) ==> ri.id != r,
        forall|ri: RoleInfo|
            allowed.contains(ri) && ri.id == r ==> #[trigger] role_candidates_spec(
                allowed,
                grant(held, r),
                StateProgress::Remove,
            ).contains(ri),
        forall|ri: RoleInfo| #[trigger] role_candidates_spec(
            allowed,
            revoke(held, r),
            StateProgress::Remove,
        ).contains(ri) ==> ri.id != r,
        forall|ri: RoleInfo|
            allowed.contains(ri) && ri.id == r ==> #[trigger] role_candidates_spec(
                allowed,
                revoke(held, r),
                StateProgress::Add,
            ).contains(ri),
{
    let with_r = grant(held, r);
    assert(with_r.contains(r)) by {
        if !held.contains(r) {
            assert(held.push(r)[held.len() as int] == r);
        }
    }
    lemma_add_remove_partition(allowed, with_r);
    let without_r = revoke(held, r);
    lemma_filter_membership(held, |x: u64| x != r);
    assert(!without_r.contains(r));
    lemma_add_remove_partition(allowed, without_r);
}


/// An `Add` followed by a `Remove` of the same item restores the held set,
/// and with it every candidate list: the cycle is idempotent.
pub proof fn lemma_add_remove_round_trip(allowed: Seq<RoleInfo>, held: Seq<u64>, r: u64, p: StateProgress)
    requires
        !held.contains(r),
    ensures
        revoke(grant(held, r), r) == held,
        role_candidates_spec(allowed, revoke(grant(held, r), r), p) == role_candidates_spec(
            allowed,
            held,
            p,
        ),
{
    let s = grant(held, r);
    assert(s == held.push(r));
    assert(s.last() == r);
    assert(s.drop_last() =~= held);
    reveal_with_fuel(Seq::filter, 1);
    assert(revoke(s, r) == revoke(held, r));
    lemma_revoke_absent(held, r);
}

/// Revoking a role nobody granted changes nothing.
pub proof fn lemma_revoke_absent(held: Seq<u64>, r: u64)
    requires
        !held.contains(r),
    ensures
        revoke(held, r) == held,
    decreases held.len(),
{
    reveal_with_fuel(Seq::filter, 1);
    if held.len() == 0 {
        assert(revoke(held, r) =~= held);
    } else {
        let dl = held.drop_last();
        assert(!dl.contains(r)) by {
            if dl.contains(r) {
                let k = choose|k: int| 0 <= k < dl.len() && dl[k] == r;
                assert(held[k] == r);
            }
        }
        assert(held.last() != r) by {
            if held.last() == r {
                assert(held[held.len() - 1] == r);
            }
        }
        lemma_revoke_absent(dl, r);
        assert(revoke(held, r) == revoke(dl, r).push(held.last()));
        assert(revoke(dl, r).push(held.last()) =~= held);
    }
}



/// Whether `v` holds `x`.
fn contains_u64(v: &Vec<u64>, x: u64) -> (r: bool)
    ensures
        r == v@.contains(x),
{
    let mut i: usize = 0;
    while i < v.len()
        invariant
            0 <= i <= v@.len(),
            forall|k: int| 0 <= k < i ==> v@[k] != x,
        decreases v@.len() - i,
    {
        if v[i] == x {
            return true;
        }
        i = i + 1;
    }
    false
}

/// Copies one channel snapshot entry.
fn copy_chan(c: &ChannelInfo) -> (r: ChannelInfo)
    ensures
        r == *c,
{
    ChannelInfo {
        id: c.id,
        name: c.name.clone(),
        parent_id: c.parent_id,
        is_text: c.is_text,
        position: c.position,
        visible: c.visible,
    }
}

/// The candidate roles for phase `p`: the allow-list filtered to what the
/// user does not hold (`Add`, and membership's `Change`) or does (`Remove`).
pub fn role_candidates(allowed: &Vec<RoleInfo>, held: &Vec<u64>, p: StateProgress) -> (r: Vec<RoleInfo>)
    requires
        p != StateProgress::Initial,
    ensures
        r@ == role_candidates_spec(allowed@, held@, p),
{
    let mut r: Vec<RoleInfo> = Vec::new();
    let mut i: usize = 0;
    while i < allowed.len()
        invariant
            0 <= i <= allowed@.len(),
            r@ == role_candidates_spec(allowed@.take(i as int), held@, p),
        decreases allowed@.len() - i,
    {
        let ghost pred = |ri: RoleInfo| wants_role(p, held@, ri.id);
        let held_now = contains_u64(held, allowed[i].id);
        let wanted = if matches!(p, StateProgress::Remove) {
            held_now
        } else {
            !held_now
        };
        proof {
            let t0 = allowed@.take(i as int);
            let t1 = allowed@.take(i as int + 1);
            assert(t1 =~= t0 + seq![allowed@[i as int]]);
            Seq::filter_distributes_over_add(t0, seq![allowed@[i as int]], pred);
            lemma_filter_singleton(allowed@[i as int], pred);
            assert(wanted == pred(allowed@[i as int]));
        }
        if wanted {
            let ri = RoleInfo { id: allowed[i].id, name: allowed[i].name.clone() };
            proof {
                assert(ri == allowed@[i as int]);
                assert(role_candidates_spec(allowed@.take(i as int + 1), held@, p) =~= r@.push(
                    allowed@[i as int],
                ));
            }
            r.push(ri);
        } else {
            proof {
                assert(role_candidates_spec(allowed@.take(i as int + 1), held@, p) =~= r@);
            }
        }
        i = i + 1;
    }
    proof {
        assert(allowed@.take(allowed@.len() as int) =~= allowed@);
    }
    r
}

/// A sequence's multiset gains exactly the inserted element.
proof fn lemma_to_multiset_insert(s: Seq<ChannelInfo>, i: int, a: ChannelInfo)
    requires
        0 <= i <= s.len(),
    ensures
        s.insert(i, a).to_multiset() =~= s.to_multiset().insert(a),
{
    broadcast use vstd::seq_lib::group_to_multiset_ensures;
    broadcast use vstd::multiset::group_multiset_axioms;

    let t0 = s.subrange(0, i);
    let t1 = s.subrange(i, s.len() as int);
    assert(s =~= t0 + t1);
    lemma_multiset_commutative(t0, t1);
    lemma_multiset_commutative(t0.push(a), t1);
    assert(s.insert(i, a) == t0.push(a) + t1);
    assert(t0.push(a).to_multiset() =~= t0.to_multiset().insert(a));
    assert(s.insert(i, a).to_multiset() =~= t0.to_multiset().insert(a).add(t1.to_multiset()));
    assert(s.to_multiset() =~= t0.to_multiset().add(t1.to_multiset()));
    assert(t0.to_multiset().insert(a).add(t1.to_multiset()) =~= t0.to_multiset().add(
        t1.to_multiset(),
    ).insert(a));
}

/// Reorders channels into display order. The result holds exactly the given
/// channels.
fn sort_by_position(v: Vec<ChannelInfo>) -> (r: Vec<ChannelInfo>)
    ensures
        r@.to_multiset() == v@.to_multiset(),
        sorted_by_position(r@),
{
    let mut out: Vec<ChannelInfo> = Vec::new();
    proof {
        assert(out@ =~= v@.take(0));
    }
    let mut i: usize = 0;
    while i < v.len()
        invariant
            0 <= i <= v@.len(),
            out@.to_multiset() == v@.take(i as int).to_multiset(),
            sorted_by_position(out@),
        decreases v@.len() - i,
    {
        let x = copy_chan(&v[i]);
        let mut j: usize = 0;
        while j < out.len() && out[j].position <= x.position
            invariant
                0 <= j <= out@.len(),
                forall|k: int| 0 <= k < j ==> #[trigger] out@[k].position <= x.position,
            decreases out@.len() - j,
        {
            j = j + 1;
        }
        proof {
            broadcast use vstd::seq_lib::group_to_multiset_ensures;

            let ghost pre = out@;
            lemma_to_multiset_insert(pre, j as int, x);
            assert(v@.take(i as int + 1) =~= v@.take(i as int).push(v@[i as int]));
            assert(v@.take(i as int).push(v@[i as int]).to_multiset() =~= v@.take(
                i as int,
            ).to_multiset().insert(v@[i as int]));
            assert(pre.insert(j as int, x).to_multiset() =~= v@.take(i as int + 1).to_multiset());
            pre.insert_ensures(j as int, x);
            assert forall|a: int, b: int|
                0 <= a < b < pre.insert(j as int, x).len() implies #[trigger] pre.insert(
                j as int,
                x,
            )[a].position <= #[trigger] pre.insert(j as int, x)[b].position by {
                let q = pre.insert(j as int, x);
                if a < j && b < j {
                    assert(q[a] == pre[a] && q[b] == pre[b]);
                } else if a < j && b == j {
                    assert(q[a] == pre[a] && q[b] == x);
                } else if a < j && b > j {
                    assert(q[a] == pre[a] && q[b] == pre[b - 1]);
                } else if a == j && b > j {
                    assert(q[a] == x && q[b] == pre[b - 1]);
                    assert(j < pre.len());
                    assert(pre[j as int].position > x.position || j as int == b - 1 || pre[j as int].position
                        <= pre[b - 1].position);
                } else {
                    assert(q[a] == pre[a - 1] && q[b] == pre[b - 1]);
                }
            }
        }
        out.insert(j, x);
        i = i + 1;
    }
    proof {
        assert(v@.take(v@.len() as int) =~= v@);
    }
    out
}

/// The candidate channels for phase `p` under container `cat`, in display
/// order: text channels of the container, minus the globally excluded ones
/// (unless permitted), filtered to what the user cannot see (`Add`) or can
/// see (`Remove`).
pub fn filter_chans(
    chans: &Vec<ChannelInfo>,
    cat: u64,
    p: StateProgress,
    allow_excluded: bool,
    excluded: &Vec<u64>,
) -> (r: Vec<ChannelInfo>)
    requires
        p == StateProgress::Add || p == StateProgress::Remove,
    ensures
        r@.to_multiset() == chan_candidates_spec(chans@, cat, p, allow_excluded, excluded@).to_multiset(),
        r@.len() == chan_candidates_spec(chans@, cat, p, allow_excluded, excluded@).len(),
        sorted_by_position(r@),
{
    let ghost pred = |c: ChannelInfo| chan_in_scope(c, cat, allow_excluded, excluded@)
        && wants_chan(p, c);
    let mut picked: Vec<ChannelInfo> = Vec::new();
    let mut i: usize = 0;
    while i < chans.len()
        invariant
            0 <= i <= chans@.len(),
            picked@ == chans@.take(i as int).filter(pred),
            pred == (|c: ChannelInfo| chan_in_scope(c, cat, allow_excluded, excluded@)
                && wants_chan(p, c)),
        decreases chans@.len() - i,
    {
        let c = &chans[i];
        let in_scope = match c.parent_id {
            Some(pid) => pid == cat && c.is_text && (allow_excluded || !contains_u64(
                excluded,
                c.id,
            )),
            None => false,
        };
        let wanted = if matches!(p, StateProgress::Remove) {
            c.visible
        } else {
            !c.visible
        };
        proof {
            let t0 = chans@.take(i as int);
            let t1 = chans@.take(i as int + 1);
            assert(t1 =~= t0 + seq![chans@[i as int]]);
            Seq::filter_distributes_over_add(t0, seq![chans@[i as int]], pred);
            lemma_filter_singleton(chans@[i as int], pred);
            assert((in_scope && wanted) == pred(chans@[i as int]));
        }
        if in_scope && wanted {
            let picked_c = copy_chan(c);
            proof {
                assert(chans@.take(i as int + 1).filter(pred) =~= picked@.push(chans@[i as int]));
            }
            picked.push(picked_c);
        } else {
            proof {
                assert(chans@.take(i as int + 1).filter(pred) =~= picked@);
            }
        }
        i = i + 1;
    }
    proof {
        assert(chans@.take(chans@.len() as int) =~= chans@);
    }
    let r = sort_by_position(picked);
    proof {
        broadcast use vstd::seq_lib::group_to_multiset_ensures;

        let spec_seq = chan_candidates_spec(chans@, cat, p, allow_excluded, excluded@);
        assert(r@.len() == r@.to_multiset().len());
        assert(spec_seq.len() == spec_seq.to_multiset().len());
    }
    r
}


} // verus!

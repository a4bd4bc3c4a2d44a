use vstd::prelude::*;

use crate::message::ClientMessageView;
use crate::session::{step, EventView, PhaseView};
use crate::user::UserView;

verus! {

/// Every session of a server, by index, and the registry they share.
pub struct SystemView {
    pub sessions: Seq<PhaseView>,
    pub users: Map<Seq<char>, UserView>,
}

/// `n` fresh connections and an empty registry.
pub open spec fn initial(n: nat) -> SystemView {
    SystemView { sessions: Seq::new(n, |i: int| PhaseView::Connected), users: Map::empty() }
}

/// Session `who` handles `ev`; an index with no session changes nothing.
pub open spec fn apply(sys: SystemView, who: int, ev: EventView) -> SystemView {
    if 0 <= who < sys.sessions.len() {
        let r = step(sys.sessions[who], sys.users, ev);
        SystemView { sessions: sys.sessions.update(who, r.phase), users: r.users }
    } else {
        sys
    }
}

/// The events `ops`, each tagged with the session that handles it, applied in order.
pub open spec fn run(sys: SystemView, ops: Seq<(int, EventView)>) -> SystemView
    decreases ops.len(),
{
    if ops.len() == 0 {
        sys
    } else {
        apply(run(sys, ops.drop_last()), ops.last().0, ops.last().1)
    }
}

/// The identifiers of the sessions that are registered and not yet closed.
pub open spec fn live_ids(sessions: Seq<PhaseView>) -> Set<Seq<char>> {
    Set::new(
        |k: Seq<char>|
            exists|s: int| 0 <= s < sessions.len() && #[trigger] sessions[s] == PhaseView::Registered(k),
    )
}

/// The identifier that an event registers, if it is a registration.
pub open spec fn registered_id(ev: EventView) -> Option<Seq<char>> {
    match ev {
        EventView::Message(ClientMessageView::Register(u)) => Some(u.user_id),
        _ => None,
    }
}

/// No two sessions register under the same identifier.
pub open spec fn identities_owned(ops: Seq<(int, EventView)>) -> bool {
    forall|i: int, j: int|
        0 <= i < ops.len() && 0 <= j < ops.len() && (#[trigger] registered_id(ops[i].1)) is Some
            && (#[trigger] registered_id(ops[j].1)) is Some && ops[i].0 != ops[j].0
            ==> registered_id(ops[i].1) != registered_id(ops[j].1)
}

/// Each registered session got its identifier from one of the events in `ops`.
spec fn registrations_witnessed(sessions: Seq<PhaseView>, ops: Seq<(int, EventView)>) -> bool {
    forall|s: int|
        0 <= s < sessions.len() && (#[trigger] sessions[s]) is Registered ==> exists|i: int|
            0 <= i < ops.len() && ops[i].0 == s && #[trigger] registered_id(ops[i].1) == Some(
                sessions[s]->Registered_0,
            )
}

proof fn lemma_run_invariant(n: nat, ops: Seq<(int, EventView)>)
    requires
        identities_owned(ops),
    ensures
        run(initial(n), ops).sessions.len() == n,
        run(initial(n), ops).users.dom() == live_ids(run(initial(n), ops).sessions),
        registrations_witnessed(run(initial(n), ops).sessions, ops),
    decreases ops.len(),
{
    if ops.len() == 0 {
        let sys = initial(n);
        assert(sys.users.dom() =~= live_ids(sys.sessions));
        return;
    }
    let pre = ops.drop_last();
    assert forall|i: int, j: int|
        0 <= i < pre.len() && 0 <= j < pre.len() && (#[trigger] registered_id(pre[i].1)) is Some
            && (#[trigger] registered_id(pre[j].1)) is Some && pre[i].0 != pre[j].0
        implies registered_id(pre[i].1) != registered_id(pre[j].1) by {
        assert(pre[i] == ops[i]);
        assert(pre[j] == ops[j]);
    }
    lemma_run_invariant(n, pre);
    let sys = run(initial(n), pre);
    let last = pre.len() as int;
    let w = ops[last].0;
    let ev = ops[last].1;
    assert(ops.last() == ops[last]);
    let post = run(initial(n), ops);
    assert(post == apply(sys, w, ev));
    // earlier witnesses stay valid in the longer sequence
    assert forall|i: int| 0 <= i < pre.len() implies #[trigger] ops[i] == pre[i] by {}
    if !(0 <= w < sys.sessions.len()) || sys.sessions[w] is Closed {
        assert(post.sessions =~= sys.sessions);
        assert forall|s: int|
            0 <= s < post.sessions.len() && (#[trigger] post.sessions[s]) is Registered implies exists|i: int|
                0 <= i < ops.len() && ops[i].0 == s && #[trigger] registered_id(ops[i].1) == Some(
                    post.sessions[s]->Registered_0,
                ) by {
            let i = choose|i: int|
                0 <= i < pre.len() && pre[i].0 == s && #[trigger] registered_id(pre[i].1) == Some(
                    sys.sessions[s]->Registered_0,
                );
            assert(ops[i] == pre[i]);
        }
        return;
    }
    let cur = sys.sessions[w];
    let r = step(cur, sys.users, ev);
    // sessions other than `w` keep their state; their witnesses carry over
    assert forall|s: int|
        0 <= s < post.sessions.len() && s != w && (#[trigger] post.sessions[s]) is Registered implies exists|i: int|
            0 <= i < ops.len() && ops[i].0 == s && #[trigger] registered_id(ops[i].1) == Some(
                post.sessions[s]->Registered_0,
            ) by {
        assert(post.sessions[s] == sys.sessions[s]);
        let i = choose|i: int|
            0 <= i < pre.len() && pre[i].0 == s && #[trigger] registered_id(pre[i].1) == Some(
                sys.sessions[s]->Registered_0,
            );
        assert(ops[i] == pre[i]);
    }
    // the session `w` itself
    if post.sessions[w] is Registered {
        if r.phase == cur {
            let i = choose|i: int|
                0 <= i < pre.len() && pre[i].0 == w && #[trigger] registered_id(pre[i].1) == Some(
                    sys.sessions[w]->Registered_0,
                );
            assert(ops[i] == pre[i]);
        } else {
            assert(registered_id(ops[last].1) == Some(post.sessions[w]->Registered_0));
        }
    }
    assert(registrations_witnessed(post.sessions, ops));
    // the registry's keys are the live identifiers
    assert forall|k: Seq<char>| #[trigger] post.users.dom().contains(k) <==> live_ids(
        post.sessions,
    ).contains(k) by {
        match ev {
            EventView::Message(ClientMessageView::Register(u)) => {
                if k != u.user_id {
                    if post.users.dom().contains(k) {
                        let s = choose|s: int|
                            0 <= s < sys.sessions.len() && #[trigger] sys.sessions[s]
                                == PhaseView::Registered(k);
                        assert(s != w);
                        assert(post.sessions[s] == PhaseView::Registered(k));
                    }
                    if live_ids(post.sessions).contains(k) {
                        let s = choose|s: int|
                            0 <= s < post.sessions.len() && #[trigger] post.sessions[s]
                                == PhaseView::Registered(k);
                        assert(s != w);
                        assert(sys.sessions[s] == PhaseView::Registered(k));
                        if cur == PhaseView::Registered(k) {
                            let i = choose|i: int|
                                0 <= i < pre.len() && pre[i].0 == w && #[trigger] registered_id(
                                    pre[i].1,
                                ) == Some(k);
                            let i2 = choose|i2: int|
                                0 <= i2 < pre.len() && pre[i2].0 == s && #[trigger] registered_id(
                                    pre[i2].1,
                                ) == Some(k);
                            assert(ops[i] == pre[i]);
                            assert(ops[i2] == pre[i2]);
                            assert(registered_id(ops[i].1) is Some);
                            assert(registered_id(ops[i2].1) is Some);
                        }
                    }
                } else {
                    assert(post.sessions[w] == PhaseView::Registered(k));
                }
            },
            EventView::Disconnected => {
                if let PhaseView::Registered(id) = cur {
                    if live_ids(sys.sessions).contains(k) && k != id {
                        let s = choose|s: int|
                            0 <= s < sys.sessions.len() && #[trigger] sys.sessions[s]
                                == PhaseView::Registered(k);
                        assert(post.sessions[s] == PhaseView::Registered(k));
                    }
                    if live_ids(post.sessions).contains(k) {
                        let s = choose|s: int|
                            0 <= s < post.sessions.len() && #[trigger] post.sessions[s]
                                == PhaseView::Registered(k);
                        assert(s != w);
                        assert(sys.sessions[s] == PhaseView::Registered(k));
                        if k == id {
                            let i = choose|i: int|
                                0 <= i < pre.len() && pre[i].0 == w && #[trigger] registered_id(
                                    pre[i].1,
                                ) == Some(id);
                            let i2 = choose|i2: int|
                                0 <= i2 < pre.len() && pre[i2].0 == s && #[trigger] registered_id(
                                    pre[i2].1,
                                ) == Some(id);
                            assert(ops[i] == pre[i]);
                            assert(ops[i2] == pre[i2]);
                            assert(registered_id(ops[i].1) is Some);
                            assert(registered_id(ops[i2].1) is Some);
                        }
                    }
                } else {
                    if live_ids(sys.sessions).contains(k) {
                        let s = choose|s: int|
                            0 <= s < sys.sessions.len() && #[trigger] sys.sessions[s]
                                == PhaseView::Registered(k);
                        assert(post.sessions[s] == PhaseView::Registered(k));
                    }
                    if live_ids(post.sessions).contains(k) {
                        let s = choose|s: int|
                            0 <= s < post.sessions.len() && #[trigger] post.sessions[s]
                                == PhaseView::Registered(k);
                        assert(sys.sessions[s] == PhaseView::Registered(k));
                    }
                }
            },
            _ => {
                assert(post.sessions =~= sys.sessions);
            },
        }
    }
    assert(post.users.dom() =~= live_ids(post.sessions));
}

/// Whatever the sessions do, re-registrations included, if no two sessions register
/// under the same identifier, the registry's keys are exactly the identifiers that the
/// sessions that registered and have not disconnected are bound to.
pub proof fn lemma_registry_holds_live_sessions(n: nat, ops: Seq<(int, EventView)>)
    requires
        identities_owned(ops),
    ensures
        run(initial(n), ops).users.dom() == live_ids(run(initial(n), ops).sessions),
{
    lemma_run_invariant(n, ops);
}

} // verus!

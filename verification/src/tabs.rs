//! The abstract state of the tab bar: which session ids exist, in which order
//! the tabs stand, which one is active, and which id the next tab receives.
//!
//! Every operation of [`crate::SessionManager`] is specified as a transition
//! of this state, and the laws below are proved over these transitions.

use vstd::prelude::*;

use crate::session::SessionId;

verus! {

/// The tab bookkeeping of a session manager, as a mathematical value.
pub struct TabState {
    /// The id that the next created session will receive.
    pub next_id: nat,
    /// The focused tab, if any.
    pub active: Option<SessionId>,
    /// The tab order, left to right.
    pub order: Seq<SessionId>,
}

/// The tab that becomes active once `closing` is closed: the active tab stays
/// unless it is the one being closed, in which case its right neighbour takes
/// over, or else its left neighbour, or else no tab at all.
pub open spec fn promoted_after_close(
    order: Seq<SessionId>,
    active: Option<SessionId>,
    closing: SessionId,
) -> Option<SessionId> {
    if active != Some(closing) {
        active
    } else if !order.contains(closing) {
        None
    } else {
        let i = order.index_of(closing);
        if i + 1 < order.len() {
            Some(order[i + 1])
        } else if i > 0 {
            Some(order[i - 1])
        } else {
            None
        }
    }
}

impl TabState {
    /// The state of a manager that holds no tab.
    pub open spec fn empty() -> TabState {
        TabState { next_id: 1, active: None, order: Seq::empty() }
    }

    /// Whether `id` is an open tab.
    pub open spec fn has(self, id: SessionId) -> bool {
        self.order.contains(id)
    }

    /// Well-formedness: no tab twice, tabs standing in the order in which
    /// they were created (ids increasing left to right), an active tab
    /// exactly when some tab is open and then one of the open tabs, and every
    /// open id below `next_id`.
    pub open spec fn wf(self) -> bool {
        &&& self.order.no_duplicates()
        &&& forall|i: int, j: int|
            0 <= i < j < self.order.len() ==> (#[trigger] self.order[i]).0 < (
            #[trigger] self.order[j]).0
        &&& (self.active is None <==> self.order.len() == 0)
        &&& (self.active matches Some(a) ==> self.order.contains(a))
        &&& forall|i: int| 0 <= i < self.order.len() ==> (#[trigger] self.order[i]).0 < self.next_id
    }

    /// The id that the next created tab receives.
    pub open spec fn fresh_id(self) -> SessionId {
        SessionId(self.next_id as u64)
    }

    /// A new tab was opened: it takes the next id, goes to the right end of
    /// the tab order and becomes active.
    pub open spec fn opened(self) -> TabState {
        TabState {
            next_id: self.next_id + 1,
            active: Some(self.fresh_id()),
            order: self.order.push(self.fresh_id()),
        }
    }

    /// Spawning a new tab failed: its id is used up, nothing else changes.
    pub open spec fn spawn_failed(self) -> TabState {
        TabState { next_id: self.next_id + 1, ..self }
    }

    /// `id` became the active tab.
    pub open spec fn activated(self, id: SessionId) -> TabState {
        TabState { active: Some(id), ..self }
    }

    /// The tab `id` was closed: it leaves the tab order, and the active tab is
    /// promoted as [`promoted_after_close`] says.
    pub open spec fn closed(self, id: SessionId) -> TabState {
        TabState {
            next_id: self.next_id,
            active: promoted_after_close(self.order, self.active, id),
            order: self.order.remove(self.order.index_of(id)),
        }
    }
}

/// In a tab order without duplicates, the index of an element is the one
/// position at which it stands.
pub proof fn lemma_index_of_unique(order: Seq<SessionId>, i: int)
    requires
        order.no_duplicates(),
        0 <= i < order.len(),
    ensures
        order.index_of(order[i]) == i,
{
    let id = order[i];
    assert(order.contains(id));
    let j = order.index_of(id);
    assert(0 <= j < order.len() && order[j] == id);
}

/// The tab order after closing `id`, element by element.
pub proof fn lemma_closed_order(s: TabState, id: SessionId)
    requires
        s.order.no_duplicates(),
        s.has(id),
    ensures
        s.order[s.order.index_of(id)] == id,
        0 <= s.order.index_of(id) < s.order.len(),
        s.closed(id).order.len() == s.order.len() - 1,
        forall|k: int|
            0 <= k < s.closed(id).order.len() ==> #[trigger] s.closed(id).order[k] == if k
                < s.order.index_of(id) {
                s.order[k]
            } else {
                s.order[k + 1]
            },
{
    let i = s.order.index_of(id);
    assert(s.order.contains(id));
    s.order.remove_ensures(i);
}

/// An empty manager is well formed.
pub proof fn law_empty_wf()
    ensures
        TabState::empty().wf(),
{
}

/// Opening a tab keeps the state well formed.
pub proof fn law_opened_wf(s: TabState)
    requires
        s.wf(),
        s.next_id <= u64::MAX,
    ensures
        s.opened().wf(),
{
    let t = s.opened();
    assert forall|i: int, j: int|
        0 <= i < t.order.len() && 0 <= j < t.order.len() && i != j implies t.order[i]
        != t.order[j] by {
        if i < s.order.len() && j < s.order.len() {
        } else if i < s.order.len() {
            assert(s.order[i].0 < s.next_id);
        } else {
            assert(s.order[j].0 < s.next_id);
        }
    }
    assert(t.order[s.order.len() as int] == s.fresh_id());
    assert forall|i: int, j: int| 0 <= i < j < t.order.len() implies (#[trigger] t.order[i]).0 < (
    #[trigger] t.order[j]).0 by {
        assert(s.order[i].0 < s.next_id);
        if j < s.order.len() {
            assert(s.order[i].0 < s.order[j].0);
        }
    }
    assert forall|i: int| 0 <= i < t.order.len() implies (#[trigger] t.order[i]).0 < t.next_id by {
        if i < s.order.len() {
            assert(s.order[i].0 < s.next_id);
        }
    }
}

/// A failed spawn keeps the state well formed.
pub proof fn law_spawn_failed_wf(s: TabState)
    requires
        s.wf(),
    ensures
        s.spawn_failed().wf(),
{
    let t = s.spawn_failed();
    assert forall|i: int| 0 <= i < t.order.len() implies (#[trigger] t.order[i]).0 < t.next_id by {
        assert(s.order[i].0 < s.next_id);
    }
}

/// A failed spawn changes nothing but the next id: the tabs, their order
/// and the active tab stay as they were, and the id that was offered is
/// used up.
pub proof fn law_spawn_failed_changes_only_next_id(s: TabState)
    ensures
        s.spawn_failed().active == s.active,
        s.spawn_failed().order == s.order,
        s.spawn_failed().next_id == s.next_id + 1,
        forall|id: SessionId| s.spawn_failed().has(id) <==> s.has(id),
{
}

/// Activating a tab makes exactly that tab the active one, wherever it
/// stands, and leaves the tabs, their order and the next id alone.
pub proof fn law_activated_makes_active(s: TabState, id: SessionId)
    ensures
        s.activated(id).active == Some(id),
        s.activated(id).order == s.order,
        s.activated(id).next_id == s.next_id,
{
}

/// Opening a tab gives it the next id, puts it after every other tab and
/// makes it the active one; the tabs that were open stay in place.
pub proof fn law_opened_appends_active(s: TabState)
    ensures
        s.opened().active == Some(s.fresh_id()),
        s.opened().order.len() == s.order.len() + 1,
        s.opened().order.last() == s.fresh_id(),
        forall|i: int| 0 <= i < s.order.len() ==> s.opened().order[i] == #[trigger] s.order[i],
        s.opened().next_id == s.next_id + 1,
{
}

/// Activating an open tab keeps the state well formed.
pub proof fn law_activated_wf(s: TabState, id: SessionId)
    requires
        s.wf(),
        s.has(id),
    ensures
        s.activated(id).wf(),
{
}

/// Closing an open tab keeps the state well formed.
pub proof fn law_closed_wf(s: TabState, id: SessionId)
    requires
        s.wf(),
        s.has(id),
    ensures
        s.closed(id).wf(),
{
    let t = s.closed(id);
    let i = s.order.index_of(id);
    lemma_closed_order(s, id);
    assert forall|a: int, b: int|
        0 <= a < t.order.len() && 0 <= b < t.order.len() && a != b implies t.order[a]
        != t.order[b] by {
        let a2 = if a < i { a } else { a + 1 };
        let b2 = if b < i { b } else { b + 1 };
        assert(t.order[a] == s.order[a2]);
        assert(t.order[b] == s.order[b2]);
    }
    assert forall|a: int, b: int| 0 <= a < b < t.order.len() implies (#[trigger] t.order[a]).0 < (
    #[trigger] t.order[b]).0 by {
        let a2 = if a < i { a } else { a + 1 };
        let b2 = if b < i { b } else { b + 1 };
        assert(t.order[a] == s.order[a2]);
        assert(t.order[b] == s.order[b2]);
        assert(s.order[a2].0 < s.order[b2].0);
    }
    assert forall|k: int| 0 <= k < t.order.len() implies (#[trigger] t.order[k]).0 < t.next_id by {
        let k2 = if k < i { k } else { k + 1 };
        assert(t.order[k] == s.order[k2]);
        assert(s.order[k2].0 < s.next_id);
    }
    if s.active == Some(id) {
        if i + 1 < s.order.len() {
            assert(t.order[i] == s.order[i + 1]);
        } else if i > 0 {
            assert(t.order[i - 1] == s.order[i - 1]);
        }
    } else {
        let a = s.active.unwrap();
        let ai = choose|ai: int| 0 <= ai < s.order.len() && s.order[ai] == a;
        assert(ai != i);
        let ak = if ai < i { ai } else { ai - 1 };
        assert(t.order[ak] == a);
    }
}

/// Ids are never reused: the id that the next tab receives is not the id of
/// any open tab, and it is larger than all of them.
pub proof fn law_fresh_id_unused(s: TabState)
    requires
        s.wf(),
    ensures
        !s.has(s.fresh_id()) || s.next_id > u64::MAX,
        forall|i: int| 0 <= i < s.order.len() ==> (#[trigger] s.order[i]).0 < s.next_id,
{
    if s.next_id <= u64::MAX && s.has(s.fresh_id()) {
        let i = choose|i: int| 0 <= i < s.order.len() && s.order[i] == s.fresh_id();
        assert(s.order[i].0 < s.next_id);
    }
}

/// The id handed out next only grows: opening a tab or a failed spawn uses
/// it up and moves it one further, while activating or closing a tab leaves
/// it where it is (the id itself is a `u64`, so this holds of it while the
/// next id fits). So every tab created later gets a larger id than every
/// tab created before, whatever was closed in between.
pub proof fn law_fresh_ids_increase(s: TabState, id: SessionId)
    ensures
        s.opened().next_id == s.next_id + 1,
        s.spawn_failed().next_id == s.next_id + 1,
        s.next_id < u64::MAX ==> s.opened().fresh_id().0 == s.fresh_id().0 + 1,
        s.next_id < u64::MAX ==> s.spawn_failed().fresh_id().0 == s.fresh_id().0 + 1,
        s.activated(id).fresh_id() == s.fresh_id(),
        s.closed(id).fresh_id() == s.fresh_id(),
{
}

/// Tabs stand in the order in which they were created: left to right,
/// their ids increase.
pub proof fn law_tabs_in_creation_order(s: TabState)
    requires
        s.wf(),
    ensures
        forall|i: int, j: int|
            0 <= i < j < s.order.len() ==> (#[trigger] s.order[i]).0 < (#[trigger] s.order[j]).0,
{
}

/// A closed tab is gone, and its id lies below the next id to be handed out.
pub proof fn law_closed_tab_is_gone(s: TabState, id: SessionId)
    requires
        s.wf(),
        s.has(id),
    ensures
        !s.closed(id).has(id),
        id.0 < s.closed(id).next_id,
{
    law_close_keeps_other_tabs(s, id);
    let i = choose|i: int| 0 <= i < s.order.len() && s.order[i] == id;
    assert(s.order[i].0 < s.next_id);
}

/// An id that is not open and lies below the next id never comes back:
/// whatever happens next (a tab is opened, a spawn fails, a tab is
/// activated or closed), it is still not open and still below the next id.
pub proof fn law_gone_id_stays_gone(s: TabState, id: SessionId, other: SessionId)
    requires
        s.wf(),
        !s.has(id),
        id.0 < s.next_id,
    ensures
        s.next_id <= u64::MAX ==> !s.opened().has(id) && id.0 < s.opened().next_id,
        !s.spawn_failed().has(id) && id.0 < s.spawn_failed().next_id,
        !s.activated(other).has(id) && id.0 < s.activated(other).next_id,
        s.has(other) ==> !s.closed(other).has(id) && id.0 < s.closed(other).next_id,
{
    let t = s.opened();
    if s.next_id <= u64::MAX && t.has(id) {
        let k = choose|k: int| 0 <= k < t.order.len() && t.order[k] == id;
        if k < s.order.len() {
            assert(s.order[k] == id);
        }
    }
    if s.has(other) {
        law_close_keeps_other_tabs(s, other);
        if id != other {
            assert(s.closed(other).has(id) <==> s.has(id));
        } else {
            assert(!s.closed(other).has(id));
        }
    }
}

/// Exactly one open tab is active whenever some tab is open.
pub proof fn law_exactly_one_active(s: TabState)
    requires
        s.wf(),
        s.order.len() > 0,
    ensures
        s.active is Some,
        exists|i: int| 0 <= i < s.order.len() && s.order[i] == s.active.unwrap(),
        forall|i: int, j: int|
            0 <= i < s.order.len() && 0 <= j < s.order.len() && s.order[i] == s.active.unwrap()
                && s.order[j] == s.active.unwrap() ==> i == j,
{
}

/// Activating the same tab twice has the effect of activating it once.
pub proof fn law_activate_idempotent(s: TabState, id: SessionId)
    ensures
        s.activated(id).activated(id) == s.activated(id),
{
}

/// Closing a tab that is not active leaves the active tab where it is.
pub proof fn law_close_inactive_keeps_active(s: TabState, id: SessionId)
    requires
        s.active != Some(id),
    ensures
        s.closed(id).active == s.active,
{
}

/// Closing the active tab promotes the nearest remaining tab: a tab that
/// stood right next to it, the right one when there is one, and no tab only
/// when no other tab remains.
pub proof fn law_close_active_promotes_neighbour(s: TabState, id: SessionId)
    requires
        s.wf(),
        s.active == Some(id),
    ensures
        ({
            let i = s.order.index_of(id);
            let t = s.closed(id);
            &&& (t.active is None <==> s.order.len() == 1)
            &&& (t.active matches Some(n) ==> exists|j: int|
                0 <= j < s.order.len() && s.order[j] == n && (j == i + 1 || j == i - 1))
            &&& (i + 1 < s.order.len() ==> t.active == Some(s.order[i + 1]))
        }),
{
    let i = s.order.index_of(id);
    assert(s.order.contains(id));
    if i + 1 < s.order.len() {
        assert(s.order[i + 1] == s.order[i + 1]);
    } else if i > 0 {
        assert(s.order[i - 1] == s.order[i - 1]);
    }
}

/// Closing a tab removes exactly that tab and keeps the other tabs in their
/// relative order.
pub proof fn law_close_keeps_other_tabs(s: TabState, id: SessionId)
    requires
        s.wf(),
        s.has(id),
    ensures
        !s.closed(id).has(id),
        s.closed(id).order.len() == s.order.len() - 1,
        forall|x: SessionId| x != id ==> (s.closed(id).has(x) <==> s.has(x)),
        forall|a: int, b: int|
            0 <= a < b < s.order.len() && s.order[a] != id && s.order[b] != id ==> exists|
                a2: int,
                b2: int,
            |
                0 <= a2 < b2 < s.closed(id).order.len() && s.closed(id).order[a2] == s.order[a]
                    && s.closed(id).order[b2] == s.order[b],
        s.closed(id).next_id == s.next_id,
{
    let t = s.closed(id);
    let i = s.order.index_of(id);
    lemma_closed_order(s, id);
    law_closed_wf(s, id);
    if t.has(id) {
        let k = choose|k: int| 0 <= k < t.order.len() && t.order[k] == id;
        let k2 = if k < i { k } else { k + 1 };
        assert(t.order[k] == s.order[k2]);
    }
    assert forall|x: SessionId| x != id implies (t.has(x) <==> s.has(x)) by {
        if t.has(x) {
            let k = choose|k: int| 0 <= k < t.order.len() && t.order[k] == x;
            let k2 = if k < i { k } else { k + 1 };
            assert(t.order[k] == s.order[k2]);
        }
        if s.has(x) {
            let k = choose|k: int| 0 <= k < s.order.len() && s.order[k] == x;
            assert(k != i);
            let k2 = if k < i { k } else { k - 1 };
            assert(t.order[k2] == x);
        }
    }
    assert forall|a: int, b: int|
        0 <= a < b < s.order.len() && s.order[a] != id && s.order[b] != id implies exists|
            a2: int,
            b2: int,
        | 0 <= a2 < b2 < t.order.len() && t.order[a2] == s.order[a] && t.order[b2] == s.order[b] by {
        assert(a != i && b != i);
        let a2 = if a < i { a } else { a - 1 };
        let b2 = if b < i { b } else { b - 1 };
        assert(t.order[a2] == s.order[a]);
        assert(t.order[b2] == s.order[b]);
    }
}

} // verus!

//! The notification centre's list: a notification replaces the one with the
//! same id, or else goes to the top.
use vstd::prelude::*;

verus! {

/// A notification as the centre shows it.
#[derive(Debug, Clone, PartialEq, Eq)]
pub struct Notification {
    pub id: u32,
    pub summary: String,
    pub body: String,
}

/// The position of the first notification with `id`.
pub open spec fn position_of(list: Seq<Notification>, id: u32) -> Option<int>
    decreases list.len(),
{
    if list.len() == 0 {
        None
    } else if list[0].id == id {
        Some(0)
    } else {
        match position_of(list.drop_first(), id) {
            Some(i) => Some(i + 1),
            None => None,
        }
    }
}

/// The list after `n` arrives: it replaces the first notification with its
/// id, or else is inserted at the top.
pub open spec fn upserted(list: Seq<Notification>, n: Notification) -> Seq<Notification> {
    match position_of(list, n.id) {
        Some(p) => list.update(p, n),
        None => seq![n] + list,
    }
}

/// No two notifications share an id.
pub open spec fn unique_ids(list: Seq<Notification>) -> bool {
    forall|i: int, j: int| 0 <= i < list.len() && 0 <= j < list.len() && i != j ==> list[i].id != list[j].id
}

proof fn lemma_position_of(list: Seq<Notification>, id: u32)
    ensures
        match position_of(list, id) {
            Some(p) => 0 <= p < list.len() && list[p].id == id && forall|k: int| 0 <= k < p ==> list[k].id != id,
            None => forall|k: int| 0 <= k < list.len() ==> list[k].id != id,
        },
    decreases list.len(),
{
    if list.len() > 0 {
        lemma_position_of(list.drop_first(), id);
        assert forall|k: int| 1 <= k < list.len() implies list[k] == list.drop_first()[k - 1] by {}
    }
}

/// The id the notification server gives a notification: the id it replaces,
/// when the sender names one (non-zero), otherwise `next`, a fresh id.
pub fn notification_id(replaces_id: u32, next: u32) -> (r: u32)
    ensures
        replaces_id != 0 ==> r == replaces_id,
        replaces_id == 0 ==> r == next,
{
    if replaces_id != 0 {
        replaces_id
    } else {
        next
    }
}

/// Records `notif` in the list shown by the notification centre.
pub fn upsert_notification(list: &mut Vec<Notification>, notif: Notification)
    ensures
        final(list)@ == upserted(old(list)@, notif),
{
    let mut i: usize = 0;
    let ghost all = list@;
    assert(all.skip(0) =~= all);
    while i < list.len()
        invariant
            i <= list.len(),
            all == list@,
            all == old(list)@,
            position_of(all, notif.id) == match position_of(all.skip(i as int), notif.id) {
                Some(k) => Some(k + i),
                None => None,
            },
        decreases list.len() - i,
    {
        assert(all.skip(i as int)[0] == all[i as int]);
        assert(all.skip(i as int).drop_first() =~= all.skip(i + 1));
        if list[i].id == notif.id {
            assert(position_of(all.skip(i as int), notif.id) == Some(0int));
            list.set(i, notif);
            assert(list@ =~= all.update(i as int, notif));
            return;
        }
        i = i + 1;
    }
    list.insert(0, notif);
    assert(list@ =~= seq![notif] + all);
}

/// After a notification arrives it is in the list.
pub proof fn law_arrival_is_listed(list: Seq<Notification>, n: Notification)
    ensures
        upserted(list, n).contains(n),
{
    lemma_position_of(list, n.id);
    match position_of(list, n.id) {
        Some(p) => assert(upserted(list, n)[p] == n),
        None => assert(upserted(list, n)[0] == n),
    }
}

/// The list grows by one exactly when no notification had the new one's id,
/// and ids stay unique.
pub proof fn law_ids_stay_unique(list: Seq<Notification>, n: Notification)
    requires
        unique_ids(list),
    ensures
        unique_ids(upserted(list, n)),
        upserted(list, n).len() == if (exists|k: int| 0 <= k < list.len() && list[k].id == n.id) {
            list.len()
        } else {
            list.len() + 1
        },
{
    lemma_position_of(list, n.id);
    let u = upserted(list, n);
    match position_of(list, n.id) {
        Some(p) => {
            assert forall|i: int, j: int| 0 <= i < u.len() && 0 <= j < u.len() && i != j implies u[i].id != u[j].id by {
                if i == p {
                    assert(u[j].id == list[j].id);
                } else if j == p {
                    assert(u[i].id == list[i].id);
                } else {
                    assert(u[i] == list[i] && u[j] == list[j]);
                }
            }
        },
        None => {
            assert forall|i: int, j: int| 0 <= i < u.len() && 0 <= j < u.len() && i != j implies u[i].id != u[j].id by {
                if i == 0 {
                    assert(u[j] == list[j - 1]);
                } else if j == 0 {
                    assert(u[i] == list[i - 1]);
                } else {
                    assert(u[i] == list[i - 1] && u[j] == list[j - 1]);
                }
            }
        },
    }
}

} // verus!

//! Properties that relate several operations of the library, proved over
//! the specifications that those operations meet.

use vstd::prelude::*;
use crate::error::BoundaryError;
use crate::json::{JsonValue, field, str_field, text_or_empty};
use crate::model::{BoundaryConnection, BoundaryTarget, SessionHealth, StoredToken};
use crate::parser::{endpoint_of, list_result, listed_items, target_from};
use crate::refresh::{RefreshAction, RefreshEvent, RefreshPhase, for_identity, next_step};
use crate::registry::{
    connection_of, connection_position, health_of, health_position, lemma_connection_position_found,
    lemma_health_position_found, upsert_connection, upsert_health,
};
use crate::text::{decimal_text, decimal_value, lemma_decimal_text};
use crate::tokens::{Timestamp, account_of, minute_nanos, retrieved, rfc3339_instant, expired_at};

verus! {

/// A list output of the right shape gives one target per record, in order,
/// and a record without an `id` gives a target with an empty id rather than
/// a failure.
pub proof fn law_target_list_keeps_every_record(text: Seq<char>, r: Result<Vec<BoundaryTarget>, BoundaryError>)
    requires
        list_result(text, r, |item: JsonValue, t: BoundaryTarget| target_from(item, t)),
        listed_items(text).is_some(),
    ensures
        r is Ok,
        r->Ok_0@.len() == listed_items(text).unwrap().len(),
        forall|i: int| 0 <= i < r->Ok_0@.len() && str_field(#[trigger] listed_items(text).unwrap()[i], "id"@).is_none()
            ==> r->Ok_0@[i].id@.len() == 0,
{
    let items = listed_items(text).unwrap();
    let v = r->Ok_0;
    let read = |item: JsonValue, t: BoundaryTarget| target_from(item, t);
    assert forall|i: int| 0 <= i < v@.len() && str_field(#[trigger] items[i], "id"@).is_none() implies v@[i].id@.len() == 0 by {
        assert(read(items[i], v@[i]));
        assert(target_from(items[i], v@[i]));
    }
}

/// Connection output without a port, or with port 0, never gives an
/// endpoint, whatever the address.
pub proof fn law_missing_or_zero_port_is_an_error(address: Option<Seq<char>>)
    ensures
        endpoint_of(address, None).is_none(),
        endpoint_of(address, Some(seq!['0'])).is_none(),
{
    let z = seq!['0'];
    assert(z.len() == 1 && z.last() == '0');
    assert(z.drop_last() == Seq::<char>::empty());
    assert(crate::text::digit_value('0') == Some(0nat));
    assert(crate::text::decimal_value(z.drop_last()) == 0);
    assert(crate::text::decimal_value(z) == 0);
}

/// A check on an identity with no stored token ends at once with "no
/// token": it asks for neither a validation nor a sign-in, so no CLI runs.
pub proof fn law_absent_token_runs_no_cli(
    server_id: String,
    user_id: String,
    threshold_minutes: u32,
    now: Timestamp,
    next: RefreshPhase,
    action: RefreshAction,
)
    requires
        next_step(server_id, user_id, threshold_minutes, now, RefreshPhase::Loading, RefreshEvent::Loaded(None), next, action),
    ensures
        next is Finished,
        action == RefreshAction::Done(Ok(None)),
{
}

/// A token that expires within the threshold (say one minute away, with a
/// five-minute threshold) is refreshed: the check signs in once, stores the
/// new token under the identity that was checked, and ends with it; the store
/// entry of that identity then hands that token out for as long as it has
/// not expired.
pub proof fn law_expiring_token_is_refreshed_once(
    server_id: String,
    user_id: String,
    threshold_minutes: u32,
    now: Timestamp,
    token: StoredToken,
    fresh: StoredToken,
    later: Timestamp,
    after_load: RefreshPhase,
    load_action: RefreshAction,
    after_sign_in: RefreshPhase,
    sign_in_action: RefreshAction,
    after_store: RefreshPhase,
    store_action: RefreshAction,
)
    requires
        token.expires_at.is_some(),
        rfc3339_instant(token.expires_at.unwrap()@) matches Some(e)
            && e.total_nanos() - now.total_nanos() <= threshold_minutes as int * minute_nanos(),
        next_step(server_id, user_id, threshold_minutes, now, RefreshPhase::Loading, RefreshEvent::Loaded(Some(token)), after_load, load_action),
        next_step(server_id, user_id, threshold_minutes, now, after_load, RefreshEvent::Reauthenticated(Ok(fresh)), after_sign_in, sign_in_action),
        next_step(server_id, user_id, threshold_minutes, now, after_sign_in, RefreshEvent::Stored(Ok(())), after_store, store_action),
        !expired_at(fresh, later),
    ensures
        load_action is Reauthenticate,
        ({
            let kept = for_identity(fresh, server_id, user_id);
            &&& sign_in_action == RefreshAction::Store(kept)
            &&& kept.access_token == fresh.access_token
            &&& kept.expires_at == fresh.expires_at
            &&& account_of(kept.server_id@, kept.user_id@) == account_of(server_id@, user_id@)
            &&& store_action == RefreshAction::Done(Ok(Some(kept)))
            &&& retrieved(kept, later) == Ok::<StoredToken, BoundaryError>(kept)
        }),
        after_store is Finished,
{
}

proof fn lemma_upsert_connection_same(s: Seq<BoundaryConnection>, c: BoundaryConnection)
    ensures
        connection_of(upsert_connection(s, c), c.session_id@) == Some(c),
{
    let id = c.session_id@;
    let t = upsert_connection(s, c);
    lemma_connection_position_found(s, id);
    lemma_connection_position_found(t, id);
    match connection_position(s, id) {
        Some(i) => {
            assert(t[i].session_id@ == id);
            if connection_position(t, id) != Some(i) {
                let k = connection_position(t, id);
                if k.is_some() {
                    assert(k.unwrap() < i ==> t[k.unwrap()] == s[k.unwrap()]);
                }
            }
        },
        None => {
            assert(t[s.len() as int] == c);
            if connection_position(t, id) != Some(s.len() as int) {
                let k = connection_position(t, id);
                if k.is_some() {
                    assert(t[k.unwrap()] == s[k.unwrap()]);
                }
            }
        },
    }
}

proof fn lemma_upsert_connection_other(s: Seq<BoundaryConnection>, c: BoundaryConnection, id: Seq<char>)
    requires
        c.session_id@ != id,
    ensures
        connection_of(upsert_connection(s, c), id) == connection_of(s, id),
{
    let t = upsert_connection(s, c);
    lemma_connection_position_found(s, id);
    lemma_connection_position_found(t, id);
    lemma_connection_position_found(s, c.session_id@);
    match (connection_position(s, id), connection_position(t, id)) {
        (Some(i), Some(k)) => {
            if k < i {
                assert(t[k].session_id@ == id);
            } else if i < k {
                assert(t[i] == s[i]);
            }
        },
        (Some(i), None) => {
            assert(t[i] == s[i]);
        },
        (None, Some(k)) => {
            assert(t[k].session_id@ == id);
            if k < s.len() {
                assert(t[k] == s[k]);
            }
        },
        (None, None) => {},
    }
}

proof fn lemma_upsert_health_other(s: Seq<SessionHealth>, h: SessionHealth, id: Seq<char>)
    requires
        h.session_id@ != id,
    ensures
        health_of(upsert_health(s, h), id) == health_of(s, id),
{
    let t = upsert_health(s, h);
    lemma_health_position_found(s, id);
    lemma_health_position_found(t, id);
    lemma_health_position_found(s, h.session_id@);
    match (health_position(s, id), health_position(t, id)) {
        (Some(i), Some(k)) => {
            if k < i {
                assert(t[k].session_id@ == id);
            } else if i < k {
                assert(t[i] == s[i]);
            }
        },
        (Some(i), None) => {
            assert(t[i] == s[i]);
        },
        (None, Some(k)) => {
            assert(t[k].session_id@ == id);
            if k < s.len() {
                assert(t[k] == s[k]);
            }
        },
        (None, None) => {},
    }
}

/// Adding two connections of distinct sessions, one after the other, loses
/// neither: both are in the table afterwards.
pub proof fn law_two_connections_both_kept(s: Seq<BoundaryConnection>, a: BoundaryConnection, b: BoundaryConnection)
    requires
        a.session_id@ != b.session_id@,
    ensures
        connection_of(upsert_connection(upsert_connection(s, a), b), a.session_id@) == Some(a),
        connection_of(upsert_connection(upsert_connection(s, a), b), b.session_id@) == Some(b),
{
    lemma_upsert_connection_same(s, a);
    lemma_upsert_connection_other(upsert_connection(s, a), b, a.session_id@);
    lemma_upsert_connection_same(upsert_connection(s, a), b);
}

/// Recording the health of one session leaves the health entry of every
/// other session as it was.
pub proof fn law_health_of_other_session_kept(s: Seq<SessionHealth>, h: SessionHealth, other: Seq<char>)
    requires
        h.session_id@ != other,
    ensures
        health_of(upsert_health(s, h), other) == health_of(s, other),
{
    lemma_upsert_health_other(s, h, other);
}

/// Two identities share a store entry only when they are the same identity:
/// distinct (server, user) pairs get distinct account keys.
pub proof fn law_account_keys_tell_identities_apart(s1: Seq<char>, u1: Seq<char>, s2: Seq<char>, u2: Seq<char>)
    requires
        account_of(s1, u1) == account_of(s2, u2),
    ensures
        s1 == s2,
        u1 == u2,
{
    reveal_strlit(":");
    reveal_strlit("@");
    let k = account_of(s1, u1);
    let d1 = decimal_text(u1.len());
    let d2 = decimal_text(u2.len());
    lemma_decimal_text(u1.len());
    lemma_decimal_text(u2.len());
    assert(k == d1 + ":"@ + u1 + "@"@ + s1);
    assert(k == d2 + ":"@ + u2 + "@"@ + s2);
    assert(k[d1.len() as int] == ':');
    assert(k[d2.len() as int] == ':');
    if d1.len() < d2.len() {
        assert(k[d1.len() as int] == d2[d1.len() as int]);
    }
    if d2.len() < d1.len() {
        assert(k[d2.len() as int] == d1[d2.len() as int]);
    }
    assert(d1.len() == d2.len());
    assert(d1 =~= k.subrange(0, d1.len() as int));
    assert(d2 =~= k.subrange(0, d2.len() as int));
    assert(decimal_value(d1) == decimal_value(d2));
    assert(u1.len() == u2.len());
    let start: int = d1.len() as int + 1;
    assert(u1 =~= k.subrange(start, start + u1.len()));
    assert(u2 =~= k.subrange(start, start + u2.len()));
    let rest: int = start + u1.len() as int + 1;
    assert(s1 =~= k.subrange(rest, k.len() as int));
    assert(s2 =~= k.subrange(rest, k.len() as int));
}

/// Ending the session `gone` leaves the connection of every other session
/// as it was.
pub proof fn law_removing_one_connection_keeps_the_others(s: Seq<BoundaryConnection>, gone: Seq<char>, other: Seq<char>)
    requires
        connection_position(s, gone).is_some(),
        gone != other,
    ensures
        connection_of(s.remove(connection_position(s, gone).unwrap()), other) == connection_of(s, other),
{
    let k = connection_position(s, gone).unwrap();
    lemma_connection_position_found(s, gone);
    let t = s.remove(k);
    lemma_connection_position_found(t, other);
    lemma_connection_position_found(s, other);
    assert forall|j: int| 0 <= j < t.len() implies t[j] == (if j < k { s[j] } else { s[j + 1] }) by {}
    match (connection_position(s, other), connection_position(t, other)) {
        (Some(i), Some(m)) => {
            let mi = if m < k { m } else { m + 1 };
            assert(s[mi].session_id@ == other);
            if i < k {
                assert(t[i] == s[i]);
            } else {
                assert(i != k);
                assert(t[i - 1] == s[i]);
            }
        },
        (Some(i), None) => {
            assert(i != k);
            if i < k {
                assert(t[i] == s[i]);
            } else {
                assert(t[i - 1] == s[i]);
            }
        },
        (None, Some(m)) => {
            if m < k {
                assert(t[m] == s[m]);
            } else {
                assert(t[m] == s[m + 1]);
            }
        },
        (None, None) => {},
    }
}

/// Adding two connections of distinct sessions, neither of which is in the
/// table yet, makes the table exactly two longer: the old connections stay in
/// place and the two new ones follow, whichever was added first.
pub proof fn law_two_new_connections_add_two(s: Seq<BoundaryConnection>, a: BoundaryConnection, b: BoundaryConnection)
    requires
        a.session_id@ != b.session_id@,
        connection_of(s, a.session_id@).is_none(),
        connection_of(s, b.session_id@).is_none(),
    ensures
        upsert_connection(upsert_connection(s, a), b) == s.push(a).push(b),
        upsert_connection(upsert_connection(s, b), a) == s.push(b).push(a),
        upsert_connection(upsert_connection(s, a), b).len() == s.len() + 2,
{
    lemma_upsert_connection_other(s, a, b.session_id@);
    lemma_upsert_connection_other(s, b, a.session_id@);
}

} // verus!

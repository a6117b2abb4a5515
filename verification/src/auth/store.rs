//! The session store adapter: the contract that the resolver and the
//! controller rely on from whatever backend keeps the sessions, and the
//! reading of the backend's answers.
//!
//! The backend itself lives outside this library. Its contents are
//! modelled as a map from session keys to payloads, and each of its three
//! operations as a function on that map.

use vstd::prelude::*;
use crate::auth::session::{Event, EventModel, Identity, UserSessionBody};

verus! {

/// The backend could not carry out a call. The caller may try again.
#[derive(Debug, Clone, Copy, PartialEq, Eq, Structural)]
pub struct StoreUnavailable;

/// The sessions that a store holds, by key.
pub type Sessions = Map<Seq<char>, Identity>;

/// The store after it has kept `body` under the key `key`.
pub open spec fn created(store: Sessions, key: Seq<char>, body: Identity) -> Sessions {
    store.insert(key, body)
}

/// What a load of `key` answers: the payload, or `None` for an absent key.
pub open spec fn loaded(store: Sessions, key: Seq<char>) -> Option<Identity> {
    if store.dom().contains(key) {
        Some(store[key])
    } else {
        None
    }
}

/// The store after `key` was destroyed. Destroying is total: an absent key
/// is no error, and the store is then unchanged.
pub open spec fn destroyed(store: Sessions, key: Seq<char>) -> Sessions {
    store.remove(key)
}

/// The content of an optional payload.
pub open spec fn body_view(body: Option<UserSessionBody>) -> Option<Identity> {
    match body {
        Some(b) => Some(b@),
        None => None,
    }
}

/// Reads the backend's answer to a load. A key without a payload is "no
/// session"; a backend that failed is never taken for that.
pub fn on_load(answer: Result<Option<UserSessionBody>, StoreUnavailable>) -> (r: Event)
    ensures
        r@ == match answer {
            Ok(body) => EventModel::SessionLoaded(body_view(body)),
            Err(_) => EventModel::StoreFailed,
        },
{
    match answer {
        Ok(body) => Event::SessionLoaded(body),
        Err(_) => Event::StoreFailed,
    }
}

/// Reads the backend's answer to a create: the key it assigned. A backend
/// that kept the session under no key has not created it.
pub fn on_create(answer: Result<Option<String>, StoreUnavailable>) -> (r: Event)
    ensures
        r@ == match answer {
            Ok(Some(key)) => EventModel::SessionStored(key@),
            _ => EventModel::StoreFailed,
        },
{
    match answer {
        Ok(Some(key)) => Event::SessionStored(key),
        _ => Event::StoreFailed,
    }
}

/// Reads the backend's answer to a destroy.
pub fn on_destroy(answer: Result<(), StoreUnavailable>) -> (r: Event)
    ensures
        r@ == match answer {
            Ok(_) => EventModel::SessionDestroyed,
            Err(_) => EventModel::StoreFailed,
        },
{
    match answer {
        Ok(_) => Event::SessionDestroyed,
        Err(_) => Event::StoreFailed,
    }
}

/// Destroying a key twice is destroying it once: the second call finds the
/// key absent, succeeds and changes nothing.
pub proof fn destroy_is_idempotent(store: Sessions, key: Seq<char>)
    ensures
        destroyed(destroyed(store, key), key) == destroyed(store, key),
        loaded(destroyed(store, key), key) is None,
{
    assert(destroyed(destroyed(store, key), key) =~= destroyed(store, key));
}

/// A session that was created is the one that a load of its key returns,
/// and creating it disturbs no other key.
pub proof fn load_returns_created(store: Sessions, key: Seq<char>, body: Identity)
    ensures
        loaded(created(store, key, body), key) == Some(body),
        forall|other: Seq<char>|
            other != key ==> #[trigger] loaded(created(store, key, body), other) == loaded(
                store,
                other,
            ),
{
}

/// A session that was destroyed is gone: a load of its key answers `None`,
/// and every other key is as before.
pub proof fn load_after_destroy(store: Sessions, key: Seq<char>)
    ensures
        loaded(destroyed(store, key), key) is None,
        forall|other: Seq<char>|
            other != key ==> #[trigger] loaded(destroyed(store, key), other) == loaded(store, other),
{
}

} // verus!

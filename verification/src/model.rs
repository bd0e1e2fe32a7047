//! Whole calls, and what holds of them.
//!
//! [`step`] speaks of one transition. This module puts a call together: a
//! [`World`] is a store, a transport and a clock, [`drive`] performs each
//! action in it and feeds the answer back, and [`run`] is a call from the
//! request to its result. The proof functions below state what every such
//! call does.

use crate::entry::{decoded, encoded, lemma_decode_encode, EntryView};
use crate::error::Error;
use crate::machine::{
    cacheable, expiry, key_of, record_for, step, ActionView, EventView, StateView,
};
use crate::time::{CacheDuration, Timestamp};
use vstd::prelude::*;

verus! {

/// What surrounds one call: the store as the call finds it, the response the
/// transport gives if it is asked, and what the clock reads at the two
/// moments it is read.
pub struct World {
    /// The store: records by key.
    pub store: Map<Seq<u8>, Seq<u8>>,
    /// The status of the transport's response.
    pub status: u16,
    /// The body of the transport's response.
    pub body: Seq<u8>,
    /// The clock when the store answers the lookup.
    pub at_lookup: Timestamp,
    /// The clock when the response is complete.
    pub at_response: Timestamp,
    /// The store fails to read.
    pub read_fails: bool,
    /// The transport fails to complete a request.
    pub transport_fails: bool,
    /// The store fails to write.
    pub write_fails: bool,
}

/// How a call went.
pub struct Outcome {
    /// What the sender got; `None` while the call is not over.
    pub result: Option<Result<Seq<u8>, Error>>,
    /// The store after the call.
    pub store: Map<Seq<u8>, Seq<u8>>,
    /// How often the store was read.
    pub lookups: nat,
    /// How often the transport was asked.
    pub fetches: nat,
    /// How often the store was written.
    pub writes: nat,
}

impl World {
    /// Neither the store nor the transport fails.
    pub open spec fn reliable(self) -> bool {
        !self.read_fails && !self.transport_fails && !self.write_fails
    }

    /// The event that answers `action` in this world.
    pub open spec fn answer(self, action: ActionView) -> EventView {
        match action {
            ActionView::Lookup { key } => if self.read_fails {
                EventView::StoreFailed
            } else if self.store.dom().contains(key) {
                EventView::Found { record: self.store[key], now: self.at_lookup }
            } else {
                EventView::Missing
            },
            ActionView::Fetch => if self.transport_fails {
                EventView::TransportFailed
            } else {
                EventView::Response { status: self.status, body: self.body, now: self.at_response }
            },
            ActionView::Store { .. } => if self.write_fails {
                EventView::StoreFailed
            } else {
                EventView::Stored
            },
            // `Return` and `Fail` end a call, so nothing answers them; such an
            // event meets `State::Finished` and is out of turn.
            ActionView::Return { .. } | ActionView::Fail { .. } => EventView::Stored,
        }
    }

    /// The world once `action` has been performed: a write that does not
    /// fail changes the store, nothing else changes anything.
    pub open spec fn after(self, action: ActionView) -> World {
        match action {
            ActionView::Store { key, record } => if self.write_fails {
                self
            } else {
                World { store: self.store.insert(key, record), ..self }
            },
            _ => self,
        }
    }
}

/// One if `b`, else zero.
pub open spec fn count(b: bool) -> nat {
    if b {
        1
    } else {
        0
    }
}

/// Performs `action` and whatever follows from it, at most `fuel` actions in
/// all, for a call that stands in `state`.
pub open spec fn drive(
    duration: Option<CacheDuration>,
    state: StateView,
    action: ActionView,
    world: World,
    fuel: nat,
) -> Outcome
    decreases fuel,
{
    match action {
        ActionView::Return { body } => Outcome {
            result: Some(Ok(body)),
            store: world.store,
            lookups: 0,
            fetches: 0,
            writes: 0,
        },
        ActionView::Fail { error } => Outcome {
            result: Some(Err(error)),
            store: world.store,
            lookups: 0,
            fetches: 0,
            writes: 0,
        },
        _ => if fuel == 0 {
            Outcome { result: None, store: world.store, lookups: 0, fetches: 0, writes: 0 }
        } else {
            let (next, asked) = step(duration, state, world.answer(action));
            let rest = drive(duration, next, asked, world.after(action), (fuel - 1) as nat);
            Outcome {
                result: rest.result,
                store: rest.store,
                lookups: rest.lookups + count(action is Lookup),
                fetches: rest.fetches + count(action is Fetch),
                writes: rest.writes + count(action is Store),
            }
        },
    }
}

/// A call for `url` in `world`, by a client with the default duration
/// `duration`. Three actions are all a call ever asks for.
pub open spec fn run(duration: Option<CacheDuration>, url: Seq<char>, world: World) -> Outcome {
    let (state, action) = step(duration, StateView::Idle, EventView::Request { url });
    drive(duration, state, action, world, 3)
}

/// Every call comes to an end. It reads the store once, asks the transport at
/// most once, and writes the store at most once and only after it has asked
/// the transport. A call that does not write, or that fails, leaves the store
/// as it was.
pub proof fn lemma_call_is_bounded(duration: Option<CacheDuration>, url: Seq<char>, world: World)
    ensures
        run(duration, url, world).result is Some,
        run(duration, url, world).lookups == 1,
        run(duration, url, world).fetches <= 1,
        run(duration, url, world).writes <= run(duration, url, world).fetches,
        run(duration, url, world).writes == 0 ==> run(duration, url, world).store == world.store,
        run(duration, url, world).result matches Some(Err(_)) ==> run(duration, url, world).store
            == world.store,
{
    reveal_with_fuel(drive, 4);
}

/// A fresh hit is served from the store: where the store holds the record of
/// an entry that has no expiry, or one later than the clock reads, the call
/// returns the entry's value, the transport is not asked and the store is not
/// written.
pub proof fn lemma_fresh_hit_is_served(
    duration: Option<CacheDuration>,
    url: Seq<char>,
    world: World,
    entry: EntryView,
)
    requires
        !world.read_fails,
        entry.fits(),
        world.store.dom().contains(key_of(url)),
        world.store[key_of(url)] == encoded(entry),
        entry.is_fresh(world.at_lookup),
    ensures
        run(duration, url, world).result == Some(Ok::<Seq<u8>, Error>(entry.value)),
        run(duration, url, world).fetches == 0,
        run(duration, url, world).writes == 0,
        run(duration, url, world).store == world.store,
{
    reveal_with_fuel(drive, 4);
    lemma_decode_encode(entry);
}

/// A miss is fetched and stored: where the store holds nothing under the key,
/// the transport is asked exactly once, and if its response is no server
/// error the call returns the body, and the store then holds under the key a
/// record that decodes to an entry with that body and the expiry that the
/// default duration gives; every other key is as before.
pub proof fn lemma_miss_is_fetched_and_stored(
    duration: Option<CacheDuration>,
    url: Seq<char>,
    world: World,
)
    requires
        world.reliable(),
        !world.store.dom().contains(key_of(url)),
        world.body.len() <= u64::MAX,
    ensures
        run(duration, url, world).fetches == 1,
        cacheable(world.status) ==> {
            let after = run(duration, url, world);
            &&& after.result == Some(Ok::<Seq<u8>, Error>(world.body))
            &&& after.writes == 1
            &&& after.store == world.store.insert(
                key_of(url),
                record_for(duration, world.body, world.at_response),
            )
            &&& decoded(after.store[key_of(url)]) == Some(
                EntryView { expires: expiry(duration, world.at_response), value: world.body },
            )
        },
{
    reveal_with_fuel(drive, 4);
    lemma_decode_encode(
        EntryView { expires: expiry(duration, world.at_response), value: world.body },
    );
}

/// An expired entry is fetched anew: where the store holds the record of an
/// entry whose expiry is not later than the clock reads, the transport is
/// asked exactly once, and if its response is no server error the call
/// returns the new body and the record under the key is replaced by that of
/// the new response.
pub proof fn lemma_stale_hit_is_refetched(
    duration: Option<CacheDuration>,
    url: Seq<char>,
    world: World,
    entry: EntryView,
)
    requires
        world.reliable(),
        entry.fits(),
        world.store.dom().contains(key_of(url)),
        world.store[key_of(url)] == encoded(entry),
        !entry.is_fresh(world.at_lookup),
        world.body.len() <= u64::MAX,
    ensures
        run(duration, url, world).fetches == 1,
        cacheable(world.status) ==> {
            let after = run(duration, url, world);
            &&& after.result == Some(Ok::<Seq<u8>, Error>(world.body))
            &&& after.writes == 1
            &&& after.store == world.store.insert(
                key_of(url),
                record_for(duration, world.body, world.at_response),
            )
            &&& decoded(after.store[key_of(url)]) == Some(
                EntryView { expires: expiry(duration, world.at_response), value: world.body },
            )
        },
{
    reveal_with_fuel(drive, 4);
    lemma_decode_encode(entry);
    lemma_decode_encode(
        EntryView { expires: expiry(duration, world.at_response), value: world.body },
    );
}

/// A server error is not stored: where the transport answers with a status of
/// 500 or above, no call writes the store, and a call that asked the
/// transport fails with that status.
pub proof fn lemma_server_error_is_not_stored(
    duration: Option<CacheDuration>,
    url: Seq<char>,
    world: World,
)
    requires
        !world.transport_fails,
        !cacheable(world.status),
    ensures
        run(duration, url, world).writes == 0,
        run(duration, url, world).store == world.store,
        run(duration, url, world).fetches == 1 ==> run(duration, url, world).result == Some(
            Err::<Seq<u8>, Error>(Error::Server(world.status)),
        ),
{
    reveal_with_fuel(drive, 4);
}

/// A record that does not decode ends the call: the call fails with
/// [`Error::Decode`], the transport is not asked and the record stays.
pub proof fn lemma_corrupt_record_is_fatal(
    duration: Option<CacheDuration>,
    url: Seq<char>,
    world: World,
)
    requires
        !world.read_fails,
        world.store.dom().contains(key_of(url)),
        decoded(world.store[key_of(url)]) is None,
    ensures
        run(duration, url, world).result == Some(Err::<Seq<u8>, Error>(Error::Decode)),
        run(duration, url, world).fetches == 0,
        run(duration, url, world).store == world.store,
{
    reveal_with_fuel(drive, 4);
}

/// Without a default duration entries are eternal: what a client without one
/// stores has no expiry, and once a call of such a client has stored a
/// response, every later call for the same URL returns that body without
/// asking the transport, whatever the clock reads by then.
pub proof fn lemma_no_duration_is_eternal(url: Seq<char>, first: World, later: World)
    requires
        first.reliable(),
        first.body.len() <= u64::MAX,
        run(None, url, first).writes == 1,
        !later.read_fails,
        later.store == run(None, url, first).store,
    ensures
        decoded(later.store[key_of(url)]) == Some(EntryView { expires: None, value: first.body }),
        run(None, url, later).result == Some(Ok::<Seq<u8>, Error>(first.body)),
        run(None, url, later).fetches == 0,
        run(None, url, later).store == later.store,
{
    reveal_with_fuel(drive, 4);
    lemma_decode_encode(EntryView { expires: None, value: first.body });
}

/// With a default duration an entry is served until it expires: once a call
/// has stored a response, a later call for the same URL returns that body
/// without asking the transport if the clock then reads less than the expiry,
/// and asks the transport exactly once if it does not.
pub proof fn lemma_entry_is_served_until_expiry(
    d: CacheDuration,
    url: Seq<char>,
    first: World,
    later: World,
)
    requires
        first.reliable(),
        first.body.len() <= u64::MAX,
        run(Some(d), url, first).writes == 1,
        later.reliable(),
        later.store == run(Some(d), url, first).store,
    ensures
        later.at_lookup.as_nanos() < first.at_response.plus(d).as_nanos() ==> {
            &&& run(Some(d), url, later).result == Some(Ok::<Seq<u8>, Error>(first.body))
            &&& run(Some(d), url, later).fetches == 0
        },
        later.at_lookup.as_nanos() >= first.at_response.plus(d).as_nanos() ==> run(
            Some(d),
            url,
            later,
        ).fetches == 1,
{
    reveal_with_fuel(drive, 4);
    lemma_decode_encode(
        EntryView { expires: Some(first.at_response.plus(d)), value: first.body },
    );
}

/// A failure of the store or of the transport ends the call and is handed
/// on: a failed read fails the call before the transport is asked, a failed
/// request fails it before the store is written, and a failed write fails it
/// too. In each case the store is left as it was.
pub proof fn lemma_failure_is_fatal(duration: Option<CacheDuration>, url: Seq<char>, world: World)
    ensures
        world.read_fails ==> {
            &&& run(duration, url, world).result == Some(Err::<Seq<u8>, Error>(Error::Store))
            &&& run(duration, url, world).fetches == 0
            &&& run(duration, url, world).writes == 0
        },
        world.transport_fails && run(duration, url, world).fetches == 1 ==> {
            &&& run(duration, url, world).result == Some(Err::<Seq<u8>, Error>(Error::Transport))
            &&& run(duration, url, world).writes == 0
        },
        world.write_fails && run(duration, url, world).writes == 1 ==> run(
            duration,
            url,
            world,
        ).result == Some(Err::<Seq<u8>, Error>(Error::Store)),
        !world.reliable() ==> run(duration, url, world).store == world.store,
{
    reveal_with_fuel(drive, 4);
}

} // verus!

//! The client: its configuration and the transition function it runs.

use crate::entry::CacheEntry;
use crate::error::Error;
use crate::machine::{
    cacheable, expiry, key_of, on_found, on_response, step, Action, Event, State, SERVER_ERROR,
};
use crate::time::{CacheDuration, Timestamp};
use vstd::prelude::*;
use vstd::slice::slice_to_vec;
use vstd::string::*;

verus! {

/// A caching client's configuration. It is fixed when the client is built.
#[derive(Clone, Copy, Debug, PartialEq, Eq)]
pub struct CachingClient {
    cache_duration: Option<CacheDuration>,
}

/// The store key for `url`: the bytes of its text, unchanged.
pub fn cache_key(url: &str) -> (key: Vec<u8>)
    ensures
        key@ == key_of(url@),
{
    url.as_bytes_vec()
}

/// Whether a response with `status` is stored: every status below 500 is.
pub fn is_cacheable(status: u16) -> (r: bool)
    ensures
        r == cacheable(status),
{
    status < SERVER_ERROR
}

impl CachingClient {
    /// The default duration the client was built with.
    pub closed spec fn duration(&self) -> Option<CacheDuration> {
        self.cache_duration
    }

    #[verifier::type_invariant]
    spec fn well_formed(&self) -> bool {
        self.cache_duration matches Some(d) ==> d.is_valid()
    }

    /// Builds a client whose stored entries expire `cache_duration` after they
    /// were fetched, or never where it is `None`.
    ///
    /// Fails with [`Error::InvalidDuration`] exactly where a duration is given
    /// that is not [`CacheDuration::is_valid`].
    pub fn new(cache_duration: Option<CacheDuration>) -> (r: Result<CachingClient, Error>)
        ensures
            r is Ok <==> (cache_duration matches Some(d) ==> d.is_valid()),
            r matches Ok(client) ==> client.duration() == cache_duration,
            r matches Err(error) ==> error == Error::InvalidDuration,
    {
        match cache_duration {
            None => Ok(CachingClient { cache_duration: None }),
            Some(d) => match d.checked() {
                Some(accepted) => Ok(CachingClient { cache_duration: Some(accepted) }),
                None => Err(Error::InvalidDuration),
            },
        }
    }

    /// The default duration the client was built with; one that is there is
    /// valid.
    pub fn cache_duration(&self) -> (r: Option<CacheDuration>)
        ensures
            r == self.duration(),
            r matches Some(d) ==> d.is_valid(),
    {
        proof {
            use_type_invariant(self);
        }
        self.cache_duration
    }

    /// The expiry of an entry that this client stores at `now`.
    pub fn expires_at(&self, now: &Timestamp) -> (r: Option<Timestamp>)
        ensures
            r == expiry(self.duration(), *now),
    {
        match &self.cache_duration {
            None => None,
            Some(d) => Some(now.saturating_add(d)),
        }
    }

    /// Decides on the record that the store holds under `key`: a record that
    /// does not decode ends the call, a fresh entry is returned, a stale one
    /// is fetched anew.
    pub fn lookup(&self, key: Vec<u8>, record: &[u8], now: &Timestamp) -> (r: (State, Action))
        ensures
            (r.0@, r.1@) == on_found(key@, record@, *now),
    {
        match CacheEntry::decode(record) {
            Err(error) => (State::Finished, Action::Fail { error }),
            Ok(entry) => if entry.is_fresh(now) {
                (State::Finished, Action::Return { body: entry.value })
            } else {
                (State::AwaitingResponse { key }, Action::Fetch)
            },
        }
    }

    /// Decides on a complete response: one with a server error ends the call
    /// and leaves the store alone, any other is written under `key` with the
    /// expiry that the client's default duration gives it.
    pub fn store(&self, key: Vec<u8>, status: u16, body: Vec<u8>, now: &Timestamp) -> (r: (
        State,
        Action,
    ))
        ensures
            (r.0@, r.1@) == on_response(self.duration(), key@, status, body@, *now),
    {
        if is_cacheable(status) {
            let entry = CacheEntry { expires: self.expires_at(now), value: body };
            let record = entry.encode();
            (State::AwaitingWrite { body: entry.value }, Action::Store { key, record })
        } else {
            (State::Finished, Action::Fail { error: Error::Server(status) })
        }
    }

    /// Takes a call one step on: from where it stands and what just happened
    /// to where it stands next and what is to be done.
    ///
    /// An event that does not answer the action the call last asked for ends
    /// it with [`Error::Protocol`].
    pub fn send(&self, state: State, event: Event) -> (r: (State, Action))
        ensures
            (r.0@, r.1@) == step(self.duration(), state@, event@),
    {
        match state {
            State::Idle => match event {
                Event::Request { url } => {
                    let key = cache_key(url.as_str());
                    let asked = slice_to_vec(key.as_slice());
                    (State::AwaitingLookup { key }, Action::Lookup { key: asked })
                },
                _ => (State::Finished, Action::Fail { error: Error::Protocol }),
            },
            State::AwaitingLookup { key } => match event {
                Event::Found { record, now } => self.lookup(key, record.as_slice(), &now),
                Event::Missing => (State::AwaitingResponse { key }, Action::Fetch),
                Event::StoreFailed => (State::Finished, Action::Fail { error: Error::Store }),
                _ => (State::Finished, Action::Fail { error: Error::Protocol }),
            },
            State::AwaitingResponse { key } => match event {
                Event::Response { status, body, now } => self.store(key, status, body, &now),
                Event::TransportFailed => (
                    State::Finished,
                    Action::Fail { error: Error::Transport },
                ),
                _ => (State::Finished, Action::Fail { error: Error::Protocol }),
            },
            State::AwaitingWrite { body } => match event {
                Event::Stored => (State::Finished, Action::Return { body }),
                Event::StoreFailed => (State::Finished, Action::Fail { error: Error::Store }),
                _ => (State::Finished, Action::Fail { error: Error::Protocol }),
            },
            State::Finished => (State::Finished, Action::Fail { error: Error::Protocol }),
        }
    }
}

} // verus!

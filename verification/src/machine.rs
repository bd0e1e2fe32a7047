//! The states of one call, what can happen to it, and what it asks for.
//!
//! A call never does outside work itself. It hands its caller an [`Action`],
//! the caller performs it and comes back with an [`Event`], and
//! [`step`] says what follows. A call begins in [`State::Idle`] with
//! [`Event::Request`] and is over with [`Action::Return`] or [`Action::Fail`].

use crate::entry::{decoded, encoded, EntryView};
use crate::error::Error;
use crate::time::{CacheDuration, Timestamp};
use vstd::prelude::*;
use vstd::slice::slice_to_vec;
use vstd::utf8::encode_utf8;

verus! {

/// The lowest status that counts as a server error. A response with such a
/// status is handed to the caller as an error and never stored.
pub const SERVER_ERROR: u16 = 500;

/// Where a call stands between two pieces of outside work.
#[derive(Debug, PartialEq, Eq)]
pub enum State {
    /// Nothing has been asked for yet.
    Idle,
    /// The store has been asked for the record under `key`.
    AwaitingLookup { key: Vec<u8> },
    /// The transport has been asked to execute the request.
    AwaitingResponse { key: Vec<u8> },
    /// The store has been asked to write; `body` goes to the caller once it
    /// has.
    AwaitingWrite { body: Vec<u8> },
    /// The call is over.
    Finished,
}

/// What the caller reports back.
#[derive(Debug, PartialEq, Eq)]
pub enum Event {
    /// A request for `url` came in.
    Request { url: String },
    /// The store holds `record` under the key; the clock read `now` when it
    /// answered.
    Found { record: Vec<u8>, now: Timestamp },
    /// The store holds nothing under the key.
    Missing,
    /// The transport got a complete response; the clock read `now` when it
    /// was complete.
    Response { status: u16, body: Vec<u8>, now: Timestamp },
    /// The store has written the record.
    Stored,
    /// The store could not read or write.
    StoreFailed,
    /// The transport could not complete the request.
    TransportFailed,
}

/// What the caller is to do next.
#[derive(Debug, PartialEq, Eq)]
pub enum Action {
    /// Read the store under `key`.
    Lookup { key: Vec<u8> },
    /// Execute the request on the network.
    Fetch,
    /// Write `record` to the store under `key`, replacing what is there.
    Store { key: Vec<u8>, record: Vec<u8> },
    /// Hand `body` to whoever sent the request.
    Return { body: Vec<u8> },
    /// Hand `error` to whoever sent the request.
    Fail { error: Error },
}

/// A [`State`] as a mathematical value.
pub enum StateView {
    Idle,
    AwaitingLookup { key: Seq<u8> },
    AwaitingResponse { key: Seq<u8> },
    AwaitingWrite { body: Seq<u8> },
    Finished,
}

/// An [`Event`] as a mathematical value.
pub enum EventView {
    Request { url: Seq<char> },
    Found { record: Seq<u8>, now: Timestamp },
    Missing,
    Response { status: u16, body: Seq<u8>, now: Timestamp },
    Stored,
    StoreFailed,
    TransportFailed,
}

/// An [`Action`] as a mathematical value.
pub enum ActionView {
    Lookup { key: Seq<u8> },
    Fetch,
    Store { key: Seq<u8>, record: Seq<u8> },
    Return { body: Seq<u8> },
    Fail { error: Error },
}

impl View for State {
    type V = StateView;

    open spec fn view(&self) -> StateView {
        match *self {
            State::Idle => StateView::Idle,
            State::AwaitingLookup { key } => StateView::AwaitingLookup { key: key@ },
            State::AwaitingResponse { key } => StateView::AwaitingResponse { key: key@ },
            State::AwaitingWrite { body } => StateView::AwaitingWrite { body: body@ },
            State::Finished => StateView::Finished,
        }
    }
}

impl View for Event {
    type V = EventView;

    open spec fn view(&self) -> EventView {
        match *self {
            Event::Request { url } => EventView::Request { url: url@ },
            Event::Found { record, now } => EventView::Found { record: record@, now },
            Event::Missing => EventView::Missing,
            Event::Response { status, body, now } => EventView::Response {
                status,
                body: body@,
                now,
            },
            Event::Stored => EventView::Stored,
            Event::StoreFailed => EventView::StoreFailed,
            Event::TransportFailed => EventView::TransportFailed,
        }
    }
}

impl View for Action {
    type V = ActionView;

    open spec fn view(&self) -> ActionView {
        match *self {
            Action::Lookup { key } => ActionView::Lookup { key: key@ },
            Action::Fetch => ActionView::Fetch,
            Action::Store { key, record } => ActionView::Store { key: key@, record: record@ },
            Action::Return { body } => ActionView::Return { body: body@ },
            Action::Fail { error } => ActionView::Fail { error },
        }
    }
}

impl Clone for State {
    fn clone(&self) -> (r: Self)
        ensures
            r@ == self@,
    {
        match self {
            State::Idle => State::Idle,
            State::AwaitingLookup { key } => State::AwaitingLookup {
                key: slice_to_vec(key.as_slice()),
            },
            State::AwaitingResponse { key } => State::AwaitingResponse {
                key: slice_to_vec(key.as_slice()),
            },
            State::AwaitingWrite { body } => State::AwaitingWrite {
                body: slice_to_vec(body.as_slice()),
            },
            State::Finished => State::Finished,
        }
    }
}

impl Clone for Event {
    fn clone(&self) -> (r: Self)
        ensures
            r@ == self@,
    {
        match self {
            Event::Request { url } => Event::Request { url: url.clone() },
            Event::Found { record, now } => Event::Found {
                record: slice_to_vec(record.as_slice()),
                now: *now,
            },
            Event::Missing => Event::Missing,
            Event::Response { status, body, now } => Event::Response {
                status: *status,
                body: slice_to_vec(body.as_slice()),
                now: *now,
            },
            Event::Stored => Event::Stored,
            Event::StoreFailed => Event::StoreFailed,
            Event::TransportFailed => Event::TransportFailed,
        }
    }
}

impl Clone for Action {
    fn clone(&self) -> (r: Self)
        ensures
            r@ == self@,
    {
        match self {
            Action::Lookup { key } => Action::Lookup { key: slice_to_vec(key.as_slice()) },
            Action::Fetch => Action::Fetch,
            Action::Store { key, record } => Action::Store {
                key: slice_to_vec(key.as_slice()),
                record: slice_to_vec(record.as_slice()),
            },
            Action::Return { body } => Action::Return { body: slice_to_vec(body.as_slice()) },
            Action::Fail { error } => Action::Fail { error: *error },
        }
    }
}

/// The key under which the store keeps the entry for `url`: the UTF-8 bytes of
/// the text, as they are.
pub open spec fn key_of(url: Seq<char>) -> Seq<u8> {
    encode_utf8(url)
}

/// A response with this status is stored and its body returned.
pub open spec fn cacheable(status: u16) -> bool {
    status < SERVER_ERROR
}

/// The expiry of an entry stored at `now` by a client with the default
/// duration `duration`: none without a duration.
pub open spec fn expiry(duration: Option<CacheDuration>, now: Timestamp) -> Option<Timestamp> {
    match duration {
        None => None,
        Some(d) => Some(now.plus(d)),
    }
}

/// The record written for a response with `body` that was complete at `now`.
pub open spec fn record_for(
    duration: Option<CacheDuration>,
    body: Seq<u8>,
    now: Timestamp,
) -> Seq<u8> {
    encoded(EntryView { expires: expiry(duration, now), value: body })
}

/// What follows when the store answers a lookup for `key` with `record`.
pub open spec fn on_found(key: Seq<u8>, record: Seq<u8>, now: Timestamp) -> (
    StateView,
    ActionView,
) {
    match decoded(record) {
        None => (StateView::Finished, ActionView::Fail { error: Error::Decode }),
        Some(entry) => if entry.is_fresh(now) {
            (StateView::Finished, ActionView::Return { body: entry.value })
        } else {
            (StateView::AwaitingResponse { key }, ActionView::Fetch)
        },
    }
}

/// What follows when the transport answers with `status` and `body`.
pub open spec fn on_response(
    duration: Option<CacheDuration>,
    key: Seq<u8>,
    status: u16,
    body: Seq<u8>,
    now: Timestamp,
) -> (StateView, ActionView) {
    if cacheable(status) {
        (
            StateView::AwaitingWrite { body },
            ActionView::Store { key, record: record_for(duration, body, now) },
        )
    } else {
        (StateView::Finished, ActionView::Fail { error: Error::Server(status) })
    }
}

/// The transition function of a call made through a client with the default
/// duration `duration`: the next state and the next action.
pub open spec fn step(duration: Option<CacheDuration>, state: StateView, event: EventView) -> (
    StateView,
    ActionView,
) {
    match (state, event) {
        (StateView::Idle, EventView::Request { url }) => (
            StateView::AwaitingLookup { key: key_of(url) },
            ActionView::Lookup { key: key_of(url) },
        ),
        (StateView::AwaitingLookup { key }, EventView::Found { record, now }) => on_found(
            key,
            record,
            now,
        ),
        (StateView::AwaitingLookup { key }, EventView::Missing) => (
            StateView::AwaitingResponse { key },
            ActionView::Fetch,
        ),
        (StateView::AwaitingLookup { .. }, EventView::StoreFailed) => (
            StateView::Finished,
            ActionView::Fail { error: Error::Store },
        ),
        (
            StateView::AwaitingResponse { key },
            EventView::Response { status, body, now },
        ) => on_response(duration, key, status, body, now),
        (StateView::AwaitingResponse { .. }, EventView::TransportFailed) => (
            StateView::Finished,
            ActionView::Fail { error: Error::Transport },
        ),
        (StateView::AwaitingWrite { body }, EventView::Stored) => (
            StateView::Finished,
            ActionView::Return { body },
        ),
        (StateView::AwaitingWrite { .. }, EventView::StoreFailed) => (
            StateView::Finished,
            ActionView::Fail { error: Error::Store },
        ),
        _ => (StateView::Finished, ActionView::Fail { error: Error::Protocol }),
    }
}

} // verus!

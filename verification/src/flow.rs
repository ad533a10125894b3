//! The state machine of one run. The caller performs each action and hands
//! back what happened as the next event; every decision is taken here.

use vstd::prelude::*;
use crate::args::{Mode, mode_of, select_mode};
use crate::credentials::{CredentialRecord, RecordView, StoreContent, loaded, pairs_of_record,
    store_location, store_path};
use crate::device::{DeviceClass, announced_name, device_identity, device_name, identity_of};
use crate::failure::{Failure, exit_status, status_of};
use crate::json::json_text;
use crate::media::{MediaId, media_of, parse_media};

verus! {

/// Where a run stands.
pub enum Phase {
    /// Nothing has happened yet.
    Idle,
    /// Subscribed to discovery, waiting for the first device.
    Listening,
    /// The first device's credentials were handed to the store.
    Persisting,
    /// Waiting for the content of the credential store.
    Reading { media: String },
    /// The session handshake is under way.
    Connecting { media: String },
    /// The session is up and the load request was issued.
    Loaded,
    /// The item is playing.
    Playing,
    /// The run completed.
    Ended,
    /// The run failed.
    Failed(Failure),
}

/// What happened outside since the last action.
pub enum Event {
    /// The program was started with this subcommand and these operands.
    Invoked { subcommand: Option<String>, operands: Vec<String> },
    /// Discovery yielded a device.
    DeviceFound(CredentialRecord),
    /// Discovery ended without yielding a device whose credentials can be
    /// used.
    ListenerClosed,
    /// The store took the record.
    Stored,
    /// The store could not be written.
    StoreFailed,
    /// The store was read.
    StoreRead(StoreContent),
    /// The remote service acknowledged the session.
    Connected,
    /// The remote service rejected the credentials.
    Rejected,
    /// The handshake failed at the transport level.
    TransportFailed,
    /// The record's payload cannot be read as credentials, so no handshake
    /// was tried.
    RecordUnusable,
    /// The session accepted the load request.
    LoadAccepted,
    /// The session rejected the load request.
    LoadRejected,
    /// The session signalled the end of the track.
    EndOfTrack,
    /// The session was lost.
    SessionLost,
}

/// What the caller is to do next.
pub enum Action {
    /// Start listening for devices under this identity.
    Subscribe { device_identity: String, device_class: DeviceClass },
    /// Stop listening, and replace the content of the store at this path
    /// with this text, so that a reader sees the old content or the new.
    CancelAndStore { path: &'static str, text: String },
    /// Read the credential store at this path.
    ReadStore { path: &'static str },
    /// Open a session with these credentials, once.
    Connect { record: CredentialRecord },
    /// Load the item.
    Load { media: MediaId, start_playing: bool, position: u32 },
    /// Wait until the session signals the end of the track.
    AwaitEndOfTrack,
    /// Report the failure, if any, and leave with this status.
    Exit { status: u8, failure: Option<Failure> },
    /// The event was not expected here and was not consumed.
    Ignore,
}

/// The mathematical form of an action.
pub enum ActionView {
    Subscribe { device_identity: Seq<char>, device_class: DeviceClass },
    CancelAndStore { path: Seq<char>, text: Seq<char> },
    ReadStore { path: Seq<char> },
    Connect { record: RecordView },
    Load { media: MediaId, start_playing: bool, position: u32 },
    AwaitEndOfTrack,
    Exit { status: u8, failure: Option<Failure> },
    Ignore,
}

impl View for Action {
    type V = ActionView;

    open spec fn view(&self) -> ActionView {
        match *self {
            Action::Subscribe { device_identity, device_class } => ActionView::Subscribe {
                device_identity: device_identity@,
                device_class,
            },
            Action::CancelAndStore { path, text } => ActionView::CancelAndStore {
                path: path@,
                text: text@,
            },
            Action::ReadStore { path } => ActionView::ReadStore { path: path@ },
            Action::Connect { record } => ActionView::Connect { record: record@ },
            Action::Load { media, start_playing, position } => ActionView::Load {
                media,
                start_playing,
                position,
            },
            Action::AwaitEndOfTrack => ActionView::AwaitEndOfTrack,
            Action::Exit { status, failure } => ActionView::Exit { status, failure },
            Action::Ignore => ActionView::Ignore,
        }
    }
}

/// The step that ends a run in failure.
pub open spec fn failing(failure: Failure) -> (Phase, ActionView) {
    (Phase::Failed(failure), ActionView::Exit { status: status_of(Some(failure)), failure: Some(failure) })
}

/// The step that ends a run in success.
pub open spec fn finishing() -> (Phase, ActionView) {
    (Phase::Ended, ActionView::Exit { status: 0, failure: None })
}

/// The phase that follows `phase` on `event`, and the action to perform.
/// An event that the phase does not wait for changes nothing.
pub open spec fn next(phase: Phase, event: Event) -> (Phase, ActionView) {
    match phase {
        Phase::Idle => match event {
            Event::Invoked { subcommand, operands } => match mode_of(subcommand, operands@) {
                Ok(Mode::Discover) => (
                    Phase::Listening,
                    ActionView::Subscribe {
                        device_identity: identity_of(announced_name()),
                        device_class: DeviceClass::Speaker,
                    },
                ),
                Ok(Mode::Play { media }) => (
                    Phase::Reading { media },
                    ActionView::ReadStore { path: store_location()@ },
                ),
                Err(failure) => failing(failure),
            },
            _ => (phase, ActionView::Ignore),
        },
        Phase::Listening => match event {
            Event::DeviceFound(record) => (
                Phase::Persisting,
                ActionView::CancelAndStore {
                    path: store_location()@,
                    text: json_text(pairs_of_record(record@)),
                },
            ),
            Event::ListenerClosed => failing(Failure::Discovery),
            _ => (phase, ActionView::Ignore),
        },
        Phase::Persisting => match event {
            Event::Stored => finishing(),
            Event::StoreFailed => failing(Failure::Io),
            _ => (phase, ActionView::Ignore),
        },
        Phase::Reading { media } => match event {
            Event::StoreRead(content) => match loaded(content) {
                Ok(record) => (Phase::Connecting { media }, ActionView::Connect { record }),
                Err(failure) => failing(failure),
            },
            _ => (phase, ActionView::Ignore),
        },
        Phase::Connecting { media } => match event {
            Event::Connected => match media_of(media@) {
                Some(id) => (
                    Phase::Loaded,
                    ActionView::Load { media: id, start_playing: true, position: 0 },
                ),
                None => failing(Failure::InvalidIdentifier),
            },
            Event::Rejected => failing(Failure::AuthenticationFailed),
            Event::TransportFailed => failing(Failure::Network),
            Event::RecordUnusable => failing(Failure::Corrupt),
            _ => (phase, ActionView::Ignore),
        },
        Phase::Loaded => match event {
            Event::LoadAccepted => (Phase::Playing, ActionView::AwaitEndOfTrack),
            Event::LoadRejected => failing(Failure::Load),
            Event::SessionLost => failing(Failure::SessionDropped),
            _ => (phase, ActionView::Ignore),
        },
        Phase::Playing => match event {
            Event::EndOfTrack => finishing(),
            Event::SessionLost => failing(Failure::SessionDropped),
            _ => (phase, ActionView::Ignore),
        },
        Phase::Ended => (phase, ActionView::Ignore),
        Phase::Failed(_) => (phase, ActionView::Ignore),
    }
}

/// Ends the run in failure.
fn fail(failure: Failure) -> (out: (Phase, Action))
    ensures
        (out.0, out.1@) == failing(failure),
{
    (Phase::Failed(failure), Action::Exit { status: exit_status(Some(failure)), failure: Some(failure) })
}

/// Ends the run in success.
fn finish() -> (out: (Phase, Action))
    ensures
        (out.0, out.1@) == finishing(),
{
    (Phase::Ended, Action::Exit { status: exit_status(None), failure: None })
}

/// Takes one step of the run: consumes the event, and returns the phase
/// that follows and the action to perform. The text that a discovered
/// record is stored as is one that a later run loads that same record from.
pub fn step(phase: Phase, event: Event) -> (out: (Phase, Action))
    ensures
        (out.0, out.1@) == next(phase, event),
        match (event, out.1) {
            (Event::DeviceFound(record), Action::CancelAndStore { text, .. }) => loaded(
                StoreContent::Text(text),
            ) == Ok::<RecordView, Failure>(record@),
            _ => true,
        },
{
    match phase {
        Phase::Idle => match event {
            Event::Invoked { subcommand, operands } => match select_mode(subcommand, operands) {
                Ok(Mode::Discover) => (
                    Phase::Listening,
                    Action::Subscribe {
                        device_identity: device_identity(device_name()),
                        device_class: DeviceClass::Speaker,
                    },
                ),
                Ok(Mode::Play { media }) => (
                    Phase::Reading { media },
                    Action::ReadStore { path: store_path() },
                ),
                Err(failure) => fail(failure),
            },
            _ => (Phase::Idle, Action::Ignore),
        },
        Phase::Listening => match event {
            Event::DeviceFound(record) => (
                Phase::Persisting,
                Action::CancelAndStore { path: store_path(), text: record.encode() },
            ),
            Event::ListenerClosed => fail(Failure::Discovery),
            _ => (Phase::Listening, Action::Ignore),
        },
        Phase::Persisting => match event {
            Event::Stored => finish(),
            Event::StoreFailed => fail(Failure::Io),
            _ => (Phase::Persisting, Action::Ignore),
        },
        Phase::Reading { media } => match event {
            Event::StoreRead(content) => match CredentialRecord::load(content) {
                Ok(record) => (Phase::Connecting { media }, Action::Connect { record }),
                Err(failure) => fail(failure),
            },
            _ => (Phase::Reading { media }, Action::Ignore),
        },
        Phase::Connecting { media } => match event {
            Event::Connected => match parse_media(media.as_str()) {
                Ok(id) => (
                    Phase::Loaded,
                    Action::Load { media: id, start_playing: true, position: 0 },
                ),
                Err(failure) => fail(failure),
            },
            Event::Rejected => fail(Failure::AuthenticationFailed),
            Event::TransportFailed => fail(Failure::Network),
            Event::RecordUnusable => fail(Failure::Corrupt),
            _ => (Phase::Connecting { media }, Action::Ignore),
        },
        Phase::Loaded => match event {
            Event::LoadAccepted => (Phase::Playing, Action::AwaitEndOfTrack),
            Event::LoadRejected => fail(Failure::Load),
            Event::SessionLost => fail(Failure::SessionDropped),
            _ => (Phase::Loaded, Action::Ignore),
        },
        Phase::Playing => match event {
            Event::EndOfTrack => finish(),
            Event::SessionLost => fail(Failure::SessionDropped),
            _ => (Phase::Playing, Action::Ignore),
        },
        Phase::Ended => (Phase::Ended, Action::Ignore),
        Phase::Failed(failure) => (Phase::Failed(failure), Action::Ignore),
    }
}

} // verus!

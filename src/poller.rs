//! The decisions of the mailbox poller. Each cycle connects, searches for
//! unanswered DMARC report mails, fetches them, logs out and sleeps; the
//! caller performs each action and reports how it went.

use vstd::prelude::*;
use vstd::string::*;
use crate::dmarc::{uid_set, uid_list_text};

verus! {

/// Seconds between two polling cycles.
pub const POLL_INTERVAL_SECS: u64 = 300;

/// Where a polling cycle stands.
#[derive(Debug, PartialEq, Eq, Clone, Copy)]
pub enum PollState {
    Idle,
    Connecting,
    Searching,
    Fetching,
    LoggingOut,
}

/// How the last action went.
#[derive(Debug, PartialEq, Eq)]
pub enum PollEvent {
    /// The sleep between cycles is over (or the poller just started).
    Woke,
    /// Connecting, logging in and selecting the inbox succeeded or failed.
    Connected(bool),
    /// The identifiers that the search found, or `None` when it failed.
    Searched(Option<Vec<u32>>),
    /// The fetched messages were handed on (or fetching failed).
    Fetched,
    /// Logging out succeeded or failed.
    LoggedOut(bool),
}

/// What to do next.
#[derive(Debug, PartialEq, Eq)]
pub enum PollAction {
    Connect,
    Search(String),
    Fetch(String),
    Logout,
    Sleep(u64),
}

/// The search that selects DMARC report mails not yet dealt with.
pub open spec fn search_query() -> Seq<char> {
    "UNANSWERED UNSEEN UNDELETED UNDRAFT SUBJECT \"Report Domain:\""@
}

/// The next state and action. A failed connection skips straight to the
/// sleep; a failed or empty search, and any fetch, lead to the logout;
/// the logout, failed or not, leads to the sleep. An event that does not
/// belong to the state ends the cycle.
pub fn poll_step(state: PollState, event: &PollEvent) -> (r: (PollState, PollAction))
    ensures
        (state == PollState::Idle && *event == PollEvent::Woke) ==> r.0 == PollState::Connecting && r.1 == PollAction::Connect,
        (state == PollState::Connecting && *event == PollEvent::Connected(true)) ==> r.0 == PollState::Searching
            && r.1 is Search && r.1->Search_0@ == search_query(),
        (state == PollState::Connecting && *event == PollEvent::Connected(false)) ==> r.0 == PollState::Idle
            && r.1 == PollAction::Sleep(POLL_INTERVAL_SECS),
        (state == PollState::Searching && event is Searched && event->Searched_0 is Some
            && event->Searched_0->Some_0@.len() > 0) ==> r.0 == PollState::Fetching && r.1 is Fetch
            && r.1->Fetch_0@ == uid_list_text(event->Searched_0->Some_0@),
        (state == PollState::Searching && event is Searched && event->Searched_0 is Some
            && event->Searched_0->Some_0@.len() == 0) ==> r.0 == PollState::LoggingOut && r.1 == PollAction::Logout,
        (state == PollState::Searching && *event == PollEvent::Searched(None)) ==> r.0 == PollState::LoggingOut && r.1
            == PollAction::Logout,
        (state == PollState::Fetching && *event == PollEvent::Fetched) ==> r.0 == PollState::LoggingOut && r.1
            == PollAction::Logout,
        (state == PollState::LoggingOut && event is LoggedOut) ==> r.0 == PollState::Idle && r.1
            == PollAction::Sleep(POLL_INTERVAL_SECS),
        r.0 == PollState::Idle <==> r.1 is Sleep,
{
    match (state, event) {
        (PollState::Idle, PollEvent::Woke) => (PollState::Connecting, PollAction::Connect),
        (PollState::Connecting, PollEvent::Connected(true)) => (
            PollState::Searching,
            PollAction::Search(String::from_str("UNANSWERED UNSEEN UNDELETED UNDRAFT SUBJECT \"Report Domain:\"")),
        ),
        (PollState::Searching, PollEvent::Searched(Some(uids))) => if uids.len() > 0 {
            (PollState::Fetching, PollAction::Fetch(uid_set(uids)))
        } else {
            (PollState::LoggingOut, PollAction::Logout)
        },
        (PollState::Searching, PollEvent::Searched(None)) => (PollState::LoggingOut, PollAction::Logout),
        (PollState::Fetching, PollEvent::Fetched) => (PollState::LoggingOut, PollAction::Logout),
        _ => (PollState::Idle, PollAction::Sleep(POLL_INTERVAL_SECS)),
    }
}

} // verus!

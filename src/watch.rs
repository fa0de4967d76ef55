//! Which file-system notifications signal a connection change.
use vstd::prelude::*;

use crate::ConnectionState;
use vstd::string::StringSliceAdditionalSpecFns;

verus! {

/// The marker file whose presence means a mirroring session is active.
pub const MARKER_FILE: &'static str = ".uxplay.dacp";

/// The notification mask bit for "a file was created in the directory".
pub const MASK_CREATE: u32 = 0x100;

/// The notification mask bit for "a file was deleted from the directory".
pub const MASK_DELETE: u32 = 0x200;

pub open spec fn is_marker(name: Seq<u8>) -> bool {
    name == MARKER_FILE.spec_bytes()
}

/// The connection change that a notification about `name` with event bits
/// `mask` signals, if any.
pub open spec fn state_for(name: Option<Seq<u8>>, mask: u32) -> Option<ConnectionState> {
    match name {
        Some(n) => if !is_marker(n) {
            None
        } else if mask & MASK_CREATE != 0 {
            Some(ConnectionState::Connected)
        } else if mask & MASK_DELETE != 0 {
            Some(ConnectionState::Disconnected)
        } else {
            None
        },
        None => None,
    }
}

/// Whether two byte strings are equal.
fn bytes_equal(a: &[u8], b: &[u8]) -> (r: bool)
    ensures
        r == (a@ == b@),
{
    if a.len() != b.len() {
        return false;
    }
    let mut i: usize = 0;
    while i < a.len()
        invariant
            a@.len() == b@.len(),
            i <= a@.len(),
            forall|j: int| 0 <= j < i ==> a@[j] == b@[j],
        decreases a@.len() - i,
    {
        if a[i] != b[i] {
            return false;
        }
        i = i + 1;
    }
    assert(a@ =~= b@);
    true
}

/// Maps one notification (the file name it is about, if any, and its event
/// bits) to the connection change it signals. Only the marker file counts; a
/// creation means connected, a deletion disconnected, anything else nothing.
pub fn classify_event(name: Option<&str>, mask: u32) -> (r: Option<ConnectionState>)
    ensures
        r == classify_event_spec(name, mask),
        name is None ==> r is None,
        name matches Some(n) && !is_marker(n.spec_bytes()) ==> r is None,
        mask & MASK_CREATE == 0 && mask & MASK_DELETE == 0 ==> r is None,
        name matches Some(n) && is_marker(n.spec_bytes()) && mask & MASK_CREATE != 0 ==> r
            == Some(ConnectionState::Connected),
        name matches Some(n) && is_marker(n.spec_bytes()) && mask & MASK_CREATE == 0 && mask
            & MASK_DELETE != 0 ==> r == Some(ConnectionState::Disconnected),
{
    match name {
        Some(n) => {
            if !bytes_equal(n.as_bytes(), MARKER_FILE.as_bytes()) {
                None
            } else if mask & MASK_CREATE != 0 {
                Some(ConnectionState::Connected)
            } else if mask & MASK_DELETE != 0 {
                Some(ConnectionState::Disconnected)
            } else {
                None
            }
        },
        None => None,
    }
}

/// What the watcher forwards for one item of the notification stream: the
/// connection change it signals, if any; a stream error is always forwarded.
pub fn forward_event<E>(event: Result<(Option<&str>, u32), E>) -> (r: Option<
    Result<ConnectionState, E>,
>)
    ensures
        event matches Ok((name, mask)) ==> match classify_event_spec(name, mask) {
            Some(s) => r == Some(Ok::<ConnectionState, E>(s)),
            None => r is None,
        },
        event matches Err(e) ==> r == Some(Err::<ConnectionState, E>(e)),
{
    match event {
        Ok((name, mask)) => match classify_event(name, mask) {
            Some(s) => Some(Ok(s)),
            None => None,
        },
        Err(e) => Some(Err(e)),
    }
}

/// `state_for` on what `classify_event` receives.
pub open spec fn classify_event_spec(name: Option<&str>, mask: u32) -> Option<ConnectionState> {
    state_for(
        match name {
            Some(n) => Some(n.spec_bytes()),
            None => None,
        },
        mask,
    )
}

} // verus!

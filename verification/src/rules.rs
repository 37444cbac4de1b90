//! Creation-time invariants for watchers, and the decisions behind the
//! editability probe: the web layer enforces these before a watcher row is
//! written, so that no two watchers fight over one source and removal is
//! only enabled where the user may delete.

use vstd::prelude::*;

use crate::endpoint::{same_endpoint, PlaylistType};
use crate::error::ClientError;
use crate::ids::UserId;
use crate::schedule::Watcher;

verus! {

/// Whether any of these watchers has removal enabled.
pub open spec fn any_removal(ws: Seq<Watcher>) -> bool {
    exists|i: int| 0 <= i < ws.len() && (#[trigger] ws[i]).should_remove
}

/// Check a new watcher against the watchers that already read from the same
/// source: no self-transfer, at most one watcher may sweep a source, and a
/// sweeping watcher must be its source's only reader. The error text is what
/// the form shows the user.
pub fn validate_new_watcher(
    from: &PlaylistType,
    to: &PlaylistType,
    existing_for_source: &Vec<Watcher>,
    should_remove: bool,
) -> (r: Result<(), String>)
    ensures
        ({
            if same_endpoint(*from, *to) {
                r matches Err(m) && m@
                    == "Cannot create watcher that transfers between the same playlist."@
            } else if any_removal(existing_for_source@) {
                r matches Err(m) && m@
                    == "A watcher with track removal enabled already exists for this playlist."@
            } else if should_remove && existing_for_source@.len() > 0 {
                r matches Err(m) && m@
                    == "A watcher already exists for this playlist. Disable track removal or remove the other watcher."@
            } else {
                r is Ok
            }
        }),
{
    if from == to {
        return Err(
            String::from_str("Cannot create watcher that transfers between the same playlist."),
        );
    }
    if has_removal_watcher(existing_for_source) {
        return Err(
            String::from_str(
                "A watcher with track removal enabled already exists for this playlist.",
            ),
        );
    }
    if should_remove && existing_for_source.len() > 0 {
        return Err(
            String::from_str(
                "A watcher already exists for this playlist. Disable track removal or remove the other watcher.",
            ),
        );
    }
    Ok(())
}

/// Whether any of these watchers has removal enabled.
fn has_removal_watcher(ws: &Vec<Watcher>) -> (r: bool)
    ensures
        r == any_removal(ws@),
{
    let n: usize = ws.len();
    let mut i: usize = 0;
    while i < n
        invariant
            0 <= i <= n,
            n == ws@.len(),
            forall|j: int| 0 <= j < i ==> !(#[trigger] ws@[j]).should_remove,
        decreases n - i,
    {
        if ws[i].should_remove {
            proof {
                assert((ws@[i as int]).should_remove);
            }
            return true;
        }
        i = i + 1;
    }
    false
}

/// Whether the invoking user owns the playlist outright, in which case no
/// probe is needed.
pub fn owner_editable(owner: &UserId, user: &UserId) -> (r: bool)
    ensures
        r == (owner@ == user@),
{
    owner == user
}

/// The verdict of the editability probe — an attempt to rename the playlist
/// to its own name: success means editable, a permission rejection means not
/// editable, and any other failure stands.
pub fn editable_from_update(res: Result<(), ClientError>) -> (r: Result<bool, ClientError>)
    ensures
        match res {
            Ok(_) => r matches Ok(b) && b,
            Err(e) => {
                if e matches ClientError::ApiError { status, message: _ } && status == 403 {
                    r matches Ok(b) && !b
                } else {
                    r matches Err(e2) && e2 == e
                }
            },
        },
{
    match res {
        Ok(_) => Ok(true),
        Err(ClientError::ApiError { status, message }) => {
            if status == 403 {
                Ok(false)
            } else {
                Err(ClientError::ApiError { status, message })
            }
        },
        Err(e) => Err(e),
    }
}

/// Whether a failed editability probe means the source playlist does not
/// exist: the remote API answers with a bad-gateway status for a missing
/// playlist.
pub fn probe_says_playlist_missing(e: &ClientError) -> (r: bool)
    ensures
        r == (e matches ClientError::ApiError { status, message: _ } && status == 502),
{
    match e {
        ClientError::ApiError { status, message: _ } => *status == 502,
        _ => false,
    }
}

} // verus!

//! Hand-off of display requests to the renderer over a bounded channel.
//! Sending never waits: when the channel is full the request is dropped and
//! reported, and the cursor move that produced it stands.
use vstd::prelude::*;

use futures::channel::mpsc::Sender;

use crate::record::ImageRecord;

verus! {

#[verifier::external_type_specification]
#[verifier::external_body]
#[verifier::reject_recursive_types(T)]
pub struct ExSender<T>(Sender<T>);

/// What became of a display request.
#[derive(Clone, Copy, Debug, PartialEq, Eq, Structural)]
pub enum DisplayStatus {
    /// The path was queued for the renderer.
    Queued,
    /// The channel was full; the request was dropped.
    Backlog,
    /// The renderer's end of the channel is gone; the request was dropped.
    RendererGone,
    /// The library is empty, so nothing was sent.
    NothingToShow,
}

/// Relies on `futures::channel::mpsc::Sender::try_send`, which never waits:
/// it queues the message, or fails with an error that tells a full channel
/// (`is_full`) from a closed one.
#[verifier::external_body]
fn try_send_path(sender: &mut Sender<String>, path: String) -> (r: DisplayStatus)
    ensures
        r != DisplayStatus::NothingToShow,
{
    match sender.try_send(path) {
        Ok(()) => DisplayStatus::Queued,
        Err(e) => if e.is_full() {
            DisplayStatus::Backlog
        } else {
            DisplayStatus::RendererGone
        },
    }
}

/// The display request for `shown`: its image path, or nothing when the
/// library is empty.
pub fn display_request(shown: &Option<ImageRecord>) -> (r: Option<String>)
    ensures
        match shown {
            Some(rec) => r is Some && r->Some_0@ == rec.image_path@,
            None => r is None,
        },
{
    match shown {
        Some(rec) => Some(rec.image_path.clone()),
        None => None,
    }
}

/// Asks the renderer to show `shown`, the record now under the cursor, by
/// sending the path that `display_request` gives, unchanged and without
/// waiting. With no record nothing is sent and the sender is left as it was.
/// Whether a request is queued depends on the channel's state at that
/// moment; the outcome is reported, never retried.
pub fn dispatch_current(sender: &mut Sender<String>, shown: &Option<ImageRecord>) -> (r: DisplayStatus)
    ensures
        shown is None <==> r == DisplayStatus::NothingToShow,
        shown is None ==> *final(sender) == *old(sender),
{
    match display_request(shown) {
        Some(path) => try_send_path(sender, path),
        None => DisplayStatus::NothingToShow,
    }
}

} // verus!

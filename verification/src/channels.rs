//! The signal channels, taken from `futures`.
//!
//! Reload signals travel over an unbounded multi-producer channel; the stop
//! signal over a one-shot channel. The contracts below model, per receiver,
//! the queue of tokens that this crate itself has sent while it still held
//! that receiver; a token sent after the receiver has been handed out is not
//! modelled, so of such sends only the delivery report is stated.

use vstd::prelude::*;

use futures::channel::mpsc::{UnboundedReceiver, UnboundedSender};
use futures::channel::oneshot;

verus! {

#[verifier::external_type_specification]
#[verifier::external_body]
#[verifier::reject_recursive_types(T)]
pub struct ExUnboundedSender<T>(UnboundedSender<T>);

#[verifier::external_type_specification]
#[verifier::external_body]
#[verifier::reject_recursive_types(T)]
pub struct ExUnboundedReceiver<T>(UnboundedReceiver<T>);

#[verifier::external_type_specification]
#[verifier::external_body]
#[verifier::reject_recursive_types(T)]
pub struct ExOneshotSender<T>(oneshot::Sender<T>);

#[verifier::external_type_specification]
#[verifier::external_body]
#[verifier::reject_recursive_types(T)]
pub struct ExOneshotReceiver<T>(oneshot::Receiver<T>);

#[verifier::external_type_specification]
#[verifier::external_body]
pub struct ExCanceled(oneshot::Canceled);

/// Whether `tx` sends to the live channel that `rx` receives from.
pub uninterp spec fn reload_pair(tx: UnboundedSender<()>, rx: UnboundedReceiver<()>) -> bool;

/// The reload tokens this crate enqueued while holding `rx`, oldest first.
pub uninterp spec fn reload_contents(rx: UnboundedReceiver<()>) -> Seq<()>;

/// Whether `tx` is the one-shot sender belonging to the receiver `rx`.
pub uninterp spec fn stop_pair(tx: oneshot::Sender<()>, rx: oneshot::Receiver<()>) -> bool;

/// The stop token this crate sent while holding `rx`: empty or one token.
pub uninterp spec fn stop_contents(rx: oneshot::Receiver<()>) -> Seq<()>;

/// Relies on `futures::channel::mpsc::unbounded`: a fresh connected pair whose
/// queue is empty.
#[verifier::external_body]
pub(crate) fn new_reload_channel() -> (r: (UnboundedSender<()>, UnboundedReceiver<()>))
    ensures
        reload_pair(r.0, r.1),
        reload_contents(r.1) == Seq::<()>::empty(),
{
    futures::channel::mpsc::unbounded()
}

/// Relies on `futures::channel::mpsc::UnboundedSender::unbounded_send`: on an
/// unbounded channel a send fails only when the receiver was dropped or
/// closed, and a sent token is queued behind the tokens already sent.
#[verifier::external_body]
pub(crate) fn send_reload_local(tx: &UnboundedSender<()>, rx: &mut UnboundedReceiver<()>)
    requires
        reload_pair(*tx, *old(rx)),
    ensures
        reload_pair(*tx, *final(rx)),
        reload_contents(*final(rx)) == reload_contents(*old(rx)).push(()),
{
    let _ = tx.unbounded_send(());
}

/// Relies on `futures::channel::mpsc::UnboundedSender::unbounded_send`: the
/// send is reported as delivered unless the receiving end is gone.
#[verifier::external_body]
pub(crate) fn send_reload_remote(tx: &UnboundedSender<()>) -> (delivered: bool) {
    tx.unbounded_send(()).is_ok()
}

/// Relies on `futures::channel::mpsc::UnboundedReceiver::try_recv`: queued
/// tokens come out first-in first-out, one per call.
#[verifier::external_body]
pub(crate) fn recv_reload_now(rx: &mut UnboundedReceiver<()>) -> (r: Option<()>)
    ensures
        reload_contents(*old(rx)).len() > 0 ==> r == Some(()) && reload_contents(*final(rx))
            == reload_contents(*old(rx)).drop_first(),
        reload_contents(*old(rx)).len() == 0 ==> reload_contents(*final(rx)) == reload_contents(
            *old(rx),
        ),
{
    match rx.try_recv() {
        Ok(t) => Some(t),
        Err(_) => None,
    }
}

/// Relies on `futures::channel::oneshot::channel`: a fresh connected pair with
/// nothing sent yet.
#[verifier::external_body]
pub(crate) fn new_stop_channel() -> (r: (oneshot::Sender<()>, oneshot::Receiver<()>))
    ensures
        stop_pair(r.0, r.1),
        stop_contents(r.1) == Seq::<()>::empty(),
{
    futures::channel::oneshot::channel()
}

/// Relies on `futures::channel::oneshot::Sender::send`: with the receiver
/// still alive the value is stored for it, and consuming the only sender
/// completes the channel.
#[verifier::external_body]
pub(crate) fn send_stop_local(tx: oneshot::Sender<()>, rx: &mut oneshot::Receiver<()>)
    requires
        stop_pair(tx, *old(rx)),
        stop_contents(*old(rx)).len() == 0,
    ensures
        stop_contents(*final(rx)) == stop_contents(*old(rx)).push(()),
{
    let _ = tx.send(());
}

/// Relies on `futures::channel::oneshot::Sender::send`: the send is reported
/// as delivered unless the receiving end is gone.
#[verifier::external_body]
pub(crate) fn send_stop_remote(tx: oneshot::Sender<()>) -> (delivered: bool) {
    tx.send(()).is_ok()
}

/// Relies on `futures::channel::oneshot::Receiver::try_recv`: a stored value
/// is returned once the channel is complete, and is returned only once.
#[verifier::external_body]
pub(crate) fn recv_stop_now(rx: &mut oneshot::Receiver<()>) -> (r: Option<()>)
    ensures
        stop_contents(*old(rx)).len() > 0 ==> r == Some(()),
        stop_contents(*final(rx)) == Seq::<()>::empty(),
{
    match rx.try_recv() {
        Ok(t) => t,
        Err(_) => None,
    }
}

} // verus!

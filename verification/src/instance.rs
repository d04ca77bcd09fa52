//! The run controller's instance: one configured service, at most one run.
//!
//! An [`Instance`] holds the constructed service and the endpoints of the two
//! signal channels in consumable slots. `begin_run` atomically drains the
//! service, the reload receiver and the stop receiver — exactly once per
//! instance — and hands them out as [`RunParts`]; the caller then runs the
//! service off its own execution context, racing the run's completion against
//! the stop signal, and settles the attempt with [`conclude_run`].

use vstd::prelude::*;

use futures::channel::mpsc::{UnboundedReceiver, UnboundedSender};
use futures::channel::oneshot;

use crate::channels::{
    new_reload_channel, new_stop_channel, recv_reload_now, recv_stop_now, reload_contents,
    reload_pair, send_reload_local, send_reload_remote, send_stop_local, send_stop_remote,
    stop_contents, stop_pair,
};
use crate::errors::{SignalError, SpawnError, StopError};

verus! {

/// One configured, at-most-once-spawnable handle to the underlying service.
pub struct Instance<S> {
    service: Option<S>,
    reload_tx: UnboundedSender<()>,
    reload_rx: Option<UnboundedReceiver<()>>,
    stop_tx: Option<oneshot::Sender<()>>,
    stop_rx: Option<oneshot::Receiver<()>>,
}

/// What a successful spawn takes out of the instance: the service itself and
/// the receiving ends of both signal channels.
pub struct RunParts<S> {
    pub service: S,
    pub reload_rx: UnboundedReceiver<()>,
    pub stop_rx: oneshot::Receiver<()>,
}

impl<S> Instance<S> {
    /// The run parts have not been taken yet: a spawn can still succeed.
    pub closed spec fn spawnable(self) -> bool {
        self.service is Some
    }

    /// The one-shot stop sender has been consumed by a `stop` call.
    pub closed spec fn stop_taken(self) -> bool {
        self.stop_tx is None
    }

    /// The reload tokens queued for a run that has not started yet.
    pub closed spec fn backlog(self) -> Seq<()> {
        match self.reload_rx {
            Some(rx) => reload_contents(rx),
            None => Seq::<()>::empty(),
        }
    }

    /// The service waiting in its slot, if it has not been taken.
    pub closed spec fn service_slot(self) -> Option<S> {
        self.service
    }

    /// A stop token is waiting in the not-yet-taken stop receiver.
    pub closed spec fn stop_pending(self) -> bool {
        match self.stop_rx {
            Some(rx) => stop_contents(rx).len() == 1,
            None => false,
        }
    }

    /// The slot invariant: the three run parts are present or absent
    /// together, in-slot endpoints belong to this instance's channels, and
    /// the stop receiver holds a token exactly when `stop` already consumed
    /// the sender.
    pub closed spec fn wf(self) -> bool {
        &&& (self.service is Some <==> self.reload_rx is Some)
        &&& (self.service is Some <==> self.stop_rx is Some)
        &&& (match self.reload_rx {
            Some(rx) => reload_pair(self.reload_tx, rx),
            None => true,
        })
        &&& (match (self.stop_tx, self.stop_rx) {
            (Some(tx), Some(rx)) => stop_pair(tx, rx),
            _ => true,
        })
        &&& (match self.stop_rx {
            Some(rx) => stop_contents(rx).len() == (
            if self.stop_tx is Some {
                0int
            } else {
                1int
            }),
            None => true,
        })
    }

    /// Freshly created: spawnable, never stopped, no reload queued.
    pub open spec fn fresh(self) -> bool {
        &&& self.spawnable()
        &&& !self.stop_taken()
        &&& self.backlog() == Seq::<()>::empty()
    }

    /// Wraps a constructed service into a fresh instance, allocating the
    /// reload channel and the one-shot stop channel.
    pub fn create(service: S) -> (inst: Instance<S>)
        ensures
            inst.wf(),
            inst.fresh(),
            !inst.stop_pending(),
            inst.service_slot() == Some(service),
    {
        let (reload_tx, reload_rx) = new_reload_channel();
        let (stop_tx, stop_rx) = new_stop_channel();
        Instance {
            service: Some(service),
            reload_tx,
            reload_rx: Some(reload_rx),
            stop_tx: Some(stop_tx),
            stop_rx: Some(stop_rx),
        }
    }

    /// Attempts to take the run parts: the single atomic decision point of
    /// `spawn`. Succeeds exactly once per instance; a second attempt fails
    /// with `AlreadySpawned` and has no side effect. The parts carry every
    /// reload token queued so far and the stop token if `stop` came first.
    pub fn begin_run(&mut self) -> (r: Result<RunParts<S>, SpawnError>)
        requires
            old(self).wf(),
        ensures
            final(self).wf(),
            r is Ok <==> old(self).spawnable(),
            r is Err ==> (r matches Err(e) && e is AlreadySpawned && *final(self) == *old(self)),
            r matches Ok(parts) ==> Some(parts.service) == old(self).service_slot(),
            r matches Ok(parts) ==> reload_contents(parts.reload_rx) == old(self).backlog(),
            r matches Ok(parts) ==> stop_contents(parts.stop_rx).len() == (
            if old(self).stop_taken() {
                1int
            } else {
                0int
            }),
            r is Ok ==> !final(self).spawnable(),
            final(self).stop_taken() == old(self).stop_taken(),
    {
        match self.service.take() {
            None => Err(SpawnError::AlreadySpawned),
            Some(service) => {
                let reload_rx = self.reload_rx.take().unwrap();
                let stop_rx = self.stop_rx.take().unwrap();
                Ok(RunParts { service, reload_rx, stop_rx })
            },
        }
    }

    /// Sends one reload token. Before a spawn has taken the receiver the
    /// token is queued — none is ever dropped; afterwards it is delivered to
    /// the running service, and the only possible failure is `NoActiveRun`,
    /// reported when the receiving end is already gone.
    pub fn reload(&mut self) -> (r: Result<(), SignalError>)
        requires
            old(self).wf(),
        ensures
            final(self).wf(),
            final(self).spawnable() == old(self).spawnable(),
            final(self).stop_taken() == old(self).stop_taken(),
            final(self).service_slot() == old(self).service_slot(),
            old(self).spawnable() ==> r is Ok && final(self).backlog() == old(self).backlog().push(
                (),
            ),
            !old(self).spawnable() ==> (r is Ok || (r matches Err(e) && e is NoActiveRun))
                && final(self).backlog() == old(self).backlog(),
    {
        match self.reload_rx.take() {
            Some(mut rx) => {
                send_reload_local(&self.reload_tx, &mut rx);
                self.reload_rx = Some(rx);
                Ok(())
            },
            None => {
                if send_reload_remote(&self.reload_tx) {
                    Ok(())
                } else {
                    Err(SignalError::NoActiveRun)
                }
            },
        }
    }

    /// Consumes the one-shot stop sender and sends the stop signal. The
    /// first call takes the sender; any later call fails with
    /// `AlreadyStopped`. Sent before the spawn takes the receiver, the token
    /// is kept for the coming run; sent after, the only possible failure is
    /// `NoActiveRun`, when the run is already over.
    pub fn stop(&mut self) -> (r: Result<(), StopError>)
        requires
            old(self).wf(),
        ensures
            final(self).wf(),
            final(self).spawnable() == old(self).spawnable(),
            final(self).service_slot() == old(self).service_slot(),
            final(self).backlog() == old(self).backlog(),
            final(self).stop_taken(),
            (r matches Err(e) && e is AlreadyStopped) <==> old(self).stop_taken(),
            old(self).stop_taken() ==> *final(self) == *old(self),
            !old(self).stop_taken() && old(self).spawnable() ==> r is Ok
                && final(self).stop_pending(),
            !old(self).stop_taken() && !old(self).spawnable() ==> (r is Ok || (r matches Err(e)
                && e is NoActiveRun)),
    {
        match self.stop_tx.take() {
            None => Err(StopError::AlreadyStopped),
            Some(tx) => {
                match self.stop_rx.take() {
                    Some(mut rx) => {
                        send_stop_local(tx, &mut rx);
                        self.stop_rx = Some(rx);
                        Ok(())
                    },
                    None => {
                        if send_stop_remote(tx) {
                            Ok(())
                        } else {
                            Err(StopError::NoActiveRun)
                        }
                    },
                }
            },
        }
    }
}

impl<S> RunParts<S> {
    /// Takes the oldest queued reload token, if one is queued.
    pub fn take_reload(&mut self) -> (r: Option<()>)
        ensures
            reload_contents(old(self).reload_rx).len() > 0 ==> r == Some(()) && reload_contents(
                final(self).reload_rx,
            ) == reload_contents(old(self).reload_rx).drop_first(),
            reload_contents(old(self).reload_rx).len() == 0 ==> reload_contents(
                final(self).reload_rx,
            ) == reload_contents(old(self).reload_rx),
            final(self).service == old(self).service,
            final(self).stop_rx == old(self).stop_rx,
    {
        recv_reload_now(&mut self.reload_rx)
    }

    /// Reports whether the stop signal has arrived; a token kept from an
    /// early `stop` is always seen.
    pub fn stop_arrived(&mut self) -> (r: bool)
        ensures
            stop_contents(old(self).stop_rx).len() > 0 ==> r,
            stop_contents(final(self).stop_rx) == Seq::<()>::empty(),
            final(self).service == old(self).service,
            final(self).reload_rx == old(self).reload_rx,
    {
        match recv_stop_now(&mut self.stop_rx) {
            Some(_) => true,
            None => false,
        }
    }
}

/// Law: a fresh instance — as `create` returns it — still admits its first
/// spawn, and a run that then completes successfully settles that spawn with
/// success; `begin_run`'s contract makes the success of the take exact, so
/// the first spawn of a fresh instance succeeds and, having consumed the
/// slots, can never succeed again.
pub proof fn lemma_first_spawn_succeeds<S>(inst: Instance<S>)
    requires
        inst.wf(),
        inst.fresh(),
    ensures
        inst.spawnable(),
        run_verdict(RunEnd::Completed(Ok(()))) == Ok::<(), SpawnError>(()),
{
}

/// Law: an early stop is not lost — once `stop` has consumed the one-shot
/// sender while the run parts are still in their slots, a stop token waits in
/// the stop receiver, so the run that eventually starts finds the race
/// already resolved towards stopping.
pub proof fn lemma_early_stop_is_kept<S>(inst: Instance<S>)
    requires
        inst.wf(),
        inst.spawnable(),
        inst.stop_taken(),
    ensures
        inst.stop_pending(),
{
}

/// Law: the stop signal is one-shot — whenever a stop token waits in the
/// receiver, the sender is already consumed, so by `stop`'s contract every
/// further `stop` call fails with `AlreadyStopped`: no second token can ever
/// be sent, and the one-shot is never consumed twice.
pub proof fn lemma_stop_is_one_shot<S>(inst: Instance<S>)
    requires
        inst.wf(),
        inst.stop_pending(),
    ensures
        inst.stop_taken(),
{
}

/// How a spawn attempt ended, as observed by the caller running the race.
pub enum RunEnd {
    /// The DNS resolver could not be built; the run never started.
    ResolverFailed(String),
    /// The stop signal arrived before the run completed; the run is
    /// abandoned, not aborted.
    Stopped,
    /// The run completed on its own, successfully or with an error message.
    Completed(Result<(), String>),
}

/// The verdict of a spawn attempt: a stop that wins the race is a clean,
/// successful termination; a run error is carried through; a resolver
/// failure is fatal for the attempt.
pub open spec fn run_verdict(end: RunEnd) -> Result<(), SpawnError> {
    match end {
        RunEnd::ResolverFailed(m) => Err(SpawnError::ResolverInit(m)),
        RunEnd::Stopped => Ok(()),
        RunEnd::Completed(outcome) => match outcome {
            Ok(u) => Ok(()),
            Err(m) => Err(SpawnError::Run(m)),
        },
    }
}

/// Settles a spawn attempt, translating how the race ended into the
/// spawn's result.
pub fn conclude_run(end: RunEnd) -> (r: Result<(), SpawnError>)
    ensures
        r == run_verdict(end),
{
    match end {
        RunEnd::ResolverFailed(m) => Err(SpawnError::ResolverInit(m)),
        RunEnd::Stopped => Ok(()),
        RunEnd::Completed(outcome) => match outcome {
            Ok(_) => Ok(()),
            Err(m) => Err(SpawnError::Run(m)),
        },
    }
}

} // verus!

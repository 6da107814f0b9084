//! Cancellation tokens and the single slot that holds the token of the job
//! currently running for one kind of work.

use vstd::prelude::*;

verus! {

/// Declares `tokio::sync::watch::Sender`. Nothing inside it is visible.
#[verifier::external_type_specification]
#[verifier::external_body]
#[verifier::reject_recursive_types(T)]
pub struct ExWatchSender<T>(tokio::sync::watch::Sender<T>);

/// Declares `tokio::sync::watch::Receiver`. Nothing inside it is visible.
#[verifier::external_type_specification]
#[verifier::external_body]
#[verifier::reject_recursive_types(T)]
pub struct ExWatchReceiver<T>(tokio::sync::watch::Receiver<T>);

/// `tokio::sync::watch::channel`, opened with the value given. The two ends
/// are new with every call, so nothing is claimed of them.
#[verifier::external_body]
fn open_channel(first: bool) -> (r: (
    tokio::sync::watch::Sender<bool>,
    tokio::sync::watch::Receiver<bool>,
)) {
    tokio::sync::watch::channel(first)
}

/// `Sender::send` with the value given. The answer says whether a receiver
/// was still there; nothing is claimed of it.
#[verifier::external_body]
fn send_value(tx: &tokio::sync::watch::Sender<bool>, value: bool) -> (delivered: bool) {
    tx.send(value).is_ok()
}

/// `Receiver::borrow`: the value most recently sent. It lives in the channel,
/// not in the receiver, so nothing is claimed of it.
#[verifier::external_body]
fn read_fired(rx: &tokio::sync::watch::Receiver<bool>) -> (fired: bool) {
    *rx.borrow()
}

/// The kinds of work, each with a slot of its own.
#[derive(Clone, Copy, Debug, PartialEq, Eq, Structural)]
pub enum JobKind {
    Image,
    Video,
    Download,
}

/// Where a token stands. `Unset` is a slot without a token.
#[derive(Clone, Copy, Debug, PartialEq, Eq, Structural)]
pub enum TokenState {
    Unset,
    Active,
    Fired,
}

/// The writing end of a token.
pub struct CancelSignaler {
    tx: tokio::sync::watch::Sender<bool>,
    fired: bool,
}

/// The reading end of a token. The job's supervisor waits on `rx`.
pub struct CancelObserver {
    pub rx: tokio::sync::watch::Receiver<bool>,
}

impl CancelSignaler {
    /// The sending end of the channel that carries the token.
    pub closed spec fn sender(&self) -> tokio::sync::watch::Sender<bool> {
        self.tx
    }

    pub closed spec fn state(&self) -> TokenState {
        if self.fired {
            TokenState::Fired
        } else {
            TokenState::Active
        }
    }

    /// Whether the token was fired.
    pub fn is_fired(&self) -> (r: bool)
        ensures
            r == (self.state() == TokenState::Fired),
    {
        self.fired
    }

    /// Fires the token. Firing a fired token changes nothing.
    pub fn fire(&mut self)
        ensures
            final(self).state() == TokenState::Fired,
            final(self).sender() == old(self).sender(),
            old(self).state() == TokenState::Fired ==> *final(self) == *old(self),
    {
        if !self.fired {
            let _ = send_value(&self.tx, true);
            self.fired = true;
        }
    }
}

impl CancelObserver {
    /// Whether the token was fired, as far as the channel has it now.
    pub fn is_fired(&self) -> bool {
        read_fired(&self.rx)
    }
}

/// The token that two ends of a channel carry: an active signaler over the
/// sending end and an observer over the receiving end.
pub fn token_over(
    tx: tokio::sync::watch::Sender<bool>,
    rx: tokio::sync::watch::Receiver<bool>,
) -> (r: (CancelSignaler, CancelObserver))
    ensures
        r.0.sender() == tx,
        r.0.state() == TokenState::Active,
        r.1.rx == rx,
{
    (CancelSignaler { tx, fired: false }, CancelObserver { rx })
}

/// A fresh token: an active signaler and its observer, over the two ends of
/// a channel that is opened unfired.
pub fn create() -> (r: (CancelSignaler, CancelObserver))
    ensures
        r.0.state() == TokenState::Active,
{
    let (tx, rx) = open_channel(false);
    token_over(tx, rx)
}

/// What a request to cancel found.
#[derive(Clone, Copy, Debug, PartialEq, Eq, Structural)]
pub enum CancelOutcome {
    /// A token was registered; it has been fired and the slot is empty.
    Fired,
    /// No job of this kind was running.
    NothingToCancel,
}

/// The slot of one job kind. It holds the signaler of the job that runs, if
/// one does.
pub struct JobSlot {
    current: Option<CancelSignaler>,
}

impl JobSlot {
    /// The signaler in the slot.
    pub closed spec fn token(&self) -> Option<CancelSignaler> {
        self.current
    }

    /// The state of the token in the slot.
    pub open spec fn state(&self) -> TokenState {
        match self.token() {
            Some(s) => s.state(),
            None => TokenState::Unset,
        }
    }

    /// A job is registered when the slot holds a token.
    pub open spec fn is_active(&self) -> bool {
        self.token() is Some
    }

    pub fn new() -> (r: JobSlot)
        ensures
            r.token() is None,
    {
        JobSlot { current: None }
    }

    /// Whether a job is registered.
    pub fn active(&self) -> (r: bool)
        ensures
            r == self.is_active(),
    {
        self.current.is_some()
    }

    /// Puts `fresh` into the slot and hands back what was there, so that the
    /// caller can fire the outgoing token before letting it go.
    pub fn take_and_replace(&mut self, fresh: CancelSignaler) -> (previous: Option<CancelSignaler>)
        ensures
            final(self).token() == Some(fresh),
            previous == old(self).token(),
    {
        let mut incoming = Some(fresh);
        core::mem::swap(&mut self.current, &mut incoming);
        incoming
    }

    /// Starts a job of this kind: a fresh active token takes the slot. A token
    /// that was still there is fired, so that the job it belonged to ends as
    /// cancelled, and is handed back beside the observer of the new one.
    pub fn register(&mut self) -> (r: (CancelObserver, Option<CancelSignaler>))
        ensures
            final(self).is_active(),
            final(self).state() == TokenState::Active,
            r.1 is Some <==> old(self).is_active(),
            r.1 is Some ==> r.1->0.state() == TokenState::Fired && r.1->0.sender() == old(
                self,
            ).token()->0.sender(),
    {
        let (signaler, observer) = create();
        let outgoing = match self.take_and_replace(signaler) {
            Some(mut outgoing) => {
                outgoing.fire();
                Some(outgoing)
            },
            None => None,
        };
        (observer, outgoing)
    }

    /// Empties the slot when the job is over; the token is not fired.
    pub fn clear(&mut self)
        ensures
            final(self).token() is None,
    {
        self.current = None;
    }

    /// Cancels the job of this kind: its token is taken out of the slot,
    /// fired, and handed back. With an empty slot nothing happens at all, and
    /// that is what is reported.
    pub fn cancel(&mut self) -> (r: Cancellation)
        ensures
            cancels(*old(self), *final(self), r),
    {
        let mut taken: Option<CancelSignaler> = None;
        core::mem::swap(&mut self.current, &mut taken);
        match taken {
            Some(mut signaler) => {
                signaler.fire();
                Cancellation { outcome: CancelOutcome::Fired, fired: Some(signaler) }
            },
            None => Cancellation { outcome: CancelOutcome::NothingToCancel, fired: None },
        }
    }
}

/// What a request to cancel found and did.
pub struct Cancellation {
    pub outcome: CancelOutcome,
    /// The signaler of the job that was cancelled, fired.
    pub fired: Option<CancelSignaler>,
}

/// What a cancel does to a slot. Where a token was registered, that token is
/// fired and handed back, the slot is left empty and `Fired` is reported.
/// Where none was, `NothingToCancel` is reported and the slot is as it was.
pub open spec fn cancels(before: JobSlot, after: JobSlot, r: Cancellation) -> bool {
    &&& after.token() is None
    &&& (r.outcome == CancelOutcome::NothingToCancel <==> !before.is_active())
    &&& (r.outcome == CancelOutcome::Fired <==> before.is_active())
    &&& before.is_active() ==> {
        &&& r.fired is Some
        &&& r.fired->0.state() == TokenState::Fired
        &&& r.fired->0.sender() == before.token()->0.sender()
    }
    &&& !before.is_active() ==> r.fired is None && after == before
}

/// The answer to a request to cancel an image job.
#[derive(Debug)]
pub struct CancelReply {
    pub success: bool,
    pub message: Option<String>,
    pub error: Option<String>,
}

/// Cancels the image job, if one runs: its token is fired and handed back
/// beside the answer, which says whether there was a job to cancel.
pub fn generate_cancel(slot: &mut JobSlot) -> (r: (CancelReply, Cancellation))
    ensures
        cancels(*old(slot), *final(slot), r.1),
        r.0.success == old(slot).is_active(),
        old(slot).is_active() ==> r.0.error is None && r.0.message is Some && r.0.message->0@
            == "Generation cancelled"@,
        !old(slot).is_active() ==> r.0.message is None && r.0.error is Some && r.0.error->0@
            == "No generation in progress"@,
{
    let done = slot.cancel();
    let reply = match done.outcome {
        CancelOutcome::Fired => CancelReply {
            success: true,
            message: Some("Generation cancelled".to_string()),
            error: None,
        },
        CancelOutcome::NothingToCancel => CancelReply {
            success: false,
            message: None,
            error: Some("No generation in progress".to_string()),
        },
    };
    (reply, done)
}

/// Cancels the video job, if one runs, and reports what it found.
pub fn generate_video_cancel(slot: &mut JobSlot) -> (r: Cancellation)
    ensures
        cancels(*old(slot), *final(slot), r),
{
    slot.cancel()
}

/// Cancels the model download, if one runs, and reports what it found.
pub fn models_cancel_download(slot: &mut JobSlot) -> (r: Cancellation)
    ensures
        cancels(*old(slot), *final(slot), r),
{
    slot.cancel()
}

/// Cancels the engine download, if one runs, and reports what it found.
pub fn sdcpp_cancel_download(slot: &mut JobSlot) -> (r: Cancellation)
    ensures
        cancels(*old(slot), *final(slot), r),
{
    slot.cancel()
}

} // verus!

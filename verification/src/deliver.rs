use crossbeam_channel::{Receiver, RecvError, SendError, Sender, TryRecvError};
use vstd::prelude::*;

use crate::ReadbackError;

verus! {

#[verifier::external_type_specification]
#[verifier::external_body]
#[verifier::reject_recursive_types(T)]
pub struct ExSender<T>(Sender<T>);

#[verifier::external_type_specification]
#[verifier::external_body]
#[verifier::reject_recursive_types(T)]
pub struct ExReceiver<T>(Receiver<T>);

#[verifier::external_type_specification]
pub struct ExSendError<T>(SendError<T>);

#[verifier::external_type_specification]
pub struct ExRecvError(RecvError);

#[verifier::external_type_specification]
pub struct ExTryRecvError(TryRecvError);

/// Relies on crossbeam_channel::unbounded: a first-in-first-out conduit for
/// one sender and one receiver; a send never waits for the receiver.
pub assume_specification<T>[ crossbeam_channel::unbounded::<T> ]() -> (pair: (
    Sender<T>,
    Receiver<T>,
));

/// Relies on crossbeam_channel::Sender::send: it fails only when every
/// receiver is gone, and a failure hands the unsent message back.
pub assume_specification<T>[ Sender::<T>::send ](s: &Sender<T>, msg: T) -> (r: Result<
    (),
    SendError<T>,
>)
    ensures
        r matches Err(e) ==> e.0 == msg,
;

/// Relies on crossbeam_channel::Receiver::recv: it waits for a message and
/// fails only when the channel is empty and every sender is gone.
pub assume_specification<T>[ Receiver::<T>::recv ](r: &Receiver<T>) -> (res: Result<T, RecvError>);

/// Relies on crossbeam_channel::Receiver::try_recv: it never waits, and
/// tells an empty channel apart from an abandoned one.
pub assume_specification<T>[ Receiver::<T>::try_recv ](r: &Receiver<T>) -> (res: Result<
    T,
    TryRecvError,
>);

/// The render-side end of the delivery channel: one owned byte buffer per
/// enabled request per frame goes in here.
pub struct RenderWorldSender(pub Sender<Vec<u8>>);

/// The consumer-side end of the delivery channel.
pub struct MainWorldReceiver(pub Receiver<Vec<u8>>);

/// Builds the delivery channel pair: unbounded depth, send order kept.
pub fn delivery_channel() -> (ends: (RenderWorldSender, MainWorldReceiver)) {
    let (s, r) = crossbeam_channel::unbounded::<Vec<u8>>();
    (RenderWorldSender(s), MainWorldReceiver(r))
}

/// What became of one frame's handoff to the consumer.
#[derive(Clone, Copy, PartialEq, Eq, Structural, Debug)]
pub enum DeliverOutcome {
    /// The bytes were accepted by the channel.
    Delivered,
    /// The consumer end was already gone. This is an ordinary shutdown
    /// race, not an error: the frame is dropped silently.
    ChannelClosed,
}

/// Hands one frame's bytes to the consumer. A consumer that was torn down
/// first refuses the send; that refusal is swallowed here — reported in the
/// outcome, never a panic — because the producer may outlive the consumer
/// during an ordinary shutdown.
pub fn send_image_bytes(sender: &RenderWorldSender, bytes: Vec<u8>) -> (out: DeliverOutcome) {
    match sender.0.send(bytes) {
        Ok(_) => DeliverOutcome::Delivered,
        Err(_) => DeliverOutcome::ChannelClosed,
    }
}

/// Waits for the next delivered frame; fails with `ChannelClosed` exactly
/// when the channel is empty and the render side is gone.
pub fn receive_frame_blocking(receiver: &MainWorldReceiver) -> (r: Result<Vec<u8>, ReadbackError>)
    ensures
        r matches Err(e) ==> e == ReadbackError::ChannelClosed,
{
    match receiver.0.recv() {
        Ok(bytes) => Ok(bytes),
        Err(_) => Err(ReadbackError::ChannelClosed),
    }
}

/// Polls for a delivered frame without waiting: a frame, nothing yet, or
/// `ChannelClosed` when the render side is gone and nothing is queued.
pub fn try_receive_frame(receiver: &MainWorldReceiver) -> (r: Result<
    Option<Vec<u8>>,
    ReadbackError,
>)
    ensures
        r matches Err(e) ==> e == ReadbackError::ChannelClosed,
{
    match receiver.0.try_recv() {
        Ok(bytes) => Ok(Some(bytes)),
        Err(TryRecvError::Empty) => Ok(None),
        Err(TryRecvError::Disconnected) => Err(ReadbackError::ChannelClosed),
    }
}

/// Where one request stands in its per-frame map-and-deliver sequence.
#[derive(Clone, Copy, PartialEq, Eq, Structural, Debug)]
pub enum CyclePhase {
    /// The staging buffer is unmapped and reusable; nothing is in flight.
    Idle,
    /// An asynchronous map of the full buffer has been requested; the
    /// device will report completion through its callback.
    MapPending,
    /// The map succeeded: the buffer's bytes are CPU-visible.
    Mapped,
    /// The mapped bytes have been copied into an owned buffer; the mapped
    /// view is no longer needed.
    Copied,
    /// The owned bytes were offered to the delivery channel (accepted or
    /// refused by a departed consumer — either way the handoff is over).
    Sent,
    /// The device reported the map as failed; nothing was mapped, so
    /// nothing may be read or unmapped this frame.
    Failed,
}

/// The per-request protocol of the map-and-deliver stage. Each request owns
/// its staging buffer, and its sequence — map, wait, copy out, send, unmap —
/// is strictly sequential: these transitions refuse every other order, so a
/// buffer is never read after unmap, never unmapped twice, and never
/// unmapped before its bytes were copied out.
pub struct ReadbackCycle {
    phase: CyclePhase,
}

impl ReadbackCycle {
    pub closed spec fn spec_phase(&self) -> CyclePhase {
        self.phase
    }

    /// A fresh cycle: buffer unmapped, nothing in flight.
    pub fn new() -> (c: ReadbackCycle)
        ensures
            c.spec_phase() == CyclePhase::Idle,
    {
        ReadbackCycle { phase: CyclePhase::Idle }
    }

    pub fn current_phase(&self) -> (p: CyclePhase)
        ensures
            p == self.spec_phase(),
    {
        self.phase
    }

    /// The asynchronous map of the staging buffer's full range was just
    /// requested; only an idle buffer may be mapped.
    pub fn request_map(&mut self)
        requires
            old(self).spec_phase() == CyclePhase::Idle,
        ensures
            final(self).spec_phase() == CyclePhase::MapPending,
    {
        self.phase = CyclePhase::MapPending;
    }

    /// The device's callback fired: the map either succeeded or failed.
    /// A failed map is `MapFailed`, fatal for this request's frame alone;
    /// the buffer was never mapped, so the cycle ends without an unmap.
    pub fn complete_map(&mut self, ok: bool) -> (r: Result<(), ReadbackError>)
        requires
            old(self).spec_phase() == CyclePhase::MapPending,
        ensures
            final(self).spec_phase() == (if ok {
                CyclePhase::Mapped
            } else {
                CyclePhase::Failed
            }),
            r is Ok <==> ok,
            r matches Err(e) ==> e == ReadbackError::MapFailed,
    {
        if ok {
            self.phase = CyclePhase::Mapped;
            Ok(())
        } else {
            self.phase = CyclePhase::Failed;
            Err(ReadbackError::MapFailed)
        }
    }

    /// The full mapped range was copied into an owned buffer. Only a mapped
    /// buffer may be read, and it must be read before the unmap.
    pub fn copy_out(&mut self)
        requires
            old(self).spec_phase() == CyclePhase::Mapped,
        ensures
            final(self).spec_phase() == CyclePhase::Copied,
    {
        self.phase = CyclePhase::Copied;
    }

    /// The owned bytes were offered to the delivery channel. Whether the
    /// consumer accepted them or was already gone, the handoff is done:
    /// the unmap that follows does not depend on the outcome.
    pub fn record_send(&mut self, outcome: DeliverOutcome)
        requires
            old(self).spec_phase() == CyclePhase::Copied,
        ensures
            final(self).spec_phase() == CyclePhase::Sent,
    {
        let _ = outcome;
        self.phase = CyclePhase::Sent;
    }

    /// The staging buffer was unmapped, exactly once per successful map and
    /// only after the copy-out, making it reusable for the next frame.
    pub fn unmap(&mut self)
        requires
            old(self).spec_phase() == CyclePhase::Sent,
        ensures
            final(self).spec_phase() == CyclePhase::Idle,
    {
        self.phase = CyclePhase::Idle;
    }
}

} // verus!

use vstd::prelude::*;
use crate::frame::FrameData;

verus! {

/// How an offer to the slot ended.
#[derive(Debug)]
pub enum Offer {
    /// The frame is in the slot.
    Accepted,
    /// A frame is still waiting to be taken. The offered frame comes back and
    /// the producer has to wait until the slot is free.
    Full(FrameData),
    /// The consumer is gone. The offered frame comes back and the producer
    /// has to stop.
    Closed(FrameData),
}

/// What can be done to the slot.
pub enum SlotOp {
    Offer(FrameData),
    Take,
    Close,
}

/// The slot as contracts speak of it.
pub struct SlotView {
    /// The frame that waits to be taken.
    pub pending: Option<FrameData>,
    pub closed: bool,
}

impl SlotView {
    pub open spec fn empty() -> SlotView {
        SlotView { pending: None, closed: false }
    }

    /// A closed slot holds nothing.
    pub open spec fn wf(self) -> bool {
        self.closed ==> self.pending is None
    }

    /// The number of frames that wait to be taken.
    pub open spec fn held(self) -> nat {
        if self.pending is Some {
            1
        } else {
            0
        }
    }

    pub open spec fn offer(self, frame: FrameData) -> (SlotView, Offer) {
        if self.closed {
            (self, Offer::Closed(frame))
        } else if self.pending is Some {
            (self, Offer::Full(frame))
        } else {
            (SlotView { pending: Some(frame), ..self }, Offer::Accepted)
        }
    }

    pub open spec fn take(self) -> (SlotView, Option<FrameData>) {
        (SlotView { pending: None, ..self }, self.pending)
    }

    pub open spec fn close(self) -> (SlotView, Option<FrameData>) {
        (SlotView { pending: None, closed: true }, self.pending)
    }

    pub open spec fn apply(self, op: SlotOp) -> SlotView {
        match op {
            SlotOp::Offer(frame) => self.offer(frame).0,
            SlotOp::Take => self.take().0,
            SlotOp::Close => self.close().0,
        }
    }

    /// One if the operation puts a frame into the slot.
    pub open spec fn admits(self, op: SlotOp) -> int {
        if op matches SlotOp::Offer(frame) && self.offer(frame).1 is Accepted {
            1
        } else {
            0
        }
    }

    /// One if the operation takes a frame out of the slot.
    pub open spec fn yields(self, op: SlotOp) -> int {
        if !(op is Offer) && self.pending is Some {
            1
        } else {
            0
        }
    }

    /// The slot after all of `ops`, taken in order.
    pub open spec fn run(self, ops: Seq<SlotOp>) -> SlotView
        decreases ops.len(),
    {
        if ops.len() == 0 {
            self
        } else {
            self.run(ops.drop_last()).apply(ops.last())
        }
    }

    /// Frames put in minus frames taken out over all of `ops`.
    pub open spec fn backlog(self, ops: Seq<SlotOp>) -> int
        decreases ops.len(),
    {
        if ops.len() == 0 {
            self.held() as int
        } else {
            let before = self.run(ops.drop_last());
            self.backlog(ops.drop_last()) + before.admits(ops.last()) - before.yields(ops.last())
        }
    }
}

/// The hand-off between the capture thread and the host: room for one frame.
/// The producer may put a frame in only while the slot is empty, so the
/// consumer never finds more than one frame waiting.
#[derive(Debug)]
pub struct PendingSlot {
    frame: Option<FrameData>,
    closed: bool,
}

impl View for PendingSlot {
    type V = SlotView;

    closed spec fn view(&self) -> SlotView {
        SlotView { pending: self.frame, closed: self.closed }
    }
}

impl PendingSlot {
    pub open spec fn wf(&self) -> bool {
        self@.wf()
    }

    pub fn new() -> (slot: PendingSlot)
        ensures
            slot.wf(),
            slot@ == SlotView::empty(),
    {
        PendingSlot { frame: None, closed: false }
    }

    /// Offers a finished frame. It is accepted exactly if the slot is open
    /// and empty; otherwise the slot stays as it is and the frame comes back.
    pub fn offer(&mut self, frame: FrameData) -> (outcome: Offer)
        requires
            old(self).wf(),
        ensures
            final(self).wf(),
            (final(self)@, outcome) == old(self)@.offer(frame),
    {
        if self.closed {
            Offer::Closed(frame)
        } else if self.frame.is_some() {
            Offer::Full(frame)
        } else {
            self.frame = Some(frame);
            Offer::Accepted
        }
    }

    /// Takes the waiting frame, if there is one; the slot is empty afterwards.
    pub fn take(&mut self) -> (frame: Option<FrameData>)
        requires
            old(self).wf(),
        ensures
            final(self).wf(),
            (final(self)@, frame) == old(self)@.take(),
    {
        self.frame.take()
    }

    /// The consumer leaves. A frame that still waits comes out, and every
    /// later offer is turned away.
    pub fn close(&mut self) -> (frame: Option<FrameData>)
        requires
            old(self).wf(),
        ensures
            final(self).wf(),
            (final(self)@, frame) == old(self)@.close(),
    {
        self.closed = true;
        self.frame.take()
    }

    pub fn is_full(&self) -> (full: bool)
        ensures
            full == (self@.held() == 1),
    {
        self.frame.is_some()
    }

    pub fn is_closed(&self) -> (closed: bool)
        ensures
            closed == self@.closed,
    {
        self.closed
    }
}

/// However fast frames are produced and taken, the frames put into the slot
/// and not yet taken out are as many as the slot holds: none or one.
pub proof fn lemma_bounded_delivery(ops: Seq<SlotOp>)
    ensures
        SlotView::empty().run(ops).wf(),
        SlotView::empty().backlog(ops) == SlotView::empty().run(ops).held(),
        0 <= SlotView::empty().backlog(ops) <= 1,
    decreases ops.len(),
{
    if ops.len() > 0 {
        lemma_bounded_delivery(ops.drop_last());
    }
}

/// A frame offered while another waits is turned away and the slot keeps the
/// one it holds; once that one is taken, the same offer is accepted.
pub proof fn lemma_second_offer_waits(slot: SlotView, first: FrameData, second: FrameData)
    requires
        slot.wf(),
        !slot.closed,
        slot.pending == Some(first),
    ensures
        slot.offer(second) == (slot, Offer::Full(second)),
        slot.take().1 == Some(first),
        slot.take().0.offer(second).1 == Offer::Accepted,
        slot.take().0.offer(second).0.pending == Some(second),
{
}

} // verus!

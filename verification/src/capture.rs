use vstd::prelude::*;
use crate::frame::FrameData;
use crate::metadata::{is_shm_format, FrameMetadata};
use crate::shm::ShmFd;

verus! {

/// The name under which the memory of a buffer is created; it is removed
/// again before the buffer is used.
pub const WLR_FRAME_SHM_PATH: &'static str = "/obs_wlroots";

/// A shared-memory buffer bound to the layout it was created for.
#[derive(Debug)]
pub struct WlrBuffer {
    fd: ShmFd,
    size: usize,
    meta: FrameMetadata,
}

impl WlrBuffer {
    pub closed spec fn spec_fd(&self) -> ShmFd {
        self.fd
    }

    pub closed spec fn spec_size(&self) -> usize {
        self.size
    }

    pub closed spec fn spec_meta(&self) -> FrameMetadata {
        self.meta
    }

    /// A buffer holds exactly one frame of its layout, the layout is one
    /// that can be bound, so that the host has a name for its pixels, and
    /// the name of its memory is already gone.
    pub open spec fn wf(&self) -> bool {
        &&& self.spec_size() == self.spec_meta().spec_size()
        &&& self.spec_meta().spec_bindable()
        &&& self.spec_fd().spec_unlinked()
    }

    /// Binds `fd`, already sized for it, to the layout `meta`. The object is
    /// handed back if its name still exists or the layout cannot be bound.
    pub fn new(fd: ShmFd, meta: FrameMetadata) -> (made: Result<WlrBuffer, ShmFd>)
        ensures
            fd.spec_unlinked() && meta.spec_bindable() ==> made is Ok && made->Ok_0.wf()
                && made->Ok_0.spec_fd() == fd && made->Ok_0.spec_meta() == meta,
            !(fd.spec_unlinked() && meta.spec_bindable()) ==> made == Err::<WlrBuffer, ShmFd>(fd),
    {
        if fd.is_unlinked() && meta.bindable() {
            let size = meta.size();
            Ok(WlrBuffer { fd, size, meta })
        } else {
            Err(fd)
        }
    }

    #[verifier::when_used_as_spec(spec_size)]
    pub fn size(&self) -> (bytes: usize)
        ensures
            bytes == self.spec_size(),
    {
        self.size
    }

    pub fn meta(&self) -> (meta: FrameMetadata)
        ensures
            meta == self.spec_meta(),
    {
        self.meta
    }

    pub fn fd(&self) -> (fd: &ShmFd)
        ensures
            *fd == self.spec_fd(),
    {
        &self.fd
    }

    /// Takes the buffer apart so that its memory can be given back.
    pub fn into_fd(self) -> (fd: ShmFd)
        ensures
            fd == self.spec_fd(),
    {
        self.fd
    }
}

/// Where a capture cycle stands.
#[derive(Clone, Copy, Debug, PartialEq, Eq, Structural)]
pub enum CyclePhase {
    /// No cycle is in flight.
    Idle,
    /// A capture was requested; the compositor has not proposed a layout yet.
    Requested,
    /// A buffer for the proposed layout is being created.
    Allocating,
    /// The buffer was handed to the compositor to copy into.
    Copying,
    /// The copy is done and the pixels are being read out.
    Mapping,
}

/// What the compositor reports about a requested capture.
#[derive(Clone, Copy, Debug, PartialEq, Eq, Structural)]
pub enum FrameEvent {
    /// The layout that the buffer must have.
    Buffer { format: u32, width: u32, height: u32, stride: u32 },
    /// The buffer holds the frame. The time at which the frame was
    /// presented comes with it: whole seconds in two halves, the high and the
    /// low 32 bits, and the nanoseconds beyond them.
    Ready { tv_sec_hi: u32, tv_sec_lo: u32, tv_nsec: u32 },
    /// The capture was abandoned.
    Failed,
    /// Anything else; it changes nothing.
    Other,
}

/// What has to be done next for the cycle in flight.
#[derive(Clone, Copy, Debug, PartialEq, Eq, Structural)]
pub enum FrameAction {
    Nothing,
    /// Hand the bound buffer to the compositor to copy into.
    Submit,
    /// Create a buffer of `size` bytes for the current layout, then report
    /// it with `install_buffer`, or `allocation_failed`.
    Allocate { size: usize },
    /// Map `size` bytes of the bound buffer for reading and pass them to
    /// `complete`.
    ReadOut { size: usize },
    /// The cycle is over without a frame: discard the capture request.
    Destroy,
}

/// The time that the compositor reports in seconds and nanoseconds, as one
/// count of nanoseconds.
pub open spec fn spec_nanoseconds(tv_sec_hi: u32, tv_sec_lo: u32, tv_nsec: u32) -> nat {
    ((tv_sec_hi * 0x1_0000_0000 + tv_sec_lo) * 1_000_000_000 + tv_nsec) as nat
}

/// That count as the host takes it: in 64 bits, the largest number standing
/// for all that do not fit.
pub open spec fn spec_presentation_time(tv_sec_hi: u32, tv_sec_lo: u32, tv_nsec: u32) -> u64 {
    if spec_nanoseconds(tv_sec_hi, tv_sec_lo, tv_nsec) <= u64::MAX {
        spec_nanoseconds(tv_sec_hi, tv_sec_lo, tv_nsec) as u64
    } else {
        u64::MAX
    }
}

pub fn presentation_time(tv_sec_hi: u32, tv_sec_lo: u32, tv_nsec: u32) -> (timestamp: u64)
    ensures
        timestamp == spec_presentation_time(tv_sec_hi, tv_sec_lo, tv_nsec),
{
    let seconds: u64 = (tv_sec_hi as u64) * 0x1_0000_0000 + (tv_sec_lo as u64);
    let nanoseconds: u128 = (seconds as u128) * 1_000_000_000 + (tv_nsec as u128);
    if nanoseconds <= u64::MAX as u128 {
        nanoseconds as u64
    } else {
        u64::MAX
    }
}

/// The assembler's state as contracts speak of it.
pub struct FrameView {
    /// The layout proposed last.
    pub metadata: FrameMetadata,
    /// The buffer that is bound at present.
    pub buffer: Option<WlrBuffer>,
    pub phase: CyclePhase,
    /// When the frame that is being read out was presented, in nanoseconds.
    pub timestamp: u64,
}

impl FrameView {
    /// While the compositor writes to the buffer or the pixels are read out,
    /// a buffer is bound and it has the very layout of this cycle's proposal,
    /// so it is never smaller than the proposal asks. A buffer is created
    /// only for a layout that can be bound, so every bound buffer holds
    /// pixels that the host has a name for.
    pub open spec fn wf(self) -> bool {
        &&& self.buffer matches Some(b) ==> b.wf()
        &&& self.phase is Copying || self.phase is Mapping ==> self.bound_to(self.metadata)
        &&& self.phase is Allocating ==> self.metadata.spec_bindable()
    }

    pub open spec fn bound_to(self, meta: FrameMetadata) -> bool {
        self.buffer matches Some(b) && b.spec_meta() == meta
    }

    /// Bytes that the bound buffer can hold; none where nothing is bound.
    pub open spec fn capacity(self) -> nat {
        match self.buffer {
            Some(b) => b.spec_size() as nat,
            None => 0,
        }
    }

    pub open spec fn waiting(self) -> bool {
        !(self.phase is Idle)
    }

    pub open spec fn in_phase(self, phase: CyclePhase) -> FrameView {
        FrameView { phase, ..self }
    }

    /// A new cycle starts only from rest and only while the thread runs.
    pub open spec fn starts(self, running: bool) -> bool {
        self.phase is Idle && running
    }

    pub open spec fn begin(self, running: bool) -> FrameView {
        if self.starts(running) {
            self.in_phase(CyclePhase::Requested)
        } else {
            self
        }
    }

    /// The compositor proposes `meta`; `known` tells whether the protocol has
    /// its pixel format. A proposal that cannot be bound ends the cycle: one
    /// out of the protocol's range, one whose pixels the host has no name
    /// for, or one whose rows are too short. The bound buffer is used again
    /// exactly if it was made for this layout.
    pub open spec fn propose(self, meta: FrameMetadata, known: bool) -> (FrameView, FrameAction) {
        if !(self.phase is Requested) {
            (self, FrameAction::Nothing)
        } else if !meta.spec_bindable() || !known {
            (FrameView { metadata: meta, phase: CyclePhase::Idle, ..self }, FrameAction::Destroy)
        } else if self.bound_to(meta) {
            (FrameView { metadata: meta, phase: CyclePhase::Copying, ..self }, FrameAction::Submit)
        } else {
            (
                FrameView { metadata: meta, phase: CyclePhase::Allocating, ..self },
                FrameAction::Allocate { size: meta.spec_size() as usize },
            )
        }
    }

    /// The copy is done and the frame was presented at `timestamp`.
    pub open spec fn ready(self, timestamp: u64) -> (FrameView, FrameAction) {
        if self.phase is Copying && self.buffer is Some {
            (
                FrameView { phase: CyclePhase::Mapping, timestamp, ..self },
                FrameAction::ReadOut { size: self.buffer->Some_0.spec_size() },
            )
        } else {
            (self, FrameAction::Nothing)
        }
    }

    pub open spec fn fail(self) -> (FrameView, FrameAction) {
        if self.phase is Idle {
            (self, FrameAction::Nothing)
        } else {
            (self.in_phase(CyclePhase::Idle), FrameAction::Destroy)
        }
    }

    pub open spec fn event(self, event: FrameEvent, known: bool) -> (FrameView, FrameAction) {
        match event {
            FrameEvent::Buffer { format, width, height, stride } => self.propose(
                FrameMetadata { format, width, height, stride },
                known,
            ),
            FrameEvent::Ready { tv_sec_hi, tv_sec_lo, tv_nsec } => self.ready(
                spec_presentation_time(tv_sec_hi, tv_sec_lo, tv_nsec),
            ),
            FrameEvent::Failed => self.fail(),
            FrameEvent::Other => (self, FrameAction::Nothing),
        }
    }

    /// A new buffer is taken only while one is awaited, and only if it was
    /// made for the layout of the proposal.
    pub open spec fn accepts(self, buffer: WlrBuffer) -> bool {
        self.phase is Allocating && buffer.wf() && buffer.spec_meta() == self.metadata
    }

    pub open spec fn install(self, buffer: WlrBuffer) -> FrameView {
        if self.accepts(buffer) {
            FrameView { buffer: Some(buffer), phase: CyclePhase::Copying, ..self }
        } else {
            self
        }
    }

    pub open spec fn allocation_failed(self) -> FrameView {
        if self.phase is Allocating {
            self.in_phase(CyclePhase::Idle)
        } else {
            self
        }
    }

    pub open spec fn complete(self) -> FrameView {
        if self.phase is Mapping {
            self.in_phase(CyclePhase::Idle)
        } else {
            self
        }
    }

    /// One whole cycle that meets no failure, from rest to rest: the request,
    /// the proposal `meta` in a known format, the buffer `fresh` where the
    /// bound one cannot be used, the copy of a frame presented at `stamp`
    /// and the read-out.
    pub open spec fn cycle(self, meta: FrameMetadata, fresh: WlrBuffer, stamp: u64) -> FrameView {
        self.copying(meta, fresh).ready(stamp).0.complete()
    }

    /// The state of that cycle at the moment the compositor is given the
    /// buffer.
    pub open spec fn copying(self, meta: FrameMetadata, fresh: WlrBuffer) -> FrameView {
        let (proposed, action) = self.begin(true).propose(meta, true);
        if action is Allocate {
            proposed.install(fresh)
        } else {
            proposed
        }
    }

    /// The cycles for the proposals `metas` one after the other, where
    /// `fresh[i]` is the buffer made for `metas[i]` if one is needed and
    /// `stamps[i]` the time at which its frame was presented.
    pub open spec fn cycles(
        self,
        metas: Seq<FrameMetadata>,
        fresh: Seq<WlrBuffer>,
        stamps: Seq<u64>,
    ) -> FrameView
        decreases metas.len(),
    {
        if metas.len() == 0 || fresh.len() != metas.len() || stamps.len() != metas.len() {
            self
        } else {
            self.cycles(metas.drop_last(), fresh.drop_last(), stamps.drop_last()).cycle(
                metas.last(),
                fresh.last(),
                stamps.last(),
            )
        }
    }
}

/// Drives one capture cycle after the other against one output: it owns the
/// shared buffer, decides when the buffer must be replaced, and turns a
/// finished copy into a frame.
#[derive(Debug)]
pub struct WlrFrame {
    metadata: FrameMetadata,
    buffer: Option<WlrBuffer>,
    phase: CyclePhase,
    timestamp: u64,
}

impl View for WlrFrame {
    type V = FrameView;

    closed spec fn view(&self) -> FrameView {
        FrameView {
            metadata: self.metadata,
            buffer: self.buffer,
            phase: self.phase,
            timestamp: self.timestamp,
        }
    }
}

impl WlrFrame {
    pub open spec fn wf(&self) -> bool {
        self@.wf()
    }

    pub fn new() -> (frame: WlrFrame)
        ensures
            frame.wf(),
            frame@ == (FrameView {
                metadata: FrameMetadata { format: 0, width: 0, height: 0, stride: 0 },
                buffer: None,
                phase: CyclePhase::Idle,
                timestamp: 0,
            }),
    {
        WlrFrame {
            metadata: FrameMetadata::default(),
            buffer: None,
            phase: CyclePhase::Idle,
            timestamp: 0,
        }
    }

    /// Asks whether a capture should be requested now, and counts it as in
    /// flight if so. `running` is false once the thread was told to stop.
    pub fn handle_output(&mut self, running: bool) -> (request: bool)
        requires
            old(self).wf(),
        ensures
            final(self).wf(),
            request == old(self)@.starts(running),
            final(self)@ == old(self)@.begin(running),
    {
        if running && self.phase == CyclePhase::Idle {
            self.phase = CyclePhase::Requested;
            true
        } else {
            false
        }
    }

    /// Takes a report of the compositor and says what to do next. For a
    /// proposed layout the pixel format is looked up in the protocol's list.
    pub fn handle_frame_event(&mut self, event: FrameEvent) -> (action: FrameAction)
        requires
            old(self).wf(),
        ensures
            final(self).wf(),
            event matches FrameEvent::Buffer { format, .. } ==> (final(self)@, action)
                == old(self)@.event(event, is_shm_format(format)),
            !(event is Buffer) ==> (final(self)@, action) == old(self)@.event(event, true),
    {
        let known = match event {
            FrameEvent::Buffer { format, .. } => crate::metadata::shm_format_known(format),
            _ => true,
        };
        self.apply_event(event, known)
    }

    /// Takes a report of the compositor, with `known` telling whether the
    /// protocol has the pixel format of a proposed layout.
    pub fn apply_event(&mut self, event: FrameEvent, known: bool) -> (action: FrameAction)
        requires
            old(self).wf(),
        ensures
            final(self).wf(),
            (final(self)@, action) == old(self)@.event(event, known),
    {
        match event {
            FrameEvent::Buffer { format, width, height, stride } => {
                let meta = FrameMetadata::new(format, width, height, stride);
                if self.phase != CyclePhase::Requested {
                    FrameAction::Nothing
                } else if !meta.bindable() || !known {
                    self.metadata = meta;
                    self.phase = CyclePhase::Idle;
                    FrameAction::Destroy
                } else {
                    let reuse = match &self.buffer {
                        Some(b) => b.meta == meta,
                        None => false,
                    };
                    self.metadata = meta;
                    if reuse {
                        self.phase = CyclePhase::Copying;
                        FrameAction::Submit
                    } else {
                        self.phase = CyclePhase::Allocating;
                        FrameAction::Allocate { size: meta.size() }
                    }
                }
            },
            FrameEvent::Ready { tv_sec_hi, tv_sec_lo, tv_nsec } => {
                if self.phase == CyclePhase::Copying {
                    match &self.buffer {
                        Some(b) => {
                            let size = b.size;
                            self.phase = CyclePhase::Mapping;
                            self.timestamp = presentation_time(tv_sec_hi, tv_sec_lo, tv_nsec);
                            FrameAction::ReadOut { size }
                        },
                        None => FrameAction::Nothing,
                    }
                } else {
                    FrameAction::Nothing
                }
            },
            FrameEvent::Failed => {
                if self.phase == CyclePhase::Idle {
                    FrameAction::Nothing
                } else {
                    self.phase = CyclePhase::Idle;
                    FrameAction::Destroy
                }
            },
            FrameEvent::Other => FrameAction::Nothing,
        }
    }

    /// Binds the buffer that was created for the current proposal. On `Ok`
    /// the buffer is bound and must now be handed to the compositor; the
    /// buffer that was bound before comes back, to be torn down afterwards.
    /// On `Err` nothing changed and the rejected buffer comes back.
    pub fn install_buffer(&mut self, buffer: WlrBuffer) -> (replaced: Result<
        Option<WlrBuffer>,
        WlrBuffer,
    >)
        requires
            old(self).wf(),
        ensures
            final(self).wf(),
            final(self)@ == old(self)@.install(buffer),
            old(self)@.accepts(buffer) ==> replaced == Ok::<Option<WlrBuffer>, WlrBuffer>(
                old(self)@.buffer,
            ),
            !old(self)@.accepts(buffer) ==> replaced == Err::<Option<WlrBuffer>, WlrBuffer>(buffer),
    {
        if self.phase == CyclePhase::Allocating && buffer.meta == self.metadata
            && buffer.fd.is_unlinked() && buffer.meta.bindable() && buffer.meta.byte_len()
            == buffer.size as u64 {
            let old_buffer = self.buffer.take();
            self.buffer = Some(buffer);
            self.phase = CyclePhase::Copying;
            Ok(old_buffer)
        } else {
            Err(buffer)
        }
    }

    /// The buffer for the current proposal could not be created: the cycle is
    /// over without a frame.
    pub fn allocation_failed(&mut self)
        requires
            old(self).wf(),
        ensures
            final(self).wf(),
            final(self)@ == old(self)@.allocation_failed(),
    {
        if self.phase == CyclePhase::Allocating {
            self.phase = CyclePhase::Idle;
        }
    }

    /// Ends the cycle whose copy has finished. `mapped` holds the bytes of
    /// the buffer, or nothing if they could not be mapped. A frame comes out
    /// if the pixels are all there and the thread was not told to stop in
    /// the meantime. It goes under the host's name for the pixel format of
    /// the proposal and carries the time at which it was presented.
    pub fn complete(&mut self, mapped: Option<&[u8]>, running: bool) -> (frame: Option<FrameData>)
        requires
            old(self).wf(),
        ensures
            final(self).wf(),
            final(self)@ == old(self)@.complete(),
            frame is Some <==> old(self)@.phase is Mapping && running && mapped is Some
                && mapped->Some_0@.len() >= old(self)@.metadata.spec_size(),
            frame matches Some(f) ==> f.spec_meta() == old(self)@.metadata
                && f.spec_source_frame().describes(old(self)@.metadata, old(self)@.timestamp)
                && f.spec_data() == mapped->Some_0@.subrange(
                0,
                old(self)@.metadata.spec_size() as int,
            ),
    {
        if self.phase != CyclePhase::Mapping {
            return None;
        }
        self.phase = CyclePhase::Idle;
        if !running {
            return None;
        }
        match mapped {
            Some(bytes) => FrameData::new(bytes, &self.metadata, self.timestamp),
            None => None,
        }
    }

    pub fn metadata(&self) -> (meta: FrameMetadata)
        ensures
            meta == self@.metadata,
    {
        self.metadata
    }

    pub fn buffer(&self) -> (buffer: &Option<WlrBuffer>)
        ensures
            *buffer == self@.buffer,
    {
        &self.buffer
    }

    pub fn phase(&self) -> (phase: CyclePhase)
        ensures
            phase == self@.phase,
    {
        self.phase
    }

    /// Whether a cycle is in flight.
    pub fn waiting(&self) -> (waiting: bool)
        ensures
            waiting == self@.waiting(),
    {
        self.phase != CyclePhase::Idle
    }

    /// Gives up the assembler and hands out the buffer that is still bound,
    /// to be torn down.
    pub fn release(self) -> (buffer: Option<WlrBuffer>)
        ensures
            buffer == self@.buffer,
    {
        self.buffer
    }
}

/// Whatever the proposals are and in whatever order their sizes come, each
/// cycle hands the compositor a buffer made for its own proposal, hence one of
/// at least the proposed size, and leaves that buffer bound.
pub proof fn lemma_capacity_follows_proposals(
    start: FrameView,
    metas: Seq<FrameMetadata>,
    fresh: Seq<WlrBuffer>,
    stamps: Seq<u64>,
    i: int,
)
    requires
        start.wf(),
        start.phase is Idle,
        metas.len() == fresh.len(),
        metas.len() == stamps.len(),
        forall|k: int|
            0 <= k < metas.len() ==> (#[trigger] metas[k]).spec_bindable() && fresh[k].wf()
                && fresh[k].spec_meta() == metas[k],
        0 <= i < metas.len(),
    ensures
        ({
            let before = start.cycles(metas.take(i), fresh.take(i), stamps.take(i));
            let during = before.copying(metas[i], fresh[i]);
            let after = start.cycles(metas.take(i + 1), fresh.take(i + 1), stamps.take(i + 1));
            &&& during.phase is Copying
            &&& during.bound_to(metas[i])
            &&& during.capacity() >= metas[i].spec_size()
            &&& after.wf()
            &&& after.phase is Idle
            &&& after.bound_to(metas[i])
            &&& after.capacity() == metas[i].spec_size()
        }),
    decreases i,
{
    let before = start.cycles(metas.take(i), fresh.take(i), stamps.take(i));
    if i > 0 {
        lemma_capacity_follows_proposals(start, metas, fresh, stamps, i - 1);
        assert(metas.take(i - 1 + 1) == metas.take(i));
        assert(fresh.take(i - 1 + 1) == fresh.take(i));
        assert(stamps.take(i - 1 + 1) == stamps.take(i));
    } else {
        assert(metas.take(0).len() == 0);
    }
    assert(before.wf() && before.phase is Idle);
    assert(metas.take(i + 1).drop_last() == metas.take(i));
    assert(fresh.take(i + 1).drop_last() == fresh.take(i));
    assert(stamps.take(i + 1).drop_last() == stamps.take(i));
    assert(metas.take(i + 1).last() == metas[i]);
    assert(fresh.take(i + 1).last() == fresh[i]);
}

/// A cycle whose proposal equals the layout of the bound buffer uses that
/// buffer again: no buffer is asked for and the bound one stays.
pub proof fn lemma_unchanged_layout_reuses_buffer(state: FrameView, meta: FrameMetadata)
    requires
        state.wf(),
        state.phase is Idle,
        state.bound_to(meta),
    ensures
        state.begin(true).propose(meta, true).1 == FrameAction::Submit,
        state.begin(true).propose(meta, true).0.buffer == state.buffer,
{
}

} // verus!

use vstd::prelude::*;
use crate::gs::VideoFormat;
use crate::metadata::FrameMetadata;

verus! {

/// How the host is told to read a frame's pixels: one packed plane, stored
/// bottom-up.
#[derive(Clone, Copy, Debug, PartialEq, Eq)]
pub struct SourceFrame {
    /// Bytes per row of each plane; only the first plane is used.
    pub linesize: [u32; 8],
    pub width: u32,
    pub height: u32,
    pub timestamp: u64,
    pub format: VideoFormat,
    pub full_range: bool,
    pub flip: bool,
    pub prev_frame: bool,
}

/// One captured frame: an owned copy of the pixels together with the layout
/// they were captured in. It shares nothing with the buffer it came from.
#[derive(Debug)]
pub struct FrameData {
    data: Vec<u8>,
    meta: FrameMetadata,
    source_frame: SourceFrame,
}

impl SourceFrame {
    /// The description of a freshly captured frame of the given layout,
    /// presented at the given time: the pixel format goes under the host's
    /// name for it.
    pub open spec fn describes(self, meta: FrameMetadata, timestamp: u64) -> bool {
        &&& self.linesize@ == seq![meta.stride, 0u32, 0u32, 0u32, 0u32, 0u32, 0u32, 0u32]
        &&& self.width == meta.width
        &&& self.height == meta.height
        &&& self.timestamp == timestamp
        &&& Some(self.format) == meta.spec_video_format()
        &&& !self.full_range
        &&& self.flip
        &&& !self.prev_frame
    }
}

impl FrameData {
    pub closed spec fn spec_data(&self) -> Seq<u8> {
        self.data@
    }

    pub closed spec fn spec_meta(&self) -> FrameMetadata {
        self.meta
    }

    pub closed spec fn spec_source_frame(&self) -> SourceFrame {
        self.source_frame
    }

    /// Copies the first `meta.size()` bytes of `buf`, the mapped buffer, into
    /// a frame of its own, presented at `timestamp` (in nanoseconds). No
    /// frame is made of pixels that the host has no name for, nor of a
    /// buffer that is shorter than the layout says.
    pub fn new(buf: &[u8], meta: &FrameMetadata, timestamp: u64) -> (made: Option<FrameData>)
        ensures
            made is Some <==> meta.spec_video_format() is Some && meta.spec_size() <= buf@.len(),
            made matches Some(frame) ==> frame.spec_data() == buf@.subrange(
                0,
                meta.spec_size() as int,
            ) && frame.spec_meta() == *meta && frame.spec_source_frame().describes(
                *meta,
                timestamp,
            ),
    {
        let format = match meta.video_format() {
            Some(format) => format,
            None => {
                return None;
            },
        };
        if meta.byte_len() > buf.len() as u64 {
            return None;
        }
        let size = meta.size();
        let mut data: Vec<u8> = Vec::with_capacity(size);
        let mut i: usize = 0;
        while i < size
            invariant
                i <= size <= buf@.len(),
                data@ == buf@.subrange(0, i as int),
            decreases size - i,
        {
            data.push(buf[i]);
            i += 1;
            assert(data@ =~= buf@.subrange(0, i as int));
        }
        let source_frame = SourceFrame {
            linesize: [meta.stride, 0, 0, 0, 0, 0, 0, 0],
            width: meta.width,
            height: meta.height,
            timestamp,
            format,
            full_range: false,
            flip: true,
            prev_frame: false,
        };
        assert(source_frame.linesize@ =~= seq![meta.stride, 0u32, 0u32, 0u32, 0u32, 0u32, 0u32, 0u32]);
        Some(FrameData { data, meta: *meta, source_frame })
    }

    pub fn data(&self) -> (bytes: &[u8])
        ensures
            bytes@ == self.spec_data(),
    {
        self.data.as_slice()
    }

    pub fn meta(&self) -> (meta: FrameMetadata)
        ensures
            meta == self.spec_meta(),
    {
        self.meta
    }

    pub fn source_frame(&self) -> (source_frame: &SourceFrame)
        ensures
            *source_frame == self.spec_source_frame(),
    {
        &self.source_frame
    }

    /// The frame's description, open to the host's adjustments; pixels and
    /// layout stay as they are.
    pub fn as_source_frame(&mut self) -> (source_frame: &mut SourceFrame)
        ensures
            *source_frame == old(self).spec_source_frame(),
            final(self).spec_source_frame() == *final(source_frame),
            final(self).spec_data() == old(self).spec_data(),
            final(self).spec_meta() == old(self).spec_meta(),
    {
        &mut self.source_frame
    }
}

} // verus!

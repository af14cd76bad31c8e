use vstd::prelude::*;

verus! {

/// One compressed video frame as the engine handed it over.
///
/// `stride` carries the size of the payload in bytes, as the engine reports it.
#[derive(Clone, Debug)]
pub struct VideoFrame {
    pub data: Vec<u8>,
    pub width: u32,
    pub height: u32,
    pub stride: u32,
}

/// The frame that a video callback with these arguments yields: none for a
/// missing or empty buffer, else a copy of the bytes with the reported size.
pub open spec fn frame_from_native(
    data: Option<Seq<u8>>,
    width: u32,
    height: u32,
    buffer_size: u32,
) -> Option<(Seq<u8>, u32, u32, u32)> {
    match data {
        None => None,
        Some(bytes) => if bytes.len() == 0 {
            None
        } else {
            Some((bytes, width, height, buffer_size))
        },
    }
}

/// The bytes of a native buffer, where there is one.
pub open spec fn buffer_view(data: Option<&[u8]>) -> Option<Seq<u8>> {
    match data {
        None => None,
        Some(b) => Some(b@),
    }
}

impl VideoFrame {
    /// The frame's fields as plain values.
    pub open spec fn parts(&self) -> (Seq<u8>, u32, u32, u32) {
        (self.data@, self.width, self.height, self.stride)
    }

    /// Builds a frame from a native buffer of `buffer_size` bytes, copying it:
    /// the native buffer does not outlive the callback.
    pub fn from_native(data: Option<&[u8]>, width: u32, height: u32, buffer_size: u32) -> (r:
        Option<VideoFrame>)
        requires
            data matches Some(b) ==> b@.len() == buffer_size,
        ensures
            r matches Some(f) ==> frame_from_native(buffer_view(data), width, height, buffer_size) == Some(f.parts()),
            r is None ==> frame_from_native(buffer_view(data), width, height, buffer_size) is None,
    {
        match data {
            None => None,
            Some(bytes) => {
                if bytes.len() == 0 {
                    return None;
                }
                let mut copy: Vec<u8> = Vec::with_capacity(bytes.len());
                let mut i: usize = 0;
                while i < bytes.len()
                    invariant
                        i <= bytes@.len(),
                        copy@ == bytes@.subrange(0, i as int),
                    decreases bytes@.len() - i,
                {
                    copy.push(bytes[i]);
                    i += 1;
                }
                assert(copy@ == bytes@);
                Some(VideoFrame { data: copy, width, height, stride: buffer_size })
            },
        }
    }
}

} // verus!

use vstd::prelude::*;

verus! {

/// One decoded image captured from a device at one point in time.
///
/// Pixel data is row-major 8-bit RGB with no padding, so a well-formed frame
/// holds exactly `width * height * 3` bytes. Frames are immutable once
/// produced: ownership passes from the decoder to the store to the reader,
/// and nothing mutates the pixel data after publication.
#[derive(Clone, Debug)]
pub struct Frame {
    pub width: u32,
    pub height: u32,
    pub data: Vec<u8>,
}

impl Frame {
    /// A frame is well formed when its byte length matches its dimensions.
    pub open spec fn wf(self) -> bool {
        self.data@.len() == self.width * self.height * 3
    }

    /// Builds a frame from decoded pixel bytes, rejecting a buffer whose
    /// length does not match the claimed dimensions.
    pub fn new(width: u32, height: u32, data: Vec<u8>) -> (r: Option<Frame>)
        ensures
            r is Some <==> data@.len() == width * height * 3,
            r matches Some(f) ==> f.width == width && f.height == height && f.data@ == data@
                && f.wf(),
    {
        let w: u128 = width as u128;
        let h: u128 = height as u128;
        proof {
            assert(w * h * 3 <= 0xffff_ffff_ffff_ffff_ffffu128) by (nonlinear_arith)
                requires
                    w < 0x1_0000_0000,
                    h < 0x1_0000_0000,
            ;
        }
        let expected: u128 = w * h * 3;
        if (data.len() as u128) == expected {
            Some(Frame { width, height, data })
        } else {
            None
        }
    }

    /// Width in pixels.
    pub fn width(&self) -> (r: u32)
        ensures
            r == self.width,
    {
        self.width
    }

    /// Height in pixels.
    pub fn height(&self) -> (r: u32)
        ensures
            r == self.height,
    {
        self.height
    }

    /// The raw pixel bytes.
    pub fn bytes(&self) -> (r: &Vec<u8>)
        ensures
            r@ == self.data@,
    {
        &self.data
    }
}

} // verus!

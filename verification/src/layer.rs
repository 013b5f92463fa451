//! A layer of pixels as a plug-in sees it: its geometry and its bytes.

use crate::error::Error;
use vstd::prelude::*;

verus! {

/// A rectangle of pixels: `left` and `top` inside, `right` and `bottom`
/// outside.
#[derive(Clone, Copy, Debug, PartialEq, Eq, Structural)]
pub struct Rect {
    pub left: i32,
    pub top: i32,
    pub right: i32,
    pub bottom: i32,
}

/// The distance in bytes between two rows, without its direction.
pub open spec fn stride_of(rowbytes: i32) -> int {
    if rowbytes < 0 {
        -rowbytes
    } else {
        rowbytes as int
    }
}

/// How many bytes a layer of that height and row distance takes.
pub open spec fn buffer_len(height: i32, rowbytes: i32) -> int {
    height * stride_of(rowbytes)
}

/// How far the first byte in memory lies from the first byte of the top
/// row: nothing where the rows go upward in memory, and `height - 1` rows
/// back where they go downward.
pub open spec fn buffer_offset(height: i32, rowbytes: i32) -> int {
    if rowbytes < 0 {
        rowbytes * (height - 1)
    } else {
        0
    }
}

/// Whether bytes of that length can be a layer of that geometry.
pub open spec fn layer_fits(width: i32, height: i32, rowbytes: i32, len: nat) -> bool {
    &&& width >= 0
    &&& height >= 0
    &&& rowbytes != 0
    &&& len == buffer_len(height, rowbytes)
}

/// A layer: `height` rows of `width` pixels, and the bytes that hold them.
///
/// The bytes are all rows in the order of memory, each `|rowbytes|` long. A
/// negative `rowbytes` says that the top row is the last in memory.
pub struct Layer {
    width: i32,
    height: i32,
    rowbytes: i32,
    extent_hint: Rect,
    data: Vec<u8>,
}

impl Layer {
    #[verifier::type_invariant]
    spec fn well_formed(&self) -> bool {
        layer_fits(self.width, self.height, self.rowbytes, self.data@.len())
    }

    /// The width in pixels.
    pub closed spec fn spec_width(&self) -> i32 {
        self.width
    }

    /// The height in pixels.
    pub closed spec fn spec_height(&self) -> i32 {
        self.height
    }

    /// The distance in bytes from one row to the next, negative where the
    /// rows go downward in memory.
    pub closed spec fn spec_rowbytes(&self) -> i32 {
        self.rowbytes
    }

    /// The part of the layer that holds the picture.
    pub closed spec fn spec_extent_hint(&self) -> Rect {
        self.extent_hint
    }

    /// All bytes of the layer, in the order of memory.
    pub closed spec fn bytes(&self) -> Seq<u8> {
        self.data@
    }

    /// Makes a layer of bytes that the host lent.
    ///
    /// Fails with [`Error::BadCallbackParameter`] unless width and height
    /// are not negative, `rowbytes` is not zero and the bytes are exactly
    /// `height` rows of `|rowbytes|`.
    pub fn new(width: i32, height: i32, rowbytes: i32, extent_hint: Rect, data: Vec<u8>) -> (r:
        Result<Layer, Error>)
        ensures
            layer_fits(width, height, rowbytes, data@.len()) <==> r is Ok,
            r matches Err(e) ==> e == Error::BadCallbackParameter,
            r matches Ok(layer) ==> {
                &&& layer.spec_width() == width
                &&& layer.spec_height() == height
                &&& layer.spec_rowbytes() == rowbytes
                &&& layer.spec_extent_hint() == extent_hint
                &&& layer.bytes() == data@
            },
    {
        if width < 0 || height < 0 || rowbytes == 0 {
            return Err(Error::BadCallbackParameter);
        }
        let stride: u64 = if rowbytes < 0 {
            (-(rowbytes as i64)) as u64
        } else {
            rowbytes as u64
        };
        assert(stride == stride_of(rowbytes));
        assert(height * stride <= 0x8000_0000 * 0x8000_0000) by (nonlinear_arith)
            requires
                0 <= height <= 0x8000_0000,
                0 <= stride <= 0x8000_0000,
        ;
        let len: u64 = (height as u64) * stride;
        if data.len() as u64 != len {
            return Err(Error::BadCallbackParameter);
        }
        Ok(Layer { width, height, rowbytes, extent_hint, data })
    }

    /// The width in pixels.
    pub fn width(&self) -> (w: i32)
        ensures
            w == self.spec_width(),
            w >= 0,
    {
        proof {
            use_type_invariant(self);
        }
        self.width
    }

    /// The height in pixels.
    pub fn height(&self) -> (h: i32)
        ensures
            h == self.spec_height(),
            h >= 0,
    {
        proof {
            use_type_invariant(self);
        }
        self.height
    }

    /// The distance in bytes from one row to the next, negative where the
    /// rows go downward in memory.
    pub fn rowbytes(&self) -> (n: i32)
        ensures
            n == self.spec_rowbytes(),
            n != 0,
    {
        proof {
            use_type_invariant(self);
        }
        self.rowbytes
    }

    /// The distance in bytes between two rows, without its direction.
    pub fn buffer_stride(&self) -> (n: usize)
        ensures
            n == stride_of(self.spec_rowbytes()),
            n > 0,
    {
        proof {
            use_type_invariant(self);
        }
        if self.rowbytes < 0 {
            (-(self.rowbytes as i64)) as usize
        } else {
            self.rowbytes as usize
        }
    }

    /// The part of the layer that holds the picture.
    pub fn extent_hint(&self) -> (rect: Rect)
        ensures
            rect == self.spec_extent_hint(),
    {
        self.extent_hint
    }

    /// All bytes of the layer, in the order of memory, whichever way the
    /// rows go.
    pub fn buffer(&self) -> (bytes: &[u8])
        ensures
            bytes@ == self.bytes(),
            bytes@.len() == buffer_len(self.spec_height(), self.spec_rowbytes()),
    {
        proof {
            use_type_invariant(self);
        }
        self.data.as_slice()
    }

    /// How far, in bytes, the first byte in memory lies from the first byte
    /// of the top row: nothing where the rows go upward in memory, and
    /// `height - 1` rows back where they go downward.
    pub fn buffer_offset(&self) -> (offset: i64)
        ensures
            offset == buffer_offset(self.spec_height(), self.spec_rowbytes()),
    {
        proof {
            use_type_invariant(self);
        }
        if self.rowbytes < 0 {
            let rows: i64 = self.height as i64 - 1;
            assert(self.rowbytes * rows >= -0x8000_0000 * 0x8000_0000 && self.rowbytes * rows
                <= 0x8000_0000) by (nonlinear_arith)
                requires
                    -0x8000_0000 <= self.rowbytes < 0,
                    -1 <= rows < 0x8000_0000,
            ;
            (self.rowbytes as i64) * rows
        } else {
            0
        }
    }

    /// Replaces the bytes of the layer by others of the same length. Where
    /// the length differs the layer stays as it is and
    /// [`Error::BadCallbackParameter`] comes back.
    pub fn write_buffer(&mut self, bytes: Vec<u8>) -> (r: Result<(), Error>)
        ensures
            final(self).spec_width() == old(self).spec_width(),
            final(self).spec_height() == old(self).spec_height(),
            final(self).spec_rowbytes() == old(self).spec_rowbytes(),
            final(self).spec_extent_hint() == old(self).spec_extent_hint(),
            bytes@.len() == old(self).bytes().len() ==> r is Ok && final(self).bytes() == bytes@,
            bytes@.len() != old(self).bytes().len() ==> r == Err::<(), Error>(
                Error::BadCallbackParameter,
            ) && final(self).bytes() == old(self).bytes(),
    {
        proof {
            use_type_invariant(&*self);
        }
        if bytes.len() != self.data.len() {
            return Err(Error::BadCallbackParameter);
        }
        let mut data = bytes;
        std::mem::swap(&mut self.data, &mut data);
        Ok(())
    }
}

} // verus!

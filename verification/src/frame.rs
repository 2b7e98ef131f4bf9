//! The frame builder: assembles a classic CAN frame value — identifier word,
//! data length code, and an eight-byte payload buffer — and renders its
//! 16-byte wire image, byte for byte what the kernel expects.

use vstd::prelude::*;

use crate::error::CanError;
use crate::ident::{IdFlags, init_id_word, spec_id_word};

verus! {

/// Size in bytes of a classic CAN frame record on the wire.
pub const CAN_FRAME_WIRE_SIZE: usize = 16;

/// A classic CAN frame: identifier word, data length code and payload
/// buffer. The buffer always holds eight bytes; bytes beyond the data
/// length are zero.
#[derive(Clone, Debug, PartialEq)]
pub struct CanFrame {
    /// The 32-bit identifier word, flags included.
    pub can_id: u32,
    /// The data length code, 0 through 8.
    pub can_dlc: u8,
    /// The eight-byte payload buffer.
    pub data: Vec<u8>,
}

impl CanFrame {
    /// Well-formedness: a full eight-byte buffer, a length code within it,
    /// and zeroes beyond the length code.
    pub open spec fn wf(self) -> bool {
        &&& self.data@.len() == 8
        &&& self.can_dlc <= 8
        &&& forall|i: int| self.can_dlc <= i < 8 ==> self.data@[i] == 0u8
    }

    /// The payload the frame carries: the first `can_dlc` buffer bytes.
    pub open spec fn payload(self) -> Seq<u8> {
        self.data@.take(self.can_dlc as int)
    }

    /// Build a frame from an arbitration ID, a payload and a flag set.
    /// The identifier word comes from the identifier encoder; the payload is
    /// copied into the front of a zeroed buffer. A payload longer than eight
    /// bytes is refused with `PayloadTooLong`.
    pub fn init(id: u32, data: &[u8], flags: IdFlags) -> (r: Result<CanFrame, CanError>)
        ensures
            data@.len() <= 8 ==> (r matches Ok(f) && {
                &&& f.wf()
                &&& f.can_id == spec_id_word(id, flags)
                &&& f.can_dlc == data@.len()
                &&& f.payload() == data@
                &&& forall|i: int| 0 <= i < data@.len() ==> f.data@[i] == data@[i]
                &&& forall|i: int| data@.len() <= i < 8 ==> f.data@[i] == 0u8
            }),
            data@.len() > 8 ==> r == Err::<CanFrame, CanError>(CanError::PayloadTooLong),
    {
        let n = data.len();
        if n > 8 {
            return Err(CanError::PayloadTooLong);
        }
        let mut buf: Vec<u8> = Vec::new();
        let mut i: usize = 0;
        while i < 8
            invariant
                i <= 8,
                n <= 8,
                n == data@.len(),
                buf@.len() == i,
                forall|j: int| 0 <= j < i && j < n ==> buf@[j] == data@[j],
                forall|j: int| n <= j < i ==> buf@[j] == 0u8,
            decreases 8 - i,
        {
            if i < n {
                buf.push(data[i]);
            } else {
                buf.push(0u8);
            }
            i += 1;
        }
        let frame = CanFrame { can_id: init_id_word(id, flags), can_dlc: n as u8, data: buf };
        proof {
            assert(frame.payload() =~= data@);
        }
        Ok(frame)
    }

    /// The 16-byte wire image: identifier word little-endian at offset 0,
    /// data length code at offset 4, three reserved zero bytes, payload
    /// buffer at offset 8.
    pub open spec fn spec_wire_bytes(self) -> Seq<u8> {
        seq![
            (self.can_id & 0xFFu32) as u8,
            ((self.can_id >> 8u32) & 0xFFu32) as u8,
            ((self.can_id >> 16u32) & 0xFFu32) as u8,
            ((self.can_id >> 24u32) & 0xFFu32) as u8,
            self.can_dlc,
            0u8,
            0u8,
            0u8,
        ] + self.data@
    }

    /// Render the frame as the byte sequence a raw write must carry. The
    /// ensures pin the size and every field offset of the record.
    pub fn wire_bytes(&self) -> (r: Vec<u8>)
        requires
            self.wf(),
        ensures
            r@ == self.spec_wire_bytes(),
            r@.len() == CAN_FRAME_WIRE_SIZE,
            r@[0] == (self.can_id & 0xFFu32) as u8,
            r@[1] == ((self.can_id >> 8u32) & 0xFFu32) as u8,
            r@[2] == ((self.can_id >> 16u32) & 0xFFu32) as u8,
            r@[3] == ((self.can_id >> 24u32) & 0xFFu32) as u8,
            r@[4] == self.can_dlc,
            r@[5] == 0u8 && r@[6] == 0u8 && r@[7] == 0u8,
            forall|i: int| 0 <= i < 8 ==> r@[8 + i] == self.data@[i],
    {
        let mut b: Vec<u8> = Vec::new();
        b.push((self.can_id & 0xFF) as u8);
        b.push(((self.can_id >> 8) & 0xFF) as u8);
        b.push(((self.can_id >> 16) & 0xFF) as u8);
        b.push(((self.can_id >> 24) & 0xFF) as u8);
        b.push(self.can_dlc);
        b.push(0u8);
        b.push(0u8);
        b.push(0u8);
        let mut i: usize = 0;
        while i < 8
            invariant
                i <= 8,
                self.wf(),
                b@.len() == 8 + i,
                b@[0] == (self.can_id & 0xFFu32) as u8,
                b@[1] == ((self.can_id >> 8u32) & 0xFFu32) as u8,
                b@[2] == ((self.can_id >> 16u32) & 0xFFu32) as u8,
                b@[3] == ((self.can_id >> 24u32) & 0xFFu32) as u8,
                b@[4] == self.can_dlc,
                b@[5] == 0u8 && b@[6] == 0u8 && b@[7] == 0u8,
                forall|j: int| 0 <= j < i ==> b@[8 + j] == self.data@[j],
            decreases 8 - i,
        {
            b.push(self.data[i]);
            i += 1;
        }
        proof {
            assert(b@ =~= self.spec_wire_bytes());
        }
        b
    }
}

} // verus!

use vstd::prelude::*;

use crate::dynamixel::conversion::{le_u16_value, le_u32_value, read_u16_le, read_u32_le};

verus! {

// File over EtherCAT (FoE), mailbox type 4: after the 6-byte mailbox header comes a
// 6-byte FoE header (request type in byte 6, packet number in bytes 8-11) and the data.

/// FoE request types.
#[derive(Debug, Clone, Copy, PartialEq, Eq, Structural)]
pub enum FoERequestType {
    ReadRequest,
    WriteRequest,
    Data,
    Acknowledge,
    Error,
    Busy,
}

impl FoERequestType {
    /// Wire value of the request type.
    pub open spec fn code(self) -> u8 {
        match self {
            FoERequestType::ReadRequest => 1,
            FoERequestType::WriteRequest => 2,
            FoERequestType::Data => 3,
            FoERequestType::Acknowledge => 4,
            FoERequestType::Error => 5,
            FoERequestType::Busy => 6,
        }
    }

    /// Wire value of the request type.
    pub fn to_u8(self) -> (r: u8)
        ensures
            r == self.code(),
    {
        match self {
            FoERequestType::ReadRequest => 1,
            FoERequestType::WriteRequest => 2,
            FoERequestType::Data => 3,
            FoERequestType::Acknowledge => 4,
            FoERequestType::Error => 5,
            FoERequestType::Busy => 6,
        }
    }
}

/// The request type with wire value `b`, if there is one.
pub open spec fn request_type_of(b: u8) -> Option<FoERequestType> {
    match b {
        1 => Some(FoERequestType::ReadRequest),
        2 => Some(FoERequestType::WriteRequest),
        3 => Some(FoERequestType::Data),
        4 => Some(FoERequestType::Acknowledge),
        5 => Some(FoERequestType::Error),
        6 => Some(FoERequestType::Busy),
        _ => None,
    }
}

/// Decoded FoE header; `data_size` is the mailbox data size, FoE header included.
#[derive(Debug, Clone, Copy, PartialEq, Eq, Structural)]
pub struct FoEFrameHeader {
    pub request_type: FoERequestType,
    pub data_size: u16,
    pub packet_number: u32,
}

/// A FoE frame: its header and its data.
pub struct FoEFrame<'a> {
    pub header: FoEFrameHeader,
    pub data: &'a [u8],
}

/// The header decoded from a mailbox buffer, if its request type is known.
pub open spec fn spec_foe_header(b: Seq<u8>) -> Option<FoEFrameHeader> {
    match request_type_of(b[6]) {
        None => None,
        Some(t) => Some(
            FoEFrameHeader {
                request_type: t,
                data_size: le_u16_value(b, 0),
                packet_number: le_u32_value(b, 8),
            },
        ),
    }
}

/// The buffer is long enough for the header fields the parser reads.
pub open spec fn foe_header_in_bounds(b: Seq<u8>) -> bool {
    &&& b.len() >= 7
    &&& request_type_of(b[6]) is Some ==> b.len() >= 12
}

/// Decodes the FoE header of a mailbox buffer; an unknown request type is an error.
pub fn foe_parse_header(data: &[u8]) -> (res: Result<FoEFrameHeader, ()>)
    requires
        foe_header_in_bounds(data@),
    ensures
        spec_foe_header(data@) is None ==> res is Err,
        spec_foe_header(data@) matches Some(h) ==> res == Ok::<FoEFrameHeader, ()>(h),
{
    let data_size = read_u16_le(data, 0);
    let foe_data_index: usize = 6;
    let request_type = match data[foe_data_index] {
        0x1 => FoERequestType::ReadRequest,
        0x2 => FoERequestType::WriteRequest,
        0x3 => FoERequestType::Data,
        0x4 => FoERequestType::Acknowledge,
        0x5 => FoERequestType::Error,
        0x6 => FoERequestType::Busy,
        _ => {
            return Err(());
        },
    };
    let packet_number = read_u32_le(data, foe_data_index + 2);
    Ok(FoEFrameHeader { request_type, data_size, packet_number })
}

/// The frame in the buffer announces at least its own header and no more data than
/// the buffer holds.
pub open spec fn foe_frame_in_bounds(b: Seq<u8>) -> bool {
    &&& foe_header_in_bounds(b)
    &&& spec_foe_header(b) matches Some(h) ==> h.data_size >= 6 && 12 + (h.data_size - 6)
        <= b.len()
}

impl<'a> FoEFrame<'a> {
    /// Decodes the FoE frame of a mailbox buffer: its data are the `data_size - 6` bytes
    /// after the headers.
    pub fn new(mailbox_data: &'a [u8]) -> (res: Result<Self, ()>)
        requires
            foe_frame_in_bounds(mailbox_data@),
        ensures
            spec_foe_header(mailbox_data@) is None ==> res is Err,
            spec_foe_header(mailbox_data@) matches Some(h) ==> (res matches Ok(f) && f.header
                == h && f.data@ == mailbox_data@.subrange(12, 12 + h.data_size - 6)),
    {
        let header = match foe_parse_header(mailbox_data) {
            Ok(header) => header,
            Err(_) => {
                return Err(());
            },
        };
        let data_ind: usize = 6 + 6;
        let size = header.data_size as usize - 6;
        let data = &mailbox_data[data_ind..data_ind + size];
        Ok(FoEFrame { header, data })
    }

    /// Request type of the frame.
    pub fn get_request_type(&self) -> (r: FoERequestType)
        ensures
            r == self.header.request_type,
    {
        self.header.request_type
    }

    /// Number of data bytes, truncated to 16 bits.
    pub fn get_data_size(&self) -> (r: u16)
        ensures
            r == self.data@.len() as u16,
    {
        self.data.len() as u16
    }

    /// The frame is shorter than a full 128-byte mailbox, so it ends the file.
    pub fn is_full_packet(&self) -> (r: bool)
        ensures
            r == (self.data@.len() < 116),
    {
        self.data.len() < 128 - 6 - 6
    }
}

/// The buffer with the FoE reply header `request` written: length 1, FoE type.
pub open spec fn spec_foe_reply(w: Seq<u8>, request: FoERequestType) -> Seq<u8> {
    w.update(0, 1u8).update(5, 4u8).update(6, request.code())
}

/// Turns `data` into a FoE acknowledgement.
pub fn foe_prepare_acknowledge(data: &mut [u8])
    requires
        old(data)@.len() >= 7,
    ensures
        final(data)@ == spec_foe_reply(old(data)@, FoERequestType::Acknowledge),
{
    data[0] = 1;
    data[5] = 0x04;
    data[6] = FoERequestType::Acknowledge.to_u8();
}

/// Turns `data` into a FoE error.
pub fn foe_prepare_error(data: &mut [u8])
    requires
        old(data)@.len() >= 7,
    ensures
        final(data)@ == spec_foe_reply(old(data)@, FoERequestType::Error),
{
    data[0] = 1;
    data[5] = 0x04;
    data[6] = FoERequestType::Error.to_u8();
}

/// Staging buffer of a received file.
pub struct FoEBuffer {
    pub data: [u8; 4096],
    pub size: usize,
    pub data_len: usize,
}

/// A file being received over FoE.
pub struct FoEObject<'a> {
    pub name: &'a str,
    pub buffer: FoEBuffer,
    pub no_received_packets: u32,
    pub no_received_bytes: u32,
    pub no_written_bytes: u32,
}

/// Number of bytes of a chunk of `len` bytes that fit in the buffer.
pub open spec fn accepted_len(b: FoEBuffer, len: int) -> int {
    if len + b.data_len > b.size {
        b.size - b.data_len
    } else {
        len
    }
}

impl<'a> FoEObject<'a> {
    /// The staging buffer holds at most its size, which fits its storage.
    pub open spec fn wf(&self) -> bool {
        self.buffer.data_len <= self.buffer.size <= 4096
    }

    /// A fresh file: erased (0xFF) 4096-byte buffer, nothing received or written.
    pub fn new() -> (res: Result<Self, ()>)
        ensures
            res matches Ok(f) && f.wf() && f.buffer.size == 4096 && f.buffer.data_len == 0
                && f.no_received_packets == 0 && f.no_received_bytes == 0 && f.no_written_bytes
                == 0 && f.name@.len() == 0 && forall|k: int| 0 <= k < 4096 ==> f.buffer.data[k]
                == 255,
    {
        Ok(FoEObject::empty())
    }

    /// A fresh file: erased (0xFF) 4096-byte buffer, nothing received or written.
    pub fn empty() -> (f: Self)
        ensures
            f.wf(),
            f.buffer.size == 4096,
            f.buffer.data_len == 0,
            f.no_received_packets == 0,
            f.no_received_bytes == 0,
            f.no_written_bytes == 0,
            f.name@.len() == 0,
            forall|k: int| 0 <= k < 4096 ==> f.buffer.data[k] == 255,
    {
        let name = "";
        proof {
            reveal_strlit("");
        }
        FoEObject {
            name,
            buffer: FoEBuffer { data: [255u8; 4096], size: 4096, data_len: 0 },
            no_received_packets: 0,
            no_received_bytes: 0,
            no_written_bytes: 0,
        }
    }

    /// Number of bytes received so far.
    pub fn get_filesize(&self) -> (r: u32)
        ensures
            r == self.no_received_bytes,
    {
        self.no_received_bytes
    }

    /// Appends as much of `data` as fits in the buffer and counts the packet; returns
    /// the number of bytes taken.
    pub fn fill_buffer(&mut self, data: &[u8]) -> (n: usize)
        requires
            old(self).wf(),
            old(self).no_received_packets < u32::MAX,
            old(self).no_received_bytes + accepted_len(old(self).buffer, data@.len() as int)
                <= u32::MAX,
        ensures
            n == accepted_len(old(self).buffer, data@.len() as int),
            final(self).wf(),
            final(self).buffer.size == old(self).buffer.size,
            final(self).buffer.data_len == old(self).buffer.data_len + n,
            final(self).buffer.data@ == old(self).buffer.data@.subrange(
                0,
                old(self).buffer.data_len as int,
            ) + data@.subrange(0, n as int) + old(self).buffer.data@.subrange(
                old(self).buffer.data_len + n,
                4096,
            ),
            final(self).no_received_packets == old(self).no_received_packets + 1,
            final(self).no_received_bytes == old(self).no_received_bytes + n,
            final(self).no_written_bytes == old(self).no_written_bytes,
            final(self).name == old(self).name,
            old(self).no_written_bytes + old(self).buffer.data_len == old(self).no_received_bytes
                ==> final(self).no_written_bytes + final(self).buffer.data_len
                == final(self).no_received_bytes,
    {
        let mut data_len = data.len();
        let size = self.buffer.size;
        let start = self.buffer.data_len;
        if data_len > size - start {
            data_len = size - start;
        }
        let ghost old_data = self.buffer.data@;
        let mut i: usize = 0;
        while i < data_len
            invariant
                i <= data_len,
                data_len <= data@.len(),
                start + data_len <= 4096,
                self.buffer.data@.len() == 4096,
                forall|k: int| 0 <= k < start ==> self.buffer.data@[k] == old_data[k],
                forall|k: int| 0 <= k < i ==> self.buffer.data@[start + k] == data@[k],
                forall|k: int| start + i <= k < 4096 ==> self.buffer.data@[k] == old_data[k],
                self.buffer.size == size,
                self.buffer.data_len == start,
                self.no_received_packets == old(self).no_received_packets,
                self.no_received_bytes == old(self).no_received_bytes,
                self.no_written_bytes == old(self).no_written_bytes,
                self.name == old(self).name,
            decreases data_len - i,
        {
            self.buffer.data[start + i] = data[i];
            i = i + 1;
        }
        assert(self.buffer.data@ =~= old_data.subrange(0, start as int) + data@.subrange(
            0,
            data_len as int,
        ) + old_data.subrange(start + data_len, 4096));
        self.buffer.data_len = start + data_len;
        self.no_received_packets = self.no_received_packets + 1;
        self.no_received_bytes = self.no_received_bytes + data_len as u32;
        data_len
    }

    /// Empties the staging buffer.
    pub fn clear_buffer(&mut self)
        requires
            old(self).wf(),
        ensures
            final(self).wf(),
            final(self).buffer.data_len == 0,
            final(self).buffer.size == old(self).buffer.size,
            final(self).buffer.data == old(self).buffer.data,
            final(self).no_received_packets == old(self).no_received_packets,
            final(self).no_received_bytes == old(self).no_received_bytes,
            final(self).no_written_bytes == old(self).no_written_bytes,
    {
        self.buffer.data_len = 0;
    }
}

impl<'a> FoEObject<'a> {
    /// Every byte received has been written to flash or is staged in the buffer.
    pub open spec fn accounted(&self) -> bool {
        self.no_written_bytes + self.buffer.data_len == self.no_received_bytes
    }

    /// The full staging buffer has been written to flash: its bytes count as written,
    /// it is emptied, and `rest` (the part of the chunk that did not fit) is staged.
    pub fn full_buffer_written(&mut self, rest: &[u8]) -> (n: usize)
        requires
            old(self).wf(),
            old(self).buffer.data_len == old(self).buffer.size,
            old(self).no_written_bytes + old(self).buffer.size <= u32::MAX,
            old(self).no_received_packets < u32::MAX,
            old(self).no_received_bytes + accepted_len(
                FoEBuffer { data_len: 0, ..old(self).buffer },
                rest@.len() as int,
            ) <= u32::MAX,
        ensures
            final(self).wf(),
            final(self).no_written_bytes == old(self).no_written_bytes + old(self).buffer.size,
            n == (if rest@.len() > old(self).buffer.size {
                old(self).buffer.size as int
            } else {
                rest@.len() as int
            }),
            final(self).buffer.data_len == n,
            final(self).buffer.size == old(self).buffer.size,
            final(self).buffer.data@.subrange(0, n as int) == rest@.subrange(0, n as int),
            final(self).no_received_bytes == old(self).no_received_bytes + n,
            final(self).no_received_packets == old(self).no_received_packets + 1,
            old(self).accounted() ==> final(self).accounted(),
    {
        self.no_written_bytes = self.no_written_bytes + self.buffer.size as u32;
        self.clear_buffer();
        self.fill_buffer(rest)
    }

    /// The block written for the end of the file: the staged bytes, then erased bytes
    /// (0xFF) up to 4096.
    pub fn last_block(&self) -> (b: [u8; 4096])
        requires
            self.wf(),
        ensures
            forall|k: int| 0 <= k < self.buffer.data_len ==> b[k] == self.buffer.data[k],
            forall|k: int| self.buffer.data_len <= k < 4096 ==> b[k] == 255,
    {
        let mut b = [255u8; 4096];
        let mut i: usize = 0;
        while i < self.buffer.data_len
            invariant
                i <= self.buffer.data_len <= 4096,
                forall|k: int| 0 <= k < i ==> b[k] == self.buffer.data[k],
                forall|k: int| i <= k < 4096 ==> b[k] == 255,
            decreases self.buffer.data_len - i,
        {
            b[i] = self.buffer.data[i];
            i = i + 1;
        }
        b
    }

    /// The last block has been written to flash: the staged bytes count as written.
    pub fn last_block_written(&mut self)
        requires
            old(self).no_written_bytes + old(self).buffer.data_len <= u32::MAX,
        ensures
            final(self).no_written_bytes == old(self).no_written_bytes + old(self).buffer.data_len,
            final(self).buffer == old(self).buffer,
            final(self).no_received_bytes == old(self).no_received_bytes,
            final(self).no_received_packets == old(self).no_received_packets,
            final(self).name == old(self).name,
    {
        self.no_written_bytes = self.no_written_bytes + self.buffer.data_len as u32;
    }
}

/// A chunk is taken whole while it fits, and otherwise exactly fills the buffer; the
/// buffer never holds more than its size.
pub proof fn law_fill_never_overflows(b: FoEBuffer, len: int)
    requires
        b.data_len <= b.size,
        len >= 0,
    ensures
        0 <= accepted_len(b, len) <= len,
        b.data_len + accepted_len(b, len) <= b.size,
        accepted_len(b, len) < len ==> b.data_len + accepted_len(b, len) == b.size,
{
}

/// An acknowledgement or error reply is read back as a FoE frame of that request type.
pub proof fn law_reply_decodes(w: Seq<u8>, request: FoERequestType)
    requires
        w.len() >= 12,
        request == FoERequestType::Acknowledge || request == FoERequestType::Error,
    ensures
        spec_foe_reply(w, request)[5] == 4,
        spec_foe_header(spec_foe_reply(w, request)) matches Some(h) && h.request_type == request,
{
}

} // verus!

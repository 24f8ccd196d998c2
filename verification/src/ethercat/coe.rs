use vstd::prelude::*;

use crate::dynamixel::conversion::{
    le_u16_value, le_u32_bytes, le_u32_value, put_u32_le, read_u16_le, read_u32_le,
};

verus! {

// CAN over EtherCAT (CoE), mailbox type 3, laid out after the 6-byte mailbox header:
// bytes 6-7 request type in the top four bits (2: SDO request, 3: SDO response);
// byte 8: bits 0-1 size indicator (1 normal, 3 expedited), bits 2-3 four minus the
// expedited size, bits 5-6 command (1: download request); bytes 9-10 index;
// byte 11 sub-index; then the data: directly for an expedited transfer, after a
// 4-byte size for a normal one.

/// Decoded CoE header.
#[derive(Debug, Clone, Copy, PartialEq, Eq, Structural)]
pub struct CoEFrameHeader {
    pub request_type: u16,
    pub size_indicator: u8,
    pub size_bytes: u8,
    pub download: bool,
    pub index: u16,
    pub sub_index: u8,
}

/// A CoE frame: its header and the data it carries.
pub struct CoEFrame<'a> {
    pub header: CoEFrameHeader,
    pub data: &'a [u8],
}

/// The header decoded from a mailbox buffer.
pub open spec fn spec_coe_header(b: Seq<u8>) -> CoEFrameHeader {
    CoEFrameHeader {
        request_type: le_u16_value(b, 6) >> 12u16,
        size_indicator: b[8] & 0b11,
        size_bytes: if b[8] & 0b11 == 3 {
            (4 - ((b[8] >> 2u8) & 0b11)) as u8
        } else {
            0
        },
        download: (b[8] >> 5u8) & 0b11 == 0x1,
        index: le_u16_value(b, 9),
        sub_index: b[11],
    }
}

impl CoEFrameHeader {
    /// Expedited transfer: the data follows the sub-index.
    pub open spec fn spec_is_expedited(&self) -> bool {
        self.size_indicator == 0x3
    }

    /// Normal transfer: a 4-byte size precedes the data.
    pub open spec fn spec_is_normal(&self) -> bool {
        self.size_indicator == 0x1
    }

    /// SDO request or SDO response.
    pub open spec fn spec_is_sdo(&self) -> bool {
        self.request_type == 0x2 || self.request_type == 0x3
    }

    /// Expedited transfer.
    pub fn is_expedited(&self) -> (r: bool)
        ensures
            r == self.spec_is_expedited(),
    {
        self.size_indicator == 0x3
    }

    /// Normal transfer.
    pub fn is_normal(&self) -> (r: bool)
        ensures
            r == self.spec_is_normal(),
    {
        self.size_indicator == 0x1
    }

    /// SDO request.
    pub fn is_request(&self) -> (r: bool)
        ensures
            r == (self.request_type == 0x2),
    {
        self.request_type == 0x2
    }

    /// SDO response.
    pub fn is_response(&self) -> (r: bool)
        ensures
            r == (self.request_type == 0x3),
    {
        self.request_type == 0x3
    }
}

/// Where the data of the frame in `b` lies, as `(start, end)`; empty for frames that
/// are neither expedited nor normal SDO transfers.
pub open spec fn coe_data_range(b: Seq<u8>) -> (int, int) {
    let h = spec_coe_header(b);
    if h.spec_is_expedited() && h.spec_is_sdo() {
        (12, 12 + h.size_bytes)
    } else if h.spec_is_normal() && h.spec_is_sdo() {
        (16, 16 + le_u32_value(b, 12))
    } else {
        (0, 0)
    }
}

/// The buffer holds the header and the data the header announces.
pub open spec fn coe_frame_in_bounds(b: Seq<u8>) -> bool {
    &&& b.len() >= 12
    &&& {
        let h = spec_coe_header(b);
        &&& h.spec_is_normal() && h.spec_is_sdo() ==> b.len() >= 16
        &&& coe_data_range(b).1 <= b.len()
    }
}

/// Decodes the CoE header that follows the mailbox header in `data`.
pub fn coe_parse_header(data: &[u8]) -> (h: CoEFrameHeader)
    requires
        data@.len() >= 12,
    ensures
        h == spec_coe_header(data@),
{
    let b8 = data[8];
    CoEFrameHeader {
        request_type: read_u16_le(data, 6) >> 12u16,
        size_indicator: b8 & 0b11,
        size_bytes: if b8 & 0b11 == 3 {
            proof {
                assert((b8 >> 2u8) & 0b11 <= 3) by (bit_vector);
            }
            4 - ((b8 >> 2u8) & 0b11)
        } else {
            0
        },
        download: (b8 >> 5u8) & 0b11 == 0x1,
        index: read_u16_le(data, 9),
        sub_index: data[11],
    }
}

impl<'a> CoEFrame<'a> {
    /// Decodes the CoE frame in a mailbox buffer.
    pub fn new(mailbox_data: &'a [u8]) -> (res: Result<Self, ()>)
        requires
            coe_frame_in_bounds(mailbox_data@),
        ensures
            res matches Ok(f) && f.header == spec_coe_header(mailbox_data@) && f.data@
                == mailbox_data@.subrange(
                coe_data_range(mailbox_data@).0,
                coe_data_range(mailbox_data@).1,
            ),
    {
        let header = coe_parse_header(mailbox_data);
        let data_ind: usize = 6 + 6;
        if header.is_expedited() && (header.is_request() || header.is_response()) {
            let size = header.size_bytes as usize;
            Ok(CoEFrame { header, data: &mailbox_data[data_ind..data_ind + size] })
        } else if header.is_normal() && (header.is_request() || header.is_response()) {
            let total = mailbox_data.len();
            let data_size = read_u32_le(mailbox_data, data_ind);
            assert(data_ind + 4 + data_size as usize <= total);
            Ok(
                CoEFrame {
                    header,
                    data: &mailbox_data[data_ind + 4..data_ind + 4 + data_size as usize],
                },
            )
        } else {
            let data = &mailbox_data[0..0];
            assert(data@ =~= mailbox_data@.subrange(0, 0));
            Ok(CoEFrame { header, data })
        }
    }

    /// SDO request.
    pub fn is_request(&self) -> (r: bool)
        ensures
            r == (self.header.request_type == 0x2),
    {
        self.header.request_type == 0x2
    }

    /// SDO response.
    pub fn is_response(&self) -> (r: bool)
        ensures
            r == (self.header.request_type == 0x3),
    {
        self.header.request_type == 0x3
    }

    /// Download (write) command.
    pub fn is_download(&self) -> (r: bool)
        ensures
            r == self.header.download,
    {
        self.header.download
    }

    /// Upload (read) command.
    pub fn is_upload(&self) -> (r: bool)
        ensures
            r == !self.header.download,
    {
        !self.header.download
    }

    /// Expedited transfer.
    pub fn is_expedited(&self) -> (r: bool)
        ensures
            r == self.header.spec_is_expedited(),
    {
        self.header.is_expedited()
    }

    /// Normal transfer.
    pub fn is_normal(&self) -> (r: bool)
        ensures
            r == self.header.spec_is_normal(),
    {
        self.header.is_normal()
    }

    /// Object dictionary index.
    pub fn get_index(&self) -> (r: u16)
        ensures
            r == self.header.index,
    {
        self.header.index
    }

    /// Object dictionary sub-index.
    pub fn get_subindex(&self) -> (r: u8)
        ensures
            r == self.header.sub_index,
    {
        self.header.sub_index
    }

    /// Index and sub-index of the object.
    pub fn get_sdo_entry(&self) -> (r: (u16, u8))
        ensures
            r == (self.header.index, self.header.sub_index),
    {
        (self.header.index, self.header.sub_index)
    }

    /// Number of data bytes, truncated to 32 bits.
    pub fn get_data_size(&self) -> (r: u32)
        ensures
            r == self.data@.len() as u32,
    {
        self.data.len() as u32
    }
}

/// The buffer after turning it into a download response.
pub open spec fn spec_down_response(w: Seq<u8>) -> Seq<u8> {
    w.update(8, 0x60u8)
}

/// Marks the frame being prepared in `data_coe_write` as an SDO download response.
pub fn coe_prepare_down_response(data_coe_write: &mut [u8])
    requires
        old(data_coe_write)@.len() >= 9,
    ensures
        final(data_coe_write)@ == spec_down_response(old(data_coe_write)@),
{
    let coe_header_start_ind: usize = 6;
    // download response: command 3 in bits 5-6
    data_coe_write[coe_header_start_ind + 2] = 0x60;
}

/// An upload response carries `data` expedited when it is a number of at most four
/// bytes; a longer number or data that is not a number (a string) goes as a normal
/// transfer with a 4-byte size.
pub open spec fn up_response_expedited(data: Seq<u8>, is_numeral: bool) -> bool {
    is_numeral && data.len() <= 4
}

/// Where the data of an upload response starts.
pub open spec fn up_response_data_start(data: Seq<u8>, is_numeral: bool) -> int {
    if up_response_expedited(data, is_numeral) {
        12
    } else {
        16
    }
}

/// The upload response built from the prepared frame `w`: length byte `10 + n`,
/// command byte, for a normal transfer the 4-byte size, then the data.
pub open spec fn spec_up_response(w: Seq<u8>, data: Seq<u8>, is_numeral: bool) -> Seq<u8> {
    let n = data.len();
    let start = up_response_data_start(data, is_numeral);
    let w1 = w.update(0, (10 + (n as u8)) as u8);
    let w2 = if up_response_expedited(data, is_numeral) {
        w1.update(8, (0x43 + 4 * (4 - (n as u8))) as u8)
    } else {
        w1.update(8, 0x41u8).update(12, le_u32_bytes(n as u32)[0]).update(
            13,
            le_u32_bytes(n as u32)[1],
        ).update(14, le_u32_bytes(n as u32)[2]).update(15, le_u32_bytes(n as u32)[3])
    };
    w2.subrange(0, start) + data + w2.subrange(start + n, w2.len() as int)
}

/// The inputs on which building an upload response stays in bounds: room for the data
/// and a length byte that does not overflow.
pub open spec fn up_response_fits(w: Seq<u8>, data: Seq<u8>, is_numeral: bool) -> bool {
    &&& up_response_data_start(data, is_numeral) + data.len() <= w.len()
    &&& data.len() % 256 <= 245
}

proof fn lemma_expedited_command(m: u8)
    requires
        m <= 4,
    ensures
        ((0x2u8 << 5u8) | (m << 2u8) | 0x3u8) == 0x43 + 4 * m,
{
    assert(m <= 4 ==> ((0x2u8 << 5u8) | (m << 2u8) | 0x3u8) == 0x43 + 4 * m) by (bit_vector);
}

/// Fills in the frame prepared in `data_coe_write` as an SDO upload response carrying
/// `data`.
pub fn coe_prepare_up_response(data_coe_write: &mut [u8], data: &[u8], is_numeral: bool)
    requires
        up_response_fits(old(data_coe_write)@, data@, is_numeral),
    ensures
        final(data_coe_write)@ == spec_up_response(old(data_coe_write)@, data@, is_numeral),
{
    let ghost w0 = data_coe_write@;
    let coe_header_start_ind: usize = 6;
    let mut data_start_ind: usize = coe_header_start_ind + 6;
    data_coe_write[0] = 10;
    let data_sdo_len = data.len();
    assert(data_sdo_len as u8 == data_sdo_len % 256) by (bit_vector);
    if is_numeral && data_sdo_len <= 4 {
        // upload response (command 2), 4 - n unused bytes, expedited
        let m: u8 = 4 - data_sdo_len as u8;
        proof {
            lemma_expedited_command(m);
        }
        data_coe_write[coe_header_start_ind + 2] = (0x2u8 << 5u8) | (m << 2u8) | 0x3;
    } else {
        // upload response (command 2), normal transfer
        proof {
            assert(((0x2u8 << 5u8) | 0x1u8) == 0x41) by (bit_vector);
        }
        data_coe_write[coe_header_start_ind + 2] = (0x2u8 << 5u8) | 0x1;
        put_u32_le(data_coe_write, data_start_ind, data_sdo_len as u32);
        data_start_ind += 4;
    }
    let ghost w2 = data_coe_write@;
    let total = data_coe_write.len();
    let mut i: usize = 0;
    while i < data_sdo_len
        invariant
            i <= data_sdo_len,
            total == w2.len(),
            data_sdo_len == data@.len(),
            data_start_ind == up_response_data_start(data@, is_numeral),
            w2[0] == 10,
            data_start_ind + data_sdo_len <= total,
            data_coe_write@.len() == w2.len(),
            forall|k: int| 0 <= k < data_start_ind ==> data_coe_write@[k] == w2[k],
            forall|k: int| 0 <= k < i ==> data_coe_write@[data_start_ind + k] == data@[k],
            forall|k: int|
                data_start_ind + i <= k < w2.len() ==> data_coe_write@[k] == w2[k],
        decreases data_sdo_len - i,
    {
        data_coe_write[data_start_ind + i] = data[i];
        i = i + 1;
    }
    let l = data_coe_write[0];
    assert(l == 10);
    data_coe_write[0] = l + data_sdo_len as u8;
    proof {
        let n = data@.len();
        let start = data_start_ind as int;
        let w1 = w0.update(0, (10 + (n as u8)) as u8);
        let w2s = if up_response_expedited(data@, is_numeral) {
            w1.update(8, (0x43 + 4 * (4 - (n as u8))) as u8)
        } else {
            w1.update(8, 0x41u8).update(12, le_u32_bytes(n as u32)[0]).update(
                13,
                le_u32_bytes(n as u32)[1],
            ).update(14, le_u32_bytes(n as u32)[2]).update(15, le_u32_bytes(n as u32)[3])
        };
        assert(w2s.len() == w2.len());
        assert forall|k: int| 1 <= k < w2.len() implies w2s[k] == w2[k] by {}
        let expect = spec_up_response(w0, data@, is_numeral);
        assert(expect =~= w2s.subrange(0, start) + data@ + w2s.subrange(
            start + n,
            w2s.len() as int,
        ));
        assert(data_coe_write@ =~= expect);
    }
}

/// The 128-byte mailbox buffer of a CoE frame for `index`/`sub_index`: length 10,
/// CoE type, SDO response or request.
pub open spec fn spec_coe_dataframe(index: u16, sub_index: u8, response: bool) -> Seq<u8> {
    Seq::new(
        128,
        |k: int|
            if k == 0 {
                10u8
            } else if k == 5 {
                3u8
            } else if k == 7 {
                if response {
                    0x30u8
                } else {
                    0x20u8
                }
            } else if k == 9 {
                (index % 256) as u8
            } else if k == 10 {
                (index / 256) as u8
            } else if k == 11 {
                sub_index
            } else {
                0u8
            },
    )
}

/// Starts a CoE mailbox frame for `index`/`sub_index`.
pub fn coe_prepare_dataframe(index: u16, sub_index: u8, response: bool) -> (r: [u8; 128])
    ensures
        r@ == spec_coe_dataframe(index, sub_index, response),
{
    let mut data_write = [0x00u8; 128];
    data_write[0] = 10;
    data_write[5] = 0x03;
    let coe_start_ind: usize = 6;
    // request type in the top four bits
    let code: u16 = if response {
        0x3000
    } else {
        0x2000
    };
    data_write[coe_start_ind] = (code % 256) as u8;
    data_write[coe_start_ind + 1] = (code / 256) as u8;
    data_write[coe_start_ind + 3] = (index % 256) as u8;
    data_write[coe_start_ind + 4] = (index / 256) as u8;
    data_write[coe_start_ind + 5] = sub_index;
    assert(data_write@ =~= spec_coe_dataframe(index, sub_index, response));
    data_write
}

/// A prepared frame is read back as an SDO response (or request) for the same object.
pub proof fn law_dataframe_header(index: u16, sub_index: u8, response: bool)
    ensures
        ({
            let h = spec_coe_header(spec_coe_dataframe(index, sub_index, response));
            &&& h.request_type == if response {
                3u16
            } else {
                2u16
            }
            &&& h.index == index
            &&& h.sub_index == sub_index
        }),
{
    let b = spec_coe_dataframe(index, sub_index, response);
    assert(b[6] == 0 && b[11] == sub_index);
    assert(b[7] == if response {
        0x30u8
    } else {
        0x20u8
    });
    assert(b[9] == (index % 256) as u8 && b[10] == (index / 256) as u8);
    assert((0x3000u16 >> 12u16) == 3 && (0x2000u16 >> 12u16) == 2) by (bit_vector);
    assert((index % 256) + 256 * (index / 256) == index) by (bit_vector);
}

/// An upload response built for a number of one to four bytes is decoded as an
/// expedited SDO response that carries exactly that number. (An empty number is
/// announced as four bytes.)
pub proof fn law_expedited_up_response_roundtrip(
    index: u16,
    sub_index: u8,
    data: Seq<u8>,
    is_numeral: bool,
)
    requires
        1 <= data.len() <= 4,
        is_numeral,
    ensures
        ({
            let b = spec_up_response(spec_coe_dataframe(index, sub_index, true), data, is_numeral);
            let h = spec_coe_header(b);
            &&& coe_frame_in_bounds(b)
            &&& h.spec_is_expedited() && h.request_type == 3
            &&& h.index == index && h.sub_index == sub_index
            &&& h.size_bytes == data.len()
            &&& b.subrange(coe_data_range(b).0, coe_data_range(b).1) == data
        }),
{
    let w = spec_coe_dataframe(index, sub_index, true);
    law_dataframe_header(index, sub_index, true);
    let b = spec_up_response(w, data, is_numeral);
    let n = data.len() as u8;
    assert(n <= 4);
    assert(b.len() == 128);
    assert(b[6] == w[6] && b[7] == w[7] && b[9] == w[9] && b[10] == w[10] && b[11] == w[11]);
    let m: u8 = (4 - n) as u8;
    assert(b[8] == 0x43 + 4 * m);
    assert(m < 4 ==> {
        let c = (0x43 + 4 * m) as u8;
        &&& c & 0b11 == 3
        &&& (c >> 2u8) & 0b11 == m
    }) by (bit_vector);
    assert(b.subrange(12, 12 + data.len() as int) =~= data);
}

/// An upload response built for data that is not a number, or a number longer than
/// four bytes, is decoded as a normal SDO response whose 4-byte size and data carry
/// exactly that data.
pub proof fn law_normal_up_response_roundtrip(
    index: u16,
    sub_index: u8,
    data: Seq<u8>,
    is_numeral: bool,
)
    requires
        !(is_numeral && data.len() <= 4),
        data.len() <= 112,
    ensures
        ({
            let b = spec_up_response(spec_coe_dataframe(index, sub_index, true), data, is_numeral);
            let h = spec_coe_header(b);
            &&& coe_frame_in_bounds(b)
            &&& h.spec_is_normal() && h.request_type == 3
            &&& h.index == index && h.sub_index == sub_index
            &&& b[8] == 0x41
            &&& b.subrange(coe_data_range(b).0, coe_data_range(b).1) == data
        }),
{
    let w = spec_coe_dataframe(index, sub_index, true);
    law_dataframe_header(index, sub_index, true);
    let b = spec_up_response(w, data, is_numeral);
    let n = data.len();
    assert(b.len() == 128);
    assert(b[6] == w[6] && b[7] == w[7] && b[9] == w[9] && b[10] == w[10] && b[11] == w[11]);
    assert(b[8] == 0x41);
    assert(0x41u8 & 0b11 == 1) by (bit_vector);
    assert(b[12] == n && b[13] == 0 && b[14] == 0 && b[15] == 0);
    assert(le_u32_value(b, 12) == n);
    assert(b.subrange(16, 16 + n as int) =~= data);
}

} // verus!

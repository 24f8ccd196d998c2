use vstd::prelude::*;

use super::{checksum, crc, ParsingError};

verus! {

/// A ping addressed to this board.
#[derive(Debug, Clone, Copy, PartialEq, Eq, Structural)]
pub struct PingPacket {
    pub id: u8,
}

/// A request to read `data_length` bytes from the register at `address`.
#[derive(Debug, Clone, Copy, PartialEq, Eq, Structural)]
pub struct ReadDataPacket {
    pub id: u8,
    pub address: u8,
    pub data_length: u8,
}

/// A request to write `data` to the register at `address`.
pub struct WriteDataPacket<'d> {
    pub id: u8,
    pub address: u8,
    pub data: &'d [u8],
}

/// An instruction packet received on the Dynamixel bus.
pub enum InstructionPacketKind<'d> {
    Ping(PingPacket),
    ReadData(ReadDataPacket),
    WriteData(WriteDataPacket<'d>),
}

/// What an instruction packet carries, with the written bytes as a sequence.
pub enum InstructionPacketView {
    Ping { id: u8 },
    ReadData { id: u8, address: u8, data_length: u8 },
    WriteData { id: u8, address: u8, data: Seq<u8> },
}

impl<'d> View for InstructionPacketKind<'d> {
    type V = InstructionPacketView;

    open spec fn view(&self) -> InstructionPacketView {
        match self {
            InstructionPacketKind::Ping(p) => InstructionPacketView::Ping { id: p.id },
            InstructionPacketKind::ReadData(r) => InstructionPacketView::ReadData {
                id: r.id,
                address: r.address,
                data_length: r.data_length,
            },
            InstructionPacketKind::WriteData(w) => InstructionPacketView::WriteData {
                id: w.id,
                address: w.address,
                data: w.data@,
            },
        }
    }
}

/// A packet header (`0xFF 0xFF`) starts at `b[i]`.
pub open spec fn header_at(b: Seq<u8>, i: int) -> bool {
    b[i] == 0xFF && b[i + 1] == 0xFF
}

/// The first index `h >= i` at which a header starts and after which at least six bytes
/// (a minimal packet) remain; `None` when there is none.
pub open spec fn header_from(b: Seq<u8>, i: int) -> Option<int>
    decreases b.len() - i,
{
    if i < 0 || i + 6 > b.len() {
        None
    } else if header_at(b, i) {
        Some(i)
    } else {
        header_from(b, i + 1)
    }
}

/// The packet that starts at the first header must end exactly at the end of `b`;
/// `len` is its length byte, `params` the bytes between instruction and checksum.
pub open spec fn packet_params(b: Seq<u8>, h: int) -> Seq<u8> {
    b.subrange(h + 5, b.len() - 1)
}

/// Parsing of the bytes received for `receiver_id`.
pub open spec fn spec_parse(b: Seq<u8>, receiver_id: u8) -> Result<
    InstructionPacketView,
    ParsingError,
> {
    match header_from(b, 0) {
        None => Err(ParsingError::InvalidPacket),
        Some(h) => {
            let id = b[h + 2];
            if id != receiver_id {
                Err(ParsingError::IgnorePacket(receiver_id, id))
            } else if b[h + 3] != b.len() - h - 4 {
                Err(ParsingError::InvalidPacket)
            } else if b[b.len() - 1] != checksum(b.subrange(h + 2, b.len() - 1)) {
                Err(ParsingError::InvalidChecksum)
            } else {
                let instruction = b[h + 4];
                let params = packet_params(b, h);
                if instruction == 1 {
                    Ok(InstructionPacketView::Ping { id })
                } else if instruction == 2 {
                    Ok(
                        InstructionPacketView::ReadData {
                            id,
                            address: params[0],
                            data_length: params[1],
                        },
                    )
                } else if instruction == 3 {
                    Ok(
                        InstructionPacketView::WriteData {
                            id,
                            address: params[0],
                            data: params.drop_first(),
                        },
                    )
                } else {
                    Err(ParsingError::UnkownInstruction(instruction))
                }
            }
        },
    }
}

/// A valid read packet with fewer than two parameters, or a valid write packet with
/// none: the parser indexes parameters that are not there.
pub open spec fn parse_reads_missing_params(b: Seq<u8>, receiver_id: u8) -> bool {
    match header_from(b, 0) {
        None => false,
        Some(h) => {
            &&& b[h + 2] == receiver_id
            &&& b[h + 3] == b.len() - h - 4
            &&& b[b.len() - 1] == checksum(b.subrange(h + 2, b.len() - 1))
            &&& ((b[h + 4] == 2 && packet_params(b, h).len() < 2) || (b[h + 4] == 3
                && packet_params(b, h).len() < 1))
        },
    }
}

/// The parse result seen through the packet view.
pub open spec fn parse_result_view(r: Result<InstructionPacketKind, ParsingError>) -> Result<
    InstructionPacketView,
    ParsingError,
> {
    match r {
        Ok(p) => Ok(p@),
        Err(e) => Err(e),
    }
}


/// The bytes a sender puts on the bus for an instruction with parameters `params`.
pub open spec fn instruction_frame(id: u8, instruction: u8, params: Seq<u8>) -> Seq<u8> {
    let body = seq![id, (params.len() + 2) as u8, instruction] + params;
    seq![0xFFu8, 0xFFu8] + body + seq![checksum(body)]
}

/// A well-formed frame is decoded into the instruction it was built from when it is
/// addressed to the receiver, and ignored, naming both ids, when it is not.
pub proof fn law_parse_instruction_frame(id: u8, receiver_id: u8, instruction: u8, params: Seq<u8>)
    requires
        params.len() <= 253,
    ensures
        ({
            let f = instruction_frame(id, instruction, params);
            let r = spec_parse(f, receiver_id);
            &&& id != receiver_id ==> r == Err::<InstructionPacketView, ParsingError>(
                ParsingError::IgnorePacket(receiver_id, id),
            )
            &&& id == receiver_id && instruction == 1 ==> r == Ok::<
                InstructionPacketView,
                ParsingError,
            >(InstructionPacketView::Ping { id })
            &&& id == receiver_id && instruction == 2 && params.len() >= 2 ==> r == Ok::<
                InstructionPacketView,
                ParsingError,
            >(
                InstructionPacketView::ReadData {
                    id,
                    address: params[0],
                    data_length: params[1],
                },
            )
            &&& id == receiver_id && instruction == 3 && params.len() >= 1 ==> r == Ok::<
                InstructionPacketView,
                ParsingError,
            >(
                InstructionPacketView::WriteData {
                    id,
                    address: params[0],
                    data: params.drop_first(),
                },
            )
            &&& id == receiver_id && !(1 <= instruction <= 3) ==> r == Err::<
                InstructionPacketView,
                ParsingError,
            >(ParsingError::UnkownInstruction(instruction))
        }),
{
    let body = seq![id, (params.len() + 2) as u8, instruction] + params;
    let f = instruction_frame(id, instruction, params);
    assert(f[0] == 0xFF && f[1] == 0xFF);
    assert(header_at(f, 0));
    assert(header_from(f, 0) == Some(0int));
    assert(f[2] == id);
    assert(f[3] == params.len() + 2);
    assert(f[4] == instruction);
    assert(f.subrange(2, f.len() - 1) =~= body);
    assert(f[f.len() - 1] == checksum(body));
    assert(packet_params(f, 0) =~= params);
}

proof fn lemma_header_from_bounds(b: Seq<u8>, i: int)
    ensures
        header_from(b, i) matches Some(h) ==> i <= h && h + 6 <= b.len() && header_at(b, h),
    decreases b.len() - i,
{
    if !(i < 0 || i + 6 > b.len()) && !header_at(b, i) {
        lemma_header_from_bounds(b, i + 1);
    }
}

/// The first packet header of `bytes` followed by at least six bytes, as the parser
/// finds it.
fn find_header(bytes: &[u8]) -> (r: Option<usize>)
    requires
        bytes@.len() <= isize::MAX,
    ensures
        match r {
            Some(h) => header_from(bytes@, 0) == Some(h as int),
            None => header_from(bytes@, 0) is None,
        },
{
    let ghost b = bytes@;
    let len = bytes.len();
    if len < 6 {
        return None;
    }
    let mut idx: usize = 0;
    while !(bytes[idx] == 0xFF && bytes[idx + 1] == 0xFF)
        invariant
            len == b.len(),
            b == bytes@,
            idx + 6 <= len,
            len <= isize::MAX,
            header_from(b, 0) == header_from(b, idx as int),
        decreases len - idx,
    {
        idx += 1;
        if len - idx < 6 {
            return None;
        }
    }
    Some(idx)
}

/// Whether decoding `bytes` for `receiver_id` meets a valid read packet with fewer than
/// two parameters or a valid write packet with none, which the parser cannot decode.
pub fn reads_missing_params(bytes: &[u8], receiver_id: u8) -> (r: bool)
    requires
        bytes@.len() <= isize::MAX,
    ensures
        r == parse_reads_missing_params(bytes@, receiver_id),
{
    let ghost b = bytes@;
    let len = bytes.len();
    match find_header(bytes) {
        None => false,
        Some(idx) => {
            proof {
                lemma_header_from_bounds(b, 0);
            }
            if bytes[idx + 2] != receiver_id || bytes[idx + 3] as usize != len - idx - 4 {
                return false;
            }
            let calculated_crc = crc(&bytes[idx + 2..len - 1]);
            if bytes[len - 1] != calculated_crc {
                return false;
            }
            let n_params = len - 1 - (idx + 5);
            (bytes[idx + 4] == 2 && n_params < 2) || (bytes[idx + 4] == 3 && n_params < 1)
        },
    }
}

impl<'d> InstructionPacketKind<'d> {
    /// Finds the first packet header in `bytes` and decodes the packet that follows it,
    /// which must run to the end of `bytes`.
    pub fn parse(bytes: &'d [u8], receiver_id: u8) -> (res: Result<
        InstructionPacketKind<'d>,
        ParsingError,
    >)
        requires
            bytes@.len() <= isize::MAX,
            !parse_reads_missing_params(bytes@, receiver_id),
        ensures
            parse_result_view(res) == spec_parse(bytes@, receiver_id),
    {
        let ghost b = bytes@;
        let len = bytes.len();
        let idx = match find_header(bytes) {
            Some(h) => h,
            None => {
                return Err(ParsingError::InvalidPacket);
            },
        };
        proof {
            lemma_header_from_bounds(b, 0);
        }
        let id = bytes[idx + 2];
        if id != receiver_id {
            return Err(ParsingError::IgnorePacket(receiver_id, id));
        }
        let length = bytes[idx + 3];
        if length as usize != len - idx - 4 {
            return Err(ParsingError::InvalidPacket);
        }
        let instruction = bytes[idx + 4];
        let params = &bytes[idx + 5..idx + 5 + (length as usize) - 2];
        let received_crc = bytes[idx + 5 + (length as usize) - 2];
        let calculated_crc = crc(&bytes[idx + 2..idx + 5 + (length as usize) - 2]);
        assert(params@ == packet_params(b, idx as int));
        if received_crc != calculated_crc {
            return Err(ParsingError::InvalidChecksum);
        }
        if instruction == 1 {
            Ok(InstructionPacketKind::Ping(PingPacket { id }))
        } else if instruction == 2 {
            Ok(
                InstructionPacketKind::ReadData(
                    ReadDataPacket { id, address: params[0], data_length: params[1] },
                ),
            )
        } else if instruction == 3 {
            let data = &params[1..params.len()];
            assert(data@ =~= params@.drop_first());
            Ok(InstructionPacketKind::WriteData(WriteDataPacket { id, address: params[0], data }))
        } else {
            Err(ParsingError::UnkownInstruction(instruction))
        }
    }
}

} // verus!

use vstd::prelude::*;

use super::packet::{byte_sum, lemma_u8_complement};

verus! {

/// Instructions understood by the minimal Dynamixel responder.
#[derive(Debug, Clone, Copy, PartialEq, Eq, Structural)]
enum MessageType {
    PingMessage,
    ReadMessage,
    WriteMessage,
    Unknown,
}

impl MessageType {
    fn from_u8(val: u8) -> (r: MessageType)
        ensures
            r == message_type_of(val),
    {
        match val {
            1 => MessageType::PingMessage,
            2 => MessageType::ReadMessage,
            3 => MessageType::WriteMessage,
            _ => MessageType::Unknown,
        }
    }
}

spec fn message_type_of(val: u8) -> MessageType {
    match val {
        1 => MessageType::PingMessage,
        2 => MessageType::ReadMessage,
        3 => MessageType::WriteMessage,
        _ => MessageType::Unknown,
    }
}

/// Why a received frame was rejected.
#[derive(Debug, Clone, Copy, PartialEq, Eq, Structural)]
#[non_exhaustive]
pub enum Error {
    BadPacket,
    BadCRC,
    BadInstruction,
}

/// What to do after a frame: send bytes, ignore it, or nothing to send.
pub enum RWAction<'a> {
    Tx(&'a [u8]),
    Ignore,
    Done,
}

/// Minimal Dynamixel responder with its own buffers.
pub struct DxlCom {
    id: u8,
    rx_buffer: [u8; 256],
    tx_buffer: [u8; 256],
    rx_buffer_index: usize,
    rx_packet_length: u8,
}

/// The answer to a ping: a status packet without parameters and without error.
pub open spec fn pong_frame(id: u8) -> Seq<u8> {
    seq![0xFFu8, 0xFFu8, id, 0x02u8, 0x00u8, (255 - (id + 2)) as u8]
}

/// What the responder does with a frame, as bytes to send, ignore, or nothing.
pub enum DxlOutcome {
    Tx(Seq<u8>),
    Ignore,
    Done,
}

/// The frame's checksum (last byte) matches the bytes after the header.
pub open spec fn dxl_checksum_ok(b: Seq<u8>) -> bool {
    b[b.len() - 1] == (255 - byte_sum(b.subrange(2, b.len() - 1))) as u8
}

/// The responder's decision for frame `b` when its id is `id`.
pub open spec fn dxl_outcome(b: Seq<u8>, id: u8) -> Result<DxlOutcome, Error> {
    if b.len() < 6 {
        Err(Error::BadPacket)
    } else if !(b[0] == 0xFF && b[1] == 0xFF) {
        Err(Error::BadPacket)
    } else if b[2] != id {
        Ok(DxlOutcome::Ignore)
    } else if !dxl_checksum_ok(b) {
        Err(Error::BadCRC)
    } else {
        Ok(instruction_outcome(b[4], id))
    }
}

/// The answer to instruction `instruction`: a pong, a single zero byte for a read,
/// nothing to send for a write, and unknown instructions are ignored.
pub open spec fn instruction_outcome(instruction: u8, id: u8) -> DxlOutcome {
    if instruction == 1 {
        DxlOutcome::Tx(pong_frame(id))
    } else if instruction == 2 {
        DxlOutcome::Tx(seq![0u8])
    } else if instruction == 3 {
        DxlOutcome::Done
    } else {
        DxlOutcome::Ignore
    }
}

/// The action seen as an outcome.
pub open spec fn action_outcome(r: Result<RWAction, Error>) -> Result<DxlOutcome, Error> {
    match r {
        Ok(RWAction::Tx(b)) => Ok(DxlOutcome::Tx(b@)),
        Ok(RWAction::Ignore) => Ok(DxlOutcome::Ignore),
        Ok(RWAction::Done) => Ok(DxlOutcome::Done),
        Err(e) => Err(e),
    }
}

/// The checksum sum of a frame for us stays within a byte, and a ping can be answered
/// (the responder adds without wrapping).
pub open spec fn dxl_parse_in_range(b: Seq<u8>, id: u8) -> bool {
    (b.len() >= 6 && b[0] == 0xFF && b[1] == 0xFF && b[2] == id) ==> (byte_sum(
        b.subrange(2, b.len() - 1),
    ) <= 255 && (dxl_checksum_ok(b) && b[4] == 1 ==> id <= 253))
}

fn sum_bytes(data: &[u8]) -> (r: u8)
    requires
        byte_sum(data@) <= 255,
    ensures
        r == byte_sum(data@),
{
    let mut s: u8 = 0;
    let mut i: usize = 0;
    while i < data.len()
        invariant
            i <= data@.len(),
            byte_sum(data@) <= 255,
            s == byte_sum(data@.take(i as int)),
        decreases data@.len() - i,
    {
        proof {
            assert(data@.take(i + 1).drop_last() =~= data@.take(i as int));
            lemma_byte_sum_prefix(data@, i as int + 1);
        }
        s = s + data[i];
        i = i + 1;
    }
    assert(data@.take(data@.len() as int) =~= data@);
    s
}

proof fn lemma_byte_sum_prefix(s: Seq<u8>, k: int)
    requires
        0 <= k <= s.len(),
    ensures
        byte_sum(s.take(k)) <= byte_sum(s),
    decreases s.len(),
{
    if k < s.len() {
        assert(s.drop_last().take(k) =~= s.take(k));
        lemma_byte_sum_prefix(s.drop_last(), k);
    } else {
        assert(s.take(k) =~= s);
    }
}

impl DxlCom {
    /// Id the responder answers to.
    pub closed spec fn spec_id(&self) -> u8 {
        self.id
    }

    /// A responder for `id` with empty buffers.
    pub fn new(id: u8) -> (r: Self)
        ensures
            r.spec_id() == id,
    {
        Self {
            id,
            rx_buffer: [0u8; 256],
            tx_buffer: [0u8; 256],
            rx_buffer_index: 0,
            rx_packet_length: 0,
        }
    }

    fn crc(&mut self, data: &[u8]) -> (r: u8)
        requires
            byte_sum(data@) <= 255,
        ensures
            r == 255 - byte_sum(data@),
            final(self).spec_id() == old(self).spec_id(),
    {
        let s = sum_bytes(data);
        proof {
            lemma_u8_complement(s);
        }
        !s
    }

    /// Checks a received frame and decides what to answer.
    pub fn parse(&mut self, bytes: &[u8]) -> (res: Result<RWAction, Error>)
        requires
            dxl_parse_in_range(bytes@, old(self).spec_id()),
        ensures
            action_outcome(res) == dxl_outcome(bytes@, old(self).spec_id()),
            final(self).spec_id() == old(self).spec_id(),
    {
        let len = bytes.len();
        if len < 6 {
            Err(Error::BadPacket)
        } else if bytes[0] == 0xff && bytes[1] == 0xff {
            if bytes[2] == self.id {
                let c = self.crc(&bytes[2..len - 1]);
                if c != bytes[len - 1] {
                    return Err(Error::BadCRC);
                } else {
                    Ok(self.handle_instruction(bytes))
                }
            } else {
                Ok(RWAction::Ignore)
            }
        } else {
            Err(Error::BadPacket)
        }
    }

    fn handle_instruction(&mut self, data: &[u8]) -> (r: RWAction)
        requires
            data@.len() >= 6,
            data@[4] == 1 ==> old(self).id <= 253,
        ensures
            final(self).spec_id() == old(self).spec_id(),
            action_outcome(Ok(r)) == Ok::<DxlOutcome, Error>(
                instruction_outcome(data@[4], old(self).id),
            ),
    {
        match MessageType::from_u8(data[4]) {
            MessageType::PingMessage => {
                let s = self.id + 0x02;
                proof {
                    lemma_u8_complement(s);
                }
                let rescrc: u8 = !s;
                self.tx_buffer[0] = 0xff;
                self.tx_buffer[1] = 0xff;
                self.tx_buffer[2] = self.id;
                self.tx_buffer[3] = 0x02;
                self.tx_buffer[4] = 0x00;
                self.tx_buffer[5] = rescrc;
                let out = &self.tx_buffer[0..6];
                assert(out@ =~= pong_frame(self.id));
                RWAction::Tx(out)
            },
            MessageType::ReadMessage => {
                let out: &[u8] = &[0u8];
                assert(out@ =~= seq![0u8]);
                RWAction::Tx(out)
            },
            MessageType::WriteMessage => { RWAction::Done },
            MessageType::Unknown => { RWAction::Ignore },
        }
    }
}

} // verus!

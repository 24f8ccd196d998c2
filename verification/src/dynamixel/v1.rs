use vstd::prelude::*;

use super::packet::{checksum, crc};

verus! {

/// Failure of the first-generation Dynamixel serial protocol.
#[derive(Debug, Clone, Copy, PartialEq, Eq, Structural)]
pub struct DynamixelError {}

/// An instruction of the first-generation protocol; registers are named by address.
pub enum InstructionPacket {
    Ping,
    ReadData(u8),
    WriteData(u8, [u8; 16]),
}

/// The frame is a complete packet for `id` with a correct checksum.
pub open spec fn v1_frame_valid(data: Seq<u8>, id: u8) -> bool {
    &&& data.len() >= 6
    &&& data[0] == 0xFF && data[1] == 0xFF
    &&& data[2] == id
    &&& data.len() == data[3] + 4
    &&& data[data.len() - 1] == checksum(data.subrange(2, data.len() - 1))
}

/// Parameter bytes between the instruction and the checksum.
pub open spec fn v1_params(data: Seq<u8>) -> Seq<u8> {
    data.subrange(5, data.len() - 1)
}

/// A valid write packet, or a valid read packet without its address: the parser
/// copies or indexes parameters out of bounds on those.
pub open spec fn v1_parse_out_of_bounds(data: Seq<u8>, id: u8) -> bool {
    v1_frame_valid(data, id) && (data[4] == 3 || (data[4] == 2 && v1_params(data).len() == 0))
}

impl InstructionPacket {
    /// Decodes a complete packet for `id`; anything else is an error.
    pub fn parse(data: &[u8], id: u8) -> (res: Result<Self, DynamixelError>)
        requires
            !v1_parse_out_of_bounds(data@, id),
        ensures
            !(v1_frame_valid(data@, id) && (data@[4] == 1 || data@[4] == 2)) ==> res is Err,
            v1_frame_valid(data@, id) && data@[4] == 1 ==> res matches Ok(InstructionPacket::Ping),
            v1_frame_valid(data@, id) && data@[4] == 2 ==> (res matches Ok(
                InstructionPacket::ReadData(a),
            ) && a == v1_params(data@)[0]),
    {
        let len = data.len();
        if len < 6 {
            return Err(DynamixelError {  });
        }
        if data[0] != 0xFF || data[1] != 0xFF {
            return Err(DynamixelError {  });
        }
        if data[2] != id {
            return Err(DynamixelError {  });
        }
        let plen = data[3] as usize;
        if len != plen + 4 {
            return Err(DynamixelError {  });
        }
        let msg_crc = data[len - 1];
        let calc_crc = crc(&data[2..len - 1]);
        if msg_crc != calc_crc {
            return Err(DynamixelError {  });
        }
        let instruction = data[4];
        let params = &data[5..len - 1];
        assert(params@ == v1_params(data@));
        match instruction {
            0x01 => Ok(InstructionPacket::Ping),
            0x02 => Ok(InstructionPacket::ReadData(params[0])),
            _ => Err(DynamixelError {  }),
        }
    }
}

/// A status packet of the first-generation protocol, with room for 64 parameter bytes.
pub struct StatusPacket {
    id: u8,
    error: u8,
    params: [u8; 64],
}

/// The 71 bytes a status packet occupies, with the byte before the checksum left as
/// the buffer held it (`kept`).
pub open spec fn v1_status_frame(id: u8, error: u8, params: Seq<u8>, kept: u8) -> Seq<u8> {
    let body = seq![id, 66u8, error] + params;
    seq![0xFFu8, 0xFFu8] + body + seq![kept, checksum(body)]
}

impl StatusPacket {
    /// Id of the answering board.
    pub closed spec fn spec_id(&self) -> u8 {
        self.id
    }

    /// Error byte of the answer.
    pub closed spec fn spec_error(&self) -> u8 {
        self.error
    }

    /// The 64 parameter bytes.
    pub closed spec fn spec_params(&self) -> Seq<u8> {
        self.params@
    }

    fn with_params(id: u8, error: u8, params: &[u8]) -> (res: Self)
        requires
            params@.len() <= 64,
        ensures
            res.spec_id() == id,
            res.spec_error() == error,
            res.spec_params() =~= params@ + Seq::new((64 - params@.len()) as nat, |k: int| 0u8),
    {
        let mut buff = [0u8; 64];
        let mut i: usize = 0;
        while i < params.len()
            invariant
                i <= params@.len() <= 64,
                forall|k: int| 0 <= k < i ==> buff[k] == params@[k],
                forall|k: int| i <= k < 64 ==> buff[k] == 0,
            decreases params@.len() - i,
        {
            buff[i] = params[i];
            i = i + 1;
        }
        StatusPacket { id, error, params: buff }
    }

    /// Answer to a ping: id 0, no error, zeroed parameters.
    pub fn pong() -> (res: Self)
        ensures
            res.spec_id() == 0,
            res.spec_error() == 0,
            res.spec_params() =~= Seq::new(64, |k: int| 0u8),
    {
        StatusPacket::with_params(0, 0, &[])
    }

    /// Acknowledgement: id 0, no error, zeroed parameters.
    pub fn ack() -> (res: Self)
        ensures
            res.spec_id() == 0,
            res.spec_error() == 0,
            res.spec_params() =~= Seq::new(64, |k: int| 0u8),
    {
        StatusPacket::with_params(0, 0, &[])
    }

    /// Answer for a register: the register and the data are not put in the packet,
    /// which carries id 0, no error and zeroed parameters.
    pub fn with_register(reg: u8, data: &[u8]) -> (res: Self)
        ensures
            res.spec_id() == 0,
            res.spec_error() == 0,
            res.spec_params() =~= Seq::new(64, |k: int| 0u8),
    {
        StatusPacket::with_params(0, 0, &[])
    }

    /// Writes the packet at the start of `buffer` and returns the number of bytes used.
    pub fn to_bytes(&self, buffer: &mut [u8]) -> (n: usize)
        requires
            old(buffer)@.len() >= 71,
        ensures
            n == 71,
            final(buffer)@.len() == old(buffer)@.len(),
            final(buffer)@.subrange(0, 71) == v1_status_frame(
                self.spec_id(),
                self.spec_error(),
                self.spec_params(),
                old(buffer)@[69],
            ),
            final(buffer)@.subrange(71, old(buffer)@.len() as int) == old(buffer)@.subrange(
                71,
                old(buffer)@.len() as int,
            ),
    {
        let ghost orig = buffer@;
        buffer[0] = 0xFF;
        buffer[1] = 0xFF;
        buffer[2] = self.id;
        buffer[3] = 2 + 64;
        buffer[4] = self.error;
        let mut i: usize = 0;
        while i < 64
            invariant
                i <= 64,
                buffer@.len() == orig.len(),
                orig.len() >= 71,
                self.params@.len() == 64,
                buffer@.subrange(0, 5) == seq![0xFFu8, 0xFFu8, self.id, 66u8, self.error],
                forall|k: int| 0 <= k < i ==> buffer@[5 + k] == self.params@[k],
                forall|k: int| 5 + i <= k < orig.len() ==> buffer@[k] == orig[k],
            decreases 64 - i,
        {
            buffer[5 + i] = self.params[i];
            i = i + 1;
        }
        let ghost body = seq![self.id, 66u8, self.error] + self.params@;
        assert(buffer@.subrange(2, 69) =~= body);
        let c = crc(&buffer[2..69]);
        buffer[70] = c;
        assert(buffer@.subrange(0, 71) =~= v1_status_frame(
            self.id,
            self.error,
            self.params@,
            orig[69],
        ));
        assert(buffer@.subrange(71, orig.len() as int) =~= orig.subrange(71, orig.len() as int));
        71
    }
}

} // verus!

use vstd::prelude::*;

use super::{checksum, crc};

verus! {

/// A status packet answering an instruction, with `N` parameter bytes.
pub struct StatusPacket<const N: usize> {
    id: u8,
    error: u8,
    params: [u8; N],
}

/// The bytes of a status packet: header, id, length (`2 + N`), error, parameters and
/// the checksum of everything from the id on.
pub open spec fn status_frame(id: u8, error: u8, params: Seq<u8>) -> Seq<u8> {
    let body = seq![id, (2 + params.len()) as u8, error] + params;
    seq![0xFFu8, 0xFFu8] + body + seq![checksum(body)]
}


/// Every status frame carries a correct checksum of the bytes after the header, so a
/// receiver's checksum test accepts it.
pub proof fn law_status_frame_checksum(id: u8, error: u8, params: Seq<u8>)
    ensures
        ({
            let f = status_frame(id, error, params);
            &&& f.len() == params.len() + 6
            &&& f[0] == 0xFF && f[1] == 0xFF
            &&& f[f.len() - 1] == checksum(f.subrange(2, f.len() - 1))
        }),
{
    let body = seq![id, (2 + params.len()) as u8, error] + params;
    let f = status_frame(id, error, params);
    assert(f.subrange(2, f.len() - 1) =~= body);
}

impl<const N: usize> StatusPacket<N> {
    /// Id of the board that answers.
    pub closed spec fn spec_id(&self) -> u8 {
        self.id
    }

    /// Error byte of the answer.
    pub closed spec fn spec_error(&self) -> u8 {
        self.error
    }

    /// Parameter bytes of the answer.
    pub closed spec fn spec_params(&self) -> Seq<u8> {
        self.params@
    }
}

impl StatusPacket<0> {
    /// An answer without parameters.
    pub fn ack(id: u8, error: u8) -> (res: Self)
        ensures
            res.spec_id() == id,
            res.spec_error() == error,
            res.spec_params() == Seq::<u8>::empty(),
    {
        let res = StatusPacket { id, error, params: [0u8; 0] };
        assert(res.params@ =~= Seq::<u8>::empty());
        res
    }
}

impl<const N: usize> StatusPacket<N> {
    /// An answer carrying `value` as parameters.
    pub fn with_value(id: u8, error: u8, value: [u8; N]) -> (res: Self)
        ensures
            res.spec_id() == id,
            res.spec_error() == error,
            res.spec_params() == value@,
    {
        StatusPacket { id, error, params: value }
    }

    /// The `N + 6` bytes of the packet on the wire.
    pub fn to_bytes(&self) -> (res: Vec<u8>)
        requires
            N <= 253,
        ensures
            res@ == status_frame(self.spec_id(), self.spec_error(), self.spec_params()),
            res@.len() == N + 6,
    {
        status_frame_bytes(self.id, self.error, &self.params)
    }
}

/// The bytes on the wire of a status packet from `id` with error byte `error` carrying
/// `params`.
pub fn status_frame_bytes(id: u8, error: u8, params: &[u8]) -> (res: Vec<u8>)
    requires
        params@.len() <= 253,
    ensures
        res@ == status_frame(id, error, params@),
        res@.len() == params@.len() + 6,
{
    let n = params.len();
    let mut body: Vec<u8> = Vec::new();
    body.push(id);
    body.push(2 + n as u8);
    body.push(error);
    let mut i: usize = 0;
    while i < n
        invariant
            i <= n,
            n <= 253,
            params@.len() == n,
            body@ =~= seq![id, (2 + n) as u8, error] + params@.take(i as int),
        decreases n - i,
    {
        body.push(params[i]);
        i = i + 1;
    }
    assert(params@.take(n as int) =~= params@);
    let c = crc(body.as_slice());
    let mut bytes: Vec<u8> = Vec::new();
    bytes.push(0xFF);
    bytes.push(0xFF);
    let mut j: usize = 0;
    while j < body.len()
        invariant
            j <= body@.len(),
            bytes@ =~= seq![0xFFu8, 0xFFu8] + body@.take(j as int),
        decreases body@.len() - j,
    {
        bytes.push(body[j]);
        j = j + 1;
    }
    assert(body@.take(body@.len() as int) =~= body@);
    bytes.push(c);
    bytes
}

} // verus!

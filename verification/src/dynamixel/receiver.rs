use vstd::prelude::*;

verus! {

/// Where the byte-by-byte receiver stands in the current frame.
#[derive(Debug, Clone, Copy, PartialEq, Eq, Structural)]
pub enum RxState {
    /// Waiting for the first header byte.
    RxUnknown,
    /// One header byte seen.
    RxReadingHeader1,
    /// Both header bytes seen; the id comes next.
    RxReadingHeader2,
    /// Id seen; the length byte comes next.
    RxReadingHeader3,
    /// Reading the `length` bytes that end the frame.
    RxReadingInstructionPacket,
}

/// Assembles a Dynamixel frame from the bytes received one at a time.
pub struct ByteReceiver {
    state: RxState,
    buffer: Vec<u8>,
    nb_to_read: u8,
}

/// What the receiver holds: its state, the bytes kept so far and how many remain.
pub struct RxView {
    pub state: RxState,
    pub buffer: Seq<u8>,
    pub nb_to_read: u8,
}

/// The receiver before any byte.
pub open spec fn rx_fresh() -> RxView {
    RxView { state: RxState::RxUnknown, buffer: Seq::empty(), nb_to_read: 0 }
}

/// One received byte: the receiver afterwards and, when the byte completes a frame, the
/// frame (the receiver then starts afresh). A byte that breaks the header drops what was
/// kept.
pub open spec fn rx_step(v: RxView, b: u8) -> (RxView, Option<Seq<u8>>) {
    match v.state {
        RxState::RxUnknown => if b != 0xFF {
            (rx_fresh(), None)
        } else {
            (RxView { state: RxState::RxReadingHeader1, buffer: v.buffer.push(b), ..v }, None)
        },
        RxState::RxReadingHeader1 => if b != 0xFF {
            (rx_fresh(), None)
        } else {
            (RxView { state: RxState::RxReadingHeader2, buffer: v.buffer.push(b), ..v }, None)
        },
        RxState::RxReadingHeader2 => (
            RxView { state: RxState::RxReadingHeader3, buffer: v.buffer.push(b), ..v },
            None,
        ),
        RxState::RxReadingHeader3 => (
            RxView {
                state: RxState::RxReadingInstructionPacket,
                buffer: v.buffer.push(b),
                nb_to_read: b,
            },
            None,
        ),
        RxState::RxReadingInstructionPacket => if v.nb_to_read == 1 {
            (rx_fresh(), Some(v.buffer.push(b)))
        } else {
            (RxView { buffer: v.buffer.push(b), nb_to_read: (v.nb_to_read - 1) as u8, ..v }, None)
        },
    }
}

/// A byte can be taken in every state but one: after a length byte of zero the count of
/// bytes still to read would go below zero.
pub open spec fn rx_accepts(v: RxView) -> bool {
    !(v.state == RxState::RxReadingInstructionPacket && v.nb_to_read == 0)
}

/// The receiver after the bytes `s`, each taken in turn, and whether one of them
/// completed a frame.
pub open spec fn rx_feed(v: RxView, s: Seq<u8>) -> (RxView, bool)
    decreases s.len(),
{
    if s.len() == 0 {
        (v, false)
    } else {
        let (v1, out) = rx_step(v, s[0]);
        let (v2, done) = rx_feed(v1, s.drop_first());
        (v2, done || out is Some)
    }
}

impl View for ByteReceiver {
    type V = RxView;

    closed spec fn view(&self) -> RxView {
        RxView { state: self.state, buffer: self.buffer@, nb_to_read: self.nb_to_read }
    }
}

impl ByteReceiver {
    /// The bytes kept stay within one frame: the header, the id, the length byte and, of
    /// the bytes it announces, those not still to read.
    pub closed spec fn wf(&self) -> bool {
        &&& self.state == RxState::RxUnknown ==> self.buffer@.len() == 0
        &&& self.state == RxState::RxReadingHeader1 ==> self.buffer@.len() == 1
        &&& self.state == RxState::RxReadingHeader2 ==> self.buffer@.len() == 2
        &&& self.state == RxState::RxReadingHeader3 ==> self.buffer@.len() == 3
        &&& self.state == RxState::RxReadingInstructionPacket ==> {
            &&& 4 <= self.buffer@.len()
            &&& self.nb_to_read <= self.buffer@[3]
            &&& self.buffer@.len() == 4 + self.buffer@[3] - self.nb_to_read
        }
    }

    /// A receiver waiting for the first header byte.
    pub fn new() -> (r: Self)
        ensures
            r@ == rx_fresh(),
            r.wf(),
    {
        ByteReceiver { state: RxState::RxUnknown, buffer: Vec::new(), nb_to_read: 0 }
    }

    /// Whether the next byte can be taken (see `rx_accepts`).
    pub fn accepts_byte(&self) -> (r: bool)
        ensures
            r == rx_accepts(self@),
    {
        !(self.state == RxState::RxReadingInstructionPacket && self.nb_to_read == 0)
    }

    /// Takes one received byte; answers the frame when this byte completes it.
    pub fn push(&mut self, b: u8) -> (frame: Option<Vec<u8>>)
        requires
            old(self).wf(),
            rx_accepts(old(self)@),
        ensures
            final(self).wf(),
            (final(self)@, match frame {
                Some(f) => Some(f@),
                None => None,
            }) == rx_step(old(self)@, b),
    {
        match self.state {
            RxState::RxUnknown => {
                if b != 0xFF {
                    self.buffer = Vec::new();
                    self.nb_to_read = 0;
                } else {
                    self.state = RxState::RxReadingHeader1;
                    self.buffer.push(b);
                }
                None
            },
            RxState::RxReadingHeader1 => {
                if b != 0xFF {
                    self.state = RxState::RxUnknown;
                    self.buffer = Vec::new();
                    self.nb_to_read = 0;
                } else {
                    self.state = RxState::RxReadingHeader2;
                    self.buffer.push(b);
                }
                None
            },
            RxState::RxReadingHeader2 => {
                self.state = RxState::RxReadingHeader3;
                self.buffer.push(b);
                None
            },
            RxState::RxReadingHeader3 => {
                self.state = RxState::RxReadingInstructionPacket;
                self.buffer.push(b);
                self.nb_to_read = b;
                None
            },
            RxState::RxReadingInstructionPacket => {
                self.buffer.push(b);
                self.nb_to_read = self.nb_to_read - 1;
                if self.nb_to_read == 0 {
                    let mut frame: Vec<u8> = Vec::new();
                    std::mem::swap(&mut frame, &mut self.buffer);
                    self.state = RxState::RxUnknown;
                    Some(frame)
                } else {
                    None
                }
            },
        }
    }
}

/// Bytes of the UART read buffer.
pub const MAX_BUFFER_LENGTH: usize = 512;

/// Assembles a Dynamixel frame from chunks read on request: the header one byte at a
/// time, then the payload in one read. That read asks for twice the announced length
/// (it fills the buffer from the fifth byte up to four plus twice the length); the frame
/// is the header and the first `length` bytes of it, and the rest is dropped.
pub struct ChunkReceiver {
    state: RxState,
    header: Vec<u8>,
    length: usize,
}

/// What the chunk receiver holds: its state, the header bytes kept and the announced
/// length.
pub struct ChunkView {
    pub state: RxState,
    pub header: Seq<u8>,
    pub length: nat,
}

/// The chunk receiver before any byte.
pub open spec fn chunk_fresh() -> ChunkView {
    ChunkView { state: RxState::RxUnknown, header: Seq::empty(), length: 0 }
}

/// How many bytes the next read asks for.
pub open spec fn chunk_request(v: ChunkView) -> nat {
    if v.state == RxState::RxReadingInstructionPacket {
        2 * v.length
    } else {
        1
    }
}

/// The next read fits in the read buffer; a payload read that would not is refused
/// before anything is read.
pub open spec fn chunk_fits(v: ChunkView) -> bool {
    v.state == RxState::RxReadingInstructionPacket ==> 4 + 2 * v.length <= MAX_BUFFER_LENGTH
}

/// One chunk of the requested size: the receiver afterwards and, when the chunk ends a
/// frame, the frame (the receiver then starts afresh).
pub open spec fn chunk_step(v: ChunkView, c: Seq<u8>) -> (ChunkView, Option<Seq<u8>>) {
    match v.state {
        RxState::RxUnknown => if c[0] != 0xFF {
            (chunk_fresh(), None)
        } else {
            (ChunkView { state: RxState::RxReadingHeader1, header: v.header.push(c[0]), ..v }, None)
        },
        RxState::RxReadingHeader1 => if c[0] != 0xFF {
            (chunk_fresh(), None)
        } else {
            (ChunkView { state: RxState::RxReadingHeader2, header: v.header.push(c[0]), ..v }, None)
        },
        RxState::RxReadingHeader2 => (
            ChunkView { state: RxState::RxReadingHeader3, header: v.header.push(c[0]), ..v },
            None,
        ),
        RxState::RxReadingHeader3 => (
            ChunkView {
                state: RxState::RxReadingInstructionPacket,
                header: v.header.push(c[0]),
                length: c[0] as nat,
            },
            None,
        ),
        RxState::RxReadingInstructionPacket => (
            chunk_fresh(),
            Some(v.header + c.take(v.length as int)),
        ),
    }
}

impl View for ChunkReceiver {
    type V = ChunkView;

    closed spec fn view(&self) -> ChunkView {
        ChunkView { state: self.state, header: self.header@, length: self.length as nat }
    }
}

impl ChunkReceiver {
    /// The header bytes kept match the state, and the length is the announced one.
    pub closed spec fn wf(&self) -> bool {
        &&& self.state == RxState::RxUnknown ==> self.header@.len() == 0
        &&& self.state == RxState::RxReadingHeader1 ==> self.header@.len() == 1
        &&& self.state == RxState::RxReadingHeader2 ==> self.header@.len() == 2
        &&& self.state == RxState::RxReadingHeader3 ==> self.header@.len() == 3
        &&& self.state == RxState::RxReadingInstructionPacket ==> self.header@.len() == 4
            && self.length == self.header@[3]
        &&& self.length <= 255
    }

    /// A receiver waiting for the first header byte.
    pub fn new() -> (r: Self)
        ensures
            r@ == chunk_fresh(),
            r.wf(),
    {
        ChunkReceiver { state: RxState::RxUnknown, header: Vec::new(), length: 0 }
    }

    /// How many bytes the next read asks for.
    pub fn request(&self) -> (r: usize)
        requires
            self.wf(),
        ensures
            r == chunk_request(self@),
    {
        if self.state == RxState::RxReadingInstructionPacket {
            2 * self.length
        } else {
            1
        }
    }

    /// Whether the next read fits in the read buffer.
    pub fn fits_buffer(&self) -> (r: bool)
        requires
            self.wf(),
        ensures
            r == chunk_fits(self@),
    {
        self.state != RxState::RxReadingInstructionPacket || 4 + 2 * self.length
            <= MAX_BUFFER_LENGTH
    }

    /// Takes the chunk read on request; answers the frame when it ends one.
    pub fn push_chunk(&mut self, chunk: &[u8]) -> (frame: Option<Vec<u8>>)
        requires
            old(self).wf(),
            chunk@.len() == chunk_request(old(self)@),
        ensures
            final(self).wf(),
            (final(self)@, match frame {
                Some(f) => Some(f@),
                None => None,
            }) == chunk_step(old(self)@, chunk@),
    {
        match self.state {
            RxState::RxUnknown => {
                if chunk[0] != 0xFF {
                    self.header = Vec::new();
                    self.length = 0;
                } else {
                    self.state = RxState::RxReadingHeader1;
                    self.header.push(chunk[0]);
                }
                None
            },
            RxState::RxReadingHeader1 => {
                if chunk[0] != 0xFF {
                    self.state = RxState::RxUnknown;
                    self.header = Vec::new();
                    self.length = 0;
                } else {
                    self.state = RxState::RxReadingHeader2;
                    self.header.push(chunk[0]);
                }
                None
            },
            RxState::RxReadingHeader2 => {
                self.state = RxState::RxReadingHeader3;
                self.header.push(chunk[0]);
                None
            },
            RxState::RxReadingHeader3 => {
                self.state = RxState::RxReadingInstructionPacket;
                self.header.push(chunk[0]);
                self.length = chunk[0] as usize;
                None
            },
            RxState::RxReadingInstructionPacket => {
                let mut frame: Vec<u8> = Vec::new();
                std::mem::swap(&mut frame, &mut self.header);
                let mut k: usize = 0;
                while k < self.length
                    invariant
                        k <= self.length,
                        self.length <= 255,
                        chunk@.len() == 2 * self.length,
                        frame@ == old(self).header@ + chunk@.take(k as int),
                    decreases self.length - k,
                {
                    frame.push(chunk[k]);
                    proof {
                        assert(chunk@.take(k as int + 1) =~= chunk@.take(k as int).push(
                            chunk@[k as int],
                        ));
                    }
                    k = k + 1;
                }
                self.state = RxState::RxUnknown;
                self.length = 0;
                Some(frame)
            },
        }
    }
}

/// The four bytes that open a frame from `id` announcing `len` more bytes.
pub open spec fn frame_header(id: u8, len: u8) -> Seq<u8> {
    seq![0xFFu8, 0xFFu8, id, len]
}

proof fn lemma_rx_feed_push(v: RxView, s: Seq<u8>, x: u8)
    ensures
        rx_feed(v, s.push(x)) == ({
            let (v1, d1) = rx_feed(v, s);
            let (v2, o) = rx_step(v1, x);
            (v2, d1 || o is Some)
        }),
    decreases s.len(),
{
    if s.len() == 0 {
        assert(s.push(x).drop_first() =~= Seq::<u8>::empty());
        assert(s.push(x)[0] == x);
        reveal_with_fuel(rx_feed, 2);
    } else {
        let (v1, o1) = rx_step(v, s[0]);
        assert(s.push(x)[0] == s[0]);
        assert(s.push(x).drop_first() =~= s.drop_first().push(x));
        lemma_rx_feed_push(v1, s.drop_first(), x);
    }
}

proof fn lemma_rx_body(id: u8, params: Seq<u8>, k: int)
    requires
        1 <= params.len() <= 255,
        0 <= k < params.len(),
    ensures
        rx_feed(rx_fresh(), frame_header(id, params.len() as u8) + params.take(k)) == (
            RxView {
                state: RxState::RxReadingInstructionPacket,
                buffer: frame_header(id, params.len() as u8) + params.take(k),
                nb_to_read: (params.len() - k) as u8,
            },
            false,
        ),
    decreases k,
{
    let h = frame_header(id, params.len() as u8);
    if k == 0 {
        assert(h + params.take(0) =~= h);
        let s0 = h;
        let s1 = s0.drop_first();
        let s2 = s1.drop_first();
        let s3 = s2.drop_first();
        let s4 = s3.drop_first();
        assert(s4.len() == 0);
        assert(s0[0] == 0xFF && s1[0] == 0xFF && s2[0] == id && s3[0] == params.len() as u8);
        let v1 = RxView { state: RxState::RxReadingHeader1, buffer: seq![0xFFu8], nb_to_read: 0 };
        let v2 = RxView {
            state: RxState::RxReadingHeader2,
            buffer: seq![0xFFu8, 0xFFu8],
            nb_to_read: 0,
        };
        let v3 = RxView {
            state: RxState::RxReadingHeader3,
            buffer: seq![0xFFu8, 0xFFu8, id],
            nb_to_read: 0,
        };
        let v4 = RxView {
            state: RxState::RxReadingInstructionPacket,
            buffer: h,
            nb_to_read: params.len() as u8,
        };
        assert(Seq::<u8>::empty().push(0xFF) =~= seq![0xFFu8]);
        assert(seq![0xFFu8].push(0xFF) =~= seq![0xFFu8, 0xFFu8]);
        assert(seq![0xFFu8, 0xFFu8].push(id) =~= seq![0xFFu8, 0xFFu8, id]);
        assert(seq![0xFFu8, 0xFFu8, id].push(params.len() as u8) =~= h);
        assert(rx_step(rx_fresh(), 0xFF).0 == v1);
        assert(rx_step(v1, 0xFF).0 == v2);
        assert(rx_step(v2, id).0 == v3);
        assert(rx_step(v3, params.len() as u8).0 == v4);
        assert(rx_feed(v4, s4) == (v4, false));
        assert(rx_feed(v3, s3) == (v4, false));
        assert(rx_feed(v2, s2) == (v4, false));
        assert(rx_feed(v1, s1) == (v4, false));
    } else {
        lemma_rx_body(id, params, k - 1);
        let s = h + params.take(k - 1);
        assert(h + params.take(k) =~= s.push(params[k - 1]));
        lemma_rx_feed_push(rx_fresh(), s, params[k - 1]);
        assert(s.push(params[k - 1]) =~= (h + params.take(k - 1)).push(params[k - 1]));
    }
}

/// A frame whose length byte counts its remaining bytes, fed byte by byte to a fresh
/// receiver, completes nothing before its last byte and comes out whole with it; the
/// receiver is then fresh again.
pub proof fn law_frame_assembled(id: u8, params: Seq<u8>)
    requires
        1 <= params.len() <= 255,
    ensures
        ({
            let f = frame_header(id, params.len() as u8) + params;
            let (v, done) = rx_feed(rx_fresh(), f.drop_last());
            &&& !done
            &&& rx_accepts(v)
            &&& rx_step(v, f.last()) == (rx_fresh(), Some(f))
        }),
{
    let h = frame_header(id, params.len() as u8);
    let f = h + params;
    let k = params.len() - 1;
    lemma_rx_body(id, params, k);
    assert(f.drop_last() =~= h + params.take(k));
    assert(f.last() == params[k]);
    assert((h + params.take(k)).push(params[k]) =~= f);
}

/// A frame read in chunks: after the two header bytes, the id and the length byte, one
/// at a time, the payload read of twice the length gives back the header and the first
/// `length` bytes read, whatever the bytes after them; the receiver is then fresh again.
pub proof fn law_chunk_frame_assembled(id: u8, params: Seq<u8>, extra: Seq<u8>)
    requires
        params.len() <= 255,
        extra.len() == params.len(),
    ensures
        ({
            let len = params.len() as u8;
            let v1 = chunk_step(chunk_fresh(), seq![0xFFu8]).0;
            let v2 = chunk_step(v1, seq![0xFFu8]).0;
            let v3 = chunk_step(v2, seq![id]).0;
            let v4 = chunk_step(v3, seq![len]).0;
            &&& chunk_request(v1) == 1 && chunk_request(v2) == 1 && chunk_request(v3) == 1
            &&& chunk_request(v4) == 2 * params.len()
            &&& chunk_step(v4, params + extra) == (
                chunk_fresh(),
                Some(frame_header(id, len) + params),
            )
        }),
{
    let len = params.len() as u8;
    let v1 = chunk_step(chunk_fresh(), seq![0xFFu8]).0;
    let v2 = chunk_step(v1, seq![0xFFu8]).0;
    let v3 = chunk_step(v2, seq![id]).0;
    let v4 = chunk_step(v3, seq![len]).0;
    assert(v4.header =~= frame_header(id, len));
    assert((params + extra).take(params.len() as int) =~= params);
}

} // verus!

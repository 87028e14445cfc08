//! The ITM packet framer: a byte-at-a-time state machine that cuts the
//! payload of one stimulus port out of an unstructured byte stream.

use vstd::prelude::*;
use vstd::slice::slice_subrange;

verus! {

/// The largest payload, in bytes, that a single packet carries.
pub const MAX_ITM_PAYLOAD: usize = 4;

/// Whether the low three bits of `byte` mark it as a stimulus-port header.
pub open spec fn is_header(byte: u8) -> bool {
    let tag = byte & 0b111;
    tag == 0b001 || tag == 0b010 || tag == 0b011
}

/// The stimulus port that a header byte names: its upper five bits.
pub open spec fn header_port(byte: u8) -> u8 {
    byte >> 3
}

/// The payload length that a header byte declares through its low two bits.
pub open spec fn header_size(byte: u8) -> usize {
    let selector = byte & 0b11;
    if selector == 0b01 {
        1
    } else if selector == 0b10 {
        2
    } else {
        4
    }
}

/// The header of a stimulus-port packet.
#[derive(Clone, Copy, Debug, PartialEq, Eq)]
pub struct ItmHeader {
    pub port: u8,
    pub payload_size: usize,
}

/// A byte that was offered as a header and is none.
#[derive(Clone, Copy, Debug, PartialEq, Eq)]
pub struct UnknownHeader {
    pub byte: u8,
}

impl ItmHeader {
    /// What a byte reads as when a header is expected.
    pub open spec fn parse(byte: u8) -> Result<ItmHeader, UnknownHeader> {
        if is_header(byte) {
            Ok(ItmHeader { port: header_port(byte), payload_size: header_size(byte) })
        } else {
            Err(UnknownHeader { byte })
        }
    }

    /// A header that some byte encodes.
    pub open spec fn well_formed(self) -> bool {
        &&& self.port < 32
        &&& self.payload_size == 1 || self.payload_size == 2 || self.payload_size == 4
    }

    /// Reads one byte as a header, or reports it as unknown.
    pub fn from_byte(byte: u8) -> (parsed: Result<ItmHeader, UnknownHeader>)
        ensures
            parsed == Self::parse(byte),
            parsed is Ok <==> is_header(byte),
            parsed matches Ok(header) ==> header.well_formed(),
    {
        let tag = byte & 0b111;
        if tag == 0b001 || tag == 0b010 || tag == 0b011 {
            let selector = byte & 0b11;
            let payload_size: usize = if selector == 0b01 {
                1
            } else if selector == 0b10 {
                2
            } else {
                4
            };
            assert(byte >> 3 < 32) by (bit_vector);
            Ok(ItmHeader { port: byte >> 3, payload_size })
        } else {
            Err(UnknownHeader { byte })
        }
    }
}

/// The framer as a mathematical state: either between packets, or inside
/// the payload of a packet of the selected port.
pub enum Framing {
    AwaitingHeader,
    Accumulating { header: ItmHeader, received: Seq<u8> },
}

impl Framing {
    /// An accumulating state still lacks at least one byte of a payload
    /// that fits the buffer.
    pub open spec fn well_formed(self) -> bool {
        match self {
            Framing::AwaitingHeader => true,
            Framing::Accumulating { header, received } => {
                &&& header.well_formed()
                &&& received.len() < header.payload_size
            },
        }
    }
}

/// One transition of the framer: the state after `byte`, and the payload
/// that the byte completed, if it completed one. A byte that comes where a
/// header is expected starts a payload if it is a header of `port`, and is
/// passed over if it is a header of another port or no header at all.
pub open spec fn step(state: Framing, port: u8, byte: u8) -> (Framing, Option<Seq<u8>>) {
    match state {
        Framing::Accumulating { header, received } => {
            let received = received.push(byte);
            if received.len() == header.payload_size {
                (Framing::AwaitingHeader, Some(received))
            } else {
                (Framing::Accumulating { header, received }, None)
            }
        },
        Framing::AwaitingHeader => match ItmHeader::parse(byte) {
            Ok(header) => if header.port == port {
                (Framing::Accumulating { header, received: Seq::empty() }, None)
            } else {
                (Framing::AwaitingHeader, None)
            },
            Err(_) => (Framing::AwaitingHeader, None),
        },
    }
}

/// Whether `byte` is noise to a framer in `state`: it comes where a header
/// is expected and is none. Noise is dropped, and is worth a diagnostic.
pub open spec fn is_noise(state: Framing, byte: u8) -> bool {
    state is AwaitingHeader && !is_header(byte)
}

/// The framer run over `bytes` from `state`: the state it ends in, and the
/// payloads that were completed on the way, in their order.
pub open spec fn run(state: Framing, port: u8, bytes: Seq<u8>) -> (Framing, Seq<Seq<u8>>)
    decreases bytes.len(),
{
    if bytes.len() == 0 {
        (state, Seq::empty())
    } else {
        let (next, produced) = step(state, port, bytes[0]);
        let (last, later) = run(next, port, bytes.skip(1));
        (
            last,
            match produced {
                Some(payload) => seq![payload] + later,
                None => later,
            },
        )
    }
}

/// A byte whose low three bits are none of `001`, `010`, `011` is no
/// header, and a framer that waits for a header drops it as noise: it
/// yields nothing, starts no payload and waits on.
pub proof fn unrecognized_byte_is_dropped(port: u8, byte: u8)
    requires
        byte & 0b111 != 0b001,
        byte & 0b111 != 0b010,
        byte & 0b111 != 0b011,
    ensures
        ItmHeader::parse(byte) == Err::<ItmHeader, UnknownHeader>(UnknownHeader { byte }),
        is_noise(Framing::AwaitingHeader, byte),
        step(Framing::AwaitingHeader, port, byte) == (Framing::AwaitingHeader, None::<Seq<u8>>),
{
}

/// The low two bits of a header are `01`, `10` or `11`, and the payload
/// size that it declares is 1, 2 or 4 in that order.
pub proof fn header_declares_size(byte: u8)
    requires
        is_header(byte),
    ensures
        ItmHeader::parse(byte) matches Ok(header) && header.payload_size == header_size(byte),
        byte & 0b11 == 0b01 || byte & 0b11 == 0b10 || byte & 0b11 == 0b11,
        byte & 0b11 == 0b01 ==> header_size(byte) == 1,
        byte & 0b11 == 0b10 ==> header_size(byte) == 2,
        byte & 0b11 == 0b11 ==> header_size(byte) == 4,
        header_port(byte) < 32,
{
    assert((byte & 0b111 == 0b001 || byte & 0b111 == 0b010 || byte & 0b111 == 0b011) ==> (byte
        & 0b11 == 0b01 || byte & 0b11 == 0b10 || byte & 0b11 == 0b11)) by (bit_vector);
    assert(byte >> 3 < 32) by (bit_vector);
}

/// A framer that lacks exactly the bytes of `rest` for its payload
/// completes that payload with the last of them, and no other.
pub proof fn payload_completes(port: u8, header: ItmHeader, received: Seq<u8>, rest: Seq<u8>)
    requires
        rest.len() > 0,
        received.len() + rest.len() == header.payload_size,
    ensures
        run(Framing::Accumulating { header, received }, port, rest) == (
            Framing::AwaitingHeader,
            seq![received + rest],
        ),
    decreases rest.len(),
{
    let state = Framing::Accumulating { header, received };
    let grown = received.push(rest[0]);
    if rest.len() == 1 {
        assert(rest.skip(1).len() == 0);
        assert(grown == received + rest);
        assert(run(Framing::AwaitingHeader, port, rest.skip(1)).1 == Seq::<Seq<u8>>::empty());
        assert(seq![grown] + Seq::<Seq<u8>>::empty() == seq![grown]);
    } else {
        payload_completes(port, header, grown, rest.skip(1));
        assert(grown + rest.skip(1) == received + rest);
    }
}

/// A header of the selected port followed by as many bytes as it declares
/// yields exactly one payload, those bytes, and leaves the framer waiting
/// for the next header.
pub proof fn packet_yields_its_payload(port: u8, header: u8, payload: Seq<u8>)
    requires
        is_header(header),
        header_port(header) == port,
        payload.len() == header_size(header),
    ensures
        run(Framing::AwaitingHeader, port, seq![header] + payload) == (
            Framing::AwaitingHeader,
            seq![payload],
        ),
{
    let bytes = seq![header] + payload;
    let parsed = ItmHeader { port: header_port(header), payload_size: header_size(header) };
    assert(bytes[0] == header);
    assert(bytes.skip(1) == payload);
    payload_completes(port, parsed, Seq::empty(), payload);
    assert(Seq::<u8>::empty() + payload == payload);
}

/// A header of another port starts nothing: the framer goes on as if the
/// byte had not come.
pub proof fn foreign_header_is_passed_over(port: u8, header: u8, following: Seq<u8>)
    requires
        is_header(header),
        header_port(header) != port,
    ensures
        step(Framing::AwaitingHeader, port, header) == (Framing::AwaitingHeader, None::<Seq<u8>>),
        run(Framing::AwaitingHeader, port, seq![header] + following) == run(
            Framing::AwaitingHeader,
            port,
            following,
        ),
{
    let bytes = seq![header] + following;
    assert(bytes[0] == header);
    assert(bytes.skip(1) == following);
}

/// A header of another port, and the bytes that follow it up to the size it
/// declares, complete no payload, unless those bytes hold a whole packet of
/// the selected port by themselves.
pub proof fn foreign_packet_yields_nothing(port: u8, header: u8, following: Seq<u8>)
    requires
        is_header(header),
        header_port(header) != port,
        following.len() <= header_size(header),
        run(Framing::AwaitingHeader, port, following).1.len() == 0,
    ensures
        run(Framing::AwaitingHeader, port, seq![header] + following).1.len() == 0,
{
    foreign_header_is_passed_over(port, header, following);
}

/// The packet that is being put together.
pub struct ItmPacket {
    header: Option<ItmHeader>,
    payload: [u8; MAX_ITM_PAYLOAD],
    payload_size: usize,
}

impl View for ItmPacket {
    type V = Framing;

    closed spec fn view(&self) -> Framing {
        match self.header {
            Some(header) => Framing::Accumulating {
                header,
                received: self.payload@.take(self.payload_size as int),
            },
            None => Framing::AwaitingHeader,
        }
    }
}

impl ItmPacket {
    #[verifier::type_invariant]
    spec fn inv(self) -> bool {
        match self.header {
            Some(header) => header.well_formed() && self.payload_size < header.payload_size,
            None => true,
        }
    }

    /// A framer that waits for a header.
    pub fn new() -> (packet: ItmPacket)
        ensures
            packet@ == Framing::AwaitingHeader,
    {
        ItmPacket { header: None, payload: [0;MAX_ITM_PAYLOAD], payload_size: 0 }
    }

    /// Whether the framer is between packets, so that the next byte is
    /// read as a header.
    pub fn awaits_header(&self) -> (awaits: bool)
        ensures
            awaits == (self@ is AwaitingHeader),
    {
        self.header.is_none()
    }

    /// Takes the next byte of the stream. Returns the payload that the byte
    /// completed, if it completed one of `port`; a byte that is noise is
    /// dropped without a trace.
    pub fn receive(&mut self, port: u8, byte: u8) -> (out: Option<&[u8]>)
        ensures
            old(self)@.well_formed(),
            final(self)@.well_formed(),
            final(self)@ == step(old(self)@, port, byte).0,
            match step(old(self)@, port, byte).1 {
                Some(payload) => out matches Some(bytes) && bytes@ == payload,
                None => out is None,
            },
    {
        proof {
            use_type_invariant(&*self);
        }
        match self.header {
            Some(header) => {
                let ghost before = self.payload@.take(self.payload_size as int);
                self.payload[self.payload_size] = byte;
                let filled: usize = self.payload_size + 1;
                assert(self.payload@.take(filled as int) == before.push(byte));
                if filled == header.payload_size {
                    self.header = None;
                    Some(slice_subrange(self.payload.as_slice(), 0, filled))
                } else {
                    self.payload_size = filled;
                    None
                }
            },
            None => match ItmHeader::from_byte(byte) {
                Ok(header) => {
                    if header.port == port {
                        self.payload_size = 0;
                        self.header = Some(header);
                        assert(self.payload@.take(0) =~= Seq::<u8>::empty());
                    }
                    None
                },
                Err(_) => None,
            },
        }
    }
}

} // verus!

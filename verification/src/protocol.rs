//! The wire protocol: the handshake probe, the classification of the status
//! byte the device answers with, and the ASCII waveform-request command.

use vstd::prelude::*;

verus! {

/// Carriage return, the terminator of every command.
pub const CR: u8 = 0x0D;

/// Status byte meaning the device is present and idle.
pub const ACK: u8 = 0x41;

/// Status byte meaning the device is present but busy.
pub const BUSY: u8 = 0x61;

/// Baud rate used when the caller supplies none, or one that does not parse.
pub const DEFAULT_BAUD: u32 = 9600;

/// Read timeout of the transport, in milliseconds.
pub const READ_TIMEOUT_MS: u64 = 900;

/// Delay between checks of the inbound byte count, in milliseconds.
pub const POLL_INTERVAL_MS: u64 = 100;

/// Delay between two acquisition cycles, in milliseconds.
pub const CYCLE_DELAY_MS: u64 = 500;

/// What one handshake status byte means.
#[derive(Clone, Copy, Debug, PartialEq, Eq, Structural)]
pub enum ReplyClass {
    Ready,
    Busy,
    Unrecognized,
}

/// Meaning of a status byte: ACK is ready, BUSY is busy, all else unrecognized.
pub open spec fn classify_spec(b: u8) -> ReplyClass {
    if b == ACK {
        ReplyClass::Ready
    } else if b == BUSY {
        ReplyClass::Busy
    } else {
        ReplyClass::Unrecognized
    }
}

/// Classify one handshake status byte.
pub fn classify_reply(b: u8) -> (r: ReplyClass)
    ensures
        r == classify_spec(b),
        r is Ready <==> b == ACK,
        r is Busy <==> b == BUSY,
        r is Unrecognized <==> b != ACK && b != BUSY,
{
    if b == ACK {
        ReplyClass::Ready
    } else if b == BUSY {
        ReplyClass::Busy
    } else {
        ReplyClass::Unrecognized
    }
}

/// The handshake probe: the two ASCII bytes "S1" and a carriage return.
pub open spec fn handshake_probe_spec() -> Seq<u8> {
    seq![0x53u8, 0x31u8, CR]
}

/// Build the handshake probe that is written before any data request.
pub fn handshake_probe() -> (r: Vec<u8>)
    ensures
        r@ == handshake_probe_spec(),
{
    let mut r: Vec<u8> = Vec::new();
    r.push(0x53);
    r.push(0x31);
    r.push(CR);
    proof {
        assert(r@ =~= handshake_probe_spec());
    }
    r
}

/// The waveform-request command "R<channel>(<offset>,<length>,<mode>)" plus
/// the carriage return, as a byte sequence.
pub open spec fn request_command_spec(channel: u8, offset: Seq<u8>, length: Seq<u8>, mode: u8) -> Seq<u8> {
    seq![0x52u8, channel, 0x28u8] + offset + seq![0x2Cu8] + length + seq![0x2Cu8, mode, 0x29u8, CR]
}

/// Append every byte of `src` to `dst`, in order.
fn push_all(dst: &mut Vec<u8>, src: &Vec<u8>)
    ensures
        final(dst)@ == old(dst)@ + src@,
{
    let mut i: usize = 0;
    while i < src.len()
        invariant
            i <= src@.len(),
            dst@ == old(dst)@ + src@.subrange(0, i as int),
        decreases src@.len() - i,
    {
        let b = src[i];
        dst.push(b);
        proof {
            assert(dst@ =~= old(dst)@ + src@.subrange(0, i + 1));
        }
        i = i + 1;
    }
    proof {
        assert(dst@ =~= old(dst)@ + src@);
    }
}

/// Build a waveform-request command from its four parts.
pub fn request_command(channel: u8, offset: &Vec<u8>, length: &Vec<u8>, mode: u8) -> (r: Vec<u8>)
    ensures
        r@ == request_command_spec(channel, offset@, length@, mode),
{
    let mut r: Vec<u8> = Vec::new();
    r.push(0x52);
    r.push(channel);
    r.push(0x28);
    push_all(&mut r, offset);
    r.push(0x2C);
    push_all(&mut r, length);
    r.push(0x2C);
    r.push(mode);
    r.push(0x29);
    r.push(CR);
    proof {
        assert(r@ =~= request_command_spec(channel, offset@, length@, mode));
    }
    r
}

/// The one request the acquisition loop issues: channel 1, offset 0000,
/// length 1000, binary mode.
pub open spec fn default_request_spec() -> Seq<u8> {
    request_command_spec(
        0x31,
        seq![0x30u8, 0x30u8, 0x30u8, 0x30u8],
        seq![0x31u8, 0x30u8, 0x30u8, 0x30u8],
        0x42,
    )
}

/// Build the request the acquisition loop issues, "R1(0000,1000,B)" plus CR.
pub fn default_request() -> (r: Vec<u8>)
    ensures
        r@ == default_request_spec(),
        r@.len() == 16,
{
    let mut offset: Vec<u8> = Vec::new();
    offset.push(0x30);
    offset.push(0x30);
    offset.push(0x30);
    offset.push(0x30);
    let mut length: Vec<u8> = Vec::new();
    length.push(0x31);
    length.push(0x30);
    length.push(0x30);
    length.push(0x30);
    proof {
        assert(offset@ =~= seq![0x30u8, 0x30u8, 0x30u8, 0x30u8]);
        assert(length@ =~= seq![0x31u8, 0x30u8, 0x30u8, 0x30u8]);
    }
    request_command(0x31, &offset, &length, 0x42)
}

/// A command is an ASCII byte sequence terminated by a single carriage
/// return: where none of its parts holds one, CR stands in the command
/// exactly once, as its last byte. The handshake probe ends the same way.
pub proof fn lemma_command_single_cr(channel: u8, offset: Seq<u8>, length: Seq<u8>, mode: u8)
    requires
        channel != CR,
        mode != CR,
        forall|i: int| 0 <= i < offset.len() ==> offset[i] != CR,
        forall|i: int| 0 <= i < length.len() ==> length[i] != CR,
    ensures
        ({
            let c = request_command_spec(channel, offset, length, mode);
            &&& c.len() > 0
            &&& c[c.len() - 1] == CR
            &&& forall|i: int| 0 <= i < c.len() - 1 ==> c[i] != CR
        }),
        handshake_probe_spec().len() > 0,
        handshake_probe_spec()[handshake_probe_spec().len() - 1] == CR,
        forall|i: int| 0 <= i < handshake_probe_spec().len() - 1 ==> handshake_probe_spec()[i] != CR,
{
    let c = request_command_spec(channel, offset, length, mode);
    assert(c.len() == offset.len() + length.len() + 8);
    assert forall|i: int| 0 <= i < c.len() - 1 implies c[i] != CR by {
        if 3 <= i < 3 + offset.len() {
            assert(c[i] == offset[i - 3]);
        } else if 4 + offset.len() <= i < 4 + offset.len() + length.len() {
            assert(c[i] == length[i - 4 - offset.len()]);
        }
    }
}

/// Parameters of the serial link; fixed once the session is opened. The
/// framing itself (8 data bits, 2 stop bits, no parity, software flow
/// control) and the 900 ms read timeout are constants of the design.
pub struct ConnectionParams {
    pub port: String,
    pub baud: u32,
}

impl ConnectionParams {
    /// Keep the parsed baud rate, or fall back silently to the default.
    pub fn new(port: String, baud: Option<u32>) -> (p: ConnectionParams)
        ensures
            p.port == port,
            p.baud == effective_baud(baud),
    {
        let b: u32 = match baud {
            Option::Some(v) => v,
            Option::None => DEFAULT_BAUD,
        };
        ConnectionParams { port, baud: b }
    }
}

/// The baud rate actually used: the caller's where one parsed, else the default.
pub open spec fn effective_baud(baud: Option<u32>) -> u32 {
    match baud {
        Option::Some(v) => v,
        Option::None => DEFAULT_BAUD,
    }
}

} // verus!

use vstd::prelude::*;

verus! {

/// Bit of `flags`: half-duplex switching is enabled.
pub const SER_RS485_ENABLED: u32 = 1;
/// Bit of `flags`: the line is asserted while sending.
pub const SER_RS485_RTS_ON_SEND: u32 = 2;
/// Bit of `flags`: the line is asserted after sending.
pub const SER_RS485_RTS_AFTER_SEND: u32 = 4;
/// Bit of `flags`: the receiver stays on while sending.
pub const SER_RS485_RX_DURING_TX: u32 = 16;
/// Bit of `flags`: the bus termination is switched on.
pub const SER_RS485_TERMINATE_BUS: u32 = 32;
/// Size in bytes of the kernel's `struct serial_rs485`.
pub const DESCRIPTOR_LEN: usize = 32;

/// The fields of the kernel's `struct serial_rs485` that this library sets;
/// the remaining words of the structure are always zero.
#[derive(Clone, Copy, Debug, PartialEq, Eq, Structural)]
pub struct SerialRs485 {
    pub flags: u32,
    /// Delay between asserting the line and sending, in milliseconds.
    pub delay_rts_before_send: u32,
    /// Delay between the end of sending and releasing the line, in milliseconds.
    pub delay_rts_after_send: u32,
}

/// The flags word for a given polarity, receive-while-sending and termination choice.
pub open spec fn kernel_flags(rts_active_high: bool, rx_during_tx: bool, termination: bool) -> u32 {
    SER_RS485_ENABLED | (if rts_active_high {
        SER_RS485_RTS_ON_SEND
    } else {
        SER_RS485_RTS_AFTER_SEND
    }) | (if rx_during_tx {
        SER_RS485_RX_DURING_TX
    } else {
        0
    }) | (if termination {
        SER_RS485_TERMINATE_BUS
    } else {
        0
    })
}

/// The four little-endian bytes of `x`.
pub open spec fn u32_le_bytes(x: u32) -> Seq<u8> {
    seq![
        (x & 0xff) as u8,
        ((x >> 8u32) & 0xff) as u8,
        ((x >> 16u32) & 0xff) as u8,
        (x >> 24u32) as u8,
    ]
}

/// The number whose little-endian bytes are `b0 b1 b2 b3`.
pub open spec fn u32_from_le(b0: u8, b1: u8, b2: u8, b3: u8) -> u32 {
    (b0 as u32) | ((b1 as u32) << 8u32) | ((b2 as u32) << 16u32) | ((b3 as u32) << 24u32)
}

/// The byte image of a descriptor: three little-endian words, then zero padding.
pub open spec fn descriptor_bytes(d: SerialRs485) -> Seq<u8> {
    u32_le_bytes(d.flags) + u32_le_bytes(d.delay_rts_before_send) + u32_le_bytes(
        d.delay_rts_after_send,
    ) + Seq::new(20, |i: int| 0u8)
}

/// The little-endian word at byte offset `at` of `b`.
pub open spec fn word_at(b: Seq<u8>, at: int) -> u32 {
    u32_from_le(b[at], b[at + 1], b[at + 2], b[at + 3])
}

/// The descriptor that a 32-byte image holds.
pub open spec fn descriptor_of_bytes(b: Seq<u8>) -> SerialRs485 {
    SerialRs485 {
        flags: word_at(b, 0),
        delay_rts_before_send: word_at(b, 4),
        delay_rts_after_send: word_at(b, 8),
    }
}

fn push_u32_le(out: &mut Vec<u8>, x: u32)
    ensures
        final(out)@ == old(out)@ + u32_le_bytes(x),
{
    out.push((x & 0xff) as u8);
    out.push(((x >> 8u32) & 0xff) as u8);
    out.push(((x >> 16u32) & 0xff) as u8);
    out.push((x >> 24u32) as u8);
    assert(final(out)@ =~= old(out)@ + u32_le_bytes(x));
}

fn read_u32_le(b: &[u8], at: usize) -> (r: u32)
    requires
        at + 4 <= b@.len(),
    ensures
        r == word_at(b@, at as int),
{
    (b[at] as u32) | ((b[at + 1] as u32) << 8u32) | ((b[at + 2] as u32) << 16u32) | ((
    b[at + 3] as u32) << 24u32)
}

proof fn lemma_u32_le_round_trip(x: u32)
    ensures
        u32_from_le(
            u32_le_bytes(x)[0],
            u32_le_bytes(x)[1],
            u32_le_bytes(x)[2],
            u32_le_bytes(x)[3],
        ) == x,
{
    let b0 = (x & 0xff) as u8;
    let b1 = ((x >> 8u32) & 0xff) as u8;
    let b2 = ((x >> 16u32) & 0xff) as u8;
    let b3 = (x >> 24u32) as u8;
    assert((b0 as u32) | ((b1 as u32) << 8u32) | ((b2 as u32) << 16u32) | ((b3 as u32) << 24u32)
        == x) by (bit_vector)
        requires
            b0 == (x & 0xff) as u8,
            b1 == ((x >> 8u32) & 0xff) as u8,
            b2 == ((x >> 16u32) & 0xff) as u8,
            b3 == (x >> 24u32) as u8,
    ;
}

impl SerialRs485 {
    /// The all-zero descriptor, which switches kernel direction control off.
    pub fn disabled() -> (r: SerialRs485)
        ensures
            r.flags == 0,
            r.delay_rts_before_send == 0,
            r.delay_rts_after_send == 0,
    {
        SerialRs485 { flags: 0, delay_rts_before_send: 0, delay_rts_after_send: 0 }
    }

    /// The descriptor that enables kernel direction control with the given
    /// polarity, receive and termination choices and delays (given in
    /// microseconds and truncated to whole milliseconds).
    pub fn for_settings(
        rts_active_high: bool,
        rx_during_tx: bool,
        termination_enabled: bool,
        delay_before_send_micros: u32,
        delay_after_send_micros: u32,
    ) -> (r: SerialRs485)
        ensures
            r.flags == kernel_flags(rts_active_high, rx_during_tx, termination_enabled),
            r.delay_rts_before_send == delay_before_send_micros / 1000,
            r.delay_rts_after_send == delay_after_send_micros / 1000,
    {
        let polarity: u32 = if rts_active_high {
            SER_RS485_RTS_ON_SEND
        } else {
            SER_RS485_RTS_AFTER_SEND
        };
        let receive: u32 = if rx_during_tx {
            SER_RS485_RX_DURING_TX
        } else {
            0
        };
        let terminate: u32 = if termination_enabled {
            SER_RS485_TERMINATE_BUS
        } else {
            0
        };
        let flags: u32 = SER_RS485_ENABLED | polarity | receive | terminate;
        SerialRs485 {
            flags,
            delay_rts_before_send: delay_before_send_micros / 1000,
            delay_rts_after_send: delay_after_send_micros / 1000,
        }
    }

    /// Whether a descriptor read back from the kernel reports switching as enabled.
    pub fn is_enabled(&self) -> (r: bool)
        ensures
            r == (self.flags & SER_RS485_ENABLED != 0),
    {
        self.flags & SER_RS485_ENABLED != 0
    }

    /// The 32-byte image of the descriptor in the kernel's layout (little-endian words).
    pub fn to_bytes(&self) -> (r: Vec<u8>)
        ensures
            r@ == descriptor_bytes(*self),
            r@.len() == DESCRIPTOR_LEN,
    {
        let mut out: Vec<u8> = Vec::new();
        push_u32_le(&mut out, self.flags);
        push_u32_le(&mut out, self.delay_rts_before_send);
        push_u32_le(&mut out, self.delay_rts_after_send);
        let mut i: usize = 0;
        while i < 20
            invariant
                i <= 20,
                out@ == u32_le_bytes(self.flags) + u32_le_bytes(self.delay_rts_before_send)
                    + u32_le_bytes(self.delay_rts_after_send) + Seq::new(i as nat, |k: int| 0u8),
            decreases 20 - i,
        {
            out.push(0u8);
            i = i + 1;
            assert(out@ =~= u32_le_bytes(self.flags) + u32_le_bytes(self.delay_rts_before_send)
                + u32_le_bytes(self.delay_rts_after_send) + Seq::new(i as nat, |k: int| 0u8));
        }
        out
    }

    /// Reads a descriptor from its 32-byte image; `None` when the image has another length.
    pub fn from_bytes(b: &[u8]) -> (r: Option<SerialRs485>)
        ensures
            b@.len() == DESCRIPTOR_LEN ==> r == Some(descriptor_of_bytes(b@)),
            b@.len() != DESCRIPTOR_LEN ==> r.is_none(),
    {
        if b.len() != DESCRIPTOR_LEN {
            return None;
        }
        Some(
            SerialRs485 {
                flags: read_u32_le(b, 0),
                delay_rts_before_send: read_u32_le(b, 4),
                delay_rts_after_send: read_u32_le(b, 8),
            },
        )
    }
}

/// Reading back the image of a descriptor gives the same descriptor.
pub proof fn lemma_descriptor_round_trip(d: SerialRs485)
    ensures
        descriptor_bytes(d).len() == DESCRIPTOR_LEN,
        descriptor_of_bytes(descriptor_bytes(d)) == d,
{
    let b = descriptor_bytes(d);
    lemma_u32_le_round_trip(d.flags);
    lemma_u32_le_round_trip(d.delay_rts_before_send);
    lemma_u32_le_round_trip(d.delay_rts_after_send);
    assert(b.subrange(0, 4) =~= u32_le_bytes(d.flags));
    assert(b.subrange(4, 8) =~= u32_le_bytes(d.delay_rts_before_send));
    assert(b.subrange(8, 12) =~= u32_le_bytes(d.delay_rts_after_send));
}

/// The enabling flags word always has the enabled bit, exactly one of the two
/// polarity bits as the polarity says, the receive and termination bits as
/// asked, and no other bit.
pub proof fn lemma_kernel_flags_bits(rts_active_high: bool, rx_during_tx: bool, termination: bool)
    ensures
        kernel_flags(rts_active_high, rx_during_tx, termination) & SER_RS485_ENABLED != 0,
        (kernel_flags(rts_active_high, rx_during_tx, termination) & SER_RS485_RTS_ON_SEND != 0)
            == rts_active_high,
        (kernel_flags(rts_active_high, rx_during_tx, termination) & SER_RS485_RTS_AFTER_SEND != 0)
            == !rts_active_high,
        (kernel_flags(rts_active_high, rx_during_tx, termination) & SER_RS485_RX_DURING_TX != 0)
            == rx_during_tx,
        (kernel_flags(rts_active_high, rx_during_tx, termination) & SER_RS485_TERMINATE_BUS != 0)
            == termination,
        kernel_flags(rts_active_high, rx_during_tx, termination) & !0x37u32 == 0,
{
    let p: u32 = if rts_active_high { 2 } else { 4 };
    let x: u32 = if rx_during_tx { 16 } else { 0 };
    let t: u32 = if termination { 32 } else { 0 };
    let f = kernel_flags(rts_active_high, rx_during_tx, termination);
    assert(f == 1u32 | p | x | t);
    assert(f & 1 != 0 && ((f & 2 != 0) == (p == 2)) && ((f & 4 != 0) == (p == 4)) && ((f & 16
        != 0) == (x == 16)) && ((f & 32 != 0) == (t == 32)) && f & !0x37u32 == 0) by (bit_vector)
        requires
            f == 1u32 | p | x | t,
            p == 2 || p == 4,
            x == 16 || x == 0,
            t == 32 || t == 0,
    ;
}

} // verus!

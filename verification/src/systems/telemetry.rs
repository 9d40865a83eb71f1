use vstd::prelude::*;

use crate::systems::types::{DisasterType, PlatformState, PriorityLevel};

verus! {

/// One shift of the CRC-16/CCITT register (polynomial 0x1021, most significant bit first).
pub open spec fn crc16_shift(crc: u16) -> u16 {
    if crc & 0x8000u16 != 0 {
        (crc << 1u16) ^ 0x1021u16
    } else {
        crc << 1u16
    }
}

/// `n` consecutive register shifts.
pub open spec fn crc16_shifts(crc: u16, n: nat) -> u16
    decreases n,
{
    if n == 0 {
        crc
    } else {
        crc16_shift(crc16_shifts(crc, (n - 1) as nat))
    }
}

/// The register after absorbing one byte.
pub open spec fn crc16_byte(crc: u16, byte: u8) -> u16 {
    crc16_shifts(crc ^ ((byte as u16) << 8u16), 8)
}

/// The register after absorbing `data`, starting from `init`.
pub open spec fn crc16_from(init: u16, data: Seq<u8>) -> u16
    decreases data.len(),
{
    if data.len() == 0 {
        init
    } else {
        crc16_byte(crc16_from(init, data.drop_last()), data.last())
    }
}

/// CRC-16/CCITT-FALSE of `data`: initial register 0xFFFF, no reflection, no final xor.
pub open spec fn crc16(data: Seq<u8>) -> u16 {
    crc16_from(0xFFFFu16, data)
}

pub fn compute_crc16(data: &[u8]) -> (crc: u16)
    ensures
        crc == crc16(data@),
{
    let mut crc: u16 = 0xFFFF;
    let n = data.len();
    let mut i: usize = 0;
    while i < n
        invariant
            n == data@.len(),
            i <= n,
            crc == crc16(data@.take(i as int)),
        decreases n - i,
    {
        let byte = data[i];
        let start: u16 = crc ^ ((byte as u16) << 8u16);
        crc = start;
        let mut k: u32 = 0;
        while k < 8
            invariant
                k <= 8,
                crc == crc16_shifts(start, k as nat),
            decreases 8 - k,
        {
            if (crc & 0x8000) != 0 {
                crc = (crc << 1u16) ^ 0x1021;
            } else {
                crc = crc << 1u16;
            }
            k = k + 1;
        }
        assert(data@.take(i + 1).drop_last() =~= data@.take(i as int));
        i = i + 1;
    }
    assert(data@.take(n as int) =~= data@);
    crc
}


/// Eight register shifts written out, the form the bit-vector solver works on.
pub open spec fn crc16_shift8(c: u16) -> u16 {
    crc16_shift(crc16_shift(crc16_shift(crc16_shift(
        crc16_shift(crc16_shift(crc16_shift(crc16_shift(c))))))))
}

proof fn lemma_shifts_eight(c: u16)
    ensures
        crc16_shifts(c, 8) == crc16_shift8(c),
{
    reveal_with_fuel(crc16_shifts, 9);
}

/// The register computed over a concatenation is the register over the second
/// part, started from the register over the first part.
pub proof fn lemma_crc16_concat(init: u16, a: Seq<u8>, b: Seq<u8>)
    ensures
        crc16_from(init, a + b) == crc16_from(crc16_from(init, a), b),
    decreases b.len(),
{
    if b.len() == 0 {
        assert(a + b =~= a);
    } else {
        lemma_crc16_concat(init, a, b.drop_last());
        assert((a + b).drop_last() =~= a + b.drop_last());
        assert((a + b).last() == b.last());
    }
}

proof fn lemma_shift_small(x: u16)
    requires
        x < 0x8000,
    ensures
        crc16_shift(x) == x * 2,
{
    assert(x & 0x8000u16 == 0u16) by (bit_vector)
        requires
            x < 0x8000u16,
    ;
    assert((x << 1u16) == x * 2) by (bit_vector)
        requires
            x < 0x8000u16,
    ;
}

/// A register holding only a low byte is shifted up without feedback.
proof fn lemma_shift8_small(x: u16)
    requires
        x < 256,
    ensures
        crc16_shift8(x) == x * 256,
{
    lemma_shift_small(x);
    lemma_shift_small((x * 2) as u16);
    lemma_shift_small((x * 4) as u16);
    lemma_shift_small((x * 8) as u16);
    lemma_shift_small((x * 16) as u16);
    lemma_shift_small((x * 32) as u16);
    lemma_shift_small((x * 64) as u16);
    lemma_shift_small((x * 128) as u16);
}

proof fn lemma_register_bytes(c: u16)
    ensures
        c ^ ((((c >> 8u16) as u8) as u16) << 8u16) == c & 0xffu16,
        (((c & 0xffu16) as u8) as u16) << 8u16 == (c & 0xffu16) * 256,
        c & 0xffu16 < 256,
{
    assert(c ^ ((((c >> 8u16) as u8) as u16) << 8u16) == c & 0xffu16) by (bit_vector);
    assert((((c & 0xffu16) as u8) as u16) << 8u16 == (c & 0xffu16) * 256) by (bit_vector);
    assert(c & 0xffu16 < 256) by (bit_vector);
}

/// Appending a register value, most significant byte first, to the data it was
/// computed over brings the register to zero: a frame that carries its own
/// checksum at its end checks to zero.
pub proof fn lemma_crc16_residue(data: Seq<u8>)
    ensures
        crc16(data + seq![(crc16(data) >> 8u16) as u8, (crc16(data) & 0xffu16) as u8]) == 0,
{
    let c = crc16(data);
    let hi = (c >> 8u16) as u8;
    let lo = (c & 0xffu16) as u8;
    lemma_crc16_concat(0xFFFFu16, data, seq![hi, lo]);
    let tail = seq![hi, lo];
    assert(tail.drop_last() =~= seq![hi]);
    assert(seq![hi].drop_last() =~= Seq::<u8>::empty());
    lemma_register_bytes(c);
    let low = c & 0xffu16;
    lemma_shifts_eight(c ^ ((hi as u16) << 8u16));
    lemma_shift8_small(low);
    assert(crc16_byte(c, hi) == low * 256);
    let r1 = crc16_byte(c, hi);
    assert(r1 ^ ((lo as u16) << 8u16) == 0) by (bit_vector)
        requires
            r1 == (lo as u16) << 8u16,
    ;
    lemma_shifts_eight(0u16);
    lemma_shift8_small(0u16);
    assert(crc16_byte(r1, lo) == 0);
    assert(crc16_from(c, seq![hi]) == crc16_byte(c, hi)) by {
        assert(crc16_from(c, Seq::<u8>::empty()) == c);
    }
    assert(crc16_from(c, tail) == crc16_byte(crc16_from(c, seq![hi]), lo));
}


/// Two bytes, most significant first.
pub open spec fn be16(x: u16) -> Seq<u8> {
    seq![(x >> 8u16) as u8, (x & 0xffu16) as u8]
}

/// Four bytes, most significant first.
pub open spec fn be32(x: u32) -> Seq<u8> {
    seq![
        (x >> 24u32) as u8,
        ((x >> 16u32) & 0xffu32) as u8,
        ((x >> 8u32) & 0xffu32) as u8,
        (x & 0xffu32) as u8,
    ]
}

/// Length of a LoRa telemetry frame in bytes.
pub const LORA_FRAME_LEN: usize = 23;

/// Length of the frame before its checksum.
pub const LORA_PAYLOAD_LEN: usize = 21;

/// What the compact off-grid frame carries, each quantity already in its wire
/// unit: latitude and longitude in units of 1e-7 degree, altitude in whole
/// meters, battery state of charge in whole percent, hazard index in tenths.
#[derive(Debug, Clone, Copy, PartialEq, Eq)]
pub struct LoraTelemetryFields {
    pub sequence_number: u32,
    pub state: PlatformState,
    pub active_mode: DisasterType,
    pub priority: PriorityLevel,
    pub lat_e7: i32,
    pub lon_e7: i32,
    pub alt_m: i16,
    pub battery_soc_pct: u8,
    pub hazard_tenths: u8,
    pub critical_route_blocked: bool,
    pub gnss_lock: bool,
    pub optical_cam_ok: bool,
    pub thermal_sensor_ok: bool,
}

/// Status flags byte: bit 0 route blocked, bit 1 GNSS lock, bit 2 camera ok,
/// bit 3 thermal sensor ok.
pub open spec fn flags_byte(blocked: bool, gnss: bool, cam: bool, thermal: bool) -> u8 {
    (if blocked { 1u8 } else { 0u8 }) | (if gnss { 2u8 } else { 0u8 }) | (if cam { 4u8 } else { 0u8 })
        | (if thermal { 8u8 } else { 0u8 })
}

impl LoraTelemetryFields {
    /// The frame without its checksum: "SAT", sequence number (low 16 bits),
    /// state, mode, priority, latitude, longitude, altitude, battery, hazard, flags.
    pub open spec fn payload(self) -> Seq<u8> {
        seq![0x53u8, 0x41u8, 0x54u8] + be16(self.sequence_number as u16) + seq![
            self.state.code_of(),
            self.active_mode.code_of(),
            self.priority.level_of(),
        ] + be32(self.lat_e7 as u32) + be32(self.lon_e7 as u32) + be16(self.alt_m as u16) + seq![
            self.battery_soc_pct,
            self.hazard_tenths,
            flags_byte(
                self.critical_route_blocked,
                self.gnss_lock,
                self.optical_cam_ok,
                self.thermal_sensor_ok,
            ),
        ]
    }

    /// The payload followed by its CRC-16, most significant byte first.
    pub open spec fn frame(self) -> Seq<u8> {
        self.payload() + be16(crc16(self.payload()))
    }

    /// Encodes the compact binary frame sent over the off-grid LoRa link.
    pub fn to_lora_binary(&self) -> (frame: Vec<u8>)
        ensures
            frame@ == self.frame(),
    {
        let mut buf: Vec<u8> = Vec::with_capacity(32);
        buf.push(0x53);
        buf.push(0x41);
        buf.push(0x54);
        let seq16 = self.sequence_number as u16;
        push_be16(&mut buf, seq16);
        buf.push(self.state.code());
        buf.push(self.active_mode.code());
        buf.push(self.priority.level());
        push_be32(&mut buf, self.lat_e7 as u32);
        push_be32(&mut buf, self.lon_e7 as u32);
        push_be16(&mut buf, self.alt_m as u16);
        buf.push(self.battery_soc_pct);
        buf.push(self.hazard_tenths);
        let flags: u8 = (if self.critical_route_blocked { 1u8 } else { 0u8 }) | (if self.gnss_lock {
            2u8
        } else {
            0u8
        }) | (if self.optical_cam_ok { 4u8 } else { 0u8 }) | (if self.thermal_sensor_ok {
            8u8
        } else {
            0u8
        });
        buf.push(flags);
        assert(buf@ =~= self.payload());
        let crc = compute_crc16(buf.as_slice());
        push_be16(&mut buf, crc);
        buf
    }
}

fn push_be16(buf: &mut Vec<u8>, x: u16)
    ensures
        final(buf)@ == old(buf)@ + be16(x),
{
    buf.push((x >> 8u16) as u8);
    buf.push((x & 0xff) as u8);
    assert(buf@ =~= old(buf)@ + be16(x));
}

fn push_be32(buf: &mut Vec<u8>, x: u32)
    ensures
        final(buf)@ == old(buf)@ + be32(x),
{
    buf.push((x >> 24u32) as u8);
    buf.push(((x >> 16u32) & 0xff) as u8);
    buf.push(((x >> 8u32) & 0xff) as u8);
    buf.push((x & 0xff) as u8);
    assert(buf@ =~= old(buf)@ + be32(x));
}

/// Every LoRa frame is 23 bytes, opens with the "SAT" header, carries in its
/// last two bytes the CRC-16 of the 21 bytes before them, and checks to zero
/// when the CRC is taken over the whole frame.
pub proof fn lemma_lora_frame_checks(fields: LoraTelemetryFields)
    ensures
        fields.frame().len() == LORA_FRAME_LEN,
        fields.frame().take(3) == seq![0x53u8, 0x41u8, 0x54u8],
        fields.frame().take(LORA_PAYLOAD_LEN as int) == fields.payload(),
        crc16(fields.frame().take(LORA_PAYLOAD_LEN as int)) == fields.frame()[21] as int * 256
            + fields.frame()[22] as int,
        crc16(fields.frame()) == 0,
{
    let p = fields.payload();
    let f = fields.frame();
    assert(p.len() == 21);
    assert(f.take(3) =~= seq![0x53u8, 0x41u8, 0x54u8]);
    assert(f.take(21) =~= p);
    let c = crc16(p);
    assert(c == ((c >> 8u16) as u8) as int * 256 + ((c & 0xffu16) as u8) as int) by (bit_vector);
    lemma_crc16_residue(p);
}


/// The documented byte layout of a LoRa frame: sync word in 0..3, sequence
/// number in 3..5, state, mode and priority in 5, 6 and 7, latitude in 8..12,
/// longitude in 12..16, altitude in 16..18, battery in 18, hazard in 19, flags
/// in 20 and the checksum in 21..23.
pub proof fn lemma_lora_frame_layout(fields: LoraTelemetryFields)
    ensures
        fields.frame().subrange(0, 3) == seq![0x53u8, 0x41u8, 0x54u8],
        fields.frame().subrange(3, 5) == be16(fields.sequence_number as u16),
        fields.frame()[5] == fields.state.code_of(),
        fields.frame()[6] == fields.active_mode.code_of(),
        fields.frame()[7] == fields.priority.level_of(),
        fields.frame().subrange(8, 12) == be32(fields.lat_e7 as u32),
        fields.frame().subrange(12, 16) == be32(fields.lon_e7 as u32),
        fields.frame().subrange(16, 18) == be16(fields.alt_m as u16),
        fields.frame()[18] == fields.battery_soc_pct,
        fields.frame()[19] == fields.hazard_tenths,
        fields.frame()[20] == flags_byte(
            fields.critical_route_blocked,
            fields.gnss_lock,
            fields.optical_cam_ok,
            fields.thermal_sensor_ok,
        ),
        fields.frame().subrange(21, 23) == be16(crc16(fields.payload())),
{
    let f = fields.frame();
    assert(f.subrange(0, 3) =~= seq![0x53u8, 0x41u8, 0x54u8]);
    assert(f.subrange(3, 5) =~= be16(fields.sequence_number as u16));
    assert(f.subrange(8, 12) =~= be32(fields.lat_e7 as u32));
    assert(f.subrange(12, 16) =~= be32(fields.lon_e7 as u32));
    assert(f.subrange(16, 18) =~= be16(fields.alt_m as u16));
    assert(f.subrange(21, 23) =~= be16(crc16(fields.payload())));
}

/// Each flag sits in its own bit of the flags byte.
pub proof fn lemma_flags_bits(blocked: bool, gnss: bool, cam: bool, thermal: bool)
    ensures
        (flags_byte(blocked, gnss, cam, thermal) & 1u8 != 0) == blocked,
        (flags_byte(blocked, gnss, cam, thermal) & 2u8 != 0) == gnss,
        (flags_byte(blocked, gnss, cam, thermal) & 4u8 != 0) == cam,
        (flags_byte(blocked, gnss, cam, thermal) & 8u8 != 0) == thermal,
        flags_byte(blocked, gnss, cam, thermal) < 16,
{
    let a: u8 = if blocked { 1u8 } else { 0u8 };
    let b: u8 = if gnss { 2u8 } else { 0u8 };
    let c: u8 = if cam { 4u8 } else { 0u8 };
    let d: u8 = if thermal { 8u8 } else { 0u8 };
    assert((a | b | c | d) & 1u8 != 0 <==> a == 1u8) by (bit_vector)
        requires
            a == 0u8 || a == 1u8,
            b == 0u8 || b == 2u8,
            c == 0u8 || c == 4u8,
            d == 0u8 || d == 8u8,
    ;
    assert((a | b | c | d) & 2u8 != 0 <==> b == 2u8) by (bit_vector)
        requires
            a == 0u8 || a == 1u8,
            b == 0u8 || b == 2u8,
            c == 0u8 || c == 4u8,
            d == 0u8 || d == 8u8,
    ;
    assert((a | b | c | d) & 4u8 != 0 <==> c == 4u8) by (bit_vector)
        requires
            a == 0u8 || a == 1u8,
            b == 0u8 || b == 2u8,
            c == 0u8 || c == 4u8,
            d == 0u8 || d == 8u8,
    ;
    assert((a | b | c | d) & 8u8 != 0 <==> d == 8u8) by (bit_vector)
        requires
            a == 0u8 || a == 1u8,
            b == 0u8 || b == 2u8,
            c == 0u8 || c == 4u8,
            d == 0u8 || d == 8u8,
    ;
    assert((a | b | c | d) < 16u8) by (bit_vector)
        requires
            a == 0u8 || a == 1u8,
            b == 0u8 || b == 2u8,
            c == 0u8 || c == 4u8,
            d == 0u8 || d == 8u8,
    ;
}

} // verus!

//! The sensor model of the micro:bit: the payload that the sensor server
//! publishes, and its binary encoding per property.
use vstd::prelude::*;
use crate::external::{buffer_bytes, buffer_extend};

verus! {

/// Property id of the temperature reading (one byte, signed).
pub const PROP_TEMP: u16 = 0x4F;

/// Property id of the accelerometer reading (three little-endian `i16`).
pub const PROP_XL: u16 = 0x4242;

/// Property id of the noise level (one byte, unsigned).
pub const PROP_NOISE: u16 = 0x79;

/// Capacity of a parameter buffer.
pub const PARAMETERS_CAPACITY: usize = 386;

/// Marker type naming the sensor configuration of the micro:bit.
#[derive(Debug, Clone, Copy, PartialEq, Eq)]
pub struct MicrobitSensorConfig;

/// Accelerometer values.
#[derive(Debug, Clone, Copy, PartialEq, Eq, Structural)]
pub struct Acceleration {
    pub x: i16,
    pub y: i16,
    pub z: i16,
}

/// The readings of the sensor server.
#[derive(Debug, Clone, Copy, PartialEq, Eq, Structural)]
pub struct SensorPayload {
    pub temperature: i8,
    pub acceleration: Acceleration,
    pub noise: u8,
}

/// Size and id of one sensor property, as announced by the sensor server.
#[derive(Debug, Clone, Copy, PartialEq, Eq, Structural)]
pub struct SensorDescriptor {
    pub id: u16,
    pub size: u8,
}

/// The error of decoding a property that the model does not know.
#[derive(Debug, Clone, Copy, PartialEq, Eq, Structural)]
pub enum ParseError {
    InvalidValue,
}

/// The error of writing into a buffer that has no room left.
#[derive(Debug, Clone, Copy, PartialEq, Eq, Structural)]
pub struct InsufficientBuffer;

/// A message as the gateway forwards it: opcode and parameter bytes, with the
/// element location and, when known, the unicast address of the node.
#[derive(Debug, Clone, PartialEq, Eq)]
pub struct RawMessage {
    pub address: Option<u16>,
    pub location: u16,
    pub opcode: Vec<u8>,
    pub parameters: Vec<u8>,
}

// ---------------------------------------------------------------------------
// Byte-level model
// ---------------------------------------------------------------------------

/// The byte that holds an `i8` in two's complement.
pub open spec fn i8_byte(v: i8) -> u8 {
    (if v < 0 { v + 256 } else { v as int }) as u8
}

/// The `i8` that a byte holds in two's complement.
pub open spec fn byte_i8(b: u8) -> i8 {
    (if b >= 128 { b - 256 } else { b as int }) as i8
}

/// The two little-endian bytes of an `i16` in two's complement.
pub open spec fn i16_le(v: i16) -> Seq<u8> {
    let u: int = if v < 0 { v + 65536 } else { v as int };
    seq![(u % 256) as u8, (u / 256) as u8]
}

/// The `i16` held by two little-endian bytes in two's complement.
pub open spec fn le_i16(lo: u8, hi: u8) -> i16 {
    let u: int = lo + 256 * hi;
    (if u >= 32768 { u - 65536 } else { u }) as i16
}

/// The size in bytes of the value of a property, if the model knows it.
pub open spec fn property_size(id: u16) -> Option<nat> {
    if id == PROP_TEMP {
        Some(1)
    } else if id == PROP_XL {
        Some(6)
    } else if id == PROP_NOISE {
        Some(1)
    } else {
        None
    }
}

/// The bytes that encode property `id` of `p`; empty for an unknown property.
pub open spec fn property_bytes(p: SensorPayload, id: u16) -> Seq<u8> {
    if id == PROP_TEMP {
        seq![i8_byte(p.temperature)]
    } else if id == PROP_XL {
        i16_le(p.acceleration.x) + i16_le(p.acceleration.y) + i16_le(p.acceleration.z)
    } else if id == PROP_NOISE {
        seq![p.noise]
    } else {
        Seq::empty()
    }
}

/// What `decode` makes of `p` for property `id` and the parameter bytes, or
/// `None` for a property that the model does not know.
pub open spec fn decoded(p: SensorPayload, id: u16, params: Seq<u8>) -> Option<SensorPayload> {
    if id == PROP_TEMP {
        Some(SensorPayload { temperature: byte_i8(params[0]), ..p })
    } else if id == PROP_XL {
        Some(
            SensorPayload {
                acceleration: Acceleration {
                    x: le_i16(params[0], params[1]),
                    y: le_i16(params[2], params[3]),
                    z: le_i16(params[4], params[5]),
                },
                ..p
            },
        )
    } else if id == PROP_NOISE {
        Some(SensorPayload { noise: params[0], ..p })
    } else {
        None
    }
}

/// The outcome of `encode` on a buffer holding `before`: whether it succeeded
/// and what the buffer holds afterwards. The accelerometer value is written
/// in three steps, so a buffer that runs full keeps the steps that fitted.
pub open spec fn encoded(p: SensorPayload, id: u16, before: Seq<u8>) -> (bool, Seq<u8>) {
    let room: int = PARAMETERS_CAPACITY - before.len();
    if id == PROP_XL {
        if room < 2 {
            (false, before)
        } else if room < 4 {
            (false, before + i16_le(p.acceleration.x))
        } else if room < 6 {
            (false, before + i16_le(p.acceleration.x) + i16_le(p.acceleration.y))
        } else {
            (true, before + property_bytes(p, id))
        }
    } else if id == PROP_TEMP || id == PROP_NOISE {
        if room < 1 {
            (false, before)
        } else {
            (true, before + property_bytes(p, id))
        }
    } else {
        (true, before)
    }
}

// ---------------------------------------------------------------------------
// Byte-level functions
// ---------------------------------------------------------------------------

fn i8_to_byte(v: i8) -> (b: u8)
    ensures
        b == i8_byte(v),
{
    if v < 0 {
        (v as i16 + 256) as u8
    } else {
        v as u8
    }
}

fn byte_to_i8(b: u8) -> (v: i8)
    ensures
        v == byte_i8(b),
{
    if b >= 128 {
        (b as i16 - 256) as i8
    } else {
        b as i8
    }
}

fn i16_to_le(v: i16) -> (bytes: [u8; 2])
    ensures
        bytes@ == i16_le(v),
{
    let u: u16 = if v < 0 {
        (v as i32 + 65536) as u16
    } else {
        v as u16
    };
    let bytes = [(u % 256) as u8, (u / 256) as u8];
    assert(bytes@ =~= i16_le(v));
    bytes
}

fn le_to_i16(lo: u8, hi: u8) -> (v: i16)
    ensures
        v == le_i16(lo, hi),
{
    let u: u32 = lo as u32 + 256 * hi as u32;
    if u >= 32768 {
        (u as i32 - 65536) as i16
    } else {
        u as i16
    }
}

impl Acceleration {
    /// All three axes at zero.
    pub fn default() -> (a: Acceleration)
        ensures
            a == (Acceleration { x: 0, y: 0, z: 0 }),
    {
        Acceleration { x: 0, y: 0, z: 0 }
    }
}

impl SensorPayload {
    /// All readings at zero.
    pub fn default() -> (p: SensorPayload)
        ensures
            p == (SensorPayload {
                temperature: 0,
                acceleration: Acceleration { x: 0, y: 0, z: 0 },
                noise: 0,
            }),
    {
        SensorPayload { temperature: 0, noise: 0, acceleration: Acceleration::default() }
    }

    /// Sets the reading of property `id` from its parameter bytes. An unknown
    /// property is refused and leaves the payload as it was.
    pub fn decode(&mut self, id: u16, params: &[u8]) -> (r: Result<(), ParseError>)
        requires
            property_size(id) matches Some(n) ==> params@.len() >= n,
        ensures
            decoded(*old(self), id, params@) matches Some(q) ==> r == Ok::<(), ParseError>(())
                && *final(self) == q,
            decoded(*old(self), id, params@) is None ==> r == Err::<(), ParseError>(
                ParseError::InvalidValue,
            ) && *final(self) == *old(self),
    {
        if id == PROP_TEMP {
            self.temperature = byte_to_i8(params[0]);
            Ok(())
        } else if id == PROP_XL {
            self.acceleration = Acceleration::default();
            self.acceleration.x = le_to_i16(params[0], params[1]);
            self.acceleration.y = le_to_i16(params[2], params[3]);
            self.acceleration.z = le_to_i16(params[4], params[5]);
            Ok(())
        } else if id == PROP_NOISE {
            self.noise = params[0];
            Ok(())
        } else {
            Err(ParseError::InvalidValue)
        }
    }

    /// Appends the encoding of property `id` to `xmit`. An unknown property
    /// appends nothing. When the buffer runs full the call fails, keeping
    /// what was appended before that point.
    pub fn encode(&self, id: u16, xmit: &mut heapless::Vec<u8, 386>) -> (r: Result<
        (),
        InsufficientBuffer,
    >)
        ensures
            r is Ok == encoded(*self, id, buffer_bytes(*old(xmit))).0,
            buffer_bytes(*final(xmit)) == encoded(*self, id, buffer_bytes(*old(xmit))).1,
    {
        if id == PROP_TEMP {
            let b = [i8_to_byte(self.temperature)];
            if !buffer_extend(xmit, &b) {
                return Err(InsufficientBuffer);
            }
            assert(b@ =~= property_bytes(*self, id));
        } else if id == PROP_XL {
            let x = i16_to_le(self.acceleration.x);
            if !buffer_extend(xmit, &x) {
                return Err(InsufficientBuffer);
            }
            let y = i16_to_le(self.acceleration.y);
            if !buffer_extend(xmit, &y) {
                return Err(InsufficientBuffer);
            }
            let z = i16_to_le(self.acceleration.z);
            if !buffer_extend(xmit, &z) {
                return Err(InsufficientBuffer);
            }
            assert(buffer_bytes(*old(xmit)) + x@ + y@ + z@ =~= buffer_bytes(*old(xmit))
                + property_bytes(*self, id));
        } else if id == PROP_NOISE {
            let b = [self.noise];
            if !buffer_extend(xmit, &b) {
                return Err(InsufficientBuffer);
            }
            assert(b@ =~= property_bytes(*self, id));
        }
        Ok(())
    }
}

impl MicrobitSensorConfig {
    /// The properties that the sensor server announces, with their sizes.
    pub fn descriptors() -> (d: Vec<SensorDescriptor>)
        ensures
            d@ == seq![
                SensorDescriptor { id: PROP_TEMP, size: 1 },
                SensorDescriptor { id: PROP_XL, size: 6 },
                SensorDescriptor { id: PROP_NOISE, size: 1 },
            ],
            forall|i: int|
                0 <= i < d@.len() ==> property_size(#[trigger] d@[i].id) == Some(
                    d@[i].size as nat,
                ),
    {
        let d = vec![
            SensorDescriptor { id: PROP_TEMP, size: 1 },
            SensorDescriptor { id: PROP_XL, size: 6 },
            SensorDescriptor { id: PROP_NOISE, size: 1 },
        ];
        assert(d@ =~= seq![
            SensorDescriptor { id: PROP_TEMP, size: 1 },
            SensorDescriptor { id: PROP_XL, size: 6 },
            SensorDescriptor { id: PROP_NOISE, size: 1 },
        ]);
        d
    }
}

impl RawMessage {
    /// Appends the parameter bytes of the message to `parameters`; fails,
    /// writing nothing, when they do not all fit.
    pub fn emit_parameters(&self, parameters: &mut heapless::Vec<u8, 386>) -> (r: Result<
        (),
        InsufficientBuffer,
    >)
        ensures
            buffer_bytes(*old(parameters)).len() + self.parameters@.len() <= PARAMETERS_CAPACITY
                ==> r is Ok && buffer_bytes(*final(parameters)) == buffer_bytes(*old(parameters))
                + self.parameters@,
            buffer_bytes(*old(parameters)).len() + self.parameters@.len() > PARAMETERS_CAPACITY
                ==> r is Err && buffer_bytes(*final(parameters)) == buffer_bytes(
                *old(parameters),
            ),
    {
        if buffer_extend(parameters, self.parameters.as_slice()) {
            Ok(())
        } else {
            Err(InsufficientBuffer)
        }
    }
}

// ---------------------------------------------------------------------------
// Laws
// ---------------------------------------------------------------------------

/// Decoding a byte of a signed value gives back the value it was encoded from.
pub proof fn lemma_i8_roundtrip(v: i8)
    ensures
        byte_i8(i8_byte(v)) == v,
{
}

/// Encoding the value a byte holds gives back the byte.
pub proof fn lemma_byte_roundtrip(b: u8)
    ensures
        i8_byte(byte_i8(b)) == b,
{
}

/// Decoding the little-endian bytes of an `i16` gives back the value.
pub proof fn lemma_i16_roundtrip(v: i16)
    ensures
        le_i16(i16_le(v)[0], i16_le(v)[1]) == v,
{
}

/// Encoding the value of two little-endian bytes gives back the bytes.
pub proof fn lemma_le_roundtrip(lo: u8, hi: u8)
    ensures
        i16_le(le_i16(lo, hi)) == seq![lo, hi],
{
    assert(i16_le(le_i16(lo, hi)) =~= seq![lo, hi]);
}

/// The encoding of a known property has exactly the size that the model
/// announces for it.
pub proof fn lemma_encoding_size(p: SensorPayload, id: u16)
    requires
        property_size(id) is Some,
    ensures
        property_bytes(p, id).len() == property_size(id).unwrap(),
{
}

/// Decoding what was encoded for a known property sets that property of any
/// payload to the value of the encoded payload, and leaves the others.
pub proof fn lemma_encode_then_decode(p: SensorPayload, q: SensorPayload, id: u16)
    requires
        property_size(id) is Some,
    ensures
        decoded(q, id, property_bytes(p, id)) == Some(
            if id == PROP_TEMP {
                SensorPayload { temperature: p.temperature, ..q }
            } else if id == PROP_XL {
                SensorPayload { acceleration: p.acceleration, ..q }
            } else {
                SensorPayload { noise: p.noise, ..q }
            },
        ),
{
    lemma_i8_roundtrip(p.temperature);
    lemma_i16_roundtrip(p.acceleration.x);
    lemma_i16_roundtrip(p.acceleration.y);
    lemma_i16_roundtrip(p.acceleration.z);
}

/// Encoding the payload decoded from the bytes of a known property gives
/// back exactly those bytes.
pub proof fn lemma_decode_then_encode(q: SensorPayload, id: u16, params: Seq<u8>)
    requires
        property_size(id) matches Some(n) && params.len() == n,
    ensures
        property_bytes(decoded(q, id, params).unwrap(), id) == params,
{
    if id == PROP_TEMP {
        lemma_byte_roundtrip(params[0]);
        assert(property_bytes(decoded(q, id, params).unwrap(), id) =~= params);
    } else if id == PROP_XL {
        lemma_le_roundtrip(params[0], params[1]);
        lemma_le_roundtrip(params[2], params[3]);
        lemma_le_roundtrip(params[4], params[5]);
        assert(property_bytes(decoded(q, id, params).unwrap(), id) =~= params);
    } else {
        assert(property_bytes(decoded(q, id, params).unwrap(), id) =~= params);
    }
}

/// Encoding into a buffer with room for the value succeeds and appends
/// exactly the encoding of the property.
pub proof fn lemma_encode_with_room(p: SensorPayload, id: u16, before: Seq<u8>)
    requires
        before.len() + property_bytes(p, id).len() <= PARAMETERS_CAPACITY,
    ensures
        encoded(p, id, before) == (true, before + property_bytes(p, id)),
{
    if id != PROP_XL && id != PROP_TEMP && id != PROP_NOISE {
        assert(before + property_bytes(p, id) =~= before);
    }
}

} // verus!

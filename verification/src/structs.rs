use vstd::prelude::*;

use crate::error::I2Error;
use crate::error::I2Result;

verus! {

/// The fixed file header: absolute byte offsets into the same file for the
/// channel-metadata list, the channel-data region and the event record,
/// device identity, the channel count, and the descriptive strings.
#[derive(Debug, Clone, PartialEq, Hash)]
pub struct Header {
    pub channel_meta_ptr: u32,
    pub channel_data_ptr: u32,
    pub event_ptr: u32,

    pub device_serial: u32,
    pub device_type: String,
    pub device_version: u16,

    pub num_channels: u32,

    pub date_string: String,
    pub time_string: String,

    pub driver: String,
    pub vehicleid: String,
    pub venue: String,
    pub session: String,
    pub short_comment: String,
}

/// A raw stored sample, a closed union over the on-disk representations.
/// A 32-bit float sample is carried as its IEEE bit pattern:
/// conversion of float samples to engineering values happens outside the
/// verified core, which only ever treats them as opaque (or, in the beacon
/// decoder, as zero).
#[derive(Debug, Clone, PartialEq, Eq, Structural, Hash)]
pub enum Sample {
    I8(i8),
    I16(i16),
    I32(i32),
    F32(u32),
}

/// Ten raised to `e`.
pub open spec fn pow10(e: nat) -> int
    decreases e,
{
    if e == 0 {
        1
    } else {
        10 * pow10((e - 1) as nat)
    }
}

pub proof fn lemma_pow10_pos(e: nat)
    ensures
        pow10(e) >= 1,
    decreases e,
{
    if e > 0 {
        lemma_pow10_pos((e - 1) as nat);
    }
}

pub proof fn lemma_pow10_18()
    ensures
        pow10(18) == 1000000000000000000,
{
    reveal_with_fuel(pow10, 19);
}

pub proof fn lemma_pow10_le(a: nat, b: nat)
    requires
        a <= b,
    ensures
        pow10(a) <= pow10(b),
    decreases b,
{
    if a < b {
        lemma_pow10_le(a, (b - 1) as nat);
        lemma_pow10_pos((b - 1) as nat);
    }
}

/// Largest decimal-place magnitude the exact sample decoder accepts; ten to
/// this power still fits comfortably beside the other factors in 128 bits.
pub const DEC_PLACES_LIMIT: i16 = 18;

/// Denominator of the exact engineering value of a sample on channel `c`:
/// the scale times ten to the (nonnegative part of the) decimal-place count.
pub open spec fn decode_den(c: ChannelMetadata) -> int {
    c.scale * (if c.dec_places >= 0 {
        pow10(c.dec_places as nat)
    } else {
        1
    })
}

impl Sample {
    /// Whether this sample stores a signed integer (not a float bit pattern).
    pub open spec fn is_integer_sample(self) -> bool {
        !(self is F32)
    }

    /// The stored integer value of an integer sample.
    pub open spec fn raw_int(self) -> int {
        match self {
            Sample::I8(v) => v as int,
            Sample::I16(v) => v as int,
            Sample::I32(v) => v as int,
            Sample::F32(_) => 0,
        }
    }

    /// Numerator of the exact engineering value of this sample on channel
    /// `c`: the raw value times the multiplier, times ten to the magnitude of
    /// a negative decimal-place count.
    pub open spec fn decode_num(self, c: ChannelMetadata) -> int {
        self.raw_int() * c.mul * (if c.dec_places < 0 {
            pow10((-c.dec_places) as nat)
        } else {
            1
        })
    }

    /// Exact engineering value of an integer sample as a fraction.
    ///
    /// The engineering value of a raw sample is raw / scale * 10^(-dec_places)
    /// * mul; the channel's offset field is deliberately not applied, matching
    /// the rest of the codec. This returns that value as the exact pair
    /// (numerator, denominator) = (raw * mul * 10^max(0, -dec_places),
    /// scale * 10^max(0, dec_places)), so the quotient num/den is the decoded
    /// value with no rounding. Returns `None` exactly when the value has no
    /// such representation here: a float sample, a zero scale, or a
    /// decimal-place count beyond `DEC_PLACES_LIMIT` in magnitude.
    pub fn decode_exact(&self, channel: &ChannelMetadata) -> (r: Option<(i128, u128)>)
        ensures
            (r is Some) <==> (self.is_integer_sample() && channel.scale != 0
                && -DEC_PLACES_LIMIT <= channel.dec_places <= DEC_PLACES_LIMIT),
            r is Some ==> ({
                let (n, d) = r->Some_0;
                n == self.decode_num(*channel) && d == decode_den(*channel) && d >= 1
            }),
    {
        let v: i128 = match self {
            Sample::I8(v) => *v as i128,
            Sample::I16(v) => *v as i128,
            Sample::I32(v) => *v as i128,
            Sample::F32(_) => { return None; },
        };
        if channel.scale == 0 {
            return None;
        }
        if channel.dec_places < -DEC_PLACES_LIMIT || channel.dec_places > DEC_PLACES_LIMIT {
            return None;
        }
        proof {
            lemma_pow10_18();
        }
        if channel.dec_places >= 0 {
            let p: u128 = pow10_u128(channel.dec_places as u16);
            proof {
                lemma_pow10_le(channel.dec_places as nat, 18);
                assert((channel.scale as int) * (p as int) <= 65535 * 1000000000000000000int)
                    by (nonlinear_arith)
                    requires
                        0 <= channel.scale <= 65535,
                        0 <= p <= 1000000000000000000,
                ;
                assert((v as int) * (channel.mul as int)
                    <= 2147483648int * 65535 && (v as int) * (channel.mul as int)
                    >= -2147483648int * 65535) by (nonlinear_arith)
                    requires
                        -2147483648 <= v <= 2147483648,
                        0 <= channel.mul <= 65535,
                ;
                assert((channel.scale as int) * (p as int) >= 1) by (nonlinear_arith)
                    requires
                        1 <= channel.scale,
                        1 <= p,
                ;
            }
            let n: i128 = v * (channel.mul as i128);
            let d: u128 = (channel.scale as u128) * p;
            Some((n, d))
        } else {
            let p: u128 = pow10_u128((-channel.dec_places) as u16);
            proof {
                lemma_pow10_le((-channel.dec_places) as nat, 18);
                assert((v as int) * (channel.mul as int)
                    <= 2147483648int * 65535 && (v as int) * (channel.mul as int)
                    >= -2147483648int * 65535) by (nonlinear_arith)
                    requires
                        -2147483648 <= v <= 2147483648,
                        0 <= channel.mul <= 65535,
                ;
                assert((v as int) * (channel.mul as int) * (p as int)
                    <= 2147483648int * 65535 * 1000000000000000000
                    && (v as int) * (channel.mul as int) * (p as int)
                    >= -2147483648int * 65535 * 1000000000000000000) by (nonlinear_arith)
                    requires
                        -2147483648int * 65535 <= (v as int) * (channel.mul as int)
                            <= 2147483648int * 65535,
                        1 <= p <= 1000000000000000000,
                ;
            }
            let n: i128 = v * (channel.mul as i128) * (p as i128);
            let d: u128 = channel.scale as u128;
            Some((n, d))
        }
    }
}

/// Ten raised to `e`, executable.
fn pow10_u128(e: u16) -> (r: u128)
    requires
        e <= 18,
    ensures
        r == pow10(e as nat),
        r >= 1,
{
    let mut r: u128 = 1;
    let mut i: u16 = 0;
    while i < e
        invariant
            i <= e,
            e <= 18,
            r == pow10(i as nat),
        decreases e - i,
    {
        proof {
            assert(pow10((i + 1) as nat) == 10 * pow10(i as nat));
            lemma_pow10_le((i + 1) as nat, 18);
            lemma_pow10_18();
        }
        r = r * 10;
        i = i + 1;
    }
    proof {
        lemma_pow10_pos(e as nat);
    }
    r
}

/// The logical kind of a channel's stored samples. The mapping from on-disk
/// (type code, byte size) pairs to these variants is many-to-one: several raw
/// codes observed in real files mean the same logical integer kind, and a few
/// pairs produced by a known third-party exporter mean `Invalid` (zero-width,
/// zero samples) regardless of their nominal code.
#[derive(Debug, Clone, PartialEq, Eq, Structural, Hash)]
pub enum Datatype {
    /// Marker (beacon) signal stored as 16-bit integers.
    Beacon16,
    /// Marker (beacon) signal stored as 32-bit integers.
    Beacon32,
    I8,
    I16,
    I32,

    F16,
    F32,

    /// Zero-width catch-all for exporter quirks; such channels carry no data.
    Invalid,
}

impl Datatype {
    /// Byte width of one sample of this datatype on file.
    pub open spec fn size_spec(self) -> u16 {
        match self {
            Datatype::I8 => 1,
            Datatype::Beacon16 => 2,
            Datatype::I16 => 2,
            Datatype::F16 => 2,
            Datatype::Beacon32 => 4,
            Datatype::I32 => 4,
            Datatype::F32 => 4,
            Datatype::Invalid => 0,
        }
    }

    /// Size in bytes that this datatype occupies on file.
    pub fn size(&self) -> (r: u16)
        ensures
            r == self.size_spec(),
    {
        match self {
            Datatype::I8 => 1,
            Datatype::Beacon16 | Datatype::I16 | Datatype::F16 => 2,
            Datatype::Beacon32 | Datatype::I32 | Datatype::F32 => 4,
            Datatype::Invalid => 0,
        }
    }

    /// Canonical on-disk type code written for this datatype.
    pub open spec fn type_spec(self) -> u16 {
        match self {
            Datatype::Beacon16 => 0,
            Datatype::Beacon32 => 0,
            Datatype::I8 => 3,
            Datatype::I16 => 3,
            Datatype::I32 => 3,
            Datatype::F16 => 7,
            Datatype::F32 => 7,
            Datatype::Invalid => 999,
        }
    }

    /// The type code under which this datatype is written back out.
    pub fn _type(&self) -> (r: u16)
        ensures
            r == self.type_spec(),
    {
        match self {
            Datatype::Beacon16 | Datatype::Beacon32 => 0,
            Datatype::I8 | Datatype::I16 | Datatype::I32 => 3,
            Datatype::F16 | Datatype::F32 => 7,
            Datatype::Invalid => 999,
        }
    }

    /// The compatibility table: the datatype meant by an on-disk
    /// (type code, byte size) pair, or `None` for a pair outside the table.
    pub open spec fn from_spec(_type: u16, size: u16) -> Option<Datatype> {
        if _type == 0 && size == 2 {
            Some(Datatype::Beacon16)
        } else if _type == 0 && size == 4 {
            Some(Datatype::Beacon32)
        } else if _type == 3 && size == 1 {
            Some(Datatype::I8)
        } else if _type == 3 && size == 2 {
            Some(Datatype::I16)
        } else if _type == 3 && size == 4 {
            Some(Datatype::I32)
        } else if _type == 5 && size == 2 {
            Some(Datatype::I16)
        } else if _type == 5 && size == 4 {
            Some(Datatype::I32)
        } else if _type == 7 && size == 2 {
            Some(Datatype::F16)
        } else if _type == 7 && size == 4 {
            Some(Datatype::F32)
        } else if (_type == 17536 || _type == 6566 || _type == 29813) && size == 5 {
            Some(Datatype::Invalid)
        } else if _type == 0 && size == 5 {
            Some(Datatype::Invalid)
        } else if _type == 15 && size == 5 {
            Some(Datatype::Invalid)
        } else {
            None
        }
    }

    /// Maps an on-disk (type code, byte size) pair to its datatype. Total
    /// over the compatibility table: every documented pair yields its
    /// variant, and every pair outside the table yields the
    /// unrecognized-datatype error carrying the pair, never a default.
    pub fn from_type_and_size(_type: u16, size: u16) -> (r: I2Result<Datatype>)
        ensures
            Self::from_spec(_type, size) is Some ==> r == Ok::<Datatype, I2Error>(
                Self::from_spec(_type, size)->Some_0,
            ),
            Self::from_spec(_type, size) is None ==> r == Err::<Datatype, I2Error>(
                I2Error::UnrecognizedDatatype { _type, size },
            ),
    {
        match (_type, size) {
            (0, 2) => Ok(Datatype::Beacon16),
            (0, 4) => Ok(Datatype::Beacon32),
            (3, 1) => Ok(Datatype::I8),
            (3, 2) => Ok(Datatype::I16),
            (3, 4) => Ok(Datatype::I32),
            (5, 2) => Ok(Datatype::I16),
            (5, 4) => Ok(Datatype::I32),
            (7, 2) => Ok(Datatype::F16),
            (7, 4) => Ok(Datatype::F32),
            (17536, 5) | (6566, 5) | (29813, 5) => Ok(Datatype::Invalid),
            (0, 5) => Ok(Datatype::Invalid),
            (15, 5) => Ok(Datatype::Invalid),
            _ => Err(I2Error::UnrecognizedDatatype { _type, size }),
        }
    }
}

/// Distinguishes an ordinary data channel from the marker ("beacon")
/// channel that carries the lap-timing pulse signal.
#[derive(Debug, Clone, PartialEq, Eq, Structural, Hash)]
pub enum ChannelFlag {
    Default,
    Beacon,
}

/// One node of the on-disk doubly-linked list of channel descriptions. This
/// only describes a channel; the sample data lives elsewhere in the file, at
/// `data_addr`.
#[derive(Debug, Clone, PartialEq, Hash)]
pub struct ChannelMetadata {
    pub prev_addr: u32,
    pub next_addr: u32,

    pub data_addr: u32,
    pub data_count: u32,

    pub datatype: Datatype,
    /// Sample rate in Hz.
    pub sample_rate: u16,

    pub offset: u16,
    pub mul: u16,
    pub scale: u16,
    pub dec_places: i16,

    pub name: String,
    pub short_name: String,
    pub unit: String,

    pub channel_feature_flag: ChannelFlag,
}

impl ChannelMetadata {
    /// Size in bytes of the data section for this channel.
    pub fn data_size(&self) -> (r: u32)
        requires
            self.data_count * self.datatype.size_spec() <= u32::MAX,
        ensures
            r == self.data_count * self.datatype.size_spec(),
    {
        self.data_count * (self.datatype.size() as u32)
    }
}

/// The descriptive event record, reached from the header's event pointer.
#[derive(Debug, Clone, PartialEq, Hash)]
pub struct Event {
    /// Max 64 chars.
    pub name: String,
    /// Max 64 chars.
    pub session: String,
    /// Max 1024 chars.
    pub comment: String,

    pub venue_addr: u32,

    /// Pointer to the (unmodeled) weather record.
    pub weather_addr: u32,
}

/// The descriptive venue record, reached from the event's venue pointer.
#[derive(Debug, Clone, PartialEq, Hash)]
pub struct Venue {
    /// Max 64 chars.
    pub name: String,
    /// Track length in mm.
    pub length: i32,
    /// Venue best-lap time in ms.
    pub venue_best_lap: i32,

    pub vehicle_addr: u32,
}

/// The descriptive vehicle record, reached from the venue's vehicle pointer.
/// Fixed-point fields keep their stored integer form here; the float views
/// of the gear ratios and fuel-tank size live outside the verified core.
#[derive(Debug, Clone, PartialEq, Hash)]
pub struct Vehicle {
    /// Max 64 chars.
    pub id: String,
    /// Max 64 chars.
    pub desc: String,
    /// Max 64 chars.
    pub engine_id: String,
    /// Weight in kg.
    pub weight: i16,
    /// Fuel-tank capacity in tenths of a liter.
    pub fuel_tank_i16: i16,
    /// Max 32 chars.
    pub _type: String,
    /// Max 32 chars.
    pub drive_type: String,
    /// Max 1024 chars.
    pub comment: String,
    /// Gear ratios in thousandths; index 0 is the final drive, 1-10 are
    /// gears 1-10. A zero slot means the gear is absent.
    pub gear_ratios_i16: [i16; 11],
    /// Track width in mm.
    pub track_width: i16,
    /// Wheelbase in mm.
    pub wheel_base: i16,
}

} // verus!

//! The values handed to the notification layer, and their wire formats.

use vstd::prelude::*;
use crate::oxygen_saturation::FilteredSample;
use crate::quantity::Voltage;

verus! {

/// The number of bytes of a serialised `RawData`.
pub const RAW_DATA_BYTES: usize = 16;

/// The two's complement of `value` in 32 bits.
pub open spec fn unsigned_of(value: int) -> int {
    if value >= 0 {
        value
    } else {
        value + 0x1_0000_0000
    }
}

/// The value whose two's complement in 32 bits is `word`.
pub open spec fn signed_of(word: int) -> int {
    if word < 0x8000_0000 {
        word
    } else {
        word - 0x1_0000_0000
    }
}

/// The four bytes of `value`, least significant first.
pub open spec fn le_bytes_of(value: int) -> Seq<u8> {
    let word = unsigned_of(value);
    seq![
        (word % 256) as u8,
        (word / 256 % 256) as u8,
        (word / 65_536 % 256) as u8,
        (word / 16_777_216 % 256) as u8,
    ]
}

/// The value that four bytes, least significant first, stand for.
pub open spec fn value_of_le_bytes(bytes: Seq<u8>) -> int {
    signed_of(bytes[0] + 256 * bytes[1] + 65_536 * bytes[2] + 16_777_216 * bytes[3])
}

/// Reading back the bytes of a value gives the value.
pub proof fn lemma_le_bytes_round_trip(value: i32)
    ensures
        le_bytes_of(value as int).len() == 4,
        value_of_le_bytes(le_bytes_of(value as int)) == value,
{
}

/// The raw readings of the front-end at one sampling instant.
#[derive(Clone, Copy, Debug, PartialEq, Eq, Structural)]
pub struct RawData {
    pub ambient: Voltage,
    pub led1: Voltage,
    pub led2: Voltage,
    pub led3: Voltage,
}

impl RawData {
    /// The wire format: the four readings in microvolts, each as four bytes,
    /// least significant first, in the order ambient, LED 1, LED 2, LED 3.
    pub open spec fn spec_serialise(self) -> Seq<u8> {
        le_bytes_of(self.ambient.microvolts as int) + le_bytes_of(self.led1.microvolts as int)
            + le_bytes_of(self.led2.microvolts as int) + le_bytes_of(self.led3.microvolts as int)
    }

    /// The readings that sixteen bytes in the wire format stand for.
    pub open spec fn spec_deserialise(bytes: Seq<u8>) -> RawData {
        RawData {
            ambient: Voltage { microvolts: value_of_le_bytes(bytes.subrange(0, 4)) as i32 },
            led1: Voltage { microvolts: value_of_le_bytes(bytes.subrange(4, 8)) as i32 },
            led2: Voltage { microvolts: value_of_le_bytes(bytes.subrange(8, 12)) as i32 },
            led3: Voltage { microvolts: value_of_le_bytes(bytes.subrange(12, 16)) as i32 },
        }
    }

    /// The reading of the channel at `index`, in the order of the wire format.
    pub open spec fn spec_channel(self, index: int) -> Option<Voltage> {
        if index == 0 {
            Some(self.ambient)
        } else if index == 1 {
            Some(self.led1)
        } else if index == 2 {
            Some(self.led2)
        } else if index == 3 {
            Some(self.led3)
        } else {
            None
        }
    }

    /// Readings of zero on every channel.
    pub fn new() -> (r: RawData)
        ensures
            r.ambient.microvolts == 0,
            r.led1.microvolts == 0,
            r.led2.microvolts == 0,
            r.led3.microvolts == 0,
    {
        RawData {
            ambient: Voltage { microvolts: 0 },
            led1: Voltage { microvolts: 0 },
            led2: Voltage { microvolts: 0 },
            led3: Voltage { microvolts: 0 },
        }
    }

    /// Serialises the readings into their wire format.
    pub fn serialise(&self) -> (data: [u8; 16])
        ensures
            data@ == self.spec_serialise(),
    {
        let a = le_bytes(self.ambient.microvolts);
        let b = le_bytes(self.led1.microvolts);
        let c = le_bytes(self.led2.microvolts);
        let d = le_bytes(self.led3.microvolts);
        let data: [u8; 16] = [
            a[0],
            a[1],
            a[2],
            a[3],
            b[0],
            b[1],
            b[2],
            b[3],
            c[0],
            c[1],
            c[2],
            c[3],
            d[0],
            d[1],
            d[2],
            d[3],
        ];
        proof {
            assert(data@ =~= self.spec_serialise());
        }
        data
    }

    /// Reads the readings back from their wire format.
    pub fn deserialise(data: &[u8; 16]) -> (r: RawData)
        ensures
            r == Self::spec_deserialise(data@),
    {
        proof {
            assert(data@.subrange(0, 4) =~= seq![data@[0], data@[1], data@[2], data@[3]]);
            assert(data@.subrange(4, 8) =~= seq![data@[4], data@[5], data@[6], data@[7]]);
            assert(data@.subrange(8, 12) =~= seq![data@[8], data@[9], data@[10], data@[11]]);
            assert(data@.subrange(12, 16) =~= seq![data@[12], data@[13], data@[14], data@[15]]);
        }
        RawData {
            ambient: Voltage { microvolts: from_le_bytes(data[0], data[1], data[2], data[3]) },
            led1: Voltage { microvolts: from_le_bytes(data[4], data[5], data[6], data[7]) },
            led2: Voltage { microvolts: from_le_bytes(data[8], data[9], data[10], data[11]) },
            led3: Voltage { microvolts: from_le_bytes(data[12], data[13], data[14], data[15]) },
        }
    }

    /// The reading of the channel at `index`: ambient first, then the three
    /// LEDs; none from four on.
    pub fn channel(&self, index: usize) -> (r: Option<Voltage>)
        ensures
            r == self.spec_channel(index as int),
    {
        if index == 0 {
            Some(self.ambient)
        } else if index == 1 {
            Some(self.led1)
        } else if index == 2 {
            Some(self.led2)
        } else if index == 3 {
            Some(self.led3)
        } else {
            None
        }
    }

    /// Adds the readings of `rhs`, channel by channel, stopping at the ends of
    /// the range of a reading.
    pub fn add_assign(&mut self, rhs: RawData)
        ensures
            final(self).ambient.microvolts == spec_sum(
                old(self).ambient.microvolts as int,
                rhs.ambient.microvolts as int,
            ),
            final(self).led1.microvolts == spec_sum(
                old(self).led1.microvolts as int,
                rhs.led1.microvolts as int,
            ),
            final(self).led2.microvolts == spec_sum(
                old(self).led2.microvolts as int,
                rhs.led2.microvolts as int,
            ),
            final(self).led3.microvolts == spec_sum(
                old(self).led3.microvolts as int,
                rhs.led3.microvolts as int,
            ),
    {
        self.ambient = sum(self.ambient, rhs.ambient);
        self.led1 = sum(self.led1, rhs.led1);
        self.led2 = sum(self.led2, rhs.led2);
        self.led3 = sum(self.led3, rhs.led3);
    }

    /// Divides every reading by `rhs`, rounding towards zero.
    pub fn div_assign(&mut self, rhs: u32)
        requires
            rhs > 0,
        ensures
            final(self).ambient.microvolts == crate::quantity::trunc_div(
                old(self).ambient.microvolts as int,
                rhs as int,
            ),
            final(self).led1.microvolts == crate::quantity::trunc_div(
                old(self).led1.microvolts as int,
                rhs as int,
            ),
            final(self).led2.microvolts == crate::quantity::trunc_div(
                old(self).led2.microvolts as int,
                rhs as int,
            ),
            final(self).led3.microvolts == crate::quantity::trunc_div(
                old(self).led3.microvolts as int,
                rhs as int,
            ),
    {
        self.ambient = quotient(self.ambient, rhs);
        self.led1 = quotient(self.led1, rhs);
        self.led2 = quotient(self.led2, rhs);
        self.led3 = quotient(self.led3, rhs);
    }
}

/// The sum of two readings, limited to the range of a reading.
pub open spec fn spec_sum(a: int, b: int) -> int {
    crate::quantity::clamp(a + b, i32::MIN as int, i32::MAX as int)
}

fn sum(a: Voltage, b: Voltage) -> (r: Voltage)
    ensures
        r.microvolts == spec_sum(a.microvolts as int, b.microvolts as int),
{
    let wide: i64 = a.microvolts as i64 + b.microvolts as i64;
    if wide < i32::MIN as i64 {
        Voltage { microvolts: i32::MIN }
    } else if wide > i32::MAX as i64 {
        Voltage { microvolts: i32::MAX }
    } else {
        Voltage { microvolts: wide as i32 }
    }
}

fn quotient(a: Voltage, divisor: u32) -> (r: Voltage)
    requires
        divisor > 0,
    ensures
        r.microvolts == crate::quantity::trunc_div(a.microvolts as int, divisor as int),
{
    let wide: i64 = (a.microvolts as i64) / (divisor as i64);
    proof {
        crate::quantity::lemma_trunc_div_bounds(a.microvolts as int, divisor as int);
    }
    Voltage { microvolts: wide as i32 }
}

/// Splits `value` into four bytes, least significant first.
pub fn le_bytes(value: i32) -> (bytes: [u8; 4])
    ensures
        bytes@ == le_bytes_of(value as int),
{
    let word: i64 = if value >= 0 {
        value as i64
    } else {
        value as i64 + 0x1_0000_0000
    };
    let bytes: [u8; 4] = [
        (word % 256) as u8,
        (word / 256 % 256) as u8,
        (word / 65_536 % 256) as u8,
        (word / 16_777_216 % 256) as u8,
    ];
    proof {
        assert(bytes@ =~= le_bytes_of(value as int));
    }
    bytes
}

/// Joins four bytes, least significant first, into the value they stand for.
pub fn from_le_bytes(b0: u8, b1: u8, b2: u8, b3: u8) -> (value: i32)
    ensures
        value == value_of_le_bytes(seq![b0, b1, b2, b3]),
{
    let word: i64 = b0 as i64 + 256 * (b1 as i64) + 65_536 * (b2 as i64) + 16_777_216 * (b3 as i64);
    if word < 0x8000_0000 {
        word as i32
    } else {
        (word - 0x1_0000_0000) as i32
    }
}

/// Serialising readings and reading them back recovers all four of them.
pub proof fn lemma_serialise_round_trip(data: RawData)
    ensures
        data.spec_serialise().len() == RAW_DATA_BYTES,
        RawData::spec_deserialise(data.spec_serialise()) == data,
{
    let bytes = data.spec_serialise();
    lemma_le_bytes_round_trip(data.ambient.microvolts);
    lemma_le_bytes_round_trip(data.led1.microvolts);
    lemma_le_bytes_round_trip(data.led2.microvolts);
    lemma_le_bytes_round_trip(data.led3.microvolts);
    assert(bytes.subrange(0, 4) =~= le_bytes_of(data.ambient.microvolts as int));
    assert(bytes.subrange(4, 8) =~= le_bytes_of(data.led1.microvolts as int));
    assert(bytes.subrange(8, 12) =~= le_bytes_of(data.led2.microvolts as int));
    assert(bytes.subrange(12, 16) =~= le_bytes_of(data.led3.microvolts as int));
}

/// The filtered channels and the crossing threshold of each.
#[derive(Clone, Copy, Debug, PartialEq, Eq, Structural)]
pub struct FilteredData {
    pub led1: FilteredSample,
    pub led2: FilteredSample,
    pub led3: FilteredSample,
    pub led1_threshold: i64,
    pub led2_threshold: i64,
    pub led3_threshold: i64,
}

impl FilteredData {
    /// The filtered sample of the LED at `i`.
    pub open spec fn spec_index(self, i: int) -> FilteredSample {
        if i == 0 {
            self.led1
        } else if i == 1 {
            self.led2
        } else {
            self.led3
        }
    }

    /// Filtered data that is zero throughout.
    pub fn new() -> (r: FilteredData)
        ensures
            r == (FilteredData {
                led1: FilteredSample { dc: 0, ac: 0 },
                led2: FilteredSample { dc: 0, ac: 0 },
                led3: FilteredSample { dc: 0, ac: 0 },
                led1_threshold: 0,
                led2_threshold: 0,
                led3_threshold: 0,
            }),
    {
        FilteredData {
            led1: FilteredSample { dc: 0, ac: 0 },
            led2: FilteredSample { dc: 0, ac: 0 },
            led3: FilteredSample { dc: 0, ac: 0 },
            led1_threshold: 0,
            led2_threshold: 0,
            led3_threshold: 0,
        }
    }

    /// The filtered sample of the LED at `i`.
    pub fn index(&self, i: usize) -> (r: FilteredSample)
        requires
            i < 3,
        ensures
            r == self.spec_index(i as int),
    {
        if i == 0 {
            self.led1
        } else if i == 1 {
            self.led2
        } else {
            self.led3
        }
    }

    /// Replaces the filtered sample of the LED at `i`.
    pub fn index_mut(&mut self, i: usize, sample: FilteredSample)
        requires
            i < 3,
        ensures
            final(self).spec_index(i as int) == sample,
            forall|j: int|
                0 <= j < 3 && j != i ==> final(self).spec_index(j) == old(self).spec_index(j),
            final(self).led1_threshold == old(self).led1_threshold,
            final(self).led2_threshold == old(self).led2_threshold,
            final(self).led3_threshold == old(self).led3_threshold,
    {
        if i == 0 {
            self.led1 = sample;
        } else if i == 1 {
            self.led2 = sample;
        } else {
            self.led3 = sample;
        }
    }
}

/// The vital signs as the notification layer sees them.
#[derive(Clone, Copy, Debug, PartialEq, Eq, Structural)]
pub struct Results {
    pub wrist_presence: bool,
    /// Thousandths of a beat per minute.
    pub heart_rate: u64,
    /// Ten-thousandths of a percent.
    pub spo2: i64,
    /// Ten-thousandths.
    pub r: u64,
    /// Ten-thousandths of a percent, for LED 1, LED 2 and LED 3.
    pub led1_pi: i64,
    pub led2_pi: i64,
    pub led3_pi: i64,
}

impl Results {
    /// Results before anything was measured.
    pub fn new() -> (r: Results)
        ensures
            r == (Results {
                wrist_presence: false,
                heart_rate: 0,
                spo2: 0,
                r: 0,
                led1_pi: 0,
                led2_pi: 0,
                led3_pi: 0,
            }),
    {
        Results {
            wrist_presence: false,
            heart_rate: 0,
            spo2: 0,
            r: 0,
            led1_pi: 0,
            led2_pi: 0,
            led3_pi: 0,
        }
    }
}

} // verus!

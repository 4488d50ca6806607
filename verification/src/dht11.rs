//! The sensor's sample format: five byte lanes per exchange, carrying
//! humidity, temperature and a checksum.

use vstd::arithmetic::power2::{lemma2_to64, lemma_pow2_unfold, pow2};
use vstd::prelude::*;

verus! {

/// The five byte lanes of one exchange, in the order received: integral
/// humidity, fractional humidity, integral temperature, fractional
/// temperature, checksum.
#[derive(Clone, Copy, Debug)]
pub struct RawSample {
    pub lanes: [u8; 5],
}

/// One decoded sample.
#[derive(Clone, Copy, Debug, PartialEq, Eq, Structural)]
pub struct Reading {
    /// Degrees Celsius.
    pub temperature: i8,
    /// Relative humidity in percent.
    pub humidity: i8,
}

/// Why a sample was not turned into a reading.
#[derive(Clone, Copy, Debug, PartialEq, Eq, Structural)]
pub enum SampleError {
    /// The sensor did not answer: nothing arrived, or every lane is zero.
    NoResponse,
    /// The checksum lane does not match the other four.
    ChecksumMismatch,
}

/// A byte read as a two's-complement signed number.
pub open spec fn signed(lane: u8) -> int {
    if lane < 128 {
        lane as int
    } else {
        lane as int - 256
    }
}

/// The value of a bit sequence whose first bit is the most significant.
pub open spec fn msb_first(bits: Seq<bool>) -> nat
    decreases bits.len(),
{
    if bits.len() == 0 {
        0
    } else {
        2 * msb_first(bits.drop_last()) + if bits.last() {
            1nat
        } else {
            0nat
        }
    }
}

/// The sum of the first four lanes, modulo 256.
pub open spec fn checksum_of(lanes: Seq<u8>) -> int
    recommends
        lanes.len() == 5,
{
    (lanes[0] + lanes[1] + lanes[2] + lanes[3]) % 256
}

/// What the lanes say, taken at face value.
pub open spec fn decoded(lanes: Seq<u8>) -> Reading
    recommends
        lanes.len() == 5,
{
    Reading { temperature: signed(lanes[2]) as i8, humidity: signed(lanes[0]) as i8 }
}

/// Every lane is zero: what a silent sensor leaves behind.
pub open spec fn blank(lanes: Seq<u8>) -> bool
    recommends
        lanes.len() == 5,
{
    forall|i: int| 0 <= i < 5 ==> lanes[i] == 0
}

/// Reads a byte as a two's-complement signed number.
pub fn to_signed(lane: u8) -> (v: i8)
    ensures
        v == signed(lane),
{
    if lane < 128 {
        lane as i8
    } else {
        let low: u8 = lane - 128;
        i8::MIN + low as i8
    }
}

/// The low eight bits of a word taken from the receive queue.
pub fn lane_of_word(word: u32) -> (lane: u8)
    ensures
        lane == word % 256,
{
    let low: u32 = word & 0xff;
    assert(word & 0xff == word % 256) by (bit_vector);
    low as u8
}

/// Shifts one received bit into a lane from the right, so that the bit
/// received first ends up most significant.
pub fn shift_in(lane: u8, bit: bool) -> (next: u8)
    ensures
        next == (2 * lane + if bit { 1int } else { 0int }) % 256,
{
    let shifted: u8 = lane << 1;
    assert(lane << 1 == (2 * lane) % 256) by (bit_vector);
    let low: u8 = if bit { 1 } else { 0 };
    assert(shifted % 2 == 0);
    assert(shifted | low == shifted + low) by (bit_vector)
        requires
            shifted % 2 == 0,
            low <= 1,
    ;
    shifted | low
}

/// A bit sequence read most significant bit first stays below two to the
/// power of its length.
pub proof fn lemma_msb_first_bound(bits: Seq<bool>)
    ensures
        msb_first(bits) < pow2(bits.len()),
    decreases bits.len(),
{
    if bits.len() == 0 {
        lemma2_to64();
    } else {
        lemma_msb_first_bound(bits.drop_last());
        lemma_pow2_unfold(bits.len());
    }
}

/// The lane made of the eight bits that start at `start`.
fn lane_at(bits: &[bool; 40], start: usize) -> (lane: u8)
    requires
        start + 8 <= 40,
    ensures
        lane == msb_first(bits@.subrange(start as int, start + 8)),
{
    let mut lane: u8 = 0;
    let mut taken: usize = 0;
    while taken < 8
        invariant
            taken <= 8,
            start + 8 <= 40,
            bits@.len() == 40,
            lane == msb_first(bits@.subrange(start as int, start + taken)),
        decreases 8 - taken,
    {
        let bit = bits[start + taken];
        proof {
            let sofar = bits@.subrange(start as int, start + taken);
            let more = bits@.subrange(start as int, start + taken + 1);
            assert(more.drop_last() == sofar);
            assert(more.last() == bit);
            lemma_msb_first_bound(more);
            lemma2_to64();
            if taken + 1 < 8 {
                vstd::arithmetic::power2::lemma_pow2_strictly_increases((taken + 1) as nat, 8);
            }
        }
        lane = shift_in(lane, bit);
        taken = taken + 1;
    }
    lane
}

impl RawSample {
    /// The lanes as a sequence.
    pub open spec fn view(&self) -> Seq<u8> {
        self.lanes@
    }

    /// Builds a sample from the five words taken from the receive queue;
    /// each lane is the low byte of its word.
    pub fn from_words(words: [u32; 5]) -> (raw: RawSample)
        ensures
            raw@.len() == 5,
            forall|i: int| 0 <= i < 5 ==> raw@[i] == words@[i] % 256,
    {
        RawSample {
            lanes: [
                lane_of_word(words[0]),
                lane_of_word(words[1]),
                lane_of_word(words[2]),
                lane_of_word(words[3]),
                lane_of_word(words[4]),
            ],
        }
    }

    /// Builds a sample from the forty bits of one exchange, in the order
    /// received: each lane takes eight of them, the first as its most
    /// significant bit.
    pub fn from_bits(bits: &[bool; 40]) -> (raw: RawSample)
        ensures
            raw@.len() == 5,
            forall|k: int| 0 <= k < 5 ==> raw@[k] == msb_first(#[trigger] bits@.subrange(8 * k, 8 * k + 8)),
    {
        RawSample {
            lanes: [
                lane_at(bits, 0),
                lane_at(bits, 8),
                lane_at(bits, 16),
                lane_at(bits, 24),
                lane_at(bits, 32),
            ],
        }
    }

    /// The checksum that the first four lanes call for.
    pub fn checksum(&self) -> (sum: u8)
        ensures
            sum == checksum_of(self@),
    {
        let total: u16 = self.lanes[0] as u16 + self.lanes[1] as u16 + self.lanes[2] as u16
            + self.lanes[3] as u16;
        (total % 256) as u8
    }

    /// Does the checksum lane match the other four?
    pub fn checksum_ok(&self) -> (ok: bool)
        ensures
            ok == (self@[4] == checksum_of(self@)),
    {
        self.lanes[4] == self.checksum()
    }

    /// Is every lane zero?
    pub fn is_blank(&self) -> (b: bool)
        ensures
            b == blank(self@),
    {
        self.lanes[0] == 0 && self.lanes[1] == 0 && self.lanes[2] == 0 && self.lanes[3] == 0
            && self.lanes[4] == 0
    }
}

/// Turns a sample into a reading without looking at the checksum:
/// temperature from lane 2, humidity from lane 0, each read as signed.
pub fn decode(raw: &RawSample) -> (reading: Reading)
    ensures
        reading == decoded(raw@),
{
    Reading { temperature: to_signed(raw.lanes[2]), humidity: to_signed(raw.lanes[0]) }
}

/// The verdict on a sample: silent sensor, corrupted transfer, or a reading.
pub open spec fn checked(lanes: Seq<u8>) -> Result<Reading, SampleError>
    recommends
        lanes.len() == 5,
{
    if blank(lanes) {
        Err(SampleError::NoResponse)
    } else if lanes[4] != checksum_of(lanes) {
        Err(SampleError::ChecksumMismatch)
    } else {
        Ok(decoded(lanes))
    }
}

/// Turns a sample into a reading, refusing a blank sample and one whose
/// checksum does not match.
pub fn decode_checked(raw: &RawSample) -> (result: Result<Reading, SampleError>)
    ensures
        result == checked(raw@),
{
    if raw.is_blank() {
        Err(SampleError::NoResponse)
    } else if !raw.checksum_ok() {
        Err(SampleError::ChecksumMismatch)
    } else {
        Ok(decode(raw))
    }
}

/// How the timing unit is set up to talk to the sensor.
#[derive(Clone, Copy, Debug, PartialEq, Eq, Structural)]
pub struct DecoderConfig {
    /// The system clock is divided by this to clock the timing unit.
    pub clock_divider: u16,
    /// A lane is handed over once this many bits have been shifted in.
    pub bits_per_lane: u8,
    /// Lanes are handed over without the program asking for it.
    pub auto_push: bool,
    /// Bits are shifted in from the right, so that the first bit received
    /// becomes the most significant.
    pub shift_left: bool,
    /// The data pin is pulled to its idle level, high.
    pub pull_up: bool,
}

impl DecoderConfig {
    /// The setup for the sensor on a 125 MHz system clock: one cycle of the
    /// timing unit per microsecond, eight bits per lane, first bit first.
    pub fn dht11() -> (config: DecoderConfig)
        ensures
            config == (DecoderConfig {
                clock_divider: 125,
                bits_per_lane: 8,
                auto_push: true,
                shift_left: true,
                pull_up: true,
            }),
    {
        DecoderConfig {
            clock_divider: 125,
            bits_per_lane: 8,
            auto_push: true,
            shift_left: true,
            pull_up: true,
        }
    }
}

/// How many samples are thrown away after power-up, while the sensor settles.
pub const WARMUP_SAMPLES: u8 = 2;

/// What the sensor front end remembers between exchanges.
#[derive(Clone, Copy, Debug, PartialEq, Eq, Structural)]
pub struct SensorState {
    /// The last reading that passed the checks.
    pub last_good: Option<Reading>,
    /// The last exchange gave no reading: `last_good` is older than that.
    pub stale: bool,
    /// How many exchanges failed the checksum; it stops counting at the top.
    pub checksum_errors: u32,
    /// How many more exchanges belong to the settling time.
    pub settling: u8,
}

/// The lanes that five words from the receive queue stand for.
pub open spec fn lanes_of(words: Seq<u32>) -> Seq<u8>
    recommends
        words.len() == 5,
{
    Seq::new(5, |i: int| (words[i] % 256) as u8)
}

/// The verdict on one exchange: `None` stands for a sensor that did not
/// answer in time.
pub open spec fn verdict(acquired: Option<Seq<u32>>) -> Result<Reading, SampleError> {
    match acquired {
        None => Err(SampleError::NoResponse),
        Some(words) => checked(lanes_of(words)),
    }
}

/// What the front end remembers after an exchange with the given verdict.
/// A failed exchange leaves the last good reading in place.
pub open spec fn remembered(
    state: SensorState,
    verdict: Result<Reading, SampleError>,
) -> SensorState {
    let settling = if state.settling > 0 {
        (state.settling - 1) as u8
    } else {
        0u8
    };
    match verdict {
        Ok(reading) => SensorState {
            last_good: Some(reading),
            stale: false,
            checksum_errors: state.checksum_errors,
            settling,
        },
        Err(SampleError::ChecksumMismatch) => SensorState {
            last_good: state.last_good,
            stale: true,
            checksum_errors: if state.checksum_errors < u32::MAX {
                (state.checksum_errors + 1) as u32
            } else {
                state.checksum_errors
            },
            settling,
        },
        Err(SampleError::NoResponse) => SensorState {
            last_good: state.last_good,
            stale: true,
            checksum_errors: state.checksum_errors,
            settling,
        },
    }
}

/// The sensor front end: it judges what each exchange delivered and keeps
/// the last good reading.
pub struct DHT11 {
    state: SensorState,
}

impl View for DHT11 {
    type V = SensorState;

    closed spec fn view(&self) -> SensorState {
        self.state
    }
}

impl DHT11 {
    /// A front end that has seen nothing yet and has its settling time ahead.
    pub fn new() -> (sensor: DHT11)
        ensures
            sensor@ == (SensorState {
                last_good: None,
                stale: false,
                checksum_errors: 0,
                settling: WARMUP_SAMPLES,
            }),
    {
        DHT11 {
            state: SensorState {
                last_good: None,
                stale: false,
                checksum_errors: 0,
                settling: WARMUP_SAMPLES,
            },
        }
    }

    /// Takes in what one exchange delivered, the five words from the receive
    /// queue or `None` where the sensor did not answer, and returns the
    /// reading or the reason why there is none.
    pub fn get_temperature_humidity(&mut self, acquired: Option<[u32; 5]>) -> (result: Result<
        Reading,
        SampleError,
    >)
        ensures
            result == verdict(
                match acquired {
                    Some(words) => Some(words@),
                    None => None,
                },
            ),
            final(self)@ == remembered(old(self)@, result),
    {
        let result = match acquired {
            None => Err(SampleError::NoResponse),
            Some(words) => {
                let raw = RawSample::from_words(words);
                assert(raw@ =~= lanes_of(words@));
                decode_checked(&raw)
            },
        };
        let settling: u8 = if self.state.settling > 0 {
            self.state.settling - 1
        } else {
            0
        };
        self.state = match result {
            Ok(reading) => SensorState {
                last_good: Some(reading),
                stale: false,
                checksum_errors: self.state.checksum_errors,
                settling,
            },
            Err(SampleError::ChecksumMismatch) => SensorState {
                last_good: self.state.last_good,
                stale: true,
                checksum_errors: if self.state.checksum_errors < u32::MAX {
                    self.state.checksum_errors + 1
                } else {
                    self.state.checksum_errors
                },
                settling,
            },
            Err(SampleError::NoResponse) => SensorState {
                last_good: self.state.last_good,
                stale: true,
                checksum_errors: self.state.checksum_errors,
                settling,
            },
        };
        result
    }

    /// As `get_temperature_humidity`, but hands out the temperature only.
    pub fn get_temperature(&mut self, acquired: Option<[u32; 5]>) -> (result: Result<
        i8,
        SampleError,
    >)
        ensures
            final(self)@ == remembered(
                old(self)@,
                verdict(
                    match acquired {
                        Some(words) => Some(words@),
                        None => None,
                    },
                ),
            ),
            match verdict(
                match acquired {
                    Some(words) => Some(words@),
                    None => None,
                },
            ) {
                Ok(reading) => result == Ok::<i8, SampleError>(reading.temperature),
                Err(e) => result == Err::<i8, SampleError>(e),
            },
    {
        match self.get_temperature_humidity(acquired) {
            Ok(reading) => Ok(reading.temperature),
            Err(e) => Err(e),
        }
    }

    /// What the front end remembers.
    pub fn state(&self) -> (state: SensorState)
        ensures
            state == self@,
    {
        self.state
    }

    /// The last reading that passed the checks.
    pub fn last_reading(&self) -> (reading: Option<Reading>)
        ensures
            reading == self@.last_good,
    {
        self.state.last_good
    }

    /// Is the settling time over?
    pub fn settled(&self) -> (settled: bool)
        ensures
            settled == (self@.settling == 0),
    {
        self.state.settling == 0
    }
}

} // verus!

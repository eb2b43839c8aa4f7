//! Values and settings of GPIO lines.

use vstd::prelude::*;
use vstd::std_specs::convert::{FromSpec, FromSpecImpl};

verus! {

/// Line offset
pub type LineId = u32;

/// Bit offset
pub type BitId = u8;

/// Number of positions that a [`Values`] holds.
pub const VALUES_BITS: BitId = 64;

/// The word with only the bit at position `bit` set.
pub open spec fn bit_mask(bit: BitId) -> u64
    recommends
        bit < VALUES_BITS,
{
    1u64 << bit
}

/// Whether the bit at position `bit` of `word` is set.
pub open spec fn has_bit(word: u64, bit: BitId) -> bool
    recommends
        bit < VALUES_BITS,
{
    word & bit_mask(bit) != 0
}

/// `word` with the bit at position `bit` set to `val`.
pub open spec fn with_bit(word: u64, bit: BitId, val: bool) -> u64
    recommends
        bit < VALUES_BITS,
{
    if val {
        word | bit_mask(bit)
    } else {
        word & !bit_mask(bit)
    }
}

/// Line values
#[derive(Debug, Clone, Copy, PartialEq, Eq, Structural, Hash)]
pub struct Values {
    /// Logic values of lines
    pub bits: u64,
    /// Mask of lines to get or set
    pub mask: u64,
}

impl Default for Values {
    fn default() -> (res: Self)
        ensures
            res == (Values { bits: 0, mask: 0 }),
    {
        Values { bits: 0, mask: 0 }
    }
}

impl Values {
    /// The value at position `bit`: `None` where the position is out of range
    /// or not masked.
    pub open spec fn spec_get(self, bit: BitId) -> Option<bool> {
        if bit < VALUES_BITS && has_bit(self.mask, bit) {
            Some(has_bit(self.bits, bit))
        } else {
            None
        }
    }

    /// The values with position `bit` masked and set to `val`; unchanged where
    /// the position is out of range.
    pub open spec fn spec_set(self, bit: BitId, val: bool) -> Values {
        if bit < VALUES_BITS {
            Values { bits: with_bit(self.bits, bit, val), mask: with_bit(self.mask, bit, true) }
        } else {
            self
        }
    }

    /// Get the value of specific bit
    ///
    /// If bit is out of range (0..64) or not masked then None will be returned.
    pub fn get(&self, bit: BitId) -> (res: Option<bool>)
        ensures
            res == self.spec_get(bit),
    {
        if bit >= VALUES_BITS {
            return None;
        }
        let mask: u64 = 1u64 << bit;

        if (self.mask & mask) == 0 {
            return None;
        }
        Some(self.bits & mask != 0)
    }

    /// Set the value of specific bit and mask it
    ///
    /// If bit if out of range (0..64) then nothing will be set.
    pub fn set(&mut self, bit: BitId, val: bool)
        ensures
            *final(self) == old(self).spec_set(bit, val),
    {
        if bit >= VALUES_BITS {
            return ;
        }
        let mask: u64 = 1u64 << bit;

        self.mask |= mask;

        if val {
            self.bits |= mask;
        } else {
            self.bits &= !mask;
        }
    }
}

/// A position in range that was set reads back as the value it was set to.
pub proof fn lemma_set_then_get(values: Values, bit: BitId, val: bool)
    requires
        bit < VALUES_BITS,
    ensures
        values.spec_set(bit, val).spec_get(bit) == Some(val),
{
    let (bits, mask) = (values.bits, values.mask);
    assert((mask | (1u64 << bit)) & (1u64 << bit) != 0) by (bit_vector)
        requires
            bit < 64,
    ;
    assert((bits | (1u64 << bit)) & (1u64 << bit) != 0) by (bit_vector)
        requires
            bit < 64,
    ;
    assert((bits & !(1u64 << bit)) & (1u64 << bit) == 0) by (bit_vector)
        requires
            bit < 64,
    ;
}

/// Setting one position leaves what every other position reads as.
pub proof fn lemma_set_keeps_others(values: Values, bit: BitId, val: bool, other: BitId)
    requires
        other != bit,
    ensures
        values.spec_set(bit, val).spec_get(other) == values.spec_get(other),
{
    if bit < VALUES_BITS && other < VALUES_BITS {
        let (bits, mask) = (values.bits, values.mask);
        assert(((mask | (1u64 << bit)) & (1u64 << other) != 0) == (mask & (1u64 << other) != 0))
            by (bit_vector)
            requires
                bit < 64,
                other < 64,
                other != bit,
        ;
        assert(((bits | (1u64 << bit)) & (1u64 << other) != 0) == (bits & (1u64 << other) != 0))
            by (bit_vector)
            requires
                bit < 64,
                other < 64,
                other != bit,
        ;
        assert(((bits & !(1u64 << bit)) & (1u64 << other) != 0) == (bits & (1u64 << other)
            != 0)) by (bit_vector)
            requires
                bit < 64,
                other < 64,
                other != bit,
        ;
    }
}

/// A position out of range cannot be set and reads as nothing.
pub proof fn lemma_out_of_range(values: Values, bit: BitId, val: bool)
    requires
        bit >= VALUES_BITS,
    ensures
        values.spec_set(bit, val) == values,
        values.spec_get(bit) is None,
{
}

impl Values {
    /// The values that stand for the `u8` word `bits`: every position of the
    /// word is masked.
    pub open spec fn of_u8(bits: u8) -> Values {
        Values { bits: bits as u64, mask: 0xff }
    }

    /// The low positions of the values as a `u8` word, whatever is masked.
    pub open spec fn to_u8(self) -> u8 {
        (self.bits % 0x100) as u8
    }
}

impl From<u8> for Values {
    fn from(bits: u8) -> (res: Self) {
        Values { bits: bits as u64, mask: 0xff }
    }
}

impl FromSpecImpl<u8> for Values {
    open spec fn obeys_from_spec() -> bool {
        true
    }

    open spec fn from_spec(bits: u8) -> Values {
        Values::of_u8(bits)
    }
}

impl From<Values> for u8 {
    fn from(values: Values) -> (res: Self) {
        let bits = values.bits;
        assert(bits as u8 == bits % 0x100) by (bit_vector);
        #[verifier::truncate] (bits as u8)
    }
}

impl FromSpecImpl<Values> for u8 {
    open spec fn obeys_from_spec() -> bool {
        true
    }

    open spec fn from_spec(values: Values) -> u8 {
        values.to_u8()
    }
}

/// A `u8` word turned into values and back is the same word, and the values
/// mask exactly the positions of the word.
pub proof fn lemma_u8_round_trip(word: u8)
    ensures
        Values::of_u8(word).to_u8() == word,
        Values::of_u8(word).mask == u8::MAX,
        <u8 as FromSpec<Values>>::from_spec(<Values as FromSpec<u8>>::from_spec(word)) == word,
{
}

impl Values {
    /// The values that stand for the `u16` word `bits`: every position of the
    /// word is masked.
    pub open spec fn of_u16(bits: u16) -> Values {
        Values { bits: bits as u64, mask: 0xffff }
    }

    /// The low positions of the values as a `u16` word, whatever is masked.
    pub open spec fn to_u16(self) -> u16 {
        (self.bits % 0x1_0000) as u16
    }
}

impl From<u16> for Values {
    fn from(bits: u16) -> (res: Self) {
        Values { bits: bits as u64, mask: 0xffff }
    }
}

impl FromSpecImpl<u16> for Values {
    open spec fn obeys_from_spec() -> bool {
        true
    }

    open spec fn from_spec(bits: u16) -> Values {
        Values::of_u16(bits)
    }
}

impl From<Values> for u16 {
    fn from(values: Values) -> (res: Self) {
        let bits = values.bits;
        assert(bits as u16 == bits % 0x1_0000) by (bit_vector);
        #[verifier::truncate] (bits as u16)
    }
}

impl FromSpecImpl<Values> for u16 {
    open spec fn obeys_from_spec() -> bool {
        true
    }

    open spec fn from_spec(values: Values) -> u16 {
        values.to_u16()
    }
}

/// A `u16` word turned into values and back is the same word, and the values
/// mask exactly the positions of the word.
pub proof fn lemma_u16_round_trip(word: u16)
    ensures
        Values::of_u16(word).to_u16() == word,
        Values::of_u16(word).mask == u16::MAX,
        <u16 as FromSpec<Values>>::from_spec(<Values as FromSpec<u16>>::from_spec(word)) == word,
{
}

impl Values {
    /// The values that stand for the `u32` word `bits`: every position of the
    /// word is masked.
    pub open spec fn of_u32(bits: u32) -> Values {
        Values { bits: bits as u64, mask: 0xffff_ffff }
    }

    /// The low positions of the values as a `u32` word, whatever is masked.
    pub open spec fn to_u32(self) -> u32 {
        (self.bits % 0x1_0000_0000) as u32
    }
}

impl From<u32> for Values {
    fn from(bits: u32) -> (res: Self) {
        Values { bits: bits as u64, mask: 0xffff_ffff }
    }
}

impl FromSpecImpl<u32> for Values {
    open spec fn obeys_from_spec() -> bool {
        true
    }

    open spec fn from_spec(bits: u32) -> Values {
        Values::of_u32(bits)
    }
}

impl From<Values> for u32 {
    fn from(values: Values) -> (res: Self) {
        let bits = values.bits;
        assert(bits as u32 == bits % 0x1_0000_0000) by (bit_vector);
        #[verifier::truncate] (bits as u32)
    }
}

impl FromSpecImpl<Values> for u32 {
    open spec fn obeys_from_spec() -> bool {
        true
    }

    open spec fn from_spec(values: Values) -> u32 {
        values.to_u32()
    }
}

/// A `u32` word turned into values and back is the same word, and the values
/// mask exactly the positions of the word.
pub proof fn lemma_u32_round_trip(word: u32)
    ensures
        Values::of_u32(word).to_u32() == word,
        Values::of_u32(word).mask == u32::MAX,
        <u32 as FromSpec<Values>>::from_spec(<Values as FromSpec<u32>>::from_spec(word)) == word,
{
}

impl Values {
    /// The values that stand for the `u64` word `bits`: every position of the
    /// word is masked.
    pub open spec fn of_u64(bits: u64) -> Values {
        Values { bits: bits, mask: 0xffff_ffff_ffff_ffff }
    }

    /// The positions of the values as a `u64` word, whatever is masked.
    pub open spec fn to_u64(self) -> u64 {
        self.bits
    }
}

impl From<u64> for Values {
    fn from(bits: u64) -> (res: Self) {
        Values { bits: bits, mask: 0xffff_ffff_ffff_ffff }
    }
}

impl FromSpecImpl<u64> for Values {
    open spec fn obeys_from_spec() -> bool {
        true
    }

    open spec fn from_spec(bits: u64) -> Values {
        Values::of_u64(bits)
    }
}

impl From<Values> for u64 {
    fn from(values: Values) -> (res: Self) {
        values.bits
    }
}

impl FromSpecImpl<Values> for u64 {
    open spec fn obeys_from_spec() -> bool {
        true
    }

    open spec fn from_spec(values: Values) -> u64 {
        values.to_u64()
    }
}

/// A `u64` word turned into values and back is the same word, and the values
/// mask exactly the positions of the word.
pub proof fn lemma_u64_round_trip(word: u64)
    ensures
        Values::of_u64(word).to_u64() == word,
        Values::of_u64(word).mask == u64::MAX,
        <u64 as FromSpec<Values>>::from_spec(<Values as FromSpec<u64>>::from_spec(word)) == word,
{
}

/// Direction of a GPIO line
#[derive(Debug, Clone, Copy, PartialEq, Eq, Structural, Hash)]
pub enum Direction {
    /// Line acts as input (default)
    Input,
    /// Line acts as output
    Output,
}

impl Direction {
    /// The name of the setting, as it is shown to a user.
    pub open spec fn text(self) -> Seq<char> {
        match self {
            Self::Input => "Input"@,
            Self::Output => "Output"@,
        }
    }
}

impl AsRef<str> for Direction {
    fn as_ref(&self) -> (res: &str)
        ensures
            res@ == self.text(),
    {
        match self {
            Self::Input => "Input",
            Self::Output => "Output",
        }
    }
}

impl Default for Direction {
    fn default() -> (res: Self)
        ensures
            res == Direction::Input,
    {
        Self::Input
    }
}

/// Active state condition of a line
///
/// If active state of line is **high** then physical and logical levels is same.
/// Otherwise if it is **low** then physical level will be inverted from logical.
///
/// Also this may be treated as polarity.
#[derive(Debug, Clone, Copy, PartialEq, Eq, Structural, Hash)]
pub enum Active {
    /// Active level is low
    Low,
    /// Active level is high (default)
    High,
}

impl Active {
    /// The name of the setting, as it is shown to a user.
    pub open spec fn text(self) -> Seq<char> {
        match self {
            Self::Low => "low"@,
            Self::High => "high"@,
        }
    }
}

impl AsRef<str> for Active {
    fn as_ref(&self) -> (res: &str)
        ensures
            res@ == self.text(),
    {
        match self {
            Self::Low => "low",
            Self::High => "high",
        }
    }
}

impl Default for Active {
    fn default() -> (res: Self)
        ensures
            res == Active::High,
    {
        Self::High
    }
}

/// Signal edge or level transition of a GPIO line
#[derive(Debug, Clone, Copy, PartialEq, Eq, Structural, Hash)]
pub enum Edge {
    /// Rising edge detected
    Rising,
    /// Falling edge detected
    Falling,
}

impl Edge {
    /// The name of the setting, as it is shown to a user.
    pub open spec fn text(self) -> Seq<char> {
        match self {
            Self::Rising => "rising"@,
            Self::Falling => "falling"@,
        }
    }
}

impl AsRef<str> for Edge {
    fn as_ref(&self) -> (res: &str)
        ensures
            res@ == self.text(),
    {
        match self {
            Self::Rising => "rising",
            Self::Falling => "falling",
        }
    }
}

/// Edge detection setting for GPIO line
#[derive(Debug, Clone, Copy, PartialEq, Eq, Structural, Hash)]
pub enum EdgeDetect {
    /// Detection disabled (default)
    Disable,
    /// Detect rising edge only
    Rising,
    /// Detect falling edge only
    Falling,
    /// Detect both rising and falling edges
    Both,
}

impl EdgeDetect {
    /// The name of the setting, as it is shown to a user.
    pub open spec fn text(self) -> Seq<char> {
        match self {
            Self::Disable => "disable"@,
            Self::Rising => "rising"@,
            Self::Falling => "falling"@,
            Self::Both => "both"@,
        }
    }
}

impl AsRef<str> for EdgeDetect {
    fn as_ref(&self) -> (res: &str)
        ensures
            res@ == self.text(),
    {
        match self {
            Self::Disable => "disable",
            Self::Rising => "rising",
            Self::Falling => "falling",
            Self::Both => "both",
        }
    }
}

impl Default for EdgeDetect {
    fn default() -> (res: Self)
        ensures
            res == EdgeDetect::Disable,
    {
        Self::Disable
    }
}

/// Input bias of a GPIO line
///
/// Sometimes GPIO lines shall be pulled to up (power rail) or down (ground)
/// through resistor to avoid floating level on it.
#[derive(Debug, Clone, Copy, PartialEq, Eq, Structural, Hash)]
pub enum Bias {
    /// Disabled bias (default)
    Disable,
    /// Pull line up
    PullUp,
    /// Pull line down
    PullDown,
}

impl Bias {
    /// The name of the setting, as it is shown to a user.
    pub open spec fn text(self) -> Seq<char> {
        match self {
            Self::Disable => "Disable"@,
            Self::PullUp => "Pull up"@,
            Self::PullDown => "Pull down"@,
        }
    }
}

impl AsRef<str> for Bias {
    fn as_ref(&self) -> (res: &str)
        ensures
            res@ == self.text(),
    {
        match self {
            Self::Disable => "Disable",
            Self::PullUp => "Pull up",
            Self::PullDown => "Pull down",
        }
    }
}

impl Default for Bias {
    fn default() -> (res: Self)
        ensures
            res == Bias::Disable,
    {
        Self::Disable
    }
}

/// Output drive mode of a GPIO line
///
/// Usually GPIO lines configured as push-pull but sometimes it required to drive via open drain or source.
#[derive(Debug, Clone, Copy, PartialEq, Eq, Structural, Hash)]
pub enum Drive {
    /// Drive push-pull (default)
    PushPull,
    /// Drive with open-drain
    OpenDrain,
    /// Drive with open-source
    OpenSource,
}

impl Drive {
    /// The name of the setting, as it is shown to a user.
    pub open spec fn text(self) -> Seq<char> {
        match self {
            Self::PushPull => "Push pull"@,
            Self::OpenDrain => "Open drain"@,
            Self::OpenSource => "Open source"@,
        }
    }
}

impl AsRef<str> for Drive {
    fn as_ref(&self) -> (res: &str)
        ensures
            res@ == self.text(),
    {
        match self {
            Self::PushPull => "Push pull",
            Self::OpenDrain => "Open drain",
            Self::OpenSource => "Open source",
        }
    }
}

impl Default for Drive {
    fn default() -> (res: Self)
        ensures
            res == Drive::PushPull,
    {
        Self::PushPull
    }
}

/// Signal edge detection event
#[derive(Debug, Clone, Copy, PartialEq, Eq, Structural, Hash)]
pub struct Event {
    /// GPIO line where edge detected, by its position among the requested lines
    pub line: BitId,
    /// Detected edge or level transition
    pub edge: Edge,
    /// Time when edge actually detected, in nanoseconds as the kernel reports it
    pub time: u64,
}

/// Generation of the kernel protocol
#[derive(Debug, Clone, Copy, PartialEq, Eq, Structural, Hash)]
pub enum Abi {
    /// The first generation, built around line handles
    V1,
    /// The second generation, built around line requests
    V2,
}

} // verus!

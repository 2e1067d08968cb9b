//! Enumerated coefficients of the command protocol.
//!
//! Each enumeration travels as one byte, the ordinal of its variant. A byte
//! beyond the documented variants is kept in `Reserved`, so that no value
//! the hardware reports is lost.

use vstd::prelude::*;
use vstd::std_specs::convert::FromSpecImpl;

verus! {

/// The mode of stereo-paired channels.
#[derive(Debug, Copy, Clone, Eq, PartialEq, Structural)]
pub enum InputStereoPairMode {
    /// Adjustable left/right balance.
    LeftRight,
    /// Adjustable monaural/stereo balance.
    MonauralStereo,
    Reserved(u8),
}

impl InputStereoPairMode {
    /// The variant that the byte `val` stands for.
    pub open spec fn of_byte(val: u8) -> Self {
        if val == 0 {
            Self::LeftRight
        } else if val == 1 {
            Self::MonauralStereo
        } else {
            Self::Reserved(val)
        }
    }

    /// The byte that stands for the variant.
    pub open spec fn byte(self) -> u8 {
        match self {
            Self::LeftRight => 0,
            Self::MonauralStereo => 1,
            Self::Reserved(val) => val,
        }
    }

    /// Holds of every value but a `Reserved` that hides a documented ordinal.
    pub open spec fn is_canonical(self) -> bool {
        match self {
            Self::Reserved(val) => val >= 2,
            _ => true,
        }
    }

    /// Decoding a byte and encoding the result gives the byte back; the
    /// other way round holds of canonical values.
    pub proof fn lemma_byte_round_trip(self, val: u8)
        ensures
            Self::of_byte(val).byte() == val,
            Self::of_byte(val).is_canonical(),
            self.is_canonical() ==> Self::of_byte(self.byte()) == self,
    {
    }
}

impl Default for InputStereoPairMode {
    fn default() -> (r: Self)
        ensures
            r == Self::LeftRight,
    {
        Self::LeftRight
    }
}

impl From<u8> for InputStereoPairMode {
    fn from(val: u8) -> (r: Self) {
        match val {
            0 => Self::LeftRight,
            1 => Self::MonauralStereo,
            _ => Self::Reserved(val),
        }
    }
}

impl FromSpecImpl<u8> for InputStereoPairMode {
    open spec fn obeys_from_spec() -> bool {
        true
    }

    open spec fn from_spec(val: u8) -> Self {
        Self::of_byte(val)
    }
}

impl From<InputStereoPairMode> for u8 {
    fn from(value: InputStereoPairMode) -> (r: u8) {
        match value {
            InputStereoPairMode::LeftRight => 0,
            InputStereoPairMode::MonauralStereo => 1,
            InputStereoPairMode::Reserved(val) => val,
        }
    }
}

impl FromSpecImpl<InputStereoPairMode> for u8 {
    open spec fn obeys_from_spec() -> bool {
        true
    }

    open spec fn from_spec(value: InputStereoPairMode) -> u8 {
        value.byte()
    }
}

/// The level to decline audio signal.
#[derive(Debug, Copy, Clone, Eq, PartialEq, Structural)]
pub enum RollOffLevel {
    /// 6 dB per octave.
    L6,
    /// 12 dB per octave.
    L12,
    /// 18 dB per octave.
    L18,
    /// 24 dB per octave.
    L24,
    /// 30 dB per octave.
    L30,
    /// 36 dB per octave.
    L36,
    Reserved(u8),
}

impl RollOffLevel {
    /// The variant that the byte `val` stands for.
    pub open spec fn of_byte(val: u8) -> Self {
        if val == 0 {
            Self::L6
        } else if val == 1 {
            Self::L12
        } else if val == 2 {
            Self::L18
        } else if val == 3 {
            Self::L24
        } else if val == 4 {
            Self::L30
        } else if val == 5 {
            Self::L36
        } else {
            Self::Reserved(val)
        }
    }

    /// The byte that stands for the variant.
    pub open spec fn byte(self) -> u8 {
        match self {
            Self::L6 => 0,
            Self::L12 => 1,
            Self::L18 => 2,
            Self::L24 => 3,
            Self::L30 => 4,
            Self::L36 => 5,
            Self::Reserved(val) => val,
        }
    }

    /// Holds of every value but a `Reserved` that hides a documented ordinal.
    pub open spec fn is_canonical(self) -> bool {
        match self {
            Self::Reserved(val) => val >= 6,
            _ => true,
        }
    }

    /// Decoding a byte and encoding the result gives the byte back; the
    /// other way round holds of canonical values.
    pub proof fn lemma_byte_round_trip(self, val: u8)
        ensures
            Self::of_byte(val).byte() == val,
            Self::of_byte(val).is_canonical(),
            self.is_canonical() ==> Self::of_byte(self.byte()) == self,
    {
    }
}

impl Default for RollOffLevel {
    fn default() -> (r: Self)
        ensures
            r == Self::L6,
    {
        Self::L6
    }
}

impl From<u8> for RollOffLevel {
    fn from(val: u8) -> (r: Self) {
        match val {
            0 => Self::L6,
            1 => Self::L12,
            2 => Self::L18,
            3 => Self::L24,
            4 => Self::L30,
            5 => Self::L36,
            _ => Self::Reserved(val),
        }
    }
}

impl FromSpecImpl<u8> for RollOffLevel {
    open spec fn obeys_from_spec() -> bool {
        true
    }

    open spec fn from_spec(val: u8) -> Self {
        Self::of_byte(val)
    }
}

impl From<RollOffLevel> for u8 {
    fn from(value: RollOffLevel) -> (r: u8) {
        match value {
            RollOffLevel::L6 => 0,
            RollOffLevel::L12 => 1,
            RollOffLevel::L18 => 2,
            RollOffLevel::L24 => 3,
            RollOffLevel::L30 => 4,
            RollOffLevel::L36 => 5,
            RollOffLevel::Reserved(val) => val,
        }
    }
}

impl FromSpecImpl<RollOffLevel> for u8 {
    open spec fn obeys_from_spec() -> bool {
        true
    }

    open spec fn from_spec(value: RollOffLevel) -> u8 {
        value.byte()
    }
}

/// The type of filter for equalizer (5 options).
#[derive(Debug, Copy, Clone, Eq, PartialEq, Structural)]
pub enum FilterType5 {
    T1,
    T2,
    T3,
    T4,
    Shelf,
    Reserved(u8),
}

impl FilterType5 {
    /// The variant that the byte `val` stands for.
    pub open spec fn of_byte(val: u8) -> Self {
        if val == 0 {
            Self::T1
        } else if val == 1 {
            Self::T2
        } else if val == 2 {
            Self::T3
        } else if val == 3 {
            Self::T4
        } else if val == 4 {
            Self::Shelf
        } else {
            Self::Reserved(val)
        }
    }

    /// The byte that stands for the variant.
    pub open spec fn byte(self) -> u8 {
        match self {
            Self::T1 => 0,
            Self::T2 => 1,
            Self::T3 => 2,
            Self::T4 => 3,
            Self::Shelf => 4,
            Self::Reserved(val) => val,
        }
    }

    /// Holds of every value but a `Reserved` that hides a documented ordinal.
    pub open spec fn is_canonical(self) -> bool {
        match self {
            Self::Reserved(val) => val >= 5,
            _ => true,
        }
    }

    /// Decoding a byte and encoding the result gives the byte back; the
    /// other way round holds of canonical values.
    pub proof fn lemma_byte_round_trip(self, val: u8)
        ensures
            Self::of_byte(val).byte() == val,
            Self::of_byte(val).is_canonical(),
            self.is_canonical() ==> Self::of_byte(self.byte()) == self,
    {
    }
}

impl Default for FilterType5 {
    fn default() -> (r: Self)
        ensures
            r == Self::T1,
    {
        Self::T1
    }
}

impl From<u8> for FilterType5 {
    fn from(val: u8) -> (r: Self) {
        match val {
            0 => Self::T1,
            1 => Self::T2,
            2 => Self::T3,
            3 => Self::T4,
            4 => Self::Shelf,
            _ => Self::Reserved(val),
        }
    }
}

impl FromSpecImpl<u8> for FilterType5 {
    open spec fn obeys_from_spec() -> bool {
        true
    }

    open spec fn from_spec(val: u8) -> Self {
        Self::of_byte(val)
    }
}

impl From<FilterType5> for u8 {
    fn from(value: FilterType5) -> (r: u8) {
        match value {
            FilterType5::T1 => 0,
            FilterType5::T2 => 1,
            FilterType5::T3 => 2,
            FilterType5::T4 => 3,
            FilterType5::Shelf => 4,
            FilterType5::Reserved(val) => val,
        }
    }
}

impl FromSpecImpl<FilterType5> for u8 {
    open spec fn obeys_from_spec() -> bool {
        true
    }

    open spec fn from_spec(value: FilterType5) -> u8 {
        value.byte()
    }
}

/// The type of filter for equalizer (4 options).
#[derive(Debug, Copy, Clone, Eq, PartialEq, Structural)]
pub enum FilterType4 {
    T1,
    T2,
    T3,
    T4,
    Reserved(u8),
}

impl FilterType4 {
    /// The variant that the byte `val` stands for.
    pub open spec fn of_byte(val: u8) -> Self {
        if val == 0 {
            Self::T1
        } else if val == 1 {
            Self::T2
        } else if val == 2 {
            Self::T3
        } else if val == 3 {
            Self::T4
        } else {
            Self::Reserved(val)
        }
    }

    /// The byte that stands for the variant.
    pub open spec fn byte(self) -> u8 {
        match self {
            Self::T1 => 0,
            Self::T2 => 1,
            Self::T3 => 2,
            Self::T4 => 3,
            Self::Reserved(val) => val,
        }
    }

    /// Holds of every value but a `Reserved` that hides a documented ordinal.
    pub open spec fn is_canonical(self) -> bool {
        match self {
            Self::Reserved(val) => val >= 4,
            _ => true,
        }
    }

    /// Decoding a byte and encoding the result gives the byte back; the
    /// other way round holds of canonical values.
    pub proof fn lemma_byte_round_trip(self, val: u8)
        ensures
            Self::of_byte(val).byte() == val,
            Self::of_byte(val).is_canonical(),
            self.is_canonical() ==> Self::of_byte(self.byte()) == self,
    {
    }
}

impl Default for FilterType4 {
    fn default() -> (r: Self)
        ensures
            r == Self::T1,
    {
        Self::T1
    }
}

impl From<u8> for FilterType4 {
    fn from(val: u8) -> (r: Self) {
        match val {
            0 => Self::T1,
            1 => Self::T2,
            2 => Self::T3,
            3 => Self::T4,
            _ => Self::Reserved(val),
        }
    }
}

impl FromSpecImpl<u8> for FilterType4 {
    open spec fn obeys_from_spec() -> bool {
        true
    }

    open spec fn from_spec(val: u8) -> Self {
        Self::of_byte(val)
    }
}

impl From<FilterType4> for u8 {
    fn from(value: FilterType4) -> (r: u8) {
        match value {
            FilterType4::T1 => 0,
            FilterType4::T2 => 1,
            FilterType4::T3 => 2,
            FilterType4::T4 => 3,
            FilterType4::Reserved(val) => val,
        }
    }
}

impl FromSpecImpl<FilterType4> for u8 {
    open spec fn obeys_from_spec() -> bool {
        true
    }

    open spec fn from_spec(value: FilterType4) -> u8 {
        value.byte()
    }
}

/// The way to decide loudness level of input signal.
#[derive(Debug, Copy, Clone, Eq, PartialEq, Structural)]
pub enum LevelDetectMode {
    /// According to the peak of signal.
    Peak,
    /// According to the Root Mean Square of signal.
    Rms,
    Reserved(u8),
}

impl LevelDetectMode {
    /// The variant that the byte `val` stands for.
    pub open spec fn of_byte(val: u8) -> Self {
        if val == 0 {
            Self::Peak
        } else if val == 1 {
            Self::Rms
        } else {
            Self::Reserved(val)
        }
    }

    /// The byte that stands for the variant.
    pub open spec fn byte(self) -> u8 {
        match self {
            Self::Peak => 0,
            Self::Rms => 1,
            Self::Reserved(val) => val,
        }
    }

    /// Holds of every value but a `Reserved` that hides a documented ordinal.
    pub open spec fn is_canonical(self) -> bool {
        match self {
            Self::Reserved(val) => val >= 2,
            _ => true,
        }
    }

    /// Decoding a byte and encoding the result gives the byte back; the
    /// other way round holds of canonical values.
    pub proof fn lemma_byte_round_trip(self, val: u8)
        ensures
            Self::of_byte(val).byte() == val,
            Self::of_byte(val).is_canonical(),
            self.is_canonical() ==> Self::of_byte(self.byte()) == self,
    {
    }
}

impl Default for LevelDetectMode {
    fn default() -> (r: Self)
        ensures
            r == Self::Peak,
    {
        Self::Peak
    }
}

impl From<u8> for LevelDetectMode {
    fn from(val: u8) -> (r: Self) {
        match val {
            0 => Self::Peak,
            1 => Self::Rms,
            _ => Self::Reserved(val),
        }
    }
}

impl FromSpecImpl<u8> for LevelDetectMode {
    open spec fn obeys_from_spec() -> bool {
        true
    }

    open spec fn from_spec(val: u8) -> Self {
        Self::of_byte(val)
    }
}

impl From<LevelDetectMode> for u8 {
    fn from(value: LevelDetectMode) -> (r: u8) {
        match value {
            LevelDetectMode::Peak => 0,
            LevelDetectMode::Rms => 1,
            LevelDetectMode::Reserved(val) => val,
        }
    }
}

impl FromSpecImpl<LevelDetectMode> for u8 {
    open spec fn obeys_from_spec() -> bool {
        true
    }

    open spec fn from_spec(value: LevelDetectMode) -> u8 {
        value.byte()
    }
}

/// The mode of leveler.
#[derive(Debug, Copy, Clone, Eq, PartialEq, Structural)]
pub enum LevelerMode {
    Compress,
    Limit,
    Reserved(u8),
}

impl LevelerMode {
    /// The variant that the byte `val` stands for.
    pub open spec fn of_byte(val: u8) -> Self {
        if val == 0 {
            Self::Compress
        } else if val == 1 {
            Self::Limit
        } else {
            Self::Reserved(val)
        }
    }

    /// The byte that stands for the variant.
    pub open spec fn byte(self) -> u8 {
        match self {
            Self::Compress => 0,
            Self::Limit => 1,
            Self::Reserved(val) => val,
        }
    }

    /// Holds of every value but a `Reserved` that hides a documented ordinal.
    pub open spec fn is_canonical(self) -> bool {
        match self {
            Self::Reserved(val) => val >= 2,
            _ => true,
        }
    }

    /// Decoding a byte and encoding the result gives the byte back; the
    /// other way round holds of canonical values.
    pub proof fn lemma_byte_round_trip(self, val: u8)
        ensures
            Self::of_byte(val).byte() == val,
            Self::of_byte(val).is_canonical(),
            self.is_canonical() ==> Self::of_byte(self.byte()) == self,
    {
    }
}

impl Default for LevelerMode {
    fn default() -> (r: Self)
        ensures
            r == Self::Compress,
    {
        Self::Compress
    }
}

impl From<u8> for LevelerMode {
    fn from(val: u8) -> (r: Self) {
        match val {
            0 => Self::Compress,
            1 => Self::Limit,
            _ => Self::Reserved(val),
        }
    }
}

impl FromSpecImpl<u8> for LevelerMode {
    open spec fn obeys_from_spec() -> bool {
        true
    }

    open spec fn from_spec(val: u8) -> Self {
        Self::of_byte(val)
    }
}

impl From<LevelerMode> for u8 {
    fn from(value: LevelerMode) -> (r: u8) {
        match value {
            LevelerMode::Compress => 0,
            LevelerMode::Limit => 1,
            LevelerMode::Reserved(val) => val,
        }
    }
}

impl FromSpecImpl<LevelerMode> for u8 {
    open spec fn obeys_from_spec() -> bool {
        true
    }

    open spec fn from_spec(value: LevelerMode) -> u8 {
        value.byte()
    }
}

/// The mode of stereo pair for source of mixer.
#[derive(Debug, Copy, Clone, Eq, PartialEq, Structural)]
pub enum SourceStereoPairMode {
    Width,
    LrBalance,
    Reserved(u8),
}

impl SourceStereoPairMode {
    /// The variant that the byte `val` stands for.
    pub open spec fn of_byte(val: u8) -> Self {
        if val == 0 {
            Self::Width
        } else if val == 1 {
            Self::LrBalance
        } else {
            Self::Reserved(val)
        }
    }

    /// The byte that stands for the variant.
    pub open spec fn byte(self) -> u8 {
        match self {
            Self::Width => 0,
            Self::LrBalance => 1,
            Self::Reserved(val) => val,
        }
    }

    /// Holds of every value but a `Reserved` that hides a documented ordinal.
    pub open spec fn is_canonical(self) -> bool {
        match self {
            Self::Reserved(val) => val >= 2,
            _ => true,
        }
    }

    /// Decoding a byte and encoding the result gives the byte back; the
    /// other way round holds of canonical values.
    pub proof fn lemma_byte_round_trip(self, val: u8)
        ensures
            Self::of_byte(val).byte() == val,
            Self::of_byte(val).is_canonical(),
            self.is_canonical() ==> Self::of_byte(self.byte()) == self,
    {
    }
}

impl Default for SourceStereoPairMode {
    fn default() -> (r: Self)
        ensures
            r == Self::Width,
    {
        Self::Width
    }
}

impl From<u8> for SourceStereoPairMode {
    fn from(val: u8) -> (r: Self) {
        match val {
            0 => Self::Width,
            1 => Self::LrBalance,
            _ => Self::Reserved(val),
        }
    }
}

impl FromSpecImpl<u8> for SourceStereoPairMode {
    open spec fn obeys_from_spec() -> bool {
        true
    }

    open spec fn from_spec(val: u8) -> Self {
        Self::of_byte(val)
    }
}

impl From<SourceStereoPairMode> for u8 {
    fn from(value: SourceStereoPairMode) -> (r: u8) {
        match value {
            SourceStereoPairMode::Width => 0,
            SourceStereoPairMode::LrBalance => 1,
            SourceStereoPairMode::Reserved(val) => val,
        }
    }
}

impl FromSpecImpl<SourceStereoPairMode> for u8 {
    open spec fn obeys_from_spec() -> bool {
        true
    }

    open spec fn from_spec(value: SourceStereoPairMode) -> u8 {
        value.byte()
    }
}

/// The mode of early reflection.
#[derive(Debug, Copy, Clone, Eq, PartialEq, Structural)]
pub enum RoomShape {
    A,
    B,
    C,
    D,
    E,
    Reserved(u8),
}

impl RoomShape {
    /// The variant that the byte `val` stands for.
    pub open spec fn of_byte(val: u8) -> Self {
        if val == 0 {
            Self::A
        } else if val == 1 {
            Self::B
        } else if val == 2 {
            Self::C
        } else if val == 3 {
            Self::D
        } else if val == 4 {
            Self::E
        } else {
            Self::Reserved(val)
        }
    }

    /// The byte that stands for the variant.
    pub open spec fn byte(self) -> u8 {
        match self {
            Self::A => 0,
            Self::B => 1,
            Self::C => 2,
            Self::D => 3,
            Self::E => 4,
            Self::Reserved(val) => val,
        }
    }

    /// Holds of every value but a `Reserved` that hides a documented ordinal.
    pub open spec fn is_canonical(self) -> bool {
        match self {
            Self::Reserved(val) => val >= 5,
            _ => true,
        }
    }

    /// Decoding a byte and encoding the result gives the byte back; the
    /// other way round holds of canonical values.
    pub proof fn lemma_byte_round_trip(self, val: u8)
        ensures
            Self::of_byte(val).byte() == val,
            Self::of_byte(val).is_canonical(),
            self.is_canonical() ==> Self::of_byte(self.byte()) == self,
    {
    }
}

impl Default for RoomShape {
    fn default() -> (r: Self)
        ensures
            r == Self::A,
    {
        Self::A
    }
}

impl From<u8> for RoomShape {
    fn from(val: u8) -> (r: Self) {
        match val {
            0 => Self::A,
            1 => Self::B,
            2 => Self::C,
            3 => Self::D,
            4 => Self::E,
            _ => Self::Reserved(val),
        }
    }
}

impl FromSpecImpl<u8> for RoomShape {
    open spec fn obeys_from_spec() -> bool {
        true
    }

    open spec fn from_spec(val: u8) -> Self {
        Self::of_byte(val)
    }
}

impl From<RoomShape> for u8 {
    fn from(value: RoomShape) -> (r: u8) {
        match value {
            RoomShape::A => 0,
            RoomShape::B => 1,
            RoomShape::C => 2,
            RoomShape::D => 3,
            RoomShape::E => 4,
            RoomShape::Reserved(val) => val,
        }
    }
}

impl FromSpecImpl<RoomShape> for u8 {
    open spec fn obeys_from_spec() -> bool {
        true
    }

    open spec fn from_spec(value: RoomShape) -> u8 {
        value.byte()
    }
}

/// The point of split.
#[derive(Debug, Copy, Clone, Eq, PartialEq, Structural)]
pub enum SplitPoint {
    Output,
    Mixer,
    Reserved(u8),
}

impl SplitPoint {
    /// The variant that the byte `val` stands for.
    pub open spec fn of_byte(val: u8) -> Self {
        if val == 0 {
            Self::Output
        } else if val == 1 {
            Self::Mixer
        } else {
            Self::Reserved(val)
        }
    }

    /// The byte that stands for the variant.
    pub open spec fn byte(self) -> u8 {
        match self {
            Self::Output => 0,
            Self::Mixer => 1,
            Self::Reserved(val) => val,
        }
    }

    /// Holds of every value but a `Reserved` that hides a documented ordinal.
    pub open spec fn is_canonical(self) -> bool {
        match self {
            Self::Reserved(val) => val >= 2,
            _ => true,
        }
    }

    /// Decoding a byte and encoding the result gives the byte back; the
    /// other way round holds of canonical values.
    pub proof fn lemma_byte_round_trip(self, val: u8)
        ensures
            Self::of_byte(val).byte() == val,
            Self::of_byte(val).is_canonical(),
            self.is_canonical() ==> Self::of_byte(self.byte()) == self,
    {
    }
}

impl Default for SplitPoint {
    fn default() -> (r: Self)
        ensures
            r == Self::Output,
    {
        Self::Output
    }
}

impl From<u8> for SplitPoint {
    fn from(val: u8) -> (r: Self) {
        match val {
            0 => Self::Output,
            1 => Self::Mixer,
            _ => Self::Reserved(val),
        }
    }
}

impl FromSpecImpl<u8> for SplitPoint {
    open spec fn obeys_from_spec() -> bool {
        true
    }

    open spec fn from_spec(val: u8) -> Self {
        Self::of_byte(val)
    }
}

impl From<SplitPoint> for u8 {
    fn from(value: SplitPoint) -> (r: u8) {
        match value {
            SplitPoint::Output => 0,
            SplitPoint::Mixer => 1,
            SplitPoint::Reserved(val) => val,
        }
    }
}

impl FromSpecImpl<SplitPoint> for u8 {
    open spec fn obeys_from_spec() -> bool {
        true
    }

    open spec fn from_spec(value: SplitPoint) -> u8 {
        value.byte()
    }
}

} // verus!

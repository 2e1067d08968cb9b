//! Protocol defined by Tascam for its FireWire series.
//!
//! The control surface of the units reports what the user does as an image
//! of quadlets. An item of the surface has a place in the image: the
//! quadlet and the bits in it.

use vstd::prelude::*;

verus! {

/// The structure of hardware information.
#[derive(Debug, Copy, Clone, Eq, PartialEq, Structural)]
pub struct HardwareInformation {
    pub register: u32,
    pub fpga: u32,
    pub arm: u32,
    pub hardware: u32,
}

impl Default for HardwareInformation {
    fn default() -> (info: Self)
        ensures
            info == (HardwareInformation { register: 0, fpga: 0, arm: 0, hardware: 0 }),
    {
        HardwareInformation { register: 0, fpga: 0, arm: 0, hardware: 0 }
    }
}

/// The structure for protocol implementaion commonly available to Tascam FireWire models.
#[derive(Debug)]
pub struct HardwareInformationProtocol;

impl Default for HardwareInformationProtocol {
    fn default() -> Self {
        HardwareInformationProtocol
    }
}

/// The value of the quadlet that four bytes hold, most significant first.
pub open spec fn spec_be_quadlet(data: Seq<u8>) -> u32 {
    (data[0] * 0x100_0000 + data[1] * 0x1_0000 + data[2] * 0x100 + data[3]) as u32
}

fn be_quadlet(data: &[u8]) -> (val: u32)
    requires
        data@.len() == 4,
    ensures
        val == spec_be_quadlet(data@),
{
    (data[0] as u32) * 0x100_0000 + (data[1] as u32) * 0x1_0000 + (data[2] as u32) * 0x100
        + (data[3] as u32)
}

impl HardwareInformationProtocol {
    /// Takes over the hardware information from the sixteen bytes read at
    /// the start of the registers: four quadlets, each most significant byte
    /// first.
    pub fn parse_hardware_information(info: &mut HardwareInformation, frames: &[u8])
        requires
            frames@.len() == 16,
        ensures
            *final(info) == (HardwareInformation {
                register: spec_be_quadlet(frames@.subrange(0, 4)),
                fpga: spec_be_quadlet(frames@.subrange(4, 8)),
                arm: spec_be_quadlet(frames@.subrange(8, 12)),
                hardware: spec_be_quadlet(frames@.subrange(12, 16)),
            }),
    {
        info.register = be_quadlet(&frames[0..4]);
        info.fpga = be_quadlet(&frames[4..8]);
        info.arm = be_quadlet(&frames[8..12]);
        info.hardware = be_quadlet(&frames[12..16]);
    }
}

/// The event of state machine.
#[derive(Debug, Copy, Clone, Eq, PartialEq, Structural)]
pub enum ItemValue {
    Bool(bool),
    U16(u16),
}

/// The place of a boolean value in the surface image: the quadlet and the
/// mask of its bits.
#[derive(Debug, Copy, Clone, Eq, PartialEq, Structural)]
pub struct SurfaceBoolValue(pub usize, pub u32);

/// The place of a u16 value in the surface image: the quadlet, the mask of
/// its bits and the count of bits below them.
#[derive(Debug, Copy, Clone, Eq, PartialEq, Structural)]
pub struct SurfaceU16Value(pub usize, pub u32, pub usize);

/// Whether the quadlet `index` of the image, which changes from `before` to
/// `after`, changes the bits of the item, which were set.
pub fn detect_stateful_bool_action(
    bool_val: &SurfaceBoolValue,
    index: u32,
    before: u32,
    after: u32,
) -> (detected: bool)
    ensures
        detected == spec_stateful_bool_action(*bool_val, index, before, after),
{
    bool_val.0 == index as usize && (before ^ after) & bool_val.1 > 0 && before & bool_val.1 > 0
}

/// Whether the quadlet `index` of the image, which changes from `before` to
/// `after`, changes the bits of the item.
pub fn detect_bool_action(bool_val: &SurfaceBoolValue, index: u32, before: u32, after: u32) -> (detected:
    bool)
    ensures
        detected == spec_bool_action(*bool_val, index, before, after),
{
    bool_val.0 == index as usize && (before ^ after) & bool_val.1 > 0
}

/// Whether a bit of the item is set in its quadlet.
pub fn detect_bool_value(bool_val: &SurfaceBoolValue, before: u32) -> (value: bool)
    ensures
        value == (before & bool_val.1 > 0),
{
    before & bool_val.1 > 0
}

/// Whether the quadlet `index` of the image, which changes from `before` to
/// `after`, changes the bits of the item.
pub fn detect_u16_action(u16_val: &SurfaceU16Value, index: u32, before: u32, after: u32) -> (detected:
    bool)
    ensures
        detected == spec_u16_action(*u16_val, index, before, after),
{
    u16_val.0 == index as usize && (before ^ after) & u16_val.1 > 0
}

/// The value that the bits of the item hold in its quadlet: the bits, moved
/// down to the lowest place, and of them the lowest sixteen.
pub open spec fn spec_u16_value(u16_val: SurfaceU16Value, quadlet: u32) -> u16 {
    (((quadlet & u16_val.1) >> (u16_val.2 as u32)) & 0xffff) as u16
}

/// The value that the bits of the item hold in its quadlet.
pub fn detect_u16_value(u16_val: &SurfaceU16Value, after: u32) -> (value: u16)
    requires
        u16_val.2 < 32,
    ensures
        value == spec_u16_value(*u16_val, after),
{
    let shifted: u32 = (after & u16_val.1) >> (u16_val.2 as u32);
    let low: u32 = shifted & 0xffff;
    assert(low <= 0xffff) by (bit_vector)
        requires
            low == shifted & 0xffff,
    ;
    low as u16
}

/// The value that the bits of the item hold in the image.
pub fn detect_u16_value_in_image(u16_val: &SurfaceU16Value, image: &[u32]) -> (value: u16)
    requires
        u16_val.2 < 32,
        u16_val.0 < image@.len(),
    ensures
        value == spec_u16_value(*u16_val, image@[u16_val.0 as int]),
{
    detect_u16_value(u16_val, image[u16_val.0])
}

/// Offset of the register of the LEDs.
pub const LED_OFFSET: u64 = 0x0404;

/// The four bytes to write to the register of the LEDs to turn the LED at
/// `pos` on or off: the state and the position, each as two bytes, most
/// significant first.
pub fn build_led_frame(pos: u16, enable: bool) -> (frame: [u8; 4])
    ensures
        frame@ == seq![
            0u8,
            (if enable {
                1u8
            } else {
                0u8
            }),
            (pos / 0x100) as u8,
            (pos % 0x100) as u8,
        ],
{
    let state: u8 = if enable {
        1
    } else {
        0
    };
    let frame: [u8; 4] = [0, state, (pos / 0x100) as u8, (pos % 0x100) as u8];
    assert(frame@ =~= seq![0u8, state, (pos / 0x100) as u8, (pos % 0x100) as u8]);
    frame
}

/// The enumeration for surface items.
#[derive(Debug, Copy, Clone, Eq, PartialEq, Structural)]
pub enum MachineItem {
    // Channel section.
    Master,
    Ol(usize),
    Rec(usize),
    Signal(usize),
    Rotary(usize),
    Select(usize),
    Solo(usize),
    Mute(usize),
    Input(usize),
    Func(usize),
    Pfl,

    // Global section.
    Read,
    Wrt,
    Tch,
    Latch,
    Wheel,
    Shuttle,
    Computer,
    Clock,
    Up,
    Left,
    Down,
    Right,
    NudgeLeft,
    NudgeRight,
    LocateLeft,
    LocateRight,
    SetButton,
    In,
    Out,

    // Encoder section.
    Flip,
    Pan, // has bool value in FW-1884, has u16 value in FW-1082.
    Aux(usize),
    EncoderMode, // FW-1082 only.

    // Equalizer section.
    High,
    HighMid,
    LowMid,
    Low,
    Recall,
    Gain,
    Freq,
    Q,

    // Bank section.
    Bank,

    // Transport section.
    Rew,
    Fwd,
    Stop,
    Play,
    Record,

    // Shortcut section.
    Panel,
    Save,
    Revert,
    AllSafe,
    ClrSolo,
    Markers,
    Loop,
    Cut,
    Del,
    Copy,
    Paste,
    Alt,
    Cmd,
    Undo,
    Shift,
    Ctrl,
}

impl Default for MachineItem {
    fn default() -> (item: Self)
        ensures
            item == MachineItem::Master,
    {
        Self::Master
    }
}

/// The largest number of a bank.
pub const BANK_MAX: u16 = 3;

/// Whether the item is one of the transport, of which one is enabled.
pub open spec fn spec_is_transport(item: MachineItem) -> bool {
    item == MachineItem::Rew || item == MachineItem::Fwd || item == MachineItem::Stop || item
        == MachineItem::Play || item == MachineItem::Record
}

/// Whether the item is a band of the equalizer, of which at most one is enabled.
pub open spec fn spec_is_eq_band(item: MachineItem) -> bool {
    item == MachineItem::High || item == MachineItem::HighMid || item == MachineItem::LowMid
        || item == MachineItem::Low
}

pub fn is_transport(item: MachineItem) -> (transport: bool)
    ensures
        transport == spec_is_transport(item),
{
    item == MachineItem::Rew || item == MachineItem::Fwd || item == MachineItem::Stop || item
        == MachineItem::Play || item == MachineItem::Record
}

pub fn is_eq_band(item: MachineItem) -> (band: bool)
    ensures
        band == spec_is_eq_band(item),
{
    item == MachineItem::High || item == MachineItem::HighMid || item == MachineItem::LowMid
        || item == MachineItem::Low
}

/// The items of the surface of a model.
#[derive(Debug)]
pub struct MachineLayout {
    /// The items with a boolean value.
    pub bool_items: Vec<MachineItem>,
    /// The items with a u16 value.
    pub u16_items: Vec<MachineItem>,
    /// Whether the surface has the items of the transport.
    pub has_transport: bool,
    /// Whether the surface has banks.
    pub has_bank: bool,
}

/// The state machine of control surface.
#[derive(Debug)]
pub struct MachineState {
    /// The boolean value of each item.
    pub bool_items: Vec<bool>,
    /// The u16 value of each item.
    pub u16_items: Vec<u16>,
    /// Between 0-3.
    pub bank: u16,
    /// One of Rew, Fwd, Stop, Play, and Record.
    pub transport: MachineItem,
}

/// The state of the machine, with the values as sequences.
pub struct MachineStateView {
    pub bool_items: Seq<bool>,
    pub u16_items: Seq<u16>,
    pub bank: u16,
    pub transport: MachineItem,
}

impl View for MachineState {
    type V = MachineStateView;

    open spec fn view(&self) -> MachineStateView {
        MachineStateView {
            bool_items: self.bool_items@,
            u16_items: self.u16_items@,
            bank: self.bank,
            transport: self.transport,
        }
    }
}

impl Default for MachineState {
    fn default() -> (state: Self)
        ensures
            state@ == (MachineStateView {
                bool_items: Seq::empty(),
                u16_items: Seq::empty(),
                bank: 0,
                transport: MachineItem::Master,
            }),
    {
        MachineState {
            bool_items: Vec::new(),
            u16_items: Vec::new(),
            bank: 0,
            transport: MachineItem::Master,
        }
    }
}

/// The lesser of two lengths.
pub open spec fn spec_min(a: int, b: int) -> int {
    if a <= b {
        a
    } else {
        b
    }
}

/// The first place from `from` on at which `items` holds `item` with
/// another value than `value` in `values`, if there is one.
pub open spec fn spec_first_changed<T>(
    items: Seq<MachineItem>,
    values: Seq<T>,
    item: MachineItem,
    value: T,
    from: int,
) -> Option<int>
    decreases spec_min(items.len() as int, values.len() as int) - from,
{
    if from < 0 || from >= spec_min(items.len() as int, values.len() as int) {
        None
    } else if items[from] == item && values[from] != value {
        Some(from)
    } else {
        spec_first_changed(items, values, item, value, from + 1)
    }
}

/// The values of the items with `value` taken over at the first place at
/// which `items` holds `item` with another value.
pub open spec fn spec_value_taken<T>(
    items: Seq<MachineItem>,
    values: Seq<T>,
    item: MachineItem,
    value: T,
) -> Seq<T> {
    match spec_first_changed(items, values, item, value, 0) {
        Some(place) => values.update(place, value),
        None => values,
    }
}

/// The values of the first `count` items with every enabled band of the
/// equalizer but `item` disabled.
pub open spec fn spec_bands_cleared(
    items: Seq<MachineItem>,
    values: Seq<bool>,
    item: MachineItem,
    count: int,
) -> Seq<bool>
    decreases count,
{
    if count <= 0 {
        values
    } else {
        let cleared = spec_bands_cleared(items, values, item, count - 1);
        if items[count - 1] != item && values[count - 1] && spec_is_eq_band(items[count - 1]) {
            cleared.update(count - 1, false)
        } else {
            cleared
        }
    }
}

/// The events for the bands of the equalizer that are disabled among the
/// first `count` items.
pub open spec fn spec_bands_events(
    items: Seq<MachineItem>,
    values: Seq<bool>,
    item: MachineItem,
    count: int,
) -> Seq<(MachineItem, ItemValue)>
    decreases count,
{
    if count <= 0 {
        Seq::empty()
    } else {
        let events = spec_bands_events(items, values, item, count - 1);
        if items[count - 1] != item && values[count - 1] && spec_is_eq_band(items[count - 1]) {
            events.push((items[count - 1], ItemValue::Bool(false)))
        } else {
            events
        }
    }
}

impl MachineLayout {
    /// The state of the machine after the event `input`.
    ///
    /// A boolean value is taken over for the first item of its kind with
    /// another value. An item of the transport that is not the enabled one
    /// becomes the enabled one. A band of the equalizer that is enabled
    /// disables the other bands. A u16 value is taken over likewise, and a
    /// number of a bank up to the largest becomes the bank.
    pub open spec fn spec_changed(self, state: MachineStateView, input: (MachineItem, ItemValue)) -> MachineStateView {
        let item = input.0;
        match input.1 {
            ItemValue::Bool(value) => {
                let taken = spec_value_taken(self.bool_items@, state.bool_items, item, value);
                MachineStateView {
                    bool_items: if spec_is_eq_band(item) && value {
                        spec_bands_cleared(
                            self.bool_items@,
                            taken,
                            item,
                            spec_min(self.bool_items@.len() as int, taken.len() as int),
                        )
                    } else {
                        taken
                    },
                    transport: if self.has_transport && spec_is_transport(item) {
                        item
                    } else {
                        state.transport
                    },
                    ..state
                }
            },
            ItemValue::U16(value) => MachineStateView {
                u16_items: spec_value_taken(self.u16_items@, state.u16_items, item, value),
                bank: if self.has_bank && item == MachineItem::Bank && value <= BANK_MAX {
                    value
                } else {
                    state.bank
                },
                ..state
            },
        }
    }

    /// The events that tell what the event `input` changes in the state of
    /// the machine, in the order in which it is changed.
    pub open spec fn spec_events(self, state: MachineStateView, input: (MachineItem, ItemValue)) -> Seq<
        (MachineItem, ItemValue),
    > {
        let item = input.0;
        match input.1 {
            ItemValue::Bool(value) => {
                let taken = spec_value_taken(self.bool_items@, state.bool_items, item, value);
                (if spec_first_changed(self.bool_items@, state.bool_items, item, value, 0)
                    is Some {
                    seq![(item, ItemValue::Bool(value))]
                } else {
                    Seq::empty()
                }) + (if self.has_transport && spec_is_transport(item) && item
                    != state.transport {
                    seq![(state.transport, ItemValue::Bool(false)), (item, ItemValue::Bool(true))]
                } else {
                    Seq::empty()
                }) + (if spec_is_eq_band(item) && value {
                    spec_bands_events(
                        self.bool_items@,
                        taken,
                        item,
                        spec_min(self.bool_items@.len() as int, taken.len() as int),
                    )
                } else {
                    Seq::empty()
                })
            },
            ItemValue::U16(value) => (if spec_first_changed(
                self.u16_items@,
                state.u16_items,
                item,
                value,
                0,
            ) is Some {
                seq![(item, ItemValue::U16(value))]
            } else {
                Seq::empty()
            }) + (if self.has_bank && item == MachineItem::Bank && state.bank != value && value
                <= BANK_MAX {
                seq![(MachineItem::Bank, ItemValue::U16(value))]
            } else {
                Seq::empty()
            }),
        }
    }

    /// The values of all items in the state of the machine: of the items
    /// with a boolean value, of those with a u16 value, the bank, and for each
    /// item of the transport whether it is the enabled one.
    pub open spec fn spec_current_values(self, state: MachineStateView) -> Seq<
        (MachineItem, ItemValue),
    > {
        Seq::new(
            spec_min(self.bool_items@.len() as int, state.bool_items.len() as int) as nat,
            |i: int| (self.bool_items@[i], ItemValue::Bool(state.bool_items[i])),
        ) + Seq::new(
            spec_min(self.u16_items@.len() as int, state.u16_items.len() as int) as nat,
            |i: int| (self.u16_items@[i], ItemValue::U16(state.u16_items[i])),
        ) + (if self.has_bank {
            seq![(MachineItem::Bank, ItemValue::U16(state.bank))]
        } else {
            Seq::empty()
        }) + (if self.has_transport {
            seq![
                (MachineItem::Rew, ItemValue::Bool(state.transport == MachineItem::Rew)),
                (MachineItem::Fwd, ItemValue::Bool(state.transport == MachineItem::Fwd)),
                (MachineItem::Stop, ItemValue::Bool(state.transport == MachineItem::Stop)),
                (MachineItem::Play, ItemValue::Bool(state.transport == MachineItem::Play)),
                (MachineItem::Record, ItemValue::Bool(state.transport == MachineItem::Record)),
            ]
        } else {
            Seq::empty()
        })
    }

    /// Sets the state of the machine to its start: every item disabled or
    /// zero, the first bank, the transport stopped.
    pub fn initialize_machine(&self, state: &mut MachineState)
        ensures
            final(state)@ == (MachineStateView {
                bool_items: Seq::new(self.bool_items@.len(), |i: int| false),
                u16_items: Seq::new(self.u16_items@.len(), |i: int| 0u16),
                bank: 0,
                transport: MachineItem::Stop,
            }),
    {
        state.bool_items = vec![false; self.bool_items.len()];
        state.u16_items = vec![0u16; self.u16_items.len()];
        state.bank = 0;
        state.transport = MachineItem::Stop;
        assert(state.bool_items@ =~= Seq::new(self.bool_items@.len(), |i: int| false));
        assert(state.u16_items@ =~= Seq::new(self.u16_items@.len(), |i: int| 0u16));
    }

    /// The values of all items in the state of the machine.
    pub fn get_machine_current_values(&self, state: &MachineState) -> (values: Vec<
        (MachineItem, ItemValue),
    >)
        ensures
            values@ == self.spec_current_values(state@),
    {
        let mut values: Vec<(MachineItem, ItemValue)> = Vec::new();
        let bool_count = if self.bool_items.len() <= state.bool_items.len() {
            self.bool_items.len()
        } else {
            state.bool_items.len()
        };
        let mut i: usize = 0;
        while i < bool_count
            invariant
                i <= bool_count,
                bool_count == spec_min(
                    self.bool_items@.len() as int,
                    state.bool_items@.len() as int,
                ),
                values@ == Seq::new(
                    i as nat,
                    |k: int| (self.bool_items@[k], ItemValue::Bool(state.bool_items@[k])),
                ),
            decreases bool_count - i,
        {
            values.push((self.bool_items[i], ItemValue::Bool(state.bool_items[i])));
            assert(values@ =~= Seq::new(
                (i + 1) as nat,
                |k: int| (self.bool_items@[k], ItemValue::Bool(state.bool_items@[k])),
            ));
            i += 1;
        }
        let ghost bools = values@;
        let u16_count = if self.u16_items.len() <= state.u16_items.len() {
            self.u16_items.len()
        } else {
            state.u16_items.len()
        };
        let mut i: usize = 0;
        assert(values@ =~= bools + Seq::new(
            0,
            |k: int| (self.u16_items@[k], ItemValue::U16(state.u16_items@[k])),
        ));
        while i < u16_count
            invariant
                i <= u16_count,
                u16_count == spec_min(self.u16_items@.len() as int, state.u16_items@.len() as int),
                values@ == bools + Seq::new(
                    i as nat,
                    |k: int| (self.u16_items@[k], ItemValue::U16(state.u16_items@[k])),
                ),
            decreases u16_count - i,
        {
            values.push((self.u16_items[i], ItemValue::U16(state.u16_items[i])));
            assert(values@ =~= bools + Seq::new(
                (i + 1) as nat,
                |k: int| (self.u16_items@[k], ItemValue::U16(state.u16_items@[k])),
            ));
            i += 1;
        }
        if self.has_bank {
            values.push((MachineItem::Bank, ItemValue::U16(state.bank)));
        }
        if self.has_transport {
            values.push((MachineItem::Rew, ItemValue::Bool(state.transport == MachineItem::Rew)));
            values.push((MachineItem::Fwd, ItemValue::Bool(state.transport == MachineItem::Fwd)));
            values.push((MachineItem::Stop, ItemValue::Bool(state.transport == MachineItem::Stop)));
            values.push((MachineItem::Play, ItemValue::Bool(state.transport == MachineItem::Play)));
            values.push(
                (MachineItem::Record, ItemValue::Bool(state.transport == MachineItem::Record)),
            );
        }
        assert(values@ =~= self.spec_current_values(state@));
        values
    }

    /// Takes the event `input` over into the state of the machine, and
    /// returns the events that tell what changes.
    pub fn change_machine_value(&self, state: &mut MachineState, input: &(MachineItem, ItemValue)) -> (outputs:
        Vec<(MachineItem, ItemValue)>)
        ensures
            final(state)@ == self.spec_changed(old(state)@, *input),
            outputs@ == self.spec_events(old(state)@, *input),
    {
        let mut outputs: Vec<(MachineItem, ItemValue)> = Vec::new();
        let item = input.0;
        match input.1 {
            ItemValue::Bool(value) => {
                let place = first_changed_bool(&self.bool_items, &state.bool_items, item, value);
                if let Some(k) = place {
                    state.bool_items.set(k, value);
                    outputs.push((item, ItemValue::Bool(value)));
                }
                let ghost taken = state.bool_items@;
                assert(taken =~= spec_value_taken(
                    self.bool_items@,
                    old(state).bool_items@,
                    item,
                    value,
                ));
                if self.has_transport && is_transport(item) {
                    if item != state.transport {
                        outputs.push((state.transport, ItemValue::Bool(false)));
                        outputs.push((item, ItemValue::Bool(true)));
                        state.transport = item;
                    }
                }
                let ghost before = outputs@;
                if is_eq_band(item) && value {
                    let count = if self.bool_items.len() <= state.bool_items.len() {
                        self.bool_items.len()
                    } else {
                        state.bool_items.len()
                    };
                    let mut k: usize = 0;
                    while k < count
                        invariant
                            k <= count,
                            count == spec_min(self.bool_items@.len() as int, taken.len() as int),
                            state.bool_items@.len() == taken.len(),
                            state.bool_items@ == spec_bands_cleared(
                                self.bool_items@,
                                taken,
                                item,
                                k as int,
                            ),
                            forall|j: int| k <= j < taken.len() ==> state.bool_items@[j] == taken[j],
                            outputs@ == before + spec_bands_events(
                                self.bool_items@,
                                taken,
                                item,
                                k as int,
                            ),
                            state.u16_items == old(state).u16_items,
                            state.bank == old(state).bank,
                            state.transport == (if self.has_transport && spec_is_transport(item) {
                                item
                            } else {
                                old(state).transport
                            }),
                        decreases count - k,
                    {
                        if self.bool_items[k] != item && state.bool_items[k] && is_eq_band(
                            self.bool_items[k],
                        ) {
                            state.bool_items.set(k, false);
                            outputs.push((self.bool_items[k], ItemValue::Bool(false)));
                        }
                        assert(outputs@ =~= before + spec_bands_events(
                            self.bool_items@,
                            taken,
                            item,
                            k + 1,
                        ));
                        k += 1;
                    }
                }
                assert(outputs@ =~= self.spec_events(old(state)@, *input));
                assert(state@.bool_items =~= self.spec_changed(old(state)@, *input).bool_items);
                assert(state@.u16_items =~= self.spec_changed(old(state)@, *input).u16_items);
            },
            ItemValue::U16(value) => {
                let place = first_changed_u16(&self.u16_items, &state.u16_items, item, value);
                if let Some(k) = place {
                    state.u16_items.set(k, value);
                    outputs.push((item, ItemValue::U16(value)));
                }
                if self.has_bank && item == MachineItem::Bank {
                    if state.bank != value && value <= BANK_MAX {
                        state.bank = value;
                        outputs.push((MachineItem::Bank, ItemValue::U16(state.bank)));
                    }
                }
                assert(outputs@ =~= self.spec_events(old(state)@, *input));
                assert(state@.bool_items =~= self.spec_changed(old(state)@, *input).bool_items);
                assert(state@.u16_items =~= self.spec_changed(old(state)@, *input).u16_items);
            },
        }
        outputs
    }
}

fn first_changed_bool(items: &Vec<MachineItem>, values: &Vec<bool>, item: MachineItem, value: bool) -> (place:
    Option<usize>)
    ensures
        place is Some ==> spec_first_changed(items@, values@, item, value, 0) == Some(
            place->Some_0 as int,
        ) && place->Some_0 < values@.len(),
        place is None ==> spec_first_changed(items@, values@, item, value, 0) is None,
{
    let count = if items.len() <= values.len() {
        items.len()
    } else {
        values.len()
    };
    let mut k: usize = 0;
    while k < count
        invariant
            k <= count,
            count == spec_min(items@.len() as int, values@.len() as int),
            spec_first_changed(items@, values@, item, value, 0) == spec_first_changed(
                items@,
                values@,
                item,
                value,
                k as int,
            ),
        decreases count - k,
    {
        if items[k] == item && values[k] != value {
            return Some(k);
        }
        k += 1;
    }
    None
}

fn first_changed_u16(items: &Vec<MachineItem>, values: &Vec<u16>, item: MachineItem, value: u16) -> (place:
    Option<usize>)
    ensures
        place is Some ==> spec_first_changed(items@, values@, item, value, 0) == Some(
            place->Some_0 as int,
        ) && place->Some_0 < values@.len(),
        place is None ==> spec_first_changed(items@, values@, item, value, 0) is None,
{
    let count = if items.len() <= values.len() {
        items.len()
    } else {
        values.len()
    };
    let mut k: usize = 0;
    while k < count
        invariant
            k <= count,
            count == spec_min(items@.len() as int, values@.len() as int),
            spec_first_changed(items@, values@, item, value, 0) == spec_first_changed(
                items@,
                values@,
                item,
                value,
                k as int,
            ),
        decreases count - k,
    {
        if items[k] == item && values[k] != value {
            return Some(k);
        }
        k += 1;
    }
    None
}

/// The positions of the LEDs that are on.
#[derive(Debug)]
pub struct LedState(pub Vec<u16>);

/// The positions but `pos`, in their order.
pub open spec fn spec_without_position(positions: Seq<u16>, pos: u16) -> Seq<u16>
    decreases positions.len(),
{
    if positions.len() == 0 {
        positions
    } else if positions.last() == pos {
        spec_without_position(positions.drop_last(), pos)
    } else {
        spec_without_position(positions.drop_last(), pos).push(positions.last())
    }
}

/// Keeps in mind that the LED at `pos` was turned on or off.
pub fn cache_led(state: &mut LedState, pos: u16, enable: bool)
    ensures
        final(state).0@ == (if !enable {
            spec_without_position(old(state).0@, pos)
        } else if old(state).0@.contains(pos) {
            old(state).0@
        } else {
            old(state).0@.push(pos)
        }),
{
    let mut kept: Vec<u16> = Vec::new();
    let mut found = false;
    let mut i: usize = 0;
    assert(state.0@.take(0) =~= Seq::<u16>::empty());
    while i < state.0.len()
        invariant
            i <= state.0@.len(),
            state.0@ == old(state).0@,
            kept@ == spec_without_position(state.0@.take(i as int), pos),
            found == state.0@.take(i as int).contains(pos),
        decreases state.0@.len() - i,
    {
        proof {
            let front = state.0@.take(i as int);
            let next = state.0@.take(i + 1);
            assert(next.drop_last() =~= front);
            assert(next.last() == state.0@[i as int]);
            if front.contains(pos) {
                let k = choose|k: int| 0 <= k < front.len() && front[k] == pos;
                assert(next[k] == pos);
            }
            if next.contains(pos) && state.0@[i as int] != pos {
                let k = choose|k: int| 0 <= k < next.len() && next[k] == pos;
                assert(front[k] == pos);
            }
            if state.0@[i as int] == pos {
                assert(next[i as int] == pos);
            }
        }
        if state.0[i] == pos {
            found = true;
        } else {
            kept.push(state.0[i]);
        }
        i += 1;
    }
    assert(state.0@.take(i as int) =~= state.0@);
    if !enable {
        state.0 = kept;
    } else if !found {
        state.0.push(pos);
    }
}

/// The position of the LED of an item: the first position of the first
/// group of items that holds the item, if there is one. Every group has a
/// position.
pub fn find_normal_led_pos(normal_leds: &[(Vec<MachineItem>, Vec<u16>)], item: &MachineItem) -> (pos:
    Option<u16>)
    requires
        forall|i: int| 0 <= i < normal_leds@.len() ==> (#[trigger] normal_leds@[i]).1@.len() > 0,
    ensures
        match pos {
            Some(p) => exists|i: int|
                0 <= i < normal_leds@.len() && (#[trigger] normal_leds@[i]).0@.contains(*item)
                    && normal_leds@[i].1@[0] == p && forall|j: int|
                    0 <= j < i ==> !(#[trigger] normal_leds@[j]).0@.contains(*item),
            None => forall|i: int|
                0 <= i < normal_leds@.len() ==> !(#[trigger] normal_leds@[i]).0@.contains(*item),
        },
{
    let mut i: usize = 0;
    while i < normal_leds.len()
        invariant
            i <= normal_leds@.len(),
            forall|k: int| 0 <= k < normal_leds@.len() ==> (#[trigger] normal_leds@[k]).1@.len() > 0,
            forall|j: int| 0 <= j < i ==> !(#[trigger] normal_leds@[j]).0@.contains(*item),
        decreases normal_leds@.len() - i,
    {
        let group = &normal_leds[i];
        let mut k: usize = 0;
        while k < group.0.len()
            invariant
                k <= group.0@.len(),
                i < normal_leds@.len(),
                *group == normal_leds@[i as int],
                group.1@.len() > 0,
                forall|j: int| 0 <= j < k ==> group.0@[j] != *item,
                forall|j: int| 0 <= j < i ==> !(#[trigger] normal_leds@[j]).0@.contains(*item),
            decreases group.0@.len() - k,
        {
            if group.0[k] == *item {
                assert(normal_leds@[i as int].0@.contains(*item));
                return Some(group.1[0]);
            }
            k += 1;
        }
        i += 1;
    }
    None
}

/// Whether the quadlet `index` of the image, which changes from `before` to
/// `after`, changes the bits of the item.
pub open spec fn spec_bool_action(
    bool_val: SurfaceBoolValue,
    index: u32,
    before: u32,
    after: u32,
) -> bool {
    bool_val.0 == index && (before ^ after) & bool_val.1 > 0
}

/// Whether the quadlet `index` of the image, which changes from `before` to
/// `after`, changes the bits of the item, which were set.
pub open spec fn spec_stateful_bool_action(
    bool_val: SurfaceBoolValue,
    index: u32,
    before: u32,
    after: u32,
) -> bool {
    spec_bool_action(bool_val, index, before, after) && before & bool_val.1 > 0
}

/// Whether the quadlet `index` of the image, which changes from `before` to
/// `after`, changes the bits of the item.
pub open spec fn spec_u16_action(
    u16_val: SurfaceU16Value,
    index: u32,
    before: u32,
    after: u32,
) -> bool {
    u16_val.0 == index && (before ^ after) & u16_val.1 > 0
}

/// The state of the items of the surface that keep a state across events.
#[derive(Debug)]
pub struct SurfaceCommonState {
    pub stateful_items: Vec<bool>,
}

/// The places in the image of the items of the surface of a model.
#[derive(Debug)]
pub struct SurfaceTables {
    /// The buttons that toggle a state.
    pub stateful_items: Vec<(SurfaceBoolValue, MachineItem)>,
    /// The buttons that are pressed and released.
    pub stateless_items: Vec<(SurfaceBoolValue, MachineItem)>,
    /// The rotaries.
    pub rotaries: Vec<(SurfaceU16Value, MachineItem)>,
    /// The faders: the bit that tells a touch, and the position.
    pub faders: Vec<(SurfaceBoolValue, SurfaceU16Value, MachineItem)>,
}

impl SurfaceTables {
    /// Whether every value of the tables can be read from the image: no
    /// value is moved down by more than 31 bits, and the position of every
    /// fader is in a quadlet of the image.
    pub open spec fn fits(self, image: Seq<u32>) -> bool {
        &&& forall|i: int| 0 <= i < self.rotaries@.len() ==> (#[trigger] self.rotaries@[i]).0.2 < 32
        &&& forall|i: int|
            0 <= i < self.faders@.len() ==> (#[trigger] self.faders@[i]).1.2 < 32
                && self.faders@[i].1.0 < image.len()
    }

    /// The events of the first `count` buttons that toggle a state: for each
    /// button that is released, the contrary of its state.
    pub open spec fn spec_stateful_events(
        self,
        states: Seq<bool>,
        index: u32,
        before: u32,
        after: u32,
        count: int,
    ) -> Seq<(MachineItem, ItemValue)>
        decreases count,
    {
        if count <= 0 {
            Seq::empty()
        } else {
            let events = self.spec_stateful_events(states, index, before, after, count - 1);
            let entry = self.stateful_items@[count - 1];
            if spec_stateful_bool_action(entry.0, index, before, after) {
                events.push((entry.1, ItemValue::Bool(!states[count - 1])))
            } else {
                events
            }
        }
    }

    /// The events of the first `count` buttons that are pressed and
    /// released: for each button that changes, whether it was pressed.
    pub open spec fn spec_stateless_events(
        self,
        index: u32,
        before: u32,
        after: u32,
        count: int,
    ) -> Seq<(MachineItem, ItemValue)>
        decreases count,
    {
        if count <= 0 {
            Seq::empty()
        } else {
            let events = self.spec_stateless_events(index, before, after, count - 1);
            let entry = self.stateless_items@[count - 1];
            if spec_bool_action(entry.0, index, before, after) {
                events.push((entry.1, ItemValue::Bool(before & entry.0.1 > 0)))
            } else {
                events
            }
        }
    }

    /// The events of the first `count` rotaries: for each rotary that
    /// changes, its new value.
    pub open spec fn spec_rotary_events(
        self,
        index: u32,
        before: u32,
        after: u32,
        count: int,
    ) -> Seq<(MachineItem, ItemValue)>
        decreases count,
    {
        if count <= 0 {
            Seq::empty()
        } else {
            let events = self.spec_rotary_events(index, before, after, count - 1);
            let entry = self.rotaries@[count - 1];
            if spec_u16_action(entry.0, index, before, after) {
                events.push((entry.1, ItemValue::U16(spec_u16_value(entry.0, after))))
            } else {
                events
            }
        }
    }

    /// The events of the first `count` faders: for each fader whose touch
    /// changes, its position in the image.
    pub open spec fn spec_fader_events(
        self,
        image: Seq<u32>,
        index: u32,
        before: u32,
        after: u32,
        count: int,
    ) -> Seq<(MachineItem, ItemValue)>
        decreases count,
    {
        if count <= 0 {
            Seq::empty()
        } else {
            let events = self.spec_fader_events(image, index, before, after, count - 1);
            let entry = self.faders@[count - 1];
            if spec_bool_action(entry.0, index, before, after) {
                events.push(
                    (entry.2, ItemValue::U16(spec_u16_value(entry.1, image[entry.1.0 as int]))),
                )
            } else {
                events
            }
        }
    }

    /// The first place from `from` on of the item among the buttons that
    /// toggle a state and have a state, if there is one.
    pub open spec fn spec_stateful_place(self, states: Seq<bool>, item: MachineItem, from: int) -> Option<
        int,
    >
        decreases spec_min(self.stateful_items@.len() as int, states.len() as int) - from,
    {
        if from < 0 || from >= spec_min(self.stateful_items@.len() as int, states.len() as int) {
            None
        } else if self.stateful_items@[from].1 == item {
            Some(from)
        } else {
            self.spec_stateful_place(states, item, from + 1)
        }
    }

    /// Sets the state of every button that toggles a state to off.
    pub fn initialize_surface_common_state(&self, state: &mut SurfaceCommonState)
        ensures
            final(state).stateful_items@ == Seq::new(
                self.stateful_items@.len(),
                |i: int| false,
            ),
    {
        state.stateful_items = vec![false; self.stateful_items.len()];
        assert(state.stateful_items@ =~= Seq::new(self.stateful_items@.len(), |i: int| false));
    }

    /// Appends the events for the change of the quadlet `index` of the image
    /// from `before` to `after`: of the buttons that toggle a state, of the
    /// other buttons, of the rotaries and of the faders, in this order.
    pub fn decode_surface_image_common(
        &self,
        machine_values: &mut Vec<(MachineItem, ItemValue)>,
        state: &SurfaceCommonState,
        image: &[u32],
        index: u32,
        before: u32,
        after: u32,
    )
        requires
            self.fits(image@),
        ensures
            final(machine_values)@ == old(machine_values)@ + self.spec_stateful_events(
                state.stateful_items@,
                index,
                before,
                after,
                spec_min(self.stateful_items@.len() as int, state.stateful_items@.len() as int),
            ) + self.spec_stateless_events(
                index,
                before,
                after,
                self.stateless_items@.len() as int,
            ) + self.spec_rotary_events(index, before, after, self.rotaries@.len() as int)
                + self.spec_fader_events(image@, index, before, after, self.faders@.len() as int),
    {
        let count = if self.stateful_items.len() <= state.stateful_items.len() {
            self.stateful_items.len()
        } else {
            state.stateful_items.len()
        };
        let ghost base = machine_values@;
        let mut k: usize = 0;
        assert(machine_values@ =~= base + self.spec_stateful_events(
            state.stateful_items@,
            index,
            before,
            after,
            0,
        ));
        while k < count
            invariant
                k <= count,
                count == spec_min(
                    self.stateful_items@.len() as int,
                    state.stateful_items@.len() as int,
                ),
                machine_values@ == base + self.spec_stateful_events(
                    state.stateful_items@,
                    index,
                    before,
                    after,
                    k as int,
                ),
            decreases count - k,
        {
            let entry = &self.stateful_items[k];
            if detect_stateful_bool_action(&entry.0, index, before, after) {
                machine_values.push((entry.1, ItemValue::Bool(!state.stateful_items[k])));
            }
            assert(machine_values@ =~= base + self.spec_stateful_events(
                state.stateful_items@,
                index,
                before,
                after,
                k + 1,
            ));
            k += 1;
        }
        let ghost base = machine_values@;
        let mut k: usize = 0;
        assert(machine_values@ =~= base + self.spec_stateless_events(index, before, after, 0));
        while k < self.stateless_items.len()
            invariant
                k <= self.stateless_items@.len(),
                machine_values@ == base + self.spec_stateless_events(
                    index,
                    before,
                    after,
                    k as int,
                ),
            decreases self.stateless_items@.len() - k,
        {
            let entry = &self.stateless_items[k];
            if detect_bool_action(&entry.0, index, before, after) {
                machine_values.push((entry.1, ItemValue::Bool(detect_bool_value(&entry.0, before))));
            }
            assert(machine_values@ =~= base + self.spec_stateless_events(
                index,
                before,
                after,
                k + 1,
            ));
            k += 1;
        }
        let ghost base = machine_values@;
        let mut k: usize = 0;
        assert(machine_values@ =~= base + self.spec_rotary_events(index, before, after, 0));
        while k < self.rotaries.len()
            invariant
                k <= self.rotaries@.len(),
                self.fits(image@),
                machine_values@ == base + self.spec_rotary_events(index, before, after, k as int),
            decreases self.rotaries@.len() - k,
        {
            let entry = &self.rotaries[k];
            if detect_u16_action(&entry.0, index, before, after) {
                machine_values.push((entry.1, ItemValue::U16(detect_u16_value(&entry.0, after))));
            }
            assert(machine_values@ =~= base + self.spec_rotary_events(
                index,
                before,
                after,
                k + 1,
            ));
            k += 1;
        }
        let ghost base = machine_values@;
        let mut k: usize = 0;
        assert(machine_values@ =~= base + self.spec_fader_events(image@, index, before, after, 0));
        while k < self.faders.len()
            invariant
                k <= self.faders@.len(),
                self.fits(image@),
                machine_values@ == base + self.spec_fader_events(
                    image@,
                    index,
                    before,
                    after,
                    k as int,
                ),
            decreases self.faders@.len() - k,
        {
            let entry = &self.faders[k];
            if detect_bool_action(&entry.0, index, before, after) {
                machine_values.push(
                    (entry.2, ItemValue::U16(detect_u16_value_in_image(&entry.1, image))),
                );
            }
            assert(machine_values@ =~= base + self.spec_fader_events(
                image@,
                index,
                before,
                after,
                k + 1,
            ));
            k += 1;
        }
    }

    /// Toggles the state of the first button that toggles a state and
    /// stands for the item of the event, if there is one.
    pub fn feedback_to_surface_common(
        &self,
        state: &mut SurfaceCommonState,
        machine_value: &(MachineItem, ItemValue),
    )
        ensures
            final(state).stateful_items@ == (match self.spec_stateful_place(
                old(state).stateful_items@,
                machine_value.0,
                0,
            ) {
                Some(place) => old(state).stateful_items@.update(
                    place,
                    !old(state).stateful_items@[place],
                ),
                None => old(state).stateful_items@,
            }),
    {
        let count = if self.stateful_items.len() <= state.stateful_items.len() {
            self.stateful_items.len()
        } else {
            state.stateful_items.len()
        };
        let mut k: usize = 0;
        while k < count
            invariant
                k <= count,
                count == spec_min(
                    self.stateful_items@.len() as int,
                    state.stateful_items@.len() as int,
                ),
                state.stateful_items@ == old(state).stateful_items@,
                self.spec_stateful_place(state.stateful_items@, machine_value.0, 0)
                    == self.spec_stateful_place(state.stateful_items@, machine_value.0, k as int),
            decreases count - k,
        {
            if self.stateful_items[k].1 == machine_value.0 {
                let toggled = !state.stateful_items[k];
                state.stateful_items.set(k, toggled);
                return ;
            }
            k += 1;
        }
    }
}

} // verus!

//! Commands of all sections, and their records in a stream of bytes.
//!
//! A stream is a run of records. The first byte of a record is its tag,
//! which decides its layout:
//!
//! | tag  | record                                   | length        |
//! |------|------------------------------------------|---------------|
//! | 0x23 | report of DSP resource usage             | 6             |
//! | 0x46 | several quadlet coefficients             | 6 + 4 * count |
//! | 0x49 | several byte coefficients                | 6 + count     |
//! | 0x62 | drain of the previous commands           | 1             |
//! | 0x65 | end of the stream                        | the rest      |
//! | 0x66 | one quadlet coefficient                  | 9             |
//! | 0x69 | one byte coefficient                     | 6             |
//!
//! A record with several coefficients holds their count in its second byte
//! and one identifier; its coefficients belong to the channels from zero on.

use vstd::prelude::*;
use vstd::std_specs::cmp::PartialEqSpecImpl;
use crate::float32::{Float32, lemma_bytes_then_quadlet};
use super::codec::{
    append_resource, bytes_to_vec, is_single_record, resource_record, same_bytes,
    single_identifier, single_vals, spec_to_f32, to_f32, CmdView, CMD_BYTE_MULTIPLE,
    CMD_BYTE_SINGLE, CMD_BYTE_SINGLE_LENGTH, CMD_DRAIN, CMD_END, CMD_QUADLET_MULTIPLE,
    CMD_QUADLET_SINGLE, CMD_QUADLET_SINGLE_LENGTH, CMD_RESOURCE, CMD_RESOURCE_LENGTH,
};
use super::input::{InputCmd, INPUT_LEVEL};
use super::mixer::{MixerCmd, MIXER_LEVEL};
use super::monitor::{MonitorCmd, MONITOR_LEVEL};
use super::output::{OutputCmd, OUTPUT_LEVEL};
use super::reverb::{ReverbCmd};

verus! {

/// The DSP command specific to usage of resource.
#[derive(Debug)]
pub enum ResourceCmd {
    Usage(Float32, u8),
    Reserved(Vec<u8>),
}

/// What a command about resources is, seen apart from how its bytes are held.
pub enum ResourceCmdView {
    Usage(Float32, u8),
    Reserved(Seq<u8>),
}

impl View for ResourceCmd {
    type V = ResourceCmdView;

    open spec fn view(&self) -> ResourceCmdView {
        match *self {
            ResourceCmd::Usage(usage, flag) => ResourceCmdView::Usage(usage, flag),
            ResourceCmd::Reserved(data) => ResourceCmdView::Reserved(data@),
        }
    }
}

impl ResourceCmd {
    /// The least usage, 0.0, as the pattern of its number.
    pub const USAGE_MIN: u32 = 0x0000_0000;

    /// The largest usage, 100.0, as the pattern of its number.
    pub const USAGE_MAX: u32 = 0x42c8_0000;

    /// The report in a record of resource usage.
    pub open spec fn spec_parse(raw: Seq<u8>) -> ResourceCmdView {
        ResourceCmdView::Usage(spec_to_f32(raw.subrange(1, 5)), raw[5])
    }

    pub open spec fn spec_build(self) -> Seq<u8> {
        match self {
            ResourceCmd::Usage(usage, flag) => resource_record(usage, flag),
            ResourceCmd::Reserved(data) => data@,
        }
    }

    pub fn parse(raw: &[u8]) -> (cmd: Self)
        requires
            raw@.len() >= CMD_RESOURCE_LENGTH,
        ensures
            cmd@ == Self::spec_parse(raw@),
    {
        ResourceCmd::Usage(to_f32(&raw[1..5]), raw[5])
    }

    pub fn build(&self, raw: &mut Vec<u8>)
        ensures
            final(raw)@ == old(raw)@ + self.spec_build(),
    {
        match self {
            ResourceCmd::Usage(usage, flag) => append_resource(raw, *usage, *flag),
            ResourceCmd::Reserved(data) => {
                raw.extend_from_slice(data.as_slice());
                assert(raw@ =~= old(raw)@ + data@);
            },
        }
    }
}

impl Clone for ResourceCmd {
    fn clone(&self) -> (cmd: Self)
        ensures
            cmd@ == self@,
    {
        match self {
            ResourceCmd::Usage(usage, flag) => ResourceCmd::Usage(*usage, *flag),
            ResourceCmd::Reserved(data) => ResourceCmd::Reserved(bytes_to_vec(data.as_slice())),
        }
    }
}

impl PartialEq for ResourceCmd {
    fn eq(&self, other: &Self) -> (same: bool) {
        match (self, other) {
            (ResourceCmd::Usage(usage_a, flag_a), ResourceCmd::Usage(usage_b, flag_b)) => {
                *usage_a == *usage_b && *flag_a == *flag_b
            },
            (ResourceCmd::Reserved(data_a), ResourceCmd::Reserved(data_b)) => same_bytes(
                data_a.as_slice(),
                data_b.as_slice(),
            ),
            _ => false,
        }
    }
}

impl PartialEqSpecImpl for ResourceCmd {
    open spec fn obeys_eq_spec() -> bool {
        true
    }

    open spec fn eq_spec(&self, other: &Self) -> bool {
        self@ == other@
    }
}

/// The DSP command.
#[derive(Debug)]
pub enum DspCmd {
    Monitor(MonitorCmd),
    Input(InputCmd),
    Mixer(MixerCmd),
    Output(OutputCmd),
    Reverb(ReverbCmd),
    Resource(ResourceCmd),
    Reserved(Vec<u8>),
}

/// What a command is, seen apart from how its bytes are held.
pub enum DspCmdView {
    Monitor(CmdView<MonitorCmd>),
    Input(CmdView<InputCmd>),
    Mixer(CmdView<MixerCmd>),
    Output(CmdView<OutputCmd>),
    Reverb(CmdView<ReverbCmd>),
    Resource(ResourceCmdView),
    Reserved(Seq<u8>),
}

impl View for DspCmd {
    type V = DspCmdView;

    open spec fn view(&self) -> DspCmdView {
        match *self {
            DspCmd::Monitor(cmd) => DspCmdView::Monitor(cmd@),
            DspCmd::Input(cmd) => DspCmdView::Input(cmd@),
            DspCmd::Mixer(cmd) => DspCmdView::Mixer(cmd@),
            DspCmd::Output(cmd) => DspCmdView::Output(cmd@),
            DspCmd::Reverb(cmd) => DspCmdView::Reverb(cmd@),
            DspCmd::Resource(cmd) => DspCmdView::Resource(cmd@),
            DspCmd::Reserved(data) => DspCmdView::Reserved(data@),
        }
    }
}

/// The commands of a list, each seen apart from how its bytes are held.
pub open spec fn cmds_view(cmds: Seq<DspCmd>) -> Seq<DspCmdView> {
    cmds.map_values(|cmd: DspCmd| cmd@)
}

/// The first level above which an identifier belongs to no section.
pub const LAST_LEVEL: u8 = 0x04;

/// The command of the section that the identifier's first level names, for an
/// identifier of one of the five sections.
pub open spec fn section_cmd(identifier: Seq<u8>, vals: Seq<u8>) -> DspCmdView {
    if identifier[3] == MONITOR_LEVEL {
        DspCmdView::Monitor(MonitorCmd::spec_parse(identifier, vals))
    } else if identifier[3] == INPUT_LEVEL {
        DspCmdView::Input(InputCmd::spec_parse(identifier, vals))
    } else if identifier[3] == MIXER_LEVEL {
        DspCmdView::Mixer(MixerCmd::spec_parse(identifier, vals))
    } else if identifier[3] == OUTPUT_LEVEL {
        DspCmdView::Output(OutputCmd::spec_parse(identifier, vals))
    } else {
        DspCmdView::Reverb(ReverbCmd::spec_parse(identifier, vals))
    }
}

/// The length that the head of `raw` announces for its record: by the tag
/// and, where the record holds several coefficients, their count. Zero where
/// the tag is unknown or the count is missing, and for the end of the stream.
pub open spec fn announced_len(raw: Seq<u8>) -> nat {
    if raw.len() == 0 {
        0
    } else if raw[0] == CMD_RESOURCE {
        CMD_RESOURCE_LENGTH as nat
    } else if raw[0] == CMD_QUADLET_MULTIPLE && raw.len() >= 2 {
        (6 + 4 * raw[1]) as nat
    } else if raw[0] == CMD_BYTE_MULTIPLE && raw.len() >= 2 {
        (6 + raw[1]) as nat
    } else if raw[0] == CMD_DRAIN {
        1
    } else if raw[0] == CMD_QUADLET_SINGLE {
        CMD_QUADLET_SINGLE_LENGTH as nat
    } else if raw[0] == CMD_BYTE_SINGLE {
        CMD_BYTE_SINGLE_LENGTH as nat
    } else {
        0
    }
}

/// The count of bytes that the record at the head of `raw` takes: the
/// announced length where `raw` holds that many bytes, the whole of `raw` for
/// the end of the stream, and zero where no record can be taken.
pub open spec fn record_len(raw: Seq<u8>) -> nat {
    if raw.len() > 0 && raw[0] == CMD_END {
        raw.len()
    } else if announced_len(raw) <= raw.len() {
        announced_len(raw)
    } else {
        0
    }
}

/// The command in a record of one coefficient at the head of `raw`. An
/// identifier of no section keeps the record as it is.
pub open spec fn single_cmd(raw: Seq<u8>) -> DspCmdView {
    if single_identifier(raw)[3] <= LAST_LEVEL {
        section_cmd(single_identifier(raw), single_vals(raw))
    } else {
        DspCmdView::Reserved(raw.subrange(0, announced_len(raw) as int))
    }
}

/// The commands in a record of several coefficients of `width` bytes each at
/// the head of `raw`: one for each coefficient, on the channels from zero on.
/// An identifier of no section keeps the record as it is.
pub open spec fn multiple_cmds(raw: Seq<u8>, width: nat) -> Seq<DspCmdView> {
    let identifier = raw.subrange(2, 6);
    if identifier[3] <= LAST_LEVEL {
        Seq::new(
            raw[1] as nat,
            |i: int|
                section_cmd(
                    identifier.update(0, i as u8),
                    raw.subrange(6 + i * width, 6 + (i + 1) * width),
                ),
        )
    } else {
        seq![DspCmdView::Reserved(raw.subrange(0, announced_len(raw) as int))]
    }
}

/// The commands that the record at the head of `raw` stands for.
pub open spec fn record_cmds(raw: Seq<u8>) -> Seq<DspCmdView> {
    if record_len(raw) == 0 {
        Seq::empty()
    } else if raw[0] == CMD_RESOURCE {
        seq![DspCmdView::Resource(ResourceCmd::spec_parse(raw))]
    } else if raw[0] == CMD_BYTE_MULTIPLE {
        multiple_cmds(raw, 1)
    } else if raw[0] == CMD_QUADLET_MULTIPLE {
        multiple_cmds(raw, 4)
    } else if raw[0] == CMD_BYTE_SINGLE || raw[0] == CMD_QUADLET_SINGLE {
        seq![single_cmd(raw)]
    } else {
        Seq::empty()
    }
}

/// The command of the section that the identifier's first level names.
fn parse_section(identifier: &[u8], vals: &[u8]) -> (cmd: DspCmd)
    requires
        identifier@.len() == 4,
        identifier@[3] <= LAST_LEVEL,
        vals@.len() == 1 || vals@.len() == 4,
    ensures
        cmd@ == section_cmd(identifier@, vals@),
{
    match identifier[3] {
        0x00 => DspCmd::Monitor(MonitorCmd::parse(identifier, vals)),
        0x01 => DspCmd::Input(InputCmd::parse(identifier, vals)),
        0x02 => DspCmd::Mixer(MixerCmd::parse(identifier, vals)),
        0x03 => DspCmd::Output(OutputCmd::parse(identifier, vals)),
        _ => DspCmd::Reverb(ReverbCmd::parse(identifier, vals)),
    }
}

/// Appends the commands of a complete record of several coefficients.
fn parse_multiple(raw: &[u8], width: usize, cmds: &mut Vec<DspCmd>)
    requires
        width == 1 || width == 4,
        raw@.len() >= 2,
        raw@.len() >= 6 + raw@[1] * width,
        raw@[0] == (if width == 1 {
            CMD_BYTE_MULTIPLE
        } else {
            CMD_QUADLET_MULTIPLE
        }),
    ensures
        cmds_view(final(cmds)@) == cmds_view(old(cmds)@) + multiple_cmds(raw@, width as nat),
{
    let count = raw[1] as usize;
    if raw[5] <= LAST_LEVEL {
        let ghost expected = multiple_cmds(raw@, width as nat);
        let mut i: usize = 0;
        while i < count
            invariant
                i <= count,
                count == raw@[1],
                width == 1 || width == 4,
                raw@.len() >= 6 + count * width,
                raw@[5] <= LAST_LEVEL,
                expected == multiple_cmds(raw@, width as nat),
                cmds_view(cmds@) == cmds_view(old(cmds)@) + expected.take(i as int),
            decreases count - i,
        {
            let identifier: [u8; 4] = [i as u8, raw[3], raw[4], raw[5]];
            let start = if width == 1 {
                6 + i
            } else {
                6 + 4 * i
            };
            assert(start == 6 + i * width && start + width == 6 + (i + 1) * width) by (nonlinear_arith)
                requires
                    width == 1 || width == 4,
                    start == (if width == 1 {
                        6 + i
                    } else {
                        6 + 4 * i
                    }),
            ;
            assert(start + width <= raw@.len()) by (nonlinear_arith)
                requires
                    start + width == 6 + (i + 1) * width,
                    i < count,
                    raw@.len() >= 6 + count * width,
            ;
            let vals = &raw[start..(start + width)];
            assert(identifier@ =~= raw@.subrange(2, 6).update(0, i as u8));
            assert(vals@ == raw@.subrange(6 + i * width, 6 + (i + 1) * width));
            let cmd = parse_section(identifier.as_slice(), vals);
            let ghost before = cmds@;
            cmds.push(cmd);
            proof {
                assert(expected.len() == count);
                assert(expected[i as int] == section_cmd(
                    raw@.subrange(2, 6).update(0, i as u8),
                    raw@.subrange(6 + i * width, 6 + (i + 1) * width),
                ));
                assert(cmd@ == expected[i as int]);
                assert(cmds_view(cmds@) =~= cmds_view(before).push(cmd@));
                assert(expected.take(i + 1) =~= expected.take(i as int).push(expected[i as int]));
                assert(cmds_view(cmds@) =~= cmds_view(old(cmds)@) + expected.take(i + 1));
            }
            i += 1;
        }
        assert(expected.take(count as int) =~= expected);
    } else {
        let length = if width == 1 {
            6 + count
        } else {
            6 + 4 * count
        };
        cmds.push(DspCmd::Reserved(bytes_to_vec(&raw[0..length])));
        assert(cmds_view(cmds@) =~= cmds_view(old(cmds)@) + multiple_cmds(
            raw@,
            width as nat,
        ));
    }
}

impl DspCmd {
    /// The bytes that carry the command in a stream.
    pub open spec fn spec_build(self) -> Seq<u8> {
        match self {
            DspCmd::Monitor(cmd) => cmd.spec_build(),
            DspCmd::Input(cmd) => cmd.spec_build(),
            DspCmd::Mixer(cmd) => cmd.spec_build(),
            DspCmd::Output(cmd) => cmd.spec_build(),
            DspCmd::Reverb(cmd) => cmd.spec_build(),
            DspCmd::Resource(cmd) => cmd.spec_build(),
            DspCmd::Reserved(data) => data@,
        }
    }

    /// Holds of the commands that a stream carries without loss: the
    /// canonical commands of the sections, the report of resource usage, and
    /// as `Reserved` one whole record of coefficients with an identifier of
    /// no section.
    pub open spec fn is_canonical(self) -> bool {
        match self {
            DspCmd::Monitor(cmd) => cmd.is_canonical(),
            DspCmd::Input(cmd) => cmd.is_canonical(),
            DspCmd::Mixer(cmd) => cmd.is_canonical(),
            DspCmd::Output(cmd) => cmd.is_canonical(),
            DspCmd::Reverb(cmd) => cmd.is_canonical(),
            DspCmd::Resource(cmd) => cmd is Usage,
            DspCmd::Reserved(data) => {
                &&& data@.len() > 0
                &&& announced_len(data@) == data@.len()
                &&& {
                    ||| is_single_record(data@) && single_identifier(data@)[3] > LAST_LEVEL
                    ||| (data@[0] == CMD_BYTE_MULTIPLE || data@[0] == CMD_QUADLET_MULTIPLE)
                        && data@[5] > LAST_LEVEL
                }
            },
        }
    }

    /// Takes the record at the head of `raw`: appends the commands it stands
    /// for to `cmds` and returns the count of bytes it takes. Returns zero,
    /// and appends nothing, where `raw` is empty, starts with an unknown tag,
    /// or ends before the record does.
    pub fn parse(raw: &[u8], cmds: &mut Vec<DspCmd>) -> (consumed: usize)
        ensures
            consumed == record_len(raw@),
            cmds_view(final(cmds)@) == cmds_view(old(cmds)@) + record_cmds(raw@),
    {
        if raw.len() == 0 {
            assert(cmds_view(cmds@) =~= cmds_view(old(cmds)@) + record_cmds(raw@));
            return 0;
        }
        let tag = raw[0];
        if tag == CMD_RESOURCE && raw.len() >= CMD_RESOURCE_LENGTH {
            cmds.push(DspCmd::Resource(ResourceCmd::parse(raw)));
            assert(cmds_view(cmds@) =~= cmds_view(old(cmds)@) + record_cmds(raw@));
            CMD_RESOURCE_LENGTH
        } else if tag == CMD_BYTE_MULTIPLE && raw.len() >= 2 && raw.len() >= 6 + raw[1] as usize {
            parse_multiple(raw, 1, cmds);
            6 + raw[1] as usize
        } else if tag == CMD_QUADLET_MULTIPLE && raw.len() >= 2 && raw.len() >= 6 + 4
            * raw[1] as usize {
            parse_multiple(raw, 4, cmds);
            6 + 4 * raw[1] as usize
        } else if tag == CMD_DRAIN {
            assert(cmds_view(cmds@) =~= cmds_view(old(cmds)@) + record_cmds(raw@));
            1
        } else if tag == CMD_END {
            assert(cmds_view(cmds@) =~= cmds_view(old(cmds)@) + record_cmds(raw@));
            raw.len()
        } else if tag == CMD_BYTE_SINGLE && raw.len() >= CMD_BYTE_SINGLE_LENGTH {
            let identifier = &raw[2..6];
            let vals = &raw[1..2];
            let cmd = if identifier[3] <= LAST_LEVEL {
                parse_section(identifier, vals)
            } else {
                DspCmd::Reserved(bytes_to_vec(&raw[0..CMD_BYTE_SINGLE_LENGTH]))
            };
            cmds.push(cmd);
            assert(cmds_view(cmds@) =~= cmds_view(old(cmds)@) + record_cmds(raw@));
            CMD_BYTE_SINGLE_LENGTH
        } else if tag == CMD_QUADLET_SINGLE && raw.len() >= CMD_QUADLET_SINGLE_LENGTH {
            let identifier = &raw[1..5];
            let vals = &raw[5..9];
            let cmd = if identifier[3] <= LAST_LEVEL {
                parse_section(identifier, vals)
            } else {
                DspCmd::Reserved(bytes_to_vec(&raw[0..CMD_QUADLET_SINGLE_LENGTH]))
            };
            cmds.push(cmd);
            assert(cmds_view(cmds@) =~= cmds_view(old(cmds)@) + record_cmds(raw@));
            CMD_QUADLET_SINGLE_LENGTH
        } else {
            assert(cmds_view(cmds@) =~= cmds_view(old(cmds)@) + record_cmds(raw@));
            0
        }
    }

    /// Appends the bytes that carry the command to `raw`.
    pub fn build(&self, raw: &mut Vec<u8>)
        ensures
            final(raw)@ == old(raw)@ + self.spec_build(),
    {
        match self {
            DspCmd::Monitor(cmd) => cmd.build(raw),
            DspCmd::Input(cmd) => cmd.build(raw),
            DspCmd::Mixer(cmd) => cmd.build(raw),
            DspCmd::Output(cmd) => cmd.build(raw),
            DspCmd::Reverb(cmd) => cmd.build(raw),
            DspCmd::Resource(cmd) => cmd.build(raw),
            DspCmd::Reserved(data) => {
                raw.extend_from_slice(data.as_slice());
                assert(raw@ =~= old(raw)@ + data@);
            },
        }
    }
}

impl Clone for DspCmd {
    fn clone(&self) -> (cmd: Self)
        ensures
            cmd@ == self@,
    {
        match self {
            DspCmd::Monitor(cmd) => DspCmd::Monitor(cmd.clone()),
            DspCmd::Input(cmd) => DspCmd::Input(cmd.clone()),
            DspCmd::Mixer(cmd) => DspCmd::Mixer(cmd.clone()),
            DspCmd::Output(cmd) => DspCmd::Output(cmd.clone()),
            DspCmd::Reverb(cmd) => DspCmd::Reverb(cmd.clone()),
            DspCmd::Resource(cmd) => DspCmd::Resource(cmd.clone()),
            DspCmd::Reserved(data) => DspCmd::Reserved(bytes_to_vec(data.as_slice())),
        }
    }
}

impl PartialEq for DspCmd {
    fn eq(&self, other: &Self) -> (same: bool) {
        match (self, other) {
            (DspCmd::Monitor(a), DspCmd::Monitor(b)) => *a == *b,
            (DspCmd::Input(a), DspCmd::Input(b)) => *a == *b,
            (DspCmd::Mixer(a), DspCmd::Mixer(b)) => *a == *b,
            (DspCmd::Output(a), DspCmd::Output(b)) => *a == *b,
            (DspCmd::Reverb(a), DspCmd::Reverb(b)) => *a == *b,
            (DspCmd::Resource(a), DspCmd::Resource(b)) => *a == *b,
            (DspCmd::Reserved(a), DspCmd::Reserved(b)) => same_bytes(a.as_slice(), b.as_slice()),
            _ => false,
        }
    }
}

impl PartialEqSpecImpl for DspCmd {
    open spec fn obeys_eq_spec() -> bool {
        true
    }

    open spec fn eq_spec(&self, other: &Self) -> bool {
        self@ == other@
    }
}

/// The bytes that carry a list of commands, one after the other.
pub open spec fn stream_of(cmds: Seq<DspCmd>) -> Seq<u8>
    decreases cmds.len(),
{
    if cmds.len() == 0 {
        Seq::empty()
    } else {
        stream_of(cmds.drop_last()) + cmds.last().spec_build()
    }
}

/// The commands of the records of a stream, as far as records can be taken
/// from it.
pub open spec fn decode_stream(raw: Seq<u8>) -> Seq<DspCmdView>
    decreases raw.len(),
{
    if record_len(raw) == 0 {
        Seq::empty()
    } else {
        record_cmds(raw) + decode_stream(raw.skip(record_len(raw) as int))
    }
}

/// What is left of a stream behind the records that can be taken from it.
pub open spec fn stream_rest(raw: Seq<u8>) -> Seq<u8>
    decreases raw.len(),
{
    if record_len(raw) == 0 {
        raw
    } else {
        stream_rest(raw.skip(record_len(raw) as int))
    }
}

/// The bytes that carry the commands of `cmds`, one after the other.
pub fn build_commands(cmds: &[DspCmd]) -> (raw: Vec<u8>)
    ensures
        raw@ == stream_of(cmds@),
{
    let mut raw = Vec::new();
    let mut i: usize = 0;
    while i < cmds.len()
        invariant
            i <= cmds@.len(),
            raw@ == stream_of(cmds@.take(i as int)),
        decreases cmds@.len() - i,
    {
        cmds[i].build(&mut raw);
        proof {
            assert(cmds@.take(i + 1).drop_last() =~= cmds@.take(i as int));
        }
        i += 1;
    }
    assert(cmds@.take(i as int) =~= cmds@);
    raw
}

/// The record with the coefficient `i` of a record of several coefficients
/// alone, on the channel `i`.
pub open spec fn single_of_multiple(raw: Seq<u8>, i: int) -> Seq<u8> {
    if raw[0] == CMD_BYTE_MULTIPLE {
        seq![CMD_BYTE_SINGLE, raw[6 + i], i as u8, raw[3], raw[4], raw[5]]
    } else {
        seq![CMD_QUADLET_SINGLE, i as u8, raw[3], raw[4], raw[5]] + raw.subrange(
            6 + 4 * i,
            10 + 4 * i,
        )
    }
}

/// Encoding a canonical command and decoding the bytes gives the command
/// back, alone, and the decoder takes exactly the bytes that the encoder
/// made. The bytes are one record that announces its own length.
pub proof fn lemma_encode_then_decode(cmd: DspCmd)
    requires
        cmd.is_canonical(),
    ensures
        cmd.spec_build().len() > 0,
        cmd.spec_build()[0] != CMD_END,
        announced_len(cmd.spec_build()) == cmd.spec_build().len(),
        record_len(cmd.spec_build()) == cmd.spec_build().len(),
        record_cmds(cmd.spec_build()) == seq![cmd@],
{
    let raw = cmd.spec_build();
    match cmd {
        DspCmd::Monitor(c) => {
            c.lemma_round_trip();
        },
        DspCmd::Input(c) => {
            c.lemma_round_trip();
        },
        DspCmd::Mixer(c) => {
            c.lemma_round_trip();
        },
        DspCmd::Output(c) => {
            c.lemma_round_trip();
        },
        DspCmd::Reverb(c) => {
            c.lemma_round_trip();
        },
        DspCmd::Resource(c) => {
            let usage = c->Usage_0;
            lemma_bytes_then_quadlet(usage.bits);
            assert(raw.subrange(1, 5) =~= usage.spec_to_le_bytes());
        },
        DspCmd::Reserved(data) => {
            assert(data@.subrange(0, data@.len() as int) =~= data@);
        },
    }
}

/// A record of several coefficients stands for as many commands as it
/// holds coefficients, in their order, and the command at place `i` is the
/// one that the coefficient stands for in a record of its own on channel `i`.
pub proof fn lemma_multiple_is_fan_out(raw: Seq<u8>, i: int)
    requires
        raw.len() >= 2,
        raw[0] == CMD_BYTE_MULTIPLE || raw[0] == CMD_QUADLET_MULTIPLE,
        announced_len(raw) <= raw.len(),
        raw[5] <= LAST_LEVEL,
        0 <= i < raw[1],
    ensures
        record_len(raw) == announced_len(raw),
        record_cmds(raw).len() == raw[1],
        record_cmds(raw)[i] == single_cmd(single_of_multiple(raw, i)),
        record_cmds(single_of_multiple(raw, i)) == seq![record_cmds(raw)[i]],
{
    let single = single_of_multiple(raw, i);
    let identifier = raw.subrange(2, 6).update(0, i as u8);
    assert(single_identifier(single) =~= identifier);
    if raw[0] == CMD_BYTE_MULTIPLE {
        assert(single_vals(single) =~= raw.subrange(6 + i * 1, 6 + (i + 1) * 1));
    } else {
        assert(single_vals(single) =~= raw.subrange(6 + i * 4, 6 + (i + 1) * 4));
    }
}

/// The record at the head of a stream depends on the bytes of the record
/// alone: bytes behind a whole record change neither its length nor its
/// commands.
pub proof fn lemma_record_ignores_tail(record: Seq<u8>, tail: Seq<u8>)
    requires
        record.len() > 0,
        record[0] != CMD_END,
        announced_len(record) == record.len(),
    ensures
        announced_len(record + tail) == record.len(),
        record_len(record + tail) == record.len(),
        record_cmds(record + tail) == record_cmds(record),
        (record + tail).skip(record.len() as int) == tail,
{
    let raw = record + tail;
    assert(raw.skip(record.len() as int) =~= tail);
    assert(raw[0] == record[0]);
    if record.len() >= 2 {
        assert(raw[1] == record[1]);
    }
    assert(raw.subrange(0, record.len() as int) =~= record.subrange(0, record.len() as int));
    if record[0] == CMD_RESOURCE {
        assert(raw.subrange(1, 5) =~= record.subrange(1, 5));
        assert(raw[5] == record[5]);
    } else if record[0] == CMD_BYTE_SINGLE || record[0] == CMD_QUADLET_SINGLE {
        assert(single_identifier(raw) =~= single_identifier(record));
        assert(single_vals(raw) =~= single_vals(record));
    } else if record[0] == CMD_BYTE_MULTIPLE || record[0] == CMD_QUADLET_MULTIPLE {
        let width: nat = if record[0] == CMD_BYTE_MULTIPLE {
            1
        } else {
            4
        };
        assert(raw.subrange(2, 6) =~= record.subrange(2, 6));
        assert forall|i: int| 0 <= i < record[1] implies #[trigger] raw.subrange(
            6 + i * width,
            6 + (i + 1) * width,
        ) == record.subrange(6 + i * width, 6 + (i + 1) * width) by {
            assert(raw.subrange(6 + i * width, 6 + (i + 1) * width) =~= record.subrange(
                6 + i * width,
                6 + (i + 1) * width,
            ));
        }
        assert(multiple_cmds(raw, width) =~= multiple_cmds(record, width));
    }
}

/// Decoding goes through a stream record by record: a whole record at the
/// head gives its commands, and the rest of the stream gives the rest.
pub proof fn lemma_decode_stream_step(record: Seq<u8>, tail: Seq<u8>)
    requires
        record.len() > 0,
        record[0] != CMD_END,
        announced_len(record) == record.len(),
    ensures
        decode_stream(record + tail) == record_cmds(record) + decode_stream(tail),
        stream_rest(record + tail) == stream_rest(tail),
{
    lemma_record_ignores_tail(record, tail);
}

/// Canonical commands that are encoded one after the other, each in a
/// record of its own, are decoded as the same commands in the same order,
/// and nothing is left of the stream.
pub proof fn lemma_stream_round_trip(cmds: Seq<DspCmd>)
    requires
        forall|i: int| 0 <= i < cmds.len() ==> (#[trigger] cmds[i]).is_canonical(),
    ensures
        decode_stream(stream_of(cmds)) == cmds_view(cmds),
        stream_rest(stream_of(cmds)).len() == 0,
{
    lemma_stream_round_trip_with_tail(cmds, Seq::empty());
    assert(stream_of(cmds) + Seq::<u8>::empty() =~= stream_of(cmds));
    assert(cmds_view(cmds) + Seq::<DspCmdView>::empty() =~= cmds_view(cmds));
}

/// The commands of a stream that begins with the records of canonical
/// commands are these commands, followed by those of what comes behind.
pub proof fn lemma_stream_round_trip_with_tail(cmds: Seq<DspCmd>, tail: Seq<u8>)
    requires
        forall|i: int| 0 <= i < cmds.len() ==> (#[trigger] cmds[i]).is_canonical(),
    ensures
        decode_stream(stream_of(cmds) + tail) == cmds_view(cmds) + decode_stream(tail),
        stream_rest(stream_of(cmds) + tail) == stream_rest(tail),
    decreases cmds.len(),
{
    if cmds.len() == 0 {
        assert(stream_of(cmds) + tail =~= tail);
        assert(cmds_view(cmds) + decode_stream(tail) =~= decode_stream(tail));
    } else {
        let front = cmds.drop_last();
        let last = cmds.last();
        let record = last.spec_build();
        assert(last.is_canonical());
        lemma_encode_then_decode(last);
        lemma_decode_stream_step(record, tail);
        assert forall|i: int| 0 <= i < front.len() implies (#[trigger] front[i]).is_canonical() by {
            assert(front[i] == cmds[i]);
        }
        lemma_stream_round_trip_with_tail(front, record + tail);
        assert(stream_of(cmds) + tail =~= stream_of(front) + (record + tail));
        assert(cmds_view(cmds) =~= cmds_view(front).push(last@));
        assert(cmds_view(cmds) + decode_stream(tail) =~= cmds_view(front) + (seq![last@]
            + decode_stream(tail)));
    }
}

} // verus!

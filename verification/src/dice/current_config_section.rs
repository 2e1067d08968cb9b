//! Current configuration section in protocol extension defined by TCAT for ASICs of DICE.
//!
//! The section holds, for each mode of sampling rate, the entries of the
//! router and the formats of the streams that are in use.

use vstd::prelude::*;
use super::RateMode;

verus! {

pub const LOW_ROUTER_CONFIG_OFFSET: usize = 0x0000;

pub const LOW_STREAM_CONFIG_OFFSET: usize = 0x1000;

pub const MID_ROUTER_CONFIG_OFFSET: usize = 0x2000;

pub const MID_STREAM_CONFIG_OFFSET: usize = 0x3000;

pub const HIGH_ROUTER_CONFIG_OFFSET: usize = 0x4000;

pub const HIGH_STREAM_CONFIG_OFFSET: usize = 0x5000;

/// The structure of protocol implementation of current configuration section.
#[derive(Debug)]
pub struct CurrentConfigSectionProtocol;

impl Default for CurrentConfigSectionProtocol {
    fn default() -> Self {
        CurrentConfigSectionProtocol
    }
}

/// Offset of the configuration of the router for a mode of sampling rate.
pub open spec fn spec_router_config_offset(mode: RateMode) -> usize {
    match mode {
        RateMode::Low => LOW_ROUTER_CONFIG_OFFSET,
        RateMode::Middle => MID_ROUTER_CONFIG_OFFSET,
        RateMode::High => HIGH_ROUTER_CONFIG_OFFSET,
    }
}

/// Offset of the configuration of the streams for a mode of sampling rate.
pub open spec fn spec_stream_config_offset(mode: RateMode) -> usize {
    match mode {
        RateMode::Low => LOW_STREAM_CONFIG_OFFSET,
        RateMode::Middle => MID_STREAM_CONFIG_OFFSET,
        RateMode::High => HIGH_STREAM_CONFIG_OFFSET,
    }
}

impl CurrentConfigSectionProtocol {
    /// The offset in the section of the count of the router entries for a
    /// mode of sampling rate.
    pub fn router_config_offset(mode: RateMode) -> (offset: usize)
        ensures
            offset == spec_router_config_offset(mode),
    {
        match mode {
            RateMode::Low => LOW_ROUTER_CONFIG_OFFSET,
            RateMode::Middle => MID_ROUTER_CONFIG_OFFSET,
            RateMode::High => HIGH_ROUTER_CONFIG_OFFSET,
        }
    }

    /// Where the router entries in use for a mode of sampling rate are read
    /// and how many of them: behind the quadlet `count` that holds their
    /// count, and at most as many as the router has.
    pub fn read_current_router_entries(mode: RateMode, count: u32, maximum_entry_count: u16) -> (result:
        (usize, usize))
        ensures
            result.0 == spec_router_config_offset(mode) + 4,
            result.1 == (if count < maximum_entry_count {
                count as int
            } else {
                maximum_entry_count as int
            }),
    {
        let entry_count = if count < maximum_entry_count as u32 {
            count as usize
        } else {
            maximum_entry_count as usize
        };
        (Self::router_config_offset(mode) + 4, entry_count)
    }

    /// The offset in the section at which the formats of the streams in use
    /// for a mode of sampling rate are read.
    pub fn read_current_stream_format_entries(mode: RateMode) -> (offset: usize)
        ensures
            offset == spec_stream_config_offset(mode),
    {
        match mode {
            RateMode::Low => LOW_STREAM_CONFIG_OFFSET,
            RateMode::Middle => MID_STREAM_CONFIG_OFFSET,
            RateMode::High => HIGH_STREAM_CONFIG_OFFSET,
        }
    }
}

} // verus!

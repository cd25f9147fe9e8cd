//! The in-memory record of one parsed seismograph file.
//!
//! A record carries four metadata strings captured verbatim from marker
//! lines, an identifier used for naming output artifacts, and three
//! acceleration channels of equal length, one per axis. Each sample is the
//! bit pattern of an IEEE-754 double (see `fp`).

use vstd::prelude::*;

verus! {

/// One parsed seismograph file: metadata plus the three axis acceleration
/// channels.
#[derive(Debug)]
pub struct ParseData {
    /// Identifier derived from the source name; used only for output naming.
    pub file_name: String,
    /// The marker line naming the site, kept verbatim.
    pub title: String,
    /// The marker line naming the sampling rate, kept verbatim.
    pub rate: String,
    /// The marker line naming the unit, kept verbatim.
    pub unit: String,
    /// The marker line naming the initial time, kept verbatim.
    pub time: String,
    /// North-south acceleration samples, as double bit patterns.
    pub ns_acc: Vec<u64>,
    /// East-west acceleration samples, as double bit patterns.
    pub ew_acc: Vec<u64>,
    /// Up-down acceleration samples, as double bit patterns.
    pub ud_acc: Vec<u64>,
}

impl ParseData {
    /// The three axis channels are aligned: they hold one sample per instant.
    pub open spec fn well_formed(&self) -> bool {
        self.ns_acc@.len() == self.ew_acc@.len() && self.ns_acc@.len() == self.ud_acc@.len()
    }
}

/// The enriched record: the parsed record plus the six derived channels,
/// aligned index for index with the acceleration channels.
#[derive(Debug)]
pub struct PlotData {
    /// Identifier derived from the source name; used only for output naming.
    pub file_name: String,
    /// The marker line naming the site, kept verbatim.
    pub title: String,
    /// The marker line naming the sampling rate, kept verbatim.
    pub rate: String,
    /// The marker line naming the unit, kept verbatim.
    pub unit: String,
    /// The marker line naming the initial time, kept verbatim.
    pub time: String,
    /// North-south acceleration samples, as double bit patterns.
    pub ns_acc: Vec<u64>,
    /// East-west acceleration samples, as double bit patterns.
    pub ew_acc: Vec<u64>,
    /// Up-down acceleration samples, as double bit patterns.
    pub ud_acc: Vec<u64>,
    /// North-south velocity samples derived from `ns_acc`.
    pub ns_vel: Vec<u64>,
    /// East-west velocity samples derived from `ew_acc`.
    pub ew_vel: Vec<u64>,
    /// Up-down velocity samples derived from `ud_acc`.
    pub ud_vel: Vec<u64>,
    /// North-south displacement samples derived from `ns_vel`.
    pub ns_dist: Vec<u64>,
    /// East-west displacement samples derived from `ew_vel`.
    pub ew_dist: Vec<u64>,
    /// Up-down displacement samples derived from `ud_vel`.
    pub ud_dist: Vec<u64>,
}

impl PlotData {
    /// All nine channels hold one sample per instant.
    pub open spec fn well_formed(&self) -> bool {
        &&& self.ns_acc@.len() == self.ew_acc@.len()
        &&& self.ns_acc@.len() == self.ud_acc@.len()
        &&& self.ns_acc@.len() == self.ns_vel@.len()
        &&& self.ns_acc@.len() == self.ew_vel@.len()
        &&& self.ns_acc@.len() == self.ud_vel@.len()
        &&& self.ns_acc@.len() == self.ns_dist@.len()
        &&& self.ns_acc@.len() == self.ew_dist@.len()
        &&& self.ns_acc@.len() == self.ud_dist@.len()
    }
}

} // verus!

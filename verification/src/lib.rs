//! Decision logic of the CCExtractor command-line driver: how a run is set up
//! from the parsed options, what each input stream mode asks of the processing
//! loop, how the per-decoder end-of-run summary is computed, and which exit
//! status the run ends with.

pub mod arith;
pub mod teletext;
pub mod session;
pub mod timing;
pub mod report;
pub mod startup;

//! A verified indexing and record-translation engine for directory-based
//! mass-spectrometry acquisition runs.
//!
//! An acquisition run stores its data split across independent acquisition
//! functions (scan channels), each with its own scan count and optional
//! ion-mobility sub-structure.  This crate builds a single globally
//! time-ordered index over all usable scans, expands cycles into individual
//! spectra where drift sub-scans exist, merges per-function chromatogram
//! series into one monotonic series, and translates raw per-scan key/value
//! attributes into structured records.
//!
//! The vendor driver itself is an external collaborator: this library works
//! on plain-value models of what that driver reports.  Acquisition times are
//! carried as integer ticks under any order-preserving encoding chosen by the
//! caller, and raw signal samples are carried as opaque 32-bit words, so the
//! indexing logic never depends on floating-point arithmetic.

pub mod base;
pub mod constants;
pub mod laws;
pub mod merge;
pub mod paths;
pub mod reader;
pub mod text;
pub mod translate;

pub use base::{
    MassLynxAnalogReader, MassLynxChromatogramReader, MassLynxError, MassLynxInfoReader,
    MassLynxLockMassProcessor, MassLynxParameters, MassLynxResult, MassLynxScanReader,
};

pub use constants::{
    AcquisitionParameter,
    AnalogParameter,
    AnalogTraceType,
    CentroidParameter,
    DDAIsolationWindowParameter,
    MassLynxHeaderItem,
    MassLynxIonMode,
    MassLynxScanItem,
};

//! Integer and structural core of a paulstretch-style audio time stretcher.
//!
//! The library holds the parts of the transform that are exact: window-size
//! derivation, the control state machine that drives the stretch loop, the
//! overlap-add index structure, and the sample-container bookkeeping
//! (channel interleaving and integer sample scales). The floating-point
//! signal path (FFT, windowing, phase randomization) lives in the
//! surrounding application, which consults this library for every
//! structural decision.

pub mod stretch;
pub mod wav_helper;

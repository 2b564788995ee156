//! Identification of the host CPU architecture as a closed enumeration, and
//! conversion between that enumeration and its canonical textual form.

pub mod arch;
pub mod laws;
pub mod text;

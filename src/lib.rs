//! Complex integer pairs for signal-processing storage.
//!
//! `CInt16` holds a complex number as two 16-bit integers (four bytes) and
//! `CInt32` as two 32-bit integers (eight bytes, aligned to eight). Both are
//! plain copyable values with field-wise equality and zero as their default.

mod complex_int;

pub use complex_int::{lemma_eq_cint16, lemma_eq_cint32, CInt16, CInt32};

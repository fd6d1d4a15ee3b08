use vstd::prelude::*;
use vstd::std_specs::cmp::PartialEqSpec;

verus! {

/// Complex number with 16-bit integer components.
///
/// A value occupies four bytes, two for each component.
#[derive(Clone, Copy, Debug)]
pub struct CInt16 {
    /// Real component of the complex number
    pub re: i16,
    /// Imaginary component of the complex number
    pub im: i16,
}

/// Complex number with 32-bit integer components.
///
/// A value occupies eight bytes, four for each component.
/// Its alignment is raised to eight bytes so that arrays of it suit batch
/// access.
#[derive(Clone, Copy, Debug)]
pub struct CInt32 {
    /// Real component of the complex number
    pub re: i32,
    /// Imaginary component of the complex number
    pub im: i32,
    /// Zero-sized: it adds no bytes and raises the struct's alignment to
    /// that of `u64`. Its only value is `[]`.
    pub align: [u64; 0],
}

impl CInt16 {
    /// Builds the complex number `re + im·i`.
    pub fn new(re: i16, im: i16) -> (r: Self)
        ensures
            r.re == re,
            r.im == im,
    {
        Self { re, im }
    }
}

impl CInt32 {
    /// Builds the complex number `re + im·i`.
    pub fn new(re: i32, im: i32) -> (r: Self)
        ensures
            r.re == re,
            r.im == im,
    {
        Self { re, im, align: [] }
    }
}

impl Default for CInt16 {
    /// The complex number zero.
    fn default() -> (r: Self)
        ensures
            r.re == 0,
            r.im == 0,
    {
        Self::new(0, 0)
    }
}

impl Default for CInt32 {
    /// The complex number zero.
    fn default() -> (r: Self)
        ensures
            r.re == 0,
            r.im == 0,
    {
        Self::new(0, 0)
    }
}

impl PartialEq for CInt16 {
    /// Equal exactly when both components are equal.
    fn eq(&self, other: &Self) -> (r: bool) {
        self.re == other.re && self.im == other.im
    }
}

impl vstd::std_specs::cmp::PartialEqSpecImpl for CInt16 {
    open spec fn obeys_eq_spec() -> bool {
        true
    }

    open spec fn eq_spec(&self, other: &Self) -> bool {
        self.re == other.re && self.im == other.im
    }
}

impl Eq for CInt16 {

}

impl PartialEq for CInt32 {
    /// Equal exactly when both components are equal.
    fn eq(&self, other: &Self) -> (r: bool) {
        self.re == other.re && self.im == other.im
    }
}

impl vstd::std_specs::cmp::PartialEqSpecImpl for CInt32 {
    open spec fn obeys_eq_spec() -> bool {
        true
    }

    open spec fn eq_spec(&self, other: &Self) -> bool {
        self.re == other.re && self.im == other.im
    }
}

impl Eq for CInt32 {

}

/// Equality of `CInt16` is reflexive, symmetric and transitive, and two
/// values are equal exactly when their real parts are equal and their
/// imaginary parts are equal.
pub proof fn lemma_eq_cint16(a: CInt16, b: CInt16, c: CInt16)
    ensures
        a.eq_spec(&a),
        a.eq_spec(&b) == b.eq_spec(&a),
        a.eq_spec(&b) && b.eq_spec(&c) ==> a.eq_spec(&c),
        a.eq_spec(&b) <==> (a.re == b.re && a.im == b.im),
{
}

/// Equality of `CInt32` is reflexive, symmetric and transitive, and two
/// values are equal exactly when their real parts are equal and their
/// imaginary parts are equal.
pub proof fn lemma_eq_cint32(a: CInt32, b: CInt32, c: CInt32)
    ensures
        a.eq_spec(&a),
        a.eq_spec(&b) == b.eq_spec(&a),
        a.eq_spec(&b) && b.eq_spec(&c) ==> a.eq_spec(&c),
        a.eq_spec(&b) <==> (a.re == b.re && a.im == b.im),
{
}

} // verus!

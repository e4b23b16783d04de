use vstd::prelude::*;

verus! {

/// Why a star could not be laid out.
#[derive(Clone, Copy, Debug, PartialEq, Eq, Structural)]
pub enum StarError {
    /// The spoke count gives no usable chord between two outer vertices from
    /// which to read an inner radius.
    DegenerateGeometry,
    /// The palette for the wedges holds no color.
    InvalidConfiguration,
}

} // verus!

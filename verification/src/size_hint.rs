use vstd::prelude::*;

verus! {

/// How the size given to `set_size` constrains the native window.
#[derive(Debug, Copy, Clone, PartialEq, Eq, Structural, PartialOrd, Ord)]
pub enum SizeHint {
    /// Width and height are the default size.
    NoHint,
    /// Width and height are the minimum size.
    Min,
    /// Width and height are the maximum size.
    Max,
    /// The window cannot be resized by the user.
    Fixed,
}

impl SizeHint {
    /// The integer that the native library takes for this hint.
    pub open spec fn spec_code(self) -> i32 {
        match self {
            SizeHint::NoHint => 0,
            SizeHint::Min => 1,
            SizeHint::Max => 2,
            SizeHint::Fixed => 3,
        }
    }

    /// The integer that the native library takes for this hint.
    #[verifier::when_used_as_spec(spec_code)]
    pub fn code(self) -> (c: i32)
        ensures
            c == self.spec_code(),
    {
        match self {
            SizeHint::NoHint => 0,
            SizeHint::Min => 1,
            SizeHint::Max => 2,
            SizeHint::Fixed => 3,
        }
    }
}

} // verus!

use vstd::prelude::*;

verus! {

/// Every way in which binding generation for one shader pair can fail.
#[derive(Debug, Clone, PartialEq, Eq)]
pub enum GenError {
    /// A uniform or attribute has a GL type outside the supported set.
    UnsupportedType(u32),
    /// A uniform or attribute is an array (`size` other than 1).
    UnsupportedSize { size: i32, name: String },
    /// A vertex shader (the path given) has no fragment shader beside it.
    MissingFragment(String),
    /// A fragment shader (the path given) has no vertex shader beside it.
    MissingVertex(String),
    /// A pair that holds neither shader.
    EmptyPair,
    /// An optional value was absent.
    MissingValue,
}

/// Turns an absent optional value into `GenError::MissingValue`.
pub trait OptErr<T>: Sized {
    spec fn as_option(&self) -> Option<T>;

    fn ok(self) -> (r: Result<T, GenError>)
        ensures
            match self.as_option() {
                Some(v) => r == Ok::<T, GenError>(v),
                None => r == Err::<T, GenError>(GenError::MissingValue),
            },
    ;
}

impl<T> OptErr<T> for Option<T> {
    open spec fn as_option(&self) -> Option<T> {
        *self
    }

    fn ok(self) -> (r: Result<T, GenError>) {
        match self {
            Some(v) => Ok(v),
            None => Err(GenError::MissingValue),
        }
    }
}

} // verus!

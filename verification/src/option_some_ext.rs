use vstd::prelude::*;

verus! {

/// A source position, handed in by the caller of [`OptionSomeExt::some`] so
/// that an absence failure can say where it was raised.
#[derive(Clone, Debug, PartialEq, Eq)]
pub struct CallSite {
    pub file: String,
    pub line: u32,
    pub column: u32,
}

/// The error type if [`OptionSomeExt::some`] is called on an absent value.
///
/// It always carries the call site of the offending invocation, so that
/// otherwise indistinguishable absence failures can be told apart.
#[derive(Clone, Debug, PartialEq, Eq)]
pub struct NoneError {
    pub location: CallSite,
}

impl NoneError {
    /// The call site recorded when the error was raised.
    pub fn location(&self) -> (r: &CallSite)
        ensures
            *r == self.location,
    {
        &self.location
    }
}

/// An extension trait that converts an optional value into
/// `Result<Item, NoneError>` by calling `opt.some(site)`.
///
/// On a present value the inner value comes back unchanged as `Ok`; on an
/// absent one the given call site comes back inside the `Err`.
pub trait OptionSomeExt: Sized {
    type Item;

    /// The presence/absence content of the value, as seen by the contract of
    /// [`OptionSomeExt::some`].
    spec fn as_option(self) -> Option<Self::Item>;

    fn some(self, site: CallSite) -> (r: Result<Self::Item, NoneError>)
        ensures
            (match self.as_option() {
                Some(v) => r == Result::<Self::Item, NoneError>::Ok(v),
                None => (r matches Err(e) && e.location == site),
            }),
    ;
}

impl<T> OptionSomeExt for Option<T> {
    type Item = T;

    open spec fn as_option(self) -> Option<T> {
        self
    }

    fn some(self, site: CallSite) -> (r: Result<T, NoneError>) {
        match self {
            Some(val) => Ok(val),
            None => Err(NoneError { location: site }),
        }
    }
}

} // verus!

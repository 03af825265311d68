//! Two small, independent facilities over generic value types:
//!
//! * [`OptionSomeExt`]: turn an optional value into a `Result`, recording the
//!   call site that asked for a value which was absent.
//! * [`OrdAssign`]: in-place variants of minimum, maximum and clamp over any
//!   type that supplies a total order through [`TotalOrder`].

pub mod option_some_ext;
pub mod ord_assign;

pub use option_some_ext::CallSite;
pub use option_some_ext::NoneError;
pub use option_some_ext::OptionSomeExt;
pub use ord_assign::OrdAssign;
pub use ord_assign::TotalOrder;

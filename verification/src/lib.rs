//! Fixed-capacity vectors over a store of slots.
//!
//! A [`GenericVec`] couples a container of slots with a length counter. The
//! slots below the length are occupied, each by one item; the slots from the
//! length up to the capacity are empty. Every operation is stated over the
//! run of items that the occupied slots hold, the view of the vector, and
//! keeps that invariant, `wf`.
//!
//! The container and the counter are parameters: [`traits::Container`] has
//! arrays and borrowed slices of slots, [`traits::Slot`] has `Option<T>` and
//! the plain byte, and [`traits::Length`] has the unsigned integers up to
//! `usize`. [`StaticVec`] is the vector over an array of optional items,
//! [`GenericString`] the UTF-8 string over a vector of bytes, and
//! [`IntoIter`] hands out the items of a vector by value.
//!
//! A slot gives its item away only as a whole, so the views of the items,
//! `as_slice` and `as_mut_slice`, are vectors of references to them.

mod bulk;
pub mod cmp;
mod default;
pub mod error;
mod generic;
pub mod iter;
pub mod model;
mod static_;
pub mod string;
pub mod traits;
mod utils;
mod views;

pub use generic::GenericVec;
pub use iter::IntoIter;
pub use static_::StaticVec;
pub use string::GenericString;
pub use utils::uninit_write_slice_cloned;

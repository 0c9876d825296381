//! Common imports for working with contexts and builders.

pub use crate::context::{Context, MainContext, SubContext};
pub use crate::entry::Entry;
pub use crate::store::Store;
pub use crate::{ctx, Builder, NamedBuilder};

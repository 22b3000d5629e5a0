//! Additions to the standard library's api, offered as extension traits.

use vstd::prelude::*;

pub mod time;
pub mod tuple;
pub mod option;
pub mod result;
pub mod unwrap;
pub mod vec;

//! String identifiers for Taiko hard forks.

use vstd::prelude::*;

verus! {

pub const KATLA: &'static str = "Katla";

pub const HEKLA: &'static str = "Hekla";

pub const ONTAKE: &'static str = "Ontake";

pub const PACAYA: &'static str = "Pacaya";

} // verus!

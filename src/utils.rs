use vstd::prelude::*;

pub mod db_version;
pub mod string;

verus! {

} // verus!

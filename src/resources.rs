//! Where the firmware's data files live.
use vstd::prelude::*;
use vstd::string::StringExecFns;

verus! {

pub const DATA_PATH: &'static str = "/opt/firmware/data";

/// The path of a data file given relative to the data directory.
pub fn GetFullDataPath(relPath: &str) -> (r: String)
    ensures
        r@ == DATA_PATH@ + "/"@ + relPath@,
{
    String::from_str(DATA_PATH).concat("/").concat(relPath)
}

} // verus!

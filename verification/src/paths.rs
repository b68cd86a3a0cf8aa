//! The portable config file sits next to the executable and is named after
//! it: `termul.exe` keeps its settings in `termul.config`.

use vstd::prelude::*;
use vstd::string::*;

verus! {

/// The file name of the config that belongs to the executable named `stem`
/// (its file name without extension): the stem followed by ".config".
pub fn config_file_name(stem: &str) -> (name: String)
    ensures
        name@ == stem@ + ".config"@,
{
    let mut name = String::from_str(stem);
    name.append(".config");
    name
}

} // verus!

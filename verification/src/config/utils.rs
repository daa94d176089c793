//! Where the configuration file lives.

use vstd::prelude::*;
use crate::pathops::{home_dir, joined, path_join};

verus! {

/// The configuration path for a home directory: `.r_tvui/.config.toml`
/// under it, or `.config.toml` in the working directory without one.
pub open spec fn config_path_for(home: Option<Seq<char>>) -> Seq<char> {
    match home {
        Some(h) => joined(h, ".r_tvui/.config.toml"@),
        None => ".config.toml"@,
    }
}

/// The configuration path for the given home directory.
pub fn config_path_from_home(home: Option<String>) -> (r: String)
    ensures
        r@ == config_path_for(
            match home {
                Some(h) => Some(h@),
                None => None,
            },
        ),
{
    match home {
        Some(h) => path_join(h.as_str(), ".r_tvui/.config.toml"),
        None => String::from_str(".config.toml"),
    }
}

/// The configuration path for the current user's home directory.
pub fn get_config_path() -> (r: String)
    ensures
        exists|home: Option<Seq<char>>| r@ == config_path_for(home),
{
    let home = home_dir();
    let r = config_path_from_home(home);
    r
}

} // verus!

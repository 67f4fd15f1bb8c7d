//! Where the show-history trigger file and socket live under the runtime directory.

use vstd::prelude::*;

use crate::persistence::{join_path, path_join};

verus! {

pub const DIR_NAME: &'static str = "cosmic-paste";

pub const FILE_NAME: &'static str = "show-history";

pub const SOCKET_NAME: &'static str = "show-history.sock";

/// Path watched by the panel applet (`<runtime dir>/cosmic-paste/show-history`), given
/// the runtime directory (`XDG_RUNTIME_DIR`) if there is one.
pub fn trigger_path(runtime_dir: Option<&str>) -> (r: Option<String>)
    ensures
        match runtime_dir {
            Some(d) => r matches Some(p) && p@ == path_join(path_join(d@, DIR_NAME@), FILE_NAME@),
            None => r is None,
        },
{
    match runtime_dir {
        Some(d) => {
            let dir = join_path(d, DIR_NAME);
            Some(join_path(dir.as_str(), FILE_NAME))
        },
        None => None,
    }
}

/// Datagram socket for instant delivery (`<runtime dir>/cosmic-paste/show-history.sock`).
pub fn socket_path(runtime_dir: Option<&str>) -> (r: Option<String>)
    ensures
        match runtime_dir {
            Some(d) => r matches Some(p) && p@ == path_join(path_join(d@, DIR_NAME@), SOCKET_NAME@),
            None => r is None,
        },
{
    match runtime_dir {
        Some(d) => {
            let dir = join_path(d, DIR_NAME);
            Some(join_path(dir.as_str(), SOCKET_NAME))
        },
        None => None,
    }
}

} // verus!

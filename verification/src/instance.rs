//! Where the runtime library is looked for.

use vstd::prelude::*;

verus! {

/// The path of the runtime library when a copy of it lies in the working
/// directory.
pub open spec fn local_library_path() -> Seq<char> {
    "./libndi.so"@
}

/// The name of the runtime library, left to the system's own search.
pub open spec fn system_library_name() -> Seq<char> {
    "libndi.so"@
}

/// The path that `library_path` picks.
pub open spec fn spec_library_path(
    custom_path: Option<Seq<char>>,
    local_exists: bool,
    runtime_path: Option<Seq<char>>,
) -> Seq<char> {
    match custom_path {
        Some(path) => path,
        None => if local_exists {
            local_library_path()
        } else {
            match runtime_path {
                Some(path) => path,
                None => system_library_name(),
            }
        },
    }
}

/// Picks the path from which the runtime library is loaded.
///
/// The order is: the path that the caller asks for; the copy in the working
/// directory, when `local_exists` says there is one; the copy in the directory
/// where the runtime is installed, whose path is `runtime_path` when that
/// directory is known and holds one; and last the bare name of the library,
/// for the system to find.
pub fn library_path(
    custom_path: Option<String>,
    local_exists: bool,
    runtime_path: Option<String>,
) -> (path: String)
    ensures
        path@ == spec_library_path(
            match custom_path {
                Some(p) => Some(p@),
                None => None,
            },
            local_exists,
            match runtime_path {
                Some(p) => Some(p@),
                None => None,
            },
        ),
{
    match custom_path {
        Some(path) => path,
        None => {
            if local_exists {
                "./libndi.so".to_owned()
            } else {
                match runtime_path {
                    Some(path) => path,
                    None => "libndi.so".to_owned(),
                }
            }
        },
    }
}

} // verus!

//! Paths of key files.

use vstd::prelude::*;
use vstd::string::{StrSliceExecFns, StringExecFns};

verus! {

/// Why a path could not be expanded.
#[derive(Clone, Copy, Debug, PartialEq, Eq, Structural)]
pub enum PathError {
    /// The path starts at the home directory, and there is none.
    HomeNotSet,
}

/// A path with a leading `~` replaced by the home directory; any other
/// path as it is. A leading `~` without a home directory is an error.
pub open spec fn expanded(path: Seq<char>, home: Option<Seq<char>>) -> Result<Seq<char>, PathError> {
    if path.len() > 0 && path[0] == '~' {
        match home {
            None => Err(PathError::HomeNotSet),
            Some(directory) => Ok(directory + path.subrange(1, path.len() as int)),
        }
    } else {
        Ok(path)
    }
}

/// Expands a leading `~` of a path to the home directory.
pub fn expand_home(path: &str, home: Option<&str>) -> (full: Result<String, PathError>)
    ensures
        match full {
            Ok(text) => expanded(path@, option_text(home)) == Ok::<Seq<char>, PathError>(text@),
            Err(e) => expanded(path@, option_text(home)) == Err::<Seq<char>, PathError>(e),
        },
{
    let length = path.unicode_len();
    if length > 0 && path.get_char(0) == '~' {
        match home {
            None => Err(PathError::HomeNotSet),
            Some(directory) => {
                let rest = path.substring_char(1, length);
                Ok(String::from_str(directory).concat(rest))
            },
        }
    } else {
        Ok(String::from_str(path))
    }
}

/// The characters of an optional text.
pub open spec fn option_text(text: Option<&str>) -> Option<Seq<char>> {
    match text {
        Some(t) => Some(t@),
        None => None,
    }
}

} // verus!

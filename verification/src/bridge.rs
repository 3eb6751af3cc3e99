//! Decisions taken around the decoder: which paths may be handed to it,
//! where its configuration lies, and what its answers mean.
//!
//! The decoder itself is reached by the caller. What goes in is checked
//! here first, and what comes out is turned into a result here.

use vstd::prelude::*;
use vstd::string::{StringExecFns, StringSliceAdditionalSpecFns};
use crate::error::AsterixError;
use crate::scan::starts_with;
use crate::text::chars_of;

verus! {

/// Most bytes in a path that is handed to the decoder.
pub const MAX_PATH_LEN: usize = 4096;

/// Why a path is not handed to the decoder.
#[derive(Debug, Clone, Copy, PartialEq, Eq, Structural)]
pub enum PathFault {
    /// The path is empty.
    Empty,
    /// The path begins by leaving the directory it starts in.
    Traversal,
    /// The path is longer than `MAX_PATH_LEN` bytes.
    TooLong,
}

/// Whether a path begins with `../` or `..\`, or is `..` itself.
pub open spec fn spec_traversal(path: Seq<char>) -> bool {
    ||| seq!['.', '.', '/'].is_prefix_of(path)
    ||| seq!['.', '.', '\\'].is_prefix_of(path)
    ||| path == seq!['.', '.']
}

/// The first fault of a path, if it has one: emptiness comes before
/// traversal, traversal before length.
pub open spec fn spec_path_fault(path: &str) -> Option<PathFault> {
    if path@.len() == 0 {
        Some(PathFault::Empty)
    } else if spec_traversal(path@) {
        Some(PathFault::Traversal)
    } else if path.spec_bytes().len() as usize > MAX_PATH_LEN {
        Some(PathFault::TooLong)
    } else {
        None
    }
}

/// Finds the first fault of a path, if it has one.
pub fn path_fault(path: &str) -> (fault: Option<PathFault>)
    ensures
        fault == spec_path_fault(path),
{
    if path.is_empty() {
        return Some(PathFault::Empty);
    }
    let chars = chars_of(path);
    let up_slash: [char; 3] = ['.', '.', '/'];
    let up_backslash: [char; 3] = ['.', '.', '\\'];
    let up: [char; 2] = ['.', '.'];
    assert(up_slash@ =~= seq!['.', '.', '/']);
    assert(up_backslash@ =~= seq!['.', '.', '\\']);
    assert(up@ =~= seq!['.', '.']);
    let is_up = chars.len() == 2 && starts_with(chars.as_slice(), up.as_slice());
    assert(is_up <==> path@ == seq!['.', '.']) by {
        if is_up {
            assert(path@ =~= seq!['.', '.']);
        }
    }
    if starts_with(chars.as_slice(), up_slash.as_slice()) || starts_with(
        chars.as_slice(),
        up_backslash.as_slice(),
    ) || is_up {
        return Some(PathFault::Traversal);
    }
    if path.len() > MAX_PATH_LEN {
        return Some(PathFault::TooLong);
    }
    None
}

/// What a configuration directory with the given fault is refused with.
pub open spec fn spec_dir_fault_text(fault: PathFault) -> Seq<char> {
    match fault {
        PathFault::Empty => "Directory path cannot be empty"@,
        PathFault::Traversal => "Invalid directory path: path traversal detected (..)"@,
        PathFault::TooLong => "Directory path too long (maximum 4096 characters)"@,
    }
}

/// What a category file with the given fault is refused with.
pub open spec fn spec_file_fault_text(fault: PathFault) -> Seq<char> {
    match fault {
        PathFault::Empty => "Filename cannot be empty"@,
        PathFault::Traversal => "Invalid filename: path traversal detected (..)"@,
        PathFault::TooLong => "Filename too long (maximum 4096 characters)"@,
    }
}

/// Checks a configuration directory before the decoder is initialised from
/// it. A path with a fault is invalid data.
pub fn check_config_dir(config_dir: &str) -> (checked: Result<(), AsterixError>)
    ensures
        match checked {
            Ok(_) => spec_path_fault(config_dir).is_none(),
            Err(AsterixError::InvalidData(text)) => spec_path_fault(config_dir) matches Some(fault)
                && text@ == spec_dir_fault_text(fault),
            Err(_) => false,
        },
{
    match path_fault(config_dir) {
        None => Ok(()),
        Some(PathFault::Empty) => Err(
            AsterixError::InvalidData(String::from_str("Directory path cannot be empty")),
        ),
        Some(PathFault::Traversal) => Err(
            AsterixError::InvalidData(
                String::from_str("Invalid directory path: path traversal detected (..)"),
            ),
        ),
        Some(PathFault::TooLong) => Err(
            AsterixError::InvalidData(
                String::from_str("Directory path too long (maximum 4096 characters)"),
            ),
        ),
    }
}

/// Checks the path of a category definition file before the decoder loads
/// it. A path with a fault is invalid data.
pub fn check_category_file(xml_path: &str) -> (checked: Result<(), AsterixError>)
    ensures
        match checked {
            Ok(_) => spec_path_fault(xml_path).is_none(),
            Err(AsterixError::InvalidData(text)) => spec_path_fault(xml_path) matches Some(fault)
                && text@ == spec_file_fault_text(fault),
            Err(_) => false,
        },
{
    match path_fault(xml_path) {
        None => Ok(()),
        Some(PathFault::Empty) => Err(
            AsterixError::InvalidData(String::from_str("Filename cannot be empty")),
        ),
        Some(PathFault::Traversal) => Err(
            AsterixError::InvalidData(
                String::from_str("Invalid filename: path traversal detected (..)"),
            ),
        ),
        Some(PathFault::TooLong) => Err(
            AsterixError::InvalidData(
                String::from_str("Filename too long (maximum 4096 characters)"),
            ),
        ),
    }
}

/// What the decoder's answer to initialisation from `config_dir` means.
pub fn init_outcome(config_dir: &str, initialised: bool) -> (outcome: Result<(), AsterixError>)
    ensures
        match outcome {
            Ok(_) => initialised,
            Err(AsterixError::InitializationError(text)) => !initialised && text@
                == "Failed to initialize ASTERIX with config dir: "@ + config_dir@,
            Err(_) => false,
        },
{
    if initialised {
        Ok(())
    } else {
        Err(
            AsterixError::InitializationError(
                String::from_str("Failed to initialize ASTERIX with config dir: ").concat(
                    config_dir,
                ),
            ),
        )
    }
}

/// What the decoder's answer to loading the category file `xml_path` means.
pub fn load_outcome(xml_path: &str, loaded: bool) -> (outcome: Result<(), AsterixError>)
    ensures
        match outcome {
            Ok(_) => loaded,
            Err(AsterixError::InitializationError(text)) => !loaded && text@
                == "Failed to load category file: "@ + xml_path@,
            Err(_) => false,
        },
{
    if loaded {
        Ok(())
    } else {
        Err(
            AsterixError::InitializationError(
                String::from_str("Failed to load category file: ").concat(xml_path),
            ),
        )
    }
}

/// Checks the category of a description request: category 0 does not exist.
pub fn check_describe(category: u8) -> (checked: Result<(), AsterixError>)
    ensures
        match checked {
            Ok(_) => category != 0,
            Err(AsterixError::InvalidData(text)) => category == 0 && text@
                == "Invalid ASTERIX category: 0 (valid range: 1-255)"@,
            Err(_) => false,
        },
{
    if category == 0 {
        Err(
            AsterixError::InvalidData(
                String::from_str("Invalid ASTERIX category: 0 (valid range: 1-255)"),
            ),
        )
    } else {
        Ok(())
    }
}

/// What the decoder's answer to a description request means: no answer is
/// an internal error.
pub fn describe_outcome(description: Option<String>) -> (outcome: Result<String, AsterixError>)
    ensures
        match outcome {
            Ok(text) => description == Some(text),
            Err(AsterixError::InternalError(text)) => description.is_none() && text@
                == "Failed to get description"@,
            Err(_) => false,
        },
{
    match description {
        Some(text) => Ok(text),
        None => Err(AsterixError::InternalError(String::from_str("Failed to get description"))),
    }
}

/// What a text handed over by the decoder means: none is a null reference.
pub fn text_outcome(text: Option<String>) -> (outcome: Result<String, AsterixError>)
    ensures
        match outcome {
            Ok(found) => text == Some(found),
            Err(AsterixError::NullPointer(message)) => text.is_none() && message@
                == "Got null string from C++"@,
            Err(_) => false,
        },
{
    match text {
        Some(found) => Ok(found),
        None => Err(AsterixError::NullPointer(String::from_str("Got null string from C++"))),
    }
}

/// Where the configuration lies by default: under `XDG_CONFIG_HOME` if that
/// is set, else under the home directory, else under `/etc`.
pub open spec fn spec_default_config_dir(xdg_config_home: Option<&str>, home: Option<&str>) -> Seq<
    char,
> {
    match (xdg_config_home, home) {
        (Some(xdg), _) => xdg@ + "/asterix/config"@,
        (None, Some(home)) => home@ + "/.config/asterix/config"@,
        (None, None) => "/etc/asterix/config"@,
    }
}

/// The default configuration directory, given the values of
/// `XDG_CONFIG_HOME` and `HOME` where they are set.
pub fn default_config_dir(xdg_config_home: Option<&str>, home: Option<&str>) -> (dir: String)
    ensures
        dir@ == spec_default_config_dir(xdg_config_home, home),
{
    match xdg_config_home {
        Some(xdg) => String::from_str(xdg).concat("/asterix/config"),
        None => match home {
            Some(home) => String::from_str(home).concat("/.config/asterix/config"),
            None => String::from_str("/etc/asterix/config"),
        },
    }
}

/// Whether a file of the configuration directory is loaded as a category
/// definition: every XML file but the BDS definitions, which are loaded
/// first on their own.
pub open spec fn spec_is_category_definition(file_name: Seq<char>, extension: Option<&str>) -> bool {
    &&& file_name != "asterix_bds.xml"@
    &&& match extension {
        Some(ext) => ext@ == "xml"@,
        None => false,
    }
}

/// Whether the two character sequences are the same.
fn same_chars(a: &[char], b: &[char]) -> (same: bool)
    ensures
        same == (a@ == b@),
{
    let same = a.len() == b.len() && starts_with(a, b);
    assert(same <==> a@ == b@) by {
        if same {
            assert(a@ =~= b@);
        }
    }
    same
}

/// Whether a file of the configuration directory is loaded as a category
/// definition.
pub fn is_category_definition(file_name: &str, extension: Option<&str>) -> (loaded: bool)
    ensures
        loaded == spec_is_category_definition(file_name@, extension),
{
    let name = chars_of(file_name);
    let bds = chars_of("asterix_bds.xml");
    if same_chars(name.as_slice(), bds.as_slice()) {
        return false;
    }
    match extension {
        Some(ext) => {
            let found = chars_of(ext);
            let xml = chars_of("xml");
            same_chars(found.as_slice(), xml.as_slice())
        },
        None => false,
    }
}

/// What the number of category definitions loaded means: none is an
/// initialisation error.
pub fn loaded_outcome(loaded_count: usize) -> (outcome: Result<(), AsterixError>)
    ensures
        match outcome {
            Ok(_) => loaded_count > 0,
            Err(AsterixError::InitializationError(text)) => loaded_count == 0 && text@
                == "No XML configuration files found in config directory"@,
            Err(_) => false,
        },
{
    if loaded_count == 0 {
        Err(
            AsterixError::InitializationError(
                String::from_str("No XML configuration files found in config directory"),
            ),
        )
    } else {
        Ok(())
    }
}

} // verus!

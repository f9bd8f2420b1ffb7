//! What decides how a run begins and how it ends: the check of the file
//! to play, the errors that end a run, and the exit code.

use crate::geometry::GeometryError;
use crate::loader::DecodeError;
use crate::player::Outcome;
use vstd::prelude::*;

verus! {

/// Why the file named on the command line cannot be played.
#[derive(Clone, Copy, Debug, PartialEq, Eq)]
pub enum InputError {
    /// There is no such file.
    Missing,
    /// The file's extension is not `gif`.
    WrongExtension,
}

/// Every error that ends a run.
#[derive(Clone, Copy, Debug, PartialEq, Eq)]
pub enum FatalError {
    Input(InputError),
    Decode(DecodeError),
    Geometry(GeometryError),
    /// The file could not be read, or the terminal refused an operation.
    Io,
}

impl InputError {
    /// What to tell the user.
    pub open spec fn message_text(self) -> Seq<char> {
        match self {
            InputError::Missing => "File doesn't exist"@,
            InputError::WrongExtension => "File has an invalid extension. Provide a gif file"@,
        }
    }

    /// What to tell the user.
    pub fn message(&self) -> (message: String)
        ensures
            message@ == self.message_text(),
    {
        match self {
            InputError::Missing => "File doesn't exist".to_owned(),
            InputError::WrongExtension => "File has an invalid extension. Provide a gif file".to_owned(),
        }
    }
}

impl FatalError {
    /// What to tell the user before the run ends.
    pub open spec fn message_text(self) -> Seq<char> {
        match self {
            FatalError::Input(error) => error.message_text(),
            FatalError::Decode(DecodeError::Malformed) => "The file is not a complete gif animation"@,
            FatalError::Decode(DecodeError::InvalidFrame) => "The animation holds a frame that cannot be used"@,
            FatalError::Geometry(GeometryError::EmptyTerminal) => "The terminal has no columns or no rows"@,
            FatalError::Io => "The file or the terminal could not be accessed"@,
        }
    }

    /// What to tell the user before the run ends.
    pub fn message(&self) -> (message: String)
        ensures
            message@ == self.message_text(),
    {
        match self {
            FatalError::Input(error) => error.message(),
            FatalError::Decode(DecodeError::Malformed) => "The file is not a complete gif animation".to_owned(),
            FatalError::Decode(DecodeError::InvalidFrame) => "The animation holds a frame that cannot be used".to_owned(),
            FatalError::Geometry(GeometryError::EmptyTerminal) => "The terminal has no columns or no rows".to_owned(),
            FatalError::Io => "The file or the terminal could not be accessed".to_owned(),
        }
    }
}

/// The one extension that is played.
pub open spec fn gif_extension() -> Seq<char> {
    seq!['g', 'i', 'f']
}

/// The verdict on a file, given whether it exists and what its extension
/// is: a missing file is reported before a wrong extension.
pub open spec fn target_verdict(exists: bool, extension: Seq<char>) -> Result<(), InputError> {
    if !exists {
        Err(InputError::Missing)
    } else if extension != gif_extension() {
        Err(InputError::WrongExtension)
    } else {
        Ok(())
    }
}

/// Decides whether the file may be opened. `extension` is what follows
/// the last dot of the file's name, or empty where there is none; it is
/// compared as it stands, so `GIF` is not `gif`.
pub fn check_target(exists: bool, extension: &str) -> (verdict: Result<(), InputError>)
    ensures
        verdict == target_verdict(exists, extension@),
{
    if !exists {
        return Err(InputError::Missing);
    }
    let is_gif = extension.unicode_len() == 3 && extension.get_char(0) == 'g' && extension.get_char(1)
        == 'i' && extension.get_char(2) == 'f';
    assert(is_gif <==> extension@ =~= gif_extension());
    if is_gif {
        Ok(())
    } else {
        Err(InputError::WrongExtension)
    }
}

/// The exit code of a run that ended this way.
pub open spec fn exit_code_of(end: Result<Outcome, FatalError>) -> u8 {
    match end {
        Ok(Outcome::Quit) => 0,
        Ok(Outcome::Failed) => 1,
        Err(_) => 1,
    }
}

/// The exit code of a run: 0 after the quit key, 1 after any failure.
pub fn exit_code(end: Result<Outcome, FatalError>) -> (code: u8)
    ensures
        code == exit_code_of(end),
{
    match end {
        Ok(Outcome::Quit) => 0,
        _ => 1,
    }
}

} // verus!

//! The errors of shader loading, program linking and window creation.

use vstd::prelude::*;

verus! {

/// `std::io::Error`, carried through without being looked into.
#[verifier::external_type_specification]
#[verifier::external_body]
pub struct ExIoError(std::io::Error);

/// Why a shader stage could not be produced.
#[derive(Debug)]
pub enum ShaderError {
    /// The driver rejected the source; the text is the driver's log, verbatim.
    CompileError(String),
    /// The source file could not be opened or read.
    FileError(std::io::Error),
    /// The file's name ends in none of `.vert`, `.frag`, `.geom`.
    FileNameError,
}

/// The text shown for [`ShaderError::FileNameError`].
pub open spec fn file_name_message() -> Seq<char> {
    "Only able to load files with file-endings .vert, .frag or .geom"@
}

impl ShaderError {
    /// The text of this error: the driver's log, the file system's message,
    /// or a fixed sentence about file endings.
    pub fn to_string(&self) -> (text: String)
        ensures
            match *self {
                ShaderError::CompileError(log) => text@ == log@,
                ShaderError::FileError(err) => vstd::string::to_string_from_display_ensures::<
                    std::io::Error,
                >(&err, text),
                ShaderError::FileNameError => text@ == file_name_message(),
            },
    {
        match self {
            ShaderError::CompileError(log) => log.clone(),
            ShaderError::FileError(err) => err.to_string(),
            ShaderError::FileNameError => {
                "Only able to load files with file-endings .vert, .frag or .geom".to_owned()
            },
        }
    }

    /// A short description of the error kind.
    pub fn description(&self) -> (text: &'static str)
        ensures
            text@ == "Could not load shader."@,
    {
        "Could not load shader."
    }
}

/// Why a program could not be linked: the driver's linker log.
#[derive(Debug)]
pub struct LinkerError {
    error_msg: String,
}

impl View for LinkerError {
    type V = Seq<char>;

    /// The message the error was made with.
    closed spec fn view(&self) -> Seq<char> {
        self.error_msg@
    }
}

impl LinkerError {
    /// An error that carries `msg`.
    pub fn new(msg: &str) -> (err: LinkerError)
        ensures
            err@ == msg@,
    {
        LinkerError { error_msg: msg.to_string() }
    }

    /// The message the error was made with.
    pub fn to_string(&self) -> (text: String)
        ensures
            text@ == self@,
    {
        self.error_msg.clone()
    }

    /// A short description of the error kind.
    pub fn description(&self) -> (text: &'static str)
        ensures
            text@ == "Could not link program."@,
    {
        "Could not link program."
    }
}

/// Why a window could not be opened.
#[derive(Debug)]
pub struct WindowError {
    error_msg: String,
}

impl View for WindowError {
    type V = Seq<char>;

    /// The message the error was made with.
    closed spec fn view(&self) -> Seq<char> {
        self.error_msg@
    }
}

impl WindowError {
    /// An error that carries `msg`.
    pub fn new(msg: &str) -> (err: WindowError)
        ensures
            err@ == msg@,
    {
        WindowError { error_msg: msg.to_string() }
    }

    /// The message the error was made with.
    pub fn to_string(&self) -> (text: String)
        ensures
            text@ == self@,
    {
        self.error_msg.clone()
    }

    /// A short description of the error kind.
    pub fn description(&self) -> (text: &'static str)
        ensures
            text@ == "Could not open window."@,
    {
        "Could not open window."
    }
}

} // verus!

use vstd::prelude::*;
use vstd::std_specs::convert::FromSpecImpl;

verus! {

/// The two stages of a shader program.
#[derive(Debug, Clone, Copy, PartialEq, Eq, Structural)]
pub enum ShaderStage {
    Vertex,
    Fragment,
}

/// What went wrong.
#[derive(Debug, Clone, Copy, PartialEq, Eq, Structural)]
pub enum ErrorKind {
    /// The device refused to create a buffer, a vertex array, a texture, a
    /// renderbuffer or a framebuffer.
    ResourceCreation,
    /// A shader stage did not compile. The message is the device's own log.
    ShaderCompile(ShaderStage),
    /// The device refused to create a program or a shader object.
    ProgramLink,
    /// Anything else; the message says what.
    Other,
}

/// A failure, with its kind and a message for the developer.
#[derive(Debug)]
pub struct Error {
    kind: ErrorKind,
    message: String,
}

impl Error {
    /// The kind of this error.
    pub closed spec fn spec_kind(&self) -> ErrorKind {
        self.kind
    }

    /// The characters of the message.
    pub closed spec fn text(&self) -> Seq<char> {
        self.message@
    }

    /// An error of the given kind with the given message.
    pub fn new(kind: ErrorKind, message: &str) -> (e: Error)
        ensures
            e.spec_kind() == kind,
            e.text() == message@,
    {
        Error { kind, message: String::from_str(message) }
    }

    /// An error of the given kind that takes over an owned message.
    pub fn with_message(kind: ErrorKind, message: String) -> (e: Error)
        ensures
            e.spec_kind() == kind,
            e.text() == message@,
    {
        Error { kind, message }
    }

    /// The kind of this error.
    #[verifier::when_used_as_spec(spec_kind)]
    pub fn kind(&self) -> (k: ErrorKind)
        ensures
            k == self.spec_kind(),
    {
        self.kind
    }

    /// The message, as it would be shown to a developer.
    pub fn message(&self) -> (m: String)
        ensures
            m@ == self.text(),
    {
        self.message.clone()
    }
}

impl From<&str> for Error {
    /// An error of kind `Other` with that message.
    fn from(value: &str) -> (e: Error)
        ensures
            e.spec_kind() == ErrorKind::Other,
            e.text() == value@,
    {
        Error { kind: ErrorKind::Other, message: String::from_str(value) }
    }
}

impl FromSpecImpl<&str> for Error {
    open spec fn obeys_from_spec() -> bool {
        false
    }

    open spec fn from_spec(value: &str) -> Error {
        choose|e: Error| e.spec_kind() == ErrorKind::Other && e.text() == value@
    }
}

impl From<String> for Error {
    /// An error of kind `Other` that takes over the message.
    fn from(value: String) -> (e: Error)
        ensures
            e.spec_kind() == ErrorKind::Other,
            e.text() == value@,
    {
        Error { kind: ErrorKind::Other, message: value }
    }
}

impl FromSpecImpl<String> for Error {
    open spec fn obeys_from_spec() -> bool {
        false
    }

    open spec fn from_spec(value: String) -> Error {
        choose|e: Error| e.spec_kind() == ErrorKind::Other && e.text() == value@
    }
}

} // verus!

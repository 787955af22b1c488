use vstd::prelude::*;

verus! {

/// Declares `std::io::Error`, carried opaque inside `InitError`.
#[verifier::external_type_specification]
#[verifier::external_body]
pub struct ExIoError(std::io::Error);

/// Declares `log::SetLoggerError`, carried opaque inside `InitError`.
#[verifier::external_type_specification]
#[verifier::external_body]
pub struct ExSetLoggerError(log::SetLoggerError);

/// Error which combines the failures that can occur while setting up logging: a log file that
/// could not be opened, or a global logger that was already installed.
#[derive(Debug)]
pub enum InitError {
    /// IO error.
    Io(std::io::Error),
    /// The log crate's global logger was already initialized when trying to initialize a logger.
    SetLoggerError(log::SetLoggerError),
}

impl From<std::io::Error> for InitError {
    fn from(error: std::io::Error) -> (r: InitError)
        ensures
            r == InitError::Io(error),
    {
        InitError::Io(error)
    }
}

impl vstd::std_specs::convert::FromSpecImpl<std::io::Error> for InitError {
    open spec fn obeys_from_spec() -> bool {
        true
    }

    open spec fn from_spec(v: std::io::Error) -> InitError {
        InitError::Io(v)
    }
}

impl From<log::SetLoggerError> for InitError {
    fn from(error: log::SetLoggerError) -> (r: InitError)
        ensures
            r == InitError::SetLoggerError(error),
    {
        InitError::SetLoggerError(error)
    }
}

impl vstd::std_specs::convert::FromSpecImpl<log::SetLoggerError> for InitError {
    open spec fn obeys_from_spec() -> bool {
        true
    }

    open spec fn from_spec(v: log::SetLoggerError) -> InitError {
        InitError::SetLoggerError(v)
    }
}

/// The text that the log crate shows for a failed installation.
pub open spec fn set_logger_error_text() -> Seq<char> {
    "attempted to set a logger after the logging system was already initialized"@
}

/// The words that open the message of an error.
pub open spec fn message_prefix(e: InitError) -> Seq<char> {
    match e {
        InitError::Io(_) => "IO Error initializing logger: "@,
        InitError::SetLoggerError(_) => "logging initialization failed: "@,
    }
}

/// The short description of an error.
pub open spec fn description_text(e: InitError) -> Seq<char> {
    match e {
        InitError::Io(_) => "IO error while initializing logging"@,
        InitError::SetLoggerError(_) => "logging system already initialized with different logger"@,
    }
}

/// Relies on the `Display` impl of `log::SetLoggerError`, which writes one fixed sentence.
#[verifier::external_body]
fn set_logger_error_display(e: &log::SetLoggerError) -> (r: String)
    ensures
        r@ == set_logger_error_text(),
{
    e.to_string()
}

/// Relies on the `Display` impl of `std::io::Error`; its text depends on the platform.
#[verifier::external_body]
fn io_error_display(e: &std::io::Error) -> (r: String) {
    e.to_string()
}

impl InitError {
    /// The text of the error that caused this one.
    pub fn cause_text(&self) -> (r: String)
        ensures
            self is SetLoggerError ==> r@ == set_logger_error_text(),
    {
        match self {
            InitError::Io(e) => io_error_display(e),
            InitError::SetLoggerError(e) => set_logger_error_display(e),
        }
    }

    /// The full message of this error: what failed, then the text of its cause.
    pub fn message(&self) -> (r: String)
        ensures
            r@.len() >= message_prefix(*self).len(),
            r@.subrange(0, message_prefix(*self).len() as int) == message_prefix(*self),
            self is SetLoggerError ==> r@ == message_prefix(*self) + set_logger_error_text(),
    {
        let mut r = match self {
            InitError::Io(_) => String::from_str("IO Error initializing logger: "),
            InitError::SetLoggerError(_) => String::from_str("logging initialization failed: "),
        };
        let ghost head = r@;
        let cause = self.cause_text();
        r.append(cause.as_str());
        assert(r@.subrange(0, head.len() as int) =~= head);
        r
    }

    /// The short description of this error.
    pub fn description(&self) -> (r: &'static str)
        ensures
            r@ == description_text(*self),
    {
        match self {
            InitError::Io(_) => "IO error while initializing logging",
            InitError::SetLoggerError(_) => "logging system already initialized with different logger",
        }
    }
}

} // verus!

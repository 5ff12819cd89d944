//! Status codes of the device library and their classification.

use crate::library::LJMLibrary;
use crate::text::{decimal, decimal_text};
use vstd::prelude::*;
use vstd::std_specs::convert::FromSpecImpl;

verus! {

/// First status code of the warning range.
pub const WARNING_BASE: i32 = 200;

/// Last status code of the warning range.
pub const WARNING_LAST: i32 = 399;

/// First status code of the Modbus error range.
pub const MODBUS_BASE: i32 = 1200;

/// Last status code of the Modbus error range.
pub const MODBUS_LAST: i32 = 1216;

/// First status code of the library error range.
pub const LIBRARY_BASE: i32 = 1220;

/// Last status code of the library error range.
pub const LIBRARY_LAST: i32 = 1399;

/// First status code of the device error range.
pub const DEVICE_BASE: i32 = 2000;

/// Last status code of the device error range.
pub const DEVICE_LAST: i32 = 2999;

/// First status code of the user error range.
pub const USER_BASE: i32 = 3900;

/// Last status code of the user error range.
pub const USER_LAST: i32 = 3999;

/// A non-zero status code, sorted into the range it belongs to.
///
/// Each variant but the last carries the distance of the code from the start
/// of its range; `Unknown` carries the code itself.
#[derive(Clone, Copy, Debug, PartialEq, Eq, Structural)]
pub enum LJMErrorCode {
    /// 200 to 399.
    LJMWarning(i32),
    /// 1200 to 1216.
    LJMModbusError(i32),
    /// 1220 to 1399.
    LJMLibraryError(i32),
    /// 2000 to 2999.
    DeviceError(i32),
    /// 3900 to 3999.
    UserError(i32),
    /// Any code outside the five ranges.
    Unknown(i32),
}

/// Whether `code` lies in one of the five documented ranges.
pub open spec fn in_documented_range(code: int) -> bool {
    ||| WARNING_BASE <= code <= WARNING_LAST
    ||| MODBUS_BASE <= code <= MODBUS_LAST
    ||| LIBRARY_BASE <= code <= LIBRARY_LAST
    ||| DEVICE_BASE <= code <= DEVICE_LAST
    ||| USER_BASE <= code <= USER_LAST
}

/// The category of a status code.
pub open spec fn classify(code: i32) -> LJMErrorCode {
    if WARNING_BASE <= code <= WARNING_LAST {
        LJMErrorCode::LJMWarning((code - WARNING_BASE) as i32)
    } else if MODBUS_BASE <= code <= MODBUS_LAST {
        LJMErrorCode::LJMModbusError((code - MODBUS_BASE) as i32)
    } else if LIBRARY_BASE <= code <= LIBRARY_LAST {
        LJMErrorCode::LJMLibraryError((code - LIBRARY_BASE) as i32)
    } else if DEVICE_BASE <= code <= DEVICE_LAST {
        LJMErrorCode::DeviceError((code - DEVICE_BASE) as i32)
    } else if USER_BASE <= code <= USER_LAST {
        LJMErrorCode::UserError((code - USER_BASE) as i32)
    } else {
        LJMErrorCode::Unknown(code)
    }
}

impl LJMErrorCode {
    /// The start of the range that this category stands for; 0 for `Unknown`.
    pub open spec fn base(self) -> int {
        match self {
            LJMErrorCode::LJMWarning(_) => WARNING_BASE as int,
            LJMErrorCode::LJMModbusError(_) => MODBUS_BASE as int,
            LJMErrorCode::LJMLibraryError(_) => LIBRARY_BASE as int,
            LJMErrorCode::DeviceError(_) => DEVICE_BASE as int,
            LJMErrorCode::UserError(_) => USER_BASE as int,
            LJMErrorCode::Unknown(_) => 0,
        }
    }

    /// The number that the category carries.
    pub open spec fn offset(self) -> int {
        match self {
            LJMErrorCode::LJMWarning(n) => n as int,
            LJMErrorCode::LJMModbusError(n) => n as int,
            LJMErrorCode::LJMLibraryError(n) => n as int,
            LJMErrorCode::DeviceError(n) => n as int,
            LJMErrorCode::UserError(n) => n as int,
            LJMErrorCode::Unknown(n) => n as int,
        }
    }

    /// The status code that the category stands for: its base plus its offset.
    pub open spec fn code(self) -> int {
        self.base() + self.offset()
    }

    /// The name of the category in descriptions.
    pub open spec fn name(self) -> Seq<char> {
        match self {
            LJMErrorCode::LJMWarning(_) => "LabJackWarning"@,
            LJMErrorCode::LJMModbusError(_) => "ModbusError"@,
            LJMErrorCode::LJMLibraryError(_) => "LibraryError"@,
            LJMErrorCode::DeviceError(_) => "DeviceError"@,
            LJMErrorCode::UserError(_) => "UserError"@,
            LJMErrorCode::Unknown(_) => "UnknownError"@,
        }
    }

    /// The category's name with, in brackets, the status code that it stands
    /// for.
    pub open spec fn description(self) -> Seq<char> {
        self.name() + "("@ + decimal(self.code()) + ")"@
    }

    /// The category's name with, in brackets, the status code that it stands
    /// for.
    pub fn describe(&self) -> (text: String)
        ensures
            text@ == self.description(),
    {
        let (name, base, offset): (&str, i32, i32) = match self {
            LJMErrorCode::LJMWarning(n) => ("LabJackWarning", WARNING_BASE, *n),
            LJMErrorCode::LJMModbusError(n) => ("ModbusError", MODBUS_BASE, *n),
            LJMErrorCode::LJMLibraryError(n) => ("LibraryError", LIBRARY_BASE, *n),
            LJMErrorCode::DeviceError(n) => ("DeviceError", DEVICE_BASE, *n),
            LJMErrorCode::UserError(n) => ("UserError", USER_BASE, *n),
            LJMErrorCode::Unknown(n) => ("UnknownError", 0, *n),
        };
        let code: i64 = base as i64 + offset as i64;
        String::from_str(name).concat("(").concat(decimal_text(code).as_str()).concat(")")
    }

    /// Classifies a status code. Total: what lies outside the five ranges is
    /// `Unknown` and keeps the code.
    pub fn from_code(error_code: i32) -> (category: LJMErrorCode)
        ensures
            category == classify(error_code),
            category.code() == error_code,
    {
        if WARNING_BASE <= error_code && error_code <= WARNING_LAST {
            LJMErrorCode::LJMWarning(error_code - WARNING_BASE)
        } else if MODBUS_BASE <= error_code && error_code <= MODBUS_LAST {
            LJMErrorCode::LJMModbusError(error_code - MODBUS_BASE)
        } else if LIBRARY_BASE <= error_code && error_code <= LIBRARY_LAST {
            LJMErrorCode::LJMLibraryError(error_code - LIBRARY_BASE)
        } else if DEVICE_BASE <= error_code && error_code <= DEVICE_LAST {
            LJMErrorCode::DeviceError(error_code - DEVICE_BASE)
        } else if USER_BASE <= error_code && error_code <= USER_LAST {
            LJMErrorCode::UserError(error_code - USER_BASE)
        } else {
            LJMErrorCode::Unknown(error_code)
        }
    }

    /// Adds the base of the range back onto the offset.
    ///
    /// `None` where the sum is no status code at all, which no category that
    /// `from_code` returned can be.
    pub fn to_code(&self) -> (code: Option<i32>)
        ensures
            code == (if i32::MIN <= self.code() <= i32::MAX {
                Some(self.code() as i32)
            } else {
                None
            }),
    {
        match self {
            LJMErrorCode::LJMWarning(n) => n.checked_add(WARNING_BASE),
            LJMErrorCode::LJMModbusError(n) => n.checked_add(MODBUS_BASE),
            LJMErrorCode::LJMLibraryError(n) => n.checked_add(LIBRARY_BASE),
            LJMErrorCode::DeviceError(n) => n.checked_add(DEVICE_BASE),
            LJMErrorCode::UserError(n) => n.checked_add(USER_BASE),
            LJMErrorCode::Unknown(n) => Some(*n),
        }
    }
}

impl From<i32> for LJMErrorCode {
    fn from(error_code: i32) -> (category: LJMErrorCode) {
        LJMErrorCode::from_code(error_code)
    }
}

impl FromSpecImpl<i32> for LJMErrorCode {
    open spec fn obeys_from_spec() -> bool {
        true
    }

    open spec fn from_spec(error_code: i32) -> LJMErrorCode {
        classify(error_code)
    }
}

/// Whatever a call into this layer can fail with.
#[derive(Debug)]
pub enum LJMError {
    /// The device library could not be loaded.
    StartupError(libloading::Error),
    /// An entry point could not be found in the device library.
    LibloadingError(libloading::Error),
    /// The session was initialised before; carries the state that was to be
    /// installed, so that it is not lost.
    WrapperInvalid(LJMLibrary),
    /// The device library returned a status other than zero; carries its
    /// category and the text that the library has for it.
    ErrorCode(LJMErrorCode, String),
    /// Text that went to or came from the device library could not be read.
    LibraryError(String),
    /// The session was used before it was initialised.
    Uninitialized,
    /// A stream was read that was never started.
    StreamNotStarted,
    /// A script was to be started and none was set.
    ScriptNotSet,
    /// A script was to be replaced while the device still ran one.
    ScriptStillRunning,
    /// A step was answered with something that it did not ask for.
    BadState,
    /// Something was asked for that this layer does not cover.
    NoCoverage,
    /// The lock on the session's state is poisoned.
    PoisonedLock,
    /// Text for the device library held a zero byte.
    CStringConversionFailed,
}

impl From<libloading::Error> for LJMError {
    fn from(value: libloading::Error) -> (error: LJMError) {
        LJMError::LibloadingError(value)
    }
}

impl FromSpecImpl<libloading::Error> for LJMError {
    open spec fn obeys_from_spec() -> bool {
        true
    }

    open spec fn from_spec(value: libloading::Error) -> LJMError {
        LJMError::LibloadingError(value)
    }
}

/// How the standard library writes `text` for debugging: in quotes, with
/// what cannot be shown as it is escaped.
pub uninterp spec fn debug_quoted(text: Seq<char>) -> Seq<char>;

/// `format!` with `{:?}` on a string. Gives the result its name.
#[verifier::external_body]
fn quoted(text: &str) -> (shown: String)
    ensures
        shown@ == debug_quoted(text@),
{
    format!("{:?}", text)
}

/// `format!` with `{:?}` on a `libloading::Error`, which goes through the
/// `Debug` that the crate derives for it. Nothing is claimed of the text.
#[verifier::external_body]
fn loading_error_shown(error: &libloading::Error) -> (shown: String) {
    format!("{:?}", error)
}

impl LJMError {
    /// What a description begins with, which for all errors but those that
    /// carry a loading error is the whole of it.
    pub open spec fn description_start(self) -> Seq<char> {
        match self {
            LJMError::StartupError(_) => "StartupError::"@,
            LJMError::LibloadingError(_) => "LibraryLoadingError::"@,
            LJMError::ErrorCode(code, text) => "LJMError::"@ + code.description() + " ("@ + text@
                + ")"@,
            LJMError::LibraryError(text) => "LibraryError::"@ + debug_quoted(text@),
            LJMError::WrapperInvalid(_) => "WrapperInvalidError"@,
            LJMError::BadState => "BadStateError"@,
            LJMError::NoCoverage => "NoCoverageError"@,
            LJMError::Uninitialized => "UninitializedError"@,
            LJMError::StreamNotStarted => "StreamNotStartedError"@,
            LJMError::ScriptStillRunning => "ScriptStillRunningError"@,
            LJMError::ScriptNotSet => "ScriptNotSetError"@,
            LJMError::PoisonedLock => "PoisonedLockError"@,
            LJMError::CStringConversionFailed => "CStringConversionFailed"@,
        }
    }

    /// Whether the error carries a loading error, whose own words end its
    /// description.
    pub open spec fn carries_loading_error(self) -> bool {
        self is StartupError || self is LibloadingError
    }

    /// The error in words: its kind and, where it carries something, that.
    pub fn describe(&self) -> (text: String)
        ensures
            self.description_start().is_prefix_of(text@),
            !self.carries_loading_error() ==> text@ == self.description_start(),
    {
        match self {
            LJMError::StartupError(error) => String::from_str("StartupError::").concat(
                loading_error_shown(error).as_str(),
            ),
            LJMError::LibloadingError(error) => String::from_str("LibraryLoadingError::").concat(
                loading_error_shown(error).as_str(),
            ),
            LJMError::ErrorCode(code, text) => String::from_str("LJMError::").concat(
                code.describe().as_str(),
            ).concat(" (").concat(text.as_str()).concat(")"),
            LJMError::LibraryError(text) => String::from_str("LibraryError::").concat(
                quoted(text.as_str()).as_str(),
            ),
            LJMError::WrapperInvalid(_) => String::from_str("WrapperInvalidError"),
            LJMError::BadState => String::from_str("BadStateError"),
            LJMError::NoCoverage => String::from_str("NoCoverageError"),
            LJMError::Uninitialized => String::from_str("UninitializedError"),
            LJMError::StreamNotStarted => String::from_str("StreamNotStartedError"),
            LJMError::ScriptStillRunning => String::from_str("ScriptStillRunningError"),
            LJMError::ScriptNotSet => String::from_str("ScriptNotSetError"),
            LJMError::PoisonedLock => String::from_str("PoisonedLockError"),
            LJMError::CStringConversionFailed => String::from_str("CStringConversionFailed"),
        }
    }
}

/// The error that a status other than zero stands for, given how rendering
/// the status as text ended: the classified status with that text, or, where
/// no text could be had, the error of the rendering.
pub open spec fn failure(error_code: i32, description: Result<String, LJMError>) -> LJMError {
    match description {
        Ok(text) => LJMError::ErrorCode(classify(error_code), text),
        Err(error) => error,
    }
}

/// What a native call that brought `value` and returned `error_code` amounts
/// to: the value for a zero status, else the failure.
pub open spec fn status_result<T>(
    value: T,
    error_code: i32,
    description: Result<String, LJMError>,
) -> Result<T, LJMError> {
    if error_code == 0 {
        Ok(value)
    } else {
        Err(failure(error_code, description))
    }
}

} // verus!

//! Setting, starting and stopping the script module, as steps between which
//! the caller talks to the device.
//!
//! Each step names one thing to do. The caller does it and comes back with
//! how it ended, and is told the next step, until a step is `Done`.

use crate::error::LJMError;
use crate::library::LJMSession;
use crate::lua::LJMLua;
use crate::marshal::has_nul;
use vstd::prelude::*;

verus! {

/// What the run flag reads as while a script runs: the bit pattern of the
/// double-precision number one.
pub const LUA_RUNNING: u64 = 0x3FF0_0000_0000_0000;

/// The pause between writing the stop flag and reading the run flag again, in
/// milliseconds.
pub const STOP_POLL_MILLIS: u64 = 50;

/// The registers of the script engine that this layer touches.
#[derive(Clone, Copy, Debug, PartialEq, Eq, Structural)]
pub enum LuaRegister {
    SourceSize,
    SourceWrite,
    DebugEnable,
    DebugEnableDefault,
    Run,
}

impl LuaRegister {
    /// The register's name in the device's register map.
    pub open spec fn name(self) -> Seq<char> {
        match self {
            LuaRegister::SourceSize => "LUA_SOURCE_SIZE"@,
            LuaRegister::SourceWrite => "LUA_SOURCE_WRITE"@,
            LuaRegister::DebugEnable => "LUA_DEBUG_ENABLE"@,
            LuaRegister::DebugEnableDefault => "LUA_DEBUG_ENABLE_DEFAULT"@,
            LuaRegister::Run => "LUA_RUN"@,
        }
    }

    /// The register's name in the device's register map.
    pub fn to_string(&self) -> (name: String)
        ensures
            name@ == self.name(),
    {
        match self {
            LuaRegister::SourceSize => String::from_str("LUA_SOURCE_SIZE"),
            LuaRegister::SourceWrite => String::from_str("LUA_SOURCE_WRITE"),
            LuaRegister::DebugEnable => String::from_str("LUA_DEBUG_ENABLE"),
            LuaRegister::DebugEnableDefault => String::from_str("LUA_DEBUG_ENABLE_DEFAULT"),
            LuaRegister::Run => String::from_str("LUA_RUN"),
        }
    }
}

/// What the caller comes back with.
#[derive(Debug)]
pub enum ModuleEvent {
    /// Nothing yet: the first step is asked for.
    Begin,
    /// The run flag was read: whether a script runs, or why it could not be
    /// read.
    Running(Result<bool, LJMError>),
    /// A register was written, or could not be.
    Written(Result<(), LJMError>),
    /// The pause is over.
    Paused,
}

/// The next thing for the caller to do.
#[derive(Debug)]
pub enum ModuleAction {
    /// Read the run flag.
    ReadRunning,
    /// Write a number to a register.
    WriteName { register: LuaRegister, value: u32 },
    /// Write `size` bytes to a register; `bytes` is text for the device
    /// library, a zero byte at its end.
    WriteNameByteArray { register: LuaRegister, size: i32, bytes: Vec<u8> },
    /// Wait, then read the run flag.
    Pause { millis: u64 },
    /// Nothing more: this is how it ended.
    Done(Result<(), LJMError>),
}

/// A `ModuleAction`, as contracts speak of it.
pub enum ModuleStep {
    ReadRunning,
    WriteName { register: LuaRegister, value: u32 },
    WriteNameByteArray { register: LuaRegister, size: i32, bytes: Seq<u8> },
    Pause { millis: u64 },
    Done(Result<(), LJMError>),
}

impl View for ModuleAction {
    type V = ModuleStep;

    open spec fn view(&self) -> ModuleStep {
        match *self {
            ModuleAction::ReadRunning => ModuleStep::ReadRunning,
            ModuleAction::WriteName { register, value } => ModuleStep::WriteName {
                register,
                value,
            },
            ModuleAction::WriteNameByteArray { register, size, bytes } => {
                ModuleStep::WriteNameByteArray { register, size, bytes: bytes@ }
            },
            ModuleAction::Pause { millis } => ModuleStep::Pause { millis },
            ModuleAction::Done(result) => ModuleStep::Done(result),
        }
    }
}

/// How far setting a module has come.
#[derive(Clone, Copy, Debug, PartialEq, Eq, Structural)]
pub enum ModulePhase {
    /// The script that ran before is being stopped.
    Stopping,
    /// The new script is being uploaded; carries the number of writes that
    /// ended before the one that is under way.
    Uploading(usize),
    /// Nothing is left to do.
    Finished,
}

/// Whether a reading of the run flag says that a script runs, or the error
/// that reading it gave.
pub open spec fn running_of(reading: Result<u64, LJMError>) -> Result<bool, LJMError> {
    match reading {
        Ok(bits) => Ok(bits == LUA_RUNNING),
        Err(error) => Err(error),
    }
}

/// The step that stopping a script takes on `event`.
///
/// While the device reports a script running, the stop flag is written and,
/// after a pause, the run flag is read again, without limit. The first
/// failure ends it.
pub open spec fn stop_step(event: ModuleEvent) -> ModuleStep {
    match event {
        ModuleEvent::Begin => ModuleStep::ReadRunning,
        ModuleEvent::Running(Ok(true)) => ModuleStep::WriteName {
            register: LuaRegister::Run,
            value: 0,
        },
        ModuleEvent::Running(Ok(false)) => ModuleStep::Done(Ok(())),
        ModuleEvent::Running(Err(error)) => ModuleStep::Done(Err(error)),
        ModuleEvent::Written(Ok(())) => ModuleStep::Pause { millis: STOP_POLL_MILLIS },
        ModuleEvent::Written(Err(error)) => ModuleStep::Done(Err(error)),
        ModuleEvent::Paused => ModuleStep::ReadRunning,
    }
}

/// The number of writes that uploading a script takes.
pub open spec fn upload_length(debug: bool) -> nat {
    if debug {
        5
    } else {
        3
    }
}

/// The write that uploading `module` makes after `completed` others, or the
/// end of the upload.
///
/// The size goes first, then the script itself, then the two debug flags
/// where `debug` asks for them, then the run flag.
pub open spec fn upload_write(module: LJMLua, debug: bool, completed: nat) -> ModuleStep {
    if completed == 0 {
        ModuleStep::WriteName {
            register: LuaRegister::SourceSize,
            value: module.spec_size() as u32,
        }
    } else if completed == 1 {
        if has_nul(module.spec_bytes()) {
            ModuleStep::Done(Err(LJMError::CStringConversionFailed))
        } else {
            ModuleStep::WriteNameByteArray {
                register: LuaRegister::SourceWrite,
                size: module.spec_size() as i32,
                bytes: module.spec_bytes().push(0),
            }
        }
    } else if debug && completed == 2 {
        ModuleStep::WriteName { register: LuaRegister::DebugEnable, value: 1 }
    } else if debug && completed == 3 {
        ModuleStep::WriteName { register: LuaRegister::DebugEnableDefault, value: 1 }
    } else if completed + 1 == upload_length(debug) {
        ModuleStep::WriteName { register: LuaRegister::Run, value: 1 }
    } else {
        ModuleStep::Done(Ok(()))
    }
}

/// The step that starting the module of `session` takes after `completed`
/// writes, the latest of which ended as `last`.
///
/// A failed write ends the upload with its error. So does a session whose
/// module cannot be had.
pub open spec fn upload_step(
    session: LJMSession,
    debug: bool,
    completed: nat,
    last: Result<(), LJMError>,
) -> ModuleStep {
    match last {
        Err(error) => ModuleStep::Done(Err(error)),
        Ok(()) => if !session.is_set() {
            ModuleStep::Done(Err(LJMError::Uninitialized))
        } else if !session.is_usable() {
            ModuleStep::Done(Err(LJMError::PoisonedLock))
        } else {
            match session.script() {
                None => ModuleStep::Done(Err(LJMError::ScriptNotSet)),
                Some(module) => upload_write(module, debug, completed),
            }
        },
    }
}

/// The phase that a step of the upload leads to, `completed` writes having
/// ended before it: the end for a step that is the end, else the upload with
/// one more write under way.
pub open spec fn phase_after(step: ModuleStep, completed: nat) -> ModulePhase {
    if step is Done {
        ModulePhase::Finished
    } else {
        ModulePhase::Uploading(completed as usize)
    }
}

/// The step that setting a module takes in `phase` on `event`, and the phase
/// that it leads to.
///
/// Once the script that ran before is stopped, the upload begins. An event
/// that no step of the phase asks for ends it with `BadState`.
pub open spec fn set_module_step(
    session: LJMSession,
    debug: bool,
    phase: ModulePhase,
    event: ModuleEvent,
) -> (ModulePhase, ModuleStep) {
    match phase {
        ModulePhase::Stopping => match stop_step(event) {
            ModuleStep::Done(Ok(())) => {
                let step = upload_step(session, debug, 0, Ok(()));
                (phase_after(step, 0), step)
            },
            ModuleStep::Done(Err(error)) => (ModulePhase::Finished, ModuleStep::Done(Err(error))),
            step => (ModulePhase::Stopping, step),
        },
        ModulePhase::Uploading(completed) => match event {
            ModuleEvent::Written(last) => if completed < usize::MAX {
                let step = upload_step(session, debug, (completed + 1) as nat, last);
                (phase_after(step, (completed + 1) as nat), step)
            } else {
                (ModulePhase::Finished, ModuleStep::Done(Err(LJMError::BadState)))
            },
            _ => (ModulePhase::Finished, ModuleStep::Done(Err(LJMError::BadState))),
        },
        ModulePhase::Finished => (ModulePhase::Finished, ModuleStep::Done(Err(LJMError::BadState))),
    }
}

} // verus!

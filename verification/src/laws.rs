//! What holds of the session across calls.

use crate::error::{classify, in_documented_range, LJMError, LJMErrorCode};
use crate::library::{LJMBinding, LJMSession};
use crate::marshal::has_nul;
use crate::script::{
    set_module_step, upload_length, LuaRegister, ModuleEvent, ModulePhase, ModuleStep,
};
use crate::stream::StreamSettings;
use vstd::prelude::*;

verus! {

/// Classifying a status code of one of the five ranges and adding the base
/// back gives the code again.
pub proof fn lemma_reconstruct_classified(code: i32)
    requires
        in_documented_range(code as int),
    ensures
        !(classify(code) is Unknown),
        classify(code).code() == code,
{
}

/// A status code outside the five ranges is classified as unknown and keeps
/// its value, so that adding the base back, which is nothing, gives the code
/// again.
pub proof fn lemma_unknown_keeps_code(code: i32)
    requires
        !in_documented_range(code as int),
    ensures
        classify(code) == LJMErrorCode::Unknown(code),
        LJMErrorCode::Unknown(code).code() == code,
{
}

/// Once state was installed in a session, installing state again fails,
/// whatever the binding of either, hands the state back, and changes nothing.
pub proof fn lemma_second_install_fails(
    fresh: LJMSession,
    first: LJMBinding,
    once: LJMSession,
    first_result: Result<(), LJMError>,
    second: LJMBinding,
    twice: LJMSession,
    second_result: Result<(), LJMError>,
)
    requires
        fresh.installed(first, once, first_result),
        first_result is Ok,
        once.installed(second, twice, second_result),
    ensures
        second_result matches Err(LJMError::WrapperInvalid(rejected)) && rejected.is_fresh(second),
        twice == once,
{
}

/// A second initialisation after a successful one fails and changes nothing.
/// Where its library was loaded, it fails because the session is taken, and
/// hands its state back.
pub proof fn lemma_second_init_fails(
    fresh: LJMSession,
    first: Result<libloading::Library, libloading::Error>,
    once: LJMSession,
    first_result: Result<(), LJMError>,
    second: Result<libloading::Library, libloading::Error>,
    twice: LJMSession,
    second_result: Result<(), LJMError>,
)
    requires
        fresh.initialised(first, once, first_result),
        first_result is Ok,
        once.initialised(second, twice, second_result),
    ensures
        second_result is Err,
        second is Ok ==> second_result matches Err(LJMError::WrapperInvalid(_)),
        twice == once,
{
}

/// A stream that was started on a handle is active there, and a read of it
/// brings one value per address for each of the scans of a read.
pub proof fn lemma_started_stream_is_read(
    before: LJMSession,
    after: LJMSession,
    handle: i32,
    settings: StreamSettings,
)
    requires
        before.started(after, handle, settings),
    ensures
        after.is_active(handle),
        after.read_call(handle) == Ok::<int, LJMError>(
            settings.scans_per_read * settings.scan_list.len(),
        ),
{
}

/// Starting a stream on one handle leaves the streams on every other handle
/// as they were.
pub proof fn lemma_start_leaves_others(
    before: LJMSession,
    after: LJMSession,
    handle: i32,
    settings: StreamSettings,
    other: i32,
)
    requires
        before.started(after, handle, settings),
        other != handle,
    ensures
        after.stream(other) == before.stream(other),
        after.is_active(other) == before.is_active(other),
{
}

/// A stream on a handle on which none was started, in a session that was
/// just initialised, is not read: reading fails with `StreamNotStarted`
/// whatever the device library brought.
pub proof fn lemma_unstarted_stream_is_not_read<T>(
    session: LJMSession,
    binding: LJMBinding,
    handle: i32,
    values: Vec<T>,
    error_code: i32,
    description: Result<String, LJMError>,
)
    requires
        session.wrapper() matches Some(state) && state.is_fresh(binding),
    ensures
        !session.is_active(handle),
        session.read_call(handle) == Err::<int, LJMError>(LJMError::StreamNotStarted),
        session.read_result(handle, values, error_code, description) == Err::<Vec<T>, LJMError>(
            LJMError::StreamNotStarted,
        ),
{
}

/// After a stream on a handle was stopped, no stream is active there,
/// whether one was before or not, and whatever the stop reported.
pub proof fn lemma_stopped_stream_is_inactive(before: LJMSession, after: LJMSession, handle: i32)
    requires
        before.stopped(after, handle),
    ensures
        !after.is_active(handle),
{
}

/// Stopping the stream on one handle leaves the streams on every other
/// handle as they were.
pub proof fn lemma_stop_leaves_others(
    before: LJMSession,
    after: LJMSession,
    handle: i32,
    other: i32,
)
    requires
        before.stopped(after, handle),
        other != handle,
    ensures
        after.stream(other) == before.stream(other),
        after.is_active(other) == before.is_active(other),
{
}

/// Setting a module while no script runs goes through where every write
/// does: once the device reports that no script runs, the upload makes its
/// writes one after another, the last of them sets the run flag, and the
/// step after that is the end, without an error.
pub proof fn lemma_set_module_uploads_and_runs(session: LJMSession, debug: bool, completed: nat)
    requires
        session.is_usable(),
        session.script() matches Some(module) && !has_nul(module.spec_bytes()),
        completed < upload_length(debug),
    ensures
        ({
            let first = set_module_step(
                session,
                debug,
                ModulePhase::Stopping,
                ModuleEvent::Running(Ok(false)),
            );
            &&& first.0 == ModulePhase::Uploading(0)
            &&& first.1 is WriteName
        }),
        ({
            let next = set_module_step(
                session,
                debug,
                ModulePhase::Uploading(completed as usize),
                ModuleEvent::Written(Ok(())),
            );
            if completed + 1 < upload_length(debug) {
                &&& next.0 == ModulePhase::Uploading((completed + 1) as usize)
                &&& next.1 is WriteName || next.1 is WriteNameByteArray
                &&& completed + 2 == upload_length(debug) ==> next.1 == (ModuleStep::WriteName {
                    register: LuaRegister::Run,
                    value: 1,
                })
            } else {
                next == (ModulePhase::Finished, ModuleStep::Done(Ok(())))
            }
        }),
{
}

} // verus!

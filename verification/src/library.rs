//! The session: the loaded device library, the streams that run and the
//! script module that is set.

use crate::error::{failure, status_result, LJMError, LJMErrorCode};
use crate::handle::{
    connection_type_of, device_type_of, ConnectionType, DeviceHandleInfo, DeviceType,
};
use crate::lua::LJMLua;
use crate::script::{
    running_of, set_module_step, stop_step, upload_step, LuaRegister, ModuleAction, ModuleEvent,
    ModulePhase, LUA_RUNNING, STOP_POLL_MILLIS,
};
use crate::stream::{admissible, LJMStream, StreamSettings};
use std::collections::HashMap;
use vstd::prelude::*;

verus! {

broadcast use vstd::std_specs::hash::group_hash_axioms;

/// Where the device library is found by default on the operating system
/// that goes by the name `os`; nowhere on one that is not supported.
pub open spec fn default_library_path(os: Seq<char>) -> Option<Seq<char>> {
    if os == "windows"@ {
        Some("LabJackM.dll"@)
    } else if os == "linux"@ {
        Some("/usr/local/lib/libLabJackM.so"@)
    } else if os == "macos"@ {
        Some("/usr/local/lib/libLabJackM.dylib"@)
    } else {
        None
    }
}

fn same_text(left: &str, right: &str) -> (same: bool)
    ensures
        same == (left@ == right@),
{
    String::from_str(left) == String::from_str(right)
}

/// A script module that is set: one whose size the device library can be
/// told.
#[derive(Debug)]
struct StoredModule {
    module: LJMLua,
}

impl StoredModule {
    #[verifier::type_invariant]
    spec fn size_fits(&self) -> bool {
        self.module.spec_size() <= i32::MAX
    }
}

/// How the entry points of the device library are reached.
#[derive(Debug)]
pub enum LJMBinding {
    /// Through a library that was loaded while the program ran; entry points
    /// are resolved in it by name.
    Dynamic(libloading::Library),
    /// Directly: the device library was linked into the program, and there
    /// is nothing to resolve.
    Static,
}

/// The state that one initialisation installs.
///
/// The streams and the module stand behind a lock in a running program. Here
/// the lock is its one observable trait: whether it is poisoned.
#[derive(Debug)]
pub struct LJMLibrary {
    library: Option<LJMBinding>,
    stream: HashMap<i32, LJMStream>,
    module: Option<StoredModule>,
    poisoned: bool,
}

/// The home of the session's state, which is installed at most once.
#[derive(Debug)]
pub struct LJMSession {
    wrapper: Option<LJMLibrary>,
}

impl LJMSession {
    /// The state that was installed, if any was.
    pub closed spec fn wrapper(&self) -> Option<LJMLibrary> {
        self.wrapper
    }

    /// Whether the session was initialised.
    pub open spec fn is_set(&self) -> bool {
        self.wrapper() is Some
    }

    /// Whether streams and module can be reached: the session is initialised
    /// and its lock is sound.
    pub open spec fn is_usable(&self) -> bool {
        &&& self.wrapper() matches Some(state)
        &&& !state.is_poisoned()
    }

    /// The streams that run; none before initialisation.
    pub open spec fn streams(&self) -> Map<i32, LJMStream> {
        match self.wrapper() {
            Some(state) => state.streams(),
            None => Map::empty(),
        }
    }

    /// The script module that is set; none before initialisation.
    pub open spec fn script(&self) -> Option<LJMLua> {
        match self.wrapper() {
            Some(state) => state.script(),
            None => None,
        }
    }

    /// Whether a stream is known to run on `handle`.
    pub open spec fn is_active(&self, handle: i32) -> bool {
        self.is_usable() && self.streams().contains_key(handle)
    }

    /// Whether `other` differs from this session in its streams at most.
    pub open spec fn same_but_streams(&self, other: LJMSession) -> bool {
        &&& self.wrapper() matches Some(mine)
        &&& other.wrapper() matches Some(theirs)
        &&& mine.loaded() == theirs.loaded()
        &&& mine.script() == theirs.script()
        &&& mine.is_poisoned() == theirs.is_poisoned()
    }

    /// Whether `other` differs from this session in its module at most.
    pub open spec fn same_but_script(&self, other: LJMSession) -> bool {
        &&& self.wrapper() matches Some(mine)
        &&& other.wrapper() matches Some(theirs)
        &&& mine.loaded() == theirs.loaded()
        &&& mine.streams() == theirs.streams()
        &&& mine.is_poisoned() == theirs.is_poisoned()
    }

    /// Whether `after` is this session with a stream of `settings` registered
    /// for `handle`, in place of any that was registered there.
    pub open spec fn started(
        &self,
        after: LJMSession,
        handle: i32,
        settings: StreamSettings,
    ) -> bool {
        &&& self.is_usable()
        &&& after.same_but_streams(*self)
        &&& after.streams().dom() == self.streams().dom().insert(handle)
        &&& after.streams()[handle]@ == settings
        &&& forall|other: i32|
            other != handle && self.streams().contains_key(other)
                ==> #[trigger] after.streams()[other] == self.streams()[other]
    }

    /// Whether `after` is this session with whatever stream was registered
    /// for `handle` forgotten. A session that cannot be reached stays as it
    /// is.
    pub open spec fn stopped(&self, after: LJMSession, handle: i32) -> bool {
        if self.is_usable() {
            &&& after.same_but_streams(*self)
            &&& after.streams() == self.streams().remove(handle)
        } else {
            after == *self
        }
    }

    /// Why streams and module cannot be reached, where they cannot.
    pub open spec fn reach_error(&self) -> Option<LJMError> {
        if !self.is_set() {
            Some(LJMError::Uninitialized)
        } else if !self.is_usable() {
            Some(LJMError::PoisonedLock)
        } else {
            None
        }
    }

    /// The stream registered for `handle`, if one is.
    pub open spec fn stream(&self, handle: i32) -> Option<LJMStream> {
        if self.streams().contains_key(handle) {
            Some(self.streams()[handle])
        } else {
            None
        }
    }

    /// What installing fresh state with `binding` in this session gives: the
    /// result, and the session afterwards. A session that was initialised
    /// before stays as it is, and the state comes back inside the error.
    pub open spec fn installed(
        &self,
        binding: LJMBinding,
        after: LJMSession,
        result: Result<(), LJMError>,
    ) -> bool {
        if self.is_set() {
            &&& result matches Err(LJMError::WrapperInvalid(rejected))
            &&& rejected.is_fresh(binding)
            &&& after == *self
        } else {
            &&& result is Ok
            &&& after.wrapper() matches Some(state)
            &&& state.is_fresh(binding)
        }
    }

    /// What initialising this session gives, `loaded` being how loading the
    /// device library ended: the result, and the session afterwards.
    pub open spec fn initialised(
        &self,
        loaded: Result<libloading::Library, libloading::Error>,
        after: LJMSession,
        result: Result<(), LJMError>,
    ) -> bool {
        match loaded {
            Err(error) => {
                &&& result == Err::<(), LJMError>(LJMError::StartupError(error))
                &&& after == *self
            },
            Ok(library) => self.installed(LJMBinding::Dynamic(library), after, result),
        }
    }

    /// What reading a stream on `handle` gives, `values` being the buffer
    /// that the device library filled.
    pub open spec fn read_result<T>(
        &self,
        handle: i32,
        values: Vec<T>,
        error_code: i32,
        description: Result<String, LJMError>,
    ) -> Result<Vec<T>, LJMError> {
        match self.reach_error() {
            Some(error) => Err(error),
            None => if self.streams().contains_key(handle) {
                status_result(values, error_code, description)
            } else {
                Err(LJMError::StreamNotStarted)
            },
        }
    }

    /// The number of values to make room for before a stream on `handle` is
    /// read.
    pub open spec fn read_call(&self, handle: i32) -> Result<int, LJMError> {
        match self.reach_error() {
            Some(error) => Err(error),
            None => if self.streams().contains_key(handle) {
                Ok(self.streams()[handle].spec_read_length())
            } else {
                Err(LJMError::StreamNotStarted)
            },
        }
    }

    /// A session that was not initialised yet.
    pub fn new() -> (session: Self)
        ensures
            !session.is_set(),
    {
        LJMSession { wrapper: None }
    }

    /// The state that was installed, if any was.
    pub fn get(&self) -> (state: Option<&LJMLibrary>)
        ensures
            state == match self.wrapper() {
                Some(installed) => Some(&installed),
                None => None,
            },
    {
        self.wrapper.as_ref()
    }

    /// The script module that is set, if the session is initialised and one
    /// is.
    pub fn module(&self) -> (module: Option<&LJMLua>)
        ensures
            module == match self.script() {
                Some(set) => Some(&set),
                None => None,
            },
    {
        match &self.wrapper {
            Some(state) => match &state.module {
                Some(stored) => Some(&stored.module),
                None => None,
            },
            None => None,
        }
    }

    /// Records that the lock on streams and module was found poisoned. It
    /// stays so.
    pub fn poison(&mut self)
        ensures
            old(self).wrapper() is None ==> *final(self) == *old(self),
            old(self).wrapper() matches Some(before) ==> {
                &&& final(self).wrapper() matches Some(after)
                &&& after.is_poisoned()
                &&& after.loaded() == before.loaded()
                &&& after.streams() == before.streams()
                &&& after.script() == before.script()
            },
    {
        match &mut self.wrapper {
            Some(state) => {
                state.poisoned = true;
            },
            None => {},
        }
    }
}

impl LJMLibrary {
    /// How the entry points of the device library are reached, if at all.
    pub closed spec fn loaded(&self) -> Option<LJMBinding> {
        self.library
    }

    /// The streams that run, by device handle.
    pub closed spec fn streams(&self) -> Map<i32, LJMStream> {
        self.stream@
    }

    /// The script module that is set, if any.
    pub closed spec fn script(&self) -> Option<LJMLua> {
        match self.module {
            Some(stored) => Some(stored.module),
            None => None,
        }
    }

    /// Whether the lock on streams and module is poisoned.
    pub closed spec fn is_poisoned(&self) -> bool {
        self.poisoned
    }

    /// The state right after initialisation with `binding`: no stream, no
    /// module, a sound lock.
    pub open spec fn is_fresh(&self, binding: LJMBinding) -> bool {
        &&& self.loaded() == Some(binding)
        &&& self.streams() == Map::<i32, LJMStream>::empty()
        &&& self.script() is None
        &&& !self.is_poisoned()
    }

    /// The state to install for `binding`.
    fn new(binding: LJMBinding) -> (state: Self)
        ensures
            state.is_fresh(binding),
    {
        LJMLibrary {
            library: Some(binding),
            stream: HashMap::new(),
            module: None,
            poisoned: false,
        }
    }

    /// Whether the device library can be reached.
    pub fn is_initialised(&self) -> (initialised: bool)
        ensures
            initialised == self.loaded().is_some(),
    {
        self.library.is_some()
    }

    /// Where the device library is found by default on the operating system
    /// that goes by the name `os`, as the standard library names it.
    ///
    /// `None` for a system that is not supported.
    pub fn get_library_path(os: &str) -> (path: Option<String>)
        ensures
            match path {
                Some(found) => default_library_path(os@) == Some(found@),
                None => default_library_path(os@) is None,
            },
    {
        if same_text(os, "windows") {
            Some(String::from_str("LabJackM.dll"))
        } else if same_text(os, "linux") {
            Some(String::from_str("/usr/local/lib/libLabJackM.so"))
        } else if same_text(os, "macos") {
            Some(String::from_str("/usr/local/lib/libLabJackM.dylib"))
        } else {
            None
        }
    }

    /// The path to load the device library from: `path` where one is given,
    /// else the default for the operating system `os`.
    pub fn library_path(path: Option<String>, os: &str) -> (chosen: Option<String>)
        ensures
            match path {
                Some(given) => chosen == Some(given),
                None => match chosen {
                    Some(found) => default_library_path(os@) == Some(found@),
                    None => default_library_path(os@) is None,
                },
            },
    {
        match path {
            Some(given) => Some(given),
            None => LJMLibrary::get_library_path(os),
        }
    }

    /// Installs the state of a session, once.
    ///
    /// `loaded` is how loading the device library ended. A failure to load is
    /// a startup error and leaves the session as it was. So does a second
    /// initialisation: it fails and hands the state that it was to install
    /// back inside the error.
    pub fn init(
        session: &mut LJMSession,
        loaded: Result<libloading::Library, libloading::Error>,
    ) -> (result: Result<(), LJMError>)
        ensures
            old(session).initialised(loaded, *final(session), result),
    {
        match loaded {
            Ok(library) => LJMLibrary::install(session, LJMBinding::Dynamic(library)),
            Err(error) => Err(LJMError::StartupError(error)),
        }
    }

    /// Installs the state of a session, once, for a device library that was
    /// linked into the program.
    ///
    /// There is nothing to load, so the one way to fail is a session that was
    /// initialised before: it stays as it was, and the state that was to be
    /// installed comes back inside the error.
    pub fn init_static(session: &mut LJMSession) -> (result: Result<(), LJMError>)
        ensures
            old(session).installed(LJMBinding::Static, *final(session), result),
    {
        LJMLibrary::install(session, LJMBinding::Static)
    }

    fn install(session: &mut LJMSession, binding: LJMBinding) -> (result: Result<(), LJMError>)
        ensures
            old(session).installed(binding, *final(session), result),
    {
        let state = LJMLibrary::new(binding);
        if session.wrapper.is_some() {
            return Err(LJMError::WrapperInvalid(state));
        }
        session.wrapper = Some(state);
        Ok(())
    }

    /// The loaded device library, in which entry points are resolved; none
    /// where the device library was linked into the program.
    ///
    /// Fails with `Uninitialized` before the session is initialised, and for
    /// a state that cannot reach the device library.
    pub fn get_library(session: &LJMSession) -> (library: Result<
        Option<&libloading::Library>,
        LJMError,
    >)
        ensures
            match library {
                Ok(Some(found)) => {
                    &&& session.wrapper() matches Some(state)
                    &&& state.loaded() == Some(LJMBinding::Dynamic(*found))
                },
                Ok(None) => {
                    &&& session.wrapper() matches Some(state)
                    &&& state.loaded() == Some(LJMBinding::Static)
                },
                Err(error) => {
                    &&& error is Uninitialized
                    &&& session.wrapper() matches Some(state) ==> state.loaded() is None
                },
            },
    {
        match &session.wrapper {
            Some(state) => match &state.library {
                Some(LJMBinding::Dynamic(library)) => Ok(Some(library)),
                Some(LJMBinding::Static) => Ok(None),
                None => Err(LJMError::Uninitialized),
            },
            None => Err(LJMError::Uninitialized),
        }
    }

    /// Whether a stream is known to run on `handle_id`. Reads the session
    /// only; `false` where its state cannot be reached.
    pub fn is_stream_active(session: &LJMSession, handle_id: i32) -> (active: bool)
        ensures
            active == session.is_active(handle_id),
    {
        match &session.wrapper {
            Some(state) => !state.poisoned && state.stream.contains_key(&handle_id),
            None => false,
        }
    }

    /// Takes note of how starting a stream ended.
    ///
    /// `scan_rate` is the rate that the device granted, `error_code` the
    /// status of the call. Only for a zero status is the stream registered
    /// for `handle`, in place of any that was registered before; the result
    /// is then the granted rate. Any other status leaves the session as it
    /// was and gives the failure.
    pub fn stream_start<T>(
        session: &mut LJMSession,
        handle: i32,
        scans_per_read: i32,
        addresses: Vec<i32>,
        scan_rate: T,
        error_code: i32,
        description: Result<String, LJMError>,
    ) -> (result: Result<T, LJMError>)
        requires
            admissible(scans_per_read, addresses@.len()),
        ensures
            error_code != 0 ==> {
                &&& result == Err::<T, LJMError>(failure(error_code, description))
                &&& *final(session) == *old(session)
            },
            error_code == 0 ==> match old(session).reach_error() {
                Some(error) => {
                    &&& result == Err::<T, LJMError>(error)
                    &&& *final(session) == *old(session)
                },
                None => {
                    &&& result == Ok::<T, LJMError>(scan_rate)
                    &&& old(session).started(
                        *final(session),
                        handle,
                        StreamSettings { scans_per_read, scan_list: addresses@ },
                    )
                },
            },
    {
        if error_code == 0 {
            match &mut session.wrapper {
                None => {
                    return Err(LJMError::Uninitialized);
                },
                Some(state) => {
                    if state.poisoned {
                        return Err(LJMError::PoisonedLock);
                    }
                    state.stream.insert(handle, LJMStream::new(scans_per_read, addresses));
                },
            }
            assert(session.streams().dom() =~= old(session).streams().dom().insert(handle));
        }
        LJMLibrary::error_code(scan_rate, error_code, description)
    }

    /// Takes note of how stopping a stream ended.
    ///
    /// Whatever the status, the stream registered for `handle` is forgotten.
    /// It is the result for a zero status; any other status gives the
    /// failure.
    pub fn stream_stop(
        session: &mut LJMSession,
        handle: i32,
        error_code: i32,
        description: Result<String, LJMError>,
    ) -> (result: Result<Option<LJMStream>, LJMError>)
        ensures
            old(session).stopped(*final(session), handle),
            result == match old(session).reach_error() {
                Some(error) => Err(error),
                None => status_result(old(session).stream(handle), error_code, description),
            },
    {
        let stream = match &mut session.wrapper {
            None => {
                return Err(LJMError::Uninitialized);
            },
            Some(state) => {
                if state.poisoned {
                    return Err(LJMError::PoisonedLock);
                }
                state.stream.remove(&handle)
            },
        };
        LJMLibrary::error_code(stream, error_code, description)
    }

    /// The number of values to make room for before a stream is read: one
    /// per address for each scan of a read.
    ///
    /// Fails with `StreamNotStarted` where no stream is registered for
    /// `handle`, before any call is made.
    pub fn stream_read_call(session: &LJMSession, handle: i32) -> (length: Result<usize, LJMError>)
        ensures
            match session.read_call(handle) {
                Ok(n) => length == Ok::<usize, LJMError>(n as usize) && n <= usize::MAX,
                Err(error) => length == Err::<usize, LJMError>(error),
            },
    {
        match &session.wrapper {
            None => Err(LJMError::Uninitialized),
            Some(state) => {
                if state.poisoned {
                    return Err(LJMError::PoisonedLock);
                }
                match state.stream.get(&handle) {
                    None => Err(LJMError::StreamNotStarted),
                    Some(stream) => Ok(stream.read_length()),
                }
            },
        }
    }

    /// Takes note of how reading a stream ended.
    ///
    /// `values` is the buffer that the device library filled, of the length
    /// that `stream_read_call` gave. Fails with `StreamNotStarted` where no
    /// stream is registered for `handle`, whatever the call brought.
    pub fn stream_read<T>(
        session: &LJMSession,
        handle: i32,
        values: Vec<T>,
        error_code: i32,
        description: Result<String, LJMError>,
    ) -> (result: Result<Vec<T>, LJMError>)
        requires
            session.is_active(handle) ==> values@.len()
                == session.streams()[handle].spec_read_length(),
        ensures
            result == session.read_result(handle, values, error_code, description),
            result matches Ok(read) ==> session.read_call(handle) == Ok::<int, LJMError>(
                read@.len() as int,
            ),
    {
        match &session.wrapper {
            None => Err(LJMError::Uninitialized),
            Some(state) => {
                if state.poisoned {
                    return Err(LJMError::PoisonedLock);
                }
                if !state.stream.contains_key(&handle) {
                    return Err(LJMError::StreamNotStarted);
                }
                LJMLibrary::error_code(values, error_code, description)
            },
        }
    }

    /// The streams to start for a list of register names, from what
    /// resolving each name gave, in order: the address of each, its type left
    /// aside.
    ///
    /// Fails with the first failure among them.
    pub fn stream_start_addr(
        resolved: Vec<Result<(i32, i32), LJMError>>,
    ) -> (addresses: Result<Vec<i32>, LJMError>)
        ensures
            match addresses {
                Ok(list) => {
                    &&& list@.len() == resolved@.len()
                    &&& forall|i: int|
                        0 <= i < resolved@.len() ==> #[trigger] resolved@[i] == Ok::<
                            (i32, i32),
                            LJMError,
                        >((list@[i], resolved@[i]->Ok_0.1))
                },
                Err(error) => exists|k: int|
                    {
                        &&& 0 <= k < resolved@.len()
                        &&& #[trigger] resolved@[k] == Err::<(i32, i32), LJMError>(error)
                        &&& forall|i: int| 0 <= i < k ==> resolved@[i] is Ok
                    },
            },
    {
        let ghost all = resolved@;
        let mut rest = resolved;
        let mut list: Vec<i32> = Vec::new();
        while rest.len() > 0
            invariant
                all == resolved@,
                list@.len() + rest@.len() == all.len(),
                rest@ == all.skip(list@.len() as int),
                forall|i: int|
                    0 <= i < list@.len() ==> #[trigger] all[i] == Ok::<(i32, i32), LJMError>(
                        (list@[i], all[i]->Ok_0.1),
                    ),
            decreases rest@.len(),
        {
            let ghost done = list@.len() as int;
            assert(rest@[0] == all[done]);
            match rest.remove(0) {
                Ok((address, _)) => {
                    list.push(address);
                },
                Err(error) => {
                    assert(all[done] == Err::<(i32, i32), LJMError>(error));
                    assert forall|i: int| 0 <= i < done implies all[i] is Ok by {
                        assert(all[i] == Ok::<(i32, i32), LJMError>((list@[i], all[i]->Ok_0.1)));
                    }
                    return Err(error);
                },
            }
            assert(rest@ =~= all.skip(list@.len() as int));
        }
        Ok(list)
    }

    /// What the device library tells about a handle, from the six numbers
    /// that it wrote and its status.
    pub fn get_handle_info(
        device_type: i32,
        connection_type: i32,
        serial_number: i32,
        ip_address: i32,
        port: i32,
        max_bytes_per_megabyte: i32,
        error_code: i32,
        description: Result<String, LJMError>,
    ) -> (result: Result<DeviceHandleInfo, LJMError>)
        ensures
            result == status_result(
                DeviceHandleInfo {
                    device_type: device_type_of(device_type),
                    connection_type: connection_type_of(connection_type),
                    ip_address,
                    max_bytes_per_megabyte,
                    serial_number,
                    port,
                },
                error_code,
                description,
            ),
    {
        LJMLibrary::error_code(
            DeviceHandleInfo {
                device_type: DeviceType::from(device_type),
                connection_type: ConnectionType::from(connection_type),
                ip_address,
                serial_number,
                port,
                max_bytes_per_megabyte,
            },
            error_code,
            description,
        )
    }

    /// Whether a script runs, from a reading of the run flag: it does where
    /// the flag reads as exactly one.
    ///
    /// `reading` is the bit pattern of the number that was read, or why none
    /// was.
    pub fn module_running(reading: Result<u64, LJMError>) -> (running: Result<bool, LJMError>)
        ensures
            running == running_of(reading),
    {
        match reading {
            Ok(bits) => Ok(bits == LUA_RUNNING),
            Err(error) => Err(error),
        }
    }

    /// Sets `module` in place of the module that was set, unless a script
    /// still runs.
    ///
    /// `running` is whether the device reports a script running. Where it
    /// does, or where that could not be told, nothing changes.
    pub fn replace_module(
        session: &mut LJMSession,
        module: LJMLua,
        running: Result<bool, LJMError>,
    ) -> (result: Result<(), LJMError>)
        requires
            module.spec_size() <= i32::MAX,
        ensures
            match running {
                Err(error) => {
                    &&& result == Err::<(), LJMError>(error)
                    &&& *final(session) == *old(session)
                },
                Ok(true) => {
                    &&& result == Err::<(), LJMError>(LJMError::ScriptStillRunning)
                    &&& *final(session) == *old(session)
                },
                Ok(false) => if !old(session).is_set() {
                    &&& result == Err::<(), LJMError>(LJMError::Uninitialized)
                    &&& *final(session) == *old(session)
                } else if !old(session).is_usable() {
                    &&& result == Err::<(), LJMError>(LJMError::PoisonedLock)
                    &&& *final(session) == *old(session)
                } else {
                    &&& result is Ok
                    &&& final(session).same_but_script(*old(session))
                    &&& final(session).script() == Some(module)
                },
            },
    {
        match running {
            Err(error) => {
                return Err(error);
            },
            Ok(true) => {
                return Err(LJMError::ScriptStillRunning);
            },
            Ok(false) => {},
        }
        match &mut session.wrapper {
            None => Err(LJMError::Uninitialized),
            Some(state) => {
                if state.poisoned {
                    return Err(LJMError::PoisonedLock);
                }
                state.module = Some(StoredModule { module });
                Ok(())
            },
        }
    }

    /// The next step of stopping the script that runs.
    pub fn stop_module(event: ModuleEvent) -> (action: ModuleAction)
        ensures
            action@ == stop_step(event),
    {
        match event {
            ModuleEvent::Begin => ModuleAction::ReadRunning,
            ModuleEvent::Running(Ok(true)) => ModuleAction::WriteName {
                register: LuaRegister::Run,
                value: 0,
            },
            ModuleEvent::Running(Ok(false)) => ModuleAction::Done(Ok(())),
            ModuleEvent::Running(Err(error)) => ModuleAction::Done(Err(error)),
            ModuleEvent::Written(Ok(())) => ModuleAction::Pause { millis: STOP_POLL_MILLIS },
            ModuleEvent::Written(Err(error)) => ModuleAction::Done(Err(error)),
            ModuleEvent::Paused => ModuleAction::ReadRunning,
        }
    }

    /// The next step of uploading and starting the module that is set, after
    /// `completed` writes, the latest of which ended as `last`.
    pub fn start_module(
        session: &LJMSession,
        debug: bool,
        completed: usize,
        last: Result<(), LJMError>,
    ) -> (action: ModuleAction)
        ensures
            action@ == upload_step(*session, debug, completed as nat, last),
    {
        match last {
            Err(error) => {
                return ModuleAction::Done(Err(error));
            },
            Ok(()) => {},
        }
        let stored = match &session.wrapper {
            None => {
                return ModuleAction::Done(Err(LJMError::Uninitialized));
            },
            Some(state) => {
                if state.poisoned {
                    return ModuleAction::Done(Err(LJMError::PoisonedLock));
                }
                match &state.module {
                    None => {
                        return ModuleAction::Done(Err(LJMError::ScriptNotSet));
                    },
                    Some(stored) => stored,
                }
            },
        };
        proof {
            use_type_invariant(stored);
        }
        let module = &stored.module;
        if completed == 0 {
            ModuleAction::WriteName {
                register: LuaRegister::SourceSize,
                value: module.size() as u32,
            }
        } else if completed == 1 {
            match crate::marshal::c_string(module.bytes()) {
                Ok(bytes) => ModuleAction::WriteNameByteArray {
                    register: LuaRegister::SourceWrite,
                    size: module.size() as i32,
                    bytes,
                },
                Err(error) => ModuleAction::Done(Err(error)),
            }
        } else if debug && completed == 2 {
            ModuleAction::WriteName { register: LuaRegister::DebugEnable, value: 1 }
        } else if debug && completed == 3 {
            ModuleAction::WriteName { register: LuaRegister::DebugEnableDefault, value: 1 }
        } else if (debug && completed == 4) || (!debug && completed == 2) {
            ModuleAction::WriteName { register: LuaRegister::Run, value: 1 }
        } else {
            ModuleAction::Done(Ok(()))
        }
    }

    /// The first step of setting a module: `module` takes the place of the
    /// module that was set, unless a script still runs, and the script that
    /// ran before is to be stopped.
    ///
    /// `running` is whether the device reports a script running. Where it
    /// does, the result is `ScriptStillRunning` and nothing changes.
    pub fn set_module(
        session: &mut LJMSession,
        module: LJMLua,
        running: Result<bool, LJMError>,
    ) -> (next: (ModulePhase, ModuleAction))
        requires
            module.spec_size() <= i32::MAX,
        ensures
            match running {
                Ok(false) if old(session).is_usable() => {
                    &&& next.0 == ModulePhase::Stopping
                    &&& next.1@ == stop_step(ModuleEvent::Begin)
                    &&& final(session).same_but_script(*old(session))
                    &&& final(session).script() == Some(module)
                },
                _ => {
                    &&& next.0 == ModulePhase::Finished
                    &&& next.1 matches ModuleAction::Done(Err(error))
                    &&& error == match running {
                        Err(error) => error,
                        Ok(true) => LJMError::ScriptStillRunning,
                        Ok(false) => if old(session).is_set() {
                            LJMError::PoisonedLock
                        } else {
                            LJMError::Uninitialized
                        },
                    }
                    &&& *final(session) == *old(session)
                },
            },
    {
        match LJMLibrary::replace_module(session, module, running) {
            Ok(()) => (ModulePhase::Stopping, LJMLibrary::stop_module(ModuleEvent::Begin)),
            Err(error) => (ModulePhase::Finished, ModuleAction::Done(Err(error))),
        }
    }

    /// The next step of setting a module, and the phase that it leads to.
    pub fn set_module_next(
        session: &LJMSession,
        debug: bool,
        phase: ModulePhase,
        event: ModuleEvent,
    ) -> (next: (ModulePhase, ModuleAction))
        ensures
            (next.0, next.1@) == set_module_step(*session, debug, phase, event),
    {
        match phase {
            ModulePhase::Stopping => match LJMLibrary::stop_module(event) {
                ModuleAction::Done(Ok(())) => {
                    let action = LJMLibrary::start_module(session, debug, 0, Ok(()));
                    (LJMLibrary::phase_after(&action, 0), action)
                },
                ModuleAction::Done(Err(error)) => (
                    ModulePhase::Finished,
                    ModuleAction::Done(Err(error)),
                ),
                action => (ModulePhase::Stopping, action),
            },
            ModulePhase::Uploading(completed) => match event {
                ModuleEvent::Written(last) => if completed < usize::MAX {
                    let action = LJMLibrary::start_module(session, debug, completed + 1, last);
                    (LJMLibrary::phase_after(&action, completed + 1), action)
                } else {
                    (ModulePhase::Finished, ModuleAction::Done(Err(LJMError::BadState)))
                },
                _ => (ModulePhase::Finished, ModuleAction::Done(Err(LJMError::BadState))),
            },
            ModulePhase::Finished => (
                ModulePhase::Finished,
                ModuleAction::Done(Err(LJMError::BadState)),
            ),
        }
    }

    fn phase_after(action: &ModuleAction, completed: usize) -> (phase: ModulePhase)
        ensures
            phase == crate::script::phase_after(action@, completed as nat),
    {
        match action {
            ModuleAction::Done(_) => ModulePhase::Finished,
            _ => ModulePhase::Uploading(completed),
        }
    }

    /// Whether a status asks for its text: every status but zero does.
    pub fn is_error(error_code: i32) -> (error: bool)
        ensures
            error == (error_code != 0),
    {
        error_code != 0
    }

    /// Turns the status of a native call into a result.
    ///
    /// Zero is success and gives `value`. Any other status is classified and
    /// joined with the text that the device library has for it. `description`
    /// is how rendering the status as text ended; it is read for a status
    /// other than zero only.
    pub fn error_code<T>(
        value: T,
        error_code: i32,
        description: Result<String, LJMError>,
    ) -> (result: Result<T, LJMError>)
        ensures
            result == status_result(value, error_code, description),
    {
        if error_code != 0 {
            return match description {
                Ok(text) => Err(LJMError::ErrorCode(LJMErrorCode::from_code(error_code), text)),
                Err(error) => Err(error),
            };
        }
        Ok(value)
    }
}

} // verus!

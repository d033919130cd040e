//! Models of the platform API calls the supervisor interprets.
//!
//! Each function here takes the raw outcome of an API call (return value,
//! last error code, enumerated records) as plain arguments and performs the
//! supervisor's own decision: classify the outcome, select a record, or
//! build a guarded resource. Nothing in this module performs a call itself.

use vstd::prelude::*;

verus! {

/// Platform API calls whose failures are reported by name rather than by an
/// error code.
#[derive(Clone, Copy, Debug, PartialEq, Eq, Structural)]
pub enum ApiFunction {
    EnumWindows,
    OpenProcess,
    RegisterWait,
    GetExitCodeProcess,
    GetModuleFileName,
    CreateSnapshot,
    ProcessNext,
    GetCursorInfo,
    GetIconInfoEx,
    GetDc,
    CreateCompatibleDc,
    CreateCompatibleBitmap,
    GetDiBits,
    CreateSolidBrush,
}

/// A failed platform API call, as the supervisor reports it: either the
/// thread's last error code, or the name of the call when no code is
/// available, or the name of a call that rejected one of its arguments.
#[derive(Clone, Copy, Debug, PartialEq, Eq, Structural)]
pub enum OsError {
    /// The last error code the failed call left behind.
    Code(u32),
    /// The call that failed without a usable error code.
    Api(ApiFunction),
    /// The call that rejected one of its arguments.
    InvalidArgument(ApiFunction),
}

/// A request the supervisor issues to the operating system while releasing
/// resources. Teardown paths return these in the order the requests must be
/// made.
#[derive(Clone, Copy, Debug, PartialEq, Eq, Structural)]
pub enum OsAction {
    /// Ask the operating system to terminate the process with this id.
    TerminateProcess(u32),
    /// Unregister a one-shot wait object.
    UnregisterWait(usize),
    /// Close a kernel handle.
    CloseHandle(usize),
    /// Delete a device context.
    DeleteDc(usize),
    /// Delete a GDI object.
    DeleteGdiObject(usize),
    /// Release a window's device context.
    ReleaseDc(usize, usize),
}

/// Turns the raw return value of an API call that signals failure by
/// returning zero into a result, blaming the thread's last error code.
pub fn err_if_zero(value: usize, last_error: u32) -> (r: Result<usize, OsError>)
    ensures
        value == 0 ==> r == Result::<usize, OsError>::Err(OsError::Code(last_error)),
        value != 0 ==> r == Result::<usize, OsError>::Ok(value),
{
    if value == 0 {
        Err(OsError::Code(last_error))
    } else {
        Ok(value)
    }
}

/// Turns the raw return value of an API call that signals failure by
/// returning zero into a result, blaming the call by name.
pub fn err_if_zero2(value: usize, function: ApiFunction) -> (r: Result<usize, OsError>)
    ensures
        value == 0 ==> r == Result::<usize, OsError>::Err(OsError::Api(function)),
        value != 0 ==> r == Result::<usize, OsError>::Ok(value),
{
    if value == 0 {
        Err(OsError::Api(function))
    } else {
        Ok(value)
    }
}

/// One window met during a top-level enumeration: its handle, the id of the
/// process that owns it, and whether it has an owner window of its own.
#[derive(Clone, Copy, Debug, PartialEq, Eq, Structural)]
pub struct WindowInfo {
    /// The window handle, never null for a window the system enumerates.
    pub handle: usize,
    /// The id of the process the window's thread belongs to.
    pub process_id: u32,
    /// Whether the window has an owner window (a child dialog does; a
    /// genuine top-level window does not).
    pub has_owner: bool,
}

impl WindowInfo {
    /// Whether this window counts as the main window of `process_id`: it
    /// belongs to that process and has no owner window.
    pub open spec fn is_main_window_for(self, process_id: u32) -> bool {
        self.process_id == process_id && !self.has_owner
    }
}

/// Everything one window enumeration pass reports back: the windows met in
/// enumeration order, whether the enumeration call returned false, and the
/// thread's last error code right after it. The call returns false both
/// when it fails and when the callback stops it on purpose; only the error
/// code tells the two apart.
#[derive(Clone, Debug, PartialEq, Eq)]
pub struct WindowEnumeration {
    /// The windows the enumeration visited, in the order it visited them.
    pub windows: Vec<WindowInfo>,
    /// Whether the enumeration call itself returned false.
    pub returned_false: bool,
    /// The last error code observed right after the call.
    pub last_error: u32,
}

/// The handle of the first window in `windows` that is a main window of
/// `process_id`, or null (zero) when there is none. Enumeration order
/// breaks ties.
pub open spec fn first_main_window(windows: Seq<WindowInfo>, process_id: u32) -> usize
    decreases windows.len(),
{
    if windows.len() == 0 {
        0
    } else if windows[0].is_main_window_for(process_id) {
        windows[0].handle
    } else {
        first_main_window(windows.drop_first(), process_id)
    }
}

/// What searching an enumeration for the main window of `process_id`
/// returns: the enumeration's own failure when it has one, else the first
/// main window, else null.
pub open spec fn spec_find_main_window(process_id: u32, e: WindowEnumeration) -> Result<
    usize,
    OsError,
> {
    if e.returned_false && e.last_error != 0 {
        Err(OsError::Code(e.last_error))
    } else {
        Ok(first_main_window(e.windows@, process_id))
    }
}

/// Selects the main window of `process_id` from one enumeration pass.
///
/// A false return from the enumeration call is a failure only when it left
/// a nonzero error code; a zero code merely means the callback stopped the
/// enumeration on purpose, and the search result stands. When no visited
/// window qualifies the result is the null handle, not an error.
pub fn find_main_window(process_id: u32, e: &WindowEnumeration) -> (r: Result<usize, OsError>)
    ensures
        r == spec_find_main_window(process_id, *e),
        r is Err <==> e.returned_false && e.last_error != 0,
{
    if e.returned_false && e.last_error != 0 {
        return Err(OsError::Code(e.last_error));
    }
    let n = e.windows.len();
    let mut i: usize = 0;
    proof {
        assert(e.windows@.skip(0) =~= e.windows@);
    }
    while i < n
        invariant
            0 <= i <= n,
            n == e.windows@.len(),
            !(e.returned_false && e.last_error != 0),
            first_main_window(e.windows@, process_id) == first_main_window(
                e.windows@.skip(i as int),
                process_id,
            ),
            forall|j: int| 0 <= j < i ==> !e.windows@[j].is_main_window_for(process_id),
        decreases n - i,
    {
        let w = e.windows[i];
        proof {
            assert(e.windows@.skip(i as int)[0] == e.windows@[i as int]);
            assert(e.windows@.skip(i as int).drop_first() =~= e.windows@.skip(i + 1));
        }
        if w.process_id == process_id && !w.has_owner {
            return Ok(w.handle);
        }
        i = i + 1;
    }
    proof {
        assert(e.windows@.skip(n as int) =~= Seq::<WindowInfo>::empty());
    }
    Ok(0)
}

/// The error code the process snapshot reports when it has run out of
/// entries; it ends the walk and is not a failure.
pub const ERROR_NO_MORE_FILES: u32 = 18;

/// The error code an API call reports when it rejected one of its
/// arguments.
pub const ERROR_INVALID_PARAMETER: u32 = 87;

/// The number of wide characters reserved for a module path query.
pub const PATH_BUFFER_SIZE: usize = 1024;

/// The index of the first zero in `s` at or after `i`, or the length of
/// `s` when no zero follows.
pub open spec fn zero_cut(s: Seq<u16>, i: int) -> int
    decreases s.len() - i,
{
    if i < 0 || i >= s.len() {
        i
    } else if s[i] == 0 {
        i
    } else {
        zero_cut(s, i + 1)
    }
}

/// The prefix of `s` before its first zero: how a zero-terminated buffer
/// reads as a string.
pub open spec fn trimmed_at_zero(s: Seq<u16>) -> Seq<u16> {
    s.take(zero_cut(s, 0))
}

/// Copies the first `n` wide characters of `v`.
pub fn copy_wide_prefix(v: &Vec<u16>, n: usize) -> (r: Vec<u16>)
    requires
        n <= v@.len(),
    ensures
        r@ == v@.take(n as int),
{
    let mut r: Vec<u16> = Vec::new();
    let mut i: usize = 0;
    while i < n
        invariant
            0 <= i <= n <= v@.len(),
            r@ == v@.take(i as int),
        decreases n - i,
    {
        r.push(v[i]);
        proof {
            assert(r@ =~= v@.take(i + 1));
        }
        i = i + 1;
    }
    r
}

/// Whether two wide strings hold the same characters.
pub fn wide_eq(a: &Vec<u16>, b: &Vec<u16>) -> (r: bool)
    ensures
        r == (a@ == b@),
{
    if a.len() != b.len() {
        return false;
    }
    let n = a.len();
    let mut i: usize = 0;
    while i < n
        invariant
            0 <= i <= n,
            n == a@.len() == b@.len(),
            forall|j: int| 0 <= j < i ==> a@[j] == b@[j],
        decreases n - i,
    {
        if a[i] != b[i] {
            return false;
        }
        i = i + 1;
    }
    proof {
        assert(a@ =~= b@);
    }
    true
}

/// Cuts a zero-terminated buffer down to the prefix before its first zero,
/// the way the system's fixed-size string fields are read.
pub fn slice_to_zero(s: &Vec<u16>) -> (r: Vec<u16>)
    ensures
        r@ == trimmed_at_zero(s@),
{
    let n = s.len();
    let mut i: usize = 0;
    while i < n && s[i] != 0
        invariant
            0 <= i <= n == s@.len(),
            zero_cut(s@, 0) == zero_cut(s@, i as int),
        decreases n - i,
    {
        proof {
            assert(zero_cut(s@, i as int) == zero_cut(s@, i + 1));
        }
        i = i + 1;
    }
    copy_wide_prefix(s, i)
}

/// An enumeration failure is surfaced exactly when the enumeration call
/// returned false with a nonzero error code; a zero code is never an
/// error, and the surfaced error always carries the nonzero code.
pub proof fn lemma_enumeration_error_surfaced_iff_nonzero(process_id: u32, e: WindowEnumeration)
    ensures
        spec_find_main_window(process_id, e) is Err <==> (e.returned_false && e.last_error != 0),
        e.returned_false && e.last_error != 0 ==> spec_find_main_window(process_id, e)
            == Result::<usize, OsError>::Err(OsError::Code(e.last_error)),
{
}

/// One entry of a system process snapshot: the process id and the raw,
/// zero-terminated buffer holding the executable's file name.
#[derive(Debug)]
pub struct ProcessInfo {
    /// The id of the process.
    pub process_id: u32,
    /// The raw executable file name field, read up to its first zero.
    pub exe_file_buffer: Vec<u16>,
}

impl ProcessInfo {
    /// Builds an entry from the fields of a snapshot record.
    pub fn new(process_id: u32, exe_file_buffer: Vec<u16>) -> (r: ProcessInfo)
        ensures
            r.process_id == process_id,
            r.exe_file_buffer@ == exe_file_buffer@,
    {
        ProcessInfo { process_id, exe_file_buffer }
    }

    /// The id of the process.
    pub fn process_id(&self) -> (r: u32)
        ensures
            r == self.process_id,
    {
        self.process_id
    }

    /// The executable's file name: the raw buffer cut at its first zero.
    pub fn exe_file_raw(&self) -> (r: Vec<u16>)
        ensures
            r@ == trimmed_at_zero(self.exe_file_buffer@),
    {
        slice_to_zero(&self.exe_file_buffer)
    }
}

/// A walk over one system process snapshot. The snapshot's entries come in
/// the order the system reported them; the walk can end cleanly or, when
/// the snapshot reading failed partway, with one reported error.
#[derive(Debug)]
pub struct ProcessIterator {
    /// The entries the snapshot holds, in reported order.
    pub entries: Vec<ProcessInfo>,
    /// The error code the snapshot reading ended with, if any; the
    /// no-more-entries code counts as a clean end.
    pub failure: Option<u32>,
    /// How many entries the walk has handed out.
    pub position: usize,
}

impl ProcessIterator {
    /// The failure the walk surfaces after its last entry, if any: the
    /// recorded error code, unless it merely says the entries ran out.
    pub open spec fn surfaced_failure(self) -> Option<u32> {
        match self.failure {
            Some(code) => if code != ERROR_NO_MORE_FILES {
                Some(code)
            } else {
                None
            },
            None => None,
        }
    }

    /// Starts a walk over a snapshot.
    pub fn new(entries: Vec<ProcessInfo>, failure: Option<u32>) -> (r: ProcessIterator)
        ensures
            r.entries@ == entries@,
            r.failure == failure,
            r.position == 0,
    {
        ProcessIterator { entries, failure, position: 0 }
    }

    /// Hands out the next snapshot entry: each entry in order, then the
    /// surfaced failure once if there is one, then nothing.
    pub fn next_entry(&mut self) -> (r: Option<Result<ProcessInfo, OsError>>)
        ensures
            final(self).entries@ == old(self).entries@,
            final(self).failure == old(self).failure,
            old(self).position < old(self).entries@.len() ==> {
                &&& final(self).position == old(self).position + 1
                &&& r matches Some(e) && e matches Ok(p)
                    && p.process_id == old(self).entries@[old(self).position as int].process_id
                    && p.exe_file_buffer@ == old(self).entries@[old(
                    self,
                ).position as int].exe_file_buffer@
            },
            old(self).position >= old(self).entries@.len() ==> final(self).position == old(
                self,
            ).position && r == match old(self).surfaced_failure() {
                Some(code) => Some(Result::<ProcessInfo, OsError>::Err(OsError::Code(code))),
                None => None,
            },
    {
        let n = self.entries.len();
        if self.position < n {
            let i = self.position;
            self.position = i + 1;
            let p = &self.entries[i];
            let buffer = copy_wide_prefix(&p.exe_file_buffer, p.exe_file_buffer.len());
            proof {
                assert(p.exe_file_buffer@.take(p.exe_file_buffer@.len() as int)
                    =~= p.exe_file_buffer@);
            }
            Some(Ok(ProcessInfo { process_id: p.process_id, exe_file_buffer: buffer }))
        } else {
            match self.failure {
                Some(code) if code != ERROR_NO_MORE_FILES => Some(Err(OsError::Code(code))),
                _ => None,
            }
        }
    }
}

/// Exclusive ownership of one open process handle. The guard is the only
/// holder of the handle; releasing it is the one close of that handle.
#[derive(Debug)]
pub struct ProcessHandle {
    /// The raw handle, never null.
    pub handle: usize,
}

impl ProcessHandle {
    /// Interprets the raw result of opening a process: a null handle means
    /// the open failed with the thread's last error code.
    pub fn open(raw_handle: usize, last_error: u32) -> (r: Result<ProcessHandle, OsError>)
        ensures
            raw_handle == 0 ==> r == Result::<ProcessHandle, OsError>::Err(
                OsError::Code(last_error),
            ),
            raw_handle != 0 ==> (r matches Ok(h) && h.handle == raw_handle),
    {
        match err_if_zero(raw_handle, last_error) {
            Ok(h) => Ok(ProcessHandle { handle: h }),
            Err(e) => Err(e),
        }
    }

    /// The close request this guard's release issues.
    pub open spec fn teardown_actions(self) -> Seq<OsAction> {
        seq![OsAction::CloseHandle(self.handle)]
    }

    /// Releases the guard: the handle is closed, once.
    pub fn close(self) -> (actions: Vec<OsAction>)
        ensures
            actions@ == self.teardown_actions(),
    {
        let mut actions: Vec<OsAction> = Vec::new();
        actions.push(OsAction::CloseHandle(self.handle));
        proof {
            assert(actions@ =~= self.teardown_actions());
        }
        actions
    }
}

/// Joint ownership of a registered one-shot wait object and the process
/// handle it watches. The two are one guard because their release order is
/// fixed: the wait object must be unregistered first, since its callback
/// may still run and use the process handle until unregistration returns.
#[derive(Debug)]
pub struct WaitHandle {
    /// The registered wait object.
    pub wait_object: usize,
    /// The process handle the wait is bound to.
    pub process_handle: usize,
}

impl WaitHandle {
    /// The release requests this guard issues, in the order they must be
    /// made: unregister the wait, then close the process handle.
    pub open spec fn teardown_actions(self) -> Seq<OsAction> {
        seq![OsAction::UnregisterWait(self.wait_object), OsAction::CloseHandle(self.process_handle)]
    }

    /// Releases the guard: first the wait object is unregistered, and only
    /// then is the process handle closed.
    pub fn close(self) -> (actions: Vec<OsAction>)
        ensures
            actions@ == self.teardown_actions(),
    {
        let mut actions: Vec<OsAction> = Vec::new();
        actions.push(OsAction::UnregisterWait(self.wait_object));
        actions.push(OsAction::CloseHandle(self.process_handle));
        proof {
            assert(actions@ =~= self.teardown_actions());
        }
        actions
    }
}

/// In the release of a wait registration, every unregister request comes
/// strictly before every close request.
pub proof fn lemma_unregister_before_close(w: WaitHandle, i: int, j: int)
    requires
        0 <= i < w.teardown_actions().len(),
        0 <= j < w.teardown_actions().len(),
        w.teardown_actions()[i] is UnregisterWait,
        w.teardown_actions()[j] is CloseHandle,
    ensures
        i < j,
{
}

/// Interprets the raw outcome of registering a one-shot wait on an owned
/// process handle. On success the handle's ownership moves into the
/// returned joint guard and nothing is released; on failure the handle is
/// released here and the wait registration error is surfaced. The second
/// component lists the release requests this step itself issued.
pub fn register_wait(process_handle: ProcessHandle, succeeded: bool, wait_object: usize,
    last_error: u32) -> (r: (Result<WaitHandle, OsError>, Vec<OsAction>))
    ensures
        succeeded ==> (r.0 matches Ok(w) && w.wait_object == wait_object && w.process_handle
            == process_handle.handle) && r.1@ == Seq::<OsAction>::empty(),
        !succeeded ==> r.0 == Result::<WaitHandle, OsError>::Err(OsError::Code(last_error)) && r.1@
            == process_handle.teardown_actions(),
{
    if succeeded {
        let w = WaitHandle { wait_object, process_handle: process_handle.handle };
        (Ok(w), Vec::new())
    } else {
        let actions = process_handle.close();
        (Err(OsError::Code(last_error)), actions)
    }
}

/// How a finished process reported its end. The system always records an
/// exit code for a process that has exited, so the code is always there;
/// reading it can only fail at the query, which is reported separately.
#[derive(Clone, Copy, Debug, PartialEq, Eq, Structural)]
pub struct ExitStatus {
    /// The recorded exit code.
    pub raw_code: u32,
}

impl ExitStatus {
    /// The exit code, if one was recorded; for this system it always was.
    pub fn code(&self) -> (r: Option<u32>)
        ensures
            r == Some(self.raw_code),
    {
        Some(self.raw_code)
    }
}

/// A pollable completion for one watched process: the registered wait's
/// guard, plus the completion cell the wait callback fills (observed by the
/// poller and handed in at each poll).
#[derive(Debug)]
pub struct ProcessFuture {
    /// The guard of the wait registration backing this completion.
    pub wait_handle: WaitHandle,
}

impl ProcessFuture {
    /// One poll of the completion. `completion_ready` is what the one-shot
    /// completion cell shows; when it is set, the exit code is queried, and
    /// `query_succeeded`, `exit_code` and `query_last_error` are that
    /// query's raw outcome. The callback itself never queries the code;
    /// only this poll does.
    pub fn poll(&self, completion_ready: bool, query_succeeded: bool, exit_code: u32,
        query_last_error: u32) -> (r: Result<crate::future_helper::Async<ExitStatus>, OsError>)
        ensures
            !completion_ready ==> r == Result::<crate::future_helper::Async<ExitStatus>,
                OsError,
            >::Ok(crate::future_helper::Async::NotReady),
            completion_ready && !query_succeeded ==> r == Result::<
                crate::future_helper::Async<ExitStatus>,
                OsError,
            >::Err(OsError::Code(query_last_error)),
            completion_ready && query_succeeded ==> r == Result::<
                crate::future_helper::Async<ExitStatus>,
                OsError,
            >::Ok(crate::future_helper::Async::Ready(ExitStatus { raw_code: exit_code })),
    {
        if !completion_ready {
            Ok(crate::future_helper::Async::NotReady)
        } else if !query_succeeded {
            Err(OsError::Code(query_last_error))
        } else {
            Ok(crate::future_helper::Async::Ready(ExitStatus { raw_code: exit_code }))
        }
    }

    /// Releases the completion's wait registration, in the registration
    /// guard's fixed order.
    pub fn close(self) -> (actions: Vec<OsAction>)
        ensures
            actions@ == self.wait_handle.teardown_actions(),
    {
        self.wait_handle.close()
    }
}

/// Builds a pollable exit notification for one process from the raw
/// outcomes of opening its handle and registering the one-shot wait. The
/// second component lists the release requests issued when a step failed.
pub fn wait_process_async(open_raw: usize, open_last_error: u32, register_succeeded: bool,
    wait_object: usize, register_last_error: u32) -> (r: (Result<ProcessFuture, OsError>, Vec<
    OsAction,
>))
    ensures
        open_raw == 0 ==> r.0 == Result::<ProcessFuture, OsError>::Err(
            OsError::Code(open_last_error),
        ) && r.1@ == Seq::<OsAction>::empty(),
        open_raw != 0 && !register_succeeded ==> r.0 == Result::<ProcessFuture, OsError>::Err(
            OsError::Code(register_last_error),
        ) && r.1@ == seq![OsAction::CloseHandle(open_raw)],
        open_raw != 0 && register_succeeded ==> (r.0 matches Ok(f) && f.wait_handle.wait_object
            == wait_object && f.wait_handle.process_handle == open_raw) && r.1@ == Seq::<
            OsAction,
        >::empty(),
{
    let handle = match ProcessHandle::open(open_raw, open_last_error) {
        Ok(h) => h,
        Err(e) => {
            return (Err(e), Vec::new());
        },
    };
    let (registered, actions) = register_wait(handle, register_succeeded, wait_object,
        register_last_error);
    match registered {
        Ok(w) => (Ok(ProcessFuture { wait_handle: w }), actions),
        Err(e) => (Err(e), actions),
    }
}

/// Reads a process's module path from the raw outcomes of opening the
/// process and querying the path into `buffer`: `copied_len` is the wide
/// character count the query reported, never more than the buffer holds.
pub fn get_process_path(open_raw: usize, open_last_error: u32, copied_len: u32,
    query_last_error: u32, buffer: &Vec<u16>) -> (r: Result<Vec<u16>, OsError>)
    requires
        copied_len as int <= buffer@.len(),
    ensures
        open_raw == 0 ==> r == Result::<Vec<u16>, OsError>::Err(OsError::Code(open_last_error)),
        open_raw != 0 && copied_len == 0 ==> r == Result::<Vec<u16>, OsError>::Err(
            OsError::Code(query_last_error),
        ),
        open_raw != 0 && copied_len != 0 ==> (r matches Ok(p) && p@ == buffer@.take(
            copied_len as int,
        )),
    {
    if open_raw == 0 {
        return Err(OsError::Code(open_last_error));
    }
    if copied_len == 0 {
        return Err(OsError::Code(query_last_error));
    }
    Ok(copy_wide_prefix(buffer, copied_len as usize))
}

/// Decides the outcome of a termination request from the raw outcomes of
/// opening the process for termination and asking the system to end it.
pub fn kill_process(open_raw: usize, open_last_error: u32, terminate_succeeded: bool,
    terminate_last_error: u32) -> (r: Result<(), OsError>)
    ensures
        open_raw == 0 ==> r == Result::<(), OsError>::Err(OsError::Code(open_last_error)),
        open_raw != 0 && !terminate_succeeded ==> r == Result::<(), OsError>::Err(
            OsError::Code(terminate_last_error),
        ),
        open_raw != 0 && terminate_succeeded ==> r == Result::<(), OsError>::Ok(()),
{
    if open_raw == 0 {
        Err(OsError::Code(open_last_error))
    } else if !terminate_succeeded {
        Err(OsError::Code(terminate_last_error))
    } else {
        Ok(())
    }
}

/// Decides the outcome of a cursor move request from the call's raw
/// outcome.
pub fn set_cursor_pos(succeeded: bool, last_error: u32) -> (r: Result<(), OsError>)
    ensures
        succeeded ==> r == Result::<(), OsError>::Ok(()),
        !succeeded ==> r == Result::<(), OsError>::Err(OsError::Code(last_error)),
{
    if succeeded {
        Ok(())
    } else {
        Err(OsError::Code(last_error))
    }
}

/// The shape of the cursor currently shown, told apart by which of the
/// system's stock cursors it is.
#[derive(Clone, Copy, Debug, PartialEq, Eq, Hash, Structural)]
pub enum CursorType {
    /// No cursor is shown.
    Hidden,
    /// The stock arrow cursor.
    Arrow,
    /// The stock hand cursor.
    Hand,
    /// The stock unavailable cursor.
    No,
    /// Some other cursor, identified by its raw handle.
    Other(usize),
}

impl Default for CursorType {
    /// The default cursor classification: no cursor.
    fn default() -> (r: Self)
        ensures
            r == CursorType::Hidden,
    {
        CursorType::Hidden
    }
}

/// How a cursor handle classifies against the loaded stock cursors.
pub open spec fn spec_cursor_type(cursor: usize, arrow: usize, hand: usize, no: usize)
    -> CursorType {
    if cursor == 0 {
        CursorType::Hidden
    } else if cursor == arrow {
        CursorType::Arrow
    } else if cursor == hand {
        CursorType::Hand
    } else if cursor == no {
        CursorType::No
    } else {
        CursorType::Other(cursor)
    }
}

/// Classifies the cursor a cursor-info query reported. `arrow`, `hand` and
/// `no` are the handles of the loaded stock cursors; loading gives each
/// stock cursor one fixed, distinct, non-null handle.
pub fn get_cursor_type(query_succeeded: bool, last_error: u32, cursor: usize, arrow: usize,
    hand: usize, no: usize) -> (r: Result<CursorType, OsError>)
    requires
        arrow != 0,
        hand != 0,
        no != 0,
        arrow != hand,
        arrow != no,
        hand != no,
    ensures
        !query_succeeded ==> r == Result::<CursorType, OsError>::Err(OsError::Code(last_error)),
        query_succeeded ==> r == Result::<CursorType, OsError>::Ok(
            spec_cursor_type(cursor, arrow, hand, no),
        ),
{
    if !query_succeeded {
        return Err(OsError::Code(last_error));
    }
    if cursor == 0 {
        Ok(CursorType::Hidden)
    } else if cursor == arrow {
        Ok(CursorType::Arrow)
    } else if cursor == hand {
        Ok(CursorType::Hand)
    } else if cursor == no {
        Ok(CursorType::No)
    } else {
        Ok(CursorType::Other(cursor))
    }
}

/// Reads the current cursor's resource name from the raw outcomes of the
/// cursor-info query and the icon-info query; the name is the query's
/// zero-terminated buffer cut at its first zero.
pub fn get_cursor_res_name(cursor_query_succeeded: bool, cursor_query_last_error: u32,
    icon_query_succeeded: bool, res_name_buffer: &Vec<u16>) -> (r: Result<Vec<u16>, OsError>)
    ensures
        !cursor_query_succeeded ==> r == Result::<Vec<u16>, OsError>::Err(
            OsError::Code(cursor_query_last_error),
        ),
        cursor_query_succeeded && !icon_query_succeeded ==> r == Result::<Vec<u16>, OsError>::Err(
            OsError::Api(ApiFunction::GetIconInfoEx),
        ),
        cursor_query_succeeded && icon_query_succeeded ==> (r matches Ok(name) && name@
            == trimmed_at_zero(res_name_buffer@)),
{
    if !cursor_query_succeeded {
        return Err(OsError::Code(cursor_query_last_error));
    }
    if !icon_query_succeeded {
        return Err(OsError::Api(ApiFunction::GetIconInfoEx));
    }
    Ok(slice_to_zero(res_name_buffer))
}

/// One captured bitmap: its size and its pixel rows, four bytes per pixel.
#[derive(Clone, Debug)]
pub struct BitmapBuffer {
    /// Width in pixels.
    pub width: u32,
    /// Height in pixels.
    pub height: u32,
    /// The pixel bytes, exactly four per pixel.
    pub buffer: Vec<u8>,
}

impl BitmapBuffer {
    /// Whether the pixel bytes match the stated size.
    pub open spec fn wf(self) -> bool {
        self.buffer@.len() == self.width * self.height * 4
    }
}

/// The byte count of a bitmap of the given size, four bytes per pixel.
pub fn bitmap_buffer_size(width: u32, height: u32) -> (n: usize)
    requires
        width * height * 4 <= usize::MAX,
    ensures
        n == width * height * 4,
{
    (width as usize) * (height as usize) * 4
}

/// Assembles a captured cursor bitmap from the raw outcome of the pixel
/// copy: the call's return value (`scan_lines`), and the buffer the pixels
/// were copied into.
pub fn get_cursor_bitmap(scan_lines: u32, width: u32, height: u32, buffer: Vec<u8>) -> (r: Result<
    BitmapBuffer,
    OsError,
>)
    requires
        buffer@.len() == width * height * 4,
    ensures
        scan_lines == 0 ==> r == Result::<BitmapBuffer, OsError>::Err(
            OsError::Api(ApiFunction::GetDiBits),
        ),
        scan_lines == ERROR_INVALID_PARAMETER ==> r == Result::<BitmapBuffer, OsError>::Err(
            OsError::InvalidArgument(ApiFunction::GetDiBits),
        ),
        scan_lines != 0 && scan_lines != ERROR_INVALID_PARAMETER ==> (r matches Ok(b) && b.width
            == width && b.height == height && b.buffer@ == buffer@ && b.wf()),
{
    if scan_lines == 0 {
        Err(OsError::Api(ApiFunction::GetDiBits))
    } else if scan_lines == ERROR_INVALID_PARAMETER {
        Err(OsError::InvalidArgument(ApiFunction::GetDiBits))
    } else {
        Ok(BitmapBuffer { width, height, buffer })
    }
}

/// Exclusive ownership of a window's device context, released by giving
/// the context back to the window.
#[derive(Debug)]
pub struct DeviceContextFromWindow {
    /// The window the context was taken from (null for the screen).
    pub hwnd: usize,
    /// The device context handle, never null.
    pub hdc: usize,
}

impl DeviceContextFromWindow {
    /// Interprets the raw result of taking a window's device context.
    pub fn get(hwnd: usize, raw_hdc: usize) -> (r: Result<DeviceContextFromWindow, OsError>)
        ensures
            raw_hdc == 0 ==> r == Result::<DeviceContextFromWindow, OsError>::Err(
                OsError::Api(ApiFunction::GetDc),
            ),
            raw_hdc != 0 ==> (r matches Ok(dc) && dc.hwnd == hwnd && dc.hdc == raw_hdc),
    {
        match err_if_zero2(raw_hdc, ApiFunction::GetDc) {
            Ok(h) => Ok(DeviceContextFromWindow { hwnd, hdc: h }),
            Err(e) => Err(e),
        }
    }

    /// The device context handle.
    pub fn hdc(&self) -> (r: usize)
        ensures
            r == self.hdc,
    {
        self.hdc
    }

    /// The release request this guard issues.
    pub open spec fn teardown_actions(self) -> Seq<OsAction> {
        seq![OsAction::ReleaseDc(self.hwnd, self.hdc)]
    }

    /// Releases the guard: the context goes back to its window.
    pub fn close(self) -> (actions: Vec<OsAction>)
        ensures
            actions@ == self.teardown_actions(),
    {
        let mut actions: Vec<OsAction> = Vec::new();
        actions.push(OsAction::ReleaseDc(self.hwnd, self.hdc));
        proof {
            assert(actions@ =~= self.teardown_actions());
        }
        actions
    }
}

/// Exclusive ownership of a memory device context with a bitmap selected
/// into it. Release deletes the context first and the bitmap second, since
/// the bitmap is still selected into the context.
#[derive(Debug)]
pub struct GdiBitmap {
    /// The memory device context, never null.
    pub hdc: usize,
    /// The bitmap handle, never null.
    pub hbmp: usize,
}

impl GdiBitmap {
    /// Interprets the raw outcomes of creating a memory context and a
    /// compatible bitmap. When the bitmap creation fails after the context
    /// was already made, the context is released here; the second
    /// component lists the release requests this step itself issued. On
    /// success the bitmap has been selected into the context.
    pub fn create(compat_dc_raw: usize, bitmap_raw: usize) -> (r: (Result<GdiBitmap, OsError>, Vec<
        OsAction,
    >))
        ensures
            compat_dc_raw == 0 ==> r.0 == Result::<GdiBitmap, OsError>::Err(
                OsError::Api(ApiFunction::CreateCompatibleDc),
            ) && r.1@ == Seq::<OsAction>::empty(),
            compat_dc_raw != 0 && bitmap_raw == 0 ==> r.0 == Result::<GdiBitmap, OsError>::Err(
                OsError::Api(ApiFunction::CreateCompatibleBitmap),
            ) && r.1@ == seq![OsAction::DeleteDc(compat_dc_raw)],
            compat_dc_raw != 0 && bitmap_raw != 0 ==> (r.0 matches Ok(g) && g.hdc == compat_dc_raw
                && g.hbmp == bitmap_raw) && r.1@ == Seq::<OsAction>::empty(),
    {
        if compat_dc_raw == 0 {
            return (Err(OsError::Api(ApiFunction::CreateCompatibleDc)), Vec::new());
        }
        if bitmap_raw == 0 {
            let mut actions: Vec<OsAction> = Vec::new();
            actions.push(OsAction::DeleteDc(compat_dc_raw));
            proof {
                assert(actions@ =~= seq![OsAction::DeleteDc(compat_dc_raw)]);
            }
            return (Err(OsError::Api(ApiFunction::CreateCompatibleBitmap)), actions);
        }
        (Ok(GdiBitmap { hdc: compat_dc_raw, hbmp: bitmap_raw }), Vec::new())
    }

    /// The memory device context.
    pub fn hdc(&self) -> (r: usize)
        ensures
            r == self.hdc,
    {
        self.hdc
    }

    /// The bitmap handle.
    pub fn hbmp(&self) -> (r: usize)
        ensures
            r == self.hbmp,
    {
        self.hbmp
    }

    /// The release requests this guard issues, in the order they must be
    /// made: delete the context first, the still-selected bitmap second.
    pub open spec fn teardown_actions(self) -> Seq<OsAction> {
        seq![OsAction::DeleteDc(self.hdc), OsAction::DeleteGdiObject(self.hbmp)]
    }

    /// Releases the guard in its fixed order.
    pub fn close(self) -> (actions: Vec<OsAction>)
        ensures
            actions@ == self.teardown_actions(),
    {
        let mut actions: Vec<OsAction> = Vec::new();
        actions.push(OsAction::DeleteDc(self.hdc));
        actions.push(OsAction::DeleteGdiObject(self.hbmp));
        proof {
            assert(actions@ =~= self.teardown_actions());
        }
        actions
    }
}

/// Packs a colour from its channels the way the brush creation call takes
/// it: red in the lowest byte, then green, blue and alpha.
pub fn pack_color(red: u8, green: u8, blue: u8, alpha: u8) -> (c: u32)
    ensures
        c == red + green * 0x100 + blue * 0x10000 + alpha * 0x1000000,
{
    (red as u32) + (green as u32) * 0x100 + (blue as u32) * 0x10000 + (alpha as u32) * 0x1000000
}

/// Exclusive ownership of a solid brush, released by deleting it.
#[derive(Debug)]
pub struct Brush {
    /// The brush handle, never null.
    pub hbr: usize,
}

impl Brush {
    /// Interprets the raw result of creating a solid brush.
    pub fn create_solid_brush(raw_hbr: usize) -> (r: Result<Brush, OsError>)
        ensures
            raw_hbr == 0 ==> r == Result::<Brush, OsError>::Err(
                OsError::Api(ApiFunction::CreateSolidBrush),
            ),
            raw_hbr != 0 ==> (r matches Ok(b) && b.hbr == raw_hbr),
    {
        match err_if_zero2(raw_hbr, ApiFunction::CreateSolidBrush) {
            Ok(h) => Ok(Brush { hbr: h }),
            Err(e) => Err(e),
        }
    }

    /// The brush handle.
    pub fn hbr(&self) -> (r: usize)
        ensures
            r == self.hbr,
    {
        self.hbr
    }

    /// The release request this guard issues.
    pub open spec fn teardown_actions(self) -> Seq<OsAction> {
        seq![OsAction::DeleteGdiObject(self.hbr)]
    }

    /// Releases the guard: the brush is deleted.
    pub fn close(self) -> (actions: Vec<OsAction>)
        ensures
            actions@ == self.teardown_actions(),
    {
        let mut actions: Vec<OsAction> = Vec::new();
        actions.push(OsAction::DeleteGdiObject(self.hbr));
        proof {
            assert(actions@ =~= self.teardown_actions());
        }
        actions
    }
}

} // verus!

//! The supervised process: its identity, how it is discovered, and the
//! bounded polling that finds its main window.
//!
//! A process enters supervision one of two ways. Spawning launches the
//! target program and polls for its main window at a fixed interval, a
//! bounded number of times; the process is then owned, and is terminated
//! if supervision stops before its natural exit. Discovery finds an
//! already-running process by its executable name and looks its window up
//! once; such a process is external and is never terminated here.

use vstd::prelude::*;

use crate::windows_helper::OsAction;
use crate::windows_helper::OsError;
use crate::windows_helper::ProcessFuture;
use crate::windows_helper::ProcessIterator;
use crate::windows_helper::WindowEnumeration;
use crate::windows_helper::spec_find_main_window;
use crate::windows_helper::find_main_window;
use crate::windows_helper::trimmed_at_zero;
use crate::windows_helper::wait_process_async;
use crate::windows_helper::copy_wide_prefix;
use crate::windows_helper::wide_eq;
use crate::future_helper::Async;

verus! {

/// Whether a wide character separates path components.
pub open spec fn spec_is_separator(c: u16) -> bool {
    c == 0x5c || c == 0x2f
}

/// The length of the longest prefix of `s` that ends just before its last
/// separator, or zero when `s` holds no separator.
pub open spec fn last_separator_cut(s: Seq<u16>) -> int
    decreases s.len(),
{
    if s.len() == 0 {
        0
    } else if spec_is_separator(s.last()) {
        s.len() - 1
    } else {
        last_separator_cut(s.drop_last())
    }
}

/// The directory a path lies in: the path cut just before its last
/// separator, or empty when it has none.
pub open spec fn spec_parent_directory(s: Seq<u16>) -> Seq<u16> {
    s.take(last_separator_cut(s))
}

/// Cuts a path down to the directory it lies in.
pub fn parent_directory(path: &Vec<u16>) -> (r: Vec<u16>)
    ensures
        r@ == spec_parent_directory(path@),
{
    let mut i: usize = path.len();
    proof {
        assert(path@.take(path@.len() as int) =~= path@);
    }
    while i > 0 && path[i - 1] != 0x5c && path[i - 1] != 0x2f
        invariant
            0 <= i <= path@.len(),
            last_separator_cut(path@) == last_separator_cut(path@.take(i as int)),
        decreases i,
    {
        proof {
            let t = path@.take(i as int);
            assert(t.last() == path@[i - 1]);
            assert(t.drop_last() =~= path@.take(i - 1));
        }
        i = i - 1;
    }
    if i == 0 {
        proof {
            assert(path@.take(0) =~= Seq::<u16>::empty());
        }
        Vec::new()
    } else {
        proof {
            let t = path@.take(i as int);
            assert(t.last() == path@[i - 1]);
        }
        copy_wide_prefix(path, i - 1)
    }
}

/// Who answers for the supervised process's lifetime: a process this core
/// spawned is owned and is terminated when supervision stops early; a
/// process merely discovered is external and is never terminated here.
#[derive(Clone, Copy, Debug, PartialEq, Eq, Structural)]
pub enum Ownership {
    /// Spawned by this core; terminated if supervision stops before its
    /// natural exit.
    Owned,
    /// Discovered only; never terminated by this core.
    External,
}

/// A supervised process: its id, its main window, the directory it runs
/// in, and who answers for its lifetime. The window handle is only ever
/// the result of a successful discovery, so it is never null.
#[derive(Clone, Debug)]
pub struct WagahighProcess {
    /// The process id.
    pub process_id: u32,
    /// The discovered main window handle, never null.
    pub window_handle: usize,
    /// The directory the process runs in, as a wide string.
    pub directory: Vec<u16>,
    /// Who answers for the process's lifetime.
    pub ownership: Ownership,
}

impl WagahighProcess {
    /// The identity's one invariant: a discovered window is never null.
    pub open spec fn wf(self) -> bool {
        self.window_handle != 0
    }

    /// Builds the identity of a process whose main window was discovered.
    pub fn new(process_id: u32, window_handle: usize, directory: Vec<u16>, ownership: Ownership)
        -> (r: WagahighProcess)
        requires
            window_handle != 0,
        ensures
            r.process_id == process_id,
            r.window_handle == window_handle,
            r.directory@ == directory@,
            r.ownership == ownership,
            r.wf(),
    {
        WagahighProcess { process_id, window_handle, directory, ownership }
    }

    /// The process id.
    pub fn process_id(&self) -> (r: u32)
        ensures
            r == self.process_id,
    {
        self.process_id
    }

    /// The discovered main window handle.
    pub fn window_handle(&self) -> (r: usize)
        ensures
            r == self.window_handle,
    {
        self.window_handle
    }

    /// The directory the process runs in.
    pub fn directory(&self) -> (r: &Vec<u16>)
        ensures
            r@ == self.directory@,
    {
        &self.directory
    }

    /// The ownership of the process.
    pub fn ownership(&self) -> (r: Ownership)
        ensures
            r == self.ownership,
    {
        self.ownership
    }
}

/// Why building a supervised process from a process id failed.
#[derive(Clone, Copy, Debug, PartialEq, Eq, Structural)]
pub enum StartWagahighError {
    /// The process has no discoverable main window.
    WindowNotFound,
    /// A platform API call failed.
    WindowsError(OsError),
}

impl From<OsError> for StartWagahighError {
    /// Wraps a failed API call.
    fn from(x: OsError) -> (r: Self) {
        StartWagahighError::WindowsError(x)
    }
}

impl vstd::std_specs::convert::FromSpecImpl<OsError> for StartWagahighError {
    open spec fn obeys_from_spec() -> bool {
        true
    }

    open spec fn from_spec(x: OsError) -> Self {
        StartWagahighError::WindowsError(x)
    }
}

/// Why looking an already-running process up failed.
#[derive(Clone, Copy, Debug, PartialEq, Eq, Structural)]
pub enum FindWagahighError {
    /// No process in the snapshot runs the expected executable.
    ProcessNotFound,
    /// The process has no discoverable main window.
    WindowNotFound,
    /// A platform API call failed.
    WindowsError(OsError),
}

impl From<OsError> for FindWagahighError {
    /// Wraps a failed API call.
    fn from(x: OsError) -> (r: Self) {
        FindWagahighError::WindowsError(x)
    }
}

impl vstd::std_specs::convert::FromSpecImpl<OsError> for FindWagahighError {
    open spec fn obeys_from_spec() -> bool {
        true
    }

    open spec fn from_spec(x: OsError) -> Self {
        FindWagahighError::WindowsError(x)
    }
}

impl From<StartWagahighError> for FindWagahighError {
    /// Carries a window discovery failure over unchanged.
    fn from(x: StartWagahighError) -> (r: Self) {
        match x {
            StartWagahighError::WindowNotFound => FindWagahighError::WindowNotFound,
            StartWagahighError::WindowsError(e) => FindWagahighError::WindowsError(e),
        }
    }
}

impl vstd::std_specs::convert::FromSpecImpl<StartWagahighError> for FindWagahighError {
    open spec fn obeys_from_spec() -> bool {
        true
    }

    open spec fn from_spec(x: StartWagahighError) -> Self {
        match x {
            StartWagahighError::WindowNotFound => FindWagahighError::WindowNotFound,
            StartWagahighError::WindowsError(e) => FindWagahighError::WindowsError(e),
        }
    }
}

impl WagahighProcess {
    /// Builds a supervised process identity from one window lookup for an
    /// already-known process id. `path_query` is the module path query's
    /// outcome for that process; `enumeration` is one window enumeration
    /// pass. The result is external: a process found this way is never
    /// terminated by this core.
    pub fn from_process(process_id: u32, path_query: Result<Vec<u16>, OsError>,
        enumeration: &WindowEnumeration) -> (r: Result<WagahighProcess, StartWagahighError>)
    ensures
        path_query matches Err(e) ==> r == Result::<WagahighProcess, StartWagahighError>::Err(
            StartWagahighError::WindowsError(e),
        ),
        path_query matches Ok(path) ==> match spec_find_main_window(process_id, *enumeration) {
            Err(e) => r == Result::<WagahighProcess, StartWagahighError>::Err(
                StartWagahighError::WindowsError(e),
            ),
            Ok(hwnd) => if hwnd == 0 {
                r == Result::<WagahighProcess, StartWagahighError>::Err(
                    StartWagahighError::WindowNotFound,
                )
            } else {
                r matches Ok(p) && p.process_id == process_id && p.window_handle == hwnd
                    && p.directory@ == spec_parent_directory(path@) && p.ownership
                    == Ownership::External && p.wf()
            },
        },
    {
        let exe_path = match path_query {
            Ok(p) => p,
            Err(e) => {
                return Err(StartWagahighError::from(e));
            },
        };
        let directory = parent_directory(&exe_path);
        match find_main_window(process_id, enumeration) {
            Ok(hwnd) => {
                if hwnd == 0 {
                    Err(StartWagahighError::WindowNotFound)
                } else {
                    Ok(WagahighProcess::new(process_id, hwnd, directory, Ownership::External))
                }
            },
            Err(e) => Err(StartWagahighError::from(e)),
        }
    }
}

/// The fixed interval between window discovery polls, in milliseconds.
pub const DELAY_MILLIS: u64 = 500;

/// The hard cap on window discovery polls for one spawned process.
pub const MAX_NUM_TRIAL: u64 = 20;

/// Where one window discovery stands.
#[derive(Clone, Copy, Debug, PartialEq, Eq, Structural)]
pub enum DiscoveryStatus {
    /// Still waiting for a tick to find the window.
    Polling,
    /// A main window appeared; discovery stopped at that tick.
    Found(usize),
    /// Every allowed tick passed without a window.
    TimedOut,
    /// A tick's window enumeration failed; discovery stopped at that tick.
    Failed(OsError),
}

/// The bounded poll for a spawned process's main window: one tick every
/// interval, each tick one enumeration pass, at most the capped number of
/// ticks.
#[derive(Clone, Copy, Debug, PartialEq, Eq, Structural)]
pub struct WindowDiscovery {
    /// How many ticks have been spent.
    pub ticks_used: u64,
    /// Where the discovery stands.
    pub status: DiscoveryStatus,
}

impl WindowDiscovery {
    /// The discovery's invariant: the tick budget is never exceeded, a
    /// discovery still polling has budget left, and a found window is
    /// never null.
    pub open spec fn wf(self) -> bool {
        &&& self.ticks_used <= MAX_NUM_TRIAL
        &&& self.status is Polling ==> self.ticks_used < MAX_NUM_TRIAL
        &&& self.status matches DiscoveryStatus::Found(h) ==> h != 0
    }

    /// A discovery that has not ticked yet.
    pub fn new() -> (r: WindowDiscovery)
        ensures
            r.ticks_used == 0,
            r.status is Polling,
            r.wf(),
    {
        WindowDiscovery { ticks_used: 0, status: DiscoveryStatus::Polling }
    }

    /// Where one tick moves the discovery, given the tick's window lookup
    /// outcome: a window resolves it found, an enumeration failure resolves
    /// it failed, and a clean miss either spends one more tick or, on the
    /// last allowed tick, resolves it timed out.
    pub open spec fn spec_tick(self, observation: Result<usize, OsError>) -> WindowDiscovery {
        let spent = (self.ticks_used + 1) as u64;
        match observation {
            Ok(hwnd) => if hwnd != 0 {
                WindowDiscovery { ticks_used: spent, status: DiscoveryStatus::Found(hwnd) }
            } else if spent < MAX_NUM_TRIAL {
                WindowDiscovery { ticks_used: spent, status: DiscoveryStatus::Polling }
            } else {
                WindowDiscovery { ticks_used: spent, status: DiscoveryStatus::TimedOut }
            },
            Err(e) => WindowDiscovery { ticks_used: spent, status: DiscoveryStatus::Failed(e) },
        }
    }

    /// Spends one tick on the lookup outcome the tick observed. A resolved
    /// discovery takes no further tick: this call asks for a discovery
    /// that is still polling.
    pub fn tick(&mut self, observation: Result<usize, OsError>)
        requires
            old(self).wf(),
            old(self).status is Polling,
        ensures
            *final(self) == old(self).spec_tick(observation),
            final(self).wf(),
            final(self).ticks_used == old(self).ticks_used + 1,
            observation matches Err(e) ==> final(self).status == DiscoveryStatus::Failed(e),
            observation matches Ok(h) ==> (h != 0 ==> final(self).status
                == DiscoveryStatus::Found(h)),
            observation == Result::<usize, OsError>::Ok(0usize) && old(self).ticks_used + 1
                < MAX_NUM_TRIAL ==> final(self).status is Polling,
            observation == Result::<usize, OsError>::Ok(0usize) && old(self).ticks_used + 1
                == MAX_NUM_TRIAL ==> final(self).status is TimedOut,
    {
        let spent = self.ticks_used + 1;
        let status = match observation {
            Ok(hwnd) => {
                if hwnd != 0 {
                    DiscoveryStatus::Found(hwnd)
                } else if spent < MAX_NUM_TRIAL {
                    DiscoveryStatus::Polling
                } else {
                    DiscoveryStatus::TimedOut
                }
            },
            Err(e) => DiscoveryStatus::Failed(e),
        };
        self.ticks_used = spent;
        self.status = status;
    }
}

/// Where a fresh discovery stands after spending one tick on each
/// observation in `observations`, in order.
pub open spec fn spec_run_discovery(observations: Seq<Result<usize, OsError>>) -> WindowDiscovery
    decreases observations.len(),
{
    if observations.len() == 0 {
        WindowDiscovery { ticks_used: 0, status: DiscoveryStatus::Polling }
    } else {
        spec_run_discovery(observations.drop_last()).spec_tick(observations.last())
    }
}

/// Whether a tick's lookup outcome was a clean miss: no failure and no
/// window.
pub open spec fn is_no_match(observation: Result<usize, OsError>) -> bool {
    observation == Result::<usize, OsError>::Ok(0usize)
}

/// When a window never appears, discovery times out exactly on the last
/// allowed tick: after any shorter run of clean misses it is still
/// polling, and after the capped number of clean misses — never earlier,
/// never later — it stands timed out.
pub proof fn lemma_timeout_exactly_at_cap(observations: Seq<Result<usize, OsError>>, k: int)
    requires
        0 <= k <= MAX_NUM_TRIAL,
        k <= observations.len(),
        forall|i: int| 0 <= i < k ==> is_no_match(#[trigger] observations[i]),
    ensures
        spec_run_discovery(observations.take(k)).ticks_used == k,
        k < MAX_NUM_TRIAL ==> spec_run_discovery(observations.take(k)).status is Polling,
        k == MAX_NUM_TRIAL ==> spec_run_discovery(observations.take(k)).status is TimedOut,
    decreases k,
{
    if k == 0 {
        assert(observations.take(0) =~= Seq::<Result<usize, OsError>>::empty());
    } else {
        lemma_timeout_exactly_at_cap(observations, k - 1);
        assert(observations.take(k).drop_last() =~= observations.take(k - 1));
        assert(observations.take(k).last() == observations[k - 1]);
    }
}

/// When a main window first appears on tick `k` of a run that missed on
/// every earlier tick, discovery resolves found with that window on tick
/// `k` exactly, having spent `k` ticks. A resolved discovery takes no
/// further tick.
pub proof fn lemma_found_at_matching_tick(observations: Seq<Result<usize, OsError>>, k: int,
    hwnd: usize)
    requires
        1 <= k <= MAX_NUM_TRIAL,
        k <= observations.len(),
        forall|i: int| 0 <= i < k - 1 ==> is_no_match(#[trigger] observations[i]),
        observations[k - 1] == Result::<usize, OsError>::Ok(hwnd),
        hwnd != 0,
    ensures
        spec_run_discovery(observations.take(k)).ticks_used == k,
        spec_run_discovery(observations.take(k)).status == DiscoveryStatus::Found(hwnd),
{
    lemma_timeout_exactly_at_cap(observations, k - 1);
    assert(observations.take(k).drop_last() =~= observations.take(k - 1));
    assert(observations.take(k).last() == observations[k - 1]);
}

/// The executable file name the supervised program runs under, as the wide
/// characters of its name.
pub open spec fn spec_expected_exe_file() -> Seq<u16> {
    seq![
        0x30efu16,
        0x30acu16,
        0x30deu16,
        0x30deu16,
        0x30cfu16,
        0x30a4u16,
        0x30b9u16,
        0x30dau16,
        0x30c3u16,
        0x30afu16,
        0x002eu16,
        0x0065u16,
        0x0078u16,
        0x0065u16,
    ]
}

/// Builds the expected executable file name.
pub fn expected_exe_file() -> (r: Vec<u16>)
    ensures
        r@ == spec_expected_exe_file(),
{
    let mut v: Vec<u16> = Vec::new();
    v.push(0x30ef);
    v.push(0x30ac);
    v.push(0x30de);
    v.push(0x30de);
    v.push(0x30cf);
    v.push(0x30a4);
    v.push(0x30b9);
    v.push(0x30da);
    v.push(0x30c3);
    v.push(0x30af);
    v.push(0x002e);
    v.push(0x0065);
    v.push(0x0078);
    v.push(0x0065);
    proof {
        assert(v@ =~= spec_expected_exe_file());
    }
    v
}

/// Whether a snapshot entry runs the expected executable: its file name,
/// cut at its first zero, is exactly the expected name.
pub open spec fn is_expected_process(p: crate::windows_helper::ProcessInfo) -> bool {
    trimmed_at_zero(p.exe_file_buffer@) == spec_expected_exe_file()
}

/// The index of the first snapshot entry at or after `i` that runs the
/// expected executable, or the length of `entries` when none does.
pub open spec fn expected_cut(entries: Seq<crate::windows_helper::ProcessInfo>, i: int) -> int
    decreases entries.len() - i,
{
    if i < 0 || i >= entries.len() {
        i
    } else if is_expected_process(entries[i]) {
        i
    } else {
        expected_cut(entries, i + 1)
    }
}

/// Walks a process snapshot for the first entry running the expected
/// executable and hands its process id back. With no matching entry, the
/// walk fails with the snapshot's own surfaced failure if it had one, else
/// reports that the process was not found.
#[verifier::loop_isolation(false)]
pub fn find_wagahigh_pid(processes: ProcessIterator) -> (r: Result<u32, FindWagahighError>)
    requires
        processes.position == 0,
    ensures
        ({
            let entries = processes.entries@;
            let c = expected_cut(entries, 0);
            if c < entries.len() {
                r == Result::<u32, FindWagahighError>::Ok(entries[c].process_id)
            } else {
                match processes.surfaced_failure() {
                    Some(code) => r == Result::<u32, FindWagahighError>::Err(
                        FindWagahighError::WindowsError(OsError::Code(code)),
                    ),
                    None => r == Result::<u32, FindWagahighError>::Err(
                        FindWagahighError::ProcessNotFound,
                    ),
                }
            }
        }),
{
    let ghost entries0 = processes.entries@;
    let ghost failure0 = processes.failure;
    let mut processes = processes;
    let expected = expected_exe_file();
    loop
        invariant
            processes.entries@ == entries0,
            processes.failure == failure0,
            0 <= processes.position <= entries0.len(),
            expected_cut(entries0, 0) == expected_cut(entries0, processes.position as int),
            expected@ == spec_expected_exe_file(),
        decreases entries0.len() - processes.position,
    {
        let ghost q = processes.position as int;
        match processes.next_entry() {
            Some(Ok(p)) => {
                let raw = p.exe_file_raw();
                if wide_eq(&raw, &expected) {
                    proof {
                        assert(is_expected_process(entries0[q]));
                        assert(expected_cut(entries0, q) == q);
                    }
                    return Ok(p.process_id());
                }
                proof {
                    assert(!is_expected_process(entries0[q]));
                    assert(expected_cut(entries0, q) == expected_cut(entries0, q + 1));
                }
            },
            Some(Err(e)) => {
                proof {
                    assert(q == entries0.len());
                    assert(expected_cut(entries0, 0) == entries0.len());
                }
                return Err(FindWagahighError::from(e));
            },
            None => {
                proof {
                    assert(q == entries0.len());
                    assert(expected_cut(entries0, 0) == entries0.len());
                }
                return Err(FindWagahighError::ProcessNotFound);
            },
        }
    }
}

/// Looks the already-running supervised program up: walks the process
/// snapshot for the first entry running the expected executable, then
/// builds the external process identity from that process's path query and
/// one window enumeration pass. With no matching entry, the lookup fails
/// with the snapshot's own surfaced failure if it had one, else reports
/// that the process was not found — without any window lookup.
pub fn find_wagahigh(processes: ProcessIterator, path_query: Result<Vec<u16>, OsError>,
    enumeration: &WindowEnumeration) -> (r: Result<WagahighProcess, FindWagahighError>)
    requires
        processes.position == 0,
    ensures
        ({
            let entries = processes.entries@;
            let c = expected_cut(entries, 0);
            if c < entries.len() {
                let pid = entries[c].process_id;
                match path_query {
                    Err(e) => r == Result::<WagahighProcess, FindWagahighError>::Err(
                        FindWagahighError::WindowsError(e),
                    ),
                    Ok(path) => match spec_find_main_window(pid, *enumeration) {
                        Err(e) => r == Result::<WagahighProcess, FindWagahighError>::Err(
                            FindWagahighError::WindowsError(e),
                        ),
                        Ok(hwnd) => if hwnd == 0 {
                            r == Result::<WagahighProcess, FindWagahighError>::Err(
                                FindWagahighError::WindowNotFound,
                            )
                        } else {
                            r matches Ok(p) && p.process_id == pid && p.window_handle == hwnd
                                && p.directory@ == spec_parent_directory(path@) && p.ownership
                                == Ownership::External
                        },
                    },
                }
            } else {
                match processes.surfaced_failure() {
                    Some(code) => r == Result::<WagahighProcess, FindWagahighError>::Err(
                        FindWagahighError::WindowsError(OsError::Code(code)),
                    ),
                    None => r == Result::<WagahighProcess, FindWagahighError>::Err(
                        FindWagahighError::ProcessNotFound,
                    ),
                }
            }
        }),
{
    let pid = match find_wagahigh_pid(processes) {
        Ok(pid) => pid,
        Err(e) => {
            return Err(e);
        },
    };
    match WagahighProcess::from_process(pid, path_query, enumeration) {
        Ok(w) => Ok(w),
        Err(e) => Err(FindWagahighError::from(e)),
    }
}

/// Resolves a spawn once its window discovery has stopped: a found window
/// yields the owned process identity, while a timeout or a failure
/// surfaces its error — and then the termination request for the spawned
/// child comes first, so no owned child ever outlives a failed discovery.
/// The second component lists the requests this resolution issues.
pub fn resolve_spawn(process_id: u32, directory: Vec<u16>, discovery: &WindowDiscovery) -> (r: (
    Result<WagahighProcess, StartWagahighError>,
    Vec<OsAction>,
))
    requires
        discovery.wf(),
        !(discovery.status is Polling),
    ensures
        discovery.status matches DiscoveryStatus::Found(hwnd) ==> (r.0 matches Ok(p)
            && p.process_id == process_id && p.window_handle == hwnd && p.directory@ == directory@
            && p.ownership == Ownership::Owned && p.wf()) && r.1@ == Seq::<OsAction>::empty(),
        discovery.status is TimedOut ==> r.0 == Result::<WagahighProcess, StartWagahighError>::Err(
            StartWagahighError::WindowNotFound,
        ) && r.1@ == seq![OsAction::TerminateProcess(process_id)],
        discovery.status matches DiscoveryStatus::Failed(e) ==> r.0 == Result::<
            WagahighProcess,
            StartWagahighError,
        >::Err(StartWagahighError::WindowsError(e)) && r.1@ == seq![
            OsAction::TerminateProcess(process_id),
        ],
{
    match discovery.status {
        DiscoveryStatus::Found(hwnd) => {
            let p = WagahighProcess::new(process_id, hwnd, directory, Ownership::Owned);
            (Ok(p), Vec::new())
        },
        DiscoveryStatus::TimedOut => {
            let mut actions: Vec<OsAction> = Vec::new();
            actions.push(OsAction::TerminateProcess(process_id));
            proof {
                assert(actions@ =~= seq![OsAction::TerminateProcess(process_id)]);
            }
            (Err(StartWagahighError::WindowNotFound), actions)
        },
        DiscoveryStatus::Failed(e) => {
            let mut actions: Vec<OsAction> = Vec::new();
            actions.push(OsAction::TerminateProcess(process_id));
            proof {
                assert(actions@ =~= seq![OsAction::TerminateProcess(process_id)]);
            }
            (Err(StartWagahighError::WindowsError(e)), actions)
        },
        DiscoveryStatus::Polling => unreached(),
    }
}

/// A pollable exit notification for one supervised process, remembering
/// whether abandoning it must terminate the process.
#[derive(Debug)]
pub struct WagahighProcessFuture {
    /// The underlying exit completion and its wait registration guard.
    pub inner: ProcessFuture,
    /// The id of the watched process.
    pub process_id: u32,
    /// Whether abandoning this notification terminates the process: set
    /// exactly for an owned process.
    pub kill_when_drop: bool,
}

impl WagahighProcessFuture {
    /// The requests abandoning this notification issues, in order: for an
    /// owned process the termination request first, then in either case
    /// the wait registration's fixed teardown.
    pub open spec fn drop_actions(self) -> Seq<OsAction> {
        if self.kill_when_drop {
            seq![OsAction::TerminateProcess(self.process_id)]
                + self.inner.wait_handle.teardown_actions()
        } else {
            self.inner.wait_handle.teardown_actions()
        }
    }

    /// One poll of the exit notification; the arguments are the completion
    /// cell's state and the exit code query's raw outcome, as for the
    /// underlying completion.
    pub fn poll(&self, completion_ready: bool, query_succeeded: bool, exit_code: u32,
        query_last_error: u32) -> (r: Result<Async<crate::windows_helper::ExitStatus>, OsError>)
        ensures
            !completion_ready ==> r == Result::<Async<crate::windows_helper::ExitStatus>,
                OsError,
            >::Ok(Async::NotReady),
            completion_ready && !query_succeeded ==> r == Result::<
                Async<crate::windows_helper::ExitStatus>,
                OsError,
            >::Err(OsError::Code(query_last_error)),
            completion_ready && query_succeeded ==> r == Result::<
                Async<crate::windows_helper::ExitStatus>,
                OsError,
            >::Ok(Async::Ready(crate::windows_helper::ExitStatus { raw_code: exit_code })),
    {
        self.inner.poll(completion_ready, query_succeeded, exit_code, query_last_error)
    }

    /// Abandons the notification, issuing its release requests in order.
    pub fn close(self) -> (actions: Vec<OsAction>)
        ensures
            actions@ == self.drop_actions(),
    {
        let mut actions: Vec<OsAction> = Vec::new();
        if self.kill_when_drop {
            actions.push(OsAction::TerminateProcess(self.process_id));
        }
        let mut rest = self.inner.close();
        actions.append(&mut rest);
        proof {
            assert(actions@ =~= self.drop_actions());
        }
        actions
    }
}

/// Abandoning an exit notification issues a termination request for its
/// process exactly when the process is marked for termination on drop —
/// always for an owned process, never for an external one.
pub proof fn lemma_kill_on_drop_iff_owned(f: WagahighProcessFuture)
    ensures
        f.drop_actions().contains(OsAction::TerminateProcess(f.process_id))
            <==> f.kill_when_drop,
{
    if f.kill_when_drop {
        assert(f.drop_actions()[0] == OsAction::TerminateProcess(f.process_id));
    } else {
        assert forall|i: int| 0 <= i < f.drop_actions().len() implies f.drop_actions()[i]
            != OsAction::TerminateProcess(f.process_id) by {
            assert(f.drop_actions() == f.inner.wait_handle.teardown_actions());
        }
    }
}

impl WagahighProcess {
    /// Starts watching this process for exit, from the raw outcomes of
    /// opening its handle and registering the one-shot wait. The returned
    /// notification terminates the process on abandonment exactly when the
    /// process is owned. The second component lists the release requests
    /// issued when a step failed.
    pub fn wait_async(&self, open_raw: usize, open_last_error: u32, register_succeeded: bool,
        wait_object: usize, register_last_error: u32) -> (r: (
        Result<WagahighProcessFuture, OsError>,
        Vec<OsAction>,
    ))
        ensures
            open_raw == 0 ==> r.0 == Result::<WagahighProcessFuture, OsError>::Err(
                OsError::Code(open_last_error),
            ) && r.1@ == Seq::<OsAction>::empty(),
            open_raw != 0 && !register_succeeded ==> r.0 == Result::<
                WagahighProcessFuture,
                OsError,
            >::Err(OsError::Code(register_last_error)) && r.1@ == seq![
                OsAction::CloseHandle(open_raw),
            ],
            open_raw != 0 && register_succeeded ==> (r.0 matches Ok(f) && f.process_id
                == self.process_id && (f.kill_when_drop <==> self.ownership == Ownership::Owned)
                && f.inner.wait_handle.wait_object == wait_object
                && f.inner.wait_handle.process_handle == open_raw) && r.1@ == Seq::<
                OsAction,
            >::empty(),
    {
        let (inner, actions) = wait_process_async(open_raw, open_last_error, register_succeeded,
            wait_object, register_last_error);
        match inner {
            Ok(f) => {
                let kill_when_drop = self.ownership == Ownership::Owned;
                (Ok(WagahighProcessFuture { inner: f, process_id: self.process_id, kill_when_drop }),
                    actions)
            },
            Err(e) => (Err(e), actions),
        }
    }
}

} // verus!

//! Lifecycle of the virtual microphone: a named pipe plus a pipe-source module
//! registered with the host audio server through its control-plane client.
//!
//! Existence of the device is a property of the audio server, not of this
//! process: the module is looked up again from the server's module listing
//! every time it is needed. Each operation is a small task that names the next
//! action (recreate the pipe, run the control-plane client, or nothing more)
//! and takes back what happened; the caller performs the actions.
use vstd::prelude::*;

use crate::text::{
    chars_of, first_field, first_field_bounds, has_infix, infix_within, lemma_lines_step, lines_of,
    opt_text, without_cr,
};

verus! {

/// Source name of the virtual microphone when none is configured.
pub const DEFAULT_SOURCE_NAME: &'static str = "rsonance_virtual_microphone";

/// Path of the named pipe behind the virtual microphone when none is configured.
pub const DEFAULT_PIPE_PATH: &'static str = "/tmp/rsonance_audio_pipe";

/// Name of the audio server module that reads a source from a named pipe.
pub const PIPE_SOURCE_MODULE: &'static str = "module-pipe-source";

/// Whether the virtual microphone was registered with the audio server.
#[derive(Debug, Clone, Copy, PartialEq, Eq, Structural)]
pub enum VirtualMicResult {
    /// The module was loaded.
    Success,
    /// The control plane did not load the module; the relay can still run.
    Failed,
}

/// A failure of a device operation that the caller has to report.
#[derive(Debug, Clone, Copy, PartialEq, Eq, Structural)]
pub enum DeviceError {
    /// The named pipe could not be created.
    PipeCreation,
    /// The control-plane client could not be started.
    ControlUnavailable,
    /// The module listing was not valid UTF-8 text.
    OutputNotText,
}

/// What happened when the caller performed the last action.
#[derive(Debug, Clone, PartialEq, Eq)]
pub enum DeviceEvent {
    /// The named pipe was (re)created.
    PipeCreated,
    /// Removing the old file or creating the named pipe failed.
    PipeFailed,
    /// The control-plane client ran to completion; `output` is what it printed,
    /// or `None` when that was not UTF-8 text.
    ControlExited { success: bool, output: Option<String> },
    /// The control-plane client could not be started.
    ControlNotStarted,
}

/// The next thing that the caller has to do for a device task.
#[derive(Debug, Clone, PartialEq, Eq)]
pub enum DeviceAction {
    /// Remove any file at `path` and create a fresh named pipe there.
    RecreatePipe { path: String },
    /// Run the control-plane client with `args` and report how it ended.
    RunControl { args: Vec<String> },
    /// The task is over; its result is ready.
    Finished,
}

/// The text views of a sequence of strings.
pub open spec fn texts(v: Seq<String>) -> Seq<Seq<char>> {
    v.map_values(|s: String| s@)
}

/// `s` with every underscore turned into a space.
pub open spec fn underscores_to_spaces(s: Seq<char>) -> Seq<char> {
    Seq::new(s.len(), |i: int| if s[i] == '_' { ' ' } else { s[i] })
}

/// The marker that ties a pipe-source module to the source `name`.
pub open spec fn source_tag(name: Seq<char>) -> Seq<char> {
    "source_name="@ + name
}

/// Control-plane arguments that register the pipe at `path` as the source
/// `name`: signed 16-bit little-endian, 44100 Hz, two channels, described by
/// `name` with underscores shown as spaces.
pub open spec fn load_module_args(name: Seq<char>, path: Seq<char>) -> Seq<Seq<char>> {
    seq![
        "load-module"@,
        PIPE_SOURCE_MODULE@,
        source_tag(name),
        "file="@ + path,
        "format=s16le"@,
        "rate=44100"@,
        "channels=2"@,
        "source_properties=device.description="@ + underscores_to_spaces(name),
    ]
}

/// Control-plane arguments that print the loaded modules, one per line.
pub open spec fn list_modules_args() -> Seq<Seq<char>> {
    seq!["list"@, "modules"@, "short"@]
}

/// Control-plane arguments that unload the module `id`.
pub open spec fn unload_module_args(id: Seq<char>) -> Seq<Seq<char>> {
    seq!["unload-module"@, id]
}

/// Whether a line of the module listing is the pipe source of `name`.
pub open spec fn is_source_entry(line: Seq<char>, name: Seq<char>) -> bool {
    has_infix(line, PIPE_SOURCE_MODULE@) && has_infix(line, source_tag(name))
}

/// The first field of the first line that is the pipe source of `name`.
pub open spec fn first_source_entry(lines: Seq<Seq<char>>, name: Seq<char>) -> Option<Seq<char>>
    decreases lines.len(),
{
    if lines.len() == 0 {
        None
    } else if is_source_entry(lines[0], name) {
        Some(first_field(lines[0]))
    } else {
        first_source_entry(lines.drop_first(), name)
    }
}

/// The module id of the pipe source `name` in a module listing, if it is loaded.
pub open spec fn module_id_in(listing: Seq<char>, name: Seq<char>) -> Option<Seq<char>> {
    first_source_entry(lines_of(listing), name)
}

/// The lookup finds a module only on a line that names both the pipe-source
/// module and the source; it returns that line's first field, and no earlier
/// line names both. When it finds nothing, no line names both.
pub proof fn lemma_lookup_matches_both(lines: Seq<Seq<char>>, name: Seq<char>)
    ensures
        first_source_entry(lines, name) matches Some(id) ==> exists|i: int|
            0 <= i < lines.len() && is_source_entry(#[trigger] lines[i], name) && first_field(
                lines[i],
            ) == id && forall|j: int| 0 <= j < i ==> !is_source_entry(#[trigger] lines[j], name),
        first_source_entry(lines, name) is None ==> forall|i: int|
            0 <= i < lines.len() ==> !is_source_entry(#[trigger] lines[i], name),
    decreases lines.len(),
{
    if lines.len() > 0 {
        let tail = lines.drop_first();
        lemma_lookup_matches_both(tail, name);
        if !is_source_entry(lines[0], name) {
            if let Some(id) = first_source_entry(lines, name) {
                let k = choose|k: int|
                    0 <= k < tail.len() && is_source_entry(#[trigger] tail[k], name) && first_field(
                        tail[k],
                    ) == id && forall|j: int|
                        0 <= j < k ==> !is_source_entry(#[trigger] tail[j], name);
                assert(lines[k + 1] == tail[k]);
                assert forall|j: int| 0 <= j < k + 1 implies !is_source_entry(
                    #[trigger] lines[j],
                    name,
                ) by {
                    if j > 0 {
                        assert(lines[j] == tail[j - 1]);
                    }
                }
            } else {
                assert forall|i: int| 0 <= i < lines.len() implies !is_source_entry(
                    #[trigger] lines[i],
                    name,
                ) by {
                    if i > 0 {
                        assert(lines[i] == tail[i - 1]);
                    }
                }
            }
        } else {
            assert(0 <= 0 < lines.len() && is_source_entry(lines[0], name));
        }
    }
}

/// The module id of the pipe source `source_name` in the listing printed by the
/// control plane: the first field of the first line that contains both the
/// pipe-source module name and `source_name=<source_name>`.
pub fn find_module_id(listing: &str, source_name: &str) -> (r: Option<String>)
    ensures
        opt_text(r) == module_id_in(listing@, source_name@),
{
    let s = chars_of(listing);
    let marker = chars_of(PIPE_SOURCE_MODULE);
    let tag_text = String::from_str("source_name=").concat(source_name);
    let tag = chars_of(tag_text.as_str());
    let n = s.len();
    let mut from: usize = 0;
    assert(s@.skip(0) =~= s@);
    loop
        invariant
            from <= n,
            n == s@.len(),
            s@ == listing@,
            marker@ == PIPE_SOURCE_MODULE@,
            tag@ == source_tag(source_name@),
            module_id_in(listing@, source_name@) == first_source_entry(
                lines_of(s@.skip(from as int)),
                source_name@,
            ),
        decreases n - from,
    {
        let mut end: usize = from;
        while end < n && s[end] != '\n'
            invariant
                from <= end <= n,
                n == s@.len(),
                forall|i: int| from <= i < end ==> s@[i] != '\n',
            decreases n - end,
        {
            end = end + 1;
        }
        proof {
            lemma_lines_step(s@, from as int, end as int);
        }
        let ghost rest = if end < n {
            lines_of(s@.skip(end + 1))
        } else {
            Seq::<Seq<char>>::empty()
        };
        let ghost line = without_cr(s@.subrange(from as int, end as int));
        assert(lines_of(s@.skip(from as int)) =~= seq![line] + rest);
        let stop = if end > from && s[end - 1] == '\r' {
            end - 1
        } else {
            end
        };
        assert(s@.subrange(from as int, stop as int) =~= line);
        assert((seq![line] + rest)[0] == line);
        assert((seq![line] + rest).drop_first() =~= rest);
        if infix_within(&s, from, stop, &marker) && infix_within(&s, from, stop, &tag) {
            let (a, b) = first_field_bounds(&s, from, stop);
            let id = listing.substring_char(a, b);
            return Some(id.to_owned());
        }
        if end == n {
            assert(first_source_entry(rest, source_name@) is None);
            return None;
        }
        from = end + 1;
    }
}

/// `source_name` with every underscore turned into a space.
fn spaced_description(source_name: &str) -> (r: String)
    ensures
        r@ == underscores_to_spaces(source_name@),
{
    let n = source_name.unicode_len();
    let mut out = String::new();
    let mut i: usize = 0;
    proof {
        reveal_strlit(" ");
    }
    while i < n
        invariant
            n == source_name@.len(),
            i <= n,
            out@ == underscores_to_spaces(source_name@).take(i as int),
            " "@ == seq![' '],
        decreases n - i,
    {
        let c = source_name.get_char(i);
        if c == '_' {
            out.append(" ");
        } else {
            out.append(source_name.substring_char(i, i + 1));
        }
        assert(out@ =~= underscores_to_spaces(source_name@).take(i + 1));
        i = i + 1;
    }
    assert(underscores_to_spaces(source_name@).take(n as int) =~= underscores_to_spaces(
        source_name@,
    ));
    out
}

/// Control-plane arguments that register the pipe `fifo_path` as the source
/// `source_name`.
pub fn pipe_source_load_args(source_name: &str, fifo_path: &str) -> (r: Vec<String>)
    ensures
        texts(r@) == load_module_args(source_name@, fifo_path@),
{
    let mut r: Vec<String> = Vec::new();
    r.push(String::from_str("load-module"));
    r.push(String::from_str(PIPE_SOURCE_MODULE));
    r.push(String::from_str("source_name=").concat(source_name));
    r.push(String::from_str("file=").concat(fifo_path));
    r.push(String::from_str("format=s16le"));
    r.push(String::from_str("rate=44100"));
    r.push(String::from_str("channels=2"));
    let description = spaced_description(source_name);
    r.push(String::from_str("source_properties=device.description=").concat(description.as_str()));
    assert(texts(r@) =~= load_module_args(source_name@, fifo_path@));
    r
}

/// Control-plane arguments that print the loaded modules.
pub fn list_modules_command() -> (r: Vec<String>)
    ensures
        texts(r@) == list_modules_args(),
{
    let mut r: Vec<String> = Vec::new();
    r.push(String::from_str("list"));
    r.push(String::from_str("modules"));
    r.push(String::from_str("short"));
    assert(texts(r@) =~= list_modules_args());
    r
}

/// Control-plane arguments that unload the module `id`.
pub fn unload_module_command(id: &str) -> (r: Vec<String>)
    ensures
        texts(r@) == unload_module_args(id@),
{
    let mut r: Vec<String> = Vec::new();
    r.push(String::from_str("unload-module"));
    r.push(String::from_str(id));
    assert(texts(r@) =~= unload_module_args(id@));
    r
}

/// Whether `a` runs the control-plane client with exactly the arguments `args`.
pub open spec fn runs_control(a: DeviceAction, args: Seq<Seq<char>>) -> bool {
    a matches DeviceAction::RunControl { args: v } && texts(v@) == args
}

/// Whether `a` recreates the named pipe at `path`.
pub open spec fn recreates_pipe(a: DeviceAction, path: Seq<char>) -> bool {
    a matches DeviceAction::RecreatePipe { path: p } && p@ == path
}

/// Where a setup stands.
#[derive(Debug, Clone, Copy, PartialEq, Eq)]
pub enum SetupPhase {
    /// The named pipe is to be recreated.
    CreatingPipe,
    /// The pipe-source module is to be loaded.
    LoadingModule,
    /// The setup is over, with this result.
    Done(Result<VirtualMicResult, DeviceError>),
}

/// One step of a setup. A pipe that cannot be created is an error; a module
/// that the control plane does not load, or a control plane that cannot be
/// started, only downgrades the result to `Failed`. Events that do not answer
/// the pending action change nothing.
pub open spec fn setup_step(p: SetupPhase, e: DeviceEvent) -> SetupPhase {
    match p {
        SetupPhase::CreatingPipe => match e {
            DeviceEvent::PipeCreated => SetupPhase::LoadingModule,
            DeviceEvent::PipeFailed => SetupPhase::Done(Err(DeviceError::PipeCreation)),
            _ => p,
        },
        SetupPhase::LoadingModule => match e {
            DeviceEvent::ControlExited { success, .. } => SetupPhase::Done(
                Ok(
                    if success {
                        VirtualMicResult::Success
                    } else {
                        VirtualMicResult::Failed
                    },
                ),
            ),
            DeviceEvent::ControlNotStarted => SetupPhase::Done(Ok(VirtualMicResult::Failed)),
            _ => p,
        },
        SetupPhase::Done(_) => p,
    }
}

/// Creation of the virtual microphone `source_name` backed by the pipe `fifo_path`.
pub struct SetupTask {
    source_name: String,
    fifo_path: String,
    phase: SetupPhase,
}

impl SetupTask {
    /// Name of the source being created.
    pub closed spec fn source_name(&self) -> Seq<char> {
        self.source_name@
    }

    /// Path of the named pipe behind the source.
    pub closed spec fn pipe_path(&self) -> Seq<char> {
        self.fifo_path@
    }

    /// Where the setup stands.
    pub closed spec fn phase(&self) -> SetupPhase {
        self.phase
    }

    /// The action that the setup waits for.
    pub fn next_action(&self) -> (a: DeviceAction)
        ensures
            self.phase() is CreatingPipe ==> recreates_pipe(a, self.pipe_path()),
            self.phase() is LoadingModule ==> runs_control(
                a,
                load_module_args(self.source_name(), self.pipe_path()),
            ),
            self.phase() is Done ==> a is Finished,
    {
        match self.phase {
            SetupPhase::CreatingPipe => DeviceAction::RecreatePipe { path: self.fifo_path.clone() },
            SetupPhase::LoadingModule => DeviceAction::RunControl {
                args: pipe_source_load_args(self.source_name.as_str(), self.fifo_path.as_str()),
            },
            SetupPhase::Done(_) => DeviceAction::Finished,
        }
    }

    /// Takes what happened when the last action was performed.
    pub fn on_event(&mut self, e: DeviceEvent)
        ensures
            final(self).phase() == setup_step(old(self).phase(), e),
            final(self).source_name() == old(self).source_name(),
            final(self).pipe_path() == old(self).pipe_path(),
    {
        let next = match self.phase {
            SetupPhase::CreatingPipe => match e {
                DeviceEvent::PipeCreated => SetupPhase::LoadingModule,
                DeviceEvent::PipeFailed => SetupPhase::Done(Err(DeviceError::PipeCreation)),
                _ => self.phase,
            },
            SetupPhase::LoadingModule => match e {
                DeviceEvent::ControlExited { success, .. } => {
                    if success {
                        SetupPhase::Done(Ok(VirtualMicResult::Success))
                    } else {
                        SetupPhase::Done(Ok(VirtualMicResult::Failed))
                    }
                },
                DeviceEvent::ControlNotStarted => SetupPhase::Done(Ok(VirtualMicResult::Failed)),
                _ => self.phase,
            },
            SetupPhase::Done(_) => self.phase,
        };
        self.phase = next;
    }

    /// The result, once the setup is over.
    pub fn result(&self) -> (r: Option<Result<VirtualMicResult, DeviceError>>)
        ensures
            r == (match self.phase() {
                SetupPhase::Done(x) => Some(x),
                _ => None,
            }),
    {
        match self.phase {
            SetupPhase::Done(x) => Some(x),
            _ => None,
        }
    }
}

/// Starts the creation of the virtual microphone `source_name` backed by a
/// fresh named pipe at `fifo_path`.
pub fn setup_virtual_microphone_with_config(source_name: &str, fifo_path: &str) -> (t: SetupTask)
    ensures
        t.source_name() == source_name@,
        t.pipe_path() == fifo_path@,
        t.phase() is CreatingPipe,
{
    SetupTask {
        source_name: String::from_str(source_name),
        fifo_path: String::from_str(fifo_path),
        phase: SetupPhase::CreatingPipe,
    }
}

/// Starts the creation of the virtual microphone under its default name and pipe.
pub fn setup_virtual_microphone() -> (t: SetupTask)
    ensures
        t.source_name() == DEFAULT_SOURCE_NAME@,
        t.pipe_path() == DEFAULT_PIPE_PATH@,
        t.phase() is CreatingPipe,
{
    setup_virtual_microphone_with_config(DEFAULT_SOURCE_NAME, DEFAULT_PIPE_PATH)
}

/// The text view of a lookup result.
pub open spec fn lookup_text(r: Option<Result<Option<String>, DeviceError>>) -> Option<
    Result<Option<Seq<char>>, DeviceError>,
> {
    match r {
        Some(Ok(id)) => Some(Ok(opt_text(id))),
        Some(Err(e)) => Some(Err(e)),
        None => None,
    }
}

/// What the reply to a module listing says about the source `name`: its module
/// id, if loaded; `None` for an event that is no such reply. The exit status
/// of the listing is not consulted, only what it printed.
pub open spec fn lookup_outcome(e: DeviceEvent, name: Seq<char>) -> Option<
    Result<Option<Seq<char>>, DeviceError>,
> {
    match e {
        DeviceEvent::ControlExited { output: Some(text), .. } => Some(Ok(module_id_in(text@, name))),
        DeviceEvent::ControlExited { output: None, .. } => Some(Err(DeviceError::OutputNotText)),
        DeviceEvent::ControlNotStarted => Some(Err(DeviceError::ControlUnavailable)),
        _ => None,
    }
}

/// Reads the reply to a module listing, as `lookup_outcome` states.
fn read_listing_reply(e: &DeviceEvent, name: &str) -> (r: Option<Result<Option<String>, DeviceError>>)
    ensures
        lookup_text(r) == lookup_outcome(*e, name@),
{
    match e {
        DeviceEvent::ControlExited { output: Some(text), .. } => Some(
            Ok(find_module_id(text.as_str(), name)),
        ),
        DeviceEvent::ControlExited { output: None, .. } => Some(Err(DeviceError::OutputNotText)),
        DeviceEvent::ControlNotStarted => Some(Err(DeviceError::ControlUnavailable)),
        _ => None,
    }
}

/// Clones a lookup result.
fn clone_lookup(r: &Option<Result<Option<String>, DeviceError>>) -> (c: Option<
    Result<Option<String>, DeviceError>,
>)
    ensures
        lookup_text(c) == lookup_text(*r),
{
    match r {
        Some(Ok(Some(id))) => Some(Ok(Some(id.clone()))),
        Some(Ok(None)) => Some(Ok(None)),
        Some(Err(e)) => Some(Err(*e)),
        None => None,
    }
}

/// Lookup of the module id of the virtual microphone `source_name`.
pub struct ModuleLookup {
    source_name: String,
    found: Option<Result<Option<String>, DeviceError>>,
}

impl ModuleLookup {
    /// Name of the source looked up.
    pub closed spec fn source_name(&self) -> Seq<char> {
        self.source_name@
    }

    /// The result, once the listing has been read.
    pub closed spec fn outcome(&self) -> Option<Result<Option<Seq<char>>, DeviceError>> {
        lookup_text(self.found)
    }

    /// Starts a lookup of the module that serves the source `source_name`.
    pub fn new(source_name: &str) -> (t: ModuleLookup)
        ensures
            t.source_name() == source_name@,
            t.outcome() is None,
    {
        ModuleLookup { source_name: String::from_str(source_name), found: None }
    }

    /// The action that the lookup waits for: the module listing, then nothing.
    pub fn next_action(&self) -> (a: DeviceAction)
        ensures
            self.outcome() is None ==> runs_control(a, list_modules_args()),
            self.outcome() is Some ==> a is Finished,
    {
        if self.found.is_none() {
            DeviceAction::RunControl { args: list_modules_command() }
        } else {
            DeviceAction::Finished
        }
    }

    /// Takes the reply to the module listing.
    pub fn on_event(&mut self, e: DeviceEvent)
        ensures
            final(self).source_name() == old(self).source_name(),
            old(self).outcome() is None && lookup_outcome(e, old(self).source_name()) is Some
                ==> final(self).outcome() == lookup_outcome(e, old(self).source_name()),
            old(self).outcome() is Some || lookup_outcome(e, old(self).source_name()) is None
                ==> final(self).outcome() == old(self).outcome(),
    {
        if self.found.is_none() {
            let reply = read_listing_reply(&e, self.source_name.as_str());
            if reply.is_some() {
                self.found = reply;
            }
        }
    }

    /// The module id, once the listing has been read.
    pub fn result(&self) -> (r: Option<Result<Option<String>, DeviceError>>)
        ensures
            lookup_text(r) == self.outcome(),
    {
        clone_lookup(&self.found)
    }
}

/// Starts a lookup of the module id of the default virtual microphone.
pub fn get_virtual_microphone_module_id() -> (t: ModuleLookup)
    ensures
        t.source_name() == DEFAULT_SOURCE_NAME@,
        t.outcome() is None,
{
    ModuleLookup::new(DEFAULT_SOURCE_NAME)
}

/// Where a cleanup stands, as seen by the contracts.
pub enum CleanupState {
    /// The module listing is to be read.
    Listing,
    /// The module with this id is to be unloaded.
    Unloading(Seq<char>),
    /// The cleanup is over: whether a module was unloaded, or an error.
    Done(Result<bool, DeviceError>),
}

/// One step of a cleanup. Finding no module is a normal end, `Ok(false)`;
/// otherwise the result tells whether the unload succeeded. Events that do
/// not answer the pending action change nothing.
pub open spec fn cleanup_step(s: CleanupState, e: DeviceEvent, name: Seq<char>) -> CleanupState {
    match s {
        CleanupState::Listing => match lookup_outcome(e, name) {
            Some(Ok(Some(id))) => CleanupState::Unloading(id),
            Some(Ok(None)) => CleanupState::Done(Ok(false)),
            Some(Err(err)) => CleanupState::Done(Err(err)),
            None => s,
        },
        CleanupState::Unloading(_) => match e {
            DeviceEvent::ControlExited { success, .. } => CleanupState::Done(Ok(success)),
            DeviceEvent::ControlNotStarted => CleanupState::Done(
                Err(DeviceError::ControlUnavailable),
            ),
            _ => s,
        },
        CleanupState::Done(_) => s,
    }
}

/// Cleanup with nothing to clean up is a normal outcome: when the listing
/// shows no module for the source, the cleanup ends with `Ok(false)`, whatever
/// the exit status of the listing.
pub proof fn lemma_cleanup_without_module(listing: String, name: Seq<char>, success: bool)
    requires
        module_id_in(listing@, name) is None,
    ensures
        cleanup_step(
            CleanupState::Listing,
            DeviceEvent::ControlExited { success, output: Some(listing) },
            name,
        ) == CleanupState::Done(Ok::<bool, DeviceError>(false)),
{
}

/// Exec form of a cleanup's state.
enum CleanupStage {
    Listing,
    Unloading(String),
    Done(Result<bool, DeviceError>),
}

/// Removal of the virtual microphone `source_name` from the audio server.
pub struct ModuleCleanup {
    source_name: String,
    stage: CleanupStage,
}

impl ModuleCleanup {
    /// Name of the source being removed.
    pub closed spec fn source_name(&self) -> Seq<char> {
        self.source_name@
    }

    /// Where the cleanup stands.
    pub closed spec fn state(&self) -> CleanupState {
        match self.stage {
            CleanupStage::Listing => CleanupState::Listing,
            CleanupStage::Unloading(id) => CleanupState::Unloading(id@),
            CleanupStage::Done(r) => CleanupState::Done(r),
        }
    }

    /// Starts the removal of the module that serves the source `source_name`.
    pub fn new(source_name: &str) -> (t: ModuleCleanup)
        ensures
            t.source_name() == source_name@,
            t.state() is Listing,
    {
        ModuleCleanup { source_name: String::from_str(source_name), stage: CleanupStage::Listing }
    }

    /// The action that the cleanup waits for.
    pub fn next_action(&self) -> (a: DeviceAction)
        ensures
            self.state() is Listing ==> runs_control(a, list_modules_args()),
            self.state() matches CleanupState::Unloading(id) ==> runs_control(
                a,
                unload_module_args(id),
            ),
            self.state() is Done ==> a is Finished,
    {
        match &self.stage {
            CleanupStage::Listing => DeviceAction::RunControl { args: list_modules_command() },
            CleanupStage::Unloading(id) => DeviceAction::RunControl {
                args: unload_module_command(id.as_str()),
            },
            CleanupStage::Done(_) => DeviceAction::Finished,
        }
    }

    /// Takes what happened when the last action was performed.
    pub fn on_event(&mut self, e: DeviceEvent)
        ensures
            final(self).state() == cleanup_step(old(self).state(), e, old(self).source_name()),
            final(self).source_name() == old(self).source_name(),
    {
        match &self.stage {
            CleanupStage::Listing => {
                match read_listing_reply(&e, self.source_name.as_str()) {
                    Some(Ok(Some(id))) => {
                        self.stage = CleanupStage::Unloading(id);
                    },
                    Some(Ok(None)) => {
                        self.stage = CleanupStage::Done(Ok(false));
                    },
                    Some(Err(err)) => {
                        self.stage = CleanupStage::Done(Err(err));
                    },
                    None => {},
                }
            },
            CleanupStage::Unloading(_) => {
                match e {
                    DeviceEvent::ControlExited { success, .. } => {
                        self.stage = CleanupStage::Done(Ok(success));
                    },
                    DeviceEvent::ControlNotStarted => {
                        self.stage = CleanupStage::Done(Err(DeviceError::ControlUnavailable));
                    },
                    _ => {},
                }
            },
            CleanupStage::Done(_) => {},
        }
    }

    /// The result, once the cleanup is over: whether a module was unloaded.
    pub fn result(&self) -> (r: Option<Result<bool, DeviceError>>)
        ensures
            r == (match self.state() {
                CleanupState::Done(x) => Some(x),
                _ => None,
            }),
    {
        match &self.stage {
            CleanupStage::Done(x) => Some(*x),
            _ => None,
        }
    }
}

/// Starts the removal of the default virtual microphone.
pub fn cleanup_virtual_microphone() -> (t: ModuleCleanup)
    ensures
        t.source_name() == DEFAULT_SOURCE_NAME@,
        t.state() is Listing,
{
    ModuleCleanup::new(DEFAULT_SOURCE_NAME)
}

} // verus!

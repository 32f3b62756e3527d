use vstd::prelude::*;
use vstd::string::*;
use crate::config::{merge, merge_spec, ConfigView, HostOptions, LaunchSource, LaunchSourceView, ResolvedConfiguration};
use crate::install::{
    archive_descriptor, archive_name_spec, binary_path_spec, download_url_spec,
    extraction_plan_spec, installed_server, plan_extraction, ArchiveDescriptor, ArchiveEntry,
    EntryAction, EntryActionView, InstalledServer,
};
use crate::platform::{resolve, resolve_spec, PlatformError};

verus! {

/// How far one initialization has gone.
#[derive(Clone, Copy, Debug, PartialEq, Eq, Structural)]
pub enum Phase {
    Probing,
    Locking,
    Downloading,
    Opening,
    Extracting,
    Marking,
    RemovingArchive,
    RecordingVersion,
    Unlocking,
    Done,
}

/// A failure while a release is being installed.
#[derive(Clone, Copy, Debug, PartialEq, Eq, Structural)]
pub enum AcquireError {
    DownloadFailed,
    ArchiveOpenFailed,
    ArchiveEntryFailed,
    PermissionDenied,
}

/// A failure reported to the user, after which no server is launched.
#[derive(Clone, Debug, PartialEq, Eq)]
pub enum InitError {
    UnsupportedPlatform(PlatformError),
    Acquire(AcquireError),
}

/// The text shown to the user for a failure.
pub open spec fn message_spec(e: InitError) -> Seq<char> {
    match e {
        InitError::UnsupportedPlatform(PlatformError::UnsupportedArch(a)) => "Unsupported ARCH: "@ + a@,
        InitError::UnsupportedPlatform(PlatformError::UnsupportedOs(o)) => "Your os \""@ + o@ + "\" is unsupported"@,
        InitError::Acquire(AcquireError::DownloadFailed) => "clangd download failed"@,
        InitError::Acquire(AcquireError::ArchiveOpenFailed) => "clangd archive could not be opened"@,
        InitError::Acquire(AcquireError::ArchiveEntryFailed) => "clangd archive could not be unpacked"@,
        InitError::Acquire(AcquireError::PermissionDenied) => "clangd could not be made executable"@,
    }
}

impl InitError {
    /// The text shown to the user for this failure.
    pub fn message(&self) -> (r: String)
        ensures
            r@ == message_spec(*self),
    {
        match self {
            InitError::UnsupportedPlatform(PlatformError::UnsupportedArch(a)) => {
                let mut m = String::from_str("Unsupported ARCH: ");
                m.append(a.as_str());
                m
            },
            InitError::UnsupportedPlatform(PlatformError::UnsupportedOs(o)) => {
                let mut m = String::from_str("Your os \"");
                m.append(o.as_str());
                m.append("\" is unsupported");
                m
            },
            InitError::Acquire(AcquireError::DownloadFailed) => String::from_str("clangd download failed"),
            InitError::Acquire(AcquireError::ArchiveOpenFailed) => String::from_str("clangd archive could not be opened"),
            InitError::Acquire(AcquireError::ArchiveEntryFailed) => String::from_str("clangd archive could not be unpacked"),
            InitError::Acquire(AcquireError::PermissionDenied) => String::from_str("clangd could not be made executable"),
        }
    }
}

/// What the server is launched from.
#[derive(Clone, Debug, PartialEq, Eq)]
pub enum LaunchTarget {
    /// A path the user gave.
    Path(String),
    /// The bare command name `clangd`.
    Command,
    /// An executable of a release unpacked in the working directory.
    Installed(String),
}

pub enum LaunchTargetView {
    Path(Seq<char>),
    Command,
    Installed(Seq<char>),
}

impl LaunchTarget {
    pub open spec fn view(&self) -> LaunchTargetView {
        match self {
            LaunchTarget::Path(p) => LaunchTargetView::Path(p@),
            LaunchTarget::Command => LaunchTargetView::Command,
            LaunchTarget::Installed(p) => LaunchTargetView::Installed(p@),
        }
    }
}

/// The outcome of the last action, as the host saw it.
#[derive(Clone, Debug)]
pub enum Event {
    /// Whether the executable was found.
    Probed(bool),
    Succeeded,
    Failed,
    /// The entries of the archive that was opened.
    Opened(Vec<ArchiveEntry>),
}

pub enum EventView {
    Probed(bool),
    Succeeded,
    Failed,
    Opened(Seq<ArchiveEntry>),
}

impl Event {
    pub open spec fn view(&self) -> EventView {
        match self {
            Event::Probed(b) => EventView::Probed(*b),
            Event::Succeeded => EventView::Succeeded,
            Event::Failed => EventView::Failed,
            Event::Opened(es) => EventView::Opened(es@),
        }
    }
}

/// What the host is asked to do next.
#[derive(Clone, Debug, PartialEq, Eq)]
pub enum Action {
    /// Check whether a file exists.
    ProbeBinary(String),
    /// Create the advisory lock marker.
    CreateLock,
    /// Fetch a URL and write the bytes to a file.
    Download { url: String, dest: String },
    /// Open a file as a zip archive and list its entries.
    OpenArchive(String),
    /// Unpack the archive, entry by entry.
    Extract(Vec<EntryAction>),
    /// Set the executable permission of a file.
    MarkExecutable(String),
    /// Delete a file, best effort.
    RemoveFile(String),
    /// Record the installed release in the version marker.
    WriteMarker(String),
    /// Delete the lock marker, best effort.
    RemoveLock,
    /// Start the server for C and for C++.
    Launch(LaunchTarget),
    /// Tell the user why no server was started.
    Report(InitError),
    /// Nothing more to do.
    Stop,
}

pub enum ActionView {
    ProbeBinary(Seq<char>),
    CreateLock,
    Download(Seq<char>, Seq<char>),
    OpenArchive(Seq<char>),
    Extract(Seq<EntryActionView>),
    MarkExecutable(Seq<char>),
    RemoveFile(Seq<char>),
    WriteMarker(Seq<char>),
    RemoveLock,
    Launch(LaunchTargetView),
    ReportUnsupportedArch(Seq<char>),
    ReportUnsupportedOs(Seq<char>),
    ReportAcquire(AcquireError),
    Stop,
}

impl Action {
    pub open spec fn view(&self) -> ActionView {
        match self {
            Action::ProbeBinary(p) => ActionView::ProbeBinary(p@),
            Action::CreateLock => ActionView::CreateLock,
            Action::Download { url, dest } => ActionView::Download(url@, dest@),
            Action::OpenArchive(p) => ActionView::OpenArchive(p@),
            Action::Extract(plan) => ActionView::Extract(plan@.map_values(|a: EntryAction| a.view())),
            Action::MarkExecutable(p) => ActionView::MarkExecutable(p@),
            Action::RemoveFile(p) => ActionView::RemoveFile(p@),
            Action::WriteMarker(v) => ActionView::WriteMarker(v@),
            Action::RemoveLock => ActionView::RemoveLock,
            Action::Launch(t) => ActionView::Launch(t.view()),
            Action::Report(InitError::UnsupportedPlatform(PlatformError::UnsupportedArch(a))) => ActionView::ReportUnsupportedArch(a@),
            Action::Report(InitError::UnsupportedPlatform(PlatformError::UnsupportedOs(o))) => ActionView::ReportUnsupportedOs(o@),
            Action::Report(InitError::Acquire(e)) => ActionView::ReportAcquire(*e),
            Action::Stop => ActionView::Stop,
        }
    }
}

/// One initialization in progress.
pub struct Session {
    pub phase: Phase,
    pub config: ResolvedConfiguration,
    pub server: InstalledServer,
    pub archive: ArchiveDescriptor,
    pub failure: Option<AcquireError>,
}

pub struct SessionView {
    pub phase: Phase,
    pub config: ConfigView,
    pub binary: Seq<char>,
    pub archive: Seq<char>,
    pub url: Seq<char>,
    pub failure: Option<AcquireError>,
}

impl Session {
    pub open spec fn view(&self) -> SessionView {
        SessionView {
            phase: self.phase,
            config: self.config.view(),
            binary: self.server.binary_path@,
            archive: self.archive.file_name@,
            url: self.archive.download_url@,
            failure: self.failure,
        }
    }
}

/// A session that has nothing left to install.
pub open spec fn finished(c: ConfigView) -> SessionView {
    SessionView {
        phase: Phase::Done,
        config: c,
        binary: Seq::empty(),
        archive: Seq::empty(),
        url: Seq::empty(),
        failure: None,
    }
}

/// The first decision of an initialization: stop when disabled, launch an
/// explicit path or the system binary at once, refuse an unsupported
/// platform, or else look for an installed release.
pub open spec fn start_spec(o: HostOptions, arch: Seq<char>, os: Seq<char>) -> (SessionView, ActionView) {
    let c = merge_spec(o);
    if c.disabled {
        (finished(c), ActionView::Stop)
    } else {
        match c.source {
            LaunchSourceView::ExplicitPath(p) => (finished(c), ActionView::Launch(LaunchTargetView::Path(p))),
            LaunchSourceView::SystemBinary => (finished(c), ActionView::Launch(LaunchTargetView::Command)),
            LaunchSourceView::Managed => match resolve_spec(arch, os) {
                Err(PlatformError::UnsupportedArch(_)) => (finished(c), ActionView::ReportUnsupportedArch(arch)),
                Err(PlatformError::UnsupportedOs(_)) => (finished(c), ActionView::ReportUnsupportedOs(os)),
                Ok(k) => {
                    let bin = binary_path_spec(c.version, k.os);
                    (
                        SessionView {
                            phase: Phase::Probing,
                            config: c,
                            binary: bin,
                            archive: archive_name_spec(c.version, k.os),
                            url: download_url_spec(c.version, k.os),
                            failure: None,
                        },
                        ActionView::ProbeBinary(bin),
                    )
                },
            },
        }
    }
}

/// A failed install step: the lock is released before the failure is reported.
pub open spec fn fail_spec(s: SessionView, e: AcquireError) -> (SessionView, ActionView) {
    (SessionView { phase: Phase::Unlocking, failure: Some(e), ..s }, ActionView::RemoveLock)
}

pub open spec fn goto(s: SessionView, p: Phase, a: ActionView) -> (SessionView, ActionView) {
    (SessionView { phase: p, ..s }, a)
}

/// The decision that follows the outcome of the last action.
pub open spec fn step_spec(s: SessionView, e: EventView) -> (SessionView, ActionView) {
    match s.phase {
        Phase::Probing => match e {
            EventView::Probed(true) => goto(s, Phase::Done, ActionView::Launch(LaunchTargetView::Installed(s.binary))),
            _ => goto(s, Phase::Locking, ActionView::CreateLock),
        },
        Phase::Locking => goto(s, Phase::Downloading, ActionView::Download(s.url, s.archive)),
        Phase::Downloading => match e {
            EventView::Succeeded => goto(s, Phase::Opening, ActionView::OpenArchive(s.archive)),
            _ => fail_spec(s, AcquireError::DownloadFailed),
        },
        Phase::Opening => match e {
            EventView::Opened(es) => goto(s, Phase::Extracting, ActionView::Extract(extraction_plan_spec(es))),
            _ => fail_spec(s, AcquireError::ArchiveOpenFailed),
        },
        Phase::Extracting => match e {
            EventView::Succeeded => goto(s, Phase::Marking, ActionView::MarkExecutable(s.binary)),
            _ => fail_spec(s, AcquireError::ArchiveEntryFailed),
        },
        Phase::Marking => match e {
            EventView::Succeeded => goto(s, Phase::RemovingArchive, ActionView::RemoveFile(s.archive)),
            _ => fail_spec(s, AcquireError::PermissionDenied),
        },
        Phase::RemovingArchive => goto(s, Phase::RecordingVersion, ActionView::WriteMarker(s.config.version)),
        Phase::RecordingVersion => goto(s, Phase::Unlocking, ActionView::RemoveLock),
        Phase::Unlocking => match s.failure {
            Some(f) => goto(s, Phase::Done, ActionView::ReportAcquire(f)),
            None => goto(s, Phase::Done, ActionView::Launch(LaunchTargetView::Installed(s.binary))),
        },
        Phase::Done => (s, ActionView::Stop),
    }
}

fn copy_str(s: &String) -> (r: String)
    ensures
        r@ == s@,
{
    String::from_str(s.as_str())
}

impl Session {
    fn finished(config: ResolvedConfiguration) -> (r: Session)
        ensures
            r.view() == finished(config.view()),
    {
        Session {
            phase: Phase::Done,
            config,
            server: InstalledServer { root_dir: String::new(), binary_path: String::new() },
            archive: ArchiveDescriptor { file_name: String::new(), download_url: String::new() },
            failure: None,
        }
    }

    /// Begins an initialization from a host's options and its reported
    /// architecture and OS.
    pub fn start(o: &HostOptions, arch: &str, os: &str) -> (r: (Session, Action))
        ensures
            (r.0.view(), r.1.view()) == start_spec(*o, arch@, os@),
    {
        let c = merge(o);
        if c.disabled {
            return (Session::finished(c), Action::Stop);
        }
        match &c.source {
            LaunchSource::ExplicitPath(p) => {
                let t = LaunchTarget::Path(copy_str(p));
                (Session::finished(c), Action::Launch(t))
            },
            LaunchSource::SystemBinary => (Session::finished(c), Action::Launch(LaunchTarget::Command)),
            LaunchSource::Managed => match resolve(arch, os) {
                Err(e) => (Session::finished(c), Action::Report(InitError::UnsupportedPlatform(e))),
                Ok(k) => {
                    let server = installed_server(c.version.as_str(), k.os);
                    let archive = archive_descriptor(c.version.as_str(), k.os);
                    let a = Action::ProbeBinary(copy_str(&server.binary_path));
                    (Session { phase: Phase::Probing, config: c, server, archive, failure: None }, a)
                },
            },
        }
    }

    fn fail(&mut self, e: AcquireError) -> (a: Action)
        ensures
            (final(self).view(), a.view()) == fail_spec(old(self).view(), e),
    {
        self.phase = Phase::Unlocking;
        self.failure = Some(e);
        Action::RemoveLock
    }

    /// Takes the outcome of the last action and decides the next one.
    pub fn step(&mut self, e: Event) -> (a: Action)
        ensures
            (final(self).view(), a.view()) == step_spec(old(self).view(), e.view()),
    {
        match self.phase {
            Phase::Probing => match e {
                Event::Probed(true) => {
                    self.phase = Phase::Done;
                    Action::Launch(LaunchTarget::Installed(copy_str(&self.server.binary_path)))
                },
                _ => {
                    self.phase = Phase::Locking;
                    Action::CreateLock
                },
            },
            Phase::Locking => {
                self.phase = Phase::Downloading;
                Action::Download {
                    url: copy_str(&self.archive.download_url),
                    dest: copy_str(&self.archive.file_name),
                }
            },
            Phase::Downloading => match e {
                Event::Succeeded => {
                    self.phase = Phase::Opening;
                    Action::OpenArchive(copy_str(&self.archive.file_name))
                },
                _ => self.fail(AcquireError::DownloadFailed),
            },
            Phase::Opening => match e {
                Event::Opened(es) => {
                    self.phase = Phase::Extracting;
                    Action::Extract(plan_extraction(&es))
                },
                _ => self.fail(AcquireError::ArchiveOpenFailed),
            },
            Phase::Extracting => match e {
                Event::Succeeded => {
                    self.phase = Phase::Marking;
                    Action::MarkExecutable(copy_str(&self.server.binary_path))
                },
                _ => self.fail(AcquireError::ArchiveEntryFailed),
            },
            Phase::Marking => match e {
                Event::Succeeded => {
                    self.phase = Phase::RemovingArchive;
                    Action::RemoveFile(copy_str(&self.archive.file_name))
                },
                _ => self.fail(AcquireError::PermissionDenied),
            },
            Phase::RemovingArchive => {
                self.phase = Phase::RecordingVersion;
                Action::WriteMarker(copy_str(&self.config.version))
            },
            Phase::RecordingVersion => {
                self.phase = Phase::Unlocking;
                Action::RemoveLock
            },
            Phase::Unlocking => {
                self.phase = Phase::Done;
                match self.failure {
                    Some(f) => Action::Report(InitError::Acquire(f)),
                    None => Action::Launch(LaunchTarget::Installed(copy_str(&self.server.binary_path))),
                }
            },
            Phase::Done => Action::Stop,
        }
    }
}


/// The actions that a sequence of outcomes leads to, one per outcome.
pub open spec fn run_spec(s: SessionView, events: Seq<EventView>) -> Seq<ActionView>
    decreases events.len(),
{
    if events.len() == 0 {
        Seq::empty()
    } else {
        let (s2, a) = step_spec(s, events[0]);
        seq![a] + run_spec(s2, events.drop_first())
    }
}

/// The session reached after a sequence of outcomes.
pub open spec fn after_spec(s: SessionView, events: Seq<EventView>) -> SessionView
    decreases events.len(),
{
    if events.len() == 0 {
        s
    } else {
        after_spec(step_spec(s, events[0]).0, events.drop_first())
    }
}

/// A finished session stays finished and asks for nothing more, whatever it is told.
pub proof fn lemma_done_is_final(s: SessionView, events: Seq<EventView>)
    requires
        s.phase == Phase::Done,
    ensures
        after_spec(s, events) == s,
        forall|i: int| 0 <= i < events.len() ==> #[trigger] run_spec(s, events)[i] == ActionView::Stop,
        run_spec(s, events).len() == events.len(),
    decreases events.len(),
{
    if events.len() > 0 {
        lemma_done_is_final(s, events.drop_first());
        let rest = run_spec(s, events.drop_first());
        assert forall|i: int| 0 <= i < events.len() implies #[trigger] run_spec(s, events)[i] == ActionView::Stop by {
            if i > 0 {
                assert(run_spec(s, events)[i] == rest[i - 1]);
            }
        }
    }
}

/// With the disabled flag set nothing is launched, reported or installed.
pub proof fn lemma_disabled_is_silent(o: HostOptions, arch: Seq<char>, os: Seq<char>)
    requires
        o.disabled == Some(true),
    ensures
        start_spec(o, arch, os).1 == ActionView::Stop,
        start_spec(o, arch, os).0.phase == Phase::Done,
{
}

/// A non-empty explicit server path is launched as it is, and the session is
/// finished at once, so nothing is ever downloaded.
pub proof fn lemma_explicit_path_skips_install(o: HostOptions, arch: Seq<char>, os: Seq<char>)
    requires
        o.disabled != Some(true),
        o.server_path is Some,
        o.server_path->0@.len() > 0,
    ensures
        start_spec(o, arch, os).1 == ActionView::Launch(LaunchTargetView::Path(o.server_path->0@)),
        start_spec(o, arch, os).0.phase == Phase::Done,
{
}

/// With the system binary flag and no explicit path, the bare command name is
/// launched and nothing is installed.
pub proof fn lemma_system_binary_skips_install(o: HostOptions, arch: Seq<char>, os: Seq<char>)
    requires
        o.disabled != Some(true),
        o.server_path is None || o.server_path->0@.len() == 0,
        o.system_lsp == Some(true),
    ensures
        start_spec(o, arch, os).1 == ActionView::Launch(LaunchTargetView::Command),
        start_spec(o, arch, os).0.phase == Phase::Done,
{
}

/// The outcomes of an install in which every step succeeds.
pub open spec fn successful_install(entries: Seq<ArchiveEntry>) -> Seq<EventView> {
    seq![
        EventView::Probed(false),
        EventView::Succeeded,
        EventView::Succeeded,
        EventView::Opened(entries),
        EventView::Succeeded,
        EventView::Succeeded,
        EventView::Succeeded,
        EventView::Succeeded,
        EventView::Succeeded,
    ]
}

/// On a fresh install that succeeds, the archive of the requested release is
/// downloaded and unpacked, the executable at the expected path is marked
/// executable, the archive is removed, the requested release is recorded, and
/// that executable is launched.
pub proof fn lemma_fresh_install(o: HostOptions, arch: Seq<char>, os: Seq<char>, entries: Seq<ArchiveEntry>)
    requires
        start_spec(o, arch, os).0.phase == Phase::Probing,
    ensures
        ({
            let c = merge_spec(o);
            let k = resolve_spec(arch, os)->Ok_0;
            let bin = binary_path_spec(c.version, k.os);
            let zip = archive_name_spec(c.version, k.os);
            &&& start_spec(o, arch, os).1 == ActionView::ProbeBinary(bin)
            &&& run_spec(start_spec(o, arch, os).0, successful_install(entries)) == seq![
                ActionView::CreateLock,
                ActionView::Download(download_url_spec(c.version, k.os), zip),
                ActionView::OpenArchive(zip),
                ActionView::Extract(extraction_plan_spec(entries)),
                ActionView::MarkExecutable(bin),
                ActionView::RemoveFile(zip),
                ActionView::WriteMarker(c.version),
                ActionView::RemoveLock,
                ActionView::Launch(LaunchTargetView::Installed(bin)),
            ]
            &&& after_spec(start_spec(o, arch, os).0, successful_install(entries)).phase == Phase::Done
        }),
{
    let s = start_spec(o, arch, os).0;
    let ev = successful_install(entries);
    reveal_with_fuel(run_spec, 10);
    reveal_with_fuel(after_spec, 10);
    assert(ev.drop_first().drop_first().drop_first().drop_first().drop_first().drop_first().drop_first().drop_first().drop_first().len() == 0);
    assert(run_spec(s, ev) =~= seq![
        ActionView::CreateLock,
        ActionView::Download(s.url, s.archive),
        ActionView::OpenArchive(s.archive),
        ActionView::Extract(extraction_plan_spec(entries)),
        ActionView::MarkExecutable(s.binary),
        ActionView::RemoveFile(s.archive),
        ActionView::WriteMarker(s.config.version),
        ActionView::RemoveLock,
        ActionView::Launch(LaunchTargetView::Installed(s.binary)),
    ]);
}

/// Once the executable of a release is present, starting again with the same
/// options finds it and launches it with no download, at the same path.
pub proof fn lemma_installed_is_reused(o: HostOptions, arch: Seq<char>, os: Seq<char>)
    requires
        start_spec(o, arch, os).0.phase == Phase::Probing,
    ensures
        ({
            let s = start_spec(o, arch, os).0;
            let c = merge_spec(o);
            let bin = binary_path_spec(c.version, resolve_spec(arch, os)->Ok_0.os);
            &&& run_spec(s, seq![EventView::Probed(true)]) == seq![ActionView::Launch(LaunchTargetView::Installed(bin))]
            &&& after_spec(s, seq![EventView::Probed(true)]).phase == Phase::Done
        }),
{
    let s = start_spec(o, arch, os).0;
    reveal_with_fuel(run_spec, 2);
    reveal_with_fuel(after_spec, 2);
    assert(seq![EventView::Probed(true)].drop_first().len() == 0);
    assert(run_spec(s, seq![EventView::Probed(true)]) =~= seq![ActionView::Launch(LaunchTargetView::Installed(s.binary))]);
}

} // verus!

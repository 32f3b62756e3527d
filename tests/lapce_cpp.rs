use lapce_cpp::config::{merge, HostOptions, LaunchSource, DEFAULT_CPP_PATTERN, DEFAULT_C_PATTERN, DEFAULT_VERSION};
use lapce_cpp::install::{archive_descriptor, installed_server, plan_extraction, ArchiveEntry, EntryAction};
use lapce_cpp::platform::{resolve, Os, PlatformError, PlatformKey};
use lapce_cpp::session::{AcquireError, Action, Event, InitError, LaunchTarget, Phase, Session};

fn no_options() -> HostOptions {
    HostOptions {
        server_path: None,
        system_lsp: None,
        disabled: None,
        version: None,
        cpp_pattern: None,
        c_pattern: None,
        server_args: vec![],
    }
}

fn entry(name: &str, enclosed: Option<&str>) -> ArchiveEntry {
    ArchiveEntry { name: name.to_string(), enclosed: enclosed.map(|p| p.to_string()) }
}

#[test]
fn resolve_supported_platforms() {
    assert_eq!(resolve("x86_64", "linux"), Ok(PlatformKey { os: Os::Linux }));
    assert_eq!(resolve("x86_64", "macos"), Ok(PlatformKey { os: Os::MacOs }));
    assert_eq!(resolve("x86_64", "windows"), Ok(PlatformKey { os: Os::Windows }));
}

#[test]
fn resolve_refuses_other_architectures() {
    for arch in ["aarch64", "x86", "", "X86_64", "x86_64 "] {
        for os in ["linux", "macos", "windows", "freebsd"] {
            assert_eq!(resolve(arch, os), Err(PlatformError::UnsupportedArch(arch.to_string())));
        }
    }
}

#[test]
fn resolve_refuses_other_systems() {
    for os in ["freebsd", "", "Linux", "android", "ios"] {
        assert_eq!(resolve("x86_64", os), Err(PlatformError::UnsupportedOs(os.to_string())));
    }
}

#[test]
fn merge_defaults() {
    let c = merge(&no_options());
    assert!(!c.disabled);
    assert_eq!(c.source, LaunchSource::Managed);
    assert_eq!(c.version, DEFAULT_VERSION);
    assert_eq!(c.version, "15.0.1");
    assert_eq!(c.cpp_pattern, "**/*.{H,hh,hpp,h++,C,cc,cpp,c++}");
    assert_eq!(c.c_pattern, "**/*.{h,c}");
    assert!(c.launch_args.is_empty());
}

#[test]
fn merge_cpp_pattern_override() {
    let mut o = no_options();
    o.cpp_pattern = Some("hpp".to_string());
    let c = merge(&o);
    assert_eq!(c.cpp_pattern, "**/*.{hpp}");
    assert_eq!(c.c_pattern, DEFAULT_C_PATTERN);
}

#[test]
fn merge_pattern_override_is_trimmed() {
    let mut o = no_options();
    o.cpp_pattern = Some("  hpp,cxx \t".to_string());
    o.c_pattern = Some(" h ".to_string());
    let c = merge(&o);
    assert_eq!(c.cpp_pattern, "**/*.{hpp,cxx}");
    assert_eq!(c.c_pattern, "**/*.{h}");
}

#[test]
fn merge_blank_pattern_keeps_default() {
    let mut o = no_options();
    o.cpp_pattern = Some("   \t\n".to_string());
    o.c_pattern = Some(String::new());
    let c = merge(&o);
    assert_eq!(c.cpp_pattern, DEFAULT_CPP_PATTERN);
    assert_eq!(c.c_pattern, DEFAULT_C_PATTERN);
}

#[test]
fn merge_version_override() {
    let mut o = no_options();
    o.version = Some(" 16.0.2 ".to_string());
    assert_eq!(merge(&o).version, "16.0.2");
    o.version = Some("  ".to_string());
    assert_eq!(merge(&o).version, "15.0.1");
}

#[test]
fn merge_source_priority() {
    let mut o = no_options();
    o.system_lsp = Some(true);
    assert_eq!(merge(&o).source, LaunchSource::SystemBinary);
    o.server_path = Some("/usr/local/bin/clangd".to_string());
    assert_eq!(merge(&o).source, LaunchSource::ExplicitPath("/usr/local/bin/clangd".to_string()));
    o.server_path = Some(String::new());
    assert_eq!(merge(&o).source, LaunchSource::SystemBinary);
    o.system_lsp = Some(false);
    assert_eq!(merge(&o).source, LaunchSource::Managed);
}

#[test]
fn merge_keeps_argument_order() {
    let mut o = no_options();
    o.server_args = vec!["--log=verbose".to_string(), "-j=4".to_string(), "--background-index".to_string()];
    let c = merge(&o);
    assert_eq!(c.launch_args, vec!["--log=verbose", "-j=4", "--background-index"]);
}

#[test]
fn install_paths() {
    let s = installed_server("15.0.1", Os::Linux);
    assert_eq!(s.root_dir, "clangd_15.0.1");
    assert_eq!(s.binary_path, "clangd_15.0.1/bin/clangd");
    let w = installed_server("16.0.2", Os::Windows);
    assert_eq!(w.binary_path, "clangd_16.0.2/bin/clangd.exe");
}

#[test]
fn archive_names_and_urls() {
    let a = archive_descriptor("15.0.1", Os::MacOs);
    assert_eq!(a.file_name, "clangd-mac-15.0.1.zip");
    assert_eq!(
        a.download_url,
        "https://github.com/clangd/clangd/releases/download/15.0.1/clangd-mac-15.0.1.zip"
    );
    assert_eq!(archive_descriptor("15.0.1", Os::Linux).file_name, "clangd-linux-15.0.1.zip");
    assert_eq!(archive_descriptor("15.0.1", Os::Windows).file_name, "clangd-windows-15.0.1.zip");
}

#[test]
fn extraction_skips_unsafe_entries() {
    let entries = vec![
        entry("clangd_15.0.1/", Some("clangd_15.0.1/")),
        entry("../evil", None),
        entry("clangd_15.0.1/bin/clangd", Some("clangd_15.0.1/bin/clangd")),
        entry("/etc/passwd", None),
        entry("clangd_15.0.1/lib/", Some("clangd_15.0.1/lib/")),
    ];
    let plan = plan_extraction(&entries);
    assert_eq!(
        plan,
        vec![
            EntryAction::CreateDir("clangd_15.0.1/".to_string()),
            EntryAction::Skip,
            EntryAction::WriteFile("clangd_15.0.1/bin/clangd".to_string()),
            EntryAction::Skip,
            EntryAction::CreateDir("clangd_15.0.1/lib/".to_string()),
        ]
    );
    assert!(plan_extraction(&vec![]).is_empty());
}

#[test]
fn disabled_is_silent() {
    let mut o = no_options();
    o.disabled = Some(true);
    o.server_path = Some("/opt/clangd".to_string());
    let (mut s, a) = Session::start(&o, "x86_64", "linux");
    assert_eq!(a, Action::Stop);
    assert_eq!(s.phase, Phase::Done);
    assert_eq!(s.step(Event::Succeeded), Action::Stop);
}

#[test]
fn explicit_path_is_launched_directly() {
    let mut o = no_options();
    o.server_path = Some("/opt/clangd".to_string());
    o.system_lsp = Some(true);
    let (mut s, a) = Session::start(&o, "aarch64", "plan9");
    assert_eq!(a, Action::Launch(LaunchTarget::Path("/opt/clangd".to_string())));
    assert_eq!(s.step(Event::Probed(false)), Action::Stop);
}

#[test]
fn system_binary_is_launched_directly() {
    let mut o = no_options();
    o.system_lsp = Some(true);
    let (s, a) = Session::start(&o, "x86_64", "linux");
    assert_eq!(a, Action::Launch(LaunchTarget::Command));
    assert_eq!(s.phase, Phase::Done);
}

#[test]
fn unsupported_platform_is_reported() {
    let (s, a) = Session::start(&no_options(), "arm", "linux");
    assert_eq!(a, Action::Report(InitError::UnsupportedPlatform(PlatformError::UnsupportedArch("arm".to_string()))));
    assert_eq!(s.phase, Phase::Done);
    let (_, a) = Session::start(&no_options(), "x86_64", "haiku");
    assert_eq!(a, Action::Report(InitError::UnsupportedPlatform(PlatformError::UnsupportedOs("haiku".to_string()))));
}

#[test]
fn fresh_install_runs_every_step() {
    let mut o = no_options();
    o.version = Some("16.0.2".to_string());
    let (mut s, a) = Session::start(&o, "x86_64", "linux");
    let bin = "clangd_16.0.2/bin/clangd".to_string();
    let zip = "clangd-linux-16.0.2.zip".to_string();
    assert_eq!(a, Action::ProbeBinary(bin.clone()));
    assert_eq!(s.step(Event::Probed(false)), Action::CreateLock);
    assert_eq!(
        s.step(Event::Succeeded),
        Action::Download {
            url: "https://github.com/clangd/clangd/releases/download/16.0.2/clangd-linux-16.0.2.zip".to_string(),
            dest: zip.clone(),
        }
    );
    assert_eq!(s.step(Event::Succeeded), Action::OpenArchive(zip.clone()));
    let entries = vec![entry("clangd_16.0.2/bin/clangd", Some("clangd_16.0.2/bin/clangd")), entry("../x", None)];
    assert_eq!(
        s.step(Event::Opened(entries)),
        Action::Extract(vec![EntryAction::WriteFile(bin.clone()), EntryAction::Skip])
    );
    assert_eq!(s.step(Event::Succeeded), Action::MarkExecutable(bin.clone()));
    assert_eq!(s.step(Event::Succeeded), Action::RemoveFile(zip));
    assert_eq!(s.step(Event::Succeeded), Action::WriteMarker("16.0.2".to_string()));
    assert_eq!(s.step(Event::Succeeded), Action::RemoveLock);
    assert_eq!(s.step(Event::Succeeded), Action::Launch(LaunchTarget::Installed(bin)));
    assert_eq!(s.phase, Phase::Done);
    assert_eq!(s.step(Event::Succeeded), Action::Stop);
}

#[test]
fn second_start_reuses_install() {
    let (mut s, a) = Session::start(&no_options(), "x86_64", "windows");
    let bin = "clangd_15.0.1/bin/clangd.exe".to_string();
    assert_eq!(a, Action::ProbeBinary(bin.clone()));
    assert_eq!(s.step(Event::Probed(true)), Action::Launch(LaunchTarget::Installed(bin.clone())));
    let (mut s2, a2) = Session::start(&no_options(), "x86_64", "windows");
    assert_eq!(a2, Action::ProbeBinary(bin.clone()));
    assert_eq!(s2.step(Event::Probed(true)), Action::Launch(LaunchTarget::Installed(bin)));
}

#[test]
fn download_failure_releases_lock_then_reports() {
    let (mut s, _) = Session::start(&no_options(), "x86_64", "linux");
    assert_eq!(s.step(Event::Probed(false)), Action::CreateLock);
    assert!(matches!(s.step(Event::Succeeded), Action::Download { .. }));
    assert_eq!(s.step(Event::Failed), Action::RemoveLock);
    assert_eq!(s.step(Event::Succeeded), Action::Report(InitError::Acquire(AcquireError::DownloadFailed)));
    assert_eq!(s.phase, Phase::Done);
}

fn failure_after(steps_ok: usize) -> Action {
    let (mut s, _) = Session::start(&no_options(), "x86_64", "linux");
    s.step(Event::Probed(false));
    s.step(Event::Succeeded);
    let events = vec![Event::Succeeded, Event::Opened(vec![]), Event::Succeeded];
    for e in events.into_iter().take(steps_ok) {
        s.step(e);
    }
    assert_eq!(s.step(Event::Failed), Action::RemoveLock);
    s.step(Event::Succeeded)
}

#[test]
fn each_install_failure_is_reported() {
    assert_eq!(failure_after(0), Action::Report(InitError::Acquire(AcquireError::DownloadFailed)));
    assert_eq!(failure_after(1), Action::Report(InitError::Acquire(AcquireError::ArchiveOpenFailed)));
    assert_eq!(failure_after(2), Action::Report(InitError::Acquire(AcquireError::ArchiveEntryFailed)));
    assert_eq!(failure_after(3), Action::Report(InitError::Acquire(AcquireError::PermissionDenied)));
}

#[test]
fn failure_messages() {
    let arch = InitError::UnsupportedPlatform(PlatformError::UnsupportedArch("arm".to_string()));
    assert_eq!(arch.message(), "Unsupported ARCH: arm");
    let os = InitError::UnsupportedPlatform(PlatformError::UnsupportedOs("haiku".to_string()));
    assert_eq!(os.message(), "Your os \"haiku\" is unsupported");
    assert_eq!(InitError::Acquire(AcquireError::DownloadFailed).message(), "clangd download failed");
    assert_eq!(InitError::Acquire(AcquireError::ArchiveOpenFailed).message(), "clangd archive could not be opened");
    assert_eq!(InitError::Acquire(AcquireError::ArchiveEntryFailed).message(), "clangd archive could not be unpacked");
    assert_eq!(InitError::Acquire(AcquireError::PermissionDenied).message(), "clangd could not be made executable");
}

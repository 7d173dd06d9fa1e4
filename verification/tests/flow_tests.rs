use voidemu::download::{
    content_length, plan_download, range_header, skip_message, ChunkReport, DownloadProgress,
    DownloadStart,
};
use voidemu::install_flow::{
    release_fields, source_label, source_url, Failure, InstallAction,
    InstallEvent, InstallFlow, InstallStage, ReleaseFields, Source, TarOutput, UrlChoice,
};
use voidemu::installer::{
    blank_file_args, desktop_shortcut_script, expand_archive_script, hidden_powershell_args,
    place_path, raw_disk_args, release_json, shortcut_script, tar_extract_args, url_answers,
    InstallState, Place,
};
use voidemu::setup::{download_script, overlay_file, overlay_path, powershell_args};
use voidemu::setup_flow::{
    setup_place_path, setup_source_url, SetupAction, SetupEvent, SetupFlow, SetupPlace,
    SetupSource, SetupStage,
};
use voidemu::layout::AppPath;

fn ok() -> InstallEvent {
    InstallEvent::Completed(Ok(()))
}

fn fail(e: &str) -> Failure {
    Failure { subject: "\"C:\\\\x\"".to_string(), error: e.to_string() }
}

fn log(state: &InstallState) -> Vec<(String, i32)> {
    state.log.clone()
}

fn line(s: &str, p: i32) -> (String, i32) {
    (s.to_string(), p)
}

#[test]
fn install_with_everything_present() {
    let mut state = InstallState::default();
    let mut flow = InstallFlow::new();
    assert_eq!(flow.pending(), InstallAction::CreateDir(Place::InstallDir));
    assert_eq!(flow.step(ok(), &mut state), InstallAction::CreateDir(Place::ImagesDir));
    assert_eq!(flow.step(ok(), &mut state), InstallAction::CreateDir(Place::InstancesDir));
    assert_eq!(flow.step(ok(), &mut state), InstallAction::CheckExists(Place::QemuExe));
    assert_eq!(flow.step(InstallEvent::Found(true), &mut state), InstallAction::CheckExists(Place::AdbExe));
    assert_eq!(flow.step(InstallEvent::Found(true), &mut state), InstallAction::CheckExists(Place::BaseImg));
    assert_eq!(flow.step(InstallEvent::Found(true), &mut state), InstallAction::FetchRelease);
    let body = r#"{"version": "2.6.3", "url": "https://h/releases/download/v2.6.3/VoidEmulator.exe"}"#;
    assert_eq!(
        flow.step(InstallEvent::Fetched(Ok(body.to_string())), &mut state),
        InstallAction::CheckUrl(UrlChoice::Latest)
    );
    assert_eq!(flow.url(UrlChoice::Latest), "https://h/releases/download/v2.6.3/VoidEmulator.exe");
    assert_eq!(flow.step(InstallEvent::Found(true), &mut state), InstallAction::CreateDir(Place::DownloadsDir));
    assert_eq!(flow.chosen_url(), "https://h/releases/download/v2.6.3/VoidEmulator.exe");
    assert_eq!(flow.download_url(Source::Emulator), "https://h/releases/download/v2.6.3/VoidEmulator.exe");
    assert_eq!(flow.download_url(Source::Qemu), source_url(Source::Qemu).unwrap());
    assert_eq!(
        flow.step(ok(), &mut state),
        InstallAction::Download { source: Source::Emulator, dest: Place::ExeDownload, pct_start: 90, pct_end: 96, resume: false }
    );
    assert_eq!(flow.step(ok(), &mut state), InstallAction::Copy { from: Place::ExeDownload, to: Place::ExeDest });
    assert_eq!(flow.step(ok(), &mut state), InstallAction::StartMenuShortcut);
    assert_eq!(flow.step(ok(), &mut state), InstallAction::DesktopShortcut);
    assert!(!state.done);
    assert_eq!(flow.step(ok(), &mut state), InstallAction::Stop);
    assert!(state.done);
    assert_eq!(flow.stage(), InstallStage::Finished);
    assert_eq!(
        log(&state),
        vec![
            line("Starting installation...", 1),
            line("QEMU ready \u{2713}", 25),
            line("ADB ready \u{2713}", 47),
            line("Android ready \u{2713}", 88),
            line("Fetching latest version...", 89),
            line("Downloading VoidEmulator v2.6.3...", 90),
            line("VoidEmulator installed \u{2713}", 97),
            line("Creating shortcuts...", 98),
            line("Installation complete!", 100),
        ]
    );
    // finished: nothing more happens
    assert_eq!(flow.step(ok(), &mut state), InstallAction::Stop);
    assert_eq!(state.log.len(), 9);
}

#[test]
fn install_from_scratch_with_fallback_release() {
    let mut state = InstallState::new();
    let mut flow = InstallFlow::new();
    for _ in 0..3 {
        flow.step(ok(), &mut state);
    }
    assert_eq!(flow.step(InstallEvent::Found(false), &mut state), InstallAction::CreateDir(Place::DownloadsDir));
    assert_eq!(
        flow.step(ok(), &mut state),
        InstallAction::Download { source: Source::Qemu, dest: Place::QemuZip, pct_start: 3, pct_end: 20, resume: true }
    );
    assert_eq!(flow.step(ok(), &mut state), InstallAction::CreateDir(Place::DataDir));
    assert_eq!(flow.step(ok(), &mut state), InstallAction::Extract { archive: Place::QemuZip, into: Place::DataDir });
    let tar = TarOutput { code: None, stdout: "  \n".to_string(), stderr: " warn \r\n".to_string() };
    assert_eq!(flow.step(InstallEvent::Extracted(Ok(tar)), &mut state), InstallAction::ListExtracted);
    let listed = InstallEvent::Listed {
        data: Some(vec!["qemu".to_string(), "images".to_string()]),
        qemu: None,
    };
    assert_eq!(flow.step(listed, &mut state), InstallAction::CheckExists(Place::QemuExe));
    assert_eq!(flow.step(InstallEvent::Found(true), &mut state), InstallAction::CheckExists(Place::AdbExe));
    // ADB
    assert_eq!(flow.step(InstallEvent::Found(false), &mut state), InstallAction::CreateDir(Place::DownloadsDir));
    assert_eq!(
        flow.step(ok(), &mut state),
        InstallAction::Download { source: Source::Adb, dest: Place::AdbZip, pct_start: 27, pct_end: 44, resume: true }
    );
    assert_eq!(flow.step(ok(), &mut state), InstallAction::CreateDir(Place::ToolsTemp));
    assert_eq!(flow.step(ok(), &mut state), InstallAction::Extract { archive: Place::AdbZip, into: Place::ToolsTemp });
    assert_eq!(
        flow.step(InstallEvent::Extracted(Err(fail("no tar"))), &mut state),
        InstallAction::CheckExists(Place::ToolSource(0))
    );
    assert_eq!(
        flow.step(InstallEvent::Found(true), &mut state),
        InstallAction::Copy { from: Place::ToolSource(0), to: Place::ToolTarget(0) }
    );
    assert_eq!(flow.step(ok(), &mut state), InstallAction::CheckExists(Place::ToolSource(1)));
    assert_eq!(flow.step(InstallEvent::Found(false), &mut state), InstallAction::CheckExists(Place::ToolSource(2)));
    assert_eq!(
        flow.step(InstallEvent::Found(true), &mut state),
        InstallAction::Copy { from: Place::ToolSource(2), to: Place::ToolTarget(2) }
    );
    assert_eq!(flow.step(ok(), &mut state), InstallAction::RemoveDir(Place::ToolsTemp));
    assert_eq!(flow.step(ok(), &mut state), InstallAction::CheckExists(Place::BaseImg));
    // Android
    assert_eq!(flow.step(InstallEvent::Found(false), &mut state), InstallAction::CreateDir(Place::DownloadsDir));
    assert_eq!(
        flow.step(ok(), &mut state),
        InstallAction::Download { source: Source::Android, dest: Place::AndroidIso, pct_start: 49, pct_end: 86, resume: true }
    );
    assert_eq!(flow.step(ok(), &mut state), InstallAction::CheckExists(Place::QemuImgExe));
    assert_eq!(flow.step(InstallEvent::Found(false), &mut state), InstallAction::CreateDisk { with_qemu_img: false });
    assert_eq!(flow.step(ok(), &mut state), InstallAction::FetchRelease);
    let body = r#"{"url": "https://h/download/v2.6.0/VoidEmulator.exe", "version": "2.6.0", "notes": 3}"#;
    assert_eq!(
        flow.step(InstallEvent::Fetched(Ok(body.to_string())), &mut state),
        InstallAction::CheckUrl(UrlChoice::Latest)
    );
    assert_eq!(flow.step(InstallEvent::Found(false), &mut state), InstallAction::CheckUrl(UrlChoice::Previous));
    assert_eq!(flow.url(UrlChoice::Previous), "https://h/download/v2.5.9/VoidEmulator.exe");
    assert_eq!(flow.step(InstallEvent::Found(true), &mut state), InstallAction::CreateDir(Place::DownloadsDir));
    assert_eq!(flow.chosen_url(), "https://h/download/v2.5.9/VoidEmulator.exe");
    let lines = log(&state);
    assert_eq!(
        lines,
        vec![
            line("Starting installation...", 1),
            line("Extracting QEMU...", 21),
            line("tar exit:-1 stdout: stderr:warn", 22),
            line("parent:[qemu, images] qemu:[missing]", 23),
            line("QEMU ready \u{2713}", 25),
            line("Extracting ADB...", 45),
            line("ADB ready \u{2713}", 47),
            line("Creating disk image...", 87),
            line("Android ready \u{2713}", 88),
            line("Fetching latest version...", 89),
            line("v2.6.0 not ready yet, trying previous version...", 90),
            line("Using previous version instead", 90),
        ]
    );
    // the installer's own progress never goes backwards
    assert!(lines.windows(2).all(|w| w[0].1 <= w[1].1));
}

#[test]
fn install_failures_end_with_minus_one() {
    // a folder that cannot be made
    let mut state = InstallState::new();
    let mut flow = InstallFlow::new();
    flow.step(ok(), &mut state);
    assert_eq!(flow.step(InstallEvent::Completed(Err(fail("denied"))), &mut state), InstallAction::Stop);
    assert_eq!(log(&state), vec![line("Failed to create dir \"C:\\\\x\": denied", -1)]);
    assert_eq!(flow.stage(), InstallStage::Failed);
    assert!(!state.done);

    // a release description without an address
    let mut state = InstallState::new();
    let mut flow = InstallFlow::new();
    for _ in 0..3 {
        flow.step(ok(), &mut state);
    }
    for _ in 0..3 {
        flow.step(InstallEvent::Found(true), &mut state);
    }
    assert_eq!(flow.step(InstallEvent::Fetched(Ok("not json".to_string())), &mut state), InstallAction::Stop);
    assert_eq!(state.log.last().unwrap(), &line("No URL in release.json!", -1));

    // no previous release to fall back to
    let mut state = InstallState::new();
    let mut flow = InstallFlow::new();
    for _ in 0..3 {
        flow.step(ok(), &mut state);
    }
    for _ in 0..3 {
        flow.step(InstallEvent::Found(true), &mut state);
    }
    let body = r#"{"version": "3.0.0", "url": "https://h/v3.0.0/a.exe"}"#;
    flow.step(InstallEvent::Fetched(Ok(body.to_string())), &mut state);
    assert_eq!(flow.step(InstallEvent::Found(false), &mut state), InstallAction::Stop);
    let n = state.log.len();
    assert_eq!(state.log[n - 2], line("v3.0.0 not ready yet, trying previous version...", 90));
    assert_eq!(state.log[n - 1], line("Could not determine fallback URL!", -1));

    // a failed download
    let mut state = InstallState::new();
    let mut flow = InstallFlow::new();
    for _ in 0..3 {
        flow.step(ok(), &mut state);
    }
    flow.step(InstallEvent::Found(false), &mut state);
    flow.step(ok(), &mut state);
    assert_eq!(flow.step(InstallEvent::Completed(Err(fail("timed out"))), &mut state), InstallAction::Stop);
    assert_eq!(state.log.last().unwrap(), &line("QEMU download failed: timed out", -1));
    // failed: nothing more happens
    assert_eq!(flow.step(ok(), &mut state), InstallAction::Stop);
    assert_eq!(state.log.len(), 2);
}

#[test]
fn release_description_fields() {
    let f = release_fields(r#"{"version": "1.2.3", "url": "https://x/a.exe"}"#);
    assert_eq!((f.version.as_deref(), f.url.as_deref()), (Some("1.2.3"), Some("https://x/a.exe")));
    let f = release_fields(r#"{"version": 5, "url": null}"#);
    assert_eq!((f.version, f.url), (None, None));
    let f = release_fields("[1, 2]");
    assert_eq!((f.version, f.url), (None, None));
    let f = release_fields("");
    assert_eq!((f.version, f.url), (None, None));
    let f = release_fields(r#"{"url": "b\u00e9", "version": "x", "version": "2.0.1"}"#);
    assert_eq!((f.version.as_deref(), f.url.as_deref()), (Some("2.0.1"), Some("b\u{e9}")));

    // the release fields decide the next step only where they are awaited
    let mut state = InstallState::new();
    let mut flow = InstallFlow::new();
    flow.accept_release(ReleaseFields { version: None, url: Some("u".to_string()) }, &mut state);
    assert_eq!(flow.stage(), InstallStage::MakeDir(0));
    for _ in 0..3 {
        flow.step(ok(), &mut state);
    }
    for _ in 0..3 {
        flow.step(InstallEvent::Found(true), &mut state);
    }
    flow.accept_release(ReleaseFields { version: None, url: Some("https://x/v1.0.1/a".to_string()) }, &mut state);
    assert_eq!(flow.stage(), InstallStage::CheckLatest);
    assert_eq!(flow.version(), "");
    assert_eq!(flow.url(UrlChoice::Latest), "https://x/v1.0.1/a");
}

#[test]
fn unexpected_event_repeats_the_pending_action() {
    let mut state = InstallState::new();
    let mut flow = InstallFlow::new();
    assert_eq!(flow.step(InstallEvent::Found(true), &mut state), InstallAction::CreateDir(Place::InstallDir));
    assert!(state.log.is_empty());
}

#[test]
fn installer_places_and_commands() {
    let a = Some("C:\\R");
    let p = |pl: Place| {
        let x: AppPath = place_path(pl, a, "C:\\T");
        (x.base, x.segments)
    };
    let v = |s: &[&str]| s.iter().map(|x| x.to_string()).collect::<Vec<String>>();
    assert_eq!(p(Place::QemuZip), ("C:\\R".to_string(), v(&["VoidEmulator", "downloads", "qemu.zip"])));
    assert_eq!(p(Place::ToolSource(1)), ("C:\\T".to_string(), v(&["void_pt_tmp", "platform-tools", "AdbWinApi.dll"])));
    assert_eq!(p(Place::ToolTarget(2)).1, v(&["VoidEmulator", "data", "qemu", "AdbWinUsbApi.dll"]));
    assert_eq!(p(Place::DataDir).1, v(&["VoidEmulator", "data"]));
    assert_eq!(p(Place::ExeDest).1, v(&["VoidEmulator", "VoidEmulator.exe"]));
    let link = place_path(Place::StartMenuLink, None, "t");
    assert_eq!((link.base.as_str(), link.segments.len()), ("", 1));
    assert_eq!(tar_extract_args("a.zip", "d"), v(&["-xf", "a.zip", "-C", "d"]));
    assert_eq!(raw_disk_args("b.img"), v(&["create", "-f", "raw", "b.img", "4G"]));
    assert_eq!(blank_file_args("b.img"), v(&["file", "createnew", "b.img", "4294967296"]));
    assert_eq!(
        expand_archive_script("z.zip", "D"),
        "$ProgressPreference='SilentlyContinue'; Expand-Archive -Path 'z.zip' -DestinationPath 'D' -Force"
    );
    assert_eq!(
        shortcut_script("l.lnk", "t.exe"),
        "$ws = New-Object -ComObject WScript.Shell; $s = $ws.CreateShortcut('l.lnk'); $s.TargetPath = 't.exe'; $s.Save()"
    );
    assert_eq!(
        desktop_shortcut_script("t.exe"),
        "$ws = New-Object -ComObject WScript.Shell; $d = [Environment]::GetFolderPath('Desktop'); $s = $ws.CreateShortcut($d + '\\VoidEmulator.lnk'); $s.TargetPath = 't.exe'; $s.Save()"
    );
    assert_eq!(hidden_powershell_args("x".to_string()), v(&["-WindowStyle", "Hidden", "-Command", "x"]));
    assert!(release_json().ends_with("/release.json"));
    assert_eq!(source_url(Source::Emulator), None);
    assert_eq!(source_url(Source::Adb), Some("https://dl.google.com/android/repository/platform-tools-latest-windows.zip"));
    assert_eq!(source_label(Source::Android), "Android");
    assert!(url_answers(Some(200)));
    assert!(url_answers(Some(399)));
    assert!(!url_answers(Some(404)));
    assert!(!url_answers(None));
}

#[test]
fn download_bookkeeping() {
    assert_eq!(plan_download(100, 100), DownloadStart::AlreadyComplete);
    assert_eq!(plan_download(150, 100), DownloadStart::AlreadyComplete);
    assert_eq!(plan_download(40, 100), DownloadStart::Resume { from: 40 });
    assert_eq!(plan_download(40, 0), DownloadStart::Resume { from: 40 });
    assert_eq!(plan_download(0, 100), DownloadStart::Fresh);
    assert_eq!(plan_download(0, 0), DownloadStart::Fresh);
    assert_eq!(content_length(Some("1048576")), 1048576);
    assert_eq!(content_length(Some("abc")), 0);
    assert_eq!(content_length(None), 0);
    assert_eq!(range_header(40), "bytes=40-");
    assert_eq!(skip_message("QEMU"), "QEMU already downloaded, skipping...");
    let mut p = DownloadProgress::start(0, 1000, 3);
    p.add_chunk(100);
    assert_eq!(p.downloaded, 100);
    assert_eq!(p.report(4), ChunkReport::Percent { pct: 4 });
    assert_eq!(p.report(4), ChunkReport::Quiet);
    assert_eq!(p.report(3), ChunkReport::Quiet);
    assert_eq!(p.last_pct, 4);
    let mut q = DownloadProgress::start(5, 0, 27);
    q.add_chunk(7);
    assert_eq!(q.downloaded, 12);
    assert_eq!(q.report(99), ChunkReport::Running);
    assert_eq!(q.last_pct, 27);
}

fn done() -> SetupEvent {
    SetupEvent::Completed(Ok(()))
}

#[test]
fn setup_from_scratch() {
    let mut out: Vec<(String, i32)> = Vec::new();
    let mut flow = SetupFlow::new();
    assert_eq!(flow.pending(), SetupAction::CreateDir(SetupPlace::QemuDir));
    flow.step(done(), &mut out);
    flow.step(done(), &mut out);
    assert_eq!(flow.step(done(), &mut out), SetupAction::CheckExists(SetupPlace::QemuExe));
    assert_eq!(
        flow.step(SetupEvent::Found(false), &mut out),
        SetupAction::Download { source: SetupSource::Qemu, dest: SetupPlace::QemuZip }
    );
    assert_eq!(flow.step(done(), &mut out), SetupAction::CreateDir(SetupPlace::QemuDir));
    assert_eq!(flow.step(done(), &mut out), SetupAction::Expand { archive: SetupPlace::QemuZip, into: SetupPlace::QemuDir });
    assert_eq!(flow.step(done(), &mut out), SetupAction::RemoveFile(SetupPlace::QemuZip));
    assert_eq!(flow.step(done(), &mut out), SetupAction::LocateQemu);
    assert_eq!(
        flow.step(SetupEvent::Located { found: true, in_place: false }, &mut out),
        SetupAction::CopyFound(SetupPlace::QemuExe)
    );
    assert_eq!(flow.step(done(), &mut out), SetupAction::CheckExists(SetupPlace::AdbExe));
    assert_eq!(flow.step(SetupEvent::Found(true), &mut out), SetupAction::CheckExists(SetupPlace::BaseImg));
    assert_eq!(
        flow.step(SetupEvent::Found(false), &mut out),
        SetupAction::Download { source: SetupSource::Android, dest: SetupPlace::AndroidIso }
    );
    assert_eq!(flow.step(done(), &mut out), SetupAction::CreateDisk);
    assert_eq!(flow.step(done(), &mut out), SetupAction::RemoveFile(SetupPlace::AndroidIso));
    assert_eq!(flow.step(done(), &mut out), SetupAction::Stop);
    assert_eq!(flow.stage(), SetupStage::Finished);
    assert_eq!(
        out,
        vec![
            line("Starting setup...", 1),
            line("Downloading QEMU...", 5),
            line("Download complete", 25),
            line("Extracting QEMU...", 26),
            line("QEMU ready \u{2713}", 30),
            line("ADB ready \u{2713}", 55),
            line("Downloading Android-x86 image (~300MB)...", 57),
            line("Download complete", 93),
            line("Creating disk image...", 94),
            line("All done! \u{1F680}", 100),
        ]
    );
}

#[test]
fn setup_adb_and_failure() {
    let mut out: Vec<(String, i32)> = Vec::new();
    let mut flow = SetupFlow::new();
    for _ in 0..3 {
        flow.step(done(), &mut out);
    }
    flow.step(SetupEvent::Found(true), &mut out);
    assert_eq!(
        flow.step(SetupEvent::Found(false), &mut out),
        SetupAction::Download { source: SetupSource::Adb, dest: SetupPlace::AdbZip }
    );
    assert_eq!(flow.step(SetupEvent::Completed(Err("boom".to_string())), &mut out), SetupAction::Stop);
    assert_eq!(out.last().unwrap(), &line("ADB download failed!", -1));
    assert_eq!(flow.step(done(), &mut out), SetupAction::Stop);

    let mut out: Vec<(String, i32)> = Vec::new();
    let mut flow = SetupFlow::new();
    for _ in 0..3 {
        flow.step(done(), &mut out);
    }
    flow.step(SetupEvent::Found(true), &mut out);
    flow.step(SetupEvent::Found(false), &mut out);
    assert_eq!(flow.step(done(), &mut out), SetupAction::CreateDir(SetupPlace::ToolsExtract));
    assert_eq!(flow.step(done(), &mut out), SetupAction::Expand { archive: SetupPlace::AdbZip, into: SetupPlace::ToolsExtract });
    assert_eq!(flow.step(done(), &mut out), SetupAction::CheckExists(SetupPlace::ToolSource(0)));
    flow.step(SetupEvent::Found(false), &mut out);
    flow.step(SetupEvent::Found(false), &mut out);
    assert_eq!(flow.step(SetupEvent::Found(false), &mut out), SetupAction::RemoveDir(SetupPlace::ToolsExtract));
    assert_eq!(flow.step(done(), &mut out), SetupAction::RemoveFile(SetupPlace::AdbZip));
    assert_eq!(flow.step(done(), &mut out), SetupAction::CheckExists(SetupPlace::BaseImg));
    assert_eq!(flow.step(SetupEvent::Found(true), &mut out), SetupAction::Stop);
    assert_eq!(out.last().unwrap(), &line("All done! \u{1F680}", 100));
}

#[test]
fn setup_places_and_commands() {
    let data = || AppPath::from_base("C:\\D");
    let v = |s: &[&str]| s.iter().map(|x| x.to_string()).collect::<Vec<String>>();
    assert_eq!(setup_place_path(SetupPlace::QemuExe, data()).segments, v(&["qemu", "qemu-system-i386.exe"]));
    assert_eq!(setup_place_path(SetupPlace::AndroidIso, data()).segments, v(&["images", "android.iso"]));
    assert_eq!(
        setup_place_path(SetupPlace::ToolSource(0), data()).segments,
        v(&["platform-tools-extract", "platform-tools", "adb.exe"])
    );
    assert_eq!(overlay_file("abc"), "abc.qcow2");
    assert_eq!(overlay_path(data(), "abc").segments, v(&["instances", "abc.qcow2"]));
    assert_eq!(
        download_script("https://u", "C:\\f"),
        "$ProgressPreference='SilentlyContinue'; Invoke-WebRequest -Uri 'https://u' -OutFile 'C:\\f'"
    );
    assert_eq!(powershell_args("s".to_string()), v(&["-Command", "s"]));
    assert!(setup_source_url(SetupSource::Qemu).ends_with("qemu-portable-20240822-windows-amd64.zip"));
    assert_eq!(
        voidemu::setup::qemu_launch_args("o", 5554),
        v(&["-m", "512", "-smp", "1", "-drive", "file=o,format=qcow2", "-net", "nic", "-net",
            "user,hostfwd=tcp:127.0.0.1:5554-:5555", "-vga", "std", "-usb", "-device",
            "usb-tablet", "-no-reboot", "-nographic"])
    );
}

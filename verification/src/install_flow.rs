//! The installation procedure as a state machine: each step takes what the
//! last action came to, logs what the installer reports, and names the next
//! action. `app/` performs the actions.
use vstd::prelude::*;
use vstd::string::*;
use crate::installer::{InstallState, Place};
use crate::decimal::{signed_decimal, spec_signed_decimal};
use crate::text::{concat, joined, join_texts, spec_trim, texts, trim};
use crate::version::{prev_version_url, spec_prev_version_url};

verus! {

/// A failed operation: the thing acted on, as `{:?}` shows it, and the
/// error, as `{}` shows it.
pub struct Failure {
    pub subject: String,
    pub error: String,
}

/// What `tar` came to: its exit code where it has one, and its output.
pub struct TarOutput {
    pub code: Option<i32>,
    pub stdout: String,
    pub stderr: String,
}

/// The fields of `release.json` that the installer reads: each is the
/// string under its key, where there is one.
pub struct ReleaseFields {
    pub version: Option<String>,
    pub url: Option<String>,
}

/// The text of an optional string.
pub open spec fn opt_text(s: Option<String>) -> Option<Seq<char>> {
    match s {
        Some(t) => Some(t@),
        None => None,
    }
}

/// The string that the JSON document `body` holds under `key` at its top
/// level: `None` where `body` is not JSON, is not an object, lacks the key,
/// or holds something other than a string there.
pub uninterp spec fn json_str_field(body: Seq<char>, key: Seq<char>) -> Option<Seq<char>>;

/// Parses `body` with `serde_json::from_str::<Value>` and reads the string
/// under `key` with `Value::get` and `Value::as_str`. Trusted: its result is
/// named `json_str_field` of the body and the key, that is, the same text
/// and key always give the same answer; what JSON parsing gives is not
/// written out.
#[verifier::external_body]
pub(crate) fn json_string_field(body: &str, key: &str) -> (res: Option<String>)
    ensures
        opt_text(res) == json_str_field(body@, key@),
{
    serde_json::from_str::<serde_json::Value>(body).ok().and_then(
        |v| v.get(key).and_then(|f| f.as_str()).map(|f| f.to_string()),
    )
}

/// The version and the download address that the release description
/// `body` gives.
pub fn release_fields(body: &str) -> (res: ReleaseFields)
    ensures
        opt_text(res.version) == json_str_field(body@, "version"@),
        opt_text(res.url) == json_str_field(body@, "url"@),
{
    ReleaseFields {
        version: json_string_field(body, "version"),
        url: json_string_field(body, "url"),
    }
}

/// What the last action came to.
pub enum InstallEvent {
    /// A plain operation finished, or failed.
    Completed(Result<(), Failure>),
    /// A file, or a download address, exists or not.
    Found(bool),
    /// `tar` ran, or could not be started.
    Extracted(Result<TarOutput, Failure>),
    /// The names in the data folder and in the QEMU folder; `None` for a
    /// folder that could not be read.
    Listed { data: Option<Vec<String>>, qemu: Option<Vec<String>> },
    /// The release description was fetched (its text; empty where the body
    /// could not be read), or the request failed.
    Fetched(Result<String, Failure>),
}

/// What is downloaded.
#[derive(PartialEq, Eq, Structural, Clone, Copy, Debug)]
pub enum Source {
    Qemu,
    Adb,
    Android,
    /// The emulator program, from the address that the installer chose.
    Emulator,
}

/// The fixed download address of `source`; the emulator's own address comes
/// from the release description instead.
pub open spec fn spec_source_url(source: Source) -> Option<Seq<char>> {
    match source {
        Source::Qemu => Some(
            "https://github.com/darkflareplays8/VoidEm/releases/download/Asset%2FQuemu/qemu.zip"@,
        ),
        Source::Adb => Some("https://dl.google.com/android/repository/platform-tools-latest-windows.zip"@),
        Source::Android => Some("https://www.fosshub.com/Android-x86.html/android-x86-4.4-r5.iso"@),
        Source::Emulator => None,
    }
}

pub fn source_url(source: Source) -> (res: Option<&'static str>)
    ensures
        match res {
            Some(u) => spec_source_url(source) == Some(u@),
            None => spec_source_url(source) is None,
        },
{
    match source {
        Source::Qemu => Some(
            "https://github.com/darkflareplays8/VoidEm/releases/download/Asset%2FQuemu/qemu.zip",
        ),
        Source::Adb => Some("https://dl.google.com/android/repository/platform-tools-latest-windows.zip"),
        Source::Android => Some("https://www.fosshub.com/Android-x86.html/android-x86-4.4-r5.iso"),
        Source::Emulator => None,
    }
}

/// The name that the progress lines of a download give `source`.
pub open spec fn spec_source_label(source: Source) -> Seq<char> {
    match source {
        Source::Qemu => "QEMU"@,
        Source::Adb => "ADB"@,
        Source::Android => "Android"@,
        Source::Emulator => "VoidEmulator"@,
    }
}

pub fn source_label(source: Source) -> (res: &'static str)
    ensures
        res@ == spec_source_label(source),
{
    match source {
        Source::Qemu => "QEMU",
        Source::Adb => "ADB",
        Source::Android => "Android",
        Source::Emulator => "VoidEmulator",
    }
}

/// Which release address to try.
#[derive(PartialEq, Eq, Structural, Clone, Copy, Debug)]
pub enum UrlChoice {
    Latest,
    Previous,
}

/// The next thing to do.
#[derive(PartialEq, Eq, Structural, Clone, Copy, Debug)]
pub enum InstallAction {
    /// Create a folder and its parents.
    CreateDir(Place),
    /// Report whether a file exists.
    CheckExists(Place),
    /// Download `source` to `dest`, logging progress between `pct_start`
    /// and `pct_end`; resume a partial file where `resume` holds.
    Download { source: Source, dest: Place, pct_start: i32, pct_end: i32, resume: bool },
    /// Unpack the archive with `tar`.
    Extract { archive: Place, into: Place },
    /// List the data folder and the QEMU folder.
    ListExtracted,
    Copy { from: Place, to: Place },
    RemoveDir(Place),
    /// Make the raw Android disk, with `qemu-img` where it is there, else with `fsutil`.
    CreateDisk { with_qemu_img: bool },
    /// Fetch the release description.
    FetchRelease,
    /// Ask whether the release address answers.
    CheckUrl(UrlChoice),
    /// Make the start menu shortcut.
    StartMenuShortcut,
    /// Make the desktop shortcut.
    DesktopShortcut,
    /// Nothing more to do.
    Stop,
}

/// Where the procedure stands: each stage waits for the result of one action.
#[derive(PartialEq, Eq, Structural, Clone, Copy, Debug)]
pub enum InstallStage {
    MakeDir(u8),
    CheckQemu,
    QemuCache,
    QemuDownload,
    QemuParent,
    QemuExtract,
    QemuListing,
    QemuRecheck,
    CheckAdb,
    AdbCache,
    AdbDownload,
    AdbTemp,
    AdbExtract,
    AdbProbe(u8),
    AdbCopy(u8),
    AdbCleanup,
    CheckImage,
    ImageCache,
    ImageDownload,
    ImageTool,
    ImageCreate(bool),
    Release,
    CheckLatest,
    CheckPrevious,
    ExeCache,
    ExeDownload,
    ExeInstall,
    StartMenu,
    Desktop,
    Finished,
    Failed,
}

/// The folder created at the `k`th step of the start.
pub open spec fn first_dir(k: u8) -> Place {
    if k == 0 {
        Place::InstallDir
    } else if k == 1 {
        Place::ImagesDir
    } else {
        Place::InstancesDir
    }
}

/// The action that `stage` waits for.
pub open spec fn pending_action(stage: InstallStage) -> InstallAction {
    match stage {
        InstallStage::MakeDir(k) => InstallAction::CreateDir(first_dir(k)),
        InstallStage::CheckQemu => InstallAction::CheckExists(Place::QemuExe),
        InstallStage::QemuCache => InstallAction::CreateDir(Place::DownloadsDir),
        InstallStage::QemuDownload => InstallAction::Download {
            source: Source::Qemu,
            dest: Place::QemuZip,
            pct_start: 3,
            pct_end: 20,
            resume: true,
        },
        InstallStage::QemuParent => InstallAction::CreateDir(Place::DataDir),
        InstallStage::QemuExtract => InstallAction::Extract {
            archive: Place::QemuZip,
            into: Place::DataDir,
        },
        InstallStage::QemuListing => InstallAction::ListExtracted,
        InstallStage::QemuRecheck => InstallAction::CheckExists(Place::QemuExe),
        InstallStage::CheckAdb => InstallAction::CheckExists(Place::AdbExe),
        InstallStage::AdbCache => InstallAction::CreateDir(Place::DownloadsDir),
        InstallStage::AdbDownload => InstallAction::Download {
            source: Source::Adb,
            dest: Place::AdbZip,
            pct_start: 27,
            pct_end: 44,
            resume: true,
        },
        InstallStage::AdbTemp => InstallAction::CreateDir(Place::ToolsTemp),
        InstallStage::AdbExtract => InstallAction::Extract {
            archive: Place::AdbZip,
            into: Place::ToolsTemp,
        },
        InstallStage::AdbProbe(k) => InstallAction::CheckExists(Place::ToolSource(k)),
        InstallStage::AdbCopy(k) => InstallAction::Copy {
            from: Place::ToolSource(k),
            to: Place::ToolTarget(k),
        },
        InstallStage::AdbCleanup => InstallAction::RemoveDir(Place::ToolsTemp),
        InstallStage::CheckImage => InstallAction::CheckExists(Place::BaseImg),
        InstallStage::ImageCache => InstallAction::CreateDir(Place::DownloadsDir),
        InstallStage::ImageDownload => InstallAction::Download {
            source: Source::Android,
            dest: Place::AndroidIso,
            pct_start: 49,
            pct_end: 86,
            resume: true,
        },
        InstallStage::ImageTool => InstallAction::CheckExists(Place::QemuImgExe),
        InstallStage::ImageCreate(b) => InstallAction::CreateDisk { with_qemu_img: b },
        InstallStage::Release => InstallAction::FetchRelease,
        InstallStage::CheckLatest => InstallAction::CheckUrl(UrlChoice::Latest),
        InstallStage::CheckPrevious => InstallAction::CheckUrl(UrlChoice::Previous),
        InstallStage::ExeCache => InstallAction::CreateDir(Place::DownloadsDir),
        InstallStage::ExeDownload => InstallAction::Download {
            source: Source::Emulator,
            dest: Place::ExeDownload,
            pct_start: 90,
            pct_end: 96,
            resume: false,
        },
        InstallStage::ExeInstall => InstallAction::Copy { from: Place::ExeDownload, to: Place::ExeDest },
        InstallStage::StartMenu => InstallAction::StartMenuShortcut,
        InstallStage::Desktop => InstallAction::DesktopShortcut,
        InstallStage::Finished => InstallAction::Stop,
        InstallStage::Failed => InstallAction::Stop,
    }
}

/// The stage and the release addresses of a procedure.
pub struct FlowView {
    pub stage: InstallStage,
    pub version: Seq<char>,
    pub latest: Seq<char>,
    pub previous: Seq<char>,
    pub chosen: Seq<char>,
}

pub open spec fn at(v: FlowView, stage: InstallStage) -> FlowView {
    FlowView {
        stage,
        version: v.version,
        latest: v.latest,
        previous: v.previous,
        chosen: v.chosen,
    }
}

pub type LogLine = (Seq<char>, i32);

/// The stage after the `k`th ADB file is handled.
pub open spec fn after_tool(k: u8) -> InstallStage {
    if k < 2 {
        InstallStage::AdbProbe((k + 1) as u8)
    } else {
        InstallStage::AdbCleanup
    }
}

pub open spec fn tar_line(o: TarOutput) -> Seq<char> {
    "tar exit:"@ + spec_signed_decimal(
        match o.code {
            Some(c) => c as int,
            None => -1,
        },
    ) + " stdout:"@ + spec_trim(o.stdout@) + " stderr:"@ + spec_trim(o.stderr@)
}

pub open spec fn names_or(names: Option<Vec<String>>, fallback: Seq<char>) -> Seq<char> {
    match names {
        Some(v) => joined(texts(v@), ", "@),
        None => fallback,
    }
}

pub open spec fn listing_line(data: Option<Vec<String>>, qemu: Option<Vec<String>>) -> Seq<char> {
    "parent:["@ + names_or(data, "unreadable"@) + "] qemu:["@ + names_or(qemu, "missing"@) + "]"@
}

pub open spec fn ready_image_lines() -> Seq<LogLine> {
    seq![("Android ready \u{2713}"@, 88i32), ("Fetching latest version..."@, 89i32)]
}

pub open spec fn not_ready_line(version: Seq<char>) -> LogLine {
    ("v"@ + version + " not ready yet, trying previous version..."@, 90i32)
}

/// The installation after it has read `version` and `url` from the release
/// description: an absent field counts as empty, and without an address it fails.
pub open spec fn release_step(v: FlowView, version: Option<Seq<char>>, url: Option<Seq<char>>) -> (
    FlowView,
    Seq<LogLine>,
) {
    let version = match version {
        Some(s) => s,
        None => Seq::empty(),
    };
    let url = match url {
        Some(s) => s,
        None => Seq::empty(),
    };
    let w = FlowView { stage: v.stage, version, latest: url, previous: v.previous, chosen: v.chosen };
    if url.len() == 0 {
        (at(w, InstallStage::Failed), seq![("No URL in release.json!"@, -1i32)])
    } else {
        (at(w, InstallStage::CheckLatest), Seq::empty())
    }
}

/// Reading the release fields: only the stage that waits for them moves on.
pub open spec fn accept_release_step(v: FlowView, version: Option<Seq<char>>, url: Option<
    Seq<char>,
>) -> (FlowView, Seq<LogLine>) {
    if v.stage == InstallStage::Release {
        release_step(v, version, url)
    } else {
        (v, Seq::empty())
    }
}

/// One step of the installation: the procedure after the event `ev`, and
/// the lines it logs. An event that the stage does not wait for changes
/// nothing, so that the pending action is asked for again.
pub open spec fn install_step(v: FlowView, ev: InstallEvent) -> (FlowView, Seq<LogLine>) {
    let none = Seq::<LogLine>::empty();
    let same = (v, none);
    match v.stage {
        InstallStage::MakeDir(k) => match ev {
            InstallEvent::Completed(Ok(())) => if k < 2 {
                (at(v, InstallStage::MakeDir((k + 1) as u8)), none)
            } else {
                (at(v, InstallStage::CheckQemu), seq![("Starting installation..."@, 1i32)])
            },
            InstallEvent::Completed(Err(f)) => (
                at(v, InstallStage::Failed),
                seq![("Failed to create dir "@ + f.subject@ + ": "@ + f.error@, -1i32)],
            ),
            _ => same,
        },
        InstallStage::CheckQemu => match ev {
            InstallEvent::Found(true) => (
                at(v, InstallStage::CheckAdb),
                seq![("QEMU ready \u{2713}"@, 25i32)],
            ),
            InstallEvent::Found(false) => (at(v, InstallStage::QemuCache), none),
            _ => same,
        },
        InstallStage::QemuCache => match ev {
            InstallEvent::Completed(_) => (at(v, InstallStage::QemuDownload), none),
            _ => same,
        },
        InstallStage::QemuDownload => match ev {
            InstallEvent::Completed(Ok(())) => (
                at(v, InstallStage::QemuParent),
                seq![("Extracting QEMU..."@, 21i32)],
            ),
            InstallEvent::Completed(Err(f)) => (
                at(v, InstallStage::Failed),
                seq![("QEMU download failed: "@ + f.error@, -1i32)],
            ),
            _ => same,
        },
        InstallStage::QemuParent => match ev {
            InstallEvent::Completed(_) => (at(v, InstallStage::QemuExtract), none),
            _ => same,
        },
        InstallStage::QemuExtract => match ev {
            InstallEvent::Extracted(Ok(o)) => (
                at(v, InstallStage::QemuListing),
                seq![(tar_line(o), 22i32)],
            ),
            InstallEvent::Extracted(Err(f)) => (
                at(v, InstallStage::Failed),
                seq![("tar failed to run: "@ + f.error@, -1i32)],
            ),
            _ => same,
        },
        InstallStage::QemuListing => match ev {
            InstallEvent::Listed { data, qemu } => (
                at(v, InstallStage::QemuRecheck),
                seq![(listing_line(data, qemu), 23i32)],
            ),
            _ => same,
        },
        InstallStage::QemuRecheck => match ev {
            InstallEvent::Found(true) => (
                at(v, InstallStage::CheckAdb),
                seq![("QEMU ready \u{2713}"@, 25i32)],
            ),
            InstallEvent::Found(false) => (
                at(v, InstallStage::Failed),
                seq![("QEMU extraction failed - qemu-system-i386.exe not found"@, -1i32)],
            ),
            _ => same,
        },
        InstallStage::CheckAdb => match ev {
            InstallEvent::Found(true) => (
                at(v, InstallStage::CheckImage),
                seq![("ADB ready \u{2713}"@, 47i32)],
            ),
            InstallEvent::Found(false) => (at(v, InstallStage::AdbCache), none),
            _ => same,
        },
        InstallStage::AdbCache => match ev {
            InstallEvent::Completed(_) => (at(v, InstallStage::AdbDownload), none),
            _ => same,
        },
        InstallStage::AdbDownload => match ev {
            InstallEvent::Completed(Ok(())) => (
                at(v, InstallStage::AdbTemp),
                seq![("Extracting ADB..."@, 45i32)],
            ),
            InstallEvent::Completed(Err(f)) => (
                at(v, InstallStage::Failed),
                seq![("ADB download failed: "@ + f.error@, -1i32)],
            ),
            _ => same,
        },
        InstallStage::AdbTemp => match ev {
            InstallEvent::Completed(_) => (at(v, InstallStage::AdbExtract), none),
            _ => same,
        },
        InstallStage::AdbExtract => match ev {
            InstallEvent::Extracted(_) => (at(v, InstallStage::AdbProbe(0)), none),
            _ => same,
        },
        InstallStage::AdbProbe(k) => match ev {
            InstallEvent::Found(true) => (at(v, InstallStage::AdbCopy(k)), none),
            InstallEvent::Found(false) => (at(v, after_tool(k)), none),
            _ => same,
        },
        InstallStage::AdbCopy(k) => match ev {
            InstallEvent::Completed(_) => (at(v, after_tool(k)), none),
            _ => same,
        },
        InstallStage::AdbCleanup => match ev {
            InstallEvent::Completed(_) => (
                at(v, InstallStage::CheckImage),
                seq![("ADB ready \u{2713}"@, 47i32)],
            ),
            _ => same,
        },
        InstallStage::CheckImage => match ev {
            InstallEvent::Found(true) => (at(v, InstallStage::Release), ready_image_lines()),
            InstallEvent::Found(false) => (at(v, InstallStage::ImageCache), none),
            _ => same,
        },
        InstallStage::ImageCache => match ev {
            InstallEvent::Completed(_) => (at(v, InstallStage::ImageDownload), none),
            _ => same,
        },
        InstallStage::ImageDownload => match ev {
            InstallEvent::Completed(Ok(())) => (
                at(v, InstallStage::ImageTool),
                seq![("Creating disk image..."@, 87i32)],
            ),
            InstallEvent::Completed(Err(f)) => (
                at(v, InstallStage::Failed),
                seq![("Android download failed: "@ + f.error@, -1i32)],
            ),
            _ => same,
        },
        InstallStage::ImageTool => match ev {
            InstallEvent::Found(b) => (at(v, InstallStage::ImageCreate(b)), none),
            _ => same,
        },
        InstallStage::ImageCreate(_) => match ev {
            InstallEvent::Completed(_) => (at(v, InstallStage::Release), ready_image_lines()),
            _ => same,
        },
        InstallStage::Release => match ev {
            InstallEvent::Fetched(Err(f)) => (
                at(v, InstallStage::Failed),
                seq![("release.json failed: "@ + f.error@, -1i32)],
            ),
            InstallEvent::Fetched(Ok(body)) => release_step(
                v,
                json_str_field(body@, "version"@),
                json_str_field(body@, "url"@),
            ),
            _ => same,
        },
        InstallStage::CheckLatest => match ev {
            InstallEvent::Found(true) => (
                FlowView {
                    stage: InstallStage::ExeCache,
                    version: v.version,
                    latest: v.latest,
                    previous: v.previous,
                    chosen: v.latest,
                },
                seq![("Downloading VoidEmulator v"@ + v.version + "..."@, 90i32)],
            ),
            InstallEvent::Found(false) => match spec_prev_version_url(v.latest, v.version) {
                Some(p) => (
                    FlowView {
                        stage: InstallStage::CheckPrevious,
                        version: v.version,
                        latest: v.latest,
                        previous: p,
                        chosen: v.chosen,
                    },
                    seq![not_ready_line(v.version)],
                ),
                None => (
                    at(v, InstallStage::Failed),
                    seq![not_ready_line(v.version), ("Could not determine fallback URL!"@, -1i32)],
                ),
            },
            _ => same,
        },
        InstallStage::CheckPrevious => match ev {
            InstallEvent::Found(true) => (
                FlowView {
                    stage: InstallStage::ExeCache,
                    version: v.version,
                    latest: v.latest,
                    previous: v.previous,
                    chosen: v.previous,
                },
                seq![("Using previous version instead"@, 90i32)],
            ),
            InstallEvent::Found(false) => (
                at(v, InstallStage::Failed),
                seq![("Could not find a working VoidEmulator download!"@, -1i32)],
            ),
            _ => same,
        },
        InstallStage::ExeCache => match ev {
            InstallEvent::Completed(_) => (at(v, InstallStage::ExeDownload), none),
            _ => same,
        },
        InstallStage::ExeDownload => match ev {
            InstallEvent::Completed(Ok(())) => (at(v, InstallStage::ExeInstall), none),
            InstallEvent::Completed(Err(f)) => (
                at(v, InstallStage::Failed),
                seq![("VoidEmulator download failed: "@ + f.error@, -1i32)],
            ),
            _ => same,
        },
        InstallStage::ExeInstall => match ev {
            InstallEvent::Completed(Ok(())) => (
                at(v, InstallStage::StartMenu),
                seq![("VoidEmulator installed \u{2713}"@, 97i32), ("Creating shortcuts..."@, 98i32)],
            ),
            InstallEvent::Completed(Err(f)) => (
                at(v, InstallStage::Failed),
                seq![("Copy failed: "@ + f.error@, -1i32)],
            ),
            _ => same,
        },
        InstallStage::StartMenu => match ev {
            InstallEvent::Completed(_) => (at(v, InstallStage::Desktop), none),
            _ => same,
        },
        InstallStage::Desktop => match ev {
            InstallEvent::Completed(_) => (
                at(v, InstallStage::Finished),
                seq![("Installation complete!"@, 100i32)],
            ),
            _ => same,
        },
        InstallStage::Finished => same,
        InstallStage::Failed => same,
    }
}


fn first_dir_exec(k: u8) -> (res: Place)
    ensures
        res == first_dir(k),
{
    if k == 0 {
        Place::InstallDir
    } else if k == 1 {
        Place::ImagesDir
    } else {
        Place::InstancesDir
    }
}

fn next_tool(k: u8) -> (res: InstallStage)
    ensures
        res == after_tool(k),
{
    if k < 2 {
        InstallStage::AdbProbe(k + 1)
    } else {
        InstallStage::AdbCleanup
    }
}

fn names_text(names: Option<Vec<String>>, fallback: &str) -> (res: String)
    ensures
        res@ == names_or(names, fallback@),
{
    match names {
        Some(v) => join_texts(&v, ", "),
        None => String::from_str(fallback),
    }
}

fn tar_text(o: TarOutput) -> (res: String)
    ensures
        res@ == tar_line(o),
{
    let code = match o.code {
        Some(c) => c,
        None => -1,
    };
    let a = concat("tar exit:", signed_decimal(code).as_str());
    let b = concat(a.as_str(), " stdout:");
    let c = concat(b.as_str(), trim(o.stdout.as_str()).as_str());
    let d = concat(c.as_str(), " stderr:");
    concat(d.as_str(), trim(o.stderr.as_str()).as_str())
}

fn listing_text(data: Option<Vec<String>>, qemu: Option<Vec<String>>) -> (res: String)
    ensures
        res@ == listing_line(data, qemu),
{
    let a = concat("parent:[", names_text(data, "unreadable").as_str());
    let b = concat(a.as_str(), "] qemu:[");
    let c = concat(b.as_str(), names_text(qemu, "missing").as_str());
    concat(c.as_str(), "]")
}

fn not_ready_text(version: &str) -> (res: String)
    ensures
        res@ == not_ready_line(version@).0,
{
    let a = concat("v", version);
    concat(a.as_str(), " not ready yet, trying previous version...")
}

/// How far the installer's log may have come at `stage`: the percentage of
/// the last line it has logged on the way there, or of the end of the
/// download just finished.
pub open spec fn stage_progress(stage: InstallStage) -> int {
    match stage {
        InstallStage::MakeDir(_) => 0,
        InstallStage::CheckQemu | InstallStage::QemuCache | InstallStage::QemuDownload => 1,
        InstallStage::QemuParent | InstallStage::QemuExtract => 21,
        InstallStage::QemuListing => 22,
        InstallStage::QemuRecheck => 23,
        InstallStage::CheckAdb | InstallStage::AdbCache | InstallStage::AdbDownload => 25,
        InstallStage::AdbTemp | InstallStage::AdbExtract | InstallStage::AdbProbe(_)
        | InstallStage::AdbCopy(_) | InstallStage::AdbCleanup => 45,
        InstallStage::CheckImage | InstallStage::ImageCache | InstallStage::ImageDownload => 47,
        InstallStage::ImageTool | InstallStage::ImageCreate(_) => 87,
        InstallStage::Release | InstallStage::CheckLatest => 89,
        InstallStage::CheckPrevious | InstallStage::ExeCache | InstallStage::ExeDownload => 90,
        InstallStage::ExeInstall => 96,
        InstallStage::StartMenu | InstallStage::Desktop => 98,
        InstallStage::Finished => 100,
        InstallStage::Failed => -1,
    }
}

pub open spec fn is_terminal(stage: InstallStage) -> bool {
    stage == InstallStage::Finished || stage == InstallStage::Failed
}

/// Once finished or failed, the installation stays so and logs nothing more.
pub proof fn lemma_terminal_stays(v: FlowView, ev: InstallEvent)
    requires
        is_terminal(v.stage),
    ensures
        install_step(v, ev).0 == v,
        install_step(v, ev).1.len() == 0,
        pending_action(v.stage) == InstallAction::Stop,
{
}

/// A step that fails logs a last line at -1; a step that finishes logs
/// exactly "Installation complete!" at 100.
#[verifier::rlimit(50)]
pub proof fn lemma_failure_and_completion_lines(v: FlowView, ev: InstallEvent)
    requires
        !is_terminal(v.stage),
    ensures
        install_step(v, ev).0.stage == InstallStage::Failed ==> install_step(v, ev).1.len() > 0
            && install_step(v, ev).1.last().1 == -1,
        install_step(v, ev).0.stage == InstallStage::Finished ==> install_step(v, ev).1
            == seq![("Installation complete!"@, 100i32)],
{
}

/// The installer's own progress never goes backwards: in a step that does
/// not fail, each line logged is at least as far as the stage before it and
/// at most as far as the stage after it, the lines rise in order, and the
/// stage does not fall back.
#[verifier::rlimit(80)]
pub proof fn lemma_progress_rises(v: FlowView, ev: InstallEvent)
    requires
        install_step(v, ev).0.stage != InstallStage::Failed,
    ensures
        stage_progress(v.stage) <= stage_progress(install_step(v, ev).0.stage),
        forall|i: int|
            0 <= i < install_step(v, ev).1.len() ==> stage_progress(v.stage)
                <= #[trigger] install_step(v, ev).1[i].1 <= stage_progress(
                install_step(v, ev).0.stage,
            ),
        forall|i: int, j: int|
            0 <= i < j < install_step(v, ev).1.len() ==> #[trigger] install_step(v, ev).1[i].1
                <= #[trigger] install_step(v, ev).1[j].1,
{
}

/// A download is answered by its completion or its failure. (Another event
/// leaves the stage as it is, and the download would be run again from its
/// start, logging lower percentages than before.)
pub open spec fn download_answered(action: InstallAction, ev: InstallEvent) -> bool {
    action is Download ==> ev is Completed
}

/// The percentages of the lines other than failures (-1) never go down.
pub open spec fn rising(lines: Seq<LogLine>) -> bool {
    forall|i: int, j: int|
        0 <= i < j < lines.len() && lines[i].1 != -1 && lines[j].1 != -1 ==> #[trigger] lines[i].1
            <= #[trigger] lines[j].1
}

/// Every line is a failure (-1) or lies between 1 and 100 percent.
pub open spec fn in_range(lines: Seq<LogLine>) -> bool {
    forall|i: int| 0 <= i < lines.len() ==> #[trigger] lines[i].1 == -1 || (1 <= lines[i].1 <= 100)
}

/// The lines that performing `action` logs itself: a download logs rising
/// percentages within its range (`download::lemma_download_pcts_fit` shows
/// its reports do so while no body is longer than the announced size);
/// nothing else logs.
pub open spec fn download_lines_fit(action: InstallAction, lines: Seq<LogLine>) -> bool {
    match action {
        InstallAction::Download { pct_start, pct_end, .. } => rising(lines) && forall|i: int|
            0 <= i < lines.len() ==> pct_start <= #[trigger] lines[i].1 <= pct_end,
        _ => lines.len() == 0,
    }
}

/// One step, checked against the stage's progress: the lines it logs (but
/// failures) are at least the stage's progress and at least the end of the
/// download just finished, at most the next stage's progress, and rising;
/// a download's range starts no lower than the stage's progress.
#[verifier::rlimit(100)]
pub proof fn lemma_step_bounds(v: FlowView, ev: InstallEvent)
    requires
        !is_terminal(v.stage),
        download_answered(pending_action(v.stage), ev),
    ensures
        ({
            let (w, lines) = install_step(v, ev);
            &&& rising(lines)
            &&& in_range(lines)
            &&& w.stage != InstallStage::Failed ==> stage_progress(v.stage) <= stage_progress(
                w.stage,
            )
            &&& forall|i: int|
                0 <= i < lines.len() && #[trigger] lines[i].1 != -1 ==> stage_progress(v.stage)
                    <= lines[i].1 && (w.stage != InstallStage::Failed ==> lines[i].1
                    <= stage_progress(w.stage))
            &&& pending_action(v.stage) matches InstallAction::Download { pct_start, pct_end, .. }
                ==> {
                &&& stage_progress(v.stage) <= pct_start
                &&& w.stage != InstallStage::Failed ==> pct_end <= stage_progress(w.stage)
                &&& forall|i: int|
                    0 <= i < lines.len() && #[trigger] lines[i].1 != -1 ==> pct_end <= lines[i].1
            }
        }),
{
}

/// The log of a whole run from `v`: for each event, the lines that
/// performing the pending action logged (`downloads`), then the lines of
/// the step it leads to.
pub open spec fn run_install(
    v: FlowView,
    events: Seq<InstallEvent>,
    downloads: Seq<Seq<LogLine>>,
) -> (FlowView, Seq<LogLine>)
    decreases events.len(),
{
    if events.len() == 0 {
        (v, Seq::empty())
    } else {
        let (w, lines) = install_step(v, events[0]);
        let (end, rest) = run_install(w, events.drop_first(), downloads.drop_first());
        (end, downloads[0] + lines + rest)
    }
}

/// Each download is answered by its completion or failure, and each action
/// logged only what `download_lines_fit` allows.
pub open spec fn run_fits(v: FlowView, events: Seq<InstallEvent>, downloads: Seq<Seq<LogLine>>) -> bool
    decreases events.len(),
{
    &&& downloads.len() == events.len()
    &&& events.len() > 0 ==> {
        &&& download_answered(pending_action(v.stage), events[0])
        &&& download_lines_fit(pending_action(v.stage), downloads[0])
        &&& run_fits(install_step(v, events[0]).0, events.drop_first(), downloads.drop_first())
    }
}

proof fn lemma_rising_join(a: Seq<LogLine>, b: Seq<LogLine>)
    requires
        rising(a),
        rising(b),
        forall|i: int, j: int|
            0 <= i < a.len() && 0 <= j < b.len() && #[trigger] a[i].1 != -1 && #[trigger] b[j].1
                != -1 ==> a[i].1 <= b[j].1,
    ensures
        rising(a + b),
{
    let c = a + b;
    assert forall|i: int, j: int|
        0 <= i < j < c.len() && c[i].1 != -1 && c[j].1 != -1 implies #[trigger] c[i].1
        <= #[trigger] c[j].1 by {
        if j < a.len() {
            assert(c[i] == a[i] && c[j] == a[j]);
        } else if i >= a.len() {
            assert(c[i] == b[i - a.len()] && c[j] == b[j - a.len()]);
        } else {
            assert(c[i] == a[i] && c[j] == b[j - a.len()]);
        }
    }
}

proof fn lemma_terminal_run(v: FlowView, events: Seq<InstallEvent>, downloads: Seq<Seq<LogLine>>)
    requires
        is_terminal(v.stage),
        run_fits(v, events, downloads),
    ensures
        run_install(v, events, downloads) == (v, Seq::<LogLine>::empty()),
    decreases events.len(),
{
    if events.len() > 0 {
        lemma_terminal_run(v, events.drop_first(), downloads.drop_first());
        assert(downloads[0] =~= Seq::<LogLine>::empty());
        assert(Seq::<LogLine>::empty() + Seq::<LogLine>::empty() + Seq::<LogLine>::empty()
            =~= Seq::<LogLine>::empty());
    }
}

/// The log of a run from `v` rises, stays in range, starts no lower than
/// `floor` where that is no higher than the stage's progress, ends at 100
/// where the run finishes, and, from the folder-making stages, opens with
/// 1 or with a failure.
#[verifier::rlimit(100)]
pub proof fn lemma_run_rises(
    v: FlowView,
    events: Seq<InstallEvent>,
    downloads: Seq<Seq<LogLine>>,
    floor: int,
)
    requires
        run_fits(v, events, downloads),
        v.stage != InstallStage::Failed ==> floor <= stage_progress(v.stage),
    ensures
        ({
            let (end, log) = run_install(v, events, downloads);
            &&& rising(log)
            &&& in_range(log)
            &&& forall|i: int| 0 <= i < log.len() && #[trigger] log[i].1 != -1 ==> floor <= log[i].1
            &&& (end.stage == InstallStage::Finished && v.stage != InstallStage::Finished) ==> log.len()
                > 0 && log.last().1 == 100
            &&& (v.stage is MakeDir && log.len() > 0) ==> (log[0].1 == 1 || log[0].1 == -1)
        }),
    decreases events.len(),
{
    if events.len() == 0 {
        return;
    }
    if is_terminal(v.stage) {
        lemma_terminal_run(v, events, downloads);
        return;
    }
    let ev = events[0];
    let dl = downloads[0];
    let (w, lines) = install_step(v, ev);
    lemma_step_bounds(v, ev);
    lemma_failure_and_completion_lines(v, ev);
    let next_floor = if w.stage == InstallStage::Failed {
        floor
    } else {
        stage_progress(w.stage)
    };
    lemma_run_rises(w, events.drop_first(), downloads.drop_first(), next_floor);
    let (end, rest) = run_install(w, events.drop_first(), downloads.drop_first());
    if is_terminal(w.stage) {
        lemma_terminal_run(w, events.drop_first(), downloads.drop_first());
    }
    let action = pending_action(v.stage);
    assert forall|i: int| 0 <= i < dl.len() && #[trigger] dl[i].1 != -1 implies floor <= dl[i].1
        && (w.stage != InstallStage::Failed ==> dl[i].1 <= stage_progress(w.stage)) && (1 <= dl[i].1
        <= 100) by {
        assert(action is Download);
    }
    assert forall|i: int, j: int|
        0 <= i < dl.len() && 0 <= j < lines.len() && #[trigger] dl[i].1 != -1 && #[trigger] lines[j].1
            != -1 implies dl[i].1 <= lines[j].1 by {
        assert(action is Download);
    }
    lemma_rising_join(dl, lines);
    let first = dl + lines;
    assert forall|i: int, j: int|
        0 <= i < first.len() && 0 <= j < rest.len() && #[trigger] first[i].1 != -1
            && #[trigger] rest[j].1 != -1 implies first[i].1 <= rest[j].1 by {
        if i < dl.len() {
            assert(first[i] == dl[i]);
        } else {
            assert(first[i] == lines[i - dl.len()]);
        }
    }
    if dl.len() > 0 {
        assert(rising(dl));
    } else {
        assert(dl =~= Seq::<LogLine>::empty());
        assert(first =~= lines);
    }
    lemma_rising_join(first, rest);
    let log = first + rest;
    assert(run_install(v, events, downloads).1 == log);
    assert forall|i: int| 0 <= i < log.len() implies #[trigger] log[i].1 == -1 || (1 <= log[i].1
        <= 100) by {
        if i < dl.len() {
            assert(log[i] == dl[i]);
        } else if i < first.len() {
            assert(log[i] == lines[i - dl.len()]);
        } else {
            assert(log[i] == rest[i - first.len()]);
        }
    }
    assert forall|i: int| 0 <= i < log.len() && #[trigger] log[i].1 != -1 implies floor
        <= log[i].1 by {
        if i < dl.len() {
            assert(log[i] == dl[i]);
        } else if i < first.len() {
            assert(log[i] == lines[i - dl.len()]);
        } else {
            assert(log[i] == rest[i - first.len()]);
        }
    }
    if end.stage == InstallStage::Finished {
        if w.stage == InstallStage::Finished {
            assert(rest =~= Seq::<LogLine>::empty());
            assert(log =~= dl + lines);
        } else {
            assert(log.last() == rest.last());
        }
    }
    if v.stage is MakeDir && log.len() > 0 {
        assert(dl.len() == 0);
        if lines.len() > 0 {
            assert(log[0] == lines[0]);
        } else {
            assert(w.stage is MakeDir);
            assert(log =~= rest);
        }
    }
}

/// Over a whole installation, however it goes: the percentages it logs
/// (but failures) never go down and lie between 1 and 100, the first line is
/// at 1 or a failure, and an installation that finishes ends at 100. This
/// holds for any events, where each download is answered by its completion
/// or failure and logs rising percentages within its range, as it does when
/// no body is longer than the size its server announced.
pub proof fn lemma_install_run(events: Seq<InstallEvent>, downloads: Seq<Seq<LogLine>>)
    requires
        run_fits(
            FlowView {
                stage: InstallStage::MakeDir(0),
                version: Seq::empty(),
                latest: Seq::empty(),
                previous: Seq::empty(),
                chosen: Seq::empty(),
            },
            events,
            downloads,
        ),
    ensures
        ({
            let v = FlowView {
                stage: InstallStage::MakeDir(0),
                version: Seq::empty(),
                latest: Seq::empty(),
                previous: Seq::empty(),
                chosen: Seq::empty(),
            };
            let (end, log) = run_install(v, events, downloads);
            &&& rising(log)
            &&& in_range(log)
            &&& log.len() > 0 ==> (log[0].1 == 1 || log[0].1 == -1)
            &&& end.stage == InstallStage::Finished ==> log.len() > 0 && log.last().1 == 100
        }),
{
    let v = FlowView {
        stage: InstallStage::MakeDir(0),
        version: Seq::empty(),
        latest: Seq::empty(),
        previous: Seq::empty(),
        chosen: Seq::empty(),
    };
    lemma_run_rises(v, events, downloads, 0);
}

/// QEMU is reported ready only where it was found: the installation moves
/// on to ADB only from a check of `qemu-system-i386.exe` that found it, and
/// where the check after unpacking does not find it, the installation fails
/// with one line at -1.
pub proof fn lemma_qemu_ready_only_when_found(v: FlowView, ev: InstallEvent)
    ensures
        ({
            let (w, lines) = install_step(v, ev);
            &&& (w.stage == InstallStage::CheckAdb && v.stage != InstallStage::CheckAdb) ==> {
                &&& pending_action(v.stage) == InstallAction::CheckExists(Place::QemuExe)
                &&& ev matches InstallEvent::Found(true)
                &&& lines == seq![("QEMU ready \u{2713}"@, 25i32)]
            }
            &&& (v.stage == InstallStage::QemuRecheck && ev matches InstallEvent::Found(false)) ==> {
                &&& w.stage == InstallStage::Failed
                &&& lines.len() == 1
                &&& lines[0].1 == -1
            }
        }),
{
}

/// The Android disk is made before the release is fetched: after the
/// check for `qemu-img.exe`, the next action makes the disk with
/// `qemu-img` exactly where it was found, and the installation reaches the
/// release stage only from a disk-making step or from finding the disk
/// already there.
pub proof fn lemma_disk_made_before_release(v: FlowView, ev: InstallEvent, b: bool)
    ensures
        ({
            let (w, lines) = install_step(v, ev);
            &&& (v.stage == InstallStage::ImageTool && ev == InstallEvent::Found(b)) ==> {
                &&& lines.len() == 0
                &&& pending_action(w.stage) == (InstallAction::CreateDisk { with_qemu_img: b })
            }
            &&& (w.stage == InstallStage::Release && v.stage != InstallStage::Release) ==> {
                ||| pending_action(v.stage) is CreateDisk
                ||| (pending_action(v.stage) == InstallAction::CheckExists(Place::BaseImg)
                    && ev matches InstallEvent::Found(true))
            }
            &&& (pending_action(w.stage) is CreateDisk && !(pending_action(v.stage) is CreateDisk))
                ==> pending_action(v.stage) == InstallAction::CheckExists(Place::QemuImgExe)
        }),
{
}

/// Every ADB file is probed, and copied when present, before the scratch
/// folder is removed: a probe of file `k` that finds it copies it; after
/// file `k` (found and copied, or not found) comes the probe of file
/// `k + 1`, and only after the last file the removal.
pub proof fn lemma_each_tool_probed(v: FlowView, ev: InstallEvent, k: u8)
    ensures
        ({
            let w = install_step(v, ev).0;
            &&& v.stage == InstallStage::AdbProbe(k) ==> pending_action(v.stage)
                == InstallAction::CheckExists(Place::ToolSource(k))
            &&& v.stage == InstallStage::AdbCopy(k) ==> pending_action(v.stage) == (InstallAction::Copy {
                from: Place::ToolSource(k),
                to: Place::ToolTarget(k),
            })
            &&& (v.stage == InstallStage::AdbProbe(k) && ev == InstallEvent::Found(true)) ==> w.stage
                == InstallStage::AdbCopy(k)
            &&& (v.stage == InstallStage::AdbProbe(k) && ev == InstallEvent::Found(false) && k < 2)
                ==> w.stage == InstallStage::AdbProbe((k + 1) as u8)
            &&& (v.stage == InstallStage::AdbCopy(k) && ev is Completed && k < 2) ==> w.stage
                == InstallStage::AdbProbe((k + 1) as u8)
            &&& (w.stage == InstallStage::AdbCleanup && v.stage != InstallStage::AdbCleanup) ==> {
                &&& (v.stage is AdbProbe || v.stage is AdbCopy)
                &&& v.stage != InstallStage::AdbProbe(0) && v.stage != InstallStage::AdbProbe(1)
                &&& v.stage != InstallStage::AdbCopy(0) && v.stage != InstallStage::AdbCopy(1)
            }
            &&& (w.stage == InstallStage::AdbProbe(0) && v.stage != w.stage) ==> v.stage
                == InstallStage::AdbExtract
        }),
{
}

/// Each download is made only where its file is missing: QEMU's archive is
/// fetched only after `qemu-system-i386.exe` was not found, ADB's only after
/// `adb.exe` was not found, the Android image only after `android.img` was
/// not found; and each component is reported ready only where it was found
/// or has just been put in place.
#[verifier::rlimit(50)]
pub proof fn lemma_downloads_only_when_missing(v: FlowView, ev: InstallEvent)
    ensures
        ({
            let (w, lines) = install_step(v, ev);
            &&& (w.stage == InstallStage::QemuCache && v.stage != w.stage) ==> (v.stage
                == InstallStage::CheckQemu && ev == InstallEvent::Found(false))
            &&& (w.stage == InstallStage::AdbCache && v.stage != w.stage) ==> (v.stage
                == InstallStage::CheckAdb && ev == InstallEvent::Found(false))
            &&& (w.stage == InstallStage::ImageCache && v.stage != w.stage) ==> (v.stage
                == InstallStage::CheckImage && ev == InstallEvent::Found(false))
            &&& (w.stage == InstallStage::CheckImage && v.stage != w.stage) ==> {
                ||| (v.stage == InstallStage::CheckAdb && ev == InstallEvent::Found(true))
                ||| v.stage == InstallStage::AdbCleanup
            }
            &&& (w.stage == InstallStage::CheckImage && v.stage != w.stage) ==> lines == seq![
                ("ADB ready \u{2713}"@, 47i32),
            ]
        }),
{
}

/// The emulator is downloaded from an address that answered: from the
/// latest release's address where it answers, else from the address of the
/// version before it, which is tried only after the latest did not answer;
/// and the installation is complete only after both shortcuts are made.
#[verifier::rlimit(50)]
pub proof fn lemma_release_choice(v: FlowView, ev: InstallEvent)
    ensures
        ({
            let (w, lines) = install_step(v, ev);
            &&& (w.stage == InstallStage::ExeCache && v.stage != w.stage) ==> {
                &&& ev == InstallEvent::Found(true)
                &&& (v.stage == InstallStage::CheckLatest && w.chosen == v.latest) || (v.stage
                    == InstallStage::CheckPrevious && w.chosen == v.previous)
            }
            &&& (w.stage == InstallStage::CheckPrevious && v.stage != w.stage) ==> {
                &&& v.stage == InstallStage::CheckLatest
                &&& ev == InstallEvent::Found(false)
                &&& spec_prev_version_url(v.latest, v.version) == Some(w.previous)
            }
            &&& (w.stage == InstallStage::Finished && v.stage != w.stage) ==> v.stage
                == InstallStage::Desktop
            &&& (w.stage == InstallStage::Desktop && v.stage != w.stage) ==> v.stage
                == InstallStage::StartMenu
        }),
{
}

/// The installation procedure in progress.
pub struct InstallFlow {
    stage: InstallStage,
    version: String,
    latest: String,
    previous: String,
    chosen: String,
}

impl View for InstallFlow {
    type V = FlowView;

    closed spec fn view(&self) -> FlowView {
        FlowView {
            stage: self.stage,
            version: self.version@,
            latest: self.latest@,
            previous: self.previous@,
            chosen: self.chosen@,
        }
    }
}

/// Where a new installation starts: creating the install folder.
pub open spec fn initial_flow(v: FlowView) -> bool {
    &&& v.stage == InstallStage::MakeDir(0)
    &&& v.version.len() == 0
    &&& v.latest.len() == 0
    &&& v.previous.len() == 0
    &&& v.chosen.len() == 0
}

impl InstallFlow {
    /// A new installation.
    pub fn new() -> (res: InstallFlow)
        ensures
            initial_flow(res@),
    {
        InstallFlow {
            stage: InstallStage::MakeDir(0),
            version: String::new(),
            latest: String::new(),
            previous: String::new(),
            chosen: String::new(),
        }
    }

    /// The stage the installation stands at.
    pub fn stage(&self) -> (res: InstallStage)
        ensures
            res == self@.stage,
    {
        self.stage
    }

    /// The release version read from `release.json`.
    pub fn version(&self) -> (res: &str)
        ensures
            res@ == self@.version,
    {
        self.version.as_str()
    }

    /// The emulator download address that the installer settled on.
    pub fn chosen_url(&self) -> (res: &str)
        ensures
            res@ == self@.chosen,
    {
        self.chosen.as_str()
    }

    /// The release address to try for `choice`.
    pub fn url(&self, choice: UrlChoice) -> (res: &str)
        ensures
            res@ == (match choice {
                UrlChoice::Latest => self@.latest,
                UrlChoice::Previous => self@.previous,
            }),
    {
        match choice {
            UrlChoice::Latest => self.latest.as_str(),
            UrlChoice::Previous => self.previous.as_str(),
        }
    }

    /// The action that the installation waits for.
    pub fn pending(&self) -> (res: InstallAction)
        ensures
            res == pending_action(self@.stage),
    {
        match self.stage {
            InstallStage::MakeDir(k) => InstallAction::CreateDir(first_dir_exec(k)),
            InstallStage::CheckQemu => InstallAction::CheckExists(Place::QemuExe),
            InstallStage::QemuCache => InstallAction::CreateDir(Place::DownloadsDir),
            InstallStage::QemuDownload => InstallAction::Download {
                source: Source::Qemu,
                dest: Place::QemuZip,
                pct_start: 3,
                pct_end: 20,
                resume: true,
            },
            InstallStage::QemuParent => InstallAction::CreateDir(Place::DataDir),
            InstallStage::QemuExtract => InstallAction::Extract {
                archive: Place::QemuZip,
                into: Place::DataDir,
            },
            InstallStage::QemuListing => InstallAction::ListExtracted,
            InstallStage::QemuRecheck => InstallAction::CheckExists(Place::QemuExe),
            InstallStage::CheckAdb => InstallAction::CheckExists(Place::AdbExe),
            InstallStage::AdbCache => InstallAction::CreateDir(Place::DownloadsDir),
            InstallStage::AdbDownload => InstallAction::Download {
                source: Source::Adb,
                dest: Place::AdbZip,
                pct_start: 27,
                pct_end: 44,
                resume: true,
            },
            InstallStage::AdbTemp => InstallAction::CreateDir(Place::ToolsTemp),
            InstallStage::AdbExtract => InstallAction::Extract {
                archive: Place::AdbZip,
                into: Place::ToolsTemp,
            },
            InstallStage::AdbProbe(k) => InstallAction::CheckExists(Place::ToolSource(k)),
            InstallStage::AdbCopy(k) => InstallAction::Copy {
                from: Place::ToolSource(k),
                to: Place::ToolTarget(k),
            },
            InstallStage::AdbCleanup => InstallAction::RemoveDir(Place::ToolsTemp),
            InstallStage::CheckImage => InstallAction::CheckExists(Place::BaseImg),
            InstallStage::ImageCache => InstallAction::CreateDir(Place::DownloadsDir),
            InstallStage::ImageDownload => InstallAction::Download {
                source: Source::Android,
                dest: Place::AndroidIso,
                pct_start: 49,
                pct_end: 86,
                resume: true,
            },
            InstallStage::ImageTool => InstallAction::CheckExists(Place::QemuImgExe),
            InstallStage::ImageCreate(b) => InstallAction::CreateDisk { with_qemu_img: b },
            InstallStage::Release => InstallAction::FetchRelease,
            InstallStage::CheckLatest => InstallAction::CheckUrl(UrlChoice::Latest),
            InstallStage::CheckPrevious => InstallAction::CheckUrl(UrlChoice::Previous),
            InstallStage::ExeCache => InstallAction::CreateDir(Place::DownloadsDir),
            InstallStage::ExeDownload => InstallAction::Download {
                source: Source::Emulator,
                dest: Place::ExeDownload,
                pct_start: 90,
                pct_end: 96,
                resume: false,
            },
            InstallStage::ExeInstall => InstallAction::Copy {
                from: Place::ExeDownload,
                to: Place::ExeDest,
            },
            InstallStage::StartMenu => InstallAction::StartMenuShortcut,
            InstallStage::Desktop => InstallAction::DesktopShortcut,
            InstallStage::Finished => InstallAction::Stop,
            InstallStage::Failed => InstallAction::Stop,
        }
    }

    /// Takes the version and the address read from the release description:
    /// where the installation waits for them, it keeps them and moves on to
    /// trying the address, or fails without one; elsewhere nothing changes.
    pub fn accept_release(&mut self, fields: ReleaseFields, state: &mut InstallState)
        ensures
            final(self)@ == accept_release_step(old(self)@, opt_text(fields.version), opt_text(
                fields.url,
            )).0,
            final(state).lines() == old(state).lines() + accept_release_step(
                old(self)@,
                opt_text(fields.version),
                opt_text(fields.url),
            ).1,
            final(state).done == old(state).done,
    {
        let ghost start_lines = state.lines();
        let ghost v = self@;
        let ghost ver = opt_text(fields.version);
        let ghost url = opt_text(fields.url);
        match self.stage {
            InstallStage::Release => {
                self.version = match fields.version {
                    Some(s) => s,
                    None => String::new(),
                };
                self.latest = match fields.url {
                    Some(s) => s,
                    None => String::new(),
                };
                if self.latest.as_str().is_empty() {
                    self.stage = InstallStage::Failed;
                    state.push(String::from_str("No URL in release.json!"), -1);
                } else {
                    self.stage = InstallStage::CheckLatest;
                }
            },
            _ => {},
        }
        assert(state.lines() =~= start_lines + accept_release_step(v, ver, url).1);
    }

    /// The address to download `source` from: its fixed address, or for the
    /// emulator program the one the installation settled on.
    pub fn download_url(&self, source: Source) -> (res: &str)
        ensures
            res@ == (match spec_source_url(source) {
                Some(u) => u,
                None => self@.chosen,
            }),
    {
        match source_url(source) {
            Some(u) => u,
            None => self.chosen.as_str(),
        }
    }

    /// Takes the result of the pending action, logs what the installer
    /// reports into `state`, and returns the next action.
    #[verifier::rlimit(50)]
    pub fn step(&mut self, event: InstallEvent, state: &mut InstallState) -> (res: InstallAction)
        ensures
            final(self)@ == install_step(old(self)@, event).0,
            final(state).lines() == old(state).lines() + install_step(old(self)@, event).1,
            final(state).done == (old(state).done || final(self)@.stage == InstallStage::Finished),
            res == pending_action(final(self)@.stage),
    {
        let ghost start_lines = state.lines();
        match self.stage {
            InstallStage::MakeDir(k) => match event {
                InstallEvent::Completed(Ok(())) => {
                    if k < 2 {
                        self.stage = InstallStage::MakeDir(k + 1);
                    } else {
                        self.stage = InstallStage::CheckQemu;
                        state.push(String::from_str("Starting installation..."), 1);
                    }
                },
                InstallEvent::Completed(Err(f)) => {
                    self.stage = InstallStage::Failed;
                    let a = concat("Failed to create dir ", f.subject.as_str());
                    let b = concat(a.as_str(), ": ");
                    state.push(concat(b.as_str(), f.error.as_str()), -1);
                },
                _ => {},
            },
            InstallStage::CheckQemu => match event {
                InstallEvent::Found(true) => {
                    self.stage = InstallStage::CheckAdb;
                    state.push(String::from_str("QEMU ready \u{2713}"), 25);
                },
                InstallEvent::Found(false) => {
                    self.stage = InstallStage::QemuCache;
                },
                _ => {},
            },
            InstallStage::QemuCache => match event {
                InstallEvent::Completed(_) => {
                    self.stage = InstallStage::QemuDownload;
                },
                _ => {},
            },
            InstallStage::QemuDownload => match event {
                InstallEvent::Completed(Ok(())) => {
                    self.stage = InstallStage::QemuParent;
                    state.push(String::from_str("Extracting QEMU..."), 21);
                },
                InstallEvent::Completed(Err(f)) => {
                    self.stage = InstallStage::Failed;
                    state.push(concat("QEMU download failed: ", f.error.as_str()), -1);
                },
                _ => {},
            },
            InstallStage::QemuParent => match event {
                InstallEvent::Completed(_) => {
                    self.stage = InstallStage::QemuExtract;
                },
                _ => {},
            },
            InstallStage::QemuExtract => match event {
                InstallEvent::Extracted(Ok(o)) => {
                    self.stage = InstallStage::QemuListing;
                    state.push(tar_text(o), 22);
                },
                InstallEvent::Extracted(Err(f)) => {
                    self.stage = InstallStage::Failed;
                    state.push(concat("tar failed to run: ", f.error.as_str()), -1);
                },
                _ => {},
            },
            InstallStage::QemuListing => match event {
                InstallEvent::Listed { data, qemu } => {
                    self.stage = InstallStage::QemuRecheck;
                    state.push(listing_text(data, qemu), 23);
                },
                _ => {},
            },
            InstallStage::QemuRecheck => match event {
                InstallEvent::Found(true) => {
                    self.stage = InstallStage::CheckAdb;
                    state.push(String::from_str("QEMU ready \u{2713}"), 25);
                },
                InstallEvent::Found(false) => {
                    self.stage = InstallStage::Failed;
                    state.push(
                        String::from_str("QEMU extraction failed - qemu-system-i386.exe not found"),
                        -1,
                    );
                },
                _ => {},
            },
            InstallStage::CheckAdb => match event {
                InstallEvent::Found(true) => {
                    self.stage = InstallStage::CheckImage;
                    state.push(String::from_str("ADB ready \u{2713}"), 47);
                },
                InstallEvent::Found(false) => {
                    self.stage = InstallStage::AdbCache;
                },
                _ => {},
            },
            InstallStage::AdbCache => match event {
                InstallEvent::Completed(_) => {
                    self.stage = InstallStage::AdbDownload;
                },
                _ => {},
            },
            InstallStage::AdbDownload => match event {
                InstallEvent::Completed(Ok(())) => {
                    self.stage = InstallStage::AdbTemp;
                    state.push(String::from_str("Extracting ADB..."), 45);
                },
                InstallEvent::Completed(Err(f)) => {
                    self.stage = InstallStage::Failed;
                    state.push(concat("ADB download failed: ", f.error.as_str()), -1);
                },
                _ => {},
            },
            InstallStage::AdbTemp => match event {
                InstallEvent::Completed(_) => {
                    self.stage = InstallStage::AdbExtract;
                },
                _ => {},
            },
            InstallStage::AdbExtract => match event {
                InstallEvent::Extracted(_) => {
                    self.stage = InstallStage::AdbProbe(0);
                },
                _ => {},
            },
            InstallStage::AdbProbe(k) => match event {
                InstallEvent::Found(true) => {
                    self.stage = InstallStage::AdbCopy(k);
                },
                InstallEvent::Found(false) => {
                    self.stage = next_tool(k);
                },
                _ => {},
            },
            InstallStage::AdbCopy(k) => match event {
                InstallEvent::Completed(_) => {
                    self.stage = next_tool(k);
                },
                _ => {},
            },
            InstallStage::AdbCleanup => match event {
                InstallEvent::Completed(_) => {
                    self.stage = InstallStage::CheckImage;
                    state.push(String::from_str("ADB ready \u{2713}"), 47);
                },
                _ => {},
            },
            InstallStage::CheckImage => match event {
                InstallEvent::Found(true) => {
                    self.stage = InstallStage::Release;
                    state.push(String::from_str("Android ready \u{2713}"), 88);
                    state.push(String::from_str("Fetching latest version..."), 89);
                },
                InstallEvent::Found(false) => {
                    self.stage = InstallStage::ImageCache;
                },
                _ => {},
            },
            InstallStage::ImageCache => match event {
                InstallEvent::Completed(_) => {
                    self.stage = InstallStage::ImageDownload;
                },
                _ => {},
            },
            InstallStage::ImageDownload => match event {
                InstallEvent::Completed(Ok(())) => {
                    self.stage = InstallStage::ImageTool;
                    state.push(String::from_str("Creating disk image..."), 87);
                },
                InstallEvent::Completed(Err(f)) => {
                    self.stage = InstallStage::Failed;
                    state.push(concat("Android download failed: ", f.error.as_str()), -1);
                },
                _ => {},
            },
            InstallStage::ImageTool => match event {
                InstallEvent::Found(b) => {
                    self.stage = InstallStage::ImageCreate(b);
                },
                _ => {},
            },
            InstallStage::ImageCreate(_) => match event {
                InstallEvent::Completed(_) => {
                    self.stage = InstallStage::Release;
                    state.push(String::from_str("Android ready \u{2713}"), 88);
                    state.push(String::from_str("Fetching latest version..."), 89);
                },
                _ => {},
            },
            InstallStage::Release => match event {
                InstallEvent::Fetched(Err(f)) => {
                    self.stage = InstallStage::Failed;
                    state.push(concat("release.json failed: ", f.error.as_str()), -1);
                },
                InstallEvent::Fetched(Ok(body)) => {
                    let fields = release_fields(body.as_str());
                    self.accept_release(fields, state);
                },
                _ => {},
            },
            InstallStage::CheckLatest => match event {
                InstallEvent::Found(true) => {
                    self.stage = InstallStage::ExeCache;
                    self.chosen = self.latest.clone();
                    let a = concat("Downloading VoidEmulator v", self.version.as_str());
                    state.push(concat(a.as_str(), "..."), 90);
                },
                InstallEvent::Found(false) => {
                    state.push(not_ready_text(self.version.as_str()), 90);
                    match prev_version_url(self.latest.as_str(), self.version.as_str()) {
                        Some(p) => {
                            self.stage = InstallStage::CheckPrevious;
                            self.previous = p;
                        },
                        None => {
                            self.stage = InstallStage::Failed;
                            state.push(String::from_str("Could not determine fallback URL!"), -1);
                        },
                    }
                },
                _ => {},
            },
            InstallStage::CheckPrevious => match event {
                InstallEvent::Found(true) => {
                    self.stage = InstallStage::ExeCache;
                    self.chosen = self.previous.clone();
                    state.push(String::from_str("Using previous version instead"), 90);
                },
                InstallEvent::Found(false) => {
                    self.stage = InstallStage::Failed;
                    state.push(
                        String::from_str("Could not find a working VoidEmulator download!"),
                        -1,
                    );
                },
                _ => {},
            },
            InstallStage::ExeCache => match event {
                InstallEvent::Completed(_) => {
                    self.stage = InstallStage::ExeDownload;
                },
                _ => {},
            },
            InstallStage::ExeDownload => match event {
                InstallEvent::Completed(Ok(())) => {
                    self.stage = InstallStage::ExeInstall;
                },
                InstallEvent::Completed(Err(f)) => {
                    self.stage = InstallStage::Failed;
                    state.push(concat("VoidEmulator download failed: ", f.error.as_str()), -1);
                },
                _ => {},
            },
            InstallStage::ExeInstall => match event {
                InstallEvent::Completed(Ok(())) => {
                    self.stage = InstallStage::StartMenu;
                    state.push(String::from_str("VoidEmulator installed \u{2713}"), 97);
                    state.push(String::from_str("Creating shortcuts..."), 98);
                },
                InstallEvent::Completed(Err(f)) => {
                    self.stage = InstallStage::Failed;
                    state.push(concat("Copy failed: ", f.error.as_str()), -1);
                },
                _ => {},
            },
            InstallStage::StartMenu => match event {
                InstallEvent::Completed(_) => {
                    self.stage = InstallStage::Desktop;
                },
                _ => {},
            },
            InstallStage::Desktop => match event {
                InstallEvent::Completed(_) => {
                    self.stage = InstallStage::Finished;
                    state.push(String::from_str("Installation complete!"), 100);
                },
                _ => {},
            },
            InstallStage::Finished => {},
            InstallStage::Failed => {},
        }
        match self.stage {
            InstallStage::Finished => state.finish(),
            _ => {},
        }
        assert(state.lines() =~= start_lines + install_step(old(self)@, event).1);
        self.pending()
    }
}

} // verus!

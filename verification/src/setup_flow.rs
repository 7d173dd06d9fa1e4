//! The launcher's first-run setup as a state machine: each step takes what
//! the last action came to, returns the progress messages to send to the
//! window, and names the next action. `app/` performs the actions.
use vstd::prelude::*;
use vstd::string::*;
use crate::installer::lines_of;
use crate::install_flow::{in_range, rising, LogLine};
use crate::installer::{spec_tool_name, tool_name};
use crate::layout::{AppPath, PathView};
use crate::setup::{
    under_data, spec_qemu_dir_in, spec_images_dir_in, spec_instances_dir_in, spec_qemu_exe_in,
    spec_qemu_img_exe_in, spec_adb_exe_in, spec_base_img_in,
};

verus! {

/// The places the setup works with, under the app data folder.
#[derive(PartialEq, Eq, Structural, Clone, Copy, Debug)]
pub enum SetupPlace {
    QemuDir,
    ImagesDir,
    InstancesDir,
    QemuExe,
    AdbExe,
    BaseImg,
    QemuImgExe,
    QemuZip,
    AdbZip,
    AndroidIso,
    /// The folder that ADB's archive is unpacked into.
    ToolsExtract,
    /// The `k`th ADB file, as unpacked.
    ToolSource(u8),
    /// The `k`th ADB file, installed beside QEMU.
    ToolTarget(u8),
}

/// What is downloaded.
#[derive(PartialEq, Eq, Structural, Clone, Copy, Debug)]
pub enum SetupSource {
    Qemu,
    Adb,
    Android,
}

/// The next thing to do.
#[derive(PartialEq, Eq, Structural, Clone, Copy, Debug)]
pub enum SetupAction {
    CreateDir(SetupPlace),
    CheckExists(SetupPlace),
    /// Download `source` into `dest` with PowerShell.
    Download { source: SetupSource, dest: SetupPlace },
    /// Unpack the zip archive into the folder with PowerShell.
    Expand { archive: SetupPlace, into: SetupPlace },
    RemoveFile(SetupPlace),
    RemoveDir(SetupPlace),
    /// Look for `qemu-system-i386.exe` anywhere under the QEMU folder.
    LocateQemu,
    /// Copy the file that was found to its place.
    CopyFound(SetupPlace),
    Copy { from: SetupPlace, to: SetupPlace },
    /// Make the raw Android disk with `qemu-img`.
    CreateDisk,
    Stop,
}

/// Where `place` is under the app data folder `data`.
pub open spec fn spec_setup_place_path(place: SetupPlace, data: PathView) -> PathView {
    match place {
        SetupPlace::QemuDir => under_data(data, seq!["qemu"@]),
        SetupPlace::ImagesDir => under_data(data, seq!["images"@]),
        SetupPlace::InstancesDir => under_data(data, seq!["instances"@]),
        SetupPlace::QemuExe => under_data(data, seq!["qemu"@, "qemu-system-i386.exe"@]),
        SetupPlace::AdbExe => under_data(data, seq!["qemu"@, "adb.exe"@]),
        SetupPlace::BaseImg => under_data(data, seq!["images"@, "android.img"@]),
        SetupPlace::QemuImgExe => under_data(data, seq!["qemu"@, "qemu-img.exe"@]),
        SetupPlace::QemuZip => under_data(data, seq!["qemu.zip"@]),
        SetupPlace::AdbZip => under_data(data, seq!["adb.zip"@]),
        SetupPlace::AndroidIso => under_data(data, seq!["images"@, "android.iso"@]),
        SetupPlace::ToolsExtract => under_data(data, seq!["platform-tools-extract"@]),
        SetupPlace::ToolSource(k) => under_data(
            data,
            seq!["platform-tools-extract"@, "platform-tools"@, spec_tool_name(k)],
        ),
        SetupPlace::ToolTarget(k) => under_data(data, seq!["qemu"@, spec_tool_name(k)]),
    }
}

/// The path of `place` under the app data folder `data`.
pub fn setup_place_path(place: SetupPlace, data: AppPath) -> (res: AppPath)
    ensures
        res@ == spec_setup_place_path(place, data@),
{
    let ghost d = data@;
    let res = match place {
        SetupPlace::QemuDir => data.join("qemu"),
        SetupPlace::ImagesDir => data.join("images"),
        SetupPlace::InstancesDir => data.join("instances"),
        SetupPlace::QemuExe => data.join("qemu").join("qemu-system-i386.exe"),
        SetupPlace::AdbExe => data.join("qemu").join("adb.exe"),
        SetupPlace::BaseImg => data.join("images").join("android.img"),
        SetupPlace::QemuImgExe => data.join("qemu").join("qemu-img.exe"),
        SetupPlace::QemuZip => data.join("qemu.zip"),
        SetupPlace::AdbZip => data.join("adb.zip"),
        SetupPlace::AndroidIso => data.join("images").join("android.iso"),
        SetupPlace::ToolsExtract => data.join("platform-tools-extract"),
        SetupPlace::ToolSource(k) => data.join("platform-tools-extract").join(
            "platform-tools",
        ).join(tool_name(k)),
        SetupPlace::ToolTarget(k) => data.join("qemu").join(tool_name(k)),
    };
    assert(res@.1 =~= spec_setup_place_path(place, d).1);
    res
}

/// `dir` with `name` joined on.
pub open spec fn joined(dir: PathView, name: Seq<char>) -> PathView {
    (dir.0, dir.1.push(name))
}

/// The setup puts QEMU, `qemu-img`, ADB and the Android disk image, and
/// makes the QEMU, images and instances folders, exactly where the
/// launcher's layout looks for them.
pub proof fn lemma_setup_places_agree(data: PathView)
    ensures
        spec_setup_place_path(SetupPlace::QemuDir, data) == spec_qemu_dir_in(data),
        spec_setup_place_path(SetupPlace::ImagesDir, data) == spec_images_dir_in(data),
        spec_setup_place_path(SetupPlace::InstancesDir, data) == spec_instances_dir_in(data),
        spec_setup_place_path(SetupPlace::QemuExe, data) == spec_qemu_exe_in(data),
        spec_setup_place_path(SetupPlace::QemuImgExe, data) == spec_qemu_img_exe_in(data),
        spec_setup_place_path(SetupPlace::AdbExe, data) == spec_adb_exe_in(data),
        spec_setup_place_path(SetupPlace::BaseImg, data) == spec_base_img_in(data),
{
}

/// How the setup's places nest in the app data folder `data`: the QEMU,
/// images and instances folders, both archives and the unpacking folder
/// sit in it; QEMU, `qemu-img` and every ADB file in the QEMU folder; the
/// disk image and the Android ISO in the images folder; each unpacked ADB
/// file in the unpacking folder's `platform-tools`.
pub proof fn lemma_setup_places_nest(data: PathView, k: u8)
    ensures
        spec_setup_place_path(SetupPlace::QemuDir, data) == joined(data, "qemu"@),
        spec_setup_place_path(SetupPlace::ImagesDir, data) == joined(data, "images"@),
        spec_setup_place_path(SetupPlace::InstancesDir, data) == joined(data, "instances"@),
        spec_setup_place_path(SetupPlace::QemuZip, data) == joined(data, "qemu.zip"@),
        spec_setup_place_path(SetupPlace::AdbZip, data) == joined(data, "adb.zip"@),
        spec_setup_place_path(SetupPlace::ToolsExtract, data) == joined(
            data,
            "platform-tools-extract"@,
        ),
        spec_setup_place_path(SetupPlace::QemuExe, data) == joined(
            spec_setup_place_path(SetupPlace::QemuDir, data),
            "qemu-system-i386.exe"@,
        ),
        spec_setup_place_path(SetupPlace::QemuImgExe, data) == joined(
            spec_setup_place_path(SetupPlace::QemuDir, data),
            "qemu-img.exe"@,
        ),
        spec_setup_place_path(SetupPlace::ToolTarget(k), data) == joined(
            spec_setup_place_path(SetupPlace::QemuDir, data),
            spec_tool_name(k),
        ),
        spec_setup_place_path(SetupPlace::AdbExe, data) == spec_setup_place_path(
            SetupPlace::ToolTarget(0),
            data,
        ),
        spec_setup_place_path(SetupPlace::BaseImg, data) == joined(
            spec_setup_place_path(SetupPlace::ImagesDir, data),
            "android.img"@,
        ),
        spec_setup_place_path(SetupPlace::AndroidIso, data) == joined(
            spec_setup_place_path(SetupPlace::ImagesDir, data),
            "android.iso"@,
        ),
        spec_setup_place_path(SetupPlace::ToolSource(k), data) == joined(
            joined(spec_setup_place_path(SetupPlace::ToolsExtract, data), "platform-tools"@),
            spec_tool_name(k),
        ),
{
    let d = data.1;
    assert(d + seq!["qemu"@] =~= d.push("qemu"@));
    assert(d + seq!["images"@] =~= d.push("images"@));
    assert(d + seq!["instances"@] =~= d.push("instances"@));
    assert(d + seq!["qemu.zip"@] =~= d.push("qemu.zip"@));
    assert(d + seq!["adb.zip"@] =~= d.push("adb.zip"@));
    assert(d + seq!["platform-tools-extract"@] =~= d.push("platform-tools-extract"@));
    assert(d + seq!["qemu"@, "qemu-system-i386.exe"@] =~= d.push("qemu"@).push(
        "qemu-system-i386.exe"@,
    ));
    assert(d + seq!["qemu"@, "qemu-img.exe"@] =~= d.push("qemu"@).push("qemu-img.exe"@));
    assert(d + seq!["qemu"@, spec_tool_name(k)] =~= d.push("qemu"@).push(spec_tool_name(k)));
    assert(d + seq!["images"@, "android.img"@] =~= d.push("images"@).push("android.img"@));
    assert(d + seq!["images"@, "android.iso"@] =~= d.push("images"@).push("android.iso"@));
    assert(d + seq!["platform-tools-extract"@, "platform-tools"@, spec_tool_name(k)] =~= d.push(
        "platform-tools-extract"@,
    ).push("platform-tools"@).push(spec_tool_name(k)));
    assert(spec_tool_name(0) == "adb.exe"@);
}

/// The download address of `source`.
pub open spec fn spec_setup_source_url(source: SetupSource) -> Seq<char> {
    match source {
        SetupSource::Qemu => "https://github.com/dirkarnez/qemu-portable/releases/download/20240822/qemu-portable-20240822-windows-amd64.zip"@,
        SetupSource::Adb => "https://dl.google.com/android/repository/platform-tools-latest-windows.zip"@,
        SetupSource::Android => "https://sourceforge.net/projects/android-x86/files/Release%204.4-r5/android-x86-4.4-r5.iso/download"@,
    }
}

pub fn setup_source_url(source: SetupSource) -> (res: &'static str)
    ensures
        res@ == spec_setup_source_url(source),
{
    match source {
        SetupSource::Qemu => "https://github.com/dirkarnez/qemu-portable/releases/download/20240822/qemu-portable-20240822-windows-amd64.zip",
        SetupSource::Adb => "https://dl.google.com/android/repository/platform-tools-latest-windows.zip",
        SetupSource::Android => "https://sourceforge.net/projects/android-x86/files/Release%204.4-r5/android-x86-4.4-r5.iso/download",
    }
}

/// What the last action came to.
pub enum SetupEvent {
    /// A plain operation finished; for a download, `Err` holds what
    /// PowerShell wrote to its error stream.
    Completed(Result<(), String>),
    /// A file exists or not.
    Found(bool),
    /// The search for QEMU found a file (`found`), and it is already where
    /// it belongs (`in_place`).
    Located { found: bool, in_place: bool },
}

/// Where the setup stands: each stage waits for the result of one action.
#[derive(PartialEq, Eq, Structural, Clone, Copy, Debug)]
pub enum SetupStage {
    MakeDir(u8),
    CheckQemu,
    QemuDownload,
    QemuUnpackDir,
    QemuExpand,
    QemuZipRemove,
    QemuLocate,
    QemuPlace,
    CheckAdb,
    AdbDownload,
    AdbUnpackDir,
    AdbExpand,
    AdbProbe(u8),
    AdbCopy(u8),
    AdbCleanup,
    AdbZipRemove,
    CheckImage,
    ImageDownload,
    ImageCreate,
    IsoRemove,
    Finished,
    Failed,
}

pub open spec fn setup_dir(k: u8) -> SetupPlace {
    if k == 0 {
        SetupPlace::QemuDir
    } else if k == 1 {
        SetupPlace::ImagesDir
    } else {
        SetupPlace::InstancesDir
    }
}

/// The action that `stage` waits for.
pub open spec fn setup_action(stage: SetupStage) -> SetupAction {
    match stage {
        SetupStage::MakeDir(k) => SetupAction::CreateDir(setup_dir(k)),
        SetupStage::CheckQemu => SetupAction::CheckExists(SetupPlace::QemuExe),
        SetupStage::QemuDownload => SetupAction::Download {
            source: SetupSource::Qemu,
            dest: SetupPlace::QemuZip,
        },
        SetupStage::QemuUnpackDir => SetupAction::CreateDir(SetupPlace::QemuDir),
        SetupStage::QemuExpand => SetupAction::Expand {
            archive: SetupPlace::QemuZip,
            into: SetupPlace::QemuDir,
        },
        SetupStage::QemuZipRemove => SetupAction::RemoveFile(SetupPlace::QemuZip),
        SetupStage::QemuLocate => SetupAction::LocateQemu,
        SetupStage::QemuPlace => SetupAction::CopyFound(SetupPlace::QemuExe),
        SetupStage::CheckAdb => SetupAction::CheckExists(SetupPlace::AdbExe),
        SetupStage::AdbDownload => SetupAction::Download {
            source: SetupSource::Adb,
            dest: SetupPlace::AdbZip,
        },
        SetupStage::AdbUnpackDir => SetupAction::CreateDir(SetupPlace::ToolsExtract),
        SetupStage::AdbExpand => SetupAction::Expand {
            archive: SetupPlace::AdbZip,
            into: SetupPlace::ToolsExtract,
        },
        SetupStage::AdbProbe(k) => SetupAction::CheckExists(SetupPlace::ToolSource(k)),
        SetupStage::AdbCopy(k) => SetupAction::Copy {
            from: SetupPlace::ToolSource(k),
            to: SetupPlace::ToolTarget(k),
        },
        SetupStage::AdbCleanup => SetupAction::RemoveDir(SetupPlace::ToolsExtract),
        SetupStage::AdbZipRemove => SetupAction::RemoveFile(SetupPlace::AdbZip),
        SetupStage::CheckImage => SetupAction::CheckExists(SetupPlace::BaseImg),
        SetupStage::ImageDownload => SetupAction::Download {
            source: SetupSource::Android,
            dest: SetupPlace::AndroidIso,
        },
        SetupStage::ImageCreate => SetupAction::CreateDisk,
        SetupStage::IsoRemove => SetupAction::RemoveFile(SetupPlace::AndroidIso),
        SetupStage::Finished => SetupAction::Stop,
        SetupStage::Failed => SetupAction::Stop,
    }
}

pub open spec fn after_setup_tool(k: u8) -> SetupStage {
    if k < 2 {
        SetupStage::AdbProbe((k + 1) as u8)
    } else {
        SetupStage::AdbCleanup
    }
}

pub open spec fn qemu_ready() -> LogLine {
    ("QEMU ready \u{2713}"@, 30i32)
}

pub open spec fn adb_ready() -> LogLine {
    ("ADB ready \u{2713}"@, 55i32)
}

pub open spec fn all_done() -> LogLine {
    ("All done! \u{1F680}"@, 100i32)
}

/// One step of the setup: the stage after the event `ev`, and the messages
/// sent to the window. An event that the stage does not wait for changes
/// nothing, so that the pending action is asked for again.
pub open spec fn setup_step(stage: SetupStage, ev: SetupEvent) -> (SetupStage, Seq<LogLine>) {
    let none = Seq::<LogLine>::empty();
    let same = (stage, none);
    match stage {
        SetupStage::MakeDir(k) => match ev {
            SetupEvent::Completed(_) => if k < 2 {
                (SetupStage::MakeDir((k + 1) as u8), none)
            } else {
                (SetupStage::CheckQemu, seq![("Starting setup..."@, 1i32)])
            },
            _ => same,
        },
        SetupStage::CheckQemu => match ev {
            SetupEvent::Found(true) => (SetupStage::CheckAdb, seq![qemu_ready()]),
            SetupEvent::Found(false) => (
                SetupStage::QemuDownload,
                seq![("Downloading QEMU..."@, 5i32)],
            ),
            _ => same,
        },
        SetupStage::QemuDownload => match ev {
            SetupEvent::Completed(Ok(())) => (
                SetupStage::QemuUnpackDir,
                seq![("Download complete"@, 25i32), ("Extracting QEMU..."@, 26i32)],
            ),
            SetupEvent::Completed(Err(_)) => (
                SetupStage::Failed,
                seq![("QEMU download failed!"@, -1i32)],
            ),
            _ => same,
        },
        SetupStage::QemuUnpackDir => match ev {
            SetupEvent::Completed(_) => (SetupStage::QemuExpand, none),
            _ => same,
        },
        SetupStage::QemuExpand => match ev {
            SetupEvent::Completed(_) => (SetupStage::QemuZipRemove, none),
            _ => same,
        },
        SetupStage::QemuZipRemove => match ev {
            SetupEvent::Completed(_) => (SetupStage::QemuLocate, none),
            _ => same,
        },
        SetupStage::QemuLocate => match ev {
            SetupEvent::Located { found, in_place } => if found && !in_place {
                (SetupStage::QemuPlace, none)
            } else {
                (SetupStage::CheckAdb, seq![qemu_ready()])
            },
            _ => same,
        },
        SetupStage::QemuPlace => match ev {
            SetupEvent::Completed(_) => (SetupStage::CheckAdb, seq![qemu_ready()]),
            _ => same,
        },
        SetupStage::CheckAdb => match ev {
            SetupEvent::Found(true) => (SetupStage::CheckImage, seq![adb_ready()]),
            SetupEvent::Found(false) => (
                SetupStage::AdbDownload,
                seq![("Downloading ADB tools..."@, 32i32)],
            ),
            _ => same,
        },
        SetupStage::AdbDownload => match ev {
            SetupEvent::Completed(Ok(())) => (
                SetupStage::AdbUnpackDir,
                seq![("Download complete"@, 50i32), ("Extracting ADB..."@, 51i32)],
            ),
            SetupEvent::Completed(Err(_)) => (
                SetupStage::Failed,
                seq![("ADB download failed!"@, -1i32)],
            ),
            _ => same,
        },
        SetupStage::AdbUnpackDir => match ev {
            SetupEvent::Completed(_) => (SetupStage::AdbExpand, none),
            _ => same,
        },
        SetupStage::AdbExpand => match ev {
            SetupEvent::Completed(_) => (SetupStage::AdbProbe(0), none),
            _ => same,
        },
        SetupStage::AdbProbe(k) => match ev {
            SetupEvent::Found(true) => (SetupStage::AdbCopy(k), none),
            SetupEvent::Found(false) => (after_setup_tool(k), none),
            _ => same,
        },
        SetupStage::AdbCopy(k) => match ev {
            SetupEvent::Completed(_) => (after_setup_tool(k), none),
            _ => same,
        },
        SetupStage::AdbCleanup => match ev {
            SetupEvent::Completed(_) => (SetupStage::AdbZipRemove, none),
            _ => same,
        },
        SetupStage::AdbZipRemove => match ev {
            SetupEvent::Completed(_) => (SetupStage::CheckImage, seq![adb_ready()]),
            _ => same,
        },
        SetupStage::CheckImage => match ev {
            SetupEvent::Found(true) => (SetupStage::Finished, seq![all_done()]),
            SetupEvent::Found(false) => (
                SetupStage::ImageDownload,
                seq![("Downloading Android-x86 image (~300MB)..."@, 57i32)],
            ),
            _ => same,
        },
        SetupStage::ImageDownload => match ev {
            SetupEvent::Completed(Ok(())) => (
                SetupStage::ImageCreate,
                seq![("Download complete"@, 93i32), ("Creating disk image..."@, 94i32)],
            ),
            SetupEvent::Completed(Err(_)) => (
                SetupStage::Failed,
                seq![("Android image download failed!"@, -1i32)],
            ),
            _ => same,
        },
        SetupStage::ImageCreate => match ev {
            SetupEvent::Completed(_) => (SetupStage::IsoRemove, none),
            _ => same,
        },
        SetupStage::IsoRemove => match ev {
            SetupEvent::Completed(_) => (SetupStage::Finished, seq![all_done()]),
            _ => same,
        },
        SetupStage::Finished => same,
        SetupStage::Failed => same,
    }
}

/// How far the setup's messages have come at `stage`.
pub open spec fn setup_progress(stage: SetupStage) -> int {
    match stage {
        SetupStage::MakeDir(_) => 0,
        SetupStage::CheckQemu => 1,
        SetupStage::QemuDownload => 5,
        SetupStage::QemuUnpackDir | SetupStage::QemuExpand | SetupStage::QemuZipRemove
        | SetupStage::QemuLocate | SetupStage::QemuPlace => 26,
        SetupStage::CheckAdb => 30,
        SetupStage::AdbDownload => 32,
        SetupStage::AdbUnpackDir | SetupStage::AdbExpand | SetupStage::AdbProbe(_)
        | SetupStage::AdbCopy(_) | SetupStage::AdbCleanup | SetupStage::AdbZipRemove => 51,
        SetupStage::CheckImage => 55,
        SetupStage::ImageDownload => 57,
        SetupStage::ImageCreate | SetupStage::IsoRemove => 94,
        SetupStage::Finished => 100,
        SetupStage::Failed => -1,
    }
}

/// Once finished or failed, the setup stays so and sends nothing more.
pub proof fn lemma_setup_terminal_stays(stage: SetupStage, ev: SetupEvent)
    requires
        stage == SetupStage::Finished || stage == SetupStage::Failed,
    ensures
        setup_step(stage, ev) == (stage, Seq::<LogLine>::empty()),
        setup_action(stage) == SetupAction::Stop,
{
}

/// A step that fails sends one message at -1; a step that finishes sends
/// "All done!" at 100.
pub proof fn lemma_setup_failure_and_completion(stage: SetupStage, ev: SetupEvent)
    requires
        stage != SetupStage::Finished && stage != SetupStage::Failed,
    ensures
        setup_step(stage, ev).0 == SetupStage::Failed ==> setup_step(stage, ev).1.len() == 1
            && setup_step(stage, ev).1[0].1 == -1,
        setup_step(stage, ev).0 == SetupStage::Finished ==> setup_step(stage, ev).1 == seq![
            all_done(),
        ],
{
}

/// The setup's progress never goes backwards: in a step that does not fail,
/// each message sent lies between the progress of the stage before and that
/// of the stage after, in rising order.
#[verifier::rlimit(50)]
pub proof fn lemma_setup_progress_rises(stage: SetupStage, ev: SetupEvent)
    requires
        setup_step(stage, ev).0 != SetupStage::Failed,
    ensures
        setup_progress(stage) <= setup_progress(setup_step(stage, ev).0),
        forall|i: int|
            0 <= i < setup_step(stage, ev).1.len() ==> setup_progress(stage)
                <= #[trigger] setup_step(stage, ev).1[i].1 <= setup_progress(
                setup_step(stage, ev).0,
            ),
        forall|i: int, j: int|
            0 <= i < j < setup_step(stage, ev).1.len() ==> #[trigger] setup_step(stage, ev).1[i].1
                <= #[trigger] setup_step(stage, ev).1[j].1,
{
}

pub open spec fn setup_terminal(stage: SetupStage) -> bool {
    stage == SetupStage::Finished || stage == SetupStage::Failed
}

/// One setup step, checked against the stage's progress: the messages it
/// sends (but failures) are at least the stage's progress, at most the
/// next stage's progress, rising, and between 1 and 100.
#[verifier::rlimit(100)]
pub proof fn lemma_setup_step_bounds(stage: SetupStage, ev: SetupEvent)
    requires
        !setup_terminal(stage),
    ensures
        ({
            let (next, lines) = setup_step(stage, ev);
            &&& rising(lines)
            &&& in_range(lines)
            &&& next != SetupStage::Failed ==> setup_progress(stage) <= setup_progress(next)
            &&& forall|i: int|
                0 <= i < lines.len() && #[trigger] lines[i].1 != -1 ==> setup_progress(stage)
                    <= lines[i].1 && (next != SetupStage::Failed ==> lines[i].1 <= setup_progress(
                    next,
                ))
        }),
{
}

/// The messages of a whole setup run from `stage` on the events `events`.
pub open spec fn run_setup(stage: SetupStage, events: Seq<SetupEvent>) -> (SetupStage, Seq<LogLine>)
    decreases events.len(),
{
    if events.len() == 0 {
        (stage, Seq::empty())
    } else {
        let (next, lines) = setup_step(stage, events[0]);
        let (end, rest) = run_setup(next, events.drop_first());
        (end, lines + rest)
    }
}

proof fn lemma_setup_terminal_run(stage: SetupStage, events: Seq<SetupEvent>)
    requires
        setup_terminal(stage),
    ensures
        run_setup(stage, events) == (stage, Seq::<LogLine>::empty()),
    decreases events.len(),
{
    if events.len() > 0 {
        lemma_setup_terminal_run(stage, events.drop_first());
        assert(Seq::<LogLine>::empty() + Seq::<LogLine>::empty() =~= Seq::<LogLine>::empty());
    }
}

/// The messages of a setup run from `stage` rise, stay in range, are no
/// lower than `floor` where that is no higher than the stage's progress,
/// end at 100 where the run finishes, and, from the folder-making stages,
/// open with 1 or with a failure.
#[verifier::rlimit(100)]
pub proof fn lemma_setup_run_rises(stage: SetupStage, events: Seq<SetupEvent>, floor: int)
    requires
        stage != SetupStage::Failed ==> floor <= setup_progress(stage),
    ensures
        ({
            let (end, log) = run_setup(stage, events);
            &&& rising(log)
            &&& in_range(log)
            &&& forall|i: int| 0 <= i < log.len() && #[trigger] log[i].1 != -1 ==> floor <= log[i].1
            &&& (end == SetupStage::Finished && stage != SetupStage::Finished) ==> log.len() > 0
                && log.last().1 == 100
            &&& (stage is MakeDir && log.len() > 0) ==> (log[0].1 == 1 || log[0].1 == -1)
        }),
    decreases events.len(),
{
    if events.len() == 0 {
        return;
    }
    if setup_terminal(stage) {
        lemma_setup_terminal_run(stage, events);
        return;
    }
    let ev = events[0];
    let (next, lines) = setup_step(stage, ev);
    lemma_setup_step_bounds(stage, ev);
    lemma_setup_failure_and_completion(stage, ev);
    let next_floor = if next == SetupStage::Failed {
        floor
    } else {
        setup_progress(next)
    };
    lemma_setup_run_rises(next, events.drop_first(), next_floor);
    let (end, rest) = run_setup(next, events.drop_first());
    if setup_terminal(next) {
        lemma_setup_terminal_run(next, events.drop_first());
    }
    let log = lines + rest;
    assert(run_setup(stage, events).1 == log);
    assert forall|i: int, j: int|
        0 <= i < j < log.len() && log[i].1 != -1 && log[j].1 != -1 implies #[trigger] log[i].1
        <= #[trigger] log[j].1 by {
        if j < lines.len() {
            assert(log[i] == lines[i] && log[j] == lines[j]);
        } else if i >= lines.len() {
            assert(log[i] == rest[i - lines.len()] && log[j] == rest[j - lines.len()]);
        } else {
            assert(log[i] == lines[i] && log[j] == rest[j - lines.len()]);
        }
    }
    assert forall|i: int| 0 <= i < log.len() implies (#[trigger] log[i].1 == -1 || (1 <= log[i].1
        <= 100)) && (log[i].1 != -1 ==> floor <= log[i].1) by {
        if i < lines.len() {
            assert(log[i] == lines[i]);
        } else {
            assert(log[i] == rest[i - lines.len()]);
        }
    }
    if end == SetupStage::Finished {
        if next == SetupStage::Finished {
            assert(log =~= lines);
        } else {
            assert(log.last() == rest.last());
        }
    }
    if stage is MakeDir && log.len() > 0 {
        if lines.len() > 0 {
            assert(log[0] == lines[0]);
        } else {
            assert(next is MakeDir);
            assert(log =~= rest);
        }
    }
}

/// Over a whole setup, whatever the events: the percentages it sends (but
/// failures) never go down and lie between 1 and 100, the first message is
/// at 1 or a failure, and a setup that finishes ends at 100.
pub proof fn lemma_setup_run(events: Seq<SetupEvent>)
    ensures
        ({
            let (end, log) = run_setup(SetupStage::MakeDir(0), events);
            &&& rising(log)
            &&& in_range(log)
            &&& log.len() > 0 ==> (log[0].1 == 1 || log[0].1 == -1)
            &&& end == SetupStage::Finished ==> log.len() > 0 && log.last().1 == 100
        }),
{
    lemma_setup_run_rises(SetupStage::MakeDir(0), events, 0);
}

/// Every ADB file is probed, and copied when present, before the extract
/// folder is removed: a probe of file `k` that finds it copies it; after
/// file `k` (found and copied, or not found) comes the probe of file
/// `k + 1`, and only after the last file the removal.
pub proof fn lemma_setup_each_tool_probed(stage: SetupStage, ev: SetupEvent, k: u8)
    ensures
        ({
            let next = setup_step(stage, ev).0;
            &&& stage == SetupStage::AdbProbe(k) ==> setup_action(stage) == SetupAction::CheckExists(
                SetupPlace::ToolSource(k),
            )
            &&& stage == SetupStage::AdbCopy(k) ==> setup_action(stage) == (SetupAction::Copy {
                from: SetupPlace::ToolSource(k),
                to: SetupPlace::ToolTarget(k),
            })
            &&& (stage == SetupStage::AdbProbe(k) && ev == SetupEvent::Found(true)) ==> next
                == SetupStage::AdbCopy(k)
            &&& (stage == SetupStage::AdbProbe(k) && ev == SetupEvent::Found(false) && k < 2) ==> next
                == SetupStage::AdbProbe((k + 1) as u8)
            &&& (stage == SetupStage::AdbCopy(k) && ev is Completed && k < 2) ==> next
                == SetupStage::AdbProbe((k + 1) as u8)
            &&& (next == SetupStage::AdbCleanup && stage != SetupStage::AdbCleanup) ==> {
                &&& (stage is AdbProbe || stage is AdbCopy)
                &&& stage != SetupStage::AdbProbe(0) && stage != SetupStage::AdbProbe(1)
                &&& stage != SetupStage::AdbCopy(0) && stage != SetupStage::AdbCopy(1)
            }
            &&& (next == SetupStage::AdbProbe(0) && stage != next) ==> stage == SetupStage::AdbExpand
        }),
{
}

/// QEMU is reported ready only after it was found: the setup moves on to
/// ADB only from the check that found `qemu-system-i386.exe`, from a search
/// that found nothing to move (or found it in place), or from copying the
/// file the search found; a file found elsewhere is copied into place.
pub proof fn lemma_setup_qemu_ready(stage: SetupStage, ev: SetupEvent)
    ensures
        ({
            let next = setup_step(stage, ev).0;
            &&& (next == SetupStage::CheckAdb && stage != SetupStage::CheckAdb) ==> {
                ||| (setup_action(stage) == SetupAction::CheckExists(SetupPlace::QemuExe) && ev
                    == SetupEvent::Found(true))
                ||| (setup_action(stage) == SetupAction::LocateQemu && ev is Located && (!ev->found
                    || ev->in_place))
                ||| setup_action(stage) == SetupAction::CopyFound(SetupPlace::QemuExe)
            }
            &&& (stage == SetupStage::QemuLocate && ev is Located && ev->found && !ev->in_place)
                ==> setup_action(next) == SetupAction::CopyFound(SetupPlace::QemuExe)
        }),
{
}

/// Each download is made only where its file is missing (QEMU's archive
/// after `qemu-system-i386.exe` was not found, ADB's after `adb.exe` was
/// not found, the Android ISO after `android.img` was not found); the disk
/// is made right after the ISO has arrived, and the ISO is removed only
/// after that; the setup is done only where the disk was there or has just
/// been made, and ADB is reported ready only where it was found or its
/// files have been put in place.
#[verifier::rlimit(50)]
pub proof fn lemma_setup_downloads_only_when_missing(stage: SetupStage, ev: SetupEvent)
    ensures
        ({
            let (next, lines) = setup_step(stage, ev);
            &&& (next == SetupStage::QemuDownload && stage != next) ==> (stage
                == SetupStage::CheckQemu && ev == SetupEvent::Found(false))
            &&& (next == SetupStage::AdbDownload && stage != next) ==> (stage == SetupStage::CheckAdb
                && ev == SetupEvent::Found(false))
            &&& (next == SetupStage::ImageDownload && stage != next) ==> (stage
                == SetupStage::CheckImage && ev == SetupEvent::Found(false))
            &&& (next == SetupStage::ImageCreate && stage != next) ==> (stage
                == SetupStage::ImageDownload && ev matches SetupEvent::Completed(Ok(_)))
            &&& (next == SetupStage::IsoRemove && stage != next) ==> stage == SetupStage::ImageCreate
            &&& (next == SetupStage::Finished && stage != next) ==> {
                &&& (stage == SetupStage::CheckImage && ev == SetupEvent::Found(true)) || stage
                    == SetupStage::IsoRemove
                &&& lines == seq![all_done()]
            }
            &&& (next == SetupStage::CheckImage && stage != next) ==> {
                &&& (stage == SetupStage::CheckAdb && ev == SetupEvent::Found(true)) || stage
                    == SetupStage::AdbZipRemove
                &&& lines == seq![adb_ready()]
            }
        }),
{
}

fn setup_dir_exec(k: u8) -> (res: SetupPlace)
    ensures
        res == setup_dir(k),
{
    if k == 0 {
        SetupPlace::QemuDir
    } else if k == 1 {
        SetupPlace::ImagesDir
    } else {
        SetupPlace::InstancesDir
    }
}

fn send(out: &mut Vec<(String, i32)>, msg: &str, pct: i32)
    ensures
        lines_of(final(out)@) == lines_of(old(out)@).push((msg@, pct)),
{
    let ghost before = lines_of(out@);
    out.push((String::from_str(msg), pct));
    assert(lines_of(out@) =~= before.push((msg@, pct)));
}

/// The first-run setup in progress.
pub struct SetupFlow {
    stage: SetupStage,
}

impl SetupFlow {
    pub closed spec fn stage_view(&self) -> SetupStage {
        self.stage
    }

    /// A new setup: it starts by creating the QEMU folder.
    pub fn new() -> (res: SetupFlow)
        ensures
            res.stage_view() == SetupStage::MakeDir(0),
    {
        SetupFlow { stage: SetupStage::MakeDir(0) }
    }

    /// The stage the setup stands at.
    pub fn stage(&self) -> (res: SetupStage)
        ensures
            res == self.stage_view(),
    {
        self.stage
    }

    /// The action that the setup waits for.
    pub fn pending(&self) -> (res: SetupAction)
        ensures
            res == setup_action(self.stage_view()),
    {
        match self.stage {
            SetupStage::MakeDir(k) => SetupAction::CreateDir(setup_dir_exec(k)),
            SetupStage::CheckQemu => SetupAction::CheckExists(SetupPlace::QemuExe),
            SetupStage::QemuDownload => SetupAction::Download {
                source: SetupSource::Qemu,
                dest: SetupPlace::QemuZip,
            },
            SetupStage::QemuUnpackDir => SetupAction::CreateDir(SetupPlace::QemuDir),
            SetupStage::QemuExpand => SetupAction::Expand {
                archive: SetupPlace::QemuZip,
                into: SetupPlace::QemuDir,
            },
            SetupStage::QemuZipRemove => SetupAction::RemoveFile(SetupPlace::QemuZip),
            SetupStage::QemuLocate => SetupAction::LocateQemu,
            SetupStage::QemuPlace => SetupAction::CopyFound(SetupPlace::QemuExe),
            SetupStage::CheckAdb => SetupAction::CheckExists(SetupPlace::AdbExe),
            SetupStage::AdbDownload => SetupAction::Download {
                source: SetupSource::Adb,
                dest: SetupPlace::AdbZip,
            },
            SetupStage::AdbUnpackDir => SetupAction::CreateDir(SetupPlace::ToolsExtract),
            SetupStage::AdbExpand => SetupAction::Expand {
                archive: SetupPlace::AdbZip,
                into: SetupPlace::ToolsExtract,
            },
            SetupStage::AdbProbe(k) => SetupAction::CheckExists(SetupPlace::ToolSource(k)),
            SetupStage::AdbCopy(k) => SetupAction::Copy {
                from: SetupPlace::ToolSource(k),
                to: SetupPlace::ToolTarget(k),
            },
            SetupStage::AdbCleanup => SetupAction::RemoveDir(SetupPlace::ToolsExtract),
            SetupStage::AdbZipRemove => SetupAction::RemoveFile(SetupPlace::AdbZip),
            SetupStage::CheckImage => SetupAction::CheckExists(SetupPlace::BaseImg),
            SetupStage::ImageDownload => SetupAction::Download {
                source: SetupSource::Android,
                dest: SetupPlace::AndroidIso,
            },
            SetupStage::ImageCreate => SetupAction::CreateDisk,
            SetupStage::IsoRemove => SetupAction::RemoveFile(SetupPlace::AndroidIso),
            SetupStage::Finished => SetupAction::Stop,
            SetupStage::Failed => SetupAction::Stop,
        }
    }

    /// Takes the result of the pending action, appends the messages to send
    /// to `out`, and returns the next action.
    #[verifier::rlimit(50)]
    pub fn step(&mut self, event: SetupEvent, out: &mut Vec<(String, i32)>) -> (res: SetupAction)
        ensures
            final(self).stage_view() == setup_step(old(self).stage_view(), event).0,
            lines_of(final(out)@) == lines_of(old(out)@) + setup_step(
                old(self).stage_view(),
                event,
            ).1,
            res == setup_action(final(self).stage_view()),
    {
        let ghost start = lines_of(out@);
        match self.stage {
            SetupStage::MakeDir(k) => match event {
                SetupEvent::Completed(_) => {
                    if k < 2 {
                        self.stage = SetupStage::MakeDir(k + 1);
                    } else {
                        self.stage = SetupStage::CheckQemu;
                        send(out, "Starting setup...", 1);
                    }
                },
                _ => {},
            },
            SetupStage::CheckQemu => match event {
                SetupEvent::Found(true) => {
                    self.stage = SetupStage::CheckAdb;
                    send(out, "QEMU ready \u{2713}", 30);
                },
                SetupEvent::Found(false) => {
                    self.stage = SetupStage::QemuDownload;
                    send(out, "Downloading QEMU...", 5);
                },
                _ => {},
            },
            SetupStage::QemuDownload => match event {
                SetupEvent::Completed(Ok(())) => {
                    self.stage = SetupStage::QemuUnpackDir;
                    send(out, "Download complete", 25);
                    send(out, "Extracting QEMU...", 26);
                },
                SetupEvent::Completed(Err(_)) => {
                    self.stage = SetupStage::Failed;
                    send(out, "QEMU download failed!", -1);
                },
                _ => {},
            },
            SetupStage::QemuUnpackDir => match event {
                SetupEvent::Completed(_) => {
                    self.stage = SetupStage::QemuExpand;
                },
                _ => {},
            },
            SetupStage::QemuExpand => match event {
                SetupEvent::Completed(_) => {
                    self.stage = SetupStage::QemuZipRemove;
                },
                _ => {},
            },
            SetupStage::QemuZipRemove => match event {
                SetupEvent::Completed(_) => {
                    self.stage = SetupStage::QemuLocate;
                },
                _ => {},
            },
            SetupStage::QemuLocate => match event {
                SetupEvent::Located { found, in_place } => {
                    if found && !in_place {
                        self.stage = SetupStage::QemuPlace;
                    } else {
                        self.stage = SetupStage::CheckAdb;
                        send(out, "QEMU ready \u{2713}", 30);
                    }
                },
                _ => {},
            },
            SetupStage::QemuPlace => match event {
                SetupEvent::Completed(_) => {
                    self.stage = SetupStage::CheckAdb;
                    send(out, "QEMU ready \u{2713}", 30);
                },
                _ => {},
            },
            SetupStage::CheckAdb => match event {
                SetupEvent::Found(true) => {
                    self.stage = SetupStage::CheckImage;
                    send(out, "ADB ready \u{2713}", 55);
                },
                SetupEvent::Found(false) => {
                    self.stage = SetupStage::AdbDownload;
                    send(out, "Downloading ADB tools...", 32);
                },
                _ => {},
            },
            SetupStage::AdbDownload => match event {
                SetupEvent::Completed(Ok(())) => {
                    self.stage = SetupStage::AdbUnpackDir;
                    send(out, "Download complete", 50);
                    send(out, "Extracting ADB...", 51);
                },
                SetupEvent::Completed(Err(_)) => {
                    self.stage = SetupStage::Failed;
                    send(out, "ADB download failed!", -1);
                },
                _ => {},
            },
            SetupStage::AdbUnpackDir => match event {
                SetupEvent::Completed(_) => {
                    self.stage = SetupStage::AdbExpand;
                },
                _ => {},
            },
            SetupStage::AdbExpand => match event {
                SetupEvent::Completed(_) => {
                    self.stage = SetupStage::AdbProbe(0);
                },
                _ => {},
            },
            SetupStage::AdbProbe(k) => match event {
                SetupEvent::Found(true) => {
                    self.stage = SetupStage::AdbCopy(k);
                },
                SetupEvent::Found(false) => {
                    self.stage = if k < 2 {
                        SetupStage::AdbProbe(k + 1)
                    } else {
                        SetupStage::AdbCleanup
                    };
                },
                _ => {},
            },
            SetupStage::AdbCopy(k) => match event {
                SetupEvent::Completed(_) => {
                    self.stage = if k < 2 {
                        SetupStage::AdbProbe(k + 1)
                    } else {
                        SetupStage::AdbCleanup
                    };
                },
                _ => {},
            },
            SetupStage::AdbCleanup => match event {
                SetupEvent::Completed(_) => {
                    self.stage = SetupStage::AdbZipRemove;
                },
                _ => {},
            },
            SetupStage::AdbZipRemove => match event {
                SetupEvent::Completed(_) => {
                    self.stage = SetupStage::CheckImage;
                    send(out, "ADB ready \u{2713}", 55);
                },
                _ => {},
            },
            SetupStage::CheckImage => match event {
                SetupEvent::Found(true) => {
                    self.stage = SetupStage::Finished;
                    send(out, "All done! \u{1F680}", 100);
                },
                SetupEvent::Found(false) => {
                    self.stage = SetupStage::ImageDownload;
                    send(out, "Downloading Android-x86 image (~300MB)...", 57);
                },
                _ => {},
            },
            SetupStage::ImageDownload => match event {
                SetupEvent::Completed(Ok(())) => {
                    self.stage = SetupStage::ImageCreate;
                    send(out, "Download complete", 93);
                    send(out, "Creating disk image...", 94);
                },
                SetupEvent::Completed(Err(_)) => {
                    self.stage = SetupStage::Failed;
                    send(out, "Android image download failed!", -1);
                },
                _ => {},
            },
            SetupStage::ImageCreate => match event {
                SetupEvent::Completed(_) => {
                    self.stage = SetupStage::IsoRemove;
                },
                _ => {},
            },
            SetupStage::IsoRemove => match event {
                SetupEvent::Completed(_) => {
                    self.stage = SetupStage::Finished;
                    send(out, "All done! \u{1F680}", 100);
                },
                _ => {},
            },
            SetupStage::Finished => {},
            SetupStage::Failed => {},
        }
        assert(lines_of(out@) =~= start + setup_step(old(self).stage_view(), event).1);
        self.pending()
    }
}

} // verus!

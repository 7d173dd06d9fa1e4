//! The installer: its progress log, the places it writes to, and the
//! commands it runs.
use vstd::prelude::*;
use vstd::string::*;
use crate::layout::{AppPath, PathView, path_of};
use crate::emulator::{
    under_install, spec_install_dir, spec_qemu_dir, spec_images_dir, spec_instances_dir,
    spec_qemu_exe, spec_qemu_img_exe, spec_adb_exe, spec_base_img,
};
use crate::text::{concat, push_text, push_owned, texts};

pub use crate::emulator::{install_dir, qemu_dir, images_dir};
pub use crate::version::prev_version_url;

verus! {

/// What the installer has reported so far: its log lines, each a message
/// and a percentage (-1 on failure), and whether it has finished.
pub struct InstallState {
    pub log: Vec<(String, i32)>,
    pub done: bool,
}

/// The lines of a log, with each message as its text.
pub open spec fn lines_of(log: Seq<(String, i32)>) -> Seq<(Seq<char>, i32)> {
    log.map_values(|e: (String, i32)| (e.0@, e.1))
}

impl InstallState {
    pub open spec fn lines(&self) -> Seq<(Seq<char>, i32)> {
        lines_of(self.log@)
    }

    /// An empty log, not finished.
    pub fn new() -> (res: InstallState)
        ensures
            res.lines() == Seq::<(Seq<char>, i32)>::empty(),
            !res.done,
    {
        let res = InstallState { log: Vec::new(), done: false };
        assert(res.lines() =~= Seq::<(Seq<char>, i32)>::empty());
        res
    }

    /// Appends the line `msg` at `pct` percent.
    pub fn push(&mut self, msg: String, pct: i32)
        ensures
            final(self).lines() == old(self).lines().push((msg@, pct)),
            final(self).done == old(self).done,
    {
        let ghost before = self.lines();
        let ghost text = msg@;
        self.log.push((msg, pct));
        assert(self.lines() =~= before.push((text, pct)));
    }

    /// Marks the installation finished.
    pub fn finish(&mut self)
        ensures
            final(self).lines() == old(self).lines(),
            final(self).done,
    {
        self.done = true;
    }
}

impl Default for InstallState {
    fn default() -> (res: InstallState)
        ensures
            res.lines() == Seq::<(Seq<char>, i32)>::empty(),
            !res.done,
    {
        InstallState::new()
    }
}

/// The places the installer works with.
#[derive(PartialEq, Eq, Structural, Clone, Copy, Debug)]
pub enum Place {
    InstallDir,
    ImagesDir,
    InstancesDir,
    DataDir,
    QemuDir,
    DownloadsDir,
    QemuExe,
    QemuImgExe,
    AdbExe,
    BaseImg,
    QemuZip,
    AdbZip,
    AndroidIso,
    /// The scratch folder that ADB's archive is unpacked into.
    ToolsTemp,
    /// The `k`th ADB file, as unpacked.
    ToolSource(u8),
    /// The `k`th ADB file, installed beside QEMU.
    ToolTarget(u8),
    /// Where the emulator program is downloaded to.
    ExeDownload,
    /// Where the emulator program is installed.
    ExeDest,
    /// The start menu entry for the emulator.
    StartMenuLink,
}

/// The name of the `k`th file of ADB that the emulator needs.
pub open spec fn spec_tool_name(k: u8) -> Seq<char> {
    if k == 0 {
        "adb.exe"@
    } else if k == 1 {
        "AdbWinApi.dll"@
    } else {
        "AdbWinUsbApi.dll"@
    }
}

pub fn tool_name(k: u8) -> (res: &'static str)
    ensures
        res@ == spec_tool_name(k),
{
    if k == 0 {
        "adb.exe"
    } else if k == 1 {
        "AdbWinApi.dll"
    } else {
        "AdbWinUsbApi.dll"
    }
}

/// Where `place` is, given the `APPDATA` variable (where set) and the
/// temporary folder `temp`.
pub open spec fn spec_place_path(place: Place, appdata: Option<&str>, temp: Seq<char>) -> PathView {
    match place {
        Place::InstallDir => under_install(appdata, Seq::empty()),
        Place::ImagesDir => under_install(appdata, seq!["data"@, "images"@]),
        Place::InstancesDir => under_install(appdata, seq!["data"@, "instances"@]),
        Place::DataDir => under_install(appdata, seq!["data"@]),
        Place::QemuDir => under_install(appdata, seq!["data"@, "qemu"@]),
        Place::DownloadsDir => under_install(appdata, seq!["downloads"@]),
        Place::QemuExe => under_install(appdata, seq!["data"@, "qemu"@, "qemu-system-i386.exe"@]),
        Place::QemuImgExe => under_install(appdata, seq!["data"@, "qemu"@, "qemu-img.exe"@]),
        Place::AdbExe => under_install(appdata, seq!["data"@, "qemu"@, "adb.exe"@]),
        Place::BaseImg => under_install(appdata, seq!["data"@, "images"@, "android.img"@]),
        Place::QemuZip => under_install(appdata, seq!["downloads"@, "qemu.zip"@]),
        Place::AdbZip => under_install(appdata, seq!["downloads"@, "adb.zip"@]),
        Place::AndroidIso => under_install(appdata, seq!["downloads"@, "android.iso"@]),
        Place::ToolsTemp => path_of(temp, seq!["void_pt_tmp"@]),
        Place::ToolSource(k) => path_of(
            temp,
            seq!["void_pt_tmp"@, "platform-tools"@, spec_tool_name(k)],
        ),
        Place::ToolTarget(k) => under_install(appdata, seq!["data"@, "qemu"@, spec_tool_name(k)]),
        Place::ExeDownload => under_install(appdata, seq!["downloads"@, "VoidEmulator.exe"@]),
        Place::ExeDest => under_install(appdata, seq!["VoidEmulator.exe"@]),
        Place::StartMenuLink => path_of(
            match appdata {
                Some(v) => v@,
                None => Seq::empty(),
            },
            seq!["Microsoft\\Windows\\Start Menu\\Programs\\VoidEmulator.lnk"@],
        ),
    }
}

/// The path of `place`.
pub fn place_path(place: Place, appdata: Option<&str>, temp: &str) -> (res: AppPath)
    ensures
        res@ == spec_place_path(place, appdata, temp@),
{
    let res = match place {
        Place::InstallDir => install_dir(appdata),
        Place::ImagesDir => install_dir(appdata).join("data").join("images"),
        Place::InstancesDir => install_dir(appdata).join("data").join("instances"),
        Place::DataDir => install_dir(appdata).join("data"),
        Place::QemuDir => install_dir(appdata).join("data").join("qemu"),
        Place::DownloadsDir => install_dir(appdata).join("downloads"),
        Place::QemuExe => install_dir(appdata).join("data").join("qemu").join(
            "qemu-system-i386.exe",
        ),
        Place::QemuImgExe => install_dir(appdata).join("data").join("qemu").join("qemu-img.exe"),
        Place::AdbExe => install_dir(appdata).join("data").join("qemu").join("adb.exe"),
        Place::BaseImg => install_dir(appdata).join("data").join("images").join("android.img"),
        Place::QemuZip => install_dir(appdata).join("downloads").join("qemu.zip"),
        Place::AdbZip => install_dir(appdata).join("downloads").join("adb.zip"),
        Place::AndroidIso => install_dir(appdata).join("downloads").join("android.iso"),
        Place::ToolsTemp => AppPath::from_base(temp).join("void_pt_tmp"),
        Place::ToolSource(k) => AppPath::from_base(temp).join("void_pt_tmp").join(
            "platform-tools",
        ).join(tool_name(k)),
        Place::ToolTarget(k) => install_dir(appdata).join("data").join("qemu").join(tool_name(k)),
        Place::ExeDownload => install_dir(appdata).join("downloads").join("VoidEmulator.exe"),
        Place::ExeDest => install_dir(appdata).join("VoidEmulator.exe"),
        Place::StartMenuLink => {
            let base = match appdata {
                Some(v) => AppPath::from_base(v),
                None => AppPath::from_base(""),
            };
            proof {
                reveal_strlit("");
            }
            base.join("Microsoft\\Windows\\Start Menu\\Programs\\VoidEmulator.lnk")
        },
    };
    assert(res@ =~= spec_place_path(place, appdata, temp@));
    assert(res@.1 =~= spec_place_path(place, appdata, temp@).1);
    res
}

/// `dir` with `name` joined on.
pub open spec fn child(dir: PathView, name: Seq<char>) -> PathView {
    (dir.0, dir.1.push(name))
}

/// The installer puts each file that the emulator reads exactly where the
/// emulator looks for it: its install, QEMU, images and instances folders,
/// QEMU, `qemu-img`, ADB and the Android disk image are the emulator's own.
pub proof fn lemma_installer_places_agree(appdata: Option<&str>, temp: Seq<char>)
    ensures
        spec_place_path(Place::InstallDir, appdata, temp) == spec_install_dir(appdata),
        spec_place_path(Place::QemuDir, appdata, temp) == spec_qemu_dir(appdata),
        spec_place_path(Place::ImagesDir, appdata, temp) == spec_images_dir(appdata),
        spec_place_path(Place::InstancesDir, appdata, temp) == spec_instances_dir(appdata),
        spec_place_path(Place::QemuExe, appdata, temp) == spec_qemu_exe(appdata),
        spec_place_path(Place::QemuImgExe, appdata, temp) == spec_qemu_img_exe(appdata),
        spec_place_path(Place::AdbExe, appdata, temp) == spec_adb_exe(appdata),
        spec_place_path(Place::BaseImg, appdata, temp) == spec_base_img(appdata),
{
    assert(spec_place_path(Place::InstallDir, appdata, temp).1 =~= spec_install_dir(appdata).1);
}

/// How the installer's places nest: the data and downloads folders sit in
/// the install folder; QEMU's, the images' and the instances' folders in
/// the data folder; the disk image in the images folder; QEMU, `qemu-img`
/// and every ADB file in QEMU's folder; each download in the downloads
/// folder; each unpacked ADB file in the scratch folder's `platform-tools`.
pub proof fn lemma_places_nest(appdata: Option<&str>, temp: Seq<char>, k: u8)
    ensures
        spec_place_path(Place::DataDir, appdata, temp) == child(
            spec_place_path(Place::InstallDir, appdata, temp),
            "data"@,
        ),
        spec_place_path(Place::DownloadsDir, appdata, temp) == child(
            spec_place_path(Place::InstallDir, appdata, temp),
            "downloads"@,
        ),
        spec_place_path(Place::ExeDest, appdata, temp) == child(
            spec_place_path(Place::InstallDir, appdata, temp),
            "VoidEmulator.exe"@,
        ),
        spec_place_path(Place::QemuDir, appdata, temp) == child(
            spec_place_path(Place::DataDir, appdata, temp),
            "qemu"@,
        ),
        spec_place_path(Place::ImagesDir, appdata, temp) == child(
            spec_place_path(Place::DataDir, appdata, temp),
            "images"@,
        ),
        spec_place_path(Place::InstancesDir, appdata, temp) == child(
            spec_place_path(Place::DataDir, appdata, temp),
            "instances"@,
        ),
        spec_place_path(Place::BaseImg, appdata, temp) == child(
            spec_place_path(Place::ImagesDir, appdata, temp),
            "android.img"@,
        ),
        spec_place_path(Place::QemuExe, appdata, temp) == child(
            spec_place_path(Place::QemuDir, appdata, temp),
            "qemu-system-i386.exe"@,
        ),
        spec_place_path(Place::QemuImgExe, appdata, temp) == child(
            spec_place_path(Place::QemuDir, appdata, temp),
            "qemu-img.exe"@,
        ),
        spec_place_path(Place::ToolTarget(k), appdata, temp) == child(
            spec_place_path(Place::QemuDir, appdata, temp),
            spec_tool_name(k),
        ),
        spec_place_path(Place::AdbExe, appdata, temp) == spec_place_path(
            Place::ToolTarget(0),
            appdata,
            temp,
        ),
        spec_place_path(Place::QemuZip, appdata, temp) == child(
            spec_place_path(Place::DownloadsDir, appdata, temp),
            "qemu.zip"@,
        ),
        spec_place_path(Place::AdbZip, appdata, temp) == child(
            spec_place_path(Place::DownloadsDir, appdata, temp),
            "adb.zip"@,
        ),
        spec_place_path(Place::AndroidIso, appdata, temp) == child(
            spec_place_path(Place::DownloadsDir, appdata, temp),
            "android.iso"@,
        ),
        spec_place_path(Place::ExeDownload, appdata, temp) == child(
            spec_place_path(Place::DownloadsDir, appdata, temp),
            "VoidEmulator.exe"@,
        ),
        spec_place_path(Place::ToolSource(k), appdata, temp) == child(
            child(spec_place_path(Place::ToolsTemp, appdata, temp), "platform-tools"@),
            spec_tool_name(k),
        ),
{
    let inst = seq!["VoidEmulator"@];
    let data = inst + seq!["data"@];
    let downloads = inst + seq!["downloads"@];
    let qemu = inst + seq!["data"@, "qemu"@];
    let images = inst + seq!["data"@, "images"@];
    assert(data =~= inst.push("data"@));
    assert(downloads =~= inst.push("downloads"@));
    assert((inst + seq!["VoidEmulator.exe"@]) =~= inst.push("VoidEmulator.exe"@));
    assert(qemu =~= data.push("qemu"@));
    assert(images =~= data.push("images"@));
    assert((inst + seq!["data"@, "instances"@]) =~= data.push("instances"@));
    assert((inst + seq!["data"@, "images"@, "android.img"@]) =~= images.push("android.img"@));
    assert((inst + seq!["data"@, "qemu"@, "qemu-system-i386.exe"@]) =~= qemu.push(
        "qemu-system-i386.exe"@,
    ));
    assert((inst + seq!["data"@, "qemu"@, "qemu-img.exe"@]) =~= qemu.push("qemu-img.exe"@));
    assert((inst + seq!["data"@, "qemu"@, spec_tool_name(k)]) =~= qemu.push(spec_tool_name(k)));
    assert((inst + seq!["downloads"@, "qemu.zip"@]) =~= downloads.push("qemu.zip"@));
    assert((inst + seq!["downloads"@, "adb.zip"@]) =~= downloads.push("adb.zip"@));
    assert((inst + seq!["downloads"@, "android.iso"@]) =~= downloads.push("android.iso"@));
    assert((inst + seq!["downloads"@, "VoidEmulator.exe"@]) =~= downloads.push(
        "VoidEmulator.exe"@,
    ));
    assert(seq!["void_pt_tmp"@, "platform-tools"@, spec_tool_name(k)] =~= seq![
        "void_pt_tmp"@,
    ].push("platform-tools"@).push(spec_tool_name(k)));
    assert(spec_tool_name(0) == "adb.exe"@);
}

/// The `tar` command line that unpacks `archive` into `dest`.
pub open spec fn spec_tar_extract_args(archive: Seq<char>, dest: Seq<char>) -> Seq<Seq<char>> {
    seq!["-xf"@, archive, "-C"@, dest]
}

pub fn tar_extract_args(archive: &str, dest: &str) -> (res: Vec<String>)
    ensures
        texts(res@) == spec_tar_extract_args(archive@, dest@),
{
    let mut v: Vec<String> = Vec::new();
    push_text(&mut v, "-xf");
    push_text(&mut v, archive);
    push_text(&mut v, "-C");
    push_text(&mut v, dest);
    assert(texts(v@) =~= spec_tar_extract_args(archive@, dest@));
    v
}

/// The `qemu-img` command line that makes the 4 GB raw Android disk.
pub open spec fn spec_raw_disk_args(target: Seq<char>) -> Seq<Seq<char>> {
    seq!["create"@, "-f"@, "raw"@, target, "4G"@]
}

pub fn raw_disk_args(target: &str) -> (res: Vec<String>)
    ensures
        texts(res@) == spec_raw_disk_args(target@),
{
    let mut v: Vec<String> = Vec::new();
    push_text(&mut v, "create");
    push_text(&mut v, "-f");
    push_text(&mut v, "raw");
    push_text(&mut v, target);
    push_text(&mut v, "4G");
    assert(texts(v@) =~= spec_raw_disk_args(target@));
    v
}

/// The `fsutil` command line that makes the same 4 GiB file where
/// `qemu-img` is missing.
pub open spec fn spec_blank_file_args(target: Seq<char>) -> Seq<Seq<char>> {
    seq!["file"@, "createnew"@, target, "4294967296"@]
}

pub fn blank_file_args(target: &str) -> (res: Vec<String>)
    ensures
        texts(res@) == spec_blank_file_args(target@),
{
    let mut v: Vec<String> = Vec::new();
    push_text(&mut v, "file");
    push_text(&mut v, "createnew");
    push_text(&mut v, target);
    push_text(&mut v, "4294967296");
    assert(texts(v@) =~= spec_blank_file_args(target@));
    v
}

/// The PowerShell script that unpacks the zip archive `zip` into `dest`.
pub open spec fn spec_expand_archive_script(zip: Seq<char>, dest: Seq<char>) -> Seq<char> {
    "$ProgressPreference='SilentlyContinue'; Expand-Archive -Path '"@ + zip
        + "' -DestinationPath '"@ + dest + "' -Force"@
}

pub fn expand_archive_script(zip: &str, dest: &str) -> (res: String)
    ensures
        res@ == spec_expand_archive_script(zip@, dest@),
{
    let a = concat("$ProgressPreference='SilentlyContinue'; Expand-Archive -Path '", zip);
    let b = concat(a.as_str(), "' -DestinationPath '");
    let c = concat(b.as_str(), dest);
    concat(c.as_str(), "' -Force")
}

/// The PowerShell script that makes the shortcut `shortcut` to `target`.
pub open spec fn spec_shortcut_script(shortcut: Seq<char>, target: Seq<char>) -> Seq<char> {
    "$ws = New-Object -ComObject WScript.Shell; $s = $ws.CreateShortcut('"@ + shortcut
        + "'); $s.TargetPath = '"@ + target + "'; $s.Save()"@
}

pub fn shortcut_script(shortcut: &str, target: &str) -> (res: String)
    ensures
        res@ == spec_shortcut_script(shortcut@, target@),
{
    let a = concat("$ws = New-Object -ComObject WScript.Shell; $s = $ws.CreateShortcut('", shortcut);
    let b = concat(a.as_str(), "'); $s.TargetPath = '");
    let c = concat(b.as_str(), target);
    concat(c.as_str(), "'; $s.Save()")
}

/// The PowerShell script that puts a shortcut to `target` on the user's
/// desktop, wherever the desktop folder is.
pub open spec fn spec_desktop_shortcut_script(target: Seq<char>) -> Seq<char> {
    "$ws = New-Object -ComObject WScript.Shell; $d = [Environment]::GetFolderPath('Desktop'); $s = $ws.CreateShortcut($d + '\\VoidEmulator.lnk'); $s.TargetPath = '"@
        + target + "'; $s.Save()"@
}

pub fn desktop_shortcut_script(target: &str) -> (res: String)
    ensures
        res@ == spec_desktop_shortcut_script(target@),
{
    let a = concat(
        "$ws = New-Object -ComObject WScript.Shell; $d = [Environment]::GetFolderPath('Desktop'); $s = $ws.CreateShortcut($d + '\\VoidEmulator.lnk'); $s.TargetPath = '",
        target,
    );
    concat(a.as_str(), "'; $s.Save()")
}

/// The arguments that run `script` in a hidden PowerShell window.
pub open spec fn spec_hidden_powershell_args(script: Seq<char>) -> Seq<Seq<char>> {
    seq!["-WindowStyle"@, "Hidden"@, "-Command"@, script]
}

pub fn hidden_powershell_args(script: String) -> (res: Vec<String>)
    ensures
        texts(res@) == spec_hidden_powershell_args(script@),
{
    let ghost sv = script@;
    let mut v: Vec<String> = Vec::new();
    push_text(&mut v, "-WindowStyle");
    push_text(&mut v, "Hidden");
    push_text(&mut v, "-Command");
    push_owned(&mut v, script);
    assert(texts(v@) =~= spec_hidden_powershell_args(sv));
    v
}

/// Whether a release address answers: the HEAD request got a response
/// with a status below 400 (`None` where the request failed).
pub fn url_answers(status: Option<u16>) -> (res: bool)
    ensures
        res == (match status {
            Some(s) => s < 400,
            None => false,
        }),
{
    match status {
        Some(s) => s < 400,
        None => false,
    }
}

/// Where the installer learns the newest emulator release.
pub open spec fn release_json_url() -> Seq<char> {
    "https://raw.githubusercontent.com/darkflareplays8/VoidEm/main/release.json"@
}

pub fn release_json() -> (res: &'static str)
    ensures
        res@ == release_json_url(),
{
    "https://raw.githubusercontent.com/darkflareplays8/VoidEm/main/release.json"
}

} // verus!

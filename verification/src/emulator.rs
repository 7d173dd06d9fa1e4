//! The emulator front end: where it keeps its files, the commands it runs
//! for QEMU and ADB, and the register of running instances.
use vstd::prelude::*;
use crate::layout::{AppPath, PathView, path_of};
use crate::text::{concat, push_text, push_owned, texts};
use crate::decimal::{decimal, spec_decimal};

pub use crate::encoding::base64_encode;

verus! {

/// The folder that holds everything when the user profile gives none.
pub open spec fn fallback_root() -> Seq<char> {
    "C:\\Users\\Public"@
}

/// `value`, or the public profile folder where the variable is unset.
pub open spec fn root_or_public(value: Option<&str>) -> Seq<char> {
    match value {
        Some(v) => v@,
        None => fallback_root(),
    }
}

/// The install folder, `<APPDATA>\VoidEmulator`.
pub open spec fn spec_install_dir(appdata: Option<&str>) -> PathView {
    path_of(root_or_public(appdata), seq!["VoidEmulator"@])
}

/// `spec_install_dir` with `names` joined on.
pub open spec fn under_install(appdata: Option<&str>, names: Seq<Seq<char>>) -> PathView {
    path_of(root_or_public(appdata), seq!["VoidEmulator"@] + names)
}

/// The QEMU folder.
pub open spec fn spec_qemu_dir(appdata: Option<&str>) -> PathView {
    under_install(appdata, seq!["data"@, "qemu"@])
}

/// The images folder.
pub open spec fn spec_images_dir(appdata: Option<&str>) -> PathView {
    under_install(appdata, seq!["data"@, "images"@])
}

/// The instances folder.
pub open spec fn spec_instances_dir(appdata: Option<&str>) -> PathView {
    under_install(appdata, seq!["data"@, "instances"@])
}

/// The QEMU system emulator.
pub open spec fn spec_qemu_exe(appdata: Option<&str>) -> PathView {
    under_install(appdata, seq!["data"@, "qemu"@, "qemu-system-i386.exe"@])
}

/// The disk image tool.
pub open spec fn spec_qemu_img_exe(appdata: Option<&str>) -> PathView {
    under_install(appdata, seq!["data"@, "qemu"@, "qemu-img.exe"@])
}

/// The Android debug bridge.
pub open spec fn spec_adb_exe(appdata: Option<&str>) -> PathView {
    under_install(appdata, seq!["data"@, "qemu"@, "adb.exe"@])
}

/// The shared Android disk image.
pub open spec fn spec_base_img(appdata: Option<&str>) -> PathView {
    under_install(appdata, seq!["data"@, "images"@, "android.img"@])
}

fn root(value: Option<&str>) -> (res: AppPath)
    ensures
        res@ == path_of(root_or_public(value), Seq::empty()),
{
    match value {
        Some(v) => AppPath::from_base(v),
        None => AppPath::from_base("C:\\Users\\Public"),
    }
}

/// The install folder; `appdata` is the `APPDATA` variable where it is set.
pub fn install_dir(appdata: Option<&str>) -> (res: AppPath)
    ensures
        res@ == spec_install_dir(appdata),
{
    let res = root(appdata).join("VoidEmulator");
    assert(res@.1 =~= seq!["VoidEmulator"@]);
    res
}

/// `<install>\data\qemu`.
pub fn qemu_dir(appdata: Option<&str>) -> (res: AppPath)
    ensures
        res@ == spec_qemu_dir(appdata),
{
    let res = install_dir(appdata).join("data").join("qemu");
    assert(res@.1 =~= seq!["VoidEmulator"@] + seq!["data"@, "qemu"@]);
    res
}

/// `<install>\data\images`.
pub fn images_dir(appdata: Option<&str>) -> (res: AppPath)
    ensures
        res@ == spec_images_dir(appdata),
{
    let res = install_dir(appdata).join("data").join("images");
    assert(res@.1 =~= seq!["VoidEmulator"@] + seq!["data"@, "images"@]);
    res
}

/// `<install>\data\instances`.
pub fn instances_dir(appdata: Option<&str>) -> (res: AppPath)
    ensures
        res@ == spec_instances_dir(appdata),
{
    let res = install_dir(appdata).join("data").join("instances");
    assert(res@.1 =~= seq!["VoidEmulator"@] + seq!["data"@, "instances"@]);
    res
}

/// The QEMU system emulator, `<install>\data\qemu\qemu-system-i386.exe`.
pub fn qemu_exe(appdata: Option<&str>) -> (res: AppPath)
    ensures
        res@ == spec_qemu_exe(appdata),
{
    let res = qemu_dir(appdata).join("qemu-system-i386.exe");
    assert(res@.1 =~= seq!["VoidEmulator"@] + seq!["data"@, "qemu"@, "qemu-system-i386.exe"@]);
    res
}

/// The disk image tool, `<install>\data\qemu\qemu-img.exe`.
pub fn qemu_img_exe(appdata: Option<&str>) -> (res: AppPath)
    ensures
        res@ == spec_qemu_img_exe(appdata),
{
    let res = qemu_dir(appdata).join("qemu-img.exe");
    assert(res@.1 =~= seq!["VoidEmulator"@] + seq!["data"@, "qemu"@, "qemu-img.exe"@]);
    res
}

/// The Android debug bridge, `<install>\data\qemu\adb.exe`.
pub fn adb_exe(appdata: Option<&str>) -> (res: AppPath)
    ensures
        res@ == spec_adb_exe(appdata),
{
    let res = qemu_dir(appdata).join("adb.exe");
    assert(res@.1 =~= seq!["VoidEmulator"@] + seq!["data"@, "qemu"@, "adb.exe"@]);
    res
}

/// The shared Android disk image, `<install>\data\images\android.img`.
pub fn base_img(appdata: Option<&str>) -> (res: AppPath)
    ensures
        res@ == spec_base_img(appdata),
{
    let res = images_dir(appdata).join("android.img");
    assert(res@.1 =~= seq!["VoidEmulator"@] + seq!["data"@, "images"@, "android.img"@]);
    res
}

/// The folder of the instance called `name`.
pub fn instance_dir(appdata: Option<&str>, name: &str) -> (res: AppPath)
    ensures
        res@ == under_install(appdata, seq!["data"@, "instances"@, name@]),
{
    let res = instances_dir(appdata).join(name);
    assert(res@.1 =~= seq!["VoidEmulator"@] + seq!["data"@, "instances"@, name@]);
    res
}

/// The copy-on-write disk of the instance called `name`.
pub fn overlay_path(appdata: Option<&str>, name: &str) -> (res: AppPath)
    ensures
        res@ == under_install(appdata, seq!["data"@, "instances"@, name@, "overlay.qcow2"@]),
{
    let res = instance_dir(appdata, name).join("overlay.qcow2");
    assert(res@.1 =~= seq!["VoidEmulator"@] + seq![
        "data"@,
        "instances"@,
        name@,
        "overlay.qcow2"@,
    ]);
    res
}

/// The saved list of instances, `<install>\instances.json`.
pub fn instances_json(appdata: Option<&str>) -> (res: AppPath)
    ensures
        res@ == under_install(appdata, seq!["instances.json"@]),
{
    let res = install_dir(appdata).join("instances.json");
    assert(res@.1 =~= seq!["VoidEmulator"@] + seq!["instances.json"@]);
    res
}

/// The user's downloads folder, `<USERPROFILE>\Downloads`.
pub fn downloads_dir(userprofile: Option<&str>) -> (res: AppPath)
    ensures
        res@ == path_of(root_or_public(userprofile), seq!["Downloads"@]),
{
    let res = root(userprofile).join("Downloads");
    assert(res@.1 =~= seq!["Downloads"@]);
    res
}

/// Which parts of the emulator are in place.
pub struct SetupStatus {
    pub qemu: bool,
    pub adb: bool,
    pub image: bool,
}

impl SetupStatus {
    /// Everything is in place, so the downloads folder can go.
    pub fn ready(&self) -> (res: bool)
        ensures
            res == (self.qemu && self.adb && self.image),
    {
        self.qemu && self.adb && self.image
    }
}

/// Where the installer keeps its downloads, `<install>\downloads`.
pub fn download_cache(appdata: Option<&str>) -> (res: AppPath)
    ensures
        res@ == under_install(appdata, seq!["downloads"@]),
{
    let res = install_dir(appdata).join("downloads");
    assert(res@.1 =~= seq!["VoidEmulator"@] + seq!["downloads"@]);
    res
}

/// The host port that forwards to ADB inside the instance at `index`.
pub open spec fn spec_adb_port(index: u32) -> int {
    5554 + 2 * index
}

/// The highest instance index whose ADB port fits in a `u32`.
pub open spec fn max_instance_index() -> int {
    (u32::MAX - 5554) / 2
}

/// The ADB port of the instance at `index`: 5554, 5556, 5558, ...
pub fn adb_port(index: u32) -> (res: u32)
    requires
        index <= max_instance_index(),
    ensures
        res == spec_adb_port(index),
{
    5554 + index * 2
}

/// `127.0.0.1:<port>`, how ADB names the device listening on `port`.
pub open spec fn spec_device_address(port: u32) -> Seq<char> {
    "127.0.0.1:"@ + spec_decimal(port as nat)
}

pub fn device_address(port: u32) -> (res: String)
    ensures
        res@ == spec_device_address(port),
{
    let n = decimal(port as u64);
    concat("127.0.0.1:", n.as_str())
}

/// The QEMU command line that boots an instance from its overlay disk and
/// forwards `adb_port` on the host to ADB in the guest.
pub open spec fn spec_qemu_launch_args(overlay: Seq<char>, adb_port: u32) -> Seq<Seq<char>> {
    seq![
        "-m"@, "1024"@, "-smp"@, "2"@,
        "-drive"@, "file="@ + overlay + ",format=qcow2"@,
        "-net"@, "nic"@,
        "-net"@, "user,hostfwd=tcp:127.0.0.1:"@ + spec_decimal(adb_port as nat) + "-:5555"@,
        "-vga"@, "std"@, "-usb"@, "-device"@, "usb-tablet"@,
        "-no-reboot"@, "-display"@, "none"@,
    ]
}

pub fn qemu_launch_args(overlay: &str, adb_port: u32) -> (res: Vec<String>)
    ensures
        texts(res@) == spec_qemu_launch_args(overlay@, adb_port),
{
    let mut v: Vec<String> = Vec::new();
    push_text(&mut v, "-m");
    push_text(&mut v, "1024");
    push_text(&mut v, "-smp");
    push_text(&mut v, "2");
    push_text(&mut v, "-drive");
    push_owned(&mut v, concat(concat("file=", overlay).as_str(), ",format=qcow2"));
    push_text(&mut v, "-net");
    push_text(&mut v, "nic");
    push_text(&mut v, "-net");
    let port = decimal(adb_port as u64);
    push_owned(
        &mut v,
        concat(concat("user,hostfwd=tcp:127.0.0.1:", port.as_str()).as_str(), "-:5555"),
    );
    push_text(&mut v, "-vga");
    push_text(&mut v, "std");
    push_text(&mut v, "-usb");
    push_text(&mut v, "-device");
    push_text(&mut v, "usb-tablet");
    push_text(&mut v, "-no-reboot");
    push_text(&mut v, "-display");
    push_text(&mut v, "none");
    assert(texts(v@) =~= spec_qemu_launch_args(overlay@, adb_port));
    v
}

/// The `qemu-img` command line that makes an instance's copy-on-write disk
/// on top of the shared raw image.
pub open spec fn spec_overlay_create_args(base: Seq<char>, overlay: Seq<char>) -> Seq<Seq<char>> {
    seq!["create"@, "-f"@, "qcow2"@, "-b"@, base, "-F"@, "raw"@, overlay]
}

pub fn overlay_create_args(base: &str, overlay: &str) -> (res: Vec<String>)
    ensures
        texts(res@) == spec_overlay_create_args(base@, overlay@),
{
    let mut v: Vec<String> = Vec::new();
    push_text(&mut v, "create");
    push_text(&mut v, "-f");
    push_text(&mut v, "qcow2");
    push_text(&mut v, "-b");
    push_text(&mut v, base);
    push_text(&mut v, "-F");
    push_text(&mut v, "raw");
    push_text(&mut v, overlay);
    assert(texts(v@) =~= spec_overlay_create_args(base@, overlay@));
    v
}

/// The `taskkill` command line that ends the process `pid`.
pub open spec fn spec_kill_args(pid: u32) -> Seq<Seq<char>> {
    seq!["/F"@, "/PID"@, spec_decimal(pid as nat)]
}

pub fn kill_args(pid: u32) -> (res: Vec<String>)
    ensures
        texts(res@) == spec_kill_args(pid),
{
    let mut v: Vec<String> = Vec::new();
    push_text(&mut v, "/F");
    push_text(&mut v, "/PID");
    push_owned(&mut v, decimal(pid as u64));
    assert(texts(v@) =~= spec_kill_args(pid));
    v
}

/// Where a screen capture of the instance `name` is saved for a moment:
/// `void_<name>.png` in the temporary folder.
pub open spec fn spec_capture_file_name(name: Seq<char>) -> Seq<char> {
    "void_"@ + name + ".png"@
}

pub fn capture_file_name(name: &str) -> (res: String)
    ensures
        res@ == spec_capture_file_name(name@),
{
    concat(concat("void_", name).as_str(), ".png")
}

/// Where the guest saves a screen capture.
pub open spec fn guest_capture_path() -> Seq<char> {
    "/sdcard/sc.png"@
}

/// `adb connect <device>`.
pub open spec fn spec_adb_connect_args(device: Seq<char>) -> Seq<Seq<char>> {
    seq!["connect"@, device]
}

pub fn adb_connect_args(device: &str) -> (res: Vec<String>)
    ensures
        texts(res@) == spec_adb_connect_args(device@),
{
    let mut v: Vec<String> = Vec::new();
    push_text(&mut v, "connect");
    push_text(&mut v, device);
    assert(texts(v@) =~= spec_adb_connect_args(device@));
    v
}

/// `adb -s <device> shell screencap -p /sdcard/sc.png`.
pub open spec fn spec_adb_screencap_args(device: Seq<char>) -> Seq<Seq<char>> {
    seq!["-s"@, device, "shell"@, "screencap"@, "-p"@, guest_capture_path()]
}

pub fn adb_screencap_args(device: &str) -> (res: Vec<String>)
    ensures
        texts(res@) == spec_adb_screencap_args(device@),
{
    let mut v: Vec<String> = Vec::new();
    push_text(&mut v, "-s");
    push_text(&mut v, device);
    push_text(&mut v, "shell");
    push_text(&mut v, "screencap");
    push_text(&mut v, "-p");
    push_text(&mut v, "/sdcard/sc.png");
    assert(texts(v@) =~= spec_adb_screencap_args(device@));
    v
}

/// `adb -s <device> pull <remote> <local>`.
pub open spec fn spec_adb_pull_args(device: Seq<char>, remote: Seq<char>, local: Seq<char>) -> Seq<
    Seq<char>,
> {
    seq!["-s"@, device, "pull"@, remote, local]
}

pub fn adb_pull_args(device: &str, remote: &str, local: &str) -> (res: Vec<String>)
    ensures
        texts(res@) == spec_adb_pull_args(device@, remote@, local@),
{
    let mut v: Vec<String> = Vec::new();
    push_text(&mut v, "-s");
    push_text(&mut v, device);
    push_text(&mut v, "pull");
    push_text(&mut v, remote);
    push_text(&mut v, local);
    assert(texts(v@) =~= spec_adb_pull_args(device@, remote@, local@));
    v
}

/// `adb -s <device> push <local> <remote>`.
pub open spec fn spec_adb_push_args(device: Seq<char>, local: Seq<char>, remote: Seq<char>) -> Seq<
    Seq<char>,
> {
    seq!["-s"@, device, "push"@, local, remote]
}

pub fn adb_push_args(device: &str, local: &str, remote: &str) -> (res: Vec<String>)
    ensures
        texts(res@) == spec_adb_push_args(device@, local@, remote@),
{
    let mut v: Vec<String> = Vec::new();
    push_text(&mut v, "-s");
    push_text(&mut v, device);
    push_text(&mut v, "push");
    push_text(&mut v, local);
    push_text(&mut v, remote);
    assert(texts(v@) =~= spec_adb_push_args(device@, local@, remote@));
    v
}

} // verus!

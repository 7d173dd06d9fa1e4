//! The launcher that sets itself up in the app data folder: its layout, its
//! commands, and its first-run setup as a state machine.
use vstd::prelude::*;
use vstd::string::*;
use crate::layout::{AppPath, PathView, path_of};
use crate::decimal::{decimal, spec_decimal};
use crate::text::{concat, push_text, push_owned, texts};

pub use crate::encoding::base64_encode;

verus! {

/// `data` with `names` joined on.
pub open spec fn under_data(data: PathView, names: Seq<Seq<char>>) -> PathView {
    path_of(data.0, data.1 + names)
}

/// The QEMU folder under `data`.
pub open spec fn spec_qemu_dir_in(data: PathView) -> PathView {
    under_data(data, seq!["qemu"@])
}

/// The images folder under `data`.
pub open spec fn spec_images_dir_in(data: PathView) -> PathView {
    under_data(data, seq!["images"@])
}

/// The instances folder under `data`.
pub open spec fn spec_instances_dir_in(data: PathView) -> PathView {
    under_data(data, seq!["instances"@])
}

/// The QEMU system emulator under `data`.
pub open spec fn spec_qemu_exe_in(data: PathView) -> PathView {
    under_data(data, seq!["qemu"@, "qemu-system-i386.exe"@])
}

/// The disk image tool under `data`.
pub open spec fn spec_qemu_img_exe_in(data: PathView) -> PathView {
    under_data(data, seq!["qemu"@, "qemu-img.exe"@])
}

/// The Android debug bridge under `data`.
pub open spec fn spec_adb_exe_in(data: PathView) -> PathView {
    under_data(data, seq!["qemu"@, "adb.exe"@])
}

/// The shared Android disk image under `data`.
pub open spec fn spec_base_img_in(data: PathView) -> PathView {
    under_data(data, seq!["images"@, "android.img"@])
}

/// `<data>\qemu`.
pub fn qemu_dir(data: AppPath) -> (res: AppPath)
    ensures
        res@ == spec_qemu_dir_in(data@),
{
    let ghost d = data@;
    let res = data.join("qemu");
    assert(res@.1 =~= d.1 + seq!["qemu"@]);
    res
}

/// `<data>\images`.
pub fn images_dir(data: AppPath) -> (res: AppPath)
    ensures
        res@ == spec_images_dir_in(data@),
{
    let ghost d = data@;
    let res = data.join("images");
    assert(res@.1 =~= d.1 + seq!["images"@]);
    res
}

/// `<data>\instances`.
pub fn instances_dir(data: AppPath) -> (res: AppPath)
    ensures
        res@ == spec_instances_dir_in(data@),
{
    let ghost d = data@;
    let res = data.join("instances");
    assert(res@.1 =~= d.1 + seq!["instances"@]);
    res
}

/// `<data>\qemu\qemu-system-i386.exe`.
pub fn qemu_exe(data: AppPath) -> (res: AppPath)
    ensures
        res@ == spec_qemu_exe_in(data@),
{
    let ghost d = data@;
    let res = qemu_dir(data).join("qemu-system-i386.exe");
    assert(res@.1 =~= d.1 + seq!["qemu"@, "qemu-system-i386.exe"@]);
    res
}

/// `<data>\qemu\qemu-img.exe`.
pub fn qemu_img_exe(data: AppPath) -> (res: AppPath)
    ensures
        res@ == spec_qemu_img_exe_in(data@),
{
    let ghost d = data@;
    let res = qemu_dir(data).join("qemu-img.exe");
    assert(res@.1 =~= d.1 + seq!["qemu"@, "qemu-img.exe"@]);
    res
}

/// `<data>\qemu\adb.exe`.
pub fn adb_exe(data: AppPath) -> (res: AppPath)
    ensures
        res@ == spec_adb_exe_in(data@),
{
    let ghost d = data@;
    let res = qemu_dir(data).join("adb.exe");
    assert(res@.1 =~= d.1 + seq!["qemu"@, "adb.exe"@]);
    res
}

/// `<data>\images\android.img`.
pub fn base_img(data: AppPath) -> (res: AppPath)
    ensures
        res@ == spec_base_img_in(data@),
{
    let ghost d = data@;
    let res = images_dir(data).join("android.img");
    assert(res@.1 =~= d.1 + seq!["images"@, "android.img"@]);
    res
}

/// The file name of the overlay disk of instance `id`: `<id>.qcow2`.
pub open spec fn spec_overlay_file(id: Seq<char>) -> Seq<char> {
    id + ".qcow2"@
}

pub fn overlay_file(id: &str) -> (res: String)
    ensures
        res@ == spec_overlay_file(id@),
{
    concat(id, ".qcow2")
}

/// The overlay disk of instance `id`, `<data>\instances\<id>.qcow2`.
pub fn overlay_path(data: AppPath, id: &str) -> (res: AppPath)
    ensures
        res@ == under_data(data@, seq!["instances"@, spec_overlay_file(id@)]),
{
    let ghost d = data@;
    let name = overlay_file(id);
    let res = instances_dir(data).join(name.as_str());
    assert(res@.1 =~= d.1 + seq!["instances"@, spec_overlay_file(id@)]);
    res
}

/// The QEMU command line of the launcher: a smaller machine without a window.
pub open spec fn spec_qemu_launch_args(overlay: Seq<char>, adb_port: u32) -> Seq<Seq<char>> {
    seq![
        "-m"@, "512"@, "-smp"@, "1"@,
        "-drive"@, "file="@ + overlay + ",format=qcow2"@,
        "-net"@, "nic"@,
        "-net"@, "user,hostfwd=tcp:127.0.0.1:"@ + spec_decimal(adb_port as nat) + "-:5555"@,
        "-vga"@, "std"@, "-usb"@, "-device"@, "usb-tablet"@,
        "-no-reboot"@, "-nographic"@,
    ]
}

pub fn qemu_launch_args(overlay: &str, adb_port: u32) -> (res: Vec<String>)
    ensures
        texts(res@) == spec_qemu_launch_args(overlay@, adb_port),
{
    let mut v: Vec<String> = Vec::new();
    push_text(&mut v, "-m");
    push_text(&mut v, "512");
    push_text(&mut v, "-smp");
    push_text(&mut v, "1");
    push_text(&mut v, "-drive");
    push_owned(&mut v, concat(concat("file=", overlay).as_str(), ",format=qcow2"));
    push_text(&mut v, "-net");
    push_text(&mut v, "nic");
    push_text(&mut v, "-net");
    let port = decimal(adb_port as u64);
    push_owned(
        &mut v,
        concat(concat("user,hostfwd=tcp:127.0.0.1:", port.as_str()).as_str(), "-:5555"),
    );
    push_text(&mut v, "-vga");
    push_text(&mut v, "std");
    push_text(&mut v, "-usb");
    push_text(&mut v, "-device");
    push_text(&mut v, "usb-tablet");
    push_text(&mut v, "-no-reboot");
    push_text(&mut v, "-nographic");
    assert(texts(v@) =~= spec_qemu_launch_args(overlay@, adb_port));
    v
}

/// The PowerShell script that downloads `url` into the file `dest`.
pub open spec fn spec_download_script(url: Seq<char>, dest: Seq<char>) -> Seq<char> {
    "$ProgressPreference='SilentlyContinue'; Invoke-WebRequest -Uri '"@ + url + "' -OutFile '"@
        + dest + "'"@
}

pub fn download_script(url: &str, dest: &str) -> (res: String)
    ensures
        res@ == spec_download_script(url@, dest@),
{
    let a = concat("$ProgressPreference='SilentlyContinue'; Invoke-WebRequest -Uri '", url);
    let b = concat(a.as_str(), "' -OutFile '");
    let c = concat(b.as_str(), dest);
    concat(c.as_str(), "'")
}

/// The arguments that run `script` with PowerShell.
pub open spec fn spec_powershell_args(script: Seq<char>) -> Seq<Seq<char>> {
    seq!["-Command"@, script]
}

pub fn powershell_args(script: String) -> (res: Vec<String>)
    ensures
        texts(res@) == spec_powershell_args(script@),
{
    let ghost sv = script@;
    let mut v: Vec<String> = Vec::new();
    push_text(&mut v, "-Command");
    push_owned(&mut v, script);
    assert(texts(v@) =~= spec_powershell_args(sv));
    v
}

} // verus!

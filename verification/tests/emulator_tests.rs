use voidemu::emulator::{
    adb_connect_args, adb_port, adb_pull_args, adb_push_args, adb_screencap_args, adb_exe,
    base_img, capture_file_name, device_address, download_cache, downloads_dir, images_dir,
    install_dir, instance_dir, instances_dir, instances_json, kill_args, overlay_create_args,
    overlay_path, qemu_dir, qemu_exe, qemu_img_exe, qemu_launch_args, SetupStatus,
};
use voidemu::encoding::base64_encode;
use voidemu::layout::AppPath;
use voidemu::registry::InstanceRegistry;

fn parts(p: &AppPath) -> (String, Vec<String>) {
    (p.base.clone(), p.segments.clone())
}

fn names(v: &[&str]) -> Vec<String> {
    v.iter().map(|s| s.to_string()).collect()
}

#[test]
fn install_layout() {
    let a = Some("C:\\Users\\me\\AppData\\Roaming");
    let root = "C:\\Users\\me\\AppData\\Roaming".to_string();
    assert_eq!(parts(&install_dir(a)), (root.clone(), names(&["VoidEmulator"])));
    assert_eq!(parts(&install_dir(None)), ("C:\\Users\\Public".to_string(), names(&["VoidEmulator"])));
    assert_eq!(parts(&qemu_dir(a)), (root.clone(), names(&["VoidEmulator", "data", "qemu"])));
    assert_eq!(parts(&images_dir(a)).1, names(&["VoidEmulator", "data", "images"]));
    assert_eq!(parts(&instances_dir(a)).1, names(&["VoidEmulator", "data", "instances"]));
    assert_eq!(parts(&qemu_exe(a)).1, names(&["VoidEmulator", "data", "qemu", "qemu-system-i386.exe"]));
    assert_eq!(parts(&qemu_img_exe(a)).1, names(&["VoidEmulator", "data", "qemu", "qemu-img.exe"]));
    assert_eq!(parts(&adb_exe(a)).1, names(&["VoidEmulator", "data", "qemu", "adb.exe"]));
    assert_eq!(parts(&base_img(a)).1, names(&["VoidEmulator", "data", "images", "android.img"]));
    assert_eq!(parts(&instance_dir(a, "pixel")).1, names(&["VoidEmulator", "data", "instances", "pixel"]));
    assert_eq!(
        parts(&overlay_path(a, "pixel")).1,
        names(&["VoidEmulator", "data", "instances", "pixel", "overlay.qcow2"])
    );
    assert_eq!(parts(&instances_json(a)).1, names(&["VoidEmulator", "instances.json"]));
    assert_eq!(parts(&download_cache(a)).1, names(&["VoidEmulator", "downloads"]));
    assert_eq!(parts(&downloads_dir(Some("C:\\Users\\me"))), ("C:\\Users\\me".to_string(), names(&["Downloads"])));
    assert_eq!(parts(&downloads_dir(None)).0, "C:\\Users\\Public");
}

#[test]
fn ports_and_devices() {
    assert_eq!(adb_port(0), 5554);
    assert_eq!(adb_port(1), 5556);
    assert_eq!(adb_port(10), 5574);
    assert_eq!(device_address(5556), "127.0.0.1:5556");
    assert_eq!(capture_file_name("pixel"), "void_pixel.png");
}

#[test]
fn qemu_command_line() {
    assert_eq!(
        qemu_launch_args("C:\\d\\overlay.qcow2", 5556),
        names(&[
            "-m", "1024", "-smp", "2", "-drive", "file=C:\\d\\overlay.qcow2,format=qcow2", "-net",
            "nic", "-net", "user,hostfwd=tcp:127.0.0.1:5556-:5555", "-vga", "std", "-usb",
            "-device", "usb-tablet", "-no-reboot", "-display", "none",
        ])
    );
    assert_eq!(
        overlay_create_args("base.img", "o.qcow2"),
        names(&["create", "-f", "qcow2", "-b", "base.img", "-F", "raw", "o.qcow2"])
    );
    assert_eq!(kill_args(4242), names(&["/F", "/PID", "4242"]));
}

#[test]
fn adb_command_lines() {
    let d = "127.0.0.1:5554";
    assert_eq!(adb_connect_args(d), names(&["connect", d]));
    assert_eq!(adb_screencap_args(d), names(&["-s", d, "shell", "screencap", "-p", "/sdcard/sc.png"]));
    assert_eq!(adb_pull_args(d, "/sdcard/x", "C:\\t\\x"), names(&["-s", d, "pull", "/sdcard/x", "C:\\t\\x"]));
    assert_eq!(adb_push_args(d, "C:\\t\\u", "/sdcard/u"), names(&["-s", d, "push", "C:\\t\\u", "/sdcard/u"]));
}

#[test]
fn setup_status_ready_only_when_all_present() {
    assert!(SetupStatus { qemu: true, adb: true, image: true }.ready());
    assert!(!SetupStatus { qemu: true, adb: false, image: true }.ready());
    assert!(!SetupStatus { qemu: false, adb: true, image: true }.ready());
    assert!(!SetupStatus { qemu: true, adb: true, image: false }.ready());
}

#[test]
fn registry_gives_back_what_was_recorded() {
    let mut r = InstanceRegistry::new();
    assert_eq!(r.take("a"), None);
    r.record("a".to_string(), 10);
    r.record("b".to_string(), 20);
    r.record("a".to_string(), 11);
    assert_eq!(r.take("a"), Some(11));
    assert_eq!(r.take("a"), None);
    assert_eq!(r.take("b"), Some(20));
    assert_eq!(r.take("b"), None);
}

#[test]
fn base64_of_screen_bytes() {
    let data: Vec<u8> = (0..=255u8).collect();
    let out = base64_encode(&data);
    assert_eq!(out.len(), 4 * ((data.len() + 2) / 3));
    assert!(out.starts_with("AAECAwQFBgcICQoLDA0ODxAREhMUFRYXGBkaGxwdHh8g"));
    assert!(out.ends_with("+/w=="));
    // a whole number of groups encodes part by part
    assert_eq!(base64_encode(b"foobar"), format!("{}{}", base64_encode(b"foo"), base64_encode(b"bar")));
    assert!(out.chars().all(|c| c.is_ascii_alphanumeric() || c == '+' || c == '/' || c == '='));
}

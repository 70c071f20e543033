use keymapper::config_path::{
    config_candidates, find_config_path, join_path, linux_config_dir, macos_config_dir,
    search_location_lines, windows_config_dir,
};
use keymapper::text::{push_decimal, push_hex4, str_chars};
use keymapper::util::platform::appnames_cmd::{
    app_name_for, class_names, description_text, distinct_names, file_description_path,
    file_stem, name_stem, strip_trailing_nuls, to_utf16_null, utf16_to_string, window_owner_names,
    wm_class_name,
};
use keymapper::util::platform::keys_cmd::{
    is_modifier, key_names, probe_key_down, probe_key_event, probe_line, probe_vk_event,
    ProbeAction,
};
use keymapper::util::platform::server_cmd::{
    exe_image_name, image_listed, spawn_failure, to_wide, verify_start, wide_eq, DAEMON_NAME,
};
use keymapper::util::sorting::sorted_unique;

fn strings(items: &[&str]) -> Vec<String> {
    items.iter().map(|s| s.to_string()).collect()
}

// ---------------------------------------------------------------------------
// Text helpers
// ---------------------------------------------------------------------------

#[test]
fn number_formatting() {
    let mut s = String::from("n=");
    push_decimal(&mut s, 0);
    s.push(' ');
    push_decimal(&mut s, 65535);
    s.push(' ');
    push_hex4(&mut s, 0x040c);
    s.push(' ');
    push_hex4(&mut s, 0xbeef);
    assert_eq!(s, "n=0 65535 040c beef");
    assert_eq!(str_chars("añ"), vec!['a', 'ñ']);
}

#[test]
fn sorting_drops_repeats() {
    let names = strings(&["zsh", "Zed", "ärger", "alpha", "zsh", ""]);
    assert_eq!(sorted_unique(&names), strings(&["", "Zed", "alpha", "zsh", "ärger"]));
}

// ---------------------------------------------------------------------------
// Configuration search
// ---------------------------------------------------------------------------

#[test]
fn path_joining() {
    assert_eq!(join_path("/home/u", "x", '/'), "/home/u/x");
    assert_eq!(join_path("/home/u/", "x", '/'), "/home/u/x");
    assert_eq!(join_path("", "x", '/'), "x");
    assert_eq!(join_path("C:\\Users", "x", '\\'), "C:\\Users\\x");
    assert_eq!(join_path("C:/Users/", "x", '\\'), "C:/Users/x");
}

#[test]
fn platform_config_directories() {
    assert_eq!(
        macos_config_dir(Some("/Users/me".to_string()), '/'),
        Some("/Users/me/Library/Application Support/keymapperd".to_string())
    );
    assert_eq!(macos_config_dir(None, '/'), None);
    assert_eq!(
        linux_config_dir(Some("/xdg".to_string()), Some("/home/me".to_string()), '/'),
        Some("/xdg/keymapperd".to_string())
    );
    assert_eq!(
        linux_config_dir(None, Some("/home/me".to_string()), '/'),
        Some("/home/me/.config/keymapperd".to_string())
    );
    assert_eq!(linux_config_dir(None, None, '/'), None);
    assert_eq!(
        windows_config_dir(Some("C:\\Users\\me\\AppData\\Roaming".to_string()), '\\'),
        Some("C:\\Users\\me\\AppData\\Roaming\\keymapperd".to_string())
    );
}

#[test]
fn config_search_order() {
    let c = config_candidates(Some("/cfg/keymapperd".to_string()), '/');
    assert_eq!(c, strings(&["/cfg/keymapperd/config.yaml", "./config.yaml"]));
    assert_eq!(config_candidates(None, '/'), strings(&["./config.yaml"]));
    assert_eq!(find_config_path(&c, &vec![true, true]), Some("/cfg/keymapperd/config.yaml".to_string()));
    assert_eq!(find_config_path(&c, &vec![false, true]), Some("./config.yaml".to_string()));
    assert_eq!(find_config_path(&c, &vec![false, false]), None);
}

#[test]
fn search_location_message() {
    let lines = search_location_lines(Some("/cfg/keymapperd".to_string()));
    assert_eq!(lines.len(), 3);
    assert!(lines[0].starts_with("No configuration file found (config.yaml)."));
    assert_eq!(lines[1], "  1. /cfg/keymapperd");
    assert_eq!(lines[2], "  2. Current working directory");
    assert_eq!(search_location_lines(None).len(), 2);
}

// ---------------------------------------------------------------------------
// Application names
// ---------------------------------------------------------------------------

#[test]
fn wm_class_values() {
    assert_eq!(strip_trailing_nuls(b"firefox\0"), "firefox");
    assert_eq!(strip_trailing_nuls(b"Firefox\0\0"), "Firefox");
    assert_eq!(strip_trailing_nuls(b"XTerm"), "XTerm");
    assert_eq!(strip_trailing_nuls(b""), "");
    assert_eq!(strip_trailing_nuls(b"a\0b\0"), "a\0b");
    assert_eq!(strip_trailing_nuls(b"bad\xff"), "bad\u{fffd}");
    assert_eq!(wm_class_name(b"navigator\0Firefox\0"), "Firefox");
    assert_eq!(wm_class_name(b"xterm"), "xterm");
    assert_eq!(wm_class_name(b"only\0"), "");
}

#[test]
fn class_names_are_sorted_and_unique() {
    let raws = vec![
        b"navigator\0Firefox\0".to_vec(),
        Vec::new(),
        b"term\0Alacritty\0".to_vec(),
        b"nav2\0Firefox\0".to_vec(),
        b"noclass\0".to_vec(),
    ];
    assert_eq!(class_names(&raws), strings(&["Alacritty", "Firefox"]));
}

#[test]
fn utf16_text() {
    let units: Vec<u16> = "Chrome".encode_utf16().chain([0, 65, 66]).collect();
    assert_eq!(utf16_to_string(&units), "Chrome");
    assert_eq!(utf16_to_string(&[0xD800, 0x41]), "\u{fffd}A");
    // Written as a NUL-terminated buffer and read back.
    let text = "Fire\u{1D11E}fox \u{e9}";
    assert_eq!(utf16_to_string(&to_utf16_null(text)), text);
    // A surrogate pair, a lone trailing surrogate and a leading one at the end.
    assert_eq!(
        utf16_to_string(&[0xD834, 0xDD1E, 0x6D, 0xDD1E, 0x69, 0xD834, 0]),
        "\u{1D11E}m\u{fffd}i\u{fffd}"
    );
    assert_eq!(to_utf16_null("é𝄞"), vec![0xE9, 0xD834, 0xDD1E, 0]);
    assert_eq!(description_text(&[0]), None);
    assert_eq!(description_text(&[0x47, 0x6F, 0]), Some("Go".to_string()));
}

#[test]
fn version_resource_path() {
    assert_eq!(
        file_description_path(&[0x0409, 0x04b0]),
        Some("\\StringFileInfo\\040904b0\\FileDescription".to_string())
    );
    assert_eq!(file_description_path(&[0x0409]), None);
}

#[test]
fn file_stems() {
    assert_eq!(name_stem(Some("chrome.exe".to_string())), "chrome");
    assert_eq!(name_stem(Some("archive.tar.gz".to_string())), "archive.tar");
    assert_eq!(name_stem(Some(".bashrc".to_string())), ".bashrc");
    assert_eq!(name_stem(Some("README".to_string())), "README");
    assert_eq!(name_stem(Some("trailing.".to_string())), "trailing");
    assert_eq!(name_stem(None), "");
    assert_eq!(file_stem("/opt/google/chrome/chrome.exe"), "chrome");
    assert_eq!(file_stem(""), "");
    assert_eq!(app_name_for(Some("Google Chrome".to_string()), "/x/chrome.exe"), "Google Chrome");
    assert_eq!(app_name_for(None, "/x/chrome.exe"), "chrome");
    // A Windows path: its last component where `\` separates components,
    // the whole text where only `/` does.
    let exe = r"C:\Program Files\Google\Chrome\Application\chrome.exe";
    let stem = file_stem(exe);
    assert!(stem == "chrome" || stem == r"C:\Program Files\Google\Chrome\Application\chrome");
    assert_eq!(app_name_for(None, exe), stem);
    assert!(!file_stem(r"D:tools\make.exe").is_empty());
}

#[test]
fn distinct_visible_names() {
    let names = strings(&["Code", "", "Alpha", "Code"]);
    assert_eq!(distinct_names(&names), strings(&["Alpha", "Code"]));
}

#[test]
fn window_owners_once_per_name() {
    let windows = vec![
        (300, "Safari".to_string()),
        (0, "Window Server".to_string()),
        (12, "Finder".to_string()),
        (200, "Safari".to_string()),
        (12, "Finder".to_string()),
        (7, String::new()),
    ];
    assert_eq!(window_owner_names(&windows), strings(&["Finder", "Safari"]));
    let two_processes = vec![(10, "Safari".to_string()), (11, "Safari".to_string())];
    assert_eq!(window_owner_names(&two_processes), strings(&["Safari"]));
}

// ---------------------------------------------------------------------------
// Keys
// ---------------------------------------------------------------------------

#[test]
fn key_name_list() {
    let names = key_names();
    assert_eq!(names.len(), 101);
    assert_eq!(names[0], "0");
    assert_eq!(names[names.len() - 1], "Z");
    let mut sorted = names.clone();
    sorted.sort();
    assert_eq!(names, sorted);
}

#[test]
fn probe_lines() {
    assert_eq!(probe_line(53), "Escape: 53");
    assert_eq!(probe_line(0), "A: 0");
    assert_eq!(probe_line(200), "Unknown(200): 200");
    assert!(is_modifier(59));
    assert!(!is_modifier(53));
}

#[test]
fn probe_decisions() {
    assert_eq!(probe_key_down(53, true), ProbeAction::Exit);
    assert_eq!(probe_key_down(59, false), ProbeAction::Skip);
    assert_eq!(probe_key_down(53, false), ProbeAction::Print("Escape: 53".to_string()));

    // The evdev probe: KEY_LEFTCTRL is 29, KEY_RIGHTCTRL 97, KEY_ESC 1.
    // Control goes down, then Escape: stop.
    let (ctrl, action) = probe_key_event(false, 29, 1);
    assert!(ctrl);
    assert_eq!(action, ProbeAction::Skip);
    let (ctrl, action) = probe_key_event(ctrl, 1, 1);
    assert!(ctrl);
    assert_eq!(action, ProbeAction::Exit);
    // An auto-repeat of Control keeps it held.
    let (ctrl, action) = probe_key_event(true, 29, 2);
    assert!(ctrl);
    assert_eq!(action, ProbeAction::Skip);
    assert_eq!(probe_key_event(ctrl, 1, 1).1, ProbeAction::Exit);
    // Control released: Escape is printed, key-up is not.
    let (ctrl, _) = probe_key_event(true, 97, 0);
    assert!(!ctrl);
    assert_eq!(probe_key_event(false, 1, 1).1, ProbeAction::Print("escape: 1".to_string()));
    assert_eq!(probe_key_event(false, 1, 0).1, ProbeAction::Skip);
    // KEY_A is 30; 59 is F1 on Linux, not a modifier; 250 names no key.
    assert_eq!(probe_key_event(false, 30, 1).1, ProbeAction::Print("a: 30".to_string()));
    assert_eq!(probe_key_event(false, 59, 1).1, ProbeAction::Print("f1: 59".to_string()));
    assert_eq!(probe_key_event(false, 250, 1).1, ProbeAction::Print("Unknown(250): 250".to_string()));
    assert_eq!(probe_key_event(false, 42, 1).1, ProbeAction::Skip);

    assert_eq!(probe_vk_event(0x1B, true, true, 0), ProbeAction::Exit);
    assert_eq!(probe_vk_event(0xA2, true, false, 0), ProbeAction::Skip);
    assert_eq!(probe_vk_event(0, true, false, 0x61), ProbeAction::Print("A: 0".to_string()));
    assert_eq!(
        probe_vk_event(0xBA, true, false, 0x3B),
        ProbeAction::Print("Unknown(186, ;): 186".to_string())
    );
    assert_eq!(probe_vk_event(0xFF, true, false, 0x100), ProbeAction::Print("Unknown(255): 255".to_string()));
    assert_eq!(probe_vk_event(0x41, false, false, 0), ProbeAction::Skip);
}

// ---------------------------------------------------------------------------
// Daemon process
// ---------------------------------------------------------------------------

#[test]
fn start_outcome() {
    assert_eq!(verify_start(Ok(()), true), Ok(()));
    assert_eq!(
        verify_start(Ok(()), false),
        Err("daemon started but exited immediately".to_string())
    );
    assert_eq!(verify_start(Err("boom".to_string()), true), Err("boom".to_string()));
    assert_eq!(spawn_failure(DAEMON_NAME), "failed to start keymapperd");
}

#[test]
fn windows_image_names() {
    assert_eq!(exe_image_name("keymapperd"), "keymapperd.exe");
    assert_eq!(exe_image_name("keymapperd.exe"), "keymapperd.exe");
    assert_eq!(to_wide("ab"), vec![0x61, 0x62, 0]);
    assert!(wide_eq(&[0x61, 0, 0x7a], &[0x61, 0]));
    assert!(!wide_eq(&[0x61, 0x62], &[0x61, 0]));
    assert!(wide_eq(&[], &[0]));
    let mut entry: Vec<u16> = "keymapperd.exe".encode_utf16().collect();
    entry.extend([0, 0, 0]);
    let listed = vec![to_wide("explorer.exe"), entry];
    assert!(image_listed(&listed, DAEMON_NAME));
    assert!(!image_listed(&listed, "other"));
}

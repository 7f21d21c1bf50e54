use hook_inject::{detect_devkit_platform, devkit_archives, resolve_devkit_platform, resolve_devkit_versions};

#[test]
fn devkit_platform_for_known_targets() {
    assert_eq!(detect_devkit_platform("macos", "aarch64").unwrap(), "macos-arm64");
    assert_eq!(detect_devkit_platform("macos", "arm64").unwrap(), "macos-arm64");
    assert_eq!(detect_devkit_platform("macos", "x86_64").unwrap(), "macos-x86_64");
    assert_eq!(detect_devkit_platform("linux", "aarch64").unwrap(), "linux-arm64");
    assert_eq!(detect_devkit_platform("linux", "x86_64").unwrap(), "linux-x86_64");
    assert_eq!(detect_devkit_platform("windows", "arm64").unwrap(), "windows-arm64");
    assert_eq!(detect_devkit_platform("windows", "x86_64").unwrap(), "windows-x86_64");
}

#[test]
fn devkit_platform_rejects_unknown_targets() {
    let err = detect_devkit_platform("freebsd", "x86_64").unwrap_err();
    assert_eq!(err.message(), "unsupported platform for devkit download: freebsd-x86_64");
    assert!(detect_devkit_platform("linux", "riscv64").is_err());
}

#[test]
fn explicit_devkit_platform_wins() {
    let p = resolve_devkit_platform(Some("custom-os".to_string()), "plan9", "mips").unwrap();
    assert_eq!(p, "custom-os");
    let p = resolve_devkit_platform(None, "linux", "x86_64").unwrap();
    assert_eq!(p, "linux-x86_64");
}

#[test]
fn devkit_versions_start_with_default_without_repeats() {
    let supported = vec!["17.6.2".to_string(), "17.5.0".to_string(), "17.5.0".to_string()];
    let (versions, fallback) = resolve_devkit_versions("17.6.2", &supported, None);
    assert_eq!(versions, vec!["17.6.2", "17.5.0"]);
    assert!(fallback);
    let (versions, _) = resolve_devkit_versions("", &supported, None);
    assert_eq!(versions, vec!["17.6.2", "17.5.0"]);
}

#[test]
fn explicit_devkit_version_is_the_only_one() {
    let supported = vec!["17.6.2".to_string()];
    let (versions, fallback) = resolve_devkit_versions("17.6.2", &supported, Some("16.0.0".to_string()));
    assert_eq!(versions, vec!["16.0.0"]);
    assert!(!fallback);
}

#[test]
fn devkit_archives_per_platform() {
    let a = devkit_archives("17.6.2", "linux-x86_64");
    assert_eq!(a.len(), 1);
    assert_eq!(a[0].0, "frida-core-devkit-17.6.2-linux-x86_64.tar.xz");
    assert_eq!(
        a[0].1,
        "https://github.com/frida/frida/releases/download/17.6.2/frida-core-devkit-17.6.2-linux-x86_64.tar.xz"
    );
    let a = devkit_archives("17.6.2", "windows-arm64");
    assert_eq!(a.len(), 2);
    assert_eq!(a[0].0, "frida-core-devkit-17.6.2-windows-arm64.tar.xz");
    assert_eq!(a[1].0, "frida-core-devkit-17.6.2-windows-arm64.zip");
    assert_eq!(devkit_archives("1", "win").len(), 1);
}

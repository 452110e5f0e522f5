use kynk::platform::{is_unix_like, Platform};
use kynk::sys::{
    get_hostname, get_kernel, get_kernel_version, get_linux_distro, get_os, get_shell,
    get_syszaman, get_username, hostname_var, init, username_var, Readings, SystemInfos,
};

const OS_RELEASE: &str = "NAME=\"Foo\"\nVERSION=\"1.0\"\nPRETTY_NAME=\"Foo Bar\"\nID=foo\n";

#[test]
fn distro_pretty_name_is_read() {
    assert_eq!(get_linux_distro(Some(OS_RELEASE)), "Foo Bar");
}

#[test]
fn distro_missing_file_gives_generic_name() {
    assert_eq!(get_linux_distro(None), "GNU/Linux");
}

#[test]
fn distro_without_pretty_name_gives_generic_name() {
    assert_eq!(get_linux_distro(Some("NAME=\"Foo\"\nID=foo\n")), "GNU/Linux");
    assert_eq!(get_linux_distro(Some("")), "GNU/Linux");
    assert_eq!(get_linux_distro(Some("PRETTY_NAME=Foo\n")), "GNU/Linux");
}

#[test]
fn distro_first_pretty_name_wins() {
    let contents = "ID=x\nPRETTY_NAME=\"First\"\nPRETTY_NAME=\"Second\"\n";
    assert_eq!(get_linux_distro(Some(contents)), "First");
}

#[test]
fn distro_line_must_start_with_p() {
    let contents = "X_PRETTY_NAME=\"Skipped\"\nPRETTY_NAME=\"Taken\"";
    assert_eq!(get_linux_distro(Some(contents)), "Taken");
}

#[test]
fn distro_carriage_return_is_dropped() {
    let contents = "ID=x\r\nPRETTY_NAME=\"Foo Linux 9\"\r\nID_LIKE=y\r\n";
    assert_eq!(get_linux_distro(Some(contents)), "Foo Linux 9");
}

#[test]
fn kernel_version_keeps_last_segment() {
    assert_eq!(get_kernel_version(Some("5.15.0-76-generic\n")), "generic");
    assert_eq!(get_kernel_version(Some("6.1.0-arch1")), "arch1");
}

#[test]
fn kernel_version_without_hyphen_is_unknown() {
    assert_eq!(get_kernel_version(Some("5.15.0\n")), "Unknown");
    assert_eq!(get_kernel_version(Some("")), "Unknown");
    assert_eq!(get_kernel_version(Some("5.15.0-\n")), "Unknown");
}

#[test]
fn kernel_version_failed_query_is_unknown() {
    assert_eq!(get_kernel_version(None), "Unknown");
}

#[test]
fn uptime_is_translated() {
    assert_eq!(get_syszaman(Some("up 2 hours, 10 minutes\n")), "2 saat, 10 dakkikadir");
    assert_eq!(
        get_syszaman(Some("up 3 days, 1 hour, 1 minute\n")),
        "3 gün, 1 saat, 1 dakkikadir"
    );
    assert_eq!(get_syszaman(Some("up 1 day\n")), "1 gün");
}

#[test]
fn uptime_failed_query_is_unknown() {
    assert_eq!(get_syszaman(None), "Unknown");
}

#[test]
fn shell_base_name() {
    assert_eq!(get_shell(Some("/usr/bin/zsh")), "zsh");
    assert_eq!(get_shell(Some("bash")), "bash");
    assert_eq!(get_shell(Some("/bin/my shell")), "shell");
}

#[test]
fn shell_unset_is_unknown() {
    assert_eq!(get_shell(None), "Unknown");
}

#[test]
fn identity_values() {
    assert_eq!(get_username(Some("ayse")), "ayse");
    assert_eq!(get_username(None), "Unknown");
    assert_eq!(get_hostname(Some("box")), "box");
    assert_eq!(get_hostname(None), "Unknown");
}

#[test]
fn identity_variable_names() {
    assert_eq!(username_var(Platform::Linux), "USER");
    assert_eq!(username_var(Platform::Windows), "USERNAME");
    assert_eq!(hostname_var(Platform::Linux), "HOSTNAME");
    assert_eq!(hostname_var(Platform::MacOs), "COMPUTERNAME");
}

#[test]
fn os_table() {
    assert_eq!(get_os(Platform::Windows, None), "Windows");
    assert_eq!(get_os(Platform::MacOs, None), "macOS");
    assert_eq!(get_os(Platform::Ios, None), "iOS");
    assert_eq!(get_os(Platform::Android, None), "Android");
    assert_eq!(get_os(Platform::FreeBsd, None), "FreeBSD");
    assert_eq!(get_os(Platform::DragonFly, None), "DragonflyBSD");
    assert_eq!(get_os(Platform::OpenBsd, None), "OpenBSD");
    assert_eq!(get_os(Platform::NetBsd, None), "NetBSD");
    assert_eq!(get_os(Platform::Other, None), "Unknown");
    assert_eq!(get_os(Platform::Linux, Some(OS_RELEASE)), "Foo Bar");
    assert_eq!(get_os(Platform::Linux, None), "GNU/Linux");
}

#[test]
fn kernel_table() {
    let out = Some("5.15.0-76-generic\n");
    assert_eq!(get_kernel(Platform::Windows, out), "NT");
    assert_eq!(get_kernel(Platform::MacOs, out), "XNU");
    assert_eq!(get_kernel(Platform::Ios, out), "XNU");
    assert_eq!(get_kernel(Platform::FreeBsd, out), "BSD");
    assert_eq!(get_kernel(Platform::DragonFly, out), "BSD");
    assert_eq!(get_kernel(Platform::OpenBsd, out), "BSD");
    assert_eq!(get_kernel(Platform::NetBsd, out), "BSD");
    assert_eq!(get_kernel(Platform::Linux, out), "generic");
    assert_eq!(get_kernel(Platform::Android, out), "generic");
    assert_eq!(get_kernel(Platform::Other, out), "Unknown");
}

#[test]
fn unix_family() {
    for p in [
        Platform::Linux,
        Platform::FreeBsd,
        Platform::OpenBsd,
        Platform::MacOs,
        Platform::Ios,
        Platform::DragonFly,
        Platform::NetBsd,
    ] {
        assert!(is_unix_like(p));
    }
    assert!(!is_unix_like(Platform::Windows));
    assert!(!is_unix_like(Platform::Android));
    assert!(!is_unix_like(Platform::Other));
}

#[test]
fn platform_identifiers() {
    assert_eq!(Platform::from_id("linux"), Platform::Linux);
    assert_eq!(Platform::from_id("windows"), Platform::Windows);
    assert_eq!(Platform::from_id("macos"), Platform::MacOs);
    assert_eq!(Platform::from_id("ios"), Platform::Ios);
    assert_eq!(Platform::from_id("android"), Platform::Android);
    assert_eq!(Platform::from_id("freebsd"), Platform::FreeBsd);
    assert_eq!(Platform::from_id("dragonfly"), Platform::DragonFly);
    assert_eq!(Platform::from_id("openbsd"), Platform::OpenBsd);
    assert_eq!(Platform::from_id("netbsd"), Platform::NetBsd);
    assert_eq!(Platform::from_id("solaris"), Platform::Other);
    assert_eq!(Platform::from_id(""), Platform::Other);
    assert!(is_unix_like(Platform::from_id("netbsd")));
    assert!(!is_unix_like(Platform::from_id("windows")));
}

fn all_filled(info: &SystemInfos) -> bool {
    !info.os_name.is_empty()
        && !info.kernel.is_empty()
        && !info.username.is_empty()
        && !info.hostname.is_empty()
        && !info.shell.is_empty()
        && !info.uptime.is_empty()
}

#[test]
fn init_with_every_reading_missing() {
    for p in [Platform::Linux, Platform::Windows, Platform::Android, Platform::Other] {
        let readings = Readings {
            platform: p,
            os_release: None,
            kernel_release: None,
            uptime: None,
            username: None,
            hostname: None,
            shell: None,
        };
        let info = init(&readings);
        assert!(all_filled(&info));
        assert_eq!(info.username, "Unknown");
        assert_eq!(info.shell, "Unknown");
        assert_eq!(info.uptime, "Unknown");
    }
}

#[test]
fn init_with_empty_readings() {
    let readings = Readings {
        platform: Platform::Linux,
        os_release: Some("PRETTY_NAME=\"\"\n".to_string()),
        kernel_release: Some("".to_string()),
        uptime: Some("up \n".to_string()),
        username: Some("".to_string()),
        hostname: Some("".to_string()),
        shell: Some("/bin/".to_string()),
    };
    let info = init(&readings);
    assert!(all_filled(&info));
    assert_eq!(info.os_name, "Unknown");
    assert_eq!(info.shell, "Unknown");
    assert_eq!(info.uptime, "Unknown");
}

#[test]
fn init_on_linux() {
    let readings = Readings {
        platform: Platform::Linux,
        os_release: Some(OS_RELEASE.to_string()),
        kernel_release: Some("5.15.0-76-generic\n".to_string()),
        uptime: Some("up 2 hours, 10 minutes\n".to_string()),
        username: Some("ayse".to_string()),
        hostname: Some("box".to_string()),
        shell: Some("/usr/bin/zsh".to_string()),
    };
    let info = init(&readings);
    assert_eq!(info.os_name, "Foo Bar");
    assert_eq!(info.kernel, "generic");
    assert_eq!(info.username, "ayse");
    assert_eq!(info.hostname, "box");
    assert_eq!(info.shell, "zsh");
    assert_eq!(info.uptime, "2 saat, 10 dakkikadir");
}

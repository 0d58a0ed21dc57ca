use eprinty::sysinfo::{
    check_webview2_installed, linux_version_text, lsb_description, macos_version_text,
    os_release_version, registry_string, webview2_pv_ok, windows_os_name, windows_version_info,
    WebView2Checks,
};
use eprinty::win_bootstrap::{materialize_source, materialize_target, MaterializeError};
use eprinty::win_driver::{driver_candidates, extract_published_name, stage_args, stage_verdict};
use eprinty::win_extract::ExtractError;
use eprinty::win_infpath::InfPathError;

fn parts(p: &[&str]) -> Vec<String> {
    p.iter().map(|s| s.to_string()).collect()
}

#[test]
fn windows_versions() {
    assert_eq!(windows_os_name(&Some("22631".to_string()), &None), "Windows 11");
    assert_eq!(windows_os_name(&Some("19045".to_string()), &Some("Windows 11 Pro".to_string())), "Windows 10");
    assert_eq!(windows_os_name(&Some("x".to_string()), &Some("Windows 10 Pro".to_string())), "Windows 10");
    assert_eq!(windows_os_name(&None, &Some("Server".to_string())), "Windows");
    let v = windows_version_info(
        Some("Windows 10 Pro".to_string()),
        Some("23H2".to_string()),
        Some("22631".to_string()),
        Some(3007),
    );
    assert_eq!(v.os_display.as_deref(), Some("Windows 11 23H2 (Build 22631.3007)"));
    assert_eq!(v.os_version, "Windows 11 23H2 (Build 22631.3007)");
    let v = windows_version_info(None, None, Some("19045".to_string()), None);
    assert_eq!(v.os_version, "Windows 10 (Build 19045)");
    let v = windows_version_info(None, None, None, None);
    assert_eq!(v.os_version, "Windows");
}

#[test]
fn registry_strings() {
    let buf: Vec<u16> = "23H2\0\0".encode_utf16().collect();
    assert_eq!(registry_string(&buf, 12), "23H2");
    assert_eq!(registry_string(&buf, 4), "23");
}

#[test]
fn macos_and_linux_versions() {
    assert_eq!(
        macos_version_text(Ok((true, b"macOS\n".to_vec())), Some(Ok((true, b"14.4\n".to_vec())))),
        Ok("macOS 14.4".to_string())
    );
    assert_eq!(macos_version_text(Ok((true, b"macOS\n".to_vec())), Some(Ok((false, vec![])))), Ok("macOS".to_string()));
    assert_eq!(macos_version_text(Ok((false, vec![])), None), Err("无法获取 macOS 版本信息".to_string()));
    assert_eq!(macos_version_text(Err("no sw_vers".to_string()), None), Err("执行 sw_vers 失败: no sw_vers".to_string()));
    let os_release = "NAME=\"Ubuntu\"\nVERSION=\"22.04\"\nVERSION_ID=\"22.04\"\n";
    assert_eq!(os_release_version(os_release), Some("Ubuntu 22.04".to_string()));
    assert_eq!(os_release_version("VERSION_ID=1\n"), None);
    assert_eq!(lsb_description("Description:\tDebian GNU/Linux 12 (bookworm)\n"), Some("Debian GNU/Linux 12 (bookworm)".to_string()));
    assert_eq!(
        linux_version_text(None, Some((true, b"Description: Fedora 39\n".to_vec()))),
        Ok("Fedora 39".to_string())
    );
    assert_eq!(linux_version_text(None, None), Err("无法获取 Linux 版本信息".to_string()));
}

#[test]
fn webview2_detection() {
    assert!(webview2_pv_ok(true, b"    pv    REG_SZ    120.0.2210.91\r\n"));
    assert!(!webview2_pv_ok(true, b"    pv    REG_SZ    0.0.0.0\r\n"));
    assert!(!webview2_pv_ok(false, b"pv REG_SZ 1.0"));
    let none = WebView2Checks { wow_query: None, native_query_ok: false, loader_in_runtime: false, system_loader: false };
    assert!(!check_webview2_installed(&none));
    let dll = WebView2Checks { wow_query: None, native_query_ok: false, loader_in_runtime: false, system_loader: true };
    assert!(check_webview2_installed(&dll));
}

#[test]
fn bootstrap_paths() {
    let root = parts(&["C:", "x", "extracted"]);
    assert_eq!(materialize_source(&root, Some("contains_drivers_dir")), parts(&["C:", "x", "extracted", "drivers"]));
    assert_eq!(materialize_source(&root, Some("flat")), root);
    let drivers = parts(&["C:", "app", "drivers"]);
    let (dest, top) = materialize_target(&parts(&["C:", "x", "extracted", "hp", "hp.inf"]), &root, &drivers).unwrap();
    assert_eq!(dest, parts(&["C:", "app", "drivers", "hp", "hp.inf"]));
    assert!(!top);
    let (_, top) = materialize_target(&parts(&["C:", "x", "extracted", "hp"]), &root, &drivers).unwrap();
    assert!(top);
    assert!(materialize_target(&parts(&["D:", "y"]), &root, &drivers).is_none());
}

#[test]
fn error_texts() {
    assert_eq!(
        MaterializeError::SourceNotFound { src_root: "C:\\s".to_string() }.message(),
        "源目录不存在: C:\\s"
    );
    assert_eq!(
        MaterializeError::DestCreationFailed { dest_root: "C:\\d".to_string(), error: "denied".to_string() }.message(),
        "目标目录创建失败: C:\\d | 错误: denied"
    );
    assert_eq!(ExtractError::ZipNotFound { zip_path: "a.zip".to_string() }.message(), "ZIP 文件不存在: a.zip");
    assert_eq!(
        InfPathError::MissingLocalDriverInf { effective_path: "e".to_string(), inf_abs_path: "C:/e".to_string() }.message(),
        InfPathError::MissingLocalDriverInf { effective_path: "e".to_string(), inf_abs_path: "C:/e".to_string() }.message()
    );
}

#[test]
fn pnputil_staging() {
    assert_eq!(stage_args("C:\\d\\a.inf"), vec!["/add-driver", "C:\\d\\a.inf", "/install", "/subdirs"]);
    assert_eq!(
        extract_published_name("正在添加驱动程序包: a.inf\n发布名称: oem12.inf\n"),
        Some("oem12.inf".to_string())
    );
    assert_eq!(
        extract_published_name("Adding driver package: a.inf\nPublished Name: OEM7.INF\r\n"),
        None
    );
    assert_eq!(extract_published_name("Published name:  oem7.inf  \n"), Some("oem7.inf".to_string()));
    assert_eq!(extract_published_name("nothing"), None);
    let ok = stage_verdict("a.inf", Some(0), "Driver package added successfully.", "").ok().unwrap();
    assert_eq!(ok.output_text, "Driver package added successfully.");
    assert_eq!(ok.exit_code, Some(0));
    assert_eq!(
        stage_verdict("a.inf", Some(2), "out", "err").err(),
        Some("pnputil stage 失败 (exit code: Some(2))\n\n完整输出:\nout\nerr".to_string())
    );
    assert!(stage_verdict("a.inf", Some(5), "Access is denied.", "")
        .err()
        .unwrap()
        .starts_with("pnputil stage 失败（权限拒绝）。请以管理员身份运行"));
    assert_eq!(
        driver_candidates(&vec![" HP ".to_string(), "".to_string(), "Canon".to_string()]),
        vec!["HP".to_string(), "Canon".to_string()]
    );
}

#[test]
fn decode_off_windows_is_lossy_utf8() {
    assert_eq!(eprinty::platform::decode_windows_string("打印机".as_bytes()), "打印机");
    assert_eq!(eprinty::platform::decode_windows_string(&[0x41, 0xC4, 0xE3]), "A\u{FFFD}\u{FFFD}");
}

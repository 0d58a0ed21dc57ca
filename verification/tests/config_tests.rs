use eprinty::config::{
    config_different, resolve_effective_driver_spec, validate_printer_config_v2, Area, City,
    DriverCatalog, DriverCatalogEntry, DriverLocalSpec, DriverRemoteSpec, Printer, PrinterConfig,
};
use eprinty::version::{compare_versions, version_check_result, VersionConfig};

fn printer(name: &str, path: &str, key: Option<&str>) -> Printer {
    Printer {
        name: name.to_string(),
        path: path.to_string(),
        model: None,
        driver_path: None,
        driver_names: None,
        install_mode: None,
        driver_key: key.map(|k| k.to_string()),
    }
}

fn entry(inf: Option<&str>, names: Option<Vec<&str>>, remote: Option<DriverRemoteSpec>) -> DriverCatalogEntry {
    DriverCatalogEntry {
        install_mode: Some("package".to_string()),
        local: Some(DriverLocalSpec {
            inf_rel: inf.map(|s| s.to_string()),
            driver_names: names.map(|v| v.into_iter().map(|s| s.to_string()).collect()),
        }),
        remote,
    }
}

fn config(version: Option<&str>, catalog: Option<DriverCatalog>, printers: Vec<Printer>) -> PrinterConfig {
    PrinterConfig {
        version: version.map(|v| v.to_string()),
        driver_catalog: catalog,
        cities: vec![City {
            city_id: "sh".to_string(),
            city_name: "上海".to_string(),
            areas: vec![Area { area_name: "1F".to_string(), printers }],
        }],
    }
}

fn catalog_with(key: &str) -> DriverCatalog {
    let mut c = DriverCatalog::new();
    c.insert(key.to_string(), entry(Some("drv/x.inf"), Some(vec!["HP Universal"]), None));
    c
}

#[test]
fn validate_rejects_missing_catalog() {
    let c = config(None, None, vec![]);
    let e = validate_printer_config_v2(&c).unwrap_err();
    assert!(e.starts_with("【配置校验失败】缺少 driverCatalog。"));
}

#[test]
fn validate_rejects_empty_catalog() {
    let c = config(None, Some(DriverCatalog::new()), vec![]);
    assert_eq!(
        validate_printer_config_v2(&c),
        Err("【配置校验失败】driverCatalog 为空。请添加至少一个驱动条目".to_string())
    );
}

#[test]
fn validate_rejects_missing_driver_key() {
    let c = config(None, Some(catalog_with("hp")), vec![printer("P1", "192.168.1.5", None)]);
    assert_eq!(
        validate_printer_config_v2(&c),
        Err("【配置校验失败】打印机 'P1' (路径: 192.168.1.5) 缺少 driverKey。请在 printer_config.json 中补齐此字段".to_string())
    );
}

#[test]
fn validate_rejects_unknown_driver_key() {
    let c = config(None, Some(catalog_with("hp")), vec![printer("P1", "192.168.1.5", Some("canon"))]);
    assert_eq!(
        validate_printer_config_v2(&c),
        Err("【配置校验失败】打印机 'P1' 引用的 driverKey='canon' 在 driverCatalog 中不存在。\n\n已定义的 driverKey：['hp']".to_string())
    );
}

#[test]
fn validate_rejects_legacy_fields() {
    let mut p = printer("P1", "192.168.1.5", Some("hp"));
    p.driver_path = Some("a.inf".to_string());
    p.install_mode = Some("auto".to_string());
    let c = config(None, Some(catalog_with("hp")), vec![p]);
    assert_eq!(
        validate_printer_config_v2(&c),
        Err("【配置校验失败】打印机 'P1' (路径: 192.168.1.5) 仍包含已废弃的字段: driver_path, install_mode。\n\n这些字段已迁移至 driverCatalog，请从 printer 节点删除".to_string())
    );
}

#[test]
fn validate_accepts_good_config() {
    let mut p = printer("P1", "192.168.1.5", Some("hp"));
    p.driver_names = Some(vec![]);
    let c = config(Some("2.0.0"), Some(catalog_with("hp")), vec![p]);
    assert_eq!(validate_printer_config_v2(&c), Ok(()));
}

#[test]
fn catalog_insert_replaces_and_reads_back() {
    let mut c = DriverCatalog::new();
    assert!(c.is_empty());
    c.insert("hp".to_string(), entry(Some("a.inf"), None, None));
    c.insert("canon".to_string(), entry(Some("b.inf"), None, None));
    c.insert("hp".to_string(), entry(Some("c.inf"), None, None));
    assert_eq!(c.len(), 2);
    assert!(c.contains_key("canon"));
    assert!(!c.contains_key("epson"));
    let e = c.get("hp").unwrap();
    assert_eq!(e.local.as_ref().unwrap().inf_rel.as_deref(), Some("c.inf"));
    assert_eq!(c.keys(), vec!["hp".to_string(), "canon".to_string()]);
}

#[test]
fn effective_spec_from_catalog() {
    let mut cat = DriverCatalog::new();
    cat.insert(
        "hp".to_string(),
        entry(
            Some("hp/hp.inf"),
            Some(vec![]),
            Some(DriverRemoteSpec {
                url: Some("https://example.com/hp.zip".to_string()),
                sha256: Some("ab".repeat(32)),
                version: Some("1".to_string()),
                layout: None,
            }),
        ),
    );
    let mut p = printer("P1", "10.0.0.2", Some("hp"));
    p.driver_names = Some(vec!["Legacy Name".to_string()]);
    let spec = resolve_effective_driver_spec(&p, Some(&cat));
    assert_eq!(spec.source, "catalog");
    assert_eq!(spec.effective_install_mode.as_deref(), Some("package"));
    assert_eq!(spec.effective_driver_path.as_deref(), Some("hp/hp.inf"));
    assert_eq!(spec.effective_driver_names, vec!["Legacy Name".to_string()]);
    assert_eq!(spec.driver_key_used.as_deref(), Some("hp"));
    let remote = spec.remote_driver.unwrap();
    assert_eq!(remote.url, "https://example.com/hp.zip");
    assert_eq!(remote.driver_key, "hp");
}

#[test]
fn effective_spec_remote_needs_url_and_checksum() {
    let mut cat = DriverCatalog::new();
    cat.insert(
        "hp".to_string(),
        entry(
            None,
            None,
            Some(DriverRemoteSpec { url: Some("  ".to_string()), sha256: Some("x".to_string()), version: None, layout: None }),
        ),
    );
    let spec = resolve_effective_driver_spec(&printer("P1", "10.0.0.2", Some("hp")), Some(&cat));
    assert!(spec.remote_driver.is_none());
    assert_eq!(spec.effective_driver_path, None);
}

#[test]
fn effective_spec_legacy_when_key_unknown() {
    let mut p = printer("P1", "10.0.0.2", Some("nope"));
    p.driver_path = Some("old.inf".to_string());
    p.install_mode = Some("legacy_inf".to_string());
    let spec = resolve_effective_driver_spec(&p, Some(&catalog_with("hp")));
    assert_eq!(spec.source, "legacy");
    assert_eq!(spec.effective_driver_path.as_deref(), Some("old.inf"));
    assert_eq!(spec.effective_install_mode.as_deref(), Some("legacy_inf"));
    assert!(spec.effective_driver_names.is_empty());
    assert_eq!(spec.driver_key_used, None);
    let spec2 = resolve_effective_driver_spec(&p, None);
    assert_eq!(spec2.source, "legacy");
}

#[test]
fn config_different_by_version_and_content() {
    let a = config(Some("1.0"), None, vec![printer("P1", "10.0.0.2", Some("hp"))]);
    let b = config(Some("1.0"), None, vec![printer("P1", "10.0.0.2", Some("hp"))]);
    assert!(!config_different(&a, &b));
    assert!(!config_different(&a, &a));
    let c = config(Some("1.1"), None, vec![printer("P1", "10.0.0.2", Some("hp"))]);
    assert!(config_different(&a, &c));
    assert!(config_different(&c, &a));
    let d = config(None, None, vec![printer("P1", "10.0.0.2", Some("hp"))]);
    assert!(config_different(&a, &d));
    let e = config(Some("1.0"), None, vec![printer("P1", "10.0.0.3", Some("hp"))]);
    assert!(config_different(&a, &e));
    let f = config(Some("1.0"), None, vec![]);
    assert!(config_different(&a, &f));
}

#[test]
fn versions_compare_numerically() {
    assert!(compare_versions("1.2.3", "1.2.4"));
    assert!(compare_versions("1.2", "1.10"));
    assert!(compare_versions("1.2", "1.2.1"));
    assert!(!compare_versions("1.2.0", "1.2"));
    assert!(!compare_versions("2.0.0", "1.9.9"));
    assert!(!compare_versions("1.0.0", "1.0.0"));
    assert!(compare_versions("1.x.2", "1.3"));
}

#[test]
fn version_check_reports_update() {
    let cfg = VersionConfig {
        app_name: "eprinty".to_string(),
        app_version: "1.3.0".to_string(),
        build_number: 130,
        release_date: "2024-01-01".to_string(),
        update_url: Some("https://example.com/app.exe".to_string()),
        update_type: "optional".to_string(),
        update_description: Some("新版本".to_string()),
        changelog: None,
        force_update: false,
        min_supported_version: None,
        download_size: None,
        checksum: None,
        printer_config: None,
    };
    let r = version_check_result("1.2.0", cfg);
    assert!(r.has_update);
    assert_eq!(r.current_version, "1.2.0");
    assert_eq!(r.latest_version, "1.3.0");
    assert_eq!(r.update_url.as_deref(), Some("https://example.com/app.exe"));
    assert_eq!(r.update_type, "optional");
    assert!(!r.force_update);
}

use eprinty::macos::{
    classify_lpstat_result, is_empty_destinations, is_valid_queue_name, parse_bool, parse_i32,
    parse_lpstat_description, parse_lpstat_device_uri, parse_queue_names_from_lpstat_v,
    queue_names_from_lpstat, stderr_snip, unique_valid_queue_names, LpstatResult,
};
use eprinty::macos_install::{
    build_queue_name, default_port_for_scheme, is_privilege_error, is_queue_not_found,
    normalize_uri_for_compare, normalize_uri_input, parse_device_target, parse_host_port,
    sanitize_queue_name, truncate_text,
};
use eprinty::test_page::{job_completed, lp_args, parse_job_id, print_job_id, test_page_result};

#[test]
fn truncate_text_keeps_short_and_cuts_long() {
    assert_eq!(truncate_text("hello", 10), "hello");
    assert_eq!(truncate_text("hello world", 5), "hello...");
    assert_eq!(truncate_text("hello", 5), "hello");
}

#[test]
fn privilege_errors_are_recognised() {
    assert!(is_privilege_error("lpadmin: Operation not permitted"));
    assert!(is_privilege_error("Authentication required"));
    assert!(is_privilege_error("must be run with SUDO"));
    assert!(!is_privilege_error("lpadmin: Bad device-uri"));
}

#[test]
fn missing_queue_is_recognised() {
    assert!(is_queue_not_found("lpoptions: Unknown destination \"x\"."));
    assert!(is_queue_not_found("lpstat: 无效目的位置名称"));
    assert!(is_queue_not_found("No such queue: not found"));
    assert!(!is_queue_not_found("lpstat: server error"));
}

#[test]
fn uri_normalisation() {
    assert_eq!(normalize_uri_for_compare("  IPP://Host/IPP/Print \n"), "ipp://host/ipp/print");
    assert_eq!(normalize_uri_input(" ipp:10.0.0.5/ipp/print "), "ipp://10.0.0.5/ipp/print");
    assert_eq!(normalize_uri_input("ipps:host"), "ipps://host");
    assert_eq!(normalize_uri_input("socket:10.1.1.1:9100"), "socket://10.1.1.1:9100");
    assert_eq!(normalize_uri_input("lpd:host/queue"), "lpd://host/queue");
    assert_eq!(normalize_uri_input("ipp://already"), "ipp://already");
    assert_eq!(normalize_uri_input("10.0.0.5"), "10.0.0.5");
}

#[test]
fn default_ports_by_scheme() {
    assert_eq!(default_port_for_scheme("ipp"), 631);
    assert_eq!(default_port_for_scheme("ipps"), 631);
    assert_eq!(default_port_for_scheme("socket"), 9100);
    assert_eq!(default_port_for_scheme("lpd"), 515);
    assert_eq!(default_port_for_scheme("http"), 631);
}

#[test]
fn host_and_port_from_plain_addresses() {
    assert_eq!(parse_host_port("10.0.0.5"), Ok(("10.0.0.5".to_string(), None)));
    assert_eq!(parse_host_port(" \\\\10.0.0.5:9100/queue"), Ok(("10.0.0.5".to_string(), Some(9100))));
    assert_eq!(parse_host_port("//printer.local/x"), Ok(("printer.local".to_string(), None)));
    assert_eq!(parse_host_port("host:99999"), Err("端口号无效".to_string()));
    assert_eq!(parse_host_port("host:"), Err("端口号无效".to_string()));
    assert_eq!(parse_host_port("host:abc"), Ok(("host:abc".to_string(), None)));
    assert_eq!(parse_host_port("   "), Err("设备地址为空".to_string()));
}

#[test]
fn device_target_from_plain_host_and_uri() {
    let t = parse_device_target("10.0.0.5", "fallback").unwrap();
    assert_eq!(t.uri, "ipp://10.0.0.5/ipp/print");
    assert_eq!(t.host, "10.0.0.5");
    assert_eq!(t.port, 631);

    let t = parse_device_target("10.0.0.5:9100", "fallback").unwrap();
    assert_eq!(t.uri, "ipp://10.0.0.5:9100/ipp/print");
    assert_eq!(t.port, 9100);

    let t = parse_device_target("socket://10.0.0.7", "fallback").unwrap();
    assert_eq!(t.uri, "socket://10.0.0.7");
    assert_eq!(t.host, "10.0.0.7");
    assert_eq!(t.port, 9100);

    let t = parse_device_target("ipp:10.0.0.8:8631/ipp/print", "x").unwrap();
    assert_eq!(t.uri, "ipp://10.0.0.8:8631/ipp/print");
    assert_eq!(t.port, 8631);

    let t = parse_device_target("  ", "10.9.9.9").unwrap();
    assert_eq!(t.host, "10.9.9.9");

    assert!(parse_device_target("ipp://[::1", "x").err().unwrap().starts_with("无法解析设备 URI: "));
    assert_eq!(parse_device_target("mailto:x://y", "x").err().unwrap(), "URI 缺少 host");
}

#[test]
fn queue_names_follow_the_hash_scheme() {
    assert_eq!(build_queue_name("HP LaserJet 1F", "ipp://10.0.0.5/ipp/print"), "eprinty-HP-LaserJet-1F-6ebb28cb");
    assert_eq!(build_queue_name("财务室打印机", "socket://10.0.0.9:9100"), "eprinty-printer-dd37e9ec");
    // The URI counts up to case and surrounding spaces.
    assert_eq!(
        build_queue_name("HP LaserJet 1F", "  IPP://10.0.0.5/IPP/PRINT "),
        build_queue_name("HP LaserJet 1F", "ipp://10.0.0.5/ipp/print")
    );
    let long = "A".repeat(80);
    let q = build_queue_name(&long, "ipp://h");
    assert!(q.len() <= 63);
    assert!(is_valid_queue_name(&q));
    assert!(q.starts_with(&format!("eprinty-{}-", "A".repeat(46))));
}

#[test]
fn sanitized_queue_names() {
    assert_eq!(sanitize_queue_name("My Printer (2F)", 0), "My-Printer-2F");
    assert_eq!(sanitize_queue_name("---", 123456), "queue-3456");
    assert_eq!(sanitize_queue_name("a.b_c-d", 0), "a.b_c-d");
    let s = sanitize_queue_name(&"x".repeat(70), 0);
    assert_eq!(s.len(), 60);
}

#[test]
fn lpstat_device_lines() {
    let out = "device for Office: ipp://10.0.0.5/ipp/print\ndevice for Lab: socket://10.0.0.6\n";
    assert_eq!(parse_lpstat_device_uri("Lab", out), Some("socket://10.0.0.6".to_string()));
    assert_eq!(parse_lpstat_device_uri("Home", out), None);
    assert_eq!(
        parse_queue_names_from_lpstat_v(out),
        vec!["Office".to_string(), "Lab".to_string()]
    );
    assert_eq!(
        unique_valid_queue_names(vec!["A".to_string(), "bad name".to_string(), "A".to_string(), "B".to_string()]),
        vec!["A".to_string(), "B".to_string()]
    );
}

#[test]
fn lpstat_description_line() {
    let out = "Office\n\tDescription: Description: 2F Office\n\tLocation: 2F\n";
    assert_eq!(parse_lpstat_description(out), Some("Description: 2F Office".to_string()));
    assert_eq!(parse_lpstat_description("  Description:Description:X \n"), Some("X".to_string()));
    assert_eq!(parse_lpstat_description("nothing"), None);
}

#[test]
fn valid_queue_names() {
    assert!(is_valid_queue_name("Office_2F.main-1"));
    assert!(!is_valid_queue_name(""));
    assert!(!is_valid_queue_name("has space"));
    assert!(!is_valid_queue_name("中文"));
}

#[test]
fn lpstat_results_are_classified() {
    match classify_lpstat_result("lpstat", &["-v"], 0, "device for A: x", "") {
        LpstatResult::Data(d) => assert_eq!(d, "device for A: x"),
        _ => panic!("expected data"),
    }
    assert!(matches!(
        classify_lpstat_result("lpstat", &["-v"], 1, "", "lpstat: No destinations added."),
        LpstatResult::Empty
    ));
    assert!(is_empty_destinations("没有打印机"));
    assert!(is_empty_destinations("  Destination not added "));
    match classify_lpstat_result("lpstat", &["-v"], 2, "", "server\nerror") {
        LpstatResult::Error(e) => {
            assert_eq!(e, "MAC_LPSTAT_EXEC_FAIL: cmd=lpstat args=[\"-v\"] exit_code=2 stderr_snip=\"server error\"")
        }
        _ => panic!("expected error"),
    }
    match classify_lpstat_result("/usr/bin/lpstat", &["-v"], 1, "", "lpstat: scheduler is not running") {
        LpstatResult::Error(e) => assert_eq!(
            e,
            "MAC_CUPS_NOT_RUNNING: cmd=/usr/bin/lpstat args=[\"-v\"] exit_code=1 stderr_snip=\"lpstat: scheduler is not running\""
        ),
        _ => panic!("expected error"),
    }
    assert_eq!(queue_names_from_lpstat(LpstatResult::Empty), Ok(vec![]));
    assert_eq!(
        queue_names_from_lpstat(LpstatResult::Data("device for A: x\ndevice for A: y".to_string())),
        Ok(vec!["A".to_string()])
    );
    assert_eq!(queue_names_from_lpstat(LpstatResult::Error("boom".to_string())), Err("boom".to_string()));
}

#[test]
fn stderr_snippets() {
    assert_eq!(stderr_snip("  a\nb  "), "a b");
    let long = "e".repeat(300);
    assert_eq!(stderr_snip(&long).len(), 200);
}

#[test]
fn cups_option_values() {
    assert_eq!(parse_bool(" TRUE "), Some(true));
    assert_eq!(parse_bool("off"), Some(false));
    assert_eq!(parse_bool("maybe"), None);
    assert_eq!(parse_i32(" 42 "), Some(42));
    assert_eq!(parse_i32("-3"), Some(-3));
    assert_eq!(parse_i32("x"), None);
}

#[test]
fn lp_job_ids() {
    assert_eq!(
        parse_job_id("request id is Office-42 (1 file(s))\n"),
        Some("Office-42".to_string())
    );
    assert_eq!(parse_job_id("Request ID Is  Lab-7"), Some("Lab-7".to_string()));
    assert_eq!(parse_job_id("request id is   \nrequest id is B-1"), Some("B-1".to_string()));
    assert_eq!(parse_job_id("printed"), None);
}

#[test]
fn test_page_answers() {
    assert_eq!(
        test_page_result("Office", true, Some(0), "request id is Office-42 (1 file(s))", ""),
        Ok("测试页已提交: Office (Office-42)".to_string())
    );
    assert_eq!(
        test_page_result("Office", true, Some(0), "", ""),
        Ok("测试页已发送到打印机: Office".to_string())
    );
    assert_eq!(
        test_page_result("Office", false, Some(1), "", "lp: Unknown destination\n"),
        Err("[PrintTestPage] ERROR step=LP_RESULT message=打印测试页失败 exit_code=Some(1) stderr=lp: Unknown destination".to_string())
    );
    assert_eq!(print_job_id(1700000000000, 42), "print_1700000000000_42");
    assert_eq!(lp_args("Office", "/tmp/t.txt"), vec!["-d", "Office", "/tmp/t.txt"]);
    assert!(job_completed(true, "Lab-1 user 1024", "Office-42"));
    assert!(!job_completed(true, "Office-42 user 1024", "Office-42"));
    assert!(!job_completed(false, "", "Office-42"));
}

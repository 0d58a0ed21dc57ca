use eprinty::platform::DetailedPrinterInfo;
use eprinty::win_delete::{
    delete_printer_windows, start_windows_deletion, DeleteAction, DeleteEvent, QueueDeletion,
};
use eprinty::win_queue::{after_create_queue, after_fix_binding, after_port_check, after_queue_check, PortCheck, PsRun, QueueCheck};

fn listing() -> Result<Vec<DetailedPrinterInfo>, String> {
    Ok(vec![
        DetailedPrinterInfo {
            name: "Office".to_string(),
            port_name: Some("IP_10_0_0_5".to_string()),
            driver_name: Some("HP Universal".to_string()),
            comment: None,
            location: None,
        },
        DetailedPrinterInfo {
            name: "Lab".to_string(),
            port_name: Some("USB001".to_string()),
            driver_name: Some("Canon".to_string()),
            comment: None,
            location: None,
        },
    ])
}

fn run(code: i32, out: &str, err: &str) -> PsRun {
    PsRun { exit_code: Some(code), stdout: out.as_bytes().to_vec(), stderr: err.as_bytes().to_vec() }
}

#[test]
fn windows_deletion_removes_queue_port_and_driver() {
    let (s, a) = start_windows_deletion("Office".to_string(), true, true);
    assert!(matches!(a, DeleteAction::ReadPrinterInfo));
    let (s, a) = delete_printer_windows(s, DeleteEvent::PrinterInfo(listing()));
    assert!(matches!(a, DeleteAction::DeleteQueue));
    assert_eq!(s.port_name.as_deref(), Some("IP_10_0_0_5"));
    let (s, a) = delete_printer_windows(s, DeleteEvent::QueueDeleted(QueueDeletion::Deleted));
    match &a {
        DeleteAction::RemovePort(p) => assert_eq!(p, "IP_10_0_0_5"),
        _ => panic!("the port comes next"),
    }
    let (s, a) = delete_printer_windows(s, DeleteEvent::PortRemoved(true));
    match &a {
        DeleteAction::CountDriverUsers(d) => assert_eq!(d, "HP Universal"),
        _ => panic!("the driver's users come next"),
    }
    let (s, a) = delete_printer_windows(s, DeleteEvent::DriverUsers(Ok(0)));
    match &a {
        DeleteAction::RemoveDriver(d) => assert_eq!(d, "HP Universal"),
        _ => panic!("an unused driver is removed"),
    }
    let (_, a) = delete_printer_windows(s, DeleteEvent::DriverRemoved(true));
    match a {
        DeleteAction::Finish(Ok(r)) => {
            assert!(r.success && r.removed_queue && r.removed_port && r.removed_driver);
            assert_eq!(r.message, "已删除打印机队列: Office，已删除端口: IP_10_0_0_5，已删除驱动: HP Universal");
            assert_eq!(r.evidence.as_deref(), Some("DeletePrinter ok printer_name=\"Office\""));
        }
        _ => panic!("the deletion ends"),
    }
}

#[test]
fn windows_deletion_keeps_shared_drivers_and_odd_ports() {
    let (s, _) = start_windows_deletion("Lab".to_string(), true, true);
    let (s, _) = delete_printer_windows(s, DeleteEvent::PrinterInfo(listing()));
    assert_eq!(s.port_name, None);
    let (s, a) = delete_printer_windows(s, DeleteEvent::QueueDeleted(QueueDeletion::Deleted));
    assert!(matches!(a, DeleteAction::CountDriverUsers(_)));
    let (_, a) = delete_printer_windows(s, DeleteEvent::DriverUsers(Ok(2)));
    match a {
        DeleteAction::Finish(Ok(r)) => {
            assert!(!r.removed_driver && !r.removed_port);
            assert_eq!(r.message, "已删除打印机队列: Lab（该驱动仍被其他 2 个打印机使用，已跳过删除驱动）");
        }
        _ => panic!(),
    }
}

#[test]
fn windows_deletion_outcomes_of_the_queue() {
    let (s, a) = start_windows_deletion("Gone".to_string(), false, false);
    assert!(matches!(a, DeleteAction::DeleteQueue));
    let (_, a) = delete_printer_windows(s, DeleteEvent::QueueDeleted(QueueDeletion::OpenFailed(1801)));
    match a {
        DeleteAction::Finish(Ok(r)) => {
            assert!(r.success && !r.removed_queue);
            assert_eq!(r.message, "打印机 \"Gone\" 不存在（可能已删除）");
            assert_eq!(r.evidence.as_deref(), Some("OpenPrinterW failed: error_code=1801 (not found)"));
        }
        _ => panic!(),
    }
    let (s, _) = start_windows_deletion("Office".to_string(), false, false);
    let (_, a) = delete_printer_windows(s, DeleteEvent::QueueDeleted(QueueDeletion::DeleteFailed(5)));
    match a {
        DeleteAction::Finish(Err(e)) => assert!(e.starts_with("拒绝访问（5）。") && e.ends_with("打印机: Office\n错误码: 5")),
        _ => panic!(),
    }
    let (s, _) = start_windows_deletion("Office".to_string(), false, false);
    let (_, a) = delete_printer_windows(s, DeleteEvent::QueueDeleted(QueueDeletion::OpenFailed(87)));
    match a {
        DeleteAction::Finish(Err(e)) => assert_eq!(e, "打开打印机失败: error_code=87"),
        _ => panic!(),
    }
    let (s, _) = start_windows_deletion("Office".to_string(), false, true);
    let (s, _) = delete_printer_windows(s, DeleteEvent::PrinterInfo(Err("spooler down".to_string())));
    let (_, a) = delete_printer_windows(s, DeleteEvent::QueueDeleted(QueueDeletion::Deleted));
    match a {
        DeleteAction::Finish(Ok(r)) => assert_eq!(r.message, "已删除打印机队列: Office（未找到驱动信息，已跳过删除驱动）"),
        _ => panic!(),
    }
}

#[test]
fn port_checks() {
    assert!(matches!(
        after_port_check("IP_1", "10.0.0.1", 9100, Ok(run(0, "{\"exists\":false}", ""))),
        Ok(PortCheck::Create)
    ));
    assert!(matches!(
        after_port_check("IP_1", "10.0.0.1", 9100, Ok(run(0, "{\"exists\":true,\"PrinterHostAddress\":\"10.0.0.1\"}", ""))),
        Ok(PortCheck::Reuse)
    ));
    match after_port_check("IP_1", "10.0.0.1", 9100, Ok(run(0, "{\"exists\":true,\"PrinterHostAddress\":\"10.0.0.2\"}", ""))) {
        Err(m) => assert_eq!(
            m,
            "端口名 \"IP_1\" 已被占用，但 Host 地址不匹配。期望: 10.0.0.1，实际: Some(\"10.0.0.2\")。请手动清理该端口或更改端口名策略。\n\nEvidence: 端口已存在但参数不匹配 | expected_host=10.0.0.1 expected_port=9100 | actual_host=Some(\"10.0.0.2\") actual_port=unknown | port_name=IP_1"
        ),
        _ => panic!(),
    }
    match after_port_check("IP_1", "h", 9100, Ok(run(1, "o", "e"))) {
        Err(m) => assert_eq!(
            m,
            "检查端口状态失败: exit_code=Some(1), stderr=e\n\nEvidence: check_port_failed exit_code=Some(1) stdout=\"o\" stderr=\"e\""
        ),
        _ => panic!(),
    }
    match after_port_check("IP_1", "h", 9100, Err("boom".to_string())) {
        Err(m) => assert_eq!(m, "检查端口状态失败: boom"),
        _ => panic!(),
    }
}

#[test]
fn queue_checks_and_fixes() {
    let found = "{\"exists\":true,\"Name\":\"Office\",\"DriverName\":\"HP\",\"PortName\":\"IP_9\"}";
    match after_queue_check("Office", "HP", "IP_1", Ok(run(0, found, ""))) {
        Ok(QueueCheck::Exists { fix_driver, fix_port }) => assert!(!fix_driver && fix_port),
        _ => panic!(),
    }
    assert!(matches!(
        after_queue_check("Office", "HP", "IP_1", Ok(run(0, "{\"exists\":false}", ""))),
        Ok(QueueCheck::Create)
    ));
    assert_eq!(
        after_fix_binding("驱动", "fix_driver", Err("timeout".to_string())),
        Err("修正驱动绑定命令失败: timeout\n\nEvidence: fix_driver_command_failed error=\"timeout\"".to_string())
    );
    assert_eq!(
        after_fix_binding("端口", "fix_port", Ok(run(1, "", "denied"))),
        Err("修正端口绑定失败: denied\n\nEvidence: fix_port_failed exit_code=Some(1) stdout=\"\" stderr=\"denied\"".to_string())
    );
    assert_eq!(after_create_queue(Ok(run(0, "QueueExists", ""))), Ok(()));
    assert_eq!(
        after_create_queue(Err("x".to_string())),
        Err("创建队列命令失败: x\n\nEvidence: create_queue_command_failed error=\"x\"".to_string())
    );
    assert_eq!(
        after_create_queue(Ok(run(0, "", ""))),
        Err("创建队列结果不明确: \n\nEvidence: create_queue_unclear_result exit_code=Some(0) stdout=\"\" stderr=\"\"".to_string())
    );
}

#[test]
fn deleting_a_printer_twice() {
    let (s, a) = start_windows_deletion("Office".to_string(), true, true);
    assert!(matches!(a, DeleteAction::ReadPrinterInfo));
    let (s, a) = delete_printer_windows(s, DeleteEvent::PrinterInfo(listing()));
    assert!(matches!(a, DeleteAction::DeleteQueue));
    let (_, a) = delete_printer_windows(s, DeleteEvent::QueueDeleted(QueueDeletion::Deleted));
    assert!(matches!(a, DeleteAction::RemovePort(_)));

    for code in [1801u32, 2u32] {
        let (s, _) = start_windows_deletion("Office".to_string(), true, true);
        let (s, a) = delete_printer_windows(s, DeleteEvent::PrinterInfo(Ok(vec![])));
        assert!(matches!(a, DeleteAction::DeleteQueue));
        let (_, a) = delete_printer_windows(s, DeleteEvent::QueueDeleted(QueueDeletion::OpenFailed(code)));
        match a {
            DeleteAction::Finish(Ok(r)) => {
                assert!(r.success);
                assert!(!r.removed_queue && !r.removed_port && !r.removed_driver);
                assert!(r.message.ends_with("不存在（可能已删除）"));
                assert_eq!(r.message, "打印机 \"Office\" 不存在（可能已删除）");
            }
            _ => panic!(),
        }
    }
}

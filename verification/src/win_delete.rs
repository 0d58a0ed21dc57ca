use vstd::prelude::*;
use crate::config::{opt_view, clone_string, clone_opt_string};
use crate::outside::{from_utf8_lossy, utf8_lossy};
use crate::platform::{DetailedPrinterInfo, DeletePrinterResultInternal};
use crate::text::{
    owned, append_str, append_chars, chars_of, string_of, decimal, i64_decimal, u64_decimal,
    starts_with, starts_with_exec, contains, contains_exec, trim, trim_chars, str_eq,
};

verus! {

// ---------------------------------------------------------------------------
// What to remove besides the queue
// ---------------------------------------------------------------------------

/// The port and driver of the printer named `name` in a listing, from the
/// first entry with that name; none if no entry has it.
pub open spec fn spec_printer_info(printers: Seq<DetailedPrinterInfo>, name: Seq<char>) -> (
    Option<Seq<char>>,
    Option<Seq<char>>,
)
    decreases printers.len(),
{
    if printers.len() == 0 {
        (None, None)
    } else if printers[0].name@ == name {
        (opt_view(printers[0].port_name), opt_view(printers[0].driver_name))
    } else {
        spec_printer_info(printers.drop_first(), name)
    }
}

/// The port and driver recorded for a printer in a listing.
pub fn get_printer_info(printers: &Vec<DetailedPrinterInfo>, printer_name: &str) -> (r: (
    Option<String>,
    Option<String>,
))
    ensures
        (opt_view(r.0), opt_view(r.1)) == spec_printer_info(printers@, printer_name@),
{
    let mut i: usize = 0;
    assert(printers@.skip(0) =~= printers@);
    while i < printers.len()
        invariant
            i <= printers@.len(),
            spec_printer_info(printers@.skip(i as int), printer_name@) == spec_printer_info(
                printers@,
                printer_name@,
            ),
        decreases printers@.len() - i,
    {
        let p = &printers[i];
        assert(printers@.skip(i as int)[0] == *p);
        assert(printers@.skip(i as int).drop_first() =~= printers@.skip(i + 1));
        if str_eq(p.name.as_str(), printer_name) {
            return (clone_opt_string(&p.port_name), clone_opt_string(&p.driver_name));
        }
        i = i + 1;
    }
    (None, None)
}

/// The port to remove and the driver to consider: nothing unless a
/// removal was asked for; a port only when asked for and named `IP_...`;
/// nothing when the printer list could not be read.
pub open spec fn spec_delete_targets(
    remove_port: bool,
    remove_driver: bool,
    printers: Result<Seq<DetailedPrinterInfo>, Seq<char>>,
    name: Seq<char>,
) -> (Option<Seq<char>>, Option<Seq<char>>) {
    if !(remove_port || remove_driver) {
        (None, None)
    } else {
        match printers {
            Err(_) => (None, None),
            Ok(ps) => {
                let (port, driver) = spec_printer_info(ps, name);
                let p = match port {
                    Some(x) => if remove_port && starts_with(x, "IP_"@) {
                        Some(x)
                    } else {
                        None
                    },
                    None => None,
                };
                (p, driver)
            },
        }
    }
}

pub open spec fn listing_view(r: Result<Vec<DetailedPrinterInfo>, String>) -> Result<
    Seq<DetailedPrinterInfo>,
    Seq<char>,
> {
    match r {
        Ok(v) => Ok(v@),
        Err(e) => Err(e@),
    }
}

pub fn delete_targets(
    remove_port: bool,
    remove_driver: bool,
    printers: &Result<Vec<DetailedPrinterInfo>, String>,
    printer_name: &str,
) -> (r: (Option<String>, Option<String>))
    ensures
        (opt_view(r.0), opt_view(r.1)) == spec_delete_targets(
            remove_port,
            remove_driver,
            listing_view(*printers),
            printer_name@,
        ),
{
    if !(remove_port || remove_driver) {
        return (None, None);
    }
    match printers {
        Err(_) => (None, None),
        Ok(ps) => {
            let (port, driver) = get_printer_info(ps, printer_name);
            let p = match port {
                Some(x) => {
                    let xv = chars_of(x.as_str());
                    let pre = chars_of("IP_");
                    if remove_port && starts_with_exec(xv.as_slice(), pre.as_slice()) {
                        Some(x)
                    } else {
                        None
                    }
                },
                None => None,
            };
            (p, driver)
        },
    }
}

// ---------------------------------------------------------------------------
// Deleting the queue
// ---------------------------------------------------------------------------

/// How the spooler calls went: the printer could not be opened, or could
/// not be deleted (with the last error code), or was deleted.
pub enum QueueDeletion {
    OpenFailed(u32),
    DeleteFailed(u32),
    Deleted,
}

/// The access-denied explanation for a printer.
pub open spec fn access_denied_message(name: Seq<char>, code: u32) -> Seq<char> {
    "拒绝访问（5）。可能是：未以管理员权限运行、或被系统策略/权限限制。请确认已提升权限，并联系 IT 检查打印服务策略。\n\n打印机: "@
        + name + "\n错误码: "@ + decimal(code as int)
}

fn access_denied_message_exec(name: &str, code: u32) -> (r: String)
    ensures
        r@ == access_denied_message(name@, code),
{
    let mut r = owned(
        "拒绝访问（5）。可能是：未以管理员权限运行、或被系统策略/权限限制。请确认已提升权限，并联系 IT 检查打印服务策略。\n\n打印机: ",
    );
    append_str(&mut r, name);
    append_str(&mut r, "\n错误码: ");
    append_chars(&mut r, u64_decimal(code as u64).as_slice());
    r
}

fn text_code(prefix: &str, code: u32) -> (r: String)
    ensures
        r@ == prefix@ + decimal(code as int),
{
    let mut r = owned(prefix);
    append_chars(&mut r, u64_decimal(code as u64).as_slice());
    r
}

/// The message of a printer that is not there.
pub open spec fn not_found_message(name: Seq<char>) -> Seq<char> {
    "打印机 \""@ + name + "\" 不存在（可能已删除）"@
}

fn not_found_message_exec(name: &str) -> (r: String)
    ensures
        r@ == not_found_message(name@),
{
    let mut r = owned("打印机 \"");
    append_str(&mut r, name);
    append_str(&mut r, "\" 不存在（可能已删除）");
    r
}

/// The result of deleting the queue. A printer that cannot be opened
/// because it does not exist (error 1801 or 2) counts as already deleted;
/// error 5 is explained as missing rights; other errors name the code.
/// The port and driver found beforehand are recorded in the result.
pub fn queue_deletion_result(
    printer_name: &str,
    outcome: QueueDeletion,
    port_name: Option<String>,
    driver_name: Option<String>,
) -> (r: Result<DeletePrinterResultInternal, String>)
    ensures
        match outcome {
            QueueDeletion::OpenFailed(code) => if code == 1801 || code == 2 {
                r matches Ok(d) && d.success && !d.removed_queue && !d.removed_port && !d.removed_driver
                    && d.message@ == not_found_message(printer_name@) && opt_view(d.evidence) == Some(
                    "OpenPrinterW failed: error_code="@ + decimal(code as int) + " (not found)"@,
                ) && d.port_name == port_name && d.driver_name == driver_name
            } else if code == 5 {
                r matches Err(e) && e@ == access_denied_message(printer_name@, code)
            } else {
                r matches Err(e) && e@ == "打开打印机失败: error_code="@ + decimal(code as int)
            },
            QueueDeletion::DeleteFailed(code) => if code == 5 {
                r matches Err(e) && e@ == access_denied_message(printer_name@, code)
            } else {
                r matches Err(e) && e@ == "删除打印机失败: error_code="@ + decimal(code as int)
            },
            QueueDeletion::Deleted => r matches Ok(d) && d.success && d.removed_queue && !d.removed_port
                && !d.removed_driver && d.message@ == "已删除打印机队列: "@ + printer_name@ && opt_view(
                d.evidence,
            ) == Some("DeletePrinter ok printer_name=\""@ + printer_name@ + "\""@) && d.port_name
                == port_name && d.driver_name == driver_name,
        },
{
    match outcome {
        QueueDeletion::OpenFailed(code) => {
            if code == 1801 || code == 2 {
                let mut ev = text_code("OpenPrinterW failed: error_code=", code);
                append_str(&mut ev, " (not found)");
                Ok(
                    DeletePrinterResultInternal {
                        success: true,
                        removed_queue: false,
                        removed_port: false,
                        removed_driver: false,
                        driver_name,
                        port_name,
                        message: not_found_message_exec(printer_name),
                        evidence: Some(ev),
                    },
                )
            } else if code == 5 {
                Err(access_denied_message_exec(printer_name, code))
            } else {
                Err(text_code("打开打印机失败: error_code=", code))
            }
        },
        QueueDeletion::DeleteFailed(code) => {
            if code == 5 {
                Err(access_denied_message_exec(printer_name, code))
            } else {
                Err(text_code("删除打印机失败: error_code=", code))
            }
        },
        QueueDeletion::Deleted => {
            let mut msg = owned("已删除打印机队列: ");
            append_str(&mut msg, printer_name);
            let mut ev = owned("DeletePrinter ok printer_name=\"");
            append_str(&mut ev, printer_name);
            append_str(&mut ev, "\"");
            Ok(
                DeletePrinterResultInternal {
                    success: true,
                    removed_queue: true,
                    removed_port: false,
                    removed_driver: false,
                    driver_name,
                    port_name,
                    message: msg,
                    evidence: Some(ev),
                },
            )
        },
    }
}

// ---------------------------------------------------------------------------
// Removing the port and the driver (best effort)
// ---------------------------------------------------------------------------

/// `s` with every `'` doubled, as PowerShell quotes text.
pub open spec fn ps_quote(s: Seq<char>) -> Seq<char>
    decreases s.len(),
{
    if s.len() == 0 {
        seq![]
    } else {
        ps_quote(s.drop_last()) + (if s.last() == '\'' {
            seq!['\'', '\'']
        } else {
            seq![s.last()]
        })
    }
}

/// Reads a quoted text back, from the end: a doubled quote is one quote.
spec fn ps_unquote(q: Seq<char>) -> Seq<char>
    decreases q.len(),
{
    if q.len() == 0 {
        seq![]
    } else if q.len() >= 2 && q.last() == '\'' && q[q.len() - 2] == '\'' {
        ps_unquote(q.take(q.len() - 2)).push('\'')
    } else {
        ps_unquote(q.drop_last()).push(q.last())
    }
}

proof fn lemma_ps_unquote_quote(s: Seq<char>)
    ensures
        ps_unquote(ps_quote(s)) == s,
    decreases s.len(),
{
    if s.len() > 0 {
        lemma_ps_unquote_quote(s.drop_last());
        let p = ps_quote(s.drop_last());
        let q = ps_quote(s);
        if s.last() == '\'' {
            assert(q == p + seq!['\'', '\'']);
            assert(q.take(q.len() - 2) =~= p);
        } else {
            assert(q == p + seq![s.last()]);
            assert(q.drop_last() =~= p);
        }
        assert(s.drop_last().push(s.last()) =~= s);
    }
}

/// Quoting never merges two names: different names give different quoted
/// text, so a script built with it names exactly the printer, port or
/// driver it was built for.
pub proof fn law_ps_quote_injective(a: Seq<char>, b: Seq<char>)
    requires
        ps_quote(a) == ps_quote(b),
    ensures
        a == b,
{
    lemma_ps_unquote_quote(a);
    lemma_ps_unquote_quote(b);
}

pub fn ps_quote_exec(s: &str) -> (r: Vec<char>)
    ensures
        r@ == ps_quote(s@),
{
    let v = chars_of(s);
    let mut r: Vec<char> = Vec::new();
    let mut i: usize = 0;
    while i < v.len()
        invariant
            i <= v@.len(),
            v@ == s@,
            r@ == ps_quote(v@.take(i as int)),
        decreases v@.len() - i,
    {
        let c = v[i];
        if c == '\'' {
            r.push('\'');
            r.push('\'');
        } else {
            r.push(c);
        }
        assert(v@.take(i + 1).drop_last() =~= v@.take(i as int));
        assert(v@.take(i + 1).last() == c);
        i = i + 1;
    }
    assert(v@.take(v@.len() as int) =~= v@);
    r
}

/// The PowerShell command that removes a port or driver (`cmdlet` is
/// `Remove-PrinterPort` or `Remove-PrinterDriver`) and reports `SUCCESS`
/// or `FAILED`.
pub open spec fn spec_removal_command(cmdlet: Seq<char>, name: Seq<char>) -> Seq<char> {
    cmdlet + " -Name '"@ + ps_quote(name)
        + "' -ErrorAction SilentlyContinue; if ($?) { Write-Output 'SUCCESS' } else { Write-Output 'FAILED' }"@
}

pub fn removal_command(cmdlet: &str, name: &str) -> (r: String)
    ensures
        r@ == spec_removal_command(cmdlet@, name@),
{
    let mut r = owned(cmdlet);
    append_str(&mut r, " -Name '");
    append_chars(&mut r, ps_quote_exec(name).as_slice());
    append_str(
        &mut r,
        "' -ErrorAction SilentlyContinue; if ($?) { Write-Output 'SUCCESS' } else { Write-Output 'FAILED' }",
    );
    r
}

/// A removal worked when PowerShell exited successfully and printed
/// `SUCCESS` (its output decoded leniently and trimmed).
pub fn removal_succeeded(success: bool, stdout: &[u8]) -> (b: bool)
    ensures
        b == (success && contains(trim(utf8_lossy(stdout@)), "SUCCESS"@)),
{
    if !success {
        return false;
    }
    let out = from_utf8_lossy(stdout);
    let t = trim_chars(chars_of(out.as_str()).as_slice());
    let pat = chars_of("SUCCESS");
    contains_exec(t.as_slice(), pat.as_slice())
}

/// Records the port removal in the result: `，已删除端口: <port>` when it
/// worked, `（端口删除失败: <port>）` when it did not.
pub fn after_port_removal(result: &mut DeletePrinterResultInternal, port_name: &str, removed: bool)
    ensures
        final(result).removed_port == removed,
        final(result).message@ == old(result).message@ + (if removed {
            "，已删除端口: "@ + port_name@
        } else {
            "（端口删除失败: "@ + port_name@ + "）"@
        }),
        final(result).success == old(result).success,
        final(result).removed_queue == old(result).removed_queue,
        final(result).removed_driver == old(result).removed_driver,
        final(result).driver_name == old(result).driver_name,
        final(result).port_name == old(result).port_name,
        final(result).evidence == old(result).evidence,
{
    result.removed_port = removed;
    if removed {
        append_str(&mut result.message, "，已删除端口: ");
        append_str(&mut result.message, port_name);
    } else {
        append_str(&mut result.message, "（端口删除失败: ");
        append_str(&mut result.message, port_name);
        append_str(&mut result.message, "）");
    }
}

/// How many printers other than `exclude` use the driver.
pub open spec fn spec_driver_usage(
    printers: Seq<DetailedPrinterInfo>,
    driver_name: Seq<char>,
    exclude: Seq<char>,
) -> nat
    decreases printers.len(),
{
    if printers.len() == 0 {
        0
    } else {
        let p = printers.last();
        spec_driver_usage(printers.drop_last(), driver_name, exclude) + (if p.name@ != exclude
            && opt_view(p.driver_name) == Some(driver_name) {
            1nat
        } else {
            0nat
        })
    }
}

/// The printers other than `exclude` that use the driver.
pub open spec fn uses_driver_elsewhere(driver_name: Seq<char>, exclude: Seq<char>) -> spec_fn(DetailedPrinterInfo) -> bool {
    |p: DetailedPrinterInfo| p.name@ != exclude && opt_view(p.driver_name) == Some(driver_name)
}

proof fn lemma_driver_usage_concat(a: Seq<DetailedPrinterInfo>, b: Seq<DetailedPrinterInfo>, d: Seq<char>, x: Seq<char>)
    ensures
        spec_driver_usage(a + b, d, x) == spec_driver_usage(a, d, x) + spec_driver_usage(b, d, x),
    decreases b.len(),
{
    if b.len() == 0 {
        assert(a + b =~= a);
    } else {
        assert((a + b).drop_last() =~= a + b.drop_last());
        assert((a + b).last() == b.last());
        lemma_driver_usage_concat(a, b.drop_last(), d, x);
    }
}

proof fn lemma_driver_usage_remove(s: Seq<DetailedPrinterInfo>, k: int, d: Seq<char>, x: Seq<char>)
    requires
        0 <= k < s.len(),
    ensures
        spec_driver_usage(s, d, x) == spec_driver_usage(s.remove(k), d, x) + (if (uses_driver_elsewhere(d, x))(
            s[k],
        ) {
            1nat
        } else {
            0nat
        }),
{
    let one = seq![s[k]];
    assert(s =~= s.take(k) + one + s.skip(k + 1));
    assert(s.remove(k) =~= s.take(k) + s.skip(k + 1));
    lemma_driver_usage_concat(s.take(k) + one, s.skip(k + 1), d, x);
    lemma_driver_usage_concat(s.take(k), one, d, x);
    lemma_driver_usage_concat(s.take(k), s.skip(k + 1), d, x);
    assert(one.drop_last() =~= Seq::<DetailedPrinterInfo>::empty());
    assert(one.last() == s[k]);
    assert(spec_driver_usage(Seq::<DetailedPrinterInfo>::empty(), d, x) == 0);
    assert(spec_driver_usage(one, d, x) == (if (uses_driver_elsewhere(d, x))(s[k]) {
        1nat
    } else {
        0nat
    }));
}

/// The count of other printers that use a driver is the number of listed
/// printers, wherever they stand, whose name is not the excluded one and
/// whose driver is the given one.
pub proof fn law_driver_usage_counts_other_users(
    printers: Seq<DetailedPrinterInfo>,
    driver_name: Seq<char>,
    exclude: Seq<char>,
)
    ensures
        spec_driver_usage(printers, driver_name, exclude) == printers.filter(
            uses_driver_elsewhere(driver_name, exclude),
        ).len(),
    decreases printers.len(),
{
    reveal_with_fuel(Seq::filter, 1);
    if printers.len() > 0 {
        law_driver_usage_counts_other_users(printers.drop_last(), driver_name, exclude);
    }
}

/// The count does not depend on the order of the list: two listings with
/// the same printers give the same count.
pub proof fn law_driver_usage_ignores_order(
    a: Seq<DetailedPrinterInfo>,
    b: Seq<DetailedPrinterInfo>,
    driver_name: Seq<char>,
    exclude: Seq<char>,
)
    requires
        a.to_multiset() == b.to_multiset(),
    ensures
        spec_driver_usage(a, driver_name, exclude) == spec_driver_usage(b, driver_name, exclude),
    decreases a.len(),
{
    broadcast use vstd::seq_lib::group_to_multiset_ensures;
    broadcast use vstd::multiset::group_multiset_axioms;

    assert(a.to_multiset().len() == a.len());
    assert(b.to_multiset().len() == b.len());
    if a.len() == 0 {
        assert(b.len() == 0);
    } else {
        let x = a.last();
        assert(a.drop_last().push(x) =~= a);
        assert(a.to_multiset().count(x) > 0);
        assert(b.to_multiset().count(x) > 0);
        assert(b.contains(x));
        let k = choose|k: int| 0 <= k < b.len() && b[k] == x;
        assert(b.remove(k).to_multiset() == b.to_multiset().remove(x));
        assert(a.drop_last().to_multiset() =~= a.to_multiset().remove(x));
        law_driver_usage_ignores_order(a.drop_last(), b.remove(k), driver_name, exclude);
        lemma_driver_usage_remove(b, k, driver_name, exclude);
    }
}

/// The number of other printers that use a driver.
pub fn count_driver_usage(printers: &Vec<DetailedPrinterInfo>, driver_name: &str, exclude_printer: &str) -> (n: usize)
    ensures
        n == spec_driver_usage(printers@, driver_name@, exclude_printer@),
{
    let mut n: usize = 0;
    let mut i: usize = 0;
    while i < printers.len()
        invariant
            i <= printers@.len(),
            n == spec_driver_usage(printers@.take(i as int), driver_name@, exclude_printer@),
            n <= i,
        decreases printers@.len() - i,
    {
        let p = &printers[i];
        assert(printers@.take(i + 1).drop_last() =~= printers@.take(i as int));
        assert(printers@.take(i + 1).last() == *p);
        let uses = match &p.driver_name {
            Some(d) => str_eq(d.as_str(), driver_name),
            None => false,
        };
        if !str_eq(p.name.as_str(), exclude_printer) && uses {
            n = n + 1;
        }
        i = i + 1;
    }
    assert(printers@.take(printers@.len() as int) =~= printers@);
    n
}

/// What to do about the driver once the queue is gone.
pub enum DriverStep {
    Remove(String),
    Skip,
}

/// The driver is removed only when it is known and no other printer uses
/// it (as far as the listing shows); otherwise the message says why it was
/// kept.
pub fn driver_decision(
    result: &mut DeletePrinterResultInternal,
    driver_name: &Option<String>,
    usage: &Result<usize, String>,
) -> (r: DriverStep)
    ensures
        match *driver_name {
            None => r is Skip && final(result).message@ == old(result).message@
                + "（未找到驱动信息，已跳过删除驱动）"@,
            Some(d) => match *usage {
                Err(_) => r is Skip && final(result).message@ == old(result).message@
                    + "（无法检查驱动使用情况，已跳过删除驱动）"@,
                Ok(count) => if count > 0 {
                    r is Skip && final(result).message@ == old(result).message@ + "（该驱动仍被其他 "@
                        + decimal(count as int) + " 个打印机使用，已跳过删除驱动）"@
                } else {
                    r matches DriverStep::Remove(x) && x@ == d@ && final(result).message
                        == old(result).message
                },
            },
        },
        r is Skip ==> !final(result).removed_driver,
        r is Remove ==> final(result).removed_driver == old(result).removed_driver,
        final(result).success == old(result).success,
        final(result).removed_queue == old(result).removed_queue,
        final(result).removed_port == old(result).removed_port,
        final(result).driver_name == old(result).driver_name,
        final(result).port_name == old(result).port_name,
        final(result).evidence == old(result).evidence,
{
    match driver_name {
        None => {
            append_str(&mut result.message, "（未找到驱动信息，已跳过删除驱动）");
            result.removed_driver = false;
            DriverStep::Skip
        },
        Some(d) => match usage {
            Err(_) => {
                append_str(&mut result.message, "（无法检查驱动使用情况，已跳过删除驱动）");
                result.removed_driver = false;
                DriverStep::Skip
            },
            Ok(count) => {
                if *count > 0 {
                    append_str(&mut result.message, "（该驱动仍被其他 ");
                    append_chars(&mut result.message, u64_decimal(*count as u64).as_slice());
                    append_str(&mut result.message, " 个打印机使用，已跳过删除驱动）");
                    result.removed_driver = false;
                    DriverStep::Skip
                } else {
                    DriverStep::Remove(clone_string(d))
                }
            },
        },
    }
}

/// Records the driver removal in the result: `，已删除驱动: <driver>` when
/// it worked, `（驱动删除失败: <driver>）` when it did not.
pub fn after_driver_removal(result: &mut DeletePrinterResultInternal, driver_name: &str, removed: bool)
    ensures
        final(result).removed_driver == removed,
        final(result).message@ == old(result).message@ + (if removed {
            "，已删除驱动: "@ + driver_name@
        } else {
            "（驱动删除失败: "@ + driver_name@ + "）"@
        }),
        final(result).success == old(result).success,
        final(result).removed_queue == old(result).removed_queue,
        final(result).removed_port == old(result).removed_port,
        final(result).driver_name == old(result).driver_name,
        final(result).port_name == old(result).port_name,
        final(result).evidence == old(result).evidence,
{
    result.removed_driver = removed;
    if removed {
        append_str(&mut result.message, "，已删除驱动: ");
        append_str(&mut result.message, driver_name);
    } else {
        append_str(&mut result.message, "（驱动删除失败: ");
        append_str(&mut result.message, driver_name);
        append_str(&mut result.message, "）");
    }
}

// ---------------------------------------------------------------------------
// macOS: deleting with lpadmin
// ---------------------------------------------------------------------------

/// `lpstat -p` found no such printer: nothing to delete.
pub fn mac_absent_result(printer_name: &str) -> (r: DeletePrinterResultInternal)
    ensures
        r.success && !r.removed_queue && !r.removed_port && !r.removed_driver,
        r.driver_name is None && r.port_name is None,
        r.message@ == not_found_message(printer_name@),
        opt_view(r.evidence) == Some("lpstat -p returned non-zero (not found)"@),
{
    DeletePrinterResultInternal {
        success: true,
        removed_queue: false,
        removed_port: false,
        removed_driver: false,
        driver_name: None,
        port_name: None,
        message: not_found_message_exec(printer_name),
        evidence: Some(owned("lpstat -p returned non-zero (not found)")),
    }
}

/// The words in lpadmin's output that mean the printer is not there.
pub open spec fn mac_not_found_words() -> Seq<Seq<char>> {
    seq!["Unknown printer"@, "does not exist"@, "not found"@, "No such file"@]
}

pub open spec fn mentions_absence(stdout: Seq<char>, stderr: Seq<char>) -> bool {
    exists|i: int|
        0 <= i < mac_not_found_words().len() && (contains(stderr, #[trigger] mac_not_found_words()[i])
            || contains(stdout, mac_not_found_words()[i]))
}

/// At most the first `n` characters.
pub open spec fn first_chars(s: Seq<char>, n: int) -> Seq<char> {
    if s.len() <= n {
        s
    } else {
        s.take(n)
    }
}

fn first_chars_exec(s: &[char], n: usize) -> (r: Vec<char>)
    ensures
        r@ == first_chars(s@, n as int),
{
    if s.len() <= n {
        let r = crate::text::slice_chars(s, 0, s.len());
        assert(r@ =~= s@);
        r
    } else {
        let r = crate::text::slice_chars(s, 0, n);
        r
    }
}

/// The result of `lpadmin -x <printer>`: success removes the queue; an
/// output that says the printer is not there counts as already deleted;
/// anything else is an error with the first 200 characters of the error
/// output, or the exit code (`-1` if none) when there is no error output.
pub fn mac_lpadmin_result(
    printer_name: &str,
    success: bool,
    exit_code: Option<i32>,
    stdout: &[u8],
    stderr: &[u8],
) -> (r: Result<DeletePrinterResultInternal, String>)
    ensures
        success ==> (r matches Ok(d) && d.success && d.removed_queue && !d.removed_port
            && !d.removed_driver && d.driver_name is None && d.port_name is None && d.message@
            == "已删除打印机队列: "@ + printer_name@ && opt_view(d.evidence) == Some(
            "lpadmin -x ok printer_name=\""@ + printer_name@ + "\""@,
        )),
        !success && mentions_absence(utf8_lossy(stdout@), utf8_lossy(stderr@)) ==> (r matches Ok(d)
            && d.success && !d.removed_queue && !d.removed_port && !d.removed_driver
            && d.driver_name is None && d.port_name is None && d.message@ == not_found_message(
            printer_name@,
        ) && opt_view(d.evidence) == Some(
            "lpadmin -x failed (not found): stderr="@ + first_chars(utf8_lossy(stderr@), 200),
        )),
        !success && !mentions_absence(utf8_lossy(stdout@), utf8_lossy(stderr@)) ==> (r matches Err(e)
            && e@ == (if utf8_lossy(stderr@).len() > 0 {
            "lpadmin 执行失败: "@ + first_chars(utf8_lossy(stderr@), 200)
        } else {
            "lpadmin 执行失败: exit_code="@ + decimal(
                match exit_code {
                    Some(c) => c as int,
                    None => -1,
                },
            )
        })),
{
    if success {
        let mut msg = owned("已删除打印机队列: ");
        append_str(&mut msg, printer_name);
        let mut ev = owned("lpadmin -x ok printer_name=\"");
        append_str(&mut ev, printer_name);
        append_str(&mut ev, "\"");
        return Ok(
            DeletePrinterResultInternal {
                success: true,
                removed_queue: true,
                removed_port: false,
                removed_driver: false,
                driver_name: None,
                port_name: None,
                message: msg,
                evidence: Some(ev),
            },
        );
    }
    let err_text = from_utf8_lossy(stderr);
    let out_text = from_utf8_lossy(stdout);
    let ev_chars = chars_of(err_text.as_str());
    let ov_chars = chars_of(out_text.as_str());
    let words: Vec<&str> = vec!["Unknown printer", "does not exist", "not found", "No such file"];
    assert(words@.map_values(|w: &str| w@) =~= mac_not_found_words());
    let mut found = false;
    let mut i: usize = 0;
    while i < words.len()
        invariant
            i <= words@.len(),
            words@.map_values(|w: &str| w@) == mac_not_found_words(),
            ev_chars@ == utf8_lossy(stderr@),
            ov_chars@ == utf8_lossy(stdout@),
            found == (exists|j: int|
                0 <= j < i && (contains(ev_chars@, #[trigger] mac_not_found_words()[j]) || contains(
                    ov_chars@,
                    mac_not_found_words()[j],
                ))),
        decreases words@.len() - i,
    {
        let w = chars_of(words[i]);
        assert(w@ == mac_not_found_words()[i as int]);
        let hit = contains_exec(ev_chars.as_slice(), w.as_slice()) || contains_exec(
            ov_chars.as_slice(),
            w.as_slice(),
        );
        if hit {
            found = true;
        }
        i = i + 1;
    }
    let head = first_chars_exec(ev_chars.as_slice(), 200);
    if found {
        let mut ev = owned("lpadmin -x failed (not found): stderr=");
        append_chars(&mut ev, head.as_slice());
        Ok(
            DeletePrinterResultInternal {
                success: true,
                removed_queue: false,
                removed_port: false,
                removed_driver: false,
                driver_name: None,
                port_name: None,
                message: not_found_message_exec(printer_name),
                evidence: Some(ev),
            },
        )
    } else {
        if ev_chars.len() > 0 {
            let mut e = owned("lpadmin 执行失败: ");
            append_chars(&mut e, head.as_slice());
            Err(e)
        } else {
            let mut e = owned("lpadmin 执行失败: exit_code=");
            let code: i32 = match exit_code {
                Some(c) => c,
                None => -1,
            };
            append_chars(&mut e, i64_decimal(code as i64).as_slice());
            Err(e)
        }
    }
}

// ---------------------------------------------------------------------------
// Deleting a Windows printer, step by step
// ---------------------------------------------------------------------------

/// Where a Windows printer deletion stands: which answer it waits for.
pub enum DeleteStage {
    /// The printer's port and driver are being looked up.
    ReadingInfo,
    /// The queue is being deleted.
    DeletingQueue,
    /// The port is being removed.
    RemovingPort,
    /// The other printers that use the driver are being counted.
    CountingDriverUsers,
    /// The driver is being removed.
    RemovingDriver,
    /// Nothing more to do.
    Done,
}

/// A Windows printer deletion in progress.
pub struct WindowsDeletion {
    pub printer_name: String,
    pub remove_port: bool,
    pub remove_driver: bool,
    /// The `IP_` port to remove, once looked up.
    pub port_name: Option<String>,
    /// The printer's driver, once looked up.
    pub driver_name: Option<String>,
    /// The result so far, once the queue is handled.
    pub result: Option<DeletePrinterResultInternal>,
    pub stage: DeleteStage,
}

/// What the outside world answered.
pub enum DeleteEvent {
    PrinterInfo(Result<Vec<DetailedPrinterInfo>, String>),
    QueueDeleted(QueueDeletion),
    PortRemoved(bool),
    DriverUsers(Result<usize, String>),
    DriverRemoved(bool),
}

/// What to do next.
pub enum DeleteAction {
    /// List the printers with their ports and drivers.
    ReadPrinterInfo,
    /// Open the printer and delete it.
    DeleteQueue,
    /// Remove this port (PowerShell `Remove-PrinterPort`).
    RemovePort(String),
    /// Count the other printers that use this driver.
    CountDriverUsers(String),
    /// Remove this driver (PowerShell `Remove-PrinterDriver`).
    RemoveDriver(String),
    /// The deletion is over, with this answer.
    Finish(Result<DeletePrinterResultInternal, String>),
}

/// The answer each stage waits for.
pub open spec fn event_fits(stage: DeleteStage, event: DeleteEvent) -> bool {
    match stage {
        DeleteStage::ReadingInfo => event is PrinterInfo,
        DeleteStage::DeletingQueue => event is QueueDeleted,
        DeleteStage::RemovingPort => event is PortRemoved,
        DeleteStage::CountingDriverUsers => event is DriverUsers,
        DeleteStage::RemovingDriver => event is DriverRemoved,
        DeleteStage::Done => false,
    }
}

/// What the state machine keeps: the request and the targets found.
pub open spec fn keeps_request(a: WindowsDeletion, b: WindowsDeletion) -> bool {
    &&& a.printer_name == b.printer_name
    &&& a.remove_port == b.remove_port
    &&& a.remove_driver == b.remove_driver
}

pub open spec fn keeps_targets(a: WindowsDeletion, b: WindowsDeletion) -> bool {
    &&& a.port_name == b.port_name
    &&& a.driver_name == b.driver_name
}

/// `b` is `a` with `extra` added to its message and the driver marked as
/// not removed.
pub open spec fn driver_skipped(a: DeletePrinterResultInternal, b: DeletePrinterResultInternal, extra: Seq<char>) -> bool {
    &&& b.message@ == a.message@ + extra
    &&& !b.removed_driver
    &&& b.success == a.success
    &&& b.removed_queue == a.removed_queue
    &&& b.removed_port == a.removed_port
    &&& b.driver_name == a.driver_name
    &&& b.port_name == a.port_name
    &&& b.evidence == a.evidence
}

/// What follows once the queue and the port are handled: the driver is
/// looked at only when the queue was removed and driver removal was asked
/// for; an unknown driver is skipped with a note.
pub open spec fn after_port_phase(
    s: WindowsDeletion,
    res: DeletePrinterResultInternal,
    next: WindowsDeletion,
    act: DeleteAction,
) -> bool {
    &&& keeps_request(s, next)
    &&& keeps_targets(s, next)
    &&& if res.removed_queue && s.remove_driver {
        match s.driver_name {
            Some(d) => act matches DeleteAction::CountDriverUsers(x) && x@ == d@ && next.stage
                is CountingDriverUsers && next.result == Some(res),
            None => act matches DeleteAction::Finish(Ok(f)) && driver_skipped(
                res,
                f,
                "（未找到驱动信息，已跳过删除驱动）"@,
            ) && next.stage is Done,
        }
    } else {
        act == DeleteAction::Finish(Ok(res)) && next.stage is Done
    }
}

/// What follows once the queue is handled: the port first (when the queue
/// was removed, port removal was asked for and an `IP_` port was found),
/// then the driver.
pub open spec fn after_queue_phase(
    s: WindowsDeletion,
    res: DeletePrinterResultInternal,
    next: WindowsDeletion,
    act: DeleteAction,
) -> bool {
    if res.removed_queue && s.remove_port && s.port_name is Some {
        &&& keeps_request(s, next)
        &&& keeps_targets(s, next)
        &&& act matches DeleteAction::RemovePort(p) && p@ == s.port_name->0@
        &&& next.stage is RemovingPort
        &&& next.result == Some(res)
    } else {
        after_port_phase(s, res, next, act)
    }
}

/// How a deletion starts: with the request and nothing found yet, reading
/// the printer's port and driver first when either is to be removed.
pub open spec fn deletion_start(
    printer_name: Seq<char>,
    remove_port: bool,
    remove_driver: bool,
    s: WindowsDeletion,
    act: DeleteAction,
) -> bool {
    &&& s.printer_name@ == printer_name
    &&& s.remove_port == remove_port
    &&& s.remove_driver == remove_driver
    &&& s.port_name is None
    &&& s.driver_name is None
    &&& s.result is None
    &&& (remove_port || remove_driver) ==> act is ReadPrinterInfo && s.stage is ReadingInfo
    &&& !(remove_port || remove_driver) ==> act is DeleteQueue && s.stage is DeletingQueue
}

/// The first step of a deletion: look up the port and driver when either
/// is to be removed, else delete the queue at once.
pub fn start_windows_deletion(printer_name: String, remove_port: bool, remove_driver: bool) -> (r: (
    WindowsDeletion,
    DeleteAction,
))
    ensures
        deletion_start(printer_name@, remove_port, remove_driver, r.0, r.1),
{
    let read = remove_port || remove_driver;
    let stage = if read {
        DeleteStage::ReadingInfo
    } else {
        DeleteStage::DeletingQueue
    };
    let s = WindowsDeletion {
        printer_name,
        remove_port,
        remove_driver,
        port_name: None,
        driver_name: None,
        result: None,
        stage,
    };
    if read {
        (s, DeleteAction::ReadPrinterInfo)
    } else {
        (s, DeleteAction::DeleteQueue)
    }
}

/// The step after the port (or in its place): the driver phase.
fn driver_phase(s: WindowsDeletion, res: DeletePrinterResultInternal) -> (r: (WindowsDeletion, DeleteAction))
    ensures
        after_port_phase(s, res, r.0, r.1),
{
    if res.removed_queue && s.remove_driver {
        match &s.driver_name {
            Some(d) => {
                let a = DeleteAction::CountDriverUsers(clone_string(d));
                let next = WindowsDeletion {
                    printer_name: s.printer_name,
                    remove_port: s.remove_port,
                    remove_driver: s.remove_driver,
                    port_name: s.port_name,
                    driver_name: s.driver_name,
                    result: Some(res),
                    stage: DeleteStage::CountingDriverUsers,
                };
                (next, a)
            },
            None => {
                let mut f = res;
                append_str(&mut f.message, "（未找到驱动信息，已跳过删除驱动）");
                f.removed_driver = false;
                let next = WindowsDeletion {
                    printer_name: s.printer_name,
                    remove_port: s.remove_port,
                    remove_driver: s.remove_driver,
                    port_name: s.port_name,
                    driver_name: s.driver_name,
                    result: None,
                    stage: DeleteStage::Done,
                };
                (next, DeleteAction::Finish(Ok(f)))
            },
        }
    } else {
        let next = WindowsDeletion {
            printer_name: s.printer_name,
            remove_port: s.remove_port,
            remove_driver: s.remove_driver,
            port_name: s.port_name,
            driver_name: s.driver_name,
            result: None,
            stage: DeleteStage::Done,
        };
        (next, DeleteAction::Finish(Ok(res)))
    }
}

/// One step of a Windows deletion, as a relation: from state `s`, given
/// `event`, the deletion goes to `next` and asks for `act`.
pub open spec fn deletion_step(s: WindowsDeletion, event: DeleteEvent, next: WindowsDeletion, act: DeleteAction) -> bool {
    match event {
        DeleteEvent::PrinterInfo(listing) => {
            &&& keeps_request(s, next)
            &&& (opt_view(next.port_name), opt_view(next.driver_name)) == spec_delete_targets(
                s.remove_port,
                s.remove_driver,
                listing_view(listing),
                s.printer_name@,
            )
            &&& next.result is None
            &&& next.stage is DeletingQueue
            &&& act is DeleteQueue
        },
        DeleteEvent::QueueDeleted(outcome) => match outcome {
            QueueDeletion::OpenFailed(code) => if code == 1801 || code == 2 {
                exists|res: DeletePrinterResultInternal|
                    res.success && !res.removed_queue && !res.removed_port && !res.removed_driver
                        && res.message@ == not_found_message(s.printer_name@) && opt_view(
                        res.evidence,
                    ) == Some(
                        "OpenPrinterW failed: error_code="@ + decimal(code as int) + " (not found)"@,
                    ) && opt_view(res.port_name) == opt_view(s.port_name) && opt_view(
                        res.driver_name,
                    ) == opt_view(s.driver_name) && #[trigger] after_queue_phase(s, res, next, act)
            } else if code == 5 {
                act matches DeleteAction::Finish(Err(e)) && e@ == access_denied_message(
                    s.printer_name@,
                    code,
                ) && next.stage is Done
            } else {
                act matches DeleteAction::Finish(Err(e)) && e@ == "打开打印机失败: error_code="@
                    + decimal(code as int) && next.stage is Done
            },
            QueueDeletion::DeleteFailed(code) => if code == 5 {
                act matches DeleteAction::Finish(Err(e)) && e@ == access_denied_message(
                    s.printer_name@,
                    code,
                ) && next.stage is Done
            } else {
                act matches DeleteAction::Finish(Err(e)) && e@ == "删除打印机失败: error_code="@
                    + decimal(code as int) && next.stage is Done
            },
            QueueDeletion::Deleted => exists|res: DeletePrinterResultInternal|
                res.success && res.removed_queue && !res.removed_port && !res.removed_driver
                    && res.message@ == "已删除打印机队列: "@ + s.printer_name@ && opt_view(
                    res.evidence,
                ) == Some("DeletePrinter ok printer_name=\""@ + s.printer_name@ + "\""@)
                    && opt_view(res.port_name) == opt_view(s.port_name) && opt_view(res.driver_name)
                    == opt_view(s.driver_name) && #[trigger] after_queue_phase(s, res, next, act),
        },
        DeleteEvent::PortRemoved(removed) => exists|res: DeletePrinterResultInternal|
            res.removed_port == removed && res.message@ == s.result->0.message@ + (if removed {
                "，已删除端口: "@ + s.port_name->0@
            } else {
                "（端口删除失败: "@ + s.port_name->0@ + "）"@
            }) && res.success == s.result->0.success && res.removed_queue
                == s.result->0.removed_queue && res.removed_driver == s.result->0.removed_driver
                && res.driver_name == s.result->0.driver_name && res.port_name
                == s.result->0.port_name && res.evidence == s.result->0.evidence
                && #[trigger] after_port_phase(s, res, next, act),
        DeleteEvent::DriverUsers(usage) => {
            &&& keeps_request(s, next)
            &&& keeps_targets(s, next)
            &&& match s.driver_name {
                None => act matches DeleteAction::Finish(Ok(f)) && driver_skipped(
                    s.result->0,
                    f,
                    "（未找到驱动信息，已跳过删除驱动）"@,
                ) && next.stage is Done,
                Some(d) => match usage {
                    Err(_) => act matches DeleteAction::Finish(Ok(f)) && driver_skipped(
                        s.result->0,
                        f,
                        "（无法检查驱动使用情况，已跳过删除驱动）"@,
                    ) && next.stage is Done,
                    Ok(count) => if count > 0 {
                        act matches DeleteAction::Finish(Ok(f)) && driver_skipped(
                            s.result->0,
                            f,
                            "（该驱动仍被其他 "@ + decimal(count as int) + " 个打印机使用，已跳过删除驱动）"@,
                        ) && next.stage is Done
                    } else {
                        act matches DeleteAction::RemoveDriver(x) && x@ == d@ && next.stage
                            is RemovingDriver && next.result == s.result
                    },
                },
            }
        },
        DeleteEvent::DriverRemoved(removed) => {
            &&& keeps_request(s, next)
            &&& next.stage is Done
            &&& act matches DeleteAction::Finish(Ok(f)) && f.removed_driver == removed
                && f.message@ == s.result->0.message@ + (if removed {
                "，已删除驱动: "@ + s.driver_name->0@
            } else {
                "（驱动删除失败: "@ + s.driver_name->0@ + "）"@
            }) && f.success == s.result->0.success && f.removed_queue == s.result->0.removed_queue
                && f.removed_port == s.result->0.removed_port && f.driver_name
                == s.result->0.driver_name && f.port_name == s.result->0.port_name && f.evidence
                == s.result->0.evidence
        },
    }
}

/// One step of deleting a Windows printer: given where the deletion stands
/// and what the last action gave, the next state and action. The queue
/// must go; the port and the driver are removed as far as they can be,
/// and the driver only when no other printer uses it.
pub fn delete_printer_windows(s: WindowsDeletion, event: DeleteEvent) -> (r: (WindowsDeletion, DeleteAction))
    requires
        event_fits(s.stage, event),
        s.stage is RemovingPort ==> s.result is Some && s.port_name is Some,
        s.stage is CountingDriverUsers ==> s.result is Some,
        s.stage is RemovingDriver ==> s.result is Some && s.driver_name is Some,
    ensures
        deletion_step(s, event, r.0, r.1),
{
    let ghost s0 = s;
    let WindowsDeletion { printer_name, remove_port, remove_driver, port_name, driver_name, result, stage: _ } = s;
    match event {
        DeleteEvent::PrinterInfo(listing) => {
            let (p, d) = delete_targets(remove_port, remove_driver, &listing, printer_name.as_str());
            let next = WindowsDeletion {
                printer_name,
                remove_port,
                remove_driver,
                port_name: p,
                driver_name: d,
                result: None,
                stage: DeleteStage::DeletingQueue,
            };
            (next, DeleteAction::DeleteQueue)
        },
        DeleteEvent::QueueDeleted(outcome) => {
            let r = queue_deletion_result(
                printer_name.as_str(),
                outcome,
                clone_opt_string(&port_name),
                clone_opt_string(&driver_name),
            );
            let s2 = WindowsDeletion {
                printer_name,
                remove_port,
                remove_driver,
                port_name,
                driver_name,
                result: None,
                stage: DeleteStage::Done,
            };
            match r {
                Err(e) => (s2, DeleteAction::Finish(Err(e))),
                Ok(res) => {
                    let ghost res0 = res;
                    let out = if res.removed_queue && s2.remove_port && s2.port_name.is_some() {
                        let p = match &s2.port_name {
                            Some(p) => clone_string(p),
                            None => owned(""),
                        };
                        let next = WindowsDeletion {
                            printer_name: s2.printer_name,
                            remove_port: s2.remove_port,
                            remove_driver: s2.remove_driver,
                            port_name: s2.port_name,
                            driver_name: s2.driver_name,
                            result: Some(res),
                            stage: DeleteStage::RemovingPort,
                        };
                        (next, DeleteAction::RemovePort(p))
                    } else {
                        driver_phase(s2, res)
                    };
                    assert(after_queue_phase(s0, res0, out.0, out.1));
                    out
                },
            }
        },
        DeleteEvent::PortRemoved(removed) => {
            let mut res = match result {
                Some(x) => x,
                None => DeletePrinterResultInternal {
                    success: false,
                    removed_queue: false,
                    removed_port: false,
                    removed_driver: false,
                    driver_name: None,
                    port_name: None,
                    message: owned(""),
                    evidence: None,
                },
            };
            let p = match &port_name {
                Some(p) => clone_string(p),
                None => owned(""),
            };
            after_port_removal(&mut res, p.as_str(), removed);
            let ghost res1 = res;
            let s2 = WindowsDeletion {
                printer_name,
                remove_port,
                remove_driver,
                port_name,
                driver_name,
                result: None,
                stage: DeleteStage::Done,
            };
            let out = driver_phase(s2, res);
            assert(after_port_phase(s0, res1, out.0, out.1));
            out
        },
        DeleteEvent::DriverUsers(usage) => {
            let mut res = match result {
                Some(x) => x,
                None => DeletePrinterResultInternal {
                    success: false,
                    removed_queue: false,
                    removed_port: false,
                    removed_driver: false,
                    driver_name: None,
                    port_name: None,
                    message: owned(""),
                    evidence: None,
                },
            };
            let ghost before = res;
            let step = driver_decision(&mut res, &driver_name, &usage);
            proof {
                if driver_name is Some {
                    if let Ok(count) = usage {
                        if count > 0 {
                            assert(res.message@ =~= before.message@ + ("（该驱动仍被其他 "@ + decimal(
                                count as int,
                            ) + " 个打印机使用，已跳过删除驱动）"@));
                        }
                    }
                }
            }
            match step {
                DriverStep::Skip => {
                    let next = WindowsDeletion {
                        printer_name,
                        remove_port,
                        remove_driver,
                        port_name,
                        driver_name,
                        result: None,
                        stage: DeleteStage::Done,
                    };
                    (next, DeleteAction::Finish(Ok(res)))
                },
                DriverStep::Remove(d) => {
                    let next = WindowsDeletion {
                        printer_name,
                        remove_port,
                        remove_driver,
                        port_name,
                        driver_name,
                        result: Some(res),
                        stage: DeleteStage::RemovingDriver,
                    };
                    (next, DeleteAction::RemoveDriver(d))
                },
            }
        },
        DeleteEvent::DriverRemoved(removed) => {
            let mut res = match result {
                Some(x) => x,
                None => DeletePrinterResultInternal {
                    success: false,
                    removed_queue: false,
                    removed_port: false,
                    removed_driver: false,
                    driver_name: None,
                    port_name: None,
                    message: owned(""),
                    evidence: None,
                },
            };
            let d = match &driver_name {
                Some(d) => clone_string(d),
                None => owned(""),
            };
            after_driver_removal(&mut res, d.as_str(), removed);
            let next = WindowsDeletion {
                printer_name,
                remove_port,
                remove_driver,
                port_name,
                driver_name,
                result: None,
                stage: DeleteStage::Done,
            };
            (next, DeleteAction::Finish(Ok(res)))
        },
    }
}

// ---------------------------------------------------------------------------
// Whole deletions
// ---------------------------------------------------------------------------

/// The event that answers an action (a finished deletion takes none).
pub open spec fn answers(act: DeleteAction, event: DeleteEvent) -> bool {
    match act {
        DeleteAction::ReadPrinterInfo => event is PrinterInfo,
        DeleteAction::DeleteQueue => event is QueueDeleted,
        DeleteAction::RemovePort(_) => event is PortRemoved,
        DeleteAction::CountDriverUsers(_) => event is DriverUsers,
        DeleteAction::RemoveDriver(_) => event is DriverRemoved,
        DeleteAction::Finish(_) => false,
    }
}

/// A deletion of `printer_name` run so far: `states[0]` and `acts[0]` come
/// from `start_windows_deletion`, `events[i]` answers `acts[i]`, and
/// `delete_printer_windows` takes `states[i]` and `events[i]` to
/// `states[i + 1]` and `acts[i + 1]`.
pub open spec fn deletion_run(
    printer_name: Seq<char>,
    remove_port: bool,
    remove_driver: bool,
    states: Seq<WindowsDeletion>,
    events: Seq<DeleteEvent>,
    acts: Seq<DeleteAction>,
) -> bool {
    &&& states.len() == events.len() + 1
    &&& acts.len() == states.len()
    &&& deletion_start(printer_name, remove_port, remove_driver, states[0], acts[0])
    &&& forall|i: int|
        0 <= i < events.len() ==> answers(acts[i], #[trigger] events[i]) && deletion_step(
            states[i],
            events[i],
            states[i + 1],
            acts[i + 1],
        )
}

/// The spooler answers the queue's removal with "no such printer"
/// (error 1801 or 2 when the printer is opened).
pub open spec fn queue_not_found(event: DeleteEvent) -> bool {
    event matches DeleteEvent::QueueDeleted(QueueDeletion::OpenFailed(code)) && (code == 1801 || code
        == 2)
}

/// A deletion whose queue is missing: before the queue step it only reads
/// the printer's details or asks to delete the queue; from the queue step
/// on it is finished, successfully, with nothing removed.
pub open spec fn ends_as_not_found(printer_name: Seq<char>, act: DeleteAction) -> bool {
    act matches DeleteAction::Finish(Ok(r)) && r.success && !r.removed_queue && !r.removed_port
        && !r.removed_driver && r.message@ == not_found_message(printer_name)
}

proof fn lemma_not_found_run(
    printer_name: Seq<char>,
    remove_port: bool,
    remove_driver: bool,
    states: Seq<WindowsDeletion>,
    events: Seq<DeleteEvent>,
    acts: Seq<DeleteAction>,
    n: int,
)
    requires
        deletion_run(printer_name, remove_port, remove_driver, states, events, acts),
        forall|i: int| 0 <= i < events.len() && (#[trigger] events[i]) is QueueDeleted ==> queue_not_found(events[i]),
        0 <= n < acts.len(),
    ensures
        states[n].printer_name@ == printer_name,
        states[n].remove_port == remove_port,
        states[n].remove_driver == remove_driver,
        acts[n] is ReadPrinterInfo || acts[n] is DeleteQueue || ends_as_not_found(printer_name, acts[n]),
        acts[n] is ReadPrinterInfo ==> n == 0,
    decreases n,
{
    if n > 0 {
        let i = n - 1;
        lemma_not_found_run(printer_name, remove_port, remove_driver, states, events, acts, i);
        assert(answers(acts[i], events[i]));
        assert(deletion_step(states[i], events[i], states[i + 1], acts[i + 1]));
        if events[i] is QueueDeleted {
            assert(queue_not_found(events[i]));
            let res = choose|res: DeletePrinterResultInternal|
                res.success && !res.removed_queue && !res.removed_port && !res.removed_driver
                    && res.message@ == not_found_message(states[i].printer_name@) && opt_view(res.evidence)
                    == Some(
                    "OpenPrinterW failed: error_code="@ + decimal(
                        (events[i]->QueueDeleted_0->OpenFailed_0) as int,
                    ) + " (not found)"@,
                ) && opt_view(res.port_name) == opt_view(states[i].port_name) && opt_view(res.driver_name)
                    == opt_view(states[i].driver_name) && #[trigger] after_queue_phase(
                    states[i],
                    res,
                    states[i + 1],
                    acts[i + 1],
                );
            assert(after_queue_phase(states[i], res, states[i + 1], acts[i + 1]));
        }
    }
}

/// Deleting a printer again: once a deletion has removed the queue, the
/// spooler no longer finds a printer of that name (error 1801 or 2 when it
/// is opened). A second deletion of it then succeeds without removing a
/// queue, a port or a driver, asks for no port or driver to be removed,
/// and says that the printer does not exist (may already be deleted),
/// whether or not the port and driver were to be removed.
pub proof fn law_repeat_deletion_finds_nothing(
    printer_name: Seq<char>,
    first_result: DeletePrinterResultInternal,
    remove_port: bool,
    remove_driver: bool,
    states: Seq<WindowsDeletion>,
    events: Seq<DeleteEvent>,
    acts: Seq<DeleteAction>,
)
    requires
        first_result.removed_queue,
        deletion_run(printer_name, remove_port, remove_driver, states, events, acts),
        forall|i: int| 0 <= i < events.len() && (#[trigger] events[i]) is QueueDeleted ==> queue_not_found(events[i]),
    ensures
        forall|i: int|
            0 <= i < acts.len() ==> !((#[trigger] acts[i]) is RemovePort) && !(acts[i] is RemoveDriver)
                && !(acts[i] is CountDriverUsers),
        acts.last() is Finish ==> ends_as_not_found(printer_name, acts.last()),
        events.len() <= 2,
{
    assert forall|i: int|
        0 <= i < acts.len() implies !((#[trigger] acts[i]) is RemovePort) && !(acts[i] is RemoveDriver)
        && !(acts[i] is CountDriverUsers) by {
        lemma_not_found_run(printer_name, remove_port, remove_driver, states, events, acts, i);
    }
    lemma_not_found_run(printer_name, remove_port, remove_driver, states, events, acts, acts.len() - 1);
    if events.len() > 2 {
        lemma_not_found_run(printer_name, remove_port, remove_driver, states, events, acts, 1);
        lemma_not_found_run(printer_name, remove_port, remove_driver, states, events, acts, 2);
        assert(answers(acts[1], events[1]));
        assert(answers(acts[2], events[2]));
        assert(events[1] is QueueDeleted);
        assert(deletion_step(states[1], events[1], states[2], acts[2]));
    }
}

} // verus!

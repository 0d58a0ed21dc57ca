use vstd::prelude::*;
use crate::command::{decode_windows_string, spec_decode_windows_string};
use crate::config::{opt_view, clone_string, clone_opt_string};
use crate::macos_flow::{debug_opt_i32, debug_opt_i32_exec};
use crate::outside::{from_utf16, from_utf16_lossy, utf16_decode, utf16_decode_lossy};
use crate::platform::DetailedPrinterInfo;
use crate::text::{
    owned, append_str, chars_of, string_of, trim, trim_chars, lines, lines_of, filter_map,
    lemma_filter_map_take,
};

verus! {

// ---------------------------------------------------------------------------
// Enumerating printers
// ---------------------------------------------------------------------------

/// A printer as the spooler enumerates it.
pub struct PrinterInfo {
    pub name: String,
    pub port_name: Option<String>,
    pub driver_name: Option<String>,
}

pub open spec fn info_names(infos: Seq<PrinterInfo>) -> Seq<Seq<char>> {
    infos.map_values(|p: PrinterInfo| p.name@)
}

/// The names of the installed printers, in the order enumerated; a failed
/// enumeration is reported with the `WIN_LIST_PRINTERS_FAILED` code.
pub fn list_printers_windows(enumerated: Result<Vec<PrinterInfo>, String>) -> (r: Result<
    Vec<String>,
    String,
>)
    ensures
        match enumerated {
            Ok(infos) => r matches Ok(names) && names@.map_values(|s: String| s@) == info_names(
                infos@,
            ),
            Err(e) => r matches Err(m) && m@ == "WIN_LIST_PRINTERS_FAILED: "@ + e@,
        },
{
    match enumerated {
        Ok(infos) => {
            let mut names: Vec<String> = Vec::new();
            let mut i: usize = 0;
            while i < infos.len()
                invariant
                    i <= infos@.len(),
                    names@.map_values(|s: String| s@) == info_names(infos@.take(i as int)),
                decreases infos@.len() - i,
            {
                let ghost before = names@;
                names.push(clone_string(&infos[i].name));
                assert(names@.map_values(|s: String| s@) =~= before.map_values(|s: String| s@).push(
                    infos@[i as int].name@,
                ));
                assert(info_names(infos@.take(i + 1)) =~= info_names(infos@.take(i as int)).push(
                    infos@[i as int].name@,
                ));
                i = i + 1;
            }
            assert(infos@.take(infos@.len() as int) =~= infos@);
            Ok(names)
        },
        Err(e) => {
            let mut m = owned("WIN_LIST_PRINTERS_FAILED: ");
            append_str(&mut m, e.as_str());
            Err(m)
        },
    }
}

/// What follows the spooler's enumeration: its printers when it found
/// some; the PowerShell listing when it found none or failed.
pub enum EnumNext {
    Use(Vec<PrinterInfo>),
    FallBack,
}

pub fn after_enum_printers(enumerated: Result<Vec<PrinterInfo>, String>) -> (r: EnumNext)
    ensures
        match enumerated {
            Ok(infos) => if infos@.len() > 0 {
                r == EnumNext::Use(infos)
            } else {
                r is FallBack
            },
            Err(_) => r is FallBack,
        },
{
    match enumerated {
        Ok(infos) => {
            if infos.len() > 0 {
                EnumNext::Use(infos)
            } else {
                EnumNext::FallBack
            }
        },
        Err(_) => EnumNext::FallBack,
    }
}

/// The PowerShell script of the fallback listing: one printer name per
/// line, in UTF-8.
pub const FALLBACK_SCRIPT: &'static str =
    "[Console]::OutputEncoding = [System.Text.Encoding]::UTF8; Get-Printer | Select-Object -ExpandProperty Name";

/// A line of the fallback listing, trimmed, if it is not blank.
pub open spec fn name_line(l: Seq<char>) -> Option<Seq<char>> {
    if trim(l).len() > 0 {
        Some(trim(l))
    } else {
        None
    }
}

/// The printer names the fallback listing printed.
pub open spec fn fallback_names(stdout: Seq<char>) -> Seq<Seq<char>> {
    if trim(stdout).len() == 0 {
        seq![]
    } else {
        filter_map(lines(stdout), |l: Seq<char>| name_line(l))
    }
}

/// The printers of the fallback listing: exit code 0 gives one printer per
/// non-blank line, without port or driver; another exit code, or a run
/// that could not be made, is an error.
pub fn fallback_printers(run: Result<(Option<i32>, Vec<u8>, Vec<u8>), String>) -> (r: Result<
    Vec<PrinterInfo>,
    String,
>)
    ensures
        match run {
            Ok((code, out, err)) => if code == Some(0i32) {
                r matches Ok(v) && info_names(v@) == fallback_names(spec_decode_windows_string(out@))
                    && forall|i: int| 0 <= i < v@.len() ==> (#[trigger] v@[i]).port_name is None
                    && v@[i].driver_name is None
            } else {
                r matches Err(m) && m@ == "PowerShell Get-Printer fallback failed: exit_code="@
                    + debug_opt_i32(code) + ", stderr="@ + spec_decode_windows_string(err@)
            },
            Err(e) => r matches Err(m) && m@ == "PowerShell Get-Printer fallback execution failed: "@
                + e@,
        },
{
    match run {
        Ok((code, out, err)) => {
            let stdout = decode_windows_string(out.as_slice());
            let stderr = decode_windows_string(err.as_slice());
            if code != Some(0i32) {
                let mut m = owned("PowerShell Get-Printer fallback failed: exit_code=");
                append_str(&mut m, debug_opt_i32_exec(code).as_str());
                append_str(&mut m, ", stderr=");
                append_str(&mut m, stderr.as_str());
                return Err(m);
            }
            let sv = chars_of(stdout.as_str());
            let t = trim_chars(sv.as_slice());
            if t.len() == 0 {
                let v: Vec<PrinterInfo> = Vec::new();
                assert(info_names(v@) =~= seq![]);
                return Ok(v);
            }
            let ls = lines_of(sv.as_slice());
            let ghost f = |l: Seq<char>| name_line(l);
            let ghost lv = ls@.map_values(|l: Vec<char>| l@);
            let mut v: Vec<PrinterInfo> = Vec::new();
            let mut i: usize = 0;
            while i < ls.len()
                invariant
                    i <= ls@.len(),
                    lv == ls@.map_values(|l: Vec<char>| l@),
                    lv == lines(sv@),
                    f == (|l: Seq<char>| name_line(l)),
                    info_names(v@) == filter_map(lv.take(i as int), f),
                    forall|j: int| 0 <= j < v@.len() ==> (#[trigger] v@[j]).port_name is None
                        && v@[j].driver_name is None,
                decreases ls@.len() - i,
            {
                proof {
                    lemma_filter_map_take(lv, f, i as int);
                }
                let line = trim_chars(ls[i].as_slice());
                assert(lv[i as int] == ls@[i as int]@);
                if line.len() > 0 {
                    let ghost before = v@;
                    v.push(PrinterInfo { name: string_of(line.as_slice()), port_name: None, driver_name: None });
                    assert(info_names(v@) =~= info_names(before).push(line@));
                }
                i = i + 1;
            }
            assert(lv.take(lv.len() as int) =~= lv);
            Ok(v)
        },
        Err(e) => {
            let mut m = owned("PowerShell Get-Printer fallback execution failed: ");
            append_str(&mut m, e.as_str());
            Err(m)
        },
    }
}

// ---------------------------------------------------------------------------
// Printer details
// ---------------------------------------------------------------------------

/// The characters of a wide-character buffer up to its first NUL (all of
/// it if there is none), unpaired surrogates replaced.
pub open spec fn spec_extract_wide_string(buffer: Seq<u16>) -> Seq<char> {
    utf16_decode_lossy(buffer.take(nul_position(buffer)))
}

/// The index of the first 0 in the buffer, or its length.
pub open spec fn nul_position(buffer: Seq<u16>) -> int
    decreases buffer.len(),
{
    if buffer.len() == 0 {
        0
    } else if buffer[0] == 0 {
        0
    } else {
        1 + nul_position(buffer.drop_first())
    }
}

pub fn extract_wide_string(buffer: &[u16]) -> (r: String)
    ensures
        r@ == spec_extract_wide_string(buffer@),
{
    let mut i: usize = 0;
    assert(buffer@.skip(0) =~= buffer@);
    while i < buffer.len() && buffer[i] != 0
        invariant
            i <= buffer@.len(),
            nul_position(buffer@) == i + nul_position(buffer@.skip(i as int)),
        decreases buffer@.len() - i,
    {
        assert(buffer@.skip(i as int).drop_first() =~= buffer@.skip(i + 1));
        i = i + 1;
    }
    proof {
        if i < buffer@.len() {
            assert(buffer@.skip(i as int)[0] == buffer@[i as int]);
        }
    }
    let mut head: Vec<u16> = Vec::new();
    let mut k: usize = 0;
    while k < i
        invariant
            k <= i <= buffer@.len(),
            head@ == buffer@.take(k as int),
        decreases i - k,
    {
        head.push(buffer[k]);
        assert(buffer@.take(k + 1) =~= buffer@.take(k as int).push(buffer@[k as int]));
        k = k + 1;
    }
    from_utf16_lossy(head.as_slice())
}

/// A text field of the spooler: kept when it decodes; comment and
/// location (`keep_empty` false) are also dropped when empty.
pub open spec fn field_text(units: Option<Seq<u16>>, keep_empty: bool) -> Option<Seq<char>> {
    match units {
        Some(u) => match utf16_decode(u) {
            Some(s) => if keep_empty || s.len() > 0 {
                Some(s)
            } else {
                None
            },
            None => None,
        },
        None => None,
    }
}

fn field_text_exec(units: &Option<Vec<u16>>, keep_empty: bool) -> (r: Option<String>)
    ensures
        opt_view(r) == field_text(
            match *units {
                Some(u) => Some(u@),
                None => None,
            },
            keep_empty,
        ),
{
    match units {
        Some(u) => match from_utf16(u.as_slice()) {
            Some(s) => {
                let empty = chars_of(s.as_str()).len() == 0;
                if keep_empty || !empty {
                    Some(s)
                } else {
                    None
                }
            },
            None => None,
        },
        None => None,
    }
}

/// The level-2 details of a printer: its name as asked, and the port,
/// driver, comment and location fields that are present and decode
/// (comment and location only when not empty).
pub fn detailed_info(
    printer_name: &str,
    port: &Option<Vec<u16>>,
    driver: &Option<Vec<u16>>,
    comment: &Option<Vec<u16>>,
    location: &Option<Vec<u16>>,
) -> (r: DetailedPrinterInfo)
    ensures
        r.name@ == printer_name@,
        opt_view(r.port_name) == field_text(
            match *port {
                Some(u) => Some(u@),
                None => None,
            },
            true,
        ),
        opt_view(r.driver_name) == field_text(
            match *driver {
                Some(u) => Some(u@),
                None => None,
            },
            true,
        ),
        opt_view(r.comment) == field_text(
            match *comment {
                Some(u) => Some(u@),
                None => None,
            },
            false,
        ),
        opt_view(r.location) == field_text(
            match *location {
                Some(u) => Some(u@),
                None => None,
            },
            false,
        ),
{
    DetailedPrinterInfo {
        name: owned(printer_name),
        port_name: field_text_exec(port, true),
        driver_name: field_text_exec(driver, true),
        comment: field_text_exec(comment, false),
        location: field_text_exec(location, false),
    }
}

/// A printer's details as plain values.
pub open spec fn detailed_view(p: DetailedPrinterInfo) -> (
    Seq<char>,
    Option<Seq<char>>,
    Option<Seq<char>>,
    Option<Seq<char>>,
    Option<Seq<char>>,
) {
    (p.name@, opt_view(p.port_name), opt_view(p.driver_name), opt_view(p.comment), opt_view(p.location))
}

pub open spec fn detailed_views(ps: Seq<DetailedPrinterInfo>) -> Seq<
    (Seq<char>, Option<Seq<char>>, Option<Seq<char>>, Option<Seq<char>>, Option<Seq<char>>),
> {
    ps.map_values(|p: DetailedPrinterInfo| detailed_view(p))
}

pub fn clone_detailed(p: &DetailedPrinterInfo) -> (r: DetailedPrinterInfo)
    ensures
        detailed_view(r) == detailed_view(*p),
{
    DetailedPrinterInfo {
        name: clone_string(&p.name),
        port_name: clone_opt_string(&p.port_name),
        driver_name: clone_opt_string(&p.driver_name),
        comment: clone_opt_string(&p.comment),
        location: clone_opt_string(&p.location),
    }
}

/// The printers whose details could be read, in order.
pub open spec fn readable(lookups: Seq<Result<DetailedPrinterInfo, String>>) -> Seq<
    DetailedPrinterInfo,
>
    decreases lookups.len(),
{
    if lookups.len() == 0 {
        seq![]
    } else {
        let rest = readable(lookups.drop_last());
        match lookups.last() {
            Ok(p) => rest.push(p),
            Err(_) => rest,
        }
    }
}

/// The detailed list: the printers whose details could be read (one lookup
/// per enumerated printer), in order; a failed enumeration is reported.
pub fn list_printers_detailed(listing: Result<Vec<Result<DetailedPrinterInfo, String>>, String>) -> (r:
    Result<Vec<DetailedPrinterInfo>, String>)
    ensures
        match listing {
            Ok(lookups) => r matches Ok(v) && detailed_views(v@) == detailed_views(
                readable(lookups@),
            ),
            Err(e) => r matches Err(m) && m@ == "枚举打印机失败: "@ + e@,
        },
{
    match listing {
        Ok(lookups) => {
            let mut v: Vec<DetailedPrinterInfo> = Vec::new();
            let mut i: usize = 0;
            while i < lookups.len()
                invariant
                    i <= lookups@.len(),
                    detailed_views(v@) == detailed_views(readable(lookups@.take(i as int))),
                decreases lookups@.len() - i,
            {
                assert(lookups@.take(i + 1).drop_last() =~= lookups@.take(i as int));
                assert(lookups@.take(i + 1).last() == lookups@[i as int]);
                match &lookups[i] {
                    Ok(p) => {
                        let ghost before = v@;
                        v.push(clone_detailed(p));
                        assert(detailed_views(v@) =~= detailed_views(before).push(detailed_view(*p)));
                        assert(detailed_views(readable(lookups@.take(i + 1))) =~= detailed_views(
                            readable(lookups@.take(i as int)),
                        ).push(detailed_view(*p)));
                    },
                    Err(_) => {},
                }
                i = i + 1;
            }
            assert(lookups@.take(lookups@.len() as int) =~= lookups@);
            Ok(v)
        },
        Err(e) => {
            let mut m = owned("枚举打印机失败: ");
            append_str(&mut m, e.as_str());
            Err(m)
        },
    }
}

/// Whether a printer exists, on a platform without the print spooler's
/// API: never, with no error code and an explanation as evidence.
pub fn printer_exists(name: &str) -> (r: (bool, Option<u32>, Option<String>))
    ensures
        !r.0,
        r.1 is None,
        crate::config::opt_view(r.2) == Some("printer_exists: not implemented on non-Windows platform"@),
{
    (false, None, Some(owned("printer_exists: not implemented on non-Windows platform")))
}

} // verus!

use vstd::prelude::*;
use vstd::utf8::{valid_utf8, decode_utf8};
use crate::config::opt_view;
use crate::ipp::utf8_string;
use crate::macos_install::{before_first, before_first_exec};
use crate::outside::{from_utf8_lossy, utf8_lossy, from_utf16_lossy, utf16_decode_lossy};
use crate::text::{
    owned, append_str, append_chars, chars_of, string_of, decimal, u64_decimal, trim, trim_end,
    trim_chars, trim_end_chars, is_ws, is_whitespace, contains, contains_exec, lines, lines_of,
    first_map, parse_unsigned, parse_u32, starts_with, starts_with_exec, slice_chars, trim_char,
    trim_char_exec, trim_end_char, trim_end_char_exec, split_on, split_chars,
};

verus! {

// ---------------------------------------------------------------------------
// System information
// ---------------------------------------------------------------------------

/// What the front end is told about the machine.
pub struct SystemInfo {
    pub platform: String,
    pub os_version: String,
    pub arch: String,
    pub app_version: String,
    pub kernel_version: Option<String>,
    pub os_name: Option<String>,
    pub os_display_version: Option<String>,
    pub build_number: Option<String>,
    pub ubr: Option<u32>,
    pub os_display: Option<String>,
}

/// A string value read from the registry: the UTF-16 units the call filled
/// (its byte count halved), decoded leniently, trailing NULs removed.
pub open spec fn spec_registry_string(buffer: Seq<u16>, size_bytes: u32) -> Seq<char> {
    trim_end_char(utf16_decode_lossy(buffer.take((size_bytes / 2) as int)), '\0')
}

pub fn registry_string(buffer: &[u16], size_bytes: u32) -> (r: String)
    requires
        (size_bytes / 2) as int <= buffer@.len(),
    ensures
        r@ == spec_registry_string(buffer@, size_bytes),
{
    let len = (size_bytes / 2) as usize;
    let mut head: Vec<u16> = Vec::new();
    let mut k: usize = 0;
    while k < len
        invariant
            k <= len <= buffer@.len(),
            head@ == buffer@.take(k as int),
        decreases len - k,
    {
        head.push(buffer[k]);
        assert(buffer@.take(k + 1) =~= buffer@.take(k as int).push(buffer@[k as int]));
        k = k + 1;
    }
    let text = from_utf16_lossy(head.as_slice());
    let t = trim_end_char_exec(chars_of(text.as_str()).as_slice(), '\0');
    string_of(t.as_slice())
}

/// The Windows edition named by a product name.
pub open spec fn edition_of_product(product: Option<Seq<char>>) -> Seq<char> {
    match product {
        Some(pn) => if contains(pn, "Windows 11"@) {
            "Windows 11"@
        } else if contains(pn, "Windows 10"@) {
            "Windows 10"@
        } else {
            "Windows"@
        },
        None => "Windows"@,
    }
}

/// The Windows edition: by build number (22000 and later is Windows 11)
/// when it reads as a number, else by the product name.
pub open spec fn spec_windows_os_name(build: Option<Seq<char>>, product: Option<Seq<char>>) -> Seq<char> {
    match build {
        Some(b) => match parse_unsigned(b, u32::MAX as nat) {
            Some(n) => if n >= 22000 {
                "Windows 11"@
            } else {
                "Windows 10"@
            },
            None => edition_of_product(product),
        },
        None => edition_of_product(product),
    }
}

fn edition_of_product_exec(product: &Option<String>) -> (r: String)
    ensures
        r@ == edition_of_product(opt_view(*product)),
{
    match product {
        Some(pn) => {
            let v = chars_of(pn.as_str());
            if contains_exec(v.as_slice(), chars_of("Windows 11").as_slice()) {
                owned("Windows 11")
            } else if contains_exec(v.as_slice(), chars_of("Windows 10").as_slice()) {
                owned("Windows 10")
            } else {
                owned("Windows")
            }
        },
        None => owned("Windows"),
    }
}

pub fn windows_os_name(build: &Option<String>, product: &Option<String>) -> (r: String)
    ensures
        r@ == spec_windows_os_name(opt_view(*build), opt_view(*product)),
{
    match build {
        Some(b) => match parse_u32(chars_of(b.as_str()).as_slice()) {
            Some(n) => {
                if n >= 22000 {
                    owned("Windows 11")
                } else {
                    owned("Windows 10")
                }
            },
            None => edition_of_product_exec(product),
        },
        None => edition_of_product_exec(product),
    }
}

/// The display form: name, display version, and build with its update
/// revision, each where known; the build is needed for any of it.
pub open spec fn spec_windows_os_display(
    name: Seq<char>,
    display_version: Option<Seq<char>>,
    build: Option<Seq<char>>,
    ubr: Option<u32>,
) -> Seq<char> {
    match (display_version, build, ubr) {
        (Some(ver), Some(b), Some(u)) => name + " "@ + ver + " (Build "@ + b + "."@ + decimal(u as int)
            + ")"@,
        (None, Some(b), Some(u)) => name + " (Build "@ + b + "."@ + decimal(u as int) + ")"@,
        (Some(ver), Some(b), None) => name + " "@ + ver + " (Build "@ + b + ")"@,
        (None, Some(b), None) => name + " (Build "@ + b + ")"@,
        _ => name,
    }
}

/// What the Windows version query reports: the version text, the edition,
/// display version, build number, update revision and display form.
pub struct WindowsVersion {
    pub os_version: String,
    pub os_name: Option<String>,
    pub display_version: Option<String>,
    pub current_build: Option<String>,
    pub ubr: Option<u32>,
    pub os_display: Option<String>,
}

/// The Windows version from the registry values read.
pub fn windows_version_info(
    product_name: Option<String>,
    display_version: Option<String>,
    current_build: Option<String>,
    ubr: Option<u32>,
) -> (r: WindowsVersion)
    ensures
        opt_view(r.os_name) == Some(spec_windows_os_name(opt_view(current_build), opt_view(product_name))),
        opt_view(r.os_display) == Some(
            spec_windows_os_display(
                spec_windows_os_name(opt_view(current_build), opt_view(product_name)),
                opt_view(display_version),
                opt_view(current_build),
                ubr,
            ),
        ),
        r.os_version@ == spec_windows_os_display(
            spec_windows_os_name(opt_view(current_build), opt_view(product_name)),
            opt_view(display_version),
            opt_view(current_build),
            ubr,
        ),
        r.display_version == display_version,
        r.current_build == current_build,
        r.ubr == ubr,
{
    let name = windows_os_name(&current_build, &product_name);
    let mut d = owned(name.as_str());
    match (&display_version, &current_build, ubr) {
        (Some(ver), Some(b), Some(u)) => {
            append_str(&mut d, " ");
            append_str(&mut d, ver.as_str());
            append_str(&mut d, " (Build ");
            append_str(&mut d, b.as_str());
            append_str(&mut d, ".");
            append_chars(&mut d, u64_decimal(u as u64).as_slice());
            append_str(&mut d, ")");
        },
        (None, Some(b), Some(u)) => {
            append_str(&mut d, " (Build ");
            append_str(&mut d, b.as_str());
            append_str(&mut d, ".");
            append_chars(&mut d, u64_decimal(u as u64).as_slice());
            append_str(&mut d, ")");
        },
        (Some(ver), Some(b), None) => {
            append_str(&mut d, " ");
            append_str(&mut d, ver.as_str());
            append_str(&mut d, " (Build ");
            append_str(&mut d, b.as_str());
            append_str(&mut d, ")");
        },
        (None, Some(b), None) => {
            append_str(&mut d, " (Build ");
            append_str(&mut d, b.as_str());
            append_str(&mut d, ")");
        },
        _ => {},
    }
    WindowsVersion {
        os_version: owned(d.as_str()),
        os_name: Some(name),
        display_version,
        current_build,
        ubr,
        os_display: Some(d),
    }
}

/// The macOS version: the product name, then a space and the version
/// number when that could be read; each output decoded leniently and
/// trimmed.
pub fn macos_version_text(
    name_run: Result<(bool, Vec<u8>), String>,
    version_run: Option<Result<(bool, Vec<u8>), String>>,
) -> (r: Result<String, String>)
    ensures
        match name_run {
            Err(e) => r matches Err(m) && m@ == "执行 sw_vers 失败: "@ + e@,
            Ok((false, _)) => r matches Err(m) && m@ == "无法获取 macOS 版本信息"@,
            Ok((true, out)) => match version_run {
                Some(Err(e)) => r matches Err(m) && m@ == "获取 macOS 版本号失败: "@ + e@,
                Some(Ok((true, v))) => r matches Ok(s) && s@ == trim(utf8_lossy(out@)) + " "@ + trim(
                    utf8_lossy(v@),
                ),
                _ => r matches Ok(s) && s@ == trim(utf8_lossy(out@)),
            },
        },
{
    match name_run {
        Err(e) => {
            let mut m = owned("执行 sw_vers 失败: ");
            append_str(&mut m, e.as_str());
            Err(m)
        },
        Ok((ok, out)) => {
            if !ok {
                return Err(owned("无法获取 macOS 版本信息"));
            }
            let name = trim_chars(chars_of(from_utf8_lossy(out.as_slice()).as_str()).as_slice());
            let mut s = string_of(name.as_slice());
            match version_run {
                Some(Err(e)) => {
                    let mut m = owned("获取 macOS 版本号失败: ");
                    append_str(&mut m, e.as_str());
                    Err(m)
                },
                Some(Ok((vok, v))) => {
                    if vok {
                        let num = trim_chars(chars_of(from_utf8_lossy(v.as_slice()).as_str()).as_slice());
                        append_str(&mut s, " ");
                        append_chars(&mut s, num.as_slice());
                    }
                    Ok(s)
                },
                None => Ok(s),
            }
        },
    }
}

/// A line's value after `key`, quotes removed at both ends.
pub open spec fn key_value(line: Seq<char>, key: Seq<char>) -> Option<Seq<char>> {
    if starts_with(line, key) {
        Some(trim_char(line.skip(key.len() as int), '"'))
    } else {
        None
    }
}

/// The last value of a key over the lines (later lines win), or empty.
pub open spec fn last_key_value(ls: Seq<Seq<char>>, key: Seq<char>, other: Seq<char>) -> Seq<char>
    decreases ls.len(),
{
    if ls.len() == 0 {
        seq![]
    } else {
        let l = ls.last();
        if starts_with(l, key) {
            trim_char(l.skip(key.len() as int), '"')
        } else if starts_with(l, other) {
            last_key_value(ls.drop_last(), key, other)
        } else {
            last_key_value(ls.drop_last(), key, other)
        }
    }
}

/// The distribution and version from `/etc/os-release`: `NAME` and
/// `VERSION_ID` (quotes removed; the last line of each wins); none without
/// a name.
pub open spec fn spec_os_release_version(content: Seq<char>) -> Option<Seq<char>> {
    let name = last_key_value(lines(content), "NAME="@, "VERSION_ID="@);
    let version = last_key_value(lines(content), "VERSION_ID="@, "NAME="@);
    if name.len() == 0 {
        None
    } else if version.len() == 0 {
        Some(name)
    } else {
        Some(name + " "@ + version)
    }
}

fn last_key_value_exec(ls: &Vec<Vec<char>>, key: &[char], other: &[char]) -> (r: Vec<char>)
    ensures
        r@ == last_key_value(ls@.map_values(|l: Vec<char>| l@), key@, other@),
{
    let ghost lv = ls@.map_values(|l: Vec<char>| l@);
    let mut found: Vec<char> = Vec::new();
    let mut i: usize = 0;
    while i < ls.len()
        invariant
            i <= ls@.len(),
            lv == ls@.map_values(|l: Vec<char>| l@),
            found@ == last_key_value(lv.take(i as int), key@, other@),
        decreases ls@.len() - i,
    {
        assert(lv.take(i + 1).drop_last() =~= lv.take(i as int));
        assert(lv.take(i + 1).last() == ls@[i as int]@);
        if starts_with_exec(ls[i].as_slice(), key) {
            let rest = slice_chars(ls[i].as_slice(), key.len(), ls[i].len());
            assert(rest@ =~= ls@[i as int]@.skip(key@.len() as int));
            found = trim_char_exec(rest.as_slice(), '"');
        }
        i = i + 1;
    }
    assert(lv.take(lv.len() as int) =~= lv);
    found
}

pub fn os_release_version(content: &str) -> (r: Option<String>)
    ensures
        opt_view(r) == spec_os_release_version(content@),
{
    let ls = lines_of(chars_of(content).as_slice());
    assert(ls@.map_values(|l: Vec<char>| l@) =~= lines(content@));
    let name = last_key_value_exec(&ls, chars_of("NAME=").as_slice(), chars_of("VERSION_ID=").as_slice());
    let version = last_key_value_exec(
        &ls,
        chars_of("VERSION_ID=").as_slice(),
        chars_of("NAME=").as_slice(),
    );
    if name.len() == 0 {
        None
    } else if version.len() == 0 {
        Some(string_of(name.as_slice()))
    } else {
        let mut s = string_of(name.as_slice());
        append_str(&mut s, " ");
        append_chars(&mut s, version.as_slice());
        Some(s)
    }
}

/// The description `lsb_release -d` prints: the text after the first `:`
/// of its first line, trimmed.
pub open spec fn spec_lsb_description(stdout: Seq<char>) -> Option<Seq<char>> {
    if lines(stdout).len() == 0 {
        None
    } else {
        let parts = split_on(lines(stdout)[0], ':');
        if parts.len() > 1 {
            Some(trim(parts[1]))
        } else {
            None
        }
    }
}

pub fn lsb_description(stdout: &str) -> (r: Option<String>)
    ensures
        opt_view(r) == spec_lsb_description(stdout@),
{
    let ls = lines_of(chars_of(stdout).as_slice());
    if ls.len() == 0 {
        return None;
    }
    let parts = split_chars(ls[0].as_slice(), ':');
    if parts.len() > 1 {
        Some(string_of(trim_chars(parts[1].as_slice()).as_slice()))
    } else {
        None
    }
}

/// The Linux version: from `/etc/os-release` when it names the system,
/// else from `lsb_release -d`, else an error.
pub fn linux_version_text(os_release: Option<String>, lsb_run: Option<(bool, Vec<u8>)>) -> (r: Result<
    String,
    String,
>)
    ensures
        ({
            let from_file = match os_release {
                Some(c) => spec_os_release_version(c@),
                None => None,
            };
            let from_lsb = match lsb_run {
                Some((true, out)) => spec_lsb_description(utf8_lossy(out@)),
                _ => None,
            };
            match from_file {
                Some(v) => r matches Ok(s) && s@ == v,
                None => match from_lsb {
                    Some(v) => r matches Ok(s) && s@ == v,
                    None => r matches Err(m) && m@ == "无法获取 Linux 版本信息"@,
                },
            }
        }),
{
    if let Some(c) = &os_release {
        if let Some(v) = os_release_version(c.as_str()) {
            return Ok(v);
        }
    }
    if let Some((ok, out)) = &lsb_run {
        if *ok {
            let text = from_utf8_lossy(out.as_slice());
            if let Some(v) = lsb_description(text.as_str()) {
                return Ok(v);
            }
        }
    }
    Err(owned("无法获取 Linux 版本信息"))
}

// ---------------------------------------------------------------------------
// WebView2
// ---------------------------------------------------------------------------

/// The last whitespace-separated word of a text.
pub open spec fn word_suffix(t: Seq<char>) -> Seq<char>
    decreases t.len(),
{
    if t.len() == 0 || is_ws(t.last()) {
        seq![]
    } else {
        word_suffix(t.drop_last()).push(t.last())
    }
}

pub open spec fn last_word(s: Seq<char>) -> Option<Seq<char>> {
    if trim_end(s).len() == 0 {
        None
    } else {
        Some(word_suffix(trim_end(s)))
    }
}

fn last_word_exec(s: &[char]) -> (r: Option<Vec<char>>)
    ensures
        match r {
            Some(v) => last_word(s@) == Some(v@),
            None => last_word(s@) is None,
        },
{
    let t = trim_end_chars(s);
    if t.len() == 0 {
        return None;
    }
    let mut k: usize = t.len();
    assert(t@.take(t@.len() as int) =~= t@);
    assert(t@.skip(t@.len() as int) =~= Seq::<char>::empty());
    while k > 0 && !is_whitespace(t[k - 1])
        invariant
            k <= t@.len(),
            word_suffix(t@) == word_suffix(t@.take(k as int)) + t@.skip(k as int),
        decreases k,
    {
        assert(t@.take(k as int).drop_last() =~= t@.take(k - 1));
        assert(t@.take(k as int).last() == t@[k - 1]);
        assert(t@.skip(k - 1) =~= seq![t@[k - 1]] + t@.skip(k as int));
        assert(word_suffix(t@.take(k as int)) == word_suffix(t@.take(k - 1)).push(t@[k - 1]));
        assert(word_suffix(t@.take(k - 1)).push(t@[k - 1]) + t@.skip(k as int) =~= word_suffix(
            t@.take(k - 1),
        ) + t@.skip(k - 1));
        k = k - 1;
    }
    proof {
        if k > 0 {
            assert(t@.take(k as int).last() == t@[k - 1]);
        }
        assert(word_suffix(t@.take(k as int)) =~= Seq::<char>::empty());
        assert(word_suffix(t@) =~= t@.skip(k as int));
    }
    let r = slice_chars(t.as_slice(), k, t.len());
    assert(r@ =~= t@.skip(k as int));
    Some(r)
}

/// Whether the WebView2 registry query proves a usable runtime: it
/// succeeded, and either its output is not UTF-8 or the first line that
/// mentions `pv` ends in a version whose major number is at least 90.
pub open spec fn spec_webview2_pv_ok(success: bool, stdout: Seq<u8>) -> bool {
    success && (!valid_utf8(stdout) || match first_map(
        lines(decode_utf8(stdout)),
        |l: Seq<char>| if contains(l, "pv"@) {
            Some(l)
        } else {
            None
        },
    ) {
        Some(line) => match last_word(line) {
            Some(w) => match parse_unsigned(before_first(w, '.'), u32::MAX as nat) {
                Some(major) => major >= 90,
                None => false,
            },
            None => false,
        },
        None => false,
    })
}

pub fn webview2_pv_ok(success: bool, stdout: &[u8]) -> (b: bool)
    ensures
        b == spec_webview2_pv_ok(success, stdout@),
{
    if !success {
        return false;
    }
    match utf8_string(stdout) {
        None => true,
        Some(text) => {
            let ls = lines_of(chars_of(text.as_str()).as_slice());
            let ghost f = |l: Seq<char>| if contains(l, "pv"@) {
                Some(l)
            } else {
                None
            };
            let ghost lv = ls@.map_values(|l: Vec<char>| l@);
            assert(lv =~= lines(text@));
            let pv = chars_of("pv");
            let mut i: usize = 0;
            assert(lv.skip(0) =~= lv);
            while i < ls.len()
                invariant
                    i <= ls@.len(),
                    lv == ls@.map_values(|l: Vec<char>| l@),
                    lv == lines(decode_utf8(stdout@)),
                    valid_utf8(stdout@),
                    success,
                    pv@ == "pv"@,
                    f == (|l: Seq<char>| if contains(l, "pv"@) {
                        Some(l)
                    } else {
                        None
                    }),
                    first_map(lv, f) == first_map(lv.skip(i as int), f),
                decreases ls@.len() - i,
            {
                proof {
                    crate::text::lemma_first_map_skip(lv, f, i as int);
                }
                assert(lv[i as int] == ls@[i as int]@);
                if contains_exec(ls[i].as_slice(), pv.as_slice()) {
                    assert(f(lv[i as int]) == Some(lv[i as int]));
                    assert(first_map(lv, f) == Some(ls@[i as int]@));
                    assert(first_map(lines(decode_utf8(stdout@)), f) == Some(ls@[i as int]@));
                    let ok = match last_word_exec(ls[i].as_slice()) {
                        Some(w) => {
                            let major = before_first_exec(w.as_slice(), '.');
                            match parse_u32(major.as_slice()) {
                                Some(m) => m >= 90,
                                None => false,
                            }
                        },
                        None => false,
                    };
                    return ok;
                }
                i = i + 1;
            }
            assert(lv.skip(lv.len() as int) =~= Seq::<Seq<char>>::empty());
            false
        },
    }
}

/// What the WebView2 checks found, in the order they are made.
pub struct WebView2Checks {
    /// The 32-bit registry query: whether it succeeded and what it printed.
    pub wow_query: Option<(bool, Vec<u8>)>,
    /// The 64-bit registry query succeeded.
    pub native_query_ok: bool,
    /// A `WebView2Loader.dll` sits in a version directory of the runtime.
    pub loader_in_runtime: bool,
    /// `EdgeWebView2Loader.dll` sits in a system directory.
    pub system_loader: bool,
}

/// WebView2 counts as installed when any check proves it (the Edge
/// browser's own key does not count).
pub fn check_webview2_installed(checks: &WebView2Checks) -> (b: bool)
    ensures
        b == ((match checks.wow_query {
            Some((ok, out)) => spec_webview2_pv_ok(ok, out@),
            None => false,
        }) || checks.native_query_ok || checks.loader_in_runtime || checks.system_loader),
{
    let first = match &checks.wow_query {
        Some((ok, out)) => webview2_pv_ok(*ok, out.as_slice()),
        None => false,
    };
    first || checks.native_query_ok || checks.loader_in_runtime || checks.system_loader
}

} // verus!

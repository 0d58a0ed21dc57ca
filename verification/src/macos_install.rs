use vstd::prelude::*;
use crate::text::{
    chars_of, string_of, is_ascii_text, ascii_lower, ascii_upper, lemma_trim_ascii_upper, lemma_ascii_lower_of_upper, owned, append_str, append_chars, trim, trim_chars, trim_str, contains,
    contains_exec, lowercase, to_lowercase, byte_len, is_boundary, take_bytes, exceeds_bytes,
    take_bytes_exec, decimal, i64_decimal, starts_with, starts_with_exec, slice_chars, trim_char,
    trim_char_exec, trim_end_char, trim_end_char_exec, trim_start_char, trim_start_char_exec,
    parse_unsigned, parse_u16, find, find_exec, lemma_find, matches_at, all_chars, hex_lower,
    hex_lower_exec, is_lower_hex, lemma_trim_char_within, str_eq,
};
use vstd::utf8::encode_utf8;
use crate::outside::{sha256, sha256_digest, url_parse, parse_url};

verus! {

// ---------------------------------------------------------------------------
// Excerpts and error classification
// ---------------------------------------------------------------------------

/// The input if it takes at most `max_len` bytes, else its first `max_len`
/// bytes followed by `...`.
pub open spec fn spec_truncate_text(s: Seq<char>, max_len: int) -> Seq<char> {
    if byte_len(s) <= max_len {
        s
    } else {
        take_bytes(s, max_len) + "..."@
    }
}

pub fn truncate_text(input: &str, max_len: usize) -> (r: String)
    requires
        byte_len(input@) > max_len ==> is_boundary(input@, max_len as int),
    ensures
        r@ == spec_truncate_text(input@, max_len as int),
{
    let v = chars_of(input);
    if !exceeds_bytes(v.as_slice(), max_len) {
        return owned(input);
    }
    let head = take_bytes_exec(v.as_slice(), max_len);
    let mut r = string_of(head.as_slice());
    append_str(&mut r, "...");
    r
}

pub open spec fn any_contains(s: Seq<char>, pats: Seq<Seq<char>>) -> bool {
    exists|i: int| 0 <= i < pats.len() && contains(s, #[trigger] pats[i])
}

pub fn any_contains_exec(s: &[char], pats: &Vec<&str>) -> (b: bool)
    ensures
        b == any_contains(s@, pats@.map_values(|p: &str| p@)),
{
    let ghost pv = pats@.map_values(|p: &str| p@);
    let mut i: usize = 0;
    while i < pats.len()
        invariant
            i <= pats@.len(),
            pv == pats@.map_values(|p: &str| p@),
            forall|j: int| 0 <= j < i ==> !contains(s@, #[trigger] pv[j]),
        decreases pats@.len() - i,
    {
        let p = chars_of(pats[i]);
        if contains_exec(s, p.as_slice()) {
            assert(contains(s@, pv[i as int]));
            return true;
        }
        i = i + 1;
    }
    false
}

pub open spec fn privilege_patterns() -> Seq<Seq<char>> {
    seq![
        "not authorized"@,
        "not permitted"@,
        "permission denied"@,
        "privilege"@,
        "operation not permitted"@,
        "authentication"@,
        "sudo"@,
    ]
}

/// lpadmin's error output speaks of missing rights (any case).
pub open spec fn spec_is_privilege_error(stderr: Seq<char>) -> bool {
    any_contains(lowercase(stderr), privilege_patterns())
}

pub fn is_privilege_error(stderr: &str) -> (b: bool)
    ensures
        b == spec_is_privilege_error(stderr@),
{
    let v = chars_of(stderr);
    let lower = to_lowercase(v.as_slice());
    let pats = vec![
        "not authorized",
        "not permitted",
        "permission denied",
        "privilege",
        "operation not permitted",
        "authentication",
        "sudo",
    ];
    assert(pats@.map_values(|p: &str| p@) =~= privilege_patterns());
    any_contains_exec(lower.as_slice(), &pats)
}

pub open spec fn not_found_en_patterns() -> Seq<Seq<char>> {
    seq!["unknown destination"@, "not found"@, "invalid destination"@, "invalid destination name"@]
}

pub open spec fn not_found_zh_patterns() -> Seq<Seq<char>> {
    seq![
        "无效目的位置"@,
        "无效目的地"@,
        "目的位置名称无效"@,
        "目的地名称无效"@,
        "未添加目的位置"@,
        "未添加目的地"@,
        "没有打印机"@,
    ]
}

/// The error output says, in English (any case) or Chinese, that the queue
/// does not exist.
pub open spec fn spec_is_queue_not_found(stderr: Seq<char>) -> bool {
    any_contains(lowercase(stderr), not_found_en_patterns()) || any_contains(
        stderr,
        not_found_zh_patterns(),
    )
}

pub fn is_queue_not_found(stderr: &str) -> (b: bool)
    ensures
        b == spec_is_queue_not_found(stderr@),
{
    let v = chars_of(stderr);
    let lower = to_lowercase(v.as_slice());
    let en = vec!["unknown destination", "not found", "invalid destination", "invalid destination name"];
    assert(en@.map_values(|p: &str| p@) =~= not_found_en_patterns());
    if any_contains_exec(lower.as_slice(), &en) {
        return true;
    }
    let zh = vec![
        "无效目的位置",
        "无效目的地",
        "目的位置名称无效",
        "目的地名称无效",
        "未添加目的位置",
        "未添加目的地",
        "没有打印机",
    ];
    assert(zh@.map_values(|p: &str| p@) =~= not_found_zh_patterns());
    any_contains_exec(v.as_slice(), &zh)
}

// ---------------------------------------------------------------------------
// Device addresses
// ---------------------------------------------------------------------------

/// `input.trim().to_lowercase()`: the form in which device URIs are compared.
pub fn normalize_uri_for_compare(input: &str) -> (r: String)
    ensures
        r@ == lowercase(trim(input@)),
        is_ascii_text(trim(input@)) ==> r@ == ascii_lower(trim(input@)),
{
    let t = trim_str(input);
    let l = to_lowercase(t.as_slice());
    string_of(l.as_slice())
}

/// The port a device scheme uses when none is given.
pub open spec fn spec_default_port(scheme: Seq<char>) -> u16 {
    if scheme == "ipp"@ || scheme == "ipps"@ {
        631
    } else if scheme == "socket"@ {
        9100
    } else if scheme == "lpd"@ {
        515
    } else {
        631
    }
}

pub fn default_port_for_scheme(scheme: &str) -> (p: u16)
    ensures
        p == spec_default_port(scheme@),
{
    if str_eq(scheme, "ipp") || str_eq(scheme, "ipps") {
        631
    } else if str_eq(scheme, "socket") {
        9100
    } else if str_eq(scheme, "lpd") {
        515
    } else {
        631
    }
}

/// `scheme:rest` without the slashes becomes `scheme://rest` for the ipp,
/// ipps, socket and lpd schemes (every leading `scheme:` taken off first);
/// other input is only trimmed.
pub open spec fn fix_scheme(t: Seq<char>, scheme: Seq<char>) -> Option<Seq<char>> {
    let with_colon = scheme + ":"@;
    let with_slashes = scheme + "://"@;
    if starts_with(t, with_colon) && !starts_with(t, with_slashes) {
        Some(with_slashes + crate::macos::strip_all_prefix(t, with_colon))
    } else {
        None
    }
}

pub open spec fn spec_normalize_uri_input(raw: Seq<char>) -> Seq<char> {
    let t = trim(raw);
    match fix_scheme(t, "ipp"@) {
        Some(u) => u,
        None => match fix_scheme(t, "ipps"@) {
            Some(u) => u,
            None => match fix_scheme(t, "socket"@) {
                Some(u) => u,
                None => match fix_scheme(t, "lpd"@) {
                    Some(u) => u,
                    None => t,
                },
            },
        },
    }
}

fn fix_scheme_exec(t: &[char], scheme: &str) -> (r: Option<Vec<char>>)
    ensures
        match r {
            Some(v) => fix_scheme(t@, scheme@) == Some(v@),
            None => fix_scheme(t@, scheme@) is None,
        },
{
    let mut wc = owned(scheme);
    append_str(&mut wc, ":");
    let mut ws = owned(scheme);
    append_str(&mut ws, "://");
    let wcv = chars_of(wc.as_str());
    let wsv = chars_of(ws.as_str());
    if starts_with_exec(t, wcv.as_slice()) && !starts_with_exec(t, wsv.as_slice()) {
        let rest = crate::macos::strip_all_prefix_pub(t, wcv.as_slice());
        let mut out = wsv;
        let mut i: usize = 0;
        let ghost base = out@;
        while i < rest.len()
            invariant
                i <= rest@.len(),
                out@ == base + rest@.take(i as int),
            decreases rest@.len() - i,
        {
            out.push(rest[i]);
            assert(base + rest@.take(i + 1) =~= (base + rest@.take(i as int)).push(rest@[i as int]));
            i = i + 1;
        }
        assert(rest@.take(rest@.len() as int) =~= rest@);
        Some(out)
    } else {
        None
    }
}

/// Completes a device address typed without `//` after the scheme.
pub fn normalize_uri_input(raw: &str) -> (r: String)
    ensures
        r@ == spec_normalize_uri_input(raw@),
{
    let t = trim_str(raw);
    let ts = t.as_slice();
    if let Some(u) = fix_scheme_exec(ts, "ipp") {
        return string_of(u.as_slice());
    }
    if let Some(u) = fix_scheme_exec(ts, "ipps") {
        return string_of(u.as_slice());
    }
    if let Some(u) = fix_scheme_exec(ts, "socket") {
        return string_of(u.as_slice());
    }
    if let Some(u) = fix_scheme_exec(ts, "lpd") {
        return string_of(u.as_slice());
    }
    string_of(ts)
}


/// The position of the last `c` in `s`.
pub open spec fn last_index_of(s: Seq<char>, c: char) -> Option<int>
    decreases s.len(),
{
    if s.len() == 0 {
        None
    } else if s.last() == c {
        Some(s.len() - 1)
    } else {
        last_index_of(s.drop_last(), c)
    }
}

fn last_index_of_exec(s: &[char], c: char) -> (r: Option<usize>)
    ensures
        match r {
            Some(i) => last_index_of(s@, c) == Some(i as int) && i < s@.len(),
            None => last_index_of(s@, c) is None,
        },
{
    let mut k: usize = s.len();
    assert(s@.take(s@.len() as int) =~= s@);
    while k > 0
        invariant
            k <= s@.len(),
            last_index_of(s@.take(k as int), c) == last_index_of(s@, c),
        decreases k,
    {
        assert(s@.take(k as int).drop_last() =~= s@.take(k - 1));
        if s[k - 1] == c {
            return Some(k - 1);
        }
        k = k - 1;
    }
    None
}

/// The part of `s` before its first `c` (all of `s` if there is none).
pub open spec fn before_first(s: Seq<char>, c: char) -> Seq<char> {
    match find(s, seq![c]) {
        Some(i) => s.take(i),
        None => s,
    }
}

pub fn before_first_exec(s: &[char], c: char) -> (r: Vec<char>)
    ensures
        r@ == before_first(s@, c),
{
    let sep = vec![c];
    assert(sep@ =~= seq![c]);
    proof {
        lemma_find(s@, seq![c]);
    }
    match find_exec(s, sep.as_slice()) {
        Some(i) => {
            assert(matches_at(s@, seq![c], i as int));
            let r = slice_chars(s, 0, i);
            assert(r@ =~= s@.take(i as int));
            r
        },
        None => slice_chars(s, 0, s.len()),
    }
}

pub open spec fn all_ascii_digits(s: Seq<char>) -> bool {
    forall|i: int| 0 <= i < s.len() ==> '0' <= #[trigger] s[i] <= '9'
}

/// The host part of an address without a scheme: from the trimmed input
/// with leading `\` then `/` removed, the text before the first `/`.
pub open spec fn cleaned_address(raw: Seq<char>) -> Seq<char> {
    before_first(trim_start_char(trim_start_char(trim(raw), '\\'), '/'), '/')
}

/// Host and optional port of an address without a scheme: a trailing
/// `:digits` is the port (an error if it does not fit in 16 bits, as it is
/// for `host:` with no digits).
pub open spec fn spec_parse_host_port(raw: Seq<char>) -> Result<(Seq<char>, Option<u16>), Seq<char>> {
    let cleaned = cleaned_address(raw);
    if cleaned.len() == 0 {
        Err("设备地址为空"@)
    } else {
        match last_index_of(cleaned, ':') {
            Some(q) => {
                let port_str = cleaned.skip(q + 1);
                if all_ascii_digits(port_str) {
                    match parse_unsigned(port_str, u16::MAX as nat) {
                        Some(p) => Ok((cleaned.take(q), Some(p as u16))),
                        None => Err("端口号无效"@),
                    }
                } else {
                    Ok((cleaned, None))
                }
            },
            None => Ok((cleaned, None)),
        }
    }
}

fn all_ascii_digits_exec(s: &[char]) -> (b: bool)
    ensures
        b == all_ascii_digits(s@),
{
    let mut i: usize = 0;
    while i < s.len()
        invariant
            i <= s@.len(),
            forall|j: int| 0 <= j < i ==> '0' <= #[trigger] s@[j] <= '9',
        decreases s@.len() - i,
    {
        if !('0' <= s[i] && s[i] <= '9') {
            return false;
        }
        i = i + 1;
    }
    true
}

pub fn parse_host_port(raw: &str) -> (r: Result<(String, Option<u16>), String>)
    ensures
        match r {
            Ok((h, p)) => spec_parse_host_port(raw@) == Ok::<(Seq<char>, Option<u16>), Seq<char>>(
                (h@, p),
            ),
            Err(e) => spec_parse_host_port(raw@) == Err::<(Seq<char>, Option<u16>), Seq<char>>(e@),
        },
{
    let t = trim_str(raw);
    let a = trim_start_char_exec(t.as_slice(), '\\');
    let b = trim_start_char_exec(a.as_slice(), '/');
    let cleaned = before_first_exec(b.as_slice(), '/');
    if cleaned.len() == 0 {
        return Err(owned("设备地址为空"));
    }
    match last_index_of_exec(cleaned.as_slice(), ':') {
        Some(q) => {
            let port_str = slice_chars(cleaned.as_slice(), q + 1, cleaned.len());
            assert(port_str@ =~= cleaned@.skip(q + 1));
            if all_ascii_digits_exec(port_str.as_slice()) {
                match parse_u16(port_str.as_slice()) {
                    Some(p) => {
                        let host = slice_chars(cleaned.as_slice(), 0, q);
                        assert(host@ =~= cleaned@.take(q as int));
                        Ok((string_of(host.as_slice()), Some(p)))
                    },
                    None => Err(owned("端口号无效")),
                }
            } else {
                Ok((string_of(cleaned.as_slice()), None))
            }
        },
        None => Ok((string_of(cleaned.as_slice()), None)),
    }
}

/// Where to reach a printer: its URI, host and port.
pub struct DeviceTarget {
    pub uri: String,
    pub host: String,
    pub port: u16,
}

/// The URI used for a bare host: port 631 is left out.
pub open spec fn ipp_print_uri(host: Seq<char>, port: u16) -> Seq<char> {
    if port == 631 {
        "ipp://"@ + host + "/ipp/print"@
    } else {
        "ipp://"@ + host + ":"@ + decimal(port as int) + "/ipp/print"@
    }
}

/// The target of a printer path (or of its name when the path is blank): a
/// URI is parsed as such, the port defaulting by scheme; a bare address
/// becomes an IPP URI on its port, 631 by default.
pub open spec fn spec_parse_device_target(path: Seq<char>, fallback: Seq<char>) -> Result<
    (Seq<char>, Seq<char>, u16),
    Seq<char>,
> {
    let raw = if trim(path).len() == 0 {
        fallback
    } else {
        path
    };
    let normalized = spec_normalize_uri_input(raw);
    if contains(normalized, "://"@) {
        match url_parse(normalized) {
            Err(e) => Err("无法解析设备 URI: "@ + e),
            Ok((scheme, host, port, _)) => match host {
                None => Err("URI 缺少 host"@),
                Some(h) => Ok(
                    (
                        normalized,
                        h,
                        match port {
                            Some(p) => p,
                            None => spec_default_port(scheme),
                        },
                    ),
                ),
            },
        }
    } else {
        match spec_parse_host_port(normalized) {
            Err(e) => Err(e),
            Ok((host, port_opt)) => {
                let port = match port_opt {
                    Some(p) => p,
                    None => 631u16,
                };
                Ok((ipp_print_uri(host, port), host, port))
            },
        }
    }
}

pub fn parse_device_target(path: &str, fallback_name: &str) -> (r: Result<DeviceTarget, String>)
    ensures
        match r {
            Ok(t) => spec_parse_device_target(path@, fallback_name@) == Ok::<
                (Seq<char>, Seq<char>, u16),
                Seq<char>,
            >((t.uri@, t.host@, t.port)),
            Err(e) => spec_parse_device_target(path@, fallback_name@) == Err::<
                (Seq<char>, Seq<char>, u16),
                Seq<char>,
            >(e@),
        },
{
    let tp = trim_str(path);
    let raw = if tp.len() == 0 {
        fallback_name
    } else {
        path
    };
    let normalized = normalize_uri_input(raw);
    if crate::text::str_contains(normalized.as_str(), "://") {
        match parse_url(normalized.as_str()) {
            Err(e) => {
                let mut m = owned("无法解析设备 URI: ");
                append_str(&mut m, e.as_str());
                Err(m)
            },
            Ok(parts) => match parts.host {
                None => Err(owned("URI 缺少 host")),
                Some(h) => {
                    let port = match parts.port {
                        Some(p) => p,
                        None => default_port_for_scheme(parts.scheme.as_str()),
                    };
                    Ok(DeviceTarget { uri: normalized, host: h, port })
                },
            },
        }
    } else {
        let (host, port_opt) = parse_host_port(normalized.as_str())?;
        let port: u16 = match port_opt {
            Some(p) => p,
            None => 631,
        };
        let mut uri = owned("ipp://");
        append_str(&mut uri, host.as_str());
        if port != 631 {
            append_str(&mut uri, ":");
            append_chars(&mut uri, crate::text::u64_decimal(port as u64).as_slice());
        }
        append_str(&mut uri, "/ipp/print");
        Ok(DeviceTarget { uri, host, port })
    }
}

// ---------------------------------------------------------------------------
// Queue names
// ---------------------------------------------------------------------------

pub open spec fn is_ascii_alnum(c: char) -> bool {
    ('a' <= c <= 'z') || ('A' <= c <= 'Z') || ('0' <= c <= '9')
}

fn is_ascii_alnum_exec(c: char) -> (b: bool)
    ensures
        b == is_ascii_alnum(c),
{
    ('a' <= c && c <= 'z') || ('A' <= c && c <= 'Z') || ('0' <= c && c <= '9')
}

/// Each run of characters that `keep` refuses becomes one `-`.
pub open spec fn collapse(s: Seq<char>, keep: spec_fn(char) -> bool) -> Seq<char>
    decreases s.len(),
{
    if s.len() == 0 {
        seq![]
    } else {
        let prev = collapse(s.drop_last(), keep);
        if keep(s.last()) {
            prev.push(s.last())
        } else if s.len() >= 2 && !keep(s[s.len() - 2]) {
            prev
        } else {
            prev.push('-')
        }
    }
}

/// The queue-name characters: ASCII letters, digits, `.`, `_`, `-`.
pub open spec fn queue_char(c: char) -> bool {
    crate::macos::is_queue_char(c)
}

fn collapse_exec(s: &[char], names: bool) -> (r: Vec<char>)
    ensures
        r@ == (if names {
            collapse(s@, |c: char| queue_char(c))
        } else {
            collapse(s@, |c: char| is_ascii_alnum(c))
        }),
{
    let ghost keep: spec_fn(char) -> bool = if names {
        |c: char| queue_char(c)
    } else {
        |c: char| is_ascii_alnum(c)
    };
    let mut r: Vec<char> = Vec::new();
    let mut prev_dash = false;
    let mut i: usize = 0;
    assert(s@.take(0) =~= Seq::<char>::empty());
    while i < s.len()
        invariant
            i <= s@.len(),
            keep == (if names {
                |c: char| queue_char(c)
            } else {
                |c: char| is_ascii_alnum(c)
            }),
            r@ == collapse(s@.take(i as int), keep),
            prev_dash == (i > 0 && !keep(s@[i - 1])),
        decreases s@.len() - i,
    {
        let c = s[i];
        let allowed = if names {
            crate::macos::is_queue_char_pub(c)
        } else {
            is_ascii_alnum_exec(c)
        };
        assert(s@.take(i + 1).drop_last() =~= s@.take(i as int));
        assert(s@.take(i + 1).last() == c);
        proof {
            if i >= 1 {
                assert(s@.take(i + 1)[i - 1] == s@[i - 1]);
            }
        }
        if allowed {
            r.push(c);
            prev_dash = false;
        } else if !prev_dash {
            r.push('-');
            prev_dash = true;
        }
        i = i + 1;
    }
    assert(s@.take(s@.len() as int) =~= s@);
    r
}

/// Every character that `collapse` gives is one that `keep` accepts, or `-`.
pub proof fn lemma_collapse_chars(s: Seq<char>, keep: spec_fn(char) -> bool)
    ensures
        all_chars(collapse(s, keep), |c: char| keep(c) || c == '-'),
        collapse(s, keep).len() <= s.len(),
    decreases s.len(),
{
    if s.len() > 0 {
        lemma_collapse_chars(s.drop_last(), keep);
        let prev = collapse(s.drop_last(), keep);
        let p = |c: char| keep(c) || c == '-';
        if keep(s.last()) {
            assert forall|k: int| 0 <= k < prev.push(s.last()).len() implies p(
                #[trigger] prev.push(s.last())[k],
            ) by {
                if k < prev.len() {
                    assert(prev.push(s.last())[k] == prev[k]);
                }
            }
        } else if s.len() >= 2 && !keep(s[s.len() - 2]) {
        } else {
            assert forall|k: int| 0 <= k < prev.push('-').len() implies p(
                #[trigger] prev.push('-')[k],
            ) by {
                if k < prev.len() {
                    assert(prev.push('-')[k] == prev[k]);
                }
            }
        }
    }
}

/// The letters and digits of a printer name for its queue name: runs of
/// other characters become one `-`, `-` is trimmed at both ends, `printer`
/// stands in for nothing, and more than 46 characters are cut to 46 (then
/// trimmed again, `printer` again if nothing is left).
pub open spec fn queue_ascii_part(name: Seq<char>) -> Seq<char> {
    let a0 = trim_char(collapse(name, |c: char| is_ascii_alnum(c)), '-');
    let a = if a0.len() == 0 {
        "printer"@
    } else {
        a0
    };
    if a.len() > 46 {
        let t = trim_char(a.take(46), '-');
        if t.len() == 0 {
            "printer"@
        } else {
            t
        }
    } else {
        a
    }
}

/// `eprinty-`, the name part, `-`, and the first eight hexadecimal digits
/// of the digest.
pub open spec fn spec_queue_name_from_digest(name: Seq<char>, digest: Seq<u8>) -> Seq<char> {
    "eprinty-"@ + queue_ascii_part(name) + "-"@ + hex_lower(digest).take(8)
}

/// What the queue name's hash is taken of: the printer name, `|`, and the
/// device URI trimmed and lower-cased.
pub open spec fn queue_hash_input(name: Seq<char>, device_uri: Seq<char>) -> Seq<char> {
    name + "|"@ + lowercase(trim(device_uri))
}

/// The queue name for a printer and its device URI.
pub open spec fn spec_build_queue_name(name: Seq<char>, device_uri: Seq<char>) -> Seq<char> {
    spec_queue_name_from_digest(
        name,
        sha256(encode_utf8(queue_hash_input(name, device_uri))),
    )
}

/// The queue name of a printer depends on its device URI only up to
/// surrounding whitespace and letter case: installing the same printer
/// again with the URI written otherwise finds the same queue.
pub proof fn law_queue_name_ignores_uri_spelling(name: Seq<char>, uri_a: Seq<char>, uri_b: Seq<char>)
    requires
        lowercase(trim(uri_a)) == lowercase(trim(uri_b)),
    ensures
        spec_build_queue_name(name, uri_a) == spec_build_queue_name(name, uri_b),
{
    assert(queue_hash_input(name, uri_a) == queue_hash_input(name, uri_b));
}

/// The queue name for a printer whose device URI, trimmed, is ASCII: the
/// URI enters the digest with its capitals made small.
pub open spec fn spec_ascii_queue_name(name: Seq<char>, device_uri: Seq<char>) -> Seq<char> {
    spec_queue_name_from_digest(name, sha256(encode_utf8(name + "|"@ + ascii_lower(trim(device_uri)))))
}

/// For ASCII device URIs, the queue name does not depend on letter case or
/// on surrounding whitespace: `IPP://Printer.Local/ipp/print` and
/// ` ipp://printer.local/ipp/print ` give the same queue.
pub proof fn law_queue_name_ignores_ascii_case(name: Seq<char>, uri_a: Seq<char>, uri_b: Seq<char>)
    requires
        is_ascii_text(trim(uri_a)),
        is_ascii_text(trim(uri_b)),
        ascii_lower(trim(uri_a)) == ascii_lower(trim(uri_b)),
    ensures
        spec_ascii_queue_name(name, uri_a) == spec_ascii_queue_name(name, uri_b),
{
}

/// Writing an ASCII device URI in capitals does not change its queue: the
/// URI with every small letter made a capital (`str::to_uppercase` on
/// ASCII text) is still ASCII once trimmed and gives the same queue name.
pub proof fn law_queue_name_ignores_ascii_capitals(name: Seq<char>, uri: Seq<char>)
    requires
        is_ascii_text(trim(uri)),
    ensures
        is_ascii_text(trim(ascii_upper(uri))),
        spec_ascii_queue_name(name, ascii_upper(uri)) == spec_ascii_queue_name(name, uri),
{
    lemma_trim_ascii_upper(uri);
    lemma_ascii_lower_of_upper(trim(uri));
    law_queue_name_ignores_ascii_case(name, ascii_upper(uri), uri);
}

fn printer_word() -> (r: Vec<char>)
    ensures
        r@ == "printer"@,
        r@.len() == 7,
        all_chars(r@, |c: char| is_ascii_alnum(c) || c == '-'),
{
    proof {
        reveal_strlit("printer");
    }
    chars_of("printer")
}

/// The queue name for a printer, given the SHA-256 digest of
/// `queue_hash_input`. The name is at most 63 characters, all of them
/// allowed in a CUPS queue name.
pub fn queue_name_from_digest(printer_name: &str, digest: &[u8]) -> (r: String)
    requires
        digest@.len() == 32,
    ensures
        r@ == spec_queue_name_from_digest(printer_name@, digest@),
        r@.len() <= 63,
        crate::macos::spec_is_valid_queue_name(r@),
{
    let ghost alnum_dash = |c: char| is_ascii_alnum(c) || c == '-';
    let v = chars_of(printer_name);
    let c = collapse_exec(v.as_slice(), false);
    proof {
        lemma_collapse_chars(v@, |c: char| is_ascii_alnum(c));
        assert(all_chars(c@, alnum_dash));
        lemma_trim_char_within(c@, '-', alnum_dash);
    }
    let t = trim_char_exec(c.as_slice(), '-');
    let a: Vec<char> = if t.len() == 0 {
        printer_word()
    } else {
        t
    };
    let part: Vec<char> = if a.len() > 46 {
        let h = slice_chars(a.as_slice(), 0, 46);
        assert(h@ =~= a@.take(46));
        proof {
            assert(all_chars(h@, alnum_dash));
            lemma_trim_char_within(h@, '-', alnum_dash);
        }
        let tt = trim_char_exec(h.as_slice(), '-');
        if tt.len() == 0 {
            printer_word()
        } else {
            tt
        }
    } else {
        a
    };
    assert(part@ == queue_ascii_part(printer_name@));
    assert(part@.len() <= 46);
    assert(all_chars(part@, alnum_dash));
    let hex = hex_lower_exec(digest);
    let h8 = slice_chars(hex.as_slice(), 0, 8);
    assert(h8@ =~= hex@.take(8));
    proof {
        reveal_strlit("eprinty-");
        reveal_strlit("-");
    }
    let mut out = String::new();
    append_str(&mut out, "eprinty-");
    append_chars(&mut out, part.as_slice());
    append_str(&mut out, "-");
    append_chars(&mut out, h8.as_slice());
    assert(out@ =~= "eprinty-"@ + part@ + "-"@ + h8@);
    assert forall|i: int| 0 <= i < out@.len() implies crate::macos::is_queue_char(#[trigger] out@[i]) by {
        if i < 8 {
            assert(out@[i] == "eprinty-"@[i]);
        } else if i < 8 + part@.len() {
            assert(out@[i] == part@[i - 8]);
            assert(alnum_dash(part@[i - 8]));
        } else if i < 9 + part@.len() {
            assert(out@[i] == '-');
        } else {
            assert(out@[i] == h8@[i - 9 - part@.len()]);
            assert(is_lower_hex(hex@[i - 9 - part@.len()]));
        }
    }
    out
}

/// The CUPS queue name for a printer: `eprinty-`, the name's letters and
/// digits, and eight hexadecimal digits of the SHA-256 of the name and the
/// normalised device URI (see `spec_build_queue_name`).
pub fn build_queue_name(printer_name: &str, device_uri: &str) -> (r: String)
    ensures
        r@ == spec_build_queue_name(printer_name@, device_uri@),
        is_ascii_text(trim(device_uri@)) ==> r@ == spec_ascii_queue_name(printer_name@, device_uri@),
        r@.len() <= 63,
        crate::macos::spec_is_valid_queue_name(r@),
{
    let norm = normalize_uri_for_compare(device_uri);
    let mut input = owned(printer_name);
    append_str(&mut input, "|");
    append_str(&mut input, norm.as_str());
    let digest = sha256_digest(input.as_str().as_bytes());
    queue_name_from_digest(printer_name, digest.as_slice())
}

/// The remainder of `n` divided by 10000, truncated toward zero as Rust's
/// `%` on signed integers is (so it carries the sign of `n`).
pub open spec fn clock_remainder(n: int) -> int {
    if n >= 0 {
        n % 10000
    } else {
        -((-n) % 10000)
    }
}

/// `queue-` followed by the decimal form of `now % 10000`.
pub open spec fn fallback_queue_name(now_ms: i64) -> Seq<char> {
    "queue-"@ + decimal(clock_remainder(now_ms as int))
}

fn clock_remainder_exec(n: i64) -> (r: i64)
    ensures
        r == clock_remainder(n as int),
{
    if n >= 0 {
        n % 10000
    } else {
        let p: u64 = if n == i64::MIN {
            0x8000_0000_0000_0000u64
        } else {
            (-n) as u64
        };
        let q: u64 = p % 10000;
        -(q as i64)
    }
}

/// A queue name made from a printer name: allowed characters kept, runs of
/// others turned into one `-`, `-` trimmed at both ends, cut to 60 bytes
/// (then `-` trimmed at the end); `queue-` and the clock's last four
/// decimal digits when nothing is left.
pub open spec fn spec_sanitize_queue_name(input: Seq<char>, now_ms: i64) -> Seq<char> {
    let t = trim_char(collapse(input, |c: char| queue_char(c)), '-');
    if t.len() == 0 {
        fallback_queue_name(now_ms)
    } else if t.len() > 60 {
        let cut = trim_end_char(t.take(60), '-');
        if cut.len() == 0 {
            fallback_queue_name(now_ms)
        } else {
            cut
        }
    } else {
        t
    }
}

fn fallback_name_exec(now_ms: i64) -> (r: Vec<char>)
    ensures
        r@ == fallback_queue_name(now_ms),
{
    proof {
        reveal_strlit("queue-");
    }
    let mut r = chars_of("queue-");
    let d = i64_decimal(clock_remainder_exec(now_ms));
    let mut i: usize = 0;
    let ghost base = r@;
    while i < d.len()
        invariant
            i <= d@.len(),
            r@ == base + d@.take(i as int),
        decreases d@.len() - i,
    {
        r.push(d[i]);
        assert(base + d@.take(i + 1) =~= (base + d@.take(i as int)).push(d@[i as int]));
        i = i + 1;
    }
    assert(d@.take(d@.len() as int) =~= d@);
    r
}

/// Makes a name usable as a CUPS queue name; see `spec_sanitize_queue_name`.
/// `now_ms` is the clock in milliseconds, used only when nothing of the
/// input is usable.
pub fn sanitize_queue_name(input: &str, now_ms: i64) -> (r: String)
    ensures
        r@ == spec_sanitize_queue_name(input@, now_ms),
{
    let v = chars_of(input);
    let c = collapse_exec(v.as_slice(), true);
    let t = trim_char_exec(c.as_slice(), '-');
    if t.len() == 0 {
        let f = fallback_name_exec(now_ms);
        return string_of(f.as_slice());
    }
    if t.len() > 60 {
        let head = slice_chars(t.as_slice(), 0, 60);
        assert(head@ =~= t@.take(60));
        let cut = trim_end_char_exec(head.as_slice(), '-');
        if cut.len() == 0 {
            let f = fallback_name_exec(now_ms);
            return string_of(f.as_slice());
        }
        return string_of(cut.as_slice());
    }
    string_of(t.as_slice())
}

} // verus!

use vstd::prelude::*;
use crate::config::{opt_view, clone_string, clone_strings, strings_view};
use crate::outside::{sha256, sha256_digest, url_parse, parse_url};
use crate::text::{
    owned, append_str, append_chars, chars_of, string_of, decimal, u64_decimal, byte_len,
    byte_len_exec, is_boundary, take_bytes, exceeds_bytes, take_bytes_exec, find, find_exec,
    contains, contains_exec, slice_chars, str_eq, lowercase, to_lowercase, hex_lower,
    hex_lower_exec,
};
use crate::win_extract::components;

verus! {

// ---------------------------------------------------------------------------
// Errors and results of fetching a driver package
// ---------------------------------------------------------------------------

/// Why a driver package could not be fetched.
pub enum FetchError {
    DownloadFailed { step: String, url: String, attempt: u32, http_status: Option<u16>, error: String },
    Sha256Mismatch { expected: String, actual: String, payload_zip: String },
    InvalidSha256 { sha256: String, reason: String },
    IoError { step: String, operation: String, error: String },
    InvalidRemoteUrl { url: String, reason: String },
    DownloadFailedEmptyBody { status: u16, content_length: Option<u64>, bytes: u64, url: String },
    DownloadFailedStatus { status: u16, url: String },
}

/// `{:?}` of an optional length: `Some(n)` or `None`.
pub open spec fn debug_opt_u64(o: Option<u64>) -> Seq<char> {
    match o {
        Some(n) => "Some("@ + decimal(n as int) + ")"@,
        None => "None"@,
    }
}

fn debug_opt_u64_exec(o: Option<u64>) -> (r: String)
    ensures
        r@ == debug_opt_u64(o),
{
    match o {
        Some(n) => {
            let mut r = owned("Some(");
            append_chars(&mut r, u64_decimal(n).as_slice());
            append_str(&mut r, ")");
            r
        },
        None => owned("None"),
    }
}

/// The text of a fetch error.
pub open spec fn spec_fetch_error_message(e: FetchError) -> Seq<char> {
    match e {
        FetchError::DownloadFailed { step, url, attempt, http_status, error } => {
            let status_msg = match http_status {
                Some(s) => "HTTP "@ + decimal(s as int),
                None => "无状态码"@,
            };
            "下载失败 (step="@ + step@ + ", attempt="@ + decimal(attempt as int) + "): "@ + status_msg
                + " | URL: "@ + url@ + " | "@ + error@
        },
        FetchError::Sha256Mismatch { expected, actual, payload_zip } => "SHA256 校验失败\n期望: "@
            + expected@ + "\n实际: "@ + actual@ + "\n文件: "@ + payload_zip@,
        FetchError::InvalidSha256 { sha256, reason } => "SHA256 格式无效: "@ + sha256@ + "\n原因: "@
            + reason@,
        FetchError::IoError { step, operation, error } => "IO 错误 (step="@ + step@ + ", operation="@
            + operation@ + "): "@ + error@,
        FetchError::InvalidRemoteUrl { url, reason } => "远程 URL 无效: "@ + url@ + "\n原因: "@
            + reason@,
        FetchError::DownloadFailedEmptyBody { status, content_length, bytes, url } =>
            "下载失败（空响应体）\n状态码: "@ + decimal(status as int) + "\nContent-Length: "@
            + debug_opt_u64(content_length) + "\n实际字节数: "@ + decimal(bytes as int) + "\nURL: "@
            + url@,
        FetchError::DownloadFailedStatus { status, url } => "下载失败（HTTP 状态码错误）\n状态码: "@
            + decimal(status as int) + "\nURL: "@ + url@,
    }
}

impl FetchError {
    /// The error's text, as it is shown and logged.
    pub fn message(&self) -> (r: String)
        ensures
            r@ == spec_fetch_error_message(*self),
    {
        match self {
            FetchError::DownloadFailed { step, url, attempt, http_status, error } => {
                let status_msg = match http_status {
                    Some(s) => {
                        let mut m = owned("HTTP ");
                        append_chars(&mut m, u64_decimal(*s as u64).as_slice());
                        m
                    },
                    None => owned("无状态码"),
                };
                let mut r = owned("下载失败 (step=");
                append_str(&mut r, step.as_str());
                append_str(&mut r, ", attempt=");
                append_chars(&mut r, u64_decimal(*attempt as u64).as_slice());
                append_str(&mut r, "): ");
                append_str(&mut r, status_msg.as_str());
                append_str(&mut r, " | URL: ");
                append_str(&mut r, url.as_str());
                append_str(&mut r, " | ");
                append_str(&mut r, error.as_str());
                r
            },
            FetchError::Sha256Mismatch { expected, actual, payload_zip } => {
                let mut r = owned("SHA256 校验失败\n期望: ");
                append_str(&mut r, expected.as_str());
                append_str(&mut r, "\n实际: ");
                append_str(&mut r, actual.as_str());
                append_str(&mut r, "\n文件: ");
                append_str(&mut r, payload_zip.as_str());
                r
            },
            FetchError::InvalidSha256 { sha256, reason } => {
                let mut r = owned("SHA256 格式无效: ");
                append_str(&mut r, sha256.as_str());
                append_str(&mut r, "\n原因: ");
                append_str(&mut r, reason.as_str());
                r
            },
            FetchError::IoError { step, operation, error } => {
                let mut r = owned("IO 错误 (step=");
                append_str(&mut r, step.as_str());
                append_str(&mut r, ", operation=");
                append_str(&mut r, operation.as_str());
                append_str(&mut r, "): ");
                append_str(&mut r, error.as_str());
                r
            },
            FetchError::InvalidRemoteUrl { url, reason } => {
                let mut r = owned("远程 URL 无效: ");
                append_str(&mut r, url.as_str());
                append_str(&mut r, "\n原因: ");
                append_str(&mut r, reason.as_str());
                r
            },
            FetchError::DownloadFailedEmptyBody { status, content_length, bytes, url } => {
                let mut r = owned("下载失败（空响应体）\n状态码: ");
                append_chars(&mut r, u64_decimal(*status as u64).as_slice());
                append_str(&mut r, "\nContent-Length: ");
                append_str(&mut r, debug_opt_u64_exec(*content_length).as_str());
                append_str(&mut r, "\n实际字节数: ");
                append_chars(&mut r, u64_decimal(*bytes).as_slice());
                append_str(&mut r, "\nURL: ");
                append_str(&mut r, url.as_str());
                r
            },
            FetchError::DownloadFailedStatus { status, url } => {
                let mut r = owned("下载失败（HTTP 状态码错误）\n状态码: ");
                append_chars(&mut r, u64_decimal(*status as u64).as_slice());
                append_str(&mut r, "\nURL: ");
                append_str(&mut r, url.as_str());
                r
            },
        }
    }
}

/// A driver package on disk: where it is, whether it came from the cache or
/// a download, its size and digest.
pub struct FetchResult {
    pub driver_uuid: String,
    pub uuid_root: String,
    pub payload_zip: String,
    pub source_used: String,
    pub bytes: u64,
    pub sha256_actual: String,
}

// ---------------------------------------------------------------------------
// Checking the request
// ---------------------------------------------------------------------------

/// Why a download address is refused, if it is; otherwise the URL as the
/// parser writes it.
pub open spec fn spec_validate_remote_url(url: Seq<char>) -> Result<Seq<char>, Seq<char>> {
    if contains(url, "://://"@) {
        Err("URL 包含双 scheme（如 http://://）"@)
    } else {
        match url_parse(url) {
            Err(e) => Err("URL 解析失败: "@ + e),
            Ok((scheme, host, port, serialized)) => if scheme != "http"@ && scheme != "https"@ {
                Err("URL scheme 必须是 http 或 https（当前: "@ + scheme + "）"@)
            } else if host is None {
                Err("URL 缺少 host"@)
            } else {
                Ok(serialized)
            },
        }
    }
}

/// Checks a download address: a complete `http` or `https` URL with a
/// host, no doubled scheme; gives it back as the parser writes it.
pub fn validate_remote_url(url: &str) -> (r: Result<String, FetchError>)
    ensures
        match spec_validate_remote_url(url@) {
            Ok(c) => r matches Ok(s) && s@ == c,
            Err(reason) => r matches Err(FetchError::InvalidRemoteUrl { url: u, reason: why }) && u@
                == url@ && why@ == reason,
        },
{
    let v = chars_of(url);
    let dbl = chars_of("://://");
    if contains_exec(v.as_slice(), dbl.as_slice()) {
        return Err(
            FetchError::InvalidRemoteUrl {
                url: owned(url),
                reason: owned("URL 包含双 scheme（如 http://://）"),
            },
        );
    }
    match parse_url(url) {
        Err(e) => {
            let mut why = owned("URL 解析失败: ");
            append_str(&mut why, e.as_str());
            Err(FetchError::InvalidRemoteUrl { url: owned(url), reason: why })
        },
        Ok(parts) => {
            if !str_eq(parts.scheme.as_str(), "http") && !str_eq(parts.scheme.as_str(), "https") {
                let mut why = owned("URL scheme 必须是 http 或 https（当前: ");
                append_str(&mut why, parts.scheme.as_str());
                append_str(&mut why, "）");
                Err(FetchError::InvalidRemoteUrl { url: owned(url), reason: why })
            } else if parts.host.is_none() {
                Err(FetchError::InvalidRemoteUrl { url: owned(url), reason: owned("URL 缺少 host") })
            } else {
                Ok(parts.serialized)
            }
        },
    }
}

pub open spec fn is_ascii_hex(c: char) -> bool {
    ('0' <= c <= '9') || ('a' <= c <= 'f') || ('A' <= c <= 'F')
}

/// Why an expected digest is refused, if it is: it must be 64 hexadecimal
/// characters (the length in bytes).
pub open spec fn sha256_problem(s: Seq<char>) -> Option<Seq<char>> {
    if s.len() == 0 {
        Some("SHA256 不能为空"@)
    } else if byte_len(s) != 64 {
        Some("SHA256 长度必须为 64 字符（当前 "@ + decimal(byte_len(s) as int) + " 字符）"@)
    } else if !(forall|i: int| 0 <= i < s.len() ==> is_ascii_hex(#[trigger] s[i])) {
        Some("SHA256 只能包含十六进制字符（0-9, a-f, A-F）"@)
    } else {
        None
    }
}

/// Checks an expected SHA-256 digest.
pub fn validate_sha256(sha: &str) -> (r: Result<(), FetchError>)
    requires
        byte_len(sha@) <= usize::MAX,
    ensures
        match sha256_problem(sha@) {
            None => r is Ok,
            Some(reason) => r matches Err(FetchError::InvalidSha256 { sha256: s, reason: why }) && s@
                == sha@ && why@ == reason,
        },
{
    let v = chars_of(sha);
    let reason: Option<String> = if v.len() == 0 {
        Some(owned("SHA256 不能为空"))
    } else {
        let n = byte_len_exec(v.as_slice());
        if n != 64 {
            let mut m = owned("SHA256 长度必须为 64 字符（当前 ");
            append_chars(&mut m, u64_decimal(n as u64).as_slice());
            append_str(&mut m, " 字符）");
            Some(m)
        } else {
            let mut ok = true;
            let mut i: usize = 0;
            while i < v.len()
                invariant
                    i <= v@.len(),
                    v@ == sha@,
                    ok == (forall|j: int| 0 <= j < i ==> is_ascii_hex(#[trigger] v@[j])),
                decreases v@.len() - i,
            {
                let c = v[i];
                let h = ('0' <= c && c <= '9') || ('a' <= c && c <= 'f') || ('A' <= c && c <= 'F');
                if !h {
                    ok = false;
                }
                i = i + 1;
            }
            if ok {
                None
            } else {
                Some(owned("SHA256 只能包含十六进制字符（0-9, a-f, A-F）"))
            }
        }
    };
    match reason {
        None => Ok(()),
        Some(why) => Err(FetchError::InvalidSha256 { sha256: owned(sha), reason: why }),
    }
}

/// The driver identifier of a package: `drv_` and the first twelve
/// characters of its digest, lower-cased.
pub open spec fn spec_driver_uuid_for(sha: Seq<char>) -> Seq<char> {
    "drv_"@ + lowercase(sha.take(12))
}

pub fn driver_uuid_for(sha: &str) -> (r: String)
    requires
        sha@.len() >= 12,
    ensures
        r@ == spec_driver_uuid_for(sha@),
{
    let v = chars_of(sha);
    let head = slice_chars(v.as_slice(), 0, 12);
    assert(head@ =~= sha@.take(12));
    let low = to_lowercase(head.as_slice());
    let mut r = owned("drv_");
    append_chars(&mut r, low.as_slice());
    r
}

/// The SHA-256 digest of some bytes in lower-case hexadecimal, as `{:x}`
/// prints it.
pub fn sha256_hex(data: &[u8]) -> (r: String)
    ensures
        r@ == hex_lower(sha256(data@)),
{
    let d = sha256_digest(data);
    string_of(hex_lower_exec(d.as_slice()).as_slice())
}

// ---------------------------------------------------------------------------
// Where the package lives
// ---------------------------------------------------------------------------

/// The paths of a package under the drivers root.
pub struct PayloadPaths {
    pub uuid_root: Vec<String>,
    pub payload_dir: Vec<String>,
    pub payload_zip: Vec<String>,
    pub payload_tmp: Vec<String>,
}

pub fn payload_paths(drivers_root: &Vec<String>, driver_uuid: &str) -> (r: PayloadPaths)
    ensures
        components(r.uuid_root@) == components(drivers_root@).push(driver_uuid@),
        components(r.payload_dir@) == components(drivers_root@).push(driver_uuid@).push(
            "payload"@,
        ),
        components(r.payload_zip@) == components(drivers_root@).push(driver_uuid@).push(
            "payload"@,
        ).push("payload.zip"@),
        components(r.payload_tmp@) == components(drivers_root@).push(driver_uuid@).push(
            "payload"@,
        ).push("payload.zip.part"@),
{
    let mut uuid_root = clone_strings(drivers_root);
    uuid_root.push(owned(driver_uuid));
    let mut payload_dir = clone_strings(&uuid_root);
    payload_dir.push(owned("payload"));
    let mut payload_zip = clone_strings(&payload_dir);
    payload_zip.push(owned("payload.zip"));
    let mut payload_tmp = clone_strings(&payload_dir);
    payload_tmp.push(owned("payload.zip.part"));
    assert(components(uuid_root@) =~= components(drivers_root@).push(driver_uuid@));
    assert(components(payload_dir@) =~= components(uuid_root@).push("payload"@));
    assert(components(payload_zip@) =~= components(payload_dir@).push("payload.zip"@));
    assert(components(payload_tmp@) =~= components(payload_dir@).push("payload.zip.part"@));
    PayloadPaths { uuid_root, payload_dir, payload_zip, payload_tmp }
}

// ---------------------------------------------------------------------------
// A shortened address for the log
// ---------------------------------------------------------------------------

/// The path part of an address after its host, if it has one.
pub open spec fn url_parts(url: Seq<char>) -> Option<(Seq<char>, Seq<char>, Option<Seq<char>>)> {
    match find(url, "://"@) {
        None => None,
        Some(d) => {
            let prefix = url.take(d + 3);
            let after = url.skip(d + 3);
            match find(after, "/"@) {
                Some(p) => Some((prefix, after.take(p), Some(after.skip(p)))),
                None => Some((prefix, after, None)),
            }
        },
    }
}

/// Whether the address can be shortened: a path longer than 50 bytes is
/// cut at byte 50, which must fall between characters.
pub open spec fn url_display_ok(url: Seq<char>) -> bool {
    match url_parts(url) {
        Some((_, _, Some(path))) => byte_len(path) > 50 ==> is_boundary(path, 50),
        _ => true,
    }
}

/// The address for the log: scheme part, `://` once more, the host, and a
/// path cut to 50 bytes with `...`; the address itself when it has no
/// `://`.
pub open spec fn spec_url_display(url: Seq<char>) -> Seq<char> {
    match url_parts(url) {
        None => url,
        Some((prefix, domain, Some(path))) => {
            let summary = if byte_len(path) > 50 {
                take_bytes(path, 50) + "..."@
            } else {
                path
            };
            prefix + "://"@ + domain + summary
        },
        Some((prefix, rest, None)) => prefix + "://"@ + rest,
    }
}

pub fn url_display(url: &str) -> (r: String)
    requires
        url_display_ok(url@),
    ensures
        r@ == spec_url_display(url@),
{
    let v = chars_of(url);
    let n = v.len();
    let sep = chars_of("://");
    proof {
        reveal_strlit("://");
    }
    match find_exec(v.as_slice(), sep.as_slice()) {
        None => owned(url),
        Some(d) => {
            proof {
                crate::text::lemma_find(v@, sep@);
                assert(sep@.len() == 3);
                assert(d + 3 <= n);
            }
            let prefix = slice_chars(v.as_slice(), 0, d + 3);
            let after = slice_chars(v.as_slice(), d + 3, v.len());
            assert(prefix@ =~= url@.take(d + 3));
            assert(after@ =~= url@.skip(d + 3));
            let slash = chars_of("/");
            match find_exec(after.as_slice(), slash.as_slice()) {
                Some(p) => {
                    proof {
                        crate::text::lemma_find(after@, slash@);
                    }
                    let domain = slice_chars(after.as_slice(), 0, p);
                    let path = slice_chars(after.as_slice(), p, after.len());
                    assert(domain@ =~= after@.take(p as int));
                    assert(path@ =~= after@.skip(p as int));
                    let mut r = string_of(prefix.as_slice());
                    append_str(&mut r, "://");
                    append_chars(&mut r, domain.as_slice());
                    if exceeds_bytes(path.as_slice(), 50) {
                        let head = take_bytes_exec(path.as_slice(), 50);
                        append_chars(&mut r, head.as_slice());
                        append_str(&mut r, "...");
                    } else {
                        append_chars(&mut r, path.as_slice());
                    }
                    r
                },
                None => {
                    let mut r = string_of(prefix.as_slice());
                    append_str(&mut r, "://");
                    append_chars(&mut r, after.as_slice());
                    r
                },
            }
        },
    }
}

// ---------------------------------------------------------------------------
// Cache and download decisions
// ---------------------------------------------------------------------------

/// Whether a digest is the expected one, compared lower-cased.
pub open spec fn digest_matches(actual: Seq<char>, expected: Seq<char>) -> bool {
    lowercase(actual) == lowercase(expected)
}

pub fn digest_matches_exec(actual: &str, expected: &str) -> (b: bool)
    ensures
        b == digest_matches(actual@, expected@),
{
    let a = to_lowercase(chars_of(actual).as_slice());
    let e = to_lowercase(chars_of(expected).as_slice());
    let sa = string_of(a.as_slice());
    let se = string_of(e.as_slice());
    str_eq(sa.as_str(), se.as_str())
}

/// The cached package is used when its digest is the expected one; an
/// absent package, an unreadable one or one with another digest is
/// downloaded again (the app removes a bad cached file first).
pub fn use_cached(cached_digest: &Option<Result<String, FetchError>>, expected: &str) -> (b: bool)
    ensures
        b == (match *cached_digest {
            Some(Ok(d)) => digest_matches(d@, expected@),
            _ => false,
        }),
{
    match cached_digest {
        Some(Ok(d)) => digest_matches_exec(d.as_str(), expected),
        _ => false,
    }
}

/// How many times a download is tried.
pub const MAX_ATTEMPTS: u32 = 3;

/// What follows a download step.
pub enum DownloadStep {
    /// Read the response body into the temporary file.
    ReadBody,
    /// Try again after this many seconds; the error stands if no later try
    /// succeeds.
    Retry(u64, FetchError),
    /// Stop trying with this error.
    Stop(FetchError),
    /// The body was written and is to be put in place.
    Written,
}

/// `2^(attempt-1)` seconds: 1, 2 and 4.
pub open spec fn retry_delay(attempt: u32) -> u64 {
    if attempt == 1 {
        1
    } else if attempt == 2 {
        2
    } else {
        4
    }
}

fn retry_delay_exec(attempt: u32) -> (d: u64)
    requires
        1 <= attempt < 3,
    ensures
        d == retry_delay(attempt),
{
    if attempt == 1 {
        1
    } else {
        2
    }
}

/// After the response headers of try `attempt` (1 to 3): 204 and 205 stop
/// with an empty body; another unsuccessful status is tried again (after 1
/// or 2 seconds) until the last try; a declared length of 0 stops with an
/// empty body; otherwise the body is read.
pub fn after_response(attempt: u32, status: u16, success: bool, content_length: Option<u64>, url: &str) -> (r:
    DownloadStep)
    requires
        1 <= attempt <= 3,
    ensures
        status == 204 || status == 205 ==> (r matches DownloadStep::Stop(
            FetchError::DownloadFailedEmptyBody { status: s, content_length: cl, bytes: b, url: u },
        ) && s == status && cl == content_length && b == 0 && u@ == url@),
        status != 204 && status != 205 && !success ==> {
            &&& attempt < 3 ==> (r matches DownloadStep::Retry(delay, FetchError::DownloadFailedStatus {
                status: s,
                url: u,
            }) && delay == retry_delay(attempt) && s == status && u@ == url@)
            &&& attempt == 3 ==> (r matches DownloadStep::Stop(FetchError::DownloadFailedStatus {
                status: s,
                url: u,
            }) && s == status && u@ == url@)
        },
        status != 204 && status != 205 && success && content_length == Some(0u64) ==> (r matches DownloadStep::Stop(
            FetchError::DownloadFailedEmptyBody { status: s, content_length: cl, bytes: b, url: u },
        ) && s == status && cl == Some(0u64) && b == 0 && u@ == url@),
        status != 204 && status != 205 && success && content_length != Some(0u64) ==> r is ReadBody,
{
    if status == 204 || status == 205 {
        return DownloadStep::Stop(
            FetchError::DownloadFailedEmptyBody { status, content_length, bytes: 0, url: owned(url) },
        );
    }
    if !success {
        let e = FetchError::DownloadFailedStatus { status, url: owned(url) };
        if attempt < MAX_ATTEMPTS {
            return DownloadStep::Retry(retry_delay_exec(attempt), e);
        }
        return DownloadStep::Stop(e);
    }
    if content_length == Some(0u64) {
        return DownloadStep::Stop(
            FetchError::DownloadFailedEmptyBody {
                status,
                content_length: Some(0u64),
                bytes: 0,
                url: owned(url),
            },
        );
    }
    DownloadStep::ReadBody
}

/// After a request that got no response: tried again after 1 or 2 seconds
/// until the last try.
pub fn after_request_error(attempt: u32, error: &str, url: &str) -> (r: DownloadStep)
    requires
        1 <= attempt <= 3,
    ensures
        ({
            let expected = |e: FetchError| e matches FetchError::DownloadFailed {
                step: st,
                url: u,
                attempt: a,
                http_status: h,
                error: m,
            } && st@ == "download_internal"@ && u@ == url@ && a == attempt && h is None && m@
                == "请求失败: "@ + error@;
            &&& attempt < 3 ==> (r matches DownloadStep::Retry(delay, e) && delay == retry_delay(attempt)
                && expected(e))
            &&& attempt == 3 ==> (r matches DownloadStep::Stop(e) && expected(e))
        }),
{
    let mut m = owned("请求失败: ");
    append_str(&mut m, error);
    let e = FetchError::DownloadFailed {
        step: owned("download_internal"),
        url: owned(url),
        attempt,
        http_status: None,
        error: m,
    };
    if attempt < MAX_ATTEMPTS {
        DownloadStep::Retry(retry_delay_exec(attempt), e)
    } else {
        DownloadStep::Stop(e)
    }
}

/// After the body was read: no bytes at all stops with an empty body;
/// otherwise the file is put in place.
pub fn after_body(status: u16, content_length: Option<u64>, total_bytes: u64, url: &str) -> (r:
    DownloadStep)
    ensures
        total_bytes == 0 ==> (r matches DownloadStep::Stop(
            FetchError::DownloadFailedEmptyBody { status: s, content_length: cl, bytes: b, url: u },
        ) && s == status && cl == content_length && b == 0 && u@ == url@),
        total_bytes > 0 ==> r is Written,
{
    if total_bytes == 0 {
        DownloadStep::Stop(
            FetchError::DownloadFailedEmptyBody { status, content_length, bytes: 0, url: owned(url) },
        )
    } else {
        DownloadStep::Written
    }
}

/// The final check of a downloaded package: its digest must be the
/// expected one.
pub fn verify_payload(expected: &str, actual: &str, payload_zip: &str) -> (r: Result<(), FetchError>)
    ensures
        digest_matches(actual@, expected@) ==> r is Ok,
        !digest_matches(actual@, expected@) ==> (r matches Err(
            FetchError::Sha256Mismatch { expected: e, actual: a, payload_zip: p },
        ) && e@ == expected@ && a@ == actual@ && p@ == payload_zip@),
{
    if digest_matches_exec(actual, expected) {
        Ok(())
    } else {
        Err(
            FetchError::Sha256Mismatch {
                expected: owned(expected),
                actual: owned(actual),
                payload_zip: owned(payload_zip),
            },
        )
    }
}

} // verus!

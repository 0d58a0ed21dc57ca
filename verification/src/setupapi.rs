use vstd::prelude::*;
use crate::text::{owned, append_str, append_chars, chars_of, radix_digits, u64_upper_hex};
use crate::win_route::published_inf_path;

verus! {

// ---------------------------------------------------------------------------
// Staging a driver package into the driver store
// ---------------------------------------------------------------------------

/// A driver package staged into the driver store.
pub struct StageResult {
    /// The published name, such as `oem170.inf`.
    pub published_name: String,
    /// Where the published INF lies.
    pub published_inf_path: String,
    /// What happened, for the log.
    pub evidence: String,
    /// Whether pnputil was used in place of SetupCopyOEMInfW.
    pub used_fallback: bool,
}

/// Staging a driver package failed.
pub struct StageError {
    pub message: String,
    /// The Win32 error code (`GetLastError`).
    pub win32_error: u32,
    pub evidence: String,
}

/// `n` in upper-case hexadecimal, padded with zeros to eight digits
/// (`{:08X}`).
pub open spec fn hex8(n: u32) -> Seq<char> {
    let d = radix_digits(n as nat, 16);
    Seq::new((8 - d.len()) as nat, |_i: int| '0') + d
}

spec fn pow16(k: nat) -> nat
    decreases k,
{
    if k == 0 {
        1
    } else {
        16 * pow16((k - 1) as nat)
    }
}

proof fn lemma_hex_len(n: nat, k: nat)
    requires
        k >= 1,
        n < pow16(k),
    ensures
        radix_digits(n, 16).len() <= k,
    decreases k,
{
    if n >= 16 {
        let p = pow16((k - 1) as nat);
        assert(pow16(k) == 16 * p);
        if k == 1 {
            assert(pow16(0) == 1);
        }
        assert(n / 16 < p) by (nonlinear_arith)
            requires
                n < 16 * p,
        ;
        crate::text::lemma_div_smaller(n, 16);
        lemma_hex_len(n / 16, (k - 1) as nat);
    }
}

proof fn lemma_hex_digits_len(n: u32)
    ensures
        radix_digits(n as nat, 16).len() <= 8,
{
    reveal_with_fuel(pow16, 9);
    assert(pow16(8) == 0x1_0000_0000);
    lemma_hex_len(n as nat, 8);
}

pub fn hex8_exec(n: u32) -> (r: Vec<char>)
    ensures
        r@ == hex8(n),
{
    let d = u64_upper_hex(n as u64);
    proof {
        lemma_hex_digits_len(n);
    }
    let mut r: Vec<char> = Vec::new();
    let pad: usize = 8 - d.len();
    let mut i: usize = 0;
    while i < pad
        invariant
            i <= pad,
            r@ == Seq::new(i as nat, |_i: int| '0'),
        decreases pad - i,
    {
        r.push('0');
        i = i + 1;
        assert(r@ =~= Seq::new(i as nat, |_i: int| '0'));
    }
    let mut j: usize = 0;
    let ghost head = r@;
    while j < d.len()
        invariant
            j <= d@.len(),
            r@ == head + d@.take(j as int),
        decreases d@.len() - j,
    {
        r.push(d[j]);
        j = j + 1;
        assert(r@ =~= head + d@.take(j as int));
    }
    assert(d@.take(d@.len() as int) =~= d@);
    r
}

impl StageError {
    /// The error as it is shown: the message, the Win32 error code in
    /// hexadecimal, and the evidence after a blank line.
    pub open spec fn spec_display(self) -> Seq<char> {
        self.message@ + " (Win32 error: 0x"@ + hex8(self.win32_error) + ")\n\n"@ + self.evidence@
    }

    pub fn to_string(&self) -> (r: String)
        ensures
            r@ == self.spec_display(),
    {
        let mut r = owned(self.message.as_str());
        append_str(&mut r, " (Win32 error: 0x");
        append_chars(&mut r, hex8_exec(self.win32_error).as_slice());
        append_str(&mut r, ")\n\n");
        append_str(&mut r, self.evidence.as_str());
        r
    }
}

/// The evidence of a staging that succeeded.
pub open spec fn staged_evidence(
    inf_path: Seq<char>,
    inf_dir: Seq<char>,
    published_name: Seq<char>,
) -> Seq<char> {
    "method=SetupCopyOEMInfW inf_path=\""@ + inf_path + "\" source_media_location=\""@ + inf_dir
        + "\" published_name=\""@ + published_name + "\" published_inf_path=\""@
        + "C:\\Windows\\INF\\"@ + published_name + "\" win32_error=0"@
}

/// Checks what SetupCopyOEMInfW gave back: an empty published name fails,
/// so does a published INF that is not there (`published_exists`, looked
/// up by the caller); otherwise the staged package. `last_error` is the
/// thread's last Win32 error, reported on failure.
pub fn validate_and_create_result(
    published_name: &str,
    used_fallback: bool,
    inf_path: &str,
    inf_dir: &str,
    published_exists: bool,
    last_error: u32,
) -> (r: Result<StageResult, StageError>)
    ensures
        published_name@.len() == 0 ==> (r matches Err(e) && e.message@
            == "SetupCopyOEMInfW 返回空的 published name"@ && e.win32_error == last_error
            && e.evidence@ == "method=SetupCopyOEMInfW inf_path=\""@ + inf_path@
            + "\" error=empty_published_name win32_error=0x"@ + hex8(last_error)),
        published_name@.len() > 0 && !published_exists ==> (r matches Err(e) && e.message@
            == "SetupCopyOEMInfW 成功但 published INF 文件不存在: "@ + "C:\\Windows\\INF\\"@
            + published_name@ && e.win32_error == last_error && e.evidence@
            == "method=SetupCopyOEMInfW inf_path=\""@ + inf_path@ + "\" source_media_location=\""@
            + inf_dir@ + "\" published_name=\""@ + published_name@ + "\" published_inf_path=\""@
            + "C:\\Windows\\INF\\"@ + published_name@
            + "\" error=file_not_found_after_copy win32_error=0x"@ + hex8(last_error)),
        published_name@.len() > 0 && published_exists ==> (r matches Ok(s) && s.published_name@
            == published_name@ && s.published_inf_path@ == "C:\\Windows\\INF\\"@ + published_name@
            && s.evidence@ == staged_evidence(inf_path@, inf_dir@, published_name@)
            && s.used_fallback == used_fallback),
{
    if chars_of(published_name).len() == 0 {
        let mut ev = owned("method=SetupCopyOEMInfW inf_path=\"");
        append_str(&mut ev, inf_path);
        append_str(&mut ev, "\" error=empty_published_name win32_error=0x");
        append_chars(&mut ev, hex8_exec(last_error).as_slice());
        return Err(
            StageError {
                message: owned("SetupCopyOEMInfW 返回空的 published name"),
                win32_error: last_error,
                evidence: ev,
            },
        );
    }
    let path = published_inf_path(published_name);
    let mut ev = owned("method=SetupCopyOEMInfW inf_path=\"");
    append_str(&mut ev, inf_path);
    append_str(&mut ev, "\" source_media_location=\"");
    append_str(&mut ev, inf_dir);
    append_str(&mut ev, "\" published_name=\"");
    append_str(&mut ev, published_name);
    append_str(&mut ev, "\" published_inf_path=\"");
    append_str(&mut ev, path.as_str());
    if !published_exists {
        append_str(&mut ev, "\" error=file_not_found_after_copy win32_error=0x");
        append_chars(&mut ev, hex8_exec(last_error).as_slice());
        let mut m = owned("SetupCopyOEMInfW 成功但 published INF 文件不存在: ");
        append_str(&mut m, path.as_str());
        return Err(StageError { message: m, win32_error: last_error, evidence: ev });
    }
    append_str(&mut ev, "\" win32_error=0");
    Ok(
        StageResult {
            published_name: owned(published_name),
            published_inf_path: path,
            evidence: ev,
            used_fallback,
        },
    )
}

} // verus!

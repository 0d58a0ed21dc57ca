use vstd::prelude::*;
use crate::config::opt_view;
use crate::macos::{spec_stderr_snip, stderr_snip};
use crate::macos_flow::{debug_opt_i32, debug_opt_i32_exec};
use crate::text::{
    owned, append_str, append_chars, chars_of, string_of, trim, trim_chars, is_ws, is_whitespace,
    lowercase, to_lowercase, find, find_exec, lemma_find, lines, lines_of, first_map,
    lemma_first_map_skip, slice_chars, contains, str_contains, byte_len, is_boundary, decimal,
    u64_decimal, i64_decimal,
};
use crate::win_driver::{skip_bytes, byte_offset, skip_bytes_exec, byte_offset_exec};

verus! {

// ---------------------------------------------------------------------------
// The job id in `lp`'s answer
// ---------------------------------------------------------------------------

/// The characters of `s` up to its first whitespace.
pub open spec fn leading_word(s: Seq<char>) -> Seq<char>
    decreases s.len(),
{
    if s.len() == 0 || is_ws(s[0]) {
        seq![]
    } else {
        seq![s[0]] + leading_word(s.drop_first())
    }
}

/// The byte offset just after `request id is` in a line, where the
/// lower-cased line holds it.
pub open spec fn job_marker_end(line: Seq<char>) -> Option<int> {
    match find(lowercase(line), "request id is"@) {
        Some(k) => Some(byte_offset(lowercase(line), k) + 13),
        None => None,
    }
}

/// The job id on one line of `lp`'s output: after `request id is` (found
/// without regard to case), the first word of the trimmed rest.
pub open spec fn job_id_in_line(line: Seq<char>) -> Option<Seq<char>> {
    match job_marker_end(line) {
        Some(off) => {
            let after = trim(skip_bytes(line, off));
            if after.len() > 0 {
                Some(leading_word(after))
            } else {
                None
            }
        },
        None => None,
    }
}

/// The lines are read in order until one gives a job id; on each line read
/// the offset found in the lower-cased line must fall between characters of
/// the line itself.
pub open spec fn job_lines_ok(ls: Seq<Seq<char>>) -> bool
    decreases ls.len(),
{
    if ls.len() == 0 {
        true
    } else {
        (match job_marker_end(ls[0]) {
            Some(off) => is_boundary(ls[0], off),
            None => true,
        }) && (job_id_in_line(ls[0]) is None ==> job_lines_ok(ls.drop_first()))
    }
}

/// The job id that `lp` reports (`request id is <printer>-<n> (1 file(s))`).
pub open spec fn spec_parse_job_id(stdout: Seq<char>) -> Option<Seq<char>> {
    first_map(lines(stdout), |l: Seq<char>| job_id_in_line(l))
}

fn leading_word_exec(s: &[char]) -> (r: Vec<char>)
    ensures
        r@ == leading_word(s@),
{
    let mut i: usize = 0;
    assert(s@.skip(0) =~= s@);
    assert(s@.take(0) + leading_word(s@) =~= leading_word(s@));
    while i < s.len() && !is_whitespace(s[i])
        invariant
            i <= s@.len(),
            leading_word(s@) == s@.take(i as int) + leading_word(s@.skip(i as int)),
        decreases s@.len() - i,
    {
        proof {
            let t = s@.skip(i as int);
            assert(t[0] == s@[i as int]);
            assert(t.drop_first() =~= s@.skip(i + 1));
            assert(s@.take(i as int) + (seq![s@[i as int]] + leading_word(s@.skip(i + 1)))
                =~= s@.take(i + 1) + leading_word(s@.skip(i + 1)));
        }
        i = i + 1;
    }
    proof {
        assert(leading_word(s@.skip(i as int)) =~= Seq::<char>::empty());
        assert(s@.take(i as int) + Seq::<char>::empty() =~= s@.take(i as int));
    }
    slice_chars(s, 0, i)
}

fn job_id_in_line_exec(line: &[char]) -> (r: Option<Vec<char>>)
    requires
        match job_marker_end(line@) {
            Some(off) => is_boundary(line@, off),
            None => true,
        },
    ensures
        match r {
            Some(v) => job_id_in_line(line@) == Some(v@),
            None => job_id_in_line(line@) is None,
        },
{
    let lower = to_lowercase(line);
    let marker = chars_of("request id is");
    proof {
        reveal_strlit("request id is");
    }
    match find_exec(lower.as_slice(), marker.as_slice()) {
        None => None,
        Some(k) => {
            proof {
                lemma_find(lower@, marker@);
                crate::text::lemma_byte_len_prefix_le(lower@, k as int);
            }
            let off = byte_offset_exec(lower.as_slice(), k);
            let rest = skip_bytes_exec(line, off + 13);
            let after = trim_chars(rest.as_slice());
            if after.len() > 0 {
                Some(leading_word_exec(after.as_slice()))
            } else {
                None
            }
        },
    }
}

/// Whether reading the job id from `lp`'s output stays between
/// characters on every line it reads (see `job_lines_ok`).
pub fn lp_output_ok(stdout: &str) -> (b: bool)
    ensures
        b == job_lines_ok(lines(stdout@)),
{
    let v = chars_of(stdout);
    let ls = lines_of(v.as_slice());
    let ghost all = lines(stdout@);
    let mut i: usize = 0;
    assert(all.skip(0) =~= all);
    while i < ls.len()
        invariant
            i <= ls@.len() == all.len(),
            all == lines(stdout@),
            forall|k: int| 0 <= k < ls@.len() ==> #[trigger] ls@[k]@ == all[k],
            job_lines_ok(all.skip(i as int)) == job_lines_ok(all),
        decreases ls@.len() - i,
    {
        proof {
            assert(all.skip(i as int)[0] == all[i as int]);
            assert(all.skip(i as int).drop_first() =~= all.skip(i + 1));
        }
        let line = ls[i].as_slice();
        let lower = to_lowercase(line);
        let marker = chars_of("request id is");
        proof {
            reveal_strlit("request id is");
        }
        match find_exec(lower.as_slice(), marker.as_slice()) {
            None => {},
            Some(k) => {
                proof {
                    lemma_find(lower@, marker@);
                    crate::text::lemma_byte_len_prefix_le(lower@, k as int);
                }
                let off = byte_offset_exec(lower.as_slice(), k);
                if !crate::text::is_boundary_exec(line, off + 13) {
                    return false;
                }
                if job_id_in_line_exec(line).is_some() {
                    return true;
                }
            },
        }
        i = i + 1;
    }
    assert(all.skip(i as int) =~= Seq::<Seq<char>>::empty());
    true
}

/// The job id that `lp` reports on standard output, if any.
pub fn parse_job_id(stdout: &str) -> (r: Option<String>)
    requires
        job_lines_ok(lines(stdout@)),
    ensures
        opt_view(r) == spec_parse_job_id(stdout@),
{
    let v = chars_of(stdout);
    let ls = lines_of(v.as_slice());
    let ghost f = |l: Seq<char>| job_id_in_line(l);
    let ghost all = lines(stdout@);
    let mut i: usize = 0;
    assert(all.skip(0) =~= all);
    while i < ls.len()
        invariant
            i <= ls@.len() == all.len(),
            all == lines(stdout@),
            forall|k: int| 0 <= k < ls@.len() ==> #[trigger] ls@[k]@ == all[k],
            f == (|l: Seq<char>| job_id_in_line(l)),
            first_map(all.skip(i as int), f) == first_map(all, f),
            job_lines_ok(all.skip(i as int)),
        decreases ls@.len() - i,
    {
        proof {
            lemma_first_map_skip(all, f, i as int);
            assert(all.skip(i as int)[0] == all[i as int]);
            assert(all.skip(i as int).drop_first() =~= all.skip(i + 1));
        }
        match job_id_in_line_exec(ls[i].as_slice()) {
            Some(w) => {
                return Some(string_of(w.as_slice()));
            },
            None => {},
        }
        i = i + 1;
    }
    assert(all.skip(i as int) =~= Seq::<Seq<char>>::empty());
    None
}

// ---------------------------------------------------------------------------
// Submitting and following the test page
// ---------------------------------------------------------------------------

/// The id under which the progress of one test page is reported.
pub fn print_job_id(now_ms: i64, pid: u32) -> (r: String)
    ensures
        r@ == "print_"@ + decimal(now_ms as int) + "_"@ + decimal(pid as int),
{
    let mut r = owned("print_");
    append_chars(&mut r, i64_decimal(now_ms).as_slice());
    append_str(&mut r, "_");
    append_chars(&mut r, u64_decimal(pid as u64).as_slice());
    r
}

/// The arguments of `lp` for a file on a printer.
pub fn lp_args(printer_name: &str, file: &str) -> (r: Vec<String>)
    ensures
        crate::config::strings_view(r@) == seq!["-d"@, printer_name@, file@],
{
    let r: Vec<String> = vec![owned("-d"), owned(printer_name), owned(file)];
    assert(crate::config::strings_view(r@) =~= seq!["-d"@, printer_name@, file@]);
    r
}

/// One look at the queue of unfinished jobs: the job is done once a
/// successful `lpstat -W not-completed -o` no longer lists it.
pub fn job_completed(run_ok: bool, lpstat_stdout: &str, job_id: &str) -> (r: bool)
    ensures
        r == (run_ok && !contains(lpstat_stdout@, job_id@)),
{
    run_ok && !str_contains(lpstat_stdout, job_id)
}

/// The answer to a test page once `lp` has run: on success the job id when
/// `lp` reported one, else the printer's name; on failure the exit code and
/// a snippet of the error output.
pub fn test_page_result(
    printer_name: &str,
    success: bool,
    exit_code: Option<i32>,
    stdout: &str,
    stderr: &str,
) -> (r: Result<String, String>)
    requires
        success ==> job_lines_ok(lines(stdout@)),
        !success ==> (byte_len(stderr@) > 200 ==> is_boundary(stderr@, 200)),
    ensures
        success ==> (r matches Ok(m) && m@ == match spec_parse_job_id(stdout@) {
            Some(id) => "测试页已提交: "@ + printer_name@ + " ("@ + id + ")"@,
            None => "测试页已发送到打印机: "@ + printer_name@,
        }),
        !success ==> (r matches Err(m) && m@
            == "[PrintTestPage] ERROR step=LP_RESULT message=打印测试页失败 exit_code="@
            + debug_opt_i32(exit_code) + " stderr="@ + spec_stderr_snip(stderr@)),
{
    if success {
        match parse_job_id(stdout) {
            Some(id) => {
                let mut m = owned("测试页已提交: ");
                append_str(&mut m, printer_name);
                append_str(&mut m, " (");
                append_str(&mut m, id.as_str());
                append_str(&mut m, ")");
                Ok(m)
            },
            None => {
                let mut m = owned("测试页已发送到打印机: ");
                append_str(&mut m, printer_name);
                Ok(m)
            },
        }
    } else {
        let mut m = owned("[PrintTestPage] ERROR step=LP_RESULT message=打印测试页失败 exit_code=");
        append_str(&mut m, debug_opt_i32_exec(exit_code).as_str());
        append_str(&mut m, " stderr=");
        let snip = stderr_snip(stderr);
        append_str(&mut m, snip.as_str());
        Err(m)
    }
}

} // verus!

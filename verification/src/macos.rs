use vstd::prelude::*;
use crate::text::{
    chars_of, string_of, owned, append_str, append_chars, trim, trim_chars, trim_str, contains,
    contains_exec, str_contains, lowercase, to_lowercase, lines, lines_of, find, find_exec,
    lemma_find, starts_with, starts_with_exec, slice_chars, byte_len, is_boundary, take_bytes,
    exceeds_bytes, is_boundary_exec, take_bytes_exec, decimal, i64_decimal, parse_signed32,
    parse_i32 as parse_i32_chars, first_map, filter_map, lemma_first_map_skip, lemma_filter_map_take,
    find_from_exec, lemma_find_from,
};
use crate::ipp::SystemPrinter;

verus! {

// ---------------------------------------------------------------------------
// Short excerpts of command output
// ---------------------------------------------------------------------------

/// Every `from` in `s` replaced by `to`.
pub open spec fn replace_char(s: Seq<char>, from: char, to: char) -> Seq<char> {
    s.map_values(|c: char| if c == from { to } else { c })
}

pub fn replace_char_exec(s: &[char], from: char, to: char) -> (r: Vec<char>)
    ensures
        r@ == replace_char(s@, from, to),
{
    let mut r: Vec<char> = Vec::new();
    let mut i: usize = 0;
    while i < s.len()
        invariant
            i <= s@.len(),
            r@ == replace_char(s@.take(i as int), from, to),
        decreases s@.len() - i,
    {
        let c = s[i];
        r.push(if c == from { to } else { c });
        assert(replace_char(s@.take(i + 1), from, to) =~= replace_char(s@.take(i as int), from, to).push(
            if c == from { to } else { c },
        ));
        i = i + 1;
    }
    assert(s@.take(s@.len() as int) =~= s@);
    r
}

/// The first 200 bytes of `s` (all of it if shorter), newlines turned into
/// spaces, trimmed.
pub open spec fn spec_stderr_snip(s: Seq<char>) -> Seq<char> {
    let snip = if byte_len(s) > 200 {
        take_bytes(s, 200)
    } else {
        s
    };
    trim(replace_char(snip, '\n', ' '))
}

/// A short excerpt of an error output, for messages.
pub fn stderr_snip(stderr: &str) -> (r: String)
    requires
        byte_len(stderr@) > 200 ==> is_boundary(stderr@, 200),
    ensures
        r@ == spec_stderr_snip(stderr@),
{
    let v = chars_of(stderr);
    let long = exceeds_bytes(v.as_slice(), 200);
    let snip = if long {
        take_bytes_exec(v.as_slice(), 200)
    } else {
        v
    };
    let replaced = replace_char_exec(snip.as_slice(), '\n', ' ');
    let t = trim_chars(replaced.as_slice());
    string_of(t.as_slice())
}

// ---------------------------------------------------------------------------
// Reading what lpstat prints
// ---------------------------------------------------------------------------

pub open spec fn contains_any(s: Seq<char>, pats: Seq<Seq<char>>) -> bool {
    exists|i: int| 0 <= i < pats.len() && contains(s, #[trigger] pats[i])
}

pub open spec fn empty_zh_patterns() -> Seq<Seq<char>> {
    seq![
        "未添加目的位置"@,
        "未添加目的地"@,
        "没有添加目的位置"@,
        "未添加目标位置"@,
        "未添加打印机"@,
        "没有打印机"@,
        "没有可用打印机"@,
    ]
}

/// The text says, in English or Chinese, that no printer is set up.
pub open spec fn spec_is_empty_destinations(text: Seq<char>) -> bool {
    let lower = lowercase(trim(text));
    ||| contains(lower, "no destinations"@)
    ||| contains(lower, "no printers"@)
    ||| (contains(lower, "not added"@) && contains(lower, "destination"@))
    ||| contains_any(text, empty_zh_patterns())
}

fn contains_any_exec(s: &[char], pats: &Vec<&str>) -> (b: bool)
    ensures
        b == contains_any(s@, pats@.map_values(|p: &str| p@)),
{
    let ghost pv = pats@.map_values(|p: &str| p@);
    let mut i: usize = 0;
    while i < pats.len()
        invariant
            i <= pats@.len(),
            pv == pats@.map_values(|p: &str| p@),
            forall|j: int| 0 <= j < i ==> !contains(s@, #[trigger] pv[j]),
        decreases pats@.len() - i,
    {
        let p = chars_of(pats[i]);
        if contains_exec(s, p.as_slice()) {
            assert(contains(s@, pv[i as int]));
            return true;
        }
        i = i + 1;
    }
    false
}

/// Whether lpstat's output says that no printer is set up.
pub fn is_empty_destinations(text: &str) -> (b: bool)
    ensures
        b == spec_is_empty_destinations(text@),
{
    let t = trim_str(text);
    let lower = to_lowercase(t.as_slice());
    let l = lower.as_slice();
    if contains_exec(l, chars_of("no destinations").as_slice()) || contains_exec(
        l,
        chars_of("no printers").as_slice(),
    ) {
        return true;
    }
    if contains_exec(l, chars_of("not added").as_slice()) && contains_exec(
        l,
        chars_of("destination").as_slice(),
    ) {
        return true;
    }
    let pats = vec![
        "未添加目的位置",
        "未添加目的地",
        "没有添加目的位置",
        "未添加目标位置",
        "未添加打印机",
        "没有打印机",
        "没有可用打印机",
    ];
    assert(pats@.map_values(|p: &str| p@) =~= empty_zh_patterns());
    let tv = chars_of(text);
    contains_any_exec(tv.as_slice(), &pats)
}

/// What an lpstat run came to: its output, "no printers", or an error.
pub enum LpstatResult {
    Data(String),
    Empty,
    Error(String),
}

/// `format!("{:?}", items)` for a list of strings.
pub uninterp spec fn debug_str_list(items: Seq<Seq<char>>) -> Seq<char>;

/// `format!("{:?}", items)`: std's debug form of a list of strings.
#[verifier::external_body]
pub(crate) fn debug_list(items: &[&str]) -> (r: String)
    ensures
        r@ == debug_str_list(items@.map_values(|s: &str| s@)),
{
    format!("{:?}", items)
}

/// The class of a failed lpstat run: `MAC_CUPS_NOT_RUNNING` when either
/// stream says the scheduler is not running, else `MAC_LPSTAT_EXEC_FAIL`.
pub open spec fn lpstat_error_class(stdout: Seq<char>, stderr: Seq<char>) -> Seq<char> {
    if contains(lowercase(stderr), "scheduler is not running"@) || contains(
        lowercase(stdout),
        "scheduler is not running"@,
    ) {
        "MAC_CUPS_NOT_RUNNING"@
    } else {
        "MAC_LPSTAT_EXEC_FAIL"@
    }
}

/// The error of a failed lpstat run: its class, the command, its
/// arguments, the exit code and a snippet of its error output.
pub open spec fn lpstat_error_message(
    cmd: Seq<char>,
    args: Seq<Seq<char>>,
    exit_code: int,
    stdout: Seq<char>,
    stderr: Seq<char>,
) -> Seq<char> {
    lpstat_error_class(stdout, stderr) + ": cmd="@ + cmd + " args="@ + debug_str_list(args)
        + " exit_code="@ + decimal(exit_code) + " stderr_snip=\""@ + spec_stderr_snip(stderr) + "\""@
}

fn mentions_stopped_scheduler(text: &str) -> (b: bool)
    ensures
        b == contains(lowercase(text@), "scheduler is not running"@),
{
    let l = to_lowercase(chars_of(text).as_slice());
    contains_exec(l.as_slice(), chars_of("scheduler is not running").as_slice())
}

/// Sorts an lpstat run: exit code 0 gives its output; otherwise a "no
/// printers" message on either stream gives `Empty`; anything else is an
/// error of its class (`MAC_CUPS_NOT_RUNNING` for a stopped scheduler,
/// `MAC_LPSTAT_EXEC_FAIL` otherwise) naming the command.
pub fn classify_lpstat_result(
    cmd: &str,
    args: &[&str],
    exit_code: i32,
    stdout: &str,
    stderr: &str,
) -> (r: LpstatResult)
    requires
        byte_len(stderr@) > 200 ==> is_boundary(stderr@, 200),
    ensures
        exit_code == 0 ==> (r matches LpstatResult::Data(d) && d@ == stdout@),
        exit_code != 0 && (spec_is_empty_destinations(stderr@) || spec_is_empty_destinations(
            stdout@,
        )) ==> r is Empty,
        exit_code != 0 && !spec_is_empty_destinations(stderr@) && !spec_is_empty_destinations(
            stdout@,
        ) ==> (r matches LpstatResult::Error(e) && e@ == lpstat_error_message(
            cmd@,
            args@.map_values(|s: &str| s@),
            exit_code as int,
            stdout@,
            stderr@,
        )),
{
    if exit_code == 0 {
        return LpstatResult::Data(owned(stdout));
    }
    if is_empty_destinations(stderr) || is_empty_destinations(stdout) {
        return LpstatResult::Empty;
    }
    let mut m = if mentions_stopped_scheduler(stderr) || mentions_stopped_scheduler(stdout) {
        owned("MAC_CUPS_NOT_RUNNING")
    } else {
        owned("MAC_LPSTAT_EXEC_FAIL")
    };
    append_str(&mut m, ": cmd=");
    append_str(&mut m, cmd);
    append_str(&mut m, " args=");
    let dl = debug_list(args);
    append_str(&mut m, dl.as_str());
    append_str(&mut m, " exit_code=");
    append_chars(&mut m, i64_decimal(exit_code as i64).as_slice());
    append_str(&mut m, " stderr_snip=\"");
    let snip = stderr_snip(stderr);
    append_str(&mut m, snip.as_str());
    append_str(&mut m, "\"");
    LpstatResult::Error(m)
}


fn copy_lines(output: &str) -> (r: Vec<Vec<char>>)
    ensures
        r@.len() == lines(output@).len(),
        forall|k: int| 0 <= k < r@.len() ==> #[trigger] r@[k]@ == lines(output@)[k],
{
    let v = chars_of(output);
    lines_of(v.as_slice())
}

pub open spec fn device_prefix(queue: Seq<char>) -> Seq<char> {
    "device for "@ + queue + ":"@
}

/// The text after `prefix` on a line, trimmed, if the line holds `prefix`.
pub open spec fn after_prefix(line: Seq<char>, prefix: Seq<char>) -> Option<Seq<char>> {
    match find(line, prefix) {
        Some(i) => Some(trim(line.skip(i + prefix.len()))),
        None => None,
    }
}

fn after_prefix_exec(line: &[char], prefix: &[char]) -> (r: Option<Vec<char>>)
    ensures
        match r {
            Some(v) => after_prefix(line@, prefix@) == Some(v@),
            None => after_prefix(line@, prefix@) is None,
        },
{
    proof {
        lemma_find(line@, prefix@);
    }
    match find_exec(line, prefix) {
        Some(i) => {
            assert(crate::text::matches_at(line@, prefix@, i as int));
            assert(i + prefix.len() <= line.len());
            let rest = slice_chars(line, i + prefix.len(), line.len());
            assert(rest@ =~= line@.skip(i + prefix@.len()));
            Some(trim_chars(rest.as_slice()))
        },
        None => None,
    }
}

/// The device URI that `lpstat -v` prints for a queue: the rest of the first
/// line that holds `device for <queue>:`, trimmed.
pub fn parse_lpstat_device_uri(queue: &str, output: &str) -> (r: Option<String>)
    ensures
        match r {
            Some(u) => first_map(lines(output@), |l: Seq<char>| after_prefix(l, device_prefix(queue@)))
                == Some(u@),
            None => first_map(lines(output@), |l: Seq<char>| after_prefix(l, device_prefix(queue@)))
                is None,
        },
{
    let mut p = owned("device for ");
    append_str(&mut p, queue);
    append_str(&mut p, ":");
    let pv = chars_of(p.as_str());
    let ls = copy_lines(output);
    let ghost f = |l: Seq<char>| after_prefix(l, device_prefix(queue@));
    let ghost all = lines(output@);
    let mut i: usize = 0;
    assert(all.skip(0) =~= all);
    while i < ls.len()
        invariant
            i <= ls@.len() == all.len(),
            all == lines(output@),
            forall|k: int| 0 <= k < ls@.len() ==> #[trigger] ls@[k]@ == all[k],
            pv@ == device_prefix(queue@),
            f == (|l: Seq<char>| after_prefix(l, device_prefix(queue@))),
            first_map(all.skip(i as int), f) == first_map(all, f),
        decreases ls@.len() - i,
    {
        proof {
            lemma_first_map_skip(all, f, i as int);
        }
        match after_prefix_exec(ls[i].as_slice(), pv.as_slice()) {
            Some(u) => {
                return Some(string_of(u.as_slice()));
            },
            None => {},
        }
        i = i + 1;
    }
    assert(all.skip(i as int) =~= Seq::<Seq<char>>::empty());
    None
}

/// The description on a line that starts with `Description:`: the rest of
/// the trimmed line with every leading `Description:` removed, trimmed.
pub open spec fn strip_all_prefix(s: Seq<char>, p: Seq<char>) -> Seq<char>
    decreases s.len(),
{
    if p.len() > 0 && starts_with(s, p) {
        strip_all_prefix(s.skip(p.len() as int), p)
    } else {
        s
    }
}

pub open spec fn description_of(line: Seq<char>) -> Option<Seq<char>> {
    let t = trim(line);
    if starts_with(t, "Description:"@) {
        Some(trim(strip_all_prefix(t, "Description:"@)))
    } else {
        None
    }
}

/// `s.trim_start_matches(p)`.
pub fn strip_all_prefix_pub(s: &[char], p: &[char]) -> (r: Vec<char>)
    ensures
        r@ == strip_all_prefix(s@, p@),
{
    strip_all_prefix_exec(s, p)
}

fn strip_all_prefix_exec(s: &[char], p: &[char]) -> (r: Vec<char>)
    ensures
        r@ == strip_all_prefix(s@, p@),
{
    let mut start: usize = 0;
    assert(s@.skip(0) =~= s@);
    while p.len() > 0 && start <= s.len() && starts_with_exec(slice_chars(s, start, s.len()).as_slice(), p)
        invariant
            start <= s@.len(),
            strip_all_prefix(s@.skip(start as int), p@) == strip_all_prefix(s@, p@),
        decreases s@.len() - start,
    {
        assert(s@.subrange(start as int, s@.len() as int) =~= s@.skip(start as int));
        assert(s@.skip(start as int).skip(p@.len() as int) =~= s@.skip(start + p@.len()));
        start = start + p.len();
    }
    let r = slice_chars(s, start, s.len());
    proof {
        assert(r@ =~= s@.skip(start as int));
    }
    r
}

fn description_of_exec(line: &[char]) -> (r: Option<Vec<char>>)
    ensures
        match r {
            Some(v) => description_of(line@) == Some(v@),
            None => description_of(line@) is None,
        },
{
    let t = trim_chars(line);
    let d = chars_of("Description:");
    if starts_with_exec(t.as_slice(), d.as_slice()) {
        let stripped = strip_all_prefix_exec(t.as_slice(), d.as_slice());
        Some(trim_chars(stripped.as_slice()))
    } else {
        None
    }
}

/// The printer description in `lpstat -l -p` output: see `description_of`,
/// on the first line where it applies.
pub fn parse_lpstat_description(output: &str) -> (r: Option<String>)
    ensures
        match r {
            Some(u) => first_map(lines(output@), |l: Seq<char>| description_of(l)) == Some(u@),
            None => first_map(lines(output@), |l: Seq<char>| description_of(l)) is None,
        },
{
    let ls = copy_lines(output);
    let ghost f = |l: Seq<char>| description_of(l);
    let ghost all = lines(output@);
    let mut i: usize = 0;
    assert(all.skip(0) =~= all);
    while i < ls.len()
        invariant
            i <= ls@.len() == all.len(),
            all == lines(output@),
            forall|k: int| 0 <= k < ls@.len() ==> #[trigger] ls@[k]@ == all[k],
            f == (|l: Seq<char>| description_of(l)),
            first_map(all.skip(i as int), f) == first_map(all, f),
        decreases ls@.len() - i,
    {
        proof {
            lemma_first_map_skip(all, f, i as int);
        }
        match description_of_exec(ls[i].as_slice()) {
            Some(u) => {
                return Some(string_of(u.as_slice()));
            },
            None => {},
        }
        i = i + 1;
    }
    assert(all.skip(i as int) =~= Seq::<Seq<char>>::empty());
    None
}

// ---------------------------------------------------------------------------
// Queue names
// ---------------------------------------------------------------------------

pub open spec fn is_queue_char(c: char) -> bool {
    ('a' <= c <= 'z') || ('A' <= c <= 'Z') || ('0' <= c <= '9') || c == '.' || c == '_' || c == '-'
}

/// A CUPS queue name this library accepts: not empty, ASCII letters and
/// digits, `.`, `_` and `-` only.
pub open spec fn spec_is_valid_queue_name(name: Seq<char>) -> bool {
    name.len() > 0 && forall|i: int| 0 <= i < name.len() ==> is_queue_char(#[trigger] name[i])
}

pub fn is_queue_char_pub(c: char) -> (b: bool)
    ensures
        b == is_queue_char(c),
{
    is_queue_char_exec(c)
}

fn is_queue_char_exec(c: char) -> (b: bool)
    ensures
        b == is_queue_char(c),
{
    ('a' <= c && c <= 'z') || ('A' <= c && c <= 'Z') || ('0' <= c && c <= '9') || c == '.' || c
        == '_' || c == '-'
}

fn valid_queue_chars(v: &[char]) -> (b: bool)
    ensures
        b == spec_is_valid_queue_name(v@),
{
    if v.len() == 0 {
        return false;
    }
    let mut i: usize = 0;
    while i < v.len()
        invariant
            i <= v@.len(),
            forall|j: int| 0 <= j < i ==> is_queue_char(#[trigger] v@[j]),
        decreases v@.len() - i,
    {
        if !is_queue_char_exec(v[i]) {
            return false;
        }
        i = i + 1;
    }
    true
}

pub fn is_valid_queue_name(name: &str) -> (b: bool)
    ensures
        b == spec_is_valid_queue_name(name@),
{
    let v = chars_of(name);
    valid_queue_chars(v.as_slice())
}

/// The queue name on an `lpstat -v` line: what lies between `device for `
/// and the next `:`, trimmed, if not empty.
pub open spec fn queue_name_of(line: Seq<char>) -> Option<Seq<char>> {
    let t = trim(line);
    match find(t, "device for "@) {
        Some(pos) => {
            let after = t.skip(pos + 11);
            match find(after, seq![':']) {
                Some(cp) => {
                    let name = trim(after.take(cp));
                    if name.len() > 0 {
                        Some(name)
                    } else {
                        None
                    }
                },
                None => None,
            }
        },
        None => None,
    }
}

fn queue_name_of_exec(line: &[char]) -> (r: Option<Vec<char>>)
    ensures
        match r {
            Some(v) => queue_name_of(line@) == Some(v@),
            None => queue_name_of(line@) is None,
        },
{
    let t = trim_chars(line);
    let pat = chars_of("device for ");
    proof {
        lemma_find(t@, pat@);
    }
    match find_exec(t.as_slice(), pat.as_slice()) {
        Some(pos) => {
            proof {
                reveal_strlit("device for ");
            }
            assert(crate::text::matches_at(t@, pat@, pos as int));
            assert(pos + pat.len() <= t.len());
            let after = slice_chars(t.as_slice(), pos + pat.len(), t.len());
            assert(after@ =~= t@.skip(pos + 11));
            let colon = vec![':'];
            assert(colon@ =~= seq![':']);
            proof {
                lemma_find(after@, seq![':']);
            }
            match find_exec(after.as_slice(), colon.as_slice()) {
                Some(cp) => {
                    assert(crate::text::matches_at(after@, seq![':'], cp as int));
                    let head = slice_chars(after.as_slice(), 0, cp);
                    assert(head@ =~= after@.take(cp as int));
                    let name = trim_chars(head.as_slice());
                    if name.len() > 0 {
                        Some(name)
                    } else {
                        None
                    }
                },
                None => None,
            }
        },
        None => None,
    }
}

/// The queue names that `lpstat -v` lists, line by line.
pub fn parse_queue_names_from_lpstat_v(stdout: &str) -> (r: Vec<String>)
    ensures
        r@.map_values(|s: String| s@) == filter_map(lines(stdout@), |l: Seq<char>| queue_name_of(l)),
{
    let ls = copy_lines(stdout);
    let ghost f = |l: Seq<char>| queue_name_of(l);
    let ghost all = lines(stdout@);
    let mut names: Vec<String> = Vec::new();
    let mut i: usize = 0;
    assert(all.take(0) =~= Seq::<Seq<char>>::empty());
    while i < ls.len()
        invariant
            i <= ls@.len() == all.len(),
            all == lines(stdout@),
            forall|k: int| 0 <= k < ls@.len() ==> #[trigger] ls@[k]@ == all[k],
            f == (|l: Seq<char>| queue_name_of(l)),
            names@.map_values(|s: String| s@) == filter_map(all.take(i as int), f),
        decreases ls@.len() - i,
    {
        proof {
            lemma_filter_map_take(all, f, i as int);
        }
        match queue_name_of_exec(ls[i].as_slice()) {
            Some(v) => {
                let ghost old_names = names@;
                names.push(string_of(v.as_slice()));
                assert(names@.map_values(|s: String| s@) =~= old_names.map_values(|s: String| s@).push(v@));
            },
            None => {},
        }
        i = i + 1;
    }
    assert(all.take(all.len() as int) =~= all);
    names
}


/// The valid names in order, each kept once (its first time).
pub open spec fn unique_valid(names: Seq<Seq<char>>) -> Seq<Seq<char>>
    decreases names.len(),
{
    if names.len() == 0 {
        seq![]
    } else {
        let prev = unique_valid(names.drop_last());
        let n = names.last();
        if spec_is_valid_queue_name(n) && !prev.contains(n) {
            prev.push(n)
        } else {
            prev
        }
    }
}

fn contains_string(v: &Vec<String>, s: &String) -> (b: bool)
    ensures
        b == v@.map_values(|x: String| x@).contains(s@),
{
    let mut i: usize = 0;
    while i < v.len()
        invariant
            i <= v@.len(),
            forall|j: int| 0 <= j < i ==> v@[j]@ != s@,
        decreases v@.len() - i,
    {
        if v[i] == *s {
            assert(v@.map_values(|x: String| x@)[i as int] == s@);
            return true;
        }
        i = i + 1;
    }
    false
}

/// The valid queue names, each once, in the order lpstat printed them.
pub fn unique_valid_queue_names(names: Vec<String>) -> (r: Vec<String>)
    ensures
        r@.map_values(|s: String| s@) == unique_valid(names@.map_values(|s: String| s@)),
{
    let ghost nv = names@.map_values(|s: String| s@);
    let mut out: Vec<String> = Vec::new();
    let mut i: usize = 0;
    assert(nv.take(0) =~= Seq::<Seq<char>>::empty());
    while i < names.len()
        invariant
            i <= names@.len(),
            nv == names@.map_values(|s: String| s@),
            out@.map_values(|s: String| s@) == unique_valid(nv.take(i as int)),
        decreases names@.len() - i,
    {
        assert(nv.take(i + 1).drop_last() =~= nv.take(i as int));
        assert(nv.take(i + 1).last() == names@[i as int]@);
        let valid = is_valid_queue_name(names[i].as_str());
        if valid && !contains_string(&out, &names[i]) {
            let ghost old_out = out@;
            out.push(names[i].clone());
            assert(out@.map_values(|s: String| s@) =~= old_out.map_values(|s: String| s@).push(names@[i as int]@));
        }
        i = i + 1;
    }
    assert(nv.take(names@.len() as int) =~= nv);
    out
}

/// The queue names an `lpstat -v` run yields: the valid names of its output,
/// each once; none when lpstat says there are no printers; its error
/// otherwise.
pub fn queue_names_from_lpstat(result: LpstatResult) -> (r: Result<Vec<String>, String>)
    ensures
        match result {
            LpstatResult::Data(d) => (r matches Ok(v) && v@.map_values(|s: String| s@) == unique_valid(
                filter_map(lines(d@), |l: Seq<char>| queue_name_of(l)),
            )),
            LpstatResult::Empty => (r matches Ok(v) && v@.len() == 0),
            LpstatResult::Error(e) => (r matches Err(m) && m@ == e@),
        },
{
    match result {
        LpstatResult::Data(d) => {
            let names = parse_queue_names_from_lpstat_v(d.as_str());
            Ok(unique_valid_queue_names(names))
        },
        LpstatResult::Empty => Ok(Vec::new()),
        LpstatResult::Error(e) => Err(e),
    }
}

// ---------------------------------------------------------------------------
// Destinations
// ---------------------------------------------------------------------------

/// A print queue as macOS lists it.
pub struct Destination {
    pub name: String,
    pub device_uri: Option<String>,
    pub display_name: Option<String>,
    pub is_accepting_jobs: Option<bool>,
    pub state: Option<i32>,
}

/// A destination for each printer that CUPS lists, in order, with the same
/// details.
pub fn destinations_from_cups(printers: &Vec<SystemPrinter>) -> (r: Vec<Destination>)
    ensures
        r@.len() == printers@.len(),
        forall|i: int|
            0 <= i < r@.len() ==> {
                &&& (#[trigger] r@[i]).name@ == printers@[i].system_queue_name@
                &&& r@[i].device_uri == printers@[i].device_uri
                &&& r@[i].display_name == printers@[i].display_name
                &&& r@[i].is_accepting_jobs == printers@[i].is_accepting_jobs
                &&& r@[i].state == printers@[i].state
            },
{
    let mut out: Vec<Destination> = Vec::new();
    let mut i: usize = 0;
    while i < printers.len()
        invariant
            i <= printers@.len(),
            out@.len() == i,
            forall|j: int|
                0 <= j < i ==> {
                    &&& (#[trigger] out@[j]).name@ == printers@[j].system_queue_name@
                    &&& out@[j].device_uri == printers@[j].device_uri
                    &&& out@[j].display_name == printers@[j].display_name
                    &&& out@[j].is_accepting_jobs == printers@[j].is_accepting_jobs
                    &&& out@[j].state == printers@[j].state
                },
        decreases printers@.len() - i,
    {
        let p = &printers[i];
        out.push(
            Destination {
                name: p.system_queue_name.clone(),
                device_uri: clone_opt(&p.device_uri),
                display_name: clone_opt(&p.display_name),
                is_accepting_jobs: p.is_accepting_jobs,
                state: p.state,
            },
        );
        i = i + 1;
    }
    out
}

fn clone_opt(o: &Option<String>) -> (r: Option<String>)
    ensures
        r == *o,
{
    match o {
        Some(s) => Some(s.clone()),
        None => None,
    }
}

/// A destination with nothing but its name, for each name.
pub fn destinations_from_names(names: Vec<String>) -> (r: Vec<Destination>)
    ensures
        r@.len() == names@.len(),
        forall|i: int|
            0 <= i < r@.len() ==> {
                &&& (#[trigger] r@[i]).name@ == names@[i]@
                &&& r@[i].device_uri is None
                &&& r@[i].display_name is None
                &&& r@[i].is_accepting_jobs is None
                &&& r@[i].state is None
            },
{
    let mut out: Vec<Destination> = Vec::new();
    let mut i: usize = 0;
    while i < names.len()
        invariant
            i <= names@.len(),
            out@.len() == i,
            forall|j: int|
                0 <= j < i ==> {
                    &&& (#[trigger] out@[j]).name@ == names@[j]@
                    &&& out@[j].device_uri is None
                    &&& out@[j].display_name is None
                    &&& out@[j].is_accepting_jobs is None
                    &&& out@[j].state is None
                },
        decreases names@.len() - i,
    {
        out.push(
            Destination {
                name: names[i].clone(),
                device_uri: None,
                display_name: None,
                is_accepting_jobs: None,
                state: None,
            },
        );
        i = i + 1;
    }
    out
}

/// A destination after `lpstat -v <name>`: a successful run sets its
/// device URI to what the output reports for it; a failed one leaves it.
pub fn apply_device_uri(dest: &mut Destination, run_ok: bool, stdout: &str)
    ensures
        final(dest).name == old(dest).name,
        final(dest).display_name == old(dest).display_name,
        final(dest).is_accepting_jobs == old(dest).is_accepting_jobs,
        final(dest).state == old(dest).state,
        run_ok ==> crate::config::opt_view(final(dest).device_uri) == first_map(
            lines(stdout@),
            |l: Seq<char>| after_prefix(l, device_prefix(old(dest).name@)),
        ),
        !run_ok ==> final(dest).device_uri == old(dest).device_uri,
{
    if run_ok {
        let uri = parse_lpstat_device_uri(dest.name.as_str(), stdout);
        dest.device_uri = uri;
    }
}

/// A destination after `lpstat -l -p <name>`: a successful run sets its
/// display name to the description the output holds; a failed one leaves
/// it.
pub fn apply_description(dest: &mut Destination, run_ok: bool, stdout: &str)
    ensures
        final(dest).name == old(dest).name,
        final(dest).device_uri == old(dest).device_uri,
        final(dest).is_accepting_jobs == old(dest).is_accepting_jobs,
        final(dest).state == old(dest).state,
        run_ok ==> crate::config::opt_view(final(dest).display_name) == first_map(
            lines(stdout@),
            |l: Seq<char>| description_of(l),
        ),
        !run_ok ==> final(dest).display_name == old(dest).display_name,
{
    if run_ok {
        let d = parse_lpstat_description(stdout);
        dest.display_name = d;
    }
}

/// The queue names of the destinations, in order.
pub fn list_printers_macos(destinations: Vec<Destination>) -> (r: Vec<String>)
    ensures
        r@.len() == destinations@.len(),
        forall|i: int| 0 <= i < r@.len() ==> (#[trigger] r@[i])@ == destinations@[i].name@,
{
    let mut out: Vec<String> = Vec::new();
    let mut i: usize = 0;
    while i < destinations.len()
        invariant
            i <= destinations@.len(),
            out@.len() == i,
            forall|j: int| 0 <= j < i ==> (#[trigger] out@[j])@ == destinations@[j].name@,
        decreases destinations@.len() - i,
    {
        out.push(destinations[i].name.clone());
        i = i + 1;
    }
    out
}

// ---------------------------------------------------------------------------
// CUPS destination options
// ---------------------------------------------------------------------------

/// How CUPS spells a boolean option: `true`, `yes`, `on`, `1` and `false`,
/// `no`, `off`, `0`, in any case, around whitespace.
pub open spec fn spec_parse_bool(value: Seq<char>) -> Option<bool> {
    let l = lowercase(trim(value));
    if l == "true"@ || l == "yes"@ || l == "on"@ || l == "1"@ {
        Some(true)
    } else if l == "false"@ || l == "no"@ || l == "off"@ || l == "0"@ {
        Some(false)
    } else {
        None
    }
}

fn chars_eq_str(a: &[char], b: &str) -> (r: bool)
    ensures
        r == (a@ == b@),
{
    let bv = chars_of(b);
    if a.len() != bv.len() {
        return false;
    }
    let mut i: usize = 0;
    while i < a.len()
        invariant
            i <= a@.len() == bv@.len(),
            bv@ == b@,
            forall|j: int| 0 <= j < i ==> a@[j] == bv@[j],
        decreases a@.len() - i,
    {
        if a[i] != bv[i] {
            return false;
        }
        i = i + 1;
    }
    assert(a@ =~= bv@);
    true
}

pub fn parse_bool(value: &str) -> (r: Option<bool>)
    ensures
        r == spec_parse_bool(value@),
{
    let t = trim_str(value);
    let l = to_lowercase(t.as_slice());
    let ls = l.as_slice();
    if chars_eq_str(ls, "true") || chars_eq_str(ls, "yes") || chars_eq_str(ls, "on")
        || chars_eq_str(ls, "1") {
        Some(true)
    } else if chars_eq_str(ls, "false") || chars_eq_str(ls, "no") || chars_eq_str(ls, "off")
        || chars_eq_str(ls, "0") {
        Some(false)
    } else {
        None
    }
}

/// `value.trim().parse::<i32>().ok()`.
pub fn parse_i32(value: &str) -> (r: Option<i32>)
    ensures
        match r {
            Some(v) => parse_signed32(trim(value@)) == Some(v as int),
            None => parse_signed32(trim(value@)) is None,
        },
{
    let t = trim_str(value);
    parse_i32_chars(t.as_slice())
}

/// The printer that a CUPS destination describes, from its name and the
/// raw `printer-info`, `device-uri`, `printer-is-accepting-jobs` and
/// `printer-state` options: none for an empty name; the info defaults to
/// the name.
pub fn system_printer_from_options(
    name: Option<String>,
    info: Option<String>,
    device_uri: Option<String>,
    accepting: Option<String>,
    state: Option<String>,
) -> (r: Option<SystemPrinter>)
    ensures
        match name {
            Some(n) if n@.len() > 0 => (r matches Some(p) && {
                &&& p.system_queue_name@ == n@
                &&& p.display_name == (match info {
                    Some(i) => Some(i),
                    None => p.display_name,
                })
                &&& (info is None ==> (p.display_name matches Some(d) && d@ == n@))
                &&& p.device_uri == device_uri
                &&& p.is_accepting_jobs == (match accepting {
                    Some(a) => spec_parse_bool(a@),
                    None => None,
                })
                &&& p.state == (match state {
                    Some(s) => match parse_signed32(trim(s@)) {
                        Some(v) => Some(v as i32),
                        None => None,
                    },
                    None => None,
                })
            }),
            _ => r is None,
        },
{
    let n = match name {
        Some(n) => n,
        None => return None,
    };
    if n.as_str().is_empty() {
        return None;
    }
    let display_name = match info {
        Some(i) => Some(i),
        None => Some(n.clone()),
    };
    let is_accepting_jobs = match accepting {
        Some(a) => parse_bool(a.as_str()),
        None => None,
    };
    let st = match state {
        Some(s) => parse_i32(s.as_str()),
        None => None,
    };
    Some(
        SystemPrinter {
            system_queue_name: n,
            display_name,
            device_uri,
            is_accepting_jobs,
            state: st,
        },
    )
}

} // verus!

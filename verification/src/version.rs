use vstd::prelude::*;
use crate::text::{chars_of, split_chars, split_on, parse_u32, parse_unsigned, owned};
use crate::config::opt_view;

verus! {

// ---------------------------------------------------------------------------
// Version numbers
// ---------------------------------------------------------------------------

/// The numeric parts of a version string: the dot-separated pieces that
/// read as `u32`, in order; the others are skipped.
pub open spec fn numeric_parts(pieces: Seq<Seq<char>>) -> Seq<nat>
    decreases pieces.len(),
{
    if pieces.len() == 0 {
        seq![]
    } else {
        match parse_unsigned(pieces.last(), u32::MAX as nat) {
            Some(v) => numeric_parts(pieces.drop_last()).push(v),
            None => numeric_parts(pieces.drop_last()),
        }
    }
}

pub open spec fn version_parts(v: Seq<char>) -> Seq<nat> {
    numeric_parts(split_on(v, '.'))
}

/// The `i`-th part, or 0 past the end (the shorter version is padded with
/// zeros).
pub open spec fn part(p: Seq<nat>, i: int) -> nat {
    if 0 <= i < p.len() {
        p[i]
    } else {
        0
    }
}

pub open spec fn max_len(a: Seq<nat>, b: Seq<nat>) -> int {
    if a.len() >= b.len() {
        a.len() as int
    } else {
        b.len() as int
    }
}

/// Compares from position `i` on: the first position where the parts
/// differ decides whether `l` is newer than `c`.
pub open spec fn newer_from(c: Seq<nat>, l: Seq<nat>, i: int) -> bool
    decreases max_len(c, l) - i,
{
    if i < 0 || i >= max_len(c, l) {
        false
    } else if part(l, i) > part(c, i) {
        true
    } else if part(l, i) < part(c, i) {
        false
    } else {
        newer_from(c, l, i + 1)
    }
}

/// `latest` is a newer version than `current`.
pub open spec fn is_newer(current: Seq<char>, latest: Seq<char>) -> bool {
    newer_from(version_parts(current), version_parts(latest), 0)
}

fn parts_of(v: &str) -> (r: Vec<u32>)
    ensures
        r@.map_values(|x: u32| x as nat) == version_parts(v@),
{
    let chars = chars_of(v);
    let pieces = split_chars(chars.as_slice(), '.');
    let ghost pv = split_on(v@, '.');
    let mut r: Vec<u32> = Vec::new();
    let mut i: usize = 0;
    assert(pv.take(0) =~= Seq::<Seq<char>>::empty());
    while i < pieces.len()
        invariant
            i <= pieces@.len() == pv.len(),
            pv == split_on(v@, '.'),
            forall|k: int| 0 <= k < pieces@.len() ==> #[trigger] pieces@[k]@ == pv[k],
            r@.map_values(|x: u32| x as nat) == numeric_parts(pv.take(i as int)),
        decreases pieces@.len() - i,
    {
        assert(pv.take(i + 1).drop_last() =~= pv.take(i as int));
        assert(pv.take(i + 1).last() == pieces@[i as int]@);
        match parse_u32(pieces[i].as_slice()) {
            Some(x) => {
                let ghost old_r = r@;
                r.push(x);
                assert(r@.map_values(|x: u32| x as nat) =~= old_r.map_values(|x: u32| x as nat).push(x as nat));
            },
            None => {},
        }
        i = i + 1;
    }
    assert(pv.take(pv.len() as int) =~= pv);
    r
}

/// Whether `latest` is newer than `current`, comparing dot-separated
/// numbers one by one (missing parts count as 0, parts that are not
/// numbers are left out).
pub fn compare_versions(current: &str, latest: &str) -> (r: bool)
    ensures
        r == is_newer(current@, latest@),
{
    let c = parts_of(current);
    let l = parts_of(latest);
    let ghost cs = c@.map_values(|x: u32| x as nat);
    let ghost ls = l@.map_values(|x: u32| x as nat);
    let m = if c.len() >= l.len() {
        c.len()
    } else {
        l.len()
    };
    let mut i: usize = 0;
    while i < m
        invariant
            i <= m,
            m == max_len(cs, ls),
            cs == c@.map_values(|x: u32| x as nat),
            ls == l@.map_values(|x: u32| x as nat),
            newer_from(cs, ls, i as int) == newer_from(cs, ls, 0),
            cs == version_parts(current@),
            ls == version_parts(latest@),
        decreases m - i,
    {
        let cv: u32 = if i < c.len() {
            c[i]
        } else {
            0
        };
        let lv: u32 = if i < l.len() {
            l[i]
        } else {
            0
        };
        assert(cv == part(cs, i as int));
        assert(lv == part(ls, i as int));
        if lv > cv {
            assert(newer_from(cs, ls, i as int));
            return true;
        } else if lv < cv {
            assert(!newer_from(cs, ls, i as int));
            return false;
        }
        assert(newer_from(cs, ls, i as int) == newer_from(cs, ls, i + 1));
        i = i + 1;
    }
    assert(!newer_from(cs, ls, i as int));
    false
}

proof fn lemma_newer_from_asym(c: Seq<nat>, l: Seq<nat>, i: int)
    ensures
        newer_from(c, l, i) ==> !newer_from(l, c, i),
        !newer_from(c, c, i),
    decreases max_len(c, l) - i,
{
    if i >= 0 && i < max_len(c, l) {
        lemma_newer_from_asym(c, l, i + 1);
    }
}

proof fn lemma_newer_from_trans(a: Seq<nat>, b: Seq<nat>, c: Seq<nat>, i: int)
    requires
        newer_from(a, b, i),
        newer_from(b, c, i),
    ensures
        newer_from(a, c, i),
    decreases max_len(a, b) - i,
{
    if part(b, i) == part(a, i) && part(c, i) == part(b, i) {
        lemma_newer_from_trans(a, b, c, i + 1);
    }
}

/// No version is newer than itself.
pub proof fn law_version_irreflexive(v: Seq<char>)
    ensures
        !is_newer(v, v),
{
    lemma_newer_from_asym(version_parts(v), version_parts(v), 0);
}

/// Of two versions, at most one is newer than the other.
pub proof fn law_version_asymmetric(a: Seq<char>, b: Seq<char>)
    ensures
        is_newer(a, b) ==> !is_newer(b, a),
{
    lemma_newer_from_asym(version_parts(a), version_parts(b), 0);
}

/// Newer is transitive: if `b` is newer than `a` and `c` newer than `b`,
/// then `c` is newer than `a`.
pub proof fn law_version_transitive(a: Seq<char>, b: Seq<char>, c: Seq<char>)
    requires
        is_newer(a, b),
        is_newer(b, c),
    ensures
        is_newer(a, c),
{
    lemma_newer_from_trans(version_parts(a), version_parts(b), version_parts(c), 0);
}

// ---------------------------------------------------------------------------
// The remote version description and the result of a check
// ---------------------------------------------------------------------------

pub struct ChangelogEntry {
    pub version: String,
    pub date: String,
    pub changes: Vec<String>,
}

pub struct Checksum {
    pub algorithm: String,
    pub value: String,
}

pub struct PrinterConfigInfo {
    pub version: String,
    pub url: String,
}

pub struct VersionConfig {
    pub app_name: String,
    pub app_version: String,
    pub build_number: u32,
    pub release_date: String,
    pub update_url: Option<String>,
    pub update_type: String,
    pub update_description: Option<String>,
    pub changelog: Option<Vec<ChangelogEntry>>,
    pub force_update: bool,
    pub min_supported_version: Option<String>,
    pub download_size: Option<String>,
    pub checksum: Option<Checksum>,
    pub printer_config: Option<PrinterConfigInfo>,
}

pub struct VersionCheckResult {
    pub has_update: bool,
    pub current_version: String,
    pub latest_version: String,
    pub update_url: Option<String>,
    pub update_type: String,
    pub update_description: Option<String>,
    pub force_update: bool,
    pub changelog: Option<Vec<ChangelogEntry>>,
    pub download_size: Option<String>,
}

/// The answer to a version check: the running version against the one the
/// remote description announces, with the description's update details.
pub fn version_check_result(current: &str, config: VersionConfig) -> (r: VersionCheckResult)
    ensures
        r.has_update == is_newer(current@, config.app_version@),
        r.current_version@ == current@,
        r.latest_version@ == config.app_version@,
        opt_view(r.update_url) == opt_view(config.update_url),
        r.update_type@ == config.update_type@,
        opt_view(r.update_description) == opt_view(config.update_description),
        r.force_update == config.force_update,
        r.changelog == config.changelog,
        opt_view(r.download_size) == opt_view(config.download_size),
{
    let has_update = compare_versions(current, config.app_version.as_str());
    VersionCheckResult {
        has_update,
        current_version: owned(current),
        latest_version: config.app_version,
        update_url: config.update_url,
        update_type: config.update_type,
        update_description: config.update_description,
        force_update: config.force_update,
        changelog: config.changelog,
        download_size: config.download_size,
    }
}

} // verus!

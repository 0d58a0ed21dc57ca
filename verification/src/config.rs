use vstd::prelude::*;
use crate::text::{chars_of, matches_at_exec, join, join_strings, owned, append_str, trim, trim_str};

verus! {

// ---------------------------------------------------------------------------
// The printer configuration (printer_config.json)
// ---------------------------------------------------------------------------

/// The whole configuration: an optional version, the driver catalog and the
/// cities with their areas and printers.
pub struct PrinterConfig {
    pub version: Option<String>,
    pub driver_catalog: Option<DriverCatalog>,
    pub cities: Vec<City>,
}

pub struct City {
    pub city_id: String,
    pub city_name: String,
    pub areas: Vec<Area>,
}

pub struct Area {
    pub area_name: String,
    pub printers: Vec<Printer>,
}

pub struct Printer {
    pub name: String,
    pub path: String,
    pub model: Option<String>,
    pub driver_path: Option<String>,
    pub driver_names: Option<Vec<String>>,
    pub install_mode: Option<String>,
    pub driver_key: Option<String>,
}

/// One entry of the driver catalog.
pub struct DriverCatalogEntry {
    pub install_mode: Option<String>,
    pub local: Option<DriverLocalSpec>,
    pub remote: Option<DriverRemoteSpec>,
}

pub struct DriverLocalSpec {
    pub inf_rel: Option<String>,
    pub driver_names: Option<Vec<String>>,
}

pub struct DriverRemoteSpec {
    pub url: Option<String>,
    pub sha256: Option<String>,
    pub version: Option<String>,
    pub layout: Option<String>,
}

/// A remote driver package that has both a URL and a checksum.
pub struct RemoteDriverResolved {
    pub url: String,
    pub sha256: String,
    pub version: Option<String>,
    pub layout: Option<String>,
    pub driver_key: String,
}

/// The driver settings that apply to one printer.
pub struct EffectiveDriverSpec {
    pub source: String,
    pub effective_install_mode: Option<String>,
    pub effective_driver_path: Option<String>,
    pub effective_driver_names: Vec<String>,
    pub driver_key_used: Option<String>,
    pub remote_driver: Option<RemoteDriverResolved>,
}

// ---------------------------------------------------------------------------
// Views of optional strings and string lists
// ---------------------------------------------------------------------------

pub open spec fn opt_view(o: Option<String>) -> Option<Seq<char>> {
    match o {
        Some(s) => Some(s@),
        None => None,
    }
}

pub open spec fn strings_view(v: Seq<String>) -> Seq<Seq<char>> {
    v.map_values(|s: String| s@)
}

pub open spec fn opt_strings_view(o: Option<Vec<String>>) -> Option<Seq<Seq<char>>> {
    match o {
        Some(v) => Some(strings_view(v@)),
        None => None,
    }
}

pub fn clone_string(s: &String) -> (r: String)
    ensures
        r@ == s@,
{
    s.clone()
}

pub fn clone_opt_string(o: &Option<String>) -> (r: Option<String>)
    ensures
        opt_view(r) == opt_view(*o),
{
    match o {
        Some(s) => Some(s.clone()),
        None => None,
    }
}

pub fn clone_strings(v: &Vec<String>) -> (r: Vec<String>)
    ensures
        strings_view(r@) == strings_view(v@),
{
    let mut r: Vec<String> = Vec::new();
    let mut i: usize = 0;
    while i < v.len()
        invariant
            i <= v@.len(),
            strings_view(r@) == strings_view(v@.take(i as int)),
        decreases v@.len() - i,
    {
        let ghost old_r = r@;
        r.push(v[i].clone());
        assert(strings_view(r@) =~= strings_view(old_r).push(v@[i as int]@));
        assert(strings_view(v@.take(i + 1)) =~= strings_view(v@.take(i as int)).push(v@[i as int]@));
        i = i + 1;
    }
    assert(v@.take(v@.len() as int) =~= v@);
    r
}

pub fn clone_opt_strings(o: &Option<Vec<String>>) -> (r: Option<Vec<String>>)
    ensures
        opt_strings_view(r) == opt_strings_view(*o),
{
    match o {
        Some(v) => Some(clone_strings(v)),
        None => None,
    }
}

// ---------------------------------------------------------------------------
// The driver catalog: a map from driver key to entry
// ---------------------------------------------------------------------------

/// The driver catalog, keyed by driver key. Each key occurs once; the keys
/// keep the order in which they were first inserted.
pub struct DriverCatalog {
    entries: Vec<(String, DriverCatalogEntry)>,
}

/// The entry stored under `k`, searching from the front.
pub open spec fn lookup(entries: Seq<(String, DriverCatalogEntry)>, k: Seq<char>) -> Option<
    DriverCatalogEntry,
>
    decreases entries.len(),
{
    if entries.len() == 0 {
        None
    } else if entries[0].0@ == k {
        Some(entries[0].1)
    } else {
        lookup(entries.drop_first(), k)
    }
}

pub open spec fn entry_keys(entries: Seq<(String, DriverCatalogEntry)>) -> Seq<Seq<char>> {
    entries.map_values(|e: (String, DriverCatalogEntry)| e.0@)
}

pub proof fn lemma_lookup_index(entries: Seq<(String, DriverCatalogEntry)>, k: Seq<char>)
    ensures
        lookup(entries, k) is Some <==> entry_keys(entries).contains(k),
        entry_keys(entries).no_duplicates() ==> forall|i: int|
            0 <= i < entries.len() && #[trigger] entries[i].0@ == k ==> lookup(entries, k) == Some(
                entries[i].1,
            ),
    decreases entries.len(),
{
    if entries.len() > 0 {
        let tail = entries.drop_first();
        lemma_lookup_index(tail, k);
        assert(entry_keys(tail) =~= entry_keys(entries).drop_first());
        if entry_keys(entries).contains(k) && entries[0].0@ != k {
            let j = choose|j: int| 0 <= j < entry_keys(entries).len() && entry_keys(entries)[j] == k;
            assert(j != 0);
            assert(entry_keys(tail)[j - 1] == k);
        }
        if entry_keys(tail).contains(k) {
            let j = choose|j: int| 0 <= j < entry_keys(tail).len() && entry_keys(tail)[j] == k;
            assert(entry_keys(entries)[j + 1] == k);
        }
        if entries[0].0@ == k {
            assert(entry_keys(entries)[0] == k);
        }
        if entry_keys(entries).no_duplicates() {
            assert(entry_keys(tail).no_duplicates());
            assert forall|i: int| 0 <= i < entries.len() && #[trigger] entries[i].0@ == k implies lookup(entries, k) == Some(entries[i].1) by {
                if i > 0 {
                    if entries[0].0@ == k {
                        assert(entry_keys(entries)[0] == entry_keys(entries)[i]);
                    } else {
                        assert(tail[i - 1].0@ == k);
                    }
                }
            }
        }
    } else {
        assert(entry_keys(entries) =~= Seq::<Seq<char>>::empty());
    }
}

impl DriverCatalog {
    #[verifier::type_invariant]
    spec fn keys_unique(self) -> bool {
        entry_keys(self.entries@).no_duplicates()
    }

    /// The keys in catalog order.
    pub closed spec fn key_seq(self) -> Seq<Seq<char>> {
        entry_keys(self.entries@)
    }

    /// The entry for a key.
    pub closed spec fn get_spec(self, k: Seq<char>) -> Option<DriverCatalogEntry> {
        lookup(self.entries@, k)
    }

    pub open spec fn contains_spec(self, k: Seq<char>) -> bool {
        self.get_spec(k) is Some
    }

    pub fn new() -> (c: Self)
        ensures
            c.key_seq() == Seq::<Seq<char>>::empty(),
            forall|k: Seq<char>| c.get_spec(k) is None,
    {
        let c = DriverCatalog { entries: Vec::new() };
        assert(entry_keys(c.entries@) =~= Seq::<Seq<char>>::empty());
        c
    }

    pub fn len(&self) -> (n: usize)
        ensures
            n == self.key_seq().len(),
    {
        self.entries.len()
    }

    pub fn is_empty(&self) -> (b: bool)
        ensures
            b <==> self.key_seq().len() == 0,
    {
        self.entries.len() == 0
    }

    /// A key is present exactly when it is one of `key_seq`.
    pub proof fn lemma_keys(self)
        ensures
            forall|k: Seq<char>| #[trigger] self.contains_spec(k) <==> self.key_seq().contains(k),
    {
        assert forall|k: Seq<char>| #[trigger] self.contains_spec(k) <==> self.key_seq().contains(k) by {
            lemma_lookup_index(self.entries@, k);
        }
    }

    fn position(&self, key: &str) -> (r: Option<usize>)
        ensures
            r matches Some(i) ==> i < self.entries@.len() && self.entries@[i as int].0@ == key@
                && self.get_spec(key@) == Some(self.entries@[i as int].1),
            r is None ==> self.get_spec(key@) is None,
    {
        proof {
            use_type_invariant(self);
            lemma_lookup_index(self.entries@, key@);
        }
        let kv = chars_of(key);
        let mut i: usize = 0;
        while i < self.entries.len()
            invariant
                i <= self.entries@.len(),
                kv@ == key@,
                forall|j: int| 0 <= j < i ==> self.entries@[j].0@ != key@,
            decreases self.entries@.len() - i,
        {
            let ev = chars_of(self.entries[i].0.as_str());
            if ev.len() == kv.len() && matches_at_exec(ev.as_slice(), kv.as_slice(), 0) {
                assert(ev@.subrange(0, kv@.len() as int) =~= ev@);
                proof {
                    use_type_invariant(self);
                    assert(entry_keys(self.entries@).no_duplicates());
                    lemma_lookup_index(self.entries@, key@);
                    assert(self.entries@[i as int].0@ == key@);
                }
                return Some(i);
            }
            proof {
                if self.entries@[i as int].0@ == key@ {
                    assert(ev@.subrange(0, kv@.len() as int) =~= ev@);
                }
            }
            i = i + 1;
        }
        proof {
            if entry_keys(self.entries@).contains(key@) {
                let j = choose|j: int| 0 <= j < entry_keys(self.entries@).len() && entry_keys(self.entries@)[j] == key@;
                assert(self.entries@[j].0@ == key@);
            }
        }
        None
    }

    /// `HashMap::contains_key`.
    pub fn contains_key(&self, key: &str) -> (b: bool)
        ensures
            b == self.contains_spec(key@),
    {
        self.position(key).is_some()
    }

    /// `HashMap::get`.
    pub fn get(&self, key: &str) -> (r: Option<&DriverCatalogEntry>)
        ensures
            r matches Some(e) ==> self.get_spec(key@) == Some(*e),
            r is None ==> self.get_spec(key@) is None,
    {
        match self.position(key) {
            Some(i) => Some(&self.entries[i].1),
            None => None,
        }
    }

    /// `HashMap::insert`: the entry for `key` becomes `entry`; the other
    /// entries stay. A new key goes to the end of the key order.
    pub fn insert(&mut self, key: String, entry: DriverCatalogEntry)
        ensures
            final(self).get_spec(key@) == Some(entry),
            forall|k: Seq<char>| k != key@ ==> #[trigger] final(self).get_spec(k) == old(self).get_spec(k),
            old(self).contains_spec(key@) ==> final(self).key_seq() == old(self).key_seq(),
            !old(self).contains_spec(key@) ==> final(self).key_seq() == old(self).key_seq().push(key@),
    {
        proof {
            use_type_invariant(&*self);
        }
        let pos = self.position(key.as_str());
        let ghost old_entries = self.entries@;
        let mut entries = Vec::new();
        std::mem::swap(&mut entries, &mut self.entries);
        assert(entries@ == old_entries);
        match pos {
            Some(i) => {
                let ghost kk = key@;
                entries.set(i, (key, entry));
                proof {
                    assert(entry_keys(entries@) =~= entry_keys(old_entries));
                    assert(entries@[i as int].0@ == kk);
                    lemma_lookup_index(entries@, kk);
                    assert forall|k: Seq<char>| k != kk implies #[trigger] lookup(entries@, k) == lookup(old_entries, k) by {
                        lemma_lookup_index(entries@, k);
                        lemma_lookup_index(old_entries, k);
                        if lookup(old_entries, k) is Some {
                            let j = choose|j: int| 0 <= j < entry_keys(old_entries).len() && entry_keys(old_entries)[j] == k;
                            assert(entries@[j] == old_entries[j]);
                        }
                        if lookup(entries@, k) is Some {
                            let j = choose|j: int| 0 <= j < entry_keys(entries@).len() && entry_keys(entries@)[j] == k;
                            assert(entries@[j] == old_entries[j]);
                        }
                    }
                }
            },
            None => {
                let ghost kk = key@;
                entries.push((key, entry));
                proof {
                    assert(entry_keys(entries@) =~= entry_keys(old_entries).push(kk));
                    lemma_lookup_index(old_entries, kk);
                    assert(!entry_keys(old_entries).contains(kk));
                    lemma_lookup_index(entries@, kk);
                    assert(entries@[old_entries.len() as int].0@ == kk);
                    assert(entry_keys(entries@).no_duplicates()) by {
                        assert forall|a: int, b: int| 0 <= a < b < entry_keys(entries@).len() implies entry_keys(entries@)[a] != entry_keys(entries@)[b] by {
                            if b == old_entries.len() {
                                assert(entry_keys(old_entries)[a] == entry_keys(entries@)[a]);
                            }
                        }
                    }
                    assert forall|k: Seq<char>| k != kk implies #[trigger] lookup(entries@, k) == lookup(old_entries, k) by {
                        lemma_lookup_index(entries@, k);
                        lemma_lookup_index(old_entries, k);
                        if lookup(old_entries, k) is Some {
                            let j = choose|j: int| 0 <= j < entry_keys(old_entries).len() && entry_keys(old_entries)[j] == k;
                            assert(entries@[j] == old_entries[j]);
                        }
                        if lookup(entries@, k) is Some {
                            let j = choose|j: int| 0 <= j < entry_keys(entries@).len() && entry_keys(entries@)[j] == k;
                            assert(j < old_entries.len());
                            assert(entries@[j] == old_entries[j]);
                        }
                    }
                }
            },
        }
        self.entries = entries;
    }

    /// The keys, in catalog order.
    pub fn keys(&self) -> (r: Vec<String>)
        ensures
            strings_view(r@) == self.key_seq(),
            self.key_seq().no_duplicates(),
    {
        proof {
            use_type_invariant(self);
        }
        let mut r: Vec<String> = Vec::new();
        let mut i: usize = 0;
        while i < self.entries.len()
            invariant
                i <= self.entries@.len(),
                strings_view(r@) == entry_keys(self.entries@.take(i as int)),
            decreases self.entries@.len() - i,
        {
            let ghost old_r = r@;
            r.push(self.entries[i].0.clone());
            assert(strings_view(r@) =~= strings_view(old_r).push(self.entries@[i as int].0@));
            assert(entry_keys(self.entries@.take(i + 1)) =~= entry_keys(self.entries@.take(i as int)).push(self.entries@[i as int].0@));
            i = i + 1;
        }
        assert(self.entries@.take(self.entries@.len() as int) =~= self.entries@);
        r
    }
}


// ---------------------------------------------------------------------------
// All printers of a configuration, city by city and area by area
// ---------------------------------------------------------------------------

pub open spec fn area_printers(areas: Seq<Area>) -> Seq<Printer>
    decreases areas.len(),
{
    if areas.len() == 0 {
        seq![]
    } else {
        area_printers(areas.drop_last()) + areas.last().printers@
    }
}

pub open spec fn city_printers(cities: Seq<City>) -> Seq<Printer>
    decreases cities.len(),
{
    if cities.len() == 0 {
        seq![]
    } else {
        city_printers(cities.drop_last()) + area_printers(cities.last().areas@)
    }
}

pub proof fn lemma_area_printers_concat(a: Seq<Area>, b: Seq<Area>)
    ensures
        area_printers(a + b) == area_printers(a) + area_printers(b),
    decreases b.len(),
{
    if b.len() == 0 {
        assert(a + b =~= a);
        assert(area_printers(a) + area_printers(b) =~= area_printers(a));
    } else {
        assert((a + b).drop_last() =~= a + b.drop_last());
        lemma_area_printers_concat(a, b.drop_last());
    }
}

pub proof fn lemma_city_printers_concat(a: Seq<City>, b: Seq<City>)
    ensures
        city_printers(a + b) == city_printers(a) + city_printers(b),
    decreases b.len(),
{
    if b.len() == 0 {
        assert(a + b =~= a);
        assert(city_printers(a) + city_printers(b) =~= city_printers(a));
    } else {
        assert((a + b).drop_last() =~= a + b.drop_last());
        lemma_city_printers_concat(a, b.drop_last());
    }
}

pub proof fn lemma_city_printers_split(cities: Seq<City>, ci: int, ai: int, pi: int)
    requires
        0 <= ci < cities.len(),
        0 <= ai < cities[ci].areas@.len(),
        0 <= pi <= cities[ci].areas@[ai].printers@.len(),
    ensures
        ({
            let areas = cities[ci].areas@;
            let printers = areas[ai].printers@;
            city_printers(cities) == city_printers(cities.take(ci)) + area_printers(areas.take(ai))
                + printers.take(pi) + (printers.skip(pi) + area_printers(areas.skip(ai + 1))
                + city_printers(cities.skip(ci + 1)))
        }),
{
    let areas = cities[ci].areas@;
    let printers = areas[ai].printers@;
    assert(cities =~= cities.take(ci) + seq![cities[ci]] + cities.skip(ci + 1));
    lemma_city_printers_concat(cities.take(ci) + seq![cities[ci]], cities.skip(ci + 1));
    lemma_city_printers_concat(cities.take(ci), seq![cities[ci]]);
    assert(seq![cities[ci]].drop_last() =~= Seq::<City>::empty());
    assert(city_printers(Seq::<City>::empty()) == Seq::<Printer>::empty());
    assert(city_printers(seq![cities[ci]]) =~= area_printers(areas));
    assert(areas =~= areas.take(ai) + seq![areas[ai]] + areas.skip(ai + 1));
    lemma_area_printers_concat(areas.take(ai) + seq![areas[ai]], areas.skip(ai + 1));
    lemma_area_printers_concat(areas.take(ai), seq![areas[ai]]);
    assert(seq![areas[ai]].drop_last() =~= Seq::<Area>::empty());
    assert(area_printers(Seq::<Area>::empty()) == Seq::<Printer>::empty());
    assert(area_printers(seq![areas[ai]]) =~= printers);
    assert(printers =~= printers.take(pi) + printers.skip(pi));
    assert(city_printers(cities) =~= city_printers(cities.take(ci)) + area_printers(areas.take(ai))
        + printers.take(pi) + (printers.skip(pi) + area_printers(areas.skip(ai + 1))
        + city_printers(cities.skip(ci + 1))));
}

/// The first result that `f` gives which is `Some`, in sequence order.
pub open spec fn first_some(ps: Seq<Printer>, f: spec_fn(Printer) -> Option<Seq<char>>) -> Option<
    Seq<char>,
>
    decreases ps.len(),
{
    if ps.len() == 0 {
        None
    } else if f(ps[0]) is Some {
        f(ps[0])
    } else {
        first_some(ps.drop_first(), f)
    }
}

pub proof fn lemma_first_some_concat(
    a: Seq<Printer>,
    b: Seq<Printer>,
    f: spec_fn(Printer) -> Option<Seq<char>>,
)
    ensures
        first_some(a + b, f) == (if first_some(a, f) is Some {
            first_some(a, f)
        } else {
            first_some(b, f)
        }),
    decreases a.len(),
{
    if a.len() == 0 {
        assert(a + b =~= b);
    } else {
        assert((a + b).drop_first() =~= a.drop_first() + b);
        lemma_first_some_concat(a.drop_first(), b, f);
    }
}

pub proof fn lemma_first_some_single(p: Printer, f: spec_fn(Printer) -> Option<Seq<char>>)
    ensures
        first_some(seq![p], f) == f(p),
{
    assert(seq![p].drop_first() =~= Seq::<Printer>::empty());
    assert(first_some(Seq::<Printer>::empty(), f) is None);
    assert(seq![p][0] == p);
}

// ---------------------------------------------------------------------------
// Validation of the configuration
// ---------------------------------------------------------------------------

pub open spec fn quoted(s: Seq<char>) -> Seq<char> {
    "'"@ + s + "'"@
}

pub open spec fn msg_missing_catalog() -> Seq<char> {
    "【配置校验失败】缺少 driverCatalog。v2.0.0+ 要求所有驱动信息必须集中到 driverCatalog。\n\n请升级 printer_config.json：\n- 将驱动信息移至 driverCatalog\n- printers[] 仅保留 name, path, model, driverKey 字段"@
}

pub open spec fn msg_empty_catalog() -> Seq<char> {
    "【配置校验失败】driverCatalog 为空。请添加至少一个驱动条目"@
}

pub open spec fn msg_missing_key(p: Printer) -> Seq<char> {
    "【配置校验失败】打印机 '"@ + p.name@ + "' (路径: "@ + p.path@
        + ") 缺少 driverKey。请在 printer_config.json 中补齐此字段"@
}

pub open spec fn msg_unknown_key(p: Printer, key: Seq<char>, keys: Seq<Seq<char>>) -> Seq<char> {
    "【配置校验失败】打印机 '"@ + p.name@ + "' 引用的 driverKey='"@ + key
        + "' 在 driverCatalog 中不存在。\n\n已定义的 driverKey：["@ + join(
        keys.map_values(|k: Seq<char>| quoted(k)),
        ", "@,
    ) + "]"@
}

pub open spec fn msg_legacy_fields(p: Printer, fields: Seq<Seq<char>>) -> Seq<char> {
    "【配置校验失败】打印机 '"@ + p.name@ + "' (路径: "@ + p.path@ + ") 仍包含已废弃的字段: "@
        + join(fields, ", "@) + "。\n\n这些字段已迁移至 driverCatalog，请从 printer 节点删除"@
}

/// What is wrong with a printer's driver key, if anything.
pub open spec fn key_error(p: Printer, cat: DriverCatalog) -> Option<Seq<char>> {
    match p.driver_key {
        None => Some(msg_missing_key(p)),
        Some(k) => if cat.contains_spec(k@) {
            None
        } else {
            Some(msg_unknown_key(p, k@, cat.key_seq()))
        },
    }
}

/// The printer-level fields that now belong to the driver catalog.
pub open spec fn legacy_fields(p: Printer) -> Seq<Seq<char>> {
    (if p.driver_path is Some {
        seq!["driver_path"@]
    } else {
        seq![]
    }) + (if p.driver_names matches Some(v) && v@.len() > 0 {
        seq!["driver_names"@]
    } else {
        seq![]
    }) + (if p.install_mode is Some {
        seq!["install_mode"@]
    } else {
        seq![]
    })
}

pub open spec fn legacy_error(p: Printer) -> Option<Seq<char>> {
    if legacy_fields(p).len() == 0 {
        None
    } else {
        Some(msg_legacy_fields(p, legacy_fields(p)))
    }
}

/// Why a configuration is refused, or `None` when it is accepted: the
/// catalog must exist and be non-empty, every printer must name a driver
/// key of the catalog, and no printer may keep a field that moved to the
/// catalog. The first failing check, in that order, decides the message.
pub open spec fn config_error(c: PrinterConfig) -> Option<Seq<char>> {
    match c.driver_catalog {
        None => Some(msg_missing_catalog()),
        Some(cat) => if cat.key_seq().len() == 0 {
            Some(msg_empty_catalog())
        } else {
            let ps = city_printers(c.cities@);
            match first_some(ps, |p: Printer| key_error(p, cat)) {
                Some(m) => Some(m),
                None => first_some(ps, |p: Printer| legacy_error(p)),
            }
        },
    }
}

fn build_msg_missing_key(p: &Printer) -> (r: String)
    ensures
        r@ == msg_missing_key(*p),
{
    let mut r = owned("【配置校验失败】打印机 '");
    append_str(&mut r, p.name.as_str());
    append_str(&mut r, "' (路径: ");
    append_str(&mut r, p.path.as_str());
    append_str(&mut r, ") 缺少 driverKey。请在 printer_config.json 中补齐此字段");
    r
}

fn build_msg_unknown_key(p: &Printer, key: &String, cat: &DriverCatalog) -> (r: String)
    ensures
        r@ == msg_unknown_key(*p, key@, cat.key_seq()),
{
    let keys = cat.keys();
    let mut quoted_keys: Vec<String> = Vec::new();
    let mut i: usize = 0;
    while i < keys.len()
        invariant
            i <= keys@.len(),
            strings_view(keys@) == cat.key_seq(),
            quoted_keys@.len() == i,
            forall|j: int| 0 <= j < i ==> #[trigger] quoted_keys@[j]@ == quoted(keys@[j]@),
        decreases keys@.len() - i,
    {
        let mut q = owned("'");
        append_str(&mut q, keys[i].as_str());
        append_str(&mut q, "'");
        quoted_keys.push(q);
        i = i + 1;
    }
    assert(quoted_keys@.map_values(|s: String| s@) =~= cat.key_seq().map_values(
        |k: Seq<char>| quoted(k),
    )) by {
        assert(strings_view(keys@).len() == keys@.len());
        assert forall|j: int| 0 <= j < keys@.len() implies #[trigger] cat.key_seq()[j] == keys@[j]@ by {
            assert(strings_view(keys@)[j] == keys@[j]@);
        }
    }
    let joined = join_strings(&quoted_keys, ", ");
    let mut r = owned("【配置校验失败】打印机 '");
    append_str(&mut r, p.name.as_str());
    append_str(&mut r, "' 引用的 driverKey='");
    append_str(&mut r, key.as_str());
    append_str(&mut r, "' 在 driverCatalog 中不存在。\n\n已定义的 driverKey：[");
    append_str(&mut r, joined.as_str());
    append_str(&mut r, "]");
    r
}

fn key_error_exec(p: &Printer, cat: &DriverCatalog) -> (r: Option<String>)
    ensures
        opt_view(r) == key_error(*p, *cat),
{
    match &p.driver_key {
        None => Some(build_msg_missing_key(p)),
        Some(k) => {
            if cat.contains_key(k.as_str()) {
                None
            } else {
                Some(build_msg_unknown_key(p, k, cat))
            }
        },
    }
}

fn legacy_error_exec(p: &Printer) -> (r: Option<String>)
    ensures
        opt_view(r) == legacy_error(*p),
{
    let mut fields: Vec<String> = Vec::new();
    if p.driver_path.is_some() {
        fields.push(owned("driver_path"));
    }
    let has_names = match &p.driver_names {
        Some(v) => v.len() > 0,
        None => false,
    };
    if has_names {
        fields.push(owned("driver_names"));
    }
    if p.install_mode.is_some() {
        fields.push(owned("install_mode"));
    }
    assert(fields@.map_values(|s: String| s@) =~= legacy_fields(*p));
    if fields.len() == 0 {
        return None;
    }
    let joined = join_strings(&fields, ", ");
    let mut r = owned("【配置校验失败】打印机 '");
    append_str(&mut r, p.name.as_str());
    append_str(&mut r, "' (路径: ");
    append_str(&mut r, p.path.as_str());
    append_str(&mut r, ") 仍包含已废弃的字段: ");
    append_str(&mut r, joined.as_str());
    append_str(&mut r, "。\n\n这些字段已迁移至 driverCatalog，请从 printer 节点删除");
    Some(r)
}

/// Checks every printer of the configuration with `check`, in order, and
/// gives the first complaint.
fn first_printer_error(cities: &Vec<City>, cat: &DriverCatalog, legacy: bool) -> (r: Option<String>)
    ensures
        opt_view(r) == (if legacy {
            first_some(city_printers(cities@), |p: Printer| legacy_error(p))
        } else {
            first_some(city_printers(cities@), |p: Printer| key_error(p, *cat))
        }),
{
    let ghost f: spec_fn(Printer) -> Option<Seq<char>> = if legacy {
        |p: Printer| legacy_error(p)
    } else {
        |p: Printer| key_error(p, *cat)
    };
    let mut ci: usize = 0;
    while ci < cities.len()
        invariant
            ci <= cities@.len(),
            f == (if legacy {
                |p: Printer| legacy_error(p)
            } else {
                |p: Printer| key_error(p, *cat)
            }),
            first_some(city_printers(cities@.take(ci as int)), f) is None,
        decreases cities@.len() - ci,
    {
        let areas = &cities[ci].areas;
        let ghost before = city_printers(cities@.take(ci as int));
        let mut ai: usize = 0;
        while ai < areas.len()
            invariant
                ai <= areas@.len(),
                *areas == cities@[ci as int].areas,
                ci < cities@.len(),
                before == city_printers(cities@.take(ci as int)),
                f == (if legacy {
                    |p: Printer| legacy_error(p)
                } else {
                    |p: Printer| key_error(p, *cat)
                }),
                first_some(before + area_printers(areas@.take(ai as int)), f) is None,
            decreases areas@.len() - ai,
        {
            let printers = &areas[ai].printers;
            let ghost before2 = before + area_printers(areas@.take(ai as int));
            let mut pi: usize = 0;
            assert(printers@.take(0) =~= Seq::<Printer>::empty());
            assert(before2 + printers@.take(0) =~= before2);
            while pi < printers.len()
                invariant
                    pi <= printers@.len(),
                    *printers == areas@[ai as int].printers,
                    ai < areas@.len(),
                    *areas == cities@[ci as int].areas,
                    ci < cities@.len(),
                    before == city_printers(cities@.take(ci as int)),
                    before2 == before + area_printers(areas@.take(ai as int)),
                    f == (if legacy {
                        |p: Printer| legacy_error(p)
                    } else {
                        |p: Printer| key_error(p, *cat)
                    }),
                    first_some(before2 + printers@.take(pi as int), f) is None,
                decreases printers@.len() - pi,
            {
                let p = &printers[pi];
                let e = if legacy {
                    legacy_error_exec(p)
                } else {
                    key_error_exec(p, cat)
                };
                proof {
                    assert(before2 + printers@.take(pi + 1) =~= (before2 + printers@.take(
                        pi as int,
                    )) + seq![printers@[pi as int]]);
                    lemma_first_some_concat(
                        before2 + printers@.take(pi as int),
                        seq![printers@[pi as int]],
                        f,
                    );
                    lemma_first_some_single(printers@[pi as int], f);
                }
                if e.is_some() {
                    proof {
                        lemma_city_printers_split(cities@, ci as int, ai as int, pi + 1);
                        let rest = printers@.skip(pi + 1) + area_printers(areas@.skip(ai + 1))
                            + city_printers(cities@.skip(ci + 1));
                        lemma_first_some_concat(before2 + printers@.take(pi + 1), rest, f);
                    }
                    return e;
                }
                pi = pi + 1;
            }
            assert(printers@.take(printers@.len() as int) =~= printers@);
            assert(areas@.take(ai + 1).drop_last() =~= areas@.take(ai as int));
            assert(before + area_printers(areas@.take(ai + 1)) =~= before2 + printers@);
            ai = ai + 1;
        }
        assert(areas@.take(areas@.len() as int) =~= areas@);
        assert(cities@.take(ci + 1).drop_last() =~= cities@.take(ci as int));
        ci = ci + 1;
    }
    assert(cities@.take(cities@.len() as int) =~= cities@);
    None
}


/// Checks a configuration before it is used: see `config_error`.
pub fn validate_printer_config_v2(config: &PrinterConfig) -> (r: Result<(), String>)
    ensures
        r is Ok <==> config_error(*config) is None,
        r matches Err(m) ==> config_error(*config) == Some(m@),
{
    let cat = match &config.driver_catalog {
        None => {
            return Err(
                owned(
                    "【配置校验失败】缺少 driverCatalog。v2.0.0+ 要求所有驱动信息必须集中到 driverCatalog。\n\n请升级 printer_config.json：\n- 将驱动信息移至 driverCatalog\n- printers[] 仅保留 name, path, model, driverKey 字段",
                ),
            );
        },
        Some(c) => c,
    };
    if cat.is_empty() {
        return Err(owned("【配置校验失败】driverCatalog 为空。请添加至少一个驱动条目"));
    }
    if let Some(m) = first_printer_error(&config.cities, cat, false) {
        return Err(m);
    }
    if let Some(m) = first_printer_error(&config.cities, cat, true) {
        return Err(m);
    }
    Ok(())
}


// ---------------------------------------------------------------------------
// The driver settings that apply to a printer
// ---------------------------------------------------------------------------

/// The catalog entry that applies: the printer names a key, the catalog
/// exists, and it holds that key.
pub open spec fn catalog_entry_for(p: Printer, catalog: Option<&DriverCatalog>) -> Option<
    DriverCatalogEntry,
> {
    match (p.driver_key, catalog) {
        (Some(k), Some(c)) => c.get_spec(k@),
        _ => None,
    }
}

pub open spec fn names_or_empty(o: Option<Vec<String>>) -> Seq<Seq<char>> {
    match o {
        Some(v) => strings_view(v@),
        None => seq![],
    }
}

pub open spec fn spec_install_mode(p: Printer, catalog: Option<&DriverCatalog>) -> Option<Seq<char>> {
    match catalog_entry_for(p, catalog) {
        Some(e) => if e.install_mode is Some {
            opt_view(e.install_mode)
        } else {
            opt_view(p.install_mode)
        },
        None => opt_view(p.install_mode),
    }
}

pub open spec fn spec_driver_path(p: Printer, catalog: Option<&DriverCatalog>) -> Option<Seq<char>> {
    match catalog_entry_for(p, catalog) {
        Some(e) => match e.local {
            Some(l) => opt_view(l.inf_rel),
            None => opt_view(p.driver_path),
        },
        None => opt_view(p.driver_path),
    }
}

pub open spec fn spec_driver_names(p: Printer, catalog: Option<&DriverCatalog>) -> Seq<Seq<char>> {
    match catalog_entry_for(p, catalog) {
        Some(e) => match e.local {
            Some(l) => match l.driver_names {
                Some(v) => if v@.len() > 0 {
                    strings_view(v@)
                } else {
                    names_or_empty(p.driver_names)
                },
                None => names_or_empty(p.driver_names),
            },
            None => names_or_empty(p.driver_names),
        },
        None => names_or_empty(p.driver_names),
    }
}

/// A remote package as plain values: URL, checksum, version, layout, key.
pub open spec fn remote_view(o: Option<RemoteDriverResolved>) -> Option<
    (Seq<char>, Seq<char>, Option<Seq<char>>, Option<Seq<char>>, Seq<char>),
> {
    match o {
        Some(r) => Some((r.url@, r.sha256@, opt_view(r.version), opt_view(r.layout), r.driver_key@)),
        None => None,
    }
}

/// A remote package is used when the catalog entry gives both a URL and a
/// checksum and neither is blank.
pub open spec fn spec_remote(p: Printer, catalog: Option<&DriverCatalog>) -> Option<
    (Seq<char>, Seq<char>, Option<Seq<char>>, Option<Seq<char>>, Seq<char>),
> {
    match catalog_entry_for(p, catalog) {
        Some(e) => match e.remote {
            Some(rm) => match (rm.url, rm.sha256) {
                (Some(u), Some(h)) => if trim(u@).len() > 0 && trim(h@).len() > 0 {
                    Some((u@, h@, opt_view(rm.version), opt_view(rm.layout), p.driver_key->0@))
                } else {
                    None
                },
                _ => None,
            },
            None => None,
        },
        None => None,
    }
}

/// Works out the driver settings of a printer. When the printer's driver key
/// is in the catalog, the catalog entry decides (falling back to the
/// printer's own fields where the entry is silent); otherwise the printer's
/// own fields apply.
pub fn resolve_effective_driver_spec(
    printer: &Printer,
    catalog: Option<&DriverCatalog>,
) -> (r: EffectiveDriverSpec)
    ensures
        r.source@ == (if catalog_entry_for(*printer, catalog) is Some {
            "catalog"@
        } else {
            "legacy"@
        }),
        opt_view(r.effective_install_mode) == spec_install_mode(*printer, catalog),
        opt_view(r.effective_driver_path) == spec_driver_path(*printer, catalog),
        strings_view(r.effective_driver_names@) == spec_driver_names(*printer, catalog),
        opt_view(r.driver_key_used) == (if catalog_entry_for(*printer, catalog) is Some {
            opt_view(printer.driver_key)
        } else {
            None
        }),
        remote_view(r.remote_driver) == spec_remote(*printer, catalog),
{
    let printer_names = match &printer.driver_names {
        Some(v) => clone_strings(v),
        None => Vec::new(),
    };
    assert(strings_view(printer_names@) == names_or_empty(printer.driver_names)) by {
        if printer.driver_names is None {
            assert(strings_view(printer_names@) =~= Seq::<Seq<char>>::empty());
        }
    }
    let entry_opt: Option<&DriverCatalogEntry> = match (&printer.driver_key, catalog) {
        (Some(k), Some(c)) => c.get(k.as_str()),
        _ => None,
    };
    match entry_opt {
        Some(entry) => {
            let key = match &printer.driver_key {
                Some(k) => k.clone(),
                None => String::new(),
            };
            let install_mode = if entry.install_mode.is_some() {
                clone_opt_string(&entry.install_mode)
            } else {
                clone_opt_string(&printer.install_mode)
            };
            let driver_path = match &entry.local {
                Some(l) => clone_opt_string(&l.inf_rel),
                None => clone_opt_string(&printer.driver_path),
            };
            let driver_names = match &entry.local {
                Some(l) => match &l.driver_names {
                    Some(v) => if v.len() > 0 {
                        clone_strings(v)
                    } else {
                        printer_names
                    },
                    None => printer_names,
                },
                None => printer_names,
            };
            let remote_driver = match &entry.remote {
                Some(rm) => match (&rm.url, &rm.sha256) {
                    (Some(u), Some(h)) => {
                        let tu = trim_str(u.as_str());
                        let th = trim_str(h.as_str());
                        if tu.len() > 0 && th.len() > 0 {
                            Some(
                                RemoteDriverResolved {
                                    url: u.clone(),
                                    sha256: h.clone(),
                                    version: clone_opt_string(&rm.version),
                                    layout: clone_opt_string(&rm.layout),
                                    driver_key: key.clone(),
                                },
                            )
                        } else {
                            None
                        }
                    },
                    _ => None,
                },
                None => None,
            };
            EffectiveDriverSpec {
                source: owned("catalog"),
                effective_install_mode: install_mode,
                effective_driver_path: driver_path,
                effective_driver_names: driver_names,
                driver_key_used: Some(key),
                remote_driver,
            }
        },
        None => EffectiveDriverSpec {
            source: owned("legacy"),
            effective_install_mode: clone_opt_string(&printer.install_mode),
            effective_driver_path: clone_opt_string(&printer.driver_path),
            effective_driver_names: printer_names,
            driver_key_used: None,
            remote_driver: None,
        },
    }
}


// ---------------------------------------------------------------------------
// Comparing a local configuration with a remote one
// ---------------------------------------------------------------------------

pub open spec fn printers_same(a: Seq<Printer>, b: Seq<Printer>) -> bool {
    &&& a.len() == b.len()
    &&& forall|i: int|
        0 <= i < a.len() ==> {
            &&& (#[trigger] a[i]).name@ == b[i].name@
            &&& a[i].path@ == b[i].path@
            &&& opt_view(a[i].model) == opt_view(b[i].model)
        }
}

pub open spec fn areas_same(a: Seq<Area>, b: Seq<Area>) -> bool {
    &&& a.len() == b.len()
    &&& forall|i: int|
        0 <= i < a.len() ==> {
            &&& (#[trigger] a[i]).area_name@ == b[i].area_name@
            &&& printers_same(a[i].printers@, b[i].printers@)
        }
}

pub open spec fn cities_same(a: Seq<City>, b: Seq<City>) -> bool {
    &&& a.len() == b.len()
    &&& forall|i: int|
        0 <= i < a.len() ==> {
            &&& (#[trigger] a[i]).city_id@ == b[i].city_id@
            &&& areas_same(a[i].areas@, b[i].areas@)
        }
}

/// Two configurations differ when their versions differ (one missing and
/// the other present counts), or when some city id, area name, printer
/// name, path or model differs, or some list has another length. City
/// names, driver fields and the catalog are not compared.
pub open spec fn spec_config_different(local: PrinterConfig, remote: PrinterConfig) -> bool {
    opt_view(local.version) != opt_view(remote.version) || !cities_same(
        local.cities@,
        remote.cities@,
    )
}

/// A configuration never differs from itself.
pub proof fn law_config_not_different_from_itself(c: PrinterConfig)
    ensures
        !spec_config_different(c, c),
{
}

/// Differing is symmetric: comparing the other way round gives the same
/// answer.
pub proof fn law_config_different_symmetric(a: PrinterConfig, b: PrinterConfig)
    ensures
        spec_config_different(a, b) == spec_config_different(b, a),
{
    assert(cities_same(a.cities@, b.cities@) ==> cities_same(b.cities@, a.cities@)) by {
        if cities_same(a.cities@, b.cities@) {
            assert forall|i: int| 0 <= i < b.cities@.len() implies {
                &&& (#[trigger] b.cities@[i]).city_id@ == a.cities@[i].city_id@
                &&& areas_same(b.cities@[i].areas@, a.cities@[i].areas@)
            } by {
                let x = a.cities@[i].areas@;
                let y = b.cities@[i].areas@;
                assert(areas_same(x, y));
                assert forall|j: int| 0 <= j < y.len() implies {
                    &&& (#[trigger] y[j]).area_name@ == x[j].area_name@
                    &&& printers_same(y[j].printers@, x[j].printers@)
                } by {
                    assert(printers_same(x[j].printers@, y[j].printers@));
                }
            }
        }
    }
    assert(cities_same(b.cities@, a.cities@) ==> cities_same(a.cities@, b.cities@)) by {
        if cities_same(b.cities@, a.cities@) {
            assert forall|i: int| 0 <= i < a.cities@.len() implies {
                &&& (#[trigger] a.cities@[i]).city_id@ == b.cities@[i].city_id@
                &&& areas_same(a.cities@[i].areas@, b.cities@[i].areas@)
            } by {
                let x = b.cities@[i].areas@;
                let y = a.cities@[i].areas@;
                assert(areas_same(x, y));
                assert forall|j: int| 0 <= j < y.len() implies {
                    &&& (#[trigger] y[j]).area_name@ == x[j].area_name@
                    &&& printers_same(y[j].printers@, x[j].printers@)
                } by {
                    assert(printers_same(x[j].printers@, y[j].printers@));
                }
            }
        }
    }
}

pub fn string_eq(a: &String, b: &String) -> (r: bool)
    ensures
        r == (a@ == b@),
{
    *a == *b
}

pub fn opt_string_eq(a: &Option<String>, b: &Option<String>) -> (r: bool)
    ensures
        r == (opt_view(*a) == opt_view(*b)),
{
    match (a, b) {
        (Some(x), Some(y)) => *x == *y,
        (None, None) => true,
        _ => false,
    }
}

fn printers_differ(a: &Vec<Printer>, b: &Vec<Printer>) -> (r: bool)
    ensures
        r == !printers_same(a@, b@),
{
    if a.len() != b.len() {
        return true;
    }
    let mut i: usize = 0;
    while i < a.len()
        invariant
            i <= a@.len(),
            a@.len() == b@.len(),
            forall|j: int|
                0 <= j < i ==> {
                    &&& (#[trigger] a@[j]).name@ == b@[j].name@
                    &&& a@[j].path@ == b@[j].path@
                    &&& opt_view(a@[j].model) == opt_view(b@[j].model)
                },
        decreases a@.len() - i,
    {
        if !string_eq(&a[i].name, &b[i].name) || !string_eq(&a[i].path, &b[i].path)
            || !opt_string_eq(&a[i].model, &b[i].model) {
            return true;
        }
        i = i + 1;
    }
    false
}

fn areas_differ(a: &Vec<Area>, b: &Vec<Area>) -> (r: bool)
    ensures
        r == !areas_same(a@, b@),
{
    if a.len() != b.len() {
        return true;
    }
    let mut i: usize = 0;
    while i < a.len()
        invariant
            i <= a@.len(),
            a@.len() == b@.len(),
            forall|j: int|
                0 <= j < i ==> {
                    &&& (#[trigger] a@[j]).area_name@ == b@[j].area_name@
                    &&& printers_same(a@[j].printers@, b@[j].printers@)
                },
        decreases a@.len() - i,
    {
        if !string_eq(&a[i].area_name, &b[i].area_name) || printers_differ(
            &a[i].printers,
            &b[i].printers,
        ) {
            return true;
        }
        i = i + 1;
    }
    false
}

/// Whether a remote configuration differs from the local one: see
/// `spec_config_different`.
pub fn config_different(local: &PrinterConfig, remote: &PrinterConfig) -> (r: bool)
    ensures
        r == spec_config_different(*local, *remote),
{
    if !opt_string_eq(&local.version, &remote.version) {
        return true;
    }
    let a = &local.cities;
    let b = &remote.cities;
    if a.len() != b.len() {
        return true;
    }
    let mut i: usize = 0;
    while i < a.len()
        invariant
            i <= a@.len(),
            a@.len() == b@.len(),
            *a == local.cities,
            *b == remote.cities,
            forall|j: int|
                0 <= j < i ==> {
                    &&& (#[trigger] a@[j]).city_id@ == b@[j].city_id@
                    &&& areas_same(a@[j].areas@, b@[j].areas@)
                },
        decreases a@.len() - i,
    {
        if !string_eq(&a[i].city_id, &b[i].city_id) || areas_differ(&a[i].areas, &b[i].areas) {
            return true;
        }
        i = i + 1;
    }
    false
}

} // verus!

verus! {

// ---------------------------------------------------------------------------
// Laws of the configuration checks and of the driver settings
// ---------------------------------------------------------------------------

/// `first_some` finds nothing exactly when `f` gives nothing for every
/// printer.
pub proof fn lemma_first_some_none_iff(ps: Seq<Printer>, f: spec_fn(Printer) -> Option<Seq<char>>)
    ensures
        first_some(ps, f) is None <==> forall|i: int| 0 <= i < ps.len() ==> (#[trigger] f(ps[i])) is None,
    decreases ps.len(),
{
    if ps.len() > 0 {
        lemma_first_some_none_iff(ps.drop_first(), f);
        if first_some(ps, f) is None {
            assert forall|i: int| 0 <= i < ps.len() implies (#[trigger] f(ps[i])) is None by {
                if i > 0 {
                    assert(ps[i] == ps.drop_first()[i - 1]);
                }
            }
        } else if f(ps[0]) is None {
            let i = choose|i: int| 0 <= i < ps.drop_first().len() && (#[trigger] f(ps.drop_first()[i])) is Some;
            assert(ps.drop_first()[i] == ps[i + 1]);
        }
    }
}

/// Where a printer of the flat list stands in the nested lists.
proof fn lemma_area_printers_origin(areas: Seq<Area>, k: int) -> (r: (int, int))
    requires
        0 <= k < area_printers(areas).len(),
    ensures
        0 <= r.0 < areas.len(),
        0 <= r.1 < areas[r.0].printers@.len(),
        area_printers(areas)[k] == areas[r.0].printers@[r.1],
    decreases areas.len(),
{
    let head = area_printers(areas.drop_last());
    if k < head.len() {
        let (ai, pi) = lemma_area_printers_origin(areas.drop_last(), k);
        assert(areas.drop_last()[ai] == areas[ai]);
        (ai, pi)
    } else {
        (areas.len() - 1, k - head.len())
    }
}

proof fn lemma_city_printers_origin(cities: Seq<City>, k: int) -> (r: (int, int, int))
    requires
        0 <= k < city_printers(cities).len(),
    ensures
        0 <= r.0 < cities.len(),
        0 <= r.1 < cities[r.0].areas@.len(),
        0 <= r.2 < cities[r.0].areas@[r.1].printers@.len(),
        city_printers(cities)[k] == cities[r.0].areas@[r.1].printers@[r.2],
    decreases cities.len(),
{
    let head = city_printers(cities.drop_last());
    if k < head.len() {
        let (ci, ai, pi) = lemma_city_printers_origin(cities.drop_last(), k);
        assert(cities.drop_last()[ci] == cities[ci]);
        (ci, ai, pi)
    } else {
        let (ai, pi) = lemma_area_printers_origin(cities.last().areas@, k - head.len());
        (cities.len() - 1, ai, pi)
    }
}

/// Where a printer of the nested lists stands in the flat list.
proof fn lemma_city_printers_index(cities: Seq<City>, ci: int, ai: int, pi: int) -> (k: int)
    requires
        0 <= ci < cities.len(),
        0 <= ai < cities[ci].areas@.len(),
        0 <= pi < cities[ci].areas@[ai].printers@.len(),
    ensures
        0 <= k < city_printers(cities).len(),
        city_printers(cities)[k] == cities[ci].areas@[ai].printers@[pi],
{
    lemma_city_printers_split(cities, ci, ai, pi);
    let areas = cities[ci].areas@;
    let printers = areas[ai].printers@;
    let k = city_printers(cities.take(ci)).len() + area_printers(areas.take(ai)).len() + pi;
    assert(printers.skip(pi)[0] == printers[pi]);
    k
}

/// A printer of the configuration, by city, area and position.
pub open spec fn printer_at(c: PrinterConfig, ci: int, ai: int, pi: int) -> bool {
    &&& 0 <= ci < c.cities@.len()
    &&& 0 <= ai < c.cities@[ci].areas@.len()
    &&& 0 <= pi < c.cities@[ci].areas@[ai].printers@.len()
}

/// A printer still carries a field that moved to the driver catalog: a
/// driver path, a non-empty list of driver names, or an install mode.
pub open spec fn keeps_moved_field(p: Printer) -> bool {
    ||| p.driver_path is Some
    ||| (p.driver_names matches Some(v) && v@.len() > 0)
    ||| p.install_mode is Some
}

/// A configuration in which any printer, wherever it stands, still carries
/// a driver path, a non-empty list of driver names or an install mode of
/// its own is refused.
pub proof fn law_config_refuses_moved_fields(c: PrinterConfig, ci: int, ai: int, pi: int)
    requires
        printer_at(c, ci, ai, pi),
        keeps_moved_field(c.cities@[ci].areas@[ai].printers@[pi]),
    ensures
        config_error(c) is Some,
{
    if c.driver_catalog matches Some(cat) && cat.key_seq().len() > 0 {
        let ps = city_printers(c.cities@);
        let k = lemma_city_printers_index(c.cities@, ci, ai, pi);
        let p = ps[k];
        assert(legacy_fields(p).len() > 0);
        let f = |q: Printer| legacy_error(q);
        assert(f(ps[k]) is Some);
        lemma_first_some_none_iff(ps, f);
    }
}

/// A configuration in which any printer names no driver key, or a key the
/// catalog does not hold, is refused.
pub proof fn law_config_refuses_unknown_keys(c: PrinterConfig, ci: int, ai: int, pi: int)
    requires
        printer_at(c, ci, ai, pi),
        !(c.driver_catalog matches Some(cat) && c.cities@[ci].areas@[ai].printers@[pi].driver_key matches Some(
            k,
        ) && cat.contains_spec(k@)),
    ensures
        config_error(c) is Some,
{
    if c.driver_catalog is Some && c.driver_catalog->0.key_seq().len() > 0 {
        let cat = c.driver_catalog->0;
        let ps = city_printers(c.cities@);
        let k = lemma_city_printers_index(c.cities@, ci, ai, pi);
        let f = |q: Printer| key_error(q, cat);
        assert(f(ps[k]) is Some);
        lemma_first_some_none_iff(ps, f);
    }
}

/// A configuration is accepted when it has a non-empty catalog and every
/// printer names a key of it and carries none of the moved fields.
pub proof fn law_config_accepts_clean(c: PrinterConfig)
    requires
        c.driver_catalog matches Some(cat) && cat.key_seq().len() > 0,
        forall|ci: int, ai: int, pi: int|
            printer_at(c, ci, ai, pi) ==> {
                let p = #[trigger] c.cities@[ci].areas@[ai].printers@[pi];
                &&& !keeps_moved_field(p)
                &&& p.driver_key matches Some(k) && c.driver_catalog->0.contains_spec(k@)
            },
    ensures
        config_error(c) is None,
{
    let cat = c.driver_catalog->0;
    let ps = city_printers(c.cities@);
    let fk = |q: Printer| key_error(q, cat);
    let fl = |q: Printer| legacy_error(q);
    assert forall|i: int| #![trigger fk(ps[i])] #![trigger fl(ps[i])] 0 <= i < ps.len() implies fk(ps[i]) is None && fl(ps[i]) is None by {
        let (ci, ai, pi) = lemma_city_printers_origin(c.cities@, i);
        assert(printer_at(c, ci, ai, pi));
        let p = c.cities@[ci].areas@[ai].printers@[pi];
        assert(!keeps_moved_field(p));
        assert(p.driver_key matches Some(k) && cat.contains_spec(k@));
        assert(key_error(p, cat) is None);
        assert(legacy_fields(p) =~= Seq::<Seq<char>>::empty());
    }
    lemma_first_some_none_iff(ps, fk);
    lemma_first_some_none_iff(ps, fl);
    assert(fk =~= (|p: Printer| key_error(p, cat)));
    assert(fl =~= (|p: Printer| legacy_error(p)));
}

/// The catalog decides a printer's driver names: when the printer's key is
/// in the catalog and the entry lists local driver names, those are the
/// effective names, whatever the printer itself lists.
pub proof fn law_catalog_driver_names(
    p: Printer,
    cat: DriverCatalog,
    entry: DriverCatalogEntry,
    local: DriverLocalSpec,
    names: Vec<String>,
)
    requires
        p.driver_key is Some,
        cat.get_spec(p.driver_key->0@) == Some(entry),
        entry.local == Some(local),
        local.driver_names == Some(names),
        names@.len() > 0,
    ensures
        spec_driver_names(p, Some(&cat)) == strings_view(names@),
{
}

/// Without a catalog entry for its key (no key, no catalog, or a key the
/// catalog does not hold), a printer's own driver names, install mode and
/// driver path apply.
pub proof fn law_own_driver_fields_without_entry(p: Printer, catalog: Option<&DriverCatalog>)
    requires
        !(p.driver_key is Some && catalog is Some && catalog->0.contains_spec(p.driver_key->0@)),
    ensures
        spec_driver_names(p, catalog) == (match p.driver_names {
            Some(v) => strings_view(v@),
            None => Seq::<Seq<char>>::empty(),
        }),
        spec_install_mode(p, catalog) == opt_view(p.install_mode),
        spec_driver_path(p, catalog) == opt_view(p.driver_path),
{
}

/// The catalog entry's own install mode, and the INF path of its local
/// part, are the effective ones.
pub proof fn law_catalog_mode_and_path(p: Printer, cat: DriverCatalog, entry: DriverCatalogEntry)
    requires
        p.driver_key is Some,
        cat.get_spec(p.driver_key->0@) == Some(entry),
    ensures
        entry.install_mode is Some ==> spec_install_mode(p, Some(&cat)) == opt_view(entry.install_mode),
        entry.local is Some ==> spec_driver_path(p, Some(&cat)) == opt_view(entry.local->0.inf_rel),
{
}

/// Where the catalog entry is silent, the printer's own fields apply: no
/// install mode of the entry, no local part (for the INF path and the
/// names), or an empty or missing list of local names.
pub proof fn law_entry_silent_falls_back(p: Printer, cat: DriverCatalog, entry: DriverCatalogEntry)
    requires
        p.driver_key is Some,
        cat.get_spec(p.driver_key->0@) == Some(entry),
    ensures
        entry.install_mode is None ==> spec_install_mode(p, Some(&cat)) == opt_view(p.install_mode),
        entry.local is None ==> spec_driver_path(p, Some(&cat)) == opt_view(p.driver_path),
        (entry.local is None || entry.local->0.driver_names is None || entry.local->0.driver_names->0@.len()
            == 0) ==> spec_driver_names(p, Some(&cat)) == (match p.driver_names {
            Some(v) => strings_view(v@),
            None => Seq::<Seq<char>>::empty(),
        }),
{
}

/// A remote package is used exactly when the printer's catalog entry gives
/// a URL and a checksum that are not blank; it carries them, the version,
/// the layout and the printer's key.
pub proof fn law_remote_package(p: Printer, catalog: Option<&DriverCatalog>)
    ensures
        spec_remote(p, catalog) is Some <==> (catalog_entry_for(p, catalog) matches Some(e) && e.remote matches Some(
            rm,
        ) && rm.url matches Some(u) && rm.sha256 matches Some(h) && trim(u@).len() > 0 && trim(h@).len() > 0),
        spec_remote(p, catalog) matches Some(r) ==> ({
            let rm = catalog_entry_for(p, catalog)->0.remote->0;
            &&& r.0 == rm.url->0@
            &&& r.1 == rm.sha256->0@
            &&& r.2 == opt_view(rm.version)
            &&& r.3 == opt_view(rm.layout)
            &&& r.4 == p.driver_key->0@
        }),
{
}

/// A configuration without a driver catalog, or with an empty one, is
/// refused, whatever its printers.
pub proof fn law_config_needs_catalog(c: PrinterConfig)
    requires
        c.driver_catalog is None || c.driver_catalog->0.key_seq().len() == 0,
    ensures
        config_error(c) is Some,
{
}

/// Two configurations whose printers at the same city, area and position
/// differ in name, path or model differ.
pub proof fn law_config_different_printer(a: PrinterConfig, b: PrinterConfig, ci: int, ai: int, pi: int)
    requires
        printer_at(a, ci, ai, pi),
        printer_at(b, ci, ai, pi),
        ({
            let x = a.cities@[ci].areas@[ai].printers@[pi];
            let y = b.cities@[ci].areas@[ai].printers@[pi];
            x.name@ != y.name@ || x.path@ != y.path@ || opt_view(x.model) != opt_view(y.model)
        }),
    ensures
        spec_config_different(a, b),
{
    if !spec_config_different(a, b) {
        assert(areas_same(a.cities@[ci].areas@, b.cities@[ci].areas@));
        assert(printers_same(a.cities@[ci].areas@[ai].printers@, b.cities@[ci].areas@[ai].printers@));
    }
}

/// Two configurations with different versions, different numbers of
/// cities, or a city whose id, number of areas, area name or number of
/// printers differs, differ.
pub proof fn law_config_different_shape(a: PrinterConfig, b: PrinterConfig, ci: int, ai: int)
    ensures
        opt_view(a.version) != opt_view(b.version) ==> spec_config_different(a, b),
        a.cities@.len() != b.cities@.len() ==> spec_config_different(a, b),
        (0 <= ci < a.cities@.len() && ci < b.cities@.len() && (a.cities@[ci].city_id@ != b.cities@[ci].city_id@
            || a.cities@[ci].areas@.len() != b.cities@[ci].areas@.len())) ==> spec_config_different(a, b),
        (0 <= ci < a.cities@.len() && ci < b.cities@.len() && 0 <= ai < a.cities@[ci].areas@.len() && ai
            < b.cities@[ci].areas@.len() && (a.cities@[ci].areas@[ai].area_name@
            != b.cities@[ci].areas@[ai].area_name@ || a.cities@[ci].areas@[ai].printers@.len()
            != b.cities@[ci].areas@[ai].printers@.len())) ==> spec_config_different(a, b),
{
    if 0 <= ci < a.cities@.len() && ci < b.cities@.len() && !spec_config_different(a, b) {
        assert(areas_same(a.cities@[ci].areas@, b.cities@[ci].areas@));
        if 0 <= ai < a.cities@[ci].areas@.len() {
            assert(printers_same(a.cities@[ci].areas@[ai].printers@, b.cities@[ci].areas@[ai].printers@));
        }
    }
}

/// Two configurations with the same version and the same cities, areas
/// and printers (ids, names, paths and models, position by position) do
/// not differ.
pub proof fn law_config_same_when_all_match(a: PrinterConfig, b: PrinterConfig)
    requires
        opt_view(a.version) == opt_view(b.version),
        a.cities@.len() == b.cities@.len(),
        forall|ci: int|
            0 <= ci < a.cities@.len() ==> (#[trigger] a.cities@[ci]).city_id@ == b.cities@[ci].city_id@
                && a.cities@[ci].areas@.len() == b.cities@[ci].areas@.len(),
        forall|ci: int, ai: int|
            0 <= ci < a.cities@.len() && 0 <= ai < a.cities@[ci].areas@.len() ==> (#[trigger] a.cities@[ci].areas@[ai]).area_name@
                == b.cities@[ci].areas@[ai].area_name@ && a.cities@[ci].areas@[ai].printers@.len()
                == b.cities@[ci].areas@[ai].printers@.len(),
        forall|ci: int, ai: int, pi: int|
            printer_at(a, ci, ai, pi) ==> {
                let x = #[trigger] a.cities@[ci].areas@[ai].printers@[pi];
                let y = b.cities@[ci].areas@[ai].printers@[pi];
                x.name@ == y.name@ && x.path@ == y.path@ && opt_view(x.model) == opt_view(y.model)
            },
    ensures
        !spec_config_different(a, b),
{
    assert forall|ci: int| 0 <= ci < a.cities@.len() implies areas_same(
        (#[trigger] a.cities@[ci]).areas@,
        b.cities@[ci].areas@,
    ) by {
        assert forall|ai: int| 0 <= ai < a.cities@[ci].areas@.len() implies printers_same(
            (#[trigger] a.cities@[ci].areas@[ai]).printers@,
            b.cities@[ci].areas@[ai].printers@,
        ) by {
            assert forall|pi: int| 0 <= pi < a.cities@[ci].areas@[ai].printers@.len() implies {
                &&& (#[trigger] a.cities@[ci].areas@[ai].printers@[pi]).name@ == b.cities@[ci].areas@[ai].printers@[pi].name@
                &&& a.cities@[ci].areas@[ai].printers@[pi].path@ == b.cities@[ci].areas@[ai].printers@[pi].path@
                &&& opt_view(a.cities@[ci].areas@[ai].printers@[pi].model) == opt_view(
                    b.cities@[ci].areas@[ai].printers@[pi].model,
                )
            } by {
                assert(printer_at(a, ci, ai, pi));
            }
        }
    }
}

} // verus!

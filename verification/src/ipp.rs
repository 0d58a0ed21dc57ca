use vstd::prelude::*;
use vstd::utf8::{valid_utf8, decode_utf8, encode_utf8};
use crate::text::{chars_of, owned};

verus! {

// ---------------------------------------------------------------------------
// Byte encoding helpers (big-endian, as IPP uses)
// ---------------------------------------------------------------------------

/// The two bytes of `v`, most significant first.
pub open spec fn be16(v: u16) -> Seq<u8> {
    seq![(v / 256) as u8, (v % 256) as u8]
}

/// The four bytes of `v`, most significant first.
pub open spec fn be32(v: u32) -> Seq<u8> {
    seq![(v / 0x100_0000) as u8, ((v / 0x1_0000) % 256) as u8, ((v / 256) % 256) as u8, (v % 256) as u8]
}

/// The number that two bytes give, most significant first.
pub open spec fn read16(a: u8, b: u8) -> u16 {
    (a as nat * 256 + b as nat) as u16
}

/// The number that four bytes give, most significant first.
pub open spec fn read32(a: u8, b: u8, c: u8, d: u8) -> u32 {
    (a as nat * 0x100_0000 + b as nat * 0x1_0000 + c as nat * 256 + d as nat) as u32
}

/// Appends bytes to a buffer.
pub fn extend_bytes(buf: &mut Vec<u8>, other: &[u8])
    ensures
        final(buf)@ == old(buf)@ + other@,
{
    let mut i: usize = 0;
    while i < other.len()
        invariant
            i <= other@.len(),
            buf@ == old(buf)@ + other@.take(i as int),
        decreases other@.len() - i,
    {
        buf.push(other[i]);
        assert(old(buf)@ + other@.take(i + 1) =~= (old(buf)@ + other@.take(i as int)).push(other@[i as int]));
        i = i + 1;
    }
    assert(other@.take(other@.len() as int) =~= other@);
}

/// Appends a 16-bit number, most significant byte first.
pub fn write_u16(buf: &mut Vec<u8>, value: u16)
    ensures
        final(buf)@ == old(buf)@ + be16(value),
{
    buf.push((value / 256) as u8);
    buf.push((value % 256) as u8);
    assert(final(buf)@ =~= old(buf)@ + be16(value));
}

/// Appends a 32-bit number, most significant byte first.
pub fn write_u32(buf: &mut Vec<u8>, value: u32)
    ensures
        final(buf)@ == old(buf)@ + be32(value),
{
    buf.push((value / 0x100_0000) as u8);
    buf.push(((value / 0x1_0000) % 256) as u8);
    buf.push(((value / 256) % 256) as u8);
    buf.push((value % 256) as u8);
    assert(final(buf)@ =~= old(buf)@ + be32(value));
}

/// Reading back what `write_u16` wrote gives the number written.
pub proof fn law_read16_of_be16(v: u16)
    ensures
        read16(be16(v)[0], be16(v)[1]) == v,
{
}

/// Reading back what `write_u32` wrote gives the number written.
pub proof fn law_read32_of_be32(v: u32)
    ensures
        read32(be32(v)[0], be32(v)[1], be32(v)[2], be32(v)[3]) == v,
{
    let a = v / 0x100_0000;
    let b = (v / 0x1_0000) % 256;
    let c = (v / 256) % 256;
    let d = v % 256;
    assert(a * 0x100_0000 + b * 0x1_0000 + c * 256 + d == v) by (nonlinear_arith)
        requires
            a == v / 0x100_0000,
            b == (v / 0x1_0000) % 256,
            c == (v / 256) % 256,
            d == v % 256,
    ;
}

// ---------------------------------------------------------------------------
// The CUPS-Get-Printers request
// ---------------------------------------------------------------------------

pub open spec fn utf8_len16(s: Seq<char>) -> u16 {
    (encode_utf8(s).len() % 0x1_0000) as u16
}

/// An attribute: tag, name length, name, value length, value (lengths
/// wrap at 16 bits, as a cast to `u16` does).
pub open spec fn attr_bytes(tag: u8, name: Seq<char>, value: Seq<char>) -> Seq<u8> {
    seq![tag] + be16(utf8_len16(name)) + encode_utf8(name) + be16(utf8_len16(value)) + encode_utf8(
        value,
    )
}

/// A further value of the previous attribute: empty name.
pub open spec fn attr_repeat_bytes(tag: u8, value: Seq<char>) -> Seq<u8> {
    seq![tag] + be16(0) + be16(utf8_len16(value)) + encode_utf8(value)
}

fn str_len16(s: &str) -> (n: u16)
    ensures
        n == utf8_len16(s@),
{
    let b = s.as_bytes();
    (b.len() % 0x1_0000) as u16
}

/// Appends one attribute with its name and value.
pub fn write_attr(buf: &mut Vec<u8>, tag: u8, name: &str, value: &str)
    ensures
        final(buf)@ == old(buf)@ + attr_bytes(tag, name@, value@),
{
    buf.push(tag);
    write_u16(buf, str_len16(name));
    extend_bytes(buf, name.as_bytes());
    write_u16(buf, str_len16(value));
    extend_bytes(buf, value.as_bytes());
    assert(final(buf)@ =~= old(buf)@ + attr_bytes(tag, name@, value@));
}

/// Appends a further value of the previous attribute.
pub fn write_attr_repeat(buf: &mut Vec<u8>, tag: u8, value: &str)
    ensures
        final(buf)@ == old(buf)@ + attr_repeat_bytes(tag, value@),
{
    buf.push(tag);
    write_u16(buf, 0);
    write_u16(buf, str_len16(value));
    extend_bytes(buf, value.as_bytes());
    assert(final(buf)@ =~= old(buf)@ + attr_repeat_bytes(tag, value@));
}

pub const IPP_TAG_OPERATION_ATTRIBUTES: u8 = 0x01;
pub const IPP_TAG_END: u8 = 0x03;
pub const IPP_TAG_PRINTER_ATTRIBUTES: u8 = 0x04;
pub const IPP_TAG_INTEGER: u8 = 0x21;
pub const IPP_TAG_BOOLEAN: u8 = 0x22;
pub const IPP_TAG_ENUM: u8 = 0x23;
pub const IPP_TAG_NAME_WITHOUT_LANGUAGE: u8 = 0x42;
pub const IPP_TAG_KEYWORD: u8 = 0x44;
pub const IPP_TAG_CHARSET: u8 = 0x47;
pub const IPP_TAG_NATURAL_LANGUAGE: u8 = 0x48;

/// The CUPS-Get-Printers request (IPP 1.1, operation 0x4002, request id 1)
/// asking for the name, info, device URI, accepting state and state of
/// every printer.
pub open spec fn ipp_request_bytes() -> Seq<u8> {
    seq![0x01u8, 0x01u8, 0x40u8, 0x02u8] + be32(1) + seq![IPP_TAG_OPERATION_ATTRIBUTES]
        + attr_bytes(IPP_TAG_CHARSET, "attributes-charset"@, "utf-8"@)
        + attr_bytes(IPP_TAG_NATURAL_LANGUAGE, "attributes-natural-language"@, "en"@)
        + attr_bytes(IPP_TAG_NAME_WITHOUT_LANGUAGE, "requesting-user-name"@, "eprinty"@)
        + attr_bytes(IPP_TAG_KEYWORD, "requested-attributes"@, "printer-name"@)
        + attr_repeat_bytes(IPP_TAG_KEYWORD, "printer-info"@)
        + attr_repeat_bytes(IPP_TAG_KEYWORD, "device-uri"@)
        + attr_repeat_bytes(IPP_TAG_KEYWORD, "printer-is-accepting-jobs"@)
        + attr_repeat_bytes(IPP_TAG_KEYWORD, "printer-state"@) + seq![IPP_TAG_END]
}

/// Builds the CUPS-Get-Printers request body.
pub fn build_ipp_request() -> (r: Vec<u8>)
    ensures
        r@ == ipp_request_bytes(),
{
    let mut buf: Vec<u8> = Vec::new();
    buf.push(0x01);
    buf.push(0x01);
    buf.push(0x40);
    buf.push(0x02);
    write_u32(&mut buf, 1);
    buf.push(IPP_TAG_OPERATION_ATTRIBUTES);
    write_attr(&mut buf, IPP_TAG_CHARSET, "attributes-charset", "utf-8");
    write_attr(&mut buf, IPP_TAG_NATURAL_LANGUAGE, "attributes-natural-language", "en");
    write_attr(&mut buf, IPP_TAG_NAME_WITHOUT_LANGUAGE, "requesting-user-name", "eprinty");
    write_attr(&mut buf, IPP_TAG_KEYWORD, "requested-attributes", "printer-name");
    write_attr_repeat(&mut buf, IPP_TAG_KEYWORD, "printer-info");
    write_attr_repeat(&mut buf, IPP_TAG_KEYWORD, "device-uri");
    write_attr_repeat(&mut buf, IPP_TAG_KEYWORD, "printer-is-accepting-jobs");
    write_attr_repeat(&mut buf, IPP_TAG_KEYWORD, "printer-state");
    buf.push(IPP_TAG_END);
    assert(buf@ =~= ipp_request_bytes());
    buf
}


// ---------------------------------------------------------------------------
// Reading numbers
// ---------------------------------------------------------------------------

/// Reads a 16-bit number at `*idx` and moves past it.
pub fn read_u16(bytes: &[u8], idx: &mut usize) -> (r: Result<u16, String>)
    ensures
        *old(idx) + 2 <= bytes@.len() ==> (r matches Ok(v) && v == read16(
            bytes@[*old(idx) as int],
            bytes@[*old(idx) + 1],
        ) && *final(idx) == *old(idx) + 2),
        *old(idx) + 2 > bytes@.len() ==> (r matches Err(e) && e@ == "unexpected end of data"@
            && *final(idx) == *old(idx)),
{
    if *idx > bytes.len() || bytes.len() - *idx < 2 {
        return Err(owned("unexpected end of data"));
    }
    let i = *idx;
    let value: u16 = (bytes[i] as u16) * 256 + (bytes[i + 1] as u16);
    *idx = i + 2;
    Ok(value)
}

/// Reads a 32-bit number at `*idx` and moves past it.
pub fn read_u32(bytes: &[u8], idx: &mut usize) -> (r: Result<u32, String>)
    ensures
        *old(idx) + 4 <= bytes@.len() ==> (r matches Ok(v) && v == read32(
            bytes@[*old(idx) as int],
            bytes@[*old(idx) + 1],
            bytes@[*old(idx) + 2],
            bytes@[*old(idx) + 3],
        ) && *final(idx) == *old(idx) + 4),
        *old(idx) + 4 > bytes@.len() ==> (r matches Err(e) && e@ == "unexpected end of data"@
            && *final(idx) == *old(idx)),
{
    if *idx > bytes.len() || bytes.len() - *idx < 4 {
        return Err(owned("unexpected end of data"));
    }
    let i = *idx;
    let value: u32 = (bytes[i] as u32) * 0x100_0000 + (bytes[i + 1] as u32) * 0x1_0000 + (bytes[i
        + 2] as u32) * 256 + (bytes[i + 3] as u32);
    *idx = i + 4;
    Ok(value)
}

// ---------------------------------------------------------------------------
// Attribute values
// ---------------------------------------------------------------------------

/// `String::from_utf8`: the string when the bytes are valid UTF-8.
#[verifier::external_body]
pub(crate) fn utf8_string(bytes: &[u8]) -> (r: Option<String>)
    ensures
        r is Some <==> valid_utf8(bytes@),
        r matches Some(s) ==> s@ == decode_utf8(bytes@),
{
    String::from_utf8(bytes.to_vec()).ok()
}

/// An attribute value as far as the printer list needs it.
pub enum IppValue {
    Text(String),
    Integer(i32),
    Boolean(bool),
}

pub enum SpecIppValue {
    Text(Seq<char>),
    Integer(i32),
    Boolean(bool),
}

impl IppValue {
    pub open spec fn view(self) -> SpecIppValue {
        match self {
            IppValue::Text(s) => SpecIppValue::Text(s@),
            IppValue::Integer(i) => SpecIppValue::Integer(i),
            IppValue::Boolean(b) => SpecIppValue::Boolean(b),
        }
    }
}

/// What a value reads as: integers and enums from exactly four bytes,
/// booleans from a first byte that is not zero, anything else as UTF-8 text.
pub open spec fn spec_ipp_value(tag: u8, v: Seq<u8>) -> Option<SpecIppValue> {
    if tag == IPP_TAG_INTEGER || tag == IPP_TAG_ENUM {
        if v.len() == 4 {
            Some(SpecIppValue::Integer(read32(v[0], v[1], v[2], v[3]) as i32))
        } else {
            None
        }
    } else if tag == IPP_TAG_BOOLEAN {
        if v.len() > 0 {
            Some(SpecIppValue::Boolean(v[0] != 0))
        } else {
            None
        }
    } else if valid_utf8(v) {
        Some(SpecIppValue::Text(decode_utf8(v)))
    } else {
        None
    }
}

pub fn parse_value(tag: u8, value: &[u8]) -> (r: Option<IppValue>)
    ensures
        match r {
            Some(x) => spec_ipp_value(tag, value@) == Some(x.view()),
            None => spec_ipp_value(tag, value@) is None,
        },
{
    if tag == IPP_TAG_INTEGER || tag == IPP_TAG_ENUM {
        if value.len() == 4 {
            let u: u32 = (value[0] as u32) * 0x100_0000 + (value[1] as u32) * 0x1_0000 + (value[2]
                as u32) * 256 + (value[3] as u32);
            Some(IppValue::Integer(u as i32))
        } else {
            None
        }
    } else if tag == IPP_TAG_BOOLEAN {
        if value.len() > 0 {
            Some(IppValue::Boolean(value[0] != 0))
        } else {
            None
        }
    } else {
        match utf8_string(value) {
            Some(s) => Some(IppValue::Text(s)),
            None => None,
        }
    }
}

// ---------------------------------------------------------------------------
// The CUPS-Get-Printers response
// ---------------------------------------------------------------------------

/// A printer as the system lists it.
pub struct SystemPrinter {
    pub system_queue_name: String,
    pub display_name: Option<String>,
    pub device_uri: Option<String>,
    pub is_accepting_jobs: Option<bool>,
    pub state: Option<i32>,
}

/// A printer as plain values.
pub struct PrinterRecord {
    pub name: Seq<char>,
    pub display_name: Option<Seq<char>>,
    pub device_uri: Option<Seq<char>>,
    pub accepting: Option<bool>,
    pub state: Option<i32>,
}

pub open spec fn opt_chars(o: Option<String>) -> Option<Seq<char>> {
    match o {
        Some(s) => Some(s@),
        None => None,
    }
}

impl SystemPrinter {
    pub open spec fn view(self) -> PrinterRecord {
        PrinterRecord {
            name: self.system_queue_name@,
            display_name: opt_chars(self.display_name),
            device_uri: opt_chars(self.device_uri),
            accepting: self.is_accepting_jobs,
            state: self.state,
        }
    }
}

pub open spec fn records(ps: Seq<SystemPrinter>) -> Seq<PrinterRecord> {
    ps.map_values(|p: SystemPrinter| p.view())
}

pub open spec fn empty_record() -> PrinterRecord {
    PrinterRecord { name: seq![], display_name: None, device_uri: None, accepting: None, state: None }
}

/// One attribute applied to the printer being read: the first name, info
/// and device URI win; the accepting flag and the state take the last value.
pub open spec fn apply_attr(r: PrinterRecord, name: Seq<char>, v: Option<SpecIppValue>) -> PrinterRecord {
    match v {
        Some(SpecIppValue::Text(t)) => if name == "printer-name"@ {
            if r.name.len() == 0 {
                PrinterRecord { name: t, ..r }
            } else {
                r
            }
        } else if name == "printer-info"@ {
            if r.display_name is None {
                PrinterRecord { display_name: Some(t), ..r }
            } else {
                r
            }
        } else if name == "device-uri"@ {
            if r.device_uri is None {
                PrinterRecord { device_uri: Some(t), ..r }
            } else {
                r
            }
        } else {
            r
        },
        Some(SpecIppValue::Boolean(b)) => if name == "printer-is-accepting-jobs"@ {
            PrinterRecord { accepting: Some(b), ..r }
        } else {
            r
        },
        Some(SpecIppValue::Integer(i)) => if name == "printer-state"@ {
            PrinterRecord { state: Some(i), ..r }
        } else {
            r
        },
        None => r,
    }
}

/// The printers read so far, with the one being read added if it has a name.
pub open spec fn flush(done: Seq<PrinterRecord>, cur: Option<PrinterRecord>) -> Seq<PrinterRecord> {
    match cur {
        Some(r) => if r.name.len() > 0 {
            done.push(r)
        } else {
            done
        },
        None => done,
    }
}

/// Where the reader of a response stands.
pub struct ParseState {
    pub done: Seq<PrinterRecord>,
    pub current: Option<PrinterRecord>,
    pub last_name: Seq<char>,
    pub in_group: bool,
}

/// Reads attributes from position `idx` on. A printer-attributes group
/// starts a new printer; any other delimiter ends the group; an attribute
/// with an empty name repeats the previous name.
pub open spec fn parse_from(b: Seq<u8>, idx: int, st: ParseState) -> Result<Seq<PrinterRecord>, Seq<char>>
    decreases b.len() - idx,
{
    if idx < 0 || idx >= b.len() {
        Ok(flush(st.done, st.current))
    } else {
        let tag = b[idx];
        let i1 = idx + 1;
        if tag == IPP_TAG_END {
            Ok(flush(st.done, st.current))
        } else if tag == IPP_TAG_PRINTER_ATTRIBUTES {
            parse_from(
                b,
                i1,
                ParseState {
                    done: flush(st.done, st.current),
                    current: Some(empty_record()),
                    last_name: seq![],
                    in_group: true,
                },
            )
        } else if tag <= 0x05 {
            parse_from(b, i1, ParseState { last_name: seq![], in_group: false, ..st })
        } else if i1 + 2 > b.len() {
            Err("unexpected end of data"@)
        } else {
            let nl = read16(b[i1], b[i1 + 1]) as int;
            let i2 = i1 + 2;
            if nl > 0 && i2 + nl > b.len() {
                Err("invalid name length"@)
            } else if nl > 0 && !valid_utf8(b.subrange(i2, i2 + nl)) {
                Err("invalid name encoding"@)
            } else {
                let name = if nl > 0 {
                    decode_utf8(b.subrange(i2, i2 + nl))
                } else {
                    st.last_name
                };
                let i3 = if nl > 0 {
                    i2 + nl
                } else {
                    i2
                };
                if i3 + 2 > b.len() {
                    Err("unexpected end of data"@)
                } else {
                    let vl = read16(b[i3], b[i3 + 1]) as int;
                    let i4 = i3 + 2;
                    if i4 + vl > b.len() {
                        Err("invalid value length"@)
                    } else {
                        let v = spec_ipp_value(tag, b.subrange(i4, i4 + vl));
                        let st2 = ParseState { last_name: name, ..st };
                        if st2.in_group && st2.current is Some {
                            parse_from(
                                b,
                                i4 + vl,
                                ParseState {
                                    current: Some(apply_attr(st2.current->0, name, v)),
                                    ..st2
                                },
                            )
                        } else {
                            parse_from(b, i4 + vl, st2)
                        }
                    }
                }
            }
        }
    }
}

/// The printers a CUPS-Get-Printers response lists, in order, each with a
/// non-empty name; or why the response cannot be read.
pub open spec fn spec_parse_ipp_response(b: Seq<u8>) -> Result<Seq<PrinterRecord>, Seq<char>> {
    if b.len() < 8 {
        Err("IPP response too short"@)
    } else {
        parse_from(
            b,
            8,
            ParseState { done: seq![], current: None, last_name: seq![], in_group: false },
        )
    }
}

pub open spec fn opt_record(o: Option<SystemPrinter>) -> Option<PrinterRecord> {
    match o {
        Some(p) => Some(p.view()),
        None => None,
    }
}

fn push_if_named(printers: &mut Vec<SystemPrinter>, cur: Option<SystemPrinter>)
    ensures
        records(final(printers)@) == flush(records(old(printers)@), opt_record(cur)),
{
    if let Some(p) = cur {
        if !p.system_queue_name.as_str().is_empty() {
            printers.push(p);
            assert(records(final(printers)@) =~= records(old(printers)@).push(p.view()));
        }
    }
}

fn chars_eq(a: &[char], b: &[char]) -> (r: bool)
    ensures
        r == (a@ == b@),
{
    if a.len() != b.len() {
        return false;
    }
    let mut i: usize = 0;
    while i < a.len()
        invariant
            i <= a@.len() == b@.len(),
            forall|j: int| 0 <= j < i ==> a@[j] == b@[j],
        decreases a@.len() - i,
    {
        if a[i] != b[i] {
            return false;
        }
        i = i + 1;
    }
    assert(a@ =~= b@);
    true
}

fn apply_attr_exec(p: &mut SystemPrinter, name: &Vec<char>, v: Option<IppValue>)
    ensures
        final(p).view() == apply_attr(old(p).view(), name@, match v {
            Some(x) => Some(x.view()),
            None => None,
        }),
{
    match v {
        Some(IppValue::Text(t)) => {
            if chars_eq(name.as_slice(), chars_of("printer-name").as_slice()) {
                if p.system_queue_name.as_str().is_empty() {
                    p.system_queue_name = t;
                }
            } else if chars_eq(name.as_slice(), chars_of("printer-info").as_slice()) {
                if p.display_name.is_none() {
                    p.display_name = Some(t);
                }
            } else if chars_eq(name.as_slice(), chars_of("device-uri").as_slice()) {
                if p.device_uri.is_none() {
                    p.device_uri = Some(t);
                }
            }
        },
        Some(IppValue::Boolean(b)) => {
            if chars_eq(name.as_slice(), chars_of("printer-is-accepting-jobs").as_slice()) {
                p.is_accepting_jobs = Some(b);
            }
        },
        Some(IppValue::Integer(i)) => {
            if chars_eq(name.as_slice(), chars_of("printer-state").as_slice()) {
                p.state = Some(i);
            }
        },
        None => {},
    }
}

fn new_printer() -> (p: SystemPrinter)
    ensures
        p.view() == empty_record(),
{
    SystemPrinter {
        system_queue_name: String::new(),
        display_name: None,
        device_uri: None,
        is_accepting_jobs: None,
        state: None,
    }
}

/// Reads the printers out of a CUPS-Get-Printers response: see
/// `spec_parse_ipp_response`.
pub fn parse_ipp_response(bytes: &[u8]) -> (r: Result<Vec<SystemPrinter>, String>)
    ensures
        match r {
            Ok(ps) => spec_parse_ipp_response(bytes@) == Ok::<Seq<PrinterRecord>, Seq<char>>(
                records(ps@),
            ),
            Err(e) => spec_parse_ipp_response(bytes@) == Err::<Seq<PrinterRecord>, Seq<char>>(
                e@,
            ),
        },
{
    if bytes.len() < 8 {
        return Err(owned("IPP response too short"));
    }
    let mut idx: usize = 8;
    let mut printers: Vec<SystemPrinter> = Vec::new();
    let mut current: Option<SystemPrinter> = None;
    let mut last_name: Vec<char> = Vec::new();
    let mut in_group = false;
    let n = bytes.len();
    assert(records(printers@) =~= Seq::<PrinterRecord>::empty());
    while idx < n
        invariant
            8 <= idx,
            n == bytes@.len(),
            parse_from(
                bytes@,
                idx as int,
                ParseState {
                    done: records(printers@),
                    current: opt_record(current),
                    last_name: last_name@,
                    in_group,
                },
            ) == spec_parse_ipp_response(bytes@),
        decreases n - idx,
    {
        let tag = bytes[idx];
        idx = idx + 1;
        if tag == IPP_TAG_END {
            push_if_named(&mut printers, current);
            return Ok(printers);
        }
        if tag == IPP_TAG_PRINTER_ATTRIBUTES {
            let cur = current;
            push_if_named(&mut printers, cur);
            current = Some(new_printer());
            in_group = true;
            last_name = Vec::new();
            continue;
        }
        if tag <= 0x05 {
            in_group = false;
            last_name = Vec::new();
            continue;
        }
        let nl = match read_u16(bytes, &mut idx) {
            Ok(v) => v as usize,
            Err(e) => return Err(e),
        };
        let name: Vec<char> = if nl > 0 {
            if idx > n || n - idx < nl {
                return Err(owned("invalid name length"));
            }
            let s = match utf8_string(&bytes[idx..idx + nl]) {
                Some(s) => s,
                None => return Err(owned("invalid name encoding")),
            };
            idx = idx + nl;
            let nm = chars_of(s.as_str());
            last_name = chars_of(s.as_str());
            nm
        } else {
            let mut copy: Vec<char> = Vec::new();
            let mut k: usize = 0;
            while k < last_name.len()
                invariant
                    k <= last_name@.len(),
                    copy@ == last_name@.take(k as int),
                decreases last_name@.len() - k,
            {
                copy.push(last_name[k]);
                assert(last_name@.take(k as int).push(last_name@[k as int]) =~= last_name@.take(k + 1));
                k = k + 1;
            }
            assert(last_name@.take(last_name@.len() as int) =~= last_name@);
            copy
        };
        let vl = match read_u16(bytes, &mut idx) {
            Ok(v) => v as usize,
            Err(e) => return Err(e),
        };
        if idx > n || n - idx < vl {
            return Err(owned("invalid value length"));
        }
        let vb = &bytes[idx..idx + vl];
        assert(vb@ == bytes@.subrange(idx as int, idx + vl));
        idx = idx + vl;
        if !in_group {
            continue;
        }
        match current {
            Some(ref mut p) => {
                let v = parse_value(tag, vb);
                apply_attr_exec(p, &name, v);
            },
            None => {},
        }
    }
    push_if_named(&mut printers, current);
    Ok(printers)
}

} // verus!

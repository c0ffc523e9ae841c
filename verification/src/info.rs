//! The parts of an `Info.plist` that the bridge reads: the bundle identifier,
//! the server port under `Configuration`, and the FSKit file-system type.

use vstd::prelude::*;
use crate::text::{chars_of, str_eq};

verus! {

/// A property-list value, as far as this library reads it.
///
/// A dictionary keeps its entries in file order; property lists do not repeat
/// a key, and a lookup takes the first entry with the key. Integers keep
/// their full range; arrays, booleans, data, dates, reals and UIDs are `Other`.
#[derive(Debug, PartialEq, Eq)]
pub enum PlistValue {
    String(String),
    Integer(i128),
    Dictionary(Vec<(String, PlistValue)>),
    Other,
}

/// The value stored under `key` in `entries`: that of its first entry.
pub open spec fn dict_get(entries: Seq<(String, PlistValue)>, key: Seq<char>) -> Option<PlistValue>
    decreases entries.len(),
{
    if entries.len() == 0 {
        None
    } else if entries[0].0@ == key {
        Some(entries[0].1)
    } else {
        dict_get(entries.drop_first(), key)
    }
}

/// The text of a string value.
pub open spec fn as_string(v: Option<PlistValue>) -> Option<Seq<char>> {
    match v {
        Some(PlistValue::String(s)) => Some(s@),
        _ => None,
    }
}

/// The entries of a dictionary value.
pub open spec fn as_dictionary(v: Option<PlistValue>) -> Option<Seq<(String, PlistValue)>> {
    match v {
        Some(PlistValue::Dictionary(d)) => Some(d@),
        _ => None,
    }
}

/// A non-empty string stored under `key`.
pub open spec fn non_empty_string(v: Option<PlistValue>) -> Option<Seq<char>> {
    match as_string(v) {
        Some(s) => if s.len() > 0 { Some(s) } else { None },
        None => None,
    }
}

/// Looks `key` up among `entries`.
pub fn lookup<'a>(entries: &'a Vec<(String, PlistValue)>, key: &str) -> (r: Option<&'a PlistValue>)
    ensures
        match r {
            Some(v) => dict_get(entries@, key@) == Some(*v),
            None => dict_get(entries@, key@) is None,
        },
{
    let n = entries.len();
    let mut i: usize = 0;
    assert(entries@.subrange(0, n as int) =~= entries@);
    while i < n
        invariant
            0 <= i <= n == entries@.len(),
            dict_get(entries@, key@) == dict_get(entries@.subrange(i as int, n as int), key@),
        decreases n - i,
    {
        assert(entries@.subrange(i as int, n as int).drop_first() =~= entries@.subrange(
            i + 1,
            n as int,
        ));
        if str_eq(entries[i].0.as_str(), key) {
            return Some(&entries[i].1);
        }
        i = i + 1;
    }
    None
}

/// An ASCII decimal digit.
pub open spec fn is_digit(c: char) -> bool {
    '0' <= c && c <= '9'
}

/// The value of the decimal numeral `d`.
pub open spec fn decimal_value(d: Seq<char>) -> nat
    decreases d.len(),
{
    if d.len() == 0 {
        0
    } else {
        decimal_value(d.drop_last()) * 10 + ((d.last() as u32) - ('0' as u32)) as nat
    }
}

/// The digits of a numeral: one leading `'+'` is dropped.
pub open spec fn unsigned_digits(s: Seq<char>) -> Seq<char> {
    if s.len() > 0 && s[0] == '+' {
        s.drop_first()
    } else {
        s
    }
}

/// What `str::parse::<u16>` accepts: an optional `'+'`, then one or more ASCII
/// digits whose value fits in a `u16`.
pub open spec fn parse_u16_text(s: Seq<char>) -> Option<u16> {
    let d = unsigned_digits(s);
    if d.len() > 0 && (forall|i: int| 0 <= i < d.len() ==> is_digit(#[trigger] d[i]))
        && decimal_value(d) <= 65535 {
        Some(decimal_value(d) as u16)
    } else {
        None
    }
}

proof fn lemma_decimal_prefix(d: Seq<char>, k: int)
    requires
        0 <= k <= d.len(),
    ensures
        decimal_value(d.take(k)) <= decimal_value(d),
    decreases d.len(),
{
    if k < d.len() {
        assert(d.drop_last().take(k) =~= d.take(k));
        lemma_decimal_prefix(d.drop_last(), k);
    } else {
        assert(d.take(k) =~= d);
    }
}

/// Parses a decimal `u16` as `str::parse::<u16>` does.
pub fn parse_u16_decimal(s: &str) -> (r: Option<u16>)
    ensures
        r == parse_u16_text(s@),
{
    let cs = chars_of(s);
    let mut i: usize = 0;
    if cs.len() > 0 && cs[0] == '+' {
        i = 1;
    }
    let ghost d = unsigned_digits(s@);
    assert(d =~= cs@.subrange(i as int, cs@.len() as int));
    if i == cs.len() {
        return None;
    }
    let mut acc: u32 = 0;
    let start = i;
    while i < cs.len()
        invariant
            start <= i <= cs@.len(),
            start < cs@.len(),
            d == cs@.subrange(start as int, cs@.len() as int),
            d == unsigned_digits(s@),
            forall|t: int| 0 <= t < i - start ==> is_digit(#[trigger] d[t]),
            acc as nat == decimal_value(d.take(i - start)),
            acc <= 65535,
        decreases cs@.len() - i,
    {
        let c = cs[i];
        let ghost k = i - start;
        assert(d[k] == c);
        if !('0' <= c && c <= '9') {
            assert(!is_digit(d[k]));
            return None;
        }
        assert(d.take(k + 1).drop_last() =~= d.take(k));
        assert(d.take(k + 1).last() == c);
        assert(decimal_value(d.take(k + 1)) == decimal_value(d.take(k)) * 10 + ((c as u32) - ('0' as u32)) as nat);
        acc = acc * 10 + (c as u32 - '0' as u32);
        assert(acc as nat == decimal_value(d.take(k + 1)));
        i = i + 1;
        if acc > 65535 {
            proof {
                lemma_decimal_prefix(d, k + 1);
            }
            return None;
        }
    }
    assert(d.take(d.len() as int) =~= d);
    Some(acc as u16)
}

/// The port number that a value denotes: an integer in `0..=65535`, or a
/// string that `str::parse::<u16>` accepts.
pub open spec fn port_of(v: Option<PlistValue>) -> Option<u16> {
    match v {
        Some(PlistValue::Integer(n)) => if 0 <= n <= 65535 { Some(n as u16) } else { None },
        Some(PlistValue::String(s)) => parse_u16_text(s@),
        _ => None,
    }
}

/// The character of the decimal digit `d` (below ten).
pub open spec fn digit_char(d: nat) -> char {
    (('0' as u32) + d) as char
}

/// The decimal numeral of `n`, without leading zeros.
pub open spec fn decimal_text(n: nat) -> Seq<char>
    decreases n,
{
    if n < 10 {
        seq![digit_char(n)]
    } else {
        decimal_text(n / 10).push(digit_char(n % 10))
    }
}

proof fn lemma_decimal_text(n: nat)
    ensures
        decimal_text(n).len() > 0,
        forall|i: int| 0 <= i < decimal_text(n).len() ==> is_digit(#[trigger] decimal_text(n)[i]),
        decimal_value(decimal_text(n)) == n,
    decreases n,
{
    let d = n % 10;
    assert(d < 10);
    assert((digit_char(d) as u32) == ('0' as u32) + d);
    if n >= 10 {
        lemma_decimal_text(n / 10);
        let t = decimal_text(n);
        assert(t.drop_last() =~= decimal_text(n / 10));
        assert(t.last() == digit_char(d));
        assert((n / 10) * 10 + n % 10 == n) by (nonlinear_arith);
        assert(((t.last() as u32) - ('0' as u32)) as nat == d);
        assert(decimal_value(t) == decimal_value(t.drop_last()) * 10 + d);
    } else {
        let t = decimal_text(n);
        assert(t.drop_last() =~= seq![]);
        assert(t.last() == digit_char(n));
        assert(((t.last() as u32) - ('0' as u32)) as nat == n);
        assert(decimal_value(t) == decimal_value(t.drop_last()) * 10 + n);
    }
}

/// A port written as a decimal numeral, with or without a leading `'+'`, is
/// read back as that port.
pub proof fn law_port_text_round_trip(port: u16)
    ensures
        parse_u16_text(decimal_text(port as nat)) == Some(port),
        parse_u16_text(seq!['+'] + decimal_text(port as nat)) == Some(port),
{
    let t = decimal_text(port as nat);
    lemma_decimal_text(port as nat);
    assert(is_digit(t[0]));
    assert(unsigned_digits(t) == t);
    assert(unsigned_digits(seq!['+'] + t) =~= t);
}

/// Reads a `u16` out of a value: an unsigned or signed integer in range, else a
/// decimal string.
pub fn parse_u16(value: &PlistValue) -> (r: Option<u16>)
    ensures
        r == port_of(Some(*value)),
{
    match value {
        PlistValue::Integer(n) => {
            if 0 <= *n && *n <= 65535 {
                Some(*n as u16)
            } else {
                None
            }
        },
        PlistValue::String(s) => parse_u16_decimal(s.as_str()),
        _ => None,
    }
}

/// Why an `Info.plist` could not be used.
#[derive(Debug, PartialEq, Eq)]
pub enum Error {
    /// The file could not be read or is not a property list (the reader's
    /// message).
    Plist(String),
    /// The property list lacks a value that the bridge needs.
    Invalid,
}

pub enum ErrorView {
    Plist(Seq<char>),
    Invalid,
}

impl View for Error {
    type V = ErrorView;

    open spec fn view(&self) -> ErrorView {
        match self {
            Error::Plist(m) => ErrorView::Plist(m@),
            Error::Invalid => ErrorView::Invalid,
        }
    }
}

/// The top-level dictionary of an `Info.plist`.
#[derive(Debug)]
pub struct Info {
    pub root: Vec<(String, PlistValue)>,
}

/// The bundle identifier of an `Info.plist` whose root holds `root`.
pub open spec fn spec_bundle_id(root: Seq<(String, PlistValue)>) -> Option<Seq<char>> {
    non_empty_string(dict_get(root, "CFBundleIdentifier"@))
}

/// The server port under `Configuration`.
pub open spec fn spec_server_port(root: Seq<(String, PlistValue)>) -> Option<u16> {
    match as_dictionary(dict_get(root, "Configuration"@)) {
        Some(conf) => port_of(dict_get(conf, "serverPort"@)),
        None => None,
    }
}

/// The FSKit file-system type under `EXAppExtensionAttributes`.
pub open spec fn spec_fs_type(root: Seq<(String, PlistValue)>) -> Option<Seq<char>> {
    match as_dictionary(dict_get(root, "EXAppExtensionAttributes"@)) {
        Some(attrs) => non_empty_string(dict_get(attrs, "FSFileSystemType"@)),
        None => None,
    }
}

impl Info {
    /// Takes the root of a property list; it must be a dictionary.
    pub fn new(root: PlistValue) -> (r: Result<Info, Error>)
        ensures
            match root {
                PlistValue::Dictionary(d) => r matches Ok(info) && info.root@ == d@,
                _ => r matches Err(Error::Invalid),
            },
    {
        match root {
            PlistValue::Dictionary(d) => Ok(Info { root: d }),
            _ => Err(Error::Invalid),
        }
    }

    /// `CFBundleIdentifier`, a non-empty string.
    pub fn bundle_id(&self) -> (r: Result<String, Error>)
        ensures
            match spec_bundle_id(self.root@) {
                Some(id) => r matches Ok(s) && s@ == id,
                None => r matches Err(Error::Invalid),
            },
    {
        proof {
            reveal_strlit("CFBundleIdentifier");
        }
        non_empty(lookup(&self.root, "CFBundleIdentifier"))
    }

    /// `Configuration.serverPort`, an integer or a decimal string in the `u16`
    /// range.
    pub fn server_port(&self) -> (r: Result<u16, Error>)
        ensures
            match spec_server_port(self.root@) {
                Some(p) => r matches Ok(q) && q == p,
                None => r matches Err(Error::Invalid),
            },
    {
        match lookup(&self.root, "Configuration") {
            Some(PlistValue::Dictionary(conf)) => match lookup(conf, "serverPort") {
                Some(v) => match parse_u16(v) {
                    Some(p) => Ok(p),
                    None => Err(Error::Invalid),
                },
                None => Err(Error::Invalid),
            },
            _ => Err(Error::Invalid),
        }
    }

    /// `EXAppExtensionAttributes.FSFileSystemType`, a non-empty string.
    pub fn fs_type(&self) -> (r: Result<String, Error>)
        ensures
            match spec_fs_type(self.root@) {
                Some(t) => r matches Ok(s) && s@ == t,
                None => r matches Err(Error::Invalid),
            },
    {
        match lookup(&self.root, "EXAppExtensionAttributes") {
            Some(PlistValue::Dictionary(attrs)) => non_empty(lookup(attrs, "FSFileSystemType")),
            _ => Err(Error::Invalid),
        }
    }
}

fn non_empty(v: Option<&PlistValue>) -> (r: Result<String, Error>)
    ensures
        match non_empty_string(match v { Some(x) => Some(*x), None => None }) {
            Some(s) => r matches Ok(t) && t@ == s,
            None => r matches Err(Error::Invalid),
        },
{
    match v {
        Some(PlistValue::String(s)) => {
            if !s.as_str().is_empty() {
                Ok(s.clone())
            } else {
                Err(Error::Invalid)
            }
        },
        _ => Err(Error::Invalid),
    }
}

} // verus!

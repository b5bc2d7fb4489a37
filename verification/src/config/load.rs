//! Turning the bytes of a configuration file into text, and filling in
//! `${NAME}` placeholders.
use vstd::prelude::*;
use vstd::utf8::{decode_utf8, encode_utf8, valid_utf8};

use crate::error::{MerError, MerErrorView};
use crate::text::{chars_of, concat2, owned, str_eq, string_from_chars};

verus! {

/// The text `std` gives for bytes that are not UTF-8 (`FromUtf8Error`'s display).
pub uninterp spec fn utf8_error_text(bytes: Seq<u8>) -> Seq<char>;

/// The text `std` gives for code units that are not UTF-16 (`FromUtf16Error`'s
/// display, which is the same for every such input).
pub open spec fn utf16_error_text() -> Seq<char> {
    "invalid utf-16: lone surrogate found"@
}

/// A UTF-16 high (leading) surrogate.
pub open spec fn is_high_surrogate(u: u16) -> bool {
    0xD800 <= u <= 0xDBFF
}

/// A UTF-16 low (trailing) surrogate.
pub open spec fn is_low_surrogate(u: u16) -> bool {
    0xDC00 <= u <= 0xDFFF
}

/// The character a surrogate pair stands for.
pub open spec fn surrogate_pair_char(hi: u16, lo: u16) -> char {
    (0x10000 + (hi - 0xD800) * 0x400 + (lo - 0xDC00)) as char
}

/// The characters UTF-16 code units encode, or `None` when a surrogate is unpaired.
pub open spec fn utf16_decode(u: Seq<u16>) -> Option<Seq<char>>
    decreases u.len(),
{
    if u.len() == 0 {
        Some(seq![])
    } else if is_high_surrogate(u[0]) {
        if u.len() >= 2 && is_low_surrogate(u[1]) {
            match utf16_decode(u.skip(2)) {
                Some(rest) => Some(seq![surrogate_pair_char(u[0], u[1])] + rest),
                None => None,
            }
        } else {
            None
        }
    } else if is_low_surrogate(u[0]) {
        None
    } else {
        match utf16_decode(u.skip(1)) {
            Some(rest) => Some(seq![u[0] as char] + rest),
            None => None,
        }
    }
}

/// Decodes UTF-8 (`String::from_utf8`), giving the error's text on failure.
#[verifier::external_body]
fn string_from_utf8(bytes: Vec<u8>) -> (res: Result<String, String>)
    ensures
        res is Ok <==> valid_utf8(bytes@),
        res matches Ok(s) ==> s@ == decode_utf8(bytes@),
        res matches Err(m) ==> m@ == utf8_error_text(bytes@),
{
    match String::from_utf8(bytes) {
        Ok(s) => Ok(s),
        Err(e) => Err(e.to_string()),
    }
}

/// Decodes UTF-16 (`String::from_utf16`), giving the error's text on failure.
#[verifier::external_body]
fn string_from_utf16(units: &[u16]) -> (res: Result<String, String>)
    ensures
        res is Ok <==> utf16_decode(units@) is Some,
        res matches Ok(s) ==> Some(s@) == utf16_decode(units@),
        res matches Err(m) ==> m@ == utf16_error_text(),
{
    match String::from_utf16(units) {
        Ok(s) => Ok(s),
        Err(e) => Err(e.to_string()),
    }
}

/// The 16-bit code units of `b` read two bytes at a time, little-endian when `le`.
pub open spec fn utf16_units(b: Seq<u8>, le: bool) -> Seq<u16> {
    Seq::new(
        b.len() / 2,
        |i: int|
            if le {
                (b[2 * i] + 256 * b[2 * i + 1]) as u16
            } else {
                (256 * b[2 * i] + b[2 * i + 1]) as u16
            },
    )
}

/// The name of a byte order in error texts.
pub open spec fn order_name(le: bool) -> Seq<char> {
    if le {
        "LE"@
    } else {
        "BE"@
    }
}

/// What decoding `b` as UTF-8 gives.
pub open spec fn utf8_outcome(b: Seq<u8>) -> Result<Seq<char>, MerErrorView> {
    if valid_utf8(b) {
        Ok(decode_utf8(b))
    } else {
        Err(MerErrorView::Io("stream did not contain valid UTF-8: "@ + utf8_error_text(b)))
    }
}

/// What decoding `b` as UTF-16 of the given byte order gives.
pub open spec fn utf16_outcome(b: Seq<u8>, le: bool) -> Result<Seq<char>, MerErrorView> {
    if b.len() % 2 != 0 {
        Err(
            MerErrorView::Io(
                "invalid UTF-16 "@ + order_name(le) + " data: odd byte length"@,
            ),
        )
    } else {
        match utf16_decode(utf16_units(b, le)) {
            Some(s) => Ok(s),
            None => Err(
                MerErrorView::Io(
                    "invalid UTF-16 "@ + order_name(le) + " data: "@ + utf16_error_text(),
                ),
            ),
        }
    }
}

/// What decoding the bytes of a text file gives: a UTF-8 byte order mark is
/// dropped, a UTF-16 one selects UTF-16 of that order, and text without a mark is
/// UTF-8.
pub open spec fn text_outcome(b: Seq<u8>) -> Result<Seq<char>, MerErrorView> {
    if b.len() >= 3 && b[0] == 0xEF && b[1] == 0xBB && b[2] == 0xBF {
        utf8_outcome(b.skip(3))
    } else if b.len() >= 2 && b[0] == 0xFF && b[1] == 0xFE {
        utf16_outcome(b.skip(2), true)
    } else if b.len() >= 2 && b[0] == 0xFE && b[1] == 0xFF {
        utf16_outcome(b.skip(2), false)
    } else {
        utf8_outcome(b)
    }
}

/// `res` is the text `expected` describes, or its error.
pub open spec fn text_result_is(
    res: Result<String, MerError>,
    expected: Result<Seq<char>, MerErrorView>,
) -> bool {
    match expected {
        Ok(s) => res matches Ok(t) && t@ == s,
        Err(e) => res matches Err(x) && x@ == e,
    }
}

/// The bytes of `b` from `from` on.
fn tail(b: &[u8], from: usize) -> (res: Vec<u8>)
    requires
        from <= b@.len(),
    ensures
        res@ == b@.skip(from as int),
{
    let mut res: Vec<u8> = Vec::new();
    let n = b.len();
    let mut i = from;
    while i < n
        invariant
            from <= i <= n,
            n == b@.len(),
            res@ == b@.subrange(from as int, i as int),
        decreases n - i,
    {
        res.push(b[i]);
        i = i + 1;
        assert(res@ == b@.subrange(from as int, i as int));
    }
    res
}

/// The UTF-16 code units of a character: itself below U+10000, else a surrogate pair.
pub open spec fn char_utf16(c: char) -> Seq<u16> {
    let v = c as u32;
    if v < 0x10000 {
        seq![v as u16]
    } else {
        let w = v - 0x10000;
        seq![(0xD800 + w / 0x400) as u16, (0xDC00 + w % 0x400) as u16]
    }
}

/// The UTF-16 encoding of a text.
pub open spec fn utf16_encode(s: Seq<char>) -> Seq<u16>
    decreases s.len(),
{
    if s.len() == 0 {
        seq![]
    } else {
        char_utf16(s[0]) + utf16_encode(s.drop_first())
    }
}

/// The bytes of UTF-16 code units, two per unit, little-endian when `le`.
pub open spec fn utf16_bytes(u: Seq<u16>, le: bool) -> Seq<u8> {
    Seq::new(
        2 * u.len(),
        |i: int|
            if (i % 2 == 0) == le {
                (u[i / 2] % 256) as u8
            } else {
                (u[i / 2] / 256) as u8
            },
    )
}

proof fn lemma_utf16_units_of_bytes(u: Seq<u16>, le: bool)
    ensures
        utf16_bytes(u, le).len() % 2 == 0,
        utf16_units(utf16_bytes(u, le), le) == u,
{
    let b = utf16_bytes(u, le);
    assert forall|k: int| 0 <= k < u.len() implies #[trigger] utf16_units(b, le)[k] == u[k] by {
        assert((2 * k) / 2 == k && (2 * k) % 2 == 0);
        assert((2 * k + 1) / 2 == k && (2 * k + 1) % 2 == 1);
    }
    assert(utf16_units(b, le) =~= u);
}

proof fn lemma_utf16_decode_encode(s: Seq<char>)
    ensures
        utf16_decode(utf16_encode(s)) == Some(s),
    decreases s.len(),
{
    if s.len() > 0 {
        let c = s[0];
        let v = c as u32;
        let rest = s.drop_first();
        let u = utf16_encode(s);
        lemma_utf16_decode_encode(rest);
        vstd::utf8::char_is_scalar(c);
        vstd::utf8::char_u32_cast(c, v);
        if v < 0x10000 {
            assert(u.skip(1) =~= utf16_encode(rest));
            assert(u[0] == v as u16);
            assert((u[0] as char) == c);
        } else {
            let w = v - 0x10000;
            assert(u.skip(2) =~= utf16_encode(rest));
            assert(w == (w / 0x400) * 0x400 + w % 0x400);
            assert(surrogate_pair_char(u[0], u[1]) == c);
        }
        assert(seq![c] + rest =~= s);
    }
}

/// Round-trip law of UTF-8 files: the UTF-8 bytes of any text, after a byte
/// order mark, decode to that text; without the mark they do too, unless the
/// text itself starts with U+FEFF (whose bytes are the mark).
pub proof fn utf8_file_round_trip(s: Seq<char>)
    ensures
        text_outcome(seq![0xEFu8, 0xBBu8, 0xBFu8] + encode_utf8(s)) == Ok::<
            Seq<char>,
            MerErrorView,
        >(s),
        !(s.len() > 0 && s[0] == '\u{FEFF}') ==> text_outcome(encode_utf8(s)) == Ok::<
            Seq<char>,
            MerErrorView,
        >(s),
{
    vstd::utf8::encode_utf8_valid_utf8(s);
    vstd::utf8::encode_utf8_decode_utf8(s);
    let b = seq![0xEFu8, 0xBBu8, 0xBFu8] + encode_utf8(s);
    assert(b.skip(3) =~= encode_utf8(s));
    let e = encode_utf8(s);
    if !(s.len() > 0 && s[0] == '\u{FEFF}') && s.len() > 0 {
        vstd::utf8::encode_utf8_first_scalar(s);
        vstd::utf8::char_u32_cast(s[0], s[0] as u32);
        if e.len() >= 3 && e[0] == 0xEF && e[1] == 0xBB && e[2] == 0xBF {
            assert(vstd::utf8::codepoint_width_3(0xEF, 0xBB, 0xBF) == 0xFEFF) by (bit_vector);
            assert((0xFEFFu32 as char) == '\u{FEFF}');
            assert(false);
        }
    }
}

/// Round-trip law of UTF-16 files: the UTF-16 bytes of any text, after the byte
/// order mark of their byte order, decode to that text.
pub proof fn utf16_file_round_trip(s: Seq<char>)
    ensures
        text_outcome(seq![0xFFu8, 0xFEu8] + utf16_bytes(utf16_encode(s), true)) == Ok::<
            Seq<char>,
            MerErrorView,
        >(s),
        text_outcome(seq![0xFEu8, 0xFFu8] + utf16_bytes(utf16_encode(s), false)) == Ok::<
            Seq<char>,
            MerErrorView,
        >(s),
{
    lemma_utf16_decode_encode(s);
    lemma_utf16_units_of_bytes(utf16_encode(s), true);
    lemma_utf16_units_of_bytes(utf16_encode(s), false);
    let le = seq![0xFFu8, 0xFEu8] + utf16_bytes(utf16_encode(s), true);
    let be = seq![0xFEu8, 0xFFu8] + utf16_bytes(utf16_encode(s), false);
    assert(le.skip(2) =~= utf16_bytes(utf16_encode(s), true));
    assert(be.skip(2) =~= utf16_bytes(utf16_encode(s), false));
}

/// Decodes the bytes of a text file, accepting UTF-8 and UTF-16 with a byte order mark.
pub fn decode_text_bytes(bytes: &[u8]) -> (res: Result<String, MerError>)
    ensures
        text_result_is(res, text_outcome(bytes@)),
{
    let n = bytes.len();
    if n >= 3 && bytes[0] == 0xEF && bytes[1] == 0xBB && bytes[2] == 0xBF {
        decode_utf8_bytes(tail(bytes, 3))
    } else if n >= 2 && bytes[0] == 0xFF && bytes[1] == 0xFE {
        let rest = tail(bytes, 2);
        decode_utf16(rest.as_slice(), true)
    } else if n >= 2 && bytes[0] == 0xFE && bytes[1] == 0xFF {
        let rest = tail(bytes, 2);
        decode_utf16(rest.as_slice(), false)
    } else {
        let all = tail(bytes, 0);
        assert(bytes@.skip(0) == bytes@);
        decode_utf8_bytes(all)
    }
}

fn decode_utf8_bytes(bytes: Vec<u8>) -> (res: Result<String, MerError>)
    ensures
        text_result_is(res, utf8_outcome(bytes@)),
{
    match string_from_utf8(bytes) {
        Ok(s) => Ok(s),
        Err(m) => Err(invalid_utf8_error(m.as_str())),
    }
}

/// The error for bytes that are not UTF-8, given the decoder's message.
fn invalid_utf8_error(detail: &str) -> (res: MerError)
    ensures
        res@ == MerErrorView::Io("stream did not contain valid UTF-8: "@ + detail@),
{
    MerError::Io(concat2("stream did not contain valid UTF-8: ", detail))
}

/// Decodes UTF-16 little-endian bytes.
pub fn decode_utf16_le(bytes: &[u8]) -> (res: Result<String, MerError>)
    ensures
        text_result_is(res, utf16_outcome(bytes@, true)),
{
    decode_utf16(bytes, true)
}

/// Decodes UTF-16 big-endian bytes.
pub fn decode_utf16_be(bytes: &[u8]) -> (res: Result<String, MerError>)
    ensures
        text_result_is(res, utf16_outcome(bytes@, false)),
{
    decode_utf16(bytes, false)
}

fn decode_utf16(bytes: &[u8], le: bool) -> (res: Result<String, MerError>)
    ensures
        text_result_is(res, utf16_outcome(bytes@, le)),
{
    let prefix = if le {
        owned("invalid UTF-16 LE data: ")
    } else {
        owned("invalid UTF-16 BE data: ")
    };
    assert(prefix@ == "invalid UTF-16 "@ + order_name(le) + " data: "@) by {
        reveal_strlit("invalid UTF-16 LE data: ");
        reveal_strlit("invalid UTF-16 BE data: ");
        reveal_strlit("invalid UTF-16 ");
        reveal_strlit(" data: ");
        reveal_strlit("LE");
        reveal_strlit("BE");
    }
    if bytes.len() % 2 != 0 {
        let msg = concat2(prefix.as_str(), "odd byte length");
        assert(msg@ == "invalid UTF-16 "@ + order_name(le) + " data: odd byte length"@) by {
            reveal_strlit(" data: odd byte length");
            reveal_strlit(" data: ");
            reveal_strlit("odd byte length");
        }
        return Err(MerError::Io(msg));
    }
    let mut units: Vec<u16> = Vec::new();
    let n = bytes.len();
    let half = n / 2;
    for i in 0..half
        invariant
            n == bytes@.len(),
            half == n / 2,
            bytes@.len() % 2 == 0,
            units@ == utf16_units(bytes@, le).take(i as int),
    {
        let a = bytes[2 * i] as u16;
        let b = bytes[2 * i + 1] as u16;
        let unit: u16 = if le {
            a + 256 * b
        } else {
            256 * a + b
        };
        units.push(unit);
        assert(units@ =~= utf16_units(bytes@, le).take(i + 1));
    }
    assert(units@ =~= utf16_units(bytes@, le));
    match string_from_utf16(units.as_slice()) {
        Ok(s) => Ok(s),
        Err(m) => Err(MerError::Io(concat2(prefix.as_str(), m.as_str()))),
    }
}

/// A character that may start a placeholder name: an ASCII letter or `_`.
pub open spec fn is_name_start(c: char) -> bool {
    ('A' <= c && c <= 'Z') || ('a' <= c && c <= 'z') || c == '_'
}

/// A character that may continue a placeholder name: an ASCII letter, digit or `_`.
pub open spec fn is_name_char(c: char) -> bool {
    is_name_start(c) || ('0' <= c && c <= '9')
}

/// The first position at or after `k` that does not hold a name character.
pub open spec fn name_end(s: Seq<char>, k: int) -> int
    decreases s.len() - k,
{
    if 0 <= k < s.len() && is_name_char(s[k]) {
        name_end(s, k + 1)
    } else {
        k
    }
}

/// Whether a placeholder `${NAME}` starts at position `i` of `s`.
pub open spec fn placeholder_at(s: Seq<char>, i: int) -> bool {
    &&& 0 <= i
    &&& i + 2 < s.len()
    &&& s[i] == '$'
    &&& s[i + 1] == '{'
    &&& is_name_start(s[i + 2])
    &&& name_end(s, i + 3) < s.len()
    &&& s[name_end(s, i + 3)] == '}'
}

/// The name of the placeholder at `i`.
pub open spec fn placeholder_name(s: Seq<char>, i: int) -> Seq<char> {
    s.subrange(i + 2, name_end(s, i + 3))
}

/// The names of the placeholders of `s` from position `i` on, in order, scanning
/// left to right and resuming after each placeholder.
pub open spec fn placeholders_from(s: Seq<char>, i: int) -> Seq<Seq<char>>
    decreases s.len() - i,
{
    if i < 0 || i >= s.len() {
        seq![]
    } else if placeholder_at(s, i) {
        proof {
            lemma_name_end_bounds(s, i + 3);
        }
        seq![placeholder_name(s, i)] + placeholders_from(s, name_end(s, i + 3) + 1)
    } else {
        placeholders_from(s, i + 1)
    }
}

/// The value of the first pair in `vars` whose name is `name`.
pub open spec fn lookup(vars: Seq<(Seq<char>, Seq<char>)>, name: Seq<char>) -> Option<Seq<char>>
    decreases vars.len(),
{
    if vars.len() == 0 {
        None
    } else if vars[0].0 == name {
        Some(vars[0].1)
    } else {
        lookup(vars.skip(1), name)
    }
}

/// The text of `s` from `i` on with every placeholder replaced by its value, or
/// the name of the first placeholder that has no value.
pub open spec fn expand_from(s: Seq<char>, i: int, vars: Seq<(Seq<char>, Seq<char>)>) -> Result<
    Seq<char>,
    Seq<char>,
>
    decreases s.len() - i,
{
    if i < 0 || i >= s.len() {
        Ok(seq![])
    } else if placeholder_at(s, i) {
        proof {
            lemma_name_end_bounds(s, i + 3);
        }
        match lookup(vars, placeholder_name(s, i)) {
            None => Err(placeholder_name(s, i)),
            Some(v) => match expand_from(s, name_end(s, i + 3) + 1, vars) {
                Ok(r) => Ok(v + r),
                Err(n) => Err(n),
            },
        }
    } else {
        match expand_from(s, i + 1, vars) {
            Ok(r) => Ok(seq![s[i]] + r),
            Err(n) => Err(n),
        }
    }
}

/// The view of a list of name and value pairs.
pub open spec fn vars_view(vars: Seq<(String, String)>) -> Seq<(Seq<char>, Seq<char>)> {
    vars.map_values(|p: (String, String)| (p.0@, p.1@))
}

pub proof fn lemma_name_end_bounds(s: Seq<char>, k: int)
    requires
        0 <= k,
    ensures
        k <= name_end(s, k),
        k <= s.len() ==> name_end(s, k) <= s.len(),
        forall|j: int| k <= j < name_end(s, k) ==> is_name_char(#[trigger] s[j]),
        name_end(s, k) < s.len() ==> !is_name_char(s[name_end(s, k)]),
    decreases s.len() - k,
{
    if 0 <= k < s.len() && is_name_char(s[k]) {
        lemma_name_end_bounds(s, k + 1);
    }
}

proof fn lemma_name_end_step(s: Seq<char>, k: int)
    requires
        0 <= k < s.len(),
        is_name_char(s[k]),
    ensures
        name_end(s, k) == name_end(s, k + 1),
{
}

/// Scans the name that starts at `k`: the first position at or after `k` that is
/// not a name character.
fn scan_name(cs: &[char], k: usize) -> (res: usize)
    requires
        k <= cs@.len(),
    ensures
        res == name_end(cs@, k as int),
{
    let n = cs.len();
    let mut j = k;
    while j < n && is_name_char_exec(cs[j])
        invariant
            k <= j <= n,
            n == cs@.len(),
            name_end(cs@, k as int) == name_end(cs@, j as int),
        decreases n - j,
    {
        proof {
            lemma_name_end_step(cs@, j as int);
        }
        j = j + 1;
    }
    j
}

fn is_name_char_exec(c: char) -> (res: bool)
    ensures
        res == is_name_char(c),
{
    ('A' <= c && c <= 'Z') || ('a' <= c && c <= 'z') || c == '_' || ('0' <= c && c <= '9')
}

/// Whether a placeholder starts at `i`; if so, also where its name ends.
fn placeholder_exec(cs: &[char], i: usize) -> (res: Option<usize>)
    requires
        i < cs@.len(),
    ensures
        res is Some <==> placeholder_at(cs@, i as int),
        res matches Some(e) ==> e == name_end(cs@, i + 3),
{
    let n = cs.len();
    if n - i > 2 && cs[i] == '$' && cs[i + 1] == '{' && (('A' <= cs[i + 2] && cs[i + 2] <= 'Z')
        || ('a' <= cs[i + 2] && cs[i + 2] <= 'z') || cs[i + 2] == '_') {
        let e = scan_name(cs, i + 3);
        if e < n && cs[e] == '}' {
            return Some(e);
        }
    }
    None
}

proof fn lemma_placeholder_progress(s: Seq<char>, i: int)
    requires
        placeholder_at(s, i),
    ensures
        i + 3 <= name_end(s, i + 3) < s.len(),
{
    lemma_name_end_bounds(s, i + 3);
}

/// The names of the placeholders `${NAME}` in `input`, in order of appearance.
/// A name is an ASCII letter or `_` followed by ASCII letters, digits or `_`.
pub fn placeholder_names(input: &str) -> (res: Vec<String>)
    ensures
        res@.map_values(|s: String| s@) == placeholders_from(input@, 0),
{
    let cs = chars_of(input);
    let n = cs.len();
    let mut res: Vec<String> = Vec::new();
    let mut i: usize = 0;
    while i < n
        invariant
            n == cs@.len(),
            cs@ == input@,
            i <= n,
            res@.map_values(|s: String| s@) + placeholders_from(cs@, i as int) == placeholders_from(
                cs@,
                0,
            ),
        decreases n - i,
    {
        let ghost before = res@.map_values(|s: String| s@);
        match placeholder_exec(cs.as_slice(), i) {
            Some(e) => {
                proof {
                    lemma_placeholder_progress(cs@, i as int);
                }
                let name = copy_range(cs.as_slice(), i + 2, e);
                res.push(string_from_chars(name.as_slice()));
                assert(res@.map_values(|s: String| s@) =~= before.push(
                    placeholder_name(cs@, i as int),
                ));
                assert(seq![placeholder_name(cs@, i as int)] + placeholders_from(
                    cs@,
                    e + 1,
                ) == placeholders_from(cs@, i as int));
                assert(before.push(placeholder_name(cs@, i as int)) + placeholders_from(cs@, e + 1)
                    =~= before + (seq![placeholder_name(cs@, i as int)] + placeholders_from(
                    cs@,
                    e + 1,
                )));
                i = e + 1;
            },
            None => {
                i = i + 1;
            },
        }
    }
    assert(placeholders_from(cs@, i as int) =~= Seq::<Seq<char>>::empty());
    assert(res@.map_values(|s: String| s@) =~= res@.map_values(|s: String| s@) + Seq::<
        Seq<char>,
    >::empty());
    res
}

/// The characters of `cs` from `a` up to `b`.
fn copy_range(cs: &[char], a: usize, b: usize) -> (res: Vec<char>)
    requires
        a <= b <= cs@.len(),
    ensures
        res@ == cs@.subrange(a as int, b as int),
{
    let mut res: Vec<char> = Vec::new();
    let mut i = a;
    while i < b
        invariant
            a <= i <= b,
            b <= cs@.len(),
            res@ == cs@.subrange(a as int, i as int),
        decreases b - i,
    {
        res.push(cs[i]);
        i = i + 1;
        assert(res@ =~= cs@.subrange(a as int, i as int));
    }
    res
}

/// Finds the value of `name` in `vars`: the first pair with that name.
fn find_var<'a>(vars: &'a Vec<(String, String)>, name: &str) -> (res: Option<&'a String>)
    ensures
        match lookup(vars_view(vars@), name@) {
            Some(v) => res matches Some(x) && x@ == v,
            None => res is None,
        },
{
    let n = vars.len();
    let ghost vv = vars_view(vars@);
    assert(vv.skip(0) =~= vv);
    for k in 0..n
        invariant
            n == vars@.len(),
            vv == vars_view(vars@),
            lookup(vv, name@) == lookup(vv.skip(k as int), name@),
    {
        if str_eq(vars[k].0.as_str(), name) {
            assert(vv.skip(k as int)[0] == vv[k as int]);
            return Some(&vars[k].1);
        }
        assert(vv.skip(k as int).skip(1) =~= vv.skip(k + 1));
    }
    assert(vv.skip(n as int) =~= Seq::<(Seq<char>, Seq<char>)>::empty());
    None
}

/// Fills in the placeholders `${NAME}` of `input` from `vars`, a list of names and
/// values in which the first pair with a name gives its value. Fails with the
/// first placeholder, from the left, whose name has no value.
pub fn expand_placeholders(input: &str, vars: &Vec<(String, String)>) -> (res: Result<
    String,
    MerError,
>)
    ensures
        match expand_from(input@, 0, vars_view(vars@)) {
            Ok(t) => res matches Ok(s) && s@ == t,
            Err(name) => res matches Err(e) && e@ == MerErrorView::MissingEnvVar(name),
        },
{
    let cs = chars_of(input);
    let n = cs.len();
    let ghost vv = vars_view(vars@);
    let mut out: Vec<char> = Vec::new();
    let mut i: usize = 0;
    while i < n
        invariant
            n == cs@.len(),
            cs@ == input@,
            vv == vars_view(vars@),
            i <= n,
            match expand_from(cs@, i as int, vv) {
                Ok(r) => expand_from(cs@, 0, vv) == Ok::<Seq<char>, Seq<char>>(out@ + r),
                Err(m) => expand_from(cs@, 0, vv) == Err::<Seq<char>, Seq<char>>(m),
            },
        decreases n - i,
    {
        match placeholder_exec(cs.as_slice(), i) {
            Some(e) => {
                proof {
                    lemma_placeholder_progress(cs@, i as int);
                }
                let name_chars = copy_range(cs.as_slice(), i + 2, e);
                let name = string_from_chars(name_chars.as_slice());
                match find_var(vars, name.as_str()) {
                    Some(v) => {
                        let vc = chars_of(v.as_str());
                        let ghost before = out@;
                        let m = vc.len();
                        for j in 0..m
                            invariant
                                m == vc@.len(),
                                out@ == before + vc@.take(j as int),
                        {
                            out.push(vc[j]);
                            assert(vc@.take(j + 1) == vc@.take(j as int).push(vc@[j as int]));
                        }
                        assert(vc@.take(m as int) == vc@);
                        proof {
                            match expand_from(cs@, e + 1, vv) {
                                Ok(r) => {
                                    assert(before + (vc@ + r) =~= before + vc@ + r);
                                },
                                Err(_) => {},
                            }
                        }
                        i = e + 1;
                    },
                    None => {
                        return Err(MerError::MissingEnvVar { name });
                    },
                }
            },
            None => {
                let ghost before = out@;
                out.push(cs[i]);
                proof {
                    match expand_from(cs@, i + 1, vv) {
                        Ok(r) => {
                            assert(before + (seq![cs@[i as int]] + r) =~= before.push(cs@[i as int])
                                + r);
                        },
                        Err(_) => {},
                    }
                }
                i = i + 1;
            },
        }
    }
    assert(out@ + Seq::<char>::empty() =~= out@);
    Ok(string_from_chars(out.as_slice()))
}

proof fn lemma_unchanged_from(s: Seq<char>, i: int, vars: Seq<(Seq<char>, Seq<char>)>)
    requires
        0 <= i <= s.len(),
        placeholders_from(s, i).len() == 0,
    ensures
        expand_from(s, i, vars) == Ok::<Seq<char>, Seq<char>>(s.skip(i)),
    decreases s.len() - i,
{
    if i < s.len() {
        assert(!placeholder_at(s, i));
        lemma_unchanged_from(s, i + 1, vars);
        assert(seq![s[i]] + s.skip(i + 1) =~= s.skip(i));
    } else {
        assert(s.skip(i) =~= Seq::<char>::empty());
    }
}

/// Text without placeholders is left exactly as it is, whatever the variables.
pub proof fn text_without_placeholders_is_unchanged(s: Seq<char>, vars: Seq<(Seq<char>, Seq<char>)>)
    requires
        placeholders_from(s, 0).len() == 0,
    ensures
        expand_from(s, 0, vars) == Ok::<Seq<char>, Seq<char>>(s),
{
    lemma_unchanged_from(s, 0, vars);
    assert(s.skip(0) =~= s);
}

proof fn lemma_defined_from(s: Seq<char>, i: int, vars: Seq<(Seq<char>, Seq<char>)>)
    requires
        0 <= i,
    ensures
        expand_from(s, i, vars) is Ok <==> (forall|k: int|
            0 <= k < placeholders_from(s, i).len() ==> lookup(
                vars,
                #[trigger] placeholders_from(s, i)[k],
            ) is Some),
        expand_from(s, i, vars) matches Err(n) ==> exists|k: int|
            0 <= k < placeholders_from(s, i).len() && placeholders_from(s, i)[k] == n && lookup(
                vars,
                n,
            ) is None && forall|j: int|
                0 <= j < k ==> lookup(vars, #[trigger] placeholders_from(s, i)[j]) is Some,
    decreases s.len() - i,
{
    if i >= s.len() {
    } else if placeholder_at(s, i) {
        lemma_name_end_bounds(s, i + 3);
        let e = name_end(s, i + 3) + 1;
        lemma_defined_from(s, e, vars);
        let rest = placeholders_from(s, e);
        let here = placeholders_from(s, i);
        assert(here == seq![placeholder_name(s, i)] + rest);
        assert forall|k: int| 0 <= k < rest.len() implies #[trigger] rest[k] == here[k + 1] by {}
        match expand_from(s, e, vars) {
            Err(n) => {
                if lookup(vars, placeholder_name(s, i)) is Some {
                    let k = choose|k: int|
                        0 <= k < rest.len() && rest[k] == n && lookup(vars, n) is None && forall|
                            j: int,
                        | 0 <= j < k ==> lookup(vars, #[trigger] rest[j]) is Some;
                    assert(here[k + 1] == n);
                    assert forall|j: int| 0 <= j < k + 1 implies lookup(
                        vars,
                        #[trigger] here[j],
                    ) is Some by {
                        if j > 0 {
                            assert(here[j] == rest[j - 1]);
                        }
                    }
                }
            },
            Ok(_) => {},
        }
        if lookup(vars, placeholder_name(s, i)) is None {
            assert(here[0] == placeholder_name(s, i));
        }
        if expand_from(s, i, vars) is Ok {
            assert forall|k: int| 0 <= k < here.len() implies lookup(vars, #[trigger] here[k]) is Some by {
                if k > 0 {
                    assert(here[k] == rest[k - 1]);
                }
            }
        } else {
            if lookup(vars, placeholder_name(s, i)) is Some {
                let k = choose|k: int|
                    0 <= k < rest.len() && lookup(vars, #[trigger] rest[k]) is None;
                assert(here[k + 1] == rest[k]);
            }
        }
    } else {
        lemma_defined_from(s, i + 1, vars);
    }
}

/// Expansion fails exactly when some placeholder has no value, and then it names
/// the first such placeholder from the left.
pub proof fn expansion_fails_only_on_undefined_names(s: Seq<char>, vars: Seq<(Seq<char>, Seq<char>)>)
    ensures
        expand_from(s, 0, vars) is Ok <==> (forall|k: int|
            0 <= k < placeholders_from(s, 0).len() ==> lookup(
                vars,
                #[trigger] placeholders_from(s, 0)[k],
            ) is Some),
        expand_from(s, 0, vars) matches Err(n) ==> exists|k: int|
            0 <= k < placeholders_from(s, 0).len() && placeholders_from(s, 0)[k] == n && lookup(
                vars,
                n,
            ) is None && forall|j: int|
                0 <= j < k ==> lookup(vars, #[trigger] placeholders_from(s, 0)[j]) is Some,
{
    lemma_defined_from(s, 0, vars);
}

proof fn lemma_name_end_at(s: Seq<char>, k: int, e: int)
    requires
        0 <= k <= e < s.len(),
        forall|j: int| k <= j < e ==> is_name_char(#[trigger] s[j]),
        !is_name_char(s[e]),
    ensures
        name_end(s, k) == e,
    decreases e - k,
{
    if k < e {
        lemma_name_end_at(s, k + 1, e);
    }
}

/// Placeholder law: for every name made of an ASCII letter or `_` followed by
/// ASCII letters, digits or `_`, the text `${name}` holds exactly that one
/// placeholder, and expanding it gives the name's value, or fails naming it when
/// it has none.
pub proof fn every_grammar_name_is_expanded(n: Seq<char>, vars: Seq<(Seq<char>, Seq<char>)>)
    requires
        n.len() >= 1,
        ('a' <= n[0] <= 'z') || ('A' <= n[0] <= 'Z') || n[0] == '_',
        forall|i: int|
            1 <= i < n.len() ==> ('a' <= #[trigger] n[i] <= 'z') || ('A' <= n[i] <= 'Z') || (
            '0' <= n[i] <= '9') || n[i] == '_',
    ensures
        placeholders_from(seq!['$', '{'] + n + seq!['}'], 0) == seq![n],
        expand_from(seq!['$', '{'] + n + seq!['}'], 0, vars) == (match lookup(vars, n) {
            Some(v) => Ok::<Seq<char>, Seq<char>>(v),
            None => Err(n),
        }),
{
    let s = seq!['$', '{'] + n + seq!['}'];
    let e: int = n.len() as int + 2;
    assert(s.len() == n.len() + 3);
    assert(s[0] == '$' && s[1] == '{' && s[e] == '}');
    assert forall|j: int| 3 <= j < e implies is_name_char(#[trigger] s[j]) by {
        assert(s[j] == n[j - 2]);
    }
    assert(s[2] == n[0]);
    lemma_name_end_at(s, 3, e);
    assert(placeholder_at(s, 0));
    assert(placeholder_name(s, 0) =~= n);
    assert(placeholders_from(s, e + 1) == Seq::<Seq<char>>::empty());
    assert(expand_from(s, e + 1, vars) == Ok::<Seq<char>, Seq<char>>(seq![]));
    match lookup(vars, n) {
        Some(v) => {
            assert(v + seq![] =~= v);
        },
        None => {},
    }
    assert(seq![n] + Seq::<Seq<char>>::empty() =~= seq![n]);
}

} // verus!

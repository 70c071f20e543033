//! The names that `keymapper apps` reports: the same strings the daemon
//! matches against the `apps` field of a rule group.
//!
//! Enumerating windows is the platform's business; what is decided here is
//! which name each window contributes and how the list is ordered: sorted,
//! each name once.
use vstd::prelude::*;

use crate::text::{
    ascii_bytes, ascii_chars,
    bytes_to_string_lossy, contains_seq, hex4, push_hex4, str_chars, str_encode_utf16, string_from_chars,
    units_to_string_lossy, utf16_encode, utf16_lossy, utf8_lossy,
};
use crate::util::sorting::{names_sorted, names_view, sorted_unique};

verus! {

// ---------------------------------------------------------------------------
// X11: the class part of WM_CLASS
// ---------------------------------------------------------------------------

/// `bytes` without its trailing NUL bytes.
pub open spec fn without_trailing_nuls(bytes: Seq<u8>) -> Seq<u8>
    decreases bytes.len(),
{
    if bytes.len() > 0 && bytes.last() == 0 {
        without_trailing_nuls(bytes.drop_last())
    } else {
        bytes
    }
}

/// `p` is the position of the first NUL byte of `raw`.
pub open spec fn is_first_nul(raw: Seq<u8>, p: int) -> bool {
    0 <= p < raw.len() && raw[p] == 0 && forall|k: int| 0 <= k < p ==> raw[k] != 0
}

/// The bytes of the class name in a `WM_CLASS` value: what follows the first
/// NUL ("instance\0class"), or the whole value when it has none.
pub open spec fn class_bytes(raw: Seq<u8>) -> Seq<u8> {
    if exists|p: int| is_first_nul(raw, p) {
        let p = choose|p: int| is_first_nul(raw, p);
        raw.subrange(p + 1, raw.len() as int)
    } else {
        raw
    }
}

/// The class name that a `WM_CLASS` value contributes.
pub open spec fn wm_class(raw: Seq<u8>) -> Seq<char> {
    utf8_lossy(without_trailing_nuls(class_bytes(raw)))
}

/// Drops the trailing NUL bytes and decodes the rest as UTF-8, replacing
/// invalid sequences.
pub fn strip_trailing_nuls(bytes: &[u8]) -> (r: String)
    ensures
        r@ == utf8_lossy(without_trailing_nuls(bytes@)),
        ascii_bytes(bytes@) ==> r@ == ascii_chars(without_trailing_nuls(bytes@)),
{
    let mut n = bytes.len();
    assert(bytes@.take(n as int) =~= bytes@);
    while n > 0 && bytes[n - 1] == 0
        invariant
            n <= bytes@.len(),
            without_trailing_nuls(bytes@) == without_trailing_nuls(bytes@.take(n as int)),
        decreases n,
    {
        assert(bytes@.take(n as int).drop_last() =~= bytes@.take(n as int - 1));
        n = n - 1;
    }
    let head = vstd::slice::slice_subrange(bytes, 0, n);
    assert(head@ =~= bytes@.take(n as int));
    assert(ascii_bytes(bytes@) ==> ascii_bytes(head@)) by {
        if ascii_bytes(bytes@) {
            assert forall|i: int| 0 <= i < head@.len() implies #[trigger] head@[i] < 0x80 by {
                assert(head@[i] == bytes@[i]);
            }
        }
    }
    bytes_to_string_lossy(head)
}

/// The class name of a `WM_CLASS` value.
pub fn wm_class_name(raw: &[u8]) -> (r: String)
    ensures
        r@ == wm_class(raw@),
        ascii_bytes(raw@) ==> r@ == ascii_chars(without_trailing_nuls(class_bytes(raw@))),
{
    let n = raw.len();
    let mut p: usize = 0;
    while p < n && raw[p] != 0
        invariant
            p <= n == raw@.len(),
            forall|k: int| 0 <= k < p ==> raw@[k] != 0,
        decreases n - p,
    {
        p = p + 1;
    }
    if p < n {
        assert(is_first_nul(raw@, p as int));
        proof {
            let q = choose|q: int| is_first_nul(raw@, q);
            assert(q == p) by {
                if q < p {
                    assert(raw@[q] != 0);
                } else if q > p {
                    assert(raw@[p as int] != 0);
                }
            }
        }
        let after = vstd::slice::slice_subrange(raw, p + 1, n);
        assert(ascii_bytes(raw@) ==> ascii_bytes(after@)) by {
            if ascii_bytes(raw@) {
                assert forall|i: int| 0 <= i < after@.len() implies #[trigger] after@[i] < 0x80 by {
                    assert(after@[i] == raw@[p + 1 + i]);
                }
            }
        }
        strip_trailing_nuls(after)
    } else {
        assert(!exists|q: int| is_first_nul(raw@, q));
        strip_trailing_nuls(raw)
    }
}

/// A window contributes its class name when its `WM_CLASS` value is
/// non-empty and so is the name.
pub open spec fn contributes(raw: Seq<u8>, name: Seq<char>) -> bool {
    raw.len() > 0 && name == wm_class(raw) && name.len() > 0
}

/// The names reported for the `WM_CLASS` values of the listed windows:
/// sorted, each once.
pub fn class_names(raws: &Vec<Vec<u8>>) -> (r: Vec<String>)
    ensures
        names_sorted(names_view(r@)),
        forall|x: Seq<char>|
            names_view(r@).contains(x) <==> exists|i: int|
                0 <= i < raws@.len() && contributes(#[trigger] raws@[i]@, x),
{
    let mut names: Vec<String> = Vec::new();
    let mut i: usize = 0;
    while i < raws.len()
        invariant
            i <= raws@.len(),
            forall|x: Seq<char>|
                names_view(names@).contains(x) <==> exists|j: int|
                    0 <= j < i && contributes(#[trigger] raws@[j]@, x),
        decreases raws@.len() - i,
    {
        let ghost before = names_view(names@);
        let raw = raws[i].as_slice();
        if raw.len() > 0 {
            let name = wm_class_name(raw);
            if !name.as_str().is_empty() {
                names.push(name);
                proof {
                    assert(names_view(names@) =~= before.push(name@));
                }
            }
        }
        proof {
            let now = names_view(names@);
            let ri = raws@[i as int]@;
            assert(now == before || (now == before.push(wm_class(ri)) && contributes(ri, wm_class(ri))));
            assert(now == before ==> forall|x: Seq<char>| !contributes(ri, x));
            assert forall|x: Seq<char>|
                now.contains(x) <==> exists|j: int|
                    0 <= j < i + 1 && contributes(#[trigger] raws@[j]@, x) by {
                if now.contains(x) {
                    let k = choose|k: int| 0 <= k < now.len() && now[k] == x;
                    if k < before.len() {
                        assert(before[k] == x);
                        assert(before.contains(x));
                        let j = choose|j: int| 0 <= j < i && contributes(#[trigger] raws@[j]@, x);
                        assert(0 <= j < i + 1 && contributes(raws@[j]@, x));
                    } else {
                        assert(contributes(raws@[i as int]@, x));
                    }
                }
                if exists|j: int| 0 <= j < i + 1 && contributes(#[trigger] raws@[j]@, x) {
                    let j = choose|j: int| 0 <= j < i + 1 && contributes(#[trigger] raws@[j]@, x);
                    if j < i {
                        assert(before.contains(x));
                        let k = choose|k: int| 0 <= k < before.len() && before[k] == x;
                        assert(now[k] == x);
                    } else {
                        assert(now[now.len() - 1] == x);
                    }
                }
            }
        }
        i = i + 1;
    }
    sorted_unique(&names)
}

// ---------------------------------------------------------------------------
// Windows: UTF-16 text and version resources
// ---------------------------------------------------------------------------

/// `p` is the position of the first zero code unit of `data`.
pub open spec fn is_first_zero(data: Seq<u16>, p: int) -> bool {
    0 <= p < data.len() && data[p] == 0 && forall|k: int| 0 <= k < p ==> data[k] != 0
}

/// The code units of `data` before its first zero (all of them when it has
/// none).
pub open spec fn units_before_nul(data: Seq<u16>) -> Seq<u16> {
    if exists|p: int| is_first_zero(data, p) {
        data.take(choose|p: int| is_first_zero(data, p))
    } else {
        data
    }
}

/// Decodes a NUL-terminated UTF-16 buffer, replacing unpaired surrogates.
pub fn utf16_to_string(data: &[u16]) -> (r: String)
    ensures
        r@ == utf16_lossy(units_before_nul(data@)),
{
    let n = data.len();
    let mut p: usize = 0;
    while p < n && data[p] != 0
        invariant
            p <= n == data@.len(),
            forall|k: int| 0 <= k < p ==> data@[k] != 0,
        decreases n - p,
    {
        p = p + 1;
    }
    if p < n {
        assert(is_first_zero(data@, p as int));
        proof {
            let q = choose|q: int| is_first_zero(data@, q);
            assert(q == p) by {
                if q < p {
                    assert(data@[q] != 0);
                } else if q > p {
                    assert(data@[p as int] != 0);
                }
            }
        }
    } else {
        assert(!exists|q: int| is_first_zero(data@, q));
        assert(data@.take(p as int) =~= data@);
    }
    let head = vstd::slice::slice_subrange(data, 0, p);
    assert(head@ =~= data@.take(p as int));
    units_to_string_lossy(head)
}

/// The UTF-16 code units of `s` followed by a terminating zero.
pub fn to_utf16_null(s: &str) -> (r: Vec<u16>)
    ensures
        r@ == utf16_encode(s@).push(0),
{
    let mut units = str_encode_utf16(s);
    units.push(0);
    units
}

/// The UTF-16 units of a character other than NUL are not zero.
proof fn lemma_units_nonzero(c: char)
    requires
        c != '\0',
    ensures
        forall|k: int| 0 <= k < crate::text::utf16_units(c).len() ==> crate::text::utf16_units(c)[k] != 0,
{
    let b = crate::text::utf16_units(c);
    let v = c as u32;
    if v < 0x10000 {
        assert(b[0] == v as u16);
    } else {
        let w = (v - 0x10000) as u32;
        assert(w / 0x400 < 0x400);
        assert(b[0] == (0xD800 + w / 0x400) as u16);
        assert(b[1] == (0xDC00 + w % 0x400) as u16);
    }
}

/// The UTF-16 encoding of a string without NUL characters holds no zero
/// unit.
proof fn lemma_encode_has_no_zero(s: Seq<char>)
    requires
        forall|i: int| 0 <= i < s.len() ==> s[i] != '\0',
    ensures
        forall|k: int| 0 <= k < utf16_encode(s).len() ==> utf16_encode(s)[k] != 0,
    decreases s.len(),
{
    if s.len() > 0 {
        let s0 = s.drop_last();
        assert forall|i: int| 0 <= i < s0.len() implies s0[i] != '\0' by {
            assert(s0[i] == s[i]);
        }
        lemma_encode_has_no_zero(s0);
        let c = s.last();
        assert(c == s[s.len() - 1]);
        assert(c != '\0');
        let a = utf16_encode(s0);
        let b = crate::text::utf16_units(c);
        assert(utf16_encode(s) == a + b);
        lemma_units_nonzero(c);
        assert forall|k: int| 0 <= k < (a + b).len() implies (a + b)[k] != 0 by {
            if k >= a.len() {
                assert((a + b)[k] == b[k - a.len()]);
            }
        }
    }
}

/// A string without NUL characters, written as a NUL-terminated UTF-16
/// buffer and read back, is the same string.
pub proof fn law_utf16_buffer_round_trip(s: Seq<char>)
    requires
        forall|i: int| 0 <= i < s.len() ==> s[i] != '\0',
    ensures
        utf16_lossy(units_before_nul(utf16_encode(s).push(0))) == s,
{
    let e = utf16_encode(s);
    let data = e.push(0);
    lemma_encode_has_no_zero(s);
    assert(is_first_zero(data, e.len() as int));
    let p = choose|p: int| is_first_zero(data, p);
    assert(p == e.len()) by {
        if p < e.len() {
            assert(data[p] == e[p]);
        }
    }
    assert(data.take(p) =~= e);
    crate::text::law_utf16_round_trip(s);
}

/// The text of a version-resource value, if it is not empty.
pub fn description_text(desc: &[u16]) -> (r: Option<String>)
    ensures
        r is Some <==> utf16_lossy(units_before_nul(desc@)).len() > 0,
        r is Some ==> r.unwrap()@ == utf16_lossy(units_before_nul(desc@)),
{
    let s = utf16_to_string(desc);
    if !s.as_str().is_empty() {
        Some(s)
    } else {
        None
    }
}

/// The sub-block that holds the `FileDescription` in the language and code
/// page given by the first two entries of a translation table.
pub open spec fn description_path(lang: u16, code_page: u16) -> Seq<char> {
    "\\StringFileInfo\\"@ + hex4(lang) + hex4(code_page) + "\\FileDescription"@
}

/// The `FileDescription` sub-block named by a version resource's
/// translation table, or `None` when the table has fewer than two entries.
pub fn file_description_path(lang_data: &[u16]) -> (r: Option<String>)
    ensures
        r is Some <==> lang_data@.len() >= 2,
        r is Some ==> r.unwrap()@ == description_path(lang_data@[0], lang_data@[1]),
{
    if lang_data.len() < 2 {
        return None;
    }
    let mut path = String::from_str("\\StringFileInfo\\");
    push_hex4(&mut path, lang_data[0]);
    push_hex4(&mut path, lang_data[1]);
    path.append("\\FileDescription");
    Some(path)
}

// ---------------------------------------------------------------------------
// File stems
// ---------------------------------------------------------------------------

/// `name` is a non-empty stretch of `path`.
pub open spec fn is_piece_of(path: Seq<char>, name: Seq<char>) -> bool {
    name.len() > 0 && contains_seq(path, name)
}

/// The text after the last `/` of `path` (all of it when there is none).
pub open spec fn last_segment(path: Seq<char>) -> Seq<char>
    decreases path.len(),
{
    if path.len() == 0 {
        Seq::empty()
    } else if path.last() == '/' {
        Seq::empty()
    } else {
        last_segment(path.drop_last()).push(path.last())
    }
}

/// A path whose final component every platform reads alike: it holds no
/// `\` and no `:` (no Windows separator or prefix), does not begin with
/// `//`, and the text after its last `/` is a name other than `.` and `..`.
pub open spec fn plainly_named(path: Seq<char>) -> bool {
    &&& !path.contains('\\')
    &&& !path.contains(':')
    &&& !(path.len() >= 2 && path[0] == '/' && path[1] == '/')
    &&& last_segment(path).len() > 0
    &&& last_segment(path) != "."@
    &&& last_segment(path) != ".."@
}

/// `c` separates path components on Windows.
pub open spec fn is_windows_separator(c: char) -> bool {
    c == '/' || c == '\\'
}

/// The text after the last `/` or `\` of `path` (all of it when there is
/// none).
pub open spec fn after_last_separator(path: Seq<char>) -> Seq<char>
    decreases path.len(),
{
    if path.len() == 0 {
        Seq::empty()
    } else if is_windows_separator(path.last()) {
        Seq::empty()
    } else {
        after_last_separator(path.drop_last()).push(path.last())
    }
}

/// `path` begins with a drive prefix: an ASCII letter and `:`.
pub open spec fn has_drive_prefix(path: Seq<char>) -> bool {
    path.len() >= 2 && path[1] == ':' && (('a' <= path[0] && path[0] <= 'z') || ('A' <= path[0]
        && path[0] <= 'Z'))
}

/// The final component of `path` as Windows reads it: the text after any
/// drive prefix and after the last `/` or `\`.
pub open spec fn windows_last_component(path: Seq<char>) -> Seq<char> {
    if has_drive_prefix(path) {
        after_last_separator(path.subrange(2, path.len() as int))
    } else {
        after_last_separator(path)
    }
}

/// A name that `Path::file_name` gives as it stands: not empty, `.` or `..`.
pub open spec fn ordinary_name(name: Seq<char>) -> bool {
    name.len() > 0 && name != "."@ && name != ".."@
}

/// A path that has a file name on every platform: it does not begin with
/// two separators (a Windows network or device prefix), and its final
/// component is an ordinary name both where only `/` separates components
/// and as Windows reads it (so it does not end in a separator either).
pub open spec fn has_file_name(path: Seq<char>) -> bool {
    &&& !(path.len() >= 2 && is_windows_separator(path[0]) && is_windows_separator(path[1]))
    &&& ordinary_name(last_segment(path))
    &&& ordinary_name(windows_last_component(path))
}

/// `Path::file_name`, for a path given as text: the final component of
/// the path.  `/` separates components on every platform, and on Windows
/// `\` does too and a path may begin with a prefix such as `C:`.  So for a
/// path that has a file name on every platform the name is the text after
/// the last `/` or, on Windows, the final component as Windows reads it;
/// for a path that holds neither `\` nor `:` the two agree.  Of any other
/// path the contract says that a name, when there is one, is a non-empty
/// stretch of `path`.
#[verifier::external_body]
fn path_file_name(path: &str) -> (r: Option<String>)
    ensures
        r is Some ==> is_piece_of(path@, r.unwrap()@),
        plainly_named(path@) ==> r is Some && r.unwrap()@ == last_segment(path@),
        has_file_name(path@) ==> r is Some && (r.unwrap()@ == last_segment(path@) || r.unwrap()@
            == windows_last_component(path@)),
{
    match std::path::Path::new(path).file_name() {
        Some(name) => name.to_str().map(str::to_string),
        None => None,
    }
}

/// What comes before the last `.` of `name`, if it has one.
pub open spec fn before_last_dot(name: Seq<char>) -> Option<Seq<char>>
    decreases name.len(),
{
    if name.len() == 0 {
        None
    } else if name.last() == '.' {
        Some(name.drop_last())
    } else {
        before_last_dot(name.drop_last())
    }
}

/// The stem of a file name: the part before the final `.`, or the whole
/// name when it has no `.` other than a leading one.
pub open spec fn stem(name: Seq<char>) -> Seq<char> {
    match before_last_dot(name) {
        Some(b) => if b.len() > 0 {
            b
        } else {
            name
        },
        None => name,
    }
}

/// The stem of a non-empty name is not empty.
proof fn lemma_stem_nonempty(name: Seq<char>)
    requires
        name.len() > 0,
    ensures
        stem(name).len() > 0,
{
}

/// The stem of a file name, or the empty string when there is no name.
pub fn name_stem(file_name: Option<String>) -> (r: String)
    ensures
        file_name is None ==> r@.len() == 0,
        file_name is Some ==> r@ == stem(file_name.unwrap()@),
{
    let name = match file_name {
        Some(n) => n,
        None => return String::new(),
    };
    let v = str_chars(name.as_str());
    let n = v.len();
    let mut j: usize = n;
    assert(v@.take(n as int) =~= v@);
    while j > 0 && v[j - 1] != '.'
        invariant
            j <= n == v@.len(),
            v@ == name@,
            before_last_dot(v@) == before_last_dot(v@.take(j as int)),
        decreases j,
    {
        assert(v@.take(j as int).drop_last() =~= v@.take(j as int - 1));
        j = j - 1;
    }
    if j <= 1 {
        if j == 1 {
            assert(v@.take(1).drop_last() =~= Seq::<char>::empty());
        }
        name
    } else {
        assert(v@.take(j as int).drop_last() =~= v@.subrange(0, j as int - 1));
        string_from_chars(&v, 0, j - 1)
    }
}

/// The stem of the last component of `path` (`chrome` for
/// `C:\Program Files\Google\Chrome\Application\chrome.exe`), or the empty
/// string when the path has no file name.
pub fn file_stem(path: &str) -> (r: String)
    ensures
        r@.len() == 0 || exists|name: Seq<char>| is_piece_of(path@, name) && r@ == stem(name),
        plainly_named(path@) ==> r@ == stem(last_segment(path@)),
        has_file_name(path@) ==> r@.len() > 0 && (r@ == stem(last_segment(path@)) || r@ == stem(
            windows_last_component(path@),
        )),
{
    let name = path_file_name(path);
    let ghost nv = if name is Some { name.unwrap()@ } else { Seq::<char>::empty() };
    let r = name_stem(name);
    proof {
        if has_file_name(path@) {
            lemma_stem_nonempty(nv);
        }
        if r@.len() > 0 {
            assert(is_piece_of(path@, nv) && r@ == stem(nv));
        }
    }
    r
}

/// The name of an application on Windows: the executable's
/// `FileDescription` when it has one, its file stem otherwise.
pub fn app_name_for(description: Option<String>, exe_path: &str) -> (r: String)
    ensures
        description is Some ==> r == description.unwrap(),
        description is None ==> (r@.len() == 0 || exists|name: Seq<char>|
            is_piece_of(exe_path@, name) && r@ == stem(name)),
        description is None && plainly_named(exe_path@) ==> r@ == stem(last_segment(exe_path@)),
        description is None && has_file_name(exe_path@) ==> r@.len() > 0 && (r@ == stem(
            last_segment(exe_path@),
        ) || r@ == stem(windows_last_component(exe_path@))),
{
    match description {
        Some(d) => d,
        None => file_stem(exe_path),
    }
}

/// The non-empty names of `names`, sorted, each once.
pub fn distinct_names(names: &Vec<String>) -> (r: Vec<String>)
    ensures
        names_sorted(names_view(r@)),
        forall|x: Seq<char>|
            names_view(r@).contains(x) <==> x.len() > 0 && names_view(names@).contains(x),
{
    let mut kept: Vec<String> = Vec::new();
    let mut i: usize = 0;
    while i < names.len()
        invariant
            i <= names@.len(),
            forall|x: Seq<char>|
                names_view(kept@).contains(x) <==> x.len() > 0 && names_view(names@).take(
                    i as int,
                ).contains(x),
        decreases names@.len() - i,
    {
        let ghost before = names_view(kept@);
        let ghost all = names_view(names@);
        let n = names[i].clone();
        if !n.as_str().is_empty() {
            kept.push(n);
            assert(names_view(kept@) =~= before.push(all[i as int]));
        }
        proof {
            let now = names_view(kept@);
            assert(all.take(i as int + 1) =~= all.take(i as int).push(all[i as int]));
            assert forall|x: Seq<char>|
                now.contains(x) <==> x.len() > 0 && all.take(i as int + 1).contains(x) by {
                let t1 = all.take(i as int + 1);
                let t0 = all.take(i as int);
                if now.contains(x) {
                    let k = choose|k: int| 0 <= k < now.len() && now[k] == x;
                    if k < before.len() {
                        assert(before.contains(x));
                        let m = choose|m: int| 0 <= m < t0.len() && t0[m] == x;
                        assert(t1[m] == x);
                    } else {
                        assert(t1[i as int] == x);
                    }
                }
                if x.len() > 0 && t1.contains(x) {
                    let m = choose|m: int| 0 <= m < t1.len() && t1[m] == x;
                    if m < i {
                        assert(t0[m] == x);
                        assert(before.contains(x));
                        let k = choose|k: int| 0 <= k < before.len() && before[k] == x;
                        assert(now[k] == x);
                    } else {
                        assert(now[now.len() - 1] == x);
                    }
                }
            }
        }
        i = i + 1;
    }
    assert(names_view(names@).take(i as int) =~= names_view(names@));
    sorted_unique(&kept)
}

// ---------------------------------------------------------------------------
// macOS: window owners
// ---------------------------------------------------------------------------

/// The value of a list of (owner pid, owner name) pairs.
pub open spec fn owners_view(windows: Seq<(i64, String)>) -> Seq<(i64, Seq<char>)> {
    windows.map_values(|w: (i64, String)| (w.0, w.1@))
}

/// `name` is the owner name of a listed window with a non-zero owner pid,
/// and it is not empty.
pub open spec fn owner_named(windows: Seq<(i64, Seq<char>)>, name: Seq<char>) -> bool {
    name.len() > 0 && exists|i: int|
        0 <= i < windows.len() && (#[trigger] windows[i]).0 != 0 && windows[i].1 == name
}

/// The owner names of the listed windows (pid, name), sorted, each once:
/// windows with a zero owner pid or an empty owner name are left out, and
/// an application owned by several processes is listed once.
pub fn window_owner_names(windows: &Vec<(i64, String)>) -> (r: Vec<String>)
    ensures
        names_sorted(names_view(r@)),
        forall|x: Seq<char>| names_view(r@).contains(x) <==> owner_named(owners_view(windows@), x),
{
    let ghost wv = owners_view(windows@);
    let mut names: Vec<String> = Vec::new();
    let mut i: usize = 0;
    while i < windows.len()
        invariant
            i <= windows@.len(),
            wv == owners_view(windows@),
            forall|x: Seq<char>|
                names_view(names@).contains(x) <==> owner_named(wv.take(i as int), x),
        decreases windows@.len() - i,
    {
        let ghost before = names_view(names@);
        let pid = windows[i].0;
        let name = windows[i].1.clone();
        let ghost nv = name@;
        let keep = pid != 0 && !name.as_str().is_empty();
        if keep {
            names.push(name);
            assert(names_view(names@) =~= before.push(nv));
        }
        proof {
            let now = names_view(names@);
            let t0 = wv.take(i as int);
            let t1 = wv.take(i as int + 1);
            assert(t1 =~= t0.push(wv[i as int]));
            assert(wv[i as int] == (pid, nv));
            assert forall|x: Seq<char>| now.contains(x) <==> owner_named(t1, x) by {
                if now.contains(x) {
                    let k = choose|k: int| 0 <= k < now.len() && now[k] == x;
                    if k < before.len() {
                        assert(before.contains(x));
                        let m = choose|m: int|
                            0 <= m < t0.len() && (#[trigger] t0[m]).0 != 0 && t0[m].1 == x;
                        assert(t1[m] == t0[m]);
                    } else {
                        assert(keep);
                        assert(t1[i as int] == wv[i as int]);
                    }
                }
                if owner_named(t1, x) {
                    let m = choose|m: int| 0 <= m < t1.len() && (#[trigger] t1[m]).0 != 0 && t1[m].1 == x;
                    if m < i {
                        assert(t0[m] == t1[m]);
                        assert(owner_named(t0, x));
                        assert(before.contains(x));
                        let k = choose|k: int| 0 <= k < before.len() && before[k] == x;
                        assert(now[k] == x);
                    } else {
                        assert(keep);
                        assert(now[now.len() - 1] == x);
                    }
                }
            }
        }
        i = i + 1;
    }
    assert(wv.take(i as int) =~= wv);
    sorted_unique(&names)
}

} // verus!

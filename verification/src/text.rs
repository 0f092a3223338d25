//! Textual arguments at the boundary, and the character-level rules the
//! library validates them against.
//!
//! The unverified shell decodes each foreign string argument into a
//! [`TextArg`] before the library sees it: the null pointer, malformed
//! bytes, or the decoded text. The intake function here implements the
//! boundary's conversion discipline: a null argument is silently absent,
//! while malformed text records the text-conversion failure kind.

use vstd::prelude::*;
use vstd::string::{StrSliceExecFns, StringExecFns};

use crate::channel::{update_last_error, ErrorChannel};
use crate::kinds::HttpErrorKind;

verus! {

/// A textual argument as the boundary shell hands it over.
pub enum TextArg {
    /// The caller passed the null pointer.
    Null,
    /// The caller's bytes were not valid text.
    Malformed,
    /// The decoded text.
    Text(String),
}

/// The verified counterpart of the boundary's string intake: absent for the
/// null pointer, and a recorded text-conversion failure for malformed bytes.
/// The tip names the argument in the recorded message.
pub fn to_rust_str<'a>(ch: &mut ErrorChannel, arg: &'a TextArg, err_tip: &str) -> (r: Option<
    &'a String,
>)
    ensures
        arg matches TextArg::Text(s) ==> (r matches Some(t) && t@ == s@ && *final(ch) == *old(
            ch,
        )),
        arg is Null ==> (r is None && *final(ch) == *old(ch)),
        arg is Malformed ==> (r is None && (final(ch).last matches Some(e) && e.error_kind
            == HttpErrorKind::CharConversion)),
{
    match arg {
        TextArg::Text(s) => Some(s),
        TextArg::Null => None,
        TextArg::Malformed => {
            let mut msg = String::from_str("invalid utf-8 sequence: ");
            msg.append(err_tip);
            update_last_error(ch, HttpErrorKind::CharConversion, msg);
            None
        },
    }
}

/// A key-value pair of textual arguments, as used for queries and forms.
pub struct Pair {
    pub key: TextArg,
    pub value: TextArg,
}

/// The text a textual argument contributes: its text when it decoded, the
/// empty text when it was absent or malformed.
pub open spec fn arg_text(a: TextArg) -> Seq<char> {
    match a {
        TextArg::Text(s) => s@,
        _ => Seq::empty(),
    }
}

/// What one pair contributes to a query or form.
pub open spec fn pair_view(p: Pair) -> (Seq<char>, Seq<char>) {
    (arg_text(p.key), arg_text(p.value))
}

/// Convert one pair to owned text, as the boundary does: an absent or
/// malformed side becomes the empty string, and a malformed side records
/// the text-conversion failure kind.
pub fn pair_to_tuple(ch: &mut ErrorChannel, p: &Pair) -> (r: (String, String))
    ensures
        (r.0@, r.1@) == pair_view(*p),
        (p.key is Malformed || p.value is Malformed) ==> (final(ch).last matches Some(e)
            && e.error_kind == HttpErrorKind::CharConversion),
        (!(p.key is Malformed) && !(p.value is Malformed)) ==> *final(ch) == *old(ch),
{
    let key = match to_rust_str(ch, &p.key, "key parse error") {
        Some(v) => v.clone(),
        None => String::new(),
    };
    let value = match to_rust_str(ch, &p.value, "value parse error") {
        Some(v) => v.clone(),
        None => String::new(),
    };
    (key, value)
}

/// Convert a whole list of pairs, as the query and form calls take them.
pub fn pairs_to_tuples(ch: &mut ErrorChannel, pairs: &Vec<Pair>) -> (r: Vec<(String, String)>)
    ensures
        r@.len() == pairs@.len(),
        forall|i: int|
            0 <= i < pairs@.len() ==> ((#[trigger] r@[i]).0@, r@[i].1@) == pair_view(pairs@[i]),
        (forall|i: int|
            0 <= i < pairs@.len() ==> (!((#[trigger] pairs@[i]).key is Malformed) && !(
            pairs@[i].value is Malformed))) ==> *final(ch) == *old(ch),
{
    let mut out: Vec<(String, String)> = Vec::new();
    let mut i: usize = 0;
    while i < pairs.len()
        invariant
            i <= pairs@.len(),
            out@.len() == i,
            forall|j: int|
                0 <= j < i ==> ((#[trigger] out@[j]).0@, out@[j].1@) == pair_view(pairs@[j]),
            (forall|j: int|
                0 <= j < i ==> (!((#[trigger] pairs@[j]).key is Malformed) && !(
                pairs@[j].value is Malformed))) ==> *ch == *old(ch),
        decreases pairs@.len() - i,
    {
        let t = pair_to_tuple(ch, &pairs[i]);
        out.push(t);
        i = i + 1;
    }
    out
}

/// Whether a character may appear in a header name: the lower- and
/// upper-case letters, the digits, and the token punctuation the header
/// grammar allows.
pub open spec fn is_header_name_char(c: char) -> bool {
    let u = c as u32;
    (97 <= u && u <= 122)  // a-z
     || (65 <= u && u <= 90)  // A-Z
     || (48 <= u && u <= 57)  // 0-9
     || u == 33  // !
     || u == 35  // #
     || u == 36  // $
     || u == 37  // %
     || u == 38  // &
     || u == 39  // '
     || u == 42  // *
     || u == 43  // +
     || u == 45  // -
     || u == 46  // .
     || u == 94  // ^
     || u == 95  // _
     || u == 96  // `
     || u == 124  // |
     || u == 126  // ~

}

/// A well-formed header name: non-empty, within the engine's length bound,
/// and made of header-name characters only.
pub open spec fn valid_header_name(s: Seq<char>) -> bool {
    0 < s.len() <= 65535 && (forall|i: int| 0 <= i < s.len() ==> is_header_name_char(#[trigger] s[i]))
}

/// A well-formed method token: non-empty and made of token characters,
/// which are the header-name characters with both cases kept.
pub open spec fn is_method_token(s: Seq<char>) -> bool {
    0 < s.len() && (forall|i: int| 0 <= i < s.len() ==> is_header_name_char(#[trigger] s[i]))
}

/// The number of bytes the text occupies in its encoded form — the length a
/// foreign reader pairing a count with a text pointer needs.
pub open spec fn byte_len(s: Seq<char>) -> nat {
    vstd::utf8::encode_utf8(s).len()
}

/// The byte length as the platform's length type reports it; no text the
/// platform can hold is longer than that type, so the cast never loses
/// anything of a real text.
pub open spec fn byte_len_usize(s: Seq<char>) -> usize {
    byte_len(s) as usize
}

/// Whether a character is accepted in a header value: anything but the
/// control characters, except the horizontal tab.
pub open spec fn is_header_value_char(c: char) -> bool {
    let u = c as u32;
    u == 9 || (32 <= u && u != 127)
}

/// A header value the engine accepts.
pub open spec fn valid_header_value(s: Seq<char>) -> bool {
    forall|i: int| 0 <= i < s.len() ==> is_header_value_char(#[trigger] s[i])
}

/// A header value that also reads back as text: visible characters and the
/// horizontal tab only. Values outside this set are stored but skipped when
/// read back as text.
pub open spec fn readable_header_value(s: Seq<char>) -> bool {
    forall|i: int|
        0 <= i < s.len() ==> {
            let u = (#[trigger] s[i]) as u32;
            u == 9 || (32 <= u && u < 127)
        }
}

/// The lower-case form of one character, folding the upper-case letters
/// only, as header names are normalized.
pub open spec fn lower_char(c: char) -> char {
    if 65 <= c as u32 <= 90 {
        ((c as u32) + 32) as char
    } else {
        c
    }
}

/// The lower-case form of a header name.
pub open spec fn ascii_lower(s: Seq<char>) -> Seq<char> {
    s.map_values(|c: char| lower_char(c))
}

/// Law: normalizing a name that is already lower-case leaves it unchanged.
pub proof fn lemma_lower_fixes_lowercase(s: Seq<char>)
    requires
        forall|i: int| 0 <= i < s.len() ==> !(65 <= (#[trigger] s[i]) as u32 <= 90),
    ensures
        ascii_lower(s) == s,
{
    assert(ascii_lower(s) =~= s);
}

pub fn is_valid_header_name(s: &str) -> (r: bool)
    ensures
        r == valid_header_name(s@),
{
    let n = s.unicode_len();
    if n == 0 || n > 65535 {
        return false;
    }
    let mut i: usize = 0;
    while i < n
        invariant
            n == s@.len(),
            i <= n,
            forall|j: int| 0 <= j < i ==> is_header_name_char(#[trigger] s@[j]),
        decreases n - i,
    {
        let u = s.get_char(i) as u32;
        let ok = (97 <= u && u <= 122) || (65 <= u && u <= 90) || (48 <= u && u <= 57) || u == 33
            || u == 35 || u == 36 || u == 37 || u == 38 || u == 39 || u == 42 || u == 43 || u == 45
            || u == 46 || u == 94 || u == 95 || u == 96 || u == 124 || u == 126;
        if !ok {
            return false;
        }
        i = i + 1;
    }
    true
}

pub fn is_valid_method_token(s: &str) -> (r: bool)
    ensures
        r == is_method_token(s@),
{
    let n = s.unicode_len();
    if n == 0 {
        return false;
    }
    let mut i: usize = 0;
    while i < n
        invariant
            n == s@.len(),
            i <= n,
            forall|j: int| 0 <= j < i ==> is_header_name_char(#[trigger] s@[j]),
        decreases n - i,
    {
        let u = s.get_char(i) as u32;
        let ok = (97 <= u && u <= 122) || (65 <= u && u <= 90) || (48 <= u && u <= 57) || u == 33
            || u == 35 || u == 36 || u == 37 || u == 38 || u == 39 || u == 42 || u == 43 || u == 45
            || u == 46 || u == 94 || u == 95 || u == 96 || u == 124 || u == 126;
        if !ok {
            return false;
        }
        i = i + 1;
    }
    true
}

pub fn is_valid_header_value(s: &str) -> (r: bool)
    ensures
        r == valid_header_value(s@),
{
    let n = s.unicode_len();
    let mut i: usize = 0;
    while i < n
        invariant
            n == s@.len(),
            i <= n,
            forall|j: int| 0 <= j < i ==> is_header_value_char(#[trigger] s@[j]),
        decreases n - i,
    {
        let u = s.get_char(i) as u32;
        if !(u == 9 || (32 <= u && u != 127)) {
            return false;
        }
        i = i + 1;
    }
    true
}

/// The position just after the last path separator in `s`; zero when `s`
/// holds none.
pub open spec fn after_last_sep(s: Seq<char>) -> int
    decreases s.len(),
{
    if s.len() == 0 {
        0
    } else if s[s.len() - 1] == '/' {
        s.len() as int
    } else {
        after_last_sep(s.drop_last())
    }
}

/// The position of the last dot in a name, or zero when the name holds no
/// dot after its first character — a leading dot alone marks no extension.
pub open spec fn stem_end(name: Seq<char>) -> int
    decreases name.len(),
{
    if name.len() <= 1 {
        0
    } else if name[name.len() - 1] == '.' {
        name.len() - 1
    } else {
        stem_end(name.drop_last())
    }
}

/// The path with its trailing separators cut off, as the platform ignores
/// them when naming a file.
pub open spec fn trim_seps(s: Seq<char>) -> Seq<char>
    decreases s.len(),
{
    if s.len() > 0 && s[s.len() - 1] == '/' {
        trim_seps(s.drop_last())
    } else {
        s
    }
}

/// What `extract_file_name` returns: the last path component, trailing
/// separators ignored, with its extension cut off; the whole input when
/// that component is empty or is one of the two relative-path markers.
pub open spec fn spec_file_stem(s: Seq<char>) -> Seq<char> {
    let t = trim_seps(s);
    let name = t.subrange(after_last_sep(t), t.len() as int);
    if name.len() == 0 || name =~= seq!['.'] || name =~= seq!['.', '.'] {
        s
    } else if stem_end(name) > 0 {
        name.take(stem_end(name))
    } else {
        name
    }
}

/// The stem of the file a path names: the last component, trailing
/// separators ignored, minus the extension after its final dot; the whole
/// path when it has no such component.
pub fn extract_file_name(p: &str) -> (r: String)
    ensures
        r@ == spec_file_stem(p@),
{
    let n = p.unicode_len();
    let mut m: usize = 0;
    let mut i0: usize = 0;
    while i0 < n
        invariant
            n == p@.len(),
            i0 <= n,
            m <= i0,
            forall|j: int| m <= j < i0 ==> p@[j] == '/',
            m > 0 ==> p@[m - 1] != '/',
        decreases n - i0,
    {
        if p.get_char(i0) != '/' {
            m = i0 + 1;
        }
        i0 = i0 + 1;
    }
    proof {
        lemma_trim_seps(p@, m as int);
    }
    let ghost t = p@.take(m as int);
    let mut start: usize = 0;
    let mut i: usize = 0;
    while i < m
        invariant
            m <= n == p@.len(),
            i <= m,
            start <= i,
            forall|j: int| start <= j < i ==> p@[j] != '/',
            start > 0 ==> p@[start - 1] == '/',
        decreases m - i,
    {
        if p.get_char(i) == '/' {
            start = i + 1;
        }
        i = i + 1;
    }
    proof {
        assert(forall|j: int| 0 <= j < m ==> t[j] == p@[j]);
        lemma_after_last_sep(t, start as int);
    }
    let ghost name = t.subrange(start as int, m as int);
    proof {
        assert(name =~= p@.subrange(start as int, m as int));
    }
    let name_len: usize = m - start;
    if name_len == 0 {
        return p.to_owned();
    }
    if name_len == 1 {
        let c0 = p.get_char(start);
        if c0 == '.' {
            proof {
                assert(name =~= seq!['.']);
            }
            return p.to_owned();
        }
        proof {
            assert(name[0] == p@[start as int]);
            assert(!(name =~= seq!['.']));
        }
    }
    if name_len == 2 {
        let c0 = p.get_char(start);
        let c1 = p.get_char(start + 1);
        if c0 == '.' && c1 == '.' {
            proof {
                assert(name =~= seq!['.', '.']);
            }
            return p.to_owned();
        }
        proof {
            assert(name[0] == p@[start as int]);
            assert(name[1] == p@[start as int + 1]);
            assert(!(name =~= seq!['.', '.']));
        }
    }
    let mut dot: usize = start;
    let mut k: usize = start + 1;
    while k < m
        invariant
            m <= n == p@.len(),
            start < k <= m,
            dot == start || (start < dot < k && p@[dot as int] == '.'),
            forall|j: int| dot < j < k && j > start ==> p@[j] != '.',
        decreases m - k,
    {
        if p.get_char(k) == '.' {
            dot = k;
        }
        k = k + 1;
    }
    if dot > start {
        proof {
            lemma_stem_end(name, dot as int - start as int);
            assert(name.take(dot as int - start as int) =~= p@.subrange(start as int, dot as int));
        }
        let stem = p.substring_char(start, dot);
        stem.to_owned()
    } else {
        proof {
            lemma_stem_end_zero(name);
        }
        let stem = p.substring_char(start, m);
        stem.to_owned()
    }
}

/// `trim_seps` is the cut the trailing-separator scan found: everything
/// from the cut on is a separator, and the cut is zero or sits right after
/// something else.
proof fn lemma_trim_seps(s: Seq<char>, cut: int)
    requires
        0 <= cut <= s.len(),
        forall|j: int| cut <= j < s.len() ==> s[j] == '/',
        cut > 0 ==> s[cut - 1] != '/',
    ensures
        trim_seps(s) == s.take(cut),
    decreases s.len(),
{
    if s.len() > 0 && s[s.len() - 1] == '/' {
        lemma_trim_seps(s.drop_last(), cut);
        assert(s.drop_last() =~= s.take(s.len() - 1));
        assert(s.drop_last().take(cut) =~= s.take(cut));
    } else {
        assert(s.take(cut) =~= s);
    }
}

/// `after_last_sep` is the cut the separator scan found: everything from
/// the cut on is separator-free, and the cut is zero or sits right after a
/// separator.
proof fn lemma_after_last_sep(s: Seq<char>, cut: int)
    requires
        0 <= cut <= s.len(),
        forall|j: int| cut <= j < s.len() ==> s[j] != '/',
        cut > 0 ==> s[cut - 1] == '/',
    ensures
        after_last_sep(s) == cut,
    decreases s.len(),
{
    if s.len() == 0 {
    } else if s[s.len() - 1] == '/' {
    } else {
        lemma_after_last_sep(s.drop_last(), cut);
    }
}

/// `stem_end` is the cut the dot scan found when the scan stopped on a dot
/// past the first character.
proof fn lemma_stem_end(name: Seq<char>, cut: int)
    requires
        1 <= cut < name.len(),
        name[cut] == '.',
        forall|j: int| cut < j < name.len() ==> name[j] != '.',
    ensures
        stem_end(name) == cut,
    decreases name.len(),
{
    if name.len() <= 1 {
    } else if name[name.len() - 1] == '.' {
    } else {
        lemma_stem_end(name.drop_last(), cut);
    }
}

/// When no dot stands past the first character, `stem_end` is zero.
proof fn lemma_stem_end_zero(name: Seq<char>)
    requires
        forall|j: int| 1 <= j < name.len() ==> name[j] != '.',
    ensures
        stem_end(name) == 0,
    decreases name.len(),
{
    if name.len() <= 1 {
    } else {
        lemma_stem_end_zero(name.drop_last());
    }
}

/// An optional count of milliseconds as an engine duration: absent stays
/// absent, so that a null pointer at the boundary disables the setting.
pub fn u64_to_millis_duration(millisecond: Option<u64>) -> (r: Option<core::time::Duration>)
    ensures
        r is Some <==> millisecond is Some,
{
    match millisecond {
        Some(ms) => Some(crate::engine::duration_from_millis(ms)),
        None => None,
    }
}

} // verus!

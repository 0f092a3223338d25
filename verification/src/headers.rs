//! The header-map adapter: a mutable multi-map from case-insensitive names
//! to ordered lists of values, wrapped in the boundary's handle discipline.
//!
//! Every call checks the null handle first and records the null-handle kind
//! on it; textual arguments follow the conversion discipline of the intake
//! functions; and mutation goes through the trusted engine wrappers, whose
//! contracts speak of the map's named contents.

use vstd::prelude::*;
use vstd::string::StringExecFns;

use crate::buffer::RString;
use crate::channel::{holds_kind, update_last_error, ErrorChannel};
use crate::engine;
use crate::engine::{hm_empty_view, hm_total, hm_view};
use crate::kinds::HttpErrorKind;
use crate::text::{
    ascii_lower, is_valid_header_name, is_valid_header_value, readable_header_value, to_rust_str,
    valid_header_name, valid_header_value, TextArg,
};

verus! {

/// The most names a map accepts through this boundary. The engine's table
/// never grows past 32768 slots; its adaptive-hashing growth path can ask
/// for a doubling once five times the name count reaches the table size, so
/// any bound under a fifth of the ceiling keeps every insertion provably
/// free of the capacity panic, whatever state the table is in.
pub const MAX_HEADER_KEYS: usize = 6552;

/// Construct a fresh, empty header map handle.
pub fn new_header_map() -> (r: Option<reqwest::header::HeaderMap>)
    ensures
        r matches Some(m) && hm_view(m) == hm_empty_view() && hm_total(m) == 0,
{
    Some(engine::hm_new())
}

/// Release a header map; a no-op on the null handle.
pub fn header_map_destroy(handle: Option<reqwest::header::HeaderMap>) {
    let _ = handle;
}

/// Store `value` under `key`, dropping all previous values under it.
///
/// The null handle is checked first and recorded; then the key is taken in
/// and must be a well-formed header name; then the value is taken in and
/// must be a well-formed header value; a map already at its name limit is
/// refused. Returns whether the pair was stored.
pub fn header_map_insert(
    ch: &mut ErrorChannel,
    handle: &mut Option<reqwest::header::HeaderMap>,
    key: &TextArg,
    value: &TextArg,
) -> (r: bool)
    ensures
        *final(handle) is Some <==> *old(handle) is Some,
        (*old(handle)) is None ==> (!r && holds_kind(*final(ch), HttpErrorKind::HttpHandleNull)),
        ((*old(handle)) is Some && key is Null) ==> (!r && *final(ch) == *old(ch) && *final(handle)
            == *old(handle)),
        ((*old(handle)) is Some && key is Malformed) ==> (!r && holds_kind(
            *final(ch),
            HttpErrorKind::CharConversion,
        ) && *final(handle) == *old(handle)),
        ((*old(handle)) is Some && key is Text && !valid_header_name(key->0@)) ==> (!r
            && holds_kind(*final(ch), HttpErrorKind::Other) && *final(handle) == *old(handle)),
        ((*old(handle)) is Some && key is Text && valid_header_name(key->0@) && value is Null)
            ==> (!r && *final(ch) == *old(ch) && *final(handle) == *old(handle)),
        ((*old(handle)) is Some && key is Text && valid_header_name(key->0@)
            && value is Malformed) ==> (!r && holds_kind(*final(ch), HttpErrorKind::CharConversion)
            && *final(handle) == *old(handle)),
        ((*old(handle)) is Some && key is Text && valid_header_name(key->0@) && value is Text
            && !valid_header_value(value->0@)) ==> (!r && holds_kind(
            *final(ch),
            HttpErrorKind::Other,
        ) && *final(handle) == *old(handle)),
        ((*old(handle)) is Some && key is Text && valid_header_name(key->0@) && value is Text
            && valid_header_value(value->0@) && hm_view((*old(handle))->0).dom().len() < 6552)
            ==> (r && *final(ch) == *old(ch) && (*final(handle)) is Some && hm_view(
            (*final(handle))->0,
        ) == hm_view((*old(handle))->0).insert(ascii_lower(key->0@), seq![value->0@])
            && hm_total((*final(handle))->0) + (if hm_view((*old(handle))->0).dom().contains(
            ascii_lower(key->0@),
        ) {
            hm_view((*old(handle))->0)[ascii_lower(key->0@)].len()
        } else {
            0
        }) == hm_total((*old(handle))->0) + 1),
        ((*old(handle)) is Some && key is Text && valid_header_name(key->0@) && value is Text
            && valid_header_value(value->0@) && hm_view((*old(handle))->0).dom().len() >= 6552)
            ==> (!r && holds_kind(*final(ch), HttpErrorKind::Other) && *final(handle)
            == *old(handle)),
{
    let m = match handle {
        Some(m) => m,
        None => {
            update_last_error(
                ch,
                HttpErrorKind::HttpHandleNull,
                String::from_str("header_map handle is null"),
            );
            return false;
        },
    };
    let k = match to_rust_str(ch, key, "parse key error") {
        Some(k) => k,
        None => {
            return false;
        },
    };
    if !is_valid_header_name(k.as_str()) {
        update_last_error(
            ch,
            HttpErrorKind::Other,
            String::from_str("key convert to header name failed"),
        );
        return false;
    }
    let v = match to_rust_str(ch, value, "parse value error") {
        Some(v) => v,
        None => {
            return false;
        },
    };
    if !is_valid_header_value(v.as_str()) {
        update_last_error(
            ch,
            HttpErrorKind::Other,
            String::from_str("value convert to header failed"),
        );
        return false;
    }
    if engine::hm_keys_len(m) >= MAX_HEADER_KEYS {
        update_last_error(ch, HttpErrorKind::Other, String::from_str("header map is full"));
        return false;
    }
    engine::hm_insert(m, k.as_str(), v.as_str());
    true
}

/// Push `value` to the end of the list under `key`, keeping the previous
/// values. The argument discipline is that of the insert call. Returns
/// whether the pair was stored.
pub fn header_map_append(
    ch: &mut ErrorChannel,
    handle: &mut Option<reqwest::header::HeaderMap>,
    key: &TextArg,
    value: &TextArg,
) -> (r: bool)
    ensures
        *final(handle) is Some <==> *old(handle) is Some,
        (*old(handle)) is None ==> (!r && holds_kind(*final(ch), HttpErrorKind::HttpHandleNull)),
        ((*old(handle)) is Some && key is Null) ==> (!r && *final(ch) == *old(ch) && *final(handle)
            == *old(handle)),
        ((*old(handle)) is Some && key is Malformed) ==> (!r && holds_kind(
            *final(ch),
            HttpErrorKind::CharConversion,
        ) && *final(handle) == *old(handle)),
        ((*old(handle)) is Some && key is Text && !valid_header_name(key->0@)) ==> (!r
            && holds_kind(*final(ch), HttpErrorKind::Other) && *final(handle) == *old(handle)),
        ((*old(handle)) is Some && key is Text && valid_header_name(key->0@) && value is Null)
            ==> (!r && *final(ch) == *old(ch) && *final(handle) == *old(handle)),
        ((*old(handle)) is Some && key is Text && valid_header_name(key->0@)
            && value is Malformed) ==> (!r && holds_kind(*final(ch), HttpErrorKind::CharConversion)
            && *final(handle) == *old(handle)),
        ((*old(handle)) is Some && key is Text && valid_header_name(key->0@) && value is Text
            && !valid_header_value(value->0@)) ==> (!r && holds_kind(
            *final(ch),
            HttpErrorKind::Other,
        ) && *final(handle) == *old(handle)),
        ((*old(handle)) is Some && key is Text && valid_header_name(key->0@) && value is Text
            && valid_header_value(value->0@) && hm_view((*old(handle))->0).dom().len() < 6552)
            ==> (r && *final(ch) == *old(ch) && (*final(handle)) is Some && hm_view(
            (*final(handle))->0,
        ) == hm_view((*old(handle))->0).insert(
            ascii_lower(key->0@),
            (if hm_view((*old(handle))->0).dom().contains(ascii_lower(key->0@)) {
                hm_view((*old(handle))->0)[ascii_lower(key->0@)]
            } else {
                Seq::<Seq<char>>::empty()
            }).push(value->0@),
        ) && hm_total((*final(handle))->0) == hm_total((*old(handle))->0) + 1),
        ((*old(handle)) is Some && key is Text && valid_header_name(key->0@) && value is Text
            && valid_header_value(value->0@) && hm_view((*old(handle))->0).dom().len() >= 6552)
            ==> (!r && holds_kind(*final(ch), HttpErrorKind::Other) && *final(handle)
            == *old(handle)),
{
    let m = match handle {
        Some(m) => m,
        None => {
            update_last_error(
                ch,
                HttpErrorKind::HttpHandleNull,
                String::from_str("header_map handle is null"),
            );
            return false;
        },
    };
    let k = match to_rust_str(ch, key, "parse key error") {
        Some(k) => k,
        None => {
            return false;
        },
    };
    if !is_valid_header_name(k.as_str()) {
        update_last_error(
            ch,
            HttpErrorKind::Other,
            String::from_str("key convert to header name failed"),
        );
        return false;
    }
    let v = match to_rust_str(ch, value, "parse value error") {
        Some(v) => v,
        None => {
            return false;
        },
    };
    if !is_valid_header_value(v.as_str()) {
        update_last_error(
            ch,
            HttpErrorKind::Other,
            String::from_str("value convert to header failed"),
        );
        return false;
    }
    if engine::hm_keys_len(m) >= MAX_HEADER_KEYS {
        update_last_error(ch, HttpErrorKind::Other, String::from_str("header map is full"));
        return false;
    }
    engine::hm_append(m, k.as_str(), v.as_str());
    true
}

/// Drop every value under `key`. Removing an absent or ill-formed key
/// leaves the map unchanged; the call still reports success, as the
/// boundary's remove always has.
pub fn header_map_remove(
    ch: &mut ErrorChannel,
    handle: &mut Option<reqwest::header::HeaderMap>,
    key: &TextArg,
) -> (r: bool)
    ensures
        *final(handle) is Some <==> *old(handle) is Some,
        (*old(handle)) is None ==> (!r && holds_kind(*final(ch), HttpErrorKind::HttpHandleNull)),
        ((*old(handle)) is Some && key is Null) ==> (!r && *final(ch) == *old(ch) && *final(handle)
            == *old(handle)),
        ((*old(handle)) is Some && key is Malformed) ==> (!r && holds_kind(
            *final(ch),
            HttpErrorKind::CharConversion,
        ) && *final(handle) == *old(handle)),
        ((*old(handle)) is Some && key is Text) ==> (r && *final(ch) == *old(ch)
            && (*final(handle)) is Some && hm_view((*final(handle))->0) == hm_view(
            (*old(handle))->0,
        ).remove(ascii_lower(key->0@)) && hm_total((*final(handle))->0) + (if hm_view(
            (*old(handle))->0,
        ).dom().contains(ascii_lower(key->0@)) {
            hm_view((*old(handle))->0)[ascii_lower(key->0@)].len()
        } else {
            0
        }) == hm_total((*old(handle))->0)),
{
    let m = match handle {
        Some(m) => m,
        None => {
            update_last_error(
                ch,
                HttpErrorKind::HttpHandleNull,
                String::from_str("header_map handle is null"),
            );
            return false;
        },
    };
    let k = match to_rust_str(ch, key, "parse key error") {
        Some(k) => k,
        None => {
            return false;
        },
    };
    engine::hm_remove(m, k.as_str());
    true
}

/// The first value under `key`, as an owned text buffer. Absent keys give
/// the null handle without a record; a value that does not read back as
/// text records the text-conversion kind.
pub fn header_map_get(
    ch: &mut ErrorChannel,
    handle: &Option<reqwest::header::HeaderMap>,
    key: &TextArg,
) -> (r: Option<RString>)
    ensures
        handle is None ==> (r is None && holds_kind(*final(ch), HttpErrorKind::HttpHandleNull)),
        (handle is Some && key is Null) ==> (r is None && *final(ch) == *old(ch)),
        (handle is Some && key is Malformed) ==> (r is None && holds_kind(
            *final(ch),
            HttpErrorKind::CharConversion,
        )),
        (handle is Some && key is Text && !hm_view(handle->0).dom().contains(ascii_lower(key->0@)))
            ==> (r is None && *final(ch) == *old(ch)),
        (handle is Some && key is Text && hm_view(handle->0).dom().contains(ascii_lower(key->0@))
            && readable_header_value(hm_view(handle->0)[ascii_lower(key->0@)][0])) ==> (*final(ch)
            == *old(ch) && r is Some && r->0@ == hm_view(handle->0)[ascii_lower(key->0@)][0]),
        (handle is Some && key is Text && hm_view(handle->0).dom().contains(ascii_lower(key->0@))
            && !readable_header_value(hm_view(handle->0)[ascii_lower(key->0@)][0])) ==> (
        r is None && holds_kind(*final(ch), HttpErrorKind::CharConversion)),
{
    let m = match handle {
        Some(m) => m,
        None => {
            update_last_error(
                ch,
                HttpErrorKind::HttpHandleNull,
                String::from_str("header_map handle is null"),
            );
            return None;
        },
    };
    let k = match to_rust_str(ch, key, "parse key error") {
        Some(k) => k,
        None => {
            return None;
        },
    };
    match engine::hm_get(m, k.as_str()) {
        Some(Ok(s)) => Some(RString::new(s)),
        Some(Err(())) => {
            update_last_error(
                ch,
                HttpErrorKind::CharConversion,
                String::from_str("header value is not readable text"),
            );
            None
        },
        None => None,
    }
}

/// Whether any value stands under `key`. An absent, ill-formed, null or
/// malformed key is simply not contained; only the null handle records.
pub fn header_map_contains_key(
    ch: &mut ErrorChannel,
    handle: &Option<reqwest::header::HeaderMap>,
    key: &TextArg,
) -> (r: bool)
    ensures
        handle is None ==> (!r && holds_kind(*final(ch), HttpErrorKind::HttpHandleNull)),
        (handle is Some && key is Null) ==> (!r && *final(ch) == *old(ch)),
        (handle is Some && key is Malformed) ==> (!r && holds_kind(
            *final(ch),
            HttpErrorKind::CharConversion,
        )),
        (handle is Some && key is Text) ==> (*final(ch) == *old(ch) && r == hm_view(
            handle->0,
        ).dom().contains(ascii_lower(key->0@))),
{
    let m = match handle {
        Some(m) => m,
        None => {
            update_last_error(
                ch,
                HttpErrorKind::HttpHandleNull,
                String::from_str("header_map handle is null"),
            );
            return false;
        },
    };
    let k = match to_rust_str(ch, key, "parse key error") {
        Some(k) => k,
        None => {
            return false;
        },
    };
    engine::hm_contains_key(m, k.as_str())
}

/// The total number of values stored in the map, over all names; at least
/// the number of names, zero exactly on the empty map, and the negative
/// sentinel on the null handle.
pub fn header_map_len(
    ch: &mut ErrorChannel,
    handle: &Option<reqwest::header::HeaderMap>,
) -> (r: i32)
    ensures
        handle is None ==> (r == -1 && holds_kind(*final(ch), HttpErrorKind::HttpHandleNull)),
        handle is Some ==> (*final(ch) == *old(ch) && r >= 0 && ((r == 0) <==> (hm_view(
            handle->0,
        ).dom() =~= Set::<Seq<char>>::empty()))),
        (handle is Some && hm_total(handle->0) <= 2147483647) ==> (r == hm_total(handle->0)
            && hm_view(handle->0).dom().len() <= r),
{
    match handle {
        Some(m) => {
            let n = engine::hm_len(m);
            if n > 2147483647 {
                2147483647
            } else {
                n as i32
            }
        },
        None => {
            update_last_error(
                ch,
                HttpErrorKind::HttpHandleNull,
                String::from_str("header_map handle is null"),
            );
            -1
        },
    }
}

/// The number of distinct names in the map; the negative sentinel on the
/// null handle.
pub fn header_map_keys_len(
    ch: &mut ErrorChannel,
    handle: &Option<reqwest::header::HeaderMap>,
) -> (r: i32)
    ensures
        handle is None ==> (r == -1 && holds_kind(*final(ch), HttpErrorKind::HttpHandleNull)),
        handle is Some ==> (*final(ch) == *old(ch) && r >= 0 && (hm_view(handle->0).dom().len()
            <= 2147483647 ==> r == hm_view(handle->0).dom().len())),
        (handle is Some && hm_total(handle->0) <= 2147483647) ==> r <= hm_total(handle->0),
{
    match handle {
        Some(m) => {
            let n = engine::hm_keys_len(m);
            if n > 2147483647 {
                2147483647
            } else {
                n as i32
            }
        },
        None => {
            update_last_error(
                ch,
                HttpErrorKind::HttpHandleNull,
                String::from_str("header_map handle is null"),
            );
            -1
        },
    }
}

/// Remove every entry, keeping the allocation; records on the null handle.
pub fn header_map_clear(ch: &mut ErrorChannel, handle: &mut Option<reqwest::header::HeaderMap>)
    ensures
        *final(handle) is Some <==> *old(handle) is Some,
        (*old(handle)) is None ==> holds_kind(*final(ch), HttpErrorKind::HttpHandleNull),
        (*old(handle)) is Some ==> (*final(ch) == *old(ch) && (*final(handle)) is Some && hm_view(
            (*final(handle))->0,
        ) == hm_empty_view() && hm_total((*final(handle))->0) == 0),
{
    match handle {
        Some(m) => {
            engine::hm_clear(m);
        },
        None => {
            update_last_error(
                ch,
                HttpErrorKind::HttpHandleNull,
                String::from_str("header_map handle is null"),
            );
        },
    }
}

/// How many values the map can hold without reallocating — an allocation
/// detail, stated no further; the negative sentinel on the null handle.
pub fn header_map_capacity(
    ch: &mut ErrorChannel,
    handle: &Option<reqwest::header::HeaderMap>,
) -> (r: i32)
    ensures
        handle is None ==> (r == -1 && holds_kind(*final(ch), HttpErrorKind::HttpHandleNull)),
        handle is Some ==> (*final(ch) == *old(ch) && r >= 0),
{
    match handle {
        Some(m) => {
            let n = engine::hm_capacity(m);
            if n > 2147483647 {
                2147483647
            } else {
                n as i32
            }
        },
        None => {
            update_last_error(
                ch,
                HttpErrorKind::HttpHandleNull,
                String::from_str("header_map handle is null"),
            );
            -1
        },
    }
}

/// Reserve room for `additional` more entries, leaving the contents
/// unchanged. A request beyond the boundary's limits is refused with a
/// record rather than passed to the engine, whose own refusal would not
/// return.
pub fn header_map_reserve(
    ch: &mut ErrorChannel,
    handle: &mut Option<reqwest::header::HeaderMap>,
    additional: u32,
)
    ensures
        *final(handle) is Some <==> *old(handle) is Some,
        (*old(handle)) is None ==> holds_kind(*final(ch), HttpErrorKind::HttpHandleNull),
        (*old(handle)) is Some ==> ((*final(handle)) is Some && hm_view((*final(handle))->0)
            == hm_view((*old(handle))->0) && hm_total((*final(handle))->0) == hm_total(
            (*old(handle))->0,
        )),
{
    match handle {
        Some(m) => {
            if additional > 8192 {
                update_last_error(
                    ch,
                    HttpErrorKind::Other,
                    String::from_str("reserve request is over the boundary's limit"),
                );
                return ;
            }
            if engine::hm_keys_len(m) >= MAX_HEADER_KEYS {
                update_last_error(ch, HttpErrorKind::Other, String::from_str("header map is full"));
                return ;
            }
            engine::hm_reserve(m, additional as usize);
        },
        None => {
            update_last_error(
                ch,
                HttpErrorKind::HttpHandleNull,
                String::from_str("header_map handle is null"),
            );
        },
    }
}

/// The values under `key`, joined with a semicolon between neighbours, as
/// the boundary renders value lists. Values that do not read back as text
/// are skipped; an absent key gives the empty text, not the null handle.
pub fn header_map_get_all(
    ch: &mut ErrorChannel,
    handle: &Option<reqwest::header::HeaderMap>,
    key: &TextArg,
) -> (r: Option<RString>)
    ensures
        handle is None ==> (r is None && holds_kind(*final(ch), HttpErrorKind::HttpHandleNull)),
        (handle is Some && key is Null) ==> (r is None && *final(ch) == *old(ch)),
        (handle is Some && key is Malformed) ==> (r is None && holds_kind(
            *final(ch),
            HttpErrorKind::CharConversion,
        )),
        (handle is Some && key is Text) ==> (*final(ch) == *old(ch) && r is Some),
        (handle is Some && key is Text && !hm_view(handle->0).dom().contains(ascii_lower(key->0@)))
            ==> (r is Some && r->0@ == Seq::<char>::empty()),
        (handle is Some && key is Text && hm_view(handle->0).dom().contains(ascii_lower(key->0@))
            && (forall|i: int|
            0 <= i < hm_view(handle->0)[ascii_lower(key->0@)].len() ==> readable_header_value(
                #[trigger] hm_view(handle->0)[ascii_lower(key->0@)][i],
            ))) ==> (r is Some && r->0@ == join_semi(hm_view(handle->0)[ascii_lower(key->0@)])),
{
    let m = match handle {
        Some(m) => m,
        None => {
            update_last_error(
                ch,
                HttpErrorKind::HttpHandleNull,
                String::from_str("header_map handle is null"),
            );
            return None;
        },
    };
    let k = match to_rust_str(ch, key, "parse key error") {
        Some(k) => k,
        None => {
            return None;
        },
    };
    let items = engine::hm_get_all(m, k.as_str());
    let ghost vals = if hm_view(*m).dom().contains(ascii_lower(k@)) {
        hm_view(*m)[ascii_lower(k@)]
    } else {
        Seq::<Seq<char>>::empty()
    };
    let joined = join_readable(&items, Ghost(vals));
    Some(RString::new(joined))
}

/// The values, joined with a semicolon between neighbours.
pub open spec fn join_semi(vs: Seq<Seq<char>>) -> Seq<char>
    decreases vs.len(),
{
    if vs.len() == 0 {
        Seq::empty()
    } else if vs.len() == 1 {
        vs[0]
    } else {
        join_semi(vs.drop_last()) + seq![';'] + vs[vs.len() - 1]
    }
}

/// Join the readable values with semicolons, skipping the unreadable ones;
/// exact when every value is readable.
fn join_readable(items: &Vec<Result<String, ()>>, Ghost(vals): Ghost<Seq<Seq<char>>>) -> (r:
    String)
    requires
        items@.len() == vals.len(),
        forall|i: int|
            0 <= i < items@.len() ==> ((#[trigger] items@[i]) matches Ok(s) ==> s@ == vals[i]),
    ensures
        (forall|i: int| 0 <= i < items@.len() ==> (#[trigger] items@[i]) is Ok) ==> r@ == join_semi(
            vals,
        ),
{
    let mut out = String::new();
    let mut first: bool = true;
    let mut i: usize = 0;
    proof {
        reveal_strlit(";");
    }
    while i < items.len()
        invariant
            items@.len() == vals.len(),
            i <= items@.len(),
            forall|j: int|
                0 <= j < items@.len() ==> ((#[trigger] items@[j]) matches Ok(s) ==> s@ == vals[j]),
            (forall|j: int| 0 <= j < i ==> (#[trigger] items@[j]) is Ok) ==> (out@ == join_semi(
                vals.take(i as int),
            ) && (first <==> i == 0)),
        decreases items@.len() - i,
    {
        match &items[i] {
            Ok(s) => {
                if !first {
                    out.append(";");
                }
                out.append(s.as_str());
                first = false;
                proof {
                    reveal_strlit(";");
                    if forall|j: int| 0 <= j < i + 1 ==> (#[trigger] items@[j]) is Ok {
                        assert(";"@ =~= seq![';']);
                        if i > 0 {
                            assert(vals.take(i as int + 1).drop_last() =~= vals.take(i as int));
                            assert(vals.take(i as int + 1)[i as int] == vals[i as int]);
                        } else {
                            assert(join_semi(vals.take(1)) == vals.take(1)[0]);
                        }
                    }
                }
            },
            Err(()) => {
            },
        }
        i = i + 1;
    }
    proof {
        if forall|j: int| 0 <= j < items@.len() ==> (#[trigger] items@[j]) is Ok {
            assert(vals.take(vals.len() as int) =~= vals);
        }
    }
    out
}

/// Every distinct name in the map, joined with semicolons, in the engine's
/// iteration order: some arrangement of the map's names, as many texts as
/// the map has names; the empty map renders as the empty text.
pub fn header_map_keys(
    ch: &mut ErrorChannel,
    handle: &Option<reqwest::header::HeaderMap>,
) -> (r: Option<RString>)
    ensures
        handle is None ==> (r is None && holds_kind(*final(ch), HttpErrorKind::HttpHandleNull)),
        handle is Some ==> (r is Some && *final(ch) == *old(ch) && (exists|
            names: Seq<Seq<char>>,
        |
            names.len() == hm_view(handle->0).dom().len() && (forall|i: int|
                0 <= i < names.len() ==> hm_view(handle->0).dom().contains(#[trigger] names[i]))
                && r->0@ == join_semi(names))),
        (handle is Some && hm_view(handle->0).dom() =~= Set::<Seq<char>>::empty()) ==> (r is Some
            && r->0@ == Seq::<char>::empty()),
{
    let m = match handle {
        Some(m) => m,
        None => {
            update_last_error(
                ch,
                HttpErrorKind::HttpHandleNull,
                String::from_str("header_map handle is null"),
            );
            return None;
        },
    };
    let names = engine::hm_keys(m);
    let out = join_texts(&names);
    proof {
        let nview = names@.map_values(|s: String| s@);
        assert(nview.len() == hm_view(*m).dom().len());
        assert(forall|i: int|
            0 <= i < nview.len() ==> hm_view(*m).dom().contains(#[trigger] nview[i]));
        if hm_view(*m).dom() =~= Set::<Seq<char>>::empty() {
            assert(nview =~= Seq::<Seq<char>>::empty());
        }
    }
    Some(RString::new(out))
}

/// Join a list of texts with a semicolon between neighbours.
fn join_texts(items: &Vec<String>) -> (r: String)
    ensures
        r@ == join_semi(items@.map_values(|s: String| s@)),
{
    let ghost vals = items@.map_values(|s: String| s@);
    let mut out = String::new();
    let mut i: usize = 0;
    while i < items.len()
        invariant
            vals == items@.map_values(|s: String| s@),
            i <= items@.len(),
            out@ == join_semi(vals.take(i as int)),
        decreases items@.len() - i,
    {
        if i > 0 {
            out.append(";");
        }
        out.append(items[i].as_str());
        proof {
            reveal_strlit(";");
            assert(";"@ =~= seq![';']);
            if i > 0 {
                assert(vals.take(i as int + 1).drop_last() =~= vals.take(i as int));
                assert(vals.take(i as int + 1)[i as int] == vals[i as int]);
            } else {
                assert(vals.take(1)[0] == vals[0]);
                assert(join_semi(vals.take(1)) == vals.take(1)[0]);
            }
        }
        i = i + 1;
    }
    proof {
        assert(vals.take(vals.len() as int) =~= vals);
    }
    out
}

/// Every value in the map, joined with semicolons, in the engine's
/// iteration order: exactly one text per stored value, with the opaque
/// marker standing in for a value that does not read back as text; the
/// empty map renders as the empty text.
pub fn header_map_values(
    ch: &mut ErrorChannel,
    handle: &Option<reqwest::header::HeaderMap>,
) -> (r: Option<RString>)
    ensures
        handle is None ==> (r is None && holds_kind(*final(ch), HttpErrorKind::HttpHandleNull)),
        handle is Some ==> (r is Some && *final(ch) == *old(ch) && (exists|
            texts: Seq<Seq<char>>,
        | texts.len() == hm_total(handle->0) && r->0@ == join_semi(texts))),
        (handle is Some && hm_total(handle->0) == 0) ==> (r is Some && r->0@ == Seq::<
            char,
        >::empty()),
{
    let m = match handle {
        Some(m) => m,
        None => {
            update_last_error(
                ch,
                HttpErrorKind::HttpHandleNull,
                String::from_str("header_map handle is null"),
            );
            return None;
        },
    };
    let values = engine::hm_values(m);
    let mut texts: Vec<String> = Vec::new();
    let mut i: usize = 0;
    while i < values.len()
        invariant
            i <= values@.len(),
            texts@.len() == i,
        decreases values@.len() - i,
    {
        match &values[i] {
            Ok(s) => texts.push(s.clone()),
            Err(()) => texts.push(String::from_str("opaque")),
        }
        i = i + 1;
    }
    let out = join_texts(&texts);
    proof {
        let tview = texts@.map_values(|s: String| s@);
        assert(tview.len() == hm_total(*m));
        if hm_total(*m) == 0 {
            assert(tview =~= Seq::<Seq<char>>::empty());
        }
    }
    Some(RString::new(out))
}

/// Law: inserting value `v` under a name and then reading all values under
/// that name gives exactly that one value; appending `v2` afterwards gives
/// the two values in insertion order. Stated over the map's named contents
/// and the boundary's joined rendering, which the insert, append and
/// read-all calls pin down; it holds for every starting map, whatever
/// already stood under the name.
pub proof fn lemma_header_round_trip(
    m: Map<Seq<char>, Seq<Seq<char>>>,
    k: Seq<char>,
    v: Seq<char>,
    v2: Seq<char>,
)
    ensures
        m.insert(k, seq![v])[k] == seq![v],
        join_semi(m.insert(k, seq![v])[k]) == v,
        m.insert(k, seq![v]).insert(k, m.insert(k, seq![v])[k].push(v2))[k] == seq![v, v2],
        join_semi(seq![v, v2]) == v + seq![';'] + v2,
{
    assert(seq![v].push(v2) =~= seq![v, v2]);
    assert(join_semi(seq![v]) == v);
    assert(seq![v, v2].drop_last() =~= seq![v]);
    assert(join_semi(seq![v, v2]) == join_semi(seq![v]) + seq![';'] + v2);
}

} // verus!

//! Flexbuffer maps of scalar values, as the streamer puts them on the wire.
//!
//! The encoding itself is the `flexbuffers` crate's: it is called here, behind the
//! trusted functions of this module, and named rather than restated.

use vstd::prelude::*;
use crate::layout::flex_lookup_safe;

verus! {

/// A scalar that the streamer stores under a key of a flexbuffer map.
pub enum FlexValue<'a> {
    U8(u8),
    U16(u16),
    U32(u32),
    I16(i16),
    Str(&'a str),
}

/// The mathematical value of a [`FlexValue`].
pub enum FlexValueView {
    U8(u8),
    U16(u16),
    U32(u32),
    I16(i16),
    Str(Seq<char>),
}

impl<'a> View for FlexValue<'a> {
    type V = FlexValueView;

    open spec fn view(&self) -> FlexValueView {
        match *self {
            FlexValue::U8(v) => FlexValueView::U8(v),
            FlexValue::U16(v) => FlexValueView::U16(v),
            FlexValue::U32(v) => FlexValueView::U32(v),
            FlexValue::I16(v) => FlexValueView::I16(v),
            FlexValue::Str(s) => FlexValueView::Str(s@),
        }
    }
}

/// One key and its value, in the order in which they are pushed onto the map.
pub struct FlexEntry<'a> {
    pub key: &'a str,
    pub value: FlexValue<'a>,
}

impl<'a> View for FlexEntry<'a> {
    type V = (Seq<char>, FlexValueView);

    open spec fn view(&self) -> (Seq<char>, FlexValueView) {
        (self.key@, self.value@)
    }
}

/// The abstract map of a list of entries.
pub open spec fn entries_view(entries: Seq<FlexEntry>) -> Seq<(Seq<char>, FlexValueView)> {
    entries.map_values(|e: FlexEntry| e@)
}

/// The bytes of the flexbuffer whose root is the map with these entries.
pub uninterp spec fn flex_map_bytes(entries: Seq<(Seq<char>, FlexValueView)>) -> Seq<u8>;

/// Whether `flexbuffers::Reader::get_root` accepts these bytes.
pub uninterp spec fn flex_root_parses(bytes: Seq<u8>) -> bool;

/// What a read of `key` in the root map gives back with `as_u32`.
pub uninterp spec fn flex_read_u32(bytes: Seq<u8>, key: Seq<char>) -> u32;

/// What a read of `key` in the root map gives back with `as_i32`.
pub uninterp spec fn flex_read_i32(bytes: Seq<u8>, key: Seq<char>) -> i32;

/// What a read of `key` in the root map gives back with `as_u16`.
pub uninterp spec fn flex_read_u16(bytes: Seq<u8>, key: Seq<char>) -> u16;

/// What a read of `key` in the root map gives back with `as_str`.
pub uninterp spec fn flex_read_str(bytes: Seq<u8>, key: Seq<char>) -> Seq<char>;

/// A key holds no NUL character (the builder writes keys as C strings).
pub open spec fn key_free_of_nul(key: Seq<char>) -> bool {
    forall|i: int| 0 <= i < key.len() ==> key[i] != '\0'
}

/// The builder accepts these entries: no two share a key, and no key holds a NUL.
pub open spec fn map_keys_valid(entries: Seq<(Seq<char>, FlexValueView)>) -> bool {
    &&& forall|i: int, j: int|
        0 <= i < j < entries.len() ==> #[trigger] entries[i].0 != #[trigger] entries[j].0
    &&& forall|i: int| 0 <= i < entries.len() ==> key_free_of_nul(#[trigger] entries[i].0)
}

/// Some entry carries this key.
pub open spec fn has_key(entries: Seq<(Seq<char>, FlexValueView)>, key: Seq<char>) -> bool {
    exists|i: int| 0 <= i < entries.len() && #[trigger] entries[i].0 == key
}

/// The reads that give back a value stored under `key`.
pub open spec fn reads_back(bytes: Seq<u8>, key: Seq<char>, value: FlexValueView) -> bool {
    match value {
        FlexValueView::U8(v) => flex_read_u32(bytes, key) == v as u32 && flex_read_u16(bytes, key)
            == v as u16,
        FlexValueView::U16(v) => flex_read_u32(bytes, key) == v as u32 && flex_read_u16(bytes, key)
            == v,
        FlexValueView::U32(v) => flex_read_u32(bytes, key) == v,
        FlexValueView::I16(v) => flex_read_i32(bytes, key) == v as i32,
        FlexValueView::Str(s) => flex_read_str(bytes, key) == s,
    }
}

/// The reads of a key that the map does not hold: each gives its type's default.
pub open spec fn reads_absent(bytes: Seq<u8>, key: Seq<char>) -> bool {
    &&& flex_read_u32(bytes, key) == 0
    &&& flex_read_i32(bytes, key) == 0
    &&& flex_read_u16(bytes, key) == 0
    &&& flex_read_str(bytes, key) == Seq::<char>::empty()
}

/// Builds a flexbuffer whose root is a map of `entries`, with
/// `flexbuffers::Builder::start_map`, `MapBuilder::push` and `MapBuilder::end_map`, and
/// returns a copy of `Builder::view`.
///
/// Trusted: the bytes are named by `flex_map_bytes`; the crate's reader finds a root in
/// them; the offsets and lengths that the builder writes point inside the buffer, which
/// an allocation keeps within `usize`, so a lookup of any key passes `flex_lookup_safe`;
/// and for each entry its `as_u32`/`as_u16` (unsigned entries), `as_i32` (signed
/// entries) or `as_str` (strings) reads give back the pushed value, while a key that
/// is not in the map reads as 0 or as the empty string (a missing key yields a Null
/// reader). Duplicate keys panic in the builder and keys with NUL panic in debug builds,
/// so both are excluded.
#[verifier::external_body]
pub(crate) fn flex_encode_map(entries: &Vec<FlexEntry>) -> (bytes: Vec<u8>)
    requires
        map_keys_valid(entries_view(entries@)),
    ensures
        bytes@ == flex_map_bytes(entries_view(entries@)),
        flex_root_parses(bytes@),
        forall|key: Seq<char>| #[trigger] flex_lookup_safe(bytes@, key),
        forall|i: int|
            0 <= i < entries@.len() ==> reads_back(
                bytes@,
                #[trigger] entries_view(entries@)[i].0,
                entries_view(entries@)[i].1,
            ),
        forall|key: Seq<char>|
            key_free_of_nul(key) && !has_key(entries_view(entries@), key) ==> #[trigger] reads_absent(
                bytes@,
                key,
            ),
{
    let mut builder = flexbuffers::Builder::default();
    let mut map = builder.start_map();
    for entry in entries.iter() {
        match entry.value {
            FlexValue::U8(v) => map.push(entry.key, v),
            FlexValue::U16(v) => map.push(entry.key, v),
            FlexValue::U32(v) => map.push(entry.key, v),
            FlexValue::I16(v) => map.push(entry.key, v),
            FlexValue::Str(s) => map.push(entry.key, s),
        }
    }
    map.end_map();
    builder.view().to_vec()
}

/// Calls `flexbuffers::Reader::get_root` and tells whether it succeeded.
///
/// Trusted: the answer is named by `flex_root_parses` (a function of the bytes alone).
#[verifier::external_body]
pub(crate) fn flex_has_root(bytes: &[u8]) -> (ok: bool)
    ensures
        ok == flex_root_parses(bytes@),
{
    flexbuffers::Reader::get_root(bytes).is_ok()
}

/// Reads `key` of the root map with `Reader::get_root`, `as_map`, `idx` and `as_u32`.
///
/// Trusted: the result is named by `flex_read_u32`. The reader converts offsets and
/// lengths read from the buffer to `usize` and indexes the buffer with them; where
/// `flex_lookup_safe` holds for the key, each of them keeps its value, every index lies
/// in the buffer and no address sum overflows, so the lookup returns.
#[verifier::external_body]
pub(crate) fn flex_field_u32(bytes: &[u8], key: &str) -> (v: u32)
    requires
        flex_root_parses(bytes@),
        flex_lookup_safe(bytes@, key@),
    ensures
        v == flex_read_u32(bytes@, key@),
{
    match flexbuffers::Reader::get_root(bytes) {
        Ok(root) => root.as_map().idx(key).as_u32(),
        Err(_) => 0,
    }
}

/// Reads `key` of the root map with `Reader::get_root`, `as_map`, `idx` and `as_i32`.
///
/// Trusted: the result is named by `flex_read_i32`. As for [`flex_field_u32`], the
/// lookup returns where `flex_lookup_safe` holds for the key.
#[verifier::external_body]
pub(crate) fn flex_field_i32(bytes: &[u8], key: &str) -> (v: i32)
    requires
        flex_root_parses(bytes@),
        flex_lookup_safe(bytes@, key@),
    ensures
        v == flex_read_i32(bytes@, key@),
{
    match flexbuffers::Reader::get_root(bytes) {
        Ok(root) => root.as_map().idx(key).as_i32(),
        Err(_) => 0,
    }
}

/// Reads `key` of the root map with `Reader::get_root`, `as_map`, `idx` and `as_u16`.
///
/// Trusted: the result is named by `flex_read_u16`. As for [`flex_field_u32`], the
/// lookup returns where `flex_lookup_safe` holds for the key.
#[verifier::external_body]
pub(crate) fn flex_field_u16(bytes: &[u8], key: &str) -> (v: u16)
    requires
        flex_root_parses(bytes@),
        flex_lookup_safe(bytes@, key@),
    ensures
        v == flex_read_u16(bytes@, key@),
{
    match flexbuffers::Reader::get_root(bytes) {
        Ok(root) => root.as_map().idx(key).as_u16(),
        Err(_) => 0,
    }
}

/// Reads `key` of the root map with `Reader::get_root`, `as_map`, `idx` and `as_str`,
/// and copies the string.
///
/// Trusted: the result is named by `flex_read_str`. As for [`flex_field_u32`], the
/// lookup returns where `flex_lookup_safe` holds for the key.
#[verifier::external_body]
pub(crate) fn flex_field_str(bytes: &[u8], key: &str) -> (s: String)
    requires
        flex_root_parses(bytes@),
        flex_lookup_safe(bytes@, key@),
    ensures
        s@ == flex_read_str(bytes@, key@),
{
    match flexbuffers::Reader::get_root(bytes) {
        Ok(root) => root.as_map().idx(key).as_str().to_string(),
        Err(_) => String::new(),
    }
}

} // verus!

//! The header fields of a flexbuffer map that a lookup by key follows.
//!
//! A lookup in the root map of a flexbuffer reads offsets, widths and lengths from the
//! buffer itself before it reads any value. This module checks, on the bytes and the
//! key alone, that every slot such a lookup converts to a `usize` keeps its value, that
//! every address it indexes at stays inside the buffer, and that the end of a string it
//! may read does not overflow an address.
//!
//! The bound on a slot is the target's own `usize::MAX`: on a 32-bit target an offset or
//! a length that needs more bits is refused, since the reader would cut it; on a 64-bit
//! target every slot of at most eight bytes fits. Of the map's values, only those that
//! the lookup may stop at, the ones whose key may be the one looked up, are checked: the
//! values of other keys are never read.

use vstd::prelude::*;
use vstd::utf8::encode_utf8;

verus! {

/// 256 to the power `k`.
pub open spec fn pow256(k: nat) -> int
    decreases k,
{
    if k == 0 {
        1
    } else {
        256 * pow256((k - 1) as nat)
    }
}

/// The little-endian unsigned value of the `k` bytes at `addr`.
pub open spec fn le_value(b: Seq<u8>, addr: int, k: nat) -> int
    decreases k,
{
    if k == 0 {
        0
    } else {
        b[addr] as int + 256 * le_value(b, addr + 1, (k - 1) as nat)
    }
}

/// The slot of `k` bytes at `addr`, read as the reader reads an offset or a length: its
/// little-endian value where the slot lies in the buffer, else 0.
pub open spec fn read_slot(b: Seq<u8>, addr: int, k: int) -> int {
    if 0 <= addr && 0 <= k && addr + k <= b.len() {
        le_value(b, addr, k as nat)
    } else {
        0
    }
}

/// The byte width that the low two bits of a packed type byte give.
pub open spec fn width_of(packed: u8) -> int {
    if packed % 4 == 0 {
        1
    } else if packed % 4 == 1 {
        2
    } else if packed % 4 == 2 {
        4
    } else {
        8
    }
}

/// The type number of strings.
pub open spec fn string_type() -> int {
    5
}

/// The type number of maps.
pub open spec fn map_type() -> int {
    9
}

/// A byte width that a map's keys may have.
pub open spec fn valid_width(k: int) -> bool {
    k == 1 || k == 2 || k == 4 || k == 8
}

/// A value that a `usize` of this target holds: the reader converts every slot it reads
/// to a `usize`, which keeps exactly these values.
pub open spec fn fits_usize(v: int) -> bool {
    0 <= v <= usize::MAX
}

/// The bytes at `addr`, up to the first NUL or the end of the buffer, may equal `kb`:
/// they begin with `kb`, and a NUL or the end follows it.
pub open spec fn key_at(b: Seq<u8>, addr: int, kb: Seq<u8>) -> bool {
    let end = addr + kb.len();
    &&& 0 <= addr
    &&& end <= b.len()
    &&& forall|j: int| 0 <= j < kb.len() ==> b[addr + j] == #[trigger] kb[j]
    &&& (end == b.len() || b[end] == 0)
}

/// The `i`-th key of a keys vector at `ka`, of width `kw`, may be the one a lookup of `kb`
/// stops at: its offset does not fit in a `usize` (the reader would cut it), or it leads
/// to the bytes `kb`.
pub open spec fn entry_may_match(b: Seq<u8>, ka: int, kw: int, i: int, kb: Seq<u8>) -> bool {
    let koa = ka + kw * i;
    let ks = read_slot(b, koa, kw);
    !fits_usize(ks) || (ks <= koa && key_at(b, koa - ks, kb))
}

/// The `i`-th value of a map with values at `a`, of width `w`, and `len` entries reads
/// without an overflow: if it is a string, its offset fits in a `usize`, and so does the
/// address of its end.
pub open spec fn value_safe(b: Seq<u8>, a: int, w: int, len: int, i: int) -> bool {
    let n = b.len() as int;
    let ta = a + w * len + i;
    if ta >= n {
        true
    } else {
        let tb = b[ta];
        let vt = tb as int / 4;
        if vt != string_type() {
            true
        } else {
            let da = a + w * i;
            let voff = read_slot(b, da, w);
            if !fits_usize(voff) {
                false
            } else if voff > da {
                true
            } else {
                let addr = da - voff;
                let vw = width_of(tb);
                let slen = if addr >= vw {
                    read_slot(b, addr - vw, vw)
                } else {
                    0
                };
                fits_usize(addr + slen)
            }
        }
    }
}

/// The map whose values start at `a`, with width `w`, as a lookup of the key bytes `kb`
/// reads it: the slots of its header fit in a `usize`, its keys vector and its values
/// lie in the buffer, and each value that the lookup may stop at reads safely.
pub open spec fn map_safe(b: Seq<u8>, a: int, w: int, kb: Seq<u8>) -> bool {
    let n = b.len() as int;
    if 3 * w >= a {
        true
    } else {
        let kw = read_slot(b, a - 2 * w, w);
        let koa = a - 3 * w;
        let koff = read_slot(b, koa, w);
        let len = read_slot(b, a - w, w);
        if !fits_usize(kw) {
            false
        } else if !valid_width(kw) {
            true
        } else if !fits_usize(koff) {
            false
        } else if koff > koa {
            true
        } else {
            let ka = koa - koff;
            &&& fits_usize(len)
            &&& ka + kw * len <= n
            &&& a + w * len <= n
            &&& forall|i: int|
                0 <= i < len && #[trigger] entry_may_match(b, ka, kw, i, kb) ==> value_safe(
                    b,
                    a,
                    w,
                    len,
                    i,
                )
        }
    }
}

/// A lookup of `key` in the root map of these bytes returns: where the root is a map,
/// every offset and length on the way fits in a `usize`, every address it indexes at
/// lies in the buffer, and no address sum overflows.
pub open spec fn flex_lookup_safe(b: Seq<u8>, key: Seq<char>) -> bool {
    let n = b.len() as int;
    if n < 3 {
        true
    } else {
        let rw = b[n - 1] as int;
        let packed = b[n - 2];
        let a0 = n - 2 - rw;
        if !valid_width(rw) || packed as int / 4 != map_type() || a0 < 0 {
            true
        } else {
            let off = read_slot(b, a0, rw);
            if !fits_usize(off) {
                false
            } else {
                off > a0 || map_safe(b, a0 - off, width_of(packed), encode_utf8(key))
            }
        }
    }
}

proof fn lemma_le_value_bound(b: Seq<u8>, addr: int, k: nat)
    ensures
        0 <= le_value(b, addr, k) < pow256(k),
    decreases k,
{
    if k > 0 {
        lemma_le_value_bound(b, addr + 1, (k - 1) as nat);
    }
}

fn le_value_exec(b: &[u8], addr: usize, k: usize) -> (v: u128)
    requires
        addr + k <= b@.len(),
        k <= 8,
    ensures
        v == le_value(b@, addr as int, k as nat),
    decreases k,
{
    if k == 0 {
        0
    } else {
        let n = b.len();
        let rest = le_value_exec(b, addr + 1, k - 1);
        proof {
            lemma_le_value_bound(b@, addr + 1, (k - 1) as nat);
            reveal_with_fuel(pow256, 8);
            assert(pow256(7) == 0x100000000000000);
            assert(pow256((k - 1) as nat) <= pow256(7)) by {
                lemma_pow256_monotone((k - 1) as nat, 7);
            }
        }
        b[addr] as u128 + 256 * rest
    }
}

proof fn lemma_pow256_monotone(i: nat, j: nat)
    requires
        i <= j,
    ensures
        pow256(i) <= pow256(j),
    decreases j,
{
    if i < j {
        lemma_pow256_monotone(i, (j - 1) as nat);
        lemma_pow256_positive((j - 1) as nat);
    }
}

proof fn lemma_pow256_positive(k: nat)
    ensures
        pow256(k) >= 1,
    decreases k,
{
    if k > 0 {
        lemma_pow256_positive((k - 1) as nat);
    }
}

/// The largest value a slot of at most eight bytes holds, plus one.
pub open spec fn slot_limit() -> int {
    0x1_0000_0000_0000_0000
}

fn read_slot_exec(b: &[u8], addr: u128, k: u128) -> (v: u128)
    requires
        valid_width(k as int),
    ensures
        v == read_slot(b@, addr as int, k as int),
        v < slot_limit(),
{
    let n = b.len() as u128;
    if addr <= n && k <= n - addr {
        let v = le_value_exec(b, addr as usize, k as usize);
        proof {
            lemma_le_value_bound(b@, addr as int, k as nat);
            lemma_pow256_monotone(k as nat, 8);
            reveal_with_fuel(pow256, 9);
            assert(pow256(8) == slot_limit());
        }
        v
    } else {
        0
    }
}

fn width_of_exec(packed: u8) -> (w: u128)
    ensures
        w == width_of(packed),
{
    if packed % 4 == 0 {
        1
    } else if packed % 4 == 1 {
        2
    } else if packed % 4 == 2 {
        4
    } else {
        8
    }
}

fn usize_max() -> (m: u128)
    ensures
        m == usize::MAX,
{
    usize::MAX as u128
}

fn key_is_at(b: &[u8], addr: u128, kb: &[u8]) -> (ok: bool)
    ensures
        ok == key_at(b@, addr as int, kb@),
{
    let n = b.len() as u128;
    let m = kb.len() as u128;
    if m > n || addr > n - m {
        return false;
    }
    let start = addr as usize;
    let mut j: usize = 0;
    while j < kb.len()
        invariant
            0 <= j <= kb@.len(),
            start == addr,
            start + kb@.len() <= b@.len(),
            b@.len() <= usize::MAX,
            forall|t: int| 0 <= t < j ==> b@[addr + t] == #[trigger] kb@[t],
        decreases kb@.len() - j,
    {
        if b[start + j] != kb[j] {
            return false;
        }
        j = j + 1;
    }
    let end = start + kb.len();
    end == b.len() || b[end] == 0
}

fn entry_may_match_exec(b: &[u8], ka: u128, kw: u128, i: u128, kb: &[u8]) -> (ok: bool)
    requires
        valid_width(kw as int),
        ka + kw * i < b@.len(),
    ensures
        ok == entry_may_match(b@, ka as int, kw as int, i as int, kb@),
{
    let n = b.len();
    assert(kw * i < n);
    let koa = ka + kw * i;
    let ks = read_slot_exec(b, koa, kw);
    if ks > usize_max() {
        return true;
    }
    ks <= koa && key_is_at(b, koa - ks, kb)
}

fn value_is_safe(b: &[u8], a: u128, w: u128, len: u128, i: u128) -> (ok: bool)
    requires
        valid_width(w as int),
        a + w * len <= b@.len(),
        i < len,
    ensures
        ok == value_safe(b@, a as int, w as int, len as int, i as int),
{
    let n = b.len() as u128;
    proof {
        assert(w * i < w * len) by (nonlinear_arith)
            requires
                w >= 1,
                i < len,
        ;
    }
    let ta = a + w * len + i;
    if ta >= n {
        return true;
    }
    let tb = b[ta as usize];
    let vt = (tb / 4) as u128;
    if vt != 5 {
        return true;
    }
    let da = a + w * i;
    let voff = read_slot_exec(b, da, w);
    if voff > usize_max() {
        return false;
    }
    if voff > da {
        return true;
    }
    let addr = da - voff;
    let vw = width_of_exec(tb);
    let slen = if addr >= vw {
        read_slot_exec(b, addr - vw, vw)
    } else {
        0
    };
    addr + slen <= usize_max()
}

fn map_is_safe(b: &[u8], a: u128, w: u128, kb: &[u8]) -> (ok: bool)
    requires
        valid_width(w as int),
        a < b@.len(),
    ensures
        ok == map_safe(b@, a as int, w as int, kb@),
{
    let n = b.len() as u128;
    if 3 * w >= a {
        return true;
    }
    let kw = read_slot_exec(b, a - 2 * w, w);
    let koa = a - 3 * w;
    let koff = read_slot_exec(b, koa, w);
    let len = read_slot_exec(b, a - w, w);
    if kw > usize_max() {
        return false;
    }
    if !(kw == 1 || kw == 2 || kw == 4 || kw == 8) {
        return true;
    }
    if koff > usize_max() {
        return false;
    }
    if koff > koa {
        return true;
    }
    let ka = koa - koff;
    proof {
        assert(kw * len <= 8 * len) by (nonlinear_arith)
            requires
                kw <= 8,
        ;
        assert(w * len <= 8 * len) by (nonlinear_arith)
            requires
                w <= 8,
        ;
    }
    if len > usize_max() || ka + kw * len > n || a + w * len > n {
        return false;
    }
    let mut i: u128 = 0;
    while i < len
        invariant
            0 <= i <= len,
            valid_width(w as int),
            valid_width(kw as int),
            ka + kw * len <= b@.len(),
            a + w * len <= b@.len(),
            forall|j: int|
                0 <= j < i && #[trigger] entry_may_match(b@, ka as int, kw as int, j, kb@)
                    ==> value_safe(b@, a as int, w as int, len as int, j),
            map_safe(b@, a as int, w as int, kb@) <==> (forall|j: int|
                0 <= j < len && #[trigger] entry_may_match(b@, ka as int, kw as int, j, kb@)
                    ==> value_safe(b@, a as int, w as int, len as int, j)),
        decreases len - i,
    {
        proof {
            assert(kw * i + kw <= kw * len) by (nonlinear_arith)
                requires
                    i < len,
                    kw >= 1,
            ;
        }
        if entry_may_match_exec(b, ka, kw, i, kb) && !value_is_safe(b, a, w, len, i) {
            return false;
        }
        i = i + 1;
    }
    true
}

/// Checks [`flex_lookup_safe`] on the bytes, for a lookup of `key`.
pub fn flex_lookup_is_safe(b: &[u8], key: &str) -> (ok: bool)
    ensures
        ok == flex_lookup_safe(b@, key@),
{
    let kb = key.as_bytes();
    let n = b.len() as u128;
    if n < 3 {
        return true;
    }
    let rw = b[(n - 1) as usize] as u128;
    let packed = b[(n - 2) as usize];
    if !(rw == 1 || rw == 2 || rw == 4 || rw == 8) || packed / 4 != 9 || n - 2 < rw {
        return true;
    }
    let a0 = n - 2 - rw;
    let off = read_slot_exec(b, a0, rw);
    if off > usize_max() {
        return false;
    }
    if off > a0 {
        return true;
    }
    map_is_safe(b, a0 - off, width_of_exec(packed), kb)
}

} // verus!

//! Native permission gateway.
//!
//! On desktop the permission commands report every declared permission as
//! `granted` so the frontend can simply continue; on Android the statuses come
//! from the platform and are passed through.

use vstd::prelude::*;
use vstd::string::*;
use crate::text::{owned, same_text};

verus! {

/// Permission alias → `granted` | `denied` | `prompt`, one entry per alias.
pub type PermissionState = Vec<(String, String)>;

/// The permissions the client declares.
pub const DECLARED: [&'static str; 4] = ["camera", "microphone", "notifications", "storage"];

/// The distinct aliases among the first `k` of `keys`, in order of first
/// appearance.
pub open spec fn distinct_prefix(keys: Seq<Seq<char>>, k: int) -> Seq<Seq<char>>
    decreases k,
{
    if k <= 0 {
        Seq::empty()
    } else {
        let p = distinct_prefix(keys, k - 1);
        if p.contains(keys[k - 1]) {
            p
        } else {
            p.push(keys[k - 1])
        }
    }
}

pub open spec fn key_views(keys: Seq<&str>) -> Seq<Seq<char>> {
    keys.map_values(|k: &str| k@)
}

pub open spec fn entry_keys(r: Seq<(String, String)>) -> Seq<Seq<char>> {
    r.map_values(|e: (String, String)| e.0@)
}

/// Every alias among `keys` reported as `granted`: one entry per distinct
/// alias, in order of first appearance.
pub fn granted(keys: &[&str]) -> (r: PermissionState)
    ensures
        entry_keys(r@) == distinct_prefix(key_views(keys@), keys@.len() as int),
        forall|i: int| 0 <= i < r@.len() ==> (#[trigger] r@[i]).1@ == "granted"@,
{
    let mut out: PermissionState = Vec::new();
    let n = keys.len();
    let mut j: usize = 0;
    let ghost kv = key_views(keys@);
    while j < n
        invariant
            n == keys@.len(),
            kv == key_views(keys@),
            j <= n,
            entry_keys(out@) == distinct_prefix(kv, j as int),
            forall|i: int| 0 <= i < out@.len() ==> (#[trigger] out@[i]).1@ == "granted"@,
        decreases n - j,
    {
        let key = keys[j];
        assert(kv[j as int] == key@);
        let m = out.len();
        let mut i: usize = 0;
        let mut present = false;
        while i < m
            invariant
                m == out@.len(),
                i <= m,
                present == entry_keys(out@).subrange(0, i as int).contains(key@),
            decreases m - i,
        {
            let ghost before = entry_keys(out@).subrange(0, i as int);
            assert(entry_keys(out@).subrange(0, i + 1) =~= before.push(out@[i as int].0@));
            let hit = same_text(out[i].0.as_str(), key);
            proof {
                let x = out@[i as int].0@;
                if before.push(x).contains(key@) {
                    let w = choose|w: int| 0 <= w < before.len() + 1 && before.push(x)[w] == key@;
                    if w < before.len() {
                        assert(before[w] == key@);
                    }
                }
                if before.contains(key@) {
                    let w = choose|w: int| 0 <= w < before.len() && before[w] == key@;
                    assert(before.push(x)[w] == key@);
                }
                if x == key@ {
                    assert(before.push(x)[before.len() as int] == key@);
                }
            }
            if hit {
                present = true;
            }
            i = i + 1;
        }
        assert(entry_keys(out@).subrange(0, m as int) =~= entry_keys(out@));
        if !present {
            let ghost before = out@;
            out.push((owned(key), owned("granted")));
            assert(entry_keys(out@) =~= entry_keys(before).push(key@));
        }
        j = j + 1;
    }
    out
}

/// The permission report names each requested alias exactly once and nothing
/// else.
pub proof fn granted_lists_each_alias_once(keys: Seq<Seq<char>>, k: int)
    requires
        0 <= k <= keys.len(),
    ensures
        forall|a: int, b: int|
            0 <= a < b < distinct_prefix(keys, k).len() ==> (#[trigger] distinct_prefix(keys, k)[a]) != (
            #[trigger] distinct_prefix(keys, k)[b]),
        forall|x: Seq<char>| #[trigger] distinct_prefix(keys, k).contains(x) <==> keys.take(k).contains(x),
    decreases k,
{
    if k > 0 {
        granted_lists_each_alias_once(keys, k - 1);
        let p = distinct_prefix(keys, k - 1);
        assert(keys.take(k) =~= keys.take(k - 1).push(keys[k - 1]));
        assert forall|x: Seq<char>| #[trigger] distinct_prefix(keys, k).contains(x) <==> keys.take(k).contains(x) by {
            if keys.take(k).contains(x) {
                let w = choose|w: int| 0 <= w < k && #[trigger] keys.take(k)[w] == x;
                if w < k - 1 {
                    assert(keys.take(k - 1)[w] == x);
                } else {
                    assert(x == keys[k - 1]);
                }
            }
            if p.contains(x) {
                let w = choose|w: int| 0 <= w < p.len() && p[w] == x;
                assert(distinct_prefix(keys, k).contains(x)) by {
                    if !p.contains(keys[k - 1]) {
                        assert(p.push(keys[k - 1])[w] == x);
                    }
                }
            }
            if !p.contains(keys[k - 1]) && x == keys[k - 1] {
                assert(p.push(keys[k - 1])[p.len() as int] == x);
            }
            if distinct_prefix(keys, k).contains(x) && !p.contains(x) {
                let w = choose|w: int| 0 <= w < distinct_prefix(keys, k).len() && distinct_prefix(keys, k)[w] == x;
                assert(x == keys[k - 1]);
                assert(keys.take(k)[k - 1] == x);
            }
            if keys.take(k - 1).contains(x) {
                let w = choose|w: int| 0 <= w < k - 1 && #[trigger] keys.take(k - 1)[w] == x;
                assert(keys.take(k)[w] == x);
            }
        }
    } else {
        assert(keys.take(0) =~= Seq::<Seq<char>>::empty());
    }
}

} // verus!

use vstd::prelude::*;

verus! {

/// The position of an `f64`, given by its bit pattern, in the total order of
/// `f64::total_cmp`: a value with the sign bit clear keeps its bits as a
/// non-negative integer; one with the sign bit set is mapped below zero, with
/// its magnitude bits reversed.
pub open spec fn total_key(bits: u64) -> int {
    if bits < 0x8000_0000_0000_0000 {
        bits as int
    } else {
        0x7FFF_FFFF_FFFF_FFFF - bits as int
    }
}

/// Whether the value with bit pattern `t` lies strictly between `lo` and `hi`
/// in the total order.
pub open spec fn in_window(t: u64, lo: u64, hi: u64) -> bool {
    total_key(lo) < total_key(t) < total_key(hi)
}

/// The key of `f64::total_cmp` for the value with bit pattern `bits`: two values
/// compare as their keys do.
pub fn total_order_key(bits: u64) -> (k: i64)
    ensures
        k == total_key(bits),
{
    if bits < 0x8000_0000_0000_0000 {
        bits as i64
    } else {
        let magnitude: u64 = bits - 0x8000_0000_0000_0000;
        -1 - (magnitude as i64)
    }
}

/// Picks the intersection parameter of a ray with a surface: the nearer root if
/// it lies strictly inside the acceptance window `(t_min, t_max)`, else the
/// farther root if it does, else none. All values are `f64` bit patterns.
pub fn select_root(near: u64, far: u64, t_min: u64, t_max: u64) -> (r: Option<u64>)
    ensures
        r == (if in_window(near, t_min, t_max) {
            Some(near)
        } else if in_window(far, t_min, t_max) {
            Some(far)
        } else {
            None
        }),
{
    let lo: i64 = total_order_key(t_min);
    let hi: i64 = total_order_key(t_max);
    let n: i64 = total_order_key(near);
    if lo < n && n < hi {
        return Some(near);
    }
    let f: i64 = total_order_key(far);
    if lo < f && f < hi {
        Some(far)
    } else {
        None
    }
}

/// The index of the nearest hit: among the entries that hold an intersection
/// parameter (as `f64` bits), the first one whose parameter is smallest in the
/// total order; none if no entry holds one.
pub fn nearest_hit(hits: &Vec<Option<u64>>) -> (r: Option<usize>)
    ensures
        r is None <==> (forall|j: int| 0 <= j < hits@.len() ==> #[trigger] hits@[j] is None),
        r matches Some(i) ==> {
            &&& i < hits@.len()
            &&& hits@[i as int] is Some
            &&& forall|j: int|
                0 <= j < hits@.len() && #[trigger] hits@[j] is Some ==> total_key(
                    hits@[i as int]->0,
                ) <= total_key(hits@[j]->0)
            &&& forall|j: int|
                0 <= j < i && #[trigger] hits@[j] is Some ==> total_key(hits@[i as int]->0)
                    < total_key(hits@[j]->0)
        },
{
    let mut best: Option<usize> = None;
    let mut best_key: i64 = 0;
    let mut j: usize = 0;
    while j < hits.len()
        invariant
            j <= hits@.len(),
            best is None <==> (forall|k: int| 0 <= k < j ==> #[trigger] hits@[k] is None),
            best matches Some(i) ==> {
                &&& i < j
                &&& hits@[i as int] is Some
                &&& best_key == total_key(hits@[i as int]->0)
                &&& forall|k: int|
                    0 <= k < j && #[trigger] hits@[k] is Some ==> best_key <= total_key(
                        hits@[k]->0,
                    )
                &&& forall|k: int|
                    0 <= k < i && #[trigger] hits@[k] is Some ==> best_key < total_key(
                        hits@[k]->0,
                    )
            },
        decreases hits@.len() - j,
    {
        if let Some(bits) = hits[j] {
            let key: i64 = total_order_key(bits);
            match best {
                None => {
                    best = Some(j);
                    best_key = key;
                },
                Some(_) => {
                    if key < best_key {
                        best = Some(j);
                        best_key = key;
                    }
                },
            }
        }
        j = j + 1;
    }
    best
}

} // verus!

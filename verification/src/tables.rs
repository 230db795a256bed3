use vstd::prelude::*;

verus! {

/// One triangulation row: the sixteen entries for one cube configuration.
pub open spec fn row_of(tri: Seq<i8>, ci: int) -> Seq<i8> {
    tri.subrange(16 * ci, 16 * ci + 16)
}

/// First sentinel position at a triple boundary at or after `k`.  Rows end
/// with a sentinel entry of `-1`; the entries before it are the triangle
/// edge indices, three per triangle.
pub open spec fn active_len_from(row: Seq<i8>, k: int) -> int
    decreases (if k < 15 { 15 - k } else { 0 }),
{
    if 0 <= k < 15 {
        if row[k] == -1 {
            k
        } else {
            active_len_from(row, k + 3)
        }
    } else {
        15
    }
}

/// Number of triangle vertices in a row: the entries before the sentinel.
pub open spec fn active_len(row: Seq<i8>) -> int {
    active_len_from(row, 0)
}

/// Triangle `t` of the row references three different cube edges.
pub open spec fn triple_distinct(row: Seq<i8>, t: int) -> bool {
    &&& row[3 * t] != row[3 * t + 1]
    &&& row[3 * t + 1] != row[3 * t + 2]
    &&& row[3 * t] != row[3 * t + 2]
}

/// A usable triangulation row: sixteen entries, a sentinel at the last
/// position, every entry before the sentinel a cube edge index, and no
/// triangle touching the same edge twice.
pub open spec fn row_wf(row: Seq<i8>) -> bool {
    &&& row.len() == 16
    &&& row[15] == -1
    &&& forall|k: int| 0 <= k < active_len(row) ==> 0 <= #[trigger] row[k] < 12
    &&& forall|t: int| 0 <= t && 3 * t + 2 < active_len(row) ==> #[trigger] triple_distinct(row, t)
}

/// Edge `e` occurs among the first `n` entries of the row.
pub open spec fn edge_in_prefix(row: Seq<i8>, n: int, e: int) -> bool {
    exists|k: int| 0 <= k < n && #[trigger] row[k] == e
}

/// Edge `e` occurs in the row before the sentinel, i.e. the surface
/// crosses edge `e` in this configuration.
pub open spec fn edge_in_row(row: Seq<i8>, e: int) -> bool {
    edge_in_prefix(row, active_len(row), e)
}

/// Bit `e` of the edge-activation mask is set.
pub open spec fn bit_set(mask: u16, e: u16) -> bool {
    mask & (1u16 << e) != 0
}

/// A usable triangulation table: 256 well-formed rows, with the all-empty
/// and all-occupied configurations triangulated by nothing.
pub open spec fn tri_data_wf(tri: Seq<i8>) -> bool {
    &&& tri.len() == 4096
    &&& forall|ci: int| 0 <= ci < 256 ==> row_wf(#[trigger] row_of(tri, ci))
    &&& active_len(row_of(tri, 0)) == 0
    &&& active_len(row_of(tri, 255)) == 0
}

/// The two marching-cubes lookup tables.  `tri` holds the 256
/// triangulation rows of sixteen entries each; `edge` holds, per
/// configuration, the 12-bit mask of cell edges the surface crosses.  The
/// mask is derived from the triangulation, so a set bit and an occurrence
/// in the row always agree.
pub struct Tables {
    pub tri: Vec<i8>,
    pub edge: Vec<u16>,
}

impl Tables {
    /// The triangulation data is usable and the edge table matches it.
    pub open spec fn wf(self) -> bool {
        &&& tri_data_wf(self.tri@)
        &&& self.edge@.len() == 256
        &&& forall|ci: int, e: u16|
            0 <= ci < 256 && e < 12 ==> (#[trigger] bit_set(self.edge@[ci], e) <==> edge_in_row(
                row_of(self.tri@, ci),
                e as int,
            ))
    }

    /// The edge-activation mask for configuration `ci`.
    pub fn edge_mask(&self, ci: usize) -> (m: u16)
        requires
            self.wf(),
            ci < 256,
        ensures
            m == self.edge@[ci as int],
    {
        self.edge[ci]
    }

    /// Number of triangle vertices in row `ci`: the entries before the
    /// sentinel.
    pub fn active_count(&self, ci: usize) -> (n: usize)
        requires
            self.wf(),
            ci < 256,
        ensures
            n == active_len(row_of(self.tri@, ci as int)),
            n <= 15,
            n % 3 == 0,
    {
        let ghost row = row_of(self.tri@, ci as int);
        proof {
            assert(row_wf(row_of(self.tri@, ci as int)));
            assert(forall|k: int| 0 <= k < 16 ==> row[k] == self.tri@[16 * (ci as int) + k]);
        }
        let base = 16 * ci;
        let mut n: usize = 0;
        while n < 15 && self.tri[base + n] != -1
            invariant
                base == 16 * ci,
                ci < 256,
                self.tri@.len() == 4096,
                row == row_of(self.tri@, ci as int),
                row[15] == -1,
                n % 3 == 0,
                0 <= n <= 15,
                active_len(row) == active_len_from(row, n as int),
            decreases 15 - n,
        {
            n += 3;
        }
        proof {
            assert(active_len(row) == n);
        }
        n
    }

    /// Entry `k` of triangulation row `ci`.
    pub fn tri_entry(&self, ci: usize, k: usize) -> (e: i8)
        requires
            self.wf(),
            ci < 256,
            k < 16,
        ensures
            e == row_of(self.tri@, ci as int)[k as int],
    {
        self.tri[16 * ci + k]
    }
}

/// Table consistency: every edge index a triangulation row references
/// before its sentinel is a real cube edge, and its bit is set in the
/// edge-activation mask of the same configuration.
pub proof fn lemma_table_consistency(t: Tables, ci: int, k: int)
    requires
        t.wf(),
        0 <= ci < 256,
        0 <= k < active_len(row_of(t.tri@, ci)),
    ensures
        0 <= row_of(t.tri@, ci)[k] < 12,
        bit_set(t.edge@[ci], row_of(t.tri@, ci)[k] as u16),
{
    let row = row_of(t.tri@, ci);
    assert(row_wf(row));
    assert(0 <= row[k] < 12);
    assert(edge_in_prefix(row, active_len(row), row[k] as int));
}

/// The sentinel position of a well-ended row is a triple boundary within
/// the row, and carries the sentinel entry.
pub proof fn lemma_active_len_props(row: Seq<i8>)
    requires
        row.len() == 16,
        row[15] == -1,
    ensures
        0 <= active_len(row) <= 15,
        active_len(row) % 3 == 0,
        row[active_len(row)] == -1,
{
    lemma_active_len_from_props(row, 0);
}

proof fn lemma_active_len_from_props(row: Seq<i8>, k: int)
    requires
        row.len() == 16,
        row[15] == -1,
        0 <= k <= 15,
        k % 3 == 0,
    ensures
        k <= active_len_from(row, k) <= 15,
        active_len_from(row, k) % 3 == 0,
        row[active_len_from(row, k)] == -1,
    decreases 15 - k,
{
    if k < 15 && row[k] != -1 {
        lemma_active_len_from_props(row, k + 3);
    }
}

/// Setting one bit leaves exactly the set bits plus that one.
proof fn lemma_bit_or(m: u16, e: u16, f: u16)
    by (bit_vector)
    requires
        e < 16,
        f < 16,
    ensures
        ((m | (1u16 << e)) & (1u16 << f) != 0) <==> ((m & (1u16 << f)) != 0 || e == f),
{
}

/// No bit of the zero mask is set.
proof fn lemma_bit_zero(f: u16)
    by (bit_vector)
    requires
        f < 16,
    ensures
        (0u16 & (1u16 << f)) == 0,
{
}

/// Scans one triangulation row: finds its sentinel, validates the entries
/// before it, and accumulates the edge-activation mask.  Returns the
/// active length and the mask, or nothing when the row is malformed.
fn check_row(tri: &Vec<i8>, ci: usize) -> (r: Option<(usize, u16)>)
    requires
        tri@.len() == 4096,
        ci < 256,
    ensures
        r is Some <==> row_wf(row_of(tri@, ci as int)),
        r matches Some(p) ==> {
            &&& p.0 == active_len(row_of(tri@, ci as int))
            &&& forall|e: u16|
                e < 12 ==> (#[trigger] bit_set(p.1, e) <==> edge_in_row(
                    row_of(tri@, ci as int),
                    e as int,
                ))
        },
{
    let ghost row = row_of(tri@, ci as int);
    proof {
        assert(forall|k: int| 0 <= k < 16 ==> row[k] == tri@[16 * (ci as int) + k]);
    }
    let base = 16 * ci;
    if tri[base + 15] != -1 {
        return None;
    }
    let mut al: usize = 0;
    while al < 15 && tri[base + al] != -1
        invariant
            base == 16 * ci,
            ci < 256,
            tri@.len() == 4096,
            row == row_of(tri@, ci as int),
            row[15] == -1,
            al % 3 == 0,
            0 <= al <= 15,
            active_len(row) == active_len_from(row, al as int),
        decreases 15 - al,
    {
        al += 3;
    }
    proof {
        assert(active_len(row) == al);
    }
    let mut mask: u16 = 0;
    proof {
        assert forall|f: u16| f < 12 implies !bit_set(0u16, f) by {
            lemma_bit_zero(f);
        }
    }
    let mut j: usize = 0;
    while j < al
        invariant
            base == 16 * ci,
            ci < 256,
            tri@.len() == 4096,
            row == row_of(tri@, ci as int),
            row[15] == -1,
            al == active_len(row),
            0 <= al <= 15,
            j <= al,
            forall|k: int| 0 <= k < j ==> 0 <= #[trigger] row[k] < 12,
            forall|f: u16|
                f < 12 ==> (#[trigger] bit_set(mask, f) <==> edge_in_prefix(row, j as int, f as int)),
        decreases al - j,
    {
        let e = tri[base + j];
        if e < 0 || e >= 12 {
            proof {
                assert(row[j as int] == e);
                assert(j < active_len(row));
                assert(!row_wf(row));
            }
            return None;
        }
        let ghost old_mask = mask;
        mask = mask | (1u16 << (e as u16));
        proof {
            assert(mask == old_mask | (1u16 << (e as u16)));
            assert(row[j as int] == e);
            assert forall|f: u16| f < 12 implies (bit_set(mask, f) <==> edge_in_prefix(
                row,
                j + 1,
                f as int,
            )) by {
                lemma_bit_or(old_mask, e as u16, f);
                assert(bit_set(mask, f) <==> (bit_set(old_mask, f) || f == e as u16));
                if bit_set(old_mask, f) {
                    let k = choose|k: int| 0 <= k < j && #[trigger] row[k] == f as int;
                    assert(row[k] == f as int);
                    assert(edge_in_prefix(row, j + 1, f as int));
                }
                if f == e as u16 {
                    assert(e as int == f as int);
                    assert(row[j as int] == f as int);
                    assert(edge_in_prefix(row, j + 1, f as int));
                }
                if edge_in_prefix(row, j + 1, f as int) {
                    let k = choose|k: int| 0 <= k < j + 1 && #[trigger] row[k] == f as int;
                    if k < j {
                        assert(edge_in_prefix(row, j as int, f as int));
                        assert(bit_set(old_mask, f));
                    } else {
                        assert(row[j as int] == f as int);
                        assert(e as u16 == f);
                    }
                }
            }
        }
        j += 1;
    }
    let mut u: usize = 0;
    while 3 * u + 2 < al
        invariant
            base == 16 * ci,
            ci < 256,
            tri@.len() == 4096,
            row == row_of(tri@, ci as int),
            row[15] == -1,
            al == active_len(row),
            0 <= al <= 15,
            u <= 5,
            forall|w: int| 0 <= w < u ==> #[trigger] triple_distinct(row, w),
        decreases al - 3 * u,
    {
        let e0 = tri[base + 3 * u];
        let e1 = tri[base + 3 * u + 1];
        let e2 = tri[base + 3 * u + 2];
        if e0 == e1 || e1 == e2 || e0 == e2 {
            proof {
                assert(!triple_distinct(row, u as int));
                assert(!row_wf(row));
            }
            return None;
        }
        u += 1;
    }
    proof {
        assert(forall|w: int| 0 <= w && 3 * w + 2 < al ==> #[trigger] triple_distinct(row, w));
    }
    Some((al, mask))
}

/// Validates a triangulation table and derives the edge-activation table
/// from it.  Succeeds exactly when the data is well-formed; the resulting
/// tables then satisfy [`Tables::wf`] and hold the given triangulation
/// unchanged.
pub fn checked_tables(tri: Vec<i8>) -> (r: Option<Tables>)
    ensures
        r is Some <==> tri_data_wf(tri@),
        r matches Some(t) ==> t.wf() && t.tri@ == tri@,
{
    if tri.len() != 4096 {
        return None;
    }
    let mut edge: Vec<u16> = Vec::new();
    let mut ci: usize = 0;
    while ci < 256
        invariant
            tri@.len() == 4096,
            ci <= 256,
            edge@.len() == ci,
            forall|c: int| 0 <= c < ci ==> row_wf(#[trigger] row_of(tri@, c)),
            0 < ci ==> active_len(row_of(tri@, 0)) == 0,
            255 < ci ==> active_len(row_of(tri@, 255)) == 0,
            forall|c: int, e: u16|
                0 <= c < ci && e < 12 ==> (#[trigger] bit_set(edge@[c], e) <==> edge_in_row(
                    row_of(tri@, c),
                    e as int,
                )),
        decreases 256 - ci,
    {
        match check_row(&tri, ci) {
            None => {
                return None;
            },
            Some((al, mask)) => {
                if (ci == 0 || ci == 255) && al != 0 {
                    return None;
                }
                edge.push(mask);
            },
        }
        ci += 1;
    }
    Some(Tables { tri, edge })
}

} // verus!

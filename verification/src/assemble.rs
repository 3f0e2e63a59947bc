//! The mesh assembler: fans the faces of a merged shell tessellation into
//! one flat triangle index buffer.
//!
//! A face is a list of vertex indices in face order.  Triangle faces are
//! emitted as they stand; a quad or a larger polygon is split into a fan
//! of triangles around its first vertex, the fixed deterministic policy of
//! the library; a face with fewer than three vertices is skipped silently.

use crate::error::{decimal_of, decimal_string, MeshError, TruckErrorCode};
use vstd::prelude::*;
use vstd::string::StringExecFns;

verus! {

/// The flattened triangle indices that the fan of one face emits: for a
/// face `(v0, ..., v_{n-1})` with `n >= 3`, the triples
/// `(v0, v1, v2), (v0, v2, v3), ..., (v0, v_{n-2}, v_{n-1})`; nothing for
/// a shorter face.
pub open spec fn fan_of_face(f: Seq<usize>) -> Seq<int>
    decreases f.len(),
{
    if f.len() < 3 {
        Seq::empty()
    } else {
        fan_of_face(f.drop_last())
            + seq![f[0] as int, f[f.len() - 2] as int, f[f.len() - 1] as int]
    }
}

/// The concatenation of the fans of a list of faces, in face order.
pub open spec fn fan_of_faces(fs: Seq<Seq<usize>>) -> Seq<int>
    decreases fs.len(),
{
    if fs.len() == 0 {
        Seq::empty()
    } else {
        fan_of_faces(fs.drop_last()) + fan_of_face(fs.last())
    }
}

/// The indices of a buffer, widened to mathematical integers.
pub open spec fn index_ints(s: Seq<u32>) -> Seq<int> {
    s.map_values(|x: u32| x as int)
}

/// Every index of every face lies below `bound`.
pub open spec fn faces_below(fs: Seq<Seq<usize>>, bound: int) -> bool {
    forall|i: int, j: int|
        0 <= i < fs.len() && 0 <= j < fs[i].len() ==> (#[trigger] fs[i][j]) < bound
}

/// A fan holds exactly `n - 2` triangles for an `n`-gon with `n >= 3`, and
/// none for a shorter face.
pub proof fn lemma_fan_face_len(f: Seq<usize>)
    ensures
        f.len() < 3 ==> fan_of_face(f).len() == 0,
        f.len() >= 3 ==> fan_of_face(f).len() == 3 * (f.len() - 2),
    decreases f.len(),
{
    if f.len() >= 3 {
        lemma_fan_face_len(f.drop_last());
    }
}

/// Every index that a fan emits is an index of the face it came from, so
/// the fan stays within any bound that the face respects.
pub proof fn lemma_fan_face_in_range(f: Seq<usize>, bound: int)
    requires
        forall|j: int| 0 <= j < f.len() ==> (#[trigger] f[j]) < bound,
    ensures
        forall|k: int|
            0 <= k < fan_of_face(f).len() ==> 0 <= #[trigger] fan_of_face(f)[k] < bound,
    decreases f.len(),
{
    if f.len() >= 3 {
        let d = f.drop_last();
        assert(forall|j: int| 0 <= j < d.len() ==> (#[trigger] d[j]) < bound);
        lemma_fan_face_in_range(d, bound);
        assert forall|k: int|
            0 <= k < fan_of_face(f).len() implies 0 <= #[trigger] fan_of_face(f)[k]
            < bound by {
            if k < fan_of_face(d).len() {
                assert(fan_of_face(f)[k] == fan_of_face(d)[k]);
            }
        }
    }
}

/// Each vertex index of a face with at least three vertices appears
/// somewhere in the face's fan.
pub proof fn lemma_fan_face_elem(f: Seq<usize>, j: int)
    requires
        f.len() >= 3,
        0 <= j < f.len(),
    ensures
        exists|k: int|
            0 <= k < fan_of_face(f).len() && #[trigger] fan_of_face(f)[k] == f[j] as int,
    decreases f.len(),
{
    let d = f.drop_last();
    let base = fan_of_face(d).len() as int;
    if j == 0 {
        assert(fan_of_face(f)[base] == f[j] as int);
    } else if j == f.len() - 2 {
        assert(fan_of_face(f)[base + 1] == f[j] as int);
    } else if j == f.len() - 1 {
        assert(fan_of_face(f)[base + 2] == f[j] as int);
    } else {
        lemma_fan_face_elem(d, j);
        let k = choose|k: int|
            0 <= k < fan_of_face(d).len() && #[trigger] fan_of_face(d)[k] == d[j] as int;
        assert(fan_of_face(f)[k] == f[j] as int);
    }
}

/// The combined fan of a face list has a length that is a multiple of 3.
pub proof fn lemma_fan_faces_len_mod3(fs: Seq<Seq<usize>>)
    ensures
        fan_of_faces(fs).len() % 3 == 0,
    decreases fs.len(),
{
    if fs.len() > 0 {
        lemma_fan_faces_len_mod3(fs.drop_last());
        lemma_fan_face_len(fs.last());
    }
}

/// The combined fan of a face list stays within any bound that every face
/// respects.
pub proof fn lemma_fan_faces_in_range(fs: Seq<Seq<usize>>, bound: int)
    requires
        faces_below(fs, bound),
    ensures
        forall|k: int|
            0 <= k < fan_of_faces(fs).len() ==> 0 <= #[trigger] fan_of_faces(fs)[k] < bound,
    decreases fs.len(),
{
    if fs.len() > 0 {
        let d = fs.drop_last();
        let last = fs.last();
        assert(faces_below(d, bound)) by {
            assert(forall|i: int, j: int|
                0 <= i < d.len() && 0 <= j < d[i].len() ==> (#[trigger] d[i][j]) < bound);
        }
        lemma_fan_faces_in_range(d, bound);
        assert(forall|j: int| 0 <= j < last.len() ==> (#[trigger] last[j]) < bound) by {
            assert(forall|j: int|
                0 <= j < last.len() ==> last[j] == fs[fs.len() - 1][j]);
        }
        lemma_fan_face_in_range(last, bound);
        assert forall|k: int|
            0 <= k < fan_of_faces(fs).len() implies 0 <= #[trigger] fan_of_faces(fs)[k]
            < bound by {
            if k < fan_of_faces(d).len() {
                assert(fan_of_faces(fs)[k] == fan_of_faces(d)[k]);
            } else {
                assert(fan_of_faces(fs)[k] == fan_of_face(last)[k - fan_of_faces(d).len()]);
            }
        }
    }
}

/// Extending a face list by one face appends that face's fan.
proof fn lemma_fan_faces_snoc(fs: Seq<Seq<usize>>, i: int)
    requires
        0 <= i < fs.len(),
    ensures
        fan_of_faces(fs.take(i + 1)) == fan_of_faces(fs.take(i)) + fan_of_face(fs[i]),
{
    let t = fs.take(i + 1);
    assert(t.drop_last() =~= fs.take(i));
    assert(t.last() == fs[i]);
}

/// The fan of a prefix of a face list is a prefix of the whole fan.
proof fn lemma_fan_faces_prefix(fs: Seq<Seq<usize>>, n: int)
    requires
        0 <= n <= fs.len(),
    ensures
        fan_of_faces(fs.take(n)).len() <= fan_of_faces(fs).len(),
        forall|p: int|
            0 <= p < fan_of_faces(fs.take(n)).len() ==> #[trigger] fan_of_faces(fs)[p]
                == fan_of_faces(fs.take(n))[p],
    decreases fs.len() - n,
{
    if n == fs.len() {
        assert(fs.take(n) =~= fs);
    } else {
        lemma_fan_faces_snoc(fs, n);
        lemma_fan_faces_prefix(fs, n + 1);
    }
}

/// A face contributes exactly its own fan, contiguously, at the offset
/// where the fans of the faces before it end: a quad among other faces
/// still splits along its fixed diagonal, and an n-gon still yields its
/// n - 2 triangles, unchanged by its neighbours.
pub proof fn lemma_fan_faces_segment(fs: Seq<Seq<usize>>, i: int)
    requires
        0 <= i < fs.len(),
    ensures
        fan_of_faces(fs.take(i)).len() + fan_of_face(fs[i]).len() <= fan_of_faces(fs).len(),
        forall|k: int|
            0 <= k < fan_of_face(fs[i]).len() ==> fan_of_faces(fs)[fan_of_faces(fs.take(i)).len()
                + k] == #[trigger] fan_of_face(fs[i])[k],
{
    lemma_fan_faces_snoc(fs, i);
    lemma_fan_faces_prefix(fs, i + 1);
    assert forall|k: int|
        0 <= k < fan_of_face(fs[i]).len() implies fan_of_faces(fs)[fan_of_faces(
        fs.take(i),
    ).len() + k] == #[trigger] fan_of_face(fs[i])[k] by {
        let p = fan_of_faces(fs.take(i)).len() + k;
        assert(fan_of_faces(fs.take(i + 1))[p] == fan_of_face(fs[i])[k]);
        assert(fan_of_faces(fs)[p] == fan_of_faces(fs.take(i + 1))[p]);
    }
}

/// The diagnostic of an index above the 32-bit bound, naming the value.
pub open spec fn overflow_message(v: int) -> Seq<char> {
    "index "@ + decimal_of(v) + " exceeds u32 range"@
}

/// A value above the 32-bit bound in one of three fan segments stands
/// above it, with the same diagnostic, in their concatenation too.
proof fn lemma_fan_concat_witness(a: Seq<int>, b: Seq<int>, c: Seq<int>, which: int, msg: Seq<char>)
    requires
        which == 0 ==> exists|k: int|
            0 <= k < a.len() && #[trigger] a[k] > u32::MAX as int && msg == overflow_message(a[k]),
        which == 1 ==> exists|k: int|
            0 <= k < b.len() && #[trigger] b[k] > u32::MAX as int && msg == overflow_message(b[k]),
        which == 2 ==> exists|k: int|
            0 <= k < c.len() && #[trigger] c[k] > u32::MAX as int && msg == overflow_message(c[k]),
        0 <= which <= 2,
    ensures
        exists|k: int|
            0 <= k < (a + b + c).len() && #[trigger] (a + b + c)[k] > u32::MAX as int && msg
                == overflow_message((a + b + c)[k]),
{
    if which == 0 {
        let k = choose|k: int|
            0 <= k < a.len() && #[trigger] a[k] > u32::MAX as int && msg == overflow_message(a[k]);
        assert((a + b + c)[k] == a[k]);
    } else if which == 1 {
        let k = choose|k: int|
            0 <= k < b.len() && #[trigger] b[k] > u32::MAX as int && msg == overflow_message(b[k]);
        assert((a + b + c)[a.len() + k] == b[k]);
    } else {
        let k = choose|k: int|
            0 <= k < c.len() && #[trigger] c[k] > u32::MAX as int && msg == overflow_message(c[k]);
        assert((a + b + c)[a.len() + b.len() + k] == c[k]);
    }
}

/// Extending a face by one vertex appends one triangle to its fan.
proof fn lemma_fan_face_snoc(f: Seq<usize>, j: int)
    requires
        2 <= j < f.len(),
    ensures
        fan_of_face(f.take(j + 1)) == fan_of_face(f.take(j))
            + seq![f[0] as int, f[j - 1] as int, f[j] as int],
{
    let t = f.take(j + 1);
    assert(t.drop_last() =~= f.take(j));
    assert(t[0] == f[0] && t[j - 1] == f[j - 1] && t[j] == f[j]);
}

/// The faces of a merged shell tessellation, partitioned by arity as the
/// tessellator reports them: triangles, quads, and larger polygons.
#[derive(Debug)]
pub struct FaceList {
    pub tri_faces: Vec<Vec<usize>>,
    pub quad_faces: Vec<Vec<usize>>,
    pub other_faces: Vec<Vec<usize>>,
}

impl FaceList {
    /// The partition is by arity: three indices per triangle face, four
    /// per quad face.
    pub open spec fn wf(self) -> bool {
        &&& forall|i: int|
            0 <= i < self.tri_faces.deep_view().len()
                ==> (#[trigger] self.tri_faces.deep_view()[i]).len() == 3
        &&& forall|i: int|
            0 <= i < self.quad_faces.deep_view().len()
                ==> (#[trigger] self.quad_faces.deep_view()[i]).len() == 4
    }

    /// Every index of every face lies below `bound`.
    pub open spec fn indices_below(self, bound: int) -> bool {
        &&& faces_below(self.tri_faces.deep_view(), bound)
        &&& faces_below(self.quad_faces.deep_view(), bound)
        &&& faces_below(self.other_faces.deep_view(), bound)
    }

    /// The triangle indices the whole face list emits: triangles first,
    /// then quads, then the larger polygons, each group in order.
    pub open spec fn fan(self) -> Seq<int> {
        fan_of_faces(self.tri_faces.deep_view()) + fan_of_faces(self.quad_faces.deep_view())
            + fan_of_faces(self.other_faces.deep_view())
    }
}

/// The index part of an assembled mesh: a vertex count and a flat buffer
/// of triangle indices into it.
#[derive(Debug)]
pub struct TriangleMesh {
    pub vertex_count: usize,
    pub indices: Vec<u32>,
}

impl TriangleMesh {
    /// The structural invariant of an assembled mesh: the buffer is
    /// non-empty, holds whole triangles, and every index references an
    /// existing vertex.
    pub open spec fn wf(self) -> bool {
        &&& self.vertex_count > 0
        &&& self.indices@.len() > 0
        &&& self.indices@.len() % 3 == 0
        &&& forall|k: int|
            0 <= k < self.indices@.len()
                ==> ((#[trigger] self.indices@[k]) as int) < (self.vertex_count as int)
    }
}

/// Narrows one vertex index to the 32-bit range of the boundary layout;
/// an index above that range is a hard failure of the whole operation,
/// and the diagnostic names the offending value.
pub fn usize_to_u32(value: usize) -> (r: Result<u32, MeshError>)
    ensures
        match r {
            Ok(v) => v as int == value as int,
            Err(e) => {
                &&& value as int > u32::MAX as int
                &&& e.wf()
                &&& e.kind == TruckErrorCode::ErrTessellationFailed
                &&& e.message@ == overflow_message(value as int)
            },
        },
{
    if value > u32::MAX as usize {
        proof {
            reveal_strlit("index ");
        }
        let detail = decimal_string(value as u64).concat(" exceeds u32 range");
        let e = MeshError::with_detail(
            TruckErrorCode::ErrTessellationFailed,
            "index ",
            detail.as_str(),
        );
        proof {
            assert(e.message@ =~= overflow_message(value as int));
        }
        Err(e)
    } else {
        Ok(value as u32)
    }
}

/// Appends the fan of one face to the index buffer; fails exactly when
/// some emitted index does not fit in 32 bits.
fn append_fan(buf: &mut Vec<u32>, face: &Vec<usize>) -> (r: Result<(), MeshError>)
    ensures
        match r {
            Ok(()) => index_ints(final(buf)@) == index_ints(old(buf)@) + fan_of_face(face@),
            Err(e) => {
                &&& e.wf()
                &&& e.kind == TruckErrorCode::ErrTessellationFailed
                &&& exists|k: int|
                    0 <= k < fan_of_face(face@).len() && #[trigger] fan_of_face(face@)[k]
                        > u32::MAX as int && e.message@ == overflow_message(fan_of_face(face@)[k])
            },
        },
{
    if face.len() < 3 {
        assert(index_ints(buf@) =~= index_ints(buf@) + fan_of_face(face@));
        return Ok(());
    }
    let base = match usize_to_u32(face[0]) {
        Ok(v) => v,
        Err(e) => {
            proof {
                lemma_fan_face_elem(face@, 0);
                let k0 = choose|k: int|
                    0 <= k < fan_of_face(face@).len() && #[trigger] fan_of_face(face@)[k]
                        == face@[0] as int;
                assert(e.message@ == overflow_message(fan_of_face(face@)[k0]));
            }
            return Err(e);
        },
    };
    let ghost buf0 = buf@;
    assert(index_ints(buf@) =~= index_ints(buf0) + fan_of_face(face@.take(2)));
    let mut idx: usize = 1;
    while idx < face.len() - 1
        invariant
            1 <= idx < face.len(),
            face@.len() >= 3,
            index_ints(buf@) == index_ints(buf0) + fan_of_face(face@.take(idx + 1)),
            base as int == face@[0] as int,
        decreases face.len() - idx,
    {
        let v1 = match usize_to_u32(face[idx]) {
            Ok(v) => v,
            Err(e) => {
                proof {
                    lemma_fan_face_elem(face@, idx as int);
                    let k0 = choose|k: int|
                        0 <= k < fan_of_face(face@).len() && #[trigger] fan_of_face(face@)[k]
                            == face@[idx as int] as int;
                    assert(e.message@ == overflow_message(fan_of_face(face@)[k0]));
                }
                return Err(e);
            },
        };
        let v2 = match usize_to_u32(face[idx + 1]) {
            Ok(v) => v,
            Err(e) => {
                proof {
                    lemma_fan_face_elem(face@, idx as int + 1);
                    let k0 = choose|k: int|
                        0 <= k < fan_of_face(face@).len() && #[trigger] fan_of_face(face@)[k]
                            == face@[idx as int + 1] as int;
                    assert(e.message@ == overflow_message(fan_of_face(face@)[k0]));
                }
                return Err(e);
            },
        };
        let ghost pre = buf@;
        buf.push(base);
        buf.push(v1);
        buf.push(v2);
        proof {
            assert(buf@ =~= pre + seq![base, v1, v2]);
            assert(index_ints(buf@) =~= index_ints(pre) + seq![
                face@[0] as int,
                face@[idx as int] as int,
                face@[idx as int + 1] as int,
            ]);
            lemma_fan_face_snoc(face@, idx as int + 1);
            assert(index_ints(buf@) =~= index_ints(buf0) + fan_of_face(
                face@.take(idx as int + 2),
            ));
        }
        idx = idx + 1;
    }
    proof {
        assert(face@.take(idx + 1) =~= face@);
    }
    Ok(())
}

/// Appends the fans of one group of faces, in order.
fn append_group(buf: &mut Vec<u32>, group: &Vec<Vec<usize>>) -> (r: Result<(), MeshError>)
    ensures
        match r {
            Ok(()) => index_ints(final(buf)@) == index_ints(old(buf)@) + fan_of_faces(group.deep_view()),
            Err(e) => {
                &&& e.wf()
                &&& e.kind == TruckErrorCode::ErrTessellationFailed
                &&& exists|k: int|
                    0 <= k < fan_of_faces(group.deep_view()).len()
                        && #[trigger] fan_of_faces(group.deep_view())[k] > u32::MAX as int
                        && e.message@ == overflow_message(fan_of_faces(group.deep_view())[k])
            },
        },
{
    let ghost buf0 = buf@;
    let ghost gv = group.deep_view();
    assert(index_ints(buf@) =~= index_ints(buf0) + fan_of_faces(gv.take(0)));
    let mut i: usize = 0;
    while i < group.len()
        invariant
            0 <= i <= group.len(),
            gv == group.deep_view(),
            index_ints(buf@) == index_ints(buf0) + fan_of_faces(gv.take(i as int)),
        decreases group.len() - i,
    {
        assert(gv[i as int] =~= group@[i as int]@);
        let ghost pre = buf@;
        match append_fan(buf, &group[i]) {
            Ok(()) => {},
            Err(e) => {
                proof {
                    let k = choose|k: int|
                        0 <= k < fan_of_face(gv[i as int]).len() && #[trigger] fan_of_face(
                            gv[i as int],
                        )[k] > u32::MAX as int && e.message@ == overflow_message(
                            fan_of_face(gv[i as int])[k],
                        );
                    lemma_fan_faces_snoc(gv, i as int);
                    lemma_fan_faces_prefix(gv, i + 1);
                    let pos = fan_of_faces(gv.take(i as int)).len() + k;
                    assert(fan_of_faces(gv.take(i + 1))[pos] == fan_of_face(gv[i as int])[k]);
                    assert(fan_of_faces(gv)[pos] > u32::MAX as int);
                    assert(e.message@ == overflow_message(fan_of_faces(gv)[pos]));
                }
                return Err(e);
            },
        }
        proof {
            lemma_fan_faces_snoc(gv, i as int);
            assert(index_ints(buf@) =~= index_ints(buf0) + fan_of_faces(gv.take(i as int + 1)));
        }
        i = i + 1;
    }
    proof {
        assert(gv.take(i as int) =~= gv);
    }
    Ok(())
}

/// Assembles the index part of the final mesh from the merged face list.
///
/// On success the buffer is exactly the concatenated fan of the face
/// list: triangles as they stand, quads split along the fixed diagonal
/// from their first vertex, larger polygons fanned from their first
/// vertex.  The operation fails exactly when there is no vertex at all,
/// when some emitted index does not fit in 32 bits, or when no triangle
/// is emitted.
pub fn assemble_indices(vertex_count: usize, faces: &FaceList) -> (r: Result<
    TriangleMesh,
    MeshError,
>)
    requires
        faces.wf(),
        faces.indices_below(vertex_count as int),
    ensures
        match r {
            Ok(m) => {
                &&& m.wf()
                &&& m.vertex_count == vertex_count
                &&& index_ints(m.indices@) == faces.fan()
                &&& faces.fan().len() > 0
            },
            Err(e) => {
                &&& e.wf()
                &&& e.kind == TruckErrorCode::ErrTessellationFailed
                &&& (vertex_count == 0 || faces.fan().len() == 0 || exists|k: int|
                    0 <= k < faces.fan().len() && #[trigger] faces.fan()[k] > u32::MAX as int)
                &&& (vertex_count == 0 ==> e.message@ == "tessellation produced no vertices"@)
                &&& (vertex_count != 0 && (exists|k: int|
                    0 <= k < faces.fan().len() && #[trigger] faces.fan()[k] > u32::MAX as int)
                    ==> exists|k: int|
                        0 <= k < faces.fan().len() && #[trigger] faces.fan()[k] > u32::MAX as int
                            && e.message@ == overflow_message(faces.fan()[k]))
                &&& (vertex_count != 0 && !(exists|k: int|
                    0 <= k < faces.fan().len() && #[trigger] faces.fan()[k] > u32::MAX as int)
                    ==> faces.fan().len() == 0 && e.message@
                    == "tessellation produced no triangle indices"@)
            },
        },
{
    if vertex_count == 0 {
        proof {
            reveal_strlit("tessellation produced no vertices");
        }
        return Err(
            MeshError::new(
                TruckErrorCode::ErrTessellationFailed,
                "tessellation produced no vertices",
            ),
        );
    }
    let ghost tv = faces.tri_faces.deep_view();
    let ghost qv = faces.quad_faces.deep_view();
    let ghost ov = faces.other_faces.deep_view();
    let mut buf: Vec<u32> = Vec::new();
    assert(index_ints(buf@) =~= Seq::<int>::empty());
    if let Err(e) = append_group(&mut buf, &faces.tri_faces) {
        proof {
            lemma_fan_concat_witness(fan_of_faces(tv), fan_of_faces(qv), fan_of_faces(ov), 0, e.message@);
        }
        return Err(e);
    }
    if let Err(e) = append_group(&mut buf, &faces.quad_faces) {
        proof {
            lemma_fan_concat_witness(fan_of_faces(tv), fan_of_faces(qv), fan_of_faces(ov), 1, e.message@);
        }
        return Err(e);
    }
    if let Err(e) = append_group(&mut buf, &faces.other_faces) {
        proof {
            lemma_fan_concat_witness(fan_of_faces(tv), fan_of_faces(qv), fan_of_faces(ov), 2, e.message@);
        }
        return Err(e);
    }
    assert(index_ints(buf@) =~= faces.fan());
    if buf.len() == 0 {
        proof {
            reveal_strlit("tessellation produced no triangle indices");
        }
        return Err(
            MeshError::new(
                TruckErrorCode::ErrTessellationFailed,
                "tessellation produced no triangle indices",
            ),
        );
    }
    proof {
        lemma_fan_faces_len_mod3(tv);
        lemma_fan_faces_len_mod3(qv);
        lemma_fan_faces_len_mod3(ov);
        lemma_fan_faces_in_range(tv, vertex_count as int);
        lemma_fan_faces_in_range(qv, vertex_count as int);
        lemma_fan_faces_in_range(ov, vertex_count as int);
        assert forall|k: int| 0 <= k < buf@.len() implies ((#[trigger] buf@[k]) as int) < (
        vertex_count as int) by {
            assert(faces.fan()[k] == index_ints(buf@)[k]);
        }
    }
    Ok(TriangleMesh { vertex_count, indices: buf })
}

} // verus!

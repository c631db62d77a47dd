//! Shaping the vertex and index streams of a decoded model primitive before
//! they are uploaded: widening indices to 32 bits, supplying indices for
//! unindexed primitives, and making every attribute stream as long as the
//! position stream.
use vstd::prelude::*;

verus! {

/// Triangle indices as a model file stores them.
pub enum IndexData {
    U8(Vec<u8>),
    U16(Vec<u16>),
    U32(Vec<u32>),
}

/// The indices of `data`, each widened to 32 bits.
pub open spec fn widened(data: IndexData) -> Seq<u32> {
    match data {
        IndexData::U8(v) => v@.map_values(|i: u8| i as u32),
        IndexData::U16(v) => v@.map_values(|i: u16| i as u32),
        IndexData::U32(v) => v@,
    }
}

/// The indices of `indices` as 32-bit values, in order.
pub fn convert_indices(indices: IndexData) -> (r: Vec<u32>)
    ensures
        r@ == widened(indices),
{
    match indices {
        IndexData::U8(v) => {
            let mut out: Vec<u32> = Vec::new();
            let mut i: usize = 0;
            while i < v.len()
                invariant
                    i <= v@.len(),
                    out@ == v@.take(i as int).map_values(|x: u8| x as u32),
                decreases v@.len() - i,
            {
                out.push(v[i] as u32);
                i = i + 1;
                proof {
                    assert(v@.take(i as int) == v@.take(i - 1).push(v@[i - 1]));
                    assert(out@ =~= v@.take(i as int).map_values(|x: u8| x as u32));
                }
            }
            assert(v@.take(i as int) =~= v@);
            out
        },
        IndexData::U16(v) => {
            let mut out: Vec<u32> = Vec::new();
            let mut i: usize = 0;
            while i < v.len()
                invariant
                    i <= v@.len(),
                    out@ == v@.take(i as int).map_values(|x: u16| x as u32),
                decreases v@.len() - i,
            {
                out.push(v[i] as u32);
                i = i + 1;
                proof {
                    assert(v@.take(i as int) == v@.take(i - 1).push(v@[i - 1]));
                    assert(out@ =~= v@.take(i as int).map_values(|x: u16| x as u32));
                }
            }
            assert(v@.take(i as int) =~= v@);
            out
        },
        IndexData::U32(v) => v,
    }
}

/// `0, 1, ..., count - 1`: the indices that draw an unindexed primitive.
pub fn sequential_indices(count: u32) -> (r: Vec<u32>)
    ensures
        r@.len() == count,
        forall|i: int| 0 <= i < count ==> r@[i] == i,
{
    let mut out: Vec<u32> = Vec::new();
    let mut i: u32 = 0;
    while i < count
        invariant
            i <= count,
            out@.len() == i,
            forall|k: int| 0 <= k < i ==> out@[k] == k,
        decreases count - i,
    {
        out.push(i);
        i = i + 1;
    }
    out
}

/// The indices of a primitive with `vertex_count` vertices: the stored ones
/// widened to 32 bits, or the vertices in order when none are stored.
pub fn primitive_indices(indices: Option<IndexData>, vertex_count: u32) -> (r: Vec<u32>)
    ensures
        indices matches Some(d) ==> r@ == widened(d),
        indices is None ==> r@.len() == vertex_count && forall|i: int|
            0 <= i < vertex_count ==> r@[i] == i,
{
    match indices {
        Some(d) => convert_indices(d),
        None => sequential_indices(vertex_count),
    }
}

/// `values` cut or padded with `fill` to exactly `count` entries.
pub fn fit_to_count<T: Copy>(values: Vec<T>, count: usize, fill: T) -> (r: Vec<T>)
    ensures
        r@.len() == count,
        forall|i: int| 0 <= i < count && i < values@.len() ==> r@[i] == values@[i],
        forall|i: int| values@.len() <= i < count ==> r@[i] == fill,
{
    let mut out = values;
    if out.len() > count {
        out.truncate(count);
        return out;
    }
    let ghost original = out@;
    while out.len() < count
        invariant
            original.len() <= out@.len() <= count,
            out@.take(original.len() as int) == original,
            forall|i: int| original.len() <= i < out@.len() ==> out@[i] == fill,
        decreases count - out@.len(),
    {
        let ghost before = out@;
        out.push(fill);
        proof {
            assert(out@.take(original.len() as int) =~= before.take(original.len() as int));
        }
    }
    proof {
        assert forall|i: int| 0 <= i < count && i < original.len() implies out@[i] == original[i] by {
            assert(out@.take(original.len() as int)[i] == out@[i]);
        }
    }
    out
}

} // verus!

use vstd::prelude::*;

use crate::layout::{COMPONENT_BYTES, VertexLayout, widths_valid};

verus! {

/// Largest byte size that an upload call accepts (its size parameter is signed).
pub const MAX_UPLOAD_BYTES: usize = isize::MAX as usize;

#[derive(Clone, Copy, Debug, PartialEq, Eq, Structural)]
pub enum GeometryError {
    /// The vertex data or the index list has more bytes than an upload accepts.
    TooLarge,
    /// The vertex data is not a whole number of vertices.
    RaggedVertexData,
    /// The index at `position` names no vertex.
    IndexOutOfRange { position: usize },
}

/// Interleaved vertex components (each the bit pattern of a 32-bit float),
/// their layout, and an optional index list.
pub struct GeometryBuffer {
    layout: VertexLayout,
    vertex_data: Vec<u32>,
    indices: Option<Vec<u32>>,
}

pub open spec fn fits_upload(n: int) -> bool {
    COMPONENT_BYTES * n <= MAX_UPLOAD_BYTES
}

pub open spec fn all_indices_below(ix: Seq<u32>, vertex_count: int) -> bool {
    forall|j: int| 0 <= j < ix.len() ==> (#[trigger] ix[j] as int) < vertex_count
}

pub open spec fn first_bad_index(ix: Seq<u32>, vertex_count: int, p: int) -> bool {
    0 <= p < ix.len() && ix[p] as int >= vertex_count && all_indices_below(ix.take(p), vertex_count)
}

pub open spec fn opt_view(ix: Option<Vec<u32>>) -> Option<Seq<u32>> {
    match ix {
        Some(v) => Some(v@),
        None => None,
    }
}

proof fn lemma_quarter_bound(n: int)
    ensures
        fits_upload(n) <==> n <= MAX_UPLOAD_BYTES / 4,
{
    let m = MAX_UPLOAD_BYTES as int;
    assert(4 * n <= m <==> n <= m / 4) by (nonlinear_arith)
        requires
            m >= 0,
    ;
}

impl GeometryBuffer {
    pub closed spec fn widths(&self) -> Seq<u32> {
        self.layout.widths()
    }

    pub closed spec fn components(&self) -> Seq<u32> {
        self.vertex_data@
    }

    pub closed spec fn index_list(&self) -> Option<Seq<u32>> {
        opt_view(self.indices)
    }

    /// Float components per vertex.
    pub open spec fn stride_spec(&self) -> int {
        crate::layout::sum_widths(self.widths())
    }

    pub open spec fn vertex_count_spec(&self) -> int {
        self.components().len() as int / self.stride_spec()
    }

    pub closed spec fn wf(&self) -> bool {
        &&& self.layout.wf()
        &&& self.stride_spec() > 0
        &&& self.components().len() as int % self.stride_spec() == 0
        &&& fits_upload(self.components().len() as int)
        &&& match self.index_list() {
            Some(ix) => fits_upload(ix.len() as int) && all_indices_below(
                ix,
                self.vertex_count_spec(),
            ),
            None => true,
        }
    }

    /// Validates vertex data against `layout` and every index against the vertex count.
    pub fn new(layout: VertexLayout, vertex_data: Vec<u32>, indices: Option<Vec<u32>>) -> (r: Result<
        GeometryBuffer,
        GeometryError,
    >)
        requires
            layout.wf(),
        ensures
            ({
                let n = layout.stride_spec();
                let len = vertex_data@.len() as int;
                let vc = len / n;
                &&& !fits_upload(len) ==> r == Err::<GeometryBuffer, GeometryError>(
                    GeometryError::TooLarge,
                )
                &&& fits_upload(len) && len % n != 0 ==> r == Err::<GeometryBuffer, GeometryError>(
                    GeometryError::RaggedVertexData,
                )
                &&& fits_upload(len) && len % n == 0 ==> match indices {
                    None => r is Ok,
                    Some(ix) => {
                        &&& !fits_upload(ix@.len() as int) ==> r == Err::<
                            GeometryBuffer,
                            GeometryError,
                        >(GeometryError::TooLarge)
                        &&& fits_upload(ix@.len() as int) && all_indices_below(ix@, vc) ==> r is Ok
                        &&& fits_upload(ix@.len() as int) && !all_indices_below(ix@, vc) ==> (
                        r matches Err(GeometryError::IndexOutOfRange { position })
                            && first_bad_index(ix@, vc, position as int))
                    },
                }
            }),
            r matches Ok(g) ==> {
                &&& g.wf()
                &&& g.widths() == layout.widths()
                &&& g.components() == vertex_data@
                &&& g.index_list() == opt_view(indices)
            },
    {
        let n = layout.components_per_vertex();
        proof {
            lemma_quarter_bound(vertex_data@.len() as int);
        }
        if vertex_data.len() > MAX_UPLOAD_BYTES / 4 {
            return Err(GeometryError::TooLarge);
        }
        if vertex_data.len() % (n as usize) != 0 {
            return Err(GeometryError::RaggedVertexData);
        }
        let vertex_count = vertex_data.len() / (n as usize);
        match &indices {
            None => {},
            Some(ix) => {
                proof {
                    lemma_quarter_bound(ix@.len() as int);
                }
                if ix.len() > MAX_UPLOAD_BYTES / 4 {
                    return Err(GeometryError::TooLarge);
                }
                let mut i: usize = 0;
                while i < ix.len()
                    invariant
                        0 <= i <= ix@.len(),
                        vertex_count as int == vertex_data@.len() as int / layout.stride_spec(),
                        fits_upload(ix@.len() as int),
                        indices == Some(*ix),
                        fits_upload(vertex_data@.len() as int),
                        vertex_data@.len() as int % layout.stride_spec() == 0,
                        all_indices_below(ix@.take(i as int), vertex_count as int),
                    decreases ix@.len() - i,
                {
                    if ix[i] as usize >= vertex_count {
                        proof {
                            assert(ix@[i as int] as int >= vertex_count as int);
                            assert(first_bad_index(ix@, vertex_count as int, i as int));
                            assert(!all_indices_below(ix@, vertex_count as int));
                        }
                        return Err(GeometryError::IndexOutOfRange { position: i });
                    }
                    proof {
                        assert forall|j: int| 0 <= j < i + 1 implies (#[trigger] ix@.take(
                            i as int + 1,
                        )[j] as int) < vertex_count by {
                            if j < i {
                                assert(ix@.take(i as int + 1)[j] == ix@.take(i as int)[j]);
                            }
                        }
                    }
                    i = i + 1;
                }
                assert(ix@.take(ix@.len() as int) == ix@);
            },
        }
        Ok(GeometryBuffer { layout, vertex_data, indices })
    }

    pub fn layout(&self) -> (r: &VertexLayout)
        ensures
            r.widths() == self.widths(),
            self.wf() ==> r.wf(),
    {
        &self.layout
    }

    /// The components to upload, one 32-bit float bit pattern each.
    pub fn vertex_data(&self) -> (r: &Vec<u32>)
        ensures
            r@ == self.components(),
    {
        &self.vertex_data
    }

    /// The index list; each index names a vertex.
    pub fn indices(&self) -> (r: &Option<Vec<u32>>)
        ensures
            opt_view(*r) == self.index_list(),
            self.wf() ==> match self.index_list() {
                Some(ix) => all_indices_below(ix, self.vertex_count_spec()),
                None => true,
            },
    {
        &self.indices
    }

    pub fn vertex_count(&self) -> (r: usize)
        requires
            self.wf(),
        ensures
            r == self.vertex_count_spec(),
    {
        self.vertex_data.len() / (self.layout.components_per_vertex() as usize)
    }

    /// Byte size of the vertex upload: the component count times the size of a float.
    pub fn vertex_bytes(&self) -> (r: usize)
        requires
            self.wf(),
        ensures
            r == COMPONENT_BYTES * self.components().len(),
    {
        self.vertex_data.len() * 4
    }

    /// Byte size of the index upload, if there is an index list.
    pub fn index_bytes(&self) -> (r: Option<usize>)
        requires
            self.wf(),
        ensures
            match self.index_list() {
                Some(ix) => r == Some((COMPONENT_BYTES * ix.len()) as usize),
                None => r is None,
            },
    {
        match &self.indices {
            Some(ix) => Some(ix.len() * 4),
            None => None,
        }
    }
}

/// Applies an integer cast (`as u32`, which keeps the low 32 bits) to each value of
/// an array, as index literals are written in a wider type than the one uploaded.
pub fn macros(elems: &Vec<u64>) -> (r: Vec<u32>)
    ensures
        r@.len() == elems@.len(),
        forall|i: int| 0 <= i < r@.len() ==> r@[i] == elems@[i] as u32,
{
    let mut out: Vec<u32> = Vec::new();
    let mut i: usize = 0;
    while i < elems.len()
        invariant
            0 <= i <= elems@.len(),
            out@.len() == i,
            forall|j: int| 0 <= j < i ==> out@[j] == elems@[j] as u32,
        decreases elems@.len() - i,
    {
        out.push(elems[i] as u32);
        i = i + 1;
    }
    out
}

} // verus!

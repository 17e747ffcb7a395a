use vstd::prelude::*;

verus! {

/// Size in bytes of one vertex component (a 32-bit float).
pub const COMPONENT_BYTES: u32 = 4;

/// Most attributes a layout may declare (the minimum every driver supports).
pub const MAX_ATTRIBUTES: usize = 16;

/// Most components one attribute may have (a `vec4`).
pub const MAX_WIDTH: u32 = 4;

/// Sum of the widths in `widths`.
pub open spec fn sum_widths(widths: Seq<u32>) -> int
    decreases widths.len(),
{
    if widths.len() == 0 {
        0
    } else {
        sum_widths(widths.drop_last()) + widths.last() as int
    }
}

/// One named per-vertex input, made of `width` float components.
pub struct VertexAttribute {
    pub name: String,
    pub width: u32,
}

/// Where one attribute sits inside an interleaved vertex.
#[derive(Clone, Copy, Debug, PartialEq, Eq, Structural)]
pub struct AttributeBinding {
    pub width: u32,
    pub offset_components: u32,
    pub offset_bytes: u32,
    pub stride_bytes: u32,
}

#[derive(Clone, Copy, Debug, PartialEq, Eq, Structural)]
pub enum LayoutError {
    Empty,
    TooManyAttributes,
    InvalidWidth { position: usize },
}

/// The ordered attributes of an interleaved vertex.
pub struct VertexLayout {
    attributes: Vec<VertexAttribute>,
}

pub open spec fn widths_of(attributes: Seq<VertexAttribute>) -> Seq<u32> {
    attributes.map_values(|a: VertexAttribute| a.width)
}

pub open spec fn width_ok(w: u32) -> bool {
    1 <= w <= MAX_WIDTH
}

/// The first position whose width is out of range, if any.
pub open spec fn first_bad_width(ws: Seq<u32>, p: int) -> bool {
    0 <= p < ws.len() && !width_ok(ws[p]) && forall|j: int| 0 <= j < p ==> width_ok(#[trigger] ws[j])
}

pub open spec fn widths_valid(ws: Seq<u32>) -> bool {
    0 < ws.len() <= MAX_ATTRIBUTES && forall|j: int| 0 <= j < ws.len() ==> width_ok(#[trigger] ws[j])
}

/// The binding that a layout of widths `ws` gives to its attribute `i`.
pub open spec fn binding_spec(ws: Seq<u32>, i: int) -> AttributeBinding {
    AttributeBinding {
        width: ws[i],
        offset_components: sum_widths(ws.take(i)) as u32,
        offset_bytes: (COMPONENT_BYTES * sum_widths(ws.take(i))) as u32,
        stride_bytes: (COMPONENT_BYTES * sum_widths(ws)) as u32,
    }
}

pub proof fn lemma_sum_bounded(ws: Seq<u32>)
    requires
        forall|j: int| 0 <= j < ws.len() ==> width_ok(#[trigger] ws[j]),
    ensures
        0 <= sum_widths(ws) <= MAX_WIDTH * ws.len(),
    decreases ws.len(),
{
    if ws.len() > 0 {
        let d = ws.drop_last();
        assert forall|j: int| 0 <= j < d.len() implies width_ok(#[trigger] d[j]) by {
            assert(d[j] == ws[j]);
        }
        lemma_sum_bounded(d);
        assert(width_ok(ws[ws.len() - 1]));
    }
}

pub proof fn lemma_sum_positive(ws: Seq<u32>)
    requires
        widths_valid(ws),
    ensures
        sum_widths(ws) > 0,
{
    let d = ws.drop_last();
    assert forall|j: int| 0 <= j < d.len() implies width_ok(#[trigger] d[j]) by {
        assert(d[j] == ws[j]);
    }
    lemma_sum_bounded(d);
    assert(width_ok(ws[ws.len() - 1]));
}

/// The attributes tile the vertex: the first starts at offset zero, each next
/// one starts where the one before it ends, and the last ends at the stride.
pub proof fn lemma_offsets_tile_vertex(ws: Seq<u32>)
    requires
        widths_valid(ws),
    ensures
        binding_spec(ws, 0).offset_components == 0,
        forall|i: int|
            0 <= i < ws.len() - 1 ==> (#[trigger] binding_spec(ws, i + 1)).offset_components
                == binding_spec(ws, i).offset_components + ws[i],
        binding_spec(ws, ws.len() - 1).offset_components + ws.last() == sum_widths(ws),
        forall|i: int|
            0 <= i < ws.len() ==> (#[trigger] binding_spec(ws, i)).stride_bytes == COMPONENT_BYTES
                * sum_widths(ws) && binding_spec(ws, i).offset_bytes == COMPONENT_BYTES
                * binding_spec(ws, i).offset_components,
{
    assert(ws.take(0) =~= Seq::<u32>::empty());
    lemma_sum_bounded(ws);
    assert forall|i: int| 0 <= i < ws.len() implies sum_widths(ws.take(i)) + ws[i] == sum_widths(
        ws.take(i + 1),
    ) && 0 <= sum_widths(#[trigger] ws.take(i)) <= MAX_WIDTH * MAX_ATTRIBUTES by {
        assert(ws.take(i + 1).drop_last() == ws.take(i));
        assert forall|j: int| 0 <= j < i implies width_ok(#[trigger] ws.take(i)[j]) by {
            assert(ws.take(i)[j] == ws[j]);
        }
        lemma_sum_bounded(ws.take(i));
    }
    assert(ws.take(ws.len() as int) == ws);
    assert forall|i: int| 0 <= i < ws.len() - 1 implies (#[trigger] binding_spec(
        ws,
        i + 1,
    )).offset_components == binding_spec(ws, i).offset_components + ws[i] by {
        assert(0 <= sum_widths(ws.take(i + 1)) <= MAX_WIDTH * MAX_ATTRIBUTES);
    }
    assert(sum_widths(ws.take(ws.len() - 1)) + ws[ws.len() - 1] == sum_widths(ws.take(ws.len() as int)));
}

impl VertexLayout {
    pub closed spec fn widths(&self) -> Seq<u32> {
        widths_of(self.attributes@)
    }

    pub closed spec fn names(&self) -> Seq<Seq<char>> {
        self.attributes@.map_values(|a: VertexAttribute| a.name@)
    }

    pub closed spec fn wf(&self) -> bool {
        widths_valid(self.widths())
    }

    /// Components per vertex: the sum of the widths.
    pub open spec fn stride_spec(&self) -> int {
        sum_widths(self.widths())
    }

    /// Checks the widths: each is 1 to 4 components, and there are 1 to 16 attributes.
    pub fn new(attributes: Vec<VertexAttribute>) -> (r: Result<VertexLayout, LayoutError>)
        ensures
            attributes@.len() == 0 ==> r == Err::<VertexLayout, LayoutError>(LayoutError::Empty),
            attributes@.len() > MAX_ATTRIBUTES ==> r == Err::<VertexLayout, LayoutError>(
                LayoutError::TooManyAttributes,
            ),
            0 < attributes@.len() <= MAX_ATTRIBUTES ==> match r {
                Ok(l) => widths_valid(widths_of(attributes@)),
                Err(LayoutError::InvalidWidth { position }) => first_bad_width(
                    widths_of(attributes@),
                    position as int,
                ),
                _ => false,
            },
            r matches Ok(l) ==> l.wf() && l.widths() == widths_of(attributes@) && l.names()
                == attributes@.map_values(|a: VertexAttribute| a.name@),
    {
        if attributes.len() == 0 {
            return Err(LayoutError::Empty);
        }
        if attributes.len() > MAX_ATTRIBUTES {
            return Err(LayoutError::TooManyAttributes);
        }
        let ghost ws = widths_of(attributes@);
        let mut i: usize = 0;
        while i < attributes.len()
            invariant
                0 <= i <= attributes@.len(),
                ws == widths_of(attributes@),
                0 < attributes@.len() <= MAX_ATTRIBUTES,
                forall|j: int| 0 <= j < i ==> width_ok(#[trigger] ws[j]),
            decreases attributes@.len() - i,
        {
            let w = attributes[i].width;
            if w < 1 || w > MAX_WIDTH {
                return Err(LayoutError::InvalidWidth { position: i });
            }
            i = i + 1;
        }
        Ok(VertexLayout { attributes })
    }

    pub fn len(&self) -> (r: usize)
        ensures
            r == self.widths().len(),
    {
        self.attributes.len()
    }

    /// Name of attribute `i`, as the shader declares it.
    pub fn name(&self, i: usize) -> (r: &str)
        requires
            i < self.widths().len(),
        ensures
            r@ == self.names()[i as int],
    {
        self.attributes[i].name.as_str()
    }

    /// Float components per vertex.
    pub fn components_per_vertex(&self) -> (r: u32)
        requires
            self.wf(),
        ensures
            r == self.stride_spec(),
            0 < r <= MAX_WIDTH * MAX_ATTRIBUTES,
    {
        let ghost ws = self.widths();
        proof {
            lemma_sum_bounded(ws);
            lemma_sum_positive(ws);
        }
        let mut sum: u32 = 0;
        let mut i: usize = 0;
        while i < self.attributes.len()
            invariant
                0 <= i <= ws.len(),
                ws == self.widths(),
                widths_valid(ws),
                sum == sum_widths(ws.take(i as int)),
            decreases ws.len() - i,
        {
            proof {
                assert(ws.take(i as int + 1).drop_last() == ws.take(i as int));
                lemma_sum_bounded(ws.take(i as int + 1));
            }
            sum = sum + self.attributes[i].width;
            i = i + 1;
        }
        assert(ws.take(ws.len() as int) == ws);
        sum
    }

    /// Bytes per vertex.
    pub fn stride_bytes(&self) -> (r: u32)
        requires
            self.wf(),
        ensures
            r == COMPONENT_BYTES * self.stride_spec(),
    {
        COMPONENT_BYTES * self.components_per_vertex()
    }

    /// Offset and stride of each attribute: the offsets are the prefix sums
    /// of the preceding widths, and the stride is the whole vertex.
    pub fn bindings(&self) -> (r: Vec<AttributeBinding>)
        requires
            self.wf(),
        ensures
            r@.len() == self.widths().len(),
            forall|i: int| 0 <= i < r@.len() ==> r@[i] == binding_spec(self.widths(), i),
            forall|i: int|
                0 <= i < r@.len() ==> (#[trigger] r@[i]).stride_bytes == COMPONENT_BYTES
                    * self.stride_spec() && r@[i].offset_components == sum_widths(
                    self.widths().take(i),
                ),
    {
        let ghost ws = self.widths();
        let stride = self.stride_bytes();
        proof {
            lemma_sum_bounded(ws);
        }
        let mut out: Vec<AttributeBinding> = Vec::new();
        let mut sum: u32 = 0;
        let mut i: usize = 0;
        while i < self.attributes.len()
            invariant
                0 <= i <= ws.len(),
                ws == self.widths(),
                widths_valid(ws),
                stride == COMPONENT_BYTES * sum_widths(ws),
                sum == sum_widths(ws.take(i as int)),
                out@.len() == i,
                forall|j: int| 0 <= j < i ==> out@[j] == binding_spec(ws, j),
                forall|j: int|
                    0 <= j < i ==> (#[trigger] out@[j]).stride_bytes == stride
                        && out@[j].offset_components == sum_widths(ws.take(j)),
            decreases ws.len() - i,
        {
            proof {
                assert(ws.take(i as int + 1).drop_last() == ws.take(i as int));
                lemma_sum_bounded(ws.take(i as int + 1));
                lemma_sum_bounded(ws.take(i as int));
            }
            let w = self.attributes[i].width;
            out.push(
                AttributeBinding {
                    width: w,
                    offset_components: sum,
                    offset_bytes: COMPONENT_BYTES * sum,
                    stride_bytes: stride,
                },
            );
            sum = sum + w;
            i = i + 1;
        }
        out
    }
}

} // verus!

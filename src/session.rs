use vstd::prelude::*;

use crate::geometry::GeometryBuffer;

verus! {

/// Names of the GPU objects a session created during setup.
#[derive(Clone, Copy, Debug, PartialEq, Eq, Structural)]
pub struct GpuHandles {
    pub vertex_array: u32,
    pub vertex_buffer: u32,
    pub index_buffer: Option<u32>,
    pub vertex_shader: u32,
    pub fragment_shader: u32,
    pub program: u32,
}

/// One object to release at teardown.
#[derive(Clone, Copy, Debug, PartialEq, Eq, Structural)]
pub enum Release {
    Texture(u32),
    Program(u32),
    Shader(u32),
    Buffer(u32),
    VertexArray(u32),
    Context,
}

#[derive(Clone, Copy, Debug, PartialEq, Eq, Structural)]
pub enum Primitive {
    Triangles,
}

/// One draw call over the whole vertex (or index) set.
#[derive(Clone, Copy, Debug, PartialEq, Eq, Structural)]
pub struct DrawCall {
    pub mode: Primitive,
    pub indexed: bool,
    pub count: usize,
    pub textures_bound: usize,
}

/// What the frame loop does next.
#[derive(Clone, Copy, Debug, PartialEq, Eq, Structural)]
pub enum Frame {
    /// Clear, issue this draw call, present.
    Draw(DrawCall),
    /// Leave the loop.
    Stop,
}

/// The state of a session as the contracts see it.
pub struct SessionView {
    pub draw: DrawCall,
    pub handles: GpuHandles,
    pub textures: Seq<Option<u32>>,
    pub closed: bool,
    pub torn_down: bool,
}

/// One demo's geometry, GPU objects and textures (each `None` where its image
/// failed to decode), with where the frame loop and teardown stand.
pub struct RenderSession {
    geometry: GeometryBuffer,
    draw: DrawCall,
    handles: GpuHandles,
    textures: Vec<Option<u32>>,
    closed: bool,
    torn_down: bool,
}

/// Every requested texture was decoded and uploaded.
pub open spec fn all_loaded(textures: Seq<Option<u32>>) -> bool {
    forall|i: int| 0 <= i < textures.len() ==> (#[trigger] textures[i]) is Some
}

/// One frame: a draw while the window stays open and every texture loaded;
/// otherwise the loop ends for good.
pub open spec fn step(s: SessionView, close_requested: bool) -> (SessionView, Frame) {
    if s.torn_down || s.closed || close_requested || !all_loaded(s.textures) {
        (SessionView { closed: true, ..s }, Frame::Stop)
    } else {
        (s, Frame::Draw(s.draw))
    }
}

/// The state after one frame per close signal in `closes`.
pub open spec fn run(s: SessionView, closes: Seq<bool>) -> SessionView
    decreases closes.len(),
{
    if closes.len() == 0 {
        s
    } else {
        run(step(s, closes[0]).0, closes.drop_first())
    }
}

/// Draw calls made over one frame per close signal in `closes`.
pub open spec fn draws(s: SessionView, closes: Seq<bool>) -> nat
    decreases closes.len(),
{
    if closes.len() == 0 {
        0
    } else {
        let (t, f) = step(s, closes[0]);
        (if f is Draw {
            1nat
        } else {
            0nat
        }) + draws(t, closes.drop_first())
    }
}

/// Frames before the first close signal.
pub open spec fn frames_before_close(closes: Seq<bool>) -> nat
    decreases closes.len(),
{
    if closes.len() == 0 || closes[0] {
        0
    } else {
        1 + frames_before_close(closes.drop_first())
    }
}

/// Releases of the textures that exist, in the order they were requested.
pub open spec fn texture_releases(textures: Seq<Option<u32>>) -> Seq<Release>
    decreases textures.len(),
{
    if textures.len() == 0 {
        seq![]
    } else {
        texture_releases(textures.drop_last()) + match textures.last() {
            Some(h) => seq![Release::Texture(h)],
            None => seq![],
        }
    }
}

/// Everything a session holds, in release order: textures, then program and
/// both shader stages, then index buffer, vertex buffer, vertex array and context.
pub open spec fn release_plan(s: SessionView) -> Seq<Release> {
    let h = s.handles;
    texture_releases(s.textures) + seq![
        Release::Program(h.program),
        Release::Shader(h.fragment_shader),
        Release::Shader(h.vertex_shader),
    ] + match h.index_buffer {
        Some(b) => seq![Release::Buffer(b)],
        None => seq![],
    } + seq![Release::Buffer(h.vertex_buffer), Release::VertexArray(h.vertex_array), Release::Context]
}

/// Teardown: the whole plan the first time, nothing after that.
pub open spec fn teardown_spec(s: SessionView) -> (SessionView, Seq<Release>) {
    if s.torn_down {
        (s, seq![])
    } else {
        (SessionView { closed: true, torn_down: true, ..s }, release_plan(s))
    }
}

pub open spec fn draw_for(g: GeometryBuffer, textures_bound: usize) -> DrawCall {
    DrawCall {
        mode: Primitive::Triangles,
        indexed: g.index_list() is Some,
        count: match g.index_list() {
            Some(ix) => ix.len() as usize,
            None => g.vertex_count_spec() as usize,
        },
        textures_bound,
    }
}

/// If a requested texture failed to load, the frame loop draws nothing however
/// the close signals fall, leaves the session's objects as they were, and a
/// teardown afterwards still releases every one of them.
pub proof fn lemma_failed_texture_skips_drawing(s: SessionView, closes: Seq<bool>)
    requires
        !all_loaded(s.textures),
    ensures
        draws(s, closes) == 0,
        run(s, closes).handles == s.handles,
        run(s, closes).textures == s.textures,
        !s.torn_down ==> teardown_spec(run(s, closes)).1 == release_plan(s),
    decreases closes.len(),
{
    if closes.len() > 0 {
        lemma_failed_texture_skips_drawing(step(s, closes[0]).0, closes.drop_first());
    }
}

/// With every texture loaded, the loop draws once per frame until the first
/// close signal, and never again after it.
pub proof fn lemma_loop_draws_until_close(s: SessionView, closes: Seq<bool>)
    requires
        all_loaded(s.textures),
        !s.closed,
        !s.torn_down,
    ensures
        draws(s, closes) == frames_before_close(closes),
    decreases closes.len(),
{
    if closes.len() > 0 {
        if closes[0] {
            lemma_closed_draws_nothing(step(s, closes[0]).0, closes.drop_first());
        } else {
            lemma_loop_draws_until_close(s, closes.drop_first());
        }
    }
}

/// A closed session draws nothing more.
proof fn lemma_closed_draws_nothing(s: SessionView, closes: Seq<bool>)
    requires
        s.closed,
    ensures
        draws(s, closes) == 0,
    decreases closes.len(),
{
    if closes.len() > 0 {
        lemma_closed_draws_nothing(step(s, closes[0]).0, closes.drop_first());
    }
}

/// Every texture that exists is released.
proof fn lemma_texture_releases_complete(textures: Seq<Option<u32>>, i: int)
    requires
        0 <= i < textures.len(),
        textures[i] is Some,
    ensures
        texture_releases(textures).contains(Release::Texture(textures[i]->0)),
    decreases textures.len(),
{
    let rest = textures.drop_last();
    let tail = match textures.last() {
        Some(h) => seq![Release::Texture(h)],
        None => seq![],
    };
    if i == textures.len() - 1 {
        assert((texture_releases(rest) + tail)[texture_releases(rest).len() as int]
            == Release::Texture(textures[i]->0));
    } else {
        assert(rest[i] == textures[i]);
        lemma_texture_releases_complete(rest, i);
        let k = choose|k: int|
            0 <= k < texture_releases(rest).len() && texture_releases(rest)[k] == Release::Texture(
                textures[i]->0,
            );
        assert((texture_releases(rest) + tail)[k] == Release::Texture(textures[i]->0));
    }
}

/// Teardown leaks nothing: the plan releases every texture that exists, the
/// program, both shader stages, each buffer, the vertex array and the context.
pub proof fn lemma_release_plan_complete(s: SessionView)
    ensures
        forall|i: int|
            0 <= i < s.textures.len() && (#[trigger] s.textures[i]) is Some ==> release_plan(
                s,
            ).contains(Release::Texture(s.textures[i]->0)),
        release_plan(s).contains(Release::Program(s.handles.program)),
        release_plan(s).contains(Release::Shader(s.handles.vertex_shader)),
        release_plan(s).contains(Release::Shader(s.handles.fragment_shader)),
        release_plan(s).contains(Release::Buffer(s.handles.vertex_buffer)),
        s.handles.index_buffer matches Some(b) ==> release_plan(s).contains(Release::Buffer(b)),
        release_plan(s).contains(Release::VertexArray(s.handles.vertex_array)),
        release_plan(s).contains(Release::Context),
{
    let h = s.handles;
    let t = texture_releases(s.textures);
    let a = t + seq![
        Release::Program(h.program),
        Release::Shader(h.fragment_shader),
        Release::Shader(h.vertex_shader),
    ];
    let ib = match h.index_buffer {
        Some(b) => seq![Release::Buffer(b)],
        None => seq![],
    };
    let b = a + ib;
    let tail = seq![
        Release::Buffer(h.vertex_buffer),
        Release::VertexArray(h.vertex_array),
        Release::Context,
    ];
    let p = b + tail;
    assert(p == release_plan(s));
    assert forall|i: int|
        0 <= i < s.textures.len() && (#[trigger] s.textures[i]) is Some implies p.contains(
        Release::Texture(s.textures[i]->0),
    ) by {
        lemma_texture_releases_complete(s.textures, i);
        let k = choose|k: int| 0 <= k < t.len() && t[k] == Release::Texture(s.textures[i]->0);
        assert(p[k] == t[k]);
    }
    assert(p[t.len() as int] == Release::Program(h.program));
    assert(p[t.len() as int + 1] == Release::Shader(h.fragment_shader));
    assert(p[t.len() as int + 2] == Release::Shader(h.vertex_shader));
    if let Some(x) = h.index_buffer {
        assert(p[t.len() as int + 3] == Release::Buffer(x));
    }
    assert(p[b.len() as int] == Release::Buffer(h.vertex_buffer));
    assert(p[b.len() as int + 1] == Release::VertexArray(h.vertex_array));
    assert(p[b.len() as int + 2] == Release::Context);
}

/// Tearing down twice is harmless: the second teardown releases nothing and
/// changes nothing.
pub proof fn lemma_teardown_idempotent(s: SessionView)
    ensures
        teardown_spec(teardown_spec(s).0) == (teardown_spec(s).0, Seq::<Release>::empty()),
{
}

impl View for RenderSession {
    type V = SessionView;

    closed spec fn view(&self) -> SessionView {
        SessionView {
            draw: self.draw,
            handles: self.handles,
            textures: self.textures@,
            closed: self.closed,
            torn_down: self.torn_down,
        }
    }
}

impl RenderSession {
    pub closed spec fn geometry_spec(&self) -> GeometryBuffer {
        self.geometry
    }

    /// Assembles a session after setup. `textures` holds, per requested texture,
    /// the name of its texture object, or `None` where decoding failed.
    pub fn new(geometry: GeometryBuffer, handles: GpuHandles, textures: Vec<Option<u32>>) -> (r:
        RenderSession)
        requires
            geometry.wf(),
        ensures
            r@ == (SessionView {
                draw: draw_for(geometry, textures@.len() as usize),
                handles,
                textures: textures@,
                closed: false,
                torn_down: false,
            }),
            r.geometry_spec() == geometry,
    {
        let count = match geometry.indices() {
            Some(ix) => ix.len(),
            None => geometry.vertex_count(),
        };
        let draw = DrawCall {
            mode: Primitive::Triangles,
            indexed: geometry.indices().is_some(),
            count,
            textures_bound: textures.len(),
        };
        RenderSession { geometry, draw, handles, textures, closed: false, torn_down: false }
    }

    pub fn geometry(&self) -> (r: &GeometryBuffer)
        ensures
            *r == self.geometry_spec(),
    {
        &self.geometry
    }

    pub fn handles(&self) -> (r: GpuHandles)
        ensures
            r == self@.handles,
    {
        self.handles
    }

    /// Whether every requested texture loaded, which the frame loop needs.
    pub fn textures_ready(&self) -> (r: bool)
        ensures
            r == all_loaded(self@.textures),
    {
        let mut i: usize = 0;
        while i < self.textures.len()
            invariant
                0 <= i <= self.textures@.len(),
                forall|j: int| 0 <= j < i ==> (#[trigger] self.textures@[j]) is Some,
            decreases self.textures@.len() - i,
        {
            if self.textures[i].is_none() {
                return false;
            }
            i = i + 1;
        }
        true
    }

    /// Decides one iteration of the frame loop, given whether the window was asked to close.
    pub fn next_frame(&mut self, close_requested: bool) -> (r: Frame)
        ensures
            (final(self)@, r) == step(old(self)@, close_requested),
            final(self).geometry_spec() == old(self).geometry_spec(),
    {
        if self.torn_down || self.closed || close_requested || !self.textures_ready() {
            self.closed = true;
            Frame::Stop
        } else {
            Frame::Draw(self.draw)
        }
    }

    /// Lists what to release, in order; a second call lists nothing.
    pub fn teardown(&mut self) -> (r: Vec<Release>)
        ensures
            (final(self)@, r@) == teardown_spec(old(self)@),
            final(self).geometry_spec() == old(self).geometry_spec(),
    {
        if self.torn_down {
            return Vec::new();
        }
        let mut out: Vec<Release> = Vec::new();
        let mut i: usize = 0;
        while i < self.textures.len()
            invariant
                0 <= i <= self.textures@.len(),
                out@ == texture_releases(self.textures@.take(i as int)),
            decreases self.textures@.len() - i,
        {
            proof {
                assert(self.textures@.take(i as int + 1).drop_last() == self.textures@.take(
                    i as int,
                ));
            }
            match self.textures[i] {
                Some(h) => out.push(Release::Texture(h)),
                None => {},
            }
            i = i + 1;
        }
        assert(self.textures@.take(self.textures@.len() as int) == self.textures@);
        let h = self.handles;
        out.push(Release::Program(h.program));
        out.push(Release::Shader(h.fragment_shader));
        out.push(Release::Shader(h.vertex_shader));
        match h.index_buffer {
            Some(b) => out.push(Release::Buffer(b)),
            None => {},
        }
        out.push(Release::Buffer(h.vertex_buffer));
        out.push(Release::VertexArray(h.vertex_array));
        out.push(Release::Context);
        self.closed = true;
        self.torn_down = true;
        assert(out@ == release_plan(old(self)@));
        out
    }
}

} // verus!

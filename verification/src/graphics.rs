use vstd::prelude::*;
use crate::buffer::{grown_capacity, BufferPlan, BUFFER_LIMIT_BOUND};
use crate::error::{GameError, GameResult};
use crate::math::{apply_x, apply_y, Region, Size, Transform, Vector};
use crate::params::{CornerColors, GlyphQuad, SpriteDrawParams};
use crate::vertex::{Color, PrimitiveType, Vertex};

verus! {

/// A batch indexes its vertices with 16-bit indices, so it can hold at
/// most this many vertices before it must be flushed.
pub const MAX_BATCH_VERTICES: usize = 65536;

/// Where draw calls land: the default framebuffer with an optional pixel
/// clip rectangle, or an offscreen canvas of fixed pixel dimensions.
#[derive(Debug, Clone, Copy, PartialEq, Eq, Structural)]
pub enum ViewportTarget {
    Screen { clip: Option<Region> },
    Canvas { id: u64, width: i64, height: i64 },
}

/// What makes two draw requests batch-compatible: the render target, the
/// primitive type, the bound texture, and the transform snapshot taken at
/// submission time. Any difference forces a flush between them.
#[derive(Debug, Clone, Copy, PartialEq, Eq, Structural)]
pub struct BatchKey {
    pub target: ViewportTarget,
    pub primitive: PrimitiveType,
    pub texture: Option<u64>,
    pub transform: Transform,
}

/// One submission handed to the GPU layer, in submission order. An upload
/// carries the whole batch and says whether each buffer must be
/// reallocated (to the new capacity) or only sub-updated.
#[derive(Debug, Clone)]
pub enum GpuCommand {
    UploadAndDraw {
        target: ViewportTarget,
        primitive: PrimitiveType,
        texture: Option<u64>,
        vertices: Vec<Vertex>,
        indices: Vec<u16>,
        vertex_realloc: Option<usize>,
        index_realloc: Option<usize>,
    },
    Present,
}

pub open spec fn command_vertex_count(c: GpuCommand) -> nat {
    match c {
        GpuCommand::UploadAndDraw { vertices, .. } => vertices@.len(),
        GpuCommand::Present => 0,
    }
}

pub open spec fn command_wf(c: GpuCommand) -> bool {
    match c {
        GpuCommand::UploadAndDraw { vertices, indices, .. } => forall|i: int|
            0 <= i < indices@.len() ==> (indices@[i] as int) < vertices@.len(),
        GpuCommand::Present => true,
    }
}

/// The vertices carried by a sequence of submissions.
pub open spec fn commands_vertex_total(s: Seq<GpuCommand>) -> nat
    decreases s.len(),
{
    if s.len() == 0 {
        0
    } else {
        commands_vertex_total(s.drop_last()) + command_vertex_count(s.last())
    }
}

proof fn lemma_commands_total_push(s: Seq<GpuCommand>, c: GpuCommand)
    ensures
        commands_vertex_total(s.push(c)) == commands_vertex_total(s) + command_vertex_count(c),
{
    assert(s.push(c).drop_last() =~= s);
    assert(s.push(c).last() == c);
}

/// Whether a submission is the upload of exactly this batch.
pub open spec fn is_upload_of(
    c: GpuCommand,
    key: BatchKey,
    vertices: Seq<Vertex>,
    indices: Seq<u16>,
    vertex_realloc: Option<usize>,
    index_realloc: Option<usize>,
) -> bool {
    match c {
        GpuCommand::UploadAndDraw {
            target,
            primitive,
            texture,
            vertices: v,
            indices: ix,
            vertex_realloc: vr,
            index_realloc: ir,
        } => target == key.target && primitive == key.primitive && texture == key.texture && v@
            == vertices && ix@ == indices && vr == vertex_realloc && ir == index_realloc,
        GpuCommand::Present => false,
    }
}

pub open spec fn sprite_region(params: SpriteDrawParams) -> Region {
    match params.region {
        Some(r) => r,
        None => Region { x: 0, y: 0, width: 1, height: 1 },
    }
}

pub open spec fn sprite_origin(params: SpriteDrawParams) -> Vector {
    match params.origin {
        Some(o) => o,
        None => Vector { x: 0, y: 0 },
    }
}

pub open spec fn sprite_offset(params: SpriteDrawParams) -> Vector {
    match params.position {
        Some(p) => p,
        None => Vector { x: 0, y: 0 },
    }
}

pub open spec fn sprite_colors(params: SpriteDrawParams) -> CornerColors {
    match params.colors {
        Some(c) => c,
        None => CornerColors {
            top_left: Color::spec_white(),
            top_right: Color::spec_white(),
            bottom_left: Color::spec_white(),
            bottom_right: Color::spec_white(),
        },
    }
}

/// Corner k of a quad, in the order top-left, top-right, bottom-left,
/// bottom-right: its offset within the region.
pub open spec fn corner_dx(k: int, reg: Region) -> int {
    if k == 1 || k == 3 {
        reg.width as int
    } else {
        0
    }
}

pub open spec fn corner_dy(k: int, reg: Region) -> int {
    if k == 2 || k == 3 {
        reg.height as int
    } else {
        0
    }
}

pub open spec fn corner_color(c: CornerColors, k: int) -> Color {
    if k == 0 {
        c.top_left
    } else if k == 1 {
        c.top_right
    } else if k == 2 {
        c.bottom_left
    } else {
        c.bottom_right
    }
}

/// Vertex `v` is corner `k` of the sprite quad built from `params` and
/// baked through transform `t`: its position is the transformed corner,
/// its uv the region corner, its color the corner color.
pub open spec fn is_sprite_corner(v: Vertex, params: SpriteDrawParams, t: Transform, k: int) -> bool {
    let reg = sprite_region(params);
    let o = sprite_origin(params);
    let p = sprite_offset(params);
    let lx = corner_dx(k, reg) - o.x + p.x;
    let ly = corner_dy(k, reg) - o.y + p.y;
    &&& v.position.x == apply_x(t, lx, ly)
    &&& v.position.y == apply_y(t, lx, ly)
    &&& v.uv.x == reg.x + corner_dx(k, reg)
    &&& v.uv.y == reg.y + corner_dy(k, reg)
    &&& v.color == corner_color(sprite_colors(params), k)
}

pub open spec fn is_sprite_quad(q: Seq<Vertex>, params: SpriteDrawParams, t: Transform) -> bool {
    &&& q.len() == 4
    &&& is_sprite_corner(q[0], params, t, 0)
    &&& is_sprite_corner(q[1], params, t, 1)
    &&& is_sprite_corner(q[2], params, t, 2)
    &&& is_sprite_corner(q[3], params, t, 3)
}

/// The two triangles of a quad whose four corners start at `base`.
pub open spec fn is_quad_indices(ix: Seq<u16>, base: int) -> bool {
    &&& ix.len() == 6
    &&& ix[0] == base
    &&& ix[1] == base + 1
    &&& ix[2] == base + 2
    &&& ix[3] == base + 2
    &&& ix[4] == base + 1
    &&& ix[5] == base + 3
}

/// Graphics configuration: the per-session growth limit of each GPU
/// buffer, in units.
#[derive(Debug, Clone)]
pub struct GraphicsConfig {
    pub max_buffer_units: usize,
}

impl GraphicsConfig {
    pub fn new() -> (r: Self)
        ensures
            r.max_buffer_units == BUFFER_LIMIT_BOUND,
    {
        Self { max_buffer_units: BUFFER_LIMIT_BOUND }
    }

    pub fn max_buffer_units(self, units: usize) -> (r: Self)
        ensures
            r.max_buffer_units == units,
    {
        Self { max_buffer_units: units }
    }
}

/// The rendering front end: the transform stack, the active render target,
/// the accumulating batch, the capacity bookkeeping of the two GPU
/// buffers, and the submission log that the GPU layer replays in order.
pub struct Graphics {
    transforms: Vec<Transform>,
    target: ViewportTarget,
    batch_key: Option<BatchKey>,
    batch_vertices: Vec<Vertex>,
    batch_indices: Vec<u16>,
    vertex_plan: BufferPlan,
    index_plan: BufferPlan,
    commands: Vec<GpuCommand>,
    screen_size: Size,
}

impl Graphics {
    pub closed spec fn spec_transforms(&self) -> Seq<Transform> {
        self.transforms@
    }

    pub open spec fn spec_current_transform(&self) -> Transform {
        self.spec_transforms().last()
    }

    pub closed spec fn spec_target(&self) -> ViewportTarget {
        self.target
    }

    pub closed spec fn spec_batch_key(&self) -> Option<BatchKey> {
        self.batch_key
    }

    pub closed spec fn spec_batch_vertices(&self) -> Seq<Vertex> {
        self.batch_vertices@
    }

    pub closed spec fn spec_batch_indices(&self) -> Seq<u16> {
        self.batch_indices@
    }

    pub closed spec fn spec_commands(&self) -> Seq<GpuCommand> {
        self.commands@
    }

    pub closed spec fn spec_vertex_capacity(&self) -> usize {
        self.vertex_plan.spec_capacity()
    }

    pub closed spec fn spec_index_capacity(&self) -> usize {
        self.index_plan.spec_capacity()
    }

    pub closed spec fn spec_buffer_limit(&self) -> usize {
        self.vertex_plan.spec_limit()
    }

    pub closed spec fn spec_screen_size(&self) -> Size {
        self.screen_size
    }

    /// Every vertex and every submission the pipeline has accepted.
    pub open spec fn spec_emitted_vertex_total(&self) -> nat {
        commands_vertex_total(self.spec_commands()) + self.spec_batch_vertices().len()
    }

    pub closed spec fn wf(&self) -> bool {
        &&& self.transforms@.len() >= 1
        &&& (forall|i: int| 0 <= i < self.transforms@.len() ==> self.transforms@[i].wf())
        &&& (self.batch_key is None ==> self.batch_vertices@.len() == 0 && self.batch_indices@.len()
            == 0)
        &&& self.batch_vertices@.len() <= MAX_BATCH_VERTICES
        &&& (forall|i: int|
            0 <= i < self.batch_indices@.len() ==> (self.batch_indices@[i] as int)
                < self.batch_vertices@.len())
        &&& (forall|i: int| 0 <= i < self.commands@.len() ==> command_wf(self.commands@[i]))
        &&& self.vertex_plan.wf()
        &&& self.index_plan.wf()
        &&& self.vertex_plan.spec_limit() == self.index_plan.spec_limit()
    }

    pub fn new(config: GraphicsConfig) -> (r: GameResult<Graphics>)
        ensures
            (r is Ok) == (config.max_buffer_units <= BUFFER_LIMIT_BOUND),
            r matches Ok(g) ==> g.wf() && g.spec_transforms() =~= seq![Transform::spec_identity()]
                && g.spec_target() == (ViewportTarget::Screen { clip: None }) && g.spec_batch_key()
                is None && g.spec_commands().len() == 0 && g.spec_vertex_capacity() == 0
                && g.spec_index_capacity() == 0 && g.spec_buffer_limit()
                == config.max_buffer_units,
            r matches Err(e) ==> e is InitError,
    {
        if config.max_buffer_units > BUFFER_LIMIT_BOUND {
            return Err(GameError::InitError("buffer limit out of range".to_owned()));
        }
        let mut transforms: Vec<Transform> = Vec::new();
        transforms.push(Transform::identity());
        Ok(
            Graphics {
                transforms,
                target: ViewportTarget::Screen { clip: None },
                batch_key: None,
                batch_vertices: Vec::new(),
                batch_indices: Vec::new(),
                vertex_plan: BufferPlan::new(config.max_buffer_units),
                index_plan: BufferPlan::new(config.max_buffer_units),
                commands: Vec::new(),
                screen_size: Size { width: 0, height: 0 },
            },
        )
    }

    /// Duplicate the current transform onto the stack.
    pub fn push_transform(&mut self)
        requires
            old(self).wf(),
        ensures
            final(self).wf(),
            final(self).spec_transforms() == old(self).spec_transforms().push(
                old(self).spec_current_transform()),
            unchanged_but_transforms(old(self), final(self)),
    {
        let top = self.transforms[self.transforms.len() - 1];
        self.transforms.push(top);
    }

    /// Remove the current transform, restoring the one below it. Popping
    /// the base entry is a state-contract violation and leaves the stack
    /// untouched.
    pub fn pop_transform(&mut self) -> (r: GameResult)
        requires
            old(self).wf(),
        ensures
            final(self).wf(),
            (r is Ok) == (old(self).spec_transforms().len() > 1),
            r is Ok ==> final(self).spec_transforms() == old(self).spec_transforms().drop_last(),
            r matches Err(e) ==> e is StateError && *final(self) == *old(self),
            unchanged_but_transforms(old(self), final(self)),
    {
        if self.transforms.len() <= 1 {
            return Err(GameError::StateError("cannot pop the base transform".to_owned()));
        }
        let _ = self.transforms.pop();
        Ok(())
    }

    /// Replace the current transform in place (no push).
    pub fn set_transform(&mut self, t: Transform)
        requires
            old(self).wf(),
            t.wf(),
        ensures
            final(self).wf(),
            final(self).spec_transforms() == old(self).spec_transforms().update(
                old(self).spec_transforms().len() - 1,
                t,
            ),
            final(self).spec_current_transform() == t,
            unchanged_but_transforms(old(self), final(self)),
    {
        let last = self.transforms.len() - 1;
        self.transforms.set(last, t);
    }

    /// The transform applied to draw calls submitted now.
    pub fn transform(&self) -> (r: Transform)
        requires
            self.wf(),
        ensures
            r == self.spec_current_transform(),
    {
        self.transforms[self.transforms.len() - 1]
    }

    /// Whether the pending batch fits the session buffer limits, so a
    /// flush of it succeeds.
    pub open spec fn spec_flush_ok(&self) -> bool {
        self.spec_batch_vertices().len() <= self.spec_buffer_limit()
            && self.spec_batch_indices().len() <= self.spec_buffer_limit()
    }

    /// Submit the pending batch, if any, as one draw call: the buffers
    /// grow if the data outgrows them (resource exhaustion if that passes
    /// the session limit), and the batch becomes a submission.
    pub fn flush(&mut self) -> (r: GameResult)
        requires
            old(self).wf(),
        ensures
            final(self).wf(),
            (r is Ok) == old(self).spec_flush_ok(),
            r is Err ==> *final(self) == *old(self),
            r matches Err(e) ==> e is ResourceError,
            old(self).spec_batch_key() is None ==> *final(self) == *old(self),
            r is Ok ==> final(self).spec_batch_key() is None
                && final(self).spec_batch_vertices().len() == 0
                && final(self).spec_batch_indices().len() == 0,
            flush_effect(old(self), final(self)),
            unchanged_stack_target(old(self), final(self)),
            r is Ok ==> final(self).spec_emitted_vertex_total()
                == old(self).spec_emitted_vertex_total(),
    {
        let key = match self.batch_key {
            None => {
                return Ok(());
            },
            Some(k) => k,
        };
        let vlen = self.batch_vertices.len();
        let ilen = self.batch_indices.len();
        if !self.vertex_plan.fits(vlen) || !self.index_plan.fits(ilen) {
            return Err(
                GameError::ResourceError("buffer growth past the session limit".to_owned()),
            );
        }
        let vertex_grew = match self.vertex_plan.ensure(vlen) {
            Ok(grew) => grew,
            Err(e) => {
                return Err(e);
            },
        };
        let index_grew = match self.index_plan.ensure(ilen) {
            Ok(grew) => grew,
            Err(e) => {
                return Err(e);
            },
        };
        let vertex_realloc = if vertex_grew {
            Some(self.vertex_plan.capacity())
        } else {
            None
        };
        let index_realloc = if index_grew {
            Some(self.index_plan.capacity())
        } else {
            None
        };
        let mut vertices: Vec<Vertex> = Vec::new();
        let mut indices: Vec<u16> = Vec::new();
        core::mem::swap(&mut vertices, &mut self.batch_vertices);
        core::mem::swap(&mut indices, &mut self.batch_indices);
        self.batch_key = None;
        let command = GpuCommand::UploadAndDraw {
            target: key.target,
            primitive: key.primitive,
            texture: key.texture,
            vertices,
            indices,
            vertex_realloc,
            index_realloc,
        };
        let ghost pre = self.commands@;
        proof {
            lemma_commands_total_push(self.commands@, command);
        }
        self.commands.push(command);
        proof {
            assert(self.commands@.drop_last() =~= pre);
            assert(self.commands@.last() == command);
        }
        Ok(())
    }

    /// The batch key a draw call submitted now would carry.
    pub open spec fn batch_key_for(&self, primitive: PrimitiveType, texture: Option<u64>) -> BatchKey {
        BatchKey {
            target: self.spec_target(),
            primitive,
            texture,
            transform: self.spec_current_transform(),
        }
    }

    pub open spec fn sprite_key(&self, texture: Option<u64>) -> BatchKey {
        self.batch_key_for(PrimitiveType::Triangles, texture)
    }

    /// Whether a draw call with this key and this many vertices must flush
    /// the pending batch first: an incompatible key, or no spare index
    /// space in the batch.
    pub open spec fn spec_needs_flush(&self, key: BatchKey, add: nat) -> bool {
        match self.spec_batch_key() {
            None => false,
            Some(k) => k != key || self.spec_batch_vertices().len() + add > MAX_BATCH_VERTICES,
        }
    }

    /// Submit one sprite quad: four corners of the (possibly default)
    /// region, shifted by origin and placement, baked through the current
    /// transform, with one color per corner. Consecutive compatible quads
    /// share a batch; an incompatible or full batch is flushed first.
    #[verifier::rlimit(80)]
    pub fn draw_sprite(&mut self, texture: Option<u64>, params: &SpriteDrawParams) -> (r:
        GameResult)
        requires
            old(self).wf(),
            params.wf(),
        ensures
            final(self).wf(),
            unchanged_stack_target(old(self), final(self)),
            (r is Ok) == draw_accepted(old(self), old(self).sprite_key(texture), 4),
            r matches Err(e) ==> e is ResourceError && *final(self) == *old(self),
            r is Ok ==> sprite_drawn(old(self), final(self), texture, *params),
    {
        let t = self.transform();
        let key = BatchKey {
            target: self.target,
            primitive: PrimitiveType::Triangles,
            texture,
            transform: t,
        };
        let needs = match &self.batch_key {
            None => false,
            Some(k) => !(key == *k) || self.batch_vertices.len() + 4 > MAX_BATCH_VERTICES,
        };
        if needs {
            match self.flush() {
                Ok(()) => (),
                Err(e) => {
                    return Err(e);
                },
            }
        }
        let reg = match params.region {
            Some(r) => r,
            None => Region { x: 0, y: 0, width: 1, height: 1 },
        };
        let o = match params.origin {
            Some(v) => v,
            None => Vector { x: 0, y: 0 },
        };
        let p = match params.position {
            Some(v) => v,
            None => Vector { x: 0, y: 0 },
        };
        let colors = match params.colors {
            Some(c) => c,
            None => CornerColors::uniform(Color::white()),
        };
        let base = self.batch_vertices.len();
        let ghost pre_vertices = self.batch_vertices@;
        let ghost pre_indices = self.batch_indices@;
        let v0 = Vertex {
            position: t.apply(Vector { x: 0 - o.x + p.x, y: 0 - o.y + p.y }),
            uv: Vector { x: reg.x, y: reg.y },
            color: colors.top_left,
        };
        let v1 = Vertex {
            position: t.apply(Vector { x: reg.width - o.x + p.x, y: 0 - o.y + p.y }),
            uv: Vector { x: reg.x + reg.width, y: reg.y },
            color: colors.top_right,
        };
        let v2 = Vertex {
            position: t.apply(Vector { x: 0 - o.x + p.x, y: reg.height - o.y + p.y }),
            uv: Vector { x: reg.x, y: reg.y + reg.height },
            color: colors.bottom_left,
        };
        let v3 = Vertex {
            position: t.apply(Vector { x: reg.width - o.x + p.x, y: reg.height - o.y + p.y }),
            uv: Vector { x: reg.x + reg.width, y: reg.y + reg.height },
            color: colors.bottom_right,
        };
        self.batch_vertices.push(v0);
        self.batch_vertices.push(v1);
        self.batch_vertices.push(v2);
        self.batch_vertices.push(v3);
        let i0 = base as u16;
        let i1 = (base + 1) as u16;
        let i2 = (base + 2) as u16;
        let i3 = (base + 3) as u16;
        self.batch_indices.push(i0);
        self.batch_indices.push(i1);
        self.batch_indices.push(i2);
        self.batch_indices.push(i2);
        self.batch_indices.push(i1);
        self.batch_indices.push(i3);
        self.batch_key = Some(key);
        proof {
            assert(self.batch_vertices@.skip(base as int) =~= seq![v0, v1, v2, v3]);
            assert(self.batch_vertices@.take(base as int) =~= pre_vertices);
            assert(self.batch_indices@.skip(pre_indices.len() as int) =~= seq![
                i0,
                i1,
                i2,
                i2,
                i1,
                i3,
            ]);
            assert(self.batch_indices@.take(pre_indices.len() as int) =~= pre_indices);
        }
        Ok(())
    }

    /// Submit an arbitrary vertex/index run under a primitive type. The
    /// positions are baked through the current transform; uv and color
    /// pass through; the indices are rebased onto the batch.
    #[verifier::rlimit(80)]
    pub fn draw_mesh(
        &mut self,
        texture: Option<u64>,
        primitive: PrimitiveType,
        vertices: &Vec<Vertex>,
        indices: &Vec<u16>,
    ) -> (r: GameResult)
        requires
            old(self).wf(),
            forall|k: int| 0 <= k < vertices@.len() ==> (#[trigger] vertices@[k]).position.wf(),
            forall|k: int| 0 <= k < indices@.len() ==> (#[trigger] indices@[k] as int)
                < vertices@.len(),
            vertices@.len() <= MAX_BATCH_VERTICES,
            indices@.len() <= MAX_BATCH_VERTICES,
        ensures
            final(self).wf(),
            unchanged_stack_target(old(self), final(self)),
            vertices@.len() == 0 ==> r is Ok && *final(self) == *old(self),
            vertices@.len() > 0 ==> (r is Ok) == draw_accepted(
                old(self),
                old(self).batch_key_for(primitive, texture),
                vertices@.len(),
            ),
            r matches Err(e) ==> e is ResourceError && *final(self) == *old(self),
            r is Ok && vertices@.len() > 0 ==> mesh_drawn(
                old(self),
                final(self),
                primitive,
                texture,
                vertices@,
                indices@,
            ),
    {
        let n = vertices.len();
        if n == 0 {
            return Ok(());
        }
        let t = self.transform();
        let key = BatchKey { target: self.target, primitive, texture, transform: t };
        let needs = match &self.batch_key {
            None => false,
            Some(k) => !(key == *k) || self.batch_vertices.len() + n > MAX_BATCH_VERTICES,
        };
        if needs {
            match self.flush() {
                Ok(()) => (),
                Err(e) => {
                    return Err(e);
                },
            }
        }
        let base = self.batch_vertices.len();
        let ibase = self.batch_indices.len();
        let ghost pre_vertices = self.batch_vertices@;
        let ghost pre_indices = self.batch_indices@;
        let mut baked: Vec<Vertex> = Vec::new();
        let mut k: usize = 0;
        while k < n
            invariant
                k <= n,
                n == vertices@.len(),
                t.wf(),
                forall|j: int| 0 <= j < n ==> (#[trigger] vertices@[j]).position.wf(),
                baked@.len() == k,
                forall|j: int| 0 <= j < k ==> is_transformed_vertex(baked@[j], vertices@[j], t),
            decreases n - k,
        {
            let src = vertices[k];
            baked.push(Vertex { position: t.apply(src.position), uv: src.uv, color: src.color });
            k += 1;
        }
        let mut rebased: Vec<u16> = Vec::new();
        let m = indices.len();
        let mut k: usize = 0;
        while k < m
            invariant
                k <= m,
                m == indices@.len(),
                base + n <= MAX_BATCH_VERTICES,
                n == vertices@.len(),
                forall|j: int| 0 <= j < m ==> (#[trigger] indices@[j] as int) < n,
                rebased@.len() == k,
                forall|j: int| 0 <= j < k ==> rebased@[j] == base + indices@[j],
            decreases m - k,
        {
            let v = indices[k];
            rebased.push((base + (v as usize)) as u16);
            k += 1;
        }
        self.batch_vertices.append(&mut baked);
        self.batch_indices.append(&mut rebased);
        self.batch_key = Some(key);
        proof {
            assert(self.batch_vertices@.take(base as int) =~= pre_vertices);
            assert(self.batch_indices@.take(ibase as int) =~= pre_indices);
        }
        Ok(())
    }

    /// Submit a laid-out glyph run: one sprite quad per glyph, tinted with
    /// one color, all sharing the font texture. Success is owed whenever
    /// the run starts on an empty batch and the session limits hold at
    /// least one full batch.
    pub fn draw_text(&mut self, texture: u64, glyphs: &Vec<GlyphQuad>, color: Color) -> (r:
        GameResult)
        requires
            old(self).wf(),
            forall|k: int| 0 <= k < glyphs@.len() ==> (#[trigger] glyphs@[k]).wf(),
        ensures
            final(self).wf(),
            unchanged_stack_target(old(self), final(self)),
            r matches Err(e) ==> e is ResourceError,
            r is Ok ==> final(self).spec_emitted_vertex_total() == old(self).spec_emitted_vertex_total() + 4 * glyphs@.len(),
            old(self).spec_batch_key() is None && MAX_BATCH_VERTICES + MAX_BATCH_VERTICES / 2 <= old(self).spec_buffer_limit() ==> r is Ok,
    {
        let ghost clean_start = old(self).spec_batch_key() is None && MAX_BATCH_VERTICES
            + MAX_BATCH_VERTICES / 2 <= old(self).spec_buffer_limit();
        let n = glyphs.len();
        let mut k: usize = 0;
        while k < n
            invariant
                k <= n,
                n == glyphs@.len(),
                forall|j: int| 0 <= j < n ==> (#[trigger] glyphs@[j]).wf(),
                self.wf(),
                unchanged_stack_target(old(self), self),
                self.spec_emitted_vertex_total() == old(self).spec_emitted_vertex_total() + 4 * k,
                clean_start == (old(self).spec_batch_key() is None && MAX_BATCH_VERTICES
                    + MAX_BATCH_VERTICES / 2 <= old(self).spec_buffer_limit()),
                clean_start ==> 2 * self.spec_batch_indices().len() == 3
                    * self.spec_batch_vertices().len(),
                clean_start && k == 0 ==> self.spec_batch_key() is None,
                clean_start && k > 0 ==> self.spec_batch_key() == Some(
                    self.sprite_key(Some(texture))),
            decreases n - k,
        {
            let g = glyphs[k];
            let params = SpriteDrawParams {
                region: Some(g.region),
                origin: None,
                position: Some(g.position),
                colors: Some(CornerColors::uniform(color)),
            };
            let ghost pre = *self;
            match self.draw_sprite(Some(texture), &params) {
                Ok(()) => (),
                Err(e) => {
                    proof {
                        if clean_start {
                            assert(draw_accepted(&pre, pre.sprite_key(Some(texture)), 4));
                        }
                    }
                    return Err(e);
                },
            }
            k += 1;
        }
        Ok(())
    }

    /// Submit the pending batch and mark the frame complete.
    pub fn present(&mut self) -> (r: GameResult)
        requires
            old(self).wf(),
        ensures
            final(self).wf(),
            unchanged_stack_target(old(self), final(self)),
            (r is Ok) == old(self).spec_flush_ok(),
            r matches Err(e) ==> e is ResourceError && *final(self) == *old(self),
            flush_effect_then_present(old(self), final(self)),
            r is Ok ==> final(self).spec_batch_key() is None && final(self).spec_commands().len()
                > 0 && final(self).spec_commands().last() is Present && final(self).spec_emitted_vertex_total() == old(self).spec_emitted_vertex_total(),
    {
        match self.flush() {
            Ok(()) => (),
            Err(e) => {
                return Err(e);
            },
        }
        let ghost pre = self.commands@;
        proof {
            lemma_commands_total_push(self.commands@, GpuCommand::Present);
        }
        self.commands.push(GpuCommand::Present);
        proof {
            assert(self.commands@.drop_last() =~= pre);
            let oldc = old(self).spec_commands();
            if old(self).spec_batch_key() is Some {
                assert(pre.take(oldc.len() as int) =~= pre.drop_last());
                assert(self.commands@.take(oldc.len() as int) =~= pre.take(oldc.len() as int));
                assert(self.commands@[oldc.len() as int] == pre.last());
            }
        }
        Ok(())
    }

    /// Swap the render target. The pending batch references the old
    /// target, so it is flushed first; the transform stack is untouched.
    pub fn set_target(&mut self, target: ViewportTarget) -> (r: GameResult)
        requires
            old(self).wf(),
        ensures
            final(self).wf(),
            (r is Ok) == old(self).spec_flush_ok(),
            r matches Err(e) ==> e is ResourceError && *final(self) == *old(self),
            final(self).spec_transforms() == old(self).spec_transforms(),
            final(self).spec_buffer_limit() == old(self).spec_buffer_limit(),
            final(self).spec_screen_size() == old(self).spec_screen_size(),
            r is Ok ==> final(self).spec_target() == target && final(self).spec_batch_key()
                is None && flush_effect(old(self), final(self)),
            r is Ok && old(self).spec_batch_key() is None ==> final(self).spec_commands() == old(self).spec_commands(),
    {
        match self.flush() {
            Ok(()) => (),
            Err(e) => {
                return Err(e);
            },
        }
        self.target = target;
        Ok(())
    }

    /// The active render target.
    pub fn target(&self) -> (r: ViewportTarget)
        ensures
            r == self.spec_target(),
    {
        self.target
    }

    /// Record the physical size of the drawable surface.
    pub fn resize(&mut self, size: Size)
        requires
            old(self).wf(),
        ensures
            final(self).wf(),
            final(self).spec_screen_size() == size,
            final(self).spec_transforms() == old(self).spec_transforms(),
            final(self).spec_target() == old(self).spec_target(),
            final(self).spec_batch_key() == old(self).spec_batch_key(),
            final(self).spec_batch_vertices() == old(self).spec_batch_vertices(),
            final(self).spec_batch_indices() == old(self).spec_batch_indices(),
            final(self).spec_commands() == old(self).spec_commands(),
            final(self).spec_vertex_capacity() == old(self).spec_vertex_capacity(),
            final(self).spec_index_capacity() == old(self).spec_index_capacity(),
            final(self).spec_buffer_limit() == old(self).spec_buffer_limit(),
    {
        self.screen_size = size;
    }

    pub fn screen_size(&self) -> (r: Size)
        ensures
            r == self.spec_screen_size(),
    {
        self.screen_size
    }

    /// Hand the accumulated submissions to the GPU layer, in submission
    /// order, leaving the log empty.
    pub fn drain_commands(&mut self) -> (r: Vec<GpuCommand>)
        requires
            old(self).wf(),
        ensures
            final(self).wf(),
            r@ == old(self).spec_commands(),
            final(self).spec_commands().len() == 0,
            final(self).spec_transforms() == old(self).spec_transforms(),
            final(self).spec_target() == old(self).spec_target(),
            final(self).spec_batch_key() == old(self).spec_batch_key(),
            final(self).spec_batch_vertices() == old(self).spec_batch_vertices(),
            final(self).spec_batch_indices() == old(self).spec_batch_indices(),
            final(self).spec_vertex_capacity() == old(self).spec_vertex_capacity(),
            final(self).spec_index_capacity() == old(self).spec_index_capacity(),
            final(self).spec_buffer_limit() == old(self).spec_buffer_limit(),
    {
        let mut out: Vec<GpuCommand> = Vec::new();
        core::mem::swap(&mut out, &mut self.commands);
        out
    }

    /// Drop all pending work: used when the rendering context goes away.
    pub fn clean(&mut self)
        requires
            old(self).wf(),
        ensures
            final(self).wf(),
            final(self).spec_batch_key() is None,
            final(self).spec_batch_vertices().len() == 0,
            final(self).spec_batch_indices().len() == 0,
            final(self).spec_commands().len() == 0,
            final(self).spec_transforms() == old(self).spec_transforms(),
            final(self).spec_target() == old(self).spec_target(),
            final(self).spec_buffer_limit() == old(self).spec_buffer_limit(),
    {
        self.batch_key = None;
        self.batch_vertices.clear();
        self.batch_indices.clear();
        self.commands.clear();
    }

    /// How many vertices the pending batch holds.
    pub fn batch_vertex_count(&self) -> (r: usize)
        ensures
            r == self.spec_batch_vertices().len(),
    {
        self.batch_vertices.len()
    }

    /// How many indices the pending batch holds.
    pub fn batch_index_count(&self) -> (r: usize)
        ensures
            r == self.spec_batch_indices().len(),
    {
        self.batch_indices.len()
    }

    /// How deep the transform stack is.
    pub fn transform_depth(&self) -> (r: usize)
        ensures
            r == self.spec_transforms().len(),
    {
        self.transforms.len()
    }
}

/// Everything except the transform stack is unchanged.
pub open spec fn unchanged_but_transforms(a: &Graphics, b: &Graphics) -> bool {
    &&& b.spec_target() == a.spec_target()
    &&& b.spec_batch_key() == a.spec_batch_key()
    &&& b.spec_batch_vertices() == a.spec_batch_vertices()
    &&& b.spec_batch_indices() == a.spec_batch_indices()
    &&& b.spec_commands() == a.spec_commands()
    &&& b.spec_vertex_capacity() == a.spec_vertex_capacity()
    &&& b.spec_index_capacity() == a.spec_index_capacity()
    &&& b.spec_buffer_limit() == a.spec_buffer_limit()
    &&& b.spec_screen_size() == a.spec_screen_size()
}

/// The transform stack, target, screen size, and buffer limit are
/// unchanged.
pub open spec fn unchanged_stack_target(a: &Graphics, b: &Graphics) -> bool {
    &&& b.spec_transforms() == a.spec_transforms()
    &&& b.spec_target() == a.spec_target()
    &&& b.spec_buffer_limit() == a.spec_buffer_limit()
    &&& b.spec_screen_size() == a.spec_screen_size()
}

/// A draw call with this key and vertex count goes through: either no
/// flush is needed, or the pending batch fits the buffer limits.
pub open spec fn draw_accepted(a: &Graphics, key: BatchKey, add: nat) -> bool {
    !a.spec_needs_flush(key, add) || a.spec_flush_ok()
}

/// Appending a run of `add` vertices and `add_idx` indices under `key`:
/// the batch continues when it is compatible and has room, and otherwise
/// starts fresh after the old batch went out as one submission.
pub open spec fn batch_extended(
    a: &Graphics,
    b: &Graphics,
    key: BatchKey,
    add: nat,
    add_idx: nat,
) -> bool {
    &&& b.spec_batch_key() == Some(key)
    &&& b.spec_emitted_vertex_total() == a.spec_emitted_vertex_total() + add
    &&& (!a.spec_needs_flush(key, add) && a.spec_batch_key() is Some ==> {
        &&& b.spec_batch_vertices().len() == a.spec_batch_vertices().len() + add
        &&& b.spec_batch_indices().len() == a.spec_batch_indices().len() + add_idx
        &&& b.spec_batch_vertices().take(a.spec_batch_vertices().len() as int)
            == a.spec_batch_vertices()
        &&& b.spec_batch_indices().take(a.spec_batch_indices().len() as int)
            == a.spec_batch_indices()
        &&& b.spec_commands() == a.spec_commands()
        &&& b.spec_vertex_capacity() == a.spec_vertex_capacity()
        &&& b.spec_index_capacity() == a.spec_index_capacity()
    })
    &&& ((a.spec_needs_flush(key, add) || a.spec_batch_key() is None)
        ==> b.spec_batch_vertices().len() == add && b.spec_batch_indices().len() == add_idx)
    &&& (a.spec_needs_flush(key, add) ==> flush_effect(a, b) && b.spec_commands().len()
        == a.spec_commands().len() + 1)
    &&& (a.spec_batch_key() is None ==> b.spec_commands() == a.spec_commands()
        && b.spec_vertex_capacity() == a.spec_vertex_capacity() && b.spec_index_capacity()
        == a.spec_index_capacity())
}

/// One sprite quad was submitted: the batch grew by its four corners and
/// six indices, and the last four vertices are exactly the quad of these
/// parameters baked through the transform that was current.
pub open spec fn sprite_drawn(
    a: &Graphics,
    b: &Graphics,
    texture: Option<u64>,
    params: SpriteDrawParams,
) -> bool {
    let key = a.sprite_key(texture);
    &&& batch_extended(a, b, key, 4, 6)
    &&& is_sprite_quad(
        b.spec_batch_vertices().skip(b.spec_batch_vertices().len() - 4),
        params,
        a.spec_current_transform(),
    )
    &&& is_quad_indices(
        b.spec_batch_indices().skip(b.spec_batch_indices().len() - 6),
        b.spec_batch_vertices().len() - 4,
    )
}

/// `v` is `src` with its position baked through `t`; uv and color pass
/// through unchanged.
pub open spec fn is_transformed_vertex(v: Vertex, src: Vertex, t: Transform) -> bool {
    &&& v.position.x == apply_x(t, src.position.x as int, src.position.y as int)
    &&& v.position.y == apply_y(t, src.position.x as int, src.position.y as int)
    &&& v.uv == src.uv
    &&& v.color == src.color
}

/// One mesh was submitted: its vertices, baked through the transform that
/// was current, stand at the end of the batch, and its indices follow,
/// rebased onto the batch.
pub open spec fn mesh_drawn(
    a: &Graphics,
    b: &Graphics,
    primitive: PrimitiveType,
    texture: Option<u64>,
    vertices: Seq<Vertex>,
    indices: Seq<u16>,
) -> bool {
    let key = a.batch_key_for(primitive, texture);
    let base = b.spec_batch_vertices().len() - vertices.len();
    let ibase = b.spec_batch_indices().len() - indices.len();
    &&& batch_extended(a, b, key, vertices.len(), indices.len())
    &&& (forall|k: int|
        0 <= k < vertices.len() ==> is_transformed_vertex(
            b.spec_batch_vertices()[base + k],
            vertices[k],
            a.spec_current_transform(),
        ))
    &&& (forall|k: int|
        0 <= k < indices.len() ==> b.spec_batch_indices()[ibase + k] == base + indices[k])
}

/// What a present leaves behind: the batch flushed as `flush_effect` says,
/// then one Present submission at the end.
pub open spec fn flush_effect_then_present(a: &Graphics, b: &Graphics) -> bool {
    a.spec_flush_ok() ==> {
        &&& b.spec_commands().len() > 0
        &&& b.spec_commands().last() is Present
        &&& (a.spec_batch_key() is None ==> b.spec_commands().drop_last() == a.spec_commands())
        &&& (match a.spec_batch_key() {
            None => true,
            Some(key) => {
                &&& b.spec_commands().len() == a.spec_commands().len() + 2
                &&& b.spec_commands().take(a.spec_commands().len() as int) == a.spec_commands()
                &&& is_upload_of(
                    b.spec_commands()[a.spec_commands().len() as int],
                    key,
                    a.spec_batch_vertices(),
                    a.spec_batch_indices(),
                    if a.spec_batch_vertices().len() > a.spec_vertex_capacity() {
                        Some(b.spec_vertex_capacity())
                    } else {
                        None
                    },
                    if a.spec_batch_indices().len() > a.spec_index_capacity() {
                        Some(b.spec_index_capacity())
                    } else {
                        None
                    },
                )
            },
        })
    }
}

/// Law: duplicating the current transform onto the stack, replacing the
/// top in place, and popping restores the stack exactly as it stood before
/// the push. These are the stack shapes that `push_transform`,
/// `set_transform` and `pop_transform` guarantee.
pub proof fn lemma_transform_round_trip(stack: Seq<Transform>, m: Transform)
    requires
        stack.len() >= 1,
    ensures
        stack.push(stack.last()).update(stack.len() as int, m).drop_last() == stack,
{
    assert(stack.push(stack.last()).update(stack.len() as int, m).drop_last() =~= stack);
}

/// What a successful flush of a pending batch leaves behind: one more
/// submission carrying exactly the old batch, and the buffer capacities
/// grown as the growth policy dictates.
pub open spec fn flush_effect(a: &Graphics, b: &Graphics) -> bool {
    match a.spec_batch_key() {
        None => true,
        Some(key) => a.spec_flush_ok() ==> {
            &&& b.spec_commands().len() == a.spec_commands().len() + 1
            &&& b.spec_commands().drop_last() == a.spec_commands()
            &&& is_upload_of(
                b.spec_commands().last(),
                key,
                a.spec_batch_vertices(),
                a.spec_batch_indices(),
                if a.spec_batch_vertices().len() > a.spec_vertex_capacity() {
                    Some(b.spec_vertex_capacity())
                } else {
                    None
                },
                if a.spec_batch_indices().len() > a.spec_index_capacity() {
                    Some(b.spec_index_capacity())
                } else {
                    None
                },
            )
            &&& b.spec_vertex_capacity() == grown_capacity(
                a.spec_vertex_capacity() as nat,
                a.spec_batch_vertices().len(),
                a.spec_buffer_limit() as nat,
            )
            &&& b.spec_index_capacity() == grown_capacity(
                a.spec_index_capacity() as nat,
                a.spec_batch_indices().len(),
                a.spec_buffer_limit() as nat,
            )
        },
    }
}

} // verus!

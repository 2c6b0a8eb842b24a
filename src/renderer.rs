//! Compiling a scene against the shared vertex, index and view-uniform
//! buffers: each command gets byte ranges of those buffers, taken from
//! cursors that start at zero and only grow, and an issue in the ordered list
//! that one render pass replays.
use vstd::prelude::*;

use crate::error::SglError;
use crate::pixel::Pixel;
use crate::scene::{DrawCommand, Scene, TextureId};
use crate::shape::{
    f32_bits_le_zero, Thickness, fill_index_seq, fill_indices, line_index_seq, line_indices,
    outline_index_seq, outline_indices, FILL_VERTEX_COUNT, LINE_VERTEX_COUNT,
    OUTLINE_VERTEX_COUNT,
};

verus! {

/// Bytes of a vertex: a position and a texture coordinate of two `f32` each,
/// and an RGBA fill color of four `f32`.
pub const VERTEX_SIZE: u64 = 32;

/// Bytes of an index (`u32`).
pub const INDEX_SIZE: u64 = 4;

/// Bytes of a view transform: a 4x4 matrix of `f32`.
pub const TRANSFORM_SIZE: u64 = 64;

/// The number of shapes a frame is sized for.
pub const MAX_INSTANCES: u64 = 100_000;

/// Vertex capacity, four per shape.
pub const MAX_VERTICES: u64 = MAX_INSTANCES * 4;

/// Index capacity, six per shape.
pub const MAX_INDICES: u64 = MAX_INSTANCES * 6;

/// The number of view switches a frame may hold.
pub const MAX_VIEWS: u64 = 20;

/// Bytes of the shared vertex buffer.
pub const VBO_SIZE: u64 = VERTEX_SIZE * MAX_VERTICES;

/// Bytes of the shared index buffer.
pub const IBO_SIZE: u64 = INDEX_SIZE * MAX_INDICES;

/// The primitive topology a draw is made with.
#[derive(Debug, Clone, Copy, PartialEq, Eq, Structural)]
pub enum PipelineKind {
    TriangleStrip,
    TriangleList,
}

/// The texture a draw samples: the 1x1 white default, or one of the caller's.
#[derive(Debug, Clone, Copy, PartialEq, Eq, Structural)]
pub enum BindGroupKind {
    White,
    Texture(TextureId),
}

/// The bytes `start..end` of a buffer.
#[derive(Debug, Clone, Copy, PartialEq, Eq, Structural)]
pub struct ByteRange {
    pub start: u64,
    pub end: u64,
}

/// One entry of the issue list that a render pass replays in order.
#[derive(Debug, Clone, Copy, PartialEq, Eq, Structural)]
pub enum RenderCommand {
    /// An indexed draw of the geometry of scene command `command`, whose
    /// vertices the caller writes at `vbo_bounds` of the vertex buffer.
    Draw {
        command: usize,
        pipeline: PipelineKind,
        bind_group: BindGroupKind,
        vbo_bounds: ByteRange,
        ibo_bounds: ByteRange,
        index_count: u32,
    },
    /// A switch to the view of scene command `command`, whose transform the
    /// caller writes at byte `offset` of the uniform buffer.
    View { command: usize, offset: u64 },
}

/// What the render pass does with the target first.
#[derive(Debug, Clone, Copy, PartialEq, Eq, Structural)]
pub enum LoadOp {
    Load,
    Clear(Pixel),
}

/// A compiled scene: the issue list and the whole content of the index buffer.
#[derive(Debug)]
pub struct RenderCommands {
    pub load_op: LoadOp,
    pub commands: Vec<RenderCommand>,
    pub indices: Vec<u32>,
}

/// Whether a command emits geometry: every shape but an outline of width
/// `<= 0`.
pub open spec fn draws<P, V>(c: DrawCommand<P, V>) -> bool {
    match c {
        DrawCommand::View(_) => false,
        DrawCommand::Rect { thickness, .. } => !f32_bits_le_zero(thickness.bits),
        _ => true,
    }
}

/// The number of vertices a command emits.
pub open spec fn vertex_count<P, V>(c: DrawCommand<P, V>) -> nat {
    if !draws(c) {
        0
    } else {
        match c {
            DrawCommand::Line { .. } => LINE_VERTEX_COUNT as nat,
            DrawCommand::Rect { .. } => OUTLINE_VERTEX_COUNT as nat,
            _ => FILL_VERTEX_COUNT as nat,
        }
    }
}

/// The indices a command emits, relative to its own first vertex.
pub open spec fn command_indices<P, V>(c: DrawCommand<P, V>) -> Seq<u32> {
    if !draws(c) {
        Seq::empty()
    } else {
        match c {
            DrawCommand::Line { .. } => line_index_seq(),
            DrawCommand::Rect { .. } => outline_index_seq(),
            _ => fill_index_seq(),
        }
    }
}

/// Strokes are triangle strips; fills and textures are triangle lists.
pub open spec fn pipeline_of<P, V>(c: DrawCommand<P, V>) -> PipelineKind {
    match c {
        DrawCommand::Line { .. } => PipelineKind::TriangleStrip,
        DrawCommand::Rect { .. } => PipelineKind::TriangleStrip,
        _ => PipelineKind::TriangleList,
    }
}

/// A textured rectangle samples its texture; every other shape the white one.
pub open spec fn bind_group_of<P, V>(c: DrawCommand<P, V>) -> BindGroupKind {
    match c {
        DrawCommand::RectTextured { texture, .. } => BindGroupKind::Texture(texture),
        _ => BindGroupKind::White,
    }
}

/// Bytes of the vertex buffer that the commands fill.
pub open spec fn vbo_cursor<P, V>(cmds: Seq<DrawCommand<P, V>>) -> nat
    decreases cmds.len(),
{
    if cmds.len() == 0 {
        0
    } else {
        vbo_cursor(cmds.drop_last()) + VERTEX_SIZE as nat * vertex_count(cmds.last())
    }
}

/// The content of the index buffer: each command's indices, in order.
pub open spec fn index_stream<P, V>(cmds: Seq<DrawCommand<P, V>>) -> Seq<u32>
    decreases cmds.len(),
{
    if cmds.len() == 0 {
        Seq::empty()
    } else {
        index_stream(cmds.drop_last()) + command_indices(cmds.last())
    }
}

/// Bytes of the index buffer that the commands fill.
pub open spec fn ibo_cursor<P, V>(cmds: Seq<DrawCommand<P, V>>) -> nat {
    INDEX_SIZE as nat * index_stream(cmds).len()
}

/// The number of view commands.
pub open spec fn view_count<P, V>(cmds: Seq<DrawCommand<P, V>>) -> nat
    decreases cmds.len(),
{
    if cmds.len() == 0 {
        0
    } else {
        view_count(cmds.drop_last()) + if cmds.last() is View { 1nat } else { 0nat }
    }
}

/// The issues of command `c` when it follows the commands `prefix`: nothing
/// for an outline of width `<= 0`, else one issue at the current cursors.
pub open spec fn issue_after<P, V>(
    prefix: Seq<DrawCommand<P, V>>,
    c: DrawCommand<P, V>,
    view_stride: nat,
) -> Seq<RenderCommand> {
    if c is View {
        seq![
            RenderCommand::View {
                command: prefix.len() as usize,
                offset: (view_count(prefix) * view_stride) as u64,
            },
        ]
    } else if draws(c) {
        seq![
            RenderCommand::Draw {
                command: prefix.len() as usize,
                pipeline: pipeline_of(c),
                bind_group: bind_group_of(c),
                vbo_bounds: ByteRange {
                    start: vbo_cursor(prefix) as u64,
                    end: (vbo_cursor(prefix) + VERTEX_SIZE * vertex_count(c)) as u64,
                },
                ibo_bounds: ByteRange {
                    start: ibo_cursor(prefix) as u64,
                    end: (ibo_cursor(prefix) + INDEX_SIZE * command_indices(c).len()) as u64,
                },
                index_count: command_indices(c).len() as u32,
            },
        ]
    } else {
        Seq::empty()
    }
}

/// The issue list of the commands, in command order.
pub open spec fn issues<P, V>(cmds: Seq<DrawCommand<P, V>>, view_stride: nat) -> Seq<RenderCommand>
    decreases cmds.len(),
{
    if cmds.len() == 0 {
        Seq::empty()
    } else {
        issues(cmds.drop_last(), view_stride) + issue_after(
            cmds.drop_last(),
            cmds.last(),
            view_stride,
        )
    }
}

/// Whether the commands' geometry and views fit the shared buffers.
pub open spec fn fits<P, V>(cmds: Seq<DrawCommand<P, V>>) -> bool {
    &&& vbo_cursor(cmds) <= VBO_SIZE
    &&& ibo_cursor(cmds) <= IBO_SIZE
    &&& view_count(cmds) <= MAX_VIEWS
}

pub open spec fn load_op_for(clear_color: Option<Pixel>) -> LoadOp {
    match clear_color {
        Some(color) => LoadOp::Clear(color),
        None => LoadOp::Load,
    }
}

/// The distance between two view transforms in the uniform buffer: the
/// smallest multiple of the device's offset alignment that holds a transform.
pub open spec fn view_stride_for(alignment: u32) -> nat {
    if alignment == 0 {
        TRANSFORM_SIZE as nat
    } else {
        let a = alignment as int;
        ((TRANSFORM_SIZE as int + a - 1) / a * a) as nat
    }
}

proof fn lemma_cursors_of_prefix<P, V>(cmds: Seq<DrawCommand<P, V>>, j: int)
    requires
        0 <= j <= cmds.len(),
    ensures
        vbo_cursor(cmds.take(j)) <= vbo_cursor(cmds),
        ibo_cursor(cmds.take(j)) <= ibo_cursor(cmds),
        view_count(cmds.take(j)) <= view_count(cmds),
    decreases cmds.len(),
{
    if j < cmds.len() {
        lemma_cursors_of_prefix(cmds.drop_last(), j);
        assert(cmds.drop_last().take(j) =~= cmds.take(j));
    } else {
        assert(cmds.take(j) =~= cmds);
    }
}

/// Every draw issue's byte ranges end at or before the cursors of the
/// commands, and start at or after the end of every earlier draw's; every view
/// slot ends at or before the view cursor, after every earlier slot.
proof fn lemma_issue_bounds<P, V>(cmds: Seq<DrawCommand<P, V>>, view_stride: nat)
    requires
        fits(cmds),
        TRANSFORM_SIZE <= view_stride <= u32::MAX as int + TRANSFORM_SIZE,
    ensures
        ({
            let iss = issues(cmds, view_stride);
            &&& forall|k: int|
                0 <= k < iss.len() && (#[trigger] iss[k]) is Draw ==> {
                    &&& iss[k]->vbo_bounds.start <= iss[k]->vbo_bounds.end <= vbo_cursor(cmds)
                    &&& iss[k]->ibo_bounds.start <= iss[k]->ibo_bounds.end <= ibo_cursor(cmds)
                }
            &&& forall|k: int|
                0 <= k < iss.len() && (#[trigger] iss[k]) is View ==> iss[k]->offset + view_stride
                    <= view_count(cmds) * view_stride
            &&& forall|k1: int, k2: int|
                0 <= k1 < k2 < iss.len() && (#[trigger] iss[k1]) is Draw && (#[trigger] iss[k2]) is Draw
                    ==> {
                    &&& iss[k1]->vbo_bounds.end <= iss[k2]->vbo_bounds.start
                    &&& iss[k1]->ibo_bounds.end <= iss[k2]->ibo_bounds.start
                }
            &&& forall|k1: int, k2: int|
                0 <= k1 < k2 < iss.len() && (#[trigger] iss[k1]) is View && (#[trigger] iss[k2]) is View
                    ==> iss[k1]->offset + view_stride <= iss[k2]->offset
        }),
    decreases cmds.len(),
{
    if cmds.len() > 0 {
        let prefix = cmds.drop_last();
        let c = cmds.last();
        lemma_cursors_of_prefix(cmds, cmds.len() - 1);
        assert(cmds.take(cmds.len() - 1) =~= prefix);
        lemma_issue_bounds(prefix, view_stride);
        let before = issues(prefix, view_stride);
        let iss = issues(cmds, view_stride);
        let added = issue_after(prefix, c, view_stride);
        assert(iss == before + added);
        if c is View {
            let n = view_count(prefix);
            assert(n + 1 <= MAX_VIEWS);
            assert(n * view_stride + view_stride == (n + 1) * view_stride) by (nonlinear_arith);
            assert(n * view_stride <= 19 * (u32::MAX as int + TRANSFORM_SIZE)) by (nonlinear_arith)
                requires
                    n <= 19,
                    view_stride <= u32::MAX as int + TRANSFORM_SIZE,
            ;
            assert(view_count(prefix) * view_stride <= view_count(cmds) * view_stride) by (nonlinear_arith)
                requires
                    view_count(prefix) <= view_count(cmds),
            ;
        } else {
            assert(view_count(prefix) * view_stride == view_count(cmds) * view_stride);
        }
        assert forall|k: int|
            0 <= k < iss.len() && (#[trigger] iss[k]) is View implies iss[k]->offset + view_stride
                <= view_count(cmds) * view_stride by {
            if k < before.len() {
                assert(iss[k] == before[k]);
                assert(view_count(prefix) * view_stride <= view_count(cmds) * view_stride) by (nonlinear_arith)
                    requires
                        view_count(prefix) <= view_count(cmds),
                ;
            }
        }
        assert forall|k1: int, k2: int|
            0 <= k1 < k2 < iss.len() && (#[trigger] iss[k1]) is Draw && (#[trigger] iss[k2]) is Draw
                implies {
                &&& iss[k1]->vbo_bounds.end <= iss[k2]->vbo_bounds.start
                &&& iss[k1]->ibo_bounds.end <= iss[k2]->ibo_bounds.start
            } by {
            assert(iss[k1] == before[k1]);
            if k2 < before.len() {
                assert(iss[k2] == before[k2]);
            }
        }
        assert forall|k1: int, k2: int|
            0 <= k1 < k2 < iss.len() && (#[trigger] iss[k1]) is View && (#[trigger] iss[k2]) is View
                implies iss[k1]->offset + view_stride <= iss[k2]->offset by {
            assert(iss[k1] == before[k1]);
            if k2 < before.len() {
                assert(iss[k2] == before[k2]);
            }
        }
        assert forall|k: int|
            0 <= k < iss.len() && (#[trigger] iss[k]) is Draw implies {
                &&& iss[k]->vbo_bounds.start <= iss[k]->vbo_bounds.end <= vbo_cursor(cmds)
                &&& iss[k]->ibo_bounds.start <= iss[k]->ibo_bounds.end <= ibo_cursor(cmds)
            } by {
            if k < before.len() {
                assert(iss[k] == before[k]);
            }
        }
    }
}

/// A scene that fits the shared buffers compiles to byte ranges that lie
/// inside them and never overlap: each draw's vertex and index ranges start
/// where the earlier draws' end, and each view's transform has a slot of its
/// own. With `prepare` failing exactly on the scenes that do not fit, no
/// geometry is ever written over another's, or past the end of a buffer.
pub proof fn lemma_compiled_ranges_disjoint<P, V>(cmds: Seq<DrawCommand<P, V>>, view_stride: nat)
    requires
        fits(cmds),
        TRANSFORM_SIZE <= view_stride <= u32::MAX as int + TRANSFORM_SIZE,
    ensures
        ({
            let iss = issues(cmds, view_stride);
            &&& forall|k: int|
                0 <= k < iss.len() && (#[trigger] iss[k]) is Draw ==> {
                    &&& iss[k]->vbo_bounds.start <= iss[k]->vbo_bounds.end <= VBO_SIZE
                    &&& iss[k]->ibo_bounds.start <= iss[k]->ibo_bounds.end <= IBO_SIZE
                }
            &&& forall|k: int|
                0 <= k < iss.len() && (#[trigger] iss[k]) is View ==> iss[k]->offset + TRANSFORM_SIZE
                    <= view_stride * MAX_VIEWS
            &&& forall|k1: int, k2: int|
                0 <= k1 < k2 < iss.len() && (#[trigger] iss[k1]) is Draw && (#[trigger] iss[k2]) is Draw
                    ==> {
                    &&& iss[k1]->vbo_bounds.end <= iss[k2]->vbo_bounds.start
                    &&& iss[k1]->ibo_bounds.end <= iss[k2]->ibo_bounds.start
                }
            &&& forall|k1: int, k2: int|
                0 <= k1 < k2 < iss.len() && (#[trigger] iss[k1]) is View && (#[trigger] iss[k2]) is View
                    ==> iss[k1]->offset + TRANSFORM_SIZE <= iss[k2]->offset
        }),
{
    lemma_issue_bounds(cmds, view_stride);
    assert(view_count(cmds) * view_stride <= view_stride * MAX_VIEWS) by (nonlinear_arith)
        requires
            view_count(cmds) <= MAX_VIEWS,
    ;
}

/// View switches take effect in command order: compiling
/// `[View(v0), Line(a, b), View(v1), RectFilled(c, d)]` gives exactly four
/// issues, in that order. The line is drawn before the switch to `v1`, under
/// `v0`'s transform at uniform offset 0; the filled rectangle is drawn after
/// it, under `v1`'s transform one stride further on.
pub proof fn lemma_views_switch_in_command_order<P, V>(
    v0: V,
    a: P,
    b: P,
    line_color: Pixel,
    thickness: Thickness,
    v1: V,
    c: P,
    d: P,
    fill_color: Pixel,
    view_stride: nat,
)
    requires
        view_stride <= u64::MAX,
    ensures
        issues(
            seq![
                DrawCommand::View(v0),
                DrawCommand::Line { from: a, to: b, color: line_color, thickness },
                DrawCommand::View(v1),
                DrawCommand::RectFilled { from: c, to: d, color: fill_color },
            ],
            view_stride,
        ) == seq![
            RenderCommand::View { command: 0, offset: 0 },
            RenderCommand::Draw {
                command: 1,
                pipeline: PipelineKind::TriangleStrip,
                bind_group: BindGroupKind::White,
                vbo_bounds: ByteRange { start: 0, end: 128 },
                ibo_bounds: ByteRange { start: 0, end: 16 },
                index_count: 4,
            },
            RenderCommand::View { command: 2, offset: view_stride as u64 },
            RenderCommand::Draw {
                command: 3,
                pipeline: PipelineKind::TriangleList,
                bind_group: BindGroupKind::White,
                vbo_bounds: ByteRange { start: 128, end: 256 },
                ibo_bounds: ByteRange { start: 16, end: 40 },
                index_count: 6,
            },
        ],
{
    let s4: Seq<DrawCommand<P, V>> = seq![
        DrawCommand::View(v0),
        DrawCommand::Line { from: a, to: b, color: line_color, thickness },
        DrawCommand::View(v1),
        DrawCommand::RectFilled { from: c, to: d, color: fill_color },
    ];
    let line = DrawCommand::Line { from: a, to: b, color: line_color, thickness };
    let s1: Seq<DrawCommand<P, V>> = seq![DrawCommand::View(v0)];
    let s2 = s1.push(line);
    let s3 = s2.push(DrawCommand::View(v1));
    assert(s4 =~= s3.push(DrawCommand::RectFilled { from: c, to: d, color: fill_color }));
    assert(s4.drop_last() =~= s3);
    assert(s3.drop_last() =~= s2);
    assert(s2.drop_last() =~= s1);
    let s0 = Seq::<DrawCommand<P, V>>::empty();
    assert(s1.drop_last() =~= s0);
    assert(vbo_cursor(s0) == 0);
    assert(view_count(s0) == 0);
    assert(index_stream(s0) =~= Seq::<u32>::empty());
    assert(issues(s0, view_stride) =~= Seq::<RenderCommand>::empty());
    assert(vbo_cursor(s1) == 0);
    assert(view_count(s1) == 1);
    assert(index_stream(s1) =~= Seq::<u32>::empty());
    assert(issues(s1, view_stride) =~= seq![RenderCommand::View { command: 0, offset: 0 }]);
    assert(vbo_cursor(s2) == 128);
    assert(view_count(s2) == 1);
    assert(index_stream(s2) =~= line_index_seq());
    assert(vbo_cursor(s3) == 128);
    assert(view_count(s3) == 2);
    assert(index_stream(s3) =~= line_index_seq());
    assert(line_index_seq().len() == 4);
    assert(fill_index_seq().len() == 6);
    let line_draw = RenderCommand::Draw {
        command: 1,
        pipeline: PipelineKind::TriangleStrip,
        bind_group: BindGroupKind::White,
        vbo_bounds: ByteRange { start: 0, end: 128 },
        ibo_bounds: ByteRange { start: 0, end: 16 },
        index_count: 4,
    };
    assert(issue_after(s1, line, view_stride) =~= seq![line_draw]);
    assert(issues(s2, view_stride) =~= seq![
        RenderCommand::View { command: 0, offset: 0 },
        line_draw,
    ]);
    assert(issues(s3, view_stride) =~= seq![
        RenderCommand::View { command: 0, offset: 0 },
        line_draw,
        RenderCommand::View { command: 2, offset: view_stride as u64 },
    ]);
    assert(issues(s4, view_stride) =~= seq![
        RenderCommand::View { command: 0, offset: 0 },
        RenderCommand::Draw {
            command: 1,
            pipeline: PipelineKind::TriangleStrip,
            bind_group: BindGroupKind::White,
            vbo_bounds: ByteRange { start: 0, end: 128 },
            ibo_bounds: ByteRange { start: 0, end: 16 },
            index_count: 4,
        },
        RenderCommand::View { command: 2, offset: view_stride as u64 },
        RenderCommand::Draw {
            command: 3,
            pipeline: PipelineKind::TriangleList,
            bind_group: BindGroupKind::White,
            vbo_bounds: ByteRange { start: 128, end: 256 },
            ibo_bounds: ByteRange { start: 16, end: 40 },
            index_count: 6,
        },
    ]);
}

/// An outline whose width is `<= 0` emits nothing: no vertices, no indices
/// and no issue, wherever it stands in the scene.
pub proof fn lemma_thin_outline_skipped<P, V>(
    prefix: Seq<DrawCommand<P, V>>,
    from: P,
    to: P,
    color: Pixel,
    thickness: Thickness,
    view_stride: nat,
)
    requires
        f32_bits_le_zero(thickness.bits),
    ensures
        ({
            let cmds = prefix.push(DrawCommand::Rect { from, to, color, thickness });
            &&& issues(cmds, view_stride) == issues(prefix, view_stride)
            &&& index_stream(cmds) == index_stream(prefix)
            &&& vbo_cursor(cmds) == vbo_cursor(prefix)
        }),
{
    let cmds = prefix.push(DrawCommand::Rect { from, to, color, thickness });
    assert(cmds.drop_last() =~= prefix);
    assert(issues(cmds, view_stride) =~= issues(prefix, view_stride));
    assert(index_stream(cmds) =~= index_stream(prefix));
}

/// The geometry plan of a shape command: its pipeline, texture, vertex count
/// and indices; `None` for a view or an outline of width `<= 0`.
fn shape_plan<P, V>(c: &DrawCommand<P, V>) -> (r: Option<(PipelineKind, BindGroupKind, u64, Vec<u32>)>)
    ensures
        r is Some <==> draws(*c),
        r is Some ==> {
            let (pipeline, bind_group, count, indices) = r->Some_0;
            &&& pipeline == pipeline_of(*c)
            &&& bind_group == bind_group_of(*c)
            &&& count == vertex_count(*c)
            &&& indices@ == command_indices(*c)
        },
{
    match c {
        DrawCommand::Line { .. } => Some(
            (PipelineKind::TriangleStrip, BindGroupKind::White, LINE_VERTEX_COUNT, line_indices()),
        ),
        DrawCommand::Rect { thickness, .. } => {
            if thickness.is_non_positive() {
                None
            } else {
                Some(
                    (
                        PipelineKind::TriangleStrip,
                        BindGroupKind::White,
                        OUTLINE_VERTEX_COUNT,
                        outline_indices(),
                    ),
                )
            }
        },
        DrawCommand::RectFilled { .. } => Some(
            (PipelineKind::TriangleList, BindGroupKind::White, FILL_VERTEX_COUNT, fill_indices()),
        ),
        DrawCommand::RectTextured { texture, .. } => Some(
            (
                PipelineKind::TriangleList,
                BindGroupKind::Texture(*texture),
                FILL_VERTEX_COUNT,
                fill_indices(),
            ),
        ),
        DrawCommand::View(_) => None,
    }
}

/// The sizes of the shared buffers that scenes are compiled into.
pub struct SharedBuffers {
    view_stride: u64,
}

impl SharedBuffers {
    #[verifier::type_invariant]
    spec fn stride_in_range(&self) -> bool {
        &&& TRANSFORM_SIZE <= self.view_stride
        &&& self.view_stride <= u32::MAX as int + TRANSFORM_SIZE
    }

    pub closed spec fn spec_view_stride(&self) -> nat {
        self.view_stride as nat
    }

    /// Buffers for a device whose uniform offsets must be multiples of
    /// `min_uniform_alignment`.
    pub fn new(min_uniform_alignment: u32) -> (b: SharedBuffers)
        ensures
            b.spec_view_stride() == view_stride_for(min_uniform_alignment),
    {
        let alignment = min_uniform_alignment as u64;
        if alignment == 0 {
            return SharedBuffers { view_stride: TRANSFORM_SIZE };
        }
        let slots = (TRANSFORM_SIZE + alignment - 1) / alignment;
        proof {
            let a = alignment as int;
            let q = slots as int;
            assert(q * a <= TRANSFORM_SIZE as int + a - 1) by (nonlinear_arith)
                requires
                    a > 0,
                    q == (TRANSFORM_SIZE as int + a - 1) / a,
            ;
            assert(q * a >= TRANSFORM_SIZE as int) by (nonlinear_arith)
                requires
                    a > 0,
                    q == (TRANSFORM_SIZE as int + a - 1) / a,
            ;
        }
        let view_stride = slots * alignment;
        SharedBuffers { view_stride }
    }

    /// Bytes between two view transforms in the uniform buffer.
    pub fn view_stride(&self) -> (s: u64)
        ensures
            s == self.spec_view_stride(),
            TRANSFORM_SIZE <= s <= u32::MAX as int + TRANSFORM_SIZE,
    {
        proof {
            use_type_invariant(self);
        }
        self.view_stride
    }

    /// Bytes of the uniform buffer: room for every view a frame may hold.
    pub fn view_ubo_size(&self) -> (s: u64)
        ensures
            s == self.spec_view_stride() * MAX_VIEWS,
    {
        proof {
            use_type_invariant(self);
        }
        self.view_stride * MAX_VIEWS
    }

    /// Compiles a scene: walks its commands in order, gives each shape the
    /// next byte ranges of the vertex and index buffers and each view the next
    /// slot of the uniform buffer, and lists an issue for each. Fails, and
    /// writes nothing, when the scene does not fit the buffers.
    pub fn prepare<P, V>(&self, scene: &Scene<P, V>) -> (r: Result<RenderCommands, SglError>)
        ensures
            r is Ok <==> fits(scene.spec_commands()),
            r is Ok ==> {
                let compiled = r->Ok_0;
                &&& compiled.load_op == load_op_for(scene.spec_clear_color())
                &&& compiled.commands@ == issues(scene.spec_commands(), self.spec_view_stride())
                &&& compiled.indices@ == index_stream(scene.spec_commands())
            },
    {
        proof {
            use_type_invariant(self);
        }
        let cmds = scene.commands();
        let ghost stride = self.spec_view_stride();
        let mut commands: Vec<RenderCommand> = Vec::new();
        let mut indices: Vec<u32> = Vec::new();
        let mut vbo_offset: u64 = 0;
        let mut views: u64 = 0;
        let mut view_offset: u64 = 0;
        let mut i: usize = 0;
        assert(cmds@.take(0) =~= Seq::<DrawCommand<P, V>>::empty());
        while i < cmds.len()
            invariant
                i <= cmds@.len(),
                cmds@ == scene.spec_commands(),
                stride == self.view_stride,
                TRANSFORM_SIZE <= self.view_stride <= u32::MAX as int + TRANSFORM_SIZE,
                fits(cmds@.take(i as int)),
                vbo_offset == vbo_cursor(cmds@.take(i as int)),
                indices@ == index_stream(cmds@.take(i as int)),
                views == view_count(cmds@.take(i as int)),
                view_offset == views * stride,
                commands@ == issues(cmds@.take(i as int), stride),
            decreases cmds@.len() - i,
        {
            let ghost prefix = cmds@.take(i as int);
            let ghost next = cmds@.take(i + 1);
            assert(next.drop_last() =~= prefix);
            assert(next.last() == cmds@[i as int]);
            let ibo_offset = INDEX_SIZE * indices.len() as u64;
            let c = &cmds[i];
            if let DrawCommand::View(_) = c {
                if views >= MAX_VIEWS {
                    proof {
                        lemma_cursors_of_prefix(cmds@, i + 1);
                    }
                    return Err(SglError::General("too many views for the uniform buffer".to_string()));
                }
                commands.push(RenderCommand::View { command: i, offset: view_offset });
                views = views + 1;
                assert(view_offset + self.view_stride <= 20 * (u32::MAX as int + TRANSFORM_SIZE))
                    by (nonlinear_arith)
                    requires
                        view_offset == (views - 1) * stride,
                        views <= 20,
                        stride == self.view_stride,
                        self.view_stride <= u32::MAX as int + TRANSFORM_SIZE,
                ;
                assert(view_offset + self.view_stride == views * stride) by (nonlinear_arith)
                    requires
                        view_offset == (views - 1) * stride,
                        stride == self.view_stride,
                ;
                view_offset = view_offset + self.view_stride;
            } else {
                match shape_plan(c) {
                    None => {},
                    Some((pipeline, bind_group, count, shape_indices)) => {
                        let vertex_bytes = VERTEX_SIZE * count;
                        let index_bytes = INDEX_SIZE * shape_indices.len() as u64;
                        if vertex_bytes > VBO_SIZE - vbo_offset || index_bytes > IBO_SIZE
                            - ibo_offset {
                            proof {
                                lemma_cursors_of_prefix(cmds@, i + 1);
                            }
                            return Err(
                                SglError::General(
                                    "scene geometry exceeds the shared buffers".to_string(),
                                ),
                            );
                        }
                        commands.push(
                            RenderCommand::Draw {
                                command: i,
                                pipeline,
                                bind_group,
                                vbo_bounds: ByteRange {
                                    start: vbo_offset,
                                    end: vbo_offset + vertex_bytes,
                                },
                                ibo_bounds: ByteRange {
                                    start: ibo_offset,
                                    end: ibo_offset + index_bytes,
                                },
                                index_count: shape_indices.len() as u32,
                            },
                        );
                        let mut shape_indices = shape_indices;
                        indices.append(&mut shape_indices);
                        vbo_offset = vbo_offset + vertex_bytes;
                    },
                }
            }
            assert(commands@ =~= issues(next, stride));
            assert(indices@ =~= index_stream(next));
            i = i + 1;
        }
        assert(cmds@.take(cmds@.len() as int) =~= cmds@);
        let load_op = match scene.clear_color() {
            Some(color) => LoadOp::Clear(color),
            None => LoadOp::Load,
        };
        Ok(RenderCommands { load_op, commands, indices })
    }
}

/// Why the render target could not be acquired for a frame.
#[derive(Debug, Clone, Copy, PartialEq, Eq, Structural)]
pub enum SurfaceStatus {
    Lost,
    Outdated,
    OutOfMemory,
    Timeout,
}

/// What to do about a frame whose render target could not be acquired. The
/// frame is never executed; a lost or outdated target is configured anew
/// first.
#[derive(Debug, Clone, Copy, PartialEq, Eq, Structural)]
pub enum FrameRecovery {
    ReconfigureAndSkip,
    Skip,
}

pub fn frame_recovery(status: SurfaceStatus) -> (r: FrameRecovery)
    ensures
        r == (if status == SurfaceStatus::Lost || status == SurfaceStatus::Outdated {
            FrameRecovery::ReconfigureAndSkip
        } else {
            FrameRecovery::Skip
        }),
{
    match status {
        SurfaceStatus::Lost | SurfaceStatus::Outdated => FrameRecovery::ReconfigureAndSkip,
        SurfaceStatus::OutOfMemory | SurfaceStatus::Timeout => FrameRecovery::Skip,
    }
}

} // verus!

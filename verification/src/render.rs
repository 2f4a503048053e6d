//! The frame renderer: a state machine over the swapchain's dirty flag, the
//! elastic pool of per-frame slots, the frame cursor and the model registry.
//!
//! The GPU itself sits outside this crate. Each call to [`Render::render`]
//! takes, besides the scene, what the surface and queue reported this tick
//! (`FrameEvents`), applies the documented state transition, and hands back
//! everything the driver must do: whether and how to rebuild the swapchain,
//! which slot to record into, and the exact command sequence to record.

use vstd::prelude::*;

use crate::bootstrap::SurfaceFormat;
use crate::container::CounterMap;
use crate::scene::{
    derive_model, model_derived_from, CameraView, MeshResource, ModelDef, ModelInstance,
    ModelResource, RenderScene,
};
use crate::swapchain::{
    negotiate, negotiated_extent, negotiated_image_count, Extent2d, SurfaceCaps, SwapchainConfig,
};

verus! {

/// One slot of per-frame resources (a command pool with one primary buffer,
/// a fence created signalled, and a semaphore). The driver owns the objects;
/// the model tracks whether work submitted from the slot may still be
/// executing.
#[derive(Clone, Copy, Debug, PartialEq, Eq, Structural)]
pub struct FrameSlot {
    pub in_flight: bool,
}

/// What the outside reported during one `render` call: the surface's
/// capability query (`None` when negotiation failed), whether the image
/// acquisition succeeded, and whether presentation succeeded.
#[derive(Clone, Copy, Debug, PartialEq, Eq, Structural)]
pub struct FrameEvents {
    pub caps: Option<SurfaceCaps>,
    pub acquire_ok: bool,
    pub present_ok: bool,
}

/// The fixed clear colour, one 32-bit pattern per channel, in
/// red-green-blue-alpha order.
#[derive(Clone, Copy, Debug, PartialEq, Eq, Structural)]
pub struct ClearColour {
    pub r: u32,
    pub g: u32,
    pub b: u32,
    pub a: u32,
}

/// Bit pattern of the red channel of the clear colour (value zero).
pub const CLEAR_R: u32 = 0x0000_0000;

/// Bit pattern of the green channel of the clear colour (value three tenths).
pub const CLEAR_G: u32 = 0x3E99_999A;

/// Bit pattern of the blue channel of the clear colour (value four fifths).
pub const CLEAR_B: u32 = 0x3F4C_CCCD;

/// Bit pattern of the alpha channel of the clear colour (value one).
pub const CLEAR_A: u32 = 0x3F80_0000;

/// The clear colour every frame begins its render pass with.
pub open spec fn clear_colour() -> ClearColour {
    ClearColour { r: CLEAR_R, g: CLEAR_G, b: CLEAR_B, a: CLEAR_A }
}

/// Vertex count of a non-indexed draw, used when a mesh carries no indices.
pub const FIXED_VERTEX_COUNT: u32 = 3;

/// One recorded command. A bind carries the handle and mesh index of the
/// registry entry it binds, so a recorded frame pins exactly which stored
/// resources each draw uses.
#[derive(Clone, Copy, Debug, PartialEq, Eq, Structural)]
pub enum DrawCommand {
    SetViewport { extent: Extent2d },
    SetScissor { extent: Extent2d },
    BeginPass { clear: ClearColour },
    BindPipeline { model: usize, mesh: usize },
    BindVertexBuffer { model: usize, mesh: usize },
    BindIndexBuffer { model: usize, mesh: usize },
    DrawIndexed { index_count: u32 },
    Draw { vertex_count: u32 },
    EndPass,
}

/// What a reconfiguration asks the driver to do: wait for device idle,
/// destroy the old framebuffer, build a new one at `config.extent`, resize
/// its slot resources to `config.image_count`, and configure the surface
/// with the new swapchain.
#[derive(Clone, Copy, Debug, PartialEq, Eq, Structural)]
pub struct ReconfigurePlan {
    pub config: SwapchainConfig,
}

/// What one `render` call decided.
#[derive(Clone, Debug)]
pub enum RenderOutcome {
    /// The swapchain was dirty and capability negotiation failed: nothing
    /// changed, the frame is skipped.
    SkippedNegotiation,
    /// Image acquisition failed: the swapchain is marked dirty and the frame
    /// is skipped. A reconfiguration decided earlier in the same call must
    /// still be carried out.
    SkippedAcquire { reconfigured: Option<ReconfigurePlan> },
    /// A frame was produced: carry out `reconfigured` first if present,
    /// write the camera words if present, record `commands` into `slot`'s
    /// command buffer, submit signalling the slot's fence and semaphore, and
    /// present waiting on that semaphore.
    Rendered {
        reconfigured: Option<ReconfigurePlan>,
        slot: usize,
        commands: Vec<DrawCommand>,
        camera: Option<CameraView>,
    },
}

/// The renderer's control state, as specifications speak of it.
pub struct LoopState {
    pub dirty: bool,
    pub pool_len: nat,
    pub cursor: nat,
    pub extent: Extent2d,
}

/// The control state after a successful swapchain reconfiguration against
/// capability report `c`: clean, the negotiated extent, one slot per
/// swapchain image, and the cursor kept except where the shrink left it out
/// of range.
pub open spec fn reconfigure_step(s: LoopState, c: SurfaceCaps) -> LoopState {
    let n = negotiated_image_count(c) as nat;
    LoopState {
        dirty: false,
        pool_len: n,
        cursor: if s.cursor < n {
            s.cursor
        } else {
            0
        },
        extent: negotiated_extent(c, s.extent),
    }
}

/// The control state after the acquire-record-submit-present phase: a failed
/// acquire only marks the swapchain dirty; a produced frame marks it dirty
/// exactly when presentation failed, and advances the cursor by one modulo
/// the pool length (skipped when the pool is empty).
pub open spec fn present_step(s: LoopState, ev: FrameEvents) -> LoopState {
    if !ev.acquire_ok {
        LoopState { dirty: true, ..s }
    } else {
        let dirty = !ev.present_ok;
        if s.pool_len > 0 {
            LoopState { dirty, cursor: (((s.cursor + 1) as int % s.pool_len as int)) as nat, ..s }
        } else {
            LoopState { dirty, ..s }
        }
    }
}

/// The full control-state transition of one `render` call.
pub open spec fn render_step(s: LoopState, ev: FrameEvents) -> LoopState {
    if s.dirty {
        match ev.caps {
            None => s,
            Some(c) => present_step(reconfigure_step(s, c), ev),
        }
    } else {
        present_step(s, ev)
    }
}

/// Commands recorded for mesh `mesh` of the model under handle `model`:
/// bind its pipeline and vertex buffer, then an indexed draw of the stored
/// index count when the mesh carries indices, else a non-indexed draw of the
/// fixed vertex count.
pub open spec fn mesh_commands(model: usize, mesh: usize, m: MeshResource) -> Seq<DrawCommand> {
    if m.index_count > 0 {
        seq![
            DrawCommand::BindPipeline { model, mesh },
            DrawCommand::BindVertexBuffer { model, mesh },
            DrawCommand::BindIndexBuffer { model, mesh },
            DrawCommand::DrawIndexed { index_count: m.index_count },
        ]
    } else {
        seq![
            DrawCommand::BindPipeline { model, mesh },
            DrawCommand::BindVertexBuffer { model, mesh },
            DrawCommand::Draw { vertex_count: FIXED_VERTEX_COUNT },
        ]
    }
}

/// Commands recorded for the first `n` meshes of the model under `model`.
pub open spec fn model_commands_prefix(model: usize, meshes: Seq<MeshResource>, n: int) -> Seq<
    DrawCommand,
>
    decreases n,
{
    if n <= 0 {
        Seq::empty()
    } else {
        model_commands_prefix(model, meshes, n - 1) + mesh_commands(
            model,
            (n - 1) as usize,
            meshes[n - 1],
        )
    }
}

/// Commands recorded for every mesh of the model under `model`, in order.
pub open spec fn model_commands(model: usize, meshes: Seq<MeshResource>) -> Seq<DrawCommand> {
    model_commands_prefix(model, meshes, meshes.len() as int)
}

/// Commands recorded for the first `n` scene instances, resolved in a
/// registry whose oldest handle is `base` and whose stored models are
/// `models`.
pub open spec fn scene_commands_prefix(
    instances: Seq<ModelInstance>,
    models: Seq<ModelResource>,
    base: nat,
    n: int,
) -> Seq<DrawCommand>
    decreases n,
{
    if n <= 0 {
        Seq::empty()
    } else {
        scene_commands_prefix(instances, models, base, n - 1) + model_commands(
            instances[n - 1].model,
            models[instances[n - 1].model - base].meshes@,
        )
    }
}

/// Commands recorded for the whole scene, in the scene's order.
pub open spec fn scene_commands(
    instances: Seq<ModelInstance>,
    models: Seq<ModelResource>,
    base: nat,
) -> Seq<DrawCommand> {
    scene_commands_prefix(instances, models, base, instances.len() as int)
}

/// The full command sequence of one recorded frame: viewport and scissor set
/// to the current extent, a render pass begun with the fixed clear colour,
/// the scene's draws in order, and the pass ended.
pub open spec fn frame_commands(
    extent: Extent2d,
    instances: Seq<ModelInstance>,
    models: Seq<ModelResource>,
    base: nat,
) -> Seq<DrawCommand> {
    seq![
        DrawCommand::SetViewport { extent },
        DrawCommand::SetScissor { extent },
        DrawCommand::BeginPass { clear: clear_colour() },
    ] + scene_commands(instances, models, base) + seq![DrawCommand::EndPass]
}

/// The configuration a reconfiguration against capability report `c` and
/// requested extent `requested` builds the swapchain with.
pub open spec fn planned_config(c: SurfaceCaps, requested: Extent2d) -> SwapchainConfig {
    SwapchainConfig {
        extent: negotiated_extent(c, requested),
        image_count: negotiated_image_count(c),
    }
}

/// The frame renderer. It owns the control state (extent, dirty flag, slot
/// pool, cursor) and the model registry; the driver owns the device objects
/// and mirrors the decisions this type hands out.
pub struct Render {
    surface_extent: Extent2d,
    reconfigure_swapchain: bool,
    per_frame: Vec<FrameSlot>,
    frame: usize,
    models: CounterMap<ModelResource>,
    surface_colour_format: SurfaceFormat,
}

impl Render {
    /// The extent the swapchain is, or will next be, configured against.
    pub closed spec fn extent(&self) -> Extent2d {
        self.surface_extent
    }

    /// Whether the swapchain must be reconfigured before the next frame.
    pub closed spec fn dirty(&self) -> bool {
        self.reconfigure_swapchain
    }

    /// The per-frame slot pool.
    pub closed spec fn pool(&self) -> Seq<FrameSlot> {
        self.per_frame@
    }

    /// The frame cursor: the index of the slot the next frame records into.
    pub closed spec fn cursor(&self) -> nat {
        self.frame as nat
    }

    /// The registered models, oldest first.
    pub closed spec fn registry(&self) -> Seq<ModelResource> {
        self.models.contents()
    }

    /// The handle of the oldest registered model.
    pub closed spec fn registry_base(&self) -> nat {
        self.models.base_key()
    }

    /// The handle the next `add_model` will mint.
    pub open spec fn next_handle(&self) -> nat {
        (self.registry_base() + self.registry().len()) as nat
    }

    /// Handles that resolve to a registered model.
    pub open spec fn resolvable(&self, h: usize) -> bool {
        self.registry_base() <= h < self.next_handle()
    }

    /// The model registered under `h`.
    pub open spec fn model_at(&self, h: usize) -> ModelResource
        recommends
            self.resolvable(h),
    {
        self.registry()[h - self.registry_base()]
    }

    /// The colour format chosen at bootstrap.
    pub closed spec fn format(&self) -> SurfaceFormat {
        self.surface_colour_format
    }

    /// The control state the transition specifications speak of.
    pub open spec fn control(&self) -> LoopState {
        LoopState {
            dirty: self.dirty(),
            pool_len: self.pool().len(),
            cursor: self.cursor(),
            extent: self.extent(),
        }
    }

    /// The cursor stays inside the pool whenever the pool is non-empty, and
    /// rests at zero when the pool is empty.
    pub open spec fn wf(&self) -> bool {
        &&& self.pool().len() > 0 ==> self.cursor() < self.pool().len()
        &&& self.pool().len() == 0 ==> self.cursor() == 0
    }

    /// A fresh renderer for a surface rendered in `format`: dirty (the first
    /// frame configures the swapchain), an empty pool, the cursor at zero and
    /// no registered models.
    pub fn new(format: SurfaceFormat) -> (r: Render)
        ensures
            r.wf(),
            r.dirty(),
            r.pool().len() == 0,
            r.cursor() == 0,
            r.extent() == (Extent2d { width: 0, height: 0 }),
            r.registry() =~= Seq::<ModelResource>::empty(),
            r.registry_base() == 0,
            r.format() == format,
    {
        Render {
            surface_extent: Extent2d { width: 0, height: 0 },
            reconfigure_swapchain: true,
            per_frame: Vec::new(),
            frame: 0,
            models: CounterMap::new(),
            surface_colour_format: format,
        }
    }

    /// Note the new window extent and mark the swapchain dirty; the next
    /// `render` call reconfigures against it.
    pub fn resize(&mut self, extent: Extent2d)
        ensures
            final(self).dirty(),
            final(self).extent() == extent,
            final(self).pool() == old(self).pool(),
            final(self).cursor() == old(self).cursor(),
            final(self).registry() == old(self).registry(),
            final(self).registry_base() == old(self).registry_base(),
            final(self).format() == old(self).format(),
            old(self).wf() ==> final(self).wf(),
    {
        self.surface_extent = extent;
        self.reconfigure_swapchain = true;
    }

    /// Model of the blocking device-idle wait: when it returns, no submitted
    /// work is still executing, so no slot is in flight.
    fn mark_all_idle(&mut self)
        ensures
            final(self).pool().len() == old(self).pool().len(),
            forall|i: int|
                0 <= i < final(self).pool().len() ==> !(#[trigger] final(self).pool()[i]).in_flight,
            final(self).dirty() == old(self).dirty(),
            final(self).extent() == old(self).extent(),
            final(self).cursor() == old(self).cursor(),
            final(self).registry() == old(self).registry(),
            final(self).registry_base() == old(self).registry_base(),
            final(self).format() == old(self).format(),
    {
        let mut i: usize = 0;
        while i < self.per_frame.len()
            invariant
                i <= self.per_frame@.len(),
                self.per_frame@.len() == old(self).per_frame@.len(),
                forall|j: int|
                    0 <= j < i ==> !(#[trigger] self.per_frame@[j]).in_flight,
                self.reconfigure_swapchain == old(self).reconfigure_swapchain,
                self.surface_extent == old(self).surface_extent,
                self.frame == old(self).frame,
                self.models == old(self).models,
                self.surface_colour_format == old(self).surface_colour_format,
            decreases self.per_frame@.len() - i,
        {
            self.per_frame[i] = FrameSlot { in_flight: false };
            i = i + 1;
        }
    }

    /// Resize the slot pool to `image_count`: grow by pushing fresh slots
    /// (command pool, one primary buffer, a signalled fence, a semaphore
    /// each), shrink by destroying slots from the end. A slot is only ever
    /// removed while none of its work is in flight, which the device-idle
    /// wait before every resize guarantees. The cursor is kept except where
    /// the shrink left it out of range.
    fn resize_per_frame(&mut self, image_count: usize)
        requires
            forall|i: int|
                image_count <= i < old(self).pool().len()
                    ==> !(#[trigger] old(self).pool()[i]).in_flight,
        ensures
            final(self).pool().len() == image_count,
            forall|i: int|
                0 <= i < image_count && i < old(self).pool().len()
                    ==> final(self).pool()[i] == old(self).pool()[i],
            forall|i: int|
                old(self).pool().len() <= i < image_count
                    ==> !(#[trigger] final(self).pool()[i]).in_flight,
            final(self).cursor() == (if old(self).cursor() < image_count {
                old(self).cursor()
            } else {
                0nat
            }),
            final(self).dirty() == old(self).dirty(),
            final(self).extent() == old(self).extent(),
            final(self).registry() == old(self).registry(),
            final(self).registry_base() == old(self).registry_base(),
            final(self).format() == old(self).format(),
            final(self).wf(),
    {
        while self.per_frame.len() > image_count
            invariant
                image_count <= self.per_frame@.len() <= old(self).per_frame@.len()
                    || self.per_frame@.len() == old(self).per_frame@.len(),
                self.per_frame@.len() >= image_count
                    ==> self.per_frame@ =~= old(self).per_frame@.take(self.per_frame@.len() as int),
                self.per_frame@.len() < image_count ==> self.per_frame@ == old(self).per_frame@,
                self.reconfigure_swapchain == old(self).reconfigure_swapchain,
                self.surface_extent == old(self).surface_extent,
                self.frame == old(self).frame,
                self.models == old(self).models,
                self.surface_colour_format == old(self).surface_colour_format,
            decreases self.per_frame@.len(),
        {
            // destroy the slot's fence, semaphore and command pool
            let _ = self.per_frame.pop();
        }
        while self.per_frame.len() < image_count
            invariant
                self.per_frame@.len() <= image_count,
                self.per_frame@.len() >= image_count
                    || self.per_frame@.len() >= old(self).per_frame@.len(),
                forall|i: int|
                    0 <= i < image_count && i < old(self).per_frame@.len() && i
                        < self.per_frame@.len() ==> self.per_frame@[i] == old(self).per_frame@[i],
                forall|i: int|
                    old(self).per_frame@.len() <= i < self.per_frame@.len() ==> !(
                    #[trigger] self.per_frame@[i]).in_flight,
                self.reconfigure_swapchain == old(self).reconfigure_swapchain,
                self.surface_extent == old(self).surface_extent,
                self.frame == old(self).frame,
                self.models == old(self).models,
                self.surface_colour_format == old(self).surface_colour_format,
            decreases image_count - self.per_frame@.len(),
        {
            // one command pool, one primary command buffer, a fence created
            // in the signalled state, and a semaphore
            self.per_frame.push(FrameSlot { in_flight: false });
        }
        if self.frame >= image_count {
            self.frame = 0;
        }
    }
}

/// Record the command sequence of one frame against the registry: exactly
/// [`frame_commands`] of the current extent and the scene's instances.
fn record_scene(
    extent: Extent2d,
    instances: &Vec<ModelInstance>,
    models: &CounterMap<ModelResource>,
) -> (commands: Vec<DrawCommand>)
    requires
        forall|i: int|
            0 <= i < instances@.len() ==> models.resolvable(
                (#[trigger] instances@[i]).model,
            ),
    ensures
        commands@ == frame_commands(extent, instances@, models.contents(), models.base_key()),
{
    let ghost header = seq![
        DrawCommand::SetViewport { extent },
        DrawCommand::SetScissor { extent },
        DrawCommand::BeginPass { clear: clear_colour() },
    ];
    let mut commands: Vec<DrawCommand> = Vec::new();
    commands.push(DrawCommand::SetViewport { extent });
    commands.push(DrawCommand::SetScissor { extent });
    commands.push(DrawCommand::BeginPass {
        clear: ClearColour { r: CLEAR_R, g: CLEAR_G, b: CLEAR_B, a: CLEAR_A },
    });
    assert(commands@ =~= header);
    let mut i: usize = 0;
    while i < instances.len()
        invariant
            i <= instances@.len(),
            forall|k: int|
                0 <= k < instances@.len() ==> models.resolvable(
                    (#[trigger] instances@[k]).model,
                ),
            commands@ =~= header + scene_commands_prefix(
                instances@,
                models.contents(),
                models.base_key(),
                i as int,
            ),
        decreases instances@.len() - i,
    {
        let h = instances[i].model;
        let model: &ModelResource = match models.get(&h) {
            Some(m) => m,
            // a handle in a scene always resolves: absence is a caller
            // contract violation, not a runtime condition
            None => unreached(),
        };
        let ghost before_model = commands@;
        let mut j: usize = 0;
        while j < model.meshes.len()
            invariant
                j <= model.meshes@.len(),
                *model == models.lookup(h),
                models.resolvable(h),
                commands@ =~= before_model + model_commands_prefix(h, model.meshes@, j as int),
            decreases model.meshes@.len() - j,
        {
            let m = &model.meshes[j];
            commands.push(DrawCommand::BindPipeline { model: h, mesh: j });
            commands.push(DrawCommand::BindVertexBuffer { model: h, mesh: j });
            if m.index_count > 0 {
                commands.push(DrawCommand::BindIndexBuffer { model: h, mesh: j });
                commands.push(DrawCommand::DrawIndexed { index_count: m.index_count });
            } else {
                commands.push(DrawCommand::Draw { vertex_count: FIXED_VERTEX_COUNT });
            }
            proof {
                assert(commands@ =~= before_model + model_commands_prefix(
                    h,
                    model.meshes@,
                    j as int,
                ) + mesh_commands(h, j, model.meshes@[j as int]));
            }
            j = j + 1;
        }
        proof {
            assert(model_commands_prefix(h, model.meshes@, model.meshes@.len() as int)
                == model_commands(h, model.meshes@));
            assert(commands@ =~= header + scene_commands_prefix(
                instances@,
                models.contents(),
                models.base_key(),
                i as int,
            ) + model_commands(instances@[i as int].model, models.lookup(h).meshes@));
        }
        i = i + 1;
    }
    commands.push(DrawCommand::EndPass);
    proof {
        assert(commands@ =~= frame_commands(
            extent,
            instances@,
            models.contents(),
            models.base_key(),
        ));
    }
    commands
}

impl Render {
    /// Render one frame. `scene` is what to draw; `ev` is what the outside
    /// reported this tick. The call applies [`render_step`] to the control
    /// state and returns what the driver must do:
    ///
    /// - while dirty, a failed capability query skips the frame with nothing
    ///   changed; a successful one reconfigures (device idle, new
    ///   framebuffer, pool resized to the image count, swapchain configured)
    ///   and clears the dirty flag;
    /// - a failed acquire marks the swapchain dirty and skips the frame;
    /// - otherwise the frame is recorded against the slot under the cursor,
    ///   submitted, presented (a failed present marks the swapchain dirty),
    ///   and the cursor advances by one modulo the pool length.
    ///
    /// The registry is never touched: no hidden mutation across frames.
    pub fn render(&mut self, scene: RenderScene, ev: FrameEvents) -> (out: RenderOutcome)
        requires
            old(self).wf(),
            !old(self).dirty() ==> old(self).pool().len() > 0,
            match ev.caps {
                Some(c) => c.wf(),
                None => true,
            },
            forall|i: int|
                0 <= i < scene.models@.len() ==> old(self).resolvable(
                    (#[trigger] scene.models@[i]).model,
                ),
        ensures
            final(self).wf(),
            final(self).control() == render_step(old(self).control(), ev),
            final(self).registry() == old(self).registry(),
            final(self).registry_base() == old(self).registry_base(),
            final(self).format() == old(self).format(),
            match out {
                RenderOutcome::SkippedNegotiation => {
                    &&& old(self).dirty()
                    &&& ev.caps is None
                    &&& final(self).pool() == old(self).pool()
                },
                RenderOutcome::SkippedAcquire { reconfigured } => {
                    &&& !ev.acquire_ok
                    &&& (old(self).dirty() ==> ev.caps is Some)
                    &&& match reconfigured {
                        Some(p) => old(self).dirty() && (ev.caps matches Some(c) && p.config
                            == planned_config(c, old(self).extent())),
                        None => !old(self).dirty(),
                    }
                    &&& if reconfigured is Some {
                        forall|i: int|
                            0 <= i < final(self).pool().len()
                                ==> !(#[trigger] final(self).pool()[i]).in_flight
                    } else {
                        final(self).pool() == old(self).pool()
                    }
                },
                RenderOutcome::Rendered { reconfigured, slot, commands, camera } => {
                    let mid = if old(self).dirty() {
                        reconfigure_step(old(self).control(), ev.caps->0)
                    } else {
                        old(self).control()
                    };
                    &&& ev.acquire_ok
                    &&& (old(self).dirty() ==> ev.caps is Some)
                    &&& match reconfigured {
                        Some(p) => old(self).dirty() && (ev.caps matches Some(c) && p.config
                            == planned_config(c, old(self).extent())),
                        None => !old(self).dirty(),
                    }
                    &&& slot == mid.cursor
                    &&& commands@ == frame_commands(
                        mid.extent,
                        scene.models@,
                        old(self).registry(),
                        old(self).registry_base(),
                    )
                    &&& camera == scene.camera
                    &&& final(self).pool().len() == mid.pool_len
                    &&& 0 <= slot < final(self).pool().len()
                    &&& final(self).pool()[slot as int].in_flight
                    &&& forall|i: int|
                        0 <= i < final(self).pool().len() && i != slot
                            ==> (#[trigger] final(self).pool()[i]).in_flight == (
                        if reconfigured is Some {
                            false
                        } else {
                            old(self).pool()[i].in_flight
                        })
                },
            },
    {
        let mut reconfigured: Option<ReconfigurePlan> = None;
        if self.reconfigure_swapchain {
            match ev.caps {
                None => {
                    // negotiation failed: remain dirty, skip the frame, no
                    // partial state mutation
                    return RenderOutcome::SkippedNegotiation;
                },
                Some(caps) => {
                    // wait for device idle: nothing stays in flight
                    self.mark_all_idle();
                    let config = negotiate(&caps, self.surface_extent);
                    self.surface_extent = config.extent;
                    self.resize_per_frame(config.image_count as usize);
                    self.reconfigure_swapchain = false;
                    reconfigured = Some(ReconfigurePlan { config });
                },
            }
        }
        if !ev.acquire_ok {
            // stale or out-of-date surface: recoverable, retry next call
            self.reconfigure_swapchain = true;
            return RenderOutcome::SkippedAcquire { reconfigured };
        }
        let slot = self.frame;
        // block on the slot's fence; once the wait returns, the slot's
        // previous submission has completed, then reset fence and pool
        self.per_frame[slot] = FrameSlot { in_flight: false };
        let commands = record_scene(self.surface_extent, &scene.models, &self.models);
        // submit the recorded buffer, signalling the slot's fence and
        // semaphore on completion
        self.per_frame[slot] = FrameSlot { in_flight: true };
        if !ev.present_ok {
            self.reconfigure_swapchain = true;
        }
        if self.per_frame.len() > 0 {
            self.frame = (self.frame + 1) % self.per_frame.len();
        }
        RenderOutcome::Rendered { reconfigured, slot, commands, camera: scene.camera }
    }
}

/// What the driver destroys at shutdown, one step per object kind.
#[derive(Clone, Copy, Debug, PartialEq, Eq, Structural)]
pub enum TeardownStep {
    WaitIdle,
    DestroyFrameSlots,
    DestroyModelResources,
    DestroyFramebuffer,
    DestroyRenderPass,
    UnconfigureSurface,
    DestroySurface,
    DestroyDevice,
    DestroyInstance,
}

/// The one teardown order: wait for the device to go idle, then destroy in
/// dependency order — frame slots, model and pipeline resources, the
/// framebuffer, the render pass, the surface (unconfigured, then destroyed),
/// and last the device and instance.
pub open spec fn teardown_order() -> Seq<TeardownStep> {
    seq![
        TeardownStep::WaitIdle,
        TeardownStep::DestroyFrameSlots,
        TeardownStep::DestroyModelResources,
        TeardownStep::DestroyFramebuffer,
        TeardownStep::DestroyRenderPass,
        TeardownStep::UnconfigureSurface,
        TeardownStep::DestroySurface,
        TeardownStep::DestroyDevice,
        TeardownStep::DestroyInstance,
    ]
}

impl Render {
    /// Register a model: build one pipeline per mesh for that mesh's vertex
    /// layout, upload its vertex bytes and 16-bit indices, record the index
    /// count, and store the bundle under a freshly minted handle. Handles
    /// are minted by an incrementing counter and never reused; there is no
    /// update or delete.
    pub fn add_model(&mut self, model: ModelDef) -> (h: usize)
        requires
            old(self).next_handle() < usize::MAX,
            forall|i: int|
                0 <= i < model@.len() ==> (#[trigger] model@[i].index_buffer@.len()) <= u32::MAX,
        ensures
            h == old(self).next_handle(),
            final(self).resolvable(h),
            model_derived_from(final(self).model_at(h), model@),
            final(self).registry().len() == old(self).registry().len() + 1,
            forall|i: int|
                0 <= i < old(self).registry().len() ==> final(self).registry()[i] == old(
                    self,
                ).registry()[i],
            final(self).registry_base() == old(self).registry_base(),
            final(self).control() == old(self).control(),
            final(self).pool() == old(self).pool(),
            final(self).format() == old(self).format(),
            old(self).wf() ==> final(self).wf(),
    {
        let resource = derive_model(model);
        self.models.insert(resource)
    }

    /// Resolve a handle. Every handle ever returned by `add_model` resolves
    /// for the renderer's whole lifetime; asking for any other handle is a
    /// caller error, so the requirement excludes it.
    pub fn resolve(&self, handle: usize) -> (r: &ModelResource)
        requires
            self.resolvable(handle),
        ensures
            *r == self.model_at(handle),
    {
        match self.models.get(&handle) {
            Some(m) => m,
            None => unreached(),
        }
    }

    /// Shut the renderer down: wait for device idle, release every slot and
    /// registered model, and return the fixed order in which the driver must
    /// destroy its objects. The swapchain is left dirty; handles minted
    /// before the teardown never resolve again.
    pub fn teardown(&mut self) -> (steps: Vec<TeardownStep>)
        requires
            old(self).next_handle() <= usize::MAX,
        ensures
            steps@ == teardown_order(),
            final(self).wf(),
            final(self).dirty(),
            final(self).pool().len() == 0,
            final(self).cursor() == 0,
            final(self).registry().len() == 0,
            final(self).registry_base() == old(self).next_handle(),
            final(self).extent() == old(self).extent(),
            final(self).format() == old(self).format(),
    {
        self.mark_all_idle();
        self.resize_per_frame(0);
        let _ = self.models.drain();
        self.reconfigure_swapchain = true;
        let mut steps: Vec<TeardownStep> = Vec::new();
        steps.push(TeardownStep::WaitIdle);
        steps.push(TeardownStep::DestroyFrameSlots);
        steps.push(TeardownStep::DestroyModelResources);
        steps.push(TeardownStep::DestroyFramebuffer);
        steps.push(TeardownStep::DestroyRenderPass);
        steps.push(TeardownStep::UnconfigureSurface);
        steps.push(TeardownStep::DestroySurface);
        steps.push(TeardownStep::DestroyDevice);
        steps.push(TeardownStep::DestroyInstance);
        proof {
            assert(steps@ =~= teardown_order());
        }
        steps
    }

    /// Note that the surface went stale or out of date — what a failed
    /// presentation, reported only after the frame was submitted, does to
    /// the state: the swapchain is marked dirty and nothing else changes.
    pub fn note_surface_stale(&mut self)
        ensures
            final(self).dirty(),
            final(self).extent() == old(self).extent(),
            final(self).pool() == old(self).pool(),
            final(self).cursor() == old(self).cursor(),
            final(self).registry() == old(self).registry(),
            final(self).registry_base() == old(self).registry_base(),
            final(self).format() == old(self).format(),
            old(self).wf() ==> final(self).wf(),
    {
        self.reconfigure_swapchain = true;
    }

    /// Whether the handle space still has room for one more registration.
    pub fn can_register(&self) -> (b: bool)
        ensures
            b == (self.next_handle() < usize::MAX),
    {
        self.models.has_key_space()
    }

    /// The number of slots in the per-frame pool.
    pub fn pool_len(&self) -> (n: usize)
        ensures
            n == self.pool().len(),
    {
        self.per_frame.len()
    }

    /// The frame cursor.
    pub fn cursor_index(&self) -> (i: usize)
        ensures
            i == self.cursor(),
    {
        self.frame
    }

    /// Whether the swapchain must be reconfigured before the next frame.
    pub fn needs_reconfigure(&self) -> (d: bool)
        ensures
            d == self.dirty(),
    {
        self.reconfigure_swapchain
    }

    /// The extent the swapchain is, or will next be, configured against.
    pub fn current_extent(&self) -> (e: Extent2d)
        ensures
            e == self.extent(),
    {
        self.surface_extent
    }

    /// The colour format chosen at bootstrap.
    pub fn colour_format(&self) -> (f: SurfaceFormat)
        ensures
            f == self.format(),
    {
        self.surface_colour_format
    }

    /// The number of currently registered models.
    pub fn model_count(&self) -> (n: usize)
        ensures
            n == self.registry().len(),
    {
        self.models.len()
    }

    /// Whether `handle` resolves to a registered model.
    pub fn has_model(&self, handle: usize) -> (r: bool)
        ensures
            r == self.resolvable(handle),
    {
        self.models.get(&handle).is_some()
    }

    /// Whether the slot at `index` has submitted work possibly still
    /// executing.
    pub fn slot_in_flight(&self, index: usize) -> (r: bool)
        requires
            index < self.pool().len(),
        ensures
            r == self.pool()[index as int].in_flight,
    {
        self.per_frame[index].in_flight
    }
}

/// Events of a tick on which the frame was produced: the image was acquired
/// and presentation succeeded.
pub open spec fn successful(ev: FrameEvents) -> bool {
    ev.acquire_ok && ev.present_ok
}

/// The control state after a sequence of `render` calls, one event record
/// per call, oldest first.
pub open spec fn run_steps(s: LoopState, evs: Seq<FrameEvents>) -> LoopState
    decreases evs.len(),
{
    if evs.len() == 0 {
        s
    } else {
        render_step(run_steps(s, evs.drop_last()), evs.last())
    }
}

/// Law: a resize followed by a render whose capability query succeeded
/// leaves the slot pool with exactly one slot per swapchain image reported
/// for the resized extent — whatever the acquire and present then did, since
/// the pool is resized before the image is acquired.
pub proof fn lemma_resize_then_render_pool_len(
    s: LoopState,
    e: Extent2d,
    ev: FrameEvents,
    c: SurfaceCaps,
)
    requires
        ev.caps == Some(c),
        c.wf(),
    ensures
        ({
            let resized = LoopState { dirty: true, extent: e, ..s };
            render_step(resized, ev).pool_len == negotiated_image_count(c) as nat
        }),
{
}

/// `(x % l + 1) % l == (x + 1) % l`: advancing a residue by one and reducing
/// is the same as advancing and reducing.
proof fn lemma_mod_succ(x: int, l: int)
    requires
        0 < l,
        0 <= x,
    ensures
        (x % l + 1) % l == (x + 1) % l,
{
    vstd::arithmetic::div_mod::lemma_fundamental_div_mod(x, l);
    vstd::arithmetic::div_mod::lemma_mod_multiples_vanish(x / l, x % l + 1, l);
}

/// Law: starting clean with a non-empty pool, `N` consecutive successful
/// renders leave the state clean, keep the pool length and extent, and leave
/// the cursor at `(cursor + N) mod pool length`.
pub proof fn lemma_cursor_after_successful_renders(s: LoopState, evs: Seq<FrameEvents>)
    requires
        !s.dirty,
        s.pool_len > 0,
        s.cursor < s.pool_len,
        forall|i: int| 0 <= i < evs.len() ==> successful(#[trigger] evs[i]),
    ensures
        ({
            let post = run_steps(s, evs);
            &&& !post.dirty
            &&& post.pool_len == s.pool_len
            &&& post.extent == s.extent
            &&& post.cursor == ((s.cursor + evs.len()) as int % (s.pool_len as int)) as nat
        }),
    decreases evs.len(),
{
    if evs.len() == 0 {
        vstd::arithmetic::div_mod::lemma_small_mod(s.cursor, s.pool_len);
    } else {
        lemma_cursor_after_successful_renders(s, evs.drop_last());
        let mid = run_steps(s, evs.drop_last());
        assert(successful(evs.last()));
        lemma_mod_succ(s.cursor + evs.len() - 1, s.pool_len as int);
    }
}

/// Law: a single failed image acquisition is recoverable and costs exactly
/// one reconfiguration. The failing render only marks the swapchain dirty —
/// pool, cursor and extent are untouched and the call returns normally — and
/// the next render with a successful capability query reconfigures (its
/// outcome carries a reconfigure plan precisely because the state is dirty)
/// and leaves the state clean again, so the render after that attempts none.
pub proof fn lemma_failed_acquire_recovers(
    s: LoopState,
    fail: FrameEvents,
    next: FrameEvents,
    c: SurfaceCaps,
)
    requires
        !s.dirty,
        s.pool_len > 0,
        s.cursor < s.pool_len,
        !fail.acquire_ok,
        next.caps == Some(c),
        c.wf(),
        next.acquire_ok,
        next.present_ok,
    ensures
        ({
            let skipped = render_step(s, fail);
            &&& skipped.dirty
            &&& skipped.pool_len == s.pool_len
            &&& skipped.cursor == s.cursor
            &&& skipped.extent == s.extent
            &&& !render_step(skipped, next).dirty
        }),
{
}

/// Law: the frame's command sequence decomposes instance by instance — the
/// commands recorded for the first `k + 1` instances are those for the first
/// `k` followed by exactly the commands of the model registered under the
/// `k`-th instance's handle.
pub proof fn lemma_scene_commands_decompose(
    instances: Seq<ModelInstance>,
    models: Seq<ModelResource>,
    base: nat,
    k: int,
)
    requires
        0 <= k < instances.len(),
    ensures
        scene_commands_prefix(instances, models, base, k + 1) == scene_commands_prefix(
            instances,
            models,
            base,
            k,
        ) + model_commands(instances[k].model, models[instances[k].model - base].meshes@),
{
}

/// Law: a frame's draws follow the model definition alone. If the model
/// under handle `h` is the bundle derived from `def`, then a scene instance
/// of `h` contributes exactly the bind-and-draw sequence determined by
/// `def`: per mesh, its pipeline and vertex buffer, then an indexed draw of
/// `def`'s index count when `def` has indices, else the fixed-count draw.
/// Nothing else the registry holds, and no earlier or later registration,
/// changes that contribution.
pub proof fn lemma_draws_follow_definition(
    instances: Seq<ModelInstance>,
    models: Seq<ModelResource>,
    base: nat,
    k: int,
    h: usize,
    def: Seq<crate::scene::MeshDef>,
)
    requires
        0 <= k < instances.len(),
        instances[k].model == h,
        base <= h < base + models.len(),
        model_derived_from(models[h - base], def),
    ensures
        scene_commands_prefix(instances, models, base, k + 1) == scene_commands_prefix(
            instances,
            models,
            base,
            k,
        ) + model_commands(h, models[h - base].meshes@),
        models[h - base].meshes@.len() == def.len(),
        forall|j: int|
            0 <= j < def.len() ==> mesh_commands(h, j as usize, models[h - base].meshes@[j]) == (
            if def[j].index_buffer@.len() > 0 {
                seq![
                    DrawCommand::BindPipeline { model: h, mesh: j as usize },
                    DrawCommand::BindVertexBuffer { model: h, mesh: j as usize },
                    DrawCommand::BindIndexBuffer { model: h, mesh: j as usize },
                    DrawCommand::DrawIndexed { index_count: def[j].index_buffer@.len() as u32 },
                ]
            } else {
                seq![
                    DrawCommand::BindPipeline { model: h, mesh: j as usize },
                    DrawCommand::BindVertexBuffer { model: h, mesh: j as usize },
                    DrawCommand::Draw { vertex_count: FIXED_VERTEX_COUNT },
                ]
            }),
{
    assert forall|j: int| 0 <= j < def.len() implies mesh_commands(
        h,
        j as usize,
        models[h - base].meshes@[j],
    ) == (if def[j].index_buffer@.len() > 0 {
        seq![
            DrawCommand::BindPipeline { model: h, mesh: j as usize },
            DrawCommand::BindVertexBuffer { model: h, mesh: j as usize },
            DrawCommand::BindIndexBuffer { model: h, mesh: j as usize },
            DrawCommand::DrawIndexed { index_count: def[j].index_buffer@.len() as u32 },
        ]
    } else {
        seq![
            DrawCommand::BindPipeline { model: h, mesh: j as usize },
            DrawCommand::BindVertexBuffer { model: h, mesh: j as usize },
            DrawCommand::Draw { vertex_count: FIXED_VERTEX_COUNT },
        ]
    }) by {
        assert(crate::scene::mesh_derived_from(models[h - base].meshes@[j], def[j]));
    }
}

/// Law: a presentation failure may be learned only after the frame was
/// submitted. Applying the transition as if presentation succeeded and then
/// marking the swapchain dirty reaches exactly the state of the transition
/// that knew the failure up front, so a driver that presents last loses
/// nothing.
pub proof fn lemma_late_present_failure(s: LoopState, ev: FrameEvents)
    requires
        ev.acquire_ok,
    ensures
        ({
            let optimistic = render_step(
                s,
                FrameEvents { caps: ev.caps, acquire_ok: true, present_ok: true },
            );
            render_step(s, ev) == (if ev.present_ok {
                optimistic
            } else {
                LoopState { dirty: true, ..optimistic }
            })
        }),
{
}

/// Law: a freshly minted handle differs from every handle minted before it,
/// so registration order can never make two models share a handle, and no
/// handle is ever reused.
pub proof fn lemma_next_handle_fresh(r: &Render)
    ensures
        forall|k: usize| r.resolvable(k) ==> k != r.next_handle(),
{
}

/// Law: a handle registered before any sequence of later registrations still
/// resolves to the same model afterwards — the registry is append-only.
pub proof fn lemma_registered_model_stable(
    before: Seq<ModelResource>,
    after: Seq<ModelResource>,
    base: nat,
    h: usize,
)
    requires
        after.len() >= before.len(),
        forall|i: int| 0 <= i < before.len() ==> after[i] == before[i],
        base <= h < base + before.len(),
    ensures
        after[h - base] == before[h - base],
{
}

} // verus!

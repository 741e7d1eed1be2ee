use crate::resource::Rendering;
use crate::resources::ResourceSet;
use crate::util::{high_byte, low_byte};
use vstd::prelude::*;

verus! {

/// An immutable drawable built once with the level: one primitive drawn with
/// a fixed group tag and color index in the primary pass's draw sub-stage.
pub struct StaticDraw {
    pub primitive: usize,
    pub group: u16,
    pub color: u32,
}

/// A drawable whose world transform is recomputed every frame (the
/// transform itself is owned by the physics side and never read here): a
/// list of primitives, each with its own group tag, sharing one color.
pub struct DynamicDraw {
    pub primitives: Vec<(usize, u16)>,
    pub color: u32,
}

/// A drawable rasterized by the eraser sub-stage: it marks the pixels it
/// covers as being erased by its group rather than contributing color.
pub struct DynamicEraser {
    pub primitive: usize,
    pub group: u16,
}

/// One recorded command of the primary pass and the compute dispatches that
/// follow it, in submission order.
#[derive(Clone, Copy, PartialEq, Eq, Structural, Debug)]
pub enum DrawCommand {
    /// Draw one primitive in the draw sub-stage, with the group id split
    /// into its high and low bytes for the fragment stage, and a color
    /// index.
    Draw { primitive: usize, group_hb: u32, group_lb: u32, color: u32 },
    /// Advance from the draw sub-stage to the eraser sub-stage.
    NextSubpass,
    /// Draw one primitive with the eraser pipeline, which writes only the
    /// erase mask.
    EraseDraw { primitive: usize },
    /// End the primary pass.
    EndPass,
    /// Zero the transient touch buffer.
    FillTouch,
    /// The collect dispatch, tiled over the screen.
    DispatchCollect { x: u32, y: u32 },
    /// The merge dispatch, tiled over the group slots, with the frame's
    /// decay step as its push data.
    DispatchMerge { x: u32, step: u32 },
}

/// One recorded command of the composition pass, in submission order.
#[derive(Clone, Copy, PartialEq, Eq, Structural, Debug)]
pub enum ComposeCommand {
    /// The full-screen draw that merges color, group tags and decay values
    /// into the presented image.
    Fullscreen,
    /// The cursor sprite drawn on top.
    Cursor,
    /// One overlay (UI) draw call.
    Overlay,
}

/// The command a static drawable records.
pub open spec fn static_cmd(s: StaticDraw) -> DrawCommand {
    DrawCommand::Draw {
        primitive: s.primitive,
        group_hb: (s.group as u32 / 256) as u32,
        group_lb: (s.group as u32 % 256) as u32,
        color: s.color,
    }
}

/// The commands a sequence of static drawables records, in order.
pub open spec fn static_cmds(s: Seq<StaticDraw>) -> Seq<DrawCommand> {
    s.map_values(|d: StaticDraw| static_cmd(d))
}

/// The commands one dynamic drawable records: one draw per primitive, all
/// sharing the drawable's color.
pub open spec fn dynamic_cmds_one(d: DynamicDraw) -> Seq<DrawCommand> {
    d.primitives@.map_values(
        |p: (usize, u16)|
            DrawCommand::Draw {
                primitive: p.0,
                group_hb: (p.1 as u32 / 256) as u32,
                group_lb: (p.1 as u32 % 256) as u32,
                color: d.color,
            },
    )
}

/// The commands a sequence of dynamic drawables records, in order.
pub open spec fn dynamic_cmds(ds: Seq<DynamicDraw>) -> Seq<DrawCommand>
    decreases ds.len(),
{
    if ds.len() == 0 {
        Seq::empty()
    } else {
        dynamic_cmds(ds.drop_last()) + dynamic_cmds_one(ds.last())
    }
}

/// The commands a sequence of erasers records, in order.
pub open spec fn eraser_cmds(es: Seq<DynamicEraser>) -> Seq<DrawCommand> {
    es.map_values(|e: DynamicEraser| DrawCommand::EraseDraw { primitive: e.primitive })
}

/// The whole primary command sequence of one frame: static draws, then
/// dynamic draws, then the eraser sub-stage, then the pass end and the two
/// eraser compute dispatches.  The collect dispatch is tiled in 64-pixel
/// squares over the screen and the merge dispatch in 64-slot runs over the
/// 65536 group slots.
pub open spec fn primary_commands(
    statics: Seq<StaticDraw>,
    dynamics: Seq<DynamicDraw>,
    erasers: Seq<DynamicEraser>,
    width: u32,
    height: u32,
    step: u32,
) -> Seq<DrawCommand> {
    static_cmds(statics) + dynamic_cmds(dynamics) + seq![DrawCommand::NextSubpass]
        + eraser_cmds(erasers) + seq![
        DrawCommand::EndPass,
        DrawCommand::FillTouch,
        DrawCommand::DispatchCollect { x: width / 64, y: height / 64 },
        DrawCommand::DispatchMerge { x: 1024, step },
    ]
}

/// The whole composition command sequence of one frame: the full-screen
/// merge draw, the cursor, then one draw per overlay batch.
pub open spec fn compose_commands(overlay_draws: nat) -> Seq<ComposeCommand> {
    seq![ComposeCommand::Fullscreen, ComposeCommand::Cursor] + Seq::new(
        overlay_draws,
        |i: int| ComposeCommand::Overlay,
    )
}

/// Records both command sequences of one frame from the current drawable
/// collections, exactly as the renderer submits them.
pub struct DrawSystem;

impl DrawSystem {
    /// Records the primary pass and the compute dispatches for one frame.
    pub fn record_primary(
        &self,
        statics: &Vec<StaticDraw>,
        dynamics: &Vec<DynamicDraw>,
        erasers: &Vec<DynamicEraser>,
        width: u32,
        height: u32,
        step: u32,
    ) -> (cmds: Vec<DrawCommand>)
        ensures
            cmds@ == primary_commands(statics@, dynamics@, erasers@, width, height, step),
    {
        let mut cmds: Vec<DrawCommand> = Vec::new();

        let mut i: usize = 0;
        while i < statics.len()
            invariant
                i <= statics@.len(),
                cmds@ == static_cmds(statics@.take(i as int)),
            decreases statics@.len() - i,
        {
            let s = &statics[i];
            let hb = high_byte(s.group as u32);
            let lb = low_byte(s.group as u32);
            cmds.push(
                DrawCommand::Draw { primitive: s.primitive, group_hb: hb, group_lb: lb, color: s.color },
            );
            proof {
                assert(statics@.take(i + 1).map_values(|d: StaticDraw| static_cmd(d))
                    =~= statics@.take(i as int).map_values(|d: StaticDraw| static_cmd(d)).push(
                    static_cmd(statics@[i as int]),
                ));
            }
            i = i + 1;
        }
        proof {
            assert(statics@.take(statics@.len() as int) =~= statics@);
        }

        let ghost before_dynamics = cmds@;
        let mut j: usize = 0;
        while j < dynamics.len()
            invariant
                j <= dynamics@.len(),
                cmds@ == before_dynamics + dynamic_cmds(dynamics@.take(j as int)),
            decreases dynamics@.len() - j,
        {
            let d = &dynamics[j];
            let ghost before_one = cmds@;
            let mut k: usize = 0;
            while k < d.primitives.len()
                invariant
                    k <= d.primitives@.len(),
                    cmds@ == before_one + dynamic_cmds_one(*d).take(k as int),
                decreases d.primitives@.len() - k,
            {
                let p = d.primitives[k];
                let hb = high_byte(p.1 as u32);
                let lb = low_byte(p.1 as u32);
                cmds.push(
                    DrawCommand::Draw { primitive: p.0, group_hb: hb, group_lb: lb, color: d.color },
                );
                proof {
                    assert(dynamic_cmds_one(*d).take(k + 1) =~= dynamic_cmds_one(*d).take(
                        k as int,
                    ).push(dynamic_cmds_one(*d)[k as int]));
                }
                k = k + 1;
            }
            proof {
                assert(dynamic_cmds_one(*d).take(d.primitives@.len() as int) =~= dynamic_cmds_one(
                    *d,
                ));
                assert(dynamics@.take(j + 1).drop_last() =~= dynamics@.take(j as int));
                assert(dynamics@.take(j + 1).last() == dynamics@[j as int]);
            }
            j = j + 1;
        }
        proof {
            assert(dynamics@.take(dynamics@.len() as int) =~= dynamics@);
        }

        cmds.push(DrawCommand::NextSubpass);

        let ghost before_erasers = cmds@;
        let mut e: usize = 0;
        while e < erasers.len()
            invariant
                e <= erasers@.len(),
                cmds@ == before_erasers + eraser_cmds(erasers@.take(e as int)),
            decreases erasers@.len() - e,
        {
            cmds.push(DrawCommand::EraseDraw { primitive: erasers[e].primitive });
            proof {
                assert(erasers@.take(e + 1).map_values(
                    |x: DynamicEraser| DrawCommand::EraseDraw { primitive: x.primitive },
                ) =~= erasers@.take(e as int).map_values(
                    |x: DynamicEraser| DrawCommand::EraseDraw { primitive: x.primitive },
                ).push(DrawCommand::EraseDraw { primitive: erasers@[e as int].primitive }));
            }
            e = e + 1;
        }
        proof {
            assert(erasers@.take(erasers@.len() as int) =~= erasers@);
        }

        cmds.push(DrawCommand::EndPass);
        cmds.push(DrawCommand::FillTouch);
        cmds.push(DrawCommand::DispatchCollect { x: width / 64, y: height / 64 });
        cmds.push(DrawCommand::DispatchMerge { x: 1024, step });

        proof {
            assert(cmds@ =~= primary_commands(
                statics@,
                dynamics@,
                erasers@,
                width,
                height,
                step,
            ));
        }
        cmds
    }

    /// Records one whole frame into the hand-off: the primary pass and its
    /// compute dispatches at the resource set's current extent, and the
    /// composition pass for the acquired image.  The acquired image index
    /// is consumed, as are the sizes the overlay was laid out with; both
    /// command sequences are left ready for submission.
    pub fn run(
        &self,
        rendering: &mut Rendering,
        resources: &ResourceSet,
        statics: &Vec<StaticDraw>,
        dynamics: &Vec<DynamicDraw>,
        erasers: &Vec<DynamicEraser>,
        step: u32,
        overlay_draws: usize,
    )
        requires
            old(rendering).image_num is Some,
            old(rendering).size_points is Some,
            old(rendering).size_pixels is Some,
            resources.wf(),
        ensures
            (final(rendering).command_buffer matches Some(cb) && cb@ == primary_commands(
                statics@,
                dynamics@,
                erasers@,
                resources.extent.width,
                resources.extent.height,
                step,
            )),
            (final(rendering).second_command_buffer matches Some(cb) && cb@ == compose_commands(
                overlay_draws as nat,
            )),
            final(rendering).image_num is None,
            final(rendering).size_points is None,
            final(rendering).size_pixels is None,
    {
        let primary = self.record_primary(
            statics,
            dynamics,
            erasers,
            resources.extent.width,
            resources.extent.height,
            step,
        );
        let composition = self.record_composition(overlay_draws);
        rendering.image_num = None;
        rendering.size_points = None;
        rendering.size_pixels = None;
        rendering.command_buffer = Some(primary);
        rendering.second_command_buffer = Some(composition);
    }

    /// Records the composition pass for one frame: the full-screen merge,
    /// the cursor sprite, then the overlay batches.
    pub fn record_composition(&self, overlay_draws: usize) -> (cmds: Vec<ComposeCommand>)
        ensures
            cmds@ == compose_commands(overlay_draws as nat),
    {
        let mut cmds: Vec<ComposeCommand> = Vec::new();
        cmds.push(ComposeCommand::Fullscreen);
        cmds.push(ComposeCommand::Cursor);
        let mut i: usize = 0;
        while i < overlay_draws
            invariant
                i <= overlay_draws,
                cmds@ == compose_commands(i as nat),
            decreases overlay_draws - i,
        {
            cmds.push(ComposeCommand::Overlay);
            proof {
                assert(compose_commands((i + 1) as nat) =~= compose_commands(i as nat).push(
                    ComposeCommand::Overlay,
                ));
            }
            i = i + 1;
        }
        cmds
    }
}

} // verus!

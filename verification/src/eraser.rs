use crate::graphics::GROUP_COUNTER_SIZE;
use vstd::prelude::*;

verus! {

/// Fixed-point unit for decay values.  A slot holds `DECAY_ONE` when its
/// group is not faded at all and `0` when it is fully erased; every slot
/// always lies in `[0, DECAY_ONE]`.
pub const DECAY_ONE: u32 = 1000000;

/// One pixel of the primary pass's output as the collect dispatch reads it:
/// the group tag written by the draw sub-stages, and whether the eraser
/// sub-stage marked the pixel as being erased.
#[derive(Clone, Copy, PartialEq, Eq, Structural, Debug)]
pub struct PixelTag {
    pub group: u16,
    pub erased: bool,
}

/// Number of pixels in `pixels` that carry group tag `g` and are marked
/// erased: the touch signal one frame contributes to slot `g`.
pub open spec fn touch_count(pixels: Seq<PixelTag>, g: u16) -> nat
    decreases pixels.len(),
{
    if pixels.len() == 0 {
        0
    } else {
        touch_count(pixels.drop_last(), g) + if pixels.last().erased
            && pixels.last().group == g {
            1nat
        } else {
            0nat
        }
    }
}

/// A group is touched by at most one count per pixel.
pub proof fn lemma_touch_count_le_len(pixels: Seq<PixelTag>, g: u16)
    ensures
        touch_count(pixels, g) <= pixels.len(),
    decreases pixels.len(),
{
    if pixels.len() > 0 {
        lemma_touch_count_le_len(pixels.drop_last(), g);
    }
}

/// Extending the scanned prefix by one pixel raises exactly the count of
/// that pixel's group, and only when the pixel is marked erased.
proof fn lemma_touch_count_step(pixels: Seq<PixelTag>, i: int)
    requires
        0 <= i < pixels.len(),
    ensures
        forall|g: u16|
            #[trigger] touch_count(pixels.take(i + 1), g) == touch_count(
                pixels.take(i),
                g,
            ) + if pixels[i].erased && pixels[i].group == g {
                1nat
            } else {
                0nat
            },
{
    assert(pixels.take(i + 1).drop_last() =~= pixels.take(i));
    assert(pixels.take(i + 1).last() == pixels[i]);
}

/// The decay slot value after one merge step of size `step` on a touched
/// slot: moved toward 0, saturating there.
pub open spec fn decay_step(d: u32, step: u32) -> u32 {
    if d > step {
        (d - step) as u32
    } else {
        0
    }
}

/// The whole decay buffer after the merge dispatch: every slot with a
/// nonzero touch count moves toward 0 by `step`, every other slot is left
/// unchanged.
pub open spec fn merge_spec(decay: Seq<u32>, touch: Seq<u32>, step: u32) -> Seq<u32>
    recommends
        decay.len() == touch.len(),
{
    Seq::new(
        decay.len(),
        |g: int|
            if touch[g] > 0 {
                decay_step(decay[g], step)
            } else {
                decay[g]
            },
    )
}

/// The touch buffer a frame's pixels produce: one slot per possible group id.
pub open spec fn touch_counts(pixels: Seq<PixelTag>) -> Seq<u32> {
    Seq::new(65536, |g: int| touch_count(pixels, g as u16) as u32)
}

/// The decay buffer after one whole frame of the eraser compute stage on
/// `pixels`: the collect dispatch counts erased pixels per group into a
/// freshly zeroed touch buffer, then the merge dispatch folds those counts
/// into the decay buffer.  The result depends only on the previous decay
/// values, the frame's pixels and the step; never on stale touch contents.
pub open spec fn frame_decay(decay: Seq<u32>, pixels: Seq<PixelTag>, step: u32) -> Seq<u32> {
    merge_spec(decay, touch_counts(pixels), step)
}

/// The per-group touch and decay buffers the eraser compute stage works on.
/// The touch buffer is transient: zeroed at the start of every frame and
/// filled by the collect dispatch.  The decay buffer is persistent across
/// frames and only ever written by the merge dispatch.
pub struct EraserBuffers {
    touch: Vec<u32>,
    decay: Vec<u32>,
}

impl EraserBuffers {
    /// The transient per-group touch counts.
    pub closed spec fn touches(self) -> Seq<u32> {
        self.touch@
    }

    /// The persistent per-group decay values.
    pub closed spec fn decays(self) -> Seq<u32> {
        self.decay@
    }

    /// Both buffers have one slot per group id and every decay slot lies in
    /// `[0, DECAY_ONE]`.
    pub open spec fn wf(self) -> bool {
        &&& self.touches().len() == 65536
        &&& self.decays().len() == 65536
        &&& forall|g: int| 0 <= g < 65536 ==> self.decays()[g] <= DECAY_ONE
    }

    /// Fresh buffers: no touches recorded, every group fully visible.
    pub fn new() -> (b: Self)
        ensures
            b.wf(),
            forall|g: int| 0 <= g < 65536 ==> b.touches()[g] == 0,
            forall|g: int| 0 <= g < 65536 ==> b.decays()[g] == DECAY_ONE,
    {
        EraserBuffers { touch: filled(GROUP_COUNTER_SIZE, 0), decay: filled(
            GROUP_COUNTER_SIZE,
            DECAY_ONE,
        ) }
    }

    /// Zeroes the touch buffer, as the frame commands do before the collect
    /// dispatch runs.  The decay buffer is untouched.
    pub fn clear_touches(&mut self)
        requires
            old(self).wf(),
        ensures
            final(self).wf(),
            forall|g: int| 0 <= g < 65536 ==> final(self).touches()[g] == 0,
            final(self).decays() == old(self).decays(),
    {
        self.touch = filled(GROUP_COUNTER_SIZE, 0);
    }

    /// The collect dispatch: for every pixel the primary pass marked as
    /// erased, increments the touch slot of the group tagged at that pixel.
    /// Requires the frame's clear to have run first.
    pub fn collect(&mut self, pixels: &Vec<PixelTag>)
        requires
            old(self).wf(),
            forall|g: int| 0 <= g < 65536 ==> old(self).touches()[g] == 0,
            pixels@.len() <= u32::MAX,
        ensures
            final(self).wf(),
            forall|g: u16| #[trigger]
                final(self).touches()[g as int] == touch_count(pixels@, g),
            final(self).decays() == old(self).decays(),
    {
        let ghost all = pixels@;
        let mut i: usize = 0;
        while i < pixels.len()
            invariant
                i <= all.len(),
                all.len() <= u32::MAX,
                pixels@ == all,
                self.wf(),
                self.decays() == old(self).decays(),
                forall|g: u16| #[trigger]
                    self.touches()[g as int] == touch_count(all.take(i as int), g),
            decreases all.len() - i,
        {
            let p = pixels[i];
            proof {
                lemma_touch_count_step(all, i as int);
            }
            if p.erased {
                let g = p.group as usize;
                let count = self.touch[g];
                proof {
                    lemma_touch_count_le_len(all.take(i as int), p.group);
                }
                self.touch.set(g, count + 1);
            }
            i = i + 1;
        }
        proof {
            assert(all.take(all.len() as int) =~= all);
        }
    }

    /// The merge dispatch: folds the touch counts into the decay buffer,
    /// moving every touched slot toward 0 by `step` (saturating at 0) and
    /// leaving every untouched slot exactly as it was.
    pub fn merge(&mut self, step: u32)
        requires
            old(self).wf(),
        ensures
            final(self).wf(),
            final(self).decays() == merge_spec(old(self).decays(), old(self).touches(), step),
            final(self).touches() == old(self).touches(),
    {
        let ghost target = merge_spec(old(self).decays(), old(self).touches(), step);
        let mut g: usize = 0;
        while g < GROUP_COUNTER_SIZE
            invariant
                g <= 65536,
                old(self).wf(),
                target == merge_spec(old(self).decays(), old(self).touches(), step),
                self.wf(),
                self.touches() == old(self).touches(),
                self.decays().len() == 65536,
                forall|k: int| 0 <= k < g ==> self.decays()[k] == target[k],
                forall|k: int| g <= k < 65536 ==> self.decays()[k] == old(self).decays()[k],
            decreases 65536 - g,
        {
            if self.touch[g] > 0 {
                let d = self.decay[g];
                let next = if d > step {
                    d - step
                } else {
                    0
                };
                self.decay.set(g, next);
            }
            g = g + 1;
        }
        proof {
            assert(self.decays() =~= target);
        }
    }

    /// One whole frame of the eraser compute stage: zero the touch buffer,
    /// run the collect dispatch over the frame's pixels, then run the merge
    /// dispatch.  The resulting decay values depend only on the previous
    /// decay values, the pixels and the step — stale touch contents from an
    /// earlier frame cannot influence them.
    pub fn run_frame(&mut self, pixels: &Vec<PixelTag>, step: u32)
        requires
            old(self).wf(),
            pixels@.len() <= u32::MAX,
        ensures
            final(self).wf(),
            final(self).decays() == frame_decay(old(self).decays(), pixels@, step),
            final(self).touches() == touch_counts(pixels@),
    {
        self.clear_touches();
        self.collect(pixels);
        self.merge(step);
        proof {
            assert(self.touches() =~= touch_counts(pixels@));
            assert(self.decays() =~= frame_decay(old(self).decays(), pixels@, step));
        }
    }

    /// The decay value of one group, for callers outside the compute stage
    /// (the composition pass samples this per pixel).
    pub fn decay_of(&self, g: u16) -> (d: u32)
        requires
            self.wf(),
        ensures
            d == self.decays()[g as int],
    {
        self.decay[g as usize]
    }

    /// The touch count of one group in the current frame.
    pub fn touch_of(&self, g: u16) -> (t: u32)
        requires
            self.wf(),
        ensures
            t == self.touches()[g as int],
    {
        self.touch[g as usize]
    }
}

/// A vector of `n` copies of `v`.
fn filled(n: usize, v: u32) -> (r: Vec<u32>)
    ensures
        r@.len() == n,
        forall|k: int| 0 <= k < n ==> r@[k] == v,
{
    let mut r: Vec<u32> = Vec::new();
    let mut i: usize = 0;
    while i < n
        invariant
            i <= n,
            r@.len() == i,
            forall|k: int| 0 <= k < i ==> r@[k] == v,
        decreases n - i,
    {
        r.push(v);
        i = i + 1;
    }
    r
}

/// After any merge dispatch on well-formed buffers, every decay slot still
/// lies in `[0, DECAY_ONE]`.
pub proof fn lemma_decay_slots_bounded(decay: Seq<u32>, touch: Seq<u32>, step: u32)
    requires
        decay.len() == touch.len(),
        forall|g: int| 0 <= g < decay.len() ==> decay[g] <= DECAY_ONE,
    ensures
        forall|g: int|
            0 <= g < decay.len() ==> #[trigger] merge_spec(decay, touch, step)[g] <= DECAY_ONE,
{
}

/// A group with no touches in a frame keeps its decay value through that
/// frame's merge.
pub proof fn lemma_untouched_slot_unchanged(
    decay: Seq<u32>,
    pixels: Seq<PixelTag>,
    step: u32,
    g: u16,
)
    requires
        decay.len() == 65536,
        touch_count(pixels, g) == 0,
    ensures
        frame_decay(decay, pixels, step)[g as int] == decay[g as int],
{
}

/// Erasure is monotonic: across two consecutive frames in which a group is
/// touched, its decay value never increases (and is bounded below by 0 by
/// type).
pub proof fn lemma_touched_decay_monotonic(
    decay: Seq<u32>,
    first: Seq<PixelTag>,
    first_step: u32,
    second: Seq<PixelTag>,
    second_step: u32,
    g: u16,
)
    requires
        decay.len() == 65536,
        touch_count(first, g) > 0,
        touch_count(second, g) > 0,
    ensures
        frame_decay(frame_decay(decay, first, first_step), second, second_step)[g as int]
            <= frame_decay(decay, first, first_step)[g as int],
        frame_decay(decay, first, first_step)[g as int] <= decay[g as int],
{
}

} // verus!

use crate::eraser::{EraserBuffers, DECAY_ONE};
use crate::render_graph::{Attachment, Extent, Format};
use vstd::prelude::*;

verus! {

/// The fallback presentation extent used when the surface does not report a
/// current one.
pub open spec fn fallback_extent() -> Extent {
    Extent { width: 1280, height: 1024 }
}

/// The extent the swapchain is built with: the surface's current extent
/// when it reports one, the fallback otherwise.
pub fn choose_extent(current: Option<Extent>) -> (e: Extent)
    ensures
        e == match current {
            Some(c) => c,
            None => fallback_extent(),
        },
{
    match current {
        Some(c) => c,
        None => Extent { width: 1280, height: 1024 },
    }
}

/// The cursor pipeline's viewport, measured in half-pixels so that the
/// centered origin stays integral: the sprite is drawn at twice its texture
/// size, centered on the screen.  Both viewport dimensions come from the
/// texture's width, as the renderer sizes them.
#[derive(Clone, Copy, PartialEq, Eq, Structural, Debug)]
pub struct CursorViewport {
    /// Twice the viewport origin's x coordinate.
    pub origin_x2: u32,
    /// Twice the viewport origin's y coordinate.
    pub origin_y2: u32,
    pub width: u32,
    pub height: u32,
}

/// Computes the cursor viewport for a screen and a cursor texture.
pub fn cursor_viewport(extent: Extent, tex: Extent) -> (v: CursorViewport)
    requires
        2 * tex.width <= extent.width,
        2 * tex.height <= extent.height,
    ensures
        v.origin_x2 == extent.width - 2 * tex.width,
        v.origin_y2 == extent.height - 2 * tex.height,
        v.width == 2 * tex.width,
        v.height == 2 * tex.width,
{
    CursorViewport {
        origin_x2: extent.width - 2 * tex.width,
        origin_y2: extent.height - 2 * tex.height,
        width: 2 * tex.width,
        height: 2 * tex.width,
    }
}

/// Every GPU-side resource whose identity the renderer owns, in the shape
/// the rest of the pipeline relies on: the presentation extent, the three
/// primary-pass attachments, the framebuffers, the viewports of the
/// extent-sized pipelines, the cursor viewport and the two eraser buffers.
/// All extent-dependent resources are rebuilt wholesale on resize; the
/// decay buffer lives for the lifetime of the renderer.
pub struct ResourceSet {
    pub extent: Extent,
    /// The cursor sprite texture's size, fixed at initialization.
    pub cursor_tex: Extent,
    pub swapchain_image_count: usize,
    pub depth_attachment: Attachment,
    pub tmp_image_attachment: Attachment,
    pub tmp_erase_image_attachment: Attachment,
    /// The primary framebuffer binds the three attachments at this extent.
    pub framebuffer_extent: Extent,
    /// One composition framebuffer per swapchain image.
    pub second_framebuffer_extents: Vec<Extent>,
    /// Viewports of the four pipelines sized to the whole screen.
    pub draw1_viewport: Extent,
    pub draw1_eraser_viewport: Extent,
    pub draw2_viewport: Extent,
    pub overlay_viewport: Extent,
    pub cursor_viewport: CursorViewport,
    pub buffers: EraserBuffers,
}

impl ResourceSet {
    /// Every extent-dependent resource matches the current presentation
    /// extent, the attachment formats are wired as the render graph
    /// demands, there is one composition framebuffer per swapchain image,
    /// and the eraser buffers are well formed.
    pub open spec fn wf(self) -> bool {
        &&& self.depth_attachment == (Attachment { format: Format::D16Unorm, extent: self.extent })
        &&& self.tmp_image_attachment == (Attachment {
            format: Format::R8G8B8A8Uint,
            extent: self.extent,
        })
        &&& self.tmp_erase_image_attachment == (Attachment {
            format: Format::R8Uint,
            extent: self.extent,
        })
        &&& self.framebuffer_extent == self.extent
        &&& self.second_framebuffer_extents@.len() == self.swapchain_image_count
        &&& forall|i: int|
            0 <= i < self.second_framebuffer_extents@.len()
                ==> self.second_framebuffer_extents@[i] == self.extent
        &&& self.draw1_viewport == self.extent
        &&& self.draw1_eraser_viewport == self.extent
        &&& self.draw2_viewport == self.extent
        &&& self.overlay_viewport == self.extent
        &&& self.cursor_viewport.origin_x2 == self.extent.width - 2 * self.cursor_tex.width
        &&& self.cursor_viewport.origin_y2 == self.extent.height - 2 * self.cursor_tex.height
        &&& self.cursor_viewport.width == 2 * self.cursor_tex.width
        &&& self.cursor_viewport.height == 2 * self.cursor_tex.width
        &&& 2 * self.cursor_tex.width <= self.extent.width
        &&& 2 * self.cursor_tex.height <= self.extent.height
        &&& self.buffers.wf()
    }

    /// Builds the full resource set at the extent the surface reports (or
    /// the fallback).  The decay buffer starts with every group fully
    /// visible and the touch buffer zeroed.  Device, queue and pipeline
    /// creation failures are fatal at the device boundary and never reach
    /// this wiring.
    pub fn initialize(
        current_extent: Option<Extent>,
        swapchain_image_count: usize,
        cursor_tex: Extent,
    ) -> (r: ResourceSet)
        requires
            2 * cursor_tex.width <= match current_extent {
                Some(c) => c.width as int,
                None => 1280,
            },
            2 * cursor_tex.height <= match current_extent {
                Some(c) => c.height as int,
                None => 1024,
            },
        ensures
            r.wf(),
            r.extent == match current_extent {
                Some(c) => c,
                None => fallback_extent(),
            },
            r.cursor_tex == cursor_tex,
            r.swapchain_image_count == swapchain_image_count,
            forall|g: int| 0 <= g < 65536 ==> r.buffers.decays()[g] == DECAY_ONE,
            forall|g: int| 0 <= g < 65536 ==> r.buffers.touches()[g] == 0,
    {
        let extent = choose_extent(current_extent);
        ResourceSet {
            extent,
            cursor_tex,
            swapchain_image_count,
            depth_attachment: Attachment { format: Format::D16Unorm, extent },
            tmp_image_attachment: Attachment { format: Format::R8G8B8A8Uint, extent },
            tmp_erase_image_attachment: Attachment { format: Format::R8Uint, extent },
            framebuffer_extent: extent,
            second_framebuffer_extents: repeated_extent(extent, swapchain_image_count),
            draw1_viewport: extent,
            draw1_eraser_viewport: extent,
            draw2_viewport: extent,
            overlay_viewport: extent,
            cursor_viewport: cursor_viewport(extent, cursor_tex),
            buffers: EraserBuffers::new(),
        }
    }

    /// Tears down and rebuilds every extent-dependent resource at the new
    /// extent.  The caller must first make sure no frame referencing the
    /// old resources is still in flight.  The persistent decay buffer and
    /// the transient touch buffer carry over unchanged.
    pub fn resize(&mut self, new_extent: Extent)
        requires
            old(self).wf(),
            2 * old(self).cursor_tex.width <= new_extent.width,
            2 * old(self).cursor_tex.height <= new_extent.height,
        ensures
            final(self).wf(),
            final(self).extent == new_extent,
            final(self).cursor_tex == old(self).cursor_tex,
            final(self).swapchain_image_count == old(self).swapchain_image_count,
            final(self).buffers.decays() == old(self).buffers.decays(),
            final(self).buffers.touches() == old(self).buffers.touches(),
    {
        self.extent = new_extent;
        self.depth_attachment = Attachment { format: Format::D16Unorm, extent: new_extent };
        self.tmp_image_attachment = Attachment { format: Format::R8G8B8A8Uint, extent: new_extent };
        self.tmp_erase_image_attachment = Attachment { format: Format::R8Uint, extent: new_extent };
        self.framebuffer_extent = new_extent;
        self.second_framebuffer_extents = repeated_extent(new_extent, self.swapchain_image_count);
        self.draw1_viewport = new_extent;
        self.draw1_eraser_viewport = new_extent;
        self.draw2_viewport = new_extent;
        self.overlay_viewport = new_extent;
        self.cursor_viewport = cursor_viewport(new_extent, self.cursor_tex);
    }
}

/// A vector of `n` copies of one extent: the composition framebuffers, one
/// per swapchain image.
fn repeated_extent(e: Extent, n: usize) -> (r: Vec<Extent>)
    ensures
        r@.len() == n,
        forall|i: int| 0 <= i < n ==> r@[i] == e,
{
    let mut r: Vec<Extent> = Vec::new();
    let mut i: usize = 0;
    while i < n
        invariant
            i <= n,
            r@.len() == i,
            forall|k: int| 0 <= k < i ==> r@[k] == e,
        decreases n - i,
    {
        r.push(e);
        i = i + 1;
    }
    r
}

} // verus!

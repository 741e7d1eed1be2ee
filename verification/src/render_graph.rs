use vstd::prelude::*;

verus! {

/// Pixel format of an image or attachment.
#[derive(Clone, Copy, PartialEq, Eq, Structural, Debug)]
pub enum Format {
    /// Color plus group tag written by the draw sub-stage.
    R8G8B8A8Uint,
    /// The erase mask written by the eraser sub-stage.
    R8Uint,
    /// The shared depth attachment.
    D16Unorm,
    /// The presented swapchain images.
    B8G8R8A8Srgb,
    /// Sampled sprite textures (cursor, overlay atlas).
    R8G8B8A8Unorm,
}

/// A width and height in pixels.
#[derive(Clone, Copy, PartialEq, Eq, Structural, Debug)]
pub struct Extent {
    pub width: u32,
    pub height: u32,
}

/// An attachment image: its format and its size.
#[derive(Clone, Copy, PartialEq, Eq, Structural, Debug)]
pub struct Attachment {
    pub format: Format,
    pub extent: Extent,
}

/// The ahead-of-time description of one render pass: its attachments in
/// binding order and how many sub-stages draw into them.
pub struct PassDesc {
    pub attachment_formats: Vec<Format>,
    pub subpasses: usize,
}

/// The primary pass: the draw sub-stage and the eraser sub-stage share one
/// group-tag color attachment, one erase-mask attachment and one depth
/// attachment, in that binding order.
pub fn primary_pass_desc() -> (p: PassDesc)
    ensures
        p.attachment_formats@ =~= seq![Format::R8G8B8A8Uint, Format::R8Uint, Format::D16Unorm],
        p.subpasses == 2,
{
    let mut formats: Vec<Format> = Vec::new();
    formats.push(Format::R8G8B8A8Uint);
    formats.push(Format::R8Uint);
    formats.push(Format::D16Unorm);
    PassDesc { attachment_formats: formats, subpasses: 2 }
}

/// The composition pass: a single sub-stage drawing straight into the
/// presented swapchain image.
pub fn composition_pass_desc() -> (p: PassDesc)
    ensures
        p.attachment_formats@ =~= seq![Format::B8G8R8A8Srgb],
        p.subpasses == 1,
{
    let mut formats: Vec<Format> = Vec::new();
    formats.push(Format::B8G8R8A8Srgb);
    PassDesc { attachment_formats: formats, subpasses: 1 }
}

} // verus!

//! The render targets that each pass owns, and how they follow the output size
//! and the sample count.
//!
//! A pass here holds what its GPU resources must be: the size, sample count and
//! format of each texture it owns, and how it draws. Whoever drives the GPU
//! allocates a texture for each description and reallocates it whenever the
//! description changes.
use vstd::prelude::*;

use crate::composite::CanvasShaderUniforms;

verus! {

/// The pixel formats the passes use.
#[derive(Clone, Copy, Debug, PartialEq, Eq, Structural)]
pub enum TexFormat {
    /// 32-bit float depth.
    Depth32Float,
    /// Four 16-bit float channels: the entry and exit coordinates.
    Rgba16Float,
    /// Four 8-bit sRGB channels: the transfer-function table.
    Rgba8UnormSrgb,
    /// One 16-bit float channel: the volume.
    R16Float,
    /// Whatever format the output surface negotiated.
    Surface,
}

/// What a texture must be: its size, the number of samples per pixel, and its
/// pixel format.
#[derive(Clone, Copy, Debug, PartialEq, Eq, Structural)]
pub struct TextureDesc {
    pub width: u32,
    pub height: u32,
    pub sample_count: u32,
    pub format: TexFormat,
}

impl TextureDesc {
    /// The texture has the given size.
    pub open spec fn sized(self, width: u32, height: u32) -> bool {
        self.width == width && self.height == height
    }

    /// A color texture of the given size, sample count and format, that passes
    /// render into and that shaders may read.
    pub fn create_render_buffer(
        dimensions: (u32, u32),
        sample_count: u32,
        format: TexFormat,
    ) -> (r: TextureDesc)
        requires
            sample_count >= 1,
        ensures
            r == (TextureDesc {
                width: dimensions.0,
                height: dimensions.1,
                sample_count,
                format,
            }),
    {
        TextureDesc { width: dimensions.0, height: dimensions.1, sample_count, format }
    }

    /// A depth texture of the given size and sample count, in
    /// `DEPTH_FORMAT`.
    pub fn create_depth_texture(width: u32, height: u32, sample_count: u32) -> (r: TextureDesc)
        requires
            sample_count >= 1,
        ensures
            r == (TextureDesc { width, height, sample_count, format: depth_format() }),
    {
        TextureDesc { width, height, sample_count, format: DEPTH_FORMAT }
    }
}

/// The format of every depth texture.
pub const DEPTH_FORMAT: TexFormat = TexFormat::Depth32Float;

pub open spec fn depth_format() -> TexFormat {
    DEPTH_FORMAT
}

/// Which faces of the cube a pass discards.
#[derive(Clone, Copy, Debug, PartialEq, Eq, Structural)]
pub enum CullFace {
    Front,
    Back,
}

/// Which fragment wins the depth test.
#[derive(Clone, Copy, Debug, PartialEq, Eq, Structural)]
pub enum DepthCompare {
    Less,
    Greater,
}

/// The value the depth buffer starts each frame with.
#[derive(Clone, Copy, Debug, PartialEq, Eq, Structural)]
pub enum DepthClear {
    /// Depth 0.0, the near plane.
    Near,
    /// Depth 1.0, the far plane.
    Far,
}

/// How a face pass selects its surface.
#[derive(Clone, Copy, Debug, PartialEq, Eq, Structural)]
pub struct FaceConfig {
    pub cull: CullFace,
    pub compare: DepthCompare,
    pub clear: DepthClear,
}

/// The entry pass keeps the nearest front face; the exit pass keeps the
/// farthest back face.
pub open spec fn face_config_spec(front_face: bool) -> FaceConfig {
    if front_face {
        FaceConfig { cull: CullFace::Back, compare: DepthCompare::Less, clear: DepthClear::Far }
    } else {
        FaceConfig { cull: CullFace::Front, compare: DepthCompare::Greater, clear: DepthClear::Near }
    }
}

pub fn face_config(front_face: bool) -> (r: FaceConfig)
    ensures
        r == face_config_spec(front_face),
{
    if front_face {
        FaceConfig { cull: CullFace::Back, compare: DepthCompare::Less, clear: DepthClear::Far }
    } else {
        FaceConfig { cull: CullFace::Front, compare: DepthCompare::Greater, clear: DepthClear::Near }
    }
}

/// Where a pass draws its color this frame.
#[derive(Clone, Copy, Debug, PartialEq, Eq, Structural)]
pub enum ColorTarget {
    /// Straight into the view the caller hands in.
    External,
    /// Into the pass's own multisample buffer, resolved into the caller's view
    /// at the end of the pass.
    MultisampleResolved,
}

/// Which depth buffer a pass tests against this frame.
#[derive(Clone, Copy, Debug, PartialEq, Eq, Structural)]
pub enum DepthTarget {
    External,
    Own,
}

/// A pass that owns render targets sized to the output.
pub trait RenderPass: Sized {
    /// The pass's state is consistent.
    spec fn wf(&self) -> bool;

    /// Every texture the pass owns.
    spec fn owned_targets(&self) -> Seq<TextureDesc>;

    /// The pass's state after a resize to `width` by `height`.
    spec fn resized(&self, width: u32, height: u32) -> Self;

    /// The pass draws into a multisample buffer of its own.
    spec fn multisampled(&self) -> bool;

    /// Reallocates what the pass owns for the new output size, keeping sample
    /// count and formats.
    fn resize(&mut self, width: u32, height: u32)
        requires
            old(self).wf(),
        ensures
            final(self).wf(),
            *final(self) == old(self).resized(width, height),
    ;

    /// Where the pass draws its color this frame: into its multisample buffer
    /// exactly when it has one.
    fn color_target(&self) -> (r: ColorTarget)
        requires
            self.wf(),
        ensures
            r == (if self.multisampled() {
                ColorTarget::MultisampleResolved
            } else {
                ColorTarget::External
            }),
    ;
}

/// The pass that rasterises the cube and writes, for each covered pixel, the
/// volume-space coordinate of its nearest (entry) or farthest (exit) surface.
pub struct D3Pass {
    pub config: FaceConfig,
    pub depth_texture: TextureDesc,
    pub multisample_buffer: Option<TextureDesc>,
    pub sample_count: u32,
}

impl D3Pass {
    /// Sets up the entry pass (`render_front_face`) or the exit pass for a
    /// `render_width` by `render_height` output of the given color format.
    pub fn new(
        render_width: u32,
        render_height: u32,
        target_format: TexFormat,
        render_front_face: bool,
        sample_count: u32,
    ) -> (r: D3Pass)
        requires
            sample_count >= 1,
        ensures
            r.wf(),
            r.config == face_config_spec(render_front_face),
            r.sample_count == sample_count,
            r.depth_texture == (TextureDesc {
                width: render_width,
                height: render_height,
                sample_count,
                format: depth_format(),
            }),
            sample_count > 1 ==> r.multisample_buffer == Some(
                TextureDesc {
                    width: render_width,
                    height: render_height,
                    sample_count,
                    format: target_format,
                },
            ),
            sample_count == 1 ==> r.multisample_buffer.is_none(),
    {
        let multisample_buffer = if sample_count > 1 {
            Some(TextureDesc::create_render_buffer((render_width, render_height), sample_count, target_format))
        } else {
            None
        };
        D3Pass {
            config: face_config(render_front_face),
            depth_texture: TextureDesc::create_depth_texture(render_width, render_height, sample_count),
            multisample_buffer,
            sample_count,
        }
    }

    /// Which depth buffer the pass tests against: the caller's when one is
    /// handed in, else its own.
    pub fn depth_target(&self, external_depth: bool) -> (r: DepthTarget)
        ensures
            r == (if external_depth { DepthTarget::External } else { DepthTarget::Own }),
    {
        if external_depth {
            DepthTarget::External
        } else {
            DepthTarget::Own
        }
    }
}

impl RenderPass for D3Pass {
    open spec fn wf(&self) -> bool {
        &&& self.sample_count >= 1
        &&& self.depth_texture.sample_count == self.sample_count
        &&& self.depth_texture.format == depth_format()
        &&& (self.sample_count > 1 <==> self.multisample_buffer.is_some())
        &&& self.multisample_buffer matches Some(m) ==> m.sample_count == self.sample_count
            && m.sized(self.depth_texture.width, self.depth_texture.height)
    }

    open spec fn multisampled(&self) -> bool {
        self.multisample_buffer.is_some()
    }

    open spec fn owned_targets(&self) -> Seq<TextureDesc> {
        match self.multisample_buffer {
            Some(m) => seq![self.depth_texture, m],
            None => seq![self.depth_texture],
        }
    }

    open spec fn resized(&self, width: u32, height: u32) -> D3Pass {
        D3Pass {
            depth_texture: TextureDesc { width, height, ..self.depth_texture },
            multisample_buffer: match self.multisample_buffer {
                Some(m) => Some(TextureDesc { width, height, ..m }),
                None => None,
            },
            ..*self
        }
    }

    fn resize(&mut self, width: u32, height: u32) {
        self.depth_texture = TextureDesc::create_depth_texture(width, height, self.sample_count);
        self.multisample_buffer = match self.multisample_buffer {
            None => None,
            Some(old_buffer) => Some(
                TextureDesc::create_render_buffer((width, height), self.sample_count, old_buffer.format),
            ),
        };
    }

    fn color_target(&self) -> (r: ColorTarget) {
        match self.multisample_buffer {
            None => ColorTarget::External,
            Some(_) => ColorTarget::MultisampleResolved,
        }
    }
}

/// The pass that draws a full-screen quad and, for each pixel, marches the
/// ray between the entry and exit textures through the volume.
pub struct CanvasPass {
    pub uniforms: CanvasShaderUniforms,
    pub sample_count: u32,
    pub multisample_buffer: Option<TextureDesc>,
    /// The entry texture the pass reads.
    pub front_face_texture: TextureDesc,
    /// The exit texture the pass reads.
    pub back_face_texture: TextureDesc,
}

impl CanvasPass {
    /// Sets up the pass over the given entry and exit textures, for an output
    /// of `resolution` in the surface's format, with the default uniforms.
    pub fn new(
        front_face_render_buffer: TextureDesc,
        back_face_render_buffer: TextureDesc,
        resolution: (u32, u32),
        sample_count: u32,
    ) -> (r: CanvasPass)
        requires
            sample_count >= 1,
        ensures
            r.wf(),
            r.uniforms == crate::composite::default_uniforms(),
            r.sample_count == sample_count,
            r.front_face_texture == front_face_render_buffer,
            r.back_face_texture == back_face_render_buffer,
            sample_count > 1 ==> r.multisample_buffer == Some(
                TextureDesc {
                    width: resolution.0,
                    height: resolution.1,
                    sample_count,
                    format: TexFormat::Surface,
                },
            ),
            sample_count == 1 ==> r.multisample_buffer.is_none(),
    {
        let multisample_buffer = if sample_count > 1 {
            Some(TextureDesc::create_render_buffer(resolution, sample_count, TexFormat::Surface))
        } else {
            None
        };
        CanvasPass {
            uniforms: CanvasShaderUniforms::default(),
            sample_count,
            multisample_buffer,
            front_face_texture: front_face_render_buffer,
            back_face_texture: back_face_render_buffer,
        }
    }

    /// Points the pass at new entry and exit textures, as after they were
    /// reallocated; nothing else changes.
    pub fn change_bound_face_textures(
        &mut self,
        front_face_texture: TextureDesc,
        back_face_texture: TextureDesc,
    )
        ensures
            *final(self) == (CanvasPass {
                front_face_texture,
                back_face_texture,
                ..*old(self)
            }),
    {
        self.front_face_texture = front_face_texture;
        self.back_face_texture = back_face_texture;
    }

    /// Replaces the march and shading parameters; nothing else changes.
    pub fn set_uniforms(&mut self, uniforms: &CanvasShaderUniforms)
        ensures
            *final(self) == (CanvasPass { uniforms: *uniforms, ..*old(self) }),
    {
        self.uniforms = *uniforms;
    }
}

impl RenderPass for CanvasPass {
    open spec fn wf(&self) -> bool {
        &&& self.sample_count >= 1
        &&& (self.sample_count > 1 <==> self.multisample_buffer.is_some())
        &&& self.multisample_buffer matches Some(m) ==> m.sample_count == self.sample_count
            && m.format == TexFormat::Surface
    }

    /// The multisample buffer, if any: the entry and exit textures belong to
    /// whoever hands them in.
    open spec fn multisampled(&self) -> bool {
        self.multisample_buffer.is_some()
    }

    open spec fn owned_targets(&self) -> Seq<TextureDesc> {
        match self.multisample_buffer {
            Some(m) => seq![m],
            None => seq![],
        }
    }

    open spec fn resized(&self, width: u32, height: u32) -> CanvasPass {
        CanvasPass {
            multisample_buffer: match self.multisample_buffer {
                Some(m) => Some(TextureDesc { width, height, ..m }),
                None => None,
            },
            ..*self
        }
    }

    fn resize(&mut self, width: u32, height: u32) {
        self.multisample_buffer = match self.multisample_buffer {
            None => None,
            Some(old_buffer) => Some(
                TextureDesc::create_render_buffer((width, height), self.sample_count, old_buffer.format),
            ),
        };
    }

    fn color_target(&self) -> (r: ColorTarget) {
        match self.multisample_buffer {
            None => ColorTarget::External,
            Some(_) => ColorTarget::MultisampleResolved,
        }
    }
}

/// The face textures are single-sampled: they are what the face passes
/// resolve into.
pub const FACE_RENDER_BUFFER_SAMPLE_COUNT: u32 = 1;

/// The passes of one renderer and the textures between them: the entry pass
/// and its output, the exit pass and its output, and the composite pass that
/// reads both.
pub struct PassSet {
    pub front_face_pass: D3Pass,
    pub front_face_render_buffer: TextureDesc,
    pub back_face_pass: D3Pass,
    pub back_face_render_buffer: TextureDesc,
    pub canvas_pass: CanvasPass,
}

impl PassSet {
    /// The passes are consistent, and the composite pass reads exactly the
    /// textures the face passes write.
    pub open spec fn wf(&self) -> bool {
        &&& self.front_face_pass.wf()
        &&& self.back_face_pass.wf()
        &&& self.canvas_pass.wf()
        &&& self.front_face_pass.config == face_config_spec(true)
        &&& self.back_face_pass.config == face_config_spec(false)
        &&& self.canvas_pass.front_face_texture == self.front_face_render_buffer
        &&& self.canvas_pass.back_face_texture == self.back_face_render_buffer
        &&& self.front_face_render_buffer.sample_count == FACE_RENDER_BUFFER_SAMPLE_COUNT
        &&& self.back_face_render_buffer.sample_count == FACE_RENDER_BUFFER_SAMPLE_COUNT
    }

    /// Every texture sized to the output: those each pass owns, and the
    /// entry and exit textures.
    pub open spec fn all_targets(&self) -> Seq<TextureDesc> {
        self.front_face_pass.owned_targets() + self.back_face_pass.owned_targets()
            + self.canvas_pass.owned_targets() + seq![
            self.front_face_render_buffer,
            self.back_face_render_buffer,
        ]
    }

    /// The passes after a resize to `width` by `height`.
    pub open spec fn resized(&self, width: u32, height: u32) -> PassSet {
        let front = TextureDesc { width, height, ..self.front_face_render_buffer };
        let back = TextureDesc { width, height, ..self.back_face_render_buffer };
        PassSet {
            front_face_pass: self.front_face_pass.resized(width, height),
            front_face_render_buffer: front,
            back_face_pass: self.back_face_pass.resized(width, height),
            back_face_render_buffer: back,
            canvas_pass: CanvasPass {
                front_face_texture: front,
                back_face_texture: back,
                ..self.canvas_pass.resized(width, height)
            },
        }
    }

    /// Sets up the three passes for a `width` by `height` output, drawing
    /// with `sample_count` samples per pixel.
    pub fn new(width: u32, height: u32, sample_count: u32) -> (r: PassSet)
        requires
            sample_count >= 1,
        ensures
            r.wf(),
            forall|i: int| 0 <= i < r.all_targets().len() ==> (#[trigger] r.all_targets()[i]).sized(width, height),
            r.front_face_render_buffer == (TextureDesc {
                width,
                height,
                sample_count: FACE_RENDER_BUFFER_SAMPLE_COUNT,
                format: TexFormat::Rgba16Float,
            }),
            r.back_face_render_buffer == r.front_face_render_buffer,
            r.front_face_pass.sample_count == sample_count,
            r.back_face_pass.sample_count == sample_count,
            r.canvas_pass.sample_count == sample_count,
            r.canvas_pass.uniforms == crate::composite::default_uniforms(),
    {
        let face_format = TexFormat::Rgba16Float;
        let front_face_render_buffer = TextureDesc::create_render_buffer(
            (width, height),
            FACE_RENDER_BUFFER_SAMPLE_COUNT,
            face_format,
        );
        let front_face_pass = D3Pass::new(width, height, face_format, true, sample_count);
        let back_face_render_buffer = TextureDesc::create_render_buffer(
            (width, height),
            FACE_RENDER_BUFFER_SAMPLE_COUNT,
            face_format,
        );
        let back_face_pass = D3Pass::new(width, height, face_format, false, sample_count);
        let canvas_pass = CanvasPass::new(
            front_face_render_buffer,
            back_face_render_buffer,
            (width, height),
            sample_count,
        );
        let r = PassSet {
            front_face_pass,
            front_face_render_buffer,
            back_face_pass,
            back_face_render_buffer,
            canvas_pass,
        };
        assert forall|i: int| 0 <= i < r.all_targets().len() implies (#[trigger] r.all_targets()[i]).sized(width, height) by {
            lemma_concat_sized(r.front_face_pass.owned_targets(), r.back_face_pass.owned_targets(), width, height);
            lemma_concat_sized(
                r.front_face_pass.owned_targets() + r.back_face_pass.owned_targets(),
                r.canvas_pass.owned_targets(),
                width,
                height,
            );
            lemma_concat_sized(
                r.front_face_pass.owned_targets() + r.back_face_pass.owned_targets() + r.canvas_pass.owned_targets(),
                seq![r.front_face_render_buffer, r.back_face_render_buffer],
                width,
                height,
            );
        }
        r
    }

    /// Follows a change of output size: every pass reallocates what it owns,
    /// the entry and exit textures are reallocated, and the composite pass is
    /// pointed at the new ones.
    pub fn resize(&mut self, width: u32, height: u32)
        requires
            old(self).wf(),
        ensures
            final(self).wf(),
            *final(self) == old(self).resized(width, height),
    {
        self.front_face_pass.resize(width, height);
        self.back_face_pass.resize(width, height);
        self.canvas_pass.resize(width, height);
        self.front_face_render_buffer = TextureDesc::create_render_buffer(
            (width, height),
            FACE_RENDER_BUFFER_SAMPLE_COUNT,
            self.front_face_render_buffer.format,
        );
        self.back_face_render_buffer = TextureDesc::create_render_buffer(
            (width, height),
            FACE_RENDER_BUFFER_SAMPLE_COUNT,
            self.back_face_render_buffer.format,
        );
        self.canvas_pass.change_bound_face_textures(self.front_face_render_buffer, self.back_face_render_buffer);
    }
}

/// Two sequences of textures of one size join into one of that size.
proof fn lemma_concat_sized(a: Seq<TextureDesc>, b: Seq<TextureDesc>, width: u32, height: u32)
    requires
        forall|i: int| 0 <= i < a.len() ==> (#[trigger] a[i]).sized(width, height),
        forall|i: int| 0 <= i < b.len() ==> (#[trigger] b[i]).sized(width, height),
    ensures
        forall|i: int| 0 <= i < (a + b).len() ==> (#[trigger] (a + b)[i]).sized(width, height),
{
    assert forall|i: int| 0 <= i < (a + b).len() implies (#[trigger] (a + b)[i]).sized(width, height) by {
        if i < a.len() {
            assert((a + b)[i] == a[i]);
        } else {
            assert((a + b)[i] == b[i - a.len()]);
        }
    }
}

/// After a resize to `width` by `height`, every render target of every pass,
/// and the entry and exit textures, is exactly `width` by `height`; the
/// composite pass still reads what the face passes write.
pub proof fn lemma_resize_sizes_every_target(s: PassSet, width: u32, height: u32)
    requires
        s.wf(),
        width > 0,
        height > 0,
    ensures
        s.resized(width, height).wf(),
        forall|i: int|
            0 <= i < s.resized(width, height).all_targets().len() ==> (#[trigger] s.resized(
                width,
                height,
            ).all_targets()[i]).sized(width, height),
{
    let r = s.resized(width, height);
    lemma_concat_sized(r.front_face_pass.owned_targets(), r.back_face_pass.owned_targets(), width, height);
    lemma_concat_sized(
        r.front_face_pass.owned_targets() + r.back_face_pass.owned_targets(),
        r.canvas_pass.owned_targets(),
        width,
        height,
    );
    lemma_concat_sized(
        r.front_face_pass.owned_targets() + r.back_face_pass.owned_targets() + r.canvas_pass.owned_targets(),
        seq![r.front_face_render_buffer, r.back_face_render_buffer],
        width,
        height,
    );
}

/// Resizing is idempotent: resizing again to the same size asks for exactly
/// the same targets.
pub proof fn lemma_resize_idempotent(s: PassSet, width: u32, height: u32)
    requires
        s.wf(),
    ensures
        s.resized(width, height).resized(width, height) == s.resized(width, height),
{
}

} // verus!

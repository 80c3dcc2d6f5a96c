use vstd::prelude::*;
use crate::error::{GameError, GameResult};
use crate::filter::{DirtyFlag, FilterMode};
use crate::geometry::{
    image_bindings, spec_image_bindings, BindingsDesc, BufferData, INSTANCE_BUFFER,
    QUAD_INDEX_COUNT,
};
use crate::layout::uniform_block_size;
use crate::pixels::{spec_decode, Pixels, PixelsView};
use crate::registry::{lemma_sprite_sizes, spec_pipeline, PipelineKind};

verus! {

/// The size in bytes of the uniform block that a draw applies: the
/// projection matrix and nothing else.
pub const PROJECTION_BLOCK_SIZE: usize = 64;

/// One step of a draw, for the device to carry out.
#[derive(Clone, Copy, Debug, PartialEq, Eq, Structural)]
pub enum DrawCommand {
    /// Set the filter of the drawable's texture.
    SetFilter(FilterMode),
    /// Overwrite the given vertex buffer with this many instance records.
    UpdateInstances { buffer: usize, count: usize },
    /// Begin a render pass on the current framebuffer, clearing it or not.
    BeginPass { clear: bool },
    /// Bind a pipeline of the registry.
    ApplyPipeline(PipelineKind),
    /// Bind the drawable's buffers and textures.
    ApplyBindings,
    /// Apply a uniform block that holds the context's projection matrix only.
    ApplyProjection,
    /// Draw indexed triangles.
    Draw { base_element: i32, num_elements: i32, num_instances: i32 },
    /// End the render pass.
    EndPass,
}

/// A rectangle in whole pixels.
#[derive(Clone, Copy, Debug, PartialEq, Eq, Structural)]
pub struct PixelRect {
    pub x: u16,
    pub y: u16,
    pub w: u16,
    pub h: u16,
}

/// A texture that can be drawn: its size, the filter asked for, whether that
/// filter still has to reach the device, and the pipeline it is drawn with.
#[derive(Clone, Copy, Debug)]
pub struct Image {
    width: u16,
    height: u16,
    filter: FilterMode,
    pipeline: PipelineKind,
    dirty_filter: DirtyFlag,
}

/// An image as a mathematical value.
pub struct ImageView {
    pub width: u16,
    pub height: u16,
    pub filter: FilterMode,
    pub pipeline: PipelineKind,
    /// The filter was changed since the device last took it.
    pub dirty: bool,
}

impl ImageView {
    /// A new image over a texture of the given size: linear filter, nothing
    /// to apply, drawn with the sprite pipeline.
    pub open spec fn fresh(width: u16, height: u16) -> ImageView {
        ImageView {
            width,
            height,
            filter: FilterMode::Linear,
            pipeline: PipelineKind::Sprite,
            dirty: false,
        }
    }

    /// What the image binds for a draw: the shared quad and room for one
    /// instance as vertex buffers, the quad's indices, and one texture, its
    /// own.
    pub open spec fn bindings(self) -> (Seq<BufferData>, BufferData, nat) {
        spec_image_bindings()
    }

    /// The image after `set_filter`.
    pub open spec fn with_filter(self, filter: FilterMode) -> ImageView {
        ImageView { filter, dirty: true, ..self }
    }

    /// The image after a draw.
    pub open spec fn drawn(self) -> ImageView {
        ImageView { dirty: false, ..self }
    }

    /// The commands of a draw that follow the filter: one instance uploaded,
    /// a pass that keeps what the framebuffer holds, pipeline, bindings and
    /// projection bound, the quad's indices drawn once.
    pub open spec fn pass_commands(self) -> Seq<DrawCommand> {
        seq![
            DrawCommand::UpdateInstances { buffer: INSTANCE_BUFFER, count: 1 },
            DrawCommand::BeginPass { clear: false },
            DrawCommand::ApplyPipeline(self.pipeline),
            DrawCommand::ApplyBindings,
            DrawCommand::ApplyProjection,
            DrawCommand::Draw { base_element: 0, num_elements: 6, num_instances: 1 },
            DrawCommand::EndPass,
        ]
    }

    /// The commands of a draw: the filter first where it has changed, then
    /// the pass.
    pub open spec fn draw_commands(self) -> Seq<DrawCommand> {
        if self.dirty {
            seq![DrawCommand::SetFilter(self.filter)] + self.pass_commands()
        } else {
            self.pass_commands()
        }
    }
}

/// The commands of a list that set a filter, in order.
pub open spec fn filter_commands(commands: Seq<DrawCommand>) -> Seq<DrawCommand> {
    commands.filter(|c: DrawCommand| c is SetFilter)
}

impl Image {
    #[verifier::type_invariant]
    spec fn inv(&self) -> bool {
        self.pipeline == PipelineKind::Sprite
    }
}

impl View for Image {
    type V = ImageView;

    closed spec fn view(&self) -> ImageView {
        ImageView {
            width: self.width,
            height: self.height,
            filter: self.filter,
            pipeline: self.pipeline,
            dirty: self.dirty_filter@,
        }
    }
}

/// What decoding a byte stream gives: the image and its pixels, or the
/// decoder's failure.
pub open spec fn spec_from_png_bytes(bytes: Seq<u8>) -> GameResult<(ImageView, PixelsView)> {
    match spec_decode(bytes) {
        Ok(pixels) => Ok((ImageView::fresh(pixels.width, pixels.height), pixels)),
        Err(e) => Err(e),
    }
}

impl Image {
    /// Decodes an encoded image. Gives the image and the pixels to make its
    /// texture from.
    pub fn from_png_bytes(bytes: &[u8]) -> (r: GameResult<(Image, Pixels)>)
        ensures
            match r {
                Ok((image, pixels)) => {
                    &&& spec_from_png_bytes(bytes@) == Ok::<_, GameError>((image@, pixels@))
                    &&& pixels@.well_formed()
                },
                Err(e) => spec_from_png_bytes(bytes@) == Err::<(ImageView, PixelsView), _>(e),
            },
    {
        match Pixels::decode(bytes) {
            Ok(pixels) => {
                let image = Image::with_size(pixels.width(), pixels.height());
                Ok((image, pixels))
            },
            Err(e) => Err(e),
        }
    }

    /// An image over raw RGBA8 pixels, four bytes for each pixel.
    pub fn from_rgba8(width: u16, height: u16, bytes: &[u8]) -> (r: GameResult<Image>)
        requires
            bytes@.len() == 4 * width * height,
        ensures
            r matches Ok(image) && image@ == ImageView::fresh(width, height),
    {
        Ok(Image::with_size(width, height))
    }

    /// An image over a texture that exists already. A texture with a side
    /// longer than 65535 is refused.
    pub fn from_texture(texture_width: u32, texture_height: u32) -> (r: GameResult<Image>)
        ensures
            match r {
                Ok(image) => {
                    &&& texture_width <= u16::MAX
                    &&& texture_height <= u16::MAX
                    &&& image@ == ImageView::fresh(texture_width as u16, texture_height as u16)
                },
                Err(e) => {
                    &&& e == GameError::ImageTooLarge
                    &&& (texture_width > u16::MAX || texture_height > u16::MAX)
                },
            },
    {
        if texture_width > 0xffff || texture_height > 0xffff {
            return Err(GameError::ImageTooLarge);
        }
        Ok(Image::with_size(texture_width as u16, texture_height as u16))
    }

    fn with_size(width: u16, height: u16) -> (image: Image)
        ensures
            image@ == ImageView::fresh(width, height),
    {
        Image {
            width,
            height,
            filter: FilterMode::Linear,
            pipeline: PipelineKind::Sprite,
            dirty_filter: DirtyFlag::new(false),
        }
    }

    pub fn width(&self) -> (w: u16)
        ensures
            w == self@.width,
    {
        self.width
    }

    pub fn height(&self) -> (h: u16)
        ensures
            h == self@.height,
    {
        self.height
    }

    /// The rectangle that the image covers when it is drawn at the origin
    /// without scaling.
    pub fn dimensions(&self) -> (r: PixelRect)
        ensures
            r == (PixelRect { x: 0, y: 0, w: self@.width, h: self@.height }),
    {
        PixelRect { x: 0, y: 0, w: self.width, h: self.height }
    }

    /// Asks for a filter. The device takes it at the next draw.
    pub fn set_filter(&mut self, filter: FilterMode)
        ensures
            final(self)@ == old(self)@.with_filter(filter),
    {
        proof {
            use_type_invariant(&*self);
        }
        self.dirty_filter.store(true);
        self.filter = filter;
    }

    pub fn filter(&self) -> (f: FilterMode)
        ensures
            f == self@.filter,
    {
        self.filter
    }

    /// The pipeline that the image is drawn with: always the one that reads
    /// instances.
    pub fn pipeline(&self) -> (kind: PipelineKind)
        ensures
            kind == self@.pipeline,
            kind == PipelineKind::Sprite,
    {
        proof {
            use_type_invariant(self);
        }
        self.pipeline
    }

    /// The buffers and textures that the image binds for a draw. They are
    /// made once, with the image.
    pub fn bindings(&self) -> (b: BindingsDesc)
        ensures
            (b.vertex_buffers@, b.index_buffer, b.images as nat) == self@.bindings(),
    {
        image_bindings()
    }

    /// Plans one draw of the image: the commands for the device, in order.
    /// A changed filter is handed over once, here, and is clean afterwards.
    pub fn draw(&mut self) -> (commands: Vec<DrawCommand>)
        ensures
            commands@ == old(self)@.draw_commands(),
            final(self)@ == old(self)@.drawn(),
    {
        proof {
            use_type_invariant(&*self);
        }
        let mut commands: Vec<DrawCommand> = Vec::new();
        if self.dirty_filter.load() {
            self.dirty_filter.store(false);
            commands.push(DrawCommand::SetFilter(self.filter));
        }
        commands.push(DrawCommand::UpdateInstances { buffer: INSTANCE_BUFFER, count: 1 });
        commands.push(DrawCommand::BeginPass { clear: false });
        commands.push(DrawCommand::ApplyPipeline(self.pipeline));
        commands.push(DrawCommand::ApplyBindings);
        commands.push(DrawCommand::ApplyProjection);
        commands.push(DrawCommand::Draw { base_element: 0, num_elements: 6, num_instances: 1 });
        commands.push(DrawCommand::EndPass);
        assert(commands@ =~= old(self)@.draw_commands());
        commands
    }
}

/// The pass of a draw holds no filter command.
pub proof fn lemma_pass_sets_no_filter(image: ImageView)
    ensures
        filter_commands(image.pass_commands()) == Seq::<DrawCommand>::empty(),
{
    let p = |c: DrawCommand| c is SetFilter;
    let s = image.pass_commands();
    let e = Seq::<DrawCommand>::empty();
    reveal(Seq::filter);
    assert(s =~= e.push(s[0]).push(s[1]).push(s[2]).push(s[3]).push(s[4]).push(s[5]).push(s[6]));
    assert(e.push(s[0]).drop_last() =~= e);
    assert(e.push(s[0]).push(s[1]).drop_last() =~= e.push(s[0]));
    assert(e.push(s[0]).push(s[1]).push(s[2]).drop_last() =~= e.push(s[0]).push(s[1]));
    assert(e.push(s[0]).push(s[1]).push(s[2]).push(s[3]).drop_last() =~= e.push(s[0]).push(
        s[1],
    ).push(s[2]));
    assert(e.push(s[0]).push(s[1]).push(s[2]).push(s[3]).push(s[4]).drop_last() =~= e.push(
        s[0],
    ).push(s[1]).push(s[2]).push(s[3]));
    assert(e.push(s[0]).push(s[1]).push(s[2]).push(s[3]).push(s[4]).push(s[5]).drop_last()
        =~= e.push(s[0]).push(s[1]).push(s[2]).push(s[3]).push(s[4]));
    assert(s.drop_last() =~= e.push(s[0]).push(s[1]).push(s[2]).push(s[3]).push(s[4]).push(s[5]));
    assert(e.filter(p) =~= e);
    assert(e.push(s[0]).filter(p) =~= e);
    assert(e.push(s[0]).push(s[1]).filter(p) =~= e);
    assert(e.push(s[0]).push(s[1]).push(s[2]).filter(p) =~= e);
    assert(e.push(s[0]).push(s[1]).push(s[2]).push(s[3]).filter(p) =~= e);
    assert(e.push(s[0]).push(s[1]).push(s[2]).push(s[3]).push(s[4]).filter(p) =~= e);
    assert(e.push(s[0]).push(s[1]).push(s[2]).push(s[3]).push(s[4]).push(s[5]).filter(p) =~= e);
    assert(s.filter(p) =~= e);
}

/// A draw hands the filter to the device exactly when it has changed since
/// the last draw, and then it hands over the filter asked for last.
pub proof fn lemma_draw_filter_commands(image: ImageView)
    ensures
        filter_commands(image.draw_commands()) == if image.dirty {
            seq![DrawCommand::SetFilter(image.filter)]
        } else {
            Seq::<DrawCommand>::empty()
        },
{
    lemma_pass_sets_no_filter(image);
    if image.dirty {
        let p = |c: DrawCommand| c is SetFilter;
        let head = seq![DrawCommand::SetFilter(image.filter)];
        Seq::filter_distributes_over_add(head, image.pass_commands(), p);
        reveal(Seq::filter);
        assert(head.drop_last() =~= Seq::<DrawCommand>::empty());
        assert(Seq::<DrawCommand>::empty().filter(p) =~= Seq::<DrawCommand>::empty());
        assert(head.filter(p) =~= head);
        assert(head + Seq::<DrawCommand>::empty() =~= head);
    }
}

/// Changing the filter twice before a draw reaches the device once, with the
/// second filter; the draw after that one does not touch the filter at all.
pub proof fn lemma_filter_applied_once(image: ImageView, first: FilterMode, second: FilterMode)
    ensures
        filter_commands(image.with_filter(first).with_filter(second).draw_commands()) == seq![
            DrawCommand::SetFilter(second),
        ],
        filter_commands(image.with_filter(first).with_filter(second).drawn().draw_commands())
            == Seq::<DrawCommand>::empty(),
{
    lemma_draw_filter_commands(image.with_filter(first).with_filter(second));
    lemma_draw_filter_commands(image.with_filter(first).with_filter(second).drawn());
}

/// A draw never changes what the image is: its size, its filter and its
/// pipeline stay, and one draw's pass is the next one's.
pub proof fn lemma_draw_keeps_image(image: ImageView)
    ensures
        image.drawn().width == image.width,
        image.drawn().height == image.height,
        image.drawn().filter == image.filter,
        image.drawn().pipeline == image.pipeline,
        image.drawn().pass_commands() == image.pass_commands(),
        image.drawn().draw_commands() == image.pass_commands(),
{
}

/// What a draw of a new image binds and draws agrees with the registry: the
/// block applied has the size of the uniform block of the image's pipeline,
/// and the draw covers the indices of the quad.
pub proof fn lemma_draw_fits_pipeline(width: u16, height: u16)
    ensures
        uniform_block_size(spec_pipeline(ImageView::fresh(width, height).pipeline).uniforms)
            == PROJECTION_BLOCK_SIZE,
        ImageView::fresh(width, height).pass_commands()[5] == (DrawCommand::Draw {
            base_element: 0,
            num_elements: QUAD_INDEX_COUNT as i32,
            num_instances: 1,
        }),
{
    lemma_sprite_sizes();
}

} // verus!

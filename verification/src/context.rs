use vstd::prelude::*;
use crate::error::{GameError, GameResult};
use crate::layout::PipelineDesc;
use crate::pixels::{Pixels, PixelsView};
use crate::registry::{spec_pipeline, PipelineKind, PipelineRegistry};

verus! {

/// The font size that text is laid out with until the caller picks another.
pub const DEFAULT_FONT_SIZE: u32 = 50;

/// The pixel size at which the built-in font is rasterized.
pub const DEFAULT_FONT_RASTER_SIZE: u32 = 70;

/// The handle of the built-in font.
pub const DEFAULT_FONT: usize = 0;

/// The state of one rendering session that is not on the device: the
/// pipelines' descriptions and the fonts loaded so far.
///
/// `F` is a rasterized font as the device holds it. The context keeps fonts
/// in the order in which they were loaded and never removes one, so a handle
/// stays good for the whole session.
pub struct GraphicsContext<F> {
    registry: PipelineRegistry,
    white_texture: Pixels,
    fonts_cache: Vec<F>,
    font_size: u32,
}

/// What loading does to the fonts of a context and what it returns: a font
/// that could be rasterized is appended and its index returned; one that
/// could not leaves the fonts as they are and is reported.
pub open spec fn spec_load_font<F>(fonts: Seq<F>, rasterized: Option<F>) -> (
    Seq<F>,
    GameResult<usize>,
) {
    match rasterized {
        Some(font) => (fonts.push(font), Ok(fonts.len() as usize)),
        None => (fonts, Err(GameError::FontError)),
    }
}

impl<F> GraphicsContext<F> {
    /// The fonts of the context, by handle.
    pub closed spec fn fonts(&self) -> Seq<F> {
        self.fonts_cache@
    }

    pub closed spec fn spec_font_size(&self) -> u32 {
        self.font_size
    }

    pub closed spec fn spec_registry(&self) -> PipelineRegistry {
        self.registry
    }

    /// The pixels of the default texture.
    pub closed spec fn spec_white_texture(&self) -> PixelsView {
        self.white_texture@
    }

    /// The built-in font is there.
    pub open spec fn well_formed(&self) -> bool {
        self.fonts().len() >= 1
    }

    /// A context whose only font is the built-in one and whose default
    /// texture is one opaque white pixel.
    pub fn new(default_font: F) -> (context: Self)
        ensures
            context.well_formed(),
            context.fonts() == seq![default_font],
            context.spec_font_size() == DEFAULT_FONT_SIZE,
            context.spec_white_texture() == (PixelsView {
                width: 1,
                height: 1,
                data: seq![255u8, 255u8, 255u8, 255u8],
            }),
    {
        let mut fonts_cache: Vec<F> = Vec::new();
        fonts_cache.push(default_font);
        let context = GraphicsContext {
            registry: PipelineRegistry::new(),
            white_texture: Pixels::white(),
            fonts_cache,
            font_size: DEFAULT_FONT_SIZE,
        };
        assert(context.fonts() =~= seq![default_font]);
        context
    }

    /// Takes in the outcome of rasterizing a font: `None` where the font
    /// data was malformed. Returns the handle of the new font.
    pub fn load_font(&mut self, rasterized: Option<F>) -> (r: GameResult<usize>)
        ensures
            (final(self).fonts(), r) == spec_load_font(old(self).fonts(), rasterized),
            final(self).spec_font_size() == old(self).spec_font_size(),
            final(self).spec_registry() == old(self).spec_registry(),
            final(self).spec_white_texture() == old(self).spec_white_texture(),
            old(self).well_formed() ==> final(self).well_formed(),
    {
        match rasterized {
            Some(font) => {
                self.fonts_cache.push(font);
                Ok(self.fonts_cache.len() - 1)
            },
            None => Err(GameError::FontError),
        }
    }

    /// The font behind a handle, if the handle was ever given out.
    pub fn font(&self, handle: usize) -> (r: Option<&F>)
        ensures
            match r {
                Some(font) => handle < self.fonts().len() && *font == self.fonts()[handle as int],
                None => handle >= self.fonts().len(),
            },
    {
        if handle < self.fonts_cache.len() {
            Some(&self.fonts_cache[handle])
        } else {
            None
        }
    }

    /// The number of fonts loaded, the built-in one included.
    pub fn font_count(&self) -> (n: usize)
        ensures
            n == self.fonts().len(),
    {
        self.fonts_cache.len()
    }

    /// The pixels of the default texture, for whatever is drawn without one
    /// of its own.
    pub fn white_texture(&self) -> (pixels: &Pixels)
        ensures
            pixels@ == self.spec_white_texture(),
    {
        &self.white_texture
    }

    pub fn font_size(&self) -> (size: u32)
        ensures
            size == self.spec_font_size(),
    {
        self.font_size
    }

    /// The description of one of the context's pipelines.
    pub fn pipeline(&self, kind: PipelineKind) -> (d: &PipelineDesc)
        ensures
            d@ == spec_pipeline(kind),
    {
        self.registry.get(kind)
    }
}

/// Fonts are only ever appended. After two loads the first font has the
/// handle that was the number of fonts before, the second the next one, also
/// where both are the same font; and every handle given out before still
/// names the font it named.
pub proof fn lemma_fonts_append_only<F>(fonts: Seq<F>, first: F, second: F)
    ensures
        ({
            let (one, first_handle) = spec_load_font(fonts, Some(first));
            let (two, second_handle) = spec_load_font(one, Some(second));
            &&& fonts.len() < usize::MAX ==> first_handle == Ok::<usize, GameError>(
                fonts.len() as usize,
            ) && second_handle == Ok::<usize, GameError>((fonts.len() + 1) as usize)
            &&& two.len() == fonts.len() + 2
            &&& two[fonts.len() as int] == first
            &&& two[fonts.len() as int + 1] == second
            &&& forall|handle: int| 0 <= handle < fonts.len() ==> two[handle] == fonts[handle]
        }),
{
}

/// A font that cannot be rasterized changes nothing.
pub proof fn lemma_failed_load_keeps_fonts<F>(fonts: Seq<F>)
    ensures
        spec_load_font(fonts, None::<F>) == (fonts, Err::<usize, GameError>(GameError::FontError)),
{
}

} // verus!

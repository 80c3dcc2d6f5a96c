use render_core::error::GameError;
use render_core::filter::{DirtyFlag, FilterMode};
use render_core::geometry::BufferData;
use render_core::image::{DrawCommand, Image, PixelRect};
use render_core::pixels::Pixels;
use render_core::registry::PipelineKind;

const RED_2X2_PNG: [u8; 74] = [
    137, 80, 78, 71, 13, 10, 26, 10, 0, 0, 0, 13, 73, 72, 68, 82, 0, 0, 0, 2, 0, 0, 0, 2, 8, 6, 0,
    0, 0, 114, 182, 13, 36, 0, 0, 0, 17, 73, 68, 65, 84, 120, 156, 99, 248, 207, 192, 240, 31, 132,
    25, 96, 12, 0, 71, 202, 7, 249, 103, 89, 110, 183, 0, 0, 0, 0, 73, 69, 78, 68, 174, 66, 96,
    130,
];

const RGB_3X1_PNG: [u8; 75] = [
    137, 80, 78, 71, 13, 10, 26, 10, 0, 0, 0, 13, 73, 72, 68, 82, 0, 0, 0, 3, 0, 0, 0, 1, 8, 2, 0,
    0, 0, 148, 130, 131, 227, 0, 0, 0, 18, 73, 68, 65, 84, 120, 156, 99, 96, 100, 98, 102, 97, 101,
    99, 231, 224, 4, 0, 0, 175, 0, 46, 153, 255, 230, 162, 0, 0, 0, 0, 73, 69, 78, 68, 174, 66, 96,
    130,
];

fn pass(pipeline: PipelineKind) -> Vec<DrawCommand> {
    vec![
        DrawCommand::UpdateInstances { buffer: 1, count: 1 },
        DrawCommand::BeginPass { clear: false },
        DrawCommand::ApplyPipeline(pipeline),
        DrawCommand::ApplyBindings,
        DrawCommand::ApplyProjection,
        DrawCommand::Draw { base_element: 0, num_elements: 6, num_instances: 1 },
        DrawCommand::EndPass,
    ]
}

#[test]
fn dirty_flag_holds_what_was_stored() {
    let mut flag = DirtyFlag::new(false);
    assert!(!flag.load());
    flag.store(true);
    assert!(flag.load());
    flag.store(true);
    assert!(flag.load());
    flag.store(false);
    assert!(!flag.load());
    assert!(DirtyFlag::new(true).load());
}

#[test]
fn dirty_flag_copy_is_independent() {
    let mut flag = DirtyFlag::new(true);
    let copy = flag.clone();
    flag.store(false);
    assert!(copy.load());
    assert!(!flag.load());
}

#[test]
fn new_image_is_linear_and_uses_the_sprite_pipeline() {
    let red = [255u8, 0, 0, 255, 255, 0, 0, 255, 255, 0, 0, 255, 255, 0, 0, 255];
    let image = Image::from_rgba8(2, 2, &red).unwrap();
    assert_eq!(image.width(), 2);
    assert_eq!(image.height(), 2);
    assert_eq!(image.filter(), FilterMode::Linear);
    assert_eq!(image.pipeline(), PipelineKind::Sprite);
    assert_eq!(image.dimensions(), PixelRect { x: 0, y: 0, w: 2, h: 2 });
}

#[test]
fn empty_image_is_legal() {
    let image = Image::from_rgba8(0, 7, &[]).unwrap();
    assert_eq!(image.dimensions(), PixelRect { x: 0, y: 0, w: 0, h: 7 });
}

#[test]
fn from_texture_keeps_sides_that_fit() {
    let image = Image::from_texture(640, 480).unwrap();
    assert_eq!((image.width(), image.height()), (640, 480));
    let image = Image::from_texture(65535, 0).unwrap();
    assert_eq!((image.width(), image.height()), (65535, 0));
}

#[test]
fn from_texture_refuses_sides_that_do_not_fit() {
    assert_eq!(Image::from_texture(65536, 1).err(), Some(GameError::ImageTooLarge));
    assert_eq!(Image::from_texture(1, 65536).err(), Some(GameError::ImageTooLarge));
    assert_eq!(Image::from_texture(65536 + 3, 2 * 65536).err(), Some(GameError::ImageTooLarge));
    assert_eq!(Image::from_texture(u32::MAX, u32::MAX).err(), Some(GameError::ImageTooLarge));
    assert!(Image::from_texture(65535, 65535).is_ok());
}

#[test]
fn image_binds_the_quad_one_instance_and_one_texture() {
    let image = Image::from_texture(8, 8).unwrap();
    let bindings = image.bindings();
    assert_eq!(
        bindings.vertex_buffers,
        vec![BufferData::QuadVertices, BufferData::Instances { capacity: 1 }]
    );
    assert_eq!(bindings.index_buffer, BufferData::QuadIndices);
    assert_eq!(bindings.images, 1);
    assert_eq!(bindings.vertex_buffers[0].byte_len(), Some(32));
    assert_eq!(bindings.vertex_buffers[1].byte_len(), Some(96));
    assert_eq!(bindings.index_buffer.byte_len(), Some(12));
    let red = [255u8, 0, 0, 255];
    let other = Image::from_rgba8(1, 1, &red).unwrap().bindings();
    assert_eq!(other.vertex_buffers, bindings.vertex_buffers);
}

#[test]
fn first_draw_of_a_new_image_sets_no_filter() {
    let mut image = Image::from_texture(2, 2).unwrap();
    assert_eq!(image.draw(), pass(PipelineKind::Sprite));
}

#[test]
fn red_square_draws_one_instance_of_six_indices() {
    let red = [255u8, 0, 0, 255, 255, 0, 0, 255, 255, 0, 0, 255, 255, 0, 0, 255];
    let mut image = Image::from_rgba8(2, 2, &red).unwrap();
    let commands = image.draw();
    assert_eq!(commands.len(), 7);
    assert_eq!(commands[0], DrawCommand::UpdateInstances { buffer: 1, count: 1 });
    assert_eq!(commands[1], DrawCommand::BeginPass { clear: false });
    assert_eq!(
        commands[5],
        DrawCommand::Draw { base_element: 0, num_elements: 6, num_instances: 1 }
    );
    assert_eq!(commands[6], DrawCommand::EndPass);
}

#[test]
fn set_filter_reaches_the_device_at_the_next_draw() {
    let mut image = Image::from_texture(4, 4).unwrap();
    image.set_filter(FilterMode::Nearest);
    assert_eq!(image.filter(), FilterMode::Nearest);
    let mut expected = vec![DrawCommand::SetFilter(FilterMode::Nearest)];
    expected.extend(pass(PipelineKind::Sprite));
    assert_eq!(image.draw(), expected);
}

#[test]
fn two_filter_changes_are_applied_once() {
    let mut image = Image::from_texture(4, 4).unwrap();
    image.set_filter(FilterMode::Nearest);
    image.set_filter(FilterMode::Linear);
    let first = image.draw();
    let applied: Vec<&DrawCommand> =
        first.iter().filter(|c| matches!(c, DrawCommand::SetFilter(_))).collect();
    assert_eq!(applied, vec![&DrawCommand::SetFilter(FilterMode::Linear)]);
    let second = image.draw();
    assert_eq!(second, pass(PipelineKind::Sprite));
    let third = image.draw();
    assert_eq!(third, pass(PipelineKind::Sprite));
}

#[test]
fn setting_the_same_filter_again_still_marks_it() {
    let mut image = Image::from_texture(4, 4).unwrap();
    image.set_filter(FilterMode::Linear);
    assert_eq!(image.draw()[0], DrawCommand::SetFilter(FilterMode::Linear));
    assert_eq!(image.filter(), FilterMode::Linear);
}

#[test]
fn draw_keeps_size_and_filter() {
    let mut image = Image::from_texture(9, 5).unwrap();
    image.set_filter(FilterMode::Nearest);
    image.draw();
    assert_eq!((image.width(), image.height()), (9, 5));
    assert_eq!(image.filter(), FilterMode::Nearest);
}

#[test]
fn decodes_a_red_square() {
    let pixels = Pixels::decode(&RED_2X2_PNG).unwrap();
    assert_eq!((pixels.width(), pixels.height()), (2, 2));
    assert_eq!(
        pixels.bytes(),
        &[255u8, 0, 0, 255, 255, 0, 0, 255, 255, 0, 0, 255, 255, 0, 0, 255][..]
    );
}

#[test]
fn decoding_adds_the_alpha_channel() {
    let pixels = Pixels::decode(&RGB_3X1_PNG).unwrap();
    assert_eq!((pixels.width(), pixels.height()), (3, 1));
    assert_eq!(pixels.bytes(), &[1u8, 2, 3, 255, 4, 5, 6, 255, 7, 8, 9, 255][..]);
}

#[test]
fn image_from_png_bytes_has_the_decoded_size() {
    let (mut image, pixels) = Image::from_png_bytes(&RED_2X2_PNG).unwrap();
    assert_eq!((image.width(), image.height()), (2, 2));
    assert_eq!(image.filter(), FilterMode::Linear);
    assert_eq!(pixels.bytes().len(), 16);
    assert_eq!(image.draw(), pass(PipelineKind::Sprite));
}

#[test]
fn malformed_bytes_are_a_decode_error() {
    assert_eq!(Pixels::decode(&[]).err(), Some(GameError::ImageDecodeError));
    assert_eq!(Pixels::decode(b"not an image").err(), Some(GameError::ImageDecodeError));
    assert_eq!(Pixels::decode(&RED_2X2_PNG[..40]).err(), Some(GameError::ImageDecodeError));
    assert_eq!(Image::from_png_bytes(&[1, 2, 3]).err(), Some(GameError::ImageDecodeError));
}

#[test]
fn formats_other_than_png_are_a_decode_error() {
    assert_eq!(Pixels::decode(&[0xff, 0xd8, 0xff, 0xe0, 0, 16]).err(), Some(GameError::ImageDecodeError));
    assert_eq!(Pixels::decode(b"GIF89a\x01\x00\x01\x00").err(), Some(GameError::ImageDecodeError));
}

#[test]
fn png_with_a_broken_checksum_is_a_decode_error() {
    let mut bytes = RED_2X2_PNG.to_vec();
    bytes[30] ^= 0xff;
    assert_eq!(Pixels::decode(&bytes).err(), Some(GameError::ImageDecodeError));
}

#[test]
fn decoder_output_is_checked() {
    assert!(Pixels::from_decoded(1, 1, vec![9, 8, 7, 6]).is_ok());
    assert!(Pixels::from_decoded(65535, 0, vec![]).is_ok());
    assert_eq!(Pixels::from_decoded(65536, 1, vec![]).err(), Some(GameError::ImageTooLarge));
    assert_eq!(Pixels::from_decoded(1, 65536, vec![]).err(), Some(GameError::ImageTooLarge));
    assert_eq!(Pixels::from_decoded(2, 2, vec![0; 15]).err(), Some(GameError::ImageDecodeError));
    assert_eq!(Pixels::from_decoded(0, 0, vec![0]).err(), Some(GameError::ImageDecodeError));
}

#[test]
fn white_is_one_opaque_pixel() {
    let white = Pixels::white();
    assert_eq!((white.width(), white.height()), (1, 1));
    assert_eq!(white.bytes(), &[255u8, 255, 255, 255][..]);
}

use tge::error::GameError;
use tge::graphics::{GpuCommand, Graphics, GraphicsConfig, ViewportTarget};
use tge::math::{Region, Size, Transform, Vector};
use tge::params::{GlyphQuad, SpriteDrawParams};
use tge::vertex::{Color, PrimitiveType, Vertex};

fn fresh() -> Graphics {
    Graphics::new(GraphicsConfig::new()).unwrap()
}

fn upload_counts(c: &GpuCommand) -> (usize, usize) {
    match c {
        GpuCommand::UploadAndDraw { vertices, indices, .. } => (vertices.len(), indices.len()),
        GpuCommand::Present => panic!("expected an upload"),
    }
}

#[test]
fn two_identical_sprites_share_one_batch() {
    let mut g = fresh();
    let params = SpriteDrawParams::new().region(Region::new(0, 0, 16, 16));
    g.draw_sprite(Some(1), &params).unwrap();
    g.draw_sprite(Some(1), &params).unwrap();
    assert_eq!(g.batch_vertex_count(), 8);
    assert_eq!(g.batch_index_count(), 12);
    g.flush().unwrap();
    let commands = g.drain_commands();
    assert_eq!(commands.len(), 1);
    assert_eq!(upload_counts(&commands[0]), (8, 12));
}

#[test]
fn differing_texture_forces_two_batches() {
    let mut g = fresh();
    let params = SpriteDrawParams::new().region(Region::new(0, 0, 16, 16));
    g.draw_sprite(Some(1), &params).unwrap();
    g.draw_sprite(Some(2), &params).unwrap();
    g.draw_sprite(Some(2), &params).unwrap();
    g.flush().unwrap();
    let commands = g.drain_commands();
    assert_eq!(commands.len(), 2);
    assert_eq!(upload_counts(&commands[0]), (4, 6));
    assert_eq!(upload_counts(&commands[1]), (8, 12));
}

#[test]
fn transform_change_forces_a_flush() {
    let mut g = fresh();
    let params = SpriteDrawParams::new();
    g.draw_sprite(None, &params).unwrap();
    g.set_transform(Transform::translation(5, 5));
    g.draw_sprite(None, &params).unwrap();
    g.flush().unwrap();
    let commands = g.drain_commands();
    assert_eq!(commands.len(), 2);
}

#[test]
fn sprite_vertices_are_baked_positions() {
    let mut g = fresh();
    let params = SpriteDrawParams::new()
        .region(Region::new(0, 0, 2, 3))
        .position(Vector::new(10, 20))
        .color(Color::new(1, 2, 3, 4));
    g.draw_sprite(Some(7), &params).unwrap();
    g.flush().unwrap();
    let commands = g.drain_commands();
    let vertices = match &commands[0] {
        GpuCommand::UploadAndDraw { vertices, .. } => vertices.clone(),
        GpuCommand::Present => panic!("expected an upload"),
    };
    let expected = vec![
        Vertex::new(Vector::new(10, 20), Vector::new(0, 0), Color::new(1, 2, 3, 4)),
        Vertex::new(Vector::new(12, 20), Vector::new(2, 0), Color::new(1, 2, 3, 4)),
        Vertex::new(Vector::new(10, 23), Vector::new(0, 3), Color::new(1, 2, 3, 4)),
        Vertex::new(Vector::new(12, 23), Vector::new(2, 3), Color::new(1, 2, 3, 4)),
    ];
    assert_eq!(vertices, expected);
    let indices = match &commands[0] {
        GpuCommand::UploadAndDraw { indices, .. } => indices.clone(),
        GpuCommand::Present => panic!("expected an upload"),
    };
    assert_eq!(indices, vec![0, 1, 2, 2, 1, 3]);
}

#[test]
fn scaling_transform_scales_the_quad() {
    let mut g = fresh();
    g.set_transform(Transform::scaling(2, 2));
    let params = SpriteDrawParams::new().region(Region::new(0, 0, 4, 4));
    g.draw_sprite(None, &params).unwrap();
    g.flush().unwrap();
    let commands = g.drain_commands();
    match &commands[0] {
        GpuCommand::UploadAndDraw { vertices, .. } => {
            assert_eq!(vertices[0].position, Vector::new(0, 0));
            assert_eq!(vertices[3].position, Vector::new(8, 8));
        },
        GpuCommand::Present => panic!("expected an upload"),
    }
}

#[test]
fn transform_round_trip_restores_the_top() {
    let mut g = fresh();
    let before = g.transform();
    g.push_transform();
    g.set_transform(Transform::translation(42, -7));
    assert_eq!(g.transform(), Transform::translation(42, -7));
    g.pop_transform().unwrap();
    assert_eq!(g.transform(), before);
    assert_eq!(g.transform_depth(), 1);
}

#[test]
fn popping_the_base_transform_fails() {
    let mut g = fresh();
    assert_eq!(g.transform_depth(), 1);
    match g.pop_transform() {
        Err(GameError::StateError(_)) => (),
        _ => panic!("popping the sole entry must be a state-contract error"),
    }
    assert_eq!(g.transform_depth(), 1);
    assert_eq!(g.transform(), Transform::identity());
}

#[test]
fn target_swap_flushes_but_keeps_transforms() {
    let mut g = fresh();
    g.push_transform();
    g.set_transform(Transform::translation(1, 1));
    g.draw_sprite(None, &SpriteDrawParams::new()).unwrap();
    g.set_target(ViewportTarget::Canvas { id: 3, width: 64, height: 64 }).unwrap();
    assert_eq!(g.batch_vertex_count(), 0);
    assert_eq!(g.transform_depth(), 2);
    assert_eq!(g.transform(), Transform::translation(1, 1));
    assert_eq!(g.target(), ViewportTarget::Canvas { id: 3, width: 64, height: 64 });
    let commands = g.drain_commands();
    assert_eq!(commands.len(), 1);
}

#[test]
fn present_submits_and_marks_the_frame() {
    let mut g = fresh();
    g.draw_sprite(None, &SpriteDrawParams::new()).unwrap();
    g.present().unwrap();
    let commands = g.drain_commands();
    assert_eq!(commands.len(), 2);
    assert_eq!(upload_counts(&commands[0]), (4, 6));
    assert!(matches!(commands[1], GpuCommand::Present));
}

#[test]
fn buffers_grow_geometrically_and_never_shrink() {
    let mut g = fresh();
    let params = SpriteDrawParams::new();
    // First flush allocates exactly what the quad needs.
    g.draw_sprite(None, &params).unwrap();
    g.flush().unwrap();
    // Second flush carries two quads: 8 vertices outgrow 4, and the growth
    // is at least half again (4 -> max(8, 6) = 8).
    g.draw_sprite(None, &params).unwrap();
    g.draw_sprite(None, &params).unwrap();
    g.flush().unwrap();
    // Third flush carries one quad again: it fits, no reallocation.
    g.draw_sprite(None, &params).unwrap();
    g.flush().unwrap();
    let commands = g.drain_commands();
    match &commands[0] {
        GpuCommand::UploadAndDraw { vertex_realloc, index_realloc, .. } => {
            assert_eq!(*vertex_realloc, Some(4));
            assert_eq!(*index_realloc, Some(6));
        },
        GpuCommand::Present => panic!("expected an upload"),
    }
    match &commands[1] {
        GpuCommand::UploadAndDraw { vertex_realloc, index_realloc, .. } => {
            assert_eq!(*vertex_realloc, Some(8));
            assert_eq!(*index_realloc, Some(12));
        },
        GpuCommand::Present => panic!("expected an upload"),
    }
    match &commands[2] {
        GpuCommand::UploadAndDraw { vertex_realloc, index_realloc, .. } => {
            assert_eq!(*vertex_realloc, None);
            assert_eq!(*index_realloc, None);
        },
        GpuCommand::Present => panic!("expected an upload"),
    }
}

#[test]
fn growth_past_the_session_limit_is_resource_exhaustion() {
    let mut g = Graphics::new(GraphicsConfig::new().max_buffer_units(6)).unwrap();
    let params = SpriteDrawParams::new();
    // One quad fits: 4 vertices, 6 indices.
    g.draw_sprite(None, &params).unwrap();
    g.flush().unwrap();
    // Two quads need 12 indices: past the limit of 6.
    g.draw_sprite(None, &params).unwrap();
    match g.draw_sprite(None, &params) {
        Ok(()) => {
            // The second quad still fit the batch; the flush must fail.
            match g.flush() {
                Err(GameError::ResourceError(_)) => (),
                _ => panic!("the flush must report resource exhaustion"),
            }
        },
        Err(GameError::ResourceError(_)) => (),
        Err(_) => panic!("only resource exhaustion is expected"),
    }
}

#[test]
fn mesh_runs_through_the_same_batching() {
    let mut g = fresh();
    let vertices = vec![
        Vertex::new(Vector::new(0, 0), Vector::new(0, 0), Color::white()),
        Vertex::new(Vector::new(1, 0), Vector::new(1, 0), Color::white()),
        Vertex::new(Vector::new(0, 1), Vector::new(0, 1), Color::white()),
    ];
    let indices = vec![0u16, 1, 2];
    g.set_transform(Transform::translation(100, 0));
    g.draw_mesh(None, PrimitiveType::Triangles, &vertices, &indices).unwrap();
    g.flush().unwrap();
    let commands = g.drain_commands();
    match &commands[0] {
        GpuCommand::UploadAndDraw { vertices, indices, primitive, .. } => {
            assert_eq!(vertices.len(), 3);
            assert_eq!(vertices[1].position, Vector::new(101, 0));
            assert_eq!(indices, &vec![0, 1, 2]);
            assert_eq!(*primitive, PrimitiveType::Triangles);
        },
        GpuCommand::Present => panic!("expected an upload"),
    }
}

#[test]
fn glyph_run_emits_one_quad_per_glyph() {
    let mut g = fresh();
    let glyphs = vec![
        GlyphQuad::new(Region::new(0, 0, 8, 8), Vector::new(0, 0)),
        GlyphQuad::new(Region::new(8, 0, 8, 8), Vector::new(8, 0)),
        GlyphQuad::new(Region::new(16, 0, 8, 8), Vector::new(16, 0)),
    ];
    g.draw_text(9, &glyphs, Color::white()).unwrap();
    assert_eq!(g.batch_vertex_count(), 12);
    assert_eq!(g.batch_index_count(), 18);
    g.flush().unwrap();
    let commands = g.drain_commands();
    assert_eq!(commands.len(), 1);
    assert_eq!(upload_counts(&commands[0]), (12, 18));
}

#[test]
fn resize_stores_the_surface_size() {
    let mut g = fresh();
    g.resize(Size::new(800, 600));
    assert_eq!(g.screen_size(), Size::new(800, 600));
}

/// Top-left origin grid coordinates of every frame, row by row.
fn generate_grid_coordinates_simple(cols: u32, rows: u32, frame_width: f32, frame_height: f32) -> Vec<(f32, f32)> {
    let mut coordinates = Vec::new();
    for row in 0..rows {
        for col in 0..cols {
            coordinates.push((col as f32 * frame_width, row as f32 * frame_height));
        }
    }
    coordinates
}

#[test]
fn test_chirpy_bird_3x2_grid() {
    let coords = generate_grid_coordinates_simple(3, 2, 1000.0, 1000.0);

    assert_eq!(coords.len(), 6);
    assert_eq!(coords[0], (0.0, 0.0));
    assert_eq!(coords[1], (1000.0, 0.0));
    assert_eq!(coords[2], (2000.0, 0.0));
    assert_eq!(coords[3], (0.0, 1000.0));
    assert_eq!(coords[4], (1000.0, 1000.0));
    assert_eq!(coords[5], (2000.0, 1000.0));

    println!("Chirpy bird 3x2 grid: {:?}", coords);
}

#[test]
fn test_bouncy_bunny_4x4_grid() {
    let coords = generate_grid_coordinates_simple(4, 4, 128.0, 128.0);

    assert_eq!(coords.len(), 16);
    assert_eq!(coords[0], (0.0, 0.0));
    assert_eq!(coords[14], (256.0, 384.0));

    println!("Bouncy bunny frames [0,14]: {:?}", vec![coords[0], coords[14]]);
}

#[test]
fn test_frame_index_to_grid_position() {
    // frameIndex = row * cols + col
    let cols = 4;
    let rows = 4;

    for frame_index in 0..(cols * rows) {
        let expected_row = frame_index / cols;
        let expected_col = frame_index % cols;

        let calculated_index = expected_row * cols + expected_col;
        assert_eq!(calculated_index, frame_index as u32);

        println!("Frame {}: row={}, col={}", frame_index, expected_row, expected_col);
    }
}

#[test]
fn test_coordinate_conversion_examples() {
    let examples = vec![
        (0, 4, 4, 128.0, 128.0, (0.0, 0.0)),
        (14, 4, 4, 128.0, 128.0, (256.0, 384.0)),
        (0, 3, 2, 1000.0, 1000.0, (0.0, 0.0)),
        (5, 3, 2, 1000.0, 1000.0, (2000.0, 1000.0)),
    ];

    for (frame_index, cols, rows, frame_width, frame_height, expected) in examples {
        let coords = generate_grid_coordinates_simple(cols, rows, frame_width, frame_height);
        assert_eq!(coords[frame_index], expected, "Frame {} in {}x{} grid should be {:?}", frame_index, cols, rows, expected);
    }
}

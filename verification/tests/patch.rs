use mosse::patch::{extract, origin, Centre, PatchError, Raster};

// A 6 by 5 raster whose pixel (x, y) holds 10 * y + x.
fn ramp() -> Raster {
    let mut data = Vec::new();
    for y in 0..5u8 {
        for x in 0..6u8 {
            data.push(10 * y + x);
        }
    }
    Raster::new(6, 5, data).unwrap()
}

#[test]
fn raster_keeps_its_dimensions() {
    let raster = ramp();
    assert_eq!(raster.width(), 6);
    assert_eq!(raster.height(), 5);
}

#[test]
fn raster_rejects_a_buffer_of_another_length() {
    assert!(matches!(Raster::new(2, 2, vec![0; 3]), Err(PatchError::SizeMismatch)));
    assert!(matches!(Raster::new(2, 2, vec![0; 5]), Err(PatchError::SizeMismatch)));
    assert!(matches!(Raster::new(2, 2, vec![0; 4]), Ok(_)));
    assert!(matches!(Raster::new(0, 0, vec![]), Ok(_)));
}

#[test]
fn origin_is_the_floor_clamped_at_zero() {
    // centre 2.0, extent 4: 2.0 - 2.0 = 0
    assert_eq!(origin(4, 4), 0);
    // centre 3.5, extent 4: floor(1.5) = 1
    assert_eq!(origin(7, 4), 1);
    // centre 3.0, extent 3: floor(1.5) = 1
    assert_eq!(origin(6, 3), 1);
    // centre 4.0, extent 3: floor(2.5) = 2
    assert_eq!(origin(8, 3), 2);
    // centre 1.0, extent 4: floor(-1.0) clamps to 0
    assert_eq!(origin(2, 4), 0);
    // centre 1.75, extent 3: floor(0.25) = 0
    assert_eq!(origin(3, 3), 0);
    assert_eq!(origin(-5, 3), 0);
    assert_eq!(origin(i64::MIN, u32::MAX), 0);
    assert_eq!(origin(i64::MAX, 1), (i64::MAX - 1) / 2);
}

#[test]
fn centred_window_starts_at_the_raster_origin() {
    let raster = ramp();
    let patch = extract(&raster, Centre { twice_x: 4, twice_y: 4 }, 4, 4).unwrap();
    assert_eq!(patch, vec![0, 1, 2, 3, 10, 11, 12, 13, 20, 21, 22, 23, 30, 31, 32, 33]);
}

#[test]
fn centre_left_of_half_the_width_clamps_to_column_zero() {
    let raster = ramp();
    // centre (0.5, 2.5) with a 4 by 2 window: x clamps to 0, y = floor(1.5) = 1
    let patch = extract(&raster, Centre { twice_x: 1, twice_y: 5 }, 4, 2).unwrap();
    assert_eq!(patch, vec![10, 11, 12, 13, 20, 21, 22, 23]);
    let far_left = extract(&raster, Centre { twice_x: -40, twice_y: -40 }, 2, 2).unwrap();
    assert_eq!(far_left, vec![0, 1, 10, 11]);
}

#[test]
fn interior_window_is_read_row_by_row() {
    let raster = ramp();
    // centre (3.5, 3.0) with a 3 by 2 window: origin (2, 2)
    let patch = extract(&raster, Centre { twice_x: 7, twice_y: 6 }, 3, 2).unwrap();
    assert_eq!(patch, vec![22, 23, 24, 32, 33, 34]);
}

#[test]
fn window_touching_the_far_corner_fits() {
    let raster = ramp();
    // origin (4, 3), window 2 by 2 ends exactly at (6, 5)
    let patch = extract(&raster, Centre { twice_x: 10, twice_y: 8 }, 2, 2).unwrap();
    assert_eq!(patch, vec![34, 35, 44, 45]);
}

#[test]
fn window_past_the_far_edge_is_rejected() {
    let raster = ramp();
    // origin x = 5, window 2 wide on a raster 6 wide
    assert_eq!(
        extract(&raster, Centre { twice_x: 12, twice_y: 4 }, 2, 2),
        Err(PatchError::OutOfRaster)
    );
    // origin y = 4, window 2 high on a raster 5 high
    assert_eq!(
        extract(&raster, Centre { twice_x: 4, twice_y: 10 }, 2, 2),
        Err(PatchError::OutOfRaster)
    );
    // window larger than the raster
    assert_eq!(
        extract(&raster, Centre { twice_x: 7, twice_y: 5 }, 7, 5),
        Err(PatchError::OutOfRaster)
    );
    assert_eq!(
        extract(&raster, Centre { twice_x: i64::MAX, twice_y: i64::MAX }, 1, 1),
        Err(PatchError::OutOfRaster)
    );
}

#[test]
fn whole_raster_is_its_own_patch() {
    let raster = ramp();
    let patch = extract(&raster, Centre { twice_x: 6, twice_y: 5 }, 6, 5).unwrap();
    let expected: Vec<u8> = (0..5u8).flat_map(|y| (0..6u8).map(move |x| 10 * y + x)).collect();
    assert_eq!(patch, expected);
}

#[test]
fn window_with_an_empty_axis_is_rejected() {
    let raster = ramp();
    assert_eq!(
        extract(&raster, Centre { twice_x: 0, twice_y: 0 }, 0, 3),
        Err(PatchError::EmptyWindow)
    );
    assert_eq!(
        extract(&raster, Centre { twice_x: 0, twice_y: 0 }, 3, 0),
        Err(PatchError::EmptyWindow)
    );
    assert_eq!(
        extract(&raster, Centre { twice_x: 100, twice_y: 100 }, 0, 0),
        Err(PatchError::EmptyWindow)
    );
}

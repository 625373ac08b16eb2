use shadowpuppet::{
    build_mesh, export_obj, quantize, render_obj, DepthSample, ExportError, Face, Raster, Rgb,
    Vertex, MATERIAL_HEADER,
};

fn gray(v: u8) -> Rgb {
    Rgb { r: v, g: v, b: v }
}

const BLACK: Rgb = Rgb { r: 0, g: 0, b: 0 };
const WHITE: Rgb = Rgb { r: 255, g: 255, b: 255 };

fn checker() -> Raster {
    Raster::new(2, 2, vec![BLACK, WHITE, WHITE, BLACK]).unwrap()
}

#[test]
fn quantize_is_deterministic() {
    let p = Rgb { r: 12, g: 200, b: 77 };
    for layers in 2..=255u32 {
        assert_eq!(quantize(p, layers), quantize(p, layers));
    }
}

#[test]
fn quantize_stays_in_unit_range() {
    for layers in [2u32, 3, 8, 64, 255] {
        for v in [0u8, 1, 63, 64, 127, 128, 200, 254, 255] {
            let d = quantize(Rgb { r: v, g: 255 - v, b: v / 2 }, layers).unwrap();
            assert!(d.level <= d.max_level);
            assert_eq!(d.max_level, layers - 1);
        }
    }
}

#[test]
fn quantize_extremes() {
    assert_eq!(quantize(BLACK, 8), Ok(DepthSample { level: 0, max_level: 7 }));
    assert_eq!(quantize(WHITE, 8), Ok(DepthSample { level: 7, max_level: 7 }));
    assert_eq!(quantize(WHITE, 255), Ok(DepthSample { level: 254, max_level: 254 }));
}

#[test]
fn quantize_uses_weighted_luminance() {
    // Pure green: luminance 0.587 * 255 = 149.685; with 3 layers the step is
    // 127.5, so 149.685 / 127.5 = 1.17 rounds to 1.
    assert_eq!(quantize(Rgb { r: 0, g: 255, b: 0 }, 3), Ok(DepthSample { level: 1, max_level: 2 }));
    // Pure blue: 0.114 * 255 = 29.07; 29.07 / 127.5 = 0.23 rounds to 0.
    assert_eq!(quantize(Rgb { r: 0, g: 0, b: 255 }, 3), Ok(DepthSample { level: 0, max_level: 2 }));
    // Pure red: 0.299 * 255 = 76.245; with 5 layers the step is 63.75, ratio 1.196.
    assert_eq!(quantize(Rgb { r: 255, g: 0, b: 0 }, 5), Ok(DepthSample { level: 1, max_level: 4 }));
}

#[test]
fn quantize_rounds_halves_up() {
    // 0.299 * 0 + 0.587 * 204 + 0.114 * 68 = 127.5: exactly half a step with 2 layers.
    assert_eq!(quantize(Rgb { r: 0, g: 204, b: 68 }, 2).unwrap().level, 1);
    assert_eq!(quantize(Rgb { r: 0, g: 204, b: 67 }, 2).unwrap().level, 0);
    // 0.299 * 2 + 0.587 * 106 + 0.114 * 120 = 76.5 = 1.5 steps of 51 (6 layers).
    assert_eq!(quantize(Rgb { r: 2, g: 106, b: 120 }, 6).unwrap().level, 2);
    assert_eq!(quantize(gray(127), 2).unwrap().level, 0);
    assert_eq!(quantize(gray(128), 2).unwrap().level, 1);
    assert_eq!(quantize(gray(153), 6).unwrap().level, 3);
}

#[test]
fn quantize_rejects_bad_layer_counts() {
    assert_eq!(quantize(WHITE, 0), Err(ExportError::InvalidParameter));
    assert_eq!(quantize(WHITE, 1), Err(ExportError::InvalidParameter));
    assert_eq!(quantize(WHITE, 256), Err(ExportError::InvalidParameter));
    assert!(quantize(WHITE, 2).is_ok());
    assert!(quantize(WHITE, 255).is_ok());
}

#[test]
fn more_layers_by_odd_multiple_never_lose_levels() {
    let pixels: Vec<Rgb> = (0..=255u8).step_by(5).map(gray).collect();
    let count = |layers: u32| {
        let mut levels: Vec<u32> = pixels.iter().map(|p| quantize(*p, layers).unwrap().level).collect();
        levels.sort();
        levels.dedup();
        levels.len()
    };
    // fine - 1 = 3 * (coarse - 1)
    assert!(count(2) <= count(4));
    assert!(count(3) <= count(7));
    assert!(count(8) <= count(22));
}

#[test]
fn raster_new_checks_dimensions() {
    assert_eq!(Raster::new(0, 1, vec![]).unwrap_err(), ExportError::InvalidDimensions);
    assert_eq!(Raster::new(2, 2, vec![BLACK; 3]).unwrap_err(), ExportError::InvalidDimensions);
    let r = Raster::new(3, 2, vec![BLACK; 6]).unwrap();
    assert_eq!(r.get_pixel(2, 1), BLACK);
}

#[test]
fn checker_scenario_mesh() {
    let mesh = build_mesh(&checker(), 2).unwrap();
    assert_eq!(
        mesh.vertices,
        vec![
            Vertex { x: 0, y: 0, z: 0 },
            Vertex { x: 100_000, y: 0, z: 100_000 },
            Vertex { x: 0, y: -100_000, z: 100_000 },
            Vertex { x: 100_000, y: -100_000, z: 0 },
        ]
    );
    assert_eq!(mesh.faces, vec![Face { a: 3, b: 4, c: 2, d: 1 }]);
}

#[test]
fn checker_scenario_text() {
    let text = export_obj(&checker(), 2).unwrap();
    let expected = format!(
        "{}v 0.000000 0.000000 0.000000\nv 0.100000 0.000000 0.100000\nv 0.000000 -0.100000 0.100000\nv 0.100000 -0.100000 0.000000\nf 3 4 2 1\n",
        MATERIAL_HEADER
    );
    assert_eq!(text, expected);
    assert!(text.starts_with("mtllib material.mtl\nusemtl plane_material\n"));
}

#[test]
fn layer_count_checked_before_dimensions() {
    let tiny = Raster::new(1, 1, vec![WHITE]).unwrap();
    assert_eq!(export_obj(&tiny, 1).unwrap_err(), ExportError::InvalidParameter);
    assert_eq!(export_obj(&tiny, 0).unwrap_err(), ExportError::InvalidParameter);
    assert_eq!(export_obj(&checker(), 1).unwrap_err(), ExportError::InvalidParameter);
    assert_eq!(export_obj(&checker(), 300).unwrap_err(), ExportError::InvalidParameter);
}

#[test]
fn single_pixel_raster_is_rejected() {
    let tiny = Raster::new(1, 1, vec![WHITE]).unwrap();
    assert_eq!(export_obj(&tiny, 2).unwrap_err(), ExportError::InvalidDimensions);
    let row = Raster::new(5, 1, vec![WHITE; 5]).unwrap();
    assert_eq!(export_obj(&row, 8).unwrap_err(), ExportError::InvalidDimensions);
    let column = Raster::new(1, 4, vec![WHITE; 4]).unwrap();
    assert_eq!(build_mesh(&column, 8).unwrap_err(), ExportError::InvalidDimensions);
}

#[test]
fn inconsistent_pixel_count_is_rejected() {
    let bad = Raster { width: 3, height: 3, pixels: vec![WHITE; 8] };
    assert_eq!(export_obj(&bad, 4).unwrap_err(), ExportError::InvalidDimensions);
}

#[test]
fn vertex_and_face_counts() {
    let (w, h) = (5usize, 4usize);
    let pixels: Vec<Rgb> = (0..w * h).map(|i| gray((i * 13) as u8)).collect();
    let raster = Raster::new(w, h, pixels).unwrap();
    let mesh = build_mesh(&raster, 8).unwrap();
    assert_eq!(mesh.vertices.len(), w * h);
    assert_eq!(mesh.faces.len(), (w - 1) * (h - 1));
    for f in &mesh.faces {
        let ids = [f.a, f.b, f.c, f.d];
        for (i, a) in ids.iter().enumerate() {
            assert!(*a >= 1 && *a <= w * h);
            for b in &ids[i + 1..] {
                assert_ne!(a, b);
            }
        }
    }
    let text = export_obj(&raster, 8).unwrap();
    assert_eq!(text.lines().filter(|l| l.starts_with("v ")).count(), w * h);
    assert_eq!(text.lines().filter(|l| l.starts_with("f ")).count(), (w - 1) * (h - 1));
}

#[test]
fn face_winding_and_indices() {
    let raster = Raster::new(3, 2, vec![BLACK; 6]).unwrap();
    let mesh = build_mesh(&raster, 2).unwrap();
    assert_eq!(
        mesh.faces,
        vec![Face { a: 4, b: 5, c: 2, d: 1 }, Face { a: 5, b: 6, c: 3, d: 2 }]
    );
    assert_eq!(mesh.vertices[5], Vertex { x: 200_000, y: -100_000, z: 0 });
}

#[test]
fn fractional_depth_is_rounded_to_micros() {
    // Gray 85 with 4 layers: luminance 85, step 85, level 1 of 3, depth 1/3,
    // height 0.1 / 3 = 0.0333333...
    let raster = Raster::new(2, 2, vec![gray(85); 4]).unwrap();
    let mesh = build_mesh(&raster, 4).unwrap();
    assert_eq!(mesh.vertices[0].z, 33_333);
    // level 2 of 3: 0.0666666... rounds to 0.066667
    let raster = Raster::new(2, 2, vec![gray(170); 4]).unwrap();
    let text = export_obj(&raster, 4).unwrap();
    assert!(text.contains("v 0.000000 0.000000 0.066667\n"));
}

#[test]
fn large_coordinates_are_written_in_full() {
    let mesh = shadowpuppet::Mesh {
        vertices: vec![Vertex { x: 12_345_678_901, y: -7, z: i128::MIN }],
        faces: vec![Face { a: 1, b: 10, c: 1234567, d: 0 }],
    };
    let text = render_obj(&mesh);
    let body = &text[MATERIAL_HEADER.len()..];
    assert_eq!(
        body,
        "v 12345.678901 -0.000007 -170141183460469231731687303715884.105728\nf 1 10 1234567 0\n"
    );
}

#[test]
fn export_is_idempotent() {
    let pixels: Vec<Rgb> = (0..12).map(|i| Rgb { r: (i * 20) as u8, g: 90, b: (255 - i * 7) as u8 }).collect();
    let raster = Raster::new(4, 3, pixels).unwrap();
    let first = export_obj(&raster, 6).unwrap();
    let second = export_obj(&raster, 6).unwrap();
    assert_eq!(first.as_bytes(), second.as_bytes());
}

use vstd::arithmetic::div_mod::lemma_fundamental_div_mod_converse;
use vstd::prelude::*;

use crate::error::ExportError;
use crate::quantize::{depth_of, quantize_valid, valid_layers, DepthSample, MAX_LAYERS, MIN_LAYERS};
use crate::raster::{lemma_row_major_index_bound, Raster};

verus! {

/// Distance between neighbouring pixels, and the height of one full depth
/// step, in millionths of a unit (`0.1`).
pub const PLANAR_SCALE_MICROS: i128 = 100_000;

/// Height of the zero-depth plane in millionths of a unit (`0.0`).
pub const BASE_HEIGHT_MICROS: i128 = 0;

/// A mesh vertex; each coordinate is in millionths of a unit.
#[derive(Clone, Copy, Debug, PartialEq, Eq, Structural)]
pub struct Vertex {
    pub x: i128,
    pub y: i128,
    pub z: i128,
}

/// A quadrilateral face given by four 1-based vertex indices.
#[derive(Clone, Copy, Debug, PartialEq, Eq, Structural)]
pub struct Face {
    pub a: usize,
    pub b: usize,
    pub c: usize,
    pub d: usize,
}

/// The vertex and face sequences of a mesh.
pub ghost struct MeshModel {
    pub vertices: Seq<Vertex>,
    pub faces: Seq<Face>,
}

/// A quad mesh: vertices in emission order and faces over them.
#[derive(Debug)]
pub struct Mesh {
    pub vertices: Vec<Vertex>,
    pub faces: Vec<Face>,
}

impl View for Mesh {
    type V = MeshModel;

    open spec fn view(&self) -> MeshModel {
        MeshModel { vertices: self.vertices@, faces: self.faces@ }
    }
}

/// A raster that yields at least one face: both sides at least 2 and the
/// sample count equal to `width * height`.
pub open spec fn exportable(r: Raster) -> bool {
    &&& r.width >= 2
    &&& r.height >= 2
    &&& r.pixels@.len() == r.width * r.height
}

/// Height above the base plane of a depth sample, in millionths:
/// `level / max_level * PLANAR_SCALE_MICROS`, rounded to nearest, halves up.
pub open spec fn depth_micros(d: DepthSample) -> int {
    (2 * d.level * PLANAR_SCALE_MICROS + d.max_level) / (2 * d.max_level)
}

/// The vertex emitted for pixel `(x, y)`: `X = x * scale`, `Y = -(y * scale)`,
/// `Z = depth * scale + base`.
pub open spec fn vertex_of(r: Raster, layers: int, x: int, y: int) -> Vertex {
    Vertex {
        x: (x * PLANAR_SCALE_MICROS) as i128,
        y: (-(y * PLANAR_SCALE_MICROS)) as i128,
        z: (depth_micros(depth_of(r.pixel_at(x, y), layers)) + BASE_HEIGHT_MICROS) as i128,
    }
}

/// The 1-based index of the vertex at grid position `(gx, gy)`.
pub open spec fn vertex_index(width: int, gx: int, gy: int) -> int {
    gy * width + gx + 1
}

/// The face of cell `(x, y)`, wound `(x,y+1), (x+1,y+1), (x+1,y), (x,y)`.
pub open spec fn face_of(width: int, x: int, y: int) -> Face {
    Face {
        a: vertex_index(width, x, y + 1) as usize,
        b: vertex_index(width, x + 1, y + 1) as usize,
        c: vertex_index(width, x + 1, y) as usize,
        d: vertex_index(width, x, y) as usize,
    }
}

/// The mesh of a raster: one vertex per pixel in row-major order, then one
/// face per interior cell in row-major order.
pub open spec fn mesh_of(r: Raster, layers: int) -> MeshModel {
    let w = r.width as int;
    let h = r.height as int;
    MeshModel {
        vertices: Seq::new((w * h) as nat, |i: int| vertex_of(r, layers, i % w, i / w)),
        faces: Seq::new(((w - 1) * (h - 1)) as nat, |k: int| face_of(w, k % (w - 1), k / (w - 1))),
    }
}

proof fn lemma_face_corner_bound(width: int, height: int, x: int, y: int)
    requires
        0 <= x < width - 1,
        0 <= y < height - 1,
    ensures
        vertex_index(width, x + 1, y + 1) <= width * height,
        1 <= vertex_index(width, x, y),
{
    lemma_row_major_index_bound(width, height, x + 1, y + 1);
    assert(0 <= y * width) by (nonlinear_arith)
        requires
            0 <= y,
            0 <= x < width,
    ;
}

/// Builds the mesh of `raster` with `layers` depth layers.  The layer count
/// is checked first (`InvalidParameter`), then the raster (`InvalidDimensions`).
pub fn build_mesh(raster: &Raster, layers: u32) -> (res: Result<Mesh, ExportError>)
    ensures
        !valid_layers(layers as int) ==> res matches Err(ExportError::InvalidParameter),
        valid_layers(layers as int) && !exportable(*raster) ==> res matches Err(
            ExportError::InvalidDimensions,
        ),
        valid_layers(layers as int) && exportable(*raster) ==> (res matches Ok(m) && m@ == mesh_of(
            *raster,
            layers as int,
        )),
{
    if layers < MIN_LAYERS || layers > MAX_LAYERS {
        return Err(ExportError::InvalidParameter);
    }
    let w = raster.width;
    let h = raster.height;
    let count = raster.pixels.len();
    if w < 2 || h < 2 {
        return Err(ExportError::InvalidDimensions);
    }
    match w.checked_mul(h) {
        Some(n) if n == count => {},
        _ => {
            return Err(ExportError::InvalidDimensions);
        },
    }
    let ghost model = mesh_of(*raster, layers as int);
    let mut vertices: Vec<Vertex> = Vec::new();
    let mut y: usize = 0;
    while y < h
        invariant
            y <= h,
            w == raster.width,
            h == raster.height,
            raster.wf(),
            exportable(*raster),
            valid_layers(layers as int),
            model == mesh_of(*raster, layers as int),
            vertices@.len() == y * w,
            forall|i: int| 0 <= i < vertices@.len() ==> vertices@[i] == model.vertices[i],
        decreases h - y,
    {
        let mut x: usize = 0;
        while x < w
            invariant
                x <= w,
                y < h,
                w == raster.width,
                h == raster.height,
                raster.wf(),
                exportable(*raster),
                valid_layers(layers as int),
                model == mesh_of(*raster, layers as int),
                vertices@.len() == y * w + x,
                forall|i: int| 0 <= i < vertices@.len() ==> vertices@[i] == model.vertices[i],
            decreases w - x,
        {
            let p = raster.get_pixel(x, y);
            let d = quantize_valid(p, layers);
            let z: i128 = (2 * (d.level as i128) * PLANAR_SCALE_MICROS + d.max_level as i128) / (2
                * (d.max_level as i128)) + BASE_HEIGHT_MICROS;
            let v = Vertex {
                x: (x as i128) * PLANAR_SCALE_MICROS,
                y: -((y as i128) * PLANAR_SCALE_MICROS),
                z,
            };
            proof {
                let i = y * w + x;
                lemma_row_major_index_bound(w as int, h as int, x as int, y as int);
                lemma_fundamental_div_mod_converse(i, w as int, y as int, x as int);
                assert(model.vertices[i] == v);
            }
            vertices.push(v);
            x = x + 1;
        }
        assert(vertices@.len() == (y + 1) * w) by (nonlinear_arith)
            requires
                vertices@.len() == y * w + w,
        ;
        y = y + 1;
    }
    assert(vertices@.len() == w * h) by (nonlinear_arith)
        requires
            vertices@.len() == y * w,
            y == h,
    ;
    let mut faces: Vec<Face> = Vec::new();
    let cw = w - 1;
    let ch = h - 1;
    let mut fy: usize = 0;
    while fy < ch
        invariant
            fy <= ch,
            cw == w - 1,
            ch == h - 1,
            w == raster.width,
            h == raster.height,
            exportable(*raster),
            w * h <= usize::MAX,
            model == mesh_of(*raster, layers as int),
            faces@.len() == fy * cw,
            forall|k: int| 0 <= k < faces@.len() ==> faces@[k] == model.faces[k],
        decreases ch - fy,
    {
        let mut fx: usize = 0;
        while fx < cw
            invariant
                fx <= cw,
                fy < ch,
                cw == w - 1,
                ch == h - 1,
                w == raster.width,
                h == raster.height,
                exportable(*raster),
                w * h <= usize::MAX,
                model == mesh_of(*raster, layers as int),
                faces@.len() == fy * cw + fx,
                forall|k: int| 0 <= k < faces@.len() ==> faces@[k] == model.faces[k],
            decreases cw - fx,
        {
            proof {
                lemma_face_corner_bound(w as int, h as int, fx as int, fy as int);
                lemma_row_major_index_bound(cw as int, ch as int, fx as int, fy as int);
                assert((fy + 1) * w == fy * w + w) by (nonlinear_arith);
                assert(0 <= fy * w) by (nonlinear_arith)
                    requires
                        0 <= fy,
                        0 <= w,
                ;
            }
            let top = fy * w;
            let bottom = top + w;
            let f = Face { a: bottom + fx + 1, b: bottom + fx + 2, c: top + fx + 2, d: top + fx + 1 };
            proof {
                let k = fy * cw + fx;
                lemma_fundamental_div_mod_converse(k, cw as int, fy as int, fx as int);
                assert(bottom == (fy + 1) * w) by (nonlinear_arith)
                    requires
                        bottom == fy * w + w,
                ;
                assert(model.faces[k] == f);
            }
            faces.push(f);
            fx = fx + 1;
        }
        assert(faces@.len() == (fy + 1) * cw) by (nonlinear_arith)
            requires
                faces@.len() == fy * cw + cw,
        ;
        fy = fy + 1;
    }
    assert(faces@.len() == cw * ch) by (nonlinear_arith)
        requires
            faces@.len() == fy * cw,
            fy == ch,
    ;
    let mesh = Mesh { vertices, faces };
    assert(mesh@.vertices =~= model.vertices);
    assert(mesh@.faces =~= model.faces);
    Ok(mesh)
}

/// A face over a mesh of `n` vertices: four distinct indices in `1..=n`.
pub open spec fn face_in_mesh(f: Face, n: int) -> bool {
    &&& 1 <= f.a <= n
    &&& 1 <= f.b <= n
    &&& 1 <= f.c <= n
    &&& 1 <= f.d <= n
    &&& f.a != f.b && f.a != f.c && f.a != f.d
    &&& f.b != f.c && f.b != f.d
    &&& f.c != f.d
}

/// The mesh of a `W x H` raster has exactly `W * H` vertices and
/// `(W - 1) * (H - 1)` faces, and each face names four distinct vertices
/// with indices in `1..=W * H`.
pub proof fn lemma_mesh_shape(r: Raster, layers: int)
    requires
        exportable(r),
        r.width * r.height <= usize::MAX,
    ensures
        mesh_of(r, layers).vertices.len() == r.width * r.height,
        mesh_of(r, layers).faces.len() == (r.width - 1) * (r.height - 1),
        forall|k: int|
            0 <= k < mesh_of(r, layers).faces.len() ==> face_in_mesh(
                #[trigger] mesh_of(r, layers).faces[k],
                r.width * r.height,
            ),
{
    let w = r.width as int;
    let h = r.height as int;
    let m = mesh_of(r, layers);
    assert(0 <= (w - 1) * (h - 1)) by (nonlinear_arith)
        requires
            w >= 2,
            h >= 2,
    ;
    assert forall|k: int| 0 <= k < m.faces.len() implies face_in_mesh(#[trigger] m.faces[k], w * h) by {
        let x = k % (w - 1);
        let y = k / (w - 1);
        assert(0 <= x < w - 1 && 0 <= y < h - 1 && k == y * (w - 1) + x) by {
            vstd::arithmetic::div_mod::lemma_fundamental_div_mod(k, w - 1);
            vstd::arithmetic::div_mod::lemma_mod_bound(k, w - 1);
            assert(0 <= y < h - 1) by (nonlinear_arith)
                requires
                    k == (w - 1) * y + x,
                    0 <= x < w - 1,
                    0 <= k < (w - 1) * (h - 1),
            ;
        }
        lemma_face_corner_bound(w, h, x, y);
        assert((y + 1) * w == y * w + w) by (nonlinear_arith);
        assert(0 <= y * w) by (nonlinear_arith)
            requires
                0 <= y,
                0 <= w,
        ;
    }
}

} // verus!

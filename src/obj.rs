use vstd::prelude::*;

use crate::error::ExportError;
use crate::mesh::{build_mesh, exportable, mesh_of, Face, Mesh, MeshModel, Vertex};
use crate::quantize::valid_layers;
use crate::raster::Raster;
use crate::text::{decimal_text, fixed_point_text, push_decimal, push_fixed_point};

verus! {

/// The material block written before any geometry: it names the material
/// library, selects the plane material and defines it as diffuse white.
pub const MATERIAL_HEADER: &'static str =
    "mtllib material.mtl\nusemtl plane_material\nnewmtl plane_material\nKd 1.0 1.0 1.0\nKa 0.0 0.0 0.0\n";

/// `v <x> <y> <z>` followed by a line break, coordinates in fixed-point text.
pub open spec fn vertex_line(v: Vertex) -> Seq<char> {
    seq!['v', ' '] + fixed_point_text(v.x as int) + seq![' '] + fixed_point_text(v.y as int)
        + seq![' '] + fixed_point_text(v.z as int) + seq!['\n']
}

/// `f <a> <b> <c> <d>` followed by a line break, indices in decimal.
pub open spec fn face_line(f: Face) -> Seq<char> {
    seq!['f', ' '] + decimal_text(f.a as nat) + seq![' '] + decimal_text(f.b as nat) + seq![' ']
        + decimal_text(f.c as nat) + seq![' '] + decimal_text(f.d as nat) + seq!['\n']
}

/// One vertex record per vertex, in order.
pub open spec fn vertex_lines(vs: Seq<Vertex>) -> Seq<char>
    decreases vs.len(),
{
    if vs.len() == 0 {
        Seq::empty()
    } else {
        vertex_lines(vs.drop_last()) + vertex_line(vs.last())
    }
}

/// One face record per face, in order.
pub open spec fn face_lines(fs: Seq<Face>) -> Seq<char>
    decreases fs.len(),
{
    if fs.len() == 0 {
        Seq::empty()
    } else {
        face_lines(fs.drop_last()) + face_line(fs.last())
    }
}

/// The text of a mesh: the material block, the vertex records, the face records.
pub open spec fn obj_text(m: MeshModel) -> Seq<char> {
    MATERIAL_HEADER@ + vertex_lines(m.vertices) + face_lines(m.faces)
}

fn push_vertex_line(out: &mut String, v: &Vertex)
    ensures
        final(out)@ == old(out)@ + vertex_line(*v),
{
    proof {
        reveal_strlit("v ");
        reveal_strlit(" ");
        reveal_strlit("\n");
    }
    out.append("v ");
    push_fixed_point(out, v.x);
    out.append(" ");
    push_fixed_point(out, v.y);
    out.append(" ");
    push_fixed_point(out, v.z);
    out.append("\n");
}

fn push_face_line(out: &mut String, f: &Face)
    ensures
        final(out)@ == old(out)@ + face_line(*f),
{
    proof {
        reveal_strlit("f ");
        reveal_strlit(" ");
        reveal_strlit("\n");
    }
    out.append("f ");
    push_decimal(out, f.a as u128);
    out.append(" ");
    push_decimal(out, f.b as u128);
    out.append(" ");
    push_decimal(out, f.c as u128);
    out.append(" ");
    push_decimal(out, f.d as u128);
    out.append("\n");
}

/// Serializes a mesh: the material block, then every vertex, then every face.
pub fn render_obj(mesh: &Mesh) -> (text: String)
    ensures
        text@ == obj_text(mesh@),
{
    let mut out = String::from_str(MATERIAL_HEADER);
    let mut i: usize = 0;
    while i < mesh.vertices.len()
        invariant
            i <= mesh.vertices@.len(),
            out@ == MATERIAL_HEADER@ + vertex_lines(mesh.vertices@.subrange(0, i as int)),
        decreases mesh.vertices@.len() - i,
    {
        push_vertex_line(&mut out, &mesh.vertices[i]);
        proof {
            let next = mesh.vertices@.subrange(0, i + 1);
            assert(next.drop_last() =~= mesh.vertices@.subrange(0, i as int));
        }
        i = i + 1;
    }
    assert(mesh.vertices@.subrange(0, i as int) =~= mesh.vertices@);
    let ghost prefix = out@;
    let mut k: usize = 0;
    while k < mesh.faces.len()
        invariant
            k <= mesh.faces@.len(),
            out@ == prefix + face_lines(mesh.faces@.subrange(0, k as int)),
        decreases mesh.faces@.len() - k,
    {
        push_face_line(&mut out, &mesh.faces[k]);
        proof {
            let next = mesh.faces@.subrange(0, k + 1);
            assert(next.drop_last() =~= mesh.faces@.subrange(0, k as int));
        }
        k = k + 1;
    }
    assert(mesh.faces@.subrange(0, k as int) =~= mesh.faces@);
    out
}

/// Produces the mesh text of `raster` with `layers` depth layers.  Fails with
/// `InvalidParameter` for a layer count outside `2..=255` (checked first), and
/// with `InvalidDimensions` for a raster without interior cells.
pub fn export_obj(raster: &Raster, layers: u32) -> (res: Result<String, ExportError>)
    ensures
        !valid_layers(layers as int) ==> res matches Err(ExportError::InvalidParameter),
        valid_layers(layers as int) && !exportable(*raster) ==> res matches Err(
            ExportError::InvalidDimensions,
        ),
        valid_layers(layers as int) && exportable(*raster) ==> (res matches Ok(text) && text@
            == obj_text(mesh_of(*raster, layers as int))),
{
    match build_mesh(raster, layers) {
        Ok(mesh) => Ok(render_obj(&mesh)),
        Err(e) => Err(e),
    }
}

} // verus!

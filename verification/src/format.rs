//! The text format of a mesh.
//!
//! A mesh file is read line by line. A line is a row of fields with one
//! space between each two. The first field names the directive:
//!
//! * `v x y z` declares a vertex. Vertices are numbered from 1 in the order
//!   of their lines.
//! * `f i j k` declares a triangular face over three vertex numbers. A face
//!   may name a vertex that is declared further down.
//! * a line with any other first field is passed over.
//!
//! The coordinates of a vertex are handed on as the fields they were
//! written in: what number a field writes is for the caller to say.

use crate::text::{
    decimal_usize, lines, parse_usize, split, split_bytes, split_lines, split_pieces_hold_no_separator,
    SPACE,
};
use vstd::prelude::*;

verus! {

/// The first field of a vertex line, the letter `v`.
pub const VERTEX_WORD: u8 = 118;

/// The first field of a face line, the letter `f`.
pub const FACE_WORD: u8 = 102;

/// Why a mesh text is refused.
#[derive(Clone, Copy, Debug, PartialEq, Eq, Structural)]
pub enum LoadError {
    /// The line with this number, counted from 1, is a vertex or face line
    /// with fewer than three fields after the directive.
    MissingField { line: usize },
    /// A field of the line with this number, counted from 1, does not write
    /// the number it should.
    InvalidNumber { line: usize },
    /// The face at this place in the list of faces, counted from 0, names a
    /// vertex that the mesh does not have.
    FaceOutOfRange { face: usize },
}

/// What is wrong with a single line.
#[derive(Clone, Copy, Debug, PartialEq, Eq, Structural)]
pub enum LineFault {
    /// A vertex or face line has fewer than three fields after the directive.
    MissingField,
    /// A field of a face line does not write a vertex number.
    InvalidNumber,
}

/// What a line says, over the bytes of its fields.
pub enum Directive {
    /// A vertex with its three coordinates as written.
    Vertex { x: Seq<u8>, y: Seq<u8>, z: Seq<u8> },
    /// A face with its three vertex numbers as written, counted from 1.
    Face { a: usize, b: usize, c: usize },
    /// Nothing that the format knows.
    Other,
}

/// What a line says.
#[derive(Debug, PartialEq, Eq)]
pub enum Line {
    /// A vertex with its three coordinates as written.
    Vertex { x: Vec<u8>, y: Vec<u8>, z: Vec<u8> },
    /// A face with its three vertex numbers as written, counted from 1.
    Face { a: usize, b: usize, c: usize },
    /// Nothing that the format knows.
    Other,
}

impl View for Line {
    type V = Directive;

    open spec fn view(&self) -> Directive {
        match *self {
            Line::Vertex { x, y, z } => Directive::Vertex { x: x@, y: y@, z: z@ },
            Line::Face { a, b, c } => Directive::Face { a, b, c },
            Line::Other => Directive::Other,
        }
    }
}

/// A vertex as the text declares it.
pub struct VertexEntry {
    /// The number of the line, counted from 1.
    pub line: int,
    pub x: Seq<u8>,
    pub y: Seq<u8>,
    pub z: Seq<u8>,
}

/// A vertex as the text declares it: the number of its line, counted from
/// 1, and the three fields that write its coordinates.
#[derive(Debug, PartialEq, Eq)]
pub struct VertexText {
    pub line: usize,
    pub x: Vec<u8>,
    pub y: Vec<u8>,
    pub z: Vec<u8>,
}

impl View for VertexText {
    type V = VertexEntry;

    open spec fn view(&self) -> VertexEntry {
        VertexEntry { line: self.line as int, x: self.x@, y: self.y@, z: self.z@ }
    }
}

/// What a mesh text declares.
pub struct MeshOutline {
    /// The vertices in the order of their lines.
    pub vertices: Seq<VertexEntry>,
    /// The faces in the order of their lines, each as three places in
    /// `vertices`, counted from 0.
    pub faces: Seq<Seq<usize>>,
}

/// What a mesh text declares: the vertices in the order of their lines, and
/// the faces in the order of theirs, each as three places in `vertices`,
/// counted from 0.
#[derive(Debug, PartialEq, Eq)]
pub struct MeshSource {
    pub vertices: Vec<VertexText>,
    pub faces: Vec<[usize; 3]>,
}

impl View for MeshSource {
    type V = MeshOutline;

    open spec fn view(&self) -> MeshOutline {
        MeshOutline {
            vertices: self.vertices@.map_values(|v: VertexText| v@),
            faces: self.faces@.map_values(|f: [usize; 3]| f@),
        }
    }
}

/// Whether `field` is the one letter `word`.
pub open spec fn is_word(field: Seq<u8>, word: u8) -> bool {
    field.len() == 1 && field[0] == word
}

/// What `line` says, or what is wrong with it.
///
/// Fields after the fourth are not looked at.
pub open spec fn directive(line: Seq<u8>) -> Result<Directive, LineFault> {
    let fields = split(line, SPACE);
    if is_word(fields[0], VERTEX_WORD) {
        if fields.len() < 4 {
            Err(LineFault::MissingField)
        } else {
            Ok(Directive::Vertex { x: fields[1], y: fields[2], z: fields[3] })
        }
    } else if is_word(fields[0], FACE_WORD) {
        if fields.len() < 4 {
            Err(LineFault::MissingField)
        } else {
            match (decimal_usize(fields[1]), decimal_usize(fields[2]), decimal_usize(fields[3])) {
                (Some(a), Some(b), Some(c)) => Ok(Directive::Face { a, b, c }),
                _ => Err(LineFault::InvalidNumber),
            }
        }
    } else {
        Ok(Directive::Other)
    }
}

/// The vertices that the lines declare, in order. Lines that are not vertex
/// lines add nothing.
pub open spec fn vertex_entries(ls: Seq<Seq<u8>>) -> Seq<VertexEntry>
    decreases ls.len(),
{
    if ls.len() == 0 {
        Seq::<VertexEntry>::empty()
    } else {
        let before = vertex_entries(ls.drop_last());
        match directive(ls.last()) {
            Ok(Directive::Vertex { x, y, z }) => before.push(
                VertexEntry { line: ls.len() as int, x, y, z },
            ),
            _ => before,
        }
    }
}

/// The faces that the lines declare, in order, each with its three vertex
/// numbers as written. Lines that are not face lines add nothing.
pub open spec fn face_entries(ls: Seq<Seq<u8>>) -> Seq<Seq<usize>>
    decreases ls.len(),
{
    if ls.len() == 0 {
        Seq::<Seq<usize>>::empty()
    } else {
        let before = face_entries(ls.drop_last());
        match directive(ls.last()) {
            Ok(Directive::Face { a, b, c }) => before.push(seq![a, b, c]),
            _ => before,
        }
    }
}

/// Whether each of the three numbers of `face` is that of one of `count`
/// vertices numbered from 1.
pub open spec fn names_vertices(face: Seq<usize>, count: int) -> bool {
    &&& 1 <= face[0] <= count
    &&& 1 <= face[1] <= count
    &&& 1 <= face[2] <= count
}

/// A face with each of its vertex numbers one less: counted from 0.
pub open spec fn from_zero(face: Seq<usize>) -> Seq<usize> {
    seq![(face[0] - 1) as usize, (face[1] - 1) as usize, (face[2] - 1) as usize]
}

/// Whether `line`, counted from 1, is the first of `ls` with something wrong,
/// and `fault` is what is wrong with it.
pub open spec fn first_fault(ls: Seq<Seq<u8>>, line: int, fault: LineFault) -> bool {
    &&& 1 <= line <= ls.len()
    &&& directive(ls[line - 1]) == Err::<Directive, LineFault>(fault)
    &&& forall|j: int| 0 <= j < line - 1 ==> (#[trigger] directive(ls[j])) is Ok
}

/// Whether nothing is wrong with any line of `ls`.
pub open spec fn faultless(ls: Seq<Seq<u8>>) -> bool {
    forall|j: int| 0 <= j < ls.len() ==> (#[trigger] directive(ls[j])) is Ok
}

/// Whether `outcome` is what reading `text` as a mesh gives.
///
/// The first line with something wrong decides the error. A text with no
/// such line is refused for the first face that names a vertex which the
/// text does not declare anywhere. Any other text gives its vertices and
/// faces.
pub open spec fn reads_as(text: Seq<u8>, outcome: Result<MeshOutline, LoadError>) -> bool {
    let ls = lines(text);
    let vertices = vertex_entries(ls);
    let faces = face_entries(ls);
    match outcome {
        Err(LoadError::MissingField { line }) => first_fault(
            ls,
            line as int,
            LineFault::MissingField,
        ),
        Err(LoadError::InvalidNumber { line }) => first_fault(
            ls,
            line as int,
            LineFault::InvalidNumber,
        ),
        Err(LoadError::FaceOutOfRange { face }) => {
            &&& faultless(ls)
            &&& face < faces.len()
            &&& !names_vertices(faces[face as int], vertices.len() as int)
            &&& forall|k: int|
                0 <= k < face ==> names_vertices(#[trigger] faces[k], vertices.len() as int)
        },
        Ok(outline) => {
            &&& faultless(ls)
            &&& forall|k: int|
                0 <= k < faces.len() ==> names_vertices(#[trigger] faces[k], vertices.len() as int)
            &&& outline.vertices == vertices
            &&& outline.faces == faces.map_values(|f: Seq<usize>| from_zero(f))
        },
    }
}

/// The outcome of reading over the views of what `parse_mesh` returns.
pub open spec fn outcome_view(r: Result<MeshSource, LoadError>) -> Result<MeshOutline, LoadError> {
    match r {
        Ok(source) => Ok(source@),
        Err(e) => Err(e),
    }
}

/// A text reads as one outcome only.
pub proof fn reads_as_one_outcome(
    text: Seq<u8>,
    first: Result<MeshOutline, LoadError>,
    second: Result<MeshOutline, LoadError>,
)
    requires
        reads_as(text, first),
        reads_as(text, second),
    ensures
        first == second,
{
}

/// A copy of `field`.
fn copy_field(field: &Vec<u8>) -> (out: Vec<u8>)
    ensures
        out@ == field@,
{
    let mut out: Vec<u8> = Vec::new();
    let mut i: usize = 0;
    while i < field.len()
        invariant
            i <= field.len(),
            out@ == field@.take(i as int),
        decreases field.len() - i,
    {
        out.push(field[i]);
        i += 1;
    }
    out
}

/// Reads one line: what it says, or what is wrong with it.
pub fn read_line(line: &[u8]) -> (r: Result<Line, LineFault>)
    ensures
        match r {
            Ok(l) => directive(line@) == Ok::<Directive, LineFault>(l@),
            Err(fault) => directive(line@) == Err::<Directive, LineFault>(fault),
        },
{
    let fields = split_bytes(line, SPACE);
    proof {
        split_pieces_hold_no_separator(line@, SPACE);
    }
    let word = &fields[0];
    let is_vertex = word.len() == 1 && word[0] == VERTEX_WORD;
    let is_face = word.len() == 1 && word[0] == FACE_WORD;
    if is_vertex {
        if fields.len() < 4 {
            return Err(LineFault::MissingField);
        }
        Ok(
            Line::Vertex {
                x: copy_field(&fields[1]),
                y: copy_field(&fields[2]),
                z: copy_field(&fields[3]),
            },
        )
    } else if is_face {
        if fields.len() < 4 {
            return Err(LineFault::MissingField);
        }
        let a = parse_usize(fields[1].as_slice());
        let b = parse_usize(fields[2].as_slice());
        let c = parse_usize(fields[3].as_slice());
        match (a, b, c) {
            (Some(a), Some(b), Some(c)) => Ok(Line::Face { a, b, c }),
            _ => Err(LineFault::InvalidNumber),
        }
    } else {
        Ok(Line::Other)
    }
}

/// One more line read adds its vertex, if it declares one.
proof fn vertex_entries_step(ls: Seq<Seq<u8>>, i: int)
    requires
        0 <= i < ls.len(),
    ensures
        vertex_entries(ls.take(i + 1)) == match directive(ls[i]) {
            Ok(Directive::Vertex { x, y, z }) => vertex_entries(ls.take(i)).push(
                VertexEntry { line: i + 1, x, y, z },
            ),
            _ => vertex_entries(ls.take(i)),
        },
        face_entries(ls.take(i + 1)) == match directive(ls[i]) {
            Ok(Directive::Face { a, b, c }) => face_entries(ls.take(i)).push(seq![a, b, c]),
            _ => face_entries(ls.take(i)),
        },
{
    assert(ls.take(i + 1).drop_last() == ls.take(i));
}

/// Reads a mesh text: its vertices and faces, or why it is refused.
pub fn parse_mesh(text: &[u8]) -> (r: Result<MeshSource, LoadError>)
    ensures
        reads_as(text@, outcome_view(r)),
{
    let ls = split_lines(text);
    let ghost lv = lines(text@);
    let mut vertices: Vec<VertexText> = Vec::new();
    let mut written: Vec<[usize; 3]> = Vec::new();
    let mut i: usize = 0;
    while i < ls.len()
        invariant
            i <= ls.len(),
            lv == lines(text@),
            ls@.len() == lv.len(),
            forall|k: int| 0 <= k < ls@.len() ==> (#[trigger] ls@[k])@ == lv[k],
            forall|j: int| 0 <= j < i ==> (#[trigger] directive(lv[j])) is Ok,
            vertices@.map_values(|v: VertexText| v@) == vertex_entries(lv.take(i as int)),
            written@.map_values(|f: [usize; 3]| f@) == face_entries(lv.take(i as int)),
        decreases ls.len() - i,
    {
        proof {
            vertex_entries_step(lv, i as int);
        }
        let ghost old_vertices = vertices@;
        let ghost old_written = written@;
        match read_line(ls[i].as_slice()) {
            Err(LineFault::MissingField) => {
                return Err(LoadError::MissingField { line: i + 1 });
            },
            Err(LineFault::InvalidNumber) => {
                return Err(LoadError::InvalidNumber { line: i + 1 });
            },
            Ok(Line::Vertex { x, y, z }) => {
                let v = VertexText { line: i + 1, x, y, z };
                vertices.push(v);
                assert(vertices@.map_values(|v: VertexText| v@) == old_vertices.map_values(
                    |v: VertexText| v@,
                ).push(v@));
            },
            Ok(Line::Face { a, b, c }) => {
                let f = [a, b, c];
                written.push(f);
                assert(written@.map_values(|f: [usize; 3]| f@) == old_written.map_values(
                    |f: [usize; 3]| f@,
                ).push(f@));
            },
            Ok(Line::Other) => {},
        }
        i += 1;
    }
    assert(lv.take(ls.len() as int) == lv);
    let count = vertices.len();
    let ghost entries = face_entries(lv);
    let mut faces: Vec<[usize; 3]> = Vec::new();
    let mut k: usize = 0;
    while k < written.len()
        invariant
            k <= written.len(),
            lv == lines(text@),
            faultless(lv),
            entries == face_entries(lv),
            count == vertex_entries(lv).len(),
            written@.map_values(|f: [usize; 3]| f@) == entries,
            forall|m: int| 0 <= m < k ==> names_vertices(#[trigger] entries[m], count as int),
            faces@.map_values(|f: [usize; 3]| f@) == entries.take(k as int).map_values(
                |f: Seq<usize>| from_zero(f),
            ),
        decreases written.len() - k,
    {
        let f = written[k];
        let a = f[0];
        let b = f[1];
        let c = f[2];
        if a < 1 || a > count || b < 1 || b > count || c < 1 || c > count {
            return Err(LoadError::FaceOutOfRange { face: k });
        }
        let g = [a - 1, b - 1, c - 1];
        let ghost old_faces = faces@;
        faces.push(g);
        assert(faces@.map_values(|f: [usize; 3]| f@) == old_faces.map_values(
            |f: [usize; 3]| f@,
        ).push(g@));
        assert(entries.take(k + 1).map_values(|f: Seq<usize>| from_zero(f)) == entries.take(
            k as int,
        ).map_values(|f: Seq<usize>| from_zero(f)).push(from_zero(entries[k as int])));
        k += 1;
    }
    assert(entries.take(written.len() as int) == entries);
    Ok(MeshSource { vertices, faces })
}

} // verus!

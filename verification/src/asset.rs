//! Decoding the two assets of a scene: the description of a mesh and the
//! image of its texture. Both are pure: the caller brings the bytes.

use vstd::prelude::*;
use crate::notation::{read, reading, Datum, Reading, Span};
use crate::texture::{buffer_view, packed, DecodeError, PixelBuffer, Pixels};
use crate::vertex::Number;

verus! {

/// Why a text is no description of a mesh.
#[derive(Debug, Clone, Copy, PartialEq, Eq, Structural)]
pub enum ParseError {
    /// The text did not pass the screen of [`crate::notation`].
    Unreadable,
    /// The text holds no form.
    Empty,
    /// The reader reported a syntax error.
    Syntax(Span),
    /// The form is not a map.
    NotAMap,
    /// The map has no entry under the keyword `vertices`.
    MissingVertices,
    /// The map has no entry under the keyword `indices`.
    MissingIndices,
    /// What stands under `vertices` is not a vector of numbers.
    VerticesNotNumeric,
    /// What stands under `indices` is not a vector of whole numbers.
    IndicesNotWhole,
    /// An index does not fit in 16 bits.
    IndexOutOfRange,
}

/// The flat arrays of a mesh description, each in the order written.
#[derive(Debug)]
pub struct MeshArrays {
    pub vertices: Vec<Number>,
    pub indices: Vec<u16>,
}

/// Whether `entry` stands under the keyword `name`.
pub open spec fn is_under(entry: (Datum, Datum), name: Seq<char>) -> bool {
    entry.0 matches Datum::Keyword(k) && k@ == name
}

/// The value of the first entry at or after `from` that stands under the
/// keyword `name`.
pub open spec fn lookup_from(entries: Seq<(Datum, Datum)>, name: Seq<char>, from: int) -> Option<
    Datum,
>
    decreases entries.len() - from,
{
    if from < 0 || from >= entries.len() {
        None
    } else if is_under(entries[from], name) {
        Some(entries[from].1)
    } else {
        lookup_from(entries, name, from + 1)
    }
}

/// The value that a map holds under the keyword `name`.
pub open spec fn lookup(entries: Seq<(Datum, Datum)>, name: Seq<char>) -> Option<Datum> {
    lookup_from(entries, name, 0)
}

/// The number that a form is, if it is one.
pub open spec fn as_number(datum: Datum) -> Option<Number> {
    match datum {
        Datum::Integer(n) => Some(Number::Integer(n)),
        Datum::Real(bits) => Some(Number::Real(bits)),
        _ => None,
    }
}

/// The whole number that a form is, if it is one.
pub open spec fn as_whole(datum: Datum) -> Option<i64> {
    match datum {
        Datum::Integer(n) => Some(n),
        _ => None,
    }
}

/// The vertex array that a form stands for: a vector, each item a number.
pub open spec fn vertex_array(value: Datum) -> Result<Seq<Number>, ParseError> {
    match value {
        Datum::Vector(items) => {
            if forall|i: int| 0 <= i < items@.len() ==> as_number(#[trigger] items@[i]) is Some {
                Ok(Seq::new(items@.len(), |i: int| as_number(items@[i])->0))
            } else {
                Err(ParseError::VerticesNotNumeric)
            }
        },
        _ => Err(ParseError::VerticesNotNumeric),
    }
}

/// The index array that a form stands for: a vector, each item a whole
/// number from 0 to 65535.
pub open spec fn index_array(value: Datum) -> Result<Seq<u16>, ParseError> {
    match value {
        Datum::Vector(items) => {
            if !(forall|i: int| 0 <= i < items@.len() ==> as_whole(#[trigger] items@[i]) is Some) {
                Err(ParseError::IndicesNotWhole)
            } else if !(forall|i: int|
                0 <= i < items@.len() ==> 0 <= as_whole(#[trigger] items@[i])->0 <= u16::MAX) {
                Err(ParseError::IndexOutOfRange)
            } else {
                Ok(Seq::new(items@.len(), |i: int| as_whole(items@[i])->0 as u16))
            }
        },
        _ => Err(ParseError::IndicesNotWhole),
    }
}

/// The arrays that a form describes: a map with a vertex array under
/// `vertices` and an index array under `indices`. A missing key is reported
/// before a malformed array, and `vertices` before `indices`.
pub open spec fn arrays_of(datum: Datum) -> Result<(Seq<Number>, Seq<u16>), ParseError> {
    match datum {
        Datum::Mapping(entries) => match lookup(entries@, "vertices"@) {
            None => Err(ParseError::MissingVertices),
            Some(v) => match lookup(entries@, "indices"@) {
                None => Err(ParseError::MissingIndices),
                Some(ix) => match vertex_array(v) {
                    Err(e) => Err(e),
                    Ok(vertices) => match index_array(ix) {
                        Err(e) => Err(e),
                        Ok(indices) => Ok((vertices, indices)),
                    },
                },
            },
        },
        _ => Err(ParseError::NotAMap),
    }
}

/// The arrays that the outcome of a reading describes.
pub open spec fn decoded(reading: Reading) -> Result<(Seq<Number>, Seq<u16>), ParseError> {
    match reading {
        Reading::Unreadable => Err(ParseError::Unreadable),
        Reading::Nothing => Err(ParseError::Empty),
        Reading::Malformed(span) => Err(ParseError::Syntax(span)),
        Reading::Form(datum) => arrays_of(datum),
    }
}

/// The contents of a decoding result.
pub open spec fn arrays_view(r: Result<MeshArrays, ParseError>) -> Result<
    (Seq<Number>, Seq<u16>),
    ParseError,
> {
    match r {
        Ok(arrays) => Ok((arrays.vertices@, arrays.indices@)),
        Err(e) => Err(e),
    }
}

/// A description that decodes gives arrays of exactly the lengths written:
/// as many vertex entries as the vector under `vertices` holds, and as many
/// indices as the vector under `indices` holds, each entry in its place.
pub proof fn lemma_arrays_have_the_lengths_written(datum: Datum)
    requires
        arrays_of(datum) is Ok,
    ensures
        datum matches Datum::Mapping(entries) && lookup(entries@, "vertices"@) matches Some(
            Datum::Vector(v),
        ) && lookup(entries@, "indices"@) matches Some(Datum::Vector(ix)) && {
            &&& arrays_of(datum)->Ok_0.0.len() == v@.len()
            &&& arrays_of(datum)->Ok_0.1.len() == ix@.len()
            &&& forall|i: int|
                0 <= i < v@.len() ==> as_number(v@[i]) == Some(
                    #[trigger] arrays_of(datum)->Ok_0.0[i],
                )
            &&& forall|i: int|
                0 <= i < ix@.len() ==> as_whole(ix@[i]) == Some(
                    #[trigger] arrays_of(datum)->Ok_0.1[i] as i64,
                )
        },
{
}

/// A map without an entry under `indices` is no description of a mesh: no
/// empty array stands in for what is missing.
pub proof fn lemma_missing_indices_fail(entries: Vec<(Datum, Datum)>)
    requires
        lookup(entries@, "indices"@) is None,
    ensures
        arrays_of(Datum::Mapping(entries)) is Err,
        lookup(entries@, "vertices"@) is Some ==> arrays_of(Datum::Mapping(entries)) == Err::<
            (Seq<Number>, Seq<u16>),
            ParseError,
        >(ParseError::MissingIndices),
{
}

/// Only a form describes a mesh: a text that does not pass the screen, holds
/// nothing or is malformed decodes to an error.
pub proof fn lemma_only_forms_decode(reading: Reading)
    requires
        decoded(reading) is Ok,
    ensures
        reading matches Reading::Form(datum) && arrays_of(datum) == decoded(reading),
{
}

fn find<'a>(entries: &'a Vec<(Datum, Datum)>, name: &String) -> (r: Option<&'a Datum>)
    ensures
        match r {
            Some(value) => lookup(entries@, name@) == Some(*value),
            None => lookup(entries@, name@) is None,
        },
{
    let mut i: usize = 0;
    while i < entries.len()
        invariant
            0 <= i <= entries.len(),
            lookup(entries@, name@) == lookup_from(entries@, name@, i as int),
        decreases entries.len() - i,
    {
        match &entries[i].0 {
            Datum::Keyword(k) => {
                if *k == *name {
                    return Some(&entries[i].1);
                }
            },
            _ => {},
        }
        i += 1;
    }
    None
}

fn vertices_of(value: &Datum) -> (r: Result<Vec<Number>, ParseError>)
    ensures
        match r {
            Ok(v) => vertex_array(*value) == Ok::<Seq<Number>, ParseError>(v@),
            Err(e) => vertex_array(*value) == Err::<Seq<Number>, ParseError>(e),
        },
{
    match value {
        Datum::Vector(items) => {
            let mut out: Vec<Number> = Vec::new();
            let mut i: usize = 0;
            while i < items.len()
                invariant
                    *value == Datum::Vector(*items),
                    0 <= i <= items.len(),
                    out@.len() == i,
                    forall|j: int| 0 <= j < i ==> as_number(#[trigger] items@[j]) == Some(out@[j]),
                decreases items.len() - i,
            {
                match &items[i] {
                    Datum::Integer(n) => out.push(Number::Integer(*n)),
                    Datum::Real(bits) => out.push(Number::Real(*bits)),
                    _ => {
                        assert(as_number(items@[i as int]) is None);
                        return Err(ParseError::VerticesNotNumeric);
                    },
                }
                i += 1;
            }
            assert(out@ =~= Seq::new(items@.len(), |i: int| as_number(items@[i])->0));
            Ok(out)
        },
        _ => Err(ParseError::VerticesNotNumeric),
    }
}

fn indices_of(value: &Datum) -> (r: Result<Vec<u16>, ParseError>)
    ensures
        match r {
            Ok(v) => index_array(*value) == Ok::<Seq<u16>, ParseError>(v@),
            Err(e) => index_array(*value) == Err::<Seq<u16>, ParseError>(e),
        },
{
    match value {
        Datum::Vector(items) => {
            let mut i: usize = 0;
            while i < items.len()
                invariant
                    *value == Datum::Vector(*items),
                    0 <= i <= items.len(),
                    forall|j: int| 0 <= j < i ==> as_whole(#[trigger] items@[j]) is Some,
                decreases items.len() - i,
            {
                match &items[i] {
                    Datum::Integer(_) => {},
                    _ => {
                        assert(as_whole(items@[i as int]) is None);
                        return Err(ParseError::IndicesNotWhole);
                    },
                }
                i += 1;
            }
            let mut out: Vec<u16> = Vec::new();
            let mut k: usize = 0;
            while k < items.len()
                invariant
                    *value == Datum::Vector(*items),
                    0 <= k <= items.len(),
                    out@.len() == k,
                    forall|j: int| 0 <= j < items.len() ==> as_whole(#[trigger] items@[j]) is Some,
                    forall|j: int|
                        0 <= j < k ==> 0 <= as_whole(#[trigger] items@[j])->0 <= u16::MAX
                            && out@[j] == as_whole(items@[j])->0 as u16,
                decreases items.len() - k,
            {
                match &items[k] {
                    Datum::Integer(n) => {
                        if *n < 0 || *n > 65535 {
                            assert(!(0 <= as_whole(items@[k as int])->0 <= u16::MAX));
                            return Err(ParseError::IndexOutOfRange);
                        }
                        out.push(*n as u16);
                    },
                    _ => {
                        assert(as_whole(items@[k as int]) is Some);
                    },
                }
                k += 1;
            }
            assert(out@ =~= Seq::new(items@.len(), |i: int| as_whole(items@[i])->0 as u16));
            Ok(out)
        },
        _ => Err(ParseError::IndicesNotWhole),
    }
}

/// The arrays that the outcome of a reading describes, or why it describes
/// none.
pub fn mesh_from_reading(reading: &Reading) -> (r: Result<MeshArrays, ParseError>)
    ensures
        arrays_view(r) == decoded(*reading),
{
    match reading {
        Reading::Unreadable => Err(ParseError::Unreadable),
        Reading::Nothing => Err(ParseError::Empty),
        Reading::Malformed(span) => Err(ParseError::Syntax(*span)),
        Reading::Form(datum) => match datum {
            Datum::Mapping(entries) => {
                let vertices_key = "vertices".to_owned();
                let indices_key = "indices".to_owned();
                let v = match find(entries, &vertices_key) {
                    None => { return Err(ParseError::MissingVertices); },
                    Some(v) => v,
                };
                let ix = match find(entries, &indices_key) {
                    None => { return Err(ParseError::MissingIndices); },
                    Some(ix) => ix,
                };
                let vertices = match vertices_of(v) {
                    Err(e) => { return Err(e); },
                    Ok(vertices) => vertices,
                };
                let indices = match indices_of(ix) {
                    Err(e) => { return Err(e); },
                    Ok(indices) => indices,
                };
                Ok(MeshArrays { vertices, indices })
            },
            _ => Err(ParseError::NotAMap),
        },
    }
}

/// Decodes the description of a mesh: a map that holds a vector of numbers
/// under the keyword `vertices` and a vector of whole numbers under the
/// keyword `indices`.
pub fn decode_mesh(text: &str) -> (r: Result<MeshArrays, ParseError>)
    ensures
        arrays_view(r) == decoded(reading(text@)),
{
    let outcome = read(text);
    mesh_from_reading(&outcome)
}

/// `image::ImageError`, the decoder's own error type. Nothing is read of
/// it.
#[verifier::external_type_specification]
#[verifier::external_body]
pub struct ExImageError(image::ImageError);

/// What `image::load` gives for `bytes` read as PNG, once converted by
/// `DynamicImage::to_rgba8`: the width, the height and the pixel bytes;
/// `None` where the decoder reports an error.
pub uninterp spec fn png_rgba(bytes: Seq<u8>) -> Option<(u32, u32, Seq<u8>)>;

/// Calls `image::load` on `bytes` with the PNG format, converts what it
/// gives with `DynamicImage::to_rgba8`, and takes the result apart with
/// `ImageBuffer::dimensions` and `ImageBuffer::into_raw`. The contract claims
/// that the outcome depends on the bytes alone; it claims nothing of the
/// length of the pixel bytes.
#[verifier::external_body]
fn load_png(bytes: &[u8]) -> (r: Result<(u32, u32, Vec<u8>), image::ImageError>)
    ensures
        match r {
            Ok((width, height, data)) => png_rgba(bytes@) == Some((width, height, data@)),
            Err(_) => png_rgba(bytes@) is None,
        },
{
    let img = image::load(std::io::Cursor::new(bytes), image::ImageFormat::Png)?.to_rgba8();
    let (width, height) = img.dimensions();
    Ok((width, height, img.into_raw()))
}

/// The image that the outcome of the decoder is: none where the decoder
/// failed, and none where it gave pixel bytes of the wrong length.
pub open spec fn image_of(raw: Option<(u32, u32, Seq<u8>)>) -> Result<Pixels, DecodeError> {
    match raw {
        None => Err(DecodeError::Malformed),
        Some((width, height, data)) => packed(width, height, data),
    }
}

/// Whatever the decoder gives, an image that comes out is packed: its pixel
/// bytes are width times height times four. Where the decoder fails, or
/// gives bytes of another length, no image comes out.
pub proof fn lemma_images_are_packed(raw: Option<(u32, u32, Seq<u8>)>)
    ensures
        match image_of(raw) {
            Ok(pixels) => raw == Some((pixels.width, pixels.height, pixels.data))
                && pixels.data.len() == pixels.width * pixels.height * 4,
            Err(DecodeError::Malformed) => raw is None,
            Err(DecodeError::WrongSize) => raw matches Some((width, height, data)) && data.len()
                != width * height * 4,
        },
{
}

/// Decodes a PNG image to tightly packed RGBA.
pub fn decode_image(bytes: &[u8]) -> (r: Result<PixelBuffer, DecodeError>)
    ensures
        buffer_view(r) == image_of(png_rgba(bytes@)),
        r matches Ok(buffer) ==> buffer@.wf(),
{
    match load_png(bytes) {
        Err(_) => Err(DecodeError::Malformed),
        Ok((width, height, data)) => PixelBuffer::from_raw(width, height, data),
    }
}

} // verus!

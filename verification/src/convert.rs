use vstd::prelude::*;
use vstd::string::StringExecFns;
use crate::catalog::ExamFormat;
use crate::catalog::ExamFormatSpec;
use crate::catalog::has_format;
use crate::catalog::has_requirements;
use crate::catalog::lookup;
use crate::catalog::requirements;
use crate::catalog::spec_format;
use crate::catalog::spec_requirements;
use crate::clock::spec_date_token;
use crate::clock::utc_date_compact;
use crate::imaging::decode_raster;
use crate::imaging::decoded_props;
use crate::imaging::encode_jpeg;
use crate::imaging::resize_exact_raster;
use crate::imaging::spec_decoded_dims;
use crate::imaging::spec_fits_decode_limit;
use crate::imaging::spec_jpeg_color;
use crate::imaging::spec_props_encodable;
use crate::imaging::spec_props_self_encodable;
use crate::imaging::spec_roundtrip_dims;
use crate::naming::generate_filename;
use crate::naming::lemma_format_wf;
use crate::naming::spec_filename;
use crate::strutil::str_eq;
use vstd::slice::slice_to_vec;

verus! {

/// Why a conversion failed. Decode and encode failures carry the codec's own
/// diagnostic text.
#[derive(Debug)]
pub enum ConversionError {
    UnsupportedExam,
    DecodeError(String),
    EncodeError(String),
}

impl ConversionError {
    /// The human-readable message that the boundary surfaces for this error.
    pub fn message(&self) -> (r: String)
        ensures
            self is UnsupportedExam ==> r@ == "Unsupported exam type"@,
            self matches ConversionError::DecodeError(m) ==> r@ == "Failed to load image: "@
                + m@,
            self matches ConversionError::EncodeError(m) ==> r@ == "Failed to encode image: "@
                + m@,
    {
        match self {
            ConversionError::UnsupportedExam => String::from_str("Unsupported exam type"),
            ConversionError::DecodeError(m) => String::from_str("Failed to load image: ").concat(
                m.as_str(),
            ),
            ConversionError::EncodeError(m) => String::from_str("Failed to encode image: ").concat(
                m.as_str(),
            ),
        }
    }
}

/// A converted document: the generated filename, the output bytes, the
/// caller's document-type tag, and the exam's output-format string.
#[derive(Debug)]
pub struct ConvertedDocument {
    pub name: String,
    pub data: Vec<u8>,
    pub document_type: String,
    pub format: String,
}

/// The document types that are forced to a fixed target size; every other tag
/// takes the generic path.
pub open spec fn spec_is_fixed_target(doc_type: Seq<char>) -> bool {
    ||| doc_type == "passport_photo"@
    ||| doc_type == "signature"@
    ||| doc_type == "thumb_impression"@
}

/// The pixel dimensions that a fixed-size document type is forced to under
/// the given format: the photo dimensions for a passport photo, the signature
/// dimensions for a signature, and a square of side signature height for a
/// thumb impression.
pub open spec fn spec_target_dims(doc_type: Seq<char>, f: ExamFormatSpec) -> (u32, u32) {
    if doc_type == "passport_photo"@ {
        (f.photo_width, f.photo_height)
    } else if doc_type == "signature"@ {
        (f.signature_width, f.signature_height)
    } else {
        (f.signature_height, f.signature_height)
    }
}

/// Whether the conversion's re-encode step succeeds for an input with the
/// given decoded properties: the encoder must accept the decoded color at the
/// fixed target dimensions for the three sized document types, and at the
/// decoded dimensions themselves on the generic path.
pub open spec fn spec_encode_ok(
    doc_type: Seq<char>,
    f: ExamFormatSpec,
    props: Option<(u32, u32, u8)>,
) -> bool {
    if spec_is_fixed_target(doc_type) {
        spec_props_encodable(
            props,
            spec_target_dims(doc_type, f).0,
            spec_target_dims(doc_type, f).1,
        )
    } else {
        spec_props_self_encodable(props)
    }
}

/// Passport photo policy: decode, force to the exam's photo dimensions, and
/// re-encode as JPEG at quality 90.
fn convert_photo(data: &[u8], format: &ExamFormat) -> (r: Result<Vec<u8>, ConversionError>)
    requires
        format.photo_width >= 1,
        format.photo_height >= 1,
    ensures
        (r matches Err(ConversionError::DecodeError(_))) <==> decoded_props(data@) is None,
        !(r matches Err(ConversionError::UnsupportedExam)),
        decoded_props(data@) is Some ==> (r is Ok <==> spec_props_encodable(
            decoded_props(data@),
            format.photo_width,
            format.photo_height,
        )),
        r matches Ok(out) ==> (spec_fits_decode_limit(format.photo_width, format.photo_height)
            ==> spec_decoded_dims(out@) == Some((format.photo_width, format.photo_height))
                && spec_jpeg_color(decoded_props(out@))),
{
    let img = match decode_raster(data) {
        Ok(i) => i,
        Err(m) => {
            return Err(ConversionError::DecodeError(m));
        },
    };
    let resized = resize_exact_raster(&img, format.photo_width, format.photo_height);
    match encode_jpeg(&resized, 90) {
        Ok(bytes) => Ok(bytes),
        Err(m) => Err(ConversionError::EncodeError(m)),
    }
}

/// Signature policy: the same pipeline, at the exam's signature dimensions.
fn convert_signature(data: &[u8], format: &ExamFormat) -> (r: Result<Vec<u8>, ConversionError>)
    requires
        format.signature_width >= 1,
        format.signature_height >= 1,
    ensures
        (r matches Err(ConversionError::DecodeError(_))) <==> decoded_props(data@) is None,
        !(r matches Err(ConversionError::UnsupportedExam)),
        decoded_props(data@) is Some ==> (r is Ok <==> spec_props_encodable(
            decoded_props(data@),
            format.signature_width,
            format.signature_height,
        )),
        r matches Ok(out) ==> (spec_fits_decode_limit(
            format.signature_width,
            format.signature_height,
        ) ==> spec_decoded_dims(out@) == Some((format.signature_width, format.signature_height))
            && spec_jpeg_color(decoded_props(out@))),
{
    let img = match decode_raster(data) {
        Ok(i) => i,
        Err(m) => {
            return Err(ConversionError::DecodeError(m));
        },
    };
    let resized = resize_exact_raster(&img, format.signature_width, format.signature_height);
    match encode_jpeg(&resized, 90) {
        Ok(bytes) => Ok(bytes),
        Err(m) => Err(ConversionError::EncodeError(m)),
    }
}

/// Thumb impression policy: the same pipeline, forced to a square whose side
/// is the exam's signature height (a deliberate reuse, not a separately
/// configured size).
fn convert_thumb_impression(data: &[u8], format: &ExamFormat) -> (r: Result<
    Vec<u8>,
    ConversionError,
>)
    requires
        format.signature_height >= 1,
    ensures
        (r matches Err(ConversionError::DecodeError(_))) <==> decoded_props(data@) is None,
        !(r matches Err(ConversionError::UnsupportedExam)),
        decoded_props(data@) is Some ==> (r is Ok <==> spec_props_encodable(
            decoded_props(data@),
            format.signature_height,
            format.signature_height,
        )),
        r matches Ok(out) ==> (spec_fits_decode_limit(
            format.signature_height,
            format.signature_height,
        ) ==> spec_decoded_dims(out@) == Some((format.signature_height, format.signature_height))
            && spec_jpeg_color(decoded_props(out@))),
{
    let img = match decode_raster(data) {
        Ok(i) => i,
        Err(m) => {
            return Err(ConversionError::DecodeError(m));
        },
    };
    let size = format.signature_height;
    let resized = resize_exact_raster(&img, size, size);
    match encode_jpeg(&resized, 90) {
        Ok(bytes) => Ok(bytes),
        Err(m) => Err(ConversionError::EncodeError(m)),
    }
}

/// Generic document policy: bytes that decode as a raster image are re-encoded
/// as JPEG at quality 95 with their dimensions preserved; bytes that do not
/// decode are passed through unchanged. This is the one branch that never
/// fails on non-image input.
fn convert_document_generic(data: &[u8], _format: &ExamFormat, _doc_type: &str) -> (r: Result<
    Vec<u8>,
    ConversionError,
>)
    ensures
        decoded_props(data@) is None ==> (r matches Ok(out) && out@ == data@),
        decoded_props(data@) is Some ==> (r is Ok <==> spec_props_self_encodable(
            decoded_props(data@),
        )),
        r matches Ok(out) ==> (spec_roundtrip_dims(decoded_props(data@)) ==> spec_decoded_dims(
            out@,
        ) == spec_decoded_dims(data@) && spec_jpeg_color(decoded_props(out@))),
        r matches Err(e) ==> (e matches ConversionError::EncodeError(_)) && decoded_props(data@)
            is Some,
{
    match decode_raster(data) {
        Ok(img) => match encode_jpeg(&img, 95) {
            Ok(bytes) => Ok(bytes),
            Err(m) => Err(ConversionError::EncodeError(m)),
        },
        Err(_) => Ok(slice_to_vec(data)),
    }
}

/// Converts a document for an exam with the date token supplied by the caller.
/// Resolves the exam's format, dispatches on the document type, and assembles
/// the converted bytes with the generated filename.
pub fn convert_document_at(
    file_data: &[u8],
    document_type: &str,
    exam_type: &str,
    filename: &str,
    date: &str,
) -> (r: Result<ConvertedDocument, ConversionError>)
    ensures
        (r matches Err(ConversionError::UnsupportedExam)) <==> !has_format(exam_type@),
        (r matches Err(ConversionError::DecodeError(_))) <==> (has_format(exam_type@)
            && spec_is_fixed_target(document_type@) && decoded_props(file_data@) is None),
        has_format(exam_type@) && decoded_props(file_data@) is Some ==> (r is Ok
            <==> spec_encode_ok(document_type@, spec_format(exam_type@), decoded_props(file_data@))),
        (r matches Err(ConversionError::EncodeError(_))) <==> (has_format(exam_type@)
            && decoded_props(file_data@) is Some && !spec_encode_ok(
            document_type@,
            spec_format(exam_type@),
            decoded_props(file_data@),
        )),
        has_format(exam_type@) && !spec_is_fixed_target(document_type@) && decoded_props(
            file_data@,
        ) is None ==> r is Ok,
        r matches Ok(doc) ==> {
            &&& has_format(exam_type@)
            &&& doc.document_type@ == document_type@
            &&& doc.format@ == spec_format(exam_type@).format
            &&& doc.name@ == spec_filename(
                document_type@,
                spec_format(exam_type@).naming,
                spec_format(exam_type@).format,
                date@,
            )
            &&& (spec_is_fixed_target(document_type@) ==> spec_decoded_dims(doc.data@) == Some(
                spec_target_dims(document_type@, spec_format(exam_type@)),
            ) && spec_jpeg_color(decoded_props(doc.data@)))
            &&& (!spec_is_fixed_target(document_type@) && decoded_props(file_data@) is None
                ==> doc.data@ == file_data@)
            &&& (!spec_is_fixed_target(document_type@) && spec_roundtrip_dims(
                decoded_props(file_data@),
            ) ==> spec_decoded_dims(doc.data@) == spec_decoded_dims(file_data@)
                && spec_jpeg_color(decoded_props(doc.data@)))
        },
{
    let format = match lookup(exam_type) {
        Some(f) => f,
        None => {
            return Err(ConversionError::UnsupportedExam);
        },
    };
    proof {
        lemma_format_wf(exam_type@);
    }
    let converted: Result<Vec<u8>, ConversionError> = if str_eq(document_type, "passport_photo") {
        convert_photo(file_data, &format)
    } else if str_eq(document_type, "signature") {
        convert_signature(file_data, &format)
    } else if str_eq(document_type, "thumb_impression") {
        convert_thumb_impression(file_data, &format)
    } else {
        convert_document_generic(file_data, &format, document_type)
    };
    let bytes = match converted {
        Ok(b) => b,
        Err(e) => {
            return Err(e);
        },
    };
    let name = generate_filename(document_type, &format, filename, date);
    let tag = String::from_str(document_type);
    let format_name = format.format.clone();
    Ok(ConvertedDocument { name, data: bytes, document_type: tag, format: format_name })
}

/// Converts a document for an exam, stamping the filename with the current UTC
/// date. Everything but the date stamp is pinned by the contract of
/// `convert_document_at`, which this function applies to the date read from
/// the clock.
pub fn convert_document(
    file_data: &[u8],
    document_type: &str,
    exam_type: &str,
    filename: &str,
) -> (r: Result<ConvertedDocument, ConversionError>)
    ensures
        (r matches Err(ConversionError::UnsupportedExam)) <==> !has_format(exam_type@),
        (r matches Err(ConversionError::DecodeError(_))) <==> (has_format(exam_type@)
            && spec_is_fixed_target(document_type@) && decoded_props(file_data@) is None),
        has_format(exam_type@) && decoded_props(file_data@) is Some ==> (r is Ok
            <==> spec_encode_ok(document_type@, spec_format(exam_type@), decoded_props(file_data@))),
        (r matches Err(ConversionError::EncodeError(_))) <==> (has_format(exam_type@)
            && decoded_props(file_data@) is Some && !spec_encode_ok(
            document_type@,
            spec_format(exam_type@),
            decoded_props(file_data@),
        )),
        has_format(exam_type@) && !spec_is_fixed_target(document_type@) && decoded_props(
            file_data@,
        ) is None ==> r is Ok,
        r matches Ok(doc) ==> {
            &&& has_format(exam_type@)
            &&& doc.document_type@ == document_type@
            &&& doc.format@ == spec_format(exam_type@).format
            &&& exists|d: Seq<char>|
                spec_date_token(d) && doc.name@ == spec_filename(
                    document_type@,
                    spec_format(exam_type@).naming,
                    spec_format(exam_type@).format,
                    d,
                )
            &&& (spec_is_fixed_target(document_type@) ==> spec_decoded_dims(doc.data@) == Some(
                spec_target_dims(document_type@, spec_format(exam_type@)),
            ) && spec_jpeg_color(decoded_props(doc.data@)))
            &&& (!spec_is_fixed_target(document_type@) && decoded_props(file_data@) is None
                ==> doc.data@ == file_data@)
            &&& (!spec_is_fixed_target(document_type@) && spec_roundtrip_dims(
                decoded_props(file_data@),
            ) ==> spec_decoded_dims(doc.data@) == spec_decoded_dims(file_data@)
                && spec_jpeg_color(decoded_props(doc.data@)))
        },
{
    let date = utc_date_compact();
    let r = convert_document_at(file_data, document_type, exam_type, filename, date.as_str());
    proof {
        if r is Ok {
            assert(spec_date_token(date@) && (r->Ok_0).name@ == spec_filename(
                document_type@,
                spec_format(exam_type@).naming,
                spec_format(exam_type@).format,
                date@,
            ));
        }
    }
    r
}

/// Law: a fixed-size conversion's output can be converted again. The output
/// decodes to the exam's target dimensions in a color the JPEG encoder
/// accepts, so the conversion contracts owe a repeated run on that output
/// success at the same dimensions. Whether the re-encoded bytes equal the
/// first output byte for byte is a property of the codec that no contract
/// here states.
pub proof fn lemma_reconverted_output_accepted(exam: Seq<char>, doc_type: Seq<char>, out: Seq<u8>)
    requires
        has_format(exam),
        spec_is_fixed_target(doc_type),
        spec_decoded_dims(out) == Some(spec_target_dims(doc_type, spec_format(exam))),
        spec_jpeg_color(decoded_props(out)),
    ensures
        decoded_props(out) is Some,
        spec_encode_ok(doc_type, spec_format(exam), decoded_props(out)),
{
    lemma_format_wf(exam);
}

/// The ordered document-type tags that the given exam requires, or the
/// unsupported-exam error for an identifier outside the catalog.
pub fn get_exam_requirements(exam_type: &str) -> (r: Result<Vec<String>, ConversionError>)
    ensures
        r is Ok <==> has_requirements(exam_type@),
        r matches Ok(v) ==> v.deep_view() == spec_requirements(exam_type@),
        r matches Err(e) ==> e is UnsupportedExam,
{
    match requirements(exam_type) {
        Some(v) => Ok(v),
        None => Err(ConversionError::UnsupportedExam),
    }
}

} // verus!

use vstd::prelude::*;
use vstd::string::StrSliceExecFns;
use vstd::string::StringExecFns;
use crate::catalog::ExamFormat;
use crate::catalog::has_format;
use crate::catalog::spec_format;
use crate::imaging::spec_fits_decode_limit;
use crate::strutil::str_eq;

verus! {

broadcast use vstd::string::group_string_axioms;

/// The placeholder that every naming template carries as its suffix.
pub open spec fn placeholder() -> Seq<char> {
    "{document_type}"@
}

/// A naming template is well formed when the placeholder occurs in it exactly
/// once, as its suffix.
pub open spec fn template_wf(naming: Seq<char>) -> bool {
    &&& naming.len() >= placeholder().len()
    &&& naming.subrange(naming.len() - placeholder().len(), naming.len() as int)
        == placeholder()
    &&& forall|i: int|
        0 <= i < naming.len() - placeholder().len() ==> #[trigger] naming.subrange(
            i,
            i + placeholder().len(),
        ) != placeholder()
}

/// Every record in the format table is well formed: its naming template
/// carries the placeholder exactly once, as its suffix; its output encoding
/// is JPEG; and its target dimensions are positive, fit a JPEG frame header,
/// and stay within the decoder's allocation limit.
pub proof fn lemma_format_wf(exam: Seq<char>)
    requires
        has_format(exam),
    ensures
        template_wf(spec_format(exam).naming),
        spec_format(exam).format == "JPEG"@,
        spec_format(exam).photo_width >= 1,
        spec_format(exam).photo_height >= 1,
        spec_format(exam).signature_width >= 1,
        spec_format(exam).signature_height >= 1,
        spec_format(exam).photo_width <= 65535,
        spec_format(exam).photo_height <= 65535,
        spec_format(exam).signature_width <= 65535,
        spec_format(exam).signature_height <= 65535,
        spec_fits_decode_limit(spec_format(exam).photo_width, spec_format(exam).photo_height),
        spec_fits_decode_limit(
            spec_format(exam).signature_width,
            spec_format(exam).signature_height,
        ),
        spec_fits_decode_limit(
            spec_format(exam).signature_height,
            spec_format(exam).signature_height,
        ),
{
    reveal_strlit("{document_type}");
    reveal_strlit("NEET_{document_type}");
    reveal_strlit("JEE_{document_type}");
    reveal_strlit("UPSC_{document_type}");
    reveal_strlit("CAT_{document_type}");
    reveal_strlit("GATE_{document_type}");
    let naming = spec_format(exam).naming;
    assert(placeholder().len() == 15);
    assert(placeholder()[0] == '{');
    let prefix_len = naming.len() - placeholder().len();
    if exam == "neet"@ {
        assert(naming.len() == 20);
        assert(naming.subrange(5, 20) =~= placeholder());
    } else if exam == "jee"@ {
        assert(naming.len() == 19);
        assert(naming.subrange(4, 19) =~= placeholder());
    } else if exam == "upsc"@ {
        assert(naming.len() == 20);
        assert(naming.subrange(5, 20) =~= placeholder());
    } else if exam == "cat"@ {
        assert(naming.len() == 19);
        assert(naming.subrange(4, 19) =~= placeholder());
    } else {
        assert(naming.len() == 20);
        assert(naming.subrange(5, 20) =~= placeholder());
    }
    assert(spec_fits_decode_limit(350, 450));
    assert(spec_fits_decode_limit(350, 150));
    assert(spec_fits_decode_limit(150, 150));
    assert(spec_fits_decode_limit(400, 500));
    assert(spec_fits_decode_limit(400, 200));
    assert(spec_fits_decode_limit(200, 200));
    assert forall|i: int| 0 <= i < prefix_len implies #[trigger] naming.subrange(
        i,
        i + placeholder().len(),
    ) != placeholder() by {
        assert(naming[i] != '{');
        assert(naming.subrange(i, i + placeholder().len())[0] == naming[i]);
    }
}

/// The human-readable display label of a document-type tag; tags outside the
/// closed set fall back to the generic label.
pub open spec fn spec_label(doc_type: Seq<char>) -> Seq<char> {
    if doc_type == "passport_photo"@ {
        "Photo"@
    } else if doc_type == "signature"@ {
        "Signature"@
    } else if doc_type == "thumb_impression"@ {
        "Thumb_Impression"@
    } else if doc_type == "aadhar_card"@ {
        "Aadhar_Card"@
    } else if doc_type == "10th_marksheet"@ {
        "10th_Marksheet"@
    } else if doc_type == "12th_marksheet"@ {
        "12th_Marksheet"@
    } else if doc_type == "graduation_certificate"@ {
        "Graduation_Certificate"@
    } else if doc_type == "community_certificate"@ {
        "Community_Certificate"@
    } else if doc_type == "income_certificate"@ {
        "Income_Certificate"@
    } else if doc_type == "pwd_certificate"@ {
        "PwD_Certificate"@
    } else {
        "Document"@
    }
}

/// The display label for a document-type tag: an exhaustive closed-set lookup
/// with an explicit generic fallback, never an error.
pub fn document_label(doc_type: &str) -> (r: &'static str)
    ensures
        r@ == spec_label(doc_type@),
{
    if str_eq(doc_type, "passport_photo") {
        "Photo"
    } else if str_eq(doc_type, "signature") {
        "Signature"
    } else if str_eq(doc_type, "thumb_impression") {
        "Thumb_Impression"
    } else if str_eq(doc_type, "aadhar_card") {
        "Aadhar_Card"
    } else if str_eq(doc_type, "10th_marksheet") {
        "10th_Marksheet"
    } else if str_eq(doc_type, "12th_marksheet") {
        "12th_Marksheet"
    } else if str_eq(doc_type, "graduation_certificate") {
        "Graduation_Certificate"
    } else if str_eq(doc_type, "community_certificate") {
        "Community_Certificate"
    } else if str_eq(doc_type, "income_certificate") {
        "Income_Certificate"
    } else if str_eq(doc_type, "pwd_certificate") {
        "PwD_Certificate"
    } else {
        "Document"
    }
}

/// The filename extension that an exam's output encoding dictates.
pub open spec fn spec_extension(format: Seq<char>) -> Seq<char> {
    if format == "JPEG"@ {
        "jpg"@
    } else {
        "pdf"@
    }
}

/// The output filename: the naming template with its placeholder replaced by
/// the document-type label, then the date token, then the extension.
pub open spec fn spec_filename(
    doc_type: Seq<char>,
    naming: Seq<char>,
    format: Seq<char>,
    date: Seq<char>,
) -> Seq<char> {
    naming.subrange(0, naming.len() - placeholder().len()) + spec_label(doc_type) + "_"@
        + date + "."@ + spec_extension(format)
}

/// Builds the output filename for a document of the given type under the given
/// exam format, stamped with the given date token. The original filename plays
/// no part in the result. Filename generation has no error path: unknown
/// document types degrade to the generic label.
///
/// Well-formedness (`template_wf`) pins the placeholder to a single suffix
/// occurrence, so replacing that suffix is the same as replacing every
/// occurrence of the placeholder.
pub fn generate_filename(doc_type: &str, format: &ExamFormat, _original: &str, date: &str) -> (r:
    String)
    requires
        template_wf(format.naming_convention@),
    ensures
        r@ == spec_filename(doc_type@, format@.naming, format@.format, date@),
{
    proof {
        reveal_strlit("{document_type}");
    }
    let extension: &str = if str_eq(format.format.as_str(), "JPEG") {
        "jpg"
    } else {
        "pdf"
    };
    let nc: &str = format.naming_convention.as_str();
    let n = nc.unicode_len();
    let prefix = nc.substring_char(0, n - 15);
    let label = document_label(doc_type);
    let mut name = String::from_str(prefix);
    name.append(label);
    name.append("_");
    name.append(date);
    name.append(".");
    name.append(extension);
    name
}

} // verus!

use vstd::prelude::*;
use vstd::string::StringExecFns;
use crate::strutil::str_eq;

verus! {

/// Per-exam output specification: target pixel dimensions for photos and
/// signatures, resolution, output encoding, and the file-naming template,
/// which carries a `{document_type}` placeholder as its suffix.
pub struct ExamFormat {
    pub photo_width: u32,
    pub photo_height: u32,
    pub signature_width: u32,
    pub signature_height: u32,
    pub dpi: u32,
    pub format: String,
    pub naming_convention: String,
}

/// Mathematical image of an `ExamFormat`: the same record with the strings
/// taken as character sequences.
#[verifier::ext_equal]
pub struct ExamFormatSpec {
    pub photo_width: u32,
    pub photo_height: u32,
    pub signature_width: u32,
    pub signature_height: u32,
    pub dpi: u32,
    pub format: Seq<char>,
    pub naming: Seq<char>,
}

impl View for ExamFormat {
    type V = ExamFormatSpec;

    open spec fn view(&self) -> ExamFormatSpec {
        ExamFormatSpec {
            photo_width: self.photo_width,
            photo_height: self.photo_height,
            signature_width: self.signature_width,
            signature_height: self.signature_height,
            dpi: self.dpi,
            format: self.format@,
            naming: self.naming_convention@,
        }
    }
}

/// The exam identifiers present in the format table.
pub open spec fn has_format(exam: Seq<char>) -> bool {
    ||| exam == "neet"@
    ||| exam == "jee"@
    ||| exam == "upsc"@
    ||| exam == "cat"@
    ||| exam == "gate"@
}

/// The format table: the record that `lookup` returns for each supported
/// exam identifier.
pub open spec fn spec_format(exam: Seq<char>) -> ExamFormatSpec {
    if exam == "neet"@ {
        ExamFormatSpec {
            photo_width: 350,
            photo_height: 450,
            signature_width: 350,
            signature_height: 150,
            dpi: 100,
            format: "JPEG"@,
            naming: "NEET_{document_type}"@,
        }
    } else if exam == "jee"@ {
        ExamFormatSpec {
            photo_width: 350,
            photo_height: 450,
            signature_width: 350,
            signature_height: 150,
            dpi: 100,
            format: "JPEG"@,
            naming: "JEE_{document_type}"@,
        }
    } else if exam == "upsc"@ {
        ExamFormatSpec {
            photo_width: 400,
            photo_height: 500,
            signature_width: 400,
            signature_height: 200,
            dpi: 100,
            format: "JPEG"@,
            naming: "UPSC_{document_type}"@,
        }
    } else if exam == "cat"@ {
        ExamFormatSpec {
            photo_width: 350,
            photo_height: 450,
            signature_width: 350,
            signature_height: 150,
            dpi: 100,
            format: "JPEG"@,
            naming: "CAT_{document_type}"@,
        }
    } else if exam == "gate"@ {
        ExamFormatSpec {
            photo_width: 350,
            photo_height: 450,
            signature_width: 350,
            signature_height: 150,
            dpi: 100,
            format: "JPEG"@,
            naming: "GATE_{document_type}"@,
        }
    } else {
        vstd::pervasive::arbitrary()
    }
}

/// Looks an exam identifier up in the format table: exact, case-sensitive
/// match over the closed identifier set, with no fallback.
pub fn lookup(exam_type: &str) -> (r: Option<ExamFormat>)
    ensures
        r is Some <==> has_format(exam_type@),
        r matches Some(f) ==> f@ == spec_format(exam_type@),
{
    if str_eq(exam_type, "neet") {
        Some(ExamFormat {
            photo_width: 350,
            photo_height: 450,
            signature_width: 350,
            signature_height: 150,
            dpi: 100,
            format: String::from_str("JPEG"),
            naming_convention: String::from_str("NEET_{document_type}"),
        })
    } else if str_eq(exam_type, "jee") {
        Some(ExamFormat {
            photo_width: 350,
            photo_height: 450,
            signature_width: 350,
            signature_height: 150,
            dpi: 100,
            format: String::from_str("JPEG"),
            naming_convention: String::from_str("JEE_{document_type}"),
        })
    } else if str_eq(exam_type, "upsc") {
        Some(ExamFormat {
            photo_width: 400,
            photo_height: 500,
            signature_width: 400,
            signature_height: 200,
            dpi: 100,
            format: String::from_str("JPEG"),
            naming_convention: String::from_str("UPSC_{document_type}"),
        })
    } else if str_eq(exam_type, "cat") {
        Some(ExamFormat {
            photo_width: 350,
            photo_height: 450,
            signature_width: 350,
            signature_height: 150,
            dpi: 100,
            format: String::from_str("JPEG"),
            naming_convention: String::from_str("CAT_{document_type}"),
        })
    } else if str_eq(exam_type, "gate") {
        Some(ExamFormat {
            photo_width: 350,
            photo_height: 450,
            signature_width: 350,
            signature_height: 150,
            dpi: 100,
            format: String::from_str("JPEG"),
            naming_convention: String::from_str("GATE_{document_type}"),
        })
    } else {
        None
    }
}

/// The exam identifiers present in the requirements table.
pub open spec fn has_requirements(exam: Seq<char>) -> bool {
    ||| exam == "neet"@
    ||| exam == "jee"@
    ||| exam == "upsc"@
    ||| exam == "cat"@
    ||| exam == "gate"@
}

/// The requirements table: the ordered document-type tags that each supported
/// exam demands.
pub open spec fn spec_requirements(exam: Seq<char>) -> Seq<Seq<char>> {
    if exam == "neet"@ {
        seq![
            "passport_photo"@, "signature"@, "thumb_impression"@,
            "10th_marksheet"@, "12th_marksheet"@, "aadhar_card"@,
            "community_certificate"@,
        ]
    } else if exam == "jee"@ {
        seq![
            "passport_photo"@, "signature"@, "thumb_impression"@,
            "10th_marksheet"@, "12th_marksheet"@, "aadhar_card"@,
            "community_certificate"@, "pwd_certificate"@,
        ]
    } else if exam == "upsc"@ {
        seq![
            "passport_photo"@, "signature"@, "thumb_impression"@,
            "10th_marksheet"@, "12th_marksheet"@, "graduation_certificate"@,
            "aadhar_card"@, "community_certificate"@, "pwd_certificate"@,
        ]
    } else if exam == "cat"@ {
        seq![
            "passport_photo"@, "signature"@, "10th_marksheet"@,
            "12th_marksheet"@, "graduation_certificate"@, "aadhar_card"@,
            "community_certificate"@, "pwd_certificate"@,
        ]
    } else if exam == "gate"@ {
        seq![
            "passport_photo"@, "signature"@, "10th_marksheet"@,
            "12th_marksheet"@, "graduation_certificate"@, "aadhar_card"@,
            "community_certificate"@, "pwd_certificate"@,
        ]
    } else {
        Seq::empty()
    }
}

fn push_tag(v: &mut Vec<String>, s: &str)
    ensures
        final(v).deep_view() == old(v).deep_view().push(s@),
{
    let tag = String::from_str(s);
    v.push(tag);
    proof {
        assert(final(v).deep_view() =~= old(v).deep_view().push(s@));
    }
}

/// The ordered document-type tags that the given exam requires; fails exactly
/// on identifiers outside the requirements table.
pub fn requirements(exam_type: &str) -> (r: Option<Vec<String>>)
    ensures
        r is Some <==> has_requirements(exam_type@),
        r matches Some(v) ==> v.deep_view() == spec_requirements(exam_type@),
{
    let mut v: Vec<String> = Vec::new();
    if str_eq(exam_type, "neet") {
        push_tag(&mut v, "passport_photo");
        push_tag(&mut v, "signature");
        push_tag(&mut v, "thumb_impression");
        push_tag(&mut v, "10th_marksheet");
        push_tag(&mut v, "12th_marksheet");
        push_tag(&mut v, "aadhar_card");
        push_tag(&mut v, "community_certificate");
        proof {
            assert(v.deep_view() =~= spec_requirements(exam_type@));
        }
        Some(v)
    } else if str_eq(exam_type, "jee") {
        push_tag(&mut v, "passport_photo");
        push_tag(&mut v, "signature");
        push_tag(&mut v, "thumb_impression");
        push_tag(&mut v, "10th_marksheet");
        push_tag(&mut v, "12th_marksheet");
        push_tag(&mut v, "aadhar_card");
        push_tag(&mut v, "community_certificate");
        push_tag(&mut v, "pwd_certificate");
        proof {
            assert(v.deep_view() =~= spec_requirements(exam_type@));
        }
        Some(v)
    } else if str_eq(exam_type, "upsc") {
        push_tag(&mut v, "passport_photo");
        push_tag(&mut v, "signature");
        push_tag(&mut v, "thumb_impression");
        push_tag(&mut v, "10th_marksheet");
        push_tag(&mut v, "12th_marksheet");
        push_tag(&mut v, "graduation_certificate");
        push_tag(&mut v, "aadhar_card");
        push_tag(&mut v, "community_certificate");
        push_tag(&mut v, "pwd_certificate");
        proof {
            assert(v.deep_view() =~= spec_requirements(exam_type@));
        }
        Some(v)
    } else if str_eq(exam_type, "cat") {
        push_tag(&mut v, "passport_photo");
        push_tag(&mut v, "signature");
        push_tag(&mut v, "10th_marksheet");
        push_tag(&mut v, "12th_marksheet");
        push_tag(&mut v, "graduation_certificate");
        push_tag(&mut v, "aadhar_card");
        push_tag(&mut v, "community_certificate");
        push_tag(&mut v, "pwd_certificate");
        proof {
            assert(v.deep_view() =~= spec_requirements(exam_type@));
        }
        Some(v)
    } else if str_eq(exam_type, "gate") {
        push_tag(&mut v, "passport_photo");
        push_tag(&mut v, "signature");
        push_tag(&mut v, "10th_marksheet");
        push_tag(&mut v, "12th_marksheet");
        push_tag(&mut v, "graduation_certificate");
        push_tag(&mut v, "aadhar_card");
        push_tag(&mut v, "community_certificate");
        push_tag(&mut v, "pwd_certificate");
        proof {
            assert(v.deep_view() =~= spec_requirements(exam_type@));
        }
        Some(v)
    } else {
        None
    }
}

/// The fixed, ordered listing of supported exam identifiers.
pub open spec fn spec_supported_exams() -> Seq<Seq<char>> {
    seq!["neet"@, "jee"@, "upsc"@, "cat"@, "gate"@]
}

/// The supported exam identifiers, in their fixed publication order. A pure
/// read of constant data: every call returns the same five identifiers.
pub fn get_supported_exams() -> (r: Vec<String>)
    ensures
        r.deep_view() == spec_supported_exams(),
{
    let mut v: Vec<String> = Vec::new();
    push_tag(&mut v, "neet");
    push_tag(&mut v, "jee");
    push_tag(&mut v, "upsc");
    push_tag(&mut v, "cat");
    push_tag(&mut v, "gate");
    proof {
        assert(v.deep_view() =~= spec_supported_exams());
    }
    v
}

/// Law: the format table, the requirements table and the supported-exam
/// listing are in lockstep. An exam identifier has a format exactly when it
/// has a requirement list, that list is then non-empty, and the identifiers
/// with a format are exactly those the listing publishes.
pub proof fn lemma_catalog_lockstep(exam: Seq<char>)
    ensures
        has_format(exam) <==> has_requirements(exam),
        has_requirements(exam) ==> spec_requirements(exam).len() > 0,
        has_format(exam) <==> spec_supported_exams().contains(exam),
{
    if has_format(exam) {
        if exam == "neet"@ {
            assert(spec_supported_exams()[0] == exam);
        } else if exam == "jee"@ {
            assert(spec_supported_exams()[1] == exam);
        } else if exam == "upsc"@ {
            assert(spec_supported_exams()[2] == exam);
        } else if exam == "cat"@ {
            assert(spec_supported_exams()[3] == exam);
        } else {
            assert(spec_supported_exams()[4] == exam);
        }
        assert(spec_supported_exams().contains(exam));
    }
    if spec_supported_exams().contains(exam) {
        let i = choose|i: int|
            0 <= i < spec_supported_exams().len() && spec_supported_exams()[i] == exam;
        assert(i == 0 || i == 1 || i == 2 || i == 3 || i == 4);
        assert(has_format(exam));
    }
}

} // verus!

use exam_doc_converter::catalog::get_supported_exams;
use exam_doc_converter::catalog::lookup;
use exam_doc_converter::catalog::requirements;
use exam_doc_converter::convert::convert_document;
use exam_doc_converter::convert::convert_document_at;
use exam_doc_converter::convert::get_exam_requirements;
use exam_doc_converter::convert::ConversionError;

fn make_jpeg(width: u32, height: u32) -> Vec<u8> {
    let buf = image::RgbImage::from_pixel(width, height, image::Rgb([120u8, 30u8, 200u8]));
    let img = image::DynamicImage::ImageRgb8(buf);
    let mut bytes: Vec<u8> = Vec::new();
    img.write_to(
        &mut std::io::Cursor::new(&mut bytes),
        image::ImageOutputFormat::Jpeg(90),
    )
    .unwrap();
    bytes
}

fn today_compact() -> String {
    chrono::Utc::now().format("%Y%m%d").to_string()
}

#[test]
fn supported_exams_fixed_order() {
    let exams = get_supported_exams();
    assert_eq!(exams, vec!["neet", "jee", "upsc", "cat", "gate"]);
    let again = get_supported_exams();
    assert_eq!(exams, again);
}

#[test]
fn catalog_tables_in_lockstep() {
    for exam in get_supported_exams() {
        let format = lookup(&exam);
        assert!(format.is_some(), "format missing for {}", exam);
        let reqs = requirements(&exam);
        assert!(reqs.is_some(), "requirements missing for {}", exam);
        assert!(!reqs.unwrap().is_empty());
    }
    assert!(lookup("ielts").is_none());
    assert!(requirements("ielts").is_none());
}

#[test]
fn lookup_fields_per_exam() {
    for exam in ["neet", "jee", "cat", "gate"] {
        let f = lookup(exam).unwrap();
        assert_eq!(f.photo_width, 350);
        assert_eq!(f.photo_height, 450);
        assert_eq!(f.signature_width, 350);
        assert_eq!(f.signature_height, 150);
        assert_eq!(f.dpi, 100);
        assert_eq!(f.format, "JPEG");
    }
    let upsc = lookup("upsc").unwrap();
    assert_eq!(upsc.photo_width, 400);
    assert_eq!(upsc.photo_height, 500);
    assert_eq!(upsc.signature_width, 400);
    assert_eq!(upsc.signature_height, 200);
    assert_eq!(upsc.naming_convention, "UPSC_{document_type}");
    assert_eq!(lookup("neet").unwrap().naming_convention, "NEET_{document_type}");
}

#[test]
fn requirements_exact_lists() {
    assert_eq!(
        get_exam_requirements("neet").unwrap(),
        vec![
            "passport_photo",
            "signature",
            "thumb_impression",
            "10th_marksheet",
            "12th_marksheet",
            "aadhar_card",
            "community_certificate",
        ]
    );
    assert_eq!(
        get_exam_requirements("jee").unwrap(),
        vec![
            "passport_photo",
            "signature",
            "thumb_impression",
            "10th_marksheet",
            "12th_marksheet",
            "aadhar_card",
            "community_certificate",
            "pwd_certificate",
        ]
    );
    assert_eq!(
        get_exam_requirements("upsc").unwrap(),
        vec![
            "passport_photo",
            "signature",
            "thumb_impression",
            "10th_marksheet",
            "12th_marksheet",
            "graduation_certificate",
            "aadhar_card",
            "community_certificate",
            "pwd_certificate",
        ]
    );
    let cat = get_exam_requirements("cat").unwrap();
    let gate = get_exam_requirements("gate").unwrap();
    assert_eq!(cat, gate);
    assert_eq!(
        cat,
        vec![
            "passport_photo",
            "signature",
            "10th_marksheet",
            "12th_marksheet",
            "graduation_certificate",
            "aadhar_card",
            "community_certificate",
            "pwd_certificate",
        ]
    );
    let err = get_exam_requirements("klingon_exam").unwrap_err();
    assert!(matches!(err, ConversionError::UnsupportedExam));
}

#[test]
fn photo_neet_dimensions_and_name() {
    let input = make_jpeg(600, 800);
    let doc = convert_document_at(&input, "passport_photo", "neet", "x.jpg", "20240102").unwrap();
    assert_eq!(doc.name, "NEET_Photo_20240102.jpg");
    assert_eq!(doc.document_type, "passport_photo");
    assert_eq!(doc.format, "JPEG");
    assert_eq!(
        image::guess_format(&doc.data).unwrap(),
        image::ImageFormat::Jpeg
    );
    let out = image::load_from_memory(&doc.data).unwrap();
    assert_eq!(out.width(), 350);
    assert_eq!(out.height(), 450);
}

#[test]
fn photo_name_carries_current_date() {
    let input = make_jpeg(40, 40);
    let before = today_compact();
    let doc = convert_document(&input, "passport_photo", "neet", "x.jpg").unwrap();
    let after = today_compact();
    let expected_before = format!("NEET_Photo_{}.jpg", before);
    let expected_after = format!("NEET_Photo_{}.jpg", after);
    assert!(
        doc.name == expected_before || doc.name == expected_after,
        "unexpected name {}",
        doc.name
    );
}

#[test]
fn signature_upsc_dimensions() {
    let input = make_jpeg(820, 310);
    let doc = convert_document_at(&input, "signature", "upsc", "sig.png", "20240102").unwrap();
    let out = image::load_from_memory(&doc.data).unwrap();
    assert_eq!(out.width(), 400);
    assert_eq!(out.height(), 200);
    assert_eq!(doc.name, "UPSC_Signature_20240102.jpg");
}

#[test]
fn thumb_jee_square() {
    let input = make_jpeg(777, 333);
    let doc =
        convert_document_at(&input, "thumb_impression", "jee", "thumb.jpg", "20240102").unwrap();
    let out = image::load_from_memory(&doc.data).unwrap();
    assert_eq!(out.width(), 150);
    assert_eq!(out.height(), 150);
    assert_eq!(doc.name, "JEE_Thumb_Impression_20240102.jpg");
}

#[test]
fn generic_cat_passthrough() {
    let input: Vec<u8> = b"%PDF-1.4 not really an image".to_vec();
    let before = today_compact();
    let doc = convert_document(&input, "10th_marksheet", "cat", "m.pdf").unwrap();
    let after = today_compact();
    assert_eq!(doc.data, input);
    assert_eq!(doc.document_type, "10th_marksheet");
    assert_eq!(doc.format, "JPEG");
    let expected_before = format!("CAT_10th_Marksheet_{}.jpg", before);
    let expected_after = format!("CAT_10th_Marksheet_{}.jpg", after);
    assert!(
        doc.name == expected_before || doc.name == expected_after,
        "unexpected name {}",
        doc.name
    );
}

#[test]
fn generic_unknown_tag_gets_generic_label() {
    let input: Vec<u8> = vec![1, 2, 3, 4];
    let doc = convert_document_at(&input, "hall_ticket", "cat", "h.bin", "20240102").unwrap();
    assert_eq!(doc.data, input);
    assert_eq!(doc.name, "CAT_Document_20240102.jpg");
    assert_eq!(doc.document_type, "hall_ticket");
}

#[test]
fn generic_image_reencoded_dimensions_preserved() {
    let input = make_jpeg(101, 83);
    let doc =
        convert_document_at(&input, "graduation_certificate", "gate", "g.jpg", "20240102").unwrap();
    let out = image::load_from_memory(&doc.data).unwrap();
    assert_eq!(out.width(), 101);
    assert_eq!(out.height(), 83);
    assert_eq!(doc.name, "GATE_Graduation_Certificate_20240102.jpg");
}

#[test]
fn unsupported_exam_fails() {
    let input = make_jpeg(10, 10);
    let err = convert_document(&input, "passport_photo", "klingon_exam", "x.jpg").unwrap_err();
    assert!(matches!(err, ConversionError::UnsupportedExam));
    assert_eq!(err.message(), "Unsupported exam type");
}

#[test]
fn decode_error_on_non_image_photo() {
    let input: Vec<u8> = b"plain text, no raster here".to_vec();
    let err = convert_document(&input, "passport_photo", "neet", "x.jpg").unwrap_err();
    match &err {
        ConversionError::DecodeError(_) => {}
        other => panic!("expected a decode error, got {:?}", other),
    }
    assert!(err.message().starts_with("Failed to load image: "));
}

#[test]
fn decode_error_for_signature_and_thumb() {
    let input: Vec<u8> = vec![0u8; 64];
    let sig_err = convert_document(&input, "signature", "upsc", "s.jpg").unwrap_err();
    assert!(matches!(sig_err, ConversionError::DecodeError(_)));
    let thumb_err = convert_document(&input, "thumb_impression", "gate", "t.jpg").unwrap_err();
    assert!(matches!(thumb_err, ConversionError::DecodeError(_)));
}

#[test]
fn photo_conversion_idempotent() {
    let input = make_jpeg(500, 500);
    let first = convert_document_at(&input, "passport_photo", "neet", "x.jpg", "20240102").unwrap();
    let second =
        convert_document_at(&first.data, "passport_photo", "neet", "x.jpg", "20240102").unwrap();
    let out = image::load_from_memory(&second.data).unwrap();
    assert_eq!(out.width(), 350);
    assert_eq!(out.height(), 450);
    assert_eq!(second.name, first.name);
    assert_eq!(
        image::guess_format(&second.data).unwrap(),
        image::ImageFormat::Jpeg
    );
}

#[test]
fn encode_error_on_unsupported_color() {
    let buf: image::ImageBuffer<image::Rgb<u16>, Vec<u16>> =
        image::ImageBuffer::from_pixel(30, 20, image::Rgb([1000u16, 20000u16, 40000u16]));
    let img = image::DynamicImage::ImageRgb16(buf);
    let mut bytes: Vec<u8> = Vec::new();
    img.write_to(
        &mut std::io::Cursor::new(&mut bytes),
        image::ImageOutputFormat::Png,
    )
    .unwrap();
    let photo_err = convert_document(&bytes, "passport_photo", "neet", "x.png").unwrap_err();
    assert!(matches!(photo_err, ConversionError::EncodeError(_)));
    assert!(photo_err.message().starts_with("Failed to encode image: "));
    let generic_err = convert_document(&bytes, "10th_marksheet", "cat", "x.png").unwrap_err();
    assert!(matches!(generic_err, ConversionError::EncodeError(_)));
}

#[test]
fn known_labels_substituted() {
    let cases = [
        ("signature", "Signature"),
        ("aadhar_card", "Aadhar_Card"),
        ("12th_marksheet", "12th_Marksheet"),
        ("community_certificate", "Community_Certificate"),
        ("income_certificate", "Income_Certificate"),
        ("pwd_certificate", "PwD_Certificate"),
    ];
    let image_input = make_jpeg(20, 20);
    for (tag, label) in cases {
        let doc = convert_document_at(&image_input, tag, "neet", "f.jpg", "20240102").unwrap();
        assert_eq!(doc.name, format!("NEET_{}_20240102.jpg", label));
    }
}

use exif_api::command::{delete_command, read_command, write_command};
use exif_api::form::{field_role, FieldRole, Operation, UploadForm};
use exif_api::metadata_type::MetadataType;
use exif_api::reply::{
    content_disposition, download_name, missing_upload, output_body, output_size_outcome,
    report_name, run_outcome, Failure, MIN_OUTPUT_BYTES,
};
use exif_api::text::{is_white_space, join, same_text, string_of, trim, without_char};

fn texts(v: &[&str]) -> Vec<String> {
    v.iter().map(|s| s.to_string()).collect()
}

#[test]
fn field_roles_per_operation() {
    assert_eq!(field_role(Operation::Read, "file"), FieldRole::File);
    assert_eq!(field_role(Operation::Read, "type"), FieldRole::Type);
    assert_eq!(field_role(Operation::Read, "metadata"), FieldRole::Ignored);
    assert_eq!(field_role(Operation::Read, "tags"), FieldRole::Ignored);
    assert_eq!(field_role(Operation::Write, "metadata"), FieldRole::Metadata);
    assert_eq!(field_role(Operation::Write, "tags"), FieldRole::Ignored);
    assert_eq!(field_role(Operation::Delete, "tags"), FieldRole::Tags);
    assert_eq!(field_role(Operation::Delete, "metadata"), FieldRole::Ignored);
    assert_eq!(field_role(Operation::Delete, "File"), FieldRole::Ignored);
}

#[test]
fn new_form_is_empty() {
    let form = UploadForm::new();
    assert!(!form.has_file);
    assert_eq!(form.original_filename, "");
    assert_eq!(form.metadata_type, MetadataType::All);
    assert!(form.tags.is_none());
    assert!(form.tag_values.is_empty());
}

#[test]
fn file_field_keeps_name_when_given() {
    let mut form = UploadForm::new();
    form.accept_file(Some("photo.jpg".to_string()));
    assert!(form.has_file);
    assert_eq!(form.original_filename, "photo.jpg");
    form.accept_file(None);
    assert_eq!(form.original_filename, "photo.jpg");
}

#[test]
fn type_field_is_trimmed_and_case_folded() {
    let mut form = UploadForm::new();
    form.accept_type(b"  GPS \n".to_vec());
    assert_eq!(form.metadata_type, MetadataType::Gps);
    form.accept_type("\u{3000}exif\t".as_bytes().to_vec());
    assert_eq!(form.metadata_type, MetadataType::Exif);
    form.accept_type(b"unknown".to_vec());
    assert_eq!(form.metadata_type, MetadataType::All);
}

#[test]
fn type_field_that_is_not_utf8_is_ignored() {
    let mut form = UploadForm::new();
    form.accept_type(b"xmp".to_vec());
    form.accept_type(vec![0xff, 0xfe, b'x']);
    assert_eq!(form.metadata_type, MetadataType::Xmp);
}

#[test]
fn tags_field_reads_a_json_array() {
    let mut form = UploadForm::new();
    form.accept_tags(br#"["Make","Model","Artist"]"#.to_vec());
    assert_eq!(form.tags, Some(texts(&["Make", "Model", "Artist"])));
    form.accept_tags(b"not json".to_vec());
    assert_eq!(form.tags, Some(texts(&["Make", "Model", "Artist"])));
    form.accept_tags(br#"[1, 2]"#.to_vec());
    assert_eq!(form.tags, Some(texts(&["Make", "Model", "Artist"])));
    form.accept_tags(b"[]".to_vec());
    assert_eq!(form.tags, Some(Vec::new()));
}

#[test]
fn metadata_field_reads_a_json_object() {
    let mut form = UploadForm::new();
    form.accept_metadata(br#"{"Make":"Canon","Model":"EOS R5","Artist":"John Doe"}"#.to_vec());
    let mut pairs = form.tag_values.clone();
    pairs.sort();
    assert_eq!(
        pairs,
        vec![
            ("Artist".to_string(), "John Doe".to_string()),
            ("Make".to_string(), "Canon".to_string()),
            ("Model".to_string(), "EOS R5".to_string()),
        ]
    );
    form.accept_metadata(br#"{"Make": 5}"#.to_vec());
    assert_eq!(form.tag_values.len(), 3);
    form.accept_metadata(br#"{"Make":"A","Make":"B"}"#.to_vec());
    assert_eq!(form.tag_values, vec![("Make".to_string(), "B".to_string())]);
}

#[test]
fn read_command_line() {
    assert_eq!(
        read_command(MetadataType::Gps, "/tmp/in.jpg"),
        texts(&["-j", "-GPS:All", "/tmp/in.jpg"])
    );
    assert_eq!(read_command(MetadataType::All, "p"), texts(&["-j", "-All", "p"]));
}

#[test]
fn write_command_line() {
    let pairs = vec![
        ("GPSLatitude".to_string(), "40.7812".to_string()),
        ("GPSLongitude".to_string(), "-73.9665".to_string()),
    ];
    assert_eq!(
        write_command(MetadataType::Gps, &pairs, "/tmp/in", "/tmp/out"),
        texts(&[
            "-overwrite_original",
            "-GPS:GPSLatitude=40.7812",
            "-GPS:GPSLongitude=-73.9665",
            "/tmp/in",
            "-o",
            "/tmp/out",
        ])
    );
    assert_eq!(
        write_command(MetadataType::All, &Vec::new(), "i", "o"),
        texts(&["-overwrite_original", "i", "-o", "o"])
    );
}

#[test]
fn write_exif_tags_from_form() {
    let mut form = UploadForm::new();
    form.accept_type(b"exif".to_vec());
    form.accept_metadata(br#"{"Make":"Canon"}"#.to_vec());
    assert_eq!(
        write_command(form.metadata_type, &form.tag_values, "in.jpg", "out.jpg"),
        texts(&["-overwrite_original", "-EXIF:Make=Canon", "in.jpg", "-o", "out.jpg"])
    );
}

#[test]
fn delete_command_line() {
    assert_eq!(
        delete_command(MetadataType::Exif, &Some(texts(&["Make", "Model"])), "i", "o"),
        texts(&["-overwrite_original", "-EXIF:Make=", "-EXIF:Model=", "i", "-o", "o"])
    );
    assert_eq!(
        delete_command(MetadataType::All, &None, "i", "o"),
        texts(&["-overwrite_original", "-All=", "i", "-o", "o"])
    );
    assert_eq!(
        delete_command(MetadataType::C2pa, &None, "i", "o"),
        texts(&["-overwrite_original", "-C2PA:All=", "i", "-o", "o"])
    );
}

#[test]
fn refusals_without_file() {
    let read = missing_upload(Operation::Read);
    assert_eq!(read, Failure::MissingFile);
    assert_eq!(read.status(), 400);
    assert_eq!(read.message(), "No file uploaded");
    assert_eq!(read.code(), Some("MISSING_FILE"));
    let write = missing_upload(Operation::Write);
    assert_eq!(write.status(), 400);
    assert_eq!(write.message(), "Missing file or metadata");
    assert_eq!(write.code(), Some("MISSING_DATA"));
    assert_eq!(missing_upload(Operation::Delete), Failure::MissingFile);
}

#[test]
fn refusals_of_the_tool() {
    let f = Failure::ToolFailed(Operation::Write, "bad tag".to_string());
    assert_eq!(f.status(), 500);
    assert_eq!(f.message(), "exiftool failed: bad tag");
    assert_eq!(f.code(), Some("METADATA_WRITE_ERROR"));
    let f = Failure::ToolNotStarted(Operation::Read, "not found".to_string());
    assert_eq!(f.message(), "Failed to execute exiftool: not found");
    assert_eq!(f.code(), Some("METADATA_READ_ERROR"));
    let f = Failure::OutputTooSmall(Operation::Delete);
    assert_eq!(f.message(), "Output file is too small, likely an error occurred");
    assert_eq!(f.code(), Some("METADATA_DELETE_ERROR"));
    let f = Failure::OutputUnreadable(Operation::Write, "gone".to_string());
    assert_eq!(f.message(), "Failed to read output file: gone");
    assert_eq!(f.status(), 500);
}

#[test]
fn refusals_of_the_temporary_file() {
    let f = Failure::TempFileCreate("disk full".to_string());
    assert_eq!(f.status(), 500);
    assert_eq!(f.message(), "Failed to create temp file: disk full");
    assert_eq!(f.code(), None);
    let f = Failure::TempFileWrite("io".to_string());
    assert_eq!(f.message(), "Failed to write file: io");
    assert_eq!(f.code(), None);
}

#[test]
fn failed_run_decodes_error_output_lossily() {
    assert_eq!(
        run_outcome(Operation::Write, false, &[b'b', 0xff, b'd']),
        Some(Failure::ToolFailed(Operation::Write, "b\u{fffd}d".to_string()))
    );
}

#[test]
fn run_and_output_checks() {
    assert_eq!(run_outcome(Operation::Read, true, b"warn"), None);
    assert_eq!(
        run_outcome(Operation::Delete, false, b"err"),
        Some(Failure::ToolFailed(Operation::Delete, "err".to_string()))
    );
    assert_eq!(MIN_OUTPUT_BYTES, 1000);
    assert_eq!(output_size_outcome(Operation::Write, Ok(1000)), None);
    assert_eq!(
        output_size_outcome(Operation::Write, Ok(999)),
        Some(Failure::OutputTooSmall(Operation::Write))
    );
    assert_eq!(
        output_size_outcome(Operation::Delete, Err("missing".to_string())),
        Some(Failure::OutputUnreadable(Operation::Delete, "missing".to_string()))
    );
}

#[test]
fn output_body_per_operation() {
    assert_eq!(output_body(Operation::Write, Ok(vec![1, 2])), Ok(vec![1, 2]));
    assert_eq!(
        output_body(Operation::Write, Err("e".to_string())),
        Err(Failure::OutputUnreadable(Operation::Write, "e".to_string()))
    );
    assert_eq!(output_body(Operation::Delete, Err("e".to_string())), Ok(Vec::new()));
}

#[test]
fn file_names_and_header() {
    assert_eq!(report_name(""), "uploaded");
    assert_eq!(report_name("a.jpg"), "a.jpg");
    assert_eq!(download_name(""), "modified.jpg");
    assert_eq!(download_name("a.png"), "modified_a.png");
    assert_eq!(content_disposition("modified_a.png"), "attachment; filename=\"modified_a.png\"");
}

#[test]
fn text_helpers() {
    assert!(same_text("abc", "abc"));
    assert!(!same_text("abc", "abd"));
    assert_eq!(trim(" \t x y \n"), "x y");
    assert_eq!(trim("   "), "");
    assert_eq!(without_char("a\"b\"", '"'), "ab");
    assert_eq!(string_of(&vec!['h', 'é']), "hé");
    assert_eq!(join(&texts(&["a", "b", "c"]), ", "), "a, b, c");
    assert_eq!(join(&Vec::new(), ", "), "");
}

#[test]
fn white_space_characters() {
    for c in ['\t', '\n', '\u{b}', '\u{c}', '\r', ' ', '\u{85}', '\u{a0}', '\u{1680}', '\u{2000}',
              '\u{200a}', '\u{2028}', '\u{2029}', '\u{202f}', '\u{205f}', '\u{3000}'] {
        assert!(is_white_space(c));
        assert!(c.is_whitespace());
    }
    for c in ['a', '\u{200b}', '\u{feff}', '\u{1f}', '\u{180e}', '\u{2060}'] {
        assert!(!is_white_space(c));
    }
    for code in 0u32..0x11000 {
        if let Some(c) = char::from_u32(code) {
            assert_eq!(is_white_space(c), c.is_whitespace());
        }
    }
    assert_eq!(trim(" exif "), "exif");
}

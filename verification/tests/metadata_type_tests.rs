use exif_api::metadata_type::MetadataType;

fn texts(v: &[&str]) -> Vec<String> {
    v.iter().map(|s| s.to_string()).collect()
}

#[test]
fn default_type_is_all() {
    assert_eq!(MetadataType::default(), MetadataType::All);
}

#[test]
fn type_parameter_is_case_insensitive() {
    assert_eq!(MetadataType::from("EXIF"), MetadataType::Exif);
    assert_eq!(MetadataType::from("Gps"), MetadataType::Gps);
    assert_eq!(MetadataType::from("C2PA"), MetadataType::C2pa);
    assert_eq!(MetadataType::from("MakerNotes"), MetadataType::MakerNotes);
}

#[test]
fn maker_notes_aliases() {
    assert_eq!(MetadataType::from("maker"), MetadataType::MakerNotes);
    assert_eq!(MetadataType::from("mn"), MetadataType::MakerNotes);
    assert_eq!(MetadataType::from("makernotes"), MetadataType::MakerNotes);
}

#[test]
fn unknown_or_empty_type_means_all() {
    assert_eq!(MetadataType::from(""), MetadataType::All);
    assert_eq!(MetadataType::from("all"), MetadataType::All);
    assert_eq!(MetadataType::from("ALL"), MetadataType::All);
    assert_eq!(MetadataType::from("icc"), MetadataType::All);
    assert_eq!(MetadataType::from(" exif"), MetadataType::All);
}

#[test]
fn from_lowercase_does_not_lowercase() {
    assert_eq!(MetadataType::from_lowercase("exif"), MetadataType::Exif);
    assert_eq!(MetadataType::from_lowercase("EXIF"), MetadataType::All);
}

#[test]
fn every_keyword_names_its_type() {
    for t in MetadataType::all_types() {
        assert_eq!(MetadataType::from(t.keyword()), t);
        assert_eq!(MetadataType::from_lowercase(t.keyword()), t);
    }
}

#[test]
fn advertised_types_in_order() {
    let names: Vec<&str> = MetadataType::all_types().iter().map(|t| t.keyword()).collect();
    assert_eq!(
        names,
        vec!["all", "exif", "iptc", "xmp", "makernotes", "gps", "c2pa", "jumbf", "png"]
    );
}

#[test]
fn read_args_per_type() {
    assert_eq!(MetadataType::All.to_read_args(), texts(&["-All"]));
    assert_eq!(MetadataType::Exif.to_read_args(), texts(&["-EXIF:All"]));
    assert_eq!(MetadataType::Iptc.to_read_args(), texts(&["-IPTC:All"]));
    assert_eq!(MetadataType::Xmp.to_read_args(), texts(&["-XMP:All"]));
    assert_eq!(MetadataType::MakerNotes.to_read_args(), texts(&["-MakerNotes:All"]));
    assert_eq!(MetadataType::Gps.to_read_args(), texts(&["-GPS:All"]));
    assert_eq!(MetadataType::C2pa.to_read_args(), texts(&["-C2PA:All"]));
    assert_eq!(MetadataType::Jumbf.to_read_args(), texts(&["-JUMBF:All"]));
    assert_eq!(MetadataType::Png.to_read_args(), texts(&["-PNG:All"]));
}

#[test]
fn write_prefix_per_type() {
    assert_eq!(MetadataType::All.to_write_prefix(), "");
    assert_eq!(MetadataType::Exif.to_write_prefix(), "EXIF:");
    assert_eq!(MetadataType::MakerNotes.to_write_prefix(), "MakerNotes:");
    assert_eq!(MetadataType::Gps.to_write_prefix(), "GPS:");
    assert_eq!(MetadataType::Png.to_write_prefix(), "PNG:");
}

#[test]
fn delete_named_tags_of_exif() {
    let tags = Some(texts(&["Make", "Model", "Artist"]));
    assert_eq!(
        MetadataType::Exif.to_delete_args(&tags),
        texts(&["-EXIF:Make=", "-EXIF:Model=", "-EXIF:Artist="])
    );
}

#[test]
fn delete_named_tags_of_all_groups() {
    let tags = Some(texts(&["Make"]));
    assert_eq!(MetadataType::All.to_delete_args(&tags), texts(&["-Make="]));
}

#[test]
fn delete_empty_tag_list_gives_no_args() {
    let tags: Option<Vec<String>> = Some(Vec::new());
    assert!(MetadataType::Gps.to_delete_args(&tags).is_empty());
}

#[test]
fn delete_whole_group() {
    assert_eq!(MetadataType::Gps.to_delete_args(&None), texts(&["-GPS:All="]));
    assert_eq!(MetadataType::C2pa.to_delete_args(&None), texts(&["-C2PA:All="]));
    assert_eq!(MetadataType::All.to_delete_args(&None), texts(&["-All="]));
    assert_eq!(MetadataType::Jumbf.to_delete_args(&None), texts(&["-JUMBF:All="]));
}

#[test]
fn selectors_follow_prefix() {
    for t in MetadataType::all_types() {
        let prefix = t.to_write_prefix();
        assert_eq!(t.to_read_args(), vec![format!("-{}All", prefix)]);
        assert_eq!(t.to_delete_args(&None), vec![format!("-{}All=", prefix)]);
        assert_eq!(
            t.to_delete_args(&Some(vec!["Model".to_string()])),
            vec![format!("-{}Model=", prefix)]
        );
    }
}

#[test]
fn write_arg_with_and_without_prefix() {
    assert_eq!(MetadataType::Gps.to_write_arg("GPSLatitude", "40.7812"), "-GPS:GPSLatitude=40.7812");
    assert_eq!(MetadataType::All.to_write_arg("Artist", "John Doe"), "-Artist=John Doe");
    assert_eq!(MetadataType::Iptc.to_write_arg("City", ""), "-IPTC:City=");
}

#[test]
fn report_names_match_variant_names() {
    for t in MetadataType::all_types() {
        assert_eq!(t.name(), format!("{:?}", t));
    }
    assert_eq!(MetadataType::MakerNotes.name(), "MakerNotes");
    assert_eq!(MetadataType::C2pa.name(), "C2pa");
}

#[test]
fn keywords_in_any_ascii_case_select_their_group() {
    for t in MetadataType::all_types() {
        assert_eq!(MetadataType::from(t.keyword().to_uppercase().as_str()), t);
    }
    assert_eq!(MetadataType::from("JuMbF"), MetadataType::Jumbf);
}

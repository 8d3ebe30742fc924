use classroom_model::json::{Json, JsonMember};
use classroom_model::model::{
    DriveFile, DriveFileShareMode, Form, IndividualStudentsOptions, Link, Material,
    ModifyIndividualStudentsOptions, SharedDriveFile, YouTubeVideo,
};

fn m(k: &str, v: Json) -> JsonMember {
    JsonMember { key: k.to_owned(), value: v }
}

fn s(v: &str) -> Json {
    Json::Str(v.to_owned())
}

fn drive_file_json() -> Json {
    Json::Obj(vec![
        m("id", s("file-1")),
        m("title", s("Notes")),
        m("alternateLink", s("https://drive.example/file-1")),
        m("thumbnailUrl", s("https://drive.example/file-1/thumb")),
    ])
}

fn drive_file() -> DriveFile {
    DriveFile {
        id: "file-1".to_owned(),
        title: "Notes".to_owned(),
        alternate_link: "https://drive.example/file-1".to_owned(),
        thumbnail_url: "https://drive.example/file-1/thumb".to_owned(),
    }
}

#[test]
fn drive_file_decodes_all_fields() {
    assert_eq!(DriveFile::decode(&drive_file_json()), Ok(drive_file()));
}

#[test]
fn drive_file_encode_emits_all_fields() {
    assert_eq!(drive_file().encode(), drive_file_json());
}

#[test]
fn drive_file_decode_ignores_unknown_members() {
    let j = Json::Obj(vec![
        m("id", s("file-1")),
        m("title", s("Notes")),
        m("alternateLink", s("https://drive.example/file-1")),
        m("thumbnailUrl", s("https://drive.example/file-1/thumb")),
        m("somethingNew", s("ignored")),
    ]);
    assert_eq!(DriveFile::decode(&j), Ok(drive_file()));
}

#[test]
fn drive_file_decode_takes_first_of_duplicate_keys() {
    let j = Json::Obj(vec![
        m("id", s("first")),
        m("id", s("second")),
        m("title", s("Notes")),
        m("alternateLink", s("l")),
        m("thumbnailUrl", s("t")),
    ]);
    let d = DriveFile::decode(&j).unwrap();
    assert_eq!(d.id, "first");
}

#[test]
fn drive_file_decode_missing_field_is_error_with_path() {
    let j = Json::Obj(vec![m("id", s("file-1"))]);
    let e = DriveFile::decode(&j).unwrap_err();
    assert_eq!(e.path, vec!["title".to_owned()]);
}

#[test]
fn drive_file_decode_wrong_type_is_error() {
    let j = Json::Obj(vec![
        m("id", Json::Bool(true)),
        m("title", s("Notes")),
        m("alternateLink", s("l")),
        m("thumbnailUrl", s("t")),
    ]);
    assert!(DriveFile::decode(&j).is_err());
}

#[test]
fn material_decode_selects_link_variant() {
    let j = Json::Obj(vec![m(
        "link",
        Json::Obj(vec![
            m("url", s("https://example.org")),
            m("title", s("Example")),
            m("thumbnailUrl", s("https://example.org/t")),
        ]),
    )]);
    assert_eq!(
        Material::decode(&j),
        Ok(Material::Link(Link {
            url: "https://example.org".to_owned(),
            title: "Example".to_owned(),
            thumbnail_url: "https://example.org/t".to_owned(),
        }))
    );
}

#[test]
fn material_decode_selects_drive_file_variant() {
    let j = Json::Obj(vec![m("driveFile", drive_file_json())]);
    assert_eq!(Material::decode(&j), Ok(Material::DriveFile(drive_file())));
}

#[test]
fn material_decode_selects_youtube_and_form_variants() {
    let y = Json::Obj(vec![m(
        "youtubeVideo",
        Json::Obj(vec![
            m("id", s("vid-1")),
            m("title", s("Lecture")),
            m("alternateLink", s("https://video.example/vid-1")),
            m("thumbnailUrl", s("https://video.example/vid-1/t")),
        ]),
    )]);
    assert_eq!(
        Material::decode(&y),
        Ok(Material::YoutubeVideo(YouTubeVideo {
            id: "vid-1".to_owned(),
            title: "Lecture".to_owned(),
            alternate_link: "https://video.example/vid-1".to_owned(),
            thumbnail_url: "https://video.example/vid-1/t".to_owned(),
        }))
    );
    let f = Json::Obj(vec![m(
        "form",
        Json::Obj(vec![
            m("formUrl", s("https://forms.example/f")),
            m("responseUrl", s("https://forms.example/f/r")),
            m("thumbnailUrl", s("https://forms.example/f/t")),
            m("title", s("Quiz")),
        ]),
    )]);
    assert_eq!(
        Material::decode(&f),
        Ok(Material::Form(Form {
            form_url: "https://forms.example/f".to_owned(),
            response_url: "https://forms.example/f/r".to_owned(),
            thumbnail_url: "https://forms.example/f/t".to_owned(),
            title: "Quiz".to_owned(),
        }))
    );
}

#[test]
fn material_decode_unknown_discriminator_is_error() {
    let j = Json::Obj(vec![m("blob", Json::Obj(vec![]))]);
    assert!(Material::decode(&j).is_err());
}

#[test]
fn material_decode_two_members_is_error() {
    let j = Json::Obj(vec![m("driveFile", drive_file_json()), m("link", s("x"))]);
    assert!(Material::decode(&j).is_err());
}

#[test]
fn material_decode_bad_payload_is_error() {
    let j = Json::Obj(vec![m("driveFile", Json::Obj(vec![m("id", s("only"))]))]);
    assert!(Material::decode(&j).is_err());
}

#[test]
fn material_encode_emits_only_active_variant() {
    let encoded = Material::DriveFile(drive_file()).encode();
    assert_eq!(encoded, Json::Obj(vec![m("driveFile", drive_file_json())]));
}

#[test]
fn shared_drive_file_round_trips() {
    let v = SharedDriveFile { drive_file: drive_file(), share_mode: DriveFileShareMode::StudentCopy };
    let j = v.encode();
    assert_eq!(
        j,
        Json::Obj(vec![m("driveFile", drive_file_json()), m("shareMode", s("STUDENT_COPY"))])
    );
    assert_eq!(SharedDriveFile::decode(&j), Ok(v));
}

#[test]
fn shared_drive_file_rejects_unknown_share_mode() {
    let j = Json::Obj(vec![m("driveFile", drive_file_json()), m("shareMode", s("FULL"))]);
    assert!(SharedDriveFile::decode(&j).is_err());
}

#[test]
fn individual_students_options_round_trips() {
    let v = IndividualStudentsOptions { student_ids: vec!["s1".to_owned(), "s2".to_owned()] };
    let j = v.encode();
    assert_eq!(
        j,
        Json::Obj(vec![m("studentIds", Json::Arr(vec![s("s1"), s("s2")]))])
    );
    assert_eq!(IndividualStudentsOptions::decode(&j), Ok(v));
}

#[test]
fn individual_students_options_rejects_non_string_element() {
    let j = Json::Obj(vec![m("studentIds", Json::Arr(vec![s("s1"), Json::Null]))]);
    assert!(IndividualStudentsOptions::decode(&j).is_err());
}

#[test]
fn individual_students_options_empty_list_round_trips() {
    let v = IndividualStudentsOptions { student_ids: vec![] };
    let j = v.encode();
    assert_eq!(j, Json::Obj(vec![m("studentIds", Json::Arr(vec![]))]));
    assert_eq!(IndividualStudentsOptions::decode(&j), Ok(v));
}

#[test]
fn modify_individual_students_options_round_trips() {
    let v = ModifyIndividualStudentsOptions {
        add_student_ids: vec!["s1".to_owned()],
        remove_student_ids: vec!["s2".to_owned(), "s3".to_owned()],
    };
    let j = v.encode();
    assert_eq!(
        j,
        Json::Obj(vec![
            m("addStudentIds", Json::Arr(vec![s("s1")])),
            m("removeStudentIds", Json::Arr(vec![s("s2"), s("s3")])),
        ])
    );
    assert_eq!(ModifyIndividualStudentsOptions::decode(&j), Ok(v));
}

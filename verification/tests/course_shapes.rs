use classroom_model::courses::{
    CalculationType, Course, CourseCreate, CourseModify, CourseState, DisplaySetting,
    GradebookSettings, OwnerId,
};
use classroom_model::json::{Json, JsonMember};
use classroom_model::model::{DriveFolder, GradeCategory};
use classroom_model::time::Timestamp;

fn m(k: &str, v: Json) -> JsonMember {
    JsonMember { key: k.to_owned(), value: v }
}

fn s(v: &str) -> Json {
    Json::Str(v.to_owned())
}

fn get<'a>(j: &'a Json, k: &str) -> Option<&'a Json> {
    j.get(k)
}

#[test]
fn course_create_encode_omits_unset_optionals() {
    let v = CourseCreate {
        id: None,
        name: "10th Grade Biology".to_owned(),
        section: None,
        description_heading: None,
        description: None,
        room: None,
        owner_id: OwnerId::Me,
        course_state: None,
    };
    let j = v.encode();
    assert_eq!(
        j,
        Json::Obj(vec![m("name", s("10th Grade Biology")), m("ownerId", s("me"))])
    );
}

#[test]
fn course_create_encode_writes_set_optionals() {
    let v = CourseCreate {
        id: Some("alias-1".to_owned()),
        name: "Biology".to_owned(),
        section: Some("Period 2".to_owned()),
        description_heading: None,
        description: None,
        room: Some("301".to_owned()),
        owner_id: OwnerId::Id("1234".to_owned()),
        course_state: Some(CourseState::Provisioned),
    };
    let j = v.encode();
    assert_eq!(
        j,
        Json::Obj(vec![
            m("id", s("alias-1")),
            m("name", s("Biology")),
            m("section", s("Period 2")),
            m("room", s("301")),
            m("ownerId", s("1234")),
            m("courseState", s("PROVISIONED")),
        ])
    );
}

#[test]
fn course_create_decodes_with_absent_and_null_optionals() {
    let j = Json::Obj(vec![
        m("name", s("Biology")),
        m("section", Json::Null),
        m("ownerId", s("teacher@school.edu")),
    ]);
    let v = CourseCreate::decode(&j).unwrap();
    assert_eq!(v.name, "Biology");
    assert_eq!(v.section, None);
    assert_eq!(v.room, None);
    assert_eq!(v.owner_id, OwnerId::Email("teacher@school.edu".to_owned()));
    assert_eq!(v.course_state, None);
}

#[test]
fn course_create_decode_missing_name_is_error() {
    let j = Json::Obj(vec![m("ownerId", s("me"))]);
    let e = CourseCreate::decode(&j).unwrap_err();
    assert_eq!(e.path, vec!["name".to_owned()]);
}

#[test]
fn course_create_decode_bad_state_is_error() {
    let j = Json::Obj(vec![
        m("name", s("Biology")),
        m("ownerId", s("me")),
        m("courseState", s("DELETED")),
    ]);
    assert!(CourseCreate::decode(&j).is_err());
}

#[test]
fn course_modify_encode_of_empty_update_is_empty_object() {
    let v = CourseModify {
        name: None,
        section: None,
        description_heading: None,
        description: None,
        room: None,
        owner_id: None,
        course_state: None,
    };
    assert_eq!(v.encode(), Json::Obj(vec![]));
}

#[test]
fn course_modify_encode_writes_only_set_fields() {
    let v = CourseModify {
        name: Some("New name".to_owned()),
        section: None,
        description_heading: None,
        description: None,
        room: None,
        owner_id: Some(OwnerId::Me),
        course_state: Some(CourseState::Archived),
    };
    assert_eq!(
        v.encode(),
        Json::Obj(vec![
            m("name", s("New name")),
            m("ownerId", s("me")),
            m("courseState", s("ARCHIVED")),
        ])
    );
}

#[test]
fn course_modify_round_trips() {
    let v = CourseModify {
        name: Some("New name".to_owned()),
        section: Some("Period 3".to_owned()),
        description_heading: None,
        description: None,
        room: None,
        owner_id: Some(OwnerId::Id("55".to_owned())),
        course_state: None,
    };
    let j = v.encode();
    assert_eq!(CourseModify::decode(&j), Ok(v));
}

fn gradebook() -> GradebookSettings {
    GradebookSettings {
        calculation_type: CalculationType::WeightedCategories,
        display_setting: DisplaySetting::ShowOverallGrade,
        grade_categories: vec![GradeCategory {
            id: "cat-1".to_owned(),
            name: "Homework".to_owned(),
            weight: "123400".to_owned(),
            default_grade_denominator: "100".to_owned(),
        }],
    }
}

fn gradebook_json() -> Json {
    Json::Obj(vec![
        m("calculationType", s("WEIGHTED_CATEGORIES")),
        m("displaySetting", s("SHOW_OVERALL_GRADE")),
        m(
            "gradeCategories",
            Json::Arr(vec![Json::Obj(vec![
                m("id", s("cat-1")),
                m("name", s("Homework")),
                m("weight", s("123400")),
                m("defaultGradeDenominator", s("100")),
            ])]),
        ),
    ])
}

#[test]
fn gradebook_settings_round_trips() {
    let v = gradebook();
    let j = v.encode();
    assert_eq!(j, gradebook_json());
    assert_eq!(GradebookSettings::decode(&j), Ok(v));
}

#[test]
fn gradebook_settings_rejects_bad_category() {
    let j = Json::Obj(vec![
        m("calculationType", s("TOTAL_POINTS")),
        m("displaySetting", s("SHOW_OVERALL_GRADE")),
        m("gradeCategories", Json::Arr(vec![Json::Obj(vec![m("id", s("only"))])])),
    ]);
    assert!(GradebookSettings::decode(&j).is_err());
}

fn full_course_json() -> Json {
    Json::Obj(vec![
        m("id", s("c-77")),
        m("name", s("Biology")),
        m("ownerId", s("108987654321098765432")),
        m("creationTime", s("2021-01-01T00:00:00Z")),
        m("updateTime", s("2021-06-15T12:30:45Z")),
        m("enrollmentCode", s("abcd")),
        m("courseState", s("ACTIVE")),
        m("alternateLink", s("https://classroom.example/c-77")),
        m("teacherGroupEmail", s("teachers@school.edu")),
        m("courseGroupEmail", s("course@school.edu")),
        m(
            "teacherFolder",
            Json::Obj(vec![
                m("id", s("folder-1")),
                m("title", s("Biology materials")),
                m("alternateLink", s("https://drive.example/folder-1")),
            ]),
        ),
        m("guardiansEnabled", Json::Bool(true)),
        m("calendarId", s("cal-9")),
        m("gradebookSettings", gradebook_json()),
    ])
}

#[test]
fn course_decodes_full_payload() {
    let v = Course::decode(&full_course_json()).unwrap();
    assert_eq!(v.id, "c-77");
    assert_eq!(v.owner_id, OwnerId::Id("108987654321098765432".to_owned()));
    assert_eq!(v.creation_time, Timestamp { seconds: 1609459200, nanos: 0 });
    assert_eq!(v.update_time, Timestamp { seconds: 1623760245, nanos: 0 });
    assert_eq!(v.section, None);
    assert_eq!(v.course_state, Some(CourseState::Active));
    assert_eq!(
        v.teacher_folder,
        Some(DriveFolder {
            id: "folder-1".to_owned(),
            title: "Biology materials".to_owned(),
            alternate_link: "https://drive.example/folder-1".to_owned(),
        })
    );
    assert!(v.guardians_enabled);
    assert_eq!(v.gradebook_settings, gradebook());
}

#[test]
fn course_decode_normalises_timestamp_offset() {
    let mut fields = match full_course_json() {
        Json::Obj(f) => f,
        _ => unreachable!(),
    };
    for f in fields.iter_mut() {
        if f.key == "creationTime" {
            f.value = s("2021-01-01T02:00:00+02:00");
        }
    }
    let v = Course::decode(&Json::Obj(fields)).unwrap();
    assert_eq!(v.creation_time, Timestamp { seconds: 1609459200, nanos: 0 });
}

#[test]
fn course_decode_bad_timestamp_is_error() {
    let mut fields = match full_course_json() {
        Json::Obj(f) => f,
        _ => unreachable!(),
    };
    for f in fields.iter_mut() {
        if f.key == "updateTime" {
            f.value = s("not-a-date");
        }
    }
    assert!(Course::decode(&Json::Obj(fields)).is_err());
}

#[test]
fn course_encode_writes_rfc3339_timestamps() {
    let v = Course::decode(&full_course_json()).unwrap();
    let j = v.encode().unwrap();
    assert_eq!(get(&j, "creationTime"), Some(&s("2021-01-01T00:00:00Z")));
    assert_eq!(get(&j, "updateTime"), Some(&s("2021-06-15T12:30:45Z")));
    assert_eq!(get(&j, "id"), Some(&s("c-77")));
    assert_eq!(get(&j, "section"), None);
}

#[test]
fn course_encode_decode_round_trips() {
    let v = Course::decode(&full_course_json()).unwrap();
    let j = v.encode().unwrap();
    assert_eq!(Course::decode(&j), Ok(v));
}

#[test]
fn course_encode_fails_outside_representable_dates() {
    let mut v = Course::decode(&full_course_json()).unwrap();
    v.creation_time = Timestamp { seconds: i64::MAX, nanos: 0 };
    assert!(v.encode().is_err());
}

#[test]
fn course_decode_missing_gradebook_is_error() {
    let j = Json::Obj(vec![
        m("id", s("c-77")),
        m("name", s("Biology")),
        m("ownerId", s("me")),
        m("creationTime", s("2021-01-01T00:00:00Z")),
        m("updateTime", s("2021-01-01T00:00:00Z")),
        m("enrollmentCode", s("abcd")),
        m("alternateLink", s("l")),
        m("teacherGroupEmail", s("t@s.e")),
        m("courseGroupEmail", s("c@s.e")),
        m("guardiansEnabled", Json::Bool(false)),
        m("calendarId", s("cal")),
    ]);
    let e = Course::decode(&j).unwrap_err();
    assert_eq!(e.path, vec!["gradebookSettings".to_owned()]);
}

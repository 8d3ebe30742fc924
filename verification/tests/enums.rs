use classroom_model::courses::{CalculationType, CourseState, DisplaySetting};
use classroom_model::model::{AssigneeMode, CourseWorkType, DriveFileShareMode};

#[test]
fn course_state_decodes_documented_texts() {
    assert_eq!(CourseState::decode("ARCHIVED"), Ok(CourseState::Archived));
    assert_eq!(CourseState::decode("ACTIVE"), Ok(CourseState::Active));
    assert_eq!(CourseState::decode("PROVISIONED"), Ok(CourseState::Provisioned));
    assert_eq!(CourseState::decode("DECLINED"), Ok(CourseState::Declined));
    assert_eq!(CourseState::decode("SUSPENDED"), Ok(CourseState::Suspended));
    assert_eq!(
        CourseState::decode("COURSE_STATE_UNSPECIFIED"),
        Ok(CourseState::CourseStateUnspecified)
    );
}

#[test]
fn course_state_rejects_unknown_text() {
    assert!(CourseState::decode("DELETED").is_err());
    assert!(CourseState::decode("active").is_err());
    assert!(CourseState::decode("").is_err());
}

#[test]
fn course_state_encodes_documented_texts() {
    assert_eq!(CourseState::Archived.encode(), "ARCHIVED");
    assert_eq!(
        CourseState::CourseStateUnspecified.encode(),
        "COURSE_STATE_UNSPECIFIED"
    );
}

#[test]
fn calculation_type_round_trips_and_rejects_unknown() {
    assert_eq!(
        CalculationType::decode("TOTAL_POINTS"),
        Ok(CalculationType::TotalPoints)
    );
    assert_eq!(
        CalculationType::decode("WEIGHTED_CATEGORIES"),
        Ok(CalculationType::WeightedCategories)
    );
    assert_eq!(CalculationType::TotalPoints.encode(), "TOTAL_POINTS");
    assert!(CalculationType::decode("POINTS").is_err());
}

#[test]
fn display_setting_round_trips_and_rejects_unknown() {
    assert_eq!(
        DisplaySetting::decode("SHOW_OVERALL_GRADE"),
        Ok(DisplaySetting::ShowOverallGrade)
    );
    assert_eq!(
        DisplaySetting::decode("HIDE_OVERALL_GRADE"),
        Ok(DisplaySetting::HideOverallGrade)
    );
    assert_eq!(
        DisplaySetting::decode("SHOW_TEACHERS_ONLY"),
        Ok(DisplaySetting::ShowTeachersOnly)
    );
    assert_eq!(DisplaySetting::ShowTeachersOnly.encode(), "SHOW_TEACHERS_ONLY");
    assert!(DisplaySetting::decode("SHOW").is_err());
}

#[test]
fn assignee_mode_round_trips_and_rejects_unknown() {
    assert_eq!(
        AssigneeMode::decode("ALL_STUDENTS"),
        Ok(AssigneeMode::AllStudents)
    );
    assert_eq!(
        AssigneeMode::decode("INDIVIDUAL_STUDENTS"),
        Ok(AssigneeMode::IndividiualStudents)
    );
    assert_eq!(
        AssigneeMode::decode("ASSIGNEE_MODE_UNSPECIFIED"),
        Ok(AssigneeMode::AssigneeModeUnspecified)
    );
    assert_eq!(AssigneeMode::AllStudents.encode(), "ALL_STUDENTS");
    assert!(AssigneeMode::decode("EVERYONE").is_err());
}

#[test]
fn course_work_type_round_trips_and_rejects_unknown() {
    assert_eq!(
        CourseWorkType::decode("ASSIGNMENT"),
        Ok(CourseWorkType::Assignment)
    );
    assert_eq!(
        CourseWorkType::decode("SHORT_ANSWER_QUESTION"),
        Ok(CourseWorkType::ShortAnswerQuestion)
    );
    assert_eq!(
        CourseWorkType::decode("MULTIPLE_CHOICE_QUESTION"),
        Ok(CourseWorkType::MultipleChoiceQuestion)
    );
    assert_eq!(CourseWorkType::Assignment.encode(), "ASSIGNMENT");
    assert!(CourseWorkType::decode("QUIZ").is_err());
}

#[test]
fn share_mode_round_trips_and_rejects_unknown() {
    assert_eq!(DriveFileShareMode::decode("VIEW"), Ok(DriveFileShareMode::View));
    assert_eq!(DriveFileShareMode::decode("EDIT"), Ok(DriveFileShareMode::Edit));
    assert_eq!(
        DriveFileShareMode::decode("STUDENT_COPY"),
        Ok(DriveFileShareMode::StudentCopy)
    );
    assert_eq!(
        DriveFileShareMode::decode("UNKNOWN_SHARE_MODE"),
        Ok(DriveFileShareMode::UnknownShareMode)
    );
    assert_eq!(DriveFileShareMode::Edit.encode(), "EDIT");
    assert!(DriveFileShareMode::decode("SHARE").is_err());
}

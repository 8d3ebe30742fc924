//! Attachment and coursework schema types: drive items, forms, links,
//! videos, grade categories, and the tagged `Material` union over them.
//!
//! Every type carries a verified `encode` to and `decode` from the wire
//! model [`Json`]. Decoding rejects payloads that do not match the schema;
//! closed enums reject every unrecognised text. Unknown members of an object
//! are ignored, as the remote service may add fields.

use vstd::prelude::*;

use crate::error::DecodeError;
use crate::json::{
    encode_str_arr, fields_view, get_req_str, get_req_str_arr, lemma_lookup_append,
    lemma_lookup_member_v, lookup, member_v, obj_lookup, push_member, push_str_member,
    req_str_arr_field, req_str_field, str_arr_json, str_eq, Json, JsonMember, JsonMemberV,
    JsonV,
};

verus! {

/// Possible modes of assigning coursework/announcements.
#[derive(Debug, Hash, PartialEq, Eq, PartialOrd, Structural)]
pub enum AssigneeMode {
    /// No mode specified. This is never returned.
    AssigneeModeUnspecified,
    /// All students can see the item. This is the default state.
    AllStudents,
    /// A subset of the students can see the item.
    IndividiualStudents,
}

/// The wire text of an assignee mode.
pub open spec fn assignee_mode_text(v: AssigneeMode) -> Seq<char> {
    match v {
        AssigneeMode::AssigneeModeUnspecified => "ASSIGNEE_MODE_UNSPECIFIED"@,
        AssigneeMode::AllStudents => "ALL_STUDENTS"@,
        AssigneeMode::IndividiualStudents => "INDIVIDUAL_STUDENTS"@,
    }
}

/// The assignee mode a wire text names, if any.
pub open spec fn assignee_mode_of_text(s: Seq<char>) -> Option<AssigneeMode> {
    if s == "ASSIGNEE_MODE_UNSPECIFIED"@ {
        Some(AssigneeMode::AssigneeModeUnspecified)
    } else if s == "ALL_STUDENTS"@ {
        Some(AssigneeMode::AllStudents)
    } else if s == "INDIVIDUAL_STUDENTS"@ {
        Some(AssigneeMode::IndividiualStudents)
    } else {
        None
    }
}

impl AssigneeMode {
    /// The wire text of this mode.
    pub fn encode(&self) -> (r: String)
        ensures
            r@ == assignee_mode_text(*self),
    {
        match self {
            AssigneeMode::AssigneeModeUnspecified => "ASSIGNEE_MODE_UNSPECIFIED".to_owned(),
            AssigneeMode::AllStudents => "ALL_STUDENTS".to_owned(),
            AssigneeMode::IndividiualStudents => "INDIVIDUAL_STUDENTS".to_owned(),
        }
    }

    /// The mode a wire text names; an unrecognised text is an error, never
    /// a fallback variant.
    pub fn decode(s: &str) -> (r: Result<AssigneeMode, DecodeError>)
        ensures
            match r {
                Ok(v) => assignee_mode_of_text(s@) == Some(v),
                Err(_) => assignee_mode_of_text(s@) is None,
            },
    {
        if str_eq(s, "ASSIGNEE_MODE_UNSPECIFIED") {
            Ok(AssigneeMode::AssigneeModeUnspecified)
        } else if str_eq(s, "ALL_STUDENTS") {
            Ok(AssigneeMode::AllStudents)
        } else if str_eq(s, "INDIVIDUAL_STUDENTS") {
            Ok(AssigneeMode::IndividiualStudents)
        } else {
            Err(DecodeError::here())
        }
    }
}

/// Decoding the wire text of an assignee mode gives that mode back.
pub proof fn lemma_assignee_mode_round_trip(v: AssigneeMode)
    ensures
        assignee_mode_of_text(assignee_mode_text(v)) == Some(v),
{
    reveal_strlit("ASSIGNEE_MODE_UNSPECIFIED");
    reveal_strlit("ALL_STUDENTS");
    reveal_strlit("INDIVIDUAL_STUDENTS");
    assert("ASSIGNEE_MODE_UNSPECIFIED"@.len() == 25);
    assert("ALL_STUDENTS"@.len() == 12);
    assert("INDIVIDUAL_STUDENTS"@.len() == 19);
}

/// Possible types of work.
#[derive(Debug, Hash, PartialEq, Eq, PartialOrd, Structural)]
pub enum CourseWorkType {
    /// No work type specified. This is never returned.
    CourseWorkTypeUnspecified,
    /// An assignment.
    Assignment,
    /// A short answer question.
    ShortAnswerQuestion,
    /// A multiple-choice question.
    MultipleChoiceQuestion,
}

/// The wire text of a work type.
pub open spec fn course_work_type_text(v: CourseWorkType) -> Seq<char> {
    match v {
        CourseWorkType::CourseWorkTypeUnspecified => "COURSE_WORK_TYPE_UNSPECIFIED"@,
        CourseWorkType::Assignment => "ASSIGNMENT"@,
        CourseWorkType::ShortAnswerQuestion => "SHORT_ANSWER_QUESTION"@,
        CourseWorkType::MultipleChoiceQuestion => "MULTIPLE_CHOICE_QUESTION"@,
    }
}

/// The work type a wire text names, if any.
pub open spec fn course_work_type_of_text(s: Seq<char>) -> Option<CourseWorkType> {
    if s == "COURSE_WORK_TYPE_UNSPECIFIED"@ {
        Some(CourseWorkType::CourseWorkTypeUnspecified)
    } else if s == "ASSIGNMENT"@ {
        Some(CourseWorkType::Assignment)
    } else if s == "SHORT_ANSWER_QUESTION"@ {
        Some(CourseWorkType::ShortAnswerQuestion)
    } else if s == "MULTIPLE_CHOICE_QUESTION"@ {
        Some(CourseWorkType::MultipleChoiceQuestion)
    } else {
        None
    }
}

impl CourseWorkType {
    /// The wire text of this work type.
    pub fn encode(&self) -> (r: String)
        ensures
            r@ == course_work_type_text(*self),
    {
        match self {
            CourseWorkType::CourseWorkTypeUnspecified => "COURSE_WORK_TYPE_UNSPECIFIED".to_owned(),
            CourseWorkType::Assignment => "ASSIGNMENT".to_owned(),
            CourseWorkType::ShortAnswerQuestion => "SHORT_ANSWER_QUESTION".to_owned(),
            CourseWorkType::MultipleChoiceQuestion => "MULTIPLE_CHOICE_QUESTION".to_owned(),
        }
    }

    /// The work type a wire text names; an unrecognised text is an error.
    pub fn decode(s: &str) -> (r: Result<CourseWorkType, DecodeError>)
        ensures
            match r {
                Ok(v) => course_work_type_of_text(s@) == Some(v),
                Err(_) => course_work_type_of_text(s@) is None,
            },
    {
        if str_eq(s, "COURSE_WORK_TYPE_UNSPECIFIED") {
            Ok(CourseWorkType::CourseWorkTypeUnspecified)
        } else if str_eq(s, "ASSIGNMENT") {
            Ok(CourseWorkType::Assignment)
        } else if str_eq(s, "SHORT_ANSWER_QUESTION") {
            Ok(CourseWorkType::ShortAnswerQuestion)
        } else if str_eq(s, "MULTIPLE_CHOICE_QUESTION") {
            Ok(CourseWorkType::MultipleChoiceQuestion)
        } else {
            Err(DecodeError::here())
        }
    }
}

/// Decoding the wire text of a work type gives that work type back.
pub proof fn lemma_course_work_type_round_trip(v: CourseWorkType)
    ensures
        course_work_type_of_text(course_work_type_text(v)) == Some(v),
{
    reveal_strlit("COURSE_WORK_TYPE_UNSPECIFIED");
    reveal_strlit("ASSIGNMENT");
    reveal_strlit("SHORT_ANSWER_QUESTION");
    reveal_strlit("MULTIPLE_CHOICE_QUESTION");
    assert("COURSE_WORK_TYPE_UNSPECIFIED"@.len() == 28);
    assert("ASSIGNMENT"@.len() == 10);
    assert("SHORT_ANSWER_QUESTION"@.len() == 21);
    assert("MULTIPLE_CHOICE_QUESTION"@.len() == 24);
}

/// Possible sharing options. Defaults to view access if left unspecified,
/// and other values may only be specified within a course work object of
/// assignment type.
#[derive(Debug, Hash, PartialEq, Eq, Structural)]
pub enum DriveFileShareMode {
    /// No sharing mode specified. This should never be returned.
    UnknownShareMode,
    /// Students can view the shared file.
    View,
    /// Students can edit the shared file.
    Edit,
    /// Students have a personal copy of the shared file.
    StudentCopy,
}

/// The wire text of a share mode.
pub open spec fn share_mode_text(v: DriveFileShareMode) -> Seq<char> {
    match v {
        DriveFileShareMode::UnknownShareMode => "UNKNOWN_SHARE_MODE"@,
        DriveFileShareMode::View => "VIEW"@,
        DriveFileShareMode::Edit => "EDIT"@,
        DriveFileShareMode::StudentCopy => "STUDENT_COPY"@,
    }
}

/// The share mode a wire text names, if any.
pub open spec fn share_mode_of_text(s: Seq<char>) -> Option<DriveFileShareMode> {
    if s == "UNKNOWN_SHARE_MODE"@ {
        Some(DriveFileShareMode::UnknownShareMode)
    } else if s == "VIEW"@ {
        Some(DriveFileShareMode::View)
    } else if s == "EDIT"@ {
        Some(DriveFileShareMode::Edit)
    } else if s == "STUDENT_COPY"@ {
        Some(DriveFileShareMode::StudentCopy)
    } else {
        None
    }
}

impl DriveFileShareMode {
    /// The wire text of this share mode.
    pub fn encode(&self) -> (r: String)
        ensures
            r@ == share_mode_text(*self),
    {
        match self {
            DriveFileShareMode::UnknownShareMode => "UNKNOWN_SHARE_MODE".to_owned(),
            DriveFileShareMode::View => "VIEW".to_owned(),
            DriveFileShareMode::Edit => "EDIT".to_owned(),
            DriveFileShareMode::StudentCopy => "STUDENT_COPY".to_owned(),
        }
    }

    /// The share mode a wire text names; an unrecognised text is an error.
    pub fn decode(s: &str) -> (r: Result<DriveFileShareMode, DecodeError>)
        ensures
            match r {
                Ok(v) => share_mode_of_text(s@) == Some(v),
                Err(_) => share_mode_of_text(s@) is None,
            },
    {
        if str_eq(s, "UNKNOWN_SHARE_MODE") {
            Ok(DriveFileShareMode::UnknownShareMode)
        } else if str_eq(s, "VIEW") {
            Ok(DriveFileShareMode::View)
        } else if str_eq(s, "EDIT") {
            Ok(DriveFileShareMode::Edit)
        } else if str_eq(s, "STUDENT_COPY") {
            Ok(DriveFileShareMode::StudentCopy)
        } else {
            Err(DecodeError::here())
        }
    }
}

/// Decoding the wire text of a share mode gives that share mode back.
pub proof fn lemma_share_mode_round_trip(v: DriveFileShareMode)
    ensures
        share_mode_of_text(share_mode_text(v)) == Some(v),
{
    reveal_strlit("UNKNOWN_SHARE_MODE");
    reveal_strlit("VIEW");
    reveal_strlit("EDIT");
    reveal_strlit("STUDENT_COPY");
    assert("UNKNOWN_SHARE_MODE"@.len() == 18);
    assert("VIEW"@.len() == 4);
    assert("EDIT"@.len() == 4);
    assert("STUDENT_COPY"@.len() == 12);
    assert("VIEW"@[0] != "EDIT"@[0]);
}

/// Representation of a Google Drive file.
#[derive(Debug, Hash, PartialEq, Eq)]
pub struct DriveFile {
    /// Drive API resource ID.
    pub id: String,
    /// Title of the Drive item.
    pub title: String,
    /// URL that can be used to access the Drive item.
    pub alternate_link: String,
    /// URL of a thumbnail image of the Drive item.
    pub thumbnail_url: String,
}

/// The model of a [`DriveFile`].
#[verifier::ext_equal]
pub struct DriveFileV {
    pub id: Seq<char>,
    pub title: Seq<char>,
    pub alternate_link: Seq<char>,
    pub thumbnail_url: Seq<char>,
}

impl View for DriveFile {
    type V = DriveFileV;

    open spec fn view(&self) -> DriveFileV {
        DriveFileV {
            id: self.id@,
            title: self.title@,
            alternate_link: self.alternate_link@,
            thumbnail_url: self.thumbnail_url@,
        }
    }
}

/// The wire object of a drive file.
pub open spec fn drive_file_json(v: DriveFileV) -> JsonV {
    JsonV::Obj(
        member_v("id"@, JsonV::Str(v.id)) + member_v("title"@, JsonV::Str(v.title)) + member_v(
            "alternateLink"@,
            JsonV::Str(v.alternate_link),
        ) + member_v("thumbnailUrl"@, JsonV::Str(v.thumbnail_url)),
    )
}

/// The drive file a wire value describes, if it matches the schema.
pub open spec fn drive_file_of_json(j: JsonV) -> Option<DriveFileV> {
    match (
        req_str_field(j, "id"@),
        req_str_field(j, "title"@),
        req_str_field(j, "alternateLink"@),
        req_str_field(j, "thumbnailUrl"@),
    ) {
        (Some(id), Some(title), Some(alternate_link), Some(thumbnail_url)) => Some(
            DriveFileV { id, title, alternate_link, thumbnail_url },
        ),
        _ => None,
    }
}

impl DriveFile {
    /// Encodes this drive file as a wire object.
    pub fn encode(&self) -> (r: Json)
        ensures
            r@ == drive_file_json(self@),
    {
        let mut fields: Vec<JsonMember> = Vec::new();
        push_str_member(&mut fields, "id", &self.id);
        push_str_member(&mut fields, "title", &self.title);
        push_str_member(&mut fields, "alternateLink", &self.alternate_link);
        push_str_member(&mut fields, "thumbnailUrl", &self.thumbnail_url);
        let r = Json::Obj(fields);
        proof {
            assert(r@ =~= drive_file_json(self@));
        }
        r
    }

    /// Decodes a drive file from a wire value; every member must be present
    /// as a string.
    pub fn decode(j: &Json) -> (r: Result<DriveFile, DecodeError>)
        ensures
            match r {
                Ok(v) => drive_file_of_json(j@) == Some(v@),
                Err(_) => drive_file_of_json(j@) is None,
            },
    {
        let id = get_req_str(j, "id")?;
        let title = get_req_str(j, "title")?;
        let alternate_link = get_req_str(j, "alternateLink")?;
        let thumbnail_url = get_req_str(j, "thumbnailUrl")?;
        Ok(DriveFile { id, title, alternate_link, thumbnail_url })
    }
}

proof fn lemma_drive_file_lookup(v: DriveFileV, q: Seq<char>)
    ensures
        lookup(drive_file_json(v)->Obj_0, q) == (if q == "id"@ {
            Some(JsonV::Str(v.id))
        } else if q == "title"@ {
            Some(JsonV::Str(v.title))
        } else if q == "alternateLink"@ {
            Some(JsonV::Str(v.alternate_link))
        } else if q == "thumbnailUrl"@ {
            Some(JsonV::Str(v.thumbnail_url))
        } else {
            None::<JsonV>
        }),
{
    let p1 = member_v("id"@, JsonV::Str(v.id));
    let p2 = member_v("title"@, JsonV::Str(v.title));
    let p3 = member_v("alternateLink"@, JsonV::Str(v.alternate_link));
    let p4 = member_v("thumbnailUrl"@, JsonV::Str(v.thumbnail_url));
    lemma_lookup_append(p1 + p2 + p3, p4, q);
    lemma_lookup_append(p1 + p2, p3, q);
    lemma_lookup_append(p1, p2, q);
    lemma_lookup_member_v("id"@, JsonV::Str(v.id), q);
    lemma_lookup_member_v("title"@, JsonV::Str(v.title), q);
    lemma_lookup_member_v("alternateLink"@, JsonV::Str(v.alternate_link), q);
    lemma_lookup_member_v("thumbnailUrl"@, JsonV::Str(v.thumbnail_url), q);
}

/// Decoding an encoded drive file gives the same value back: every field
/// round-trips through the wire object.
pub proof fn lemma_drive_file_round_trip(v: DriveFileV)
    ensures
        drive_file_of_json(drive_file_json(v)) == Some(v),
{
    reveal_strlit("id");
    reveal_strlit("title");
    reveal_strlit("alternateLink");
    reveal_strlit("thumbnailUrl");
    assert("id"@.len() == 2);
    assert("title"@.len() == 5);
    assert("alternateLink"@.len() == 13);
    assert("thumbnailUrl"@.len() == 12);
    lemma_drive_file_lookup(v, "id"@);
    lemma_drive_file_lookup(v, "title"@);
    lemma_drive_file_lookup(v, "alternateLink"@);
    lemma_drive_file_lookup(v, "thumbnailUrl"@);
}

/// Representation of a Google Drive folder.
#[derive(Debug, Hash, PartialEq, Eq)]
pub struct DriveFolder {
    /// Drive API resource ID.
    pub id: String,
    /// Title of the Drive folder.
    pub title: String,
    /// URL that can be used to access the Drive folder.
    pub alternate_link: String,
}

/// The model of a [`DriveFolder`].
#[verifier::ext_equal]
pub struct DriveFolderV {
    pub id: Seq<char>,
    pub title: Seq<char>,
    pub alternate_link: Seq<char>,
}

impl View for DriveFolder {
    type V = DriveFolderV;

    open spec fn view(&self) -> DriveFolderV {
        DriveFolderV { id: self.id@, title: self.title@, alternate_link: self.alternate_link@ }
    }
}

impl DeepView for DriveFolder {
    type V = DriveFolderV;

    open spec fn deep_view(&self) -> DriveFolderV {
        self.view()
    }
}

/// The wire object of a drive folder.
pub open spec fn drive_folder_json(v: DriveFolderV) -> JsonV {
    JsonV::Obj(
        member_v("id"@, JsonV::Str(v.id)) + member_v("title"@, JsonV::Str(v.title)) + member_v(
            "alternateLink"@,
            JsonV::Str(v.alternate_link),
        ),
    )
}

/// The drive folder a wire value describes, if it matches the schema.
pub open spec fn drive_folder_of_json(j: JsonV) -> Option<DriveFolderV> {
    match (
        req_str_field(j, "id"@),
        req_str_field(j, "title"@),
        req_str_field(j, "alternateLink"@),
    ) {
        (Some(id), Some(title), Some(alternate_link)) => Some(
            DriveFolderV { id, title, alternate_link },
        ),
        _ => None,
    }
}

impl DriveFolder {
    /// Encodes this drive folder as a wire object.
    pub fn encode(&self) -> (r: Json)
        ensures
            r@ == drive_folder_json(self@),
    {
        let mut fields: Vec<JsonMember> = Vec::new();
        push_str_member(&mut fields, "id", &self.id);
        push_str_member(&mut fields, "title", &self.title);
        push_str_member(&mut fields, "alternateLink", &self.alternate_link);
        let r = Json::Obj(fields);
        proof {
            assert(r@ =~= drive_folder_json(self@));
        }
        r
    }

    /// Decodes a drive folder from a wire value.
    pub fn decode(j: &Json) -> (r: Result<DriveFolder, DecodeError>)
        ensures
            match r {
                Ok(v) => drive_folder_of_json(j@) == Some(v@),
                Err(_) => drive_folder_of_json(j@) is None,
            },
    {
        let id = get_req_str(j, "id")?;
        let title = get_req_str(j, "title")?;
        let alternate_link = get_req_str(j, "alternateLink")?;
        Ok(DriveFolder { id, title, alternate_link })
    }
}

proof fn lemma_drive_folder_lookup(v: DriveFolderV, q: Seq<char>)
    ensures
        lookup(drive_folder_json(v)->Obj_0, q) == (if q == "id"@ {
            Some(JsonV::Str(v.id))
        } else if q == "title"@ {
            Some(JsonV::Str(v.title))
        } else if q == "alternateLink"@ {
            Some(JsonV::Str(v.alternate_link))
        } else {
            None::<JsonV>
        }),
{
    let p1 = member_v("id"@, JsonV::Str(v.id));
    let p2 = member_v("title"@, JsonV::Str(v.title));
    let p3 = member_v("alternateLink"@, JsonV::Str(v.alternate_link));
    lemma_lookup_append(p1 + p2, p3, q);
    lemma_lookup_append(p1, p2, q);
    lemma_lookup_member_v("id"@, JsonV::Str(v.id), q);
    lemma_lookup_member_v("title"@, JsonV::Str(v.title), q);
    lemma_lookup_member_v("alternateLink"@, JsonV::Str(v.alternate_link), q);
}

/// Decoding an encoded drive folder gives the same value back.
pub proof fn lemma_drive_folder_round_trip(v: DriveFolderV)
    ensures
        drive_folder_of_json(drive_folder_json(v)) == Some(v),
{
    reveal_strlit("id");
    reveal_strlit("title");
    reveal_strlit("alternateLink");
    assert("id"@.len() == 2);
    assert("title"@.len() == 5);
    assert("alternateLink"@.len() == 13);
    lemma_drive_folder_lookup(v, "id"@);
    lemma_drive_folder_lookup(v, "title"@);
    lemma_drive_folder_lookup(v, "alternateLink"@);
}

/// Google Forms item.
#[derive(Debug, Hash, PartialEq, Eq)]
pub struct Form {
    /// URL of the form.
    pub form_url: String,
    /// URL of the form responses document. Only set if responses have been
    /// recorded and only when the requesting user is an editor of the form.
    pub response_url: String,
    /// URL of a thumbnail image of the form.
    pub thumbnail_url: String,
    /// Title of the form.
    pub title: String,
}

/// The model of a [`Form`].
#[verifier::ext_equal]
pub struct FormV {
    pub form_url: Seq<char>,
    pub response_url: Seq<char>,
    pub thumbnail_url: Seq<char>,
    pub title: Seq<char>,
}

impl View for Form {
    type V = FormV;

    open spec fn view(&self) -> FormV {
        FormV {
            form_url: self.form_url@,
            response_url: self.response_url@,
            thumbnail_url: self.thumbnail_url@,
            title: self.title@,
        }
    }
}

/// The wire object of a form.
pub open spec fn form_json(v: FormV) -> JsonV {
    JsonV::Obj(
        member_v("formUrl"@, JsonV::Str(v.form_url)) + member_v(
            "responseUrl"@,
            JsonV::Str(v.response_url),
        ) + member_v("thumbnailUrl"@, JsonV::Str(v.thumbnail_url)) + member_v(
            "title"@,
            JsonV::Str(v.title),
        ),
    )
}

/// The form a wire value describes, if it matches the schema.
pub open spec fn form_of_json(j: JsonV) -> Option<FormV> {
    match (
        req_str_field(j, "formUrl"@),
        req_str_field(j, "responseUrl"@),
        req_str_field(j, "thumbnailUrl"@),
        req_str_field(j, "title"@),
    ) {
        (Some(form_url), Some(response_url), Some(thumbnail_url), Some(title)) => Some(
            FormV { form_url, response_url, thumbnail_url, title },
        ),
        _ => None,
    }
}

impl Form {
    /// Encodes this form as a wire object.
    pub fn encode(&self) -> (r: Json)
        ensures
            r@ == form_json(self@),
    {
        let mut fields: Vec<JsonMember> = Vec::new();
        push_str_member(&mut fields, "formUrl", &self.form_url);
        push_str_member(&mut fields, "responseUrl", &self.response_url);
        push_str_member(&mut fields, "thumbnailUrl", &self.thumbnail_url);
        push_str_member(&mut fields, "title", &self.title);
        let r = Json::Obj(fields);
        proof {
            assert(r@ =~= form_json(self@));
        }
        r
    }

    /// Decodes a form from a wire value.
    pub fn decode(j: &Json) -> (r: Result<Form, DecodeError>)
        ensures
            match r {
                Ok(v) => form_of_json(j@) == Some(v@),
                Err(_) => form_of_json(j@) is None,
            },
    {
        let form_url = get_req_str(j, "formUrl")?;
        let response_url = get_req_str(j, "responseUrl")?;
        let thumbnail_url = get_req_str(j, "thumbnailUrl")?;
        let title = get_req_str(j, "title")?;
        Ok(Form { form_url, response_url, thumbnail_url, title })
    }
}

proof fn lemma_form_lookup(v: FormV, q: Seq<char>)
    ensures
        lookup(form_json(v)->Obj_0, q) == (if q == "formUrl"@ {
            Some(JsonV::Str(v.form_url))
        } else if q == "responseUrl"@ {
            Some(JsonV::Str(v.response_url))
        } else if q == "thumbnailUrl"@ {
            Some(JsonV::Str(v.thumbnail_url))
        } else if q == "title"@ {
            Some(JsonV::Str(v.title))
        } else {
            None::<JsonV>
        }),
{
    let p1 = member_v("formUrl"@, JsonV::Str(v.form_url));
    let p2 = member_v("responseUrl"@, JsonV::Str(v.response_url));
    let p3 = member_v("thumbnailUrl"@, JsonV::Str(v.thumbnail_url));
    let p4 = member_v("title"@, JsonV::Str(v.title));
    lemma_lookup_append(p1 + p2 + p3, p4, q);
    lemma_lookup_append(p1 + p2, p3, q);
    lemma_lookup_append(p1, p2, q);
    lemma_lookup_member_v("formUrl"@, JsonV::Str(v.form_url), q);
    lemma_lookup_member_v("responseUrl"@, JsonV::Str(v.response_url), q);
    lemma_lookup_member_v("thumbnailUrl"@, JsonV::Str(v.thumbnail_url), q);
    lemma_lookup_member_v("title"@, JsonV::Str(v.title), q);
}

/// Decoding an encoded form gives the same value back.
pub proof fn lemma_form_round_trip(v: FormV)
    ensures
        form_of_json(form_json(v)) == Some(v),
{
    reveal_strlit("formUrl");
    reveal_strlit("responseUrl");
    reveal_strlit("thumbnailUrl");
    reveal_strlit("title");
    assert("formUrl"@.len() == 7);
    assert("responseUrl"@.len() == 11);
    assert("thumbnailUrl"@.len() == 12);
    assert("title"@.len() == 5);
    lemma_form_lookup(v, "formUrl"@);
    lemma_form_lookup(v, "responseUrl"@);
    lemma_form_lookup(v, "thumbnailUrl"@);
    lemma_form_lookup(v, "title"@);
}

/// Details for a grade category in a course.
///
/// Coursework may have zero or one grade category, and the category may be
/// used in computing the overall grade.
#[derive(Debug, Hash, PartialEq, Eq)]
pub struct GradeCategory {
    /// ID of the grade category.
    pub id: String,
    /// Name of the grade category.
    pub name: String,
    /// The weight of the category average as part of overall average. A
    /// weight of 12.34% is represented as 123400 (100% is 1,000,000). The
    /// last two digits should always be zero since two decimal places are
    /// used. Only applicable when grade calculation uses weighted categories.
    pub weight: String,
    /// Default value of the denominator. Only applicable when grade
    /// calculation uses total points.
    pub default_grade_denominator: String,
}

/// The model of a [`GradeCategory`].
#[verifier::ext_equal]
pub struct GradeCategoryV {
    pub id: Seq<char>,
    pub name: Seq<char>,
    pub weight: Seq<char>,
    pub default_grade_denominator: Seq<char>,
}

impl View for GradeCategory {
    type V = GradeCategoryV;

    open spec fn view(&self) -> GradeCategoryV {
        GradeCategoryV {
            id: self.id@,
            name: self.name@,
            weight: self.weight@,
            default_grade_denominator: self.default_grade_denominator@,
        }
    }
}

impl DeepView for GradeCategory {
    type V = GradeCategoryV;

    open spec fn deep_view(&self) -> GradeCategoryV {
        self.view()
    }
}

/// The wire object of a grade category.
pub open spec fn grade_category_json(v: GradeCategoryV) -> JsonV {
    JsonV::Obj(
        member_v("id"@, JsonV::Str(v.id)) + member_v("name"@, JsonV::Str(v.name)) + member_v(
            "weight"@,
            JsonV::Str(v.weight),
        ) + member_v("defaultGradeDenominator"@, JsonV::Str(v.default_grade_denominator)),
    )
}

/// The grade category a wire value describes, if it matches the schema.
pub open spec fn grade_category_of_json(j: JsonV) -> Option<GradeCategoryV> {
    match (
        req_str_field(j, "id"@),
        req_str_field(j, "name"@),
        req_str_field(j, "weight"@),
        req_str_field(j, "defaultGradeDenominator"@),
    ) {
        (Some(id), Some(name), Some(weight), Some(default_grade_denominator)) => Some(
            GradeCategoryV { id, name, weight, default_grade_denominator },
        ),
        _ => None,
    }
}

impl GradeCategory {
    /// Encodes this grade category as a wire object.
    pub fn encode(&self) -> (r: Json)
        ensures
            r@ == grade_category_json(self@),
    {
        let mut fields: Vec<JsonMember> = Vec::new();
        push_str_member(&mut fields, "id", &self.id);
        push_str_member(&mut fields, "name", &self.name);
        push_str_member(&mut fields, "weight", &self.weight);
        push_str_member(&mut fields, "defaultGradeDenominator", &self.default_grade_denominator);
        let r = Json::Obj(fields);
        proof {
            assert(r@ =~= grade_category_json(self@));
        }
        r
    }

    /// Decodes a grade category from a wire value.
    pub fn decode(j: &Json) -> (r: Result<GradeCategory, DecodeError>)
        ensures
            match r {
                Ok(v) => grade_category_of_json(j@) == Some(v@),
                Err(_) => grade_category_of_json(j@) is None,
            },
    {
        let id = get_req_str(j, "id")?;
        let name = get_req_str(j, "name")?;
        let weight = get_req_str(j, "weight")?;
        let default_grade_denominator = get_req_str(j, "defaultGradeDenominator")?;
        Ok(GradeCategory { id, name, weight, default_grade_denominator })
    }
}

proof fn lemma_grade_category_lookup(v: GradeCategoryV, q: Seq<char>)
    ensures
        lookup(grade_category_json(v)->Obj_0, q) == (if q == "id"@ {
            Some(JsonV::Str(v.id))
        } else if q == "name"@ {
            Some(JsonV::Str(v.name))
        } else if q == "weight"@ {
            Some(JsonV::Str(v.weight))
        } else if q == "defaultGradeDenominator"@ {
            Some(JsonV::Str(v.default_grade_denominator))
        } else {
            None::<JsonV>
        }),
{
    let p1 = member_v("id"@, JsonV::Str(v.id));
    let p2 = member_v("name"@, JsonV::Str(v.name));
    let p3 = member_v("weight"@, JsonV::Str(v.weight));
    let p4 = member_v("defaultGradeDenominator"@, JsonV::Str(v.default_grade_denominator));
    lemma_lookup_append(p1 + p2 + p3, p4, q);
    lemma_lookup_append(p1 + p2, p3, q);
    lemma_lookup_append(p1, p2, q);
    lemma_lookup_member_v("id"@, JsonV::Str(v.id), q);
    lemma_lookup_member_v("name"@, JsonV::Str(v.name), q);
    lemma_lookup_member_v("weight"@, JsonV::Str(v.weight), q);
    lemma_lookup_member_v("defaultGradeDenominator"@, JsonV::Str(v.default_grade_denominator), q);
}

/// Decoding an encoded grade category gives the same value back.
pub proof fn lemma_grade_category_round_trip(v: GradeCategoryV)
    ensures
        grade_category_of_json(grade_category_json(v)) == Some(v),
{
    reveal_strlit("id");
    reveal_strlit("name");
    reveal_strlit("weight");
    reveal_strlit("defaultGradeDenominator");
    assert("id"@.len() == 2);
    assert("name"@.len() == 4);
    assert("weight"@.len() == 6);
    assert("defaultGradeDenominator"@.len() == 23);
    lemma_grade_category_lookup(v, "id"@);
    lemma_grade_category_lookup(v, "name"@);
    lemma_grade_category_lookup(v, "weight"@);
    lemma_grade_category_lookup(v, "defaultGradeDenominator"@);
}

/// URL item.
#[derive(Debug, Hash, PartialEq, Eq)]
pub struct Link {
    /// URL to link to. This must be a valid UTF-8 string containing between
    /// 1 and 2024 characters.
    pub url: String,
    /// Title of the target of the URL.
    pub title: String,
    /// URL of a thumbnail image of the target URL.
    pub thumbnail_url: String,
}

/// The model of a [`Link`].
#[verifier::ext_equal]
pub struct LinkV {
    pub url: Seq<char>,
    pub title: Seq<char>,
    pub thumbnail_url: Seq<char>,
}

impl View for Link {
    type V = LinkV;

    open spec fn view(&self) -> LinkV {
        LinkV { url: self.url@, title: self.title@, thumbnail_url: self.thumbnail_url@ }
    }
}

/// The wire object of a link.
pub open spec fn link_json(v: LinkV) -> JsonV {
    JsonV::Obj(
        member_v("url"@, JsonV::Str(v.url)) + member_v("title"@, JsonV::Str(v.title)) + member_v(
            "thumbnailUrl"@,
            JsonV::Str(v.thumbnail_url),
        ),
    )
}

/// The link a wire value describes, if it matches the schema.
pub open spec fn link_of_json(j: JsonV) -> Option<LinkV> {
    match (
        req_str_field(j, "url"@),
        req_str_field(j, "title"@),
        req_str_field(j, "thumbnailUrl"@),
    ) {
        (Some(url), Some(title), Some(thumbnail_url)) => Some(
            LinkV { url, title, thumbnail_url },
        ),
        _ => None,
    }
}

impl Link {
    /// Encodes this link as a wire object.
    pub fn encode(&self) -> (r: Json)
        ensures
            r@ == link_json(self@),
    {
        let mut fields: Vec<JsonMember> = Vec::new();
        push_str_member(&mut fields, "url", &self.url);
        push_str_member(&mut fields, "title", &self.title);
        push_str_member(&mut fields, "thumbnailUrl", &self.thumbnail_url);
        let r = Json::Obj(fields);
        proof {
            assert(r@ =~= link_json(self@));
        }
        r
    }

    /// Decodes a link from a wire value.
    pub fn decode(j: &Json) -> (r: Result<Link, DecodeError>)
        ensures
            match r {
                Ok(v) => link_of_json(j@) == Some(v@),
                Err(_) => link_of_json(j@) is None,
            },
    {
        let url = get_req_str(j, "url")?;
        let title = get_req_str(j, "title")?;
        let thumbnail_url = get_req_str(j, "thumbnailUrl")?;
        Ok(Link { url, title, thumbnail_url })
    }
}

proof fn lemma_link_lookup(v: LinkV, q: Seq<char>)
    ensures
        lookup(link_json(v)->Obj_0, q) == (if q == "url"@ {
            Some(JsonV::Str(v.url))
        } else if q == "title"@ {
            Some(JsonV::Str(v.title))
        } else if q == "thumbnailUrl"@ {
            Some(JsonV::Str(v.thumbnail_url))
        } else {
            None::<JsonV>
        }),
{
    let p1 = member_v("url"@, JsonV::Str(v.url));
    let p2 = member_v("title"@, JsonV::Str(v.title));
    let p3 = member_v("thumbnailUrl"@, JsonV::Str(v.thumbnail_url));
    lemma_lookup_append(p1 + p2, p3, q);
    lemma_lookup_append(p1, p2, q);
    lemma_lookup_member_v("url"@, JsonV::Str(v.url), q);
    lemma_lookup_member_v("title"@, JsonV::Str(v.title), q);
    lemma_lookup_member_v("thumbnailUrl"@, JsonV::Str(v.thumbnail_url), q);
}

/// Decoding an encoded link gives the same value back.
pub proof fn lemma_link_round_trip(v: LinkV)
    ensures
        link_of_json(link_json(v)) == Some(v),
{
    reveal_strlit("url");
    reveal_strlit("title");
    reveal_strlit("thumbnailUrl");
    assert("url"@.len() == 3);
    assert("title"@.len() == 5);
    assert("thumbnailUrl"@.len() == 12);
    lemma_link_lookup(v, "url"@);
    lemma_link_lookup(v, "title"@);
    lemma_link_lookup(v, "thumbnailUrl"@);
}

/// YouTube video item.
#[derive(Debug, Hash, PartialEq, Eq)]
pub struct YouTubeVideo {
    /// YouTube API resource ID.
    pub id: String,
    /// Title of the YouTube video.
    pub title: String,
    /// URL that can be used to view the YouTube video.
    pub alternate_link: String,
    /// URL of a thumbnail image of the YouTube video.
    pub thumbnail_url: String,
}

/// The model of a [`YouTubeVideo`].
#[verifier::ext_equal]
pub struct YouTubeVideoV {
    pub id: Seq<char>,
    pub title: Seq<char>,
    pub alternate_link: Seq<char>,
    pub thumbnail_url: Seq<char>,
}

impl View for YouTubeVideo {
    type V = YouTubeVideoV;

    open spec fn view(&self) -> YouTubeVideoV {
        YouTubeVideoV {
            id: self.id@,
            title: self.title@,
            alternate_link: self.alternate_link@,
            thumbnail_url: self.thumbnail_url@,
        }
    }
}

/// The wire object of a YouTube video.
pub open spec fn youtube_video_json(v: YouTubeVideoV) -> JsonV {
    JsonV::Obj(
        member_v("id"@, JsonV::Str(v.id)) + member_v("title"@, JsonV::Str(v.title)) + member_v(
            "alternateLink"@,
            JsonV::Str(v.alternate_link),
        ) + member_v("thumbnailUrl"@, JsonV::Str(v.thumbnail_url)),
    )
}

/// The YouTube video a wire value describes, if it matches the schema.
pub open spec fn youtube_video_of_json(j: JsonV) -> Option<YouTubeVideoV> {
    match (
        req_str_field(j, "id"@),
        req_str_field(j, "title"@),
        req_str_field(j, "alternateLink"@),
        req_str_field(j, "thumbnailUrl"@),
    ) {
        (Some(id), Some(title), Some(alternate_link), Some(thumbnail_url)) => Some(
            YouTubeVideoV { id, title, alternate_link, thumbnail_url },
        ),
        _ => None,
    }
}

impl YouTubeVideo {
    /// Encodes this video as a wire object.
    pub fn encode(&self) -> (r: Json)
        ensures
            r@ == youtube_video_json(self@),
    {
        let mut fields: Vec<JsonMember> = Vec::new();
        push_str_member(&mut fields, "id", &self.id);
        push_str_member(&mut fields, "title", &self.title);
        push_str_member(&mut fields, "alternateLink", &self.alternate_link);
        push_str_member(&mut fields, "thumbnailUrl", &self.thumbnail_url);
        let r = Json::Obj(fields);
        proof {
            assert(r@ =~= youtube_video_json(self@));
        }
        r
    }

    /// Decodes a video from a wire value.
    pub fn decode(j: &Json) -> (r: Result<YouTubeVideo, DecodeError>)
        ensures
            match r {
                Ok(v) => youtube_video_of_json(j@) == Some(v@),
                Err(_) => youtube_video_of_json(j@) is None,
            },
    {
        let id = get_req_str(j, "id")?;
        let title = get_req_str(j, "title")?;
        let alternate_link = get_req_str(j, "alternateLink")?;
        let thumbnail_url = get_req_str(j, "thumbnailUrl")?;
        Ok(YouTubeVideo { id, title, alternate_link, thumbnail_url })
    }
}

proof fn lemma_youtube_video_lookup(v: YouTubeVideoV, q: Seq<char>)
    ensures
        lookup(youtube_video_json(v)->Obj_0, q) == (if q == "id"@ {
            Some(JsonV::Str(v.id))
        } else if q == "title"@ {
            Some(JsonV::Str(v.title))
        } else if q == "alternateLink"@ {
            Some(JsonV::Str(v.alternate_link))
        } else if q == "thumbnailUrl"@ {
            Some(JsonV::Str(v.thumbnail_url))
        } else {
            None::<JsonV>
        }),
{
    let p1 = member_v("id"@, JsonV::Str(v.id));
    let p2 = member_v("title"@, JsonV::Str(v.title));
    let p3 = member_v("alternateLink"@, JsonV::Str(v.alternate_link));
    let p4 = member_v("thumbnailUrl"@, JsonV::Str(v.thumbnail_url));
    lemma_lookup_append(p1 + p2 + p3, p4, q);
    lemma_lookup_append(p1 + p2, p3, q);
    lemma_lookup_append(p1, p2, q);
    lemma_lookup_member_v("id"@, JsonV::Str(v.id), q);
    lemma_lookup_member_v("title"@, JsonV::Str(v.title), q);
    lemma_lookup_member_v("alternateLink"@, JsonV::Str(v.alternate_link), q);
    lemma_lookup_member_v("thumbnailUrl"@, JsonV::Str(v.thumbnail_url), q);
}

/// Decoding an encoded video gives the same value back.
pub proof fn lemma_youtube_video_round_trip(v: YouTubeVideoV)
    ensures
        youtube_video_of_json(youtube_video_json(v)) == Some(v),
{
    reveal_strlit("id");
    reveal_strlit("title");
    reveal_strlit("alternateLink");
    reveal_strlit("thumbnailUrl");
    assert("id"@.len() == 2);
    assert("title"@.len() == 5);
    assert("alternateLink"@.len() == 13);
    assert("thumbnailUrl"@.len() == 12);
    lemma_youtube_video_lookup(v, "id"@);
    lemma_youtube_video_lookup(v, "title"@);
    lemma_youtube_video_lookup(v, "alternateLink"@);
    lemma_youtube_video_lookup(v, "thumbnailUrl"@);
}

/// Assignee details about a coursework/announcement. This field is set if
/// and only if [`AssigneeMode`] is [`AssigneeMode::IndividiualStudents`];
/// the pairing is an external invariant checked at the API-call boundary,
/// not by the types themselves.
#[derive(Debug, Hash, PartialEq, Eq, PartialOrd)]
pub struct IndividualStudentsOptions {
    /// Identifiers for the students that have access to the
    /// coursework/announcement.
    pub student_ids: Vec<String>,
}

/// The model of an [`IndividualStudentsOptions`].
#[verifier::ext_equal]
pub struct IndividualStudentsOptionsV {
    pub student_ids: Seq<Seq<char>>,
}

impl View for IndividualStudentsOptions {
    type V = IndividualStudentsOptionsV;

    open spec fn view(&self) -> IndividualStudentsOptionsV {
        IndividualStudentsOptionsV { student_ids: self.student_ids.deep_view() }
    }
}

/// The wire object of individual-students options.
pub open spec fn individual_students_options_json(v: IndividualStudentsOptionsV) -> JsonV {
    JsonV::Obj(member_v("studentIds"@, str_arr_json(v.student_ids)))
}

/// The individual-students options a wire value describes.
pub open spec fn individual_students_options_of_json(j: JsonV) -> Option<
    IndividualStudentsOptionsV,
> {
    match req_str_arr_field(j, "studentIds"@) {
        Some(student_ids) => Some(IndividualStudentsOptionsV { student_ids }),
        None => None,
    }
}

impl IndividualStudentsOptions {
    /// Encodes these options as a wire object.
    pub fn encode(&self) -> (r: Json)
        ensures
            r@ == individual_students_options_json(self@),
    {
        let mut fields: Vec<JsonMember> = Vec::new();
        push_member(&mut fields, "studentIds", encode_str_arr(&self.student_ids));
        let r = Json::Obj(fields);
        proof {
            assert(r@ =~= individual_students_options_json(self@));
        }
        r
    }

    /// Decodes options from a wire value.
    pub fn decode(j: &Json) -> (r: Result<IndividualStudentsOptions, DecodeError>)
        ensures
            match r {
                Ok(v) => individual_students_options_of_json(j@) == Some(v@),
                Err(_) => individual_students_options_of_json(j@) is None,
            },
    {
        let student_ids = get_req_str_arr(j, "studentIds")?;
        Ok(IndividualStudentsOptions { student_ids })
    }
}

/// Decoding an encoded individual-students options gives the same value
/// back.
pub proof fn lemma_individual_students_options_round_trip(v: IndividualStudentsOptionsV)
    ensures
        individual_students_options_of_json(individual_students_options_json(v)) == Some(v),
{
    lemma_lookup_member_v("studentIds"@, str_arr_json(v.student_ids), "studentIds"@);
    crate::json::lemma_str_arr_round_trip(v.student_ids);
}

/// Contains fields to add or remove students from a course work or
/// announcement where the [`AssigneeMode`] is set to
/// [`AssigneeMode::IndividiualStudents`].
#[derive(Debug, Hash, PartialEq, Eq)]
pub struct ModifyIndividualStudentsOptions {
    /// IDs of students to be added as having access to this
    /// coursework/announcement.
    pub add_student_ids: Vec<String>,
    /// IDs of students to be removed from having access to this
    /// coursework/announcement.
    pub remove_student_ids: Vec<String>,
}

/// The model of a [`ModifyIndividualStudentsOptions`].
#[verifier::ext_equal]
pub struct ModifyIndividualStudentsOptionsV {
    pub add_student_ids: Seq<Seq<char>>,
    pub remove_student_ids: Seq<Seq<char>>,
}

impl View for ModifyIndividualStudentsOptions {
    type V = ModifyIndividualStudentsOptionsV;

    open spec fn view(&self) -> ModifyIndividualStudentsOptionsV {
        ModifyIndividualStudentsOptionsV {
            add_student_ids: self.add_student_ids.deep_view(),
            remove_student_ids: self.remove_student_ids.deep_view(),
        }
    }
}

/// The wire object of a modify-students request.
pub open spec fn modify_individual_students_options_json(
    v: ModifyIndividualStudentsOptionsV,
) -> JsonV {
    JsonV::Obj(
        member_v("addStudentIds"@, str_arr_json(v.add_student_ids)) + member_v(
            "removeStudentIds"@,
            str_arr_json(v.remove_student_ids),
        ),
    )
}

/// The modify-students request a wire value describes.
pub open spec fn modify_individual_students_options_of_json(j: JsonV) -> Option<
    ModifyIndividualStudentsOptionsV,
> {
    match (req_str_arr_field(j, "addStudentIds"@), req_str_arr_field(j, "removeStudentIds"@)) {
        (Some(add_student_ids), Some(remove_student_ids)) => Some(
            ModifyIndividualStudentsOptionsV { add_student_ids, remove_student_ids },
        ),
        _ => None,
    }
}

impl ModifyIndividualStudentsOptions {
    /// Encodes this request as a wire object.
    pub fn encode(&self) -> (r: Json)
        ensures
            r@ == modify_individual_students_options_json(self@),
    {
        let mut fields: Vec<JsonMember> = Vec::new();
        push_member(&mut fields, "addStudentIds", encode_str_arr(&self.add_student_ids));
        push_member(&mut fields, "removeStudentIds", encode_str_arr(&self.remove_student_ids));
        let r = Json::Obj(fields);
        proof {
            assert(r@ =~= modify_individual_students_options_json(self@));
        }
        r
    }

    /// Decodes a request from a wire value.
    pub fn decode(j: &Json) -> (r: Result<ModifyIndividualStudentsOptions, DecodeError>)
        ensures
            match r {
                Ok(v) => modify_individual_students_options_of_json(j@) == Some(v@),
                Err(_) => modify_individual_students_options_of_json(j@) is None,
            },
    {
        let add_student_ids = get_req_str_arr(j, "addStudentIds")?;
        let remove_student_ids = get_req_str_arr(j, "removeStudentIds")?;
        Ok(ModifyIndividualStudentsOptions { add_student_ids, remove_student_ids })
    }
}

proof fn lemma_modify_students_lookup(v: ModifyIndividualStudentsOptionsV, q: Seq<char>)
    ensures
        lookup(modify_individual_students_options_json(v)->Obj_0, q) == (if q
            == "addStudentIds"@ {
            Some(str_arr_json(v.add_student_ids))
        } else if q == "removeStudentIds"@ {
            Some(str_arr_json(v.remove_student_ids))
        } else {
            None::<JsonV>
        }),
{
    let p1 = member_v("addStudentIds"@, str_arr_json(v.add_student_ids));
    let p2 = member_v("removeStudentIds"@, str_arr_json(v.remove_student_ids));
    lemma_lookup_append(p1, p2, q);
    lemma_lookup_member_v("addStudentIds"@, str_arr_json(v.add_student_ids), q);
    lemma_lookup_member_v("removeStudentIds"@, str_arr_json(v.remove_student_ids), q);
}

/// Decoding an encoded modify-students request gives the same value back.
pub proof fn lemma_modify_individual_students_options_round_trip(
    v: ModifyIndividualStudentsOptionsV,
)
    ensures
        modify_individual_students_options_of_json(modify_individual_students_options_json(v))
            == Some(v),
{
    reveal_strlit("addStudentIds");
    reveal_strlit("removeStudentIds");
    assert("addStudentIds"@.len() == 13);
    assert("removeStudentIds"@.len() == 16);
    lemma_modify_students_lookup(v, "addStudentIds"@);
    lemma_modify_students_lookup(v, "removeStudentIds"@);
    crate::json::lemma_str_arr_round_trip(v.add_student_ids);
    crate::json::lemma_str_arr_round_trip(v.remove_student_ids);
}

/// Material attached to course work.
///
/// When creating attachments, setting the form field is not supported.
#[derive(Debug, Hash, PartialEq, Eq)]
pub enum Material {
    DriveFile(DriveFile),
    YoutubeVideo(YouTubeVideo),
    Link(Link),
    Form(Form),
}

/// The model of a [`Material`].
#[verifier::ext_equal]
pub enum MaterialV {
    DriveFile(DriveFileV),
    YoutubeVideo(YouTubeVideoV),
    Link(LinkV),
    Form(FormV),
}

impl View for Material {
    type V = MaterialV;

    open spec fn view(&self) -> MaterialV {
        match self {
            Material::DriveFile(d) => MaterialV::DriveFile(d@),
            Material::YoutubeVideo(y) => MaterialV::YoutubeVideo(y@),
            Material::Link(l) => MaterialV::Link(l@),
            Material::Form(f) => MaterialV::Form(f@),
        }
    }
}

/// The wire object of a material: exactly one member, whose key is the
/// discriminator of the active variant.
pub open spec fn material_json(v: MaterialV) -> JsonV {
    match v {
        MaterialV::DriveFile(d) => JsonV::Obj(member_v("driveFile"@, drive_file_json(d))),
        MaterialV::YoutubeVideo(y) => JsonV::Obj(member_v("youtubeVideo"@, youtube_video_json(y))),
        MaterialV::Link(l) => JsonV::Obj(member_v("link"@, link_json(l))),
        MaterialV::Form(f) => JsonV::Obj(member_v("form"@, form_json(f))),
    }
}

/// The material a wire value describes: the payload must be an object with
/// a single member, its key must be a known discriminator, and the value
/// under it must match that variant's schema.
pub open spec fn material_of_json(j: JsonV) -> Option<MaterialV> {
    match j {
        JsonV::Obj(fields) => if fields.len() == 1 {
            let m = fields[0];
            if m.key == "driveFile"@ {
                match drive_file_of_json(m.value) {
                    Some(d) => Some(MaterialV::DriveFile(d)),
                    None => None,
                }
            } else if m.key == "youtubeVideo"@ {
                match youtube_video_of_json(m.value) {
                    Some(y) => Some(MaterialV::YoutubeVideo(y)),
                    None => None,
                }
            } else if m.key == "link"@ {
                match link_of_json(m.value) {
                    Some(l) => Some(MaterialV::Link(l)),
                    None => None,
                }
            } else if m.key == "form"@ {
                match form_of_json(m.value) {
                    Some(f) => Some(MaterialV::Form(f)),
                    None => None,
                }
            } else {
                None
            }
        } else {
            None
        },
        _ => None,
    }
}

impl Material {
    /// Encodes this material as a wire object with the discriminator key of
    /// the active variant.
    pub fn encode(&self) -> (r: Json)
        ensures
            r@ == material_json(self@),
    {
        let mut fields: Vec<JsonMember> = Vec::new();
        match self {
            Material::DriveFile(d) => push_member(&mut fields, "driveFile", d.encode()),
            Material::YoutubeVideo(y) => push_member(&mut fields, "youtubeVideo", y.encode()),
            Material::Link(l) => push_member(&mut fields, "link", l.encode()),
            Material::Form(f) => push_member(&mut fields, "form", f.encode()),
        }
        let r = Json::Obj(fields);
        proof {
            assert(r@ =~= material_json(self@));
        }
        r
    }

    /// Decodes a material from a wire value; an unrecognised discriminator
    /// key is an error.
    pub fn decode(j: &Json) -> (r: Result<Material, DecodeError>)
        ensures
            match r {
                Ok(v) => material_of_json(j@) == Some(v@),
                Err(_) => material_of_json(j@) is None,
            },
    {
        match j {
            Json::Obj(fields) => {
                proof {
                    assert(j@ is Obj);
                    assert(j@->Obj_0 =~= fields_view(fields@));
                }
                if fields.len() != 1 {
                    return Err(DecodeError::here());
                }
                let m = &fields[0];
                proof {
                    assert(j@->Obj_0[0] == fields@[0]@);
                }
                if str_eq(m.key.as_str(), "driveFile") {
                    match DriveFile::decode(&m.value) {
                        Ok(d) => Ok(Material::DriveFile(d)),
                        Err(e) => Err(DecodeError::nested("driveFile", e)),
                    }
                } else if str_eq(m.key.as_str(), "youtubeVideo") {
                    match YouTubeVideo::decode(&m.value) {
                        Ok(y) => Ok(Material::YoutubeVideo(y)),
                        Err(e) => Err(DecodeError::nested("youtubeVideo", e)),
                    }
                } else if str_eq(m.key.as_str(), "link") {
                    match Link::decode(&m.value) {
                        Ok(l) => Ok(Material::Link(l)),
                        Err(e) => Err(DecodeError::nested("link", e)),
                    }
                } else if str_eq(m.key.as_str(), "form") {
                    match Form::decode(&m.value) {
                        Ok(f) => Ok(Material::Form(f)),
                        Err(e) => Err(DecodeError::nested("form", e)),
                    }
                } else {
                    Err(DecodeError::here())
                }
            },
            _ => Err(DecodeError::here()),
        }
    }
}

/// Decoding an encoded material selects the same variant with the same
/// fields: the four discriminator keys are pairwise distinct and each
/// payload round-trips.
pub proof fn lemma_material_round_trip(v: MaterialV)
    ensures
        material_of_json(material_json(v)) == Some(v),
{
    reveal_strlit("driveFile");
    reveal_strlit("youtubeVideo");
    reveal_strlit("link");
    reveal_strlit("form");
    assert("driveFile"@.len() == 9);
    assert("youtubeVideo"@.len() == 12);
    assert("link"@.len() == 4);
    assert("form"@.len() == 4);
    assert("link"@[0] != "form"@[0]);
    match v {
        MaterialV::DriveFile(d) => {
            lemma_drive_file_round_trip(d);
        },
        MaterialV::YoutubeVideo(y) => {
            lemma_youtube_video_round_trip(y);
        },
        MaterialV::Link(l) => {
            lemma_link_round_trip(l);
        },
        MaterialV::Form(f) => {
            lemma_form_round_trip(f);
        },
    }
}

/// Drive file that is used as material for course work.
#[derive(Debug, Hash, PartialEq, Eq)]
pub struct SharedDriveFile {
    /// Inner drive file.
    pub drive_file: DriveFile,
    /// Mechanism by which students access the Drive item.
    pub share_mode: DriveFileShareMode,
}

/// The model of a [`SharedDriveFile`].
#[verifier::ext_equal]
pub struct SharedDriveFileV {
    pub drive_file: DriveFileV,
    pub share_mode: DriveFileShareMode,
}

impl View for SharedDriveFile {
    type V = SharedDriveFileV;

    open spec fn view(&self) -> SharedDriveFileV {
        SharedDriveFileV { drive_file: self.drive_file@, share_mode: self.share_mode }
    }
}

/// The wire object of a shared drive file.
pub open spec fn shared_drive_file_json(v: SharedDriveFileV) -> JsonV {
    JsonV::Obj(
        member_v("driveFile"@, drive_file_json(v.drive_file)) + member_v(
            "shareMode"@,
            JsonV::Str(share_mode_text(v.share_mode)),
        ),
    )
}

/// The shared drive file a wire value describes.
pub open spec fn shared_drive_file_of_json(j: JsonV) -> Option<SharedDriveFileV> {
    match (obj_lookup(j, "driveFile"@), req_str_field(j, "shareMode"@)) {
        (Some(df), Some(sm)) => match (drive_file_of_json(df), share_mode_of_text(sm)) {
            (Some(drive_file), Some(share_mode)) => Some(
                SharedDriveFileV { drive_file, share_mode },
            ),
            _ => None,
        },
        _ => None,
    }
}

impl SharedDriveFile {
    /// Encodes this shared drive file as a wire object.
    pub fn encode(&self) -> (r: Json)
        ensures
            r@ == shared_drive_file_json(self@),
    {
        let mut fields: Vec<JsonMember> = Vec::new();
        push_member(&mut fields, "driveFile", self.drive_file.encode());
        push_member(&mut fields, "shareMode", Json::Str(self.share_mode.encode()));
        let r = Json::Obj(fields);
        proof {
            assert(r@ =~= shared_drive_file_json(self@));
        }
        r
    }

    /// Decodes a shared drive file from a wire value.
    pub fn decode(j: &Json) -> (r: Result<SharedDriveFile, DecodeError>)
        ensures
            match r {
                Ok(v) => shared_drive_file_of_json(j@) == Some(v@),
                Err(_) => shared_drive_file_of_json(j@) is None,
            },
    {
        let df = match j.get("driveFile") {
            Some(v) => v,
            None => {
                return Err(DecodeError::at("driveFile"));
            },
        };
        let drive_file = match DriveFile::decode(df) {
            Ok(d) => d,
            Err(e) => {
                return Err(DecodeError::nested("driveFile", e));
            },
        };
        let sm = get_req_str(j, "shareMode")?;
        let share_mode = match DriveFileShareMode::decode(sm.as_str()) {
            Ok(m) => m,
            Err(_) => {
                return Err(DecodeError::at("shareMode"));
            },
        };
        Ok(SharedDriveFile { drive_file, share_mode })
    }
}

proof fn lemma_shared_drive_file_lookup(v: SharedDriveFileV, q: Seq<char>)
    ensures
        lookup(shared_drive_file_json(v)->Obj_0, q) == (if q == "driveFile"@ {
            Some(drive_file_json(v.drive_file))
        } else if q == "shareMode"@ {
            Some(JsonV::Str(share_mode_text(v.share_mode)))
        } else {
            None::<JsonV>
        }),
{
    let p1 = member_v("driveFile"@, drive_file_json(v.drive_file));
    let p2 = member_v("shareMode"@, JsonV::Str(share_mode_text(v.share_mode)));
    lemma_lookup_append(p1, p2, q);
    lemma_lookup_member_v("driveFile"@, drive_file_json(v.drive_file), q);
    lemma_lookup_member_v("shareMode"@, JsonV::Str(share_mode_text(v.share_mode)), q);
}

/// Decoding an encoded shared drive file gives the same value back.
pub proof fn lemma_shared_drive_file_round_trip(v: SharedDriveFileV)
    ensures
        shared_drive_file_of_json(shared_drive_file_json(v)) == Some(v),
{
    reveal_strlit("driveFile");
    reveal_strlit("shareMode");
    assert("driveFile"@.len() == 9);
    assert("shareMode"@.len() == 9);
    assert("driveFile"@[0] != "shareMode"@[0]);
    lemma_shared_drive_file_lookup(v, "driveFile"@);
    lemma_shared_drive_file_lookup(v, "shareMode"@);
    lemma_drive_file_round_trip(v.drive_file);
    lemma_share_mode_round_trip(v.share_mode);
}

} // verus!

//! Course resources: the read, create and modify shapes of a course, its
//! lifecycle state, gradebook settings, and the owner identifier.
//!
//! The owner identifier is a small tagged union with an order-sensitive,
//! total decode rule: the literal alias text resolves to [`OwnerId::Me`],
//! then an all-digit text to [`OwnerId::Id`], and everything else to
//! [`OwnerId::Email`]. Encoding is lossy by design; the round-trip laws
//! below state exactly where it is faithful.

use vstd::prelude::*;

use crate::error::{DecodeError, EncodeError};
use crate::json::{
    arr_view, get_opt_str, get_present, get_req_bool, get_req_str,
    lemma_lookup_append, lemma_lookup_member_v, lemma_lookup_opt_member,
    lemma_lookup_opt_str_member, lookup, member_v, obj_has_key, obj_lookup, opt_member,
    opt_str_field, opt_str_member, present_field, push_member, push_opt, push_opt_str,
    push_str_member, req_bool_field, req_str_field, str_eq, Json, JsonMember, JsonMemberV, JsonV,
};
use crate::model::{
    drive_folder_json, drive_folder_of_json, grade_category_json, grade_category_of_json,
    DriveFolder, DriveFolderV, GradeCategory, GradeCategoryV,
};
use crate::time::{get_req_ts, req_ts_field, rfc3339_format, Timestamp};

verus! {

/// True for the ten ASCII digit characters.
pub open spec fn is_dec_digit(c: char) -> bool {
    48 <= c as u32 && c as u32 <= 57
}

/// True when every character of `s` is an ASCII digit; vacuously true of
/// the empty text.
pub open spec fn all_digits(s: Seq<char>) -> bool {
    forall|i: int| 0 <= i < s.len() ==> is_dec_digit(s[i])
}

/// The identifier of the owner of a course: an email address (unchecked),
/// a numeric identifier (digits checked only when decoding), or the alias
/// for the authenticated caller.
#[derive(Debug, Hash, PartialEq, Eq)]
pub enum OwnerId {
    /// Email (unchecked).
    Email(String),
    /// Unique numeric ID (numeric only checked in deserialization).
    Id(String),
    /// Specifies the current user.
    Me,
}

/// The model of an [`OwnerId`].
#[verifier::ext_equal]
pub enum OwnerIdV {
    Email(Seq<char>),
    Id(Seq<char>),
    Me,
}

impl View for OwnerId {
    type V = OwnerIdV;

    open spec fn view(&self) -> OwnerIdV {
        match self {
            OwnerId::Email(e) => OwnerIdV::Email(e@),
            OwnerId::Id(i) => OwnerIdV::Id(i@),
            OwnerId::Me => OwnerIdV::Me,
        }
    }
}

/// What an owner identifier text decodes to. Total: every text resolves,
/// in order, to the alias, an all-digit identifier, or an email.
pub open spec fn owner_of_text(s: Seq<char>) -> OwnerIdV {
    if s == "me"@ {
        OwnerIdV::Me
    } else if all_digits(s) {
        OwnerIdV::Id(s)
    } else {
        OwnerIdV::Email(s)
    }
}

/// The wire text of an owner identifier. No validation occurs here: an
/// `Id` built directly around non-digit text encodes unchanged.
pub open spec fn owner_text(v: OwnerIdV) -> Seq<char> {
    match v {
        OwnerIdV::Email(e) => e,
        OwnerIdV::Id(i) => i,
        OwnerIdV::Me => "me"@,
    }
}

fn all_digits_exec(s: &str) -> (r: bool)
    ensures
        r == all_digits(s@),
{
    let n = s.unicode_len();
    for i in 0..n
        invariant
            n == s@.len(),
            forall|j: int| 0 <= j < i ==> is_dec_digit(s@[j]),
    {
        let c = s.get_char(i);
        let u = c as u32;
        if u < 48 || u > 57 {
            proof {
                assert(!is_dec_digit(s@[i as int]));
            }
            return false;
        }
    }
    true
}

impl OwnerId {
    /// Resolves an owner identifier text. Total over any input text; never
    /// fails.
    pub fn decode(s: &str) -> (r: OwnerId)
        ensures
            r@ == owner_of_text(s@),
    {
        if str_eq(s, "me") {
            OwnerId::Me
        } else if all_digits_exec(s) {
            OwnerId::Id(s.to_owned())
        } else {
            OwnerId::Email(s.to_owned())
        }
    }

    /// The wire text of this identifier: the alias encodes to its literal
    /// text, the other variants carry their text through unchanged.
    pub fn encode(&self) -> (r: String)
        ensures
            r@ == owner_text(self@),
    {
        match self {
            OwnerId::Email(e) => e.clone(),
            OwnerId::Id(i) => i.clone(),
            OwnerId::Me => "me".to_owned(),
        }
    }
}

/// Decoding resolves the variants in strict order: the alias text always
/// wins, an all-digit text of any length is an `Id` holding exactly that
/// text, and any other text is an `Email` holding exactly that text.
pub proof fn lemma_owner_decode_cases(s: Seq<char>)
    ensures
        s == "me"@ ==> owner_of_text(s) == OwnerIdV::Me,
        s != "me"@ && all_digits(s) ==> owner_of_text(s) == OwnerIdV::Id(s),
        s != "me"@ && !all_digits(s) ==> owner_of_text(s) == OwnerIdV::Email(s),
{
}

/// Encoding a decoded identifier gives the input text back, for every
/// text.
pub proof fn lemma_owner_encode_of_decode(s: Seq<char>)
    ensures
        owner_text(owner_of_text(s)) == s,
{
}

/// The identifiers some text can decode to: the alias, an `Id` holding
/// digits only, or an `Email` holding neither the alias text nor digits
/// only.
pub open spec fn owner_decodable(v: OwnerIdV) -> bool {
    match v {
        OwnerIdV::Me => true,
        OwnerIdV::Id(i) => all_digits(i),
        OwnerIdV::Email(e) => e != "me"@ && !all_digits(e),
    }
}

/// Decoding the encoding gives the identifier back, for every identifier
/// some text can decode to. An `Id` holding non-digit text, or an `Email`
/// holding the alias text or digits only — values only direct construction
/// can build — fall outside: their encodings decode to another variant, a
/// known asymmetry of the format.
pub proof fn lemma_owner_round_trip(v: OwnerIdV)
    requires
        owner_decodable(v),
    ensures
        owner_of_text(owner_text(v)) == v,
{
    reveal_strlit("me");
    assert("me"@.len() == 2);
    match v {
        OwnerIdV::Id(i) => {
            if i == "me"@ {
                assert(i[0] == 'm');
                assert(!is_dec_digit('m'));
                assert(false);
            }
        },
        _ => {},
    }
}

/// Possible states a course can be in.
#[derive(Debug, Hash, PartialEq, Eq, Structural)]
pub enum CourseState {
    CourseStateUnspecified,
    Active,
    Archived,
    Provisioned,
    Declined,
    Suspended,
}

/// The wire text of a course state.
pub open spec fn course_state_text(v: CourseState) -> Seq<char> {
    match v {
        CourseState::CourseStateUnspecified => "COURSE_STATE_UNSPECIFIED"@,
        CourseState::Active => "ACTIVE"@,
        CourseState::Archived => "ARCHIVED"@,
        CourseState::Provisioned => "PROVISIONED"@,
        CourseState::Declined => "DECLINED"@,
        CourseState::Suspended => "SUSPENDED"@,
    }
}

/// The course state a wire text names, if any.
pub open spec fn course_state_of_text(s: Seq<char>) -> Option<CourseState> {
    if s == "COURSE_STATE_UNSPECIFIED"@ {
        Some(CourseState::CourseStateUnspecified)
    } else if s == "ACTIVE"@ {
        Some(CourseState::Active)
    } else if s == "ARCHIVED"@ {
        Some(CourseState::Archived)
    } else if s == "PROVISIONED"@ {
        Some(CourseState::Provisioned)
    } else if s == "DECLINED"@ {
        Some(CourseState::Declined)
    } else if s == "SUSPENDED"@ {
        Some(CourseState::Suspended)
    } else {
        None
    }
}

impl CourseState {
    /// The wire text of this state.
    pub fn encode(&self) -> (r: String)
        ensures
            r@ == course_state_text(*self),
    {
        match self {
            CourseState::CourseStateUnspecified => "COURSE_STATE_UNSPECIFIED".to_owned(),
            CourseState::Active => "ACTIVE".to_owned(),
            CourseState::Archived => "ARCHIVED".to_owned(),
            CourseState::Provisioned => "PROVISIONED".to_owned(),
            CourseState::Declined => "DECLINED".to_owned(),
            CourseState::Suspended => "SUSPENDED".to_owned(),
        }
    }

    /// The state a wire text names; an unrecognised text is an error,
    /// never a fallback variant.
    pub fn decode(s: &str) -> (r: Result<CourseState, DecodeError>)
        ensures
            match r {
                Ok(v) => course_state_of_text(s@) == Some(v),
                Err(_) => course_state_of_text(s@) is None,
            },
    {
        if str_eq(s, "COURSE_STATE_UNSPECIFIED") {
            Ok(CourseState::CourseStateUnspecified)
        } else if str_eq(s, "ACTIVE") {
            Ok(CourseState::Active)
        } else if str_eq(s, "ARCHIVED") {
            Ok(CourseState::Archived)
        } else if str_eq(s, "PROVISIONED") {
            Ok(CourseState::Provisioned)
        } else if str_eq(s, "DECLINED") {
            Ok(CourseState::Declined)
        } else if str_eq(s, "SUSPENDED") {
            Ok(CourseState::Suspended)
        } else {
            Err(DecodeError::here())
        }
    }
}

/// Decoding the wire text of a course state gives that state back.
pub proof fn lemma_course_state_round_trip(v: CourseState)
    ensures
        course_state_of_text(course_state_text(v)) == Some(v),
{
    reveal_strlit("COURSE_STATE_UNSPECIFIED");
    reveal_strlit("ACTIVE");
    reveal_strlit("ARCHIVED");
    reveal_strlit("PROVISIONED");
    reveal_strlit("DECLINED");
    reveal_strlit("SUSPENDED");
    assert("COURSE_STATE_UNSPECIFIED"@.len() == 24);
    assert("ACTIVE"@.len() == 6);
    assert("ARCHIVED"@.len() == 8);
    assert("PROVISIONED"@.len() == 11);
    assert("DECLINED"@.len() == 8);
    assert("SUSPENDED"@.len() == 9);
    assert("ARCHIVED"@[0] != "DECLINED"@[0]);
}

/// Possible methods of overall grade calculation.
#[derive(Debug, Hash, PartialEq, Eq, Structural)]
pub enum CalculationType {
    CalculationTypeUnspecified,
    TotalPoints,
    WeightedCategories,
}

/// The wire text of a calculation type.
pub open spec fn calculation_type_text(v: CalculationType) -> Seq<char> {
    match v {
        CalculationType::CalculationTypeUnspecified => "CALCULATION_TYPE_UNSPECIFIED"@,
        CalculationType::TotalPoints => "TOTAL_POINTS"@,
        CalculationType::WeightedCategories => "WEIGHTED_CATEGORIES"@,
    }
}

/// The calculation type a wire text names, if any.
pub open spec fn calculation_type_of_text(s: Seq<char>) -> Option<CalculationType> {
    if s == "CALCULATION_TYPE_UNSPECIFIED"@ {
        Some(CalculationType::CalculationTypeUnspecified)
    } else if s == "TOTAL_POINTS"@ {
        Some(CalculationType::TotalPoints)
    } else if s == "WEIGHTED_CATEGORIES"@ {
        Some(CalculationType::WeightedCategories)
    } else {
        None
    }
}

impl CalculationType {
    /// The wire text of this calculation type.
    pub fn encode(&self) -> (r: String)
        ensures
            r@ == calculation_type_text(*self),
    {
        match self {
            CalculationType::CalculationTypeUnspecified => "CALCULATION_TYPE_UNSPECIFIED".to_owned(),
            CalculationType::TotalPoints => "TOTAL_POINTS".to_owned(),
            CalculationType::WeightedCategories => "WEIGHTED_CATEGORIES".to_owned(),
        }
    }

    /// The calculation type a wire text names; an unrecognised text is an
    /// error.
    pub fn decode(s: &str) -> (r: Result<CalculationType, DecodeError>)
        ensures
            match r {
                Ok(v) => calculation_type_of_text(s@) == Some(v),
                Err(_) => calculation_type_of_text(s@) is None,
            },
    {
        if str_eq(s, "CALCULATION_TYPE_UNSPECIFIED") {
            Ok(CalculationType::CalculationTypeUnspecified)
        } else if str_eq(s, "TOTAL_POINTS") {
            Ok(CalculationType::TotalPoints)
        } else if str_eq(s, "WEIGHTED_CATEGORIES") {
            Ok(CalculationType::WeightedCategories)
        } else {
            Err(DecodeError::here())
        }
    }
}

/// Decoding the wire text of a calculation type gives that type back.
pub proof fn lemma_calculation_type_round_trip(v: CalculationType)
    ensures
        calculation_type_of_text(calculation_type_text(v)) == Some(v),
{
    reveal_strlit("CALCULATION_TYPE_UNSPECIFIED");
    reveal_strlit("TOTAL_POINTS");
    reveal_strlit("WEIGHTED_CATEGORIES");
    assert("CALCULATION_TYPE_UNSPECIFIED"@.len() == 28);
    assert("TOTAL_POINTS"@.len() == 12);
    assert("WEIGHTED_CATEGORIES"@.len() == 19);
}

/// Possible ways of showing the overall grade.
#[derive(Debug, Hash, PartialEq, Eq, Structural)]
pub enum DisplaySetting {
    DisplaySettingUnspecified,
    ShowOverallGrade,
    HideOverallGrade,
    ShowTeachersOnly,
}

/// The wire text of a display setting.
pub open spec fn display_setting_text(v: DisplaySetting) -> Seq<char> {
    match v {
        DisplaySetting::DisplaySettingUnspecified => "DISPLAY_SETTING_UNSPECIFIED"@,
        DisplaySetting::ShowOverallGrade => "SHOW_OVERALL_GRADE"@,
        DisplaySetting::HideOverallGrade => "HIDE_OVERALL_GRADE"@,
        DisplaySetting::ShowTeachersOnly => "SHOW_TEACHERS_ONLY"@,
    }
}

/// The display setting a wire text names, if any.
pub open spec fn display_setting_of_text(s: Seq<char>) -> Option<DisplaySetting> {
    if s == "DISPLAY_SETTING_UNSPECIFIED"@ {
        Some(DisplaySetting::DisplaySettingUnspecified)
    } else if s == "SHOW_OVERALL_GRADE"@ {
        Some(DisplaySetting::ShowOverallGrade)
    } else if s == "HIDE_OVERALL_GRADE"@ {
        Some(DisplaySetting::HideOverallGrade)
    } else if s == "SHOW_TEACHERS_ONLY"@ {
        Some(DisplaySetting::ShowTeachersOnly)
    } else {
        None
    }
}

impl DisplaySetting {
    /// The wire text of this display setting.
    pub fn encode(&self) -> (r: String)
        ensures
            r@ == display_setting_text(*self),
    {
        match self {
            DisplaySetting::DisplaySettingUnspecified => "DISPLAY_SETTING_UNSPECIFIED".to_owned(),
            DisplaySetting::ShowOverallGrade => "SHOW_OVERALL_GRADE".to_owned(),
            DisplaySetting::HideOverallGrade => "HIDE_OVERALL_GRADE".to_owned(),
            DisplaySetting::ShowTeachersOnly => "SHOW_TEACHERS_ONLY".to_owned(),
        }
    }

    /// The display setting a wire text names; an unrecognised text is an
    /// error.
    pub fn decode(s: &str) -> (r: Result<DisplaySetting, DecodeError>)
        ensures
            match r {
                Ok(v) => display_setting_of_text(s@) == Some(v),
                Err(_) => display_setting_of_text(s@) is None,
            },
    {
        if str_eq(s, "DISPLAY_SETTING_UNSPECIFIED") {
            Ok(DisplaySetting::DisplaySettingUnspecified)
        } else if str_eq(s, "SHOW_OVERALL_GRADE") {
            Ok(DisplaySetting::ShowOverallGrade)
        } else if str_eq(s, "HIDE_OVERALL_GRADE") {
            Ok(DisplaySetting::HideOverallGrade)
        } else if str_eq(s, "SHOW_TEACHERS_ONLY") {
            Ok(DisplaySetting::ShowTeachersOnly)
        } else {
            Err(DecodeError::here())
        }
    }
}

/// Decoding the wire text of a display setting gives that setting back.
pub proof fn lemma_display_setting_round_trip(v: DisplaySetting)
    ensures
        display_setting_of_text(display_setting_text(v)) == Some(v),
{
    reveal_strlit("DISPLAY_SETTING_UNSPECIFIED");
    reveal_strlit("SHOW_OVERALL_GRADE");
    reveal_strlit("HIDE_OVERALL_GRADE");
    reveal_strlit("SHOW_TEACHERS_ONLY");
    assert("DISPLAY_SETTING_UNSPECIFIED"@.len() == 27);
    assert("SHOW_OVERALL_GRADE"@.len() == 18);
    assert("HIDE_OVERALL_GRADE"@.len() == 18);
    assert("SHOW_TEACHERS_ONLY"@.len() == 18);
    assert("SHOW_OVERALL_GRADE"@[0] != "HIDE_OVERALL_GRADE"@[0]);
    assert("SHOW_OVERALL_GRADE"@[5] != "SHOW_TEACHERS_ONLY"@[5]);
    assert("HIDE_OVERALL_GRADE"@[0] != "SHOW_TEACHERS_ONLY"@[0]);
}

/// The gradebook settings for a course: how a student's overall grade is
/// calculated and who it is displayed to.
#[derive(Debug, Hash, PartialEq, Eq)]
pub struct GradebookSettings {
    /// How the overall grade is calculated.
    pub calculation_type: CalculationType,
    /// Who the overall grade is shown to.
    pub display_setting: DisplaySetting,
    /// Ordered list of grade categories.
    pub grade_categories: Vec<GradeCategory>,
}

/// The model of a [`GradebookSettings`].
#[verifier::ext_equal]
pub struct GradebookSettingsV {
    pub calculation_type: CalculationType,
    pub display_setting: DisplaySetting,
    pub grade_categories: Seq<GradeCategoryV>,
}

impl View for GradebookSettings {
    type V = GradebookSettingsV;

    open spec fn view(&self) -> GradebookSettingsV {
        GradebookSettingsV {
            calculation_type: self.calculation_type,
            display_setting: self.display_setting,
            grade_categories: self.grade_categories.deep_view(),
        }
    }
}

/// The wire array of a list of grade categories.
pub open spec fn categories_arr(cats: Seq<GradeCategoryV>) -> Seq<JsonV> {
    Seq::new(cats.len(), |i: int| grade_category_json(cats[i]))
}

/// True when every element of an array decodes as a grade category.
pub open spec fn categories_ok(items: Seq<JsonV>) -> bool {
    forall|i: int| 0 <= i < items.len() ==> grade_category_of_json(items[i]) is Some
}

/// The grade categories an array of wire values decodes to.
pub open spec fn categories_values(items: Seq<JsonV>) -> Seq<GradeCategoryV> {
    Seq::new(items.len(), |i: int| grade_category_of_json(items[i]).unwrap())
}

/// The wire object of gradebook settings.
pub open spec fn gradebook_settings_json(v: GradebookSettingsV) -> JsonV {
    JsonV::Obj(
        member_v("calculationType"@, JsonV::Str(calculation_type_text(v.calculation_type)))
            + member_v("displaySetting"@, JsonV::Str(display_setting_text(v.display_setting)))
            + member_v("gradeCategories"@, JsonV::Arr(categories_arr(v.grade_categories))),
    )
}

/// The gradebook settings a wire value describes, if it matches the
/// schema: both enum texts must be recognised and every category must
/// decode.
pub open spec fn gradebook_settings_of_json(j: JsonV) -> Option<GradebookSettingsV> {
    match (
        req_str_field(j, "calculationType"@),
        req_str_field(j, "displaySetting"@),
        obj_lookup(j, "gradeCategories"@),
    ) {
        (Some(ct), Some(ds), Some(JsonV::Arr(items))) => match (
            calculation_type_of_text(ct),
            display_setting_of_text(ds),
        ) {
            (Some(calculation_type), Some(display_setting)) => if categories_ok(items) {
                Some(
                    GradebookSettingsV {
                        calculation_type,
                        display_setting,
                        grade_categories: categories_values(items),
                    },
                )
            } else {
                None
            },
            _ => None,
        },
        _ => None,
    }
}

impl GradebookSettings {
    /// Encodes these settings as a wire object.
    pub fn encode(&self) -> (r: Json)
        ensures
            r@ == gradebook_settings_json(self@),
    {
        let mut items: Vec<Json> = Vec::new();
        let n = self.grade_categories.len();
        for i in 0..n
            invariant
                n == self.grade_categories.len(),
                items@.len() == i,
                forall|x: int|
                    0 <= x < i ==> items@[x]@ == grade_category_json(
                        self.grade_categories@[x]@,
                    ),
        {
            items.push(self.grade_categories[i].encode());
        }
        let mut fields: Vec<JsonMember> = Vec::new();
        push_member(&mut fields, "calculationType", Json::Str(self.calculation_type.encode()));
        push_member(&mut fields, "displaySetting", Json::Str(self.display_setting.encode()));
        proof {
            assert(arr_view(items@) =~= categories_arr(self@.grade_categories));
        }
        push_member(&mut fields, "gradeCategories", Json::Arr(items));
        let r = Json::Obj(fields);
        proof {
            assert(r@ =~= gradebook_settings_json(self@));
        }
        r
    }

    /// Decodes gradebook settings from a wire value.
    pub fn decode(j: &Json) -> (r: Result<GradebookSettings, DecodeError>)
        ensures
            match r {
                Ok(v) => gradebook_settings_of_json(j@) == Some(v@),
                Err(_) => gradebook_settings_of_json(j@) is None,
            },
    {
        let ct = get_req_str(j, "calculationType")?;
        let calculation_type = match CalculationType::decode(ct.as_str()) {
            Ok(v) => v,
            Err(_) => {
                return Err(DecodeError::at("calculationType"));
            },
        };
        let ds = get_req_str(j, "displaySetting")?;
        let display_setting = match DisplaySetting::decode(ds.as_str()) {
            Ok(v) => v,
            Err(_) => {
                return Err(DecodeError::at("displaySetting"));
            },
        };
        let arr = match j.get("gradeCategories") {
            Some(v) => v,
            None => {
                return Err(DecodeError::at("gradeCategories"));
            },
        };
        match arr {
            Json::Arr(items) => {
                let ghost gitems: Seq<JsonV> = arr@->Arr_0;
                proof {
                    assert(arr@ is Arr);
                    assert(gitems =~= arr_view(items@));
                }
                let mut cats: Vec<GradeCategory> = Vec::new();
                let n = items.len();
                let mut i: usize = 0;
                while i < n
                    invariant
                        i <= n,
                        n == items.len(),
                        obj_lookup(j@, "gradeCategories"@) == Some(arr@),
                        arr@ is Arr,
                        gitems == arr@->Arr_0,
                        gitems.len() == items@.len(),
                        forall|x: int| 0 <= x < gitems.len() ==> gitems[x] == items@[x]@,
                        cats@.len() == i,
                        forall|x: int| #![trigger gitems[x]]
                            0 <= x < i ==> grade_category_of_json(gitems[x]) is Some && cats@[x]@
                                == grade_category_of_json(gitems[x]).unwrap(),
                    decreases n - i,
                {
                    let c = match GradeCategory::decode(&items[i]) {
                        Ok(c) => c,
                        Err(e) => {
                            proof {
                                assert(grade_category_of_json(gitems[i as int]) is None);
                            }
                            return Err(DecodeError::nested("gradeCategories", e));
                        },
                    };
                    let ghost gc: GradeCategoryV = c@;
                    cats.push(c);
                    proof {
                        assert(gitems[i as int] == items@[i as int]@);
                        assert(grade_category_of_json(gitems[i as int]) == Some(gc));
                        assert(cats@[i as int]@ == gc);
                        assert forall|x: int| #![trigger gitems[x]]
                            0 <= x < i + 1 implies grade_category_of_json(gitems[x]) is Some
                            && cats@[x]@ == grade_category_of_json(gitems[x]).unwrap() by {
                            if x < i as int {
                                assert(cats@[x] == cats@.subrange(0, i as int)[x]);
                            }
                        }
                    }
                    i = i + 1;
                }
                proof {
                    assert(cats.deep_view() =~= categories_values(gitems));
                }
                Ok(GradebookSettings { calculation_type, display_setting, grade_categories: cats })
            },
            _ => Err(DecodeError::at("gradeCategories")),
        }
    }
}

/// An optional course-state field: an absent or `null` member reads as
/// unset; a present text must name a state.
pub open spec fn opt_state_field(j: JsonV, k: Seq<char>) -> Option<Option<CourseState>> {
    match present_field(j, k) {
        Option::None => Option::Some(Option::None),
        Option::Some(JsonV::Str(s)) => match course_state_of_text(s) {
            Option::Some(cs) => Option::Some(Option::Some(cs)),
            Option::None => Option::None,
        },
        Option::Some(_) => Option::None,
    }
}

/// Reads an optional course-state field out of an object value.
pub fn get_opt_state(j: &Json, k: &str) -> (r: Result<Option<CourseState>, DecodeError>)
    ensures
        match r {
            Ok(v) => opt_state_field(j@, k@) == Some(v),
            Err(_) => opt_state_field(j@, k@) is None,
        },
{
    match get_present(j, k) {
        Some(v) => match v {
            Json::Str(s) => match CourseState::decode(s.as_str()) {
                Ok(cs) => Ok(Some(cs)),
                Err(_) => Err(DecodeError::at(k)),
            },
            _ => Err(DecodeError::at(k)),
        },
        None => Ok(None),
    }
}

/// An optional owner-identifier field: an absent or `null` member reads as
/// unset; a present member must be a string, whose resolution is total.
pub open spec fn opt_owner_field(j: JsonV, k: Seq<char>) -> Option<Option<OwnerIdV>> {
    match present_field(j, k) {
        Option::None => Option::Some(Option::None),
        Option::Some(JsonV::Str(s)) => Option::Some(Option::Some(owner_of_text(s))),
        Option::Some(_) => Option::None,
    }
}

/// Reads an optional owner-identifier field out of an object value.
pub fn get_opt_owner(j: &Json, k: &str) -> (r: Result<Option<OwnerId>, DecodeError>)
    ensures
        match r {
            Ok(Some(v)) => opt_owner_field(j@, k@) == Some(Some(v@)),
            Ok(None) => opt_owner_field(j@, k@) == Some(Option::<OwnerIdV>::None),
            Err(_) => opt_owner_field(j@, k@) is None,
        },
{
    match get_present(j, k) {
        Some(v) => match v {
            Json::Str(s) => Ok(Some(OwnerId::decode(s.as_str()))),
            _ => Err(DecodeError::at(k)),
        },
        None => Ok(None),
    }
}

/// The member value of an optional course state.
pub open spec fn state_opt_json(s: Option<CourseState>) -> Option<JsonV> {
    match s {
        Option::Some(cs) => Option::Some(JsonV::Str(course_state_text(cs))),
        Option::None => Option::None,
    }
}

/// The member value of an optional owner identifier.
pub open spec fn owner_opt_json(v: Option<OwnerIdV>) -> Option<JsonV> {
    match v {
        Option::Some(o) => Option::Some(JsonV::Str(owner_text(o))),
        Option::None => Option::None,
    }
}

/// A request to create a course. The identifier may optionally be set to an
/// alias; the remote system still assigns the real identifier, which cannot
/// be updated after the course is created.
#[derive(Debug, Hash, PartialEq, Eq)]
pub struct CourseCreate {
    /// Optional alias to record for the new course.
    pub id: Option<String>,
    /// Name of the course. Required; between 1 and 750 characters.
    pub name: String,
    /// Section of the course.
    pub section: Option<String>,
    /// Optional heading for the description.
    pub description_heading: Option<String>,
    /// Optional description.
    pub description: Option<String>,
    /// Optional room location.
    pub room: Option<String>,
    /// The identifier of the owner of the course.
    pub owner_id: OwnerId,
    /// State of the course. If unspecified, the remote default is
    /// [`CourseState::Provisioned`].
    pub course_state: Option<CourseState>,
}

/// The model of a [`CourseCreate`].
#[verifier::ext_equal]
pub struct CourseCreateV {
    pub id: Option<Seq<char>>,
    pub name: Seq<char>,
    pub section: Option<Seq<char>>,
    pub description_heading: Option<Seq<char>>,
    pub description: Option<Seq<char>>,
    pub room: Option<Seq<char>>,
    pub owner_id: OwnerIdV,
    pub course_state: Option<CourseState>,
}

impl View for CourseCreate {
    type V = CourseCreateV;

    open spec fn view(&self) -> CourseCreateV {
        CourseCreateV {
            id: self.id.deep_view(),
            name: self.name@,
            section: self.section.deep_view(),
            description_heading: self.description_heading.deep_view(),
            description: self.description.deep_view(),
            room: self.room.deep_view(),
            owner_id: self.owner_id@,
            course_state: self.course_state,
        }
    }
}

/// The member list of an encoded create request: unset optional fields are
/// omitted, not written as `null`.
pub open spec fn course_create_members(v: CourseCreateV) -> Seq<JsonMemberV> {
    opt_str_member("id"@, v.id) + member_v("name"@, JsonV::Str(v.name)) + opt_str_member(
        "section"@,
        v.section,
    ) + opt_str_member("descriptionHeading"@, v.description_heading) + opt_str_member(
        "description"@,
        v.description,
    ) + opt_str_member("room"@, v.room) + member_v(
        "ownerId"@,
        JsonV::Str(owner_text(v.owner_id)),
    ) + opt_member("courseState"@, state_opt_json(v.course_state))
}

/// The wire object of a create request.
pub open spec fn course_create_json(v: CourseCreateV) -> JsonV {
    JsonV::Obj(course_create_members(v))
}

/// The create request a wire value describes, if it matches the schema.
pub open spec fn course_create_of_json(j: JsonV) -> Option<CourseCreateV> {
    match (
        opt_str_field(j, "id"@),
        req_str_field(j, "name"@),
        opt_str_field(j, "section"@),
        opt_str_field(j, "descriptionHeading"@),
    ) {
        (Some(id), Some(name), Some(section), Some(description_heading)) => match (
            opt_str_field(j, "description"@),
            opt_str_field(j, "room"@),
            req_str_field(j, "ownerId"@),
            opt_state_field(j, "courseState"@),
        ) {
            (Some(description), Some(room), Some(owner), Some(course_state)) => Some(
                CourseCreateV {
                    id,
                    name,
                    section,
                    description_heading,
                    description,
                    room,
                    owner_id: owner_of_text(owner),
                    course_state,
                },
            ),
            _ => None,
        },
        _ => None,
    }
}

impl CourseCreate {
    /// Encodes this request as a wire object; unset optional fields are
    /// omitted.
    pub fn encode(&self) -> (r: Json)
        ensures
            r@ == course_create_json(self@),
    {
        let mut fields: Vec<JsonMember> = Vec::new();
        push_opt_str(&mut fields, "id", &self.id);
        push_str_member(&mut fields, "name", &self.name);
        push_opt_str(&mut fields, "section", &self.section);
        push_opt_str(&mut fields, "descriptionHeading", &self.description_heading);
        push_opt_str(&mut fields, "description", &self.description);
        push_opt_str(&mut fields, "room", &self.room);
        push_member(&mut fields, "ownerId", Json::Str(self.owner_id.encode()));
        let cs: Option<Json> = match &self.course_state {
            Some(s) => Some(Json::Str(s.encode())),
            None => None,
        };
        push_opt(&mut fields, "courseState", cs);
        let r = Json::Obj(fields);
        proof {
            assert(r@ =~= course_create_json(self@));
        }
        r
    }

    /// Decodes a create request from a wire value.
    pub fn decode(j: &Json) -> (r: Result<CourseCreate, DecodeError>)
        ensures
            match r {
                Ok(v) => course_create_of_json(j@) == Some(v@),
                Err(_) => course_create_of_json(j@) is None,
            },
    {
        let id = get_opt_str(j, "id")?;
        let name = get_req_str(j, "name")?;
        let section = get_opt_str(j, "section")?;
        let description_heading = get_opt_str(j, "descriptionHeading")?;
        let description = get_opt_str(j, "description")?;
        let room = get_opt_str(j, "room")?;
        let owner = get_req_str(j, "ownerId")?;
        let owner_id = OwnerId::decode(owner.as_str());
        let course_state = get_opt_state(j, "courseState")?;
        Ok(
            CourseCreate {
                id,
                name,
                section,
                description_heading,
                description,
                room,
                owner_id,
                course_state,
            },
        )
    }
}

/// A partial update to a course: every field is optional, and only the set
/// fields are carried on the wire.
#[derive(Debug, Hash, PartialEq, Eq)]
pub struct CourseModify {
    /// Name of the course.
    pub name: Option<String>,
    /// Section of the course.
    pub section: Option<String>,
    /// Optional heading for the description.
    pub description_heading: Option<String>,
    /// Optional description.
    pub description: Option<String>,
    /// Optional room location.
    pub room: Option<String>,
    /// The identifier of the owner of the course.
    pub owner_id: Option<OwnerId>,
    /// State of the course.
    pub course_state: Option<CourseState>,
}

/// The model of a [`CourseModify`].
#[verifier::ext_equal]
pub struct CourseModifyV {
    pub name: Option<Seq<char>>,
    pub section: Option<Seq<char>>,
    pub description_heading: Option<Seq<char>>,
    pub description: Option<Seq<char>>,
    pub room: Option<Seq<char>>,
    pub owner_id: Option<OwnerIdV>,
    pub course_state: Option<CourseState>,
}

impl DeepView for OwnerId {
    type V = OwnerIdV;

    open spec fn deep_view(&self) -> OwnerIdV {
        self.view()
    }
}

impl View for CourseModify {
    type V = CourseModifyV;

    open spec fn view(&self) -> CourseModifyV {
        CourseModifyV {
            name: self.name.deep_view(),
            section: self.section.deep_view(),
            description_heading: self.description_heading.deep_view(),
            description: self.description.deep_view(),
            room: self.room.deep_view(),
            owner_id: self.owner_id.deep_view(),
            course_state: self.course_state,
        }
    }
}

/// The member list of an encoded partial update: unset fields are omitted,
/// not written as `null`.
pub open spec fn course_modify_members(v: CourseModifyV) -> Seq<JsonMemberV> {
    opt_str_member("name"@, v.name) + opt_str_member("section"@, v.section) + opt_str_member(
        "descriptionHeading"@,
        v.description_heading,
    ) + opt_str_member("description"@, v.description) + opt_str_member("room"@, v.room)
        + opt_member("ownerId"@, owner_opt_json(v.owner_id)) + opt_member(
        "courseState"@,
        state_opt_json(v.course_state),
    )
}

/// The wire object of a partial update.
pub open spec fn course_modify_json(v: CourseModifyV) -> JsonV {
    JsonV::Obj(course_modify_members(v))
}

/// The partial update a wire value describes, if it matches the schema.
pub open spec fn course_modify_of_json(j: JsonV) -> Option<CourseModifyV> {
    match (
        opt_str_field(j, "name"@),
        opt_str_field(j, "section"@),
        opt_str_field(j, "descriptionHeading"@),
        opt_str_field(j, "description"@),
    ) {
        (Some(name), Some(section), Some(description_heading), Some(description)) => match (
            opt_str_field(j, "room"@),
            opt_owner_field(j, "ownerId"@),
            opt_state_field(j, "courseState"@),
        ) {
            (Some(room), Some(owner_id), Some(course_state)) => Some(
                CourseModifyV {
                    name,
                    section,
                    description_heading,
                    description,
                    room,
                    owner_id,
                    course_state,
                },
            ),
            _ => None,
        },
        _ => None,
    }
}

impl CourseModify {
    /// Encodes this partial update as a wire object; unset fields are
    /// omitted.
    pub fn encode(&self) -> (r: Json)
        ensures
            r@ == course_modify_json(self@),
    {
        let mut fields: Vec<JsonMember> = Vec::new();
        push_opt_str(&mut fields, "name", &self.name);
        push_opt_str(&mut fields, "section", &self.section);
        push_opt_str(&mut fields, "descriptionHeading", &self.description_heading);
        push_opt_str(&mut fields, "description", &self.description);
        push_opt_str(&mut fields, "room", &self.room);
        let ow: Option<Json> = match &self.owner_id {
            Some(o) => Some(Json::Str(o.encode())),
            None => None,
        };
        push_opt(&mut fields, "ownerId", ow);
        let cs: Option<Json> = match &self.course_state {
            Some(s) => Some(Json::Str(s.encode())),
            None => None,
        };
        push_opt(&mut fields, "courseState", cs);
        let r = Json::Obj(fields);
        proof {
            assert(r@ =~= course_modify_json(self@));
        }
        r
    }

    /// Decodes a partial update from a wire value.
    pub fn decode(j: &Json) -> (r: Result<CourseModify, DecodeError>)
        ensures
            match r {
                Ok(v) => course_modify_of_json(j@) == Some(v@),
                Err(_) => course_modify_of_json(j@) is None,
            },
    {
        let name = get_opt_str(j, "name")?;
        let section = get_opt_str(j, "section")?;
        let description_heading = get_opt_str(j, "descriptionHeading")?;
        let description = get_opt_str(j, "description")?;
        let room = get_opt_str(j, "room")?;
        let owner_id = get_opt_owner(j, "ownerId")?;
        let course_state = get_opt_state(j, "courseState")?;
        Ok(
            CourseModify {
                name,
                section,
                description_heading,
                description,
                room,
                owner_id,
                course_state,
            },
        )
    }
}

/// Where each member of an encoded create request comes from: a member
/// stands under a key exactly when the corresponding field is set (the
/// name and owner are always set), and its value is that field's encoding.
pub proof fn lemma_course_create_lookup(v: CourseCreateV, q: Seq<char>)
    ensures
        lookup(course_create_members(v), q) == (if q == "id"@ && v.id is Some {
            Some(JsonV::Str(v.id.unwrap()))
        } else if q == "name"@ {
            Some(JsonV::Str(v.name))
        } else if q == "section"@ && v.section is Some {
            Some(JsonV::Str(v.section.unwrap()))
        } else if q == "descriptionHeading"@ && v.description_heading is Some {
            Some(JsonV::Str(v.description_heading.unwrap()))
        } else if q == "description"@ && v.description is Some {
            Some(JsonV::Str(v.description.unwrap()))
        } else if q == "room"@ && v.room is Some {
            Some(JsonV::Str(v.room.unwrap()))
        } else if q == "ownerId"@ {
            Some(JsonV::Str(owner_text(v.owner_id)))
        } else if q == "courseState"@ && v.course_state is Some {
            Some(JsonV::Str(course_state_text(v.course_state.unwrap())))
        } else {
            None::<JsonV>
        }),
{
    let p1 = opt_str_member("id"@, v.id);
    let p2 = member_v("name"@, JsonV::Str(v.name));
    let p3 = opt_str_member("section"@, v.section);
    let p4 = opt_str_member("descriptionHeading"@, v.description_heading);
    let p5 = opt_str_member("description"@, v.description);
    let p6 = opt_str_member("room"@, v.room);
    let p7 = member_v("ownerId"@, JsonV::Str(owner_text(v.owner_id)));
    let p8 = opt_member("courseState"@, state_opt_json(v.course_state));
    lemma_lookup_append(p1 + p2 + p3 + p4 + p5 + p6 + p7, p8, q);
    lemma_lookup_append(p1 + p2 + p3 + p4 + p5 + p6, p7, q);
    lemma_lookup_append(p1 + p2 + p3 + p4 + p5, p6, q);
    lemma_lookup_append(p1 + p2 + p3 + p4, p5, q);
    lemma_lookup_append(p1 + p2 + p3, p4, q);
    lemma_lookup_append(p1 + p2, p3, q);
    lemma_lookup_append(p1, p2, q);
    lemma_lookup_opt_str_member("id"@, v.id, q);
    lemma_lookup_member_v("name"@, JsonV::Str(v.name), q);
    lemma_lookup_opt_str_member("section"@, v.section, q);
    lemma_lookup_opt_str_member("descriptionHeading"@, v.description_heading, q);
    lemma_lookup_opt_str_member("description"@, v.description, q);
    lemma_lookup_opt_str_member("room"@, v.room, q);
    lemma_lookup_member_v("ownerId"@, JsonV::Str(owner_text(v.owner_id)), q);
    lemma_lookup_opt_member("courseState"@, state_opt_json(v.course_state), q);
}

/// An encoded create request omits every unset optional field and writes
/// every set one: the wire object holds a member under a field's key
/// exactly when that field is set. The name and the owner are always
/// written.
pub proof fn lemma_course_create_encode_omits_unset(v: CourseCreateV)
    ensures
        obj_has_key(course_create_json(v), "id"@) == (v.id is Some),
        obj_has_key(course_create_json(v), "name"@),
        obj_has_key(course_create_json(v), "section"@) == (v.section is Some),
        obj_has_key(course_create_json(v), "descriptionHeading"@) == (
        v.description_heading is Some),
        obj_has_key(course_create_json(v), "description"@) == (v.description is Some),
        obj_has_key(course_create_json(v), "room"@) == (v.room is Some),
        obj_has_key(course_create_json(v), "ownerId"@),
        obj_has_key(course_create_json(v), "courseState"@) == (v.course_state is Some),
{
    reveal_strlit("id");
    reveal_strlit("name");
    reveal_strlit("section");
    reveal_strlit("descriptionHeading");
    reveal_strlit("description");
    reveal_strlit("room");
    reveal_strlit("ownerId");
    reveal_strlit("courseState");
    assert("id"@.len() == 2);
    assert("name"@.len() == 4);
    assert("section"@.len() == 7);
    assert("descriptionHeading"@.len() == 18);
    assert("description"@.len() == 11);
    assert("room"@.len() == 4);
    assert("ownerId"@.len() == 7);
    assert("courseState"@.len() == 11);
    assert("name"@[0] != "room"@[0]);
    assert("section"@[0] != "ownerId"@[0]);
    assert("description"@[0] != "courseState"@[0]);
    lemma_course_create_lookup(v, "id"@);
    lemma_course_create_lookup(v, "name"@);
    lemma_course_create_lookup(v, "section"@);
    lemma_course_create_lookup(v, "descriptionHeading"@);
    lemma_course_create_lookup(v, "description"@);
    lemma_course_create_lookup(v, "room"@);
    lemma_course_create_lookup(v, "ownerId"@);
    lemma_course_create_lookup(v, "courseState"@);
}

/// Where each member of an encoded partial update comes from: a member
/// stands under a key exactly when the corresponding field is set, and its
/// value is that field's encoding.
pub proof fn lemma_course_modify_lookup(v: CourseModifyV, q: Seq<char>)
    ensures
        lookup(course_modify_members(v), q) == (if q == "name"@ && v.name is Some {
            Some(JsonV::Str(v.name.unwrap()))
        } else if q == "section"@ && v.section is Some {
            Some(JsonV::Str(v.section.unwrap()))
        } else if q == "descriptionHeading"@ && v.description_heading is Some {
            Some(JsonV::Str(v.description_heading.unwrap()))
        } else if q == "description"@ && v.description is Some {
            Some(JsonV::Str(v.description.unwrap()))
        } else if q == "room"@ && v.room is Some {
            Some(JsonV::Str(v.room.unwrap()))
        } else if q == "ownerId"@ && v.owner_id is Some {
            Some(JsonV::Str(owner_text(v.owner_id.unwrap())))
        } else if q == "courseState"@ && v.course_state is Some {
            Some(JsonV::Str(course_state_text(v.course_state.unwrap())))
        } else {
            None::<JsonV>
        }),
{
    let p1 = opt_str_member("name"@, v.name);
    let p2 = opt_str_member("section"@, v.section);
    let p3 = opt_str_member("descriptionHeading"@, v.description_heading);
    let p4 = opt_str_member("description"@, v.description);
    let p5 = opt_str_member("room"@, v.room);
    let p6 = opt_member("ownerId"@, owner_opt_json(v.owner_id));
    let p7 = opt_member("courseState"@, state_opt_json(v.course_state));
    lemma_lookup_append(p1 + p2 + p3 + p4 + p5 + p6, p7, q);
    lemma_lookup_append(p1 + p2 + p3 + p4 + p5, p6, q);
    lemma_lookup_append(p1 + p2 + p3 + p4, p5, q);
    lemma_lookup_append(p1 + p2 + p3, p4, q);
    lemma_lookup_append(p1 + p2, p3, q);
    lemma_lookup_append(p1, p2, q);
    lemma_lookup_opt_str_member("name"@, v.name, q);
    lemma_lookup_opt_str_member("section"@, v.section, q);
    lemma_lookup_opt_str_member("descriptionHeading"@, v.description_heading, q);
    lemma_lookup_opt_str_member("description"@, v.description, q);
    lemma_lookup_opt_str_member("room"@, v.room, q);
    lemma_lookup_opt_member("ownerId"@, owner_opt_json(v.owner_id), q);
    lemma_lookup_opt_member("courseState"@, state_opt_json(v.course_state), q);
}

/// An encoded partial update omits every unset field and writes every set
/// one: the wire object holds a member under a field's key exactly when
/// that field is set.
pub proof fn lemma_course_modify_encode_omits_unset(v: CourseModifyV)
    ensures
        obj_has_key(course_modify_json(v), "name"@) == (v.name is Some),
        obj_has_key(course_modify_json(v), "section"@) == (v.section is Some),
        obj_has_key(course_modify_json(v), "descriptionHeading"@) == (
        v.description_heading is Some),
        obj_has_key(course_modify_json(v), "description"@) == (v.description is Some),
        obj_has_key(course_modify_json(v), "room"@) == (v.room is Some),
        obj_has_key(course_modify_json(v), "ownerId"@) == (v.owner_id is Some),
        obj_has_key(course_modify_json(v), "courseState"@) == (v.course_state is Some),
{
    reveal_strlit("name");
    reveal_strlit("section");
    reveal_strlit("descriptionHeading");
    reveal_strlit("description");
    reveal_strlit("room");
    reveal_strlit("ownerId");
    reveal_strlit("courseState");
    assert("name"@.len() == 4);
    assert("section"@.len() == 7);
    assert("descriptionHeading"@.len() == 18);
    assert("description"@.len() == 11);
    assert("room"@.len() == 4);
    assert("ownerId"@.len() == 7);
    assert("courseState"@.len() == 11);
    assert("name"@[0] != "room"@[0]);
    assert("section"@[0] != "ownerId"@[0]);
    assert("description"@[0] != "courseState"@[0]);
    lemma_course_modify_lookup(v, "name"@);
    lemma_course_modify_lookup(v, "section"@);
    lemma_course_modify_lookup(v, "descriptionHeading"@);
    lemma_course_modify_lookup(v, "description"@);
    lemma_course_modify_lookup(v, "room"@);
    lemma_course_modify_lookup(v, "ownerId"@);
    lemma_course_modify_lookup(v, "courseState"@);
}

/// An optional drive-folder field: an absent or `null` member reads as
/// unset; a present member must match the folder schema.
pub open spec fn opt_folder_field(j: JsonV, k: Seq<char>) -> Option<Option<DriveFolderV>> {
    match present_field(j, k) {
        Option::None => Option::Some(Option::None),
        Option::Some(v) => match drive_folder_of_json(v) {
            Option::Some(f) => Option::Some(Option::Some(f)),
            Option::None => Option::None,
        },
    }
}

/// A required gradebook-settings field.
pub open spec fn gradebook_field(j: JsonV, k: Seq<char>) -> Option<GradebookSettingsV> {
    match obj_lookup(j, k) {
        Option::Some(v) => gradebook_settings_of_json(v),
        Option::None => Option::None,
    }
}

/// The member value of an optional drive folder.
pub open spec fn folder_opt_json(v: Option<DriveFolderV>) -> Option<JsonV> {
    match v {
        Option::Some(f) => Option::Some(drive_folder_json(f)),
        Option::None => Option::None,
    }
}

/// A course as the remote service returns it.
#[derive(Debug, Hash, PartialEq, Eq)]
pub struct Course {
    /// Identifier for this course assigned by the remote service.
    pub id: String,
    /// Name of the course.
    pub name: String,
    /// Section of the course.
    pub section: Option<String>,
    /// Optional heading for the description.
    pub description_heading: Option<String>,
    /// Optional description.
    pub description: Option<String>,
    /// Optional room location.
    pub room: Option<String>,
    /// Identifier for the owner of the course.
    pub owner_id: OwnerId,
    /// When this course was created.
    pub creation_time: Timestamp,
    /// Time of the most recent update to this course.
    pub update_time: Timestamp,
    /// Enrollment code to use when joining this course.
    pub enrollment_code: String,
    /// State of the course. If unspecified, the remote default is
    /// [`CourseState::Provisioned`].
    pub course_state: Option<CourseState>,
    /// Absolute link to this course in the web UI.
    pub alternate_link: String,
    /// The email address of a group containing all teachers of the course.
    pub teacher_group_email: String,
    /// The email address of a group containing all members of the course.
    pub course_group_email: String,
    /// Information about a drive folder that is shared with all teachers of
    /// the course. Only set for teachers and domain administrators.
    pub teacher_folder: Option<DriveFolder>,
    /// Whether guardian notifications are enabled for this course.
    pub guardians_enabled: bool,
    /// The calendar identifier for a calendar that all course members can
    /// see.
    pub calendar_id: String,
    /// How a student's overall grade is calculated and who it is shown to.
    pub gradebook_settings: GradebookSettings,
}

/// The model of a [`Course`].
#[verifier::ext_equal]
pub struct CourseV {
    pub id: Seq<char>,
    pub name: Seq<char>,
    pub section: Option<Seq<char>>,
    pub description_heading: Option<Seq<char>>,
    pub description: Option<Seq<char>>,
    pub room: Option<Seq<char>>,
    pub owner_id: OwnerIdV,
    pub creation_time: Timestamp,
    pub update_time: Timestamp,
    pub enrollment_code: Seq<char>,
    pub course_state: Option<CourseState>,
    pub alternate_link: Seq<char>,
    pub teacher_group_email: Seq<char>,
    pub course_group_email: Seq<char>,
    pub teacher_folder: Option<DriveFolderV>,
    pub guardians_enabled: bool,
    pub calendar_id: Seq<char>,
    pub gradebook_settings: GradebookSettingsV,
}

impl View for Course {
    type V = CourseV;

    open spec fn view(&self) -> CourseV {
        CourseV {
            id: self.id@,
            name: self.name@,
            section: self.section.deep_view(),
            description_heading: self.description_heading.deep_view(),
            description: self.description.deep_view(),
            room: self.room.deep_view(),
            owner_id: self.owner_id@,
            creation_time: self.creation_time,
            update_time: self.update_time,
            enrollment_code: self.enrollment_code@,
            course_state: self.course_state,
            alternate_link: self.alternate_link@,
            teacher_group_email: self.teacher_group_email@,
            course_group_email: self.course_group_email@,
            teacher_folder: self.teacher_folder.deep_view(),
            guardians_enabled: self.guardians_enabled,
            calendar_id: self.calendar_id@,
            gradebook_settings: self.gradebook_settings@,
        }
    }
}

/// The member list of an encoded course, given the two formatted timestamp
/// texts.
pub open spec fn course_members(v: CourseV, ct: Seq<char>, ut: Seq<char>) -> Seq<JsonMemberV> {
    member_v("id"@, JsonV::Str(v.id)) + member_v("name"@, JsonV::Str(v.name)) + opt_str_member(
        "section"@,
        v.section,
    ) + opt_str_member("descriptionHeading"@, v.description_heading) + opt_str_member(
        "description"@,
        v.description,
    ) + opt_str_member("room"@, v.room) + member_v(
        "ownerId"@,
        JsonV::Str(owner_text(v.owner_id)),
    ) + member_v("creationTime"@, JsonV::Str(ct)) + member_v("updateTime"@, JsonV::Str(ut))
        + member_v("enrollmentCode"@, JsonV::Str(v.enrollment_code)) + opt_member(
        "courseState"@,
        state_opt_json(v.course_state),
    ) + member_v("alternateLink"@, JsonV::Str(v.alternate_link)) + member_v(
        "teacherGroupEmail"@,
        JsonV::Str(v.teacher_group_email),
    ) + member_v("courseGroupEmail"@, JsonV::Str(v.course_group_email)) + opt_member(
        "teacherFolder"@,
        folder_opt_json(v.teacher_folder),
    ) + member_v("guardiansEnabled"@, JsonV::Bool(v.guardians_enabled)) + member_v(
        "calendarId"@,
        JsonV::Str(v.calendar_id),
    ) + member_v("gradebookSettings"@, gradebook_settings_json(v.gradebook_settings))
}

/// The wire object of a course, or `None` where a timestamp has no text
/// form.
pub open spec fn course_json(v: CourseV) -> Option<JsonV> {
    match (
        rfc3339_format(v.creation_time.seconds, v.creation_time.nanos),
        rfc3339_format(v.update_time.seconds, v.update_time.nanos),
    ) {
        (Some(ct), Some(ut)) => Some(JsonV::Obj(course_members(v, ct, ut))),
        _ => None,
    }
}

/// The course a wire value describes, if it matches the schema.
pub open spec fn course_of_json(j: JsonV) -> Option<CourseV> {
    match (
        req_str_field(j, "id"@),
        req_str_field(j, "name"@),
        opt_str_field(j, "section"@),
        opt_str_field(j, "descriptionHeading"@),
        opt_str_field(j, "description"@),
        opt_str_field(j, "room"@),
    ) {
        (Some(id), Some(name), Some(section), Some(description_heading), Some(description), Some(room)) => match (
            req_str_field(j, "ownerId"@),
            req_ts_field(j, "creationTime"@),
            req_ts_field(j, "updateTime"@),
            req_str_field(j, "enrollmentCode"@),
            opt_state_field(j, "courseState"@),
            req_str_field(j, "alternateLink"@),
        ) {
            (Some(owner), Some(creation_time), Some(update_time), Some(enrollment_code), Some(course_state), Some(alternate_link)) => match (
                req_str_field(j, "teacherGroupEmail"@),
                req_str_field(j, "courseGroupEmail"@),
                opt_folder_field(j, "teacherFolder"@),
                req_bool_field(j, "guardiansEnabled"@),
                req_str_field(j, "calendarId"@),
                gradebook_field(j, "gradebookSettings"@),
            ) {
                (Some(teacher_group_email), Some(course_group_email), Some(teacher_folder), Some(guardians_enabled), Some(calendar_id), Some(gradebook_settings)) => Some(
                    CourseV {
                        id,
                        name,
                        section,
                        description_heading,
                        description,
                        room,
                        owner_id: owner_of_text(owner),
                        creation_time,
                        update_time,
                        enrollment_code,
                        course_state,
                        alternate_link,
                        teacher_group_email,
                        course_group_email,
                        teacher_folder,
                        guardians_enabled,
                        calendar_id,
                        gradebook_settings,
                    },
                ),
                _ => None,
            },
            _ => None,
        },
        _ => None,
    }
}

impl Course {
    /// Encodes this course as a wire object; fails only where a timestamp
    /// lies outside the representable range of dates.
    pub fn encode(&self) -> (r: Result<Json, EncodeError>)
        ensures
            match r {
                Ok(js) => course_json(self@) == Some(js@),
                Err(_) => course_json(self@) is None,
            },
    {
        let ct = match self.creation_time.format() {
            Some(s) => s,
            None => {
                return Err(EncodeError {  });
            },
        };
        let ut = match self.update_time.format() {
            Some(s) => s,
            None => {
                return Err(EncodeError {  });
            },
        };
        let mut fields: Vec<JsonMember> = Vec::new();
        push_str_member(&mut fields, "id", &self.id);
        push_str_member(&mut fields, "name", &self.name);
        push_opt_str(&mut fields, "section", &self.section);
        push_opt_str(&mut fields, "descriptionHeading", &self.description_heading);
        push_opt_str(&mut fields, "description", &self.description);
        push_opt_str(&mut fields, "room", &self.room);
        push_member(&mut fields, "ownerId", Json::Str(self.owner_id.encode()));
        push_member(&mut fields, "creationTime", Json::Str(ct));
        push_member(&mut fields, "updateTime", Json::Str(ut));
        push_str_member(&mut fields, "enrollmentCode", &self.enrollment_code);
        let cs: Option<Json> = match &self.course_state {
            Some(s) => Some(Json::Str(s.encode())),
            None => None,
        };
        push_opt(&mut fields, "courseState", cs);
        push_str_member(&mut fields, "alternateLink", &self.alternate_link);
        push_str_member(&mut fields, "teacherGroupEmail", &self.teacher_group_email);
        push_str_member(&mut fields, "courseGroupEmail", &self.course_group_email);
        let tf: Option<Json> = match &self.teacher_folder {
            Some(f) => Some(f.encode()),
            None => None,
        };
        push_opt(&mut fields, "teacherFolder", tf);
        push_member(&mut fields, "guardiansEnabled", Json::Bool(self.guardians_enabled));
        push_str_member(&mut fields, "calendarId", &self.calendar_id);
        push_member(&mut fields, "gradebookSettings", self.gradebook_settings.encode());
        let r = Json::Obj(fields);
        proof {
            assert(course_json(self@) is Some);
            assert(r@ =~= course_json(self@).unwrap());
        }
        Ok(r)
    }

    /// Decodes a course from a wire value.
    pub fn decode(j: &Json) -> (r: Result<Course, DecodeError>)
        ensures
            match r {
                Ok(v) => course_of_json(j@) == Some(v@),
                Err(_) => course_of_json(j@) is None,
            },
    {
        let id = get_req_str(j, "id")?;
        let name = get_req_str(j, "name")?;
        let section = get_opt_str(j, "section")?;
        let description_heading = get_opt_str(j, "descriptionHeading")?;
        let description = get_opt_str(j, "description")?;
        let room = get_opt_str(j, "room")?;
        let owner = get_req_str(j, "ownerId")?;
        let owner_id = OwnerId::decode(owner.as_str());
        let creation_time = get_req_ts(j, "creationTime")?;
        let update_time = get_req_ts(j, "updateTime")?;
        let enrollment_code = get_req_str(j, "enrollmentCode")?;
        let course_state = get_opt_state(j, "courseState")?;
        let alternate_link = get_req_str(j, "alternateLink")?;
        let teacher_group_email = get_req_str(j, "teacherGroupEmail")?;
        let course_group_email = get_req_str(j, "courseGroupEmail")?;
        let teacher_folder = match get_present(j, "teacherFolder") {
            Some(v) => match DriveFolder::decode(v) {
                Ok(f) => Some(f),
                Err(e) => {
                    return Err(DecodeError::nested("teacherFolder", e));
                },
            },
            None => None,
        };
        let guardians_enabled = get_req_bool(j, "guardiansEnabled")?;
        let calendar_id = get_req_str(j, "calendarId")?;
        let gb = match j.get("gradebookSettings") {
            Some(v) => v,
            None => {
                return Err(DecodeError::at("gradebookSettings"));
            },
        };
        let gradebook_settings = match GradebookSettings::decode(gb) {
            Ok(g) => g,
            Err(e) => {
                return Err(DecodeError::nested("gradebookSettings", e));
            },
        };
        Ok(
            Course {
                id,
                name,
                section,
                description_heading,
                description,
                room,
                owner_id,
                creation_time,
                update_time,
                enrollment_code,
                course_state,
                alternate_link,
                teacher_group_email,
                course_group_email,
                teacher_folder,
                guardians_enabled,
                calendar_id,
                gradebook_settings,
            },
        )
    }
}

proof fn lemma_gradebook_lookup(v: GradebookSettingsV, q: Seq<char>)
    ensures
        lookup(gradebook_settings_json(v)->Obj_0, q) == (if q == "calculationType"@ {
            Some(JsonV::Str(calculation_type_text(v.calculation_type)))
        } else if q == "displaySetting"@ {
            Some(JsonV::Str(display_setting_text(v.display_setting)))
        } else if q == "gradeCategories"@ {
            Some(JsonV::Arr(categories_arr(v.grade_categories)))
        } else {
            None::<JsonV>
        }),
{
    let p1 = member_v("calculationType"@, JsonV::Str(calculation_type_text(v.calculation_type)));
    let p2 = member_v("displaySetting"@, JsonV::Str(display_setting_text(v.display_setting)));
    let p3 = member_v("gradeCategories"@, JsonV::Arr(categories_arr(v.grade_categories)));
    lemma_lookup_append(p1 + p2, p3, q);
    lemma_lookup_append(p1, p2, q);
    lemma_lookup_member_v("calculationType"@, JsonV::Str(calculation_type_text(v.calculation_type)), q);
    lemma_lookup_member_v("displaySetting"@, JsonV::Str(display_setting_text(v.display_setting)), q);
    lemma_lookup_member_v("gradeCategories"@, JsonV::Arr(categories_arr(v.grade_categories)), q);
}

/// Decoding encoded gradebook settings gives the same value back: both
/// enum texts and every grade category round-trip.
pub proof fn lemma_gradebook_settings_round_trip(v: GradebookSettingsV)
    ensures
        gradebook_settings_of_json(gradebook_settings_json(v)) == Some(v),
{
    reveal_strlit("calculationType");
    reveal_strlit("displaySetting");
    reveal_strlit("gradeCategories");
    assert("calculationType"@.len() == 15);
    assert("displaySetting"@.len() == 14);
    assert("gradeCategories"@.len() == 15);
    assert("calculationType"@[0] != "gradeCategories"@[0]);
    lemma_gradebook_lookup(v, "calculationType"@);
    lemma_gradebook_lookup(v, "displaySetting"@);
    lemma_gradebook_lookup(v, "gradeCategories"@);
    lemma_calculation_type_round_trip(v.calculation_type);
    lemma_display_setting_round_trip(v.display_setting);
    let items = categories_arr(v.grade_categories);
    assert forall|i: int| #![trigger items[i]]
        0 <= i < items.len() implies grade_category_of_json(items[i]) == Some(
        v.grade_categories[i],
    ) by {
        crate::model::lemma_grade_category_round_trip(v.grade_categories[i]);
    }
    assert(categories_ok(items));
    assert(categories_values(items) =~= v.grade_categories);
}

/// Decoding an encoded create request gives the same value back, for every
/// request whose owner identifier is one that some text can decode to.
/// An owner built directly outside that set encodes to text that resolves
/// to another variant, the same asymmetry the owner round-trip law states.
pub proof fn lemma_course_create_round_trip(v: CourseCreateV)
    requires
        owner_decodable(v.owner_id),
    ensures
        course_create_of_json(course_create_json(v)) == Some(v),
{
    reveal_strlit("id");
    reveal_strlit("name");
    reveal_strlit("section");
    reveal_strlit("descriptionHeading");
    reveal_strlit("description");
    reveal_strlit("room");
    reveal_strlit("ownerId");
    reveal_strlit("courseState");
    assert("id"@.len() == 2);
    assert("name"@.len() == 4);
    assert("section"@.len() == 7);
    assert("descriptionHeading"@.len() == 18);
    assert("description"@.len() == 11);
    assert("room"@.len() == 4);
    assert("ownerId"@.len() == 7);
    assert("courseState"@.len() == 11);
    assert("name"@[0] != "room"@[0]);
    assert("section"@[0] != "ownerId"@[0]);
    assert("description"@[0] != "courseState"@[0]);
    lemma_course_create_lookup(v, "id"@);
    lemma_course_create_lookup(v, "name"@);
    lemma_course_create_lookup(v, "section"@);
    lemma_course_create_lookup(v, "descriptionHeading"@);
    lemma_course_create_lookup(v, "description"@);
    lemma_course_create_lookup(v, "room"@);
    lemma_course_create_lookup(v, "ownerId"@);
    lemma_course_create_lookup(v, "courseState"@);
    lemma_owner_round_trip(v.owner_id);
    match v.course_state {
        Option::Some(cs) => lemma_course_state_round_trip(cs),
        Option::None => {},
    }
}

/// Decoding an encoded partial update gives the same value back, for every
/// update whose owner identifier, if set, is one that some text can decode
/// to.
pub proof fn lemma_course_modify_round_trip(v: CourseModifyV)
    requires
        match v.owner_id {
            Option::Some(o) => owner_decodable(o),
            Option::None => true,
        },
    ensures
        course_modify_of_json(course_modify_json(v)) == Some(v),
{
    reveal_strlit("name");
    reveal_strlit("section");
    reveal_strlit("descriptionHeading");
    reveal_strlit("description");
    reveal_strlit("room");
    reveal_strlit("ownerId");
    reveal_strlit("courseState");
    assert("name"@.len() == 4);
    assert("section"@.len() == 7);
    assert("descriptionHeading"@.len() == 18);
    assert("description"@.len() == 11);
    assert("room"@.len() == 4);
    assert("ownerId"@.len() == 7);
    assert("courseState"@.len() == 11);
    assert("name"@[0] != "room"@[0]);
    assert("section"@[0] != "ownerId"@[0]);
    assert("description"@[0] != "courseState"@[0]);
    lemma_course_modify_lookup(v, "name"@);
    lemma_course_modify_lookup(v, "section"@);
    lemma_course_modify_lookup(v, "descriptionHeading"@);
    lemma_course_modify_lookup(v, "description"@);
    lemma_course_modify_lookup(v, "room"@);
    lemma_course_modify_lookup(v, "ownerId"@);
    lemma_course_modify_lookup(v, "courseState"@);
    match v.owner_id {
        Option::Some(o) => lemma_owner_round_trip(o),
        Option::None => {},
    }
    match v.course_state {
        Option::Some(cs) => lemma_course_state_round_trip(cs),
        Option::None => {},
    }
}

} // verus!

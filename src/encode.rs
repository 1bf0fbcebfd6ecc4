use vstd::prelude::*;
use vstd::string::*;

use crate::coerce::{nullable_flag, nullable_text};
use crate::document::{Field, Record, Value};
use crate::millis::DateTime;
use crate::record::{
    CompletedChallenge, CompletedExam, ExamResults, File, NOption, PartiallyCompletedChallenge, Portfolio, ProfileUI,
    SavedChallenge, User,
};

verus! {

/// The fields of a document as (name, value) pairs.
pub open spec fn field_pairs(fs: Seq<Field>) -> Seq<(Seq<char>, Value)> {
    fs.map_values(|f: Field| (f.key@, f.value))
}

/// The fields written for optional entries: an entry without value is
/// omitted, never written as null.
pub open spec fn present_entries(want: Seq<(Seq<char>, Option<Value>)>) -> Seq<(Seq<char>, Value)>
    decreases want.len(),
{
    if want.len() == 0 {
        Seq::empty()
    } else {
        let rest = present_entries(want.drop_last());
        match want.last().1 {
            Some(v) => rest.push((want.last().0, v)),
            None => rest,
        }
    }
}

/// A nullable text as stored: a string, null, or nothing at all.
pub open spec fn nullable_text_value(o: NOption<String>) -> Option<Value> {
    match o {
        NOption::Present(s) => Some(Value::Text(s)),
        NOption::Null => Some(Value::Null),
        NOption::Undefined => None,
    }
}

pub open spec fn nullable_flag_value(o: NOption<bool>) -> Option<Value> {
    match o {
        NOption::Present(b) => Some(Value::Boolean(b)),
        NOption::Null => Some(Value::Null),
        NOption::Undefined => None,
    }
}

pub open spec fn nullable_u32_value(o: NOption<u32>) -> Option<Value> {
    match o {
        NOption::Present(n) => Some(Value::Int64(n as i64)),
        NOption::Null => Some(Value::Null),
        NOption::Undefined => None,
    }
}

fn text_value_of(o: NOption<String>) -> (r: Option<Value>)
    ensures
        r == nullable_text_value(o),
{
    match o {
        NOption::Present(s) => Some(Value::Text(s)),
        NOption::Null => Some(Value::Null),
        NOption::Undefined => None,
    }
}

fn push_field(fields: &mut Vec<Field>, key: &str, value: Value)
    ensures
        field_pairs(final(fields)@) == field_pairs(old(fields)@).push((key@, value)),
{
    let ghost before = fields@;
    fields.push(Field { key: String::from_str(key), value });
    assert(field_pairs(fields@) =~= field_pairs(before).push((key@, value)));
}

fn push_optional(fields: &mut Vec<Field>, key: &str, value: Option<Value>, want: Ghost<
    Seq<(Seq<char>, Option<Value>)>,
>)
    requires
        field_pairs(old(fields)@) == present_entries(want@),
    ensures
        field_pairs(final(fields)@) == present_entries(want@.push((key@, value))),
{
    let ghost w = want@.push((key@, value));
    assert(w.drop_last() =~= want@);
    match value {
        Some(v) => push_field(fields, key, v),
        None => {},
    }
}

/// Conversion of a typed value to a stored value.
pub trait ToValue: Sized {
    spec fn encodes(&self, v: Value) -> bool;

    fn into_value(self) -> (r: Value)
        ensures
            self.encodes(r),
    ;
}

/// Each stored element encodes the typed element at the same position.
pub open spec fn encodes_all<T: ToValue>(xs: Seq<T>, vs: Seq<Value>) -> bool {
    &&& xs.len() == vs.len()
    &&& forall|i: int| 0 <= i < xs.len() ==> #[trigger] xs[i].encodes(vs[i])
}

/// Encodes each element, keeping their order.
pub fn encode_all<T: ToValue>(xs: Vec<T>) -> (r: Vec<Value>)
    ensures
        encodes_all(xs@, r@),
{
    let ghost orig = xs@;
    let mut rest = xs;
    let mut out: Vec<Value> = Vec::new();
    while rest.len() > 0
        invariant
            out@.len() + rest@.len() == orig.len(),
            rest@ == orig.skip(out@.len() as int),
            forall|i: int| 0 <= i < out@.len() ==> #[trigger] orig[i].encodes(out@[i]),
        decreases rest@.len(),
    {
        let x = rest.remove(0);
        assert(x == orig[out@.len() as int]);
        let v = x.into_value();
        out.push(v);
        assert(rest@ =~= orig.skip(out@.len() as int));
    }
    out
}

/// An array field's stored value encodes `xs`.
pub open spec fn encodes_array<T: ToValue>(v: Value, xs: Seq<T>) -> bool {
    v matches Value::Array(items) && encodes_all(xs, items@)
}

impl ToValue for u64 {
    open spec fn encodes(&self, v: Value) -> bool {
        v == Value::Int64(*self as i64)
    }

    fn into_value(self) -> (r: Value) {
        Value::Int64(#[verifier::truncate] (self as i64))
    }
}

impl ToValue for File {
    open spec fn encodes(&self, v: Value) -> bool {
        v matches Value::Document(d) && {
            let p = field_pairs(d.fields@);
            &&& p.len() == 5
            &&& p[0] == ("contents"@, Value::Text(self.contents))
            &&& p[1] == ("ext"@, Value::Text(self.ext))
            &&& p[2] == ("key"@, Value::Text(self.key))
            &&& p[3] == ("name"@, Value::Text(self.name))
            &&& p[4] == ("path"@, Value::Text(self.path))
        }
    }

    fn into_value(self) -> (r: Value) {
        let mut fs: Vec<Field> = Vec::new();
        assert(field_pairs(fs@) =~= Seq::empty());
        push_field(&mut fs, "contents", Value::Text(self.contents));
        push_field(&mut fs, "ext", Value::Text(self.ext));
        push_field(&mut fs, "key", Value::Text(self.key));
        push_field(&mut fs, "name", Value::Text(self.name));
        push_field(&mut fs, "path", Value::Text(self.path));
        Value::Document(Record { fields: fs })
    }
}

impl ToValue for Portfolio {
    open spec fn encodes(&self, v: Value) -> bool {
        v matches Value::Document(d) && {
            let p = field_pairs(d.fields@);
            &&& p.len() == 5
            &&& p[0] == ("description"@, Value::Text(self.description))
            &&& p[1] == ("id"@, Value::Text(self.id))
            &&& p[2] == ("image"@, Value::Text(self.image))
            &&& p[3] == ("title"@, Value::Text(self.title))
            &&& p[4] == ("url"@, Value::Text(self.url))
        }
    }

    fn into_value(self) -> (r: Value) {
        let mut fs: Vec<Field> = Vec::new();
        assert(field_pairs(fs@) =~= Seq::empty());
        push_field(&mut fs, "description", Value::Text(self.description));
        push_field(&mut fs, "id", Value::Text(self.id));
        push_field(&mut fs, "image", Value::Text(self.image));
        push_field(&mut fs, "title", Value::Text(self.title));
        push_field(&mut fs, "url", Value::Text(self.url));
        Value::Document(Record { fields: fs })
    }
}

impl ToValue for PartiallyCompletedChallenge {
    open spec fn encodes(&self, v: Value) -> bool {
        v matches Value::Document(d) && {
            let p = field_pairs(d.fields@);
            &&& p.len() == 2
            &&& p[0] == ("completedDate"@, Value::Int64(self.completed_date as i64))
            &&& p[1] == ("id"@, Value::Text(self.id))
        }
    }

    fn into_value(self) -> (r: Value) {
        let mut fs: Vec<Field> = Vec::new();
        assert(field_pairs(fs@) =~= Seq::empty());
        push_field(&mut fs, "completedDate", self.completed_date.into_value());
        push_field(&mut fs, "id", Value::Text(self.id));
        Value::Document(Record { fields: fs })
    }
}

impl ToValue for SavedChallenge {
    open spec fn encodes(&self, v: Value) -> bool {
        v matches Value::Document(d) && {
            let p = field_pairs(d.fields@);
            &&& p.len() == 4
            &&& p[0] == ("challengeType"@, Value::Int64(self.challenge_type as i64))
            &&& p[1].0 == "files"@
            &&& encodes_array(p[1].1, self.files@)
            &&& p[2] == ("id"@, Value::Text(self.id))
            &&& p[3] == ("lastSavedDate"@, Value::Int64(self.last_saved_date as i64))
        }
    }

    fn into_value(self) -> (r: Value) {
        let mut fs: Vec<Field> = Vec::new();
        assert(field_pairs(fs@) =~= Seq::empty());
        push_field(&mut fs, "challengeType", Value::Int64(self.challenge_type as i64));
        let files = Value::Array(encode_all(self.files));
        push_field(&mut fs, "files", files);
        push_field(&mut fs, "id", Value::Text(self.id));
        push_field(&mut fs, "lastSavedDate", self.last_saved_date.into_value());
        Value::Document(Record { fields: fs })
    }
}

/// The optional fields of a completed challenge, in stored order.
pub open spec fn challenge_optionals(c: CompletedChallenge) -> Seq<(Seq<char>, Option<Value>)> {
    seq![
        ("challengeType"@, nullable_u32_value(c.challenge_type)),
        ("githubLink"@, nullable_text_value(c.github_link)),
        ("isManuallyApproved"@, nullable_flag_value(c.is_manually_approved)),
        ("solution"@, nullable_text_value(c.solution)),
    ]
}

impl ToValue for CompletedChallenge {
    open spec fn encodes(&self, v: Value) -> bool {
        v matches Value::Document(d) && {
            let p = field_pairs(d.fields@);
            &&& p.len() >= 3
            &&& p[0] == ("completedDate"@, Value::Int64(self.completed_date as i64))
            &&& p[1].0 == "files"@
            &&& encodes_array(p[1].1, self.files@)
            &&& p[2] == ("id"@, Value::Text(self.id))
            &&& p.skip(3) == present_entries(challenge_optionals(*self))
        }
    }

    fn into_value(self) -> (r: Value) {
        let ghost me = self;
        let mut fs: Vec<Field> = Vec::new();
        assert(field_pairs(fs@) =~= Seq::empty());
        push_field(&mut fs, "completedDate", self.completed_date.into_value());
        let files = Value::Array(encode_all(self.files));
        push_field(&mut fs, "files", files);
        push_field(&mut fs, "id", Value::Text(self.id));
        let ghost head = fs@;
        assert(field_pairs(head).len() == 3);
        assert(head.len() == 3);
        let mut tail: Vec<Field> = Vec::new();
        let ghost want = challenge_optionals(me);
        assert(field_pairs(tail@) =~= present_entries(want.take(0)));
        let ct = match self.challenge_type {
            NOption::Present(n) => Some(Value::Int64(n as i64)),
            NOption::Null => Some(Value::Null),
            NOption::Undefined => None,
        };
        push_optional(&mut tail, "challengeType", ct, Ghost(want.take(0)));
        assert(want.take(0).push(("challengeType"@, ct)) =~= want.take(1));
        push_optional(&mut tail, "githubLink", text_value_of(self.github_link), Ghost(want.take(1)));
        assert(want.take(1).push(want[1]) =~= want.take(2));
        let ma = match self.is_manually_approved {
            NOption::Present(b) => Some(Value::Boolean(b)),
            NOption::Null => Some(Value::Null),
            NOption::Undefined => None,
        };
        push_optional(&mut tail, "isManuallyApproved", ma, Ghost(want.take(2)));
        assert(want.take(2).push(want[2]) =~= want.take(3));
        push_optional(&mut tail, "solution", text_value_of(self.solution), Ghost(want.take(3)));
        assert(want.take(3).push(want[3]) =~= want);
        let ghost t = tail@;
        fs.append(&mut tail);
        assert(fs@ =~= head + t);
        assert(field_pairs(fs@).skip(3) =~= field_pairs(t));
        assert(field_pairs(t) == present_entries(want));
        assert(field_pairs(fs@)[0] == field_pairs(head)[0]);
        assert(field_pairs(fs@)[1] == field_pairs(head)[1]);
        assert(field_pairs(fs@)[2] == field_pairs(head)[2]);
        Value::Document(Record { fields: fs })
    }
}

impl ToValue for ProfileUI {
    open spec fn encodes(&self, v: Value) -> bool {
        v matches Value::Document(d) && {
            let p = field_pairs(d.fields@);
            &&& p.len() == 10
            &&& p[0] == ("isLocked"@, Value::Boolean(self.is_locked))
            &&& p[1] == ("showAbout"@, Value::Boolean(self.show_about))
            &&& p[2] == ("showCerts"@, Value::Boolean(self.show_certs))
            &&& p[3] == ("showDonation"@, Value::Boolean(self.show_donation))
            &&& p[4] == ("showHeatMap"@, Value::Boolean(self.show_heat_map))
            &&& p[5] == ("showLocation"@, Value::Boolean(self.show_location))
            &&& p[6] == ("showName"@, Value::Boolean(self.show_name))
            &&& p[7] == ("showPoints"@, Value::Boolean(self.show_points))
            &&& p[8] == ("showPortfolio"@, Value::Boolean(self.show_portfolio))
            &&& p[9] == ("showTimeLine"@, Value::Boolean(self.show_time_line))
        }
    }

    fn into_value(self) -> (r: Value) {
        let mut fs: Vec<Field> = Vec::new();
        assert(field_pairs(fs@) =~= Seq::empty());
        push_field(&mut fs, "isLocked", Value::Boolean(self.is_locked));
        push_field(&mut fs, "showAbout", Value::Boolean(self.show_about));
        push_field(&mut fs, "showCerts", Value::Boolean(self.show_certs));
        push_field(&mut fs, "showDonation", Value::Boolean(self.show_donation));
        push_field(&mut fs, "showHeatMap", Value::Boolean(self.show_heat_map));
        push_field(&mut fs, "showLocation", Value::Boolean(self.show_location));
        push_field(&mut fs, "showName", Value::Boolean(self.show_name));
        push_field(&mut fs, "showPoints", Value::Boolean(self.show_points));
        push_field(&mut fs, "showPortfolio", Value::Boolean(self.show_portfolio));
        push_field(&mut fs, "showTimeLine", Value::Boolean(self.show_time_line));
        Value::Document(Record { fields: fs })
    }
}

impl ToValue for ExamResults {
    open spec fn encodes(&self, v: Value) -> bool {
        v matches Value::Document(d) && {
            let p = field_pairs(d.fields@);
            &&& p.len() == 6
            &&& p[0] == ("examTimeInSeconds"@, Value::Int64(self.exam_time_in_seconds as i64))
            &&& p[1] == ("numberOfCorrectAnswers"@, Value::Int64(self.number_of_correct_answers as i64))
            &&& p[2] == ("numberOfQuestionsInExam"@, Value::Int64(self.number_of_questions_in_exam as i64))
            &&& p[3] == ("passed"@, Value::Boolean(self.passed))
            &&& p[4] == ("passingPercent"@, Value::Double(self.passing_percent))
            &&& p[5] == ("percentCorrect"@, Value::Double(self.percent_correct))
        }
    }

    fn into_value(self) -> (r: Value) {
        let mut fs: Vec<Field> = Vec::new();
        assert(field_pairs(fs@) =~= Seq::empty());
        push_field(&mut fs, "examTimeInSeconds", Value::Int64(self.exam_time_in_seconds as i64));
        push_field(&mut fs, "numberOfCorrectAnswers", Value::Int64(self.number_of_correct_answers as i64));
        push_field(&mut fs, "numberOfQuestionsInExam", Value::Int64(self.number_of_questions_in_exam as i64));
        push_field(&mut fs, "passed", Value::Boolean(self.passed));
        push_field(&mut fs, "passingPercent", Value::Double(self.passing_percent));
        push_field(&mut fs, "percentCorrect", Value::Double(self.percent_correct));
        Value::Document(Record { fields: fs })
    }
}

impl ToValue for CompletedExam {
    open spec fn encodes(&self, v: Value) -> bool {
        v matches Value::Document(d) && {
            let p = field_pairs(d.fields@);
            &&& p.len() == 4
            &&& p[0] == ("challengeType"@, Value::Int64(self.challenge_type as i64))
            &&& p[1] == ("completedDate"@, Value::Int64(self.completed_date as i64))
            &&& p[2].0 == "examResults"@
            &&& self.exam_results.encodes(p[2].1)
            &&& p[3] == ("id"@, Value::Text(self.id))
        }
    }

    fn into_value(self) -> (r: Value) {
        let mut fs: Vec<Field> = Vec::new();
        assert(field_pairs(fs@) =~= Seq::empty());
        push_field(&mut fs, "challengeType", Value::Int64(self.challenge_type as i64));
        push_field(&mut fs, "completedDate", self.completed_date.into_value());
        push_field(&mut fs, "examResults", self.exam_results.into_value());
        push_field(&mut fs, "id", Value::Text(self.id));
        Value::Document(Record { fields: fs })
    }
}

impl ToValue for String {
    open spec fn encodes(&self, v: Value) -> bool {
        v == Value::Text(*self)
    }

    fn into_value(self) -> (r: Value) {
        Value::Text(self)
    }
}

impl ToValue for u32 {
    open spec fn encodes(&self, v: Value) -> bool {
        v == Value::Int64(*self as i64)
    }

    fn into_value(self) -> (r: Value) {
        Value::Int64(self as i64)
    }
}

pub open spec fn nullable_datetime_value(o: NOption<DateTime>) -> Option<Value> {
    match o {
        NOption::Present(d) => Some(Value::DateTime(d)),
        NOption::Null => Some(Value::Null),
        NOption::Undefined => None,
    }
}

fn datetime_value_of(o: NOption<DateTime>) -> (r: Option<Value>)
    ensures
        r == nullable_datetime_value(o),
{
    match o {
        NOption::Present(d) => Some(Value::DateTime(d)),
        NOption::Null => Some(Value::Null),
        NOption::Undefined => None,
    }
}

/// The text fields of a user, in stored order.
pub open spec fn user_text_pairs(u: User) -> Seq<(Seq<char>, Value)> {
    seq![
        ("email"@, Value::Text(u.email)),
        ("username"@, Value::Text(u.username)),
        ("unsubscribeId"@, Value::Text(u.unsubscribe_id)),
        ("name"@, Value::Text(u.name)),
        ("about"@, Value::Text(u.about)),
        ("location"@, Value::Text(u.location)),
        ("picture"@, Value::Text(u.picture)),
        ("theme"@, Value::Text(u.theme)),
        ("githubProfile"@, Value::Text(u.github_profile)),
        ("linkedin"@, Value::Text(u.linkedin)),
        ("twitter"@, Value::Text(u.twitter)),
        ("website"@, Value::Text(u.website)),
        ("usernameDisplay"@, Value::Text(u.username_display)),
    ]
}

fn push_user_text_pairs(fs: &mut Vec<Field>, u: &User)
    ensures
        field_pairs(final(fs)@) == field_pairs(old(fs)@) + user_text_pairs(*u),
{
    let ghost start = field_pairs(fs@);
    push_field(fs, "email", Value::Text(u.email.clone()));
    push_field(fs, "username", Value::Text(u.username.clone()));
    push_field(fs, "unsubscribeId", Value::Text(u.unsubscribe_id.clone()));
    push_field(fs, "name", Value::Text(u.name.clone()));
    push_field(fs, "about", Value::Text(u.about.clone()));
    push_field(fs, "location", Value::Text(u.location.clone()));
    push_field(fs, "picture", Value::Text(u.picture.clone()));
    push_field(fs, "theme", Value::Text(u.theme.clone()));
    push_field(fs, "githubProfile", Value::Text(u.github_profile.clone()));
    push_field(fs, "linkedin", Value::Text(u.linkedin.clone()));
    push_field(fs, "twitter", Value::Text(u.twitter.clone()));
    push_field(fs, "website", Value::Text(u.website.clone()));
    push_field(fs, "usernameDisplay", Value::Text(u.username_display.clone()));
    assert(field_pairs(fs@) =~= start + user_text_pairs(*u));
}

/// The first flags of a user, in stored order.
pub open spec fn user_flag_pairs(u: User) -> Seq<(Seq<char>, Value)> {
    seq![
        ("acceptedPrivacyTerms"@, Value::Boolean(u.accepted_privacy_terms)),
        ("emailVerified"@, Value::Boolean(u.email_verified)),
        ("isBanned"@, Value::Boolean(u.is_banned)),
        ("isCheater"@, Value::Boolean(u.is_cheater)),
        ("isDonating"@, Value::Boolean(u.is_donating)),
        ("sendQuincyEmail"@, Value::Boolean(u.send_quincy_email)),
        ("keyboardShortcuts"@, Value::Boolean(u.keyboard_shortcuts)),
        ("is2018DataVisCert"@, Value::Boolean(u.is_2018_data_vis_cert)),
        ("is2018FullStackCert"@, Value::Boolean(u.is_2018_full_stack_cert)),
        ("isApisMicroservicesCert"@, Value::Boolean(u.is_apis_microservices_cert)),
        ("isBackEndCert"@, Value::Boolean(u.is_back_end_cert)),
        ("isClassroomAccount"@, Value::Boolean(u.is_classroom_account)),
        ("isCollegeAlgebraPyCertV8"@, Value::Boolean(u.is_college_algebra_py_cert_v8)),
        ("isDataAnalysisPyCertV7"@, Value::Boolean(u.is_data_analysis_py_cert_v7)),
        ("isDataVisCert"@, Value::Boolean(u.is_data_vis_cert)),
    ]
}

fn push_user_flag_pairs(fs: &mut Vec<Field>, u: &User)
    ensures
        field_pairs(final(fs)@) == field_pairs(old(fs)@) + user_flag_pairs(*u),
{
    let ghost start = field_pairs(fs@);
    push_field(fs, "acceptedPrivacyTerms", Value::Boolean(u.accepted_privacy_terms));
    push_field(fs, "emailVerified", Value::Boolean(u.email_verified));
    push_field(fs, "isBanned", Value::Boolean(u.is_banned));
    push_field(fs, "isCheater", Value::Boolean(u.is_cheater));
    push_field(fs, "isDonating", Value::Boolean(u.is_donating));
    push_field(fs, "sendQuincyEmail", Value::Boolean(u.send_quincy_email));
    push_field(fs, "keyboardShortcuts", Value::Boolean(u.keyboard_shortcuts));
    push_field(fs, "is2018DataVisCert", Value::Boolean(u.is_2018_data_vis_cert));
    push_field(fs, "is2018FullStackCert", Value::Boolean(u.is_2018_full_stack_cert));
    push_field(fs, "isApisMicroservicesCert", Value::Boolean(u.is_apis_microservices_cert));
    push_field(fs, "isBackEndCert", Value::Boolean(u.is_back_end_cert));
    push_field(fs, "isClassroomAccount", Value::Boolean(u.is_classroom_account));
    push_field(fs, "isCollegeAlgebraPyCertV8", Value::Boolean(u.is_college_algebra_py_cert_v8));
    push_field(fs, "isDataAnalysisPyCertV7", Value::Boolean(u.is_data_analysis_py_cert_v7));
    push_field(fs, "isDataVisCert", Value::Boolean(u.is_data_vis_cert));
    assert(field_pairs(fs@) =~= start + user_flag_pairs(*u));
}

/// The remaining flags of a user, in stored order.
pub open spec fn user_more_flag_pairs(u: User) -> Seq<(Seq<char>, Value)> {
    seq![
        ("isFoundationalCSharpCertV8"@, Value::Boolean(u.is_foundational_c_sharp_cert_v8)),
        ("isFrontEndCert"@, Value::Boolean(u.is_front_end_cert)),
        ("isFrontEndLibsCert"@, Value::Boolean(u.is_front_end_libs_cert)),
        ("isFullStackCert"@, Value::Boolean(u.is_full_stack_cert)),
        ("isHonest"@, Value::Boolean(u.is_honest)),
        ("isInfosecCertV7"@, Value::Boolean(u.is_infosec_cert_v7)),
        ("isInfosecQaCert"@, Value::Boolean(u.is_infosec_qa_cert)),
        ("isJsAlgoDataStructCert"@, Value::Boolean(u.is_js_algo_data_struct_cert)),
        ("isJsAlgoDataStructCertV8"@, Value::Boolean(u.is_js_algo_data_struct_cert_v8)),
        ("isMachineLearningPyCertV7"@, Value::Boolean(u.is_machine_learning_py_cert_v7)),
        ("isQaCertV7"@, Value::Boolean(u.is_qa_cert_v7)),
        ("isRelationalDatabaseCertV8"@, Value::Boolean(u.is_relational_database_cert_v8)),
        ("isRespWebDesignCert"@, Value::Boolean(u.is_resp_web_design_cert)),
        ("isSciCompPyCertV7"@, Value::Boolean(u.is_sci_comp_py_cert_v7)),
        ("needsModeration"@, Value::Boolean(u.needs_moderation)),
    ]
}

fn push_user_more_flag_pairs(fs: &mut Vec<Field>, u: &User)
    ensures
        field_pairs(final(fs)@) == field_pairs(old(fs)@) + user_more_flag_pairs(*u),
{
    let ghost start = field_pairs(fs@);
    push_field(fs, "isFoundationalCSharpCertV8", Value::Boolean(u.is_foundational_c_sharp_cert_v8));
    push_field(fs, "isFrontEndCert", Value::Boolean(u.is_front_end_cert));
    push_field(fs, "isFrontEndLibsCert", Value::Boolean(u.is_front_end_libs_cert));
    push_field(fs, "isFullStackCert", Value::Boolean(u.is_full_stack_cert));
    push_field(fs, "isHonest", Value::Boolean(u.is_honest));
    push_field(fs, "isInfosecCertV7", Value::Boolean(u.is_infosec_cert_v7));
    push_field(fs, "isInfosecQaCert", Value::Boolean(u.is_infosec_qa_cert));
    push_field(fs, "isJsAlgoDataStructCert", Value::Boolean(u.is_js_algo_data_struct_cert));
    push_field(fs, "isJsAlgoDataStructCertV8", Value::Boolean(u.is_js_algo_data_struct_cert_v8));
    push_field(fs, "isMachineLearningPyCertV7", Value::Boolean(u.is_machine_learning_py_cert_v7));
    push_field(fs, "isQaCertV7", Value::Boolean(u.is_qa_cert_v7));
    push_field(fs, "isRelationalDatabaseCertV8", Value::Boolean(u.is_relational_database_cert_v8));
    push_field(fs, "isRespWebDesignCert", Value::Boolean(u.is_resp_web_design_cert));
    push_field(fs, "isSciCompPyCertV7", Value::Boolean(u.is_sci_comp_py_cert_v7));
    push_field(fs, "needsModeration", Value::Boolean(u.needs_moderation));
    assert(field_pairs(fs@) =~= start + user_more_flag_pairs(*u));
}

/// The fields of a user that are always stored as one plain value each, in
/// stored order.
pub open spec fn user_plain_pairs(u: User) -> Seq<(Seq<char>, Value)> {
    seq![("_id"@, Value::ObjectId(u.id))] + user_text_pairs(u) + user_flag_pairs(u)
        + user_more_flag_pairs(u)
}

/// The optional fields of a user, in stored order.
pub open spec fn user_optionals(u: User) -> Seq<(Seq<char>, Option<Value>)> {
    seq![
        ("currentChallengeId"@, nullable_text_value(u.current_challenge_id)),
        ("externalId"@, nullable_text_value(u.external_id)),
        ("newEmail"@, nullable_text_value(u.new_email)),
        ("emailAuthLinkTTL"@, nullable_datetime_value(u.email_auth_link_ttl)),
        ("emailVerifyTTL"@, nullable_datetime_value(u.email_verify_ttl)),
    ]
}

/// `r` is the stored form of `u`: every field under its stored name, in a
/// fixed order, and the nullable ones last, omitted when never set.
pub open spec fn user_encodes(u: User, r: Record) -> bool {
    let p = field_pairs(r.fields@);
    &&& p.len() >= 55
    &&& p.take(44) == user_plain_pairs(u)
    &&& p[44].0 == "completedChallenges"@
    &&& encodes_array(p[44].1, u.completed_challenges@)
    &&& p[45].0 == "completedExams"@
    &&& encodes_array(p[45].1, u.completed_exams@)
    &&& p[46].0 == "partiallyCompletedChallenges"@
    &&& encodes_array(p[46].1, u.partially_completed_challenges@)
    &&& p[47].0 == "savedChallenges"@
    &&& encodes_array(p[47].1, u.saved_challenges@)
    &&& p[48].0 == "portfolio"@
    &&& encodes_array(p[48].1, u.portfolio@)
    &&& p[49].0 == "progressTimestamps"@
    &&& encodes_array(p[49].1, u.progress_timestamps@)
    &&& p[50].0 == "donationEmails"@
    &&& encodes_array(p[50].1, u.donation_emails@)
    &&& p[51].0 == "yearsTopContributor"@
    &&& encodes_array(p[51].1, u.years_top_contributor@)
    &&& p[52].0 == "profileUI"@
    &&& u.profile_ui.encodes(p[52].1)
    &&& p[53] == ("rand"@, Value::Double(u.rand))
    &&& p[54] == ("lastUpdatedAtInMS"@, Value::Int64(u.last_updated_at_in_ms as i64))
    &&& p.skip(55) == present_entries(user_optionals(u))
}

impl User {
    /// The stored form of the normalized user.
    pub fn into_record(self) -> (r: Record)
        ensures
            user_encodes(self, r),
    {
        let ghost me = self;
        let mut fs: Vec<Field> = Vec::new();
        assert(field_pairs(fs@) =~= Seq::empty());
        push_field(&mut fs, "_id", Value::ObjectId(self.id));
        push_user_text_pairs(&mut fs, &self);
        push_user_flag_pairs(&mut fs, &self);
        push_user_more_flag_pairs(&mut fs, &self);
        let ghost plain = field_pairs(fs@);
        assert(plain =~= user_plain_pairs(me));
        assert(plain.len() == 44);
        let a = Value::Array(encode_all(self.completed_challenges));
        push_field(&mut fs, "completedChallenges", a);
        let a = Value::Array(encode_all(self.completed_exams));
        push_field(&mut fs, "completedExams", a);
        let a = Value::Array(encode_all(self.partially_completed_challenges));
        push_field(&mut fs, "partiallyCompletedChallenges", a);
        let a = Value::Array(encode_all(self.saved_challenges));
        push_field(&mut fs, "savedChallenges", a);
        let a = Value::Array(encode_all(self.portfolio));
        push_field(&mut fs, "portfolio", a);
        let a = Value::Array(encode_all(self.progress_timestamps));
        push_field(&mut fs, "progressTimestamps", a);
        let a = Value::Array(encode_all(self.donation_emails));
        push_field(&mut fs, "donationEmails", a);
        let a = Value::Array(encode_all(self.years_top_contributor));
        push_field(&mut fs, "yearsTopContributor", a);
        push_field(&mut fs, "profileUI", self.profile_ui.into_value());
        push_field(&mut fs, "rand", Value::Double(self.rand));
        push_field(&mut fs, "lastUpdatedAtInMS", self.last_updated_at_in_ms.into_value());
        let ghost head = fs@;
        assert(field_pairs(head).len() == 55);
        assert(head.len() == 55);
        assert(field_pairs(head).take(44) =~= plain);
        let ghost want = user_optionals(me);
        let mut tail: Vec<Field> = Vec::new();
        assert(field_pairs(tail@) =~= present_entries(want.take(0)));
        push_optional(&mut tail, "currentChallengeId", text_value_of(self.current_challenge_id), Ghost(want.take(0)));
        assert(want.take(0).push(want[0]) =~= want.take(1));
        push_optional(&mut tail, "externalId", text_value_of(self.external_id), Ghost(want.take(1)));
        assert(want.take(1).push(want[1]) =~= want.take(2));
        push_optional(&mut tail, "newEmail", text_value_of(self.new_email), Ghost(want.take(2)));
        assert(want.take(2).push(want[2]) =~= want.take(3));
        push_optional(&mut tail, "emailAuthLinkTTL", datetime_value_of(self.email_auth_link_ttl), Ghost(want.take(3)));
        assert(want.take(3).push(want[3]) =~= want.take(4));
        push_optional(&mut tail, "emailVerifyTTL", datetime_value_of(self.email_verify_ttl), Ghost(want.take(4)));
        assert(want.take(4).push(want[4]) =~= want.take(5));
        assert(want.take(5) =~= want);
        let ghost t = tail@;
        fs.append(&mut tail);
        assert(fs@ =~= head + t);
        assert(field_pairs(fs@).skip(55) =~= field_pairs(t));
        assert(field_pairs(fs@).take(44) =~= field_pairs(head).take(44));
        assert forall|i: int| 44 <= i < 55 implies #[trigger] field_pairs(fs@)[i] == field_pairs(
            head,
        )[i] by {}
        Record { fields: fs }
    }
}

/// A nullable field read back from its stored form is what was stored: a
/// field never set is omitted and reads as never set, never as null.
pub proof fn lemma_nullable_round_trip(text: NOption<String>, flag: NOption<bool>)
    ensures
        nullable_text(nullable_text_value(text)) == text,
        nullable_flag(nullable_flag_value(flag)) == flag,
        text is Undefined <==> nullable_text_value(text) is None,
        flag is Undefined <==> nullable_flag_value(flag) is None,
{
}

} // verus!

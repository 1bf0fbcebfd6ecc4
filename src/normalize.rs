use vstd::prelude::*;
use vstd::string::*;

use crate::coerce::{
    double_or_zero, double_or_zero_of, nullable_datetime, nullable_datetime_of,
    coerces_all, collect_array, FromValue, flag_or, flag_or_of, nullable_text, nullable_text_of,
    text_or_empty, text_or_empty_of,
};
use crate::document::{ObjectId, Record, Value};
use crate::record::{
    CompletedChallenge, CompletedExam, PartiallyCompletedChallenge, Portfolio, ProfileUI, SavedChallenge, User,
};

verus! {

/// Why a legacy record could not be normalized.
#[derive(Debug)]
pub enum NormalizeError {
    /// A field holds a type that the schema cannot take; `cause` names it.
    UnrecoverableShape { id: ObjectId, cause: String },
    /// The record has no ObjectId identity; it is kept whole.
    AmbiguousIdentity { doc: Record },
    /// The contact address is absent, null or empty; the record is kept whole.
    MissingRequiredField { doc: Record },
}

/// The contact address, when it is a non-empty string.
pub open spec fn email_of(doc: Record) -> Option<String> {
    match doc.get_spec("email"@) {
        Some(Value::Text(s)) => if s@.len() > 0 {
            Some(s)
        } else {
            None
        },
        _ => None,
    }
}

/// An array field that is absent or null holds nothing; one of another type
/// is malformed (`None`).
pub open spec fn array_field(o: Option<Value>) -> Option<Seq<Value>> {
    match o {
        None => Some(Seq::empty()),
        Some(Value::Null) => Some(Seq::empty()),
        Some(Value::Array(items)) => Some(items@),
        _ => None,
    }
}

/// The display settings: absent or null gives the default, a sub-document
/// overrides the default flag by flag.
pub open spec fn profile_ui_of(o: Option<Value>) -> Option<ProfileUI> {
    match o {
        None => Some(ProfileUI::default_spec()),
        Some(Value::Null) => Some(ProfileUI::default_spec()),
        Some(Value::Document(d)) => {
            let f = |k: Seq<char>, dflt: bool| flag_or(d.get_spec(k), dflt);
            if {
                &&& f("isLocked"@, true) is Some
                &&& f("showAbout"@, false) is Some
                &&& f("showCerts"@, false) is Some
                &&& f("showDonation"@, false) is Some
                &&& f("showHeatMap"@, false) is Some
                &&& f("showLocation"@, false) is Some
                &&& f("showName"@, false) is Some
                &&& f("showPoints"@, false) is Some
                &&& f("showPortfolio"@, false) is Some
                &&& f("showTimeLine"@, false) is Some
            } {
                Some(
                    ProfileUI {
                        is_locked: f("isLocked"@, true)->0,
                        show_about: f("showAbout"@, false)->0,
                        show_certs: f("showCerts"@, false)->0,
                        show_donation: f("showDonation"@, false)->0,
                        show_heat_map: f("showHeatMap"@, false)->0,
                        show_location: f("showLocation"@, false)->0,
                        show_name: f("showName"@, false)->0,
                        show_points: f("showPoints"@, false)->0,
                        show_portfolio: f("showPortfolio"@, false)->0,
                        show_time_line: f("showTimeLine"@, false)->0,
                    },
                )
            } else {
                None
            }
        },
        _ => None,
    }
}

pub open spec fn is_text_key(k: Seq<char>) -> bool {
    ||| k == "username"@
    ||| k == "unsubscribeId"@
    ||| k == "name"@
    ||| k == "about"@
    ||| k == "location"@
    ||| k == "picture"@
    ||| k == "theme"@
    ||| k == "githubProfile"@
    ||| k == "linkedin"@
    ||| k == "twitter"@
    ||| k == "website"@
    ||| k == "usernameDisplay"@
}

pub open spec fn is_flag_key(k: Seq<char>) -> bool {
    ||| k == "acceptedPrivacyTerms"@
    ||| k == "emailVerified"@
    ||| k == "isBanned"@
    ||| k == "isCheater"@
    ||| k == "isDonating"@
    ||| k == "sendQuincyEmail"@
    ||| k == "keyboardShortcuts"@
    ||| k == "is2018DataVisCert"@
    ||| k == "is2018FullStackCert"@
    ||| k == "isApisMicroservicesCert"@
    ||| k == "isBackEndCert"@
    ||| k == "isClassroomAccount"@
    ||| k == "isCollegeAlgebraPyCertV8"@
    ||| k == "isDataAnalysisPyCertV7"@
    ||| k == "isDataVisCert"@
    ||| k == "isFoundationalCSharpCertV8"@
    ||| k == "isFrontEndCert"@
    ||| k == "isFrontEndLibsCert"@
    ||| k == "isFullStackCert"@
    ||| k == "isHonest"@
    ||| k == "isInfosecCertV7"@
    ||| k == "isInfosecQaCert"@
    ||| k == "isJsAlgoDataStructCert"@
    ||| k == "isJsAlgoDataStructCertV8"@
    ||| k == "isMachineLearningPyCertV7"@
    ||| k == "isQaCertV7"@
    ||| k == "isRelationalDatabaseCertV8"@
    ||| k == "isRespWebDesignCert"@
    ||| k == "isSciCompPyCertV7"@
    ||| k == "needsModeration"@
}

pub open spec fn is_array_key(k: Seq<char>) -> bool {
    ||| k == "completedChallenges"@
    ||| k == "completedExams"@
    ||| k == "partiallyCompletedChallenges"@
    ||| k == "savedChallenges"@
    ||| k == "portfolio"@
    ||| k == "progressTimestamps"@
    ||| k == "donationEmails"@
    ||| k == "yearsTopContributor"@
}

/// The field `k` of `doc` holds a type that the schema cannot take.
pub open spec fn malformed_field(doc: Record, k: Seq<char>) -> bool {
    ||| is_text_key(k) && text_or_empty(doc.get_spec(k)) is None
    ||| is_flag_key(k) && flag_or(doc.get_spec(k), false) is None
    ||| is_array_key(k) && array_field(doc.get_spec(k)) is None
    ||| k == "profileUI"@ && profile_ui_of(doc.get_spec(k)) is None
    ||| k == "rand"@ && double_or_zero(doc.get_spec(k)) is None
}

/// Every field of `doc` that the schema reads holds a type it can take.
pub open spec fn well_shaped(doc: Record) -> bool {
    &&& text_or_empty(doc.get_spec("username"@)) is Some
    &&& text_or_empty(doc.get_spec("unsubscribeId"@)) is Some
    &&& text_or_empty(doc.get_spec("name"@)) is Some
    &&& text_or_empty(doc.get_spec("about"@)) is Some
    &&& text_or_empty(doc.get_spec("location"@)) is Some
    &&& text_or_empty(doc.get_spec("picture"@)) is Some
    &&& text_or_empty(doc.get_spec("theme"@)) is Some
    &&& flag_or(doc.get_spec("acceptedPrivacyTerms"@), false) is Some
    &&& flag_or(doc.get_spec("emailVerified"@), false) is Some
    &&& flag_or(doc.get_spec("isBanned"@), false) is Some
    &&& flag_or(doc.get_spec("isCheater"@), false) is Some
    &&& flag_or(doc.get_spec("isDonating"@), false) is Some
    &&& flag_or(doc.get_spec("sendQuincyEmail"@), false) is Some
    &&& flag_or(doc.get_spec("keyboardShortcuts"@), false) is Some
    &&& array_field(doc.get_spec("completedChallenges"@)) is Some
    &&& array_field(doc.get_spec("completedExams"@)) is Some
    &&& array_field(doc.get_spec("partiallyCompletedChallenges"@)) is Some
    &&& array_field(doc.get_spec("savedChallenges"@)) is Some
    &&& array_field(doc.get_spec("portfolio"@)) is Some
    &&& array_field(doc.get_spec("progressTimestamps"@)) is Some
    &&& profile_ui_of(doc.get_spec("profileUI"@)) is Some
    &&& text_or_empty(doc.get_spec("githubProfile"@)) is Some
    &&& text_or_empty(doc.get_spec("linkedin"@)) is Some
    &&& text_or_empty(doc.get_spec("twitter"@)) is Some
    &&& text_or_empty(doc.get_spec("website"@)) is Some
    &&& text_or_empty(doc.get_spec("usernameDisplay"@)) is Some
    &&& flag_or(doc.get_spec("is2018DataVisCert"@), false) is Some
    &&& flag_or(doc.get_spec("is2018FullStackCert"@), false) is Some
    &&& flag_or(doc.get_spec("isApisMicroservicesCert"@), false) is Some
    &&& flag_or(doc.get_spec("isBackEndCert"@), false) is Some
    &&& flag_or(doc.get_spec("isClassroomAccount"@), false) is Some
    &&& flag_or(doc.get_spec("isCollegeAlgebraPyCertV8"@), false) is Some
    &&& flag_or(doc.get_spec("isDataAnalysisPyCertV7"@), false) is Some
    &&& flag_or(doc.get_spec("isDataVisCert"@), false) is Some
    &&& flag_or(doc.get_spec("isFoundationalCSharpCertV8"@), false) is Some
    &&& flag_or(doc.get_spec("isFrontEndCert"@), false) is Some
    &&& flag_or(doc.get_spec("isFrontEndLibsCert"@), false) is Some
    &&& flag_or(doc.get_spec("isFullStackCert"@), false) is Some
    &&& flag_or(doc.get_spec("isHonest"@), false) is Some
    &&& flag_or(doc.get_spec("isInfosecCertV7"@), false) is Some
    &&& flag_or(doc.get_spec("isInfosecQaCert"@), false) is Some
    &&& flag_or(doc.get_spec("isJsAlgoDataStructCert"@), false) is Some
    &&& flag_or(doc.get_spec("isJsAlgoDataStructCertV8"@), false) is Some
    &&& flag_or(doc.get_spec("isMachineLearningPyCertV7"@), false) is Some
    &&& flag_or(doc.get_spec("isQaCertV7"@), false) is Some
    &&& flag_or(doc.get_spec("isRelationalDatabaseCertV8"@), false) is Some
    &&& flag_or(doc.get_spec("isRespWebDesignCert"@), false) is Some
    &&& flag_or(doc.get_spec("isSciCompPyCertV7"@), false) is Some
    &&& flag_or(doc.get_spec("needsModeration"@), false) is Some
    &&& array_field(doc.get_spec("donationEmails"@)) is Some
    &&& array_field(doc.get_spec("yearsTopContributor"@)) is Some
    &&& double_or_zero(doc.get_spec("rand"@)) is Some
}

proof fn lemma_malformed_not_well_shaped(doc: Record, k: Seq<char>)
    requires
        malformed_field(doc, k),
    ensures
        !well_shaped(doc),
{
}

/// `u` is the normalized form of `doc`, stamped at `now`.
pub open spec fn normalizes_to(doc: Record, now: u64, u: User) -> bool {
    &&& doc.identity_spec() == Some(u.id)
    &&& email_of(doc) == Some(u.email)
    &&& text_or_empty(doc.get_spec("username"@)) == Some(u.username@)
    &&& text_or_empty(doc.get_spec("unsubscribeId"@)) == Some(u.unsubscribe_id@)
    &&& text_or_empty(doc.get_spec("name"@)) == Some(u.name@)
    &&& text_or_empty(doc.get_spec("about"@)) == Some(u.about@)
    &&& text_or_empty(doc.get_spec("location"@)) == Some(u.location@)
    &&& text_or_empty(doc.get_spec("picture"@)) == Some(u.picture@)
    &&& text_or_empty(doc.get_spec("theme"@)) == Some(u.theme@)
    &&& u.current_challenge_id == nullable_text(doc.get_spec("currentChallengeId"@))
    &&& u.external_id == nullable_text(doc.get_spec("externalId"@))
    &&& u.new_email == nullable_text(doc.get_spec("newEmail"@))
    &&& flag_or(doc.get_spec("acceptedPrivacyTerms"@), false) == Some(u.accepted_privacy_terms)
    &&& flag_or(doc.get_spec("emailVerified"@), false) == Some(u.email_verified)
    &&& flag_or(doc.get_spec("isBanned"@), false) == Some(u.is_banned)
    &&& flag_or(doc.get_spec("isCheater"@), false) == Some(u.is_cheater)
    &&& flag_or(doc.get_spec("isDonating"@), false) == Some(u.is_donating)
    &&& flag_or(doc.get_spec("sendQuincyEmail"@), false) == Some(u.send_quincy_email)
    &&& flag_or(doc.get_spec("keyboardShortcuts"@), false) == Some(u.keyboard_shortcuts)
    &&& coerces_all(array_field(doc.get_spec("completedChallenges"@))->0, now, u.completed_challenges@)
    &&& coerces_all(array_field(doc.get_spec("completedExams"@))->0, now, u.completed_exams@)
    &&& coerces_all(array_field(doc.get_spec("partiallyCompletedChallenges"@))->0, now, u.partially_completed_challenges@)
    &&& coerces_all(array_field(doc.get_spec("savedChallenges"@))->0, now, u.saved_challenges@)
    &&& coerces_all(array_field(doc.get_spec("portfolio"@))->0, now, u.portfolio@)
    &&& coerces_all(array_field(doc.get_spec("progressTimestamps"@))->0, now, u.progress_timestamps@)
    &&& profile_ui_of(doc.get_spec("profileUI"@)) == Some(u.profile_ui)
    &&& text_or_empty(doc.get_spec("githubProfile"@)) == Some(u.github_profile@)
    &&& text_or_empty(doc.get_spec("linkedin"@)) == Some(u.linkedin@)
    &&& text_or_empty(doc.get_spec("twitter"@)) == Some(u.twitter@)
    &&& text_or_empty(doc.get_spec("website"@)) == Some(u.website@)
    &&& text_or_empty(doc.get_spec("usernameDisplay"@)) == Some(u.username_display@)
    &&& flag_or(doc.get_spec("is2018DataVisCert"@), false) == Some(u.is_2018_data_vis_cert)
    &&& flag_or(doc.get_spec("is2018FullStackCert"@), false) == Some(u.is_2018_full_stack_cert)
    &&& flag_or(doc.get_spec("isApisMicroservicesCert"@), false) == Some(u.is_apis_microservices_cert)
    &&& flag_or(doc.get_spec("isBackEndCert"@), false) == Some(u.is_back_end_cert)
    &&& flag_or(doc.get_spec("isClassroomAccount"@), false) == Some(u.is_classroom_account)
    &&& flag_or(doc.get_spec("isCollegeAlgebraPyCertV8"@), false) == Some(u.is_college_algebra_py_cert_v8)
    &&& flag_or(doc.get_spec("isDataAnalysisPyCertV7"@), false) == Some(u.is_data_analysis_py_cert_v7)
    &&& flag_or(doc.get_spec("isDataVisCert"@), false) == Some(u.is_data_vis_cert)
    &&& flag_or(doc.get_spec("isFoundationalCSharpCertV8"@), false) == Some(u.is_foundational_c_sharp_cert_v8)
    &&& flag_or(doc.get_spec("isFrontEndCert"@), false) == Some(u.is_front_end_cert)
    &&& flag_or(doc.get_spec("isFrontEndLibsCert"@), false) == Some(u.is_front_end_libs_cert)
    &&& flag_or(doc.get_spec("isFullStackCert"@), false) == Some(u.is_full_stack_cert)
    &&& flag_or(doc.get_spec("isHonest"@), false) == Some(u.is_honest)
    &&& flag_or(doc.get_spec("isInfosecCertV7"@), false) == Some(u.is_infosec_cert_v7)
    &&& flag_or(doc.get_spec("isInfosecQaCert"@), false) == Some(u.is_infosec_qa_cert)
    &&& flag_or(doc.get_spec("isJsAlgoDataStructCert"@), false) == Some(u.is_js_algo_data_struct_cert)
    &&& flag_or(doc.get_spec("isJsAlgoDataStructCertV8"@), false) == Some(u.is_js_algo_data_struct_cert_v8)
    &&& flag_or(doc.get_spec("isMachineLearningPyCertV7"@), false) == Some(u.is_machine_learning_py_cert_v7)
    &&& flag_or(doc.get_spec("isQaCertV7"@), false) == Some(u.is_qa_cert_v7)
    &&& flag_or(doc.get_spec("isRelationalDatabaseCertV8"@), false) == Some(u.is_relational_database_cert_v8)
    &&& flag_or(doc.get_spec("isRespWebDesignCert"@), false) == Some(u.is_resp_web_design_cert)
    &&& flag_or(doc.get_spec("isSciCompPyCertV7"@), false) == Some(u.is_sci_comp_py_cert_v7)
    &&& flag_or(doc.get_spec("needsModeration"@), false) == Some(u.needs_moderation)
    &&& coerces_all(array_field(doc.get_spec("donationEmails"@))->0, now, u.donation_emails@)
    &&& coerces_all(array_field(doc.get_spec("yearsTopContributor"@))->0, now, u.years_top_contributor@)
    &&& u.email_auth_link_ttl == nullable_datetime(doc.get_spec("emailAuthLinkTTL"@))
    &&& u.email_verify_ttl == nullable_datetime(doc.get_spec("emailVerifyTTL"@))
    &&& double_or_zero(doc.get_spec("rand"@)) == Some(u.rand.text@)
    &&& u.last_updated_at_in_ms == now
}

fn malformed(key: &str) -> (r: String)
    ensures
        r@ == key@,
{
    String::from_str(key)
}

fn text_field(doc: &Record, key: &str) -> (r: Result<String, String>)
    requires
        is_text_key(key@),
    ensures
        match r {
            Ok(s) => text_or_empty(doc.get_spec(key@)) == Some(s@),
            Err(c) => c@ == key@ && malformed_field(*doc, key@),
        },
{
    match text_or_empty_of(doc, key) {
        Some(s) => Ok(s),
        None => Err(malformed(key)),
    }
}

fn flag_field(doc: &Record, key: &str) -> (r: Result<bool, String>)
    requires
        is_flag_key(key@),
    ensures
        match r {
            Ok(b) => flag_or(doc.get_spec(key@), false) == Some(b),
            Err(c) => c@ == key@ && malformed_field(*doc, key@),
        },
{
    match flag_or_of(doc, key, false) {
        Some(b) => Ok(b),
        None => Err(malformed(key)),
    }
}

fn array_field_of<T: FromValue>(doc: &Record, key: &str, now: u64) -> (r: Result<
    Vec<T>,
    String,
>)
    requires
        is_array_key(key@),
    ensures
        match r {
            Ok(v) => array_field(doc.get_spec(key@)) is Some && coerces_all(
                array_field(doc.get_spec(key@))->0,
                now,
                v@,
            ),
            Err(c) => c@ == key@ && malformed_field(*doc, key@),
        },
{
    match doc.get(key) {
        None => Ok(Vec::new()),
        Some(Value::Null) => Ok(Vec::new()),
        Some(Value::Array(items)) => Ok(collect_array(items, now)),
        _ => Err(malformed(key)),
    }
}

fn profile_flag(d: &Record, key: &str, dflt: bool) -> (r: Option<bool>)
    ensures
        r == flag_or(d.get_spec(key@), dflt),
{
    flag_or_of(d, key, dflt)
}

fn profile_ui_field(doc: &Record) -> (r: Result<ProfileUI, String>)
    ensures
        match r {
            Ok(p) => profile_ui_of(doc.get_spec("profileUI"@)) == Some(p),
            Err(c) => c@ == "profileUI"@ && malformed_field(*doc, "profileUI"@),
        },
{
    match doc.get("profileUI") {
        None => Ok(ProfileUI::default()),
        Some(Value::Null) => Ok(ProfileUI::default()),
        Some(Value::Document(d)) => {
            let is_locked = profile_flag(d, "isLocked", true);
            let show_about = profile_flag(d, "showAbout", false);
            let show_certs = profile_flag(d, "showCerts", false);
            let show_donation = profile_flag(d, "showDonation", false);
            let show_heat_map = profile_flag(d, "showHeatMap", false);
            let show_location = profile_flag(d, "showLocation", false);
            let show_name = profile_flag(d, "showName", false);
            let show_points = profile_flag(d, "showPoints", false);
            let show_portfolio = profile_flag(d, "showPortfolio", false);
            let show_time_line = profile_flag(d, "showTimeLine", false);
            match (
                is_locked,
                show_about,
                show_certs,
                show_donation,
                show_heat_map,
                show_location,
                show_name,
                show_points,
                show_portfolio,
                show_time_line,
            ) {
                (
                    Some(is_locked),
                    Some(show_about),
                    Some(show_certs),
                    Some(show_donation),
                    Some(show_heat_map),
                    Some(show_location),
                    Some(show_name),
                    Some(show_points),
                    Some(show_portfolio),
                    Some(show_time_line),
                ) => Ok(
                    ProfileUI {
                        is_locked,
                        show_about,
                        show_certs,
                        show_donation,
                        show_heat_map,
                        show_location,
                        show_name,
                        show_points,
                        show_portfolio,
                        show_time_line,
                    },
                ),
                _ => Err(malformed("profileUI")),
            }
        },
        _ => Err(malformed("profileUI")),
    }
}

/// Builds the normalized user from a record whose identity and contact
/// address are known good; on a malformed field returns its name.
fn build_user(doc: &Record, id: ObjectId, email: String, now: u64) -> (r: Result<User, String>)
    requires
        doc.identity_spec() == Some(id),
        email_of(*doc) == Some(email),
    ensures
        match r {
            Ok(u) => well_shaped(*doc) && normalizes_to(*doc, now, u),
            Err(c) => malformed_field(*doc, c@),
        },
{
    let username = text_field(doc, "username")?;
    let unsubscribe_id = text_field(doc, "unsubscribeId")?;
    let name = text_field(doc, "name")?;
    let about = text_field(doc, "about")?;
    let location = text_field(doc, "location")?;
    let picture = text_field(doc, "picture")?;
    let theme = text_field(doc, "theme")?;
    let accepted_privacy_terms = flag_field(doc, "acceptedPrivacyTerms")?;
    let email_verified = flag_field(doc, "emailVerified")?;
    let is_banned = flag_field(doc, "isBanned")?;
    let is_cheater = flag_field(doc, "isCheater")?;
    let is_donating = flag_field(doc, "isDonating")?;
    let send_quincy_email = flag_field(doc, "sendQuincyEmail")?;
    let keyboard_shortcuts = flag_field(doc, "keyboardShortcuts")?;
    let completed_challenges = array_field_of::<CompletedChallenge>(doc, "completedChallenges", now)?;
    let completed_exams = array_field_of::<CompletedExam>(doc, "completedExams", now)?;
    let partially_completed_challenges = array_field_of::<PartiallyCompletedChallenge>(doc, "partiallyCompletedChallenges", now)?;
    let saved_challenges = array_field_of::<SavedChallenge>(doc, "savedChallenges", now)?;
    let portfolio = array_field_of::<Portfolio>(doc, "portfolio", now)?;
    let progress_timestamps = array_field_of::<u64>(doc, "progressTimestamps", now)?;
    let profile_ui = profile_ui_field(doc)?;
    let github_profile = text_field(doc, "githubProfile")?;
    let linkedin = text_field(doc, "linkedin")?;
    let twitter = text_field(doc, "twitter")?;
    let website = text_field(doc, "website")?;
    let username_display = text_field(doc, "usernameDisplay")?;
    let is_2018_data_vis_cert = flag_field(doc, "is2018DataVisCert")?;
    let is_2018_full_stack_cert = flag_field(doc, "is2018FullStackCert")?;
    let is_apis_microservices_cert = flag_field(doc, "isApisMicroservicesCert")?;
    let is_back_end_cert = flag_field(doc, "isBackEndCert")?;
    let is_classroom_account = flag_field(doc, "isClassroomAccount")?;
    let is_college_algebra_py_cert_v8 = flag_field(doc, "isCollegeAlgebraPyCertV8")?;
    let is_data_analysis_py_cert_v7 = flag_field(doc, "isDataAnalysisPyCertV7")?;
    let is_data_vis_cert = flag_field(doc, "isDataVisCert")?;
    let is_foundational_c_sharp_cert_v8 = flag_field(doc, "isFoundationalCSharpCertV8")?;
    let is_front_end_cert = flag_field(doc, "isFrontEndCert")?;
    let is_front_end_libs_cert = flag_field(doc, "isFrontEndLibsCert")?;
    let is_full_stack_cert = flag_field(doc, "isFullStackCert")?;
    let is_honest = flag_field(doc, "isHonest")?;
    let is_infosec_cert_v7 = flag_field(doc, "isInfosecCertV7")?;
    let is_infosec_qa_cert = flag_field(doc, "isInfosecQaCert")?;
    let is_js_algo_data_struct_cert = flag_field(doc, "isJsAlgoDataStructCert")?;
    let is_js_algo_data_struct_cert_v8 = flag_field(doc, "isJsAlgoDataStructCertV8")?;
    let is_machine_learning_py_cert_v7 = flag_field(doc, "isMachineLearningPyCertV7")?;
    let is_qa_cert_v7 = flag_field(doc, "isQaCertV7")?;
    let is_relational_database_cert_v8 = flag_field(doc, "isRelationalDatabaseCertV8")?;
    let is_resp_web_design_cert = flag_field(doc, "isRespWebDesignCert")?;
    let is_sci_comp_py_cert_v7 = flag_field(doc, "isSciCompPyCertV7")?;
    let needs_moderation = flag_field(doc, "needsModeration")?;
    let donation_emails = array_field_of::<String>(doc, "donationEmails", now)?;
    let years_top_contributor = array_field_of::<u32>(doc, "yearsTopContributor", now)?;
    let rand = match double_or_zero_of(doc, "rand") {
        Some(t) => t,
        None => return Err(malformed("rand")),
    };
    Ok(
        User {
            id,
            email,
            username,
            unsubscribe_id,
            name,
            about,
            location,
            picture,
            theme,
            current_challenge_id: nullable_text_of(doc, "currentChallengeId"),
            external_id: nullable_text_of(doc, "externalId"),
            new_email: nullable_text_of(doc, "newEmail"),
            accepted_privacy_terms,
            email_verified,
            is_banned,
            is_cheater,
            is_donating,
            send_quincy_email,
            keyboard_shortcuts,
            completed_challenges,
            completed_exams,
            partially_completed_challenges,
            saved_challenges,
            portfolio,
            progress_timestamps,
            profile_ui,
            github_profile,
            linkedin,
            twitter,
            website,
            username_display,
            is_2018_data_vis_cert,
            is_2018_full_stack_cert,
            is_apis_microservices_cert,
            is_back_end_cert,
            is_classroom_account,
            is_college_algebra_py_cert_v8,
            is_data_analysis_py_cert_v7,
            is_data_vis_cert,
            is_foundational_c_sharp_cert_v8,
            is_front_end_cert,
            is_front_end_libs_cert,
            is_full_stack_cert,
            is_honest,
            is_infosec_cert_v7,
            is_infosec_qa_cert,
            is_js_algo_data_struct_cert,
            is_js_algo_data_struct_cert_v8,
            is_machine_learning_py_cert_v7,
            is_qa_cert_v7,
            is_relational_database_cert_v8,
            is_resp_web_design_cert,
            is_sci_comp_py_cert_v7,
            needs_moderation,
            donation_emails,
            years_top_contributor,
            email_auth_link_ttl: nullable_datetime_of(doc, "emailAuthLinkTTL"),
            email_verify_ttl: nullable_datetime_of(doc, "emailVerifyTTL"),
            rand,
            last_updated_at_in_ms: now,
        },
    )
}

fn email_text(doc: &Record) -> (r: Option<String>)
    ensures
        r == email_of(*doc),
{
    match doc.get("email") {
        Some(Value::Text(s)) => {
            if s.unicode_len() > 0 {
                Some(s.clone())
            } else {
                None
            }
        },
        _ => None,
    }
}

/// Normalizes a legacy user record, stamping it as normalized at `now`
/// (epoch milliseconds).
pub fn normalize_at(doc: Record, now: u64) -> (r: Result<User, NormalizeError>)
    ensures
        r is Ok <==> doc.identity_spec() is Some && email_of(doc) is Some && well_shaped(doc),
        r matches Ok(u) ==> normalizes_to(doc, now, u),
        doc.identity_spec() is None <==> r matches Err(NormalizeError::AmbiguousIdentity { .. }),
        r matches Err(NormalizeError::AmbiguousIdentity { doc: d }) ==> d == doc,
        r matches Err(NormalizeError::MissingRequiredField { .. }) <==> doc.identity_spec() is Some
            && email_of(doc) is None,
        r matches Err(NormalizeError::MissingRequiredField { doc: d }) ==> d == doc,
        r matches Err(NormalizeError::UnrecoverableShape { id, cause }) ==> doc.identity_spec()
            == Some(id) && email_of(doc) is Some && malformed_field(doc, cause@),
{
    let id = match doc.identity() {
        Some(id) => id,
        None => return Err(NormalizeError::AmbiguousIdentity { doc }),
    };
    let email = match email_text(&doc) {
        Some(e) => e,
        None => return Err(NormalizeError::MissingRequiredField { doc }),
    };
    match build_user(&doc, id, email, now) {
        Ok(u) => Ok(u),
        Err(cause) => {
            proof {
                lemma_malformed_not_well_shaped(doc, cause@);
            }
            Err(NormalizeError::UnrecoverableShape { id, cause })
        },
    }
}

/// Relies on std's `SystemTime::now`: the wall-clock time in epoch
/// milliseconds, or 0 for a clock set before the epoch.
#[verifier::external_body]
fn current_millis() -> (r: u64) {
    match std::time::SystemTime::now().duration_since(std::time::UNIX_EPOCH) {
        Ok(d) => d.as_millis() as u64,
        Err(_) => 0,
    }
}

/// Normalizes a legacy user record, stamping it with the current wall-clock
/// time; apart from that stamp the result is that of `normalize_at`.
pub fn normalize_user(doc: Record) -> (r: Result<User, NormalizeError>)
    ensures
        r is Ok <==> doc.identity_spec() is Some && email_of(doc) is Some && well_shaped(doc),
        r matches Ok(u) ==> normalizes_to(doc, u.last_updated_at_in_ms, u),
        doc.identity_spec() is None <==> r matches Err(NormalizeError::AmbiguousIdentity { .. }),
        r matches Err(NormalizeError::AmbiguousIdentity { doc: d }) ==> d == doc,
        r matches Err(NormalizeError::MissingRequiredField { .. }) <==> doc.identity_spec() is Some
            && email_of(doc) is None,
        r matches Err(NormalizeError::MissingRequiredField { doc: d }) ==> d == doc,
        r matches Err(NormalizeError::UnrecoverableShape { id, cause }) ==> doc.identity_spec()
            == Some(id) && email_of(doc) is Some && malformed_field(doc, cause@),
{
    let now = current_millis();
    normalize_at(doc, now)
}

} // verus!

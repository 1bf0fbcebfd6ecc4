use vstd::prelude::*;

use crate::document::ObjectId;
use crate::millis::{DateTime, DoubleText};

verus! {

/// A field that holds a value, was cleared (`Null`), or was never set
/// (`Undefined`, written by omitting the field).
#[derive(Clone, Copy, Debug, PartialEq, Eq)]
pub enum NOption<T> {
    Present(T),
    Null,
    Undefined,
}

impl<T> Default for NOption<T> {
    fn default() -> (r: NOption<T>)
        ensures
            r is Null,
    {
        NOption::Null
    }
}

#[derive(Debug)]
pub struct File {
    pub contents: String,
    pub ext: String,
    pub key: String,
    pub name: String,
    pub path: String,
}

#[derive(Debug)]
pub struct CompletedChallenge {
    pub challenge_type: NOption<u32>,
    pub completed_date: u64,
    pub files: Vec<File>,
    pub github_link: NOption<String>,
    pub id: String,
    pub is_manually_approved: NOption<bool>,
    pub solution: NOption<String>,
}

/// The scores of an exam; percentages are held as their decimal rendering.
#[derive(Debug)]
pub struct ExamResults {
    pub exam_time_in_seconds: u32,
    pub number_of_correct_answers: u32,
    pub number_of_questions_in_exam: u32,
    pub passed: bool,
    pub passing_percent: DoubleText,
    pub percent_correct: DoubleText,
}

#[derive(Debug)]
pub struct CompletedExam {
    pub challenge_type: u32,
    pub completed_date: u64,
    pub exam_results: ExamResults,
    pub id: String,
}

#[derive(Debug)]
pub struct PartiallyCompletedChallenge {
    pub completed_date: u64,
    pub id: String,
}

#[derive(Debug)]
pub struct Portfolio {
    pub description: String,
    pub id: String,
    pub image: String,
    pub title: String,
    pub url: String,
}

#[derive(Clone, Copy, Debug, PartialEq, Eq)]
pub struct ProfileUI {
    pub is_locked: bool,
    pub show_about: bool,
    pub show_certs: bool,
    pub show_donation: bool,
    pub show_heat_map: bool,
    pub show_location: bool,
    pub show_name: bool,
    pub show_points: bool,
    pub show_portfolio: bool,
    pub show_time_line: bool,
}

impl ProfileUI {
    /// A locked profile that shows nothing.
    pub open spec fn default_spec() -> ProfileUI {
        ProfileUI {
            is_locked: true,
            show_about: false,
            show_certs: false,
            show_donation: false,
            show_heat_map: false,
            show_location: false,
            show_name: false,
            show_points: false,
            show_portfolio: false,
            show_time_line: false,
        }
    }
}

impl Default for ProfileUI {
    fn default() -> (r: ProfileUI)
        ensures
            r == ProfileUI::default_spec(),
    {
        ProfileUI {
            is_locked: true,
            show_about: false,
            show_certs: false,
            show_donation: false,
            show_heat_map: false,
            show_location: false,
            show_name: false,
            show_points: false,
            show_portfolio: false,
            show_time_line: false,
        }
    }
}

#[derive(Debug)]
pub struct SavedChallenge {
    pub challenge_type: u32,
    pub files: Vec<File>,
    pub id: String,
    pub last_saved_date: u64,
}

/// A user record in the normalized schema.
#[derive(Debug)]
pub struct User {
    pub id: ObjectId,
    pub email: String,
    pub username: String,
    pub unsubscribe_id: String,
    pub name: String,
    pub about: String,
    pub location: String,
    pub picture: String,
    pub theme: String,
    pub current_challenge_id: NOption<String>,
    pub external_id: NOption<String>,
    pub new_email: NOption<String>,
    pub accepted_privacy_terms: bool,
    pub email_verified: bool,
    pub is_banned: bool,
    pub is_cheater: bool,
    pub is_donating: bool,
    pub send_quincy_email: bool,
    pub keyboard_shortcuts: bool,
    pub completed_challenges: Vec<CompletedChallenge>,
    pub completed_exams: Vec<CompletedExam>,
    pub partially_completed_challenges: Vec<PartiallyCompletedChallenge>,
    pub saved_challenges: Vec<SavedChallenge>,
    pub portfolio: Vec<Portfolio>,
    pub progress_timestamps: Vec<u64>,
    pub profile_ui: ProfileUI,
    pub github_profile: String,
    pub linkedin: String,
    pub twitter: String,
    pub website: String,
    pub username_display: String,
    pub is_2018_data_vis_cert: bool,
    pub is_2018_full_stack_cert: bool,
    pub is_apis_microservices_cert: bool,
    pub is_back_end_cert: bool,
    pub is_classroom_account: bool,
    pub is_college_algebra_py_cert_v8: bool,
    pub is_data_analysis_py_cert_v7: bool,
    pub is_data_vis_cert: bool,
    pub is_foundational_c_sharp_cert_v8: bool,
    pub is_front_end_cert: bool,
    pub is_front_end_libs_cert: bool,
    pub is_full_stack_cert: bool,
    pub is_honest: bool,
    pub is_infosec_cert_v7: bool,
    pub is_infosec_qa_cert: bool,
    pub is_js_algo_data_struct_cert: bool,
    pub is_js_algo_data_struct_cert_v8: bool,
    pub is_machine_learning_py_cert_v7: bool,
    pub is_qa_cert_v7: bool,
    pub is_relational_database_cert_v8: bool,
    pub is_resp_web_design_cert: bool,
    pub is_sci_comp_py_cert_v7: bool,
    pub needs_moderation: bool,
    pub donation_emails: Vec<String>,
    pub years_top_contributor: Vec<u32>,
    pub email_auth_link_ttl: NOption<DateTime>,
    pub email_verify_ttl: NOption<DateTime>,
    pub rand: DoubleText,
    pub last_updated_at_in_ms: u64,
}

} // verus!

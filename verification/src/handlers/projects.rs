//! Project administration: webhook keys and the project list page.

use vstd::prelude::*;
use crate::handlers::{opt_view, save_messages, save_messages_spec};
use crate::i18n::catalog_text;
use crate::models::Project;
use crate::templates::{ProjectEditTemplate, ProjectsTemplate};

verus! {

/// The project form, for adding and for editing a project.
pub struct ProjectPayload {
    pub name: String,
    pub script_path: String,
    pub log_dir: String,
}

/// Whether `c` is a lower-case hexadecimal digit.
pub open spec fn is_lower_hex(c: char) -> bool {
    ('0' <= c && c <= '9') || ('a' <= c && c <= 'f')
}

/// Whether `s` is the hyphenated lower-case text of a random (version 4,
/// RFC 4122 variant) UUID: 36 characters, hyphens at 8, 13, 18 and 23,
/// hexadecimal digits elsewhere, version digit `4`, variant digit one of
/// `8`, `9`, `a`, `b`.
pub open spec fn is_uuid_v4_text(s: Seq<char>) -> bool {
    &&& s.len() == 36
    &&& forall|i: int|
        0 <= i < 36 ==> if i == 8 || i == 13 || i == 18 || i == 23 {
            #[trigger] s[i] == '-'
        } else {
            is_lower_hex(s[i])
        }
    &&& s[14] == '4'
    &&& s[19] == '8' || s[19] == '9' || s[19] == 'a' || s[19] == 'b'
}

/// The text of one draw from the random UUID source. Only a draw makes
/// one: the field is private and [`uuid_v4_text`] is its sole maker.
pub struct UuidDraw {
    text: String,
}

impl UuidDraw {
    /// The drawn text.
    pub closed spec fn text(self) -> Seq<char> {
        self.text@
    }

    /// The drawn text, borrowed.
    pub fn as_str(&self) -> (s: &str)
        ensures
            s@ == self.text(),
    {
        self.text.as_str()
    }

    /// The drawn text, owned.
    pub fn into_string(self) -> (s: String)
        ensures
            s@ == self.text(),
    {
        self.text
    }
}

/// Renders a fresh `uuid::Uuid::new_v4()` as text (`to_string`, the
/// hyphenated lower-case form). Claimed: the text has the shape of a
/// version-4 UUID. Which UUID comes out is random and not stated.
#[verifier::external_body]
pub(crate) fn uuid_v4_text() -> (r: UuidDraw)
    ensures
        is_uuid_v4_text(r.text()),
{
    UuidDraw { text: uuid::Uuid::new_v4().to_string() }
}

/// A fresh webhook key for a new project: the text of a draw from the
/// random UUID source.
pub fn new_webhook_key() -> (key: String)
    ensures
        is_uuid_v4_text(key@),
        exists|d: UuidDraw| is_uuid_v4_text(d.text()) && key@ == #[trigger] d.text(),
{
    let d = uuid_v4_text();
    let key = d.into_string();
    assert(is_uuid_v4_text(d.text()) && key@ == d.text());
    key
}

/// The project list page. `saved` is the outcome of a submitted project
/// form (the database error's text on failure), `None` when nothing was
/// submitted. The flag tells whether a success message had no catalog text
/// in the language (the text of "proj_saved" is missing).
pub fn projects_page(lang: String, projects: Vec<Project>, saved: Option<Result<(), String>>) -> (r: (
    ProjectsTemplate,
    bool,
))
    ensures
        r.0.lang == lang,
        r.0.is_logged_in,
        r.0.projects == projects,
        saved is None ==> r.0.error_msg is None && r.0.success_msg is None,
        saved is Some ==> (opt_view(r.0.error_msg), opt_view(r.0.success_msg))
            == save_messages_spec(
            lang@,
            "proj_saved"@,
            match saved->0 {
                Ok(()) => Ok(()),
                Err(e) => Err(e@),
            },
        ),
        r.1 == (saved matches Some(Ok(())) && catalog_text("proj_saved"@, lang@) is None),
{
    let (error_msg, success_msg, missing) = match saved {
        None => (None, None, false),
        Some(outcome) => save_messages(lang.as_str(), "proj_saved", outcome),
    };
    (ProjectsTemplate { lang, is_logged_in: true, error_msg, success_msg, projects }, missing)
}

/// The edit form of a project; an unknown project sends the visitor back to
/// the project list ("/projects").
pub fn project_edit_page(lang: String, project: Option<Project>) -> (r: Result<ProjectEditTemplate, &'static str>)
    ensures
        project is None ==> (r matches Err(to) && to@ == "/projects"@),
        project is Some ==> (r matches Ok(page) && page.lang == lang && page.is_logged_in
            && page.error_msg is None && page.success_msg is None && page.project == project->0),
{
    match project {
        None => Err("/projects"),
        Some(project) => Ok(
            ProjectEditTemplate { lang, is_logged_in: true, error_msg: None, success_msg: None, project },
        ),
    }
}

} // verus!

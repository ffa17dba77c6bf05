//! The shared project record, the operator's choices, and the menus they are
//! picked from.

use vstd::prelude::*;

verus! {

/// What the architect decided the project needs.
#[derive(Debug, Clone, Copy, PartialEq, Eq, Structural)]
pub struct ProjectScope {
    pub is_crud_required: bool,
    pub is_user_login: bool,
    pub is_external_urls_required: bool,
}

/// One write to a single field of the shared record.
#[derive(Debug, Clone, PartialEq, Eq)]
pub enum SpecUpdate {
    ProjectDescription(String),
    ProjectScope(ProjectScope),
    ExternalUrls(Vec<String>),
    BackendCode(String),
}

/// The fields of the shared record.
#[derive(Debug, Clone, Copy, PartialEq, Eq, Structural)]
pub enum SpecField {
    ProjectDescription,
    ProjectScope,
    ExternalUrls,
    BackendCode,
    FrontendCode,
}

/// Mathematical value of a [`SpecUpdate`].
pub enum SpecUpdateView {
    ProjectDescription(Seq<char>),
    ProjectScope(ProjectScope),
    ExternalUrls(Seq<Seq<char>>),
    BackendCode(Seq<char>),
}

impl SpecUpdateView {
    /// The one field that this write touches.
    pub open spec fn field(self) -> SpecField {
        match self {
            SpecUpdateView::ProjectDescription(_) => SpecField::ProjectDescription,
            SpecUpdateView::ProjectScope(_) => SpecField::ProjectScope,
            SpecUpdateView::ExternalUrls(_) => SpecField::ExternalUrls,
            SpecUpdateView::BackendCode(_) => SpecField::BackendCode,
        }
    }
}

impl View for SpecUpdate {
    type V = SpecUpdateView;

    open spec fn view(&self) -> SpecUpdateView {
        match self {
            SpecUpdate::ProjectDescription(text) => SpecUpdateView::ProjectDescription(text@),
            SpecUpdate::ProjectScope(scope) => SpecUpdateView::ProjectScope(*scope),
            SpecUpdate::ExternalUrls(urls) => SpecUpdateView::ExternalUrls(urls.deep_view()),
            SpecUpdate::BackendCode(code) => SpecUpdateView::BackendCode(code@),
        }
    }
}

/// The record that the agents of one run fill in, field by field.
#[derive(Debug, Clone, PartialEq, Eq)]
pub struct ProjectSpec {
    pub project_description: Option<String>,
    pub backend_code: Option<String>,
    pub frontend_code: Option<String>,
    pub project_scope: Option<ProjectScope>,
    pub external_urls: Option<Vec<String>>,
}

/// Mathematical value of a [`ProjectSpec`].
pub struct ProjectSpecView {
    pub project_description: Option<Seq<char>>,
    pub backend_code: Option<Seq<char>>,
    pub frontend_code: Option<Seq<char>>,
    pub project_scope: Option<ProjectScope>,
    pub external_urls: Option<Seq<Seq<char>>>,
}

impl ProjectSpecView {
    /// The record in which nothing has been written yet.
    pub open spec fn empty() -> ProjectSpecView {
        ProjectSpecView {
            project_description: None,
            backend_code: None,
            frontend_code: None,
            project_scope: None,
            external_urls: None,
        }
    }

    /// Whether `field` holds a value.
    pub open spec fn is_set(self, field: SpecField) -> bool {
        match field {
            SpecField::ProjectDescription => self.project_description is Some,
            SpecField::ProjectScope => self.project_scope is Some,
            SpecField::ExternalUrls => self.external_urls is Some,
            SpecField::BackendCode => self.backend_code is Some,
            SpecField::FrontendCode => self.frontend_code is Some,
        }
    }

    /// Whether the record holds exactly what `update` writes, in the field it writes.
    pub open spec fn holds(self, update: SpecUpdateView) -> bool {
        match update {
            SpecUpdateView::ProjectDescription(text) => self.project_description == Some(text),
            SpecUpdateView::ProjectScope(scope) => self.project_scope == Some(scope),
            SpecUpdateView::ExternalUrls(urls) => self.external_urls == Some(urls),
            SpecUpdateView::BackendCode(code) => self.backend_code == Some(code),
        }
    }

    /// Whether the two records agree on `field`.
    pub open spec fn agrees_on(self, other: ProjectSpecView, field: SpecField) -> bool {
        match field {
            SpecField::ProjectDescription => self.project_description == other.project_description,
            SpecField::ProjectScope => self.project_scope == other.project_scope,
            SpecField::ExternalUrls => self.external_urls == other.external_urls,
            SpecField::BackendCode => self.backend_code == other.backend_code,
            SpecField::FrontendCode => self.frontend_code == other.frontend_code,
        }
    }

    /// The record after `update` has been written into it.
    pub open spec fn updated(self, update: SpecUpdateView) -> ProjectSpecView {
        match update {
            SpecUpdateView::ProjectDescription(text) => ProjectSpecView {
                project_description: Some(text),
                ..self
            },
            SpecUpdateView::ProjectScope(scope) => ProjectSpecView {
                project_scope: Some(scope),
                ..self
            },
            SpecUpdateView::ExternalUrls(urls) => ProjectSpecView {
                external_urls: Some(urls),
                ..self
            },
            SpecUpdateView::BackendCode(code) => ProjectSpecView {
                backend_code: Some(code),
                ..self
            },
        }
    }

    /// The record after every write of `updates` has been made, first to last.
    pub open spec fn updated_by_all(self, updates: Seq<SpecUpdateView>) -> ProjectSpecView
        decreases updates.len(),
    {
        if updates.len() == 0 {
            self
        } else {
            self.updated_by_all(updates.drop_last()).updated(updates.last())
        }
    }
}

impl View for ProjectSpec {
    type V = ProjectSpecView;

    open spec fn view(&self) -> ProjectSpecView {
        ProjectSpecView {
            project_description: self.project_description.deep_view(),
            backend_code: self.backend_code.deep_view(),
            frontend_code: self.frontend_code.deep_view(),
            project_scope: self.project_scope,
            external_urls: self.external_urls.deep_view(),
        }
    }
}

impl ProjectSpec {
    /// A record with every field still unset.
    pub fn new() -> (spec: Self)
        ensures
            spec@ == ProjectSpecView::empty(),
    {
        ProjectSpec {
            project_description: None,
            backend_code: None,
            frontend_code: None,
            project_scope: None,
            external_urls: None,
        }
    }

    /// Writes `update` into its field and leaves every other field as it was.
    pub fn apply(&mut self, update: SpecUpdate)
        ensures
            final(self)@ == old(self)@.updated(update@),
    {
        match update {
            SpecUpdate::ProjectDescription(text) => {
                self.project_description = Some(text);
            },
            SpecUpdate::ProjectScope(scope) => {
                self.project_scope = Some(scope);
            },
            SpecUpdate::ExternalUrls(urls) => {
                self.external_urls = Some(urls);
            },
            SpecUpdate::BackendCode(code) => {
                self.backend_code = Some(code);
            },
        }
    }
}

/// A write changes the field it names and no other.
pub proof fn lemma_update_touches_one_field(
    spec: ProjectSpecView,
    update: SpecUpdateView,
    field: SpecField,
)
    ensures
        spec.updated(update).holds(update),
        spec.updated(update).is_set(update.field()),
        field != update.field() ==> spec.updated(update).agrees_on(spec, field),
{
}

/// After a series of writes the record holds each write that no later write of
/// the series to the same field replaced, and a field that no write of the
/// series names is as it was before.
pub proof fn lemma_writes_persist(spec: ProjectSpecView, updates: Seq<SpecUpdateView>)
    ensures
        forall|i: int|
            0 <= i < updates.len() && (forall|j: int|
                i < j < updates.len() ==> updates[j].field() != #[trigger] updates[i].field())
                ==> spec.updated_by_all(updates).holds(updates[i]),
        forall|field: SpecField|
            (forall|j: int| 0 <= j < updates.len() ==> #[trigger] updates[j].field() != field)
                ==> #[trigger] spec.updated_by_all(updates).agrees_on(spec, field),
    decreases updates.len(),
{
    if updates.len() > 0 {
        let earlier = updates.drop_last();
        lemma_writes_persist(spec, earlier);
        assert forall|i: int|
            0 <= i < updates.len() && (forall|j: int|
                i < j < updates.len() ==> updates[j].field() != #[trigger] updates[i].field())
            implies spec.updated_by_all(updates).holds(updates[i]) by {
            if i < updates.len() - 1 {
                assert(earlier[i] == updates[i]);
                assert forall|j: int| i < j < earlier.len() implies earlier[j].field()
                    != earlier[i].field() by {
                    assert(earlier[j] == updates[j]);
                }
                assert(updates[updates.len() - 1].field() != updates[i].field());
            }
        }
        assert forall|field: SpecField|
            (forall|j: int| 0 <= j < updates.len() ==> #[trigger] updates[j].field() != field)
            implies #[trigger] spec.updated_by_all(updates).agrees_on(spec, field) by {
            assert forall|j: int| 0 <= j < earlier.len() implies #[trigger] earlier[j].field()
                != field by {
                assert(earlier[j] == updates[j]);
            }
            assert(spec.updated_by_all(earlier).agrees_on(spec, field));
            assert(updates[updates.len() - 1].field() != field);
        }
    }
}

/// The operator's choices for one run. Agents read them and never change them.
#[derive(Debug, Clone, PartialEq, Eq)]
pub struct UserInputs {
    pub project_to_build: String,
    pub project_focus: Option<String>,
    pub backend_language: Option<String>,
    pub frontend_language: Option<String>,
    pub llm_model: Option<String>,
}

/// Mathematical value of a [`UserInputs`].
pub struct UserInputsView {
    pub project_to_build: Seq<char>,
    pub project_focus: Option<Seq<char>>,
    pub backend_language: Option<Seq<char>>,
    pub frontend_language: Option<Seq<char>>,
    pub llm_model: Option<Seq<char>>,
}

impl UserInputsView {
    /// The choices before the operator has answered anything.
    pub open spec fn blank() -> UserInputsView {
        UserInputsView {
            project_to_build: Seq::empty(),
            project_focus: None,
            backend_language: None,
            frontend_language: None,
            llm_model: None,
        }
    }
}

impl View for UserInputs {
    type V = UserInputsView;

    open spec fn view(&self) -> UserInputsView {
        UserInputsView {
            project_to_build: self.project_to_build@,
            project_focus: self.project_focus.deep_view(),
            backend_language: self.backend_language.deep_view(),
            frontend_language: self.frontend_language.deep_view(),
            llm_model: self.llm_model.deep_view(),
        }
    }
}

impl UserInputs {
    /// Choices with an empty project text and nothing selected.
    pub fn new() -> (inputs: Self)
        ensures
            inputs@ == UserInputsView::blank(),
    {
        UserInputs {
            project_to_build: String::new(),
            project_focus: None,
            backend_language: None,
            frontend_language: None,
            llm_model: None,
        }
    }
}

/// The areas of focus offered to the operator, in menu order.
pub open spec fn project_focus_menu() -> Seq<Seq<char>> {
    seq!["Backend"@, "Frontend"@, "Fullstack"@]
}

/// The backend stacks offered to the operator, in menu order.
pub open spec fn backend_languages_menu() -> Seq<Seq<char>> {
    seq![
        "Rust + Axum"@,
        "Python + Flask"@,
        "Java + Spring Boot"@,
        "JavaScript + Express"@,
        "JavaScript + NestJs"@,
        "TypeScript + Express"@,
        "TypeScript + NextJs"@,
    ]
}

/// The frontend stacks offered to the operator, in menu order.
pub open spec fn frontend_language_menu() -> Seq<Seq<char>> {
    seq!["JavaScript + React"@, "JavaScript + Svelte"@, "JavaScript + NextJs"@]
}

/// Area-of-focus options.
pub fn project_focus() -> (options: Vec<String>)
    ensures
        options.deep_view() == project_focus_menu(),
{
    let mut options: Vec<String> = Vec::new();
    options.push(String::from_str("Backend"));
    options.push(String::from_str("Frontend"));
    options.push(String::from_str("Fullstack"));
    assert(options.deep_view() =~= project_focus_menu());
    options
}

/// Backend language options.
pub fn backend_languages() -> (options: Vec<String>)
    ensures
        options.deep_view() == backend_languages_menu(),
{
    let mut options: Vec<String> = Vec::new();
    options.push(String::from_str("Rust + Axum"));
    options.push(String::from_str("Python + Flask"));
    options.push(String::from_str("Java + Spring Boot"));
    options.push(String::from_str("JavaScript + Express"));
    options.push(String::from_str("JavaScript + NestJs"));
    options.push(String::from_str("TypeScript + Express"));
    options.push(String::from_str("TypeScript + NextJs"));
    assert(options.deep_view() =~= backend_languages_menu());
    options
}

/// Frontend language options.
pub fn frontend_language() -> (options: Vec<String>)
    ensures
        options.deep_view() == frontend_language_menu(),
{
    let mut options: Vec<String> = Vec::new();
    options.push(String::from_str("JavaScript + React"));
    options.push(String::from_str("JavaScript + Svelte"));
    options.push(String::from_str("JavaScript + NextJs"));
    assert(options.deep_view() =~= frontend_language_menu());
    options
}

} // verus!

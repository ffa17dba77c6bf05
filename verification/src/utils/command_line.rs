//! The questions that the operator is asked before a run, and what is made of
//! the answers. Asking and printing are left to the caller.

use crate::models::llm::{llm_choices, llm_choices_menu};
use crate::models::project::{
    backend_languages,
    backend_languages_menu,
    frontend_language,
    frontend_language_menu,
    project_focus,
    project_focus_menu,
    UserInputs,
    UserInputsView,
};
use vstd::prelude::*;

verus! {

/// The kinds of line that are printed for the operator.
#[derive(Debug, Clone, Copy, PartialEq, Eq, Structural)]
pub enum LogMessage {
    Info,
    Testing,
    Error,
}

/// The questions of the questionnaire.
#[derive(Debug, Clone, Copy, PartialEq, Eq, Structural)]
pub enum Question {
    ProjectToBuild,
    ProjectFocus,
    BackendLanguage,
    FrontendLanguage,
    LlmModel,
}

/// Why the answers do not make up a complete set of choices.
#[derive(Debug, Clone, Copy, PartialEq, Eq, Structural)]
pub enum QuestionnaireError {
    /// The area of focus is none of those on the menu.
    UnknownFocus,
    /// An answer came after the last question had been answered.
    NothingAsked,
    /// The answers ended before the last question.
    Unanswered,
}

/// A question as it is put to the operator: its text, and the menu to pick
/// the answer from where it has one.
#[derive(Debug, Clone, PartialEq, Eq)]
pub struct Prompt {
    pub text: String,
    pub options: Option<Vec<String>>,
}

impl Question {
    /// The text of the question.
    pub open spec fn text(self) -> Seq<char> {
        match self {
            Question::ProjectToBuild => "What project are we building?"@,
            Question::ProjectFocus => "What is the project area of focus"@,
            Question::BackendLanguage => "What backend language do you prefer to use?"@,
            Question::FrontendLanguage => "What frontend language do you prefer to use?"@,
            Question::LlmModel => "Which LLM model do you want to build this project?"@,
        }
    }

    /// The menu of the question; `None` for a question that is answered in free text.
    pub open spec fn menu(self) -> Option<Seq<Seq<char>>> {
        match self {
            Question::ProjectToBuild => None,
            Question::ProjectFocus => Some(project_focus_menu()),
            Question::BackendLanguage => Some(backend_languages_menu()),
            Question::FrontendLanguage => Some(frontend_language_menu()),
            Question::LlmModel => Some(llm_choices_menu()),
        }
    }

    /// The question as it is put to the operator.
    pub fn prompt(self) -> (prompt: Prompt)
        ensures
            prompt.text@ == self.text(),
            prompt.options.deep_view() == self.menu(),
    {
        match self {
            Question::ProjectToBuild => Prompt {
                text: String::from_str("What project are we building?"),
                options: None,
            },
            Question::ProjectFocus => Prompt {
                text: String::from_str("What is the project area of focus"),
                options: Some(project_focus()),
            },
            Question::BackendLanguage => Prompt {
                text: String::from_str("What backend language do you prefer to use?"),
                options: Some(backend_languages()),
            },
            Question::FrontendLanguage => Prompt {
                text: String::from_str("What frontend language do you prefer to use?"),
                options: Some(frontend_language()),
            },
            Question::LlmModel => Prompt {
                text: String::from_str("Which LLM model do you want to build this project?"),
                options: Some(llm_choices()),
            },
        }
    }
}

/// Mathematical value of a [`Questionnaire`].
pub struct QuestionnaireModel {
    pub inputs: UserInputsView,
    pub next: Option<Question>,
}

/// Whether `focus` is on the menu of areas of focus.
pub open spec fn is_known_focus(focus: Seq<char>) -> bool {
    focus == "Backend"@ || focus == "Frontend"@ || focus == "Fullstack"@
}

/// The choices after `answer` has been given to `question`.
pub open spec fn answered(
    inputs: UserInputsView,
    question: Question,
    answer: Seq<char>,
) -> UserInputsView {
    match question {
        Question::ProjectToBuild => UserInputsView { project_to_build: answer, ..inputs },
        Question::ProjectFocus => UserInputsView { project_focus: Some(answer), ..inputs },
        Question::BackendLanguage => UserInputsView { backend_language: Some(answer), ..inputs },
        Question::FrontendLanguage => UserInputsView { frontend_language: Some(answer), ..inputs },
        Question::LlmModel => UserInputsView { llm_model: Some(answer), ..inputs },
    }
}

/// The question that follows `question`, given the area of focus chosen so
/// far: the backend language is asked for the focus on the backend and for
/// the full stack, the frontend language for the focus on the frontend and
/// for the full stack, and the model comes last.
pub open spec fn question_after(question: Question, focus: Option<Seq<char>>) -> Option<Question> {
    match question {
        Question::ProjectToBuild => Some(Question::ProjectFocus),
        Question::ProjectFocus => if focus == Some("Frontend"@) {
            Some(Question::FrontendLanguage)
        } else {
            Some(Question::BackendLanguage)
        },
        Question::BackendLanguage => if focus == Some("Fullstack"@) {
            Some(Question::FrontendLanguage)
        } else {
            Some(Question::LlmModel)
        },
        Question::FrontendLanguage => Some(Question::LlmModel),
        Question::LlmModel => None,
    }
}

impl QuestionnaireModel {
    /// The questionnaire before the first question.
    pub open spec fn start() -> QuestionnaireModel {
        QuestionnaireModel {
            inputs: UserInputsView::blank(),
            next: Some(Question::ProjectToBuild),
        }
    }

    /// The questionnaire after `answer` has been given to the open question.
    pub open spec fn record(self, answer: Seq<char>) -> Result<
        QuestionnaireModel,
        QuestionnaireError,
    > {
        match self.next {
            None => Err(QuestionnaireError::NothingAsked),
            Some(question) => if question == Question::ProjectFocus && !is_known_focus(answer) {
                Err(QuestionnaireError::UnknownFocus)
            } else {
                let inputs = answered(self.inputs, question, answer);
                Ok(
                    QuestionnaireModel {
                        inputs,
                        next: question_after(question, inputs.project_focus),
                    },
                )
            },
        }
    }

    /// The questionnaire after the answers have been given one by one, or the
    /// first error that one of them ran into.
    pub open spec fn record_all(self, answers: Seq<Seq<char>>) -> Result<
        QuestionnaireModel,
        QuestionnaireError,
    >
        decreases answers.len(),
    {
        if answers.len() == 0 {
            Ok(self)
        } else {
            match self.record(answers[0]) {
                Ok(next) => next.record_all(answers.skip(1)),
                Err(error) => Err(error),
            }
        }
    }

    /// What a finished series of answers amounts to: the choices, where no
    /// question is left open.
    pub open spec fn conclude(
        outcome: Result<QuestionnaireModel, QuestionnaireError>,
    ) -> Result<UserInputsView, QuestionnaireError> {
        match outcome {
            Ok(questionnaire) => if questionnaire.next is None {
                Ok(questionnaire.inputs)
            } else {
                Err(QuestionnaireError::Unanswered)
            },
            Err(error) => Err(error),
        }
    }
}

/// The questionnaire: the choices made so far and the question that is open.
#[derive(Debug)]
pub struct Questionnaire {
    pub inputs: UserInputs,
    pub next: Option<Question>,
}

impl View for Questionnaire {
    type V = QuestionnaireModel;

    open spec fn view(&self) -> QuestionnaireModel {
        QuestionnaireModel { inputs: self.inputs@, next: self.next }
    }
}

/// Tells whether `focus` is `expected`.
fn focus_is(focus: &Option<String>, expected: &str) -> (same: bool)
    ensures
        same == (focus.deep_view() == Some(expected@)),
{
    match focus {
        Some(text) => *text == String::from_str(expected),
        None => false,
    }
}

impl Questionnaire {
    /// A questionnaire with nothing answered and the first question open.
    pub fn new() -> (questionnaire: Self)
        ensures
            questionnaire@ == QuestionnaireModel::start(),
    {
        Questionnaire { inputs: UserInputs::new(), next: Some(Question::ProjectToBuild) }
    }

    /// Takes the operator's answer to the open question and opens the next
    /// one. On an error nothing changes.
    pub fn answer(&mut self, line: String) -> (result: Result<(), QuestionnaireError>)
        ensures
            match old(self)@.record(line@) {
                Ok(next) => result is Ok && final(self)@ == next,
                Err(error) => result == Err::<(), QuestionnaireError>(error) && final(self)@
                    == old(self)@,
            },
    {
        let question = match self.next {
            None => {
                return Err(QuestionnaireError::NothingAsked);
            },
            Some(question) => question,
        };
        match question {
            Question::ProjectToBuild => {
                self.inputs.project_to_build = line;
            },
            Question::ProjectFocus => {
                let focus = Some(line);
                let known = focus_is(&focus, "Backend") || focus_is(&focus, "Frontend") || focus_is(
                    &focus,
                    "Fullstack",
                );
                if !known {
                    return Err(QuestionnaireError::UnknownFocus);
                }
                self.inputs.project_focus = focus;
            },
            Question::BackendLanguage => {
                self.inputs.backend_language = Some(line);
            },
            Question::FrontendLanguage => {
                self.inputs.frontend_language = Some(line);
            },
            Question::LlmModel => {
                self.inputs.llm_model = Some(line);
            },
        }
        self.next =
        match question {
            Question::ProjectToBuild => Some(Question::ProjectFocus),
            Question::ProjectFocus => if focus_is(&self.inputs.project_focus, "Frontend") {
                Some(Question::FrontendLanguage)
            } else {
                Some(Question::BackendLanguage)
            },
            Question::BackendLanguage => if focus_is(&self.inputs.project_focus, "Fullstack") {
                Some(Question::FrontendLanguage)
            } else {
                Some(Question::LlmModel)
            },
            Question::FrontendLanguage => Some(Question::LlmModel),
            Question::LlmModel => None,
        };
        Ok(())
    }
}

/// The operator's choices, made of the answers to the questionnaire in the
/// order in which they were given. The answers must be exactly those that the
/// questionnaire asks for.
pub fn project_details(answers: Vec<String>) -> (result: Result<UserInputs, QuestionnaireError>)
    ensures
        match QuestionnaireModel::conclude(
            QuestionnaireModel::start().record_all(answers.deep_view()),
        ) {
            Ok(inputs) => result is Ok && result.unwrap()@ == inputs,
            Err(error) => result == Err::<UserInputs, QuestionnaireError>(error),
        },
{
    let mut questionnaire = Questionnaire::new();
    let mut i: usize = 0;
    assert(answers.deep_view().skip(0) =~= answers.deep_view());
    while i < answers.len()
        invariant
            i <= answers.len(),
            questionnaire@.record_all(answers.deep_view().skip(i as int))
                == QuestionnaireModel::start().record_all(answers.deep_view()),
        decreases answers.len() - i,
    {
        let ghost rest = answers.deep_view().skip(i as int);
        assert(rest[0] == answers[i as int]@);
        assert(rest.skip(1) =~= answers.deep_view().skip(i as int + 1));
        match questionnaire.answer(answers[i].clone()) {
            Ok(()) => {},
            Err(error) => {
                return Err(error);
            },
        }
        i += 1;
    }
    match questionnaire.next {
        None => Ok(questionnaire.inputs),
        Some(_) => Err(QuestionnaireError::Unanswered),
    }
}

} // verus!

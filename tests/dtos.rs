use cataclysm_auth::dtos::application::CreateDto as CreateApplication;
use cataclysm_auth::dtos::question::CreateDto as CreateQuestion;
use cataclysm_auth::dtos::survey::CreateDto as CreateSurvey;
use cataclysm_auth::dtos::DtoError;
use cataclysm_auth::survey::QuestionType;

#[test]
#[should_panic]
fn create_app_dto_validation_throws_err() {
    CreateApplication::new("".to_owned()).unwrap();
}

#[test]
fn create_app_dto() {
    let app = CreateApplication::new("Sat ID".to_owned()).unwrap();
    assert_eq!(app.name, "Sat ID".to_owned());
}

#[test]
#[should_panic]
fn create_question_dto_fails_by_name() {
    CreateQuestion::new("".to_owned(), QuestionType::Open, 0, true).unwrap();
}

#[test]
#[should_panic]
fn create_survey_dto_fails_by_app_id() {
    CreateSurvey::new(-1, "dasd".to_owned()).unwrap();
}

#[test]
#[should_panic]
fn create_survey_dto_fails_by_name() {
    CreateSurvey::new(09, "".to_owned()).unwrap();
}

#[test]
fn create_survey_dto() {
    let app_id = 09;
    let survey_name = "final".to_owned();
    let survey = CreateSurvey::new(app_id.clone(), survey_name.clone()).unwrap();
    assert_eq!(survey.app_id, app_id);
    assert_eq!(survey.name, survey_name);
}

#[test]
fn name_length_counts_characters_not_bytes() {
    assert!(CreateApplication::new("ñañañ".to_owned()).is_ok());
    assert!(matches!(CreateApplication::new("abcd".to_owned()), Err(DtoError::Input(_))));
    assert!(CreateApplication::new("abcde".to_owned()).is_ok());
}

#[test]
fn question_dto_keeps_its_fields() {
    let kind = QuestionType::Range { limit: 10, labels: vec!["uno".to_owned(), "dos".to_owned()] };
    let dto = CreateQuestion::new("Question text?".to_owned(), kind.clone(), 3, false).unwrap();
    assert_eq!(dto.text, "Question text?");
    assert_eq!(dto.q_type, kind);
    assert_eq!(dto.order, 3);
    assert!(!dto.required);
    assert!(matches!(
        CreateQuestion::new("Why?".to_owned(), QuestionType::YesNo, 0, true),
        Err(DtoError::Input(_))
    ));
}

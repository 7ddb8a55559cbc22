use csx::interaction::{MockUserInteraction, UserInteraction, ValidatorResult};

#[test]
fn test_mock_user_interaction() {
    let mut mock = MockUserInteraction {
        confirm_answers: vec![true, false],
        input_answers: vec!["input1".to_string(), "input2".to_string()],
        select_answers: vec![0, 1],
        multi_select_answers: vec![vec![0, 1], vec![0, 2, 4]],
    };
    let dummy_msg = "dummy";

    assert_eq!(mock.confirm(&dummy_msg), true);
    assert_eq!(mock.confirm(&dummy_msg), false);
    assert_eq!(mock.confirm_answers.len(), 0);

    let dummy_validator = |_: &String| -> ValidatorResult { ValidatorResult::Ok(()) };
    assert_eq!(
        mock.input(&dummy_msg, dummy_validator),
        "input1".to_string()
    );
    assert_eq!(
        mock.input(&dummy_msg, dummy_validator),
        "input2".to_string()
    );
    assert_eq!(mock.input_answers.len(), 0);

    let dummy_choices = vec![];

    assert_eq!(mock.select(&dummy_msg, &dummy_choices), 0);
    assert_eq!(mock.select(&dummy_msg, &dummy_choices), 1);
    assert_eq!(mock.select_answers.len(), 0);

    assert_eq!(mock.multi_select(&dummy_msg, &dummy_choices), vec![0, 1]);
    assert_eq!(mock.multi_select(&dummy_msg, &dummy_choices), vec![0, 2, 4]);
}

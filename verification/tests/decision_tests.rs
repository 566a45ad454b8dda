use libsqlitesite::site::{create_check, open_check, page_count_answer, sending_value};
use libsqlitesite::SiteError;

#[test]
fn create_is_refused_exactly_when_the_path_exists() {
    assert!(matches!(create_check(true), Err(SiteError::PathAlreadyExists)));
    assert!(create_check(false).is_ok());
}

#[test]
fn open_needs_an_existing_regular_file() {
    assert!(matches!(open_check(false, false), Err(SiteError::PathDoesNotExist)));
    assert!(matches!(open_check(false, true), Err(SiteError::PathDoesNotExist)));
    assert!(matches!(open_check(true, false), Err(SiteError::PathIsNotAFile)));
    assert!(open_check(true, true).is_ok());
}

#[test]
fn page_count_answers_whether_a_page_is_stored() {
    assert_eq!(page_count_answer(0).unwrap(), false);
    assert_eq!(page_count_answer(1).unwrap(), true);
    assert_eq!(page_count_answer(2000).unwrap(), true);
    assert!(matches!(page_count_answer(-1), Err(SiteError::IntegerOutOfRange(-1))));
}

#[test]
fn switching_404_contents_writes_the_switch_value() {
    assert!(matches!(sending_value(true, &None), Err(SiteError::No404ContentToEnable)));
    assert_eq!(sending_value(true, &Some("gone".to_string())).unwrap(), "true");
    assert_eq!(sending_value(false, &None).unwrap(), "false");
    assert_eq!(sending_value(false, &Some("gone".to_string())).unwrap(), "false");
}

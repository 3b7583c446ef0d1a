use weaviate_client::utils::string::trim_trailing_slash;

#[test]
fn trimemove_trailing_slash() {
    let test_case_1 = trim_trailing_slash("test/".to_owned());
    let test_case_2 = trim_trailing_slash("testing".to_owned());

    assert_eq!(test_case_1, "test".to_owned());
    assert_eq!(test_case_2, "testing".to_owned());
}

#[test]
fn trims_only_one_slash() {
    assert_eq!(trim_trailing_slash("a//".to_owned()), "a/".to_owned());
    assert_eq!(trim_trailing_slash("".to_owned()), "".to_owned());
    assert_eq!(trim_trailing_slash("/".to_owned()), "".to_owned());
}

use indexer::errors::IndexError;
use indexer::version::major_version;

#[test]
fn major_of_v1_2_3_is_1() {
    assert_eq!(major_version("v1.2.3").unwrap(), "1");
}

#[test]
fn major_of_2_0_0_is_2() {
    assert_eq!(major_version("2.0.0").unwrap(), "2");
}

#[test]
fn major_of_vv3_0_is_3() {
    assert_eq!(major_version("vv3.0").unwrap(), "3");
}

#[test]
fn major_of_empty_is_invalid() {
    assert!(matches!(major_version(""), Err(IndexError::InvalidVersion)));
}

#[test]
fn major_of_all_v_segment_is_invalid() {
    assert!(matches!(major_version("vv.2.3"), Err(IndexError::InvalidVersion)));
}

#[test]
fn major_of_leading_dot_is_invalid() {
    assert!(matches!(major_version(".2.3"), Err(IndexError::InvalidVersion)));
}

#[test]
fn major_without_dots_takes_whole_string() {
    assert_eq!(major_version("v10").unwrap(), "10");
}

#[test]
fn major_strips_v_anywhere_in_segment() {
    assert_eq!(major_version("1v2v.9").unwrap(), "12");
}

use errortools::FatIOError;
use errortools::IoError;
use errortools::fat_io_wrap_std;
use errortools::tag_io_result;

#[test]
fn wrap_std_returns_success_value_unchanged() {
    let r: Result<u64, FatIOError> =
        fat_io_wrap_std(String::from("my_file.txt"), |_p: String| Ok(42u64));
    assert_eq!(r.ok(), Some(42u64));
}

#[test]
fn wrap_std_passes_the_path_to_the_operation() {
    let r: Result<String, FatIOError> =
        fat_io_wrap_std(String::from("my_file.txt"), |p: String| Ok(p));
    assert_eq!(r.ok(), Some(String::from("my_file.txt")));
}

#[test]
fn wrap_std_tags_a_failure_with_the_path() {
    let r: Result<u64, FatIOError> = fat_io_wrap_std(String::from("my_file.txt"), |_p: String| {
        Err(IoError::new(String::from("file not found")))
    });
    let e = match r {
        Ok(_) => panic!("the failure must be passed on"),
        Err(e) => e,
    };
    assert_eq!(e.source().message(), "file not found");
    assert_eq!(
        e.display_string(),
        "Operating on file 'my_file.txt' failed with error file not found"
    );
}

#[test]
fn wrap_std_keeps_the_path_even_when_the_operation_consumes_it() {
    let r: Result<u64, FatIOError> = fat_io_wrap_std(String::from("gone.txt"), |p: String| {
        drop(p);
        Err(IoError::new(String::from("interrupted")))
    });
    let e = r.err().expect("the failure must be passed on");
    assert_eq!(
        e.display_string(),
        "Operating on file 'gone.txt' failed with error interrupted"
    );
}

#[test]
fn from_std_io_err_keeps_both_parts() {
    let e = FatIOError::from_std_io_err(
        IoError::new(String::from("permission denied")),
        String::from("secret.txt"),
    );
    assert_eq!(e.source().message(), "permission denied");
    assert_eq!(
        e.display_string(),
        "Operating on file 'secret.txt' failed with error permission denied"
    );
}

#[test]
fn display_renders_the_fixed_sentence() {
    let e = FatIOError::from_std_io_err(
        IoError::new(String::from("file not found")),
        String::from("my_file.txt"),
    );
    assert_eq!(
        e.display_string(),
        "Operating on file 'my_file.txt' failed with error file not found"
    );
}

#[test]
fn display_with_replacement_character_in_the_path() {
    // A path whose platform form held invalid encoding arrives here
    // already lossily converted; the replacement characters render as
    // any other text does.
    let e = FatIOError::from_std_io_err(
        IoError::new(String::from("file not found")),
        String::from("bad\u{FFFD}name.txt"),
    );
    assert_eq!(
        e.display_string(),
        "Operating on file 'bad\u{FFFD}name.txt' failed with error file not found"
    );
}

#[test]
fn tag_io_result_leaves_a_success_alone() {
    let r: Result<&str, FatIOError> = tag_io_result(String::from("a.txt"), Ok("contents"));
    assert_eq!(r.ok(), Some("contents"));
}

#[test]
fn tag_io_result_tags_a_failure() {
    let r: Result<u64, FatIOError> = tag_io_result(
        String::from("a.txt"),
        Err(IoError::new(String::from("broken pipe"))),
    );
    let e = r.err().expect("the failure must be passed on");
    assert_eq!(e.source().message(), "broken pipe");
    assert_eq!(
        e.display_string(),
        "Operating on file 'a.txt' failed with error broken pipe"
    );
}

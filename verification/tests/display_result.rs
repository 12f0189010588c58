use display_more::display_result::{DisplayResult, DisplayResultExt};

#[test]
fn test_display_result() {
    let result = Result::<i32, i32>::Ok(1);
    assert_eq!(result.display().to_string(), "Ok(1)");

    let result = Result::<i32, i32>::Err(2);
    assert_eq!(result.display().to_string(), "Err(2)");
}

#[test]
fn display_result_of_mixed_types() {
    let ok = Result::<u8, &str>::Ok(42);
    assert_eq!(ok.display().to_string(), "Ok(42)");
    let err = Result::<u8, &str>::Err("error");
    assert_eq!(err.display().to_string(), "Err(error)");
    let empty = Result::<String, bool>::Ok(String::new());
    assert_eq!(empty.display().to_string(), "Ok()");
    let flag = Result::<String, bool>::Err(false);
    assert_eq!(flag.display().to_string(), "Err(false)");
}

#[test]
fn display_result_built_from_its_field() {
    let result = Result::<i64, i64>::Err(-5);
    assert_eq!(DisplayResult(&result).to_string(), "Err(-5)");
    assert_eq!(DisplayResult(&result).to_string(), result.display().to_string());
}

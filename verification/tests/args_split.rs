use roseline::args::shell_split;

#[test]
fn should_shell_split_normal() {
    let text = "lolka arg 1  'arg 2' 'arg 3'";
    let expected = ["lolka", "arg", "1", "arg 2", "arg 3"];
    let result = shell_split(text).expect("To parse");

    assert_eq!(result.len(), expected.len());
    assert_eq!(result, &expected);
    println!("{:?}", result);
}

#[test]
fn should_shell_split_bad_quotes() {
    let text = "lolka arg 1  'arg 2' \"arg 3";
    let result = shell_split(text);
    assert!(result.is_err())
}

#[test]
fn should_report_bad_quote_position() {
    let result = shell_split("ok \"broken");
    assert_eq!(result.unwrap_err(), "Badly quoted arguments after position 3");
}

#[test]
fn should_split_double_quoted_groups() {
    let result = shell_split("a \"b c\" d").expect("To parse");
    assert_eq!(result, &["a", "b c", "d"]);
}

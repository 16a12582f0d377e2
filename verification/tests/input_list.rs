use lidar_batch::inputs::split_input_list;

fn strings(items: &[&str]) -> Vec<String> {
    items.iter().map(|s| s.to_string()).collect()
}

#[test]
fn comma_separated_list_has_two_elements() {
    assert_eq!(split_input_list("a.zlidar,b.zlidar"), strings(&["a.zlidar", "b.zlidar"]));
}

#[test]
fn semicolon_separated_list_has_two_elements() {
    assert_eq!(split_input_list("a.zlidar;b.zlidar"), strings(&["a.zlidar", "b.zlidar"]));
}

#[test]
fn list_without_delimiter_has_one_element() {
    assert_eq!(split_input_list("a.zlidar"), strings(&["a.zlidar"]));
}

#[test]
fn semicolons_take_precedence_over_commas() {
    assert_eq!(split_input_list("a,b;c"), strings(&["a,b", "c"]));
}

#[test]
fn commas_split_only_without_semicolons() {
    assert_eq!(split_input_list("a,b,c"), strings(&["a", "b", "c"]));
}

#[test]
fn empty_argument_names_one_blank_token() {
    assert_eq!(split_input_list(""), strings(&[""]));
}

#[test]
fn trailing_delimiter_adds_a_blank_token() {
    assert_eq!(split_input_list("a.zlidar;"), strings(&["a.zlidar", ""]));
    assert_eq!(split_input_list(",a.zlidar"), strings(&["", "a.zlidar"]));
}

#[test]
fn tokens_are_trimmed_of_white_space() {
    assert_eq!(
        split_input_list("  file1.zlidar, file2.zlidar ,\tfile3.zlidar\n"),
        strings(&["file1.zlidar", "file2.zlidar", "file3.zlidar"])
    );
}

#[test]
fn tokens_lose_their_quotes() {
    assert_eq!(
        split_input_list("\"a.zlidar\"; 'b.zlidar'"),
        strings(&["a.zlidar", "b.zlidar"])
    );
}

#[test]
fn white_space_inside_quotes_is_trimmed_too() {
    assert_eq!(split_input_list("\" a.zlidar \""), strings(&["a.zlidar"]));
}

#[test]
fn quotes_inside_a_token_stay() {
    assert_eq!(split_input_list("it's.zlidar"), strings(&["it's.zlidar"]));
    assert_eq!(split_input_list(" 'a\"b.zlidar' ; c'd "), strings(&["a\"b.zlidar", "c'd"]));
}

#[test]
fn white_space_inside_a_token_stays() {
    assert_eq!(split_input_list("my file.zlidar;b"), strings(&["my file.zlidar", "b"]));
}

#[test]
fn unicode_white_space_is_trimmed() {
    assert_eq!(split_input_list("\u{00A0}a.zlidar\u{3000};\u{2003}b\u{0085}"), strings(&["a.zlidar", "b"]));
}

#[test]
fn token_of_only_quotes_and_spaces_is_blank() {
    assert_eq!(split_input_list("a; \"\" "), strings(&["a", ""]));
}

#[test]
fn number_of_tokens_is_one_more_than_delimiters() {
    let text = "a;b;;c;";
    let delimiters = text.chars().filter(|c| *c == ';').count();
    assert_eq!(split_input_list(text).len(), delimiters + 1);
    let text = "a,b,,c,";
    let delimiters = text.chars().filter(|c| *c == ',').count();
    assert_eq!(split_input_list(text).len(), delimiters + 1);
}

use rintty::command::{parse_command, CommandLine};

fn line(program: &str, args: &[&str]) -> CommandLine {
    CommandLine {
        program: program.to_string(),
        args: args.iter().map(|arg| arg.to_string()).collect(),
    }
}

#[test]
fn command_without_arguments() {
    assert_eq!(parse_command("cmatrix"), Some(line("cmatrix", &[])));
}

#[test]
fn command_with_arguments() {
    assert_eq!(parse_command("cmatrix -b -u 5"), Some(line("cmatrix", &["-b", "-u", "5"])));
}

#[test]
fn command_is_split_at_any_white_space() {
    assert_eq!(
        parse_command("  /usr/bin/top\t-d  1 \n"),
        Some(line("/usr/bin/top", &["-d", "1"]))
    );
}

#[test]
fn empty_command_asks_for_no_animation() {
    assert_eq!(parse_command(""), None);
    assert_eq!(parse_command("   \t\n"), None);
}

#[test]
fn command_line_from_words() {
    assert_eq!(CommandLine::from_words(Vec::new()), None);
    assert_eq!(CommandLine::from_words(vec!["a".to_string()]), Some(line("a", &[])));
    assert_eq!(
        CommandLine::from_words(vec!["a".to_string(), "b c".to_string(), "".to_string()]),
        Some(line("a", &["b c", ""]))
    );
}

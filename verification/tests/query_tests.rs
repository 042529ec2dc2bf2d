use dotnetvm::query::{current_version_line, sdk_versions};

#[test]
fn list_tokens_from_listing() {
    let out = sdk_versions("8.0.100 [/usr/share/dotnet/sdk]\n7.0.100 [/usr/share/dotnet/sdk]\n");
    assert_eq!(out, vec!["8.0.100".to_string(), "7.0.100".to_string()]);
}

#[test]
fn list_empty_output_gives_no_lines() {
    assert!(sdk_versions("").is_empty());
}

#[test]
fn list_skips_blank_and_whitespace_lines() {
    let out = sdk_versions("8.0.100 [a]\n\n   \t \n7.0.100 [b]\n");
    assert_eq!(out, vec!["8.0.100".to_string(), "7.0.100".to_string()]);
}

#[test]
fn list_handles_missing_trailing_newline() {
    assert_eq!(sdk_versions("9.0.101 [c]"), vec!["9.0.101".to_string()]);
}

#[test]
fn list_handles_crlf_line_ends() {
    let out = sdk_versions("8.0.100 [a]\r\n7.0.100\r\n");
    assert_eq!(out, vec!["8.0.100".to_string(), "7.0.100".to_string()]);
}

#[test]
fn list_token_after_leading_whitespace() {
    let out = sdk_versions("  6.0.400 [d]\n\t5.0.100\textra\n");
    assert_eq!(out, vec!["6.0.400".to_string(), "5.0.100".to_string()]);
}

#[test]
fn current_line_trims_the_version() {
    assert_eq!(
        current_version_line("8.0.100\n"),
        "Current dotnet version: 8.0.100"
    );
}

#[test]
fn current_line_takes_the_first_line_only() {
    assert_eq!(
        current_version_line("  8.0.100 \nsecond line\n"),
        "Current dotnet version: 8.0.100"
    );
}

#[test]
fn current_line_on_empty_output() {
    assert_eq!(current_version_line(""), "Current dotnet version: ");
}

#[test]
fn current_line_on_whitespace_output() {
    assert_eq!(current_version_line(" \t \r\n"), "Current dotnet version: ");
}

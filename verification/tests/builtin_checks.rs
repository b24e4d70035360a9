use codescan::{check_command_injection, check_sql_injection, check_xss, scan_code};

#[test]
fn xss_flagged_without_sanitizer() {
    assert!(check_xss("el.innerHTML = userInput;"));
}

#[test]
fn xss_not_flagged_with_sanitizer() {
    assert!(!check_xss("el.innerHTML = DOMPurify.sanitize(userInput);"));
}

#[test]
fn xss_needs_inner_html() {
    assert!(!check_xss("document.write(userInput);"));
    assert!(!check_xss(""));
}

#[test]
fn sql_keyword_uppercase() {
    assert!(check_sql_injection("SELECT * FROM users WHERE id = "));
}

#[test]
fn sql_keyword_lowercase() {
    assert!(check_sql_injection("select name from t"));
}

#[test]
fn sql_keyword_mixed_case() {
    assert!(check_sql_injection("DrOp TABLE students"));
    assert!(check_sql_injection("uNiOn all"));
}

#[test]
fn sql_keyword_unicode_fold() {
    // 'ſ' (long s) uppercases to 'S', so the fold contains "SELECT".
    assert!(check_sql_injection("ſelect * from t"));
    // 'ı' (dotless i) uppercases to 'I', so the fold contains "INSERT".
    assert!(check_sql_injection("ınsert into t"));
}

#[test]
fn sql_absent() {
    assert!(!check_sql_injection("nothing suspicious"));
    assert!(!check_sql_injection(""));
}

#[test]
fn command_exec_sync() {
    assert!(check_command_injection("child_process.execSync(cmd)"));
}

#[test]
fn command_eval() {
    assert!(check_command_injection("eval(x)"));
}

#[test]
fn command_names_are_case_sensitive() {
    assert!(!check_command_injection("EVAL(x)"));
    assert!(!check_command_injection("Spawn it"));
}

#[test]
fn command_absent() {
    assert!(!check_command_injection("harmless text"));
    assert!(!check_command_injection(""));
}

#[test]
fn scan_code_xss_only() {
    let findings = scan_code("el.innerHTML = userInput;");
    assert_eq!(findings.len(), 1);
    assert_eq!(findings[0].id, "xss");
    assert_eq!(findings[0].message, "Potential XSS vulnerability detected");
}

#[test]
fn scan_code_sanitized_is_clean() {
    let findings = scan_code("el.innerHTML = DOMPurify.sanitize(userInput);");
    assert!(findings.is_empty());
}

#[test]
fn scan_code_sql_concatenation() {
    let findings = scan_code("\"SELECT * FROM users WHERE id = \" + id");
    assert_eq!(findings.len(), 1);
    assert_eq!(findings[0].id, "sql_injection");
    assert_eq!(
        findings[0].message,
        "Potential SQL injection vulnerability detected"
    );
}

#[test]
fn scan_code_lowercase_sql() {
    let findings = scan_code("select name from t");
    assert_eq!(findings.len(), 1);
    assert_eq!(findings[0].id, "sql_injection");
}

#[test]
fn scan_code_command_only() {
    let findings = scan_code("child_process.execSync(cmd)");
    assert_eq!(findings.len(), 1);
    assert_eq!(findings[0].id, "command_injection");
    assert_eq!(
        findings[0].message,
        "Potential command injection vulnerability detected"
    );
}

#[test]
fn scan_code_clean_html() {
    let findings = scan_code("<p>hello world</p>");
    assert!(findings.is_empty());
}

#[test]
fn scan_code_reports_in_rule_order() {
    let findings = scan_code("el.innerHTML = eval(\"SELECT\")");
    assert_eq!(findings.len(), 3);
    assert_eq!(findings[0].id, "xss");
    assert_eq!(findings[1].id, "sql_injection");
    assert_eq!(findings[2].id, "command_injection");
}

#[test]
fn scan_code_keeps_relative_order_of_two() {
    let findings = scan_code("query = \"DROP TABLE a\"; spawn(task);");
    assert_eq!(findings.len(), 2);
    assert_eq!(findings[0].id, "sql_injection");
    assert_eq!(findings[1].id, "command_injection");
}

#[test]
fn scan_code_repeated_calls_agree() {
    let a = scan_code("el.innerHTML = eval(q)");
    let b = scan_code("el.innerHTML = eval(q)");
    assert_eq!(a, b);
}

#[test]
fn non_ascii_text_is_handled() {
    assert!(check_xss("要素.innerHTML = 入力;"));
    assert!(!check_sql_injection("何もない"));
    assert!(scan_code("何もない").is_empty());
}

use engram_core::intents::{count_test_cases, extract_test_intents, humanize, is_test_file, test_file_candidates};

#[test]
fn test_detects_js_ts_test_files() {
    assert!(is_test_file("src/Auth.test.ts"));
    assert!(is_test_file("src/Auth.spec.ts"));
    assert!(is_test_file("src/Auth.test.js"));
    assert!(is_test_file("src/Auth.spec.js"));
    assert!(is_test_file("src/Auth.test.tsx"));
    assert!(is_test_file("src/Auth.spec.tsx"));
    assert!(is_test_file("src/Auth.test.jsx"));
    assert!(is_test_file("src/Auth.spec.jsx"));
}

#[test]
fn test_detects_go_test_files() {
    assert!(is_test_file("pkg/auth/auth_test.go"));
    assert!(is_test_file("handler_test.go"));
}

#[test]
fn test_detects_python_test_files() {
    assert!(is_test_file("tests/test_auth.py"));
    assert!(is_test_file("tests/auth_test.py"));
}

#[test]
fn test_detects_rust_test_dirs() {
    assert!(is_test_file("src/tests/integration.rs"));
    assert!(is_test_file("crate/tests/helpers.rs"));
}

#[test]
fn test_rejects_non_test_files() {
    assert!(!is_test_file("src/Auth.ts"));
    assert!(!is_test_file("src/main.rs"));
    assert!(!is_test_file("pkg/auth/auth.go"));
    assert!(!is_test_file("src/utils.py"));
    assert!(!is_test_file("README.md"));
}

#[test]
fn test_extracts_js_it_and_test_blocks() {
    let content = r#"
describe("Auth", () => {
  it('should login with valid credentials', () => {});
  it("should reject invalid password", () => {});
  test('should handle OAuth callback', () => {});
});
"#;
    let intents = extract_test_intents(content, "src/Auth.test.ts");
    assert_eq!(intents.len(), 3);
    assert_eq!(intents[0].title, "should login with valid credentials");
    assert_eq!(intents[1].title, "should reject invalid password");
    assert_eq!(intents[2].title, "should handle OAuth callback");
}

#[test]
fn test_extracts_rust_test_fns() {
    let content = r#"
#[cfg(test)]
mod tests {
    #[test]
    fn test_auth_flow() {
        assert!(true);
    }

    #[test]
    fn test_session_expiry() {
        assert!(true);
    }
}
"#;
    let intents = extract_test_intents(content, "src/tests/auth.rs");
    assert_eq!(intents.len(), 2);
    assert_eq!(intents[0].title, "auth flow");
    assert_eq!(intents[1].title, "session expiry");
}

#[test]
fn test_extracts_python_test_defs() {
    let content = r#"
def test_login_success(client):
    pass

def test_login_failure(client):
    pass

def helper_function():
    pass
"#;
    let intents = extract_test_intents(content, "tests/test_auth.py");
    assert_eq!(intents.len(), 2);
    assert_eq!(intents[0].title, "login success");
    assert_eq!(intents[1].title, "login failure");
}

#[test]
fn test_extracts_go_test_funcs() {
    let content = r#"
func TestLoginSuccess(t *testing.T) {}
func TestSessionExpiry(t *testing.T) {}
func helperFunc() {}
"#;
    let intents = extract_test_intents(content, "auth_test.go");
    assert_eq!(intents.len(), 2);
    assert_eq!(intents[0].title, "LoginSuccess");
    assert_eq!(intents[1].title, "SessionExpiry");
}

#[test]
fn test_caps_at_five() {
    let content = r#"
describe("Many tests", () => {
  it('test 1', () => {});
  it('test 2', () => {});
  it('test 3', () => {});
  it('test 4', () => {});
  it('test 5', () => {});
  it('test 6', () => {});
  it('test 7', () => {});
});
"#;
    let intents = extract_test_intents(content, "src/Auth.test.ts");
    assert_eq!(intents.len(), 5);
}

#[test]
fn test_returns_empty_for_non_test_extension() {
    let content = "some random content";
    let intents = extract_test_intents(content, "src/Auth.txt");
    assert!(intents.is_empty());
}

#[test]
fn test_detects_js_ts_in_dunder_tests_dir() {
    assert!(is_test_file("src/__tests__/Auth.tsx"));
    assert!(is_test_file("src/__tests__/Auth.ts"));
    assert!(is_test_file("src/__tests__/Auth.test.tsx"));
    assert!(is_test_file("src/components/__tests__/Button.jsx"));
}

#[test]
fn test_rejects_non_js_in_dunder_tests_dir() {
    assert!(!is_test_file("src/__tests__/readme.md"));
}

#[test]
fn test_count_uncapped() {
    let content = r#"
describe("Many tests", () => {
  it('test 1', () => {});
  it('test 2', () => {});
  it('test 3', () => {});
  it('test 4', () => {});
  it('test 5', () => {});
  it('test 6', () => {});
  it('test 7', () => {});
});
"#;
    let count = count_test_cases(content, "src/Auth.test.ts");
    assert_eq!(count, 7);
}

#[test]
fn test_count_python() {
    let content = r#"
def test_a(): pass
def test_b(): pass
def test_c(): pass
def helper(): pass
"#;
    let count = count_test_cases(content, "test_foo.py");
    assert_eq!(count, 3);
}

#[test]
fn test_count_go() {
    let content = r#"
func TestA(t *testing.T) {}
func TestB(t *testing.T) {}
func helper() {}
"#;
    let count = count_test_cases(content, "foo_test.go");
    assert_eq!(count, 2);
}

#[test]
fn test_count_rust() {
    let content = r#"
#[test]
fn test_a() {}
#[test]
fn test_b() {}
fn helper() {}
"#;
    let count = count_test_cases(content, "tests/foo.rs");
    assert_eq!(count, 2);
}

#[test]
fn test_count_unknown_extension() {
    let count = count_test_cases("some content", "README.md");
    assert_eq!(count, 0);
}

#[test]
fn test_count_empty_content() {
    let count = count_test_cases("", "src/Auth.test.ts");
    assert_eq!(count, 0);
}

#[test]
fn test_extracts_js_backtick_test_names() {
    let content = r#"
describe("Auth", () => {
  it(`should handle template literal name`, () => {});
  test(`should also work with test()`, () => {});
});
"#;
    let intents = extract_test_intents(content, "src/Auth.test.ts");
    assert_eq!(intents.len(), 2);
    assert_eq!(intents[0].title, "should handle template literal name");
    assert_eq!(intents[1].title, "should also work with test()");
}

#[test]
fn test_counts_backtick_test_names() {
    let content = r#"
describe("Mixed", () => {
  it('single quoted', () => {});
  it("double quoted", () => {});
  it(`backtick quoted`, () => {});
  test(`another backtick`, () => {});
});
"#;
    let count = count_test_cases(content, "src/Auth.test.ts");
    assert_eq!(count, 4);
}

#[test]
fn test_mixed_quote_styles_in_extraction() {
    let content = r#"
describe("Suite", () => {
  it('single', () => {});
  it("double", () => {});
  it(`backtick`, () => {});
});
"#;
    let intents = extract_test_intents(content, "src/Auth.test.ts");
    assert_eq!(intents.len(), 3);
    assert_eq!(intents[0].title, "single");
    assert_eq!(intents[1].title, "double");
    assert_eq!(intents[2].title, "backtick");
}

#[test]
fn test_humanize_names() {
    assert_eq!(humanize("test_login_success"), "login success");
    assert_eq!(humanize("TestLoginSuccess"), "LoginSuccess");
    assert_eq!(humanize("plain_name"), "plain name");
}

#[test]
fn test_candidates_for_source_file() {
    let cands = test_file_candidates("src/Auth.tsx");
    assert!(cands.contains(&"src/Auth.test.tsx".to_string()));
    assert!(cands.contains(&"src/Auth.spec.ts".to_string()));
    assert!(cands.contains(&"src/__tests__/Auth.test.tsx".to_string()));
    for i in 0..cands.len() {
        for j in (i + 1)..cands.len() {
            assert_ne!(cands[i], cands[j], "candidates must not repeat");
        }
    }

    // Root-level Python files look in the root tests directory too, and
    // the overlapping candidates collapse.
    let py = test_file_candidates("auth.py");
    assert!(py.contains(&"test_auth.py".to_string()));
    assert!(py.contains(&"auth_test.py".to_string()));
    assert!(py.contains(&"tests/test_auth.py".to_string()));

    // A test file gets no candidates of its own.
    assert!(test_file_candidates("src/Auth.test.tsx").is_empty());
}

use kubit_core::script::{quote_token, Script};

fn script_of(v: &[&str]) -> Script {
    Script::from_vec(v.iter().map(|s| s.to_string()).collect())
}

#[test]
fn plain_tokens_are_unquoted() {
    assert_eq!(script_of(&["kubectl", "apply", "-f", "/tmp/x"]).render(), "kubectl apply -f /tmp/x");
}

#[test]
fn spaces_and_metacharacters_are_quoted() {
    let s = script_of(&["echo", "a b", "$HOME", "x;y", "*"]);
    assert_eq!(s.render(), "echo 'a b' '$HOME' 'x;y' '*'");
}

#[test]
fn single_quote_is_escaped() {
    assert_eq!(quote_token("it's"), "'it'\\''s'");
}

#[test]
fn empty_token_is_an_empty_word() {
    assert_eq!(script_of(&["a", "", "b"]).render(), "a '' b");
}

#[test]
fn empty_script_renders_empty() {
    assert_eq!(script_of(&[]).render(), "");
}

#[test]
fn tokens_keep_order() {
    let s = script_of(&["b", "a", "c"]);
    assert_eq!(s.tokens(), &vec!["b".to_string(), "a".to_string(), "c".to_string()]);
}

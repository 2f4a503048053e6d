use whirled::assets::{bytes_eq_ignore_case, match_component, LR2fs};

fn b(s: &str) -> Vec<u8> {
    s.as_bytes().to_vec()
}

#[test]
fn byte_strings_compare_without_ascii_case() {
    assert!(bytes_eq_ignore_case(&b("Game Data"), &b("gAME dATA")));
    assert!(!bytes_eq_ignore_case(&b("data"), &b("date")));
    assert!(!bytes_eq_ignore_case(&b("data"), &b("dat")));
    assert!(bytes_eq_ignore_case(&b(""), &b("")));
}

#[test]
fn component_resolves_to_first_case_insensitive_match() {
    let entries = vec![b("Readme.TXT"), b("GAME DATA"), b("game data"), b("models")];
    assert_eq!(match_component(&entries, &b("Game Data")), Some(1));
    assert_eq!(match_component(&entries, &b("MODELS")), Some(3));
    assert_eq!(match_component(&entries, &b("missing")), None);
    assert_eq!(match_component(&Vec::new(), &b("anything")), None);
}

#[test]
fn base_name_is_the_last_component() {
    let fs = LR2fs::new(vec![b("home"), b("player"), b("LEGO Racers 2")]);
    assert_eq!(fs.base_name(), Some(&b("LEGO Racers 2")));
    assert_eq!(fs.depth(), 3);
    let root = LR2fs::new(Vec::new());
    assert_eq!(root.base_name(), None);
}

use termcall::names::{check_name, is_all_numeric, is_taken, judge_name, trim, whitespace, NameError};

fn online(names: &[&str]) -> Vec<String> {
    names.iter().map(|n| n.to_string()).collect()
}

#[test]
fn whitespace_is_what_the_standard_library_says() {
    for code in 0..=0x10FFFFu32 {
        if let Some(c) = char::from_u32(code) {
            assert_eq!(whitespace(c), c.is_whitespace(), "U+{:04X}", code);
        }
    }
}

#[test]
fn trim_is_what_the_standard_library_does() {
    let samples = [
        "",
        " ",
        "\n",
        "Alice",
        "Alice\n",
        "  Alice  ",
        "\t Alice Smith \r\n",
        " \u{3000}Zoë\u{a0}\u{2003} ",
        "a b",
        "   \u{85}  ",
        "x\u{200b}",
        "\u{feff}x",
    ];
    for sample in samples {
        assert_eq!(trim(sample), sample.trim(), "{:?}", sample);
    }
}

#[test]
fn numerals_alone() {
    assert!(is_all_numeric("123"));
    assert!(is_all_numeric("٣"));
    assert!(is_all_numeric("½"));
    assert!(is_all_numeric(""));
    assert!(!is_all_numeric("12a"));
    assert!(!is_all_numeric("a12"));
    assert!(!is_all_numeric("1 2"));
    assert!(!is_all_numeric("-1"));
}

#[test]
fn taken_names() {
    let names = online(&["Alice", "Bob"]);
    assert!(is_taken(&"Alice".to_string(), &names));
    assert!(is_taken(&"Bob".to_string(), &names));
    assert!(!is_taken(&"alice".to_string(), &names));
    assert!(!is_taken(&"Bo".to_string(), &names));
    assert!(!is_taken(&"Alice".to_string(), &vec![]));
}

#[test]
fn good_name_is_handed_back_trimmed() {
    assert_eq!(check_name("Alice\n", &online(&["Bob"])), Ok("Alice".to_string()));
    assert_eq!(check_name("  Al ice \r\n", &vec![]), Ok("Al ice".to_string()));
    assert_eq!(check_name("agent007", &vec![]), Ok("agent007".to_string()));
}

#[test]
fn empty_name_is_refused() {
    assert_eq!(check_name("", &vec![]), Err(NameError::Empty));
    assert_eq!(check_name("\n", &vec![]), Err(NameError::Empty));
    assert_eq!(check_name("  \t \r\n", &online(&[""])), Err(NameError::Empty));
}

#[test]
fn name_of_numerals_is_refused() {
    assert_eq!(check_name("12345\n", &vec![]), Err(NameError::AllNumeric));
    assert_eq!(check_name(" 7 ", &online(&["7"])), Err(NameError::AllNumeric));
}

#[test]
fn name_in_use_is_refused() {
    assert_eq!(check_name("Alice\n", &online(&["Bob", "Alice"])), Err(NameError::Taken));
    assert_eq!(check_name(" Bob ", &online(&["Bob"])), Err(NameError::Taken));
}

#[test]
fn verdict_follows_the_order_of_the_tests() {
    let names = online(&["", "Bob"]);
    assert_eq!(judge_name(&String::new(), true, &names), Err(NameError::Empty));
    assert_eq!(judge_name(&String::new(), false, &names), Err(NameError::Empty));
    assert_eq!(judge_name(&"Bob".to_string(), true, &names), Err(NameError::AllNumeric));
    assert_eq!(judge_name(&"Bob".to_string(), false, &names), Err(NameError::Taken));
    assert_eq!(judge_name(&"Eve".to_string(), false, &names), Ok(()));
    assert_eq!(judge_name(&"Eve".to_string(), true, &names), Err(NameError::AllNumeric));
}

use bloom_bot::glossary::Term;

fn term(name: &str, aliases: Option<Vec<&str>>) -> Term {
    Term {
        guild_id: 1,
        name: name.to_string(),
        meaning: String::new(),
        usage: None,
        links: None,
        category: None,
        aliases: aliases.map(|a| a.iter().map(|s| s.to_string()).collect()),
    }
}

#[test]
fn names_and_aliases_are_sorted_without_case() {
    let terms = vec![
        term("Metta", Some(vec!["maitri"])),
        term("anatta", None),
        term("Bodhi", Some(vec!["awakening"])),
    ];
    assert_eq!(Term::names_and_aliases(terms), vec!["anatta", "awakening", "Bodhi", "maitri", "Metta"]);
}

#[test]
fn equal_names_keep_their_order() {
    let terms = vec![term("abc", None), term("ABC", Some(vec!["Abc"]))];
    assert_eq!(Term::names_and_aliases(terms), vec!["ABC", "abc", "Abc"]);
}

#[test]
fn no_terms_give_one_empty_name() {
    assert_eq!(Term::names_and_aliases(Vec::new()), vec![String::new()]);
    assert_eq!(Term::names_and_aliases(vec![term("", Some(vec!["x"]))]), vec![String::new()]);
}

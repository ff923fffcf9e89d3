use bloom_bot::glossary::{
    autocomplete, one_liner, split_comma_list, term_not_found, update_names, Term, TermModal,
};
use bloom_bot::pagination::{PageEntry, PageRow, PageType};

fn term(name: &str, meaning: &str) -> Term {
    Term {
        guild_id: 1,
        name: name.to_string(),
        meaning: meaning.to_string(),
        usage: None,
        links: None,
        category: None,
        aliases: None,
    }
}

#[test]
fn one_liner_cuts_at_the_first_line_break() {
    assert_eq!(
        one_liner("Metta is loving-kindness.\nIt is one of the four immeasurables."),
        "Metta is loving-kindness.\n\n*Use </glossary info:1135659962308243479> for more information.*"
    );
    assert_eq!(one_liner("A single line."), "A single line.");
    assert_eq!(
        one_liner("\nstarts with a break"),
        "\n\n*Use </glossary info:1135659962308243479> for more information.*"
    );
}

#[test]
fn comma_lists_are_split_and_trimmed() {
    assert_eq!(
        split_comma_list(" https://a.example ,https://b.example,  "),
        vec!["https://a.example".to_string(), "https://b.example".to_string(), String::new()]
    );
    assert_eq!(split_comma_list(""), vec![String::new()]);
    assert_eq!(split_comma_list("\u{3000}jhana\t"), vec!["jhana".to_string()]);
}

#[test]
fn modal_round_trip() {
    let modal = TermModal {
        meaning: "Concentration.".to_string(),
        usage: Some("Samadhi deepens.".to_string()),
        category: None,
        links: Some("a, b".to_string()),
        aliases: Some("concentration ,  collectedness".to_string()),
    };
    let t = Term::from_modal(7, "Samadhi", &modal);
    assert_eq!(t.guild_id, 7);
    assert_eq!(t.name, "Samadhi");
    assert_eq!(t.links, Some(vec!["a".to_string(), "b".to_string()]));
    assert_eq!(
        t.aliases,
        Some(vec!["concentration".to_string(), "collectedness".to_string()])
    );
    let back = TermModal::from_term(&t);
    assert_eq!(back.meaning, "Concentration.");
    assert_eq!(back.usage.as_deref(), Some("Samadhi deepens."));
    assert_eq!(back.category, None);
    assert_eq!(back.links.as_deref(), Some("a, b"));
    assert_eq!(back.aliases.as_deref(), Some("concentration, collectedness"));
}

#[test]
fn terms_are_listed_by_name() {
    let t = term("Dukkha", "Unsatisfactoriness.");
    assert_eq!(t.title(PageType::Standard), "__Dukkha__");
    assert_eq!(t.body(), "Unsatisfactoriness.");
    let e = PageEntry::from_row(&t);
    assert_eq!(e.alternate_title, "__Dukkha__");
}

#[test]
fn not_found_without_candidates() {
    let r = term_not_found("xyz", &vec![]);
    assert_eq!(r.title, "Term not found");
    assert_eq!(
        r.description,
        "The term `xyz` was not found in the glossary. If you believe it should be included, use </glossary suggest:1135659962308243479> to suggest it for addition."
    );
    assert!(r.ephemeral);
    assert!(r.field.is_none() && r.footer.is_none());
}

#[test]
fn not_found_with_one_candidate() {
    let r = term_not_found("meta", &vec![term("Metta", "Loving-kindness.\nMore.")]);
    assert_eq!(r.title, "Metta");
    assert_eq!(
        r.description,
        "Loving-kindness.\n\n*Use </glossary info:1135659962308243479> for more information.*"
    );
    assert_eq!(
        r.footer.as_deref(),
        Some("*You searched for 'meta'. The closest term available was 'Metta'.")
    );
    assert!(!r.ephemeral);
}

#[test]
fn not_found_with_many_candidates_lists_five() {
    let names = ["a", "b", "c", "d", "e", "f"];
    let terms: Vec<Term> = names.iter().map(|n| term(n, "m")).collect();
    let r = term_not_found("q", &terms);
    assert_eq!(r.description, "The term `q` was not found in the glossary.");
    let (name, value) = r.field.unwrap();
    assert_eq!(name, "Did you mean one of these?");
    assert_eq!(
        value,
        "`a`\n`b`\n`c`\n`d`\n`e`\n\n*Try using </glossary search:1135659962308243479> to take advantage of a more powerful search, or use </glossary suggest:1135659962308243479> to suggest the term for addition to the glossary.*"
    );
    assert!(r.ephemeral);
}

#[test]
fn autocomplete_ignores_ascii_case() {
    let names = vec!["Anatta".to_string(), "anicca".to_string(), "Brahmavihara".to_string()];
    assert_eq!(
        autocomplete(&names, "AN"),
        vec!["Anatta".to_string(), "anicca".to_string()]
    );
    assert_eq!(autocomplete(&names, ""), names);
    assert!(autocomplete(&names, "Anattas").is_empty());
}

#[test]
fn names_are_stored_last_first() {
    let terms = vec![term("a", ""), term("b", ""), term("c", "")];
    assert_eq!(
        update_names(&terms),
        vec!["c".to_string(), "b".to_string(), "a".to_string()]
    );
}

use bloom_bot::glossary::{glossary_footer, glossary_pages, list_entry, page_text};

#[test]
fn glossary_list_entries() {
    let mut t = term("Anatta", "Not-self.");
    t.aliases = Some(vec!["Anatman".to_string(), "Non-self".to_string()]);
    assert_eq!(list_entry(&t), ("A".to_string(), "Anatta (Anatman, Non-self)".to_string()));
    let mut u = term("Bodhi", "Awakening.");
    u.aliases = Some(vec![]);
    assert_eq!(list_entry(&u), ("B".to_string(), "Bodhi".to_string()));
    assert_eq!(list_entry(&term("", "")), ("\0".to_string(), String::new()));
}

#[test]
fn glossary_pages_fill_from_the_end() {
    let entries: Vec<(String, String)> = ["e", "d", "c", "b", "a"]
        .iter()
        .map(|n| (n.to_uppercase(), n.to_string()))
        .collect();
    let pages = glossary_pages(entries, 2);
    let names: Vec<Vec<String>> = pages
        .iter()
        .map(|p| p.iter().map(|e| e.1.clone()).collect())
        .collect();
    assert_eq!(names, vec![vec!["a", "b"], vec!["c", "d"], vec!["e"]]);
}

#[test]
fn glossary_page_text_groups_by_letter() {
    let page = vec![
        ("A".to_string(), "Anatta".to_string()),
        ("A".to_string(), "Anicca".to_string()),
        ("B".to_string(), "Bodhi".to_string()),
    ];
    assert_eq!(
        page_text(&page, "</glossary info:1>"),
        "-# Terms in parentheses are aliases for the preceding term. Use </glossary info:1> with any term or alias to read the full entry.\n\n-# A\n- Anatta\n- Anicca\n-# B\n- Bodhi\n** **\n\n"
    );
    assert_eq!(glossary_footer(0, 3, 15, 40), "Page 1 of 3・Terms 1-15・Total Terms: 40");
    assert_eq!(glossary_footer(2, 3, 15, 40), "Page 3 of 3・Terms 31-40・Total Terms: 40");
}

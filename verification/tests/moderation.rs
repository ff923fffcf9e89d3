use bloom_bot::erase::{
    erase_list_page_type, erase_menu_action, erase_notices, erase_reason, message_excerpt,
    thread_greeting, thread_notification, DefaultReasons, EraseMenuAction,
};
use bloom_bot::pagination::PageType;

#[test]
fn menu_values_select_reasons() {
    assert_eq!(erase_menu_action("cancel"), EraseMenuAction::Cancel);
    assert_eq!(erase_menu_action("custom"), EraseMenuAction::Custom);
    assert_eq!(
        erase_menu_action("Rule10Politics"),
        EraseMenuAction::Reason(DefaultReasons::Rule10Politics)
    );
    assert_eq!(erase_menu_action("None"), EraseMenuAction::Reason(DefaultReasons::NoReason));
    assert_eq!(erase_menu_action("whatever"), EraseMenuAction::Reason(DefaultReasons::NoReason));
    for r in [
        DefaultReasons::Rule1BeKind,
        DefaultReasons::Rule9IPRights,
        DefaultReasons::MentalHealth,
        DefaultReasons::ExcessiveVenting,
    ] {
        assert_eq!(erase_menu_action(r.value()), EraseMenuAction::Reason(r));
    }
}

#[test]
fn reasons_and_labels() {
    assert_eq!(DefaultReasons::NoReason.response(), "No reason provided.");
    assert_eq!(DefaultReasons::NoReason.name(), "None");
    assert_eq!(DefaultReasons::Rule1BeKind.name(), "Rule 1: Be kind");
    assert_eq!(
        DefaultReasons::Rule9IPRights.response(),
        "Sharing content that violates intellectual property rights is prohibited by the Discord Community Guidelines."
    );
    assert_eq!(erase_reason(Some("spam".to_string()), Some(DefaultReasons::Rule1BeKind)), "spam");
    assert_eq!(erase_reason(None, Some(DefaultReasons::Rule9IPRights)), DefaultReasons::Rule9IPRights.response());
    assert_eq!(erase_reason(None, None), "No reason provided.");
}

#[test]
fn long_content_is_cut() {
    assert_eq!(message_excerpt("short"), "short");
    let long = "a".repeat(1019);
    let cut = message_excerpt(&long);
    assert_eq!(cut.chars().count(), 1018);
    assert!(cut.ends_with("..."));
    // 400 three-byte characters: 1200 bytes but fewer than 1015 characters.
    let wide = "€".repeat(400);
    assert_eq!(message_excerpt(&wide), format!("{wide}..."));
    let exact = "a".repeat(1018);
    assert_eq!(message_excerpt(&exact), exact);
}

#[test]
fn erase_notice_texts() {
    let n = erase_notices(10, 20, 0, "spam", Some("https://cdn/x.png"), "hello", "mod", 30);
    assert_eq!(n.log.title, "Message Deleted");
    assert_eq!(
        n.log.description,
        "**Channel**: <#10>\n**Author**: <@20> (1 erase recorded)\n**Reason**: spam"
    );
    assert_eq!(n.log.footer.as_deref(), Some("Deleted by mod (30)"));
    assert_eq!(n.dm.title, "A message you sent has been deleted.");
    assert_eq!(n.dm.description, "**Reason**: spam");
    let expected = vec![
        ("Attachment".to_string(), "https://cdn/x.png".to_string()),
        ("Message Content".to_string(), "```hello```".to_string()),
    ];
    assert_eq!(n.log.fields, expected);
    assert_eq!(n.dm.fields, expected);
    let again = erase_notices(10, 20, 2, "spam", None, "", "mod", 30);
    assert!(again.log.description.contains("(3 erases recorded)"));
    assert!(again.dm.fields.is_empty());
    let thread = thread_notification(n.dm);
    assert_eq!(
        thread.footer.as_deref(),
        Some("If you have any questions or concerns regarding this action, please contact staff via ModMail.")
    );
    assert_eq!(thread_greeting(20), "Private notification for <@20>:");
    assert_eq!(erase_list_page_type(true), PageType::Alternate);
    assert_eq!(erase_list_page_type(false), PageType::Standard);
}

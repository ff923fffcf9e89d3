use bloom_bot::help::{
    autocomplete_command, group_by_key, help_settings, CommandInfo, ContextMenuKind, Help, HelpReply,
    SubcommandInfo, HELP_FOOTER,
};

fn command(name: &str, category: Option<&str>, description: Option<&str>) -> CommandInfo {
    CommandInfo {
        name: name.to_string(),
        context_menu_name: None,
        description: description.map(|d| d.to_string()),
        help_text: None,
        category: category.map(|c| c.to_string()),
        requires_permissions: false,
        context_menu: None,
        guild_only: true,
        hide_in_help: false,
        subcommands: Vec::new(),
    }
}

fn sub(name: &str, description: Option<&str>) -> SubcommandInfo {
    SubcommandInfo { name: name.to_string(), description: description.map(|d| d.to_string()), help_text: None }
}

fn commands() -> Vec<CommandInfo> {
    let add = command("add", Some("Meditation Tracking"), Some("Add a meditation entry"));
    let mut help = command("help", Some("Utilities"), Some("Show the help menu"));
    help.guild_only = false;
    let mut stats = command("stats", Some("Meditation Tracking"), Some("Show stats for a user or the server"));
    stats.subcommands = vec![sub("user", Some("Show stats for a user")), sub("server", None)];
    let mut pick = command("pickwinner", Some("Admin Commands"), Some("Pick a winner for the monthly challenge"));
    pick.requires_permissions = true;
    let mut secret = command("mahabharata", Some("Secret"), Some("Manage community book club events"));
    secret.hide_in_help = true;
    let mut mv = command("Move Message", Some("Context Menu Commands"), Some("Move a message"));
    mv.context_menu = Some(ContextMenuKind::Message);
    mv.context_menu_name = Some("Move Message".to_string());
    mv.requires_permissions = true;
    let mut who = command("whois", Some("Context Menu Commands"), None);
    who.context_menu = Some(ContextMenuKind::User);
    who.context_menu_name = Some("Who Is".to_string());
    who.guild_only = false;
    vec![add, help, stats, pick, secret, mv, who]
}

#[test]
fn help_menu_lists_commands_by_category_with_padding() {
    let h = help_settings(false);
    let e = h.all_commands(&commands(), true);
    assert_eq!(e.title, None);
    assert_eq!(e.description, None);
    assert_eq!(e.footer.as_deref(), Some(HELP_FOOTER));
    assert_eq!(e.fields.len(), 3);
    assert_eq!(e.fields[0].0, "Meditation Tracking");
    assert_eq!(
        e.fields[0].1,
        format!(
            "```/add{}Add a meditation entry\n/stats{}Show stats for a user or the server\n```",
            " ".repeat(9),
            " ".repeat(7)
        )
    );
    assert_eq!(e.fields[1].0, "Utilities");
    assert_eq!(e.fields[1].1, format!("```/help{}Show the help menu\n```", " ".repeat(8)));
    assert_eq!(e.fields[2].0, "Context Menu Commands");
    assert_eq!(e.fields[2].1, "```Who Is (on user)\n>> \n```");
}

#[test]
fn staff_see_restricted_commands() {
    let h = help_settings(true);
    let e = h.all_commands(&commands(), true);
    assert_eq!(e.fields.len(), 4);
    assert_eq!(e.fields[2].0, "Admin Commands");
    assert_eq!(e.fields[2].1, format!("```/pickwinner{}Pick a winner for the monthly challenge\n```", "  "));
    assert_eq!(
        e.fields[3].1,
        "```Move Message (on message)\n>> Move a message\nWho Is (on user)\n>> \n```"
    );
}

#[test]
fn direct_messages_leave_out_guild_commands() {
    let mut h = help_settings(false);
    h.show_context_menu_commands = false;
    let e = h.all_commands(&commands(), false);
    assert_eq!(e.fields.len(), 1);
    assert_eq!(e.fields[0].0, "Utilities");
}

#[test]
fn commands_without_category_are_listed_under_other() {
    let h = Help::new("footer", true, false, false, "Secret");
    let mut c = command("ping", None, None);
    c.guild_only = false;
    let e = h.all_commands(&vec![c], true);
    assert_eq!(e.fields, vec![("Other".to_string(), format!("```/ping{}\n```", " ".repeat(8)))]);
    assert_eq!(e.footer.as_deref(), Some("footer"));
}

#[test]
fn help_for_one_command_lists_subcommands() {
    let h = help_settings(false);
    match h.single_command(&commands(), "STATS") {
        HelpReply::Found(e) => {
            assert_eq!(e.title.as_deref(), Some("/stats"));
            assert_eq!(e.description.as_deref(), Some("Show stats for a user or the server\n\nSubcommands:"));
            assert_eq!(
                e.fields,
                vec![
                    ("/stats user".to_string(), "```Show stats for a user```".to_string()),
                    ("/stats server".to_string(), "```No help available```".to_string()),
                ]
            );
            assert_eq!(e.footer, None);
        },
        HelpReply::NotFound(_) => panic!("stats exists"),
    }
}

#[test]
fn hidden_or_unknown_commands_are_not_found() {
    let h = help_settings(false);
    for name in ["xyz", "mahabharata", "pickwinner", "move message"] {
        match h.single_command(&commands(), name) {
            HelpReply::NotFound(t) => {
                assert_eq!(t, format!("<:mminfo:1279517292455264359> Command not found: `{name}`"))
            },
            HelpReply::Found(_) => panic!("{name} should not be shown"),
        }
    }
    let staff = help_settings(true);
    match staff.single_command(&commands(), "move message") {
        HelpReply::Found(e) => {
            assert_eq!(e.title.as_deref(), Some("Move Message"));
            assert_eq!(e.description.as_deref(), Some("Move a message"));
            assert!(e.fields.is_empty());
        },
        HelpReply::NotFound(_) => panic!("staff see context menu commands"),
    }
}

#[test]
fn completion_offers_usable_commands_starting_with_the_text() {
    let cs = commands();
    assert_eq!(autocomplete_command(&cs, true, false, "s"), vec!["stats".to_string()]);
    assert_eq!(autocomplete_command(&cs, true, false, "S"), Vec::<String>::new());
    assert_eq!(autocomplete_command(&cs, false, false, "h"), vec!["help".to_string()]);
    assert_eq!(autocomplete_command(&cs, true, false, "p"), Vec::<String>::new());
    assert_eq!(autocomplete_command(&cs, true, true, "p"), vec!["pickwinner".to_string()]);
    assert_eq!(autocomplete_command(&cs, true, true, "m"), Vec::<String>::new());
}

#[test]
fn completion_offers_at_most_twenty_five_names() {
    let cs: Vec<CommandInfo> = (0..30).map(|i| command(&format!("c{i}"), Some("Utilities"), None)).collect();
    let r = autocomplete_command(&cs, true, false, "c");
    assert_eq!(r.len(), 25);
    assert_eq!(r[0], "c0");
    assert_eq!(r[24], "c24");
}

#[test]
fn grouping_keeps_first_appearance_order() {
    let keys = vec![Some("b".to_string()), None, Some("a".to_string()), Some("b".to_string()), None];
    let items = vec![0usize, 1, 2, 3, 4];
    let g = group_by_key(&keys, &items);
    assert_eq!(
        g,
        vec![(Some("b".to_string()), vec![0, 3]), (None, vec![1, 4]), (Some("a".to_string()), vec![2])]
    );
}

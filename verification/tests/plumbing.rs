use minecraft_bot::buttons::{
    button_custom_id, loading_plan, route_button, route_interaction, ButtonAction, ComponentKind,
    Interaction, Route,
};
use minecraft_bot::json::{json_string, read_json_string};
use minecraft_bot::commands::{bryce, code_block, insult, whitelist_command, INSULT_COUNT};
use minecraft_bot::config::{config_files, text_le_exec, FoundFile};
use minecraft_bot::database::connection_plan;
use minecraft_bot::rcon::{RconCall, RconOutcome, RconStep};
use minecraft_bot::reply::{not_registered_embed, EmbedColour};

fn component(id: &str) -> Interaction {
    Interaction::Component { custom_id: id.to_string() }
}

fn button(id: Option<&str>) -> ComponentKind {
    ComponentKind::Button { custom_id: id.map(|s| s.to_string()) }
}

fn found(path: &str, name: Option<&str>, ext: Option<&str>) -> FoundFile {
    FoundFile {
        path: path.to_string(),
        file_name: name.map(|s| s.to_string()),
        extension: ext.map(|s| s.to_string()),
    }
}

fn send_new_code(p: &str) -> ButtonAction {
    ButtonAction::SendNewCode { player: p.to_string() }
}

#[test]
fn custom_ids_carry_json_fields() {
    assert_eq!(button_custom_id(&send_new_code("Steve")), "send_new_code;{\"player\":\"Steve\"}");
    assert_eq!(button_custom_id(&ButtonAction::EnterCode), "enter_code;{}");
    let confirm = ButtonAction::ConfirmSmite { player: "Alex".to_string(), payer: "Steve".to_string() };
    assert_eq!(button_custom_id(&confirm), "confirm_smite;{\"player\":\"Alex\",\"payer\":\"Steve\"}");
    let cancel = ButtonAction::CancelSmite { player: "Alex".to_string() };
    assert_eq!(button_custom_id(&cancel), "cancel_smite;{\"player\":\"Alex\"}");
}

#[test]
fn json_strings_are_escaped() {
    assert_eq!(json_string("a\"b\\c\n\u{1}"), "\"a\\\"b\\\\c\\n\\u0001\"");
    assert_eq!(json_string("\t\r\u{8}\u{c}\u{1f}é"), "\"\\t\\r\\b\\f\\u001fé\"");
    assert_eq!(json_string(""), "\"\"");
    assert_eq!(
        button_custom_id(&send_new_code("a\"b")),
        "send_new_code;{\"player\":\"a\\\"b\"}"
    );
}

#[test]
fn json_strings_read_back() {
    let t = json_string("x\"y\\z\n\u{2}");
    match read_json_string(&t, 1) {
        Some((s, end)) => {
            assert_eq!(s, "x\"y\\z\n\u{2}");
            assert_eq!(end, t.chars().count());
        }
        None => panic!("not read back"),
    }
    assert!(read_json_string("\"open", 1).is_none());
    assert!(read_json_string("\"bad\\q\"", 1).is_none());
}

#[test]
fn routing_gives_back_the_fields() {
    for name in ["Steve", "a;b", "quote\"d", "back\\slash", "new\nline", ""] {
        let id = button_custom_id(&send_new_code(name));
        match route_interaction(&component(&id)) {
            Route::SendNewCode(p) => assert_eq!(p, name),
            other => panic!("unexpected {other:?}"),
        }
        let id = button_custom_id(&ButtonAction::CancelSmite { player: name.to_string() });
        match route_interaction(&component(&id)) {
            Route::CancelSmite(p) => assert_eq!(p, name),
            other => panic!("unexpected {other:?}"),
        }
        let confirm = ButtonAction::ConfirmSmite { player: name.to_string(), payer: "Payer".to_string() };
        match route_interaction(&component(&button_custom_id(&confirm))) {
            Route::ConfirmSmite { player, payer } => {
                assert_eq!(player, name);
                assert_eq!(payer, "Payer");
            }
            other => panic!("unexpected {other:?}"),
        }
    }
    let id = button_custom_id(&ButtonAction::EnterCode);
    assert!(matches!(route_interaction(&component(&id)), Route::EnterCode));
}

#[test]
fn routing_of_other_interactions() {
    assert!(matches!(route_interaction(&component("no separator")), Route::Unhandled));
    assert!(matches!(route_interaction(&component("whatever;{}")), Route::Unhandled));
    assert!(matches!(route_interaction(&component("enter_code;@@@")), Route::BadButtonData));
    assert!(matches!(
        route_interaction(&component("send_new_code;{\"player\":1}")),
        Route::BadButtonData
    ));
    assert!(matches!(
        route_interaction(&component("confirm_smite;{\"player\":\"a\"}")),
        Route::BadButtonData
    ));
    let modal = Interaction::Modal { custom_id: "enter_code_modal".to_string() };
    assert!(matches!(route_interaction(&modal), Route::EnterCodeModal));
    let other_modal = Interaction::Modal { custom_id: "x".to_string() };
    assert!(matches!(route_interaction(&other_modal), Route::Unhandled));
    assert!(matches!(route_interaction(&Interaction::Other), Route::Unhandled));
}

#[test]
fn route_button_by_handler_name() {
    match route_button("send_new_code", "{\"player\":\"Steve\"}") {
        Route::SendNewCode(p) => assert_eq!(p, "Steve"),
        other => panic!("unexpected {other:?}"),
    }
    assert!(matches!(route_button("enter_code", "{}"), Route::EnterCode));
    match route_button("cancel_smite", "{\"player\":\"Alex\"}") {
        Route::CancelSmite(p) => assert_eq!(p, "Alex"),
        other => panic!("unexpected {other:?}"),
    }
    match route_button("confirm_smite", "{\"player\":\"Alex\",\"payer\":\"Steve\"}") {
        Route::ConfirmSmite { player, payer } => {
            assert_eq!(player, "Alex");
            assert_eq!(payer, "Steve");
        }
        other => panic!("unexpected {other:?}"),
    }
    assert!(matches!(route_button("unknown", "{}"), Route::Unhandled));
    assert!(matches!(route_button("send_new_code", "{}"), Route::BadButtonData));
    assert!(matches!(route_button("enter_code", "{ }"), Route::BadButtonData));
}

#[test]
fn loading_plan_marks_the_pressed_button() {
    let rows = vec![
        vec![button(Some("a")), button(Some("b")), button(None)],
        vec![ComponentKind::SelectMenu],
        vec![],
        vec![button(Some("b"))],
        vec![ComponentKind::InputText, button(Some("b"))],
    ];
    let plan = loading_plan(&rows, "b");
    assert_eq!(plan.len(), 2);
    assert_eq!(plan[0].row, 0);
    assert_eq!(plan[0].loading, vec![false, true, false]);
    assert_eq!(plan[1].row, 3);
    assert_eq!(plan[1].loading, vec![true]);
}

#[test]
fn whitelist_texts() {
    assert_eq!(whitelist_command("Steve"), "whitelist add Steve");
    assert_eq!(code_block("Added Steve to the whitelist"), "```\nAdded Steve to the whitelist\n```");
}

#[test]
fn bryce_insults_come_from_the_list() {
    assert_eq!(INSULT_COUNT, 20);
    assert_eq!(insult(0), "Bryce smells.");
    assert_eq!(insult(19), "Bryce brings his own tupperware to buffets.");
    let all: Vec<&str> = (0..INSULT_COUNT).map(insult).collect();
    for _ in 0..50 {
        assert!(all.contains(&bryce()));
    }
}

#[test]
fn not_registered_embed_text() {
    let e = not_registered_embed();
    assert_eq!(e.title, "Not Registered");
    assert_eq!(
        e.description,
        "You need to link your Discord account to a Minecraft account before using this command.\n\nRun `/register_minecraft` to get started."
    );
    assert_eq!(e.colour, EmbedColour::Red);
}

#[test]
fn rcon_reconnects_once_on_io_error() {
    let mut call = RconCall::new();
    assert_eq!(call.after(RconOutcome::IoError), RconStep::ReconnectAndRetry);
    assert_eq!(call.after(RconOutcome::IoError), RconStep::Finish);
    let mut call = RconCall::new();
    assert_eq!(call.after(RconOutcome::Reply), RconStep::Finish);
    let mut call = RconCall::new();
    assert_eq!(call.after(RconOutcome::OtherError), RconStep::Finish);
}

#[test]
fn connection_plan_defaults() {
    let p = connection_plan("postgres://x".to_string(), None, None);
    assert_eq!(p.url, "postgres://x");
    assert_eq!((p.max_connections, p.min_connections), (3, 2));
    assert_eq!((p.connect_timeout_secs, p.acquire_timeout_secs), (10, 10));
    assert_eq!((p.idle_timeout_secs, p.max_lifetime_secs), (15, 15));
    assert!(!p.sqlx_logging);
    assert_eq!(p.schema, "public");
    assert_eq!(p.search_path, None);
    assert_eq!(p.create_schema, None);
}

#[test]
fn connection_plan_with_schema_and_pool() {
    let p = connection_plan("u".to_string(), Some("rewards".to_string()), Some(1));
    assert_eq!((p.max_connections, p.min_connections), (1, 1));
    assert_eq!(p.search_path, Some("rewards,public".to_string()));
    assert_eq!(p.create_schema, Some("CREATE SCHEMA IF NOT EXISTS rewards".to_string()));
    let q = connection_plan("u".to_string(), Some("public".to_string()), Some(10));
    assert_eq!((q.max_connections, q.min_connections), (10, 2));
    assert_eq!(q.search_path, None);
}

#[test]
fn config_files_are_filtered_and_sorted() {
    let files = vec![
        found("./config/discord-b.yaml", Some("discord-b.yaml"), Some("yaml")),
        found("./config/other.yaml", Some("other.yaml"), Some("yaml")),
        found("./config/sub/discord-a.yaml", Some("discord-a.yaml"), Some("yaml")),
        found("./config/discord-c.yml", Some("discord-c.yml"), Some("yml")),
        found("./config/discord-", Some("discord-"), None),
        found("./config/a/discord-z.yaml", Some("discord-z.yaml"), Some("yaml")),
    ];
    assert_eq!(
        config_files(&files, "discord-", "yaml"),
        vec![
            "./config/a/discord-z.yaml".to_string(),
            "./config/discord-b.yaml".to_string(),
            "./config/sub/discord-a.yaml".to_string(),
        ]
    );
}

#[test]
fn text_order_matches_string_order() {
    let samples = ["", "a", "ab", "b", "B", "é", "z", "aa", "ä"];
    for x in samples {
        for y in samples {
            assert_eq!(text_le_exec(x, y), x <= y, "{x} {y}");
        }
    }
}

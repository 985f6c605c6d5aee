use minecraft_bot::buttons::ButtonAction;
use minecraft_bot::link::{
    discord_id_value, submitted_code, LinkAction, LinkEvent, LinkFlow, LinkStage, ModalComponent,
    PendingCode,
};
use minecraft_bot::reply::EmbedColour;
use minecraft_bot::registration::{
    code_from_draws, code_message_command, draw_code, enter_code_modal, random_code,
    registration_prompt, CodeStore, StoreAction, StoreEvent, StoreStage, CODE_CHARSET_LEN,
    REGISTRATION_CODE_LENGTH,
};

fn is_code(s: &str) -> bool {
    s.chars().count() == 4 && s.chars().all(|c| c.is_ascii_uppercase() || c.is_ascii_digit())
}

fn input(id: &str, value: Option<&str>) -> ModalComponent {
    ModalComponent::InputText { custom_id: id.to_string(), value: value.map(|v| v.to_string()) }
}

#[test]
fn random_codes_are_four_upper_case_alphanumerics() {
    assert_eq!(REGISTRATION_CODE_LENGTH, 4);
    for _ in 0..200 {
        let c = random_code();
        assert!(is_code(&c), "bad code {c}");
    }
}

#[test]
fn enter_code_modal_asks_for_four_characters() {
    let m = enter_code_modal();
    assert_eq!(m.custom_id, "enter_code_modal");
    assert_eq!(m.title, "Enter your registration code");
    assert_eq!(m.input_label, "Code");
    assert_eq!(m.input_id, "code");
    assert_eq!(m.placeholder, "XXXX");
    assert_eq!((m.min_length, m.max_length), (4, 4));
}

#[test]
fn registration_prompt_describes_next_steps() {
    let p = registration_prompt("Steve");
    assert_eq!(p.embed.title, "Minecraft Registration");
    assert_eq!(
        p.embed.description,
        "A registration code has been messaged in game to the Minecraft account `Steve`."
    );
    assert_eq!(p.embed.fields.len(), 2);
    assert_eq!(p.embed.fields[0].name, "Next steps");
    assert_eq!(p.embed.fields[1].name, "Haven't joined the server yet?");
    assert_eq!(p.embed.colour, EmbedColour::DarkGreen);
    assert_eq!(p.buttons.len(), 2);
    assert_eq!(p.buttons[0].label, "Send New Code");
    match &p.buttons[0].action {
        ButtonAction::SendNewCode { player } => assert_eq!(player, "Steve"),
        other => panic!("unexpected {other:?}"),
    }
    assert_eq!(p.buttons[1].label, "Enter Code");
    assert!(matches!(p.buttons[1].action, ButtonAction::EnterCode));
    assert_eq!(p.buttons[0].action.handler_name(), "send_new_code");
    assert_eq!(p.buttons[1].action.handler_name(), "enter_code");
}

#[test]
fn codes_come_from_the_draws() {
    assert_eq!(code_from_draws(&vec![0, 25, 26, 35]), "AZ09");
    assert_eq!(code_from_draws(&vec![1, 1, 2, 3]), "BBCD");
    for _ in 0..50 {
        let d = draw_code();
        assert_eq!(d.len(), 4);
        assert!(d.iter().all(|&i| i < CODE_CHARSET_LEN));
        assert!(is_code(&code_from_draws(&d)));
    }
}

#[test]
fn code_message_is_a_tell_command() {
    assert_eq!(code_message_command("Steve", "AB12"), "tell Steve Your Discord registration code is AB12");
}

#[test]
fn code_store_retries_taken_codes_and_inserts() {
    let (mut store, first) = CodeStore::start("Steve");
    assert!(matches!(first, StoreAction::Draw));
    match store.step(StoreEvent::Drawn(vec![0, 0, 0, 0])) {
        StoreAction::FindCode(c) => assert_eq!(c, "AAAA"),
        other => panic!("unexpected {other:?}"),
    }
    assert!(matches!(store.step(StoreEvent::CodeTaken(true)), StoreAction::Draw));
    match store.step(StoreEvent::Drawn(vec![1, 26, 27, 2])) {
        StoreAction::FindCode(c) => assert_eq!(c, "B01C"),
        other => panic!("unexpected {other:?}"),
    }
    match store.step(StoreEvent::CodeTaken(false)) {
        StoreAction::FindPendingFor(p) => assert_eq!(p, "Steve"),
        other => panic!("unexpected {other:?}"),
    }
    match store.step(StoreEvent::ExistingRow(None)) {
        StoreAction::Insert { code, player } => {
            assert_eq!(code, "B01C");
            assert_eq!(player, "Steve");
        }
        other => panic!("unexpected {other:?}"),
    }
    match store.step(StoreEvent::Written) {
        StoreAction::Deliver(c) => assert_eq!(c, "tell Steve Your Discord registration code is B01C"),
        other => panic!("unexpected {other:?}"),
    }
    match store.step(StoreEvent::Delivered) {
        StoreAction::Finished(c) => assert_eq!(c, "B01C"),
        other => panic!("unexpected {other:?}"),
    }
    assert!(matches!(store.stage, StoreStage::Done));
}

#[test]
fn code_store_updates_existing_row() {
    let (mut store, _) = CodeStore::start("Alex");
    match store.step(StoreEvent::Drawn(vec![35, 34, 33, 32])) {
        StoreAction::FindCode(c) => assert_eq!(c, "9876"),
        other => panic!("unexpected {other:?}"),
    }
    let _ = store.step(StoreEvent::CodeTaken(false));
    match store.step(StoreEvent::ExistingRow(Some(42))) {
        StoreAction::UpdateCode { row, code } => {
            assert_eq!(row, 42);
            assert_eq!(code, "9876");
        }
        other => panic!("unexpected {other:?}"),
    }
    match store.step(StoreEvent::Written) {
        StoreAction::Deliver(c) => assert_eq!(c, "tell Alex Your Discord registration code is 9876"),
        other => panic!("unexpected {other:?}"),
    }
}

#[test]
fn submitted_code_is_trimmed_and_upper_cased() {
    let rows = vec![
        vec![ModalComponent::Other, input("other", Some("nope"))],
        vec![input("code", None), input("code", Some("  ab1c \n")), input("code", Some("ZZZZ"))],
    ];
    assert_eq!(submitted_code(&rows), "AB1C");
    let empty: Vec<Vec<ModalComponent>> = vec![vec![input("code", None)]];
    assert_eq!(submitted_code(&empty), "");
}

#[test]
fn discord_ids_are_stored_as_signed() {
    assert_eq!(discord_id_value(0), 0);
    assert_eq!(discord_id_value(123456789012345678), 123456789012345678);
    assert_eq!(discord_id_value(u64::MAX), -1);
    assert_eq!(discord_id_value(1u64 << 63), i64::MIN);
}

#[test]
fn unknown_code_is_answered_as_invalid() {
    let rows = vec![vec![input("code", Some("zzzz"))]];
    let (mut flow, first) = LinkFlow::start(submitted_code(&rows), 7);
    match first {
        LinkAction::FindPending(c) => assert_eq!(c, "ZZZZ"),
        other => panic!("unexpected {other:?}"),
    }
    match flow.step(LinkEvent::Pending(None)) {
        LinkAction::Reply(t) => assert_eq!(
            t,
            "That code is invalid or has expired. Run `/register_minecraft` again to get a new one."
        ),
        other => panic!("unexpected {other:?}"),
    }
    assert!(matches!(flow.stage, LinkStage::Done));
}

#[test]
fn known_code_links_a_new_user_and_consumes_the_code() {
    let rows = vec![vec![input("code", Some("ab12"))]];
    let (mut flow, _) = LinkFlow::start(submitted_code(&rows), 99);
    let pending = PendingCode { id: 5, code: "AB12".to_string(), player: "Steve".to_string() };
    match flow.step(LinkEvent::Pending(Some(pending))) {
        LinkAction::FindUser(d) => assert_eq!(d, 99),
        other => panic!("unexpected {other:?}"),
    }
    match flow.step(LinkEvent::User(None)) {
        LinkAction::AddUser { discord_id, player } => {
            assert_eq!(discord_id, 99);
            assert_eq!(player, "Steve");
        }
        other => panic!("unexpected {other:?}"),
    }
    match flow.step(LinkEvent::Linked) {
        LinkAction::DeletePending(id) => assert_eq!(id, 5),
        other => panic!("unexpected {other:?}"),
    }
    match flow.step(LinkEvent::Consumed) {
        LinkAction::Reply(t) => assert_eq!(
            t,
            "You're registered! Your Discord account is now linked to Minecraft username `Steve`."
        ),
        other => panic!("unexpected {other:?}"),
    }
}

#[test]
fn known_code_updates_an_existing_user() {
    let rows = vec![vec![input("code", Some("AB12"))]];
    let (mut flow, _) = LinkFlow::start(submitted_code(&rows), 99);
    let pending = PendingCode { id: 5, code: "AB12".to_string(), player: "Alex".to_string() };
    let _ = flow.step(LinkEvent::Pending(Some(pending)));
    match flow.step(LinkEvent::User(Some(77))) {
        LinkAction::SetAccount { user, player } => {
            assert_eq!(user, 77);
            assert_eq!(player, "Alex");
        }
        other => panic!("unexpected {other:?}"),
    }
}

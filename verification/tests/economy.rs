use minecraft_bot::buttons::ButtonAction;
use minecraft_bot::economy::{
    balance_after_lookup, balance_command, balance_display, balance_reply, charge_command,
    dollar_amount_text, smite_cancelled_embed, smite_command, smite_error_embed, smite_prompt,
    BalanceReading, BalanceStep, SmiteAction, SmiteEvent, SmiteFlow, SmitePrompt, SmiteStage,
    SMITE_COST,
};
use minecraft_bot::reply::{Embed, EmbedColour};

fn shown(a: &SmiteAction) -> &Embed {
    match a {
        SmiteAction::Show(e) => e,
        SmiteAction::Rcon(c) => panic!("expected an embed, got the command {c}"),
    }
}

fn command(a: &SmiteAction) -> &str {
    match a {
        SmiteAction::Rcon(c) => c.as_str(),
        SmiteAction::Show(e) => panic!("expected a command, got {e:?}"),
    }
}

#[test]
fn balance_display_pulls_out_the_dollar_part() {
    assert_eq!(balance_display("Balance of Steve: $50"), "$50");
    assert_eq!(balance_display("Balance of Steve: $ 1,050.25 \n"), "$1,050.25");
    assert_eq!(balance_display("  Player not found  "), "Player not found");
    assert_eq!(balance_display("a$b$ 3"), "$3");
}

#[test]
fn dollar_amount_text_strips_separators() {
    assert_eq!(dollar_amount_text("Balance of Steve: $50"), Some("50".to_string()));
    assert_eq!(
        dollar_amount_text("Balance of Steve: $1,050.50 "),
        Some("1050.50".to_string())
    );
    assert_eq!(dollar_amount_text("Player not found"), None);
    assert_eq!(dollar_amount_text("$"), Some(String::new()));
}

#[test]
fn rcon_commands_are_spelled_out() {
    assert_eq!(SMITE_COST, 25);
    assert_eq!(balance_command("Steve"), "balance Steve");
    assert_eq!(smite_command("Alex"), "smite Alex");
    assert_eq!(charge_command("Steve"), "eco take Steve 25");
}

#[test]
fn balance_lookup_without_account_is_not_registered() {
    match balance_after_lookup(None) {
        BalanceStep::NotRegistered(e) => {
            assert_eq!(e.title, "Not Registered");
            assert_eq!(e.colour, EmbedColour::Red);
            assert!(e.fields.is_empty());
        }
        other => panic!("unexpected {other:?}"),
    }
}

#[test]
fn balance_lookup_with_account_asks_the_server() {
    match balance_after_lookup(Some("Steve".to_string())) {
        BalanceStep::Ask { player, command } => {
            assert_eq!(player, "Steve");
            assert_eq!(command, "balance Steve");
        }
        other => panic!("unexpected {other:?}"),
    }
}

#[test]
fn balance_reply_shows_the_amount() {
    let e = balance_reply("Steve", "Balance of Steve: $50");
    assert_eq!(e.title, "Balance");
    assert_eq!(e.description, "Balance for `Steve`");
    assert_eq!(e.fields.len(), 1);
    assert_eq!(e.fields[0].name, "Balance");
    assert_eq!(e.fields[0].value, "$50");
    assert!(!e.fields[0].inline);
    assert_eq!(e.colour, EmbedColour::Gold);
}

#[test]
fn smite_prompt_asks_for_confirmation() {
    match smite_prompt("Alex", Some("Steve".to_string())) {
        SmitePrompt::Confirm(p) => {
            assert_eq!(p.embed.title, "Confirm Smite");
            assert_eq!(
                p.embed.description,
                "Are you sure you want to smite `Alex`? This will charge your linked account (`Steve`) $25 if it succeeds."
            );
            assert_eq!(p.embed.colour, EmbedColour::Orange);
            assert_eq!(p.buttons.len(), 2);
            assert_eq!(p.buttons[0].label, "Smite");
            assert!(p.buttons[0].danger);
            match &p.buttons[0].action {
                ButtonAction::ConfirmSmite { player, payer } => {
                    assert_eq!(player, "Alex");
                    assert_eq!(payer, "Steve");
                }
                other => panic!("unexpected {other:?}"),
            }
            assert_eq!(p.buttons[1].label, "Cancel");
            assert!(!p.buttons[1].danger);
            match &p.buttons[1].action {
                ButtonAction::CancelSmite { player } => assert_eq!(player, "Alex"),
                other => panic!("unexpected {other:?}"),
            }
        }
        other => panic!("unexpected {other:?}"),
    }
    assert!(matches!(smite_prompt("Alex", None), SmitePrompt::NotRegistered(_)));
}

#[test]
fn cancelled_and_error_embeds() {
    let c = smite_cancelled_embed("Alex");
    assert_eq!(c.title, "Smite Cancelled");
    assert_eq!(c.description, "Smiting `Alex` was cancelled.");
    assert_eq!(c.colour, EmbedColour::LightGrey);
    let e = smite_error_embed("boom");
    assert_eq!(e.title, "Smite Failed");
    assert_eq!(e.description, "boom");
    assert_eq!(e.colour, EmbedColour::Red);
}

#[test]
fn smite_with_unreadable_balance_fails() {
    let (mut flow, first) = SmiteFlow::start("Alex", "Steve");
    assert_eq!(first, "balance Steve");
    let a = flow.step(SmiteEvent::Balance(BalanceReading::Unreadable));
    let e = shown(&a);
    assert_eq!(e.title, "Smite Failed");
    assert_eq!(
        e.description,
        "Could not determine `Steve`'s balance. Have you joined the server yet?"
    );
    assert!(matches!(flow.stage, SmiteStage::Done));
}

#[test]
fn smite_with_too_little_money_fails() {
    let (mut flow, _) = SmiteFlow::start("Alex", "Steve");
    let a = flow.step(SmiteEvent::Balance(BalanceReading::TooLow { shown: "12.50".to_string() }));
    assert_eq!(
        shown(&a).description,
        "You can't afford to smite `Alex` - `Steve` only has $12.50 and smiting costs $25."
    );
}

#[test]
fn smite_error_reply_is_not_charged() {
    let (mut flow, _) = SmiteFlow::start("Alex", "Steve");
    let a = flow.step(SmiteEvent::Balance(BalanceReading::Enough));
    assert_eq!(command(&a), "smite Alex");
    let a = flow.step(SmiteEvent::Reply("  Error: player not online \n".to_string()));
    let e = shown(&a);
    assert_eq!(e.title, "Smite Failed");
    assert_eq!(e.description, "Error: player not online");
    assert!(matches!(flow.stage, SmiteStage::Done));
}

#[test]
fn smite_success_charges_the_payer() {
    let (mut flow, _) = SmiteFlow::start("Alex", "Steve");
    let _ = flow.step(SmiteEvent::Balance(BalanceReading::Enough));
    let a = flow.step(SmiteEvent::Reply(" Alex was struck by lightning \n".to_string()));
    assert_eq!(command(&a), "eco take Steve 25");
    let a = flow.step(SmiteEvent::Reply("$25 has been taken from Steve".to_string()));
    let e = shown(&a);
    assert_eq!(e.title, "Smitten!");
    assert_eq!(e.description, "Alex was struck by lightning");
    assert_eq!(e.fields.len(), 1);
    assert_eq!(e.fields[0].name, "Charged");
    assert_eq!(e.fields[0].value, "$25 taken from `Steve`");
    assert!(e.fields[0].inline);
    assert_eq!(e.colour, EmbedColour::DarkPurple);
    assert!(matches!(flow.stage, SmiteStage::Done));
}

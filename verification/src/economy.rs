//! The economy commands: reading balances from RCON replies, and smiting a player for a fee.
use vstd::prelude::*;
use crate::buttons::{ActionModel, Button, ButtonAction, ButtonModel, Prompt};
use crate::number::{decimal, decimal_text};
use crate::reply::{add_field, embed, not_registered_embed, not_registered_spec, plain_embed, Embed, EmbedColour, EmbedModel, FieldModel};
use crate::text::{remove_char, rsplit_once, rsplit_once_spec, starts_with, trim, trim_spec, without_char};

verus! {

/// What smiting a player costs the account that asks for it, in game cash.
pub const SMITE_COST: u32 = 25;

/// The fee as the bot writes it.
pub open spec fn cost_text() -> Seq<char> {
    decimal(SMITE_COST as nat)
}

/// The amount to show from a reply such as `Balance of Steve: $50`: a dollar sign and the
/// trimmed text after the last `$`; with no `$`, the whole reply trimmed.
pub open spec fn balance_display_spec(response: Seq<char>) -> Seq<char> {
    match rsplit_once_spec(response, '$') {
        Some((_, amount)) => seq!['$'] + trim_spec(amount),
        None => trim_spec(response),
    }
}

/// Pulls the amount out of a balance reply, for display.
pub fn balance_display(response: &str) -> (r: String)
    ensures
        r@ == balance_display_spec(response@),
{
    proof {
        reveal_strlit("$");
    }
    match rsplit_once(response, '$') {
        Some((_, amount)) => String::from_str("$").concat(trim(amount.as_str()).as_str()),
        None => trim(response),
    }
}

/// The number text of a reply such as `Balance of Steve: $1,050.5`: the text after the last
/// `$`, trimmed and without thousands separators; nothing when the reply has no `$`.
pub open spec fn dollar_amount_spec(response: Seq<char>) -> Option<Seq<char>> {
    match rsplit_once_spec(response, '$') {
        Some((_, amount)) => Some(without_char(trim_spec(amount), ',')),
        None => None,
    }
}

/// Extracts the number text of a balance reply, ready to be read as a number.
pub fn dollar_amount_text(response: &str) -> (r: Option<String>)
    ensures
        r matches Some(t) ==> dollar_amount_spec(response@) == Some(t@),
        r is None ==> dollar_amount_spec(response@) is None,
{
    match rsplit_once(response, '$') {
        Some((_, amount)) => Some(remove_char(trim(amount.as_str()).as_str(), ',')),
        None => None,
    }
}

/// The RCON command that asks for a player's balance.
pub open spec fn balance_command_spec(player: Seq<char>) -> Seq<char> {
    "balance "@ + player
}

/// Builds the RCON command that asks for a player's balance.
pub fn balance_command(player: &str) -> (c: String)
    ensures
        c@ == balance_command_spec(player@),
{
    String::from_str("balance ").concat(player)
}

/// The RCON command that smites a player.
pub open spec fn smite_command_spec(target: Seq<char>) -> Seq<char> {
    "smite "@ + target
}

/// Builds the RCON command that smites a player.
pub fn smite_command(target: &str) -> (c: String)
    ensures
        c@ == smite_command_spec(target@),
{
    String::from_str("smite ").concat(target)
}

/// The RCON command that takes the fee from the payer.
pub open spec fn charge_command_spec(payer: Seq<char>) -> Seq<char> {
    "eco take "@ + payer + " "@ + cost_text()
}

/// Builds the RCON command that takes the fee from the payer.
pub fn charge_command(payer: &str) -> (c: String)
    ensures
        c@ == charge_command_spec(payer@),
{
    String::from_str("eco take ").concat(payer).concat(" ").concat(decimal_text(SMITE_COST).as_str())
}

/// The embed that shows a linked account's balance.
pub open spec fn balance_embed_spec(player: Seq<char>, amount: Seq<char>) -> EmbedModel {
    EmbedModel {
        title: "Balance"@,
        description: "Balance for `"@ + player + "`"@,
        fields: seq![FieldModel { name: "Balance"@, value: amount, inline: false }],
        colour: EmbedColour::Gold,
    }
}

/// Builds the embed that shows a linked account's balance.
pub fn balance_embed(player: &str, amount: &str) -> (e: Embed)
    ensures
        e@ == balance_embed_spec(player@, amount@),
{
    let description = String::from_str("Balance for `").concat(player).concat("`");
    let mut e = embed("Balance", description.as_str(), EmbedColour::Gold);
    add_field(&mut e, "Balance", amount, false);
    assert(e@.fields =~= seq![FieldModel { name: "Balance"@, value: amount@, inline: false }]);
    e
}

/// The embed that reports a failed smite.
pub open spec fn smite_error_spec(message: Seq<char>) -> EmbedModel {
    plain_embed("Smite Failed"@, message, EmbedColour::Red)
}

/// Builds the embed that reports a failed smite with the given message.
pub fn smite_error_embed(message: &str) -> (e: Embed)
    ensures
        e@ == smite_error_spec(message@),
{
    embed("Smite Failed", message, EmbedColour::Red)
}

/// The message when the payer's balance cannot be read.
pub open spec fn unreadable_balance_message(payer: Seq<char>) -> Seq<char> {
    "Could not determine `"@ + payer + "`'s balance. Have you joined the server yet?"@
}

/// The message when the payer cannot afford the fee; `shown` is the balance with two decimals.
pub open spec fn too_poor_message(target: Seq<char>, payer: Seq<char>, shown: Seq<char>) -> Seq<char> {
    "You can't afford to smite `"@ + target + "` - `"@ + payer + "` only has $"@ + shown
        + " and smiting costs $"@ + cost_text() + "."@
}

/// The embed that asks to confirm a smite.
pub open spec fn confirm_smite_spec(target: Seq<char>, payer: Seq<char>) -> EmbedModel {
    plain_embed(
        "Confirm Smite"@,
        "Are you sure you want to smite `"@ + target + "`? This will charge your linked account (`"@
            + payer + "`) $"@ + cost_text() + " if it succeeds."@,
        EmbedColour::Orange,
    )
}

/// Builds the embed that asks to confirm a smite of `target` paid by `payer`.
pub fn confirm_smite_embed(target: &str, payer: &str) -> (e: Embed)
    ensures
        e@ == confirm_smite_spec(target@, payer@),
{
    let description = String::from_str("Are you sure you want to smite `").concat(target).concat(
        "`? This will charge your linked account (`",
    ).concat(payer).concat("`) $").concat(decimal_text(SMITE_COST).as_str()).concat(
        " if it succeeds.",
    );
    embed("Confirm Smite", description.as_str(), EmbedColour::Orange)
}

/// The embed that shows a cancelled smite.
pub open spec fn smite_cancelled_spec(target: Seq<char>) -> EmbedModel {
    plain_embed("Smite Cancelled"@, "Smiting `"@ + target + "` was cancelled."@, EmbedColour::LightGrey)
}

/// Builds the embed that shows a cancelled smite of `target`.
pub fn smite_cancelled_embed(target: &str) -> (e: Embed)
    ensures
        e@ == smite_cancelled_spec(target@),
{
    let description = String::from_str("Smiting `").concat(target).concat("` was cancelled.");
    embed("Smite Cancelled", description.as_str(), EmbedColour::LightGrey)
}

/// The embed that shows a smite that went through and was paid for.
pub open spec fn smitten_spec(smite_text: Seq<char>, payer: Seq<char>) -> EmbedModel {
    EmbedModel {
        title: "Smitten!"@,
        description: smite_text,
        fields: seq![
            FieldModel {
                name: "Charged"@,
                value: "$"@ + cost_text() + " taken from `"@ + payer + "`"@,
                inline: true,
            },
        ],
        colour: EmbedColour::DarkPurple,
    }
}

/// Builds the embed that shows a smite that went through and was paid for.
pub fn smitten_embed(smite_text: &str, payer: &str) -> (e: Embed)
    ensures
        e@ == smitten_spec(smite_text@, payer@),
{
    let charged = String::from_str("$").concat(decimal_text(SMITE_COST).as_str()).concat(
        " taken from `",
    ).concat(payer).concat("`");
    let mut e = embed("Smitten!", smite_text, EmbedColour::DarkPurple);
    add_field(&mut e, "Charged", charged.as_str(), true);
    assert(e@.fields =~= smitten_spec(smite_text@, payer@).fields);
    e
}


/// What the bot learnt of the payer's balance. Reading the amount as a number and comparing
/// it with the fee happen outside the library, in floating point; `shown` is the balance with
/// two decimals.
#[derive(Debug)]
pub enum BalanceReading {
    Unreadable,
    TooLow { shown: String },
    Enough,
}

/// Where a confirmed smite stands.
#[derive(Debug)]
pub enum SmiteStage {
    AwaitingBalance,
    AwaitingSmite,
    AwaitingCharge { smite_text: String },
    Done,
}

/// A confirmed smite of `target`, paid for by `payer`.
#[derive(Debug)]
pub struct SmiteFlow {
    pub target: String,
    pub payer: String,
    pub stage: SmiteStage,
}

/// What came back.
#[derive(Debug)]
pub enum SmiteEvent {
    /// The payer's balance, read from the balance reply.
    Balance(BalanceReading),
    /// The server's reply to the last RCON command.
    Reply(String),
}

/// What to do next.
#[derive(Debug)]
pub enum SmiteAction {
    /// Run this RCON command.
    Rcon(String),
    /// Show this embed in place of the confirmation; the smite is over.
    Show(Embed),
}

/// The model of a smite stage.
pub enum SmiteStageModel {
    AwaitingBalance,
    AwaitingSmite,
    AwaitingCharge(Seq<char>),
    Done,
}

/// The model of a balance reading.
pub enum ReadingModel {
    Unreadable,
    TooLow(Seq<char>),
    Enough,
}

/// The model of a smite event.
pub enum SmiteEventModel {
    Balance(ReadingModel),
    Reply(Seq<char>),
}

/// The model of a smite action.
pub enum SmiteActionModel {
    Rcon(Seq<char>),
    Show(EmbedModel),
}

impl View for SmiteStage {
    type V = SmiteStageModel;

    open spec fn view(&self) -> SmiteStageModel {
        match self {
            SmiteStage::AwaitingBalance => SmiteStageModel::AwaitingBalance,
            SmiteStage::AwaitingSmite => SmiteStageModel::AwaitingSmite,
            SmiteStage::AwaitingCharge { smite_text } => SmiteStageModel::AwaitingCharge(smite_text@),
            SmiteStage::Done => SmiteStageModel::Done,
        }
    }
}

impl View for SmiteEvent {
    type V = SmiteEventModel;

    open spec fn view(&self) -> SmiteEventModel {
        match self {
            SmiteEvent::Balance(BalanceReading::Unreadable) => SmiteEventModel::Balance(ReadingModel::Unreadable),
            SmiteEvent::Balance(BalanceReading::TooLow { shown }) => SmiteEventModel::Balance(
                ReadingModel::TooLow(shown@),
            ),
            SmiteEvent::Balance(BalanceReading::Enough) => SmiteEventModel::Balance(ReadingModel::Enough),
            SmiteEvent::Reply(r) => SmiteEventModel::Reply(r@),
        }
    }
}

impl View for SmiteAction {
    type V = SmiteActionModel;

    open spec fn view(&self) -> SmiteActionModel {
        match self {
            SmiteAction::Rcon(c) => SmiteActionModel::Rcon(c@),
            SmiteAction::Show(e) => SmiteActionModel::Show(e@),
        }
    }
}

/// The answer fits what the smite waits for.
pub open spec fn smite_accepts(stage: SmiteStageModel, event: SmiteEventModel) -> bool {
    match stage {
        SmiteStageModel::AwaitingBalance => event is Balance,
        SmiteStageModel::AwaitingSmite => event is Reply,
        SmiteStageModel::AwaitingCharge(_) => event is Reply,
        SmiteStageModel::Done => false,
    }
}

/// One step of a smite: an unreadable or too small balance ends it with an error; with
/// enough, the target is smitten; a (trimmed) reply that starts with `Error` ends it with
/// that reply as the error; any other reply leads to charging the payer, after which the
/// smite is shown with the fee taken.
pub open spec fn smite_next(
    target: Seq<char>,
    payer: Seq<char>,
    stage: SmiteStageModel,
    event: SmiteEventModel,
) -> (SmiteStageModel, SmiteActionModel) {
    match (stage, event) {
        (SmiteStageModel::AwaitingBalance, SmiteEventModel::Balance(ReadingModel::Unreadable)) => (
            SmiteStageModel::Done,
            SmiteActionModel::Show(smite_error_spec(unreadable_balance_message(payer))),
        ),
        (SmiteStageModel::AwaitingBalance, SmiteEventModel::Balance(ReadingModel::TooLow(shown))) => (
            SmiteStageModel::Done,
            SmiteActionModel::Show(smite_error_spec(too_poor_message(target, payer, shown))),
        ),
        (SmiteStageModel::AwaitingBalance, SmiteEventModel::Balance(ReadingModel::Enough)) => (
            SmiteStageModel::AwaitingSmite,
            SmiteActionModel::Rcon(smite_command_spec(target)),
        ),
        (SmiteStageModel::AwaitingSmite, SmiteEventModel::Reply(r)) => {
            let t = trim_spec(r);
            if "Error"@.is_prefix_of(t) {
                (SmiteStageModel::Done, SmiteActionModel::Show(smite_error_spec(t)))
            } else {
                (SmiteStageModel::AwaitingCharge(t), SmiteActionModel::Rcon(charge_command_spec(payer)))
            }
        },
        (SmiteStageModel::AwaitingCharge(t), SmiteEventModel::Reply(_)) => (
            SmiteStageModel::Done,
            SmiteActionModel::Show(smitten_spec(t, payer)),
        ),
        _ => (SmiteStageModel::Done, SmiteActionModel::Rcon(Seq::empty())),
    }
}

impl SmiteFlow {
    /// Starts a confirmed smite of `target` paid by `payer`: the payer's balance is asked for
    /// first.
    pub fn start(target: &str, payer: &str) -> (r: (SmiteFlow, String))
        ensures
            r.0.target@ == target@,
            r.0.payer@ == payer@,
            r.0.stage@ == SmiteStageModel::AwaitingBalance,
            r.1@ == balance_command_spec(payer@),
    {
        (
            SmiteFlow {
                target: String::from_str(target),
                payer: String::from_str(payer),
                stage: SmiteStage::AwaitingBalance,
            },
            balance_command(payer),
        )
    }

    /// Takes what came back and says what to do next.
    pub fn step(&mut self, event: SmiteEvent) -> (a: SmiteAction)
        requires
            smite_accepts(old(self).stage@, event@),
        ensures
            final(self).target@ == old(self).target@,
            final(self).payer@ == old(self).payer@,
            (final(self).stage@, a@) == smite_next(
                old(self).target@,
                old(self).payer@,
                old(self).stage@,
                event@,
            ),
    {
        let mut stage = SmiteStage::Done;
        std::mem::swap(&mut stage, &mut self.stage);
        let (next, action) = match (stage, event) {
            (SmiteStage::AwaitingBalance, SmiteEvent::Balance(BalanceReading::Unreadable)) => {
                let message = String::from_str("Could not determine `").concat(self.payer.as_str()).concat(
                    "`'s balance. Have you joined the server yet?",
                );
                (SmiteStage::Done, SmiteAction::Show(smite_error_embed(message.as_str())))
            },
            (SmiteStage::AwaitingBalance, SmiteEvent::Balance(BalanceReading::TooLow { shown })) => {
                let message = String::from_str("You can't afford to smite `").concat(
                    self.target.as_str(),
                ).concat("` - `").concat(self.payer.as_str()).concat("` only has $").concat(
                    shown.as_str(),
                ).concat(" and smiting costs $").concat(decimal_text(SMITE_COST).as_str()).concat(
                    ".",
                );
                (SmiteStage::Done, SmiteAction::Show(smite_error_embed(message.as_str())))
            },
            (SmiteStage::AwaitingBalance, _) => (
                SmiteStage::AwaitingSmite,
                SmiteAction::Rcon(smite_command(self.target.as_str())),
            ),
            (SmiteStage::AwaitingSmite, SmiteEvent::Reply(r)) => {
                let t = trim(r.as_str());
                if starts_with(t.as_str(), "Error") {
                    (SmiteStage::Done, SmiteAction::Show(smite_error_embed(t.as_str())))
                } else {
                    (
                        SmiteStage::AwaitingCharge { smite_text: t },
                        SmiteAction::Rcon(charge_command(self.payer.as_str())),
                    )
                }
            },
            (SmiteStage::AwaitingCharge { smite_text }, _) => (
                SmiteStage::Done,
                SmiteAction::Show(smitten_embed(smite_text.as_str(), self.payer.as_str())),
            ),
            (_, _) => (SmiteStage::Done, SmiteAction::Rcon(String::new())),
        };
        self.stage = next;
        action
    }
}


/// A run of a smite of `target` paid by `payer`: `stages[0]` and `actions[0]` are what
/// `start` gave, and each event `events[i]`, accepted in `stages[i]`, leads to
/// `stages[i + 1]` and `actions[i + 1]`.
pub open spec fn smite_run(
    target: Seq<char>,
    payer: Seq<char>,
    stages: Seq<SmiteStageModel>,
    events: Seq<SmiteEventModel>,
    actions: Seq<SmiteActionModel>,
) -> bool {
    &&& stages.len() == events.len() + 1
    &&& actions.len() == events.len() + 1
    &&& stages[0] == SmiteStageModel::AwaitingBalance
    &&& actions[0] == SmiteActionModel::Rcon(balance_command_spec(payer))
    &&& forall|i: int|
        0 <= i < events.len() ==> smite_accepts(stages[i], #[trigger] events[i]) && (
        stages[i + 1],
        actions[i + 1],
    ) == smite_next(target, payer, stages[i], events[i])
}

/// In a run, the balance is awaited only at the start.
proof fn lemma_balance_awaited_only_first(
    target: Seq<char>,
    payer: Seq<char>,
    stages: Seq<SmiteStageModel>,
    events: Seq<SmiteEventModel>,
    actions: Seq<SmiteActionModel>,
    i: int,
)
    requires
        smite_run(target, payer, stages, events, actions),
        0 <= i < stages.len(),
        stages[i] == SmiteStageModel::AwaitingBalance,
    ensures
        i == 0,
{
    if i > 0 {
        let e = events[i - 1];
        assert(smite_accepts(stages[i - 1], e));
    }
}

/// Law: the payer is charged at most once, and only after the balance was found enough, the
/// target was smitten, and the smite's reply did not start with `Error`: the charge is the
/// third action of the run and no other.
pub proof fn lemma_charged_only_after_successful_smite(
    target: Seq<char>,
    payer: Seq<char>,
    stages: Seq<SmiteStageModel>,
    events: Seq<SmiteEventModel>,
    actions: Seq<SmiteActionModel>,
    k: int,
)
    requires
        smite_run(target, payer, stages, events, actions),
        0 <= k < actions.len(),
        actions[k] == SmiteActionModel::Rcon(charge_command_spec(payer)),
    ensures
        k == 2,
        events[0] == SmiteEventModel::Balance(ReadingModel::Enough),
        actions[1] == SmiteActionModel::Rcon(smite_command_spec(target)),
        events[1] matches SmiteEventModel::Reply(r) && !"Error"@.is_prefix_of(trim_spec(r)),
{
    reveal_strlit("balance ");
    reveal_strlit("eco take ");
    reveal_strlit("smite ");
    if k == 0 {
        assert(balance_command_spec(payer)[0] != charge_command_spec(payer)[0]);
    }
    assert(k > 0);
    let e = events[k - 1];
    assert(smite_accepts(stages[k - 1], e));
    if stages[k - 1] == SmiteStageModel::AwaitingBalance {
        assert(smite_command_spec(target)[0] != charge_command_spec(payer)[0]);
    }
    assert(stages[k - 1] == SmiteStageModel::AwaitingSmite);
    lemma_balance_awaited_only_first(target, payer, stages, events, actions, 0);
    assert(k - 1 > 0);
    let e2 = events[k - 2];
    assert(smite_accepts(stages[k - 2], e2));
    assert(stages[k - 2] == SmiteStageModel::AwaitingBalance);
    lemma_balance_awaited_only_first(target, payer, stages, events, actions, k - 2);
}

/// Law: when the balance is unreadable or too small, nobody is smitten and nothing is
/// charged: the run ends at once with an error embed.
pub proof fn lemma_no_smite_without_funds(
    target: Seq<char>,
    payer: Seq<char>,
    stages: Seq<SmiteStageModel>,
    events: Seq<SmiteEventModel>,
    actions: Seq<SmiteActionModel>,
)
    requires
        smite_run(target, payer, stages, events, actions),
        events.len() > 0,
        events[0] != SmiteEventModel::Balance(ReadingModel::Enough),
    ensures
        actions.len() == 2,
        actions[1] is Show,
{
    let e0 = events[0];
    assert(smite_accepts(stages[0], e0));
    if events.len() > 1 {
        let e1 = events[1];
        assert(smite_accepts(stages[1], e1));
        assert(false);
    }
}


/// What the balance command does once the user's linked account is known.
#[derive(Debug)]
pub enum BalanceStep {
    /// No linked account: show this embed.
    NotRegistered(Embed),
    /// Ask the server for the account's balance with this RCON command.
    Ask { player: String, command: String },
}

/// The balance command after looking up the user: without a linked Minecraft account it
/// shows the "not registered" embed, with one it asks the server for that account's balance.
pub fn balance_after_lookup(linked: Option<String>) -> (s: BalanceStep)
    ensures
        linked is None ==> (s matches BalanceStep::NotRegistered(e) && e@ == not_registered_spec()),
        linked matches Some(p) ==> (s matches BalanceStep::Ask { player, command } && player@ == p@
            && command@ == balance_command_spec(p@)),
{
    match linked {
        None => BalanceStep::NotRegistered(not_registered_embed()),
        Some(player) => {
            let command = balance_command(player.as_str());
            BalanceStep::Ask { player, command }
        },
    }
}

/// The embed that answers the balance command, from the server's reply.
pub fn balance_reply(player: &str, response: &str) -> (e: Embed)
    ensures
        e@ == balance_embed_spec(player@, balance_display_spec(response@)),
{
    balance_embed(player, balance_display(response).as_str())
}

/// What the smite command shows.
#[derive(Debug)]
pub enum SmitePrompt {
    /// No linked account to charge: show this embed.
    NotRegistered(Embed),
    /// Ask for confirmation, with a button to smite and one to cancel.
    Confirm(Prompt),
}

/// The buttons under the smite confirmation.
pub open spec fn smite_buttons_spec(target: Seq<char>, payer: Seq<char>) -> Seq<ButtonModel> {
    seq![
        ButtonModel { action: ActionModel::ConfirmSmite(target, payer), label: "Smite"@, danger: true },
        ButtonModel { action: ActionModel::CancelSmite(target), label: "Cancel"@, danger: false },
    ]
}

/// The smite command after looking up the user: without a linked account it shows the "not
/// registered" embed; with one, that account is the payer, and the user is asked to confirm.
pub fn smite_prompt(target: &str, linked: Option<String>) -> (p: SmitePrompt)
    ensures
        linked is None ==> (p matches SmitePrompt::NotRegistered(e) && e@ == not_registered_spec()),
        linked matches Some(payer) ==> (p matches SmitePrompt::Confirm(q) && q.embed@
            == confirm_smite_spec(target@, payer@) && q.buttons@.map_values(|b: Button| b@)
            == smite_buttons_spec(target@, payer@)),
{
    match linked {
        None => SmitePrompt::NotRegistered(not_registered_embed()),
        Some(payer) => {
            let e = confirm_smite_embed(target, payer.as_str());
            let mut buttons: Vec<Button> = Vec::new();
            buttons.push(
                Button {
                    action: ButtonAction::ConfirmSmite { player: String::from_str(target), payer },
                    label: String::from_str("Smite"),
                    danger: true,
                },
            );
            buttons.push(
                Button {
                    action: ButtonAction::CancelSmite { player: String::from_str(target) },
                    label: String::from_str("Cancel"),
                    danger: false,
                },
            );
            assert(buttons@.map_values(|b: Button| b@) =~= smite_buttons_spec(target@, linked->0@));
            SmitePrompt::Confirm(Prompt { embed: e, buttons })
        },
    }
}

} // verus!

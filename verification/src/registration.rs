//! Linking a Discord account to a Minecraft account with a one-time code.
use vstd::prelude::*;
use crate::buttons::{Button, ButtonAction, ButtonModel, ActionModel, Prompt};
use crate::link::{PendingRecord, Tables};
use crate::reply::{add_field, embed, EmbedColour, EmbedModel, FieldModel};

verus! {

/// How many characters a registration code has.
pub const REGISTRATION_CODE_LENGTH: usize = 4;

/// An upper-case letter or a decimal digit.
pub open spec fn is_code_char(c: char) -> bool {
    ('A' <= c && c <= 'Z') || ('0' <= c && c <= '9')
}

/// A registration code: four upper-case letters or digits.
pub open spec fn is_registration_code(s: Seq<char>) -> bool {
    &&& s.len() == REGISTRATION_CODE_LENGTH
    &&& forall|i: int| 0 <= i < s.len() ==> is_code_char(#[trigger] s[i])
}

/// Calls `rand::random_range` (the thread-local generator's `random_range`) on `0..bound`.
/// The result is below the bound; which value comes is left to chance, so nothing more is
/// stated. The crate panics on an empty range, which the bound rules out.
#[verifier::external_body]
pub(crate) fn random_below(bound: usize) -> (r: usize)
    requires
        bound > 0,
    ensures
        r < bound,
{
    rand::random_range(0..bound)
}

/// The characters a registration code is drawn from.
pub open spec fn code_charset() -> Seq<char> {
    "ABCDEFGHIJKLMNOPQRSTUVWXYZ0123456789"@
}

/// How many characters a code is drawn from.
pub const CODE_CHARSET_LEN: usize = 36;

/// Draws for a code: one position in the character set per character of the code.
pub open spec fn valid_draws(d: Seq<usize>) -> bool {
    &&& d.len() == REGISTRATION_CODE_LENGTH
    &&& forall|k: int| 0 <= k < d.len() ==> #[trigger] d[k] < CODE_CHARSET_LEN
}

/// The code that the draws pick.
pub open spec fn code_of_draws(d: Seq<usize>) -> Seq<char> {
    Seq::new(REGISTRATION_CODE_LENGTH as nat, |k: int| code_charset()[d[k] as int])
}

/// Builds the code that the draws pick: character `k` is the character at position `d[k]`
/// of the character set.
pub fn code_from_draws(d: &Vec<usize>) -> (code: String)
    requires
        valid_draws(d@),
    ensures
        code@ == code_of_draws(d@),
        is_registration_code(code@),
{
    let charset = "ABCDEFGHIJKLMNOPQRSTUVWXYZ0123456789";
    proof {
        reveal_strlit("ABCDEFGHIJKLMNOPQRSTUVWXYZ0123456789");
        assert forall|i: int| 0 <= i < 36 implies is_code_char(#[trigger] charset@[i]) by {}
    }
    let mut code = String::new();
    let mut k: usize = 0;
    while k < REGISTRATION_CODE_LENGTH
        invariant
            valid_draws(d@),
            charset@ == code_charset(),
            charset@.len() == 36,
            forall|i: int| 0 <= i < 36 ==> is_code_char(#[trigger] charset@[i]),
            k <= REGISTRATION_CODE_LENGTH,
            code@ == code_of_draws(d@).take(k as int),
        decreases REGISTRATION_CODE_LENGTH - k,
    {
        let i = d[k];
        let piece = charset.substring_char(i, i + 1);
        let ghost before = code@;
        code.append(piece);
        assert(code@ =~= code_of_draws(d@).take(k + 1));
        k = k + 1;
    }
    assert(code@ =~= code_of_draws(d@));
    code
}

/// Draws the positions for a random code.
pub fn draw_code() -> (d: Vec<usize>)
    ensures
        valid_draws(d@),
{
    let mut d: Vec<usize> = Vec::new();
    while d.len() < REGISTRATION_CODE_LENGTH
        invariant
            d@.len() <= REGISTRATION_CODE_LENGTH,
            forall|k: int| 0 <= k < d@.len() ==> #[trigger] d@[k] < CODE_CHARSET_LEN,
        decreases REGISTRATION_CODE_LENGTH - d@.len(),
    {
        d.push(random_below(CODE_CHARSET_LEN));
    }
    d
}

/// Generates a random registration code.
pub fn random_code() -> (code: String)
    ensures
        is_registration_code(code@),
        exists|d: Seq<usize>| valid_draws(d) && code@ == code_of_draws(d),
{
    let d = draw_code();
    code_from_draws(&d)
}

/// The text input of the code-entry modal.
#[derive(Debug)]
pub struct CodeModal {
    pub custom_id: String,
    pub title: String,
    pub input_label: String,
    pub input_id: String,
    pub placeholder: String,
    pub min_length: u16,
    pub max_length: u16,
}

/// The custom id of the code input inside the code-entry modal.
pub open spec fn code_input_id_spec() -> Seq<char> {
    "code"@
}

/// The modal in which a registration code is entered: a short text input of exactly the
/// code's length.
pub fn enter_code_modal() -> (m: CodeModal)
    ensures
        m.custom_id@ == "enter_code_modal"@,
        m.title@ == "Enter your registration code"@,
        m.input_label@ == "Code"@,
        m.input_id@ == code_input_id_spec(),
        m.placeholder@ == "XXXX"@,
        m.min_length == REGISTRATION_CODE_LENGTH,
        m.max_length == REGISTRATION_CODE_LENGTH,
{
    CodeModal {
        custom_id: String::from_str("enter_code_modal"),
        title: String::from_str("Enter your registration code"),
        input_label: String::from_str("Code"),
        input_id: String::from_str("code"),
        placeholder: String::from_str("XXXX"),
        min_length: 4,
        max_length: 4,
    }
}

/// The embed sent after a registration code was issued for `player`.
pub open spec fn registration_embed_spec(player: Seq<char>) -> EmbedModel {
    EmbedModel {
        title: "Minecraft Registration"@,
        description: "A registration code has been messaged in game to the Minecraft account `"@
            + player + "`."@,
        fields: seq![
            FieldModel {
                name: "Next steps"@,
                value: "Enter the code below to link your Discord account to that Minecraft account."@,
                inline: false,
            },
            FieldModel {
                name: "Haven't joined the server yet?"@,
                value: "Join first, then press **Send New Code** to get a new code messaged to you in game."@,
                inline: false,
            },
        ],
        colour: EmbedColour::DarkGreen,
    }
}

/// The buttons under the registration message.
pub open spec fn registration_buttons_spec(player: Seq<char>) -> Seq<ButtonModel> {
    seq![
        ButtonModel { action: ActionModel::SendNewCode(player), label: "Send New Code"@, danger: false },
        ButtonModel { action: ActionModel::EnterCode, label: "Enter Code"@, danger: false },
    ]
}

/// Builds the message sent after a registration code was issued for `player`, with a button
/// to send a new code and one to enter the code.
pub fn registration_prompt(player: &str) -> (p: Prompt)
    ensures
        p.embed@ == registration_embed_spec(player@),
        p.buttons@.map_values(|b: Button| b@) == registration_buttons_spec(player@),
{
    let description = String::from_str(
        "A registration code has been messaged in game to the Minecraft account `",
    ).concat(player).concat("`.");
    let mut e = embed("Minecraft Registration", description.as_str(), EmbedColour::DarkGreen);
    add_field(
        &mut e,
        "Next steps",
        "Enter the code below to link your Discord account to that Minecraft account.",
        false,
    );
    add_field(
        &mut e,
        "Haven't joined the server yet?",
        "Join first, then press **Send New Code** to get a new code messaged to you in game.",
        false,
    );
    assert(e@.fields =~= registration_embed_spec(player@).fields);
    let mut buttons: Vec<Button> = Vec::new();
    buttons.push(
        Button {
            action: ButtonAction::SendNewCode { player: String::from_str(player) },
            label: String::from_str("Send New Code"),
            danger: false,
        },
    );
    buttons.push(
        Button { action: ButtonAction::EnterCode, label: String::from_str("Enter Code"), danger: false },
    );
    assert(buttons@.map_values(|b: Button| b@) =~= registration_buttons_spec(player@));
    Prompt { embed: e, buttons }
}


/// The RCON command that messages a player their registration code in game.
pub open spec fn code_message_command_spec(player: Seq<char>, code: Seq<char>) -> Seq<char> {
    "tell "@ + player + " Your Discord registration code is "@ + code
}

/// Builds the RCON command that messages a player their registration code in game.
pub fn code_message_command(player: &str, code: &str) -> (c: String)
    ensures
        c@ == code_message_command_spec(player@, code@),
{
    String::from_str("tell ").concat(player).concat(" Your Discord registration code is ").concat(code)
}

/// Where issuing a code for a player stands: drawing a candidate code, checking that it is
/// free, looking for the player's pending row, writing the code, messaging it to the player,
/// or done.
#[derive(Debug)]
pub enum StoreStage {
    Drawing,
    CheckingCode { code: String },
    FindingExisting { code: String },
    Writing { code: String },
    Delivering { code: String },
    Done,
}

/// The model of a store stage.
pub enum StoreStageModel {
    Drawing,
    CheckingCode(Seq<char>),
    FindingExisting(Seq<char>),
    Writing(Seq<char>),
    Delivering(Seq<char>),
    Done,
}

impl View for StoreStage {
    type V = StoreStageModel;

    open spec fn view(&self) -> StoreStageModel {
        match self {
            StoreStage::Drawing => StoreStageModel::Drawing,
            StoreStage::CheckingCode { code } => StoreStageModel::CheckingCode(code@),
            StoreStage::FindingExisting { code } => StoreStageModel::FindingExisting(code@),
            StoreStage::Writing { code } => StoreStageModel::Writing(code@),
            StoreStage::Delivering { code } => StoreStageModel::Delivering(code@),
            StoreStage::Done => StoreStageModel::Done,
        }
    }
}

/// Issuing a unique registration code for a player: the code is stored in the pending codes,
/// over the row the player already has there, if any, and messaged to the player in game.
#[derive(Debug)]
pub struct CodeStore {
    pub player: String,
    pub stage: StoreStage,
}

/// What came back.
#[derive(Debug)]
pub enum StoreEvent {
    /// The positions drawn for a candidate code (see `draw_code`).
    Drawn(Vec<usize>),
    /// Whether a pending row already holds the candidate code.
    CodeTaken(bool),
    /// The id of the player's pending row, if there is one.
    ExistingRow(Option<u128>),
    /// The code was written.
    Written,
    /// The server took the message.
    Delivered,
}

/// The model of a store event.
pub enum StoreEventModel {
    Drawn(Seq<usize>),
    CodeTaken(bool),
    ExistingRow(Option<u128>),
    Written,
    Delivered,
}

impl View for StoreEvent {
    type V = StoreEventModel;

    open spec fn view(&self) -> StoreEventModel {
        match self {
            StoreEvent::Drawn(d) => StoreEventModel::Drawn(d@),
            StoreEvent::CodeTaken(b) => StoreEventModel::CodeTaken(*b),
            StoreEvent::ExistingRow(r) => StoreEventModel::ExistingRow(*r),
            StoreEvent::Written => StoreEventModel::Written,
            StoreEvent::Delivered => StoreEventModel::Delivered,
        }
    }
}

/// What to do next.
#[derive(Debug)]
pub enum StoreAction {
    /// Draw the positions of a candidate code.
    Draw,
    /// Look for a pending row that holds this code.
    FindCode(String),
    /// Look for the pending row of this player.
    FindPendingFor(String),
    /// Put this code in the pending row with this id.
    UpdateCode { row: u128, code: String },
    /// Add a pending row (with a fresh id) for this code and player.
    Insert { code: String, player: String },
    /// Run this RCON command, which messages the code to the player.
    Deliver(String),
    /// The code is stored and sent; here it is.
    Finished(String),
}

/// The model of a store action.
pub enum StoreActionModel {
    Draw,
    FindCode(Seq<char>),
    FindPendingFor(Seq<char>),
    UpdateCode(u128, Seq<char>),
    Insert(Seq<char>, Seq<char>),
    Deliver(Seq<char>),
    Finished(Seq<char>),
}

impl View for StoreAction {
    type V = StoreActionModel;

    open spec fn view(&self) -> StoreActionModel {
        match self {
            StoreAction::Draw => StoreActionModel::Draw,
            StoreAction::FindCode(c) => StoreActionModel::FindCode(c@),
            StoreAction::FindPendingFor(p) => StoreActionModel::FindPendingFor(p@),
            StoreAction::UpdateCode { row, code } => StoreActionModel::UpdateCode(*row, code@),
            StoreAction::Insert { code, player } => StoreActionModel::Insert(code@, player@),
            StoreAction::Deliver(c) => StoreActionModel::Deliver(c@),
            StoreAction::Finished(c) => StoreActionModel::Finished(c@),
        }
    }
}

/// The answer fits what the store waits for.
pub open spec fn store_accepts(stage: StoreStageModel, event: StoreEventModel) -> bool {
    match stage {
        StoreStageModel::Drawing => event matches StoreEventModel::Drawn(d) && valid_draws(d),
        StoreStageModel::CheckingCode(_) => event is CodeTaken,
        StoreStageModel::FindingExisting(_) => event is ExistingRow,
        StoreStageModel::Writing(_) => event is Written,
        StoreStageModel::Delivering(_) => event is Delivered,
        StoreStageModel::Done => false,
    }
}

/// One step of issuing a code: drawn positions give the candidate, which is looked up; a
/// taken candidate leads to new draws; a free one is kept, and written over the player's
/// pending row or in a new row, then messaged to the player; then the code is the result.
pub open spec fn store_next(player: Seq<char>, stage: StoreStageModel, event: StoreEventModel) -> (
    StoreStageModel,
    StoreActionModel,
) {
    match (stage, event) {
        (StoreStageModel::Drawing, StoreEventModel::Drawn(d)) => (
            StoreStageModel::CheckingCode(code_of_draws(d)),
            StoreActionModel::FindCode(code_of_draws(d)),
        ),
        (StoreStageModel::CheckingCode(_), StoreEventModel::CodeTaken(true)) => (
            StoreStageModel::Drawing,
            StoreActionModel::Draw,
        ),
        (StoreStageModel::CheckingCode(code), StoreEventModel::CodeTaken(false)) => (
            StoreStageModel::FindingExisting(code),
            StoreActionModel::FindPendingFor(player),
        ),
        (StoreStageModel::FindingExisting(code), StoreEventModel::ExistingRow(Some(row))) => (
            StoreStageModel::Writing(code),
            StoreActionModel::UpdateCode(row, code),
        ),
        (StoreStageModel::FindingExisting(code), StoreEventModel::ExistingRow(None)) => (
            StoreStageModel::Writing(code),
            StoreActionModel::Insert(code, player),
        ),
        (StoreStageModel::Writing(code), StoreEventModel::Written) => (
            StoreStageModel::Delivering(code),
            StoreActionModel::Deliver(code_message_command_spec(player, code)),
        ),
        (StoreStageModel::Delivering(code), StoreEventModel::Delivered) => (
            StoreStageModel::Done,
            StoreActionModel::Finished(code),
        ),
        _ => (StoreStageModel::Done, StoreActionModel::Finished(Seq::empty())),
    }
}

impl CodeStore {
    /// Starts issuing a code for `player`: a candidate is drawn first.
    pub fn start(player: &str) -> (r: (CodeStore, StoreAction))
        ensures
            r.0.player@ == player@,
            r.0.stage@ == StoreStageModel::Drawing,
            r.1@ == StoreActionModel::Draw,
    {
        (CodeStore { player: String::from_str(player), stage: StoreStage::Drawing }, StoreAction::Draw)
    }

    /// Takes what came back and says what to do next.
    pub fn step(&mut self, event: StoreEvent) -> (a: StoreAction)
        requires
            store_accepts(old(self).stage@, event@),
        ensures
            final(self).player@ == old(self).player@,
            (final(self).stage@, a@) == store_next(old(self).player@, old(self).stage@, event@),
    {
        let mut stage = StoreStage::Done;
        std::mem::swap(&mut stage, &mut self.stage);
        let (next, action) = match (stage, event) {
            (StoreStage::Drawing, StoreEvent::Drawn(d)) => {
                let code = code_from_draws(&d);
                let action = StoreAction::FindCode(code.clone());
                (StoreStage::CheckingCode { code }, action)
            },
            (StoreStage::CheckingCode { .. }, StoreEvent::CodeTaken(true)) => (
                StoreStage::Drawing,
                StoreAction::Draw,
            ),
            (StoreStage::CheckingCode { code }, _) => (
                StoreStage::FindingExisting { code },
                StoreAction::FindPendingFor(self.player.clone()),
            ),
            (StoreStage::FindingExisting { code }, StoreEvent::ExistingRow(Some(row))) => {
                let action = StoreAction::UpdateCode { row, code: code.clone() };
                (StoreStage::Writing { code }, action)
            },
            (StoreStage::FindingExisting { code }, _) => {
                let action = StoreAction::Insert { code: code.clone(), player: self.player.clone() };
                (StoreStage::Writing { code }, action)
            },
            (StoreStage::Writing { code }, _) => {
                let action = StoreAction::Deliver(code_message_command(self.player.as_str(), code.as_str()));
                (StoreStage::Delivering { code }, action)
            },
            (StoreStage::Delivering { code }, _) => (StoreStage::Done, StoreAction::Finished(code)),
            (_, _) => (StoreStage::Done, StoreAction::Finished(String::new())),
        };
        self.stage = next;
        action
    }
}

/// A run of the code store for `player`: `stages[0]` and `actions[0]` are what `start` gave,
/// and each answer `events[i]`, accepted in `stages[i]`, leads to `stages[i + 1]` and
/// `actions[i + 1]`.
pub open spec fn store_run(
    player: Seq<char>,
    stages: Seq<StoreStageModel>,
    events: Seq<StoreEventModel>,
    actions: Seq<StoreActionModel>,
) -> bool {
    &&& stages.len() == events.len() + 1
    &&& actions.len() == events.len() + 1
    &&& stages[0] == StoreStageModel::Drawing
    &&& actions[0] == StoreActionModel::Draw
    &&& forall|i: int|
        0 <= i < events.len() ==> store_accepts(stages[i], #[trigger] events[i]) && (
        stages[i + 1],
        actions[i + 1],
    ) == store_next(player, stages[i], events[i])
}

/// Law: the code that a run of the code store finishes with is the code picked by the last
/// draws; it was looked up and reported free right after it was drawn; the run then looked for
/// the player's pending row, wrote that very code (over that row or in a new one), and
/// messaged it to the player in game, in that order.
pub proof fn lemma_store_finishes_with_free_code(
    player: Seq<char>,
    stages: Seq<StoreStageModel>,
    events: Seq<StoreEventModel>,
    actions: Seq<StoreActionModel>,
    k: int,
    code: Seq<char>,
)
    requires
        store_run(player, stages, events, actions),
        0 <= k < actions.len(),
        actions[k] == StoreActionModel::Finished(code),
    ensures
        k >= 5,
        events[k - 5] matches StoreEventModel::Drawn(d) && valid_draws(d) && code == code_of_draws(d),
        is_registration_code(code),
        actions[k - 4] == StoreActionModel::FindCode(code),
        events[k - 4] == StoreEventModel::CodeTaken(false),
        actions[k - 3] == StoreActionModel::FindPendingFor(player),
        actions[k - 2] == StoreActionModel::Insert(code, player) || exists|row: u128|
            actions[k - 2] == StoreActionModel::UpdateCode(row, code),
        actions[k - 1] == StoreActionModel::Deliver(code_message_command_spec(player, code)),
{
    assert(k > 0);
    let e1 = events[k - 1];
    assert(store_accepts(stages[k - 1], e1));
    assert(stages[k - 1] == StoreStageModel::Delivering(code));
    let e2 = events[k - 2];
    assert(store_accepts(stages[k - 2], e2));
    assert(stages[k - 2] == StoreStageModel::Writing(code));
    let e3 = events[k - 3];
    assert(store_accepts(stages[k - 3], e3));
    assert(stages[k - 3] == StoreStageModel::FindingExisting(code));
    let e4 = events[k - 4];
    assert(store_accepts(stages[k - 4], e4));
    assert(stages[k - 4] == StoreStageModel::CheckingCode(code));
    let e5 = events[k - 5];
    assert(store_accepts(stages[k - 5], e5));
    if let StoreEventModel::Drawn(d) = e5 {
        lemma_draws_make_a_code(d);
    }
    if let StoreEventModel::ExistingRow(Some(row)) = e3 {
        assert(actions[k - 2] == StoreActionModel::UpdateCode(row, code));
    }
}

/// The answer is what the tables give to the store's action: a code lookup says whether a
/// pending row holds the code; a lookup by player finds that player's pending row, or reports
/// none when no row is the player's; a write is acknowledged; the server takes the message.
pub open spec fn store_answers(t: Tables, action: StoreActionModel, event: StoreEventModel) -> bool {
    match action {
        StoreActionModel::Draw => event is Drawn,
        StoreActionModel::FindCode(code) => match event {
            StoreEventModel::CodeTaken(true) => exists|id: u128|
                #[trigger] t.pending.contains_key(id) && t.pending[id].code == code,
            StoreEventModel::CodeTaken(false) => forall|id: u128|
                #[trigger] t.pending.contains_key(id) ==> t.pending[id].code != code,
            _ => false,
        },
        StoreActionModel::FindPendingFor(player) => match event {
            StoreEventModel::ExistingRow(Some(row)) => t.pending.contains_key(row)
                && t.pending[row].player == player,
            StoreEventModel::ExistingRow(None) => forall|id: u128|
                #[trigger] t.pending.contains_key(id) ==> t.pending[id].player != player,
            _ => false,
        },
        StoreActionModel::UpdateCode(_, _) => event is Written,
        StoreActionModel::Insert(_, _) => event is Written,
        StoreActionModel::Deliver(_) => event is Delivered,
        StoreActionModel::Finished(_) => true,
    }
}

/// What a store action does to the tables: an update sets the code of the row with that id
/// and keeps its player; an insert adds a row with the id `fresh`; nothing else writes.
pub open spec fn store_apply(t: Tables, action: StoreActionModel, fresh: u128) -> Tables {
    match action {
        StoreActionModel::UpdateCode(row, code) => if t.pending.contains_key(row) {
            Tables {
                users: t.users,
                pending: t.pending.insert(row, PendingRecord { code, player: t.pending[row].player }),
            }
        } else {
            t
        },
        StoreActionModel::Insert(code, player) => Tables {
            users: t.users,
            pending: t.pending.insert(fresh, PendingRecord { code, player }),
        },
        _ => t,
    }
}

/// A run of the code store against the tables, with no other writer: `tables[i]` is the state
/// once `actions[i]` is done, each answer `events[i]` is what `tables[i]` gives to
/// `actions[i]`, and an inserted row gets an id `fresh[i]` not in use.
pub open spec fn store_run_on(
    player: Seq<char>,
    stages: Seq<StoreStageModel>,
    events: Seq<StoreEventModel>,
    actions: Seq<StoreActionModel>,
    tables: Seq<Tables>,
    fresh: Seq<u128>,
) -> bool {
    &&& store_run(player, stages, events, actions)
    &&& tables.len() == actions.len()
    &&& fresh.len() == actions.len()
    &&& forall|i: int| 0 <= i < events.len() ==> store_answers(tables[i], actions[i], #[trigger] events[i])
    &&& forall|i: int|
        0 <= i < events.len() ==> !tables[i].pending.contains_key(fresh[i + 1]) && #[trigger] tables[i
            + 1] == store_apply(tables[i], actions[i + 1], fresh[i + 1])
}

/// No two pending rows hold the same code.
pub open spec fn unique_codes(t: Tables) -> bool {
    forall|a: u128, b: u128|
        #[trigger] t.pending.contains_key(a) && #[trigger] t.pending.contains_key(b) && a != b
            ==> t.pending[a].code != t.pending[b].code
}

/// No two pending rows are for the same player.
pub open spec fn one_row_per_player(t: Tables) -> bool {
    forall|a: u128, b: u128|
        #[trigger] t.pending.contains_key(a) && #[trigger] t.pending.contains_key(b) && a != b
            ==> t.pending[a].player != t.pending[b].player
}

/// Before anything is written, a run only draws and looks up: the tables are as they were.
proof fn lemma_store_reads_before_writing(
    player: Seq<char>,
    stages: Seq<StoreStageModel>,
    events: Seq<StoreEventModel>,
    actions: Seq<StoreActionModel>,
    tables: Seq<Tables>,
    fresh: Seq<u128>,
    i: int,
)
    requires
        store_run_on(player, stages, events, actions, tables, fresh),
        0 <= i < stages.len(),
        stages[i] is Drawing || stages[i] is CheckingCode || stages[i] is FindingExisting,
    ensures
        tables[i] == tables[0],
    decreases i,
{
    if i > 0 {
        let j = i - 1;
        let e = events[j];
        assert(store_accepts(stages[j], e));
        assert(tables[i] == store_apply(tables[j], actions[i], fresh[i]));
        lemma_store_reads_before_writing(player, stages, events, actions, tables, fresh, j);
    }
}

/// Law: with no other writer, and pending rows with distinct codes and at most one row per
/// player, a run of the code store that finishes with `code` leaves exactly one pending row
/// for the player, holding `code`; that row keeps the id of the player's earlier row, or is a
/// new row when the player had none; `code` was held by no row before, so the player's
/// earlier code is held by no row any more; every other row, and the users table, are as they
/// were; and codes stay distinct and rows stay one per player.
pub proof fn lemma_store_writes_one_fresh_code(
    player: Seq<char>,
    stages: Seq<StoreStageModel>,
    events: Seq<StoreEventModel>,
    actions: Seq<StoreActionModel>,
    tables: Seq<Tables>,
    fresh: Seq<u128>,
    k: int,
    code: Seq<char>,
)
    requires
        store_run_on(player, stages, events, actions, tables, fresh),
        unique_codes(tables[0]),
        one_row_per_player(tables[0]),
        0 <= k < actions.len(),
        actions[k] == StoreActionModel::Finished(code),
    ensures
        ({
            let t0 = tables[0];
            let t = tables[k];
            &&& t.users == t0.users
            &&& forall|id: u128| #[trigger] t0.pending.contains_key(id) ==> t0.pending[id].code != code
            &&& exists|row: u128|
                {
                    &&& #[trigger] t.pending.contains_key(row)
                    &&& t.pending[row] == PendingRecord { code, player }
                    &&& forall|id: u128|
                        #[trigger] t.pending.contains_key(id) && t.pending[id].player == player ==> id == row
                    &&& forall|id: u128|
                        #[trigger] t0.pending.contains_key(id) && t0.pending[id].player == player ==> id == row
                    &&& (forall|id: u128|
                        #[trigger] t0.pending.contains_key(id) ==> t0.pending[id].player != player)
                        ==> !t0.pending.contains_key(row)
                }
            &&& forall|id: u128|
                #[trigger] t0.pending.contains_key(id) && t0.pending[id].player != player
                    ==> t.pending.contains_key(id) && t.pending[id] == t0.pending[id]
            &&& forall|id: u128|
                #[trigger] t.pending.contains_key(id) && t.pending[id].player != player
                    ==> t0.pending.contains_key(id) && t0.pending[id] == t.pending[id]
            &&& forall|old_id: u128, id: u128|
                #[trigger] t0.pending.contains_key(old_id) && t0.pending[old_id].player == player
                    && #[trigger] t.pending.contains_key(id) ==> t.pending[id].code != t0.pending[old_id].code
            &&& unique_codes(t)
            &&& one_row_per_player(t)
        }),
{
    lemma_store_finishes_with_free_code(player, stages, events, actions, k, code);
    let t0 = tables[0];
    // The stages just before the end, as in the law above.
    let e1 = events[k - 1];
    assert(store_accepts(stages[k - 1], e1));
    let e2 = events[k - 2];
    assert(store_accepts(stages[k - 2], e2));
    let e3 = events[k - 3];
    assert(store_accepts(stages[k - 3], e3));
    assert(stages[k - 3] == StoreStageModel::FindingExisting(code));
    let e4 = events[k - 4];
    assert(store_accepts(stages[k - 4], e4));
    assert(stages[k - 4] == StoreStageModel::CheckingCode(code));
    lemma_store_reads_before_writing(player, stages, events, actions, tables, fresh, k - 4);
    lemma_store_reads_before_writing(player, stages, events, actions, tables, fresh, k - 3);
    assert(store_answers(tables[k - 4], actions[k - 4], e4));
    assert(store_answers(tables[k - 3], actions[k - 3], e3));
    assert(tables[k - 2] == store_apply(tables[k - 3], actions[k - 2], fresh[k - 2]));
    assert(tables[k - 1] == store_apply(tables[k - 2], actions[k - 1], fresh[k - 1]));
    assert(tables[k] == store_apply(tables[k - 1], actions[k], fresh[k]));
    let t = tables[k];
    let row: u128 = match e3 {
        StoreEventModel::ExistingRow(Some(r)) => r,
        _ => fresh[k - 2],
    };
    assert(t.pending == t0.pending.insert(row, PendingRecord { code, player }));
    assert(t.pending.contains_key(row));
    assert(forall|id: u128|
        #[trigger] t.pending.contains_key(id) && t.pending[id].player == player ==> id == row);
    assert(unique_codes(t)) by {
        assert forall|a: u128, b: u128|
            #[trigger] t.pending.contains_key(a) && #[trigger] t.pending.contains_key(b) && a != b
                implies t.pending[a].code != t.pending[b].code by {
            if a == row {
                assert(t0.pending.contains_key(b));
            } else if b == row {
                assert(t0.pending.contains_key(a));
            } else {
                assert(t0.pending.contains_key(a) && t0.pending.contains_key(b));
            }
        }
    }
    assert(one_row_per_player(t)) by {
        assert forall|a: u128, b: u128|
            #[trigger] t.pending.contains_key(a) && #[trigger] t.pending.contains_key(b) && a != b
                implies t.pending[a].player != t.pending[b].player by {
            if a != row && b != row {
                assert(t0.pending.contains_key(a) && t0.pending.contains_key(b));
            }
        }
    }
    assert forall|old_id: u128, id: u128|
        #[trigger] t0.pending.contains_key(old_id) && t0.pending[old_id].player == player
            && #[trigger] t.pending.contains_key(id) implies t.pending[id].code != t0.pending[old_id].code by {
        if id != row {
            assert(t0.pending.contains_key(id));
            assert(t0.pending[id].player != player);
        }
    }
}

/// The character at position `j` of the character set: `A` to `Z`, then `0` to `9`.
pub open spec fn charset_char(j: int) -> char {
    if j < 26 {
        (65 + j) as char
    } else {
        (22 + j) as char
    }
}

/// The position of a code character in the character set.
pub open spec fn charset_position(c: char) -> int {
    if 'A' <= c && c <= 'Z' {
        c as int - 65
    } else {
        c as int - 22
    }
}

proof fn lemma_charset_chars()
    ensures
        code_charset().len() == 36,
        forall|j: int| 0 <= j < 36 ==> #[trigger] code_charset()[j] == charset_char(j),
{
    reveal_strlit("ABCDEFGHIJKLMNOPQRSTUVWXYZ0123456789");
    assert(code_charset()[0] == charset_char(0));
    assert(code_charset()[1] == charset_char(1));
    assert(code_charset()[2] == charset_char(2));
    assert(code_charset()[3] == charset_char(3));
    assert(code_charset()[4] == charset_char(4));
    assert(code_charset()[5] == charset_char(5));
    assert(code_charset()[6] == charset_char(6));
    assert(code_charset()[7] == charset_char(7));
    assert(code_charset()[8] == charset_char(8));
    assert(code_charset()[9] == charset_char(9));
    assert(code_charset()[10] == charset_char(10));
    assert(code_charset()[11] == charset_char(11));
    assert(code_charset()[12] == charset_char(12));
    assert(code_charset()[13] == charset_char(13));
    assert(code_charset()[14] == charset_char(14));
    assert(code_charset()[15] == charset_char(15));
    assert(code_charset()[16] == charset_char(16));
    assert(code_charset()[17] == charset_char(17));
    assert(code_charset()[18] == charset_char(18));
    assert(code_charset()[19] == charset_char(19));
    assert(code_charset()[20] == charset_char(20));
    assert(code_charset()[21] == charset_char(21));
    assert(code_charset()[22] == charset_char(22));
    assert(code_charset()[23] == charset_char(23));
    assert(code_charset()[24] == charset_char(24));
    assert(code_charset()[25] == charset_char(25));
    assert(code_charset()[26] == charset_char(26));
    assert(code_charset()[27] == charset_char(27));
    assert(code_charset()[28] == charset_char(28));
    assert(code_charset()[29] == charset_char(29));
    assert(code_charset()[30] == charset_char(30));
    assert(code_charset()[31] == charset_char(31));
    assert(code_charset()[32] == charset_char(32));
    assert(code_charset()[33] == charset_char(33));
    assert(code_charset()[34] == charset_char(34));
    assert(code_charset()[35] == charset_char(35));
    assert forall|j: int| 0 <= j < 36 implies #[trigger] code_charset()[j] == charset_char(j) by {
        assert(0 <= j < 36);
    }
}

/// Law: draws and codes correspond one to one. Every registration code is the code of some
/// valid draws, so any code can come out of a draw; and two valid draws that give the same
/// code are the same draws.
pub proof fn lemma_draws_and_codes_correspond(c: Seq<char>, d1: Seq<usize>, d2: Seq<usize>)
    ensures
        is_registration_code(c) ==> exists|d: Seq<usize>| valid_draws(d) && #[trigger] code_of_draws(d) == c,
        valid_draws(d1) && valid_draws(d2) && code_of_draws(d1) == code_of_draws(d2) ==> d1 == d2,
{
    lemma_charset_chars();
    if is_registration_code(c) {
        let d = Seq::new(4, |k: int| charset_position(c[k]) as usize);
        assert forall|k: int| 0 <= k < 4 implies #[trigger] d[k] < CODE_CHARSET_LEN && code_charset()[d[k] as int] == c[k] by {
            assert(is_code_char(c[k]));
        }
        assert(code_of_draws(d) =~= c);
        assert(valid_draws(d));
    }
    if valid_draws(d1) && valid_draws(d2) && code_of_draws(d1) == code_of_draws(d2) {
        assert forall|k: int| 0 <= k < 4 implies d1[k] == d2[k] by {
            assert(code_of_draws(d1)[k] == code_of_draws(d2)[k]);
            assert(code_charset()[d1[k] as int] == charset_char(d1[k] as int));
            assert(code_charset()[d2[k] as int] == charset_char(d2[k] as int));
        }
        assert(d1 =~= d2);
    }
}

/// Valid draws pick a registration code.
pub proof fn lemma_draws_make_a_code(d: Seq<usize>)
    requires
        valid_draws(d),
    ensures
        is_registration_code(code_of_draws(d)),
{
    reveal_strlit("ABCDEFGHIJKLMNOPQRSTUVWXYZ0123456789");
    assert forall|i: int| 0 <= i < code_of_draws(d).len() implies is_code_char(
        #[trigger] code_of_draws(d)[i],
    ) by {
        assert(d[i] < 36);
    }
}

} // verus!

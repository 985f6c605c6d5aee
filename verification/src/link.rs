//! Taking a registration code from the code-entry modal and linking the Discord account to
//! the Minecraft account that the code was issued for.
use vstd::prelude::*;
use crate::registration::code_input_id_spec;
use crate::registration::{is_registration_code, is_code_char};
use crate::text::{ascii_upper, ascii_upper_char, same_text, str_to_uppercase, to_uppercase, trim, trim_spec};
use vstd::utf8::is_ascii_chars;

verus! {

/// A component of a submitted modal: a text input with its custom id and value, or another kind.
pub enum ModalComponent {
    InputText { custom_id: String, value: Option<String> },
    Other,
}

/// The model of a modal component.
pub enum ModalComponentModel {
    InputText(Seq<char>, Option<Seq<char>>),
    Other,
}

impl View for ModalComponent {
    type V = ModalComponentModel;

    open spec fn view(&self) -> ModalComponentModel {
        match self {
            ModalComponent::InputText { custom_id, value } => ModalComponentModel::InputText(
                custom_id@,
                match value {
                    Some(v) => Some(v@),
                    None => None,
                },
            ),
            ModalComponent::Other => ModalComponentModel::Other,
        }
    }
}

/// The model of a modal's rows of components.
pub open spec fn modal_rows_model(rows: Seq<Vec<ModalComponent>>) -> Seq<Seq<ModalComponentModel>> {
    rows.map_values(|r: Vec<ModalComponent>| r@.map_values(|c: ModalComponent| c@))
}

/// The value of the first code input of a row that has a value.
pub open spec fn code_value_in_row(row: Seq<ModalComponentModel>) -> Option<Seq<char>>
    decreases row.len(),
{
    if row.len() == 0 {
        None
    } else {
        match row[0] {
            ModalComponentModel::InputText(id, Some(v)) if id == code_input_id_spec() => Some(v),
            _ => code_value_in_row(row.drop_first()),
        }
    }
}

/// The value of the first code input, row by row, that has a value.
pub open spec fn code_value_in_rows(rows: Seq<Seq<ModalComponentModel>>) -> Option<Seq<char>>
    decreases rows.len(),
{
    if rows.len() == 0 {
        None
    } else {
        match code_value_in_row(rows[0]) {
            Some(v) => Some(v),
            None => code_value_in_rows(rows.drop_first()),
        }
    }
}

/// The value of a modal submission's code input (empty when there is none), trimmed.
pub open spec fn submitted_value(rows: Seq<Seq<ModalComponentModel>>) -> Seq<char> {
    trim_spec(
        match code_value_in_rows(rows) {
            Some(v) => v,
            None => Seq::empty(),
        },
    )
}

/// The code that a modal submission carries: the value of its code input (empty when there
/// is none), trimmed and in upper case.
pub open spec fn submitted_code_spec(rows: Seq<Seq<ModalComponentModel>>) -> Seq<char> {
    str_to_uppercase(submitted_value(rows))
}

/// Reads the code out of a submitted code-entry modal.
pub fn submitted_code(rows: &Vec<Vec<ModalComponent>>) -> (code: String)
    ensures
        code@ == submitted_code_spec(modal_rows_model(rows@)),
        is_ascii_chars(submitted_value(modal_rows_model(rows@))) ==> code@ == ascii_upper(
            submitted_value(modal_rows_model(rows@)),
        ),
{
    let ghost model = modal_rows_model(rows@);
    let mut found: Option<String> = None;
    let mut i: usize = 0;
    assert(model.skip(0) =~= model);
    while i < rows.len() && found.is_none()
        invariant
            model == modal_rows_model(rows@),
            i <= rows@.len(),
            found is None ==> code_value_in_rows(model) == code_value_in_rows(model.skip(i as int)),
            found matches Some(v) ==> code_value_in_rows(model) == Some(v@),
        decreases rows@.len() - i,
    {
        let row = &rows[i];
        let ghost rm = model[i as int];
        assert(rm == row@.map_values(|c: ModalComponent| c@));
        assert(model.skip(i as int)[0] == rm);
        assert(model.skip(i as int).drop_first() =~= model.skip(i + 1));
        let mut j: usize = 0;
        assert(rm.skip(0) =~= rm);
        while j < row.len() && found.is_none()
            invariant
                rm == row@.map_values(|c: ModalComponent| c@),
                j <= row@.len(),
                found is None ==> code_value_in_row(rm) == code_value_in_row(rm.skip(j as int)),
                found matches Some(v) ==> code_value_in_row(rm) == Some(v@),
            decreases row@.len() - j,
        {
            assert(rm.skip(j as int)[0] == rm[j as int]);
            assert(rm.skip(j as int).drop_first() =~= rm.skip(j + 1));
            match &row[j] {
                ModalComponent::InputText { custom_id, value: Some(v) } => {
                    if same_text(custom_id.as_str(), "code") {
                        found = Some(v.clone());
                    }
                },
                _ => {},
            }
            j = j + 1;
        }
        proof {
            if found is None {
                assert(rm.skip(j as int).len() == 0);
            }
        }
        i = i + 1;
    }
    proof {
        if found is None {
            assert(model.skip(i as int).len() == 0);
        }
    }
    let raw = match found {
        Some(v) => v,
        None => String::new(),
    };
    to_uppercase(trim(raw.as_str()).as_str())
}


/// The lower case of a code character: `A` to `Z` become `a` to `z`; digits stay.
pub open spec fn code_char_lower(c: char) -> char {
    if 'A' <= c && c <= 'Z' {
        ((c as u32) + 32) as char
    } else {
        c
    }
}

/// `typed` is `code` written with any mix of upper- and lower-case letters.
pub open spec fn same_code_any_case(typed: Seq<char>, code: Seq<char>) -> bool {
    &&& typed.len() == code.len()
    &&& forall|i: int| 0 <= i < code.len() ==> #[trigger] typed[i] == code[i] || typed[i] == code_char_lower(code[i])
}

/// Law: a registration code typed in any letter case is read as that very code: such a typed
/// value is ASCII, so the submitted code is its upper case (see `submitted_code`), and that is
/// the code; and a value that is not such a variant of the code is read as another text.
pub proof fn lemma_code_read_in_any_case(typed: Seq<char>, code: Seq<char>)
    requires
        is_registration_code(code),
    ensures
        same_code_any_case(typed, code) ==> is_ascii_chars(typed) && ascii_upper(typed) == code,
        is_ascii_chars(typed) && ascii_upper(typed) == code ==> same_code_any_case(typed, code),
{
    if same_code_any_case(typed, code) {
        assert forall|i: int| 0 <= i < typed.len() implies '\0' <= #[trigger] typed[i] <= '\u{7f}' by {
            assert(is_code_char(code[i]));
        }
        assert forall|i: int| 0 <= i < typed.len() implies #[trigger] ascii_upper(typed)[i] == code[i] by {
            assert(is_code_char(code[i]));
        }
        assert(ascii_upper(typed) =~= code);
    }
    if is_ascii_chars(typed) && ascii_upper(typed) == code {
        assert forall|i: int| 0 <= i < code.len() implies #[trigger] typed[i] == code[i] || typed[i]
            == code_char_lower(code[i]) by {
            assert(ascii_upper(typed)[i] == ascii_upper_char(typed[i]));
            assert(is_code_char(code[i]));
        }
    }
}

/// The value a Discord user id is stored as in the `discord_id` column: the id's 64 bits read
/// as a signed number, as `as i64` reads them.
pub open spec fn discord_id_column(id: u64) -> int {
    if id <= i64::MAX {
        id as int
    } else {
        id - 0x1_0000_0000_0000_0000
    }
}

/// Converts a Discord user id to the value stored in the `discord_id` column.
pub fn discord_id_value(id: u64) -> (r: i64)
    ensures
        r as int == discord_id_column(id),
{
    if id <= 0x7fff_ffff_ffff_ffff {
        id as i64
    } else {
        ((id - 0x8000_0000_0000_0000) as i64) + i64::MIN
    }
}

/// A row of the pending codes: its id, the code, and the Minecraft account it was issued for.
#[derive(Debug)]
pub struct PendingCode {
    pub id: u128,
    pub code: String,
    pub player: String,
}

/// Where linking stands.
#[derive(Debug)]
pub enum LinkStage {
    /// Looking for the pending row of the submitted code.
    FindingPending,
    /// Looking for the user row of the Discord account.
    FindingUser { pending_id: u128, player: String },
    /// Writing the Minecraft account into the user row.
    Linking { pending_id: u128, player: String },
    /// Deleting the used pending row.
    Consuming { player: String },
    /// Finished.
    Done,
}

/// The model of a link stage.
pub enum LinkStageModel {
    FindingPending,
    FindingUser(u128, Seq<char>),
    Linking(u128, Seq<char>),
    Consuming(Seq<char>),
    Done,
}

impl View for LinkStage {
    type V = LinkStageModel;

    open spec fn view(&self) -> LinkStageModel {
        match self {
            LinkStage::FindingPending => LinkStageModel::FindingPending,
            LinkStage::FindingUser { pending_id, player } => LinkStageModel::FindingUser(*pending_id, player@),
            LinkStage::Linking { pending_id, player } => LinkStageModel::Linking(*pending_id, player@),
            LinkStage::Consuming { player } => LinkStageModel::Consuming(player@),
            LinkStage::Done => LinkStageModel::Done,
        }
    }
}

/// Linking the Discord account `discord_id` (as stored) to the account of a submitted code.
#[derive(Debug)]
pub struct LinkFlow {
    pub discord_id: i64,
    pub stage: LinkStage,
}

/// What the database answered.
#[derive(Debug)]
pub enum LinkEvent {
    /// The pending row that holds the submitted code, if any.
    Pending(Option<PendingCode>),
    /// The id of the user row of the Discord account, if any.
    User(Option<u128>),
    /// The user row was written.
    Linked,
    /// The pending row was deleted.
    Consumed,
}

/// The model of a pending row.
pub struct PendingModel {
    pub id: u128,
    pub code: Seq<char>,
    pub player: Seq<char>,
}

/// The model of a link event.
pub enum LinkEventModel {
    Pending(Option<PendingModel>),
    User(Option<u128>),
    Linked,
    Consumed,
}

impl View for LinkEvent {
    type V = LinkEventModel;

    open spec fn view(&self) -> LinkEventModel {
        match self {
            LinkEvent::Pending(p) => LinkEventModel::Pending(
                match p {
                    Some(row) => Some(PendingModel { id: row.id, code: row.code@, player: row.player@ }),
                    None => None,
                },
            ),
            LinkEvent::User(u) => LinkEventModel::User(*u),
            LinkEvent::Linked => LinkEventModel::Linked,
            LinkEvent::Consumed => LinkEventModel::Consumed,
        }
    }
}

/// What to do next.
#[derive(Debug)]
pub enum LinkAction {
    /// Look for the pending row that holds this code.
    FindPending(String),
    /// Look for the user row of this Discord account.
    FindUser(i64),
    /// Set the Minecraft account of the user row with this id.
    SetAccount { user: u128, player: String },
    /// Add a user row (with a fresh id) for this Discord account and Minecraft account.
    AddUser { discord_id: i64, player: String },
    /// Delete the pending row with this id.
    DeletePending(u128),
    /// Answer the submitter, privately, with this text.
    Reply(String),
}

/// The model of a link action.
pub enum LinkActionModel {
    FindPending(Seq<char>),
    FindUser(i64),
    SetAccount(u128, Seq<char>),
    AddUser(i64, Seq<char>),
    DeletePending(u128),
    Reply(Seq<char>),
}

impl View for LinkAction {
    type V = LinkActionModel;

    open spec fn view(&self) -> LinkActionModel {
        match self {
            LinkAction::FindPending(c) => LinkActionModel::FindPending(c@),
            LinkAction::FindUser(d) => LinkActionModel::FindUser(*d),
            LinkAction::SetAccount { user, player } => LinkActionModel::SetAccount(*user, player@),
            LinkAction::AddUser { discord_id, player } => LinkActionModel::AddUser(*discord_id, player@),
            LinkAction::DeletePending(id) => LinkActionModel::DeletePending(*id),
            LinkAction::Reply(t) => LinkActionModel::Reply(t@),
        }
    }
}

/// The answer to a code that matches no pending row.
pub open spec fn invalid_code_message() -> Seq<char> {
    "That code is invalid or has expired. Run `/register_minecraft` again to get a new one."@
}

/// The answer once the accounts are linked.
pub open spec fn linked_message(player: Seq<char>) -> Seq<char> {
    "You're registered! Your Discord account is now linked to Minecraft username `"@ + player
        + "`."@
}

/// The answer fits what the flow waits for.
pub open spec fn link_accepts(stage: LinkStageModel, event: LinkEventModel) -> bool {
    match stage {
        LinkStageModel::FindingPending => event is Pending,
        LinkStageModel::FindingUser(_, _) => event is User,
        LinkStageModel::Linking(_, _) => event is Linked,
        LinkStageModel::Consuming(_) => event is Consumed,
        LinkStageModel::Done => false,
    }
}

/// One step of linking: an unknown code is answered as invalid and nothing is written; a
/// known one leads to the user row, which gets the code's Minecraft account (a new row when
/// there is none), then the pending row is deleted, then the submitter is told.
pub open spec fn link_next(discord_id: i64, stage: LinkStageModel, event: LinkEventModel) -> (
    LinkStageModel,
    LinkActionModel,
) {
    match (stage, event) {
        (LinkStageModel::FindingPending, LinkEventModel::Pending(None)) => (
            LinkStageModel::Done,
            LinkActionModel::Reply(invalid_code_message()),
        ),
        (LinkStageModel::FindingPending, LinkEventModel::Pending(Some(row))) => (
            LinkStageModel::FindingUser(row.id, row.player),
            LinkActionModel::FindUser(discord_id),
        ),
        (LinkStageModel::FindingUser(id, player), LinkEventModel::User(Some(user))) => (
            LinkStageModel::Linking(id, player),
            LinkActionModel::SetAccount(user, player),
        ),
        (LinkStageModel::FindingUser(id, player), LinkEventModel::User(None)) => (
            LinkStageModel::Linking(id, player),
            LinkActionModel::AddUser(discord_id, player),
        ),
        (LinkStageModel::Linking(id, player), LinkEventModel::Linked) => (
            LinkStageModel::Consuming(player),
            LinkActionModel::DeletePending(id),
        ),
        (LinkStageModel::Consuming(player), LinkEventModel::Consumed) => (
            LinkStageModel::Done,
            LinkActionModel::Reply(linked_message(player)),
        ),
        _ => (LinkStageModel::Done, LinkActionModel::Reply(Seq::empty())),
    }
}

impl LinkFlow {
    /// Starts handling a submission of the code-entry modal by the Discord user `user_id`,
    /// with the code read out of it (see `submitted_code`): the code is looked up first.
    pub fn start(code: String, user_id: u64) -> (r: (LinkFlow, LinkAction))
        ensures
            r.0.discord_id as int == discord_id_column(user_id),
            r.0.stage@ == LinkStageModel::FindingPending,
            r.1@ == LinkActionModel::FindPending(code@),
    {
        (LinkFlow { discord_id: discord_id_value(user_id), stage: LinkStage::FindingPending }, LinkAction::FindPending(code))
    }

    /// Takes the database's answer and says what to do next.
    pub fn step(&mut self, event: LinkEvent) -> (a: LinkAction)
        requires
            link_accepts(old(self).stage@, event@),
        ensures
            final(self).discord_id == old(self).discord_id,
            (final(self).stage@, a@) == link_next(old(self).discord_id, old(self).stage@, event@),
    {
        let mut stage = LinkStage::Done;
        std::mem::swap(&mut stage, &mut self.stage);
        let (next, action) = match (stage, event) {
            (LinkStage::FindingPending, LinkEvent::Pending(None)) => (
                LinkStage::Done,
                LinkAction::Reply(
                    String::from_str(
                        "That code is invalid or has expired. Run `/register_minecraft` again to get a new one.",
                    ),
                ),
            ),
            (LinkStage::FindingPending, LinkEvent::Pending(Some(row))) => (
                LinkStage::FindingUser { pending_id: row.id, player: row.player },
                LinkAction::FindUser(self.discord_id),
            ),
            (LinkStage::FindingUser { pending_id, player }, LinkEvent::User(Some(user))) => {
                let action = LinkAction::SetAccount { user, player: player.clone() };
                (LinkStage::Linking { pending_id, player }, action)
            },
            (LinkStage::FindingUser { pending_id, player }, _) => {
                let action = LinkAction::AddUser { discord_id: self.discord_id, player: player.clone() };
                (LinkStage::Linking { pending_id, player }, action)
            },
            (LinkStage::Linking { pending_id, player }, _) => (
                LinkStage::Consuming { player },
                LinkAction::DeletePending(pending_id),
            ),
            (LinkStage::Consuming { player }, _) => {
                let text = String::from_str(
                    "You're registered! Your Discord account is now linked to Minecraft username `",
                ).concat(player.as_str()).concat("`.");
                (LinkStage::Done, LinkAction::Reply(text))
            },
            (_, _) => (LinkStage::Done, LinkAction::Reply(String::new())),
        };
        self.stage = next;
        action
    }
}


/// A run of the link flow for the stored Discord id `discord_id`: `stages[0]` and
/// `actions[0]` are what `start` gave, and each answer `events[i]`, accepted in `stages[i]`,
/// leads to `stages[i + 1]` and `actions[i + 1]`.
pub open spec fn link_run(
    discord_id: i64,
    stages: Seq<LinkStageModel>,
    events: Seq<LinkEventModel>,
    actions: Seq<LinkActionModel>,
) -> bool {
    &&& stages.len() == events.len() + 1
    &&& actions.len() == events.len() + 1
    &&& stages[0] == LinkStageModel::FindingPending
    &&& actions[0] is FindPending
    &&& forall|i: int|
        0 <= i < events.len() ==> link_accepts(stages[i], #[trigger] events[i]) && (
        stages[i + 1],
        actions[i + 1],
    ) == link_next(discord_id, stages[i], events[i])
}

/// The action writes to the database.
pub open spec fn is_write(a: LinkActionModel) -> bool {
    a is SetAccount || a is AddUser || a is DeletePending
}

/// Different accounts give different answers.
proof fn lemma_linked_message_injective(a: Seq<char>, b: Seq<char>)
    requires
        linked_message(a) == linked_message(b),
    ensures
        a == b,
{
    let pre = "You're registered! Your Discord account is now linked to Minecraft username `"@;
    let post = "`."@;
    let m = linked_message(a);
    assert(m.len() == pre.len() + a.len() + post.len());
    assert(m.len() == pre.len() + b.len() + post.len());
    assert(a =~= m.subrange(pre.len() as int, (pre.len() + a.len()) as int));
    assert(b =~= m.subrange(pre.len() as int, (pre.len() + b.len()) as int));
}

/// Law: the submitter is told that the accounts are linked only once the code was found in a
/// pending row issued for that very Minecraft account, the Discord account's user row was
/// given that account (or created with it), and the pending row was deleted, in that order.
pub proof fn lemma_linked_only_after_link_and_consume(
    discord_id: i64,
    stages: Seq<LinkStageModel>,
    events: Seq<LinkEventModel>,
    actions: Seq<LinkActionModel>,
    k: int,
    player: Seq<char>,
)
    requires
        link_run(discord_id, stages, events, actions),
        0 <= k < actions.len(),
        actions[k] == LinkActionModel::Reply(linked_message(player)),
    ensures
        k == 4,
        events[0] matches LinkEventModel::Pending(Some(row)) && row.player == player && actions[3]
            == LinkActionModel::DeletePending(row.id),
        actions[1] == LinkActionModel::FindUser(discord_id),
        actions[2] == LinkActionModel::AddUser(discord_id, player) || exists|user: u128|
            actions[2] == LinkActionModel::SetAccount(user, player),
{
    reveal_strlit("You're registered! Your Discord account is now linked to Minecraft username `");
    reveal_strlit("That code is invalid or has expired. Run `/register_minecraft` again to get a new one.");
    assert(k > 0);
    let e = events[k - 1];
    assert(link_accepts(stages[k - 1], e));
    if stages[k - 1] == LinkStageModel::FindingPending {
        assert(linked_message(player)[0] != invalid_code_message()[0]);
        assert(false);
    }
    if let LinkStageModel::Consuming(other) = stages[k - 1] {
        lemma_linked_message_injective(other, player);
    }
    assert(stages[k - 1] == LinkStageModel::Consuming(player));
    let e2 = events[k - 2];
    assert(link_accepts(stages[k - 2], e2));
    let e3 = events[k - 3];
    assert(link_accepts(stages[k - 3], e3));
    let e4 = events[k - 4];
    assert(link_accepts(stages[k - 4], e4));
    assert(stages[k - 4] == LinkStageModel::FindingPending);
    if k > 4 {
        let e5 = events[k - 5];
        assert(link_accepts(stages[k - 5], e5));
        assert(false);
    }
    if let LinkEventModel::User(Some(user)) = e3 {
        assert(actions[2] == LinkActionModel::SetAccount(user, player));
    }
}

/// Law: a code that matches no pending row changes nothing: the run ends with the invalid-code
/// answer and writes nothing to the database.
pub proof fn lemma_unknown_code_writes_nothing(
    discord_id: i64,
    stages: Seq<LinkStageModel>,
    events: Seq<LinkEventModel>,
    actions: Seq<LinkActionModel>,
)
    requires
        link_run(discord_id, stages, events, actions),
        events.len() > 0,
        events[0] == LinkEventModel::Pending(None),
    ensures
        actions.len() == 2,
        actions[1] == LinkActionModel::Reply(invalid_code_message()),
        forall|i: int| 0 <= i < actions.len() ==> !is_write(#[trigger] actions[i]),
{
    let e0 = events[0];
    assert(link_accepts(stages[0], e0));
    if events.len() > 1 {
        let e1 = events[1];
        assert(link_accepts(stages[1], e1));
        assert(false);
    }
}


/// A row of the users table: the Discord id (as stored) and the linked Minecraft account.
pub struct UserRecord {
    pub discord_id: i64,
    pub account: Option<Seq<char>>,
}

/// A row of the pending codes table: the code and the account it was issued for.
pub struct PendingRecord {
    pub code: Seq<char>,
    pub player: Seq<char>,
}

/// The users and pending codes tables, by row id.
pub struct Tables {
    pub users: Map<u128, UserRecord>,
    pub pending: Map<u128, PendingRecord>,
}

/// The answer is what the tables give to the action: a lookup finds the matching row, or
/// reports none when no row matches; a write is acknowledged.
pub open spec fn answers(t: Tables, action: LinkActionModel, event: LinkEventModel) -> bool {
    match action {
        LinkActionModel::FindPending(code) => match event {
            LinkEventModel::Pending(Some(row)) => t.pending.contains_key(row.id) && row.code == code
                && t.pending[row.id].code == code && t.pending[row.id].player == row.player,
            LinkEventModel::Pending(None) => forall|id: u128|
                #[trigger] t.pending.contains_key(id) ==> t.pending[id].code != code,
            _ => false,
        },
        LinkActionModel::FindUser(d) => match event {
            LinkEventModel::User(Some(u)) => t.users.contains_key(u) && t.users[u].discord_id == d,
            LinkEventModel::User(None) => forall|id: u128|
                #[trigger] t.users.contains_key(id) ==> t.users[id].discord_id != d,
            _ => false,
        },
        LinkActionModel::SetAccount(_, _) => event is Linked,
        LinkActionModel::AddUser(_, _) => event is Linked,
        LinkActionModel::DeletePending(_) => event is Consumed,
        LinkActionModel::Reply(_) => true,
    }
}

/// What an action does to the tables; an added user row gets the id `fresh`.
pub open spec fn apply(t: Tables, action: LinkActionModel, fresh: u128) -> Tables {
    match action {
        LinkActionModel::SetAccount(u, p) => if t.users.contains_key(u) {
            Tables {
                users: t.users.insert(u, UserRecord { discord_id: t.users[u].discord_id, account: Some(p) }),
                pending: t.pending,
            }
        } else {
            t
        },
        LinkActionModel::AddUser(d, p) => Tables {
            users: t.users.insert(fresh, UserRecord { discord_id: d, account: Some(p) }),
            pending: t.pending,
        },
        LinkActionModel::DeletePending(id) => Tables { users: t.users, pending: t.pending.remove(id) },
        _ => t,
    }
}

/// A run of the link flow against the tables, with no other writer: `tables[i]` is the state
/// once `actions[i]` is done, each answer `events[i]` is what `tables[i]` gives to
/// `actions[i]`, and an added user row gets an id `fresh[i]` not in use.
pub open spec fn link_run_on(
    discord_id: i64,
    stages: Seq<LinkStageModel>,
    events: Seq<LinkEventModel>,
    actions: Seq<LinkActionModel>,
    tables: Seq<Tables>,
    fresh: Seq<u128>,
) -> bool {
    &&& link_run(discord_id, stages, events, actions)
    &&& tables.len() == actions.len()
    &&& fresh.len() == actions.len()
    &&& forall|i: int| 0 <= i < events.len() ==> answers(tables[i], actions[i], #[trigger] events[i])
    &&& forall|i: int|
        0 <= i < events.len() ==> !tables[i].users.contains_key(fresh[i + 1]) && #[trigger] tables[i
            + 1] == apply(tables[i], actions[i + 1], fresh[i + 1])
}

/// Each Discord id has at most one users row.
pub open spec fn one_row_per_discord_id(t: Tables) -> bool {
    forall|a: u128, b: u128|
        #[trigger] t.users.contains_key(a) && #[trigger] t.users.contains_key(b) && a != b
            ==> t.users[a].discord_id != t.users[b].discord_id
}

/// The users rows of other Discord ids than `d` are the same in both tables.
pub open spec fn others_unchanged(t0: Tables, t: Tables, d: i64) -> bool {
    &&& forall|id: u128|
        #[trigger] t0.users.contains_key(id) && t0.users[id].discord_id != d ==> t.users.contains_key(id)
            && t.users[id] == t0.users[id]
    &&& forall|id: u128|
        #[trigger] t.users.contains_key(id) && t.users[id].discord_id != d ==> t0.users.contains_key(id)
            && t0.users[id] == t.users[id]
}

/// In a run, whenever the user row is being looked for, the action at that point is the
/// lookup of the Discord id.
proof fn lemma_finding_user_looks_up(
    discord_id: i64,
    stages: Seq<LinkStageModel>,
    events: Seq<LinkEventModel>,
    actions: Seq<LinkActionModel>,
    i: int,
)
    requires
        link_run(discord_id, stages, events, actions),
        0 <= i < stages.len(),
        stages[i] is FindingUser,
    ensures
        actions[i] == LinkActionModel::FindUser(discord_id),
{
    if i > 0 {
        let e = events[i - 1];
        assert(link_accepts(stages[i - 1], e));
    }
}

/// Law: with no other writer, a submission keeps one users row per Discord id, and leaves the
/// users rows of every other Discord id as they were; at every point of the run.
pub proof fn lemma_one_row_per_discord_id(
    discord_id: i64,
    stages: Seq<LinkStageModel>,
    events: Seq<LinkEventModel>,
    actions: Seq<LinkActionModel>,
    tables: Seq<Tables>,
    fresh: Seq<u128>,
    i: int,
)
    requires
        link_run_on(discord_id, stages, events, actions, tables, fresh),
        one_row_per_discord_id(tables[0]),
        0 <= i < tables.len(),
    ensures
        one_row_per_discord_id(tables[i]),
        others_unchanged(tables[0], tables[i], discord_id),
    decreases i,
{
    if i > 0 {
        lemma_one_row_per_discord_id(discord_id, stages, events, actions, tables, fresh, i - 1);
        let j = i - 1;
        let e = events[j];
        assert(link_accepts(stages[j], e));
        assert(answers(tables[j], actions[j], e));
        assert(tables[i] == apply(tables[j], actions[i], fresh[i]));
        let t = tables[j];
        let t2 = tables[i];
        match actions[i] {
            LinkActionModel::AddUser(d, p) => {
                assert(stages[j] is FindingUser);
                lemma_finding_user_looks_up(discord_id, stages, events, actions, j);
                assert(d == discord_id);
                assert(e == LinkEventModel::User(None));
                assert(!t.users.contains_key(fresh[i]));
                assert forall|a: u128, b: u128|
                    #[trigger] t2.users.contains_key(a) && #[trigger] t2.users.contains_key(b) && a != b
                        implies t2.users[a].discord_id != t2.users[b].discord_id by {
                    if a == fresh[i] {
                        assert(t.users.contains_key(b));
                    } else if b == fresh[i] {
                        assert(t.users.contains_key(a));
                    } else {
                        assert(t.users.contains_key(a) && t.users.contains_key(b));
                    }
                }
            },
            LinkActionModel::SetAccount(u, p) => {
                assert(stages[j] is FindingUser);
                lemma_finding_user_looks_up(discord_id, stages, events, actions, j);
                assert(e == LinkEventModel::User(Some(u)));
                assert(t.users.contains_key(u) && t.users[u].discord_id == discord_id);
                assert forall|a: u128, b: u128|
                    #[trigger] t2.users.contains_key(a) && #[trigger] t2.users.contains_key(b) && a != b
                        implies t2.users[a].discord_id != t2.users[b].discord_id by {
                    assert(t.users.contains_key(a) && t.users.contains_key(b));
                }
            },
            _ => {},
        }
    }
}

/// Law: with no other writer, a submission that links an account removes the pending row of
/// its code; as codes are unique among pending rows, no pending row holds that code any more.
pub proof fn lemma_code_consumed(
    discord_id: i64,
    stages: Seq<LinkStageModel>,
    events: Seq<LinkEventModel>,
    actions: Seq<LinkActionModel>,
    tables: Seq<Tables>,
    fresh: Seq<u128>,
    code: Seq<char>,
    player: Seq<char>,
)
    requires
        link_run_on(discord_id, stages, events, actions, tables, fresh),
        actions[0] == LinkActionModel::FindPending(code),
        forall|a: u128, b: u128|
            #[trigger] tables[0].pending.contains_key(a) && #[trigger] tables[0].pending.contains_key(b)
                && tables[0].pending[a].code == code && tables[0].pending[b].code == code ==> a == b,
        actions[actions.len() - 1] == LinkActionModel::Reply(linked_message(player)),
    ensures
        forall|id: u128|
            #[trigger] tables[actions.len() - 1].pending.contains_key(id)
                ==> tables[actions.len() - 1].pending[id].code != code,
{
    let k = actions.len() - 1;
    lemma_linked_only_after_link_and_consume(discord_id, stages, events, actions, k, player);
    let e0 = events[0];
    let e1 = events[1];
    let e2 = events[2];
    let e3 = events[3];
    assert(answers(tables[0], actions[0], e0));
    assert(tables[1] == apply(tables[0], actions[1], fresh[1]));
    assert(tables[2] == apply(tables[1], actions[2], fresh[2]));
    assert(tables[3] == apply(tables[2], actions[3], fresh[3]));
    assert(tables[4] == apply(tables[3], actions[4], fresh[4]));
    assert(link_accepts(stages[1], e1));
    if let LinkEventModel::Pending(Some(row)) = e0 {
        assert(tables[2].pending == tables[0].pending);
        assert(tables[3].pending == tables[0].pending.remove(row.id));
        assert forall|id: u128| #[trigger] tables[4].pending.contains_key(id) implies tables[4].pending[id].code
            != code by {
            assert(tables[0].pending.contains_key(id) && id != row.id);
        }
    }
}

/// Law: a code links at most one account: once a submission has linked an account with it,
/// a later submission of the same code (by anyone, with no new code issued in between) is
/// answered as invalid and writes nothing.
pub proof fn lemma_code_links_once(
    discord_id: i64,
    stages: Seq<LinkStageModel>,
    events: Seq<LinkEventModel>,
    actions: Seq<LinkActionModel>,
    tables: Seq<Tables>,
    fresh: Seq<u128>,
    player: Seq<char>,
    other_id: i64,
    stages2: Seq<LinkStageModel>,
    events2: Seq<LinkEventModel>,
    actions2: Seq<LinkActionModel>,
    tables2: Seq<Tables>,
    fresh2: Seq<u128>,
    code: Seq<char>,
)
    requires
        link_run_on(discord_id, stages, events, actions, tables, fresh),
        actions[0] == LinkActionModel::FindPending(code),
        forall|a: u128, b: u128|
            #[trigger] tables[0].pending.contains_key(a) && #[trigger] tables[0].pending.contains_key(b)
                && tables[0].pending[a].code == code && tables[0].pending[b].code == code ==> a == b,
        actions[actions.len() - 1] == LinkActionModel::Reply(linked_message(player)),
        link_run_on(other_id, stages2, events2, actions2, tables2, fresh2),
        tables2[0] == tables[actions.len() - 1],
        actions2[0] == LinkActionModel::FindPending(code),
        events2.len() > 0,
    ensures
        events2[0] == LinkEventModel::Pending(None),
        actions2.len() == 2,
        actions2[1] == LinkActionModel::Reply(invalid_code_message()),
        tables2[1] == tables2[0],
{
    lemma_code_consumed(discord_id, stages, events, actions, tables, fresh, code, player);
    let e = events2[0];
    assert(answers(tables2[0], actions2[0], e));
    assert(link_accepts(stages2[0], e));
    if let LinkEventModel::Pending(Some(row)) = e {
        assert(tables2[0].pending.contains_key(row.id));
        assert(false);
    }
    lemma_unknown_code_writes_nothing(other_id, stages2, events2, actions2);
    assert(tables2[1] == apply(tables2[0], actions2[1], fresh2[1]));
}

} // verus!

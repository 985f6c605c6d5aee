//! Buttons: what each one runs, how its custom id carries its arguments, how incoming
//! interactions are routed, and how the pressed button is shown as loading.
use vstd::prelude::*;
use crate::json::{escaped, json_string, json_string_spec, lemma_read_escaped, read_json_string, read_string};
use crate::reply::Embed;
use crate::text::{same_text, split_once, split_once_spec, starts_with};

verus! {

/// The handlers that a button can run, with the arguments they take.
#[derive(Debug)]
pub enum ButtonAction {
    SendNewCode { player: String },
    EnterCode,
    ConfirmSmite { player: String, payer: String },
    CancelSmite { player: String },
}

/// The handlers, as the model sees them.
pub enum ButtonHandler {
    SendNewCode,
    EnterCode,
    ConfirmSmite,
    CancelSmite,
}

/// The model of a button action.
pub enum ActionModel {
    SendNewCode(Seq<char>),
    EnterCode,
    ConfirmSmite(Seq<char>, Seq<char>),
    CancelSmite(Seq<char>),
}

impl View for ButtonAction {
    type V = ActionModel;

    open spec fn view(&self) -> ActionModel {
        match self {
            ButtonAction::SendNewCode { player } => ActionModel::SendNewCode(player@),
            ButtonAction::EnterCode => ActionModel::EnterCode,
            ButtonAction::ConfirmSmite { player, payer } => ActionModel::ConfirmSmite(player@, payer@),
            ButtonAction::CancelSmite { player } => ActionModel::CancelSmite(player@),
        }
    }
}

/// A button under a message: what it runs, its label, and whether it is styled as dangerous.
#[derive(Debug)]
pub struct Button {
    pub action: ButtonAction,
    pub label: String,
    pub danger: bool,
}

/// A message with buttons under it.
#[derive(Debug)]
pub struct Prompt {
    pub embed: Embed,
    pub buttons: Vec<Button>,
}

/// The model of a button.
pub struct ButtonModel {
    pub action: ActionModel,
    pub label: Seq<char>,
    pub danger: bool,
}

impl View for Button {
    type V = ButtonModel;

    open spec fn view(&self) -> ButtonModel {
        ButtonModel { action: self.action@, label: self.label@, danger: self.danger }
    }
}

/// The name that identifies a handler in a button's custom id: the handler function's name.
pub open spec fn handler_name_spec(h: ButtonHandler) -> Seq<char> {
    match h {
        ButtonHandler::SendNewCode => "send_new_code"@,
        ButtonHandler::EnterCode => "enter_code"@,
        ButtonHandler::ConfirmSmite => "confirm_smite"@,
        ButtonHandler::CancelSmite => "cancel_smite"@,
    }
}

/// The handler of an action.
pub open spec fn handler_of(a: ActionModel) -> ButtonHandler {
    match a {
        ActionModel::SendNewCode(_) => ButtonHandler::SendNewCode,
        ActionModel::EnterCode => ButtonHandler::EnterCode,
        ActionModel::ConfirmSmite(_, _) => ButtonHandler::ConfirmSmite,
        ActionModel::CancelSmite(_) => ButtonHandler::CancelSmite,
    }
}

impl ButtonAction {
    /// The name of the handler that this action runs.
    pub fn handler_name(&self) -> (s: &'static str)
        ensures
            s@ == handler_name_spec(handler_of(self@)),
    {
        match self {
            ButtonAction::SendNewCode { .. } => "send_new_code",
            ButtonAction::EnterCode => "enter_code",
            ButtonAction::ConfirmSmite { .. } => "confirm_smite",
            ButtonAction::CancelSmite { .. } => "cancel_smite",
        }
    }
}

/// The JSON of a handler's fields, as `serde_json` writes a struct of them: an object with the
/// fields in order.
pub open spec fn fields_json_spec(a: ActionModel) -> Seq<char> {
    match a {
        ActionModel::SendNewCode(p) => "{\"player\":"@ + json_string_spec(p) + "}"@,
        ActionModel::EnterCode => "{}"@,
        ActionModel::ConfirmSmite(p, q) => "{\"player\":"@ + json_string_spec(p) + ",\"payer\":"@
            + json_string_spec(q) + "}"@,
        ActionModel::CancelSmite(p) => "{\"player\":"@ + json_string_spec(p) + "}"@,
    }
}

/// The custom id of a button: the name of the handler it runs, a `;`, and the JSON of the
/// handler's fields.
pub open spec fn custom_id_spec(a: ActionModel) -> Seq<char> {
    handler_name_spec(handler_of(a)) + ";"@ + fields_json_spec(a)
}

/// Builds the custom id of the button that runs this action.
pub fn button_custom_id(a: &ButtonAction) -> (id: String)
    ensures
        id@ == custom_id_spec(a@),
{
    let head = String::from_str(a.handler_name()).concat(";");
    match a {
        ButtonAction::SendNewCode { player } | ButtonAction::CancelSmite { player } => head.concat(
            "{\"player\":",
        ).concat(json_string(player.as_str()).as_str()).concat("}"),
        ButtonAction::EnterCode => head.concat("{}"),
        ButtonAction::ConfirmSmite { player, payer } => head.concat("{\"player\":").concat(
            json_string(player.as_str()).as_str(),
        ).concat(",\"payer\":").concat(json_string(payer.as_str()).as_str()).concat("}"),
    }
}

/// An interaction that the bot receives, as far as routing needs it.
pub enum Interaction {
    Component { custom_id: String },
    Modal { custom_id: String },
    Other,
}

/// The model of an interaction.
pub enum InteractionModel {
    Component(Seq<char>),
    Modal(Seq<char>),
    Other,
}

impl View for Interaction {
    type V = InteractionModel;

    open spec fn view(&self) -> InteractionModel {
        match self {
            Interaction::Component { custom_id } => InteractionModel::Component(custom_id@),
            Interaction::Modal { custom_id } => InteractionModel::Modal(custom_id@),
            Interaction::Other => InteractionModel::Other,
        }
    }
}

/// Where an interaction goes.
#[derive(Debug)]
pub enum Route {
    /// Run the "send new code" button handler for this player.
    SendNewCode(String),
    /// Run the "enter code" button handler.
    EnterCode,
    /// Run the "confirm smite" button handler for this target and payer.
    ConfirmSmite { player: String, payer: String },
    /// Run the "cancel smite" button handler for this target.
    CancelSmite(String),
    /// A button of a known handler whose fields cannot be read: the bot refuses to go on.
    BadButtonData,
    /// The submission of the code-entry modal.
    EnterCodeModal,
    /// Nothing to do.
    Unhandled,
}

/// The model of a route.
pub enum RouteModel {
    SendNewCode(Seq<char>),
    EnterCode,
    ConfirmSmite(Seq<char>, Seq<char>),
    CancelSmite(Seq<char>),
    BadButtonData,
    EnterCodeModal,
    Unhandled,
}

impl View for Route {
    type V = RouteModel;

    open spec fn view(&self) -> RouteModel {
        match self {
            Route::SendNewCode(p) => RouteModel::SendNewCode(p@),
            Route::EnterCode => RouteModel::EnterCode,
            Route::ConfirmSmite { player, payer } => RouteModel::ConfirmSmite(player@, payer@),
            Route::CancelSmite(p) => RouteModel::CancelSmite(p@),
            Route::BadButtonData => RouteModel::BadButtonData,
            Route::EnterCodeModal => RouteModel::EnterCodeModal,
            Route::Unhandled => RouteModel::Unhandled,
        }
    }
}

/// Where the button of an action goes: to its handler, with its fields.
pub open spec fn route_of(a: ActionModel) -> RouteModel {
    match a {
        ActionModel::SendNewCode(p) => RouteModel::SendNewCode(p),
        ActionModel::EnterCode => RouteModel::EnterCode,
        ActionModel::ConfirmSmite(p, q) => RouteModel::ConfirmSmite(p, q),
        ActionModel::CancelSmite(p) => RouteModel::CancelSmite(p),
    }
}

/// The custom id of the modal in which a registration code is entered.
pub open spec fn enter_code_modal_id_spec() -> Seq<char> {
    "enter_code_modal"@
}

/// The start of the JSON of a `player` field, up to the opening quote of its value.
pub open spec fn player_key() -> Seq<char> {
    "{\"player\":\""@
}

/// The JSON between the `player` value and the `payer` value, up to its opening quote.
pub open spec fn payer_key() -> Seq<char> {
    ",\"payer\":\""@
}

/// Reads the fields `{"player":…}`.
pub open spec fn player_field(data: Seq<char>) -> Option<Seq<char>> {
    if player_key().is_prefix_of(data) {
        match read_string(data.skip(player_key().len() as int)) {
            Some((p, rest)) => if rest == "}"@ {
                Some(p)
            } else {
                None
            },
            None => None,
        }
    } else {
        None
    }
}

/// Reads the fields `{"player":…,"payer":…}`.
pub open spec fn player_payer_fields(data: Seq<char>) -> Option<(Seq<char>, Seq<char>)> {
    if player_key().is_prefix_of(data) {
        match read_string(data.skip(player_key().len() as int)) {
            Some((p, rest)) => if payer_key().is_prefix_of(rest) {
                match read_string(rest.skip(payer_key().len() as int)) {
                    Some((q, last)) => if last == "}"@ {
                        Some((p, q))
                    } else {
                        None
                    },
                    None => None,
                }
            } else {
                None
            },
            None => None,
        }
    } else {
        None
    }
}

/// Where a button goes, given the handler name and the fields of its custom id: a known
/// handler runs with the fields read from the JSON (fields that cannot be read stop the bot);
/// an unknown name is not handled.
pub open spec fn button_route_spec(name: Seq<char>, data: Seq<char>) -> RouteModel {
    if name == handler_name_spec(ButtonHandler::SendNewCode) {
        match player_field(data) {
            Some(p) => RouteModel::SendNewCode(p),
            None => RouteModel::BadButtonData,
        }
    } else if name == handler_name_spec(ButtonHandler::EnterCode) {
        if data == "{}"@ {
            RouteModel::EnterCode
        } else {
            RouteModel::BadButtonData
        }
    } else if name == handler_name_spec(ButtonHandler::ConfirmSmite) {
        match player_payer_fields(data) {
            Some((p, q)) => RouteModel::ConfirmSmite(p, q),
            None => RouteModel::BadButtonData,
        }
    } else if name == handler_name_spec(ButtonHandler::CancelSmite) {
        match player_field(data) {
            Some(p) => RouteModel::CancelSmite(p),
            None => RouteModel::BadButtonData,
        }
    } else {
        RouteModel::Unhandled
    }
}

/// Where an interaction goes. A component interaction whose custom id holds a `;` is a
/// button: the text before the first `;` names the handler and the text after it holds the
/// fields. A modal submission goes to the code-entry handler when its id is that modal's.
pub open spec fn route_spec(event: InteractionModel) -> RouteModel {
    match event {
        InteractionModel::Component(id) => match split_once_spec(id, ';') {
            None => RouteModel::Unhandled,
            Some((name, data)) => button_route_spec(name, data),
        },
        InteractionModel::Modal(id) => if id == enter_code_modal_id_spec() {
            RouteModel::EnterCodeModal
        } else {
            RouteModel::Unhandled
        },
        InteractionModel::Other => RouteModel::Unhandled,
    }
}

/// Whether `data` is exactly `}` from position `at` on.
fn closes_at(data: &str, at: usize) -> (b: bool)
    requires
        at <= data@.len(),
    ensures
        b == (data@.skip(at as int) == "}"@),
{
    proof {
        reveal_strlit("}");
    }
    let n = data.unicode_len();
    if n - at == 1 && data.get_char(at) == '}' {
        assert(data@.skip(at as int) =~= "}"@);
        true
    } else {
        if n - at == 1 {
            assert(data@.skip(at as int)[0] != "}"@[0]);
        } else {
            assert(data@.skip(at as int).len() != "}"@.len());
        }
        false
    }
}

/// Reads the `player` field of `{"player":…}`.
fn read_player_field(data: &str) -> (r: Option<String>)
    ensures
        r matches Some(p) ==> player_field(data@) == Some(p@),
        r is None ==> player_field(data@) is None,
{
    proof {
        reveal_strlit("{\"player\":\"");
    }
    if !starts_with(data, "{\"player\":\"") {
        return None;
    }
    match read_json_string(data, 11) {
        Some((p, end)) => {
            if closes_at(data, end) {
                Some(p)
            } else {
                None
            }
        },
        None => None,
    }
}

/// Reads the fields of `{"player":…,"payer":…}`.
fn read_player_payer_fields(data: &str) -> (r: Option<(String, String)>)
    ensures
        r matches Some((p, q)) ==> player_payer_fields(data@) == Some((p@, q@)),
        r is None ==> player_payer_fields(data@) is None,
{
    proof {
        reveal_strlit("{\"player\":\"");
        reveal_strlit(",\"payer\":\"");
    }
    if !starts_with(data, "{\"player\":\"") {
        return None;
    }
    match read_json_string(data, 11) {
        Some((p, end)) => {
            let rest = data.substring_char(end, data.unicode_len());
            assert(rest@ =~= data@.skip(end as int));
            if !starts_with(rest, ",\"payer\":\"") {
                return None;
            }
            match read_json_string(rest, 10) {
                Some((q, end2)) => {
                    if closes_at(rest, end2) {
                        Some((p, q))
                    } else {
                        None
                    }
                },
                None => None,
            }
        },
        None => None,
    }
}

/// Routes a button press, given the handler name and the fields of its custom id.
pub fn route_button(name: &str, data: &str) -> (r: Route)
    ensures
        r@ == button_route_spec(name@, data@),
{
    proof {
        reveal_strlit("{}");
    }
    if same_text(name, "send_new_code") {
        match read_player_field(data) {
            Some(p) => Route::SendNewCode(p),
            None => Route::BadButtonData,
        }
    } else if same_text(name, "enter_code") {
        if same_text(data, "{}") {
            Route::EnterCode
        } else {
            Route::BadButtonData
        }
    } else if same_text(name, "confirm_smite") {
        match read_player_payer_fields(data) {
            Some((player, payer)) => Route::ConfirmSmite { player, payer },
            None => Route::BadButtonData,
        }
    } else if same_text(name, "cancel_smite") {
        match read_player_field(data) {
            Some(p) => Route::CancelSmite(p),
            None => Route::BadButtonData,
        }
    } else {
        Route::Unhandled
    }
}

/// Routes an interaction. The button of any action comes back to that action's handler with
/// exactly the fields it was built with.
pub fn route_interaction(event: &Interaction) -> (r: Route)
    ensures
        r@ == route_spec(event@),
        forall|a: ActionModel|
            event@ == InteractionModel::Component(#[trigger] custom_id_spec(a)) ==> r@ == route_of(a),
{
    match event {
        Interaction::Component { custom_id } => {
            proof {
                assert forall|a: ActionModel|
                    custom_id@ == #[trigger] custom_id_spec(a) implies route_spec(event@) == route_of(a) by {
                    lemma_custom_id_routes(a);
                }
            }
            match split_once(custom_id.as_str(), ';') {
                None => Route::Unhandled,
                Some((name, data)) => route_button(name.as_str(), data.as_str()),
            }
        },
        Interaction::Modal { custom_id } => {
            if same_text(custom_id.as_str(), "enter_code_modal") {
                Route::EnterCodeModal
            } else {
                Route::Unhandled
            }
        },
        Interaction::Other => Route::Unhandled,
    }
}

/// Law: the custom id of any action routes back to that action's handler with exactly the
/// action's fields.
pub proof fn lemma_custom_id_routes(a: ActionModel)
    ensures
        route_spec(InteractionModel::Component(custom_id_spec(a))) == route_of(a),
{
    lemma_custom_id_splits(a);
    lemma_fields_read_back(a);
}

/// A custom id splits, at its first `;`, into the handler's name and the fields' JSON.
proof fn lemma_custom_id_splits(a: ActionModel)
    ensures
        split_once_spec(custom_id_spec(a), ';') == Some((handler_name_spec(handler_of(a)), fields_json_spec(a))),
{
    reveal_strlit("send_new_code");
    reveal_strlit("enter_code");
    reveal_strlit("confirm_smite");
    reveal_strlit("cancel_smite");
    reveal_strlit(";");
    let name = handler_name_spec(handler_of(a));
    let data = fields_json_spec(a);
    let id = custom_id_spec(a);
    let i = name.len() as int;
    assert(id[i] == ';');
    assert forall|k: int| 0 <= k < i implies id[k] != ';' by {
        assert(id[k] == name[k]);
    }
    assert(crate::text::is_first_index_of(id, ';', i));
    let w = choose|w: int| crate::text::is_first_index_of(id, ';', w);
    assert(w == i);
    assert(id.subrange(0, i) =~= name);
    assert(id.subrange(i + 1, id.len() as int) =~= data);
}

/// The fields' JSON reads back as the fields, under the handler's name.
proof fn lemma_fields_read_back(a: ActionModel)
    ensures
        button_route_spec(handler_name_spec(handler_of(a)), fields_json_spec(a)) == route_of(a),
{
    reveal_strlit("send_new_code");
    reveal_strlit("enter_code");
    reveal_strlit("confirm_smite");
    reveal_strlit("cancel_smite");
    match a {
        ActionModel::SendNewCode(p) => {
            lemma_player_field_reads(p);
        },
        ActionModel::CancelSmite(p) => {
            lemma_player_field_reads(p);
            assert(handler_name_spec(ButtonHandler::CancelSmite)[0] != handler_name_spec(ButtonHandler::SendNewCode)[0]);
            assert(handler_name_spec(ButtonHandler::CancelSmite)[0] != handler_name_spec(ButtonHandler::EnterCode)[0]);
            assert(handler_name_spec(ButtonHandler::CancelSmite)[1] != handler_name_spec(ButtonHandler::ConfirmSmite)[1]);
            assert(handler_name_spec(ButtonHandler::CancelSmite) != handler_name_spec(ButtonHandler::SendNewCode));
            assert(handler_name_spec(ButtonHandler::CancelSmite) != handler_name_spec(ButtonHandler::EnterCode));
            assert(handler_name_spec(ButtonHandler::CancelSmite) != handler_name_spec(ButtonHandler::ConfirmSmite));
        },
        ActionModel::EnterCode => {
            assert(handler_name_spec(ButtonHandler::EnterCode)[0] != handler_name_spec(ButtonHandler::SendNewCode)[0]);
        },
        ActionModel::ConfirmSmite(p, q) => {
            lemma_player_payer_fields_read(p, q);
            assert(handler_name_spec(ButtonHandler::ConfirmSmite)[0] != handler_name_spec(ButtonHandler::SendNewCode)[0]);
            assert(handler_name_spec(ButtonHandler::ConfirmSmite)[0] != handler_name_spec(ButtonHandler::EnterCode)[0]);
        },
    }
}

proof fn lemma_player_field_reads(p: Seq<char>)
    ensures
        player_field("{\"player\":"@ + json_string_spec(p) + "}"@) == Some(p),
{
    reveal_strlit("{\"player\":");
    reveal_strlit("{\"player\":\"");
    reveal_strlit("}");
    let data = "{\"player\":"@ + json_string_spec(p) + "}"@;
    lemma_read_escaped(p, "}"@);
    assert(data =~= player_key() + (escaped(p) + seq!['"'] + "}"@));
    assert(data.skip(player_key().len() as int) =~= escaped(p) + seq!['"'] + "}"@);
}

proof fn lemma_player_payer_fields_read(p: Seq<char>, q: Seq<char>)
    ensures
        player_payer_fields(
            "{\"player\":"@ + json_string_spec(p) + ",\"payer\":"@ + json_string_spec(q) + "}"@,
        ) == Some((p, q)),
{
    reveal_strlit("{\"player\":");
    reveal_strlit("{\"player\":\"");
    reveal_strlit(",\"payer\":");
    reveal_strlit(",\"payer\":\"");
    reveal_strlit("}");
    let data = "{\"player\":"@ + json_string_spec(p) + ",\"payer\":"@ + json_string_spec(q) + "}"@;
    let tail = payer_key() + (escaped(q) + seq!['"'] + "}"@);
    lemma_read_escaped(p, tail);
    lemma_read_escaped(q, "}"@);
    assert(data =~= player_key() + (escaped(p) + seq!['"'] + tail));
    assert(data.skip(player_key().len() as int) =~= escaped(p) + seq!['"'] + tail);
    assert(tail.skip(payer_key().len() as int) =~= escaped(q) + seq!['"'] + "}"@);
}

/// A component of a message row, as far as marking the pressed button needs it: a button
/// with its custom id (a link button has none), a text input, a select menu, or another kind.
pub enum ComponentKind {
    Button { custom_id: Option<String> },
    InputText,
    SelectMenu,
    Other,
}

/// The model of a component.
pub enum ComponentModel {
    Button(Option<Seq<char>>),
    InputText,
    SelectMenu,
    Other,
}

impl View for ComponentKind {
    type V = ComponentModel;

    open spec fn view(&self) -> ComponentModel {
        match self {
            ComponentKind::Button { custom_id } => ComponentModel::Button(
                match custom_id {
                    Some(id) => Some(id@),
                    None => None,
                },
            ),
            ComponentKind::InputText => ComponentModel::InputText,
            ComponentKind::SelectMenu => ComponentModel::SelectMenu,
            ComponentKind::Other => ComponentModel::Other,
        }
    }
}

/// The model of a message's rows of components.
pub open spec fn rows_model(rows: Seq<Vec<ComponentKind>>) -> Seq<Seq<ComponentModel>> {
    rows.map_values(|r: Vec<ComponentKind>| r@.map_values(|c: ComponentKind| c@))
}

/// A row of buttons to show again, by its position in the message, with the buttons to show
/// as loading.
#[derive(Debug)]
pub struct RowPlan {
    pub row: usize,
    pub loading: Vec<bool>,
}

/// The model of a row plan.
pub struct RowPlanModel {
    pub row: int,
    pub loading: Seq<bool>,
}

impl View for RowPlan {
    type V = RowPlanModel;

    open spec fn view(&self) -> RowPlanModel {
        RowPlanModel { row: self.row as int, loading: self.loading@ }
    }
}

/// The row begins with a button.
pub open spec fn opens_with_button(row: Seq<ComponentModel>) -> bool {
    row.len() > 0 && row[0] is Button
}

/// Every component of the row is a button.
pub open spec fn only_buttons(row: Seq<ComponentModel>) -> bool {
    forall|i: int| 0 <= i < row.len() ==> #[trigger] row[i] is Button
}

/// The component is the button that was pressed.
pub open spec fn is_pressed(c: ComponentModel, pressed: Seq<char>) -> bool {
    c matches ComponentModel::Button(Some(id)) && id == pressed
}

/// Which buttons of a row show as loading: the pressed one, and no other.
pub open spec fn loading_flags(row: Seq<ComponentModel>, pressed: Seq<char>) -> Seq<bool> {
    Seq::new(row.len(), |i: int| is_pressed(row[i], pressed))
}

/// The rows that stay under the message once a button is pressed: each row that begins with
/// a button, in order, with the pressed button marked; every other row is dropped.
pub open spec fn loading_plan_spec(rows: Seq<Seq<ComponentModel>>, pressed: Seq<char>) -> Seq<RowPlanModel>
    decreases rows.len(),
{
    if rows.len() == 0 {
        Seq::empty()
    } else {
        let before = loading_plan_spec(rows.drop_last(), pressed);
        if opens_with_button(rows.last()) {
            before.push(RowPlanModel { row: rows.len() - 1, loading: loading_flags(rows.last(), pressed) })
        } else {
            before
        }
    }
}

/// Plans the update that shows the pressed button (custom id `pressed`) as disabled and
/// "Loading..." while its handler works. A row that begins with a button must hold only
/// buttons.
pub fn loading_plan(rows: &Vec<Vec<ComponentKind>>, pressed: &str) -> (plan: Vec<RowPlan>)
    requires
        forall|r: int|
            0 <= r < rows@.len() && opens_with_button(#[trigger] rows_model(rows@)[r]) ==> only_buttons(
                rows_model(rows@)[r],
            ),
    ensures
        plan@.map_values(|p: RowPlan| p@) == loading_plan_spec(rows_model(rows@), pressed@),
{
    let ghost model = rows_model(rows@);
    let mut plan: Vec<RowPlan> = Vec::new();
    let mut r: usize = 0;
    assert(model.take(0) =~= Seq::<Seq<ComponentModel>>::empty());
    while r < rows.len()
        invariant
            model == rows_model(rows@),
            r <= rows@.len(),
            plan@.map_values(|p: RowPlan| p@) == loading_plan_spec(model.take(r as int), pressed@),
        decreases rows@.len() - r,
    {
        let row = &rows[r];
        assert(model[r as int] == row@.map_values(|c: ComponentKind| c@));
        assert(model.take(r + 1).drop_last() =~= model.take(r as int));
        assert(model.take(r + 1).last() == model[r as int]);
        let opens = row.len() > 0 && match &row[0] {
            ComponentKind::Button { .. } => true,
            _ => false,
        };
        if opens {
            let mut flags: Vec<bool> = Vec::new();
            let mut i: usize = 0;
            while i < row.len()
                invariant
                    i <= row@.len(),
                    flags@.len() == i,
                    model[r as int] == row@.map_values(|c: ComponentKind| c@),
                    forall|k: int| 0 <= k < i ==> flags@[k] == is_pressed(model[r as int][k], pressed@),
                decreases row@.len() - i,
            {
                let f = match &row[i] {
                    ComponentKind::Button { custom_id: Some(id) } => same_text(id.as_str(), pressed),
                    _ => false,
                };
                flags.push(f);
                i = i + 1;
            }
            assert(flags@ =~= loading_flags(model[r as int], pressed@));
            let ghost before = plan@.map_values(|p: RowPlan| p@);
            plan.push(RowPlan { row: r, loading: flags });
            assert(plan@.map_values(|p: RowPlan| p@) =~= before.push(
                RowPlanModel { row: r as int, loading: loading_flags(model[r as int], pressed@) },
            ));
        }
        r = r + 1;
    }
    assert(model.take(rows@.len() as int) =~= model);
    plan
}

} // verus!

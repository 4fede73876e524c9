//! Reading an interaction from a JSON value.
//!
//! Neither a payload nor a leaf carries a tag that says what it is, so the
//! shape decides: which members are there, tested in a fixed order, the first
//! rule that applies winning. The spec functions here are those rules; the
//! executable functions follow them and are proved to agree.
//!
//! A member that may be left out reads the same whether it is missing or
//! `null`. A row and a leaf have to name a known kind of component in their
//! `type`; which of the known kinds it names has no part in the choice
//! between a button and a text field, which goes by the shape.

use crate::component::ActionRow;
use crate::component::ActionRowView;
use crate::component::Button;
use crate::component::ButtonStyle;
use crate::component::ButtonView;
use crate::component::Component;
use crate::component::ComponentType;
use crate::component::ComponentView;
use crate::component::TextInput;
use crate::component::TextInputStyle;
use crate::component::TextInputView;
use crate::json::Json;
use crate::json::JsonView;
use crate::request::ApplicationCommandData;
use crate::request::ApplicationCommandDataView;
use crate::request::Data;
use crate::request::DataView;
use crate::request::DecodeError;
use crate::request::GuildMember;
use crate::request::GuildMemberView;
use crate::request::Message;
use crate::request::MessageComponentData;
use crate::request::MessageComponentDataView;
use crate::request::MessageInteraction;
use crate::request::MessageInteractionView;
use crate::request::MessageView;
use crate::request::ModalSubmitData;
use crate::request::ModalSubmitDataView;
use crate::request::Request;
use crate::request::RequestView;
use crate::request::Type;
use crate::request::User;
use crate::request::UserView;
use vstd::prelude::*;

verus! {

/// A member that is there and holds something: a missing member and `null`
/// both count as absent.
pub open spec fn present(found: Option<JsonView>) -> Option<JsonView> {
    match found {
        Some(JsonView::Null) => None,
        other => other,
    }
}

/// The kind of component that a row or a leaf names for itself: its `type`,
/// which has to be one of the known codes.
pub open spec fn component_type_of(v: JsonView) -> Option<ComponentType> {
    match v.integer("type"@) {
        Some(code) => ComponentType::of_code(code),
        None => None,
    }
}

/// The first leaf rule: a `value` member, whatever it holds, or a `style`
/// code of a text field makes a text field.
pub open spec fn is_text_input(v: JsonView) -> bool {
    v.has("value"@) || (v.integer("style"@) matches Some(code) && TextInputStyle::is_code(code))
}

/// The second leaf rule, tried where the first does not apply: a `style`
/// code of a button makes a button.
pub open spec fn is_button(v: JsonView) -> bool {
    v.integer("style"@) matches Some(code) && ButtonStyle::is_code(code)
}

/// The style of a text field: it may be left out, and where it is there it
/// has to be a known code.
pub open spec fn text_input_style_of(v: JsonView) -> Option<Option<TextInputStyle>> {
    match present(v.get("style"@)) {
        None => Some(None),
        Some(JsonView::Int(code)) => if TextInputStyle::is_code(code) {
            Some(Some(TextInputStyle::Short))
        } else {
            None
        },
        Some(_) => None,
    }
}

/// The text field that an object of that shape holds. Its `type` has to be
/// a known code.
pub open spec fn text_input_of(v: JsonView) -> Option<TextInputView> {
    match (
        component_type_of(v),
        v.optional_text("label"@),
        text_input_style_of(v),
        v.text("custom_id"@),
        v.optional_text("value"@),
    ) {
        (Some(_), Some(label), Some(style), Some(custom_id), Some(value)) => Some(
            TextInputView { label, style, custom_id, value },
        ),
        _ => None,
    }
}

/// The button that an object of that shape holds. Its `type` has to be a
/// known code.
pub open spec fn button_of(v: JsonView) -> Option<ButtonView> {
    match (
        component_type_of(v),
        v.optional_text("label"@),
        v.integer("style"@),
        v.text("custom_id"@),
    ) {
        (Some(_), Some(label), Some(code), Some(custom_id)) => if ButtonStyle::is_code(code) {
            Some(ButtonView { label, style: ButtonStyle::Primary, custom_id })
        } else {
            None
        },
        _ => None,
    }
}

/// The leaf that a value holds: the rule that applies first picks the kind,
/// and the members then have to fit it.
pub open spec fn component_of(v: JsonView) -> Option<ComponentView> {
    if is_text_input(v) {
        match text_input_of(v) {
            Some(field) => Some(ComponentView::Text(field)),
            None => None,
        }
    } else if is_button(v) {
        match button_of(v) {
            Some(button) => Some(ComponentView::Button(button)),
            None => None,
        }
    } else {
        None
    }
}

/// The leaves that a sequence of values holds, if every one holds a leaf.
pub open spec fn components_of(items: Seq<JsonView>) -> Option<Seq<ComponentView>> {
    if forall|i: int| 0 <= i < items.len() ==> (#[trigger] component_of(items[i])) is Some {
        Some(Seq::new(items.len(), |i: int| component_of(items[i])->0))
    } else {
        None
    }
}

/// The row that a value holds: its `type` has to be a known code, and its
/// `components` member an array of leaves, which may be empty.
pub open spec fn row_of(v: JsonView) -> Option<ActionRowView> {
    match (component_type_of(v), v.list("components"@)) {
        (Some(_), Some(items)) => match components_of(items) {
            Some(components) => Some(ActionRowView { components }),
            None => None,
        },
        _ => None,
    }
}

/// The rows that a sequence of values holds, if every one holds a row.
pub open spec fn rows_of(items: Seq<JsonView>) -> Option<Seq<ActionRowView>> {
    if forall|i: int| 0 <= i < items.len() ==> (#[trigger] row_of(items[i])) is Some {
        Some(Seq::new(items.len(), |i: int| row_of(items[i])->0))
    } else {
        None
    }
}

/// The first payload rule: a `name` and no `custom_id` make a command.
pub open spec fn is_command(v: JsonView) -> bool {
    v.has("name"@) && !v.has("custom_id"@)
}

/// The second payload rule: a `custom_id`, an integer `component_type` and
/// no `components` make a component activation.
pub open spec fn is_activation(v: JsonView) -> bool {
    v.has("custom_id"@) && v.integer("component_type"@) is Some && !v.has("components"@)
}

/// The third payload rule: a `custom_id` and an array `components` make a
/// form submission.
pub open spec fn is_submission(v: JsonView) -> bool {
    v.has("custom_id"@) && v.list("components"@) is Some
}

/// The command payload that an object of that shape holds.
pub open spec fn command_of(v: JsonView) -> Option<ApplicationCommandDataView> {
    match v.text("name"@) {
        Some(name) => Some(ApplicationCommandDataView { name }),
        None => None,
    }
}

/// The activation payload that an object of that shape holds. The kind of
/// the component has to fit in a byte.
pub open spec fn activation_of(v: JsonView) -> Option<MessageComponentDataView> {
    match (v.text("custom_id"@), v.integer("component_type"@)) {
        (Some(custom_id), Some(code)) => if 0 <= code <= 255 {
            Some(MessageComponentDataView { custom_id, component_type: code as u8 })
        } else {
            None
        },
        _ => None,
    }
}

/// The submission payload that an object of that shape holds.
pub open spec fn submission_of(v: JsonView) -> Option<ModalSubmitDataView> {
    match (v.text("custom_id"@), v.list("components"@)) {
        (Some(custom_id), Some(items)) => match rows_of(items) {
            Some(components) => Some(ModalSubmitDataView { custom_id, components }),
            None => None,
        },
        _ => None,
    }
}

/// The payload that a value holds: the rule that applies first picks the
/// shape, and the members then have to fit it. No other shape is a payload.
pub open spec fn data_of(v: JsonView) -> Option<DataView> {
    if is_command(v) {
        match command_of(v) {
            Some(data) => Some(DataView::Command(data)),
            None => None,
        }
    } else if is_activation(v) {
        match activation_of(v) {
            Some(data) => Some(DataView::Message(data)),
            None => None,
        }
    } else if is_submission(v) {
        match submission_of(v) {
            Some(data) => Some(DataView::Modal(data)),
            None => None,
        }
    } else {
        None
    }
}

/// The member that a value holds: the `id` of its `user`.
pub open spec fn member_of(v: JsonView) -> Option<GuildMemberView> {
    match v.get("user"@) {
        Some(user) => match user.text("id"@) {
            Some(id) => Some(GuildMemberView { user: UserView { id } }),
            None => None,
        },
        None => None,
    }
}

/// The interaction that a value holds: its `name`.
pub open spec fn interaction_of(v: JsonView) -> Option<MessageInteractionView> {
    match v.text("name"@) {
        Some(name) => Some(MessageInteractionView { name }),
        None => None,
    }
}

/// The message that a value holds: its `content`, and its `interaction`
/// where there is one.
pub open spec fn message_of(v: JsonView) -> Option<MessageView> {
    match v.text("content"@) {
        Some(content) => match present(v.get("interaction"@)) {
            None => Some(MessageView { content, interaction: None }),
            Some(raw) => match interaction_of(raw) {
                Some(interaction) => Some(MessageView { content, interaction: Some(interaction) }),
                None => None,
            },
        },
        None => None,
    }
}

/// The kind of the interaction that a value holds: its `type`, which has to
/// be one of the known codes.
pub open spec fn kind_of(v: JsonView) -> Option<Type> {
    match v.integer("type"@) {
        Some(code) => Type::of_code(code),
        None => None,
    }
}

/// The payload beside a kind: `Some(None)` where there is none, and `None`
/// where what is there is no payload.
pub open spec fn payload_of(v: JsonView) -> Option<Option<DataView>> {
    match present(v.get("data"@)) {
        None => Some(None),
        Some(raw) => match data_of(raw) {
            Some(data) => Some(Some(data)),
            None => None,
        },
    }
}

/// The member beside a kind, read like the payload.
pub open spec fn optional_member_of(v: JsonView) -> Option<Option<GuildMemberView>> {
    match present(v.get("member"@)) {
        None => Some(None),
        Some(raw) => match member_of(raw) {
            Some(member) => Some(Some(member)),
            None => None,
        },
    }
}

/// The message beside a kind, read like the payload.
pub open spec fn optional_message_of(v: JsonView) -> Option<Option<MessageView>> {
    match present(v.get("message"@)) {
        None => Some(None),
        Some(raw) => match message_of(raw) {
            Some(message) => Some(Some(message)),
            None => None,
        },
    }
}

/// The interaction that a value holds, or why it holds none.
///
/// Without a known kind the answer is `UnknownKind`. With one, the payload,
/// the member and the message each have to read, and the payload has to go
/// with the kind; otherwise the answer is `PayloadMismatch`.
pub open spec fn request_of(v: JsonView) -> Result<RequestView, DecodeError> {
    match kind_of(v) {
        None => Err(DecodeError::UnknownKind),
        Some(kind) => match (payload_of(v), optional_member_of(v), optional_message_of(v)) {
            (Some(data), Some(member), Some(message)) => {
                let request = RequestView { kind, data, member, message };
                if request.well_formed() {
                    Ok(request)
                } else {
                    Err(DecodeError::PayloadMismatch)
                }
            },
            _ => Err(DecodeError::PayloadMismatch),
        },
    }
}

impl ComponentType {
    /// Reads the kind that a row or a leaf names for itself.
    pub fn decode(raw: &Json) -> (kind: Option<ComponentType>)
        ensures
            kind == component_type_of(raw.deep_view()),
    {
        match raw.integer("type") {
            Some(code) => ComponentType::from_code(code),
            None => None,
        }
    }
}

impl TextInput {
    /// Reads a text field from an object of that shape.
    pub fn decode(raw: &Json) -> (field: Option<TextInput>)
        ensures
            field.deep_view() == text_input_of(raw.deep_view()),
    {
        if ComponentType::decode(raw).is_none() {
            return None;
        }
        let label = match raw.optional_text("label") {
            Some(label) => label,
            None => { return None; },
        };
        let style = match raw.get("style") {
            None => None,
            Some(Json::Null) => None,
            Some(Json::Int(code)) => match TextInputStyle::from_code(*code) {
                Some(style) => Some(style),
                None => { return None; },
            },
            Some(_) => { return None; },
        };
        let custom_id = match raw.text("custom_id") {
            Some(custom_id) => custom_id,
            None => { return None; },
        };
        let value = match raw.optional_text("value") {
            Some(value) => value,
            None => { return None; },
        };
        Some(TextInput { label, style, custom_id, value })
    }
}

impl Button {
    /// Reads a button from an object of that shape.
    pub fn decode(raw: &Json) -> (button: Option<Button>)
        ensures
            button.deep_view() == button_of(raw.deep_view()),
    {
        if ComponentType::decode(raw).is_none() {
            return None;
        }
        let label = match raw.optional_text("label") {
            Some(label) => label,
            None => { return None; },
        };
        let style = match raw.integer("style") {
            Some(code) => match ButtonStyle::from_code(code) {
                Some(style) => style,
                None => { return None; },
            },
            None => { return None; },
        };
        let custom_id = match raw.text("custom_id") {
            Some(custom_id) => custom_id,
            None => { return None; },
        };
        Some(Button { label, style, custom_id })
    }
}

impl Component {
    /// Whether the first leaf rule applies.
    pub fn is_text_input(raw: &Json) -> (applies: bool)
        ensures
            applies == is_text_input(raw.deep_view()),
    {
        if raw.has("value") {
            true
        } else {
            match raw.integer("style") {
                Some(code) => TextInputStyle::from_code(code).is_some(),
                None => false,
            }
        }
    }

    /// Whether the second leaf rule applies.
    pub fn is_button(raw: &Json) -> (applies: bool)
        ensures
            applies == is_button(raw.deep_view()),
    {
        match raw.integer("style") {
            Some(code) => ButtonStyle::from_code(code).is_some(),
            None => false,
        }
    }

    /// Reads a leaf.
    pub fn decode(raw: &Json) -> (leaf: Option<Component>)
        ensures
            leaf.deep_view() == component_of(raw.deep_view()),
    {
        if Component::is_text_input(raw) {
            match TextInput::decode(raw) {
                Some(field) => Some(Component::Text(field)),
                None => None,
            }
        } else if Component::is_button(raw) {
            match Button::decode(raw) {
                Some(button) => Some(Component::Button(button)),
                None => None,
            }
        } else {
            None
        }
    }

    /// Reads the leaves of a row.
    pub fn decode_all(items: &Vec<Json>) -> (leaves: Option<Vec<Component>>)
        ensures
            leaves.deep_view() == components_of(items.deep_view()),
    {
        let ghost raw = items.deep_view();
        let mut leaves: Vec<Component> = Vec::new();
        let mut i: usize = 0;
        while i < items.len()
            invariant
                i <= items.len(),
                leaves.len() == i,
                raw == items.deep_view(),
                forall|j: int|
                    0 <= j < i ==> (#[trigger] component_of(raw[j])) == Some(
                        leaves@[j].deep_view(),
                    ),
            decreases items.len() - i,
        {
            assert(raw[i as int] == items@[i as int].deep_view());
            match Component::decode(&items[i]) {
                Some(leaf) => {
                    leaves.push(leaf);
                },
                None => {
                    assert(component_of(raw[i as int]) is None);
                    return None;
                },
            }
            i += 1;
        }
        assert(leaves.deep_view() =~= components_of(raw)->0);
        Some(leaves)
    }
}

impl ActionRow {
    /// Reads a row.
    pub fn decode(raw: &Json) -> (row: Option<ActionRow>)
        ensures
            row.deep_view() == row_of(raw.deep_view()),
    {
        if ComponentType::decode(raw).is_none() {
            return None;
        }
        match raw.list("components") {
            Some(items) => match Component::decode_all(items) {
                Some(components) => Some(ActionRow { components }),
                None => None,
            },
            None => None,
        }
    }

    /// Reads the rows of a form submission.
    pub fn decode_all(items: &Vec<Json>) -> (rows: Option<Vec<ActionRow>>)
        ensures
            rows.deep_view() == rows_of(items.deep_view()),
    {
        let ghost raw = items.deep_view();
        let mut rows: Vec<ActionRow> = Vec::new();
        let mut i: usize = 0;
        while i < items.len()
            invariant
                i <= items.len(),
                rows.len() == i,
                raw == items.deep_view(),
                forall|j: int|
                    0 <= j < i ==> (#[trigger] row_of(raw[j])) == Some(rows@[j].deep_view()),
            decreases items.len() - i,
        {
            assert(raw[i as int] == items@[i as int].deep_view());
            match ActionRow::decode(&items[i]) {
                Some(row) => {
                    rows.push(row);
                },
                None => {
                    assert(row_of(raw[i as int]) is None);
                    return None;
                },
            }
            i += 1;
        }
        assert(rows.deep_view() =~= rows_of(raw)->0);
        Some(rows)
    }
}

impl ApplicationCommandData {
    /// Reads a command payload from an object of that shape.
    pub fn decode(raw: &Json) -> (data: Option<ApplicationCommandData>)
        ensures
            data.deep_view() == command_of(raw.deep_view()),
    {
        match raw.text("name") {
            Some(name) => Some(ApplicationCommandData { name }),
            None => None,
        }
    }
}

impl MessageComponentData {
    /// Reads an activation payload from an object of that shape.
    pub fn decode(raw: &Json) -> (data: Option<MessageComponentData>)
        ensures
            data.deep_view() == activation_of(raw.deep_view()),
    {
        let custom_id = match raw.text("custom_id") {
            Some(custom_id) => custom_id,
            None => { return None; },
        };
        match raw.integer("component_type") {
            Some(code) => if 0 <= code && code <= 255 {
                Some(MessageComponentData { custom_id, component_type: code as u8 })
            } else {
                None
            },
            None => None,
        }
    }
}

impl ModalSubmitData {
    /// Reads a submission payload from an object of that shape.
    pub fn decode(raw: &Json) -> (data: Option<ModalSubmitData>)
        ensures
            data.deep_view() == submission_of(raw.deep_view()),
    {
        let custom_id = match raw.text("custom_id") {
            Some(custom_id) => custom_id,
            None => { return None; },
        };
        match raw.list("components") {
            Some(items) => match ActionRow::decode_all(items) {
                Some(components) => Some(ModalSubmitData { custom_id, components }),
                None => None,
            },
            None => None,
        }
    }
}

impl Data {
    /// Whether the first payload rule applies.
    pub fn is_command(raw: &Json) -> (applies: bool)
        ensures
            applies == is_command(raw.deep_view()),
    {
        raw.has("name") && !raw.has("custom_id")
    }

    /// Whether the second payload rule applies.
    pub fn is_activation(raw: &Json) -> (applies: bool)
        ensures
            applies == is_activation(raw.deep_view()),
    {
        raw.has("custom_id") && raw.integer("component_type").is_some() && !raw.has("components")
    }

    /// Whether the third payload rule applies.
    pub fn is_submission(raw: &Json) -> (applies: bool)
        ensures
            applies == is_submission(raw.deep_view()),
    {
        raw.has("custom_id") && raw.list("components").is_some()
    }

    /// Reads a payload.
    pub fn decode(raw: &Json) -> (data: Option<Data>)
        ensures
            data.deep_view() == data_of(raw.deep_view()),
    {
        if Data::is_command(raw) {
            match ApplicationCommandData::decode(raw) {
                Some(data) => Some(Data::Command(data)),
                None => None,
            }
        } else if Data::is_activation(raw) {
            match MessageComponentData::decode(raw) {
                Some(data) => Some(Data::Message(data)),
                None => None,
            }
        } else if Data::is_submission(raw) {
            match ModalSubmitData::decode(raw) {
                Some(data) => Some(Data::Modal(data)),
                None => None,
            }
        } else {
            None
        }
    }
}

impl GuildMember {
    /// Reads a member.
    pub fn decode(raw: &Json) -> (member: Option<GuildMember>)
        ensures
            member.deep_view() == member_of(raw.deep_view()),
    {
        match raw.get("user") {
            Some(user) => match user.text("id") {
                Some(id) => Some(GuildMember { user: User { id } }),
                None => None,
            },
            None => None,
        }
    }
}

impl MessageInteraction {
    /// Reads the interaction that a message answered.
    pub fn decode(raw: &Json) -> (interaction: Option<MessageInteraction>)
        ensures
            interaction.deep_view() == interaction_of(raw.deep_view()),
    {
        match raw.text("name") {
            Some(name) => Some(MessageInteraction { name }),
            None => None,
        }
    }
}

impl Message {
    /// Reads a message.
    pub fn decode(raw: &Json) -> (message: Option<Message>)
        ensures
            message.deep_view() == message_of(raw.deep_view()),
    {
        let content = match raw.text("content") {
            Some(content) => content,
            None => { return None; },
        };
        match raw.get("interaction") {
            None => Some(Message { content, interaction: None }),
            Some(Json::Null) => Some(Message { content, interaction: None }),
            Some(inner) => match MessageInteraction::decode(inner) {
                Some(interaction) => Some(Message { content, interaction: Some(interaction) }),
                None => None,
            },
        }
    }
}

impl Request {
    /// Reads an interaction from a JSON value.
    pub fn decode(raw: &Json) -> (decoded: Result<Request, DecodeError>)
        ensures
            match decoded {
                Ok(request) => request_of(raw.deep_view()) == Ok::<RequestView, DecodeError>(
                    request.deep_view(),
                ),
                Err(e) => request_of(raw.deep_view()) == Err::<RequestView, DecodeError>(e),
            },
            decoded matches Ok(request) ==> request.deep_view().well_formed(),
    {
        let kind = match raw.integer("type") {
            Some(code) => match Type::from_code(code) {
                Some(kind) => kind,
                None => { return Err(DecodeError::UnknownKind); },
            },
            None => { return Err(DecodeError::UnknownKind); },
        };
        let data = match raw.get("data") {
            None => None,
            Some(Json::Null) => None,
            Some(inner) => match Data::decode(inner) {
                Some(data) => Some(data),
                None => { return Err(DecodeError::PayloadMismatch); },
            },
        };
        let member = match raw.get("member") {
            None => None,
            Some(Json::Null) => None,
            Some(inner) => match GuildMember::decode(inner) {
                Some(member) => Some(member),
                None => { return Err(DecodeError::PayloadMismatch); },
            },
        };
        let message = match raw.get("message") {
            None => None,
            Some(Json::Null) => None,
            Some(inner) => match Message::decode(inner) {
                Some(message) => Some(message),
                None => { return Err(DecodeError::PayloadMismatch); },
            },
        };
        let fits = match &data {
            None => matches!(kind, Type::Ping),
            Some(data) => data.fits(kind),
        };
        if fits {
            Ok(Request { kind, data, member, message })
        } else {
            Err(DecodeError::PayloadMismatch)
        }
    }
}

} // verus!

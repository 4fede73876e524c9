//! Writing a reply as a JSON value.
//!
//! The member names, their order and the numeric codes are fixed by the
//! receiving side. A member that holds nothing is left out, never written as
//! `null`: a message for everyone has no `flags`, and a message without
//! components has no `components`.

use crate::component::ActionRow;
use crate::component::ActionRowView;
use crate::component::Button;
use crate::component::ButtonView;
use crate::component::Component;
use crate::component::ComponentType;
use crate::component::ComponentView;
use crate::component::TextInput;
use crate::component::TextInputStyle;
use crate::component::TextInputView;
use crate::json::lemma_array_view;
use crate::json::lemma_object_view;
use crate::json::Json;
use crate::json::JsonView;
use crate::json::Member;
use crate::json::MemberView;
use crate::response::CallbackData;
use crate::response::CallbackDataView;
use crate::response::MessageCallbackData;
use crate::response::MessageCallbackDataView;
use crate::response::MessageFlags;
use crate::response::ModalCallbackData;
use crate::response::ModalCallbackDataView;
use crate::response::Response;
use crate::response::ResponseView;
use vstd::prelude::*;

verus! {

/// One member.
pub open spec fn one(key: Seq<char>, value: JsonView) -> Seq<MemberView> {
    seq![MemberView { key, value }]
}

/// A string member, or no member where there is no string.
pub open spec fn text_if_any(key: Seq<char>, value: Option<Seq<char>>) -> Seq<MemberView> {
    match value {
        Some(text) => one(key, JsonView::Str(text)),
        None => Seq::empty(),
    }
}

/// The `style` member of a text field, or no member where it has no style.
pub open spec fn style_if_any(style: Option<TextInputStyle>) -> Seq<MemberView> {
    match style {
        Some(style) => one("style"@, JsonView::Int(style.wire_code())),
        None => Seq::empty(),
    }
}

/// The `flags` member of a message, or no member where none is set.
pub open spec fn flags_if_any(flags: Option<MessageFlags>) -> Seq<MemberView> {
    match flags {
        Some(flags) => one("flags"@, JsonView::Int(flags.wire_code())),
        None => Seq::empty(),
    }
}

/// The wire form of a button.
pub open spec fn button_json(button: ButtonView) -> JsonView {
    JsonView::Object(
        one("type"@, JsonView::Int(ComponentType::Button.wire_code())) + text_if_any(
            "label"@,
            button.label,
        ) + one("style"@, JsonView::Int(button.style.wire_code())) + one(
            "custom_id"@,
            JsonView::Str(button.custom_id),
        ),
    )
}

/// The wire form of a text field.
pub open spec fn text_input_json(field: TextInputView) -> JsonView {
    JsonView::Object(
        one("type"@, JsonView::Int(ComponentType::TextInput.wire_code())) + text_if_any(
            "label"@,
            field.label,
        ) + style_if_any(field.style) + one("custom_id"@, JsonView::Str(field.custom_id))
            + text_if_any("value"@, field.value),
    )
}

/// The wire form of a leaf.
pub open spec fn component_json(leaf: ComponentView) -> JsonView {
    match leaf {
        ComponentView::Button(button) => button_json(button),
        ComponentView::Text(field) => text_input_json(field),
    }
}

/// The wire forms of leaves, in their order.
pub open spec fn components_json(leaves: Seq<ComponentView>) -> Seq<JsonView> {
    Seq::new(leaves.len(), |i: int| component_json(leaves[i]))
}

/// The wire form of a row.
pub open spec fn row_json(row: ActionRowView) -> JsonView {
    JsonView::Object(
        one("type"@, JsonView::Int(ComponentType::ActionRow.wire_code())) + one(
            "components"@,
            JsonView::Array(components_json(row.components)),
        ),
    )
}

/// The wire forms of rows, in their order.
pub open spec fn rows_json(rows: Seq<ActionRowView>) -> Seq<JsonView> {
    Seq::new(rows.len(), |i: int| row_json(rows[i]))
}

/// The `components` member of a message, or no member where it has no row.
pub open spec fn rows_if_any(rows: Seq<ActionRowView>) -> Seq<MemberView> {
    if rows.len() > 0 {
        one("components"@, JsonView::Array(rows_json(rows)))
    } else {
        Seq::empty()
    }
}

/// The wire form of a message.
pub open spec fn message_json(data: MessageCallbackDataView) -> JsonView {
    JsonView::Object(
        one("content"@, JsonView::Str(data.content)) + flags_if_any(data.flags) + rows_if_any(
            data.components,
        ),
    )
}

/// The wire form of a form.
pub open spec fn modal_json(data: ModalCallbackDataView) -> JsonView {
    JsonView::Object(
        one("custom_id"@, JsonView::Str(data.custom_id)) + one("title"@, JsonView::Str(data.title))
            + one("components"@, JsonView::Array(rows_json(data.components))),
    )
}

/// The wire form of a reply's payload.
pub open spec fn data_json(data: CallbackDataView) -> JsonView {
    match data {
        CallbackDataView::Message(data) => message_json(data),
        CallbackDataView::Modal(data) => modal_json(data),
    }
}

/// The wire form of a reply.
pub open spec fn response_json(response: ResponseView) -> JsonView {
    JsonView::Object(
        one("type"@, JsonView::Int(response.kind.wire_code())) + one(
            "data"@,
            data_json(response.data),
        ),
    )
}

/// Appends one member.
fn put(members: &mut Vec<Member>, key: &str, value: Json)
    ensures
        final(members).deep_view() == old(members).deep_view() + one(key@, value.deep_view()),
{
    let ghost before = members.deep_view();
    let ghost added = value.deep_view();
    members.push(Member { key: key.to_owned(), value });
    assert(members.deep_view() =~= before + one(key@, added));
}

/// Appends a string member where there is a string.
fn put_text_if_any(members: &mut Vec<Member>, key: &str, value: &Option<String>)
    ensures
        final(members).deep_view() == old(members).deep_view() + text_if_any(
            key@,
            value.deep_view(),
        ),
{
    let ghost before = members.deep_view();
    match value {
        Some(text) => {
            put(members, key, Json::Str(text.clone()));
        },
        None => {
            assert(before + Seq::<MemberView>::empty() =~= before);
        },
    }
}

/// An object of the given members.
fn object(members: Vec<Member>) -> (json: Json)
    ensures
        json.deep_view() == JsonView::Object(members.deep_view()),
{
    proof {
        lemma_object_view(members);
    }
    Json::Object(members)
}

/// An array of the given items.
fn array(items: Vec<Json>) -> (json: Json)
    ensures
        json.deep_view() == JsonView::Array(items.deep_view()),
{
    proof {
        lemma_array_view(items);
    }
    Json::Array(items)
}

impl Button {
    /// The wire form of the button.
    pub fn encode(&self) -> (json: Json)
        ensures
            json.deep_view() == button_json(self.deep_view()),
    {
        let mut members: Vec<Member> = Vec::new();
        assert(members.deep_view() =~= Seq::empty());
        put(&mut members, "type", Json::Int(ComponentType::Button.code() as i64));
        put_text_if_any(&mut members, "label", &self.label);
        put(&mut members, "style", Json::Int(self.style.code() as i64));
        put(&mut members, "custom_id", Json::Str(self.custom_id.clone()));
        assert(members.deep_view() =~= button_json(self.deep_view())->Object_0);
        object(members)
    }
}

impl TextInput {
    /// The wire form of the text field.
    pub fn encode(&self) -> (json: Json)
        ensures
            json.deep_view() == text_input_json(self.deep_view()),
    {
        let mut members: Vec<Member> = Vec::new();
        assert(members.deep_view() =~= Seq::empty());
        put(&mut members, "type", Json::Int(ComponentType::TextInput.code() as i64));
        put_text_if_any(&mut members, "label", &self.label);
        let ghost before = members.deep_view();
        match self.style {
            Some(style) => {
                put(&mut members, "style", Json::Int(style.code() as i64));
            },
            None => {
                assert(before + Seq::<MemberView>::empty() =~= before);
            },
        }
        assert(members.deep_view() == before + style_if_any(self.style));
        put(&mut members, "custom_id", Json::Str(self.custom_id.clone()));
        put_text_if_any(&mut members, "value", &self.value);
        assert(members.deep_view() =~= text_input_json(self.deep_view())->Object_0);
        object(members)
    }
}

impl Component {
    /// The wire form of the leaf.
    pub fn encode(&self) -> (json: Json)
        ensures
            json.deep_view() == component_json(self.deep_view()),
    {
        match self {
            Component::Button(button) => button.encode(),
            Component::Text(field) => field.encode(),
        }
    }

    /// The wire forms of leaves, in their order.
    pub fn encode_all(leaves: &Vec<Component>) -> (items: Vec<Json>)
        ensures
            items.deep_view() == components_json(leaves.deep_view()),
    {
        let ghost views = leaves.deep_view();
        let mut items: Vec<Json> = Vec::new();
        let mut i: usize = 0;
        while i < leaves.len()
            invariant
                i <= leaves.len(),
                items.len() == i,
                views == leaves.deep_view(),
                forall|j: int|
                    0 <= j < i ==> (#[trigger] items@[j]).deep_view() == component_json(views[j]),
            decreases leaves.len() - i,
        {
            assert(views[i as int] == leaves@[i as int].deep_view());
            items.push(leaves[i].encode());
            i += 1;
        }
        assert(items.deep_view() =~= components_json(views));
        items
    }
}

impl ActionRow {
    /// The wire form of the row.
    pub fn encode(&self) -> (json: Json)
        ensures
            json.deep_view() == row_json(self.deep_view()),
    {
        let mut members: Vec<Member> = Vec::new();
        assert(members.deep_view() =~= Seq::empty());
        put(&mut members, "type", Json::Int(ComponentType::ActionRow.code() as i64));
        put(&mut members, "components", array(Component::encode_all(&self.components)));
        assert(members.deep_view() =~= row_json(self.deep_view())->Object_0);
        object(members)
    }

    /// The wire forms of rows, in their order.
    pub fn encode_all(rows: &Vec<ActionRow>) -> (items: Vec<Json>)
        ensures
            items.deep_view() == rows_json(rows.deep_view()),
    {
        let ghost views = rows.deep_view();
        let mut items: Vec<Json> = Vec::new();
        let mut i: usize = 0;
        while i < rows.len()
            invariant
                i <= rows.len(),
                items.len() == i,
                views == rows.deep_view(),
                forall|j: int|
                    0 <= j < i ==> (#[trigger] items@[j]).deep_view() == row_json(views[j]),
            decreases rows.len() - i,
        {
            assert(views[i as int] == rows@[i as int].deep_view());
            items.push(rows[i].encode());
            i += 1;
        }
        assert(items.deep_view() =~= rows_json(views));
        items
    }
}

impl MessageCallbackData {
    /// The wire form of the message.
    pub fn encode(&self) -> (json: Json)
        ensures
            json.deep_view() == message_json(self.deep_view()),
    {
        let mut members: Vec<Member> = Vec::new();
        assert(members.deep_view() =~= Seq::empty());
        put(&mut members, "content", Json::Str(self.content.clone()));
        let ghost before = members.deep_view();
        match self.flags {
            Some(flags) => {
                put(&mut members, "flags", Json::Int(flags.code() as i64));
            },
            None => {
                assert(before + Seq::<MemberView>::empty() =~= before);
            },
        }
        assert(members.deep_view() == before + flags_if_any(self.flags));
        let ghost before = members.deep_view();
        if self.components.len() > 0 {
            put(&mut members, "components", array(ActionRow::encode_all(&self.components)));
        } else {
            assert(before + Seq::<MemberView>::empty() =~= before);
        }
        assert(members.deep_view() == before + rows_if_any(self.deep_view().components));
        assert(members.deep_view() =~= message_json(self.deep_view())->Object_0);
        object(members)
    }
}

impl ModalCallbackData {
    /// The wire form of the form.
    pub fn encode(&self) -> (json: Json)
        ensures
            json.deep_view() == modal_json(self.deep_view()),
    {
        let mut members: Vec<Member> = Vec::new();
        assert(members.deep_view() =~= Seq::empty());
        put(&mut members, "custom_id", Json::Str(self.custom_id.clone()));
        put(&mut members, "title", Json::Str(self.title.clone()));
        put(&mut members, "components", array(ActionRow::encode_all(&self.components)));
        assert(members.deep_view() =~= modal_json(self.deep_view())->Object_0);
        object(members)
    }
}

impl CallbackData {
    /// The wire form of the payload.
    pub fn encode(&self) -> (json: Json)
        ensures
            json.deep_view() == data_json(self.deep_view()),
    {
        match self {
            CallbackData::Message(data) => data.encode(),
            CallbackData::Modal(data) => data.encode(),
        }
    }
}

impl Response {
    /// The wire form of the reply.
    pub fn encode(&self) -> (json: Json)
        ensures
            json.deep_view() == response_json(self.deep_view()),
    {
        let mut members: Vec<Member> = Vec::new();
        assert(members.deep_view() =~= Seq::empty());
        put(&mut members, "type", Json::Int(self.kind.code() as i64));
        put(&mut members, "data", self.data.encode());
        assert(members.deep_view() =~= response_json(self.deep_view())->Object_0);
        object(members)
    }
}

} // verus!

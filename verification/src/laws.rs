//! What holds of the model as a whole, stated over the spec functions that
//! the contracts use.

use crate::component::ActionRowView;
use crate::component::ButtonView;
use crate::component::ComponentView;
use crate::component::TextInputStyle;
use crate::component::TextInputView;
use crate::decode::button_of;
use crate::decode::component_of;
use crate::decode::component_type_of;
use crate::decode::data_of;
use crate::decode::is_button;
use crate::decode::is_command;
use crate::decode::is_text_input;
use crate::decode::kind_of;
use crate::decode::optional_member_of;
use crate::decode::optional_message_of;
use crate::decode::request_of;
use crate::decode::row_of;
use crate::decode::text_input_of;
use crate::decode::text_input_style_of;
use crate::encode::button_json;
use crate::encode::flags_if_any;
use crate::encode::message_json;
use crate::encode::one;
use crate::encode::rows_if_any;
use crate::encode::style_if_any;
use crate::encode::text_if_any;
use crate::encode::text_input_json;
use crate::json::find;
use crate::json::JsonView;
use crate::json::MemberView;
use crate::request::ApplicationCommandData;
use crate::request::ApplicationCommandDataView;
use crate::request::DataView;
use crate::request::DecodeError;
use crate::request::MessageComponentData;
use crate::request::ModalSubmitData;
use crate::request::Request;
use crate::request::RequestView;
use crate::request::Type;
use crate::request::values_of;
use crate::response::CallbackDataView;
use crate::response::CallbackType;
use crate::response::MessageCallbackData;
use crate::response::MessageCallbackDataView;
use crate::response::ModalCallbackData;
use crate::response::ModalCallbackDataView;
use crate::response::Response;
use crate::response::ResponseView;
use crate::response::rows_of_one;
use vstd::prelude::*;

verus! {

/// A lookup in two runs of members laid end to end looks in the first run,
/// and in the second only where the first has no such key.
pub proof fn lemma_find_concat(a: Seq<MemberView>, b: Seq<MemberView>, key: Seq<char>)
    ensures
        find(a + b, key) == match find(a, key) {
            Some(value) => Some(value),
            None => find(b, key),
        },
    decreases a.len(),
{
    if a.len() == 0 {
        assert(a + b =~= b);
    } else {
        assert((a + b)[0] == a[0]);
        assert((a + b).drop_first() =~= a.drop_first() + b);
        lemma_find_concat(a.drop_first(), b, key);
    }
}

/// A lookup in a single member finds it by its key and by no other.
pub proof fn lemma_find_one(name: Seq<char>, value: JsonView, key: Seq<char>)
    ensures
        find(one(name, value), key) == if name == key {
            Some(value)
        } else {
            None
        },
{
    let only = one(name, value);
    assert(only[0] == MemberView { key: name, value });
    assert(only.drop_first() =~= Seq::<MemberView>::empty());
    assert(find(only.drop_first(), key) is None);
}

/// A lookup told by positions: it yields the value at the first position
/// that holds the key, and nothing where no position does.
pub proof fn law_lookup_finds_first(members: Seq<MemberView>, key: Seq<char>)
    ensures
        match find(members, key) {
            Some(value) => exists|i: int|
                0 <= i < members.len() && #[trigger] members[i].key == key && members[i].value == value
                    && forall|j: int| 0 <= j < i ==> (#[trigger] members[j]).key != key,
            None => forall|i: int| 0 <= i < members.len() ==> (#[trigger] members[i]).key != key,
        },
    decreases members.len(),
{
    if members.len() == 0 {
    } else if members[0].key == key {
        assert(members[0].key == key && members[0].value == find(members, key)->0);
    } else {
        let rest = members.drop_first();
        law_lookup_finds_first(rest, key);
        match find(rest, key) {
            Some(value) => {
                let i = choose|i: int|
                    0 <= i < rest.len() && #[trigger] rest[i].key == key && rest[i].value == value
                        && forall|j: int| 0 <= j < i ==> (#[trigger] rest[j]).key != key;
                assert(members[i + 1] == rest[i]);
                assert forall|j: int| 0 <= j < i + 1 implies (#[trigger] members[j]).key != key by {
                    if j > 0 {
                        assert(members[j] == rest[j - 1]);
                    }
                }
                assert(members[i + 1].key == key && members[i + 1].value == value);
            },
            None => {
                assert forall|i: int| 0 <= i < members.len() implies (#[trigger] members[i]).key
                    != key by {
                    if i > 0 {
                        assert(members[i] == rest[i - 1]);
                    }
                }
            },
        }
    }
}

/// A decoded interaction has the kind that the value's `type` code stands for.
pub proof fn law_decode_keeps_kind(v: JsonView)
    ensures
        request_of(v) matches Ok(request) ==> kind_of(v) == Some(request.kind) && v.integer(
            "type"@,
        ) == Some(request.kind.wire_code()),
{
}

/// A decoded interaction is well formed: a ping has no payload, and every
/// other kind has the payload of its own shape.
pub proof fn law_decode_well_formed(v: JsonView)
    ensures
        request_of(v) matches Ok(request) ==> request.well_formed(),
{
}

/// Decoding fails with `UnknownKind` exactly where the `type` is no known
/// code, and never with `EmptyRow`.
pub proof fn law_decode_errors(v: JsonView)
    ensures
        request_of(v) == Err::<RequestView, DecodeError>(DecodeError::UnknownKind) <==> kind_of(v)
            is None,
        request_of(v) != Err::<RequestView, DecodeError>(DecodeError::EmptyRow),
{
}

/// A payload with a string `name` and without a `custom_id` is a command of
/// that name, whatever other members it has.
pub proof fn law_command_wins(v: JsonView, name: Seq<char>)
    requires
        v.text("name"@) == Some(name),
        !v.has("custom_id"@),
    ensures
        is_command(v),
        data_of(v) == Some(DataView::Command(ApplicationCommandDataView { name })),
{
}

/// An interaction of the command kind whose payload has a string `name` and
/// no `custom_id` decodes as that command, provided that the member and the
/// message beside it read.
pub proof fn law_command_request(v: JsonView, payload: JsonView, name: Seq<char>)
    requires
        v.integer("type"@) == Some(Type::ApplicationCommand.wire_code()),
        v.get("data"@) == Some(payload),
        payload.text("name"@) == Some(name),
        !payload.has("custom_id"@),
        optional_member_of(v) is Some,
        optional_message_of(v) is Some,
    ensures
        request_of(v) matches Ok(request) && request.kind == Type::ApplicationCommand
            && request.command_name() == Some(name),
{
    law_command_wins(payload, name);
}

/// The acting user of an interaction is the member's user where a member
/// came with it, and the fixed text otherwise.
pub proof fn law_user(request: RequestView)
    ensures
        request.member is None ==> request.user() == "Unknown user"@,
        request.member matches Some(member) ==> request.user() == member.user.id,
{
}

/// The wire form of a message has a `flags` member exactly where a flag is
/// set, and it then holds 64.
pub proof fn law_flags_on_the_wire(data: MessageCallbackDataView)
    ensures
        message_json(data).has("flags"@) <==> data.flags is Some,
        data.flags is Some ==> message_json(data).integer("flags"@) == Some(64int),
{
    reveal_strlit("content");
    reveal_strlit("flags");
    reveal_strlit("components");
    let key = "flags"@;
    assert("content"@ != key) by {
        assert("content"@.len() != key.len());
    }
    assert("components"@ != key) by {
        assert("components"@.len() != key.len());
    }
    let head = one("content"@, JsonView::Str(data.content));
    let flags = flags_if_any(data.flags);
    let rows = rows_if_any(data.components);
    lemma_find_concat(head + flags, rows, key);
    lemma_find_concat(head, flags, key);
    lemma_find_one("content"@, JsonView::Str(data.content), key);
    match data.flags {
        Some(set) => {
            lemma_find_one(key, JsonView::Int(set.wire_code()), key);
        },
        None => {},
    }
    if data.components.len() > 0 {
        lemma_find_one("components"@, rows[0].value, key);
    }
}

/// A message made visible to everyone has no `flags` member on the wire,
/// and a message as the builder starts it has one that holds 64, whatever
/// text and components are set on it.
pub proof fn law_shout(
    data: MessageCallbackDataView,
    text: Seq<char>,
    rows: Seq<ActionRowView>,
)
    ensures
        !message_json(data.shout()).has("flags"@),
        message_json(
            MessageCallbackDataView {
                content: text,
                components: rows,
                ..MessageCallbackDataView::start()
            },
        ).integer("flags"@) == Some(64int),
{
    law_flags_on_the_wire(data.shout());
    law_flags_on_the_wire(
        MessageCallbackDataView {
            content: text,
            components: rows,
            ..MessageCallbackDataView::start()
        },
    );
}

/// A form built from leaves has one row for each leaf, each row holds that
/// leaf alone, and the rows come in the leaves' order.
pub proof fn law_form_rows(data: ModalCallbackDataView, leaves: Seq<ComponentView>)
    ensures
        data.with_components(leaves).components.len() == leaves.len(),
        forall|i: int|
            0 <= i < leaves.len() ==> (#[trigger] data.with_components(leaves).components[i])
                == (ActionRowView { components: seq![leaves[i]] }),
        forall|i: int|
            0 <= i < leaves.len() ==> (#[trigger] rows_of_one(leaves)[i]).components.len() == 1,
{
}

/// The components of a message reply read back as they were set, in their
/// order, also after the reply is turned into an update.
pub proof fn law_message_components(data: MessageCallbackDataView, leaves: Seq<ComponentView>)
    ensures
        ResponseView::of_message(data.with_components(leaves)).components_readable(),
        ResponseView::of_message(data.with_components(leaves)).message_components() == leaves,
        ResponseView::of_message(data.with_components(leaves)).edit().message_components()
            == leaves,
{
}

/// An update carries a message and nothing else: `edit` turns a new message
/// into an update with the same payload, leaves the reply to a ping and a
/// reply that opens a form as they are, keeps a well-formed reply well
/// formed, and changes nothing when it is applied again.
pub proof fn law_edit(
    response: ResponseView,
    message: MessageCallbackDataView,
    form: ModalCallbackDataView,
)
    ensures
        response.well_formed() ==> response.edit().well_formed(),
        response.edit().data == response.data,
        response.edit().edit() == response.edit(),
        response.well_formed() && response.edit().kind == CallbackType::UpdateMessage
            ==> response.edit().data is Message,
        response.edit().kind == CallbackType::UpdateMessage ==> response.kind
            == CallbackType::UpdateMessage || response.kind
            == CallbackType::ChannelMessageWithSource,
        ResponseView::of_message(message).edit() == (ResponseView {
            kind: CallbackType::UpdateMessage,
            data: CallbackDataView::Message(message),
        }),
        ResponseView::pong().edit() == ResponseView::pong(),
        ResponseView::of_modal(form).edit() == ResponseView::of_modal(form),
{
}

/// A reply that opens a form has no message components to read, and no
/// message text.
pub proof fn law_form_has_no_message(data: ModalCallbackDataView)
    ensures
        ResponseView::of_modal(data).components_readable(),
        ResponseView::of_modal(data).message_components() == Seq::<ComponentView>::empty(),
        ResponseView::of_modal(data).message_content() is None,
{
}

/// The reply made from a message carries it under the kind of a new
/// message, and is well formed.
pub proof fn law_reply_from_message(data: MessageCallbackData)
    ensures
        <Response as vstd::std_specs::convert::FromSpec<MessageCallbackData>>::from_spec(
            data,
        ).deep_view() == ResponseView::of_message(data.deep_view()),
        ResponseView::of_message(data.deep_view()).well_formed(),
{
}

/// The reply made from a form carries it under the kind that opens one, and
/// is well formed.
pub proof fn law_reply_from_modal(data: ModalCallbackData)
    ensures
        <Response as vstd::std_specs::convert::FromSpec<ModalCallbackData>>::from_spec(
            data,
        ).deep_view() == ResponseView::of_modal(data.deep_view()),
        ResponseView::of_modal(data.deep_view()).well_formed(),
{
}

/// The interaction made from a payload has the kind that the payload goes
/// with, and nothing beside it: it is well formed.
pub proof fn law_request_from_payload(
    command: ApplicationCommandData,
    activation: MessageComponentData,
    submission: ModalSubmitData,
)
    ensures
        <Request as vstd::std_specs::convert::FromSpec<ApplicationCommandData>>::from_spec(
            command,
        ).deep_view().well_formed(),
        <Request as vstd::std_specs::convert::FromSpec<ApplicationCommandData>>::from_spec(
            command,
        ).deep_view().command_name() == Some(command.name@),
        <Request as vstd::std_specs::convert::FromSpec<MessageComponentData>>::from_spec(
            activation,
        ).deep_view().well_formed(),
        <Request as vstd::std_specs::convert::FromSpec<MessageComponentData>>::from_spec(
            activation,
        ).deep_view().custom_id() == Some(activation.custom_id@),
        <Request as vstd::std_specs::convert::FromSpec<ModalSubmitData>>::from_spec(
            submission,
        ).deep_view().well_formed(),
        <Request as vstd::std_specs::convert::FromSpec<ModalSubmitData>>::from_spec(
            submission,
        ).deep_view().custom_id() == Some(submission.custom_id@),
{
}

/// The five member names of a leaf are five different names.
pub proof fn lemma_leaf_keys_differ()
    ensures
        "type"@ != "label"@,
        "type"@ != "style"@,
        "type"@ != "custom_id"@,
        "type"@ != "value"@,
        "label"@ != "style"@,
        "label"@ != "custom_id"@,
        "label"@ != "value"@,
        "style"@ != "custom_id"@,
        "style"@ != "value"@,
        "custom_id"@ != "value"@,
{
    reveal_strlit("type");
    reveal_strlit("label");
    reveal_strlit("style");
    reveal_strlit("custom_id");
    reveal_strlit("value");
    assert("type"@.len() == 4 && "custom_id"@.len() == 9);
    assert("label"@.len() == 5 && "style"@.len() == 5 && "value"@.len() == 5);
    assert("label"@[0] == 'l' && "style"@[0] == 's' && "value"@[0] == 'v');
}

/// What a lookup finds in the wire form of a text field: the first of its
/// five parts that has the key.
pub proof fn lemma_find_in_text_input(field: TextInputView, key: Seq<char>)
    ensures
        text_input_json(field).get(key) == if key == "type"@ {
            Some(JsonView::Int(4))
        } else if key == "label"@ && field.label is Some {
            Some(JsonView::Str(field.label->0))
        } else if key == "style"@ && field.style is Some {
            Some(JsonView::Int(1))
        } else if key == "custom_id"@ {
            Some(JsonView::Str(field.custom_id))
        } else if key == "value"@ && field.value is Some {
            Some(JsonView::Str(field.value->0))
        } else {
            None
        },
{
    lemma_leaf_keys_differ();
    let kind = one("type"@, JsonView::Int(4));
    let label = text_if_any("label"@, field.label);
    let style = style_if_any(field.style);
    let id = one("custom_id"@, JsonView::Str(field.custom_id));
    let value = text_if_any("value"@, field.value);
    lemma_find_concat(kind + label + style + id, value, key);
    lemma_find_concat(kind + label + style, id, key);
    lemma_find_concat(kind + label, style, key);
    lemma_find_concat(kind, label, key);
    lemma_find_one("type"@, JsonView::Int(4), key);
    lemma_find_one("custom_id"@, JsonView::Str(field.custom_id), key);
    if field.label is Some {
        lemma_find_one("label"@, JsonView::Str(field.label->0), key);
    }
    if field.style is Some {
        lemma_find_one("style"@, JsonView::Int(1), key);
    }
    if field.value is Some {
        lemma_find_one("value"@, JsonView::Str(field.value->0), key);
    }
}

/// What a lookup finds in the wire form of a button: the first of its four
/// parts that has the key.
pub proof fn lemma_find_in_button(button: ButtonView, key: Seq<char>)
    ensures
        button_json(button).get(key) == if key == "type"@ {
            Some(JsonView::Int(2))
        } else if key == "label"@ && button.label is Some {
            Some(JsonView::Str(button.label->0))
        } else if key == "style"@ {
            Some(JsonView::Int(1))
        } else if key == "custom_id"@ {
            Some(JsonView::Str(button.custom_id))
        } else {
            None
        },
{
    lemma_leaf_keys_differ();
    let kind = one("type"@, JsonView::Int(2));
    let label = text_if_any("label"@, button.label);
    let style = one("style"@, JsonView::Int(1));
    let id = one("custom_id"@, JsonView::Str(button.custom_id));
    lemma_find_concat(kind + label + style, id, key);
    lemma_find_concat(kind + label, style, key);
    lemma_find_concat(kind, label, key);
    lemma_find_one("type"@, JsonView::Int(2), key);
    lemma_find_one("style"@, JsonView::Int(1), key);
    lemma_find_one("custom_id"@, JsonView::Str(button.custom_id), key);
    if button.label is Some {
        lemma_find_one("label"@, JsonView::Str(button.label->0), key);
    }
}

/// A row or a leaf that reads names a known kind of component in its `type`.
pub proof fn law_component_type_is_read(v: JsonView)
    ensures
        row_of(v) is Some ==> component_type_of(v) is Some,
        component_of(v) is Some ==> component_type_of(v) is Some,
        component_type_of(v) matches Some(kind) ==> v.integer("type"@) == Some(kind.wire_code()),
{
}

/// A text field that holds a value or a style reads back from its wire form
/// as it was written.
pub proof fn law_text_field_round_trip(field: TextInputView)
    requires
        field.value is Some || field.style is Some,
    ensures
        component_of(text_input_json(field)) == Some(ComponentView::Text(field)),
{
    let json = text_input_json(field);
    lemma_find_in_text_input(field, "type"@);
    lemma_find_in_text_input(field, "label"@);
    lemma_find_in_text_input(field, "style"@);
    lemma_find_in_text_input(field, "custom_id"@);
    lemma_find_in_text_input(field, "value"@);
    lemma_leaf_keys_differ();
    assert(is_text_input(json));
    assert(json.optional_text("label"@) == Some(field.label));
    assert(json.optional_text("value"@) == Some(field.value));
    assert(json.text("custom_id"@) == Some(field.custom_id));
    assert(text_input_style_of(json) == Some(field.style));
    assert(text_input_of(json) == Some(field));
}

/// A text field without a value and without a style has a wire form that no
/// leaf rule applies to: it does not read back.
pub proof fn law_bare_text_field_is_no_leaf(field: TextInputView)
    requires
        field.value is None,
        field.style is None,
    ensures
        component_of(text_input_json(field)) is None,
{
    let json = text_input_json(field);
    lemma_find_in_text_input(field, "style"@);
    lemma_find_in_text_input(field, "value"@);
    lemma_leaf_keys_differ();
}

/// Both leaf kinds have the one style code, so wherever the button rule
/// applies the text field rule applies too, and goes first: a leaf that is
/// read is a text field.
pub proof fn law_text_field_rule_goes_first(v: JsonView)
    ensures
        is_button(v) ==> is_text_input(v),
        component_of(v) is Some ==> component_of(v)->0 is Text,
{
}

/// The wire form of a button reads back as a text field with the button's
/// label and identifier, the short style and no value.
pub proof fn law_button_reads_back_as_text_field(button: ButtonView)
    ensures
        button_of(button_json(button)) == Some(button),
        component_of(button_json(button)) == Some(
            ComponentView::Text(
                TextInputView {
                    label: button.label,
                    style: Some(TextInputStyle::Short),
                    custom_id: button.custom_id,
                    value: None,
                },
            ),
        ),
{
    let json = button_json(button);
    lemma_find_in_button(button, "type"@);
    lemma_find_in_button(button, "label"@);
    lemma_find_in_button(button, "style"@);
    lemma_find_in_button(button, "custom_id"@);
    lemma_find_in_button(button, "value"@);
    lemma_leaf_keys_differ();
    assert(json.optional_text("label"@) == Some(button.label));
    assert(json.optional_text("value"@) == Some(None::<Seq<char>>));
    assert(json.text("custom_id"@) == Some(button.custom_id));
    assert(json.integer("style"@) == Some(1int));
    assert(text_input_style_of(json) == Some(Some(TextInputStyle::Short)));
}

/// Whether the row reports a value under `id`.
pub open spec fn reports(row: ActionRowView, id: Seq<char>) -> bool {
    match row.value() {
        Some((found, _)) => found == id,
        None => false,
    }
}

/// The entered values by identifier, told by rows: an identifier is there
/// exactly where some row reports it, and it then holds what the last such
/// row reports.
pub proof fn law_values_last_row_counts(rows: Seq<ActionRowView>, id: Seq<char>)
    ensures
        values_of(rows).contains_key(id) <==> exists|i: int|
            0 <= i < rows.len() && reports(#[trigger] rows[i], id),
        values_of(rows).contains_key(id) ==> exists|i: int|
            0 <= i < rows.len() && (#[trigger] rows[i]).value() == Some((id, values_of(rows)[id]))
                && forall|j: int| i < j < rows.len() ==> !reports(#[trigger] rows[j], id),
    decreases rows.len(),
{
    if rows.len() > 0 {
        let earlier = rows.drop_last();
        let last = rows.len() - 1;
        law_values_last_row_counts(earlier, id);
        assert forall|i: int| 0 <= i < earlier.len() implies earlier[i] == rows[i] by {}
        if reports(rows[last], id) {
            assert(rows[last].value() == Some((id, values_of(rows)[id])));
        } else if values_of(earlier).contains_key(id) {
            let i = choose|i: int|
                0 <= i < earlier.len() && (#[trigger] earlier[i]).value() == Some(
                    (id, values_of(earlier)[id]),
                ) && forall|j: int| i < j < earlier.len() ==> !reports(#[trigger] earlier[j], id);
            assert(rows[i].value() == Some((id, values_of(rows)[id])));
            assert forall|j: int| i < j < rows.len() implies !reports(#[trigger] rows[j], id) by {
                if j < last {
                    assert(earlier[j] == rows[j]);
                }
            }
            assert(reports(rows[i], id));
        } else {
            assert forall|i: int| 0 <= i < rows.len() implies !reports(#[trigger] rows[i], id) by {
                if i < last {
                    assert(earlier[i] == rows[i]);
                }
            }
        }
    }
}

} // verus!

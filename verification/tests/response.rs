use discord_interaction::component::ActionRow;
use discord_interaction::component::Button;
use discord_interaction::component::ButtonStyle;
use discord_interaction::component::Component;
use discord_interaction::component::ComponentType;
use discord_interaction::component::TextInput;
use discord_interaction::component::TextInputStyle;
use discord_interaction::json::Json;
use discord_interaction::json::Member;
use discord_interaction::response::CallbackData;
use discord_interaction::response::CallbackType;
use discord_interaction::response::MessageCallbackData;
use discord_interaction::response::MessageFlags;
use discord_interaction::response::ModalCallbackData;
use discord_interaction::response::Response;

fn object(members: Vec<(&str, Json)>) -> Json {
    Json::Object(
        members.into_iter().map(|(key, value)| Member { key: key.to_string(), value }).collect(),
    )
}

fn text(s: &str) -> Json {
    Json::Str(s.to_string())
}

fn button(id: &str, label: &str) -> Component {
    Component::from(Component::button().id(id).label(label))
}

fn field(id: &str, label: &str) -> Component {
    Component::from(Component::text_input().id(id).label(label))
}

#[test]
fn pong_is_an_empty_message_under_kind_one() {
    let pong = Response::pong();
    assert_eq!(pong.kind, CallbackType::Pong);
    assert_eq!(
        pong.data,
        CallbackData::Message(MessageCallbackData {
            content: String::new(),
            flags: None,
            components: vec![],
        })
    );
    assert_eq!(pong.encode(), object(vec![("type", Json::Int(1)), ("data", object(vec![("content", text(""))]))]));
}

#[test]
fn message_starts_private_and_empty() {
    let data = Response::message();
    assert_eq!(data.content, "");
    assert_eq!(data.flags, Some(MessageFlags::Ephemeral));
    assert!(data.components.is_empty());
}

#[test]
fn modal_starts_empty() {
    let data = Response::modal();
    assert_eq!(data.custom_id, "");
    assert_eq!(data.title, "");
    assert!(data.components.is_empty());
}

#[test]
fn message_without_shout_has_flags_64() {
    let json = Response::message().content("quiet").encode();
    assert_eq!(json, object(vec![("content", text("quiet")), ("flags", Json::Int(64))]));
    assert_eq!(json.integer("flags"), Some(64));
    assert_eq!(MessageFlags::Ephemeral.code(), 64);
}

#[test]
fn message_with_shout_has_no_flags_member() {
    let data = Response::message().content("loud").shout();
    assert_eq!(data.flags, None);
    let json = data.encode();
    assert!(!json.has("flags"));
    assert_eq!(json, object(vec![("content", text("loud"))]));
}

#[test]
fn shout_works_in_any_order() {
    let first = Response::message().shout().content("t").components(vec![button("a", "A")]);
    let last = Response::message().content("t").components(vec![button("a", "A")]).shout();
    assert_eq!(first, last);
    assert!(!Response::from(first).encode().get("data").unwrap().has("flags"));
}

#[test]
fn content_replaces_the_text() {
    let data = Response::message().content("one").content("two");
    assert_eq!(data.content, "two");
    assert_eq!(data.flags, Some(MessageFlags::Ephemeral));
}

#[test]
fn message_components_go_into_one_row() {
    let data = Response::message().components(vec![button("a", "A"), button("b", "B")]);
    assert_eq!(data.components.len(), 1);
    assert_eq!(data.components[0].components, vec![button("a", "A"), button("b", "B")]);
    let none = Response::message().components(vec![]);
    assert_eq!(none.components, vec![ActionRow { components: vec![] }]);
}

#[test]
fn message_components_read_back_in_order() {
    let a = button("a", "A");
    let b = field("b", "B");
    let response = Response::from(Response::message().components(vec![a.clone(), b.clone()]));
    assert!(response.components_readable());
    assert_eq!(response.message_components(), vec![a.clone(), b.clone()]);
    assert_eq!(response.edit().message_components(), vec![a, b]);
}

#[test]
fn message_components_of_a_form_are_empty() {
    let response = Response::from(Response::modal().components(vec![field("v1", "A value")]));
    assert!(response.components_readable());
    assert_eq!(response.message_components(), vec![]);
    assert_eq!(response.message_content(), None);
}

#[test]
fn components_are_readable_with_exactly_one_row() {
    assert!(!Response::pong().components_readable());
    assert!(!Response::from(Response::message()).components_readable());
    assert!(Response::from(Response::message().components(vec![])).components_readable());
    let two = MessageCallbackData {
        content: String::new(),
        flags: None,
        components: vec![ActionRow::new(), ActionRow::new()],
    };
    assert!(!Response::from(two).components_readable());
}

#[test]
fn message_content_of_a_message() {
    assert_eq!(
        Response::from(Response::message().content("hi")).message_content(),
        Some("hi".to_string())
    );
    assert_eq!(Response::pong().message_content(), Some(String::new()));
}

#[test]
fn from_message_is_a_new_message() {
    let response = Response::from(Response::message().content("hi"));
    assert_eq!(response.kind, CallbackType::ChannelMessageWithSource);
    assert_eq!(response.kind.code(), 4);
}

#[test]
fn edit_makes_an_update_and_keeps_the_payload() {
    let response = Response::from(Response::message().content("hi")).edit();
    assert_eq!(response.kind, CallbackType::UpdateMessage);
    assert_eq!(response.message_content(), Some("hi".to_string()));
    assert_eq!(
        response.encode(),
        object(vec![
            ("type", Json::Int(7)),
            ("data", object(vec![("content", text("hi")), ("flags", Json::Int(64))])),
        ])
    );
}

#[test]
fn callback_codes() {
    assert_eq!(CallbackType::Pong.code(), 1);
    assert_eq!(CallbackType::ChannelMessageWithSource.code(), 4);
    assert_eq!(CallbackType::UpdateMessage.code(), 7);
    assert_eq!(CallbackType::Modal.code(), 9);
    assert_eq!(ComponentType::ActionRow.code(), 1);
    assert_eq!(ComponentType::Button.code(), 2);
    assert_eq!(ComponentType::TextInput.code(), 4);
}

#[test]
fn form_has_one_row_for_each_component() {
    let leaves = vec![field("v1", "A value"), field("v2", "Another value"), button("b", "B")];
    let data = Response::modal().components(leaves.clone());
    assert_eq!(data.components.len(), 3);
    for (row, leaf) in data.components.iter().zip(leaves.iter()) {
        assert_eq!(row.components.len(), 1);
        assert_eq!(&row.components[0], leaf);
    }
    assert!(Response::modal().components(vec![]).components.is_empty());
}

#[test]
fn form_id_and_title() {
    let data = Response::modal().id("my_modal").title("Provide input values.");
    assert_eq!(data.custom_id, "my_modal");
    assert_eq!(data.title, "Provide input values.");
    let swapped = Response::modal().title("Provide input values.").id("my_modal");
    assert_eq!(data, swapped);
}

#[test]
fn form_on_the_wire() {
    let response = Response::from(
        Response::modal().id("my_modal").title("T").components(vec![field("v1", "A value")]),
    );
    assert_eq!(response.kind, CallbackType::Modal);
    let leaf = object(vec![
        ("type", Json::Int(4)),
        ("label", text("A value")),
        ("style", Json::Int(1)),
        ("custom_id", text("v1")),
    ]);
    let row = object(vec![("type", Json::Int(1)), ("components", Json::Array(vec![leaf]))]);
    assert_eq!(
        response.encode(),
        object(vec![
            ("type", Json::Int(9)),
            (
                "data",
                object(vec![
                    ("custom_id", text("my_modal")),
                    ("title", text("T")),
                    ("components", Json::Array(vec![row])),
                ]),
            ),
        ])
    );
}

#[test]
fn form_without_components_keeps_the_member() {
    let json = Response::modal().id("m").title("T").encode();
    assert_eq!(
        json,
        object(vec![
            ("custom_id", text("m")),
            ("title", text("T")),
            ("components", Json::Array(vec![])),
        ])
    );
}

#[test]
fn message_on_the_wire() {
    let response = Response::from(
        Response::message().content("Hello <@42>!").shout().components(vec![
            button("new_ephemeral", "spawn quiet message"),
            button("edit", "change this message"),
        ]),
    );
    let leaf = |id: &str, label: &str| {
        object(vec![
            ("type", Json::Int(2)),
            ("label", text(label)),
            ("style", Json::Int(1)),
            ("custom_id", text(id)),
        ])
    };
    let row = object(vec![
        ("type", Json::Int(1)),
        (
            "components",
            Json::Array(vec![
                leaf("new_ephemeral", "spawn quiet message"),
                leaf("edit", "change this message"),
            ]),
        ),
    ]);
    assert_eq!(
        response.encode(),
        object(vec![
            ("type", Json::Int(4)),
            (
                "data",
                object(vec![
                    ("content", text("Hello <@42>!")),
                    ("components", Json::Array(vec![row])),
                ]),
            ),
        ])
    );
}

#[test]
fn message_without_components_has_no_components_member() {
    let json = Response::message().content("x").encode();
    assert!(!json.has("components"));
    let empty_row = Response::message().components(vec![]).encode();
    assert_eq!(
        empty_row.list("components"),
        Some(&vec![object(vec![("type", Json::Int(1)), ("components", Json::Array(vec![]))])])
    );
}

#[test]
fn button_defaults_and_builders() {
    let plain = Component::button();
    assert_eq!(
        plain,
        Button { label: None, style: ButtonStyle::Primary, custom_id: "unlabeled button".to_string() }
    );
    let set = Component::button().label("press").id("b");
    assert_eq!(
        set,
        Button {
            label: Some("press".to_string()),
            style: ButtonStyle::Primary,
            custom_id: "b".to_string(),
        }
    );
    assert_eq!(set, Component::button().id("b").label("press"));
}

#[test]
fn text_input_defaults_and_builders() {
    let plain = TextInput::new();
    assert_eq!(
        plain,
        TextInput {
            label: None,
            style: Some(TextInputStyle::Short),
            custom_id: "unlabeled text input".to_string(),
            value: None,
        }
    );
    assert_eq!(Component::text_input(), plain);
    let set = Component::text_input().label("A value").id("v1");
    assert_eq!(set.label, Some("A value".to_string()));
    assert_eq!(set.custom_id, "v1");
    assert_eq!(set.style, Some(TextInputStyle::Short));
    assert_eq!(set.value, None);
}

#[test]
fn leaves_on_the_wire_leave_out_what_is_not_there() {
    assert_eq!(
        Component::button().encode(),
        object(vec![
            ("type", Json::Int(2)),
            ("style", Json::Int(1)),
            ("custom_id", text("unlabeled button")),
        ])
    );
    let bare = TextInput { label: None, style: None, custom_id: "v".to_string(), value: None };
    assert_eq!(bare.encode(), object(vec![("type", Json::Int(4)), ("custom_id", text("v"))]));
    let full = TextInput {
        label: Some("L".to_string()),
        style: Some(TextInputStyle::Short),
        custom_id: "v".to_string(),
        value: Some("x".to_string()),
    };
    assert_eq!(
        Component::from(full).encode(),
        object(vec![
            ("type", Json::Int(4)),
            ("label", text("L")),
            ("style", Json::Int(1)),
            ("custom_id", text("v")),
            ("value", text("x")),
        ])
    );
}

#[test]
fn clones_are_equal() {
    let a = button("a", "A");
    assert_eq!(a.clone(), a);
    let b = field("b", "B");
    assert_eq!(b.clone(), b);
}

#[test]
fn row_builder_replaces_the_leaves() {
    let row = ActionRow::new().components(vec![button("a", "A")]).components(vec![button("b", "B")]);
    assert_eq!(row.components, vec![button("b", "B")]);
    assert!(ActionRow::new().components.is_empty());
}

#[test]
fn encoded_text_field_with_value_reads_back() {
    let field = TextInput {
        label: Some("L".to_string()),
        style: Some(TextInputStyle::Short),
        custom_id: "v".to_string(),
        value: Some("x".to_string()),
    };
    assert_eq!(Component::decode(&field.encode()), Some(Component::Text(field)));
}

#[test]
fn encoded_button_reads_back_as_a_text_field() {
    let plain = Component::button().id("b").label("press");
    let json = plain.encode();
    assert_eq!(Button::decode(&json), Some(plain.clone()));
    assert_eq!(
        Component::decode(&json),
        Some(Component::Text(TextInput {
            label: Some("press".to_string()),
            style: Some(TextInputStyle::Short),
            custom_id: "b".to_string(),
            value: None,
        }))
    );
}

#[test]
fn encoded_bare_text_field_does_not_read_back() {
    let bare = TextInput { label: None, style: None, custom_id: "v".to_string(), value: None };
    assert_eq!(Component::decode(&bare.encode()), None);
    let styled = TextInput::new().id("v");
    assert_eq!(Component::decode(&styled.encode()), Some(Component::Text(styled)));
}

#[test]
fn reply_made_from_a_builder_keeps_its_payload() {
    let message = Response::from(Response::message().content("hi"));
    assert_eq!(message.data, CallbackData::Message(Response::message().content("hi")));
    let form = Response::from(Response::modal().id("m"));
    assert_eq!(form.data, CallbackData::Modal(Response::modal().id("m")));
    assert_eq!(form.kind, CallbackType::Modal);
    assert_eq!(
        ModalCallbackData { custom_id: "m".to_string(), title: String::new(), components: vec![] },
        Response::modal().id("m")
    );
}

#[test]
fn edit_leaves_the_reply_to_a_ping_as_it_is() {
    assert!(!Response::pong().editable());
    assert_eq!(Response::pong().edit(), Response::pong());
    assert_eq!(Response::pong().edit().kind, CallbackType::Pong);
}

#[test]
fn edit_leaves_a_form_as_it_is() {
    let form = || Response::from(Response::modal().id("f"));
    assert!(!form().editable());
    assert_eq!(form().edit(), form());
    assert_eq!(form().edit().kind, CallbackType::Modal);
    assert_eq!(form().edit().encode().integer("type"), Some(9));
}

#[test]
fn edit_twice_is_edit_once() {
    let once = Response::from(Response::message().content("hi")).edit();
    assert!(once.editable());
    let twice = Response::from(Response::message().content("hi")).edit().edit();
    assert_eq!(once, twice);
    assert_eq!(twice.kind, CallbackType::UpdateMessage);
}

#[test]
fn edit_never_puts_a_form_under_an_update() {
    let odd = Response {
        kind: CallbackType::ChannelMessageWithSource,
        data: CallbackData::Modal(Response::modal()),
    };
    assert!(!odd.editable());
    assert_eq!(odd.edit().kind, CallbackType::ChannelMessageWithSource);
}

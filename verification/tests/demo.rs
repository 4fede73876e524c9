use discord_interaction::component::Component;
use discord_interaction::demo::answer;
use discord_interaction::demo::handle_application_command;
use discord_interaction::demo::handle_message_component;
use discord_interaction::demo::knows_command;
use discord_interaction::demo::knows_component;
use discord_interaction::request::GuildMember;
use discord_interaction::request::ModalSubmitData;
use discord_interaction::request::Request;
use discord_interaction::response::CallbackType;
use discord_interaction::response::MessageFlags;
use discord_interaction::response::Response;

fn button(id: &str, label: &str) -> Component {
    Component::from(Component::button().id(id).label(label))
}

#[test]
fn hello_greets_the_user_with_three_buttons() {
    assert!(knows_command("hello"));
    let reply = handle_application_command("hello", "42");
    let expected = Response::from(
        Response::message().content("Hello <@42>!").shout().components(vec![
            button("new_ephemeral", "spawn quiet message"),
            button("edit", "change this message"),
            button("modal", "try a modal"),
        ]),
    );
    assert_eq!(reply, expected);
    assert_eq!(reply.message_content(), Some("Hello <@42>!".to_string()));
    assert_eq!(reply.message_components().len(), 3);
}

#[test]
fn other_commands_are_not_known() {
    assert!(!knows_command("bye"));
    assert!(!knows_command(""));
    assert!(!knows_command("Hello"));
    assert!(!knows_command("hello "));
    assert_eq!(answer(&Request::from(Request::application_command("bye"))), None);
    assert_eq!(answer(&Request::from(Request::application_command("Hello"))), None);
}

#[test]
fn first_button_spawns_a_private_message() {
    assert!(knows_component("new_ephemeral"));
    let reply = handle_message_component("new_ephemeral");
    assert_eq!(
        reply,
        Response::from(Response::message().content("You've spawned a new ephemeral message!"))
    );
    assert_eq!(reply.kind, CallbackType::ChannelMessageWithSource);
    assert_eq!(reply.encode().get("data").unwrap().integer("flags"), Some(64));
    assert_eq!(MessageFlags::Ephemeral.code(), 64);
}

#[test]
fn second_button_edits_the_message() {
    assert!(knows_component("edit"));
    let reply = handle_message_component("edit");
    assert_eq!(reply.kind, CallbackType::UpdateMessage);
    assert_eq!(reply.message_content(), Some("You edited the existing message.".to_string()));
    assert!(!reply.encode().get("data").unwrap().has("flags"));
}

#[test]
fn third_button_opens_the_form() {
    assert!(knows_component("modal"));
    let reply = handle_message_component("modal");
    let expected = Response::from(
        Response::modal().id("my_modal").title("Provide input values.").components(vec![
            Component::from(Component::text_input().id("v1").label("A value")),
            Component::from(Component::text_input().id("v2").label("Another value")),
        ]),
    );
    assert_eq!(reply, expected);
    assert_eq!(reply.kind, CallbackType::Modal);
}

#[test]
fn other_buttons_are_not_known() {
    assert!(!knows_component("v1"));
    assert!(!knows_component(""));
    assert!(!knows_component("Edit"));
    assert!(!knows_component("modal "));
    assert_eq!(answer(&Request::from(Request::message_component("v1", 2))), None);
    assert_eq!(answer(&Request::from(Request::message_component("", 2))), None);
}

#[test]
fn answer_goes_by_the_kind() {
    assert_eq!(answer(&Request::ping()), Some(Response::pong()));
    let hello = Request::from(Request::application_command("hello")).member(GuildMember::new("7"));
    assert_eq!(answer(&hello), Some(handle_application_command("hello", "7")));
    let anonymous = Request::from(Request::application_command("hello"));
    assert_eq!(answer(&anonymous), Some(handle_application_command("hello", "Unknown user")));
    let edit = Request::from(Request::message_component("edit", 2));
    assert_eq!(answer(&edit), Some(handle_message_component("edit")));
    let form = Request::from(ModalSubmitData { custom_id: "my_modal".to_string(), components: vec![] });
    assert_eq!(answer(&form), None);
}

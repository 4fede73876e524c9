use discord_interaction::component::ActionRow;
use discord_interaction::component::Component;
use discord_interaction::component::TextInput;
use discord_interaction::request::ApplicationCommandData;
use discord_interaction::request::Data;
use discord_interaction::request::DecodeError;
use discord_interaction::request::GuildMember;
use discord_interaction::request::Message;
use discord_interaction::request::MessageComponentData;
use discord_interaction::request::ModalSubmitData;
use discord_interaction::request::Request;
use discord_interaction::request::Type;
use discord_interaction::request::User;

fn filled(id: &str, value: &str) -> Component {
    let mut field = Component::text_input().id(id);
    field.value = Some(value.to_string());
    Component::from(field)
}

fn row(leaves: Vec<Component>) -> ActionRow {
    ActionRow::new().components(leaves)
}

fn form(rows: Vec<ActionRow>) -> ModalSubmitData {
    ModalSubmitData { custom_id: "my_modal".to_string(), components: rows }
}

#[test]
fn ping_has_no_payload() {
    let ping = Request::ping();
    assert_eq!(ping.kind, Type::Ping);
    assert_eq!(ping.data, None);
    assert_eq!(ping.member, None);
    assert_eq!(ping.message, None);
}

#[test]
fn get_user_without_member_is_the_fixed_text() {
    assert_eq!(Request::ping().get_user(), "Unknown user");
    assert_eq!(Request::from(Request::application_command("hello")).get_user(), "Unknown user");
}

#[test]
fn get_user_with_member_is_the_id() {
    assert_eq!(Request::ping().member(GuildMember::new("42")).get_user(), "42");
    assert_eq!(Request::ping().member(GuildMember::new("")).get_user(), "");
    assert_eq!(
        Request::ping().member(GuildMember::new("Unknown user")).get_user(),
        "Unknown user"
    );
    let member = GuildMember { user: User { id: "a b".to_string() } };
    assert_eq!(Request::ping().member(member).get_user(), "a b");
}

#[test]
fn message_content_is_empty_without_message() {
    assert_eq!(Request::ping().message_content(), "");
    let message = Message { content: "before".to_string(), interaction: None };
    assert_eq!(Request::ping().message(message).message_content(), "before");
}

#[test]
fn member_and_message_keep_the_rest() {
    let request = Request::from(Request::message_component("edit", 2))
        .member(GuildMember::new("7"))
        .message(Message { content: "c".to_string(), interaction: None });
    assert_eq!(request.kind, Type::MessageComponent);
    assert_eq!(request.custom_id(), Some("edit".to_string()));
    assert_eq!(request.get_user(), "7");
    assert_eq!(request.message_content(), "c");
}

#[test]
fn command_name_by_kind() {
    assert_eq!(
        Request::from(Request::application_command("hello")).command_name(),
        Some("hello".to_string())
    );
    assert_eq!(Request::from(Request::message_component("edit", 2)).command_name(), None);
    assert_eq!(Request::from(form(vec![])).command_name(), None);
    assert_eq!(Request::ping().command_name(), None);
}

#[test]
fn custom_id_by_kind() {
    assert_eq!(Request::from(Request::application_command("hello")).custom_id(), None);
    assert_eq!(
        Request::from(Request::message_component("edit", 2)).custom_id(),
        Some("edit".to_string())
    );
    assert_eq!(Request::from(form(vec![])).custom_id(), Some("my_modal".to_string()));
    assert_eq!(Request::ping().custom_id(), None);
}

#[test]
fn from_payload_sets_the_kind() {
    let command = Request::from(ApplicationCommandData::new("hello"));
    assert_eq!(command.kind, Type::ApplicationCommand);
    assert_eq!(
        command.data,
        Some(Data::Command(ApplicationCommandData { name: "hello".to_string() }))
    );
    let activation = Request::from(MessageComponentData::new("edit", 2));
    assert_eq!(activation.kind, Type::MessageComponent);
    assert_eq!(
        activation.data,
        Some(Data::Message(MessageComponentData { custom_id: "edit".to_string(), component_type: 2 }))
    );
    let submission = Request::from(form(vec![]));
    assert_eq!(submission.kind, Type::ModalSubmit);
    assert_eq!(submission.member, None);
    assert_eq!(submission.message, None);
}

#[test]
fn payload_fits_its_own_kind_only() {
    let command = Data::Command(ApplicationCommandData::new("hello"));
    assert!(command.fits(Type::ApplicationCommand));
    assert!(!command.fits(Type::Ping));
    assert!(!command.fits(Type::MessageComponent));
    assert!(!command.fits(Type::ModalSubmit));
    let activation = Data::Message(MessageComponentData::new("edit", 2));
    assert!(activation.fits(Type::MessageComponent));
    assert!(!activation.fits(Type::ApplicationCommand));
    let submission = Data::Modal(form(vec![]));
    assert!(submission.fits(Type::ModalSubmit));
    assert!(!submission.fits(Type::MessageComponent));
}

#[test]
fn values_by_identifier() {
    let data = form(vec![row(vec![filled("v1", "x")]), row(vec![filled("v2", "y")])]);
    assert!(data.rows_filled());
    let values = data.values();
    assert_eq!(values.len(), 2);
    assert_eq!(values.get("v1"), Some(&"x".to_string()));
    assert_eq!(values.get("v2"), Some(&"y".to_string()));
    assert_eq!(values.get("v3"), None);
}

#[test]
fn values_skip_rows_that_report_nothing() {
    let data = form(vec![
        row(vec![Component::from(Component::button().id("b"))]),
        row(vec![Component::from(Component::text_input().id("empty"))]),
        row(vec![filled("v1", "x")]),
    ]);
    let values = data.values();
    assert_eq!(values.len(), 1);
    assert_eq!(values.get("v1"), Some(&"x".to_string()));
    assert!(!values.contains_key("b"));
    assert!(!values.contains_key("empty"));
}

#[test]
fn values_read_the_first_leaf_of_a_row_only() {
    let data = form(vec![row(vec![filled("first", "1"), filled("second", "2")])]);
    let values = data.values();
    assert_eq!(values.len(), 1);
    assert_eq!(values.get("first"), Some(&"1".to_string()));
}

#[test]
fn values_keep_the_later_of_two_rows_with_one_identifier() {
    let data = form(vec![row(vec![filled("v", "old")]), row(vec![filled("v", "new")])]);
    let values = data.values();
    assert_eq!(values.len(), 1);
    assert_eq!(values.get("v"), Some(&"new".to_string()));
}

#[test]
fn values_of_a_form_without_rows_are_empty() {
    let data = form(vec![]);
    assert!(data.rows_filled());
    assert!(data.values().is_empty());
    assert!(data.checked_values().unwrap().is_empty());
}

#[test]
fn checked_values_report_an_empty_row() {
    let data = form(vec![row(vec![filled("v1", "x")]), row(vec![])]);
    assert!(!data.rows_filled());
    assert!(matches!(data.checked_values(), Err(DecodeError::EmptyRow)));
    let fine = form(vec![row(vec![filled("v1", "x")])]);
    let values = fine.checked_values().unwrap();
    assert_eq!(values.get("v1"), Some(&"x".to_string()));
}

#[test]
fn modal_submit_values_are_empty_for_other_kinds() {
    let ping = Request::ping();
    assert!(ping.values_readable());
    assert!(ping.modal_submit_values().is_empty());
    let command = Request::from(Request::application_command("hello"));
    assert!(command.values_readable());
    assert!(command.modal_submit_values().is_empty());
    let activation = Request::from(Request::message_component("edit", 2));
    assert!(activation.modal_submit_values().is_empty());
}

#[test]
fn modal_submit_values_of_a_submission() {
    let request = Request::from(form(vec![row(vec![filled("v1", "x")])]));
    assert!(request.values_readable());
    let values = request.modal_submit_values();
    assert_eq!(values.len(), 1);
    assert_eq!(values.get("v1"), Some(&"x".to_string()));
    let broken = Request::from(form(vec![row(vec![])]));
    assert!(!broken.values_readable());
}

#[test]
fn text_field_reports_its_value() {
    assert_eq!(TextInput::new().value(), None);
    let mut field = TextInput::new().id("v1");
    field.value = Some("x".to_string());
    assert_eq!(field.value(), Some(("v1".to_string(), "x".to_string())));
    assert_eq!(Component::from(field).value(), Some(("v1".to_string(), "x".to_string())));
}

#[test]
fn button_reports_no_value() {
    assert_eq!(Component::from(Component::button().id("b").label("press")).value(), None);
    assert_eq!(row(vec![Component::from(Component::button())]).component_value(), None);
}

#[test]
fn row_reports_its_first_leaf() {
    let both = row(vec![filled("a", "1"), filled("b", "2")]);
    assert_eq!(both.component_value(), Some(("a".to_string(), "1".to_string())));
    let button_first = row(vec![Component::from(Component::button()), filled("b", "2")]);
    assert_eq!(button_first.component_value(), None);
}

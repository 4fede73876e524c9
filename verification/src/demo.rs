//! A small handler that shows the builders at work: it answers the command
//! `hello` with three buttons, and each button with a reply of another kind.
//! It has no answer to any other command or button, so the two handling
//! functions ask for a known one, and `answer` asks before it calls them.

use crate::component::ButtonStyle;
use crate::component::ButtonView;
use crate::component::Component;
use crate::component::ComponentView;
use crate::component::TextInputStyle;
use crate::component::TextInputView;
use crate::request::Request;
use crate::request::RequestView;
use crate::request::Type;
use crate::response::MessageCallbackDataView;
use crate::response::ModalCallbackDataView;
use crate::response::Response;
use crate::response::ResponseView;
use vstd::prelude::*;

verus! {

/// A labelled primary button.
pub open spec fn button_view(id: Seq<char>, label: Seq<char>) -> ComponentView {
    ComponentView::Button(
        ButtonView { label: Some(label), style: ButtonStyle::Primary, custom_id: id },
    )
}

/// A labelled short text field without a value.
pub open spec fn field_view(id: Seq<char>, label: Seq<char>) -> ComponentView {
    ComponentView::Text(
        TextInputView {
            label: Some(label),
            style: Some(TextInputStyle::Short),
            custom_id: id,
            value: None,
        },
    )
}

/// The greeting for `user`.
pub open spec fn greeting(user: Seq<char>) -> Seq<char> {
    "Hello <@"@ + user + ">!"@
}

/// The answer to `hello`: a greeting for everyone to see, with the three
/// buttons under it.
pub open spec fn hello_reply(user: Seq<char>) -> ResponseView {
    ResponseView::of_message(
        MessageCallbackDataView { content: greeting(user), ..MessageCallbackDataView::start() }.shout(
        ).with_components(
            seq![
                button_view("new_ephemeral"@, "spawn quiet message"@),
                button_view("edit"@, "change this message"@),
                button_view("modal"@, "try a modal"@),
            ],
        ),
    )
}

/// The answer to the first button: a new message for the acting user alone.
pub open spec fn quiet_reply() -> ResponseView {
    ResponseView::of_message(
        MessageCallbackDataView {
            content: "You've spawned a new ephemeral message!"@,
            ..MessageCallbackDataView::start()
        },
    )
}

/// The answer to the second button: the message changed in place.
pub open spec fn edit_reply() -> ResponseView {
    ResponseView::of_message(
        MessageCallbackDataView {
            content: "You edited the existing message."@,
            ..MessageCallbackDataView::start()
        }.shout(),
    ).edit()
}

/// The answer to the third button: a form with two fields.
pub open spec fn modal_reply() -> ResponseView {
    ResponseView::of_modal(
        ModalCallbackDataView {
            custom_id: "my_modal"@,
            title: "Provide input values."@,
            components: Seq::empty(),
        }.with_components(
            seq![field_view("v1"@, "A value"@), field_view("v2"@, "Another value"@)],
        ),
    )
}

/// Whether the handler knows the command: `hello` is the only one.
pub open spec fn command_known(command_name: Seq<char>) -> bool {
    command_name == "hello"@
}

/// Whether the handler knows the button: the three under the greeting.
pub open spec fn component_known(custom_id: Seq<char>) -> bool {
    custom_id == "new_ephemeral"@ || custom_id == "edit"@ || custom_id == "modal"@
}

/// The answer to a command that the handler knows.
pub open spec fn command_reply(command_name: Seq<char>, user: Seq<char>) -> ResponseView
    recommends
        command_known(command_name),
{
    hello_reply(user)
}

/// The answer to a pressed button that the handler knows.
pub open spec fn component_reply(custom_id: Seq<char>) -> ResponseView
    recommends
        component_known(custom_id),
{
    if custom_id == "new_ephemeral"@ {
        quiet_reply()
    } else if custom_id == "edit"@ {
        edit_reply()
    } else {
        modal_reply()
    }
}

/// The answer to an interaction, if the handler has one: a ping is
/// acknowledged, a known command and a known button get the replies above,
/// and anything else gets none.
pub open spec fn reply_to(request: RequestView) -> Option<ResponseView> {
    match request.kind {
        Type::Ping => Some(ResponseView::pong()),
        Type::ApplicationCommand => match request.command_name() {
            Some(name) => if command_known(name) {
                Some(command_reply(name, request.user()))
            } else {
                None
            },
            None => None,
        },
        Type::MessageComponent => match request.custom_id() {
            Some(id) => if component_known(id) {
                Some(component_reply(id))
            } else {
                None
            },
            None => None,
        },
        Type::ModalSubmit => None,
    }
}

/// Whether `text` reads `word`.
fn reads(text: &str, word: &str) -> (same: bool)
    ensures
        same == (text@ == word@),
{
    text.to_owned() == word.to_owned()
}

fn button(id: &str, label: &str) -> (leaf: Component)
    ensures
        leaf.deep_view() == button_view(id@, label@),
{
    Component::Button(Component::button().id(id).label(label))
}

fn field(id: &str, label: &str) -> (leaf: Component)
    ensures
        leaf.deep_view() == field_view(id@, label@),
{
    Component::Text(Component::text_input().id(id).label(label))
}

/// Whether the handler knows the command.
pub fn knows_command(command_name: &str) -> (known: bool)
    ensures
        known == command_known(command_name@),
{
    reads(command_name, "hello")
}

/// Whether the handler knows the button.
pub fn knows_component(custom_id: &str) -> (known: bool)
    ensures
        known == component_known(custom_id@),
{
    reads(custom_id, "new_ephemeral") || reads(custom_id, "edit") || reads(custom_id, "modal")
}

/// Answers the command `hello` with the greeting. No other command has an
/// answer: `knows_command` tells.
pub fn handle_application_command(command_name: &str, user_id: &str) -> (reply: Response)
    requires
        command_known(command_name@),
    ensures
        reply.deep_view() == command_reply(command_name@, user_id@),
{
    let mut text = "Hello <@".to_owned();
    text.append(user_id);
    text.append(">!");
    let mut buttons: Vec<Component> = Vec::new();
    buttons.push(button("new_ephemeral", "spawn quiet message"));
    buttons.push(button("edit", "change this message"));
    buttons.push(button("modal", "try a modal"));
    assert(buttons.deep_view() =~= seq![
        button_view("new_ephemeral"@, "spawn quiet message"@),
        button_view("edit"@, "change this message"@),
        button_view("modal"@, "try a modal"@),
    ]);
    let data = Response::message().content(text.as_str()).shout().components(buttons);
    Response::from(data)
}

/// Answers one of the three known buttons with its reply. No other button
/// has an answer: `knows_component` tells.
pub fn handle_message_component(custom_id: &str) -> (reply: Response)
    requires
        component_known(custom_id@),
    ensures
        reply.deep_view() == component_reply(custom_id@),
{
    if reads(custom_id, "new_ephemeral") {
        let data = Response::message().content("You've spawned a new ephemeral message!");
        Response::from(data)
    } else if reads(custom_id, "edit") {
        let data = Response::message().content("You edited the existing message.").shout();
        Response::from(data).edit()
    } else {
        let mut fields: Vec<Component> = Vec::new();
        fields.push(field("v1", "A value"));
        fields.push(field("v2", "Another value"));
        assert(fields.deep_view() =~= seq![
            field_view("v1"@, "A value"@),
            field_view("v2"@, "Another value"@),
        ]);
        let data = Response::modal().id("my_modal").title("Provide input values.").components(
            fields,
        );
        Response::from(data)
    }
}

/// Answers an interaction, if the handler has an answer to it: it asks
/// first whether the command or the button is known.
pub fn answer(request: &Request) -> (reply: Option<Response>)
    ensures
        reply.deep_view() == reply_to(request.deep_view()),
{
    match request.kind {
        Type::Ping => Some(Response::pong()),
        Type::ApplicationCommand => match request.command_name() {
            Some(name) => if knows_command(name.as_str()) {
                let user = request.get_user();
                Some(handle_application_command(name.as_str(), user.as_str()))
            } else {
                None
            },
            None => None,
        },
        Type::MessageComponent => match request.custom_id() {
            Some(id) => if knows_component(id.as_str()) {
                Some(handle_message_component(id.as_str()))
            } else {
                None
            },
            None => None,
        },
        Type::ModalSubmit => None,
    }
}

} // verus!

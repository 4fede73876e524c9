//! The inbound side: one interaction event and what can be read from it.

use crate::component::ActionRow;
use crate::component::ActionRowView;
use vstd::hash_map::StringHashMap;
use vstd::prelude::*;

verus! {

/// Why a value could not be read as an interaction.
#[derive(Debug, Clone, Copy, PartialEq, Eq, Structural)]
pub enum DecodeError {
    /// The `type` member is missing or is none of the known codes.
    UnknownKind,
    /// The payload has none of the known shapes, or not the shape that the
    /// kind asks for, or the member or message beside it is malformed.
    PayloadMismatch,
    /// A row without a leaf was read for its value.
    EmptyRow,
}

/// The kind of an interaction.
#[derive(Debug, Clone, Copy, PartialEq, Eq, Structural)]
pub enum Type {
    Ping,
    ApplicationCommand,
    MessageComponent,
    ModalSubmit,
}

impl Type {
    /// The number that stands for this kind on the wire. There is no kind 4.
    pub open spec fn wire_code(self) -> int {
        match self {
            Type::Ping => 1,
            Type::ApplicationCommand => 2,
            Type::MessageComponent => 3,
            Type::ModalSubmit => 5,
        }
    }

    /// The kind that a wire code stands for.
    pub open spec fn of_code(code: int) -> Option<Type> {
        if code == 1 {
            Some(Type::Ping)
        } else if code == 2 {
            Some(Type::ApplicationCommand)
        } else if code == 3 {
            Some(Type::MessageComponent)
        } else if code == 5 {
            Some(Type::ModalSubmit)
        } else {
            None
        }
    }

    /// The number that stands for it on the wire.
    pub fn code(self) -> (code: u8)
        ensures
            code == self.wire_code(),
    {
        match self {
            Type::Ping => 1,
            Type::ApplicationCommand => 2,
            Type::MessageComponent => 3,
            Type::ModalSubmit => 5,
        }
    }

    /// The kind that a wire code stands for, if any.
    pub fn from_code(code: i64) -> (kind: Option<Type>)
        ensures
            kind == Self::of_code(code as int),
    {
        if code == 1 {
            Some(Type::Ping)
        } else if code == 2 {
            Some(Type::ApplicationCommand)
        } else if code == 3 {
            Some(Type::MessageComponent)
        } else if code == 5 {
            Some(Type::ModalSubmit)
        } else {
            None
        }
    }
}

/// The payload of a command invocation: which command.
#[derive(Debug, PartialEq)]
pub struct ApplicationCommandData {
    pub name: String,
}

/// The mathematical value that an [`ApplicationCommandData`] stands for.
pub struct ApplicationCommandDataView {
    pub name: Seq<char>,
}

impl DeepView for ApplicationCommandData {
    type V = ApplicationCommandDataView;

    open spec fn deep_view(&self) -> ApplicationCommandDataView {
        ApplicationCommandDataView { name: self.name@ }
    }
}

impl ApplicationCommandData {
    /// The payload of an invocation of the command `name`.
    pub fn new(name: &str) -> (data: ApplicationCommandData)
        ensures
            data.deep_view() == (ApplicationCommandDataView { name: name@ }),
    {
        ApplicationCommandData { name: name.to_owned() }
    }
}

/// The payload of a component activation: which element, and of what kind.
#[derive(Debug, PartialEq)]
pub struct MessageComponentData {
    pub custom_id: String,
    pub component_type: u8,
}

/// The mathematical value that a [`MessageComponentData`] stands for.
pub struct MessageComponentDataView {
    pub custom_id: Seq<char>,
    pub component_type: u8,
}

impl DeepView for MessageComponentData {
    type V = MessageComponentDataView;

    open spec fn deep_view(&self) -> MessageComponentDataView {
        MessageComponentDataView {
            custom_id: self.custom_id@,
            component_type: self.component_type,
        }
    }
}

impl MessageComponentData {
    /// The payload of an activation of the component `custom_id`.
    pub fn new(custom_id: &str, component_type: u8) -> (data: Self)
        ensures
            data.deep_view() == (MessageComponentDataView { custom_id: custom_id@, component_type }),
    {
        MessageComponentData { custom_id: custom_id.to_owned(), component_type }
    }
}

/// The payload of a form submission: which form, and the rows that hold what
/// the user entered.
#[derive(Debug, PartialEq)]
pub struct ModalSubmitData {
    pub custom_id: String,
    pub components: Vec<ActionRow>,
}

/// The mathematical value that a [`ModalSubmitData`] stands for.
pub struct ModalSubmitDataView {
    pub custom_id: Seq<char>,
    pub components: Seq<ActionRowView>,
}

/// The entered values of `rows` by identifier. A row whose first leaf reports
/// nothing adds nothing, and of two rows with one identifier the later counts.
pub open spec fn values_of(rows: Seq<ActionRowView>) -> Map<Seq<char>, Seq<char>>
    decreases rows.len(),
{
    if rows.len() == 0 {
        Map::empty()
    } else {
        let earlier = values_of(rows.drop_last());
        match rows.last().value() {
            Some((id, entered)) => earlier.insert(id, entered),
            None => earlier,
        }
    }
}

/// A map of strings, each value taken by its view.
pub open spec fn texts(entries: Map<Seq<char>, String>) -> Map<Seq<char>, Seq<char>> {
    entries.map_values(|text: String| text@)
}

impl ModalSubmitDataView {
    /// Whether every row holds at least one leaf, so that it can be read.
    pub open spec fn rows_filled(self) -> bool {
        forall|i: int|
            0 <= i < self.components.len() ==> (#[trigger] self.components[i]).components.len() > 0
    }

    /// The entered values by identifier.
    pub open spec fn values(self) -> Map<Seq<char>, Seq<char>> {
        values_of(self.components)
    }
}

impl DeepView for ModalSubmitData {
    type V = ModalSubmitDataView;

    open spec fn deep_view(&self) -> ModalSubmitDataView {
        ModalSubmitDataView {
            custom_id: self.custom_id@,
            components: self.components.deep_view(),
        }
    }
}

impl ModalSubmitData {
    /// Whether every row holds at least one leaf.
    pub fn rows_filled(&self) -> (filled: bool)
        ensures
            filled == self.deep_view().rows_filled(),
    {
        let ghost rows = self.components.deep_view();
        let mut i: usize = 0;
        while i < self.components.len()
            invariant
                i <= self.components.len(),
                rows == self.components.deep_view(),
                forall|j: int| 0 <= j < i ==> (#[trigger] rows[j]).components.len() > 0,
            decreases self.components.len() - i,
        {
            if self.components[i].components.len() == 0 {
                assert(self.deep_view().components[i as int].components.len() == 0);
                return false;
            }
            assert(rows[i as int].components.len() > 0);
            i += 1;
        }
        true
    }

    /// The entered values by identifier.
    pub fn values(&self) -> (values: StringHashMap<String>)
        requires
            self.deep_view().rows_filled(),
        ensures
            texts(values@) == self.deep_view().values(),
    {
        let ghost rows = self.components.deep_view();
        let mut values: StringHashMap<String> = StringHashMap::new();
        let mut i: usize = 0;
        assert(texts(values@) =~= values_of(rows.take(0)));
        while i < self.components.len()
            invariant
                i <= self.components.len(),
                rows == self.components.deep_view(),
                self.deep_view().rows_filled(),
                texts(values@) == values_of(rows.take(i as int)),
            decreases self.components.len() - i,
        {
            let ghost before = values@;
            assert(self.deep_view().components[i as int].components.len() > 0);
            assert(rows[i as int] == self.components@[i as int].deep_view());
            let read = self.components[i].component_value();
            proof {
                let next = rows.take(i as int + 1);
                assert(next.drop_last() =~= rows.take(i as int));
                assert(next.last() == rows[i as int]);
            }
            match read {
                Some((id, entered)) => {
                    values.insert(id, entered);
                    assert(texts(values@) =~= texts(before).insert(id@, entered@));
                },
                None => {},
            }
            i += 1;
        }
        assert(rows.take(i as int) =~= rows);
        values
    }

    /// The entered values by identifier, or `EmptyRow` where a row holds no
    /// leaf to read.
    pub fn checked_values(&self) -> (values: Result<StringHashMap<String>, DecodeError>)
        ensures
            match values {
                Ok(found) => self.deep_view().rows_filled() && texts(found@)
                    == self.deep_view().values(),
                Err(e) => !self.deep_view().rows_filled() && e == DecodeError::EmptyRow,
            },
    {
        if self.rows_filled() {
            Ok(self.values())
        } else {
            Err(DecodeError::EmptyRow)
        }
    }
}

/// The payload of an interaction, by its shape.
#[derive(Debug, PartialEq)]
pub enum Data {
    Command(ApplicationCommandData),
    Message(MessageComponentData),
    Modal(ModalSubmitData),
}

/// The mathematical value that a [`Data`] stands for.
pub enum DataView {
    Command(ApplicationCommandDataView),
    Message(MessageComponentDataView),
    Modal(ModalSubmitDataView),
}

impl DataView {
    /// Whether a payload of this shape belongs to an interaction of `kind`.
    pub open spec fn fits(self, kind: Type) -> bool {
        match self {
            DataView::Command(_) => kind == Type::ApplicationCommand,
            DataView::Message(_) => kind == Type::MessageComponent,
            DataView::Modal(_) => kind == Type::ModalSubmit,
        }
    }
}

impl DeepView for Data {
    type V = DataView;

    open spec fn deep_view(&self) -> DataView {
        match self {
            Data::Command(data) => DataView::Command(data.deep_view()),
            Data::Message(data) => DataView::Message(data.deep_view()),
            Data::Modal(data) => DataView::Modal(data.deep_view()),
        }
    }
}

impl Data {
    /// Whether a payload of this shape belongs to an interaction of `kind`.
    pub fn fits(&self, kind: Type) -> (fits: bool)
        ensures
            fits == self.deep_view().fits(kind),
    {
        match self {
            Data::Command(_) => matches!(kind, Type::ApplicationCommand),
            Data::Message(_) => matches!(kind, Type::MessageComponent),
            Data::Modal(_) => matches!(kind, Type::ModalSubmit),
        }
    }
}

/// A user, by identifier.
#[derive(Debug, PartialEq)]
pub struct User {
    pub id: String,
}

/// The mathematical value that a [`User`] stands for.
pub struct UserView {
    pub id: Seq<char>,
}

impl DeepView for User {
    type V = UserView;

    open spec fn deep_view(&self) -> UserView {
        UserView { id: self.id@ }
    }
}

/// The member who caused the interaction.
#[derive(Debug, PartialEq)]
pub struct GuildMember {
    pub user: User,
}

/// The mathematical value that a [`GuildMember`] stands for.
pub struct GuildMemberView {
    pub user: UserView,
}

impl DeepView for GuildMember {
    type V = GuildMemberView;

    open spec fn deep_view(&self) -> GuildMemberView {
        GuildMemberView { user: self.user.deep_view() }
    }
}

impl GuildMember {
    /// The member whose user has the identifier `user`.
    pub fn new(user: &str) -> (member: Self)
        ensures
            member.deep_view() == (GuildMemberView { user: UserView { id: user@ } }),
    {
        GuildMember { user: User { id: user.to_owned() } }
    }
}

/// The interaction that a message answered.
#[derive(Debug, PartialEq)]
pub struct MessageInteraction {
    pub name: String,
}

/// The mathematical value that a [`MessageInteraction`] stands for.
pub struct MessageInteractionView {
    pub name: Seq<char>,
}

impl DeepView for MessageInteraction {
    type V = MessageInteractionView;

    open spec fn deep_view(&self) -> MessageInteractionView {
        MessageInteractionView { name: self.name@ }
    }
}

/// The message that held the activated component.
#[derive(Debug, PartialEq)]
pub struct Message {
    pub content: String,
    pub interaction: Option<MessageInteraction>,
}

/// The mathematical value that a [`Message`] stands for.
pub struct MessageView {
    pub content: Seq<char>,
    pub interaction: Option<MessageInteractionView>,
}

impl DeepView for Message {
    type V = MessageView;

    open spec fn deep_view(&self) -> MessageView {
        MessageView { content: self.content@, interaction: self.interaction.deep_view() }
    }
}

/// One interaction event.
#[derive(Debug, PartialEq)]
pub struct Request {
    pub kind: Type,
    pub data: Option<Data>,
    pub member: Option<GuildMember>,
    pub message: Option<Message>,
}

/// The mathematical value that a [`Request`] stands for.
pub struct RequestView {
    pub kind: Type,
    pub data: Option<DataView>,
    pub member: Option<GuildMemberView>,
    pub message: Option<MessageView>,
}

impl RequestView {
    /// The payload goes with the kind: a ping has none, and every other kind
    /// has the one of its own shape.
    pub open spec fn well_formed(self) -> bool {
        match self.data {
            None => self.kind == Type::Ping,
            Some(data) => data.fits(self.kind),
        }
    }

    /// The identifier of the acting user, or a fixed text where no member
    /// came with the interaction.
    pub open spec fn user(self) -> Seq<char> {
        match self.member {
            Some(member) => member.user.id,
            None => "Unknown user"@,
        }
    }

    /// The text of the message that came with the interaction, or nothing.
    pub open spec fn message_content(self) -> Seq<char> {
        match self.message {
            Some(message) => message.content,
            None => Seq::empty(),
        }
    }

    /// The command's name, for a command invocation.
    pub open spec fn command_name(self) -> Option<Seq<char>> {
        match self.data {
            Some(DataView::Command(data)) => Some(data.name),
            _ => None,
        }
    }

    /// The identifier of the activated component or of the submitted form.
    pub open spec fn custom_id(self) -> Option<Seq<char>> {
        match self.data {
            Some(DataView::Message(data)) => Some(data.custom_id),
            Some(DataView::Modal(data)) => Some(data.custom_id),
            _ => None,
        }
    }

    /// Whether the entered values can be read: anything but a form
    /// submission has none, and a form submission needs its rows filled.
    pub open spec fn values_readable(self) -> bool {
        self.data matches Some(DataView::Modal(data)) ==> data.rows_filled()
    }

    /// The entered values of a form submission; empty for anything else.
    pub open spec fn modal_submit_values(self) -> Map<Seq<char>, Seq<char>> {
        match self.data {
            Some(DataView::Modal(data)) => data.values(),
            _ => Map::empty(),
        }
    }
}

impl DeepView for Request {
    type V = RequestView;

    open spec fn deep_view(&self) -> RequestView {
        RequestView {
            kind: self.kind,
            data: self.data.deep_view(),
            member: self.member.deep_view(),
            message: self.message.deep_view(),
        }
    }
}

impl Request {
    /// The handshake: a ping without payload, member or message.
    pub fn ping() -> (request: Self)
        ensures
            request.deep_view() == (RequestView {
                kind: Type::Ping,
                data: None,
                member: None,
                message: None,
            }),
            request.deep_view().well_formed(),
    {
        Request { kind: Type::Ping, data: None, member: None, message: None }
    }

    /// The identifier of the acting user, or `Unknown user`.
    pub fn get_user(&self) -> (id: String)
        ensures
            id@ == self.deep_view().user(),
    {
        match &self.member {
            Some(member) => member.user.id.clone(),
            None => "Unknown user".to_owned(),
        }
    }

    /// The text of the message that came with the interaction, or nothing.
    pub fn message_content(&self) -> (text: String)
        ensures
            text@ == self.deep_view().message_content(),
    {
        match &self.message {
            Some(message) => message.content.clone(),
            None => String::new(),
        }
    }

    /// The command's name, for a command invocation.
    pub fn command_name(&self) -> (name: Option<String>)
        ensures
            name.deep_view() == self.deep_view().command_name(),
    {
        match &self.data {
            Some(Data::Command(data)) => Some(data.name.clone()),
            _ => None,
        }
    }

    /// The identifier of the activated component or of the submitted form.
    pub fn custom_id(&self) -> (id: Option<String>)
        ensures
            id.deep_view() == self.deep_view().custom_id(),
    {
        match &self.data {
            Some(Data::Message(data)) => Some(data.custom_id.clone()),
            Some(Data::Modal(data)) => Some(data.custom_id.clone()),
            _ => None,
        }
    }

    /// Whether `modal_submit_values` can be called.
    pub fn values_readable(&self) -> (readable: bool)
        ensures
            readable == self.deep_view().values_readable(),
    {
        match &self.data {
            Some(Data::Modal(data)) => data.rows_filled(),
            _ => true,
        }
    }

    /// The entered values of a form submission; empty for anything else.
    pub fn modal_submit_values(&self) -> (values: StringHashMap<String>)
        requires
            self.deep_view().values_readable(),
        ensures
            texts(values@) == self.deep_view().modal_submit_values(),
    {
        match &self.data {
            Some(Data::Modal(data)) => data.values(),
            _ => {
                let values: StringHashMap<String> = StringHashMap::new();
                assert(texts(values@) =~= Map::empty());
                values
            },
        }
    }

    /// Attaches the acting member.
    pub fn member(self, member: GuildMember) -> (request: Self)
        ensures
            request.deep_view() == (RequestView {
                member: Some(member.deep_view()),
                ..self.deep_view()
            }),
            self.deep_view().well_formed() ==> request.deep_view().well_formed(),
    {
        Request { kind: self.kind, data: self.data, member: Some(member), message: self.message }
    }

    /// Attaches the message that held the activated component.
    pub fn message(self, message: Message) -> (request: Self)
        ensures
            request.deep_view() == (RequestView {
                message: Some(message.deep_view()),
                ..self.deep_view()
            }),
            self.deep_view().well_formed() ==> request.deep_view().well_formed(),
    {
        Request { kind: self.kind, data: self.data, member: self.member, message: Some(message) }
    }

    /// The payload of an invocation of the command `name`.
    pub fn application_command(name: &str) -> (data: ApplicationCommandData)
        ensures
            data.deep_view() == (ApplicationCommandDataView { name: name@ }),
    {
        ApplicationCommandData::new(name)
    }

    /// The payload of an activation of the component `custom_id`.
    pub fn message_component(custom_id: &str, component_type: u8) -> (data: MessageComponentData)
        ensures
            data.deep_view() == (MessageComponentDataView { custom_id: custom_id@, component_type }),
    {
        MessageComponentData::new(custom_id, component_type)
    }
}

impl From<ApplicationCommandData> for Request {
    fn from(data: ApplicationCommandData) -> (request: Request) {
        Request {
            kind: Type::ApplicationCommand,
            data: Some(Data::Command(data)),
            member: None,
            message: None,
        }
    }
}

impl vstd::std_specs::convert::FromSpecImpl<ApplicationCommandData> for Request {
    open spec fn obeys_from_spec() -> bool {
        true
    }

    open spec fn from_spec(data: ApplicationCommandData) -> Request {
        Request {
            kind: Type::ApplicationCommand,
            data: Some(Data::Command(data)),
            member: None,
            message: None,
        }
    }
}

impl From<MessageComponentData> for Request {
    fn from(data: MessageComponentData) -> (request: Request) {
        Request {
            kind: Type::MessageComponent,
            data: Some(Data::Message(data)),
            member: None,
            message: None,
        }
    }
}

impl vstd::std_specs::convert::FromSpecImpl<MessageComponentData> for Request {
    open spec fn obeys_from_spec() -> bool {
        true
    }

    open spec fn from_spec(data: MessageComponentData) -> Request {
        Request {
            kind: Type::MessageComponent,
            data: Some(Data::Message(data)),
            member: None,
            message: None,
        }
    }
}

impl From<ModalSubmitData> for Request {
    fn from(data: ModalSubmitData) -> (request: Request) {
        Request { kind: Type::ModalSubmit, data: Some(Data::Modal(data)), member: None, message: None }
    }
}

impl vstd::std_specs::convert::FromSpecImpl<ModalSubmitData> for Request {
    open spec fn obeys_from_spec() -> bool {
        true
    }

    open spec fn from_spec(data: ModalSubmitData) -> Request {
        Request { kind: Type::ModalSubmit, data: Some(Data::Modal(data)), member: None, message: None }
    }
}

} // verus!

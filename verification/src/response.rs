//! The outbound side: the reply to an interaction and its builders.

use crate::component::ActionRow;
use crate::component::ActionRowView;
use crate::component::Component;
use crate::component::ComponentView;
use vstd::prelude::*;

verus! {

/// The kind of a reply.
#[derive(Debug, Clone, Copy, PartialEq, Eq, Structural)]
pub enum CallbackType {
    Pong,
    ChannelMessageWithSource,
    UpdateMessage,
    Modal,
}

impl CallbackType {
    /// The number that stands for this kind on the wire.
    pub open spec fn wire_code(self) -> int {
        match self {
            CallbackType::Pong => 1,
            CallbackType::ChannelMessageWithSource => 4,
            CallbackType::UpdateMessage => 7,
            CallbackType::Modal => 9,
        }
    }

    /// The number that stands for it on the wire.
    pub fn code(self) -> (code: u8)
        ensures
            code == self.wire_code(),
    {
        match self {
            CallbackType::Pong => 1,
            CallbackType::ChannelMessageWithSource => 4,
            CallbackType::UpdateMessage => 7,
            CallbackType::Modal => 9,
        }
    }
}

/// What can be set on a message: that only the acting user sees it.
#[derive(Debug, Clone, Copy, PartialEq, Eq, Structural)]
pub enum MessageFlags {
    Ephemeral,
}

impl MessageFlags {
    /// The number that stands for this flag on the wire.
    pub open spec fn wire_code(self) -> int {
        64
    }

    /// The number that stands for it on the wire.
    pub fn code(self) -> (code: u16)
        ensures
            code == self.wire_code(),
    {
        64
    }
}

/// A message reply. `flags` is `None` for a message that everyone sees.
#[derive(Debug, PartialEq)]
pub struct MessageCallbackData {
    pub content: String,
    pub flags: Option<MessageFlags>,
    pub components: Vec<ActionRow>,
}

/// The mathematical value that a [`MessageCallbackData`] stands for.
pub struct MessageCallbackDataView {
    pub content: Seq<char>,
    pub flags: Option<MessageFlags>,
    pub components: Seq<ActionRowView>,
}

impl MessageCallbackDataView {
    /// The message as a builder starts it: no text, private, no components.
    pub open spec fn start() -> Self {
        MessageCallbackDataView {
            content: Seq::empty(),
            flags: Some(MessageFlags::Ephemeral),
            components: Seq::empty(),
        }
    }

    /// The message with `leaves` as its components: all of them in one row.
    pub open spec fn with_components(self, leaves: Seq<ComponentView>) -> Self {
        MessageCallbackDataView {
            components: seq![ActionRowView { components: leaves }],
            ..self
        }
    }

    /// The message made visible to everyone.
    pub open spec fn shout(self) -> Self {
        MessageCallbackDataView { flags: None, ..self }
    }
}

impl DeepView for MessageCallbackData {
    type V = MessageCallbackDataView;

    open spec fn deep_view(&self) -> MessageCallbackDataView {
        MessageCallbackDataView {
            content: self.content@,
            flags: self.flags,
            components: self.components.deep_view(),
        }
    }
}

impl MessageCallbackData {
    /// Sets the text.
    pub fn content(self, msg: &str) -> (data: Self)
        ensures
            data.deep_view() == (MessageCallbackDataView { content: msg@, ..self.deep_view() }),
    {
        MessageCallbackData {
            content: msg.to_owned(),
            flags: self.flags,
            components: self.components,
        }
    }

    /// Sets the components: all of them go into one row, in their order.
    pub fn components(self, components: Vec<Component>) -> (data: Self)
        ensures
            data.deep_view() == self.deep_view().with_components(components.deep_view()),
    {
        let ghost leaves = components.deep_view();
        let mut rows: Vec<ActionRow> = Vec::new();
        rows.push(ActionRow::new().components(components));
        assert(rows.deep_view() =~= seq![ActionRowView { components: leaves }]);
        MessageCallbackData { content: self.content, flags: self.flags, components: rows }
    }

    /// Makes the message visible to everyone.
    pub fn shout(self) -> (data: Self)
        ensures
            data.deep_view() == self.deep_view().shout(),
            data.flags is None,
    {
        MessageCallbackData { content: self.content, flags: None, components: self.components }
    }
}

/// A reply that opens a form.
#[derive(Debug, PartialEq)]
pub struct ModalCallbackData {
    pub custom_id: String,
    pub title: String,
    pub components: Vec<ActionRow>,
}

/// The mathematical value that a [`ModalCallbackData`] stands for.
pub struct ModalCallbackDataView {
    pub custom_id: Seq<char>,
    pub title: Seq<char>,
    pub components: Seq<ActionRowView>,
}

/// One row for each leaf, holding that leaf alone, in the leaves' order.
pub open spec fn rows_of_one(leaves: Seq<ComponentView>) -> Seq<ActionRowView> {
    Seq::new(leaves.len(), |i: int| ActionRowView { components: seq![leaves[i]] })
}

impl ModalCallbackDataView {
    /// The form with `leaves` as its components: each in a row of its own.
    pub open spec fn with_components(self, leaves: Seq<ComponentView>) -> Self {
        ModalCallbackDataView { components: rows_of_one(leaves), ..self }
    }
}

impl DeepView for ModalCallbackData {
    type V = ModalCallbackDataView;

    open spec fn deep_view(&self) -> ModalCallbackDataView {
        ModalCallbackDataView {
            custom_id: self.custom_id@,
            title: self.title@,
            components: self.components.deep_view(),
        }
    }
}

impl ModalCallbackData {
    /// Sets the identifier under which the submission is reported.
    pub fn id(self, id: &str) -> (data: Self)
        ensures
            data.deep_view() == (ModalCallbackDataView { custom_id: id@, ..self.deep_view() }),
    {
        ModalCallbackData {
            custom_id: id.to_owned(),
            title: self.title,
            components: self.components,
        }
    }

    /// Sets the title.
    pub fn title(self, title: &str) -> (data: Self)
        ensures
            data.deep_view() == (ModalCallbackDataView { title: title@, ..self.deep_view() }),
    {
        ModalCallbackData {
            custom_id: self.custom_id,
            title: title.to_owned(),
            components: self.components,
        }
    }

    /// Sets the components: each goes into a row of its own, in their order.
    pub fn components(self, components: Vec<Component>) -> (data: Self)
        ensures
            data.deep_view() == self.deep_view().with_components(components.deep_view()),
            data.components.len() == components.len(),
            forall|i: int|
                0 <= i < components.len() ==> (#[trigger] data.deep_view().components[i]).components
                    == seq![components.deep_view()[i]],
    {
        let ghost leaves = components.deep_view();
        let mut rows: Vec<ActionRow> = Vec::new();
        let mut i: usize = 0;
        while i < components.len()
            invariant
                i <= components.len(),
                rows.len() == i,
                leaves == components.deep_view(),
                forall|j: int|
                    0 <= j < i ==> (#[trigger] rows@[j]).deep_view() == (ActionRowView {
                        components: seq![leaves[j]],
                    }),
            decreases components.len() - i,
        {
            let mut only: Vec<Component> = Vec::new();
            only.push(components[i].clone());
            assert(only.deep_view() =~= seq![leaves[i as int]]);
            rows.push(ActionRow::new().components(only));
            i += 1;
        }
        assert(rows.deep_view() =~= rows_of_one(leaves));
        ModalCallbackData { custom_id: self.custom_id, title: self.title, components: rows }
    }
}

/// The payload of a reply.
#[derive(Debug, PartialEq)]
pub enum CallbackData {
    Message(MessageCallbackData),
    Modal(ModalCallbackData),
}

/// The mathematical value that a [`CallbackData`] stands for.
pub enum CallbackDataView {
    Message(MessageCallbackDataView),
    Modal(ModalCallbackDataView),
}

impl DeepView for CallbackData {
    type V = CallbackDataView;

    open spec fn deep_view(&self) -> CallbackDataView {
        match self {
            CallbackData::Message(data) => CallbackDataView::Message(data.deep_view()),
            CallbackData::Modal(data) => CallbackDataView::Modal(data.deep_view()),
        }
    }
}

/// The reply to an interaction.
#[derive(Debug, PartialEq)]
pub struct Response {
    pub kind: CallbackType,
    pub data: CallbackData,
}

/// The mathematical value that a [`Response`] stands for.
pub struct ResponseView {
    pub kind: CallbackType,
    pub data: CallbackDataView,
}

impl ResponseView {
    /// The reply that carries the message `data`.
    pub open spec fn of_message(data: MessageCallbackDataView) -> Self {
        ResponseView {
            kind: CallbackType::ChannelMessageWithSource,
            data: CallbackDataView::Message(data),
        }
    }

    /// The reply that opens the form `data`.
    pub open spec fn of_modal(data: ModalCallbackDataView) -> Self {
        ResponseView { kind: CallbackType::Modal, data: CallbackDataView::Modal(data) }
    }

    /// The reply to a ping.
    pub open spec fn pong() -> Self {
        ResponseView {
            kind: CallbackType::Pong,
            data: CallbackDataView::Message(
                MessageCallbackDataView {
                    content: Seq::empty(),
                    flags: None,
                    components: Seq::empty(),
                },
            ),
        }
    }

    /// The payload goes with the kind: a form with the kind that opens one,
    /// a message with every other kind.
    pub open spec fn well_formed(self) -> bool {
        self.kind == CallbackType::Modal <==> self.data is Modal
    }

    /// Whether the reply can become an update: it carries a message as a new
    /// message or as an update already. The reply to a ping and a reply that
    /// opens a form cannot.
    pub open spec fn editable(self) -> bool {
        &&& self.data is Message
        &&& self.kind == CallbackType::ChannelMessageWithSource || self.kind
            == CallbackType::UpdateMessage
    }

    /// The same message as an update in place, where the reply can become
    /// one; the reply as it is, where it cannot.
    pub open spec fn edit(self) -> Self {
        if self.editable() {
            ResponseView { kind: CallbackType::UpdateMessage, ..self }
        } else {
            self
        }
    }

    /// The text of a message reply.
    pub open spec fn message_content(self) -> Option<Seq<char>> {
        match self.data {
            CallbackDataView::Message(data) => Some(data.content),
            CallbackDataView::Modal(_) => None,
        }
    }

    /// Whether the components can be read: a message reply needs exactly one
    /// row for that.
    pub open spec fn components_readable(self) -> bool {
        self.data matches CallbackDataView::Message(data) ==> data.components.len() == 1
    }

    /// The leaves of a message reply's one row; none for a form.
    pub open spec fn message_components(self) -> Seq<ComponentView>
        recommends
            self.components_readable(),
    {
        match self.data {
            CallbackDataView::Message(data) => data.components[0].components,
            CallbackDataView::Modal(_) => Seq::empty(),
        }
    }
}

impl DeepView for Response {
    type V = ResponseView;

    open spec fn deep_view(&self) -> ResponseView {
        ResponseView { kind: self.kind, data: self.data.deep_view() }
    }
}

impl Response {
    /// The reply to a ping.
    pub fn pong() -> (response: Self)
        ensures
            response.deep_view() == ResponseView::pong(),
            response.deep_view().well_formed(),
    {
        let data = MessageCallbackData {
            content: String::new(),
            flags: None,
            components: Vec::new(),
        };
        assert(data.components.deep_view() =~= Seq::empty());
        Response { kind: CallbackType::Pong, data: CallbackData::Message(data) }
    }

    /// Starts a message reply: no text, private, no components.
    pub fn message() -> (data: MessageCallbackData)
        ensures
            data.deep_view() == MessageCallbackDataView::start(),
            data.flags == Some(MessageFlags::Ephemeral),
    {
        let data = MessageCallbackData {
            content: String::new(),
            flags: Some(MessageFlags::Ephemeral),
            components: Vec::new(),
        };
        assert(data.components.deep_view() =~= Seq::empty());
        data
    }

    /// Starts a reply that opens a form: no identifier, no title, no
    /// components.
    pub fn modal() -> (data: ModalCallbackData)
        ensures
            data.deep_view() == (ModalCallbackDataView {
                custom_id: Seq::empty(),
                title: Seq::empty(),
                components: Seq::empty(),
            }),
    {
        let data = ModalCallbackData {
            custom_id: String::new(),
            title: String::new(),
            components: Vec::new(),
        };
        assert(data.components.deep_view() =~= Seq::empty());
        data
    }

    /// Whether `edit` changes the reply: it does for a new message and for
    /// an update, and for nothing else.
    pub fn editable(&self) -> (editable: bool)
        ensures
            editable == self.deep_view().editable(),
    {
        match (&self.data, self.kind) {
            (CallbackData::Message(_), CallbackType::ChannelMessageWithSource) => true,
            (CallbackData::Message(_), CallbackType::UpdateMessage) => true,
            _ => false,
        }
    }

    /// Turns a new message into an update of the message in place. The
    /// payload stays as it is. The reply to a ping and a reply that opens a
    /// form stay as they are: neither can become an update.
    pub fn edit(self) -> (response: Self)
        ensures
            response.deep_view() == self.deep_view().edit(),
            self.deep_view().editable() ==> response.kind == CallbackType::UpdateMessage,
            !self.deep_view().editable() ==> response.kind == self.kind,
            self.deep_view().well_formed() ==> response.deep_view().well_formed(),
    {
        if self.editable() {
            Response { kind: CallbackType::UpdateMessage, data: self.data }
        } else {
            self
        }
    }

    /// The text of a message reply.
    pub fn message_content(&self) -> (text: Option<String>)
        ensures
            text.deep_view() == self.deep_view().message_content(),
    {
        match &self.data {
            CallbackData::Message(data) => Some(data.content.clone()),
            CallbackData::Modal(_) => None,
        }
    }

    /// Whether `message_components` can be called.
    pub fn components_readable(&self) -> (readable: bool)
        ensures
            readable == self.deep_view().components_readable(),
    {
        match &self.data {
            CallbackData::Message(data) => data.components.len() == 1,
            CallbackData::Modal(_) => true,
        }
    }

    /// The leaves of a message reply's one row, in their order; none for a
    /// form.
    pub fn message_components(&self) -> (leaves: Vec<Component>)
        requires
            self.deep_view().components_readable(),
        ensures
            leaves.deep_view() == self.deep_view().message_components(),
    {
        match &self.data {
            CallbackData::Message(data) => {
                assert(data.deep_view().components.len() == 1);
                let row = &data.components[0];
                assert(data.deep_view().components[0] == row.deep_view());
                let mut leaves: Vec<Component> = Vec::new();
                let mut i: usize = 0;
                while i < row.components.len()
                    invariant
                        i <= row.components.len(),
                        leaves.len() == i,
                        forall|j: int| 0 <= j < i ==> leaves@[j] == row.components@[j],
                    decreases row.components.len() - i,
                {
                    leaves.push(row.components[i].clone());
                    i += 1;
                }
                assert(leaves.deep_view() =~= row.components.deep_view());
                leaves
            },
            CallbackData::Modal(_) => {
                let leaves: Vec<Component> = Vec::new();
                assert(leaves.deep_view() =~= Seq::empty());
                leaves
            },
        }
    }
}

impl From<ModalCallbackData> for Response {
    fn from(data: ModalCallbackData) -> (response: Response) {
        Response { kind: CallbackType::Modal, data: CallbackData::Modal(data) }
    }
}

impl vstd::std_specs::convert::FromSpecImpl<ModalCallbackData> for Response {
    open spec fn obeys_from_spec() -> bool {
        true
    }

    open spec fn from_spec(data: ModalCallbackData) -> Response {
        Response { kind: CallbackType::Modal, data: CallbackData::Modal(data) }
    }
}

impl From<MessageCallbackData> for Response {
    fn from(data: MessageCallbackData) -> (response: Response) {
        Response { kind: CallbackType::ChannelMessageWithSource, data: CallbackData::Message(data) }
    }
}

impl vstd::std_specs::convert::FromSpecImpl<MessageCallbackData> for Response {
    open spec fn obeys_from_spec() -> bool {
        true
    }

    open spec fn from_spec(data: MessageCallbackData) -> Response {
        Response { kind: CallbackType::ChannelMessageWithSource, data: CallbackData::Message(data) }
    }
}

} // verus!

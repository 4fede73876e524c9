//! The component tree that requests and replies share: rows that hold leaves,
//! where a leaf is a button or a text field.

use vstd::prelude::*;

verus! {

/// The kind of a component, as the `type` code of its wire form.
#[derive(Debug, Clone, Copy, PartialEq, Eq, Structural)]
pub enum ComponentType {
    ActionRow,
    Button,
    TextInput,
}

impl ComponentType {
    /// The number that stands for this kind on the wire.
    pub open spec fn wire_code(self) -> int {
        match self {
            ComponentType::ActionRow => 1,
            ComponentType::Button => 2,
            ComponentType::TextInput => 4,
        }
    }

    /// The kind that a wire code stands for.
    pub open spec fn of_code(code: int) -> Option<ComponentType> {
        if code == 1 {
            Some(ComponentType::ActionRow)
        } else if code == 2 {
            Some(ComponentType::Button)
        } else if code == 4 {
            Some(ComponentType::TextInput)
        } else {
            None
        }
    }

    /// The number that stands for it on the wire.
    pub fn code(self) -> (code: u8)
        ensures
            code == self.wire_code(),
    {
        match self {
            ComponentType::ActionRow => 1,
            ComponentType::Button => 2,
            ComponentType::TextInput => 4,
        }
    }

    /// The kind that a wire code stands for, if any.
    pub fn from_code(code: i64) -> (kind: Option<ComponentType>)
        ensures
            kind == Self::of_code(code as int),
    {
        if code == 1 {
            Some(ComponentType::ActionRow)
        } else if code == 2 {
            Some(ComponentType::Button)
        } else if code == 4 {
            Some(ComponentType::TextInput)
        } else {
            None
        }
    }
}

/// The only look a button of this model has.
#[derive(Debug, Clone, Copy, PartialEq, Eq, Structural)]
pub enum ButtonStyle {
    Primary,
}

impl ButtonStyle {
    /// The number that stands for this style on the wire.
    pub open spec fn wire_code(self) -> int {
        1
    }

    /// Whether `code` is the wire code of a button style.
    pub open spec fn is_code(code: int) -> bool {
        code == 1
    }

    /// The number that stands for it on the wire.
    pub fn code(self) -> (code: u8)
        ensures
            code == self.wire_code(),
            Self::is_code(code as int),
    {
        1
    }

    /// The style a wire code stands for, if any.
    pub fn from_code(code: i64) -> (style: Option<ButtonStyle>)
        ensures
            style is Some <==> Self::is_code(code as int),
            style matches Some(s) ==> s.wire_code() == code,
    {
        if code == 1 {
            Some(ButtonStyle::Primary)
        } else {
            None
        }
    }
}

/// The only look a text field of this model has.
#[derive(Debug, Clone, Copy, PartialEq, Eq, Structural)]
pub enum TextInputStyle {
    Short,
}

impl TextInputStyle {
    /// The number that stands for this style on the wire.
    pub open spec fn wire_code(self) -> int {
        1
    }

    /// Whether `code` is the wire code of a text field style.
    pub open spec fn is_code(code: int) -> bool {
        code == 1
    }

    /// The number that stands for it on the wire.
    pub fn code(self) -> (code: u8)
        ensures
            code == self.wire_code(),
            Self::is_code(code as int),
    {
        1
    }

    /// The style a wire code stands for, if any.
    pub fn from_code(code: i64) -> (style: Option<TextInputStyle>)
        ensures
            style is Some <==> Self::is_code(code as int),
            style matches Some(s) ==> s.wire_code() == code,
    {
        if code == 1 {
            Some(TextInputStyle::Short)
        } else {
            None
        }
    }
}

/// A button. It never carries a value that a user entered.
#[derive(Debug, PartialEq)]
pub struct Button {
    pub label: Option<String>,
    pub style: ButtonStyle,
    pub custom_id: String,
}

/// The mathematical value that a [`Button`] stands for.
pub struct ButtonView {
    pub label: Option<Seq<char>>,
    pub style: ButtonStyle,
    pub custom_id: Seq<char>,
}

impl DeepView for Button {
    type V = ButtonView;

    open spec fn deep_view(&self) -> ButtonView {
        ButtonView {
            label: self.label.deep_view(),
            style: self.style,
            custom_id: self.custom_id@,
        }
    }
}

impl Clone for Button {
    fn clone(&self) -> (copy: Self)
        ensures
            copy == *self,
    {
        let label = match &self.label {
            Some(text) => Some(text.clone()),
            None => None,
        };
        Button { label, style: self.style, custom_id: self.custom_id.clone() }
    }
}

impl Button {
    /// Sets the text shown on the button.
    pub fn label(self, label: &str) -> (button: Self)
        ensures
            button.deep_view() == (ButtonView { label: Some(label@), ..self.deep_view() }),
    {
        Button { label: Some(label.to_owned()), style: self.style, custom_id: self.custom_id }
    }

    /// Sets the identifier under which a press is reported.
    pub fn id(self, id: &str) -> (button: Self)
        ensures
            button.deep_view() == (ButtonView { custom_id: id@, ..self.deep_view() }),
    {
        Button { label: self.label, style: self.style, custom_id: id.to_owned() }
    }
}

/// A one-line text field. `value` is what the user entered: absent in a field
/// that is being sent out, present in one that came back with a form.
#[derive(Debug, PartialEq)]
pub struct TextInput {
    pub label: Option<String>,
    pub style: Option<TextInputStyle>,
    pub custom_id: String,
    pub value: Option<String>,
}

/// The mathematical value that a [`TextInput`] stands for.
pub struct TextInputView {
    pub label: Option<Seq<char>>,
    pub style: Option<TextInputStyle>,
    pub custom_id: Seq<char>,
    pub value: Option<Seq<char>>,
}

impl TextInputView {
    /// The identifier and the entered value, where a value was entered.
    pub open spec fn value(self) -> Option<(Seq<char>, Seq<char>)> {
        match self.value {
            Some(entered) => Some((self.custom_id, entered)),
            None => None,
        }
    }
}

impl DeepView for TextInput {
    type V = TextInputView;

    open spec fn deep_view(&self) -> TextInputView {
        TextInputView {
            label: self.label.deep_view(),
            style: self.style,
            custom_id: self.custom_id@,
            value: self.value.deep_view(),
        }
    }
}

impl Clone for TextInput {
    fn clone(&self) -> (copy: Self)
        ensures
            copy == *self,
    {
        let label = match &self.label {
            Some(text) => Some(text.clone()),
            None => None,
        };
        let value = match &self.value {
            Some(text) => Some(text.clone()),
            None => None,
        };
        TextInput { label, style: self.style, custom_id: self.custom_id.clone(), value }
    }
}

impl TextInput {
    /// A short text field without a label or a value, under a placeholder
    /// identifier.
    pub fn new() -> (field: Self)
        ensures
            field.deep_view() == (TextInputView {
                label: None,
                style: Some(TextInputStyle::Short),
                custom_id: "unlabeled text input"@,
                value: None,
            }),
    {
        TextInput {
            label: None,
            style: Some(TextInputStyle::Short),
            custom_id: "unlabeled text input".to_owned(),
            value: None,
        }
    }

    /// Sets the text shown beside the field.
    pub fn label(self, label: &str) -> (field: Self)
        ensures
            field.deep_view() == (TextInputView { label: Some(label@), ..self.deep_view() }),
    {
        TextInput {
            label: Some(label.to_owned()),
            style: self.style,
            custom_id: self.custom_id,
            value: self.value,
        }
    }

    /// Sets the identifier under which the entered value is reported.
    pub fn id(self, id: &str) -> (field: Self)
        ensures
            field.deep_view() == (TextInputView { custom_id: id@, ..self.deep_view() }),
    {
        TextInput {
            label: self.label,
            style: self.style,
            custom_id: id.to_owned(),
            value: self.value,
        }
    }

    /// The identifier and the entered value, where a value was entered.
    pub fn value(&self) -> (pair: Option<(String, String)>)
        ensures
            pair.deep_view() == self.deep_view().value(),
    {
        match &self.value {
            Some(entered) => Some((self.custom_id.clone(), entered.clone())),
            None => None,
        }
    }
}

/// A leaf of the component tree.
#[derive(Debug, PartialEq)]
pub enum Component {
    Button(Button),
    Text(TextInput),
}

/// The mathematical value that a [`Component`] stands for.
pub enum ComponentView {
    Button(ButtonView),
    Text(TextInputView),
}

impl ComponentView {
    /// The identifier and the entered value of a text field that holds one;
    /// a button has none.
    pub open spec fn value(self) -> Option<(Seq<char>, Seq<char>)> {
        match self {
            ComponentView::Button(_) => None,
            ComponentView::Text(field) => field.value(),
        }
    }
}

impl DeepView for Component {
    type V = ComponentView;

    open spec fn deep_view(&self) -> ComponentView {
        match self {
            Component::Button(button) => ComponentView::Button(button.deep_view()),
            Component::Text(field) => ComponentView::Text(field.deep_view()),
        }
    }
}

impl Clone for Component {
    fn clone(&self) -> (copy: Self)
        ensures
            copy == *self,
    {
        match self {
            Component::Button(button) => Component::Button(button.clone()),
            Component::Text(field) => Component::Text(field.clone()),
        }
    }
}

impl Component {
    /// A primary button without a label, under a placeholder identifier.
    pub fn button() -> (button: Button)
        ensures
            button.deep_view() == (ButtonView {
                label: None,
                style: ButtonStyle::Primary,
                custom_id: "unlabeled button"@,
            }),
    {
        Button { label: None, style: ButtonStyle::Primary, custom_id: "unlabeled button".to_owned() }
    }

    /// A short text field without a label or a value, under a placeholder
    /// identifier.
    pub fn text_input() -> (field: TextInput)
        ensures
            field.deep_view() == (TextInputView {
                label: None,
                style: Some(TextInputStyle::Short),
                custom_id: "unlabeled text input"@,
                value: None,
            }),
    {
        TextInput::new()
    }

    /// The identifier and the entered value of a text field that holds one.
    pub fn value(&self) -> (pair: Option<(String, String)>)
        ensures
            pair.deep_view() == self.deep_view().value(),
    {
        match self {
            Component::Button(_) => None,
            Component::Text(field) => field.value(),
        }
    }
}

impl From<Button> for Component {
    fn from(button: Button) -> (leaf: Component) {
        Component::Button(button)
    }
}

impl vstd::std_specs::convert::FromSpecImpl<Button> for Component {
    open spec fn obeys_from_spec() -> bool {
        true
    }

    open spec fn from_spec(button: Button) -> Component {
        Component::Button(button)
    }
}

impl From<TextInput> for Component {
    fn from(field: TextInput) -> (leaf: Component) {
        Component::Text(field)
    }
}

impl vstd::std_specs::convert::FromSpecImpl<TextInput> for Component {
    open spec fn obeys_from_spec() -> bool {
        true
    }

    open spec fn from_spec(field: TextInput) -> Component {
        Component::Text(field)
    }
}

/// A row: the container that groups leaves.
#[derive(Debug, PartialEq)]
pub struct ActionRow {
    pub components: Vec<Component>,
}

/// The mathematical value that an [`ActionRow`] stands for.
pub struct ActionRowView {
    pub components: Seq<ComponentView>,
}

impl ActionRowView {
    /// What its first leaf reports. A row without a leaf has no reading.
    pub open spec fn value(self) -> Option<(Seq<char>, Seq<char>)>
        recommends
            self.components.len() > 0,
    {
        self.components[0].value()
    }
}

impl DeepView for ActionRow {
    type V = ActionRowView;

    open spec fn deep_view(&self) -> ActionRowView {
        ActionRowView { components: self.components.deep_view() }
    }
}

impl ActionRow {
    /// A row without leaves.
    pub fn new() -> (row: Self)
        ensures
            row.deep_view() == (ActionRowView { components: Seq::empty() }),
    {
        let row = ActionRow { components: Vec::new() };
        assert(row.components.deep_view() =~= Seq::empty());
        row
    }

    /// Replaces the row's leaves.
    pub fn components(self, components: Vec<Component>) -> (row: Self)
        ensures
            row.deep_view() == (ActionRowView { components: components.deep_view() }),
    {
        ActionRow { components }
    }

    /// What the row's first leaf reports: the identifier and the entered
    /// value of a text field that holds one.
    pub fn component_value(&self) -> (pair: Option<(String, String)>)
        requires
            self.components.len() > 0,
        ensures
            pair.deep_view() == self.deep_view().value(),
    {
        self.components[0].value()
    }
}

} // verus!

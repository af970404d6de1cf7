//! What a layout brings along once it has been put together.

use vstd::prelude::*;

verus! {

/// The part of a layout which text input depends on.
#[derive(Debug, Clone, PartialEq, Eq)]
pub struct LayoutData {
    /// The keymaps which give the keycodes of the layout their meaning.
    /// A keycode tells by its index which of them it belongs to.
    pub keymaps: Vec<String>,
}

/// What is written or drawn on a button.
#[derive(Debug, Clone, PartialEq, Eq)]
pub enum Label {
    /// Text used to display the symbol
    Text(String),
    /// Icon name used to render the symbol
    IconName(String),
}

/// What a [`Label`] holds, as plain values.
pub enum LabelView {
    Text(Seq<char>),
    IconName(Seq<char>),
}

impl View for Label {
    type V = LabelView;

    open spec fn view(&self) -> LabelView {
        match *self {
            Label::Text(text) => LabelView::Text(text@),
            Label::IconName(name) => LabelView::IconName(name@),
        }
    }
}

} // verus!

//! The bodies of the requests to the chat platform.

use vstd::prelude::*;

verus! {

/// A text message to a chat.
#[derive(Debug, Default)]
pub struct Message<'a> {
    pub chat_id: &'a str,
    pub text: &'a str,
    pub disable_notification: bool,
    pub disable_web_page_preview: bool,
    pub reply_markup: Option<&'a ReplyMarkup>,
}

/// A new text for a message that was sent before.
#[derive(Debug, Default)]
pub struct EditMessage<'a> {
    pub chat_id: &'a str,
    pub message_id: &'a str,
    pub text: &'a str,
    pub disable_notification: bool,
    pub disable_web_page_preview: bool,
    pub reply_markup: Option<&'a ReplyMarkup>,
}

/// The controls shown under a message.
#[derive(Debug)]
pub enum ReplyMarkup {
    InlineKeyboardMarkup(InlineKeyboardMarkup),
}

/// One button of an inline keyboard.
#[derive(Debug, Default)]
pub struct InlineKeyboardButton {
    pub text: String,
    pub callback_data: String,
}

/// What a button says, as plain values.
pub struct ButtonView {
    pub text: Seq<char>,
    pub callback_data: Seq<char>,
}

impl View for InlineKeyboardButton {
    type V = ButtonView;

    open spec fn view(&self) -> ButtonView {
        ButtonView { text: self.text@, callback_data: self.callback_data@ }
    }
}

impl Clone for InlineKeyboardButton {
    fn clone(&self) -> (r: Self)
        ensures
            r@ == self@,
    {
        InlineKeyboardButton {
            text: self.text.clone(),
            callback_data: self.callback_data.clone(),
        }
    }
}

/// The button that shows `text` and answers with `text`.
pub open spec fn button(text: Seq<char>) -> ButtonView {
    ButtonView { text: text, callback_data: text }
}

impl InlineKeyboardButton {
    /// A button that shows `text` and hands `text` back when it is pressed.
    pub fn new(text: &str) -> (r: Self)
        ensures
            r@ == button(text@),
    {
        InlineKeyboardButton { text: text.to_owned(), callback_data: text.to_owned() }
    }
}

/// The view of one row of buttons.
pub open spec fn row_view(row: Vec<InlineKeyboardButton>) -> Seq<ButtonView> {
    row@.map_values(|b: InlineKeyboardButton| b@)
}

/// Rows of buttons.
#[derive(Debug, Default)]
pub struct InlineKeyboardMarkup {
    pub inline_keyboard: Vec<Vec<InlineKeyboardButton>>,
}

impl View for InlineKeyboardMarkup {
    type V = Seq<Seq<ButtonView>>;

    open spec fn view(&self) -> Seq<Seq<ButtonView>> {
        self.inline_keyboard@.map_values(|row: Vec<InlineKeyboardButton>| row_view(row))
    }
}

impl View for ReplyMarkup {
    type V = Seq<Seq<ButtonView>>;

    open spec fn view(&self) -> Seq<Seq<ButtonView>> {
        match self {
            ReplyMarkup::InlineKeyboardMarkup(markup) => markup@,
        }
    }
}

/// A photo to a chat.
#[derive(Debug, Default)]
pub struct Image<'a> {
    pub chat_id: &'a str,
    pub photo: &'a str,
    pub disable_notification: bool,
}

/// A new photo for a message that was sent before.
#[derive(Debug, Default)]
pub struct EditImage<'a> {
    pub chat_id: &'a str,
    pub message_id: &'a str,
    pub photo: &'a str,
    pub disable_notification: bool,
    pub media: Media<'a>,
}

/// The kind of a medium.
#[derive(Debug, Default)]
pub struct Media<'a> {
    pub type_: &'a str,
}

} // verus!

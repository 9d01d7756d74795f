use idle_terminal::custom_widgets::{Button, Label};
use tui::style::{Color, Style};

#[test]
fn default_label_is_empty() {
    let label = Label::default();
    assert_eq!(label.content(), "");
}

#[test]
fn label_text_can_be_chained() {
    let mut label = Label::default();
    label.text("first").text("second");
    assert_eq!(label.content(), "second");
    assert_eq!(label.text("Test").content(), "Test");
}

#[test]
fn default_button_has_no_caption_and_the_default_style() {
    let button = Button::default();
    assert_eq!(button.content(), "");
    assert_eq!(button.current_style(), Style::default());
}

#[test]
fn button_builders_set_one_field_each() {
    let style = Style::default().fg(Color::White).bg(Color::Cyan);
    let mut button = Button::default();
    button.text("[A] Gold Miner").style(style);
    assert_eq!(button.content(), "[A] Gold Miner");
    assert_eq!(button.current_style(), style);
    button.text("[B] Wood Cutter");
    assert_eq!(button.content(), "[B] Wood Cutter");
    assert_eq!(button.current_style(), style);
    button.style(Style::default());
    assert_eq!(button.content(), "[B] Wood Cutter");
    assert_eq!(button.current_style(), Style::default());
}

use tui::style::Style;
use vstd::prelude::*;

verus! {

/// The style of the terminal library. The widgets carry it and never look
/// inside.
#[verifier::external_type_specification]
#[verifier::external_body]
pub struct ExStyle(tui::style::Style);

/// `Style::default()` of the terminal library: nothing is claimed of the
/// style it returns.
pub assume_specification[ <tui::style::Style as Default>::default ]() -> (style: tui::style::Style)
;

/// A line of text to be drawn at the top left corner of an area.
pub struct Label<'a> {
    text: &'a str,
}

impl<'a> Default for Label<'a> {
    fn default() -> (label: Self)
        ensures
            label.shown() == Seq::<char>::empty(),
    {
        proof {
            reveal_strlit("");
        }
        let label = Label { text: "" };
        assert(label.shown() =~= Seq::<char>::empty());
        label
    }
}

impl<'a> Label<'a> {
    /// The text that the label shows.
    pub closed spec fn shown(&self) -> Seq<char> {
        self.text@
    }

    /// Sets the text and hands the label back, so that calls can be chained.
    pub fn text(&mut self, text: &'a str) -> (label: &mut Self)
        ensures
            label.shown() == text@,
            *final(self) == *final(label),
    {
        self.text = text;
        self
    }

    /// The text that the label shows.
    pub fn content(&self) -> (text: &'a str)
        ensures
            text@ == self.shown(),
    {
        self.text
    }
}

/// A 'Button' widget: a framed, centred caption in one style.
pub struct Button<'a> {
    style: Style,
    text: &'a str,
}

impl<'a> Default for Button<'a> {
    fn default() -> (button: Self)
        ensures
            button.caption() == Seq::<char>::empty(),
    {
        proof {
            reveal_strlit("");
        }
        let button = Button { style: Style::default(), text: "" };
        assert(button.caption() =~= Seq::<char>::empty());
        button
    }
}

impl<'a> Button<'a> {
    /// The caption of the button.
    pub closed spec fn caption(&self) -> Seq<char> {
        self.text@
    }

    /// The style in which frame and caption are drawn.
    pub closed spec fn look(&self) -> Style {
        self.style
    }

    /// Sets the caption and hands the button back, so that calls can be chained.
    pub fn text(&mut self, text: &'a str) -> (button: &mut Self)
        ensures
            button.caption() == text@,
            button.look() == old(self).look(),
            *final(self) == *final(button),
    {
        self.text = text;
        self
    }

    /// Sets the style and hands the button back, so that calls can be chained.
    pub fn style(&mut self, style: Style) -> (button: &mut Self)
        ensures
            button.look() == style,
            button.caption() == old(self).caption(),
            *final(self) == *final(button),
    {
        self.style = style;
        self
    }

    /// The caption of the button.
    pub fn content(&self) -> (text: &'a str)
        ensures
            text@ == self.caption(),
    {
        self.text
    }

    /// The style in which frame and caption are drawn.
    pub fn current_style(&self) -> (style: Style)
        ensures
            style == self.look(),
    {
        self.style
    }
}

} // verus!

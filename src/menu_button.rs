use vstd::prelude::*;

verus! {

/// An RGB colour: red, green and blue components.
#[derive(Debug, Default, Clone, Copy, PartialEq, Eq, Structural)]
pub struct Rgb(pub u8, pub u8, pub u8);

/// One launchable entry of the menu.
#[derive(Debug, Default)]
pub struct MenuButton {
    pub selected: bool,
    pub command: String,
    pub icon_path: String,
    pub icon_color: Rgb,
    pub normal_color: Rgb,
    pub hover_color: Rgb,
}

/// The mathematical value of a `MenuButton`: its strings as character sequences.
pub struct ButtonView {
    pub selected: bool,
    pub command: Seq<char>,
    pub icon_path: Seq<char>,
    pub icon_color: Rgb,
    pub normal_color: Rgb,
    pub hover_color: Rgb,
}

impl View for MenuButton {
    type V = ButtonView;

    open spec fn view(&self) -> ButtonView {
        ButtonView {
            selected: self.selected,
            command: self.command@,
            icon_path: self.icon_path@,
            icon_color: self.icon_color,
            normal_color: self.normal_color,
            hover_color: self.hover_color,
        }
    }
}

impl ButtonView {
    /// The same button with its highlight flag set to `selected`.
    pub open spec fn with_selected(self, selected: bool) -> ButtonView {
        ButtonView { selected, ..self }
    }

    /// The colour the button's background is drawn in when the pointer is
    /// not over it: the hover colour while it is highlighted.
    pub open spec fn background(self) -> Rgb {
        if self.selected {
            self.hover_color
        } else {
            self.normal_color
        }
    }
}

impl MenuButton {
    /// A new, unhighlighted button.
    pub fn new(
        command: String,
        icon_path: String,
        icon_color: Rgb,
        normal_color: Rgb,
        hover_color: Rgb,
    ) -> (r: Self)
        ensures
            r@ == (ButtonView {
                selected: false,
                command: command@,
                icon_path: icon_path@,
                icon_color,
                normal_color,
                hover_color,
            }),
    {
        MenuButton { selected: false, command, icon_path, icon_color, normal_color, hover_color }
    }

    /// The background colour of the button while the pointer is not over it.
    pub fn background_color(&self) -> (r: Rgb)
        ensures
            r == self@.background(),
    {
        if self.selected {
            self.hover_color
        } else {
            self.normal_color
        }
    }
}

} // verus!

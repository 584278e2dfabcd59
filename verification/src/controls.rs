//! The control panel: a column of three sliders that pick the background
//! color, with a title, a caption and a readout of the current color.
//!
//! This module decides everything the panel shows and how slider input changes
//! the state. The unverified shell turns the [`Panel`] description into real
//! widgets and feeds each widget's messages back into [`Controls::update`].

use vstd::prelude::*;
use crate::color::{Color, COMPONENT_MAX};
use crate::text::{color_label, color_text};

verus! {

/// One of the three color components a slider drives.
#[derive(Clone, Copy, Debug, PartialEq, Eq, Structural)]
pub enum Component {
    /// The red component.
    Red,
    /// The green component.
    Green,
    /// The blue component.
    Blue,
}

/// What the widgets report back to the panel.
#[derive(Clone, Copy, Debug, PartialEq, Eq, Structural)]
pub enum Message {
    /// A slider picked a new background color.
    BackgroundColorChanged(Color),
}

/// What an update asks the runtime to do afterwards: here, never anything.
#[derive(Clone, Copy, Debug, PartialEq, Eq, Structural)]
pub enum Command {
    /// No follow-up work.
    NoCommand,
}

/// The state of the control panel.
#[derive(Clone, Copy, Debug, PartialEq, Eq, Structural)]
pub struct Controls {
    /// The background color the sliders have picked.
    pub background_color: Color,
}

/// `base` with the component `comp` replaced by `value` hundredths.
pub open spec fn with_component(base: Color, comp: Component, value: u8) -> Color {
    match comp {
        Component::Red => Color { r: value, ..base },
        Component::Green => Color { g: value, ..base },
        Component::Blue => Color { b: value, ..base },
    }
}

/// The message a slider for `comp` sends when moved to `value` hundredths:
/// the current color with that one component replaced.
pub fn slider_message(base: Color, comp: Component, value: u8) -> (m: Message)
    ensures
        m == Message::BackgroundColorChanged(with_component(base, comp, value)),
{
    let c = match comp {
        Component::Red => Color { r: value, ..base },
        Component::Green => Color { g: value, ..base },
        Component::Blue => Color { b: value, ..base },
    };
    Message::BackgroundColorChanged(c)
}

/// What the panel shows for one slider.
#[derive(Clone, Copy, Debug, PartialEq, Eq, Structural)]
pub struct SliderModel {
    /// The component this slider drives.
    pub component: Component,
    /// The slider's current position, in hundredths.
    pub value: u8,
    /// The smallest position, in hundredths.
    pub min: u8,
    /// The largest position, in hundredths.
    pub max: u8,
    /// How far one step moves the slider, in hundredths.
    pub step: u8,
}

/// Everything the panel shows, as plain values.
pub struct Panel {
    /// Width of the slider column.
    pub slider_column_width: u16,
    /// Space between the sliders.
    pub slider_spacing: u16,
    /// Padding on the panel's left edge.
    pub left_padding: u16,
    /// Padding above the panel.
    pub top_padding: u16,
    /// Padding inside the panel.
    pub inner_padding: u16,
    /// Space between the panel's rows.
    pub inner_spacing: u16,
    /// The panel's title line.
    pub title: String,
    /// Text size of the title line.
    pub title_size: u16,
    /// The caption above the sliders.
    pub caption: String,
    /// One slider per color component, red then green then blue.
    pub sliders: Vec<SliderModel>,
    /// The readout line under the sliders: the current color as text.
    pub readout: String,
    /// Text size of the readout line.
    pub readout_size: u16,
    /// The color of all the panel's text.
    pub text_color: Color,
}

/// The slider description the panel shows for `comp` when the background
/// color is `c`: the full range of the component in steps of one hundredth,
/// positioned at the component's current value.
pub open spec fn slider_for(c: Color, comp: Component) -> SliderModel {
    SliderModel {
        component: comp,
        value: match comp {
            Component::Red => c.r,
            Component::Green => c.g,
            Component::Blue => c.b,
        },
        min: 0,
        max: COMPONENT_MAX,
        step: 1,
    }
}

impl Controls {
    /// A well-formed panel state holds a well-formed color.
    pub open spec fn wf(self) -> bool {
        self.background_color.wf()
    }

    /// A fresh panel: the background starts at half red.
    pub fn new() -> (c: Controls)
        ensures
            c.background_color == (Color { r: 50u8, g: 0u8, b: 0u8, a: 100u8 }),
            c.wf(),
    {
        Controls { background_color: Color::from_rgb(50, 0, 0) }
    }

    /// Applies a message: the picked color becomes the background color.
    /// No message asks for follow-up work.
    pub fn update(&mut self, message: Message) -> (cmd: Command)
        ensures
            message matches Message::BackgroundColorChanged(c)
                ==> final(self).background_color == c,
            cmd == Command::NoCommand,
    {
        match message {
            Message::BackgroundColorChanged(color) => {
                self.background_color = color;
            },
        }
        Command::NoCommand
    }

    /// Lays the panel out: fixed title, caption, sizes and spacing; one
    /// slider per component at its current value; the readout line showing
    /// the current color as text.
    pub fn view(&self) -> (p: Panel)
        ensures
            p.slider_column_width == 200,
            p.slider_spacing == 20,
            p.left_padding == 10,
            p.top_padding == 30,
            p.inner_padding == 10,
            p.inner_spacing == 10,
            p.title@ == "RuinX PoC"@,
            p.title_size == 40,
            p.caption@ == "Background color"@,
            p.sliders@ == seq![
                slider_for(self.background_color, Component::Red),
                slider_for(self.background_color, Component::Green),
                slider_for(self.background_color, Component::Blue),
            ],
            p.readout@ == color_label(self.background_color),
            p.readout_size == 14,
            p.text_color == (Color { r: 100u8, g: 100u8, b: 100u8, a: 100u8 }),
    {
        let c = self.background_color;
        let mut sliders: Vec<SliderModel> = Vec::new();
        sliders.push(SliderModel {
            component: Component::Red,
            value: c.r,
            min: 0,
            max: COMPONENT_MAX,
            step: 1,
        });
        sliders.push(SliderModel {
            component: Component::Green,
            value: c.g,
            min: 0,
            max: COMPONENT_MAX,
            step: 1,
        });
        sliders.push(SliderModel {
            component: Component::Blue,
            value: c.b,
            min: 0,
            max: COMPONENT_MAX,
            step: 1,
        });
        proof {
            assert(sliders@ =~= seq![
                slider_for(c, Component::Red),
                slider_for(c, Component::Green),
                slider_for(c, Component::Blue),
            ]);
        }
        Panel {
            slider_column_width: 200,
            slider_spacing: 20,
            left_padding: 10,
            top_padding: 30,
            inner_padding: 10,
            inner_spacing: 10,
            title: "RuinX PoC".to_owned(),
            title_size: 40,
            caption: "Background color".to_owned(),
            sliders,
            readout: color_text(&c),
            readout_size: 14,
            text_color: Color::white(),
        }
    }

    /// The background color the sliders have picked.
    pub fn background_color(&self) -> (c: Color)
        ensures
            c == self.background_color,
    {
        self.background_color
    }

    /// The window's scale factor, in hundredths: always one-to-one.
    pub fn scale_factor(&self) -> (s: u32)
        ensures
            s == 100,
    {
        100
    }

    /// Whether the panel asks the program to exit: it never does.
    pub fn should_exit(&self) -> (e: bool)
        ensures
            !e,
    {
        false
    }
}

} // verus!

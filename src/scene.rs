//! One frame's worth of drawing intent: an ordered list of commands that
//! always begins with the camera that was active when the scene was made.
use vstd::prelude::*;

use crate::pixel::Pixel;
use crate::shape::Thickness;

verus! {

/// The key of a texture in a table that the caller owns.
#[derive(Debug, Clone, Copy, PartialEq, Eq, Structural)]
pub struct TextureId {
    pub index: u64,
}

/// A recorded drawing operation. `P` is the caller's world-space point type and
/// `V` its camera type: the library carries both through without reading them.
#[derive(Debug)]
pub enum DrawCommand<P, V> {
    Line { from: P, to: P, color: Pixel, thickness: Thickness },
    Rect { from: P, to: P, color: Pixel, thickness: Thickness },
    RectFilled { from: P, to: P, color: Pixel },
    RectTextured { from: P, to: P, texture: TextureId, sub_coords: Option<(P, P)> },
    View(V),
}

pub struct Scene<P, V> {
    clear_color: Option<Pixel>,
    draw_commands: Vec<DrawCommand<P, V>>,
}

impl<P, V> Scene<P, V> {
    pub closed spec fn spec_clear_color(&self) -> Option<Pixel> {
        self.clear_color
    }

    pub closed spec fn spec_commands(&self) -> Seq<DrawCommand<P, V>> {
        self.draw_commands@
    }

    /// The first command is the view the scene was made with; every method
    /// keeps it there.
    pub open spec fn wf(&self) -> bool {
        &&& self.spec_commands().len() >= 1
        &&& self.spec_commands()[0] is View
    }

    /// A scene whose only command is `View(view)`, with no clear color.
    pub fn new(view: V) -> (s: Scene<P, V>)
        ensures
            s.spec_clear_color() is None,
            s.spec_commands() == seq![DrawCommand::<P, V>::View(view)],
            s.wf(),
    {
        let mut draw_commands: Vec<DrawCommand<P, V>> = Vec::new();
        draw_commands.push(DrawCommand::View(view));
        Scene { clear_color: None, draw_commands }
    }

    pub fn clear_color(&self) -> (c: Option<Pixel>)
        ensures
            c == self.spec_clear_color(),
    {
        self.clear_color
    }

    pub fn commands(&self) -> (c: &[DrawCommand<P, V>])
        ensures
            c@ == self.spec_commands(),
    {
        self.draw_commands.as_slice()
    }

    /// Sets the clear color and discards every command but the first view.
    pub fn clear(&mut self, color: Pixel)
        requires
            old(self).wf(),
        ensures
            final(self).wf(),
            final(self).spec_clear_color() == Some(color),
            final(self).spec_commands() == old(self).spec_commands().take(1),
            final(self).spec_commands().len() == 1,
    {
        self.clear_color = Some(color);
        self.draw_commands.truncate(1);
    }

    /// Switches to another camera for the commands recorded after this one.
    pub fn set_view(&mut self, view: V)
        ensures
            final(self).spec_clear_color() == old(self).spec_clear_color(),
            final(self).spec_commands() == old(self).spec_commands().push(DrawCommand::View(view)),
    {
        self.draw_commands.push(DrawCommand::View(view));
    }

    pub fn draw_line(&mut self, from: P, to: P, color: Pixel, thickness: Thickness)
        ensures
            final(self).spec_clear_color() == old(self).spec_clear_color(),
            final(self).spec_commands() == old(self).spec_commands().push(
                DrawCommand::Line { from, to, color, thickness },
            ),
    {
        self.draw_commands.push(DrawCommand::Line { from, to, color, thickness });
    }

    /// Records the outline of the rectangle spanned by `from` and `to`.
    pub fn draw_rect(&mut self, from: P, to: P, color: Pixel, thickness: Thickness)
        ensures
            final(self).spec_clear_color() == old(self).spec_clear_color(),
            final(self).spec_commands() == old(self).spec_commands().push(
                DrawCommand::Rect { from, to, color, thickness },
            ),
    {
        self.draw_commands.push(DrawCommand::Rect { from, to, color, thickness });
    }

    pub fn draw_filled_rect(&mut self, from: P, to: P, color: Pixel)
        ensures
            final(self).spec_clear_color() == old(self).spec_clear_color(),
            final(self).spec_commands() == old(self).spec_commands().push(
                DrawCommand::RectFilled { from, to, color },
            ),
    {
        self.draw_commands.push(DrawCommand::RectFilled { from, to, color });
    }

    /// Records a rectangle showing the whole of a texture.
    pub fn draw_textured_rect(&mut self, from: P, to: P, texture: TextureId)
        ensures
            final(self).spec_clear_color() == old(self).spec_clear_color(),
            final(self).spec_commands() == old(self).spec_commands().push(
                DrawCommand::RectTextured { from, to, texture, sub_coords: None },
            ),
    {
        self.draw_commands.push(DrawCommand::RectTextured { from, to, texture, sub_coords: None });
    }

    /// Records a rectangle showing the region of a texture between two texel
    /// positions, as for a sprite in an atlas.
    pub fn draw_textured_rect_ext(&mut self, from: P, to: P, texture: TextureId, sub_from: P, sub_to: P)
        ensures
            final(self).spec_clear_color() == old(self).spec_clear_color(),
            final(self).spec_commands() == old(self).spec_commands().push(
                DrawCommand::RectTextured { from, to, texture, sub_coords: Some((sub_from, sub_to)) },
            ),
    {
        self.draw_commands.push(
            DrawCommand::RectTextured { from, to, texture, sub_coords: Some((sub_from, sub_to)) },
        );
    }
}

} // verus!

use crate::context::{Gl, Request, RequestView};
use vstd::prelude::*;

verus! {

/// A colour with its opacity. Each component is the bit pattern of a single precision number
/// between 0 and 1.
#[derive(Debug, Clone, Copy, PartialEq, Eq, Structural)]
pub struct Color {
    pub red: u32,
    pub green: u32,
    pub blue: u32,
    pub alpha: u32,
}

impl Default for Color {
    /// Black, fully transparent: each component is 0.
    fn default() -> (color: Self)
        ensures
            color == (Color { red: 0, green: 0, blue: 0, alpha: 0 }),
    {
        Color { red: 0, green: 0, blue: 0, alpha: 0 }
    }
}

/// The values that a clear writes. A value that is not given stays as the context has it.
/// The depth is the bit pattern of a single precision number.
#[derive(Debug, Clone, Copy, PartialEq, Eq, Structural)]
pub struct Clear {
    pub color: Option<Color>,
    pub depth: Option<u32>,
    pub stencil: Option<u32>,
}

impl Default for Clear {
    /// Every value given, and each of them 0.
    fn default() -> (clear: Self)
        ensures
            clear == (Clear {
                color: Some(Color { red: 0, green: 0, blue: 0, alpha: 0 }),
                depth: Some(0u32),
                stencil: Some(0u32),
            }),
    {
        Clear { color: Some(Color::default()), depth: Some(0), stencil: Some(0) }
    }
}

impl Clear {
    /// The requests that set the values: colour, depth and stencil index, in this order, each
    /// where it is given.
    pub open spec fn requests(self) -> Seq<RequestView> {
        (match self.color {
            Some(color) => seq![
                RequestView::ClearColor {
                    red: color.red,
                    green: color.green,
                    blue: color.blue,
                    alpha: color.alpha,
                },
            ],
            None => Seq::empty(),
        }) + (match self.depth {
            Some(depth) => seq![RequestView::ClearDepthf { depth }],
            None => Seq::empty(),
        }) + (match self.stencil {
            Some(stencil) => seq![RequestView::ClearStencil { stencil: stencil as i32 }],
            None => Seq::empty(),
        })
    }

    /// Makes the values of this clear those that the context clears to.
    pub fn set(&self, gl: &mut Gl)
        ensures
            final(gl)@ == old(gl)@ + self.requests(),
    {
        if let Some(color) = self.color {
            gl.record(
                Request::ClearColor {
                    red: color.red,
                    green: color.green,
                    blue: color.blue,
                    alpha: color.alpha,
                },
            );
        }
        if let Some(depth) = self.depth {
            gl.record(Request::ClearDepthf { depth });
        }
        if let Some(stencil) = self.stencil {
            gl.record(Request::ClearStencil { stencil: stencil as i32 });
        }
        assert(gl@ =~= old(gl)@ + self.requests());
    }
}

} // verus!

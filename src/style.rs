//! Visual parameters of the two kinds of chat bubbles.
use vstd::prelude::*;

verus! {

/// A colour as red, green and blue bytes.
#[derive(Clone, Copy, Debug, PartialEq, Eq, Structural)]
pub struct Rgb {
    pub r: u8,
    pub g: u8,
    pub b: u8,
}

/// Border of a message bubble: corner radius and stroke width in pixels,
/// and the stroke's colour as red, green and blue bytes.
#[derive(Clone, Copy, Debug, PartialEq, Eq, Structural)]
pub struct Border {
    pub radius: u16,
    pub width: u16,
    pub color: Rgb,
}

/// Bubble of a message that this client sent.
pub struct ContainerSend;

/// Bubble of a message that came from the server.
pub struct ContainerRecv;

impl ContainerSend {
    pub fn border(&self) -> (r: Border)
        ensures
            r == (Border { radius: 30, width: 3, color: Rgb { r: 163, g: 238, b: 245 } }),
    {
        Border { radius: 30, width: 3, color: Rgb { r: 163, g: 238, b: 245 } }
    }
}

impl ContainerRecv {
    pub fn border(&self) -> (r: Border)
        ensures
            r == (Border { radius: 30, width: 3, color: Rgb { r: 223, g: 171, b: 173 } }),
    {
        Border { radius: 30, width: 3, color: Rgb { r: 223, g: 171, b: 173 } }
    }
}

} // verus!

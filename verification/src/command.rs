//! The four drawing commands and their encoding on the wire.
//!
//! Every message from the client to the display is one tag byte followed by
//! the command's payload. No length is sent and nothing is acknowledged.

use vstd::prelude::*;
use crate::geometry::{Area, Color, Point};

verus! {

/// Tag byte of a fill of the whole display.
pub const TAG_FILL: u8 = 1;

/// Tag byte of a write to a single cell.
pub const TAG_PIXEL: u8 = 2;

/// Tag byte of a fill of a rectangle.
pub const TAG_RECTANGLE: u8 = 3;

/// Tag byte of a block of colors for a rectangle.
pub const TAG_CONTIGUOUS: u8 = 4;

/// A drawing command.
#[derive(Debug, Clone, Copy)]
pub enum Command<'a> {
    /// Sets one cell to a color.
    Pixel { at: Point, color: Color },
    /// Sets every cell of the display to a color.
    Fill { color: Color },
    /// Sets every cell of an area to a color.
    Rectangle { area: Area, color: Color },
    /// Gives each cell of an area a color of its own. `colors` holds three
    /// bytes (red, green, blue) for each cell, row by row from the top-left
    /// corner of the area, along x first.
    Contiguous { area: Area, colors: &'a [u8] },
}

impl<'a> Command<'a> {
    /// The tag byte that announces the command.
    pub open spec fn spec_tag(&self) -> u8 {
        match *self {
            Command::Pixel { .. } => TAG_PIXEL,
            Command::Fill { .. } => TAG_FILL,
            Command::Rectangle { .. } => TAG_RECTANGLE,
            Command::Contiguous { .. } => TAG_CONTIGUOUS,
        }
    }

    /// The bytes that follow the tag.
    pub open spec fn payload(&self) -> Seq<u8> {
        match *self {
            Command::Pixel { at, color } => seq![at.x, at.y, color.red, color.green, color.blue],
            Command::Fill { color } => seq![color.red, color.green, color.blue],
            Command::Rectangle { area, color } => seq![
                area.x,
                area.y,
                area.width,
                area.height,
                color.red,
                color.green,
                color.blue,
            ],
            Command::Contiguous { area, colors } => seq![area.x, area.y, area.width, area.height]
                + colors@,
        }
    }

    /// The whole message: the tag, then the payload.
    pub open spec fn wire(&self) -> Seq<u8> {
        seq![self.spec_tag()] + self.payload()
    }

    /// The tag byte that announces the command.
    #[verifier::when_used_as_spec(spec_tag)]
    pub fn tag(&self) -> (tag: u8)
        ensures
            tag == self.spec_tag(),
    {
        match self {
            Command::Pixel { .. } => TAG_PIXEL,
            Command::Fill { .. } => TAG_FILL,
            Command::Rectangle { .. } => TAG_RECTANGLE,
            Command::Contiguous { .. } => TAG_CONTIGUOUS,
        }
    }

    /// Appends the message to `out` and leaves what `out` held in place.
    pub fn encode_into(&self, out: &mut Vec<u8>)
        ensures
            final(out)@ == old(out)@ + self.wire(),
    {
        out.push(self.tag());
        match self {
            Command::Pixel { at, color } => {
                out.push(at.x);
                out.push(at.y);
                out.push(color.red);
                out.push(color.green);
                out.push(color.blue);
            },
            Command::Fill { color } => {
                out.push(color.red);
                out.push(color.green);
                out.push(color.blue);
            },
            Command::Rectangle { area, color } => {
                out.push(area.x);
                out.push(area.y);
                out.push(area.width);
                out.push(area.height);
                out.push(color.red);
                out.push(color.green);
                out.push(color.blue);
            },
            Command::Contiguous { area, colors } => {
                out.push(area.x);
                out.push(area.y);
                out.push(area.width);
                out.push(area.height);
                out.extend_from_slice(colors);
            },
        }
    }

    /// The message as a buffer of its own.
    pub fn encode(&self) -> (bytes: Vec<u8>)
        ensures
            bytes@ == self.wire(),
    {
        let mut bytes: Vec<u8> = Vec::new();
        self.encode_into(&mut bytes);
        bytes
    }
}

/// The four tags differ from each other, so the first byte of a message
/// tells which command follows.
pub proof fn lemma_tag_names_variant(a: Command, b: Command)
    ensures
        a.spec_tag() == b.spec_tag() <==> ({
            ||| a is Pixel && b is Pixel
            ||| a is Fill && b is Fill
            ||| a is Rectangle && b is Rectangle
            ||| a is Contiguous && b is Contiguous
        }),
        a.wire().len() > 0,
        a.wire()[0] == a.spec_tag(),
{
}

/// The payload of a command has a length fixed by its kind: five bytes for a
/// pixel, three for a fill, seven for a rectangle, and four bytes plus the
/// color buffer for a block of colors.
pub proof fn lemma_payload_len(command: Command)
    ensures
        command is Pixel ==> command.payload().len() == 5,
        command is Fill ==> command.payload().len() == 3,
        command is Rectangle ==> command.payload().len() == 7,
        command matches Command::Contiguous { colors, .. } ==> command.payload().len() == 4
            + colors@.len(),
        command.wire().len() == 1 + command.payload().len(),
{
}

} // verus!

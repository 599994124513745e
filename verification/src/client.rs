//! The client side of a display session.
//!
//! A [`Client`] is made from the handshake that the display sends, queues the
//! bytes of each drawing operation, and hands them out on [`Client::flush`].
//! It does no input or output itself: the caller reads the handshake from the
//! stream and writes what `flush` returns to it.

use vstd::prelude::*;
use crate::command::{Command, TAG_CONTIGUOUS, TAG_FILL, TAG_PIXEL, TAG_RECTANGLE};
use crate::error::{ConnectionError, ValidationError};
use crate::geometry::{Area, Color, Point};
use crate::session::Session;
use crate::validate::{validate, validation};

verus! {

/// A session with one display.
#[derive(Debug)]
pub struct Client {
    width: u8,
    height: u8,
    buffer: Vec<u8>,
}

impl View for Client {
    type V = Session;

    closed spec fn view(&self) -> Session {
        Session { width: self.width, height: self.height, pending: self.buffer@ }
    }
}

impl Client {
    /// Opens a session from the bytes that the display sent on connection:
    /// its width, then its height. `handshake` holds what arrived before the
    /// stream ended; bytes after the second are not looked at.
    pub fn connect(handshake: &[u8]) -> (outcome: Result<Client, ConnectionError>)
        ensures
            outcome is Ok <==> handshake@.len() >= 2,
            match outcome {
                Ok(client) => Session::opened(handshake@) == Ok::<Session, ConnectionError>(
                    client@,
                ),
                Err(error) => Session::opened(handshake@) == Err::<Session, ConnectionError>(
                    error,
                ),
            },
    {
        if handshake.len() < 2 {
            return Err(ConnectionError::UnexpectedEof);
        }
        Ok(Client { width: handshake[0], height: handshake[1], buffer: Vec::new() })
    }

    /// Number of columns of the display.
    pub fn width(&self) -> (width: u8)
        ensures
            width == self@.width,
    {
        self.width
    }

    /// Number of rows of the display.
    pub fn height(&self) -> (height: u8)
        ensures
            height == self@.height,
    {
        self.height
    }

    /// Number of cells of the display.
    pub fn total_pixels(&self) -> (total: u16)
        ensures
            total == self@.total_pixels(),
            total == self@.width * self@.height,
    {
        let width: u16 = self.width as u16;
        let height: u16 = self.height as u16;
        assert(width * height <= 65025) by (nonlinear_arith)
            requires
                width <= 255,
                height <= 255,
        ;
        width * height
    }

    /// Hands out everything that was queued since the last flush, in the
    /// order in which it was queued, and leaves nothing pending. The caller
    /// sends the bytes to the display.
    pub fn flush(&mut self) -> (sent: Vec<u8>)
        ensures
            sent@ == old(self)@.pending,
            final(self)@ == old(self)@.flushed(),
    {
        let mut sent: Vec<u8> = Vec::new();
        std::mem::swap(&mut self.buffer, &mut sent);
        sent
    }

    /// Queues a command if the session takes it, and queues nothing if not.
    pub fn draw(&mut self, command: &Command) -> (outcome: Result<(), ValidationError>)
        ensures
            outcome == old(self)@.verdict(*command),
            final(self)@ == old(self)@.after(*command),
    {
        if let Command::Contiguous { area, colors } = command {
            let checked = validate(self.width, self.height, area, colors);
            if checked.is_err() {
                return checked;
            }
        }
        command.encode_into(&mut self.buffer);
        Ok(())
    }

    /// Queues the command that sets the cell at (`x`, `y`) to a color.
    pub fn pixel(&mut self, x: u8, y: u8, red: u8, green: u8, blue: u8)
        ensures
            final(self)@.pending == old(self)@.pending + seq![TAG_PIXEL, x, y, red, green, blue],
            final(self)@ == old(self)@.after(
                (Command::Pixel { at: Point { x, y }, color: Color { red, green, blue } }),
            ),
    {
        let command = Command::Pixel { at: Point { x, y }, color: Color { red, green, blue } };
        command.encode_into(&mut self.buffer);
    }

    /// Queues the command that sets every cell of the display to a color.
    pub fn fill(&mut self, red: u8, green: u8, blue: u8)
        ensures
            final(self)@.pending == old(self)@.pending + seq![TAG_FILL, red, green, blue],
            final(self)@ == old(self)@.after((Command::Fill { color: Color { red, green, blue } })),
    {
        let command = Command::Fill { color: Color { red, green, blue } };
        command.encode_into(&mut self.buffer);
    }

    /// Queues the command that sets every cell of a rectangle to a color.
    /// The rectangle is not held against the size of the display.
    pub fn rectangle(
        &mut self,
        x: u8,
        y: u8,
        width: u8,
        height: u8,
        red: u8,
        green: u8,
        blue: u8,
    )
        ensures
            final(self)@.pending == old(self)@.pending + seq![
                TAG_RECTANGLE,
                x,
                y,
                width,
                height,
                red,
                green,
                blue,
            ],
            final(self)@ == old(self)@.after(
                (Command::Rectangle {
                    area: Area { x, y, width, height },
                    color: Color { red, green, blue },
                }),
            ),
    {
        let command = Command::Rectangle {
            area: Area { x, y, width, height },
            color: Color { red, green, blue },
        };
        command.encode_into(&mut self.buffer);
    }

    /// Queues a block of colors for the rectangle at (`x`, `y`), after
    /// checking that the rectangle lies on the display and that `colors`
    /// holds three bytes for each of its cells. `colors` goes out as it is
    /// given: row by row from the top-left corner, along x first, each cell
    /// as red, green, blue. When a check fails, nothing is queued.
    pub fn contiguous(&mut self, x: u8, y: u8, width: u8, height: u8, colors: &[u8]) -> (outcome:
        Result<(), ValidationError>)
        ensures
            outcome == validation(
                old(self)@.width,
                old(self)@.height,
                (Area { x, y, width, height }),
                colors@.len(),
            ),
            outcome is Ok ==> final(self)@.pending == old(self)@.pending + seq![
                TAG_CONTIGUOUS,
                x,
                y,
                width,
                height,
            ] + colors@,
            outcome is Err ==> final(self)@.pending == old(self)@.pending,
            final(self)@ == old(self)@.after(
                (Command::Contiguous { area: Area { x, y, width, height }, colors }),
            ),
    {
        let command = Command::Contiguous { area: Area { x, y, width, height }, colors };
        self.draw(&command)
    }
}

} // verus!

//! A display session as a mathematical value: the size that the display
//! announced and the bytes that wait to be sent, with the change that each
//! operation makes to them.

use vstd::prelude::*;
use crate::command::{Command, TAG_CONTIGUOUS};
use crate::error::{ConnectionError, ValidationError};
use crate::geometry::Area;
use crate::validate::validation;

verus! {

/// The state of a session.
pub struct Session {
    /// Number of columns of the display.
    pub width: u8,
    /// Number of rows of the display.
    pub height: u8,
    /// What was queued since the last flush, oldest byte first.
    pub pending: Seq<u8>,
}

impl Session {
    /// The session that a handshake opens. The display announces itself with
    /// two bytes, its width and then its height; a stream that ends before
    /// both have arrived opens no session. Nothing is pending at the start.
    pub open spec fn opened(handshake: Seq<u8>) -> Result<Session, ConnectionError> {
        if handshake.len() < 2 {
            Err(ConnectionError::UnexpectedEof)
        } else {
            Ok(Session { width: handshake[0], height: handshake[1], pending: Seq::empty() })
        }
    }

    /// The number of cells of the display.
    pub open spec fn total_pixels(self) -> nat {
        (self.width * self.height) as nat
    }

    /// Whether the session takes the command, and if not, why. Only a block
    /// of colors can be refused.
    pub open spec fn verdict(self, command: Command) -> Result<(), ValidationError> {
        match command {
            Command::Contiguous { area, colors } => validation(
                self.width,
                self.height,
                area,
                colors@.len(),
            ),
            _ => Ok(()),
        }
    }

    /// The bytes that the command adds to what is pending: its message if the
    /// session takes it, nothing otherwise.
    pub open spec fn contribution(self, command: Command) -> Seq<u8> {
        if self.verdict(command) is Ok {
            command.wire()
        } else {
            Seq::empty()
        }
    }

    /// The session after a drawing operation.
    pub open spec fn after(self, command: Command) -> Session {
        Session { pending: self.pending + self.contribution(command), ..self }
    }

    /// The session after a flush: what was pending has left.
    pub open spec fn flushed(self) -> Session {
        Session { pending: Seq::empty(), ..self }
    }
}

/// A handshake of two bytes opens a session of that width and height. Its
/// number of cells is their product, which is 65025 at most and so fits in
/// sixteen bits.
pub proof fn lemma_handshake_fixes_dimensions(width: u8, height: u8)
    ensures
        Session::opened(seq![width, height]) matches Ok(session) && {
            &&& session.width == width
            &&& session.height == height
            &&& session.total_pixels() == width * height
            &&& session.pending =~= Seq::empty()
        },
        width * height <= 65025,
{
    assert(width * height <= 65025) by (nonlinear_arith)
        requires
            0 <= width <= 255,
            0 <= height <= 255,
    ;
}

/// A stream that ends before the second byte of the handshake opens no
/// session.
pub proof fn lemma_short_handshake_opens_nothing(handshake: Seq<u8>)
    requires
        handshake.len() < 2,
    ensures
        Session::opened(handshake) == Err::<Session, _>(ConnectionError::UnexpectedEof),
{
}

/// A block of colors for the whole display, with three bytes for each of its
/// cells, is taken, and goes out as the tag, the origin, the size of the
/// display and the colors as they were given.
pub proof fn lemma_full_frame_is_taken(session: Session, colors: &[u8])
    requires
        colors@.len() == 3 * session.total_pixels(),
    ensures
        ({
            let command = Command::Contiguous {
                area: Area { x: 0, y: 0, width: session.width, height: session.height },
                colors,
            };
            &&& session.verdict(command) is Ok
            &&& session.after(command).pending == session.pending + seq![
                TAG_CONTIGUOUS,
                0,
                0,
                session.width,
                session.height,
            ] + colors@
        }),
{
}

/// A block of colors whose area reaches past the right edge of the display
/// is refused as too wide, whatever its height and its colors, and leaves
/// the session as it was.
pub proof fn lemma_too_wide_is_refused(session: Session, area: Area, colors: &[u8])
    requires
        area.x + area.width > session.width,
    ensures
        ({
            let command = Command::Contiguous { area, colors };
            &&& session.verdict(command) == Err::<(), _>(ValidationError::TooWide)
            &&& session.after(command) == session
        }),
{
}

/// A block of colors whose area lies on the display and whose buffer is one
/// byte short is refused for its length, and leaves the session as it was.
pub proof fn lemma_short_buffer_is_refused(session: Session, area: Area, colors: &[u8])
    requires
        area.fits(session.width, session.height),
        colors@.len() == area.spec_color_len() - 1,
    ensures
        ({
            let command = Command::Contiguous { area, colors };
            &&& session.verdict(command) == Err::<(), _>(ValidationError::WrongLength)
            &&& session.after(command) == session
        }),
{
}

/// A refused command changes nothing, and a command that is taken changes
/// only what is pending, by adding its message at the end.
pub proof fn lemma_draw_appends_or_keeps(session: Session, command: Command)
    ensures
        session.after(command).width == session.width,
        session.after(command).height == session.height,
        session.verdict(command) is Ok ==> session.after(command).pending == session.pending
            + command.wire(),
        session.verdict(command) is Err ==> session.after(command) == session,
{
}

/// After two drawing operations, a flush hands out what was pending before
/// them, then the message of the first, then the message of the second, in
/// one piece, and leaves nothing pending.
pub proof fn lemma_flush_delivers_in_call_order(session: Session, first: Command, second: Command)
    ensures
        ({
            let drawn = session.after(first).after(second);
            &&& drawn.pending == session.pending + session.contribution(first)
                + session.contribution(second)
            &&& session.verdict(first) is Ok && session.verdict(second) is Ok ==> drawn.pending
                == session.pending + first.wire() + second.wire()
            &&& drawn.flushed().pending == Seq::<u8>::empty()
            &&& drawn.flushed().width == session.width
            &&& drawn.flushed().height == session.height
        }),
{
}

} // verus!

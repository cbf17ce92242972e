//! Driver for the CU40026 vacuum-fluorescent display.
//!
//! The display accepts single-byte commands and ASCII text over a serial
//! transport. Each operation of [`Display`] encodes one command as the exact
//! byte sequence the hardware protocol requires and forwards it, in a single
//! write, through the caller-supplied [`interface::Interface`].

use vstd::prelude::*;
use vstd::string::StringSliceAdditionalSpecFns;

pub mod interface;

use crate::interface::Interface;
use crate::interface::extends_by_prefix;

verus! {

/// Available display commands, each standing for one wire byte.
#[derive(Clone, Copy)]
pub enum Command {
    BackSpace,
    HorizontalTab,
    LineFeed,
    FormFeed,
    CarriageReturn,
    OverwriteMode,
    ScrollUpMode,
    UnderlineCursor,
    BlinkingSquareCursor,
    InvisibleCursor,
    Escape,
    MoveCursor,
    Luminance,
    BlinkSpeed,
    Initialise,
}

impl Command {
    /// The single wire byte that stands for this command.
    pub open spec fn spec_value(self) -> u8 {
        match self {
            Command::BackSpace => 0x08,
            Command::HorizontalTab => 0x09,
            Command::LineFeed => 0x0A,
            Command::FormFeed => 0x0C,
            Command::CarriageReturn => 0x0D,
            Command::OverwriteMode => 0x11,
            Command::ScrollUpMode => 0x12,
            Command::UnderlineCursor => 0x14,
            Command::BlinkingSquareCursor => 0x15,
            Command::InvisibleCursor => 0x16,
            Command::Escape => 0x1B,
            Command::MoveCursor => 0x48,
            Command::Luminance => 0x4C,
            Command::BlinkSpeed => 0x54,
            Command::Initialise => 0x49,
        }
    }

    /// The single wire byte that stands for this command.
    pub fn value(self) -> (byte: u8)
        ensures
            byte == self.spec_value(),
    {
        match self {
            Command::BackSpace => 0x08,
            Command::HorizontalTab => 0x09,
            Command::LineFeed => 0x0A,
            Command::FormFeed => 0x0C,
            Command::CarriageReturn => 0x0D,
            Command::OverwriteMode => 0x11,
            Command::ScrollUpMode => 0x12,
            Command::UnderlineCursor => 0x14,
            Command::BlinkingSquareCursor => 0x15,
            Command::InvisibleCursor => 0x16,
            Command::Escape => 0x1B,
            Command::MoveCursor => 0x48,
            Command::Luminance => 0x4C,
            Command::BlinkSpeed => 0x54,
            Command::Initialise => 0x49,
        }
    }
}

/// Available cursor types.
///
/// Each one stands for the cursor-selection command of the same name, so its
/// wire value is, by construction, that command's wire value.
#[derive(Clone, Copy)]
pub enum CursorType {
    UnderlineCursor,
    BlinkingSquareCursor,
    InvisibleCursor,
}

impl CursorType {
    /// The cursor-selection command this cursor type stands for.
    pub open spec fn spec_command(self) -> Command {
        match self {
            CursorType::UnderlineCursor => Command::UnderlineCursor,
            CursorType::BlinkingSquareCursor => Command::BlinkingSquareCursor,
            CursorType::InvisibleCursor => Command::InvisibleCursor,
        }
    }

    /// The single wire byte that selects this cursor type.
    pub open spec fn spec_value(self) -> u8 {
        self.spec_command().spec_value()
    }

    /// The cursor-selection command this cursor type stands for.
    pub fn command(self) -> (command: Command)
        ensures
            command == self.spec_command(),
    {
        match self {
            CursorType::UnderlineCursor => Command::UnderlineCursor,
            CursorType::BlinkingSquareCursor => Command::BlinkingSquareCursor,
            CursorType::InvisibleCursor => Command::InvisibleCursor,
        }
    }

    /// The single wire byte that selects this cursor type.
    pub fn value(self) -> (byte: u8)
        ensures
            byte == self.spec_value(),
    {
        self.command().value()
    }
}

/// The bytes that select a cursor type: the cursor type's own opcode alone.
pub open spec fn set_cursor_type_bytes(cursor_type: CursorType) -> Seq<u8> {
    seq![cursor_type.spec_value()]
}

/// The bytes that move the cursor to `index`: an escape sequence.
pub open spec fn move_cursor_bytes(index: u8) -> Seq<u8> {
    seq![Command::Escape.spec_value(), Command::MoveCursor.spec_value(), index]
}

/// The bytes that set the luminance to `luminance`: an escape sequence.
pub open spec fn set_luminance_bytes(luminance: u8) -> Seq<u8> {
    seq![Command::Escape.spec_value(), Command::Luminance.spec_value(), luminance]
}

/// The bytes that set the cursor blink period to `period`: an escape sequence.
pub open spec fn set_blink_speed_bytes(period: u8) -> Seq<u8> {
    seq![Command::Escape.spec_value(), Command::BlinkSpeed.spec_value(), period]
}

/// The bytes that initialise the display: an escape sequence with no argument.
pub open spec fn initialise_bytes() -> Seq<u8> {
    seq![Command::Escape.spec_value(), Command::Initialise.spec_value()]
}

/// Issuing the same operation twice with the same arguments against a
/// transport that always succeeds puts two identical byte sequences on the
/// wire: each successful call appends the command's encoding, which depends
/// on the arguments alone, so the segment the first call appends equals the
/// segment the second call appends, and both equal the encoding itself.
pub proof fn lemma_repeated_command_identical(
    before: Seq<u8>,
    after_first: Seq<u8>,
    after_second: Seq<u8>,
    command: Seq<u8>,
)
    requires
        after_first == before + command,
        after_second == after_first + command,
    ensures
        after_first.subrange(before.len() as int, after_first.len() as int) == command,
        after_second.subrange(after_first.len() as int, after_second.len() as int) == command,
{
    assert(after_first.subrange(before.len() as int, after_first.len() as int) =~= command);
    assert(after_second.subrange(after_first.len() as int, after_second.len() as int) =~= command);
}

/// Display using a generic interface implementation.
///
/// The driver is stateless beyond owning its transport: every operation
/// encodes its command from its own arguments alone and issues exactly one
/// write. On success the wire history grows by exactly the command's bytes;
/// on failure the transport's error is handed back unchanged, no second
/// write is attempted, and at most a prefix of that one command reached the
/// wire.
pub struct Display<I: Interface> {
    interface: I,
}

impl<I: Interface> Display<I> {
    /// The history of bytes this driver has put on the wire through its
    /// transport.
    pub closed spec fn written(&self) -> Seq<u8> {
        self.interface.written()
    }

    /// Take ownership of a ready transport.
    pub fn new(interface: I) -> (display: Display<I>)
        ensures
            display.written() == interface.written(),
    {
        Display { interface }
    }

    /// Write bytes to the display, unchanged: the base primitive every other
    /// operation builds on.
    pub fn write_bytes(&mut self, bytes: &[u8]) -> (result: Result<(), I::Error>)
        ensures
            result is Ok ==> final(self).written() == old(self).written() + bytes@,
            result is Err ==> extends_by_prefix(old(self).written(), final(self).written(), bytes@),
    {
        self.interface.write(bytes)
    }

    /// Write a string slice to the display: its raw byte representation, with
    /// no escaping, length prefix or terminator.
    pub fn write_str(&mut self, text: &str) -> (result: Result<(), I::Error>)
        ensures
            result is Ok ==> final(self).written() == old(self).written() + text.spec_bytes(),
            result is Err ==> extends_by_prefix(
                old(self).written(),
                final(self).written(),
                text.spec_bytes(),
            ),
    {
        self.write_bytes(text.as_bytes())
    }

    /// Set the cursor type.
    pub fn set_cursor_type(&mut self, cursor_type: CursorType) -> (result: Result<(), I::Error>)
        ensures
            result is Ok ==> final(self).written() == old(self).written()
                + set_cursor_type_bytes(cursor_type),
            result is Err ==> extends_by_prefix(
                old(self).written(),
                final(self).written(),
                set_cursor_type_bytes(cursor_type),
            ),
    {
        let bytes: [u8; 1] = [cursor_type.value()];
        assert(bytes@ =~= set_cursor_type_bytes(cursor_type));
        self.write_bytes(bytes.as_slice())
    }

    /// Move the cursor to a given index.
    pub fn move_cursor(&mut self, index: u8) -> (result: Result<(), I::Error>)
        ensures
            result is Ok ==> final(self).written() == old(self).written()
                + move_cursor_bytes(index),
            result is Err ==> extends_by_prefix(
                old(self).written(),
                final(self).written(),
                move_cursor_bytes(index),
            ),
    {
        let bytes: [u8; 3] = [Command::Escape.value(), Command::MoveCursor.value(), index];
        assert(bytes@ =~= move_cursor_bytes(index));
        self.write_bytes(bytes.as_slice())
    }

    /// Set the luminance of the display.
    pub fn set_luminance(&mut self, luminance: u8) -> (result: Result<(), I::Error>)
        ensures
            result is Ok ==> final(self).written() == old(self).written()
                + set_luminance_bytes(luminance),
            result is Err ==> extends_by_prefix(
                old(self).written(),
                final(self).written(),
                set_luminance_bytes(luminance),
            ),
    {
        let bytes: [u8; 3] = [Command::Escape.value(), Command::Luminance.value(), luminance];
        assert(bytes@ =~= set_luminance_bytes(luminance));
        self.write_bytes(bytes.as_slice())
    }

    /// Set the cursor blink speed. The blink period is the period supplied
    /// times 30 ms; the driver only forwards the raw period byte.
    pub fn set_blink_speed(&mut self, period: u8) -> (result: Result<(), I::Error>)
        ensures
            result is Ok ==> final(self).written() == old(self).written()
                + set_blink_speed_bytes(period),
            result is Err ==> extends_by_prefix(
                old(self).written(),
                final(self).written(),
                set_blink_speed_bytes(period),
            ),
    {
        let bytes: [u8; 3] = [Command::Escape.value(), Command::BlinkSpeed.value(), period];
        assert(bytes@ =~= set_blink_speed_bytes(period));
        self.write_bytes(bytes.as_slice())
    }

    /// Initialise the display. This must be the first operation issued to a
    /// freshly powered display, and the hardware needs a delay after it
    /// before further commands; inserting that delay is the caller's
    /// responsibility.
    pub fn initialise(&mut self) -> (result: Result<(), I::Error>)
        ensures
            result is Ok ==> final(self).written() == old(self).written() + initialise_bytes(),
            result is Err ==> extends_by_prefix(
                old(self).written(),
                final(self).written(),
                initialise_bytes(),
            ),
    {
        let bytes: [u8; 2] = [Command::Escape.value(), Command::Initialise.value()];
        assert(bytes@ =~= initialise_bytes());
        self.write_bytes(bytes.as_slice())
    }
}

} // verus!


//! Decoder for the raw relative-motion pointing device.
//!
//! The device delivers three-byte packets: a status byte (bits 0 and 1 are
//! button flags, bit 3 is the frame-sync marker, bit 4 and bit 5 flag a
//! horizontal or vertical sign overflow), then a signed 8-bit horizontal
//! delta and a signed 8-bit vertical delta.  The decoder applies the delta,
//! recovers the extra sign bit, and clamps the position to the screen.

use vstd::prelude::*;

verus! {

/// Screen dimensions, the clamping bounds for the pointer position.
///
/// The position is stored in an `i32`, so a well-formed screen fits in one.
#[derive(Clone, Copy, Debug, PartialEq, Eq, Structural)]
pub struct Screen {
    pub width: u32,
    pub height: u32,
}

impl Screen {
    pub open spec fn wf(self) -> bool {
        self.width <= i32::MAX && self.height <= i32::MAX
    }
}

/// One three-byte packet as read from the device.
#[derive(Clone, Copy, Debug, PartialEq, Eq, Structural)]
pub struct Packet {
    pub status: u8,
    pub dx: u8,
    pub dy: u8,
}

/// Frame-sync marker: bit 3 of the status byte, expected set on every
/// well-framed packet.
pub open spec fn sync_set(status: u8) -> bool {
    status & 0x08 != 0
}

/// Either button flag: bits 0 and 1 of the status byte.
pub open spec fn button_pressed(status: u8) -> bool {
    status & 0x03 != 0
}

/// Horizontal sign-overflow flag: bit 4 of the status byte.
pub open spec fn x_overflow(status: u8) -> bool {
    status & 0x10 != 0
}

/// Vertical sign-overflow flag: bit 5 of the status byte.
pub open spec fn y_overflow(status: u8) -> bool {
    status & 0x20 != 0
}

/// The value of a delta byte read as a signed 8-bit integer.
pub open spec fn signed8(b: u8) -> int {
    if b >= 128 {
        b - 256
    } else {
        b as int
    }
}

/// Clamp `v` into the inclusive range `[0, hi]`.
pub open spec fn clamp_to(v: int, hi: int) -> int {
    if v < 0 {
        0
    } else if v > hi {
        hi
    } else {
        v
    }
}

/// What one read attempt on the device produced: fewer than three bytes
/// (the normal "no new data" case), or a whole packet.
#[derive(Clone, Copy, Debug, PartialEq, Eq, Structural)]
pub enum ReadOutcome {
    Short,
    Full(Packet),
}

/// What the decoder concluded from one read outcome.
#[derive(Clone, Copy, Debug, PartialEq, Eq, Structural)]
pub enum Decoded {
    /// Fewer than three bytes were available; nothing changed.
    NoData,
    /// The sync marker was absent: mid-stream noise, read again.
    Resync,
    /// A button was pressed: the sole interactive termination signal.
    Terminate,
    /// The position was updated by the packet's delta and clamped.
    Moved,
}

/// The pointer position, clamped to the screen.
#[derive(Clone, Copy, Debug, PartialEq, Eq, Structural)]
pub struct PointerState {
    pub x: i32,
    pub y: i32,
}

/// Startup pointer position before any packet arrives.
pub const START_X: i32 = 800;
/// Startup pointer position before any packet arrives.
pub const START_Y: i32 = 400;

impl PointerState {
    /// Position invariant: on the screen, bounds inclusive.
    pub open spec fn wf(self, screen: Screen) -> bool {
        0 <= self.x <= screen.width && 0 <= self.y <= screen.height
    }

    /// Where a motion packet sends the horizontal position: the signed
    /// delta is applied, 256 is subtracted when the horizontal overflow
    /// flag is set, and the result is clamped to `[0, width]`.
    pub open spec fn motion_x(self, p: Packet, screen: Screen) -> int {
        clamp_to(
            self.x + signed8(p.dx) - (if x_overflow(p.status) { 256int } else { 0int }),
            screen.width as int,
        )
    }

    /// Where a motion packet sends the vertical position, symmetric to
    /// `motion_x`.
    pub open spec fn motion_y(self, p: Packet, screen: Screen) -> int {
        clamp_to(
            self.y + signed8(p.dy) - (if y_overflow(p.status) { 256int } else { 0int }),
            screen.height as int,
        )
    }

    /// The fixed startup position, clamped onto the screen.
    pub open spec fn new_spec(screen: Screen) -> PointerState {
        PointerState {
            x: clamp_to(START_X as int, screen.width as int) as i32,
            y: clamp_to(START_Y as int, screen.height as int) as i32,
        }
    }

    /// The fixed startup position, clamped onto the screen.
    pub fn new(screen: &Screen) -> (r: PointerState)
        requires
            screen.wf(),
        ensures
            r.wf(*screen),
            r == Self::new_spec(*screen),
            r.x == clamp_to(START_X as int, screen.width as int),
            r.y == clamp_to(START_Y as int, screen.height as int),
    {
        let x: i32 = if screen.width < START_X as u32 { screen.width as i32 } else { START_X };
        let y: i32 = if screen.height < START_Y as u32 { screen.height as i32 } else { START_Y };
        PointerState { x, y }
    }

    /// Decode one read outcome.
    ///
    /// A short read and a packet without the sync marker leave the position
    /// byte-for-byte unchanged, as does a packet with a button flag set; a
    /// button is the only outcome reported as `Terminate`.  A well-framed
    /// motion packet moves the position by its sign-corrected delta and
    /// clamps it to the screen.
    pub fn decode_step(&mut self, outcome: ReadOutcome, screen: &Screen) -> (r: Decoded)
        requires
            screen.wf(),
            old(self).wf(*screen),
        ensures
            final(self).wf(*screen),
            outcome == ReadOutcome::Short ==> r == Decoded::NoData && *final(self) == *old(self),
            outcome matches ReadOutcome::Full(p) ==> {
                &&& !sync_set(p.status) ==> r == Decoded::Resync && *final(self) == *old(self)
                &&& sync_set(p.status) && button_pressed(p.status) ==> r == Decoded::Terminate
                    && *final(self) == *old(self)
                &&& sync_set(p.status) && !button_pressed(p.status) ==> r == Decoded::Moved
                    && final(self).x == old(self).motion_x(p, *screen) && final(self).y == old(
                    self,
                ).motion_y(p, *screen)
            },
    {
        match outcome {
            ReadOutcome::Short => Decoded::NoData,
            ReadOutcome::Full(p) => {
                if p.status & 0x08 == 0 {
                    Decoded::Resync
                } else if p.status & 0x03 != 0 {
                    Decoded::Terminate
                } else {
                    let dx: i64 = if p.dx >= 128 { p.dx as i64 - 256 } else { p.dx as i64 };
                    let dy: i64 = if p.dy >= 128 { p.dy as i64 - 256 } else { p.dy as i64 };
                    let mut rx: i64 = self.x as i64 + dx;
                    let mut ry: i64 = self.y as i64 + dy;
                    if p.status & 0x10 != 0 {
                        rx = rx - 256;
                    }
                    if p.status & 0x20 != 0 {
                        ry = ry - 256;
                    }
                    if rx < 0 {
                        rx = 0;
                    }
                    if ry < 0 {
                        ry = 0;
                    }
                    if rx > screen.width as i64 {
                        rx = screen.width as i64;
                    }
                    if ry > screen.height as i64 {
                        ry = screen.height as i64;
                    }
                    self.x = rx as i32;
                    self.y = ry as i32;
                    Decoded::Moved
                }
            }
        }
    }
}

/// Wherever the pointer stands on the screen, a motion packet leaves it on
/// the screen: the clamped target of every packet satisfies
/// `0 <= x <= width` and `0 <= y <= height`.
pub proof fn lemma_motion_stays_on_screen(s: PointerState, p: Packet, screen: Screen)
    requires
        screen.wf(),
        s.wf(screen),
    ensures
        0 <= s.motion_x(p, screen) <= screen.width,
        0 <= s.motion_y(p, screen) <= screen.height,
{
}

} // verus!

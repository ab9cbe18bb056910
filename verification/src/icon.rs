//! The tray icon.

use vstd::prelude::*;

verus! {

/// Width and height of the icon in pixels.
pub const ICON_SIZE: u32 = 32;

/// The letter H: two uprights two pixels wide, joined by a bar two pixels high.
pub open spec fn in_letter(x: int, y: int) -> bool {
    ||| 8 <= y < 24 && (x == 9 || x == 10 || x == 21 || x == 22)
    ||| 9 <= x < 23 && (y == 15 || y == 16)
}

/// One byte of the icon: red, green, blue and opacity of pixel (0, 0), then of (1, 0), and so
/// on row by row. The letter is white on blue.
pub open spec fn icon_byte(i: int) -> u8 {
    let pixel = i / 4;
    if in_letter(pixel % 32, pixel / 32) || i % 4 == 3 {
        255
    } else if i % 4 == 0 {
        24
    } else if i % 4 == 1 {
        100
    } else {
        230
    }
}

/// The pixels of the tray icon.
pub fn tray_rgba() -> (r: Vec<u8>)
    ensures
        r@ == Seq::new(32 * 32 * 4, |i: int| icon_byte(i)),
{
    let mut px: Vec<u8> = Vec::new();
    let mut p: usize = 0;
    while p < 1024
        invariant
            p <= 1024,
            px@ == Seq::new((4 * p) as nat, |i: int| icon_byte(i)),
        decreases 1024 - p,
    {
        let x: usize = p % 32;
        let y: usize = p / 32;
        let letter = (8 <= y && y < 24 && (x == 9 || x == 10 || x == 21 || x == 22)) || (9 <= x
            && x < 23 && (y == 15 || y == 16));
        if letter {
            px.push(255);
            px.push(255);
            px.push(255);
        } else {
            px.push(24);
            px.push(100);
            px.push(230);
        }
        px.push(255);
        p = p + 1;
        assert(px@ == Seq::new((4 * p) as nat, |i: int| icon_byte(i)));
    }
    px
}

} // verus!

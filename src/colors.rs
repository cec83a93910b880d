//! Decoration methods on text: named colors, accent palettes, style
//! attributes, gradients and layout.
use vstd::prelude::*;
use crate::escape::{compose, reset, sgr, sgr_chars, sgr_rgb, sgr_rgb_chars, styled, wrap_whole};
use crate::gradient::{gradient_text, render_gradient, token_views, Target};
use crate::layout::{
    center_chars, centered, double_frame, fade_chars, faded, frame_chars, framed, pad_chars_left,
    pad_chars_right, padded_left, padded_right, rounded_frame, square_frame, Frame,
};
use crate::text::{chars_of, string_from};

verus! {

/// implements methods for beautifying your code
pub trait Colors {
    /// The characters that the value displays as.
    spec fn shown(&self) -> Seq<char>;

    // default colors
    /// sets text color to default terminal color
    fn text_default(&self) -> (r: String)
        ensures
            r@ == styled(self.shown(), sgr(39)),
    ;

    /// sets background to default terminal color
    fn bg_default(&self) -> (r: String)
        ensures
            r@ == styled(self.shown(), sgr(49)),
    ;

    /// sets text color to black (#000000)
    fn text_black(&self) -> (r: String)
        ensures
            r@ == styled(self.shown(), sgr(30)),
    ;

    /// sets background color to black (#000000)
    fn bg_black(&self) -> (r: String)
        ensures
            r@ == styled(self.shown(), sgr(40)),
    ;

    /// sets text color to red (#ff0000)
    fn text_red(&self) -> (r: String)
        ensures
            r@ == styled(self.shown(), sgr(31)),
    ;

    /// sets background color to red (#ff0000)
    fn bg_red(&self) -> (r: String)
        ensures
            r@ == styled(self.shown(), sgr(41)),
    ;

    /// sets text color to blue (#0000ff)
    fn text_blue(&self) -> (r: String)
        ensures
            r@ == styled(self.shown(), sgr(34)),
    ;

    /// sets background color to blue (#0000ff)
    fn bg_blue(&self) -> (r: String)
        ensures
            r@ == styled(self.shown(), sgr(44)),
    ;

    /// sets text color to green (#00ff00)
    fn text_green(&self) -> (r: String)
        ensures
            r@ == styled(self.shown(), sgr(32)),
    ;

    /// sets background color to green (#00ff00)
    fn bg_green(&self) -> (r: String)
        ensures
            r@ == styled(self.shown(), sgr(42)),
    ;

    /// sets text color to yellow (#ffff00)
    fn text_yellow(&self) -> (r: String)
        ensures
            r@ == styled(self.shown(), sgr(33)),
    ;

    /// sets background color to yellow (#ffff00)
    fn bg_yellow(&self) -> (r: String)
        ensures
            r@ == styled(self.shown(), sgr(43)),
    ;

    /// sets text color to magenta (#ff00ff)
    fn text_magenta(&self) -> (r: String)
        ensures
            r@ == styled(self.shown(), sgr(35)),
    ;

    /// sets background color to magenta (#ff00ff)
    fn bg_magenta(&self) -> (r: String)
        ensures
            r@ == styled(self.shown(), sgr(45)),
    ;

    /// sets text color to cyan (#00ffff)
    fn text_cyan(&self) -> (r: String)
        ensures
            r@ == styled(self.shown(), sgr(36)),
    ;

    /// sets background color to cyan (#00ffff)
    fn bg_cyan(&self) -> (r: String)
        ensures
            r@ == styled(self.shown(), sgr(46)),
    ;

    /// sets text color to white (#ffffff)
    fn text_white(&self) -> (r: String)
        ensures
            r@ == styled(self.shown(), sgr(37)),
    ;

    /// sets background color to white (#ffffff)
    fn bg_white(&self) -> (r: String)
        ensures
            r@ == styled(self.shown(), sgr(47)),
    ;

    // bright shades
    /// sets text color to gray (#808080)
    fn text_gray(&self) -> (r: String)
        ensures
            r@ == styled(self.shown(), sgr(90)),
    ;

    /// sets background color to gray (#808080)
    fn bg_gray(&self) -> (r: String)
        ensures
            r@ == styled(self.shown(), sgr(100)),
    ;

    /// sets text color to bright red (#ff5555)
    fn text_red_bright(&self) -> (r: String)
        ensures
            r@ == styled(self.shown(), sgr(91)),
    ;

    /// sets background color to bright red (#ff5555)
    fn bg_red_bright(&self) -> (r: String)
        ensures
            r@ == styled(self.shown(), sgr(101)),
    ;

    /// sets text color to bright blue (#5555ff)
    fn text_blue_bright(&self) -> (r: String)
        ensures
            r@ == styled(self.shown(), sgr(94)),
    ;

    /// sets background color to bright blue (#5555ff)
    fn bg_blue_bright(&self) -> (r: String)
        ensures
            r@ == styled(self.shown(), sgr(104)),
    ;

    /// sets text color to bright green (#55ff55)
    fn text_green_bright(&self) -> (r: String)
        ensures
            r@ == styled(self.shown(), sgr(92)),
    ;

    /// sets background color to bright green (#55ff55)
    fn bg_green_bright(&self) -> (r: String)
        ensures
            r@ == styled(self.shown(), sgr(102)),
    ;

    /// sets text color to bright yellow (#ffff55)
    fn text_yellow_bright(&self) -> (r: String)
        ensures
            r@ == styled(self.shown(), sgr(93)),
    ;

    /// sets background color to bright yellow (#ffff55)
    fn bg_yellow_bright(&self) -> (r: String)
        ensures
            r@ == styled(self.shown(), sgr(103)),
    ;

    /// sets text color to bright magenta (#ff55ff)
    fn text_magenta_bright(&self) -> (r: String)
        ensures
            r@ == styled(self.shown(), sgr(95)),
    ;

    /// sets background color to bright magenta (#ff55ff)
    fn bg_magenta_bright(&self) -> (r: String)
        ensures
            r@ == styled(self.shown(), sgr(105)),
    ;

    /// sets text color to bright cyan (#55ffff)
    fn text_cyan_bright(&self) -> (r: String)
        ensures
            r@ == styled(self.shown(), sgr(96)),
    ;

    /// sets background color to bright cyan (#55ffff)
    fn bg_cyan_bright(&self) -> (r: String)
        ensures
            r@ == styled(self.shown(), sgr(106)),
    ;

    /// sets text color to bright white (#ffffff)
    fn text_white_bright(&self) -> (r: String)
        ensures
            r@ == styled(self.shown(), sgr(97)),
    ;

    /// sets background color to bright white (#ffffff)
    fn bg_white_bright(&self) -> (r: String)
        ensures
            r@ == styled(self.shown(), sgr(107)),
    ;

    // accent colors - red
    /// sets text color to red-50 (#fef2f2)
    fn text_red_50(&self) -> (r: String)
        ensures
            r@ == styled(self.shown(), sgr_rgb(38, 254, 242, 242)),
    ;

    /// sets background color to red-50 (#fef2f2)
    fn bg_red_50(&self) -> (r: String)
        ensures
            r@ == styled(self.shown(), sgr_rgb(48, 254, 242, 242)),
    ;

    /// sets text color to red-100 (#fee2e2)
    fn text_red_100(&self) -> (r: String)
        ensures
            r@ == styled(self.shown(), sgr_rgb(38, 254, 226, 226)),
    ;

    /// sets background color to red-100 (#fee2e2)
    fn bg_red_100(&self) -> (r: String)
        ensures
            r@ == styled(self.shown(), sgr_rgb(48, 254, 226, 226)),
    ;

    /// sets text color to red-200 (#fecaca)
    fn text_red_200(&self) -> (r: String)
        ensures
            r@ == styled(self.shown(), sgr_rgb(38, 254, 202, 202)),
    ;

    /// sets background color to red-200 (#fecaca)
    fn bg_red_200(&self) -> (r: String)
        ensures
            r@ == styled(self.shown(), sgr_rgb(48, 254, 202, 202)),
    ;

    /// sets text color to red-300 (#fca5a5)
    fn text_red_300(&self) -> (r: String)
        ensures
            r@ == styled(self.shown(), sgr_rgb(38, 252, 165, 165)),
    ;

    /// sets background color to red-300 (#fca5a5)
    fn bg_red_300(&self) -> (r: String)
        ensures
            r@ == styled(self.shown(), sgr_rgb(48, 252, 165, 165)),
    ;

    /// sets text color to red-400 (#f87171)
    fn text_red_400(&self) -> (r: String)
        ensures
            r@ == styled(self.shown(), sgr_rgb(38, 248, 113, 113)),
    ;

    /// sets background color to red-400 (#f87171)
    fn bg_red_400(&self) -> (r: String)
        ensures
            r@ == styled(self.shown(), sgr_rgb(48, 248, 113, 113)),
    ;

    /// sets text color to red-500 (#ef4444)
    fn text_red_500(&self) -> (r: String)
        ensures
            r@ == styled(self.shown(), sgr_rgb(38, 239, 68, 68)),
    ;

    /// sets background color to red-500 (#ef4444)
    fn bg_red_500(&self) -> (r: String)
        ensures
            r@ == styled(self.shown(), sgr_rgb(48, 239, 68, 68)),
    ;

    /// sets text color to red-600 (#dc2626)
    fn text_red_600(&self) -> (r: String)
        ensures
            r@ == styled(self.shown(), sgr_rgb(38, 220, 38, 38)),
    ;

    /// sets background color to red-600 (#dc2626)
    fn bg_red_600(&self) -> (r: String)
        ensures
            r@ == styled(self.shown(), sgr_rgb(48, 220, 38, 38)),
    ;

    /// sets text color to red-700 (#b91c1c)
    fn text_red_700(&self) -> (r: String)
        ensures
            r@ == styled(self.shown(), sgr_rgb(38, 185, 28, 28)),
    ;

    /// sets background color to red-700 (#b91c1c)
    fn bg_red_700(&self) -> (r: String)
        ensures
            r@ == styled(self.shown(), sgr_rgb(48, 185, 28, 28)),
    ;

    /// sets text color to red-800 (#991b1b)
    fn text_red_800(&self) -> (r: String)
        ensures
            r@ == styled(self.shown(), sgr_rgb(38, 153, 27, 27)),
    ;

    /// sets background color to red-800 (#991b1b)
    fn bg_red_800(&self) -> (r: String)
        ensures
            r@ == styled(self.shown(), sgr_rgb(48, 153, 27, 27)),
    ;

    /// sets text color to red-900 (#7f1d1d)
    fn text_red_900(&self) -> (r: String)
        ensures
            r@ == styled(self.shown(), sgr_rgb(38, 127, 29, 29)),
    ;

    /// sets background color to red-900 (#7f1d1d)
    fn bg_red_900(&self) -> (r: String)
        ensures
            r@ == styled(self.shown(), sgr_rgb(48, 127, 29, 29)),
    ;

    /// sets text color to red-950 (#450a0a)
    fn text_red_950(&self) -> (r: String)
        ensures
            r@ == styled(self.shown(), sgr_rgb(38, 69, 10, 10)),
    ;

    /// sets background color to red-950 (#450a0a)
    fn bg_red_950(&self) -> (r: String)
        ensures
            r@ == styled(self.shown(), sgr_rgb(48, 69, 10, 10)),
    ;

    // accent colors - yellow
    /// sets text color to yellow-50 (#fefce8)
    fn text_yellow_50(&self) -> (r: String)
        ensures
            r@ == styled(self.shown(), sgr_rgb(38, 254, 252, 232)),
    ;

    /// sets background color to yellow-50 (#fefce8)
    fn bg_yellow_50(&self) -> (r: String)
        ensures
            r@ == styled(self.shown(), sgr_rgb(48, 254, 252, 232)),
    ;

    /// sets text color to yellow-100 (#fef9c3)
    fn text_yellow_100(&self) -> (r: String)
        ensures
            r@ == styled(self.shown(), sgr_rgb(38, 254, 249, 195)),
    ;

    /// sets background color to yellow-100 (#fef9c3)
    fn bg_yellow_100(&self) -> (r: String)
        ensures
            r@ == styled(self.shown(), sgr_rgb(48, 254, 249, 195)),
    ;

    /// sets text color to yellow-200 (#fef08a)
    fn text_yellow_200(&self) -> (r: String)
        ensures
            r@ == styled(self.shown(), sgr_rgb(38, 254, 240, 138)),
    ;

    /// sets background color to yellow-200 (#fef08a)
    fn bg_yellow_200(&self) -> (r: String)
        ensures
            r@ == styled(self.shown(), sgr_rgb(48, 254, 240, 138)),
    ;

    /// sets text color to yellow-300 (#fde047)
    fn text_yellow_300(&self) -> (r: String)
        ensures
            r@ == styled(self.shown(), sgr_rgb(38, 253, 224, 71)),
    ;

    /// sets background color to yellow-300 (#fde047)
    fn bg_yellow_300(&self) -> (r: String)
        ensures
            r@ == styled(self.shown(), sgr_rgb(48, 253, 224, 71)),
    ;

    /// sets text color to yellow-400 (#facc15)
    fn text_yellow_400(&self) -> (r: String)
        ensures
            r@ == styled(self.shown(), sgr_rgb(38, 250, 204, 21)),
    ;

    /// sets background color to yellow-400 (#facc15)
    fn bg_yellow_400(&self) -> (r: String)
        ensures
            r@ == styled(self.shown(), sgr_rgb(48, 250, 204, 21)),
    ;

    /// sets text color to yellow-500 (#eab308)
    fn text_yellow_500(&self) -> (r: String)
        ensures
            r@ == styled(self.shown(), sgr_rgb(38, 234, 179, 8)),
    ;

    /// sets background color to yellow-500 (#eab308)
    fn bg_yellow_500(&self) -> (r: String)
        ensures
            r@ == styled(self.shown(), sgr_rgb(48, 234, 179, 8)),
    ;

    /// sets text color to yellow-600 (#ca8a04)
    fn text_yellow_600(&self) -> (r: String)
        ensures
            r@ == styled(self.shown(), sgr_rgb(38, 202, 138, 4)),
    ;

    /// sets background color to yellow-600 (#ca8a04)
    fn bg_yellow_600(&self) -> (r: String)
        ensures
            r@ == styled(self.shown(), sgr_rgb(48, 202, 138, 4)),
    ;

    /// sets text color to yellow-700 (#a16207)
    fn text_yellow_700(&self) -> (r: String)
        ensures
            r@ == styled(self.shown(), sgr_rgb(38, 161, 98, 7)),
    ;

    /// sets background color to yellow-700 (#a16207)
    fn bg_yellow_700(&self) -> (r: String)
        ensures
            r@ == styled(self.shown(), sgr_rgb(48, 161, 98, 7)),
    ;

    /// sets text color to yellow-800 (#854d0e)
    fn text_yellow_800(&self) -> (r: String)
        ensures
            r@ == styled(self.shown(), sgr_rgb(38, 133, 77, 14)),
    ;

    /// sets background color to yellow-800 (#854d0e)
    fn bg_yellow_800(&self) -> (r: String)
        ensures
            r@ == styled(self.shown(), sgr_rgb(48, 133, 77, 14)),
    ;

    /// sets text color to yellow-900 (#713f12)
    fn text_yellow_900(&self) -> (r: String)
        ensures
            r@ == styled(self.shown(), sgr_rgb(38, 113, 63, 18)),
    ;

    /// sets background color to yellow-900 (#713f12)
    fn bg_yellow_900(&self) -> (r: String)
        ensures
            r@ == styled(self.shown(), sgr_rgb(48, 113, 63, 18)),
    ;

    /// sets text color to yellow-950 (#422006)
    fn text_yellow_950(&self) -> (r: String)
        ensures
            r@ == styled(self.shown(), sgr_rgb(38, 66, 32, 6)),
    ;

    /// sets background color to yellow-950 (#422006)
    fn bg_yellow_950(&self) -> (r: String)
        ensures
            r@ == styled(self.shown(), sgr_rgb(48, 66, 32, 6)),
    ;

    // accent colors - green
    /// sets text color to green-50 (#f0fdf4)
    fn text_green_50(&self) -> (r: String)
        ensures
            r@ == styled(self.shown(), sgr_rgb(38, 240, 253, 244)),
    ;

    /// sets background color to green-50 (#f0fdf4)
    fn bg_green_50(&self) -> (r: String)
        ensures
            r@ == styled(self.shown(), sgr_rgb(48, 240, 253, 244)),
    ;

    /// sets text color to green-100 (#dcfce7)
    fn text_green_100(&self) -> (r: String)
        ensures
            r@ == styled(self.shown(), sgr_rgb(38, 220, 252, 231)),
    ;

    /// sets background color to green-100 (#dcfce7)
    fn bg_green_100(&self) -> (r: String)
        ensures
            r@ == styled(self.shown(), sgr_rgb(48, 220, 252, 231)),
    ;

    /// sets text color to green-200 (#bbf7d0)
    fn text_green_200(&self) -> (r: String)
        ensures
            r@ == styled(self.shown(), sgr_rgb(38, 187, 247, 208)),
    ;

    /// sets background color to green-200 (#bbf7d0)
    fn bg_green_200(&self) -> (r: String)
        ensures
            r@ == styled(self.shown(), sgr_rgb(48, 187, 247, 208)),
    ;

    /// sets text color to green-300 (#86efac)
    fn text_green_300(&self) -> (r: String)
        ensures
            r@ == styled(self.shown(), sgr_rgb(38, 134, 239, 172)),
    ;

    /// sets background color to green-300 (#86efac)
    fn bg_green_300(&self) -> (r: String)
        ensures
            r@ == styled(self.shown(), sgr_rgb(48, 134, 239, 172)),
    ;

    /// sets text color to green-400 (#4ade80)
    fn text_green_400(&self) -> (r: String)
        ensures
            r@ == styled(self.shown(), sgr_rgb(38, 74, 222, 128)),
    ;

    /// sets background color to green-400 (#4ade80)
    fn bg_green_400(&self) -> (r: String)
        ensures
            r@ == styled(self.shown(), sgr_rgb(48, 74, 222, 128)),
    ;

    /// sets text color to green-500 (#22c55e)
    fn text_green_500(&self) -> (r: String)
        ensures
            r@ == styled(self.shown(), sgr_rgb(38, 34, 197, 94)),
    ;

    /// sets background color to green-500 (#22c55e)
    fn bg_green_500(&self) -> (r: String)
        ensures
            r@ == styled(self.shown(), sgr_rgb(48, 34, 197, 94)),
    ;

    /// sets text color to green-600 (#16a34a)
    fn text_green_600(&self) -> (r: String)
        ensures
            r@ == styled(self.shown(), sgr_rgb(38, 22, 163, 74)),
    ;

    /// sets background color to green-600 (#16a34a)
    fn bg_green_600(&self) -> (r: String)
        ensures
            r@ == styled(self.shown(), sgr_rgb(48, 22, 163, 74)),
    ;

    /// sets text color to green-700 (#15803d)
    fn text_green_700(&self) -> (r: String)
        ensures
            r@ == styled(self.shown(), sgr_rgb(38, 21, 128, 61)),
    ;

    /// sets background color to green-700 (#15803d)
    fn bg_green_700(&self) -> (r: String)
        ensures
            r@ == styled(self.shown(), sgr_rgb(48, 21, 128, 61)),
    ;

    /// sets text color to green-800 (#166534)
    fn text_green_800(&self) -> (r: String)
        ensures
            r@ == styled(self.shown(), sgr_rgb(38, 22, 101, 52)),
    ;

    /// sets background color to green-800 (#166534)
    fn bg_green_800(&self) -> (r: String)
        ensures
            r@ == styled(self.shown(), sgr_rgb(48, 22, 101, 52)),
    ;

    /// sets text color to green-900 (#14532d)
    fn text_green_900(&self) -> (r: String)
        ensures
            r@ == styled(self.shown(), sgr_rgb(38, 20, 83, 45)),
    ;

    /// sets background color to green-900 (#14532d)
    fn bg_green_900(&self) -> (r: String)
        ensures
            r@ == styled(self.shown(), sgr_rgb(48, 20, 83, 45)),
    ;

    /// sets text color to green-950 (#052e16)
    fn text_green_950(&self) -> (r: String)
        ensures
            r@ == styled(self.shown(), sgr_rgb(38, 5, 46, 22)),
    ;

    /// sets background color to green-950 (#052e16)
    fn bg_green_950(&self) -> (r: String)
        ensures
            r@ == styled(self.shown(), sgr_rgb(48, 5, 46, 22)),
    ;

    // accent colors - blue
    /// sets text color to blue-50 (#eff6ff)
    fn text_blue_50(&self) -> (r: String)
        ensures
            r@ == styled(self.shown(), sgr_rgb(38, 239, 246, 255)),
    ;

    /// sets background color to blue-50 (#eff6ff)
    fn bg_blue_50(&self) -> (r: String)
        ensures
            r@ == styled(self.shown(), sgr_rgb(48, 239, 246, 255)),
    ;

    /// sets text color to blue-100 (#dbeafe)
    fn text_blue_100(&self) -> (r: String)
        ensures
            r@ == styled(self.shown(), sgr_rgb(38, 219, 234, 254)),
    ;

    /// sets background color to blue-100 (#dbeafe)
    fn bg_blue_100(&self) -> (r: String)
        ensures
            r@ == styled(self.shown(), sgr_rgb(48, 219, 234, 254)),
    ;

    /// sets text color to blue-200 (#bfdbfe)
    fn text_blue_200(&self) -> (r: String)
        ensures
            r@ == styled(self.shown(), sgr_rgb(38, 191, 219, 254)),
    ;

    /// sets background color to blue-200 (#bfdbfe)
    fn bg_blue_200(&self) -> (r: String)
        ensures
            r@ == styled(self.shown(), sgr_rgb(48, 191, 219, 254)),
    ;

    /// sets text color to blue-300 (#93c5fd)
    fn text_blue_300(&self) -> (r: String)
        ensures
            r@ == styled(self.shown(), sgr_rgb(38, 147, 197, 253)),
    ;

    /// sets background color to blue-300 (#93c5fd)
    fn bg_blue_300(&self) -> (r: String)
        ensures
            r@ == styled(self.shown(), sgr_rgb(48, 147, 197, 253)),
    ;

    /// sets text color to blue-400 (#60a5fa)
    fn text_blue_400(&self) -> (r: String)
        ensures
            r@ == styled(self.shown(), sgr_rgb(38, 96, 165, 250)),
    ;

    /// sets background color to blue-400 (#60a5fa)
    fn bg_blue_400(&self) -> (r: String)
        ensures
            r@ == styled(self.shown(), sgr_rgb(48, 96, 165, 250)),
    ;

    /// sets text color to blue-500 (#3b82f6)
    fn text_blue_500(&self) -> (r: String)
        ensures
            r@ == styled(self.shown(), sgr_rgb(38, 59, 130, 246)),
    ;

    /// sets background color to blue-500 (#3b82f6)
    fn bg_blue_500(&self) -> (r: String)
        ensures
            r@ == styled(self.shown(), sgr_rgb(48, 59, 130, 246)),
    ;

    /// sets text color to blue-600 (#2563eb)
    fn text_blue_600(&self) -> (r: String)
        ensures
            r@ == styled(self.shown(), sgr_rgb(38, 37, 99, 235)),
    ;

    /// sets background color to blue-600 (#2563eb)
    fn bg_blue_600(&self) -> (r: String)
        ensures
            r@ == styled(self.shown(), sgr_rgb(48, 37, 99, 235)),
    ;

    /// sets text color to blue-700 (#1d4ed8)
    fn text_blue_700(&self) -> (r: String)
        ensures
            r@ == styled(self.shown(), sgr_rgb(38, 29, 78, 216)),
    ;

    /// sets background color to blue-700 (#1d4ed8)
    fn bg_blue_700(&self) -> (r: String)
        ensures
            r@ == styled(self.shown(), sgr_rgb(48, 29, 78, 216)),
    ;

    /// sets text color to blue-800 (#1e40af)
    fn text_blue_800(&self) -> (r: String)
        ensures
            r@ == styled(self.shown(), sgr_rgb(38, 30, 64, 175)),
    ;

    /// sets background color to blue-800 (#1e40af)
    fn bg_blue_800(&self) -> (r: String)
        ensures
            r@ == styled(self.shown(), sgr_rgb(48, 30, 64, 175)),
    ;

    /// sets text color to blue-900 (#1e3a8a)
    fn text_blue_900(&self) -> (r: String)
        ensures
            r@ == styled(self.shown(), sgr_rgb(38, 30, 58, 138)),
    ;

    /// sets background color to blue-900 (#1e3a8a)
    fn bg_blue_900(&self) -> (r: String)
        ensures
            r@ == styled(self.shown(), sgr_rgb(48, 30, 58, 138)),
    ;

    /// sets text color to blue-950 (#172554)
    fn text_blue_950(&self) -> (r: String)
        ensures
            r@ == styled(self.shown(), sgr_rgb(38, 23, 37, 84)),
    ;

    /// sets background color to blue-950 (#172554)
    fn bg_blue_950(&self) -> (r: String)
        ensures
            r@ == styled(self.shown(), sgr_rgb(48, 23, 37, 84)),
    ;

    // accent colors - purple
    /// sets text color to purple-50 (#faf5ff)
    fn text_purple_50(&self) -> (r: String)
        ensures
            r@ == styled(self.shown(), sgr_rgb(38, 250, 245, 255)),
    ;

    /// sets background color to purple-50 (#faf5ff)
    fn bg_purple_50(&self) -> (r: String)
        ensures
            r@ == styled(self.shown(), sgr_rgb(48, 250, 245, 255)),
    ;

    /// sets text color to purple-100 (#f3e8ff)
    fn text_purple_100(&self) -> (r: String)
        ensures
            r@ == styled(self.shown(), sgr_rgb(38, 243, 232, 255)),
    ;

    /// sets background color to purple-100 (#f3e8ff)
    fn bg_purple_100(&self) -> (r: String)
        ensures
            r@ == styled(self.shown(), sgr_rgb(48, 243, 232, 255)),
    ;

    /// sets text color to purple-200 (#e9d5ff)
    fn text_purple_200(&self) -> (r: String)
        ensures
            r@ == styled(self.shown(), sgr_rgb(38, 233, 213, 255)),
    ;

    /// sets background color to purple-200 (#e9d5ff)
    fn bg_purple_200(&self) -> (r: String)
        ensures
            r@ == styled(self.shown(), sgr_rgb(48, 233, 213, 255)),
    ;

    /// sets text color to purple-300 (#d8b4fe)
    fn text_purple_300(&self) -> (r: String)
        ensures
            r@ == styled(self.shown(), sgr_rgb(38, 216, 180, 254)),
    ;

    /// sets background color to purple-300 (#d8b4fe)
    fn bg_purple_300(&self) -> (r: String)
        ensures
            r@ == styled(self.shown(), sgr_rgb(48, 216, 180, 254)),
    ;

    /// sets text color to purple-400 (#c084fc)
    fn text_purple_400(&self) -> (r: String)
        ensures
            r@ == styled(self.shown(), sgr_rgb(38, 192, 132, 252)),
    ;

    /// sets background color to purple-400 (#c084fc)
    fn bg_purple_400(&self) -> (r: String)
        ensures
            r@ == styled(self.shown(), sgr_rgb(48, 192, 132, 252)),
    ;

    /// sets text color to purple-500 (#a855f7)
    fn text_purple_500(&self) -> (r: String)
        ensures
            r@ == styled(self.shown(), sgr_rgb(38, 168, 85, 247)),
    ;

    /// sets background color to purple-500 (#a855f7)
    fn bg_purple_500(&self) -> (r: String)
        ensures
            r@ == styled(self.shown(), sgr_rgb(48, 168, 85, 247)),
    ;

    /// sets text color to purple-600 (#9333ea)
    fn text_purple_600(&self) -> (r: String)
        ensures
            r@ == styled(self.shown(), sgr_rgb(38, 147, 51, 234)),
    ;

    /// sets background color to purple-600 (#9333ea)
    fn bg_purple_600(&self) -> (r: String)
        ensures
            r@ == styled(self.shown(), sgr_rgb(48, 147, 51, 234)),
    ;

    /// sets text color to purple-700 (#7e22ce)
    fn text_purple_700(&self) -> (r: String)
        ensures
            r@ == styled(self.shown(), sgr_rgb(38, 126, 34, 206)),
    ;

    /// sets background color to purple-700 (#7e22ce)
    fn bg_purple_700(&self) -> (r: String)
        ensures
            r@ == styled(self.shown(), sgr_rgb(48, 126, 34, 206)),
    ;

    /// sets text color to purple-800 (#6b21a8)
    fn text_purple_800(&self) -> (r: String)
        ensures
            r@ == styled(self.shown(), sgr_rgb(38, 107, 33, 168)),
    ;

    /// sets background color to purple-800 (#6b21a8)
    fn bg_purple_800(&self) -> (r: String)
        ensures
            r@ == styled(self.shown(), sgr_rgb(48, 107, 33, 168)),
    ;

    /// sets text color to purple-900 (#581c87)
    fn text_purple_900(&self) -> (r: String)
        ensures
            r@ == styled(self.shown(), sgr_rgb(38, 88, 28, 135)),
    ;

    /// sets background color to purple-900 (#581c87)
    fn bg_purple_900(&self) -> (r: String)
        ensures
            r@ == styled(self.shown(), sgr_rgb(48, 88, 28, 135)),
    ;

    /// sets text color to purple-950 (#3b0764)
    fn text_purple_950(&self) -> (r: String)
        ensures
            r@ == styled(self.shown(), sgr_rgb(38, 59, 7, 100)),
    ;

    /// sets background color to purple-950 (#3b0764)
    fn bg_purple_950(&self) -> (r: String)
        ensures
            r@ == styled(self.shown(), sgr_rgb(48, 59, 7, 100)),
    ;

    // accent colors - pink
    /// sets text color to pink-50 (#fdf2f8)
    fn text_pink_50(&self) -> (r: String)
        ensures
            r@ == styled(self.shown(), sgr_rgb(38, 253, 242, 248)),
    ;

    /// sets background color to pink-50 (#fdf2f8)
    fn bg_pink_50(&self) -> (r: String)
        ensures
            r@ == styled(self.shown(), sgr_rgb(48, 253, 242, 248)),
    ;

    /// sets text color to pink-100 (#fce7f3)
    fn text_pink_100(&self) -> (r: String)
        ensures
            r@ == styled(self.shown(), sgr_rgb(38, 252, 231, 243)),
    ;

    /// sets background color to pink-100 (#fce7f3)
    fn bg_pink_100(&self) -> (r: String)
        ensures
            r@ == styled(self.shown(), sgr_rgb(48, 252, 231, 243)),
    ;

    /// sets text color to pink-200 (#fbcfe8)
    fn text_pink_200(&self) -> (r: String)
        ensures
            r@ == styled(self.shown(), sgr_rgb(38, 251, 207, 232)),
    ;

    /// sets background color to pink-200 (#fbcfe8)
    fn bg_pink_200(&self) -> (r: String)
        ensures
            r@ == styled(self.shown(), sgr_rgb(48, 251, 207, 232)),
    ;

    /// sets text color to pink-300 (#f9a8d4)
    fn text_pink_300(&self) -> (r: String)
        ensures
            r@ == styled(self.shown(), sgr_rgb(38, 249, 168, 212)),
    ;

    /// sets background color to pink-300 (#f9a8d4)
    fn bg_pink_300(&self) -> (r: String)
        ensures
            r@ == styled(self.shown(), sgr_rgb(48, 249, 168, 212)),
    ;

    /// sets text color to pink-400 (#f472b6)
    fn text_pink_400(&self) -> (r: String)
        ensures
            r@ == styled(self.shown(), sgr_rgb(38, 244, 114, 182)),
    ;

    /// sets background color to pink-400 (#f472b6)
    fn bg_pink_400(&self) -> (r: String)
        ensures
            r@ == styled(self.shown(), sgr_rgb(48, 244, 114, 182)),
    ;

    /// sets text color to pink-500 (#ec4899)
    fn text_pink_500(&self) -> (r: String)
        ensures
            r@ == styled(self.shown(), sgr_rgb(38, 236, 72, 153)),
    ;

    /// sets background color to pink-500 (#ec4899)
    fn bg_pink_500(&self) -> (r: String)
        ensures
            r@ == styled(self.shown(), sgr_rgb(48, 236, 72, 153)),
    ;

    /// sets text color to pink-600 (#db2777)
    fn text_pink_600(&self) -> (r: String)
        ensures
            r@ == styled(self.shown(), sgr_rgb(38, 219, 39, 119)),
    ;

    /// sets background color to pink-600 (#db2777)
    fn bg_pink_600(&self) -> (r: String)
        ensures
            r@ == styled(self.shown(), sgr_rgb(48, 219, 39, 119)),
    ;

    /// sets text color to pink-700 (#be185d)
    fn text_pink_700(&self) -> (r: String)
        ensures
            r@ == styled(self.shown(), sgr_rgb(38, 190, 24, 93)),
    ;

    /// sets background color to pink-700 (#be185d)
    fn bg_pink_700(&self) -> (r: String)
        ensures
            r@ == styled(self.shown(), sgr_rgb(48, 190, 24, 93)),
    ;

    /// sets text color to pink-800 (#9d174d)
    fn text_pink_800(&self) -> (r: String)
        ensures
            r@ == styled(self.shown(), sgr_rgb(38, 157, 23, 77)),
    ;

    /// sets background color to pink-800 (#9d174d)
    fn bg_pink_800(&self) -> (r: String)
        ensures
            r@ == styled(self.shown(), sgr_rgb(48, 157, 23, 77)),
    ;

    /// sets text color to pink-900 (#831843)
    fn text_pink_900(&self) -> (r: String)
        ensures
            r@ == styled(self.shown(), sgr_rgb(38, 131, 24, 67)),
    ;

    /// sets background color to pink-900 (#831843)
    fn bg_pink_900(&self) -> (r: String)
        ensures
            r@ == styled(self.shown(), sgr_rgb(48, 131, 24, 67)),
    ;

    /// sets text color to pink-950 (#500724)
    fn text_pink_950(&self) -> (r: String)
        ensures
            r@ == styled(self.shown(), sgr_rgb(38, 80, 7, 36)),
    ;

    /// sets background color to pink-950 (#500724)
    fn bg_pink_950(&self) -> (r: String)
        ensures
            r@ == styled(self.shown(), sgr_rgb(48, 80, 7, 36)),
    ;

    // accent colors - black/gray
    /// sets text color to black-50 (#f9fafb)
    fn text_black_50(&self) -> (r: String)
        ensures
            r@ == styled(self.shown(), sgr_rgb(38, 249, 250, 251)),
    ;

    /// sets background color to black-50 (#f9fafb)
    fn bg_black_50(&self) -> (r: String)
        ensures
            r@ == styled(self.shown(), sgr_rgb(48, 249, 250, 251)),
    ;

    /// sets text color to black-100 (#f3f4f6)
    fn text_black_100(&self) -> (r: String)
        ensures
            r@ == styled(self.shown(), sgr_rgb(38, 243, 244, 246)),
    ;

    /// sets background color to black-100 (#f3f4f6)
    fn bg_black_100(&self) -> (r: String)
        ensures
            r@ == styled(self.shown(), sgr_rgb(48, 243, 244, 246)),
    ;

    /// sets text color to black-200 (#e5e7eb)
    fn text_black_200(&self) -> (r: String)
        ensures
            r@ == styled(self.shown(), sgr_rgb(38, 229, 231, 235)),
    ;

    /// sets background color to black-200 (#e5e7eb)
    fn bg_black_200(&self) -> (r: String)
        ensures
            r@ == styled(self.shown(), sgr_rgb(48, 229, 231, 235)),
    ;

    /// sets text color to black-300 (#d1d5db)
    fn text_black_300(&self) -> (r: String)
        ensures
            r@ == styled(self.shown(), sgr_rgb(38, 209, 213, 219)),
    ;

    /// sets background color to black-300 (#d1d5db)
    fn bg_black_300(&self) -> (r: String)
        ensures
            r@ == styled(self.shown(), sgr_rgb(48, 209, 213, 219)),
    ;

    /// sets text color to black-400 (#9ca3af)
    fn text_black_400(&self) -> (r: String)
        ensures
            r@ == styled(self.shown(), sgr_rgb(38, 156, 163, 175)),
    ;

    /// sets background color to black-400 (#9ca3af)
    fn bg_black_400(&self) -> (r: String)
        ensures
            r@ == styled(self.shown(), sgr_rgb(48, 156, 163, 175)),
    ;

    /// sets text color to black-500 (#6b7280)
    fn text_black_500(&self) -> (r: String)
        ensures
            r@ == styled(self.shown(), sgr_rgb(38, 107, 114, 128)),
    ;

    /// sets background color to black-500 (#6b7280)
    fn bg_black_500(&self) -> (r: String)
        ensures
            r@ == styled(self.shown(), sgr_rgb(48, 107, 114, 128)),
    ;

    /// sets text color to black-600 (#4b5563)
    fn text_black_600(&self) -> (r: String)
        ensures
            r@ == styled(self.shown(), sgr_rgb(38, 75, 85, 99)),
    ;

    /// sets background color to black-600 (#4b5563)
    fn bg_black_600(&self) -> (r: String)
        ensures
            r@ == styled(self.shown(), sgr_rgb(48, 75, 85, 99)),
    ;

    /// sets text color to black-700 (#374151)
    fn text_black_700(&self) -> (r: String)
        ensures
            r@ == styled(self.shown(), sgr_rgb(38, 55, 65, 81)),
    ;

    /// sets background color to black-700 (#374151)
    fn bg_black_700(&self) -> (r: String)
        ensures
            r@ == styled(self.shown(), sgr_rgb(48, 55, 65, 81)),
    ;

    /// sets text color to black-800 (#1f2937)
    fn text_black_800(&self) -> (r: String)
        ensures
            r@ == styled(self.shown(), sgr_rgb(38, 31, 41, 55)),
    ;

    /// sets background color to black-800 (#1f2937)
    fn bg_black_800(&self) -> (r: String)
        ensures
            r@ == styled(self.shown(), sgr_rgb(48, 31, 41, 55)),
    ;

    /// sets text color to black-900 (#111827)
    fn text_black_900(&self) -> (r: String)
        ensures
            r@ == styled(self.shown(), sgr_rgb(38, 17, 24, 39)),
    ;

    /// sets background color to black-900 (#111827)
    fn bg_black_900(&self) -> (r: String)
        ensures
            r@ == styled(self.shown(), sgr_rgb(48, 17, 24, 39)),
    ;

    /// sets text color to black-950 (#030712)
    fn text_black_950(&self) -> (r: String)
        ensures
            r@ == styled(self.shown(), sgr_rgb(38, 3, 7, 18)),
    ;

    /// sets background color to black-950 (#030712)
    fn bg_black_950(&self) -> (r: String)
        ensures
            r@ == styled(self.shown(), sgr_rgb(48, 3, 7, 18)),
    ;

    // gradient colors
    /// give the text gradient color by describing gradient steps
    /// steps can be hexagonal (`#f40420`) or rgb (`rgb(244, 4, 32)`) colors;
    /// other steps, accent names included, are skipped, and with fewer than
    /// two colors left the text is returned unchanged
    ///
    /// it's better to use with longer texts for better results
    ///
    /// example:
    /// ```rs
    /// println!("{}", "hi!".text_gradient(&["#f40420", "rgb(59, 130, 246)"]))
    /// ```
    fn text_gradient(&self, steps: &[&'static str]) -> (r: String)
        ensures
            r@ == gradient_text(self.shown(), token_views(steps@), Target::Foreground),
    ;

    /// give the background gradient color by describing gradient steps
    /// steps can be hexagonal (`#f40420`) or rgb (`rgb(244, 4, 32)`) colors;
    /// other steps, accent names included, are skipped, and with fewer than
    /// two colors left the text is returned unchanged
    ///
    /// it's better to use with longer texts for better results
    ///
    /// example:
    /// ```rs
    /// println!("{}", "hi!".bg_gradient(&["#f40420", "rgb(59, 130, 246)"]))
    /// ```
    fn bg_gradient(&self, steps: &[&'static str]) -> (r: String)
        ensures
            r@ == gradient_text(self.shown(), token_views(steps@), Target::Background),
    ;

    /// Makes text bold
    fn bold(&self) -> (r: String)
        ensures
            r@ == styled(self.shown(), sgr(1)),
    ;

    /// Makes text italic
    fn italic(&self) -> (r: String)
        ensures
            r@ == styled(self.shown(), sgr(3)),
    ;

    /// Adds underline to text
    fn underline(&self) -> (r: String)
        ensures
            r@ == styled(self.shown(), sgr(4)),
    ;

    /// Adds strikethrough to text
    fn strikethrough(&self) -> (r: String)
        ensures
            r@ == styled(self.shown(), sgr(9)),
    ;

    /// Makes text appear dimmer
    fn dim(&self) -> (r: String)
        ensures
            r@ == styled(self.shown(), sgr(2)),
    ;

    /// Makes text blink
    fn blink(&self) -> (r: String)
        ensures
            r@ == styled(self.shown(), sgr(5)),
    ;

    /// Swaps foreground and background colors
    fn reverse(&self) -> (r: String)
        ensures
            r@ == styled(self.shown(), sgr(7)),
    ;

    /// Makes text blink rapidly
    fn blink_fast(&self) -> (r: String)
        ensures
            r@ == sgr(6) + self.shown() + reset(),
    ;

    /// Makes text blink slowly
    fn blink_slow(&self) -> (r: String)
        ensures
            r@ == sgr(5) + self.shown() + reset(),
    ;

    /// Creates a fade-in effect using different brightness levels
    fn fade_in(&self) -> (r: String)
        ensures
            r@ == faded(self.shown(), true),
    ;

    /// Creates a fade-out effect using different brightness levels
    fn fade_out(&self) -> (r: String)
        ensures
            r@ == faded(self.shown(), false),
    ;

    /// Pads text with spaces on the left to reach given width
    fn pad_left(&self, width: usize) -> (r: String)
        ensures
            r@ == padded_left(self.shown(), width as nat),
    ;

    /// Pads text with spaces on the right to reach given width
    fn pad_right(&self, width: usize) -> (r: String)
        ensures
            r@ == padded_right(self.shown(), width as nat),
    ;

    /// Centers text within specified width
    fn center(&self, width: usize) -> (r: String)
        ensures
            r@ == centered(self.shown(), width as nat),
    ;

    /// Surrounds text with a box
    fn box_it(&self) -> (r: String)
        ensures
            r@ == framed(self.shown(), square_frame()),
    ;

    /// Adds a single-line border around text
    fn border(&self) -> (r: String)
        ensures
            r@ == framed(self.shown(), rounded_frame()),
    ;

    /// Adds a double-line border around text
    fn double_border(&self) -> (r: String)
        ensures
            r@ == framed(self.shown(), double_frame()),
    ;

    // helpers
    /// Styles the text with `ESC [ code m`, keeping the segments that are already styled.
    fn code(&self, code: usize) -> (r: String)
        ensures
            r@ == styled(self.shown(), sgr(code as nat)),
    ;

    /// Styles the text with a 24-bit color, `ESC [ initial ; 2 ; r ; g ; b m`,
    /// keeping the segments that are already styled.
    fn codes(&self, initial: usize, codes: (usize, usize, usize)) -> (r: String)
        ensures
            r@ == styled(
                self.shown(),
                sgr_rgb(initial as nat, codes.0 as nat, codes.1 as nat, codes.2 as nat),
            ),
    ;
}

impl Colors for str {
    open spec fn shown(&self) -> Seq<char> {
        self@
    }

    fn text_default(&self) -> (r: String) {
        self.code(39)
    }

    fn bg_default(&self) -> (r: String) {
        self.code(49)
    }

    fn text_black(&self) -> (r: String) {
        self.code(30)
    }

    fn bg_black(&self) -> (r: String) {
        self.code(40)
    }

    fn text_red(&self) -> (r: String) {
        self.code(31)
    }

    fn bg_red(&self) -> (r: String) {
        self.code(41)
    }

    fn text_blue(&self) -> (r: String) {
        self.code(34)
    }

    fn bg_blue(&self) -> (r: String) {
        self.code(44)
    }

    fn text_green(&self) -> (r: String) {
        self.code(32)
    }

    fn bg_green(&self) -> (r: String) {
        self.code(42)
    }

    fn text_yellow(&self) -> (r: String) {
        self.code(33)
    }

    fn bg_yellow(&self) -> (r: String) {
        self.code(43)
    }

    fn text_magenta(&self) -> (r: String) {
        self.code(35)
    }

    fn bg_magenta(&self) -> (r: String) {
        self.code(45)
    }

    fn text_cyan(&self) -> (r: String) {
        self.code(36)
    }

    fn bg_cyan(&self) -> (r: String) {
        self.code(46)
    }

    fn text_white(&self) -> (r: String) {
        self.code(37)
    }

    fn bg_white(&self) -> (r: String) {
        self.code(47)
    }

    fn text_gray(&self) -> (r: String) {
        self.code(90)
    }

    fn bg_gray(&self) -> (r: String) {
        self.code(100)
    }

    fn text_red_bright(&self) -> (r: String) {
        self.code(91)
    }

    fn bg_red_bright(&self) -> (r: String) {
        self.code(101)
    }

    fn text_blue_bright(&self) -> (r: String) {
        self.code(94)
    }

    fn bg_blue_bright(&self) -> (r: String) {
        self.code(104)
    }

    fn text_green_bright(&self) -> (r: String) {
        self.code(92)
    }

    fn bg_green_bright(&self) -> (r: String) {
        self.code(102)
    }

    fn text_yellow_bright(&self) -> (r: String) {
        self.code(93)
    }

    fn bg_yellow_bright(&self) -> (r: String) {
        self.code(103)
    }

    fn text_magenta_bright(&self) -> (r: String) {
        self.code(95)
    }

    fn bg_magenta_bright(&self) -> (r: String) {
        self.code(105)
    }

    fn text_cyan_bright(&self) -> (r: String) {
        self.code(96)
    }

    fn bg_cyan_bright(&self) -> (r: String) {
        self.code(106)
    }

    fn text_white_bright(&self) -> (r: String) {
        self.code(97)
    }

    fn bg_white_bright(&self) -> (r: String) {
        self.code(107)
    }

    fn text_red_50(&self) -> (r: String) {
        self.codes(38, (254, 242, 242))
    }

    fn bg_red_50(&self) -> (r: String) {
        self.codes(48, (254, 242, 242))
    }

    fn text_red_100(&self) -> (r: String) {
        self.codes(38, (254, 226, 226))
    }

    fn bg_red_100(&self) -> (r: String) {
        self.codes(48, (254, 226, 226))
    }

    fn text_red_200(&self) -> (r: String) {
        self.codes(38, (254, 202, 202))
    }

    fn bg_red_200(&self) -> (r: String) {
        self.codes(48, (254, 202, 202))
    }

    fn text_red_300(&self) -> (r: String) {
        self.codes(38, (252, 165, 165))
    }

    fn bg_red_300(&self) -> (r: String) {
        self.codes(48, (252, 165, 165))
    }

    fn text_red_400(&self) -> (r: String) {
        self.codes(38, (248, 113, 113))
    }

    fn bg_red_400(&self) -> (r: String) {
        self.codes(48, (248, 113, 113))
    }

    fn text_red_500(&self) -> (r: String) {
        self.codes(38, (239, 68, 68))
    }

    fn bg_red_500(&self) -> (r: String) {
        self.codes(48, (239, 68, 68))
    }

    fn text_red_600(&self) -> (r: String) {
        self.codes(38, (220, 38, 38))
    }

    fn bg_red_600(&self) -> (r: String) {
        self.codes(48, (220, 38, 38))
    }

    fn text_red_700(&self) -> (r: String) {
        self.codes(38, (185, 28, 28))
    }

    fn bg_red_700(&self) -> (r: String) {
        self.codes(48, (185, 28, 28))
    }

    fn text_red_800(&self) -> (r: String) {
        self.codes(38, (153, 27, 27))
    }

    fn bg_red_800(&self) -> (r: String) {
        self.codes(48, (153, 27, 27))
    }

    fn text_red_900(&self) -> (r: String) {
        self.codes(38, (127, 29, 29))
    }

    fn bg_red_900(&self) -> (r: String) {
        self.codes(48, (127, 29, 29))
    }

    fn text_red_950(&self) -> (r: String) {
        self.codes(38, (69, 10, 10))
    }

    fn bg_red_950(&self) -> (r: String) {
        self.codes(48, (69, 10, 10))
    }

    fn text_yellow_50(&self) -> (r: String) {
        self.codes(38, (254, 252, 232))
    }

    fn bg_yellow_50(&self) -> (r: String) {
        self.codes(48, (254, 252, 232))
    }

    fn text_yellow_100(&self) -> (r: String) {
        self.codes(38, (254, 249, 195))
    }

    fn bg_yellow_100(&self) -> (r: String) {
        self.codes(48, (254, 249, 195))
    }

    fn text_yellow_200(&self) -> (r: String) {
        self.codes(38, (254, 240, 138))
    }

    fn bg_yellow_200(&self) -> (r: String) {
        self.codes(48, (254, 240, 138))
    }

    fn text_yellow_300(&self) -> (r: String) {
        self.codes(38, (253, 224, 71))
    }

    fn bg_yellow_300(&self) -> (r: String) {
        self.codes(48, (253, 224, 71))
    }

    fn text_yellow_400(&self) -> (r: String) {
        self.codes(38, (250, 204, 21))
    }

    fn bg_yellow_400(&self) -> (r: String) {
        self.codes(48, (250, 204, 21))
    }

    fn text_yellow_500(&self) -> (r: String) {
        self.codes(38, (234, 179, 8))
    }

    fn bg_yellow_500(&self) -> (r: String) {
        self.codes(48, (234, 179, 8))
    }

    fn text_yellow_600(&self) -> (r: String) {
        self.codes(38, (202, 138, 4))
    }

    fn bg_yellow_600(&self) -> (r: String) {
        self.codes(48, (202, 138, 4))
    }

    fn text_yellow_700(&self) -> (r: String) {
        self.codes(38, (161, 98, 7))
    }

    fn bg_yellow_700(&self) -> (r: String) {
        self.codes(48, (161, 98, 7))
    }

    fn text_yellow_800(&self) -> (r: String) {
        self.codes(38, (133, 77, 14))
    }

    fn bg_yellow_800(&self) -> (r: String) {
        self.codes(48, (133, 77, 14))
    }

    fn text_yellow_900(&self) -> (r: String) {
        self.codes(38, (113, 63, 18))
    }

    fn bg_yellow_900(&self) -> (r: String) {
        self.codes(48, (113, 63, 18))
    }

    fn text_yellow_950(&self) -> (r: String) {
        self.codes(38, (66, 32, 6))
    }

    fn bg_yellow_950(&self) -> (r: String) {
        self.codes(48, (66, 32, 6))
    }

    fn text_green_50(&self) -> (r: String) {
        self.codes(38, (240, 253, 244))
    }

    fn bg_green_50(&self) -> (r: String) {
        self.codes(48, (240, 253, 244))
    }

    fn text_green_100(&self) -> (r: String) {
        self.codes(38, (220, 252, 231))
    }

    fn bg_green_100(&self) -> (r: String) {
        self.codes(48, (220, 252, 231))
    }

    fn text_green_200(&self) -> (r: String) {
        self.codes(38, (187, 247, 208))
    }

    fn bg_green_200(&self) -> (r: String) {
        self.codes(48, (187, 247, 208))
    }

    fn text_green_300(&self) -> (r: String) {
        self.codes(38, (134, 239, 172))
    }

    fn bg_green_300(&self) -> (r: String) {
        self.codes(48, (134, 239, 172))
    }

    fn text_green_400(&self) -> (r: String) {
        self.codes(38, (74, 222, 128))
    }

    fn bg_green_400(&self) -> (r: String) {
        self.codes(48, (74, 222, 128))
    }

    fn text_green_500(&self) -> (r: String) {
        self.codes(38, (34, 197, 94))
    }

    fn bg_green_500(&self) -> (r: String) {
        self.codes(48, (34, 197, 94))
    }

    fn text_green_600(&self) -> (r: String) {
        self.codes(38, (22, 163, 74))
    }

    fn bg_green_600(&self) -> (r: String) {
        self.codes(48, (22, 163, 74))
    }

    fn text_green_700(&self) -> (r: String) {
        self.codes(38, (21, 128, 61))
    }

    fn bg_green_700(&self) -> (r: String) {
        self.codes(48, (21, 128, 61))
    }

    fn text_green_800(&self) -> (r: String) {
        self.codes(38, (22, 101, 52))
    }

    fn bg_green_800(&self) -> (r: String) {
        self.codes(48, (22, 101, 52))
    }

    fn text_green_900(&self) -> (r: String) {
        self.codes(38, (20, 83, 45))
    }

    fn bg_green_900(&self) -> (r: String) {
        self.codes(48, (20, 83, 45))
    }

    fn text_green_950(&self) -> (r: String) {
        self.codes(38, (5, 46, 22))
    }

    fn bg_green_950(&self) -> (r: String) {
        self.codes(48, (5, 46, 22))
    }

    fn text_blue_50(&self) -> (r: String) {
        self.codes(38, (239, 246, 255))
    }

    fn bg_blue_50(&self) -> (r: String) {
        self.codes(48, (239, 246, 255))
    }

    fn text_blue_100(&self) -> (r: String) {
        self.codes(38, (219, 234, 254))
    }

    fn bg_blue_100(&self) -> (r: String) {
        self.codes(48, (219, 234, 254))
    }

    fn text_blue_200(&self) -> (r: String) {
        self.codes(38, (191, 219, 254))
    }

    fn bg_blue_200(&self) -> (r: String) {
        self.codes(48, (191, 219, 254))
    }

    fn text_blue_300(&self) -> (r: String) {
        self.codes(38, (147, 197, 253))
    }

    fn bg_blue_300(&self) -> (r: String) {
        self.codes(48, (147, 197, 253))
    }

    fn text_blue_400(&self) -> (r: String) {
        self.codes(38, (96, 165, 250))
    }

    fn bg_blue_400(&self) -> (r: String) {
        self.codes(48, (96, 165, 250))
    }

    fn text_blue_500(&self) -> (r: String) {
        self.codes(38, (59, 130, 246))
    }

    fn bg_blue_500(&self) -> (r: String) {
        self.codes(48, (59, 130, 246))
    }

    fn text_blue_600(&self) -> (r: String) {
        self.codes(38, (37, 99, 235))
    }

    fn bg_blue_600(&self) -> (r: String) {
        self.codes(48, (37, 99, 235))
    }

    fn text_blue_700(&self) -> (r: String) {
        self.codes(38, (29, 78, 216))
    }

    fn bg_blue_700(&self) -> (r: String) {
        self.codes(48, (29, 78, 216))
    }

    fn text_blue_800(&self) -> (r: String) {
        self.codes(38, (30, 64, 175))
    }

    fn bg_blue_800(&self) -> (r: String) {
        self.codes(48, (30, 64, 175))
    }

    fn text_blue_900(&self) -> (r: String) {
        self.codes(38, (30, 58, 138))
    }

    fn bg_blue_900(&self) -> (r: String) {
        self.codes(48, (30, 58, 138))
    }

    fn text_blue_950(&self) -> (r: String) {
        self.codes(38, (23, 37, 84))
    }

    fn bg_blue_950(&self) -> (r: String) {
        self.codes(48, (23, 37, 84))
    }

    fn text_purple_50(&self) -> (r: String) {
        self.codes(38, (250, 245, 255))
    }

    fn bg_purple_50(&self) -> (r: String) {
        self.codes(48, (250, 245, 255))
    }

    fn text_purple_100(&self) -> (r: String) {
        self.codes(38, (243, 232, 255))
    }

    fn bg_purple_100(&self) -> (r: String) {
        self.codes(48, (243, 232, 255))
    }

    fn text_purple_200(&self) -> (r: String) {
        self.codes(38, (233, 213, 255))
    }

    fn bg_purple_200(&self) -> (r: String) {
        self.codes(48, (233, 213, 255))
    }

    fn text_purple_300(&self) -> (r: String) {
        self.codes(38, (216, 180, 254))
    }

    fn bg_purple_300(&self) -> (r: String) {
        self.codes(48, (216, 180, 254))
    }

    fn text_purple_400(&self) -> (r: String) {
        self.codes(38, (192, 132, 252))
    }

    fn bg_purple_400(&self) -> (r: String) {
        self.codes(48, (192, 132, 252))
    }

    fn text_purple_500(&self) -> (r: String) {
        self.codes(38, (168, 85, 247))
    }

    fn bg_purple_500(&self) -> (r: String) {
        self.codes(48, (168, 85, 247))
    }

    fn text_purple_600(&self) -> (r: String) {
        self.codes(38, (147, 51, 234))
    }

    fn bg_purple_600(&self) -> (r: String) {
        self.codes(48, (147, 51, 234))
    }

    fn text_purple_700(&self) -> (r: String) {
        self.codes(38, (126, 34, 206))
    }

    fn bg_purple_700(&self) -> (r: String) {
        self.codes(48, (126, 34, 206))
    }

    fn text_purple_800(&self) -> (r: String) {
        self.codes(38, (107, 33, 168))
    }

    fn bg_purple_800(&self) -> (r: String) {
        self.codes(48, (107, 33, 168))
    }

    fn text_purple_900(&self) -> (r: String) {
        self.codes(38, (88, 28, 135))
    }

    fn bg_purple_900(&self) -> (r: String) {
        self.codes(48, (88, 28, 135))
    }

    fn text_purple_950(&self) -> (r: String) {
        self.codes(38, (59, 7, 100))
    }

    fn bg_purple_950(&self) -> (r: String) {
        self.codes(48, (59, 7, 100))
    }

    fn text_pink_50(&self) -> (r: String) {
        self.codes(38, (253, 242, 248))
    }

    fn bg_pink_50(&self) -> (r: String) {
        self.codes(48, (253, 242, 248))
    }

    fn text_pink_100(&self) -> (r: String) {
        self.codes(38, (252, 231, 243))
    }

    fn bg_pink_100(&self) -> (r: String) {
        self.codes(48, (252, 231, 243))
    }

    fn text_pink_200(&self) -> (r: String) {
        self.codes(38, (251, 207, 232))
    }

    fn bg_pink_200(&self) -> (r: String) {
        self.codes(48, (251, 207, 232))
    }

    fn text_pink_300(&self) -> (r: String) {
        self.codes(38, (249, 168, 212))
    }

    fn bg_pink_300(&self) -> (r: String) {
        self.codes(48, (249, 168, 212))
    }

    fn text_pink_400(&self) -> (r: String) {
        self.codes(38, (244, 114, 182))
    }

    fn bg_pink_400(&self) -> (r: String) {
        self.codes(48, (244, 114, 182))
    }

    fn text_pink_500(&self) -> (r: String) {
        self.codes(38, (236, 72, 153))
    }

    fn bg_pink_500(&self) -> (r: String) {
        self.codes(48, (236, 72, 153))
    }

    fn text_pink_600(&self) -> (r: String) {
        self.codes(38, (219, 39, 119))
    }

    fn bg_pink_600(&self) -> (r: String) {
        self.codes(48, (219, 39, 119))
    }

    fn text_pink_700(&self) -> (r: String) {
        self.codes(38, (190, 24, 93))
    }

    fn bg_pink_700(&self) -> (r: String) {
        self.codes(48, (190, 24, 93))
    }

    fn text_pink_800(&self) -> (r: String) {
        self.codes(38, (157, 23, 77))
    }

    fn bg_pink_800(&self) -> (r: String) {
        self.codes(48, (157, 23, 77))
    }

    fn text_pink_900(&self) -> (r: String) {
        self.codes(38, (131, 24, 67))
    }

    fn bg_pink_900(&self) -> (r: String) {
        self.codes(48, (131, 24, 67))
    }

    fn text_pink_950(&self) -> (r: String) {
        self.codes(38, (80, 7, 36))
    }

    fn bg_pink_950(&self) -> (r: String) {
        self.codes(48, (80, 7, 36))
    }

    fn text_black_50(&self) -> (r: String) {
        self.codes(38, (249, 250, 251))
    }

    fn bg_black_50(&self) -> (r: String) {
        self.codes(48, (249, 250, 251))
    }

    fn text_black_100(&self) -> (r: String) {
        self.codes(38, (243, 244, 246))
    }

    fn bg_black_100(&self) -> (r: String) {
        self.codes(48, (243, 244, 246))
    }

    fn text_black_200(&self) -> (r: String) {
        self.codes(38, (229, 231, 235))
    }

    fn bg_black_200(&self) -> (r: String) {
        self.codes(48, (229, 231, 235))
    }

    fn text_black_300(&self) -> (r: String) {
        self.codes(38, (209, 213, 219))
    }

    fn bg_black_300(&self) -> (r: String) {
        self.codes(48, (209, 213, 219))
    }

    fn text_black_400(&self) -> (r: String) {
        self.codes(38, (156, 163, 175))
    }

    fn bg_black_400(&self) -> (r: String) {
        self.codes(48, (156, 163, 175))
    }

    fn text_black_500(&self) -> (r: String) {
        self.codes(38, (107, 114, 128))
    }

    fn bg_black_500(&self) -> (r: String) {
        self.codes(48, (107, 114, 128))
    }

    fn text_black_600(&self) -> (r: String) {
        self.codes(38, (75, 85, 99))
    }

    fn bg_black_600(&self) -> (r: String) {
        self.codes(48, (75, 85, 99))
    }

    fn text_black_700(&self) -> (r: String) {
        self.codes(38, (55, 65, 81))
    }

    fn bg_black_700(&self) -> (r: String) {
        self.codes(48, (55, 65, 81))
    }

    fn text_black_800(&self) -> (r: String) {
        self.codes(38, (31, 41, 55))
    }

    fn bg_black_800(&self) -> (r: String) {
        self.codes(48, (31, 41, 55))
    }

    fn text_black_900(&self) -> (r: String) {
        self.codes(38, (17, 24, 39))
    }

    fn bg_black_900(&self) -> (r: String) {
        self.codes(48, (17, 24, 39))
    }

    fn text_black_950(&self) -> (r: String) {
        self.codes(38, (3, 7, 18))
    }

    fn bg_black_950(&self) -> (r: String) {
        self.codes(48, (3, 7, 18))
    }

    fn text_gradient(&self, steps: &[&'static str]) -> (r: String) {
        render_gradient(self, steps, Target::Foreground)
    }

    fn bg_gradient(&self, steps: &[&'static str]) -> (r: String) {
        render_gradient(self, steps, Target::Background)
    }

    fn bold(&self) -> (r: String) {
        self.code(1)
    }

    fn italic(&self) -> (r: String) {
        self.code(3)
    }

    fn underline(&self) -> (r: String) {
        self.code(4)
    }

    fn strikethrough(&self) -> (r: String) {
        self.code(9)
    }

    fn dim(&self) -> (r: String) {
        self.code(2)
    }

    fn blink(&self) -> (r: String) {
        self.code(5)
    }

    fn reverse(&self) -> (r: String) {
        self.code(7)
    }

    fn blink_fast(&self) -> (r: String) {
        wrap_whole(self, 6)
    }

    fn blink_slow(&self) -> (r: String) {
        wrap_whole(self, 5)
    }

    fn fade_in(&self) -> (r: String) {
        string_from(fade_chars(&chars_of(self), true))
    }

    fn fade_out(&self) -> (r: String) {
        string_from(fade_chars(&chars_of(self), false))
    }

    fn pad_left(&self, width: usize) -> (r: String) {
        string_from(pad_chars_left(&chars_of(self), width))
    }

    fn pad_right(&self, width: usize) -> (r: String) {
        string_from(pad_chars_right(&chars_of(self), width))
    }

    fn center(&self, width: usize) -> (r: String) {
        string_from(center_chars(&chars_of(self), width))
    }

    fn box_it(&self) -> (r: String) {
        string_from(
            frame_chars(
                &chars_of(self),
                Frame {
                    top_left: '┌',
                    top_right: '┐',
                    bottom_left: '└',
                    bottom_right: '┘',
                    horizontal: '─',
                    vertical: '│',
                },
            ),
        )
    }

    fn border(&self) -> (r: String) {
        string_from(
            frame_chars(
                &chars_of(self),
                Frame {
                    top_left: '╭',
                    top_right: '╮',
                    bottom_left: '╰',
                    bottom_right: '╯',
                    horizontal: '─',
                    vertical: '│',
                },
            ),
        )
    }

    fn double_border(&self) -> (r: String) {
        string_from(
            frame_chars(
                &chars_of(self),
                Frame {
                    top_left: '╔',
                    top_right: '╗',
                    bottom_left: '╚',
                    bottom_right: '╝',
                    horizontal: '═',
                    vertical: '║',
                },
            ),
        )
    }

    fn code(&self, code: usize) -> (r: String) {
        string_from(compose(&chars_of(self), &sgr_chars(code)))
    }

    fn codes(&self, initial: usize, codes: (usize, usize, usize)) -> (r: String) {
        string_from(compose(&chars_of(self), &sgr_rgb_chars(initial, codes.0, codes.1, codes.2)))
    }
}

} // verus!

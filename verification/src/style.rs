//! A small builder for a front end's text style: optional foreground and
//! background colors, and flags asking for either to be reset to its
//! surrounding default. Generic in the color type, which belongs to
//! whatever rendering technology the front end uses.

use vstd::prelude::*;

verus! {

/// A text style: colors to set, or flags asking to clear them.
#[derive(Clone)]
pub struct Style<C: Copy> {
    pub fg: Option<C>,
    pub bg: Option<C>,
    pub clear_fg: bool,
    pub clear_bg: bool,
}

impl<C: Copy> Style<C> {
    /// A neutral style: no colors, nothing cleared.
    pub fn new() -> (s: Self)
        ensures
            s.fg is None,
            s.bg is None,
            !s.clear_fg,
            !s.clear_bg,
    {
        Self { fg: None, bg: None, clear_fg: false, clear_bg: false }
    }

    /// The style with its foreground set.
    pub fn fg(self, color: C) -> (s: Self)
        ensures
            s.fg == Some(color),
            s.bg == self.bg,
            s.clear_fg == self.clear_fg,
            s.clear_bg == self.clear_bg,
    {
        let mut s = self;
        s.fg = Some(color);
        s
    }

    /// The foreground color, or the given default where none is set.
    pub fn fg_or(&self, default: C) -> (r: C)
        ensures
            r == match self.fg {
                Some(c) => c,
                None => default,
            },
    {
        match self.fg {
            Some(c) => c,
            None => default,
        }
    }

    /// The style with its clear-foreground flag raised.
    pub fn clear_fg(self) -> (s: Self)
        ensures
            s.clear_fg,
            s.fg == self.fg,
            s.bg == self.bg,
            s.clear_bg == self.clear_bg,
    {
        let mut s = self;
        s.clear_fg = true;
        s
    }

    /// The style with its background set.
    pub fn bg(self, color: C) -> (s: Self)
        ensures
            s.bg == Some(color),
            s.fg == self.fg,
            s.clear_fg == self.clear_fg,
            s.clear_bg == self.clear_bg,
    {
        let mut s = self;
        s.bg = Some(color);
        s
    }

    /// The background color, or the given default where none is set.
    pub fn bg_or(&self, default: C) -> (r: C)
        ensures
            r == match self.bg {
                Some(c) => c,
                None => default,
            },
    {
        match self.bg {
            Some(c) => c,
            None => default,
        }
    }

    /// The style with its clear-background flag raised.
    pub fn clear_bg(self) -> (s: Self)
        ensures
            s.clear_bg,
            s.fg == self.fg,
            s.bg == self.bg,
            s.clear_fg == self.clear_fg,
    {
        let mut s = self;
        s.clear_bg = true;
        s
    }
}

} // verus!

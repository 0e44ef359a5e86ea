//! The About document: where it is scrolled to, and how its paragraphs are wrapped.
use vstd::prelude::*;
use crate::app::{App, AppV};
use crate::model::{MenuEvent, Screen};
use crate::slots::ScreensV;
use crate::text::texts;
use crate::wrapping::{document, wrap_document};

verus! {

/// The first line shown after a step, within a document of `total` lines of which `visible` fit.
pub open spec fn about_line(at: usize, delta: int, total: usize, visible: usize) -> usize {
    let max = if total > visible {
        total - visible
    } else {
        0
    };
    let next = at + delta;
    if next < 0 {
        0
    } else if next > max {
        max as usize
    } else {
        next as usize
    }
}

/// How many lines a page step moves: all but two that stay for an anchor, and at least one.
pub open spec fn about_page(visible: usize) -> int {
    if visible > 3 {
        visible - 2
    } else {
        1
    }
}

pub open spec fn about_step(ev: MenuEvent, visible: usize) -> int {
    match ev {
        MenuEvent::Up => -1,
        MenuEvent::Down => 1,
        MenuEvent::Left => -about_page(visible),
        _ => about_page(visible),
    }
}

/// The document never scrolls past its last page, and a step back undoes a step on that was not
/// cut short.
pub proof fn law_about_scroll(at: usize, delta: int, total: usize, visible: usize)
    requires
        visible <= total,
        at <= total - visible,
    ensures
        about_line(at, delta, total, visible) <= total - visible,
        0 <= at + delta <= total - visible ==> about_line(
            about_line(at, delta, total, visible),
            -delta,
            total,
            visible,
        ) == at,
{
}

impl AppV {
    pub open spec fn with_about(self, line: usize) -> AppV {
        AppV { screens: ScreensV { about_scroll: line, ..self.screens }, ..self }
    }

    pub open spec fn open_about(self) -> AppV {
        self.with_about(0).show(Screen::About)
    }

    pub open spec fn scroll_about(self, delta: int, total: usize, visible: usize) -> AppV {
        self.with_about(about_line(self.screens.about_scroll, delta, total, visible))
    }

    #[verifier::opaque]
    pub open spec fn handle_about_event(self, ev: MenuEvent, total: usize, visible: usize) -> AppV {
        match ev {
            MenuEvent::Back => self.show(Screen::SettingsPage),
            MenuEvent::Confirm => self.show(Screen::SettingsPage),
            MenuEvent::Secondary => self,
            _ => self.scroll_about(about_step(ev, visible), total, visible),
        }
    }
}

impl App {
    /// Opens the document at its first line.
    pub fn open_about(&mut self)
        ensures
            final(self)@ == old(self)@.open_about(),
            final(self).wf() == old(self).wf(),
    {
        self.screens.about_scroll = 0;
        self.nav.screen = Screen::About;
    }

    /// Scrolls by a number of lines. Reports whether that moved the document.
    pub fn scroll_about_lines(&mut self, delta: i64, total: usize, visible: usize) -> (r: bool)
        ensures
            final(self)@ == old(self)@.scroll_about(delta as int, total, visible),
            r == (final(self)@.screens.about_scroll != old(self)@.screens.about_scroll),
            final(self).wf() == old(self).wf(),
    {
        let max: usize = if total > visible {
            total - visible
        } else {
            0
        };
        let at: usize = self.screens.about_scroll;
        let next: i128 = at as i128 + delta as i128;
        let line: usize = if next < 0 {
            0
        } else if next > max as i128 {
            max
        } else {
            next as usize
        };
        self.screens.about_scroll = line;
        line != at
    }

    /// Handles one event: Up and Down go by a line, Left and Right by a page. Back returns to the
    /// settings.
    pub fn handle_about_event(&mut self, ev: MenuEvent, total: usize, visible: usize)
        requires
            visible <= i64::MAX,
        ensures
            final(self)@ == old(self)@.handle_about_event(ev, total, visible),
            final(self).wf() == old(self).wf(),
    {
        proof {
            reveal(AppV::handle_about_event);
        }
        let page: i64 = if visible > 3 {
            (visible - 2) as i64
        } else {
            1
        };
        match ev {
            MenuEvent::Back => {
                self.nav.screen = Screen::SettingsPage;
            },
            MenuEvent::Confirm => {
                self.nav.screen = Screen::SettingsPage;
            },
            MenuEvent::Secondary => {},
            MenuEvent::Up => {
                self.scroll_about_lines(-1, total, visible);
            },
            MenuEvent::Down => {
                self.scroll_about_lines(1, total, visible);
            },
            MenuEvent::Left => {
                self.scroll_about_lines(-page, total, visible);
            },
            MenuEvent::Right => {
                self.scroll_about_lines(page, total, visible);
            },
        }
    }
}

/// The document as it is scrolled over: its lines, and those lines wrapped to the width of the card
/// that last showed them.
pub struct AboutText {
    pub lines: Vec<String>,
    /// The width in pixels that `wrapped` was made for, `None` before the first time.
    pub width: Option<u32>,
    pub wrapped: Vec<String>,
}

impl AboutText {
    /// A document that no card has shown yet.
    pub fn new(lines: Vec<String>) -> (r: AboutText)
        ensures
            r.lines == lines,
            r.width is None,
            texts(r.wrapped@) == Seq::<Seq<char>>::empty(),
    {
        let wrapped: Vec<String> = Vec::new();
        assert(texts(wrapped@) =~= Seq::empty());
        AboutText { lines, width: None, wrapped }
    }

    /// Wraps the document to `width`, unless it already is. Reports whether it was wrapped anew.
    /// `safe` and `fits` are the measures of that width: lines of at most `safe` characters are not
    /// measured.
    pub fn ensure_about_wrapped<F: Fn(&str) -> bool>(&mut self, width: u32, safe: usize, fits: F) -> (r: bool)
        requires
            forall|t: &str| call_requires(fits, (t,)),
        ensures
            r == (old(self).width != Some(width)),
            final(self).lines == old(self).lines,
            final(self).width == Some(width),
            if r {
                document(fits, safe, texts(old(self).lines@), texts(final(self).wrapped@))
            } else {
                *final(self) == *old(self)
            },
    {
        let fresh: bool = match self.width {
            Some(w) => w == width,
            None => false,
        };
        if fresh {
            return false;
        }
        self.wrapped = wrap_document(&self.lines, safe, fits);
        self.width = Some(width);
        true
    }

    /// How many lines there are to scroll over.
    pub fn total(&self) -> (r: usize)
        ensures
            r == self.wrapped.len(),
    {
        self.wrapped.len()
    }
}

} // verus!

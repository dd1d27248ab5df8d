//! The dockable panel layout around the viewports. Panel extents are in
//! physical pixels; the viewport region is whatever the panels leave free.

use vstd::prelude::*;
use vstd::arithmetic::div_mod::{
    lemma_div_is_ordered, lemma_div_multiples_vanish, lemma_div_pos_is_pos,
    lemma_fundamental_div_mod, lemma_mod_division_less_than_divisor,
};
use vstd::string::StringExecFns;
use crate::multicam::{MulticamState, ScreenFrac, MAX_WINDOW};

verus! {

/// The four docking sides.
#[derive(Clone, Copy, PartialEq, Eq, Structural, Hash, Debug)]
pub enum EditorPanelLocation {
    Left,
    Right,
    Bottom,
    Top,
}

/// Failures of panel bookkeeping, each naming the offending key.
pub enum PanelError {
    PanelWithKeyAlreadyExists(String),
    SectionDoesNotExist(String),
    PanelDoesNotExist(String),
}

/// What a docked tab shows.
pub enum TabKind {
    Empty(String),
    Tools,
    Timeline,
}

/// The panel layout: which tabs dock on each side, and each side's extent
/// in physical pixels.
pub struct EditorPanels {
    pub top_tabs: Vec<TabKind>,
    pub toolbar_height: u32,
    pub top_height: u32,
    pub bottom_tabs: Vec<TabKind>,
    pub bottom_height: u32,
    pub left_tabs: Vec<TabKind>,
    pub left_width: u32,
    pub right_tabs: Vec<TabKind>,
    pub right_width: u32,
}

impl EditorPanels {
    /// The default layout: the tool list on top, the timeline and three
    /// placeholder tabs around the sides.
    pub fn new() -> (r: EditorPanels)
        ensures
            r.toolbar_height == 20,
            r.top_height == 40,
            r.bottom_height == 30,
            r.left_width == 40,
            r.right_width == 40,
            r.top_tabs@.len() == 1 && r.top_tabs@[0] is Tools,
            r.left_tabs@.len() == 2 && r.left_tabs@[0] is Timeline,
            r.left_tabs@[1] matches TabKind::Empty(s) && s@ == "Alpha"@,
            r.right_tabs@.len() == 2,
            r.right_tabs@[0] matches TabKind::Empty(s) && s@ == "Beta"@,
            r.right_tabs@[1] matches TabKind::Empty(s) && s@ == "Gamma"@,
            r.bottom_tabs@.len() == 2,
            r.bottom_tabs@[0] matches TabKind::Empty(s) && s@ == "Delta"@,
            r.bottom_tabs@[1] matches TabKind::Empty(s) && s@ == "Epsilon"@,
    {
        let top_tabs: Vec<TabKind> = vec![TabKind::Tools];
        let left_tabs: Vec<TabKind> = vec![
            TabKind::Timeline,
            TabKind::Empty(String::from_str("Alpha")),
        ];
        let right_tabs: Vec<TabKind> = vec![
            TabKind::Empty(String::from_str("Beta")),
            TabKind::Empty(String::from_str("Gamma")),
        ];
        let bottom_tabs: Vec<TabKind> = vec![
            TabKind::Empty(String::from_str("Delta")),
            TabKind::Empty(String::from_str("Epsilon")),
        ];
        EditorPanels {
            top_tabs,
            toolbar_height: 20,
            top_height: 40,
            bottom_tabs,
            bottom_height: 30,
            left_tabs,
            left_width: 40,
            right_tabs,
            right_width: 40,
        }
    }

    /// Shrinks the viewport region to the window area the panels leave
    /// free: each taken fraction is the panel's extent over the window's.
    pub fn set_multicam_size(
        &self,
        multicam_state: &mut MulticamState,
        window_w: u32,
        window_h: u32,
    )
        requires
            1 <= window_w <= MAX_WINDOW,
            1 <= window_h <= MAX_WINDOW,
            self.left_width + self.right_width <= window_w,
            self.toolbar_height + self.top_height + self.bottom_height <= window_h,
        ensures
            final(multicam_state).start == (ScreenFrac {
                x: (self.left_width * 1000 / (window_w as int)) as u32,
                y: ((self.toolbar_height + self.top_height) * 1000 / (window_h as int)) as u32,
            }),
            final(multicam_state).end == (ScreenFrac {
                x: (1000 - self.right_width * 1000 / (window_w as int)) as u32,
                y: (1000 - self.bottom_height * 1000 / (window_h as int)) as u32,
            }),
            final(multicam_state).wf(),
            *final(multicam_state) == (MulticamState {
                start: final(multicam_state).start,
                end: final(multicam_state).end,
                ..*old(multicam_state)
            }),
    {
        proof {
            lemma_taken_fractions(
                self.left_width as int, self.right_width as int, window_w as int);
            lemma_taken_fractions(
                (self.toolbar_height + self.top_height) as int,
                self.bottom_height as int,
                window_h as int,
            );
        }
        let left_taken = self.left_width * 1000 / window_w;
        let right_taken = self.right_width * 1000 / window_w;
        let bottom_taken = self.bottom_height * 1000 / window_h;
        let top_taken = (self.toolbar_height + self.top_height) * 1000 / window_h;

        multicam_state.start = ScreenFrac { x: left_taken, y: top_taken };
        multicam_state.end = ScreenFrac { x: 1000 - right_taken, y: 1000 - bottom_taken };
    }
}

/// The sum of two quotients is at most the quotient of the sum.
proof fn lemma_div_sum_le(a: int, b: int, d: int)
    requires
        0 <= a,
        0 <= b,
        0 < d,
    ensures
        a / d + b / d <= (a + b) / d,
{
    lemma_fundamental_div_mod(a, d);
    lemma_fundamental_div_mod(b, d);
    lemma_fundamental_div_mod(a + b, d);
    lemma_mod_division_less_than_divisor(a, d);
    lemma_mod_division_less_than_divisor(b, d);
    lemma_mod_division_less_than_divisor(a + b, d);
    assert(a / d + b / d <= (a + b) / d) by (nonlinear_arith)
        requires
            a == d * (a / d) + a % d,
            b == d * (b / d) + b % d,
            a + b == d * ((a + b) / d) + (a + b) % d,
            0 <= a % d < d,
            0 <= b % d < d,
            0 <= (a + b) % d < d,
            0 < d,
    {}
}

/// Two panel extents that fit in the window take fractions that fit in the
/// whole: each is at most a thousand thousandths, and together they leave
/// the region ordered.
proof fn lemma_taken_fractions(a: int, b: int, w: int)
    requires
        0 <= a,
        0 <= b,
        a + b <= w,
        1 <= w,
    ensures
        0 <= a * 1000 / w <= 1000,
        0 <= b * 1000 / w <= 1000,
        a * 1000 / w + b * 1000 / w <= 1000,
{
    assert(0 <= a * 1000 && 0 <= b * 1000 && a * 1000 + b * 1000 == (a + b) * 1000
        && (a + b) * 1000 <= w * 1000 && a * 1000 <= w * 1000 && b * 1000 <= w * 1000)
        by (nonlinear_arith)
        requires
            0 <= a,
            0 <= b,
            a + b <= w,
            1 <= w,
    {}
    lemma_div_pos_is_pos(a * 1000, w);
    lemma_div_pos_is_pos(b * 1000, w);
    lemma_div_sum_le(a * 1000, b * 1000, w);
    lemma_div_is_ordered(a * 1000, w * 1000, w);
    lemma_div_is_ordered(b * 1000, w * 1000, w);
    lemma_div_is_ordered((a + b) * 1000, w * 1000, w);
    lemma_div_multiples_vanish(1000, w);
}

} // verus!

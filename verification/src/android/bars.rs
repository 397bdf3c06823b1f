//! The bars of the system: hidden while the player fills the screen, and kept clear of
//! otherwise.

use vstd::prelude::*;

verus! {

/// The bars that are hidden and shown: the status bar and the navigation bar.
pub const SYSTEM_BARS: i32 = 3;

/// Dark symbols on both bars.
pub const LIGHT_BARS: i32 = 24;

/// Bars that are hidden come out with a swipe, for a while.
pub const SHOW_TRANSIENT_BARS_BY_SWIPE: i32 = 2;

/// Bars behave as in any window.
pub const DEFAULT_BAR_BEHAVIOUR: i32 = 1;

/// Fills the screen on Android before version 11: sticky immersion (0x1000), full screen (4),
/// no navigation (2), with the layout under both bars and stable (0x400, 0x200, 0x100).
pub const FULLSCREEN_FLAGS: i32 = 0x1706;

/// Dark symbols on the status bar.
pub const LIGHT_STATUS_BAR: i32 = 0x2000;

/// Dark symbols on the navigation bar too.
pub const LIGHT_STATUS_AND_NAVIGATION_BAR: i32 = 0x2010;

/// What Android is asked to do with the bars.
#[derive(Clone, Copy, Debug, PartialEq, Eq, Structural)]
pub enum BarCall {
    SetBehaviour(i32),
    SetAppearance { appearance: i32, mask: i32 },
    Hide(i32),
    Show(i32),
    SetVisibility(i32),
}

/// What Android is asked to do, in order, in a version of it. From version 11 (30) on that
/// goes by way of a controller, which a window may not have.
pub open spec fn bar_calls(sdk: i32, has_controller: bool, fullscreen: bool) -> Seq<BarCall> {
    if sdk >= 30 {
        if !has_controller {
            Seq::empty()
        } else if fullscreen {
            seq![
                BarCall::SetBehaviour(SHOW_TRANSIENT_BARS_BY_SWIPE),
                BarCall::SetAppearance { appearance: 0, mask: LIGHT_BARS },
                BarCall::Hide(SYSTEM_BARS),
            ]
        } else {
            seq![
                BarCall::SetAppearance { appearance: LIGHT_BARS, mask: LIGHT_BARS },
                BarCall::SetBehaviour(DEFAULT_BAR_BEHAVIOUR),
                BarCall::Show(SYSTEM_BARS),
            ]
        }
    } else if fullscreen {
        seq![BarCall::SetVisibility(FULLSCREEN_FLAGS)]
    } else if sdk >= 26 {
        seq![BarCall::SetVisibility(LIGHT_STATUS_AND_NAVIGATION_BAR)]
    } else {
        seq![BarCall::SetVisibility(LIGHT_STATUS_BAR)]
    }
}

/// What Android is asked to do so that the player fills the screen, or does not.
pub fn set_android_fullscreen(sdk: i32, has_controller: bool, fullscreen: bool) -> (calls: Vec<BarCall>)
    ensures
        calls@ == bar_calls(sdk, has_controller, fullscreen),
{
    let mut calls: Vec<BarCall> = Vec::new();
    if sdk >= 30 {
        if has_controller {
            if fullscreen {
                calls.push(BarCall::SetBehaviour(SHOW_TRANSIENT_BARS_BY_SWIPE));
                calls.push(BarCall::SetAppearance { appearance: 0, mask: LIGHT_BARS });
                calls.push(BarCall::Hide(SYSTEM_BARS));
            } else {
                calls.push(BarCall::SetAppearance { appearance: LIGHT_BARS, mask: LIGHT_BARS });
                calls.push(BarCall::SetBehaviour(DEFAULT_BAR_BEHAVIOUR));
                calls.push(BarCall::Show(SYSTEM_BARS));
            }
        }
    } else if fullscreen {
        calls.push(BarCall::SetVisibility(FULLSCREEN_FLAGS));
    } else if sdk >= 26 {
        calls.push(BarCall::SetVisibility(LIGHT_STATUS_AND_NAVIGATION_BAR));
    } else {
        calls.push(BarCall::SetVisibility(LIGHT_STATUS_BAR));
    }
    assert(calls@ =~= bar_calls(sdk, has_controller, fullscreen));
    calls
}

/// The flags are made of the single ones that Android defines.
pub proof fn flags_are_made_of_single_ones()
    ensures
        SYSTEM_BARS == 1i32 | 2i32,
        LIGHT_BARS == 8i32 | 16i32,
        FULLSCREEN_FLAGS == 0x1000i32 | 4i32 | 2i32 | 0x100i32 | 0x200i32 | 0x400i32,
        LIGHT_STATUS_AND_NAVIGATION_BAR == LIGHT_STATUS_BAR | 0x10i32,
{
    assert(3i32 == 1i32 | 2i32) by (bit_vector);
    assert(24i32 == 8i32 | 16i32) by (bit_vector);
    assert(0x1706i32 == 0x1000i32 | 4i32 | 2i32 | 0x100i32 | 0x200i32 | 0x400i32) by (bit_vector);
    assert(0x2010i32 == 0x2000i32 | 0x10i32) by (bit_vector);
}

/// How far the bars reach into the window, in pixels.
#[derive(Clone, Copy, Debug, PartialEq, Eq, Structural)]
pub struct AndroidSystemInsets {
    pub left: i32,
    pub top: i32,
    pub right: i32,
    pub bottom: i32,
}

/// Where Android keeps how far the bars reach.
#[derive(Clone, Copy, Debug, PartialEq, Eq, Structural)]
pub enum InsetSource {
    /// Nowhere: the bars are hidden.
    Hidden,
    /// As they are when they are shown.
    IgnoringVisibility,
    /// As they are.
    SystemWindow,
}

/// Where to look for how far the bars reach in a version of Android.
pub fn inset_source(fullscreen: bool, sdk: i32) -> (source: InsetSource)
    ensures
        source == (if fullscreen {
            InsetSource::Hidden
        } else if sdk >= 30 {
            InsetSource::IgnoringVisibility
        } else {
            InsetSource::SystemWindow
        }),
{
    if fullscreen {
        InsetSource::Hidden
    } else if sdk >= 30 {
        InsetSource::IgnoringVisibility
    } else {
        InsetSource::SystemWindow
    }
}

/// The part of the window that Android leaves to the player, in pixels.
#[derive(Clone, Copy, Debug, PartialEq, Eq, Structural)]
pub struct ContentRect {
    pub left: i32,
    pub top: i32,
    pub right: i32,
    pub bottom: i32,
}

/// The margins that are kept clear, in pixels.
#[derive(Clone, Copy, Debug, PartialEq, Eq, Structural)]
pub struct SafeArea {
    pub left: u64,
    pub top: u64,
    pub right: u64,
    pub bottom: u64,
}

/// A length, where there is one.
pub open spec fn margin(length: int) -> u64 {
    if length < 0 { 0 } else { length as u64 }
}

fn margin_of(length: i64) -> (m: u64)
    ensures
        m == margin(length as int),
{
    if length < 0 { 0 } else { length as u64 }
}

/// The margins of a window of a size, from how far the bars reach, or from what Android
/// leaves to the player where that is not known.
pub open spec fn safe_area_of(
    fullscreen: bool,
    insets: Option<AndroidSystemInsets>,
    content: ContentRect,
    width: u32,
    height: u32,
) -> Option<SafeArea> {
    if fullscreen {
        Some(SafeArea { left: 0, top: 0, right: 0, bottom: 0 })
    } else {
        match insets {
            Some(insets) => Some(
                SafeArea {
                    left: margin(insets.left as int),
                    top: margin(insets.top as int),
                    right: margin(insets.right as int),
                    bottom: margin(insets.bottom as int),
                },
            ),
            None => if content.right > content.left && content.bottom > content.top {
                Some(
                    SafeArea {
                        left: margin(content.left as int),
                        top: margin(content.top as int),
                        right: margin(width - content.right),
                        bottom: margin(height - content.bottom),
                    },
                )
            } else {
                None
            },
        }
    }
}

/// The margins that are kept clear; none where nothing is known of them.
pub fn safe_area(
    fullscreen: bool,
    insets: Option<AndroidSystemInsets>,
    content: ContentRect,
    width: u32,
    height: u32,
) -> (area: Option<SafeArea>)
    ensures
        area == safe_area_of(fullscreen, insets, content, width, height),
{
    if fullscreen {
        return Some(SafeArea { left: 0, top: 0, right: 0, bottom: 0 });
    }
    match insets {
        Some(insets) => Some(
            SafeArea {
                left: margin_of(insets.left as i64),
                top: margin_of(insets.top as i64),
                right: margin_of(insets.right as i64),
                bottom: margin_of(insets.bottom as i64),
            },
        ),
        None => {
            if content.right > content.left && content.bottom > content.top {
                Some(
                    SafeArea {
                        left: margin_of(content.left as i64),
                        top: margin_of(content.top as i64),
                        right: margin_of(width as i64 - content.right as i64),
                        bottom: margin_of(height as i64 - content.bottom as i64),
                    },
                )
            } else {
                None
            }
        },
    }
}

/// A rectangle on the screen, in hundred-thousandths of a point.
#[derive(Clone, Copy, Debug, PartialEq, Eq, Structural)]
pub struct ScreenRect {
    pub left: i64,
    pub top: i64,
    pub right: i64,
    pub bottom: i64,
}

impl ScreenRect {
    pub open spec fn has_area(self) -> bool {
        self.left < self.right && self.top < self.bottom
    }

    /// Whether a point lies in the rectangle: on its left and upper edge, but not on the
    /// right and lower one.
    pub open spec fn covers(self, x: int, y: int) -> bool {
        self.left <= x < self.right && self.top <= y < self.bottom
    }

    fn shown(self) -> (shown: bool)
        ensures
            shown == self.has_area(),
    {
        self.left < self.right && self.top < self.bottom
    }
}

/// The four rectangles around the content: above, below, to the left and to the right.
pub open spec fn frame_of(viewport: ScreenRect, content: ScreenRect) -> Seq<ScreenRect> {
    seq![
        ScreenRect { bottom: content.top, ..viewport },
        ScreenRect { top: content.bottom, ..viewport },
        ScreenRect {
            left: viewport.left,
            top: content.top,
            right: content.left,
            bottom: content.bottom,
        },
        ScreenRect {
            left: content.right,
            top: content.top,
            right: viewport.right,
            bottom: content.bottom,
        },
    ]
}

/// Those of `rects` that can be seen.
pub open spec fn visible(rects: Seq<ScreenRect>) -> Seq<ScreenRect>
    decreases rects.len(),
{
    if rects.len() == 0 {
        rects
    } else if rects.last().has_area() {
        visible(rects.drop_last()).push(rects.last())
    } else {
        visible(rects.drop_last())
    }
}

fn push_visible(rects: &mut Vec<ScreenRect>, rect: ScreenRect)
    ensures
        final(rects)@ == (if rect.has_area() { old(rects)@.push(rect) } else { old(rects)@ }),
{
    if rect.shown() {
        rects.push(rect);
    }
}

/// What is painted under the bars: everything around the content.
pub fn system_chrome_rects(viewport: ScreenRect, content: ScreenRect) -> (rects: Vec<ScreenRect>)
    ensures
        rects@ == visible(frame_of(viewport, content)),
{
    let mut rects: Vec<ScreenRect> = Vec::new();
    let ghost all = frame_of(viewport, content);
    push_visible(&mut rects, ScreenRect { bottom: content.top, ..viewport });
    push_visible(&mut rects, ScreenRect { top: content.bottom, ..viewport });
    push_visible(
        &mut rects,
        ScreenRect {
            left: viewport.left,
            top: content.top,
            right: content.left,
            bottom: content.bottom,
        },
    );
    push_visible(
        &mut rects,
        ScreenRect {
            left: content.right,
            top: content.top,
            right: viewport.right,
            bottom: content.bottom,
        },
    );
    proof {
        assert(all.drop_last() =~= all.take(3));
        assert(all.take(3).drop_last() =~= all.take(2));
        assert(all.take(2).drop_last() =~= all.take(1));
        assert(all.take(1).drop_last() =~= Seq::<ScreenRect>::empty());
        reveal_with_fuel(visible, 5);
        assert(rects@ =~= visible(all));
    }
    rects
}

/// What is painted under the bars leaves no point of the screen out and none of the content
/// painted over.
pub proof fn chrome_surrounds_the_content(viewport: ScreenRect, content: ScreenRect, x: int, y: int)
    requires
        viewport.left <= content.left <= content.right <= viewport.right,
        viewport.top <= content.top <= content.bottom <= viewport.bottom,
        viewport.covers(x, y),
    ensures
        content.covers(x, y) <==> !exists|i: int|
            0 <= i < 4 && (#[trigger] frame_of(viewport, content)[i]).covers(x, y),
{
    let all = frame_of(viewport, content);
    assert(all[0].covers(x, y) == (y < content.top));
    assert(all[1].covers(x, y) == (y >= content.bottom));
    assert(all[2].covers(x, y) == (content.top <= y < content.bottom && x < content.left));
    assert(all[3].covers(x, y) == (content.top <= y < content.bottom && x >= content.right));
}

/// In full screen the bars are hidden, dark, and come up for a while when swiped at; else
/// they show, light, and stay. Before there was a controller for it, flags say the same.
pub proof fn bars_are_hidden_in_full_screen(sdk: i32)
    ensures
        sdk >= 30 ==> {
            &&& bar_calls(sdk, true, true) == seq![
                BarCall::SetBehaviour(2),
                BarCall::SetAppearance { appearance: 0, mask: 24 },
                BarCall::Hide(3),
            ]
            &&& bar_calls(sdk, true, false) == seq![
                BarCall::SetAppearance { appearance: 24, mask: 24 },
                BarCall::SetBehaviour(1),
                BarCall::Show(3),
            ]
            &&& bar_calls(sdk, false, true).len() == 0
            &&& bar_calls(sdk, false, false).len() == 0
        },
        sdk < 30 ==> bar_calls(sdk, false, true) == seq![BarCall::SetVisibility(0x1706)],
        26 <= sdk < 30 ==> bar_calls(sdk, false, false) == seq![BarCall::SetVisibility(0x2010)],
        sdk < 26 ==> bar_calls(sdk, false, false) == seq![BarCall::SetVisibility(0x2000)],
{
}

/// The safe area leaves out what the system covers: nothing in full screen, the insets where
/// they are known, and else what lies outside the content.
pub proof fn safe_area_leaves_out_what_is_covered(
    insets: AndroidSystemInsets,
    content: ContentRect,
    width: u32,
    height: u32,
)
    requires
        insets.left >= 0 && insets.top >= 0 && insets.right >= 0 && insets.bottom >= 0,
        0 <= content.left < content.right <= width,
        0 <= content.top < content.bottom <= height,
    ensures
        safe_area_of(true, Some(insets), content, width, height) == Some(
            SafeArea { left: 0, top: 0, right: 0, bottom: 0 },
        ),
        safe_area_of(false, Some(insets), content, width, height) matches Some(area) && area.left
            == insets.left && area.top == insets.top && area.right == insets.right && area.bottom
            == insets.bottom,
        safe_area_of(false, None, content, width, height) matches Some(area) && area.left
            == content.left && area.top == content.top && area.right + content.right == width
            && area.bottom + content.bottom == height,
{
}

/// What is drawn of the frame are the parts of it that are not empty, in their order.
pub proof fn empty_parts_are_not_drawn(rects: Seq<ScreenRect>)
    ensures
        visible(rects) == rects.filter(
            |rect: ScreenRect| rect.left < rect.right && rect.top < rect.bottom,
        ),
    decreases rects.len(),
{
    reveal(Seq::filter);
    if rects.len() > 0 {
        empty_parts_are_not_drawn(rects.drop_last());
    }
}

} // verus!

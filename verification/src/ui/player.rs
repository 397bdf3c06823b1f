//! The controls over a video.

use crate::model::{AppCommand, DebugGraphLane, DebugNode, PlaybackState};
use vstd::prelude::*;

verus! {

#[derive(Clone, Copy, Debug, PartialEq, Eq, Structural)]
pub enum PlayerIcon {
    Play,
    Pause,
    Refresh,
    Fullscreen,
}

/// What the control in the middle shows, and what it does.
pub open spec fn playback_control(state: PlaybackState, intends_playing: bool) -> (
    PlayerIcon,
    Option<AppCommand>,
) {
    match state {
        PlaybackState::Playing | PlaybackState::Buffering => (
            PlayerIcon::Pause,
            Some(AppCommand::TogglePlayback),
        ),
        PlaybackState::Paused => (PlayerIcon::Play, Some(AppCommand::TogglePlayback)),
        PlaybackState::Error(_) => (PlayerIcon::Refresh, Some(AppCommand::RefreshPlayback)),
        PlaybackState::Seeking => (
            if intends_playing { PlayerIcon::Pause } else { PlayerIcon::Play },
            Some(AppCommand::TogglePlayback),
        ),
        PlaybackState::Ended | PlaybackState::Loading => (PlayerIcon::Play, None),
    }
}

/// Finds what the control in the middle shows, and what it does.
pub fn primary_playback_control(state: &PlaybackState, intends_playing: bool) -> (control: (
    PlayerIcon,
    Option<AppCommand>,
))
    ensures
        control == playback_control(*state, intends_playing),
{
    match state {
        PlaybackState::Playing | PlaybackState::Buffering => (
            PlayerIcon::Pause,
            Some(AppCommand::TogglePlayback),
        ),
        PlaybackState::Paused => (PlayerIcon::Play, Some(AppCommand::TogglePlayback)),
        PlaybackState::Error(_) => (PlayerIcon::Refresh, Some(AppCommand::RefreshPlayback)),
        PlaybackState::Seeking => (
            if intends_playing { PlayerIcon::Pause } else { PlayerIcon::Play },
            Some(AppCommand::TogglePlayback),
        ),
        PlaybackState::Ended | PlaybackState::Loading => (PlayerIcon::Play, None),
    }
}

/// What is said about the state of playback; nothing about the obvious.
pub open spec fn status_text(state: PlaybackState) -> Option<Seq<char>> {
    match state {
        PlaybackState::Playing | PlaybackState::Paused => None,
        PlaybackState::Loading => Some("Loading…"@),
        PlaybackState::Buffering => Some("Buffering…"@),
        PlaybackState::Seeking => Some("Seeking…"@),
        PlaybackState::Ended => Some("Ended"@),
        PlaybackState::Error(_) => Some("Error"@),
    }
}

/// Says what there is to say about the state of playback.
pub fn playback_status_label(state: &PlaybackState) -> (label: Option<&'static str>)
    ensures
        match label {
            Some(label) => status_text(*state) == Some(label@),
            None => status_text(*state) is None,
        },
{
    match state {
        PlaybackState::Playing | PlaybackState::Paused => None,
        PlaybackState::Loading => Some("Loading…"),
        PlaybackState::Buffering => Some("Buffering…"),
        PlaybackState::Seeking => Some("Seeking…"),
        PlaybackState::Ended => Some("Ended"),
        PlaybackState::Error(_) => Some("Error"),
    }
}

/// The largest length on the screen, in hundred-thousandths of a point.
pub const MAX_LENGTH: i64 = 1_000_000_000_000;

/// How many controls a row may have on one side.
pub const MAX_ROW_CONTROLS: usize = 1000;

/// The sum of the first `n` widths.
pub open spec fn width_sum(widths: Seq<i64>, n: int) -> int
    decreases n,
{
    if n <= 0 { 0 } else { width_sum(widths, n - 1) + widths[n - 1] }
}

/// Where the row at the bottom begins on its left, in its middle and on its right.
#[derive(Clone, Copy, Debug, PartialEq, Eq, Structural)]
pub struct RowOrigins {
    pub left: i64,
    pub middle: i64,
    pub right: i64,
}

pub open spec fn is_length(length: i64) -> bool {
    -MAX_LENGTH <= length <= MAX_LENGTH
}

/// Lays out the row at the bottom round its middle, which lies at the centre whatever the
/// widths on the left. Lengths are hundred-thousandths of a point.
pub fn bottom_control_row_origins(
    centre_x: i64,
    middle_width: i64,
    gap: i64,
    left_widths: &Vec<i64>,
) -> (origins: RowOrigins)
    requires
        is_length(centre_x),
        is_length(middle_width),
        is_length(gap),
        left_widths@.len() <= MAX_ROW_CONTROLS,
        forall|i: int| 0 <= i < left_widths@.len() ==> is_length(#[trigger] left_widths@[i]),
    ensures
        origins.middle == centre_x - middle_width / 2,
        origins.right == origins.middle + middle_width + gap,
        origins.left == origins.middle - gap - width_sum(
            left_widths@,
            left_widths@.len() as int,
        ) - gap * (if left_widths@.len() == 0 { 0 } else { left_widths@.len() - 1 }),
{
    let half: i64 = if middle_width >= 0 {
        middle_width / 2
    } else {
        -((1 - middle_width) / 2)
    };
    assert(half == middle_width / 2);
    let middle: i64 = centre_x - half;
    let mut left: i64 = middle - gap;
    let mut i: usize = 0;
    while i < left_widths.len()
        invariant
            i <= left_widths@.len(),
            left_widths@.len() <= MAX_ROW_CONTROLS,
            is_length(centre_x),
            is_length(middle_width),
            is_length(gap),
            middle == centre_x - middle_width / 2,
            forall|k: int| 0 <= k < left_widths@.len() ==> is_length(#[trigger] left_widths@[k]),
            left == middle - gap - width_sum(left_widths@, i as int) - gap * (if i == 0 {
                0
            } else {
                i - 1
            }),
            -(3 + 2 * i) * MAX_LENGTH <= left <= (3 + 2 * i) * MAX_LENGTH,
        decreases left_widths@.len() - i,
    {
        assert(is_length(left_widths@[i as int]));
        left = left - left_widths[i];
        if i > 0 {
            proof {
                assert(gap * i == gap * (i - 1) + gap) by (nonlinear_arith);
            }
            left = left - gap;
        }
        i += 1;
    }
    RowOrigins { left, middle, right: middle + middle_width + gap }
}

/// Where a control begins at the top that ends at the bottom.
pub fn bottom_control_top(bottom: i64, height: i64) -> (top: i64)
    requires
        is_length(bottom),
        is_length(height),
    ensures
        top + height == bottom,
{
    bottom - height
}

/// The middle of the row lies at the centre, to within the last digit, and its sides begin
/// a gap away from it.
pub proof fn middle_of_the_row_is_centred(centre_x: i64, middle_width: i64, gap: i64, origins: RowOrigins)
    requires
        origins.middle == centre_x - middle_width / 2,
        origins.right == origins.middle + middle_width + gap,
    ensures
        0 <= 2 * origins.middle + middle_width - 2 * centre_x <= 1,
        origins.right - (origins.middle + middle_width) == gap,
{
}

/// The nodes of a lane among the first `n`, each by its number, in the order of their
/// columns; nodes in the same column keep their order.
pub open spec fn lane_order(nodes: Seq<DebugNode>, lane: DebugGraphLane, n: int) -> Seq<int>
    decreases n,
{
    if n <= 0 {
        Seq::empty()
    } else {
        let before = lane_order(nodes, lane, n - 1);
        if nodes[n - 1].lane == lane {
            let at = place_of(nodes, before, nodes[n - 1].column, before.len() as int);
            before.insert(at, n - 1)
        } else {
            before
        }
    }
}

/// Where a node in `column` comes among the first `n` of `order`: behind every one in the
/// same column or before it.
pub open spec fn place_of(nodes: Seq<DebugNode>, order: Seq<int>, column: u8, n: int) -> int
    decreases n,
{
    if n <= 0 {
        0
    } else if nodes[order[n - 1]].column <= column {
        n
    } else {
        place_of(nodes, order, column, n - 1)
    }
}

pub open spec fn numbers(order: Seq<usize>) -> Seq<int> {
    Seq::new(order.len(), |i: int| order[i] as int)
}

/// Puts the nodes of a lane in the order in which they are drawn.
pub fn lane_nodes(nodes: &Vec<DebugNode>, lane: DebugGraphLane) -> (order: Vec<usize>)
    ensures
        numbers(order@) == lane_order(nodes@, lane, nodes@.len() as int),
        forall|i: int| 0 <= i < order@.len() ==> #[trigger] order@[i] < nodes@.len(),
{
    let mut order: Vec<usize> = Vec::new();
    let mut i: usize = 0;
    assert(numbers(order@) =~= Seq::<int>::empty());
    while i < nodes.len()
        invariant
            i <= nodes@.len(),
            numbers(order@) == lane_order(nodes@, lane, i as int),
            forall|k: int| 0 <= k < order@.len() ==> #[trigger] order@[k] < nodes@.len(),
        decreases nodes@.len() - i,
    {
        if nodes[i].lane == lane {
            let ghost before = order@;
            let mut at: usize = order.len();
            while at > 0 && nodes[order[at - 1]].column > nodes[i].column
                invariant
                    i < nodes@.len(),
                    at <= order@.len(),
                    order@ == before,
                    forall|k: int| 0 <= k < order@.len() ==> #[trigger] order@[k] < nodes@.len(),
                    place_of(
                        nodes@,
                        numbers(before),
                        nodes@[i as int].column,
                        before.len() as int,
                    ) == place_of(nodes@, numbers(before), nodes@[i as int].column, at as int),
                decreases at,
            {
                assert(numbers(before)[at - 1] == order@[at - 1]);
                at -= 1;
            }
            assert(at > 0 ==> numbers(before)[at - 1] == order@[at - 1]);
            order.insert(at, i);
            assert(numbers(order@) =~= numbers(before).insert(at as int, i as int));
        }
        i += 1;
    }
    order
}

pub open spec fn in_column_order(nodes: Seq<DebugNode>, order: Seq<int>) -> bool {
    forall|i: int, j: int|
        0 <= i <= j < order.len() ==> nodes[#[trigger] order[i]].column <= nodes[#[trigger] order[j]].column
}

proof fn place_of_splits(nodes: Seq<DebugNode>, order: Seq<int>, column: u8, n: int)
    requires
        0 <= n <= order.len(),
        in_column_order(nodes, order),
    ensures
        0 <= place_of(nodes, order, column, n) <= n,
        forall|i: int|
            0 <= i < place_of(nodes, order, column, n) ==> nodes[#[trigger] order[i]].column
                <= column,
        forall|i: int|
            place_of(nodes, order, column, n) <= i < n ==> nodes[#[trigger] order[i]].column
                > column,
    decreases n,
{
    if n > 0 && nodes[order[n - 1]].column > column {
        place_of_splits(nodes, order, column, n - 1);
    }
}

/// A lane is drawn from left to right: the columns of its nodes never decrease.
pub proof fn lanes_are_in_column_order(nodes: Seq<DebugNode>, lane: DebugGraphLane, n: int)
    requires
        0 <= n <= nodes.len(),
    ensures
        in_column_order(nodes, lane_order(nodes, lane, n)),
        forall|i: int|
            0 <= i < lane_order(nodes, lane, n).len() ==> 0 <= #[trigger] lane_order(
                nodes,
                lane,
                n,
            )[i] < n && nodes[lane_order(nodes, lane, n)[i]].lane == lane,
    decreases n,
{
    if n > 0 {
        lanes_are_in_column_order(nodes, lane, n - 1);
        let before = lane_order(nodes, lane, n - 1);
        if nodes[n - 1].lane == lane {
            let column = nodes[n - 1].column;
            place_of_splits(nodes, before, column, before.len() as int);
            let at = place_of(nodes, before, column, before.len() as int);
            let after = before.insert(at, n - 1);
            assert forall|i: int, j: int| 0 <= i <= j < after.len() implies nodes[#[trigger] after[i]].column
                <= nodes[#[trigger] after[j]].column by {
                let a = if i < at { i } else { i - 1 };
                let b = if j < at { j } else { j - 1 };
                if i != at && j != at {
                    assert(after[i] == before[a] && after[j] == before[b]);
                } else if i == at && j != at {
                    assert(after[j] == before[b]);
                } else if i != at {
                    assert(after[i] == before[a]);
                }
            }
            assert forall|i: int| 0 <= i < after.len() implies 0 <= #[trigger] after[i] < n
                && nodes[after[i]].lane == lane by {
                if i < at {
                    assert(after[i] == before[i]);
                } else if i > at {
                    assert(after[i] == before[i - 1]);
                }
            }
        }
    }
}

/// The button stops what plays or will play, plays what stands still, and tries again what
/// failed; what has ended or loads it leaves alone.
pub proof fn button_does_what_it_shows(state: PlaybackState, intends_playing: bool)
    ensures
        ({
            let (icon, command) = playback_control(state, intends_playing);
            &&& state is Playing || state is Buffering ==> icon is Pause && command == Some(
                AppCommand::TogglePlayback,
            )
            &&& state is Paused ==> icon is Play && command == Some(AppCommand::TogglePlayback)
            &&& state is Seeking ==> command == Some(AppCommand::TogglePlayback) && (icon is Pause
                <==> intends_playing) && (icon is Play <==> !intends_playing)
            &&& state is Error ==> icon is Refresh && command == Some(AppCommand::RefreshPlayback)
            &&& state is Ended || state is Loading ==> icon is Play && command is None
        }),
        status_text(state) is None <==> state is Playing || state is Paused,
{
}

/// Every node of a lane has a place in it.
pub proof fn lanes_hold_all_their_nodes(
    nodes: Seq<DebugNode>,
    lane: DebugGraphLane,
    n: int,
    k: int,
)
    requires
        0 <= k < n <= nodes.len(),
        nodes[k].lane == lane,
    ensures
        lane_order(nodes, lane, n).contains(k),
    decreases n,
{
    let before = lane_order(nodes, lane, n - 1);
    let at = place_of(nodes, before, nodes[n - 1].column, before.len() as int);
    place_is_within(nodes, before, nodes[n - 1].column, before.len() as int);
    if k < n - 1 {
        lanes_hold_all_their_nodes(nodes, lane, n - 1, k);
        let i = choose|i: int| 0 <= i < before.len() && before[i] == k;
        if nodes[n - 1].lane == lane {
            let after = before.insert(at, n - 1);
            assert(after[if i < at {
                i
            } else {
                i + 1
            }] == k);
        }
    } else {
        assert(before.insert(at, n - 1)[at] == k);
    }
}

proof fn place_is_within(nodes: Seq<DebugNode>, order: Seq<int>, column: u8, n: int)
    requires
        0 <= n <= order.len(),
    ensures
        0 <= place_of(nodes, order, column, n) <= n,
    decreases n,
{
    if n > 0 && nodes[order[n - 1]].column > column {
        place_is_within(nodes, order, column, n - 1);
    }
}

} // verus!

use rvis::frame::SpectralFrame;
use rvis::waterfall::{BinSelection, RenderOptions, ScrollDirection, WaterfallBuffer};
use rvis::MAGNITUDE_ONE;

fn options(sel: BinSelection, dir: ScrollDirection) -> RenderOptions {
    let mut o = RenderOptions::new();
    o.bin_selection = sel;
    o.scroll_direction = dir;
    o
}

fn flat(tag: u32, width: usize) -> SpectralFrame {
    SpectralFrame::new(vec![tag; width])
}

#[test]
fn starts_all_zero() {
    let b = WaterfallBuffer::new(3, 4);
    let o = RenderOptions::new();
    let px = b.render_view(&o);
    assert_eq!(px.len(), 12);
    assert!(px.iter().all(|p| *p == 0));
}

#[test]
fn history_keeps_most_recent_rows_upward() {
    let mut b = WaterfallBuffer::new(3, 2);
    let o = RenderOptions::new();
    // Five pushes into three rows: only the last three remain,
    // newest at the bottom edge.
    for tag in 1..=5u32 {
        b.push_row(flat(tag * 100, 2), ScrollDirection::Upward);
    }
    let px = b.render_view(&o);
    let row = |r: usize| (px[2 * r], px[2 * r + 1]);
    let level = |tag: u32| ((tag * 100 * 255) / MAGNITUDE_ONE) as u8;
    assert_eq!(row(0), (level(3), level(3)));
    assert_eq!(row(1), (level(4), level(4)));
    assert_eq!(row(2), (level(5), level(5)));
}

#[test]
fn history_keeps_most_recent_rows_downward() {
    let mut b = WaterfallBuffer::new(3, 2);
    let o = RenderOptions::new();
    for tag in 1..=5u32 {
        b.push_row(flat(tag * 100, 2), ScrollDirection::Downward);
    }
    let px = b.render_view(&o);
    let row = |r: usize| (px[2 * r], px[2 * r + 1]);
    let level = |tag: u32| ((tag * 100 * 255) / MAGNITUDE_ONE) as u8;
    // Newest at the top edge.
    assert_eq!(row(0), (level(5), level(5)));
    assert_eq!(row(1), (level(4), level(4)));
    assert_eq!(row(2), (level(3), level(3)));
}

#[test]
fn wrong_width_frames_are_padded_or_cut() {
    let mut b = WaterfallBuffer::new(2, 4);
    let o = RenderOptions::new();
    // Too narrow: the missing cells are zero.
    b.push_row(SpectralFrame::new(vec![MAGNITUDE_ONE, MAGNITUDE_ONE]), ScrollDirection::Upward);
    // Too wide: the surplus cells are dropped.
    b.push_row(
        SpectralFrame::new(vec![MAGNITUDE_ONE; 9]),
        ScrollDirection::Upward,
    );
    let px = b.render_view(&o);
    assert_eq!(px, vec![255, 255, 0, 0, 255, 255, 255, 255]);
}

#[test]
fn empty_frame_gives_a_zero_row() {
    let mut b = WaterfallBuffer::new(2, 3);
    let o = RenderOptions::new();
    b.push_row(SpectralFrame::new(Vec::new()), ScrollDirection::Downward);
    let px = b.render_view(&o);
    assert_eq!(px, vec![0, 0, 0, 0, 0, 0]);
}

#[test]
fn intensity_is_linear_and_clamped() {
    let mut b = WaterfallBuffer::new(1, 4);
    let o = RenderOptions::new();
    b.push_row(
        SpectralFrame::new(vec![0, MAGNITUDE_ONE / 2, MAGNITUDE_ONE, 2 * MAGNITUDE_ONE]),
        ScrollDirection::Upward,
    );
    let px = b.render_view(&o);
    assert_eq!(px, vec![0, 127, 255, 255]);
}

#[test]
fn mirrored_selection_flips_columns() {
    let mut b = WaterfallBuffer::new(1, 3);
    b.push_row(
        SpectralFrame::new(vec![0, MAGNITUDE_ONE / 2, MAGNITUDE_ONE]),
        ScrollDirection::Upward,
    );
    let normal = b.render_view(&options(BinSelection::Normal, ScrollDirection::Upward));
    let mirrored = b.render_view(&options(BinSelection::Mirrored, ScrollDirection::Upward));
    assert_eq!(normal, vec![0, 127, 255]);
    assert_eq!(mirrored, vec![255, 127, 0]);
}

use tapwatch::layout::accept_rows;
use tapwatch::layout::content_area;
use tapwatch::layout::draw_text_display;
use tapwatch::layout::frame_regions;
use tapwatch::layout::is_above;
use tapwatch::layout::is_row_in;
use tapwatch::layout::safe_rect;
use tapwatch::layout::sprite_position;
use tapwatch::layout::Rect;
use tapwatch::spritesheet::SpriteSheet;
use tapwatch::state::App;
use tapwatch::state::TYPING_LINGER_DURATION;
use tapwatch::ui::display_gif_if_available;
use tapwatch::ui::draw;
use tapwatch::ui::draw_dog;
use tapwatch::ui::gif_mode_available;
use tapwatch::ui::is_encodable;
use tapwatch::ui::try_display_image_at_position;

fn rect(x: u16, y: u16, width: u16, height: u16) -> Rect {
    Rect { x, y, width, height }
}

fn sheet_of(byte: u8) -> SpriteSheet {
    SpriteSheet {
        loaded: true,
        typing_frames: (0..8).map(|i| vec![byte, 1, i]).collect(),
        idle_frames: (0..8).map(|i| vec![byte, 0, i]).collect(),
    }
}

#[test]
fn rectangles_are_cut_to_the_coordinates() {
    assert_eq!(Rect::new(1, 2, 3, 4), rect(1, 2, 3, 4));
    assert_eq!(Rect::new(65_530, 65_535, 10, 10), rect(65_530, 65_535, 5, 0));
    assert_eq!(Rect::new(0, 0, u16::MAX, u16::MAX), rect(0, 0, u16::MAX, u16::MAX));
    assert!(rect(65_530, 0, 5, 1).is_valid());
    assert!(!rect(65_530, 0, 6, 1).is_valid());
    assert!(!rect(0, 1, 0, u16::MAX).is_valid());
}

#[test]
fn rectangles_are_cut_as_the_painter_cuts_them() {
    for (x, y, width, height) in [(0, 0, 0, 0), (1, 2, 3, 4), (65_530, 65_535, 10, 10), (65_535, 0, 1, 65_535), (7, 7, 65_535, 65_535)] {
        let ours = Rect::new(x, y, width, height);
        let theirs = ratatui::layout::Rect::new(x, y, width, height);
        assert_eq!((ours.x, ours.y, ours.width, ours.height), (theirs.x, theirs.y, theirs.width, theirs.height));
        assert!(ours.is_valid());
    }
}

#[test]
fn content_band_sits_in_the_middle() {
    assert_eq!(content_area(rect(0, 0, 80, 24)), rect(0, 5, 80, 14));
    assert_eq!(content_area(rect(3, 2, 50, 15)), rect(3, 2, 50, 14));
    assert_eq!(content_area(rect(3, 2, 50, 14)), rect(3, 2, 50, 14));
    assert_eq!(content_area(rect(3, 2, 50, 9)), rect(3, 2, 50, 9));
    assert_eq!(content_area(rect(0, 0, 0, 0)), rect(0, 0, 0, 0));
}

#[test]
fn layout_engine_puts_text_above_sprite() {
    assert_eq!(frame_regions(rect(0, 0, 80, 24)), Some((rect(0, 5, 80, 4), rect(0, 9, 80, 10))));
    assert_eq!(frame_regions(rect(2, 1, 40, 14)), Some((rect(2, 1, 40, 4), rect(2, 5, 40, 10))));
    let (text, sprite) = frame_regions(rect(0, 0, 30, 6)).unwrap();
    assert_eq!(text.y, 0);
    assert!(text.height + sprite.height <= 6);
    assert_eq!(sprite.y, text.y + text.height);
}

#[test]
fn layout_engine_gives_regions_on_every_area() {
    let areas = [
        rect(0, 0, 0, 0),
        rect(0, 0, 1, 1),
        rect(3, 4, 0, 9),
        rect(3, 4, 9, 0),
        rect(10, 10, 80, 13),
        rect(10, 10, 80, 14),
        rect(10, 10, 80, 15),
        rect(0, 0, u16::MAX, u16::MAX),
        rect(65_000, 65_000, 535, 535),
        rect(65_535, 65_535, 0, 0),
        rect(0, 65_521, 7, 14),
        rect(0, 65_530, 7, 5),
    ];
    for area in areas {
        let band = content_area(area);
        let (text, sprite) = frame_regions(area).unwrap();
        for region in [text, sprite] {
            assert!(region.is_valid(), "{area:?}");
            assert!(is_row_in(region, band), "{area:?}");
            assert_eq!((region.x, region.width), (area.x, area.width), "{area:?}");
            assert!(region.y >= band.y, "{area:?}");
            assert!(region.y + region.height <= band.y + band.height, "{area:?}");
        }
        assert!(is_above(text, sprite), "{area:?}");
    }
    assert_eq!(
        frame_regions(rect(5, 65_521, 7, 14)),
        Some((rect(5, 65_521, 7, 4), rect(5, 65_525, 7, 10)))
    );
}

#[test]
fn rows_are_accepted_when_they_are_stacked_in_the_band() {
    let band = rect(2, 5, 80, 14);
    let text = rect(2, 5, 80, 4);
    let sprite = rect(2, 9, 80, 10);
    assert_eq!(accept_rows(&vec![text, sprite], band), Some((text, sprite)));
    assert_eq!(accept_rows(&vec![text, rect(2, 12, 80, 7)], band), Some((text, rect(2, 12, 80, 7))));
    let empty = rect(2, 5, 80, 0);
    assert_eq!(accept_rows(&vec![empty, empty], band), Some((empty, empty)));
    assert_eq!(accept_rows(&vec![band, band], band), None);
    assert_eq!(accept_rows(&vec![sprite, text], band), None);
    assert_eq!(accept_rows(&vec![text, rect(2, 8, 80, 10)], band), None);
    assert_eq!(accept_rows(&vec![text, rect(2, 9, 80, 11)], band), None);
    assert_eq!(accept_rows(&vec![rect(2, 4, 80, 4), sprite], band), None);
    assert_eq!(accept_rows(&vec![rect(3, 5, 80, 4), sprite], band), None);
    assert_eq!(accept_rows(&vec![text, rect(2, 9, 79, 10)], band), None);
    assert_eq!(accept_rows(&vec![text], band), None);
    assert_eq!(accept_rows(&vec![text, sprite, sprite], band), None);
    assert_eq!(accept_rows(&vec![], band), None);
    let low = rect(0, 65_530, 9, 5);
    assert_eq!(
        accept_rows(&vec![rect(0, 65_530, 9, 2), rect(0, 65_532, 9, 3)], low),
        Some((rect(0, 65_530, 9, 2), rect(0, 65_532, 9, 3)))
    );
    assert_eq!(accept_rows(&vec![rect(0, 65_530, 9, 2), rect(0, 65_532, 9, 4)], low), None);
}

#[test]
fn rows_within_and_above() {
    let area = rect(2, 5, 80, 14);
    assert!(is_row_in(area, area));
    assert!(is_row_in(rect(2, 19, 80, 0), area));
    assert!(!is_row_in(rect(2, 19, 80, 1), area));
    assert!(!is_row_in(rect(2, 4, 80, 1), area));
    assert!(!is_row_in(rect(1, 5, 80, 1), area));
    assert!(!is_row_in(rect(2, 5, 81, 1), area));
    assert!(is_row_in(rect(0, 65_535, 0, 0), rect(0, 65_535, 0, u16::MAX)));
    assert!(is_above(rect(0, 1, 5, 3), rect(9, 4, 1, 1)));
    assert!(!is_above(rect(0, 1, 5, 3), rect(9, 3, 1, 1)));
    assert!(is_above(rect(0, 7, 5, 0), rect(0, 7, 5, 0)));
    assert!(!is_above(rect(0, 65_535, 5, 1), rect(0, 65_535, 5, 1)));
}

#[test]
fn short_text_is_centred() {
    let display = draw_text_display(rect(2, 3, 40, 6), "hello", 1);
    assert_eq!(display.text_area, rect(2, 4, 40, 4));
    assert_eq!(display.shown, "hello");
    assert!(display.centered);
    assert_eq!(display.new_char_area, Some(rect(28, 4, 4, 4)));
}

#[test]
fn all_new_characters_are_highlighted() {
    let display = draw_text_display(rect(0, 0, 40, 4), "Enter", 5);
    assert_eq!(display.text_area, rect(0, 0, 40, 4));
    assert_eq!(display.new_char_area, Some(rect(10, 0, 20, 4)));
    let two = draw_text_display(rect(0, 0, 41, 4), "abcd", 2);
    assert_eq!(two.new_char_area, Some(rect(20, 0, 8, 4)));
}

#[test]
fn long_text_shows_its_end_at_the_right_edge() {
    let display = draw_text_display(rect(1, 0, 22, 4), "abcdefgh", 1);
    assert_eq!(display.shown, "defgh");
    assert!(!display.centered);
    assert_eq!(display.new_char_area, Some(rect(19, 0, 4, 4)));
    let pasted = draw_text_display(rect(1, 0, 22, 4), "abcdefgh", 7);
    assert_eq!(pasted.new_char_area, Some(rect(3, 0, 20, 4)));
}

#[test]
fn long_text_is_cut_by_characters() {
    let display = draw_text_display(rect(0, 0, 8, 4), "aéîöü", 1);
    assert_eq!(display.shown, "öü");
    assert!(!display.centered);
    assert_eq!(display.new_char_area, Some(rect(4, 0, 4, 4)));
}

#[test]
fn text_that_just_fits_is_centred() {
    let display = draw_text_display(rect(0, 0, 21, 4), "abcde", 1);
    assert!(display.centered);
    assert_eq!(display.shown, "abcde");
    assert_eq!(display.new_char_area, Some(rect(16, 0, 4, 4)));
}

#[test]
fn no_highlight_without_new_or_shown_characters() {
    assert_eq!(draw_text_display(rect(0, 0, 40, 4), "hello", 0).new_char_area, None);
    assert_eq!(draw_text_display(rect(0, 0, 40, 4), "", 3).new_char_area, None);
    let narrow = draw_text_display(rect(0, 0, 3, 4), "hello", 1);
    assert_eq!(narrow.new_char_area, None);
    assert!(narrow.centered);
    assert_eq!(narrow.shown, "hello");
}

#[test]
fn text_rows_adapt_to_the_region() {
    assert_eq!(draw_text_display(rect(0, 10, 40, 2), "a", 1).text_area, rect(0, 10, 40, 2));
    assert_eq!(draw_text_display(rect(0, 10, 40, 9), "a", 1).text_area, rect(0, 12, 40, 4));
    assert_eq!(draw_text_display(rect(0, 10, 40, 0), "a", 1).new_char_area, Some(rect(18, 10, 4, 0)));
    let edge = draw_text_display(rect(65_495, 65_531, 40, 4), "abc", 1);
    assert_eq!(edge.text_area, rect(65_495, 65_531, 40, 4));
    assert_eq!(edge.new_char_area, Some(rect(65_517, 65_531, 4, 4)));
}

#[test]
fn sprite_sits_in_the_middle() {
    assert_eq!(sprite_position(rect(0, 9, 80, 10)), (9, 30));
    assert_eq!(sprite_position(rect(2, 3, 40, 6)), (3, 12));
    assert_eq!(sprite_position(rect(2, 3, 21, 13)), (4, 2));
    assert_eq!(sprite_position(rect(5, 6, 10, 4)), (6, 5));
}

#[test]
fn safe_rect_clips_to_its_parent() {
    let parent = rect(10, 20, 30, 5);
    assert_eq!(safe_rect(0, 0, 1, 1, parent), Some(rect(10, 20, 1, 1)));
    assert_eq!(safe_rect(29, 4, 1, 1, parent), Some(rect(39, 24, 1, 1)));
    assert_eq!(safe_rect(28, 3, 5, 5, parent), Some(rect(38, 23, 2, 2)));
    assert_eq!(safe_rect(30, 0, 1, 1, parent), None);
    assert_eq!(safe_rect(0, 5, 1, 1, parent), None);
    assert_eq!(safe_rect(0, 0, 0, 0, parent), Some(rect(10, 20, 0, 0)));
    assert_eq!(safe_rect(0, 0, 1, 1, rect(0, 0, 0, 0)), None);
}

#[test]
fn sprite_is_written_only_when_needed() {
    let app = App::new_at(0);
    let sheet = sheet_of(9);
    let area = rect(0, 9, 80, 10);
    assert_eq!(draw_dog(&app, &sheet, area, false), None);
    assert_eq!(draw_dog(&app, &SpriteSheet::unavailable(), area, true), None);
    assert_eq!(
        draw_dog(&app, &sheet, area, true),
        Some(String::from(
            "\x1b7\x1b[10;31H\x1b]1337;File=size=3;inline=1;width=20;height=10;preserveAspectRatio=1:CQAA\x07\x1b8"
        ))
    );
    let empty = SpriteSheet { loaded: true, typing_frames: vec![], idle_frames: vec![] };
    assert_eq!(draw_dog(&app, &empty, area, true), None);
}

#[test]
fn sprite_follows_state_and_frame() {
    let mut app = App::new_at(0);
    let sheet = sheet_of(9);
    let area = rect(0, 0, 20, 10);
    app.idle_frame = 3;
    assert!(draw_dog(&app, &sheet, area, true).unwrap().contains(":CQAD\x07"));
    app.on_key_at(String::from("a"), 0);
    app.typing_frame = 2;
    assert!(draw_dog(&app, &sheet, area, true).unwrap().contains(":CQEC\x07"));
    let short = SpriteSheet { loaded: true, typing_frames: vec![vec![1], vec![2], vec![3]], idle_frames: vec![] };
    app.typing_frame = 7;
    assert!(draw_dog(&app, &short, area, true).unwrap().contains(":Ag==\x07"));
}

#[test]
fn frame_without_text_shows_only_the_sprite() {
    let mut app = App::new_at(0);
    let plan = draw(&mut app, &sheet_of(1), rect(0, 5, 80, 4), rect(0, 9, 80, 10), true, 33);
    assert!(plan.image.is_some());
    assert!(plan.text.is_none());
    assert!(!plan.effects.typing);
    assert!(!plan.effects.fade);
}

#[test]
fn frame_with_text_runs_the_overlays() {
    let mut app = App::new_at(0);
    app.on_key_at(String::from("hi"), 0);
    let sheet = SpriteSheet::unavailable();
    let plan = draw(&mut app, &sheet, rect(0, 5, 80, 4), rect(0, 9, 80, 10), true, 33);
    assert_eq!(plan.image, None);
    let text = plan.text.unwrap();
    assert_eq!(text.shown, "hi");
    assert_eq!(text.text_area, rect(0, 5, 80, 4));
    assert_eq!(text.new_char_area, Some(rect(36, 5, 8, 4)));
    assert!(plan.effects.typing);
    assert!(plan.effects.typing_restarts);
    assert!(!plan.effects.fade);
    assert_eq!(app.typing_effect.unwrap().remaining, 117);
    let plan = draw(&mut app, &sheet, rect(0, 5, 80, 4), rect(0, 9, 80, 10), false, 33);
    assert!(plan.effects.typing);
    assert!(!plan.effects.typing_restarts);
    assert_eq!(app.typing_effect.unwrap().remaining, 84);

    app.tick_at(TYPING_LINGER_DURATION, 0);
    let plan = draw(&mut app, &sheet, rect(0, 5, 80, 4), rect(0, 9, 80, 10), false, 100);
    assert!(plan.effects.fade);
    assert!(plan.effects.fade_restarts);
    assert!(plan.effects.typing);
    assert_eq!(app.fade_effect.unwrap().remaining, 700);
    assert_eq!(app.typing_effect.unwrap().remaining, 0);
    let plan = draw(&mut app, &sheet, rect(0, 5, 80, 4), rect(0, 9, 80, 10), false, 100);
    assert!(plan.effects.fade);
    assert!(!plan.effects.fade_restarts);
    assert!(!plan.effects.typing);
}

#[test]
fn materialize_waits_while_its_cells_are_out_of_view() {
    let mut app = App::new_at(0);
    app.on_key_at(String::from("hi"), 0);
    let sheet = SpriteSheet::unavailable();
    let plan = draw(&mut app, &sheet, rect(0, 0, 3, 4), rect(0, 4, 3, 10), false, 33);
    assert_eq!(plan.text.unwrap().new_char_area, None);
    assert!(!plan.effects.typing);
    assert_eq!(app.typing_effect.unwrap().remaining, 150);
}

#[test]
fn animated_pictures() {
    assert!(gif_mode_available(true, true, false));
    assert!(gif_mode_available(true, false, true));
    assert!(!gif_mode_available(true, false, false));
    assert!(!gif_mode_available(false, true, true));

    let idle = vec![1u8, 2, 3];
    let typing = vec![4u8, 5, 6];
    let mut app = App::new_at(0);
    let idle_text = "\x1b7\x1b[3;5H\x1b]1337;File=size=3;inline=1;width=15;height=8;preserveAspectRatio=1:AQID\x07\x1b8";
    let typing_text = "\x1b7\x1b[3;5H\x1b]1337;File=size=3;inline=1;width=15;height=8;preserveAspectRatio=1:BAUG\x07\x1b8";
    assert_eq!(display_gif_if_available(&app, true, Some(&idle), Some(&typing), 2, 4).unwrap(), idle_text);
    assert_eq!(display_gif_if_available(&app, true, None, Some(&typing), 2, 4), None);
    assert_eq!(display_gif_if_available(&app, false, Some(&idle), Some(&typing), 2, 4), None);
    app.on_key_at(String::from("a"), 0);
    assert_eq!(display_gif_if_available(&app, true, Some(&idle), Some(&typing), 2, 4).unwrap(), typing_text);
    assert_eq!(display_gif_if_available(&app, true, Some(&idle), None, 2, 4).unwrap(), idle_text);
    assert_eq!(display_gif_if_available(&app, true, None, None, 2, 4), None);
}

#[test]
fn images_of_any_real_size_can_be_written() {
    assert!(is_encodable(0));
    assert!(is_encodable(1 << 30));
    assert!(!is_encodable(usize::MAX));
    assert!(!is_encodable(usize::MAX / 4 * 3));
    assert!(is_encodable(usize::MAX / 4 * 3 - 3));
    assert_eq!(
        try_display_image_at_position(b"hello", 0, 0, None, None).unwrap(),
        "\x1b7\x1b[1;1H\x1b]1337;File=size=5;inline=1;preserveAspectRatio=1:aGVsbG8=\x07\x1b8"
    );
}

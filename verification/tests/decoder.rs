use nav_state::decoder::{
    get_hint, input_cursor_position, input_text_width, selectable_block_hint, InputMode,
};
use nav_state::route::{ActiveBlock, Route, RouteId};

#[test]
fn hint_of_an_input_box() {
    assert_eq!(get_hint(&InputMode::Normal, true), "(Press <e> to edit | <c> to copy) ");
    assert_eq!(get_hint(&InputMode::Editing, true), "(Press <esc> to stop editing | <c> to copy) ");
    assert_eq!(get_hint(&InputMode::Normal, false), "");
    assert_eq!(get_hint(&InputMode::Editing, false), "");
}

#[test]
fn hint_of_a_block() {
    let route = Route { id: RouteId::Decoder, active_block: ActiveBlock::DecoderHeader };
    assert_eq!(
        selectable_block_hint(&route, ActiveBlock::DecoderHeader, None),
        (true, "(Press <c> to copy) ")
    );
    assert_eq!(selectable_block_hint(&route, ActiveBlock::DecoderPayload, None), (false, ""));
    assert_eq!(
        selectable_block_hint(&route, ActiveBlock::DecoderHeader, Some(&InputMode::Editing)),
        (true, "(Press <esc> to stop editing | <c> to copy) ")
    );
    assert_eq!(
        selectable_block_hint(&route, ActiveBlock::DecoderHeader, Some(&InputMode::Normal)),
        (true, "(Press <e> to edit | <c> to copy) ")
    );
    assert_eq!(
        selectable_block_hint(&route, ActiveBlock::DecoderSecret, Some(&InputMode::Normal)),
        (false, "")
    );
}

#[test]
fn width_left_for_input_text() {
    assert_eq!(input_text_width(0), 0);
    assert_eq!(input_text_width(2), 0);
    assert_eq!(input_text_width(3), 0);
    assert_eq!(input_text_width(4), 1);
    assert_eq!(input_text_width(80), 77);
    assert_eq!(input_text_width(u16::MAX), u16::MAX - 3);
}

#[test]
fn cursor_cell_of_an_input_box() {
    assert_eq!(input_cursor_position(0, 0, 0, 0), Some((1, 1)));
    assert_eq!(input_cursor_position(10, 5, 7, 0), Some((18, 6)));
    assert_eq!(input_cursor_position(10, 5, 40, 33), Some((18, 6)));
    // a cursor left of the scrolled-off part sits at the border
    assert_eq!(input_cursor_position(10, 5, 3, 8), Some((11, 6)));
    assert_eq!(input_cursor_position(0, 0, 65_534, 0), Some((u16::MAX, 1)));
    assert_eq!(input_cursor_position(1, 0, 65_534, 0), None);
    assert_eq!(input_cursor_position(0, 0, 65_535, 0), None);
    assert_eq!(input_cursor_position(u16::MAX, 0, 0, 0), None);
    assert_eq!(input_cursor_position(0, u16::MAX, 0, 0), None);
    assert_eq!(input_cursor_position(0, u16::MAX - 1, usize::MAX, usize::MAX), Some((1, u16::MAX)));
    assert_eq!(input_cursor_position(0, 0, usize::MAX, 0), None);
}

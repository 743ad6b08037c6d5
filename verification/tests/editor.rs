use term_chat::editor::InputField;

fn typed(text: &str) -> InputField {
    let mut field = InputField::new();
    for c in text.chars() {
        field.insert_character_at_cursor(c);
    }
    field
}

fn cursor_at(text: &str, cursor: usize) -> InputField {
    let mut field = typed(text);
    while field.cursor() > cursor {
        field.shift_cursor_left();
    }
    field
}

#[test]
fn new_field_is_empty() {
    let field = InputField::new();
    assert_eq!(field.content(), "");
    assert_eq!(field.cursor(), 0);
    assert_eq!(field.get_content_length(), 0);
    assert_eq!(field.get_char_indices(), Vec::<usize>::new());
}

#[test]
fn typing_appends_and_advances() {
    let field = typed("héllo");
    assert_eq!(field.content(), "héllo");
    assert_eq!(field.cursor(), 5);
    assert_eq!(field.get_content_length(), 5);
}

#[test]
fn content_length_counts_code_points_not_bytes() {
    let field = typed("a😀é");
    assert_eq!(field.content().len(), 7);
    assert_eq!(field.get_content_length(), 3);
}

#[test]
fn char_indices_are_the_byte_offsets_of_the_code_points() {
    assert_eq!(typed("héllo").get_char_indices(), vec![0, 1, 3, 4, 5]);
    assert_eq!(typed("a😀é€z").get_char_indices(), vec![0, 1, 5, 7, 10]);
    assert_eq!(typed("abc").get_char_indices(), vec![0, 1, 2]);
}

#[test]
fn insert_on_empty_field_with_cursor_at_start() {
    let mut field = InputField::new();
    field.insert_character_at_cursor('😀');
    assert_eq!(field.content(), "😀");
    assert_eq!(field.cursor(), 1);
}

#[test]
fn insert_in_the_middle_goes_before_the_cursor_s_code_point() {
    let mut field = cursor_at("héllo", 2);
    field.insert_character_at_cursor('x');
    assert_eq!(field.content(), "héxllo");
    assert_eq!(field.cursor(), 3);
}

#[test]
fn insert_at_start_of_multi_byte_text() {
    let mut field = cursor_at("éé", 0);
    field.insert_character_at_cursor('€');
    assert_eq!(field.content(), "€éé");
    assert_eq!(field.cursor(), 1);
}

#[test]
fn insert_after_a_four_byte_code_point() {
    let mut field = cursor_at("😀b", 1);
    field.insert_character_at_cursor('é');
    assert_eq!(field.content(), "😀éb");
    assert_eq!(field.cursor(), 2);
}

#[test]
fn multi_byte_insert_at_every_position_adds_one_code_point() {
    let base = "aé€😀z";
    for inserted in ['x', 'é', '€', '😀'] {
        for position in 0..=5 {
            let mut field = cursor_at(base, position);
            field.insert_character_at_cursor(inserted);
            assert_eq!(field.get_content_length(), 6);
            assert_eq!(field.cursor(), position + 1);
            let mut expected: Vec<char> = base.chars().collect();
            expected.insert(position, inserted);
            assert_eq!(field.content().chars().collect::<Vec<char>>(), expected);
        }
    }
}

#[test]
fn remove_on_empty_field_returns_none() {
    let mut field = InputField::new();
    assert_eq!(field.remove_character_at_cursor(), None);
    assert_eq!(field.content(), "");
    assert_eq!(field.cursor(), 0);
}

#[test]
fn remove_with_cursor_at_start_returns_none_and_changes_nothing() {
    let mut field = cursor_at("héllo", 0);
    assert_eq!(field.remove_character_at_cursor(), None);
    assert_eq!(field.content(), "héllo");
    assert_eq!(field.cursor(), 0);
}

#[test]
fn remove_takes_the_code_point_before_the_cursor() {
    let mut field = typed("héllo");
    assert_eq!(field.remove_character_at_cursor(), Some('o'));
    assert_eq!(field.content(), "héll");
    assert_eq!(field.cursor(), 4);
}

#[test]
fn remove_in_the_middle_of_multi_byte_text() {
    let mut field = cursor_at("a😀é€z", 2);
    assert_eq!(field.remove_character_at_cursor(), Some('😀'));
    assert_eq!(field.content(), "aé€z");
    assert_eq!(field.cursor(), 1);
    let mut field = cursor_at("a😀é€z", 4);
    assert_eq!(field.remove_character_at_cursor(), Some('€'));
    assert_eq!(field.content(), "a😀éz");
    assert_eq!(field.cursor(), 3);
}

#[test]
fn remove_undoes_insert() {
    for position in 0..=5 {
        let mut field = cursor_at("aé€😀z", position);
        field.insert_character_at_cursor('ß');
        assert_eq!(field.remove_character_at_cursor(), Some('ß'));
        assert_eq!(field.content(), "aé€😀z");
        assert_eq!(field.cursor(), position);
    }
}

#[test]
fn cursor_left_stops_at_the_start() {
    let mut field = typed("ab");
    field.shift_cursor_left();
    assert_eq!(field.cursor(), 1);
    field.shift_cursor_left();
    assert_eq!(field.cursor(), 0);
    field.shift_cursor_left();
    assert_eq!(field.cursor(), 0);
    assert_eq!(field.content(), "ab");
}

#[test]
fn cursor_right_stops_at_the_end() {
    let mut field = cursor_at("é😀", 0);
    field.shift_cursor_right();
    assert_eq!(field.cursor(), 1);
    field.shift_cursor_right();
    assert_eq!(field.cursor(), 2);
    field.shift_cursor_right();
    assert_eq!(field.cursor(), 2);
    assert_eq!(field.content(), "é😀");
}

#[test]
fn cursor_moves_on_empty_field_stay_at_zero() {
    let mut field = InputField::new();
    field.shift_cursor_right();
    assert_eq!(field.cursor(), 0);
    field.shift_cursor_left();
    assert_eq!(field.cursor(), 0);
}

#[test]
fn take_and_clear_returns_the_text_and_empties_the_field() {
    let mut field = cursor_at("héllo 😀", 3);
    let text = field.take_and_clear();
    assert_eq!(text, "héllo 😀");
    assert_eq!(field.content(), "");
    assert_eq!(field.cursor(), 0);
    assert_eq!(field.get_content_length(), 0);
    assert_eq!(field.remove_character_at_cursor(), None);
}

#[test]
fn take_and_clear_on_empty_field() {
    let mut field = InputField::new();
    assert_eq!(field.take_and_clear(), "");
    assert_eq!(field.content(), "");
    assert_eq!(field.cursor(), 0);
}

#[test]
fn field_is_usable_after_take_and_clear() {
    let mut field = typed("first");
    let _ = field.take_and_clear();
    field.insert_character_at_cursor('é');
    assert_eq!(field.content(), "é");
    assert_eq!(field.cursor(), 1);
}

#[test]
fn cursor_stays_in_the_text_over_a_long_run_of_edits() {
    let alphabet = ['a', 'é', '€', '😀', ' ', '"'];
    let mut field = InputField::new();
    let mut model: Vec<char> = Vec::new();
    let mut cursor = 0usize;
    let mut state: u64 = 0x2545_F491_4F6C_DD1D;
    for _ in 0..2000 {
        state = state.wrapping_mul(6364136223846793005).wrapping_add(1442695040888963407);
        let pick = (state >> 33) % 7;
        match pick {
            0 | 1 | 2 => {
                let c = alphabet[((state >> 40) % 6) as usize];
                field.insert_character_at_cursor(c);
                model.insert(cursor, c);
                cursor += 1;
            }
            3 => {
                let removed = field.remove_character_at_cursor();
                if cursor == 0 {
                    assert_eq!(removed, None);
                } else {
                    cursor -= 1;
                    assert_eq!(removed, Some(model.remove(cursor)));
                }
            }
            4 | 5 => {
                field.shift_cursor_left();
                cursor = cursor.saturating_sub(1);
            }
            _ => {
                field.shift_cursor_right();
                if cursor < model.len() {
                    cursor += 1;
                }
            }
        }
        assert!(field.cursor() <= field.get_content_length());
        assert_eq!(field.cursor(), cursor);
        assert_eq!(field.content().chars().collect::<Vec<char>>(), model);
    }
}

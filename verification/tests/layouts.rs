use egui_keyboard::layouts::{colemak, colemak_upper, qwerty, qwerty_upper, Key, KeyboardLayout};

/// The grid as text: one string per row, `^` for shift and `<-` for backspace.
fn drawn(rows: &Vec<Vec<Key>>) -> Vec<String> {
    let mut lines = Vec::new();
    for row in rows {
        let mut line = String::new();
        for key in row {
            match key {
                Key::Text(text) => line.push_str(text),
                Key::Backspace => line.push_str("<-"),
                Key::Upper => line.push('^'),
            }
        }
        lines.push(line);
    }
    lines
}

fn text_of(key: &Key) -> &'static str {
    match key {
        Key::Text(text) => text,
        _ => panic!("not a text key"),
    }
}

#[test]
fn qwerty_rows() {
    assert_eq!(
        drawn(&qwerty()),
        vec!["1234567890", "qwertyuiop", "asdfghjkl:", "^zxcvbnm,./<-", " "]
    );
}

#[test]
fn qwerty_upper_rows() {
    assert_eq!(
        drawn(&qwerty_upper()),
        vec!["!@#$%^&*()", "QWERTYUIOP", "ASDFGHJKL;", "^ZXCVBNM<>?<-", " "]
    );
}

#[test]
fn colemak_rows() {
    assert_eq!(
        drawn(&colemak()),
        vec!["1234567890", "qwfpgjluy;", "arstdhneio", "^zxcvbkm,./<-", " "]
    );
}

#[test]
fn colemak_upper_rows() {
    assert_eq!(
        drawn(&colemak_upper()),
        vec!["!@#$%^&*()", "QWFPGJLUY;", "ARSTDHNEIO", "^ZXCVBKM<>?<-", " "]
    );
}

#[test]
fn every_text_key_has_one_character() {
    for layout in [KeyboardLayout::Qwerty, KeyboardLayout::Colemak] {
        for uppercase in [false, true] {
            for row in layout.get_layout(uppercase) {
                for key in row {
                    if let Key::Text(text) = key {
                        assert_eq!(text.chars().count(), 1);
                    }
                }
            }
        }
    }
}

#[test]
fn get_layout_picks_the_grid() {
    assert_eq!(drawn(&KeyboardLayout::Qwerty.get_layout(false)), drawn(&qwerty()));
    assert_eq!(drawn(&KeyboardLayout::Qwerty.get_layout(true)), drawn(&qwerty_upper()));
    assert_eq!(drawn(&KeyboardLayout::Colemak.get_layout(false)), drawn(&colemak()));
    assert_eq!(drawn(&KeyboardLayout::Colemak.get_layout(true)), drawn(&colemak_upper()));
}

#[test]
fn default_layout_is_qwerty() {
    assert_eq!(KeyboardLayout::default(), KeyboardLayout::Qwerty);
}

#[test]
fn last_letter_row_lies_between_shift_and_backspace() {
    for layout in [KeyboardLayout::Qwerty, KeyboardLayout::Colemak] {
        for uppercase in [false, true] {
            let rows = layout.get_layout(uppercase);
            assert_eq!(rows.len(), 5);
            assert_eq!(rows[3].len(), 12);
            assert!(matches!(rows[3][0], Key::Upper));
            assert!(matches!(rows[3][11], Key::Backspace));
            assert_eq!(rows[4].len(), 1);
            assert_eq!(text_of(&rows[4][0]), " ");
        }
    }
}

#[test]
fn case_modes_have_the_same_shape() {
    for layout in [KeyboardLayout::Qwerty, KeyboardLayout::Colemak] {
        let lower = layout.get_layout(false);
        let upper = layout.get_layout(true);
        assert_eq!(lower.len(), upper.len());
        for (low, up) in lower.iter().zip(upper.iter()) {
            assert_eq!(low.len(), up.len());
            for (a, b) in low.iter().zip(up.iter()) {
                match (a, b) {
                    (Key::Text(_), Key::Text(_)) => {}
                    (Key::Backspace, Key::Backspace) => {}
                    (Key::Upper, Key::Upper) => {}
                    _ => panic!("a key changed its kind"),
                }
            }
        }
    }
}

#[test]
fn letters_become_capitals_in_place() {
    for layout in [KeyboardLayout::Qwerty, KeyboardLayout::Colemak] {
        let lower = layout.get_layout(false);
        let upper = layout.get_layout(true);
        for (low, up) in lower.iter().zip(upper.iter()) {
            for (a, b) in low.iter().zip(up.iter()) {
                if let (Key::Text(a), Key::Text(b)) = (a, b) {
                    let a = a.chars().next().unwrap();
                    if a.is_ascii_lowercase() {
                        assert_eq!(b.chars().next().unwrap(), a.to_ascii_uppercase());
                    }
                }
            }
        }
    }
}

#[test]
fn second_key_of_the_home_row_keeps_its_place() {
    assert_eq!(text_of(&qwerty()[2][1]), "s");
    assert_eq!(text_of(&qwerty_upper()[2][1]), "S");
    assert_eq!(text_of(&colemak()[2][1]), "r");
    assert_eq!(text_of(&colemak_upper()[2][1]), "R");
}

#[test]
fn digits_become_symbols() {
    let lower = qwerty();
    let upper = qwerty_upper();
    assert_eq!(text_of(&lower[0][0]), "1");
    assert_eq!(text_of(&upper[0][0]), "!");
    assert_eq!(text_of(&lower[0][9]), "0");
    assert_eq!(text_of(&upper[0][9]), ")");
    assert_eq!(text_of(&lower[2][9]), ":");
    assert_eq!(text_of(&upper[2][9]), ";");
}

#[test]
fn labels() {
    assert_eq!(Key::Text("a").label(), "a");
    assert_eq!(Key::Backspace.label(), "\u{23F4}");
    assert_eq!(Key::Upper.label(), "\u{23F6}");
}

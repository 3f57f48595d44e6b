//! Key grids: which keys the keyboard shows, row by row, in each case mode.
use vstd::prelude::*;
use vstd::string::StrSliceExecFns;

verus! {

/// One key of a layout.
pub enum Key {
    /// Inserts the given text; the text is also the key's label.
    Text(&'static str),
    /// Deletes the character before the cursor.
    Backspace,
    /// Switches between the lower and the upper key set.
    Upper,
}

/// What a [`Key`] stands for in contracts.
pub ghost enum KeyModel {
    Text(Seq<char>),
    Backspace,
    Upper,
}

impl View for Key {
    type V = KeyModel;

    open spec fn view(&self) -> KeyModel {
        match self {
            Key::Text(text) => KeyModel::Text(text@),
            Key::Backspace => KeyModel::Backspace,
            Key::Upper => KeyModel::Upper,
        }
    }
}

impl DeepView for Key {
    type V = KeyModel;

    open spec fn deep_view(&self) -> KeyModel {
        self@
    }
}

/// What is written on a key.
pub open spec fn key_label(key: KeyModel) -> Seq<char> {
    match key {
        KeyModel::Text(text) => text,
        KeyModel::Backspace => "\u{23F4}"@,
        KeyModel::Upper => "\u{23F6}"@,
    }
}

impl Key {
    /// What is written on this key: its text, or an arrow for backspace and shift.
    pub fn label(&self) -> (label: &'static str)
        ensures
            label@ == key_label(self@),
    {
        match self {
            Key::Text(text) => text,
            Key::Backspace => "\u{23F4}",
            Key::Upper => "\u{23F6}",
        }
    }
}

/// A run of single-character text keys, one for each character of `labels`.
pub open spec fn text_keys(labels: Seq<char>) -> Seq<KeyModel> {
    Seq::new(labels.len(), |i: int| KeyModel::Text(seq![labels[i]]))
}

/// Appends one text key per character of `labels` to `row`.
fn push_text_keys(row: &mut Vec<Key>, labels: &'static str)
    ensures
        final(row).deep_view() == old(row).deep_view() + text_keys(labels@),
{
    let count = labels.unicode_len();
    let mut i: usize = 0;
    while i < count
        invariant
            i <= count,
            count == labels@.len(),
            row.deep_view() == old(row).deep_view() + text_keys(labels@.take(i as int)),
        decreases count - i,
    {
        let label = labels.substring_char(i, i + 1);
        let ghost before = row.deep_view();
        row.push(Key::Text(label));
        proof {
            assert(label@ =~= seq![labels@[i as int]]);
            assert(row.deep_view() =~= before.push(KeyModel::Text(label@)));
            assert(text_keys(labels@.take(i as int + 1)) =~= text_keys(labels@.take(i as int)).push(
                KeyModel::Text(label@),
            ));
        }
        i += 1;
    }
    proof {
        assert(labels@.take(count as int) =~= labels@);
    }
}

/// A row made of single-character text keys only.
fn text_row(labels: &'static str) -> (row: Vec<Key>)
    ensures
        row.deep_view() == text_keys(labels@),
{
    let mut row: Vec<Key> = Vec::new();
    push_text_keys(&mut row, labels);
    proof {
        assert(row.deep_view() =~= text_keys(labels@));
    }
    row
}

/// The grid shared by the alphabetic layouts: a digit row, three letter rows, the
/// last of them between the shift key and backspace, and a row with the space key.
pub open spec fn letter_grid(
    digits: Seq<char>,
    top: Seq<char>,
    home: Seq<char>,
    bottom: Seq<char>,
) -> Seq<Seq<KeyModel>> {
    seq![
        text_keys(digits),
        text_keys(top),
        text_keys(home),
        seq![KeyModel::Upper] + text_keys(bottom) + seq![KeyModel::Backspace],
        text_keys(seq![' ']),
    ]
}

fn letter_rows(
    digits: &'static str,
    top: &'static str,
    home: &'static str,
    bottom: &'static str,
) -> (rows: Vec<Vec<Key>>)
    ensures
        rows.deep_view() == letter_grid(digits@, top@, home@, bottom@),
{
    let mut last: Vec<Key> = Vec::new();
    last.push(Key::Upper);
    push_text_keys(&mut last, bottom);
    let ghost before = last.deep_view();
    last.push(Key::Backspace);
    let space = text_row(" ");
    proof {
        reveal_strlit(" ");
        assert(" "@ =~= seq![' ']);
        assert(before =~= seq![KeyModel::Upper] + text_keys(bottom@));
        assert(last.deep_view() =~= before.push(KeyModel::Backspace));
    }
    let ghost grid = letter_grid(digits@, top@, home@, bottom@);
    let mut rows: Vec<Vec<Key>> = Vec::new();
    rows.push(text_row(digits));
    rows.push(text_row(top));
    rows.push(text_row(home));
    rows.push(last);
    rows.push(space);
    proof {
        assert forall|r: int| 0 <= r < 5 implies #[trigger] rows.deep_view()[r] == grid[r] by {
            assert(rows.deep_view()[r] == rows@[r].deep_view());
        }
        assert(rows.deep_view() =~= grid);
    }
    rows
}

/// The lower-case QWERTY grid.
pub open spec fn qwerty_grid() -> Seq<Seq<KeyModel>> {
    letter_grid("1234567890"@, "qwertyuiop"@, "asdfghjkl:"@, "zxcvbnm,./"@)
}

/// The upper-case QWERTY grid.
pub open spec fn qwerty_upper_grid() -> Seq<Seq<KeyModel>> {
    letter_grid("!@#$%^&*()"@, "QWERTYUIOP"@, "ASDFGHJKL;"@, "ZXCVBNM<>?"@)
}

/// The lower-case Colemak grid.
pub open spec fn colemak_grid() -> Seq<Seq<KeyModel>> {
    letter_grid("1234567890"@, "qwfpgjluy;"@, "arstdhneio"@, "zxcvbkm,./"@)
}

/// The upper-case Colemak grid.
pub open spec fn colemak_upper_grid() -> Seq<Seq<KeyModel>> {
    letter_grid("!@#$%^&*()"@, "QWFPGJLUY;"@, "ARSTDHNEIO"@, "ZXCVBKM<>?"@)
}

pub fn qwerty() -> (rows: Vec<Vec<Key>>)
    ensures
        rows.deep_view() == qwerty_grid(),
{
    letter_rows("1234567890", "qwertyuiop", "asdfghjkl:", "zxcvbnm,./")
}

pub fn qwerty_upper() -> (rows: Vec<Vec<Key>>)
    ensures
        rows.deep_view() == qwerty_upper_grid(),
{
    letter_rows("!@#$%^&*()", "QWERTYUIOP", "ASDFGHJKL;", "ZXCVBNM<>?")
}

pub fn colemak() -> (rows: Vec<Vec<Key>>)
    ensures
        rows.deep_view() == colemak_grid(),
{
    letter_rows("1234567890", "qwfpgjluy;", "arstdhneio", "zxcvbkm,./")
}

pub fn colemak_upper() -> (rows: Vec<Vec<Key>>)
    ensures
        rows.deep_view() == colemak_upper_grid(),
{
    letter_rows("!@#$%^&*()", "QWFPGJLUY;", "ARSTDHNEIO", "ZXCVBKM<>?")
}

/// The arrangements of keys that the keyboard can show.
#[derive(Clone, Copy, Debug, PartialEq, Eq, Structural)]
pub enum KeyboardLayout {
    Qwerty,
    Colemak,
}

impl Default for KeyboardLayout {
    fn default() -> (layout: Self)
        ensures
            layout == KeyboardLayout::Qwerty,
    {
        KeyboardLayout::Qwerty
    }
}

impl KeyboardLayout {
    /// The grid of this layout in the given case mode.
    pub open spec fn grid(self, uppercase: bool) -> Seq<Seq<KeyModel>> {
        match (self, uppercase) {
            (KeyboardLayout::Qwerty, false) => qwerty_grid(),
            (KeyboardLayout::Qwerty, true) => qwerty_upper_grid(),
            (KeyboardLayout::Colemak, false) => colemak_grid(),
            (KeyboardLayout::Colemak, true) => colemak_upper_grid(),
        }
    }

    /// The rows of keys of this layout, top to bottom, in the given case mode.
    pub fn get_layout(&self, uppercase: bool) -> (rows: Vec<Vec<Key>>)
        ensures
            rows.deep_view() == self.grid(uppercase),
    {
        match (self, uppercase) {
            (KeyboardLayout::Qwerty, false) => qwerty(),
            (KeyboardLayout::Qwerty, true) => qwerty_upper(),
            (KeyboardLayout::Colemak, false) => colemak(),
            (KeyboardLayout::Colemak, true) => colemak_upper(),
        }
    }
}

/// The character that a text key shows in the upper set where it shows `c` in the
/// lower set: a lower-case letter becomes its capital, a digit or punctuation mark
/// the symbol printed above it.
pub open spec fn shifted_char(c: char) -> char {
    if 'a' <= c && c <= 'z' {
        ((c as u8 - 32) as u8) as char
    } else if c == '1' {
        '!'
    } else if c == '2' {
        '@'
    } else if c == '3' {
        '#'
    } else if c == '4' {
        '$'
    } else if c == '5' {
        '%'
    } else if c == '6' {
        '^'
    } else if c == '7' {
        '&'
    } else if c == '8' {
        '*'
    } else if c == '9' {
        '('
    } else if c == '0' {
        ')'
    } else if c == ':' {
        ';'
    } else if c == ',' {
        '<'
    } else if c == '.' {
        '>'
    } else if c == '/' {
        '?'
    } else {
        c
    }
}

/// A key's counterpart in the upper set.
pub open spec fn shifted_key(key: KeyModel) -> KeyModel {
    match key {
        KeyModel::Text(text) => KeyModel::Text(text.map_values(|c: char| shifted_char(c))),
        KeyModel::Backspace => KeyModel::Backspace,
        KeyModel::Upper => KeyModel::Upper,
    }
}

/// A row's counterpart in the upper set: as many keys, each shifted.
pub open spec fn shifted_row(row: Seq<KeyModel>) -> Seq<KeyModel> {
    row.map_values(|key: KeyModel| shifted_key(key))
}

/// A grid's counterpart in the upper set: the same rows and columns, each key shifted.
pub open spec fn shifted_grid(grid: Seq<Seq<KeyModel>>) -> Seq<Seq<KeyModel>> {
    grid.map_values(|row: Seq<KeyModel>| shifted_row(row))
}

/// `upper` is `lower` with each character shifted.
spec fn shifts_to(lower: Seq<char>, upper: Seq<char>) -> bool {
    &&& lower.len() == upper.len()
    &&& forall|i: int| 0 <= i < lower.len() ==> upper[i] == shifted_char(#[trigger] lower[i])
}

/// Text keys of shifted characters are the shifted text keys.
proof fn lemma_shifted_text_keys(lower: Seq<char>, upper: Seq<char>)
    requires
        shifts_to(lower, upper),
    ensures
        shifted_row(text_keys(lower)) == text_keys(upper),
{
    let mapped = shifted_row(text_keys(lower));
    assert forall|i: int| 0 <= i < lower.len() implies mapped[i] == text_keys(upper)[i] by {
        assert(seq![lower[i]].map_values(|c: char| shifted_char(c)) =~= seq![upper[i]]);
    }
    assert(mapped =~= text_keys(upper));
}

/// A grid of shifted characters is the shifted grid.
proof fn lemma_shifted_letter_grid(
    digits: Seq<char>,
    top: Seq<char>,
    home: Seq<char>,
    bottom: Seq<char>,
    upper_digits: Seq<char>,
    upper_top: Seq<char>,
    upper_home: Seq<char>,
    upper_bottom: Seq<char>,
)
    requires
        shifts_to(digits, upper_digits),
        shifts_to(top, upper_top),
        shifts_to(home, upper_home),
        shifts_to(bottom, upper_bottom),
    ensures
        shifted_grid(letter_grid(digits, top, home, bottom)) == letter_grid(
            upper_digits,
            upper_top,
            upper_home,
            upper_bottom,
        ),
{
    let lower = letter_grid(digits, top, home, bottom);
    let upper = letter_grid(upper_digits, upper_top, upper_home, upper_bottom);
    lemma_shifted_text_keys(digits, upper_digits);
    lemma_shifted_text_keys(top, upper_top);
    lemma_shifted_text_keys(home, upper_home);
    lemma_shifted_text_keys(bottom, upper_bottom);
    lemma_shifted_text_keys(seq![' '], seq![' ']);
    assert(shifted_row(lower[3]) =~= upper[3]) by {
        let mapped = shifted_row(text_keys(bottom));
        assert forall|i: int| 0 <= i < lower[3].len() implies #[trigger] shifted_row(lower[3])[i]
            == upper[3][i] by {
            if 1 <= i <= bottom.len() {
                assert(lower[3][i] == text_keys(bottom)[i - 1]);
                assert(mapped[i - 1] == text_keys(upper_bottom)[i - 1]);
            }
        }
    }
    assert(shifted_grid(lower) =~= upper);
}

/// Switching the case mode moves no key: the upper grid of a layout has the rows and
/// columns of its lower grid, the shift key and backspace stay where they are, and
/// each text key shows the shifted character of the key in the same place.
pub proof fn lemma_upper_grid_is_shifted(layout: KeyboardLayout)
    ensures
        layout.grid(true) == shifted_grid(layout.grid(false)),
{
    reveal_strlit("1234567890");
    reveal_strlit("!@#$%^&*()");
    match layout {
        KeyboardLayout::Qwerty => {
            reveal_strlit("qwertyuiop");
            reveal_strlit("asdfghjkl:");
            reveal_strlit("zxcvbnm,./");
            reveal_strlit("QWERTYUIOP");
            reveal_strlit("ASDFGHJKL;");
            reveal_strlit("ZXCVBNM<>?");
            lemma_shifted_letter_grid(
                "1234567890"@,
                "qwertyuiop"@,
                "asdfghjkl:"@,
                "zxcvbnm,./"@,
                "!@#$%^&*()"@,
                "QWERTYUIOP"@,
                "ASDFGHJKL;"@,
                "ZXCVBNM<>?"@,
            );
        },
        KeyboardLayout::Colemak => {
            reveal_strlit("qwfpgjluy;");
            reveal_strlit("arstdhneio");
            reveal_strlit("zxcvbkm,./");
            reveal_strlit("QWFPGJLUY;");
            reveal_strlit("ARSTDHNEIO");
            reveal_strlit("ZXCVBKM<>?");
            lemma_shifted_letter_grid(
                "1234567890"@,
                "qwfpgjluy;"@,
                "arstdhneio"@,
                "zxcvbkm,./"@,
                "!@#$%^&*()"@,
                "QWFPGJLUY;"@,
                "ARSTDHNEIO"@,
                "ZXCVBKM<>?"@,
            );
        },
    }
}

} // verus!

use keyboard_heatmap::alice::{get_alice_rotation_config, lookup_placement, TiltEntry};
use keyboard_heatmap::key_box::KeyTextsLayout;
use keyboard_heatmap::keyboard::{
    alice_keyboard, keyboard_87, keyboard_rows, mac_keyboard, Cell, Key, KeyboardType, Labels,
    LayoutItem, Placement, Tilt, ITEM_SPACING,
};

fn item_width(item: &LayoutItem) -> u32 {
    match item {
        LayoutItem::Key(k) => k.width,
        LayoutItem::Blank(w, _) => *w,
        LayoutItem::Gap(g) => *g,
        LayoutItem::Stack(a, b) => {
            let wa = match a {
                Cell::Key(k) => k.width,
                Cell::Blank(w, _) => *w,
            };
            let wb = match b {
                Cell::Key(k) => k.width,
                Cell::Blank(w, _) => *w,
            };
            wa.max(wb)
        }
    }
}

fn row_extent(row: &[LayoutItem]) -> u32 {
    let widths: u32 = row.iter().map(item_width).sum();
    let widgets = row.iter().filter(|i| !matches!(i, LayoutItem::Gap(_))).count() as u32;
    widths + ITEM_SPACING * (widgets - 1)
}

fn keys_of(row: &[LayoutItem]) -> Vec<Key> {
    let mut keys = Vec::new();
    for item in row {
        match item {
            LayoutItem::Key(k) => keys.push(k.key),
            LayoutItem::Stack(a, b) => {
                if let Cell::Key(k) = a {
                    keys.push(k.key);
                }
                if let Cell::Key(k) = b {
                    keys.push(k.key);
                }
            }
            _ => {}
        }
    }
    keys
}

fn level() -> Placement {
    Placement { tilt: Tilt::Level, offset_x: 0, offset_y: 0 }
}

#[test]
fn descriptions_name_each_keyboard() {
    assert_eq!(KeyboardType::QwertyMac.description(), "MacBook");
    assert_eq!(KeyboardType::Qwerty87.description(), "87 Keys");
    assert_eq!(KeyboardType::QwertyAliceWeikav.description(), "Weikav Alice 68");
}

#[test]
fn mac_rows_are_equally_wide() {
    let rows = mac_keyboard();
    assert_eq!(rows.len(), 6);
    for row in &rows {
        assert_eq!(row_extent(row), 824);
    }
}

#[test]
fn keys87_rows_are_equally_wide() {
    let rows = keyboard_87();
    assert_eq!(rows.len(), 6);
    for row in &rows {
        assert_eq!(row_extent(row), 1043);
    }
}

#[test]
fn mac_first_row_starts_with_escape_and_ends_with_power() {
    let rows = mac_keyboard();
    let keys = keys_of(&rows[0]);
    assert_eq!(keys.len(), 14);
    assert_eq!(keys[0], Key::Escape);
    assert_eq!(keys[1], Key::F1);
    assert_eq!(keys[12], Key::F12);
    assert_eq!(keys[13], Key::Unknown(0));
    match rows[0][0] {
        LayoutItem::Key(k) => {
            assert_eq!(k.width, 70);
            assert!(matches!(k.labels, Labels::Center("Esc")));
        }
        _ => panic!("first item is not a key"),
    }
}

#[test]
fn mac_arrow_keys_stand_in_vertical_pairs() {
    let rows = mac_keyboard();
    let last = &rows[5];
    let stacks: Vec<&LayoutItem> =
        last.iter().filter(|i| matches!(i, LayoutItem::Stack(_, _))).collect();
    assert_eq!(stacks.len(), 3);
    match stacks[0] {
        LayoutItem::Stack(Cell::Blank(50, 24), Cell::Key(k)) => assert_eq!(k.key, Key::LeftArrow),
        _ => panic!("left arrow pair"),
    }
    match stacks[1] {
        LayoutItem::Stack(Cell::Key(u), Cell::Key(d)) => {
            assert_eq!(u.key, Key::UpArrow);
            assert_eq!(d.key, Key::DownArrow);
        }
        _ => panic!("up/down pair"),
    }
    match stacks[2] {
        LayoutItem::Stack(Cell::Blank(50, 25), Cell::Key(k)) => assert_eq!(k.key, Key::RightArrow),
        _ => panic!("right arrow pair"),
    }
}

#[test]
fn keys87_function_keys_come_in_groups_of_four() {
    let rows = keyboard_87();
    let row = &rows[0];
    // Esc, blank, F1..F4, gap 25, F5..F8, gap 25, F9..F12, gap 15, three keys
    assert_eq!(row.len(), 2 + 12 + 2 + 1 + 3);
    assert!(matches!(row[6], LayoutItem::Gap(25)));
    assert!(matches!(row[11], LayoutItem::Gap(25)));
    assert!(matches!(row[16], LayoutItem::Gap(15)));
    assert!(matches!(row[1], LayoutItem::Blank(50, 50)));
}

#[test]
fn keys87_menu_key_has_raw_code() {
    let rows = keyboard_87();
    let keys = keys_of(&rows[5]);
    assert!(keys.contains(&Key::Unknown(110)));
    assert_eq!(keys.len(), 11);
}

#[test]
fn dispatch_follows_keyboard_type() {
    assert_eq!(keyboard_rows(KeyboardType::QwertyMac).len(), 6);
    assert_eq!(keyboard_rows(KeyboardType::Qwerty87).len(), 6);
    assert_eq!(keyboard_rows(KeyboardType::QwertyAliceWeikav).len(), 5);
    assert_eq!(row_extent(&keyboard_rows(KeyboardType::Qwerty87)[2]), 1043);
}

#[test]
fn alice_config_has_every_entry() {
    let config = get_alice_rotation_config();
    assert_eq!(config.len(), 67);
    let e = config[4];
    assert_eq!((e.row, e.col, e.label), (0, 4, "3#"));
    assert_eq!(e.placement, Placement { tilt: Tilt::Clockwise, offset_x: -10, offset_y: 0 });
}

#[test]
fn alice_lookup_finds_tilted_keys() {
    let config = get_alice_rotation_config();
    assert_eq!(
        lookup_placement(&config, 0, 8, "7&"),
        Placement { tilt: Tilt::CounterClockwise, offset_x: 10, offset_y: 19 }
    );
    assert_eq!(
        lookup_placement(&config, 4, 4, " "),
        Placement { tilt: Tilt::CounterClockwise, offset_x: -15, offset_y: 18 }
    );
    assert_eq!(
        lookup_placement(&config, 2, 1, "Caps\nLock"),
        level()
    );
}

#[test]
fn alice_lookup_defaults_to_level() {
    let config = get_alice_rotation_config();
    assert_eq!(lookup_placement(&config, 0, 4, "3"), level());
    assert_eq!(lookup_placement(&config, 9, 0, "Esc"), level());
    assert_eq!(lookup_placement(&config, 0, 5, "3#"), level());
}

#[test]
fn lookup_takes_the_last_entry_under_a_key() {
    let first = Placement { tilt: Tilt::Clockwise, offset_x: 1, offset_y: 2 };
    let second = Placement { tilt: Tilt::CounterClockwise, offset_x: 3, offset_y: 4 };
    let config = vec![
        TiltEntry { row: 1, col: 2, label: "K", placement: first },
        TiltEntry { row: 1, col: 2, label: "K", placement: second },
    ];
    assert_eq!(lookup_placement(&config, 1, 2, "K"), second);
    assert_eq!(lookup_placement(&Vec::new(), 1, 2, "K"), level());
}

#[test]
fn alice_keys_are_placed_by_their_config_entry() {
    let config = get_alice_rotation_config();
    let rows = alice_keyboard();
    // number row: the key after escape is the back-quote key, looked up as "~`"
    let mut found = 0;
    for item in &rows[0] {
        if let LayoutItem::Key(k) = item {
            if k.key == Key::Num4 {
                assert_eq!(k.placement, lookup_placement(&config, 0, 5, "4$"));
                assert_eq!(k.placement.tilt, Tilt::Clockwise);
                found += 1;
            }
            if k.key == Key::Num7 {
                assert_eq!(k.placement.tilt, Tilt::CounterClockwise);
                found += 1;
            }
        }
    }
    assert_eq!(found, 2);
    // both halves of the split B key
    let b: Vec<Placement> = rows[3]
        .iter()
        .filter_map(|i| match i {
            LayoutItem::Key(k) if k.key == Key::KeyB => Some(k.placement),
            _ => None,
        })
        .collect();
    assert_eq!(b.len(), 2);
    assert_eq!(b[0], Placement { tilt: Tilt::Clockwise, offset_x: 0, offset_y: 25 });
    assert_eq!(b[1], Placement { tilt: Tilt::CounterClockwise, offset_x: 0, offset_y: 25 });
}

#[test]
fn alice_gaps_split_the_board() {
    let rows = alice_keyboard();
    let gaps: Vec<u32> = rows[0]
        .iter()
        .filter_map(|i| match i {
            LayoutItem::Gap(g) => Some(*g),
            _ => None,
        })
        .collect();
    assert_eq!(gaps, vec![20, 10, 8, 8, 8]);
    let gaps3: Vec<u32> = rows[3]
        .iter()
        .filter_map(|i| match i {
            LayoutItem::Gap(g) => Some(*g),
            _ => None,
        })
        .collect();
    assert_eq!(gaps3, vec![8, 10, 8]);
}

#[test]
fn key_texts_follow_labels() {
    let rows = mac_keyboard();
    match rows[1][0] {
        LayoutItem::Key(k) => match k.texts() {
            KeyTextsLayout::TopBottom((top, bottom)) => {
                assert_eq!(top, "`");
                assert_eq!(bottom, "~");
            }
            _ => panic!("number key has two labels"),
        },
        _ => panic!("key expected"),
    }
    match rows[0][0] {
        LayoutItem::Key(k) => match k.texts().clone() {
            KeyTextsLayout::Center1(s) => assert_eq!(s, "Esc"),
            _ => panic!("escape has one label"),
        },
        _ => panic!("key expected"),
    }
}

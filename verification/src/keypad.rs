//! The sixteen-key keypad and the keys of the host keyboard that stand for
//! it.

use vstd::prelude::*;

verus! {

/// A key of the host keyboard, named by its place on a QWERTY layout.
/// `Other` stands for every key that the keypad does not use.
#[derive(Clone, Copy, Debug, PartialEq, Eq, Structural)]
pub enum Scancode {
    Num1,
    Num2,
    Num3,
    Num4,
    Q,
    W,
    E,
    R,
    A,
    S,
    D,
    F,
    Z,
    X,
    C,
    V,
    Other,
}

/// The host keys that stand for the keypad: four rows of four, from the
/// top left.
pub const SCANCODES_KEYS: [Scancode; 16] = [
    Scancode::Num1,
    Scancode::Num2,
    Scancode::Num3,
    Scancode::Num4,
    Scancode::Q,
    Scancode::W,
    Scancode::E,
    Scancode::R,
    Scancode::A,
    Scancode::S,
    Scancode::D,
    Scancode::F,
    Scancode::Z,
    Scancode::X,
    Scancode::C,
    Scancode::V,
];

/// The keypad as it is laid out: row by row `1 2 3 C`, `4 5 6 D`,
/// `7 8 9 E`, `A 0 B F`.
pub open spec fn keypad_layout() -> Seq<u8> {
    seq![0x1u8, 0x2, 0x3, 0xC, 0x4, 0x5, 0x6, 0xD, 0x7, 0x8, 0x9, 0xE, 0xA, 0x0, 0xB, 0xF]
}

/// Whether the layout has a place for keypad key `key`.
pub open spec fn on_keypad(key: int) -> bool {
    exists|place: int| 0 <= place < 16 && #[trigger] keypad_layout()[place] == key
}

/// The keypad key that the host key `scancode` stands for: the one at the
/// same place of the four-by-four block.
pub open spec fn keypad_key(scancode: Scancode) -> Option<u8> {
    if exists|place: int| 0 <= place < 16 && #[trigger] SCANCODES_KEYS@[place] == scancode {
        let place = choose|place: int|
            0 <= place < 16 && #[trigger] SCANCODES_KEYS@[place] == scancode;
        Some(keypad_layout()[place])
    } else {
        None
    }
}

/// The keypad state that belongs to the host state `host_pressed`, which
/// tells for each place of `SCANCODES_KEYS` whether that host key is down.
pub open spec fn keypad_state(host_pressed: Seq<bool>) -> Seq<bool> {
    Seq::new(
        16,
        |key: int|
            exists|place: int|
                0 <= place < 16 && #[trigger] keypad_layout()[place] == key && host_pressed[place],
    )
}

/// The keypad key that the host key `scancode` stands for, if any.
pub fn get_scancode_key(scancode: Scancode) -> (r: Option<u8>)
    ensures
        r == keypad_key(scancode),
        r matches Some(key) ==> key < 16,
{
    let r = match scancode {
        Scancode::Num1 => Some(1),
        Scancode::Num2 => Some(2),
        Scancode::Num3 => Some(3),
        Scancode::Num4 => Some(0xC),
        Scancode::Q => Some(4),
        Scancode::W => Some(5),
        Scancode::E => Some(6),
        Scancode::R => Some(0xD),
        Scancode::A => Some(7),
        Scancode::S => Some(8),
        Scancode::D => Some(9),
        Scancode::F => Some(0xE),
        Scancode::Z => Some(0xA),
        Scancode::X => Some(0),
        Scancode::C => Some(0xB),
        Scancode::V => Some(0xF),
        Scancode::Other => None,
    };
    proof {
        lemma_places(scancode);
    }
    r
}

/// Turns the state of the host keys into the state of the keypad:
/// `host_pressed` tells for each place of `SCANCODES_KEYS` whether that
/// host key is down, the result tells it for each keypad key.
pub fn read_keys(host_pressed: &[bool; 16]) -> (keys: [bool; 16])
    ensures
        keys@ == keypad_state(host_pressed@),
{
    let mut keys = [false;16];
    let mut place: usize = 0;
    while place < 16
        invariant
            place <= 16,
            forall|key: int|
                0 <= key < 16 ==> #[trigger] keys@[key] == (exists|earlier: int|
                    0 <= earlier < place && #[trigger] keypad_layout()[earlier] == key
                        && host_pressed@[earlier]),
        decreases 16 - place,
    {
        let scancode = SCANCODES_KEYS[place];
        proof {
            lemma_places(scancode);
            lemma_layout_one_to_one();
            assert(place_of(scancode) == place);
        }
        if let Some(key) = get_scancode_key(scancode) {
            keys[key as usize] = host_pressed[place];
        }
        place += 1;
        proof {
            assert forall|key: int| 0 <= key < 16 implies #[trigger] keys@[key] == (exists|
                earlier: int,
            |
                0 <= earlier < place && #[trigger] keypad_layout()[earlier] == key
                    && host_pressed@[earlier]) by {
                if keys@[key] {
                    if key == keypad_layout()[place - 1] {
                        assert(keypad_layout()[place - 1] == key && host_pressed@[place - 1]);
                    } else {
                        let earlier = choose|earlier: int|
                            0 <= earlier < place - 1 && #[trigger] keypad_layout()[earlier] == key
                                && host_pressed@[earlier];
                        assert(keypad_layout()[earlier] == key && host_pressed@[earlier]);
                    }
                }
            }
        }
    }
    assert(keys@ =~= keypad_state(host_pressed@));
    keys
}

/// Every keypad key stands at exactly one place of the layout.
pub proof fn lemma_layout_one_to_one()
    ensures
        keypad_layout().len() == 16,
        forall|place: int| 0 <= place < 16 ==> #[trigger] keypad_layout()[place] < 16,
        forall|first: int, second: int|
            0 <= first < 16 && 0 <= second < 16 && #[trigger] keypad_layout()[first]
                == #[trigger] keypad_layout()[second] ==> first == second,
        forall|key: int| 0 <= key < 16 ==> #[trigger] on_keypad(key),
{
    let layout = keypad_layout();
    assert(layout[0] == 0x1 && layout[1] == 0x2 && layout[2] == 0x3 && layout[3] == 0xC);
    assert(layout[4] == 0x4 && layout[5] == 0x5 && layout[6] == 0x6 && layout[7] == 0xD);
    assert(layout[8] == 0x7 && layout[9] == 0x8 && layout[10] == 0x9 && layout[11] == 0xE);
    assert(layout[12] == 0xA && layout[13] == 0x0 && layout[14] == 0xB && layout[15] == 0xF);
    assert forall|key: int| 0 <= key < 16 implies #[trigger] on_keypad(key) by {
        let place: int = if key == 0 {
            13
        } else if key <= 3 {
            key - 1
        } else if key <= 6 {
            key
        } else if key <= 9 {
            key + 1
        } else if key == 0xA {
            12
        } else if key == 0xB {
            14
        } else {
            3 + 4 * (key - 0xC)
        };
        assert(keypad_layout()[place] == key);
    }
}

/// Where each host key stands in `SCANCODES_KEYS`, and nowhere else.
proof fn lemma_places(scancode: Scancode)
    ensures
        scancode is Other ==> keypad_key(scancode) is None,
        !(scancode is Other) ==> keypad_key(scancode) == Some(
            keypad_layout()[place_of(scancode)],
        ),
{
    let keys = SCANCODES_KEYS@;
    assert(keys[0] == Scancode::Num1 && keys[1] == Scancode::Num2 && keys[2] == Scancode::Num3
        && keys[3] == Scancode::Num4);
    assert(keys[4] == Scancode::Q && keys[5] == Scancode::W && keys[6] == Scancode::E && keys[7]
        == Scancode::R);
    assert(keys[8] == Scancode::A && keys[9] == Scancode::S && keys[10] == Scancode::D && keys[11]
        == Scancode::F);
    assert(keys[12] == Scancode::Z && keys[13] == Scancode::X && keys[14] == Scancode::C
        && keys[15] == Scancode::V);
    if !(scancode is Other) {
        assert(keys[place_of(scancode)] == scancode);
    }
}

/// The place of a host key in `SCANCODES_KEYS`.
spec fn place_of(scancode: Scancode) -> int {
    match scancode {
        Scancode::Num1 => 0,
        Scancode::Num2 => 1,
        Scancode::Num3 => 2,
        Scancode::Num4 => 3,
        Scancode::Q => 4,
        Scancode::W => 5,
        Scancode::E => 6,
        Scancode::R => 7,
        Scancode::A => 8,
        Scancode::S => 9,
        Scancode::D => 10,
        Scancode::F => 11,
        Scancode::Z => 12,
        Scancode::X => 13,
        Scancode::C => 14,
        Scancode::V => 15,
        Scancode::Other => 16,
    }
}

} // verus!

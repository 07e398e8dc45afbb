use vstd::prelude::*;

verus! {

/// Two characters are equal up to ASCII case when they are the same character, or when the
/// first is an upper-case ASCII letter and the second is its lower-case form.
pub open spec fn ascii_ci_char_eq(c: char, t: char) -> bool {
    c == t || ('A' <= c && c <= 'Z' && (c as u32) + 32 == (t as u32))
}

/// `name` spells `entry` when the two have the same length and agree position by position,
/// with upper-case ASCII letters of `name` standing for their lower-case forms.
pub open spec fn names_match(name: Seq<char>, entry: Seq<char>) -> bool {
    &&& name.len() == entry.len()
    &&& forall|j: int| 0 <= j < name.len() ==> ascii_ci_char_eq(#[trigger] name[j], entry[j])
}

/// The key code that a key name stands for in hotkey notation, if any. Names are looked up
/// without regard to ASCII case; the table's own names are lower case.
pub open spec fn keycode_of(name: Seq<char>) -> Option<u16> {
    if names_match(name, "alt"@) {
        Some(58u16)
    } else if names_match(name, "alt_gr"@) {
        Some(61u16)
    } else if names_match(name, "backspace"@) {
        Some(51u16)
    } else if names_match(name, "caps_lock"@) {
        Some(57u16)
    } else if names_match(name, "control_left"@) {
        Some(59u16)
    } else if names_match(name, "control_right"@) {
        Some(62u16)
    } else if names_match(name, "down_arrow"@) {
        Some(125u16)
    } else if names_match(name, "escape"@) {
        Some(53u16)
    } else if names_match(name, "f1"@) {
        Some(122u16)
    } else if names_match(name, "f10"@) {
        Some(109u16)
    } else if names_match(name, "f11"@) {
        Some(103u16)
    } else if names_match(name, "f12"@) {
        Some(111u16)
    } else if names_match(name, "f2"@) {
        Some(120u16)
    } else if names_match(name, "f3"@) {
        Some(99u16)
    } else if names_match(name, "f4"@) {
        Some(118u16)
    } else if names_match(name, "f5"@) {
        Some(96u16)
    } else if names_match(name, "f6"@) {
        Some(97u16)
    } else if names_match(name, "f7"@) {
        Some(98u16)
    } else if names_match(name, "f8"@) {
        Some(100u16)
    } else if names_match(name, "f9"@) {
        Some(101u16)
    } else if names_match(name, "function"@) {
        Some(63u16)
    } else if names_match(name, "left_arrow"@) {
        Some(123u16)
    } else if names_match(name, "meta_left"@) {
        Some(55u16)
    } else if names_match(name, "meta_right"@) {
        Some(54u16)
    } else if names_match(name, "return"@) {
        Some(36u16)
    } else if names_match(name, "enter"@) {
        Some(36u16)
    } else if names_match(name, "right_arrow"@) {
        Some(124u16)
    } else if names_match(name, "shift_left"@) {
        Some(56u16)
    } else if names_match(name, "shift_right"@) {
        Some(60u16)
    } else if names_match(name, "space"@) {
        Some(49u16)
    } else if names_match(name, "tab"@) {
        Some(48u16)
    } else if names_match(name, "up"@) {
        Some(126u16)
    } else if names_match(name, "`"@) {
        Some(50u16)
    } else if names_match(name, "num1"@) {
        Some(18u16)
    } else if names_match(name, "num2"@) {
        Some(19u16)
    } else if names_match(name, "num3"@) {
        Some(20u16)
    } else if names_match(name, "num4"@) {
        Some(21u16)
    } else if names_match(name, "num5"@) {
        Some(23u16)
    } else if names_match(name, "num6"@) {
        Some(22u16)
    } else if names_match(name, "num7"@) {
        Some(26u16)
    } else if names_match(name, "num8"@) {
        Some(28u16)
    } else if names_match(name, "num9"@) {
        Some(25u16)
    } else if names_match(name, "num0"@) {
        Some(29u16)
    } else if names_match(name, "-"@) {
        Some(27u16)
    } else if names_match(name, "="@) {
        Some(24u16)
    } else if names_match(name, "q"@) {
        Some(12u16)
    } else if names_match(name, "w"@) {
        Some(13u16)
    } else if names_match(name, "e"@) {
        Some(14u16)
    } else if names_match(name, "r"@) {
        Some(15u16)
    } else if names_match(name, "t"@) {
        Some(17u16)
    } else if names_match(name, "y"@) {
        Some(16u16)
    } else if names_match(name, "u"@) {
        Some(32u16)
    } else if names_match(name, "i"@) {
        Some(34u16)
    } else if names_match(name, "o"@) {
        Some(31u16)
    } else if names_match(name, "p"@) {
        Some(35u16)
    } else if names_match(name, "{"@) {
        Some(33u16)
    } else if names_match(name, "}"@) {
        Some(30u16)
    } else if names_match(name, "a"@) {
        Some(0u16)
    } else if names_match(name, "s"@) {
        Some(1u16)
    } else if names_match(name, "d"@) {
        Some(2u16)
    } else if names_match(name, "f"@) {
        Some(3u16)
    } else if names_match(name, "g"@) {
        Some(5u16)
    } else if names_match(name, "h"@) {
        Some(4u16)
    } else if names_match(name, "j"@) {
        Some(38u16)
    } else if names_match(name, "k"@) {
        Some(40u16)
    } else if names_match(name, "l"@) {
        Some(37u16)
    } else if names_match(name, ";"@) {
        Some(41u16)
    } else if names_match(name, "'"@) {
        Some(39u16)
    } else if names_match(name, "\\"@) {
        Some(42u16)
    } else if names_match(name, "z"@) {
        Some(6u16)
    } else if names_match(name, "x"@) {
        Some(7u16)
    } else if names_match(name, "c"@) {
        Some(8u16)
    } else if names_match(name, "v"@) {
        Some(9u16)
    } else if names_match(name, "b"@) {
        Some(11u16)
    } else if names_match(name, "n"@) {
        Some(45u16)
    } else if names_match(name, "m"@) {
        Some(46u16)
    } else if names_match(name, ","@) {
        Some(43u16)
    } else if names_match(name, "."@) {
        Some(47u16)
    } else if names_match(name, "/"@) {
        Some(44u16)
    } else {
        None
    }
}

fn char_eq_ci(c: char, t: char) -> (r: bool)
    ensures
        r == ascii_ci_char_eq(c, t),
{
    c == t || ('A' <= c && c <= 'Z' && (c as u32) + 32 == (t as u32))
}

/// Whether `name` spells `entry` up to ASCII case (see `names_match`).
pub fn name_matches(name: &str, entry: &str) -> (r: bool)
    ensures
        r == names_match(name@, entry@),
{
    let n = name.unicode_len();
    let m = entry.unicode_len();
    if n != m {
        return false;
    }
    let mut j: usize = 0;
    while j < n
        invariant
            n == name@.len(),
            m == entry@.len(),
            n == m,
            j <= n,
            forall|k: int| 0 <= k < j ==> ascii_ci_char_eq(#[trigger] name@[k], entry@[k]),
        decreases n - j,
    {
        let c = name.get_char(j);
        let t = entry.get_char(j);
        if !char_eq_ci(c, t) {
            return false;
        }
        j = j + 1;
    }
    true
}

/// Looks a key name up in the hotkey notation's table, ignoring ASCII case.
pub fn get_keycode(keyname: &str) -> (r: Option<u16>)
    ensures
        r == keycode_of(keyname@),
{
    if name_matches(keyname, "alt") {
        return Some(58);
    }
    if name_matches(keyname, "alt_gr") {
        return Some(61);
    }
    if name_matches(keyname, "backspace") {
        return Some(51);
    }
    if name_matches(keyname, "caps_lock") {
        return Some(57);
    }
    if name_matches(keyname, "control_left") {
        return Some(59);
    }
    if name_matches(keyname, "control_right") {
        return Some(62);
    }
    if name_matches(keyname, "down_arrow") {
        return Some(125);
    }
    if name_matches(keyname, "escape") {
        return Some(53);
    }
    if name_matches(keyname, "f1") {
        return Some(122);
    }
    if name_matches(keyname, "f10") {
        return Some(109);
    }
    if name_matches(keyname, "f11") {
        return Some(103);
    }
    if name_matches(keyname, "f12") {
        return Some(111);
    }
    if name_matches(keyname, "f2") {
        return Some(120);
    }
    if name_matches(keyname, "f3") {
        return Some(99);
    }
    if name_matches(keyname, "f4") {
        return Some(118);
    }
    if name_matches(keyname, "f5") {
        return Some(96);
    }
    if name_matches(keyname, "f6") {
        return Some(97);
    }
    if name_matches(keyname, "f7") {
        return Some(98);
    }
    if name_matches(keyname, "f8") {
        return Some(100);
    }
    if name_matches(keyname, "f9") {
        return Some(101);
    }
    if name_matches(keyname, "function") {
        return Some(63);
    }
    if name_matches(keyname, "left_arrow") {
        return Some(123);
    }
    if name_matches(keyname, "meta_left") {
        return Some(55);
    }
    if name_matches(keyname, "meta_right") {
        return Some(54);
    }
    if name_matches(keyname, "return") {
        return Some(36);
    }
    if name_matches(keyname, "enter") {
        return Some(36);
    }
    if name_matches(keyname, "right_arrow") {
        return Some(124);
    }
    if name_matches(keyname, "shift_left") {
        return Some(56);
    }
    if name_matches(keyname, "shift_right") {
        return Some(60);
    }
    if name_matches(keyname, "space") {
        return Some(49);
    }
    if name_matches(keyname, "tab") {
        return Some(48);
    }
    if name_matches(keyname, "up") {
        return Some(126);
    }
    if name_matches(keyname, "`") {
        return Some(50);
    }
    if name_matches(keyname, "num1") {
        return Some(18);
    }
    if name_matches(keyname, "num2") {
        return Some(19);
    }
    if name_matches(keyname, "num3") {
        return Some(20);
    }
    if name_matches(keyname, "num4") {
        return Some(21);
    }
    if name_matches(keyname, "num5") {
        return Some(23);
    }
    if name_matches(keyname, "num6") {
        return Some(22);
    }
    if name_matches(keyname, "num7") {
        return Some(26);
    }
    if name_matches(keyname, "num8") {
        return Some(28);
    }
    if name_matches(keyname, "num9") {
        return Some(25);
    }
    if name_matches(keyname, "num0") {
        return Some(29);
    }
    if name_matches(keyname, "-") {
        return Some(27);
    }
    if name_matches(keyname, "=") {
        return Some(24);
    }
    if name_matches(keyname, "q") {
        return Some(12);
    }
    if name_matches(keyname, "w") {
        return Some(13);
    }
    if name_matches(keyname, "e") {
        return Some(14);
    }
    if name_matches(keyname, "r") {
        return Some(15);
    }
    if name_matches(keyname, "t") {
        return Some(17);
    }
    if name_matches(keyname, "y") {
        return Some(16);
    }
    if name_matches(keyname, "u") {
        return Some(32);
    }
    if name_matches(keyname, "i") {
        return Some(34);
    }
    if name_matches(keyname, "o") {
        return Some(31);
    }
    if name_matches(keyname, "p") {
        return Some(35);
    }
    if name_matches(keyname, "{") {
        return Some(33);
    }
    if name_matches(keyname, "}") {
        return Some(30);
    }
    if name_matches(keyname, "a") {
        return Some(0);
    }
    if name_matches(keyname, "s") {
        return Some(1);
    }
    if name_matches(keyname, "d") {
        return Some(2);
    }
    if name_matches(keyname, "f") {
        return Some(3);
    }
    if name_matches(keyname, "g") {
        return Some(5);
    }
    if name_matches(keyname, "h") {
        return Some(4);
    }
    if name_matches(keyname, "j") {
        return Some(38);
    }
    if name_matches(keyname, "k") {
        return Some(40);
    }
    if name_matches(keyname, "l") {
        return Some(37);
    }
    if name_matches(keyname, ";") {
        return Some(41);
    }
    if name_matches(keyname, "'") {
        return Some(39);
    }
    if name_matches(keyname, "\\") {
        return Some(42);
    }
    if name_matches(keyname, "z") {
        return Some(6);
    }
    if name_matches(keyname, "x") {
        return Some(7);
    }
    if name_matches(keyname, "c") {
        return Some(8);
    }
    if name_matches(keyname, "v") {
        return Some(9);
    }
    if name_matches(keyname, "b") {
        return Some(11);
    }
    if name_matches(keyname, "n") {
        return Some(45);
    }
    if name_matches(keyname, "m") {
        return Some(46);
    }
    if name_matches(keyname, ",") {
        return Some(43);
    }
    if name_matches(keyname, ".") {
        return Some(47);
    }
    if name_matches(keyname, "/") {
        return Some(44);
    }
    None
}

/// Every name of the table is non-empty and none has a '-' in second place, so no name
/// begins like a modifier prefix of the hotkey notation.
pub proof fn lemma_key_names_shape(name: Seq<char>)
    requires
        keycode_of(name) is Some,
    ensures
        name.len() > 0,
        name.len() >= 2 ==> name[1] != '-',
{
        reveal_strlit("alt");
        reveal_strlit("alt_gr");
        reveal_strlit("backspace");
        reveal_strlit("caps_lock");
        reveal_strlit("control_left");
        reveal_strlit("control_right");
        reveal_strlit("down_arrow");
        reveal_strlit("escape");
        reveal_strlit("f1");
        reveal_strlit("f10");
        reveal_strlit("f11");
        reveal_strlit("f12");
        reveal_strlit("f2");
        reveal_strlit("f3");
        reveal_strlit("f4");
        reveal_strlit("f5");
        reveal_strlit("f6");
        reveal_strlit("f7");
        reveal_strlit("f8");
        reveal_strlit("f9");
        reveal_strlit("function");
        reveal_strlit("left_arrow");
        reveal_strlit("meta_left");
        reveal_strlit("meta_right");
        reveal_strlit("return");
        reveal_strlit("enter");
        reveal_strlit("right_arrow");
        reveal_strlit("shift_left");
        reveal_strlit("shift_right");
        reveal_strlit("space");
        reveal_strlit("tab");
        reveal_strlit("up");
        reveal_strlit("`");
        reveal_strlit("num1");
        reveal_strlit("num2");
        reveal_strlit("num3");
        reveal_strlit("num4");
        reveal_strlit("num5");
        reveal_strlit("num6");
        reveal_strlit("num7");
        reveal_strlit("num8");
        reveal_strlit("num9");
        reveal_strlit("num0");
        reveal_strlit("-");
        reveal_strlit("=");
        reveal_strlit("q");
        reveal_strlit("w");
        reveal_strlit("e");
        reveal_strlit("r");
        reveal_strlit("t");
        reveal_strlit("y");
        reveal_strlit("u");
        reveal_strlit("i");
        reveal_strlit("o");
        reveal_strlit("p");
        reveal_strlit("{");
        reveal_strlit("}");
        reveal_strlit("a");
        reveal_strlit("s");
        reveal_strlit("d");
        reveal_strlit("f");
        reveal_strlit("g");
        reveal_strlit("h");
        reveal_strlit("j");
        reveal_strlit("k");
        reveal_strlit("l");
        reveal_strlit(";");
        reveal_strlit("'");
        reveal_strlit("\\");
        reveal_strlit("z");
        reveal_strlit("x");
        reveal_strlit("c");
        reveal_strlit("v");
        reveal_strlit("b");
        reveal_strlit("n");
        reveal_strlit("m");
        reveal_strlit(",");
        reveal_strlit(".");
        reveal_strlit("/");
}

/// The key-code constants that scripts see, by name, in table order.
pub open spec fn script_key_constants_spec() -> Seq<(&'static str, u16)> {
    seq![
        ("ALT", 58u16),
        ("ALT_GR", 61u16),
        ("BACKSPACE", 51u16),
        ("CAPS_LOCK", 57u16),
        ("CONTROL_LEFT", 59u16),
        ("CONTROL_RIGHT", 62u16),
        ("DOWN_ARROW", 125u16),
        ("ESCAPE", 53u16),
        ("F1", 122u16),
        ("F10", 109u16),
        ("F11", 103u16),
        ("F12", 111u16),
        ("F2", 120u16),
        ("F3", 99u16),
        ("F4", 118u16),
        ("F5", 96u16),
        ("F6", 97u16),
        ("F7", 98u16),
        ("F8", 100u16),
        ("F9", 101u16),
        ("FUNCTION", 63u16),
        ("LEFT_ARROW", 123u16),
        ("META_LEFT", 55u16),
        ("META_RIGHT", 54u16),
        ("RETURN", 36u16),
        ("RIGHT_ARROW", 124u16),
        ("SHIFT_LEFT", 56u16),
        ("SHIFT_RIGHT", 60u16),
        ("SPACE", 49u16),
        ("TAB", 48u16),
        ("UP_ARROW", 126u16),
        ("BACK_QUOTE", 50u16),
        ("NUM1", 18u16),
        ("NUM2", 19u16),
        ("NUM3", 20u16),
        ("NUM4", 21u16),
        ("NUM5", 23u16),
        ("NUM6", 22u16),
        ("NUM7", 26u16),
        ("NUM8", 28u16),
        ("NUM9", 25u16),
        ("NUM0", 29u16),
        ("MINUS", 27u16),
        ("EQUAL", 24u16),
        ("Q", 12u16),
        ("W", 13u16),
        ("E", 14u16),
        ("R", 15u16),
        ("T", 17u16),
        ("Y", 16u16),
        ("U", 32u16),
        ("I", 34u16),
        ("O", 31u16),
        ("P", 35u16),
        ("LEFT_BRACKET", 33u16),
        ("RIGHT_BRACKET", 30u16),
        ("A", 0u16),
        ("S", 1u16),
        ("D", 2u16),
        ("F", 3u16),
        ("G", 5u16),
        ("H", 4u16),
        ("J", 38u16),
        ("K", 40u16),
        ("L", 37u16),
        ("SEMI_COLON", 41u16),
        ("QUOTE", 39u16),
        ("BACK_SLASH", 42u16),
        ("Z", 6u16),
        ("X", 7u16),
        ("C", 8u16),
        ("V", 9u16),
        ("B", 11u16),
        ("N", 45u16),
        ("M", 46u16),
        ("COMMA", 43u16),
        ("DOT", 47u16),
        ("SLASH", 44u16),
    ]
}

/// The key-code constants that the script environment exposes, as (name, code) pairs.
pub fn script_key_constants() -> (r: Vec<(&'static str, u16)>)
    ensures
        r@ == script_key_constants_spec(),
{
    let mut v: Vec<(&'static str, u16)> = Vec::new();
    v.push(("ALT", 58));
    v.push(("ALT_GR", 61));
    v.push(("BACKSPACE", 51));
    v.push(("CAPS_LOCK", 57));
    v.push(("CONTROL_LEFT", 59));
    v.push(("CONTROL_RIGHT", 62));
    v.push(("DOWN_ARROW", 125));
    v.push(("ESCAPE", 53));
    v.push(("F1", 122));
    v.push(("F10", 109));
    v.push(("F11", 103));
    v.push(("F12", 111));
    v.push(("F2", 120));
    v.push(("F3", 99));
    v.push(("F4", 118));
    v.push(("F5", 96));
    v.push(("F6", 97));
    v.push(("F7", 98));
    v.push(("F8", 100));
    v.push(("F9", 101));
    v.push(("FUNCTION", 63));
    v.push(("LEFT_ARROW", 123));
    v.push(("META_LEFT", 55));
    v.push(("META_RIGHT", 54));
    v.push(("RETURN", 36));
    v.push(("RIGHT_ARROW", 124));
    v.push(("SHIFT_LEFT", 56));
    v.push(("SHIFT_RIGHT", 60));
    v.push(("SPACE", 49));
    v.push(("TAB", 48));
    v.push(("UP_ARROW", 126));
    v.push(("BACK_QUOTE", 50));
    v.push(("NUM1", 18));
    v.push(("NUM2", 19));
    v.push(("NUM3", 20));
    v.push(("NUM4", 21));
    v.push(("NUM5", 23));
    v.push(("NUM6", 22));
    v.push(("NUM7", 26));
    v.push(("NUM8", 28));
    v.push(("NUM9", 25));
    v.push(("NUM0", 29));
    v.push(("MINUS", 27));
    v.push(("EQUAL", 24));
    v.push(("Q", 12));
    v.push(("W", 13));
    v.push(("E", 14));
    v.push(("R", 15));
    v.push(("T", 17));
    v.push(("Y", 16));
    v.push(("U", 32));
    v.push(("I", 34));
    v.push(("O", 31));
    v.push(("P", 35));
    v.push(("LEFT_BRACKET", 33));
    v.push(("RIGHT_BRACKET", 30));
    v.push(("A", 0));
    v.push(("S", 1));
    v.push(("D", 2));
    v.push(("F", 3));
    v.push(("G", 5));
    v.push(("H", 4));
    v.push(("J", 38));
    v.push(("K", 40));
    v.push(("L", 37));
    v.push(("SEMI_COLON", 41));
    v.push(("QUOTE", 39));
    v.push(("BACK_SLASH", 42));
    v.push(("Z", 6));
    v.push(("X", 7));
    v.push(("C", 8));
    v.push(("V", 9));
    v.push(("B", 11));
    v.push(("N", 45));
    v.push(("M", 46));
    v.push(("COMMA", 43));
    v.push(("DOT", 47));
    v.push(("SLASH", 44));
    proof {
        assert(v@ =~= script_key_constants_spec());
    }
    v
}

} // verus!

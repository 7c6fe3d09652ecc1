//! Keyboard scancode decoder.
//!
//! Scancodes arrive one byte at a time from the keyboard controller. A
//! reserved prefix byte opens a two-byte extended sequence used by the
//! navigation keys; any byte with the high (release) bit set marks a key
//! release and produces no event. The decoder is a two-state machine,
//! expressed as a pure step function so that the busy-poll loop at the
//! hardware boundary stays outside the library.
//!
//! Decoded events are single bytes: ASCII for ordinary keys, and the four
//! `KEY_*` codes (outside the ASCII range) for the navigation keys.

use vstd::prelude::*;

verus! {

/// Event code for the "recall older" (up) navigation key.
pub const KEY_UP: u8 = 0x80;

/// Event code for the "recall newer" (down) navigation key.
pub const KEY_DOWN: u8 = 0x81;

/// Event code for the cursor-left navigation key.
pub const KEY_LEFT: u8 = 0x82;

/// Event code for the cursor-right navigation key.
pub const KEY_RIGHT: u8 = 0x83;

/// Prefix byte that opens a two-byte extended scancode sequence.
pub const EXTENDED_PREFIX: u8 = 0xE0;

/// The layout table: the ASCII byte of each press-phase scancode, or 0 for
/// keys without a character (modifiers, function keys, codes past the table).
pub open spec fn spec_scancode_to_ascii(sc: u8) -> u8 {
    if sc == 1 { 27 }       // escape
    else if sc == 2 { 49 }  // '1'
    else if sc == 3 { 50 }  // '2'
    else if sc == 4 { 51 }  // '3'
    else if sc == 5 { 52 }  // '4'
    else if sc == 6 { 53 }  // '5'
    else if sc == 7 { 54 }  // '6'
    else if sc == 8 { 55 }  // '7'
    else if sc == 9 { 56 }  // '8'
    else if sc == 10 { 57 } // '9'
    else if sc == 11 { 48 } // '0'
    else if sc == 12 { 45 } // '-'
    else if sc == 13 { 61 } // '='
    else if sc == 14 { 8 }  // backspace
    else if sc == 15 { 9 }  // tab
    else if sc == 16 { 113 } // 'q'
    else if sc == 17 { 119 } // 'w'
    else if sc == 18 { 101 } // 'e'
    else if sc == 19 { 114 } // 'r'
    else if sc == 20 { 116 } // 't'
    else if sc == 21 { 121 } // 'y'
    else if sc == 22 { 117 } // 'u'
    else if sc == 23 { 105 } // 'i'
    else if sc == 24 { 111 } // 'o'
    else if sc == 25 { 112 } // 'p'
    else if sc == 26 { 91 }  // '['
    else if sc == 27 { 93 }  // ']'
    else if sc == 28 { 10 }  // enter
    else if sc == 30 { 97 }  // 'a'
    else if sc == 31 { 115 } // 's'
    else if sc == 32 { 100 } // 'd'
    else if sc == 33 { 102 } // 'f'
    else if sc == 34 { 103 } // 'g'
    else if sc == 35 { 104 } // 'h'
    else if sc == 36 { 106 } // 'j'
    else if sc == 37 { 107 } // 'k'
    else if sc == 38 { 108 } // 'l'
    else if sc == 39 { 59 }  // ';'
    else if sc == 40 { 39 }  // '\''
    else if sc == 41 { 96 }  // '`'
    else if sc == 43 { 92 }  // '\\'
    else if sc == 44 { 122 } // 'z'
    else if sc == 45 { 120 } // 'x'
    else if sc == 46 { 99 }  // 'c'
    else if sc == 47 { 118 } // 'v'
    else if sc == 48 { 98 }  // 'b'
    else if sc == 49 { 110 } // 'n'
    else if sc == 50 { 109 } // 'm'
    else if sc == 51 { 44 }  // ','
    else if sc == 52 { 46 }  // '.'
    else if sc == 53 { 47 }  // '/'
    else if sc == 55 { 42 }  // keypad '*'
    else if sc == 57 { 32 }  // space
    else { 0 }
}

/// The navigation event of an extended sequence's second byte, if any.
pub open spec fn nav_of(e: u8) -> Option<u8> {
    if e == 0x48 {
        Some(KEY_UP)
    } else if e == 0x50 {
        Some(KEY_DOWN)
    } else if e == 0x4B {
        Some(KEY_LEFT)
    } else if e == 0x4D {
        Some(KEY_RIGHT)
    } else {
        None
    }
}

/// One step of the decoder state machine. The state is whether the prefix
/// byte was just seen; the result is the new state and the event produced,
/// if any. Release-phase bytes (high bit set) and unmapped codes produce no
/// event.
pub open spec fn spec_step(expect_extended: bool, sc: u8) -> (bool, Option<u8>) {
    if expect_extended {
        if sc >= 0x80 {
            (false, None)
        } else {
            (false, nav_of(sc))
        }
    } else if sc == EXTENDED_PREFIX {
        (true, None)
    } else if sc >= 0x80 {
        (false, None)
    } else if spec_scancode_to_ascii(sc) != 0 {
        (false, Some(spec_scancode_to_ascii(sc)))
    } else {
        (false, None)
    }
}

/// The first event decoded from a scancode stream starting in the given
/// state, together with how many bytes were consumed to produce it.
pub open spec fn spec_read_key_from(expect_extended: bool, s: Seq<u8>) -> Option<(u8, int)>
    decreases s.len(),
{
    if s.len() == 0 {
        None
    } else {
        let st = spec_step(expect_extended, s[0]);
        match st.1 {
            Some(ev) => Some((ev, 1)),
            None => match spec_read_key_from(st.0, s.skip(1)) {
                Some(p) => Some((p.0, p.1 + 1)),
                None => None,
            },
        }
    }
}

/// The first event decoded from a scancode stream, starting idle.
pub open spec fn spec_read_key(s: Seq<u8>) -> Option<(u8, int)> {
    spec_read_key_from(false, s)
}

/// The ASCII byte of a press-phase scancode, 0 for unmapped keys.
pub fn scancode_to_ascii(sc: u8) -> (r: u8)
    ensures
        r == spec_scancode_to_ascii(sc),
{
    match sc {
        1 => 27,
        2 => 49,
        3 => 50,
        4 => 51,
        5 => 52,
        6 => 53,
        7 => 54,
        8 => 55,
        9 => 56,
        10 => 57,
        11 => 48,
        12 => 45,
        13 => 61,
        14 => 8,
        15 => 9,
        16 => 113,
        17 => 119,
        18 => 101,
        19 => 114,
        20 => 116,
        21 => 121,
        22 => 117,
        23 => 105,
        24 => 111,
        25 => 112,
        26 => 91,
        27 => 93,
        28 => 10,
        30 => 97,
        31 => 115,
        32 => 100,
        33 => 102,
        34 => 103,
        35 => 104,
        36 => 106,
        37 => 107,
        38 => 108,
        39 => 59,
        40 => 39,
        41 => 96,
        43 => 92,
        44 => 122,
        45 => 120,
        46 => 99,
        47 => 118,
        48 => 98,
        49 => 110,
        50 => 109,
        51 => 44,
        52 => 46,
        53 => 47,
        55 => 42,
        57 => 32,
        _ => 0,
    }
}

/// The decoder state machine: idle, or waiting for the second byte of an
/// extended sequence.
pub struct KeyDecoder {
    pub expect_extended: bool,
}

impl KeyDecoder {
    /// A decoder in the idle state.
    pub fn new() -> (d: KeyDecoder)
        ensures
            !d.expect_extended,
    {
        KeyDecoder { expect_extended: false }
    }

    /// Feeds one scancode byte; returns the decoded event, if this byte
    /// completes one.
    pub fn step(&mut self, sc: u8) -> (r: Option<u8>)
        ensures
            (final(self).expect_extended, r) == spec_step(old(self).expect_extended, sc),
    {
        if self.expect_extended {
            self.expect_extended = false;
            if sc >= 0x80 {
                None
            } else if sc == 0x48 {
                Some(KEY_UP)
            } else if sc == 0x50 {
                Some(KEY_DOWN)
            } else if sc == 0x4B {
                Some(KEY_LEFT)
            } else if sc == 0x4D {
                Some(KEY_RIGHT)
            } else {
                None
            }
        } else if sc == EXTENDED_PREFIX {
            self.expect_extended = true;
            None
        } else if sc >= 0x80 {
            None
        } else {
            let ascii = scancode_to_ascii(sc);
            if ascii != 0 {
                Some(ascii)
            } else {
                None
            }
        }
    }
}

/// Reads one key from a scancode stream: feeds bytes to an idle decoder
/// until an event comes out, and returns it with the number of bytes
/// consumed, or `None` if the stream ends first.
pub fn read_key(codes: &[u8]) -> (r: Option<(u8, usize)>)
    ensures
        (match spec_read_key(codes@) {
            Some(p) => r == Some((p.0, p.1 as usize)) && 1 <= p.1 <= codes@.len(),
            None => r is None,
        }),
{
    let mut dec = KeyDecoder::new();
    let mut i: usize = 0;
    proof {
        assert(codes@.skip(0) =~= codes@);
    }
    while i < codes.len()
        invariant
            i <= codes.len(),
            spec_read_key(codes@) == (match spec_read_key_from(
                dec.expect_extended,
                codes@.skip(i as int),
            ) {
                Some(p) => Some((p.0, p.1 + i)),
                None => None::<(u8, int)>,
            }),
        decreases codes.len() - i,
    {
        let ghost pre = dec.expect_extended;
        let ev = dec.step(codes[i]);
        proof {
            assert(codes@.skip(i as int)[0] == codes@[i as int]);
            assert(codes@.skip(i as int).skip(1) =~= codes@.skip(i + 1));
            assert(spec_read_key_from(pre, codes@.skip(i as int)) == (
                match spec_step(pre, codes@[i as int]).1 {
                    Some(e) => Some((e, 1int)),
                    None => match spec_read_key_from(
                        spec_step(pre, codes@[i as int]).0,
                        codes@.skip(i + 1),
                    ) {
                        Some(p) => Some((p.0, p.1 + 1)),
                        None => None::<(u8, int)>,
                    },
                }
            ));
        }
        i += 1;
        if let Some(e) = ev {
            return Some((e, i));
        }
    }
    proof {
        assert(codes@.skip(codes@.len() as int) =~= Seq::<u8>::empty());
    }
    None
}

/// An extended sequence — the prefix byte followed by a mapped press-phase
/// second byte — decodes to exactly one navigation event, consuming exactly
/// those two bytes, whatever follows.
pub proof fn lemma_extended_sequence(e: u8, rest: Seq<u8>)
    requires
        nav_of(e) is Some,
    ensures
        spec_read_key(seq![EXTENDED_PREFIX, e].add(rest)) == Some((nav_of(e).unwrap(), 2int)),
{
    let s = seq![EXTENDED_PREFIX, e].add(rest);
    assert(s[0] == EXTENDED_PREFIX);
    assert(spec_step(false, EXTENDED_PREFIX) == (true, None::<u8>));
    assert(s.skip(1)[0] == e);
    assert(e < 0x80);
    assert(spec_step(true, e) == (false, nav_of(e)));
    assert(spec_read_key_from(true, s.skip(1)) == Some((nav_of(e).unwrap(), 1int)));
    assert(spec_read_key_from(false, s) == Some((nav_of(e).unwrap(), 2int)));
}

/// A release-phase ordinary scancode (high bit set, not the extended
/// prefix) produces no event: decoding resumes on the rest of the stream.
pub proof fn lemma_release_ignored(sc: u8, rest: Seq<u8>)
    requires
        sc >= 0x80,
        sc != EXTENDED_PREFIX,
    ensures
        spec_read_key(seq![sc].add(rest)) == (match spec_read_key(rest) {
            Some(p) => Some((p.0, p.1 + 1)),
            None => None::<(u8, int)>,
        }),
{
    let s = seq![sc].add(rest);
    assert(s[0] == sc);
    assert(spec_step(false, sc) == (false, None::<u8>));
    assert(s.skip(1) =~= rest);
    assert(spec_read_key_from(false, s) == (match spec_read_key_from(false, rest) {
        Some(p) => Some((p.0, p.1 + 1)),
        None => None::<(u8, int)>,
    }));
}

/// A release-phase second byte of an extended sequence produces no event:
/// decoding resumes, back in the idle state, on the rest of the stream.
pub proof fn lemma_extended_release_ignored(e: u8, rest: Seq<u8>)
    requires
        e >= 0x80,
    ensures
        spec_read_key(seq![EXTENDED_PREFIX, e].add(rest)) == (match spec_read_key(rest) {
            Some(p) => Some((p.0, p.1 + 2)),
            None => None::<(u8, int)>,
        }),
{
    let s = seq![EXTENDED_PREFIX, e].add(rest);
    assert(s[0] == EXTENDED_PREFIX);
    assert(spec_step(false, EXTENDED_PREFIX) == (true, None::<u8>));
    assert(s.skip(1)[0] == e);
    assert(spec_step(true, e) == (false, None::<u8>));
    assert(s.skip(1).skip(1) =~= rest);
    assert(spec_read_key_from(true, s.skip(1)) == (match spec_read_key_from(false, rest) {
        Some(p) => Some((p.0, p.1 + 1)),
        None => None::<(u8, int)>,
    }));
    assert(spec_read_key_from(false, s) == (match spec_read_key_from(true, s.skip(1)) {
        Some(p) => Some((p.0, p.1 + 1)),
        None => None::<(u8, int)>,
    }));
}

} // verus!

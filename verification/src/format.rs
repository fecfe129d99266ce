//! Rendering of numbers, bitmasks and raw wide-character data into the
//! strings shown in the status line and the diagnostic log.

use vstd::prelude::*;

verus! {

/// The character for one decimal digit.
pub open spec fn dec_digit(d: int) -> char {
    if d == 0 {
        '0'
    } else if d == 1 {
        '1'
    } else if d == 2 {
        '2'
    } else if d == 3 {
        '3'
    } else if d == 4 {
        '4'
    } else if d == 5 {
        '5'
    } else if d == 6 {
        '6'
    } else if d == 7 {
        '7'
    } else if d == 8 {
        '8'
    } else {
        '9'
    }
}

/// The character for one lower-case hexadecimal digit.
pub open spec fn hex_digit(d: int) -> char {
    if d < 10 {
        dec_digit(d)
    } else if d == 10 {
        'a'
    } else if d == 11 {
        'b'
    } else if d == 12 {
        'c'
    } else if d == 13 {
        'd'
    } else if d == 14 {
        'e'
    } else {
        'f'
    }
}

/// The decimal rendering of a number, most significant digit first, with
/// no leading zeroes (a lone zero for zero itself).
pub open spec fn dec_rep(n: nat) -> Seq<char>
    decreases n,
{
    if n < 10 {
        seq![dec_digit(n as int)]
    } else {
        dec_rep(n / 10).push(dec_digit((n % 10) as int))
    }
}

/// The lower-case hexadecimal rendering of a number, most significant
/// digit first, with no leading zeroes.
pub open spec fn hex_rep(n: nat) -> Seq<char>
    decreases n,
{
    if n < 16 {
        seq![hex_digit(n as int)]
    } else {
        hex_rep(n / 16).push(hex_digit((n % 16) as int))
    }
}

/// The hexadecimal rendering padded with leading zeroes to at least four
/// digits, as a four-character hex field renders it.
pub open spec fn hex4(n: nat) -> Seq<char> {
    if hex_rep(n).len() >= 4 {
        hex_rep(n)
    } else {
        Seq::new((4 - hex_rep(n).len()) as nat, |i: int| '0') + hex_rep(n)
    }
}

proof fn lemma_hex_rep_len(n: nat)
    ensures
        n < 16 ==> hex_rep(n).len() == 1,
        16 <= n < 256 ==> hex_rep(n).len() == 2,
        256 <= n < 4096 ==> hex_rep(n).len() == 3,
        4096 <= n ==> hex_rep(n).len() >= 4,
    decreases n,
{
    if n >= 16 {
        lemma_hex_rep_len(n / 16);
    }
}

/// Appends one decimal digit character.
fn append_dec_digit(s: &mut String, d: u8)
    requires
        d < 10,
    ensures
        final(s)@ == old(s)@.push(dec_digit(d as int)),
{
    match d {
        0 => {
            s.append("0");
            proof {
                reveal_strlit("0");
                assert(s@ =~= old(s)@.push(dec_digit(d as int)));
            }
        },
        1 => {
            s.append("1");
            proof {
                reveal_strlit("1");
                assert(s@ =~= old(s)@.push(dec_digit(d as int)));
            }
        },
        2 => {
            s.append("2");
            proof {
                reveal_strlit("2");
                assert(s@ =~= old(s)@.push(dec_digit(d as int)));
            }
        },
        3 => {
            s.append("3");
            proof {
                reveal_strlit("3");
                assert(s@ =~= old(s)@.push(dec_digit(d as int)));
            }
        },
        4 => {
            s.append("4");
            proof {
                reveal_strlit("4");
                assert(s@ =~= old(s)@.push(dec_digit(d as int)));
            }
        },
        5 => {
            s.append("5");
            proof {
                reveal_strlit("5");
                assert(s@ =~= old(s)@.push(dec_digit(d as int)));
            }
        },
        6 => {
            s.append("6");
            proof {
                reveal_strlit("6");
                assert(s@ =~= old(s)@.push(dec_digit(d as int)));
            }
        },
        7 => {
            s.append("7");
            proof {
                reveal_strlit("7");
                assert(s@ =~= old(s)@.push(dec_digit(d as int)));
            }
        },
        8 => {
            s.append("8");
            proof {
                reveal_strlit("8");
                assert(s@ =~= old(s)@.push(dec_digit(d as int)));
            }
        },
        _ => {
            s.append("9");
            proof {
                reveal_strlit("9");
                assert(s@ =~= old(s)@.push(dec_digit(d as int)));
            }
        },
    }
}

/// Appends one lower-case hexadecimal digit character.
fn append_hex_digit(s: &mut String, d: u8)
    requires
        d < 16,
    ensures
        final(s)@ == old(s)@.push(hex_digit(d as int)),
{
    if d < 10 {
        append_dec_digit(s, d);
    } else {
        match d {
            10 => {
                s.append("a");
                proof {
                    reveal_strlit("a");
                    assert(s@ =~= old(s)@.push(hex_digit(d as int)));
                }
            },
            11 => {
                s.append("b");
                proof {
                    reveal_strlit("b");
                    assert(s@ =~= old(s)@.push(hex_digit(d as int)));
                }
            },
            12 => {
                s.append("c");
                proof {
                    reveal_strlit("c");
                    assert(s@ =~= old(s)@.push(hex_digit(d as int)));
                }
            },
            13 => {
                s.append("d");
                proof {
                    reveal_strlit("d");
                    assert(s@ =~= old(s)@.push(hex_digit(d as int)));
                }
            },
            14 => {
                s.append("e");
                proof {
                    reveal_strlit("e");
                    assert(s@ =~= old(s)@.push(hex_digit(d as int)));
                }
            },
            _ => {
                s.append("f");
                proof {
                    reveal_strlit("f");
                    assert(s@ =~= old(s)@.push(hex_digit(d as int)));
                }
            },
        }
    }
}

/// Renders a number in decimal.
pub fn u64_to_dec(n: u64) -> (s: String)
    ensures
        s@ == dec_rep(n as nat),
    decreases n,
{
    if n < 10 {
        let mut s = String::new();
        append_dec_digit(&mut s, n as u8);
        proof {
            assert(s@ =~= dec_rep(n as nat));
        }
        s
    } else {
        let mut s = u64_to_dec(n / 10);
        append_dec_digit(&mut s, (n % 10) as u8);
        s
    }
}

/// Renders a number in lower-case hexadecimal, without padding.
pub fn u32_to_hex(n: u32) -> (s: String)
    ensures
        s@ == hex_rep(n as nat),
    decreases n,
{
    if n < 16 {
        let mut s = String::new();
        append_hex_digit(&mut s, n as u8);
        proof {
            assert(s@ =~= hex_rep(n as nat));
        }
        s
    } else {
        let mut s = u32_to_hex(n / 16);
        append_hex_digit(&mut s, (n % 16) as u8);
        s
    }
}

/// Renders a number in lower-case hexadecimal, zero-padded to at least
/// four digits.
pub fn u32_to_hex4(n: u32) -> (s: String)
    ensures
        s@ == hex4(n as nat),
{
    let mut s = String::new();
    if n < 0x1000 {
        s.append("0");
    }
    if n < 0x100 {
        s.append("0");
    }
    if n < 0x10 {
        s.append("0");
    }
    let core = u32_to_hex(n);
    s.append(core.as_str());
    proof {
        reveal_strlit("0");
        lemma_hex_rep_len(n as nat);
        assert(s@ =~= hex4(n as nat));
    }
    s
}

/// The decimal rendering of a possibly negative number: a leading minus
/// sign for a negative value, then the magnitude.
pub open spec fn int_rep(n: int) -> Seq<char> {
    if n < 0 {
        seq!['-'] + dec_rep((-n) as nat)
    } else {
        dec_rep(n as nat)
    }
}

/// Renders a signed number in decimal.
pub fn i32_to_dec(n: i32) -> (s: String)
    ensures
        s@ == int_rep(n as int),
{
    if n >= 0 {
        u64_to_dec(n as u64)
    } else {
        let mut s = "-".to_owned();
        let mag: u64 = (-(n as i64)) as u64;
        let d = u64_to_dec(mag);
        s.append(d.as_str());
        proof {
            reveal_strlit("-");
            assert(s@ =~= int_rep(n as int));
        }
        s
    }
}

/// The rendering of an optional string in the diagnostic log: `None`, or
/// the text wrapped as `Some("…")`.
pub open spec fn opt_string_field(o: Option<Seq<char>>) -> Seq<char> {
    match o {
        None => "None"@,
        Some(t) => "Some(\""@ + t + "\")"@,
    }
}

/// Renders an optional string the way the diagnostic log shows it (inner
/// quotes are not escaped; the result is for diagnostics only).
pub fn opt_string_debug(o: &Option<String>) -> (s: String)
    ensures
        s@ == opt_string_field(o.deep_view()),
{
    match o {
        None => "None".to_owned(),
        Some(t) => {
            let mut s = "Some(\"".to_owned();
            s.append(t.as_str());
            s.append("\")");
            proof {
                assert(s@ =~= "Some(\""@ + t@ + "\")"@);
            }
            s
        },
    }
}

/// Whether the bit for one layer is set in the mask.
pub open spec fn layer_active(mask: u8, bit: u8) -> bool {
    mask & (1u8 << bit) != 0
}

/// The active-layer list restricted to bit positions below `n`: each set
/// position as its decimal digit, ascending, comma separated.
pub open spec fn layer_list_upto(mask: u8, n: int) -> Seq<char>
    decreases n,
{
    if n <= 0 {
        Seq::empty()
    } else {
        let rest = layer_list_upto(mask, n - 1);
        if layer_active(mask, (n - 1) as u8) {
            if rest.len() == 0 {
                seq![dec_digit(n - 1)]
            } else {
                rest.push(',').push(dec_digit(n - 1))
            }
        } else {
            rest
        }
    }
}

/// The human-readable list of active layers in a mask: bit positions 0
/// through 7 whose bit is set, in ascending order, comma separated.
pub open spec fn layer_list(mask: u8) -> Seq<char> {
    layer_list_upto(mask, 8)
}

/// Renders the active-layer list of a mask; used only for display, never
/// persisted.
pub fn mask_to_layer_list(mask: u8) -> (s: String)
    ensures
        s@ == layer_list(mask),
{
    let mut s = String::new();
    let mut bit: u8 = 0;
    while bit < 8
        invariant
            bit <= 8,
            s@ == layer_list_upto(mask, bit as int),
        decreases 8 - bit,
    {
        if mask & (1u8 << bit) != 0 {
            if !s.as_str().is_empty() {
                s.append(",");
            }
            append_dec_digit(&mut s, bit);
            proof {
                reveal_strlit(",");
                assert(s@ =~= layer_list_upto(mask, bit as int + 1));
            }
        }
        bit = bit + 1;
    }
    s
}

/// The rendering of raw wide-character data: each unit as a four-digit
/// hexadecimal field, space separated.
pub open spec fn wchar_dump(cs: Seq<u32>) -> Seq<char>
    decreases cs.len(),
{
    if cs.len() == 0 {
        Seq::empty()
    } else if cs.len() == 1 {
        hex4(cs[0] as nat)
    } else {
        wchar_dump(cs.drop_last()).push(' ') + hex4(cs.last() as nat)
    }
}

/// The rendering of optional raw wide-character data in the diagnostic
/// log: `-` when the backend reported none, `empty` for present-but-empty
/// data, otherwise the space-separated four-digit hexadecimal units.
pub open spec fn wchar_field(o: Option<Seq<u32>>) -> Seq<char> {
    match o {
        None => "-"@,
        Some(cs) => if cs.len() == 0 {
            "empty"@
        } else {
            wchar_dump(cs)
        },
    }
}

/// Renders optional raw wide-character data for the diagnostic log.
pub fn format_wchar_raw(raw: Option<&Vec<u32>>) -> (s: String)
    ensures
        s@ == wchar_field(raw.deep_view()),
{
    proof {
        if let Some(v) = raw {
            assert(v.deep_view() =~= v@);
        }
    }
    match raw {
        None => "-".to_owned(),
        Some(v) => {
            if v.len() == 0 {
                "empty".to_owned()
            } else {
                let mut s = u32_to_hex4(v[0]);
                proof {
                    assert(v@.subrange(0, 1) =~= seq![v@[0]]);
                }
                let mut i: usize = 1;
                while i < v.len()
                    invariant
                        1 <= i <= v@.len(),
                        s@ == wchar_dump(v@.subrange(0, i as int)),
                    decreases v@.len() - i,
                {
                    s.append(" ");
                    let h = u32_to_hex4(v[i]);
                    s.append(h.as_str());
                    proof {
                        reveal_strlit(" ");
                        let pre = v@.subrange(0, i as int);
                        let cur = v@.subrange(0, i as int + 1);
                        assert(cur.drop_last() =~= pre);
                        assert(cur.last() == v@[i as int]);
                        assert(s@ =~= wchar_dump(cur));
                    }
                    i = i + 1;
                }
                proof {
                    assert(v@.subrange(0, v@.len() as int) =~= v@);
                }
                s
            }
        },
    }
}

} // verus!

//! Parsing of the textual device identifiers callers hand in: the
//! colon-separated hex MAC and the device-type code, which is written either
//! as `0x`-prefixed hex or in decimal.
//!
//! Both parsers are total and never fail: a malformed field parses to zero,
//! the way a session built straight from untrusted discovery text behaves.
//! The contracts speak of the UTF-8 bytes of the input string; the colon and
//! every digit are single bytes, so byte-level splitting is exact.

use vstd::prelude::*;
use vstd::string::StringSliceAdditionalSpecFns;

verus! {

/// The byte that separates MAC fields.
pub const COLON_BYTE: u8 = 0x3a;

/// Whether `b` is the byte of a hex digit, either case.
pub open spec fn is_hex_digit_byte(b: u8) -> bool {
    (0x30 <= b && b <= 0x39) || (0x61 <= b && b <= 0x66) || (0x41 <= b && b <= 0x46)
}

/// The value of one hex-digit byte.
pub open spec fn hex_digit_byte_val(b: u8) -> int {
    if 0x30 <= b && b <= 0x39 {
        b - 0x30
    } else if 0x61 <= b && b <= 0x66 {
        b - 0x61 + 10
    } else {
        b - 0x41 + 10
    }
}

/// Whether `b` is the byte of a decimal digit.
pub open spec fn is_dec_digit_byte(b: u8) -> bool {
    0x30 <= b && b <= 0x39
}

/// Whether every byte of `p` is a hex digit.
pub open spec fn all_hex(p: Seq<u8>) -> bool {
    forall|i: int| 0 <= i < p.len() ==> is_hex_digit_byte(#[trigger] p[i])
}

/// Whether every byte of `p` is a decimal digit.
pub open spec fn all_dec(p: Seq<u8>) -> bool {
    forall|i: int| 0 <= i < p.len() ==> is_dec_digit_byte(#[trigger] p[i])
}

proof fn lemma_all_hex_push(p: Seq<u8>, b: u8)
    ensures
        all_hex(p.push(b)) == (all_hex(p) && is_hex_digit_byte(b)),
{
    let p2 = p.push(b);
    assert(p2[p.len() as int] == b);
    assert(forall|j: int| 0 <= j < p.len() ==> #[trigger] p2[j] == p[j]);
    if all_hex(p2) {
        assert forall|j: int| 0 <= j < p.len() implies is_hex_digit_byte(#[trigger] p[j]) by {
            assert(p[j] == p2[j]);
        }
    }
}

proof fn lemma_all_dec_push(p: Seq<u8>, b: u8)
    ensures
        all_dec(p.push(b)) == (all_dec(p) && is_dec_digit_byte(b)),
{
    let p2 = p.push(b);
    assert(p2[p.len() as int] == b);
    assert(forall|j: int| 0 <= j < p.len() ==> #[trigger] p2[j] == p[j]);
    if all_dec(p2) {
        assert forall|j: int| 0 <= j < p.len() implies is_dec_digit_byte(#[trigger] p[j]) by {
            assert(p[j] == p2[j]);
        }
    }
}

/// `s` split at every occurrence of `sep`: always one more part than
/// separators, so the empty string splits into one empty part.
pub open spec fn split_bytes(s: Seq<u8>, sep: u8) -> Seq<Seq<u8>>
    decreases s.len(),
{
    if s.len() == 0 {
        seq![Seq::<u8>::empty()]
    } else if s[0] == sep {
        seq![Seq::<u8>::empty()] + split_bytes(s.skip(1), sep)
    } else {
        let rest = split_bytes(s.skip(1), sep);
        seq![seq![s[0]] + rest[0]] + rest.skip(1)
    }
}

/// A split always has at least one part.
proof fn lemma_split_nonempty(s: Seq<u8>, sep: u8)
    ensures
        split_bytes(s, sep).len() >= 1,
    decreases s.len(),
{
    if s.len() > 0 {
        lemma_split_nonempty(s.skip(1), sep);
    }
}

/// Extending the string by one byte either opens a fresh empty part (a
/// separator) or extends the last part (anything else).
proof fn lemma_split_snoc(s: Seq<u8>, sep: u8, c: u8)
    ensures
        ({
            let base = split_bytes(s, sep);
            split_bytes(s.push(c), sep) == if c == sep {
                base.push(Seq::<u8>::empty())
            } else {
                base.update(base.len() - 1, base.last().push(c))
            }
        }),
    decreases s.len(),
{
    reveal_with_fuel(split_bytes, 3);
    lemma_split_nonempty(s, sep);
    let base = split_bytes(s, sep);
    if s.len() == 0 {
        assert(s.push(c) =~= seq![c]);
        let one = seq![c];
        assert(one.skip(1) =~= Seq::<u8>::empty());
        if c == sep {
            assert(split_bytes(one, sep) =~= base.push(Seq::<u8>::empty()));
        } else {
            assert(seq![c] + split_bytes(Seq::<u8>::empty(), sep)[0] =~= seq![c]);
            assert(split_bytes(one, sep) =~= base.update(0, base.last().push(c)));
        }
    } else {
        assert((s.push(c))[0] == s[0]);
        assert((s.push(c)).skip(1) =~= s.skip(1).push(c));
        lemma_split_snoc(s.skip(1), sep, c);
        lemma_split_nonempty(s.skip(1), sep);
        let rest = split_bytes(s.skip(1), sep);
        if s[0] == sep {
            if c == sep {
                assert(split_bytes(s.push(c), sep) =~= base.push(Seq::<u8>::empty()));
            } else {
                assert(split_bytes(s.push(c), sep) =~= base.update(
                    base.len() - 1,
                    base.last().push(c),
                ));
            }
        } else {
            let rest2 = split_bytes(s.skip(1).push(c), sep);
            if c == sep {
                assert(rest2 == rest.push(Seq::<u8>::empty()));
                assert(rest2[0] == rest[0]);
                assert(rest2.skip(1) =~= rest.skip(1).push(Seq::<u8>::empty()));
                assert(split_bytes(s.push(c), sep) =~= base.push(Seq::<u8>::empty()));
            } else {
                assert(rest2 == rest.update(rest.len() - 1, rest.last().push(c)));
                if rest.len() == 1 {
                    assert(rest2[0] == rest[0].push(c));
                    assert(seq![s[0]] + rest[0].push(c) =~= (seq![s[0]] + rest[0]).push(c));
                    assert(rest2.skip(1) =~= rest.skip(1));
                    assert(split_bytes(s.push(c), sep) =~= base.update(
                        base.len() - 1,
                        base.last().push(c),
                    ));
                } else {
                    assert(rest2[0] == rest[0]);
                    assert(rest2.skip(1) =~= rest.skip(1).update(
                        rest.len() - 2,
                        rest.last().push(c),
                    ));
                    assert(split_bytes(s.push(c), sep) =~= base.update(
                        base.len() - 1,
                        base.last().push(c),
                    ));
                }
            }
        }
    }
}

/// The value of a string of hex digits, high digit first.
pub open spec fn hex_part_value(p: Seq<u8>) -> int
    decreases p.len(),
{
    if p.len() == 0 {
        0
    } else {
        hex_part_value(p.drop_last()) * 16 + hex_digit_byte_val(p.last())
    }
}

/// The value of a string of decimal digits, high digit first.
pub open spec fn dec_part_value(p: Seq<u8>) -> int
    decreases p.len(),
{
    if p.len() == 0 {
        0
    } else {
        dec_part_value(p.drop_last()) * 10 + (p.last() - 0x30)
    }
}

/// Whether a MAC field parses: non-empty, hex digits only, and at most one
/// byte's worth of value.
pub open spec fn valid_mac_part(p: Seq<u8>) -> bool {
    p.len() > 0 && all_hex(p) && hex_part_value(p) <= 0xff
}

/// The byte a MAC field stands for: its hex value, or zero when it does not
/// parse.
pub open spec fn mac_part_byte(p: Seq<u8>) -> u8 {
    if valid_mac_part(p) {
        hex_part_value(p) as u8
    } else {
        0u8
    }
}

/// The six MAC bytes of a textual MAC: the colon-separated fields' values
/// when there are exactly six fields, and all zero otherwise.
pub open spec fn mac_bytes_spec(s: Seq<u8>) -> Seq<u8> {
    let parts = split_bytes(s, COLON_BYTE);
    if parts.len() == 6 {
        Seq::new(6, |i: int| mac_part_byte(parts[i]))
    } else {
        Seq::new(6, |i: int| 0u8)
    }
}

/// Parses a colon-separated hex MAC, `mac_bytes_spec` exactly: six fields
/// give six bytes, a field that is empty, has a non-digit, or overflows a
/// byte gives zero, and any other number of fields gives an all-zero MAC.
pub fn parse_mac(s: &str) -> (r: [u8; 6])
    ensures
        r@ == mac_bytes_spec(s.spec_bytes()),
{
    let bytes = s.as_bytes();
    let n = bytes.len();
    let mut parts: Vec<u8> = Vec::new();
    let mut cur_len: usize = 0;
    let mut cur_hex = true;
    let mut cur_val: u16 = 0;
    let mut i: usize = 0;
    proof {
        assert(bytes@.take(0) =~= Seq::<u8>::empty());
    }
    while i < n
        invariant
            i <= n,
            n == bytes@.len(),
            ({
                let sp = split_bytes(bytes@.take(i as int), COLON_BYTE);
                &&& sp.len() == parts@.len() + 1
                &&& forall|k: int| 0 <= k < parts@.len() ==> parts@[k] == mac_part_byte(#[trigger] sp[k])
                &&& cur_len == sp.last().len()
                &&& cur_hex == all_hex(sp.last())
                &&& (cur_hex ==> {
                    &&& (hex_part_value(sp.last()) <= 0xff ==> cur_val == hex_part_value(sp.last()))
                    &&& (hex_part_value(sp.last()) > 0xff ==> cur_val > 0xff)
                })
                &&& cur_val <= 0xfff
                &&& cur_len <= i
            }),
        decreases n - i,
    {
        let ghost prefix = bytes@.take(i as int);
        let ghost sp = split_bytes(prefix, COLON_BYTE);
        let b = bytes[i];
        proof {
            assert(prefix.push(b) =~= bytes@.take(i as int + 1));
            lemma_split_snoc(prefix, COLON_BYTE, b);
            lemma_split_nonempty(prefix, COLON_BYTE);
        }
        if b == COLON_BYTE {
            let done: u8 = if cur_len > 0 && cur_hex && cur_val <= 0xff {
                cur_val as u8
            } else {
                0
            };
            proof {
                let p = sp.last();
                if cur_len > 0 && cur_hex && cur_val <= 0xff {
                    assert(hex_part_value(p) <= 0xff) by {
                        if hex_part_value(p) > 0xff {
                            assert(cur_val > 0xff);
                        }
                    }
                    assert(valid_mac_part(p));
                    assert(done == mac_part_byte(p));
                } else {
                    if cur_len > 0 && cur_hex {
                        assert(cur_val > 0xff);
                        assert(hex_part_value(p) > 0xff) by {
                            if hex_part_value(p) <= 0xff {
                                assert(cur_val == hex_part_value(p));
                            }
                        }
                        assert(!valid_mac_part(p));
                    }
                    assert(done == mac_part_byte(p));
                }
            }
            parts.push(done);
            cur_len = 0;
            cur_hex = true;
            cur_val = 0;
            proof {
                let sp2 = split_bytes(bytes@.take(i as int + 1), COLON_BYTE);
                assert(sp2 == sp.push(Seq::<u8>::empty()));
                assert forall|k: int| 0 <= k < parts@.len() implies parts@[k] == mac_part_byte(
                    #[trigger] sp2[k],
                ) by {
                    if k < parts@.len() - 1 {
                        assert(sp2[k] == sp[k]);
                    } else {
                        assert(sp2[k] == sp.last());
                    }
                }
            }
        } else {
            let is_hex = (0x30 <= b && b <= 0x39) || (0x61 <= b && b <= 0x66) || (0x41 <= b && b
                <= 0x46);
            let d: u16 = if 0x30 <= b && b <= 0x39 {
                (b - 0x30) as u16
            } else if 0x61 <= b && b <= 0x66 {
                (b - 0x61 + 10) as u16
            } else if 0x41 <= b && b <= 0x46 {
                (b - 0x41 + 10) as u16
            } else {
                0
            };
            proof {
                let p = sp.last();
                let p2 = p.push(b);
                assert(p2.drop_last() =~= p);
                assert(hex_part_value(p2) == hex_part_value(p) * 16 + hex_digit_byte_val(b));
            }
            if cur_val <= 0xff {
                cur_val = cur_val * 16 + d;
            }
            cur_len = cur_len + 1;
            cur_hex = cur_hex && is_hex;
            proof {
                let sp2 = split_bytes(bytes@.take(i as int + 1), COLON_BYTE);
                let p = sp.last();
                let p2 = p.push(b);
                assert(sp2 == sp.update(sp.len() - 1, p2));
                assert(sp2.last() == p2);
                assert forall|k: int| 0 <= k < parts@.len() implies parts@[k] == mac_part_byte(
                    #[trigger] sp2[k],
                ) by {
                    assert(sp2[k] == sp[k]);
                }
                lemma_all_hex_push(p, b);
            }
        }
        i = i + 1;
    }
    let done: u8 = if cur_len > 0 && cur_hex && cur_val <= 0xff {
        cur_val as u8
    } else {
        0
    };
    proof {
        assert(bytes@.take(n as int) =~= bytes@);
        let sp = split_bytes(bytes@, COLON_BYTE);
        let p = sp.last();
        if cur_len > 0 && cur_hex && cur_val <= 0xff {
            assert(hex_part_value(p) <= 0xff) by {
                if hex_part_value(p) > 0xff {
                    assert(cur_val > 0xff);
                }
            }
            assert(done == mac_part_byte(p));
        } else {
            if cur_len > 0 && cur_hex {
                assert(hex_part_value(p) > 0xff) by {
                    if hex_part_value(p) <= 0xff {
                        assert(cur_val == hex_part_value(p));
                    }
                }
            }
            assert(done == mac_part_byte(p));
        }
    }
    parts.push(done);
    let mut r = [0u8, 0u8, 0u8, 0u8, 0u8, 0u8];
    if parts.len() == 6 {
        r[0] = parts[0];
        r[1] = parts[1];
        r[2] = parts[2];
        r[3] = parts[3];
        r[4] = parts[4];
        r[5] = parts[5];
        proof {
            let sp = split_bytes(bytes@, COLON_BYTE);
            assert forall|k: int| 0 <= k < 6 implies r@[k] == mac_bytes_spec(s.spec_bytes())[k] by {
                assert(parts@[k] == mac_part_byte(sp[k]));
            }
            assert(r@ =~= mac_bytes_spec(s.spec_bytes()));
        }
    } else {
        proof {
            assert(r@ =~= mac_bytes_spec(s.spec_bytes()));
        }
    }
    r
}

/// Whether a device-type string parses as hex after a `0x` prefix.
pub open spec fn valid_hex_u16(p: Seq<u8>) -> bool {
    p.len() > 0 && all_hex(p) && hex_part_value(p) <= 0xffff
}

/// Whether a device-type string parses as decimal.
pub open spec fn valid_dec_u16(p: Seq<u8>) -> bool {
    p.len() > 0 && all_dec(p) && dec_part_value(p) <= 0xffff
}

/// The device-type code of its textual form: hex digits after a `0x`
/// prefix, else decimal; anything that does not parse gives zero.
pub open spec fn devtype_spec(s: Seq<u8>) -> u16 {
    if s.len() >= 2 && s[0] == 0x30 && s[1] == 0x78 {
        if valid_hex_u16(s.skip(2)) {
            hex_part_value(s.skip(2)) as u16
        } else {
            0u16
        }
    } else {
        if valid_dec_u16(s) {
            dec_part_value(s) as u16
        } else {
            0u16
        }
    }
}

/// Parses a device-type string, `devtype_spec` exactly: `"0x"`-prefixed hex
/// or plain decimal, with zero for anything malformed or out of range.
pub fn parse_device_type(s: &str) -> (r: u16)
    ensures
        r == devtype_spec(s.spec_bytes()),
{
    let bytes = s.as_bytes();
    let n = bytes.len();
    if n >= 2 && bytes[0] == 0x30 && bytes[1] == 0x78 {
        let mut ok = true;
        let mut val: u32 = 0;
        let mut i: usize = 2;
        proof {
            assert(bytes@.skip(2).take(0) =~= Seq::<u8>::empty());
        }
        while i < n
            invariant
                2 <= i <= n,
                n == bytes@.len(),
                ({
                    let p = bytes@.skip(2).take(i - 2);
                    &&& ok == all_hex(p)
                    &&& (ok ==> {
                        &&& (hex_part_value(p) <= 0xffff ==> val == hex_part_value(p))
                        &&& (hex_part_value(p) > 0xffff ==> val > 0xffff)
                    })
                    &&& val <= 0xfffff
                }),
            decreases n - i,
        {
            let b = bytes[i];
            let is_hex = (0x30 <= b && b <= 0x39) || (0x61 <= b && b <= 0x66) || (0x41 <= b && b
                <= 0x46);
            let d: u32 = if 0x30 <= b && b <= 0x39 {
                (b - 0x30) as u32
            } else if 0x61 <= b && b <= 0x66 {
                (b - 0x61 + 10) as u32
            } else if 0x41 <= b && b <= 0x46 {
                (b - 0x41 + 10) as u32
            } else {
                0
            };
            proof {
                let p = bytes@.skip(2).take(i - 2);
                let p2 = p.push(b);
                assert(p2 =~= bytes@.skip(2).take(i - 2 + 1));
                assert(p2.drop_last() =~= p);
                assert(hex_part_value(p2) == hex_part_value(p) * 16 + hex_digit_byte_val(b));
            }
            if val <= 0xffff {
                val = val * 16 + d;
            }
            ok = ok && is_hex;
            proof {
                let p = bytes@.skip(2).take(i - 2);
                let p2 = p.push(b);
                lemma_all_hex_push(p, b);
                assert(p2 =~= bytes@.skip(2).take(i - 2 + 1));
            }
            i = i + 1;
        }
        proof {
            assert(bytes@.skip(2).take(n - 2) =~= bytes@.skip(2));
        }
        if ok && n > 2 && val <= 0xffff {
            proof {
                let p = bytes@.skip(2);
                if hex_part_value(p) > 0xffff {
                    assert(val > 0xffff);
                }
            }
            val as u16
        } else {
            proof {
                let p = bytes@.skip(2);
                if ok && n > 2 {
                    if hex_part_value(p) <= 0xffff {
                        assert(val == hex_part_value(p));
                    }
                }
            }
            0
        }
    } else {
        let mut ok = true;
        let mut val: u32 = 0;
        let mut i: usize = 0;
        proof {
            assert(bytes@.take(0) =~= Seq::<u8>::empty());
        }
        while i < n
            invariant
                i <= n,
                n == bytes@.len(),
                ({
                    let p = bytes@.take(i as int);
                    &&& ok == all_dec(p)
                    &&& (ok ==> {
                        &&& (dec_part_value(p) <= 0xffff ==> val == dec_part_value(p))
                        &&& (dec_part_value(p) > 0xffff ==> val > 0xffff)
                    })
                    &&& val <= 0xfffff
                }),
            decreases n - i,
        {
            let b = bytes[i];
            let is_dec = 0x30 <= b && b <= 0x39;
            let d: u32 = if is_dec {
                (b - 0x30) as u32
            } else {
                0
            };
            proof {
                let p = bytes@.take(i as int);
                let p2 = p.push(b);
                assert(p2 =~= bytes@.take(i as int + 1));
                assert(p2.drop_last() =~= p);
                assert(dec_part_value(p2) == dec_part_value(p) * 10 + (b - 0x30));
            }
            if val <= 0xffff {
                val = val * 10 + d;
            }
            ok = ok && is_dec;
            proof {
                let p = bytes@.take(i as int);
                let p2 = p.push(b);
                lemma_all_dec_push(p, b);
                assert(p2 =~= bytes@.take(i as int + 1));
            }
            i = i + 1;
        }
        proof {
            assert(bytes@.take(n as int) =~= bytes@);
        }
        if ok && n > 0 && val <= 0xffff {
            proof {
                if dec_part_value(bytes@) > 0xffff {
                    assert(val > 0xffff);
                }
            }
            val as u16
        } else {
            proof {
                if ok && n > 0 {
                    if dec_part_value(bytes@) <= 0xffff {
                        assert(val == dec_part_value(bytes@));
                    }
                }
            }
            0
        }
    }
}

} // verus!

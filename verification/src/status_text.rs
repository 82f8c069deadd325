use vstd::prelude::*;

use crate::status::{
    flag_bit, flag_name, hex_digit, hex_text, join_bars, set_flag_names, status_parts, status_text,
    FLAG_COUNT, RESERVED_BITS,
};

verus! {

/// The value of the lower-case hexadecimal digit `c`.
pub open spec fn hex_digit_value(c: char) -> int {
    if '0' <= c && c <= '9' {
        c as int - '0' as int
    } else {
        c as int - 'a' as int + 10
    }
}

/// The value of the lower-case hexadecimal text `s`.
pub open spec fn hex_value(s: Seq<char>) -> int
    decreases s.len(),
{
    if s.len() == 0 {
        0
    } else {
        hex_value(s.drop_last()) * 16 + hex_digit_value(s.last())
    }
}

proof fn lemma_hex_digit_value(d: int)
    requires
        0 <= d < 16,
    ensures
        hex_digit_value(hex_digit(d)) == d,
{
    if d == 0 {
        assert(hex_digit(0) == '0');
    } else if d == 1 {
        assert(hex_digit(1) == '1');
    } else if d == 2 {
        assert(hex_digit(2) == '2');
    } else if d == 3 {
        assert(hex_digit(3) == '3');
    } else if d == 4 {
        assert(hex_digit(4) == '4');
    } else if d == 5 {
        assert(hex_digit(5) == '5');
    } else if d == 6 {
        assert(hex_digit(6) == '6');
    } else if d == 7 {
        assert(hex_digit(7) == '7');
    } else if d == 8 {
        assert(hex_digit(8) == '8');
    } else if d == 9 {
        assert(hex_digit(9) == '9');
    } else if d == 10 {
        assert(hex_digit(10) == 'a');
    } else if d == 11 {
        assert(hex_digit(11) == 'b');
    } else if d == 12 {
        assert(hex_digit(12) == 'c');
    } else if d == 13 {
        assert(hex_digit(13) == 'd');
    } else if d == 14 {
        assert(hex_digit(14) == 'e');
    } else {
        assert(hex_digit(15) == 'f');
    }
}

proof fn lemma_hex_value_of_text(v: nat)
    ensures
        hex_value(hex_text(v)) == v,
    decreases v,
{
    if v < 16 {
        lemma_hex_digit_value(v as int);
        assert(hex_text(v).drop_last() =~= Seq::<char>::empty());
        assert(hex_value(Seq::<char>::empty()) == 0);
        assert(hex_text(v).last() == hex_digit(v as int));
        assert(hex_value(hex_text(v)) == hex_value(hex_text(v).drop_last()) * 16 + hex_digit_value(hex_text(v).last()));
    } else {
        lemma_hex_value_of_text(v / 16);
        lemma_hex_digit_value((v % 16) as int);
        assert(hex_text(v).drop_last() =~= hex_text(v / 16));
        assert(hex_text(v).last() == hex_digit((v % 16) as int));
        assert(v == (v / 16) * 16 + v % 16);
        assert(hex_value(hex_text(v)) == hex_value(hex_text(v).drop_last()) * 16 + hex_digit_value(hex_text(v).last()));
    }
}

/// Joining parts from the front: the first part, then the joined rest after
/// a separator.
proof fn lemma_join_bars_front(first: Seq<char>, rest: Seq<Seq<char>>)
    ensures
        join_bars(seq![first] + rest) == if rest.len() == 0 {
            first
        } else {
            first + " | "@ + join_bars(rest)
        },
    decreases rest.len(),
{
    let p = seq![first] + rest;
    if rest.len() == 0 {
        assert(p =~= seq![first]);
    } else {
        assert(p.drop_last() =~= seq![first] + rest.drop_last());
        lemma_join_bars_front(first, rest.drop_last());
        if rest.len() == 1 {
            assert(rest.drop_last() =~= Seq::<Seq<char>>::empty());
        } else {
            assert(join_bars(p) =~= first + " | "@ + join_bars(rest));
        }
    }
}

/// The sum of the bits of the flags from the `i`-th on that are set in
/// `bits`.
pub open spec fn set_flag_bits_from(bits: u16, i: nat) -> int
    decreases FLAG_COUNT - i,
{
    if i >= FLAG_COUNT {
        0
    } else {
        (if bits & flag_bit(i as int) != 0 {
            flag_bit(i as int) as int
        } else {
            0
        }) + set_flag_bits_from(bits, i + 1)
    }
}

/// The textual parts of a status value from the `i`-th flag on: the names of
/// the set flags, then the reserved bits that are set, in hexadecimal.
pub open spec fn parts_from(bits: u16, i: nat) -> Seq<Seq<char>>
    decreases FLAG_COUNT - i,
{
    if i >= FLAG_COUNT {
        if bits & RESERVED_BITS != 0 {
            seq!["0x"@ + hex_text((bits & RESERVED_BITS) as nat)]
        } else {
            Seq::empty()
        }
    } else if bits & flag_bit(i as int) != 0 {
        seq![flag_name(i as int)] + parts_from(bits, i + 1)
    } else {
        parts_from(bits, i + 1)
    }
}

/// The status bits that a text names, reading the flags from the `i`-th on:
/// each flag name that the text starts with, followed by the end of the text
/// or by `" | "`, adds its bit; what follows the last name is `0x` and the
/// reserved bits in hexadecimal.
pub open spec fn text_value_from(t: Seq<char>, i: nat) -> int
    decreases FLAG_COUNT - i,
{
    if i >= FLAG_COUNT {
        if t.len() >= 2 {
            hex_value(t.skip(2))
        } else {
            0
        }
    } else {
        let name = flag_name(i as int);
        if t.len() >= name.len() && t.take(name.len() as int) == name {
            let rest = if t.len() == name.len() {
                Seq::<char>::empty()
            } else {
                t.skip(name.len() as int + 3)
            };
            flag_bit(i as int) + text_value_from(rest, i + 1)
        } else {
            text_value_from(t, i + 1)
        }
    }
}

/// The status bits that the text of a status value names.
pub open spec fn status_of_text(t: Seq<char>) -> int {
    text_value_from(t, 0)
}

proof fn lemma_names(i: int, j: int)
    requires
        0 <= i < FLAG_COUNT,
        0 <= j < FLAG_COUNT,
    ensures
        flag_name(i).len() >= 2,
        flag_name(j).len() >= 2,
        i != j ==> flag_name(i)[0] != flag_name(j)[0] || flag_name(i)[1] != flag_name(j)[1],
        flag_name(i)[0] != '0',
{
    reveal_strlit("WRITE_DATA_CHECKSUM");
    reveal_strlit("COMMAND");
    reveal_strlit("RESET");
    reveal_strlit("T_TRACKING_ALERT");
    reveal_strlit("RH_TRACKING_ALERT");
    reveal_strlit("HEATER");
    reveal_strlit("ALERT_PENDING");
}

proof fn lemma_parts_from_names(bits: u16, n: nat)
    requires
        n <= FLAG_COUNT,
    ensures
        set_flag_names(bits, n) + parts_from(bits, n) == parts_from(bits, 0),
    decreases n,
{
    if n > 0 {
        lemma_parts_from_names(bits, (n - 1) as nat);
        let prev = set_flag_names(bits, (n - 1) as nat);
        if bits & flag_bit(n - 1) != 0 {
            assert(prev + parts_from(bits, (n - 1) as nat) =~= prev.push(flag_name(n - 1))
                + parts_from(bits, n));
        }
    } else {
        assert(set_flag_names(bits, 0) + parts_from(bits, 0) =~= parts_from(bits, 0));
    }
}

proof fn lemma_parts_from_status(bits: u16)
    ensures
        parts_from(bits, 0) == status_parts(bits),
{
    lemma_parts_from_names(bits, FLAG_COUNT as nat);
    let names = set_flag_names(bits, FLAG_COUNT as nat);
    if bits & RESERVED_BITS != 0 {
        assert(names + parts_from(bits, FLAG_COUNT as nat) =~= status_parts(bits));
    } else {
        assert(names + parts_from(bits, FLAG_COUNT as nat) =~= status_parts(bits));
    }
}

/// The first part from the `i`-th flag on is a later flag name or the
/// hexadecimal part.
proof fn lemma_first_part(bits: u16, i: nat)
    requires
        i <= FLAG_COUNT,
        parts_from(bits, i).len() > 0,
    ensures
        (exists|j: int| i <= j < FLAG_COUNT && parts_from(bits, i)[0] == flag_name(j))
            || parts_from(bits, i)[0] == "0x"@ + hex_text((bits & RESERVED_BITS) as nat),
    decreases FLAG_COUNT - i,
{
    if i < FLAG_COUNT {
        if bits & flag_bit(i as int) != 0 {
            assert(parts_from(bits, i)[0] == flag_name(i as int));
        } else {
            lemma_first_part(bits, i + 1);
        }
    }
}

/// A joined text starts with the first two characters of its first part.
proof fn lemma_join_starts(parts: Seq<Seq<char>>)
    requires
        parts.len() > 0,
        parts[0].len() >= 2,
    ensures
        join_bars(parts).len() >= 2,
        join_bars(parts)[0] == parts[0][0],
        join_bars(parts)[1] == parts[0][1],
{
    let rest = parts.drop_first();
    assert(parts =~= seq![parts[0]] + rest);
    lemma_join_bars_front(parts[0], rest);
}

proof fn lemma_text_value_from(bits: u16, i: nat)
    requires
        i <= FLAG_COUNT,
    ensures
        text_value_from(join_bars(parts_from(bits, i)), i) == set_flag_bits_from(bits, i) + (bits
            & RESERVED_BITS) as int,
    decreases FLAG_COUNT - i,
{
    let parts = parts_from(bits, i);
    let t = join_bars(parts);
    let reserved = bits & RESERVED_BITS;
    reveal_strlit("0x");
    reveal_strlit(" | ");
    if i >= FLAG_COUNT {
        if reserved != 0 {
            let h = hex_text(reserved as nat);
            assert(t == "0x"@ + h);
            assert(t.skip(2) =~= h);
            lemma_hex_value_of_text(reserved as nat);
        }
    } else {
        lemma_text_value_from(bits, i + 1);
        let name = flag_name(i as int);
        let rest = parts_from(bits, i + 1);
        if bits & flag_bit(i as int) != 0 {
            lemma_join_bars_front(name, rest);
            assert(t.take(name.len() as int) =~= name);
            if rest.len() == 0 {
                assert(join_bars(rest) =~= Seq::<char>::empty());
            } else {
                assert(t.skip(name.len() as int + 3) =~= join_bars(rest));
            }
        } else {
            assert(t == join_bars(rest));
            if rest.len() > 0 {
                lemma_first_part(bits, i + 1);
                let first = rest[0];
                if first == "0x"@ + hex_text(reserved as nat) {
                    lemma_names(i as int, i as int);
                    assert(first[0] == '0');
                    lemma_join_starts(rest);
                    if t.len() >= name.len() {
                        assert(t.take(name.len() as int)[0] != name[0]);
                    }
                } else {
                    let j = choose|j: int| i + 1 <= j < FLAG_COUNT && first == flag_name(j);
                    lemma_names(i as int, j);
                    lemma_join_starts(rest);
                    if t.len() >= name.len() {
                        assert(t.take(name.len() as int)[0] != name[0] || t.take(
                            name.len() as int,
                        )[1] != name[1]);
                    }
                }
            } else {
                lemma_names(i as int, i as int);
            }
        }
    }
}

proof fn lemma_bits_split(bits: u16)
    ensures
        bits as int == set_flag_bits_from(bits, 0) + (bits & RESERVED_BITS) as int,
{
    reveal_with_fuel(set_flag_bits_from, 8);
    assert(bits as int == (if bits & 0x0001 != 0 { 0x0001int } else { 0int }) + (if bits & 0x0002
        != 0 { 0x0002int } else { 0int }) + (if bits & 0x0010 != 0 { 0x0010int } else { 0int }) + (
    if bits & 0x0400 != 0 { 0x0400int } else { 0int }) + (if bits & 0x0800 != 0 { 0x0800int } else {
        0int
    }) + (if bits & 0x2000 != 0 { 0x2000int } else { 0int }) + (if bits & 0x8000 != 0 { 0x8000int } else {
        0int
    }) + (bits & 0x53ec) as int) by (bit_vector);
}

/// The text of a status value names exactly its bits: reading the flag names
/// and the hexadecimal reserved bits back gives the status value again.
pub proof fn lemma_status_text_round_trip(bits: u16)
    ensures
        status_of_text(status_text(bits)) == bits,
{
    lemma_parts_from_status(bits);
    lemma_text_value_from(bits, 0);
    lemma_bits_split(bits);
}

/// Two status values with the same text are the same status value.
pub proof fn lemma_status_text_determines_status(a: u16, b: u16)
    requires
        status_text(a) == status_text(b),
    ensures
        a == b,
{
    lemma_status_text_round_trip(a);
    lemma_status_text_round_trip(b);
}

proof fn lemma_set_flag_names_contains(bits: u16, n: nat, k: int)
    requires
        n <= FLAG_COUNT,
        0 <= k < FLAG_COUNT,
    ensures
        set_flag_names(bits, n).contains(flag_name(k)) <==> (k < n && bits & flag_bit(k) != 0),
    decreases n,
{
    if n > 0 {
        lemma_set_flag_names_contains(bits, (n - 1) as nat, k);
        let prev = set_flag_names(bits, (n - 1) as nat);
        let m = n - 1;
        lemma_names(m, k);
        if bits & flag_bit(m) != 0 {
            let cur = prev.push(flag_name(m));
            assert(set_flag_names(bits, n) == cur);
            if k == m {
                assert(cur[prev.len() as int] == flag_name(k));
            } else {
                assert(flag_name(m) != flag_name(k));
                if cur.contains(flag_name(k)) {
                    let i = choose|i: int| 0 <= i < cur.len() && cur[i] == flag_name(k);
                    assert(i != prev.len());
                    assert(prev[i] == flag_name(k));
                }
                if prev.contains(flag_name(k)) {
                    let i = choose|i: int| 0 <= i < prev.len() && prev[i] == flag_name(k);
                    assert(cur[i] == flag_name(k));
                }
            }
        }
    }
}

/// The parts of the text of a status value (the items that `" | "`
/// separates) name a flag exactly when its datasheet bit is set.
pub proof fn lemma_status_text_names_set_flags(bits: u16)
    ensures
        status_parts(bits).contains("WRITE_DATA_CHECKSUM"@) <==> bits & 0x0001 != 0,
        status_parts(bits).contains("COMMAND"@) <==> bits & 0x0002 != 0,
        status_parts(bits).contains("RESET"@) <==> bits & 0x0010 != 0,
        status_parts(bits).contains("T_TRACKING_ALERT"@) <==> bits & 0x0400 != 0,
        status_parts(bits).contains("RH_TRACKING_ALERT"@) <==> bits & 0x0800 != 0,
        status_parts(bits).contains("HEATER"@) <==> bits & 0x2000 != 0,
        status_parts(bits).contains("ALERT_PENDING"@) <==> bits & 0x8000 != 0,
{
    crate::status::lemma_flag_datasheet_bits();
    reveal_strlit("0x");
    let names = set_flag_names(bits, FLAG_COUNT as nat);
    let reserved = bits & RESERVED_BITS;
    assert forall|k: int| 0 <= k < FLAG_COUNT implies status_parts(bits).contains(
        #[trigger] flag_name(k),
    ) == (bits & flag_bit(k) != 0) by {
        lemma_set_flag_names_contains(bits, FLAG_COUNT as nat, k);
        lemma_names(k, k);
        if reserved != 0 {
            let part = "0x"@ + hex_text(reserved as nat);
            let cur = names.push(part);
            assert(part[0] == '0');
            assert(part != flag_name(k));
            if cur.contains(flag_name(k)) {
                let i = choose|i: int| 0 <= i < cur.len() && cur[i] == flag_name(k);
                assert(i != names.len());
                assert(names[i] == flag_name(k));
            }
            if names.contains(flag_name(k)) {
                let i = choose|i: int| 0 <= i < names.len() && names[i] == flag_name(k);
                assert(cur[i] == flag_name(k));
            }
        }
    }
    assert(flag_name(0) == "WRITE_DATA_CHECKSUM"@);
    assert(flag_name(1) == "COMMAND"@);
    assert(flag_name(2) == "RESET"@);
    assert(flag_name(3) == "T_TRACKING_ALERT"@);
    assert(flag_name(4) == "RH_TRACKING_ALERT"@);
    assert(flag_name(5) == "HEATER"@);
    assert(flag_name(6) == "ALERT_PENDING"@);
}

} // verus!

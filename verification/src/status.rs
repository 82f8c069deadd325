use vstd::prelude::*;

verus! {

/// The status register of the sensor.
///
/// It gives information on the operational status of the heater, the alert
/// mode and on the execution status of the last command and the last write
/// sequence. Every bit read from the sensor is kept, also the reserved ones.
#[derive(Debug, Clone, Copy)]
pub struct Status {
    bits: u16,
}

/// The number of named flags of the status register.
pub const FLAG_COUNT: usize = 7;

/// The bits of the status register that carry no named flag.
pub const RESERVED_BITS: u16 = 0x53ec;

/// The bit of the `i`-th named flag, in declaration order.
pub open spec fn flag_bit(i: int) -> u16 {
    if i == 0 {
        0x0001
    } else if i == 1 {
        0x0002
    } else if i == 2 {
        0x0010
    } else if i == 3 {
        0x0400
    } else if i == 4 {
        0x0800
    } else if i == 5 {
        0x2000
    } else {
        0x8000
    }
}

/// The name of the `i`-th named flag, in declaration order.
pub open spec fn flag_name(i: int) -> Seq<char> {
    if i == 0 {
        "WRITE_DATA_CHECKSUM"@
    } else if i == 1 {
        "COMMAND"@
    } else if i == 2 {
        "RESET"@
    } else if i == 3 {
        "T_TRACKING_ALERT"@
    } else if i == 4 {
        "RH_TRACKING_ALERT"@
    } else if i == 5 {
        "HEATER"@
    } else {
        "ALERT_PENDING"@
    }
}

/// The names of the flags among the first `n` that are set in `bits`, in
/// declaration order.
pub open spec fn set_flag_names(bits: u16, n: nat) -> Seq<Seq<char>>
    decreases n,
{
    if n == 0 {
        Seq::empty()
    } else {
        let before = set_flag_names(bits, (n - 1) as nat);
        if bits & flag_bit(n - 1) != 0 {
            before.push(flag_name(n - 1))
        } else {
            before
        }
    }
}

/// The lower-case hexadecimal digit of `d`.
pub open spec fn hex_digit(d: int) -> char {
    if d < 10 {
        ('0' as int + d) as char
    } else {
        ('a' as int + (d - 10)) as char
    }
}

/// `v` written in lower-case hexadecimal, without leading zeros.
pub open spec fn hex_text(v: nat) -> Seq<char>
    decreases v,
{
    if v < 16 {
        seq![hex_digit(v as int)]
    } else {
        hex_text(v / 16).push(hex_digit((v % 16) as int))
    }
}

/// The parts joined with `" | "` between two consecutive parts.
pub open spec fn join_bars(parts: Seq<Seq<char>>) -> Seq<char>
    decreases parts.len(),
{
    if parts.len() == 0 {
        Seq::empty()
    } else if parts.len() == 1 {
        parts[0]
    } else {
        join_bars(parts.drop_last()) + " | "@ + parts.last()
    }
}

/// The textual parts of a status value: the names of its set flags in
/// declaration order, then, where reserved bits are set, those bits as a
/// `0x`-prefixed lower-case hexadecimal number.
pub open spec fn status_parts(bits: u16) -> Seq<Seq<char>> {
    let names = set_flag_names(bits, FLAG_COUNT as nat);
    let reserved = bits & RESERVED_BITS;
    if reserved != 0 {
        names.push("0x"@ + hex_text(reserved as nat))
    } else {
        names
    }
}

/// The text of a status value.
pub open spec fn status_text(bits: u16) -> Seq<char> {
    join_bars(status_parts(bits))
}

/// A named flag of the status register.
#[derive(Debug, Clone, Copy, PartialEq, Eq, Structural)]
pub enum Flag {
    /// Write data checksum status
    ///
    /// - '0': checksum of last write transfer was correct
    /// - '1': checksum of last write transfer was incorrect
    WriteDataChecksum,
    /// Command status
    ///
    /// - '0': last command executed successfully
    /// - '1': last command not processed. It was either invalid or failed
    /// the integrated command checksum
    Command,
    /// System reset detected
    ///
    /// - '0': no reset detected since the last clear of the status
    /// - '1': reset detected (hard reset, supply fail or soft reset)
    Reset,
    /// Temperature tracking alert
    ///
    /// - '0': no alert
    /// - '1': alert
    TTrackingAlert,
    /// Relative humidity tracking alert
    ///
    /// - '0': no alert
    /// - '1': alert
    RhTrackingAlert,
    /// Heater status
    ///
    /// - '0': Heater OFF
    /// - '1': Heater ON
    Heater,
    /// Alert pending status
    ///
    /// - '0': no pending alerts
    /// - '1': at least one pending alert
    AlertPending,
}

impl Flag {
    /// The position of this flag in declaration order.
    pub open spec fn index(self) -> int {
        match self {
            Flag::WriteDataChecksum => 0,
            Flag::Command => 1,
            Flag::Reset => 2,
            Flag::TTrackingAlert => 3,
            Flag::RhTrackingAlert => 4,
            Flag::Heater => 5,
            Flag::AlertPending => 6,
        }
    }

    /// The flag at position `i` in declaration order.
    pub fn at(i: usize) -> (flag: Flag)
        requires
            i < FLAG_COUNT,
        ensures
            flag.index() == i,
    {
        if i == 0 {
            Flag::WriteDataChecksum
        } else if i == 1 {
            Flag::Command
        } else if i == 2 {
            Flag::Reset
        } else if i == 3 {
            Flag::TTrackingAlert
        } else if i == 4 {
            Flag::RhTrackingAlert
        } else if i == 5 {
            Flag::Heater
        } else {
            Flag::AlertPending
        }
    }

    /// The bit of the status register that holds this flag.
    pub fn bit(&self) -> (bit: u16)
        ensures
            bit == flag_bit(self.index()),
            *self == Flag::WriteDataChecksum ==> bit == 0x0001,
            *self == Flag::Command ==> bit == 0x0002,
            *self == Flag::Reset ==> bit == 0x0010,
            *self == Flag::TTrackingAlert ==> bit == 0x0400,
            *self == Flag::RhTrackingAlert ==> bit == 0x0800,
            *self == Flag::Heater ==> bit == 0x2000,
            *self == Flag::AlertPending ==> bit == 0x8000,
    {
        match self {
            Flag::WriteDataChecksum => 0x0001,
            Flag::Command => 0x0002,
            Flag::Reset => 0x0010,
            Flag::TTrackingAlert => 0x0400,
            Flag::RhTrackingAlert => 0x0800,
            Flag::Heater => 0x2000,
            Flag::AlertPending => 0x8000,
        }
    }

    /// The status value in which exactly this flag is set.
    pub fn status(&self) -> (status: Status)
        ensures
            status@ == flag_bit(self.index()),
            *self == Flag::WriteDataChecksum ==> status@ == 0x0001,
            *self == Flag::Command ==> status@ == 0x0002,
            *self == Flag::Reset ==> status@ == 0x0010,
            *self == Flag::TTrackingAlert ==> status@ == 0x0400,
            *self == Flag::RhTrackingAlert ==> status@ == 0x0800,
            *self == Flag::Heater ==> status@ == 0x2000,
            *self == Flag::AlertPending ==> status@ == 0x8000,
    {
        Status { bits: self.bit() }
    }

    /// The name of this flag.
    pub fn name(&self) -> (name: &'static str)
        ensures
            name@ == flag_name(self.index()),
            *self == Flag::WriteDataChecksum ==> name@ == "WRITE_DATA_CHECKSUM"@,
            *self == Flag::Command ==> name@ == "COMMAND"@,
            *self == Flag::Reset ==> name@ == "RESET"@,
            *self == Flag::TTrackingAlert ==> name@ == "T_TRACKING_ALERT"@,
            *self == Flag::RhTrackingAlert ==> name@ == "RH_TRACKING_ALERT"@,
            *self == Flag::Heater ==> name@ == "HEATER"@,
            *self == Flag::AlertPending ==> name@ == "ALERT_PENDING"@,
    {
        match self {
            Flag::WriteDataChecksum => "WRITE_DATA_CHECKSUM",
            Flag::Command => "COMMAND",
            Flag::Reset => "RESET",
            Flag::TTrackingAlert => "T_TRACKING_ALERT",
            Flag::RhTrackingAlert => "RH_TRACKING_ALERT",
            Flag::Heater => "HEATER",
            Flag::AlertPending => "ALERT_PENDING",
        }
    }
}

/// The one-character text of the hexadecimal digit `d`.
fn hex_digit_str(d: u16) -> (text: &'static str)
    requires
        d < 16,
    ensures
        text@ == seq![hex_digit(d as int)],
{
    if d == 0 {
        proof {
            reveal_strlit("0");
        }
        "0"
    } else if d == 1 {
        proof {
            reveal_strlit("1");
        }
        "1"
    } else if d == 2 {
        proof {
            reveal_strlit("2");
        }
        "2"
    } else if d == 3 {
        proof {
            reveal_strlit("3");
        }
        "3"
    } else if d == 4 {
        proof {
            reveal_strlit("4");
        }
        "4"
    } else if d == 5 {
        proof {
            reveal_strlit("5");
        }
        "5"
    } else if d == 6 {
        proof {
            reveal_strlit("6");
        }
        "6"
    } else if d == 7 {
        proof {
            reveal_strlit("7");
        }
        "7"
    } else if d == 8 {
        proof {
            reveal_strlit("8");
        }
        "8"
    } else if d == 9 {
        proof {
            reveal_strlit("9");
        }
        "9"
    } else if d == 10 {
        proof {
            reveal_strlit("a");
        }
        "a"
    } else if d == 11 {
        proof {
            reveal_strlit("b");
        }
        "b"
    } else if d == 12 {
        proof {
            reveal_strlit("c");
        }
        "c"
    } else if d == 13 {
        proof {
            reveal_strlit("d");
        }
        "d"
    } else if d == 14 {
        proof {
            reveal_strlit("e");
        }
        "e"
    } else {
        proof {
            reveal_strlit("f");
        }
        "f"
    }
}

/// Appends `v` in lower-case hexadecimal, without leading zeros.
fn append_hex(text: &mut String, v: u16)
    ensures
        final(text)@ == old(text)@ + hex_text(v as nat),
    decreases v,
{
    if v < 16 {
        text.append(hex_digit_str(v));
    } else {
        append_hex(text, v / 16);
        text.append(hex_digit_str(v % 16));
        assert(hex_text(v as nat) == hex_text((v / 16) as nat).push(hex_digit((v % 16) as int)));
        assert(final(text)@ =~= old(text)@ + hex_text(v as nat));
    }
}

/// Joining one more part appends it, after a separator when parts came
/// before it.
proof fn lemma_join_bars_push(parts: Seq<Seq<char>>, part: Seq<char>)
    ensures
        join_bars(parts.push(part)) == if parts.len() == 0 {
            part
        } else {
            join_bars(parts) + " | "@ + part
        },
{
    assert(parts.push(part).drop_last() =~= parts);
}

/// A joined text is at least as long as its last part.
proof fn lemma_join_bars_len(parts: Seq<Seq<char>>)
    requires
        parts.len() > 0,
    ensures
        join_bars(parts).len() >= parts.last().len(),
{
}

/// Every flag name is non-empty.
proof fn lemma_flag_name_nonempty(i: int)
    ensures
        flag_name(i).len() > 0,
{
    reveal_strlit("WRITE_DATA_CHECKSUM");
    reveal_strlit("COMMAND");
    reveal_strlit("RESET");
    reveal_strlit("T_TRACKING_ALERT");
    reveal_strlit("RH_TRACKING_ALERT");
    reveal_strlit("HEATER");
    reveal_strlit("ALERT_PENDING");
}

/// The names of the set flags among the first `n`: none when no bit is set,
/// and their last one non-empty when one of those flags is set.
proof fn lemma_set_flag_names(bits: u16, n: nat)
    requires
        n <= FLAG_COUNT,
    ensures
        bits == 0 ==> set_flag_names(bits, n).len() == 0,
        (exists|i: int| 0 <= i < n && bits & #[trigger] flag_bit(i) != 0) ==> set_flag_names(
            bits,
            n,
        ).len() > 0 && set_flag_names(bits, n).last().len() > 0,
    decreases n,
{
    if n > 0 {
        lemma_set_flag_names(bits, (n - 1) as nat);
        let b = flag_bit(n - 1);
        assert(bits == 0 ==> bits & b == 0) by (bit_vector);
        lemma_flag_name_nonempty(n - 1);
        if exists|i: int| 0 <= i < n && bits & #[trigger] flag_bit(i) != 0 {
            let i = choose|i: int| 0 <= i < n && bits & #[trigger] flag_bit(i) != 0;
            if i < n - 1 {
                assert(exists|j: int| 0 <= j < n - 1 && bits & #[trigger] flag_bit(j) != 0);
            }
        }
    }
}

/// The text of a status value is empty exactly when no bit of the status
/// register is set.
pub proof fn lemma_status_text_empty_iff_clear(bits: u16)
    ensures
        status_text(bits).len() == 0 <==> bits == 0,
{
    lemma_set_flag_names(bits, FLAG_COUNT as nat);
    let names = set_flag_names(bits, FLAG_COUNT as nat);
    let reserved = bits & RESERVED_BITS;
    if bits == 0 {
        assert(bits & 0x53ec == 0) by (bit_vector)
            requires
                bits == 0,
        ;
        assert(status_parts(bits) =~= Seq::<Seq<char>>::empty());
    } else {
        assert(bits & 0x53ec != 0 || bits & 0x0001 != 0 || bits & 0x0002 != 0 || bits & 0x0010
            != 0 || bits & 0x0400 != 0 || bits & 0x0800 != 0 || bits & 0x2000 != 0 || bits
            & 0x8000 != 0) by (bit_vector)
            requires
                bits != 0,
        ;
        if reserved != 0 {
            let part = "0x"@ + hex_text(reserved as nat);
            assert(hex_text(reserved as nat).len() > 0);
            assert(status_parts(bits).last() == part);
            lemma_join_bars_len(status_parts(bits));
        } else {
            if bits & 0x0001 != 0 {
                assert(bits & flag_bit(0) != 0);
            } else if bits & 0x0002 != 0 {
                assert(bits & flag_bit(1) != 0);
            } else if bits & 0x0010 != 0 {
                assert(bits & flag_bit(2) != 0);
            } else if bits & 0x0400 != 0 {
                assert(bits & flag_bit(3) != 0);
            } else if bits & 0x0800 != 0 {
                assert(bits & flag_bit(4) != 0);
            } else if bits & 0x2000 != 0 {
                assert(bits & flag_bit(5) != 0);
            } else {
                assert(bits & flag_bit(6) != 0);
            }
            assert(status_parts(bits) == names);
            lemma_join_bars_len(names);
        }
    }
}

/// Each flag sits on its datasheet bit of the status register and carries
/// its datasheet name: write data checksum on bit 0, command on bit 1, reset
/// on bit 4, temperature tracking alert on bit 10, humidity tracking alert on
/// bit 11, heater on bit 13, alert pending on bit 15.
pub proof fn lemma_flag_datasheet_bits()
    ensures
        flag_bit(Flag::WriteDataChecksum.index()) == 1u16 << 0u16,
        flag_bit(Flag::Command.index()) == 1u16 << 1u16,
        flag_bit(Flag::Reset.index()) == 1u16 << 4u16,
        flag_bit(Flag::TTrackingAlert.index()) == 1u16 << 10u16,
        flag_bit(Flag::RhTrackingAlert.index()) == 1u16 << 11u16,
        flag_bit(Flag::Heater.index()) == 1u16 << 13u16,
        flag_bit(Flag::AlertPending.index()) == 1u16 << 15u16,
        flag_name(Flag::WriteDataChecksum.index()) == "WRITE_DATA_CHECKSUM"@,
        flag_name(Flag::Command.index()) == "COMMAND"@,
        flag_name(Flag::Reset.index()) == "RESET"@,
        flag_name(Flag::TTrackingAlert.index()) == "T_TRACKING_ALERT"@,
        flag_name(Flag::RhTrackingAlert.index()) == "RH_TRACKING_ALERT"@,
        flag_name(Flag::Heater.index()) == "HEATER"@,
        flag_name(Flag::AlertPending.index()) == "ALERT_PENDING"@,
{
    assert(1u16 << 0u16 == 0x0001) by (bit_vector);
    assert(1u16 << 1u16 == 0x0002) by (bit_vector);
    assert(1u16 << 4u16 == 0x0010) by (bit_vector);
    assert(1u16 << 10u16 == 0x0400) by (bit_vector);
    assert(1u16 << 11u16 == 0x0800) by (bit_vector);
    assert(1u16 << 13u16 == 0x2000) by (bit_vector);
    assert(1u16 << 15u16 == 0x8000) by (bit_vector);
}

impl View for Status {
    type V = u16;

    closed spec fn view(&self) -> u16 {
        self.bits
    }
}

impl Status {
    /// A status value holding exactly `bits`, reserved bits included.
    pub fn from_bits_retain(bits: u16) -> (status: Status)
        ensures
            status@ == bits,
    {
        Status { bits }
    }

    /// The bits of this status value.
    pub fn bits(&self) -> (bits: u16)
        ensures
            bits == self@,
    {
        self.bits
    }

    /// Whether every bit set in `other` is set in `self`.
    pub fn contains(&self, other: Status) -> (res: bool)
        ensures
            res == (self@ & other@ == other@),
    {
        self.bits & other.bits == other.bits
    }

    /// The text of this status value: the names of the set flags in
    /// declaration order, separated by `" | "`, followed by the reserved bits
    /// that are set, written as a `0x`-prefixed lower-case hexadecimal number.
    pub fn to_flags_string(&self) -> (text: String)
        ensures
            text@ == status_text(self@),
    {
        let bits = self.bits;
        let mut text = String::new();
        let mut first = true;
        let mut i: usize = 0;
        while i < FLAG_COUNT
            invariant
                i <= FLAG_COUNT,
                first == (set_flag_names(bits, i as nat).len() == 0),
                text@ == join_bars(set_flag_names(bits, i as nat)),
            decreases FLAG_COUNT - i,
        {
            let flag = Flag::at(i);
            let ghost names = set_flag_names(bits, i as nat);
            if bits & flag.bit() != 0 {
                proof {
                    lemma_join_bars_push(names, flag_name(i as int));
                }
                if !first {
                    text.append(" | ");
                }
                text.append(flag.name());
                first = false;
            }
            i = i + 1;
        }
        let reserved = bits & RESERVED_BITS;
        if reserved != 0 {
            let ghost names = set_flag_names(bits, FLAG_COUNT as nat);
            proof {
                lemma_join_bars_push(names, "0x"@ + hex_text(reserved as nat));
            }
            if !first {
                text.append(" | ");
            }
            let ghost before = text@;
            text.append("0x");
            append_hex(&mut text, reserved);
            assert(text@ =~= before + ("0x"@ + hex_text(reserved as nat)));
        }
        text
    }
}

} // verus!

//! The conditions that the two fault status registers report.
//!
//! Each of the low eleven bits of a status word stands for one condition.
//! A snapshot is read from bit 10 down to bit 0.

use crate::messages::Commands;
use vstd::prelude::*;
use vstd::utf8::{is_ascii_chars, is_ascii_chars_encode_utf8};

verus! {

/// Number of bits of a status word that stand for a condition.
pub const STATUS_BITS: u16 = 11;

/// A condition that the chip reports.
#[derive(Clone, Copy, Debug, PartialEq, Eq, Structural)]
pub enum Fault {
    /// Any fault at all.
    Fault,
    /// Drain-source overcurrent.
    VdsOcp,
    /// Gate drive fault.
    Gdf,
    /// Undervoltage lockout.
    Uvlo,
    /// Overtemperature shutdown.
    Otsd,
    /// Drain-source overcurrent, leg A, high side.
    VdsHa,
    /// Drain-source overcurrent, leg A, low side.
    VdsLa,
    /// Drain-source overcurrent, leg B, high side.
    VdsHb,
    /// Drain-source overcurrent, leg B, low side.
    VdsLb,
    /// Drain-source overcurrent, leg C, high side.
    VdsHc,
    /// Drain-source overcurrent, leg C, low side.
    VdsLc,
    /// Sense overcurrent, leg A.
    SaOc,
    /// Sense overcurrent, leg B.
    SbOc,
    /// Sense overcurrent, leg C.
    ScOc,
    /// Overtemperature warning.
    Otw,
    /// Charge-pump undervoltage.
    Cpuv,
    /// Gate-source fault, leg A, high side.
    VgsHa,
    /// Gate-source fault, leg A, low side.
    VgsLa,
    /// Gate-source fault, leg B, high side.
    VgsHb,
    /// Gate-source fault, leg B, low side.
    VgsLb,
    /// Gate-source fault, leg C, high side.
    VgsHc,
    /// Gate-source fault, leg C, low side.
    VgsLc,
}

/// Which of the two status registers a word was read from.
#[derive(Clone, Copy, Debug, PartialEq, Eq, Structural)]
pub enum Status {
    First,
    Second,
}

/// Whether bit `bit` of `word` is set.
pub open spec fn bit_set(word: u16, bit: u16) -> bool {
    word & (1u16 << bit) != 0
}

/// The condition that bit `bit` of a status register stands for, for a bit
/// from 0 to 10.
pub open spec fn spec_fault_at(status: Status, bit: u16) -> Fault {
    match status {
        Status::First => if bit == 10 {
            Fault::Fault
        } else if bit == 9 {
            Fault::VdsOcp
        } else if bit == 8 {
            Fault::Gdf
        } else if bit == 7 {
            Fault::Uvlo
        } else if bit == 6 {
            Fault::Otsd
        } else if bit == 5 {
            Fault::VdsHa
        } else if bit == 4 {
            Fault::VdsLa
        } else if bit == 3 {
            Fault::VdsHb
        } else if bit == 2 {
            Fault::VdsLb
        } else if bit == 1 {
            Fault::VdsHc
        } else {
            Fault::VdsLc
        },
        Status::Second => if bit == 10 {
            Fault::SaOc
        } else if bit == 9 {
            Fault::SbOc
        } else if bit == 8 {
            Fault::ScOc
        } else if bit == 7 {
            Fault::Otw
        } else if bit == 6 {
            Fault::Cpuv
        } else if bit == 5 {
            Fault::VgsHa
        } else if bit == 4 {
            Fault::VgsLa
        } else if bit == 3 {
            Fault::VgsHb
        } else if bit == 2 {
            Fault::VgsLb
        } else if bit == 1 {
            Fault::VgsHc
        } else {
            Fault::VgsLc
        },
    }
}

/// The conditions that the bits below `bits` of a status word report, from
/// the highest of those bits down.
pub open spec fn faults_below(status: Status, word: u16, bits: u16) -> Seq<Fault>
    decreases bits,
{
    if bits == 0 {
        Seq::empty()
    } else {
        let bit = (bits - 1) as u16;
        let lower = faults_below(status, word, bit);
        if bit_set(word, bit) {
            seq![spec_fault_at(status, bit)] + lower
        } else {
            lower
        }
    }
}

/// The conditions that a status word reports, from bit 10 down to bit 0.
pub open spec fn spec_status_faults(status: Status, word: u16) -> Seq<Fault> {
    faults_below(status, word, STATUS_BITS)
}

/// The conditions that a snapshot of both status registers reports: those of
/// the first register, then those of the second.
pub open spec fn spec_decode_faults(fsr1: u16, fsr2: u16) -> Seq<Fault> {
    spec_status_faults(Status::First, fsr1) + spec_status_faults(Status::Second, fsr2)
}

impl Fault {
    /// The name under which the condition is reported.
    pub open spec fn spec_name(self) -> Seq<char> {
        match self {
            Fault::Fault => "FAULT"@,
            Fault::VdsOcp => "VDS_OCP"@,
            Fault::Gdf => "GDF"@,
            Fault::Uvlo => "UVLO"@,
            Fault::Otsd => "OTSD"@,
            Fault::VdsHa => "VDS_HA"@,
            Fault::VdsLa => "VDS_LA"@,
            Fault::VdsHb => "VDS_HB"@,
            Fault::VdsLb => "VDS_LB"@,
            Fault::VdsHc => "VDS_HC"@,
            Fault::VdsLc => "VDS_LC"@,
            Fault::SaOc => "SA_OC"@,
            Fault::SbOc => "SB_OC"@,
            Fault::ScOc => "SC_OC"@,
            Fault::Otw => "OTW"@,
            Fault::Cpuv => "CPUV"@,
            Fault::VgsHa => "VGS_HA"@,
            Fault::VgsLa => "VGS_LA"@,
            Fault::VgsHb => "VGS_HB"@,
            Fault::VgsLb => "VGS_LB"@,
            Fault::VgsHc => "VGS_HC"@,
            Fault::VgsLc => "VGS_LC"@,
        }
    }

    /// The name as the bytes that go out of the console link: one byte
    /// for each character.
    pub open spec fn spec_bytes(self) -> Seq<u8> {
        Seq::new(self.spec_name().len(), |i: int| self.spec_name()[i] as u8)
    }

    /// The status register that reports the condition.
    pub open spec fn spec_status(self) -> Status {
        match self {
            Fault::Fault
            | Fault::VdsOcp
            | Fault::Gdf
            | Fault::Uvlo
            | Fault::Otsd
            | Fault::VdsHa
            | Fault::VdsLa
            | Fault::VdsHb
            | Fault::VdsLb
            | Fault::VdsHc
            | Fault::VdsLc => Status::First,
            _ => Status::Second,
        }
    }

    /// The bit of its status register that reports the condition.
    pub open spec fn spec_bit(self) -> u16 {
        match self {
            Fault::Fault | Fault::SaOc => 10,
            Fault::VdsOcp | Fault::SbOc => 9,
            Fault::Gdf | Fault::ScOc => 8,
            Fault::Uvlo | Fault::Otw => 7,
            Fault::Otsd | Fault::Cpuv => 6,
            Fault::VdsHa | Fault::VgsHa => 5,
            Fault::VdsLa | Fault::VgsLa => 4,
            Fault::VdsHb | Fault::VgsHb => 3,
            Fault::VdsLb | Fault::VgsLb => 2,
            Fault::VdsHc | Fault::VgsHc => 1,
            Fault::VdsLc | Fault::VgsLc => 0,
        }
    }

    /// The name under which the condition is reported.
    pub fn name(self) -> (name: &'static str)
        ensures
            name@ == self.spec_name(),
    {
        match self {
            Fault::Fault => "FAULT",
            Fault::VdsOcp => "VDS_OCP",
            Fault::Gdf => "GDF",
            Fault::Uvlo => "UVLO",
            Fault::Otsd => "OTSD",
            Fault::VdsHa => "VDS_HA",
            Fault::VdsLa => "VDS_LA",
            Fault::VdsHb => "VDS_HB",
            Fault::VdsLb => "VDS_LB",
            Fault::VdsHc => "VDS_HC",
            Fault::VdsLc => "VDS_LC",
            Fault::SaOc => "SA_OC",
            Fault::SbOc => "SB_OC",
            Fault::ScOc => "SC_OC",
            Fault::Otw => "OTW",
            Fault::Cpuv => "CPUV",
            Fault::VgsHa => "VGS_HA",
            Fault::VgsLa => "VGS_LA",
            Fault::VgsHb => "VGS_HB",
            Fault::VgsLb => "VGS_LB",
            Fault::VgsHc => "VGS_HC",
            Fault::VgsLc => "VGS_LC",
        }
    }

    /// Every name is plain ASCII.
    pub proof fn lemma_name_is_ascii(self)
        ensures
            is_ascii_chars(self.spec_name()),
    {
        reveal_strlit("FAULT");
        reveal_strlit("VDS_OCP");
        reveal_strlit("GDF");
        reveal_strlit("UVLO");
        reveal_strlit("OTSD");
        reveal_strlit("VDS_HA");
        reveal_strlit("VDS_LA");
        reveal_strlit("VDS_HB");
        reveal_strlit("VDS_LB");
        reveal_strlit("VDS_HC");
        reveal_strlit("VDS_LC");
        reveal_strlit("SA_OC");
        reveal_strlit("SB_OC");
        reveal_strlit("SC_OC");
        reveal_strlit("OTW");
        reveal_strlit("CPUV");
        reveal_strlit("VGS_HA");
        reveal_strlit("VGS_LA");
        reveal_strlit("VGS_HB");
        reveal_strlit("VGS_LB");
        reveal_strlit("VGS_HC");
        reveal_strlit("VGS_LC");
    }

    /// The command that has the console writer send the name.
    pub fn command(self) -> (command: Commands)
        ensures
            command@ == self.spec_bytes(),
    {
        let name = self.name();
        proof {
            self.lemma_name_is_ascii();
            is_ascii_chars_encode_utf8(name@);
        }
        let bytes = name.as_bytes();
        Commands::UsartTxBuf(bytes)
    }

    /// The status register that reports the condition.
    pub fn status(self) -> (status: Status)
        ensures
            status == self.spec_status(),
    {
        match self {
            Fault::Fault
            | Fault::VdsOcp
            | Fault::Gdf
            | Fault::Uvlo
            | Fault::Otsd
            | Fault::VdsHa
            | Fault::VdsLa
            | Fault::VdsHb
            | Fault::VdsLb
            | Fault::VdsHc
            | Fault::VdsLc => Status::First,
            _ => Status::Second,
        }
    }

    /// The bit of its status register that reports the condition.
    pub fn bit(self) -> (bit: u16)
        ensures
            bit == self.spec_bit(),
            bit < STATUS_BITS,
            spec_fault_at(self.spec_status(), bit) == self,
    {
        match self {
            Fault::Fault | Fault::SaOc => 10,
            Fault::VdsOcp | Fault::SbOc => 9,
            Fault::Gdf | Fault::ScOc => 8,
            Fault::Uvlo | Fault::Otw => 7,
            Fault::Otsd | Fault::Cpuv => 6,
            Fault::VdsHa | Fault::VgsHa => 5,
            Fault::VdsLa | Fault::VgsLa => 4,
            Fault::VdsHb | Fault::VgsHb => 3,
            Fault::VdsLb | Fault::VgsLb => 2,
            Fault::VdsHc | Fault::VgsHc => 1,
            Fault::VdsLc | Fault::VgsLc => 0,
        }
    }
}

/// The condition that bit `bit` of a status register stands for; `None` for
/// a bit above bit 10, which stands for nothing.
pub fn fault_at(status: Status, bit: u16) -> (fault: Option<Fault>)
    ensures
        fault is Some <==> bit < STATUS_BITS,
        fault matches Some(found) ==> found == spec_fault_at(status, bit) && found.spec_status()
            == status && found.spec_bit() == bit,
{
    match status {
        Status::First => match bit {
            10 => Some(Fault::Fault),
            9 => Some(Fault::VdsOcp),
            8 => Some(Fault::Gdf),
            7 => Some(Fault::Uvlo),
            6 => Some(Fault::Otsd),
            5 => Some(Fault::VdsHa),
            4 => Some(Fault::VdsLa),
            3 => Some(Fault::VdsHb),
            2 => Some(Fault::VdsLb),
            1 => Some(Fault::VdsHc),
            0 => Some(Fault::VdsLc),
            _ => None,
        },
        Status::Second => match bit {
            10 => Some(Fault::SaOc),
            9 => Some(Fault::SbOc),
            8 => Some(Fault::ScOc),
            7 => Some(Fault::Otw),
            6 => Some(Fault::Cpuv),
            5 => Some(Fault::VgsHa),
            4 => Some(Fault::VgsLa),
            3 => Some(Fault::VgsHb),
            2 => Some(Fault::VgsLb),
            1 => Some(Fault::VgsHc),
            0 => Some(Fault::VgsLc),
            _ => None,
        },
    }
}

/// Appends to `found` the conditions that one status word reports, from bit
/// 10 down to bit 0.
pub fn status_faults(status: Status, word: u16, found: &mut Vec<Fault>)
    ensures
        final(found)@ == old(found)@ + spec_status_faults(status, word),
{
    let ghost before = found@;
    let mut bits: u16 = STATUS_BITS;
    while bits > 0
        invariant
            bits <= STATUS_BITS,
            found@ + faults_below(status, word, bits) == before + faults_below(
                status,
                word,
                STATUS_BITS,
            ),
        decreases bits,
    {
        let bit: u16 = bits - 1;
        if word & (1u16 << bit) != 0 {
            if let Some(fault) = fault_at(status, bit) {
                found.push(fault);
            }
        }
        bits = bit;
    }
}

/// The conditions that a snapshot of both status registers reports.
pub fn decode_faults(fsr1: u16, fsr2: u16) -> (found: Vec<Fault>)
    ensures
        found@ == spec_decode_faults(fsr1, fsr2),
{
    let mut found: Vec<Fault> = Vec::new();
    status_faults(Status::First, fsr1, &mut found);
    status_faults(Status::Second, fsr2, &mut found);
    found
}

/// A status word whose low eleven bits are clear reports nothing.
pub proof fn lemma_clear_word_reports_nothing(status: Status, word: u16)
    requires
        word & 0x7FF == 0,
    ensures
        spec_status_faults(status, word) == Seq::<Fault>::empty(),
{
    lemma_clear_below(status, word, STATUS_BITS);
}

proof fn lemma_clear_below(status: Status, word: u16, bits: u16)
    requires
        word & 0x7FF == 0,
        bits <= STATUS_BITS,
    ensures
        faults_below(status, word, bits) == Seq::<Fault>::empty(),
    decreases bits,
{
    if bits > 0 {
        let bit = (bits - 1) as u16;
        assert(word & (1u16 << bit) == 0) by (bit_vector)
            requires
                word & 0x7FF == 0,
                bit < 11,
        ;
        lemma_clear_below(status, word, bit);
    }
}

/// What holds of the conditions reported for the bits below `bits`: each
/// belongs to the register and to a bit below `bits` that is set; they come
/// in descending order of their bits; and none whose bit is set is missing.
pub open spec fn well_reported(status: Status, word: u16, bits: u16, found: Seq<Fault>) -> bool {
    &&& forall|i: int|
        0 <= i < found.len() ==> {
            &&& (#[trigger] found[i]).spec_status() == status
            &&& found[i].spec_bit() < bits
            &&& bit_set(word, found[i].spec_bit())
        }
    &&& forall|i: int, j: int|
        0 <= i < j < found.len() ==> (#[trigger] found[i]).spec_bit() > (
        #[trigger] found[j]).spec_bit()
    &&& forall|bit: u16|
        bit < bits && bit_set(word, bit) ==> found.contains(#[trigger] spec_fault_at(status, bit))
}

proof fn lemma_below_well_reported(status: Status, word: u16, bits: u16)
    requires
        bits <= STATUS_BITS,
    ensures
        well_reported(status, word, bits, faults_below(status, word, bits)),
    decreases bits,
{
    let found = faults_below(status, word, bits);
    if bits > 0 {
        let bit = (bits - 1) as u16;
        let lower = faults_below(status, word, bit);
        let here = spec_fault_at(status, bit);
        lemma_below_well_reported(status, word, bit);
        if bit_set(word, bit) {
            assert forall|i: int| 0 <= i < found.len() implies {
                &&& (#[trigger] found[i]).spec_status() == status
                &&& found[i].spec_bit() < bits
                &&& bit_set(word, found[i].spec_bit())
            } by {}
            assert forall|i: int, j: int| 0 <= i < j < found.len() implies (
            #[trigger] found[i]).spec_bit() > (#[trigger] found[j]).spec_bit() by {}
            assert forall|b: u16| b < bits && bit_set(word, b) implies found.contains(
                #[trigger] spec_fault_at(status, b),
            ) by {
                if b == bit {
                    assert(found[0] == here);
                } else {
                    let k = choose|k: int|
                        0 <= k < lower.len() && lower[k] == spec_fault_at(status, b);
                    assert(found[k + 1] == lower[k]);
                }
            }
        }
    }
}

/// Decoding is exact: a status word reports a condition if and only if the
/// condition belongs to that register and its bit is set.
pub proof fn lemma_reported_iff_set(status: Status, word: u16, fault: Fault)
    ensures
        spec_status_faults(status, word).contains(fault) <==> (fault.spec_status() == status
            && bit_set(word, fault.spec_bit())),
{
    lemma_below_well_reported(status, word, STATUS_BITS);
    if fault.spec_status() == status && bit_set(word, fault.spec_bit()) {
        assert(spec_fault_at(status, fault.spec_bit()) == fault);
    }
}

/// Conditions are reported from the highest bit down, so none is reported
/// twice.
pub proof fn lemma_reported_in_descending_order(status: Status, word: u16, i: int, j: int)
    requires
        0 <= i < j < spec_status_faults(status, word).len(),
    ensures
        spec_status_faults(status, word)[i].spec_bit() > spec_status_faults(
            status,
            word,
        )[j].spec_bit(),
{
    lemma_below_well_reported(status, word, STATUS_BITS);
}

} // verus!

//! UTC offsets that members may choose for their entries, as two choice lists
//! (western and eastern hemisphere), and the conversion between a choice and
//! an offset in minutes.
use vstd::prelude::*;

verus! {

/// Eastern-hemisphere offsets.
#[derive(Debug, Clone, Copy, PartialEq, Eq, Structural)]
pub enum PlusOffsetChoice {
    UTCPlus1,
    UTCPlus2,
    UTCPlus3,
    UTCPlus3_30,
    UTCPlus4,
    UTCPlus4_30,
    UTCPlus5,
    UTCPlus5_30,
    UTCPlus5_45,
    UTCPlus6,
    UTCPlus6_30,
    UTCPlus7,
    UTCPlus8,
    UTCPlus8_45,
    UTCPlus9,
    UTCPlus9_30,
    UTCPlus10,
    UTCPlus10_30,
    UTCPlus11,
    UTCPlus12,
    UTCPlus12_45,
    UTCPlus13,
    UTCPlus13_45,
    UTCPlus14,
}

/// Western-hemisphere offsets.
#[derive(Debug, Clone, Copy, PartialEq, Eq, Structural)]
pub enum MinusOffsetChoice {
    UTCMinus12,
    UTCMinus11,
    UTCMinus10,
    UTCMinus9_30,
    UTCMinus9,
    UTCMinus8,
    UTCMinus7,
    UTCMinus6,
    UTCMinus5,
    UTCMinus4_30,
    UTCMinus4,
    UTCMinus3_30,
    UTCMinus3,
    UTCMinus2_30,
    UTCMinus2,
    UTCMinus1,
}

/// Periods over which statistics are shown.
#[derive(Debug, Clone, Copy, PartialEq, Eq, Structural)]
pub enum Timeframe {
    Yearly,
    Monthly,
    Weekly,
    Daily,
}

/// The two meditation challenges.
#[derive(Debug, Clone, Copy, PartialEq, Eq, Structural)]
pub enum ChallengeTimeframe {
    Monthly,
    YearRound,
}

/// The name shown for a challenge.
pub open spec fn challenge_timeframe_name(c: ChallengeTimeframe) -> Seq<char> {
    match c {
        ChallengeTimeframe::Monthly => "Monthly Challenge"@,
        ChallengeTimeframe::YearRound => "365-Day Challenge"@,
    }
}

impl ChallengeTimeframe {
    /// The name shown for the challenge in the command's choices.
    pub fn name(&self) -> (s: &'static str)
        ensures
            s@ == challenge_timeframe_name(*self),
    {
        match self {
            ChallengeTimeframe::Monthly => "Monthly Challenge",
            ChallengeTimeframe::YearRound => "365-Day Challenge",
        }
    }
}

/// The offset in minutes of an eastern-hemisphere choice.
pub open spec fn plus_minutes(c: PlusOffsetChoice) -> i16 {
    match c {
        PlusOffsetChoice::UTCPlus1 => 60i16,
        PlusOffsetChoice::UTCPlus2 => 120i16,
        PlusOffsetChoice::UTCPlus3 => 180i16,
        PlusOffsetChoice::UTCPlus3_30 => 210i16,
        PlusOffsetChoice::UTCPlus4 => 240i16,
        PlusOffsetChoice::UTCPlus4_30 => 270i16,
        PlusOffsetChoice::UTCPlus5 => 300i16,
        PlusOffsetChoice::UTCPlus5_30 => 330i16,
        PlusOffsetChoice::UTCPlus5_45 => 345i16,
        PlusOffsetChoice::UTCPlus6 => 360i16,
        PlusOffsetChoice::UTCPlus6_30 => 390i16,
        PlusOffsetChoice::UTCPlus7 => 420i16,
        PlusOffsetChoice::UTCPlus8 => 480i16,
        PlusOffsetChoice::UTCPlus8_45 => 525i16,
        PlusOffsetChoice::UTCPlus9 => 540i16,
        PlusOffsetChoice::UTCPlus9_30 => 570i16,
        PlusOffsetChoice::UTCPlus10 => 600i16,
        PlusOffsetChoice::UTCPlus10_30 => 630i16,
        PlusOffsetChoice::UTCPlus11 => 660i16,
        PlusOffsetChoice::UTCPlus12 => 720i16,
        PlusOffsetChoice::UTCPlus12_45 => 765i16,
        PlusOffsetChoice::UTCPlus13 => 780i16,
        PlusOffsetChoice::UTCPlus13_45 => 825i16,
        PlusOffsetChoice::UTCPlus14 => 840i16,
    }
}

/// The offset in minutes of a western-hemisphere choice.
pub open spec fn minus_minutes(c: MinusOffsetChoice) -> i16 {
    match c {
        MinusOffsetChoice::UTCMinus12 => -720i16,
        MinusOffsetChoice::UTCMinus11 => -660i16,
        MinusOffsetChoice::UTCMinus10 => -600i16,
        MinusOffsetChoice::UTCMinus9_30 => -570i16,
        MinusOffsetChoice::UTCMinus9 => -540i16,
        MinusOffsetChoice::UTCMinus8 => -480i16,
        MinusOffsetChoice::UTCMinus7 => -420i16,
        MinusOffsetChoice::UTCMinus6 => -360i16,
        MinusOffsetChoice::UTCMinus5 => -300i16,
        MinusOffsetChoice::UTCMinus4_30 => -270i16,
        MinusOffsetChoice::UTCMinus4 => -240i16,
        MinusOffsetChoice::UTCMinus3_30 => -210i16,
        MinusOffsetChoice::UTCMinus3 => -180i16,
        MinusOffsetChoice::UTCMinus2_30 => -150i16,
        MinusOffsetChoice::UTCMinus2 => -120i16,
        MinusOffsetChoice::UTCMinus1 => -60i16,
    }
}

/// Whether `offset` is the offset of one of the choices.
pub open spec fn is_choice_offset(offset: i16) -> bool {
    (exists|c: MinusOffsetChoice| minus_minutes(c) == offset) || (exists|c: PlusOffsetChoice|
        plus_minutes(c) == offset)
}

/// `choice` names, in each list, exactly the choice whose offset is `offset`
/// (`None` where the list has no such choice).
pub open spec fn describes_offset(
    offset: i16,
    choice: (Option<MinusOffsetChoice>, Option<PlusOffsetChoice>),
) -> bool {
    &&& forall|c: MinusOffsetChoice| choice.0 == Some(c) <==> minus_minutes(c) == offset
    &&& forall|c: PlusOffsetChoice| choice.1 == Some(c) <==> plus_minutes(c) == offset
}

/// The offset selected by an optional choice from each list: `default` when
/// neither is given, `None` when both are.
pub open spec fn chosen_offset(
    minus_offset: Option<MinusOffsetChoice>,
    plus_offset: Option<PlusOffsetChoice>,
    default: i16,
) -> Option<i16> {
    match (minus_offset, plus_offset) {
        (None, None) => Some(default),
        (Some(_), Some(_)) => None,
        (Some(m), None) => Some(minus_minutes(m)),
        (None, Some(p)) => Some(plus_minutes(p)),
    }
}

/// The choice whose offset is `offset`, in the list it belongs to; `(None, None)`
/// when no choice has that offset.
pub fn choice_from_offset(offset: i16) -> (res: (Option<MinusOffsetChoice>, Option<PlusOffsetChoice>))
    ensures
        describes_offset(offset, res),
{
    let res = match offset {
        -720 => (Some(MinusOffsetChoice::UTCMinus12), None),
        -660 => (Some(MinusOffsetChoice::UTCMinus11), None),
        -600 => (Some(MinusOffsetChoice::UTCMinus10), None),
        -570 => (Some(MinusOffsetChoice::UTCMinus9_30), None),
        -540 => (Some(MinusOffsetChoice::UTCMinus9), None),
        -480 => (Some(MinusOffsetChoice::UTCMinus8), None),
        -420 => (Some(MinusOffsetChoice::UTCMinus7), None),
        -360 => (Some(MinusOffsetChoice::UTCMinus6), None),
        -300 => (Some(MinusOffsetChoice::UTCMinus5), None),
        -270 => (Some(MinusOffsetChoice::UTCMinus4_30), None),
        -240 => (Some(MinusOffsetChoice::UTCMinus4), None),
        -210 => (Some(MinusOffsetChoice::UTCMinus3_30), None),
        -180 => (Some(MinusOffsetChoice::UTCMinus3), None),
        -150 => (Some(MinusOffsetChoice::UTCMinus2_30), None),
        -120 => (Some(MinusOffsetChoice::UTCMinus2), None),
        -60 => (Some(MinusOffsetChoice::UTCMinus1), None),
        60 => (None, Some(PlusOffsetChoice::UTCPlus1)),
        120 => (None, Some(PlusOffsetChoice::UTCPlus2)),
        180 => (None, Some(PlusOffsetChoice::UTCPlus3)),
        210 => (None, Some(PlusOffsetChoice::UTCPlus3_30)),
        240 => (None, Some(PlusOffsetChoice::UTCPlus4)),
        270 => (None, Some(PlusOffsetChoice::UTCPlus4_30)),
        300 => (None, Some(PlusOffsetChoice::UTCPlus5)),
        330 => (None, Some(PlusOffsetChoice::UTCPlus5_30)),
        345 => (None, Some(PlusOffsetChoice::UTCPlus5_45)),
        360 => (None, Some(PlusOffsetChoice::UTCPlus6)),
        390 => (None, Some(PlusOffsetChoice::UTCPlus6_30)),
        420 => (None, Some(PlusOffsetChoice::UTCPlus7)),
        480 => (None, Some(PlusOffsetChoice::UTCPlus8)),
        525 => (None, Some(PlusOffsetChoice::UTCPlus8_45)),
        540 => (None, Some(PlusOffsetChoice::UTCPlus9)),
        570 => (None, Some(PlusOffsetChoice::UTCPlus9_30)),
        600 => (None, Some(PlusOffsetChoice::UTCPlus10)),
        630 => (None, Some(PlusOffsetChoice::UTCPlus10_30)),
        660 => (None, Some(PlusOffsetChoice::UTCPlus11)),
        720 => (None, Some(PlusOffsetChoice::UTCPlus12)),
        765 => (None, Some(PlusOffsetChoice::UTCPlus12_45)),
        780 => (None, Some(PlusOffsetChoice::UTCPlus13)),
        825 => (None, Some(PlusOffsetChoice::UTCPlus13_45)),
        840 => (None, Some(PlusOffsetChoice::UTCPlus14)),
        _ => (None, None),
    };
    proof {
        assert forall|c: MinusOffsetChoice| res.0 == Some(c) <==> minus_minutes(c) == offset by {
            match c {
                _ => {},
            }
        }
        assert forall|c: PlusOffsetChoice| res.1 == Some(c) <==> plus_minutes(c) == offset by {
            match c {
                _ => {},
            }
        }
    }
    res
}

/// The offset chosen: `default` when no choice is made, the choice's offset when
/// one list is used, and an error when both are.
pub fn offset_from_choice(
    minus_offset: Option<MinusOffsetChoice>,
    plus_offset: Option<PlusOffsetChoice>,
    default: i16,
) -> (res: Result<i16, String>)
    ensures
        match chosen_offset(minus_offset, plus_offset, default) {
            Some(o) => res == Ok::<i16, String>(o),
            None => res matches Err(e) && e@ == "Cannot have both minus and plus offsets"@,
        },
{
    match (minus_offset, plus_offset) {
        (None, None) => Ok(default),
        (Some(_), Some(_)) => {
            let mut e = String::new();
            e.append("Cannot have both minus and plus offsets");
            Err(e)
        },
        (Some(minus_offset), None) => Ok(
            match minus_offset {
                MinusOffsetChoice::UTCMinus12 => -720i16,
                MinusOffsetChoice::UTCMinus11 => -660i16,
                MinusOffsetChoice::UTCMinus10 => -600i16,
                MinusOffsetChoice::UTCMinus9_30 => -570i16,
                MinusOffsetChoice::UTCMinus9 => -540i16,
                MinusOffsetChoice::UTCMinus8 => -480i16,
                MinusOffsetChoice::UTCMinus7 => -420i16,
                MinusOffsetChoice::UTCMinus6 => -360i16,
                MinusOffsetChoice::UTCMinus5 => -300i16,
                MinusOffsetChoice::UTCMinus4_30 => -270i16,
                MinusOffsetChoice::UTCMinus4 => -240i16,
                MinusOffsetChoice::UTCMinus3_30 => -210i16,
                MinusOffsetChoice::UTCMinus3 => -180i16,
                MinusOffsetChoice::UTCMinus2_30 => -150i16,
                MinusOffsetChoice::UTCMinus2 => -120i16,
                MinusOffsetChoice::UTCMinus1 => -60i16,
            },
        ),
        (None, Some(plus_offset)) => Ok(
            match plus_offset {
                PlusOffsetChoice::UTCPlus1 => 60i16,
                PlusOffsetChoice::UTCPlus2 => 120i16,
                PlusOffsetChoice::UTCPlus3 => 180i16,
                PlusOffsetChoice::UTCPlus3_30 => 210i16,
                PlusOffsetChoice::UTCPlus4 => 240i16,
                PlusOffsetChoice::UTCPlus4_30 => 270i16,
                PlusOffsetChoice::UTCPlus5 => 300i16,
                PlusOffsetChoice::UTCPlus5_30 => 330i16,
                PlusOffsetChoice::UTCPlus5_45 => 345i16,
                PlusOffsetChoice::UTCPlus6 => 360i16,
                PlusOffsetChoice::UTCPlus6_30 => 390i16,
                PlusOffsetChoice::UTCPlus7 => 420i16,
                PlusOffsetChoice::UTCPlus8 => 480i16,
                PlusOffsetChoice::UTCPlus8_45 => 525i16,
                PlusOffsetChoice::UTCPlus9 => 540i16,
                PlusOffsetChoice::UTCPlus9_30 => 570i16,
                PlusOffsetChoice::UTCPlus10 => 600i16,
                PlusOffsetChoice::UTCPlus10_30 => 630i16,
                PlusOffsetChoice::UTCPlus11 => 660i16,
                PlusOffsetChoice::UTCPlus12 => 720i16,
                PlusOffsetChoice::UTCPlus12_45 => 765i16,
                PlusOffsetChoice::UTCPlus13 => 780i16,
                PlusOffsetChoice::UTCPlus13_45 => 825i16,
                PlusOffsetChoice::UTCPlus14 => 840i16,
            },
        ),
    }
}

/// Reading the choice for a chosen offset gives back that choice, in either list.
pub proof fn lemma_choice_of_choice_offset(
    m: MinusOffsetChoice,
    p: PlusOffsetChoice,
    for_m: (Option<MinusOffsetChoice>, Option<PlusOffsetChoice>),
    for_p: (Option<MinusOffsetChoice>, Option<PlusOffsetChoice>),
)
    requires
        describes_offset(minus_minutes(m), for_m),
        describes_offset(plus_minutes(p), for_p),
    ensures
        for_m == (Some(m), None::<PlusOffsetChoice>),
        for_p == (None::<MinusOffsetChoice>, Some(p)),
{
    assert(for_m.0 == Some(m));
    assert(for_p.1 == Some(p));
    if for_m.1 is Some {
        let q = for_m.1->0;
        assert(plus_minutes(q) == minus_minutes(m));
    }
    if for_p.0 is Some {
        let q = for_p.0->0;
        assert(minus_minutes(q) == plus_minutes(p));
    }
}

/// The choice read for an offset selects that offset again; an offset that no
/// choice has reads as no choice, which selects the default.
pub proof fn lemma_offset_of_choice_round_trip(
    offset: i16,
    default: i16,
    choice: (Option<MinusOffsetChoice>, Option<PlusOffsetChoice>),
)
    requires
        describes_offset(offset, choice),
    ensures
        chosen_offset(choice.0, choice.1, default) == Some(
            if is_choice_offset(offset) {
                offset
            } else {
                default
            },
        ),
{
    if choice.0 is Some {
        let m = choice.0->0;
        assert(minus_minutes(m) == offset);
        if choice.1 is Some {
            let p = choice.1->0;
            assert(plus_minutes(p) == offset);
        }
    } else if choice.1 is Some {
        let p = choice.1->0;
        assert(plus_minutes(p) == offset);
    } else {
        assert forall|c: MinusOffsetChoice| minus_minutes(c) != offset by {
            if minus_minutes(c) == offset {
                assert(choice.0 == Some(c));
            }
        }
        assert forall|c: PlusOffsetChoice| plus_minutes(c) != offset by {
            if plus_minutes(c) == offset {
                assert(choice.1 == Some(c));
            }
        }
    }
}

/// No offset belongs to both lists, and each offset names at most one choice.
pub proof fn lemma_choice_offsets_distinct(
    m1: MinusOffsetChoice,
    m2: MinusOffsetChoice,
    p1: PlusOffsetChoice,
    p2: PlusOffsetChoice,
)
    ensures
        minus_minutes(m1) < 0 < plus_minutes(p1),
        minus_minutes(m1) == minus_minutes(m2) ==> m1 == m2,
        plus_minutes(p1) == plus_minutes(p2) ==> p1 == p2,
{
}

} // verus!

verus! {

/// The value of an ASCII digit.
pub open spec fn digit_value(c: char) -> int {
    c as int - 48
}

/// An ASCII digit.
pub open spec fn is_ascii_digit(c: char) -> bool {
    48 <= c as int <= 57
}

/// The offset in minutes that a name of the form `UTC+H`, `UTC-HH` or
/// `UTC+H:MM` (followed by anything) states: the sign, then one or two digits
/// of hours, then optionally a colon and two digits of minutes.
pub open spec fn named_offset(name: Seq<char>) -> int {
    let two_digit_hours = is_ascii_digit(name[5]);
    let hours: int = if two_digit_hours { 10 * digit_value(name[4]) + digit_value(name[5]) } else { digit_value(name[4]) };
    let after: int = if two_digit_hours { 6 } else { 5 };
    let minutes: int = if name[after] == ':' { 10 * digit_value(name[after + 1]) + digit_value(name[after + 2]) } else { 0 };
    if name[3] == '-' {
        -(60 * hours + minutes)
    } else {
        60 * hours + minutes
    }
}

/// The name under which the choice is offered, as the member reads it.
pub open spec fn plus_choice_name(c: PlusOffsetChoice) -> Seq<char> {
    match c {
        PlusOffsetChoice::UTCPlus1 => "UTC+1 (BST, CET, IST, WAT, WEST)"@,
        PlusOffsetChoice::UTCPlus2 => "UTC+2 (CAT, CEST, EET, IST, SAST, WAST)"@,
        PlusOffsetChoice::UTCPlus3 => "UTC+3 (AST, EAT, EEST, FET, IDT, IOT, MSK, USZ1)"@,
        PlusOffsetChoice::UTCPlus3_30 => "UTC+3:30 (IRST)"@,
        PlusOffsetChoice::UTCPlus4 => "UTC+4 (AMT, AZT, GET, GST, MUT, RET, SAMT, SCT, VOLT)"@,
        PlusOffsetChoice::UTCPlus4_30 => "UTC+4:30 (AFT, IRDT)"@,
        PlusOffsetChoice::UTCPlus5 => "UTC+5 (HMT, MAWT, MVT, ORAT, PKT, TFT, TJT, TMT, UZT, YEKT)"@,
        PlusOffsetChoice::UTCPlus5_30 => "UTC+5:30 (IST, SLST)"@,
        PlusOffsetChoice::UTCPlus5_45 => "UTC+5:45 (NPT)"@,
        PlusOffsetChoice::UTCPlus6 => "UTC+6 (BDT, BIOT, BST, BTT, KGT, OMST, VOST)"@,
        PlusOffsetChoice::UTCPlus6_30 => "UTC+6:30 (CCT, MMT, MST)"@,
        PlusOffsetChoice::UTCPlus7 => "UTC+7 (CXT, DAVT, HOVT, ICT, KRAT, THA, WIT)"@,
        PlusOffsetChoice::UTCPlus8 => "UTC+8 (ACT, AWST, BDT, CHOT, CIT, CST, CT, HKT, IRKT, MST, MYT, PST, SGT, SST, ULAT, WST)"@,
        PlusOffsetChoice::UTCPlus8_45 => "UTC+8:45 (CWST)"@,
        PlusOffsetChoice::UTCPlus9 => "UTC+9 (AWDT, EIT, JST, KST, TLT, YAKT)"@,
        PlusOffsetChoice::UTCPlus9_30 => "UTC+9:30 (ACST, CST)"@,
        PlusOffsetChoice::UTCPlus10 => "UTC+10 (AEST, ChST, CHUT, DDUT, EST, PGT, VLAT)"@,
        PlusOffsetChoice::UTCPlus10_30 => "UTC+10:30 (ACDT, CST, LHST)"@,
        PlusOffsetChoice::UTCPlus11 => "UTC+11 (AEDT, BST, KOST, LHST, MIST, NCT, PONT, SAKT, SBT, SRET, VUT, NFT)"@,
        PlusOffsetChoice::UTCPlus12 => "UTC+12 (FJT, GILT, MAGT, MHT, NZST, PETT, TVT, WAKT)"@,
        PlusOffsetChoice::UTCPlus12_45 => "UTC+12:45 (CHAST)"@,
        PlusOffsetChoice::UTCPlus13 => "UTC+13 (NZDT, PHOT, TKT, TOT)"@,
        PlusOffsetChoice::UTCPlus13_45 => "UTC+13:45 (CHADT)"@,
        PlusOffsetChoice::UTCPlus14 => "UTC+14 (LINT)"@,
    }
}

/// The name under which the choice is offered, as the member reads it.
pub open spec fn minus_choice_name(c: MinusOffsetChoice) -> Seq<char> {
    match c {
        MinusOffsetChoice::UTCMinus12 => "UTC-12 (BIT)"@,
        MinusOffsetChoice::UTCMinus11 => "UTC-11 (NUT, SST)"@,
        MinusOffsetChoice::UTCMinus10 => "UTC-10 (CKT, HAST, HST, TAHT)"@,
        MinusOffsetChoice::UTCMinus9_30 => "UTC-9:30 (MART, MIT)"@,
        MinusOffsetChoice::UTCMinus9 => "UTC-9 (AKST, GAMT, GIT, HADT)"@,
        MinusOffsetChoice::UTCMinus8 => "UTC-8 (AKDT, CIST, PST)"@,
        MinusOffsetChoice::UTCMinus7 => "UTC-7 (MST, PDT)"@,
        MinusOffsetChoice::UTCMinus6 => "UTC-6 (CST, EAST, GALT, MDT)"@,
        MinusOffsetChoice::UTCMinus5 => "UTC-5 (ACT, CDT, COT, CST, EASST, ECT, EST, PET)"@,
        MinusOffsetChoice::UTCMinus4_30 => "UTC-4:30 (VET)"@,
        MinusOffsetChoice::UTCMinus4 => "UTC-4 (AMT, AST, BOT, CDT, CLT, COST, ECT, EDT, FKT, GYT, PYT)"@,
        MinusOffsetChoice::UTCMinus3_30 => "UTC-3:30 (NST, NT)"@,
        MinusOffsetChoice::UTCMinus3 => "UTC-3 (ADT, AMST, ART, BRT, CLST, FKST, GFT, PMST, PYST, ROTT, SRT, UYT)"@,
        MinusOffsetChoice::UTCMinus2_30 => "UTC-2:30 (NDT)"@,
        MinusOffsetChoice::UTCMinus2 => "UTC-2 (BRST, FNT, GST, PMDT, UYST)"@,
        MinusOffsetChoice::UTCMinus1 => "UTC-1 (AZOST, CVT, EGT)"@,
    }
}

impl PlusOffsetChoice {
    /// The name under which the choice is offered (see [`plus_choice_name`]).
    pub fn name(&self) -> (s: &'static str)
        ensures
            s@ == plus_choice_name(*self),
    {
        match self {
            PlusOffsetChoice::UTCPlus1 => "UTC+1 (BST, CET, IST, WAT, WEST)",
            PlusOffsetChoice::UTCPlus2 => "UTC+2 (CAT, CEST, EET, IST, SAST, WAST)",
            PlusOffsetChoice::UTCPlus3 => "UTC+3 (AST, EAT, EEST, FET, IDT, IOT, MSK, USZ1)",
            PlusOffsetChoice::UTCPlus3_30 => "UTC+3:30 (IRST)",
            PlusOffsetChoice::UTCPlus4 => "UTC+4 (AMT, AZT, GET, GST, MUT, RET, SAMT, SCT, VOLT)",
            PlusOffsetChoice::UTCPlus4_30 => "UTC+4:30 (AFT, IRDT)",
            PlusOffsetChoice::UTCPlus5 => "UTC+5 (HMT, MAWT, MVT, ORAT, PKT, TFT, TJT, TMT, UZT, YEKT)",
            PlusOffsetChoice::UTCPlus5_30 => "UTC+5:30 (IST, SLST)",
            PlusOffsetChoice::UTCPlus5_45 => "UTC+5:45 (NPT)",
            PlusOffsetChoice::UTCPlus6 => "UTC+6 (BDT, BIOT, BST, BTT, KGT, OMST, VOST)",
            PlusOffsetChoice::UTCPlus6_30 => "UTC+6:30 (CCT, MMT, MST)",
            PlusOffsetChoice::UTCPlus7 => "UTC+7 (CXT, DAVT, HOVT, ICT, KRAT, THA, WIT)",
            PlusOffsetChoice::UTCPlus8 => "UTC+8 (ACT, AWST, BDT, CHOT, CIT, CST, CT, HKT, IRKT, MST, MYT, PST, SGT, SST, ULAT, WST)",
            PlusOffsetChoice::UTCPlus8_45 => "UTC+8:45 (CWST)",
            PlusOffsetChoice::UTCPlus9 => "UTC+9 (AWDT, EIT, JST, KST, TLT, YAKT)",
            PlusOffsetChoice::UTCPlus9_30 => "UTC+9:30 (ACST, CST)",
            PlusOffsetChoice::UTCPlus10 => "UTC+10 (AEST, ChST, CHUT, DDUT, EST, PGT, VLAT)",
            PlusOffsetChoice::UTCPlus10_30 => "UTC+10:30 (ACDT, CST, LHST)",
            PlusOffsetChoice::UTCPlus11 => "UTC+11 (AEDT, BST, KOST, LHST, MIST, NCT, PONT, SAKT, SBT, SRET, VUT, NFT)",
            PlusOffsetChoice::UTCPlus12 => "UTC+12 (FJT, GILT, MAGT, MHT, NZST, PETT, TVT, WAKT)",
            PlusOffsetChoice::UTCPlus12_45 => "UTC+12:45 (CHAST)",
            PlusOffsetChoice::UTCPlus13 => "UTC+13 (NZDT, PHOT, TKT, TOT)",
            PlusOffsetChoice::UTCPlus13_45 => "UTC+13:45 (CHADT)",
            PlusOffsetChoice::UTCPlus14 => "UTC+14 (LINT)",
        }
    }
}

impl MinusOffsetChoice {
    /// The name under which the choice is offered (see [`minus_choice_name`]).
    pub fn name(&self) -> (s: &'static str)
        ensures
            s@ == minus_choice_name(*self),
    {
        match self {
            MinusOffsetChoice::UTCMinus12 => "UTC-12 (BIT)",
            MinusOffsetChoice::UTCMinus11 => "UTC-11 (NUT, SST)",
            MinusOffsetChoice::UTCMinus10 => "UTC-10 (CKT, HAST, HST, TAHT)",
            MinusOffsetChoice::UTCMinus9_30 => "UTC-9:30 (MART, MIT)",
            MinusOffsetChoice::UTCMinus9 => "UTC-9 (AKST, GAMT, GIT, HADT)",
            MinusOffsetChoice::UTCMinus8 => "UTC-8 (AKDT, CIST, PST)",
            MinusOffsetChoice::UTCMinus7 => "UTC-7 (MST, PDT)",
            MinusOffsetChoice::UTCMinus6 => "UTC-6 (CST, EAST, GALT, MDT)",
            MinusOffsetChoice::UTCMinus5 => "UTC-5 (ACT, CDT, COT, CST, EASST, ECT, EST, PET)",
            MinusOffsetChoice::UTCMinus4_30 => "UTC-4:30 (VET)",
            MinusOffsetChoice::UTCMinus4 => "UTC-4 (AMT, AST, BOT, CDT, CLT, COST, ECT, EDT, FKT, GYT, PYT)",
            MinusOffsetChoice::UTCMinus3_30 => "UTC-3:30 (NST, NT)",
            MinusOffsetChoice::UTCMinus3 => "UTC-3 (ADT, AMST, ART, BRT, CLST, FKST, GFT, PMST, PYST, ROTT, SRT, UYT)",
            MinusOffsetChoice::UTCMinus2_30 => "UTC-2:30 (NDT)",
            MinusOffsetChoice::UTCMinus2 => "UTC-2 (BRST, FNT, GST, PMDT, UYST)",
            MinusOffsetChoice::UTCMinus1 => "UTC-1 (AZOST, CVT, EGT)",
        }
    }
}

/// Every eastern choice moves a session by exactly the hours and minutes its
/// name states (`UTC+5:45` is 345 minutes).
pub proof fn lemma_plus_offset_is_named(c: PlusOffsetChoice)
    ensures
        plus_minutes(c) == named_offset(plus_choice_name(c)),
{
    match c {
        PlusOffsetChoice::UTCPlus1 => {
            reveal_strlit("UTC+1 (BST, CET, IST, WAT, WEST)");
        },
        PlusOffsetChoice::UTCPlus2 => {
            reveal_strlit("UTC+2 (CAT, CEST, EET, IST, SAST, WAST)");
        },
        PlusOffsetChoice::UTCPlus3 => {
            reveal_strlit("UTC+3 (AST, EAT, EEST, FET, IDT, IOT, MSK, USZ1)");
        },
        PlusOffsetChoice::UTCPlus3_30 => {
            reveal_strlit("UTC+3:30 (IRST)");
        },
        PlusOffsetChoice::UTCPlus4 => {
            reveal_strlit("UTC+4 (AMT, AZT, GET, GST, MUT, RET, SAMT, SCT, VOLT)");
        },
        PlusOffsetChoice::UTCPlus4_30 => {
            reveal_strlit("UTC+4:30 (AFT, IRDT)");
        },
        PlusOffsetChoice::UTCPlus5 => {
            reveal_strlit("UTC+5 (HMT, MAWT, MVT, ORAT, PKT, TFT, TJT, TMT, UZT, YEKT)");
        },
        PlusOffsetChoice::UTCPlus5_30 => {
            reveal_strlit("UTC+5:30 (IST, SLST)");
        },
        PlusOffsetChoice::UTCPlus5_45 => {
            reveal_strlit("UTC+5:45 (NPT)");
        },
        PlusOffsetChoice::UTCPlus6 => {
            reveal_strlit("UTC+6 (BDT, BIOT, BST, BTT, KGT, OMST, VOST)");
        },
        PlusOffsetChoice::UTCPlus6_30 => {
            reveal_strlit("UTC+6:30 (CCT, MMT, MST)");
        },
        PlusOffsetChoice::UTCPlus7 => {
            reveal_strlit("UTC+7 (CXT, DAVT, HOVT, ICT, KRAT, THA, WIT)");
        },
        PlusOffsetChoice::UTCPlus8 => {
            reveal_strlit("UTC+8 (ACT, AWST, BDT, CHOT, CIT, CST, CT, HKT, IRKT, MST, MYT, PST, SGT, SST, ULAT, WST)");
        },
        PlusOffsetChoice::UTCPlus8_45 => {
            reveal_strlit("UTC+8:45 (CWST)");
        },
        PlusOffsetChoice::UTCPlus9 => {
            reveal_strlit("UTC+9 (AWDT, EIT, JST, KST, TLT, YAKT)");
        },
        PlusOffsetChoice::UTCPlus9_30 => {
            reveal_strlit("UTC+9:30 (ACST, CST)");
        },
        PlusOffsetChoice::UTCPlus10 => {
            reveal_strlit("UTC+10 (AEST, ChST, CHUT, DDUT, EST, PGT, VLAT)");
        },
        PlusOffsetChoice::UTCPlus10_30 => {
            reveal_strlit("UTC+10:30 (ACDT, CST, LHST)");
        },
        PlusOffsetChoice::UTCPlus11 => {
            reveal_strlit("UTC+11 (AEDT, BST, KOST, LHST, MIST, NCT, PONT, SAKT, SBT, SRET, VUT, NFT)");
        },
        PlusOffsetChoice::UTCPlus12 => {
            reveal_strlit("UTC+12 (FJT, GILT, MAGT, MHT, NZST, PETT, TVT, WAKT)");
        },
        PlusOffsetChoice::UTCPlus12_45 => {
            reveal_strlit("UTC+12:45 (CHAST)");
        },
        PlusOffsetChoice::UTCPlus13 => {
            reveal_strlit("UTC+13 (NZDT, PHOT, TKT, TOT)");
        },
        PlusOffsetChoice::UTCPlus13_45 => {
            reveal_strlit("UTC+13:45 (CHADT)");
        },
        PlusOffsetChoice::UTCPlus14 => {
            reveal_strlit("UTC+14 (LINT)");
        },
    }
}

/// Every western choice moves a session back by exactly the hours and minutes
/// its name states (`UTC-9:30` is -570 minutes).
pub proof fn lemma_minus_offset_is_named(c: MinusOffsetChoice)
    ensures
        minus_minutes(c) == named_offset(minus_choice_name(c)),
{
    match c {
        MinusOffsetChoice::UTCMinus12 => {
            reveal_strlit("UTC-12 (BIT)");
        },
        MinusOffsetChoice::UTCMinus11 => {
            reveal_strlit("UTC-11 (NUT, SST)");
        },
        MinusOffsetChoice::UTCMinus10 => {
            reveal_strlit("UTC-10 (CKT, HAST, HST, TAHT)");
        },
        MinusOffsetChoice::UTCMinus9_30 => {
            reveal_strlit("UTC-9:30 (MART, MIT)");
        },
        MinusOffsetChoice::UTCMinus9 => {
            reveal_strlit("UTC-9 (AKST, GAMT, GIT, HADT)");
        },
        MinusOffsetChoice::UTCMinus8 => {
            reveal_strlit("UTC-8 (AKDT, CIST, PST)");
        },
        MinusOffsetChoice::UTCMinus7 => {
            reveal_strlit("UTC-7 (MST, PDT)");
        },
        MinusOffsetChoice::UTCMinus6 => {
            reveal_strlit("UTC-6 (CST, EAST, GALT, MDT)");
        },
        MinusOffsetChoice::UTCMinus5 => {
            reveal_strlit("UTC-5 (ACT, CDT, COT, CST, EASST, ECT, EST, PET)");
        },
        MinusOffsetChoice::UTCMinus4_30 => {
            reveal_strlit("UTC-4:30 (VET)");
        },
        MinusOffsetChoice::UTCMinus4 => {
            reveal_strlit("UTC-4 (AMT, AST, BOT, CDT, CLT, COST, ECT, EDT, FKT, GYT, PYT)");
        },
        MinusOffsetChoice::UTCMinus3_30 => {
            reveal_strlit("UTC-3:30 (NST, NT)");
        },
        MinusOffsetChoice::UTCMinus3 => {
            reveal_strlit("UTC-3 (ADT, AMST, ART, BRT, CLST, FKST, GFT, PMST, PYST, ROTT, SRT, UYT)");
        },
        MinusOffsetChoice::UTCMinus2_30 => {
            reveal_strlit("UTC-2:30 (NDT)");
        },
        MinusOffsetChoice::UTCMinus2 => {
            reveal_strlit("UTC-2 (BRST, FNT, GST, PMDT, UYST)");
        },
        MinusOffsetChoice::UTCMinus1 => {
            reveal_strlit("UTC-1 (AZOST, CVT, EGT)");
        },
    }
}

/// Choosing one offset from either list applies the offset its name states,
/// whatever the member's own offset.
pub proof fn lemma_chosen_offset_is_named(
    minus_offset: Option<MinusOffsetChoice>,
    plus_offset: Option<PlusOffsetChoice>,
    default: i16,
)
    ensures
        minus_offset matches Some(m) ==> (plus_offset is None ==> chosen_offset(minus_offset, plus_offset, default)
            == Some(minus_minutes(m)) && minus_minutes(m) == named_offset(minus_choice_name(m))),
        plus_offset matches Some(p) ==> (minus_offset is None ==> chosen_offset(minus_offset, plus_offset, default)
            == Some(plus_minutes(p)) && plus_minutes(p) == named_offset(plus_choice_name(p))),
{
    if let Some(m) = minus_offset {
        lemma_minus_offset_is_named(m);
    }
    if let Some(p) = plus_offset {
        lemma_plus_offset_is_named(p);
    }
}

} // verus!

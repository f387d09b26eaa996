use vstd::prelude::*;
use crate::error::Error;
use crate::strutil::{chars_of, string_from_chars, str_to_string, str_eq_str};

verus! {

/// ASCII upper-casing, character by character.
pub open spec fn upper_char(c: char) -> char {
    if c == 'a' {
        'A'
    } else if c == 'b' {
        'B'
    } else if c == 'c' {
        'C'
    } else if c == 'd' {
        'D'
    } else if c == 'e' {
        'E'
    } else if c == 'f' {
        'F'
    } else if c == 'g' {
        'G'
    } else if c == 'h' {
        'H'
    } else if c == 'i' {
        'I'
    } else if c == 'j' {
        'J'
    } else if c == 'k' {
        'K'
    } else if c == 'l' {
        'L'
    } else if c == 'm' {
        'M'
    } else if c == 'n' {
        'N'
    } else if c == 'o' {
        'O'
    } else if c == 'p' {
        'P'
    } else if c == 'q' {
        'Q'
    } else if c == 'r' {
        'R'
    } else if c == 's' {
        'S'
    } else if c == 't' {
        'T'
    } else if c == 'u' {
        'U'
    } else if c == 'v' {
        'V'
    } else if c == 'w' {
        'W'
    } else if c == 'x' {
        'X'
    } else if c == 'y' {
        'Y'
    } else if c == 'z' {
        'Z'
    } else {
        c
    }
}

pub open spec fn upper_seq(s: Seq<char>) -> Seq<char> {
    s.map_values(|c: char| upper_char(c))
}

pub fn upper_char_exec(c: char) -> (r: char)
    ensures
        r == upper_char(c),
{
    match c {
        'a' => 'A',
        'b' => 'B',
        'c' => 'C',
        'd' => 'D',
        'e' => 'E',
        'f' => 'F',
        'g' => 'G',
        'h' => 'H',
        'i' => 'I',
        'j' => 'J',
        'k' => 'K',
        'l' => 'L',
        'm' => 'M',
        'n' => 'N',
        'o' => 'O',
        'p' => 'P',
        'q' => 'Q',
        'r' => 'R',
        's' => 'S',
        't' => 'T',
        'u' => 'U',
        'v' => 'V',
        'w' => 'W',
        'x' => 'X',
        'y' => 'Y',
        'z' => 'Z',
        _ => c,
    }
}

pub fn upper_chars(v: &Vec<char>) -> (r: Vec<char>)
    ensures
        r@ == upper_seq(v@),
{
    let mut r: Vec<char> = Vec::new();
    let mut i: usize = 0;
    while i < v.len()
        invariant
            i <= v@.len(),
            r@ == upper_seq(v@.take(i as int)),
        decreases v@.len() - i,
    {
        r.push(upper_char_exec(v[i]));
        assert(r@ =~= upper_seq(v@.take(i as int + 1))) by {
            assert(v@.take(i as int + 1) =~= v@.take(i as int).push(v@[i as int]));
            assert(upper_seq(v@.take(i as int).push(v@[i as int]))
                =~= upper_seq(v@.take(i as int)).push(upper_char(v@[i as int])));
        }
        i = i + 1;
    }
    assert(v@.take(v@.len() as int) =~= v@);
    r
}

/// The closed vocabulary of semantic column types.
#[allow(non_camel_case_types)]
#[derive(Debug, Clone, Copy, PartialEq, Eq, Structural)]
pub enum Field {
    SAMPLE_ID,
    SAMPLE_NAME,
    BLANK,
    RGB_R,
    RGB_G,
    RGB_B,
    CMYK_C,
    CMYK_M,
    CMYK_Y,
    CMYK_K,
    FIVECLR_1,
    FIVECLR_2,
    FIVECLR_3,
    FIVECLR_4,
    FIVECLR_5,
    SIXCLR_1,
    SIXCLR_2,
    SIXCLR_3,
    SIXCLR_4,
    SIXCLR_5,
    SIXCLR_6,
    SEVENCLR_1,
    SEVENCLR_2,
    SEVENCLR_3,
    SEVENCLR_4,
    SEVENCLR_5,
    SEVENCLR_6,
    SEVENCLR_7,
    EIGHTCLR_1,
    EIGHTCLR_2,
    EIGHTCLR_3,
    EIGHTCLR_4,
    EIGHTCLR_5,
    EIGHTCLR_6,
    EIGHTCLR_7,
    EIGHTCLR_8,
    D_RED,
    D_GREEN,
    D_BLUE,
    D_VIS,
    LAB_L,
    LAB_A,
    LAB_B,
    LAB_C,
    LAB_H,
    DE_1976,
    DE_1994,
    DE_1994T,
    DE_CMC,
    DE_CMC2,
    DE_2000,
    XYZ_X,
    XYZ_Y,
    XYZ_Z,
    XYY_X,
    XYY_Y,
    XYY_CAPY,
    SPECTRAL_340,
    SPECTRAL_350,
    SPECTRAL_360,
    SPECTRAL_370,
    SPECTRAL_380,
    SPECTRAL_390,
    SPECTRAL_400,
    SPECTRAL_410,
    SPECTRAL_420,
    SPECTRAL_430,
    SPECTRAL_440,
    SPECTRAL_450,
    SPECTRAL_460,
    SPECTRAL_470,
    SPECTRAL_480,
    SPECTRAL_490,
    SPECTRAL_500,
    SPECTRAL_510,
    SPECTRAL_520,
    SPECTRAL_530,
    SPECTRAL_540,
    SPECTRAL_550,
    SPECTRAL_560,
    SPECTRAL_570,
    SPECTRAL_580,
    SPECTRAL_590,
    SPECTRAL_600,
    SPECTRAL_610,
    SPECTRAL_620,
    SPECTRAL_630,
    SPECTRAL_640,
    SPECTRAL_650,
    SPECTRAL_660,
    SPECTRAL_670,
    SPECTRAL_680,
    SPECTRAL_690,
    SPECTRAL_700,
    SPECTRAL_710,
    SPECTRAL_720,
    SPECTRAL_730,
    SPECTRAL_740,
    SPECTRAL_750,
    SPECTRAL_760,
    SPECTRAL_770,
    SPECTRAL_780,
    SPECTRAL_790,
    SPECTRAL_800,
    SPECTRAL_810,
    SPECTRAL_820,
    SPECTRAL_830,
}

/// The canonical textual form of each field: upper case, with the
/// multi-ink channel count written as a digit.
pub open spec fn field_name(f: Field) -> Seq<char> {
    match f {
        Field::SAMPLE_ID => "SAMPLE_ID"@,
        Field::SAMPLE_NAME => "SAMPLE_NAME"@,
        Field::BLANK => "BLANK"@,
        Field::RGB_R => "RGB_R"@,
        Field::RGB_G => "RGB_G"@,
        Field::RGB_B => "RGB_B"@,
        Field::CMYK_C => "CMYK_C"@,
        Field::CMYK_M => "CMYK_M"@,
        Field::CMYK_Y => "CMYK_Y"@,
        Field::CMYK_K => "CMYK_K"@,
        Field::FIVECLR_1 => "5CLR_1"@,
        Field::FIVECLR_2 => "5CLR_2"@,
        Field::FIVECLR_3 => "5CLR_3"@,
        Field::FIVECLR_4 => "5CLR_4"@,
        Field::FIVECLR_5 => "5CLR_5"@,
        Field::SIXCLR_1 => "6CLR_1"@,
        Field::SIXCLR_2 => "6CLR_2"@,
        Field::SIXCLR_3 => "6CLR_3"@,
        Field::SIXCLR_4 => "6CLR_4"@,
        Field::SIXCLR_5 => "6CLR_5"@,
        Field::SIXCLR_6 => "6CLR_6"@,
        Field::SEVENCLR_1 => "7CLR_1"@,
        Field::SEVENCLR_2 => "7CLR_2"@,
        Field::SEVENCLR_3 => "7CLR_3"@,
        Field::SEVENCLR_4 => "7CLR_4"@,
        Field::SEVENCLR_5 => "7CLR_5"@,
        Field::SEVENCLR_6 => "7CLR_6"@,
        Field::SEVENCLR_7 => "7CLR_7"@,
        Field::EIGHTCLR_1 => "8CLR_1"@,
        Field::EIGHTCLR_2 => "8CLR_2"@,
        Field::EIGHTCLR_3 => "8CLR_3"@,
        Field::EIGHTCLR_4 => "8CLR_4"@,
        Field::EIGHTCLR_5 => "8CLR_5"@,
        Field::EIGHTCLR_6 => "8CLR_6"@,
        Field::EIGHTCLR_7 => "8CLR_7"@,
        Field::EIGHTCLR_8 => "8CLR_8"@,
        Field::D_RED => "D_RED"@,
        Field::D_GREEN => "D_GREEN"@,
        Field::D_BLUE => "D_BLUE"@,
        Field::D_VIS => "D_VIS"@,
        Field::LAB_L => "LAB_L"@,
        Field::LAB_A => "LAB_A"@,
        Field::LAB_B => "LAB_B"@,
        Field::LAB_C => "LAB_C"@,
        Field::LAB_H => "LAB_H"@,
        Field::DE_1976 => "DE_1976"@,
        Field::DE_1994 => "DE_1994"@,
        Field::DE_1994T => "DE_1994T"@,
        Field::DE_CMC => "DE_CMC"@,
        Field::DE_CMC2 => "DE_CMC2"@,
        Field::DE_2000 => "DE_2000"@,
        Field::XYZ_X => "XYZ_X"@,
        Field::XYZ_Y => "XYZ_Y"@,
        Field::XYZ_Z => "XYZ_Z"@,
        Field::XYY_X => "XYY_X"@,
        Field::XYY_Y => "XYY_Y"@,
        Field::XYY_CAPY => "XYY_CAPY"@,
        Field::SPECTRAL_340 => "SPECTRAL_340"@,
        Field::SPECTRAL_350 => "SPECTRAL_350"@,
        Field::SPECTRAL_360 => "SPECTRAL_360"@,
        Field::SPECTRAL_370 => "SPECTRAL_370"@,
        Field::SPECTRAL_380 => "SPECTRAL_380"@,
        Field::SPECTRAL_390 => "SPECTRAL_390"@,
        Field::SPECTRAL_400 => "SPECTRAL_400"@,
        Field::SPECTRAL_410 => "SPECTRAL_410"@,
        Field::SPECTRAL_420 => "SPECTRAL_420"@,
        Field::SPECTRAL_430 => "SPECTRAL_430"@,
        Field::SPECTRAL_440 => "SPECTRAL_440"@,
        Field::SPECTRAL_450 => "SPECTRAL_450"@,
        Field::SPECTRAL_460 => "SPECTRAL_460"@,
        Field::SPECTRAL_470 => "SPECTRAL_470"@,
        Field::SPECTRAL_480 => "SPECTRAL_480"@,
        Field::SPECTRAL_490 => "SPECTRAL_490"@,
        Field::SPECTRAL_500 => "SPECTRAL_500"@,
        Field::SPECTRAL_510 => "SPECTRAL_510"@,
        Field::SPECTRAL_520 => "SPECTRAL_520"@,
        Field::SPECTRAL_530 => "SPECTRAL_530"@,
        Field::SPECTRAL_540 => "SPECTRAL_540"@,
        Field::SPECTRAL_550 => "SPECTRAL_550"@,
        Field::SPECTRAL_560 => "SPECTRAL_560"@,
        Field::SPECTRAL_570 => "SPECTRAL_570"@,
        Field::SPECTRAL_580 => "SPECTRAL_580"@,
        Field::SPECTRAL_590 => "SPECTRAL_590"@,
        Field::SPECTRAL_600 => "SPECTRAL_600"@,
        Field::SPECTRAL_610 => "SPECTRAL_610"@,
        Field::SPECTRAL_620 => "SPECTRAL_620"@,
        Field::SPECTRAL_630 => "SPECTRAL_630"@,
        Field::SPECTRAL_640 => "SPECTRAL_640"@,
        Field::SPECTRAL_650 => "SPECTRAL_650"@,
        Field::SPECTRAL_660 => "SPECTRAL_660"@,
        Field::SPECTRAL_670 => "SPECTRAL_670"@,
        Field::SPECTRAL_680 => "SPECTRAL_680"@,
        Field::SPECTRAL_690 => "SPECTRAL_690"@,
        Field::SPECTRAL_700 => "SPECTRAL_700"@,
        Field::SPECTRAL_710 => "SPECTRAL_710"@,
        Field::SPECTRAL_720 => "SPECTRAL_720"@,
        Field::SPECTRAL_730 => "SPECTRAL_730"@,
        Field::SPECTRAL_740 => "SPECTRAL_740"@,
        Field::SPECTRAL_750 => "SPECTRAL_750"@,
        Field::SPECTRAL_760 => "SPECTRAL_760"@,
        Field::SPECTRAL_770 => "SPECTRAL_770"@,
        Field::SPECTRAL_780 => "SPECTRAL_780"@,
        Field::SPECTRAL_790 => "SPECTRAL_790"@,
        Field::SPECTRAL_800 => "SPECTRAL_800"@,
        Field::SPECTRAL_810 => "SPECTRAL_810"@,
        Field::SPECTRAL_820 => "SPECTRAL_820"@,
        Field::SPECTRAL_830 => "SPECTRAL_830"@,
    }
}

/// The field denoted by an upper-cased token, through the accepted
/// aliases; the first match in the table wins.
pub open spec fn field_of_upper(u: Seq<char>) -> Option<Field> {
    if u == "SAMPLE_ID"@ || u == "SAMPLEID"@ || u == "SAMPLE"@ {
        Some(Field::SAMPLE_ID)
    } else if u == "SAMPLE_NAME"@ || u == "SAMPLENAME"@ {
        Some(Field::SAMPLE_NAME)
    } else if u == ""@ || u == "BLANK"@ {
        Some(Field::BLANK)
    } else if u == "RGB_R"@ {
        Some(Field::RGB_R)
    } else if u == "RGB_G"@ {
        Some(Field::RGB_G)
    } else if u == "RGB_B"@ {
        Some(Field::RGB_B)
    } else if u == "CMYK_C"@ {
        Some(Field::CMYK_C)
    } else if u == "CMYK_M"@ {
        Some(Field::CMYK_M)
    } else if u == "CMYK_Y"@ {
        Some(Field::CMYK_Y)
    } else if u == "CMYK_K"@ {
        Some(Field::CMYK_K)
    } else if u == "5CLR_1"@ {
        Some(Field::FIVECLR_1)
    } else if u == "5CLR_2"@ {
        Some(Field::FIVECLR_2)
    } else if u == "5CLR_3"@ {
        Some(Field::FIVECLR_3)
    } else if u == "5CLR_4"@ {
        Some(Field::FIVECLR_4)
    } else if u == "5CLR_5"@ {
        Some(Field::FIVECLR_5)
    } else if u == "6CLR_1"@ {
        Some(Field::SIXCLR_1)
    } else if u == "6CLR_2"@ {
        Some(Field::SIXCLR_2)
    } else if u == "6CLR_3"@ {
        Some(Field::SIXCLR_3)
    } else if u == "6CLR_4"@ {
        Some(Field::SIXCLR_4)
    } else if u == "6CLR_5"@ {
        Some(Field::SIXCLR_5)
    } else if u == "6CLR_6"@ {
        Some(Field::SIXCLR_6)
    } else if u == "7CLR_1"@ {
        Some(Field::SEVENCLR_1)
    } else if u == "7CLR_2"@ {
        Some(Field::SEVENCLR_2)
    } else if u == "7CLR_3"@ {
        Some(Field::SEVENCLR_3)
    } else if u == "7CLR_4"@ {
        Some(Field::SEVENCLR_4)
    } else if u == "7CLR_5"@ {
        Some(Field::SEVENCLR_5)
    } else if u == "7CLR_6"@ {
        Some(Field::SEVENCLR_6)
    } else if u == "7CLR_7"@ {
        Some(Field::SEVENCLR_7)
    } else if u == "8CLR_1"@ {
        Some(Field::EIGHTCLR_1)
    } else if u == "8CLR_2"@ {
        Some(Field::EIGHTCLR_2)
    } else if u == "8CLR_3"@ {
        Some(Field::EIGHTCLR_3)
    } else if u == "8CLR_4"@ {
        Some(Field::EIGHTCLR_4)
    } else if u == "8CLR_5"@ {
        Some(Field::EIGHTCLR_5)
    } else if u == "8CLR_6"@ {
        Some(Field::EIGHTCLR_6)
    } else if u == "8CLR_7"@ {
        Some(Field::EIGHTCLR_7)
    } else if u == "8CLR_8"@ {
        Some(Field::EIGHTCLR_8)
    } else if u == "LAB_L"@ {
        Some(Field::LAB_L)
    } else if u == "LAB_A"@ {
        Some(Field::LAB_A)
    } else if u == "LAB_B"@ {
        Some(Field::LAB_B)
    } else if u == "LAB_C"@ {
        Some(Field::LAB_C)
    } else if u == "LAB_H"@ {
        Some(Field::LAB_H)
    } else if u == "XYZ_X"@ {
        Some(Field::XYZ_X)
    } else if u == "XYZ_Y"@ {
        Some(Field::XYZ_Y)
    } else if u == "XYZ_Z"@ {
        Some(Field::XYZ_Z)
    } else if u == "XYY_X"@ {
        Some(Field::XYY_X)
    } else if u == "XYY_Y"@ {
        Some(Field::XYY_Y)
    } else if u == "XYY_CAPY"@ {
        Some(Field::XYY_CAPY)
    } else if u == "D_RED"@ {
        Some(Field::D_RED)
    } else if u == "D_GREEN"@ {
        Some(Field::D_GREEN)
    } else if u == "D_BLUE"@ {
        Some(Field::D_BLUE)
    } else if u == "D_VISUAL"@ || u == "D_VIS"@ {
        Some(Field::D_VIS)
    } else if u == "LAB_DE"@ || u == "DE1976"@ || u == "DE76"@ || u == "DE"@ || u == "DE_76"@ || u == "DE_1976"@ {
        Some(Field::DE_1976)
    } else if u == "LAB_DE_1994"@ || u == "DE1994"@ || u == "DE94"@ || u == "DE1994G"@ || u == "DE94G"@ || u == "DE94_G"@ || u == "DE_1994"@ || u == "DE_94"@ || u == "DE_1994G"@ || u == "DE_1994_G"@ || u == "DE_94G"@ || u == "DE_94_G"@ {
        Some(Field::DE_1994)
    } else if u == "LAB_DE_1994T"@ || u == "DE1994T"@ || u == "DE94T"@ || u == "DE_1994_T"@ || u == "DE_94T"@ || u == "DE_1994T"@ || u == "DE_94_T"@ || u == "DE94_T"@ {
        Some(Field::DE_1994T)
    } else if u == "LAB_DE_CMC"@ || u == "DECMC"@ || u == "DECMC1"@ || u == "CMC"@ || u == "CMC 1:1"@ || u == "DE_CMC1"@ || u == "DE_CMC_1"@ || u == "DE_CMC"@ {
        Some(Field::DE_CMC)
    } else if u == "LAB_DE_CMC2"@ || u == "DECMC2"@ || u == "CMC2"@ || u == "CMC 2:1"@ || u == "DE_CMC_2"@ || u == "DE_CMC2"@ || u == "DE_CMC 2:1"@ || u == "DECMC_2"@ {
        Some(Field::DE_CMC2)
    } else if u == "LAB_DE_2001"@ || u == "DE2000"@ || u == "DE00"@ || u == "DE_2000"@ || u == "DE_00"@ {
        Some(Field::DE_2000)
    } else if u == "SPECTRAL_340"@ {
        Some(Field::SPECTRAL_340)
    } else if u == "SPECTRAL_350"@ {
        Some(Field::SPECTRAL_350)
    } else if u == "SPECTRAL_360"@ {
        Some(Field::SPECTRAL_360)
    } else if u == "SPECTRAL_370"@ {
        Some(Field::SPECTRAL_370)
    } else if u == "SPECTRAL_380"@ {
        Some(Field::SPECTRAL_380)
    } else if u == "SPECTRAL_390"@ {
        Some(Field::SPECTRAL_390)
    } else if u == "SPECTRAL_400"@ {
        Some(Field::SPECTRAL_400)
    } else if u == "SPECTRAL_410"@ {
        Some(Field::SPECTRAL_410)
    } else if u == "SPECTRAL_420"@ {
        Some(Field::SPECTRAL_420)
    } else if u == "SPECTRAL_430"@ {
        Some(Field::SPECTRAL_430)
    } else if u == "SPECTRAL_440"@ {
        Some(Field::SPECTRAL_440)
    } else if u == "SPECTRAL_450"@ {
        Some(Field::SPECTRAL_450)
    } else if u == "SPECTRAL_460"@ {
        Some(Field::SPECTRAL_460)
    } else if u == "SPECTRAL_470"@ {
        Some(Field::SPECTRAL_470)
    } else if u == "SPECTRAL_480"@ {
        Some(Field::SPECTRAL_480)
    } else if u == "SPECTRAL_490"@ {
        Some(Field::SPECTRAL_490)
    } else if u == "SPECTRAL_500"@ {
        Some(Field::SPECTRAL_500)
    } else if u == "SPECTRAL_510"@ {
        Some(Field::SPECTRAL_510)
    } else if u == "SPECTRAL_520"@ {
        Some(Field::SPECTRAL_520)
    } else if u == "SPECTRAL_530"@ {
        Some(Field::SPECTRAL_530)
    } else if u == "SPECTRAL_540"@ {
        Some(Field::SPECTRAL_540)
    } else if u == "SPECTRAL_550"@ {
        Some(Field::SPECTRAL_550)
    } else if u == "SPECTRAL_560"@ {
        Some(Field::SPECTRAL_560)
    } else if u == "SPECTRAL_570"@ {
        Some(Field::SPECTRAL_570)
    } else if u == "SPECTRAL_580"@ {
        Some(Field::SPECTRAL_580)
    } else if u == "SPECTRAL_590"@ {
        Some(Field::SPECTRAL_590)
    } else if u == "SPECTRAL_600"@ {
        Some(Field::SPECTRAL_600)
    } else if u == "SPECTRAL_610"@ {
        Some(Field::SPECTRAL_610)
    } else if u == "SPECTRAL_620"@ {
        Some(Field::SPECTRAL_620)
    } else if u == "SPECTRAL_630"@ {
        Some(Field::SPECTRAL_630)
    } else if u == "SPECTRAL_640"@ {
        Some(Field::SPECTRAL_640)
    } else if u == "SPECTRAL_650"@ {
        Some(Field::SPECTRAL_650)
    } else if u == "SPECTRAL_660"@ {
        Some(Field::SPECTRAL_660)
    } else if u == "SPECTRAL_670"@ {
        Some(Field::SPECTRAL_670)
    } else if u == "SPECTRAL_680"@ {
        Some(Field::SPECTRAL_680)
    } else if u == "SPECTRAL_690"@ {
        Some(Field::SPECTRAL_690)
    } else if u == "SPECTRAL_700"@ {
        Some(Field::SPECTRAL_700)
    } else if u == "SPECTRAL_710"@ {
        Some(Field::SPECTRAL_710)
    } else if u == "SPECTRAL_720"@ {
        Some(Field::SPECTRAL_720)
    } else if u == "SPECTRAL_730"@ {
        Some(Field::SPECTRAL_730)
    } else if u == "SPECTRAL_740"@ {
        Some(Field::SPECTRAL_740)
    } else if u == "SPECTRAL_750"@ {
        Some(Field::SPECTRAL_750)
    } else if u == "SPECTRAL_760"@ {
        Some(Field::SPECTRAL_760)
    } else if u == "SPECTRAL_770"@ {
        Some(Field::SPECTRAL_770)
    } else if u == "SPECTRAL_780"@ {
        Some(Field::SPECTRAL_780)
    } else if u == "SPECTRAL_790"@ {
        Some(Field::SPECTRAL_790)
    } else if u == "SPECTRAL_800"@ {
        Some(Field::SPECTRAL_800)
    } else if u == "SPECTRAL_810"@ {
        Some(Field::SPECTRAL_810)
    } else if u == "SPECTRAL_820"@ {
        Some(Field::SPECTRAL_820)
    } else if u == "SPECTRAL_830"@ {
        Some(Field::SPECTRAL_830)
    } else {
        None
    }
}

/// What a field means when parsed from a cell of text: unknown tokens
/// are refused.
pub open spec fn field_of(s: Seq<char>) -> Option<Field> {
    field_of_upper(upper_seq(s))
}

impl Field {
    /// Parses one token of a format declaration, case-insensitively,
    /// accepting the historical aliases of each field.
    pub fn from_str(s: &str) -> (r: Result<Field, Error>)
        ensures
            match field_of(s@) {
                Some(f) => r == Ok::<Field, Error>(f),
                None => r == Err::<Field, Error>(Error::UnknownFormatType),
            },
    {
        let v = chars_of(s);
        let uv = upper_chars(&v);
        let u = string_from_chars(&uv);
        let us = u.as_str();
        if str_eq_str(us, "SAMPLE_ID") || str_eq_str(us, "SAMPLEID") || str_eq_str(us, "SAMPLE") {
            Ok(Field::SAMPLE_ID)
        } else if str_eq_str(us, "SAMPLE_NAME") || str_eq_str(us, "SAMPLENAME") {
            Ok(Field::SAMPLE_NAME)
        } else if str_eq_str(us, "") || str_eq_str(us, "BLANK") {
            Ok(Field::BLANK)
        } else if str_eq_str(us, "RGB_R") {
            Ok(Field::RGB_R)
        } else if str_eq_str(us, "RGB_G") {
            Ok(Field::RGB_G)
        } else if str_eq_str(us, "RGB_B") {
            Ok(Field::RGB_B)
        } else if str_eq_str(us, "CMYK_C") {
            Ok(Field::CMYK_C)
        } else if str_eq_str(us, "CMYK_M") {
            Ok(Field::CMYK_M)
        } else if str_eq_str(us, "CMYK_Y") {
            Ok(Field::CMYK_Y)
        } else if str_eq_str(us, "CMYK_K") {
            Ok(Field::CMYK_K)
        } else if str_eq_str(us, "5CLR_1") {
            Ok(Field::FIVECLR_1)
        } else if str_eq_str(us, "5CLR_2") {
            Ok(Field::FIVECLR_2)
        } else if str_eq_str(us, "5CLR_3") {
            Ok(Field::FIVECLR_3)
        } else if str_eq_str(us, "5CLR_4") {
            Ok(Field::FIVECLR_4)
        } else if str_eq_str(us, "5CLR_5") {
            Ok(Field::FIVECLR_5)
        } else if str_eq_str(us, "6CLR_1") {
            Ok(Field::SIXCLR_1)
        } else if str_eq_str(us, "6CLR_2") {
            Ok(Field::SIXCLR_2)
        } else if str_eq_str(us, "6CLR_3") {
            Ok(Field::SIXCLR_3)
        } else if str_eq_str(us, "6CLR_4") {
            Ok(Field::SIXCLR_4)
        } else if str_eq_str(us, "6CLR_5") {
            Ok(Field::SIXCLR_5)
        } else if str_eq_str(us, "6CLR_6") {
            Ok(Field::SIXCLR_6)
        } else if str_eq_str(us, "7CLR_1") {
            Ok(Field::SEVENCLR_1)
        } else if str_eq_str(us, "7CLR_2") {
            Ok(Field::SEVENCLR_2)
        } else if str_eq_str(us, "7CLR_3") {
            Ok(Field::SEVENCLR_3)
        } else if str_eq_str(us, "7CLR_4") {
            Ok(Field::SEVENCLR_4)
        } else if str_eq_str(us, "7CLR_5") {
            Ok(Field::SEVENCLR_5)
        } else if str_eq_str(us, "7CLR_6") {
            Ok(Field::SEVENCLR_6)
        } else if str_eq_str(us, "7CLR_7") {
            Ok(Field::SEVENCLR_7)
        } else if str_eq_str(us, "8CLR_1") {
            Ok(Field::EIGHTCLR_1)
        } else if str_eq_str(us, "8CLR_2") {
            Ok(Field::EIGHTCLR_2)
        } else if str_eq_str(us, "8CLR_3") {
            Ok(Field::EIGHTCLR_3)
        } else if str_eq_str(us, "8CLR_4") {
            Ok(Field::EIGHTCLR_4)
        } else if str_eq_str(us, "8CLR_5") {
            Ok(Field::EIGHTCLR_5)
        } else if str_eq_str(us, "8CLR_6") {
            Ok(Field::EIGHTCLR_6)
        } else if str_eq_str(us, "8CLR_7") {
            Ok(Field::EIGHTCLR_7)
        } else if str_eq_str(us, "8CLR_8") {
            Ok(Field::EIGHTCLR_8)
        } else if str_eq_str(us, "LAB_L") {
            Ok(Field::LAB_L)
        } else if str_eq_str(us, "LAB_A") {
            Ok(Field::LAB_A)
        } else if str_eq_str(us, "LAB_B") {
            Ok(Field::LAB_B)
        } else if str_eq_str(us, "LAB_C") {
            Ok(Field::LAB_C)
        } else if str_eq_str(us, "LAB_H") {
            Ok(Field::LAB_H)
        } else if str_eq_str(us, "XYZ_X") {
            Ok(Field::XYZ_X)
        } else if str_eq_str(us, "XYZ_Y") {
            Ok(Field::XYZ_Y)
        } else if str_eq_str(us, "XYZ_Z") {
            Ok(Field::XYZ_Z)
        } else if str_eq_str(us, "XYY_X") {
            Ok(Field::XYY_X)
        } else if str_eq_str(us, "XYY_Y") {
            Ok(Field::XYY_Y)
        } else if str_eq_str(us, "XYY_CAPY") {
            Ok(Field::XYY_CAPY)
        } else if str_eq_str(us, "D_RED") {
            Ok(Field::D_RED)
        } else if str_eq_str(us, "D_GREEN") {
            Ok(Field::D_GREEN)
        } else if str_eq_str(us, "D_BLUE") {
            Ok(Field::D_BLUE)
        } else if str_eq_str(us, "D_VISUAL") || str_eq_str(us, "D_VIS") {
            Ok(Field::D_VIS)
        } else if str_eq_str(us, "LAB_DE") || str_eq_str(us, "DE1976") || str_eq_str(us, "DE76") || str_eq_str(us, "DE") || str_eq_str(us, "DE_76") || str_eq_str(us, "DE_1976") {
            Ok(Field::DE_1976)
        } else if str_eq_str(us, "LAB_DE_1994") || str_eq_str(us, "DE1994") || str_eq_str(us, "DE94") || str_eq_str(us, "DE1994G") || str_eq_str(us, "DE94G") || str_eq_str(us, "DE94_G") || str_eq_str(us, "DE_1994") || str_eq_str(us, "DE_94") || str_eq_str(us, "DE_1994G") || str_eq_str(us, "DE_1994_G") || str_eq_str(us, "DE_94G") || str_eq_str(us, "DE_94_G") {
            Ok(Field::DE_1994)
        } else if str_eq_str(us, "LAB_DE_1994T") || str_eq_str(us, "DE1994T") || str_eq_str(us, "DE94T") || str_eq_str(us, "DE_1994_T") || str_eq_str(us, "DE_94T") || str_eq_str(us, "DE_1994T") || str_eq_str(us, "DE_94_T") || str_eq_str(us, "DE94_T") {
            Ok(Field::DE_1994T)
        } else if str_eq_str(us, "LAB_DE_CMC") || str_eq_str(us, "DECMC") || str_eq_str(us, "DECMC1") || str_eq_str(us, "CMC") || str_eq_str(us, "CMC 1:1") || str_eq_str(us, "DE_CMC1") || str_eq_str(us, "DE_CMC_1") || str_eq_str(us, "DE_CMC") {
            Ok(Field::DE_CMC)
        } else if str_eq_str(us, "LAB_DE_CMC2") || str_eq_str(us, "DECMC2") || str_eq_str(us, "CMC2") || str_eq_str(us, "CMC 2:1") || str_eq_str(us, "DE_CMC_2") || str_eq_str(us, "DE_CMC2") || str_eq_str(us, "DE_CMC 2:1") || str_eq_str(us, "DECMC_2") {
            Ok(Field::DE_CMC2)
        } else if str_eq_str(us, "LAB_DE_2001") || str_eq_str(us, "DE2000") || str_eq_str(us, "DE00") || str_eq_str(us, "DE_2000") || str_eq_str(us, "DE_00") {
            Ok(Field::DE_2000)
        } else if str_eq_str(us, "SPECTRAL_340") {
            Ok(Field::SPECTRAL_340)
        } else if str_eq_str(us, "SPECTRAL_350") {
            Ok(Field::SPECTRAL_350)
        } else if str_eq_str(us, "SPECTRAL_360") {
            Ok(Field::SPECTRAL_360)
        } else if str_eq_str(us, "SPECTRAL_370") {
            Ok(Field::SPECTRAL_370)
        } else if str_eq_str(us, "SPECTRAL_380") {
            Ok(Field::SPECTRAL_380)
        } else if str_eq_str(us, "SPECTRAL_390") {
            Ok(Field::SPECTRAL_390)
        } else if str_eq_str(us, "SPECTRAL_400") {
            Ok(Field::SPECTRAL_400)
        } else if str_eq_str(us, "SPECTRAL_410") {
            Ok(Field::SPECTRAL_410)
        } else if str_eq_str(us, "SPECTRAL_420") {
            Ok(Field::SPECTRAL_420)
        } else if str_eq_str(us, "SPECTRAL_430") {
            Ok(Field::SPECTRAL_430)
        } else if str_eq_str(us, "SPECTRAL_440") {
            Ok(Field::SPECTRAL_440)
        } else if str_eq_str(us, "SPECTRAL_450") {
            Ok(Field::SPECTRAL_450)
        } else if str_eq_str(us, "SPECTRAL_460") {
            Ok(Field::SPECTRAL_460)
        } else if str_eq_str(us, "SPECTRAL_470") {
            Ok(Field::SPECTRAL_470)
        } else if str_eq_str(us, "SPECTRAL_480") {
            Ok(Field::SPECTRAL_480)
        } else if str_eq_str(us, "SPECTRAL_490") {
            Ok(Field::SPECTRAL_490)
        } else if str_eq_str(us, "SPECTRAL_500") {
            Ok(Field::SPECTRAL_500)
        } else if str_eq_str(us, "SPECTRAL_510") {
            Ok(Field::SPECTRAL_510)
        } else if str_eq_str(us, "SPECTRAL_520") {
            Ok(Field::SPECTRAL_520)
        } else if str_eq_str(us, "SPECTRAL_530") {
            Ok(Field::SPECTRAL_530)
        } else if str_eq_str(us, "SPECTRAL_540") {
            Ok(Field::SPECTRAL_540)
        } else if str_eq_str(us, "SPECTRAL_550") {
            Ok(Field::SPECTRAL_550)
        } else if str_eq_str(us, "SPECTRAL_560") {
            Ok(Field::SPECTRAL_560)
        } else if str_eq_str(us, "SPECTRAL_570") {
            Ok(Field::SPECTRAL_570)
        } else if str_eq_str(us, "SPECTRAL_580") {
            Ok(Field::SPECTRAL_580)
        } else if str_eq_str(us, "SPECTRAL_590") {
            Ok(Field::SPECTRAL_590)
        } else if str_eq_str(us, "SPECTRAL_600") {
            Ok(Field::SPECTRAL_600)
        } else if str_eq_str(us, "SPECTRAL_610") {
            Ok(Field::SPECTRAL_610)
        } else if str_eq_str(us, "SPECTRAL_620") {
            Ok(Field::SPECTRAL_620)
        } else if str_eq_str(us, "SPECTRAL_630") {
            Ok(Field::SPECTRAL_630)
        } else if str_eq_str(us, "SPECTRAL_640") {
            Ok(Field::SPECTRAL_640)
        } else if str_eq_str(us, "SPECTRAL_650") {
            Ok(Field::SPECTRAL_650)
        } else if str_eq_str(us, "SPECTRAL_660") {
            Ok(Field::SPECTRAL_660)
        } else if str_eq_str(us, "SPECTRAL_670") {
            Ok(Field::SPECTRAL_670)
        } else if str_eq_str(us, "SPECTRAL_680") {
            Ok(Field::SPECTRAL_680)
        } else if str_eq_str(us, "SPECTRAL_690") {
            Ok(Field::SPECTRAL_690)
        } else if str_eq_str(us, "SPECTRAL_700") {
            Ok(Field::SPECTRAL_700)
        } else if str_eq_str(us, "SPECTRAL_710") {
            Ok(Field::SPECTRAL_710)
        } else if str_eq_str(us, "SPECTRAL_720") {
            Ok(Field::SPECTRAL_720)
        } else if str_eq_str(us, "SPECTRAL_730") {
            Ok(Field::SPECTRAL_730)
        } else if str_eq_str(us, "SPECTRAL_740") {
            Ok(Field::SPECTRAL_740)
        } else if str_eq_str(us, "SPECTRAL_750") {
            Ok(Field::SPECTRAL_750)
        } else if str_eq_str(us, "SPECTRAL_760") {
            Ok(Field::SPECTRAL_760)
        } else if str_eq_str(us, "SPECTRAL_770") {
            Ok(Field::SPECTRAL_770)
        } else if str_eq_str(us, "SPECTRAL_780") {
            Ok(Field::SPECTRAL_780)
        } else if str_eq_str(us, "SPECTRAL_790") {
            Ok(Field::SPECTRAL_790)
        } else if str_eq_str(us, "SPECTRAL_800") {
            Ok(Field::SPECTRAL_800)
        } else if str_eq_str(us, "SPECTRAL_810") {
            Ok(Field::SPECTRAL_810)
        } else if str_eq_str(us, "SPECTRAL_820") {
            Ok(Field::SPECTRAL_820)
        } else if str_eq_str(us, "SPECTRAL_830") {
            Ok(Field::SPECTRAL_830)
        } else {
            Err(Error::UnknownFormatType)
        }
    }

    /// The canonical textual form of the field.
    pub fn display(&self) -> (r: String)
        ensures
            r@ == field_name(*self),
    {
        match self {
            Field::SAMPLE_ID => str_to_string("SAMPLE_ID"),
            Field::SAMPLE_NAME => str_to_string("SAMPLE_NAME"),
            Field::BLANK => str_to_string("BLANK"),
            Field::RGB_R => str_to_string("RGB_R"),
            Field::RGB_G => str_to_string("RGB_G"),
            Field::RGB_B => str_to_string("RGB_B"),
            Field::CMYK_C => str_to_string("CMYK_C"),
            Field::CMYK_M => str_to_string("CMYK_M"),
            Field::CMYK_Y => str_to_string("CMYK_Y"),
            Field::CMYK_K => str_to_string("CMYK_K"),
            Field::FIVECLR_1 => str_to_string("5CLR_1"),
            Field::FIVECLR_2 => str_to_string("5CLR_2"),
            Field::FIVECLR_3 => str_to_string("5CLR_3"),
            Field::FIVECLR_4 => str_to_string("5CLR_4"),
            Field::FIVECLR_5 => str_to_string("5CLR_5"),
            Field::SIXCLR_1 => str_to_string("6CLR_1"),
            Field::SIXCLR_2 => str_to_string("6CLR_2"),
            Field::SIXCLR_3 => str_to_string("6CLR_3"),
            Field::SIXCLR_4 => str_to_string("6CLR_4"),
            Field::SIXCLR_5 => str_to_string("6CLR_5"),
            Field::SIXCLR_6 => str_to_string("6CLR_6"),
            Field::SEVENCLR_1 => str_to_string("7CLR_1"),
            Field::SEVENCLR_2 => str_to_string("7CLR_2"),
            Field::SEVENCLR_3 => str_to_string("7CLR_3"),
            Field::SEVENCLR_4 => str_to_string("7CLR_4"),
            Field::SEVENCLR_5 => str_to_string("7CLR_5"),
            Field::SEVENCLR_6 => str_to_string("7CLR_6"),
            Field::SEVENCLR_7 => str_to_string("7CLR_7"),
            Field::EIGHTCLR_1 => str_to_string("8CLR_1"),
            Field::EIGHTCLR_2 => str_to_string("8CLR_2"),
            Field::EIGHTCLR_3 => str_to_string("8CLR_3"),
            Field::EIGHTCLR_4 => str_to_string("8CLR_4"),
            Field::EIGHTCLR_5 => str_to_string("8CLR_5"),
            Field::EIGHTCLR_6 => str_to_string("8CLR_6"),
            Field::EIGHTCLR_7 => str_to_string("8CLR_7"),
            Field::EIGHTCLR_8 => str_to_string("8CLR_8"),
            Field::D_RED => str_to_string("D_RED"),
            Field::D_GREEN => str_to_string("D_GREEN"),
            Field::D_BLUE => str_to_string("D_BLUE"),
            Field::D_VIS => str_to_string("D_VIS"),
            Field::LAB_L => str_to_string("LAB_L"),
            Field::LAB_A => str_to_string("LAB_A"),
            Field::LAB_B => str_to_string("LAB_B"),
            Field::LAB_C => str_to_string("LAB_C"),
            Field::LAB_H => str_to_string("LAB_H"),
            Field::DE_1976 => str_to_string("DE_1976"),
            Field::DE_1994 => str_to_string("DE_1994"),
            Field::DE_1994T => str_to_string("DE_1994T"),
            Field::DE_CMC => str_to_string("DE_CMC"),
            Field::DE_CMC2 => str_to_string("DE_CMC2"),
            Field::DE_2000 => str_to_string("DE_2000"),
            Field::XYZ_X => str_to_string("XYZ_X"),
            Field::XYZ_Y => str_to_string("XYZ_Y"),
            Field::XYZ_Z => str_to_string("XYZ_Z"),
            Field::XYY_X => str_to_string("XYY_X"),
            Field::XYY_Y => str_to_string("XYY_Y"),
            Field::XYY_CAPY => str_to_string("XYY_CAPY"),
            Field::SPECTRAL_340 => str_to_string("SPECTRAL_340"),
            Field::SPECTRAL_350 => str_to_string("SPECTRAL_350"),
            Field::SPECTRAL_360 => str_to_string("SPECTRAL_360"),
            Field::SPECTRAL_370 => str_to_string("SPECTRAL_370"),
            Field::SPECTRAL_380 => str_to_string("SPECTRAL_380"),
            Field::SPECTRAL_390 => str_to_string("SPECTRAL_390"),
            Field::SPECTRAL_400 => str_to_string("SPECTRAL_400"),
            Field::SPECTRAL_410 => str_to_string("SPECTRAL_410"),
            Field::SPECTRAL_420 => str_to_string("SPECTRAL_420"),
            Field::SPECTRAL_430 => str_to_string("SPECTRAL_430"),
            Field::SPECTRAL_440 => str_to_string("SPECTRAL_440"),
            Field::SPECTRAL_450 => str_to_string("SPECTRAL_450"),
            Field::SPECTRAL_460 => str_to_string("SPECTRAL_460"),
            Field::SPECTRAL_470 => str_to_string("SPECTRAL_470"),
            Field::SPECTRAL_480 => str_to_string("SPECTRAL_480"),
            Field::SPECTRAL_490 => str_to_string("SPECTRAL_490"),
            Field::SPECTRAL_500 => str_to_string("SPECTRAL_500"),
            Field::SPECTRAL_510 => str_to_string("SPECTRAL_510"),
            Field::SPECTRAL_520 => str_to_string("SPECTRAL_520"),
            Field::SPECTRAL_530 => str_to_string("SPECTRAL_530"),
            Field::SPECTRAL_540 => str_to_string("SPECTRAL_540"),
            Field::SPECTRAL_550 => str_to_string("SPECTRAL_550"),
            Field::SPECTRAL_560 => str_to_string("SPECTRAL_560"),
            Field::SPECTRAL_570 => str_to_string("SPECTRAL_570"),
            Field::SPECTRAL_580 => str_to_string("SPECTRAL_580"),
            Field::SPECTRAL_590 => str_to_string("SPECTRAL_590"),
            Field::SPECTRAL_600 => str_to_string("SPECTRAL_600"),
            Field::SPECTRAL_610 => str_to_string("SPECTRAL_610"),
            Field::SPECTRAL_620 => str_to_string("SPECTRAL_620"),
            Field::SPECTRAL_630 => str_to_string("SPECTRAL_630"),
            Field::SPECTRAL_640 => str_to_string("SPECTRAL_640"),
            Field::SPECTRAL_650 => str_to_string("SPECTRAL_650"),
            Field::SPECTRAL_660 => str_to_string("SPECTRAL_660"),
            Field::SPECTRAL_670 => str_to_string("SPECTRAL_670"),
            Field::SPECTRAL_680 => str_to_string("SPECTRAL_680"),
            Field::SPECTRAL_690 => str_to_string("SPECTRAL_690"),
            Field::SPECTRAL_700 => str_to_string("SPECTRAL_700"),
            Field::SPECTRAL_710 => str_to_string("SPECTRAL_710"),
            Field::SPECTRAL_720 => str_to_string("SPECTRAL_720"),
            Field::SPECTRAL_730 => str_to_string("SPECTRAL_730"),
            Field::SPECTRAL_740 => str_to_string("SPECTRAL_740"),
            Field::SPECTRAL_750 => str_to_string("SPECTRAL_750"),
            Field::SPECTRAL_760 => str_to_string("SPECTRAL_760"),
            Field::SPECTRAL_770 => str_to_string("SPECTRAL_770"),
            Field::SPECTRAL_780 => str_to_string("SPECTRAL_780"),
            Field::SPECTRAL_790 => str_to_string("SPECTRAL_790"),
            Field::SPECTRAL_800 => str_to_string("SPECTRAL_800"),
            Field::SPECTRAL_810 => str_to_string("SPECTRAL_810"),
            Field::SPECTRAL_820 => str_to_string("SPECTRAL_820"),
            Field::SPECTRAL_830 => str_to_string("SPECTRAL_830"),
        }
    }

    /// Whether the field carries a numeric quantity; only the sample
    /// identifier, the sample name and the blank placeholder do not.
    pub fn is_float(&self) -> (r: bool)
        ensures
            r == field_is_float(*self),
    {
        match self {
            Field::SAMPLE_NAME => false,
            Field::SAMPLE_ID => false,
            Field::BLANK => false,
            _ => true,
        }
    }
}

pub open spec fn field_is_float(f: Field) -> bool {
    !(f == Field::SAMPLE_NAME || f == Field::SAMPLE_ID || f == Field::BLANK)
}

#[verifier::spinoff_prover]
#[verifier::rlimit(100)]
proof fn lemma_round_trip_chunk_0()
    ensures
        field_of(field_name(Field::SAMPLE_ID)) == Some(Field::SAMPLE_ID),
        field_of(field_name(Field::SAMPLE_NAME)) == Some(Field::SAMPLE_NAME),
        field_of(field_name(Field::BLANK)) == Some(Field::BLANK),
        field_of(field_name(Field::RGB_R)) == Some(Field::RGB_R),
        field_of(field_name(Field::RGB_G)) == Some(Field::RGB_G),
        field_of(field_name(Field::RGB_B)) == Some(Field::RGB_B),
        field_of(field_name(Field::CMYK_C)) == Some(Field::CMYK_C),
        field_of(field_name(Field::CMYK_M)) == Some(Field::CMYK_M),
        field_of(field_name(Field::CMYK_Y)) == Some(Field::CMYK_Y),
        field_of(field_name(Field::CMYK_K)) == Some(Field::CMYK_K),
{
    reveal_strlit("SAMPLE_ID");
    reveal_strlit("SAMPLEID");
    reveal_strlit("SAMPLE");
    reveal_strlit("SAMPLE_NAME");
    reveal_strlit("SAMPLENAME");
    reveal_strlit("");
    reveal_strlit("BLANK");
    reveal_strlit("RGB_R");
    reveal_strlit("RGB_G");
    reveal_strlit("RGB_B");
    reveal_strlit("CMYK_C");
    reveal_strlit("CMYK_M");
    reveal_strlit("CMYK_Y");
    reveal_strlit("CMYK_K");
    assert(upper_seq("SAMPLE_ID"@) =~= "SAMPLE_ID"@);
    assert(upper_seq("SAMPLE_NAME"@) =~= "SAMPLE_NAME"@);
    assert(upper_seq("BLANK"@) =~= "BLANK"@);
    assert(upper_seq("RGB_R"@) =~= "RGB_R"@);
    assert(upper_seq("RGB_G"@) =~= "RGB_G"@);
    assert(upper_seq("RGB_B"@) =~= "RGB_B"@);
    assert(upper_seq("CMYK_C"@) =~= "CMYK_C"@);
    assert(upper_seq("CMYK_M"@) =~= "CMYK_M"@);
    assert(upper_seq("CMYK_Y"@) =~= "CMYK_Y"@);
    assert(upper_seq("CMYK_K"@) =~= "CMYK_K"@);
    assert("RGB_R"@ != "BLANK"@) by {
        assert("RGB_R"@[0int] != "BLANK"@[0int]);
    }
    assert("RGB_G"@ != "BLANK"@) by {
        assert("RGB_G"@[0int] != "BLANK"@[0int]);
    }
    assert("RGB_G"@ != "RGB_R"@) by {
        assert("RGB_G"@[4int] != "RGB_R"@[4int]);
    }
    assert("RGB_B"@ != "BLANK"@) by {
        assert("RGB_B"@[0int] != "BLANK"@[0int]);
    }
    assert("RGB_B"@ != "RGB_R"@) by {
        assert("RGB_B"@[4int] != "RGB_R"@[4int]);
    }
    assert("RGB_B"@ != "RGB_G"@) by {
        assert("RGB_B"@[4int] != "RGB_G"@[4int]);
    }
    assert("CMYK_C"@ != "SAMPLE"@) by {
        assert("CMYK_C"@[0int] != "SAMPLE"@[0int]);
    }
    assert("CMYK_M"@ != "SAMPLE"@) by {
        assert("CMYK_M"@[0int] != "SAMPLE"@[0int]);
    }
    assert("CMYK_M"@ != "CMYK_C"@) by {
        assert("CMYK_M"@[5int] != "CMYK_C"@[5int]);
    }
    assert("CMYK_Y"@ != "SAMPLE"@) by {
        assert("CMYK_Y"@[0int] != "SAMPLE"@[0int]);
    }
    assert("CMYK_Y"@ != "CMYK_C"@) by {
        assert("CMYK_Y"@[5int] != "CMYK_C"@[5int]);
    }
    assert("CMYK_Y"@ != "CMYK_M"@) by {
        assert("CMYK_Y"@[5int] != "CMYK_M"@[5int]);
    }
    assert("CMYK_K"@ != "SAMPLE"@) by {
        assert("CMYK_K"@[0int] != "SAMPLE"@[0int]);
    }
    assert("CMYK_K"@ != "CMYK_C"@) by {
        assert("CMYK_K"@[5int] != "CMYK_C"@[5int]);
    }
    assert("CMYK_K"@ != "CMYK_M"@) by {
        assert("CMYK_K"@[5int] != "CMYK_M"@[5int]);
    }
    assert("CMYK_K"@ != "CMYK_Y"@) by {
        assert("CMYK_K"@[5int] != "CMYK_Y"@[5int]);
    }
}

#[verifier::spinoff_prover]
#[verifier::rlimit(100)]
proof fn lemma_round_trip_chunk_1()
    ensures
        field_of(field_name(Field::FIVECLR_1)) == Some(Field::FIVECLR_1),
        field_of(field_name(Field::FIVECLR_2)) == Some(Field::FIVECLR_2),
        field_of(field_name(Field::FIVECLR_3)) == Some(Field::FIVECLR_3),
        field_of(field_name(Field::FIVECLR_4)) == Some(Field::FIVECLR_4),
        field_of(field_name(Field::FIVECLR_5)) == Some(Field::FIVECLR_5),
        field_of(field_name(Field::SIXCLR_1)) == Some(Field::SIXCLR_1),
        field_of(field_name(Field::SIXCLR_2)) == Some(Field::SIXCLR_2),
        field_of(field_name(Field::SIXCLR_3)) == Some(Field::SIXCLR_3),
        field_of(field_name(Field::SIXCLR_4)) == Some(Field::SIXCLR_4),
        field_of(field_name(Field::SIXCLR_5)) == Some(Field::SIXCLR_5),
{
    reveal_strlit("SAMPLE_ID");
    reveal_strlit("SAMPLEID");
    reveal_strlit("SAMPLE");
    reveal_strlit("SAMPLE_NAME");
    reveal_strlit("SAMPLENAME");
    reveal_strlit("");
    reveal_strlit("BLANK");
    reveal_strlit("RGB_R");
    reveal_strlit("RGB_G");
    reveal_strlit("RGB_B");
    reveal_strlit("CMYK_C");
    reveal_strlit("CMYK_M");
    reveal_strlit("CMYK_Y");
    reveal_strlit("CMYK_K");
    reveal_strlit("5CLR_1");
    reveal_strlit("5CLR_2");
    reveal_strlit("5CLR_3");
    reveal_strlit("5CLR_4");
    reveal_strlit("5CLR_5");
    reveal_strlit("6CLR_1");
    reveal_strlit("6CLR_2");
    reveal_strlit("6CLR_3");
    reveal_strlit("6CLR_4");
    reveal_strlit("6CLR_5");
    assert(upper_seq("5CLR_1"@) =~= "5CLR_1"@);
    assert(upper_seq("5CLR_2"@) =~= "5CLR_2"@);
    assert(upper_seq("5CLR_3"@) =~= "5CLR_3"@);
    assert(upper_seq("5CLR_4"@) =~= "5CLR_4"@);
    assert(upper_seq("5CLR_5"@) =~= "5CLR_5"@);
    assert(upper_seq("6CLR_1"@) =~= "6CLR_1"@);
    assert(upper_seq("6CLR_2"@) =~= "6CLR_2"@);
    assert(upper_seq("6CLR_3"@) =~= "6CLR_3"@);
    assert(upper_seq("6CLR_4"@) =~= "6CLR_4"@);
    assert(upper_seq("6CLR_5"@) =~= "6CLR_5"@);
    assert("5CLR_1"@ != "SAMPLE"@) by {
        assert("5CLR_1"@[0int] != "SAMPLE"@[0int]);
    }
    assert("5CLR_1"@ != "CMYK_C"@) by {
        assert("5CLR_1"@[0int] != "CMYK_C"@[0int]);
    }
    assert("5CLR_1"@ != "CMYK_M"@) by {
        assert("5CLR_1"@[0int] != "CMYK_M"@[0int]);
    }
    assert("5CLR_1"@ != "CMYK_Y"@) by {
        assert("5CLR_1"@[0int] != "CMYK_Y"@[0int]);
    }
    assert("5CLR_1"@ != "CMYK_K"@) by {
        assert("5CLR_1"@[0int] != "CMYK_K"@[0int]);
    }
    assert("5CLR_2"@ != "SAMPLE"@) by {
        assert("5CLR_2"@[0int] != "SAMPLE"@[0int]);
    }
    assert("5CLR_2"@ != "CMYK_C"@) by {
        assert("5CLR_2"@[0int] != "CMYK_C"@[0int]);
    }
    assert("5CLR_2"@ != "CMYK_M"@) by {
        assert("5CLR_2"@[0int] != "CMYK_M"@[0int]);
    }
    assert("5CLR_2"@ != "CMYK_Y"@) by {
        assert("5CLR_2"@[0int] != "CMYK_Y"@[0int]);
    }
    assert("5CLR_2"@ != "CMYK_K"@) by {
        assert("5CLR_2"@[0int] != "CMYK_K"@[0int]);
    }
    assert("5CLR_2"@ != "5CLR_1"@) by {
        assert("5CLR_2"@[5int] != "5CLR_1"@[5int]);
    }
    assert("5CLR_3"@ != "SAMPLE"@) by {
        assert("5CLR_3"@[0int] != "SAMPLE"@[0int]);
    }
    assert("5CLR_3"@ != "CMYK_C"@) by {
        assert("5CLR_3"@[0int] != "CMYK_C"@[0int]);
    }
    assert("5CLR_3"@ != "CMYK_M"@) by {
        assert("5CLR_3"@[0int] != "CMYK_M"@[0int]);
    }
    assert("5CLR_3"@ != "CMYK_Y"@) by {
        assert("5CLR_3"@[0int] != "CMYK_Y"@[0int]);
    }
    assert("5CLR_3"@ != "CMYK_K"@) by {
        assert("5CLR_3"@[0int] != "CMYK_K"@[0int]);
    }
    assert("5CLR_3"@ != "5CLR_1"@) by {
        assert("5CLR_3"@[5int] != "5CLR_1"@[5int]);
    }
    assert("5CLR_3"@ != "5CLR_2"@) by {
        assert("5CLR_3"@[5int] != "5CLR_2"@[5int]);
    }
    assert("5CLR_4"@ != "SAMPLE"@) by {
        assert("5CLR_4"@[0int] != "SAMPLE"@[0int]);
    }
    assert("5CLR_4"@ != "CMYK_C"@) by {
        assert("5CLR_4"@[0int] != "CMYK_C"@[0int]);
    }
    assert("5CLR_4"@ != "CMYK_M"@) by {
        assert("5CLR_4"@[0int] != "CMYK_M"@[0int]);
    }
    assert("5CLR_4"@ != "CMYK_Y"@) by {
        assert("5CLR_4"@[0int] != "CMYK_Y"@[0int]);
    }
    assert("5CLR_4"@ != "CMYK_K"@) by {
        assert("5CLR_4"@[0int] != "CMYK_K"@[0int]);
    }
    assert("5CLR_4"@ != "5CLR_1"@) by {
        assert("5CLR_4"@[5int] != "5CLR_1"@[5int]);
    }
    assert("5CLR_4"@ != "5CLR_2"@) by {
        assert("5CLR_4"@[5int] != "5CLR_2"@[5int]);
    }
    assert("5CLR_4"@ != "5CLR_3"@) by {
        assert("5CLR_4"@[5int] != "5CLR_3"@[5int]);
    }
    assert("5CLR_5"@ != "SAMPLE"@) by {
        assert("5CLR_5"@[0int] != "SAMPLE"@[0int]);
    }
    assert("5CLR_5"@ != "CMYK_C"@) by {
        assert("5CLR_5"@[0int] != "CMYK_C"@[0int]);
    }
    assert("5CLR_5"@ != "CMYK_M"@) by {
        assert("5CLR_5"@[0int] != "CMYK_M"@[0int]);
    }
    assert("5CLR_5"@ != "CMYK_Y"@) by {
        assert("5CLR_5"@[0int] != "CMYK_Y"@[0int]);
    }
    assert("5CLR_5"@ != "CMYK_K"@) by {
        assert("5CLR_5"@[0int] != "CMYK_K"@[0int]);
    }
    assert("5CLR_5"@ != "5CLR_1"@) by {
        assert("5CLR_5"@[5int] != "5CLR_1"@[5int]);
    }
    assert("5CLR_5"@ != "5CLR_2"@) by {
        assert("5CLR_5"@[5int] != "5CLR_2"@[5int]);
    }
    assert("5CLR_5"@ != "5CLR_3"@) by {
        assert("5CLR_5"@[5int] != "5CLR_3"@[5int]);
    }
    assert("5CLR_5"@ != "5CLR_4"@) by {
        assert("5CLR_5"@[5int] != "5CLR_4"@[5int]);
    }
    assert("6CLR_1"@ != "SAMPLE"@) by {
        assert("6CLR_1"@[0int] != "SAMPLE"@[0int]);
    }
    assert("6CLR_1"@ != "CMYK_C"@) by {
        assert("6CLR_1"@[0int] != "CMYK_C"@[0int]);
    }
    assert("6CLR_1"@ != "CMYK_M"@) by {
        assert("6CLR_1"@[0int] != "CMYK_M"@[0int]);
    }
    assert("6CLR_1"@ != "CMYK_Y"@) by {
        assert("6CLR_1"@[0int] != "CMYK_Y"@[0int]);
    }
    assert("6CLR_1"@ != "CMYK_K"@) by {
        assert("6CLR_1"@[0int] != "CMYK_K"@[0int]);
    }
    assert("6CLR_1"@ != "5CLR_1"@) by {
        assert("6CLR_1"@[0int] != "5CLR_1"@[0int]);
    }
    assert("6CLR_1"@ != "5CLR_2"@) by {
        assert("6CLR_1"@[0int] != "5CLR_2"@[0int]);
    }
    assert("6CLR_1"@ != "5CLR_3"@) by {
        assert("6CLR_1"@[0int] != "5CLR_3"@[0int]);
    }
    assert("6CLR_1"@ != "5CLR_4"@) by {
        assert("6CLR_1"@[0int] != "5CLR_4"@[0int]);
    }
    assert("6CLR_1"@ != "5CLR_5"@) by {
        assert("6CLR_1"@[0int] != "5CLR_5"@[0int]);
    }
    assert("6CLR_2"@ != "SAMPLE"@) by {
        assert("6CLR_2"@[0int] != "SAMPLE"@[0int]);
    }
    assert("6CLR_2"@ != "CMYK_C"@) by {
        assert("6CLR_2"@[0int] != "CMYK_C"@[0int]);
    }
    assert("6CLR_2"@ != "CMYK_M"@) by {
        assert("6CLR_2"@[0int] != "CMYK_M"@[0int]);
    }
    assert("6CLR_2"@ != "CMYK_Y"@) by {
        assert("6CLR_2"@[0int] != "CMYK_Y"@[0int]);
    }
    assert("6CLR_2"@ != "CMYK_K"@) by {
        assert("6CLR_2"@[0int] != "CMYK_K"@[0int]);
    }
    assert("6CLR_2"@ != "5CLR_1"@) by {
        assert("6CLR_2"@[0int] != "5CLR_1"@[0int]);
    }
    assert("6CLR_2"@ != "5CLR_2"@) by {
        assert("6CLR_2"@[0int] != "5CLR_2"@[0int]);
    }
    assert("6CLR_2"@ != "5CLR_3"@) by {
        assert("6CLR_2"@[0int] != "5CLR_3"@[0int]);
    }
    assert("6CLR_2"@ != "5CLR_4"@) by {
        assert("6CLR_2"@[0int] != "5CLR_4"@[0int]);
    }
    assert("6CLR_2"@ != "5CLR_5"@) by {
        assert("6CLR_2"@[0int] != "5CLR_5"@[0int]);
    }
    assert("6CLR_2"@ != "6CLR_1"@) by {
        assert("6CLR_2"@[5int] != "6CLR_1"@[5int]);
    }
    assert("6CLR_3"@ != "SAMPLE"@) by {
        assert("6CLR_3"@[0int] != "SAMPLE"@[0int]);
    }
    assert("6CLR_3"@ != "CMYK_C"@) by {
        assert("6CLR_3"@[0int] != "CMYK_C"@[0int]);
    }
    assert("6CLR_3"@ != "CMYK_M"@) by {
        assert("6CLR_3"@[0int] != "CMYK_M"@[0int]);
    }
    assert("6CLR_3"@ != "CMYK_Y"@) by {
        assert("6CLR_3"@[0int] != "CMYK_Y"@[0int]);
    }
    assert("6CLR_3"@ != "CMYK_K"@) by {
        assert("6CLR_3"@[0int] != "CMYK_K"@[0int]);
    }
    assert("6CLR_3"@ != "5CLR_1"@) by {
        assert("6CLR_3"@[0int] != "5CLR_1"@[0int]);
    }
    assert("6CLR_3"@ != "5CLR_2"@) by {
        assert("6CLR_3"@[0int] != "5CLR_2"@[0int]);
    }
    assert("6CLR_3"@ != "5CLR_3"@) by {
        assert("6CLR_3"@[0int] != "5CLR_3"@[0int]);
    }
    assert("6CLR_3"@ != "5CLR_4"@) by {
        assert("6CLR_3"@[0int] != "5CLR_4"@[0int]);
    }
    assert("6CLR_3"@ != "5CLR_5"@) by {
        assert("6CLR_3"@[0int] != "5CLR_5"@[0int]);
    }
    assert("6CLR_3"@ != "6CLR_1"@) by {
        assert("6CLR_3"@[5int] != "6CLR_1"@[5int]);
    }
    assert("6CLR_3"@ != "6CLR_2"@) by {
        assert("6CLR_3"@[5int] != "6CLR_2"@[5int]);
    }
    assert("6CLR_4"@ != "SAMPLE"@) by {
        assert("6CLR_4"@[0int] != "SAMPLE"@[0int]);
    }
    assert("6CLR_4"@ != "CMYK_C"@) by {
        assert("6CLR_4"@[0int] != "CMYK_C"@[0int]);
    }
    assert("6CLR_4"@ != "CMYK_M"@) by {
        assert("6CLR_4"@[0int] != "CMYK_M"@[0int]);
    }
    assert("6CLR_4"@ != "CMYK_Y"@) by {
        assert("6CLR_4"@[0int] != "CMYK_Y"@[0int]);
    }
    assert("6CLR_4"@ != "CMYK_K"@) by {
        assert("6CLR_4"@[0int] != "CMYK_K"@[0int]);
    }
    assert("6CLR_4"@ != "5CLR_1"@) by {
        assert("6CLR_4"@[0int] != "5CLR_1"@[0int]);
    }
    assert("6CLR_4"@ != "5CLR_2"@) by {
        assert("6CLR_4"@[0int] != "5CLR_2"@[0int]);
    }
    assert("6CLR_4"@ != "5CLR_3"@) by {
        assert("6CLR_4"@[0int] != "5CLR_3"@[0int]);
    }
    assert("6CLR_4"@ != "5CLR_4"@) by {
        assert("6CLR_4"@[0int] != "5CLR_4"@[0int]);
    }
    assert("6CLR_4"@ != "5CLR_5"@) by {
        assert("6CLR_4"@[0int] != "5CLR_5"@[0int]);
    }
    assert("6CLR_4"@ != "6CLR_1"@) by {
        assert("6CLR_4"@[5int] != "6CLR_1"@[5int]);
    }
    assert("6CLR_4"@ != "6CLR_2"@) by {
        assert("6CLR_4"@[5int] != "6CLR_2"@[5int]);
    }
    assert("6CLR_4"@ != "6CLR_3"@) by {
        assert("6CLR_4"@[5int] != "6CLR_3"@[5int]);
    }
    assert("6CLR_5"@ != "SAMPLE"@) by {
        assert("6CLR_5"@[0int] != "SAMPLE"@[0int]);
    }
    assert("6CLR_5"@ != "CMYK_C"@) by {
        assert("6CLR_5"@[0int] != "CMYK_C"@[0int]);
    }
    assert("6CLR_5"@ != "CMYK_M"@) by {
        assert("6CLR_5"@[0int] != "CMYK_M"@[0int]);
    }
    assert("6CLR_5"@ != "CMYK_Y"@) by {
        assert("6CLR_5"@[0int] != "CMYK_Y"@[0int]);
    }
    assert("6CLR_5"@ != "CMYK_K"@) by {
        assert("6CLR_5"@[0int] != "CMYK_K"@[0int]);
    }
    assert("6CLR_5"@ != "5CLR_1"@) by {
        assert("6CLR_5"@[0int] != "5CLR_1"@[0int]);
    }
    assert("6CLR_5"@ != "5CLR_2"@) by {
        assert("6CLR_5"@[0int] != "5CLR_2"@[0int]);
    }
    assert("6CLR_5"@ != "5CLR_3"@) by {
        assert("6CLR_5"@[0int] != "5CLR_3"@[0int]);
    }
    assert("6CLR_5"@ != "5CLR_4"@) by {
        assert("6CLR_5"@[0int] != "5CLR_4"@[0int]);
    }
    assert("6CLR_5"@ != "5CLR_5"@) by {
        assert("6CLR_5"@[0int] != "5CLR_5"@[0int]);
    }
    assert("6CLR_5"@ != "6CLR_1"@) by {
        assert("6CLR_5"@[5int] != "6CLR_1"@[5int]);
    }
    assert("6CLR_5"@ != "6CLR_2"@) by {
        assert("6CLR_5"@[5int] != "6CLR_2"@[5int]);
    }
    assert("6CLR_5"@ != "6CLR_3"@) by {
        assert("6CLR_5"@[5int] != "6CLR_3"@[5int]);
    }
    assert("6CLR_5"@ != "6CLR_4"@) by {
        assert("6CLR_5"@[5int] != "6CLR_4"@[5int]);
    }
}

#[verifier::spinoff_prover]
#[verifier::rlimit(100)]
proof fn lemma_round_trip_chunk_2()
    ensures
        field_of(field_name(Field::SIXCLR_6)) == Some(Field::SIXCLR_6),
        field_of(field_name(Field::SEVENCLR_1)) == Some(Field::SEVENCLR_1),
        field_of(field_name(Field::SEVENCLR_2)) == Some(Field::SEVENCLR_2),
        field_of(field_name(Field::SEVENCLR_3)) == Some(Field::SEVENCLR_3),
        field_of(field_name(Field::SEVENCLR_4)) == Some(Field::SEVENCLR_4),
        field_of(field_name(Field::SEVENCLR_5)) == Some(Field::SEVENCLR_5),
        field_of(field_name(Field::SEVENCLR_6)) == Some(Field::SEVENCLR_6),
        field_of(field_name(Field::SEVENCLR_7)) == Some(Field::SEVENCLR_7),
        field_of(field_name(Field::EIGHTCLR_1)) == Some(Field::EIGHTCLR_1),
        field_of(field_name(Field::EIGHTCLR_2)) == Some(Field::EIGHTCLR_2),
{
    reveal_strlit("SAMPLE_ID");
    reveal_strlit("SAMPLEID");
    reveal_strlit("SAMPLE");
    reveal_strlit("SAMPLE_NAME");
    reveal_strlit("SAMPLENAME");
    reveal_strlit("");
    reveal_strlit("BLANK");
    reveal_strlit("RGB_R");
    reveal_strlit("RGB_G");
    reveal_strlit("RGB_B");
    reveal_strlit("CMYK_C");
    reveal_strlit("CMYK_M");
    reveal_strlit("CMYK_Y");
    reveal_strlit("CMYK_K");
    reveal_strlit("5CLR_1");
    reveal_strlit("5CLR_2");
    reveal_strlit("5CLR_3");
    reveal_strlit("5CLR_4");
    reveal_strlit("5CLR_5");
    reveal_strlit("6CLR_1");
    reveal_strlit("6CLR_2");
    reveal_strlit("6CLR_3");
    reveal_strlit("6CLR_4");
    reveal_strlit("6CLR_5");
    reveal_strlit("6CLR_6");
    reveal_strlit("7CLR_1");
    reveal_strlit("7CLR_2");
    reveal_strlit("7CLR_3");
    reveal_strlit("7CLR_4");
    reveal_strlit("7CLR_5");
    reveal_strlit("7CLR_6");
    reveal_strlit("7CLR_7");
    reveal_strlit("8CLR_1");
    reveal_strlit("8CLR_2");
    assert(upper_seq("6CLR_6"@) =~= "6CLR_6"@);
    assert(upper_seq("7CLR_1"@) =~= "7CLR_1"@);
    assert(upper_seq("7CLR_2"@) =~= "7CLR_2"@);
    assert(upper_seq("7CLR_3"@) =~= "7CLR_3"@);
    assert(upper_seq("7CLR_4"@) =~= "7CLR_4"@);
    assert(upper_seq("7CLR_5"@) =~= "7CLR_5"@);
    assert(upper_seq("7CLR_6"@) =~= "7CLR_6"@);
    assert(upper_seq("7CLR_7"@) =~= "7CLR_7"@);
    assert(upper_seq("8CLR_1"@) =~= "8CLR_1"@);
    assert(upper_seq("8CLR_2"@) =~= "8CLR_2"@);
    assert("6CLR_6"@ != "SAMPLE"@) by {
        assert("6CLR_6"@[0int] != "SAMPLE"@[0int]);
    }
    assert("6CLR_6"@ != "CMYK_C"@) by {
        assert("6CLR_6"@[0int] != "CMYK_C"@[0int]);
    }
    assert("6CLR_6"@ != "CMYK_M"@) by {
        assert("6CLR_6"@[0int] != "CMYK_M"@[0int]);
    }
    assert("6CLR_6"@ != "CMYK_Y"@) by {
        assert("6CLR_6"@[0int] != "CMYK_Y"@[0int]);
    }
    assert("6CLR_6"@ != "CMYK_K"@) by {
        assert("6CLR_6"@[0int] != "CMYK_K"@[0int]);
    }
    assert("6CLR_6"@ != "5CLR_1"@) by {
        assert("6CLR_6"@[0int] != "5CLR_1"@[0int]);
    }
    assert("6CLR_6"@ != "5CLR_2"@) by {
        assert("6CLR_6"@[0int] != "5CLR_2"@[0int]);
    }
    assert("6CLR_6"@ != "5CLR_3"@) by {
        assert("6CLR_6"@[0int] != "5CLR_3"@[0int]);
    }
    assert("6CLR_6"@ != "5CLR_4"@) by {
        assert("6CLR_6"@[0int] != "5CLR_4"@[0int]);
    }
    assert("6CLR_6"@ != "5CLR_5"@) by {
        assert("6CLR_6"@[0int] != "5CLR_5"@[0int]);
    }
    assert("6CLR_6"@ != "6CLR_1"@) by {
        assert("6CLR_6"@[5int] != "6CLR_1"@[5int]);
    }
    assert("6CLR_6"@ != "6CLR_2"@) by {
        assert("6CLR_6"@[5int] != "6CLR_2"@[5int]);
    }
    assert("6CLR_6"@ != "6CLR_3"@) by {
        assert("6CLR_6"@[5int] != "6CLR_3"@[5int]);
    }
    assert("6CLR_6"@ != "6CLR_4"@) by {
        assert("6CLR_6"@[5int] != "6CLR_4"@[5int]);
    }
    assert("6CLR_6"@ != "6CLR_5"@) by {
        assert("6CLR_6"@[5int] != "6CLR_5"@[5int]);
    }
    assert("7CLR_1"@ != "SAMPLE"@) by {
        assert("7CLR_1"@[0int] != "SAMPLE"@[0int]);
    }
    assert("7CLR_1"@ != "CMYK_C"@) by {
        assert("7CLR_1"@[0int] != "CMYK_C"@[0int]);
    }
    assert("7CLR_1"@ != "CMYK_M"@) by {
        assert("7CLR_1"@[0int] != "CMYK_M"@[0int]);
    }
    assert("7CLR_1"@ != "CMYK_Y"@) by {
        assert("7CLR_1"@[0int] != "CMYK_Y"@[0int]);
    }
    assert("7CLR_1"@ != "CMYK_K"@) by {
        assert("7CLR_1"@[0int] != "CMYK_K"@[0int]);
    }
    assert("7CLR_1"@ != "5CLR_1"@) by {
        assert("7CLR_1"@[0int] != "5CLR_1"@[0int]);
    }
    assert("7CLR_1"@ != "5CLR_2"@) by {
        assert("7CLR_1"@[0int] != "5CLR_2"@[0int]);
    }
    assert("7CLR_1"@ != "5CLR_3"@) by {
        assert("7CLR_1"@[0int] != "5CLR_3"@[0int]);
    }
    assert("7CLR_1"@ != "5CLR_4"@) by {
        assert("7CLR_1"@[0int] != "5CLR_4"@[0int]);
    }
    assert("7CLR_1"@ != "5CLR_5"@) by {
        assert("7CLR_1"@[0int] != "5CLR_5"@[0int]);
    }
    assert("7CLR_1"@ != "6CLR_1"@) by {
        assert("7CLR_1"@[0int] != "6CLR_1"@[0int]);
    }
    assert("7CLR_1"@ != "6CLR_2"@) by {
        assert("7CLR_1"@[0int] != "6CLR_2"@[0int]);
    }
    assert("7CLR_1"@ != "6CLR_3"@) by {
        assert("7CLR_1"@[0int] != "6CLR_3"@[0int]);
    }
    assert("7CLR_1"@ != "6CLR_4"@) by {
        assert("7CLR_1"@[0int] != "6CLR_4"@[0int]);
    }
    assert("7CLR_1"@ != "6CLR_5"@) by {
        assert("7CLR_1"@[0int] != "6CLR_5"@[0int]);
    }
    assert("7CLR_1"@ != "6CLR_6"@) by {
        assert("7CLR_1"@[0int] != "6CLR_6"@[0int]);
    }
    assert("7CLR_2"@ != "SAMPLE"@) by {
        assert("7CLR_2"@[0int] != "SAMPLE"@[0int]);
    }
    assert("7CLR_2"@ != "CMYK_C"@) by {
        assert("7CLR_2"@[0int] != "CMYK_C"@[0int]);
    }
    assert("7CLR_2"@ != "CMYK_M"@) by {
        assert("7CLR_2"@[0int] != "CMYK_M"@[0int]);
    }
    assert("7CLR_2"@ != "CMYK_Y"@) by {
        assert("7CLR_2"@[0int] != "CMYK_Y"@[0int]);
    }
    assert("7CLR_2"@ != "CMYK_K"@) by {
        assert("7CLR_2"@[0int] != "CMYK_K"@[0int]);
    }
    assert("7CLR_2"@ != "5CLR_1"@) by {
        assert("7CLR_2"@[0int] != "5CLR_1"@[0int]);
    }
    assert("7CLR_2"@ != "5CLR_2"@) by {
        assert("7CLR_2"@[0int] != "5CLR_2"@[0int]);
    }
    assert("7CLR_2"@ != "5CLR_3"@) by {
        assert("7CLR_2"@[0int] != "5CLR_3"@[0int]);
    }
    assert("7CLR_2"@ != "5CLR_4"@) by {
        assert("7CLR_2"@[0int] != "5CLR_4"@[0int]);
    }
    assert("7CLR_2"@ != "5CLR_5"@) by {
        assert("7CLR_2"@[0int] != "5CLR_5"@[0int]);
    }
    assert("7CLR_2"@ != "6CLR_1"@) by {
        assert("7CLR_2"@[0int] != "6CLR_1"@[0int]);
    }
    assert("7CLR_2"@ != "6CLR_2"@) by {
        assert("7CLR_2"@[0int] != "6CLR_2"@[0int]);
    }
    assert("7CLR_2"@ != "6CLR_3"@) by {
        assert("7CLR_2"@[0int] != "6CLR_3"@[0int]);
    }
    assert("7CLR_2"@ != "6CLR_4"@) by {
        assert("7CLR_2"@[0int] != "6CLR_4"@[0int]);
    }
    assert("7CLR_2"@ != "6CLR_5"@) by {
        assert("7CLR_2"@[0int] != "6CLR_5"@[0int]);
    }
    assert("7CLR_2"@ != "6CLR_6"@) by {
        assert("7CLR_2"@[0int] != "6CLR_6"@[0int]);
    }
    assert("7CLR_2"@ != "7CLR_1"@) by {
        assert("7CLR_2"@[5int] != "7CLR_1"@[5int]);
    }
    assert("7CLR_3"@ != "SAMPLE"@) by {
        assert("7CLR_3"@[0int] != "SAMPLE"@[0int]);
    }
    assert("7CLR_3"@ != "CMYK_C"@) by {
        assert("7CLR_3"@[0int] != "CMYK_C"@[0int]);
    }
    assert("7CLR_3"@ != "CMYK_M"@) by {
        assert("7CLR_3"@[0int] != "CMYK_M"@[0int]);
    }
    assert("7CLR_3"@ != "CMYK_Y"@) by {
        assert("7CLR_3"@[0int] != "CMYK_Y"@[0int]);
    }
    assert("7CLR_3"@ != "CMYK_K"@) by {
        assert("7CLR_3"@[0int] != "CMYK_K"@[0int]);
    }
    assert("7CLR_3"@ != "5CLR_1"@) by {
        assert("7CLR_3"@[0int] != "5CLR_1"@[0int]);
    }
    assert("7CLR_3"@ != "5CLR_2"@) by {
        assert("7CLR_3"@[0int] != "5CLR_2"@[0int]);
    }
    assert("7CLR_3"@ != "5CLR_3"@) by {
        assert("7CLR_3"@[0int] != "5CLR_3"@[0int]);
    }
    assert("7CLR_3"@ != "5CLR_4"@) by {
        assert("7CLR_3"@[0int] != "5CLR_4"@[0int]);
    }
    assert("7CLR_3"@ != "5CLR_5"@) by {
        assert("7CLR_3"@[0int] != "5CLR_5"@[0int]);
    }
    assert("7CLR_3"@ != "6CLR_1"@) by {
        assert("7CLR_3"@[0int] != "6CLR_1"@[0int]);
    }
    assert("7CLR_3"@ != "6CLR_2"@) by {
        assert("7CLR_3"@[0int] != "6CLR_2"@[0int]);
    }
    assert("7CLR_3"@ != "6CLR_3"@) by {
        assert("7CLR_3"@[0int] != "6CLR_3"@[0int]);
    }
    assert("7CLR_3"@ != "6CLR_4"@) by {
        assert("7CLR_3"@[0int] != "6CLR_4"@[0int]);
    }
    assert("7CLR_3"@ != "6CLR_5"@) by {
        assert("7CLR_3"@[0int] != "6CLR_5"@[0int]);
    }
    assert("7CLR_3"@ != "6CLR_6"@) by {
        assert("7CLR_3"@[0int] != "6CLR_6"@[0int]);
    }
    assert("7CLR_3"@ != "7CLR_1"@) by {
        assert("7CLR_3"@[5int] != "7CLR_1"@[5int]);
    }
    assert("7CLR_3"@ != "7CLR_2"@) by {
        assert("7CLR_3"@[5int] != "7CLR_2"@[5int]);
    }
    assert("7CLR_4"@ != "SAMPLE"@) by {
        assert("7CLR_4"@[0int] != "SAMPLE"@[0int]);
    }
    assert("7CLR_4"@ != "CMYK_C"@) by {
        assert("7CLR_4"@[0int] != "CMYK_C"@[0int]);
    }
    assert("7CLR_4"@ != "CMYK_M"@) by {
        assert("7CLR_4"@[0int] != "CMYK_M"@[0int]);
    }
    assert("7CLR_4"@ != "CMYK_Y"@) by {
        assert("7CLR_4"@[0int] != "CMYK_Y"@[0int]);
    }
    assert("7CLR_4"@ != "CMYK_K"@) by {
        assert("7CLR_4"@[0int] != "CMYK_K"@[0int]);
    }
    assert("7CLR_4"@ != "5CLR_1"@) by {
        assert("7CLR_4"@[0int] != "5CLR_1"@[0int]);
    }
    assert("7CLR_4"@ != "5CLR_2"@) by {
        assert("7CLR_4"@[0int] != "5CLR_2"@[0int]);
    }
    assert("7CLR_4"@ != "5CLR_3"@) by {
        assert("7CLR_4"@[0int] != "5CLR_3"@[0int]);
    }
    assert("7CLR_4"@ != "5CLR_4"@) by {
        assert("7CLR_4"@[0int] != "5CLR_4"@[0int]);
    }
    assert("7CLR_4"@ != "5CLR_5"@) by {
        assert("7CLR_4"@[0int] != "5CLR_5"@[0int]);
    }
    assert("7CLR_4"@ != "6CLR_1"@) by {
        assert("7CLR_4"@[0int] != "6CLR_1"@[0int]);
    }
    assert("7CLR_4"@ != "6CLR_2"@) by {
        assert("7CLR_4"@[0int] != "6CLR_2"@[0int]);
    }
    assert("7CLR_4"@ != "6CLR_3"@) by {
        assert("7CLR_4"@[0int] != "6CLR_3"@[0int]);
    }
    assert("7CLR_4"@ != "6CLR_4"@) by {
        assert("7CLR_4"@[0int] != "6CLR_4"@[0int]);
    }
    assert("7CLR_4"@ != "6CLR_5"@) by {
        assert("7CLR_4"@[0int] != "6CLR_5"@[0int]);
    }
    assert("7CLR_4"@ != "6CLR_6"@) by {
        assert("7CLR_4"@[0int] != "6CLR_6"@[0int]);
    }
    assert("7CLR_4"@ != "7CLR_1"@) by {
        assert("7CLR_4"@[5int] != "7CLR_1"@[5int]);
    }
    assert("7CLR_4"@ != "7CLR_2"@) by {
        assert("7CLR_4"@[5int] != "7CLR_2"@[5int]);
    }
    assert("7CLR_4"@ != "7CLR_3"@) by {
        assert("7CLR_4"@[5int] != "7CLR_3"@[5int]);
    }
    assert("7CLR_5"@ != "SAMPLE"@) by {
        assert("7CLR_5"@[0int] != "SAMPLE"@[0int]);
    }
    assert("7CLR_5"@ != "CMYK_C"@) by {
        assert("7CLR_5"@[0int] != "CMYK_C"@[0int]);
    }
    assert("7CLR_5"@ != "CMYK_M"@) by {
        assert("7CLR_5"@[0int] != "CMYK_M"@[0int]);
    }
    assert("7CLR_5"@ != "CMYK_Y"@) by {
        assert("7CLR_5"@[0int] != "CMYK_Y"@[0int]);
    }
    assert("7CLR_5"@ != "CMYK_K"@) by {
        assert("7CLR_5"@[0int] != "CMYK_K"@[0int]);
    }
    assert("7CLR_5"@ != "5CLR_1"@) by {
        assert("7CLR_5"@[0int] != "5CLR_1"@[0int]);
    }
    assert("7CLR_5"@ != "5CLR_2"@) by {
        assert("7CLR_5"@[0int] != "5CLR_2"@[0int]);
    }
    assert("7CLR_5"@ != "5CLR_3"@) by {
        assert("7CLR_5"@[0int] != "5CLR_3"@[0int]);
    }
    assert("7CLR_5"@ != "5CLR_4"@) by {
        assert("7CLR_5"@[0int] != "5CLR_4"@[0int]);
    }
    assert("7CLR_5"@ != "5CLR_5"@) by {
        assert("7CLR_5"@[0int] != "5CLR_5"@[0int]);
    }
    assert("7CLR_5"@ != "6CLR_1"@) by {
        assert("7CLR_5"@[0int] != "6CLR_1"@[0int]);
    }
    assert("7CLR_5"@ != "6CLR_2"@) by {
        assert("7CLR_5"@[0int] != "6CLR_2"@[0int]);
    }
    assert("7CLR_5"@ != "6CLR_3"@) by {
        assert("7CLR_5"@[0int] != "6CLR_3"@[0int]);
    }
    assert("7CLR_5"@ != "6CLR_4"@) by {
        assert("7CLR_5"@[0int] != "6CLR_4"@[0int]);
    }
    assert("7CLR_5"@ != "6CLR_5"@) by {
        assert("7CLR_5"@[0int] != "6CLR_5"@[0int]);
    }
    assert("7CLR_5"@ != "6CLR_6"@) by {
        assert("7CLR_5"@[0int] != "6CLR_6"@[0int]);
    }
    assert("7CLR_5"@ != "7CLR_1"@) by {
        assert("7CLR_5"@[5int] != "7CLR_1"@[5int]);
    }
    assert("7CLR_5"@ != "7CLR_2"@) by {
        assert("7CLR_5"@[5int] != "7CLR_2"@[5int]);
    }
    assert("7CLR_5"@ != "7CLR_3"@) by {
        assert("7CLR_5"@[5int] != "7CLR_3"@[5int]);
    }
    assert("7CLR_5"@ != "7CLR_4"@) by {
        assert("7CLR_5"@[5int] != "7CLR_4"@[5int]);
    }
    assert("7CLR_6"@ != "SAMPLE"@) by {
        assert("7CLR_6"@[0int] != "SAMPLE"@[0int]);
    }
    assert("7CLR_6"@ != "CMYK_C"@) by {
        assert("7CLR_6"@[0int] != "CMYK_C"@[0int]);
    }
    assert("7CLR_6"@ != "CMYK_M"@) by {
        assert("7CLR_6"@[0int] != "CMYK_M"@[0int]);
    }
    assert("7CLR_6"@ != "CMYK_Y"@) by {
        assert("7CLR_6"@[0int] != "CMYK_Y"@[0int]);
    }
    assert("7CLR_6"@ != "CMYK_K"@) by {
        assert("7CLR_6"@[0int] != "CMYK_K"@[0int]);
    }
    assert("7CLR_6"@ != "5CLR_1"@) by {
        assert("7CLR_6"@[0int] != "5CLR_1"@[0int]);
    }
    assert("7CLR_6"@ != "5CLR_2"@) by {
        assert("7CLR_6"@[0int] != "5CLR_2"@[0int]);
    }
    assert("7CLR_6"@ != "5CLR_3"@) by {
        assert("7CLR_6"@[0int] != "5CLR_3"@[0int]);
    }
    assert("7CLR_6"@ != "5CLR_4"@) by {
        assert("7CLR_6"@[0int] != "5CLR_4"@[0int]);
    }
    assert("7CLR_6"@ != "5CLR_5"@) by {
        assert("7CLR_6"@[0int] != "5CLR_5"@[0int]);
    }
    assert("7CLR_6"@ != "6CLR_1"@) by {
        assert("7CLR_6"@[0int] != "6CLR_1"@[0int]);
    }
    assert("7CLR_6"@ != "6CLR_2"@) by {
        assert("7CLR_6"@[0int] != "6CLR_2"@[0int]);
    }
    assert("7CLR_6"@ != "6CLR_3"@) by {
        assert("7CLR_6"@[0int] != "6CLR_3"@[0int]);
    }
    assert("7CLR_6"@ != "6CLR_4"@) by {
        assert("7CLR_6"@[0int] != "6CLR_4"@[0int]);
    }
    assert("7CLR_6"@ != "6CLR_5"@) by {
        assert("7CLR_6"@[0int] != "6CLR_5"@[0int]);
    }
    assert("7CLR_6"@ != "6CLR_6"@) by {
        assert("7CLR_6"@[0int] != "6CLR_6"@[0int]);
    }
    assert("7CLR_6"@ != "7CLR_1"@) by {
        assert("7CLR_6"@[5int] != "7CLR_1"@[5int]);
    }
    assert("7CLR_6"@ != "7CLR_2"@) by {
        assert("7CLR_6"@[5int] != "7CLR_2"@[5int]);
    }
    assert("7CLR_6"@ != "7CLR_3"@) by {
        assert("7CLR_6"@[5int] != "7CLR_3"@[5int]);
    }
    assert("7CLR_6"@ != "7CLR_4"@) by {
        assert("7CLR_6"@[5int] != "7CLR_4"@[5int]);
    }
    assert("7CLR_6"@ != "7CLR_5"@) by {
        assert("7CLR_6"@[5int] != "7CLR_5"@[5int]);
    }
    assert("7CLR_7"@ != "SAMPLE"@) by {
        assert("7CLR_7"@[0int] != "SAMPLE"@[0int]);
    }
    assert("7CLR_7"@ != "CMYK_C"@) by {
        assert("7CLR_7"@[0int] != "CMYK_C"@[0int]);
    }
    assert("7CLR_7"@ != "CMYK_M"@) by {
        assert("7CLR_7"@[0int] != "CMYK_M"@[0int]);
    }
    assert("7CLR_7"@ != "CMYK_Y"@) by {
        assert("7CLR_7"@[0int] != "CMYK_Y"@[0int]);
    }
    assert("7CLR_7"@ != "CMYK_K"@) by {
        assert("7CLR_7"@[0int] != "CMYK_K"@[0int]);
    }
    assert("7CLR_7"@ != "5CLR_1"@) by {
        assert("7CLR_7"@[0int] != "5CLR_1"@[0int]);
    }
    assert("7CLR_7"@ != "5CLR_2"@) by {
        assert("7CLR_7"@[0int] != "5CLR_2"@[0int]);
    }
    assert("7CLR_7"@ != "5CLR_3"@) by {
        assert("7CLR_7"@[0int] != "5CLR_3"@[0int]);
    }
    assert("7CLR_7"@ != "5CLR_4"@) by {
        assert("7CLR_7"@[0int] != "5CLR_4"@[0int]);
    }
    assert("7CLR_7"@ != "5CLR_5"@) by {
        assert("7CLR_7"@[0int] != "5CLR_5"@[0int]);
    }
    assert("7CLR_7"@ != "6CLR_1"@) by {
        assert("7CLR_7"@[0int] != "6CLR_1"@[0int]);
    }
    assert("7CLR_7"@ != "6CLR_2"@) by {
        assert("7CLR_7"@[0int] != "6CLR_2"@[0int]);
    }
    assert("7CLR_7"@ != "6CLR_3"@) by {
        assert("7CLR_7"@[0int] != "6CLR_3"@[0int]);
    }
    assert("7CLR_7"@ != "6CLR_4"@) by {
        assert("7CLR_7"@[0int] != "6CLR_4"@[0int]);
    }
    assert("7CLR_7"@ != "6CLR_5"@) by {
        assert("7CLR_7"@[0int] != "6CLR_5"@[0int]);
    }
    assert("7CLR_7"@ != "6CLR_6"@) by {
        assert("7CLR_7"@[0int] != "6CLR_6"@[0int]);
    }
    assert("7CLR_7"@ != "7CLR_1"@) by {
        assert("7CLR_7"@[5int] != "7CLR_1"@[5int]);
    }
    assert("7CLR_7"@ != "7CLR_2"@) by {
        assert("7CLR_7"@[5int] != "7CLR_2"@[5int]);
    }
    assert("7CLR_7"@ != "7CLR_3"@) by {
        assert("7CLR_7"@[5int] != "7CLR_3"@[5int]);
    }
    assert("7CLR_7"@ != "7CLR_4"@) by {
        assert("7CLR_7"@[5int] != "7CLR_4"@[5int]);
    }
    assert("7CLR_7"@ != "7CLR_5"@) by {
        assert("7CLR_7"@[5int] != "7CLR_5"@[5int]);
    }
    assert("7CLR_7"@ != "7CLR_6"@) by {
        assert("7CLR_7"@[5int] != "7CLR_6"@[5int]);
    }
    assert("8CLR_1"@ != "SAMPLE"@) by {
        assert("8CLR_1"@[0int] != "SAMPLE"@[0int]);
    }
    assert("8CLR_1"@ != "CMYK_C"@) by {
        assert("8CLR_1"@[0int] != "CMYK_C"@[0int]);
    }
    assert("8CLR_1"@ != "CMYK_M"@) by {
        assert("8CLR_1"@[0int] != "CMYK_M"@[0int]);
    }
    assert("8CLR_1"@ != "CMYK_Y"@) by {
        assert("8CLR_1"@[0int] != "CMYK_Y"@[0int]);
    }
    assert("8CLR_1"@ != "CMYK_K"@) by {
        assert("8CLR_1"@[0int] != "CMYK_K"@[0int]);
    }
    assert("8CLR_1"@ != "5CLR_1"@) by {
        assert("8CLR_1"@[0int] != "5CLR_1"@[0int]);
    }
    assert("8CLR_1"@ != "5CLR_2"@) by {
        assert("8CLR_1"@[0int] != "5CLR_2"@[0int]);
    }
    assert("8CLR_1"@ != "5CLR_3"@) by {
        assert("8CLR_1"@[0int] != "5CLR_3"@[0int]);
    }
    assert("8CLR_1"@ != "5CLR_4"@) by {
        assert("8CLR_1"@[0int] != "5CLR_4"@[0int]);
    }
    assert("8CLR_1"@ != "5CLR_5"@) by {
        assert("8CLR_1"@[0int] != "5CLR_5"@[0int]);
    }
    assert("8CLR_1"@ != "6CLR_1"@) by {
        assert("8CLR_1"@[0int] != "6CLR_1"@[0int]);
    }
    assert("8CLR_1"@ != "6CLR_2"@) by {
        assert("8CLR_1"@[0int] != "6CLR_2"@[0int]);
    }
    assert("8CLR_1"@ != "6CLR_3"@) by {
        assert("8CLR_1"@[0int] != "6CLR_3"@[0int]);
    }
    assert("8CLR_1"@ != "6CLR_4"@) by {
        assert("8CLR_1"@[0int] != "6CLR_4"@[0int]);
    }
    assert("8CLR_1"@ != "6CLR_5"@) by {
        assert("8CLR_1"@[0int] != "6CLR_5"@[0int]);
    }
    assert("8CLR_1"@ != "6CLR_6"@) by {
        assert("8CLR_1"@[0int] != "6CLR_6"@[0int]);
    }
    assert("8CLR_1"@ != "7CLR_1"@) by {
        assert("8CLR_1"@[0int] != "7CLR_1"@[0int]);
    }
    assert("8CLR_1"@ != "7CLR_2"@) by {
        assert("8CLR_1"@[0int] != "7CLR_2"@[0int]);
    }
    assert("8CLR_1"@ != "7CLR_3"@) by {
        assert("8CLR_1"@[0int] != "7CLR_3"@[0int]);
    }
    assert("8CLR_1"@ != "7CLR_4"@) by {
        assert("8CLR_1"@[0int] != "7CLR_4"@[0int]);
    }
    assert("8CLR_1"@ != "7CLR_5"@) by {
        assert("8CLR_1"@[0int] != "7CLR_5"@[0int]);
    }
    assert("8CLR_1"@ != "7CLR_6"@) by {
        assert("8CLR_1"@[0int] != "7CLR_6"@[0int]);
    }
    assert("8CLR_1"@ != "7CLR_7"@) by {
        assert("8CLR_1"@[0int] != "7CLR_7"@[0int]);
    }
    assert("8CLR_2"@ != "SAMPLE"@) by {
        assert("8CLR_2"@[0int] != "SAMPLE"@[0int]);
    }
    assert("8CLR_2"@ != "CMYK_C"@) by {
        assert("8CLR_2"@[0int] != "CMYK_C"@[0int]);
    }
    assert("8CLR_2"@ != "CMYK_M"@) by {
        assert("8CLR_2"@[0int] != "CMYK_M"@[0int]);
    }
    assert("8CLR_2"@ != "CMYK_Y"@) by {
        assert("8CLR_2"@[0int] != "CMYK_Y"@[0int]);
    }
    assert("8CLR_2"@ != "CMYK_K"@) by {
        assert("8CLR_2"@[0int] != "CMYK_K"@[0int]);
    }
    assert("8CLR_2"@ != "5CLR_1"@) by {
        assert("8CLR_2"@[0int] != "5CLR_1"@[0int]);
    }
    assert("8CLR_2"@ != "5CLR_2"@) by {
        assert("8CLR_2"@[0int] != "5CLR_2"@[0int]);
    }
    assert("8CLR_2"@ != "5CLR_3"@) by {
        assert("8CLR_2"@[0int] != "5CLR_3"@[0int]);
    }
    assert("8CLR_2"@ != "5CLR_4"@) by {
        assert("8CLR_2"@[0int] != "5CLR_4"@[0int]);
    }
    assert("8CLR_2"@ != "5CLR_5"@) by {
        assert("8CLR_2"@[0int] != "5CLR_5"@[0int]);
    }
    assert("8CLR_2"@ != "6CLR_1"@) by {
        assert("8CLR_2"@[0int] != "6CLR_1"@[0int]);
    }
    assert("8CLR_2"@ != "6CLR_2"@) by {
        assert("8CLR_2"@[0int] != "6CLR_2"@[0int]);
    }
    assert("8CLR_2"@ != "6CLR_3"@) by {
        assert("8CLR_2"@[0int] != "6CLR_3"@[0int]);
    }
    assert("8CLR_2"@ != "6CLR_4"@) by {
        assert("8CLR_2"@[0int] != "6CLR_4"@[0int]);
    }
    assert("8CLR_2"@ != "6CLR_5"@) by {
        assert("8CLR_2"@[0int] != "6CLR_5"@[0int]);
    }
    assert("8CLR_2"@ != "6CLR_6"@) by {
        assert("8CLR_2"@[0int] != "6CLR_6"@[0int]);
    }
    assert("8CLR_2"@ != "7CLR_1"@) by {
        assert("8CLR_2"@[0int] != "7CLR_1"@[0int]);
    }
    assert("8CLR_2"@ != "7CLR_2"@) by {
        assert("8CLR_2"@[0int] != "7CLR_2"@[0int]);
    }
    assert("8CLR_2"@ != "7CLR_3"@) by {
        assert("8CLR_2"@[0int] != "7CLR_3"@[0int]);
    }
    assert("8CLR_2"@ != "7CLR_4"@) by {
        assert("8CLR_2"@[0int] != "7CLR_4"@[0int]);
    }
    assert("8CLR_2"@ != "7CLR_5"@) by {
        assert("8CLR_2"@[0int] != "7CLR_5"@[0int]);
    }
    assert("8CLR_2"@ != "7CLR_6"@) by {
        assert("8CLR_2"@[0int] != "7CLR_6"@[0int]);
    }
    assert("8CLR_2"@ != "7CLR_7"@) by {
        assert("8CLR_2"@[0int] != "7CLR_7"@[0int]);
    }
    assert("8CLR_2"@ != "8CLR_1"@) by {
        assert("8CLR_2"@[5int] != "8CLR_1"@[5int]);
    }
}

#[verifier::spinoff_prover]
#[verifier::rlimit(100)]
proof fn lemma_round_trip_chunk_3()
    ensures
        field_of(field_name(Field::EIGHTCLR_3)) == Some(Field::EIGHTCLR_3),
        field_of(field_name(Field::EIGHTCLR_4)) == Some(Field::EIGHTCLR_4),
        field_of(field_name(Field::EIGHTCLR_5)) == Some(Field::EIGHTCLR_5),
        field_of(field_name(Field::EIGHTCLR_6)) == Some(Field::EIGHTCLR_6),
        field_of(field_name(Field::EIGHTCLR_7)) == Some(Field::EIGHTCLR_7),
        field_of(field_name(Field::EIGHTCLR_8)) == Some(Field::EIGHTCLR_8),
        field_of(field_name(Field::D_RED)) == Some(Field::D_RED),
        field_of(field_name(Field::D_GREEN)) == Some(Field::D_GREEN),
        field_of(field_name(Field::D_BLUE)) == Some(Field::D_BLUE),
        field_of(field_name(Field::D_VIS)) == Some(Field::D_VIS),
{
    reveal_strlit("SAMPLE_ID");
    reveal_strlit("SAMPLEID");
    reveal_strlit("SAMPLE");
    reveal_strlit("SAMPLE_NAME");
    reveal_strlit("SAMPLENAME");
    reveal_strlit("");
    reveal_strlit("BLANK");
    reveal_strlit("RGB_R");
    reveal_strlit("RGB_G");
    reveal_strlit("RGB_B");
    reveal_strlit("CMYK_C");
    reveal_strlit("CMYK_M");
    reveal_strlit("CMYK_Y");
    reveal_strlit("CMYK_K");
    reveal_strlit("5CLR_1");
    reveal_strlit("5CLR_2");
    reveal_strlit("5CLR_3");
    reveal_strlit("5CLR_4");
    reveal_strlit("5CLR_5");
    reveal_strlit("6CLR_1");
    reveal_strlit("6CLR_2");
    reveal_strlit("6CLR_3");
    reveal_strlit("6CLR_4");
    reveal_strlit("6CLR_5");
    reveal_strlit("6CLR_6");
    reveal_strlit("7CLR_1");
    reveal_strlit("7CLR_2");
    reveal_strlit("7CLR_3");
    reveal_strlit("7CLR_4");
    reveal_strlit("7CLR_5");
    reveal_strlit("7CLR_6");
    reveal_strlit("7CLR_7");
    reveal_strlit("8CLR_1");
    reveal_strlit("8CLR_2");
    reveal_strlit("8CLR_3");
    reveal_strlit("8CLR_4");
    reveal_strlit("8CLR_5");
    reveal_strlit("8CLR_6");
    reveal_strlit("8CLR_7");
    reveal_strlit("8CLR_8");
    reveal_strlit("LAB_L");
    reveal_strlit("LAB_A");
    reveal_strlit("LAB_B");
    reveal_strlit("LAB_C");
    reveal_strlit("LAB_H");
    reveal_strlit("XYZ_X");
    reveal_strlit("XYZ_Y");
    reveal_strlit("XYZ_Z");
    reveal_strlit("XYY_X");
    reveal_strlit("XYY_Y");
    reveal_strlit("XYY_CAPY");
    reveal_strlit("D_RED");
    reveal_strlit("D_GREEN");
    reveal_strlit("D_BLUE");
    reveal_strlit("D_VISUAL");
    reveal_strlit("D_VIS");
    assert(upper_seq("8CLR_3"@) =~= "8CLR_3"@);
    assert(upper_seq("8CLR_4"@) =~= "8CLR_4"@);
    assert(upper_seq("8CLR_5"@) =~= "8CLR_5"@);
    assert(upper_seq("8CLR_6"@) =~= "8CLR_6"@);
    assert(upper_seq("8CLR_7"@) =~= "8CLR_7"@);
    assert(upper_seq("8CLR_8"@) =~= "8CLR_8"@);
    assert(upper_seq("D_RED"@) =~= "D_RED"@);
    assert(upper_seq("D_GREEN"@) =~= "D_GREEN"@);
    assert(upper_seq("D_BLUE"@) =~= "D_BLUE"@);
    assert(upper_seq("D_VIS"@) =~= "D_VIS"@);
    assert("8CLR_3"@ != "SAMPLE"@) by {
        assert("8CLR_3"@[0int] != "SAMPLE"@[0int]);
    }
    assert("8CLR_3"@ != "CMYK_C"@) by {
        assert("8CLR_3"@[0int] != "CMYK_C"@[0int]);
    }
    assert("8CLR_3"@ != "CMYK_M"@) by {
        assert("8CLR_3"@[0int] != "CMYK_M"@[0int]);
    }
    assert("8CLR_3"@ != "CMYK_Y"@) by {
        assert("8CLR_3"@[0int] != "CMYK_Y"@[0int]);
    }
    assert("8CLR_3"@ != "CMYK_K"@) by {
        assert("8CLR_3"@[0int] != "CMYK_K"@[0int]);
    }
    assert("8CLR_3"@ != "5CLR_1"@) by {
        assert("8CLR_3"@[0int] != "5CLR_1"@[0int]);
    }
    assert("8CLR_3"@ != "5CLR_2"@) by {
        assert("8CLR_3"@[0int] != "5CLR_2"@[0int]);
    }
    assert("8CLR_3"@ != "5CLR_3"@) by {
        assert("8CLR_3"@[0int] != "5CLR_3"@[0int]);
    }
    assert("8CLR_3"@ != "5CLR_4"@) by {
        assert("8CLR_3"@[0int] != "5CLR_4"@[0int]);
    }
    assert("8CLR_3"@ != "5CLR_5"@) by {
        assert("8CLR_3"@[0int] != "5CLR_5"@[0int]);
    }
    assert("8CLR_3"@ != "6CLR_1"@) by {
        assert("8CLR_3"@[0int] != "6CLR_1"@[0int]);
    }
    assert("8CLR_3"@ != "6CLR_2"@) by {
        assert("8CLR_3"@[0int] != "6CLR_2"@[0int]);
    }
    assert("8CLR_3"@ != "6CLR_3"@) by {
        assert("8CLR_3"@[0int] != "6CLR_3"@[0int]);
    }
    assert("8CLR_3"@ != "6CLR_4"@) by {
        assert("8CLR_3"@[0int] != "6CLR_4"@[0int]);
    }
    assert("8CLR_3"@ != "6CLR_5"@) by {
        assert("8CLR_3"@[0int] != "6CLR_5"@[0int]);
    }
    assert("8CLR_3"@ != "6CLR_6"@) by {
        assert("8CLR_3"@[0int] != "6CLR_6"@[0int]);
    }
    assert("8CLR_3"@ != "7CLR_1"@) by {
        assert("8CLR_3"@[0int] != "7CLR_1"@[0int]);
    }
    assert("8CLR_3"@ != "7CLR_2"@) by {
        assert("8CLR_3"@[0int] != "7CLR_2"@[0int]);
    }
    assert("8CLR_3"@ != "7CLR_3"@) by {
        assert("8CLR_3"@[0int] != "7CLR_3"@[0int]);
    }
    assert("8CLR_3"@ != "7CLR_4"@) by {
        assert("8CLR_3"@[0int] != "7CLR_4"@[0int]);
    }
    assert("8CLR_3"@ != "7CLR_5"@) by {
        assert("8CLR_3"@[0int] != "7CLR_5"@[0int]);
    }
    assert("8CLR_3"@ != "7CLR_6"@) by {
        assert("8CLR_3"@[0int] != "7CLR_6"@[0int]);
    }
    assert("8CLR_3"@ != "7CLR_7"@) by {
        assert("8CLR_3"@[0int] != "7CLR_7"@[0int]);
    }
    assert("8CLR_3"@ != "8CLR_1"@) by {
        assert("8CLR_3"@[5int] != "8CLR_1"@[5int]);
    }
    assert("8CLR_3"@ != "8CLR_2"@) by {
        assert("8CLR_3"@[5int] != "8CLR_2"@[5int]);
    }
    assert("8CLR_4"@ != "SAMPLE"@) by {
        assert("8CLR_4"@[0int] != "SAMPLE"@[0int]);
    }
    assert("8CLR_4"@ != "CMYK_C"@) by {
        assert("8CLR_4"@[0int] != "CMYK_C"@[0int]);
    }
    assert("8CLR_4"@ != "CMYK_M"@) by {
        assert("8CLR_4"@[0int] != "CMYK_M"@[0int]);
    }
    assert("8CLR_4"@ != "CMYK_Y"@) by {
        assert("8CLR_4"@[0int] != "CMYK_Y"@[0int]);
    }
    assert("8CLR_4"@ != "CMYK_K"@) by {
        assert("8CLR_4"@[0int] != "CMYK_K"@[0int]);
    }
    assert("8CLR_4"@ != "5CLR_1"@) by {
        assert("8CLR_4"@[0int] != "5CLR_1"@[0int]);
    }
    assert("8CLR_4"@ != "5CLR_2"@) by {
        assert("8CLR_4"@[0int] != "5CLR_2"@[0int]);
    }
    assert("8CLR_4"@ != "5CLR_3"@) by {
        assert("8CLR_4"@[0int] != "5CLR_3"@[0int]);
    }
    assert("8CLR_4"@ != "5CLR_4"@) by {
        assert("8CLR_4"@[0int] != "5CLR_4"@[0int]);
    }
    assert("8CLR_4"@ != "5CLR_5"@) by {
        assert("8CLR_4"@[0int] != "5CLR_5"@[0int]);
    }
    assert("8CLR_4"@ != "6CLR_1"@) by {
        assert("8CLR_4"@[0int] != "6CLR_1"@[0int]);
    }
    assert("8CLR_4"@ != "6CLR_2"@) by {
        assert("8CLR_4"@[0int] != "6CLR_2"@[0int]);
    }
    assert("8CLR_4"@ != "6CLR_3"@) by {
        assert("8CLR_4"@[0int] != "6CLR_3"@[0int]);
    }
    assert("8CLR_4"@ != "6CLR_4"@) by {
        assert("8CLR_4"@[0int] != "6CLR_4"@[0int]);
    }
    assert("8CLR_4"@ != "6CLR_5"@) by {
        assert("8CLR_4"@[0int] != "6CLR_5"@[0int]);
    }
    assert("8CLR_4"@ != "6CLR_6"@) by {
        assert("8CLR_4"@[0int] != "6CLR_6"@[0int]);
    }
    assert("8CLR_4"@ != "7CLR_1"@) by {
        assert("8CLR_4"@[0int] != "7CLR_1"@[0int]);
    }
    assert("8CLR_4"@ != "7CLR_2"@) by {
        assert("8CLR_4"@[0int] != "7CLR_2"@[0int]);
    }
    assert("8CLR_4"@ != "7CLR_3"@) by {
        assert("8CLR_4"@[0int] != "7CLR_3"@[0int]);
    }
    assert("8CLR_4"@ != "7CLR_4"@) by {
        assert("8CLR_4"@[0int] != "7CLR_4"@[0int]);
    }
    assert("8CLR_4"@ != "7CLR_5"@) by {
        assert("8CLR_4"@[0int] != "7CLR_5"@[0int]);
    }
    assert("8CLR_4"@ != "7CLR_6"@) by {
        assert("8CLR_4"@[0int] != "7CLR_6"@[0int]);
    }
    assert("8CLR_4"@ != "7CLR_7"@) by {
        assert("8CLR_4"@[0int] != "7CLR_7"@[0int]);
    }
    assert("8CLR_4"@ != "8CLR_1"@) by {
        assert("8CLR_4"@[5int] != "8CLR_1"@[5int]);
    }
    assert("8CLR_4"@ != "8CLR_2"@) by {
        assert("8CLR_4"@[5int] != "8CLR_2"@[5int]);
    }
    assert("8CLR_4"@ != "8CLR_3"@) by {
        assert("8CLR_4"@[5int] != "8CLR_3"@[5int]);
    }
    assert("8CLR_5"@ != "SAMPLE"@) by {
        assert("8CLR_5"@[0int] != "SAMPLE"@[0int]);
    }
    assert("8CLR_5"@ != "CMYK_C"@) by {
        assert("8CLR_5"@[0int] != "CMYK_C"@[0int]);
    }
    assert("8CLR_5"@ != "CMYK_M"@) by {
        assert("8CLR_5"@[0int] != "CMYK_M"@[0int]);
    }
    assert("8CLR_5"@ != "CMYK_Y"@) by {
        assert("8CLR_5"@[0int] != "CMYK_Y"@[0int]);
    }
    assert("8CLR_5"@ != "CMYK_K"@) by {
        assert("8CLR_5"@[0int] != "CMYK_K"@[0int]);
    }
    assert("8CLR_5"@ != "5CLR_1"@) by {
        assert("8CLR_5"@[0int] != "5CLR_1"@[0int]);
    }
    assert("8CLR_5"@ != "5CLR_2"@) by {
        assert("8CLR_5"@[0int] != "5CLR_2"@[0int]);
    }
    assert("8CLR_5"@ != "5CLR_3"@) by {
        assert("8CLR_5"@[0int] != "5CLR_3"@[0int]);
    }
    assert("8CLR_5"@ != "5CLR_4"@) by {
        assert("8CLR_5"@[0int] != "5CLR_4"@[0int]);
    }
    assert("8CLR_5"@ != "5CLR_5"@) by {
        assert("8CLR_5"@[0int] != "5CLR_5"@[0int]);
    }
    assert("8CLR_5"@ != "6CLR_1"@) by {
        assert("8CLR_5"@[0int] != "6CLR_1"@[0int]);
    }
    assert("8CLR_5"@ != "6CLR_2"@) by {
        assert("8CLR_5"@[0int] != "6CLR_2"@[0int]);
    }
    assert("8CLR_5"@ != "6CLR_3"@) by {
        assert("8CLR_5"@[0int] != "6CLR_3"@[0int]);
    }
    assert("8CLR_5"@ != "6CLR_4"@) by {
        assert("8CLR_5"@[0int] != "6CLR_4"@[0int]);
    }
    assert("8CLR_5"@ != "6CLR_5"@) by {
        assert("8CLR_5"@[0int] != "6CLR_5"@[0int]);
    }
    assert("8CLR_5"@ != "6CLR_6"@) by {
        assert("8CLR_5"@[0int] != "6CLR_6"@[0int]);
    }
    assert("8CLR_5"@ != "7CLR_1"@) by {
        assert("8CLR_5"@[0int] != "7CLR_1"@[0int]);
    }
    assert("8CLR_5"@ != "7CLR_2"@) by {
        assert("8CLR_5"@[0int] != "7CLR_2"@[0int]);
    }
    assert("8CLR_5"@ != "7CLR_3"@) by {
        assert("8CLR_5"@[0int] != "7CLR_3"@[0int]);
    }
    assert("8CLR_5"@ != "7CLR_4"@) by {
        assert("8CLR_5"@[0int] != "7CLR_4"@[0int]);
    }
    assert("8CLR_5"@ != "7CLR_5"@) by {
        assert("8CLR_5"@[0int] != "7CLR_5"@[0int]);
    }
    assert("8CLR_5"@ != "7CLR_6"@) by {
        assert("8CLR_5"@[0int] != "7CLR_6"@[0int]);
    }
    assert("8CLR_5"@ != "7CLR_7"@) by {
        assert("8CLR_5"@[0int] != "7CLR_7"@[0int]);
    }
    assert("8CLR_5"@ != "8CLR_1"@) by {
        assert("8CLR_5"@[5int] != "8CLR_1"@[5int]);
    }
    assert("8CLR_5"@ != "8CLR_2"@) by {
        assert("8CLR_5"@[5int] != "8CLR_2"@[5int]);
    }
    assert("8CLR_5"@ != "8CLR_3"@) by {
        assert("8CLR_5"@[5int] != "8CLR_3"@[5int]);
    }
    assert("8CLR_5"@ != "8CLR_4"@) by {
        assert("8CLR_5"@[5int] != "8CLR_4"@[5int]);
    }
    assert("8CLR_6"@ != "SAMPLE"@) by {
        assert("8CLR_6"@[0int] != "SAMPLE"@[0int]);
    }
    assert("8CLR_6"@ != "CMYK_C"@) by {
        assert("8CLR_6"@[0int] != "CMYK_C"@[0int]);
    }
    assert("8CLR_6"@ != "CMYK_M"@) by {
        assert("8CLR_6"@[0int] != "CMYK_M"@[0int]);
    }
    assert("8CLR_6"@ != "CMYK_Y"@) by {
        assert("8CLR_6"@[0int] != "CMYK_Y"@[0int]);
    }
    assert("8CLR_6"@ != "CMYK_K"@) by {
        assert("8CLR_6"@[0int] != "CMYK_K"@[0int]);
    }
    assert("8CLR_6"@ != "5CLR_1"@) by {
        assert("8CLR_6"@[0int] != "5CLR_1"@[0int]);
    }
    assert("8CLR_6"@ != "5CLR_2"@) by {
        assert("8CLR_6"@[0int] != "5CLR_2"@[0int]);
    }
    assert("8CLR_6"@ != "5CLR_3"@) by {
        assert("8CLR_6"@[0int] != "5CLR_3"@[0int]);
    }
    assert("8CLR_6"@ != "5CLR_4"@) by {
        assert("8CLR_6"@[0int] != "5CLR_4"@[0int]);
    }
    assert("8CLR_6"@ != "5CLR_5"@) by {
        assert("8CLR_6"@[0int] != "5CLR_5"@[0int]);
    }
    assert("8CLR_6"@ != "6CLR_1"@) by {
        assert("8CLR_6"@[0int] != "6CLR_1"@[0int]);
    }
    assert("8CLR_6"@ != "6CLR_2"@) by {
        assert("8CLR_6"@[0int] != "6CLR_2"@[0int]);
    }
    assert("8CLR_6"@ != "6CLR_3"@) by {
        assert("8CLR_6"@[0int] != "6CLR_3"@[0int]);
    }
    assert("8CLR_6"@ != "6CLR_4"@) by {
        assert("8CLR_6"@[0int] != "6CLR_4"@[0int]);
    }
    assert("8CLR_6"@ != "6CLR_5"@) by {
        assert("8CLR_6"@[0int] != "6CLR_5"@[0int]);
    }
    assert("8CLR_6"@ != "6CLR_6"@) by {
        assert("8CLR_6"@[0int] != "6CLR_6"@[0int]);
    }
    assert("8CLR_6"@ != "7CLR_1"@) by {
        assert("8CLR_6"@[0int] != "7CLR_1"@[0int]);
    }
    assert("8CLR_6"@ != "7CLR_2"@) by {
        assert("8CLR_6"@[0int] != "7CLR_2"@[0int]);
    }
    assert("8CLR_6"@ != "7CLR_3"@) by {
        assert("8CLR_6"@[0int] != "7CLR_3"@[0int]);
    }
    assert("8CLR_6"@ != "7CLR_4"@) by {
        assert("8CLR_6"@[0int] != "7CLR_4"@[0int]);
    }
    assert("8CLR_6"@ != "7CLR_5"@) by {
        assert("8CLR_6"@[0int] != "7CLR_5"@[0int]);
    }
    assert("8CLR_6"@ != "7CLR_6"@) by {
        assert("8CLR_6"@[0int] != "7CLR_6"@[0int]);
    }
    assert("8CLR_6"@ != "7CLR_7"@) by {
        assert("8CLR_6"@[0int] != "7CLR_7"@[0int]);
    }
    assert("8CLR_6"@ != "8CLR_1"@) by {
        assert("8CLR_6"@[5int] != "8CLR_1"@[5int]);
    }
    assert("8CLR_6"@ != "8CLR_2"@) by {
        assert("8CLR_6"@[5int] != "8CLR_2"@[5int]);
    }
    assert("8CLR_6"@ != "8CLR_3"@) by {
        assert("8CLR_6"@[5int] != "8CLR_3"@[5int]);
    }
    assert("8CLR_6"@ != "8CLR_4"@) by {
        assert("8CLR_6"@[5int] != "8CLR_4"@[5int]);
    }
    assert("8CLR_6"@ != "8CLR_5"@) by {
        assert("8CLR_6"@[5int] != "8CLR_5"@[5int]);
    }
    assert("8CLR_7"@ != "SAMPLE"@) by {
        assert("8CLR_7"@[0int] != "SAMPLE"@[0int]);
    }
    assert("8CLR_7"@ != "CMYK_C"@) by {
        assert("8CLR_7"@[0int] != "CMYK_C"@[0int]);
    }
    assert("8CLR_7"@ != "CMYK_M"@) by {
        assert("8CLR_7"@[0int] != "CMYK_M"@[0int]);
    }
    assert("8CLR_7"@ != "CMYK_Y"@) by {
        assert("8CLR_7"@[0int] != "CMYK_Y"@[0int]);
    }
    assert("8CLR_7"@ != "CMYK_K"@) by {
        assert("8CLR_7"@[0int] != "CMYK_K"@[0int]);
    }
    assert("8CLR_7"@ != "5CLR_1"@) by {
        assert("8CLR_7"@[0int] != "5CLR_1"@[0int]);
    }
    assert("8CLR_7"@ != "5CLR_2"@) by {
        assert("8CLR_7"@[0int] != "5CLR_2"@[0int]);
    }
    assert("8CLR_7"@ != "5CLR_3"@) by {
        assert("8CLR_7"@[0int] != "5CLR_3"@[0int]);
    }
    assert("8CLR_7"@ != "5CLR_4"@) by {
        assert("8CLR_7"@[0int] != "5CLR_4"@[0int]);
    }
    assert("8CLR_7"@ != "5CLR_5"@) by {
        assert("8CLR_7"@[0int] != "5CLR_5"@[0int]);
    }
    assert("8CLR_7"@ != "6CLR_1"@) by {
        assert("8CLR_7"@[0int] != "6CLR_1"@[0int]);
    }
    assert("8CLR_7"@ != "6CLR_2"@) by {
        assert("8CLR_7"@[0int] != "6CLR_2"@[0int]);
    }
    assert("8CLR_7"@ != "6CLR_3"@) by {
        assert("8CLR_7"@[0int] != "6CLR_3"@[0int]);
    }
    assert("8CLR_7"@ != "6CLR_4"@) by {
        assert("8CLR_7"@[0int] != "6CLR_4"@[0int]);
    }
    assert("8CLR_7"@ != "6CLR_5"@) by {
        assert("8CLR_7"@[0int] != "6CLR_5"@[0int]);
    }
    assert("8CLR_7"@ != "6CLR_6"@) by {
        assert("8CLR_7"@[0int] != "6CLR_6"@[0int]);
    }
    assert("8CLR_7"@ != "7CLR_1"@) by {
        assert("8CLR_7"@[0int] != "7CLR_1"@[0int]);
    }
    assert("8CLR_7"@ != "7CLR_2"@) by {
        assert("8CLR_7"@[0int] != "7CLR_2"@[0int]);
    }
    assert("8CLR_7"@ != "7CLR_3"@) by {
        assert("8CLR_7"@[0int] != "7CLR_3"@[0int]);
    }
    assert("8CLR_7"@ != "7CLR_4"@) by {
        assert("8CLR_7"@[0int] != "7CLR_4"@[0int]);
    }
    assert("8CLR_7"@ != "7CLR_5"@) by {
        assert("8CLR_7"@[0int] != "7CLR_5"@[0int]);
    }
    assert("8CLR_7"@ != "7CLR_6"@) by {
        assert("8CLR_7"@[0int] != "7CLR_6"@[0int]);
    }
    assert("8CLR_7"@ != "7CLR_7"@) by {
        assert("8CLR_7"@[0int] != "7CLR_7"@[0int]);
    }
    assert("8CLR_7"@ != "8CLR_1"@) by {
        assert("8CLR_7"@[5int] != "8CLR_1"@[5int]);
    }
    assert("8CLR_7"@ != "8CLR_2"@) by {
        assert("8CLR_7"@[5int] != "8CLR_2"@[5int]);
    }
    assert("8CLR_7"@ != "8CLR_3"@) by {
        assert("8CLR_7"@[5int] != "8CLR_3"@[5int]);
    }
    assert("8CLR_7"@ != "8CLR_4"@) by {
        assert("8CLR_7"@[5int] != "8CLR_4"@[5int]);
    }
    assert("8CLR_7"@ != "8CLR_5"@) by {
        assert("8CLR_7"@[5int] != "8CLR_5"@[5int]);
    }
    assert("8CLR_7"@ != "8CLR_6"@) by {
        assert("8CLR_7"@[5int] != "8CLR_6"@[5int]);
    }
    assert("8CLR_8"@ != "SAMPLE"@) by {
        assert("8CLR_8"@[0int] != "SAMPLE"@[0int]);
    }
    assert("8CLR_8"@ != "CMYK_C"@) by {
        assert("8CLR_8"@[0int] != "CMYK_C"@[0int]);
    }
    assert("8CLR_8"@ != "CMYK_M"@) by {
        assert("8CLR_8"@[0int] != "CMYK_M"@[0int]);
    }
    assert("8CLR_8"@ != "CMYK_Y"@) by {
        assert("8CLR_8"@[0int] != "CMYK_Y"@[0int]);
    }
    assert("8CLR_8"@ != "CMYK_K"@) by {
        assert("8CLR_8"@[0int] != "CMYK_K"@[0int]);
    }
    assert("8CLR_8"@ != "5CLR_1"@) by {
        assert("8CLR_8"@[0int] != "5CLR_1"@[0int]);
    }
    assert("8CLR_8"@ != "5CLR_2"@) by {
        assert("8CLR_8"@[0int] != "5CLR_2"@[0int]);
    }
    assert("8CLR_8"@ != "5CLR_3"@) by {
        assert("8CLR_8"@[0int] != "5CLR_3"@[0int]);
    }
    assert("8CLR_8"@ != "5CLR_4"@) by {
        assert("8CLR_8"@[0int] != "5CLR_4"@[0int]);
    }
    assert("8CLR_8"@ != "5CLR_5"@) by {
        assert("8CLR_8"@[0int] != "5CLR_5"@[0int]);
    }
    assert("8CLR_8"@ != "6CLR_1"@) by {
        assert("8CLR_8"@[0int] != "6CLR_1"@[0int]);
    }
    assert("8CLR_8"@ != "6CLR_2"@) by {
        assert("8CLR_8"@[0int] != "6CLR_2"@[0int]);
    }
    assert("8CLR_8"@ != "6CLR_3"@) by {
        assert("8CLR_8"@[0int] != "6CLR_3"@[0int]);
    }
    assert("8CLR_8"@ != "6CLR_4"@) by {
        assert("8CLR_8"@[0int] != "6CLR_4"@[0int]);
    }
    assert("8CLR_8"@ != "6CLR_5"@) by {
        assert("8CLR_8"@[0int] != "6CLR_5"@[0int]);
    }
    assert("8CLR_8"@ != "6CLR_6"@) by {
        assert("8CLR_8"@[0int] != "6CLR_6"@[0int]);
    }
    assert("8CLR_8"@ != "7CLR_1"@) by {
        assert("8CLR_8"@[0int] != "7CLR_1"@[0int]);
    }
    assert("8CLR_8"@ != "7CLR_2"@) by {
        assert("8CLR_8"@[0int] != "7CLR_2"@[0int]);
    }
    assert("8CLR_8"@ != "7CLR_3"@) by {
        assert("8CLR_8"@[0int] != "7CLR_3"@[0int]);
    }
    assert("8CLR_8"@ != "7CLR_4"@) by {
        assert("8CLR_8"@[0int] != "7CLR_4"@[0int]);
    }
    assert("8CLR_8"@ != "7CLR_5"@) by {
        assert("8CLR_8"@[0int] != "7CLR_5"@[0int]);
    }
    assert("8CLR_8"@ != "7CLR_6"@) by {
        assert("8CLR_8"@[0int] != "7CLR_6"@[0int]);
    }
    assert("8CLR_8"@ != "7CLR_7"@) by {
        assert("8CLR_8"@[0int] != "7CLR_7"@[0int]);
    }
    assert("8CLR_8"@ != "8CLR_1"@) by {
        assert("8CLR_8"@[5int] != "8CLR_1"@[5int]);
    }
    assert("8CLR_8"@ != "8CLR_2"@) by {
        assert("8CLR_8"@[5int] != "8CLR_2"@[5int]);
    }
    assert("8CLR_8"@ != "8CLR_3"@) by {
        assert("8CLR_8"@[5int] != "8CLR_3"@[5int]);
    }
    assert("8CLR_8"@ != "8CLR_4"@) by {
        assert("8CLR_8"@[5int] != "8CLR_4"@[5int]);
    }
    assert("8CLR_8"@ != "8CLR_5"@) by {
        assert("8CLR_8"@[5int] != "8CLR_5"@[5int]);
    }
    assert("8CLR_8"@ != "8CLR_6"@) by {
        assert("8CLR_8"@[5int] != "8CLR_6"@[5int]);
    }
    assert("8CLR_8"@ != "8CLR_7"@) by {
        assert("8CLR_8"@[5int] != "8CLR_7"@[5int]);
    }
    assert("D_RED"@ != "BLANK"@) by {
        assert("D_RED"@[0int] != "BLANK"@[0int]);
    }
    assert("D_RED"@ != "RGB_R"@) by {
        assert("D_RED"@[0int] != "RGB_R"@[0int]);
    }
    assert("D_RED"@ != "RGB_G"@) by {
        assert("D_RED"@[0int] != "RGB_G"@[0int]);
    }
    assert("D_RED"@ != "RGB_B"@) by {
        assert("D_RED"@[0int] != "RGB_B"@[0int]);
    }
    assert("D_RED"@ != "LAB_L"@) by {
        assert("D_RED"@[0int] != "LAB_L"@[0int]);
    }
    assert("D_RED"@ != "LAB_A"@) by {
        assert("D_RED"@[0int] != "LAB_A"@[0int]);
    }
    assert("D_RED"@ != "LAB_B"@) by {
        assert("D_RED"@[0int] != "LAB_B"@[0int]);
    }
    assert("D_RED"@ != "LAB_C"@) by {
        assert("D_RED"@[0int] != "LAB_C"@[0int]);
    }
    assert("D_RED"@ != "LAB_H"@) by {
        assert("D_RED"@[0int] != "LAB_H"@[0int]);
    }
    assert("D_RED"@ != "XYZ_X"@) by {
        assert("D_RED"@[0int] != "XYZ_X"@[0int]);
    }
    assert("D_RED"@ != "XYZ_Y"@) by {
        assert("D_RED"@[0int] != "XYZ_Y"@[0int]);
    }
    assert("D_RED"@ != "XYZ_Z"@) by {
        assert("D_RED"@[0int] != "XYZ_Z"@[0int]);
    }
    assert("D_RED"@ != "XYY_X"@) by {
        assert("D_RED"@[0int] != "XYY_X"@[0int]);
    }
    assert("D_RED"@ != "XYY_Y"@) by {
        assert("D_RED"@[0int] != "XYY_Y"@[0int]);
    }
    assert("D_BLUE"@ != "SAMPLE"@) by {
        assert("D_BLUE"@[0int] != "SAMPLE"@[0int]);
    }
    assert("D_BLUE"@ != "CMYK_C"@) by {
        assert("D_BLUE"@[0int] != "CMYK_C"@[0int]);
    }
    assert("D_BLUE"@ != "CMYK_M"@) by {
        assert("D_BLUE"@[0int] != "CMYK_M"@[0int]);
    }
    assert("D_BLUE"@ != "CMYK_Y"@) by {
        assert("D_BLUE"@[0int] != "CMYK_Y"@[0int]);
    }
    assert("D_BLUE"@ != "CMYK_K"@) by {
        assert("D_BLUE"@[0int] != "CMYK_K"@[0int]);
    }
    assert("D_BLUE"@ != "5CLR_1"@) by {
        assert("D_BLUE"@[0int] != "5CLR_1"@[0int]);
    }
    assert("D_BLUE"@ != "5CLR_2"@) by {
        assert("D_BLUE"@[0int] != "5CLR_2"@[0int]);
    }
    assert("D_BLUE"@ != "5CLR_3"@) by {
        assert("D_BLUE"@[0int] != "5CLR_3"@[0int]);
    }
    assert("D_BLUE"@ != "5CLR_4"@) by {
        assert("D_BLUE"@[0int] != "5CLR_4"@[0int]);
    }
    assert("D_BLUE"@ != "5CLR_5"@) by {
        assert("D_BLUE"@[0int] != "5CLR_5"@[0int]);
    }
    assert("D_BLUE"@ != "6CLR_1"@) by {
        assert("D_BLUE"@[0int] != "6CLR_1"@[0int]);
    }
    assert("D_BLUE"@ != "6CLR_2"@) by {
        assert("D_BLUE"@[0int] != "6CLR_2"@[0int]);
    }
    assert("D_BLUE"@ != "6CLR_3"@) by {
        assert("D_BLUE"@[0int] != "6CLR_3"@[0int]);
    }
    assert("D_BLUE"@ != "6CLR_4"@) by {
        assert("D_BLUE"@[0int] != "6CLR_4"@[0int]);
    }
    assert("D_BLUE"@ != "6CLR_5"@) by {
        assert("D_BLUE"@[0int] != "6CLR_5"@[0int]);
    }
    assert("D_BLUE"@ != "6CLR_6"@) by {
        assert("D_BLUE"@[0int] != "6CLR_6"@[0int]);
    }
    assert("D_BLUE"@ != "7CLR_1"@) by {
        assert("D_BLUE"@[0int] != "7CLR_1"@[0int]);
    }
    assert("D_BLUE"@ != "7CLR_2"@) by {
        assert("D_BLUE"@[0int] != "7CLR_2"@[0int]);
    }
    assert("D_BLUE"@ != "7CLR_3"@) by {
        assert("D_BLUE"@[0int] != "7CLR_3"@[0int]);
    }
    assert("D_BLUE"@ != "7CLR_4"@) by {
        assert("D_BLUE"@[0int] != "7CLR_4"@[0int]);
    }
    assert("D_BLUE"@ != "7CLR_5"@) by {
        assert("D_BLUE"@[0int] != "7CLR_5"@[0int]);
    }
    assert("D_BLUE"@ != "7CLR_6"@) by {
        assert("D_BLUE"@[0int] != "7CLR_6"@[0int]);
    }
    assert("D_BLUE"@ != "7CLR_7"@) by {
        assert("D_BLUE"@[0int] != "7CLR_7"@[0int]);
    }
    assert("D_BLUE"@ != "8CLR_1"@) by {
        assert("D_BLUE"@[0int] != "8CLR_1"@[0int]);
    }
    assert("D_BLUE"@ != "8CLR_2"@) by {
        assert("D_BLUE"@[0int] != "8CLR_2"@[0int]);
    }
    assert("D_BLUE"@ != "8CLR_3"@) by {
        assert("D_BLUE"@[0int] != "8CLR_3"@[0int]);
    }
    assert("D_BLUE"@ != "8CLR_4"@) by {
        assert("D_BLUE"@[0int] != "8CLR_4"@[0int]);
    }
    assert("D_BLUE"@ != "8CLR_5"@) by {
        assert("D_BLUE"@[0int] != "8CLR_5"@[0int]);
    }
    assert("D_BLUE"@ != "8CLR_6"@) by {
        assert("D_BLUE"@[0int] != "8CLR_6"@[0int]);
    }
    assert("D_BLUE"@ != "8CLR_7"@) by {
        assert("D_BLUE"@[0int] != "8CLR_7"@[0int]);
    }
    assert("D_BLUE"@ != "8CLR_8"@) by {
        assert("D_BLUE"@[0int] != "8CLR_8"@[0int]);
    }
    assert("D_VIS"@ != "BLANK"@) by {
        assert("D_VIS"@[0int] != "BLANK"@[0int]);
    }
    assert("D_VIS"@ != "RGB_R"@) by {
        assert("D_VIS"@[0int] != "RGB_R"@[0int]);
    }
    assert("D_VIS"@ != "RGB_G"@) by {
        assert("D_VIS"@[0int] != "RGB_G"@[0int]);
    }
    assert("D_VIS"@ != "RGB_B"@) by {
        assert("D_VIS"@[0int] != "RGB_B"@[0int]);
    }
    assert("D_VIS"@ != "LAB_L"@) by {
        assert("D_VIS"@[0int] != "LAB_L"@[0int]);
    }
    assert("D_VIS"@ != "LAB_A"@) by {
        assert("D_VIS"@[0int] != "LAB_A"@[0int]);
    }
    assert("D_VIS"@ != "LAB_B"@) by {
        assert("D_VIS"@[0int] != "LAB_B"@[0int]);
    }
    assert("D_VIS"@ != "LAB_C"@) by {
        assert("D_VIS"@[0int] != "LAB_C"@[0int]);
    }
    assert("D_VIS"@ != "LAB_H"@) by {
        assert("D_VIS"@[0int] != "LAB_H"@[0int]);
    }
    assert("D_VIS"@ != "XYZ_X"@) by {
        assert("D_VIS"@[0int] != "XYZ_X"@[0int]);
    }
    assert("D_VIS"@ != "XYZ_Y"@) by {
        assert("D_VIS"@[0int] != "XYZ_Y"@[0int]);
    }
    assert("D_VIS"@ != "XYZ_Z"@) by {
        assert("D_VIS"@[0int] != "XYZ_Z"@[0int]);
    }
    assert("D_VIS"@ != "XYY_X"@) by {
        assert("D_VIS"@[0int] != "XYY_X"@[0int]);
    }
    assert("D_VIS"@ != "XYY_Y"@) by {
        assert("D_VIS"@[0int] != "XYY_Y"@[0int]);
    }
    assert("D_VIS"@ != "D_RED"@) by {
        assert("D_VIS"@[2int] != "D_RED"@[2int]);
    }
}

#[verifier::spinoff_prover]
#[verifier::rlimit(100)]
proof fn lemma_round_trip_chunk_4()
    ensures
        field_of(field_name(Field::LAB_L)) == Some(Field::LAB_L),
        field_of(field_name(Field::LAB_A)) == Some(Field::LAB_A),
        field_of(field_name(Field::LAB_B)) == Some(Field::LAB_B),
        field_of(field_name(Field::LAB_C)) == Some(Field::LAB_C),
        field_of(field_name(Field::LAB_H)) == Some(Field::LAB_H),
        field_of(field_name(Field::DE_1976)) == Some(Field::DE_1976),
        field_of(field_name(Field::DE_1994)) == Some(Field::DE_1994),
        field_of(field_name(Field::DE_1994T)) == Some(Field::DE_1994T),
        field_of(field_name(Field::DE_CMC)) == Some(Field::DE_CMC),
        field_of(field_name(Field::DE_CMC2)) == Some(Field::DE_CMC2),
{
    reveal_strlit("SAMPLE_ID");
    reveal_strlit("SAMPLEID");
    reveal_strlit("SAMPLE");
    reveal_strlit("SAMPLE_NAME");
    reveal_strlit("SAMPLENAME");
    reveal_strlit("");
    reveal_strlit("BLANK");
    reveal_strlit("RGB_R");
    reveal_strlit("RGB_G");
    reveal_strlit("RGB_B");
    reveal_strlit("CMYK_C");
    reveal_strlit("CMYK_M");
    reveal_strlit("CMYK_Y");
    reveal_strlit("CMYK_K");
    reveal_strlit("5CLR_1");
    reveal_strlit("5CLR_2");
    reveal_strlit("5CLR_3");
    reveal_strlit("5CLR_4");
    reveal_strlit("5CLR_5");
    reveal_strlit("6CLR_1");
    reveal_strlit("6CLR_2");
    reveal_strlit("6CLR_3");
    reveal_strlit("6CLR_4");
    reveal_strlit("6CLR_5");
    reveal_strlit("6CLR_6");
    reveal_strlit("7CLR_1");
    reveal_strlit("7CLR_2");
    reveal_strlit("7CLR_3");
    reveal_strlit("7CLR_4");
    reveal_strlit("7CLR_5");
    reveal_strlit("7CLR_6");
    reveal_strlit("7CLR_7");
    reveal_strlit("8CLR_1");
    reveal_strlit("8CLR_2");
    reveal_strlit("8CLR_3");
    reveal_strlit("8CLR_4");
    reveal_strlit("8CLR_5");
    reveal_strlit("8CLR_6");
    reveal_strlit("8CLR_7");
    reveal_strlit("8CLR_8");
    reveal_strlit("LAB_L");
    reveal_strlit("LAB_A");
    reveal_strlit("LAB_B");
    reveal_strlit("LAB_C");
    reveal_strlit("LAB_H");
    reveal_strlit("XYZ_X");
    reveal_strlit("XYZ_Y");
    reveal_strlit("XYZ_Z");
    reveal_strlit("XYY_X");
    reveal_strlit("XYY_Y");
    reveal_strlit("XYY_CAPY");
    reveal_strlit("D_RED");
    reveal_strlit("D_GREEN");
    reveal_strlit("D_BLUE");
    reveal_strlit("D_VISUAL");
    reveal_strlit("D_VIS");
    reveal_strlit("LAB_DE");
    reveal_strlit("DE1976");
    reveal_strlit("DE76");
    reveal_strlit("DE");
    reveal_strlit("DE_76");
    reveal_strlit("DE_1976");
    reveal_strlit("LAB_DE_1994");
    reveal_strlit("DE1994");
    reveal_strlit("DE94");
    reveal_strlit("DE1994G");
    reveal_strlit("DE94G");
    reveal_strlit("DE94_G");
    reveal_strlit("DE_1994");
    reveal_strlit("DE_94");
    reveal_strlit("DE_1994G");
    reveal_strlit("DE_1994_G");
    reveal_strlit("DE_94G");
    reveal_strlit("DE_94_G");
    reveal_strlit("LAB_DE_1994T");
    reveal_strlit("DE1994T");
    reveal_strlit("DE94T");
    reveal_strlit("DE_1994_T");
    reveal_strlit("DE_94T");
    reveal_strlit("DE_1994T");
    reveal_strlit("DE_94_T");
    reveal_strlit("DE94_T");
    reveal_strlit("LAB_DE_CMC");
    reveal_strlit("DECMC");
    reveal_strlit("DECMC1");
    reveal_strlit("CMC");
    reveal_strlit("CMC 1:1");
    reveal_strlit("DE_CMC1");
    reveal_strlit("DE_CMC_1");
    reveal_strlit("DE_CMC");
    reveal_strlit("LAB_DE_CMC2");
    reveal_strlit("DECMC2");
    reveal_strlit("CMC2");
    reveal_strlit("CMC 2:1");
    reveal_strlit("DE_CMC_2");
    reveal_strlit("DE_CMC2");
    reveal_strlit("DE_CMC 2:1");
    reveal_strlit("DECMC_2");
    assert(upper_seq("LAB_L"@) =~= "LAB_L"@);
    assert(upper_seq("LAB_A"@) =~= "LAB_A"@);
    assert(upper_seq("LAB_B"@) =~= "LAB_B"@);
    assert(upper_seq("LAB_C"@) =~= "LAB_C"@);
    assert(upper_seq("LAB_H"@) =~= "LAB_H"@);
    assert(upper_seq("DE_1976"@) =~= "DE_1976"@);
    assert(upper_seq("DE_1994"@) =~= "DE_1994"@);
    assert(upper_seq("DE_1994T"@) =~= "DE_1994T"@);
    assert(upper_seq("DE_CMC"@) =~= "DE_CMC"@);
    assert(upper_seq("DE_CMC2"@) =~= "DE_CMC2"@);
    assert("LAB_L"@ != "BLANK"@) by {
        assert("LAB_L"@[0int] != "BLANK"@[0int]);
    }
    assert("LAB_L"@ != "RGB_R"@) by {
        assert("LAB_L"@[0int] != "RGB_R"@[0int]);
    }
    assert("LAB_L"@ != "RGB_G"@) by {
        assert("LAB_L"@[0int] != "RGB_G"@[0int]);
    }
    assert("LAB_L"@ != "RGB_B"@) by {
        assert("LAB_L"@[0int] != "RGB_B"@[0int]);
    }
    assert("LAB_A"@ != "BLANK"@) by {
        assert("LAB_A"@[0int] != "BLANK"@[0int]);
    }
    assert("LAB_A"@ != "RGB_R"@) by {
        assert("LAB_A"@[0int] != "RGB_R"@[0int]);
    }
    assert("LAB_A"@ != "RGB_G"@) by {
        assert("LAB_A"@[0int] != "RGB_G"@[0int]);
    }
    assert("LAB_A"@ != "RGB_B"@) by {
        assert("LAB_A"@[0int] != "RGB_B"@[0int]);
    }
    assert("LAB_A"@ != "LAB_L"@) by {
        assert("LAB_A"@[4int] != "LAB_L"@[4int]);
    }
    assert("LAB_B"@ != "BLANK"@) by {
        assert("LAB_B"@[0int] != "BLANK"@[0int]);
    }
    assert("LAB_B"@ != "RGB_R"@) by {
        assert("LAB_B"@[0int] != "RGB_R"@[0int]);
    }
    assert("LAB_B"@ != "RGB_G"@) by {
        assert("LAB_B"@[0int] != "RGB_G"@[0int]);
    }
    assert("LAB_B"@ != "RGB_B"@) by {
        assert("LAB_B"@[0int] != "RGB_B"@[0int]);
    }
    assert("LAB_B"@ != "LAB_L"@) by {
        assert("LAB_B"@[4int] != "LAB_L"@[4int]);
    }
    assert("LAB_B"@ != "LAB_A"@) by {
        assert("LAB_B"@[4int] != "LAB_A"@[4int]);
    }
    assert("LAB_C"@ != "BLANK"@) by {
        assert("LAB_C"@[0int] != "BLANK"@[0int]);
    }
    assert("LAB_C"@ != "RGB_R"@) by {
        assert("LAB_C"@[0int] != "RGB_R"@[0int]);
    }
    assert("LAB_C"@ != "RGB_G"@) by {
        assert("LAB_C"@[0int] != "RGB_G"@[0int]);
    }
    assert("LAB_C"@ != "RGB_B"@) by {
        assert("LAB_C"@[0int] != "RGB_B"@[0int]);
    }
    assert("LAB_C"@ != "LAB_L"@) by {
        assert("LAB_C"@[4int] != "LAB_L"@[4int]);
    }
    assert("LAB_C"@ != "LAB_A"@) by {
        assert("LAB_C"@[4int] != "LAB_A"@[4int]);
    }
    assert("LAB_C"@ != "LAB_B"@) by {
        assert("LAB_C"@[4int] != "LAB_B"@[4int]);
    }
    assert("LAB_H"@ != "BLANK"@) by {
        assert("LAB_H"@[0int] != "BLANK"@[0int]);
    }
    assert("LAB_H"@ != "RGB_R"@) by {
        assert("LAB_H"@[0int] != "RGB_R"@[0int]);
    }
    assert("LAB_H"@ != "RGB_G"@) by {
        assert("LAB_H"@[0int] != "RGB_G"@[0int]);
    }
    assert("LAB_H"@ != "RGB_B"@) by {
        assert("LAB_H"@[0int] != "RGB_B"@[0int]);
    }
    assert("LAB_H"@ != "LAB_L"@) by {
        assert("LAB_H"@[4int] != "LAB_L"@[4int]);
    }
    assert("LAB_H"@ != "LAB_A"@) by {
        assert("LAB_H"@[4int] != "LAB_A"@[4int]);
    }
    assert("LAB_H"@ != "LAB_B"@) by {
        assert("LAB_H"@[4int] != "LAB_B"@[4int]);
    }
    assert("LAB_H"@ != "LAB_C"@) by {
        assert("LAB_H"@[4int] != "LAB_C"@[4int]);
    }
    assert("DE_1976"@ != "D_GREEN"@) by {
        assert("DE_1976"@[1int] != "D_GREEN"@[1int]);
    }
    assert("DE_1994"@ != "D_GREEN"@) by {
        assert("DE_1994"@[1int] != "D_GREEN"@[1int]);
    }
    assert("DE_1994"@ != "DE_1976"@) by {
        assert("DE_1994"@[5int] != "DE_1976"@[5int]);
    }
    assert("DE_1994T"@ != "SAMPLEID"@) by {
        assert("DE_1994T"@[0int] != "SAMPLEID"@[0int]);
    }
    assert("DE_1994T"@ != "XYY_CAPY"@) by {
        assert("DE_1994T"@[0int] != "XYY_CAPY"@[0int]);
    }
    assert("DE_1994T"@ != "D_VISUAL"@) by {
        assert("DE_1994T"@[1int] != "D_VISUAL"@[1int]);
    }
    assert("DE_1994T"@ != "DE_1994G"@) by {
        assert("DE_1994T"@[7int] != "DE_1994G"@[7int]);
    }
    assert("DE_CMC"@ != "SAMPLE"@) by {
        assert("DE_CMC"@[0int] != "SAMPLE"@[0int]);
    }
    assert("DE_CMC"@ != "CMYK_C"@) by {
        assert("DE_CMC"@[0int] != "CMYK_C"@[0int]);
    }
    assert("DE_CMC"@ != "CMYK_M"@) by {
        assert("DE_CMC"@[0int] != "CMYK_M"@[0int]);
    }
    assert("DE_CMC"@ != "CMYK_Y"@) by {
        assert("DE_CMC"@[0int] != "CMYK_Y"@[0int]);
    }
    assert("DE_CMC"@ != "CMYK_K"@) by {
        assert("DE_CMC"@[0int] != "CMYK_K"@[0int]);
    }
    assert("DE_CMC"@ != "5CLR_1"@) by {
        assert("DE_CMC"@[0int] != "5CLR_1"@[0int]);
    }
    assert("DE_CMC"@ != "5CLR_2"@) by {
        assert("DE_CMC"@[0int] != "5CLR_2"@[0int]);
    }
    assert("DE_CMC"@ != "5CLR_3"@) by {
        assert("DE_CMC"@[0int] != "5CLR_3"@[0int]);
    }
    assert("DE_CMC"@ != "5CLR_4"@) by {
        assert("DE_CMC"@[0int] != "5CLR_4"@[0int]);
    }
    assert("DE_CMC"@ != "5CLR_5"@) by {
        assert("DE_CMC"@[0int] != "5CLR_5"@[0int]);
    }
    assert("DE_CMC"@ != "6CLR_1"@) by {
        assert("DE_CMC"@[0int] != "6CLR_1"@[0int]);
    }
    assert("DE_CMC"@ != "6CLR_2"@) by {
        assert("DE_CMC"@[0int] != "6CLR_2"@[0int]);
    }
    assert("DE_CMC"@ != "6CLR_3"@) by {
        assert("DE_CMC"@[0int] != "6CLR_3"@[0int]);
    }
    assert("DE_CMC"@ != "6CLR_4"@) by {
        assert("DE_CMC"@[0int] != "6CLR_4"@[0int]);
    }
    assert("DE_CMC"@ != "6CLR_5"@) by {
        assert("DE_CMC"@[0int] != "6CLR_5"@[0int]);
    }
    assert("DE_CMC"@ != "6CLR_6"@) by {
        assert("DE_CMC"@[0int] != "6CLR_6"@[0int]);
    }
    assert("DE_CMC"@ != "7CLR_1"@) by {
        assert("DE_CMC"@[0int] != "7CLR_1"@[0int]);
    }
    assert("DE_CMC"@ != "7CLR_2"@) by {
        assert("DE_CMC"@[0int] != "7CLR_2"@[0int]);
    }
    assert("DE_CMC"@ != "7CLR_3"@) by {
        assert("DE_CMC"@[0int] != "7CLR_3"@[0int]);
    }
    assert("DE_CMC"@ != "7CLR_4"@) by {
        assert("DE_CMC"@[0int] != "7CLR_4"@[0int]);
    }
    assert("DE_CMC"@ != "7CLR_5"@) by {
        assert("DE_CMC"@[0int] != "7CLR_5"@[0int]);
    }
    assert("DE_CMC"@ != "7CLR_6"@) by {
        assert("DE_CMC"@[0int] != "7CLR_6"@[0int]);
    }
    assert("DE_CMC"@ != "7CLR_7"@) by {
        assert("DE_CMC"@[0int] != "7CLR_7"@[0int]);
    }
    assert("DE_CMC"@ != "8CLR_1"@) by {
        assert("DE_CMC"@[0int] != "8CLR_1"@[0int]);
    }
    assert("DE_CMC"@ != "8CLR_2"@) by {
        assert("DE_CMC"@[0int] != "8CLR_2"@[0int]);
    }
    assert("DE_CMC"@ != "8CLR_3"@) by {
        assert("DE_CMC"@[0int] != "8CLR_3"@[0int]);
    }
    assert("DE_CMC"@ != "8CLR_4"@) by {
        assert("DE_CMC"@[0int] != "8CLR_4"@[0int]);
    }
    assert("DE_CMC"@ != "8CLR_5"@) by {
        assert("DE_CMC"@[0int] != "8CLR_5"@[0int]);
    }
    assert("DE_CMC"@ != "8CLR_6"@) by {
        assert("DE_CMC"@[0int] != "8CLR_6"@[0int]);
    }
    assert("DE_CMC"@ != "8CLR_7"@) by {
        assert("DE_CMC"@[0int] != "8CLR_7"@[0int]);
    }
    assert("DE_CMC"@ != "8CLR_8"@) by {
        assert("DE_CMC"@[0int] != "8CLR_8"@[0int]);
    }
    assert("DE_CMC"@ != "D_BLUE"@) by {
        assert("DE_CMC"@[1int] != "D_BLUE"@[1int]);
    }
    assert("DE_CMC"@ != "LAB_DE"@) by {
        assert("DE_CMC"@[0int] != "LAB_DE"@[0int]);
    }
    assert("DE_CMC"@ != "DE1976"@) by {
        assert("DE_CMC"@[2int] != "DE1976"@[2int]);
    }
    assert("DE_CMC"@ != "DE1994"@) by {
        assert("DE_CMC"@[2int] != "DE1994"@[2int]);
    }
    assert("DE_CMC"@ != "DE94_G"@) by {
        assert("DE_CMC"@[2int] != "DE94_G"@[2int]);
    }
    assert("DE_CMC"@ != "DE_94G"@) by {
        assert("DE_CMC"@[3int] != "DE_94G"@[3int]);
    }
    assert("DE_CMC"@ != "DE_94T"@) by {
        assert("DE_CMC"@[3int] != "DE_94T"@[3int]);
    }
    assert("DE_CMC"@ != "DE94_T"@) by {
        assert("DE_CMC"@[2int] != "DE94_T"@[2int]);
    }
    assert("DE_CMC2"@ != "D_GREEN"@) by {
        assert("DE_CMC2"@[1int] != "D_GREEN"@[1int]);
    }
    assert("DE_CMC2"@ != "DE_1976"@) by {
        assert("DE_CMC2"@[3int] != "DE_1976"@[3int]);
    }
    assert("DE_CMC2"@ != "DE1994G"@) by {
        assert("DE_CMC2"@[2int] != "DE1994G"@[2int]);
    }
    assert("DE_CMC2"@ != "DE_1994"@) by {
        assert("DE_CMC2"@[3int] != "DE_1994"@[3int]);
    }
    assert("DE_CMC2"@ != "DE_94_G"@) by {
        assert("DE_CMC2"@[3int] != "DE_94_G"@[3int]);
    }
    assert("DE_CMC2"@ != "DE1994T"@) by {
        assert("DE_CMC2"@[2int] != "DE1994T"@[2int]);
    }
    assert("DE_CMC2"@ != "DE_94_T"@) by {
        assert("DE_CMC2"@[3int] != "DE_94_T"@[3int]);
    }
    assert("DE_CMC2"@ != "CMC 1:1"@) by {
        assert("DE_CMC2"@[0int] != "CMC 1:1"@[0int]);
    }
    assert("DE_CMC2"@ != "DE_CMC1"@) by {
        assert("DE_CMC2"@[6int] != "DE_CMC1"@[6int]);
    }
}

#[verifier::spinoff_prover]
#[verifier::rlimit(100)]
proof fn lemma_round_trip_chunk_5()
    ensures
        field_of(field_name(Field::DE_2000)) == Some(Field::DE_2000),
        field_of(field_name(Field::XYZ_X)) == Some(Field::XYZ_X),
        field_of(field_name(Field::XYZ_Y)) == Some(Field::XYZ_Y),
        field_of(field_name(Field::XYZ_Z)) == Some(Field::XYZ_Z),
        field_of(field_name(Field::XYY_X)) == Some(Field::XYY_X),
        field_of(field_name(Field::XYY_Y)) == Some(Field::XYY_Y),
        field_of(field_name(Field::XYY_CAPY)) == Some(Field::XYY_CAPY),
        field_of(field_name(Field::SPECTRAL_340)) == Some(Field::SPECTRAL_340),
        field_of(field_name(Field::SPECTRAL_350)) == Some(Field::SPECTRAL_350),
        field_of(field_name(Field::SPECTRAL_360)) == Some(Field::SPECTRAL_360),
{
    reveal_strlit("SAMPLE_ID");
    reveal_strlit("SAMPLEID");
    reveal_strlit("SAMPLE");
    reveal_strlit("SAMPLE_NAME");
    reveal_strlit("SAMPLENAME");
    reveal_strlit("");
    reveal_strlit("BLANK");
    reveal_strlit("RGB_R");
    reveal_strlit("RGB_G");
    reveal_strlit("RGB_B");
    reveal_strlit("CMYK_C");
    reveal_strlit("CMYK_M");
    reveal_strlit("CMYK_Y");
    reveal_strlit("CMYK_K");
    reveal_strlit("5CLR_1");
    reveal_strlit("5CLR_2");
    reveal_strlit("5CLR_3");
    reveal_strlit("5CLR_4");
    reveal_strlit("5CLR_5");
    reveal_strlit("6CLR_1");
    reveal_strlit("6CLR_2");
    reveal_strlit("6CLR_3");
    reveal_strlit("6CLR_4");
    reveal_strlit("6CLR_5");
    reveal_strlit("6CLR_6");
    reveal_strlit("7CLR_1");
    reveal_strlit("7CLR_2");
    reveal_strlit("7CLR_3");
    reveal_strlit("7CLR_4");
    reveal_strlit("7CLR_5");
    reveal_strlit("7CLR_6");
    reveal_strlit("7CLR_7");
    reveal_strlit("8CLR_1");
    reveal_strlit("8CLR_2");
    reveal_strlit("8CLR_3");
    reveal_strlit("8CLR_4");
    reveal_strlit("8CLR_5");
    reveal_strlit("8CLR_6");
    reveal_strlit("8CLR_7");
    reveal_strlit("8CLR_8");
    reveal_strlit("LAB_L");
    reveal_strlit("LAB_A");
    reveal_strlit("LAB_B");
    reveal_strlit("LAB_C");
    reveal_strlit("LAB_H");
    reveal_strlit("XYZ_X");
    reveal_strlit("XYZ_Y");
    reveal_strlit("XYZ_Z");
    reveal_strlit("XYY_X");
    reveal_strlit("XYY_Y");
    reveal_strlit("XYY_CAPY");
    reveal_strlit("D_RED");
    reveal_strlit("D_GREEN");
    reveal_strlit("D_BLUE");
    reveal_strlit("D_VISUAL");
    reveal_strlit("D_VIS");
    reveal_strlit("LAB_DE");
    reveal_strlit("DE1976");
    reveal_strlit("DE76");
    reveal_strlit("DE");
    reveal_strlit("DE_76");
    reveal_strlit("DE_1976");
    reveal_strlit("LAB_DE_1994");
    reveal_strlit("DE1994");
    reveal_strlit("DE94");
    reveal_strlit("DE1994G");
    reveal_strlit("DE94G");
    reveal_strlit("DE94_G");
    reveal_strlit("DE_1994");
    reveal_strlit("DE_94");
    reveal_strlit("DE_1994G");
    reveal_strlit("DE_1994_G");
    reveal_strlit("DE_94G");
    reveal_strlit("DE_94_G");
    reveal_strlit("LAB_DE_1994T");
    reveal_strlit("DE1994T");
    reveal_strlit("DE94T");
    reveal_strlit("DE_1994_T");
    reveal_strlit("DE_94T");
    reveal_strlit("DE_1994T");
    reveal_strlit("DE_94_T");
    reveal_strlit("DE94_T");
    reveal_strlit("LAB_DE_CMC");
    reveal_strlit("DECMC");
    reveal_strlit("DECMC1");
    reveal_strlit("CMC");
    reveal_strlit("CMC 1:1");
    reveal_strlit("DE_CMC1");
    reveal_strlit("DE_CMC_1");
    reveal_strlit("DE_CMC");
    reveal_strlit("LAB_DE_CMC2");
    reveal_strlit("DECMC2");
    reveal_strlit("CMC2");
    reveal_strlit("CMC 2:1");
    reveal_strlit("DE_CMC_2");
    reveal_strlit("DE_CMC2");
    reveal_strlit("DE_CMC 2:1");
    reveal_strlit("DECMC_2");
    reveal_strlit("LAB_DE_2001");
    reveal_strlit("DE2000");
    reveal_strlit("DE00");
    reveal_strlit("DE_2000");
    reveal_strlit("DE_00");
    reveal_strlit("SPECTRAL_340");
    reveal_strlit("SPECTRAL_350");
    reveal_strlit("SPECTRAL_360");
    assert(upper_seq("DE_2000"@) =~= "DE_2000"@);
    assert(upper_seq("XYZ_X"@) =~= "XYZ_X"@);
    assert(upper_seq("XYZ_Y"@) =~= "XYZ_Y"@);
    assert(upper_seq("XYZ_Z"@) =~= "XYZ_Z"@);
    assert(upper_seq("XYY_X"@) =~= "XYY_X"@);
    assert(upper_seq("XYY_Y"@) =~= "XYY_Y"@);
    assert(upper_seq("XYY_CAPY"@) =~= "XYY_CAPY"@);
    assert(upper_seq("SPECTRAL_340"@) =~= "SPECTRAL_340"@);
    assert(upper_seq("SPECTRAL_350"@) =~= "SPECTRAL_350"@);
    assert(upper_seq("SPECTRAL_360"@) =~= "SPECTRAL_360"@);
    assert("DE_2000"@ != "D_GREEN"@) by {
        assert("DE_2000"@[1int] != "D_GREEN"@[1int]);
    }
    assert("DE_2000"@ != "DE_1976"@) by {
        assert("DE_2000"@[3int] != "DE_1976"@[3int]);
    }
    assert("DE_2000"@ != "DE1994G"@) by {
        assert("DE_2000"@[2int] != "DE1994G"@[2int]);
    }
    assert("DE_2000"@ != "DE_1994"@) by {
        assert("DE_2000"@[3int] != "DE_1994"@[3int]);
    }
    assert("DE_2000"@ != "DE_94_G"@) by {
        assert("DE_2000"@[3int] != "DE_94_G"@[3int]);
    }
    assert("DE_2000"@ != "DE1994T"@) by {
        assert("DE_2000"@[2int] != "DE1994T"@[2int]);
    }
    assert("DE_2000"@ != "DE_94_T"@) by {
        assert("DE_2000"@[3int] != "DE_94_T"@[3int]);
    }
    assert("DE_2000"@ != "CMC 1:1"@) by {
        assert("DE_2000"@[0int] != "CMC 1:1"@[0int]);
    }
    assert("DE_2000"@ != "DE_CMC1"@) by {
        assert("DE_2000"@[3int] != "DE_CMC1"@[3int]);
    }
    assert("DE_2000"@ != "CMC 2:1"@) by {
        assert("DE_2000"@[0int] != "CMC 2:1"@[0int]);
    }
    assert("DE_2000"@ != "DE_CMC2"@) by {
        assert("DE_2000"@[3int] != "DE_CMC2"@[3int]);
    }
    assert("DE_2000"@ != "DECMC_2"@) by {
        assert("DE_2000"@[2int] != "DECMC_2"@[2int]);
    }
    assert("XYZ_X"@ != "BLANK"@) by {
        assert("XYZ_X"@[0int] != "BLANK"@[0int]);
    }
    assert("XYZ_X"@ != "RGB_R"@) by {
        assert("XYZ_X"@[0int] != "RGB_R"@[0int]);
    }
    assert("XYZ_X"@ != "RGB_G"@) by {
        assert("XYZ_X"@[0int] != "RGB_G"@[0int]);
    }
    assert("XYZ_X"@ != "RGB_B"@) by {
        assert("XYZ_X"@[0int] != "RGB_B"@[0int]);
    }
    assert("XYZ_X"@ != "LAB_L"@) by {
        assert("XYZ_X"@[0int] != "LAB_L"@[0int]);
    }
    assert("XYZ_X"@ != "LAB_A"@) by {
        assert("XYZ_X"@[0int] != "LAB_A"@[0int]);
    }
    assert("XYZ_X"@ != "LAB_B"@) by {
        assert("XYZ_X"@[0int] != "LAB_B"@[0int]);
    }
    assert("XYZ_X"@ != "LAB_C"@) by {
        assert("XYZ_X"@[0int] != "LAB_C"@[0int]);
    }
    assert("XYZ_X"@ != "LAB_H"@) by {
        assert("XYZ_X"@[0int] != "LAB_H"@[0int]);
    }
    assert("XYZ_Y"@ != "BLANK"@) by {
        assert("XYZ_Y"@[0int] != "BLANK"@[0int]);
    }
    assert("XYZ_Y"@ != "RGB_R"@) by {
        assert("XYZ_Y"@[0int] != "RGB_R"@[0int]);
    }
    assert("XYZ_Y"@ != "RGB_G"@) by {
        assert("XYZ_Y"@[0int] != "RGB_G"@[0int]);
    }
    assert("XYZ_Y"@ != "RGB_B"@) by {
        assert("XYZ_Y"@[0int] != "RGB_B"@[0int]);
    }
    assert("XYZ_Y"@ != "LAB_L"@) by {
        assert("XYZ_Y"@[0int] != "LAB_L"@[0int]);
    }
    assert("XYZ_Y"@ != "LAB_A"@) by {
        assert("XYZ_Y"@[0int] != "LAB_A"@[0int]);
    }
    assert("XYZ_Y"@ != "LAB_B"@) by {
        assert("XYZ_Y"@[0int] != "LAB_B"@[0int]);
    }
    assert("XYZ_Y"@ != "LAB_C"@) by {
        assert("XYZ_Y"@[0int] != "LAB_C"@[0int]);
    }
    assert("XYZ_Y"@ != "LAB_H"@) by {
        assert("XYZ_Y"@[0int] != "LAB_H"@[0int]);
    }
    assert("XYZ_Y"@ != "XYZ_X"@) by {
        assert("XYZ_Y"@[4int] != "XYZ_X"@[4int]);
    }
    assert("XYZ_Z"@ != "BLANK"@) by {
        assert("XYZ_Z"@[0int] != "BLANK"@[0int]);
    }
    assert("XYZ_Z"@ != "RGB_R"@) by {
        assert("XYZ_Z"@[0int] != "RGB_R"@[0int]);
    }
    assert("XYZ_Z"@ != "RGB_G"@) by {
        assert("XYZ_Z"@[0int] != "RGB_G"@[0int]);
    }
    assert("XYZ_Z"@ != "RGB_B"@) by {
        assert("XYZ_Z"@[0int] != "RGB_B"@[0int]);
    }
    assert("XYZ_Z"@ != "LAB_L"@) by {
        assert("XYZ_Z"@[0int] != "LAB_L"@[0int]);
    }
    assert("XYZ_Z"@ != "LAB_A"@) by {
        assert("XYZ_Z"@[0int] != "LAB_A"@[0int]);
    }
    assert("XYZ_Z"@ != "LAB_B"@) by {
        assert("XYZ_Z"@[0int] != "LAB_B"@[0int]);
    }
    assert("XYZ_Z"@ != "LAB_C"@) by {
        assert("XYZ_Z"@[0int] != "LAB_C"@[0int]);
    }
    assert("XYZ_Z"@ != "LAB_H"@) by {
        assert("XYZ_Z"@[0int] != "LAB_H"@[0int]);
    }
    assert("XYZ_Z"@ != "XYZ_X"@) by {
        assert("XYZ_Z"@[4int] != "XYZ_X"@[4int]);
    }
    assert("XYZ_Z"@ != "XYZ_Y"@) by {
        assert("XYZ_Z"@[4int] != "XYZ_Y"@[4int]);
    }
    assert("XYY_X"@ != "BLANK"@) by {
        assert("XYY_X"@[0int] != "BLANK"@[0int]);
    }
    assert("XYY_X"@ != "RGB_R"@) by {
        assert("XYY_X"@[0int] != "RGB_R"@[0int]);
    }
    assert("XYY_X"@ != "RGB_G"@) by {
        assert("XYY_X"@[0int] != "RGB_G"@[0int]);
    }
    assert("XYY_X"@ != "RGB_B"@) by {
        assert("XYY_X"@[0int] != "RGB_B"@[0int]);
    }
    assert("XYY_X"@ != "LAB_L"@) by {
        assert("XYY_X"@[0int] != "LAB_L"@[0int]);
    }
    assert("XYY_X"@ != "LAB_A"@) by {
        assert("XYY_X"@[0int] != "LAB_A"@[0int]);
    }
    assert("XYY_X"@ != "LAB_B"@) by {
        assert("XYY_X"@[0int] != "LAB_B"@[0int]);
    }
    assert("XYY_X"@ != "LAB_C"@) by {
        assert("XYY_X"@[0int] != "LAB_C"@[0int]);
    }
    assert("XYY_X"@ != "LAB_H"@) by {
        assert("XYY_X"@[0int] != "LAB_H"@[0int]);
    }
    assert("XYY_X"@ != "XYZ_X"@) by {
        assert("XYY_X"@[2int] != "XYZ_X"@[2int]);
    }
    assert("XYY_X"@ != "XYZ_Y"@) by {
        assert("XYY_X"@[2int] != "XYZ_Y"@[2int]);
    }
    assert("XYY_X"@ != "XYZ_Z"@) by {
        assert("XYY_X"@[2int] != "XYZ_Z"@[2int]);
    }
    assert("XYY_Y"@ != "BLANK"@) by {
        assert("XYY_Y"@[0int] != "BLANK"@[0int]);
    }
    assert("XYY_Y"@ != "RGB_R"@) by {
        assert("XYY_Y"@[0int] != "RGB_R"@[0int]);
    }
    assert("XYY_Y"@ != "RGB_G"@) by {
        assert("XYY_Y"@[0int] != "RGB_G"@[0int]);
    }
    assert("XYY_Y"@ != "RGB_B"@) by {
        assert("XYY_Y"@[0int] != "RGB_B"@[0int]);
    }
    assert("XYY_Y"@ != "LAB_L"@) by {
        assert("XYY_Y"@[0int] != "LAB_L"@[0int]);
    }
    assert("XYY_Y"@ != "LAB_A"@) by {
        assert("XYY_Y"@[0int] != "LAB_A"@[0int]);
    }
    assert("XYY_Y"@ != "LAB_B"@) by {
        assert("XYY_Y"@[0int] != "LAB_B"@[0int]);
    }
    assert("XYY_Y"@ != "LAB_C"@) by {
        assert("XYY_Y"@[0int] != "LAB_C"@[0int]);
    }
    assert("XYY_Y"@ != "LAB_H"@) by {
        assert("XYY_Y"@[0int] != "LAB_H"@[0int]);
    }
    assert("XYY_Y"@ != "XYZ_X"@) by {
        assert("XYY_Y"@[2int] != "XYZ_X"@[2int]);
    }
    assert("XYY_Y"@ != "XYZ_Y"@) by {
        assert("XYY_Y"@[2int] != "XYZ_Y"@[2int]);
    }
    assert("XYY_Y"@ != "XYZ_Z"@) by {
        assert("XYY_Y"@[2int] != "XYZ_Z"@[2int]);
    }
    assert("XYY_Y"@ != "XYY_X"@) by {
        assert("XYY_Y"@[4int] != "XYY_X"@[4int]);
    }
    assert("XYY_CAPY"@ != "SAMPLEID"@) by {
        assert("XYY_CAPY"@[0int] != "SAMPLEID"@[0int]);
    }
    assert("SPECTRAL_340"@ != "LAB_DE_1994T"@) by {
        assert("SPECTRAL_340"@[0int] != "LAB_DE_1994T"@[0int]);
    }
    assert("SPECTRAL_350"@ != "LAB_DE_1994T"@) by {
        assert("SPECTRAL_350"@[0int] != "LAB_DE_1994T"@[0int]);
    }
    assert("SPECTRAL_350"@ != "SPECTRAL_340"@) by {
        assert("SPECTRAL_350"@[10int] != "SPECTRAL_340"@[10int]);
    }
    assert("SPECTRAL_360"@ != "LAB_DE_1994T"@) by {
        assert("SPECTRAL_360"@[0int] != "LAB_DE_1994T"@[0int]);
    }
    assert("SPECTRAL_360"@ != "SPECTRAL_340"@) by {
        assert("SPECTRAL_360"@[10int] != "SPECTRAL_340"@[10int]);
    }
    assert("SPECTRAL_360"@ != "SPECTRAL_350"@) by {
        assert("SPECTRAL_360"@[10int] != "SPECTRAL_350"@[10int]);
    }
}

#[verifier::spinoff_prover]
#[verifier::rlimit(100)]
proof fn lemma_round_trip_chunk_6()
    ensures
        field_of(field_name(Field::SPECTRAL_370)) == Some(Field::SPECTRAL_370),
        field_of(field_name(Field::SPECTRAL_380)) == Some(Field::SPECTRAL_380),
        field_of(field_name(Field::SPECTRAL_390)) == Some(Field::SPECTRAL_390),
        field_of(field_name(Field::SPECTRAL_400)) == Some(Field::SPECTRAL_400),
        field_of(field_name(Field::SPECTRAL_410)) == Some(Field::SPECTRAL_410),
        field_of(field_name(Field::SPECTRAL_420)) == Some(Field::SPECTRAL_420),
        field_of(field_name(Field::SPECTRAL_430)) == Some(Field::SPECTRAL_430),
        field_of(field_name(Field::SPECTRAL_440)) == Some(Field::SPECTRAL_440),
        field_of(field_name(Field::SPECTRAL_450)) == Some(Field::SPECTRAL_450),
        field_of(field_name(Field::SPECTRAL_460)) == Some(Field::SPECTRAL_460),
{
    reveal_strlit("SAMPLE_ID");
    reveal_strlit("SAMPLEID");
    reveal_strlit("SAMPLE");
    reveal_strlit("SAMPLE_NAME");
    reveal_strlit("SAMPLENAME");
    reveal_strlit("");
    reveal_strlit("BLANK");
    reveal_strlit("RGB_R");
    reveal_strlit("RGB_G");
    reveal_strlit("RGB_B");
    reveal_strlit("CMYK_C");
    reveal_strlit("CMYK_M");
    reveal_strlit("CMYK_Y");
    reveal_strlit("CMYK_K");
    reveal_strlit("5CLR_1");
    reveal_strlit("5CLR_2");
    reveal_strlit("5CLR_3");
    reveal_strlit("5CLR_4");
    reveal_strlit("5CLR_5");
    reveal_strlit("6CLR_1");
    reveal_strlit("6CLR_2");
    reveal_strlit("6CLR_3");
    reveal_strlit("6CLR_4");
    reveal_strlit("6CLR_5");
    reveal_strlit("6CLR_6");
    reveal_strlit("7CLR_1");
    reveal_strlit("7CLR_2");
    reveal_strlit("7CLR_3");
    reveal_strlit("7CLR_4");
    reveal_strlit("7CLR_5");
    reveal_strlit("7CLR_6");
    reveal_strlit("7CLR_7");
    reveal_strlit("8CLR_1");
    reveal_strlit("8CLR_2");
    reveal_strlit("8CLR_3");
    reveal_strlit("8CLR_4");
    reveal_strlit("8CLR_5");
    reveal_strlit("8CLR_6");
    reveal_strlit("8CLR_7");
    reveal_strlit("8CLR_8");
    reveal_strlit("LAB_L");
    reveal_strlit("LAB_A");
    reveal_strlit("LAB_B");
    reveal_strlit("LAB_C");
    reveal_strlit("LAB_H");
    reveal_strlit("XYZ_X");
    reveal_strlit("XYZ_Y");
    reveal_strlit("XYZ_Z");
    reveal_strlit("XYY_X");
    reveal_strlit("XYY_Y");
    reveal_strlit("XYY_CAPY");
    reveal_strlit("D_RED");
    reveal_strlit("D_GREEN");
    reveal_strlit("D_BLUE");
    reveal_strlit("D_VISUAL");
    reveal_strlit("D_VIS");
    reveal_strlit("LAB_DE");
    reveal_strlit("DE1976");
    reveal_strlit("DE76");
    reveal_strlit("DE");
    reveal_strlit("DE_76");
    reveal_strlit("DE_1976");
    reveal_strlit("LAB_DE_1994");
    reveal_strlit("DE1994");
    reveal_strlit("DE94");
    reveal_strlit("DE1994G");
    reveal_strlit("DE94G");
    reveal_strlit("DE94_G");
    reveal_strlit("DE_1994");
    reveal_strlit("DE_94");
    reveal_strlit("DE_1994G");
    reveal_strlit("DE_1994_G");
    reveal_strlit("DE_94G");
    reveal_strlit("DE_94_G");
    reveal_strlit("LAB_DE_1994T");
    reveal_strlit("DE1994T");
    reveal_strlit("DE94T");
    reveal_strlit("DE_1994_T");
    reveal_strlit("DE_94T");
    reveal_strlit("DE_1994T");
    reveal_strlit("DE_94_T");
    reveal_strlit("DE94_T");
    reveal_strlit("LAB_DE_CMC");
    reveal_strlit("DECMC");
    reveal_strlit("DECMC1");
    reveal_strlit("CMC");
    reveal_strlit("CMC 1:1");
    reveal_strlit("DE_CMC1");
    reveal_strlit("DE_CMC_1");
    reveal_strlit("DE_CMC");
    reveal_strlit("LAB_DE_CMC2");
    reveal_strlit("DECMC2");
    reveal_strlit("CMC2");
    reveal_strlit("CMC 2:1");
    reveal_strlit("DE_CMC_2");
    reveal_strlit("DE_CMC2");
    reveal_strlit("DE_CMC 2:1");
    reveal_strlit("DECMC_2");
    reveal_strlit("LAB_DE_2001");
    reveal_strlit("DE2000");
    reveal_strlit("DE00");
    reveal_strlit("DE_2000");
    reveal_strlit("DE_00");
    reveal_strlit("SPECTRAL_340");
    reveal_strlit("SPECTRAL_350");
    reveal_strlit("SPECTRAL_360");
    reveal_strlit("SPECTRAL_370");
    reveal_strlit("SPECTRAL_380");
    reveal_strlit("SPECTRAL_390");
    reveal_strlit("SPECTRAL_400");
    reveal_strlit("SPECTRAL_410");
    reveal_strlit("SPECTRAL_420");
    reveal_strlit("SPECTRAL_430");
    reveal_strlit("SPECTRAL_440");
    reveal_strlit("SPECTRAL_450");
    reveal_strlit("SPECTRAL_460");
    assert(upper_seq("SPECTRAL_370"@) =~= "SPECTRAL_370"@);
    assert(upper_seq("SPECTRAL_380"@) =~= "SPECTRAL_380"@);
    assert(upper_seq("SPECTRAL_390"@) =~= "SPECTRAL_390"@);
    assert(upper_seq("SPECTRAL_400"@) =~= "SPECTRAL_400"@);
    assert(upper_seq("SPECTRAL_410"@) =~= "SPECTRAL_410"@);
    assert(upper_seq("SPECTRAL_420"@) =~= "SPECTRAL_420"@);
    assert(upper_seq("SPECTRAL_430"@) =~= "SPECTRAL_430"@);
    assert(upper_seq("SPECTRAL_440"@) =~= "SPECTRAL_440"@);
    assert(upper_seq("SPECTRAL_450"@) =~= "SPECTRAL_450"@);
    assert(upper_seq("SPECTRAL_460"@) =~= "SPECTRAL_460"@);
    assert("SPECTRAL_370"@ != "LAB_DE_1994T"@) by {
        assert("SPECTRAL_370"@[0int] != "LAB_DE_1994T"@[0int]);
    }
    assert("SPECTRAL_370"@ != "SPECTRAL_340"@) by {
        assert("SPECTRAL_370"@[10int] != "SPECTRAL_340"@[10int]);
    }
    assert("SPECTRAL_370"@ != "SPECTRAL_350"@) by {
        assert("SPECTRAL_370"@[10int] != "SPECTRAL_350"@[10int]);
    }
    assert("SPECTRAL_370"@ != "SPECTRAL_360"@) by {
        assert("SPECTRAL_370"@[10int] != "SPECTRAL_360"@[10int]);
    }
    assert("SPECTRAL_380"@ != "LAB_DE_1994T"@) by {
        assert("SPECTRAL_380"@[0int] != "LAB_DE_1994T"@[0int]);
    }
    assert("SPECTRAL_380"@ != "SPECTRAL_340"@) by {
        assert("SPECTRAL_380"@[10int] != "SPECTRAL_340"@[10int]);
    }
    assert("SPECTRAL_380"@ != "SPECTRAL_350"@) by {
        assert("SPECTRAL_380"@[10int] != "SPECTRAL_350"@[10int]);
    }
    assert("SPECTRAL_380"@ != "SPECTRAL_360"@) by {
        assert("SPECTRAL_380"@[10int] != "SPECTRAL_360"@[10int]);
    }
    assert("SPECTRAL_380"@ != "SPECTRAL_370"@) by {
        assert("SPECTRAL_380"@[10int] != "SPECTRAL_370"@[10int]);
    }
    assert("SPECTRAL_390"@ != "LAB_DE_1994T"@) by {
        assert("SPECTRAL_390"@[0int] != "LAB_DE_1994T"@[0int]);
    }
    assert("SPECTRAL_390"@ != "SPECTRAL_340"@) by {
        assert("SPECTRAL_390"@[10int] != "SPECTRAL_340"@[10int]);
    }
    assert("SPECTRAL_390"@ != "SPECTRAL_350"@) by {
        assert("SPECTRAL_390"@[10int] != "SPECTRAL_350"@[10int]);
    }
    assert("SPECTRAL_390"@ != "SPECTRAL_360"@) by {
        assert("SPECTRAL_390"@[10int] != "SPECTRAL_360"@[10int]);
    }
    assert("SPECTRAL_390"@ != "SPECTRAL_370"@) by {
        assert("SPECTRAL_390"@[10int] != "SPECTRAL_370"@[10int]);
    }
    assert("SPECTRAL_390"@ != "SPECTRAL_380"@) by {
        assert("SPECTRAL_390"@[10int] != "SPECTRAL_380"@[10int]);
    }
    assert("SPECTRAL_400"@ != "LAB_DE_1994T"@) by {
        assert("SPECTRAL_400"@[0int] != "LAB_DE_1994T"@[0int]);
    }
    assert("SPECTRAL_400"@ != "SPECTRAL_340"@) by {
        assert("SPECTRAL_400"@[9int] != "SPECTRAL_340"@[9int]);
    }
    assert("SPECTRAL_400"@ != "SPECTRAL_350"@) by {
        assert("SPECTRAL_400"@[9int] != "SPECTRAL_350"@[9int]);
    }
    assert("SPECTRAL_400"@ != "SPECTRAL_360"@) by {
        assert("SPECTRAL_400"@[9int] != "SPECTRAL_360"@[9int]);
    }
    assert("SPECTRAL_400"@ != "SPECTRAL_370"@) by {
        assert("SPECTRAL_400"@[9int] != "SPECTRAL_370"@[9int]);
    }
    assert("SPECTRAL_400"@ != "SPECTRAL_380"@) by {
        assert("SPECTRAL_400"@[9int] != "SPECTRAL_380"@[9int]);
    }
    assert("SPECTRAL_400"@ != "SPECTRAL_390"@) by {
        assert("SPECTRAL_400"@[9int] != "SPECTRAL_390"@[9int]);
    }
    assert("SPECTRAL_410"@ != "LAB_DE_1994T"@) by {
        assert("SPECTRAL_410"@[0int] != "LAB_DE_1994T"@[0int]);
    }
    assert("SPECTRAL_410"@ != "SPECTRAL_340"@) by {
        assert("SPECTRAL_410"@[9int] != "SPECTRAL_340"@[9int]);
    }
    assert("SPECTRAL_410"@ != "SPECTRAL_350"@) by {
        assert("SPECTRAL_410"@[9int] != "SPECTRAL_350"@[9int]);
    }
    assert("SPECTRAL_410"@ != "SPECTRAL_360"@) by {
        assert("SPECTRAL_410"@[9int] != "SPECTRAL_360"@[9int]);
    }
    assert("SPECTRAL_410"@ != "SPECTRAL_370"@) by {
        assert("SPECTRAL_410"@[9int] != "SPECTRAL_370"@[9int]);
    }
    assert("SPECTRAL_410"@ != "SPECTRAL_380"@) by {
        assert("SPECTRAL_410"@[9int] != "SPECTRAL_380"@[9int]);
    }
    assert("SPECTRAL_410"@ != "SPECTRAL_390"@) by {
        assert("SPECTRAL_410"@[9int] != "SPECTRAL_390"@[9int]);
    }
    assert("SPECTRAL_410"@ != "SPECTRAL_400"@) by {
        assert("SPECTRAL_410"@[10int] != "SPECTRAL_400"@[10int]);
    }
    assert("SPECTRAL_420"@ != "LAB_DE_1994T"@) by {
        assert("SPECTRAL_420"@[0int] != "LAB_DE_1994T"@[0int]);
    }
    assert("SPECTRAL_420"@ != "SPECTRAL_340"@) by {
        assert("SPECTRAL_420"@[9int] != "SPECTRAL_340"@[9int]);
    }
    assert("SPECTRAL_420"@ != "SPECTRAL_350"@) by {
        assert("SPECTRAL_420"@[9int] != "SPECTRAL_350"@[9int]);
    }
    assert("SPECTRAL_420"@ != "SPECTRAL_360"@) by {
        assert("SPECTRAL_420"@[9int] != "SPECTRAL_360"@[9int]);
    }
    assert("SPECTRAL_420"@ != "SPECTRAL_370"@) by {
        assert("SPECTRAL_420"@[9int] != "SPECTRAL_370"@[9int]);
    }
    assert("SPECTRAL_420"@ != "SPECTRAL_380"@) by {
        assert("SPECTRAL_420"@[9int] != "SPECTRAL_380"@[9int]);
    }
    assert("SPECTRAL_420"@ != "SPECTRAL_390"@) by {
        assert("SPECTRAL_420"@[9int] != "SPECTRAL_390"@[9int]);
    }
    assert("SPECTRAL_420"@ != "SPECTRAL_400"@) by {
        assert("SPECTRAL_420"@[10int] != "SPECTRAL_400"@[10int]);
    }
    assert("SPECTRAL_420"@ != "SPECTRAL_410"@) by {
        assert("SPECTRAL_420"@[10int] != "SPECTRAL_410"@[10int]);
    }
    assert("SPECTRAL_430"@ != "LAB_DE_1994T"@) by {
        assert("SPECTRAL_430"@[0int] != "LAB_DE_1994T"@[0int]);
    }
    assert("SPECTRAL_430"@ != "SPECTRAL_340"@) by {
        assert("SPECTRAL_430"@[9int] != "SPECTRAL_340"@[9int]);
    }
    assert("SPECTRAL_430"@ != "SPECTRAL_350"@) by {
        assert("SPECTRAL_430"@[9int] != "SPECTRAL_350"@[9int]);
    }
    assert("SPECTRAL_430"@ != "SPECTRAL_360"@) by {
        assert("SPECTRAL_430"@[9int] != "SPECTRAL_360"@[9int]);
    }
    assert("SPECTRAL_430"@ != "SPECTRAL_370"@) by {
        assert("SPECTRAL_430"@[9int] != "SPECTRAL_370"@[9int]);
    }
    assert("SPECTRAL_430"@ != "SPECTRAL_380"@) by {
        assert("SPECTRAL_430"@[9int] != "SPECTRAL_380"@[9int]);
    }
    assert("SPECTRAL_430"@ != "SPECTRAL_390"@) by {
        assert("SPECTRAL_430"@[9int] != "SPECTRAL_390"@[9int]);
    }
    assert("SPECTRAL_430"@ != "SPECTRAL_400"@) by {
        assert("SPECTRAL_430"@[10int] != "SPECTRAL_400"@[10int]);
    }
    assert("SPECTRAL_430"@ != "SPECTRAL_410"@) by {
        assert("SPECTRAL_430"@[10int] != "SPECTRAL_410"@[10int]);
    }
    assert("SPECTRAL_430"@ != "SPECTRAL_420"@) by {
        assert("SPECTRAL_430"@[10int] != "SPECTRAL_420"@[10int]);
    }
    assert("SPECTRAL_440"@ != "LAB_DE_1994T"@) by {
        assert("SPECTRAL_440"@[0int] != "LAB_DE_1994T"@[0int]);
    }
    assert("SPECTRAL_440"@ != "SPECTRAL_340"@) by {
        assert("SPECTRAL_440"@[9int] != "SPECTRAL_340"@[9int]);
    }
    assert("SPECTRAL_440"@ != "SPECTRAL_350"@) by {
        assert("SPECTRAL_440"@[9int] != "SPECTRAL_350"@[9int]);
    }
    assert("SPECTRAL_440"@ != "SPECTRAL_360"@) by {
        assert("SPECTRAL_440"@[9int] != "SPECTRAL_360"@[9int]);
    }
    assert("SPECTRAL_440"@ != "SPECTRAL_370"@) by {
        assert("SPECTRAL_440"@[9int] != "SPECTRAL_370"@[9int]);
    }
    assert("SPECTRAL_440"@ != "SPECTRAL_380"@) by {
        assert("SPECTRAL_440"@[9int] != "SPECTRAL_380"@[9int]);
    }
    assert("SPECTRAL_440"@ != "SPECTRAL_390"@) by {
        assert("SPECTRAL_440"@[9int] != "SPECTRAL_390"@[9int]);
    }
    assert("SPECTRAL_440"@ != "SPECTRAL_400"@) by {
        assert("SPECTRAL_440"@[10int] != "SPECTRAL_400"@[10int]);
    }
    assert("SPECTRAL_440"@ != "SPECTRAL_410"@) by {
        assert("SPECTRAL_440"@[10int] != "SPECTRAL_410"@[10int]);
    }
    assert("SPECTRAL_440"@ != "SPECTRAL_420"@) by {
        assert("SPECTRAL_440"@[10int] != "SPECTRAL_420"@[10int]);
    }
    assert("SPECTRAL_440"@ != "SPECTRAL_430"@) by {
        assert("SPECTRAL_440"@[10int] != "SPECTRAL_430"@[10int]);
    }
    assert("SPECTRAL_450"@ != "LAB_DE_1994T"@) by {
        assert("SPECTRAL_450"@[0int] != "LAB_DE_1994T"@[0int]);
    }
    assert("SPECTRAL_450"@ != "SPECTRAL_340"@) by {
        assert("SPECTRAL_450"@[9int] != "SPECTRAL_340"@[9int]);
    }
    assert("SPECTRAL_450"@ != "SPECTRAL_350"@) by {
        assert("SPECTRAL_450"@[9int] != "SPECTRAL_350"@[9int]);
    }
    assert("SPECTRAL_450"@ != "SPECTRAL_360"@) by {
        assert("SPECTRAL_450"@[9int] != "SPECTRAL_360"@[9int]);
    }
    assert("SPECTRAL_450"@ != "SPECTRAL_370"@) by {
        assert("SPECTRAL_450"@[9int] != "SPECTRAL_370"@[9int]);
    }
    assert("SPECTRAL_450"@ != "SPECTRAL_380"@) by {
        assert("SPECTRAL_450"@[9int] != "SPECTRAL_380"@[9int]);
    }
    assert("SPECTRAL_450"@ != "SPECTRAL_390"@) by {
        assert("SPECTRAL_450"@[9int] != "SPECTRAL_390"@[9int]);
    }
    assert("SPECTRAL_450"@ != "SPECTRAL_400"@) by {
        assert("SPECTRAL_450"@[10int] != "SPECTRAL_400"@[10int]);
    }
    assert("SPECTRAL_450"@ != "SPECTRAL_410"@) by {
        assert("SPECTRAL_450"@[10int] != "SPECTRAL_410"@[10int]);
    }
    assert("SPECTRAL_450"@ != "SPECTRAL_420"@) by {
        assert("SPECTRAL_450"@[10int] != "SPECTRAL_420"@[10int]);
    }
    assert("SPECTRAL_450"@ != "SPECTRAL_430"@) by {
        assert("SPECTRAL_450"@[10int] != "SPECTRAL_430"@[10int]);
    }
    assert("SPECTRAL_450"@ != "SPECTRAL_440"@) by {
        assert("SPECTRAL_450"@[10int] != "SPECTRAL_440"@[10int]);
    }
    assert("SPECTRAL_460"@ != "LAB_DE_1994T"@) by {
        assert("SPECTRAL_460"@[0int] != "LAB_DE_1994T"@[0int]);
    }
    assert("SPECTRAL_460"@ != "SPECTRAL_340"@) by {
        assert("SPECTRAL_460"@[9int] != "SPECTRAL_340"@[9int]);
    }
    assert("SPECTRAL_460"@ != "SPECTRAL_350"@) by {
        assert("SPECTRAL_460"@[9int] != "SPECTRAL_350"@[9int]);
    }
    assert("SPECTRAL_460"@ != "SPECTRAL_360"@) by {
        assert("SPECTRAL_460"@[9int] != "SPECTRAL_360"@[9int]);
    }
    assert("SPECTRAL_460"@ != "SPECTRAL_370"@) by {
        assert("SPECTRAL_460"@[9int] != "SPECTRAL_370"@[9int]);
    }
    assert("SPECTRAL_460"@ != "SPECTRAL_380"@) by {
        assert("SPECTRAL_460"@[9int] != "SPECTRAL_380"@[9int]);
    }
    assert("SPECTRAL_460"@ != "SPECTRAL_390"@) by {
        assert("SPECTRAL_460"@[9int] != "SPECTRAL_390"@[9int]);
    }
    assert("SPECTRAL_460"@ != "SPECTRAL_400"@) by {
        assert("SPECTRAL_460"@[10int] != "SPECTRAL_400"@[10int]);
    }
    assert("SPECTRAL_460"@ != "SPECTRAL_410"@) by {
        assert("SPECTRAL_460"@[10int] != "SPECTRAL_410"@[10int]);
    }
    assert("SPECTRAL_460"@ != "SPECTRAL_420"@) by {
        assert("SPECTRAL_460"@[10int] != "SPECTRAL_420"@[10int]);
    }
    assert("SPECTRAL_460"@ != "SPECTRAL_430"@) by {
        assert("SPECTRAL_460"@[10int] != "SPECTRAL_430"@[10int]);
    }
    assert("SPECTRAL_460"@ != "SPECTRAL_440"@) by {
        assert("SPECTRAL_460"@[10int] != "SPECTRAL_440"@[10int]);
    }
    assert("SPECTRAL_460"@ != "SPECTRAL_450"@) by {
        assert("SPECTRAL_460"@[10int] != "SPECTRAL_450"@[10int]);
    }
}

#[verifier::spinoff_prover]
#[verifier::rlimit(100)]
proof fn lemma_round_trip_chunk_7()
    ensures
        field_of(field_name(Field::SPECTRAL_470)) == Some(Field::SPECTRAL_470),
        field_of(field_name(Field::SPECTRAL_480)) == Some(Field::SPECTRAL_480),
        field_of(field_name(Field::SPECTRAL_490)) == Some(Field::SPECTRAL_490),
        field_of(field_name(Field::SPECTRAL_500)) == Some(Field::SPECTRAL_500),
        field_of(field_name(Field::SPECTRAL_510)) == Some(Field::SPECTRAL_510),
        field_of(field_name(Field::SPECTRAL_520)) == Some(Field::SPECTRAL_520),
        field_of(field_name(Field::SPECTRAL_530)) == Some(Field::SPECTRAL_530),
        field_of(field_name(Field::SPECTRAL_540)) == Some(Field::SPECTRAL_540),
        field_of(field_name(Field::SPECTRAL_550)) == Some(Field::SPECTRAL_550),
        field_of(field_name(Field::SPECTRAL_560)) == Some(Field::SPECTRAL_560),
{
    reveal_strlit("SAMPLE_ID");
    reveal_strlit("SAMPLEID");
    reveal_strlit("SAMPLE");
    reveal_strlit("SAMPLE_NAME");
    reveal_strlit("SAMPLENAME");
    reveal_strlit("");
    reveal_strlit("BLANK");
    reveal_strlit("RGB_R");
    reveal_strlit("RGB_G");
    reveal_strlit("RGB_B");
    reveal_strlit("CMYK_C");
    reveal_strlit("CMYK_M");
    reveal_strlit("CMYK_Y");
    reveal_strlit("CMYK_K");
    reveal_strlit("5CLR_1");
    reveal_strlit("5CLR_2");
    reveal_strlit("5CLR_3");
    reveal_strlit("5CLR_4");
    reveal_strlit("5CLR_5");
    reveal_strlit("6CLR_1");
    reveal_strlit("6CLR_2");
    reveal_strlit("6CLR_3");
    reveal_strlit("6CLR_4");
    reveal_strlit("6CLR_5");
    reveal_strlit("6CLR_6");
    reveal_strlit("7CLR_1");
    reveal_strlit("7CLR_2");
    reveal_strlit("7CLR_3");
    reveal_strlit("7CLR_4");
    reveal_strlit("7CLR_5");
    reveal_strlit("7CLR_6");
    reveal_strlit("7CLR_7");
    reveal_strlit("8CLR_1");
    reveal_strlit("8CLR_2");
    reveal_strlit("8CLR_3");
    reveal_strlit("8CLR_4");
    reveal_strlit("8CLR_5");
    reveal_strlit("8CLR_6");
    reveal_strlit("8CLR_7");
    reveal_strlit("8CLR_8");
    reveal_strlit("LAB_L");
    reveal_strlit("LAB_A");
    reveal_strlit("LAB_B");
    reveal_strlit("LAB_C");
    reveal_strlit("LAB_H");
    reveal_strlit("XYZ_X");
    reveal_strlit("XYZ_Y");
    reveal_strlit("XYZ_Z");
    reveal_strlit("XYY_X");
    reveal_strlit("XYY_Y");
    reveal_strlit("XYY_CAPY");
    reveal_strlit("D_RED");
    reveal_strlit("D_GREEN");
    reveal_strlit("D_BLUE");
    reveal_strlit("D_VISUAL");
    reveal_strlit("D_VIS");
    reveal_strlit("LAB_DE");
    reveal_strlit("DE1976");
    reveal_strlit("DE76");
    reveal_strlit("DE");
    reveal_strlit("DE_76");
    reveal_strlit("DE_1976");
    reveal_strlit("LAB_DE_1994");
    reveal_strlit("DE1994");
    reveal_strlit("DE94");
    reveal_strlit("DE1994G");
    reveal_strlit("DE94G");
    reveal_strlit("DE94_G");
    reveal_strlit("DE_1994");
    reveal_strlit("DE_94");
    reveal_strlit("DE_1994G");
    reveal_strlit("DE_1994_G");
    reveal_strlit("DE_94G");
    reveal_strlit("DE_94_G");
    reveal_strlit("LAB_DE_1994T");
    reveal_strlit("DE1994T");
    reveal_strlit("DE94T");
    reveal_strlit("DE_1994_T");
    reveal_strlit("DE_94T");
    reveal_strlit("DE_1994T");
    reveal_strlit("DE_94_T");
    reveal_strlit("DE94_T");
    reveal_strlit("LAB_DE_CMC");
    reveal_strlit("DECMC");
    reveal_strlit("DECMC1");
    reveal_strlit("CMC");
    reveal_strlit("CMC 1:1");
    reveal_strlit("DE_CMC1");
    reveal_strlit("DE_CMC_1");
    reveal_strlit("DE_CMC");
    reveal_strlit("LAB_DE_CMC2");
    reveal_strlit("DECMC2");
    reveal_strlit("CMC2");
    reveal_strlit("CMC 2:1");
    reveal_strlit("DE_CMC_2");
    reveal_strlit("DE_CMC2");
    reveal_strlit("DE_CMC 2:1");
    reveal_strlit("DECMC_2");
    reveal_strlit("LAB_DE_2001");
    reveal_strlit("DE2000");
    reveal_strlit("DE00");
    reveal_strlit("DE_2000");
    reveal_strlit("DE_00");
    reveal_strlit("SPECTRAL_340");
    reveal_strlit("SPECTRAL_350");
    reveal_strlit("SPECTRAL_360");
    reveal_strlit("SPECTRAL_370");
    reveal_strlit("SPECTRAL_380");
    reveal_strlit("SPECTRAL_390");
    reveal_strlit("SPECTRAL_400");
    reveal_strlit("SPECTRAL_410");
    reveal_strlit("SPECTRAL_420");
    reveal_strlit("SPECTRAL_430");
    reveal_strlit("SPECTRAL_440");
    reveal_strlit("SPECTRAL_450");
    reveal_strlit("SPECTRAL_460");
    reveal_strlit("SPECTRAL_470");
    reveal_strlit("SPECTRAL_480");
    reveal_strlit("SPECTRAL_490");
    reveal_strlit("SPECTRAL_500");
    reveal_strlit("SPECTRAL_510");
    reveal_strlit("SPECTRAL_520");
    reveal_strlit("SPECTRAL_530");
    reveal_strlit("SPECTRAL_540");
    reveal_strlit("SPECTRAL_550");
    reveal_strlit("SPECTRAL_560");
    assert(upper_seq("SPECTRAL_470"@) =~= "SPECTRAL_470"@);
    assert(upper_seq("SPECTRAL_480"@) =~= "SPECTRAL_480"@);
    assert(upper_seq("SPECTRAL_490"@) =~= "SPECTRAL_490"@);
    assert(upper_seq("SPECTRAL_500"@) =~= "SPECTRAL_500"@);
    assert(upper_seq("SPECTRAL_510"@) =~= "SPECTRAL_510"@);
    assert(upper_seq("SPECTRAL_520"@) =~= "SPECTRAL_520"@);
    assert(upper_seq("SPECTRAL_530"@) =~= "SPECTRAL_530"@);
    assert(upper_seq("SPECTRAL_540"@) =~= "SPECTRAL_540"@);
    assert(upper_seq("SPECTRAL_550"@) =~= "SPECTRAL_550"@);
    assert(upper_seq("SPECTRAL_560"@) =~= "SPECTRAL_560"@);
    assert("SPECTRAL_470"@ != "LAB_DE_1994T"@) by {
        assert("SPECTRAL_470"@[0int] != "LAB_DE_1994T"@[0int]);
    }
    assert("SPECTRAL_470"@ != "SPECTRAL_340"@) by {
        assert("SPECTRAL_470"@[9int] != "SPECTRAL_340"@[9int]);
    }
    assert("SPECTRAL_470"@ != "SPECTRAL_350"@) by {
        assert("SPECTRAL_470"@[9int] != "SPECTRAL_350"@[9int]);
    }
    assert("SPECTRAL_470"@ != "SPECTRAL_360"@) by {
        assert("SPECTRAL_470"@[9int] != "SPECTRAL_360"@[9int]);
    }
    assert("SPECTRAL_470"@ != "SPECTRAL_370"@) by {
        assert("SPECTRAL_470"@[9int] != "SPECTRAL_370"@[9int]);
    }
    assert("SPECTRAL_470"@ != "SPECTRAL_380"@) by {
        assert("SPECTRAL_470"@[9int] != "SPECTRAL_380"@[9int]);
    }
    assert("SPECTRAL_470"@ != "SPECTRAL_390"@) by {
        assert("SPECTRAL_470"@[9int] != "SPECTRAL_390"@[9int]);
    }
    assert("SPECTRAL_470"@ != "SPECTRAL_400"@) by {
        assert("SPECTRAL_470"@[10int] != "SPECTRAL_400"@[10int]);
    }
    assert("SPECTRAL_470"@ != "SPECTRAL_410"@) by {
        assert("SPECTRAL_470"@[10int] != "SPECTRAL_410"@[10int]);
    }
    assert("SPECTRAL_470"@ != "SPECTRAL_420"@) by {
        assert("SPECTRAL_470"@[10int] != "SPECTRAL_420"@[10int]);
    }
    assert("SPECTRAL_470"@ != "SPECTRAL_430"@) by {
        assert("SPECTRAL_470"@[10int] != "SPECTRAL_430"@[10int]);
    }
    assert("SPECTRAL_470"@ != "SPECTRAL_440"@) by {
        assert("SPECTRAL_470"@[10int] != "SPECTRAL_440"@[10int]);
    }
    assert("SPECTRAL_470"@ != "SPECTRAL_450"@) by {
        assert("SPECTRAL_470"@[10int] != "SPECTRAL_450"@[10int]);
    }
    assert("SPECTRAL_470"@ != "SPECTRAL_460"@) by {
        assert("SPECTRAL_470"@[10int] != "SPECTRAL_460"@[10int]);
    }
    assert("SPECTRAL_480"@ != "LAB_DE_1994T"@) by {
        assert("SPECTRAL_480"@[0int] != "LAB_DE_1994T"@[0int]);
    }
    assert("SPECTRAL_480"@ != "SPECTRAL_340"@) by {
        assert("SPECTRAL_480"@[9int] != "SPECTRAL_340"@[9int]);
    }
    assert("SPECTRAL_480"@ != "SPECTRAL_350"@) by {
        assert("SPECTRAL_480"@[9int] != "SPECTRAL_350"@[9int]);
    }
    assert("SPECTRAL_480"@ != "SPECTRAL_360"@) by {
        assert("SPECTRAL_480"@[9int] != "SPECTRAL_360"@[9int]);
    }
    assert("SPECTRAL_480"@ != "SPECTRAL_370"@) by {
        assert("SPECTRAL_480"@[9int] != "SPECTRAL_370"@[9int]);
    }
    assert("SPECTRAL_480"@ != "SPECTRAL_380"@) by {
        assert("SPECTRAL_480"@[9int] != "SPECTRAL_380"@[9int]);
    }
    assert("SPECTRAL_480"@ != "SPECTRAL_390"@) by {
        assert("SPECTRAL_480"@[9int] != "SPECTRAL_390"@[9int]);
    }
    assert("SPECTRAL_480"@ != "SPECTRAL_400"@) by {
        assert("SPECTRAL_480"@[10int] != "SPECTRAL_400"@[10int]);
    }
    assert("SPECTRAL_480"@ != "SPECTRAL_410"@) by {
        assert("SPECTRAL_480"@[10int] != "SPECTRAL_410"@[10int]);
    }
    assert("SPECTRAL_480"@ != "SPECTRAL_420"@) by {
        assert("SPECTRAL_480"@[10int] != "SPECTRAL_420"@[10int]);
    }
    assert("SPECTRAL_480"@ != "SPECTRAL_430"@) by {
        assert("SPECTRAL_480"@[10int] != "SPECTRAL_430"@[10int]);
    }
    assert("SPECTRAL_480"@ != "SPECTRAL_440"@) by {
        assert("SPECTRAL_480"@[10int] != "SPECTRAL_440"@[10int]);
    }
    assert("SPECTRAL_480"@ != "SPECTRAL_450"@) by {
        assert("SPECTRAL_480"@[10int] != "SPECTRAL_450"@[10int]);
    }
    assert("SPECTRAL_480"@ != "SPECTRAL_460"@) by {
        assert("SPECTRAL_480"@[10int] != "SPECTRAL_460"@[10int]);
    }
    assert("SPECTRAL_480"@ != "SPECTRAL_470"@) by {
        assert("SPECTRAL_480"@[10int] != "SPECTRAL_470"@[10int]);
    }
    assert("SPECTRAL_490"@ != "LAB_DE_1994T"@) by {
        assert("SPECTRAL_490"@[0int] != "LAB_DE_1994T"@[0int]);
    }
    assert("SPECTRAL_490"@ != "SPECTRAL_340"@) by {
        assert("SPECTRAL_490"@[9int] != "SPECTRAL_340"@[9int]);
    }
    assert("SPECTRAL_490"@ != "SPECTRAL_350"@) by {
        assert("SPECTRAL_490"@[9int] != "SPECTRAL_350"@[9int]);
    }
    assert("SPECTRAL_490"@ != "SPECTRAL_360"@) by {
        assert("SPECTRAL_490"@[9int] != "SPECTRAL_360"@[9int]);
    }
    assert("SPECTRAL_490"@ != "SPECTRAL_370"@) by {
        assert("SPECTRAL_490"@[9int] != "SPECTRAL_370"@[9int]);
    }
    assert("SPECTRAL_490"@ != "SPECTRAL_380"@) by {
        assert("SPECTRAL_490"@[9int] != "SPECTRAL_380"@[9int]);
    }
    assert("SPECTRAL_490"@ != "SPECTRAL_390"@) by {
        assert("SPECTRAL_490"@[9int] != "SPECTRAL_390"@[9int]);
    }
    assert("SPECTRAL_490"@ != "SPECTRAL_400"@) by {
        assert("SPECTRAL_490"@[10int] != "SPECTRAL_400"@[10int]);
    }
    assert("SPECTRAL_490"@ != "SPECTRAL_410"@) by {
        assert("SPECTRAL_490"@[10int] != "SPECTRAL_410"@[10int]);
    }
    assert("SPECTRAL_490"@ != "SPECTRAL_420"@) by {
        assert("SPECTRAL_490"@[10int] != "SPECTRAL_420"@[10int]);
    }
    assert("SPECTRAL_490"@ != "SPECTRAL_430"@) by {
        assert("SPECTRAL_490"@[10int] != "SPECTRAL_430"@[10int]);
    }
    assert("SPECTRAL_490"@ != "SPECTRAL_440"@) by {
        assert("SPECTRAL_490"@[10int] != "SPECTRAL_440"@[10int]);
    }
    assert("SPECTRAL_490"@ != "SPECTRAL_450"@) by {
        assert("SPECTRAL_490"@[10int] != "SPECTRAL_450"@[10int]);
    }
    assert("SPECTRAL_490"@ != "SPECTRAL_460"@) by {
        assert("SPECTRAL_490"@[10int] != "SPECTRAL_460"@[10int]);
    }
    assert("SPECTRAL_490"@ != "SPECTRAL_470"@) by {
        assert("SPECTRAL_490"@[10int] != "SPECTRAL_470"@[10int]);
    }
    assert("SPECTRAL_490"@ != "SPECTRAL_480"@) by {
        assert("SPECTRAL_490"@[10int] != "SPECTRAL_480"@[10int]);
    }
    assert("SPECTRAL_500"@ != "LAB_DE_1994T"@) by {
        assert("SPECTRAL_500"@[0int] != "LAB_DE_1994T"@[0int]);
    }
    assert("SPECTRAL_500"@ != "SPECTRAL_340"@) by {
        assert("SPECTRAL_500"@[9int] != "SPECTRAL_340"@[9int]);
    }
    assert("SPECTRAL_500"@ != "SPECTRAL_350"@) by {
        assert("SPECTRAL_500"@[9int] != "SPECTRAL_350"@[9int]);
    }
    assert("SPECTRAL_500"@ != "SPECTRAL_360"@) by {
        assert("SPECTRAL_500"@[9int] != "SPECTRAL_360"@[9int]);
    }
    assert("SPECTRAL_500"@ != "SPECTRAL_370"@) by {
        assert("SPECTRAL_500"@[9int] != "SPECTRAL_370"@[9int]);
    }
    assert("SPECTRAL_500"@ != "SPECTRAL_380"@) by {
        assert("SPECTRAL_500"@[9int] != "SPECTRAL_380"@[9int]);
    }
    assert("SPECTRAL_500"@ != "SPECTRAL_390"@) by {
        assert("SPECTRAL_500"@[9int] != "SPECTRAL_390"@[9int]);
    }
    assert("SPECTRAL_500"@ != "SPECTRAL_400"@) by {
        assert("SPECTRAL_500"@[9int] != "SPECTRAL_400"@[9int]);
    }
    assert("SPECTRAL_500"@ != "SPECTRAL_410"@) by {
        assert("SPECTRAL_500"@[9int] != "SPECTRAL_410"@[9int]);
    }
    assert("SPECTRAL_500"@ != "SPECTRAL_420"@) by {
        assert("SPECTRAL_500"@[9int] != "SPECTRAL_420"@[9int]);
    }
    assert("SPECTRAL_500"@ != "SPECTRAL_430"@) by {
        assert("SPECTRAL_500"@[9int] != "SPECTRAL_430"@[9int]);
    }
    assert("SPECTRAL_500"@ != "SPECTRAL_440"@) by {
        assert("SPECTRAL_500"@[9int] != "SPECTRAL_440"@[9int]);
    }
    assert("SPECTRAL_500"@ != "SPECTRAL_450"@) by {
        assert("SPECTRAL_500"@[9int] != "SPECTRAL_450"@[9int]);
    }
    assert("SPECTRAL_500"@ != "SPECTRAL_460"@) by {
        assert("SPECTRAL_500"@[9int] != "SPECTRAL_460"@[9int]);
    }
    assert("SPECTRAL_500"@ != "SPECTRAL_470"@) by {
        assert("SPECTRAL_500"@[9int] != "SPECTRAL_470"@[9int]);
    }
    assert("SPECTRAL_500"@ != "SPECTRAL_480"@) by {
        assert("SPECTRAL_500"@[9int] != "SPECTRAL_480"@[9int]);
    }
    assert("SPECTRAL_500"@ != "SPECTRAL_490"@) by {
        assert("SPECTRAL_500"@[9int] != "SPECTRAL_490"@[9int]);
    }
    assert("SPECTRAL_510"@ != "LAB_DE_1994T"@) by {
        assert("SPECTRAL_510"@[0int] != "LAB_DE_1994T"@[0int]);
    }
    assert("SPECTRAL_510"@ != "SPECTRAL_340"@) by {
        assert("SPECTRAL_510"@[9int] != "SPECTRAL_340"@[9int]);
    }
    assert("SPECTRAL_510"@ != "SPECTRAL_350"@) by {
        assert("SPECTRAL_510"@[9int] != "SPECTRAL_350"@[9int]);
    }
    assert("SPECTRAL_510"@ != "SPECTRAL_360"@) by {
        assert("SPECTRAL_510"@[9int] != "SPECTRAL_360"@[9int]);
    }
    assert("SPECTRAL_510"@ != "SPECTRAL_370"@) by {
        assert("SPECTRAL_510"@[9int] != "SPECTRAL_370"@[9int]);
    }
    assert("SPECTRAL_510"@ != "SPECTRAL_380"@) by {
        assert("SPECTRAL_510"@[9int] != "SPECTRAL_380"@[9int]);
    }
    assert("SPECTRAL_510"@ != "SPECTRAL_390"@) by {
        assert("SPECTRAL_510"@[9int] != "SPECTRAL_390"@[9int]);
    }
    assert("SPECTRAL_510"@ != "SPECTRAL_400"@) by {
        assert("SPECTRAL_510"@[9int] != "SPECTRAL_400"@[9int]);
    }
    assert("SPECTRAL_510"@ != "SPECTRAL_410"@) by {
        assert("SPECTRAL_510"@[9int] != "SPECTRAL_410"@[9int]);
    }
    assert("SPECTRAL_510"@ != "SPECTRAL_420"@) by {
        assert("SPECTRAL_510"@[9int] != "SPECTRAL_420"@[9int]);
    }
    assert("SPECTRAL_510"@ != "SPECTRAL_430"@) by {
        assert("SPECTRAL_510"@[9int] != "SPECTRAL_430"@[9int]);
    }
    assert("SPECTRAL_510"@ != "SPECTRAL_440"@) by {
        assert("SPECTRAL_510"@[9int] != "SPECTRAL_440"@[9int]);
    }
    assert("SPECTRAL_510"@ != "SPECTRAL_450"@) by {
        assert("SPECTRAL_510"@[9int] != "SPECTRAL_450"@[9int]);
    }
    assert("SPECTRAL_510"@ != "SPECTRAL_460"@) by {
        assert("SPECTRAL_510"@[9int] != "SPECTRAL_460"@[9int]);
    }
    assert("SPECTRAL_510"@ != "SPECTRAL_470"@) by {
        assert("SPECTRAL_510"@[9int] != "SPECTRAL_470"@[9int]);
    }
    assert("SPECTRAL_510"@ != "SPECTRAL_480"@) by {
        assert("SPECTRAL_510"@[9int] != "SPECTRAL_480"@[9int]);
    }
    assert("SPECTRAL_510"@ != "SPECTRAL_490"@) by {
        assert("SPECTRAL_510"@[9int] != "SPECTRAL_490"@[9int]);
    }
    assert("SPECTRAL_510"@ != "SPECTRAL_500"@) by {
        assert("SPECTRAL_510"@[10int] != "SPECTRAL_500"@[10int]);
    }
    assert("SPECTRAL_520"@ != "LAB_DE_1994T"@) by {
        assert("SPECTRAL_520"@[0int] != "LAB_DE_1994T"@[0int]);
    }
    assert("SPECTRAL_520"@ != "SPECTRAL_340"@) by {
        assert("SPECTRAL_520"@[9int] != "SPECTRAL_340"@[9int]);
    }
    assert("SPECTRAL_520"@ != "SPECTRAL_350"@) by {
        assert("SPECTRAL_520"@[9int] != "SPECTRAL_350"@[9int]);
    }
    assert("SPECTRAL_520"@ != "SPECTRAL_360"@) by {
        assert("SPECTRAL_520"@[9int] != "SPECTRAL_360"@[9int]);
    }
    assert("SPECTRAL_520"@ != "SPECTRAL_370"@) by {
        assert("SPECTRAL_520"@[9int] != "SPECTRAL_370"@[9int]);
    }
    assert("SPECTRAL_520"@ != "SPECTRAL_380"@) by {
        assert("SPECTRAL_520"@[9int] != "SPECTRAL_380"@[9int]);
    }
    assert("SPECTRAL_520"@ != "SPECTRAL_390"@) by {
        assert("SPECTRAL_520"@[9int] != "SPECTRAL_390"@[9int]);
    }
    assert("SPECTRAL_520"@ != "SPECTRAL_400"@) by {
        assert("SPECTRAL_520"@[9int] != "SPECTRAL_400"@[9int]);
    }
    assert("SPECTRAL_520"@ != "SPECTRAL_410"@) by {
        assert("SPECTRAL_520"@[9int] != "SPECTRAL_410"@[9int]);
    }
    assert("SPECTRAL_520"@ != "SPECTRAL_420"@) by {
        assert("SPECTRAL_520"@[9int] != "SPECTRAL_420"@[9int]);
    }
    assert("SPECTRAL_520"@ != "SPECTRAL_430"@) by {
        assert("SPECTRAL_520"@[9int] != "SPECTRAL_430"@[9int]);
    }
    assert("SPECTRAL_520"@ != "SPECTRAL_440"@) by {
        assert("SPECTRAL_520"@[9int] != "SPECTRAL_440"@[9int]);
    }
    assert("SPECTRAL_520"@ != "SPECTRAL_450"@) by {
        assert("SPECTRAL_520"@[9int] != "SPECTRAL_450"@[9int]);
    }
    assert("SPECTRAL_520"@ != "SPECTRAL_460"@) by {
        assert("SPECTRAL_520"@[9int] != "SPECTRAL_460"@[9int]);
    }
    assert("SPECTRAL_520"@ != "SPECTRAL_470"@) by {
        assert("SPECTRAL_520"@[9int] != "SPECTRAL_470"@[9int]);
    }
    assert("SPECTRAL_520"@ != "SPECTRAL_480"@) by {
        assert("SPECTRAL_520"@[9int] != "SPECTRAL_480"@[9int]);
    }
    assert("SPECTRAL_520"@ != "SPECTRAL_490"@) by {
        assert("SPECTRAL_520"@[9int] != "SPECTRAL_490"@[9int]);
    }
    assert("SPECTRAL_520"@ != "SPECTRAL_500"@) by {
        assert("SPECTRAL_520"@[10int] != "SPECTRAL_500"@[10int]);
    }
    assert("SPECTRAL_520"@ != "SPECTRAL_510"@) by {
        assert("SPECTRAL_520"@[10int] != "SPECTRAL_510"@[10int]);
    }
    assert("SPECTRAL_530"@ != "LAB_DE_1994T"@) by {
        assert("SPECTRAL_530"@[0int] != "LAB_DE_1994T"@[0int]);
    }
    assert("SPECTRAL_530"@ != "SPECTRAL_340"@) by {
        assert("SPECTRAL_530"@[9int] != "SPECTRAL_340"@[9int]);
    }
    assert("SPECTRAL_530"@ != "SPECTRAL_350"@) by {
        assert("SPECTRAL_530"@[9int] != "SPECTRAL_350"@[9int]);
    }
    assert("SPECTRAL_530"@ != "SPECTRAL_360"@) by {
        assert("SPECTRAL_530"@[9int] != "SPECTRAL_360"@[9int]);
    }
    assert("SPECTRAL_530"@ != "SPECTRAL_370"@) by {
        assert("SPECTRAL_530"@[9int] != "SPECTRAL_370"@[9int]);
    }
    assert("SPECTRAL_530"@ != "SPECTRAL_380"@) by {
        assert("SPECTRAL_530"@[9int] != "SPECTRAL_380"@[9int]);
    }
    assert("SPECTRAL_530"@ != "SPECTRAL_390"@) by {
        assert("SPECTRAL_530"@[9int] != "SPECTRAL_390"@[9int]);
    }
    assert("SPECTRAL_530"@ != "SPECTRAL_400"@) by {
        assert("SPECTRAL_530"@[9int] != "SPECTRAL_400"@[9int]);
    }
    assert("SPECTRAL_530"@ != "SPECTRAL_410"@) by {
        assert("SPECTRAL_530"@[9int] != "SPECTRAL_410"@[9int]);
    }
    assert("SPECTRAL_530"@ != "SPECTRAL_420"@) by {
        assert("SPECTRAL_530"@[9int] != "SPECTRAL_420"@[9int]);
    }
    assert("SPECTRAL_530"@ != "SPECTRAL_430"@) by {
        assert("SPECTRAL_530"@[9int] != "SPECTRAL_430"@[9int]);
    }
    assert("SPECTRAL_530"@ != "SPECTRAL_440"@) by {
        assert("SPECTRAL_530"@[9int] != "SPECTRAL_440"@[9int]);
    }
    assert("SPECTRAL_530"@ != "SPECTRAL_450"@) by {
        assert("SPECTRAL_530"@[9int] != "SPECTRAL_450"@[9int]);
    }
    assert("SPECTRAL_530"@ != "SPECTRAL_460"@) by {
        assert("SPECTRAL_530"@[9int] != "SPECTRAL_460"@[9int]);
    }
    assert("SPECTRAL_530"@ != "SPECTRAL_470"@) by {
        assert("SPECTRAL_530"@[9int] != "SPECTRAL_470"@[9int]);
    }
    assert("SPECTRAL_530"@ != "SPECTRAL_480"@) by {
        assert("SPECTRAL_530"@[9int] != "SPECTRAL_480"@[9int]);
    }
    assert("SPECTRAL_530"@ != "SPECTRAL_490"@) by {
        assert("SPECTRAL_530"@[9int] != "SPECTRAL_490"@[9int]);
    }
    assert("SPECTRAL_530"@ != "SPECTRAL_500"@) by {
        assert("SPECTRAL_530"@[10int] != "SPECTRAL_500"@[10int]);
    }
    assert("SPECTRAL_530"@ != "SPECTRAL_510"@) by {
        assert("SPECTRAL_530"@[10int] != "SPECTRAL_510"@[10int]);
    }
    assert("SPECTRAL_530"@ != "SPECTRAL_520"@) by {
        assert("SPECTRAL_530"@[10int] != "SPECTRAL_520"@[10int]);
    }
    assert("SPECTRAL_540"@ != "LAB_DE_1994T"@) by {
        assert("SPECTRAL_540"@[0int] != "LAB_DE_1994T"@[0int]);
    }
    assert("SPECTRAL_540"@ != "SPECTRAL_340"@) by {
        assert("SPECTRAL_540"@[9int] != "SPECTRAL_340"@[9int]);
    }
    assert("SPECTRAL_540"@ != "SPECTRAL_350"@) by {
        assert("SPECTRAL_540"@[9int] != "SPECTRAL_350"@[9int]);
    }
    assert("SPECTRAL_540"@ != "SPECTRAL_360"@) by {
        assert("SPECTRAL_540"@[9int] != "SPECTRAL_360"@[9int]);
    }
    assert("SPECTRAL_540"@ != "SPECTRAL_370"@) by {
        assert("SPECTRAL_540"@[9int] != "SPECTRAL_370"@[9int]);
    }
    assert("SPECTRAL_540"@ != "SPECTRAL_380"@) by {
        assert("SPECTRAL_540"@[9int] != "SPECTRAL_380"@[9int]);
    }
    assert("SPECTRAL_540"@ != "SPECTRAL_390"@) by {
        assert("SPECTRAL_540"@[9int] != "SPECTRAL_390"@[9int]);
    }
    assert("SPECTRAL_540"@ != "SPECTRAL_400"@) by {
        assert("SPECTRAL_540"@[9int] != "SPECTRAL_400"@[9int]);
    }
    assert("SPECTRAL_540"@ != "SPECTRAL_410"@) by {
        assert("SPECTRAL_540"@[9int] != "SPECTRAL_410"@[9int]);
    }
    assert("SPECTRAL_540"@ != "SPECTRAL_420"@) by {
        assert("SPECTRAL_540"@[9int] != "SPECTRAL_420"@[9int]);
    }
    assert("SPECTRAL_540"@ != "SPECTRAL_430"@) by {
        assert("SPECTRAL_540"@[9int] != "SPECTRAL_430"@[9int]);
    }
    assert("SPECTRAL_540"@ != "SPECTRAL_440"@) by {
        assert("SPECTRAL_540"@[9int] != "SPECTRAL_440"@[9int]);
    }
    assert("SPECTRAL_540"@ != "SPECTRAL_450"@) by {
        assert("SPECTRAL_540"@[9int] != "SPECTRAL_450"@[9int]);
    }
    assert("SPECTRAL_540"@ != "SPECTRAL_460"@) by {
        assert("SPECTRAL_540"@[9int] != "SPECTRAL_460"@[9int]);
    }
    assert("SPECTRAL_540"@ != "SPECTRAL_470"@) by {
        assert("SPECTRAL_540"@[9int] != "SPECTRAL_470"@[9int]);
    }
    assert("SPECTRAL_540"@ != "SPECTRAL_480"@) by {
        assert("SPECTRAL_540"@[9int] != "SPECTRAL_480"@[9int]);
    }
    assert("SPECTRAL_540"@ != "SPECTRAL_490"@) by {
        assert("SPECTRAL_540"@[9int] != "SPECTRAL_490"@[9int]);
    }
    assert("SPECTRAL_540"@ != "SPECTRAL_500"@) by {
        assert("SPECTRAL_540"@[10int] != "SPECTRAL_500"@[10int]);
    }
    assert("SPECTRAL_540"@ != "SPECTRAL_510"@) by {
        assert("SPECTRAL_540"@[10int] != "SPECTRAL_510"@[10int]);
    }
    assert("SPECTRAL_540"@ != "SPECTRAL_520"@) by {
        assert("SPECTRAL_540"@[10int] != "SPECTRAL_520"@[10int]);
    }
    assert("SPECTRAL_540"@ != "SPECTRAL_530"@) by {
        assert("SPECTRAL_540"@[10int] != "SPECTRAL_530"@[10int]);
    }
    assert("SPECTRAL_550"@ != "LAB_DE_1994T"@) by {
        assert("SPECTRAL_550"@[0int] != "LAB_DE_1994T"@[0int]);
    }
    assert("SPECTRAL_550"@ != "SPECTRAL_340"@) by {
        assert("SPECTRAL_550"@[9int] != "SPECTRAL_340"@[9int]);
    }
    assert("SPECTRAL_550"@ != "SPECTRAL_350"@) by {
        assert("SPECTRAL_550"@[9int] != "SPECTRAL_350"@[9int]);
    }
    assert("SPECTRAL_550"@ != "SPECTRAL_360"@) by {
        assert("SPECTRAL_550"@[9int] != "SPECTRAL_360"@[9int]);
    }
    assert("SPECTRAL_550"@ != "SPECTRAL_370"@) by {
        assert("SPECTRAL_550"@[9int] != "SPECTRAL_370"@[9int]);
    }
    assert("SPECTRAL_550"@ != "SPECTRAL_380"@) by {
        assert("SPECTRAL_550"@[9int] != "SPECTRAL_380"@[9int]);
    }
    assert("SPECTRAL_550"@ != "SPECTRAL_390"@) by {
        assert("SPECTRAL_550"@[9int] != "SPECTRAL_390"@[9int]);
    }
    assert("SPECTRAL_550"@ != "SPECTRAL_400"@) by {
        assert("SPECTRAL_550"@[9int] != "SPECTRAL_400"@[9int]);
    }
    assert("SPECTRAL_550"@ != "SPECTRAL_410"@) by {
        assert("SPECTRAL_550"@[9int] != "SPECTRAL_410"@[9int]);
    }
    assert("SPECTRAL_550"@ != "SPECTRAL_420"@) by {
        assert("SPECTRAL_550"@[9int] != "SPECTRAL_420"@[9int]);
    }
    assert("SPECTRAL_550"@ != "SPECTRAL_430"@) by {
        assert("SPECTRAL_550"@[9int] != "SPECTRAL_430"@[9int]);
    }
    assert("SPECTRAL_550"@ != "SPECTRAL_440"@) by {
        assert("SPECTRAL_550"@[9int] != "SPECTRAL_440"@[9int]);
    }
    assert("SPECTRAL_550"@ != "SPECTRAL_450"@) by {
        assert("SPECTRAL_550"@[9int] != "SPECTRAL_450"@[9int]);
    }
    assert("SPECTRAL_550"@ != "SPECTRAL_460"@) by {
        assert("SPECTRAL_550"@[9int] != "SPECTRAL_460"@[9int]);
    }
    assert("SPECTRAL_550"@ != "SPECTRAL_470"@) by {
        assert("SPECTRAL_550"@[9int] != "SPECTRAL_470"@[9int]);
    }
    assert("SPECTRAL_550"@ != "SPECTRAL_480"@) by {
        assert("SPECTRAL_550"@[9int] != "SPECTRAL_480"@[9int]);
    }
    assert("SPECTRAL_550"@ != "SPECTRAL_490"@) by {
        assert("SPECTRAL_550"@[9int] != "SPECTRAL_490"@[9int]);
    }
    assert("SPECTRAL_550"@ != "SPECTRAL_500"@) by {
        assert("SPECTRAL_550"@[10int] != "SPECTRAL_500"@[10int]);
    }
    assert("SPECTRAL_550"@ != "SPECTRAL_510"@) by {
        assert("SPECTRAL_550"@[10int] != "SPECTRAL_510"@[10int]);
    }
    assert("SPECTRAL_550"@ != "SPECTRAL_520"@) by {
        assert("SPECTRAL_550"@[10int] != "SPECTRAL_520"@[10int]);
    }
    assert("SPECTRAL_550"@ != "SPECTRAL_530"@) by {
        assert("SPECTRAL_550"@[10int] != "SPECTRAL_530"@[10int]);
    }
    assert("SPECTRAL_550"@ != "SPECTRAL_540"@) by {
        assert("SPECTRAL_550"@[10int] != "SPECTRAL_540"@[10int]);
    }
    assert("SPECTRAL_560"@ != "LAB_DE_1994T"@) by {
        assert("SPECTRAL_560"@[0int] != "LAB_DE_1994T"@[0int]);
    }
    assert("SPECTRAL_560"@ != "SPECTRAL_340"@) by {
        assert("SPECTRAL_560"@[9int] != "SPECTRAL_340"@[9int]);
    }
    assert("SPECTRAL_560"@ != "SPECTRAL_350"@) by {
        assert("SPECTRAL_560"@[9int] != "SPECTRAL_350"@[9int]);
    }
    assert("SPECTRAL_560"@ != "SPECTRAL_360"@) by {
        assert("SPECTRAL_560"@[9int] != "SPECTRAL_360"@[9int]);
    }
    assert("SPECTRAL_560"@ != "SPECTRAL_370"@) by {
        assert("SPECTRAL_560"@[9int] != "SPECTRAL_370"@[9int]);
    }
    assert("SPECTRAL_560"@ != "SPECTRAL_380"@) by {
        assert("SPECTRAL_560"@[9int] != "SPECTRAL_380"@[9int]);
    }
    assert("SPECTRAL_560"@ != "SPECTRAL_390"@) by {
        assert("SPECTRAL_560"@[9int] != "SPECTRAL_390"@[9int]);
    }
    assert("SPECTRAL_560"@ != "SPECTRAL_400"@) by {
        assert("SPECTRAL_560"@[9int] != "SPECTRAL_400"@[9int]);
    }
    assert("SPECTRAL_560"@ != "SPECTRAL_410"@) by {
        assert("SPECTRAL_560"@[9int] != "SPECTRAL_410"@[9int]);
    }
    assert("SPECTRAL_560"@ != "SPECTRAL_420"@) by {
        assert("SPECTRAL_560"@[9int] != "SPECTRAL_420"@[9int]);
    }
    assert("SPECTRAL_560"@ != "SPECTRAL_430"@) by {
        assert("SPECTRAL_560"@[9int] != "SPECTRAL_430"@[9int]);
    }
    assert("SPECTRAL_560"@ != "SPECTRAL_440"@) by {
        assert("SPECTRAL_560"@[9int] != "SPECTRAL_440"@[9int]);
    }
    assert("SPECTRAL_560"@ != "SPECTRAL_450"@) by {
        assert("SPECTRAL_560"@[9int] != "SPECTRAL_450"@[9int]);
    }
    assert("SPECTRAL_560"@ != "SPECTRAL_460"@) by {
        assert("SPECTRAL_560"@[9int] != "SPECTRAL_460"@[9int]);
    }
    assert("SPECTRAL_560"@ != "SPECTRAL_470"@) by {
        assert("SPECTRAL_560"@[9int] != "SPECTRAL_470"@[9int]);
    }
    assert("SPECTRAL_560"@ != "SPECTRAL_480"@) by {
        assert("SPECTRAL_560"@[9int] != "SPECTRAL_480"@[9int]);
    }
    assert("SPECTRAL_560"@ != "SPECTRAL_490"@) by {
        assert("SPECTRAL_560"@[9int] != "SPECTRAL_490"@[9int]);
    }
    assert("SPECTRAL_560"@ != "SPECTRAL_500"@) by {
        assert("SPECTRAL_560"@[10int] != "SPECTRAL_500"@[10int]);
    }
    assert("SPECTRAL_560"@ != "SPECTRAL_510"@) by {
        assert("SPECTRAL_560"@[10int] != "SPECTRAL_510"@[10int]);
    }
    assert("SPECTRAL_560"@ != "SPECTRAL_520"@) by {
        assert("SPECTRAL_560"@[10int] != "SPECTRAL_520"@[10int]);
    }
    assert("SPECTRAL_560"@ != "SPECTRAL_530"@) by {
        assert("SPECTRAL_560"@[10int] != "SPECTRAL_530"@[10int]);
    }
    assert("SPECTRAL_560"@ != "SPECTRAL_540"@) by {
        assert("SPECTRAL_560"@[10int] != "SPECTRAL_540"@[10int]);
    }
    assert("SPECTRAL_560"@ != "SPECTRAL_550"@) by {
        assert("SPECTRAL_560"@[10int] != "SPECTRAL_550"@[10int]);
    }
}

#[verifier::spinoff_prover]
#[verifier::rlimit(100)]
proof fn lemma_round_trip_chunk_8()
    ensures
        field_of(field_name(Field::SPECTRAL_570)) == Some(Field::SPECTRAL_570),
        field_of(field_name(Field::SPECTRAL_580)) == Some(Field::SPECTRAL_580),
        field_of(field_name(Field::SPECTRAL_590)) == Some(Field::SPECTRAL_590),
        field_of(field_name(Field::SPECTRAL_600)) == Some(Field::SPECTRAL_600),
        field_of(field_name(Field::SPECTRAL_610)) == Some(Field::SPECTRAL_610),
        field_of(field_name(Field::SPECTRAL_620)) == Some(Field::SPECTRAL_620),
        field_of(field_name(Field::SPECTRAL_630)) == Some(Field::SPECTRAL_630),
        field_of(field_name(Field::SPECTRAL_640)) == Some(Field::SPECTRAL_640),
        field_of(field_name(Field::SPECTRAL_650)) == Some(Field::SPECTRAL_650),
        field_of(field_name(Field::SPECTRAL_660)) == Some(Field::SPECTRAL_660),
{
    reveal_strlit("SAMPLE_ID");
    reveal_strlit("SAMPLEID");
    reveal_strlit("SAMPLE");
    reveal_strlit("SAMPLE_NAME");
    reveal_strlit("SAMPLENAME");
    reveal_strlit("");
    reveal_strlit("BLANK");
    reveal_strlit("RGB_R");
    reveal_strlit("RGB_G");
    reveal_strlit("RGB_B");
    reveal_strlit("CMYK_C");
    reveal_strlit("CMYK_M");
    reveal_strlit("CMYK_Y");
    reveal_strlit("CMYK_K");
    reveal_strlit("5CLR_1");
    reveal_strlit("5CLR_2");
    reveal_strlit("5CLR_3");
    reveal_strlit("5CLR_4");
    reveal_strlit("5CLR_5");
    reveal_strlit("6CLR_1");
    reveal_strlit("6CLR_2");
    reveal_strlit("6CLR_3");
    reveal_strlit("6CLR_4");
    reveal_strlit("6CLR_5");
    reveal_strlit("6CLR_6");
    reveal_strlit("7CLR_1");
    reveal_strlit("7CLR_2");
    reveal_strlit("7CLR_3");
    reveal_strlit("7CLR_4");
    reveal_strlit("7CLR_5");
    reveal_strlit("7CLR_6");
    reveal_strlit("7CLR_7");
    reveal_strlit("8CLR_1");
    reveal_strlit("8CLR_2");
    reveal_strlit("8CLR_3");
    reveal_strlit("8CLR_4");
    reveal_strlit("8CLR_5");
    reveal_strlit("8CLR_6");
    reveal_strlit("8CLR_7");
    reveal_strlit("8CLR_8");
    reveal_strlit("LAB_L");
    reveal_strlit("LAB_A");
    reveal_strlit("LAB_B");
    reveal_strlit("LAB_C");
    reveal_strlit("LAB_H");
    reveal_strlit("XYZ_X");
    reveal_strlit("XYZ_Y");
    reveal_strlit("XYZ_Z");
    reveal_strlit("XYY_X");
    reveal_strlit("XYY_Y");
    reveal_strlit("XYY_CAPY");
    reveal_strlit("D_RED");
    reveal_strlit("D_GREEN");
    reveal_strlit("D_BLUE");
    reveal_strlit("D_VISUAL");
    reveal_strlit("D_VIS");
    reveal_strlit("LAB_DE");
    reveal_strlit("DE1976");
    reveal_strlit("DE76");
    reveal_strlit("DE");
    reveal_strlit("DE_76");
    reveal_strlit("DE_1976");
    reveal_strlit("LAB_DE_1994");
    reveal_strlit("DE1994");
    reveal_strlit("DE94");
    reveal_strlit("DE1994G");
    reveal_strlit("DE94G");
    reveal_strlit("DE94_G");
    reveal_strlit("DE_1994");
    reveal_strlit("DE_94");
    reveal_strlit("DE_1994G");
    reveal_strlit("DE_1994_G");
    reveal_strlit("DE_94G");
    reveal_strlit("DE_94_G");
    reveal_strlit("LAB_DE_1994T");
    reveal_strlit("DE1994T");
    reveal_strlit("DE94T");
    reveal_strlit("DE_1994_T");
    reveal_strlit("DE_94T");
    reveal_strlit("DE_1994T");
    reveal_strlit("DE_94_T");
    reveal_strlit("DE94_T");
    reveal_strlit("LAB_DE_CMC");
    reveal_strlit("DECMC");
    reveal_strlit("DECMC1");
    reveal_strlit("CMC");
    reveal_strlit("CMC 1:1");
    reveal_strlit("DE_CMC1");
    reveal_strlit("DE_CMC_1");
    reveal_strlit("DE_CMC");
    reveal_strlit("LAB_DE_CMC2");
    reveal_strlit("DECMC2");
    reveal_strlit("CMC2");
    reveal_strlit("CMC 2:1");
    reveal_strlit("DE_CMC_2");
    reveal_strlit("DE_CMC2");
    reveal_strlit("DE_CMC 2:1");
    reveal_strlit("DECMC_2");
    reveal_strlit("LAB_DE_2001");
    reveal_strlit("DE2000");
    reveal_strlit("DE00");
    reveal_strlit("DE_2000");
    reveal_strlit("DE_00");
    reveal_strlit("SPECTRAL_340");
    reveal_strlit("SPECTRAL_350");
    reveal_strlit("SPECTRAL_360");
    reveal_strlit("SPECTRAL_370");
    reveal_strlit("SPECTRAL_380");
    reveal_strlit("SPECTRAL_390");
    reveal_strlit("SPECTRAL_400");
    reveal_strlit("SPECTRAL_410");
    reveal_strlit("SPECTRAL_420");
    reveal_strlit("SPECTRAL_430");
    reveal_strlit("SPECTRAL_440");
    reveal_strlit("SPECTRAL_450");
    reveal_strlit("SPECTRAL_460");
    reveal_strlit("SPECTRAL_470");
    reveal_strlit("SPECTRAL_480");
    reveal_strlit("SPECTRAL_490");
    reveal_strlit("SPECTRAL_500");
    reveal_strlit("SPECTRAL_510");
    reveal_strlit("SPECTRAL_520");
    reveal_strlit("SPECTRAL_530");
    reveal_strlit("SPECTRAL_540");
    reveal_strlit("SPECTRAL_550");
    reveal_strlit("SPECTRAL_560");
    reveal_strlit("SPECTRAL_570");
    reveal_strlit("SPECTRAL_580");
    reveal_strlit("SPECTRAL_590");
    reveal_strlit("SPECTRAL_600");
    reveal_strlit("SPECTRAL_610");
    reveal_strlit("SPECTRAL_620");
    reveal_strlit("SPECTRAL_630");
    reveal_strlit("SPECTRAL_640");
    reveal_strlit("SPECTRAL_650");
    reveal_strlit("SPECTRAL_660");
    assert(upper_seq("SPECTRAL_570"@) =~= "SPECTRAL_570"@);
    assert(upper_seq("SPECTRAL_580"@) =~= "SPECTRAL_580"@);
    assert(upper_seq("SPECTRAL_590"@) =~= "SPECTRAL_590"@);
    assert(upper_seq("SPECTRAL_600"@) =~= "SPECTRAL_600"@);
    assert(upper_seq("SPECTRAL_610"@) =~= "SPECTRAL_610"@);
    assert(upper_seq("SPECTRAL_620"@) =~= "SPECTRAL_620"@);
    assert(upper_seq("SPECTRAL_630"@) =~= "SPECTRAL_630"@);
    assert(upper_seq("SPECTRAL_640"@) =~= "SPECTRAL_640"@);
    assert(upper_seq("SPECTRAL_650"@) =~= "SPECTRAL_650"@);
    assert(upper_seq("SPECTRAL_660"@) =~= "SPECTRAL_660"@);
    assert("SPECTRAL_570"@ != "LAB_DE_1994T"@) by {
        assert("SPECTRAL_570"@[0int] != "LAB_DE_1994T"@[0int]);
    }
    assert("SPECTRAL_570"@ != "SPECTRAL_340"@) by {
        assert("SPECTRAL_570"@[9int] != "SPECTRAL_340"@[9int]);
    }
    assert("SPECTRAL_570"@ != "SPECTRAL_350"@) by {
        assert("SPECTRAL_570"@[9int] != "SPECTRAL_350"@[9int]);
    }
    assert("SPECTRAL_570"@ != "SPECTRAL_360"@) by {
        assert("SPECTRAL_570"@[9int] != "SPECTRAL_360"@[9int]);
    }
    assert("SPECTRAL_570"@ != "SPECTRAL_370"@) by {
        assert("SPECTRAL_570"@[9int] != "SPECTRAL_370"@[9int]);
    }
    assert("SPECTRAL_570"@ != "SPECTRAL_380"@) by {
        assert("SPECTRAL_570"@[9int] != "SPECTRAL_380"@[9int]);
    }
    assert("SPECTRAL_570"@ != "SPECTRAL_390"@) by {
        assert("SPECTRAL_570"@[9int] != "SPECTRAL_390"@[9int]);
    }
    assert("SPECTRAL_570"@ != "SPECTRAL_400"@) by {
        assert("SPECTRAL_570"@[9int] != "SPECTRAL_400"@[9int]);
    }
    assert("SPECTRAL_570"@ != "SPECTRAL_410"@) by {
        assert("SPECTRAL_570"@[9int] != "SPECTRAL_410"@[9int]);
    }
    assert("SPECTRAL_570"@ != "SPECTRAL_420"@) by {
        assert("SPECTRAL_570"@[9int] != "SPECTRAL_420"@[9int]);
    }
    assert("SPECTRAL_570"@ != "SPECTRAL_430"@) by {
        assert("SPECTRAL_570"@[9int] != "SPECTRAL_430"@[9int]);
    }
    assert("SPECTRAL_570"@ != "SPECTRAL_440"@) by {
        assert("SPECTRAL_570"@[9int] != "SPECTRAL_440"@[9int]);
    }
    assert("SPECTRAL_570"@ != "SPECTRAL_450"@) by {
        assert("SPECTRAL_570"@[9int] != "SPECTRAL_450"@[9int]);
    }
    assert("SPECTRAL_570"@ != "SPECTRAL_460"@) by {
        assert("SPECTRAL_570"@[9int] != "SPECTRAL_460"@[9int]);
    }
    assert("SPECTRAL_570"@ != "SPECTRAL_470"@) by {
        assert("SPECTRAL_570"@[9int] != "SPECTRAL_470"@[9int]);
    }
    assert("SPECTRAL_570"@ != "SPECTRAL_480"@) by {
        assert("SPECTRAL_570"@[9int] != "SPECTRAL_480"@[9int]);
    }
    assert("SPECTRAL_570"@ != "SPECTRAL_490"@) by {
        assert("SPECTRAL_570"@[9int] != "SPECTRAL_490"@[9int]);
    }
    assert("SPECTRAL_570"@ != "SPECTRAL_500"@) by {
        assert("SPECTRAL_570"@[10int] != "SPECTRAL_500"@[10int]);
    }
    assert("SPECTRAL_570"@ != "SPECTRAL_510"@) by {
        assert("SPECTRAL_570"@[10int] != "SPECTRAL_510"@[10int]);
    }
    assert("SPECTRAL_570"@ != "SPECTRAL_520"@) by {
        assert("SPECTRAL_570"@[10int] != "SPECTRAL_520"@[10int]);
    }
    assert("SPECTRAL_570"@ != "SPECTRAL_530"@) by {
        assert("SPECTRAL_570"@[10int] != "SPECTRAL_530"@[10int]);
    }
    assert("SPECTRAL_570"@ != "SPECTRAL_540"@) by {
        assert("SPECTRAL_570"@[10int] != "SPECTRAL_540"@[10int]);
    }
    assert("SPECTRAL_570"@ != "SPECTRAL_550"@) by {
        assert("SPECTRAL_570"@[10int] != "SPECTRAL_550"@[10int]);
    }
    assert("SPECTRAL_570"@ != "SPECTRAL_560"@) by {
        assert("SPECTRAL_570"@[10int] != "SPECTRAL_560"@[10int]);
    }
    assert("SPECTRAL_580"@ != "LAB_DE_1994T"@) by {
        assert("SPECTRAL_580"@[0int] != "LAB_DE_1994T"@[0int]);
    }
    assert("SPECTRAL_580"@ != "SPECTRAL_340"@) by {
        assert("SPECTRAL_580"@[9int] != "SPECTRAL_340"@[9int]);
    }
    assert("SPECTRAL_580"@ != "SPECTRAL_350"@) by {
        assert("SPECTRAL_580"@[9int] != "SPECTRAL_350"@[9int]);
    }
    assert("SPECTRAL_580"@ != "SPECTRAL_360"@) by {
        assert("SPECTRAL_580"@[9int] != "SPECTRAL_360"@[9int]);
    }
    assert("SPECTRAL_580"@ != "SPECTRAL_370"@) by {
        assert("SPECTRAL_580"@[9int] != "SPECTRAL_370"@[9int]);
    }
    assert("SPECTRAL_580"@ != "SPECTRAL_380"@) by {
        assert("SPECTRAL_580"@[9int] != "SPECTRAL_380"@[9int]);
    }
    assert("SPECTRAL_580"@ != "SPECTRAL_390"@) by {
        assert("SPECTRAL_580"@[9int] != "SPECTRAL_390"@[9int]);
    }
    assert("SPECTRAL_580"@ != "SPECTRAL_400"@) by {
        assert("SPECTRAL_580"@[9int] != "SPECTRAL_400"@[9int]);
    }
    assert("SPECTRAL_580"@ != "SPECTRAL_410"@) by {
        assert("SPECTRAL_580"@[9int] != "SPECTRAL_410"@[9int]);
    }
    assert("SPECTRAL_580"@ != "SPECTRAL_420"@) by {
        assert("SPECTRAL_580"@[9int] != "SPECTRAL_420"@[9int]);
    }
    assert("SPECTRAL_580"@ != "SPECTRAL_430"@) by {
        assert("SPECTRAL_580"@[9int] != "SPECTRAL_430"@[9int]);
    }
    assert("SPECTRAL_580"@ != "SPECTRAL_440"@) by {
        assert("SPECTRAL_580"@[9int] != "SPECTRAL_440"@[9int]);
    }
    assert("SPECTRAL_580"@ != "SPECTRAL_450"@) by {
        assert("SPECTRAL_580"@[9int] != "SPECTRAL_450"@[9int]);
    }
    assert("SPECTRAL_580"@ != "SPECTRAL_460"@) by {
        assert("SPECTRAL_580"@[9int] != "SPECTRAL_460"@[9int]);
    }
    assert("SPECTRAL_580"@ != "SPECTRAL_470"@) by {
        assert("SPECTRAL_580"@[9int] != "SPECTRAL_470"@[9int]);
    }
    assert("SPECTRAL_580"@ != "SPECTRAL_480"@) by {
        assert("SPECTRAL_580"@[9int] != "SPECTRAL_480"@[9int]);
    }
    assert("SPECTRAL_580"@ != "SPECTRAL_490"@) by {
        assert("SPECTRAL_580"@[9int] != "SPECTRAL_490"@[9int]);
    }
    assert("SPECTRAL_580"@ != "SPECTRAL_500"@) by {
        assert("SPECTRAL_580"@[10int] != "SPECTRAL_500"@[10int]);
    }
    assert("SPECTRAL_580"@ != "SPECTRAL_510"@) by {
        assert("SPECTRAL_580"@[10int] != "SPECTRAL_510"@[10int]);
    }
    assert("SPECTRAL_580"@ != "SPECTRAL_520"@) by {
        assert("SPECTRAL_580"@[10int] != "SPECTRAL_520"@[10int]);
    }
    assert("SPECTRAL_580"@ != "SPECTRAL_530"@) by {
        assert("SPECTRAL_580"@[10int] != "SPECTRAL_530"@[10int]);
    }
    assert("SPECTRAL_580"@ != "SPECTRAL_540"@) by {
        assert("SPECTRAL_580"@[10int] != "SPECTRAL_540"@[10int]);
    }
    assert("SPECTRAL_580"@ != "SPECTRAL_550"@) by {
        assert("SPECTRAL_580"@[10int] != "SPECTRAL_550"@[10int]);
    }
    assert("SPECTRAL_580"@ != "SPECTRAL_560"@) by {
        assert("SPECTRAL_580"@[10int] != "SPECTRAL_560"@[10int]);
    }
    assert("SPECTRAL_580"@ != "SPECTRAL_570"@) by {
        assert("SPECTRAL_580"@[10int] != "SPECTRAL_570"@[10int]);
    }
    assert("SPECTRAL_590"@ != "LAB_DE_1994T"@) by {
        assert("SPECTRAL_590"@[0int] != "LAB_DE_1994T"@[0int]);
    }
    assert("SPECTRAL_590"@ != "SPECTRAL_340"@) by {
        assert("SPECTRAL_590"@[9int] != "SPECTRAL_340"@[9int]);
    }
    assert("SPECTRAL_590"@ != "SPECTRAL_350"@) by {
        assert("SPECTRAL_590"@[9int] != "SPECTRAL_350"@[9int]);
    }
    assert("SPECTRAL_590"@ != "SPECTRAL_360"@) by {
        assert("SPECTRAL_590"@[9int] != "SPECTRAL_360"@[9int]);
    }
    assert("SPECTRAL_590"@ != "SPECTRAL_370"@) by {
        assert("SPECTRAL_590"@[9int] != "SPECTRAL_370"@[9int]);
    }
    assert("SPECTRAL_590"@ != "SPECTRAL_380"@) by {
        assert("SPECTRAL_590"@[9int] != "SPECTRAL_380"@[9int]);
    }
    assert("SPECTRAL_590"@ != "SPECTRAL_390"@) by {
        assert("SPECTRAL_590"@[9int] != "SPECTRAL_390"@[9int]);
    }
    assert("SPECTRAL_590"@ != "SPECTRAL_400"@) by {
        assert("SPECTRAL_590"@[9int] != "SPECTRAL_400"@[9int]);
    }
    assert("SPECTRAL_590"@ != "SPECTRAL_410"@) by {
        assert("SPECTRAL_590"@[9int] != "SPECTRAL_410"@[9int]);
    }
    assert("SPECTRAL_590"@ != "SPECTRAL_420"@) by {
        assert("SPECTRAL_590"@[9int] != "SPECTRAL_420"@[9int]);
    }
    assert("SPECTRAL_590"@ != "SPECTRAL_430"@) by {
        assert("SPECTRAL_590"@[9int] != "SPECTRAL_430"@[9int]);
    }
    assert("SPECTRAL_590"@ != "SPECTRAL_440"@) by {
        assert("SPECTRAL_590"@[9int] != "SPECTRAL_440"@[9int]);
    }
    assert("SPECTRAL_590"@ != "SPECTRAL_450"@) by {
        assert("SPECTRAL_590"@[9int] != "SPECTRAL_450"@[9int]);
    }
    assert("SPECTRAL_590"@ != "SPECTRAL_460"@) by {
        assert("SPECTRAL_590"@[9int] != "SPECTRAL_460"@[9int]);
    }
    assert("SPECTRAL_590"@ != "SPECTRAL_470"@) by {
        assert("SPECTRAL_590"@[9int] != "SPECTRAL_470"@[9int]);
    }
    assert("SPECTRAL_590"@ != "SPECTRAL_480"@) by {
        assert("SPECTRAL_590"@[9int] != "SPECTRAL_480"@[9int]);
    }
    assert("SPECTRAL_590"@ != "SPECTRAL_490"@) by {
        assert("SPECTRAL_590"@[9int] != "SPECTRAL_490"@[9int]);
    }
    assert("SPECTRAL_590"@ != "SPECTRAL_500"@) by {
        assert("SPECTRAL_590"@[10int] != "SPECTRAL_500"@[10int]);
    }
    assert("SPECTRAL_590"@ != "SPECTRAL_510"@) by {
        assert("SPECTRAL_590"@[10int] != "SPECTRAL_510"@[10int]);
    }
    assert("SPECTRAL_590"@ != "SPECTRAL_520"@) by {
        assert("SPECTRAL_590"@[10int] != "SPECTRAL_520"@[10int]);
    }
    assert("SPECTRAL_590"@ != "SPECTRAL_530"@) by {
        assert("SPECTRAL_590"@[10int] != "SPECTRAL_530"@[10int]);
    }
    assert("SPECTRAL_590"@ != "SPECTRAL_540"@) by {
        assert("SPECTRAL_590"@[10int] != "SPECTRAL_540"@[10int]);
    }
    assert("SPECTRAL_590"@ != "SPECTRAL_550"@) by {
        assert("SPECTRAL_590"@[10int] != "SPECTRAL_550"@[10int]);
    }
    assert("SPECTRAL_590"@ != "SPECTRAL_560"@) by {
        assert("SPECTRAL_590"@[10int] != "SPECTRAL_560"@[10int]);
    }
    assert("SPECTRAL_590"@ != "SPECTRAL_570"@) by {
        assert("SPECTRAL_590"@[10int] != "SPECTRAL_570"@[10int]);
    }
    assert("SPECTRAL_590"@ != "SPECTRAL_580"@) by {
        assert("SPECTRAL_590"@[10int] != "SPECTRAL_580"@[10int]);
    }
    assert("SPECTRAL_600"@ != "LAB_DE_1994T"@) by {
        assert("SPECTRAL_600"@[0int] != "LAB_DE_1994T"@[0int]);
    }
    assert("SPECTRAL_600"@ != "SPECTRAL_340"@) by {
        assert("SPECTRAL_600"@[9int] != "SPECTRAL_340"@[9int]);
    }
    assert("SPECTRAL_600"@ != "SPECTRAL_350"@) by {
        assert("SPECTRAL_600"@[9int] != "SPECTRAL_350"@[9int]);
    }
    assert("SPECTRAL_600"@ != "SPECTRAL_360"@) by {
        assert("SPECTRAL_600"@[9int] != "SPECTRAL_360"@[9int]);
    }
    assert("SPECTRAL_600"@ != "SPECTRAL_370"@) by {
        assert("SPECTRAL_600"@[9int] != "SPECTRAL_370"@[9int]);
    }
    assert("SPECTRAL_600"@ != "SPECTRAL_380"@) by {
        assert("SPECTRAL_600"@[9int] != "SPECTRAL_380"@[9int]);
    }
    assert("SPECTRAL_600"@ != "SPECTRAL_390"@) by {
        assert("SPECTRAL_600"@[9int] != "SPECTRAL_390"@[9int]);
    }
    assert("SPECTRAL_600"@ != "SPECTRAL_400"@) by {
        assert("SPECTRAL_600"@[9int] != "SPECTRAL_400"@[9int]);
    }
    assert("SPECTRAL_600"@ != "SPECTRAL_410"@) by {
        assert("SPECTRAL_600"@[9int] != "SPECTRAL_410"@[9int]);
    }
    assert("SPECTRAL_600"@ != "SPECTRAL_420"@) by {
        assert("SPECTRAL_600"@[9int] != "SPECTRAL_420"@[9int]);
    }
    assert("SPECTRAL_600"@ != "SPECTRAL_430"@) by {
        assert("SPECTRAL_600"@[9int] != "SPECTRAL_430"@[9int]);
    }
    assert("SPECTRAL_600"@ != "SPECTRAL_440"@) by {
        assert("SPECTRAL_600"@[9int] != "SPECTRAL_440"@[9int]);
    }
    assert("SPECTRAL_600"@ != "SPECTRAL_450"@) by {
        assert("SPECTRAL_600"@[9int] != "SPECTRAL_450"@[9int]);
    }
    assert("SPECTRAL_600"@ != "SPECTRAL_460"@) by {
        assert("SPECTRAL_600"@[9int] != "SPECTRAL_460"@[9int]);
    }
    assert("SPECTRAL_600"@ != "SPECTRAL_470"@) by {
        assert("SPECTRAL_600"@[9int] != "SPECTRAL_470"@[9int]);
    }
    assert("SPECTRAL_600"@ != "SPECTRAL_480"@) by {
        assert("SPECTRAL_600"@[9int] != "SPECTRAL_480"@[9int]);
    }
    assert("SPECTRAL_600"@ != "SPECTRAL_490"@) by {
        assert("SPECTRAL_600"@[9int] != "SPECTRAL_490"@[9int]);
    }
    assert("SPECTRAL_600"@ != "SPECTRAL_500"@) by {
        assert("SPECTRAL_600"@[9int] != "SPECTRAL_500"@[9int]);
    }
    assert("SPECTRAL_600"@ != "SPECTRAL_510"@) by {
        assert("SPECTRAL_600"@[9int] != "SPECTRAL_510"@[9int]);
    }
    assert("SPECTRAL_600"@ != "SPECTRAL_520"@) by {
        assert("SPECTRAL_600"@[9int] != "SPECTRAL_520"@[9int]);
    }
    assert("SPECTRAL_600"@ != "SPECTRAL_530"@) by {
        assert("SPECTRAL_600"@[9int] != "SPECTRAL_530"@[9int]);
    }
    assert("SPECTRAL_600"@ != "SPECTRAL_540"@) by {
        assert("SPECTRAL_600"@[9int] != "SPECTRAL_540"@[9int]);
    }
    assert("SPECTRAL_600"@ != "SPECTRAL_550"@) by {
        assert("SPECTRAL_600"@[9int] != "SPECTRAL_550"@[9int]);
    }
    assert("SPECTRAL_600"@ != "SPECTRAL_560"@) by {
        assert("SPECTRAL_600"@[9int] != "SPECTRAL_560"@[9int]);
    }
    assert("SPECTRAL_600"@ != "SPECTRAL_570"@) by {
        assert("SPECTRAL_600"@[9int] != "SPECTRAL_570"@[9int]);
    }
    assert("SPECTRAL_600"@ != "SPECTRAL_580"@) by {
        assert("SPECTRAL_600"@[9int] != "SPECTRAL_580"@[9int]);
    }
    assert("SPECTRAL_600"@ != "SPECTRAL_590"@) by {
        assert("SPECTRAL_600"@[9int] != "SPECTRAL_590"@[9int]);
    }
    assert("SPECTRAL_610"@ != "LAB_DE_1994T"@) by {
        assert("SPECTRAL_610"@[0int] != "LAB_DE_1994T"@[0int]);
    }
    assert("SPECTRAL_610"@ != "SPECTRAL_340"@) by {
        assert("SPECTRAL_610"@[9int] != "SPECTRAL_340"@[9int]);
    }
    assert("SPECTRAL_610"@ != "SPECTRAL_350"@) by {
        assert("SPECTRAL_610"@[9int] != "SPECTRAL_350"@[9int]);
    }
    assert("SPECTRAL_610"@ != "SPECTRAL_360"@) by {
        assert("SPECTRAL_610"@[9int] != "SPECTRAL_360"@[9int]);
    }
    assert("SPECTRAL_610"@ != "SPECTRAL_370"@) by {
        assert("SPECTRAL_610"@[9int] != "SPECTRAL_370"@[9int]);
    }
    assert("SPECTRAL_610"@ != "SPECTRAL_380"@) by {
        assert("SPECTRAL_610"@[9int] != "SPECTRAL_380"@[9int]);
    }
    assert("SPECTRAL_610"@ != "SPECTRAL_390"@) by {
        assert("SPECTRAL_610"@[9int] != "SPECTRAL_390"@[9int]);
    }
    assert("SPECTRAL_610"@ != "SPECTRAL_400"@) by {
        assert("SPECTRAL_610"@[9int] != "SPECTRAL_400"@[9int]);
    }
    assert("SPECTRAL_610"@ != "SPECTRAL_410"@) by {
        assert("SPECTRAL_610"@[9int] != "SPECTRAL_410"@[9int]);
    }
    assert("SPECTRAL_610"@ != "SPECTRAL_420"@) by {
        assert("SPECTRAL_610"@[9int] != "SPECTRAL_420"@[9int]);
    }
    assert("SPECTRAL_610"@ != "SPECTRAL_430"@) by {
        assert("SPECTRAL_610"@[9int] != "SPECTRAL_430"@[9int]);
    }
    assert("SPECTRAL_610"@ != "SPECTRAL_440"@) by {
        assert("SPECTRAL_610"@[9int] != "SPECTRAL_440"@[9int]);
    }
    assert("SPECTRAL_610"@ != "SPECTRAL_450"@) by {
        assert("SPECTRAL_610"@[9int] != "SPECTRAL_450"@[9int]);
    }
    assert("SPECTRAL_610"@ != "SPECTRAL_460"@) by {
        assert("SPECTRAL_610"@[9int] != "SPECTRAL_460"@[9int]);
    }
    assert("SPECTRAL_610"@ != "SPECTRAL_470"@) by {
        assert("SPECTRAL_610"@[9int] != "SPECTRAL_470"@[9int]);
    }
    assert("SPECTRAL_610"@ != "SPECTRAL_480"@) by {
        assert("SPECTRAL_610"@[9int] != "SPECTRAL_480"@[9int]);
    }
    assert("SPECTRAL_610"@ != "SPECTRAL_490"@) by {
        assert("SPECTRAL_610"@[9int] != "SPECTRAL_490"@[9int]);
    }
    assert("SPECTRAL_610"@ != "SPECTRAL_500"@) by {
        assert("SPECTRAL_610"@[9int] != "SPECTRAL_500"@[9int]);
    }
    assert("SPECTRAL_610"@ != "SPECTRAL_510"@) by {
        assert("SPECTRAL_610"@[9int] != "SPECTRAL_510"@[9int]);
    }
    assert("SPECTRAL_610"@ != "SPECTRAL_520"@) by {
        assert("SPECTRAL_610"@[9int] != "SPECTRAL_520"@[9int]);
    }
    assert("SPECTRAL_610"@ != "SPECTRAL_530"@) by {
        assert("SPECTRAL_610"@[9int] != "SPECTRAL_530"@[9int]);
    }
    assert("SPECTRAL_610"@ != "SPECTRAL_540"@) by {
        assert("SPECTRAL_610"@[9int] != "SPECTRAL_540"@[9int]);
    }
    assert("SPECTRAL_610"@ != "SPECTRAL_550"@) by {
        assert("SPECTRAL_610"@[9int] != "SPECTRAL_550"@[9int]);
    }
    assert("SPECTRAL_610"@ != "SPECTRAL_560"@) by {
        assert("SPECTRAL_610"@[9int] != "SPECTRAL_560"@[9int]);
    }
    assert("SPECTRAL_610"@ != "SPECTRAL_570"@) by {
        assert("SPECTRAL_610"@[9int] != "SPECTRAL_570"@[9int]);
    }
    assert("SPECTRAL_610"@ != "SPECTRAL_580"@) by {
        assert("SPECTRAL_610"@[9int] != "SPECTRAL_580"@[9int]);
    }
    assert("SPECTRAL_610"@ != "SPECTRAL_590"@) by {
        assert("SPECTRAL_610"@[9int] != "SPECTRAL_590"@[9int]);
    }
    assert("SPECTRAL_610"@ != "SPECTRAL_600"@) by {
        assert("SPECTRAL_610"@[10int] != "SPECTRAL_600"@[10int]);
    }
    assert("SPECTRAL_620"@ != "LAB_DE_1994T"@) by {
        assert("SPECTRAL_620"@[0int] != "LAB_DE_1994T"@[0int]);
    }
    assert("SPECTRAL_620"@ != "SPECTRAL_340"@) by {
        assert("SPECTRAL_620"@[9int] != "SPECTRAL_340"@[9int]);
    }
    assert("SPECTRAL_620"@ != "SPECTRAL_350"@) by {
        assert("SPECTRAL_620"@[9int] != "SPECTRAL_350"@[9int]);
    }
    assert("SPECTRAL_620"@ != "SPECTRAL_360"@) by {
        assert("SPECTRAL_620"@[9int] != "SPECTRAL_360"@[9int]);
    }
    assert("SPECTRAL_620"@ != "SPECTRAL_370"@) by {
        assert("SPECTRAL_620"@[9int] != "SPECTRAL_370"@[9int]);
    }
    assert("SPECTRAL_620"@ != "SPECTRAL_380"@) by {
        assert("SPECTRAL_620"@[9int] != "SPECTRAL_380"@[9int]);
    }
    assert("SPECTRAL_620"@ != "SPECTRAL_390"@) by {
        assert("SPECTRAL_620"@[9int] != "SPECTRAL_390"@[9int]);
    }
    assert("SPECTRAL_620"@ != "SPECTRAL_400"@) by {
        assert("SPECTRAL_620"@[9int] != "SPECTRAL_400"@[9int]);
    }
    assert("SPECTRAL_620"@ != "SPECTRAL_410"@) by {
        assert("SPECTRAL_620"@[9int] != "SPECTRAL_410"@[9int]);
    }
    assert("SPECTRAL_620"@ != "SPECTRAL_420"@) by {
        assert("SPECTRAL_620"@[9int] != "SPECTRAL_420"@[9int]);
    }
    assert("SPECTRAL_620"@ != "SPECTRAL_430"@) by {
        assert("SPECTRAL_620"@[9int] != "SPECTRAL_430"@[9int]);
    }
    assert("SPECTRAL_620"@ != "SPECTRAL_440"@) by {
        assert("SPECTRAL_620"@[9int] != "SPECTRAL_440"@[9int]);
    }
    assert("SPECTRAL_620"@ != "SPECTRAL_450"@) by {
        assert("SPECTRAL_620"@[9int] != "SPECTRAL_450"@[9int]);
    }
    assert("SPECTRAL_620"@ != "SPECTRAL_460"@) by {
        assert("SPECTRAL_620"@[9int] != "SPECTRAL_460"@[9int]);
    }
    assert("SPECTRAL_620"@ != "SPECTRAL_470"@) by {
        assert("SPECTRAL_620"@[9int] != "SPECTRAL_470"@[9int]);
    }
    assert("SPECTRAL_620"@ != "SPECTRAL_480"@) by {
        assert("SPECTRAL_620"@[9int] != "SPECTRAL_480"@[9int]);
    }
    assert("SPECTRAL_620"@ != "SPECTRAL_490"@) by {
        assert("SPECTRAL_620"@[9int] != "SPECTRAL_490"@[9int]);
    }
    assert("SPECTRAL_620"@ != "SPECTRAL_500"@) by {
        assert("SPECTRAL_620"@[9int] != "SPECTRAL_500"@[9int]);
    }
    assert("SPECTRAL_620"@ != "SPECTRAL_510"@) by {
        assert("SPECTRAL_620"@[9int] != "SPECTRAL_510"@[9int]);
    }
    assert("SPECTRAL_620"@ != "SPECTRAL_520"@) by {
        assert("SPECTRAL_620"@[9int] != "SPECTRAL_520"@[9int]);
    }
    assert("SPECTRAL_620"@ != "SPECTRAL_530"@) by {
        assert("SPECTRAL_620"@[9int] != "SPECTRAL_530"@[9int]);
    }
    assert("SPECTRAL_620"@ != "SPECTRAL_540"@) by {
        assert("SPECTRAL_620"@[9int] != "SPECTRAL_540"@[9int]);
    }
    assert("SPECTRAL_620"@ != "SPECTRAL_550"@) by {
        assert("SPECTRAL_620"@[9int] != "SPECTRAL_550"@[9int]);
    }
    assert("SPECTRAL_620"@ != "SPECTRAL_560"@) by {
        assert("SPECTRAL_620"@[9int] != "SPECTRAL_560"@[9int]);
    }
    assert("SPECTRAL_620"@ != "SPECTRAL_570"@) by {
        assert("SPECTRAL_620"@[9int] != "SPECTRAL_570"@[9int]);
    }
    assert("SPECTRAL_620"@ != "SPECTRAL_580"@) by {
        assert("SPECTRAL_620"@[9int] != "SPECTRAL_580"@[9int]);
    }
    assert("SPECTRAL_620"@ != "SPECTRAL_590"@) by {
        assert("SPECTRAL_620"@[9int] != "SPECTRAL_590"@[9int]);
    }
    assert("SPECTRAL_620"@ != "SPECTRAL_600"@) by {
        assert("SPECTRAL_620"@[10int] != "SPECTRAL_600"@[10int]);
    }
    assert("SPECTRAL_620"@ != "SPECTRAL_610"@) by {
        assert("SPECTRAL_620"@[10int] != "SPECTRAL_610"@[10int]);
    }
    assert("SPECTRAL_630"@ != "LAB_DE_1994T"@) by {
        assert("SPECTRAL_630"@[0int] != "LAB_DE_1994T"@[0int]);
    }
    assert("SPECTRAL_630"@ != "SPECTRAL_340"@) by {
        assert("SPECTRAL_630"@[9int] != "SPECTRAL_340"@[9int]);
    }
    assert("SPECTRAL_630"@ != "SPECTRAL_350"@) by {
        assert("SPECTRAL_630"@[9int] != "SPECTRAL_350"@[9int]);
    }
    assert("SPECTRAL_630"@ != "SPECTRAL_360"@) by {
        assert("SPECTRAL_630"@[9int] != "SPECTRAL_360"@[9int]);
    }
    assert("SPECTRAL_630"@ != "SPECTRAL_370"@) by {
        assert("SPECTRAL_630"@[9int] != "SPECTRAL_370"@[9int]);
    }
    assert("SPECTRAL_630"@ != "SPECTRAL_380"@) by {
        assert("SPECTRAL_630"@[9int] != "SPECTRAL_380"@[9int]);
    }
    assert("SPECTRAL_630"@ != "SPECTRAL_390"@) by {
        assert("SPECTRAL_630"@[9int] != "SPECTRAL_390"@[9int]);
    }
    assert("SPECTRAL_630"@ != "SPECTRAL_400"@) by {
        assert("SPECTRAL_630"@[9int] != "SPECTRAL_400"@[9int]);
    }
    assert("SPECTRAL_630"@ != "SPECTRAL_410"@) by {
        assert("SPECTRAL_630"@[9int] != "SPECTRAL_410"@[9int]);
    }
    assert("SPECTRAL_630"@ != "SPECTRAL_420"@) by {
        assert("SPECTRAL_630"@[9int] != "SPECTRAL_420"@[9int]);
    }
    assert("SPECTRAL_630"@ != "SPECTRAL_430"@) by {
        assert("SPECTRAL_630"@[9int] != "SPECTRAL_430"@[9int]);
    }
    assert("SPECTRAL_630"@ != "SPECTRAL_440"@) by {
        assert("SPECTRAL_630"@[9int] != "SPECTRAL_440"@[9int]);
    }
    assert("SPECTRAL_630"@ != "SPECTRAL_450"@) by {
        assert("SPECTRAL_630"@[9int] != "SPECTRAL_450"@[9int]);
    }
    assert("SPECTRAL_630"@ != "SPECTRAL_460"@) by {
        assert("SPECTRAL_630"@[9int] != "SPECTRAL_460"@[9int]);
    }
    assert("SPECTRAL_630"@ != "SPECTRAL_470"@) by {
        assert("SPECTRAL_630"@[9int] != "SPECTRAL_470"@[9int]);
    }
    assert("SPECTRAL_630"@ != "SPECTRAL_480"@) by {
        assert("SPECTRAL_630"@[9int] != "SPECTRAL_480"@[9int]);
    }
    assert("SPECTRAL_630"@ != "SPECTRAL_490"@) by {
        assert("SPECTRAL_630"@[9int] != "SPECTRAL_490"@[9int]);
    }
    assert("SPECTRAL_630"@ != "SPECTRAL_500"@) by {
        assert("SPECTRAL_630"@[9int] != "SPECTRAL_500"@[9int]);
    }
    assert("SPECTRAL_630"@ != "SPECTRAL_510"@) by {
        assert("SPECTRAL_630"@[9int] != "SPECTRAL_510"@[9int]);
    }
    assert("SPECTRAL_630"@ != "SPECTRAL_520"@) by {
        assert("SPECTRAL_630"@[9int] != "SPECTRAL_520"@[9int]);
    }
    assert("SPECTRAL_630"@ != "SPECTRAL_530"@) by {
        assert("SPECTRAL_630"@[9int] != "SPECTRAL_530"@[9int]);
    }
    assert("SPECTRAL_630"@ != "SPECTRAL_540"@) by {
        assert("SPECTRAL_630"@[9int] != "SPECTRAL_540"@[9int]);
    }
    assert("SPECTRAL_630"@ != "SPECTRAL_550"@) by {
        assert("SPECTRAL_630"@[9int] != "SPECTRAL_550"@[9int]);
    }
    assert("SPECTRAL_630"@ != "SPECTRAL_560"@) by {
        assert("SPECTRAL_630"@[9int] != "SPECTRAL_560"@[9int]);
    }
    assert("SPECTRAL_630"@ != "SPECTRAL_570"@) by {
        assert("SPECTRAL_630"@[9int] != "SPECTRAL_570"@[9int]);
    }
    assert("SPECTRAL_630"@ != "SPECTRAL_580"@) by {
        assert("SPECTRAL_630"@[9int] != "SPECTRAL_580"@[9int]);
    }
    assert("SPECTRAL_630"@ != "SPECTRAL_590"@) by {
        assert("SPECTRAL_630"@[9int] != "SPECTRAL_590"@[9int]);
    }
    assert("SPECTRAL_630"@ != "SPECTRAL_600"@) by {
        assert("SPECTRAL_630"@[10int] != "SPECTRAL_600"@[10int]);
    }
    assert("SPECTRAL_630"@ != "SPECTRAL_610"@) by {
        assert("SPECTRAL_630"@[10int] != "SPECTRAL_610"@[10int]);
    }
    assert("SPECTRAL_630"@ != "SPECTRAL_620"@) by {
        assert("SPECTRAL_630"@[10int] != "SPECTRAL_620"@[10int]);
    }
    assert("SPECTRAL_640"@ != "LAB_DE_1994T"@) by {
        assert("SPECTRAL_640"@[0int] != "LAB_DE_1994T"@[0int]);
    }
    assert("SPECTRAL_640"@ != "SPECTRAL_340"@) by {
        assert("SPECTRAL_640"@[9int] != "SPECTRAL_340"@[9int]);
    }
    assert("SPECTRAL_640"@ != "SPECTRAL_350"@) by {
        assert("SPECTRAL_640"@[9int] != "SPECTRAL_350"@[9int]);
    }
    assert("SPECTRAL_640"@ != "SPECTRAL_360"@) by {
        assert("SPECTRAL_640"@[9int] != "SPECTRAL_360"@[9int]);
    }
    assert("SPECTRAL_640"@ != "SPECTRAL_370"@) by {
        assert("SPECTRAL_640"@[9int] != "SPECTRAL_370"@[9int]);
    }
    assert("SPECTRAL_640"@ != "SPECTRAL_380"@) by {
        assert("SPECTRAL_640"@[9int] != "SPECTRAL_380"@[9int]);
    }
    assert("SPECTRAL_640"@ != "SPECTRAL_390"@) by {
        assert("SPECTRAL_640"@[9int] != "SPECTRAL_390"@[9int]);
    }
    assert("SPECTRAL_640"@ != "SPECTRAL_400"@) by {
        assert("SPECTRAL_640"@[9int] != "SPECTRAL_400"@[9int]);
    }
    assert("SPECTRAL_640"@ != "SPECTRAL_410"@) by {
        assert("SPECTRAL_640"@[9int] != "SPECTRAL_410"@[9int]);
    }
    assert("SPECTRAL_640"@ != "SPECTRAL_420"@) by {
        assert("SPECTRAL_640"@[9int] != "SPECTRAL_420"@[9int]);
    }
    assert("SPECTRAL_640"@ != "SPECTRAL_430"@) by {
        assert("SPECTRAL_640"@[9int] != "SPECTRAL_430"@[9int]);
    }
    assert("SPECTRAL_640"@ != "SPECTRAL_440"@) by {
        assert("SPECTRAL_640"@[9int] != "SPECTRAL_440"@[9int]);
    }
    assert("SPECTRAL_640"@ != "SPECTRAL_450"@) by {
        assert("SPECTRAL_640"@[9int] != "SPECTRAL_450"@[9int]);
    }
    assert("SPECTRAL_640"@ != "SPECTRAL_460"@) by {
        assert("SPECTRAL_640"@[9int] != "SPECTRAL_460"@[9int]);
    }
    assert("SPECTRAL_640"@ != "SPECTRAL_470"@) by {
        assert("SPECTRAL_640"@[9int] != "SPECTRAL_470"@[9int]);
    }
    assert("SPECTRAL_640"@ != "SPECTRAL_480"@) by {
        assert("SPECTRAL_640"@[9int] != "SPECTRAL_480"@[9int]);
    }
    assert("SPECTRAL_640"@ != "SPECTRAL_490"@) by {
        assert("SPECTRAL_640"@[9int] != "SPECTRAL_490"@[9int]);
    }
    assert("SPECTRAL_640"@ != "SPECTRAL_500"@) by {
        assert("SPECTRAL_640"@[9int] != "SPECTRAL_500"@[9int]);
    }
    assert("SPECTRAL_640"@ != "SPECTRAL_510"@) by {
        assert("SPECTRAL_640"@[9int] != "SPECTRAL_510"@[9int]);
    }
    assert("SPECTRAL_640"@ != "SPECTRAL_520"@) by {
        assert("SPECTRAL_640"@[9int] != "SPECTRAL_520"@[9int]);
    }
    assert("SPECTRAL_640"@ != "SPECTRAL_530"@) by {
        assert("SPECTRAL_640"@[9int] != "SPECTRAL_530"@[9int]);
    }
    assert("SPECTRAL_640"@ != "SPECTRAL_540"@) by {
        assert("SPECTRAL_640"@[9int] != "SPECTRAL_540"@[9int]);
    }
    assert("SPECTRAL_640"@ != "SPECTRAL_550"@) by {
        assert("SPECTRAL_640"@[9int] != "SPECTRAL_550"@[9int]);
    }
    assert("SPECTRAL_640"@ != "SPECTRAL_560"@) by {
        assert("SPECTRAL_640"@[9int] != "SPECTRAL_560"@[9int]);
    }
    assert("SPECTRAL_640"@ != "SPECTRAL_570"@) by {
        assert("SPECTRAL_640"@[9int] != "SPECTRAL_570"@[9int]);
    }
    assert("SPECTRAL_640"@ != "SPECTRAL_580"@) by {
        assert("SPECTRAL_640"@[9int] != "SPECTRAL_580"@[9int]);
    }
    assert("SPECTRAL_640"@ != "SPECTRAL_590"@) by {
        assert("SPECTRAL_640"@[9int] != "SPECTRAL_590"@[9int]);
    }
    assert("SPECTRAL_640"@ != "SPECTRAL_600"@) by {
        assert("SPECTRAL_640"@[10int] != "SPECTRAL_600"@[10int]);
    }
    assert("SPECTRAL_640"@ != "SPECTRAL_610"@) by {
        assert("SPECTRAL_640"@[10int] != "SPECTRAL_610"@[10int]);
    }
    assert("SPECTRAL_640"@ != "SPECTRAL_620"@) by {
        assert("SPECTRAL_640"@[10int] != "SPECTRAL_620"@[10int]);
    }
    assert("SPECTRAL_640"@ != "SPECTRAL_630"@) by {
        assert("SPECTRAL_640"@[10int] != "SPECTRAL_630"@[10int]);
    }
    assert("SPECTRAL_650"@ != "LAB_DE_1994T"@) by {
        assert("SPECTRAL_650"@[0int] != "LAB_DE_1994T"@[0int]);
    }
    assert("SPECTRAL_650"@ != "SPECTRAL_340"@) by {
        assert("SPECTRAL_650"@[9int] != "SPECTRAL_340"@[9int]);
    }
    assert("SPECTRAL_650"@ != "SPECTRAL_350"@) by {
        assert("SPECTRAL_650"@[9int] != "SPECTRAL_350"@[9int]);
    }
    assert("SPECTRAL_650"@ != "SPECTRAL_360"@) by {
        assert("SPECTRAL_650"@[9int] != "SPECTRAL_360"@[9int]);
    }
    assert("SPECTRAL_650"@ != "SPECTRAL_370"@) by {
        assert("SPECTRAL_650"@[9int] != "SPECTRAL_370"@[9int]);
    }
    assert("SPECTRAL_650"@ != "SPECTRAL_380"@) by {
        assert("SPECTRAL_650"@[9int] != "SPECTRAL_380"@[9int]);
    }
    assert("SPECTRAL_650"@ != "SPECTRAL_390"@) by {
        assert("SPECTRAL_650"@[9int] != "SPECTRAL_390"@[9int]);
    }
    assert("SPECTRAL_650"@ != "SPECTRAL_400"@) by {
        assert("SPECTRAL_650"@[9int] != "SPECTRAL_400"@[9int]);
    }
    assert("SPECTRAL_650"@ != "SPECTRAL_410"@) by {
        assert("SPECTRAL_650"@[9int] != "SPECTRAL_410"@[9int]);
    }
    assert("SPECTRAL_650"@ != "SPECTRAL_420"@) by {
        assert("SPECTRAL_650"@[9int] != "SPECTRAL_420"@[9int]);
    }
    assert("SPECTRAL_650"@ != "SPECTRAL_430"@) by {
        assert("SPECTRAL_650"@[9int] != "SPECTRAL_430"@[9int]);
    }
    assert("SPECTRAL_650"@ != "SPECTRAL_440"@) by {
        assert("SPECTRAL_650"@[9int] != "SPECTRAL_440"@[9int]);
    }
    assert("SPECTRAL_650"@ != "SPECTRAL_450"@) by {
        assert("SPECTRAL_650"@[9int] != "SPECTRAL_450"@[9int]);
    }
    assert("SPECTRAL_650"@ != "SPECTRAL_460"@) by {
        assert("SPECTRAL_650"@[9int] != "SPECTRAL_460"@[9int]);
    }
    assert("SPECTRAL_650"@ != "SPECTRAL_470"@) by {
        assert("SPECTRAL_650"@[9int] != "SPECTRAL_470"@[9int]);
    }
    assert("SPECTRAL_650"@ != "SPECTRAL_480"@) by {
        assert("SPECTRAL_650"@[9int] != "SPECTRAL_480"@[9int]);
    }
    assert("SPECTRAL_650"@ != "SPECTRAL_490"@) by {
        assert("SPECTRAL_650"@[9int] != "SPECTRAL_490"@[9int]);
    }
    assert("SPECTRAL_650"@ != "SPECTRAL_500"@) by {
        assert("SPECTRAL_650"@[9int] != "SPECTRAL_500"@[9int]);
    }
    assert("SPECTRAL_650"@ != "SPECTRAL_510"@) by {
        assert("SPECTRAL_650"@[9int] != "SPECTRAL_510"@[9int]);
    }
    assert("SPECTRAL_650"@ != "SPECTRAL_520"@) by {
        assert("SPECTRAL_650"@[9int] != "SPECTRAL_520"@[9int]);
    }
    assert("SPECTRAL_650"@ != "SPECTRAL_530"@) by {
        assert("SPECTRAL_650"@[9int] != "SPECTRAL_530"@[9int]);
    }
    assert("SPECTRAL_650"@ != "SPECTRAL_540"@) by {
        assert("SPECTRAL_650"@[9int] != "SPECTRAL_540"@[9int]);
    }
    assert("SPECTRAL_650"@ != "SPECTRAL_550"@) by {
        assert("SPECTRAL_650"@[9int] != "SPECTRAL_550"@[9int]);
    }
    assert("SPECTRAL_650"@ != "SPECTRAL_560"@) by {
        assert("SPECTRAL_650"@[9int] != "SPECTRAL_560"@[9int]);
    }
    assert("SPECTRAL_650"@ != "SPECTRAL_570"@) by {
        assert("SPECTRAL_650"@[9int] != "SPECTRAL_570"@[9int]);
    }
    assert("SPECTRAL_650"@ != "SPECTRAL_580"@) by {
        assert("SPECTRAL_650"@[9int] != "SPECTRAL_580"@[9int]);
    }
    assert("SPECTRAL_650"@ != "SPECTRAL_590"@) by {
        assert("SPECTRAL_650"@[9int] != "SPECTRAL_590"@[9int]);
    }
    assert("SPECTRAL_650"@ != "SPECTRAL_600"@) by {
        assert("SPECTRAL_650"@[10int] != "SPECTRAL_600"@[10int]);
    }
    assert("SPECTRAL_650"@ != "SPECTRAL_610"@) by {
        assert("SPECTRAL_650"@[10int] != "SPECTRAL_610"@[10int]);
    }
    assert("SPECTRAL_650"@ != "SPECTRAL_620"@) by {
        assert("SPECTRAL_650"@[10int] != "SPECTRAL_620"@[10int]);
    }
    assert("SPECTRAL_650"@ != "SPECTRAL_630"@) by {
        assert("SPECTRAL_650"@[10int] != "SPECTRAL_630"@[10int]);
    }
    assert("SPECTRAL_650"@ != "SPECTRAL_640"@) by {
        assert("SPECTRAL_650"@[10int] != "SPECTRAL_640"@[10int]);
    }
    assert("SPECTRAL_660"@ != "LAB_DE_1994T"@) by {
        assert("SPECTRAL_660"@[0int] != "LAB_DE_1994T"@[0int]);
    }
    assert("SPECTRAL_660"@ != "SPECTRAL_340"@) by {
        assert("SPECTRAL_660"@[9int] != "SPECTRAL_340"@[9int]);
    }
    assert("SPECTRAL_660"@ != "SPECTRAL_350"@) by {
        assert("SPECTRAL_660"@[9int] != "SPECTRAL_350"@[9int]);
    }
    assert("SPECTRAL_660"@ != "SPECTRAL_360"@) by {
        assert("SPECTRAL_660"@[9int] != "SPECTRAL_360"@[9int]);
    }
    assert("SPECTRAL_660"@ != "SPECTRAL_370"@) by {
        assert("SPECTRAL_660"@[9int] != "SPECTRAL_370"@[9int]);
    }
    assert("SPECTRAL_660"@ != "SPECTRAL_380"@) by {
        assert("SPECTRAL_660"@[9int] != "SPECTRAL_380"@[9int]);
    }
    assert("SPECTRAL_660"@ != "SPECTRAL_390"@) by {
        assert("SPECTRAL_660"@[9int] != "SPECTRAL_390"@[9int]);
    }
    assert("SPECTRAL_660"@ != "SPECTRAL_400"@) by {
        assert("SPECTRAL_660"@[9int] != "SPECTRAL_400"@[9int]);
    }
    assert("SPECTRAL_660"@ != "SPECTRAL_410"@) by {
        assert("SPECTRAL_660"@[9int] != "SPECTRAL_410"@[9int]);
    }
    assert("SPECTRAL_660"@ != "SPECTRAL_420"@) by {
        assert("SPECTRAL_660"@[9int] != "SPECTRAL_420"@[9int]);
    }
    assert("SPECTRAL_660"@ != "SPECTRAL_430"@) by {
        assert("SPECTRAL_660"@[9int] != "SPECTRAL_430"@[9int]);
    }
    assert("SPECTRAL_660"@ != "SPECTRAL_440"@) by {
        assert("SPECTRAL_660"@[9int] != "SPECTRAL_440"@[9int]);
    }
    assert("SPECTRAL_660"@ != "SPECTRAL_450"@) by {
        assert("SPECTRAL_660"@[9int] != "SPECTRAL_450"@[9int]);
    }
    assert("SPECTRAL_660"@ != "SPECTRAL_460"@) by {
        assert("SPECTRAL_660"@[9int] != "SPECTRAL_460"@[9int]);
    }
    assert("SPECTRAL_660"@ != "SPECTRAL_470"@) by {
        assert("SPECTRAL_660"@[9int] != "SPECTRAL_470"@[9int]);
    }
    assert("SPECTRAL_660"@ != "SPECTRAL_480"@) by {
        assert("SPECTRAL_660"@[9int] != "SPECTRAL_480"@[9int]);
    }
    assert("SPECTRAL_660"@ != "SPECTRAL_490"@) by {
        assert("SPECTRAL_660"@[9int] != "SPECTRAL_490"@[9int]);
    }
    assert("SPECTRAL_660"@ != "SPECTRAL_500"@) by {
        assert("SPECTRAL_660"@[9int] != "SPECTRAL_500"@[9int]);
    }
    assert("SPECTRAL_660"@ != "SPECTRAL_510"@) by {
        assert("SPECTRAL_660"@[9int] != "SPECTRAL_510"@[9int]);
    }
    assert("SPECTRAL_660"@ != "SPECTRAL_520"@) by {
        assert("SPECTRAL_660"@[9int] != "SPECTRAL_520"@[9int]);
    }
    assert("SPECTRAL_660"@ != "SPECTRAL_530"@) by {
        assert("SPECTRAL_660"@[9int] != "SPECTRAL_530"@[9int]);
    }
    assert("SPECTRAL_660"@ != "SPECTRAL_540"@) by {
        assert("SPECTRAL_660"@[9int] != "SPECTRAL_540"@[9int]);
    }
    assert("SPECTRAL_660"@ != "SPECTRAL_550"@) by {
        assert("SPECTRAL_660"@[9int] != "SPECTRAL_550"@[9int]);
    }
    assert("SPECTRAL_660"@ != "SPECTRAL_560"@) by {
        assert("SPECTRAL_660"@[9int] != "SPECTRAL_560"@[9int]);
    }
    assert("SPECTRAL_660"@ != "SPECTRAL_570"@) by {
        assert("SPECTRAL_660"@[9int] != "SPECTRAL_570"@[9int]);
    }
    assert("SPECTRAL_660"@ != "SPECTRAL_580"@) by {
        assert("SPECTRAL_660"@[9int] != "SPECTRAL_580"@[9int]);
    }
    assert("SPECTRAL_660"@ != "SPECTRAL_590"@) by {
        assert("SPECTRAL_660"@[9int] != "SPECTRAL_590"@[9int]);
    }
    assert("SPECTRAL_660"@ != "SPECTRAL_600"@) by {
        assert("SPECTRAL_660"@[10int] != "SPECTRAL_600"@[10int]);
    }
    assert("SPECTRAL_660"@ != "SPECTRAL_610"@) by {
        assert("SPECTRAL_660"@[10int] != "SPECTRAL_610"@[10int]);
    }
    assert("SPECTRAL_660"@ != "SPECTRAL_620"@) by {
        assert("SPECTRAL_660"@[10int] != "SPECTRAL_620"@[10int]);
    }
    assert("SPECTRAL_660"@ != "SPECTRAL_630"@) by {
        assert("SPECTRAL_660"@[10int] != "SPECTRAL_630"@[10int]);
    }
    assert("SPECTRAL_660"@ != "SPECTRAL_640"@) by {
        assert("SPECTRAL_660"@[10int] != "SPECTRAL_640"@[10int]);
    }
    assert("SPECTRAL_660"@ != "SPECTRAL_650"@) by {
        assert("SPECTRAL_660"@[10int] != "SPECTRAL_650"@[10int]);
    }
}

#[verifier::spinoff_prover]
#[verifier::rlimit(100)]
proof fn lemma_round_trip_chunk_9()
    ensures
        field_of(field_name(Field::SPECTRAL_670)) == Some(Field::SPECTRAL_670),
        field_of(field_name(Field::SPECTRAL_680)) == Some(Field::SPECTRAL_680),
        field_of(field_name(Field::SPECTRAL_690)) == Some(Field::SPECTRAL_690),
        field_of(field_name(Field::SPECTRAL_700)) == Some(Field::SPECTRAL_700),
        field_of(field_name(Field::SPECTRAL_710)) == Some(Field::SPECTRAL_710),
        field_of(field_name(Field::SPECTRAL_720)) == Some(Field::SPECTRAL_720),
        field_of(field_name(Field::SPECTRAL_730)) == Some(Field::SPECTRAL_730),
        field_of(field_name(Field::SPECTRAL_740)) == Some(Field::SPECTRAL_740),
        field_of(field_name(Field::SPECTRAL_750)) == Some(Field::SPECTRAL_750),
        field_of(field_name(Field::SPECTRAL_760)) == Some(Field::SPECTRAL_760),
{
    reveal_strlit("SAMPLE_ID");
    reveal_strlit("SAMPLEID");
    reveal_strlit("SAMPLE");
    reveal_strlit("SAMPLE_NAME");
    reveal_strlit("SAMPLENAME");
    reveal_strlit("");
    reveal_strlit("BLANK");
    reveal_strlit("RGB_R");
    reveal_strlit("RGB_G");
    reveal_strlit("RGB_B");
    reveal_strlit("CMYK_C");
    reveal_strlit("CMYK_M");
    reveal_strlit("CMYK_Y");
    reveal_strlit("CMYK_K");
    reveal_strlit("5CLR_1");
    reveal_strlit("5CLR_2");
    reveal_strlit("5CLR_3");
    reveal_strlit("5CLR_4");
    reveal_strlit("5CLR_5");
    reveal_strlit("6CLR_1");
    reveal_strlit("6CLR_2");
    reveal_strlit("6CLR_3");
    reveal_strlit("6CLR_4");
    reveal_strlit("6CLR_5");
    reveal_strlit("6CLR_6");
    reveal_strlit("7CLR_1");
    reveal_strlit("7CLR_2");
    reveal_strlit("7CLR_3");
    reveal_strlit("7CLR_4");
    reveal_strlit("7CLR_5");
    reveal_strlit("7CLR_6");
    reveal_strlit("7CLR_7");
    reveal_strlit("8CLR_1");
    reveal_strlit("8CLR_2");
    reveal_strlit("8CLR_3");
    reveal_strlit("8CLR_4");
    reveal_strlit("8CLR_5");
    reveal_strlit("8CLR_6");
    reveal_strlit("8CLR_7");
    reveal_strlit("8CLR_8");
    reveal_strlit("LAB_L");
    reveal_strlit("LAB_A");
    reveal_strlit("LAB_B");
    reveal_strlit("LAB_C");
    reveal_strlit("LAB_H");
    reveal_strlit("XYZ_X");
    reveal_strlit("XYZ_Y");
    reveal_strlit("XYZ_Z");
    reveal_strlit("XYY_X");
    reveal_strlit("XYY_Y");
    reveal_strlit("XYY_CAPY");
    reveal_strlit("D_RED");
    reveal_strlit("D_GREEN");
    reveal_strlit("D_BLUE");
    reveal_strlit("D_VISUAL");
    reveal_strlit("D_VIS");
    reveal_strlit("LAB_DE");
    reveal_strlit("DE1976");
    reveal_strlit("DE76");
    reveal_strlit("DE");
    reveal_strlit("DE_76");
    reveal_strlit("DE_1976");
    reveal_strlit("LAB_DE_1994");
    reveal_strlit("DE1994");
    reveal_strlit("DE94");
    reveal_strlit("DE1994G");
    reveal_strlit("DE94G");
    reveal_strlit("DE94_G");
    reveal_strlit("DE_1994");
    reveal_strlit("DE_94");
    reveal_strlit("DE_1994G");
    reveal_strlit("DE_1994_G");
    reveal_strlit("DE_94G");
    reveal_strlit("DE_94_G");
    reveal_strlit("LAB_DE_1994T");
    reveal_strlit("DE1994T");
    reveal_strlit("DE94T");
    reveal_strlit("DE_1994_T");
    reveal_strlit("DE_94T");
    reveal_strlit("DE_1994T");
    reveal_strlit("DE_94_T");
    reveal_strlit("DE94_T");
    reveal_strlit("LAB_DE_CMC");
    reveal_strlit("DECMC");
    reveal_strlit("DECMC1");
    reveal_strlit("CMC");
    reveal_strlit("CMC 1:1");
    reveal_strlit("DE_CMC1");
    reveal_strlit("DE_CMC_1");
    reveal_strlit("DE_CMC");
    reveal_strlit("LAB_DE_CMC2");
    reveal_strlit("DECMC2");
    reveal_strlit("CMC2");
    reveal_strlit("CMC 2:1");
    reveal_strlit("DE_CMC_2");
    reveal_strlit("DE_CMC2");
    reveal_strlit("DE_CMC 2:1");
    reveal_strlit("DECMC_2");
    reveal_strlit("LAB_DE_2001");
    reveal_strlit("DE2000");
    reveal_strlit("DE00");
    reveal_strlit("DE_2000");
    reveal_strlit("DE_00");
    reveal_strlit("SPECTRAL_340");
    reveal_strlit("SPECTRAL_350");
    reveal_strlit("SPECTRAL_360");
    reveal_strlit("SPECTRAL_370");
    reveal_strlit("SPECTRAL_380");
    reveal_strlit("SPECTRAL_390");
    reveal_strlit("SPECTRAL_400");
    reveal_strlit("SPECTRAL_410");
    reveal_strlit("SPECTRAL_420");
    reveal_strlit("SPECTRAL_430");
    reveal_strlit("SPECTRAL_440");
    reveal_strlit("SPECTRAL_450");
    reveal_strlit("SPECTRAL_460");
    reveal_strlit("SPECTRAL_470");
    reveal_strlit("SPECTRAL_480");
    reveal_strlit("SPECTRAL_490");
    reveal_strlit("SPECTRAL_500");
    reveal_strlit("SPECTRAL_510");
    reveal_strlit("SPECTRAL_520");
    reveal_strlit("SPECTRAL_530");
    reveal_strlit("SPECTRAL_540");
    reveal_strlit("SPECTRAL_550");
    reveal_strlit("SPECTRAL_560");
    reveal_strlit("SPECTRAL_570");
    reveal_strlit("SPECTRAL_580");
    reveal_strlit("SPECTRAL_590");
    reveal_strlit("SPECTRAL_600");
    reveal_strlit("SPECTRAL_610");
    reveal_strlit("SPECTRAL_620");
    reveal_strlit("SPECTRAL_630");
    reveal_strlit("SPECTRAL_640");
    reveal_strlit("SPECTRAL_650");
    reveal_strlit("SPECTRAL_660");
    reveal_strlit("SPECTRAL_670");
    reveal_strlit("SPECTRAL_680");
    reveal_strlit("SPECTRAL_690");
    reveal_strlit("SPECTRAL_700");
    reveal_strlit("SPECTRAL_710");
    reveal_strlit("SPECTRAL_720");
    reveal_strlit("SPECTRAL_730");
    reveal_strlit("SPECTRAL_740");
    reveal_strlit("SPECTRAL_750");
    reveal_strlit("SPECTRAL_760");
    assert(upper_seq("SPECTRAL_670"@) =~= "SPECTRAL_670"@);
    assert(upper_seq("SPECTRAL_680"@) =~= "SPECTRAL_680"@);
    assert(upper_seq("SPECTRAL_690"@) =~= "SPECTRAL_690"@);
    assert(upper_seq("SPECTRAL_700"@) =~= "SPECTRAL_700"@);
    assert(upper_seq("SPECTRAL_710"@) =~= "SPECTRAL_710"@);
    assert(upper_seq("SPECTRAL_720"@) =~= "SPECTRAL_720"@);
    assert(upper_seq("SPECTRAL_730"@) =~= "SPECTRAL_730"@);
    assert(upper_seq("SPECTRAL_740"@) =~= "SPECTRAL_740"@);
    assert(upper_seq("SPECTRAL_750"@) =~= "SPECTRAL_750"@);
    assert(upper_seq("SPECTRAL_760"@) =~= "SPECTRAL_760"@);
    assert("SPECTRAL_670"@ != "LAB_DE_1994T"@) by {
        assert("SPECTRAL_670"@[0int] != "LAB_DE_1994T"@[0int]);
    }
    assert("SPECTRAL_670"@ != "SPECTRAL_340"@) by {
        assert("SPECTRAL_670"@[9int] != "SPECTRAL_340"@[9int]);
    }
    assert("SPECTRAL_670"@ != "SPECTRAL_350"@) by {
        assert("SPECTRAL_670"@[9int] != "SPECTRAL_350"@[9int]);
    }
    assert("SPECTRAL_670"@ != "SPECTRAL_360"@) by {
        assert("SPECTRAL_670"@[9int] != "SPECTRAL_360"@[9int]);
    }
    assert("SPECTRAL_670"@ != "SPECTRAL_370"@) by {
        assert("SPECTRAL_670"@[9int] != "SPECTRAL_370"@[9int]);
    }
    assert("SPECTRAL_670"@ != "SPECTRAL_380"@) by {
        assert("SPECTRAL_670"@[9int] != "SPECTRAL_380"@[9int]);
    }
    assert("SPECTRAL_670"@ != "SPECTRAL_390"@) by {
        assert("SPECTRAL_670"@[9int] != "SPECTRAL_390"@[9int]);
    }
    assert("SPECTRAL_670"@ != "SPECTRAL_400"@) by {
        assert("SPECTRAL_670"@[9int] != "SPECTRAL_400"@[9int]);
    }
    assert("SPECTRAL_670"@ != "SPECTRAL_410"@) by {
        assert("SPECTRAL_670"@[9int] != "SPECTRAL_410"@[9int]);
    }
    assert("SPECTRAL_670"@ != "SPECTRAL_420"@) by {
        assert("SPECTRAL_670"@[9int] != "SPECTRAL_420"@[9int]);
    }
    assert("SPECTRAL_670"@ != "SPECTRAL_430"@) by {
        assert("SPECTRAL_670"@[9int] != "SPECTRAL_430"@[9int]);
    }
    assert("SPECTRAL_670"@ != "SPECTRAL_440"@) by {
        assert("SPECTRAL_670"@[9int] != "SPECTRAL_440"@[9int]);
    }
    assert("SPECTRAL_670"@ != "SPECTRAL_450"@) by {
        assert("SPECTRAL_670"@[9int] != "SPECTRAL_450"@[9int]);
    }
    assert("SPECTRAL_670"@ != "SPECTRAL_460"@) by {
        assert("SPECTRAL_670"@[9int] != "SPECTRAL_460"@[9int]);
    }
    assert("SPECTRAL_670"@ != "SPECTRAL_470"@) by {
        assert("SPECTRAL_670"@[9int] != "SPECTRAL_470"@[9int]);
    }
    assert("SPECTRAL_670"@ != "SPECTRAL_480"@) by {
        assert("SPECTRAL_670"@[9int] != "SPECTRAL_480"@[9int]);
    }
    assert("SPECTRAL_670"@ != "SPECTRAL_490"@) by {
        assert("SPECTRAL_670"@[9int] != "SPECTRAL_490"@[9int]);
    }
    assert("SPECTRAL_670"@ != "SPECTRAL_500"@) by {
        assert("SPECTRAL_670"@[9int] != "SPECTRAL_500"@[9int]);
    }
    assert("SPECTRAL_670"@ != "SPECTRAL_510"@) by {
        assert("SPECTRAL_670"@[9int] != "SPECTRAL_510"@[9int]);
    }
    assert("SPECTRAL_670"@ != "SPECTRAL_520"@) by {
        assert("SPECTRAL_670"@[9int] != "SPECTRAL_520"@[9int]);
    }
    assert("SPECTRAL_670"@ != "SPECTRAL_530"@) by {
        assert("SPECTRAL_670"@[9int] != "SPECTRAL_530"@[9int]);
    }
    assert("SPECTRAL_670"@ != "SPECTRAL_540"@) by {
        assert("SPECTRAL_670"@[9int] != "SPECTRAL_540"@[9int]);
    }
    assert("SPECTRAL_670"@ != "SPECTRAL_550"@) by {
        assert("SPECTRAL_670"@[9int] != "SPECTRAL_550"@[9int]);
    }
    assert("SPECTRAL_670"@ != "SPECTRAL_560"@) by {
        assert("SPECTRAL_670"@[9int] != "SPECTRAL_560"@[9int]);
    }
    assert("SPECTRAL_670"@ != "SPECTRAL_570"@) by {
        assert("SPECTRAL_670"@[9int] != "SPECTRAL_570"@[9int]);
    }
    assert("SPECTRAL_670"@ != "SPECTRAL_580"@) by {
        assert("SPECTRAL_670"@[9int] != "SPECTRAL_580"@[9int]);
    }
    assert("SPECTRAL_670"@ != "SPECTRAL_590"@) by {
        assert("SPECTRAL_670"@[9int] != "SPECTRAL_590"@[9int]);
    }
    assert("SPECTRAL_670"@ != "SPECTRAL_600"@) by {
        assert("SPECTRAL_670"@[10int] != "SPECTRAL_600"@[10int]);
    }
    assert("SPECTRAL_670"@ != "SPECTRAL_610"@) by {
        assert("SPECTRAL_670"@[10int] != "SPECTRAL_610"@[10int]);
    }
    assert("SPECTRAL_670"@ != "SPECTRAL_620"@) by {
        assert("SPECTRAL_670"@[10int] != "SPECTRAL_620"@[10int]);
    }
    assert("SPECTRAL_670"@ != "SPECTRAL_630"@) by {
        assert("SPECTRAL_670"@[10int] != "SPECTRAL_630"@[10int]);
    }
    assert("SPECTRAL_670"@ != "SPECTRAL_640"@) by {
        assert("SPECTRAL_670"@[10int] != "SPECTRAL_640"@[10int]);
    }
    assert("SPECTRAL_670"@ != "SPECTRAL_650"@) by {
        assert("SPECTRAL_670"@[10int] != "SPECTRAL_650"@[10int]);
    }
    assert("SPECTRAL_670"@ != "SPECTRAL_660"@) by {
        assert("SPECTRAL_670"@[10int] != "SPECTRAL_660"@[10int]);
    }
    assert("SPECTRAL_680"@ != "LAB_DE_1994T"@) by {
        assert("SPECTRAL_680"@[0int] != "LAB_DE_1994T"@[0int]);
    }
    assert("SPECTRAL_680"@ != "SPECTRAL_340"@) by {
        assert("SPECTRAL_680"@[9int] != "SPECTRAL_340"@[9int]);
    }
    assert("SPECTRAL_680"@ != "SPECTRAL_350"@) by {
        assert("SPECTRAL_680"@[9int] != "SPECTRAL_350"@[9int]);
    }
    assert("SPECTRAL_680"@ != "SPECTRAL_360"@) by {
        assert("SPECTRAL_680"@[9int] != "SPECTRAL_360"@[9int]);
    }
    assert("SPECTRAL_680"@ != "SPECTRAL_370"@) by {
        assert("SPECTRAL_680"@[9int] != "SPECTRAL_370"@[9int]);
    }
    assert("SPECTRAL_680"@ != "SPECTRAL_380"@) by {
        assert("SPECTRAL_680"@[9int] != "SPECTRAL_380"@[9int]);
    }
    assert("SPECTRAL_680"@ != "SPECTRAL_390"@) by {
        assert("SPECTRAL_680"@[9int] != "SPECTRAL_390"@[9int]);
    }
    assert("SPECTRAL_680"@ != "SPECTRAL_400"@) by {
        assert("SPECTRAL_680"@[9int] != "SPECTRAL_400"@[9int]);
    }
    assert("SPECTRAL_680"@ != "SPECTRAL_410"@) by {
        assert("SPECTRAL_680"@[9int] != "SPECTRAL_410"@[9int]);
    }
    assert("SPECTRAL_680"@ != "SPECTRAL_420"@) by {
        assert("SPECTRAL_680"@[9int] != "SPECTRAL_420"@[9int]);
    }
    assert("SPECTRAL_680"@ != "SPECTRAL_430"@) by {
        assert("SPECTRAL_680"@[9int] != "SPECTRAL_430"@[9int]);
    }
    assert("SPECTRAL_680"@ != "SPECTRAL_440"@) by {
        assert("SPECTRAL_680"@[9int] != "SPECTRAL_440"@[9int]);
    }
    assert("SPECTRAL_680"@ != "SPECTRAL_450"@) by {
        assert("SPECTRAL_680"@[9int] != "SPECTRAL_450"@[9int]);
    }
    assert("SPECTRAL_680"@ != "SPECTRAL_460"@) by {
        assert("SPECTRAL_680"@[9int] != "SPECTRAL_460"@[9int]);
    }
    assert("SPECTRAL_680"@ != "SPECTRAL_470"@) by {
        assert("SPECTRAL_680"@[9int] != "SPECTRAL_470"@[9int]);
    }
    assert("SPECTRAL_680"@ != "SPECTRAL_480"@) by {
        assert("SPECTRAL_680"@[9int] != "SPECTRAL_480"@[9int]);
    }
    assert("SPECTRAL_680"@ != "SPECTRAL_490"@) by {
        assert("SPECTRAL_680"@[9int] != "SPECTRAL_490"@[9int]);
    }
    assert("SPECTRAL_680"@ != "SPECTRAL_500"@) by {
        assert("SPECTRAL_680"@[9int] != "SPECTRAL_500"@[9int]);
    }
    assert("SPECTRAL_680"@ != "SPECTRAL_510"@) by {
        assert("SPECTRAL_680"@[9int] != "SPECTRAL_510"@[9int]);
    }
    assert("SPECTRAL_680"@ != "SPECTRAL_520"@) by {
        assert("SPECTRAL_680"@[9int] != "SPECTRAL_520"@[9int]);
    }
    assert("SPECTRAL_680"@ != "SPECTRAL_530"@) by {
        assert("SPECTRAL_680"@[9int] != "SPECTRAL_530"@[9int]);
    }
    assert("SPECTRAL_680"@ != "SPECTRAL_540"@) by {
        assert("SPECTRAL_680"@[9int] != "SPECTRAL_540"@[9int]);
    }
    assert("SPECTRAL_680"@ != "SPECTRAL_550"@) by {
        assert("SPECTRAL_680"@[9int] != "SPECTRAL_550"@[9int]);
    }
    assert("SPECTRAL_680"@ != "SPECTRAL_560"@) by {
        assert("SPECTRAL_680"@[9int] != "SPECTRAL_560"@[9int]);
    }
    assert("SPECTRAL_680"@ != "SPECTRAL_570"@) by {
        assert("SPECTRAL_680"@[9int] != "SPECTRAL_570"@[9int]);
    }
    assert("SPECTRAL_680"@ != "SPECTRAL_580"@) by {
        assert("SPECTRAL_680"@[9int] != "SPECTRAL_580"@[9int]);
    }
    assert("SPECTRAL_680"@ != "SPECTRAL_590"@) by {
        assert("SPECTRAL_680"@[9int] != "SPECTRAL_590"@[9int]);
    }
    assert("SPECTRAL_680"@ != "SPECTRAL_600"@) by {
        assert("SPECTRAL_680"@[10int] != "SPECTRAL_600"@[10int]);
    }
    assert("SPECTRAL_680"@ != "SPECTRAL_610"@) by {
        assert("SPECTRAL_680"@[10int] != "SPECTRAL_610"@[10int]);
    }
    assert("SPECTRAL_680"@ != "SPECTRAL_620"@) by {
        assert("SPECTRAL_680"@[10int] != "SPECTRAL_620"@[10int]);
    }
    assert("SPECTRAL_680"@ != "SPECTRAL_630"@) by {
        assert("SPECTRAL_680"@[10int] != "SPECTRAL_630"@[10int]);
    }
    assert("SPECTRAL_680"@ != "SPECTRAL_640"@) by {
        assert("SPECTRAL_680"@[10int] != "SPECTRAL_640"@[10int]);
    }
    assert("SPECTRAL_680"@ != "SPECTRAL_650"@) by {
        assert("SPECTRAL_680"@[10int] != "SPECTRAL_650"@[10int]);
    }
    assert("SPECTRAL_680"@ != "SPECTRAL_660"@) by {
        assert("SPECTRAL_680"@[10int] != "SPECTRAL_660"@[10int]);
    }
    assert("SPECTRAL_680"@ != "SPECTRAL_670"@) by {
        assert("SPECTRAL_680"@[10int] != "SPECTRAL_670"@[10int]);
    }
    assert("SPECTRAL_690"@ != "LAB_DE_1994T"@) by {
        assert("SPECTRAL_690"@[0int] != "LAB_DE_1994T"@[0int]);
    }
    assert("SPECTRAL_690"@ != "SPECTRAL_340"@) by {
        assert("SPECTRAL_690"@[9int] != "SPECTRAL_340"@[9int]);
    }
    assert("SPECTRAL_690"@ != "SPECTRAL_350"@) by {
        assert("SPECTRAL_690"@[9int] != "SPECTRAL_350"@[9int]);
    }
    assert("SPECTRAL_690"@ != "SPECTRAL_360"@) by {
        assert("SPECTRAL_690"@[9int] != "SPECTRAL_360"@[9int]);
    }
    assert("SPECTRAL_690"@ != "SPECTRAL_370"@) by {
        assert("SPECTRAL_690"@[9int] != "SPECTRAL_370"@[9int]);
    }
    assert("SPECTRAL_690"@ != "SPECTRAL_380"@) by {
        assert("SPECTRAL_690"@[9int] != "SPECTRAL_380"@[9int]);
    }
    assert("SPECTRAL_690"@ != "SPECTRAL_390"@) by {
        assert("SPECTRAL_690"@[9int] != "SPECTRAL_390"@[9int]);
    }
    assert("SPECTRAL_690"@ != "SPECTRAL_400"@) by {
        assert("SPECTRAL_690"@[9int] != "SPECTRAL_400"@[9int]);
    }
    assert("SPECTRAL_690"@ != "SPECTRAL_410"@) by {
        assert("SPECTRAL_690"@[9int] != "SPECTRAL_410"@[9int]);
    }
    assert("SPECTRAL_690"@ != "SPECTRAL_420"@) by {
        assert("SPECTRAL_690"@[9int] != "SPECTRAL_420"@[9int]);
    }
    assert("SPECTRAL_690"@ != "SPECTRAL_430"@) by {
        assert("SPECTRAL_690"@[9int] != "SPECTRAL_430"@[9int]);
    }
    assert("SPECTRAL_690"@ != "SPECTRAL_440"@) by {
        assert("SPECTRAL_690"@[9int] != "SPECTRAL_440"@[9int]);
    }
    assert("SPECTRAL_690"@ != "SPECTRAL_450"@) by {
        assert("SPECTRAL_690"@[9int] != "SPECTRAL_450"@[9int]);
    }
    assert("SPECTRAL_690"@ != "SPECTRAL_460"@) by {
        assert("SPECTRAL_690"@[9int] != "SPECTRAL_460"@[9int]);
    }
    assert("SPECTRAL_690"@ != "SPECTRAL_470"@) by {
        assert("SPECTRAL_690"@[9int] != "SPECTRAL_470"@[9int]);
    }
    assert("SPECTRAL_690"@ != "SPECTRAL_480"@) by {
        assert("SPECTRAL_690"@[9int] != "SPECTRAL_480"@[9int]);
    }
    assert("SPECTRAL_690"@ != "SPECTRAL_490"@) by {
        assert("SPECTRAL_690"@[9int] != "SPECTRAL_490"@[9int]);
    }
    assert("SPECTRAL_690"@ != "SPECTRAL_500"@) by {
        assert("SPECTRAL_690"@[9int] != "SPECTRAL_500"@[9int]);
    }
    assert("SPECTRAL_690"@ != "SPECTRAL_510"@) by {
        assert("SPECTRAL_690"@[9int] != "SPECTRAL_510"@[9int]);
    }
    assert("SPECTRAL_690"@ != "SPECTRAL_520"@) by {
        assert("SPECTRAL_690"@[9int] != "SPECTRAL_520"@[9int]);
    }
    assert("SPECTRAL_690"@ != "SPECTRAL_530"@) by {
        assert("SPECTRAL_690"@[9int] != "SPECTRAL_530"@[9int]);
    }
    assert("SPECTRAL_690"@ != "SPECTRAL_540"@) by {
        assert("SPECTRAL_690"@[9int] != "SPECTRAL_540"@[9int]);
    }
    assert("SPECTRAL_690"@ != "SPECTRAL_550"@) by {
        assert("SPECTRAL_690"@[9int] != "SPECTRAL_550"@[9int]);
    }
    assert("SPECTRAL_690"@ != "SPECTRAL_560"@) by {
        assert("SPECTRAL_690"@[9int] != "SPECTRAL_560"@[9int]);
    }
    assert("SPECTRAL_690"@ != "SPECTRAL_570"@) by {
        assert("SPECTRAL_690"@[9int] != "SPECTRAL_570"@[9int]);
    }
    assert("SPECTRAL_690"@ != "SPECTRAL_580"@) by {
        assert("SPECTRAL_690"@[9int] != "SPECTRAL_580"@[9int]);
    }
    assert("SPECTRAL_690"@ != "SPECTRAL_590"@) by {
        assert("SPECTRAL_690"@[9int] != "SPECTRAL_590"@[9int]);
    }
    assert("SPECTRAL_690"@ != "SPECTRAL_600"@) by {
        assert("SPECTRAL_690"@[10int] != "SPECTRAL_600"@[10int]);
    }
    assert("SPECTRAL_690"@ != "SPECTRAL_610"@) by {
        assert("SPECTRAL_690"@[10int] != "SPECTRAL_610"@[10int]);
    }
    assert("SPECTRAL_690"@ != "SPECTRAL_620"@) by {
        assert("SPECTRAL_690"@[10int] != "SPECTRAL_620"@[10int]);
    }
    assert("SPECTRAL_690"@ != "SPECTRAL_630"@) by {
        assert("SPECTRAL_690"@[10int] != "SPECTRAL_630"@[10int]);
    }
    assert("SPECTRAL_690"@ != "SPECTRAL_640"@) by {
        assert("SPECTRAL_690"@[10int] != "SPECTRAL_640"@[10int]);
    }
    assert("SPECTRAL_690"@ != "SPECTRAL_650"@) by {
        assert("SPECTRAL_690"@[10int] != "SPECTRAL_650"@[10int]);
    }
    assert("SPECTRAL_690"@ != "SPECTRAL_660"@) by {
        assert("SPECTRAL_690"@[10int] != "SPECTRAL_660"@[10int]);
    }
    assert("SPECTRAL_690"@ != "SPECTRAL_670"@) by {
        assert("SPECTRAL_690"@[10int] != "SPECTRAL_670"@[10int]);
    }
    assert("SPECTRAL_690"@ != "SPECTRAL_680"@) by {
        assert("SPECTRAL_690"@[10int] != "SPECTRAL_680"@[10int]);
    }
    assert("SPECTRAL_700"@ != "LAB_DE_1994T"@) by {
        assert("SPECTRAL_700"@[0int] != "LAB_DE_1994T"@[0int]);
    }
    assert("SPECTRAL_700"@ != "SPECTRAL_340"@) by {
        assert("SPECTRAL_700"@[9int] != "SPECTRAL_340"@[9int]);
    }
    assert("SPECTRAL_700"@ != "SPECTRAL_350"@) by {
        assert("SPECTRAL_700"@[9int] != "SPECTRAL_350"@[9int]);
    }
    assert("SPECTRAL_700"@ != "SPECTRAL_360"@) by {
        assert("SPECTRAL_700"@[9int] != "SPECTRAL_360"@[9int]);
    }
    assert("SPECTRAL_700"@ != "SPECTRAL_370"@) by {
        assert("SPECTRAL_700"@[9int] != "SPECTRAL_370"@[9int]);
    }
    assert("SPECTRAL_700"@ != "SPECTRAL_380"@) by {
        assert("SPECTRAL_700"@[9int] != "SPECTRAL_380"@[9int]);
    }
    assert("SPECTRAL_700"@ != "SPECTRAL_390"@) by {
        assert("SPECTRAL_700"@[9int] != "SPECTRAL_390"@[9int]);
    }
    assert("SPECTRAL_700"@ != "SPECTRAL_400"@) by {
        assert("SPECTRAL_700"@[9int] != "SPECTRAL_400"@[9int]);
    }
    assert("SPECTRAL_700"@ != "SPECTRAL_410"@) by {
        assert("SPECTRAL_700"@[9int] != "SPECTRAL_410"@[9int]);
    }
    assert("SPECTRAL_700"@ != "SPECTRAL_420"@) by {
        assert("SPECTRAL_700"@[9int] != "SPECTRAL_420"@[9int]);
    }
    assert("SPECTRAL_700"@ != "SPECTRAL_430"@) by {
        assert("SPECTRAL_700"@[9int] != "SPECTRAL_430"@[9int]);
    }
    assert("SPECTRAL_700"@ != "SPECTRAL_440"@) by {
        assert("SPECTRAL_700"@[9int] != "SPECTRAL_440"@[9int]);
    }
    assert("SPECTRAL_700"@ != "SPECTRAL_450"@) by {
        assert("SPECTRAL_700"@[9int] != "SPECTRAL_450"@[9int]);
    }
    assert("SPECTRAL_700"@ != "SPECTRAL_460"@) by {
        assert("SPECTRAL_700"@[9int] != "SPECTRAL_460"@[9int]);
    }
    assert("SPECTRAL_700"@ != "SPECTRAL_470"@) by {
        assert("SPECTRAL_700"@[9int] != "SPECTRAL_470"@[9int]);
    }
    assert("SPECTRAL_700"@ != "SPECTRAL_480"@) by {
        assert("SPECTRAL_700"@[9int] != "SPECTRAL_480"@[9int]);
    }
    assert("SPECTRAL_700"@ != "SPECTRAL_490"@) by {
        assert("SPECTRAL_700"@[9int] != "SPECTRAL_490"@[9int]);
    }
    assert("SPECTRAL_700"@ != "SPECTRAL_500"@) by {
        assert("SPECTRAL_700"@[9int] != "SPECTRAL_500"@[9int]);
    }
    assert("SPECTRAL_700"@ != "SPECTRAL_510"@) by {
        assert("SPECTRAL_700"@[9int] != "SPECTRAL_510"@[9int]);
    }
    assert("SPECTRAL_700"@ != "SPECTRAL_520"@) by {
        assert("SPECTRAL_700"@[9int] != "SPECTRAL_520"@[9int]);
    }
    assert("SPECTRAL_700"@ != "SPECTRAL_530"@) by {
        assert("SPECTRAL_700"@[9int] != "SPECTRAL_530"@[9int]);
    }
    assert("SPECTRAL_700"@ != "SPECTRAL_540"@) by {
        assert("SPECTRAL_700"@[9int] != "SPECTRAL_540"@[9int]);
    }
    assert("SPECTRAL_700"@ != "SPECTRAL_550"@) by {
        assert("SPECTRAL_700"@[9int] != "SPECTRAL_550"@[9int]);
    }
    assert("SPECTRAL_700"@ != "SPECTRAL_560"@) by {
        assert("SPECTRAL_700"@[9int] != "SPECTRAL_560"@[9int]);
    }
    assert("SPECTRAL_700"@ != "SPECTRAL_570"@) by {
        assert("SPECTRAL_700"@[9int] != "SPECTRAL_570"@[9int]);
    }
    assert("SPECTRAL_700"@ != "SPECTRAL_580"@) by {
        assert("SPECTRAL_700"@[9int] != "SPECTRAL_580"@[9int]);
    }
    assert("SPECTRAL_700"@ != "SPECTRAL_590"@) by {
        assert("SPECTRAL_700"@[9int] != "SPECTRAL_590"@[9int]);
    }
    assert("SPECTRAL_700"@ != "SPECTRAL_600"@) by {
        assert("SPECTRAL_700"@[9int] != "SPECTRAL_600"@[9int]);
    }
    assert("SPECTRAL_700"@ != "SPECTRAL_610"@) by {
        assert("SPECTRAL_700"@[9int] != "SPECTRAL_610"@[9int]);
    }
    assert("SPECTRAL_700"@ != "SPECTRAL_620"@) by {
        assert("SPECTRAL_700"@[9int] != "SPECTRAL_620"@[9int]);
    }
    assert("SPECTRAL_700"@ != "SPECTRAL_630"@) by {
        assert("SPECTRAL_700"@[9int] != "SPECTRAL_630"@[9int]);
    }
    assert("SPECTRAL_700"@ != "SPECTRAL_640"@) by {
        assert("SPECTRAL_700"@[9int] != "SPECTRAL_640"@[9int]);
    }
    assert("SPECTRAL_700"@ != "SPECTRAL_650"@) by {
        assert("SPECTRAL_700"@[9int] != "SPECTRAL_650"@[9int]);
    }
    assert("SPECTRAL_700"@ != "SPECTRAL_660"@) by {
        assert("SPECTRAL_700"@[9int] != "SPECTRAL_660"@[9int]);
    }
    assert("SPECTRAL_700"@ != "SPECTRAL_670"@) by {
        assert("SPECTRAL_700"@[9int] != "SPECTRAL_670"@[9int]);
    }
    assert("SPECTRAL_700"@ != "SPECTRAL_680"@) by {
        assert("SPECTRAL_700"@[9int] != "SPECTRAL_680"@[9int]);
    }
    assert("SPECTRAL_700"@ != "SPECTRAL_690"@) by {
        assert("SPECTRAL_700"@[9int] != "SPECTRAL_690"@[9int]);
    }
    assert("SPECTRAL_710"@ != "LAB_DE_1994T"@) by {
        assert("SPECTRAL_710"@[0int] != "LAB_DE_1994T"@[0int]);
    }
    assert("SPECTRAL_710"@ != "SPECTRAL_340"@) by {
        assert("SPECTRAL_710"@[9int] != "SPECTRAL_340"@[9int]);
    }
    assert("SPECTRAL_710"@ != "SPECTRAL_350"@) by {
        assert("SPECTRAL_710"@[9int] != "SPECTRAL_350"@[9int]);
    }
    assert("SPECTRAL_710"@ != "SPECTRAL_360"@) by {
        assert("SPECTRAL_710"@[9int] != "SPECTRAL_360"@[9int]);
    }
    assert("SPECTRAL_710"@ != "SPECTRAL_370"@) by {
        assert("SPECTRAL_710"@[9int] != "SPECTRAL_370"@[9int]);
    }
    assert("SPECTRAL_710"@ != "SPECTRAL_380"@) by {
        assert("SPECTRAL_710"@[9int] != "SPECTRAL_380"@[9int]);
    }
    assert("SPECTRAL_710"@ != "SPECTRAL_390"@) by {
        assert("SPECTRAL_710"@[9int] != "SPECTRAL_390"@[9int]);
    }
    assert("SPECTRAL_710"@ != "SPECTRAL_400"@) by {
        assert("SPECTRAL_710"@[9int] != "SPECTRAL_400"@[9int]);
    }
    assert("SPECTRAL_710"@ != "SPECTRAL_410"@) by {
        assert("SPECTRAL_710"@[9int] != "SPECTRAL_410"@[9int]);
    }
    assert("SPECTRAL_710"@ != "SPECTRAL_420"@) by {
        assert("SPECTRAL_710"@[9int] != "SPECTRAL_420"@[9int]);
    }
    assert("SPECTRAL_710"@ != "SPECTRAL_430"@) by {
        assert("SPECTRAL_710"@[9int] != "SPECTRAL_430"@[9int]);
    }
    assert("SPECTRAL_710"@ != "SPECTRAL_440"@) by {
        assert("SPECTRAL_710"@[9int] != "SPECTRAL_440"@[9int]);
    }
    assert("SPECTRAL_710"@ != "SPECTRAL_450"@) by {
        assert("SPECTRAL_710"@[9int] != "SPECTRAL_450"@[9int]);
    }
    assert("SPECTRAL_710"@ != "SPECTRAL_460"@) by {
        assert("SPECTRAL_710"@[9int] != "SPECTRAL_460"@[9int]);
    }
    assert("SPECTRAL_710"@ != "SPECTRAL_470"@) by {
        assert("SPECTRAL_710"@[9int] != "SPECTRAL_470"@[9int]);
    }
    assert("SPECTRAL_710"@ != "SPECTRAL_480"@) by {
        assert("SPECTRAL_710"@[9int] != "SPECTRAL_480"@[9int]);
    }
    assert("SPECTRAL_710"@ != "SPECTRAL_490"@) by {
        assert("SPECTRAL_710"@[9int] != "SPECTRAL_490"@[9int]);
    }
    assert("SPECTRAL_710"@ != "SPECTRAL_500"@) by {
        assert("SPECTRAL_710"@[9int] != "SPECTRAL_500"@[9int]);
    }
    assert("SPECTRAL_710"@ != "SPECTRAL_510"@) by {
        assert("SPECTRAL_710"@[9int] != "SPECTRAL_510"@[9int]);
    }
    assert("SPECTRAL_710"@ != "SPECTRAL_520"@) by {
        assert("SPECTRAL_710"@[9int] != "SPECTRAL_520"@[9int]);
    }
    assert("SPECTRAL_710"@ != "SPECTRAL_530"@) by {
        assert("SPECTRAL_710"@[9int] != "SPECTRAL_530"@[9int]);
    }
    assert("SPECTRAL_710"@ != "SPECTRAL_540"@) by {
        assert("SPECTRAL_710"@[9int] != "SPECTRAL_540"@[9int]);
    }
    assert("SPECTRAL_710"@ != "SPECTRAL_550"@) by {
        assert("SPECTRAL_710"@[9int] != "SPECTRAL_550"@[9int]);
    }
    assert("SPECTRAL_710"@ != "SPECTRAL_560"@) by {
        assert("SPECTRAL_710"@[9int] != "SPECTRAL_560"@[9int]);
    }
    assert("SPECTRAL_710"@ != "SPECTRAL_570"@) by {
        assert("SPECTRAL_710"@[9int] != "SPECTRAL_570"@[9int]);
    }
    assert("SPECTRAL_710"@ != "SPECTRAL_580"@) by {
        assert("SPECTRAL_710"@[9int] != "SPECTRAL_580"@[9int]);
    }
    assert("SPECTRAL_710"@ != "SPECTRAL_590"@) by {
        assert("SPECTRAL_710"@[9int] != "SPECTRAL_590"@[9int]);
    }
    assert("SPECTRAL_710"@ != "SPECTRAL_600"@) by {
        assert("SPECTRAL_710"@[9int] != "SPECTRAL_600"@[9int]);
    }
    assert("SPECTRAL_710"@ != "SPECTRAL_610"@) by {
        assert("SPECTRAL_710"@[9int] != "SPECTRAL_610"@[9int]);
    }
    assert("SPECTRAL_710"@ != "SPECTRAL_620"@) by {
        assert("SPECTRAL_710"@[9int] != "SPECTRAL_620"@[9int]);
    }
    assert("SPECTRAL_710"@ != "SPECTRAL_630"@) by {
        assert("SPECTRAL_710"@[9int] != "SPECTRAL_630"@[9int]);
    }
    assert("SPECTRAL_710"@ != "SPECTRAL_640"@) by {
        assert("SPECTRAL_710"@[9int] != "SPECTRAL_640"@[9int]);
    }
    assert("SPECTRAL_710"@ != "SPECTRAL_650"@) by {
        assert("SPECTRAL_710"@[9int] != "SPECTRAL_650"@[9int]);
    }
    assert("SPECTRAL_710"@ != "SPECTRAL_660"@) by {
        assert("SPECTRAL_710"@[9int] != "SPECTRAL_660"@[9int]);
    }
    assert("SPECTRAL_710"@ != "SPECTRAL_670"@) by {
        assert("SPECTRAL_710"@[9int] != "SPECTRAL_670"@[9int]);
    }
    assert("SPECTRAL_710"@ != "SPECTRAL_680"@) by {
        assert("SPECTRAL_710"@[9int] != "SPECTRAL_680"@[9int]);
    }
    assert("SPECTRAL_710"@ != "SPECTRAL_690"@) by {
        assert("SPECTRAL_710"@[9int] != "SPECTRAL_690"@[9int]);
    }
    assert("SPECTRAL_710"@ != "SPECTRAL_700"@) by {
        assert("SPECTRAL_710"@[10int] != "SPECTRAL_700"@[10int]);
    }
    assert("SPECTRAL_720"@ != "LAB_DE_1994T"@) by {
        assert("SPECTRAL_720"@[0int] != "LAB_DE_1994T"@[0int]);
    }
    assert("SPECTRAL_720"@ != "SPECTRAL_340"@) by {
        assert("SPECTRAL_720"@[9int] != "SPECTRAL_340"@[9int]);
    }
    assert("SPECTRAL_720"@ != "SPECTRAL_350"@) by {
        assert("SPECTRAL_720"@[9int] != "SPECTRAL_350"@[9int]);
    }
    assert("SPECTRAL_720"@ != "SPECTRAL_360"@) by {
        assert("SPECTRAL_720"@[9int] != "SPECTRAL_360"@[9int]);
    }
    assert("SPECTRAL_720"@ != "SPECTRAL_370"@) by {
        assert("SPECTRAL_720"@[9int] != "SPECTRAL_370"@[9int]);
    }
    assert("SPECTRAL_720"@ != "SPECTRAL_380"@) by {
        assert("SPECTRAL_720"@[9int] != "SPECTRAL_380"@[9int]);
    }
    assert("SPECTRAL_720"@ != "SPECTRAL_390"@) by {
        assert("SPECTRAL_720"@[9int] != "SPECTRAL_390"@[9int]);
    }
    assert("SPECTRAL_720"@ != "SPECTRAL_400"@) by {
        assert("SPECTRAL_720"@[9int] != "SPECTRAL_400"@[9int]);
    }
    assert("SPECTRAL_720"@ != "SPECTRAL_410"@) by {
        assert("SPECTRAL_720"@[9int] != "SPECTRAL_410"@[9int]);
    }
    assert("SPECTRAL_720"@ != "SPECTRAL_420"@) by {
        assert("SPECTRAL_720"@[9int] != "SPECTRAL_420"@[9int]);
    }
    assert("SPECTRAL_720"@ != "SPECTRAL_430"@) by {
        assert("SPECTRAL_720"@[9int] != "SPECTRAL_430"@[9int]);
    }
    assert("SPECTRAL_720"@ != "SPECTRAL_440"@) by {
        assert("SPECTRAL_720"@[9int] != "SPECTRAL_440"@[9int]);
    }
    assert("SPECTRAL_720"@ != "SPECTRAL_450"@) by {
        assert("SPECTRAL_720"@[9int] != "SPECTRAL_450"@[9int]);
    }
    assert("SPECTRAL_720"@ != "SPECTRAL_460"@) by {
        assert("SPECTRAL_720"@[9int] != "SPECTRAL_460"@[9int]);
    }
    assert("SPECTRAL_720"@ != "SPECTRAL_470"@) by {
        assert("SPECTRAL_720"@[9int] != "SPECTRAL_470"@[9int]);
    }
    assert("SPECTRAL_720"@ != "SPECTRAL_480"@) by {
        assert("SPECTRAL_720"@[9int] != "SPECTRAL_480"@[9int]);
    }
    assert("SPECTRAL_720"@ != "SPECTRAL_490"@) by {
        assert("SPECTRAL_720"@[9int] != "SPECTRAL_490"@[9int]);
    }
    assert("SPECTRAL_720"@ != "SPECTRAL_500"@) by {
        assert("SPECTRAL_720"@[9int] != "SPECTRAL_500"@[9int]);
    }
    assert("SPECTRAL_720"@ != "SPECTRAL_510"@) by {
        assert("SPECTRAL_720"@[9int] != "SPECTRAL_510"@[9int]);
    }
    assert("SPECTRAL_720"@ != "SPECTRAL_520"@) by {
        assert("SPECTRAL_720"@[9int] != "SPECTRAL_520"@[9int]);
    }
    assert("SPECTRAL_720"@ != "SPECTRAL_530"@) by {
        assert("SPECTRAL_720"@[9int] != "SPECTRAL_530"@[9int]);
    }
    assert("SPECTRAL_720"@ != "SPECTRAL_540"@) by {
        assert("SPECTRAL_720"@[9int] != "SPECTRAL_540"@[9int]);
    }
    assert("SPECTRAL_720"@ != "SPECTRAL_550"@) by {
        assert("SPECTRAL_720"@[9int] != "SPECTRAL_550"@[9int]);
    }
    assert("SPECTRAL_720"@ != "SPECTRAL_560"@) by {
        assert("SPECTRAL_720"@[9int] != "SPECTRAL_560"@[9int]);
    }
    assert("SPECTRAL_720"@ != "SPECTRAL_570"@) by {
        assert("SPECTRAL_720"@[9int] != "SPECTRAL_570"@[9int]);
    }
    assert("SPECTRAL_720"@ != "SPECTRAL_580"@) by {
        assert("SPECTRAL_720"@[9int] != "SPECTRAL_580"@[9int]);
    }
    assert("SPECTRAL_720"@ != "SPECTRAL_590"@) by {
        assert("SPECTRAL_720"@[9int] != "SPECTRAL_590"@[9int]);
    }
    assert("SPECTRAL_720"@ != "SPECTRAL_600"@) by {
        assert("SPECTRAL_720"@[9int] != "SPECTRAL_600"@[9int]);
    }
    assert("SPECTRAL_720"@ != "SPECTRAL_610"@) by {
        assert("SPECTRAL_720"@[9int] != "SPECTRAL_610"@[9int]);
    }
    assert("SPECTRAL_720"@ != "SPECTRAL_620"@) by {
        assert("SPECTRAL_720"@[9int] != "SPECTRAL_620"@[9int]);
    }
    assert("SPECTRAL_720"@ != "SPECTRAL_630"@) by {
        assert("SPECTRAL_720"@[9int] != "SPECTRAL_630"@[9int]);
    }
    assert("SPECTRAL_720"@ != "SPECTRAL_640"@) by {
        assert("SPECTRAL_720"@[9int] != "SPECTRAL_640"@[9int]);
    }
    assert("SPECTRAL_720"@ != "SPECTRAL_650"@) by {
        assert("SPECTRAL_720"@[9int] != "SPECTRAL_650"@[9int]);
    }
    assert("SPECTRAL_720"@ != "SPECTRAL_660"@) by {
        assert("SPECTRAL_720"@[9int] != "SPECTRAL_660"@[9int]);
    }
    assert("SPECTRAL_720"@ != "SPECTRAL_670"@) by {
        assert("SPECTRAL_720"@[9int] != "SPECTRAL_670"@[9int]);
    }
    assert("SPECTRAL_720"@ != "SPECTRAL_680"@) by {
        assert("SPECTRAL_720"@[9int] != "SPECTRAL_680"@[9int]);
    }
    assert("SPECTRAL_720"@ != "SPECTRAL_690"@) by {
        assert("SPECTRAL_720"@[9int] != "SPECTRAL_690"@[9int]);
    }
    assert("SPECTRAL_720"@ != "SPECTRAL_700"@) by {
        assert("SPECTRAL_720"@[10int] != "SPECTRAL_700"@[10int]);
    }
    assert("SPECTRAL_720"@ != "SPECTRAL_710"@) by {
        assert("SPECTRAL_720"@[10int] != "SPECTRAL_710"@[10int]);
    }
    assert("SPECTRAL_730"@ != "LAB_DE_1994T"@) by {
        assert("SPECTRAL_730"@[0int] != "LAB_DE_1994T"@[0int]);
    }
    assert("SPECTRAL_730"@ != "SPECTRAL_340"@) by {
        assert("SPECTRAL_730"@[9int] != "SPECTRAL_340"@[9int]);
    }
    assert("SPECTRAL_730"@ != "SPECTRAL_350"@) by {
        assert("SPECTRAL_730"@[9int] != "SPECTRAL_350"@[9int]);
    }
    assert("SPECTRAL_730"@ != "SPECTRAL_360"@) by {
        assert("SPECTRAL_730"@[9int] != "SPECTRAL_360"@[9int]);
    }
    assert("SPECTRAL_730"@ != "SPECTRAL_370"@) by {
        assert("SPECTRAL_730"@[9int] != "SPECTRAL_370"@[9int]);
    }
    assert("SPECTRAL_730"@ != "SPECTRAL_380"@) by {
        assert("SPECTRAL_730"@[9int] != "SPECTRAL_380"@[9int]);
    }
    assert("SPECTRAL_730"@ != "SPECTRAL_390"@) by {
        assert("SPECTRAL_730"@[9int] != "SPECTRAL_390"@[9int]);
    }
    assert("SPECTRAL_730"@ != "SPECTRAL_400"@) by {
        assert("SPECTRAL_730"@[9int] != "SPECTRAL_400"@[9int]);
    }
    assert("SPECTRAL_730"@ != "SPECTRAL_410"@) by {
        assert("SPECTRAL_730"@[9int] != "SPECTRAL_410"@[9int]);
    }
    assert("SPECTRAL_730"@ != "SPECTRAL_420"@) by {
        assert("SPECTRAL_730"@[9int] != "SPECTRAL_420"@[9int]);
    }
    assert("SPECTRAL_730"@ != "SPECTRAL_430"@) by {
        assert("SPECTRAL_730"@[9int] != "SPECTRAL_430"@[9int]);
    }
    assert("SPECTRAL_730"@ != "SPECTRAL_440"@) by {
        assert("SPECTRAL_730"@[9int] != "SPECTRAL_440"@[9int]);
    }
    assert("SPECTRAL_730"@ != "SPECTRAL_450"@) by {
        assert("SPECTRAL_730"@[9int] != "SPECTRAL_450"@[9int]);
    }
    assert("SPECTRAL_730"@ != "SPECTRAL_460"@) by {
        assert("SPECTRAL_730"@[9int] != "SPECTRAL_460"@[9int]);
    }
    assert("SPECTRAL_730"@ != "SPECTRAL_470"@) by {
        assert("SPECTRAL_730"@[9int] != "SPECTRAL_470"@[9int]);
    }
    assert("SPECTRAL_730"@ != "SPECTRAL_480"@) by {
        assert("SPECTRAL_730"@[9int] != "SPECTRAL_480"@[9int]);
    }
    assert("SPECTRAL_730"@ != "SPECTRAL_490"@) by {
        assert("SPECTRAL_730"@[9int] != "SPECTRAL_490"@[9int]);
    }
    assert("SPECTRAL_730"@ != "SPECTRAL_500"@) by {
        assert("SPECTRAL_730"@[9int] != "SPECTRAL_500"@[9int]);
    }
    assert("SPECTRAL_730"@ != "SPECTRAL_510"@) by {
        assert("SPECTRAL_730"@[9int] != "SPECTRAL_510"@[9int]);
    }
    assert("SPECTRAL_730"@ != "SPECTRAL_520"@) by {
        assert("SPECTRAL_730"@[9int] != "SPECTRAL_520"@[9int]);
    }
    assert("SPECTRAL_730"@ != "SPECTRAL_530"@) by {
        assert("SPECTRAL_730"@[9int] != "SPECTRAL_530"@[9int]);
    }
    assert("SPECTRAL_730"@ != "SPECTRAL_540"@) by {
        assert("SPECTRAL_730"@[9int] != "SPECTRAL_540"@[9int]);
    }
    assert("SPECTRAL_730"@ != "SPECTRAL_550"@) by {
        assert("SPECTRAL_730"@[9int] != "SPECTRAL_550"@[9int]);
    }
    assert("SPECTRAL_730"@ != "SPECTRAL_560"@) by {
        assert("SPECTRAL_730"@[9int] != "SPECTRAL_560"@[9int]);
    }
    assert("SPECTRAL_730"@ != "SPECTRAL_570"@) by {
        assert("SPECTRAL_730"@[9int] != "SPECTRAL_570"@[9int]);
    }
    assert("SPECTRAL_730"@ != "SPECTRAL_580"@) by {
        assert("SPECTRAL_730"@[9int] != "SPECTRAL_580"@[9int]);
    }
    assert("SPECTRAL_730"@ != "SPECTRAL_590"@) by {
        assert("SPECTRAL_730"@[9int] != "SPECTRAL_590"@[9int]);
    }
    assert("SPECTRAL_730"@ != "SPECTRAL_600"@) by {
        assert("SPECTRAL_730"@[9int] != "SPECTRAL_600"@[9int]);
    }
    assert("SPECTRAL_730"@ != "SPECTRAL_610"@) by {
        assert("SPECTRAL_730"@[9int] != "SPECTRAL_610"@[9int]);
    }
    assert("SPECTRAL_730"@ != "SPECTRAL_620"@) by {
        assert("SPECTRAL_730"@[9int] != "SPECTRAL_620"@[9int]);
    }
    assert("SPECTRAL_730"@ != "SPECTRAL_630"@) by {
        assert("SPECTRAL_730"@[9int] != "SPECTRAL_630"@[9int]);
    }
    assert("SPECTRAL_730"@ != "SPECTRAL_640"@) by {
        assert("SPECTRAL_730"@[9int] != "SPECTRAL_640"@[9int]);
    }
    assert("SPECTRAL_730"@ != "SPECTRAL_650"@) by {
        assert("SPECTRAL_730"@[9int] != "SPECTRAL_650"@[9int]);
    }
    assert("SPECTRAL_730"@ != "SPECTRAL_660"@) by {
        assert("SPECTRAL_730"@[9int] != "SPECTRAL_660"@[9int]);
    }
    assert("SPECTRAL_730"@ != "SPECTRAL_670"@) by {
        assert("SPECTRAL_730"@[9int] != "SPECTRAL_670"@[9int]);
    }
    assert("SPECTRAL_730"@ != "SPECTRAL_680"@) by {
        assert("SPECTRAL_730"@[9int] != "SPECTRAL_680"@[9int]);
    }
    assert("SPECTRAL_730"@ != "SPECTRAL_690"@) by {
        assert("SPECTRAL_730"@[9int] != "SPECTRAL_690"@[9int]);
    }
    assert("SPECTRAL_730"@ != "SPECTRAL_700"@) by {
        assert("SPECTRAL_730"@[10int] != "SPECTRAL_700"@[10int]);
    }
    assert("SPECTRAL_730"@ != "SPECTRAL_710"@) by {
        assert("SPECTRAL_730"@[10int] != "SPECTRAL_710"@[10int]);
    }
    assert("SPECTRAL_730"@ != "SPECTRAL_720"@) by {
        assert("SPECTRAL_730"@[10int] != "SPECTRAL_720"@[10int]);
    }
    assert("SPECTRAL_740"@ != "LAB_DE_1994T"@) by {
        assert("SPECTRAL_740"@[0int] != "LAB_DE_1994T"@[0int]);
    }
    assert("SPECTRAL_740"@ != "SPECTRAL_340"@) by {
        assert("SPECTRAL_740"@[9int] != "SPECTRAL_340"@[9int]);
    }
    assert("SPECTRAL_740"@ != "SPECTRAL_350"@) by {
        assert("SPECTRAL_740"@[9int] != "SPECTRAL_350"@[9int]);
    }
    assert("SPECTRAL_740"@ != "SPECTRAL_360"@) by {
        assert("SPECTRAL_740"@[9int] != "SPECTRAL_360"@[9int]);
    }
    assert("SPECTRAL_740"@ != "SPECTRAL_370"@) by {
        assert("SPECTRAL_740"@[9int] != "SPECTRAL_370"@[9int]);
    }
    assert("SPECTRAL_740"@ != "SPECTRAL_380"@) by {
        assert("SPECTRAL_740"@[9int] != "SPECTRAL_380"@[9int]);
    }
    assert("SPECTRAL_740"@ != "SPECTRAL_390"@) by {
        assert("SPECTRAL_740"@[9int] != "SPECTRAL_390"@[9int]);
    }
    assert("SPECTRAL_740"@ != "SPECTRAL_400"@) by {
        assert("SPECTRAL_740"@[9int] != "SPECTRAL_400"@[9int]);
    }
    assert("SPECTRAL_740"@ != "SPECTRAL_410"@) by {
        assert("SPECTRAL_740"@[9int] != "SPECTRAL_410"@[9int]);
    }
    assert("SPECTRAL_740"@ != "SPECTRAL_420"@) by {
        assert("SPECTRAL_740"@[9int] != "SPECTRAL_420"@[9int]);
    }
    assert("SPECTRAL_740"@ != "SPECTRAL_430"@) by {
        assert("SPECTRAL_740"@[9int] != "SPECTRAL_430"@[9int]);
    }
    assert("SPECTRAL_740"@ != "SPECTRAL_440"@) by {
        assert("SPECTRAL_740"@[9int] != "SPECTRAL_440"@[9int]);
    }
    assert("SPECTRAL_740"@ != "SPECTRAL_450"@) by {
        assert("SPECTRAL_740"@[9int] != "SPECTRAL_450"@[9int]);
    }
    assert("SPECTRAL_740"@ != "SPECTRAL_460"@) by {
        assert("SPECTRAL_740"@[9int] != "SPECTRAL_460"@[9int]);
    }
    assert("SPECTRAL_740"@ != "SPECTRAL_470"@) by {
        assert("SPECTRAL_740"@[9int] != "SPECTRAL_470"@[9int]);
    }
    assert("SPECTRAL_740"@ != "SPECTRAL_480"@) by {
        assert("SPECTRAL_740"@[9int] != "SPECTRAL_480"@[9int]);
    }
    assert("SPECTRAL_740"@ != "SPECTRAL_490"@) by {
        assert("SPECTRAL_740"@[9int] != "SPECTRAL_490"@[9int]);
    }
    assert("SPECTRAL_740"@ != "SPECTRAL_500"@) by {
        assert("SPECTRAL_740"@[9int] != "SPECTRAL_500"@[9int]);
    }
    assert("SPECTRAL_740"@ != "SPECTRAL_510"@) by {
        assert("SPECTRAL_740"@[9int] != "SPECTRAL_510"@[9int]);
    }
    assert("SPECTRAL_740"@ != "SPECTRAL_520"@) by {
        assert("SPECTRAL_740"@[9int] != "SPECTRAL_520"@[9int]);
    }
    assert("SPECTRAL_740"@ != "SPECTRAL_530"@) by {
        assert("SPECTRAL_740"@[9int] != "SPECTRAL_530"@[9int]);
    }
    assert("SPECTRAL_740"@ != "SPECTRAL_540"@) by {
        assert("SPECTRAL_740"@[9int] != "SPECTRAL_540"@[9int]);
    }
    assert("SPECTRAL_740"@ != "SPECTRAL_550"@) by {
        assert("SPECTRAL_740"@[9int] != "SPECTRAL_550"@[9int]);
    }
    assert("SPECTRAL_740"@ != "SPECTRAL_560"@) by {
        assert("SPECTRAL_740"@[9int] != "SPECTRAL_560"@[9int]);
    }
    assert("SPECTRAL_740"@ != "SPECTRAL_570"@) by {
        assert("SPECTRAL_740"@[9int] != "SPECTRAL_570"@[9int]);
    }
    assert("SPECTRAL_740"@ != "SPECTRAL_580"@) by {
        assert("SPECTRAL_740"@[9int] != "SPECTRAL_580"@[9int]);
    }
    assert("SPECTRAL_740"@ != "SPECTRAL_590"@) by {
        assert("SPECTRAL_740"@[9int] != "SPECTRAL_590"@[9int]);
    }
    assert("SPECTRAL_740"@ != "SPECTRAL_600"@) by {
        assert("SPECTRAL_740"@[9int] != "SPECTRAL_600"@[9int]);
    }
    assert("SPECTRAL_740"@ != "SPECTRAL_610"@) by {
        assert("SPECTRAL_740"@[9int] != "SPECTRAL_610"@[9int]);
    }
    assert("SPECTRAL_740"@ != "SPECTRAL_620"@) by {
        assert("SPECTRAL_740"@[9int] != "SPECTRAL_620"@[9int]);
    }
    assert("SPECTRAL_740"@ != "SPECTRAL_630"@) by {
        assert("SPECTRAL_740"@[9int] != "SPECTRAL_630"@[9int]);
    }
    assert("SPECTRAL_740"@ != "SPECTRAL_640"@) by {
        assert("SPECTRAL_740"@[9int] != "SPECTRAL_640"@[9int]);
    }
    assert("SPECTRAL_740"@ != "SPECTRAL_650"@) by {
        assert("SPECTRAL_740"@[9int] != "SPECTRAL_650"@[9int]);
    }
    assert("SPECTRAL_740"@ != "SPECTRAL_660"@) by {
        assert("SPECTRAL_740"@[9int] != "SPECTRAL_660"@[9int]);
    }
    assert("SPECTRAL_740"@ != "SPECTRAL_670"@) by {
        assert("SPECTRAL_740"@[9int] != "SPECTRAL_670"@[9int]);
    }
    assert("SPECTRAL_740"@ != "SPECTRAL_680"@) by {
        assert("SPECTRAL_740"@[9int] != "SPECTRAL_680"@[9int]);
    }
    assert("SPECTRAL_740"@ != "SPECTRAL_690"@) by {
        assert("SPECTRAL_740"@[9int] != "SPECTRAL_690"@[9int]);
    }
    assert("SPECTRAL_740"@ != "SPECTRAL_700"@) by {
        assert("SPECTRAL_740"@[10int] != "SPECTRAL_700"@[10int]);
    }
    assert("SPECTRAL_740"@ != "SPECTRAL_710"@) by {
        assert("SPECTRAL_740"@[10int] != "SPECTRAL_710"@[10int]);
    }
    assert("SPECTRAL_740"@ != "SPECTRAL_720"@) by {
        assert("SPECTRAL_740"@[10int] != "SPECTRAL_720"@[10int]);
    }
    assert("SPECTRAL_740"@ != "SPECTRAL_730"@) by {
        assert("SPECTRAL_740"@[10int] != "SPECTRAL_730"@[10int]);
    }
    assert("SPECTRAL_750"@ != "LAB_DE_1994T"@) by {
        assert("SPECTRAL_750"@[0int] != "LAB_DE_1994T"@[0int]);
    }
    assert("SPECTRAL_750"@ != "SPECTRAL_340"@) by {
        assert("SPECTRAL_750"@[9int] != "SPECTRAL_340"@[9int]);
    }
    assert("SPECTRAL_750"@ != "SPECTRAL_350"@) by {
        assert("SPECTRAL_750"@[9int] != "SPECTRAL_350"@[9int]);
    }
    assert("SPECTRAL_750"@ != "SPECTRAL_360"@) by {
        assert("SPECTRAL_750"@[9int] != "SPECTRAL_360"@[9int]);
    }
    assert("SPECTRAL_750"@ != "SPECTRAL_370"@) by {
        assert("SPECTRAL_750"@[9int] != "SPECTRAL_370"@[9int]);
    }
    assert("SPECTRAL_750"@ != "SPECTRAL_380"@) by {
        assert("SPECTRAL_750"@[9int] != "SPECTRAL_380"@[9int]);
    }
    assert("SPECTRAL_750"@ != "SPECTRAL_390"@) by {
        assert("SPECTRAL_750"@[9int] != "SPECTRAL_390"@[9int]);
    }
    assert("SPECTRAL_750"@ != "SPECTRAL_400"@) by {
        assert("SPECTRAL_750"@[9int] != "SPECTRAL_400"@[9int]);
    }
    assert("SPECTRAL_750"@ != "SPECTRAL_410"@) by {
        assert("SPECTRAL_750"@[9int] != "SPECTRAL_410"@[9int]);
    }
    assert("SPECTRAL_750"@ != "SPECTRAL_420"@) by {
        assert("SPECTRAL_750"@[9int] != "SPECTRAL_420"@[9int]);
    }
    assert("SPECTRAL_750"@ != "SPECTRAL_430"@) by {
        assert("SPECTRAL_750"@[9int] != "SPECTRAL_430"@[9int]);
    }
    assert("SPECTRAL_750"@ != "SPECTRAL_440"@) by {
        assert("SPECTRAL_750"@[9int] != "SPECTRAL_440"@[9int]);
    }
    assert("SPECTRAL_750"@ != "SPECTRAL_450"@) by {
        assert("SPECTRAL_750"@[9int] != "SPECTRAL_450"@[9int]);
    }
    assert("SPECTRAL_750"@ != "SPECTRAL_460"@) by {
        assert("SPECTRAL_750"@[9int] != "SPECTRAL_460"@[9int]);
    }
    assert("SPECTRAL_750"@ != "SPECTRAL_470"@) by {
        assert("SPECTRAL_750"@[9int] != "SPECTRAL_470"@[9int]);
    }
    assert("SPECTRAL_750"@ != "SPECTRAL_480"@) by {
        assert("SPECTRAL_750"@[9int] != "SPECTRAL_480"@[9int]);
    }
    assert("SPECTRAL_750"@ != "SPECTRAL_490"@) by {
        assert("SPECTRAL_750"@[9int] != "SPECTRAL_490"@[9int]);
    }
    assert("SPECTRAL_750"@ != "SPECTRAL_500"@) by {
        assert("SPECTRAL_750"@[9int] != "SPECTRAL_500"@[9int]);
    }
    assert("SPECTRAL_750"@ != "SPECTRAL_510"@) by {
        assert("SPECTRAL_750"@[9int] != "SPECTRAL_510"@[9int]);
    }
    assert("SPECTRAL_750"@ != "SPECTRAL_520"@) by {
        assert("SPECTRAL_750"@[9int] != "SPECTRAL_520"@[9int]);
    }
    assert("SPECTRAL_750"@ != "SPECTRAL_530"@) by {
        assert("SPECTRAL_750"@[9int] != "SPECTRAL_530"@[9int]);
    }
    assert("SPECTRAL_750"@ != "SPECTRAL_540"@) by {
        assert("SPECTRAL_750"@[9int] != "SPECTRAL_540"@[9int]);
    }
    assert("SPECTRAL_750"@ != "SPECTRAL_550"@) by {
        assert("SPECTRAL_750"@[9int] != "SPECTRAL_550"@[9int]);
    }
    assert("SPECTRAL_750"@ != "SPECTRAL_560"@) by {
        assert("SPECTRAL_750"@[9int] != "SPECTRAL_560"@[9int]);
    }
    assert("SPECTRAL_750"@ != "SPECTRAL_570"@) by {
        assert("SPECTRAL_750"@[9int] != "SPECTRAL_570"@[9int]);
    }
    assert("SPECTRAL_750"@ != "SPECTRAL_580"@) by {
        assert("SPECTRAL_750"@[9int] != "SPECTRAL_580"@[9int]);
    }
    assert("SPECTRAL_750"@ != "SPECTRAL_590"@) by {
        assert("SPECTRAL_750"@[9int] != "SPECTRAL_590"@[9int]);
    }
    assert("SPECTRAL_750"@ != "SPECTRAL_600"@) by {
        assert("SPECTRAL_750"@[9int] != "SPECTRAL_600"@[9int]);
    }
    assert("SPECTRAL_750"@ != "SPECTRAL_610"@) by {
        assert("SPECTRAL_750"@[9int] != "SPECTRAL_610"@[9int]);
    }
    assert("SPECTRAL_750"@ != "SPECTRAL_620"@) by {
        assert("SPECTRAL_750"@[9int] != "SPECTRAL_620"@[9int]);
    }
    assert("SPECTRAL_750"@ != "SPECTRAL_630"@) by {
        assert("SPECTRAL_750"@[9int] != "SPECTRAL_630"@[9int]);
    }
    assert("SPECTRAL_750"@ != "SPECTRAL_640"@) by {
        assert("SPECTRAL_750"@[9int] != "SPECTRAL_640"@[9int]);
    }
    assert("SPECTRAL_750"@ != "SPECTRAL_650"@) by {
        assert("SPECTRAL_750"@[9int] != "SPECTRAL_650"@[9int]);
    }
    assert("SPECTRAL_750"@ != "SPECTRAL_660"@) by {
        assert("SPECTRAL_750"@[9int] != "SPECTRAL_660"@[9int]);
    }
    assert("SPECTRAL_750"@ != "SPECTRAL_670"@) by {
        assert("SPECTRAL_750"@[9int] != "SPECTRAL_670"@[9int]);
    }
    assert("SPECTRAL_750"@ != "SPECTRAL_680"@) by {
        assert("SPECTRAL_750"@[9int] != "SPECTRAL_680"@[9int]);
    }
    assert("SPECTRAL_750"@ != "SPECTRAL_690"@) by {
        assert("SPECTRAL_750"@[9int] != "SPECTRAL_690"@[9int]);
    }
    assert("SPECTRAL_750"@ != "SPECTRAL_700"@) by {
        assert("SPECTRAL_750"@[10int] != "SPECTRAL_700"@[10int]);
    }
    assert("SPECTRAL_750"@ != "SPECTRAL_710"@) by {
        assert("SPECTRAL_750"@[10int] != "SPECTRAL_710"@[10int]);
    }
    assert("SPECTRAL_750"@ != "SPECTRAL_720"@) by {
        assert("SPECTRAL_750"@[10int] != "SPECTRAL_720"@[10int]);
    }
    assert("SPECTRAL_750"@ != "SPECTRAL_730"@) by {
        assert("SPECTRAL_750"@[10int] != "SPECTRAL_730"@[10int]);
    }
    assert("SPECTRAL_750"@ != "SPECTRAL_740"@) by {
        assert("SPECTRAL_750"@[10int] != "SPECTRAL_740"@[10int]);
    }
    assert("SPECTRAL_760"@ != "LAB_DE_1994T"@) by {
        assert("SPECTRAL_760"@[0int] != "LAB_DE_1994T"@[0int]);
    }
    assert("SPECTRAL_760"@ != "SPECTRAL_340"@) by {
        assert("SPECTRAL_760"@[9int] != "SPECTRAL_340"@[9int]);
    }
    assert("SPECTRAL_760"@ != "SPECTRAL_350"@) by {
        assert("SPECTRAL_760"@[9int] != "SPECTRAL_350"@[9int]);
    }
    assert("SPECTRAL_760"@ != "SPECTRAL_360"@) by {
        assert("SPECTRAL_760"@[9int] != "SPECTRAL_360"@[9int]);
    }
    assert("SPECTRAL_760"@ != "SPECTRAL_370"@) by {
        assert("SPECTRAL_760"@[9int] != "SPECTRAL_370"@[9int]);
    }
    assert("SPECTRAL_760"@ != "SPECTRAL_380"@) by {
        assert("SPECTRAL_760"@[9int] != "SPECTRAL_380"@[9int]);
    }
    assert("SPECTRAL_760"@ != "SPECTRAL_390"@) by {
        assert("SPECTRAL_760"@[9int] != "SPECTRAL_390"@[9int]);
    }
    assert("SPECTRAL_760"@ != "SPECTRAL_400"@) by {
        assert("SPECTRAL_760"@[9int] != "SPECTRAL_400"@[9int]);
    }
    assert("SPECTRAL_760"@ != "SPECTRAL_410"@) by {
        assert("SPECTRAL_760"@[9int] != "SPECTRAL_410"@[9int]);
    }
    assert("SPECTRAL_760"@ != "SPECTRAL_420"@) by {
        assert("SPECTRAL_760"@[9int] != "SPECTRAL_420"@[9int]);
    }
    assert("SPECTRAL_760"@ != "SPECTRAL_430"@) by {
        assert("SPECTRAL_760"@[9int] != "SPECTRAL_430"@[9int]);
    }
    assert("SPECTRAL_760"@ != "SPECTRAL_440"@) by {
        assert("SPECTRAL_760"@[9int] != "SPECTRAL_440"@[9int]);
    }
    assert("SPECTRAL_760"@ != "SPECTRAL_450"@) by {
        assert("SPECTRAL_760"@[9int] != "SPECTRAL_450"@[9int]);
    }
    assert("SPECTRAL_760"@ != "SPECTRAL_460"@) by {
        assert("SPECTRAL_760"@[9int] != "SPECTRAL_460"@[9int]);
    }
    assert("SPECTRAL_760"@ != "SPECTRAL_470"@) by {
        assert("SPECTRAL_760"@[9int] != "SPECTRAL_470"@[9int]);
    }
    assert("SPECTRAL_760"@ != "SPECTRAL_480"@) by {
        assert("SPECTRAL_760"@[9int] != "SPECTRAL_480"@[9int]);
    }
    assert("SPECTRAL_760"@ != "SPECTRAL_490"@) by {
        assert("SPECTRAL_760"@[9int] != "SPECTRAL_490"@[9int]);
    }
    assert("SPECTRAL_760"@ != "SPECTRAL_500"@) by {
        assert("SPECTRAL_760"@[9int] != "SPECTRAL_500"@[9int]);
    }
    assert("SPECTRAL_760"@ != "SPECTRAL_510"@) by {
        assert("SPECTRAL_760"@[9int] != "SPECTRAL_510"@[9int]);
    }
    assert("SPECTRAL_760"@ != "SPECTRAL_520"@) by {
        assert("SPECTRAL_760"@[9int] != "SPECTRAL_520"@[9int]);
    }
    assert("SPECTRAL_760"@ != "SPECTRAL_530"@) by {
        assert("SPECTRAL_760"@[9int] != "SPECTRAL_530"@[9int]);
    }
    assert("SPECTRAL_760"@ != "SPECTRAL_540"@) by {
        assert("SPECTRAL_760"@[9int] != "SPECTRAL_540"@[9int]);
    }
    assert("SPECTRAL_760"@ != "SPECTRAL_550"@) by {
        assert("SPECTRAL_760"@[9int] != "SPECTRAL_550"@[9int]);
    }
    assert("SPECTRAL_760"@ != "SPECTRAL_560"@) by {
        assert("SPECTRAL_760"@[9int] != "SPECTRAL_560"@[9int]);
    }
    assert("SPECTRAL_760"@ != "SPECTRAL_570"@) by {
        assert("SPECTRAL_760"@[9int] != "SPECTRAL_570"@[9int]);
    }
    assert("SPECTRAL_760"@ != "SPECTRAL_580"@) by {
        assert("SPECTRAL_760"@[9int] != "SPECTRAL_580"@[9int]);
    }
    assert("SPECTRAL_760"@ != "SPECTRAL_590"@) by {
        assert("SPECTRAL_760"@[9int] != "SPECTRAL_590"@[9int]);
    }
    assert("SPECTRAL_760"@ != "SPECTRAL_600"@) by {
        assert("SPECTRAL_760"@[9int] != "SPECTRAL_600"@[9int]);
    }
    assert("SPECTRAL_760"@ != "SPECTRAL_610"@) by {
        assert("SPECTRAL_760"@[9int] != "SPECTRAL_610"@[9int]);
    }
    assert("SPECTRAL_760"@ != "SPECTRAL_620"@) by {
        assert("SPECTRAL_760"@[9int] != "SPECTRAL_620"@[9int]);
    }
    assert("SPECTRAL_760"@ != "SPECTRAL_630"@) by {
        assert("SPECTRAL_760"@[9int] != "SPECTRAL_630"@[9int]);
    }
    assert("SPECTRAL_760"@ != "SPECTRAL_640"@) by {
        assert("SPECTRAL_760"@[9int] != "SPECTRAL_640"@[9int]);
    }
    assert("SPECTRAL_760"@ != "SPECTRAL_650"@) by {
        assert("SPECTRAL_760"@[9int] != "SPECTRAL_650"@[9int]);
    }
    assert("SPECTRAL_760"@ != "SPECTRAL_660"@) by {
        assert("SPECTRAL_760"@[9int] != "SPECTRAL_660"@[9int]);
    }
    assert("SPECTRAL_760"@ != "SPECTRAL_670"@) by {
        assert("SPECTRAL_760"@[9int] != "SPECTRAL_670"@[9int]);
    }
    assert("SPECTRAL_760"@ != "SPECTRAL_680"@) by {
        assert("SPECTRAL_760"@[9int] != "SPECTRAL_680"@[9int]);
    }
    assert("SPECTRAL_760"@ != "SPECTRAL_690"@) by {
        assert("SPECTRAL_760"@[9int] != "SPECTRAL_690"@[9int]);
    }
    assert("SPECTRAL_760"@ != "SPECTRAL_700"@) by {
        assert("SPECTRAL_760"@[10int] != "SPECTRAL_700"@[10int]);
    }
    assert("SPECTRAL_760"@ != "SPECTRAL_710"@) by {
        assert("SPECTRAL_760"@[10int] != "SPECTRAL_710"@[10int]);
    }
    assert("SPECTRAL_760"@ != "SPECTRAL_720"@) by {
        assert("SPECTRAL_760"@[10int] != "SPECTRAL_720"@[10int]);
    }
    assert("SPECTRAL_760"@ != "SPECTRAL_730"@) by {
        assert("SPECTRAL_760"@[10int] != "SPECTRAL_730"@[10int]);
    }
    assert("SPECTRAL_760"@ != "SPECTRAL_740"@) by {
        assert("SPECTRAL_760"@[10int] != "SPECTRAL_740"@[10int]);
    }
    assert("SPECTRAL_760"@ != "SPECTRAL_750"@) by {
        assert("SPECTRAL_760"@[10int] != "SPECTRAL_750"@[10int]);
    }
}

#[verifier::spinoff_prover]
#[verifier::rlimit(100)]
proof fn lemma_round_trip_chunk_10()
    ensures
        field_of(field_name(Field::SPECTRAL_770)) == Some(Field::SPECTRAL_770),
        field_of(field_name(Field::SPECTRAL_780)) == Some(Field::SPECTRAL_780),
        field_of(field_name(Field::SPECTRAL_790)) == Some(Field::SPECTRAL_790),
        field_of(field_name(Field::SPECTRAL_800)) == Some(Field::SPECTRAL_800),
        field_of(field_name(Field::SPECTRAL_810)) == Some(Field::SPECTRAL_810),
        field_of(field_name(Field::SPECTRAL_820)) == Some(Field::SPECTRAL_820),
        field_of(field_name(Field::SPECTRAL_830)) == Some(Field::SPECTRAL_830),
{
    reveal_strlit("SAMPLE_ID");
    reveal_strlit("SAMPLEID");
    reveal_strlit("SAMPLE");
    reveal_strlit("SAMPLE_NAME");
    reveal_strlit("SAMPLENAME");
    reveal_strlit("");
    reveal_strlit("BLANK");
    reveal_strlit("RGB_R");
    reveal_strlit("RGB_G");
    reveal_strlit("RGB_B");
    reveal_strlit("CMYK_C");
    reveal_strlit("CMYK_M");
    reveal_strlit("CMYK_Y");
    reveal_strlit("CMYK_K");
    reveal_strlit("5CLR_1");
    reveal_strlit("5CLR_2");
    reveal_strlit("5CLR_3");
    reveal_strlit("5CLR_4");
    reveal_strlit("5CLR_5");
    reveal_strlit("6CLR_1");
    reveal_strlit("6CLR_2");
    reveal_strlit("6CLR_3");
    reveal_strlit("6CLR_4");
    reveal_strlit("6CLR_5");
    reveal_strlit("6CLR_6");
    reveal_strlit("7CLR_1");
    reveal_strlit("7CLR_2");
    reveal_strlit("7CLR_3");
    reveal_strlit("7CLR_4");
    reveal_strlit("7CLR_5");
    reveal_strlit("7CLR_6");
    reveal_strlit("7CLR_7");
    reveal_strlit("8CLR_1");
    reveal_strlit("8CLR_2");
    reveal_strlit("8CLR_3");
    reveal_strlit("8CLR_4");
    reveal_strlit("8CLR_5");
    reveal_strlit("8CLR_6");
    reveal_strlit("8CLR_7");
    reveal_strlit("8CLR_8");
    reveal_strlit("LAB_L");
    reveal_strlit("LAB_A");
    reveal_strlit("LAB_B");
    reveal_strlit("LAB_C");
    reveal_strlit("LAB_H");
    reveal_strlit("XYZ_X");
    reveal_strlit("XYZ_Y");
    reveal_strlit("XYZ_Z");
    reveal_strlit("XYY_X");
    reveal_strlit("XYY_Y");
    reveal_strlit("XYY_CAPY");
    reveal_strlit("D_RED");
    reveal_strlit("D_GREEN");
    reveal_strlit("D_BLUE");
    reveal_strlit("D_VISUAL");
    reveal_strlit("D_VIS");
    reveal_strlit("LAB_DE");
    reveal_strlit("DE1976");
    reveal_strlit("DE76");
    reveal_strlit("DE");
    reveal_strlit("DE_76");
    reveal_strlit("DE_1976");
    reveal_strlit("LAB_DE_1994");
    reveal_strlit("DE1994");
    reveal_strlit("DE94");
    reveal_strlit("DE1994G");
    reveal_strlit("DE94G");
    reveal_strlit("DE94_G");
    reveal_strlit("DE_1994");
    reveal_strlit("DE_94");
    reveal_strlit("DE_1994G");
    reveal_strlit("DE_1994_G");
    reveal_strlit("DE_94G");
    reveal_strlit("DE_94_G");
    reveal_strlit("LAB_DE_1994T");
    reveal_strlit("DE1994T");
    reveal_strlit("DE94T");
    reveal_strlit("DE_1994_T");
    reveal_strlit("DE_94T");
    reveal_strlit("DE_1994T");
    reveal_strlit("DE_94_T");
    reveal_strlit("DE94_T");
    reveal_strlit("LAB_DE_CMC");
    reveal_strlit("DECMC");
    reveal_strlit("DECMC1");
    reveal_strlit("CMC");
    reveal_strlit("CMC 1:1");
    reveal_strlit("DE_CMC1");
    reveal_strlit("DE_CMC_1");
    reveal_strlit("DE_CMC");
    reveal_strlit("LAB_DE_CMC2");
    reveal_strlit("DECMC2");
    reveal_strlit("CMC2");
    reveal_strlit("CMC 2:1");
    reveal_strlit("DE_CMC_2");
    reveal_strlit("DE_CMC2");
    reveal_strlit("DE_CMC 2:1");
    reveal_strlit("DECMC_2");
    reveal_strlit("LAB_DE_2001");
    reveal_strlit("DE2000");
    reveal_strlit("DE00");
    reveal_strlit("DE_2000");
    reveal_strlit("DE_00");
    reveal_strlit("SPECTRAL_340");
    reveal_strlit("SPECTRAL_350");
    reveal_strlit("SPECTRAL_360");
    reveal_strlit("SPECTRAL_370");
    reveal_strlit("SPECTRAL_380");
    reveal_strlit("SPECTRAL_390");
    reveal_strlit("SPECTRAL_400");
    reveal_strlit("SPECTRAL_410");
    reveal_strlit("SPECTRAL_420");
    reveal_strlit("SPECTRAL_430");
    reveal_strlit("SPECTRAL_440");
    reveal_strlit("SPECTRAL_450");
    reveal_strlit("SPECTRAL_460");
    reveal_strlit("SPECTRAL_470");
    reveal_strlit("SPECTRAL_480");
    reveal_strlit("SPECTRAL_490");
    reveal_strlit("SPECTRAL_500");
    reveal_strlit("SPECTRAL_510");
    reveal_strlit("SPECTRAL_520");
    reveal_strlit("SPECTRAL_530");
    reveal_strlit("SPECTRAL_540");
    reveal_strlit("SPECTRAL_550");
    reveal_strlit("SPECTRAL_560");
    reveal_strlit("SPECTRAL_570");
    reveal_strlit("SPECTRAL_580");
    reveal_strlit("SPECTRAL_590");
    reveal_strlit("SPECTRAL_600");
    reveal_strlit("SPECTRAL_610");
    reveal_strlit("SPECTRAL_620");
    reveal_strlit("SPECTRAL_630");
    reveal_strlit("SPECTRAL_640");
    reveal_strlit("SPECTRAL_650");
    reveal_strlit("SPECTRAL_660");
    reveal_strlit("SPECTRAL_670");
    reveal_strlit("SPECTRAL_680");
    reveal_strlit("SPECTRAL_690");
    reveal_strlit("SPECTRAL_700");
    reveal_strlit("SPECTRAL_710");
    reveal_strlit("SPECTRAL_720");
    reveal_strlit("SPECTRAL_730");
    reveal_strlit("SPECTRAL_740");
    reveal_strlit("SPECTRAL_750");
    reveal_strlit("SPECTRAL_760");
    reveal_strlit("SPECTRAL_770");
    reveal_strlit("SPECTRAL_780");
    reveal_strlit("SPECTRAL_790");
    reveal_strlit("SPECTRAL_800");
    reveal_strlit("SPECTRAL_810");
    reveal_strlit("SPECTRAL_820");
    reveal_strlit("SPECTRAL_830");
    assert(upper_seq("SPECTRAL_770"@) =~= "SPECTRAL_770"@);
    assert(upper_seq("SPECTRAL_780"@) =~= "SPECTRAL_780"@);
    assert(upper_seq("SPECTRAL_790"@) =~= "SPECTRAL_790"@);
    assert(upper_seq("SPECTRAL_800"@) =~= "SPECTRAL_800"@);
    assert(upper_seq("SPECTRAL_810"@) =~= "SPECTRAL_810"@);
    assert(upper_seq("SPECTRAL_820"@) =~= "SPECTRAL_820"@);
    assert(upper_seq("SPECTRAL_830"@) =~= "SPECTRAL_830"@);
    assert("SPECTRAL_770"@ != "LAB_DE_1994T"@) by {
        assert("SPECTRAL_770"@[0int] != "LAB_DE_1994T"@[0int]);
    }
    assert("SPECTRAL_770"@ != "SPECTRAL_340"@) by {
        assert("SPECTRAL_770"@[9int] != "SPECTRAL_340"@[9int]);
    }
    assert("SPECTRAL_770"@ != "SPECTRAL_350"@) by {
        assert("SPECTRAL_770"@[9int] != "SPECTRAL_350"@[9int]);
    }
    assert("SPECTRAL_770"@ != "SPECTRAL_360"@) by {
        assert("SPECTRAL_770"@[9int] != "SPECTRAL_360"@[9int]);
    }
    assert("SPECTRAL_770"@ != "SPECTRAL_370"@) by {
        assert("SPECTRAL_770"@[9int] != "SPECTRAL_370"@[9int]);
    }
    assert("SPECTRAL_770"@ != "SPECTRAL_380"@) by {
        assert("SPECTRAL_770"@[9int] != "SPECTRAL_380"@[9int]);
    }
    assert("SPECTRAL_770"@ != "SPECTRAL_390"@) by {
        assert("SPECTRAL_770"@[9int] != "SPECTRAL_390"@[9int]);
    }
    assert("SPECTRAL_770"@ != "SPECTRAL_400"@) by {
        assert("SPECTRAL_770"@[9int] != "SPECTRAL_400"@[9int]);
    }
    assert("SPECTRAL_770"@ != "SPECTRAL_410"@) by {
        assert("SPECTRAL_770"@[9int] != "SPECTRAL_410"@[9int]);
    }
    assert("SPECTRAL_770"@ != "SPECTRAL_420"@) by {
        assert("SPECTRAL_770"@[9int] != "SPECTRAL_420"@[9int]);
    }
    assert("SPECTRAL_770"@ != "SPECTRAL_430"@) by {
        assert("SPECTRAL_770"@[9int] != "SPECTRAL_430"@[9int]);
    }
    assert("SPECTRAL_770"@ != "SPECTRAL_440"@) by {
        assert("SPECTRAL_770"@[9int] != "SPECTRAL_440"@[9int]);
    }
    assert("SPECTRAL_770"@ != "SPECTRAL_450"@) by {
        assert("SPECTRAL_770"@[9int] != "SPECTRAL_450"@[9int]);
    }
    assert("SPECTRAL_770"@ != "SPECTRAL_460"@) by {
        assert("SPECTRAL_770"@[9int] != "SPECTRAL_460"@[9int]);
    }
    assert("SPECTRAL_770"@ != "SPECTRAL_470"@) by {
        assert("SPECTRAL_770"@[9int] != "SPECTRAL_470"@[9int]);
    }
    assert("SPECTRAL_770"@ != "SPECTRAL_480"@) by {
        assert("SPECTRAL_770"@[9int] != "SPECTRAL_480"@[9int]);
    }
    assert("SPECTRAL_770"@ != "SPECTRAL_490"@) by {
        assert("SPECTRAL_770"@[9int] != "SPECTRAL_490"@[9int]);
    }
    assert("SPECTRAL_770"@ != "SPECTRAL_500"@) by {
        assert("SPECTRAL_770"@[9int] != "SPECTRAL_500"@[9int]);
    }
    assert("SPECTRAL_770"@ != "SPECTRAL_510"@) by {
        assert("SPECTRAL_770"@[9int] != "SPECTRAL_510"@[9int]);
    }
    assert("SPECTRAL_770"@ != "SPECTRAL_520"@) by {
        assert("SPECTRAL_770"@[9int] != "SPECTRAL_520"@[9int]);
    }
    assert("SPECTRAL_770"@ != "SPECTRAL_530"@) by {
        assert("SPECTRAL_770"@[9int] != "SPECTRAL_530"@[9int]);
    }
    assert("SPECTRAL_770"@ != "SPECTRAL_540"@) by {
        assert("SPECTRAL_770"@[9int] != "SPECTRAL_540"@[9int]);
    }
    assert("SPECTRAL_770"@ != "SPECTRAL_550"@) by {
        assert("SPECTRAL_770"@[9int] != "SPECTRAL_550"@[9int]);
    }
    assert("SPECTRAL_770"@ != "SPECTRAL_560"@) by {
        assert("SPECTRAL_770"@[9int] != "SPECTRAL_560"@[9int]);
    }
    assert("SPECTRAL_770"@ != "SPECTRAL_570"@) by {
        assert("SPECTRAL_770"@[9int] != "SPECTRAL_570"@[9int]);
    }
    assert("SPECTRAL_770"@ != "SPECTRAL_580"@) by {
        assert("SPECTRAL_770"@[9int] != "SPECTRAL_580"@[9int]);
    }
    assert("SPECTRAL_770"@ != "SPECTRAL_590"@) by {
        assert("SPECTRAL_770"@[9int] != "SPECTRAL_590"@[9int]);
    }
    assert("SPECTRAL_770"@ != "SPECTRAL_600"@) by {
        assert("SPECTRAL_770"@[9int] != "SPECTRAL_600"@[9int]);
    }
    assert("SPECTRAL_770"@ != "SPECTRAL_610"@) by {
        assert("SPECTRAL_770"@[9int] != "SPECTRAL_610"@[9int]);
    }
    assert("SPECTRAL_770"@ != "SPECTRAL_620"@) by {
        assert("SPECTRAL_770"@[9int] != "SPECTRAL_620"@[9int]);
    }
    assert("SPECTRAL_770"@ != "SPECTRAL_630"@) by {
        assert("SPECTRAL_770"@[9int] != "SPECTRAL_630"@[9int]);
    }
    assert("SPECTRAL_770"@ != "SPECTRAL_640"@) by {
        assert("SPECTRAL_770"@[9int] != "SPECTRAL_640"@[9int]);
    }
    assert("SPECTRAL_770"@ != "SPECTRAL_650"@) by {
        assert("SPECTRAL_770"@[9int] != "SPECTRAL_650"@[9int]);
    }
    assert("SPECTRAL_770"@ != "SPECTRAL_660"@) by {
        assert("SPECTRAL_770"@[9int] != "SPECTRAL_660"@[9int]);
    }
    assert("SPECTRAL_770"@ != "SPECTRAL_670"@) by {
        assert("SPECTRAL_770"@[9int] != "SPECTRAL_670"@[9int]);
    }
    assert("SPECTRAL_770"@ != "SPECTRAL_680"@) by {
        assert("SPECTRAL_770"@[9int] != "SPECTRAL_680"@[9int]);
    }
    assert("SPECTRAL_770"@ != "SPECTRAL_690"@) by {
        assert("SPECTRAL_770"@[9int] != "SPECTRAL_690"@[9int]);
    }
    assert("SPECTRAL_770"@ != "SPECTRAL_700"@) by {
        assert("SPECTRAL_770"@[10int] != "SPECTRAL_700"@[10int]);
    }
    assert("SPECTRAL_770"@ != "SPECTRAL_710"@) by {
        assert("SPECTRAL_770"@[10int] != "SPECTRAL_710"@[10int]);
    }
    assert("SPECTRAL_770"@ != "SPECTRAL_720"@) by {
        assert("SPECTRAL_770"@[10int] != "SPECTRAL_720"@[10int]);
    }
    assert("SPECTRAL_770"@ != "SPECTRAL_730"@) by {
        assert("SPECTRAL_770"@[10int] != "SPECTRAL_730"@[10int]);
    }
    assert("SPECTRAL_770"@ != "SPECTRAL_740"@) by {
        assert("SPECTRAL_770"@[10int] != "SPECTRAL_740"@[10int]);
    }
    assert("SPECTRAL_770"@ != "SPECTRAL_750"@) by {
        assert("SPECTRAL_770"@[10int] != "SPECTRAL_750"@[10int]);
    }
    assert("SPECTRAL_770"@ != "SPECTRAL_760"@) by {
        assert("SPECTRAL_770"@[10int] != "SPECTRAL_760"@[10int]);
    }
    assert("SPECTRAL_780"@ != "LAB_DE_1994T"@) by {
        assert("SPECTRAL_780"@[0int] != "LAB_DE_1994T"@[0int]);
    }
    assert("SPECTRAL_780"@ != "SPECTRAL_340"@) by {
        assert("SPECTRAL_780"@[9int] != "SPECTRAL_340"@[9int]);
    }
    assert("SPECTRAL_780"@ != "SPECTRAL_350"@) by {
        assert("SPECTRAL_780"@[9int] != "SPECTRAL_350"@[9int]);
    }
    assert("SPECTRAL_780"@ != "SPECTRAL_360"@) by {
        assert("SPECTRAL_780"@[9int] != "SPECTRAL_360"@[9int]);
    }
    assert("SPECTRAL_780"@ != "SPECTRAL_370"@) by {
        assert("SPECTRAL_780"@[9int] != "SPECTRAL_370"@[9int]);
    }
    assert("SPECTRAL_780"@ != "SPECTRAL_380"@) by {
        assert("SPECTRAL_780"@[9int] != "SPECTRAL_380"@[9int]);
    }
    assert("SPECTRAL_780"@ != "SPECTRAL_390"@) by {
        assert("SPECTRAL_780"@[9int] != "SPECTRAL_390"@[9int]);
    }
    assert("SPECTRAL_780"@ != "SPECTRAL_400"@) by {
        assert("SPECTRAL_780"@[9int] != "SPECTRAL_400"@[9int]);
    }
    assert("SPECTRAL_780"@ != "SPECTRAL_410"@) by {
        assert("SPECTRAL_780"@[9int] != "SPECTRAL_410"@[9int]);
    }
    assert("SPECTRAL_780"@ != "SPECTRAL_420"@) by {
        assert("SPECTRAL_780"@[9int] != "SPECTRAL_420"@[9int]);
    }
    assert("SPECTRAL_780"@ != "SPECTRAL_430"@) by {
        assert("SPECTRAL_780"@[9int] != "SPECTRAL_430"@[9int]);
    }
    assert("SPECTRAL_780"@ != "SPECTRAL_440"@) by {
        assert("SPECTRAL_780"@[9int] != "SPECTRAL_440"@[9int]);
    }
    assert("SPECTRAL_780"@ != "SPECTRAL_450"@) by {
        assert("SPECTRAL_780"@[9int] != "SPECTRAL_450"@[9int]);
    }
    assert("SPECTRAL_780"@ != "SPECTRAL_460"@) by {
        assert("SPECTRAL_780"@[9int] != "SPECTRAL_460"@[9int]);
    }
    assert("SPECTRAL_780"@ != "SPECTRAL_470"@) by {
        assert("SPECTRAL_780"@[9int] != "SPECTRAL_470"@[9int]);
    }
    assert("SPECTRAL_780"@ != "SPECTRAL_480"@) by {
        assert("SPECTRAL_780"@[9int] != "SPECTRAL_480"@[9int]);
    }
    assert("SPECTRAL_780"@ != "SPECTRAL_490"@) by {
        assert("SPECTRAL_780"@[9int] != "SPECTRAL_490"@[9int]);
    }
    assert("SPECTRAL_780"@ != "SPECTRAL_500"@) by {
        assert("SPECTRAL_780"@[9int] != "SPECTRAL_500"@[9int]);
    }
    assert("SPECTRAL_780"@ != "SPECTRAL_510"@) by {
        assert("SPECTRAL_780"@[9int] != "SPECTRAL_510"@[9int]);
    }
    assert("SPECTRAL_780"@ != "SPECTRAL_520"@) by {
        assert("SPECTRAL_780"@[9int] != "SPECTRAL_520"@[9int]);
    }
    assert("SPECTRAL_780"@ != "SPECTRAL_530"@) by {
        assert("SPECTRAL_780"@[9int] != "SPECTRAL_530"@[9int]);
    }
    assert("SPECTRAL_780"@ != "SPECTRAL_540"@) by {
        assert("SPECTRAL_780"@[9int] != "SPECTRAL_540"@[9int]);
    }
    assert("SPECTRAL_780"@ != "SPECTRAL_550"@) by {
        assert("SPECTRAL_780"@[9int] != "SPECTRAL_550"@[9int]);
    }
    assert("SPECTRAL_780"@ != "SPECTRAL_560"@) by {
        assert("SPECTRAL_780"@[9int] != "SPECTRAL_560"@[9int]);
    }
    assert("SPECTRAL_780"@ != "SPECTRAL_570"@) by {
        assert("SPECTRAL_780"@[9int] != "SPECTRAL_570"@[9int]);
    }
    assert("SPECTRAL_780"@ != "SPECTRAL_580"@) by {
        assert("SPECTRAL_780"@[9int] != "SPECTRAL_580"@[9int]);
    }
    assert("SPECTRAL_780"@ != "SPECTRAL_590"@) by {
        assert("SPECTRAL_780"@[9int] != "SPECTRAL_590"@[9int]);
    }
    assert("SPECTRAL_780"@ != "SPECTRAL_600"@) by {
        assert("SPECTRAL_780"@[9int] != "SPECTRAL_600"@[9int]);
    }
    assert("SPECTRAL_780"@ != "SPECTRAL_610"@) by {
        assert("SPECTRAL_780"@[9int] != "SPECTRAL_610"@[9int]);
    }
    assert("SPECTRAL_780"@ != "SPECTRAL_620"@) by {
        assert("SPECTRAL_780"@[9int] != "SPECTRAL_620"@[9int]);
    }
    assert("SPECTRAL_780"@ != "SPECTRAL_630"@) by {
        assert("SPECTRAL_780"@[9int] != "SPECTRAL_630"@[9int]);
    }
    assert("SPECTRAL_780"@ != "SPECTRAL_640"@) by {
        assert("SPECTRAL_780"@[9int] != "SPECTRAL_640"@[9int]);
    }
    assert("SPECTRAL_780"@ != "SPECTRAL_650"@) by {
        assert("SPECTRAL_780"@[9int] != "SPECTRAL_650"@[9int]);
    }
    assert("SPECTRAL_780"@ != "SPECTRAL_660"@) by {
        assert("SPECTRAL_780"@[9int] != "SPECTRAL_660"@[9int]);
    }
    assert("SPECTRAL_780"@ != "SPECTRAL_670"@) by {
        assert("SPECTRAL_780"@[9int] != "SPECTRAL_670"@[9int]);
    }
    assert("SPECTRAL_780"@ != "SPECTRAL_680"@) by {
        assert("SPECTRAL_780"@[9int] != "SPECTRAL_680"@[9int]);
    }
    assert("SPECTRAL_780"@ != "SPECTRAL_690"@) by {
        assert("SPECTRAL_780"@[9int] != "SPECTRAL_690"@[9int]);
    }
    assert("SPECTRAL_780"@ != "SPECTRAL_700"@) by {
        assert("SPECTRAL_780"@[10int] != "SPECTRAL_700"@[10int]);
    }
    assert("SPECTRAL_780"@ != "SPECTRAL_710"@) by {
        assert("SPECTRAL_780"@[10int] != "SPECTRAL_710"@[10int]);
    }
    assert("SPECTRAL_780"@ != "SPECTRAL_720"@) by {
        assert("SPECTRAL_780"@[10int] != "SPECTRAL_720"@[10int]);
    }
    assert("SPECTRAL_780"@ != "SPECTRAL_730"@) by {
        assert("SPECTRAL_780"@[10int] != "SPECTRAL_730"@[10int]);
    }
    assert("SPECTRAL_780"@ != "SPECTRAL_740"@) by {
        assert("SPECTRAL_780"@[10int] != "SPECTRAL_740"@[10int]);
    }
    assert("SPECTRAL_780"@ != "SPECTRAL_750"@) by {
        assert("SPECTRAL_780"@[10int] != "SPECTRAL_750"@[10int]);
    }
    assert("SPECTRAL_780"@ != "SPECTRAL_760"@) by {
        assert("SPECTRAL_780"@[10int] != "SPECTRAL_760"@[10int]);
    }
    assert("SPECTRAL_780"@ != "SPECTRAL_770"@) by {
        assert("SPECTRAL_780"@[10int] != "SPECTRAL_770"@[10int]);
    }
    assert("SPECTRAL_790"@ != "LAB_DE_1994T"@) by {
        assert("SPECTRAL_790"@[0int] != "LAB_DE_1994T"@[0int]);
    }
    assert("SPECTRAL_790"@ != "SPECTRAL_340"@) by {
        assert("SPECTRAL_790"@[9int] != "SPECTRAL_340"@[9int]);
    }
    assert("SPECTRAL_790"@ != "SPECTRAL_350"@) by {
        assert("SPECTRAL_790"@[9int] != "SPECTRAL_350"@[9int]);
    }
    assert("SPECTRAL_790"@ != "SPECTRAL_360"@) by {
        assert("SPECTRAL_790"@[9int] != "SPECTRAL_360"@[9int]);
    }
    assert("SPECTRAL_790"@ != "SPECTRAL_370"@) by {
        assert("SPECTRAL_790"@[9int] != "SPECTRAL_370"@[9int]);
    }
    assert("SPECTRAL_790"@ != "SPECTRAL_380"@) by {
        assert("SPECTRAL_790"@[9int] != "SPECTRAL_380"@[9int]);
    }
    assert("SPECTRAL_790"@ != "SPECTRAL_390"@) by {
        assert("SPECTRAL_790"@[9int] != "SPECTRAL_390"@[9int]);
    }
    assert("SPECTRAL_790"@ != "SPECTRAL_400"@) by {
        assert("SPECTRAL_790"@[9int] != "SPECTRAL_400"@[9int]);
    }
    assert("SPECTRAL_790"@ != "SPECTRAL_410"@) by {
        assert("SPECTRAL_790"@[9int] != "SPECTRAL_410"@[9int]);
    }
    assert("SPECTRAL_790"@ != "SPECTRAL_420"@) by {
        assert("SPECTRAL_790"@[9int] != "SPECTRAL_420"@[9int]);
    }
    assert("SPECTRAL_790"@ != "SPECTRAL_430"@) by {
        assert("SPECTRAL_790"@[9int] != "SPECTRAL_430"@[9int]);
    }
    assert("SPECTRAL_790"@ != "SPECTRAL_440"@) by {
        assert("SPECTRAL_790"@[9int] != "SPECTRAL_440"@[9int]);
    }
    assert("SPECTRAL_790"@ != "SPECTRAL_450"@) by {
        assert("SPECTRAL_790"@[9int] != "SPECTRAL_450"@[9int]);
    }
    assert("SPECTRAL_790"@ != "SPECTRAL_460"@) by {
        assert("SPECTRAL_790"@[9int] != "SPECTRAL_460"@[9int]);
    }
    assert("SPECTRAL_790"@ != "SPECTRAL_470"@) by {
        assert("SPECTRAL_790"@[9int] != "SPECTRAL_470"@[9int]);
    }
    assert("SPECTRAL_790"@ != "SPECTRAL_480"@) by {
        assert("SPECTRAL_790"@[9int] != "SPECTRAL_480"@[9int]);
    }
    assert("SPECTRAL_790"@ != "SPECTRAL_490"@) by {
        assert("SPECTRAL_790"@[9int] != "SPECTRAL_490"@[9int]);
    }
    assert("SPECTRAL_790"@ != "SPECTRAL_500"@) by {
        assert("SPECTRAL_790"@[9int] != "SPECTRAL_500"@[9int]);
    }
    assert("SPECTRAL_790"@ != "SPECTRAL_510"@) by {
        assert("SPECTRAL_790"@[9int] != "SPECTRAL_510"@[9int]);
    }
    assert("SPECTRAL_790"@ != "SPECTRAL_520"@) by {
        assert("SPECTRAL_790"@[9int] != "SPECTRAL_520"@[9int]);
    }
    assert("SPECTRAL_790"@ != "SPECTRAL_530"@) by {
        assert("SPECTRAL_790"@[9int] != "SPECTRAL_530"@[9int]);
    }
    assert("SPECTRAL_790"@ != "SPECTRAL_540"@) by {
        assert("SPECTRAL_790"@[9int] != "SPECTRAL_540"@[9int]);
    }
    assert("SPECTRAL_790"@ != "SPECTRAL_550"@) by {
        assert("SPECTRAL_790"@[9int] != "SPECTRAL_550"@[9int]);
    }
    assert("SPECTRAL_790"@ != "SPECTRAL_560"@) by {
        assert("SPECTRAL_790"@[9int] != "SPECTRAL_560"@[9int]);
    }
    assert("SPECTRAL_790"@ != "SPECTRAL_570"@) by {
        assert("SPECTRAL_790"@[9int] != "SPECTRAL_570"@[9int]);
    }
    assert("SPECTRAL_790"@ != "SPECTRAL_580"@) by {
        assert("SPECTRAL_790"@[9int] != "SPECTRAL_580"@[9int]);
    }
    assert("SPECTRAL_790"@ != "SPECTRAL_590"@) by {
        assert("SPECTRAL_790"@[9int] != "SPECTRAL_590"@[9int]);
    }
    assert("SPECTRAL_790"@ != "SPECTRAL_600"@) by {
        assert("SPECTRAL_790"@[9int] != "SPECTRAL_600"@[9int]);
    }
    assert("SPECTRAL_790"@ != "SPECTRAL_610"@) by {
        assert("SPECTRAL_790"@[9int] != "SPECTRAL_610"@[9int]);
    }
    assert("SPECTRAL_790"@ != "SPECTRAL_620"@) by {
        assert("SPECTRAL_790"@[9int] != "SPECTRAL_620"@[9int]);
    }
    assert("SPECTRAL_790"@ != "SPECTRAL_630"@) by {
        assert("SPECTRAL_790"@[9int] != "SPECTRAL_630"@[9int]);
    }
    assert("SPECTRAL_790"@ != "SPECTRAL_640"@) by {
        assert("SPECTRAL_790"@[9int] != "SPECTRAL_640"@[9int]);
    }
    assert("SPECTRAL_790"@ != "SPECTRAL_650"@) by {
        assert("SPECTRAL_790"@[9int] != "SPECTRAL_650"@[9int]);
    }
    assert("SPECTRAL_790"@ != "SPECTRAL_660"@) by {
        assert("SPECTRAL_790"@[9int] != "SPECTRAL_660"@[9int]);
    }
    assert("SPECTRAL_790"@ != "SPECTRAL_670"@) by {
        assert("SPECTRAL_790"@[9int] != "SPECTRAL_670"@[9int]);
    }
    assert("SPECTRAL_790"@ != "SPECTRAL_680"@) by {
        assert("SPECTRAL_790"@[9int] != "SPECTRAL_680"@[9int]);
    }
    assert("SPECTRAL_790"@ != "SPECTRAL_690"@) by {
        assert("SPECTRAL_790"@[9int] != "SPECTRAL_690"@[9int]);
    }
    assert("SPECTRAL_790"@ != "SPECTRAL_700"@) by {
        assert("SPECTRAL_790"@[10int] != "SPECTRAL_700"@[10int]);
    }
    assert("SPECTRAL_790"@ != "SPECTRAL_710"@) by {
        assert("SPECTRAL_790"@[10int] != "SPECTRAL_710"@[10int]);
    }
    assert("SPECTRAL_790"@ != "SPECTRAL_720"@) by {
        assert("SPECTRAL_790"@[10int] != "SPECTRAL_720"@[10int]);
    }
    assert("SPECTRAL_790"@ != "SPECTRAL_730"@) by {
        assert("SPECTRAL_790"@[10int] != "SPECTRAL_730"@[10int]);
    }
    assert("SPECTRAL_790"@ != "SPECTRAL_740"@) by {
        assert("SPECTRAL_790"@[10int] != "SPECTRAL_740"@[10int]);
    }
    assert("SPECTRAL_790"@ != "SPECTRAL_750"@) by {
        assert("SPECTRAL_790"@[10int] != "SPECTRAL_750"@[10int]);
    }
    assert("SPECTRAL_790"@ != "SPECTRAL_760"@) by {
        assert("SPECTRAL_790"@[10int] != "SPECTRAL_760"@[10int]);
    }
    assert("SPECTRAL_790"@ != "SPECTRAL_770"@) by {
        assert("SPECTRAL_790"@[10int] != "SPECTRAL_770"@[10int]);
    }
    assert("SPECTRAL_790"@ != "SPECTRAL_780"@) by {
        assert("SPECTRAL_790"@[10int] != "SPECTRAL_780"@[10int]);
    }
    assert("SPECTRAL_800"@ != "LAB_DE_1994T"@) by {
        assert("SPECTRAL_800"@[0int] != "LAB_DE_1994T"@[0int]);
    }
    assert("SPECTRAL_800"@ != "SPECTRAL_340"@) by {
        assert("SPECTRAL_800"@[9int] != "SPECTRAL_340"@[9int]);
    }
    assert("SPECTRAL_800"@ != "SPECTRAL_350"@) by {
        assert("SPECTRAL_800"@[9int] != "SPECTRAL_350"@[9int]);
    }
    assert("SPECTRAL_800"@ != "SPECTRAL_360"@) by {
        assert("SPECTRAL_800"@[9int] != "SPECTRAL_360"@[9int]);
    }
    assert("SPECTRAL_800"@ != "SPECTRAL_370"@) by {
        assert("SPECTRAL_800"@[9int] != "SPECTRAL_370"@[9int]);
    }
    assert("SPECTRAL_800"@ != "SPECTRAL_380"@) by {
        assert("SPECTRAL_800"@[9int] != "SPECTRAL_380"@[9int]);
    }
    assert("SPECTRAL_800"@ != "SPECTRAL_390"@) by {
        assert("SPECTRAL_800"@[9int] != "SPECTRAL_390"@[9int]);
    }
    assert("SPECTRAL_800"@ != "SPECTRAL_400"@) by {
        assert("SPECTRAL_800"@[9int] != "SPECTRAL_400"@[9int]);
    }
    assert("SPECTRAL_800"@ != "SPECTRAL_410"@) by {
        assert("SPECTRAL_800"@[9int] != "SPECTRAL_410"@[9int]);
    }
    assert("SPECTRAL_800"@ != "SPECTRAL_420"@) by {
        assert("SPECTRAL_800"@[9int] != "SPECTRAL_420"@[9int]);
    }
    assert("SPECTRAL_800"@ != "SPECTRAL_430"@) by {
        assert("SPECTRAL_800"@[9int] != "SPECTRAL_430"@[9int]);
    }
    assert("SPECTRAL_800"@ != "SPECTRAL_440"@) by {
        assert("SPECTRAL_800"@[9int] != "SPECTRAL_440"@[9int]);
    }
    assert("SPECTRAL_800"@ != "SPECTRAL_450"@) by {
        assert("SPECTRAL_800"@[9int] != "SPECTRAL_450"@[9int]);
    }
    assert("SPECTRAL_800"@ != "SPECTRAL_460"@) by {
        assert("SPECTRAL_800"@[9int] != "SPECTRAL_460"@[9int]);
    }
    assert("SPECTRAL_800"@ != "SPECTRAL_470"@) by {
        assert("SPECTRAL_800"@[9int] != "SPECTRAL_470"@[9int]);
    }
    assert("SPECTRAL_800"@ != "SPECTRAL_480"@) by {
        assert("SPECTRAL_800"@[9int] != "SPECTRAL_480"@[9int]);
    }
    assert("SPECTRAL_800"@ != "SPECTRAL_490"@) by {
        assert("SPECTRAL_800"@[9int] != "SPECTRAL_490"@[9int]);
    }
    assert("SPECTRAL_800"@ != "SPECTRAL_500"@) by {
        assert("SPECTRAL_800"@[9int] != "SPECTRAL_500"@[9int]);
    }
    assert("SPECTRAL_800"@ != "SPECTRAL_510"@) by {
        assert("SPECTRAL_800"@[9int] != "SPECTRAL_510"@[9int]);
    }
    assert("SPECTRAL_800"@ != "SPECTRAL_520"@) by {
        assert("SPECTRAL_800"@[9int] != "SPECTRAL_520"@[9int]);
    }
    assert("SPECTRAL_800"@ != "SPECTRAL_530"@) by {
        assert("SPECTRAL_800"@[9int] != "SPECTRAL_530"@[9int]);
    }
    assert("SPECTRAL_800"@ != "SPECTRAL_540"@) by {
        assert("SPECTRAL_800"@[9int] != "SPECTRAL_540"@[9int]);
    }
    assert("SPECTRAL_800"@ != "SPECTRAL_550"@) by {
        assert("SPECTRAL_800"@[9int] != "SPECTRAL_550"@[9int]);
    }
    assert("SPECTRAL_800"@ != "SPECTRAL_560"@) by {
        assert("SPECTRAL_800"@[9int] != "SPECTRAL_560"@[9int]);
    }
    assert("SPECTRAL_800"@ != "SPECTRAL_570"@) by {
        assert("SPECTRAL_800"@[9int] != "SPECTRAL_570"@[9int]);
    }
    assert("SPECTRAL_800"@ != "SPECTRAL_580"@) by {
        assert("SPECTRAL_800"@[9int] != "SPECTRAL_580"@[9int]);
    }
    assert("SPECTRAL_800"@ != "SPECTRAL_590"@) by {
        assert("SPECTRAL_800"@[9int] != "SPECTRAL_590"@[9int]);
    }
    assert("SPECTRAL_800"@ != "SPECTRAL_600"@) by {
        assert("SPECTRAL_800"@[9int] != "SPECTRAL_600"@[9int]);
    }
    assert("SPECTRAL_800"@ != "SPECTRAL_610"@) by {
        assert("SPECTRAL_800"@[9int] != "SPECTRAL_610"@[9int]);
    }
    assert("SPECTRAL_800"@ != "SPECTRAL_620"@) by {
        assert("SPECTRAL_800"@[9int] != "SPECTRAL_620"@[9int]);
    }
    assert("SPECTRAL_800"@ != "SPECTRAL_630"@) by {
        assert("SPECTRAL_800"@[9int] != "SPECTRAL_630"@[9int]);
    }
    assert("SPECTRAL_800"@ != "SPECTRAL_640"@) by {
        assert("SPECTRAL_800"@[9int] != "SPECTRAL_640"@[9int]);
    }
    assert("SPECTRAL_800"@ != "SPECTRAL_650"@) by {
        assert("SPECTRAL_800"@[9int] != "SPECTRAL_650"@[9int]);
    }
    assert("SPECTRAL_800"@ != "SPECTRAL_660"@) by {
        assert("SPECTRAL_800"@[9int] != "SPECTRAL_660"@[9int]);
    }
    assert("SPECTRAL_800"@ != "SPECTRAL_670"@) by {
        assert("SPECTRAL_800"@[9int] != "SPECTRAL_670"@[9int]);
    }
    assert("SPECTRAL_800"@ != "SPECTRAL_680"@) by {
        assert("SPECTRAL_800"@[9int] != "SPECTRAL_680"@[9int]);
    }
    assert("SPECTRAL_800"@ != "SPECTRAL_690"@) by {
        assert("SPECTRAL_800"@[9int] != "SPECTRAL_690"@[9int]);
    }
    assert("SPECTRAL_800"@ != "SPECTRAL_700"@) by {
        assert("SPECTRAL_800"@[9int] != "SPECTRAL_700"@[9int]);
    }
    assert("SPECTRAL_800"@ != "SPECTRAL_710"@) by {
        assert("SPECTRAL_800"@[9int] != "SPECTRAL_710"@[9int]);
    }
    assert("SPECTRAL_800"@ != "SPECTRAL_720"@) by {
        assert("SPECTRAL_800"@[9int] != "SPECTRAL_720"@[9int]);
    }
    assert("SPECTRAL_800"@ != "SPECTRAL_730"@) by {
        assert("SPECTRAL_800"@[9int] != "SPECTRAL_730"@[9int]);
    }
    assert("SPECTRAL_800"@ != "SPECTRAL_740"@) by {
        assert("SPECTRAL_800"@[9int] != "SPECTRAL_740"@[9int]);
    }
    assert("SPECTRAL_800"@ != "SPECTRAL_750"@) by {
        assert("SPECTRAL_800"@[9int] != "SPECTRAL_750"@[9int]);
    }
    assert("SPECTRAL_800"@ != "SPECTRAL_760"@) by {
        assert("SPECTRAL_800"@[9int] != "SPECTRAL_760"@[9int]);
    }
    assert("SPECTRAL_800"@ != "SPECTRAL_770"@) by {
        assert("SPECTRAL_800"@[9int] != "SPECTRAL_770"@[9int]);
    }
    assert("SPECTRAL_800"@ != "SPECTRAL_780"@) by {
        assert("SPECTRAL_800"@[9int] != "SPECTRAL_780"@[9int]);
    }
    assert("SPECTRAL_800"@ != "SPECTRAL_790"@) by {
        assert("SPECTRAL_800"@[9int] != "SPECTRAL_790"@[9int]);
    }
    assert("SPECTRAL_810"@ != "LAB_DE_1994T"@) by {
        assert("SPECTRAL_810"@[0int] != "LAB_DE_1994T"@[0int]);
    }
    assert("SPECTRAL_810"@ != "SPECTRAL_340"@) by {
        assert("SPECTRAL_810"@[9int] != "SPECTRAL_340"@[9int]);
    }
    assert("SPECTRAL_810"@ != "SPECTRAL_350"@) by {
        assert("SPECTRAL_810"@[9int] != "SPECTRAL_350"@[9int]);
    }
    assert("SPECTRAL_810"@ != "SPECTRAL_360"@) by {
        assert("SPECTRAL_810"@[9int] != "SPECTRAL_360"@[9int]);
    }
    assert("SPECTRAL_810"@ != "SPECTRAL_370"@) by {
        assert("SPECTRAL_810"@[9int] != "SPECTRAL_370"@[9int]);
    }
    assert("SPECTRAL_810"@ != "SPECTRAL_380"@) by {
        assert("SPECTRAL_810"@[9int] != "SPECTRAL_380"@[9int]);
    }
    assert("SPECTRAL_810"@ != "SPECTRAL_390"@) by {
        assert("SPECTRAL_810"@[9int] != "SPECTRAL_390"@[9int]);
    }
    assert("SPECTRAL_810"@ != "SPECTRAL_400"@) by {
        assert("SPECTRAL_810"@[9int] != "SPECTRAL_400"@[9int]);
    }
    assert("SPECTRAL_810"@ != "SPECTRAL_410"@) by {
        assert("SPECTRAL_810"@[9int] != "SPECTRAL_410"@[9int]);
    }
    assert("SPECTRAL_810"@ != "SPECTRAL_420"@) by {
        assert("SPECTRAL_810"@[9int] != "SPECTRAL_420"@[9int]);
    }
    assert("SPECTRAL_810"@ != "SPECTRAL_430"@) by {
        assert("SPECTRAL_810"@[9int] != "SPECTRAL_430"@[9int]);
    }
    assert("SPECTRAL_810"@ != "SPECTRAL_440"@) by {
        assert("SPECTRAL_810"@[9int] != "SPECTRAL_440"@[9int]);
    }
    assert("SPECTRAL_810"@ != "SPECTRAL_450"@) by {
        assert("SPECTRAL_810"@[9int] != "SPECTRAL_450"@[9int]);
    }
    assert("SPECTRAL_810"@ != "SPECTRAL_460"@) by {
        assert("SPECTRAL_810"@[9int] != "SPECTRAL_460"@[9int]);
    }
    assert("SPECTRAL_810"@ != "SPECTRAL_470"@) by {
        assert("SPECTRAL_810"@[9int] != "SPECTRAL_470"@[9int]);
    }
    assert("SPECTRAL_810"@ != "SPECTRAL_480"@) by {
        assert("SPECTRAL_810"@[9int] != "SPECTRAL_480"@[9int]);
    }
    assert("SPECTRAL_810"@ != "SPECTRAL_490"@) by {
        assert("SPECTRAL_810"@[9int] != "SPECTRAL_490"@[9int]);
    }
    assert("SPECTRAL_810"@ != "SPECTRAL_500"@) by {
        assert("SPECTRAL_810"@[9int] != "SPECTRAL_500"@[9int]);
    }
    assert("SPECTRAL_810"@ != "SPECTRAL_510"@) by {
        assert("SPECTRAL_810"@[9int] != "SPECTRAL_510"@[9int]);
    }
    assert("SPECTRAL_810"@ != "SPECTRAL_520"@) by {
        assert("SPECTRAL_810"@[9int] != "SPECTRAL_520"@[9int]);
    }
    assert("SPECTRAL_810"@ != "SPECTRAL_530"@) by {
        assert("SPECTRAL_810"@[9int] != "SPECTRAL_530"@[9int]);
    }
    assert("SPECTRAL_810"@ != "SPECTRAL_540"@) by {
        assert("SPECTRAL_810"@[9int] != "SPECTRAL_540"@[9int]);
    }
    assert("SPECTRAL_810"@ != "SPECTRAL_550"@) by {
        assert("SPECTRAL_810"@[9int] != "SPECTRAL_550"@[9int]);
    }
    assert("SPECTRAL_810"@ != "SPECTRAL_560"@) by {
        assert("SPECTRAL_810"@[9int] != "SPECTRAL_560"@[9int]);
    }
    assert("SPECTRAL_810"@ != "SPECTRAL_570"@) by {
        assert("SPECTRAL_810"@[9int] != "SPECTRAL_570"@[9int]);
    }
    assert("SPECTRAL_810"@ != "SPECTRAL_580"@) by {
        assert("SPECTRAL_810"@[9int] != "SPECTRAL_580"@[9int]);
    }
    assert("SPECTRAL_810"@ != "SPECTRAL_590"@) by {
        assert("SPECTRAL_810"@[9int] != "SPECTRAL_590"@[9int]);
    }
    assert("SPECTRAL_810"@ != "SPECTRAL_600"@) by {
        assert("SPECTRAL_810"@[9int] != "SPECTRAL_600"@[9int]);
    }
    assert("SPECTRAL_810"@ != "SPECTRAL_610"@) by {
        assert("SPECTRAL_810"@[9int] != "SPECTRAL_610"@[9int]);
    }
    assert("SPECTRAL_810"@ != "SPECTRAL_620"@) by {
        assert("SPECTRAL_810"@[9int] != "SPECTRAL_620"@[9int]);
    }
    assert("SPECTRAL_810"@ != "SPECTRAL_630"@) by {
        assert("SPECTRAL_810"@[9int] != "SPECTRAL_630"@[9int]);
    }
    assert("SPECTRAL_810"@ != "SPECTRAL_640"@) by {
        assert("SPECTRAL_810"@[9int] != "SPECTRAL_640"@[9int]);
    }
    assert("SPECTRAL_810"@ != "SPECTRAL_650"@) by {
        assert("SPECTRAL_810"@[9int] != "SPECTRAL_650"@[9int]);
    }
    assert("SPECTRAL_810"@ != "SPECTRAL_660"@) by {
        assert("SPECTRAL_810"@[9int] != "SPECTRAL_660"@[9int]);
    }
    assert("SPECTRAL_810"@ != "SPECTRAL_670"@) by {
        assert("SPECTRAL_810"@[9int] != "SPECTRAL_670"@[9int]);
    }
    assert("SPECTRAL_810"@ != "SPECTRAL_680"@) by {
        assert("SPECTRAL_810"@[9int] != "SPECTRAL_680"@[9int]);
    }
    assert("SPECTRAL_810"@ != "SPECTRAL_690"@) by {
        assert("SPECTRAL_810"@[9int] != "SPECTRAL_690"@[9int]);
    }
    assert("SPECTRAL_810"@ != "SPECTRAL_700"@) by {
        assert("SPECTRAL_810"@[9int] != "SPECTRAL_700"@[9int]);
    }
    assert("SPECTRAL_810"@ != "SPECTRAL_710"@) by {
        assert("SPECTRAL_810"@[9int] != "SPECTRAL_710"@[9int]);
    }
    assert("SPECTRAL_810"@ != "SPECTRAL_720"@) by {
        assert("SPECTRAL_810"@[9int] != "SPECTRAL_720"@[9int]);
    }
    assert("SPECTRAL_810"@ != "SPECTRAL_730"@) by {
        assert("SPECTRAL_810"@[9int] != "SPECTRAL_730"@[9int]);
    }
    assert("SPECTRAL_810"@ != "SPECTRAL_740"@) by {
        assert("SPECTRAL_810"@[9int] != "SPECTRAL_740"@[9int]);
    }
    assert("SPECTRAL_810"@ != "SPECTRAL_750"@) by {
        assert("SPECTRAL_810"@[9int] != "SPECTRAL_750"@[9int]);
    }
    assert("SPECTRAL_810"@ != "SPECTRAL_760"@) by {
        assert("SPECTRAL_810"@[9int] != "SPECTRAL_760"@[9int]);
    }
    assert("SPECTRAL_810"@ != "SPECTRAL_770"@) by {
        assert("SPECTRAL_810"@[9int] != "SPECTRAL_770"@[9int]);
    }
    assert("SPECTRAL_810"@ != "SPECTRAL_780"@) by {
        assert("SPECTRAL_810"@[9int] != "SPECTRAL_780"@[9int]);
    }
    assert("SPECTRAL_810"@ != "SPECTRAL_790"@) by {
        assert("SPECTRAL_810"@[9int] != "SPECTRAL_790"@[9int]);
    }
    assert("SPECTRAL_810"@ != "SPECTRAL_800"@) by {
        assert("SPECTRAL_810"@[10int] != "SPECTRAL_800"@[10int]);
    }
    assert("SPECTRAL_820"@ != "LAB_DE_1994T"@) by {
        assert("SPECTRAL_820"@[0int] != "LAB_DE_1994T"@[0int]);
    }
    assert("SPECTRAL_820"@ != "SPECTRAL_340"@) by {
        assert("SPECTRAL_820"@[9int] != "SPECTRAL_340"@[9int]);
    }
    assert("SPECTRAL_820"@ != "SPECTRAL_350"@) by {
        assert("SPECTRAL_820"@[9int] != "SPECTRAL_350"@[9int]);
    }
    assert("SPECTRAL_820"@ != "SPECTRAL_360"@) by {
        assert("SPECTRAL_820"@[9int] != "SPECTRAL_360"@[9int]);
    }
    assert("SPECTRAL_820"@ != "SPECTRAL_370"@) by {
        assert("SPECTRAL_820"@[9int] != "SPECTRAL_370"@[9int]);
    }
    assert("SPECTRAL_820"@ != "SPECTRAL_380"@) by {
        assert("SPECTRAL_820"@[9int] != "SPECTRAL_380"@[9int]);
    }
    assert("SPECTRAL_820"@ != "SPECTRAL_390"@) by {
        assert("SPECTRAL_820"@[9int] != "SPECTRAL_390"@[9int]);
    }
    assert("SPECTRAL_820"@ != "SPECTRAL_400"@) by {
        assert("SPECTRAL_820"@[9int] != "SPECTRAL_400"@[9int]);
    }
    assert("SPECTRAL_820"@ != "SPECTRAL_410"@) by {
        assert("SPECTRAL_820"@[9int] != "SPECTRAL_410"@[9int]);
    }
    assert("SPECTRAL_820"@ != "SPECTRAL_420"@) by {
        assert("SPECTRAL_820"@[9int] != "SPECTRAL_420"@[9int]);
    }
    assert("SPECTRAL_820"@ != "SPECTRAL_430"@) by {
        assert("SPECTRAL_820"@[9int] != "SPECTRAL_430"@[9int]);
    }
    assert("SPECTRAL_820"@ != "SPECTRAL_440"@) by {
        assert("SPECTRAL_820"@[9int] != "SPECTRAL_440"@[9int]);
    }
    assert("SPECTRAL_820"@ != "SPECTRAL_450"@) by {
        assert("SPECTRAL_820"@[9int] != "SPECTRAL_450"@[9int]);
    }
    assert("SPECTRAL_820"@ != "SPECTRAL_460"@) by {
        assert("SPECTRAL_820"@[9int] != "SPECTRAL_460"@[9int]);
    }
    assert("SPECTRAL_820"@ != "SPECTRAL_470"@) by {
        assert("SPECTRAL_820"@[9int] != "SPECTRAL_470"@[9int]);
    }
    assert("SPECTRAL_820"@ != "SPECTRAL_480"@) by {
        assert("SPECTRAL_820"@[9int] != "SPECTRAL_480"@[9int]);
    }
    assert("SPECTRAL_820"@ != "SPECTRAL_490"@) by {
        assert("SPECTRAL_820"@[9int] != "SPECTRAL_490"@[9int]);
    }
    assert("SPECTRAL_820"@ != "SPECTRAL_500"@) by {
        assert("SPECTRAL_820"@[9int] != "SPECTRAL_500"@[9int]);
    }
    assert("SPECTRAL_820"@ != "SPECTRAL_510"@) by {
        assert("SPECTRAL_820"@[9int] != "SPECTRAL_510"@[9int]);
    }
    assert("SPECTRAL_820"@ != "SPECTRAL_520"@) by {
        assert("SPECTRAL_820"@[9int] != "SPECTRAL_520"@[9int]);
    }
    assert("SPECTRAL_820"@ != "SPECTRAL_530"@) by {
        assert("SPECTRAL_820"@[9int] != "SPECTRAL_530"@[9int]);
    }
    assert("SPECTRAL_820"@ != "SPECTRAL_540"@) by {
        assert("SPECTRAL_820"@[9int] != "SPECTRAL_540"@[9int]);
    }
    assert("SPECTRAL_820"@ != "SPECTRAL_550"@) by {
        assert("SPECTRAL_820"@[9int] != "SPECTRAL_550"@[9int]);
    }
    assert("SPECTRAL_820"@ != "SPECTRAL_560"@) by {
        assert("SPECTRAL_820"@[9int] != "SPECTRAL_560"@[9int]);
    }
    assert("SPECTRAL_820"@ != "SPECTRAL_570"@) by {
        assert("SPECTRAL_820"@[9int] != "SPECTRAL_570"@[9int]);
    }
    assert("SPECTRAL_820"@ != "SPECTRAL_580"@) by {
        assert("SPECTRAL_820"@[9int] != "SPECTRAL_580"@[9int]);
    }
    assert("SPECTRAL_820"@ != "SPECTRAL_590"@) by {
        assert("SPECTRAL_820"@[9int] != "SPECTRAL_590"@[9int]);
    }
    assert("SPECTRAL_820"@ != "SPECTRAL_600"@) by {
        assert("SPECTRAL_820"@[9int] != "SPECTRAL_600"@[9int]);
    }
    assert("SPECTRAL_820"@ != "SPECTRAL_610"@) by {
        assert("SPECTRAL_820"@[9int] != "SPECTRAL_610"@[9int]);
    }
    assert("SPECTRAL_820"@ != "SPECTRAL_620"@) by {
        assert("SPECTRAL_820"@[9int] != "SPECTRAL_620"@[9int]);
    }
    assert("SPECTRAL_820"@ != "SPECTRAL_630"@) by {
        assert("SPECTRAL_820"@[9int] != "SPECTRAL_630"@[9int]);
    }
    assert("SPECTRAL_820"@ != "SPECTRAL_640"@) by {
        assert("SPECTRAL_820"@[9int] != "SPECTRAL_640"@[9int]);
    }
    assert("SPECTRAL_820"@ != "SPECTRAL_650"@) by {
        assert("SPECTRAL_820"@[9int] != "SPECTRAL_650"@[9int]);
    }
    assert("SPECTRAL_820"@ != "SPECTRAL_660"@) by {
        assert("SPECTRAL_820"@[9int] != "SPECTRAL_660"@[9int]);
    }
    assert("SPECTRAL_820"@ != "SPECTRAL_670"@) by {
        assert("SPECTRAL_820"@[9int] != "SPECTRAL_670"@[9int]);
    }
    assert("SPECTRAL_820"@ != "SPECTRAL_680"@) by {
        assert("SPECTRAL_820"@[9int] != "SPECTRAL_680"@[9int]);
    }
    assert("SPECTRAL_820"@ != "SPECTRAL_690"@) by {
        assert("SPECTRAL_820"@[9int] != "SPECTRAL_690"@[9int]);
    }
    assert("SPECTRAL_820"@ != "SPECTRAL_700"@) by {
        assert("SPECTRAL_820"@[9int] != "SPECTRAL_700"@[9int]);
    }
    assert("SPECTRAL_820"@ != "SPECTRAL_710"@) by {
        assert("SPECTRAL_820"@[9int] != "SPECTRAL_710"@[9int]);
    }
    assert("SPECTRAL_820"@ != "SPECTRAL_720"@) by {
        assert("SPECTRAL_820"@[9int] != "SPECTRAL_720"@[9int]);
    }
    assert("SPECTRAL_820"@ != "SPECTRAL_730"@) by {
        assert("SPECTRAL_820"@[9int] != "SPECTRAL_730"@[9int]);
    }
    assert("SPECTRAL_820"@ != "SPECTRAL_740"@) by {
        assert("SPECTRAL_820"@[9int] != "SPECTRAL_740"@[9int]);
    }
    assert("SPECTRAL_820"@ != "SPECTRAL_750"@) by {
        assert("SPECTRAL_820"@[9int] != "SPECTRAL_750"@[9int]);
    }
    assert("SPECTRAL_820"@ != "SPECTRAL_760"@) by {
        assert("SPECTRAL_820"@[9int] != "SPECTRAL_760"@[9int]);
    }
    assert("SPECTRAL_820"@ != "SPECTRAL_770"@) by {
        assert("SPECTRAL_820"@[9int] != "SPECTRAL_770"@[9int]);
    }
    assert("SPECTRAL_820"@ != "SPECTRAL_780"@) by {
        assert("SPECTRAL_820"@[9int] != "SPECTRAL_780"@[9int]);
    }
    assert("SPECTRAL_820"@ != "SPECTRAL_790"@) by {
        assert("SPECTRAL_820"@[9int] != "SPECTRAL_790"@[9int]);
    }
    assert("SPECTRAL_820"@ != "SPECTRAL_800"@) by {
        assert("SPECTRAL_820"@[10int] != "SPECTRAL_800"@[10int]);
    }
    assert("SPECTRAL_820"@ != "SPECTRAL_810"@) by {
        assert("SPECTRAL_820"@[10int] != "SPECTRAL_810"@[10int]);
    }
    assert("SPECTRAL_830"@ != "LAB_DE_1994T"@) by {
        assert("SPECTRAL_830"@[0int] != "LAB_DE_1994T"@[0int]);
    }
    assert("SPECTRAL_830"@ != "SPECTRAL_340"@) by {
        assert("SPECTRAL_830"@[9int] != "SPECTRAL_340"@[9int]);
    }
    assert("SPECTRAL_830"@ != "SPECTRAL_350"@) by {
        assert("SPECTRAL_830"@[9int] != "SPECTRAL_350"@[9int]);
    }
    assert("SPECTRAL_830"@ != "SPECTRAL_360"@) by {
        assert("SPECTRAL_830"@[9int] != "SPECTRAL_360"@[9int]);
    }
    assert("SPECTRAL_830"@ != "SPECTRAL_370"@) by {
        assert("SPECTRAL_830"@[9int] != "SPECTRAL_370"@[9int]);
    }
    assert("SPECTRAL_830"@ != "SPECTRAL_380"@) by {
        assert("SPECTRAL_830"@[9int] != "SPECTRAL_380"@[9int]);
    }
    assert("SPECTRAL_830"@ != "SPECTRAL_390"@) by {
        assert("SPECTRAL_830"@[9int] != "SPECTRAL_390"@[9int]);
    }
    assert("SPECTRAL_830"@ != "SPECTRAL_400"@) by {
        assert("SPECTRAL_830"@[9int] != "SPECTRAL_400"@[9int]);
    }
    assert("SPECTRAL_830"@ != "SPECTRAL_410"@) by {
        assert("SPECTRAL_830"@[9int] != "SPECTRAL_410"@[9int]);
    }
    assert("SPECTRAL_830"@ != "SPECTRAL_420"@) by {
        assert("SPECTRAL_830"@[9int] != "SPECTRAL_420"@[9int]);
    }
    assert("SPECTRAL_830"@ != "SPECTRAL_430"@) by {
        assert("SPECTRAL_830"@[9int] != "SPECTRAL_430"@[9int]);
    }
    assert("SPECTRAL_830"@ != "SPECTRAL_440"@) by {
        assert("SPECTRAL_830"@[9int] != "SPECTRAL_440"@[9int]);
    }
    assert("SPECTRAL_830"@ != "SPECTRAL_450"@) by {
        assert("SPECTRAL_830"@[9int] != "SPECTRAL_450"@[9int]);
    }
    assert("SPECTRAL_830"@ != "SPECTRAL_460"@) by {
        assert("SPECTRAL_830"@[9int] != "SPECTRAL_460"@[9int]);
    }
    assert("SPECTRAL_830"@ != "SPECTRAL_470"@) by {
        assert("SPECTRAL_830"@[9int] != "SPECTRAL_470"@[9int]);
    }
    assert("SPECTRAL_830"@ != "SPECTRAL_480"@) by {
        assert("SPECTRAL_830"@[9int] != "SPECTRAL_480"@[9int]);
    }
    assert("SPECTRAL_830"@ != "SPECTRAL_490"@) by {
        assert("SPECTRAL_830"@[9int] != "SPECTRAL_490"@[9int]);
    }
    assert("SPECTRAL_830"@ != "SPECTRAL_500"@) by {
        assert("SPECTRAL_830"@[9int] != "SPECTRAL_500"@[9int]);
    }
    assert("SPECTRAL_830"@ != "SPECTRAL_510"@) by {
        assert("SPECTRAL_830"@[9int] != "SPECTRAL_510"@[9int]);
    }
    assert("SPECTRAL_830"@ != "SPECTRAL_520"@) by {
        assert("SPECTRAL_830"@[9int] != "SPECTRAL_520"@[9int]);
    }
    assert("SPECTRAL_830"@ != "SPECTRAL_530"@) by {
        assert("SPECTRAL_830"@[9int] != "SPECTRAL_530"@[9int]);
    }
    assert("SPECTRAL_830"@ != "SPECTRAL_540"@) by {
        assert("SPECTRAL_830"@[9int] != "SPECTRAL_540"@[9int]);
    }
    assert("SPECTRAL_830"@ != "SPECTRAL_550"@) by {
        assert("SPECTRAL_830"@[9int] != "SPECTRAL_550"@[9int]);
    }
    assert("SPECTRAL_830"@ != "SPECTRAL_560"@) by {
        assert("SPECTRAL_830"@[9int] != "SPECTRAL_560"@[9int]);
    }
    assert("SPECTRAL_830"@ != "SPECTRAL_570"@) by {
        assert("SPECTRAL_830"@[9int] != "SPECTRAL_570"@[9int]);
    }
    assert("SPECTRAL_830"@ != "SPECTRAL_580"@) by {
        assert("SPECTRAL_830"@[9int] != "SPECTRAL_580"@[9int]);
    }
    assert("SPECTRAL_830"@ != "SPECTRAL_590"@) by {
        assert("SPECTRAL_830"@[9int] != "SPECTRAL_590"@[9int]);
    }
    assert("SPECTRAL_830"@ != "SPECTRAL_600"@) by {
        assert("SPECTRAL_830"@[9int] != "SPECTRAL_600"@[9int]);
    }
    assert("SPECTRAL_830"@ != "SPECTRAL_610"@) by {
        assert("SPECTRAL_830"@[9int] != "SPECTRAL_610"@[9int]);
    }
    assert("SPECTRAL_830"@ != "SPECTRAL_620"@) by {
        assert("SPECTRAL_830"@[9int] != "SPECTRAL_620"@[9int]);
    }
    assert("SPECTRAL_830"@ != "SPECTRAL_630"@) by {
        assert("SPECTRAL_830"@[9int] != "SPECTRAL_630"@[9int]);
    }
    assert("SPECTRAL_830"@ != "SPECTRAL_640"@) by {
        assert("SPECTRAL_830"@[9int] != "SPECTRAL_640"@[9int]);
    }
    assert("SPECTRAL_830"@ != "SPECTRAL_650"@) by {
        assert("SPECTRAL_830"@[9int] != "SPECTRAL_650"@[9int]);
    }
    assert("SPECTRAL_830"@ != "SPECTRAL_660"@) by {
        assert("SPECTRAL_830"@[9int] != "SPECTRAL_660"@[9int]);
    }
    assert("SPECTRAL_830"@ != "SPECTRAL_670"@) by {
        assert("SPECTRAL_830"@[9int] != "SPECTRAL_670"@[9int]);
    }
    assert("SPECTRAL_830"@ != "SPECTRAL_680"@) by {
        assert("SPECTRAL_830"@[9int] != "SPECTRAL_680"@[9int]);
    }
    assert("SPECTRAL_830"@ != "SPECTRAL_690"@) by {
        assert("SPECTRAL_830"@[9int] != "SPECTRAL_690"@[9int]);
    }
    assert("SPECTRAL_830"@ != "SPECTRAL_700"@) by {
        assert("SPECTRAL_830"@[9int] != "SPECTRAL_700"@[9int]);
    }
    assert("SPECTRAL_830"@ != "SPECTRAL_710"@) by {
        assert("SPECTRAL_830"@[9int] != "SPECTRAL_710"@[9int]);
    }
    assert("SPECTRAL_830"@ != "SPECTRAL_720"@) by {
        assert("SPECTRAL_830"@[9int] != "SPECTRAL_720"@[9int]);
    }
    assert("SPECTRAL_830"@ != "SPECTRAL_730"@) by {
        assert("SPECTRAL_830"@[9int] != "SPECTRAL_730"@[9int]);
    }
    assert("SPECTRAL_830"@ != "SPECTRAL_740"@) by {
        assert("SPECTRAL_830"@[9int] != "SPECTRAL_740"@[9int]);
    }
    assert("SPECTRAL_830"@ != "SPECTRAL_750"@) by {
        assert("SPECTRAL_830"@[9int] != "SPECTRAL_750"@[9int]);
    }
    assert("SPECTRAL_830"@ != "SPECTRAL_760"@) by {
        assert("SPECTRAL_830"@[9int] != "SPECTRAL_760"@[9int]);
    }
    assert("SPECTRAL_830"@ != "SPECTRAL_770"@) by {
        assert("SPECTRAL_830"@[9int] != "SPECTRAL_770"@[9int]);
    }
    assert("SPECTRAL_830"@ != "SPECTRAL_780"@) by {
        assert("SPECTRAL_830"@[9int] != "SPECTRAL_780"@[9int]);
    }
    assert("SPECTRAL_830"@ != "SPECTRAL_790"@) by {
        assert("SPECTRAL_830"@[9int] != "SPECTRAL_790"@[9int]);
    }
    assert("SPECTRAL_830"@ != "SPECTRAL_800"@) by {
        assert("SPECTRAL_830"@[10int] != "SPECTRAL_800"@[10int]);
    }
    assert("SPECTRAL_830"@ != "SPECTRAL_810"@) by {
        assert("SPECTRAL_830"@[10int] != "SPECTRAL_810"@[10int]);
    }
    assert("SPECTRAL_830"@ != "SPECTRAL_820"@) by {
        assert("SPECTRAL_830"@[10int] != "SPECTRAL_820"@[10int]);
    }
}

/// Field registry round trip: parsing the canonical form of any field
/// yields that field back.
pub proof fn lemma_field_round_trip(f: Field)
    ensures
        field_of(field_name(f)) == Some(f),
{
    match f {
        Field::SAMPLE_ID => lemma_round_trip_chunk_0(),
        Field::SAMPLE_NAME => lemma_round_trip_chunk_0(),
        Field::BLANK => lemma_round_trip_chunk_0(),
        Field::RGB_R => lemma_round_trip_chunk_0(),
        Field::RGB_G => lemma_round_trip_chunk_0(),
        Field::RGB_B => lemma_round_trip_chunk_0(),
        Field::CMYK_C => lemma_round_trip_chunk_0(),
        Field::CMYK_M => lemma_round_trip_chunk_0(),
        Field::CMYK_Y => lemma_round_trip_chunk_0(),
        Field::CMYK_K => lemma_round_trip_chunk_0(),
        Field::FIVECLR_1 => lemma_round_trip_chunk_1(),
        Field::FIVECLR_2 => lemma_round_trip_chunk_1(),
        Field::FIVECLR_3 => lemma_round_trip_chunk_1(),
        Field::FIVECLR_4 => lemma_round_trip_chunk_1(),
        Field::FIVECLR_5 => lemma_round_trip_chunk_1(),
        Field::SIXCLR_1 => lemma_round_trip_chunk_1(),
        Field::SIXCLR_2 => lemma_round_trip_chunk_1(),
        Field::SIXCLR_3 => lemma_round_trip_chunk_1(),
        Field::SIXCLR_4 => lemma_round_trip_chunk_1(),
        Field::SIXCLR_5 => lemma_round_trip_chunk_1(),
        Field::SIXCLR_6 => lemma_round_trip_chunk_2(),
        Field::SEVENCLR_1 => lemma_round_trip_chunk_2(),
        Field::SEVENCLR_2 => lemma_round_trip_chunk_2(),
        Field::SEVENCLR_3 => lemma_round_trip_chunk_2(),
        Field::SEVENCLR_4 => lemma_round_trip_chunk_2(),
        Field::SEVENCLR_5 => lemma_round_trip_chunk_2(),
        Field::SEVENCLR_6 => lemma_round_trip_chunk_2(),
        Field::SEVENCLR_7 => lemma_round_trip_chunk_2(),
        Field::EIGHTCLR_1 => lemma_round_trip_chunk_2(),
        Field::EIGHTCLR_2 => lemma_round_trip_chunk_2(),
        Field::EIGHTCLR_3 => lemma_round_trip_chunk_3(),
        Field::EIGHTCLR_4 => lemma_round_trip_chunk_3(),
        Field::EIGHTCLR_5 => lemma_round_trip_chunk_3(),
        Field::EIGHTCLR_6 => lemma_round_trip_chunk_3(),
        Field::EIGHTCLR_7 => lemma_round_trip_chunk_3(),
        Field::EIGHTCLR_8 => lemma_round_trip_chunk_3(),
        Field::D_RED => lemma_round_trip_chunk_3(),
        Field::D_GREEN => lemma_round_trip_chunk_3(),
        Field::D_BLUE => lemma_round_trip_chunk_3(),
        Field::D_VIS => lemma_round_trip_chunk_3(),
        Field::LAB_L => lemma_round_trip_chunk_4(),
        Field::LAB_A => lemma_round_trip_chunk_4(),
        Field::LAB_B => lemma_round_trip_chunk_4(),
        Field::LAB_C => lemma_round_trip_chunk_4(),
        Field::LAB_H => lemma_round_trip_chunk_4(),
        Field::DE_1976 => lemma_round_trip_chunk_4(),
        Field::DE_1994 => lemma_round_trip_chunk_4(),
        Field::DE_1994T => lemma_round_trip_chunk_4(),
        Field::DE_CMC => lemma_round_trip_chunk_4(),
        Field::DE_CMC2 => lemma_round_trip_chunk_4(),
        Field::DE_2000 => lemma_round_trip_chunk_5(),
        Field::XYZ_X => lemma_round_trip_chunk_5(),
        Field::XYZ_Y => lemma_round_trip_chunk_5(),
        Field::XYZ_Z => lemma_round_trip_chunk_5(),
        Field::XYY_X => lemma_round_trip_chunk_5(),
        Field::XYY_Y => lemma_round_trip_chunk_5(),
        Field::XYY_CAPY => lemma_round_trip_chunk_5(),
        Field::SPECTRAL_340 => lemma_round_trip_chunk_5(),
        Field::SPECTRAL_350 => lemma_round_trip_chunk_5(),
        Field::SPECTRAL_360 => lemma_round_trip_chunk_5(),
        Field::SPECTRAL_370 => lemma_round_trip_chunk_6(),
        Field::SPECTRAL_380 => lemma_round_trip_chunk_6(),
        Field::SPECTRAL_390 => lemma_round_trip_chunk_6(),
        Field::SPECTRAL_400 => lemma_round_trip_chunk_6(),
        Field::SPECTRAL_410 => lemma_round_trip_chunk_6(),
        Field::SPECTRAL_420 => lemma_round_trip_chunk_6(),
        Field::SPECTRAL_430 => lemma_round_trip_chunk_6(),
        Field::SPECTRAL_440 => lemma_round_trip_chunk_6(),
        Field::SPECTRAL_450 => lemma_round_trip_chunk_6(),
        Field::SPECTRAL_460 => lemma_round_trip_chunk_6(),
        Field::SPECTRAL_470 => lemma_round_trip_chunk_7(),
        Field::SPECTRAL_480 => lemma_round_trip_chunk_7(),
        Field::SPECTRAL_490 => lemma_round_trip_chunk_7(),
        Field::SPECTRAL_500 => lemma_round_trip_chunk_7(),
        Field::SPECTRAL_510 => lemma_round_trip_chunk_7(),
        Field::SPECTRAL_520 => lemma_round_trip_chunk_7(),
        Field::SPECTRAL_530 => lemma_round_trip_chunk_7(),
        Field::SPECTRAL_540 => lemma_round_trip_chunk_7(),
        Field::SPECTRAL_550 => lemma_round_trip_chunk_7(),
        Field::SPECTRAL_560 => lemma_round_trip_chunk_7(),
        Field::SPECTRAL_570 => lemma_round_trip_chunk_8(),
        Field::SPECTRAL_580 => lemma_round_trip_chunk_8(),
        Field::SPECTRAL_590 => lemma_round_trip_chunk_8(),
        Field::SPECTRAL_600 => lemma_round_trip_chunk_8(),
        Field::SPECTRAL_610 => lemma_round_trip_chunk_8(),
        Field::SPECTRAL_620 => lemma_round_trip_chunk_8(),
        Field::SPECTRAL_630 => lemma_round_trip_chunk_8(),
        Field::SPECTRAL_640 => lemma_round_trip_chunk_8(),
        Field::SPECTRAL_650 => lemma_round_trip_chunk_8(),
        Field::SPECTRAL_660 => lemma_round_trip_chunk_8(),
        Field::SPECTRAL_670 => lemma_round_trip_chunk_9(),
        Field::SPECTRAL_680 => lemma_round_trip_chunk_9(),
        Field::SPECTRAL_690 => lemma_round_trip_chunk_9(),
        Field::SPECTRAL_700 => lemma_round_trip_chunk_9(),
        Field::SPECTRAL_710 => lemma_round_trip_chunk_9(),
        Field::SPECTRAL_720 => lemma_round_trip_chunk_9(),
        Field::SPECTRAL_730 => lemma_round_trip_chunk_9(),
        Field::SPECTRAL_740 => lemma_round_trip_chunk_9(),
        Field::SPECTRAL_750 => lemma_round_trip_chunk_9(),
        Field::SPECTRAL_760 => lemma_round_trip_chunk_9(),
        Field::SPECTRAL_770 => lemma_round_trip_chunk_10(),
        Field::SPECTRAL_780 => lemma_round_trip_chunk_10(),
        Field::SPECTRAL_790 => lemma_round_trip_chunk_10(),
        Field::SPECTRAL_800 => lemma_round_trip_chunk_10(),
        Field::SPECTRAL_810 => lemma_round_trip_chunk_10(),
        Field::SPECTRAL_820 => lemma_round_trip_chunk_10(),
        Field::SPECTRAL_830 => lemma_round_trip_chunk_10(),
    }
}

/// The methods of perceptual color difference that a document can carry.
#[derive(Debug, Clone, Copy, PartialEq, Eq, Structural)]
pub enum DeMethod {
    De1976,
    De1994,
    De1994T,
    DeCmc1,
    DeCmc2,
    De2000,
}

/// The field that records values of a given color-difference method.
pub open spec fn de_method_field(m: DeMethod) -> Field {
    match m {
        DeMethod::De1976 => Field::DE_1976,
        DeMethod::De1994 => Field::DE_1994,
        DeMethod::De1994T => Field::DE_1994T,
        DeMethod::DeCmc1 => Field::DE_CMC,
        DeMethod::DeCmc2 => Field::DE_CMC2,
        DeMethod::De2000 => Field::DE_2000,
    }
}

/// The color-difference method a field stands for, if any.
pub open spec fn field_de_method(f: Field) -> Option<DeMethod> {
    match f {
        Field::DE_1976 => Some(DeMethod::De1976),
        Field::DE_1994 => Some(DeMethod::De1994),
        Field::DE_1994T => Some(DeMethod::De1994T),
        Field::DE_CMC => Some(DeMethod::DeCmc1),
        Field::DE_CMC2 => Some(DeMethod::DeCmc2),
        Field::DE_2000 => Some(DeMethod::De2000),
        _ => None,
    }
}

impl Field {
    pub fn from_de_method(method: DeMethod) -> (r: Field)
        ensures
            r == de_method_field(method),
    {
        match method {
            DeMethod::De1976 => Field::DE_1976,
            DeMethod::De1994 => Field::DE_1994,
            DeMethod::De1994T => Field::DE_1994T,
            DeMethod::DeCmc1 => Field::DE_CMC,
            DeMethod::DeCmc2 => Field::DE_CMC2,
            DeMethod::De2000 => Field::DE_2000,
        }
    }

    pub fn as_de_method(&self) -> (r: Option<DeMethod>)
        ensures
            r == field_de_method(*self),
    {
        match self {
            Field::DE_1976 => Some(DeMethod::De1976),
            Field::DE_1994 => Some(DeMethod::De1994),
            Field::DE_1994T => Some(DeMethod::De1994T),
            Field::DE_CMC => Some(DeMethod::DeCmc1),
            Field::DE_CMC2 => Some(DeMethod::DeCmc2),
            Field::DE_2000 => Some(DeMethod::De2000),
            _ => None,
        }
    }
}

impl DeMethod {
    /// The method's display name.
    pub fn display(&self) -> (r: String)
        ensures
            match self {
                DeMethod::De1976 => r@ == "DE1976"@,
                DeMethod::De1994 => r@ == "DE1994G"@,
                DeMethod::De1994T => r@ == "DE1994T"@,
                DeMethod::DeCmc1 => r@ == "DECMC1"@,
                DeMethod::DeCmc2 => r@ == "DECMC2"@,
                DeMethod::De2000 => r@ == "DE2000"@,
            },
    {
        match self {
            DeMethod::De1976 => str_to_string("DE1976"),
            DeMethod::De1994 => str_to_string("DE1994G"),
            DeMethod::De1994T => str_to_string("DE1994T"),
            DeMethod::DeCmc1 => str_to_string("DECMC1"),
            DeMethod::DeCmc2 => str_to_string("DECMC2"),
            DeMethod::De2000 => str_to_string("DE2000"),
        }
    }
}

/// The implicit seven-column layout of ColorBurst linearization files.
pub open spec fn colorburst_format() -> Seq<Field> {
    seq![
        Field::D_RED,
        Field::D_GREEN,
        Field::D_BLUE,
        Field::D_VIS,
        Field::LAB_L,
        Field::LAB_A,
        Field::LAB_B,
    ]
}

/// The implicit layout used when a ColorBurst file carries no
/// format-declaration block.
#[allow(non_snake_case)]
pub fn ColorBurstFormat() -> (r: Vec<Field>)
    ensures
        r@ == colorburst_format(),
{
    let r: Vec<Field> = vec![
        Field::D_RED,
        Field::D_GREEN,
        Field::D_BLUE,
        Field::D_VIS,
        Field::LAB_L,
        Field::LAB_A,
        Field::LAB_B,
    ];
    assert(r@ =~= colorburst_format());
    r
}

#[verifier::spinoff_prover]
#[verifier::rlimit(100)]
proof fn lemma_token_chunk_0()
    ensures
        crate::round_trip::cell_ok(field_name(Field::SAMPLE_ID)),
        field_name(Field::SAMPLE_ID) != "BEGIN_DATA_FORMAT"@,
        field_name(Field::SAMPLE_ID) != "END_DATA_FORMAT"@,
        field_name(Field::SAMPLE_ID) != "BEGIN_DATA"@,
        field_name(Field::SAMPLE_ID) != "END_DATA"@,
        crate::round_trip::cell_ok(field_name(Field::SAMPLE_NAME)),
        field_name(Field::SAMPLE_NAME) != "BEGIN_DATA_FORMAT"@,
        field_name(Field::SAMPLE_NAME) != "END_DATA_FORMAT"@,
        field_name(Field::SAMPLE_NAME) != "BEGIN_DATA"@,
        field_name(Field::SAMPLE_NAME) != "END_DATA"@,
        crate::round_trip::cell_ok(field_name(Field::BLANK)),
        field_name(Field::BLANK) != "BEGIN_DATA_FORMAT"@,
        field_name(Field::BLANK) != "END_DATA_FORMAT"@,
        field_name(Field::BLANK) != "BEGIN_DATA"@,
        field_name(Field::BLANK) != "END_DATA"@,
        crate::round_trip::cell_ok(field_name(Field::RGB_R)),
        field_name(Field::RGB_R) != "BEGIN_DATA_FORMAT"@,
        field_name(Field::RGB_R) != "END_DATA_FORMAT"@,
        field_name(Field::RGB_R) != "BEGIN_DATA"@,
        field_name(Field::RGB_R) != "END_DATA"@,
        crate::round_trip::cell_ok(field_name(Field::RGB_G)),
        field_name(Field::RGB_G) != "BEGIN_DATA_FORMAT"@,
        field_name(Field::RGB_G) != "END_DATA_FORMAT"@,
        field_name(Field::RGB_G) != "BEGIN_DATA"@,
        field_name(Field::RGB_G) != "END_DATA"@,
        crate::round_trip::cell_ok(field_name(Field::RGB_B)),
        field_name(Field::RGB_B) != "BEGIN_DATA_FORMAT"@,
        field_name(Field::RGB_B) != "END_DATA_FORMAT"@,
        field_name(Field::RGB_B) != "BEGIN_DATA"@,
        field_name(Field::RGB_B) != "END_DATA"@,
        crate::round_trip::cell_ok(field_name(Field::CMYK_C)),
        field_name(Field::CMYK_C) != "BEGIN_DATA_FORMAT"@,
        field_name(Field::CMYK_C) != "END_DATA_FORMAT"@,
        field_name(Field::CMYK_C) != "BEGIN_DATA"@,
        field_name(Field::CMYK_C) != "END_DATA"@,
        crate::round_trip::cell_ok(field_name(Field::CMYK_M)),
        field_name(Field::CMYK_M) != "BEGIN_DATA_FORMAT"@,
        field_name(Field::CMYK_M) != "END_DATA_FORMAT"@,
        field_name(Field::CMYK_M) != "BEGIN_DATA"@,
        field_name(Field::CMYK_M) != "END_DATA"@,
        crate::round_trip::cell_ok(field_name(Field::CMYK_Y)),
        field_name(Field::CMYK_Y) != "BEGIN_DATA_FORMAT"@,
        field_name(Field::CMYK_Y) != "END_DATA_FORMAT"@,
        field_name(Field::CMYK_Y) != "BEGIN_DATA"@,
        field_name(Field::CMYK_Y) != "END_DATA"@,
        crate::round_trip::cell_ok(field_name(Field::CMYK_K)),
        field_name(Field::CMYK_K) != "BEGIN_DATA_FORMAT"@,
        field_name(Field::CMYK_K) != "END_DATA_FORMAT"@,
        field_name(Field::CMYK_K) != "BEGIN_DATA"@,
        field_name(Field::CMYK_K) != "END_DATA"@,
{
    reveal_strlit("BEGIN_DATA_FORMAT");
    reveal_strlit("END_DATA_FORMAT");
    reveal_strlit("BEGIN_DATA");
    reveal_strlit("END_DATA");
    reveal_strlit("SAMPLE_ID");
    reveal_strlit("SAMPLE_NAME");
    reveal_strlit("BLANK");
    reveal_strlit("RGB_R");
    reveal_strlit("RGB_G");
    reveal_strlit("RGB_B");
    reveal_strlit("CMYK_C");
    reveal_strlit("CMYK_M");
    reveal_strlit("CMYK_Y");
    reveal_strlit("CMYK_K");
    assert("SAMPLE_ID"@.len() != "BEGIN_DATA_FORMAT"@.len());
    assert("SAMPLE_ID"@.len() != "END_DATA_FORMAT"@.len());
    assert("SAMPLE_ID"@.len() != "BEGIN_DATA"@.len());
    assert("SAMPLE_ID"@.len() != "END_DATA"@.len());
    assert("SAMPLE_NAME"@.len() != "BEGIN_DATA_FORMAT"@.len());
    assert("SAMPLE_NAME"@.len() != "END_DATA_FORMAT"@.len());
    assert("SAMPLE_NAME"@.len() != "BEGIN_DATA"@.len());
    assert("SAMPLE_NAME"@.len() != "END_DATA"@.len());
    assert("BLANK"@.len() != "BEGIN_DATA_FORMAT"@.len());
    assert("BLANK"@.len() != "END_DATA_FORMAT"@.len());
    assert("BLANK"@.len() != "BEGIN_DATA"@.len());
    assert("BLANK"@.len() != "END_DATA"@.len());
    assert("RGB_R"@.len() != "BEGIN_DATA_FORMAT"@.len());
    assert("RGB_R"@.len() != "END_DATA_FORMAT"@.len());
    assert("RGB_R"@.len() != "BEGIN_DATA"@.len());
    assert("RGB_R"@.len() != "END_DATA"@.len());
    assert("RGB_G"@.len() != "BEGIN_DATA_FORMAT"@.len());
    assert("RGB_G"@.len() != "END_DATA_FORMAT"@.len());
    assert("RGB_G"@.len() != "BEGIN_DATA"@.len());
    assert("RGB_G"@.len() != "END_DATA"@.len());
    assert("RGB_B"@.len() != "BEGIN_DATA_FORMAT"@.len());
    assert("RGB_B"@.len() != "END_DATA_FORMAT"@.len());
    assert("RGB_B"@.len() != "BEGIN_DATA"@.len());
    assert("RGB_B"@.len() != "END_DATA"@.len());
    assert("CMYK_C"@.len() != "BEGIN_DATA_FORMAT"@.len());
    assert("CMYK_C"@.len() != "END_DATA_FORMAT"@.len());
    assert("CMYK_C"@.len() != "BEGIN_DATA"@.len());
    assert("CMYK_C"@.len() != "END_DATA"@.len());
    assert("CMYK_M"@.len() != "BEGIN_DATA_FORMAT"@.len());
    assert("CMYK_M"@.len() != "END_DATA_FORMAT"@.len());
    assert("CMYK_M"@.len() != "BEGIN_DATA"@.len());
    assert("CMYK_M"@.len() != "END_DATA"@.len());
    assert("CMYK_Y"@.len() != "BEGIN_DATA_FORMAT"@.len());
    assert("CMYK_Y"@.len() != "END_DATA_FORMAT"@.len());
    assert("CMYK_Y"@.len() != "BEGIN_DATA"@.len());
    assert("CMYK_Y"@.len() != "END_DATA"@.len());
    assert("CMYK_K"@.len() != "BEGIN_DATA_FORMAT"@.len());
    assert("CMYK_K"@.len() != "END_DATA_FORMAT"@.len());
    assert("CMYK_K"@.len() != "BEGIN_DATA"@.len());
    assert("CMYK_K"@.len() != "END_DATA"@.len());
}

#[verifier::spinoff_prover]
#[verifier::rlimit(100)]
proof fn lemma_token_chunk_1()
    ensures
        crate::round_trip::cell_ok(field_name(Field::FIVECLR_1)),
        field_name(Field::FIVECLR_1) != "BEGIN_DATA_FORMAT"@,
        field_name(Field::FIVECLR_1) != "END_DATA_FORMAT"@,
        field_name(Field::FIVECLR_1) != "BEGIN_DATA"@,
        field_name(Field::FIVECLR_1) != "END_DATA"@,
        crate::round_trip::cell_ok(field_name(Field::FIVECLR_2)),
        field_name(Field::FIVECLR_2) != "BEGIN_DATA_FORMAT"@,
        field_name(Field::FIVECLR_2) != "END_DATA_FORMAT"@,
        field_name(Field::FIVECLR_2) != "BEGIN_DATA"@,
        field_name(Field::FIVECLR_2) != "END_DATA"@,
        crate::round_trip::cell_ok(field_name(Field::FIVECLR_3)),
        field_name(Field::FIVECLR_3) != "BEGIN_DATA_FORMAT"@,
        field_name(Field::FIVECLR_3) != "END_DATA_FORMAT"@,
        field_name(Field::FIVECLR_3) != "BEGIN_DATA"@,
        field_name(Field::FIVECLR_3) != "END_DATA"@,
        crate::round_trip::cell_ok(field_name(Field::FIVECLR_4)),
        field_name(Field::FIVECLR_4) != "BEGIN_DATA_FORMAT"@,
        field_name(Field::FIVECLR_4) != "END_DATA_FORMAT"@,
        field_name(Field::FIVECLR_4) != "BEGIN_DATA"@,
        field_name(Field::FIVECLR_4) != "END_DATA"@,
        crate::round_trip::cell_ok(field_name(Field::FIVECLR_5)),
        field_name(Field::FIVECLR_5) != "BEGIN_DATA_FORMAT"@,
        field_name(Field::FIVECLR_5) != "END_DATA_FORMAT"@,
        field_name(Field::FIVECLR_5) != "BEGIN_DATA"@,
        field_name(Field::FIVECLR_5) != "END_DATA"@,
        crate::round_trip::cell_ok(field_name(Field::SIXCLR_1)),
        field_name(Field::SIXCLR_1) != "BEGIN_DATA_FORMAT"@,
        field_name(Field::SIXCLR_1) != "END_DATA_FORMAT"@,
        field_name(Field::SIXCLR_1) != "BEGIN_DATA"@,
        field_name(Field::SIXCLR_1) != "END_DATA"@,
        crate::round_trip::cell_ok(field_name(Field::SIXCLR_2)),
        field_name(Field::SIXCLR_2) != "BEGIN_DATA_FORMAT"@,
        field_name(Field::SIXCLR_2) != "END_DATA_FORMAT"@,
        field_name(Field::SIXCLR_2) != "BEGIN_DATA"@,
        field_name(Field::SIXCLR_2) != "END_DATA"@,
        crate::round_trip::cell_ok(field_name(Field::SIXCLR_3)),
        field_name(Field::SIXCLR_3) != "BEGIN_DATA_FORMAT"@,
        field_name(Field::SIXCLR_3) != "END_DATA_FORMAT"@,
        field_name(Field::SIXCLR_3) != "BEGIN_DATA"@,
        field_name(Field::SIXCLR_3) != "END_DATA"@,
        crate::round_trip::cell_ok(field_name(Field::SIXCLR_4)),
        field_name(Field::SIXCLR_4) != "BEGIN_DATA_FORMAT"@,
        field_name(Field::SIXCLR_4) != "END_DATA_FORMAT"@,
        field_name(Field::SIXCLR_4) != "BEGIN_DATA"@,
        field_name(Field::SIXCLR_4) != "END_DATA"@,
        crate::round_trip::cell_ok(field_name(Field::SIXCLR_5)),
        field_name(Field::SIXCLR_5) != "BEGIN_DATA_FORMAT"@,
        field_name(Field::SIXCLR_5) != "END_DATA_FORMAT"@,
        field_name(Field::SIXCLR_5) != "BEGIN_DATA"@,
        field_name(Field::SIXCLR_5) != "END_DATA"@,
{
    reveal_strlit("BEGIN_DATA_FORMAT");
    reveal_strlit("END_DATA_FORMAT");
    reveal_strlit("BEGIN_DATA");
    reveal_strlit("END_DATA");
    reveal_strlit("5CLR_1");
    reveal_strlit("5CLR_2");
    reveal_strlit("5CLR_3");
    reveal_strlit("5CLR_4");
    reveal_strlit("5CLR_5");
    reveal_strlit("6CLR_1");
    reveal_strlit("6CLR_2");
    reveal_strlit("6CLR_3");
    reveal_strlit("6CLR_4");
    reveal_strlit("6CLR_5");
    assert("5CLR_1"@.len() != "BEGIN_DATA_FORMAT"@.len());
    assert("5CLR_1"@.len() != "END_DATA_FORMAT"@.len());
    assert("5CLR_1"@.len() != "BEGIN_DATA"@.len());
    assert("5CLR_1"@.len() != "END_DATA"@.len());
    assert("5CLR_2"@.len() != "BEGIN_DATA_FORMAT"@.len());
    assert("5CLR_2"@.len() != "END_DATA_FORMAT"@.len());
    assert("5CLR_2"@.len() != "BEGIN_DATA"@.len());
    assert("5CLR_2"@.len() != "END_DATA"@.len());
    assert("5CLR_3"@.len() != "BEGIN_DATA_FORMAT"@.len());
    assert("5CLR_3"@.len() != "END_DATA_FORMAT"@.len());
    assert("5CLR_3"@.len() != "BEGIN_DATA"@.len());
    assert("5CLR_3"@.len() != "END_DATA"@.len());
    assert("5CLR_4"@.len() != "BEGIN_DATA_FORMAT"@.len());
    assert("5CLR_4"@.len() != "END_DATA_FORMAT"@.len());
    assert("5CLR_4"@.len() != "BEGIN_DATA"@.len());
    assert("5CLR_4"@.len() != "END_DATA"@.len());
    assert("5CLR_5"@.len() != "BEGIN_DATA_FORMAT"@.len());
    assert("5CLR_5"@.len() != "END_DATA_FORMAT"@.len());
    assert("5CLR_5"@.len() != "BEGIN_DATA"@.len());
    assert("5CLR_5"@.len() != "END_DATA"@.len());
    assert("6CLR_1"@.len() != "BEGIN_DATA_FORMAT"@.len());
    assert("6CLR_1"@.len() != "END_DATA_FORMAT"@.len());
    assert("6CLR_1"@.len() != "BEGIN_DATA"@.len());
    assert("6CLR_1"@.len() != "END_DATA"@.len());
    assert("6CLR_2"@.len() != "BEGIN_DATA_FORMAT"@.len());
    assert("6CLR_2"@.len() != "END_DATA_FORMAT"@.len());
    assert("6CLR_2"@.len() != "BEGIN_DATA"@.len());
    assert("6CLR_2"@.len() != "END_DATA"@.len());
    assert("6CLR_3"@.len() != "BEGIN_DATA_FORMAT"@.len());
    assert("6CLR_3"@.len() != "END_DATA_FORMAT"@.len());
    assert("6CLR_3"@.len() != "BEGIN_DATA"@.len());
    assert("6CLR_3"@.len() != "END_DATA"@.len());
    assert("6CLR_4"@.len() != "BEGIN_DATA_FORMAT"@.len());
    assert("6CLR_4"@.len() != "END_DATA_FORMAT"@.len());
    assert("6CLR_4"@.len() != "BEGIN_DATA"@.len());
    assert("6CLR_4"@.len() != "END_DATA"@.len());
    assert("6CLR_5"@.len() != "BEGIN_DATA_FORMAT"@.len());
    assert("6CLR_5"@.len() != "END_DATA_FORMAT"@.len());
    assert("6CLR_5"@.len() != "BEGIN_DATA"@.len());
    assert("6CLR_5"@.len() != "END_DATA"@.len());
}

#[verifier::spinoff_prover]
#[verifier::rlimit(100)]
proof fn lemma_token_chunk_2()
    ensures
        crate::round_trip::cell_ok(field_name(Field::SIXCLR_6)),
        field_name(Field::SIXCLR_6) != "BEGIN_DATA_FORMAT"@,
        field_name(Field::SIXCLR_6) != "END_DATA_FORMAT"@,
        field_name(Field::SIXCLR_6) != "BEGIN_DATA"@,
        field_name(Field::SIXCLR_6) != "END_DATA"@,
        crate::round_trip::cell_ok(field_name(Field::SEVENCLR_1)),
        field_name(Field::SEVENCLR_1) != "BEGIN_DATA_FORMAT"@,
        field_name(Field::SEVENCLR_1) != "END_DATA_FORMAT"@,
        field_name(Field::SEVENCLR_1) != "BEGIN_DATA"@,
        field_name(Field::SEVENCLR_1) != "END_DATA"@,
        crate::round_trip::cell_ok(field_name(Field::SEVENCLR_2)),
        field_name(Field::SEVENCLR_2) != "BEGIN_DATA_FORMAT"@,
        field_name(Field::SEVENCLR_2) != "END_DATA_FORMAT"@,
        field_name(Field::SEVENCLR_2) != "BEGIN_DATA"@,
        field_name(Field::SEVENCLR_2) != "END_DATA"@,
        crate::round_trip::cell_ok(field_name(Field::SEVENCLR_3)),
        field_name(Field::SEVENCLR_3) != "BEGIN_DATA_FORMAT"@,
        field_name(Field::SEVENCLR_3) != "END_DATA_FORMAT"@,
        field_name(Field::SEVENCLR_3) != "BEGIN_DATA"@,
        field_name(Field::SEVENCLR_3) != "END_DATA"@,
        crate::round_trip::cell_ok(field_name(Field::SEVENCLR_4)),
        field_name(Field::SEVENCLR_4) != "BEGIN_DATA_FORMAT"@,
        field_name(Field::SEVENCLR_4) != "END_DATA_FORMAT"@,
        field_name(Field::SEVENCLR_4) != "BEGIN_DATA"@,
        field_name(Field::SEVENCLR_4) != "END_DATA"@,
        crate::round_trip::cell_ok(field_name(Field::SEVENCLR_5)),
        field_name(Field::SEVENCLR_5) != "BEGIN_DATA_FORMAT"@,
        field_name(Field::SEVENCLR_5) != "END_DATA_FORMAT"@,
        field_name(Field::SEVENCLR_5) != "BEGIN_DATA"@,
        field_name(Field::SEVENCLR_5) != "END_DATA"@,
        crate::round_trip::cell_ok(field_name(Field::SEVENCLR_6)),
        field_name(Field::SEVENCLR_6) != "BEGIN_DATA_FORMAT"@,
        field_name(Field::SEVENCLR_6) != "END_DATA_FORMAT"@,
        field_name(Field::SEVENCLR_6) != "BEGIN_DATA"@,
        field_name(Field::SEVENCLR_6) != "END_DATA"@,
        crate::round_trip::cell_ok(field_name(Field::SEVENCLR_7)),
        field_name(Field::SEVENCLR_7) != "BEGIN_DATA_FORMAT"@,
        field_name(Field::SEVENCLR_7) != "END_DATA_FORMAT"@,
        field_name(Field::SEVENCLR_7) != "BEGIN_DATA"@,
        field_name(Field::SEVENCLR_7) != "END_DATA"@,
        crate::round_trip::cell_ok(field_name(Field::EIGHTCLR_1)),
        field_name(Field::EIGHTCLR_1) != "BEGIN_DATA_FORMAT"@,
        field_name(Field::EIGHTCLR_1) != "END_DATA_FORMAT"@,
        field_name(Field::EIGHTCLR_1) != "BEGIN_DATA"@,
        field_name(Field::EIGHTCLR_1) != "END_DATA"@,
        crate::round_trip::cell_ok(field_name(Field::EIGHTCLR_2)),
        field_name(Field::EIGHTCLR_2) != "BEGIN_DATA_FORMAT"@,
        field_name(Field::EIGHTCLR_2) != "END_DATA_FORMAT"@,
        field_name(Field::EIGHTCLR_2) != "BEGIN_DATA"@,
        field_name(Field::EIGHTCLR_2) != "END_DATA"@,
{
    reveal_strlit("BEGIN_DATA_FORMAT");
    reveal_strlit("END_DATA_FORMAT");
    reveal_strlit("BEGIN_DATA");
    reveal_strlit("END_DATA");
    reveal_strlit("6CLR_6");
    reveal_strlit("7CLR_1");
    reveal_strlit("7CLR_2");
    reveal_strlit("7CLR_3");
    reveal_strlit("7CLR_4");
    reveal_strlit("7CLR_5");
    reveal_strlit("7CLR_6");
    reveal_strlit("7CLR_7");
    reveal_strlit("8CLR_1");
    reveal_strlit("8CLR_2");
    assert("6CLR_6"@.len() != "BEGIN_DATA_FORMAT"@.len());
    assert("6CLR_6"@.len() != "END_DATA_FORMAT"@.len());
    assert("6CLR_6"@.len() != "BEGIN_DATA"@.len());
    assert("6CLR_6"@.len() != "END_DATA"@.len());
    assert("7CLR_1"@.len() != "BEGIN_DATA_FORMAT"@.len());
    assert("7CLR_1"@.len() != "END_DATA_FORMAT"@.len());
    assert("7CLR_1"@.len() != "BEGIN_DATA"@.len());
    assert("7CLR_1"@.len() != "END_DATA"@.len());
    assert("7CLR_2"@.len() != "BEGIN_DATA_FORMAT"@.len());
    assert("7CLR_2"@.len() != "END_DATA_FORMAT"@.len());
    assert("7CLR_2"@.len() != "BEGIN_DATA"@.len());
    assert("7CLR_2"@.len() != "END_DATA"@.len());
    assert("7CLR_3"@.len() != "BEGIN_DATA_FORMAT"@.len());
    assert("7CLR_3"@.len() != "END_DATA_FORMAT"@.len());
    assert("7CLR_3"@.len() != "BEGIN_DATA"@.len());
    assert("7CLR_3"@.len() != "END_DATA"@.len());
    assert("7CLR_4"@.len() != "BEGIN_DATA_FORMAT"@.len());
    assert("7CLR_4"@.len() != "END_DATA_FORMAT"@.len());
    assert("7CLR_4"@.len() != "BEGIN_DATA"@.len());
    assert("7CLR_4"@.len() != "END_DATA"@.len());
    assert("7CLR_5"@.len() != "BEGIN_DATA_FORMAT"@.len());
    assert("7CLR_5"@.len() != "END_DATA_FORMAT"@.len());
    assert("7CLR_5"@.len() != "BEGIN_DATA"@.len());
    assert("7CLR_5"@.len() != "END_DATA"@.len());
    assert("7CLR_6"@.len() != "BEGIN_DATA_FORMAT"@.len());
    assert("7CLR_6"@.len() != "END_DATA_FORMAT"@.len());
    assert("7CLR_6"@.len() != "BEGIN_DATA"@.len());
    assert("7CLR_6"@.len() != "END_DATA"@.len());
    assert("7CLR_7"@.len() != "BEGIN_DATA_FORMAT"@.len());
    assert("7CLR_7"@.len() != "END_DATA_FORMAT"@.len());
    assert("7CLR_7"@.len() != "BEGIN_DATA"@.len());
    assert("7CLR_7"@.len() != "END_DATA"@.len());
    assert("8CLR_1"@.len() != "BEGIN_DATA_FORMAT"@.len());
    assert("8CLR_1"@.len() != "END_DATA_FORMAT"@.len());
    assert("8CLR_1"@.len() != "BEGIN_DATA"@.len());
    assert("8CLR_1"@.len() != "END_DATA"@.len());
    assert("8CLR_2"@.len() != "BEGIN_DATA_FORMAT"@.len());
    assert("8CLR_2"@.len() != "END_DATA_FORMAT"@.len());
    assert("8CLR_2"@.len() != "BEGIN_DATA"@.len());
    assert("8CLR_2"@.len() != "END_DATA"@.len());
}

#[verifier::spinoff_prover]
#[verifier::rlimit(100)]
proof fn lemma_token_chunk_3()
    ensures
        crate::round_trip::cell_ok(field_name(Field::EIGHTCLR_3)),
        field_name(Field::EIGHTCLR_3) != "BEGIN_DATA_FORMAT"@,
        field_name(Field::EIGHTCLR_3) != "END_DATA_FORMAT"@,
        field_name(Field::EIGHTCLR_3) != "BEGIN_DATA"@,
        field_name(Field::EIGHTCLR_3) != "END_DATA"@,
        crate::round_trip::cell_ok(field_name(Field::EIGHTCLR_4)),
        field_name(Field::EIGHTCLR_4) != "BEGIN_DATA_FORMAT"@,
        field_name(Field::EIGHTCLR_4) != "END_DATA_FORMAT"@,
        field_name(Field::EIGHTCLR_4) != "BEGIN_DATA"@,
        field_name(Field::EIGHTCLR_4) != "END_DATA"@,
        crate::round_trip::cell_ok(field_name(Field::EIGHTCLR_5)),
        field_name(Field::EIGHTCLR_5) != "BEGIN_DATA_FORMAT"@,
        field_name(Field::EIGHTCLR_5) != "END_DATA_FORMAT"@,
        field_name(Field::EIGHTCLR_5) != "BEGIN_DATA"@,
        field_name(Field::EIGHTCLR_5) != "END_DATA"@,
        crate::round_trip::cell_ok(field_name(Field::EIGHTCLR_6)),
        field_name(Field::EIGHTCLR_6) != "BEGIN_DATA_FORMAT"@,
        field_name(Field::EIGHTCLR_6) != "END_DATA_FORMAT"@,
        field_name(Field::EIGHTCLR_6) != "BEGIN_DATA"@,
        field_name(Field::EIGHTCLR_6) != "END_DATA"@,
        crate::round_trip::cell_ok(field_name(Field::EIGHTCLR_7)),
        field_name(Field::EIGHTCLR_7) != "BEGIN_DATA_FORMAT"@,
        field_name(Field::EIGHTCLR_7) != "END_DATA_FORMAT"@,
        field_name(Field::EIGHTCLR_7) != "BEGIN_DATA"@,
        field_name(Field::EIGHTCLR_7) != "END_DATA"@,
        crate::round_trip::cell_ok(field_name(Field::EIGHTCLR_8)),
        field_name(Field::EIGHTCLR_8) != "BEGIN_DATA_FORMAT"@,
        field_name(Field::EIGHTCLR_8) != "END_DATA_FORMAT"@,
        field_name(Field::EIGHTCLR_8) != "BEGIN_DATA"@,
        field_name(Field::EIGHTCLR_8) != "END_DATA"@,
        crate::round_trip::cell_ok(field_name(Field::D_RED)),
        field_name(Field::D_RED) != "BEGIN_DATA_FORMAT"@,
        field_name(Field::D_RED) != "END_DATA_FORMAT"@,
        field_name(Field::D_RED) != "BEGIN_DATA"@,
        field_name(Field::D_RED) != "END_DATA"@,
        crate::round_trip::cell_ok(field_name(Field::D_GREEN)),
        field_name(Field::D_GREEN) != "BEGIN_DATA_FORMAT"@,
        field_name(Field::D_GREEN) != "END_DATA_FORMAT"@,
        field_name(Field::D_GREEN) != "BEGIN_DATA"@,
        field_name(Field::D_GREEN) != "END_DATA"@,
        crate::round_trip::cell_ok(field_name(Field::D_BLUE)),
        field_name(Field::D_BLUE) != "BEGIN_DATA_FORMAT"@,
        field_name(Field::D_BLUE) != "END_DATA_FORMAT"@,
        field_name(Field::D_BLUE) != "BEGIN_DATA"@,
        field_name(Field::D_BLUE) != "END_DATA"@,
        crate::round_trip::cell_ok(field_name(Field::D_VIS)),
        field_name(Field::D_VIS) != "BEGIN_DATA_FORMAT"@,
        field_name(Field::D_VIS) != "END_DATA_FORMAT"@,
        field_name(Field::D_VIS) != "BEGIN_DATA"@,
        field_name(Field::D_VIS) != "END_DATA"@,
{
    reveal_strlit("BEGIN_DATA_FORMAT");
    reveal_strlit("END_DATA_FORMAT");
    reveal_strlit("BEGIN_DATA");
    reveal_strlit("END_DATA");
    reveal_strlit("8CLR_3");
    reveal_strlit("8CLR_4");
    reveal_strlit("8CLR_5");
    reveal_strlit("8CLR_6");
    reveal_strlit("8CLR_7");
    reveal_strlit("8CLR_8");
    reveal_strlit("D_RED");
    reveal_strlit("D_GREEN");
    reveal_strlit("D_BLUE");
    reveal_strlit("D_VIS");
    assert("8CLR_3"@.len() != "BEGIN_DATA_FORMAT"@.len());
    assert("8CLR_3"@.len() != "END_DATA_FORMAT"@.len());
    assert("8CLR_3"@.len() != "BEGIN_DATA"@.len());
    assert("8CLR_3"@.len() != "END_DATA"@.len());
    assert("8CLR_4"@.len() != "BEGIN_DATA_FORMAT"@.len());
    assert("8CLR_4"@.len() != "END_DATA_FORMAT"@.len());
    assert("8CLR_4"@.len() != "BEGIN_DATA"@.len());
    assert("8CLR_4"@.len() != "END_DATA"@.len());
    assert("8CLR_5"@.len() != "BEGIN_DATA_FORMAT"@.len());
    assert("8CLR_5"@.len() != "END_DATA_FORMAT"@.len());
    assert("8CLR_5"@.len() != "BEGIN_DATA"@.len());
    assert("8CLR_5"@.len() != "END_DATA"@.len());
    assert("8CLR_6"@.len() != "BEGIN_DATA_FORMAT"@.len());
    assert("8CLR_6"@.len() != "END_DATA_FORMAT"@.len());
    assert("8CLR_6"@.len() != "BEGIN_DATA"@.len());
    assert("8CLR_6"@.len() != "END_DATA"@.len());
    assert("8CLR_7"@.len() != "BEGIN_DATA_FORMAT"@.len());
    assert("8CLR_7"@.len() != "END_DATA_FORMAT"@.len());
    assert("8CLR_7"@.len() != "BEGIN_DATA"@.len());
    assert("8CLR_7"@.len() != "END_DATA"@.len());
    assert("8CLR_8"@.len() != "BEGIN_DATA_FORMAT"@.len());
    assert("8CLR_8"@.len() != "END_DATA_FORMAT"@.len());
    assert("8CLR_8"@.len() != "BEGIN_DATA"@.len());
    assert("8CLR_8"@.len() != "END_DATA"@.len());
    assert("D_RED"@.len() != "BEGIN_DATA_FORMAT"@.len());
    assert("D_RED"@.len() != "END_DATA_FORMAT"@.len());
    assert("D_RED"@.len() != "BEGIN_DATA"@.len());
    assert("D_RED"@.len() != "END_DATA"@.len());
    assert("D_GREEN"@.len() != "BEGIN_DATA_FORMAT"@.len());
    assert("D_GREEN"@.len() != "END_DATA_FORMAT"@.len());
    assert("D_GREEN"@.len() != "BEGIN_DATA"@.len());
    assert("D_GREEN"@.len() != "END_DATA"@.len());
    assert("D_BLUE"@.len() != "BEGIN_DATA_FORMAT"@.len());
    assert("D_BLUE"@.len() != "END_DATA_FORMAT"@.len());
    assert("D_BLUE"@.len() != "BEGIN_DATA"@.len());
    assert("D_BLUE"@.len() != "END_DATA"@.len());
    assert("D_VIS"@.len() != "BEGIN_DATA_FORMAT"@.len());
    assert("D_VIS"@.len() != "END_DATA_FORMAT"@.len());
    assert("D_VIS"@.len() != "BEGIN_DATA"@.len());
    assert("D_VIS"@.len() != "END_DATA"@.len());
}

#[verifier::spinoff_prover]
#[verifier::rlimit(100)]
proof fn lemma_token_chunk_4()
    ensures
        crate::round_trip::cell_ok(field_name(Field::LAB_L)),
        field_name(Field::LAB_L) != "BEGIN_DATA_FORMAT"@,
        field_name(Field::LAB_L) != "END_DATA_FORMAT"@,
        field_name(Field::LAB_L) != "BEGIN_DATA"@,
        field_name(Field::LAB_L) != "END_DATA"@,
        crate::round_trip::cell_ok(field_name(Field::LAB_A)),
        field_name(Field::LAB_A) != "BEGIN_DATA_FORMAT"@,
        field_name(Field::LAB_A) != "END_DATA_FORMAT"@,
        field_name(Field::LAB_A) != "BEGIN_DATA"@,
        field_name(Field::LAB_A) != "END_DATA"@,
        crate::round_trip::cell_ok(field_name(Field::LAB_B)),
        field_name(Field::LAB_B) != "BEGIN_DATA_FORMAT"@,
        field_name(Field::LAB_B) != "END_DATA_FORMAT"@,
        field_name(Field::LAB_B) != "BEGIN_DATA"@,
        field_name(Field::LAB_B) != "END_DATA"@,
        crate::round_trip::cell_ok(field_name(Field::LAB_C)),
        field_name(Field::LAB_C) != "BEGIN_DATA_FORMAT"@,
        field_name(Field::LAB_C) != "END_DATA_FORMAT"@,
        field_name(Field::LAB_C) != "BEGIN_DATA"@,
        field_name(Field::LAB_C) != "END_DATA"@,
        crate::round_trip::cell_ok(field_name(Field::LAB_H)),
        field_name(Field::LAB_H) != "BEGIN_DATA_FORMAT"@,
        field_name(Field::LAB_H) != "END_DATA_FORMAT"@,
        field_name(Field::LAB_H) != "BEGIN_DATA"@,
        field_name(Field::LAB_H) != "END_DATA"@,
        crate::round_trip::cell_ok(field_name(Field::DE_1976)),
        field_name(Field::DE_1976) != "BEGIN_DATA_FORMAT"@,
        field_name(Field::DE_1976) != "END_DATA_FORMAT"@,
        field_name(Field::DE_1976) != "BEGIN_DATA"@,
        field_name(Field::DE_1976) != "END_DATA"@,
        crate::round_trip::cell_ok(field_name(Field::DE_1994)),
        field_name(Field::DE_1994) != "BEGIN_DATA_FORMAT"@,
        field_name(Field::DE_1994) != "END_DATA_FORMAT"@,
        field_name(Field::DE_1994) != "BEGIN_DATA"@,
        field_name(Field::DE_1994) != "END_DATA"@,
        crate::round_trip::cell_ok(field_name(Field::DE_1994T)),
        field_name(Field::DE_1994T) != "BEGIN_DATA_FORMAT"@,
        field_name(Field::DE_1994T) != "END_DATA_FORMAT"@,
        field_name(Field::DE_1994T) != "BEGIN_DATA"@,
        field_name(Field::DE_1994T) != "END_DATA"@,
        crate::round_trip::cell_ok(field_name(Field::DE_CMC)),
        field_name(Field::DE_CMC) != "BEGIN_DATA_FORMAT"@,
        field_name(Field::DE_CMC) != "END_DATA_FORMAT"@,
        field_name(Field::DE_CMC) != "BEGIN_DATA"@,
        field_name(Field::DE_CMC) != "END_DATA"@,
        crate::round_trip::cell_ok(field_name(Field::DE_CMC2)),
        field_name(Field::DE_CMC2) != "BEGIN_DATA_FORMAT"@,
        field_name(Field::DE_CMC2) != "END_DATA_FORMAT"@,
        field_name(Field::DE_CMC2) != "BEGIN_DATA"@,
        field_name(Field::DE_CMC2) != "END_DATA"@,
{
    reveal_strlit("BEGIN_DATA_FORMAT");
    reveal_strlit("END_DATA_FORMAT");
    reveal_strlit("BEGIN_DATA");
    reveal_strlit("END_DATA");
    reveal_strlit("LAB_L");
    reveal_strlit("LAB_A");
    reveal_strlit("LAB_B");
    reveal_strlit("LAB_C");
    reveal_strlit("LAB_H");
    reveal_strlit("DE_1976");
    reveal_strlit("DE_1994");
    reveal_strlit("DE_1994T");
    reveal_strlit("DE_CMC");
    reveal_strlit("DE_CMC2");
    assert("LAB_L"@.len() != "BEGIN_DATA_FORMAT"@.len());
    assert("LAB_L"@.len() != "END_DATA_FORMAT"@.len());
    assert("LAB_L"@.len() != "BEGIN_DATA"@.len());
    assert("LAB_L"@.len() != "END_DATA"@.len());
    assert("LAB_A"@.len() != "BEGIN_DATA_FORMAT"@.len());
    assert("LAB_A"@.len() != "END_DATA_FORMAT"@.len());
    assert("LAB_A"@.len() != "BEGIN_DATA"@.len());
    assert("LAB_A"@.len() != "END_DATA"@.len());
    assert("LAB_B"@.len() != "BEGIN_DATA_FORMAT"@.len());
    assert("LAB_B"@.len() != "END_DATA_FORMAT"@.len());
    assert("LAB_B"@.len() != "BEGIN_DATA"@.len());
    assert("LAB_B"@.len() != "END_DATA"@.len());
    assert("LAB_C"@.len() != "BEGIN_DATA_FORMAT"@.len());
    assert("LAB_C"@.len() != "END_DATA_FORMAT"@.len());
    assert("LAB_C"@.len() != "BEGIN_DATA"@.len());
    assert("LAB_C"@.len() != "END_DATA"@.len());
    assert("LAB_H"@.len() != "BEGIN_DATA_FORMAT"@.len());
    assert("LAB_H"@.len() != "END_DATA_FORMAT"@.len());
    assert("LAB_H"@.len() != "BEGIN_DATA"@.len());
    assert("LAB_H"@.len() != "END_DATA"@.len());
    assert("DE_1976"@.len() != "BEGIN_DATA_FORMAT"@.len());
    assert("DE_1976"@.len() != "END_DATA_FORMAT"@.len());
    assert("DE_1976"@.len() != "BEGIN_DATA"@.len());
    assert("DE_1976"@.len() != "END_DATA"@.len());
    assert("DE_1994"@.len() != "BEGIN_DATA_FORMAT"@.len());
    assert("DE_1994"@.len() != "END_DATA_FORMAT"@.len());
    assert("DE_1994"@.len() != "BEGIN_DATA"@.len());
    assert("DE_1994"@.len() != "END_DATA"@.len());
    assert("DE_1994T"@.len() != "BEGIN_DATA_FORMAT"@.len());
    assert("DE_1994T"@.len() != "END_DATA_FORMAT"@.len());
    assert("DE_1994T"@.len() != "BEGIN_DATA"@.len());
    assert("DE_1994T"@[0int] != "END_DATA"@[0int]);
    assert("DE_CMC"@.len() != "BEGIN_DATA_FORMAT"@.len());
    assert("DE_CMC"@.len() != "END_DATA_FORMAT"@.len());
    assert("DE_CMC"@.len() != "BEGIN_DATA"@.len());
    assert("DE_CMC"@.len() != "END_DATA"@.len());
    assert("DE_CMC2"@.len() != "BEGIN_DATA_FORMAT"@.len());
    assert("DE_CMC2"@.len() != "END_DATA_FORMAT"@.len());
    assert("DE_CMC2"@.len() != "BEGIN_DATA"@.len());
    assert("DE_CMC2"@.len() != "END_DATA"@.len());
}

#[verifier::spinoff_prover]
#[verifier::rlimit(100)]
proof fn lemma_token_chunk_5()
    ensures
        crate::round_trip::cell_ok(field_name(Field::DE_2000)),
        field_name(Field::DE_2000) != "BEGIN_DATA_FORMAT"@,
        field_name(Field::DE_2000) != "END_DATA_FORMAT"@,
        field_name(Field::DE_2000) != "BEGIN_DATA"@,
        field_name(Field::DE_2000) != "END_DATA"@,
        crate::round_trip::cell_ok(field_name(Field::XYZ_X)),
        field_name(Field::XYZ_X) != "BEGIN_DATA_FORMAT"@,
        field_name(Field::XYZ_X) != "END_DATA_FORMAT"@,
        field_name(Field::XYZ_X) != "BEGIN_DATA"@,
        field_name(Field::XYZ_X) != "END_DATA"@,
        crate::round_trip::cell_ok(field_name(Field::XYZ_Y)),
        field_name(Field::XYZ_Y) != "BEGIN_DATA_FORMAT"@,
        field_name(Field::XYZ_Y) != "END_DATA_FORMAT"@,
        field_name(Field::XYZ_Y) != "BEGIN_DATA"@,
        field_name(Field::XYZ_Y) != "END_DATA"@,
        crate::round_trip::cell_ok(field_name(Field::XYZ_Z)),
        field_name(Field::XYZ_Z) != "BEGIN_DATA_FORMAT"@,
        field_name(Field::XYZ_Z) != "END_DATA_FORMAT"@,
        field_name(Field::XYZ_Z) != "BEGIN_DATA"@,
        field_name(Field::XYZ_Z) != "END_DATA"@,
        crate::round_trip::cell_ok(field_name(Field::XYY_X)),
        field_name(Field::XYY_X) != "BEGIN_DATA_FORMAT"@,
        field_name(Field::XYY_X) != "END_DATA_FORMAT"@,
        field_name(Field::XYY_X) != "BEGIN_DATA"@,
        field_name(Field::XYY_X) != "END_DATA"@,
        crate::round_trip::cell_ok(field_name(Field::XYY_Y)),
        field_name(Field::XYY_Y) != "BEGIN_DATA_FORMAT"@,
        field_name(Field::XYY_Y) != "END_DATA_FORMAT"@,
        field_name(Field::XYY_Y) != "BEGIN_DATA"@,
        field_name(Field::XYY_Y) != "END_DATA"@,
        crate::round_trip::cell_ok(field_name(Field::XYY_CAPY)),
        field_name(Field::XYY_CAPY) != "BEGIN_DATA_FORMAT"@,
        field_name(Field::XYY_CAPY) != "END_DATA_FORMAT"@,
        field_name(Field::XYY_CAPY) != "BEGIN_DATA"@,
        field_name(Field::XYY_CAPY) != "END_DATA"@,
        crate::round_trip::cell_ok(field_name(Field::SPECTRAL_340)),
        field_name(Field::SPECTRAL_340) != "BEGIN_DATA_FORMAT"@,
        field_name(Field::SPECTRAL_340) != "END_DATA_FORMAT"@,
        field_name(Field::SPECTRAL_340) != "BEGIN_DATA"@,
        field_name(Field::SPECTRAL_340) != "END_DATA"@,
        crate::round_trip::cell_ok(field_name(Field::SPECTRAL_350)),
        field_name(Field::SPECTRAL_350) != "BEGIN_DATA_FORMAT"@,
        field_name(Field::SPECTRAL_350) != "END_DATA_FORMAT"@,
        field_name(Field::SPECTRAL_350) != "BEGIN_DATA"@,
        field_name(Field::SPECTRAL_350) != "END_DATA"@,
        crate::round_trip::cell_ok(field_name(Field::SPECTRAL_360)),
        field_name(Field::SPECTRAL_360) != "BEGIN_DATA_FORMAT"@,
        field_name(Field::SPECTRAL_360) != "END_DATA_FORMAT"@,
        field_name(Field::SPECTRAL_360) != "BEGIN_DATA"@,
        field_name(Field::SPECTRAL_360) != "END_DATA"@,
{
    reveal_strlit("BEGIN_DATA_FORMAT");
    reveal_strlit("END_DATA_FORMAT");
    reveal_strlit("BEGIN_DATA");
    reveal_strlit("END_DATA");
    reveal_strlit("DE_2000");
    reveal_strlit("XYZ_X");
    reveal_strlit("XYZ_Y");
    reveal_strlit("XYZ_Z");
    reveal_strlit("XYY_X");
    reveal_strlit("XYY_Y");
    reveal_strlit("XYY_CAPY");
    reveal_strlit("SPECTRAL_340");
    reveal_strlit("SPECTRAL_350");
    reveal_strlit("SPECTRAL_360");
    assert("DE_2000"@.len() != "BEGIN_DATA_FORMAT"@.len());
    assert("DE_2000"@.len() != "END_DATA_FORMAT"@.len());
    assert("DE_2000"@.len() != "BEGIN_DATA"@.len());
    assert("DE_2000"@.len() != "END_DATA"@.len());
    assert("XYZ_X"@.len() != "BEGIN_DATA_FORMAT"@.len());
    assert("XYZ_X"@.len() != "END_DATA_FORMAT"@.len());
    assert("XYZ_X"@.len() != "BEGIN_DATA"@.len());
    assert("XYZ_X"@.len() != "END_DATA"@.len());
    assert("XYZ_Y"@.len() != "BEGIN_DATA_FORMAT"@.len());
    assert("XYZ_Y"@.len() != "END_DATA_FORMAT"@.len());
    assert("XYZ_Y"@.len() != "BEGIN_DATA"@.len());
    assert("XYZ_Y"@.len() != "END_DATA"@.len());
    assert("XYZ_Z"@.len() != "BEGIN_DATA_FORMAT"@.len());
    assert("XYZ_Z"@.len() != "END_DATA_FORMAT"@.len());
    assert("XYZ_Z"@.len() != "BEGIN_DATA"@.len());
    assert("XYZ_Z"@.len() != "END_DATA"@.len());
    assert("XYY_X"@.len() != "BEGIN_DATA_FORMAT"@.len());
    assert("XYY_X"@.len() != "END_DATA_FORMAT"@.len());
    assert("XYY_X"@.len() != "BEGIN_DATA"@.len());
    assert("XYY_X"@.len() != "END_DATA"@.len());
    assert("XYY_Y"@.len() != "BEGIN_DATA_FORMAT"@.len());
    assert("XYY_Y"@.len() != "END_DATA_FORMAT"@.len());
    assert("XYY_Y"@.len() != "BEGIN_DATA"@.len());
    assert("XYY_Y"@.len() != "END_DATA"@.len());
    assert("XYY_CAPY"@.len() != "BEGIN_DATA_FORMAT"@.len());
    assert("XYY_CAPY"@.len() != "END_DATA_FORMAT"@.len());
    assert("XYY_CAPY"@.len() != "BEGIN_DATA"@.len());
    assert("XYY_CAPY"@[0int] != "END_DATA"@[0int]);
    assert("SPECTRAL_340"@.len() != "BEGIN_DATA_FORMAT"@.len());
    assert("SPECTRAL_340"@.len() != "END_DATA_FORMAT"@.len());
    assert("SPECTRAL_340"@.len() != "BEGIN_DATA"@.len());
    assert("SPECTRAL_340"@.len() != "END_DATA"@.len());
    assert("SPECTRAL_350"@.len() != "BEGIN_DATA_FORMAT"@.len());
    assert("SPECTRAL_350"@.len() != "END_DATA_FORMAT"@.len());
    assert("SPECTRAL_350"@.len() != "BEGIN_DATA"@.len());
    assert("SPECTRAL_350"@.len() != "END_DATA"@.len());
    assert("SPECTRAL_360"@.len() != "BEGIN_DATA_FORMAT"@.len());
    assert("SPECTRAL_360"@.len() != "END_DATA_FORMAT"@.len());
    assert("SPECTRAL_360"@.len() != "BEGIN_DATA"@.len());
    assert("SPECTRAL_360"@.len() != "END_DATA"@.len());
}

#[verifier::spinoff_prover]
#[verifier::rlimit(100)]
proof fn lemma_token_chunk_6()
    ensures
        crate::round_trip::cell_ok(field_name(Field::SPECTRAL_370)),
        field_name(Field::SPECTRAL_370) != "BEGIN_DATA_FORMAT"@,
        field_name(Field::SPECTRAL_370) != "END_DATA_FORMAT"@,
        field_name(Field::SPECTRAL_370) != "BEGIN_DATA"@,
        field_name(Field::SPECTRAL_370) != "END_DATA"@,
        crate::round_trip::cell_ok(field_name(Field::SPECTRAL_380)),
        field_name(Field::SPECTRAL_380) != "BEGIN_DATA_FORMAT"@,
        field_name(Field::SPECTRAL_380) != "END_DATA_FORMAT"@,
        field_name(Field::SPECTRAL_380) != "BEGIN_DATA"@,
        field_name(Field::SPECTRAL_380) != "END_DATA"@,
        crate::round_trip::cell_ok(field_name(Field::SPECTRAL_390)),
        field_name(Field::SPECTRAL_390) != "BEGIN_DATA_FORMAT"@,
        field_name(Field::SPECTRAL_390) != "END_DATA_FORMAT"@,
        field_name(Field::SPECTRAL_390) != "BEGIN_DATA"@,
        field_name(Field::SPECTRAL_390) != "END_DATA"@,
        crate::round_trip::cell_ok(field_name(Field::SPECTRAL_400)),
        field_name(Field::SPECTRAL_400) != "BEGIN_DATA_FORMAT"@,
        field_name(Field::SPECTRAL_400) != "END_DATA_FORMAT"@,
        field_name(Field::SPECTRAL_400) != "BEGIN_DATA"@,
        field_name(Field::SPECTRAL_400) != "END_DATA"@,
        crate::round_trip::cell_ok(field_name(Field::SPECTRAL_410)),
        field_name(Field::SPECTRAL_410) != "BEGIN_DATA_FORMAT"@,
        field_name(Field::SPECTRAL_410) != "END_DATA_FORMAT"@,
        field_name(Field::SPECTRAL_410) != "BEGIN_DATA"@,
        field_name(Field::SPECTRAL_410) != "END_DATA"@,
        crate::round_trip::cell_ok(field_name(Field::SPECTRAL_420)),
        field_name(Field::SPECTRAL_420) != "BEGIN_DATA_FORMAT"@,
        field_name(Field::SPECTRAL_420) != "END_DATA_FORMAT"@,
        field_name(Field::SPECTRAL_420) != "BEGIN_DATA"@,
        field_name(Field::SPECTRAL_420) != "END_DATA"@,
        crate::round_trip::cell_ok(field_name(Field::SPECTRAL_430)),
        field_name(Field::SPECTRAL_430) != "BEGIN_DATA_FORMAT"@,
        field_name(Field::SPECTRAL_430) != "END_DATA_FORMAT"@,
        field_name(Field::SPECTRAL_430) != "BEGIN_DATA"@,
        field_name(Field::SPECTRAL_430) != "END_DATA"@,
        crate::round_trip::cell_ok(field_name(Field::SPECTRAL_440)),
        field_name(Field::SPECTRAL_440) != "BEGIN_DATA_FORMAT"@,
        field_name(Field::SPECTRAL_440) != "END_DATA_FORMAT"@,
        field_name(Field::SPECTRAL_440) != "BEGIN_DATA"@,
        field_name(Field::SPECTRAL_440) != "END_DATA"@,
        crate::round_trip::cell_ok(field_name(Field::SPECTRAL_450)),
        field_name(Field::SPECTRAL_450) != "BEGIN_DATA_FORMAT"@,
        field_name(Field::SPECTRAL_450) != "END_DATA_FORMAT"@,
        field_name(Field::SPECTRAL_450) != "BEGIN_DATA"@,
        field_name(Field::SPECTRAL_450) != "END_DATA"@,
        crate::round_trip::cell_ok(field_name(Field::SPECTRAL_460)),
        field_name(Field::SPECTRAL_460) != "BEGIN_DATA_FORMAT"@,
        field_name(Field::SPECTRAL_460) != "END_DATA_FORMAT"@,
        field_name(Field::SPECTRAL_460) != "BEGIN_DATA"@,
        field_name(Field::SPECTRAL_460) != "END_DATA"@,
{
    reveal_strlit("BEGIN_DATA_FORMAT");
    reveal_strlit("END_DATA_FORMAT");
    reveal_strlit("BEGIN_DATA");
    reveal_strlit("END_DATA");
    reveal_strlit("SPECTRAL_370");
    reveal_strlit("SPECTRAL_380");
    reveal_strlit("SPECTRAL_390");
    reveal_strlit("SPECTRAL_400");
    reveal_strlit("SPECTRAL_410");
    reveal_strlit("SPECTRAL_420");
    reveal_strlit("SPECTRAL_430");
    reveal_strlit("SPECTRAL_440");
    reveal_strlit("SPECTRAL_450");
    reveal_strlit("SPECTRAL_460");
    assert("SPECTRAL_370"@.len() != "BEGIN_DATA_FORMAT"@.len());
    assert("SPECTRAL_370"@.len() != "END_DATA_FORMAT"@.len());
    assert("SPECTRAL_370"@.len() != "BEGIN_DATA"@.len());
    assert("SPECTRAL_370"@.len() != "END_DATA"@.len());
    assert("SPECTRAL_380"@.len() != "BEGIN_DATA_FORMAT"@.len());
    assert("SPECTRAL_380"@.len() != "END_DATA_FORMAT"@.len());
    assert("SPECTRAL_380"@.len() != "BEGIN_DATA"@.len());
    assert("SPECTRAL_380"@.len() != "END_DATA"@.len());
    assert("SPECTRAL_390"@.len() != "BEGIN_DATA_FORMAT"@.len());
    assert("SPECTRAL_390"@.len() != "END_DATA_FORMAT"@.len());
    assert("SPECTRAL_390"@.len() != "BEGIN_DATA"@.len());
    assert("SPECTRAL_390"@.len() != "END_DATA"@.len());
    assert("SPECTRAL_400"@.len() != "BEGIN_DATA_FORMAT"@.len());
    assert("SPECTRAL_400"@.len() != "END_DATA_FORMAT"@.len());
    assert("SPECTRAL_400"@.len() != "BEGIN_DATA"@.len());
    assert("SPECTRAL_400"@.len() != "END_DATA"@.len());
    assert("SPECTRAL_410"@.len() != "BEGIN_DATA_FORMAT"@.len());
    assert("SPECTRAL_410"@.len() != "END_DATA_FORMAT"@.len());
    assert("SPECTRAL_410"@.len() != "BEGIN_DATA"@.len());
    assert("SPECTRAL_410"@.len() != "END_DATA"@.len());
    assert("SPECTRAL_420"@.len() != "BEGIN_DATA_FORMAT"@.len());
    assert("SPECTRAL_420"@.len() != "END_DATA_FORMAT"@.len());
    assert("SPECTRAL_420"@.len() != "BEGIN_DATA"@.len());
    assert("SPECTRAL_420"@.len() != "END_DATA"@.len());
    assert("SPECTRAL_430"@.len() != "BEGIN_DATA_FORMAT"@.len());
    assert("SPECTRAL_430"@.len() != "END_DATA_FORMAT"@.len());
    assert("SPECTRAL_430"@.len() != "BEGIN_DATA"@.len());
    assert("SPECTRAL_430"@.len() != "END_DATA"@.len());
    assert("SPECTRAL_440"@.len() != "BEGIN_DATA_FORMAT"@.len());
    assert("SPECTRAL_440"@.len() != "END_DATA_FORMAT"@.len());
    assert("SPECTRAL_440"@.len() != "BEGIN_DATA"@.len());
    assert("SPECTRAL_440"@.len() != "END_DATA"@.len());
    assert("SPECTRAL_450"@.len() != "BEGIN_DATA_FORMAT"@.len());
    assert("SPECTRAL_450"@.len() != "END_DATA_FORMAT"@.len());
    assert("SPECTRAL_450"@.len() != "BEGIN_DATA"@.len());
    assert("SPECTRAL_450"@.len() != "END_DATA"@.len());
    assert("SPECTRAL_460"@.len() != "BEGIN_DATA_FORMAT"@.len());
    assert("SPECTRAL_460"@.len() != "END_DATA_FORMAT"@.len());
    assert("SPECTRAL_460"@.len() != "BEGIN_DATA"@.len());
    assert("SPECTRAL_460"@.len() != "END_DATA"@.len());
}

#[verifier::spinoff_prover]
#[verifier::rlimit(100)]
proof fn lemma_token_chunk_7()
    ensures
        crate::round_trip::cell_ok(field_name(Field::SPECTRAL_470)),
        field_name(Field::SPECTRAL_470) != "BEGIN_DATA_FORMAT"@,
        field_name(Field::SPECTRAL_470) != "END_DATA_FORMAT"@,
        field_name(Field::SPECTRAL_470) != "BEGIN_DATA"@,
        field_name(Field::SPECTRAL_470) != "END_DATA"@,
        crate::round_trip::cell_ok(field_name(Field::SPECTRAL_480)),
        field_name(Field::SPECTRAL_480) != "BEGIN_DATA_FORMAT"@,
        field_name(Field::SPECTRAL_480) != "END_DATA_FORMAT"@,
        field_name(Field::SPECTRAL_480) != "BEGIN_DATA"@,
        field_name(Field::SPECTRAL_480) != "END_DATA"@,
        crate::round_trip::cell_ok(field_name(Field::SPECTRAL_490)),
        field_name(Field::SPECTRAL_490) != "BEGIN_DATA_FORMAT"@,
        field_name(Field::SPECTRAL_490) != "END_DATA_FORMAT"@,
        field_name(Field::SPECTRAL_490) != "BEGIN_DATA"@,
        field_name(Field::SPECTRAL_490) != "END_DATA"@,
        crate::round_trip::cell_ok(field_name(Field::SPECTRAL_500)),
        field_name(Field::SPECTRAL_500) != "BEGIN_DATA_FORMAT"@,
        field_name(Field::SPECTRAL_500) != "END_DATA_FORMAT"@,
        field_name(Field::SPECTRAL_500) != "BEGIN_DATA"@,
        field_name(Field::SPECTRAL_500) != "END_DATA"@,
        crate::round_trip::cell_ok(field_name(Field::SPECTRAL_510)),
        field_name(Field::SPECTRAL_510) != "BEGIN_DATA_FORMAT"@,
        field_name(Field::SPECTRAL_510) != "END_DATA_FORMAT"@,
        field_name(Field::SPECTRAL_510) != "BEGIN_DATA"@,
        field_name(Field::SPECTRAL_510) != "END_DATA"@,
        crate::round_trip::cell_ok(field_name(Field::SPECTRAL_520)),
        field_name(Field::SPECTRAL_520) != "BEGIN_DATA_FORMAT"@,
        field_name(Field::SPECTRAL_520) != "END_DATA_FORMAT"@,
        field_name(Field::SPECTRAL_520) != "BEGIN_DATA"@,
        field_name(Field::SPECTRAL_520) != "END_DATA"@,
        crate::round_trip::cell_ok(field_name(Field::SPECTRAL_530)),
        field_name(Field::SPECTRAL_530) != "BEGIN_DATA_FORMAT"@,
        field_name(Field::SPECTRAL_530) != "END_DATA_FORMAT"@,
        field_name(Field::SPECTRAL_530) != "BEGIN_DATA"@,
        field_name(Field::SPECTRAL_530) != "END_DATA"@,
        crate::round_trip::cell_ok(field_name(Field::SPECTRAL_540)),
        field_name(Field::SPECTRAL_540) != "BEGIN_DATA_FORMAT"@,
        field_name(Field::SPECTRAL_540) != "END_DATA_FORMAT"@,
        field_name(Field::SPECTRAL_540) != "BEGIN_DATA"@,
        field_name(Field::SPECTRAL_540) != "END_DATA"@,
        crate::round_trip::cell_ok(field_name(Field::SPECTRAL_550)),
        field_name(Field::SPECTRAL_550) != "BEGIN_DATA_FORMAT"@,
        field_name(Field::SPECTRAL_550) != "END_DATA_FORMAT"@,
        field_name(Field::SPECTRAL_550) != "BEGIN_DATA"@,
        field_name(Field::SPECTRAL_550) != "END_DATA"@,
        crate::round_trip::cell_ok(field_name(Field::SPECTRAL_560)),
        field_name(Field::SPECTRAL_560) != "BEGIN_DATA_FORMAT"@,
        field_name(Field::SPECTRAL_560) != "END_DATA_FORMAT"@,
        field_name(Field::SPECTRAL_560) != "BEGIN_DATA"@,
        field_name(Field::SPECTRAL_560) != "END_DATA"@,
{
    reveal_strlit("BEGIN_DATA_FORMAT");
    reveal_strlit("END_DATA_FORMAT");
    reveal_strlit("BEGIN_DATA");
    reveal_strlit("END_DATA");
    reveal_strlit("SPECTRAL_470");
    reveal_strlit("SPECTRAL_480");
    reveal_strlit("SPECTRAL_490");
    reveal_strlit("SPECTRAL_500");
    reveal_strlit("SPECTRAL_510");
    reveal_strlit("SPECTRAL_520");
    reveal_strlit("SPECTRAL_530");
    reveal_strlit("SPECTRAL_540");
    reveal_strlit("SPECTRAL_550");
    reveal_strlit("SPECTRAL_560");
    assert("SPECTRAL_470"@.len() != "BEGIN_DATA_FORMAT"@.len());
    assert("SPECTRAL_470"@.len() != "END_DATA_FORMAT"@.len());
    assert("SPECTRAL_470"@.len() != "BEGIN_DATA"@.len());
    assert("SPECTRAL_470"@.len() != "END_DATA"@.len());
    assert("SPECTRAL_480"@.len() != "BEGIN_DATA_FORMAT"@.len());
    assert("SPECTRAL_480"@.len() != "END_DATA_FORMAT"@.len());
    assert("SPECTRAL_480"@.len() != "BEGIN_DATA"@.len());
    assert("SPECTRAL_480"@.len() != "END_DATA"@.len());
    assert("SPECTRAL_490"@.len() != "BEGIN_DATA_FORMAT"@.len());
    assert("SPECTRAL_490"@.len() != "END_DATA_FORMAT"@.len());
    assert("SPECTRAL_490"@.len() != "BEGIN_DATA"@.len());
    assert("SPECTRAL_490"@.len() != "END_DATA"@.len());
    assert("SPECTRAL_500"@.len() != "BEGIN_DATA_FORMAT"@.len());
    assert("SPECTRAL_500"@.len() != "END_DATA_FORMAT"@.len());
    assert("SPECTRAL_500"@.len() != "BEGIN_DATA"@.len());
    assert("SPECTRAL_500"@.len() != "END_DATA"@.len());
    assert("SPECTRAL_510"@.len() != "BEGIN_DATA_FORMAT"@.len());
    assert("SPECTRAL_510"@.len() != "END_DATA_FORMAT"@.len());
    assert("SPECTRAL_510"@.len() != "BEGIN_DATA"@.len());
    assert("SPECTRAL_510"@.len() != "END_DATA"@.len());
    assert("SPECTRAL_520"@.len() != "BEGIN_DATA_FORMAT"@.len());
    assert("SPECTRAL_520"@.len() != "END_DATA_FORMAT"@.len());
    assert("SPECTRAL_520"@.len() != "BEGIN_DATA"@.len());
    assert("SPECTRAL_520"@.len() != "END_DATA"@.len());
    assert("SPECTRAL_530"@.len() != "BEGIN_DATA_FORMAT"@.len());
    assert("SPECTRAL_530"@.len() != "END_DATA_FORMAT"@.len());
    assert("SPECTRAL_530"@.len() != "BEGIN_DATA"@.len());
    assert("SPECTRAL_530"@.len() != "END_DATA"@.len());
    assert("SPECTRAL_540"@.len() != "BEGIN_DATA_FORMAT"@.len());
    assert("SPECTRAL_540"@.len() != "END_DATA_FORMAT"@.len());
    assert("SPECTRAL_540"@.len() != "BEGIN_DATA"@.len());
    assert("SPECTRAL_540"@.len() != "END_DATA"@.len());
    assert("SPECTRAL_550"@.len() != "BEGIN_DATA_FORMAT"@.len());
    assert("SPECTRAL_550"@.len() != "END_DATA_FORMAT"@.len());
    assert("SPECTRAL_550"@.len() != "BEGIN_DATA"@.len());
    assert("SPECTRAL_550"@.len() != "END_DATA"@.len());
    assert("SPECTRAL_560"@.len() != "BEGIN_DATA_FORMAT"@.len());
    assert("SPECTRAL_560"@.len() != "END_DATA_FORMAT"@.len());
    assert("SPECTRAL_560"@.len() != "BEGIN_DATA"@.len());
    assert("SPECTRAL_560"@.len() != "END_DATA"@.len());
}

#[verifier::spinoff_prover]
#[verifier::rlimit(100)]
proof fn lemma_token_chunk_8()
    ensures
        crate::round_trip::cell_ok(field_name(Field::SPECTRAL_570)),
        field_name(Field::SPECTRAL_570) != "BEGIN_DATA_FORMAT"@,
        field_name(Field::SPECTRAL_570) != "END_DATA_FORMAT"@,
        field_name(Field::SPECTRAL_570) != "BEGIN_DATA"@,
        field_name(Field::SPECTRAL_570) != "END_DATA"@,
        crate::round_trip::cell_ok(field_name(Field::SPECTRAL_580)),
        field_name(Field::SPECTRAL_580) != "BEGIN_DATA_FORMAT"@,
        field_name(Field::SPECTRAL_580) != "END_DATA_FORMAT"@,
        field_name(Field::SPECTRAL_580) != "BEGIN_DATA"@,
        field_name(Field::SPECTRAL_580) != "END_DATA"@,
        crate::round_trip::cell_ok(field_name(Field::SPECTRAL_590)),
        field_name(Field::SPECTRAL_590) != "BEGIN_DATA_FORMAT"@,
        field_name(Field::SPECTRAL_590) != "END_DATA_FORMAT"@,
        field_name(Field::SPECTRAL_590) != "BEGIN_DATA"@,
        field_name(Field::SPECTRAL_590) != "END_DATA"@,
        crate::round_trip::cell_ok(field_name(Field::SPECTRAL_600)),
        field_name(Field::SPECTRAL_600) != "BEGIN_DATA_FORMAT"@,
        field_name(Field::SPECTRAL_600) != "END_DATA_FORMAT"@,
        field_name(Field::SPECTRAL_600) != "BEGIN_DATA"@,
        field_name(Field::SPECTRAL_600) != "END_DATA"@,
        crate::round_trip::cell_ok(field_name(Field::SPECTRAL_610)),
        field_name(Field::SPECTRAL_610) != "BEGIN_DATA_FORMAT"@,
        field_name(Field::SPECTRAL_610) != "END_DATA_FORMAT"@,
        field_name(Field::SPECTRAL_610) != "BEGIN_DATA"@,
        field_name(Field::SPECTRAL_610) != "END_DATA"@,
        crate::round_trip::cell_ok(field_name(Field::SPECTRAL_620)),
        field_name(Field::SPECTRAL_620) != "BEGIN_DATA_FORMAT"@,
        field_name(Field::SPECTRAL_620) != "END_DATA_FORMAT"@,
        field_name(Field::SPECTRAL_620) != "BEGIN_DATA"@,
        field_name(Field::SPECTRAL_620) != "END_DATA"@,
        crate::round_trip::cell_ok(field_name(Field::SPECTRAL_630)),
        field_name(Field::SPECTRAL_630) != "BEGIN_DATA_FORMAT"@,
        field_name(Field::SPECTRAL_630) != "END_DATA_FORMAT"@,
        field_name(Field::SPECTRAL_630) != "BEGIN_DATA"@,
        field_name(Field::SPECTRAL_630) != "END_DATA"@,
        crate::round_trip::cell_ok(field_name(Field::SPECTRAL_640)),
        field_name(Field::SPECTRAL_640) != "BEGIN_DATA_FORMAT"@,
        field_name(Field::SPECTRAL_640) != "END_DATA_FORMAT"@,
        field_name(Field::SPECTRAL_640) != "BEGIN_DATA"@,
        field_name(Field::SPECTRAL_640) != "END_DATA"@,
        crate::round_trip::cell_ok(field_name(Field::SPECTRAL_650)),
        field_name(Field::SPECTRAL_650) != "BEGIN_DATA_FORMAT"@,
        field_name(Field::SPECTRAL_650) != "END_DATA_FORMAT"@,
        field_name(Field::SPECTRAL_650) != "BEGIN_DATA"@,
        field_name(Field::SPECTRAL_650) != "END_DATA"@,
        crate::round_trip::cell_ok(field_name(Field::SPECTRAL_660)),
        field_name(Field::SPECTRAL_660) != "BEGIN_DATA_FORMAT"@,
        field_name(Field::SPECTRAL_660) != "END_DATA_FORMAT"@,
        field_name(Field::SPECTRAL_660) != "BEGIN_DATA"@,
        field_name(Field::SPECTRAL_660) != "END_DATA"@,
{
    reveal_strlit("BEGIN_DATA_FORMAT");
    reveal_strlit("END_DATA_FORMAT");
    reveal_strlit("BEGIN_DATA");
    reveal_strlit("END_DATA");
    reveal_strlit("SPECTRAL_570");
    reveal_strlit("SPECTRAL_580");
    reveal_strlit("SPECTRAL_590");
    reveal_strlit("SPECTRAL_600");
    reveal_strlit("SPECTRAL_610");
    reveal_strlit("SPECTRAL_620");
    reveal_strlit("SPECTRAL_630");
    reveal_strlit("SPECTRAL_640");
    reveal_strlit("SPECTRAL_650");
    reveal_strlit("SPECTRAL_660");
    assert("SPECTRAL_570"@.len() != "BEGIN_DATA_FORMAT"@.len());
    assert("SPECTRAL_570"@.len() != "END_DATA_FORMAT"@.len());
    assert("SPECTRAL_570"@.len() != "BEGIN_DATA"@.len());
    assert("SPECTRAL_570"@.len() != "END_DATA"@.len());
    assert("SPECTRAL_580"@.len() != "BEGIN_DATA_FORMAT"@.len());
    assert("SPECTRAL_580"@.len() != "END_DATA_FORMAT"@.len());
    assert("SPECTRAL_580"@.len() != "BEGIN_DATA"@.len());
    assert("SPECTRAL_580"@.len() != "END_DATA"@.len());
    assert("SPECTRAL_590"@.len() != "BEGIN_DATA_FORMAT"@.len());
    assert("SPECTRAL_590"@.len() != "END_DATA_FORMAT"@.len());
    assert("SPECTRAL_590"@.len() != "BEGIN_DATA"@.len());
    assert("SPECTRAL_590"@.len() != "END_DATA"@.len());
    assert("SPECTRAL_600"@.len() != "BEGIN_DATA_FORMAT"@.len());
    assert("SPECTRAL_600"@.len() != "END_DATA_FORMAT"@.len());
    assert("SPECTRAL_600"@.len() != "BEGIN_DATA"@.len());
    assert("SPECTRAL_600"@.len() != "END_DATA"@.len());
    assert("SPECTRAL_610"@.len() != "BEGIN_DATA_FORMAT"@.len());
    assert("SPECTRAL_610"@.len() != "END_DATA_FORMAT"@.len());
    assert("SPECTRAL_610"@.len() != "BEGIN_DATA"@.len());
    assert("SPECTRAL_610"@.len() != "END_DATA"@.len());
    assert("SPECTRAL_620"@.len() != "BEGIN_DATA_FORMAT"@.len());
    assert("SPECTRAL_620"@.len() != "END_DATA_FORMAT"@.len());
    assert("SPECTRAL_620"@.len() != "BEGIN_DATA"@.len());
    assert("SPECTRAL_620"@.len() != "END_DATA"@.len());
    assert("SPECTRAL_630"@.len() != "BEGIN_DATA_FORMAT"@.len());
    assert("SPECTRAL_630"@.len() != "END_DATA_FORMAT"@.len());
    assert("SPECTRAL_630"@.len() != "BEGIN_DATA"@.len());
    assert("SPECTRAL_630"@.len() != "END_DATA"@.len());
    assert("SPECTRAL_640"@.len() != "BEGIN_DATA_FORMAT"@.len());
    assert("SPECTRAL_640"@.len() != "END_DATA_FORMAT"@.len());
    assert("SPECTRAL_640"@.len() != "BEGIN_DATA"@.len());
    assert("SPECTRAL_640"@.len() != "END_DATA"@.len());
    assert("SPECTRAL_650"@.len() != "BEGIN_DATA_FORMAT"@.len());
    assert("SPECTRAL_650"@.len() != "END_DATA_FORMAT"@.len());
    assert("SPECTRAL_650"@.len() != "BEGIN_DATA"@.len());
    assert("SPECTRAL_650"@.len() != "END_DATA"@.len());
    assert("SPECTRAL_660"@.len() != "BEGIN_DATA_FORMAT"@.len());
    assert("SPECTRAL_660"@.len() != "END_DATA_FORMAT"@.len());
    assert("SPECTRAL_660"@.len() != "BEGIN_DATA"@.len());
    assert("SPECTRAL_660"@.len() != "END_DATA"@.len());
}

#[verifier::spinoff_prover]
#[verifier::rlimit(100)]
proof fn lemma_token_chunk_9()
    ensures
        crate::round_trip::cell_ok(field_name(Field::SPECTRAL_670)),
        field_name(Field::SPECTRAL_670) != "BEGIN_DATA_FORMAT"@,
        field_name(Field::SPECTRAL_670) != "END_DATA_FORMAT"@,
        field_name(Field::SPECTRAL_670) != "BEGIN_DATA"@,
        field_name(Field::SPECTRAL_670) != "END_DATA"@,
        crate::round_trip::cell_ok(field_name(Field::SPECTRAL_680)),
        field_name(Field::SPECTRAL_680) != "BEGIN_DATA_FORMAT"@,
        field_name(Field::SPECTRAL_680) != "END_DATA_FORMAT"@,
        field_name(Field::SPECTRAL_680) != "BEGIN_DATA"@,
        field_name(Field::SPECTRAL_680) != "END_DATA"@,
        crate::round_trip::cell_ok(field_name(Field::SPECTRAL_690)),
        field_name(Field::SPECTRAL_690) != "BEGIN_DATA_FORMAT"@,
        field_name(Field::SPECTRAL_690) != "END_DATA_FORMAT"@,
        field_name(Field::SPECTRAL_690) != "BEGIN_DATA"@,
        field_name(Field::SPECTRAL_690) != "END_DATA"@,
        crate::round_trip::cell_ok(field_name(Field::SPECTRAL_700)),
        field_name(Field::SPECTRAL_700) != "BEGIN_DATA_FORMAT"@,
        field_name(Field::SPECTRAL_700) != "END_DATA_FORMAT"@,
        field_name(Field::SPECTRAL_700) != "BEGIN_DATA"@,
        field_name(Field::SPECTRAL_700) != "END_DATA"@,
        crate::round_trip::cell_ok(field_name(Field::SPECTRAL_710)),
        field_name(Field::SPECTRAL_710) != "BEGIN_DATA_FORMAT"@,
        field_name(Field::SPECTRAL_710) != "END_DATA_FORMAT"@,
        field_name(Field::SPECTRAL_710) != "BEGIN_DATA"@,
        field_name(Field::SPECTRAL_710) != "END_DATA"@,
        crate::round_trip::cell_ok(field_name(Field::SPECTRAL_720)),
        field_name(Field::SPECTRAL_720) != "BEGIN_DATA_FORMAT"@,
        field_name(Field::SPECTRAL_720) != "END_DATA_FORMAT"@,
        field_name(Field::SPECTRAL_720) != "BEGIN_DATA"@,
        field_name(Field::SPECTRAL_720) != "END_DATA"@,
        crate::round_trip::cell_ok(field_name(Field::SPECTRAL_730)),
        field_name(Field::SPECTRAL_730) != "BEGIN_DATA_FORMAT"@,
        field_name(Field::SPECTRAL_730) != "END_DATA_FORMAT"@,
        field_name(Field::SPECTRAL_730) != "BEGIN_DATA"@,
        field_name(Field::SPECTRAL_730) != "END_DATA"@,
        crate::round_trip::cell_ok(field_name(Field::SPECTRAL_740)),
        field_name(Field::SPECTRAL_740) != "BEGIN_DATA_FORMAT"@,
        field_name(Field::SPECTRAL_740) != "END_DATA_FORMAT"@,
        field_name(Field::SPECTRAL_740) != "BEGIN_DATA"@,
        field_name(Field::SPECTRAL_740) != "END_DATA"@,
        crate::round_trip::cell_ok(field_name(Field::SPECTRAL_750)),
        field_name(Field::SPECTRAL_750) != "BEGIN_DATA_FORMAT"@,
        field_name(Field::SPECTRAL_750) != "END_DATA_FORMAT"@,
        field_name(Field::SPECTRAL_750) != "BEGIN_DATA"@,
        field_name(Field::SPECTRAL_750) != "END_DATA"@,
        crate::round_trip::cell_ok(field_name(Field::SPECTRAL_760)),
        field_name(Field::SPECTRAL_760) != "BEGIN_DATA_FORMAT"@,
        field_name(Field::SPECTRAL_760) != "END_DATA_FORMAT"@,
        field_name(Field::SPECTRAL_760) != "BEGIN_DATA"@,
        field_name(Field::SPECTRAL_760) != "END_DATA"@,
{
    reveal_strlit("BEGIN_DATA_FORMAT");
    reveal_strlit("END_DATA_FORMAT");
    reveal_strlit("BEGIN_DATA");
    reveal_strlit("END_DATA");
    reveal_strlit("SPECTRAL_670");
    reveal_strlit("SPECTRAL_680");
    reveal_strlit("SPECTRAL_690");
    reveal_strlit("SPECTRAL_700");
    reveal_strlit("SPECTRAL_710");
    reveal_strlit("SPECTRAL_720");
    reveal_strlit("SPECTRAL_730");
    reveal_strlit("SPECTRAL_740");
    reveal_strlit("SPECTRAL_750");
    reveal_strlit("SPECTRAL_760");
    assert("SPECTRAL_670"@.len() != "BEGIN_DATA_FORMAT"@.len());
    assert("SPECTRAL_670"@.len() != "END_DATA_FORMAT"@.len());
    assert("SPECTRAL_670"@.len() != "BEGIN_DATA"@.len());
    assert("SPECTRAL_670"@.len() != "END_DATA"@.len());
    assert("SPECTRAL_680"@.len() != "BEGIN_DATA_FORMAT"@.len());
    assert("SPECTRAL_680"@.len() != "END_DATA_FORMAT"@.len());
    assert("SPECTRAL_680"@.len() != "BEGIN_DATA"@.len());
    assert("SPECTRAL_680"@.len() != "END_DATA"@.len());
    assert("SPECTRAL_690"@.len() != "BEGIN_DATA_FORMAT"@.len());
    assert("SPECTRAL_690"@.len() != "END_DATA_FORMAT"@.len());
    assert("SPECTRAL_690"@.len() != "BEGIN_DATA"@.len());
    assert("SPECTRAL_690"@.len() != "END_DATA"@.len());
    assert("SPECTRAL_700"@.len() != "BEGIN_DATA_FORMAT"@.len());
    assert("SPECTRAL_700"@.len() != "END_DATA_FORMAT"@.len());
    assert("SPECTRAL_700"@.len() != "BEGIN_DATA"@.len());
    assert("SPECTRAL_700"@.len() != "END_DATA"@.len());
    assert("SPECTRAL_710"@.len() != "BEGIN_DATA_FORMAT"@.len());
    assert("SPECTRAL_710"@.len() != "END_DATA_FORMAT"@.len());
    assert("SPECTRAL_710"@.len() != "BEGIN_DATA"@.len());
    assert("SPECTRAL_710"@.len() != "END_DATA"@.len());
    assert("SPECTRAL_720"@.len() != "BEGIN_DATA_FORMAT"@.len());
    assert("SPECTRAL_720"@.len() != "END_DATA_FORMAT"@.len());
    assert("SPECTRAL_720"@.len() != "BEGIN_DATA"@.len());
    assert("SPECTRAL_720"@.len() != "END_DATA"@.len());
    assert("SPECTRAL_730"@.len() != "BEGIN_DATA_FORMAT"@.len());
    assert("SPECTRAL_730"@.len() != "END_DATA_FORMAT"@.len());
    assert("SPECTRAL_730"@.len() != "BEGIN_DATA"@.len());
    assert("SPECTRAL_730"@.len() != "END_DATA"@.len());
    assert("SPECTRAL_740"@.len() != "BEGIN_DATA_FORMAT"@.len());
    assert("SPECTRAL_740"@.len() != "END_DATA_FORMAT"@.len());
    assert("SPECTRAL_740"@.len() != "BEGIN_DATA"@.len());
    assert("SPECTRAL_740"@.len() != "END_DATA"@.len());
    assert("SPECTRAL_750"@.len() != "BEGIN_DATA_FORMAT"@.len());
    assert("SPECTRAL_750"@.len() != "END_DATA_FORMAT"@.len());
    assert("SPECTRAL_750"@.len() != "BEGIN_DATA"@.len());
    assert("SPECTRAL_750"@.len() != "END_DATA"@.len());
    assert("SPECTRAL_760"@.len() != "BEGIN_DATA_FORMAT"@.len());
    assert("SPECTRAL_760"@.len() != "END_DATA_FORMAT"@.len());
    assert("SPECTRAL_760"@.len() != "BEGIN_DATA"@.len());
    assert("SPECTRAL_760"@.len() != "END_DATA"@.len());
}

#[verifier::spinoff_prover]
#[verifier::rlimit(100)]
proof fn lemma_token_chunk_10()
    ensures
        crate::round_trip::cell_ok(field_name(Field::SPECTRAL_770)),
        field_name(Field::SPECTRAL_770) != "BEGIN_DATA_FORMAT"@,
        field_name(Field::SPECTRAL_770) != "END_DATA_FORMAT"@,
        field_name(Field::SPECTRAL_770) != "BEGIN_DATA"@,
        field_name(Field::SPECTRAL_770) != "END_DATA"@,
        crate::round_trip::cell_ok(field_name(Field::SPECTRAL_780)),
        field_name(Field::SPECTRAL_780) != "BEGIN_DATA_FORMAT"@,
        field_name(Field::SPECTRAL_780) != "END_DATA_FORMAT"@,
        field_name(Field::SPECTRAL_780) != "BEGIN_DATA"@,
        field_name(Field::SPECTRAL_780) != "END_DATA"@,
        crate::round_trip::cell_ok(field_name(Field::SPECTRAL_790)),
        field_name(Field::SPECTRAL_790) != "BEGIN_DATA_FORMAT"@,
        field_name(Field::SPECTRAL_790) != "END_DATA_FORMAT"@,
        field_name(Field::SPECTRAL_790) != "BEGIN_DATA"@,
        field_name(Field::SPECTRAL_790) != "END_DATA"@,
        crate::round_trip::cell_ok(field_name(Field::SPECTRAL_800)),
        field_name(Field::SPECTRAL_800) != "BEGIN_DATA_FORMAT"@,
        field_name(Field::SPECTRAL_800) != "END_DATA_FORMAT"@,
        field_name(Field::SPECTRAL_800) != "BEGIN_DATA"@,
        field_name(Field::SPECTRAL_800) != "END_DATA"@,
        crate::round_trip::cell_ok(field_name(Field::SPECTRAL_810)),
        field_name(Field::SPECTRAL_810) != "BEGIN_DATA_FORMAT"@,
        field_name(Field::SPECTRAL_810) != "END_DATA_FORMAT"@,
        field_name(Field::SPECTRAL_810) != "BEGIN_DATA"@,
        field_name(Field::SPECTRAL_810) != "END_DATA"@,
        crate::round_trip::cell_ok(field_name(Field::SPECTRAL_820)),
        field_name(Field::SPECTRAL_820) != "BEGIN_DATA_FORMAT"@,
        field_name(Field::SPECTRAL_820) != "END_DATA_FORMAT"@,
        field_name(Field::SPECTRAL_820) != "BEGIN_DATA"@,
        field_name(Field::SPECTRAL_820) != "END_DATA"@,
        crate::round_trip::cell_ok(field_name(Field::SPECTRAL_830)),
        field_name(Field::SPECTRAL_830) != "BEGIN_DATA_FORMAT"@,
        field_name(Field::SPECTRAL_830) != "END_DATA_FORMAT"@,
        field_name(Field::SPECTRAL_830) != "BEGIN_DATA"@,
        field_name(Field::SPECTRAL_830) != "END_DATA"@,
{
    reveal_strlit("BEGIN_DATA_FORMAT");
    reveal_strlit("END_DATA_FORMAT");
    reveal_strlit("BEGIN_DATA");
    reveal_strlit("END_DATA");
    reveal_strlit("SPECTRAL_770");
    reveal_strlit("SPECTRAL_780");
    reveal_strlit("SPECTRAL_790");
    reveal_strlit("SPECTRAL_800");
    reveal_strlit("SPECTRAL_810");
    reveal_strlit("SPECTRAL_820");
    reveal_strlit("SPECTRAL_830");
    assert("SPECTRAL_770"@.len() != "BEGIN_DATA_FORMAT"@.len());
    assert("SPECTRAL_770"@.len() != "END_DATA_FORMAT"@.len());
    assert("SPECTRAL_770"@.len() != "BEGIN_DATA"@.len());
    assert("SPECTRAL_770"@.len() != "END_DATA"@.len());
    assert("SPECTRAL_780"@.len() != "BEGIN_DATA_FORMAT"@.len());
    assert("SPECTRAL_780"@.len() != "END_DATA_FORMAT"@.len());
    assert("SPECTRAL_780"@.len() != "BEGIN_DATA"@.len());
    assert("SPECTRAL_780"@.len() != "END_DATA"@.len());
    assert("SPECTRAL_790"@.len() != "BEGIN_DATA_FORMAT"@.len());
    assert("SPECTRAL_790"@.len() != "END_DATA_FORMAT"@.len());
    assert("SPECTRAL_790"@.len() != "BEGIN_DATA"@.len());
    assert("SPECTRAL_790"@.len() != "END_DATA"@.len());
    assert("SPECTRAL_800"@.len() != "BEGIN_DATA_FORMAT"@.len());
    assert("SPECTRAL_800"@.len() != "END_DATA_FORMAT"@.len());
    assert("SPECTRAL_800"@.len() != "BEGIN_DATA"@.len());
    assert("SPECTRAL_800"@.len() != "END_DATA"@.len());
    assert("SPECTRAL_810"@.len() != "BEGIN_DATA_FORMAT"@.len());
    assert("SPECTRAL_810"@.len() != "END_DATA_FORMAT"@.len());
    assert("SPECTRAL_810"@.len() != "BEGIN_DATA"@.len());
    assert("SPECTRAL_810"@.len() != "END_DATA"@.len());
    assert("SPECTRAL_820"@.len() != "BEGIN_DATA_FORMAT"@.len());
    assert("SPECTRAL_820"@.len() != "END_DATA_FORMAT"@.len());
    assert("SPECTRAL_820"@.len() != "BEGIN_DATA"@.len());
    assert("SPECTRAL_820"@.len() != "END_DATA"@.len());
    assert("SPECTRAL_830"@.len() != "BEGIN_DATA_FORMAT"@.len());
    assert("SPECTRAL_830"@.len() != "END_DATA_FORMAT"@.len());
    assert("SPECTRAL_830"@.len() != "BEGIN_DATA"@.len());
    assert("SPECTRAL_830"@.len() != "END_DATA"@.len());
}

/// Every canonical field name is a well-formed cell and is not one of
/// the four bookend tags.
pub proof fn lemma_field_name_token(f: Field)
    ensures
        crate::round_trip::cell_ok(field_name(f)),
        field_name(f) != "BEGIN_DATA_FORMAT"@,
        field_name(f) != "END_DATA_FORMAT"@,
        field_name(f) != "BEGIN_DATA"@,
        field_name(f) != "END_DATA"@,
{
    match f {
        Field::SAMPLE_ID => lemma_token_chunk_0(),
        Field::SAMPLE_NAME => lemma_token_chunk_0(),
        Field::BLANK => lemma_token_chunk_0(),
        Field::RGB_R => lemma_token_chunk_0(),
        Field::RGB_G => lemma_token_chunk_0(),
        Field::RGB_B => lemma_token_chunk_0(),
        Field::CMYK_C => lemma_token_chunk_0(),
        Field::CMYK_M => lemma_token_chunk_0(),
        Field::CMYK_Y => lemma_token_chunk_0(),
        Field::CMYK_K => lemma_token_chunk_0(),
        Field::FIVECLR_1 => lemma_token_chunk_1(),
        Field::FIVECLR_2 => lemma_token_chunk_1(),
        Field::FIVECLR_3 => lemma_token_chunk_1(),
        Field::FIVECLR_4 => lemma_token_chunk_1(),
        Field::FIVECLR_5 => lemma_token_chunk_1(),
        Field::SIXCLR_1 => lemma_token_chunk_1(),
        Field::SIXCLR_2 => lemma_token_chunk_1(),
        Field::SIXCLR_3 => lemma_token_chunk_1(),
        Field::SIXCLR_4 => lemma_token_chunk_1(),
        Field::SIXCLR_5 => lemma_token_chunk_1(),
        Field::SIXCLR_6 => lemma_token_chunk_2(),
        Field::SEVENCLR_1 => lemma_token_chunk_2(),
        Field::SEVENCLR_2 => lemma_token_chunk_2(),
        Field::SEVENCLR_3 => lemma_token_chunk_2(),
        Field::SEVENCLR_4 => lemma_token_chunk_2(),
        Field::SEVENCLR_5 => lemma_token_chunk_2(),
        Field::SEVENCLR_6 => lemma_token_chunk_2(),
        Field::SEVENCLR_7 => lemma_token_chunk_2(),
        Field::EIGHTCLR_1 => lemma_token_chunk_2(),
        Field::EIGHTCLR_2 => lemma_token_chunk_2(),
        Field::EIGHTCLR_3 => lemma_token_chunk_3(),
        Field::EIGHTCLR_4 => lemma_token_chunk_3(),
        Field::EIGHTCLR_5 => lemma_token_chunk_3(),
        Field::EIGHTCLR_6 => lemma_token_chunk_3(),
        Field::EIGHTCLR_7 => lemma_token_chunk_3(),
        Field::EIGHTCLR_8 => lemma_token_chunk_3(),
        Field::D_RED => lemma_token_chunk_3(),
        Field::D_GREEN => lemma_token_chunk_3(),
        Field::D_BLUE => lemma_token_chunk_3(),
        Field::D_VIS => lemma_token_chunk_3(),
        Field::LAB_L => lemma_token_chunk_4(),
        Field::LAB_A => lemma_token_chunk_4(),
        Field::LAB_B => lemma_token_chunk_4(),
        Field::LAB_C => lemma_token_chunk_4(),
        Field::LAB_H => lemma_token_chunk_4(),
        Field::DE_1976 => lemma_token_chunk_4(),
        Field::DE_1994 => lemma_token_chunk_4(),
        Field::DE_1994T => lemma_token_chunk_4(),
        Field::DE_CMC => lemma_token_chunk_4(),
        Field::DE_CMC2 => lemma_token_chunk_4(),
        Field::DE_2000 => lemma_token_chunk_5(),
        Field::XYZ_X => lemma_token_chunk_5(),
        Field::XYZ_Y => lemma_token_chunk_5(),
        Field::XYZ_Z => lemma_token_chunk_5(),
        Field::XYY_X => lemma_token_chunk_5(),
        Field::XYY_Y => lemma_token_chunk_5(),
        Field::XYY_CAPY => lemma_token_chunk_5(),
        Field::SPECTRAL_340 => lemma_token_chunk_5(),
        Field::SPECTRAL_350 => lemma_token_chunk_5(),
        Field::SPECTRAL_360 => lemma_token_chunk_5(),
        Field::SPECTRAL_370 => lemma_token_chunk_6(),
        Field::SPECTRAL_380 => lemma_token_chunk_6(),
        Field::SPECTRAL_390 => lemma_token_chunk_6(),
        Field::SPECTRAL_400 => lemma_token_chunk_6(),
        Field::SPECTRAL_410 => lemma_token_chunk_6(),
        Field::SPECTRAL_420 => lemma_token_chunk_6(),
        Field::SPECTRAL_430 => lemma_token_chunk_6(),
        Field::SPECTRAL_440 => lemma_token_chunk_6(),
        Field::SPECTRAL_450 => lemma_token_chunk_6(),
        Field::SPECTRAL_460 => lemma_token_chunk_6(),
        Field::SPECTRAL_470 => lemma_token_chunk_7(),
        Field::SPECTRAL_480 => lemma_token_chunk_7(),
        Field::SPECTRAL_490 => lemma_token_chunk_7(),
        Field::SPECTRAL_500 => lemma_token_chunk_7(),
        Field::SPECTRAL_510 => lemma_token_chunk_7(),
        Field::SPECTRAL_520 => lemma_token_chunk_7(),
        Field::SPECTRAL_530 => lemma_token_chunk_7(),
        Field::SPECTRAL_540 => lemma_token_chunk_7(),
        Field::SPECTRAL_550 => lemma_token_chunk_7(),
        Field::SPECTRAL_560 => lemma_token_chunk_7(),
        Field::SPECTRAL_570 => lemma_token_chunk_8(),
        Field::SPECTRAL_580 => lemma_token_chunk_8(),
        Field::SPECTRAL_590 => lemma_token_chunk_8(),
        Field::SPECTRAL_600 => lemma_token_chunk_8(),
        Field::SPECTRAL_610 => lemma_token_chunk_8(),
        Field::SPECTRAL_620 => lemma_token_chunk_8(),
        Field::SPECTRAL_630 => lemma_token_chunk_8(),
        Field::SPECTRAL_640 => lemma_token_chunk_8(),
        Field::SPECTRAL_650 => lemma_token_chunk_8(),
        Field::SPECTRAL_660 => lemma_token_chunk_8(),
        Field::SPECTRAL_670 => lemma_token_chunk_9(),
        Field::SPECTRAL_680 => lemma_token_chunk_9(),
        Field::SPECTRAL_690 => lemma_token_chunk_9(),
        Field::SPECTRAL_700 => lemma_token_chunk_9(),
        Field::SPECTRAL_710 => lemma_token_chunk_9(),
        Field::SPECTRAL_720 => lemma_token_chunk_9(),
        Field::SPECTRAL_730 => lemma_token_chunk_9(),
        Field::SPECTRAL_740 => lemma_token_chunk_9(),
        Field::SPECTRAL_750 => lemma_token_chunk_9(),
        Field::SPECTRAL_760 => lemma_token_chunk_9(),
        Field::SPECTRAL_770 => lemma_token_chunk_10(),
        Field::SPECTRAL_780 => lemma_token_chunk_10(),
        Field::SPECTRAL_790 => lemma_token_chunk_10(),
        Field::SPECTRAL_800 => lemma_token_chunk_10(),
        Field::SPECTRAL_810 => lemma_token_chunk_10(),
        Field::SPECTRAL_820 => lemma_token_chunk_10(),
        Field::SPECTRAL_830 => lemma_token_chunk_10(),
    }
}
} // verus!

//! The acquisition driver's enumerated vocabularies.
//!
//! Every vocabulary the driver speaks is a flat integer-keyed enumeration.
//! Each enum below carries a bidirectional lookup: `code` maps a variant to
//! its wire code, and `from_code` maps a wire code back to the variant, with
//! `from_code` returning `None` exactly on the codes outside the vocabulary.

use vstd::prelude::*;

verus! {

#[derive(Clone, Copy, Debug, PartialEq, Eq, Structural, Hash)]
#[allow(non_camel_case_types)]
pub enum MassLynxBaseType {
    SCAN,
    INFO,
    CHROM,
    ANALOG,
    LOCKMASS,
    CENTROID,
    DDA,
    MSE,
}

impl MassLynxBaseType {
    /// The wire code of this variant in the driver's vocabulary.
    pub open spec fn code_spec(self) -> u32 {
        match self {
            MassLynxBaseType::SCAN => 1,
            MassLynxBaseType::INFO => 2,
            MassLynxBaseType::CHROM => 3,
            MassLynxBaseType::ANALOG => 4,
            MassLynxBaseType::LOCKMASS => 5,
            MassLynxBaseType::CENTROID => 6,
            MassLynxBaseType::DDA => 7,
            MassLynxBaseType::MSE => 8,
        }
    }

    pub fn code(&self) -> (c: u32)
        ensures
            c == self.code_spec(),
    {
        match self {
            MassLynxBaseType::SCAN => 1,
            MassLynxBaseType::INFO => 2,
            MassLynxBaseType::CHROM => 3,
            MassLynxBaseType::ANALOG => 4,
            MassLynxBaseType::LOCKMASS => 5,
            MassLynxBaseType::CENTROID => 6,
            MassLynxBaseType::DDA => 7,
            MassLynxBaseType::MSE => 8,
        }
    }

    /// The variant carrying the given wire code, if the code is in the
    /// vocabulary.
    pub open spec fn from_code_spec(value: i32) -> Option<Self> {
        if value == 1 {
            Some(MassLynxBaseType::SCAN)
        } else if value == 2 {
            Some(MassLynxBaseType::INFO)
        } else if value == 3 {
            Some(MassLynxBaseType::CHROM)
        } else if value == 4 {
            Some(MassLynxBaseType::ANALOG)
        } else if value == 5 {
            Some(MassLynxBaseType::LOCKMASS)
        } else if value == 6 {
            Some(MassLynxBaseType::CENTROID)
        } else if value == 7 {
            Some(MassLynxBaseType::DDA)
        } else if value == 8 {
            Some(MassLynxBaseType::MSE)
        } else {
            None
        }
    }

    pub fn from_code(value: i32) -> (r: Option<Self>)
        ensures
            r == Self::from_code_spec(value),
    {
        if value == 1 {
            Some(MassLynxBaseType::SCAN)
        } else if value == 2 {
            Some(MassLynxBaseType::INFO)
        } else if value == 3 {
            Some(MassLynxBaseType::CHROM)
        } else if value == 4 {
            Some(MassLynxBaseType::ANALOG)
        } else if value == 5 {
            Some(MassLynxBaseType::LOCKMASS)
        } else if value == 6 {
            Some(MassLynxBaseType::CENTROID)
        } else if value == 7 {
            Some(MassLynxBaseType::DDA)
        } else if value == 8 {
            Some(MassLynxBaseType::MSE)
        } else {
            None
        }
    }

    /// Wire codes are distinct, so decoding an encoded variant recovers it.
    pub proof fn lemma_code_roundtrip(k: MassLynxBaseType)
        ensures
            MassLynxBaseType::from_code_spec(k.code_spec() as i32) == Some(k),
    {
    }
}

#[derive(Clone, Copy, Debug, PartialEq, Eq, Structural, Hash, Default)]
#[allow(non_camel_case_types)]
pub enum MassLynxIonMode {
    EI_POS,
    EI_NEG,
    CI_POS,
    CI_NEG,
    FB_POS,
    FB_NEG,
    TS_POS,
    TS_NEG,
    ES_POS,
    ES_NEG,
    AI_POS,
    AI_NEG,
    LD_POS,
    LD_NEG,
    #[default]
    UNINITIALISED,
}

impl MassLynxIonMode {
    /// The wire code of this variant in the driver's vocabulary.
    pub open spec fn code_spec(self) -> u32 {
        match self {
            MassLynxIonMode::EI_POS => 100,
            MassLynxIonMode::EI_NEG => 101,
            MassLynxIonMode::CI_POS => 102,
            MassLynxIonMode::CI_NEG => 103,
            MassLynxIonMode::FB_POS => 104,
            MassLynxIonMode::FB_NEG => 105,
            MassLynxIonMode::TS_POS => 106,
            MassLynxIonMode::TS_NEG => 107,
            MassLynxIonMode::ES_POS => 108,
            MassLynxIonMode::ES_NEG => 109,
            MassLynxIonMode::AI_POS => 110,
            MassLynxIonMode::AI_NEG => 111,
            MassLynxIonMode::LD_POS => 112,
            MassLynxIonMode::LD_NEG => 113,
            MassLynxIonMode::UNINITIALISED => 199,
        }
    }

    pub fn code(&self) -> (c: u32)
        ensures
            c == self.code_spec(),
    {
        match self {
            MassLynxIonMode::EI_POS => 100,
            MassLynxIonMode::EI_NEG => 101,
            MassLynxIonMode::CI_POS => 102,
            MassLynxIonMode::CI_NEG => 103,
            MassLynxIonMode::FB_POS => 104,
            MassLynxIonMode::FB_NEG => 105,
            MassLynxIonMode::TS_POS => 106,
            MassLynxIonMode::TS_NEG => 107,
            MassLynxIonMode::ES_POS => 108,
            MassLynxIonMode::ES_NEG => 109,
            MassLynxIonMode::AI_POS => 110,
            MassLynxIonMode::AI_NEG => 111,
            MassLynxIonMode::LD_POS => 112,
            MassLynxIonMode::LD_NEG => 113,
            MassLynxIonMode::UNINITIALISED => 199,
        }
    }

    /// The variant carrying the given wire code, if the code is in the
    /// vocabulary.
    pub open spec fn from_code_spec(value: i32) -> Option<Self> {
        if value == 100 {
            Some(MassLynxIonMode::EI_POS)
        } else if value == 101 {
            Some(MassLynxIonMode::EI_NEG)
        } else if value == 102 {
            Some(MassLynxIonMode::CI_POS)
        } else if value == 103 {
            Some(MassLynxIonMode::CI_NEG)
        } else if value == 104 {
            Some(MassLynxIonMode::FB_POS)
        } else if value == 105 {
            Some(MassLynxIonMode::FB_NEG)
        } else if value == 106 {
            Some(MassLynxIonMode::TS_POS)
        } else if value == 107 {
            Some(MassLynxIonMode::TS_NEG)
        } else if value == 108 {
            Some(MassLynxIonMode::ES_POS)
        } else if value == 109 {
            Some(MassLynxIonMode::ES_NEG)
        } else if value == 110 {
            Some(MassLynxIonMode::AI_POS)
        } else if value == 111 {
            Some(MassLynxIonMode::AI_NEG)
        } else if value == 112 {
            Some(MassLynxIonMode::LD_POS)
        } else if value == 113 {
            Some(MassLynxIonMode::LD_NEG)
        } else if value == 199 {
            Some(MassLynxIonMode::UNINITIALISED)
        } else {
            None
        }
    }

    pub fn from_code(value: i32) -> (r: Option<Self>)
        ensures
            r == Self::from_code_spec(value),
    {
        if value == 100 {
            Some(MassLynxIonMode::EI_POS)
        } else if value == 101 {
            Some(MassLynxIonMode::EI_NEG)
        } else if value == 102 {
            Some(MassLynxIonMode::CI_POS)
        } else if value == 103 {
            Some(MassLynxIonMode::CI_NEG)
        } else if value == 104 {
            Some(MassLynxIonMode::FB_POS)
        } else if value == 105 {
            Some(MassLynxIonMode::FB_NEG)
        } else if value == 106 {
            Some(MassLynxIonMode::TS_POS)
        } else if value == 107 {
            Some(MassLynxIonMode::TS_NEG)
        } else if value == 108 {
            Some(MassLynxIonMode::ES_POS)
        } else if value == 109 {
            Some(MassLynxIonMode::ES_NEG)
        } else if value == 110 {
            Some(MassLynxIonMode::AI_POS)
        } else if value == 111 {
            Some(MassLynxIonMode::AI_NEG)
        } else if value == 112 {
            Some(MassLynxIonMode::LD_POS)
        } else if value == 113 {
            Some(MassLynxIonMode::LD_NEG)
        } else if value == 199 {
            Some(MassLynxIonMode::UNINITIALISED)
        } else {
            None
        }
    }

    /// Wire codes are distinct, so decoding an encoded variant recovers it.
    pub proof fn lemma_code_roundtrip(k: MassLynxIonMode)
        ensures
            MassLynxIonMode::from_code_spec(k.code_spec() as i32) == Some(k),
    {
    }
}

#[derive(Clone, Copy, Debug, PartialEq, Eq, Structural, Hash)]
#[allow(non_camel_case_types)]
pub enum MassLynxFunctionType {
    MS,
    SIR,
    DLY,
    CAT,
    OFF,
    PAR,
    DAU,
    NL,
    NG,
    MRM,
    Q1F,
    MS2,
    DAD,
    TOF,
    PSD,
    TOFS,
    TOFD,
    MTOF,
    TOFM,
    TOFP,
    ASVS,
    ASMS,
    ASVSIR,
    ASMSIR,
    QUADD,
    ASBE,
    ASB2E,
    ASCNL,
    ASMIKES,
    ASMRM,
    ASNRMS,
    ASMRMQ,
    UNINITIALISED,
}

impl MassLynxFunctionType {
    /// The wire code of this variant in the driver's vocabulary.
    pub open spec fn code_spec(self) -> u32 {
        match self {
            MassLynxFunctionType::MS => 200,
            MassLynxFunctionType::SIR => 201,
            MassLynxFunctionType::DLY => 202,
            MassLynxFunctionType::CAT => 203,
            MassLynxFunctionType::OFF => 204,
            MassLynxFunctionType::PAR => 205,
            MassLynxFunctionType::DAU => 206,
            MassLynxFunctionType::NL => 207,
            MassLynxFunctionType::NG => 208,
            MassLynxFunctionType::MRM => 209,
            MassLynxFunctionType::Q1F => 210,
            MassLynxFunctionType::MS2 => 211,
            MassLynxFunctionType::DAD => 212,
            MassLynxFunctionType::TOF => 213,
            MassLynxFunctionType::PSD => 214,
            MassLynxFunctionType::TOFS => 215,
            MassLynxFunctionType::TOFD => 216,
            MassLynxFunctionType::MTOF => 217,
            MassLynxFunctionType::TOFM => 218,
            MassLynxFunctionType::TOFP => 219,
            MassLynxFunctionType::ASVS => 220,
            MassLynxFunctionType::ASMS => 221,
            MassLynxFunctionType::ASVSIR => 222,
            MassLynxFunctionType::ASMSIR => 223,
            MassLynxFunctionType::QUADD => 224,
            MassLynxFunctionType::ASBE => 225,
            MassLynxFunctionType::ASB2E => 226,
            MassLynxFunctionType::ASCNL => 227,
            MassLynxFunctionType::ASMIKES => 228,
            MassLynxFunctionType::ASMRM => 229,
            MassLynxFunctionType::ASNRMS => 230,
            MassLynxFunctionType::ASMRMQ => 231,
            MassLynxFunctionType::UNINITIALISED => 299,
        }
    }

    pub fn code(&self) -> (c: u32)
        ensures
            c == self.code_spec(),
    {
        match self {
            MassLynxFunctionType::MS => 200,
            MassLynxFunctionType::SIR => 201,
            MassLynxFunctionType::DLY => 202,
            MassLynxFunctionType::CAT => 203,
            MassLynxFunctionType::OFF => 204,
            MassLynxFunctionType::PAR => 205,
            MassLynxFunctionType::DAU => 206,
            MassLynxFunctionType::NL => 207,
            MassLynxFunctionType::NG => 208,
            MassLynxFunctionType::MRM => 209,
            MassLynxFunctionType::Q1F => 210,
            MassLynxFunctionType::MS2 => 211,
            MassLynxFunctionType::DAD => 212,
            MassLynxFunctionType::TOF => 213,
            MassLynxFunctionType::PSD => 214,
            MassLynxFunctionType::TOFS => 215,
            MassLynxFunctionType::TOFD => 216,
            MassLynxFunctionType::MTOF => 217,
            MassLynxFunctionType::TOFM => 218,
            MassLynxFunctionType::TOFP => 219,
            MassLynxFunctionType::ASVS => 220,
            MassLynxFunctionType::ASMS => 221,
            MassLynxFunctionType::ASVSIR => 222,
            MassLynxFunctionType::ASMSIR => 223,
            MassLynxFunctionType::QUADD => 224,
            MassLynxFunctionType::ASBE => 225,
            MassLynxFunctionType::ASB2E => 226,
            MassLynxFunctionType::ASCNL => 227,
            MassLynxFunctionType::ASMIKES => 228,
            MassLynxFunctionType::ASMRM => 229,
            MassLynxFunctionType::ASNRMS => 230,
            MassLynxFunctionType::ASMRMQ => 231,
            MassLynxFunctionType::UNINITIALISED => 299,
        }
    }

    /// The variant carrying the given wire code, if the code is in the
    /// vocabulary.
    pub open spec fn from_code_spec(value: i32) -> Option<Self> {
        if value == 200 {
            Some(MassLynxFunctionType::MS)
        } else if value == 201 {
            Some(MassLynxFunctionType::SIR)
        } else if value == 202 {
            Some(MassLynxFunctionType::DLY)
        } else if value == 203 {
            Some(MassLynxFunctionType::CAT)
        } else if value == 204 {
            Some(MassLynxFunctionType::OFF)
        } else if value == 205 {
            Some(MassLynxFunctionType::PAR)
        } else if value == 206 {
            Some(MassLynxFunctionType::DAU)
        } else if value == 207 {
            Some(MassLynxFunctionType::NL)
        } else if value == 208 {
            Some(MassLynxFunctionType::NG)
        } else if value == 209 {
            Some(MassLynxFunctionType::MRM)
        } else if value == 210 {
            Some(MassLynxFunctionType::Q1F)
        } else if value == 211 {
            Some(MassLynxFunctionType::MS2)
        } else if value == 212 {
            Some(MassLynxFunctionType::DAD)
        } else if value == 213 {
            Some(MassLynxFunctionType::TOF)
        } else if value == 214 {
            Some(MassLynxFunctionType::PSD)
        } else if value == 215 {
            Some(MassLynxFunctionType::TOFS)
        } else if value == 216 {
            Some(MassLynxFunctionType::TOFD)
        } else if value == 217 {
            Some(MassLynxFunctionType::MTOF)
        } else if value == 218 {
            Some(MassLynxFunctionType::TOFM)
        } else if value == 219 {
            Some(MassLynxFunctionType::TOFP)
        } else if value == 220 {
            Some(MassLynxFunctionType::ASVS)
        } else if value == 221 {
            Some(MassLynxFunctionType::ASMS)
        } else if value == 222 {
            Some(MassLynxFunctionType::ASVSIR)
        } else if value == 223 {
            Some(MassLynxFunctionType::ASMSIR)
        } else if value == 224 {
            Some(MassLynxFunctionType::QUADD)
        } else if value == 225 {
            Some(MassLynxFunctionType::ASBE)
        } else if value == 226 {
            Some(MassLynxFunctionType::ASB2E)
        } else if value == 227 {
            Some(MassLynxFunctionType::ASCNL)
        } else if value == 228 {
            Some(MassLynxFunctionType::ASMIKES)
        } else if value == 229 {
            Some(MassLynxFunctionType::ASMRM)
        } else if value == 230 {
            Some(MassLynxFunctionType::ASNRMS)
        } else if value == 231 {
            Some(MassLynxFunctionType::ASMRMQ)
        } else if value == 299 {
            Some(MassLynxFunctionType::UNINITIALISED)
        } else {
            None
        }
    }

    pub fn from_code(value: i32) -> (r: Option<Self>)
        ensures
            r == Self::from_code_spec(value),
    {
        if value == 200 {
            Some(MassLynxFunctionType::MS)
        } else if value == 201 {
            Some(MassLynxFunctionType::SIR)
        } else if value == 202 {
            Some(MassLynxFunctionType::DLY)
        } else if value == 203 {
            Some(MassLynxFunctionType::CAT)
        } else if value == 204 {
            Some(MassLynxFunctionType::OFF)
        } else if value == 205 {
            Some(MassLynxFunctionType::PAR)
        } else if value == 206 {
            Some(MassLynxFunctionType::DAU)
        } else if value == 207 {
            Some(MassLynxFunctionType::NL)
        } else if value == 208 {
            Some(MassLynxFunctionType::NG)
        } else if value == 209 {
            Some(MassLynxFunctionType::MRM)
        } else if value == 210 {
            Some(MassLynxFunctionType::Q1F)
        } else if value == 211 {
            Some(MassLynxFunctionType::MS2)
        } else if value == 212 {
            Some(MassLynxFunctionType::DAD)
        } else if value == 213 {
            Some(MassLynxFunctionType::TOF)
        } else if value == 214 {
            Some(MassLynxFunctionType::PSD)
        } else if value == 215 {
            Some(MassLynxFunctionType::TOFS)
        } else if value == 216 {
            Some(MassLynxFunctionType::TOFD)
        } else if value == 217 {
            Some(MassLynxFunctionType::MTOF)
        } else if value == 218 {
            Some(MassLynxFunctionType::TOFM)
        } else if value == 219 {
            Some(MassLynxFunctionType::TOFP)
        } else if value == 220 {
            Some(MassLynxFunctionType::ASVS)
        } else if value == 221 {
            Some(MassLynxFunctionType::ASMS)
        } else if value == 222 {
            Some(MassLynxFunctionType::ASVSIR)
        } else if value == 223 {
            Some(MassLynxFunctionType::ASMSIR)
        } else if value == 224 {
            Some(MassLynxFunctionType::QUADD)
        } else if value == 225 {
            Some(MassLynxFunctionType::ASBE)
        } else if value == 226 {
            Some(MassLynxFunctionType::ASB2E)
        } else if value == 227 {
            Some(MassLynxFunctionType::ASCNL)
        } else if value == 228 {
            Some(MassLynxFunctionType::ASMIKES)
        } else if value == 229 {
            Some(MassLynxFunctionType::ASMRM)
        } else if value == 230 {
            Some(MassLynxFunctionType::ASNRMS)
        } else if value == 231 {
            Some(MassLynxFunctionType::ASMRMQ)
        } else if value == 299 {
            Some(MassLynxFunctionType::UNINITIALISED)
        } else {
            None
        }
    }

    /// Wire codes are distinct, so decoding an encoded variant recovers it.
    pub proof fn lemma_code_roundtrip(k: MassLynxFunctionType)
        ensures
            MassLynxFunctionType::from_code_spec(k.code_spec() as i32) == Some(k),
    {
    }
}

#[derive(Clone, Copy, Debug, PartialEq, Eq, Structural, Hash)]
#[allow(non_camel_case_types)]
pub enum MassLynxHeaderItem {
    VERSION,
    ACQUIRED_NAME,
    ACQUIRED_DATE,
    ACQUIRED_TIME,
    JOB_CODE,
    TASK_CODE,
    USER_NAME,
    INSTRUMENT,
    CONDITIONS,
    LAB_NAME,
    SAMPLE_DESCRIPTION,
    SOLVENT_DELAY,
    SUBMITTER,
    SAMPLE_ID,
    BOTTLE_NUMBER,
    ANALOG_CH1_OFFSET,
    ANALOG_CH2_OFFSET,
    ANALOG_CH3_OFFSET,
    ANALOG_CH4_OFFSET,
    CAL_MS1_STATIC,
    CAL_MS2_STATIC,
    CAL_MS1_STATIC_PARAMS,
    CAL_MS1_DYNAMIC_PARAMS,
    CAL_MS2_STATIC_PARAMS,
    CAL_MS2_DYNAMIC_PARAMS,
    CAL_MS1_FAST_PARAMS,
    CAL_MS2_FAST_PARAMS,
    CAL_TIME,
    CAL_DATE,
    CAL_TEMPERATURE,
    INLET_METHOD,
    SPARE1,
    SPARE2,
    SPARE3,
    SPARE4,
    SPARE5,
}

impl MassLynxHeaderItem {
    /// The wire code of this variant in the driver's vocabulary.
    pub open spec fn code_spec(self) -> u32 {
        match self {
            MassLynxHeaderItem::VERSION => 300,
            MassLynxHeaderItem::ACQUIRED_NAME => 301,
            MassLynxHeaderItem::ACQUIRED_DATE => 302,
            MassLynxHeaderItem::ACQUIRED_TIME => 303,
            MassLynxHeaderItem::JOB_CODE => 304,
            MassLynxHeaderItem::TASK_CODE => 305,
            MassLynxHeaderItem::USER_NAME => 306,
            MassLynxHeaderItem::INSTRUMENT => 307,
            MassLynxHeaderItem::CONDITIONS => 308,
            MassLynxHeaderItem::LAB_NAME => 309,
            MassLynxHeaderItem::SAMPLE_DESCRIPTION => 310,
            MassLynxHeaderItem::SOLVENT_DELAY => 311,
            MassLynxHeaderItem::SUBMITTER => 312,
            MassLynxHeaderItem::SAMPLE_ID => 313,
            MassLynxHeaderItem::BOTTLE_NUMBER => 314,
            MassLynxHeaderItem::ANALOG_CH1_OFFSET => 315,
            MassLynxHeaderItem::ANALOG_CH2_OFFSET => 316,
            MassLynxHeaderItem::ANALOG_CH3_OFFSET => 317,
            MassLynxHeaderItem::ANALOG_CH4_OFFSET => 318,
            MassLynxHeaderItem::CAL_MS1_STATIC => 319,
            MassLynxHeaderItem::CAL_MS2_STATIC => 320,
            MassLynxHeaderItem::CAL_MS1_STATIC_PARAMS => 321,
            MassLynxHeaderItem::CAL_MS1_DYNAMIC_PARAMS => 322,
            MassLynxHeaderItem::CAL_MS2_STATIC_PARAMS => 323,
            MassLynxHeaderItem::CAL_MS2_DYNAMIC_PARAMS => 324,
            MassLynxHeaderItem::CAL_MS1_FAST_PARAMS => 325,
            MassLynxHeaderItem::CAL_MS2_FAST_PARAMS => 326,
            MassLynxHeaderItem::CAL_TIME => 327,
            MassLynxHeaderItem::CAL_DATE => 328,
            MassLynxHeaderItem::CAL_TEMPERATURE => 329,
            MassLynxHeaderItem::INLET_METHOD => 330,
            MassLynxHeaderItem::SPARE1 => 331,
            MassLynxHeaderItem::SPARE2 => 332,
            MassLynxHeaderItem::SPARE3 => 333,
            MassLynxHeaderItem::SPARE4 => 334,
            MassLynxHeaderItem::SPARE5 => 335,
        }
    }

    pub fn code(&self) -> (c: u32)
        ensures
            c == self.code_spec(),
    {
        match self {
            MassLynxHeaderItem::VERSION => 300,
            MassLynxHeaderItem::ACQUIRED_NAME => 301,
            MassLynxHeaderItem::ACQUIRED_DATE => 302,
            MassLynxHeaderItem::ACQUIRED_TIME => 303,
            MassLynxHeaderItem::JOB_CODE => 304,
            MassLynxHeaderItem::TASK_CODE => 305,
            MassLynxHeaderItem::USER_NAME => 306,
            MassLynxHeaderItem::INSTRUMENT => 307,
            MassLynxHeaderItem::CONDITIONS => 308,
            MassLynxHeaderItem::LAB_NAME => 309,
            MassLynxHeaderItem::SAMPLE_DESCRIPTION => 310,
            MassLynxHeaderItem::SOLVENT_DELAY => 311,
            MassLynxHeaderItem::SUBMITTER => 312,
            MassLynxHeaderItem::SAMPLE_ID => 313,
            MassLynxHeaderItem::BOTTLE_NUMBER => 314,
            MassLynxHeaderItem::ANALOG_CH1_OFFSET => 315,
            MassLynxHeaderItem::ANALOG_CH2_OFFSET => 316,
            MassLynxHeaderItem::ANALOG_CH3_OFFSET => 317,
            MassLynxHeaderItem::ANALOG_CH4_OFFSET => 318,
            MassLynxHeaderItem::CAL_MS1_STATIC => 319,
            MassLynxHeaderItem::CAL_MS2_STATIC => 320,
            MassLynxHeaderItem::CAL_MS1_STATIC_PARAMS => 321,
            MassLynxHeaderItem::CAL_MS1_DYNAMIC_PARAMS => 322,
            MassLynxHeaderItem::CAL_MS2_STATIC_PARAMS => 323,
            MassLynxHeaderItem::CAL_MS2_DYNAMIC_PARAMS => 324,
            MassLynxHeaderItem::CAL_MS1_FAST_PARAMS => 325,
            MassLynxHeaderItem::CAL_MS2_FAST_PARAMS => 326,
            MassLynxHeaderItem::CAL_TIME => 327,
            MassLynxHeaderItem::CAL_DATE => 328,
            MassLynxHeaderItem::CAL_TEMPERATURE => 329,
            MassLynxHeaderItem::INLET_METHOD => 330,
            MassLynxHeaderItem::SPARE1 => 331,
            MassLynxHeaderItem::SPARE2 => 332,
            MassLynxHeaderItem::SPARE3 => 333,
            MassLynxHeaderItem::SPARE4 => 334,
            MassLynxHeaderItem::SPARE5 => 335,
        }
    }

    /// The variant carrying the given wire code, if the code is in the
    /// vocabulary.
    pub open spec fn from_code_spec(value: i32) -> Option<Self> {
        if value == 300 {
            Some(MassLynxHeaderItem::VERSION)
        } else if value == 301 {
            Some(MassLynxHeaderItem::ACQUIRED_NAME)
        } else if value == 302 {
            Some(MassLynxHeaderItem::ACQUIRED_DATE)
        } else if value == 303 {
            Some(MassLynxHeaderItem::ACQUIRED_TIME)
        } else if value == 304 {
            Some(MassLynxHeaderItem::JOB_CODE)
        } else if value == 305 {
            Some(MassLynxHeaderItem::TASK_CODE)
        } else if value == 306 {
            Some(MassLynxHeaderItem::USER_NAME)
        } else if value == 307 {
            Some(MassLynxHeaderItem::INSTRUMENT)
        } else if value == 308 {
            Some(MassLynxHeaderItem::CONDITIONS)
        } else if value == 309 {
            Some(MassLynxHeaderItem::LAB_NAME)
        } else if value == 310 {
            Some(MassLynxHeaderItem::SAMPLE_DESCRIPTION)
        } else if value == 311 {
            Some(MassLynxHeaderItem::SOLVENT_DELAY)
        } else if value == 312 {
            Some(MassLynxHeaderItem::SUBMITTER)
        } else if value == 313 {
            Some(MassLynxHeaderItem::SAMPLE_ID)
        } else if value == 314 {
            Some(MassLynxHeaderItem::BOTTLE_NUMBER)
        } else if value == 315 {
            Some(MassLynxHeaderItem::ANALOG_CH1_OFFSET)
        } else if value == 316 {
            Some(MassLynxHeaderItem::ANALOG_CH2_OFFSET)
        } else if value == 317 {
            Some(MassLynxHeaderItem::ANALOG_CH3_OFFSET)
        } else if value == 318 {
            Some(MassLynxHeaderItem::ANALOG_CH4_OFFSET)
        } else if value == 319 {
            Some(MassLynxHeaderItem::CAL_MS1_STATIC)
        } else if value == 320 {
            Some(MassLynxHeaderItem::CAL_MS2_STATIC)
        } else if value == 321 {
            Some(MassLynxHeaderItem::CAL_MS1_STATIC_PARAMS)
        } else if value == 322 {
            Some(MassLynxHeaderItem::CAL_MS1_DYNAMIC_PARAMS)
        } else if value == 323 {
            Some(MassLynxHeaderItem::CAL_MS2_STATIC_PARAMS)
        } else if value == 324 {
            Some(MassLynxHeaderItem::CAL_MS2_DYNAMIC_PARAMS)
        } else if value == 325 {
            Some(MassLynxHeaderItem::CAL_MS1_FAST_PARAMS)
        } else if value == 326 {
            Some(MassLynxHeaderItem::CAL_MS2_FAST_PARAMS)
        } else if value == 327 {
            Some(MassLynxHeaderItem::CAL_TIME)
        } else if value == 328 {
            Some(MassLynxHeaderItem::CAL_DATE)
        } else if value == 329 {
            Some(MassLynxHeaderItem::CAL_TEMPERATURE)
        } else if value == 330 {
            Some(MassLynxHeaderItem::INLET_METHOD)
        } else if value == 331 {
            Some(MassLynxHeaderItem::SPARE1)
        } else if value == 332 {
            Some(MassLynxHeaderItem::SPARE2)
        } else if value == 333 {
            Some(MassLynxHeaderItem::SPARE3)
        } else if value == 334 {
            Some(MassLynxHeaderItem::SPARE4)
        } else if value == 335 {
            Some(MassLynxHeaderItem::SPARE5)
        } else {
            None
        }
    }

    pub fn from_code(value: i32) -> (r: Option<Self>)
        ensures
            r == Self::from_code_spec(value),
    {
        if value == 300 {
            Some(MassLynxHeaderItem::VERSION)
        } else if value == 301 {
            Some(MassLynxHeaderItem::ACQUIRED_NAME)
        } else if value == 302 {
            Some(MassLynxHeaderItem::ACQUIRED_DATE)
        } else if value == 303 {
            Some(MassLynxHeaderItem::ACQUIRED_TIME)
        } else if value == 304 {
            Some(MassLynxHeaderItem::JOB_CODE)
        } else if value == 305 {
            Some(MassLynxHeaderItem::TASK_CODE)
        } else if value == 306 {
            Some(MassLynxHeaderItem::USER_NAME)
        } else if value == 307 {
            Some(MassLynxHeaderItem::INSTRUMENT)
        } else if value == 308 {
            Some(MassLynxHeaderItem::CONDITIONS)
        } else if value == 309 {
            Some(MassLynxHeaderItem::LAB_NAME)
        } else if value == 310 {
            Some(MassLynxHeaderItem::SAMPLE_DESCRIPTION)
        } else if value == 311 {
            Some(MassLynxHeaderItem::SOLVENT_DELAY)
        } else if value == 312 {
            Some(MassLynxHeaderItem::SUBMITTER)
        } else if value == 313 {
            Some(MassLynxHeaderItem::SAMPLE_ID)
        } else if value == 314 {
            Some(MassLynxHeaderItem::BOTTLE_NUMBER)
        } else if value == 315 {
            Some(MassLynxHeaderItem::ANALOG_CH1_OFFSET)
        } else if value == 316 {
            Some(MassLynxHeaderItem::ANALOG_CH2_OFFSET)
        } else if value == 317 {
            Some(MassLynxHeaderItem::ANALOG_CH3_OFFSET)
        } else if value == 318 {
            Some(MassLynxHeaderItem::ANALOG_CH4_OFFSET)
        } else if value == 319 {
            Some(MassLynxHeaderItem::CAL_MS1_STATIC)
        } else if value == 320 {
            Some(MassLynxHeaderItem::CAL_MS2_STATIC)
        } else if value == 321 {
            Some(MassLynxHeaderItem::CAL_MS1_STATIC_PARAMS)
        } else if value == 322 {
            Some(MassLynxHeaderItem::CAL_MS1_DYNAMIC_PARAMS)
        } else if value == 323 {
            Some(MassLynxHeaderItem::CAL_MS2_STATIC_PARAMS)
        } else if value == 324 {
            Some(MassLynxHeaderItem::CAL_MS2_DYNAMIC_PARAMS)
        } else if value == 325 {
            Some(MassLynxHeaderItem::CAL_MS1_FAST_PARAMS)
        } else if value == 326 {
            Some(MassLynxHeaderItem::CAL_MS2_FAST_PARAMS)
        } else if value == 327 {
            Some(MassLynxHeaderItem::CAL_TIME)
        } else if value == 328 {
            Some(MassLynxHeaderItem::CAL_DATE)
        } else if value == 329 {
            Some(MassLynxHeaderItem::CAL_TEMPERATURE)
        } else if value == 330 {
            Some(MassLynxHeaderItem::INLET_METHOD)
        } else if value == 331 {
            Some(MassLynxHeaderItem::SPARE1)
        } else if value == 332 {
            Some(MassLynxHeaderItem::SPARE2)
        } else if value == 333 {
            Some(MassLynxHeaderItem::SPARE3)
        } else if value == 334 {
            Some(MassLynxHeaderItem::SPARE4)
        } else if value == 335 {
            Some(MassLynxHeaderItem::SPARE5)
        } else {
            None
        }
    }

    /// Wire codes are distinct, so decoding an encoded variant recovers it.
    pub proof fn lemma_code_roundtrip(k: MassLynxHeaderItem)
        ensures
            MassLynxHeaderItem::from_code_spec(k.code_spec() as i32) == Some(k),
    {
    }
}

#[derive(Clone, Copy, Debug, PartialEq, Eq, Structural, Hash)]
#[allow(non_camel_case_types)]
pub enum MassLynxScanItem {
    LINEAR_DETECTOR_VOLTAGE,
    LINEAR_SENSITIVITY,
    REFLECTRON_LENS_VOLTAGE,
    REFLECTRON_DETECTOR_VOLTAGE,
    REFLECTRON_SENSITIVITY,
    LASER_REPETITION_RATE,
    COURSE_LASER_CONTROL,
    FINE_LASER_CONTROL,
    LASERAIM_XPOS,
    LASERAIM_YPOS,
    NUM_SHOTS_SUMMED,
    NUM_SHOTS_PERFORMED,
    SEGMENT_NUMBER,
    LCMP_TFM_WELL,
    SEGMENT_TYPE,
    SOURCE_REGION1,
    SOURCE_REGION2,
    REFLECTRON_FIELD_LENGTH,
    REFLECTRON_LENGTH,
    REFLECTRON_VOLT,
    SAMPLE_PLATE_VOLT,
    REFLECTRON_FIELD_LENGTH_ALT,
    REFLECTRON_LENGTH_ALT,
    PSD_STEP_MAJOR,
    PSD_STEP_MINOR,
    PSD_FACTOR_1,
    NEEDLE,
    COUNTER_ELECTRODE_VOLTAGE,
    SAMPLING_CONE_VOLTAGE,
    SKIMMER_LENS,
    SKIMMER,
    PROBE_TEMPERATURE,
    SOURCE_TEMPERATURE,
    RF_VOLTAGE,
    SOURCE_APERTURE,
    SOURCE_CODE,
    LM_RESOLUTION,
    HM_RESOLUTION,
    COLLISION_ENERGY,
    ION_ENERGY,
    MULTIPLIER1,
    MULTIPLIER2,
    TRANSPORTDC,
    TOF_APERTURE,
    ACC_VOLTAGE,
    STEERING,
    FOCUS,
    ENTRANCE,
    GUARD,
    TOF,
    REFLECTRON,
    COLLISION_RF,
    TRANSPORT_RF,
    SET_MASS,
    COLLISION_ENERGY2,
    SET_MASS_CALL_SUPPORTED,
    SET_MASS_CALIBRATED,
    SONAR_ENABLED,
    QUAD_START_MASS,
    QUAD_STOP_MASS,
    QUAD_PEAK_WIDTH,
    REFERENCE_SCAN,
    USE_LOCKMASS_CORRECTION,
    LOCKMASS_CORRECTION,
    USETEMP_CORRECTION,
    TEMP_CORRECTION,
    TEMP_COEFFICIENT,
    FAIMS_COMPENSATION_VOLTAGE,
    TIC_TRACE_A,
    TIC_TRACE_B,
    RAW_EE_CV,
    RAW_EE_CE,
    ACCURATE_MASS,
    ACCURATE_MASS_FLAGS,
    SCAN_ERROR_FLAG,
    DRE_TRANSMISSION,
    SCAN_PUSH_COUNT,
    RAW_STAT_SWAVE_NORMALISATION_FACTOR,
    MIN_DRIFT_TIME_CHANNEL,
    MAX_DRIFT_TIME_CHANNEL,
    TOTAL_ION_CURRENT,
    BASE_PEAK_MASS,
    BASE_PEAK_INTENSITY,
    PEAKS_IN_SCAN,
    UNINITIALISED,
}

impl MassLynxScanItem {
    /// The wire code of this variant in the driver's vocabulary.
    pub open spec fn code_spec(self) -> u32 {
        match self {
            MassLynxScanItem::LINEAR_DETECTOR_VOLTAGE => 400,
            MassLynxScanItem::LINEAR_SENSITIVITY => 401,
            MassLynxScanItem::REFLECTRON_LENS_VOLTAGE => 402,
            MassLynxScanItem::REFLECTRON_DETECTOR_VOLTAGE => 403,
            MassLynxScanItem::REFLECTRON_SENSITIVITY => 404,
            MassLynxScanItem::LASER_REPETITION_RATE => 405,
            MassLynxScanItem::COURSE_LASER_CONTROL => 406,
            MassLynxScanItem::FINE_LASER_CONTROL => 407,
            MassLynxScanItem::LASERAIM_XPOS => 408,
            MassLynxScanItem::LASERAIM_YPOS => 409,
            MassLynxScanItem::NUM_SHOTS_SUMMED => 410,
            MassLynxScanItem::NUM_SHOTS_PERFORMED => 411,
            MassLynxScanItem::SEGMENT_NUMBER => 412,
            MassLynxScanItem::LCMP_TFM_WELL => 413,
            MassLynxScanItem::SEGMENT_TYPE => 414,
            MassLynxScanItem::SOURCE_REGION1 => 415,
            MassLynxScanItem::SOURCE_REGION2 => 416,
            MassLynxScanItem::REFLECTRON_FIELD_LENGTH => 417,
            MassLynxScanItem::REFLECTRON_LENGTH => 418,
            MassLynxScanItem::REFLECTRON_VOLT => 419,
            MassLynxScanItem::SAMPLE_PLATE_VOLT => 420,
            MassLynxScanItem::REFLECTRON_FIELD_LENGTH_ALT => 421,
            MassLynxScanItem::REFLECTRON_LENGTH_ALT => 422,
            MassLynxScanItem::PSD_STEP_MAJOR => 423,
            MassLynxScanItem::PSD_STEP_MINOR => 424,
            MassLynxScanItem::PSD_FACTOR_1 => 425,
            MassLynxScanItem::NEEDLE => 449,
            MassLynxScanItem::COUNTER_ELECTRODE_VOLTAGE => 450,
            MassLynxScanItem::SAMPLING_CONE_VOLTAGE => 451,
            MassLynxScanItem::SKIMMER_LENS => 452,
            MassLynxScanItem::SKIMMER => 453,
            MassLynxScanItem::PROBE_TEMPERATURE => 454,
            MassLynxScanItem::SOURCE_TEMPERATURE => 455,
            MassLynxScanItem::RF_VOLTAGE => 456,
            MassLynxScanItem::SOURCE_APERTURE => 457,
            MassLynxScanItem::SOURCE_CODE => 458,
            MassLynxScanItem::LM_RESOLUTION => 459,
            MassLynxScanItem::HM_RESOLUTION => 460,
            MassLynxScanItem::COLLISION_ENERGY => 461,
            MassLynxScanItem::ION_ENERGY => 462,
            MassLynxScanItem::MULTIPLIER1 => 463,
            MassLynxScanItem::MULTIPLIER2 => 464,
            MassLynxScanItem::TRANSPORTDC => 465,
            MassLynxScanItem::TOF_APERTURE => 466,
            MassLynxScanItem::ACC_VOLTAGE => 467,
            MassLynxScanItem::STEERING => 468,
            MassLynxScanItem::FOCUS => 469,
            MassLynxScanItem::ENTRANCE => 470,
            MassLynxScanItem::GUARD => 471,
            MassLynxScanItem::TOF => 472,
            MassLynxScanItem::REFLECTRON => 473,
            MassLynxScanItem::COLLISION_RF => 474,
            MassLynxScanItem::TRANSPORT_RF => 475,
            MassLynxScanItem::SET_MASS => 476,
            MassLynxScanItem::COLLISION_ENERGY2 => 477,
            MassLynxScanItem::SET_MASS_CALL_SUPPORTED => 478,
            MassLynxScanItem::SET_MASS_CALIBRATED => 479,
            MassLynxScanItem::SONAR_ENABLED => 480,
            MassLynxScanItem::QUAD_START_MASS => 481,
            MassLynxScanItem::QUAD_STOP_MASS => 482,
            MassLynxScanItem::QUAD_PEAK_WIDTH => 483,
            MassLynxScanItem::REFERENCE_SCAN => 499,
            MassLynxScanItem::USE_LOCKMASS_CORRECTION => 500,
            MassLynxScanItem::LOCKMASS_CORRECTION => 501,
            MassLynxScanItem::USETEMP_CORRECTION => 502,
            MassLynxScanItem::TEMP_CORRECTION => 503,
            MassLynxScanItem::TEMP_COEFFICIENT => 504,
            MassLynxScanItem::FAIMS_COMPENSATION_VOLTAGE => 505,
            MassLynxScanItem::TIC_TRACE_A => 506,
            MassLynxScanItem::TIC_TRACE_B => 507,
            MassLynxScanItem::RAW_EE_CV => 508,
            MassLynxScanItem::RAW_EE_CE => 510,
            MassLynxScanItem::ACCURATE_MASS => 511,
            MassLynxScanItem::ACCURATE_MASS_FLAGS => 512,
            MassLynxScanItem::SCAN_ERROR_FLAG => 513,
            MassLynxScanItem::DRE_TRANSMISSION => 514,
            MassLynxScanItem::SCAN_PUSH_COUNT => 515,
            MassLynxScanItem::RAW_STAT_SWAVE_NORMALISATION_FACTOR => 516,
            MassLynxScanItem::MIN_DRIFT_TIME_CHANNEL => 521,
            MassLynxScanItem::MAX_DRIFT_TIME_CHANNEL => 522,
            MassLynxScanItem::TOTAL_ION_CURRENT => 651,
            MassLynxScanItem::BASE_PEAK_MASS => 652,
            MassLynxScanItem::BASE_PEAK_INTENSITY => 653,
            MassLynxScanItem::PEAKS_IN_SCAN => 654,
            MassLynxScanItem::UNINITIALISED => 698,
        }
    }

    pub fn code(&self) -> (c: u32)
        ensures
            c == self.code_spec(),
    {
        match self {
            MassLynxScanItem::LINEAR_DETECTOR_VOLTAGE => 400,
            MassLynxScanItem::LINEAR_SENSITIVITY => 401,
            MassLynxScanItem::REFLECTRON_LENS_VOLTAGE => 402,
            MassLynxScanItem::REFLECTRON_DETECTOR_VOLTAGE => 403,
            MassLynxScanItem::REFLECTRON_SENSITIVITY => 404,
            MassLynxScanItem::LASER_REPETITION_RATE => 405,
            MassLynxScanItem::COURSE_LASER_CONTROL => 406,
            MassLynxScanItem::FINE_LASER_CONTROL => 407,
            MassLynxScanItem::LASERAIM_XPOS => 408,
            MassLynxScanItem::LASERAIM_YPOS => 409,
            MassLynxScanItem::NUM_SHOTS_SUMMED => 410,
            MassLynxScanItem::NUM_SHOTS_PERFORMED => 411,
            MassLynxScanItem::SEGMENT_NUMBER => 412,
            MassLynxScanItem::LCMP_TFM_WELL => 413,
            MassLynxScanItem::SEGMENT_TYPE => 414,
            MassLynxScanItem::SOURCE_REGION1 => 415,
            MassLynxScanItem::SOURCE_REGION2 => 416,
            MassLynxScanItem::REFLECTRON_FIELD_LENGTH => 417,
            MassLynxScanItem::REFLECTRON_LENGTH => 418,
            MassLynxScanItem::REFLECTRON_VOLT => 419,
            MassLynxScanItem::SAMPLE_PLATE_VOLT => 420,
            MassLynxScanItem::REFLECTRON_FIELD_LENGTH_ALT => 421,
            MassLynxScanItem::REFLECTRON_LENGTH_ALT => 422,
            MassLynxScanItem::PSD_STEP_MAJOR => 423,
            MassLynxScanItem::PSD_STEP_MINOR => 424,
            MassLynxScanItem::PSD_FACTOR_1 => 425,
            MassLynxScanItem::NEEDLE => 449,
            MassLynxScanItem::COUNTER_ELECTRODE_VOLTAGE => 450,
            MassLynxScanItem::SAMPLING_CONE_VOLTAGE => 451,
            MassLynxScanItem::SKIMMER_LENS => 452,
            MassLynxScanItem::SKIMMER => 453,
            MassLynxScanItem::PROBE_TEMPERATURE => 454,
            MassLynxScanItem::SOURCE_TEMPERATURE => 455,
            MassLynxScanItem::RF_VOLTAGE => 456,
            MassLynxScanItem::SOURCE_APERTURE => 457,
            MassLynxScanItem::SOURCE_CODE => 458,
            MassLynxScanItem::LM_RESOLUTION => 459,
            MassLynxScanItem::HM_RESOLUTION => 460,
            MassLynxScanItem::COLLISION_ENERGY => 461,
            MassLynxScanItem::ION_ENERGY => 462,
            MassLynxScanItem::MULTIPLIER1 => 463,
            MassLynxScanItem::MULTIPLIER2 => 464,
            MassLynxScanItem::TRANSPORTDC => 465,
            MassLynxScanItem::TOF_APERTURE => 466,
            MassLynxScanItem::ACC_VOLTAGE => 467,
            MassLynxScanItem::STEERING => 468,
            MassLynxScanItem::FOCUS => 469,
            MassLynxScanItem::ENTRANCE => 470,
            MassLynxScanItem::GUARD => 471,
            MassLynxScanItem::TOF => 472,
            MassLynxScanItem::REFLECTRON => 473,
            MassLynxScanItem::COLLISION_RF => 474,
            MassLynxScanItem::TRANSPORT_RF => 475,
            MassLynxScanItem::SET_MASS => 476,
            MassLynxScanItem::COLLISION_ENERGY2 => 477,
            MassLynxScanItem::SET_MASS_CALL_SUPPORTED => 478,
            MassLynxScanItem::SET_MASS_CALIBRATED => 479,
            MassLynxScanItem::SONAR_ENABLED => 480,
            MassLynxScanItem::QUAD_START_MASS => 481,
            MassLynxScanItem::QUAD_STOP_MASS => 482,
            MassLynxScanItem::QUAD_PEAK_WIDTH => 483,
            MassLynxScanItem::REFERENCE_SCAN => 499,
            MassLynxScanItem::USE_LOCKMASS_CORRECTION => 500,
            MassLynxScanItem::LOCKMASS_CORRECTION => 501,
            MassLynxScanItem::USETEMP_CORRECTION => 502,
            MassLynxScanItem::TEMP_CORRECTION => 503,
            MassLynxScanItem::TEMP_COEFFICIENT => 504,
            MassLynxScanItem::FAIMS_COMPENSATION_VOLTAGE => 505,
            MassLynxScanItem::TIC_TRACE_A => 506,
            MassLynxScanItem::TIC_TRACE_B => 507,
            MassLynxScanItem::RAW_EE_CV => 508,
            MassLynxScanItem::RAW_EE_CE => 510,
            MassLynxScanItem::ACCURATE_MASS => 511,
            MassLynxScanItem::ACCURATE_MASS_FLAGS => 512,
            MassLynxScanItem::SCAN_ERROR_FLAG => 513,
            MassLynxScanItem::DRE_TRANSMISSION => 514,
            MassLynxScanItem::SCAN_PUSH_COUNT => 515,
            MassLynxScanItem::RAW_STAT_SWAVE_NORMALISATION_FACTOR => 516,
            MassLynxScanItem::MIN_DRIFT_TIME_CHANNEL => 521,
            MassLynxScanItem::MAX_DRIFT_TIME_CHANNEL => 522,
            MassLynxScanItem::TOTAL_ION_CURRENT => 651,
            MassLynxScanItem::BASE_PEAK_MASS => 652,
            MassLynxScanItem::BASE_PEAK_INTENSITY => 653,
            MassLynxScanItem::PEAKS_IN_SCAN => 654,
            MassLynxScanItem::UNINITIALISED => 698,
        }
    }

    /// The variant carrying the given wire code, if the code is in the
    /// vocabulary.
    pub open spec fn from_code_spec(value: i32) -> Option<Self> {
        if value == 400 {
            Some(MassLynxScanItem::LINEAR_DETECTOR_VOLTAGE)
        } else if value == 401 {
            Some(MassLynxScanItem::LINEAR_SENSITIVITY)
        } else if value == 402 {
            Some(MassLynxScanItem::REFLECTRON_LENS_VOLTAGE)
        } else if value == 403 {
            Some(MassLynxScanItem::REFLECTRON_DETECTOR_VOLTAGE)
        } else if value == 404 {
            Some(MassLynxScanItem::REFLECTRON_SENSITIVITY)
        } else if value == 405 {
            Some(MassLynxScanItem::LASER_REPETITION_RATE)
        } else if value == 406 {
            Some(MassLynxScanItem::COURSE_LASER_CONTROL)
        } else if value == 407 {
            Some(MassLynxScanItem::FINE_LASER_CONTROL)
        } else if value == 408 {
            Some(MassLynxScanItem::LASERAIM_XPOS)
        } else if value == 409 {
            Some(MassLynxScanItem::LASERAIM_YPOS)
        } else if value == 410 {
            Some(MassLynxScanItem::NUM_SHOTS_SUMMED)
        } else if value == 411 {
            Some(MassLynxScanItem::NUM_SHOTS_PERFORMED)
        } else if value == 412 {
            Some(MassLynxScanItem::SEGMENT_NUMBER)
        } else if value == 413 {
            Some(MassLynxScanItem::LCMP_TFM_WELL)
        } else if value == 414 {
            Some(MassLynxScanItem::SEGMENT_TYPE)
        } else if value == 415 {
            Some(MassLynxScanItem::SOURCE_REGION1)
        } else if value == 416 {
            Some(MassLynxScanItem::SOURCE_REGION2)
        } else if value == 417 {
            Some(MassLynxScanItem::REFLECTRON_FIELD_LENGTH)
        } else if value == 418 {
            Some(MassLynxScanItem::REFLECTRON_LENGTH)
        } else if value == 419 {
            Some(MassLynxScanItem::REFLECTRON_VOLT)
        } else if value == 420 {
            Some(MassLynxScanItem::SAMPLE_PLATE_VOLT)
        } else if value == 421 {
            Some(MassLynxScanItem::REFLECTRON_FIELD_LENGTH_ALT)
        } else if value == 422 {
            Some(MassLynxScanItem::REFLECTRON_LENGTH_ALT)
        } else if value == 423 {
            Some(MassLynxScanItem::PSD_STEP_MAJOR)
        } else if value == 424 {
            Some(MassLynxScanItem::PSD_STEP_MINOR)
        } else if value == 425 {
            Some(MassLynxScanItem::PSD_FACTOR_1)
        } else if value == 449 {
            Some(MassLynxScanItem::NEEDLE)
        } else if value == 450 {
            Some(MassLynxScanItem::COUNTER_ELECTRODE_VOLTAGE)
        } else if value == 451 {
            Some(MassLynxScanItem::SAMPLING_CONE_VOLTAGE)
        } else if value == 452 {
            Some(MassLynxScanItem::SKIMMER_LENS)
        } else if value == 453 {
            Some(MassLynxScanItem::SKIMMER)
        } else if value == 454 {
            Some(MassLynxScanItem::PROBE_TEMPERATURE)
        } else if value == 455 {
            Some(MassLynxScanItem::SOURCE_TEMPERATURE)
        } else if value == 456 {
            Some(MassLynxScanItem::RF_VOLTAGE)
        } else if value == 457 {
            Some(MassLynxScanItem::SOURCE_APERTURE)
        } else if value == 458 {
            Some(MassLynxScanItem::SOURCE_CODE)
        } else if value == 459 {
            Some(MassLynxScanItem::LM_RESOLUTION)
        } else if value == 460 {
            Some(MassLynxScanItem::HM_RESOLUTION)
        } else if value == 461 {
            Some(MassLynxScanItem::COLLISION_ENERGY)
        } else if value == 462 {
            Some(MassLynxScanItem::ION_ENERGY)
        } else if value == 463 {
            Some(MassLynxScanItem::MULTIPLIER1)
        } else if value == 464 {
            Some(MassLynxScanItem::MULTIPLIER2)
        } else if value == 465 {
            Some(MassLynxScanItem::TRANSPORTDC)
        } else if value == 466 {
            Some(MassLynxScanItem::TOF_APERTURE)
        } else if value == 467 {
            Some(MassLynxScanItem::ACC_VOLTAGE)
        } else if value == 468 {
            Some(MassLynxScanItem::STEERING)
        } else if value == 469 {
            Some(MassLynxScanItem::FOCUS)
        } else if value == 470 {
            Some(MassLynxScanItem::ENTRANCE)
        } else if value == 471 {
            Some(MassLynxScanItem::GUARD)
        } else if value == 472 {
            Some(MassLynxScanItem::TOF)
        } else if value == 473 {
            Some(MassLynxScanItem::REFLECTRON)
        } else if value == 474 {
            Some(MassLynxScanItem::COLLISION_RF)
        } else if value == 475 {
            Some(MassLynxScanItem::TRANSPORT_RF)
        } else if value == 476 {
            Some(MassLynxScanItem::SET_MASS)
        } else if value == 477 {
            Some(MassLynxScanItem::COLLISION_ENERGY2)
        } else if value == 478 {
            Some(MassLynxScanItem::SET_MASS_CALL_SUPPORTED)
        } else if value == 479 {
            Some(MassLynxScanItem::SET_MASS_CALIBRATED)
        } else if value == 480 {
            Some(MassLynxScanItem::SONAR_ENABLED)
        } else if value == 481 {
            Some(MassLynxScanItem::QUAD_START_MASS)
        } else if value == 482 {
            Some(MassLynxScanItem::QUAD_STOP_MASS)
        } else if value == 483 {
            Some(MassLynxScanItem::QUAD_PEAK_WIDTH)
        } else if value == 499 {
            Some(MassLynxScanItem::REFERENCE_SCAN)
        } else if value == 500 {
            Some(MassLynxScanItem::USE_LOCKMASS_CORRECTION)
        } else if value == 501 {
            Some(MassLynxScanItem::LOCKMASS_CORRECTION)
        } else if value == 502 {
            Some(MassLynxScanItem::USETEMP_CORRECTION)
        } else if value == 503 {
            Some(MassLynxScanItem::TEMP_CORRECTION)
        } else if value == 504 {
            Some(MassLynxScanItem::TEMP_COEFFICIENT)
        } else if value == 505 {
            Some(MassLynxScanItem::FAIMS_COMPENSATION_VOLTAGE)
        } else if value == 506 {
            Some(MassLynxScanItem::TIC_TRACE_A)
        } else if value == 507 {
            Some(MassLynxScanItem::TIC_TRACE_B)
        } else if value == 508 {
            Some(MassLynxScanItem::RAW_EE_CV)
        } else if value == 510 {
            Some(MassLynxScanItem::RAW_EE_CE)
        } else if value == 511 {
            Some(MassLynxScanItem::ACCURATE_MASS)
        } else if value == 512 {
            Some(MassLynxScanItem::ACCURATE_MASS_FLAGS)
        } else if value == 513 {
            Some(MassLynxScanItem::SCAN_ERROR_FLAG)
        } else if value == 514 {
            Some(MassLynxScanItem::DRE_TRANSMISSION)
        } else if value == 515 {
            Some(MassLynxScanItem::SCAN_PUSH_COUNT)
        } else if value == 516 {
            Some(MassLynxScanItem::RAW_STAT_SWAVE_NORMALISATION_FACTOR)
        } else if value == 521 {
            Some(MassLynxScanItem::MIN_DRIFT_TIME_CHANNEL)
        } else if value == 522 {
            Some(MassLynxScanItem::MAX_DRIFT_TIME_CHANNEL)
        } else if value == 651 {
            Some(MassLynxScanItem::TOTAL_ION_CURRENT)
        } else if value == 652 {
            Some(MassLynxScanItem::BASE_PEAK_MASS)
        } else if value == 653 {
            Some(MassLynxScanItem::BASE_PEAK_INTENSITY)
        } else if value == 654 {
            Some(MassLynxScanItem::PEAKS_IN_SCAN)
        } else if value == 698 {
            Some(MassLynxScanItem::UNINITIALISED)
        } else {
            None
        }
    }

    pub fn from_code(value: i32) -> (r: Option<Self>)
        ensures
            r == Self::from_code_spec(value),
    {
        if value == 400 {
            Some(MassLynxScanItem::LINEAR_DETECTOR_VOLTAGE)
        } else if value == 401 {
            Some(MassLynxScanItem::LINEAR_SENSITIVITY)
        } else if value == 402 {
            Some(MassLynxScanItem::REFLECTRON_LENS_VOLTAGE)
        } else if value == 403 {
            Some(MassLynxScanItem::REFLECTRON_DETECTOR_VOLTAGE)
        } else if value == 404 {
            Some(MassLynxScanItem::REFLECTRON_SENSITIVITY)
        } else if value == 405 {
            Some(MassLynxScanItem::LASER_REPETITION_RATE)
        } else if value == 406 {
            Some(MassLynxScanItem::COURSE_LASER_CONTROL)
        } else if value == 407 {
            Some(MassLynxScanItem::FINE_LASER_CONTROL)
        } else if value == 408 {
            Some(MassLynxScanItem::LASERAIM_XPOS)
        } else if value == 409 {
            Some(MassLynxScanItem::LASERAIM_YPOS)
        } else if value == 410 {
            Some(MassLynxScanItem::NUM_SHOTS_SUMMED)
        } else if value == 411 {
            Some(MassLynxScanItem::NUM_SHOTS_PERFORMED)
        } else if value == 412 {
            Some(MassLynxScanItem::SEGMENT_NUMBER)
        } else if value == 413 {
            Some(MassLynxScanItem::LCMP_TFM_WELL)
        } else if value == 414 {
            Some(MassLynxScanItem::SEGMENT_TYPE)
        } else if value == 415 {
            Some(MassLynxScanItem::SOURCE_REGION1)
        } else if value == 416 {
            Some(MassLynxScanItem::SOURCE_REGION2)
        } else if value == 417 {
            Some(MassLynxScanItem::REFLECTRON_FIELD_LENGTH)
        } else if value == 418 {
            Some(MassLynxScanItem::REFLECTRON_LENGTH)
        } else if value == 419 {
            Some(MassLynxScanItem::REFLECTRON_VOLT)
        } else if value == 420 {
            Some(MassLynxScanItem::SAMPLE_PLATE_VOLT)
        } else if value == 421 {
            Some(MassLynxScanItem::REFLECTRON_FIELD_LENGTH_ALT)
        } else if value == 422 {
            Some(MassLynxScanItem::REFLECTRON_LENGTH_ALT)
        } else if value == 423 {
            Some(MassLynxScanItem::PSD_STEP_MAJOR)
        } else if value == 424 {
            Some(MassLynxScanItem::PSD_STEP_MINOR)
        } else if value == 425 {
            Some(MassLynxScanItem::PSD_FACTOR_1)
        } else if value == 449 {
            Some(MassLynxScanItem::NEEDLE)
        } else if value == 450 {
            Some(MassLynxScanItem::COUNTER_ELECTRODE_VOLTAGE)
        } else if value == 451 {
            Some(MassLynxScanItem::SAMPLING_CONE_VOLTAGE)
        } else if value == 452 {
            Some(MassLynxScanItem::SKIMMER_LENS)
        } else if value == 453 {
            Some(MassLynxScanItem::SKIMMER)
        } else if value == 454 {
            Some(MassLynxScanItem::PROBE_TEMPERATURE)
        } else if value == 455 {
            Some(MassLynxScanItem::SOURCE_TEMPERATURE)
        } else if value == 456 {
            Some(MassLynxScanItem::RF_VOLTAGE)
        } else if value == 457 {
            Some(MassLynxScanItem::SOURCE_APERTURE)
        } else if value == 458 {
            Some(MassLynxScanItem::SOURCE_CODE)
        } else if value == 459 {
            Some(MassLynxScanItem::LM_RESOLUTION)
        } else if value == 460 {
            Some(MassLynxScanItem::HM_RESOLUTION)
        } else if value == 461 {
            Some(MassLynxScanItem::COLLISION_ENERGY)
        } else if value == 462 {
            Some(MassLynxScanItem::ION_ENERGY)
        } else if value == 463 {
            Some(MassLynxScanItem::MULTIPLIER1)
        } else if value == 464 {
            Some(MassLynxScanItem::MULTIPLIER2)
        } else if value == 465 {
            Some(MassLynxScanItem::TRANSPORTDC)
        } else if value == 466 {
            Some(MassLynxScanItem::TOF_APERTURE)
        } else if value == 467 {
            Some(MassLynxScanItem::ACC_VOLTAGE)
        } else if value == 468 {
            Some(MassLynxScanItem::STEERING)
        } else if value == 469 {
            Some(MassLynxScanItem::FOCUS)
        } else if value == 470 {
            Some(MassLynxScanItem::ENTRANCE)
        } else if value == 471 {
            Some(MassLynxScanItem::GUARD)
        } else if value == 472 {
            Some(MassLynxScanItem::TOF)
        } else if value == 473 {
            Some(MassLynxScanItem::REFLECTRON)
        } else if value == 474 {
            Some(MassLynxScanItem::COLLISION_RF)
        } else if value == 475 {
            Some(MassLynxScanItem::TRANSPORT_RF)
        } else if value == 476 {
            Some(MassLynxScanItem::SET_MASS)
        } else if value == 477 {
            Some(MassLynxScanItem::COLLISION_ENERGY2)
        } else if value == 478 {
            Some(MassLynxScanItem::SET_MASS_CALL_SUPPORTED)
        } else if value == 479 {
            Some(MassLynxScanItem::SET_MASS_CALIBRATED)
        } else if value == 480 {
            Some(MassLynxScanItem::SONAR_ENABLED)
        } else if value == 481 {
            Some(MassLynxScanItem::QUAD_START_MASS)
        } else if value == 482 {
            Some(MassLynxScanItem::QUAD_STOP_MASS)
        } else if value == 483 {
            Some(MassLynxScanItem::QUAD_PEAK_WIDTH)
        } else if value == 499 {
            Some(MassLynxScanItem::REFERENCE_SCAN)
        } else if value == 500 {
            Some(MassLynxScanItem::USE_LOCKMASS_CORRECTION)
        } else if value == 501 {
            Some(MassLynxScanItem::LOCKMASS_CORRECTION)
        } else if value == 502 {
            Some(MassLynxScanItem::USETEMP_CORRECTION)
        } else if value == 503 {
            Some(MassLynxScanItem::TEMP_CORRECTION)
        } else if value == 504 {
            Some(MassLynxScanItem::TEMP_COEFFICIENT)
        } else if value == 505 {
            Some(MassLynxScanItem::FAIMS_COMPENSATION_VOLTAGE)
        } else if value == 506 {
            Some(MassLynxScanItem::TIC_TRACE_A)
        } else if value == 507 {
            Some(MassLynxScanItem::TIC_TRACE_B)
        } else if value == 508 {
            Some(MassLynxScanItem::RAW_EE_CV)
        } else if value == 510 {
            Some(MassLynxScanItem::RAW_EE_CE)
        } else if value == 511 {
            Some(MassLynxScanItem::ACCURATE_MASS)
        } else if value == 512 {
            Some(MassLynxScanItem::ACCURATE_MASS_FLAGS)
        } else if value == 513 {
            Some(MassLynxScanItem::SCAN_ERROR_FLAG)
        } else if value == 514 {
            Some(MassLynxScanItem::DRE_TRANSMISSION)
        } else if value == 515 {
            Some(MassLynxScanItem::SCAN_PUSH_COUNT)
        } else if value == 516 {
            Some(MassLynxScanItem::RAW_STAT_SWAVE_NORMALISATION_FACTOR)
        } else if value == 521 {
            Some(MassLynxScanItem::MIN_DRIFT_TIME_CHANNEL)
        } else if value == 522 {
            Some(MassLynxScanItem::MAX_DRIFT_TIME_CHANNEL)
        } else if value == 651 {
            Some(MassLynxScanItem::TOTAL_ION_CURRENT)
        } else if value == 652 {
            Some(MassLynxScanItem::BASE_PEAK_MASS)
        } else if value == 653 {
            Some(MassLynxScanItem::BASE_PEAK_INTENSITY)
        } else if value == 654 {
            Some(MassLynxScanItem::PEAKS_IN_SCAN)
        } else if value == 698 {
            Some(MassLynxScanItem::UNINITIALISED)
        } else {
            None
        }
    }

    /// Wire codes are distinct, so decoding an encoded variant recovers it.
    pub proof fn lemma_code_roundtrip(k: MassLynxScanItem)
        ensures
            MassLynxScanItem::from_code_spec(k.code_spec() as i32) == Some(k),
    {
    }
}

#[derive(Clone, Copy, Debug, PartialEq, Eq, Structural, Hash)]
#[allow(non_camel_case_types)]
pub enum MassLynxSampleListItem {
    FILE_NAME,
    FILE_TEXT,
    MS_FILE,
    MS_TUNE_FILE,
    INLET_FILE,
    INLET_PRERUN,
    INLET_POSTRUN,
    INLET_SWITCH,
    AUTO_FILE,
    PROCESS,
    PROCESS_PARAMS,
    PROCESS_OPTIONS,
    ACQU_PROCESS_FILE,
    ACQU_PROCESS_PARAMS,
    ACQU_PROCESS_OPTIONS,
    PROCESS_ACTION,
    SAMPLE_LOCATION,
    SAMPLE_GROUP,
    JOB,
    TASK,
    USER,
    SUBMITTER,
    CONDITIONS,
    TYPE,
    CONTROL,
    ID,
    CONC_A,
    CONC_B,
    CONC_C,
    CONC_D,
    CONC_E,
    CONC_F,
    CONC_G,
    CONC_H,
    CONC_I,
    CONC_J,
    CONC_K,
    CONC_L,
    CONC_M,
    CONC_N,
    CONC_O,
    CONC_P,
    CONC_Q,
    CONC_R,
    CONC_S,
    CONC_T,
    WAVELENGTH_A,
    WAVELENGTH_B,
    WAVELENGTH_C,
    WAVELENGTH_D,
    WAVELENGTH_E,
    WAVELENGTH_F,
    WAVELENGTH_G,
    WAVELENGTH_H,
    WAVELENGTH_I,
    WAVELENGTH_J,
    MASS_A,
    MASS_B,
    MASS_C,
    MASS_D,
    MASS_E,
    MASS_F,
    MASS_G,
    MASS_H,
    MASS_I,
    MASS_J,
    MASS_K,
    MASS_L,
    MASS_M,
    MASS_N,
    MASS_O,
    MASS_P,
    MASS_Q,
    MASS_R,
    MASS_S,
    MASS_T,
    MASS_U,
    MASS_V,
    MASS_W,
    MASS_X,
    MASS_Y,
    MASS_Z,
    MASS_AA,
    MASS_BB,
    MASS_CC,
    MASS_DD,
    FRACTION_FILE,
    FRACTION_1,
    FRACTION_2,
    FRACTION_3,
    FRACTION_4,
    FRACTION_5,
    FRACTION_6,
    FRACTION_7,
    FRACTION_8,
    FRACTION_9,
    FRACTION_10,
    FRACTION_BOOLEAN_LOGIC,
    FRACTION_START,
    INJ_VOL,
    STOCK_DIL,
    USER_DIVISOR_1,
    USER_FACTOR_1,
    USER_FACTOR_2,
    USER_FACTOR_3,
    SPARE_1,
    SPARE_2,
    SPARE_3,
    SPARE_4,
    SPARE_5,
    HPLC_FILE,
    QUAN_REF,
    AUTO_ADDITION,
    MOLFILE,
    SUBJECTTEXT,
    SUBJECTTIME,
    METH_DB,
    CURVE_DB,
}

impl MassLynxSampleListItem {
    /// The wire code of this variant in the driver's vocabulary.
    pub open spec fn code_spec(self) -> u32 {
        match self {
            MassLynxSampleListItem::FILE_NAME => 700,
            MassLynxSampleListItem::FILE_TEXT => 701,
            MassLynxSampleListItem::MS_FILE => 702,
            MassLynxSampleListItem::MS_TUNE_FILE => 703,
            MassLynxSampleListItem::INLET_FILE => 704,
            MassLynxSampleListItem::INLET_PRERUN => 705,
            MassLynxSampleListItem::INLET_POSTRUN => 706,
            MassLynxSampleListItem::INLET_SWITCH => 707,
            MassLynxSampleListItem::AUTO_FILE => 708,
            MassLynxSampleListItem::PROCESS => 709,
            MassLynxSampleListItem::PROCESS_PARAMS => 710,
            MassLynxSampleListItem::PROCESS_OPTIONS => 711,
            MassLynxSampleListItem::ACQU_PROCESS_FILE => 712,
            MassLynxSampleListItem::ACQU_PROCESS_PARAMS => 713,
            MassLynxSampleListItem::ACQU_PROCESS_OPTIONS => 714,
            MassLynxSampleListItem::PROCESS_ACTION => 715,
            MassLynxSampleListItem::SAMPLE_LOCATION => 716,
            MassLynxSampleListItem::SAMPLE_GROUP => 717,
            MassLynxSampleListItem::JOB => 718,
            MassLynxSampleListItem::TASK => 719,
            MassLynxSampleListItem::USER => 720,
            MassLynxSampleListItem::SUBMITTER => 721,
            MassLynxSampleListItem::CONDITIONS => 722,
            MassLynxSampleListItem::TYPE => 723,
            MassLynxSampleListItem::CONTROL => 724,
            MassLynxSampleListItem::ID => 725,
            MassLynxSampleListItem::CONC_A => 726,
            MassLynxSampleListItem::CONC_B => 727,
            MassLynxSampleListItem::CONC_C => 728,
            MassLynxSampleListItem::CONC_D => 729,
            MassLynxSampleListItem::CONC_E => 730,
            MassLynxSampleListItem::CONC_F => 731,
            MassLynxSampleListItem::CONC_G => 732,
            MassLynxSampleListItem::CONC_H => 733,
            MassLynxSampleListItem::CONC_I => 734,
            MassLynxSampleListItem::CONC_J => 735,
            MassLynxSampleListItem::CONC_K => 736,
            MassLynxSampleListItem::CONC_L => 737,
            MassLynxSampleListItem::CONC_M => 738,
            MassLynxSampleListItem::CONC_N => 739,
            MassLynxSampleListItem::CONC_O => 740,
            MassLynxSampleListItem::CONC_P => 741,
            MassLynxSampleListItem::CONC_Q => 742,
            MassLynxSampleListItem::CONC_R => 743,
            MassLynxSampleListItem::CONC_S => 744,
            MassLynxSampleListItem::CONC_T => 745,
            MassLynxSampleListItem::WAVELENGTH_A => 746,
            MassLynxSampleListItem::WAVELENGTH_B => 747,
            MassLynxSampleListItem::WAVELENGTH_C => 748,
            MassLynxSampleListItem::WAVELENGTH_D => 749,
            MassLynxSampleListItem::WAVELENGTH_E => 750,
            MassLynxSampleListItem::WAVELENGTH_F => 751,
            MassLynxSampleListItem::WAVELENGTH_G => 752,
            MassLynxSampleListItem::WAVELENGTH_H => 753,
            MassLynxSampleListItem::WAVELENGTH_I => 754,
            MassLynxSampleListItem::WAVELENGTH_J => 755,
            MassLynxSampleListItem::MASS_A => 756,
            MassLynxSampleListItem::MASS_B => 757,
            MassLynxSampleListItem::MASS_C => 758,
            MassLynxSampleListItem::MASS_D => 759,
            MassLynxSampleListItem::MASS_E => 760,
            MassLynxSampleListItem::MASS_F => 761,
            MassLynxSampleListItem::MASS_G => 762,
            MassLynxSampleListItem::MASS_H => 763,
            MassLynxSampleListItem::MASS_I => 764,
            MassLynxSampleListItem::MASS_J => 765,
            MassLynxSampleListItem::MASS_K => 766,
            MassLynxSampleListItem::MASS_L => 767,
            MassLynxSampleListItem::MASS_M => 768,
            MassLynxSampleListItem::MASS_N => 769,
            MassLynxSampleListItem::MASS_O => 770,
            MassLynxSampleListItem::MASS_P => 771,
            MassLynxSampleListItem::MASS_Q => 772,
            MassLynxSampleListItem::MASS_R => 773,
            MassLynxSampleListItem::MASS_S => 774,
            MassLynxSampleListItem::MASS_T => 775,
            MassLynxSampleListItem::MASS_U => 776,
            MassLynxSampleListItem::MASS_V => 777,
            MassLynxSampleListItem::MASS_W => 778,
            MassLynxSampleListItem::MASS_X => 779,
            MassLynxSampleListItem::MASS_Y => 780,
            MassLynxSampleListItem::MASS_Z => 781,
            MassLynxSampleListItem::MASS_AA => 782,
            MassLynxSampleListItem::MASS_BB => 783,
            MassLynxSampleListItem::MASS_CC => 784,
            MassLynxSampleListItem::MASS_DD => 785,
            MassLynxSampleListItem::FRACTION_FILE => 786,
            MassLynxSampleListItem::FRACTION_1 => 787,
            MassLynxSampleListItem::FRACTION_2 => 788,
            MassLynxSampleListItem::FRACTION_3 => 789,
            MassLynxSampleListItem::FRACTION_4 => 790,
            MassLynxSampleListItem::FRACTION_5 => 791,
            MassLynxSampleListItem::FRACTION_6 => 792,
            MassLynxSampleListItem::FRACTION_7 => 793,
            MassLynxSampleListItem::FRACTION_8 => 794,
            MassLynxSampleListItem::FRACTION_9 => 795,
            MassLynxSampleListItem::FRACTION_10 => 796,
            MassLynxSampleListItem::FRACTION_BOOLEAN_LOGIC => 797,
            MassLynxSampleListItem::FRACTION_START => 798,
            MassLynxSampleListItem::INJ_VOL => 799,
            MassLynxSampleListItem::STOCK_DIL => 800,
            MassLynxSampleListItem::USER_DIVISOR_1 => 801,
            MassLynxSampleListItem::USER_FACTOR_1 => 802,
            MassLynxSampleListItem::USER_FACTOR_2 => 803,
            MassLynxSampleListItem::USER_FACTOR_3 => 804,
            MassLynxSampleListItem::SPARE_1 => 805,
            MassLynxSampleListItem::SPARE_2 => 806,
            MassLynxSampleListItem::SPARE_3 => 807,
            MassLynxSampleListItem::SPARE_4 => 808,
            MassLynxSampleListItem::SPARE_5 => 809,
            MassLynxSampleListItem::HPLC_FILE => 810,
            MassLynxSampleListItem::QUAN_REF => 811,
            MassLynxSampleListItem::AUTO_ADDITION => 812,
            MassLynxSampleListItem::MOLFILE => 813,
            MassLynxSampleListItem::SUBJECTTEXT => 814,
            MassLynxSampleListItem::SUBJECTTIME => 815,
            MassLynxSampleListItem::METH_DB => 816,
            MassLynxSampleListItem::CURVE_DB => 817,
        }
    }

    pub fn code(&self) -> (c: u32)
        ensures
            c == self.code_spec(),
    {
        match self {
            MassLynxSampleListItem::FILE_NAME => 700,
            MassLynxSampleListItem::FILE_TEXT => 701,
            MassLynxSampleListItem::MS_FILE => 702,
            MassLynxSampleListItem::MS_TUNE_FILE => 703,
            MassLynxSampleListItem::INLET_FILE => 704,
            MassLynxSampleListItem::INLET_PRERUN => 705,
            MassLynxSampleListItem::INLET_POSTRUN => 706,
            MassLynxSampleListItem::INLET_SWITCH => 707,
            MassLynxSampleListItem::AUTO_FILE => 708,
            MassLynxSampleListItem::PROCESS => 709,
            MassLynxSampleListItem::PROCESS_PARAMS => 710,
            MassLynxSampleListItem::PROCESS_OPTIONS => 711,
            MassLynxSampleListItem::ACQU_PROCESS_FILE => 712,
            MassLynxSampleListItem::ACQU_PROCESS_PARAMS => 713,
            MassLynxSampleListItem::ACQU_PROCESS_OPTIONS => 714,
            MassLynxSampleListItem::PROCESS_ACTION => 715,
            MassLynxSampleListItem::SAMPLE_LOCATION => 716,
            MassLynxSampleListItem::SAMPLE_GROUP => 717,
            MassLynxSampleListItem::JOB => 718,
            MassLynxSampleListItem::TASK => 719,
            MassLynxSampleListItem::USER => 720,
            MassLynxSampleListItem::SUBMITTER => 721,
            MassLynxSampleListItem::CONDITIONS => 722,
            MassLynxSampleListItem::TYPE => 723,
            MassLynxSampleListItem::CONTROL => 724,
            MassLynxSampleListItem::ID => 725,
            MassLynxSampleListItem::CONC_A => 726,
            MassLynxSampleListItem::CONC_B => 727,
            MassLynxSampleListItem::CONC_C => 728,
            MassLynxSampleListItem::CONC_D => 729,
            MassLynxSampleListItem::CONC_E => 730,
            MassLynxSampleListItem::CONC_F => 731,
            MassLynxSampleListItem::CONC_G => 732,
            MassLynxSampleListItem::CONC_H => 733,
            MassLynxSampleListItem::CONC_I => 734,
            MassLynxSampleListItem::CONC_J => 735,
            MassLynxSampleListItem::CONC_K => 736,
            MassLynxSampleListItem::CONC_L => 737,
            MassLynxSampleListItem::CONC_M => 738,
            MassLynxSampleListItem::CONC_N => 739,
            MassLynxSampleListItem::CONC_O => 740,
            MassLynxSampleListItem::CONC_P => 741,
            MassLynxSampleListItem::CONC_Q => 742,
            MassLynxSampleListItem::CONC_R => 743,
            MassLynxSampleListItem::CONC_S => 744,
            MassLynxSampleListItem::CONC_T => 745,
            MassLynxSampleListItem::WAVELENGTH_A => 746,
            MassLynxSampleListItem::WAVELENGTH_B => 747,
            MassLynxSampleListItem::WAVELENGTH_C => 748,
            MassLynxSampleListItem::WAVELENGTH_D => 749,
            MassLynxSampleListItem::WAVELENGTH_E => 750,
            MassLynxSampleListItem::WAVELENGTH_F => 751,
            MassLynxSampleListItem::WAVELENGTH_G => 752,
            MassLynxSampleListItem::WAVELENGTH_H => 753,
            MassLynxSampleListItem::WAVELENGTH_I => 754,
            MassLynxSampleListItem::WAVELENGTH_J => 755,
            MassLynxSampleListItem::MASS_A => 756,
            MassLynxSampleListItem::MASS_B => 757,
            MassLynxSampleListItem::MASS_C => 758,
            MassLynxSampleListItem::MASS_D => 759,
            MassLynxSampleListItem::MASS_E => 760,
            MassLynxSampleListItem::MASS_F => 761,
            MassLynxSampleListItem::MASS_G => 762,
            MassLynxSampleListItem::MASS_H => 763,
            MassLynxSampleListItem::MASS_I => 764,
            MassLynxSampleListItem::MASS_J => 765,
            MassLynxSampleListItem::MASS_K => 766,
            MassLynxSampleListItem::MASS_L => 767,
            MassLynxSampleListItem::MASS_M => 768,
            MassLynxSampleListItem::MASS_N => 769,
            MassLynxSampleListItem::MASS_O => 770,
            MassLynxSampleListItem::MASS_P => 771,
            MassLynxSampleListItem::MASS_Q => 772,
            MassLynxSampleListItem::MASS_R => 773,
            MassLynxSampleListItem::MASS_S => 774,
            MassLynxSampleListItem::MASS_T => 775,
            MassLynxSampleListItem::MASS_U => 776,
            MassLynxSampleListItem::MASS_V => 777,
            MassLynxSampleListItem::MASS_W => 778,
            MassLynxSampleListItem::MASS_X => 779,
            MassLynxSampleListItem::MASS_Y => 780,
            MassLynxSampleListItem::MASS_Z => 781,
            MassLynxSampleListItem::MASS_AA => 782,
            MassLynxSampleListItem::MASS_BB => 783,
            MassLynxSampleListItem::MASS_CC => 784,
            MassLynxSampleListItem::MASS_DD => 785,
            MassLynxSampleListItem::FRACTION_FILE => 786,
            MassLynxSampleListItem::FRACTION_1 => 787,
            MassLynxSampleListItem::FRACTION_2 => 788,
            MassLynxSampleListItem::FRACTION_3 => 789,
            MassLynxSampleListItem::FRACTION_4 => 790,
            MassLynxSampleListItem::FRACTION_5 => 791,
            MassLynxSampleListItem::FRACTION_6 => 792,
            MassLynxSampleListItem::FRACTION_7 => 793,
            MassLynxSampleListItem::FRACTION_8 => 794,
            MassLynxSampleListItem::FRACTION_9 => 795,
            MassLynxSampleListItem::FRACTION_10 => 796,
            MassLynxSampleListItem::FRACTION_BOOLEAN_LOGIC => 797,
            MassLynxSampleListItem::FRACTION_START => 798,
            MassLynxSampleListItem::INJ_VOL => 799,
            MassLynxSampleListItem::STOCK_DIL => 800,
            MassLynxSampleListItem::USER_DIVISOR_1 => 801,
            MassLynxSampleListItem::USER_FACTOR_1 => 802,
            MassLynxSampleListItem::USER_FACTOR_2 => 803,
            MassLynxSampleListItem::USER_FACTOR_3 => 804,
            MassLynxSampleListItem::SPARE_1 => 805,
            MassLynxSampleListItem::SPARE_2 => 806,
            MassLynxSampleListItem::SPARE_3 => 807,
            MassLynxSampleListItem::SPARE_4 => 808,
            MassLynxSampleListItem::SPARE_5 => 809,
            MassLynxSampleListItem::HPLC_FILE => 810,
            MassLynxSampleListItem::QUAN_REF => 811,
            MassLynxSampleListItem::AUTO_ADDITION => 812,
            MassLynxSampleListItem::MOLFILE => 813,
            MassLynxSampleListItem::SUBJECTTEXT => 814,
            MassLynxSampleListItem::SUBJECTTIME => 815,
            MassLynxSampleListItem::METH_DB => 816,
            MassLynxSampleListItem::CURVE_DB => 817,
        }
    }

    /// The variant carrying the given wire code, if the code is in the
    /// vocabulary.
    pub open spec fn from_code_spec(value: i32) -> Option<Self> {
        if value == 700 {
            Some(MassLynxSampleListItem::FILE_NAME)
        } else if value == 701 {
            Some(MassLynxSampleListItem::FILE_TEXT)
        } else if value == 702 {
            Some(MassLynxSampleListItem::MS_FILE)
        } else if value == 703 {
            Some(MassLynxSampleListItem::MS_TUNE_FILE)
        } else if value == 704 {
            Some(MassLynxSampleListItem::INLET_FILE)
        } else if value == 705 {
            Some(MassLynxSampleListItem::INLET_PRERUN)
        } else if value == 706 {
            Some(MassLynxSampleListItem::INLET_POSTRUN)
        } else if value == 707 {
            Some(MassLynxSampleListItem::INLET_SWITCH)
        } else if value == 708 {
            Some(MassLynxSampleListItem::AUTO_FILE)
        } else if value == 709 {
            Some(MassLynxSampleListItem::PROCESS)
        } else if value == 710 {
            Some(MassLynxSampleListItem::PROCESS_PARAMS)
        } else if value == 711 {
            Some(MassLynxSampleListItem::PROCESS_OPTIONS)
        } else if value == 712 {
            Some(MassLynxSampleListItem::ACQU_PROCESS_FILE)
        } else if value == 713 {
            Some(MassLynxSampleListItem::ACQU_PROCESS_PARAMS)
        } else if value == 714 {
            Some(MassLynxSampleListItem::ACQU_PROCESS_OPTIONS)
        } else if value == 715 {
            Some(MassLynxSampleListItem::PROCESS_ACTION)
        } else if value == 716 {
            Some(MassLynxSampleListItem::SAMPLE_LOCATION)
        } else if value == 717 {
            Some(MassLynxSampleListItem::SAMPLE_GROUP)
        } else if value == 718 {
            Some(MassLynxSampleListItem::JOB)
        } else if value == 719 {
            Some(MassLynxSampleListItem::TASK)
        } else if value == 720 {
            Some(MassLynxSampleListItem::USER)
        } else if value == 721 {
            Some(MassLynxSampleListItem::SUBMITTER)
        } else if value == 722 {
            Some(MassLynxSampleListItem::CONDITIONS)
        } else if value == 723 {
            Some(MassLynxSampleListItem::TYPE)
        } else if value == 724 {
            Some(MassLynxSampleListItem::CONTROL)
        } else if value == 725 {
            Some(MassLynxSampleListItem::ID)
        } else if value == 726 {
            Some(MassLynxSampleListItem::CONC_A)
        } else if value == 727 {
            Some(MassLynxSampleListItem::CONC_B)
        } else if value == 728 {
            Some(MassLynxSampleListItem::CONC_C)
        } else if value == 729 {
            Some(MassLynxSampleListItem::CONC_D)
        } else if value == 730 {
            Some(MassLynxSampleListItem::CONC_E)
        } else if value == 731 {
            Some(MassLynxSampleListItem::CONC_F)
        } else if value == 732 {
            Some(MassLynxSampleListItem::CONC_G)
        } else if value == 733 {
            Some(MassLynxSampleListItem::CONC_H)
        } else if value == 734 {
            Some(MassLynxSampleListItem::CONC_I)
        } else if value == 735 {
            Some(MassLynxSampleListItem::CONC_J)
        } else if value == 736 {
            Some(MassLynxSampleListItem::CONC_K)
        } else if value == 737 {
            Some(MassLynxSampleListItem::CONC_L)
        } else if value == 738 {
            Some(MassLynxSampleListItem::CONC_M)
        } else if value == 739 {
            Some(MassLynxSampleListItem::CONC_N)
        } else if value == 740 {
            Some(MassLynxSampleListItem::CONC_O)
        } else if value == 741 {
            Some(MassLynxSampleListItem::CONC_P)
        } else if value == 742 {
            Some(MassLynxSampleListItem::CONC_Q)
        } else if value == 743 {
            Some(MassLynxSampleListItem::CONC_R)
        } else if value == 744 {
            Some(MassLynxSampleListItem::CONC_S)
        } else if value == 745 {
            Some(MassLynxSampleListItem::CONC_T)
        } else if value == 746 {
            Some(MassLynxSampleListItem::WAVELENGTH_A)
        } else if value == 747 {
            Some(MassLynxSampleListItem::WAVELENGTH_B)
        } else if value == 748 {
            Some(MassLynxSampleListItem::WAVELENGTH_C)
        } else if value == 749 {
            Some(MassLynxSampleListItem::WAVELENGTH_D)
        } else if value == 750 {
            Some(MassLynxSampleListItem::WAVELENGTH_E)
        } else if value == 751 {
            Some(MassLynxSampleListItem::WAVELENGTH_F)
        } else if value == 752 {
            Some(MassLynxSampleListItem::WAVELENGTH_G)
        } else if value == 753 {
            Some(MassLynxSampleListItem::WAVELENGTH_H)
        } else if value == 754 {
            Some(MassLynxSampleListItem::WAVELENGTH_I)
        } else if value == 755 {
            Some(MassLynxSampleListItem::WAVELENGTH_J)
        } else if value == 756 {
            Some(MassLynxSampleListItem::MASS_A)
        } else if value == 757 {
            Some(MassLynxSampleListItem::MASS_B)
        } else if value == 758 {
            Some(MassLynxSampleListItem::MASS_C)
        } else if value == 759 {
            Some(MassLynxSampleListItem::MASS_D)
        } else if value == 760 {
            Some(MassLynxSampleListItem::MASS_E)
        } else if value == 761 {
            Some(MassLynxSampleListItem::MASS_F)
        } else if value == 762 {
            Some(MassLynxSampleListItem::MASS_G)
        } else if value == 763 {
            Some(MassLynxSampleListItem::MASS_H)
        } else if value == 764 {
            Some(MassLynxSampleListItem::MASS_I)
        } else if value == 765 {
            Some(MassLynxSampleListItem::MASS_J)
        } else if value == 766 {
            Some(MassLynxSampleListItem::MASS_K)
        } else if value == 767 {
            Some(MassLynxSampleListItem::MASS_L)
        } else if value == 768 {
            Some(MassLynxSampleListItem::MASS_M)
        } else if value == 769 {
            Some(MassLynxSampleListItem::MASS_N)
        } else if value == 770 {
            Some(MassLynxSampleListItem::MASS_O)
        } else if value == 771 {
            Some(MassLynxSampleListItem::MASS_P)
        } else if value == 772 {
            Some(MassLynxSampleListItem::MASS_Q)
        } else if value == 773 {
            Some(MassLynxSampleListItem::MASS_R)
        } else if value == 774 {
            Some(MassLynxSampleListItem::MASS_S)
        } else if value == 775 {
            Some(MassLynxSampleListItem::MASS_T)
        } else if value == 776 {
            Some(MassLynxSampleListItem::MASS_U)
        } else if value == 777 {
            Some(MassLynxSampleListItem::MASS_V)
        } else if value == 778 {
            Some(MassLynxSampleListItem::MASS_W)
        } else if value == 779 {
            Some(MassLynxSampleListItem::MASS_X)
        } else if value == 780 {
            Some(MassLynxSampleListItem::MASS_Y)
        } else if value == 781 {
            Some(MassLynxSampleListItem::MASS_Z)
        } else if value == 782 {
            Some(MassLynxSampleListItem::MASS_AA)
        } else if value == 783 {
            Some(MassLynxSampleListItem::MASS_BB)
        } else if value == 784 {
            Some(MassLynxSampleListItem::MASS_CC)
        } else if value == 785 {
            Some(MassLynxSampleListItem::MASS_DD)
        } else if value == 786 {
            Some(MassLynxSampleListItem::FRACTION_FILE)
        } else if value == 787 {
            Some(MassLynxSampleListItem::FRACTION_1)
        } else if value == 788 {
            Some(MassLynxSampleListItem::FRACTION_2)
        } else if value == 789 {
            Some(MassLynxSampleListItem::FRACTION_3)
        } else if value == 790 {
            Some(MassLynxSampleListItem::FRACTION_4)
        } else if value == 791 {
            Some(MassLynxSampleListItem::FRACTION_5)
        } else if value == 792 {
            Some(MassLynxSampleListItem::FRACTION_6)
        } else if value == 793 {
            Some(MassLynxSampleListItem::FRACTION_7)
        } else if value == 794 {
            Some(MassLynxSampleListItem::FRACTION_8)
        } else if value == 795 {
            Some(MassLynxSampleListItem::FRACTION_9)
        } else if value == 796 {
            Some(MassLynxSampleListItem::FRACTION_10)
        } else if value == 797 {
            Some(MassLynxSampleListItem::FRACTION_BOOLEAN_LOGIC)
        } else if value == 798 {
            Some(MassLynxSampleListItem::FRACTION_START)
        } else if value == 799 {
            Some(MassLynxSampleListItem::INJ_VOL)
        } else if value == 800 {
            Some(MassLynxSampleListItem::STOCK_DIL)
        } else if value == 801 {
            Some(MassLynxSampleListItem::USER_DIVISOR_1)
        } else if value == 802 {
            Some(MassLynxSampleListItem::USER_FACTOR_1)
        } else if value == 803 {
            Some(MassLynxSampleListItem::USER_FACTOR_2)
        } else if value == 804 {
            Some(MassLynxSampleListItem::USER_FACTOR_3)
        } else if value == 805 {
            Some(MassLynxSampleListItem::SPARE_1)
        } else if value == 806 {
            Some(MassLynxSampleListItem::SPARE_2)
        } else if value == 807 {
            Some(MassLynxSampleListItem::SPARE_3)
        } else if value == 808 {
            Some(MassLynxSampleListItem::SPARE_4)
        } else if value == 809 {
            Some(MassLynxSampleListItem::SPARE_5)
        } else if value == 810 {
            Some(MassLynxSampleListItem::HPLC_FILE)
        } else if value == 811 {
            Some(MassLynxSampleListItem::QUAN_REF)
        } else if value == 812 {
            Some(MassLynxSampleListItem::AUTO_ADDITION)
        } else if value == 813 {
            Some(MassLynxSampleListItem::MOLFILE)
        } else if value == 814 {
            Some(MassLynxSampleListItem::SUBJECTTEXT)
        } else if value == 815 {
            Some(MassLynxSampleListItem::SUBJECTTIME)
        } else if value == 816 {
            Some(MassLynxSampleListItem::METH_DB)
        } else if value == 817 {
            Some(MassLynxSampleListItem::CURVE_DB)
        } else {
            None
        }
    }

    pub fn from_code(value: i32) -> (r: Option<Self>)
        ensures
            r == Self::from_code_spec(value),
    {
        if value == 700 {
            Some(MassLynxSampleListItem::FILE_NAME)
        } else if value == 701 {
            Some(MassLynxSampleListItem::FILE_TEXT)
        } else if value == 702 {
            Some(MassLynxSampleListItem::MS_FILE)
        } else if value == 703 {
            Some(MassLynxSampleListItem::MS_TUNE_FILE)
        } else if value == 704 {
            Some(MassLynxSampleListItem::INLET_FILE)
        } else if value == 705 {
            Some(MassLynxSampleListItem::INLET_PRERUN)
        } else if value == 706 {
            Some(MassLynxSampleListItem::INLET_POSTRUN)
        } else if value == 707 {
            Some(MassLynxSampleListItem::INLET_SWITCH)
        } else if value == 708 {
            Some(MassLynxSampleListItem::AUTO_FILE)
        } else if value == 709 {
            Some(MassLynxSampleListItem::PROCESS)
        } else if value == 710 {
            Some(MassLynxSampleListItem::PROCESS_PARAMS)
        } else if value == 711 {
            Some(MassLynxSampleListItem::PROCESS_OPTIONS)
        } else if value == 712 {
            Some(MassLynxSampleListItem::ACQU_PROCESS_FILE)
        } else if value == 713 {
            Some(MassLynxSampleListItem::ACQU_PROCESS_PARAMS)
        } else if value == 714 {
            Some(MassLynxSampleListItem::ACQU_PROCESS_OPTIONS)
        } else if value == 715 {
            Some(MassLynxSampleListItem::PROCESS_ACTION)
        } else if value == 716 {
            Some(MassLynxSampleListItem::SAMPLE_LOCATION)
        } else if value == 717 {
            Some(MassLynxSampleListItem::SAMPLE_GROUP)
        } else if value == 718 {
            Some(MassLynxSampleListItem::JOB)
        } else if value == 719 {
            Some(MassLynxSampleListItem::TASK)
        } else if value == 720 {
            Some(MassLynxSampleListItem::USER)
        } else if value == 721 {
            Some(MassLynxSampleListItem::SUBMITTER)
        } else if value == 722 {
            Some(MassLynxSampleListItem::CONDITIONS)
        } else if value == 723 {
            Some(MassLynxSampleListItem::TYPE)
        } else if value == 724 {
            Some(MassLynxSampleListItem::CONTROL)
        } else if value == 725 {
            Some(MassLynxSampleListItem::ID)
        } else if value == 726 {
            Some(MassLynxSampleListItem::CONC_A)
        } else if value == 727 {
            Some(MassLynxSampleListItem::CONC_B)
        } else if value == 728 {
            Some(MassLynxSampleListItem::CONC_C)
        } else if value == 729 {
            Some(MassLynxSampleListItem::CONC_D)
        } else if value == 730 {
            Some(MassLynxSampleListItem::CONC_E)
        } else if value == 731 {
            Some(MassLynxSampleListItem::CONC_F)
        } else if value == 732 {
            Some(MassLynxSampleListItem::CONC_G)
        } else if value == 733 {
            Some(MassLynxSampleListItem::CONC_H)
        } else if value == 734 {
            Some(MassLynxSampleListItem::CONC_I)
        } else if value == 735 {
            Some(MassLynxSampleListItem::CONC_J)
        } else if value == 736 {
            Some(MassLynxSampleListItem::CONC_K)
        } else if value == 737 {
            Some(MassLynxSampleListItem::CONC_L)
        } else if value == 738 {
            Some(MassLynxSampleListItem::CONC_M)
        } else if value == 739 {
            Some(MassLynxSampleListItem::CONC_N)
        } else if value == 740 {
            Some(MassLynxSampleListItem::CONC_O)
        } else if value == 741 {
            Some(MassLynxSampleListItem::CONC_P)
        } else if value == 742 {
            Some(MassLynxSampleListItem::CONC_Q)
        } else if value == 743 {
            Some(MassLynxSampleListItem::CONC_R)
        } else if value == 744 {
            Some(MassLynxSampleListItem::CONC_S)
        } else if value == 745 {
            Some(MassLynxSampleListItem::CONC_T)
        } else if value == 746 {
            Some(MassLynxSampleListItem::WAVELENGTH_A)
        } else if value == 747 {
            Some(MassLynxSampleListItem::WAVELENGTH_B)
        } else if value == 748 {
            Some(MassLynxSampleListItem::WAVELENGTH_C)
        } else if value == 749 {
            Some(MassLynxSampleListItem::WAVELENGTH_D)
        } else if value == 750 {
            Some(MassLynxSampleListItem::WAVELENGTH_E)
        } else if value == 751 {
            Some(MassLynxSampleListItem::WAVELENGTH_F)
        } else if value == 752 {
            Some(MassLynxSampleListItem::WAVELENGTH_G)
        } else if value == 753 {
            Some(MassLynxSampleListItem::WAVELENGTH_H)
        } else if value == 754 {
            Some(MassLynxSampleListItem::WAVELENGTH_I)
        } else if value == 755 {
            Some(MassLynxSampleListItem::WAVELENGTH_J)
        } else if value == 756 {
            Some(MassLynxSampleListItem::MASS_A)
        } else if value == 757 {
            Some(MassLynxSampleListItem::MASS_B)
        } else if value == 758 {
            Some(MassLynxSampleListItem::MASS_C)
        } else if value == 759 {
            Some(MassLynxSampleListItem::MASS_D)
        } else if value == 760 {
            Some(MassLynxSampleListItem::MASS_E)
        } else if value == 761 {
            Some(MassLynxSampleListItem::MASS_F)
        } else if value == 762 {
            Some(MassLynxSampleListItem::MASS_G)
        } else if value == 763 {
            Some(MassLynxSampleListItem::MASS_H)
        } else if value == 764 {
            Some(MassLynxSampleListItem::MASS_I)
        } else if value == 765 {
            Some(MassLynxSampleListItem::MASS_J)
        } else if value == 766 {
            Some(MassLynxSampleListItem::MASS_K)
        } else if value == 767 {
            Some(MassLynxSampleListItem::MASS_L)
        } else if value == 768 {
            Some(MassLynxSampleListItem::MASS_M)
        } else if value == 769 {
            Some(MassLynxSampleListItem::MASS_N)
        } else if value == 770 {
            Some(MassLynxSampleListItem::MASS_O)
        } else if value == 771 {
            Some(MassLynxSampleListItem::MASS_P)
        } else if value == 772 {
            Some(MassLynxSampleListItem::MASS_Q)
        } else if value == 773 {
            Some(MassLynxSampleListItem::MASS_R)
        } else if value == 774 {
            Some(MassLynxSampleListItem::MASS_S)
        } else if value == 775 {
            Some(MassLynxSampleListItem::MASS_T)
        } else if value == 776 {
            Some(MassLynxSampleListItem::MASS_U)
        } else if value == 777 {
            Some(MassLynxSampleListItem::MASS_V)
        } else if value == 778 {
            Some(MassLynxSampleListItem::MASS_W)
        } else if value == 779 {
            Some(MassLynxSampleListItem::MASS_X)
        } else if value == 780 {
            Some(MassLynxSampleListItem::MASS_Y)
        } else if value == 781 {
            Some(MassLynxSampleListItem::MASS_Z)
        } else if value == 782 {
            Some(MassLynxSampleListItem::MASS_AA)
        } else if value == 783 {
            Some(MassLynxSampleListItem::MASS_BB)
        } else if value == 784 {
            Some(MassLynxSampleListItem::MASS_CC)
        } else if value == 785 {
            Some(MassLynxSampleListItem::MASS_DD)
        } else if value == 786 {
            Some(MassLynxSampleListItem::FRACTION_FILE)
        } else if value == 787 {
            Some(MassLynxSampleListItem::FRACTION_1)
        } else if value == 788 {
            Some(MassLynxSampleListItem::FRACTION_2)
        } else if value == 789 {
            Some(MassLynxSampleListItem::FRACTION_3)
        } else if value == 790 {
            Some(MassLynxSampleListItem::FRACTION_4)
        } else if value == 791 {
            Some(MassLynxSampleListItem::FRACTION_5)
        } else if value == 792 {
            Some(MassLynxSampleListItem::FRACTION_6)
        } else if value == 793 {
            Some(MassLynxSampleListItem::FRACTION_7)
        } else if value == 794 {
            Some(MassLynxSampleListItem::FRACTION_8)
        } else if value == 795 {
            Some(MassLynxSampleListItem::FRACTION_9)
        } else if value == 796 {
            Some(MassLynxSampleListItem::FRACTION_10)
        } else if value == 797 {
            Some(MassLynxSampleListItem::FRACTION_BOOLEAN_LOGIC)
        } else if value == 798 {
            Some(MassLynxSampleListItem::FRACTION_START)
        } else if value == 799 {
            Some(MassLynxSampleListItem::INJ_VOL)
        } else if value == 800 {
            Some(MassLynxSampleListItem::STOCK_DIL)
        } else if value == 801 {
            Some(MassLynxSampleListItem::USER_DIVISOR_1)
        } else if value == 802 {
            Some(MassLynxSampleListItem::USER_FACTOR_1)
        } else if value == 803 {
            Some(MassLynxSampleListItem::USER_FACTOR_2)
        } else if value == 804 {
            Some(MassLynxSampleListItem::USER_FACTOR_3)
        } else if value == 805 {
            Some(MassLynxSampleListItem::SPARE_1)
        } else if value == 806 {
            Some(MassLynxSampleListItem::SPARE_2)
        } else if value == 807 {
            Some(MassLynxSampleListItem::SPARE_3)
        } else if value == 808 {
            Some(MassLynxSampleListItem::SPARE_4)
        } else if value == 809 {
            Some(MassLynxSampleListItem::SPARE_5)
        } else if value == 810 {
            Some(MassLynxSampleListItem::HPLC_FILE)
        } else if value == 811 {
            Some(MassLynxSampleListItem::QUAN_REF)
        } else if value == 812 {
            Some(MassLynxSampleListItem::AUTO_ADDITION)
        } else if value == 813 {
            Some(MassLynxSampleListItem::MOLFILE)
        } else if value == 814 {
            Some(MassLynxSampleListItem::SUBJECTTEXT)
        } else if value == 815 {
            Some(MassLynxSampleListItem::SUBJECTTIME)
        } else if value == 816 {
            Some(MassLynxSampleListItem::METH_DB)
        } else if value == 817 {
            Some(MassLynxSampleListItem::CURVE_DB)
        } else {
            None
        }
    }

    /// Wire codes are distinct, so decoding an encoded variant recovers it.
    pub proof fn lemma_code_roundtrip(k: MassLynxSampleListItem)
        ensures
            MassLynxSampleListItem::from_code_spec(k.code_spec() as i32) == Some(k),
    {
    }
}

#[derive(Clone, Copy, Debug, PartialEq, Eq, Structural, Hash)]
#[allow(non_camel_case_types)]
pub enum MassLynxBatchItem {
    SAMPLELIST_NAME,
    FIRST_SAMPLE,
    LAST_SAMPLE,
    CURRENT_SAMPLE,
    BATCH_USER_NAME,
}

impl MassLynxBatchItem {
    /// The wire code of this variant in the driver's vocabulary.
    pub open spec fn code_spec(self) -> u32 {
        match self {
            MassLynxBatchItem::SAMPLELIST_NAME => 900,
            MassLynxBatchItem::FIRST_SAMPLE => 901,
            MassLynxBatchItem::LAST_SAMPLE => 902,
            MassLynxBatchItem::CURRENT_SAMPLE => 903,
            MassLynxBatchItem::BATCH_USER_NAME => 904,
        }
    }

    pub fn code(&self) -> (c: u32)
        ensures
            c == self.code_spec(),
    {
        match self {
            MassLynxBatchItem::SAMPLELIST_NAME => 900,
            MassLynxBatchItem::FIRST_SAMPLE => 901,
            MassLynxBatchItem::LAST_SAMPLE => 902,
            MassLynxBatchItem::CURRENT_SAMPLE => 903,
            MassLynxBatchItem::BATCH_USER_NAME => 904,
        }
    }

    /// The variant carrying the given wire code, if the code is in the
    /// vocabulary.
    pub open spec fn from_code_spec(value: i32) -> Option<Self> {
        if value == 900 {
            Some(MassLynxBatchItem::SAMPLELIST_NAME)
        } else if value == 901 {
            Some(MassLynxBatchItem::FIRST_SAMPLE)
        } else if value == 902 {
            Some(MassLynxBatchItem::LAST_SAMPLE)
        } else if value == 903 {
            Some(MassLynxBatchItem::CURRENT_SAMPLE)
        } else if value == 904 {
            Some(MassLynxBatchItem::BATCH_USER_NAME)
        } else {
            None
        }
    }

    pub fn from_code(value: i32) -> (r: Option<Self>)
        ensures
            r == Self::from_code_spec(value),
    {
        if value == 900 {
            Some(MassLynxBatchItem::SAMPLELIST_NAME)
        } else if value == 901 {
            Some(MassLynxBatchItem::FIRST_SAMPLE)
        } else if value == 902 {
            Some(MassLynxBatchItem::LAST_SAMPLE)
        } else if value == 903 {
            Some(MassLynxBatchItem::CURRENT_SAMPLE)
        } else if value == 904 {
            Some(MassLynxBatchItem::BATCH_USER_NAME)
        } else {
            None
        }
    }

    /// Wire codes are distinct, so decoding an encoded variant recovers it.
    pub proof fn lemma_code_roundtrip(k: MassLynxBatchItem)
        ensures
            MassLynxBatchItem::from_code_spec(k.code_spec() as i32) == Some(k),
    {
    }
}

#[derive(Clone, Copy, Debug, PartialEq, Eq, Structural, Hash)]
#[allow(non_camel_case_types)]
pub enum MassLynxAcquisitionType {
    DDA,
    MSE,
    HDDDA,
    HDMSE,
    SONAR,
    UNKNOWN,
    UNINITIALISED,
}

impl MassLynxAcquisitionType {
    /// The wire code of this variant in the driver's vocabulary.
    pub open spec fn code_spec(self) -> u32 {
        match self {
            MassLynxAcquisitionType::DDA => 1700,
            MassLynxAcquisitionType::MSE => 1701,
            MassLynxAcquisitionType::HDDDA => 1702,
            MassLynxAcquisitionType::HDMSE => 1703,
            MassLynxAcquisitionType::SONAR => 1704,
            MassLynxAcquisitionType::UNKNOWN => 1748,
            MassLynxAcquisitionType::UNINITIALISED => 1749,
        }
    }

    pub fn code(&self) -> (c: u32)
        ensures
            c == self.code_spec(),
    {
        match self {
            MassLynxAcquisitionType::DDA => 1700,
            MassLynxAcquisitionType::MSE => 1701,
            MassLynxAcquisitionType::HDDDA => 1702,
            MassLynxAcquisitionType::HDMSE => 1703,
            MassLynxAcquisitionType::SONAR => 1704,
            MassLynxAcquisitionType::UNKNOWN => 1748,
            MassLynxAcquisitionType::UNINITIALISED => 1749,
        }
    }

    /// The variant carrying the given wire code, if the code is in the
    /// vocabulary.
    pub open spec fn from_code_spec(value: i32) -> Option<Self> {
        if value == 1700 {
            Some(MassLynxAcquisitionType::DDA)
        } else if value == 1701 {
            Some(MassLynxAcquisitionType::MSE)
        } else if value == 1702 {
            Some(MassLynxAcquisitionType::HDDDA)
        } else if value == 1703 {
            Some(MassLynxAcquisitionType::HDMSE)
        } else if value == 1704 {
            Some(MassLynxAcquisitionType::SONAR)
        } else if value == 1748 {
            Some(MassLynxAcquisitionType::UNKNOWN)
        } else if value == 1749 {
            Some(MassLynxAcquisitionType::UNINITIALISED)
        } else {
            None
        }
    }

    pub fn from_code(value: i32) -> (r: Option<Self>)
        ensures
            r == Self::from_code_spec(value),
    {
        if value == 1700 {
            Some(MassLynxAcquisitionType::DDA)
        } else if value == 1701 {
            Some(MassLynxAcquisitionType::MSE)
        } else if value == 1702 {
            Some(MassLynxAcquisitionType::HDDDA)
        } else if value == 1703 {
            Some(MassLynxAcquisitionType::HDMSE)
        } else if value == 1704 {
            Some(MassLynxAcquisitionType::SONAR)
        } else if value == 1748 {
            Some(MassLynxAcquisitionType::UNKNOWN)
        } else if value == 1749 {
            Some(MassLynxAcquisitionType::UNINITIALISED)
        } else {
            None
        }
    }

    /// Wire codes are distinct, so decoding an encoded variant recovers it.
    pub proof fn lemma_code_roundtrip(k: MassLynxAcquisitionType)
        ensures
            MassLynxAcquisitionType::from_code_spec(k.code_spec() as i32) == Some(k),
    {
    }
}

#[derive(Clone, Copy, Debug, PartialEq, Eq, Structural, Hash)]
#[allow(non_camel_case_types)]
pub enum MassLynxScanType {
    MS1,
    MS2,
    UNINITIALISED,
}

impl MassLynxScanType {
    /// The wire code of this variant in the driver's vocabulary.
    pub open spec fn code_spec(self) -> u32 {
        match self {
            MassLynxScanType::MS1 => 1850,
            MassLynxScanType::MS2 => 1851,
            MassLynxScanType::UNINITIALISED => 1859,
        }
    }

    pub fn code(&self) -> (c: u32)
        ensures
            c == self.code_spec(),
    {
        match self {
            MassLynxScanType::MS1 => 1850,
            MassLynxScanType::MS2 => 1851,
            MassLynxScanType::UNINITIALISED => 1859,
        }
    }

    /// The variant carrying the given wire code, if the code is in the
    /// vocabulary.
    pub open spec fn from_code_spec(value: i32) -> Option<Self> {
        if value == 1850 {
            Some(MassLynxScanType::MS1)
        } else if value == 1851 {
            Some(MassLynxScanType::MS2)
        } else if value == 1859 {
            Some(MassLynxScanType::UNINITIALISED)
        } else {
            None
        }
    }

    pub fn from_code(value: i32) -> (r: Option<Self>)
        ensures
            r == Self::from_code_spec(value),
    {
        if value == 1850 {
            Some(MassLynxScanType::MS1)
        } else if value == 1851 {
            Some(MassLynxScanType::MS2)
        } else if value == 1859 {
            Some(MassLynxScanType::UNINITIALISED)
        } else {
            None
        }
    }

    /// Wire codes are distinct, so decoding an encoded variant recovers it.
    pub proof fn lemma_code_roundtrip(k: MassLynxScanType)
        ensures
            MassLynxScanType::from_code_spec(k.code_spec() as i32) == Some(k),
    {
    }
}

#[derive(Clone, Copy, Debug, PartialEq, Eq, Structural, Hash)]
#[allow(non_camel_case_types)]
pub enum LockMassParameter {
    MASS,
    TOLERANCE,
    FORCE,
}

impl LockMassParameter {
    /// The wire code of this variant in the driver's vocabulary.
    pub open spec fn code_spec(self) -> u32 {
        match self {
            LockMassParameter::MASS => 1000,
            LockMassParameter::TOLERANCE => 1001,
            LockMassParameter::FORCE => 1002,
        }
    }

    pub fn code(&self) -> (c: u32)
        ensures
            c == self.code_spec(),
    {
        match self {
            LockMassParameter::MASS => 1000,
            LockMassParameter::TOLERANCE => 1001,
            LockMassParameter::FORCE => 1002,
        }
    }

    /// The variant carrying the given wire code, if the code is in the
    /// vocabulary.
    pub open spec fn from_code_spec(value: i32) -> Option<Self> {
        if value == 1000 {
            Some(LockMassParameter::MASS)
        } else if value == 1001 {
            Some(LockMassParameter::TOLERANCE)
        } else if value == 1002 {
            Some(LockMassParameter::FORCE)
        } else {
            None
        }
    }

    pub fn from_code(value: i32) -> (r: Option<Self>)
        ensures
            r == Self::from_code_spec(value),
    {
        if value == 1000 {
            Some(LockMassParameter::MASS)
        } else if value == 1001 {
            Some(LockMassParameter::TOLERANCE)
        } else if value == 1002 {
            Some(LockMassParameter::FORCE)
        } else {
            None
        }
    }

    /// Wire codes are distinct, so decoding an encoded variant recovers it.
    pub proof fn lemma_code_roundtrip(k: LockMassParameter)
        ensures
            LockMassParameter::from_code_spec(k.code_spec() as i32) == Some(k),
    {
    }
}

#[derive(Clone, Copy, Debug, PartialEq, Eq, Structural, Hash)]
#[allow(non_camel_case_types)]
pub enum FunctionDefinition {
    CONTINUUM,
    IONMODE,
    FUNCTIONTYPE,
    STARTMASS,
    ENDMASS,
    CDT_SCANS,
    SAMPLINGFREQUENCY,
    LTEFF,
    VEFF,
}

impl FunctionDefinition {
    /// The wire code of this variant in the driver's vocabulary.
    pub open spec fn code_spec(self) -> u32 {
        match self {
            FunctionDefinition::CONTINUUM => 1100,
            FunctionDefinition::IONMODE => 1101,
            FunctionDefinition::FUNCTIONTYPE => 1102,
            FunctionDefinition::STARTMASS => 1103,
            FunctionDefinition::ENDMASS => 1104,
            FunctionDefinition::CDT_SCANS => 1105,
            FunctionDefinition::SAMPLINGFREQUENCY => 1106,
            FunctionDefinition::LTEFF => 1107,
            FunctionDefinition::VEFF => 1108,
        }
    }

    pub fn code(&self) -> (c: u32)
        ensures
            c == self.code_spec(),
    {
        match self {
            FunctionDefinition::CONTINUUM => 1100,
            FunctionDefinition::IONMODE => 1101,
            FunctionDefinition::FUNCTIONTYPE => 1102,
            FunctionDefinition::STARTMASS => 1103,
            FunctionDefinition::ENDMASS => 1104,
            FunctionDefinition::CDT_SCANS => 1105,
            FunctionDefinition::SAMPLINGFREQUENCY => 1106,
            FunctionDefinition::LTEFF => 1107,
            FunctionDefinition::VEFF => 1108,
        }
    }

    /// The variant carrying the given wire code, if the code is in the
    /// vocabulary.
    pub open spec fn from_code_spec(value: i32) -> Option<Self> {
        if value == 1100 {
            Some(FunctionDefinition::CONTINUUM)
        } else if value == 1101 {
            Some(FunctionDefinition::IONMODE)
        } else if value == 1102 {
            Some(FunctionDefinition::FUNCTIONTYPE)
        } else if value == 1103 {
            Some(FunctionDefinition::STARTMASS)
        } else if value == 1104 {
            Some(FunctionDefinition::ENDMASS)
        } else if value == 1105 {
            Some(FunctionDefinition::CDT_SCANS)
        } else if value == 1106 {
            Some(FunctionDefinition::SAMPLINGFREQUENCY)
        } else if value == 1107 {
            Some(FunctionDefinition::LTEFF)
        } else if value == 1108 {
            Some(FunctionDefinition::VEFF)
        } else {
            None
        }
    }

    pub fn from_code(value: i32) -> (r: Option<Self>)
        ensures
            r == Self::from_code_spec(value),
    {
        if value == 1100 {
            Some(FunctionDefinition::CONTINUUM)
        } else if value == 1101 {
            Some(FunctionDefinition::IONMODE)
        } else if value == 1102 {
            Some(FunctionDefinition::FUNCTIONTYPE)
        } else if value == 1103 {
            Some(FunctionDefinition::STARTMASS)
        } else if value == 1104 {
            Some(FunctionDefinition::ENDMASS)
        } else if value == 1105 {
            Some(FunctionDefinition::CDT_SCANS)
        } else if value == 1106 {
            Some(FunctionDefinition::SAMPLINGFREQUENCY)
        } else if value == 1107 {
            Some(FunctionDefinition::LTEFF)
        } else if value == 1108 {
            Some(FunctionDefinition::VEFF)
        } else {
            None
        }
    }

    /// Wire codes are distinct, so decoding an encoded variant recovers it.
    pub proof fn lemma_code_roundtrip(k: FunctionDefinition)
        ensures
            FunctionDefinition::from_code_spec(k.code_spec() as i32) == Some(k),
    {
    }
}

#[derive(Clone, Copy, Debug, PartialEq, Eq, Structural, Hash)]
#[allow(non_camel_case_types)]
pub enum AnalogParameter {
    DESCRIPTION,
    UNITS,
    TYPE,
}

impl AnalogParameter {
    /// The wire code of this variant in the driver's vocabulary.
    pub open spec fn code_spec(self) -> u32 {
        match self {
            AnalogParameter::DESCRIPTION => 1201,
            AnalogParameter::UNITS => 1202,
            AnalogParameter::TYPE => 1203,
        }
    }

    pub fn code(&self) -> (c: u32)
        ensures
            c == self.code_spec(),
    {
        match self {
            AnalogParameter::DESCRIPTION => 1201,
            AnalogParameter::UNITS => 1202,
            AnalogParameter::TYPE => 1203,
        }
    }

    /// The variant carrying the given wire code, if the code is in the
    /// vocabulary.
    pub open spec fn from_code_spec(value: i32) -> Option<Self> {
        if value == 1201 {
            Some(AnalogParameter::DESCRIPTION)
        } else if value == 1202 {
            Some(AnalogParameter::UNITS)
        } else if value == 1203 {
            Some(AnalogParameter::TYPE)
        } else {
            None
        }
    }

    pub fn from_code(value: i32) -> (r: Option<Self>)
        ensures
            r == Self::from_code_spec(value),
    {
        if value == 1201 {
            Some(AnalogParameter::DESCRIPTION)
        } else if value == 1202 {
            Some(AnalogParameter::UNITS)
        } else if value == 1203 {
            Some(AnalogParameter::TYPE)
        } else {
            None
        }
    }

    /// Wire codes are distinct, so decoding an encoded variant recovers it.
    pub proof fn lemma_code_roundtrip(k: AnalogParameter)
        ensures
            AnalogParameter::from_code_spec(k.code_spec() as i32) == Some(k),
    {
    }
}

#[derive(Clone, Copy, Debug, PartialEq, Eq, Structural, Hash)]
#[allow(non_camel_case_types)]
pub enum AnalogTraceType {
    ANALOG,
    ELSD,
    READBACK,
}

impl AnalogTraceType {
    /// The wire code of this variant in the driver's vocabulary.
    pub open spec fn code_spec(self) -> u32 {
        match self {
            AnalogTraceType::ANALOG => 1250,
            AnalogTraceType::ELSD => 1251,
            AnalogTraceType::READBACK => 1252,
        }
    }

    pub fn code(&self) -> (c: u32)
        ensures
            c == self.code_spec(),
    {
        match self {
            AnalogTraceType::ANALOG => 1250,
            AnalogTraceType::ELSD => 1251,
            AnalogTraceType::READBACK => 1252,
        }
    }

    /// The variant carrying the given wire code, if the code is in the
    /// vocabulary.
    pub open spec fn from_code_spec(value: i32) -> Option<Self> {
        if value == 1250 {
            Some(AnalogTraceType::ANALOG)
        } else if value == 1251 {
            Some(AnalogTraceType::ELSD)
        } else if value == 1252 {
            Some(AnalogTraceType::READBACK)
        } else {
            None
        }
    }

    pub fn from_code(value: i32) -> (r: Option<Self>)
        ensures
            r == Self::from_code_spec(value),
    {
        if value == 1250 {
            Some(AnalogTraceType::ANALOG)
        } else if value == 1251 {
            Some(AnalogTraceType::ELSD)
        } else if value == 1252 {
            Some(AnalogTraceType::READBACK)
        } else {
            None
        }
    }

    /// Wire codes are distinct, so decoding an encoded variant recovers it.
    pub proof fn lemma_code_roundtrip(k: AnalogTraceType)
        ensures
            AnalogTraceType::from_code_spec(k.code_spec() as i32) == Some(k),
    {
    }
}

#[derive(Clone, Copy, Debug, PartialEq, Eq, Structural, Hash)]
#[allow(non_camel_case_types)]
pub enum AutoLynxStatus {
    QUEUED,
    PROCESSED,
    FAILED,
    NOTFOUND,
    UNINITIALISED,
}

impl AutoLynxStatus {
    /// The wire code of this variant in the driver's vocabulary.
    pub open spec fn code_spec(self) -> u32 {
        match self {
            AutoLynxStatus::QUEUED => 1300,
            AutoLynxStatus::PROCESSED => 1301,
            AutoLynxStatus::FAILED => 1302,
            AutoLynxStatus::NOTFOUND => 1303,
            AutoLynxStatus::UNINITIALISED => 1309,
        }
    }

    pub fn code(&self) -> (c: u32)
        ensures
            c == self.code_spec(),
    {
        match self {
            AutoLynxStatus::QUEUED => 1300,
            AutoLynxStatus::PROCESSED => 1301,
            AutoLynxStatus::FAILED => 1302,
            AutoLynxStatus::NOTFOUND => 1303,
            AutoLynxStatus::UNINITIALISED => 1309,
        }
    }

    /// The variant carrying the given wire code, if the code is in the
    /// vocabulary.
    pub open spec fn from_code_spec(value: i32) -> Option<Self> {
        if value == 1300 {
            Some(AutoLynxStatus::QUEUED)
        } else if value == 1301 {
            Some(AutoLynxStatus::PROCESSED)
        } else if value == 1302 {
            Some(AutoLynxStatus::FAILED)
        } else if value == 1303 {
            Some(AutoLynxStatus::NOTFOUND)
        } else if value == 1309 {
            Some(AutoLynxStatus::UNINITIALISED)
        } else {
            None
        }
    }

    pub fn from_code(value: i32) -> (r: Option<Self>)
        ensures
            r == Self::from_code_spec(value),
    {
        if value == 1300 {
            Some(AutoLynxStatus::QUEUED)
        } else if value == 1301 {
            Some(AutoLynxStatus::PROCESSED)
        } else if value == 1302 {
            Some(AutoLynxStatus::FAILED)
        } else if value == 1303 {
            Some(AutoLynxStatus::NOTFOUND)
        } else if value == 1309 {
            Some(AutoLynxStatus::UNINITIALISED)
        } else {
            None
        }
    }

    /// Wire codes are distinct, so decoding an encoded variant recovers it.
    pub proof fn lemma_code_roundtrip(k: AutoLynxStatus)
        ensures
            AutoLynxStatus::from_code_spec(k.code_spec() as i32) == Some(k),
    {
    }
}

#[derive(Clone, Copy, Debug, PartialEq, Eq, Structural, Hash)]
#[allow(non_camel_case_types)]
pub enum CentroidParameter {
    RESOLUTION,
}

impl CentroidParameter {
    /// The wire code of this variant in the driver's vocabulary.
    pub open spec fn code_spec(self) -> u32 {
        match self {
            CentroidParameter::RESOLUTION => 1400,
        }
    }

    pub fn code(&self) -> (c: u32)
        ensures
            c == self.code_spec(),
    {
        match self {
            CentroidParameter::RESOLUTION => 1400,
        }
    }

    /// The variant carrying the given wire code, if the code is in the
    /// vocabulary.
    pub open spec fn from_code_spec(value: i32) -> Option<Self> {
        if value == 1400 {
            Some(CentroidParameter::RESOLUTION)
        } else {
            None
        }
    }

    pub fn from_code(value: i32) -> (r: Option<Self>)
        ensures
            r == Self::from_code_spec(value),
    {
        if value == 1400 {
            Some(CentroidParameter::RESOLUTION)
        } else {
            None
        }
    }

    /// Wire codes are distinct, so decoding an encoded variant recovers it.
    pub proof fn lemma_code_roundtrip(k: CentroidParameter)
        ensures
            CentroidParameter::from_code_spec(k.code_spec() as i32) == Some(k),
    {
    }
}

#[derive(Clone, Copy, Debug, PartialEq, Eq, Structural, Hash)]
#[allow(non_camel_case_types)]
pub enum MassLynxDDAIndexDetail {
    RT,
    FUNCTION,
    START_SCAN,
    END_SCAN,
    SCAN_TYPE,
    SET_MASS,
    PRECURSOR_MASS,
}

impl MassLynxDDAIndexDetail {
    /// The wire code of this variant in the driver's vocabulary.
    pub open spec fn code_spec(self) -> u32 {
        match self {
            MassLynxDDAIndexDetail::RT => 1800,
            MassLynxDDAIndexDetail::FUNCTION => 1801,
            MassLynxDDAIndexDetail::START_SCAN => 1802,
            MassLynxDDAIndexDetail::END_SCAN => 1803,
            MassLynxDDAIndexDetail::SCAN_TYPE => 1804,
            MassLynxDDAIndexDetail::SET_MASS => 1805,
            MassLynxDDAIndexDetail::PRECURSOR_MASS => 1806,
        }
    }

    pub fn code(&self) -> (c: u32)
        ensures
            c == self.code_spec(),
    {
        match self {
            MassLynxDDAIndexDetail::RT => 1800,
            MassLynxDDAIndexDetail::FUNCTION => 1801,
            MassLynxDDAIndexDetail::START_SCAN => 1802,
            MassLynxDDAIndexDetail::END_SCAN => 1803,
            MassLynxDDAIndexDetail::SCAN_TYPE => 1804,
            MassLynxDDAIndexDetail::SET_MASS => 1805,
            MassLynxDDAIndexDetail::PRECURSOR_MASS => 1806,
        }
    }

    /// The variant carrying the given wire code, if the code is in the
    /// vocabulary.
    pub open spec fn from_code_spec(value: i32) -> Option<Self> {
        if value == 1800 {
            Some(MassLynxDDAIndexDetail::RT)
        } else if value == 1801 {
            Some(MassLynxDDAIndexDetail::FUNCTION)
        } else if value == 1802 {
            Some(MassLynxDDAIndexDetail::START_SCAN)
        } else if value == 1803 {
            Some(MassLynxDDAIndexDetail::END_SCAN)
        } else if value == 1804 {
            Some(MassLynxDDAIndexDetail::SCAN_TYPE)
        } else if value == 1805 {
            Some(MassLynxDDAIndexDetail::SET_MASS)
        } else if value == 1806 {
            Some(MassLynxDDAIndexDetail::PRECURSOR_MASS)
        } else {
            None
        }
    }

    pub fn from_code(value: i32) -> (r: Option<Self>)
        ensures
            r == Self::from_code_spec(value),
    {
        if value == 1800 {
            Some(MassLynxDDAIndexDetail::RT)
        } else if value == 1801 {
            Some(MassLynxDDAIndexDetail::FUNCTION)
        } else if value == 1802 {
            Some(MassLynxDDAIndexDetail::START_SCAN)
        } else if value == 1803 {
            Some(MassLynxDDAIndexDetail::END_SCAN)
        } else if value == 1804 {
            Some(MassLynxDDAIndexDetail::SCAN_TYPE)
        } else if value == 1805 {
            Some(MassLynxDDAIndexDetail::SET_MASS)
        } else if value == 1806 {
            Some(MassLynxDDAIndexDetail::PRECURSOR_MASS)
        } else {
            None
        }
    }

    /// Wire codes are distinct, so decoding an encoded variant recovers it.
    pub proof fn lemma_code_roundtrip(k: MassLynxDDAIndexDetail)
        ensures
            MassLynxDDAIndexDetail::from_code_spec(k.code_spec() as i32) == Some(k),
    {
    }
}

#[derive(Clone, Copy, Debug, PartialEq, Eq, Structural, Hash)]
#[allow(non_camel_case_types)]
pub enum DDAIsolationWindowParameter {
    LOWEROFFSET,
    UPPEROFFSET,
}

impl DDAIsolationWindowParameter {
    /// The wire code of this variant in the driver's vocabulary.
    pub open spec fn code_spec(self) -> u32 {
        match self {
            DDAIsolationWindowParameter::LOWEROFFSET => 1900,
            DDAIsolationWindowParameter::UPPEROFFSET => 1901,
        }
    }

    pub fn code(&self) -> (c: u32)
        ensures
            c == self.code_spec(),
    {
        match self {
            DDAIsolationWindowParameter::LOWEROFFSET => 1900,
            DDAIsolationWindowParameter::UPPEROFFSET => 1901,
        }
    }

    /// The variant carrying the given wire code, if the code is in the
    /// vocabulary.
    pub open spec fn from_code_spec(value: i32) -> Option<Self> {
        if value == 1900 {
            Some(DDAIsolationWindowParameter::LOWEROFFSET)
        } else if value == 1901 {
            Some(DDAIsolationWindowParameter::UPPEROFFSET)
        } else {
            None
        }
    }

    pub fn from_code(value: i32) -> (r: Option<Self>)
        ensures
            r == Self::from_code_spec(value),
    {
        if value == 1900 {
            Some(DDAIsolationWindowParameter::LOWEROFFSET)
        } else if value == 1901 {
            Some(DDAIsolationWindowParameter::UPPEROFFSET)
        } else {
            None
        }
    }

    /// Wire codes are distinct, so decoding an encoded variant recovers it.
    pub proof fn lemma_code_roundtrip(k: DDAIsolationWindowParameter)
        ensures
            DDAIsolationWindowParameter::from_code_spec(k.code_spec() as i32) == Some(k),
    {
    }
}

#[derive(Clone, Copy, Debug, PartialEq, Eq, Structural, Hash)]
#[allow(non_camel_case_types)]
pub enum SmoothParameter {
    NUMBER,
    WIDTH,
    SMOOTHTYPE,
}

impl SmoothParameter {
    /// The wire code of this variant in the driver's vocabulary.
    pub open spec fn code_spec(self) -> u32 {
        match self {
            SmoothParameter::NUMBER => 1450,
            SmoothParameter::WIDTH => 1451,
            SmoothParameter::SMOOTHTYPE => 1452,
        }
    }

    pub fn code(&self) -> (c: u32)
        ensures
            c == self.code_spec(),
    {
        match self {
            SmoothParameter::NUMBER => 1450,
            SmoothParameter::WIDTH => 1451,
            SmoothParameter::SMOOTHTYPE => 1452,
        }
    }

    /// The variant carrying the given wire code, if the code is in the
    /// vocabulary.
    pub open spec fn from_code_spec(value: i32) -> Option<Self> {
        if value == 1450 {
            Some(SmoothParameter::NUMBER)
        } else if value == 1451 {
            Some(SmoothParameter::WIDTH)
        } else if value == 1452 {
            Some(SmoothParameter::SMOOTHTYPE)
        } else {
            None
        }
    }

    pub fn from_code(value: i32) -> (r: Option<Self>)
        ensures
            r == Self::from_code_spec(value),
    {
        if value == 1450 {
            Some(SmoothParameter::NUMBER)
        } else if value == 1451 {
            Some(SmoothParameter::WIDTH)
        } else if value == 1452 {
            Some(SmoothParameter::SMOOTHTYPE)
        } else {
            None
        }
    }

    /// Wire codes are distinct, so decoding an encoded variant recovers it.
    pub proof fn lemma_code_roundtrip(k: SmoothParameter)
        ensures
            SmoothParameter::from_code_spec(k.code_spec() as i32) == Some(k),
    {
    }
}

#[derive(Clone, Copy, Debug, PartialEq, Eq, Structural, Hash)]
#[allow(non_camel_case_types)]
pub enum SmoothType {
    MEAN,
    MEDIAN,
    SAVITZKY_GOLAY,
}

impl SmoothType {
    /// The wire code of this variant in the driver's vocabulary.
    pub open spec fn code_spec(self) -> u32 {
        match self {
            SmoothType::MEAN => 1500,
            SmoothType::MEDIAN => 1501,
            SmoothType::SAVITZKY_GOLAY => 1502,
        }
    }

    pub fn code(&self) -> (c: u32)
        ensures
            c == self.code_spec(),
    {
        match self {
            SmoothType::MEAN => 1500,
            SmoothType::MEDIAN => 1501,
            SmoothType::SAVITZKY_GOLAY => 1502,
        }
    }

    /// The variant carrying the given wire code, if the code is in the
    /// vocabulary.
    pub open spec fn from_code_spec(value: i32) -> Option<Self> {
        if value == 1500 {
            Some(SmoothType::MEAN)
        } else if value == 1501 {
            Some(SmoothType::MEDIAN)
        } else if value == 1502 {
            Some(SmoothType::SAVITZKY_GOLAY)
        } else {
            None
        }
    }

    pub fn from_code(value: i32) -> (r: Option<Self>)
        ensures
            r == Self::from_code_spec(value),
    {
        if value == 1500 {
            Some(SmoothType::MEAN)
        } else if value == 1501 {
            Some(SmoothType::MEDIAN)
        } else if value == 1502 {
            Some(SmoothType::SAVITZKY_GOLAY)
        } else {
            None
        }
    }

    /// Wire codes are distinct, so decoding an encoded variant recovers it.
    pub proof fn lemma_code_roundtrip(k: SmoothType)
        ensures
            SmoothType::from_code_spec(k.code_spec() as i32) == Some(k),
    {
    }
}

#[derive(Clone, Copy, Debug, PartialEq, Eq, Structural, Hash)]
#[allow(non_camel_case_types)]
pub enum ThresholdParameter {
    VALUE,
    TYPE,
}

impl ThresholdParameter {
    /// The wire code of this variant in the driver's vocabulary.
    pub open spec fn code_spec(self) -> u32 {
        match self {
            ThresholdParameter::VALUE => 1550,
            ThresholdParameter::TYPE => 1551,
        }
    }

    pub fn code(&self) -> (c: u32)
        ensures
            c == self.code_spec(),
    {
        match self {
            ThresholdParameter::VALUE => 1550,
            ThresholdParameter::TYPE => 1551,
        }
    }

    /// The variant carrying the given wire code, if the code is in the
    /// vocabulary.
    pub open spec fn from_code_spec(value: i32) -> Option<Self> {
        if value == 1550 {
            Some(ThresholdParameter::VALUE)
        } else if value == 1551 {
            Some(ThresholdParameter::TYPE)
        } else {
            None
        }
    }

    pub fn from_code(value: i32) -> (r: Option<Self>)
        ensures
            r == Self::from_code_spec(value),
    {
        if value == 1550 {
            Some(ThresholdParameter::VALUE)
        } else if value == 1551 {
            Some(ThresholdParameter::TYPE)
        } else {
            None
        }
    }

    /// Wire codes are distinct, so decoding an encoded variant recovers it.
    pub proof fn lemma_code_roundtrip(k: ThresholdParameter)
        ensures
            ThresholdParameter::from_code_spec(k.code_spec() as i32) == Some(k),
    {
    }
}

#[derive(Clone, Copy, Debug, PartialEq, Eq, Structural, Hash)]
#[allow(non_camel_case_types)]
pub enum ThresholdType {
    ABSOLUTE_THESHOLD,
    RELATIVE_THESHOLD,
}

impl ThresholdType {
    /// The wire code of this variant in the driver's vocabulary.
    pub open spec fn code_spec(self) -> u32 {
        match self {
            ThresholdType::ABSOLUTE_THESHOLD => 1600,
            ThresholdType::RELATIVE_THESHOLD => 1601,
        }
    }

    pub fn code(&self) -> (c: u32)
        ensures
            c == self.code_spec(),
    {
        match self {
            ThresholdType::ABSOLUTE_THESHOLD => 1600,
            ThresholdType::RELATIVE_THESHOLD => 1601,
        }
    }

    /// The variant carrying the given wire code, if the code is in the
    /// vocabulary.
    pub open spec fn from_code_spec(value: i32) -> Option<Self> {
        if value == 1600 {
            Some(ThresholdType::ABSOLUTE_THESHOLD)
        } else if value == 1601 {
            Some(ThresholdType::RELATIVE_THESHOLD)
        } else {
            None
        }
    }

    pub fn from_code(value: i32) -> (r: Option<Self>)
        ensures
            r == Self::from_code_spec(value),
    {
        if value == 1600 {
            Some(ThresholdType::ABSOLUTE_THESHOLD)
        } else if value == 1601 {
            Some(ThresholdType::RELATIVE_THESHOLD)
        } else {
            None
        }
    }

    /// Wire codes are distinct, so decoding an encoded variant recovers it.
    pub proof fn lemma_code_roundtrip(k: ThresholdType)
        ensures
            ThresholdType::from_code_spec(k.code_spec() as i32) == Some(k),
    {
    }
}

#[derive(Clone, Copy, Debug, PartialEq, Eq, Structural, Hash)]
#[allow(non_camel_case_types)]
pub enum AcquisitionParameter {
    TYPE,
    LOCKMASS,
    MS1,
    MS2,
    PRECURSOR_MASS_START,
    PRECURSOR_MASS_END,
    FUNCTIONS,
    SAMPLINGFREQUENCY,
    LTEFF,
    VEFF,
    RESOLUTION,
}

impl AcquisitionParameter {
    /// The wire code of this variant in the driver's vocabulary.
    pub open spec fn code_spec(self) -> u32 {
        match self {
            AcquisitionParameter::TYPE => 1650,
            AcquisitionParameter::LOCKMASS => 1651,
            AcquisitionParameter::MS1 => 1652,
            AcquisitionParameter::MS2 => 1653,
            AcquisitionParameter::PRECURSOR_MASS_START => 1654,
            AcquisitionParameter::PRECURSOR_MASS_END => 1655,
            AcquisitionParameter::FUNCTIONS => 1656,
            AcquisitionParameter::SAMPLINGFREQUENCY => 1657,
            AcquisitionParameter::LTEFF => 1658,
            AcquisitionParameter::VEFF => 1659,
            AcquisitionParameter::RESOLUTION => 1660,
        }
    }

    pub fn code(&self) -> (c: u32)
        ensures
            c == self.code_spec(),
    {
        match self {
            AcquisitionParameter::TYPE => 1650,
            AcquisitionParameter::LOCKMASS => 1651,
            AcquisitionParameter::MS1 => 1652,
            AcquisitionParameter::MS2 => 1653,
            AcquisitionParameter::PRECURSOR_MASS_START => 1654,
            AcquisitionParameter::PRECURSOR_MASS_END => 1655,
            AcquisitionParameter::FUNCTIONS => 1656,
            AcquisitionParameter::SAMPLINGFREQUENCY => 1657,
            AcquisitionParameter::LTEFF => 1658,
            AcquisitionParameter::VEFF => 1659,
            AcquisitionParameter::RESOLUTION => 1660,
        }
    }

    /// The variant carrying the given wire code, if the code is in the
    /// vocabulary.
    pub open spec fn from_code_spec(value: i32) -> Option<Self> {
        if value == 1650 {
            Some(AcquisitionParameter::TYPE)
        } else if value == 1651 {
            Some(AcquisitionParameter::LOCKMASS)
        } else if value == 1652 {
            Some(AcquisitionParameter::MS1)
        } else if value == 1653 {
            Some(AcquisitionParameter::MS2)
        } else if value == 1654 {
            Some(AcquisitionParameter::PRECURSOR_MASS_START)
        } else if value == 1655 {
            Some(AcquisitionParameter::PRECURSOR_MASS_END)
        } else if value == 1656 {
            Some(AcquisitionParameter::FUNCTIONS)
        } else if value == 1657 {
            Some(AcquisitionParameter::SAMPLINGFREQUENCY)
        } else if value == 1658 {
            Some(AcquisitionParameter::LTEFF)
        } else if value == 1659 {
            Some(AcquisitionParameter::VEFF)
        } else if value == 1660 {
            Some(AcquisitionParameter::RESOLUTION)
        } else {
            None
        }
    }

    pub fn from_code(value: i32) -> (r: Option<Self>)
        ensures
            r == Self::from_code_spec(value),
    {
        if value == 1650 {
            Some(AcquisitionParameter::TYPE)
        } else if value == 1651 {
            Some(AcquisitionParameter::LOCKMASS)
        } else if value == 1652 {
            Some(AcquisitionParameter::MS1)
        } else if value == 1653 {
            Some(AcquisitionParameter::MS2)
        } else if value == 1654 {
            Some(AcquisitionParameter::PRECURSOR_MASS_START)
        } else if value == 1655 {
            Some(AcquisitionParameter::PRECURSOR_MASS_END)
        } else if value == 1656 {
            Some(AcquisitionParameter::FUNCTIONS)
        } else if value == 1657 {
            Some(AcquisitionParameter::SAMPLINGFREQUENCY)
        } else if value == 1658 {
            Some(AcquisitionParameter::LTEFF)
        } else if value == 1659 {
            Some(AcquisitionParameter::VEFF)
        } else if value == 1660 {
            Some(AcquisitionParameter::RESOLUTION)
        } else {
            None
        }
    }

    /// Wire codes are distinct, so decoding an encoded variant recovers it.
    pub proof fn lemma_code_roundtrip(k: AcquisitionParameter)
        ensures
            AcquisitionParameter::from_code_spec(k.code_spec() as i32) == Some(k),
    {
    }
}

impl MassLynxHeaderItem {
    /// Every header item, in ascending code order.
    pub open spec fn all_spec() -> Seq<MassLynxHeaderItem> {
        seq![
            MassLynxHeaderItem::VERSION,
            MassLynxHeaderItem::ACQUIRED_NAME,
            MassLynxHeaderItem::ACQUIRED_DATE,
            MassLynxHeaderItem::ACQUIRED_TIME,
            MassLynxHeaderItem::JOB_CODE,
            MassLynxHeaderItem::TASK_CODE,
            MassLynxHeaderItem::USER_NAME,
            MassLynxHeaderItem::INSTRUMENT,
            MassLynxHeaderItem::CONDITIONS,
            MassLynxHeaderItem::LAB_NAME,
            MassLynxHeaderItem::SAMPLE_DESCRIPTION,
            MassLynxHeaderItem::SOLVENT_DELAY,
            MassLynxHeaderItem::SUBMITTER,
            MassLynxHeaderItem::SAMPLE_ID,
            MassLynxHeaderItem::BOTTLE_NUMBER,
            MassLynxHeaderItem::ANALOG_CH1_OFFSET,
            MassLynxHeaderItem::ANALOG_CH2_OFFSET,
            MassLynxHeaderItem::ANALOG_CH3_OFFSET,
            MassLynxHeaderItem::ANALOG_CH4_OFFSET,
            MassLynxHeaderItem::CAL_MS1_STATIC,
            MassLynxHeaderItem::CAL_MS2_STATIC,
            MassLynxHeaderItem::CAL_MS1_STATIC_PARAMS,
            MassLynxHeaderItem::CAL_MS1_DYNAMIC_PARAMS,
            MassLynxHeaderItem::CAL_MS2_STATIC_PARAMS,
            MassLynxHeaderItem::CAL_MS2_DYNAMIC_PARAMS,
            MassLynxHeaderItem::CAL_MS1_FAST_PARAMS,
            MassLynxHeaderItem::CAL_MS2_FAST_PARAMS,
            MassLynxHeaderItem::CAL_TIME,
            MassLynxHeaderItem::CAL_DATE,
            MassLynxHeaderItem::CAL_TEMPERATURE,
            MassLynxHeaderItem::INLET_METHOD,
            MassLynxHeaderItem::SPARE1,
            MassLynxHeaderItem::SPARE2,
            MassLynxHeaderItem::SPARE3,
            MassLynxHeaderItem::SPARE4,
            MassLynxHeaderItem::SPARE5,
        ]
    }

    pub fn iter() -> (r: Vec<MassLynxHeaderItem>)
        ensures
            r@ == MassLynxHeaderItem::all_spec(),
    {
        let mut r: Vec<MassLynxHeaderItem> = Vec::new();
        r.push(MassLynxHeaderItem::VERSION);
        r.push(MassLynxHeaderItem::ACQUIRED_NAME);
        r.push(MassLynxHeaderItem::ACQUIRED_DATE);
        r.push(MassLynxHeaderItem::ACQUIRED_TIME);
        r.push(MassLynxHeaderItem::JOB_CODE);
        r.push(MassLynxHeaderItem::TASK_CODE);
        r.push(MassLynxHeaderItem::USER_NAME);
        r.push(MassLynxHeaderItem::INSTRUMENT);
        r.push(MassLynxHeaderItem::CONDITIONS);
        r.push(MassLynxHeaderItem::LAB_NAME);
        r.push(MassLynxHeaderItem::SAMPLE_DESCRIPTION);
        r.push(MassLynxHeaderItem::SOLVENT_DELAY);
        r.push(MassLynxHeaderItem::SUBMITTER);
        r.push(MassLynxHeaderItem::SAMPLE_ID);
        r.push(MassLynxHeaderItem::BOTTLE_NUMBER);
        r.push(MassLynxHeaderItem::ANALOG_CH1_OFFSET);
        r.push(MassLynxHeaderItem::ANALOG_CH2_OFFSET);
        r.push(MassLynxHeaderItem::ANALOG_CH3_OFFSET);
        r.push(MassLynxHeaderItem::ANALOG_CH4_OFFSET);
        r.push(MassLynxHeaderItem::CAL_MS1_STATIC);
        r.push(MassLynxHeaderItem::CAL_MS2_STATIC);
        r.push(MassLynxHeaderItem::CAL_MS1_STATIC_PARAMS);
        r.push(MassLynxHeaderItem::CAL_MS1_DYNAMIC_PARAMS);
        r.push(MassLynxHeaderItem::CAL_MS2_STATIC_PARAMS);
        r.push(MassLynxHeaderItem::CAL_MS2_DYNAMIC_PARAMS);
        r.push(MassLynxHeaderItem::CAL_MS1_FAST_PARAMS);
        r.push(MassLynxHeaderItem::CAL_MS2_FAST_PARAMS);
        r.push(MassLynxHeaderItem::CAL_TIME);
        r.push(MassLynxHeaderItem::CAL_DATE);
        r.push(MassLynxHeaderItem::CAL_TEMPERATURE);
        r.push(MassLynxHeaderItem::INLET_METHOD);
        r.push(MassLynxHeaderItem::SPARE1);
        r.push(MassLynxHeaderItem::SPARE2);
        r.push(MassLynxHeaderItem::SPARE3);
        r.push(MassLynxHeaderItem::SPARE4);
        r.push(MassLynxHeaderItem::SPARE5);
        proof {
            assert(r@ =~= MassLynxHeaderItem::all_spec());
        }
        r
    }
}

} // verus!

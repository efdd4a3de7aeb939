//! The closed set of venues the miner polls, with the stable mapping
//! between venue names and the numeric facility codes the query URLs use.

use vstd::prelude::*;

use crate::errors::Error;
use crate::slot_text::str_eq;

verus! {

/// A venue that can be polled. The set is closed and compiled in.
#[allow(non_camel_case_types)]
#[derive(Debug, Clone, Copy, PartialEq, Eq, Structural)]
pub enum Gym {
    AMK_CC,
    FERNVALE_SQ,
    TOA_PAYOH_CC,
    HOKEY_VILLAGE_BOONLAY,
    BISHAN,
    BUKIT_BATOK,
    BUKIT_GOMBAK,
    CHOA_CHU_KANG,
    CLEMENTI,
    ENABLING_VILLAGE,
    HEARTBEAT_BEDOK,
    HOUGANG,
    JALAN_BESAR,
    JURONG_EAST,
    JURONG_LAKE,
    JURONG_WEST,
    PASIR_RIS,
    SENGKANG,
    SENJA_CASHEW,
    SILVER_CIRCLE,
    TAMPINES,
    TOA_PAYOH,
    WOODLANDS,
    YIO_CHU_KANG,
    YISHUN,
}

impl Gym {
    /// Numeric facility code of the venue.
    pub open spec fn spec_code(self) -> u16 {
        match self {
            Gym::AMK_CC => 1016,
            Gym::FERNVALE_SQ => 1048,
            Gym::TOA_PAYOH_CC => 1049,
            Gym::HOKEY_VILLAGE_BOONLAY => 1037,
            Gym::BISHAN => 137,
            Gym::BUKIT_BATOK => 1040,
            Gym::BUKIT_GOMBAK => 145,
            Gym::CHOA_CHU_KANG => 154,
            Gym::CLEMENTI => 160,
            Gym::ENABLING_VILLAGE => 849,
            Gym::HEARTBEAT_BEDOK => 896,
            Gym::HOUGANG => 185,
            Gym::JALAN_BESAR => 967,
            Gym::JURONG_EAST => 196,
            Gym::JURONG_LAKE => 1012,
            Gym::JURONG_WEST => 200,
            Gym::PASIR_RIS => 544,
            Gym::SENGKANG => 239,
            Gym::SENJA_CASHEW => 1089,
            Gym::SILVER_CIRCLE => 886,
            Gym::TAMPINES => 900,
            Gym::TOA_PAYOH => 268,
            Gym::WOODLANDS => 274,
            Gym::YIO_CHU_KANG => 279,
            Gym::YISHUN => 284,
        }
    }

    /// Numeric facility code of the venue.
    pub fn code(&self) -> (c: u16)
        ensures
            c == self.spec_code(),
    {
        match self {
            Gym::AMK_CC => 1016,
            Gym::FERNVALE_SQ => 1048,
            Gym::TOA_PAYOH_CC => 1049,
            Gym::HOKEY_VILLAGE_BOONLAY => 1037,
            Gym::BISHAN => 137,
            Gym::BUKIT_BATOK => 1040,
            Gym::BUKIT_GOMBAK => 145,
            Gym::CHOA_CHU_KANG => 154,
            Gym::CLEMENTI => 160,
            Gym::ENABLING_VILLAGE => 849,
            Gym::HEARTBEAT_BEDOK => 896,
            Gym::HOUGANG => 185,
            Gym::JALAN_BESAR => 967,
            Gym::JURONG_EAST => 196,
            Gym::JURONG_LAKE => 1012,
            Gym::JURONG_WEST => 200,
            Gym::PASIR_RIS => 544,
            Gym::SENGKANG => 239,
            Gym::SENJA_CASHEW => 1089,
            Gym::SILVER_CIRCLE => 886,
            Gym::TAMPINES => 900,
            Gym::TOA_PAYOH => 268,
            Gym::WOODLANDS => 274,
            Gym::YIO_CHU_KANG => 279,
            Gym::YISHUN => 284,
        }
    }

    /// All venues, in polling order.
    pub open spec fn spec_all() -> Seq<Gym> {
        seq![
            Gym::AMK_CC,
            Gym::FERNVALE_SQ,
            Gym::TOA_PAYOH_CC,
            Gym::HOKEY_VILLAGE_BOONLAY,
            Gym::BISHAN,
            Gym::BUKIT_BATOK,
            Gym::BUKIT_GOMBAK,
            Gym::CHOA_CHU_KANG,
            Gym::CLEMENTI,
            Gym::ENABLING_VILLAGE,
            Gym::HEARTBEAT_BEDOK,
            Gym::HOUGANG,
            Gym::JALAN_BESAR,
            Gym::JURONG_EAST,
            Gym::JURONG_LAKE,
            Gym::JURONG_WEST,
            Gym::PASIR_RIS,
            Gym::SENGKANG,
            Gym::SENJA_CASHEW,
            Gym::SILVER_CIRCLE,
            Gym::TAMPINES,
            Gym::TOA_PAYOH,
            Gym::WOODLANDS,
            Gym::YIO_CHU_KANG,
            Gym::YISHUN,
        ]
    }

    /// All venues, in polling order.
    pub fn gym_slice() -> (r: Vec<Gym>)
        ensures
            r@ == Gym::spec_all(),
    {
        let mut v: Vec<Gym> = Vec::new();
        v.push(Gym::AMK_CC);
        v.push(Gym::FERNVALE_SQ);
        v.push(Gym::TOA_PAYOH_CC);
        v.push(Gym::HOKEY_VILLAGE_BOONLAY);
        v.push(Gym::BISHAN);
        v.push(Gym::BUKIT_BATOK);
        v.push(Gym::BUKIT_GOMBAK);
        v.push(Gym::CHOA_CHU_KANG);
        v.push(Gym::CLEMENTI);
        v.push(Gym::ENABLING_VILLAGE);
        v.push(Gym::HEARTBEAT_BEDOK);
        v.push(Gym::HOUGANG);
        v.push(Gym::JALAN_BESAR);
        v.push(Gym::JURONG_EAST);
        v.push(Gym::JURONG_LAKE);
        v.push(Gym::JURONG_WEST);
        v.push(Gym::PASIR_RIS);
        v.push(Gym::SENGKANG);
        v.push(Gym::SENJA_CASHEW);
        v.push(Gym::SILVER_CIRCLE);
        v.push(Gym::TAMPINES);
        v.push(Gym::TOA_PAYOH);
        v.push(Gym::WOODLANDS);
        v.push(Gym::YIO_CHU_KANG);
        v.push(Gym::YISHUN);
        proof {
            assert(v@ =~= Gym::spec_all());
        }
        v
    }

    /// The venue a name denotes, if the name stands in the table.
    pub open spec fn spec_of_name(s: Seq<char>) -> Option<Gym> {
        if s == "AMK_CC"@ {
            Some(Gym::AMK_CC)
        } else if s == "FERNVALE_SQ"@ {
            Some(Gym::FERNVALE_SQ)
        } else if s == "TOA_PAYOH_CC"@ {
            Some(Gym::TOA_PAYOH_CC)
        } else if s == "HOKEY_VILLAGE_BOONLAY"@ {
            Some(Gym::HOKEY_VILLAGE_BOONLAY)
        } else if s == "BISHAN"@ {
            Some(Gym::BISHAN)
        } else if s == "BUKIT_BATOK"@ {
            Some(Gym::BUKIT_BATOK)
        } else if s == "BUKIT_GOMBAK"@ {
            Some(Gym::BUKIT_GOMBAK)
        } else if s == "CHOA_CHU_KANG"@ {
            Some(Gym::CHOA_CHU_KANG)
        } else if s == "CLEMENTI"@ {
            Some(Gym::CLEMENTI)
        } else if s == "ENABLING_VILLAGE"@ {
            Some(Gym::ENABLING_VILLAGE)
        } else if s == "HEARTBEAT_BEDOK"@ {
            Some(Gym::HEARTBEAT_BEDOK)
        } else if s == "HOUGANG"@ {
            Some(Gym::HOUGANG)
        } else if s == "JALAN_BESAR"@ {
            Some(Gym::JALAN_BESAR)
        } else if s == "JURONG_EAST"@ {
            Some(Gym::JURONG_EAST)
        } else if s == "JURONG_LAKE"@ {
            Some(Gym::JURONG_LAKE)
        } else if s == "JURONG_WEST"@ {
            Some(Gym::JURONG_WEST)
        } else if s == "PASIR_RIS"@ {
            Some(Gym::PASIR_RIS)
        } else if s == "SENGKANG"@ {
            Some(Gym::SENGKANG)
        } else if s == "SENJA_CASHEW"@ {
            Some(Gym::SENJA_CASHEW)
        } else if s == "SILVER_CIRCLE"@ {
            Some(Gym::SILVER_CIRCLE)
        } else if s == "TAMPINES"@ {
            Some(Gym::TAMPINES)
        } else if s == "TOA_PAYOH"@ {
            Some(Gym::TOA_PAYOH)
        } else if s == "WOODLANDS"@ {
            Some(Gym::WOODLANDS)
        } else if s == "YIO_CHU_KANG"@ {
            Some(Gym::YIO_CHU_KANG)
        } else if s == "YISHUN"@ {
            Some(Gym::YISHUN)
        } else {
            None
        }
    }

    /// Looks a venue up by its name.
    pub fn from_name(s: &str) -> (r: Result<Gym, Error>)
        ensures
            match r {
                Ok(g) => Gym::spec_of_name(s@) == Some(g),
                Err(e) => {
                    &&& Gym::spec_of_name(s@) is None
                    &&& e matches Error::InvalidGym(n) && n@ == s@
                },
            },
    {
        if str_eq(s, "AMK_CC") {
            Ok(Gym::AMK_CC)
        } else if str_eq(s, "FERNVALE_SQ") {
            Ok(Gym::FERNVALE_SQ)
        } else if str_eq(s, "TOA_PAYOH_CC") {
            Ok(Gym::TOA_PAYOH_CC)
        } else if str_eq(s, "HOKEY_VILLAGE_BOONLAY") {
            Ok(Gym::HOKEY_VILLAGE_BOONLAY)
        } else if str_eq(s, "BISHAN") {
            Ok(Gym::BISHAN)
        } else if str_eq(s, "BUKIT_BATOK") {
            Ok(Gym::BUKIT_BATOK)
        } else if str_eq(s, "BUKIT_GOMBAK") {
            Ok(Gym::BUKIT_GOMBAK)
        } else if str_eq(s, "CHOA_CHU_KANG") {
            Ok(Gym::CHOA_CHU_KANG)
        } else if str_eq(s, "CLEMENTI") {
            Ok(Gym::CLEMENTI)
        } else if str_eq(s, "ENABLING_VILLAGE") {
            Ok(Gym::ENABLING_VILLAGE)
        } else if str_eq(s, "HEARTBEAT_BEDOK") {
            Ok(Gym::HEARTBEAT_BEDOK)
        } else if str_eq(s, "HOUGANG") {
            Ok(Gym::HOUGANG)
        } else if str_eq(s, "JALAN_BESAR") {
            Ok(Gym::JALAN_BESAR)
        } else if str_eq(s, "JURONG_EAST") {
            Ok(Gym::JURONG_EAST)
        } else if str_eq(s, "JURONG_LAKE") {
            Ok(Gym::JURONG_LAKE)
        } else if str_eq(s, "JURONG_WEST") {
            Ok(Gym::JURONG_WEST)
        } else if str_eq(s, "PASIR_RIS") {
            Ok(Gym::PASIR_RIS)
        } else if str_eq(s, "SENGKANG") {
            Ok(Gym::SENGKANG)
        } else if str_eq(s, "SENJA_CASHEW") {
            Ok(Gym::SENJA_CASHEW)
        } else if str_eq(s, "SILVER_CIRCLE") {
            Ok(Gym::SILVER_CIRCLE)
        } else if str_eq(s, "TAMPINES") {
            Ok(Gym::TAMPINES)
        } else if str_eq(s, "TOA_PAYOH") {
            Ok(Gym::TOA_PAYOH)
        } else if str_eq(s, "WOODLANDS") {
            Ok(Gym::WOODLANDS)
        } else if str_eq(s, "YIO_CHU_KANG") {
            Ok(Gym::YIO_CHU_KANG)
        } else if str_eq(s, "YISHUN") {
            Ok(Gym::YISHUN)
        } else {
            Err(Error::InvalidGym(s.to_owned()))
        }
    }
}

} // verus!

//! The bundled dataset: airport codes with their IANA timezone names, in
//! insertion order, grouped by region.  Each group exists twice, as a
//! specification-level sequence and as an executable builder proved to
//! produce exactly that sequence.

use vstd::prelude::*;
use crate::directory::pair_views;

verus! {
/// Europe, Iceland, Turkey, Russia west of the Urals. (part one)
pub open spec fn europe_a_entries() -> Seq<(Seq<char>, Seq<char>)> {
    seq![
        ("LHR"@, "Europe/London"@),
        ("LGW"@, "Europe/London"@),
        ("STN"@, "Europe/London"@),
        ("LTN"@, "Europe/London"@),
        ("LCY"@, "Europe/London"@),
        ("MAN"@, "Europe/London"@),
        ("BHX"@, "Europe/London"@),
        ("BRS"@, "Europe/London"@),
        ("NCL"@, "Europe/London"@),
        ("EDI"@, "Europe/London"@),
        ("GLA"@, "Europe/London"@),
        ("BFS"@, "Europe/London"@),
        ("DUB"@, "Europe/Dublin"@),
        ("ORK"@, "Europe/Dublin"@),
        ("SNN"@, "Europe/Dublin"@),
        ("CDG"@, "Europe/Paris"@),
        ("ORY"@, "Europe/Paris"@),
        ("NCE"@, "Europe/Paris"@),
        ("LYS"@, "Europe/Paris"@),
        ("MRS"@, "Europe/Paris"@),
        ("TLS"@, "Europe/Paris"@),
        ("BOD"@, "Europe/Paris"@),
        ("NTE"@, "Europe/Paris"@),
        ("AMS"@, "Europe/Amsterdam"@),
        ("RTM"@, "Europe/Amsterdam"@),
        ("EIN"@, "Europe/Amsterdam"@),
        ("BRU"@, "Europe/Brussels"@),
        ("CRL"@, "Europe/Brussels"@),
        ("LUX"@, "Europe/Luxembourg"@),
        ("FRA"@, "Europe/Berlin"@),
        ("MUC"@, "Europe/Berlin"@),
        ("BER"@, "Europe/Berlin"@),
        ("DUS"@, "Europe/Berlin"@),
        ("HAM"@, "Europe/Berlin"@),
        ("CGN"@, "Europe/Berlin"@),
        ("STR"@, "Europe/Berlin"@),
        ("NUE"@, "Europe/Berlin"@),
        ("LEJ"@, "Europe/Berlin"@),
        ("ZRH"@, "Europe/Zurich"@),
        ("GVA"@, "Europe/Zurich"@),
        ("BSL"@, "Europe/Zurich"@),
        ("VIE"@, "Europe/Vienna"@),
        ("MAD"@, "Europe/Madrid"@),
        ("BCN"@, "Europe/Madrid"@),
        ("AGP"@, "Europe/Madrid"@),
        ("PMI"@, "Europe/Madrid"@),
        ("VLC"@, "Europe/Madrid"@),
        ("SVQ"@, "Europe/Madrid"@),
        ("BIO"@, "Europe/Madrid"@),
    ]
}

fn europe_a_pairs() -> (r: Vec<(String, String)>)
    ensures
        pair_views(r@) == europe_a_entries(),
{
    let mut v: Vec<(String, String)> = Vec::new();
    v.push(("LHR".to_owned(), "Europe/London".to_owned()));
    v.push(("LGW".to_owned(), "Europe/London".to_owned()));
    v.push(("STN".to_owned(), "Europe/London".to_owned()));
    v.push(("LTN".to_owned(), "Europe/London".to_owned()));
    v.push(("LCY".to_owned(), "Europe/London".to_owned()));
    v.push(("MAN".to_owned(), "Europe/London".to_owned()));
    v.push(("BHX".to_owned(), "Europe/London".to_owned()));
    v.push(("BRS".to_owned(), "Europe/London".to_owned()));
    v.push(("NCL".to_owned(), "Europe/London".to_owned()));
    v.push(("EDI".to_owned(), "Europe/London".to_owned()));
    v.push(("GLA".to_owned(), "Europe/London".to_owned()));
    v.push(("BFS".to_owned(), "Europe/London".to_owned()));
    v.push(("DUB".to_owned(), "Europe/Dublin".to_owned()));
    v.push(("ORK".to_owned(), "Europe/Dublin".to_owned()));
    v.push(("SNN".to_owned(), "Europe/Dublin".to_owned()));
    v.push(("CDG".to_owned(), "Europe/Paris".to_owned()));
    v.push(("ORY".to_owned(), "Europe/Paris".to_owned()));
    v.push(("NCE".to_owned(), "Europe/Paris".to_owned()));
    v.push(("LYS".to_owned(), "Europe/Paris".to_owned()));
    v.push(("MRS".to_owned(), "Europe/Paris".to_owned()));
    v.push(("TLS".to_owned(), "Europe/Paris".to_owned()));
    v.push(("BOD".to_owned(), "Europe/Paris".to_owned()));
    v.push(("NTE".to_owned(), "Europe/Paris".to_owned()));
    v.push(("AMS".to_owned(), "Europe/Amsterdam".to_owned()));
    v.push(("RTM".to_owned(), "Europe/Amsterdam".to_owned()));
    v.push(("EIN".to_owned(), "Europe/Amsterdam".to_owned()));
    v.push(("BRU".to_owned(), "Europe/Brussels".to_owned()));
    v.push(("CRL".to_owned(), "Europe/Brussels".to_owned()));
    v.push(("LUX".to_owned(), "Europe/Luxembourg".to_owned()));
    v.push(("FRA".to_owned(), "Europe/Berlin".to_owned()));
    v.push(("MUC".to_owned(), "Europe/Berlin".to_owned()));
    v.push(("BER".to_owned(), "Europe/Berlin".to_owned()));
    v.push(("DUS".to_owned(), "Europe/Berlin".to_owned()));
    v.push(("HAM".to_owned(), "Europe/Berlin".to_owned()));
    v.push(("CGN".to_owned(), "Europe/Berlin".to_owned()));
    v.push(("STR".to_owned(), "Europe/Berlin".to_owned()));
    v.push(("NUE".to_owned(), "Europe/Berlin".to_owned()));
    v.push(("LEJ".to_owned(), "Europe/Berlin".to_owned()));
    v.push(("ZRH".to_owned(), "Europe/Zurich".to_owned()));
    v.push(("GVA".to_owned(), "Europe/Zurich".to_owned()));
    v.push(("BSL".to_owned(), "Europe/Zurich".to_owned()));
    v.push(("VIE".to_owned(), "Europe/Vienna".to_owned()));
    v.push(("MAD".to_owned(), "Europe/Madrid".to_owned()));
    v.push(("BCN".to_owned(), "Europe/Madrid".to_owned()));
    v.push(("AGP".to_owned(), "Europe/Madrid".to_owned()));
    v.push(("PMI".to_owned(), "Europe/Madrid".to_owned()));
    v.push(("VLC".to_owned(), "Europe/Madrid".to_owned()));
    v.push(("SVQ".to_owned(), "Europe/Madrid".to_owned()));
    v.push(("BIO".to_owned(), "Europe/Madrid".to_owned()));
    proof {
        assert(pair_views(v@) =~= europe_a_entries());
    }
    v
}

/// Europe, Iceland, Turkey, Russia west of the Urals. (part two)
pub open spec fn europe_b_entries() -> Seq<(Seq<char>, Seq<char>)> {
    seq![
        ("LIS"@, "Europe/Lisbon"@),
        ("OPO"@, "Europe/Lisbon"@),
        ("FAO"@, "Europe/Lisbon"@),
        ("FCO"@, "Europe/Rome"@),
        ("MXP"@, "Europe/Rome"@),
        ("LIN"@, "Europe/Rome"@),
        ("BGY"@, "Europe/Rome"@),
        ("VCE"@, "Europe/Rome"@),
        ("NAP"@, "Europe/Rome"@),
        ("BLQ"@, "Europe/Rome"@),
        ("FLR"@, "Europe/Rome"@),
        ("PSA"@, "Europe/Rome"@),
        ("CTA"@, "Europe/Rome"@),
        ("PMO"@, "Europe/Rome"@),
        ("ATH"@, "Europe/Athens"@),
        ("SKG"@, "Europe/Athens"@),
        ("CPH"@, "Europe/Copenhagen"@),
        ("ARN"@, "Europe/Stockholm"@),
        ("GOT"@, "Europe/Stockholm"@),
        ("OSL"@, "Europe/Oslo"@),
        ("BGO"@, "Europe/Oslo"@),
        ("TRD"@, "Europe/Oslo"@),
        ("HEL"@, "Europe/Helsinki"@),
        ("WAW"@, "Europe/Warsaw"@),
        ("KRK"@, "Europe/Warsaw"@),
        ("GDN"@, "Europe/Warsaw"@),
        ("PRG"@, "Europe/Prague"@),
        ("BUD"@, "Europe/Budapest"@),
        ("OTP"@, "Europe/Bucharest"@),
        ("SOF"@, "Europe/Sofia"@),
        ("BEG"@, "Europe/Belgrade"@),
        ("ZAG"@, "Europe/Zagreb"@),
        ("LJU"@, "Europe/Ljubljana"@),
        ("BTS"@, "Europe/Bratislava"@),
        ("VNO"@, "Europe/Vilnius"@),
        ("RIX"@, "Europe/Riga"@),
        ("TLL"@, "Europe/Tallinn"@),
        ("KEF"@, "Atlantic/Reykjavik"@),
        ("MLA"@, "Europe/Malta"@),
        ("LCA"@, "Asia/Nicosia"@),
        ("IST"@, "Europe/Istanbul"@),
        ("SAW"@, "Europe/Istanbul"@),
        ("AYT"@, "Europe/Istanbul"@),
        ("ESB"@, "Europe/Istanbul"@),
        ("SVO"@, "Europe/Moscow"@),
        ("DME"@, "Europe/Moscow"@),
        ("LED"@, "Europe/Moscow"@),
        ("KBP"@, "Europe/Kiev"@),
        ("MSQ"@, "Europe/Minsk"@),
    ]
}

fn europe_b_pairs() -> (r: Vec<(String, String)>)
    ensures
        pair_views(r@) == europe_b_entries(),
{
    let mut v: Vec<(String, String)> = Vec::new();
    v.push(("LIS".to_owned(), "Europe/Lisbon".to_owned()));
    v.push(("OPO".to_owned(), "Europe/Lisbon".to_owned()));
    v.push(("FAO".to_owned(), "Europe/Lisbon".to_owned()));
    v.push(("FCO".to_owned(), "Europe/Rome".to_owned()));
    v.push(("MXP".to_owned(), "Europe/Rome".to_owned()));
    v.push(("LIN".to_owned(), "Europe/Rome".to_owned()));
    v.push(("BGY".to_owned(), "Europe/Rome".to_owned()));
    v.push(("VCE".to_owned(), "Europe/Rome".to_owned()));
    v.push(("NAP".to_owned(), "Europe/Rome".to_owned()));
    v.push(("BLQ".to_owned(), "Europe/Rome".to_owned()));
    v.push(("FLR".to_owned(), "Europe/Rome".to_owned()));
    v.push(("PSA".to_owned(), "Europe/Rome".to_owned()));
    v.push(("CTA".to_owned(), "Europe/Rome".to_owned()));
    v.push(("PMO".to_owned(), "Europe/Rome".to_owned()));
    v.push(("ATH".to_owned(), "Europe/Athens".to_owned()));
    v.push(("SKG".to_owned(), "Europe/Athens".to_owned()));
    v.push(("CPH".to_owned(), "Europe/Copenhagen".to_owned()));
    v.push(("ARN".to_owned(), "Europe/Stockholm".to_owned()));
    v.push(("GOT".to_owned(), "Europe/Stockholm".to_owned()));
    v.push(("OSL".to_owned(), "Europe/Oslo".to_owned()));
    v.push(("BGO".to_owned(), "Europe/Oslo".to_owned()));
    v.push(("TRD".to_owned(), "Europe/Oslo".to_owned()));
    v.push(("HEL".to_owned(), "Europe/Helsinki".to_owned()));
    v.push(("WAW".to_owned(), "Europe/Warsaw".to_owned()));
    v.push(("KRK".to_owned(), "Europe/Warsaw".to_owned()));
    v.push(("GDN".to_owned(), "Europe/Warsaw".to_owned()));
    v.push(("PRG".to_owned(), "Europe/Prague".to_owned()));
    v.push(("BUD".to_owned(), "Europe/Budapest".to_owned()));
    v.push(("OTP".to_owned(), "Europe/Bucharest".to_owned()));
    v.push(("SOF".to_owned(), "Europe/Sofia".to_owned()));
    v.push(("BEG".to_owned(), "Europe/Belgrade".to_owned()));
    v.push(("ZAG".to_owned(), "Europe/Zagreb".to_owned()));
    v.push(("LJU".to_owned(), "Europe/Ljubljana".to_owned()));
    v.push(("BTS".to_owned(), "Europe/Bratislava".to_owned()));
    v.push(("VNO".to_owned(), "Europe/Vilnius".to_owned()));
    v.push(("RIX".to_owned(), "Europe/Riga".to_owned()));
    v.push(("TLL".to_owned(), "Europe/Tallinn".to_owned()));
    v.push(("KEF".to_owned(), "Atlantic/Reykjavik".to_owned()));
    v.push(("MLA".to_owned(), "Europe/Malta".to_owned()));
    v.push(("LCA".to_owned(), "Asia/Nicosia".to_owned()));
    v.push(("IST".to_owned(), "Europe/Istanbul".to_owned()));
    v.push(("SAW".to_owned(), "Europe/Istanbul".to_owned()));
    v.push(("AYT".to_owned(), "Europe/Istanbul".to_owned()));
    v.push(("ESB".to_owned(), "Europe/Istanbul".to_owned()));
    v.push(("SVO".to_owned(), "Europe/Moscow".to_owned()));
    v.push(("DME".to_owned(), "Europe/Moscow".to_owned()));
    v.push(("LED".to_owned(), "Europe/Moscow".to_owned()));
    v.push(("KBP".to_owned(), "Europe/Kiev".to_owned()));
    v.push(("MSQ".to_owned(), "Europe/Minsk".to_owned()));
    proof {
        assert(pair_views(v@) =~= europe_b_entries());
    }
    v
}

/// United States, Canada, Mexico, the Caribbean rim. (part one)
pub open spec fn north_america_a_entries() -> Seq<(Seq<char>, Seq<char>)> {
    seq![
        ("JFK"@, "America/New_York"@),
        ("LGA"@, "America/New_York"@),
        ("EWR"@, "America/New_York"@),
        ("BOS"@, "America/New_York"@),
        ("PHL"@, "America/New_York"@),
        ("DCA"@, "America/New_York"@),
        ("IAD"@, "America/New_York"@),
        ("BWI"@, "America/New_York"@),
        ("ATL"@, "America/New_York"@),
        ("MIA"@, "America/New_York"@),
        ("MCO"@, "America/New_York"@),
        ("TPA"@, "America/New_York"@),
        ("FLL"@, "America/New_York"@),
        ("RSW"@, "America/New_York"@),
        ("JAX"@, "America/New_York"@),
        ("CLT"@, "America/New_York"@),
        ("RDU"@, "America/New_York"@),
        ("PIT"@, "America/New_York"@),
        ("DTW"@, "America/Detroit"@),
        ("CLE"@, "America/New_York"@),
        ("CMH"@, "America/New_York"@),
        ("CVG"@, "America/New_York"@),
        ("IND"@, "America/Indiana/Indianapolis"@),
        ("BNA"@, "America/Chicago"@),
        ("MEM"@, "America/Chicago"@),
        ("ORD"@, "America/Chicago"@),
        ("MDW"@, "America/Chicago"@),
        ("MSP"@, "America/Chicago"@),
        ("STL"@, "America/Chicago"@),
        ("MCI"@, "America/Chicago"@),
        ("MKE"@, "America/Chicago"@),
        ("DFW"@, "America/Chicago"@),
        ("DAL"@, "America/Chicago"@),
        ("IAH"@, "America/Chicago"@),
        ("HOU"@, "America/Chicago"@),
        ("AUS"@, "America/Chicago"@),
    ]
}

fn north_america_a_pairs() -> (r: Vec<(String, String)>)
    ensures
        pair_views(r@) == north_america_a_entries(),
{
    let mut v: Vec<(String, String)> = Vec::new();
    v.push(("JFK".to_owned(), "America/New_York".to_owned()));
    v.push(("LGA".to_owned(), "America/New_York".to_owned()));
    v.push(("EWR".to_owned(), "America/New_York".to_owned()));
    v.push(("BOS".to_owned(), "America/New_York".to_owned()));
    v.push(("PHL".to_owned(), "America/New_York".to_owned()));
    v.push(("DCA".to_owned(), "America/New_York".to_owned()));
    v.push(("IAD".to_owned(), "America/New_York".to_owned()));
    v.push(("BWI".to_owned(), "America/New_York".to_owned()));
    v.push(("ATL".to_owned(), "America/New_York".to_owned()));
    v.push(("MIA".to_owned(), "America/New_York".to_owned()));
    v.push(("MCO".to_owned(), "America/New_York".to_owned()));
    v.push(("TPA".to_owned(), "America/New_York".to_owned()));
    v.push(("FLL".to_owned(), "America/New_York".to_owned()));
    v.push(("RSW".to_owned(), "America/New_York".to_owned()));
    v.push(("JAX".to_owned(), "America/New_York".to_owned()));
    v.push(("CLT".to_owned(), "America/New_York".to_owned()));
    v.push(("RDU".to_owned(), "America/New_York".to_owned()));
    v.push(("PIT".to_owned(), "America/New_York".to_owned()));
    v.push(("DTW".to_owned(), "America/Detroit".to_owned()));
    v.push(("CLE".to_owned(), "America/New_York".to_owned()));
    v.push(("CMH".to_owned(), "America/New_York".to_owned()));
    v.push(("CVG".to_owned(), "America/New_York".to_owned()));
    v.push(("IND".to_owned(), "America/Indiana/Indianapolis".to_owned()));
    v.push(("BNA".to_owned(), "America/Chicago".to_owned()));
    v.push(("MEM".to_owned(), "America/Chicago".to_owned()));
    v.push(("ORD".to_owned(), "America/Chicago".to_owned()));
    v.push(("MDW".to_owned(), "America/Chicago".to_owned()));
    v.push(("MSP".to_owned(), "America/Chicago".to_owned()));
    v.push(("STL".to_owned(), "America/Chicago".to_owned()));
    v.push(("MCI".to_owned(), "America/Chicago".to_owned()));
    v.push(("MKE".to_owned(), "America/Chicago".to_owned()));
    v.push(("DFW".to_owned(), "America/Chicago".to_owned()));
    v.push(("DAL".to_owned(), "America/Chicago".to_owned()));
    v.push(("IAH".to_owned(), "America/Chicago".to_owned()));
    v.push(("HOU".to_owned(), "America/Chicago".to_owned()));
    v.push(("AUS".to_owned(), "America/Chicago".to_owned()));
    proof {
        assert(pair_views(v@) =~= north_america_a_entries());
    }
    v
}

/// United States, Canada, Mexico, the Caribbean rim. (part two)
pub open spec fn north_america_b_entries() -> Seq<(Seq<char>, Seq<char>)> {
    seq![
        ("SAT"@, "America/Chicago"@),
        ("MSY"@, "America/Chicago"@),
        ("OKC"@, "America/Chicago"@),
        ("DEN"@, "America/Denver"@),
        ("SLC"@, "America/Denver"@),
        ("ABQ"@, "America/Denver"@),
        ("ELP"@, "America/Denver"@),
        ("PHX"@, "America/Phoenix"@),
        ("LAX"@, "America/Los_Angeles"@),
        ("SFO"@, "America/Los_Angeles"@),
        ("SAN"@, "America/Los_Angeles"@),
        ("OAK"@, "America/Los_Angeles"@),
        ("SJC"@, "America/Los_Angeles"@),
        ("SMF"@, "America/Los_Angeles"@),
        ("SNA"@, "America/Los_Angeles"@),
        ("BUR"@, "America/Los_Angeles"@),
        ("LAS"@, "America/Los_Angeles"@),
        ("RNO"@, "America/Los_Angeles"@),
        ("SEA"@, "America/Los_Angeles"@),
        ("PDX"@, "America/Los_Angeles"@),
        ("ANC"@, "America/Anchorage"@),
        ("HNL"@, "Pacific/Honolulu"@),
        ("YYZ"@, "America/Toronto"@),
        ("YOW"@, "America/Toronto"@),
        ("YUL"@, "America/Toronto"@),
        ("YQB"@, "America/Toronto"@),
        ("YVR"@, "America/Vancouver"@),
        ("YYC"@, "America/Edmonton"@),
        ("YEG"@, "America/Edmonton"@),
        ("YWG"@, "America/Winnipeg"@),
        ("YHZ"@, "America/Halifax"@),
        ("MEX"@, "America/Mexico_City"@),
        ("GDL"@, "America/Mexico_City"@),
        ("MTY"@, "America/Monterrey"@),
        ("CUN"@, "America/Cancun"@),
        ("SJU"@, "America/Puerto_Rico"@),
    ]
}

fn north_america_b_pairs() -> (r: Vec<(String, String)>)
    ensures
        pair_views(r@) == north_america_b_entries(),
{
    let mut v: Vec<(String, String)> = Vec::new();
    v.push(("SAT".to_owned(), "America/Chicago".to_owned()));
    v.push(("MSY".to_owned(), "America/Chicago".to_owned()));
    v.push(("OKC".to_owned(), "America/Chicago".to_owned()));
    v.push(("DEN".to_owned(), "America/Denver".to_owned()));
    v.push(("SLC".to_owned(), "America/Denver".to_owned()));
    v.push(("ABQ".to_owned(), "America/Denver".to_owned()));
    v.push(("ELP".to_owned(), "America/Denver".to_owned()));
    v.push(("PHX".to_owned(), "America/Phoenix".to_owned()));
    v.push(("LAX".to_owned(), "America/Los_Angeles".to_owned()));
    v.push(("SFO".to_owned(), "America/Los_Angeles".to_owned()));
    v.push(("SAN".to_owned(), "America/Los_Angeles".to_owned()));
    v.push(("OAK".to_owned(), "America/Los_Angeles".to_owned()));
    v.push(("SJC".to_owned(), "America/Los_Angeles".to_owned()));
    v.push(("SMF".to_owned(), "America/Los_Angeles".to_owned()));
    v.push(("SNA".to_owned(), "America/Los_Angeles".to_owned()));
    v.push(("BUR".to_owned(), "America/Los_Angeles".to_owned()));
    v.push(("LAS".to_owned(), "America/Los_Angeles".to_owned()));
    v.push(("RNO".to_owned(), "America/Los_Angeles".to_owned()));
    v.push(("SEA".to_owned(), "America/Los_Angeles".to_owned()));
    v.push(("PDX".to_owned(), "America/Los_Angeles".to_owned()));
    v.push(("ANC".to_owned(), "America/Anchorage".to_owned()));
    v.push(("HNL".to_owned(), "Pacific/Honolulu".to_owned()));
    v.push(("YYZ".to_owned(), "America/Toronto".to_owned()));
    v.push(("YOW".to_owned(), "America/Toronto".to_owned()));
    v.push(("YUL".to_owned(), "America/Toronto".to_owned()));
    v.push(("YQB".to_owned(), "America/Toronto".to_owned()));
    v.push(("YVR".to_owned(), "America/Vancouver".to_owned()));
    v.push(("YYC".to_owned(), "America/Edmonton".to_owned()));
    v.push(("YEG".to_owned(), "America/Edmonton".to_owned()));
    v.push(("YWG".to_owned(), "America/Winnipeg".to_owned()));
    v.push(("YHZ".to_owned(), "America/Halifax".to_owned()));
    v.push(("MEX".to_owned(), "America/Mexico_City".to_owned()));
    v.push(("GDL".to_owned(), "America/Mexico_City".to_owned()));
    v.push(("MTY".to_owned(), "America/Monterrey".to_owned()));
    v.push(("CUN".to_owned(), "America/Cancun".to_owned()));
    v.push(("SJU".to_owned(), "America/Puerto_Rico".to_owned()));
    proof {
        assert(pair_views(v@) =~= north_america_b_entries());
    }
    v
}

/// South and Central America, the Caribbean.
pub open spec fn latin_america_entries() -> Seq<(Seq<char>, Seq<char>)> {
    seq![
        ("GRU"@, "America/Sao_Paulo"@),
        ("CGH"@, "America/Sao_Paulo"@),
        ("GIG"@, "America/Sao_Paulo"@),
        ("SDU"@, "America/Sao_Paulo"@),
        ("BSB"@, "America/Sao_Paulo"@),
        ("CNF"@, "America/Sao_Paulo"@),
        ("EZE"@, "America/Argentina/Buenos_Aires"@),
        ("AEP"@, "America/Argentina/Buenos_Aires"@),
        ("SCL"@, "America/Santiago"@),
        ("LIM"@, "America/Lima"@),
        ("BOG"@, "America/Bogota"@),
        ("MDE"@, "America/Bogota"@),
        ("UIO"@, "America/Guayaquil"@),
        ("CCS"@, "America/Caracas"@),
        ("MVD"@, "America/Montevideo"@),
        ("ASU"@, "America/Asuncion"@),
        ("LPB"@, "America/La_Paz"@),
        ("PTY"@, "America/Panama"@),
        ("SJO"@, "America/Costa_Rica"@),
        ("GUA"@, "America/Guatemala"@),
        ("SAL"@, "America/El_Salvador"@),
        ("HAV"@, "America/Havana"@),
        ("KIN"@, "America/Jamaica"@),
        ("NAS"@, "America/Nassau"@),
        ("BGI"@, "America/Barbados"@),
        ("POS"@, "America/Port_of_Spain"@),
    ]
}

fn latin_america_pairs() -> (r: Vec<(String, String)>)
    ensures
        pair_views(r@) == latin_america_entries(),
{
    let mut v: Vec<(String, String)> = Vec::new();
    v.push(("GRU".to_owned(), "America/Sao_Paulo".to_owned()));
    v.push(("CGH".to_owned(), "America/Sao_Paulo".to_owned()));
    v.push(("GIG".to_owned(), "America/Sao_Paulo".to_owned()));
    v.push(("SDU".to_owned(), "America/Sao_Paulo".to_owned()));
    v.push(("BSB".to_owned(), "America/Sao_Paulo".to_owned()));
    v.push(("CNF".to_owned(), "America/Sao_Paulo".to_owned()));
    v.push(("EZE".to_owned(), "America/Argentina/Buenos_Aires".to_owned()));
    v.push(("AEP".to_owned(), "America/Argentina/Buenos_Aires".to_owned()));
    v.push(("SCL".to_owned(), "America/Santiago".to_owned()));
    v.push(("LIM".to_owned(), "America/Lima".to_owned()));
    v.push(("BOG".to_owned(), "America/Bogota".to_owned()));
    v.push(("MDE".to_owned(), "America/Bogota".to_owned()));
    v.push(("UIO".to_owned(), "America/Guayaquil".to_owned()));
    v.push(("CCS".to_owned(), "America/Caracas".to_owned()));
    v.push(("MVD".to_owned(), "America/Montevideo".to_owned()));
    v.push(("ASU".to_owned(), "America/Asuncion".to_owned()));
    v.push(("LPB".to_owned(), "America/La_Paz".to_owned()));
    v.push(("PTY".to_owned(), "America/Panama".to_owned()));
    v.push(("SJO".to_owned(), "America/Costa_Rica".to_owned()));
    v.push(("GUA".to_owned(), "America/Guatemala".to_owned()));
    v.push(("SAL".to_owned(), "America/El_Salvador".to_owned()));
    v.push(("HAV".to_owned(), "America/Havana".to_owned()));
    v.push(("KIN".to_owned(), "America/Jamaica".to_owned()));
    v.push(("NAS".to_owned(), "America/Nassau".to_owned()));
    v.push(("BGI".to_owned(), "America/Barbados".to_owned()));
    v.push(("POS".to_owned(), "America/Port_of_Spain".to_owned()));
    proof {
        assert(pair_views(v@) =~= latin_america_entries());
    }
    v
}

/// East, South-East, South and West Asia. (part one)
pub open spec fn asia_a_entries() -> Seq<(Seq<char>, Seq<char>)> {
    seq![
        ("NRT"@, "Asia/Tokyo"@),
        ("HND"@, "Asia/Tokyo"@),
        ("KIX"@, "Asia/Tokyo"@),
        ("ITM"@, "Asia/Tokyo"@),
        ("NGO"@, "Asia/Tokyo"@),
        ("CTS"@, "Asia/Tokyo"@),
        ("FUK"@, "Asia/Tokyo"@),
        ("OKA"@, "Asia/Tokyo"@),
        ("ICN"@, "Asia/Seoul"@),
        ("GMP"@, "Asia/Seoul"@),
        ("PUS"@, "Asia/Seoul"@),
        ("PEK"@, "Asia/Shanghai"@),
        ("PKX"@, "Asia/Shanghai"@),
        ("PVG"@, "Asia/Shanghai"@),
        ("SHA"@, "Asia/Shanghai"@),
        ("CAN"@, "Asia/Shanghai"@),
        ("SZX"@, "Asia/Shanghai"@),
        ("CTU"@, "Asia/Shanghai"@),
        ("XIY"@, "Asia/Shanghai"@),
        ("KMG"@, "Asia/Shanghai"@),
        ("HGH"@, "Asia/Shanghai"@),
        ("SHE"@, "Asia/Shanghai"@),
        ("DLC"@, "Asia/Shanghai"@),
        ("TSN"@, "Asia/Shanghai"@),
        ("WUH"@, "Asia/Shanghai"@),
        ("HKG"@, "Asia/Hong_Kong"@),
        ("MFM"@, "Asia/Macau"@),
        ("TPE"@, "Asia/Taipei"@),
        ("TSA"@, "Asia/Taipei"@),
        ("KHH"@, "Asia/Taipei"@),
        ("MNL"@, "Asia/Manila"@),
        ("CEB"@, "Asia/Manila"@),
        ("BKK"@, "Asia/Bangkok"@),
        ("DMK"@, "Asia/Bangkok"@),
        ("HKT"@, "Asia/Bangkok"@),
        ("CNX"@, "Asia/Bangkok"@),
        ("SIN"@, "Asia/Singapore"@),
        ("KUL"@, "Asia/Kuala_Lumpur"@),
        ("PEN"@, "Asia/Kuala_Lumpur"@),
        ("BKI"@, "Asia/Kuching"@),
        ("CGK"@, "Asia/Jakarta"@),
        ("SUB"@, "Asia/Jakarta"@),
        ("DPS"@, "Asia/Makassar"@),
    ]
}

fn asia_a_pairs() -> (r: Vec<(String, String)>)
    ensures
        pair_views(r@) == asia_a_entries(),
{
    let mut v: Vec<(String, String)> = Vec::new();
    v.push(("NRT".to_owned(), "Asia/Tokyo".to_owned()));
    v.push(("HND".to_owned(), "Asia/Tokyo".to_owned()));
    v.push(("KIX".to_owned(), "Asia/Tokyo".to_owned()));
    v.push(("ITM".to_owned(), "Asia/Tokyo".to_owned()));
    v.push(("NGO".to_owned(), "Asia/Tokyo".to_owned()));
    v.push(("CTS".to_owned(), "Asia/Tokyo".to_owned()));
    v.push(("FUK".to_owned(), "Asia/Tokyo".to_owned()));
    v.push(("OKA".to_owned(), "Asia/Tokyo".to_owned()));
    v.push(("ICN".to_owned(), "Asia/Seoul".to_owned()));
    v.push(("GMP".to_owned(), "Asia/Seoul".to_owned()));
    v.push(("PUS".to_owned(), "Asia/Seoul".to_owned()));
    v.push(("PEK".to_owned(), "Asia/Shanghai".to_owned()));
    v.push(("PKX".to_owned(), "Asia/Shanghai".to_owned()));
    v.push(("PVG".to_owned(), "Asia/Shanghai".to_owned()));
    v.push(("SHA".to_owned(), "Asia/Shanghai".to_owned()));
    v.push(("CAN".to_owned(), "Asia/Shanghai".to_owned()));
    v.push(("SZX".to_owned(), "Asia/Shanghai".to_owned()));
    v.push(("CTU".to_owned(), "Asia/Shanghai".to_owned()));
    v.push(("XIY".to_owned(), "Asia/Shanghai".to_owned()));
    v.push(("KMG".to_owned(), "Asia/Shanghai".to_owned()));
    v.push(("HGH".to_owned(), "Asia/Shanghai".to_owned()));
    v.push(("SHE".to_owned(), "Asia/Shanghai".to_owned()));
    v.push(("DLC".to_owned(), "Asia/Shanghai".to_owned()));
    v.push(("TSN".to_owned(), "Asia/Shanghai".to_owned()));
    v.push(("WUH".to_owned(), "Asia/Shanghai".to_owned()));
    v.push(("HKG".to_owned(), "Asia/Hong_Kong".to_owned()));
    v.push(("MFM".to_owned(), "Asia/Macau".to_owned()));
    v.push(("TPE".to_owned(), "Asia/Taipei".to_owned()));
    v.push(("TSA".to_owned(), "Asia/Taipei".to_owned()));
    v.push(("KHH".to_owned(), "Asia/Taipei".to_owned()));
    v.push(("MNL".to_owned(), "Asia/Manila".to_owned()));
    v.push(("CEB".to_owned(), "Asia/Manila".to_owned()));
    v.push(("BKK".to_owned(), "Asia/Bangkok".to_owned()));
    v.push(("DMK".to_owned(), "Asia/Bangkok".to_owned()));
    v.push(("HKT".to_owned(), "Asia/Bangkok".to_owned()));
    v.push(("CNX".to_owned(), "Asia/Bangkok".to_owned()));
    v.push(("SIN".to_owned(), "Asia/Singapore".to_owned()));
    v.push(("KUL".to_owned(), "Asia/Kuala_Lumpur".to_owned()));
    v.push(("PEN".to_owned(), "Asia/Kuala_Lumpur".to_owned()));
    v.push(("BKI".to_owned(), "Asia/Kuching".to_owned()));
    v.push(("CGK".to_owned(), "Asia/Jakarta".to_owned()));
    v.push(("SUB".to_owned(), "Asia/Jakarta".to_owned()));
    v.push(("DPS".to_owned(), "Asia/Makassar".to_owned()));
    proof {
        assert(pair_views(v@) =~= asia_a_entries());
    }
    v
}

/// East, South-East, South and West Asia. (part two)
pub open spec fn asia_b_entries() -> Seq<(Seq<char>, Seq<char>)> {
    seq![
        ("SGN"@, "Asia/Ho_Chi_Minh"@),
        ("PNH"@, "Asia/Phnom_Penh"@),
        ("VTE"@, "Asia/Vientiane"@),
        ("RGN"@, "Asia/Yangon"@),
        ("DAC"@, "Asia/Dhaka"@),
        ("KTM"@, "Asia/Kathmandu"@),
        ("CMB"@, "Asia/Colombo"@),
        ("DEL"@, "Asia/Kolkata"@),
        ("BOM"@, "Asia/Kolkata"@),
        ("BLR"@, "Asia/Kolkata"@),
        ("MAA"@, "Asia/Kolkata"@),
        ("CCU"@, "Asia/Kolkata"@),
        ("HYD"@, "Asia/Kolkata"@),
        ("AMD"@, "Asia/Kolkata"@),
        ("COK"@, "Asia/Kolkata"@),
        ("GOI"@, "Asia/Kolkata"@),
        ("PNQ"@, "Asia/Kolkata"@),
        ("ISB"@, "Asia/Karachi"@),
        ("KHI"@, "Asia/Karachi"@),
        ("LHE"@, "Asia/Karachi"@),
        ("KBL"@, "Asia/Kabul"@),
        ("DXB"@, "Asia/Dubai"@),
        ("AUH"@, "Asia/Dubai"@),
        ("SHJ"@, "Asia/Dubai"@),
        ("DOH"@, "Asia/Qatar"@),
        ("BAH"@, "Asia/Bahrain"@),
        ("KWI"@, "Asia/Kuwait"@),
        ("RUH"@, "Asia/Riyadh"@),
        ("JED"@, "Asia/Riyadh"@),
        ("DMM"@, "Asia/Riyadh"@),
        ("MCT"@, "Asia/Muscat"@),
        ("AMM"@, "Asia/Amman"@),
        ("BEY"@, "Asia/Beirut"@),
        ("TLV"@, "Asia/Jerusalem"@),
        ("BGW"@, "Asia/Baghdad"@),
        ("IKA"@, "Asia/Tehran"@),
        ("THR"@, "Asia/Tehran"@),
        ("TBS"@, "Asia/Tbilisi"@),
        ("EVN"@, "Asia/Yerevan"@),
        ("GYD"@, "Asia/Baku"@),
        ("ALA"@, "Asia/Almaty"@),
        ("TAS"@, "Asia/Tashkent"@),
        ("ULN"@, "Asia/Ulaanbaatar"@),
    ]
}

fn asia_b_pairs() -> (r: Vec<(String, String)>)
    ensures
        pair_views(r@) == asia_b_entries(),
{
    let mut v: Vec<(String, String)> = Vec::new();
    v.push(("SGN".to_owned(), "Asia/Ho_Chi_Minh".to_owned()));
    v.push(("PNH".to_owned(), "Asia/Phnom_Penh".to_owned()));
    v.push(("VTE".to_owned(), "Asia/Vientiane".to_owned()));
    v.push(("RGN".to_owned(), "Asia/Yangon".to_owned()));
    v.push(("DAC".to_owned(), "Asia/Dhaka".to_owned()));
    v.push(("KTM".to_owned(), "Asia/Kathmandu".to_owned()));
    v.push(("CMB".to_owned(), "Asia/Colombo".to_owned()));
    v.push(("DEL".to_owned(), "Asia/Kolkata".to_owned()));
    v.push(("BOM".to_owned(), "Asia/Kolkata".to_owned()));
    v.push(("BLR".to_owned(), "Asia/Kolkata".to_owned()));
    v.push(("MAA".to_owned(), "Asia/Kolkata".to_owned()));
    v.push(("CCU".to_owned(), "Asia/Kolkata".to_owned()));
    v.push(("HYD".to_owned(), "Asia/Kolkata".to_owned()));
    v.push(("AMD".to_owned(), "Asia/Kolkata".to_owned()));
    v.push(("COK".to_owned(), "Asia/Kolkata".to_owned()));
    v.push(("GOI".to_owned(), "Asia/Kolkata".to_owned()));
    v.push(("PNQ".to_owned(), "Asia/Kolkata".to_owned()));
    v.push(("ISB".to_owned(), "Asia/Karachi".to_owned()));
    v.push(("KHI".to_owned(), "Asia/Karachi".to_owned()));
    v.push(("LHE".to_owned(), "Asia/Karachi".to_owned()));
    v.push(("KBL".to_owned(), "Asia/Kabul".to_owned()));
    v.push(("DXB".to_owned(), "Asia/Dubai".to_owned()));
    v.push(("AUH".to_owned(), "Asia/Dubai".to_owned()));
    v.push(("SHJ".to_owned(), "Asia/Dubai".to_owned()));
    v.push(("DOH".to_owned(), "Asia/Qatar".to_owned()));
    v.push(("BAH".to_owned(), "Asia/Bahrain".to_owned()));
    v.push(("KWI".to_owned(), "Asia/Kuwait".to_owned()));
    v.push(("RUH".to_owned(), "Asia/Riyadh".to_owned()));
    v.push(("JED".to_owned(), "Asia/Riyadh".to_owned()));
    v.push(("DMM".to_owned(), "Asia/Riyadh".to_owned()));
    v.push(("MCT".to_owned(), "Asia/Muscat".to_owned()));
    v.push(("AMM".to_owned(), "Asia/Amman".to_owned()));
    v.push(("BEY".to_owned(), "Asia/Beirut".to_owned()));
    v.push(("TLV".to_owned(), "Asia/Jerusalem".to_owned()));
    v.push(("BGW".to_owned(), "Asia/Baghdad".to_owned()));
    v.push(("IKA".to_owned(), "Asia/Tehran".to_owned()));
    v.push(("THR".to_owned(), "Asia/Tehran".to_owned()));
    v.push(("TBS".to_owned(), "Asia/Tbilisi".to_owned()));
    v.push(("EVN".to_owned(), "Asia/Yerevan".to_owned()));
    v.push(("GYD".to_owned(), "Asia/Baku".to_owned()));
    v.push(("ALA".to_owned(), "Asia/Almaty".to_owned()));
    v.push(("TAS".to_owned(), "Asia/Tashkent".to_owned()));
    v.push(("ULN".to_owned(), "Asia/Ulaanbaatar".to_owned()));
    proof {
        assert(pair_views(v@) =~= asia_b_entries());
    }
    v
}

/// Australia, New Zealand, the Pacific.
pub open spec fn oceania_entries() -> Seq<(Seq<char>, Seq<char>)> {
    seq![
        ("SYD"@, "Australia/Sydney"@),
        ("CBR"@, "Australia/Sydney"@),
        ("MEL"@, "Australia/Melbourne"@),
        ("BNE"@, "Australia/Brisbane"@),
        ("OOL"@, "Australia/Brisbane"@),
        ("ADL"@, "Australia/Adelaide"@),
        ("PER"@, "Australia/Perth"@),
        ("DRW"@, "Australia/Darwin"@),
        ("HBA"@, "Australia/Hobart"@),
        ("AKL"@, "Pacific/Auckland"@),
        ("WLG"@, "Pacific/Auckland"@),
        ("CHC"@, "Pacific/Auckland"@),
        ("ZQN"@, "Pacific/Auckland"@),
        ("NAN"@, "Pacific/Fiji"@),
        ("PPT"@, "Pacific/Tahiti"@),
        ("GUM"@, "Pacific/Guam"@),
        ("NOU"@, "Pacific/Noumea"@),
        ("POM"@, "Pacific/Port_Moresby"@),
        ("APW"@, "Pacific/Apia"@),
    ]
}

fn oceania_pairs() -> (r: Vec<(String, String)>)
    ensures
        pair_views(r@) == oceania_entries(),
{
    let mut v: Vec<(String, String)> = Vec::new();
    v.push(("SYD".to_owned(), "Australia/Sydney".to_owned()));
    v.push(("CBR".to_owned(), "Australia/Sydney".to_owned()));
    v.push(("MEL".to_owned(), "Australia/Melbourne".to_owned()));
    v.push(("BNE".to_owned(), "Australia/Brisbane".to_owned()));
    v.push(("OOL".to_owned(), "Australia/Brisbane".to_owned()));
    v.push(("ADL".to_owned(), "Australia/Adelaide".to_owned()));
    v.push(("PER".to_owned(), "Australia/Perth".to_owned()));
    v.push(("DRW".to_owned(), "Australia/Darwin".to_owned()));
    v.push(("HBA".to_owned(), "Australia/Hobart".to_owned()));
    v.push(("AKL".to_owned(), "Pacific/Auckland".to_owned()));
    v.push(("WLG".to_owned(), "Pacific/Auckland".to_owned()));
    v.push(("CHC".to_owned(), "Pacific/Auckland".to_owned()));
    v.push(("ZQN".to_owned(), "Pacific/Auckland".to_owned()));
    v.push(("NAN".to_owned(), "Pacific/Fiji".to_owned()));
    v.push(("PPT".to_owned(), "Pacific/Tahiti".to_owned()));
    v.push(("GUM".to_owned(), "Pacific/Guam".to_owned()));
    v.push(("NOU".to_owned(), "Pacific/Noumea".to_owned()));
    v.push(("POM".to_owned(), "Pacific/Port_Moresby".to_owned()));
    v.push(("APW".to_owned(), "Pacific/Apia".to_owned()));
    proof {
        assert(pair_views(v@) =~= oceania_entries());
    }
    v
}

/// Africa and the Indian Ocean.
pub open spec fn africa_entries() -> Seq<(Seq<char>, Seq<char>)> {
    seq![
        ("JNB"@, "Africa/Johannesburg"@),
        ("CPT"@, "Africa/Johannesburg"@),
        ("DUR"@, "Africa/Johannesburg"@),
        ("NBO"@, "Africa/Nairobi"@),
        ("ADD"@, "Africa/Addis_Ababa"@),
        ("CAI"@, "Africa/Cairo"@),
        ("HRG"@, "Africa/Cairo"@),
        ("SSH"@, "Africa/Cairo"@),
        ("CMN"@, "Africa/Casablanca"@),
        ("RAK"@, "Africa/Casablanca"@),
        ("ALG"@, "Africa/Algiers"@),
        ("TUN"@, "Africa/Tunis"@),
        ("TIP"@, "Africa/Tripoli"@),
        ("LOS"@, "Africa/Lagos"@),
        ("ABV"@, "Africa/Lagos"@),
        ("ACC"@, "Africa/Accra"@),
        ("DKR"@, "Africa/Dakar"@),
        ("ABJ"@, "Africa/Abidjan"@),
        ("DAR"@, "Africa/Dar_es_Salaam"@),
        ("EBB"@, "Africa/Kampala"@),
        ("KGL"@, "Africa/Kigali"@),
        ("LAD"@, "Africa/Luanda"@),
        ("WDH"@, "Africa/Windhoek"@),
        ("GBE"@, "Africa/Gaborone"@),
        ("HRE"@, "Africa/Harare"@),
        ("LUN"@, "Africa/Lusaka"@),
        ("KRT"@, "Africa/Khartoum"@),
        ("MRU"@, "Indian/Mauritius"@),
        ("SEZ"@, "Indian/Mahe"@),
        ("TNR"@, "Indian/Antananarivo"@),
    ]
}

fn africa_pairs() -> (r: Vec<(String, String)>)
    ensures
        pair_views(r@) == africa_entries(),
{
    let mut v: Vec<(String, String)> = Vec::new();
    v.push(("JNB".to_owned(), "Africa/Johannesburg".to_owned()));
    v.push(("CPT".to_owned(), "Africa/Johannesburg".to_owned()));
    v.push(("DUR".to_owned(), "Africa/Johannesburg".to_owned()));
    v.push(("NBO".to_owned(), "Africa/Nairobi".to_owned()));
    v.push(("ADD".to_owned(), "Africa/Addis_Ababa".to_owned()));
    v.push(("CAI".to_owned(), "Africa/Cairo".to_owned()));
    v.push(("HRG".to_owned(), "Africa/Cairo".to_owned()));
    v.push(("SSH".to_owned(), "Africa/Cairo".to_owned()));
    v.push(("CMN".to_owned(), "Africa/Casablanca".to_owned()));
    v.push(("RAK".to_owned(), "Africa/Casablanca".to_owned()));
    v.push(("ALG".to_owned(), "Africa/Algiers".to_owned()));
    v.push(("TUN".to_owned(), "Africa/Tunis".to_owned()));
    v.push(("TIP".to_owned(), "Africa/Tripoli".to_owned()));
    v.push(("LOS".to_owned(), "Africa/Lagos".to_owned()));
    v.push(("ABV".to_owned(), "Africa/Lagos".to_owned()));
    v.push(("ACC".to_owned(), "Africa/Accra".to_owned()));
    v.push(("DKR".to_owned(), "Africa/Dakar".to_owned()));
    v.push(("ABJ".to_owned(), "Africa/Abidjan".to_owned()));
    v.push(("DAR".to_owned(), "Africa/Dar_es_Salaam".to_owned()));
    v.push(("EBB".to_owned(), "Africa/Kampala".to_owned()));
    v.push(("KGL".to_owned(), "Africa/Kigali".to_owned()));
    v.push(("LAD".to_owned(), "Africa/Luanda".to_owned()));
    v.push(("WDH".to_owned(), "Africa/Windhoek".to_owned()));
    v.push(("GBE".to_owned(), "Africa/Gaborone".to_owned()));
    v.push(("HRE".to_owned(), "Africa/Harare".to_owned()));
    v.push(("LUN".to_owned(), "Africa/Lusaka".to_owned()));
    v.push(("KRT".to_owned(), "Africa/Khartoum".to_owned()));
    v.push(("MRU".to_owned(), "Indian/Mauritius".to_owned()));
    v.push(("SEZ".to_owned(), "Indian/Mahe".to_owned()));
    v.push(("TNR".to_owned(), "Indian/Antananarivo".to_owned()));
    proof {
        assert(pair_views(v@) =~= africa_entries());
    }
    v
}

/// The whole bundled dataset, in insertion order.
pub open spec fn builtin_entries() -> Seq<(Seq<char>, Seq<char>)> {
    europe_a_entries()
        + europe_b_entries()
        + north_america_a_entries()
        + north_america_b_entries()
        + latin_america_entries()
        + asia_a_entries()
        + asia_b_entries()
        + oceania_entries()
        + africa_entries()
}

/// Builds the dataset pairs in insertion order.
pub(crate) fn builtin_pairs() -> (r: Vec<(String, String)>)
    ensures
        pair_views(r@) == builtin_entries(),
{
    let mut r = europe_a_pairs();
    let mut v = europe_b_pairs();
    r.append(&mut v);
    proof {
        assert(pair_views(r@) =~= europe_a_entries() + europe_b_entries());
    }
    let mut v = north_america_a_pairs();
    r.append(&mut v);
    proof {
        assert(pair_views(r@) =~= europe_a_entries() + europe_b_entries() + north_america_a_entries());
    }
    let mut v = north_america_b_pairs();
    r.append(&mut v);
    proof {
        assert(pair_views(r@) =~= europe_a_entries() + europe_b_entries() + north_america_a_entries() + north_america_b_entries());
    }
    let mut v = latin_america_pairs();
    r.append(&mut v);
    proof {
        assert(pair_views(r@) =~= europe_a_entries() + europe_b_entries() + north_america_a_entries() + north_america_b_entries() + latin_america_entries());
    }
    let mut v = asia_a_pairs();
    r.append(&mut v);
    proof {
        assert(pair_views(r@) =~= europe_a_entries() + europe_b_entries() + north_america_a_entries() + north_america_b_entries() + latin_america_entries() + asia_a_entries());
    }
    let mut v = asia_b_pairs();
    r.append(&mut v);
    proof {
        assert(pair_views(r@) =~= europe_a_entries() + europe_b_entries() + north_america_a_entries() + north_america_b_entries() + latin_america_entries() + asia_a_entries() + asia_b_entries());
    }
    let mut v = oceania_pairs();
    r.append(&mut v);
    proof {
        assert(pair_views(r@) =~= europe_a_entries() + europe_b_entries() + north_america_a_entries() + north_america_b_entries() + latin_america_entries() + asia_a_entries() + asia_b_entries() + oceania_entries());
    }
    let mut v = africa_pairs();
    r.append(&mut v);
    proof {
        assert(pair_views(r@) =~= europe_a_entries() + europe_b_entries() + north_america_a_entries() + north_america_b_entries() + latin_america_entries() + asia_a_entries() + asia_b_entries() + oceania_entries() + africa_entries());
    }
    r
}

} // verus!

use vstd::prelude::*;
use vstd::string::*;
use vstd::utf8::*;

verus! {

/// The four-character successor of a three-character legacy code, if it has one.
pub open spec fn modern_code(a: char, b: char, c: char) -> Option<(char, char, char, char)> {
    match (a, b, c) {
        ('B', 'U', 'F') => Some(('R', 'B', 'U', 'F')),
        ('C', 'N', 'T') => Some(('P', 'C', 'N', 'T')),
        ('C', 'O', 'M') => Some(('C', 'O', 'M', 'M')),
        ('C', 'R', 'A') => Some(('A', 'E', 'N', 'C')),
        ('E', 'Q', 'U') => Some(('E', 'Q', 'U', 'A')),
        ('E', 'T', 'C') => Some(('E', 'T', 'C', 'O')),
        ('G', 'E', 'O') => Some(('G', 'E', 'O', 'B')),
        ('I', 'P', 'L') => Some(('I', 'P', 'L', 'S')),
        ('L', 'N', 'K') => Some(('L', 'I', 'N', 'K')),
        ('M', 'C', 'I') => Some(('M', 'C', 'D', 'I')),
        ('M', 'L', 'L') => Some(('M', 'L', 'L', 'T')),
        ('P', 'I', 'C') => Some(('A', 'P', 'I', 'C')),
        ('P', 'O', 'P') => Some(('P', 'O', 'P', 'M')),
        ('R', 'E', 'V') => Some(('R', 'V', 'R', 'B')),
        ('R', 'V', 'A') => Some(('R', 'V', 'A', 'D')),
        ('S', 'L', 'T') => Some(('S', 'Y', 'L', 'T')),
        ('S', 'T', 'C') => Some(('S', 'Y', 'T', 'C')),
        ('T', 'A', 'L') => Some(('T', 'A', 'L', 'B')),
        ('T', 'B', 'P') => Some(('T', 'B', 'P', 'M')),
        ('T', 'C', 'M') => Some(('T', 'C', 'O', 'M')),
        ('T', 'C', 'O') => Some(('T', 'C', 'O', 'N')),
        ('T', 'C', 'R') => Some(('T', 'C', 'O', 'P')),
        ('T', 'D', 'A') => Some(('T', 'D', 'A', 'T')),
        ('T', 'D', 'Y') => Some(('T', 'D', 'L', 'Y')),
        ('T', 'E', 'N') => Some(('T', 'E', 'N', 'C')),
        ('T', 'F', 'T') => Some(('T', 'F', 'L', 'T')),
        ('T', 'I', 'M') => Some(('T', 'I', 'M', 'E')),
        ('T', 'K', 'E') => Some(('T', 'K', 'E', 'Y')),
        ('T', 'L', 'A') => Some(('T', 'L', 'A', 'N')),
        ('T', 'L', 'E') => Some(('T', 'L', 'E', 'N')),
        ('T', 'M', 'T') => Some(('T', 'M', 'E', 'D')),
        ('T', 'O', 'A') => Some(('T', 'O', 'P', 'E')),
        ('T', 'O', 'F') => Some(('T', 'O', 'F', 'N')),
        ('T', 'O', 'L') => Some(('T', 'O', 'L', 'Y')),
        ('T', 'O', 'R') => Some(('T', 'O', 'R', 'Y')),
        ('T', 'O', 'T') => Some(('T', 'O', 'A', 'L')),
        ('T', 'P', '1') => Some(('T', 'P', 'E', '1')),
        ('T', 'P', '2') => Some(('T', 'P', 'E', '2')),
        ('T', 'P', '3') => Some(('T', 'P', 'E', '3')),
        ('T', 'P', '4') => Some(('T', 'P', 'E', '4')),
        ('T', 'P', 'A') => Some(('T', 'P', 'O', 'S')),
        ('T', 'P', 'B') => Some(('T', 'P', 'U', 'B')),
        ('T', 'R', 'C') => Some(('T', 'S', 'R', 'C')),
        ('T', 'R', 'D') => Some(('T', 'R', 'D', 'A')),
        ('T', 'R', 'K') => Some(('T', 'R', 'C', 'K')),
        ('T', 'S', 'I') => Some(('T', 'S', 'I', 'Z')),
        ('T', 'S', 'S') => Some(('T', 'S', 'S', 'E')),
        ('T', 'T', '1') => Some(('T', 'I', 'T', '1')),
        ('T', 'T', '2') => Some(('T', 'I', 'T', '2')),
        ('T', 'T', '3') => Some(('T', 'I', 'T', '3')),
        ('T', 'X', 'T') => Some(('T', 'E', 'X', 'T')),
        ('T', 'X', 'X') => Some(('T', 'X', 'X', 'X')),
        ('T', 'Y', 'E') => Some(('T', 'Y', 'E', 'R')),
        ('U', 'F', 'I') => Some(('U', 'F', 'I', 'D')),
        ('U', 'L', 'T') => Some(('U', 'S', 'L', 'T')),
        ('W', 'A', 'F') => Some(('W', 'O', 'A', 'F')),
        ('W', 'A', 'R') => Some(('W', 'O', 'A', 'R')),
        ('W', 'A', 'S') => Some(('W', 'O', 'A', 'S')),
        ('W', 'C', 'M') => Some(('W', 'C', 'O', 'M')),
        ('W', 'C', 'P') => Some(('W', 'C', 'O', 'P')),
        ('W', 'P', 'B') => Some(('W', 'P', 'U', 'B')),
        ('W', 'X', 'X') => Some(('W', 'X', 'X', 'X')),
        _ => None,
    }
}

/// The three-character legacy code that a four-character code succeeds, if there is one.
pub open spec fn legacy_code(a: char, b: char, c: char, d: char) -> Option<(char, char, char)> {
    match (a, b, c, d) {
        ('A', 'E', 'N', 'C') => Some(('C', 'R', 'A')),
        ('A', 'P', 'I', 'C') => Some(('P', 'I', 'C')),
        ('C', 'O', 'M', 'M') => Some(('C', 'O', 'M')),
        ('E', 'Q', 'U', 'A') => Some(('E', 'Q', 'U')),
        ('E', 'T', 'C', 'O') => Some(('E', 'T', 'C')),
        ('G', 'E', 'O', 'B') => Some(('G', 'E', 'O')),
        ('I', 'P', 'L', 'S') => Some(('I', 'P', 'L')),
        ('L', 'I', 'N', 'K') => Some(('L', 'N', 'K')),
        ('M', 'C', 'D', 'I') => Some(('M', 'C', 'I')),
        ('M', 'L', 'L', 'T') => Some(('M', 'L', 'L')),
        ('P', 'C', 'N', 'T') => Some(('C', 'N', 'T')),
        ('P', 'O', 'P', 'M') => Some(('P', 'O', 'P')),
        ('R', 'B', 'U', 'F') => Some(('B', 'U', 'F')),
        ('R', 'V', 'A', 'D') => Some(('R', 'V', 'A')),
        ('R', 'V', 'R', 'B') => Some(('R', 'E', 'V')),
        ('S', 'Y', 'L', 'T') => Some(('S', 'L', 'T')),
        ('S', 'Y', 'T', 'C') => Some(('S', 'T', 'C')),
        ('T', 'A', 'L', 'B') => Some(('T', 'A', 'L')),
        ('T', 'B', 'P', 'M') => Some(('T', 'B', 'P')),
        ('T', 'C', 'O', 'M') => Some(('T', 'C', 'M')),
        ('T', 'C', 'O', 'N') => Some(('T', 'C', 'O')),
        ('T', 'C', 'O', 'P') => Some(('T', 'C', 'R')),
        ('T', 'D', 'A', 'T') => Some(('T', 'D', 'A')),
        ('T', 'D', 'L', 'Y') => Some(('T', 'D', 'Y')),
        ('T', 'E', 'N', 'C') => Some(('T', 'E', 'N')),
        ('T', 'E', 'X', 'T') => Some(('T', 'X', 'T')),
        ('T', 'F', 'L', 'T') => Some(('T', 'F', 'T')),
        ('T', 'I', 'M', 'E') => Some(('T', 'I', 'M')),
        ('T', 'I', 'T', '1') => Some(('T', 'T', '1')),
        ('T', 'I', 'T', '2') => Some(('T', 'T', '2')),
        ('T', 'I', 'T', '3') => Some(('T', 'T', '3')),
        ('T', 'K', 'E', 'Y') => Some(('T', 'K', 'E')),
        ('T', 'L', 'A', 'N') => Some(('T', 'L', 'A')),
        ('T', 'L', 'E', 'N') => Some(('T', 'L', 'E')),
        ('T', 'M', 'E', 'D') => Some(('T', 'M', 'T')),
        ('T', 'O', 'A', 'L') => Some(('T', 'O', 'T')),
        ('T', 'O', 'F', 'N') => Some(('T', 'O', 'F')),
        ('T', 'O', 'L', 'Y') => Some(('T', 'O', 'L')),
        ('T', 'O', 'P', 'E') => Some(('T', 'O', 'A')),
        ('T', 'O', 'R', 'Y') => Some(('T', 'O', 'R')),
        ('T', 'P', 'E', '1') => Some(('T', 'P', '1')),
        ('T', 'P', 'E', '2') => Some(('T', 'P', '2')),
        ('T', 'P', 'E', '3') => Some(('T', 'P', '3')),
        ('T', 'P', 'E', '4') => Some(('T', 'P', '4')),
        ('T', 'P', 'O', 'S') => Some(('T', 'P', 'A')),
        ('T', 'P', 'U', 'B') => Some(('T', 'P', 'B')),
        ('T', 'R', 'C', 'K') => Some(('T', 'R', 'K')),
        ('T', 'R', 'D', 'A') => Some(('T', 'R', 'D')),
        ('T', 'S', 'I', 'Z') => Some(('T', 'S', 'I')),
        ('T', 'S', 'R', 'C') => Some(('T', 'R', 'C')),
        ('T', 'S', 'S', 'E') => Some(('T', 'S', 'S')),
        ('T', 'X', 'X', 'X') => Some(('T', 'X', 'X')),
        ('T', 'Y', 'E', 'R') => Some(('T', 'Y', 'E')),
        ('U', 'F', 'I', 'D') => Some(('U', 'F', 'I')),
        ('U', 'S', 'L', 'T') => Some(('U', 'L', 'T')),
        ('W', 'C', 'O', 'M') => Some(('W', 'C', 'M')),
        ('W', 'C', 'O', 'P') => Some(('W', 'C', 'P')),
        ('W', 'O', 'A', 'F') => Some(('W', 'A', 'F')),
        ('W', 'O', 'A', 'R') => Some(('W', 'A', 'R')),
        ('W', 'O', 'A', 'S') => Some(('W', 'A', 'S')),
        ('W', 'P', 'U', 'B') => Some(('W', 'P', 'B')),
        ('W', 'X', 'X', 'X') => Some(('W', 'X', 'X')),
        _ => None,
    }
}

/// The translation of a legacy identifier into the four-character namespace:
/// defined for exactly the three-character identifiers that have a successor.
pub open spec fn convert_id_2_to_3_spec(id: Seq<char>) -> Option<Seq<char>> {
    if id.len() == 3 {
        match modern_code(id[0], id[1], id[2]) {
            Some((a, b, c, d)) => Some(seq![a, b, c, d]),
            None => None,
        }
    } else {
        None
    }
}

/// The translation of a four-character identifier back into the legacy namespace:
/// defined for exactly the four-character identifiers that succeed a legacy one.
pub open spec fn convert_id_3_to_2_spec(id: Seq<char>) -> Option<Seq<char>> {
    if id.len() == 4 {
        match legacy_code(id[0], id[1], id[2], id[3]) {
            Some((a, b, c)) => Some(seq![a, b, c]),
            None => None,
        }
    } else {
        None
    }
}

/// The view of an optional string slice.
pub open spec fn opt_str_view(s: Option<&str>) -> Option<Seq<char>> {
    match s {
        Some(s) => Some(s@),
        None => None,
    }
}

/// Looks a legacy three-character identifier up in the translation table.
pub fn convert_id_2_to_3(id: &str) -> (r: Option<&'static str>)
    ensures
        opt_str_view(r) == convert_id_2_to_3_spec(id@),
{
    if id.unicode_len() != 3 {
        return None;
    }
    let a = id.get_char(0);
    let b = id.get_char(1);
    let c = id.get_char(2);
    proof {
        reveal_strlit("RBUF");
        reveal_strlit("PCNT");
        reveal_strlit("COMM");
        reveal_strlit("AENC");
        reveal_strlit("EQUA");
        reveal_strlit("ETCO");
        reveal_strlit("GEOB");
        reveal_strlit("IPLS");
        reveal_strlit("LINK");
        reveal_strlit("MCDI");
        reveal_strlit("MLLT");
        reveal_strlit("APIC");
        reveal_strlit("POPM");
        reveal_strlit("RVRB");
        reveal_strlit("RVAD");
        reveal_strlit("SYLT");
        reveal_strlit("SYTC");
        reveal_strlit("TALB");
        reveal_strlit("TBPM");
        reveal_strlit("TCOM");
        reveal_strlit("TCON");
        reveal_strlit("TCOP");
        reveal_strlit("TDAT");
        reveal_strlit("TDLY");
        reveal_strlit("TENC");
        reveal_strlit("TFLT");
        reveal_strlit("TIME");
        reveal_strlit("TKEY");
        reveal_strlit("TLAN");
        reveal_strlit("TLEN");
        reveal_strlit("TMED");
        reveal_strlit("TOPE");
        reveal_strlit("TOFN");
        reveal_strlit("TOLY");
        reveal_strlit("TORY");
        reveal_strlit("TOAL");
        reveal_strlit("TPE1");
        reveal_strlit("TPE2");
        reveal_strlit("TPE3");
        reveal_strlit("TPE4");
        reveal_strlit("TPOS");
        reveal_strlit("TPUB");
        reveal_strlit("TSRC");
        reveal_strlit("TRDA");
        reveal_strlit("TRCK");
        reveal_strlit("TSIZ");
        reveal_strlit("TSSE");
        reveal_strlit("TIT1");
        reveal_strlit("TIT2");
        reveal_strlit("TIT3");
        reveal_strlit("TEXT");
        reveal_strlit("TXXX");
        reveal_strlit("TYER");
        reveal_strlit("UFID");
        reveal_strlit("USLT");
        reveal_strlit("WOAF");
        reveal_strlit("WOAR");
        reveal_strlit("WOAS");
        reveal_strlit("WCOM");
        reveal_strlit("WCOP");
        reveal_strlit("WPUB");
        reveal_strlit("WXXX");
    }
    let r = match (a, b, c) {
        ('B', 'U', 'F') => Some("RBUF"),
        ('C', 'N', 'T') => Some("PCNT"),
        ('C', 'O', 'M') => Some("COMM"),
        ('C', 'R', 'A') => Some("AENC"),
        ('E', 'Q', 'U') => Some("EQUA"),
        ('E', 'T', 'C') => Some("ETCO"),
        ('G', 'E', 'O') => Some("GEOB"),
        ('I', 'P', 'L') => Some("IPLS"),
        ('L', 'N', 'K') => Some("LINK"),
        ('M', 'C', 'I') => Some("MCDI"),
        ('M', 'L', 'L') => Some("MLLT"),
        ('P', 'I', 'C') => Some("APIC"),
        ('P', 'O', 'P') => Some("POPM"),
        ('R', 'E', 'V') => Some("RVRB"),
        ('R', 'V', 'A') => Some("RVAD"),
        ('S', 'L', 'T') => Some("SYLT"),
        ('S', 'T', 'C') => Some("SYTC"),
        ('T', 'A', 'L') => Some("TALB"),
        ('T', 'B', 'P') => Some("TBPM"),
        ('T', 'C', 'M') => Some("TCOM"),
        ('T', 'C', 'O') => Some("TCON"),
        ('T', 'C', 'R') => Some("TCOP"),
        ('T', 'D', 'A') => Some("TDAT"),
        ('T', 'D', 'Y') => Some("TDLY"),
        ('T', 'E', 'N') => Some("TENC"),
        ('T', 'F', 'T') => Some("TFLT"),
        ('T', 'I', 'M') => Some("TIME"),
        ('T', 'K', 'E') => Some("TKEY"),
        ('T', 'L', 'A') => Some("TLAN"),
        ('T', 'L', 'E') => Some("TLEN"),
        ('T', 'M', 'T') => Some("TMED"),
        ('T', 'O', 'A') => Some("TOPE"),
        ('T', 'O', 'F') => Some("TOFN"),
        ('T', 'O', 'L') => Some("TOLY"),
        ('T', 'O', 'R') => Some("TORY"),
        ('T', 'O', 'T') => Some("TOAL"),
        ('T', 'P', '1') => Some("TPE1"),
        ('T', 'P', '2') => Some("TPE2"),
        ('T', 'P', '3') => Some("TPE3"),
        ('T', 'P', '4') => Some("TPE4"),
        ('T', 'P', 'A') => Some("TPOS"),
        ('T', 'P', 'B') => Some("TPUB"),
        ('T', 'R', 'C') => Some("TSRC"),
        ('T', 'R', 'D') => Some("TRDA"),
        ('T', 'R', 'K') => Some("TRCK"),
        ('T', 'S', 'I') => Some("TSIZ"),
        ('T', 'S', 'S') => Some("TSSE"),
        ('T', 'T', '1') => Some("TIT1"),
        ('T', 'T', '2') => Some("TIT2"),
        ('T', 'T', '3') => Some("TIT3"),
        ('T', 'X', 'T') => Some("TEXT"),
        ('T', 'X', 'X') => Some("TXXX"),
        ('T', 'Y', 'E') => Some("TYER"),
        ('U', 'F', 'I') => Some("UFID"),
        ('U', 'L', 'T') => Some("USLT"),
        ('W', 'A', 'F') => Some("WOAF"),
        ('W', 'A', 'R') => Some("WOAR"),
        ('W', 'A', 'S') => Some("WOAS"),
        ('W', 'C', 'M') => Some("WCOM"),
        ('W', 'C', 'P') => Some("WCOP"),
        ('W', 'P', 'B') => Some("WPUB"),
        ('W', 'X', 'X') => Some("WXXX"),
        _ => None,
    };
    assert(opt_str_view(r) =~= convert_id_2_to_3_spec(id@));
    r
}

/// Looks a four-character identifier up in the translation table, in the other direction.
pub fn convert_id_3_to_2(id: &str) -> (r: Option<&'static str>)
    ensures
        opt_str_view(r) == convert_id_3_to_2_spec(id@),
{
    if id.unicode_len() != 4 {
        return None;
    }
    let a = id.get_char(0);
    let b = id.get_char(1);
    let c = id.get_char(2);
    let d = id.get_char(3);
    proof {
        reveal_strlit("BUF");
        reveal_strlit("CNT");
        reveal_strlit("COM");
        reveal_strlit("CRA");
        reveal_strlit("EQU");
        reveal_strlit("ETC");
        reveal_strlit("GEO");
        reveal_strlit("IPL");
        reveal_strlit("LNK");
        reveal_strlit("MCI");
        reveal_strlit("MLL");
        reveal_strlit("PIC");
        reveal_strlit("POP");
        reveal_strlit("REV");
        reveal_strlit("RVA");
        reveal_strlit("SLT");
        reveal_strlit("STC");
        reveal_strlit("TAL");
        reveal_strlit("TBP");
        reveal_strlit("TCM");
        reveal_strlit("TCO");
        reveal_strlit("TCR");
        reveal_strlit("TDA");
        reveal_strlit("TDY");
        reveal_strlit("TEN");
        reveal_strlit("TFT");
        reveal_strlit("TIM");
        reveal_strlit("TKE");
        reveal_strlit("TLA");
        reveal_strlit("TLE");
        reveal_strlit("TMT");
        reveal_strlit("TOA");
        reveal_strlit("TOF");
        reveal_strlit("TOL");
        reveal_strlit("TOR");
        reveal_strlit("TOT");
        reveal_strlit("TP1");
        reveal_strlit("TP2");
        reveal_strlit("TP3");
        reveal_strlit("TP4");
        reveal_strlit("TPA");
        reveal_strlit("TPB");
        reveal_strlit("TRC");
        reveal_strlit("TRD");
        reveal_strlit("TRK");
        reveal_strlit("TSI");
        reveal_strlit("TSS");
        reveal_strlit("TT1");
        reveal_strlit("TT2");
        reveal_strlit("TT3");
        reveal_strlit("TXT");
        reveal_strlit("TXX");
        reveal_strlit("TYE");
        reveal_strlit("UFI");
        reveal_strlit("ULT");
        reveal_strlit("WAF");
        reveal_strlit("WAR");
        reveal_strlit("WAS");
        reveal_strlit("WCM");
        reveal_strlit("WCP");
        reveal_strlit("WPB");
        reveal_strlit("WXX");
    }
    let r = match (a, b, c, d) {
        ('A', 'E', 'N', 'C') => Some("CRA"),
        ('A', 'P', 'I', 'C') => Some("PIC"),
        ('C', 'O', 'M', 'M') => Some("COM"),
        ('E', 'Q', 'U', 'A') => Some("EQU"),
        ('E', 'T', 'C', 'O') => Some("ETC"),
        ('G', 'E', 'O', 'B') => Some("GEO"),
        ('I', 'P', 'L', 'S') => Some("IPL"),
        ('L', 'I', 'N', 'K') => Some("LNK"),
        ('M', 'C', 'D', 'I') => Some("MCI"),
        ('M', 'L', 'L', 'T') => Some("MLL"),
        ('P', 'C', 'N', 'T') => Some("CNT"),
        ('P', 'O', 'P', 'M') => Some("POP"),
        ('R', 'B', 'U', 'F') => Some("BUF"),
        ('R', 'V', 'A', 'D') => Some("RVA"),
        ('R', 'V', 'R', 'B') => Some("REV"),
        ('S', 'Y', 'L', 'T') => Some("SLT"),
        ('S', 'Y', 'T', 'C') => Some("STC"),
        ('T', 'A', 'L', 'B') => Some("TAL"),
        ('T', 'B', 'P', 'M') => Some("TBP"),
        ('T', 'C', 'O', 'M') => Some("TCM"),
        ('T', 'C', 'O', 'N') => Some("TCO"),
        ('T', 'C', 'O', 'P') => Some("TCR"),
        ('T', 'D', 'A', 'T') => Some("TDA"),
        ('T', 'D', 'L', 'Y') => Some("TDY"),
        ('T', 'E', 'N', 'C') => Some("TEN"),
        ('T', 'E', 'X', 'T') => Some("TXT"),
        ('T', 'F', 'L', 'T') => Some("TFT"),
        ('T', 'I', 'M', 'E') => Some("TIM"),
        ('T', 'I', 'T', '1') => Some("TT1"),
        ('T', 'I', 'T', '2') => Some("TT2"),
        ('T', 'I', 'T', '3') => Some("TT3"),
        ('T', 'K', 'E', 'Y') => Some("TKE"),
        ('T', 'L', 'A', 'N') => Some("TLA"),
        ('T', 'L', 'E', 'N') => Some("TLE"),
        ('T', 'M', 'E', 'D') => Some("TMT"),
        ('T', 'O', 'A', 'L') => Some("TOT"),
        ('T', 'O', 'F', 'N') => Some("TOF"),
        ('T', 'O', 'L', 'Y') => Some("TOL"),
        ('T', 'O', 'P', 'E') => Some("TOA"),
        ('T', 'O', 'R', 'Y') => Some("TOR"),
        ('T', 'P', 'E', '1') => Some("TP1"),
        ('T', 'P', 'E', '2') => Some("TP2"),
        ('T', 'P', 'E', '3') => Some("TP3"),
        ('T', 'P', 'E', '4') => Some("TP4"),
        ('T', 'P', 'O', 'S') => Some("TPA"),
        ('T', 'P', 'U', 'B') => Some("TPB"),
        ('T', 'R', 'C', 'K') => Some("TRK"),
        ('T', 'R', 'D', 'A') => Some("TRD"),
        ('T', 'S', 'I', 'Z') => Some("TSI"),
        ('T', 'S', 'R', 'C') => Some("TRC"),
        ('T', 'S', 'S', 'E') => Some("TSS"),
        ('T', 'X', 'X', 'X') => Some("TXX"),
        ('T', 'Y', 'E', 'R') => Some("TYE"),
        ('U', 'F', 'I', 'D') => Some("UFI"),
        ('U', 'S', 'L', 'T') => Some("ULT"),
        ('W', 'C', 'O', 'M') => Some("WCM"),
        ('W', 'C', 'O', 'P') => Some("WCP"),
        ('W', 'O', 'A', 'F') => Some("WAF"),
        ('W', 'O', 'A', 'R') => Some("WAR"),
        ('W', 'O', 'A', 'S') => Some("WAS"),
        ('W', 'P', 'U', 'B') => Some("WPB"),
        ('W', 'X', 'X', 'X') => Some("WXX"),
        _ => None,
    };
    assert(opt_str_view(r) =~= convert_id_3_to_2_spec(id@));
    r
}

/// A legacy identifier that has a successor is recovered from that successor.
pub proof fn lemma_legacy_id_round_trip(id: Seq<char>)
    requires
        convert_id_2_to_3_spec(id) is Some,
    ensures
        convert_id_3_to_2_spec(convert_id_2_to_3_spec(id)->0) == Some(id),
{
    let m = convert_id_2_to_3_spec(id)->0;
    assert(convert_id_3_to_2_spec(m)->0 =~= id);
}

/// A four-character identifier that succeeds a legacy one is recovered from it.
pub proof fn lemma_modern_id_round_trip(id: Seq<char>)
    requires
        convert_id_3_to_2_spec(id) is Some,
    ensures
        convert_id_2_to_3_spec(convert_id_3_to_2_spec(id)->0) == Some(id),
{
    let l = convert_id_3_to_2_spec(id)->0;
    assert(convert_id_2_to_3_spec(l)->0 =~= id);
}

/// The successor of a legacy name is made of four ASCII characters, so of four bytes;
/// the legacy name is made of three, so of three bytes.
pub proof fn lemma_modern_id_is_ascii(id: Seq<char>)
    requires
        convert_id_2_to_3_spec(id) is Some,
    ensures
        is_ascii_chars(convert_id_2_to_3_spec(id)->0),
        encode_utf8(convert_id_2_to_3_spec(id)->0).len() == 4,
        is_ascii_chars(id),
        encode_utf8(id).len() == 3,
{
    is_ascii_chars_encode_utf8(convert_id_2_to_3_spec(id)->0);
    is_ascii_chars_encode_utf8(id);
}

/// The number that four bytes hold, most significant byte first.
pub open spec fn be_u32_spec(b: Seq<u8>) -> int
    recommends
        b.len() == 4,
{
    b[0] * 0x100_0000 + b[1] * 0x1_0000 + b[2] * 0x100 + b[3]
}

/// The number that two bytes hold, most significant byte first.
pub open spec fn be_u16_spec(b: Seq<u8>) -> int
    recommends
        b.len() == 2,
{
    b[0] * 0x100 + b[1]
}

/// The four bytes of a number, most significant byte first.
pub open spec fn u32_to_bytes_spec(n: u32) -> Seq<u8> {
    seq![
        (n / 0x100_0000) as u8,
        (n / 0x1_0000 % 0x100) as u8,
        (n / 0x100 % 0x100) as u8,
        (n % 0x100) as u8,
    ]
}

/// The two bytes of a number, most significant byte first.
pub open spec fn u16_to_bytes_spec(n: u16) -> Seq<u8> {
    seq![(n / 0x100) as u8, (n % 0x100) as u8]
}

/// Reads the big-endian number in the four bytes of `data` from `at` on.
pub fn be_u32(data: &[u8], at: usize) -> (r: u32)
    requires
        at + 4 <= data@.len(),
    ensures
        r == be_u32_spec(data@.subrange(at as int, at + 4)),
{
    let b0: u32 = data[at] as u32;
    let b1: u32 = data[at + 1] as u32;
    let b2: u32 = data[at + 2] as u32;
    let b3: u32 = data[at + 3] as u32;
    b0 * 0x100_0000 + b1 * 0x1_0000 + b2 * 0x100 + b3
}

/// Reads the big-endian number in the two bytes of `data` from `at` on.
pub fn be_u16(data: &[u8], at: usize) -> (r: u16)
    requires
        at + 2 <= data@.len(),
    ensures
        r == be_u16_spec(data@.subrange(at as int, at + 2)),
{
    let b0: u16 = data[at] as u16;
    let b1: u16 = data[at + 1] as u16;
    b0 * 0x100 + b1
}

/// The four bytes of `n`, most significant byte first.
pub fn u32_to_bytes(n: u32) -> (r: Vec<u8>)
    ensures
        r@ == u32_to_bytes_spec(n),
{
    let mut r: Vec<u8> = Vec::new();
    r.push((n / 0x100_0000) as u8);
    r.push((n / 0x1_0000 % 0x100) as u8);
    r.push((n / 0x100 % 0x100) as u8);
    r.push((n % 0x100) as u8);
    assert(r@ =~= u32_to_bytes_spec(n));
    r
}

/// The two bytes of `n`, most significant byte first.
pub fn u16_to_bytes(n: u16) -> (r: Vec<u8>)
    ensures
        r@ == u16_to_bytes_spec(n),
{
    let mut r: Vec<u8> = Vec::new();
    r.push((n / 0x100) as u8);
    r.push((n % 0x100) as u8);
    assert(r@ =~= u16_to_bytes_spec(n));
    r
}

/// The bytes of a 32-bit number hold that number.
pub proof fn lemma_u32_bytes_round_trip(n: u32)
    ensures
        u32_to_bytes_spec(n).len() == 4,
        be_u32_spec(u32_to_bytes_spec(n)) == n,
{
}

/// The bytes of a 16-bit number hold that number.
pub proof fn lemma_u16_bytes_round_trip(n: u16)
    ensures
        u16_to_bytes_spec(n).len() == 2,
        be_u16_spec(u16_to_bytes_spec(n)) == n,
{
}

/// Whether two byte strings hold the same bytes.
pub fn bytes_eq(a: &[u8], b: &[u8]) -> (r: bool)
    ensures
        r == (a@ == b@),
{
    if a.len() != b.len() {
        return false;
    }
    let mut i: usize = 0;
    while i < a.len()
        invariant
            a@.len() == b@.len(),
            i <= a@.len(),
            forall|j: int| 0 <= j < i ==> a@[j] == b@[j],
        decreases a@.len() - i,
    {
        if a[i] != b[i] {
            return false;
        }
        i += 1;
    }
    assert(a@ =~= b@);
    true
}

/// Reads bytes as UTF-8 text with std's `String::from_utf8`. Trusted: the call
/// succeeds exactly on well-formed UTF-8, and the string then holds the characters
/// that those bytes encode.
#[verifier::external_body]
pub(crate) fn string_from_utf8(bytes: Vec<u8>) -> (r: Option<String>)
    ensures
        r is Some <==> valid_utf8(bytes@),
        r matches Some(s) ==> s@ == decode_utf8(bytes@),
{
    match String::from_utf8(bytes) {
        Ok(s) => Some(s),
        Err(_) => None,
    }
}

} // verus!

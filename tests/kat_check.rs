use pqembed::kat::{check_kat_case, parse_kat_line, KatCase, KatField, KatLine, KatReader, KatTally};
use pqembed::{Error, PqcInterface};

fn field(line: &[u8]) -> (KatField, Vec<u8>) {
    match parse_kat_line(line) {
        Ok(KatLine::Field(f, v)) => (f, v),
        other => panic!("not a field line: {:?}", other),
    }
}

#[test]
fn lines_are_classified() {
    assert!(matches!(parse_kat_line(b""), Ok(KatLine::Skip)));
    assert!(matches!(parse_kat_line(b"  \t\r"), Ok(KatLine::Skip)));
    assert!(matches!(parse_kat_line(b"# ML-KEM-512"), Ok(KatLine::Skip)));
    assert!(matches!(parse_kat_line(b"  # ct = 00"), Ok(KatLine::Skip)));
    assert!(matches!(parse_kat_line(b"pk = 0011"), Ok(KatLine::Skip)));
    assert!(matches!(parse_kat_line(b"seed = 00"), Ok(KatLine::Skip)));
    assert!(matches!(parse_kat_line(b"count = 0"), Ok(KatLine::Count)));
    assert!(matches!(parse_kat_line(b"  count = 17\r\n"), Ok(KatLine::Count)));
    // the tags must be written with one space before '='
    assert!(matches!(parse_kat_line(b"ct= 00"), Ok(KatLine::Skip)));
}

#[test]
fn field_values_are_hex() {
    assert_eq!(field(b"ct = 0A0b"), (KatField::Ciphertext, vec![0x0a, 0x0b]));
    assert_eq!(field(b"  sk = 0xFF10  \r"), (KatField::SecretKey, vec![0xff, 0x10]));
    assert_eq!(field(b"ss =    c0ffee"), (KatField::SharedSecret, vec![0xc0, 0xff, 0xee]));
    assert_eq!(field(b"ct ="), (KatField::Ciphertext, vec![]));
    assert_eq!(field(b"ct = 0x"), (KatField::Ciphertext, vec![]));
    assert!(matches!(parse_kat_line(b"ss = abc"), Err(Error::InvalidInput)));
    assert!(matches!(parse_kat_line(b"ss = zz"), Err(Error::InvalidInput)));
    assert!(matches!(parse_kat_line(b"sk = 00 11"), Err(Error::InvalidInput)));
}

#[test]
fn reader_gathers_cases() {
    let mut r = KatReader::new();
    assert!(r.feed(KatLine::Count).is_none());
    assert!(r.feed(KatLine::Field(KatField::Ciphertext, vec![1])).is_none());
    assert!(r.feed(KatLine::Skip).is_none());
    assert!(r.feed(KatLine::Field(KatField::SecretKey, vec![2])).is_none());
    assert!(r.feed(KatLine::Field(KatField::SharedSecret, vec![3])).is_none());
    assert!(r.feed(KatLine::Field(KatField::SharedSecret, vec![4])).is_none());
    let c = r.feed(KatLine::Count).unwrap();
    assert_eq!((c.ct, c.sk, c.ss), (vec![1], vec![2], vec![4]));
    // an incomplete case is dropped at the next count line
    assert!(r.feed(KatLine::Field(KatField::Ciphertext, vec![5])).is_none());
    assert!(r.feed(KatLine::Count).is_none());
    assert!(r.feed(KatLine::Field(KatField::SecretKey, vec![6])).is_none());
    assert!(r.feed(KatLine::Field(KatField::SharedSecret, vec![7])).is_none());
    assert!(r.take_case().is_none());
    assert!(r.ct.is_none() && r.sk.is_none() && r.ss.is_none());
}

fn fresh_case(variant: &str) -> KatCase {
    let (sk, pk) = PqcInterface::mlkem_keygen(variant).unwrap();
    let (ss, ct) = PqcInterface::mlkem_encapsulate(variant, &pk).unwrap();
    KatCase { ct, sk, ss }
}

#[test]
fn cases_are_checked_by_decapsulation() {
    let case = fresh_case("mlkem768");
    assert_eq!(check_kat_case("mlkem768", &case), Ok(true));
    let mut wrong = KatCase { ct: case.ct.clone(), sk: case.sk.clone(), ss: case.ss.clone() };
    wrong.ss[31] ^= 1;
    assert_eq!(check_kat_case("mlkem768", &wrong), Ok(false));
    wrong.ss.pop();
    assert_eq!(check_kat_case("mlkem768", &wrong), Ok(false));
    assert_eq!(check_kat_case("mlkem1024", &case), Err(Error::InvalidInput));
    assert_eq!(check_kat_case("hqc128", &case), Err(Error::InvalidInput));
    assert_eq!(check_kat_case("", &case), Err(Error::InvalidInput));
}

#[test]
fn a_whole_file_is_checked() {
    let good = fresh_case("mlkem512");
    let mut bad = fresh_case("mlkem512");
    bad.ss[0] ^= 0x55;
    let mut text = String::from("# ML-KEM-512\n\n");
    for (i, c) in [&good, &bad, &good].iter().enumerate() {
        text.push_str(&format!("count = {}\n", i));
        text.push_str(&format!("sk = {}\n", hex::encode(&c.sk)));
        text.push_str(&format!("ct = 0x{}\n", hex::encode_upper(&c.ct)));
        text.push_str(&format!("ss = {}\n\n", hex::encode(&c.ss)));
    }
    let mut reader = KatReader::new();
    let mut tally = KatTally::new();
    for line in text.lines() {
        if let Some(case) = reader.feed(parse_kat_line(line.as_bytes()).unwrap()) {
            assert!(tally.has_room());
            tally.record(check_kat_case("mlkem512", &case).unwrap());
        }
    }
    if let Some(case) = reader.take_case() {
        tally.record(check_kat_case("mlkem512", &case).unwrap());
    }
    assert_eq!((tally.cases_total, tally.cases_passed), (3, 2));
    assert!(!tally.all_passed());
}

#[test]
fn tally_counts() {
    let mut t = KatTally::new();
    assert!(t.all_passed());
    t.record(true);
    t.record(false);
    t.record(true);
    assert_eq!((t.cases_total, t.cases_passed), (3, 2));
    assert!(!t.all_passed());
}

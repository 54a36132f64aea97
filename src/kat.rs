//! Known-answer checks of decapsulation against `.rsp` test-vector files.
//!
//! A file is read line by line. Around a line, spaces, tabs, carriage
//! returns, line feeds, vertical tabs and form feeds are blank. A line that
//! is blank or starts with `#` is skipped. `ct = <hex>`, `sk = <hex>` and
//! `ss = <hex>` give the ciphertext, secret key and expected shared secret of
//! the current case (the hex may carry a `0x` prefix and blanks around it);
//! a `count = ...` line closes the case before it. Every other line is
//! skipped. A case whose three values were all given is checked by
//! decapsulating its ciphertext and comparing with the expected secret.
use vstd::prelude::*;

use crate::dispatch::mlkem_named;
use crate::error::Error;
use crate::interface::PqcInterface;
use crate::kem::{kem_decapsulate_outcome, kem_shared_secret};

verus! {

/// The value of a hexadecimal digit, in either case.
pub open spec fn hex_digit(c: u8) -> Option<u8> {
    if 48 <= c <= 57 {
        Some((c - 48) as u8)
    } else if 97 <= c <= 102 {
        Some((c - 87) as u8)
    } else if 65 <= c <= 70 {
        Some((c - 55) as u8)
    } else {
        None
    }
}

/// The bytes that a hexadecimal text stands for: two digits per byte, the
/// high half first. `None` for an odd length or a non-digit.
pub open spec fn hex_decoding(s: Seq<u8>) -> Option<Seq<u8>>
    decreases s.len(),
{
    if s.len() == 0 {
        Some(Seq::empty())
    } else if s.len() == 1 {
        None
    } else {
        match (hex_digit(s[0]), hex_digit(s[1]), hex_decoding(s.subrange(2, s.len() as int))) {
            (Some(h), Some(l), Some(rest)) => Some(seq![(h * 16 + l) as u8] + rest),
            _ => None,
        }
    }
}

/// Relies on `hex::decode`: an even number of hexadecimal digits of either
/// case decodes to one byte per pair, the first digit the high half; an odd
/// length or another byte is an error (`FromHex for Vec<u8>`, `val`).
#[verifier::external_body]
fn decode_hex(s: &[u8]) -> (r: Option<Vec<u8>>)
    ensures
        r is Some <==> hex_decoding(s@) is Some,
        r is Some ==> r->0@ == hex_decoding(s@)->0,
{
    hex::decode(s).ok()
}

/// Whether a byte is blank around a line or a value.
pub open spec fn is_blank(b: u8) -> bool {
    b == 32 || b == 9 || b == 10 || b == 11 || b == 12 || b == 13
}

/// The text without its leading blanks.
pub open spec fn trim_start(s: Seq<u8>) -> Seq<u8>
    decreases s.len(),
{
    if s.len() > 0 && is_blank(s[0]) {
        trim_start(s.drop_first())
    } else {
        s
    }
}

/// The text without its trailing blanks.
pub open spec fn trim_end(s: Seq<u8>) -> Seq<u8>
    decreases s.len(),
{
    if s.len() > 0 && is_blank(s.last()) {
        trim_end(s.drop_last())
    } else {
        s
    }
}

/// The text without blanks around it.
pub open spec fn trim(s: Seq<u8>) -> Seq<u8> {
    trim_end(trim_start(s))
}

/// Whether `s` begins with `p`.
pub open spec fn starts_with(s: Seq<u8>, p: Seq<u8>) -> bool {
    p.len() <= s.len() && s.subrange(0, p.len() as int) == p
}

/// The tags of the lines that matter: "ct =", "sk =", "ss =", "count =".
pub open spec fn ct_tag() -> Seq<u8> {
    seq![99u8, 116, 32, 61]
}

pub open spec fn sk_tag() -> Seq<u8> {
    seq![115u8, 107, 32, 61]
}

pub open spec fn ss_tag() -> Seq<u8> {
    seq![115u8, 115, 32, 61]
}

pub open spec fn count_tag() -> Seq<u8> {
    seq![99u8, 111, 117, 110, 116, 32, 61]
}

/// The value that a line carries.
#[derive(Debug, Clone, Copy, PartialEq, Eq, Structural)]
pub enum KatField {
    Ciphertext,
    SecretKey,
    SharedSecret,
}

/// What a line of the file is.
#[derive(Debug, Clone, Copy, PartialEq, Eq, Structural)]
pub enum LineKind {
    Skip,
    Count,
    Field(KatField),
}

/// The kind of a line.
pub open spec fn line_kind(line: Seq<u8>) -> LineKind {
    let t = trim(line);
    if t.len() == 0 || t[0] == 35 {
        LineKind::Skip
    } else if starts_with(t, ct_tag()) {
        LineKind::Field(KatField::Ciphertext)
    } else if starts_with(t, sk_tag()) {
        LineKind::Field(KatField::SecretKey)
    } else if starts_with(t, ss_tag()) {
        LineKind::Field(KatField::SharedSecret)
    } else if starts_with(t, count_tag()) {
        LineKind::Count
    } else {
        LineKind::Skip
    }
}

/// The hex text of a field line: what follows its four-byte tag, without
/// blanks around it and without a leading "0x".
pub open spec fn field_text(line: Seq<u8>) -> Seq<u8> {
    let t = trim(line);
    let rest = trim(t.subrange(4, t.len() as int));
    if starts_with(rest, seq![48u8, 120]) {
        rest.subrange(2, rest.len() as int)
    } else {
        rest
    }
}

/// A line of the file, read.
#[derive(Debug)]
pub enum KatLine {
    Skip,
    Count,
    Field(KatField, Vec<u8>),
}

/// Where the text `s[from..to]` starts and ends without blanks around it.
fn trim_range(s: &[u8], from: usize, to: usize) -> (r: (usize, usize))
    requires
        from <= to <= s@.len(),
    ensures
        from <= r.0 <= r.1 <= to,
        s@.subrange(r.0 as int, r.1 as int) == trim(s@.subrange(from as int, to as int)),
{
    let mut i = from;
    while i < to && (s[i] == 32 || s[i] == 9 || s[i] == 10 || s[i] == 11 || s[i] == 12 || s[i] == 13)
        invariant
            from <= i <= to <= s@.len(),
            trim_start(s@.subrange(from as int, to as int)) == trim_start(s@.subrange(i as int, to as int)),
        decreases to - i,
    {
        assert(s@.subrange(i as int, to as int).drop_first() =~= s@.subrange(i + 1, to as int));
        i += 1;
    }
    let mut j = to;
    while j > i && (s[j - 1] == 32 || s[j - 1] == 9 || s[j - 1] == 10 || s[j - 1] == 11 || s[j - 1] == 12
        || s[j - 1] == 13)
        invariant
            from <= i <= j <= to <= s@.len(),
            trim_start(s@.subrange(from as int, to as int)) == s@.subrange(i as int, to as int),
            trim(s@.subrange(from as int, to as int)) == trim_end(s@.subrange(i as int, j as int)),
        decreases j - i,
    {
        assert(s@.subrange(i as int, j as int).drop_last() =~= s@.subrange(i as int, j - 1));
        j -= 1;
    }
    (i, j)
}

/// Whether the text `s[at..to]` begins with `tag`.
fn has_tag(s: &[u8], at: usize, to: usize, tag: &[u8]) -> (r: bool)
    requires
        at <= to <= s@.len(),
    ensures
        r == starts_with(s@.subrange(at as int, to as int), tag@),
{
    if tag.len() > to - at {
        return false;
    }
    let ghost head = s@.subrange(at as int, to as int).subrange(0, tag@.len() as int);
    let mut k: usize = 0;
    while k < tag.len()
        invariant
            k <= tag@.len() <= to - at,
            at <= to <= s@.len(),
            head == s@.subrange(at as int, to as int).subrange(0, tag@.len() as int),
            forall|m: int| 0 <= m < k ==> head[m] == tag@[m],
        decreases tag@.len() - k,
    {
        if s[at + k] != tag[k] {
            assert(head[k as int] != tag@[k as int]);
            return false;
        }
        k += 1;
    }
    assert(head =~= tag@);
    true
}

/// Reads one line of the file.
pub fn parse_kat_line(line: &[u8]) -> (r: Result<KatLine, Error>)
    ensures
        match r {
            Ok(KatLine::Skip) => line_kind(line@) == LineKind::Skip,
            Ok(KatLine::Count) => line_kind(line@) == LineKind::Count,
            Ok(KatLine::Field(f, v)) => {
                &&& line_kind(line@) == LineKind::Field(f)
                &&& hex_decoding(field_text(line@)) == Some(v@)
            },
            Err(e) => {
                &&& e == Error::InvalidInput
                &&& line_kind(line@) is Field
                &&& hex_decoding(field_text(line@)) is None
            },
        },
{
    let (a, b) = trim_range(line, 0, line.len());
    assert(line@.subrange(0, line@.len() as int) =~= line@);
    let ghost t = line@.subrange(a as int, b as int);
    if a == b || line[a] == 35 {
        return Ok(KatLine::Skip);
    }
    let ct: [u8; 4] = [99, 116, 32, 61];
    let sk: [u8; 4] = [115, 107, 32, 61];
    let ss: [u8; 4] = [115, 115, 32, 61];
    let count: [u8; 7] = [99, 111, 117, 110, 116, 32, 61];
    assert(ct@ =~= ct_tag());
    assert(sk@ =~= sk_tag());
    assert(ss@ =~= ss_tag());
    assert(count@ =~= count_tag());
    let field = if has_tag(line, a, b, &ct) {
        KatField::Ciphertext
    } else if has_tag(line, a, b, &sk) {
        KatField::SecretKey
    } else if has_tag(line, a, b, &ss) {
        KatField::SharedSecret
    } else if has_tag(line, a, b, &count) {
        return Ok(KatLine::Count);
    } else {
        return Ok(KatLine::Skip);
    };
    let (c, d) = trim_range(line, a + 4, b);
    assert(t.subrange(4, t.len() as int) =~= line@.subrange(a + 4, b as int));
    let hex_prefix: [u8; 2] = [48, 120];
    assert(hex_prefix@ =~= seq![48u8, 120]);
    let from = if has_tag(line, c, d, &hex_prefix) {
        c + 2
    } else {
        c
    };
    let ghost rest = line@.subrange(c as int, d as int);
    assert(from == c + 2 ==> rest.subrange(2, rest.len() as int) =~= line@.subrange(from as int, d as int));
    match decode_hex(vstd::slice::slice_subrange(line, from, d)) {
        Some(v) => Ok(KatLine::Field(field, v)),
        None => Err(Error::InvalidInput),
    }
}

/// One known-answer case: a ciphertext, a secret key and the shared secret
/// that decapsulation must give.
#[derive(Debug)]
pub struct KatCase {
    pub ct: Vec<u8>,
    pub sk: Vec<u8>,
    pub ss: Vec<u8>,
}

/// The values of the case being read.
pub struct KatReader {
    pub ct: Option<Vec<u8>>,
    pub sk: Option<Vec<u8>>,
    pub ss: Option<Vec<u8>>,
}

impl KatReader {
    /// A reader at the start of a file.
    pub fn new() -> (r: KatReader)
        ensures
            r.ct is None && r.sk is None && r.ss is None,
    {
        KatReader { ct: None, sk: None, ss: None }
    }

    /// The case the reader holds, if all three values were given.
    pub open spec fn complete(&self) -> bool {
        self.ct is Some && self.sk is Some && self.ss is Some
    }

    /// Takes the values gathered so far, leaving the reader empty; hands
    /// them out as a case if all three were given.
    pub fn take_case(&mut self) -> (r: Option<KatCase>)
        ensures
            final(self).ct is None && final(self).sk is None && final(self).ss is None,
            r is Some <==> old(self).complete(),
            r is Some ==> {
                &&& r->0.ct@ == old(self).ct->0@
                &&& r->0.sk@ == old(self).sk->0@
                &&& r->0.ss@ == old(self).ss->0@
            },
    {
        let ct = self.ct.take();
        let sk = self.sk.take();
        let ss = self.ss.take();
        match (ct, sk, ss) {
            (Some(ct), Some(sk), Some(ss)) => Some(KatCase { ct, sk, ss }),
            _ => None,
        }
    }

    /// Takes in one line: a field line sets that value (a later one wins),
    /// a `count` line closes the case before it and hands it out if complete.
    pub fn feed(&mut self, line: KatLine) -> (r: Option<KatCase>)
        ensures
            match line {
                KatLine::Skip => r is None && *final(self) == *old(self),
                KatLine::Field(f, v) => {
                    &&& r is None
                    &&& f == KatField::Ciphertext ==> (final(self).ct == Some(v) && final(self).sk
                        == old(self).sk && final(self).ss == old(self).ss)
                    &&& f == KatField::SecretKey ==> (final(self).sk == Some(v) && final(self).ct
                        == old(self).ct && final(self).ss == old(self).ss)
                    &&& f == KatField::SharedSecret ==> (final(self).ss == Some(v) && final(self).ct
                        == old(self).ct && final(self).sk == old(self).sk)
                },
                KatLine::Count => {
                    &&& final(self).ct is None && final(self).sk is None && final(self).ss is None
                    &&& r is Some <==> old(self).complete()
                    &&& r is Some ==> {
                        &&& r->0.ct@ == old(self).ct->0@
                        &&& r->0.sk@ == old(self).sk->0@
                        &&& r->0.ss@ == old(self).ss->0@
                    }
                },
            },
    {
        match line {
            KatLine::Skip => None,
            KatLine::Count => self.take_case(),
            KatLine::Field(KatField::Ciphertext, v) => {
                self.ct = Some(v);
                None
            },
            KatLine::Field(KatField::SecretKey, v) => {
                self.sk = Some(v);
                None
            },
            KatLine::Field(KatField::SharedSecret, v) => {
                self.ss = Some(v);
                None
            },
        }
    }
}

/// Whether two byte strings are equal.
pub(crate) fn same_bytes(a: &[u8], b: &[u8]) -> (r: bool)
    ensures
        r == (a@ == b@),
{
    if a.len() != b.len() {
        return false;
    }
    let mut i: usize = 0;
    while i < a.len()
        invariant
            a@.len() == b@.len(),
            i <= a@.len(),
            forall|j: int| 0 <= j < i ==> a@[j] == b@[j],
        decreases a@.len() - i,
    {
        if a[i] != b[i] {
            return false;
        }
        i += 1;
    }
    assert(a@ =~= b@);
    true
}

/// Checks one case against the ML-KEM variant named `variant`: whether
/// decapsulating its ciphertext with its secret key gives its secret.
pub fn check_kat_case(variant: &str, case: &KatCase) -> (r: Result<bool, Error>)
    ensures
        match mlkem_named(variant@) {
            None => r == Err::<bool, Error>(Error::InvalidInput),
            Some(v) => match kem_decapsulate_outcome(v, 32, case.ct@.len() as int, case.sk@.len() as int) {
                Err(e) => r == Err::<bool, Error>(e),
                Ok(_) => r == Ok::<bool, Error>(kem_shared_secret(v, case.ct@, case.sk@) == case.ss@),
            },
        },
{
    let ss = PqcInterface::mlkem_decapsulate(variant, case.sk.as_slice(), case.ct.as_slice())?;
    Ok(same_bytes(ss.as_slice(), case.ss.as_slice()))
}

/// How many cases were checked and how many passed.
pub struct KatTally {
    pub cases_total: u64,
    pub cases_passed: u64,
}

impl KatTally {
    /// No case passed more often than cases were checked.
    pub open spec fn wf(&self) -> bool {
        self.cases_passed <= self.cases_total
    }

    /// No case checked yet.
    pub fn new() -> (r: KatTally)
        ensures
            r.cases_total == 0 && r.cases_passed == 0,
            r.wf(),
    {
        KatTally { cases_total: 0, cases_passed: 0 }
    }

    /// Whether one more case can be counted.
    pub fn has_room(&self) -> (r: bool)
        ensures
            r == (self.cases_total < u64::MAX),
    {
        self.cases_total < u64::MAX
    }

    /// Counts one more case, which passed or not.
    pub fn record(&mut self, passed: bool)
        requires
            old(self).wf(),
            old(self).cases_total < u64::MAX,
        ensures
            final(self).wf(),
            final(self).cases_total == old(self).cases_total + 1,
            final(self).cases_passed == old(self).cases_passed + if passed {
                1int
            } else {
                0int
            },
    {
        self.cases_total += 1;
        if passed {
            self.cases_passed += 1;
        }
    }

    /// Whether every case checked passed.
    pub fn all_passed(&self) -> (r: bool)
        ensures
            r == (self.cases_passed == self.cases_total),
    {
        self.cases_passed == self.cases_total
    }
}

} // verus!

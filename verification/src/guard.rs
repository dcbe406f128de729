//! Which lines are handed to the JSON reader.
//!
//! The reader does not return on every text: it descends once for each array
//! or object that is open, it holds the keys on the way to the value at hand
//! in a buffer whose positions have 16 bits, it counts the items of an array
//! in 32 bits and the digits of an exponent in a machine word, and it loses
//! its place on a comma that is followed by a closing brace. One pass over
//! the bytes of a line follows what the reader would hold, and names the
//! first of these that the line would run into. Bytes inside strings are
//! told from those outside, as the reader tells them.

use crate::event::ParseReason;
use vstd::prelude::*;

verus! {

/// The most arrays and objects that may be open at once.
pub const MAX_DEPTH: usize = 128;

/// The most bytes that the keys on the way to one value may have together.
pub const MAX_KEY_BYTES: usize = 65535;

/// What one key counts for at most; this alone is more than the reader holds.
pub const KEY_CAP: usize = 65536;

/// The most commas outside strings.
pub const MAX_COMMAS: usize = 0xFFFF_FFFF;

/// Space, tab, line feed or carriage return: what the reader skips.
pub open spec fn is_blank(b: u8) -> bool {
    b == 0x20 || b == 0x09 || b == 0x0A || b == 0x0D
}

/// The letter that starts an exponent.
pub open spec fn is_exponent_mark(b: u8) -> bool {
    b == 0x65 || b == 0x45
}

/// A plus or minus sign.
pub open spec fn is_sign(b: u8) -> bool {
    b == 0x2B || b == 0x2D
}

/// An ASCII digit.
pub open spec fn is_digit(b: u8) -> bool {
    0x30 <= b <= 0x39
}

/// The sum of the numbers.
pub open spec fn total(held: Seq<usize>) -> nat
    decreases held.len(),
{
    if held.len() == 0 {
        0
    } else {
        total(held.drop_last()) + held.last() as nat
    }
}

/// Where the pass stands in an exponent.
pub enum ExponentModel {
    /// Not in one.
    Outside,
    /// Just behind its letter.
    Marked,
    /// Behind the sign that follows the letter.
    Signed,
    /// Behind digits that make this number.
    Digits(nat),
}

/// What the pass knows after some bytes of a line.
pub struct ScanModel {
    /// The first reason for which the line is kept from the reader.
    pub verdict: Option<ParseReason>,
    /// Whether the next byte stands in a string.
    pub in_string: bool,
    /// Whether the next byte is escaped by a backslash.
    pub escaped: bool,
    /// The bytes between the quotes of the string at hand, or of the last.
    pub string_bytes: nat,
    /// Whether a string has just ended, blanks aside.
    pub after_string: bool,
    /// Whether a comma has just passed, blanks aside.
    pub after_comma: bool,
    /// For each array or object that is open, outermost first, the bytes of
    /// the key that the reader holds for it.
    pub held: Seq<usize>,
    pub exponent: ExponentModel,
    /// The commas outside strings.
    pub commas: nat,
}

impl ScanModel {
    /// Before the first byte.
    pub open spec fn start() -> ScanModel {
        ScanModel {
            verdict: None,
            in_string: false,
            escaped: false,
            string_bytes: 0,
            after_string: false,
            after_comma: false,
            held: Seq::empty(),
            exponent: ExponentModel::Outside,
            commas: 0,
        }
    }

    /// The pass that has found its reason.
    pub open spec fn refused(self, reason: ParseReason) -> ScanModel {
        ScanModel { verdict: Some(reason), ..self }
    }

    /// With the key of the innermost array or object set to so many bytes.
    pub open spec fn holding(self, bytes: usize) -> ScanModel {
        if self.held.len() > 0 {
            ScanModel { held: self.held.update(self.held.len() - 1, bytes), ..self }
        } else {
            self
        }
    }

    /// After a byte inside a string: a backslash escapes the byte behind it,
    /// and a quote that is not escaped ends the string.
    pub open spec fn step_in_string(self, b: u8) -> ScanModel {
        if self.escaped {
            ScanModel { escaped: false, string_bytes: self.string_bytes + 1, ..self }
        } else if b == 0x5C {
            ScanModel { escaped: true, string_bytes: self.string_bytes + 1, ..self }
        } else if b == 0x22 {
            ScanModel { in_string: false, after_string: true, ..self }
        } else {
            ScanModel { string_bytes: self.string_bytes + 1, ..self }
        }
    }

    /// After a colon: the string before it is a key, and the reader holds it
    /// until the value behind the colon has ended.
    pub open spec fn step_colon(self, plain: ScanModel) -> ScanModel {
        if self.after_string && self.held.len() > 0 {
            let counted = if self.string_bytes < KEY_CAP {
                self.string_bytes as usize
            } else {
                KEY_CAP
            };
            let next = plain.holding(counted);
            if total(next.held) > MAX_KEY_BYTES {
                next.refused(ParseReason::KeysTooLong)
            } else {
                next
            }
        } else {
            plain
        }
    }

    /// After a digit outside a string.
    pub open spec fn step_digit(self, plain: ScanModel, digit: nat) -> ScanModel {
        match self.exponent {
            ExponentModel::Outside => plain,
            ExponentModel::Marked | ExponentModel::Signed => ScanModel {
                exponent: ExponentModel::Digits(digit),
                ..plain
            },
            ExponentModel::Digits(before) => {
                let number = before * 10 + digit;
                if number > usize::MAX {
                    plain.refused(ParseReason::ExponentTooLong)
                } else {
                    ScanModel { exponent: ExponentModel::Digits(number), ..plain }
                }
            },
        }
    }

    /// After a byte outside a string that is no blank.
    pub open spec fn step_outside(self, b: u8) -> ScanModel {
        let plain = ScanModel {
            after_string: false,
            after_comma: false,
            exponent: ExponentModel::Outside,
            ..self
        };
        if b == 0x22 {
            ScanModel { in_string: true, escaped: false, string_bytes: 0, ..plain }
        } else if b == 0x3A {
            self.step_colon(plain)
        } else if b == 0x5B || b == 0x7B {
            if self.held.len() >= MAX_DEPTH {
                plain.refused(ParseReason::NestingTooDeep)
            } else {
                ScanModel { held: self.held.push(0), ..plain }
            }
        } else if b == 0x7D && self.after_comma {
            plain.refused(ParseReason::InvalidJson)
        } else if b == 0x5D || b == 0x7D {
            if self.held.len() > 0 {
                ScanModel { held: self.held.drop_last(), ..plain }
            } else {
                plain
            }
        } else if b == 0x2C {
            if self.commas >= MAX_COMMAS {
                plain.refused(ParseReason::TooManyItems)
            } else {
                ScanModel { commas: self.commas + 1, after_comma: true, ..plain.holding(0) }
            }
        } else if is_exponent_mark(b) {
            ScanModel { exponent: ExponentModel::Marked, ..plain }
        } else if is_sign(b) && self.exponent is Marked {
            ScanModel { exponent: ExponentModel::Signed, ..plain }
        } else if is_digit(b) {
            self.step_digit(plain, (b - 0x30) as nat)
        } else {
            plain
        }
    }

    /// After one more byte. Once a reason is found, nothing changes.
    pub open spec fn step(self, b: u8) -> ScanModel {
        if self.verdict is Some {
            self
        } else if self.in_string {
            self.step_in_string(b)
        } else if is_blank(b) {
            ScanModel { exponent: ExponentModel::Outside, ..self }
        } else {
            self.step_outside(b)
        }
    }
}

/// What the pass knows after all of the bytes.
pub open spec fn scan_of(bytes: Seq<u8>) -> ScanModel
    decreases bytes.len(),
{
    if bytes.len() == 0 {
        ScanModel::start()
    } else {
        scan_of(bytes.drop_last()).step(bytes.last())
    }
}

/// Why a line is kept from the JSON reader, if it is:
/// - more than `MAX_DEPTH` arrays and objects would be open at once;
/// - the keys on the way to one value have more than `MAX_KEY_BYTES` bytes
///   together, each counted as it stands in the line;
/// - an exponent does not fit in a machine word;
/// - the line has more than `MAX_COMMAS` commas outside strings;
/// - a comma outside a string is followed, blanks aside, by a closing brace;
///   such a line is no JSON.
pub open spec fn refusal(bytes: Seq<u8>) -> Option<ParseReason> {
    scan_of(bytes).verdict
}

/// Where the pass stands in an exponent.
#[derive(Clone, Copy)]
enum Exponent {
    Outside,
    Marked,
    Signed,
    Digits(usize),
}

impl View for Exponent {
    type V = ExponentModel;

    closed spec fn view(&self) -> ExponentModel {
        match self {
            Exponent::Outside => ExponentModel::Outside,
            Exponent::Marked => ExponentModel::Marked,
            Exponent::Signed => ExponentModel::Signed,
            Exponent::Digits(number) => ExponentModel::Digits(*number as nat),
        }
    }
}

/// The pass over a line.
struct Scan {
    verdict: Option<ParseReason>,
    in_string: bool,
    escaped: bool,
    string_bytes: usize,
    after_string: bool,
    after_comma: bool,
    held: Vec<usize>,
    exponent: Exponent,
    commas: usize,
}

impl View for Scan {
    type V = ScanModel;

    closed spec fn view(&self) -> ScanModel {
        ScanModel {
            verdict: self.verdict,
            in_string: self.in_string,
            escaped: self.escaped,
            string_bytes: self.string_bytes as nat,
            after_string: self.after_string,
            after_comma: self.after_comma,
            held: self.held@,
            exponent: self.exponent@,
            commas: self.commas as nat,
        }
    }
}

impl Scan {
    /// Whether the pass holds no more than its bounds allow.
    spec fn fits(&self) -> bool {
        &&& self.held@.len() <= MAX_DEPTH
        &&& self.commas <= MAX_COMMAS
        &&& forall|i: int| 0 <= i < self.held@.len() ==> #[trigger] self.held@[i] <= KEY_CAP
    }

    /// Before the first byte.
    fn start() -> (scan: Scan)
        ensures
            scan@ == ScanModel::start(),
            scan.fits(),
            scan.string_bytes == 0,
    {
        Scan {
            verdict: None,
            in_string: false,
            escaped: false,
            string_bytes: 0,
            after_string: false,
            after_comma: false,
            held: Vec::new(),
            exponent: Exponent::Outside,
            commas: 0,
        }
    }

    /// The bytes of all keys that are held.
    fn held_bytes(&self) -> (sum: usize)
        requires
            self.fits(),
        ensures
            sum == total(self.held@),
    {
        let n = self.held.len();
        let mut sum: usize = 0;
        let mut i: usize = 0;
        assert(self.held@.take(0) =~= Seq::<usize>::empty());
        while i < n
            invariant
                self.fits(),
                n == self.held@.len(),
                i <= n,
                sum == total(self.held@.take(i as int)),
                sum <= i * KEY_CAP,
            decreases n - i,
        {
            assert(self.held@.take(i + 1).drop_last() =~= self.held@.take(i as int));
            assert(self.held@.take(i + 1).last() == self.held@[i as int]);
            sum = sum + self.held[i];
            i += 1;
        }
        assert(self.held@.take(n as int) =~= self.held@);
        sum
    }

    /// Sets the key of the innermost array or object to so many bytes.
    fn hold(&mut self, bytes: usize)
        requires
            old(self).fits(),
            bytes <= KEY_CAP,
        ensures
            final(self)@ == old(self)@.holding(bytes),
            final(self).fits(),
            final(self).string_bytes == old(self).string_bytes,
    {
        let n = self.held.len();
        if n > 0 {
            self.held.set(n - 1, bytes);
        }
    }

    /// Takes one more byte.
    fn step(self, b: u8) -> (next: Scan)
        requires
            self.fits(),
            self.string_bytes < usize::MAX,
        ensures
            next@ == self@.step(b),
            next.fits(),
            next.string_bytes <= self.string_bytes + 1,
    {
        let mut scan = self;
        if scan.verdict.is_some() {
            return scan;
        }
        if scan.in_string {
            if scan.escaped {
                scan.escaped = false;
                scan.string_bytes = scan.string_bytes + 1;
            } else if b == 0x5C {
                scan.escaped = true;
                scan.string_bytes = scan.string_bytes + 1;
            } else if b == 0x22 {
                scan.in_string = false;
                scan.after_string = true;
            } else {
                scan.string_bytes = scan.string_bytes + 1;
            }
            return scan;
        }
        if b == 0x20 || b == 0x09 || b == 0x0A || b == 0x0D {
            scan.exponent = Exponent::Outside;
            return scan;
        }
        let after_string = scan.after_string;
        let after_comma = scan.after_comma;
        let exponent = scan.exponent;
        scan.after_string = false;
        scan.after_comma = false;
        scan.exponent = Exponent::Outside;
        if b == 0x22 {
            scan.in_string = true;
            scan.escaped = false;
            scan.string_bytes = 0;
        } else if b == 0x3A {
            if after_string && scan.held.len() > 0 {
                let counted = if scan.string_bytes < KEY_CAP {
                    scan.string_bytes
                } else {
                    KEY_CAP
                };
                scan.hold(counted);
                if scan.held_bytes() > MAX_KEY_BYTES {
                    scan.verdict = Some(ParseReason::KeysTooLong);
                }
            }
        } else if b == 0x5B || b == 0x7B {
            if scan.held.len() >= MAX_DEPTH {
                scan.verdict = Some(ParseReason::NestingTooDeep);
            } else {
                scan.held.push(0);
            }
        } else if b == 0x7D && after_comma {
            scan.verdict = Some(ParseReason::InvalidJson);
        } else if b == 0x5D || b == 0x7D {
            if scan.held.len() > 0 {
                scan.held.pop();
            }
        } else if b == 0x2C {
            if scan.commas >= MAX_COMMAS {
                scan.verdict = Some(ParseReason::TooManyItems);
            } else {
                scan.hold(0);
                scan.commas = scan.commas + 1;
                scan.after_comma = true;
            }
        } else if b == 0x65 || b == 0x45 {
            scan.exponent = Exponent::Marked;
        } else if (b == 0x2B || b == 0x2D) && matches!(exponent, Exponent::Marked) {
            scan.exponent = Exponent::Signed;
        } else if 0x30 <= b && b <= 0x39 {
            let digit = (b - 0x30) as usize;
            match exponent {
                Exponent::Outside => {},
                Exponent::Marked | Exponent::Signed => {
                    scan.exponent = Exponent::Digits(digit);
                },
                Exponent::Digits(before) => {
                    let number = match before.checked_mul(10) {
                        Some(tens) => tens.checked_add(digit),
                        None => None,
                    };
                    match number {
                        Some(number) => {
                            scan.exponent = Exponent::Digits(number);
                        },
                        None => {
                            scan.verdict = Some(ParseReason::ExponentTooLong);
                        },
                    }
                },
            }
        }
        scan
    }
}

/// Decides whether a line may be handed to the JSON reader.
pub fn refuse(bytes: &[u8]) -> (r: Option<ParseReason>)
    ensures
        r == refusal(bytes@),
{
    let n = bytes.len();
    let mut scan = Scan::start();
    let mut i: usize = 0;
    assert(bytes@.take(0) =~= Seq::<u8>::empty());
    while i < n
        invariant
            n == bytes@.len(),
            i <= n,
            scan@ == scan_of(bytes@.take(i as int)),
            scan.fits(),
            scan.string_bytes <= i,
        decreases n - i,
    {
        assert(bytes@.take(i + 1).drop_last() =~= bytes@.take(i as int));
        assert(bytes@.take(i + 1).last() == bytes@[i as int]);
        scan = scan.step(bytes[i]);
        i += 1;
    }
    assert(bytes@.take(n as int) =~= bytes@);
    scan.verdict
}

} // verus!

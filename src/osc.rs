//! OSC addressing of channel updates: `/<universe>/dmx/<offset>`.
use vstd::prelude::*;

verus! {

pub const ASCII_ZERO: u8 = 48;
pub const ASCII_NINE: u8 = 57;
pub const ASCII_PLUS: u8 = 43;
pub const ASCII_MINUS: u8 = 45;
pub const ASCII_SLASH: u8 = 47;
pub const ASCII_D: u8 = 100;
pub const ASCII_M: u8 = 109;
pub const ASCII_X: u8 = 120;

/// The ASCII decimal digits of `n`, most significant first.
pub open spec fn decimal(n: nat) -> Seq<u8>
    decreases n,
{
    if n < 10 {
        seq![(48 + n) as u8]
    } else {
        decimal(n / 10) + seq![(48 + n % 10) as u8]
    }
}

/// The ASCII decimal form of `v`, with a leading `-` when it is negative.
pub open spec fn signed_decimal(v: int) -> Seq<u8> {
    if v < 0 {
        seq![ASCII_MINUS] + decimal((-v) as nat)
    } else {
        decimal(v as nat)
    }
}

/// The address prefix `/<universe>/dmx/` of the messages that a universe
/// accepts.
pub open spec fn address_prefix(universe: int) -> Seq<u8> {
    seq![ASCII_SLASH] + signed_decimal(universe) + seq![ASCII_SLASH, ASCII_D, ASCII_M, ASCII_X, ASCII_SLASH]
}

pub open spec fn is_digit(c: u8) -> bool {
    ASCII_ZERO <= c <= ASCII_NINE
}

/// The value of a run of ASCII decimal digits.
pub open spec fn digits_value(s: Seq<u8>) -> nat
    decreases s.len(),
{
    if s.len() == 0 {
        0
    } else {
        digits_value(s.drop_last()) * 10 + (s.last() - ASCII_ZERO) as nat
    }
}

/// The digits of an offset text: what follows an optional leading `+`.
pub open spec fn offset_digits(s: Seq<u8>) -> Seq<u8> {
    if s.len() > 0 && s[0] == ASCII_PLUS {
        s.skip(1)
    } else {
        s
    }
}

/// Why an offset text is not an offset.
#[derive(Debug, Clone, Copy, PartialEq, Eq)]
pub enum OffsetError {
    /// The text is empty.
    Empty,
    /// The text holds something other than an optional `+` and digits.
    InvalidDigit,
    /// The number does not fit in `usize`.
    Overflow,
}

/// The reading of an offset text: an optional `+` and at least one decimal
/// digit, whose value fits in `usize`. A `-` sign is not accepted.
pub open spec fn offset_of_text(s: Seq<u8>) -> Result<usize, OffsetError> {
    let d = offset_digits(s);
    if s.len() == 0 {
        Err(OffsetError::Empty)
    } else if d.len() == 0 || exists|i: int| 0 <= i < d.len() && !is_digit(#[trigger] d[i]) {
        Err(OffsetError::InvalidDigit)
    } else if digits_value(d) > usize::MAX {
        Err(OffsetError::Overflow)
    } else {
        Ok(digits_value(d) as usize)
    }
}

/// The offset that a message to `addr` carries for a universe whose prefix
/// is `prefix`: none when the address lies outside the prefix or its rest
/// is not an offset.
pub open spec fn routed_offset(prefix: Seq<u8>, addr: Seq<u8>) -> Option<usize> {
    if prefix.len() <= addr.len() && addr.take(prefix.len() as int) == prefix {
        match offset_of_text(addr.skip(prefix.len() as int)) {
            Ok(v) => Some(v),
            Err(_) => None,
        }
    } else {
        None
    }
}

proof fn lemma_digits_value_push(s: Seq<u8>, c: u8)
    ensures
        digits_value(s.push(c)) == digits_value(s) * 10 + (c - ASCII_ZERO) as nat,
{
    assert(s.push(c).drop_last() =~= s);
}

/// Appends the decimal digits of `n` to `out`.
fn push_decimal(n: u64, out: &mut Vec<u8>)
    ensures
        final(out)@ == old(out)@ + decimal(n as nat),
    decreases n,
{
    if n < 10 {
        out.push(48 + n as u8);
        assert(final(out)@ =~= old(out)@ + decimal(n as nat));
    } else {
        push_decimal(n / 10, out);
        out.push(48 + (n % 10) as u8);
        assert(final(out)@ =~= old(out)@ + decimal(n as nat));
    }
}

/// Reads the offset text that starts at byte `start` of `b`.
pub fn parse_offset(b: &[u8], start: usize) -> (r: Result<usize, OffsetError>)
    requires
        start <= b@.len(),
    ensures
        r == offset_of_text(b@.skip(start as int)),
{
    let ghost s = b@.skip(start as int);
    if start == b.len() {
        return Err(OffsetError::Empty);
    }
    let first: usize = if b[start] == ASCII_PLUS {
        start + 1
    } else {
        start
    };
    let ghost d = b@.skip(first as int);
    assert(d =~= offset_digits(s));
    if first == b.len() {
        return Err(OffsetError::InvalidDigit);
    }
    let mut i: usize = first;
    while i < b.len()
        invariant
            first <= i <= b@.len(),
            first < b@.len(),
            d == b@.skip(first as int),
            s == b@.skip(start as int),
            s.len() > 0,
            d == offset_digits(s),
            forall|j: int| 0 <= j < i - first ==> is_digit(#[trigger] d[j]),
        decreases b@.len() - i,
    {
        if !(ASCII_ZERO <= b[i] && b[i] <= ASCII_NINE) {
            assert(!is_digit(d[i - first]));
            return Err(OffsetError::InvalidDigit);
        }
        i = i + 1;
    }
    let mut v: usize = 0;
    let mut i: usize = first;
    while i < b.len()
        invariant
            first <= i <= b@.len(),
            first < b@.len(),
            d == b@.skip(first as int),
            s == b@.skip(start as int),
            s.len() > 0,
            d == offset_digits(s),
            forall|j: int| 0 <= j < d.len() ==> is_digit(#[trigger] d[j]),
            v as nat == digits_value(d.take(i - first)),
        decreases b@.len() - i,
    {
        let ghost t = d.take(i - first);
        assert(d.take(i + 1 - first) =~= t.push(d[i - first]));
        proof {
            lemma_digits_value_push(t, d[i - first]);
        }
        let digit = (b[i] - ASCII_ZERO) as usize;
        assert(is_digit(d[i - first]));
        match v.checked_mul(10) {
            Some(m) => match m.checked_add(digit) {
                Some(w) => {
                    v = w;
                },
                None => {
                    proof {
                        lemma_prefix_bound(d, i + 1 - first);
                    }
                    return Err(OffsetError::Overflow);
                },
            },
            None => {
                proof {
                    lemma_prefix_bound(d, i + 1 - first);
                }
                return Err(OffsetError::Overflow);
            },
        }
        i = i + 1;
    }
    assert(d.take(d.len() as int) =~= d);
    Ok(v)
}

/// A run of digits is worth at least any of its prefixes.
proof fn lemma_prefix_bound(d: Seq<u8>, k: int)
    requires
        0 <= k <= d.len(),
        forall|j: int| 0 <= j < d.len() ==> is_digit(#[trigger] d[j]),
    ensures
        digits_value(d) >= digits_value(d.take(k)),
    decreases d.len() - k,
{
    if k < d.len() {
        lemma_prefix_bound(d, k + 1);
        let t = d.take(k);
        assert(d.take(k + 1) =~= t.push(d[k]));
        lemma_digits_value_push(t, d[k]);
    } else {
        assert(d.take(k) =~= d);
    }
}

/// Reads the offset that follows `starter` in `addr`.
pub fn get_shift(starter: &[u8], addr: &[u8]) -> (r: Result<usize, OffsetError>)
    requires
        starter@.len() <= addr@.len(),
    ensures
        r == offset_of_text(addr@.skip(starter@.len() as int)),
{
    parse_offset(addr, starter.len())
}

/// Whether `addr` begins with `prefix`.
pub fn has_prefix(prefix: &[u8], addr: &[u8]) -> (r: bool)
    ensures
        r == (prefix@.len() <= addr@.len() && addr@.take(prefix@.len() as int) == prefix@),
{
    if prefix.len() > addr.len() {
        return false;
    }
    let mut i: usize = 0;
    while i < prefix.len()
        invariant
            prefix@.len() <= addr@.len(),
            i <= prefix@.len(),
            forall|j: int| 0 <= j < i ==> addr@[j] == prefix@[j],
        decreases prefix@.len() - i,
    {
        if addr[i] != prefix[i] {
            assert(addr@.take(prefix@.len() as int)[i as int] != prefix@[i as int]);
            return false;
        }
        i = i + 1;
    }
    assert(addr@.take(prefix@.len() as int) =~= prefix@);
    true
}

/// The messages addressed to one universe.
pub struct OscRoute {
    prefix: Vec<u8>,
}

impl View for OscRoute {
    type V = Seq<u8>;

    closed spec fn view(&self) -> Seq<u8> {
        self.prefix@
    }
}

impl OscRoute {
    /// The route of the messages addressed `/<universe>/dmx/<offset>`.
    pub fn new(universe: i32) -> (r: OscRoute)
        ensures
            r@ == address_prefix(universe as int),
    {
        let mut prefix: Vec<u8> = Vec::new();
        prefix.push(ASCII_SLASH);
        if universe < 0 {
            prefix.push(ASCII_MINUS);
            let magnitude: u64 = (0i64 - universe as i64) as u64;
            push_decimal(magnitude, &mut prefix);
        } else {
            push_decimal(universe as u64, &mut prefix);
        }
        prefix.push(ASCII_SLASH);
        prefix.push(ASCII_D);
        prefix.push(ASCII_M);
        prefix.push(ASCII_X);
        prefix.push(ASCII_SLASH);
        assert(prefix@ =~= address_prefix(universe as int));
        OscRoute { prefix }
    }

    /// The address prefix of this route.
    pub fn prefix(&self) -> (r: &[u8])
        ensures
            r@ == self@,
    {
        self.prefix.as_slice()
    }

    /// The channel offset that a message to `addr` carries, if the message
    /// belongs to this route.
    pub fn offset_of(&self, addr: &[u8]) -> (r: Option<usize>)
        ensures
            r == routed_offset(self@, addr@),
    {
        if !has_prefix(self.prefix.as_slice(), addr) {
            return None;
        }
        match get_shift(self.prefix.as_slice(), addr) {
            Ok(v) => Some(v),
            Err(_) => None,
        }
    }
}

} // verus!

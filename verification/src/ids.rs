//! Document identifiers.
//!
//! Every stored record is addressed by a 96-bit identifier that travels through
//! the API as 24 hexadecimal digits. The library holds an identifier as the
//! number those digits spell; the text form is read and written by the `bson`
//! object-id type that the document store itself uses.

use vstd::prelude::*;

verus! {

/// One more than the largest identifier: identifiers are 96-bit numbers.
pub const ID_LIMIT: u128 = 0x1_0000_0000_0000_0000_0000_0000;

/// Number of hexadecimal digits in the text form of an identifier.
pub const ID_HEX_LEN: usize = 24;

/// The value of one hexadecimal digit, in either case; `None` for any other character.
pub open spec fn hex_digit_value(c: char) -> Option<nat> {
    if '0' <= c && c <= '9' {
        Some((c as nat - '0' as nat) as nat)
    } else if 'a' <= c && c <= 'f' {
        Some((c as nat - 'a' as nat + 10) as nat)
    } else if 'A' <= c && c <= 'F' {
        Some((c as nat - 'A' as nat + 10) as nat)
    } else {
        None
    }
}

/// Every character of `s` is a hexadecimal digit.
pub open spec fn all_hex_digits(s: Seq<char>) -> bool {
    forall|i: int| 0 <= i < s.len() ==> (#[trigger] hex_digit_value(s[i])) is Some
}

/// `s` is the text form of an identifier: exactly 24 hexadecimal digits.
pub open spec fn is_hex_id(s: Seq<char>) -> bool {
    s.len() == ID_HEX_LEN && all_hex_digits(s)
}

/// The number that the digits of `s` spell, most significant digit first.
pub open spec fn hex_number(s: Seq<char>) -> nat
    decreases s.len(),
{
    if s.len() == 0 {
        0
    } else {
        16 * hex_number(s.drop_last()) + match hex_digit_value(s.last()) {
            Some(d) => d,
            None => 0,
        }
    }
}

/// The lower-case digit for a value below 16.
pub open spec fn hex_digit_char(d: nat) -> char {
    if d < 10 {
        ('0' as u8 + d as u8) as char
    } else {
        ('a' as u8 + (d - 10) as u8) as char
    }
}

/// The `n` least significant hexadecimal digits of `v`, most significant first,
/// in lower case.
pub open spec fn hex_text(v: nat, n: nat) -> Seq<char>
    decreases n,
{
    if n == 0 {
        Seq::empty()
    } else {
        hex_text(v / 16, (n - 1) as nat).push(hex_digit_char(v % 16))
    }
}

/// 16 to the power `n`.
pub open spec fn pow16(n: nat) -> nat
    decreases n,
{
    if n == 0 {
        1
    } else {
        16 * pow16((n - 1) as nat)
    }
}

/// A string of hexadecimal digits spells a number below 16 to the power of its length.
pub proof fn lemma_hex_number_bound(s: Seq<char>)
    requires
        all_hex_digits(s),
    ensures
        hex_number(s) < pow16(s.len()),
    decreases s.len(),
{
    if s.len() > 0 {
        let init = s.drop_last();
        assert forall|i: int| 0 <= i < init.len() implies (#[trigger] hex_digit_value(init[i])) is Some by {
            assert(init[i] == s[i]);
        }
        lemma_hex_number_bound(init);
        assert(hex_digit_value(s[s.len() - 1]) is Some);
        assert(hex_digit_value(s.last())->0 < 16);
    }
}

/// Twenty-four hexadecimal digits span exactly the identifier range.
pub proof fn lemma_pow16_id_len()
    ensures
        pow16(ID_HEX_LEN as nat) == ID_LIMIT,
{
    reveal_with_fuel(pow16, 25);
}

/// The text form of a value has the requested length and holds digits only.
pub proof fn lemma_hex_text_digits(v: nat, n: nat)
    ensures
        hex_text(v, n).len() == n,
        all_hex_digits(hex_text(v, n)),
    decreases n,
{
    if n > 0 {
        lemma_hex_text_digits(v / 16, (n - 1) as nat);
        let t = hex_text(v, n);
        let d = v % 16;
        assert(hex_digit_value(hex_digit_char(d)) == Some(d));
        assert forall|i: int| 0 <= i < t.len() implies (#[trigger] hex_digit_value(t[i])) is Some by {
            if i < n - 1 {
                assert(t[i] == hex_text(v / 16, (n - 1) as nat)[i]);
            }
        }
    }
}

/// Reading back the text form of a value gives the value, as far as the digits reach.
pub proof fn lemma_hex_number_of_text(v: nat, n: nat)
    ensures
        hex_number(hex_text(v, n)) == v % pow16(n),
    decreases n,
{
    if n == 0 {
    } else {
        let m = (n - 1) as nat;
        lemma_hex_number_of_text(v / 16, m);
        lemma_hex_text_digits(v / 16, m);
        let t = hex_text(v, n);
        assert(t.drop_last() =~= hex_text(v / 16, m));
        assert(t.last() == hex_digit_char(v % 16));
        assert(hex_digit_value(hex_digit_char(v % 16)) == Some(v % 16));
        lemma_pow16_positive(m);
        lemma_split_low_digit(v, pow16(m));
    }
}

/// Powers of 16 are positive.
pub proof fn lemma_pow16_positive(n: nat)
    ensures
        pow16(n) > 0,
    decreases n,
{
    if n > 0 {
        lemma_pow16_positive((n - 1) as nat);
    }
}

/// Taking a number modulo `16 * p` splits into its lowest digit and the rest modulo `p`.
proof fn lemma_split_low_digit(v: nat, p: nat)
    requires
        p > 0,
    ensures
        16 * ((v / 16) % p) + v % 16 == v % (16 * p),
{
    let q = v / 16;
    let r = v % 16;
    let a = q / p;
    let b = q % p;
    assert(v == 16 * q + r);
    assert(q == p * a + b) by (nonlinear_arith)
        requires
            a == q / p,
            b == q % p,
            p > 0,
    ;
    assert(v == a * (16 * p) + (16 * b + r)) by (nonlinear_arith)
        requires
            v == 16 * q + r,
            q == p * a + b,
    ;
    assert(0 <= 16 * b + r < 16 * p) by (nonlinear_arith)
        requires
            0 <= b < p,
            0 <= r < 16,
    ;
    vstd::arithmetic::div_mod::lemma_fundamental_div_mod_converse(
        v as int,
        (16 * p) as int,
        a as int,
        (16 * b + r) as int,
    );
}

/// The identifier of a stored document: a number below [`ID_LIMIT`].
#[derive(Clone, Copy, Debug, PartialEq, Eq, Structural, Hash)]
pub struct DocId {
    value: u128,
}

impl DocId {
    #[verifier::type_invariant]
    spec fn in_range(self) -> bool {
        self.value < ID_LIMIT
    }

    /// The identifier as a number.
    pub closed spec fn number(self) -> nat {
        self.value as nat
    }

    /// The identifier with the given number.
    pub closed spec fn from_number(n: nat) -> DocId {
        DocId { value: n as u128 }
    }

    /// The identifier that a text stands for: the number that 24 hexadecimal
    /// digits spell, and nothing for any other text.
    pub open spec fn parsed(s: Seq<char>) -> Option<DocId> {
        if is_hex_id(s) {
            Some(DocId::from_number(hex_number(s)))
        } else {
            None
        }
    }

    /// The text form of the identifier: 24 lower-case hexadecimal digits.
    pub open spec fn hex(self) -> Seq<char> {
        hex_text(self.number(), ID_HEX_LEN as nat)
    }

    /// Reading the text form of an identifier gives the identifier back.
    pub proof fn lemma_hex_parses_back(self)
        requires
            self.number() < ID_LIMIT,
        ensures
            DocId::parsed(self.hex()) == Some(self),
    {
        lemma_hex_round_trip(self.number());
    }

    /// The identifier with the given number, if the number is in range.
    pub fn new(value: u128) -> (r: Option<DocId>)
        ensures
            r is Some <==> value < ID_LIMIT,
            r matches Some(id) ==> id.number() == value,
    {
        if value < ID_LIMIT {
            Some(DocId { value })
        } else {
            None
        }
    }

    /// The identifier as a number.
    pub fn value(&self) -> (v: u128)
        ensures
            v == self.number(),
            v < ID_LIMIT,
    {
        proof {
            use_type_invariant(self);
        }
        self.value
    }

    /// Reads an identifier from its text form. Succeeds exactly on 24
    /// hexadecimal digits, upper or lower case, and yields the number they spell.
    pub fn parse_str(s: &str) -> (r: Option<DocId>)
        ensures
            r == DocId::parsed(s@),
            r is Some <==> is_hex_id(s@),
            r matches Some(id) ==> id.number() == hex_number(s@),
    {
        match parse_object_id(s) {
            Some(value) => {
                proof {
                    lemma_hex_number_bound(s@);
                    lemma_pow16_id_len();
                }
                Some(DocId { value })
            },
            None => None,
        }
    }

    /// Writes the identifier in its text form: 24 lower-case hexadecimal digits,
    /// which `parse_str` reads back as this identifier.
    pub fn to_hex(&self) -> (r: String)
        ensures
            r@ == self.hex(),
            DocId::parsed(r@) == Some(*self),
    {
        proof {
            use_type_invariant(self);
            lemma_hex_round_trip(self.number());
        }
        object_id_hex(self.value)
    }
}

/// Writing a number of the identifier range as 24 digits and reading the text
/// back yields the number.
pub proof fn lemma_hex_round_trip(v: nat)
    requires
        v < ID_LIMIT,
    ensures
        is_hex_id(hex_text(v, ID_HEX_LEN as nat)),
        hex_number(hex_text(v, ID_HEX_LEN as nat)) == v,
{
    lemma_hex_text_digits(v, ID_HEX_LEN as nat);
    lemma_hex_number_of_text(v, ID_HEX_LEN as nat);
    lemma_pow16_id_len();
    vstd::arithmetic::div_mod::lemma_small_mod(v, ID_LIMIT as nat);
}

/// Calls `bson::oid::ObjectId::parse_str` and hands back the twelve bytes of the
/// parsed identifier as one big-endian number.
///
/// The parser hex-decodes the text and accepts it when that yields twelve
/// bytes, which is to say on exactly 24 hexadecimal digits of either case; the
/// bytes are the digits taken in pairs, so the number is the one the digits
/// spell.
#[verifier::external_body]
fn parse_object_id(s: &str) -> (r: Option<u128>)
    ensures
        r is Some <==> is_hex_id(s@),
        r matches Some(v) ==> v == hex_number(s@),
{
    match mongodb::bson::oid::ObjectId::parse_str(s) {
        Ok(oid) => {
            let mut wide = [0u8; 16];
            wide[4..].copy_from_slice(&oid.bytes());
            Some(u128::from_be_bytes(wide))
        },
        Err(_) => None,
    }
}

/// Calls `bson::oid::ObjectId::to_hex` on the identifier whose twelve bytes are
/// the big-endian form of `value`.
///
/// The result is the hex encoding of those bytes in lower case: 24 digits
/// spelling `value`.
#[verifier::external_body]
fn object_id_hex(value: u128) -> (r: String)
    requires
        value < ID_LIMIT,
    ensures
        r@ == hex_text(value as nat, ID_HEX_LEN as nat),
{
    let wide = value.to_be_bytes();
    let mut bytes = [0u8; 12];
    bytes.copy_from_slice(&wide[4..]);
    mongodb::bson::oid::ObjectId::from_bytes(bytes).to_hex()
}

} // verus!

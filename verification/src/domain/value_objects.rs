use vstd::prelude::*;
use vstd::arithmetic::power2::pow2;
use uuid::Uuid;

verus! {

/// The lowercase hexadecimal digit for `n` (`0 <= n < 16`).
pub open spec fn hex_digit(n: int) -> char {
    if n < 10 {
        ('0' as int + n) as char
    } else {
        ('a' as int + (n - 10)) as char
    }
}

/// The `k`-th hexadecimal digit of a 128-bit value, counted from the most
/// significant one (`0 <= k < 32`).
pub open spec fn nibble(v: u128, k: int) -> int {
    (v as int / pow2((4 * (31 - k)) as nat) as int) % 16
}

/// Which hexadecimal digit stands at position `i` of the hyphenated form.
pub open spec fn digit_at(i: int) -> int {
    if i < 8 {
        i
    } else if i < 13 {
        i - 1
    } else if i < 18 {
        i - 2
    } else if i < 23 {
        i - 3
    } else {
        i - 4
    }
}

/// The hyphenated lowercase form of a UUID given by its 128-bit value,
/// e.g. `67e55044-10b1-426f-9247-bb680e5fe0c8`: 32 hexadecimal digits, most
/// significant first, with hyphens after the 8th, 12th, 16th and 20th digit.
pub open spec fn hyphenated(v: u128) -> Seq<char> {
    Seq::new(
        36,
        |i: int|
            if i == 8 || i == 13 || i == 18 || i == 23 {
                '-'
            } else {
                hex_digit(nibble(v, digit_at(i)))
            },
    )
}

/// What `Uuid::parse_str` makes of a text: the UUID's 128-bit value, or the
/// text of the error it reports.
pub uninterp spec fn uuid_parse(s: Seq<char>) -> Result<u128, Seq<char>>;

/// A successful parse giving the value `v`.
pub open spec fn parsed_uuid(v: u128) -> Result<u128, Seq<char>> {
    Ok(v)
}

/// Whether a 128-bit value is a random (version 4, RFC 4122 variant) UUID.
pub open spec fn is_random_uuid(v: u128) -> bool {
    &&& (v >> 76u128) & 0xfu128 == 4
    &&& (v >> 62u128) & 0x3u128 == 2
}

/// Calls `Uuid::new_v4`. The value is random; the crate sets the version
/// nibble to 4 and the variant bits to `10`, which is all that is claimed.
#[verifier::external_body]
fn random_uuid() -> (v: u128)
    ensures
        is_random_uuid(v),
{
    Uuid::new_v4().as_u128()
}

/// Calls `Uuid::parse_str` and gives the parsed value, or the error's text.
/// What the parser accepts is left to the name `uuid_parse`.
#[verifier::external_body]
fn parse_uuid(s: &str) -> (r: Result<u128, String>)
    ensures
        match r {
            Ok(v) => (uuid_parse(s@) matches Ok(w) && w == v),
            Err(e) => (uuid_parse(s@) matches Err(m) && m == e@),
        },
{
    match Uuid::parse_str(s) {
        Ok(u) => Ok(u.as_u128()),
        Err(e) => Err(e.to_string()),
    }
}

/// Calls `Uuid::to_string` (its `Display`), which writes the hyphenated
/// lowercase form; `Uuid::parse_str` reads that form back to the same value.
#[verifier::external_body]
fn uuid_text(v: u128) -> (text: String)
    ensures
        text@ == hyphenated(v),
        uuid_parse(text@) == parsed_uuid(v),
{
    Uuid::from_u128(v).to_string()
}

/// The identity of a product: a UUID, held by its 128-bit value.
#[derive(Clone, Copy, Debug, PartialEq, Eq, Hash, Structural)]
pub struct ProductId(pub u128);

impl ProductId {
    /// A fresh random identifier.
    pub fn new() -> (id: Self)
        ensures
            is_random_uuid(id.0),
    {
        ProductId(random_uuid())
    }

    /// The identifier of the UUID with the given 128-bit value.
    pub fn from_uuid(uuid: u128) -> (id: Self)
        ensures
            id.0 == uuid,
    {
        ProductId(uuid)
    }

    /// The hyphenated lowercase text of the identifier.
    pub fn to_string(&self) -> (s: String)
        ensures
            s@ == hyphenated(self.0),
            uuid_parse(s@) == parsed_uuid(self.0),
    {
        uuid_text(self.0)
    }

    /// Reads an identifier from its text, as `Uuid::parse_str` does.
    pub fn parse(s: &str) -> (r: Result<ProductId, String>)
        ensures
            match r {
                Ok(id) => (uuid_parse(s@) matches Ok(w) && w == id.0),
                Err(e) => (uuid_parse(s@) matches Err(m) && m == e@),
            },
    {
        match parse_uuid(s) {
            Ok(v) => Ok(ProductId(v)),
            Err(e) => Err(e),
        }
    }
}

impl Default for ProductId {
    /// A fresh random identifier, as `ProductId::new`.
    fn default() -> (id: Self)
        ensures
            is_random_uuid(id.0),
    {
        ProductId::new()
    }
}

/// Where a price stands against the range that the validation rules allow:
/// below zero, above 999,999.99, or in between (a NaN compares as neither).
#[derive(Clone, Copy, Debug, PartialEq, Eq, Structural)]
pub enum PriceRange {
    Negative,
    AboveMaximum,
    Allowed,
}

/// A price as the rules read it: the IEEE-754 bits of the amount, which the
/// library carries without interpreting, and where the amount stands against
/// the allowed range. The two are filled in together, where the amount is read.
#[derive(Clone, Copy, Debug)]
pub struct PriceValue {
    pub bits: u64,
    pub range: PriceRange,
}

impl PriceValue {
    pub open spec fn is_negative(self) -> bool {
        self.range == PriceRange::Negative
    }
}

/// Whether IEEE-754 bits stand for a NaN: all exponent bits set and a
/// fraction that is not zero.
pub open spec fn is_nan_bits(bits: u64) -> bool {
    &&& bits & 0x7ff0_0000_0000_0000u64 == 0x7ff0_0000_0000_0000u64
    &&& bits & 0x000f_ffff_ffff_ffffu64 != 0
}

/// Whether two amounts, given by their IEEE-754 bits, are equal as `f64`
/// compares them: a NaN equals nothing, the two zeros are equal, and any other
/// amounts are equal when their bits are.
pub open spec fn same_amount(a: u64, b: u64) -> bool {
    &&& !is_nan_bits(a)
    &&& !is_nan_bits(b)
    &&& (a == b || (a | b) & 0x7fff_ffff_ffff_ffffu64 == 0)
}

fn same_amount_exec(a: u64, b: u64) -> (r: bool)
    ensures
        r == same_amount(a, b),
{
    let a_nan = a & 0x7ff0_0000_0000_0000u64 == 0x7ff0_0000_0000_0000u64 && a
        & 0x000f_ffff_ffff_ffffu64 != 0;
    let b_nan = b & 0x7ff0_0000_0000_0000u64 == 0x7ff0_0000_0000_0000u64 && b
        & 0x000f_ffff_ffff_ffffu64 != 0;
    !a_nan && !b_nan && (a == b || (a | b) & 0x7fff_ffff_ffff_ffffu64 == 0)
}

impl PartialEq for PriceValue {
    /// Amounts compare as `f64` does.
    fn eq(&self, other: &Self) -> (r: bool) {
        same_amount_exec(self.bits, other.bits)
    }
}

impl vstd::std_specs::cmp::PartialEqSpecImpl for PriceValue {
    open spec fn obeys_eq_spec() -> bool {
        true
    }

    open spec fn eq_spec(&self, other: &Self) -> bool {
        same_amount(self.bits, other.bits)
    }
}

/// The price of a product. A price is never negative when made by `Price::new`.
/// Prices compare by their amounts, as `f64` does.
#[derive(Clone, Copy, Debug)]
pub struct Price(pub PriceValue);

impl PartialEq for Price {
    fn eq(&self, other: &Self) -> (r: bool) {
        same_amount_exec(self.0.bits, other.0.bits)
    }
}

impl vstd::std_specs::cmp::PartialEqSpecImpl for Price {
    open spec fn obeys_eq_spec() -> bool {
        true
    }

    open spec fn eq_spec(&self, other: &Self) -> bool {
        same_amount(self.0.bits, other.0.bits)
    }
}

/// The message given for a negative price.
pub open spec fn negative_price_message() -> Seq<char> {
    "Price cannot be negative"@
}

impl Price {
    /// Accepts any amount that is not negative.
    pub fn new(value: PriceValue) -> (r: Result<Price, String>)
        ensures
            value.is_negative() ==> (r matches Err(e) && e@ == negative_price_message()),
            !value.is_negative() ==> (r matches Ok(p) && p == Price(value)),
    {
        if value.range == PriceRange::Negative {
            Err(String::from_str("Price cannot be negative"))
        } else {
            Ok(Price(value))
        }
    }

    /// The amount.
    pub fn value(&self) -> (v: PriceValue)
        ensures
            v == self.0,
    {
        self.0
    }
}

/// An identifier's text reads back as the same identifier.
pub proof fn lemma_id_text_round_trip(id: ProductId, text: Seq<char>, r: Result<ProductId, String>)
    requires
        uuid_parse(text) == parsed_uuid(id.0),
        match r {
            Ok(read) => (uuid_parse(text) matches Ok(w) && w == read.0),
            Err(e) => (uuid_parse(text) matches Err(m) && m == e@),
        },
    ensures
        r == Ok::<ProductId, String>(id),
{
}

/// The hyphenated text of an identifier has 36 characters, hyphens at
/// positions 8, 13, 18 and 23 and lowercase hexadecimal digits elsewhere.
pub proof fn lemma_hyphenated_shape(v: u128)
    ensures
        hyphenated(v).len() == 36,
        forall|i: int|
            0 <= i < 36 && i != 8 && i != 13 && i != 18 && i != 23 ==> {
                let c = #[trigger] hyphenated(v)[i];
                ('0' <= c <= '9') || ('a' <= c <= 'f')
            },
{
    assert forall|i: int|
        0 <= i < 36 && i != 8 && i != 13 && i != 18 && i != 23 implies {
            let c = #[trigger] hyphenated(v)[i];
            ('0' <= c <= '9') || ('a' <= c <= 'f')
        } by {
        let n = nibble(v, digit_at(i));
        assert(0 <= n < 16);
    }
}

} // verus!

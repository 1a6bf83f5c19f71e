//! Order identifiers: a ULID behind a prefix, `O-` for regular orders and
//! `L-` for liquidations.
use vstd::prelude::*;
use crate::text::{chars_of, chars_start_with, is_prefix, concat_str, string_of_chars_from};
use crate::types::auth::byte_len;

verus! {

/// The ULID type of the `ulid` crate.
#[verifier::external_type_specification]
#[verifier::external_body]
pub struct ExUlid(ulid::Ulid);

/// Whether `c` is a character of the canonical ULID alphabet (Crockford's
/// base 32, upper case): digits and the capital letters but `I`, `L`, `O`, `U`.
pub open spec fn is_ulid_alphabet_char(c: char) -> bool {
    ('0' <= c && c <= '9') || ('A' <= c && c <= 'Z' && c != 'I' && c != 'L' && c != 'O' && c != 'U')
}

/// Whether `c` decodes as a base-32 digit of a ULID: a canonical character or
/// the lower-case form of one of its letters.
pub open spec fn is_ulid_char(c: char) -> bool {
    is_ulid_alphabet_char(c) || ('a' <= c && c <= 'z' && c != 'i' && c != 'l' && c != 'o' && c != 'u')
}

/// Whether `s` reads as a ULID: 26 base-32 digits.
pub open spec fn is_ulid_text(s: Seq<char>) -> bool {
    s.len() == 26 && forall|i: int| 0 <= i < s.len() ==> is_ulid_char(#[trigger] s[i])
}

/// Whether `s` is a ULID as the crate prints one: 26 canonical digits.
pub open spec fn is_canonical_ulid_text(s: Seq<char>) -> bool {
    s.len() == 26 && forall|i: int| 0 <= i < s.len() ==> is_ulid_alphabet_char(#[trigger] s[i])
}

/// The ULID that `ulid::Ulid::from_string` decodes from a text it accepts.
pub uninterp spec fn ulid_from_text(s: Seq<char>) -> ulid::Ulid;

/// The text that `ulid::Ulid` prints for a ULID.
pub uninterp spec fn ulid_display(u: ulid::Ulid) -> Seq<char>;

/// Why `ulid::Ulid::from_string` refused a text.
#[derive(Debug, Clone, Copy, PartialEq, Eq, Structural)]
pub enum UlidDecodeError {
    /// The text is not 26 bytes long.
    InvalidLength,
    /// A byte of the text is no base-32 digit.
    InvalidChar,
}

impl UlidDecodeError {
    /// The human-readable text of the error.
    pub fn message(&self) -> (r: &'static str)
        ensures
            r@ == (match self {
                UlidDecodeError::InvalidLength => "invalid length"@,
                UlidDecodeError::InvalidChar => "invalid character"@,
            }),
    {
        match self {
            UlidDecodeError::InvalidLength => "invalid length",
            UlidDecodeError::InvalidChar => "invalid character",
        }
    }
}

/// `ulid::Ulid::from_string`: it accepts exactly the texts of 26 bytes that
/// are all base-32 digits (either case, without `I`, `L`, `O`, `U`); it
/// refuses a text of another byte length as `InvalidLength` and any other as
/// `InvalidChar`. What it decodes is a function of the text.
#[verifier::external_body]
fn ulid_from_string(s: &str) -> (r: Result<ulid::Ulid, UlidDecodeError>)
    ensures
        r is Ok <==> is_ulid_text(s@),
        r matches Ok(u) ==> u == ulid_from_text(s@),
        r matches Err(e) ==> (e == UlidDecodeError::InvalidLength <==> byte_len(s@) != 26),
{
    match ulid::Ulid::from_string(s) {
        Ok(u) => Ok(u),
        Err(ulid::DecodeError::InvalidLength) => Err(UlidDecodeError::InvalidLength),
        Err(ulid::DecodeError::InvalidChar) => Err(UlidDecodeError::InvalidChar),
    }
}

/// `ulid::Ulid::new`: a fresh ULID from the clock and a random source;
/// nothing is known of its value.
#[verifier::external_body]
fn ulid_new() -> (r: ulid::Ulid) {
    ulid::Ulid::new()
}

/// The `Display` text of a `ulid::Ulid`: 26 canonical base-32 digits, which
/// `from_string` decodes back to the same ULID.
#[verifier::external_body]
fn ulid_to_string(u: &ulid::Ulid) -> (r: String)
    ensures
        r@ == ulid_display(*u),
        is_canonical_ulid_text(r@),
        ulid_from_text(r@) == *u,
{
    u.to_string()
}

/// Prefix of a regular order id.
pub open spec fn regular_prefix() -> Seq<char> {
    seq!['O', '-']
}

/// Prefix of a liquidation order id.
pub open spec fn liquidation_prefix() -> Seq<char> {
    seq!['L', '-']
}

/// Whether the id text `s` is that of a liquidation (`L-` prefix).
pub open spec fn is_liquidation_id(s: Seq<char>) -> bool {
    is_prefix(liquidation_prefix(), s)
}

/// Whether `s` carries one of the two order-id prefixes.
pub open spec fn has_order_prefix(s: Seq<char>) -> bool {
    is_prefix(regular_prefix(), s) || is_prefix(liquidation_prefix(), s)
}

/// Why an order id is invalid, or `None` when it is valid.
pub open spec fn order_id_problem(s: Seq<char>) -> Option<OrderIdError> {
    if !has_order_prefix(s) {
        Some(OrderIdError::InvalidFormat)
    } else if !is_ulid_text(s.skip(2)) {
        Some(OrderIdError::InvalidUlid)
    } else {
        None
    }
}

/// Why an order id was refused.
#[derive(Debug, Clone, Copy, PartialEq, Eq, Structural)]
pub enum OrderIdError {
    /// The id starts with neither `O-` nor `L-`.
    InvalidFormat,
    /// What follows the prefix is not a ULID.
    InvalidUlid,
    /// What follows the prefix failed to decode as a ULID, for this reason.
    UlidDecode(UlidDecodeError),
}

impl OrderIdError {
    /// The human-readable text of the error.
    pub fn message(&self) -> (r: String)
        ensures
            r@ == (match self {
                OrderIdError::InvalidFormat => "invalid order ID format"@,
                OrderIdError::InvalidUlid => "invalid ULID in order ID"@,
                OrderIdError::UlidDecode(e) => "invalid ULID: "@ + match e {
                    UlidDecodeError::InvalidLength => "invalid length"@,
                    UlidDecodeError::InvalidChar => "invalid character"@,
                },
            }),
    {
        match self {
            OrderIdError::InvalidFormat => String::from_str("invalid order ID format"),
            OrderIdError::InvalidUlid => String::from_str("invalid ULID in order ID"),
            OrderIdError::UlidDecode(e) => concat_str("invalid ULID: ", e.message()),
        }
    }
}

/// An order id, such as `O-01KA7S36VM6HBEEAE3EN9ZRHEA`.
#[derive(Debug, Clone, PartialEq, Eq, PartialOrd, Ord, Hash)]
pub struct OrderId(String);

impl View for OrderId {
    type V = Seq<char>;

    closed spec fn view(&self) -> Seq<char> {
        self.0@
    }
}

/// Whether the characters of `s` from index 2 on are a ULID, by the crate.
fn rest_is_ulid(s: &str) -> (r: Result<ulid::Ulid, UlidDecodeError>)
    requires
        s@.len() >= 2,
    ensures
        r is Ok <==> is_ulid_text(s@.skip(2)),
        r matches Ok(u) ==> u == ulid_from_text(s@.skip(2)),
        r matches Err(e) ==> (e == UlidDecodeError::InvalidLength <==> byte_len(s@.skip(2)) != 26),
{
    let chars = chars_of(s);
    let rest = string_of_chars_from(chars.as_slice(), 2);
    ulid_from_string(rest.as_str())
}

impl OrderId {
    /// Reads an order id, checking it as `validate` does.
    pub fn new(id: &str) -> (r: Result<OrderId, OrderIdError>)
        ensures
            r is Ok <==> order_id_problem(id@) is None,
            r matches Ok(o) ==> o@ == id@,
            r matches Err(e) ==> order_id_problem(id@) == Some(e),
    {
        let t = Self::new_unchecked(String::from_str(id));
        match t.validate() {
            Ok(()) => Ok(t),
            Err(e) => Err(e),
        }
    }

    /// Wraps a text as an order id without checking it.
    pub fn new_unchecked(id: String) -> (r: OrderId)
        ensures
            r@ == id@,
    {
        OrderId(id)
    }

    /// Checks the id: it must start with `O-` or `L-`, and the rest must be a
    /// ULID.
    pub fn validate(&self) -> (r: Result<(), OrderIdError>)
        ensures
            r is Ok <==> order_id_problem(self@) is None,
            r matches Err(e) ==> order_id_problem(self@) == Some(e),
    {
        if !self.is_regular() && !self.is_liquidation() {
            return Err(OrderIdError::InvalidFormat);
        }
        proof {
            reveal_strlit("O-");
            reveal_strlit("L-");
        }
        match rest_is_ulid(self.0.as_str()) {
            Ok(_) => Ok(()),
            Err(_) => Err(OrderIdError::InvalidUlid),
        }
    }

    /// The id with the given prefix before a fresh ULID.
    fn generate_with(prefix: &str) -> (r: OrderId)
        requires
            prefix@.len() == 2,
        ensures
            r@.take(2) == prefix@,
            r@.len() == 28,
            is_canonical_ulid_text(r@.skip(2)),
    {
        let u = ulid_new();
        let text = ulid_to_string(&u);
        let s = concat_str(prefix, text.as_str());
        assert(s@.take(2) =~= prefix@);
        assert(s@.skip(2) =~= text@);
        OrderId(s)
    }

    /// A fresh regular order id: `O-` and a new ULID.
    pub fn generate_regular() -> (r: OrderId)
        ensures
            r@.take(2) == regular_prefix(),
            r@.len() == 28,
            is_canonical_ulid_text(r@.skip(2)),
    {
        proof {
            reveal_strlit("O-");
        }
        Self::generate_with("O-")
    }

    /// A fresh liquidation order id: `L-` and a new ULID.
    pub fn generate_liquidation() -> (r: OrderId)
        ensures
            r@.take(2) == liquidation_prefix(),
            r@.len() == 28,
            is_canonical_ulid_text(r@.skip(2)),
    {
        proof {
            reveal_strlit("L-");
        }
        Self::generate_with("L-")
    }

    /// A fresh liquidation id when `is_liquidation`, else a regular one.
    pub fn generate(is_liquidation: bool) -> (r: OrderId)
        ensures
            r@.take(2) == (if is_liquidation { liquidation_prefix() } else { regular_prefix() }),
            r@.len() == 28,
            is_canonical_ulid_text(r@.skip(2)),
    {
        if is_liquidation {
            Self::generate_liquidation()
        } else {
            Self::generate_regular()
        }
    }

    /// Whether the id starts with `O-`.
    pub fn is_regular(&self) -> (r: bool)
        ensures
            r == is_prefix(regular_prefix(), self@),
    {
        let chars = chars_of(self.0.as_str());
        let p: Vec<char> = vec!['O', '-'];
        assert(p@ =~= regular_prefix());
        chars_start_with(chars.as_slice(), p.as_slice())
    }

    /// Whether the id starts with `L-`.
    pub fn is_liquidation(&self) -> (r: bool)
        ensures
            r == is_prefix(liquidation_prefix(), self@),
    {
        let chars = chars_of(self.0.as_str());
        let p: Vec<char> = vec!['L', '-'];
        assert(p@ =~= liquidation_prefix());
        chars_start_with(chars.as_slice(), p.as_slice())
    }

    /// The ULID behind the prefix: an error when the prefix is missing or the
    /// rest does not decode.
    pub fn ulid(&self) -> (r: Result<ulid::Ulid, OrderIdError>)
        ensures
            !has_order_prefix(self@) ==> r == Err::<ulid::Ulid, OrderIdError>(OrderIdError::InvalidFormat),
            has_order_prefix(self@) ==> (r is Ok <==> is_ulid_text(self@.skip(2))),
            r matches Ok(u) ==> u == ulid_from_text(self@.skip(2)),
            has_order_prefix(self@) && !is_ulid_text(self@.skip(2)) ==> (r matches Err(OrderIdError::UlidDecode(e))
                && (e == UlidDecodeError::InvalidLength <==> byte_len(self@.skip(2)) != 26)),
    {
        if !self.is_regular() && !self.is_liquidation() {
            return Err(OrderIdError::InvalidFormat);
        }
        match rest_is_ulid(self.0.as_str()) {
            Ok(u) => Ok(u),
            Err(e) => Err(OrderIdError::UlidDecode(e)),
        }
    }

    /// The text of the id.
    pub fn as_str(&self) -> (r: &str)
        ensures
            r@ == self@,
    {
        self.0.as_str()
    }

    /// The text of the id, by value.
    pub fn into_inner(self) -> (r: String)
        ensures
            r@ == self@,
    {
        self.0
    }
}

/// An order id chosen by the client.
#[derive(Debug, Clone, PartialEq, Eq, PartialOrd, Ord, Hash)]
pub struct ClientOrderId(String);

impl View for ClientOrderId {
    type V = Seq<char>;

    closed spec fn view(&self) -> Seq<char> {
        self.0@
    }
}

impl ClientOrderId {
    /// Wraps a text as a client order id.
    pub fn new(id: String) -> (r: ClientOrderId)
        ensures
            r@ == id@,
    {
        ClientOrderId(id)
    }

    /// The text of the id.
    pub fn as_str(&self) -> (r: &str)
        ensures
            r@ == self@,
    {
        self.0.as_str()
    }

    /// A copy of the id.
    pub fn duplicate(&self) -> (r: ClientOrderId)
        ensures
            r@ == self@,
    {
        ClientOrderId(self.0.clone())
    }
}

impl OrderId {
    /// A copy of the id.
    pub fn duplicate(&self) -> (r: OrderId)
        ensures
            r@ == self@,
    {
        OrderId(self.0.clone())
    }
}

/// A generated id is accepted by `OrderId::new`, carries the prefix its kind
/// asks for, and is of that kind alone.
pub proof fn lemma_generated_order_id_valid(s: Seq<char>, is_liquidation: bool)
    requires
        s.take(2) == (if is_liquidation { liquidation_prefix() } else { regular_prefix() }),
        s.len() == 28,
        is_canonical_ulid_text(s.skip(2)),
    ensures
        order_id_problem(s) is None,
        is_prefix(liquidation_prefix(), s) == is_liquidation,
        is_prefix(regular_prefix(), s) == !is_liquidation,
{
    assert forall|i: int| 0 <= i < s.skip(2).len() implies is_ulid_char(#[trigger] s.skip(2)[i]) by {
        assert(is_ulid_alphabet_char(s.skip(2)[i]));
    }
    if is_liquidation {
        assert(s.take(2)[0] == 'L');
        assert(!(s.take(2) =~= regular_prefix()));
    } else {
        assert(s.take(2)[0] == 'O');
        assert(!(s.take(2) =~= liquidation_prefix()));
    }
}

/// A text of the form `O-` or `L-` and 26 canonical digits is a valid id, and
/// a valid id's text is a prefix and a ULID text of 26 bytes.
pub proof fn lemma_valid_order_id_shape(s: Seq<char>)
    requires
        order_id_problem(s) is None,
    ensures
        s.len() == 28,
        byte_len(s.skip(2)) == 26,
{
    let rest = s.skip(2);
    assert(vstd::utf8::is_ascii_chars(rest)) by {
        assert forall|i: int| 0 <= i < rest.len() implies '\0' <= #[trigger] rest[i] <= '\u{7f}' by {
            assert(is_ulid_char(rest[i]));
        }
    }
    vstd::utf8::is_ascii_chars_encode_utf8(rest);
}

} // verus!

//! Record identifiers (UUIDs) and their canonical text form.
use vstd::prelude::*;
use vstd::arithmetic::power::pow;

verus! {

/// Lower-case hexadecimal digit of `n` (0..16).
pub open spec fn hex_lower(n: int) -> char {
    if n < 10 {
        (48 + n) as char
    } else {
        (87 + n) as char
    }
}

/// `c` is a hexadecimal digit, in either case.
pub open spec fn is_hex_digit(c: char) -> bool {
    ('0' <= c && c <= '9') || ('a' <= c && c <= 'f') || ('A' <= c && c <= 'F')
}

/// Value of the hexadecimal digit `c`.
pub open spec fn hex_value(c: char) -> int {
    if '0' <= c && c <= '9' {
        c as int - 48
    } else if 'a' <= c && c <= 'f' {
        c as int - 87
    } else {
        c as int - 55
    }
}

/// The `q`-th of the 32 hexadecimal digits of `id`, most significant first.
pub open spec fn nibble(id: int, q: int) -> int {
    (id / pow(16, (31 - q) as nat)) % 16
}

/// Text positions 8, 13, 18 and 23 of a hyphenated UUID hold hyphens.
pub open spec fn is_hyphen_pos(p: int) -> bool {
    p == 8 || p == 13 || p == 18 || p == 23
}

/// Text position of the `q`-th hexadecimal digit in the hyphenated form.
pub open spec fn digit_pos(q: int) -> int {
    if q < 8 {
        q
    } else if q < 12 {
        q + 1
    } else if q < 16 {
        q + 2
    } else if q < 20 {
        q + 3
    } else {
        q + 4
    }
}

/// Index of the hexadecimal digit at text position `p` of the hyphenated form.
pub open spec fn digit_index(p: int) -> int {
    if p < 8 {
        p
    } else if p < 13 {
        p - 1
    } else if p < 18 {
        p - 2
    } else if p < 23 {
        p - 3
    } else {
        p - 4
    }
}

/// The hyphenated, lower-case text form of a UUID, e.g. `67e55044-10b1-426f-9247-bb680e5fe0c8`.
pub open spec fn uuid_text(id: u128) -> Seq<char> {
    Seq::new(
        36,
        |p: int|
            if is_hyphen_pos(p) {
                '-'
            } else {
                hex_lower(nibble(id as int, digit_index(p)))
            },
    )
}

/// `t` has the shape of a hyphenated UUID.
pub open spec fn is_hyphenated_text(t: Seq<char>) -> bool {
    &&& t.len() == 36
    &&& forall|p: int| 0 <= p < 36 && is_hyphen_pos(p) ==> t[p] == '-'
    &&& forall|q: int| 0 <= q < 32 ==> is_hex_digit(#[trigger] t[digit_pos(q)])
}

/// Value of the first `q` hexadecimal digits of a hyphenated UUID text.
pub open spec fn digits_value(t: Seq<char>, q: nat) -> int
    decreases q,
{
    if q == 0 {
        0
    } else {
        digits_value(t, (q - 1) as nat) * 16 + hex_value(t[digit_pos(q - 1)])
    }
}

/// What uuid's `Uuid::parse_str` makes of a text, as the 128-bit value of the UUID.
pub uninterp spec fn uuid_parse(s: Seq<char>) -> Option<u128>;

/// Text form of the UUID with value `id` (uuid's `Display` for `Uuid`, which writes the
/// hyphenated lower-case form).
#[verifier::external_body]
pub(crate) fn uuid_to_text(id: u128) -> (r: String)
    ensures
        r@ == uuid_text(id),
{
    uuid::Uuid::from_u128(id).to_string()
}

/// Lengths of the texts that the parser can accept: simple (32), hyphenated (36), braced (38)
/// and URN (45) forms.
pub open spec fn uuid_text_length(n: nat) -> bool {
    n == 32 || n == 36 || n == 38 || n == 45
}

/// Parses a UUID (uuid's `Uuid::parse_str`). Its result is named by `uuid_parse`; the contract
/// adds what the parser's source shows of the shapes it reads: a hyphenated text parses to the
/// value of its 32 digits, and a text of any length other than those of the four accepted forms
/// is refused (every accepted form is ASCII, so its length in characters is its length in
/// bytes). What the simple, braced and URN forms parse to is left to the name.
#[verifier::external_body]
pub(crate) fn parse_uuid(s: &str) -> (r: Option<u128>)
    ensures
        r == uuid_parse(s@),
        is_hyphenated_text(s@) ==> r == Some(digits_value(s@, 32) as u128),
        !uuid_text_length(s@.len()) ==> r is None,
{
    uuid::Uuid::parse_str(s).ok().map(|u| u.as_u128())
}

proof fn lemma_pow16_step(e: nat)
    ensures
        pow(16, e + 1) == 16 * pow(16, e),
        pow(16, e) > 0,
{
    reveal(pow);
    vstd::arithmetic::power::lemma_pow_positive(16, e);
}

proof fn lemma_hex_roundtrip(n: int)
    requires
        0 <= n < 16,
    ensures
        is_hex_digit(hex_lower(n)),
        hex_value(hex_lower(n)) == n,
        hex_lower(n) != '-',
{
}

/// The first `q` digits of `uuid_text(id)` are worth `id / 16^(32 - q)`.
proof fn lemma_digits_value_prefix(id: u128, q: nat)
    requires
        q <= 32,
    ensures
        digits_value(uuid_text(id), q) == id as int / pow(16, (32 - q) as nat),
    decreases q,
{
    let t = uuid_text(id);
    if q == 0 {
        reveal_with_fuel(pow, 33);
        assert(pow(16, 32) == 0x1_0000_0000_0000_0000_0000_0000_0000_0000int);
        vstd::arithmetic::div_mod::lemma_basic_div(id as int, pow(16, 32));
    } else {
        lemma_digits_value_prefix(id, (q - 1) as nat);
        let k = (32 - q) as nat;
        let m = pow(16, k);
        lemma_pow16_step(k);
        let x = id as int;
        assert(digit_index(digit_pos(q - 1)) == q - 1);
        assert(!is_hyphen_pos(digit_pos(q - 1)));
        let nb = nibble(x, q - 1);
        assert(nb == (x / m) % 16);
        vstd::arithmetic::div_mod::lemma_mod_bound(x / m, 16);
        lemma_hex_roundtrip(nb);
        assert(t[digit_pos(q - 1)] == hex_lower(nb));
        vstd::arithmetic::div_mod::lemma_div_denominator(x, m, 16);
        vstd::arithmetic::div_mod::lemma_fundamental_div_mod(x / m, 16);
        assert(m * 16 == pow(16, (32 - (q - 1)) as nat));
    }
}

/// The text form of a UUID has the hyphenated shape, and its digits are worth the UUID's value.
pub proof fn lemma_uuid_text_shape(id: u128)
    ensures
        is_hyphenated_text(uuid_text(id)),
        digits_value(uuid_text(id), 32) == id as int,
{
    let t = uuid_text(id);
    assert forall|q: int| 0 <= q < 32 implies is_hex_digit(#[trigger] t[digit_pos(q)]) by {
        assert(digit_index(digit_pos(q)) == q);
        lemma_pow16_step((31 - q) as nat);
        vstd::arithmetic::div_mod::lemma_mod_bound(id as int / pow(16, (31 - q) as nat), 16);
        lemma_hex_roundtrip(nibble(id as int, q));
    }
    lemma_digits_value_prefix(id, 32);
    reveal(pow);
    assert(pow(16, 0) == 1);
}

} // verus!

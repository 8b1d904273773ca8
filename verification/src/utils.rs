//! Identifiers and their wire forms.
//!
//! Every entity is identified by a 128-bit value. The store keys rows by the
//! sixteen big-endian bytes of the value and also keeps its hyphenated text.

use vstd::prelude::*;

verus! {

/// The `i`-th of the sixteen bytes of `id`, most significant first.
pub open spec fn id_byte(id: u128, i: int) -> u8 {
    ((id >> ((8 * (15 - i)) as u128)) & 0xff) as u8
}

/// The sixteen bytes of `id`, most significant first.
pub open spec fn id_bytes(id: u128) -> Seq<u8> {
    Seq::new(16, |i: int| id_byte(id, i))
}

/// The character of one hexadecimal digit, in lower case.
pub open spec fn hex_char(d: nat) -> char
    recommends
        d < 16,
{
    if d < 10 {
        ((48 + d) as u8) as char
    } else {
        ((87 + d) as u8) as char
    }
}

/// The `k`-th of the thirty-two hexadecimal digits of `id`, most significant
/// first.
pub open spec fn id_digit(id: u128, k: int) -> nat {
    ((id >> ((4 * (31 - k)) as u128)) & 0xf) as nat
}

/// How many hyphens precede the place `i` of the text of an identifier.
pub open spec fn hyphens_before(i: int) -> int {
    if i > 23 {
        4
    } else if i > 18 {
        3
    } else if i > 13 {
        2
    } else if i > 8 {
        1
    } else {
        0
    }
}

/// The text of an identifier: its thirty-two hexadecimal digits in lower
/// case, in groups of 8, 4, 4, 4 and 12 with hyphens between them.
pub open spec fn id_text(id: u128) -> Seq<char> {
    Seq::new(
        36,
        |i: int|
            if i == 8 || i == 13 || i == 18 || i == 23 {
                '-'
            } else {
                hex_char(id_digit(id, i - hyphens_before(i)))
            },
    )
}

/// `uuid::Uuid::from_u128` followed by `Uuid::as_bytes`: the value's sixteen
/// bytes in big-endian order.
#[verifier::external_body]
fn uuid_bytes(id: u128) -> (bytes: Vec<u8>)
    ensures
        bytes@ == id_bytes(id),
{
    uuid::Uuid::from_u128(id).as_bytes().to_vec()
}

/// `Uuid`'s `Display`: the hyphenated form in lower case.
#[verifier::external_body]
fn uuid_text(id: u128) -> (text: String)
    ensures
        text@ == id_text(id),
{
    uuid::Uuid::from_u128(id).to_string()
}

/// The identifier that the text `s` stands for, as `uuid` reads it; `None`
/// where it stands for none.
pub uninterp spec fn spec_parse_id(s: Seq<char>) -> Option<u128>;

/// `Uuid::parse_str`: whether a text stands for an identifier, and for
/// which, depends on the text alone; and the text that `uuid` prints for an
/// identifier stands for that identifier.
#[verifier::external_body]
fn uuid_parse(s: &str) -> (id: Option<u128>)
    ensures
        id == spec_parse_id(s@),
        forall|u: u128| s@ == #[trigger] id_text(u) ==> id == Some(u),
{
    uuid::Uuid::parse_str(s).ok().map(|u| u.as_u128())
}

/// The identifier that the text `s` stands for. The text of an identifier
/// stands for that identifier.
pub fn parse_id(s: &str) -> (id: Option<u128>)
    ensures
        id == spec_parse_id(s@),
        forall|u: u128| s@ == #[trigger] id_text(u) ==> id == Some(u),
{
    uuid_parse(s)
}

/// Whether an identifier says of itself that it was drawn at random: its
/// version is 4 and its variant is the one of RFC 4122.
pub open spec fn is_random_id(id: u128) -> bool {
    (id >> 76) & 0xf == 4 && (id >> 62) & 0x3 == 2
}

/// `Uuid::new_v4`: a random identifier, marked as such.
#[verifier::external_body]
fn uuid_new_v4() -> (id: u128)
    ensures
        is_random_id(id),
{
    uuid::Uuid::new_v4().as_u128()
}

/// A fresh random identifier.
pub fn new_id() -> (id: u128)
    ensures
        is_random_id(id),
{
    uuid_new_v4()
}

/// The bytes under which the store keys the entity `id`.
pub fn u2b(id: u128) -> (bytes: Vec<u8>)
    ensures
        bytes@ == id_bytes(id),
        bytes@.len() == 16,
{
    uuid_bytes(id)
}

/// The text form of `id` that the store keeps beside the bytes.
pub fn u2s(id: u128) -> (text: String)
    ensures
        text@ == id_text(id),
{
    uuid_text(id)
}

/// A path with another adjoined, as `std::path::Path::join` builds it on the
/// platform that the library is compiled for.
pub uninterp spec fn path_join(base: Seq<char>, child: Seq<char>) -> Seq<char>;

/// `Path::join`: the result depends on the two paths alone.
#[verifier::external_body]
pub(crate) fn join_path(base: &str, child: &str) -> (path: String)
    ensures
        path@ == path_join(base@, child@),
{
    std::path::Path::new(base).join(child).to_string_lossy().into_owned()
}

/// The directory of the space `space_id` below the directory `spaces_dir`.
pub open spec fn spec_space_path(spaces_dir: Seq<char>, space_id: u128) -> Seq<char> {
    path_join(spaces_dir, id_text(space_id))
}

/// The directory of the vector index of the space `space_id`.
pub open spec fn spec_vector_db_path(spaces_dir: Seq<char>, space_id: u128) -> Seq<char> {
    path_join(spec_space_path(spaces_dir, space_id), "vector_db"@)
}

/// The directory of the space `space_id` below the directory `spaces_dir`.
pub fn space_path(spaces_dir: &str, space_id: u128) -> (path: String)
    ensures
        path@ == spec_space_path(spaces_dir@, space_id),
{
    let id = u2s(space_id);
    join_path(spaces_dir, id.as_str())
}

/// The directory of the vector index of the space `space_id`.
pub fn vector_db_path(spaces_dir: &str, space_id: u128) -> (path: String)
    ensures
        path@ == spec_vector_db_path(spaces_dir@, space_id),
{
    let space = space_path(spaces_dir, space_id);
    join_path(space.as_str(), "vector_db")
}

/// The character of one decimal digit.
pub open spec fn digit_char(d: nat) -> char
    recommends
        d < 10,
{
    ((48 + d) as u8) as char
}

/// The decimal text of `n`, without sign or leading zeros.
pub open spec fn decimal_text(n: nat) -> Seq<char>
    decreases n,
{
    if n < 10 {
        seq![digit_char(n)]
    } else {
        decimal_text(n / 10).push(digit_char(n % 10))
    }
}

/// The text of one decimal digit.
fn digit_text(d: u64) -> (text: &'static str)
    requires
        d < 10,
    ensures
        text@ == seq![digit_char(d as nat)],
{
    proof {
        reveal_strlit("0");
        reveal_strlit("1");
        reveal_strlit("2");
        reveal_strlit("3");
        reveal_strlit("4");
        reveal_strlit("5");
        reveal_strlit("6");
        reveal_strlit("7");
        reveal_strlit("8");
        reveal_strlit("9");
    }
    let text = if d == 0 {
        "0"
    } else if d == 1 {
        "1"
    } else if d == 2 {
        "2"
    } else if d == 3 {
        "3"
    } else if d == 4 {
        "4"
    } else if d == 5 {
        "5"
    } else if d == 6 {
        "6"
    } else if d == 7 {
        "7"
    } else if d == 8 {
        "8"
    } else {
        "9"
    };
    assert(text@ =~= seq![digit_char(d as nat)]);
    text
}

/// The decimal text of `n`, without sign or leading zeros.
pub fn u64_text(n: u64) -> (text: String)
    ensures
        text@ == decimal_text(n as nat),
    decreases n,
{
    if n < 10 {
        digit_text(n).to_owned()
    } else {
        let mut text = u64_text(n / 10);
        text.append(digit_text(n % 10));
        assert(text@ =~= decimal_text(n as nat));
        text
    }
}

} // verus!

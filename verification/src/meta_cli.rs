//! What the meta module's `get-consensus` command shows for a consensus
//! entry: nothing when there is none, else its revision and its value,
//! either as the raw bytes in hex or parsed as JSON.
use crate::meta_db::MetaConsensusValue;
use vstd::prelude::*;

verus! {

#[verifier::external_type_specification]
#[verifier::external_body]
pub struct ExJsonValue(serde_json::Value);

#[verifier::external_type_specification]
#[verifier::external_body]
pub struct ExJsonError(serde_json::Error);

/// Whether `serde_json` reads `bytes` as one JSON value: they are one
/// complete JSON text (surrounding whitespace allowed) whose arrays and
/// objects nest no deeper than the parser's recursion limit of 128.
pub uninterp spec fn json_parses(bytes: Seq<u8>) -> bool;

/// The JSON value that `serde_json` reads from `bytes`, when they parse.
pub uninterp spec fn json_value_of(bytes: Seq<u8>) -> serde_json::Value;

/// The error that `serde_json` reports for `bytes`, when they do not parse.
pub uninterp spec fn json_error_of(bytes: Seq<u8>) -> serde_json::Error;

/// Parses `bytes` as a JSON value.
///
/// Calls `serde_json::from_slice::<serde_json::Value>`. The contract claims
/// that the parse succeeds exactly when `json_parses` holds of the bytes,
/// that the value it yields is `json_value_of` the bytes, and that the error
/// it reports otherwise is `json_error_of` the bytes: all three depend on the
/// bytes alone (the parser's recursion limit and map order are fixed, and a
/// byte slice gives no I/O errors). What the value or error holds is left
/// unsaid.
#[verifier::external_body]
fn parse_json_value(bytes: &[u8]) -> (r: Result<serde_json::Value, serde_json::Error>)
    ensures
        r is Ok <==> json_parses(bytes@),
        r matches Ok(v) ==> v == json_value_of(bytes@),
        r matches Err(e) ==> e == json_error_of(bytes@),
{
    serde_json::from_slice::<serde_json::Value>(bytes)
}

/// Why the command failed.
#[derive(Debug)]
pub enum MetaCliError {
    /// The consensus value is not JSON text; the parser's error.
    ValueNotJson(serde_json::Error),
}

impl MetaCliError {
    /// The context under which the failure is reported.
    pub fn message(&self) -> (r: &'static str)
        ensures
            r@ == "deserializating consensus value as json"@,
    {
        "deserializating consensus value as json"
    }
}

/// How the command shows the value of an entry.
#[derive(Debug)]
pub enum ShownValue {
    /// The raw bytes, in lower-case hex.
    Hex(String),
    /// The bytes parsed as JSON.
    Json(serde_json::Value),
}

/// What the command shows.
#[derive(Debug)]
pub enum ShownConsensus {
    /// There is no consensus entry (shown as JSON `null`).
    Null,
    /// An entry, shown as a JSON object with `revision` and `value`.
    Entry { revision: u64, value: ShownValue },
}

/// The lower-case hex digit of `n`.
pub open spec fn hex_digit(n: int) -> char {
    if n < 10 {
        (('0' as int) + n) as char
    } else {
        (('a' as int) + n - 10) as char
    }
}

/// The lower-case hex text of `bytes`, two digits per byte, high nibble
/// first.
pub open spec fn hex_lower(bytes: Seq<u8>) -> Seq<char> {
    Seq::new(
        (2 * bytes.len()) as nat,
        |i: int|
            if i % 2 == 0 {
                hex_digit((bytes[i / 2] / 16) as int)
            } else {
                hex_digit((bytes[i / 2] % 16) as int)
            },
    )
}

/// The one-character text of the hex digit `n`.
fn hex_digit_str(n: u8) -> (r: &'static str)
    requires
        n < 16,
    ensures
        r@ == seq![hex_digit(n as int)],
{
    let r = match n {
        0 => "0",
        1 => "1",
        2 => "2",
        3 => "3",
        4 => "4",
        5 => "5",
        6 => "6",
        7 => "7",
        8 => "8",
        9 => "9",
        10 => "a",
        11 => "b",
        12 => "c",
        13 => "d",
        14 => "e",
        _ => "f",
    };
    proof {
        reveal_strlit("0");
        reveal_strlit("1");
        reveal_strlit("2");
        reveal_strlit("3");
        reveal_strlit("4");
        reveal_strlit("5");
        reveal_strlit("6");
        reveal_strlit("7");
        reveal_strlit("8");
        reveal_strlit("9");
        reveal_strlit("a");
        reveal_strlit("b");
        reveal_strlit("c");
        reveal_strlit("d");
        reveal_strlit("e");
        reveal_strlit("f");
        assert(r@ =~= seq![hex_digit(n as int)]);
    }
    r
}

/// Encodes `bytes` as lower-case hex text.
pub fn to_hex_lower(bytes: &[u8]) -> (r: String)
    ensures
        r@ == hex_lower(bytes@),
{
    let mut r = String::new();
    let n = bytes.len();
    let mut i: usize = 0;
    while i < n
        invariant
            n == bytes@.len(),
            0 <= i <= n,
            r@.len() == 2 * i,
            forall|j: int| 0 <= j < 2 * i ==> #[trigger] r@[j] == hex_lower(bytes@)[j],
        decreases n - i,
    {
        let b = bytes[i];
        let ghost before = r@;
        r.append(hex_digit_str(b / 16));
        r.append(hex_digit_str(b % 16));
        proof {
            assert forall|j: int| 0 <= j < 2 * (i + 1) implies #[trigger] r@[j] == hex_lower(
                bytes@,
            )[j] by {
                if j >= 2 * i {
                    assert(j / 2 == i as int);
                }
            }
        }
        i = i + 1;
    }
    assert(r@ =~= hex_lower(bytes@));
    r
}

/// What `get-consensus` shows for `entry`: `Null` when there is no entry;
/// else its revision together with the value's bytes in hex when `raw` is
/// set, or the JSON value parsed from the bytes when it is not, which fails
/// (with the parser's error) when the bytes are not JSON text.
pub fn show_consensus_value(entry: Option<MetaConsensusValue>, raw: bool) -> (r: Result<
    ShownConsensus,
    MetaCliError,
>)
    ensures
        entry is None ==> r matches Ok(ShownConsensus::Null),
        entry matches Some(e) ==> match r {
            Ok(ShownConsensus::Entry { revision, value }) => revision == e.revision && if raw {
                value matches ShownValue::Hex(s) && s@ == hex_lower(e.value.0@)
            } else {
                value matches ShownValue::Json(j) && json_parses(e.value.0@) && j == json_value_of(
                    e.value.0@,
                )
            },
            Ok(ShownConsensus::Null) => false,
            Err(err) => !raw && !json_parses(e.value.0@) && err == MetaCliError::ValueNotJson(
                json_error_of(e.value.0@),
            ),
        },
{
    match entry {
        None => Ok(ShownConsensus::Null),
        Some(e) => {
            let value = if raw {
                ShownValue::Hex(to_hex_lower(e.value.0.as_slice()))
            } else {
                match parse_json_value(e.value.0.as_slice()) {
                    Ok(v) => ShownValue::Json(v),
                    Err(err) => {
                        return Err(MetaCliError::ValueNotJson(err));
                    },
                }
            };
            Ok(ShownConsensus::Entry { revision: e.revision, value })
        },
    }
}

/// The hex digit of a number below 16 is its character in
/// `"0123456789abcdef"`.
proof fn lemma_hex_digit_is_table_entry(n: int)
    requires
        0 <= n < 16,
    ensures
        hex_digit(n) == "0123456789abcdef"@[n],
{
    reveal_strlit("0123456789abcdef");
    assert(n == 0 || n == 1 || n == 2 || n == 3 || n == 4 || n == 5 || n == 6 || n == 7 || n == 8
        || n == 9 || n == 10 || n == 11 || n == 12 || n == 13 || n == 14 || n == 15);
}

/// The hex text of a byte string has two characters per byte: the byte's
/// high nibble and then its low nibble, each written as its character in
/// `"0123456789abcdef"`.
pub proof fn law_hex_is_nibbles_in_digit_order(bytes: Seq<u8>)
    ensures
        hex_lower(bytes).len() == 2 * bytes.len(),
        forall|k: int|
            0 <= k < bytes.len() ==> #[trigger] hex_lower(bytes)[2 * k] == "0123456789abcdef"@[(
            bytes[k] / 16) as int] && hex_lower(bytes)[2 * k + 1] == "0123456789abcdef"@[(bytes[k]
                % 16) as int],
{
    assert forall|k: int| 0 <= k < bytes.len() implies #[trigger] hex_lower(bytes)[2 * k]
        == "0123456789abcdef"@[(bytes[k] / 16) as int] && hex_lower(bytes)[2 * k + 1]
        == "0123456789abcdef"@[(bytes[k] % 16) as int] by {
        assert((2 * k) / 2 == k && (2 * k) % 2 == 0);
        assert((2 * k + 1) / 2 == k && (2 * k + 1) % 2 == 1);
        lemma_hex_digit_is_table_entry((bytes[k] / 16) as int);
        lemma_hex_digit_is_table_entry((bytes[k] % 16) as int);
    }
}

} // verus!

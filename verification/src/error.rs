use vstd::prelude::*;
use vstd::string::StringSliceAdditionalSpecFns;
use crate::text::{
    ascii_lowercase, chars_of, contains, contains_chars, decimal, push_i32, push_str,
    push_u64, signed_decimal, to_ascii_lowercase,
};

verus! {

/// The version of the KoutenDB core C ABI that this driver speaks.
pub const KOUTEN_ABI_VERSION: i32 = 2;

/// What went wrong.
#[derive(Debug, Clone, Copy, PartialEq, Eq, Structural)]
pub enum ErrorKind {
    Abi,
    AbiVersionMismatch,
    InvalidId,
    NotFound,
    NulByte,
    Utf8,
}

/// An error of the driver: a kind and a human-readable message.
#[derive(Debug, Clone, PartialEq, Eq)]
pub struct Error {
    kind: ErrorKind,
    message: String,
}

/// What an `Error` holds, as a mathematical value.
pub struct ErrorView {
    pub kind: ErrorKind,
    pub message: Seq<char>,
}

impl View for Error {
    type V = ErrorView;

    closed spec fn view(&self) -> ErrorView {
        ErrorView { kind: self.kind, message: self.message@ }
    }
}

/// The message of an error that the C ABI reports without a text.
pub open spec fn default_abi_message() -> Seq<char> {
    "KoutenDB C ABI error"@
}

/// How an ABI error message is classified: `NotFound` when, ignoring ASCII
/// case, it says "not found" or "key not found"; `Abi` otherwise.
pub open spec fn classify_spec(message: Seq<char>) -> ErrorKind {
    let lower = ascii_lowercase(message);
    if contains_chars(lower, "not found"@) || contains_chars(lower, "key not found"@) {
        ErrorKind::NotFound
    } else {
        ErrorKind::Abi
    }
}

/// A message says, in exactly these letters, that what was asked for is
/// missing: it holds "not found" or "key not found".
pub open spec fn reports_missing(message: Seq<char>) -> bool {
    contains_chars(message, "not found"@) || contains_chars(message, "key not found"@)
}

/// The message of a refused ABI version.
pub open spec fn version_mismatch_message(got: i32) -> Seq<char> {
    "KoutenDB ABI version mismatch: expected "@ + signed_decimal(KOUTEN_ABI_VERSION as int)
        + ", got "@ + signed_decimal(got as int)
}

/// `bytes` holds no zero byte.
pub open spec fn nul_free(bytes: Seq<u8>) -> bool {
    forall|j: int| 0 <= j < bytes.len() ==> bytes[j] != 0
}

/// `p` is the index of the first zero byte of `bytes`.
pub open spec fn is_first_nul(bytes: Seq<u8>, p: int) -> bool {
    &&& 0 <= p < bytes.len()
    &&& bytes[p] == 0
    &&& forall|j: int| 0 <= j < p ==> bytes[j] != 0
}

/// The index of the first zero byte of `bytes` (meaningful when there is one).
pub open spec fn first_nul(bytes: Seq<u8>) -> int {
    choose|p: int| is_first_nul(bytes, p)
}

/// The message of a text that cannot become a C string.
pub open spec fn nul_message(position: int) -> Seq<char> {
    "nul byte found in provided data at position: "@ + decimal(position as nat)
}

impl Error {
    /// An error of the given kind and message.
    pub fn new(kind: ErrorKind, message: String) -> (e: Error)
        ensures
            e@.kind == kind,
            e@.message == message@,
    {
        Error { kind, message }
    }

    /// The kind of this error.
    pub fn kind(&self) -> (k: ErrorKind)
        ensures
            k == self@.kind,
    {
        self.kind
    }

    /// The message of this error.
    pub fn message(&self) -> (m: &str)
        ensures
            m@ == self@.message,
    {
        self.message.as_str()
    }

    /// The text of this error as it is shown to a user: its message.
    pub fn to_string(&self) -> (s: String)
        ensures
            s@ == self@.message,
    {
        self.message.clone()
    }

    /// The error that the C ABI reports, from the text of its last error
    /// (`None` when it gave none): an `Abi` error with a fixed message when
    /// there is no text or the text is empty, and otherwise the text,
    /// classified by `classify_abi_error`.
    pub fn from_last_message(message: Option<&str>) -> (e: Error)
        ensures
            match message {
                None => e@.kind == ErrorKind::Abi && e@.message == default_abi_message(),
                Some(m) => if m@.len() == 0 {
                    e@.kind == ErrorKind::Abi && e@.message == default_abi_message()
                } else {
                    e@.kind == classify_spec(m@) && e@.message == m@
                },
            },
    {
        match message {
            None => Error::new(ErrorKind::Abi, "KoutenDB C ABI error".to_owned()),
            Some(m) => {
                if m.is_empty() {
                    Error::new(ErrorKind::Abi, "KoutenDB C ABI error".to_owned())
                } else {
                    let kind = classify_abi_error(m);
                    Error::new(kind, m.to_owned())
                }
            },
        }
    }

    /// Whether this error's message says that what was asked for is missing.
    pub fn reports_missing(&self) -> (r: bool)
        ensures
            r == reports_missing(self@.message),
    {
        let m = chars_of(self.message.as_str());
        let a = chars_of("not found");
        let b = chars_of("key not found");
        contains(m.as_slice(), a.as_slice()) || contains(m.as_slice(), b.as_slice())
    }
}

/// Classifies an error message of the C ABI: `NotFound` when, ignoring
/// ASCII case, it mentions "not found" or "key not found", else `Abi`.
pub fn classify_abi_error(message: &str) -> (k: ErrorKind)
    ensures
        k == classify_spec(message@),
{
    let chars = chars_of(message);
    let lower = to_ascii_lowercase(chars.as_slice());
    let a = chars_of("not found");
    let b = chars_of("key not found");
    if contains(lower.as_slice(), a.as_slice()) || contains(lower.as_slice(), b.as_slice()) {
        ErrorKind::NotFound
    } else {
        ErrorKind::Abi
    }
}

/// A lookup that failed: no value when the error says that the key is
/// missing, and the error itself otherwise.
pub fn missing_as_none<T>(err: Error) -> (r: Result<Option<T>, Error>)
    ensures
        reports_missing(err@.message) ==> (r matches Ok(v) && v is None),
        !reports_missing(err@.message) ==> (r matches Err(e) && e@ == err@),
{
    if err.reports_missing() {
        Ok(None)
    } else {
        Err(err)
    }
}

/// Accepts the ABI version that the core reports when it is the one this
/// driver speaks, and refuses any other.
pub fn check_abi_version(version: i32) -> (r: Result<(), Error>)
    ensures
        version == KOUTEN_ABI_VERSION ==> r is Ok,
        version != KOUTEN_ABI_VERSION ==> (r matches Err(e) && e@.kind
            == ErrorKind::AbiVersionMismatch && e@.message == version_mismatch_message(version)),
{
    if version == KOUTEN_ABI_VERSION {
        Ok(())
    } else {
        let mut m = String::new();
        push_str(&mut m, "KoutenDB ABI version mismatch: expected ");
        push_i32(&mut m, KOUTEN_ABI_VERSION);
        push_str(&mut m, ", got ");
        push_i32(&mut m, version);
        Err(Error::new(ErrorKind::AbiVersionMismatch, m))
    }
}

/// Accepts a text that can be handed to C as a NUL-terminated string,
/// that is one whose UTF-8 bytes hold no zero byte; for any other, a
/// `NulByte` error that gives the position of the first zero byte.
pub fn check_c_string(value: &str) -> (r: Result<(), Error>)
    ensures
        r is Ok <==> nul_free(value.spec_bytes()),
        r matches Err(e) ==> e@.kind == ErrorKind::NulByte && e@.message == nul_message(
            first_nul(value.spec_bytes()),
        ),
{
    let bytes = value.as_bytes();
    match crate::text::first_zero(bytes) {
        None => Ok(()),
        Some(p) => {
            assert(is_first_nul(bytes@, p as int));
            proof {
                let q = first_nul(bytes@);
                if q < p {
                    assert(bytes@[q] != 0);
                } else if p < q {
                    assert(bytes@[p as int] != 0);
                }
            }
            let mut m = String::new();
            push_str(&mut m, "nul byte found in provided data at position: ");
            push_u64(&mut m, p as u64);
            Err(Error::new(ErrorKind::NulByte, m))
        },
    }
}

/// A text that holds "key not found" holds "not found".
proof fn lemma_key_not_found(h: Seq<char>)
    ensures
        contains_chars(h, "key not found"@) ==> contains_chars(h, "not found"@),
{
    reveal_strlit("not found");
    reveal_strlit("key not found");
    if contains_chars(h, "key not found"@) {
        let i = choose|i: int| crate::text::occurs_at(h, "key not found"@, i);
        assert(h.subrange(i + 4, i + 13) =~= "not found"@) by {
            assert forall|k: int| 0 <= k < 9 implies h.subrange(i + 4, i + 13)[k]
                == "not found"@[k] by {
                assert(h.subrange(i, i + 13)[k + 4] == "key not found"@[k + 4]);
            }
        }
        assert(crate::text::occurs_at(h, "not found"@, i + 4));
    }
}

/// Classification does not depend on the longer phrase: an ABI message is
/// classified `NotFound` exactly when its ASCII-lowercased text holds
/// "not found".
pub proof fn classify_not_found_iff(message: Seq<char>)
    ensures
        (classify_spec(message) == ErrorKind::NotFound) <==> contains_chars(
            ascii_lowercase(message),
            "not found"@,
        ),
{
    lemma_key_not_found(ascii_lowercase(message));
}

/// `c` is the character `x`, or `x` is a small ASCII letter and `c` is the
/// same letter in capital.
pub open spec fn same_letter_any_case(c: char, x: char) -> bool {
    c == x || ('A' <= c && c <= 'Z' && (c as u32) + 32 == (x as u32))
}

/// The nine characters of `message` from index `i` spell "not found", with
/// ASCII letters in either case.
pub open spec fn spells_not_found_at(message: Seq<char>, i: int) -> bool {
    &&& 0 <= i
    &&& i + 9 <= message.len()
    &&& forall|k: int| 0 <= k < 9 ==> same_letter_any_case(#[trigger] message[i + k], "not found"@[k])
}

proof fn lemma_any_case_window(message: Seq<char>, i: int)
    requires
        0 <= i && i + 9 <= message.len(),
    ensures
        crate::text::occurs_at(ascii_lowercase(message), "not found"@, i) <==> spells_not_found_at(
            message,
            i,
        ),
{
    reveal_strlit("not found");
    let nf = "not found"@;
    let lower = ascii_lowercase(message);
    assert forall|k: int| 0 <= k < 9 implies (lower.subrange(i, i + 9)[k] == nf[k]
        <==> same_letter_any_case(#[trigger] message[i + k], nf[k])) by {
        assert(lower.subrange(i, i + 9)[k] == lower[i + k]);
        assert(lower[i + k] == crate::text::ascii_lower(message[i + k]));
    }
    if spells_not_found_at(message, i) {
        assert forall|k: int| 0 <= k < 9 implies lower.subrange(i, i + 9)[k] == nf[k] by {
            assert(same_letter_any_case(message[i + k], nf[k]));
        }
        assert(lower.subrange(i, i + 9) =~= nf);
    }
    if crate::text::occurs_at(lower, nf, i) {
        assert forall|k: int| 0 <= k < 9 implies same_letter_any_case(
            #[trigger] message[i + k],
            nf[k],
        ) by {
            assert(lower.subrange(i, i + 9)[k] == nf[k]);
        }
    }
}

/// An ABI error message is classified as one of two kinds only: `NotFound`
/// exactly when some nine consecutive characters of it spell "not found"
/// with ASCII letters in either case, and `Abi` for every other message.
pub proof fn classify_law(message: Seq<char>)
    ensures
        classify_spec(message) == ErrorKind::NotFound || classify_spec(message) == ErrorKind::Abi,
        (classify_spec(message) == ErrorKind::NotFound) <==> exists|i: int|
            spells_not_found_at(message, i),
{
    reveal_strlit("not found");
    let lower = ascii_lowercase(message);
    classify_not_found_iff(message);
    if contains_chars(lower, "not found"@) {
        let i = choose|i: int| crate::text::occurs_at(lower, "not found"@, i);
        lemma_any_case_window(message, i);
    }
    assert forall|i: int| spells_not_found_at(message, i) implies contains_chars(
        lower,
        "not found"@,
    ) by {
        lemma_any_case_window(message, i);
    }
}

/// A failed lookup reads as a missing key (`missing_as_none` gives no
/// value) exactly when the error's message holds the nine characters
/// "not found", in exactly these letters; every other error is handed back.
pub proof fn missing_key_law(message: Seq<char>)
    ensures
        reports_missing(message) <==> exists|i: int|
            0 <= i && i + 9 <= message.len() && #[trigger] message.subrange(i, i + 9)
                == "not found"@,
{
    lemma_key_not_found(message);
    reveal_strlit("not found");
    if exists|i: int|
        0 <= i && i + 9 <= message.len() && #[trigger] message.subrange(i, i + 9) == "not found"@ {
        let i = choose|i: int|
            0 <= i && i + 9 <= message.len() && #[trigger] message.subrange(i, i + 9)
                == "not found"@;
        assert(crate::text::occurs_at(message, "not found"@, i));
    }
}

} // verus!

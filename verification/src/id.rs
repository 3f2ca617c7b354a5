use vstd::prelude::*;
use vstd::std_specs::cmp::PartialEqSpec;
use crate::error::{Error, ErrorKind, ErrorView};
use crate::text::{
    chars_of, decimal, is_digit, parse_unsigned, parse_unsigned_spec, push_str, push_u64,
    IntErrorKind,
};

verus! {

/// The id of a stored value: the parent it was written under, the epoch
/// and sequence number of the write, and the write time.
///
/// The write time is a 64-bit IEEE float; the library keeps its bit
/// pattern (`f64::to_bits`) and compares it as the float it stands for.
#[derive(Debug, Clone, Copy)]
pub struct KoutenId {
    pub parent: u64,
    pub epoch: u32,
    pub seq: u32,
    pub t_write_bits: u64,
}

/// The float with these bits is a NaN: all exponent bits set and a
/// non-zero fraction.
pub open spec fn float_is_nan(bits: u64) -> bool {
    &&& bits & 0x7ff0_0000_0000_0000u64 == 0x7ff0_0000_0000_0000u64
    &&& bits & 0x000f_ffff_ffff_ffffu64 != 0
}

/// The float with these bits is `0.0` or `-0.0`.
pub open spec fn float_is_zero(bits: u64) -> bool {
    bits & 0x7fff_ffff_ffff_ffffu64 == 0
}

/// The floats with these bits compare equal with `==`: neither is a NaN,
/// and they have the same bits or are both zeros.
pub open spec fn float_bits_eq(a: u64, b: u64) -> bool {
    &&& !float_is_nan(a)
    &&& !float_is_nan(b)
    &&& (a == b || (float_is_zero(a) && float_is_zero(b)))
}

/// Two ids are equal: equal integer fields and equal write times.
pub open spec fn id_eq(a: KoutenId, b: KoutenId) -> bool {
    &&& a.parent == b.parent
    &&& a.epoch == b.epoch
    &&& a.seq == b.seq
    &&& float_bits_eq(a.t_write_bits, b.t_write_bits)
}

/// Whether the floats with these bits compare equal with `==`.
pub fn float_bits_equal(a: u64, b: u64) -> (r: bool)
    ensures
        r == float_bits_eq(a, b),
{
    let a_nan = a & 0x7ff0_0000_0000_0000u64 == 0x7ff0_0000_0000_0000u64 && a
        & 0x000f_ffff_ffff_ffffu64 != 0;
    let b_nan = b & 0x7ff0_0000_0000_0000u64 == 0x7ff0_0000_0000_0000u64 && b
        & 0x000f_ffff_ffff_ffffu64 != 0;
    !a_nan && !b_nan && (a == b || (a & 0x7fff_ffff_ffff_ffffu64 == 0 && b
        & 0x7fff_ffff_ffff_ffffu64 == 0))
}

impl PartialEq for KoutenId {
    fn eq(&self, other: &KoutenId) -> (r: bool) {
        self.parent == other.parent && self.epoch == other.epoch && self.seq == other.seq
            && float_bits_equal(self.t_write_bits, other.t_write_bits)
    }
}

impl vstd::std_specs::cmp::PartialEqSpecImpl for KoutenId {
    open spec fn obeys_eq_spec() -> bool {
        true
    }

    open spec fn eq_spec(&self, other: &KoutenId) -> bool {
        id_eq(*self, *other)
    }
}

/// The id with every field zero.
pub fn empty_id() -> (id: KoutenId)
    ensures
        id.parent == 0 && id.epoch == 0 && id.seq == 0 && id.t_write_bits == 0,
{
    KoutenId { parent: 0, epoch: 0, seq: 0, t_write_bits: 0 }
}

impl KoutenId {
    /// An id from its fields; the write time is given by its bits.
    pub fn new(parent: u64, epoch: u32, seq: u32, t_write_bits: u64) -> (id: KoutenId)
        ensures
            id.parent == parent,
            id.epoch == epoch,
            id.seq == seq,
            id.t_write_bits == t_write_bits,
    {
        KoutenId { parent, epoch, seq, t_write_bits }
    }

    /// The id is empty: all integer fields are zero and the write time is
    /// zero (of either sign).
    pub fn is_empty(&self) -> (r: bool)
        ensures
            r == (self.parent == 0 && self.epoch == 0 && self.seq == 0 && float_is_zero(
                self.t_write_bits,
            )),
    {
        self.parent == 0 && self.epoch == 0 && self.seq == 0 && self.t_write_bits
            & 0x7fff_ffff_ffff_ffffu64 == 0
    }

    /// The text of this id, `parent:epoch:seq:t_write`, where the text of
    /// the write time is given.
    pub fn format_with(&self, t_write: &str) -> (s: String)
        ensures
            s@ == id_text(self.parent, self.epoch, self.seq, t_write@),
    {
        let mut s = String::new();
        push_u64(&mut s, self.parent);
        push_str(&mut s, ":");
        push_u64(&mut s, self.epoch as u64);
        push_str(&mut s, ":");
        push_u64(&mut s, self.seq as u64);
        push_str(&mut s, ":");
        push_str(&mut s, t_write);
        proof {
            reveal_strlit(":");
        }
        s
    }
}

/// The text of an id: its three integer fields in decimal and the text of
/// its write time, separated by colons.
pub open spec fn id_text(parent: u64, epoch: u32, seq: u32, t_write: Seq<char>) -> Seq<char> {
    decimal(parent as nat) + seq![':'] + decimal(epoch as nat) + seq![':'] + decimal(
        seq as nat,
    ) + seq![':'] + t_write
}

// ---------------------------------------------------------------------
// Reading an id

/// The fields of a text split at every `:`, as `str::split(':')` gives
/// them; there is always at least one.
pub open spec fn split_colon(s: Seq<char>) -> Seq<Seq<char>>
    decreases s.len(),
{
    if s.len() == 0 {
        seq![Seq::<char>::empty()]
    } else {
        let rest = split_colon(s.drop_last());
        if s.last() == ':' {
            rest.push(Seq::<char>::empty())
        } else {
            rest.update(rest.len() - 1, rest.last().push(s.last()))
        }
    }
}

/// What the integer parsers of the standard library say of each failure.
pub open spec fn int_error_text(kind: IntErrorKind) -> Seq<char> {
    match kind {
        IntErrorKind::Empty => "cannot parse integer from empty string"@,
        IntErrorKind::InvalidDigit => "invalid digit found in string"@,
        IntErrorKind::PosOverflow => "number too large to fit in target type"@,
    }
}

/// The error of a field that is absent from an id.
pub open spec fn missing_field(name: Seq<char>) -> ErrorView {
    ErrorView { kind: ErrorKind::InvalidId, message: "invalid KoutenDB id: missing "@ + name }
}

/// The error of a field of an id that does not read as its type.
pub open spec fn invalid_field(name: Seq<char>, reason: Seq<char>) -> ErrorView {
    ErrorView {
        kind: ErrorKind::InvalidId,
        message: "invalid KoutenDB id field '"@ + name + "': "@ + reason,
    }
}

/// The error of an id with more than four fields.
pub open spec fn too_many_fields(value: Seq<char>) -> ErrorView {
    ErrorView {
        kind: ErrorKind::InvalidId,
        message: "invalid KoutenDB id '"@ + value + "': too many fields"@,
    }
}

/// Reads field `index` of the fields of an id as an unsigned integer no
/// larger than `max`.
pub open spec fn id_part_spec(fields: Seq<Seq<char>>, index: int, name: Seq<char>, max: int) -> Result<
    int,
    ErrorView,
> {
    if index >= fields.len() {
        Err(missing_field(name))
    } else {
        match parse_unsigned_spec(fields[index], max) {
            Ok(v) => Ok(v),
            Err(k) => Err(invalid_field(name, int_error_text(k))),
        }
    }
}

/// An id read up to its write time: the three integer fields, the text of
/// the write time, and whether more fields follow it.
pub struct IdText {
    pub parent: u64,
    pub epoch: u32,
    pub seq: u32,
    pub t_write: String,
    pub extra_fields: bool,
}

/// What an `IdText` holds, as a mathematical value.
pub struct IdTextView {
    pub parent: u64,
    pub epoch: u32,
    pub seq: u32,
    pub t_write: Seq<char>,
    pub extra_fields: bool,
}

impl View for IdText {
    type V = IdTextView;

    open spec fn view(&self) -> IdTextView {
        IdTextView {
            parent: self.parent,
            epoch: self.epoch,
            seq: self.seq,
            t_write: self.t_write@,
            extra_fields: self.extra_fields,
        }
    }
}

/// Reads an id up to its write time: `parent`, `epoch` and `seq` in turn,
/// each missing or unreadable field an error, then the presence of the
/// write time.
pub open spec fn parse_id_text_spec(value: Seq<char>) -> Result<IdTextView, ErrorView> {
    let f = split_colon(value);
    match id_part_spec(f, 0, "parent"@, u64::MAX as int) {
        Err(e) => Err(e),
        Ok(parent) => match id_part_spec(f, 1, "epoch"@, u32::MAX as int) {
            Err(e) => Err(e),
            Ok(epoch) => match id_part_spec(f, 2, "seq"@, u32::MAX as int) {
                Err(e) => Err(e),
                Ok(seq) => if f.len() < 4 {
                    Err(missing_field("t_write"@))
                } else {
                    Ok(
                        IdTextView {
                            parent: parent as u64,
                            epoch: epoch as u32,
                            seq: seq as u32,
                            t_write: f[3],
                            extra_fields: f.len() > 4,
                        },
                    )
                },
            },
        },
    }
}

/// Completes the reading of `value` once its write time has been read
/// (its bits) or refused (the reason): the write time's error comes first,
/// then the error of extra fields.
pub open spec fn finish_id_spec(value: Seq<char>, text: IdTextView, t_write: Result<
    u64,
    Seq<char>,
>) -> Result<KoutenId, ErrorView> {
    match t_write {
        Err(reason) => Err(invalid_field("t_write"@, reason)),
        Ok(bits) => if text.extra_fields {
            Err(too_many_fields(value))
        } else {
            Ok(
                KoutenId {
                    parent: text.parent,
                    epoch: text.epoch,
                    seq: text.seq,
                    t_write_bits: bits,
                },
            )
        },
    }
}

/// The fields of `s` split at every `:`.
pub fn split_fields(s: &[char]) -> (r: Vec<Vec<char>>)
    ensures
        r@.len() == split_colon(s@).len(),
        forall|i: int| 0 <= i < r@.len() ==> #[trigger] r@[i]@ == split_colon(s@)[i],
{
    let mut fields: Vec<Vec<char>> = Vec::new();
    let mut cur: Vec<char> = Vec::new();
    let mut i: usize = 0;
    assert(s@.take(0) =~= Seq::<char>::empty());
    while i < s.len()
        invariant
            i <= s.len(),
            split_colon(s@.take(i as int)).len() == fields@.len() + 1,
            forall|k: int| 0 <= k < fields@.len() ==> #[trigger] fields@[k]@ == split_colon(s@.take(i as int))[k],
            cur@ == split_colon(s@.take(i as int)).last(),
        decreases s.len() - i,
    {
        let c = s[i];
        let ghost prev = split_colon(s@.take(i as int));
        assert(s@.take(i + 1).drop_last() =~= s@.take(i as int));
        assert(s@.take(i + 1).last() == c);
        if c == ':' {
            fields.push(cur);
            cur = Vec::new();
            assert(split_colon(s@.take(i + 1)) == prev.push(Seq::<char>::empty()));
        } else {
            cur.push(c);
            assert(split_colon(s@.take(i + 1)) == prev.update(prev.len() - 1, prev.last().push(c)));
        }
        i = i + 1;
    }
    assert(s@.take(s.len() as int) =~= s@);
    fields.push(cur);
    fields
}

/// Appends the standard library's text for an integer parse failure.
fn push_int_error(s: &mut String, kind: IntErrorKind)
    ensures
        final(s)@ == old(s)@ + int_error_text(kind),
{
    match kind {
        IntErrorKind::Empty => push_str(s, "cannot parse integer from empty string"),
        IntErrorKind::InvalidDigit => push_str(s, "invalid digit found in string"),
        IntErrorKind::PosOverflow => push_str(s, "number too large to fit in target type"),
    }
}

/// Reads field `index` of the fields of an id as an unsigned integer no
/// larger than `max`; an `InvalidId` error names the field when it is
/// missing or does not read.
pub fn parse_id_part(fields: &Vec<Vec<char>>, index: usize, name: &str, max: u64) -> (r: Result<
    u64,
    Error,
>)
    ensures
        match id_part_spec(fields@.map_values(|f: Vec<char>| f@), index as int, name@, max as int) {
            Ok(v) => r matches Ok(x) && x == v,
            Err(e) => r matches Err(x) && x@ == e,
        },
{
    let ghost views = fields@.map_values(|f: Vec<char>| f@);
    if index >= fields.len() {
        let mut m = String::new();
        push_str(&mut m, "invalid KoutenDB id: missing ");
        push_str(&mut m, name);
        return Err(Error::new(ErrorKind::InvalidId, m));
    }
    assert(views[index as int] == fields@[index as int]@);
    match parse_unsigned(fields[index].as_slice(), max) {
        Ok(v) => Ok(v),
        Err(k) => {
            let mut m = String::new();
            push_str(&mut m, "invalid KoutenDB id field '");
            push_str(&mut m, name);
            push_str(&mut m, "': ");
            push_int_error(&mut m, k);
            Err(Error::new(ErrorKind::InvalidId, m))
        },
    }
}

/// Reads an id as far as the library can without floating point: its
/// integer fields and the text of its write time, or the error of the
/// first missing or unreadable integer field, or of a missing write time.
pub fn parse_id_text(value: &str) -> (r: Result<IdText, Error>)
    ensures
        match parse_id_text_spec(value@) {
            Ok(t) => r matches Ok(x) && x@ == t,
            Err(e) => r matches Err(x) && x@ == e,
        },
{
    let chars = chars_of(value);
    let fields = split_fields(chars.as_slice());
    let ghost f = split_colon(value@);
    assert(fields@.map_values(|v: Vec<char>| v@) =~= f);
    let parent = match parse_id_part(&fields, 0, "parent", u64::MAX) {
        Ok(v) => v,
        Err(e) => return Err(e),
    };
    let epoch = match parse_id_part(&fields, 1, "epoch", u32::MAX as u64) {
        Ok(v) => v,
        Err(e) => return Err(e),
    };
    let seq = match parse_id_part(&fields, 2, "seq", u32::MAX as u64) {
        Ok(v) => v,
        Err(e) => return Err(e),
    };
    if fields.len() < 4 {
        let mut m = String::new();
        push_str(&mut m, "invalid KoutenDB id: missing ");
        push_str(&mut m, "t_write");
        return Err(Error::new(ErrorKind::InvalidId, m));
    }
    assert(fields@[3]@ == f[3]);
    let t_write = crate::text::string_of(fields[3].as_slice());
    Ok(
        IdText {
            parent,
            epoch: epoch as u32,
            seq: seq as u32,
            t_write,
            extra_fields: fields.len() > 4,
        },
    )
}

/// The reading of a write time, with the reason of a refusal as text.
pub open spec fn t_write_view(t_write: Result<u64, String>) -> Result<u64, Seq<char>> {
    match t_write {
        Ok(bits) => Ok(bits),
        Err(reason) => Err(reason@),
    }
}

/// Completes the reading of `value` from what `parse_id_text` read and
/// the reading of the write time: its bits, or the text of the reason it
/// was refused.
pub fn finish_id(value: &str, text: IdText, t_write: Result<u64, String>) -> (r: Result<
    KoutenId,
    Error,
>)
    ensures
        match finish_id_spec(value@, text@, t_write_view(t_write)) {
            Ok(id) => r matches Ok(x) && x == id,
            Err(e) => r matches Err(x) && x@ == e,
        },
{
    match t_write {
        Err(reason) => {
            let mut m = String::new();
            push_str(&mut m, "invalid KoutenDB id field '");
            push_str(&mut m, "t_write");
            push_str(&mut m, "': ");
            push_str(&mut m, reason.as_str());
            Err(Error::new(ErrorKind::InvalidId, m))
        },
        Ok(bits) => {
            if text.extra_fields {
                let mut m = String::new();
                push_str(&mut m, "invalid KoutenDB id '");
                push_str(&mut m, value);
                push_str(&mut m, "': too many fields");
                Err(Error::new(ErrorKind::InvalidId, m))
            } else {
                Ok(KoutenId { parent: text.parent, epoch: text.epoch, seq: text.seq, t_write_bits: bits })
            }
        },
    }
}

// ---------------------------------------------------------------------
// The text of an id reads back as the id

proof fn lemma_split_nonempty(s: Seq<char>)
    ensures
        split_colon(s).len() >= 1,
    decreases s.len(),
{
    if s.len() > 0 {
        lemma_split_nonempty(s.drop_last());
    }
}

proof fn lemma_split_no_colon(y: Seq<char>)
    requires
        forall|i: int| 0 <= i < y.len() ==> y[i] != ':',
    ensures
        split_colon(y) == seq![y],
    decreases y.len(),
{
    if y.len() == 0 {
        assert(y =~= Seq::<char>::empty());
    } else {
        assert(y[y.len() - 1] != ':');
        lemma_split_no_colon(y.drop_last());
        assert(y.drop_last().push(y.last()) =~= y);
        assert(seq![y.drop_last()].update(0, y.drop_last().push(y.last())) =~= seq![y]);
    }
}

proof fn lemma_split_concat(x: Seq<char>, y: Seq<char>)
    ensures
        split_colon(x + seq![':'] + y) == split_colon(x) + split_colon(y),
    decreases y.len(),
{
    let s = x + seq![':'] + y;
    lemma_split_nonempty(x);
    lemma_split_nonempty(y);
    if y.len() == 0 {
        assert(s.drop_last() =~= x);
        assert(split_colon(x).push(Seq::<char>::empty()) =~= split_colon(x) + split_colon(y));
    } else {
        let y0 = y.drop_last();
        assert(s.drop_last() =~= x + seq![':'] + y0);
        assert(s.last() == y.last());
        lemma_split_concat(x, y0);
        lemma_split_nonempty(y0);
        let a = split_colon(x);
        let b = split_colon(y0);
        if y.last() == ':' {
            assert((a + b).push(Seq::<char>::empty()) =~= a + b.push(Seq::<char>::empty()));
        } else {
            assert((a + b).update((a + b).len() - 1, (a + b).last().push(y.last())) =~= a
                + b.update(b.len() - 1, b.last().push(y.last())));
        }
    }
}

proof fn lemma_decimal_no_colon(n: nat)
    ensures
        forall|i: int| 0 <= i < decimal(n).len() ==> decimal(n)[i] != ':',
{
    crate::text::lemma_decimal_digits(n);
    assert forall|i: int| 0 <= i < decimal(n).len() implies decimal(n)[i] != ':' by {
        assert(is_digit(decimal(n)[i]));
    }
}

/// The text of an id reads back as that id: `parse_id_text` of
/// `parent:epoch:seq:t` gives the three integer fields, the write time's
/// text `t` and no extra field, and once `t` reads as the id's write time,
/// `finish_id` gives the id itself. (The write time's own text must hold
/// no `:`; the text of a float never does.)
pub proof fn id_text_roundtrip(id: KoutenId, t_write: Seq<char>)
    requires
        forall|i: int| 0 <= i < t_write.len() ==> t_write[i] != ':',
    ensures
        parse_id_text_spec(id_text(id.parent, id.epoch, id.seq, t_write)) == Ok::<
            IdTextView,
            ErrorView,
        >(
            IdTextView {
                parent: id.parent,
                epoch: id.epoch,
                seq: id.seq,
                t_write,
                extra_fields: false,
            },
        ),
        finish_id_spec(
            id_text(id.parent, id.epoch, id.seq, t_write),
            IdTextView {
                parent: id.parent,
                epoch: id.epoch,
                seq: id.seq,
                t_write,
                extra_fields: false,
            },
            Ok(id.t_write_bits),
        ) == Ok::<KoutenId, ErrorView>(id),
{
    let p = decimal(id.parent as nat);
    let e = decimal(id.epoch as nat);
    let q = decimal(id.seq as nat);
    lemma_decimal_no_colon(id.parent as nat);
    lemma_decimal_no_colon(id.epoch as nat);
    lemma_decimal_no_colon(id.seq as nat);
    lemma_split_no_colon(p);
    lemma_split_no_colon(e);
    lemma_split_no_colon(q);
    lemma_split_no_colon(t_write);
    let pe = p + seq![':'] + e;
    let peq = pe + seq![':'] + q;
    lemma_split_concat(p, e);
    lemma_split_concat(pe, q);
    lemma_split_concat(peq, t_write);
    assert(id_text(id.parent, id.epoch, id.seq, t_write) == peq + seq![':'] + t_write);
    let f = split_colon(peq + seq![':'] + t_write);
    assert(f =~= seq![p, e, q, t_write]);
    crate::text::decimal_roundtrip(id.parent as nat, u64::MAX as int);
    crate::text::decimal_roundtrip(id.epoch as nat, u32::MAX as int);
    crate::text::decimal_roundtrip(id.seq as nat, u32::MAX as int);
}

/// Equality of ids: ids are equal only when their parent, epoch and
/// sequence number are the same and their write times are the same float
/// (the same bits, or `0.0` and `-0.0`); a NaN write time is equal to
/// nothing; equality is symmetric; and an id whose write time is not a NaN
/// is equal to itself.
pub proof fn id_equality_law(a: KoutenId, b: KoutenId)
    ensures
        a.eq_spec(&b) ==> a.parent == b.parent && a.epoch == b.epoch && a.seq == b.seq,
        a.eq_spec(&b) ==> a.t_write_bits == b.t_write_bits || (a.t_write_bits
            & 0x7fff_ffff_ffff_ffffu64 == 0 && b.t_write_bits & 0x7fff_ffff_ffff_ffffu64 == 0),
        (a.t_write_bits & 0x7ff0_0000_0000_0000u64 == 0x7ff0_0000_0000_0000u64 && a.t_write_bits
            & 0x000f_ffff_ffff_ffffu64 != 0) ==> !a.eq_spec(&b),
        a.eq_spec(&b) == b.eq_spec(&a),
        (a.parent == b.parent && a.epoch == b.epoch && a.seq == b.seq && a.t_write_bits
            == b.t_write_bits && !(a.t_write_bits & 0x7ff0_0000_0000_0000u64
            == 0x7ff0_0000_0000_0000u64 && a.t_write_bits & 0x000f_ffff_ffff_ffffu64 != 0))
            ==> a.eq_spec(&b),
{
}

} // verus!

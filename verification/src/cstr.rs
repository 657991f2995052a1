//! Text in a field of fixed length, as the storage subsystem keeps it: the
//! text ends at the first zero byte of the field, or at the end of the field
//! where it holds none.

use vstd::prelude::*;

verus! {

/// The number of bytes of `field` that come before its first zero byte: the
/// whole length where it holds none.
pub open spec fn c_str_len(field: Seq<u8>) -> nat
    decreases field.len(),
{
    if field.len() == 0 || field[0] == 0 {
        0
    } else {
        1 + c_str_len(field.drop_first())
    }
}

/// The text that a field holds: its bytes up to the first zero byte.
pub open spec fn c_str(field: Seq<u8>) -> Seq<u8> {
    field.take(c_str_len(field) as int)
}

/// `c_str_len` is the one position that ends a run of nonzero bytes from
/// the start of the field, at a zero byte or at the field's end.
pub proof fn lemma_c_str_len(field: Seq<u8>, n: nat)
    requires
        n <= field.len(),
        forall|j: int| 0 <= j < n ==> field[j] != 0,
        n < field.len() ==> field[n as int] == 0,
    ensures
        c_str_len(field) == n,
    decreases n,
{
    if n > 0 {
        let rest = field.drop_first();
        assert forall|j: int| 0 <= j < n - 1 implies rest[j] != 0 by {
            assert(rest[j] == field[j + 1]);
        }
        lemma_c_str_len(rest, (n - 1) as nat);
    }
}

/// The text of a field is a prefix of the field, holds no zero byte, and
/// stops at the field's first zero byte.
pub proof fn lemma_c_str_is_text(field: Seq<u8>)
    ensures
        c_str_len(field) <= field.len(),
        c_str(field).len() == c_str_len(field),
        forall|j: int| 0 <= j < c_str_len(field) ==> c_str(field)[j] == field[j] && field[j] != 0,
        c_str_len(field) < field.len() ==> field[c_str_len(field) as int] == 0,
    decreases field.len(),
{
    if field.len() == 0 || field[0] == 0 {
    } else {
        let rest = field.drop_first();
        lemma_c_str_is_text(rest);
        assert forall|j: int| 0 <= j < c_str_len(field) implies c_str(field)[j] == field[j]
            && field[j] != 0 by {
            if j > 0 {
                assert(rest[j - 1] == field[j]);
            }
        }
    }
}

/// A text without a zero byte is read back as it was written, whether a
/// zero byte follows it in the field or the field ends with it.
pub proof fn lemma_c_str_of_text(text: Seq<u8>, rest: Seq<u8>)
    requires
        forall|j: int| 0 <= j < text.len() ==> text[j] != 0,
    ensures
        c_str(text) == text,
        c_str(text + seq![0u8] + rest) == text,
{
    lemma_c_str_len(text, text.len());
    assert(text.take(text.len() as int) =~= text);
    let field = text + seq![0u8] + rest;
    lemma_c_str_len(field, text.len());
    assert(field.take(text.len() as int) =~= text);
}

/// A field of `len` bytes into which `text` was written: the text, and zero
/// bytes up to the end of the field.
pub open spec fn field_of(text: Seq<u8>, len: int) -> Seq<u8> {
    text + Seq::new((len - text.len()) as nat, |i: int| 0u8)
}

/// A text without a zero byte that was written into a field that has room
/// for it is read back as it was written.
pub proof fn lemma_c_str_of_field(text: Seq<u8>, len: int)
    requires
        text.len() <= len,
        forall|j: int| 0 <= j < text.len() ==> text[j] != 0,
    ensures
        field_of(text, len).len() == len,
        c_str(field_of(text, len)) == text,
{
    let field = field_of(text, len);
    lemma_c_str_len(field, text.len());
    assert(field.take(text.len() as int) =~= text);
}

/// Reads the text out of a field: its bytes up to the first zero byte.
pub fn read_c_str(field: &[u8]) -> (text: Vec<u8>)
    ensures
        text@ == c_str(field@),
{
    let mut text: Vec<u8> = Vec::new();
    let mut i: usize = 0;
    while i < field.len() && field[i] != 0
        invariant
            i <= field.len(),
            text@ == field@.take(i as int),
            forall|j: int| 0 <= j < i ==> field@[j] != 0,
        decreases field.len() - i,
    {
        text.push(field[i]);
        i += 1;
        assert(field@.take(i as int) == field@.take(i - 1).push(field@[i - 1]));
    }
    proof {
        lemma_c_str_len(field@, i as nat);
    }
    text
}

} // verus!

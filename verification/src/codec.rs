use vstd::prelude::*;

use vstd::slice::{slice_subrange, slice_to_vec};
use vstd::utf8::{encode_utf8, decode_utf8, valid_utf8};
use vstd::utf8::{encode_utf8_valid_utf8, encode_utf8_decode_utf8};
use crate::ext::string_from_utf8;
use crate::model::{
    AccessKey, AccessKeyPermission, AccessKeyPermissionView, AccessKeyView, FunctionCallPermission,
    FunctionCallPermissionView, SignedTransaction, SignedTransactionView, Transaction,
    TransactionView, TxAction, TxActionView,
};

verus! {

// ---------------------------------------------------------------------------
// The canonical transmissible encoding of a signed transaction.
//
// Little-endian fixed-width integers; byte strings and text carry a 64-bit
// length prefix; tagged variants carry a one-byte tag.  Encoding and decoding
// are specified as functions over sequences, and decoding an encoding is
// proved to give back the value.
// ---------------------------------------------------------------------------

/// The eight little-endian bytes of a 64-bit integer.
pub open spec fn enc_u64(v: u64) -> Seq<u8> {
    seq![
        v as u8,
        (v >> 8) as u8,
        (v >> 16) as u8,
        (v >> 24) as u8,
        (v >> 32) as u8,
        (v >> 40) as u8,
        (v >> 48) as u8,
        (v >> 56) as u8,
    ]
}

/// The 64-bit integer held by eight little-endian bytes at `i`.
pub open spec fn u64_le_at(s: Seq<u8>, i: int) -> u64 {
    (s[i] as u64) | ((s[i + 1] as u64) << 8) | ((s[i + 2] as u64) << 16) | ((s[i + 3] as u64)
        << 24) | ((s[i + 4] as u64) << 32) | ((s[i + 5] as u64) << 40) | ((s[i + 6] as u64) << 48)
        | ((s[i + 7] as u64) << 56)
}

/// Reading eight little-endian bytes starting at `i`.
pub open spec fn dec_u64(s: Seq<u8>, i: int) -> Option<(u64, int)> {
    if 0 <= i && i + 8 <= s.len() {
        Some((u64_le_at(s, i), i + 8))
    } else {
        None
    }
}

proof fn lemma_u64_le_round(v: u64)
    ensures
        ((v as u8) as u64) | (((v >> 8) as u8 as u64) << 8) | (((v >> 16) as u8 as u64) << 16) | ((
        (v >> 24) as u8 as u64) << 24) | (((v >> 32) as u8 as u64) << 32) | (((v >> 40) as u8
            as u64) << 40) | (((v >> 48) as u8 as u64) << 48) | (((v >> 56) as u8 as u64) << 56)
            == v,
{
    assert(((v as u8) as u64) | (((v >> 8) as u8 as u64) << 8) | (((v >> 16) as u8 as u64) << 16)
        | (((v >> 24) as u8 as u64) << 24) | (((v >> 32) as u8 as u64) << 32) | (((v >> 40) as u8
        as u64) << 40) | (((v >> 48) as u8 as u64) << 48) | (((v >> 56) as u8 as u64) << 56)
        == v) by (bit_vector);
}

/// Decoding eight bytes that hold `enc_u64(v)` yields `v`.
proof fn lemma_dec_enc_u64(s: Seq<u8>, i: int, v: u64)
    requires
        0 <= i,
        i + 8 <= s.len(),
        s.subrange(i, i + 8) == enc_u64(v),
    ensures
        dec_u64(s, i) == Some((v, i + 8)),
{
    assert(forall|k: int| 0 <= k < 8 ==> s[i + k] == #[trigger] enc_u64(v)[k]) by {
        assert(forall|k: int| 0 <= k < 8 ==> s[i + k] == #[trigger] s.subrange(i, i + 8)[k]);
    }
    lemma_u64_le_round(v);
}

/// A stretch of `s` that holds `a + b` splits into a stretch holding `a`
/// and one holding `b`.
proof fn lemma_concat_parts(s: Seq<u8>, i: int, a: Seq<u8>, b: Seq<u8>)
    requires
        0 <= i,
        i + a.len() + b.len() <= s.len(),
        s.subrange(i, i + a.len() + b.len()) == a + b,
    ensures
        s.subrange(i, i + a.len()) == a,
        s.subrange(i + a.len(), i + a.len() + b.len()) == b,
{
    let la = a.len() as int;
    let lb = b.len() as int;
    assert forall|k: int| 0 <= k < la implies s.subrange(i, i + la)[k] == a[k] by {
        assert(s[i + k] == s.subrange(i, i + la + lb)[k]);
        assert((a + b)[k] == a[k]);
    }
    assert(s.subrange(i, i + la) =~= a);
    assert forall|k: int| 0 <= k < lb implies s.subrange(i + la, i + la + lb)[k] == b[k] by {
        assert(s[i + la + k] == s.subrange(i, i + la + lb)[la + k]);
        assert((a + b)[la + k] == b[k]);
    }
    assert(s.subrange(i + la, i + la + lb) =~= b);
}

/// The sixteen little-endian bytes of a 128-bit integer, low half first.
pub open spec fn enc_u128(v: u128) -> Seq<u8> {
    enc_u64(v as u64) + enc_u64((v >> 64) as u64)
}

/// Reading sixteen little-endian bytes starting at `i`.
pub open spec fn dec_u128(s: Seq<u8>, i: int) -> Option<(u128, int)> {
    if 0 <= i && i + 16 <= s.len() {
        Some(
            (
                (u64_le_at(s, i) as u128) | ((u64_le_at(s, i + 8) as u128) << 64),
                i + 16,
            ),
        )
    } else {
        None
    }
}

proof fn lemma_u128_halves(v: u128)
    ensures
        ((v as u64) as u128) | ((((v >> 64) as u64) as u128) << 64) == v,
{
    assert(((v as u64) as u128) | ((((v >> 64) as u64) as u128) << 64) == v) by (bit_vector);
}

/// Decoding sixteen bytes that hold `enc_u128(v)` yields `v`.
proof fn lemma_dec_enc_u128(s: Seq<u8>, i: int, v: u128)
    requires
        0 <= i,
        i + 16 <= s.len(),
        s.subrange(i, i + 16) == enc_u128(v),
    ensures
        dec_u128(s, i) == Some((v, i + 16)),
{
    lemma_concat_parts(s, i, enc_u64(v as u64), enc_u64((v >> 64) as u64));
    lemma_dec_enc_u64(s, i, v as u64);
    lemma_dec_enc_u64(s, i + 8, (v >> 64) as u64);
    lemma_u128_halves(v);
}

/// An upper bound a length prefix must fit under.
pub open spec fn fits_u64(n: nat) -> bool {
    n < 0x1_0000_0000_0000_0000
}

/// A length-prefixed byte string.
pub open spec fn enc_bytes(b: Seq<u8>) -> Seq<u8> {
    enc_u64(b.len() as u64) + b
}

/// Reading a length-prefixed byte string starting at `i`.
pub open spec fn dec_bytes(s: Seq<u8>, i: int) -> Option<(Seq<u8>, int)> {
    match dec_u64(s, i) {
        None => None,
        Some((n, j)) => if j + n <= s.len() {
            Some((s.subrange(j, j + n), j + n))
        } else {
            None
        },
    }
}

/// Decoding an encoded byte string yields the byte string.
proof fn lemma_dec_enc_bytes(s: Seq<u8>, i: int, b: Seq<u8>)
    requires
        0 <= i,
        fits_u64(b.len()),
        i + enc_bytes(b).len() <= s.len(),
        s.subrange(i, i + enc_bytes(b).len()) == enc_bytes(b),
    ensures
        dec_bytes(s, i) == Some((b, i + enc_bytes(b).len())),
{
    lemma_concat_parts(s, i, enc_u64(b.len() as u64), b);
    lemma_dec_enc_u64(s, i, b.len() as u64);
}

/// Length-prefixed text, carried as its UTF-8 bytes.
pub open spec fn enc_str(t: Seq<char>) -> Seq<u8> {
    enc_bytes(encode_utf8(t))
}

/// Whether a piece of text is encodable: its UTF-8 form fits the prefix.
pub open spec fn wf_str(t: Seq<char>) -> bool {
    fits_u64(encode_utf8(t).len())
}

/// Reading length-prefixed text starting at `i`.
pub open spec fn dec_str(s: Seq<u8>, i: int) -> Option<(Seq<char>, int)> {
    match dec_bytes(s, i) {
        None => None,
        Some((b, j)) => if valid_utf8(b) {
            Some((decode_utf8(b), j))
        } else {
            None
        },
    }
}

/// Decoding encoded text yields the text.
proof fn lemma_dec_enc_str(s: Seq<u8>, i: int, t: Seq<char>)
    requires
        0 <= i,
        wf_str(t),
        i + enc_str(t).len() <= s.len(),
        s.subrange(i, i + enc_str(t).len()) == enc_str(t),
    ensures
        dec_str(s, i) == Some((t, i + enc_str(t).len())),
{
    lemma_dec_enc_bytes(s, i, encode_utf8(t));
    broadcast use encode_utf8_valid_utf8, encode_utf8_decode_utf8;

}

// ---------------------------------------------------------------------------
// Executable writers and readers for the primitives.
// ---------------------------------------------------------------------------

/// Appends the little-endian bytes of `v`.
pub fn write_u64(out: &mut Vec<u8>, v: u64)
    ensures
        final(out)@ == old(out)@ + enc_u64(v),
{
    out.push(#[verifier::truncate] (v as u8));
    out.push(#[verifier::truncate] ((v >> 8) as u8));
    out.push(#[verifier::truncate] ((v >> 16) as u8));
    out.push(#[verifier::truncate] ((v >> 24) as u8));
    out.push(#[verifier::truncate] ((v >> 32) as u8));
    out.push(#[verifier::truncate] ((v >> 40) as u8));
    out.push(#[verifier::truncate] ((v >> 48) as u8));
    out.push(#[verifier::truncate] ((v >> 56) as u8));
    proof {
        assert(out@ =~= old(out)@ + enc_u64(v));
    }
}

/// Appends the little-endian bytes of `v`, low 64-bit half first.
pub fn write_u128(out: &mut Vec<u8>, v: u128)
    ensures
        final(out)@ == old(out)@ + enc_u128(v),
{
    write_u64(out, #[verifier::truncate] (v as u64));
    write_u64(out, #[verifier::truncate] ((v >> 64) as u64));
    proof {
        assert(out@ =~= old(out)@ + enc_u128(v));
    }
}

/// Appends a length-prefixed byte string.
pub fn write_bytes(out: &mut Vec<u8>, b: &Vec<u8>)
    ensures
        final(out)@ == old(out)@ + enc_bytes(b@),
{
    write_u64(out, b.len() as u64);
    let mut k: usize = 0;
    while k < b.len()
        invariant
            k <= b.len(),
            out@ == old(out)@ + enc_u64(b@.len() as u64) + b@.subrange(0, k as int),
        decreases b.len() - k,
    {
        out.push(b[k]);
        proof {
            assert(old(out)@ + enc_u64(b@.len() as u64) + b@.subrange(0, k + 1) =~= (old(out)@
                + enc_u64(b@.len() as u64) + b@.subrange(0, k as int)).push(b@[k as int]));
        }
        k += 1;
    }
    proof {
        assert(b@.subrange(0, b@.len() as int) =~= b@);
        assert(out@ =~= old(out)@ + enc_bytes(b@));
    }
}

/// Appends length-prefixed text as its UTF-8 bytes.
pub fn write_str(out: &mut Vec<u8>, t: &String)
    ensures
        final(out)@ == old(out)@ + enc_str(t@),
{
    let bytes = t.as_str().as_bytes_vec();
    write_bytes(out, &bytes);
}

/// Reads the eight little-endian bytes at `pos`.
pub fn read_u64(buf: &Vec<u8>, pos: usize) -> (r: Option<(u64, usize)>)
    ensures
        match dec_u64(buf@, pos as int) {
            Some((v, j)) => r == Some((v, j as usize)),
            None => r is None,
        },
{
    if pos >= buf.len() || buf.len() - pos < 8 {
        return None;
    }
    let v: u64 = (buf[pos] as u64) | ((buf[pos + 1] as u64) << 8) | ((buf[pos + 2] as u64) << 16)
        | ((buf[pos + 3] as u64) << 24) | ((buf[pos + 4] as u64) << 32) | ((buf[pos + 5] as u64)
        << 40) | ((buf[pos + 6] as u64) << 48) | ((buf[pos + 7] as u64) << 56);
    Some((v, pos + 8))
}

/// Reads the sixteen little-endian bytes at `pos`.
pub fn read_u128(buf: &Vec<u8>, pos: usize) -> (r: Option<(u128, usize)>)
    ensures
        match dec_u128(buf@, pos as int) {
            Some((v, j)) => r == Some((v, j as usize)),
            None => r is None,
        },
{
    if pos >= buf.len() || buf.len() - pos < 16 {
        return None;
    }
    let lo = match read_u64(buf, pos) {
        Some((v, _)) => v,
        None => {
            return None;
        },
    };
    let hi = match read_u64(buf, pos + 8) {
        Some((v, _)) => v,
        None => {
            return None;
        },
    };
    Some(((lo as u128) | ((hi as u128) << 64), pos + 16))
}

/// Reads the length-prefixed byte string at `pos`.
pub fn read_bytes(buf: &Vec<u8>, pos: usize) -> (r: Option<(Vec<u8>, usize)>)
    ensures
        match dec_bytes(buf@, pos as int) {
            Some((b, j)) => r matches Some(p) && p.0@ == b && p.1 == j,
            None => r is None,
        },
{
    let (n, j) = match read_u64(buf, pos) {
        Some(p) => p,
        None => {
            return None;
        },
    };
    if n > (buf.len() - j) as u64 {
        return None;
    }
    let n_us = n as usize;
    let piece = slice_to_vec(slice_subrange(buf.as_slice(), j, j + n_us));
    Some((piece, j + n_us))
}

/// Reads the length-prefixed text at `pos`.
pub fn read_str(buf: &Vec<u8>, pos: usize) -> (r: Option<(String, usize)>)
    ensures
        match dec_str(buf@, pos as int) {
            Some((t, j)) => r matches Some(p) && p.0@ == t && p.1 == j,
            None => r is None,
        },
{
    let (piece, j) = match read_bytes(buf, pos) {
        Some(p) => p,
        None => {
            return None;
        },
    };
    match string_from_utf8(piece) {
        Some(t) => {
            proof {
                encode_utf8_decode_utf8(t@);
            }
            Some((t, j))
        },
        None => None,
    }
}

// ---------------------------------------------------------------------------
// Composite forms: options, text lists, permissions, actions, transactions.
// ---------------------------------------------------------------------------

/// An optional 128-bit value: a presence tag, then the value if present.
pub open spec fn enc_opt_u128(o: Option<u128>) -> Seq<u8> {
    match o {
        None => seq![0u8],
        Some(v) => seq![1u8] + enc_u128(v),
    }
}

/// Reading an optional 128-bit value starting at `i`.
pub open spec fn dec_opt_u128(s: Seq<u8>, i: int) -> Option<(Option<u128>, int)> {
    if 0 <= i < s.len() {
        if s[i] == 0u8 {
            Some((None, i + 1))
        } else if s[i] == 1u8 {
            match dec_u128(s, i + 1) {
                None => None,
                Some((v, j)) => Some((Some(v), j)),
            }
        } else {
            None
        }
    } else {
        None
    }
}

proof fn lemma_dec_enc_opt_u128(s: Seq<u8>, i: int, o: Option<u128>)
    requires
        0 <= i,
        i + enc_opt_u128(o).len() <= s.len(),
        s.subrange(i, i + enc_opt_u128(o).len()) == enc_opt_u128(o),
    ensures
        dec_opt_u128(s, i) == Some((o, i + enc_opt_u128(o).len())),
{
    match o {
        None => {
            assert(s[i] == s.subrange(i, i + 1)[0]);
        },
        Some(v) => {
            lemma_concat_parts(s, i, seq![1u8], enc_u128(v));
            assert(s[i] == s.subrange(i, i + 1)[0]);
            lemma_dec_enc_u128(s, i + 1, v);
        },
    }
}

/// A sequence of pieces of text, one after the other.
pub open spec fn enc_str_seq(v: Seq<Seq<char>>) -> Seq<u8>
    decreases v.len(),
{
    if v.len() == 0 {
        Seq::<u8>::empty()
    } else {
        enc_str(v[0]) + enc_str_seq(v.drop_first())
    }
}

/// Whether every piece of text in the list is encodable.
pub open spec fn wf_str_seq(v: Seq<Seq<char>>) -> bool {
    forall|k: int| 0 <= k < v.len() ==> wf_str(#[trigger] v[k])
}

/// Reading `n` pieces of text starting at `i`.
pub open spec fn dec_str_seq(s: Seq<u8>, i: int, n: nat) -> Option<(Seq<Seq<char>>, int)>
    decreases n,
{
    if n == 0 {
        Some((Seq::<Seq<char>>::empty(), i))
    } else {
        match dec_str(s, i) {
            None => None,
            Some((t, j)) => match dec_str_seq(s, j, (n - 1) as nat) {
                None => None,
                Some((ts, k)) => Some((seq![t] + ts, k)),
            },
        }
    }
}

proof fn lemma_dec_enc_str_seq(s: Seq<u8>, i: int, v: Seq<Seq<char>>)
    requires
        0 <= i,
        wf_str_seq(v),
        i + enc_str_seq(v).len() <= s.len(),
        s.subrange(i, i + enc_str_seq(v).len()) == enc_str_seq(v),
    ensures
        dec_str_seq(s, i, v.len()) == Some((v, i + enc_str_seq(v).len())),
    decreases v.len(),
{
    if v.len() == 0 {
        assert(dec_str_seq(s, i, 0) == Some((Seq::<Seq<char>>::empty(), i)));
        assert(Seq::<Seq<char>>::empty() =~~= v);
    } else {
        let rest = v.drop_first();
        lemma_concat_parts(s, i, enc_str(v[0]), enc_str_seq(rest));
        lemma_dec_enc_str(s, i, v[0]);
        let j = i + enc_str(v[0]).len();
        lemma_dec_enc_str_seq(s, j, rest);
        assert(seq![v[0]] + rest =~~= v);
    }
}

/// A list of pieces of text: a count, then the pieces.
pub open spec fn enc_strings(v: Seq<Seq<char>>) -> Seq<u8> {
    enc_u64(v.len() as u64) + enc_str_seq(v)
}

/// Reading a counted list of pieces of text starting at `i`.
pub open spec fn dec_strings(s: Seq<u8>, i: int) -> Option<(Seq<Seq<char>>, int)> {
    match dec_u64(s, i) {
        None => None,
        Some((n, j)) => dec_str_seq(s, j, n as nat),
    }
}

proof fn lemma_dec_enc_strings(s: Seq<u8>, i: int, v: Seq<Seq<char>>)
    requires
        0 <= i,
        fits_u64(v.len()),
        wf_str_seq(v),
        i + enc_strings(v).len() <= s.len(),
        s.subrange(i, i + enc_strings(v).len()) == enc_strings(v),
    ensures
        dec_strings(s, i) == Some((v, i + enc_strings(v).len())),
{
    lemma_concat_parts(s, i, enc_u64(v.len() as u64), enc_str_seq(v));
    lemma_dec_enc_u64(s, i, v.len() as u64);
    lemma_dec_enc_str_seq(s, i + 8, v);
}

/// An access-key permission: a tag, then the function-call fields if
/// restricted.
pub open spec fn enc_permission(p: AccessKeyPermissionView) -> Seq<u8> {
    match p {
        AccessKeyPermissionView::FullAccess => seq![0u8],
        AccessKeyPermissionView::FunctionCall(f) => seq![1u8] + enc_opt_u128(f.allowance)
            + enc_str(f.receiver_id) + enc_strings(f.method_names),
    }
}

/// Whether a permission is encodable.
pub open spec fn wf_permission(p: AccessKeyPermissionView) -> bool {
    match p {
        AccessKeyPermissionView::FullAccess => true,
        AccessKeyPermissionView::FunctionCall(f) => wf_str(f.receiver_id) && fits_u64(
            f.method_names.len(),
        ) && wf_str_seq(f.method_names),
    }
}

/// Reading a permission starting at `i`.
pub open spec fn dec_permission(s: Seq<u8>, i: int) -> Option<(AccessKeyPermissionView, int)> {
    if 0 <= i < s.len() {
        if s[i] == 0u8 {
            Some((AccessKeyPermissionView::FullAccess, i + 1))
        } else if s[i] == 1u8 {
            match dec_opt_u128(s, i + 1) {
                None => None,
                Some((allowance, j)) => match dec_str(s, j) {
                    None => None,
                    Some((receiver_id, k)) => match dec_strings(s, k) {
                        None => None,
                        Some((method_names, m)) => Some(
                            (
                                AccessKeyPermissionView::FunctionCall(
                                    FunctionCallPermissionView {
                                        allowance,
                                        receiver_id,
                                        method_names,
                                    },
                                ),
                                m,
                            ),
                        ),
                    },
                },
            }
        } else {
            None
        }
    } else {
        None
    }
}

proof fn lemma_dec_enc_permission(s: Seq<u8>, i: int, p: AccessKeyPermissionView)
    requires
        0 <= i,
        wf_permission(p),
        i + enc_permission(p).len() <= s.len(),
        s.subrange(i, i + enc_permission(p).len()) == enc_permission(p),
    ensures
        dec_permission(s, i) == Some((p, i + enc_permission(p).len())),
{
    match p {
        AccessKeyPermissionView::FullAccess => {
            assert(s[i] == s.subrange(i, i + 1)[0]);
        },
        AccessKeyPermissionView::FunctionCall(f) => {
            let a = enc_opt_u128(f.allowance);
            let b = enc_str(f.receiver_id);
            let c = enc_strings(f.method_names);
            assert(seq![1u8] + a + b + c =~= seq![1u8] + (a + (b + c)));
            lemma_concat_parts(s, i, seq![1u8], a + (b + c));
            assert(s[i] == s.subrange(i, i + 1)[0]);
            lemma_concat_parts(s, i + 1, a, b + c);
            lemma_dec_enc_opt_u128(s, i + 1, f.allowance);
            let j = i + 1 + a.len();
            lemma_concat_parts(s, j, b, c);
            lemma_dec_enc_str(s, j, f.receiver_id);
            let k = j + b.len();
            lemma_dec_enc_strings(s, k, f.method_names);
            assert(AccessKeyPermissionView::FunctionCall(
                FunctionCallPermissionView {
                    allowance: f.allowance,
                    receiver_id: f.receiver_id,
                    method_names: f.method_names,
                },
            ) =~~= p);
        },
    }
}

/// An access key: its nonce, then its permission.
pub open spec fn enc_access_key(k: AccessKeyView) -> Seq<u8> {
    enc_u64(k.nonce) + enc_permission(k.permission)
}

/// Reading an access key starting at `i`.
pub open spec fn dec_access_key(s: Seq<u8>, i: int) -> Option<(AccessKeyView, int)> {
    match dec_u64(s, i) {
        None => None,
        Some((nonce, j)) => match dec_permission(s, j) {
            None => None,
            Some((permission, k)) => Some((AccessKeyView { nonce, permission }, k)),
        },
    }
}

proof fn lemma_dec_enc_access_key(s: Seq<u8>, i: int, k: AccessKeyView)
    requires
        0 <= i,
        wf_permission(k.permission),
        i + enc_access_key(k).len() <= s.len(),
        s.subrange(i, i + enc_access_key(k).len()) == enc_access_key(k),
    ensures
        dec_access_key(s, i) == Some((k, i + enc_access_key(k).len())),
{
    lemma_concat_parts(s, i, enc_u64(k.nonce), enc_permission(k.permission));
    lemma_dec_enc_u64(s, i, k.nonce);
    lemma_dec_enc_permission(s, i + 8, k.permission);
}

/// One action: a tag, then the added key for `AddKey`.
pub open spec fn enc_action(a: TxActionView) -> Seq<u8> {
    match a {
        TxActionView::CreateAccount => seq![0u8],
        TxActionView::AddKey { public_key, access_key } => seq![1u8] + enc_str(public_key)
            + enc_access_key(access_key),
    }
}

/// Whether an action is encodable.
pub open spec fn wf_action(a: TxActionView) -> bool {
    match a {
        TxActionView::CreateAccount => true,
        TxActionView::AddKey { public_key, access_key } => wf_str(public_key) && wf_permission(
            access_key.permission,
        ),
    }
}

/// Reading one action starting at `i`.
pub open spec fn dec_action(s: Seq<u8>, i: int) -> Option<(TxActionView, int)> {
    if 0 <= i < s.len() {
        if s[i] == 0u8 {
            Some((TxActionView::CreateAccount, i + 1))
        } else if s[i] == 1u8 {
            match dec_str(s, i + 1) {
                None => None,
                Some((public_key, j)) => match dec_access_key(s, j) {
                    None => None,
                    Some((access_key, k)) => Some(
                        (TxActionView::AddKey { public_key, access_key }, k),
                    ),
                },
            }
        } else {
            None
        }
    } else {
        None
    }
}

proof fn lemma_dec_enc_action(s: Seq<u8>, i: int, a: TxActionView)
    requires
        0 <= i,
        wf_action(a),
        i + enc_action(a).len() <= s.len(),
        s.subrange(i, i + enc_action(a).len()) == enc_action(a),
    ensures
        dec_action(s, i) == Some((a, i + enc_action(a).len())),
{
    match a {
        TxActionView::CreateAccount => {
            assert(s[i] == s.subrange(i, i + 1)[0]);
        },
        TxActionView::AddKey { public_key, access_key } => {
            let b = enc_str(public_key);
            let c = enc_access_key(access_key);
            assert(seq![1u8] + b + c =~= seq![1u8] + (b + c));
            lemma_concat_parts(s, i, seq![1u8], b + c);
            assert(s[i] == s.subrange(i, i + 1)[0]);
            lemma_concat_parts(s, i + 1, b, c);
            lemma_dec_enc_str(s, i + 1, public_key);
            lemma_dec_enc_access_key(s, i + 1 + b.len(), access_key);
        },
    }
}

/// A sequence of actions, one after the other.
pub open spec fn enc_action_seq(v: Seq<TxActionView>) -> Seq<u8>
    decreases v.len(),
{
    if v.len() == 0 {
        Seq::<u8>::empty()
    } else {
        enc_action(v[0]) + enc_action_seq(v.drop_first())
    }
}

/// Whether every action in the list is encodable.
pub open spec fn wf_action_seq(v: Seq<TxActionView>) -> bool {
    forall|k: int| 0 <= k < v.len() ==> wf_action(#[trigger] v[k])
}

/// Reading `n` actions starting at `i`.
pub open spec fn dec_action_seq(s: Seq<u8>, i: int, n: nat) -> Option<(Seq<TxActionView>, int)>
    decreases n,
{
    if n == 0 {
        Some((Seq::<TxActionView>::empty(), i))
    } else {
        match dec_action(s, i) {
            None => None,
            Some((a, j)) => match dec_action_seq(s, j, (n - 1) as nat) {
                None => None,
                Some((rest, k)) => Some((seq![a] + rest, k)),
            },
        }
    }
}

proof fn lemma_dec_enc_action_seq(s: Seq<u8>, i: int, v: Seq<TxActionView>)
    requires
        0 <= i,
        wf_action_seq(v),
        i + enc_action_seq(v).len() <= s.len(),
        s.subrange(i, i + enc_action_seq(v).len()) == enc_action_seq(v),
    ensures
        dec_action_seq(s, i, v.len()) == Some((v, i + enc_action_seq(v).len())),
    decreases v.len(),
{
    if v.len() == 0 {
        assert(Seq::<TxActionView>::empty() =~~= v);
    } else {
        let rest = v.drop_first();
        lemma_concat_parts(s, i, enc_action(v[0]), enc_action_seq(rest));
        lemma_dec_enc_action(s, i, v[0]);
        lemma_dec_enc_action_seq(s, i + enc_action(v[0]).len(), rest);
        assert(seq![v[0]] + rest =~~= v);
    }
}

/// The action list of a transaction: a count, then the actions.
pub open spec fn enc_actions(v: Seq<TxActionView>) -> Seq<u8> {
    enc_u64(v.len() as u64) + enc_action_seq(v)
}

/// Reading a counted action list starting at `i`.
pub open spec fn dec_actions(s: Seq<u8>, i: int) -> Option<(Seq<TxActionView>, int)> {
    match dec_u64(s, i) {
        None => None,
        Some((n, j)) => dec_action_seq(s, j, n as nat),
    }
}

proof fn lemma_dec_enc_actions(s: Seq<u8>, i: int, v: Seq<TxActionView>)
    requires
        0 <= i,
        fits_u64(v.len()),
        wf_action_seq(v),
        i + enc_actions(v).len() <= s.len(),
        s.subrange(i, i + enc_actions(v).len()) == enc_actions(v),
    ensures
        dec_actions(s, i) == Some((v, i + enc_actions(v).len())),
{
    lemma_concat_parts(s, i, enc_u64(v.len() as u64), enc_action_seq(v));
    lemma_dec_enc_u64(s, i, v.len() as u64);
    lemma_dec_enc_action_seq(s, i + 8, v);
}

/// A transaction: its six fields, in order.
pub open spec fn enc_transaction(t: TransactionView) -> Seq<u8> {
    enc_str(t.signer_id) + enc_str(t.public_key) + enc_u64(t.nonce) + enc_str(t.receiver_id)
        + enc_bytes(t.block_hash) + enc_actions(t.actions)
}

/// Whether a transaction is encodable.
pub open spec fn wf_transaction(t: TransactionView) -> bool {
    wf_str(t.signer_id) && wf_str(t.public_key) && wf_str(t.receiver_id) && fits_u64(
        t.block_hash.len(),
    ) && fits_u64(t.actions.len()) && wf_action_seq(t.actions)
}

/// Reading a transaction starting at `i`.
pub open spec fn dec_transaction(s: Seq<u8>, i: int) -> Option<(TransactionView, int)> {
    match dec_str(s, i) {
        None => None,
        Some((signer_id, i1)) => match dec_str(s, i1) {
            None => None,
            Some((public_key, i2)) => match dec_u64(s, i2) {
                None => None,
                Some((nonce, i3)) => match dec_str(s, i3) {
                    None => None,
                    Some((receiver_id, i4)) => match dec_bytes(s, i4) {
                        None => None,
                        Some((block_hash, i5)) => match dec_actions(s, i5) {
                            None => None,
                            Some((actions, i6)) => Some(
                                (
                                    TransactionView {
                                        signer_id,
                                        public_key,
                                        nonce,
                                        receiver_id,
                                        block_hash,
                                        actions,
                                    },
                                    i6,
                                ),
                            ),
                        },
                    },
                },
            },
        },
    }
}

proof fn lemma_dec_enc_transaction(s: Seq<u8>, i: int, t: TransactionView)
    requires
        0 <= i,
        wf_transaction(t),
        i + enc_transaction(t).len() <= s.len(),
        s.subrange(i, i + enc_transaction(t).len()) == enc_transaction(t),
    ensures
        dec_transaction(s, i) == Some((t, i + enc_transaction(t).len())),
{
    let a = enc_str(t.signer_id);
    let b = enc_str(t.public_key);
    let c = enc_u64(t.nonce);
    let d = enc_str(t.receiver_id);
    let e = enc_bytes(t.block_hash);
    let f = enc_actions(t.actions);
    assert(a + b + c + d + e + f =~= a + (b + (c + (d + (e + f)))));
    lemma_concat_parts(s, i, a, b + (c + (d + (e + f))));
    lemma_dec_enc_str(s, i, t.signer_id);
    let i1 = i + a.len();
    lemma_concat_parts(s, i1, b, c + (d + (e + f)));
    lemma_dec_enc_str(s, i1, t.public_key);
    let i2 = i1 + b.len();
    lemma_concat_parts(s, i2, c, d + (e + f));
    lemma_dec_enc_u64(s, i2, t.nonce);
    let i3 = i2 + c.len();
    lemma_concat_parts(s, i3, d, e + f);
    lemma_dec_enc_str(s, i3, t.receiver_id);
    let i4 = i3 + d.len();
    lemma_concat_parts(s, i4, e, f);
    lemma_dec_enc_bytes(s, i4, t.block_hash);
    let i5 = i4 + e.len();
    lemma_dec_enc_actions(s, i5, t.actions);
    assert((TransactionView {
        signer_id: t.signer_id,
        public_key: t.public_key,
        nonce: t.nonce,
        receiver_id: t.receiver_id,
        block_hash: t.block_hash,
        actions: t.actions,
    }) =~~= t);
}

/// A signed transaction: the transaction, then the signature text.
pub open spec fn enc_signed(st: SignedTransactionView) -> Seq<u8> {
    enc_transaction(st.transaction) + enc_str(st.signature)
}

/// Whether a signed transaction is encodable.
pub open spec fn wf_signed(st: SignedTransactionView) -> bool {
    wf_transaction(st.transaction) && wf_str(st.signature)
}

/// Reading a signed transaction starting at `i`.
pub open spec fn dec_signed(s: Seq<u8>, i: int) -> Option<(SignedTransactionView, int)> {
    match dec_transaction(s, i) {
        None => None,
        Some((transaction, j)) => match dec_str(s, j) {
            None => None,
            Some((signature, k)) => Some((SignedTransactionView { transaction, signature }, k)),
        },
    }
}

/// Decoding the whole canonical form: the buffer must be consumed exactly.
pub open spec fn spec_decode_signed(s: Seq<u8>) -> Option<SignedTransactionView> {
    match dec_signed(s, 0) {
        None => None,
        Some((st, j)) => if j == s.len() {
            Some(st)
        } else {
            None
        },
    }
}

// ---------------------------------------------------------------------------
// Executable writers.
// ---------------------------------------------------------------------------

/// `enc_str_seq` of a list grown by one piece.
proof fn lemma_enc_str_seq_push(v: Seq<Seq<char>>, x: Seq<char>)
    ensures
        enc_str_seq(v.push(x)) == enc_str_seq(v) + enc_str(x),
    decreases v.len(),
{
    let w = v.push(x);
    if v.len() == 0 {
        assert(w[0] == x);
        assert(w.drop_first() =~~= v);
        assert(enc_str_seq(w) == enc_str(x) + enc_str_seq(v));
        assert(enc_str_seq(v) =~= Seq::<u8>::empty());
        assert(enc_str(x) + enc_str_seq(v) =~= enc_str_seq(v) + enc_str(x));
    } else {
        let vd = v.drop_first();
        lemma_enc_str_seq_push(vd, x);
        assert(w[0] == v[0]);
        assert(w.drop_first() =~~= vd.push(x));
        assert(enc_str_seq(w) == enc_str(v[0]) + (enc_str_seq(vd) + enc_str(x)));
        assert(enc_str_seq(v) == enc_str(v[0]) + enc_str_seq(vd));
        assert(enc_str(v[0]) + (enc_str_seq(vd) + enc_str(x)) =~= (enc_str(v[0]) + enc_str_seq(
            vd,
        )) + enc_str(x));
    }
}

/// `enc_action_seq` of a list grown by one action.
proof fn lemma_enc_action_seq_push(v: Seq<TxActionView>, x: TxActionView)
    ensures
        enc_action_seq(v.push(x)) == enc_action_seq(v) + enc_action(x),
    decreases v.len(),
{
    let w = v.push(x);
    if v.len() == 0 {
        assert(w[0] == x);
        assert(w.drop_first() =~~= v);
        assert(enc_action_seq(w) == enc_action(x) + enc_action_seq(v));
        assert(enc_action_seq(v) =~= Seq::<u8>::empty());
        assert(enc_action(x) + enc_action_seq(v) =~= enc_action_seq(v) + enc_action(x));
    } else {
        let vd = v.drop_first();
        lemma_enc_action_seq_push(vd, x);
        assert(w[0] == v[0]);
        assert(w.drop_first() =~~= vd.push(x));
        assert(enc_action_seq(w) == enc_action(v[0]) + (enc_action_seq(vd) + enc_action(x)));
        assert(enc_action_seq(v) == enc_action(v[0]) + enc_action_seq(vd));
        assert(enc_action(v[0]) + (enc_action_seq(vd) + enc_action(x)) =~= (enc_action(v[0])
            + enc_action_seq(vd)) + enc_action(x));
    }
}

/// Appends an optional 128-bit value.
pub fn write_opt_u128(out: &mut Vec<u8>, o: &Option<u128>)
    ensures
        final(out)@ == old(out)@ + enc_opt_u128(*o),
{
    match o {
        None => {
            out.push(0u8);
            proof {
                assert(out@ =~= old(out)@ + enc_opt_u128(*o));
            }
        },
        Some(v) => {
            out.push(1u8);
            proof {
                assert(out@ =~= old(out)@ + seq![1u8]);
            }
            write_u128(out, *v);
            proof {
                assert(out@ =~= old(out)@ + enc_opt_u128(*o));
            }
        },
    }
}

/// Appends a counted list of pieces of text.
pub fn write_strings(out: &mut Vec<u8>, v: &Vec<String>)
    ensures
        final(out)@ == old(out)@ + enc_strings(v.deep_view()),
{
    write_u64(out, v.len() as u64);
    let ghost base = out@;
    let mut k: usize = 0;
    while k < v.len()
        invariant
            k <= v.len(),
            v.deep_view().len() == v@.len(),
            out@ == base + enc_str_seq(v.deep_view().take(k as int)),
        decreases v.len() - k,
    {
        proof {
            assert(v.deep_view()[k as int] == v@[k as int]@);
            lemma_enc_str_seq_push(v.deep_view().take(k as int), v.deep_view()[k as int]);
            assert(v.deep_view().take(k + 1) =~~= v.deep_view().take(k as int).push(
                v.deep_view()[k as int],
            ));
        }
        write_str(out, &v[k]);
        k += 1;
    }
    proof {
        assert(v.deep_view().take(v@.len() as int) =~~= v.deep_view());
        assert(out@ =~= old(out)@ + enc_strings(v.deep_view()));
    }
}

/// Appends an access-key permission.
pub fn write_permission(out: &mut Vec<u8>, p: &AccessKeyPermission)
    ensures
        final(out)@ == old(out)@ + enc_permission(p@),
{
    match p {
        AccessKeyPermission::FullAccess => {
            out.push(0u8);
            proof {
                assert(out@ =~= old(out)@ + enc_permission(p@));
            }
        },
        AccessKeyPermission::FunctionCall(f) => {
            out.push(1u8);
            proof {
                assert(out@ =~= old(out)@ + seq![1u8]);
            }
            write_opt_u128(out, &f.allowance);
            write_str(out, &f.receiver_id);
            write_strings(out, &f.method_names);
            proof {
                assert(out@ =~= old(out)@ + enc_permission(p@));
            }
        },
    }
}

/// Appends an access key.
pub fn write_access_key(out: &mut Vec<u8>, k: &AccessKey)
    ensures
        final(out)@ == old(out)@ + enc_access_key(k@),
{
    write_u64(out, k.nonce);
    write_permission(out, &k.permission);
    proof {
        assert(out@ =~= old(out)@ + enc_access_key(k@));
    }
}

/// Appends one action.
pub fn write_action(out: &mut Vec<u8>, a: &TxAction)
    ensures
        final(out)@ == old(out)@ + enc_action(a@),
{
    match a {
        TxAction::CreateAccount => {
            out.push(0u8);
            proof {
                assert(out@ =~= old(out)@ + enc_action(a@));
            }
        },
        TxAction::AddKey { public_key, access_key } => {
            out.push(1u8);
            proof {
                assert(out@ =~= old(out)@ + seq![1u8]);
            }
            write_str(out, public_key);
            write_access_key(out, access_key);
            proof {
                assert(out@ =~= old(out)@ + enc_action(a@));
            }
        },
    }
}

/// Appends a counted action list.
pub fn write_actions(out: &mut Vec<u8>, v: &Vec<TxAction>)
    ensures
        final(out)@ == old(out)@ + enc_actions(crate::model::actions_view(v@)),
{
    write_u64(out, v.len() as u64);
    let ghost vw = crate::model::actions_view(v@);
    let ghost base = out@;
    let mut k: usize = 0;
    while k < v.len()
        invariant
            k <= v.len(),
            vw == crate::model::actions_view(v@),
            vw.len() == v@.len(),
            out@ == base + enc_action_seq(vw.take(k as int)),
        decreases v.len() - k,
    {
        proof {
            assert(vw[k as int] == v@[k as int]@);
            lemma_enc_action_seq_push(vw.take(k as int), vw[k as int]);
            assert(vw.take(k + 1) =~~= vw.take(k as int).push(vw[k as int]));
        }
        write_action(out, &v[k]);
        k += 1;
    }
    proof {
        assert(vw.take(v@.len() as int) =~~= vw);
        assert(out@ =~= old(out)@ + enc_actions(vw));
    }
}

/// The canonical byte encoding of a transaction.
pub fn encode_transaction(t: &Transaction) -> (r: Vec<u8>)
    ensures
        r@ == enc_transaction(t@),
{
    let mut out: Vec<u8> = Vec::new();
    write_str(&mut out, &t.signer_id);
    write_str(&mut out, &t.public_key);
    write_u64(&mut out, t.nonce);
    write_str(&mut out, &t.receiver_id);
    write_bytes(&mut out, &t.block_hash);
    write_actions(&mut out, &t.actions);
    proof {
        assert(out@ =~= enc_transaction(t@));
    }
    out
}

/// The canonical byte encoding of a signed transaction: its transmissible
/// form.
pub fn encode_signed_transaction(st: &SignedTransaction) -> (r: Vec<u8>)
    ensures
        r@ == enc_signed(st@),
{
    let mut out = encode_transaction(&st.transaction);
    write_str(&mut out, &st.signature);
    proof {
        assert(out@ =~= enc_signed(st@));
    }
    out
}

// ---------------------------------------------------------------------------
// Executable readers.
// ---------------------------------------------------------------------------

/// Reads the optional 128-bit value at `pos`.
pub fn read_opt_u128(buf: &Vec<u8>, pos: usize) -> (r: Option<(Option<u128>, usize)>)
    ensures
        match dec_opt_u128(buf@, pos as int) {
            Some((o, j)) => r == Some((o, j as usize)),
            None => r is None,
        },
{
    if pos >= buf.len() {
        return None;
    }
    let tag = buf[pos];
    if tag == 0 {
        Some((None, pos + 1))
    } else if tag == 1 {
        match read_u128(buf, pos + 1) {
            Some((v, j)) => Some((Some(v), j)),
            None => None,
        }
    } else {
        None
    }
}

/// Glues already-read pieces of text onto the outcome of reading the rest.
pub open spec fn glue_strs(a: Seq<Seq<char>>, o: Option<(Seq<Seq<char>>, int)>) -> Option<
    (Seq<Seq<char>>, int),
> {
    match o {
        Some((ts, end)) => Some((a + ts, end)),
        None => None,
    }
}

/// Reads the counted list of pieces of text at `pos`.
pub fn read_strings(buf: &Vec<u8>, pos: usize) -> (r: Option<(Vec<String>, usize)>)
    ensures
        match dec_strings(buf@, pos as int) {
            Some((v, j)) => r matches Some(p) && p.0.deep_view() == v && p.1 == j,
            None => r is None,
        },
{
    proof {
        assert(buf.len() == buf@.len());
    }
    let (n, start) = match read_u64(buf, pos) {
        Some(p) => p,
        None => {
            return None;
        },
    };
    let ghost target = dec_str_seq(buf@, start as int, n as nat);
    let mut acc: Vec<String> = Vec::new();
    let mut cur: usize = start;
    let mut k: u64 = 0;
    proof {
        assert(acc.deep_view() =~~= Seq::<Seq<char>>::empty());
        assert(glue_strs(acc.deep_view(), dec_str_seq(buf@, cur as int, (n - k) as nat))
            == target);
    }
    while k < n
        invariant
            k <= n,
            glue_strs(acc.deep_view(), dec_str_seq(buf@, cur as int, (n - k) as nat)) == target,
            dec_strings(buf@, pos as int) == target,
        decreases n - k,
    {
        let ghost m = (n - k) as nat;
        match read_str(buf, cur) {
            Some((t, j)) => {
                let ghost pre = acc.deep_view();
                acc.push(t);
                proof {
                    assert(acc.deep_view() =~~= pre.push(t@));
                    let o = dec_str_seq(buf@, j as int, (m - 1) as nat);
                    if o is Some {
                        let (ts, end) = o.unwrap();
                        assert(pre + (seq![t@] + ts) =~~= pre.push(t@) + ts);
                    }
                    assert(glue_strs(pre.push(t@), o) == target);
                }
                cur = j;
            },
            None => {
                proof {
                    assert(dec_str_seq(buf@, cur as int, m) is None);
                }
                return None;
            },
        }
        k += 1;
    }
    proof {
        assert(dec_str_seq(buf@, cur as int, 0) == Some((Seq::<Seq<char>>::empty(), cur as int)));
        assert(acc.deep_view() + Seq::<Seq<char>>::empty() =~~= acc.deep_view());
    }
    Some((acc, cur))
}

/// Reads the access-key permission at `pos`.
pub fn read_permission(buf: &Vec<u8>, pos: usize) -> (r: Option<(AccessKeyPermission, usize)>)
    ensures
        match dec_permission(buf@, pos as int) {
            Some((p, j)) => r matches Some(q) && q.0@ == p && q.1 == j,
            None => r is None,
        },
{
    if pos >= buf.len() {
        return None;
    }
    let tag = buf[pos];
    if tag == 0 {
        Some((AccessKeyPermission::FullAccess, pos + 1))
    } else if tag == 1 {
        let (allowance, i1) = match read_opt_u128(buf, pos + 1) {
            Some(p) => p,
            None => {
                return None;
            },
        };
        let (receiver_id, i2) = match read_str(buf, i1) {
            Some(p) => p,
            None => {
                return None;
            },
        };
        let (method_names, i3) = match read_strings(buf, i2) {
            Some(p) => p,
            None => {
                return None;
            },
        };
        Some(
            (
                AccessKeyPermission::FunctionCall(
                    FunctionCallPermission { allowance, receiver_id, method_names },
                ),
                i3,
            ),
        )
    } else {
        None
    }
}

/// Reads the access key at `pos`.
pub fn read_access_key(buf: &Vec<u8>, pos: usize) -> (r: Option<(AccessKey, usize)>)
    ensures
        match dec_access_key(buf@, pos as int) {
            Some((k, j)) => r matches Some(q) && q.0@ == k && q.1 == j,
            None => r is None,
        },
{
    proof {
        assert(buf.len() == buf@.len());
    }
    let (nonce, i1) = match read_u64(buf, pos) {
        Some(p) => p,
        None => {
            return None;
        },
    };
    let (permission, i2) = match read_permission(buf, i1) {
        Some(p) => p,
        None => {
            return None;
        },
    };
    Some((AccessKey { nonce, permission }, i2))
}

/// Reads the action at `pos`.
pub fn read_action(buf: &Vec<u8>, pos: usize) -> (r: Option<(TxAction, usize)>)
    ensures
        match dec_action(buf@, pos as int) {
            Some((a, j)) => r matches Some(q) && q.0@ == a && q.1 == j,
            None => r is None,
        },
{
    if pos >= buf.len() {
        return None;
    }
    let tag = buf[pos];
    if tag == 0 {
        Some((TxAction::CreateAccount, pos + 1))
    } else if tag == 1 {
        let (public_key, i1) = match read_str(buf, pos + 1) {
            Some(p) => p,
            None => {
                return None;
            },
        };
        let (access_key, i2) = match read_access_key(buf, i1) {
            Some(p) => p,
            None => {
                return None;
            },
        };
        Some((TxAction::AddKey { public_key, access_key }, i2))
    } else {
        None
    }
}

/// Glues already-read actions onto the outcome of reading the rest.
pub open spec fn glue_actions(a: Seq<TxActionView>, o: Option<(Seq<TxActionView>, int)>) -> Option<
    (Seq<TxActionView>, int),
> {
    match o {
        Some((ts, end)) => Some((a + ts, end)),
        None => None,
    }
}

/// Reads the counted action list at `pos`.
pub fn read_actions(buf: &Vec<u8>, pos: usize) -> (r: Option<(Vec<TxAction>, usize)>)
    ensures
        match dec_actions(buf@, pos as int) {
            Some((v, j)) => r matches Some(p) && crate::model::actions_view(p.0@) == v && p.1
                == j,
            None => r is None,
        },
{
    proof {
        assert(buf.len() == buf@.len());
    }
    let (n, start) = match read_u64(buf, pos) {
        Some(p) => p,
        None => {
            return None;
        },
    };
    let ghost target = dec_action_seq(buf@, start as int, n as nat);
    let mut acc: Vec<TxAction> = Vec::new();
    let mut cur: usize = start;
    let mut k: u64 = 0;
    proof {
        assert(crate::model::actions_view(acc@) =~~= Seq::<TxActionView>::empty());
        assert(glue_actions(
            crate::model::actions_view(acc@),
            dec_action_seq(buf@, cur as int, (n - k) as nat),
        ) == target);
    }
    while k < n
        invariant
            k <= n,
            glue_actions(
                crate::model::actions_view(acc@),
                dec_action_seq(buf@, cur as int, (n - k) as nat),
            ) == target,
            dec_actions(buf@, pos as int) == target,
        decreases n - k,
    {
        let ghost m = (n - k) as nat;
        match read_action(buf, cur) {
            Some((a, j)) => {
                let ghost pre = crate::model::actions_view(acc@);
                let ghost av = a@;
                acc.push(a);
                proof {
                    assert(crate::model::actions_view(acc@) =~~= pre.push(av));
                    let o = dec_action_seq(buf@, j as int, (m - 1) as nat);
                    if o is Some {
                        let (ts, end) = o.unwrap();
                        assert(pre + (seq![av] + ts) =~~= pre.push(av) + ts);
                    }
                    assert(glue_actions(pre.push(av), o) == target);
                }
                cur = j;
            },
            None => {
                proof {
                    assert(dec_action_seq(buf@, cur as int, m) is None);
                }
                return None;
            },
        }
        k += 1;
    }
    proof {
        assert(dec_action_seq(buf@, cur as int, 0) == Some(
            (Seq::<TxActionView>::empty(), cur as int),
        ));
        assert(crate::model::actions_view(acc@) + Seq::<TxActionView>::empty()
            =~~= crate::model::actions_view(acc@));
    }
    Some((acc, cur))
}

/// Reads the transaction at `pos`.
pub fn read_transaction(buf: &Vec<u8>, pos: usize) -> (r: Option<(Transaction, usize)>)
    ensures
        match dec_transaction(buf@, pos as int) {
            Some((t, j)) => r matches Some(q) && q.0@ == t && q.1 == j,
            None => r is None,
        },
{
    proof {
        assert(buf.len() == buf@.len());
    }
    let (signer_id, i1) = match read_str(buf, pos) {
        Some(p) => p,
        None => {
            return None;
        },
    };
    let (public_key, i2) = match read_str(buf, i1) {
        Some(p) => p,
        None => {
            return None;
        },
    };
    let (nonce, i3) = match read_u64(buf, i2) {
        Some(p) => p,
        None => {
            return None;
        },
    };
    let (receiver_id, i4) = match read_str(buf, i3) {
        Some(p) => p,
        None => {
            return None;
        },
    };
    let (block_hash, i5) = match read_bytes(buf, i4) {
        Some(p) => p,
        None => {
            return None;
        },
    };
    let (actions, i6) = match read_actions(buf, i5) {
        Some(p) => p,
        None => {
            return None;
        },
    };
    let t = Transaction { signer_id, public_key, nonce, receiver_id, block_hash, actions };
    proof {
        assert(t@ =~~= dec_transaction(buf@, pos as int).unwrap().0);
    }
    Some((t, i6))
}

/// Decodes the canonical transmissible form back into a signed transaction.
/// The whole buffer must be consumed exactly.
pub fn decode_signed_transaction(buf: &Vec<u8>) -> (r: Option<SignedTransaction>)
    ensures
        match spec_decode_signed(buf@) {
            Some(v) => r matches Some(st) && st@ == v,
            None => r is None,
        },
{
    proof {
        assert(buf.len() == buf@.len());
    }
    let (transaction, i1) = match read_transaction(buf, 0) {
        Some(p) => p,
        None => {
            return None;
        },
    };
    let (signature, i2) = match read_str(buf, i1) {
        Some(p) => p,
        None => {
            return None;
        },
    };
    if i2 != buf.len() {
        return None;
    }
    let st = SignedTransaction { transaction, signature };
    proof {
        assert(st@ =~~= spec_decode_signed(buf@).unwrap());
    }
    Some(st)
}

/// Law: decoding the canonical encoding of a signed transaction yields a
/// structurally identical transaction and signature.
#[verifier::rlimit(100)]
#[verifier::spinoff_prover]
pub proof fn lemma_codec_round_trip(st: SignedTransactionView)
    requires
        wf_signed(st),
    ensures
        spec_decode_signed(enc_signed(st)) == Some(st),
{
    let s = enc_signed(st);
    assert(s.subrange(0, s.len() as int) =~= s);
    lemma_concat_parts(s, 0, enc_transaction(st.transaction), enc_str(st.signature));
    lemma_dec_enc_transaction(s, 0, st.transaction);
    lemma_dec_enc_str(s, enc_transaction(st.transaction).len() as int, st.signature);
    assert((SignedTransactionView {
        transaction: st.transaction,
        signature: st.signature,
    }) =~~= st);
}

} // verus!

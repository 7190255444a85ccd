use vstd::prelude::*;
use vstd::utf8::{char_is_scalar, encode_scalar, encode_utf8, is_scalar};

verus! {

/// True when the byte sequence holds an embedded null byte.
pub open spec fn has_nul(bytes: Seq<u8>) -> bool {
    exists|i: int| 0 <= i < bytes.len() && bytes[i] == 0u8
}

/// The null-terminated byte string of a character sequence: its UTF-8
/// encoding followed by a single terminating null byte. This is the form in
/// which every text field is handed to the native calls.
pub open spec fn nul_terminated(s: Seq<char>) -> Seq<u8> {
    encode_utf8(s).push(0u8)
}

/// The characters of the local device name derived from a mount letter:
/// the letter followed by a colon.
pub open spec fn device_name_chars(c: char) -> Seq<char> {
    seq![c, ':']
}

/// Guard a byte string against embedded null bytes and terminate it: the
/// bytes followed by a null byte when none is embedded, and nothing when one
/// is.
pub fn nul_terminate(v: Vec<u8>) -> (r: Option<Vec<u8>>)
    ensures
        match r {
            Some(t) => !has_nul(v@) && t@ == v@.push(0u8),
            None => has_nul(v@),
        },
{
    let mut i: usize = 0;
    while i < v.len()
        invariant
            i <= v@.len(),
            forall|j: int| 0 <= j < i ==> v@[j] != 0u8,
        decreases v@.len() - i,
    {
        if v[i] == 0 {
            return None;
        }
        i = i + 1;
    }
    let mut t = v;
    t.push(0);
    Some(t)
}

/// UTF-8 encode one character.
pub fn encode_char(c: char) -> (r: Vec<u8>)
    ensures
        r@ == encode_scalar(c as u32),
{
    proof {
        char_is_scalar(c);
    }
    let v = c as u32;
    let mut out: Vec<u8> = Vec::new();
    if v <= 0x7F {
        assert((v & 0x7F) <= 0x7F) by (bit_vector);
        out.push((v & 0x7F) as u8);
        assert(out@ =~= encode_scalar(c as u32));
    } else if v <= 0x7FF {
        assert(((v >> 6) & 0x1F) <= 0x1F && (v & 0x3F) <= 0x3F) by (bit_vector);
        out.push(0xC0u8 | (((v >> 6) & 0x1F) as u8));
        out.push(0x80u8 | ((v & 0x3F) as u8));
        assert(out@ =~= encode_scalar(c as u32));
    } else if v <= 0xFFFF {
        assert(((v >> 12) & 0x0F) <= 0x0F && ((v >> 6) & 0x3F) <= 0x3F && (v & 0x3F) <= 0x3F)
            by (bit_vector);
        out.push(0xE0u8 | (((v >> 12) & 0x0F) as u8));
        out.push(0x80u8 | (((v >> 6) & 0x3F) as u8));
        out.push(0x80u8 | ((v & 0x3F) as u8));
        assert(out@ =~= encode_scalar(c as u32));
    } else {
        assert(((v >> 18) & 0x7) <= 0x7 && ((v >> 12) & 0x3F) <= 0x3F && ((v >> 6) & 0x3F) <= 0x3F
            && (v & 0x3F) <= 0x3F) by (bit_vector);
        out.push(0xF0u8 | (((v >> 18) & 0x7) as u8));
        out.push(0x80u8 | (((v >> 12) & 0x3F) as u8));
        out.push(0x80u8 | (((v >> 6) & 0x3F) as u8));
        out.push(0x80u8 | ((v & 0x3F) as u8));
        assert(out@ =~= encode_scalar(c as u32));
    }
    out
}

/// Build the byte string of the local device name derived from a mount
/// letter.
pub fn device_name_bytes(c: char) -> (r: Vec<u8>)
    ensures
        r@ == encode_utf8(device_name_chars(c)),
{
    let mut out = encode_char(c);
    let mut colon = encode_char(':');
    out.append(&mut colon);
    proof {
        let chars = device_name_chars(c);
        assert(chars.drop_first() =~= seq![':']);
        assert(seq![':'].drop_first() =~= Seq::<char>::empty());
        assert(encode_utf8(Seq::<char>::empty()) =~= Seq::<u8>::empty());
        assert(encode_utf8(seq![':']) =~= encode_scalar(':' as u32));
        assert(encode_utf8(chars) =~= encode_scalar(c as u32) + encode_scalar(':' as u32));
    }
    out
}

/// The UTF-8 encoding of a single scalar holds a null byte exactly when the
/// scalar is the null scalar.
proof fn lemma_encode_scalar_nul(v: u32)
    requires
        is_scalar(v),
    ensures
        has_nul(encode_scalar(v)) <==> v == 0,
{
    let s = encode_scalar(v);
    if v == 0 {
        assert((0u32 & 0x7F) as u8 == 0u8) by (bit_vector);
        assert(s[0] == 0u8);
    } else if v <= 0x7F {
        assert((v & 0x7F) as u8 != 0u8) by (bit_vector)
            requires 0 < v <= 0x7F;
        assert(forall|i: int| 0 <= i < s.len() ==> s[i] != 0u8);
    } else if v <= 0x7FF {
        assert((0xC0u8 | (((v >> 6) & 0x1F) as u8)) != 0u8 && (0x80u8 | ((v & 0x3F) as u8)) != 0u8)
            by (bit_vector);
        assert(forall|i: int| 0 <= i < s.len() ==> s[i] != 0u8);
    } else if v <= 0xFFFF {
        assert((0xE0u8 | (((v >> 12) & 0x0F) as u8)) != 0u8 && (0x80u8 | (((v >> 6) & 0x3F) as u8))
            != 0u8 && (0x80u8 | ((v & 0x3F) as u8)) != 0u8) by (bit_vector);
        assert(forall|i: int| 0 <= i < s.len() ==> s[i] != 0u8);
    } else {
        assert((0xF0u8 | (((v >> 18) & 0x7) as u8)) != 0u8 && (0x80u8 | (((v >> 12) & 0x3F) as u8))
            != 0u8 && (0x80u8 | (((v >> 6) & 0x3F) as u8)) != 0u8 && (0x80u8 | ((v & 0x3F) as u8))
            != 0u8) by (bit_vector);
        assert(forall|i: int| 0 <= i < s.len() ==> s[i] != 0u8);
    }
}

/// An embedded null byte in a concatenation comes from one of its parts.
proof fn lemma_has_nul_concat(a: Seq<u8>, b: Seq<u8>)
    ensures
        has_nul(a + b) <==> has_nul(a) || has_nul(b),
{
    if has_nul(a) {
        let i = choose|i: int| 0 <= i < a.len() && a[i] == 0u8;
        assert((a + b)[i] == 0u8);
    }
    if has_nul(b) {
        let i = choose|i: int| 0 <= i < b.len() && b[i] == 0u8;
        assert((a + b)[a.len() + i] == 0u8);
    }
    if has_nul(a + b) {
        let i = choose|i: int| 0 <= i < (a + b).len() && (a + b)[i] == 0u8;
        if i < a.len() {
            assert(a[i] == 0u8);
        } else {
            assert(b[i - a.len()] == 0u8);
        }
    }
}

/// Distinct mount letters derive distinct null-terminated device names, so
/// requests for distinct letters never address the same local device: UTF-8
/// encoding is injective, and the terminator adds nothing.
pub proof fn lemma_device_name_injective(c1: char, c2: char)
    requires
        c1 != c2,
    ensures
        nul_terminated(device_name_chars(c1)) != nul_terminated(device_name_chars(c2)),
{
    let a = encode_utf8(device_name_chars(c1));
    let b = encode_utf8(device_name_chars(c2));
    if a.push(0u8) == b.push(0u8) {
        assert(a.len() == b.len()) by {
            assert(a.push(0u8).len() == a.len() + 1);
            assert(b.push(0u8).len() == b.len() + 1);
        }
        assert forall|i: int| 0 <= i < a.len() implies a[i] == b[i] by {
            assert(a.push(0u8)[i] == a[i]);
            assert(b.push(0u8)[i] == b[i]);
        }
        assert(a =~= b);
        vstd::utf8::encode_utf8_decode_utf8(device_name_chars(c1));
        vstd::utf8::encode_utf8_decode_utf8(device_name_chars(c2));
        assert(device_name_chars(c1)[0] == c1);
        assert(device_name_chars(c2)[0] == c2);
        assert(false);
    }
}

/// The encoding of a character sequence holds an embedded null byte exactly
/// when the sequence holds the null character: UTF-8 never encodes any other
/// character with a null byte.
pub proof fn lemma_nul_byte_iff_nul_char(s: Seq<char>)
    ensures
        has_nul(encode_utf8(s)) <==> s.contains('\0'),
    decreases s.len(),
{
    if s.len() == 0 {
        assert(!has_nul(encode_utf8(s)));
        assert(!s.contains('\0'));
    } else {
        let rest = s.drop_first();
        char_is_scalar(s[0]);
        lemma_encode_scalar_nul(s[0] as u32);
        lemma_nul_byte_iff_nul_char(rest);
        lemma_has_nul_concat(encode_scalar(s[0] as u32), encode_utf8(rest));
        assert(s[0] as u32 == 0 <==> s[0] == '\0') by {
            if s[0] as u32 == 0 {
                vstd::utf8::char_u32_cast(s[0], 0u32);
                assert((0u32 as char) == '\0');
            }
        }
        assert(s.contains('\0') <==> s[0] == '\0' || rest.contains('\0')) by {
            if rest.contains('\0') {
                let j = choose|j: int| 0 <= j < rest.len() && rest[j] == '\0';
                assert(s[j + 1] == '\0');
            }
            if s.contains('\0') {
                let j = choose|j: int| 0 <= j < s.len() && s[j] == '\0';
                if j > 0 {
                    assert(rest[j - 1] == '\0');
                }
            }
        }
    }
}

} // verus!

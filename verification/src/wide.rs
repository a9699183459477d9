use vstd::prelude::*;

verus! {

/// `u` is the first unit of a UTF-16 surrogate pair.
pub open spec fn is_high_surrogate(u: u16) -> bool {
    0xD800 <= u <= 0xDBFF
}

/// `u` is the second unit of a UTF-16 surrogate pair.
pub open spec fn is_low_surrogate(u: u16) -> bool {
    0xDC00 <= u <= 0xDFFF
}

/// The UTF-16 code units of one character: itself below 0x10000, a
/// surrogate pair above.
pub open spec fn encode_char_utf16(c: char) -> Seq<u16> {
    let v = c as u32;
    if v < 0x1_0000 {
        seq![v as u16]
    } else {
        seq![
            (0xD800 + (v - 0x1_0000) / 0x400) as u16,
            (0xDC00 + (v - 0x1_0000) % 0x400) as u16,
        ]
    }
}

/// The UTF-16 encoding of a character sequence.
pub open spec fn encode_utf16(s: Seq<char>) -> Seq<u16>
    decreases s.len(),
{
    if s.len() == 0 {
        seq![]
    } else {
        encode_utf16(s.drop_last()) + encode_char_utf16(s.last())
    }
}

/// The characters that a sequence of UTF-16 code units stands for, or
/// `None` where it holds an unpaired surrogate.
pub open spec fn decode_utf16(units: Seq<u16>) -> Option<Seq<char>>
    decreases units.len(),
{
    if units.len() == 0 {
        Some(seq![])
    } else if !is_high_surrogate(units[0]) && !is_low_surrogate(units[0]) {
        match decode_utf16(units.drop_first()) {
            Some(rest) => Some(seq![(units[0] as u32) as char] + rest),
            None => None,
        }
    } else if is_high_surrogate(units[0]) && units.len() >= 2 && is_low_surrogate(units[1]) {
        let v = 0x1_0000 + (units[0] - 0xD800) * 0x400 + (units[1] - 0xDC00);
        match decode_utf16(units.skip(2)) {
            Some(rest) => Some(seq![(v as u32) as char] + rest),
            None => None,
        }
    } else {
        None
    }
}

/// Encoding a concatenation encodes each part in turn.
pub proof fn lemma_encode_utf16_concat(a: Seq<char>, b: Seq<char>)
    ensures
        encode_utf16(a + b) == encode_utf16(a) + encode_utf16(b),
    decreases b.len(),
{
    if b.len() == 0 {
        assert(a + b == a);
    } else {
        lemma_encode_utf16_concat(a, b.drop_last());
        assert((a + b).drop_last() == a + b.drop_last());
        assert((a + b).last() == b.last());
    }
}

/// Appends the UTF-16 encoding of `s` to `out`.
pub fn push_wide(out: &mut Vec<u16>, s: &str)
    ensures
        final(out)@ == old(out)@ + encode_utf16(s@),
{
    broadcast use vstd::string::axiom_spec_iter;
    broadcast use vstd::utf8::char_is_scalar;
    let ghost start = out@;
    for c in it: s.chars()
        invariant
            it.seq() == s@,
            out@ == start + encode_utf16(s@.take(it.index() as int)),
    {
        let ghost i = it.index() as int;
        assert(s@.take(i + 1).drop_last() == s@.take(i));
        assert(s@.take(i + 1).last() == c);
        let v = c as u32;
        if v < 0x1_0000 {
            out.push(v as u16);
        } else {
            let w = v - 0x1_0000;
            out.push((0xD800 + w / 0x400) as u16);
            out.push((0xDC00 + w % 0x400) as u16);
        }
    }
    assert(s@.take(s@.len() as int) == s@);
}

/// The UTF-16 encoding of `s`.
pub fn encode_wide(s: &str) -> (units: Vec<u16>)
    ensures
        units@ == encode_utf16(s@),
{
    let mut units = Vec::new();
    push_wide(&mut units, s);
    units
}

/// The UTF-16 encoding of `s` followed by a terminating zero unit, as the
/// wide-string functions of Windows take it.
pub fn encode_wide_nul(s: &str) -> (units: Vec<u16>)
    ensures
        units@ == encode_utf16(s@).push(0u16),
{
    let mut units = Vec::new();
    push_wide(&mut units, s);
    units.push(0u16);
    units
}

#[verifier::external_type_specification]
#[verifier::external_body]
pub struct ExFromUtf16Error(std::string::FromUtf16Error);

/// Calls `String::from_utf16`, which decodes UTF-16 and fails on an unpaired
/// surrogate; the contract claims it decodes exactly as `decode_utf16`.
#[verifier::external_body]
pub(crate) fn string_from_utf16(units: &[u16]) -> (res: Result<String, std::string::FromUtf16Error>)
    ensures
        match decode_utf16(units@) {
            Some(s) => res matches Ok(t) && t@ == s,
            None => res is Err,
        },
{
    String::from_utf16(units)
}

/// The encoding of a non-empty sequence starts with that of its first character.
proof fn lemma_encode_utf16_first(s: Seq<char>)
    requires
        s.len() > 0,
    ensures
        encode_utf16(s) == encode_char_utf16(s[0]) + encode_utf16(s.drop_first()),
{
    lemma_encode_utf16_concat(seq![s[0]], s.drop_first());
    assert(seq![s[0]] + s.drop_first() =~= s);
    assert(seq![s[0]].drop_last() =~= Seq::<char>::empty());
    assert(encode_utf16(Seq::<char>::empty()) == Seq::<u16>::empty());
    assert(encode_utf16(seq![s[0]]) =~= encode_char_utf16(s[0]));
}

/// Decoding the units of one character followed by more units yields that
/// character followed by what the rest decodes to.
proof fn lemma_decode_char_then(c: char, rest: Seq<u16>)
    ensures
        decode_utf16(encode_char_utf16(c) + rest) == (match decode_utf16(rest) {
            Some(t) => Some(seq![c] + t),
            None => None::<Seq<char>>,
        }),
{
    broadcast use vstd::utf8::char_is_scalar;
    broadcast use vstd::utf8::char_u32_cast;
    let v = c as u32;
    let units = encode_char_utf16(c) + rest;
    if v < 0x1_0000 {
        assert(units[0] == v as u16);
        assert(units.drop_first() =~= rest);
        assert(((v as u16) as u32) == v);
    } else {
        let w = v - 0x1_0000;
        assert(w <= 0xF_FFFF);
        assert(w / 0x400 <= 0x3FF && w % 0x400 <= 0x3FF) by (nonlinear_arith)
            requires
                0 <= w <= 0xF_FFFF,
        ;
        assert((w / 0x400) * 0x400 + w % 0x400 == w) by (nonlinear_arith);
        assert(units[0] == (0xD800 + w / 0x400) as u16);
        assert(units[1] == (0xDC00 + w % 0x400) as u16);
        assert(units.skip(2) =~= rest);
        let d = 0x1_0000 + (units[0] - 0xD800) * 0x400 + (units[1] - 0xDC00);
        assert(d == v);
    }
}

/// Decoding gives back every character sequence that was encoded.
pub proof fn law_decode_inverts_encode(s: Seq<char>)
    ensures
        decode_utf16(encode_utf16(s)) == Some(s),
    decreases s.len(),
{
    if s.len() == 0 {
    } else {
        lemma_encode_utf16_first(s);
        law_decode_inverts_encode(s.drop_first());
        lemma_decode_char_then(s[0], encode_utf16(s.drop_first()));
        assert(seq![s[0]] + s.drop_first() =~= s);
    }
}

/// A character sequence without NUL encodes to units without zero.
pub proof fn lemma_encode_without_nul(s: Seq<char>)
    requires
        !s.contains('\0'),
    ensures
        !encode_utf16(s).contains(0u16),
    decreases s.len(),
{
    broadcast use vstd::utf8::char_is_scalar;
    if s.len() > 0 {
        assert(s.drop_last().len() < s.len());
        assert forall|c: char| s.drop_last().contains(c) implies s.contains(c) by {
            let k = choose|k: int| 0 <= k < s.drop_last().len() && s.drop_last()[k] == c;
            assert(s[k] == c);
        }
        lemma_encode_without_nul(s.drop_last());
        assert(s.contains(s.last()));
        let e = encode_char_utf16(s.last());
        let v = s.last() as u32;
        vstd::utf8::char_is_scalar(s.last());
        assert(v != 0) by {
            if v == 0 {
                vstd::utf8::char_u32_cast(s.last(), v);
                assert((v as char) == s.last());
                assert((0u32 as char) == '\0');
            }
        }
        assert forall|k: int| 0 <= k < e.len() implies e[k] != 0u16 by {
            if v < 0x1_0000 {
                assert(e[0] == v as u16);
            } else {
                let w = v - 0x1_0000;
                assert(w / 0x400 <= 0x3FF && w % 0x400 <= 0x3FF) by (nonlinear_arith)
                    requires
                        0 <= w <= 0xF_FFFF,
                ;
            }
        }
        let all = encode_utf16(s.drop_last()) + e;
        assert forall|k: int| 0 <= k < all.len() implies all[k] != 0u16 by {
            if k < encode_utf16(s.drop_last()).len() {
                assert(encode_utf16(s.drop_last())[k] == all[k]);
            } else {
                assert(e[k - encode_utf16(s.drop_last()).len()] == all[k]);
            }
        }
    }
}

/// Units without zero decode to characters without NUL.
pub proof fn lemma_decode_without_nul(units: Seq<u16>)
    requires
        !units.contains(0u16),
    ensures
        decode_utf16(units) matches Some(s) ==> !s.contains('\0'),
    decreases units.len(),
{
    if units.len() == 0 {
    } else if !is_high_surrogate(units[0]) && !is_low_surrogate(units[0]) {
        let rest = units.drop_first();
        assert forall|u: u16| rest.contains(u) implies units.contains(u) by {
            let k = choose|k: int| 0 <= k < rest.len() && rest[k] == u;
            assert(units[k + 1] == u);
        }
        lemma_decode_without_nul(rest);
        assert(units[0] != 0u16) by {
            assert(units.contains(units[0]));
        }
        if let Some(t) = decode_utf16(rest) {
            let s = seq![(units[0] as u32) as char] + t;
            assert(((units[0] as u32) as char) != '\0');
            assert forall|k: int| 0 <= k < s.len() implies s[k] != '\0' by {
                if k > 0 {
                    assert(s[k] == t[k - 1]);
                    assert(t.contains(t[k - 1]));
                }
            }
        }
    } else if is_high_surrogate(units[0]) && units.len() >= 2 && is_low_surrogate(units[1]) {
        let rest = units.skip(2);
        assert forall|u: u16| rest.contains(u) implies units.contains(u) by {
            let k = choose|k: int| 0 <= k < rest.len() && rest[k] == u;
            assert(units[k + 2] == u);
        }
        lemma_decode_without_nul(rest);
        let v = 0x1_0000 + (units[0] - 0xD800) * 0x400 + (units[1] - 0xDC00);
        if let Some(t) = decode_utf16(rest) {
            let s = seq![(v as u32) as char] + t;
            assert(((v as u32) as char) != '\0');
            assert forall|k: int| 0 <= k < s.len() implies s[k] != '\0' by {
                if k > 0 {
                    assert(s[k] == t[k - 1]);
                    assert(t.contains(t[k - 1]));
                }
            }
        }
    }
}

} // verus!

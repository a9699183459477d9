use vstd::prelude::*;

verus! {

/// Pixel data of four 8-bit bands with the first and third band of every
/// pixel swapped, which turns R,G,B,A into the B,G,R,A order that GDI reads.
/// Bytes after the last whole pixel stay as they are.
pub open spec fn swap_red_blue(pixels: Seq<u8>) -> Seq<u8>
    decreases pixels.len(),
{
    if pixels.len() < 4 {
        pixels
    } else {
        seq![pixels[2], pixels[1], pixels[0], pixels[3]] + swap_red_blue(pixels.skip(4))
    }
}

/// Reorders the R,G,B,A pixels that libvips holds into the B,G,R,A pixels of
/// a 32-bit GDI bitmap.
pub fn rgba_to_bgra(pixels: &[u8]) -> (out: Vec<u8>)
    ensures
        out@ == swap_red_blue(pixels@),
        out@.len() == pixels@.len(),
        forall|i: int|
            #![trigger out@[4 * i]]
            0 <= i && 4 * i + 4 <= pixels@.len() ==> {
                &&& out@[4 * i] == pixels@[4 * i + 2]
                &&& out@[4 * i + 1] == pixels@[4 * i + 1]
                &&& out@[4 * i + 2] == pixels@[4 * i]
                &&& out@[4 * i + 3] == pixels@[4 * i + 3]
            },
        forall|k: int|
            #![trigger out@[k]]
            pixels@.len() - pixels@.len() % 4 <= k < pixels@.len() ==> out@[k] == pixels@[k],
{
    let n = pixels.len();
    let mut out: Vec<u8> = Vec::new();
    let mut i: usize = 0;
    assert(pixels@.skip(0) == pixels@);
    while n - i >= 4
        invariant
            n == pixels@.len(),
            i <= n,
            out@ + swap_red_blue(pixels@.skip(i as int)) == swap_red_blue(pixels@),
        decreases n - i,
    {
        let ghost rest = pixels@.skip(i as int);
        assert(rest.skip(4) == pixels@.skip(i + 4));
        assert(rest[0] == pixels@[i as int] && rest[1] == pixels@[i + 1] && rest[2] == pixels@[i
            + 2] && rest[3] == pixels@[i + 3]);
        out.push(pixels[i + 2]);
        out.push(pixels[i + 1]);
        out.push(pixels[i]);
        out.push(pixels[i + 3]);
        i = i + 4;
    }
    while i < n
        invariant
            n == pixels@.len(),
            i <= n,
            n - i < 4,
            out@ + pixels@.skip(i as int) == swap_red_blue(pixels@),
        decreases n - i,
    {
        assert(pixels@.skip(i as int) == seq![pixels@[i as int]] + pixels@.skip(i + 1));
        out.push(pixels[i]);
        i = i + 1;
    }
    assert(pixels@.skip(n as int) =~= Seq::<u8>::empty());
    assert(out@ + Seq::<u8>::empty() =~= out@);
    proof {
        law_swap_red_blue_per_pixel(pixels@);
    }
    out
}

/// The swap keeps the length, and pixel `i` of the result is pixel `i` of the
/// input with its first and third byte exchanged.
pub proof fn law_swap_red_blue_per_pixel(pixels: Seq<u8>)
    ensures
        swap_red_blue(pixels).len() == pixels.len(),
        forall|i: int|
            #![trigger swap_red_blue(pixels)[4 * i]]
            0 <= i && 4 * i + 4 <= pixels.len() ==> {
                &&& swap_red_blue(pixels)[4 * i] == pixels[4 * i + 2]
                &&& swap_red_blue(pixels)[4 * i + 1] == pixels[4 * i + 1]
                &&& swap_red_blue(pixels)[4 * i + 2] == pixels[4 * i]
                &&& swap_red_blue(pixels)[4 * i + 3] == pixels[4 * i + 3]
            },
        forall|k: int|
            #![trigger swap_red_blue(pixels)[k]]
            pixels.len() - pixels.len() % 4 <= k < pixels.len() ==> swap_red_blue(pixels)[k]
                == pixels[k],
    decreases pixels.len(),
{
    if pixels.len() >= 4 {
        let rest = pixels.skip(4);
        law_swap_red_blue_per_pixel(rest);
        let head = seq![pixels[2], pixels[1], pixels[0], pixels[3]];
        let out = swap_red_blue(pixels);
        assert(out == head + swap_red_blue(rest));
        assert forall|i: int|
            #![trigger swap_red_blue(pixels)[4 * i]]
            0 <= i && 4 * i + 4 <= pixels.len() implies {
                &&& out[4 * i] == pixels[4 * i + 2]
                &&& out[4 * i + 1] == pixels[4 * i + 1]
                &&& out[4 * i + 2] == pixels[4 * i]
                &&& out[4 * i + 3] == pixels[4 * i + 3]
            } by {
            if i > 0 {
                let j = i - 1;
                assert(4 * i == 4 * j + 4);
                assert(swap_red_blue(rest)[4 * j] == rest[4 * j + 2]);
                assert(out[4 * i] == swap_red_blue(rest)[4 * j]);
                assert(out[4 * i + 1] == swap_red_blue(rest)[4 * j + 1]);
                assert(out[4 * i + 2] == swap_red_blue(rest)[4 * j + 2]);
                assert(out[4 * i + 3] == swap_red_blue(rest)[4 * j + 3]);
            }
        }
        assert forall|k: int|
            #![trigger swap_red_blue(pixels)[k]]
            pixels.len() - pixels.len() % 4 <= k < pixels.len() implies out[k] == pixels[k] by {
            assert(rest.len() % 4 == pixels.len() % 4);
            assert(out[k] == swap_red_blue(rest)[k - 4]);
        }
    }
}

} // verus!

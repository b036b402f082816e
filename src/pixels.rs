use vstd::prelude::*;

verus! {

/// Index of the RGBA byte that lands at position `i` of the ARGB buffer.
pub open spec fn argb_source(i: int) -> int {
    if i % 4 == 0 { i + 3 } else { i - 1 }
}

/// Index of the ARGB byte that lands at position `i` of the RGBA buffer.
pub open spec fn rgba_source(i: int) -> int {
    if i % 4 == 3 { i - 3 } else { i + 1 }
}

/// Every pixel of an RGBA buffer moved to alpha-red-green-blue order.
pub open spec fn argb_of(rgba: Seq<u8>) -> Seq<u8> {
    Seq::new(rgba.len(), |i: int| rgba[argb_source(i)])
}

/// Every pixel of an ARGB buffer moved back to red-green-blue-alpha order.
pub open spec fn rgba_of(argb: Seq<u8>) -> Seq<u8> {
    Seq::new(argb.len(), |i: int| argb[rgba_source(i)])
}

/// Reorders each 4-byte pixel from red-green-blue-alpha to alpha-red-green-blue.
pub fn rgba_to_argb(rgba_bytes: &[u8]) -> (argb: Vec<u8>)
    requires
        rgba_bytes@.len() % 4 == 0,
    ensures
        argb@ == argb_of(rgba_bytes@),
{
    let n = rgba_bytes.len();
    let mut argb: Vec<u8> = Vec::with_capacity(n);
    let mut i: usize = 0;
    while i < n
        invariant
            n == rgba_bytes@.len(),
            n % 4 == 0,
            i % 4 == 0,
            i <= n,
            argb@ =~= argb_of(rgba_bytes@).take(i as int),
        decreases n - i,
    {
        argb.push(rgba_bytes[i + 3]);
        argb.push(rgba_bytes[i]);
        argb.push(rgba_bytes[i + 1]);
        argb.push(rgba_bytes[i + 2]);
        i = i + 4;
        assert(argb@ =~= argb_of(rgba_bytes@).take(i as int));
    }
    argb
}

/// Reorders each 4-byte pixel from alpha-red-green-blue back to red-green-blue-alpha.
pub fn argb_to_rgba(argb_bytes: &[u8]) -> (rgba: Vec<u8>)
    requires
        argb_bytes@.len() % 4 == 0,
    ensures
        rgba@ == rgba_of(argb_bytes@),
{
    let n = argb_bytes.len();
    let mut rgba: Vec<u8> = Vec::with_capacity(n);
    let mut i: usize = 0;
    while i < n
        invariant
            n == argb_bytes@.len(),
            n % 4 == 0,
            i % 4 == 0,
            i <= n,
            rgba@ =~= rgba_of(argb_bytes@).take(i as int),
        decreases n - i,
    {
        rgba.push(argb_bytes[i + 1]);
        rgba.push(argb_bytes[i + 2]);
        rgba.push(argb_bytes[i + 3]);
        rgba.push(argb_bytes[i]);
        i = i + 4;
        assert(rgba@ =~= rgba_of(argb_bytes@).take(i as int));
    }
    rgba
}

/// Converting a well-formed RGBA buffer to ARGB and back gives the original buffer.
pub proof fn lemma_pixel_round_trip(rgba: Seq<u8>)
    requires
        rgba.len() % 4 == 0,
    ensures
        rgba_of(argb_of(rgba)) == rgba,
        argb_of(rgba).len() == rgba.len(),
{
    assert(rgba_of(argb_of(rgba)) =~= rgba);
}

} // verus!

use vstd::prelude::*;
use vstd::string::StringSliceAdditionalSpecFns;
use crate::reading::{BatteryReading, fill_color, fill_color_of, fill_width, fill_width_centi};
use crate::text::{centi_text, centi_to_text, int_text, int_to_text};

verus! {

/// `s` with every occurrence of the non-empty `pat`, taken from the left
/// without overlap, replaced by `rep`.
pub open spec fn replaced(s: Seq<u8>, pat: Seq<u8>, rep: Seq<u8>) -> Seq<u8>
    decreases s.len(),
{
    if pat.len() == 0 || s.len() < pat.len() {
        s
    } else if s.take(pat.len() as int) == pat {
        rep + replaced(s.skip(pat.len() as int), pat, rep)
    } else {
        seq![s[0]] + replaced(s.skip(1), pat, rep)
    }
}

fn matches_at(s: &[u8], i: usize, pat: &[u8]) -> (b: bool)
    requires
        i + pat@.len() <= s@.len(),
    ensures
        b == (s@.skip(i as int).take(pat@.len() as int) == pat@),
{
    let n = s.len();
    let mut j: usize = 0;
    while j < pat.len()
        invariant
            n == s@.len(),
            i + pat@.len() <= s@.len(),
            j <= pat@.len(),
            forall|k: int| 0 <= k < j ==> s@[i + k] == pat@[k],
        decreases pat@.len() - j,
    {
        if s[i + j] != pat[j] {
            assert(s@.skip(i as int).take(pat@.len() as int)[j as int] != pat@[j as int]);
            return false;
        }
        j = j + 1;
    }
    assert(s@.skip(i as int).take(pat@.len() as int) =~= pat@);
    true
}

fn append_bytes(out: &mut Vec<u8>, more: &[u8])
    ensures
        final(out)@ == old(out)@ + more@,
{
    let mut j: usize = 0;
    while j < more.len()
        invariant
            j <= more@.len(),
            out@ == old(out)@ + more@.take(j as int),
        decreases more@.len() - j,
    {
        out.push(more[j]);
        j = j + 1;
        assert(out@ =~= old(out)@ + more@.take(j as int));
    }
    assert(more@.take(more@.len() as int) =~= more@);
}

/// Replaces, from the left and without overlap, each occurrence of `pat` in `s` by `rep`.
pub fn replace_all(s: &[u8], pat: &[u8], rep: &[u8]) -> (r: Vec<u8>)
    requires
        pat@.len() > 0,
    ensures
        r@ == replaced(s@, pat@, rep@),
{
    let mut out: Vec<u8> = Vec::new();
    let mut i: usize = 0;
    assert(s@.skip(0) =~= s@);
    while i < s.len()
        invariant
            pat@.len() > 0,
            i <= s@.len(),
            out@ + replaced(s@.skip(i as int), pat@, rep@) == replaced(s@, pat@, rep@),
        decreases s@.len() - i,
    {
        let ghost rest = s@.skip(i as int);
        if s.len() - i < pat.len() {
            append_bytes(&mut out, tail_from(s, i));
            i = s.len();
            assert(s@.skip(i as int) =~= Seq::<u8>::empty());
            assert(out@ + replaced(s@.skip(i as int), pat@, rep@) =~= out@);
        } else if matches_at(s, i, pat) {
            append_bytes(&mut out, rep);
            assert(rest.skip(pat@.len() as int) =~= s@.skip(i + pat@.len()));
            i = i + pat.len();
            assert(out@ + replaced(s@.skip(i as int), pat@, rep@) =~= replaced(s@, pat@, rep@));
        } else {
            out.push(s[i]);
            assert(rest.skip(1) =~= s@.skip(i + 1));
            i = i + 1;
            assert(out@ + replaced(s@.skip(i as int), pat@, rep@) =~= replaced(s@, pat@, rep@));
        }
    }
    assert(s@.skip(s@.len() as int) =~= Seq::<u8>::empty());
    assert(out@ =~= replaced(s@, pat@, rep@));
    out
}

fn tail_from(s: &[u8], i: usize) -> (t: &[u8])
    requires
        i <= s@.len(),
    ensures
        t@ == s@.skip(i as int),
{
    let t = vstd::slice::slice_subrange(s, i, s.len());
    assert(t@ =~= s@.skip(i as int));
    t
}

/// Vector drawing of the icon, with three placeholders: `BAT` for the level
/// text, `FG_COLOR` for the fill colour and `WIDTH` for the fill width.
pub const ICON_TEMPLATE: &'static str = "<svg xmlns=\"http://www.w3.org/2000/svg\" width=\"512\" height=\"512\" viewBox=\"0 0 128 128\"><rect x=\"4\" y=\"32\" width=\"108\" height=\"64\" rx=\"8\" fill=\"#333333\"/><rect x=\"112\" y=\"50\" width=\"12\" height=\"28\" rx=\"3\" fill=\"#333333\"/><rect x=\"4\" y=\"32\" width=\"WIDTH\" height=\"64\" rx=\"8\" fill=\"#FG_COLOR\"/><text x=\"58\" y=\"78\" font-size=\"40\" font-family=\"sans-serif\" font-weight=\"bold\" text-anchor=\"middle\" fill=\"#7f7f7f\">BAT</text></svg>";

/// The placeholder for the level text.
pub open spec fn level_token() -> Seq<u8> {
    seq![66u8, 65, 84]
}

/// The placeholder for the fill colour.
pub open spec fn color_token() -> Seq<u8> {
    seq![70u8, 71, 95, 67, 79, 76, 79, 82]
}

/// The placeholder for the fill width.
pub open spec fn width_token() -> Seq<u8> {
    seq![87u8, 73, 68, 84, 72]
}

/// The template with its level, colour and width placeholders replaced, in
/// that order, by the reading's level, fill colour and fill width.
pub open spec fn icon_document(r: BatteryReading) -> Seq<u8> {
    let with_level = replaced(ICON_TEMPLATE.spec_bytes(), level_token(), int_text(r.level as int));
    let with_color = replaced(with_level, color_token(), fill_color_of(r));
    replaced(with_color, width_token(), centi_text(fill_width_centi(r.level as int)))
}

/// The vector document that draws the icon of a reading.
pub fn render_document(r: &BatteryReading) -> (doc: Vec<u8>)
    ensures
        doc@ == icon_document(*r),
{
    let level_text = int_to_text(r.level as i64);
    let color = fill_color(r);
    let width_text = centi_to_text(fill_width(r));
    let level_pat: Vec<u8> = vec![66u8, 65, 84];
    let color_pat: Vec<u8> = vec![70u8, 71, 95, 67, 79, 76, 79, 82];
    let width_pat: Vec<u8> = vec![87u8, 73, 68, 84, 72];
    assert(level_pat@ =~= level_token());
    assert(color_pat@ =~= color_token());
    assert(width_pat@ =~= width_token());
    let with_level = replace_all(ICON_TEMPLATE.as_bytes(), level_pat.as_slice(), level_text.as_slice());
    let with_color = replace_all(with_level.as_slice(), color_pat.as_slice(), color.as_slice());
    replace_all(with_color.as_slice(), width_pat.as_slice(), width_text.as_slice())
}

/// Equal readings give the same vector document, byte for byte.
pub proof fn lemma_document_deterministic(a: BatteryReading, b: BatteryReading)
    requires
        a == b,
    ensures
        icon_document(a) == icon_document(b),
{
}

} // verus!

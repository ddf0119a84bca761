//! Character sequences: the Unicode services the line model relies on, and
//! small helpers over `Seq<char>`.
use unicode_segmentation::UnicodeSegmentation;
use unicode_width::UnicodeWidthStr;
use vstd::prelude::*;
use vstd::std_specs::iter::IteratorSpec;

verus! {

/// The extended grapheme clusters of a text, in order.
pub uninterp spec fn grapheme_clusters(s: Seq<char>) -> Seq<Seq<char>>;

/// The number of terminal columns a text occupies.
pub uninterp spec fn display_width(s: Seq<char>) -> nat;

/// The concatenation of a sequence of texts, in order.
pub open spec fn joined(gs: Seq<Seq<char>>) -> Seq<char>
    decreases gs.len(),
{
    if gs.len() == 0 {
        Seq::empty()
    } else {
        joined(gs.drop_last()) + gs.last()
    }
}

/// Every character is printable ASCII (space through tilde).
pub open spec fn is_printable_ascii(s: Seq<char>) -> bool {
    forall|i: int| 0 <= i < s.len() ==> ' ' <= #[trigger] s[i] <= '~'
}

pub proof fn lemma_joined_push(gs: Seq<Seq<char>>, g: Seq<char>)
    ensures
        joined(gs.push(g)) == joined(gs) + g,
{
    assert(gs.push(g).drop_last() =~= gs);
}

pub proof fn lemma_joined_concat(a: Seq<Seq<char>>, b: Seq<Seq<char>>)
    ensures
        joined(a + b) == joined(a) + joined(b),
    decreases b.len(),
{
    if b.len() == 0 {
        assert(a + b =~= a);
        assert(joined(a) + joined(b) =~= joined(a));
    } else {
        lemma_joined_concat(a, b.drop_last());
        assert((a + b).drop_last() =~= a + b.drop_last());
        assert(joined(a) + joined(b) =~= joined(a) + joined(b.drop_last()) + b.last());
    }
}

pub proof fn lemma_joined_split(gs: Seq<Seq<char>>, i: int)
    requires
        0 <= i <= gs.len(),
    ensures
        joined(gs) == joined(gs.take(i)) + joined(gs.skip(i)),
{
    assert(gs =~= gs.take(i) + gs.skip(i));
    lemma_joined_concat(gs.take(i), gs.skip(i));
}

/// Every character is a visible ASCII character (printable, not a space).
pub open spec fn is_graphic_ascii(s: Seq<char>) -> bool {
    forall|i: int| 0 <= i < s.len() ==> '!' <= #[trigger] s[i] <= '~'
}

/// When a joined text is all visible ASCII, so is each piece.
pub proof fn lemma_joined_pieces_graphic(gs: Seq<Seq<char>>)
    requires
        is_graphic_ascii(joined(gs)),
    ensures
        forall|k: int| 0 <= k < gs.len() ==> is_graphic_ascii(#[trigger] gs[k]),
    decreases gs.len(),
{
    if gs.len() > 0 {
        let init = gs.drop_last();
        assert forall|i: int| 0 <= i < joined(init).len() implies '!' <= #[trigger] joined(init)[i] <= '~' by {
            assert(joined(gs)[i] == joined(init)[i]);
        }
        lemma_joined_pieces_graphic(init);
        assert forall|k: int| 0 <= k < gs.len() implies is_graphic_ascii(#[trigger] gs[k]) by {
            if k == gs.len() - 1 {
                assert forall|i: int| 0 <= i < gs[k].len() implies '!' <= #[trigger] gs[k][i] <= '~' by {
                    assert(joined(gs)[joined(init).len() + i] == gs[k][i]);
                }
            } else {
                assert(gs[k] == init[k]);
            }
        }
    }
}

/// Relies on `UnicodeSegmentation::graphemes` (extended clusters): it yields
/// consecutive, non-empty slices of the text that together cover it.
#[verifier::external_body]
pub(crate) fn split_graphemes(s: &str) -> (r: Vec<String>)
    ensures
        r@.map_values(|g: String| g@) == grapheme_clusters(s@),
        joined(r@.map_values(|g: String| g@)) == s@,
        forall|i: int| 0 <= i < r@.len() ==> (#[trigger] r@[i])@.len() > 0,
{
    s.graphemes(true).map(|g| g.to_string()).collect()
}

/// Relies on `UnicodeWidthStr::width`: its documented rules give each
/// printable ASCII character one column, with no ligature among them.
#[verifier::external_body]
pub(crate) fn str_width(s: &str) -> (r: usize)
    ensures
        r == display_width(s@),
        is_printable_ascii(s@) ==> r == s@.len(),
{
    s.width()
}

/// The characters of a text, in order.
pub(crate) fn chars_of(s: &str) -> (r: Vec<char>)
    ensures
        r@ == s@,
{
    broadcast use vstd::string::axiom_spec_iter, vstd::string::next_postcondition;

    let mut it = s.chars();
    let mut out: Vec<char> = Vec::new();
    loop
        invariant_except_break
            out@ + it.remaining() == s@,
            it.decrease() is Some,
        ensures
            out@ == s@,
        decreases it.decrease()->0,
    {
        match it.next() {
            Some(c) => {
                out.push(c);
            },
            None => {
                assert(it.remaining().len() == 0);
                break;
            },
        }
    }
    out
}

/// Relies on `String::from_iter` over characters: a string of exactly them.
#[verifier::external_body]
pub(crate) fn string_of(v: &Vec<char>) -> (r: String)
    ensures
        r@ == v@,
{
    v.iter().collect()
}

} // verus!

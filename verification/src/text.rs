//! Text helpers for the terminal bookkeeping: exact string comparison,
//! grapheme-aware line counting at a given terminal width, and the view of
//! a list of strings as a list of character sequences.
//!
//! The incremental renderer must know exactly how many terminal lines a
//! block of text occupied — wrapped lines included — so the next redraw can
//! erase precisely that many. The counting itself is a pure function of the
//! text's grapheme clusters and the width.

use vstd::prelude::*;

use unicode_segmentation::UnicodeSegmentation;

verus! {

/// The texts of a sequence of strings, character sequence by character
/// sequence.
pub open spec fn views_of(v: Seq<String>) -> Seq<Seq<char>> {
    v.map_values(|s: String| s@)
}

/// Whether two strings hold the same characters.
pub fn str_eq(a: &str, b: &str) -> (r: bool)
    ensures
        r == (a@ == b@),
{
    let a_owned: String = a.to_owned();
    let b_owned: String = b.to_owned();
    a_owned == b_owned
}

/// The grapheme clusters of a text, in order. Segmentation follows a fixed
/// published ruleset, so the clusters depend on the characters alone.
pub uninterp spec fn clusters_of(s: Seq<char>) -> Seq<Seq<char>>;

/// Relies on `unicode_segmentation::UnicodeSegmentation::graphemes` (with
/// extended clusters): it splits the text into its grapheme clusters, in
/// order; every cluster holds at least one character, so there are at most
/// as many clusters as characters.
#[verifier::external_body]
fn grapheme_clusters(text: &str) -> (r: Vec<String>)
    ensures
        views_of(r@) == clusters_of(text@),
        r@.len() <= text@.len(),
{
    UnicodeSegmentation::graphemes(text, true).map(|c| c.to_string()).collect()
}

/// The running tally of the counting loop, folded over the remaining
/// clusters: a carriage return or a byte-order mark on its own is ignored,
/// a newline ends the current line, and anything else widens it by one,
/// wrapping once the width is exceeded. One more than the tally comes out
/// at the end, for the line still open.
pub open spec fn spec_count_rest(
    clusters: Seq<Seq<char>>,
    line_count: int,
    width: int,
    max_width: int,
) -> int
    decreases clusters.len(),
{
    if clusters.len() == 0 {
        line_count + 1
    } else {
        let c = clusters[0];
        if c == seq!['\r'] || c == seq!['\u{FEFF}'] {
            spec_count_rest(clusters.drop_first(), line_count, width, max_width)
        } else if c == seq!['\n'] {
            spec_count_rest(clusters.drop_first(), line_count + 1, 0, max_width)
        } else if width + 1 > max_width {
            spec_count_rest(clusters.drop_first(), line_count + 1, c.len() as int, max_width)
        } else {
            spec_count_rest(clusters.drop_first(), line_count, width + 1, max_width)
        }
    }
}

/// How many terminal lines a sequence of grapheme clusters occupies at a
/// given width; an empty text occupies none.
pub open spec fn spec_count_lines(clusters: Seq<Seq<char>>, max_width: int) -> int {
    if clusters.len() == 0 {
        0
    } else {
        spec_count_rest(clusters, 0, 0, max_width)
    }
}

/// Counts terminal lines over an already-segmented text.
pub fn count_lines_clusters(clusters: &Vec<String>, max_width: usize) -> (n: usize)
    requires
        clusters@.len() < usize::MAX,
    ensures
        n == spec_count_lines(views_of(clusters@), max_width as int),
{
    let ghost all = views_of(clusters@);
    if clusters.len() == 0 {
        return 0;
    }
    let mut line_count: usize = 0;
    let mut width: usize = 0;
    let mut i: usize = 0;
    assert(views_of(clusters@).skip(0) =~= views_of(clusters@));
    while i < clusters.len()
        invariant
            i <= clusters@.len(),
            clusters@.len() < usize::MAX,
            line_count <= i,
            spec_count_rest(
                views_of(clusters@).skip(i as int),
                line_count as int,
                width as int,
                max_width as int,
            ) == spec_count_rest(views_of(clusters@), 0, 0, max_width as int),
        decreases clusters@.len() - i,
    {
        let ghost rest = views_of(clusters@).skip(i as int);
        proof {
            assert(rest[0] == clusters@[i as int]@);
            assert(rest.drop_first() =~= views_of(clusters@).skip(i as int + 1));
        }
        let cluster = &clusters[i];
        let cluster_len = cluster.as_str().unicode_len();
        if cluster_len == 1 {
            let c = cluster.as_str().get_char(0);
            if c == '\r' || c == '\u{FEFF}' {
                proof {
                    assert(cluster@ =~= seq![c]);
                }
            } else if c == '\n' {
                proof {
                    assert(cluster@ =~= seq!['\n']);
                    assert(cluster@ != seq!['\r'] && cluster@ != seq!['\u{FEFF}']);
                }
                line_count += 1;
                width = 0;
            } else {
                proof {
                    assert(cluster@ != seq!['\r'] && cluster@ != seq!['\u{FEFF}'] && cluster@
                        != seq!['\n']);
                }
                if width >= max_width {
                    line_count += 1;
                    width = cluster_len;
                } else {
                    width += 1;
                }
            }
        } else {
            proof {
                assert(cluster@ != seq!['\r'] && cluster@ != seq!['\u{FEFF}'] && cluster@
                    != seq!['\n']);
            }
            if width >= max_width {
                line_count += 1;
                width = cluster_len;
            } else {
                width += 1;
            }
        }
        i += 1;
    }
    proof {
        assert(views_of(clusters@).skip(i as int) =~= Seq::<Seq<char>>::empty());
    }
    line_count + 1
}

/// The number of terminal lines a text occupies at a given width, counting
/// grapheme clusters rather than bytes so multi-byte glyphs widen a line by
/// one. The one clause below that is conditional guards a machine limit a
/// real text cannot reach: more clusters than fit in a `usize` less one.
pub fn count_lines(text: &str, max_width: usize) -> (n: usize)
    ensures
        clusters_of(text@).len() < usize::MAX ==> n == spec_count_lines(
            clusters_of(text@),
            max_width as int,
        ),
        clusters_of(text@).len() >= usize::MAX ==> n == usize::MAX,
{
    let clusters = grapheme_clusters(text);
    if clusters.len() == usize::MAX {
        return usize::MAX;
    }
    count_lines_clusters(&clusters, max_width)
}

} // verus!

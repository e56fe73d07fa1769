//! Rendering of a chat response for the terminal: wrap the text to a fixed
//! column width and join the wrapped lines with newlines.

use vstd::prelude::*;
use vstd::string::StringExecFns;

verus! {

/// The lines `textwrap::wrap` breaks a text into at a given width. The
/// wrapping depends on the text and the width alone.
pub uninterp spec fn wrapped_lines(text: Seq<char>, width: int) -> Seq<Seq<char>>;

/// Relies on textwrap::wrap: break a text into lines at most `width`
/// columns wide, breaking at word boundaries. The result is a function of
/// the text and the width alone.
#[verifier::external_body]
fn wrap_text(text: &str, width: usize) -> (r: Vec<String>)
    ensures
        r.deep_view() == wrapped_lines(text@, width as int),
{
    textwrap::wrap(text, width).into_iter().map(|line| line.into_owned()).collect()
}

/// The lines joined back into one text, a newline between each two.
pub open spec fn joined_lines(lines: Seq<Seq<char>>) -> Seq<char>
    decreases lines.len(),
{
    if lines.len() == 0 {
        Seq::empty()
    } else if lines.len() == 1 {
        lines[0]
    } else {
        joined_lines(lines.drop_last()) + "\n"@ + lines.last()
    }
}

/// Wrap a chat response to the given column width, one line per row.
pub fn format_response(text: &str, width: usize) -> (r: String)
    ensures
        r@ == joined_lines(wrapped_lines(text@, width as int)),
{
    let lines = wrap_text(text, width);
    let ghost all = lines.deep_view();
    proof {
        assert(all.take(0) =~= Seq::<Seq<char>>::empty());
    }
    let mut out = String::new();
    let mut i: usize = 0;
    while i < lines.len()
        invariant
            i <= lines@.len(),
            all == lines.deep_view(),
            out@ == joined_lines(all.take(i as int)),
        decreases lines@.len() - i,
    {
        proof {
            assert(all.take(i + 1).drop_last() =~= all.take(i as int));
            assert(all.take(i + 1).last() == all[i as int]);
            if i == 0 {
                assert(all.take(1)[0] == all[0]);
            }
        }
        if i > 0 {
            out.append("\n");
        }
        out.append(lines[i].as_str());
        i = i + 1;
    }
    proof {
        assert(all.take(lines@.len() as int) =~= all);
    }
    out
}

} // verus!

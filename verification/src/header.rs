//! Computing the decorative header lines shown above the selection
//! list. The library only builds the text; writing it to the terminal
//! is the caller's business.

use vstd::prelude::*;
use vstd::string::*;

use crate::session::{spec_path_text, AbsPath};
use crate::text::{append_repeated, push_char, spec_repeat};

verus! {

/// Width of the blank margin that frames centered header content.
pub const PADDING: usize = 10;

/// A border line: the border character, the filler text repeated, the
/// border character again.
pub open spec fn spec_filler_line(total_len: nat, border: char, filler: Seq<char>) -> Seq<char> {
    seq![border] + spec_repeat(filler, total_len) + seq![border]
}

/// A centered content line between `|` borders: the margin is the
/// frame padding plus half of the width left over by the content.
pub open spec fn spec_content_line(base_len: nat, content: Seq<char>) -> Seq<char> {
    let pad = (PADDING + (base_len - content.len()) / 2) as nat;
    seq!['|'] + spec_repeat(seq![' '], pad) + content + spec_repeat(seq![' '], pad) + seq!['|']
}

/// One framing line of the header: a border character at each end and
/// the filler text repeated `total_len` times between them.
pub fn filler_line(total_len: usize, border_symbol: char, filler_symbol: String) -> (r: String)
    ensures
        r@ == spec_filler_line(total_len as nat, border_symbol, filler_symbol@),
{
    let mut s = String::new();
    push_char(&mut s, border_symbol);
    append_repeated(&mut s, filler_symbol.as_str(), total_len);
    push_char(&mut s, border_symbol);
    proof {
        assert(s@ =~= spec_filler_line(total_len as nat, border_symbol, filler_symbol@));
    }
    s
}

/// One centered content line of the header.
pub fn content_line(base_len: usize, content: &str) -> (r: String)
    requires
        content@.len() <= base_len,
        base_len + 2 * PADDING <= usize::MAX,
    ensures
        r@ == spec_content_line(base_len as nat, content@),
{
    let clen = content.unicode_len();
    let pad = PADDING + (base_len - clen) / 2;
    proof {
        reveal_strlit(" ");
        assert(" "@ =~= seq![' ']);
    }
    let mut s = String::new();
    push_char(&mut s, '|');
    append_repeated(&mut s, " ", pad);
    s.append(content);
    append_repeated(&mut s, " ", pad);
    push_char(&mut s, '|');
    proof {
        assert(s@ =~= spec_content_line(base_len as nat, content@));
    }
    s
}

/// The seven header lines for one loop iteration: a starred border, a
/// centered title, a blank framed line, the centered working
/// directory, the border again, the current directory, and a closing
/// line of equals signs.
pub open spec fn spec_header_lines(origin: Seq<Seq<char>>, current: Seq<Seq<char>>) -> Seq<
    Seq<char>,
> {
    let orig_text = "Working Directory << "@ + spec_path_text(origin) + " >>"@;
    let base = orig_text.len();
    let total = (base + 2 * PADDING) as nat;
    seq![
        spec_filler_line(total, '*', "-"@),
        spec_content_line(base, "TERM-NAVIGATOR"@),
        spec_filler_line(total, '|', " "@),
        spec_content_line(base, orig_text),
        spec_filler_line(total, '*', "-"@),
        "The current directory is "@ + spec_path_text(current),
        spec_filler_line(total, '=', "="@),
    ]
}

/// Computes the header lines for the given origin and current
/// directory, in display order.
pub fn display_header(origin: &AbsPath, current: &AbsPath) -> (r: Vec<String>)
    requires
        spec_path_text(origin@).len() + 44 <= usize::MAX,
    ensures
        r.deep_view() == spec_header_lines(origin@, current@),
{
    proof {
        reveal_strlit("Working Directory << ");
        reveal_strlit(" >>");
        reveal_strlit("TERM-NAVIGATOR");
    }
    let origin_text = origin.render();
    let mut orig_dir_str = String::from_str("Working Directory << ");
    orig_dir_str.append(origin_text.as_str());
    orig_dir_str.append(" >>");
    let base_len = orig_dir_str.as_str().unicode_len();
    let total_len = base_len + 2 * PADDING;

    let border_line = filler_line(total_len, '*', String::from_str("-"));
    let title_line = content_line(base_len, "TERM-NAVIGATOR");
    let spaces_line = filler_line(total_len, '|', String::from_str(" "));
    let orig_dir_line = content_line(base_len, orig_dir_str.as_str());
    let border_line_again = border_line.clone();
    let mut curr_dir_line = String::from_str("The current directory is ");
    let current_text = current.render();
    curr_dir_line.append(current_text.as_str());
    let equals_line = filler_line(total_len, '=', String::from_str("="));

    let mut r: Vec<String> = Vec::new();
    r.push(border_line);
    r.push(title_line);
    r.push(spaces_line);
    r.push(orig_dir_line);
    r.push(border_line_again);
    r.push(curr_dir_line);
    r.push(equals_line);
    proof {
        assert(r.deep_view() =~= spec_header_lines(origin@, current@));
    }
    r
}

} // verus!

//! Result-table rendering: the search reply is a fixed-width,
//! borderless three-column table (id, title, performers), wrapped in a
//! code fence. Long titles and performer lists are clipped with an
//! ellipsis; the id column is padded but never clipped. An empty list
//! renders as a plain notice instead of a table.

use vstd::prelude::*;
use crate::structs::MusicPlayList;
use crate::text::{str_chars, subvec};

verus! {

/// Width of the id column, in characters.
pub const ID_WIDTH: usize = 25;

/// Width of the title column, in characters.
pub const NAME_WIDTH: usize = 30;

/// Width of the performers column, in characters.
pub const PLAYER_WIDTH: usize = 30;

/// `n` spaces.
pub open spec fn spaces(n: int) -> Seq<char>
    decreases n,
{
    if n <= 0 {
        Seq::<char>::empty()
    } else {
        spaces(n - 1).push(' ')
    }
}

/// `s` padded with spaces up to width `w`; a longer `s` stands as it
/// is.
pub open spec fn pad_to(s: Seq<char>, w: int) -> Seq<char> {
    if s.len() >= w {
        s
    } else {
        s + spaces(w - s.len())
    }
}

/// `s` clipped to width `w`: a longer `s` keeps its first `w - 3`
/// characters and ends in an ellipsis.
pub open spec fn clip(s: Seq<char>, w: int) -> Seq<char> {
    if s.len() > w {
        s.take(w - 3) + seq!['.', '.', '.']
    } else {
        s
    }
}

/// One clipped, padded table cell of width `w`.
pub open spec fn cell(s: Seq<char>, w: int) -> Seq<char> {
    pad_to(clip(s, w), w)
}

/// The header row of the result table.
pub open spec fn header_row() -> Seq<char> {
    pad_to("ID"@, ID_WIDTH as int) + seq![' '] + pad_to("Name"@, NAME_WIDTH as int) + seq![' ']
        + pad_to("Player"@, PLAYER_WIDTH as int) + seq!['\n']
}

/// The table row of one track.
pub open spec fn row_of(t: MusicPlayList) -> Seq<char> {
    pad_to(t.id@, ID_WIDTH as int) + seq![' '] + cell(t.name@, NAME_WIDTH as int) + seq![' ']
        + cell(t.player@, PLAYER_WIDTH as int) + seq!['\n']
}

/// The rows of the whole list, in order.
pub open spec fn rows_of(l: Seq<MusicPlayList>) -> Seq<char>
    decreases l.len(),
{
    if l.len() == 0 {
        Seq::<char>::empty()
    } else {
        rows_of(l.drop_last()) + row_of(l.last())
    }
}

/// What the search reply shows for `l`: the fenced table, or the
/// empty-list notice.
pub open spec fn display_table(l: Seq<MusicPlayList>) -> Seq<char> {
    if l.len() == 0 {
        "List is empty"@
    } else {
        "```\n"@ + header_row() + rows_of(l) + "```"@
    }
}

/// Append the characters of `s` to `out`.
fn push_str_chars(out: &mut Vec<char>, s: &str)
    ensures
        final(out)@ == old(out)@ + s@,
{
    let n = s.unicode_len();
    let mut i: usize = 0;
    proof {
        assert(old(out)@ + s@.take(0) =~= old(out)@);
    }
    while i < n
        invariant
            i <= n,
            n == s@.len(),
            out@ == old(out)@ + s@.take(i as int),
        decreases n - i,
    {
        out.push(s.get_char(i));
        proof {
            assert(out@ =~= old(out)@ + s@.take(i + 1));
        }
        i += 1;
    }
    proof {
        assert(old(out)@ + s@.take(n as int) =~= old(out)@ + s@);
    }
}

/// Append `n` spaces to `out`.
fn push_spaces(out: &mut Vec<char>, n: usize)
    ensures
        final(out)@ == old(out)@ + spaces(n as int),
{
    let mut i: usize = 0;
    proof {
        assert(old(out)@ + spaces(0) =~= old(out)@);
    }
    while i < n
        invariant
            i <= n,
            out@ == old(out)@ + spaces(i as int),
        decreases n - i,
    {
        out.push(' ');
        proof {
            assert(out@ =~= old(out)@ + spaces(i + 1));
        }
        i += 1;
    }
}

/// Append the characters of `v` to `out`.
fn push_all(out: &mut Vec<char>, v: &Vec<char>)
    ensures
        final(out)@ == old(out)@ + v@,
{
    let mut i: usize = 0;
    proof {
        assert(old(out)@ + v@.take(0) =~= old(out)@);
    }
    while i < v.len()
        invariant
            i <= v@.len(),
            out@ == old(out)@ + v@.take(i as int),
        decreases v@.len() - i,
    {
        out.push(v[i]);
        proof {
            assert(out@ =~= old(out)@ + v@.take(i + 1));
        }
        i += 1;
    }
    proof {
        assert(old(out)@ + v@.take(v@.len() as int) =~= old(out)@ + v@);
    }
}

/// Append `s` padded (never clipped) to width `w`.
fn push_pad_to(out: &mut Vec<char>, s: &str, w: usize)
    ensures
        final(out)@ == old(out)@ + pad_to(s@, w as int),
{
    let cv = str_chars(s);
    push_all(out, &cv);
    if cv.len() < w {
        push_spaces(out, w - cv.len());
        proof {
            assert(old(out)@ + s@ + spaces(w - s@.len()) =~= old(out)@ + pad_to(s@, w as int));
        }
    }
}

/// Append the clipped, padded cell of `s` at width `w`.
fn push_cell(out: &mut Vec<char>, s: &str, w: usize)
    requires
        w >= 3,
    ensures
        final(out)@ == old(out)@ + cell(s@, w as int),
{
    let cv = str_chars(s);
    if cv.len() > w {
        let clipped = subvec(&cv, 0, w - 3);
        push_all(out, &clipped);
        out.push('.');
        out.push('.');
        out.push('.');
        proof {
            assert(s@.subrange(0, w - 3) =~= s@.take(w - 3));
            assert(out@ =~= old(out)@ + (s@.take(w - 3) + seq!['.', '.', '.']));
            assert(clip(s@, w as int).len() == w);
            assert(out@ =~= old(out)@ + cell(s@, w as int));
        }
    } else {
        push_all(out, &cv);
        if cv.len() < w {
            push_spaces(out, w - cv.len());
        }
        proof {
            assert(clip(s@, w as int) == s@);
            if s@.len() < w {
                assert(old(out)@ + s@ + spaces(w - s@.len()) =~= old(out)@ + cell(s@, w as int));
            } else {
                assert(out@ =~= old(out)@ + cell(s@, w as int));
            }
        }
    }
}

/// Render the search reply for `playlist`: the fenced fixed-width
/// table with one row per track, in list order — or the empty-list
/// notice when there is nothing to show.
pub fn format_display(playlist: &Vec<MusicPlayList>) -> (r: String)
    ensures
        r@ == display_table(playlist@),
{
    if playlist.len() == 0 {
        return "List is empty".to_owned();
    }
    let mut out: Vec<char> = Vec::new();
    push_str_chars(&mut out, "```\n");
    push_pad_to(&mut out, "ID", ID_WIDTH);
    out.push(' ');
    push_pad_to(&mut out, "Name", NAME_WIDTH);
    out.push(' ');
    push_pad_to(&mut out, "Player", PLAYER_WIDTH);
    out.push('\n');
    proof {
        assert(out@ =~= "```\n"@ + header_row());
        assert(rows_of(playlist@.take(0)) == Seq::<char>::empty());
        assert(out@ =~= "```\n"@ + header_row() + rows_of(playlist@.take(0)));
    }
    let mut i: usize = 0;
    while i < playlist.len()
        invariant
            i <= playlist@.len(),
            out@ == "```\n"@ + header_row() + rows_of(playlist@.take(i as int)),
        decreases playlist@.len() - i,
    {
        let item = &playlist[i];
        let ghost before = out@;
        push_pad_to(&mut out, item.id.as_str(), ID_WIDTH);
        out.push(' ');
        push_cell(&mut out, item.name.as_str(), NAME_WIDTH);
        out.push(' ');
        push_cell(&mut out, item.player.as_str(), PLAYER_WIDTH);
        out.push('\n');
        proof {
            assert(out@ =~= before + row_of(playlist@[i as int]));
            let t = playlist@.take(i + 1);
            assert(t.drop_last() =~= playlist@.take(i as int));
            assert(t.last() == playlist@[i as int]);
            assert(out@ =~= "```\n"@ + header_row() + rows_of(t));
        }
        i += 1;
    }
    proof {
        assert(playlist@.take(playlist@.len() as int) =~= playlist@);
    }
    push_str_chars(&mut out, "```");
    let r = crate::text::chars_to_string(&out);
    proof {
        assert(r@ =~= display_table(playlist@));
    }
    r
}

} // verus!

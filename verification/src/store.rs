//! The on-disk store's pure parts: where a unit file lives, and how a
//! registered domain is recovered from a stored file's first line.
//!
//! The store keeps one file per service, `<name>.service`, under the
//! fixed per-user directory `<home>/.config/systemd/user/`. Reading,
//! writing and deleting the file is the caller's input/output; the
//! naming and the recovery of the domain comment are decided here.

use vstd::prelude::*;

use crate::descriptor::DescriptorModel;
use crate::render::spec_domain_line;
use crate::render::spec_render;

verus! {

/// The path of the unit file of service `name`.
pub open spec fn spec_unit_path(home: Seq<char>, name: Seq<char>) -> Seq<char> {
    home + "/.config/systemd/user/"@ + name + ".service"@
}

/// Joins the fixed per-user directory and the unit file's basename.
pub fn unit_path(home: &str, name: &str) -> (r: String)
    ensures
        r@ == spec_unit_path(home@, name@),
{
    let mut out = String::from_str(home);
    out.append("/.config/systemd/user/");
    out.append(name);
    out.append(".service");
    proof {
        assert(out@ =~= spec_unit_path(home@, name@));
    }
    out
}

/// The index just past the first line of `s`: the position of the first
/// `'\n'` at or after `i`, or the length if there is none.
pub open spec fn spec_line_end(s: Seq<char>, i: int) -> int
    recommends
        0 <= i <= s.len(),
    decreases s.len() - i,
{
    if i < 0 || i >= s.len() {
        s.len() as int
    } else if s[i] == '\n' {
        i
    } else {
        spec_line_end(s, i + 1)
    }
}

/// Where a run without `'\n'` ends at `k`, the first line ends at `k`.
pub proof fn lemma_line_end_at(s: Seq<char>, i: int, k: int)
    requires
        0 <= i <= k <= s.len(),
        forall|j: int| i <= j < k ==> s[j] != '\n',
        k < s.len() ==> s[k] == '\n',
    ensures
        spec_line_end(s, i) == k,
    decreases k - i,
{
    if i < k {
        lemma_line_end_at(s, i + 1, k);
    }
}

/// The first line of a stored unit text, if it is a domain comment:
/// `Some` of the line (marker included, terminator excluded) when the
/// text starts with `'#'`, else `None`.
pub open spec fn spec_read_first_line(s: Seq<char>) -> Option<Seq<char>> {
    if s.len() > 0 && s[0] == '#' {
        Some(s.subrange(0, spec_line_end(s, 0)))
    } else {
        None
    }
}

/// Returns the first line of a stored unit text when that line is a
/// domain comment, exactly as [`spec_read_first_line`] states.
pub fn read_first_line(text: &str) -> (r: Option<String>)
    ensures
        r.deep_view() == spec_read_first_line(text@),
{
    let len = text.unicode_len();
    if len == 0 || text.get_char(0) != '#' {
        return None;
    }
    let mut i: usize = 1;
    while i < len && text.get_char(i) != '\n'
        invariant
            1 <= i <= len,
            len == text@.len(),
            text@.len() > 0 && text@[0] == '#',
            forall|j: int| 0 <= j < i ==> text@[j] != '\n',
        decreases len - i,
    {
        i = i + 1;
    }
    proof {
        lemma_line_end_at(text@, 0, i as int);
    }
    let line = text.substring_char(0, i);
    Some(String::from_str(line))
}

/// The domain named by a recovered comment line: the line without its
/// leading marker.
pub open spec fn spec_comment_domain(line: Seq<char>) -> Seq<char> {
    line.subrange(1, line.len() as int)
}

/// Round trip: a rendered-and-stored unit text gives the registered
/// domain back. When the descriptor has `registered_domain` `Some(x)`
/// (and `x`, an interactive one-line answer, holds no line break), the
/// stored text's first line is the comment `#x`; when it has `None`,
/// the stored text has no leading comment line.
pub proof fn lemma_render_round_trip(d: DescriptorModel)
    requires
        d.registered_domain matches Some(x) ==> !x.contains('\n'),
    ensures
        d.registered_domain matches Some(x) ==> spec_read_first_line(spec_render(d)) == Some(
            "#"@ + x,
        ),
        d.registered_domain matches Some(x) ==> spec_comment_domain(
            spec_read_first_line(spec_render(d)).unwrap(),
        ) == x,
        d.registered_domain is None ==> spec_read_first_line(spec_render(d)) is None,
{
    reveal_strlit("#");
    reveal_strlit("\n");
    reveal_strlit("[Unit]\nDescription=");
    let t = spec_render(d);
    match d.registered_domain {
        Some(x) => {
            let line = "#"@ + x;
            let k = 1 + x.len() as int;
            assert(spec_domain_line(d) == line + "\n"@);
            assert(forall|j: int| 0 <= j < k ==> t[j] == line[j]);
            assert(forall|j: int| 1 <= j < k ==> line[j] == x[j - 1]);
            assert(forall|j: int| 0 <= j < x.len() ==> x[j] != '\n') by {
                assert(forall|j: int|
                    0 <= j < x.len() && x[j] == '\n' ==> x.contains('\n'));
            }
            assert(t[k] == '\n');
            lemma_line_end_at(t, 0, k);
            assert(t.subrange(0, k) =~= line);
            assert(spec_comment_domain(line) =~= x);
        },
        None => {
            assert(t[0] == '[');
        },
    }
}

} // verus!

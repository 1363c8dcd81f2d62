use vstd::prelude::*;

verus! {

/// What `str::escape_debug` makes of a line: printable characters as they
/// are, others as escape sequences.
pub uninterp spec fn escape_debug_of(s: Seq<char>) -> Seq<char>;

/// Relies on std's `str::escape_debug`, collected into a `String`: the
/// escaped form depends on the characters of the line alone.
#[verifier::external_body]
fn escape_line(line: &str) -> (r: String)
    ensures
        r@ == escape_debug_of(line@),
{
    line.escape_debug().to_string()
}

/// Relies on std's `String::push_str`, which appends `t` to `s`.
#[verifier::external_body]
fn append(s: &mut String, t: &str)
    ensures
        final(s)@ == old(s)@ + t@,
{
    s.push_str(t)
}

/// Lines joined into one text, each followed by a line break.
pub open spec fn joined_lines(lines: Seq<Seq<char>>) -> Seq<char>
    decreases lines.len(),
{
    if lines.len() == 0 {
        Seq::empty()
    } else {
        joined_lines(lines.drop_last()) + lines.last() + seq!['\n']
    }
}

/// The text captured from a subprocess whose output came as `lines`: each
/// line escaped, followed by a line break.
pub open spec fn captured_of(lines: Seq<String>) -> Seq<char> {
    joined_lines(lines.map_values(|l: String| escape_debug_of(l@)))
}

/// `lines`, already escaped, joined into one text, each followed by a line
/// break.
pub fn join_escaped(lines: &Vec<String>) -> (r: String)
    ensures
        r@ == joined_lines(lines@.map_values(|l: String| l@)),
{
    let ghost views = lines@.map_values(|l: String| l@);
    let mut out = String::new();
    let mut i: usize = 0;
    while i < lines.len()
        invariant
            i <= lines@.len(),
            views == lines@.map_values(|l: String| l@),
            out@ == joined_lines(views.take(i as int)),
        decreases lines@.len() - i,
    {
        append(&mut out, lines[i].as_str());
        let ghost before = out@;
        append(&mut out, "\n");
        proof {
            reveal_strlit("\n");
            assert(views.take(i + 1).drop_last() =~= views.take(i as int));
        }
        i = i + 1;
    }
    proof {
        assert(views.take(lines@.len() as int) =~= views);
    }
    out
}

/// The captured text for the output `lines` of a subprocess: each line with
/// its non-printable characters escaped, followed by a line break.
pub fn captured_text(lines: &Vec<String>) -> (r: String)
    ensures
        r@ == captured_of(lines@),
{
    let mut escaped: Vec<String> = Vec::new();
    let mut i: usize = 0;
    while i < lines.len()
        invariant
            i <= lines@.len(),
            escaped@.len() == i,
            forall|j: int| 0 <= j < i ==> escaped@[j]@ == escape_debug_of(lines@[j]@),
        decreases lines@.len() - i,
    {
        escaped.push(escape_line(lines[i].as_str()));
        i = i + 1;
    }
    let r = join_escaped(&escaped);
    proof {
        assert(escaped@.map_values(|l: String| l@) =~= lines@.map_values(
            |l: String| escape_debug_of(l@),
        ));
    }
    r
}

} // verus!

use vstd::prelude::*;

verus! {

/// Relies on `String::push`: appends one character at the end.
pub assume_specification[ String::push ](s: &mut String, ch: char)
    ensures
        final(s)@ == old(s)@.push(ch),
;

/// What `strip_ansi_escapes::strip_str` leaves of a text; it depends on the text alone.
pub uninterp spec fn ansi_stripped(s: Seq<char>) -> Seq<char>;

/// Relies on `strip_ansi_escapes::strip_str`: removes terminal escape sequences.
#[verifier::external_body]
fn strip_ansi(s: &String) -> (r: String)
    ensures
        r@ == ansi_stripped(s@),
{
    strip_ansi_escapes::strip_str(s)
}

/// The characters of `s`, in order.
pub fn chars_of(s: &str) -> (r: Vec<char>)
    ensures
        r@ == s@,
{
    let mut r: Vec<char> = Vec::new();
    for c in it: s.chars()
        invariant
            r@ == it.seq().take(it.index() as int),
            it.seq() == s@,
    {
        r.push(c);
    }
    r
}

/// Line breaks and tabs, the characters that would break a one-line rendering.
pub open spec fn is_layout_control(c: char) -> bool {
    c == '\n' || c == '\t'
}

/// `s` with each line break and tab turned into a space.
pub open spec fn spaced(s: Seq<char>) -> Seq<char> {
    s.map_values(|c: char| if is_layout_control(c) { ' ' } else { c })
}

/// A sanitized log line: layout controls become spaces, then escape sequences are stripped.
pub open spec fn sanitized(s: Seq<char>) -> Seq<char> {
    ansi_stripped(spaced(s))
}

/// Replaces every line break and tab of `s` with a space.
pub fn replace_layout_controls(s: &str) -> (r: String)
    ensures
        r@ == spaced(s@),
{
    let mut r = String::new();
    for c in it: s.chars()
        invariant
            r@ == spaced(it.seq().take(it.index() as int)),
            it.seq() == s@,
    {
        let ghost before = r@;
        if c == '\n' || c == '\t' {
            r.push(' ');
        } else {
            r.push(c);
        }
        proof {
            let done = it.seq().take(it.index() as int);
            assert(done.push(c) =~= it.seq().take(it.index() + 1));
            assert(spaced(done.push(c)) =~= spaced(done).push(if is_layout_control(c) { ' ' } else { c }));
        }
    }
    proof {
        assert(s@.take(s@.len() as int) =~= s@);
    }
    r
}

/// Turns a raw log line into the text that is displayed and kept.
pub fn sanitize(line: &str) -> (r: String)
    ensures
        r@ == sanitized(line@),
{
    let spaced_line = replace_layout_controls(line);
    strip_ansi(&spaced_line)
}

/// Spacing is idempotent, and what it returns holds no line break and no tab.
pub proof fn lemma_spacing_idempotent(s: Seq<char>)
    ensures
        spaced(spaced(s)) == spaced(s),
        forall|i: int| 0 <= i < spaced(s).len() ==> !is_layout_control(#[trigger] spaced(s)[i]),
{
    assert(spaced(spaced(s)) =~= spaced(s));
}

} // verus!

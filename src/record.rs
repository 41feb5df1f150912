use vstd::prelude::*;

use crate::text::{chars_of, sanitize, sanitized};

verus! {

/// The colors that source prefixes are drawn in.
#[derive(Clone, Copy, Debug, PartialEq, Eq, Structural)]
pub enum Color {
    Red,
    DarkRed,
    Green,
    DarkGreen,
    Yellow,
    DarkYellow,
    Blue,
    DarkBlue,
    Magenta,
    DarkMagenta,
    Cyan,
    DarkCyan,
}

/// Number of colors in the palette.
pub const PALETTE_SIZE: u64 = 12;

/// The palette, in its fixed order.
pub open spec fn palette_spec(i: int) -> Color {
    if i == 0 {
        Color::Red
    } else if i == 1 {
        Color::DarkRed
    } else if i == 2 {
        Color::Green
    } else if i == 3 {
        Color::DarkGreen
    } else if i == 4 {
        Color::Yellow
    } else if i == 5 {
        Color::DarkYellow
    } else if i == 6 {
        Color::Blue
    } else if i == 7 {
        Color::DarkBlue
    } else if i == 8 {
        Color::Magenta
    } else if i == 9 {
        Color::DarkMagenta
    } else if i == 10 {
        Color::Cyan
    } else {
        Color::DarkCyan
    }
}

/// The color at position `i` of the palette.
pub fn palette(i: u64) -> (c: Color)
    requires
        i < PALETTE_SIZE,
    ensures
        c == palette_spec(i as int),
{
    if i == 0 {
        Color::Red
    } else if i == 1 {
        Color::DarkRed
    } else if i == 2 {
        Color::Green
    } else if i == 3 {
        Color::DarkGreen
    } else if i == 4 {
        Color::Yellow
    } else if i == 5 {
        Color::DarkYellow
    } else if i == 6 {
        Color::Blue
    } else if i == 7 {
        Color::DarkBlue
    } else if i == 8 {
        Color::Magenta
    } else if i == 9 {
        Color::DarkMagenta
    } else if i == 10 {
        Color::Cyan
    } else {
        Color::DarkCyan
    }
}

/// The 64-bit hash that std's `DefaultHasher`, made with fixed keys, gives a string.
pub uninterp spec fn default_hash(key: Seq<char>) -> u64;

/// Relies on `BuildHasher::hash_one` over `BuildHasherDefault<DefaultHasher>`: the
/// hasher is built with fixed keys, so the hash depends on the string alone.
#[verifier::external_body]
fn hash_key(key: &String) -> (h: u64)
    ensures
        h == default_hash(key@),
{
    std::hash::BuildHasher::hash_one(
        &std::hash::BuildHasherDefault::<std::collections::hash_map::DefaultHasher>::default(),
        key,
    )
}

/// The palette color that a hash selects.
pub open spec fn color_for_hash_spec(h: u64) -> Color {
    palette_spec((h % PALETTE_SIZE) as int)
}

/// The color of a source, derived from its key.
pub open spec fn color_spec(key: Seq<char>) -> Color {
    color_for_hash_spec(default_hash(key))
}

/// Picks the palette color for a hash value.
pub fn color_for_hash(h: u64) -> (c: Color)
    ensures
        c == color_for_hash_spec(h),
{
    palette(h % PALETTE_SIZE)
}

/// The display color of the source with key `key`.
pub fn color_of(key: &String) -> (c: Color)
    ensures
        c == color_spec(key@),
{
    let h = hash_key(key);
    color_for_hash(h)
}

/// The same key always gets the same color.
pub proof fn lemma_color_deterministic(a: Seq<char>, b: Seq<char>)
    requires
        a == b,
    ensures
        color_spec(a) == color_spec(b),
{
}

/// The key of a source: instance name, a space, container name.
pub open spec fn source_key_spec(instance: Seq<char>, container: Seq<char>) -> Seq<char> {
    instance + seq![' '] + container
}

/// Builds the key that identifies a source in the display.
pub fn source_key(instance: &String, container: &String) -> (r: String)
    ensures
        r@ == source_key_spec(instance@, container@),
{
    let mut r = instance.clone();
    r.push(' ');
    let cs = chars_of(container.as_str());
    let ghost start = r@;
    let mut i: usize = 0;
    while i < cs.len()
        invariant
            i <= cs@.len(),
            cs@ == container@,
            r@ == start + cs@.take(i as int),
        decreases cs@.len() - i,
    {
        r.push(cs[i]);
        proof {
            assert(cs@.take(i as int).push(cs@[i as int]) =~= cs@.take(i + 1));
        }
        i = i + 1;
    }
    proof {
        assert(cs@.take(cs@.len() as int) =~= cs@);
    }
    r
}

/// One log line as displayed: the source's key and color, and the sanitized text.
#[derive(Clone, Debug)]
pub struct ContainerLog {
    pub key: String,
    pub color: Color,
    pub body: String,
}

/// What a log record holds, as plain values.
pub struct LogView {
    pub key: Seq<char>,
    pub color: Color,
    pub body: Seq<char>,
}

impl View for ContainerLog {
    type V = LogView;

    open spec fn view(&self) -> LogView {
        LogView { key: self.key@, color: self.color, body: self.body@ }
    }
}

/// The record made from a raw line read from the source with key `key`.
pub open spec fn record_spec(key: Seq<char>, color: Color, line: Seq<char>) -> LogView {
    LogView { key, color, body: sanitized(line) }
}

impl ContainerLog {
    /// Makes the record of a raw line read from a source.
    pub fn from_line(key: &String, color: Color, line: &str) -> (r: ContainerLog)
        ensures
            r@ == record_spec(key@, color, line@),
    {
        ContainerLog { key: key.clone(), color, body: sanitize(line) }
    }
}

} // verus!
